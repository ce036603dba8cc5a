//! Request payloads: the parameters of an operation, as named members in order.

use vstd::prelude::*;
use vstd::string::StringExecFns;

verus! {

/// The value of one member of a payload.
#[derive(Clone, Debug, PartialEq, Eq)]
pub enum Scalar {
    Text(String),
    Number(usize),
}

/// What a `Scalar` holds.
pub enum ScalarView {
    Text(Seq<char>),
    Number(usize),
}

impl View for Scalar {
    type V = ScalarView;

    open spec fn view(&self) -> ScalarView {
        match *self {
            Scalar::Text(s) => ScalarView::Text(s@),
            Scalar::Number(n) => ScalarView::Number(n),
        }
    }
}

/// One named member of a payload.
#[derive(Clone, Debug, PartialEq, Eq)]
pub struct Member {
    pub name: String,
    pub value: Scalar,
}

impl View for Member {
    type V = (Seq<char>, ScalarView);

    open spec fn view(&self) -> (Seq<char>, ScalarView) {
        (self.name@, self.value@)
    }
}

/// A payload: members in the order in which they were added.
#[derive(Clone, Debug, PartialEq, Eq)]
pub struct Payload {
    pub members: Vec<Member>,
}

impl View for Payload {
    type V = Seq<(Seq<char>, ScalarView)>;

    open spec fn view(&self) -> Seq<(Seq<char>, ScalarView)> {
        Seq::new(self.members@.len(), |i: int| self.members@[i]@)
    }
}

/// The view of a payload that may be absent.
pub open spec fn body_view(body: Option<Payload>) -> Option<Seq<(Seq<char>, ScalarView)>> {
    match body {
        Some(p) => Some(p@),
        None => None,
    }
}

/// The member that names an operation.
pub open spec fn kind_member(kind: Seq<char>) -> (Seq<char>, ScalarView) {
    ("type"@, ScalarView::Text(kind))
}

/// A member that holds text.
pub open spec fn text_member(name: Seq<char>, value: Seq<char>) -> (Seq<char>, ScalarView) {
    (name, ScalarView::Text(value))
}

/// A member that holds a number.
pub open spec fn number_member(name: Seq<char>, value: usize) -> (Seq<char>, ScalarView) {
    (name, ScalarView::Number(value))
}

impl Payload {
    /// A payload that holds only the operation's name, under `type`.
    pub fn of_kind(kind: &str) -> (p: Payload)
        ensures
            p@ == seq![kind_member(kind@)],
    {
        let mut members: Vec<Member> = Vec::new();
        members.push(
            Member { name: String::from_str("type"), value: Scalar::Text(String::from_str(kind)) },
        );
        let p = Payload { members };
        assert(p@ =~= seq![kind_member(kind@)]);
        p
    }

    /// Adds a member that holds text, after those already there.
    pub fn text(self, name: &str, value: &str) -> (p: Payload)
        ensures
            p@ == self@.push(text_member(name@, value@)),
    {
        let mut members = self.members;
        members.push(
            Member { name: String::from_str(name), value: Scalar::Text(String::from_str(value)) },
        );
        let p = Payload { members };
        assert(p@ =~= self@.push(text_member(name@, value@)));
        p
    }

    /// Adds a member that holds a number, after those already there.
    pub fn number(self, name: &str, value: usize) -> (p: Payload)
        ensures
            p@ == self@.push(number_member(name@, value)),
    {
        let mut members = self.members;
        members.push(Member { name: String::from_str(name), value: Scalar::Number(value) });
        let p = Payload { members };
        assert(p@ =~= self@.push(number_member(name@, value)));
        p
    }
}

} // verus!
