//! The API's resources, and what the answer to a request for each looks like.

use vstd::prelude::*;

pub mod volume_action;

verus! {

/// The form of a decoded answer.
#[derive(Clone, Copy, Debug, PartialEq, Eq, Structural)]
pub enum Shape {
    /// One record.
    Single,
    /// A sequence of records.
    Collection,
    /// Nothing: the call is made for its effect.
    Empty,
}

/// A value that the answer to a request decodes to. It states the form of
/// the answer and the member of the answer's document under which it stands.
pub trait HasResponse {
    spec fn shape_of() -> Shape;

    spec fn envelope_of() -> Seq<char>;

    fn shape() -> (s: Shape)
        ensures
            s == Self::shape_of(),
    ;

    fn envelope() -> (r: &'static str)
        ensures
            r@ == Self::envelope_of(),
    ;
}

/// A block storage volume.
#[derive(Clone, Debug, PartialEq, Eq)]
pub struct Volume {
    pub id: String,
    pub name: String,
    pub description: String,
    pub size_gigabytes: usize,
    pub droplet_ids: Vec<usize>,
    pub created_at: String,
}

/// An operation that the provider carries out in its own time.
#[derive(Clone, Debug, PartialEq, Eq)]
pub struct Action {
    pub id: usize,
    pub status: String,
    pub kind: String,
    pub started_at: String,
    pub completed_at: Option<String>,
    pub resource_id: Option<usize>,
    pub resource_type: String,
    pub region_slug: Option<String>,
}

impl HasResponse for Volume {
    open spec fn shape_of() -> Shape {
        Shape::Single
    }

    open spec fn envelope_of() -> Seq<char> {
        "volume"@
    }

    fn shape() -> (s: Shape) {
        Shape::Single
    }

    fn envelope() -> (r: &'static str) {
        "volume"
    }
}

impl HasResponse for Action {
    open spec fn shape_of() -> Shape {
        Shape::Single
    }

    open spec fn envelope_of() -> Seq<char> {
        "action"@
    }

    fn shape() -> (s: Shape) {
        Shape::Single
    }

    fn envelope() -> (r: &'static str) {
        "action"
    }
}

impl HasResponse for Vec<Action> {
    open spec fn shape_of() -> Shape {
        Shape::Collection
    }

    open spec fn envelope_of() -> Seq<char> {
        "actions"@
    }

    fn shape() -> (s: Shape) {
        Shape::Collection
    }

    fn envelope() -> (r: &'static str) {
        "actions"
    }
}

impl HasResponse for () {
    open spec fn shape_of() -> Shape {
        Shape::Empty
    }

    open spec fn envelope_of() -> Seq<char> {
        ""@
    }

    fn shape() -> (s: Shape) {
        Shape::Empty
    }

    fn envelope() -> (r: &'static str) {
        ""
    }
}

} // verus!
