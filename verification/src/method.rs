//! Method tags: marker types that say which HTTP verb a request stands for.

use vstd::prelude::*;
use crate::sealed::Sealed;

verus! {

/// An HTTP verb that the API uses.
#[derive(Clone, Copy, Debug, PartialEq, Eq, Structural)]
pub enum Verb {
    Get,
    Post,
    Put,
    Delete,
}

/// A method tag. Each tag is bound to one verb and says whether a call made
/// under it sends a body. The set is closed: `List`, `Get`, `Create`,
/// `Update` and `Delete` are its only members.
pub trait Method: Sealed {
    /// The verb of this tag.
    spec fn verb_of() -> Verb;

    /// Whether a call under this tag sends the request's body.
    spec fn sends_body_of() -> bool;

    fn verb() -> (v: Verb)
        ensures
            v == Self::verb_of(),
    ;

    fn sends_body() -> (b: bool)
        ensures
            b == Self::sends_body_of(),
    ;
}

/// Fetch every item of a collection.
#[derive(Clone, Copy, Debug)]
pub struct List;

/// Fetch one identified item.
#[derive(Clone, Copy, Debug)]
pub struct Get;

/// Create an item, or start an operation on one.
#[derive(Clone, Copy, Debug)]
pub struct Create;

/// Change an identified item.
#[derive(Clone, Copy, Debug)]
pub struct Update;

/// Remove an identified item.
#[derive(Clone, Copy, Debug)]
pub struct Delete;

impl Sealed for List {
}

impl Method for List {
    open spec fn verb_of() -> Verb {
        Verb::Get
    }

    open spec fn sends_body_of() -> bool {
        false
    }

    fn verb() -> (v: Verb) {
        Verb::Get
    }

    fn sends_body() -> (b: bool) {
        false
    }
}

impl Sealed for Get {
}

impl Method for Get {
    open spec fn verb_of() -> Verb {
        Verb::Get
    }

    open spec fn sends_body_of() -> bool {
        false
    }

    fn verb() -> (v: Verb) {
        Verb::Get
    }

    fn sends_body() -> (b: bool) {
        false
    }
}

impl Sealed for Create {
}

impl Method for Create {
    open spec fn verb_of() -> Verb {
        Verb::Post
    }

    open spec fn sends_body_of() -> bool {
        true
    }

    fn verb() -> (v: Verb) {
        Verb::Post
    }

    fn sends_body() -> (b: bool) {
        true
    }
}

impl Sealed for Update {
}

impl Method for Update {
    open spec fn verb_of() -> Verb {
        Verb::Put
    }

    open spec fn sends_body_of() -> bool {
        true
    }

    fn verb() -> (v: Verb) {
        Verb::Put
    }

    fn sends_body() -> (b: bool) {
        true
    }
}

impl Sealed for Delete {
}

impl Method for Delete {
    open spec fn verb_of() -> Verb {
        Verb::Delete
    }

    open spec fn sends_body_of() -> bool {
        false
    }

    fn verb() -> (v: Verb) {
        Verb::Delete
    }

    fn sends_body() -> (b: bool) {
        false
    }
}

} // verus!
