//! Labels under which requests are counted.
use vstd::prelude::*;

verus! {

/// The HTTP method of a counted request.
#[derive(Debug, Clone, Copy, PartialEq, Eq, Structural)]
pub enum Method {
    Get,
    Post,
    Patch,
    Delete,
}

/// The kind of object a counted request concerns.
#[derive(Debug, Clone, Copy, PartialEq, Eq, Structural)]
pub enum Object {
    User,
}

impl Method {
    pub open spec fn label_spec(self) -> Seq<char> {
        match self {
            Method::Get => "GET"@,
            Method::Post => "POST"@,
            Method::Patch => "PATCH"@,
            Method::Delete => "DELETE"@,
        }
    }

    /// The label value for this method.
    pub fn label(&self) -> (r: &'static str)
        ensures
            r@ == self.label_spec(),
    {
        match self {
            Method::Get => "GET",
            Method::Post => "POST",
            Method::Patch => "PATCH",
            Method::Delete => "DELETE",
        }
    }
}

impl Object {
    pub open spec fn label_spec(self) -> Seq<char> {
        match self {
            Object::User => "user"@,
        }
    }

    /// The label value for this object.
    pub fn label(&self) -> (r: &'static str)
        ensures
            r@ == self.label_spec(),
    {
        match self {
            Object::User => "user",
        }
    }
}

} // verus!
