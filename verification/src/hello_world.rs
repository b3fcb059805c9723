//! The messages of the greeter service.

use vstd::prelude::*;

verus! {

/// The request of `SayHello`: a name. Any string is accepted, the empty one
/// included.
#[derive(Clone, Debug, PartialEq, Eq)]
pub struct HelloRequest {
    pub name: String,
}

impl View for HelloRequest {
    type V = Seq<char>;

    open spec fn view(&self) -> Seq<char> {
        self.name@
    }
}

/// The reply of `SayHello`: a message.
#[derive(Clone, Debug, PartialEq, Eq)]
pub struct HelloReply {
    pub message: String,
}

impl View for HelloReply {
    type V = Seq<char>;

    open spec fn view(&self) -> Seq<char> {
        self.message@
    }
}

/// The request of `GetCount`. It carries nothing: receiving it is what
/// triggers one increment.
#[derive(Clone, Copy, Debug, PartialEq, Eq)]
pub struct CountRequest {}

/// The reply of `GetCount`: the value of the counter right after the
/// increment that this call caused.
#[derive(Clone, Copy, Debug, PartialEq, Eq)]
pub struct CountReply {
    pub count: i32,
}

impl View for CountReply {
    type V = int;

    open spec fn view(&self) -> int {
        self.count as int
    }
}

} // verus!
