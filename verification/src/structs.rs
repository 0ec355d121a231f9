//! Plain value types shared between the caller and the core.

use vstd::prelude::*;

verus! {

/// An opaque token naming one open document view inside the core.
///
/// Produced by the core in reply to a `new_view` request and presented by the
/// caller on every subsequent per-view call. Nothing is assumed of its text
/// beyond equality and serializability.
#[derive(Clone, Debug, PartialEq, Eq)]
pub struct ViewId(pub String);

impl View for ViewId {
    type V = Seq<char>;

    open spec fn view(&self) -> Seq<char> {
        self.0@
    }
}

/// How a find-navigation command treats the selection, serialized as one of
/// the wire spellings `"none"`, `"set"` or `"add"`.
#[derive(Clone, Copy, Debug, PartialEq, Eq)]
pub enum ModifySelection {
    /// Leave the selection untouched (`"none"` on the wire).
    Nothing,
    /// Replace the selection with the match (`"set"` on the wire).
    Assign,
    /// Add the match to the selection (`"add"` on the wire).
    Add,
}

impl ModifySelection {
    /// The wire spelling of this variant.
    pub open spec fn wire(self) -> Seq<char> {
        match self {
            ModifySelection::Nothing => "none"@,
            ModifySelection::Assign => "set"@,
            ModifySelection::Add => "add"@,
        }
    }

    /// The wire spelling, as embedded in find-navigation parameters.
    pub fn wire_str(&self) -> (s: &'static str)
        ensures
            s@ == self.wire(),
    {
        match self {
            ModifySelection::Nothing => "none",
            ModifySelection::Assign => "set",
            ModifySelection::Add => "add",
        }
    }
}

} // verus!
