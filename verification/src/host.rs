//! Values as the host hands them over.

use vstd::prelude::*;

verus! {

/// A value of the host, as far as a conversion reads it.
#[derive(PartialEq, Eq, Debug)]
pub enum HostValue {
    /// A string, with its text.
    Text(String),
    /// Any other value, with the name of the host's type of it.
    Other { value_type: String },
}

/// A host value with its texts as sequences of characters.
pub enum HostValueView {
    Text(Seq<char>),
    Other { value_type: Seq<char> },
}

impl View for HostValue {
    type V = HostValueView;

    open spec fn view(&self) -> HostValueView {
        match self {
            HostValue::Text(text) => HostValueView::Text(text@),
            HostValue::Other { value_type } => HostValueView::Other { value_type: value_type@ },
        }
    }
}

/// One cooperative step of an operation that may take time: either its
/// result, or the answer that the host has to resume it once more.
#[derive(PartialEq, Eq, Debug)]
pub enum Step<T> {
    /// The operation has not completed.
    NotYet,
    /// The operation has completed with this result.
    Done(T),
}

} // verus!
