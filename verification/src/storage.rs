//! Where state is kept on disk.
//!
//! The platform's state directory is found outside this crate. Given what was
//! found, this module decides where a piece of state goes: below the state
//! directory, or at a relative default where there is none.

use vstd::prelude::*;
use crate::text::optional_text;

verus! {

/// A place on disk, before its parts are joined.
#[derive(PartialEq, Eq, Debug)]
pub enum StatePath {
    /// The relative path `relative`, below the state directory `state`.
    UnderState { state: String, relative: String },
    /// The relative default, for a platform without a state directory.
    Fallback { path: String },
}

/// A place on disk with its texts as sequences of characters.
pub enum StatePathView {
    UnderState { state: Seq<char>, relative: Seq<char> },
    Fallback { path: Seq<char> },
}

impl View for StatePath {
    type V = StatePathView;

    open spec fn view(&self) -> StatePathView {
        match self {
            StatePath::UnderState { state, relative } => StatePathView::UnderState {
                state: state@,
                relative: relative@,
            },
            StatePath::Fallback { path } => StatePathView::Fallback { path: path@ },
        }
    }
}

/// The place of a piece of state: `relative` below the state directory where
/// there is one, `fallback` where there is none.
pub open spec fn placed(
    state: Option<Seq<char>>,
    relative: Seq<char>,
    fallback: Seq<char>,
) -> StatePathView {
    match state {
        Some(state) => StatePathView::UnderState { state, relative },
        None => StatePathView::Fallback { path: fallback },
    }
}

/// Decides the place of a piece of state.
pub fn place(state: Option<String>, relative: &str, fallback: &str) -> (path: StatePath)
    ensures
        path@ == placed(optional_text(state), relative@, fallback@),
{
    match state {
        Some(state) => StatePath::UnderState { state, relative: relative.to_owned() },
        None => StatePath::Fallback { path: fallback.to_owned() },
    }
}

} // verus!
