//! The failures that are reported back to the host.
//!
//! Every failure is a value of its own kind, so that the host can tell a
//! conversion that went wrong from an engine that did not start, and each has
//! a descriptive text.

use vstd::prelude::*;

verus! {

/// What a host value was to be converted to.
#[derive(Clone, Copy, PartialEq, Eq, Structural, Debug)]
pub enum Target {
    /// A severity level.
    Level,
    /// A kind of symbol.
    SymbolKind,
}

/// A failure reported back across the boundary.
#[derive(PartialEq, Eq, Debug)]
pub enum Failure {
    /// A host value that is no string was given where a name was expected.
    ExpectedString { target: Target, found: String },
    /// A name that is not in the vocabulary of severity levels.
    UnknownLevel { name: String },
    /// A name that the engine does not know as a kind of symbol.
    UnknownSymbolKind { name: String },
    /// The indexer could not be constructed.
    IndexerConstruction { detail: String },
    /// The watch loop did not start.
    WatchStartup { detail: String },
    /// The initial full index did not complete.
    InitialIndex { detail: String },
    /// Neither did the watch loop start nor the initial full index complete.
    WatchStartupAndInitialIndex { watch: String, index: String },
    /// The watcher has been stopped and cannot be started again.
    WatcherStopped,
}

/// A failure with its texts as sequences of characters.
pub enum FailureView {
    ExpectedString { target: Target, found: Seq<char> },
    UnknownLevel { name: Seq<char> },
    UnknownSymbolKind { name: Seq<char> },
    IndexerConstruction { detail: Seq<char> },
    WatchStartup { detail: Seq<char> },
    InitialIndex { detail: Seq<char> },
    WatchStartupAndInitialIndex { watch: Seq<char>, index: Seq<char> },
    WatcherStopped,
}

impl View for Failure {
    type V = FailureView;

    open spec fn view(&self) -> FailureView {
        match self {
            Failure::ExpectedString { target, found } => FailureView::ExpectedString {
                target: *target,
                found: found@,
            },
            Failure::UnknownLevel { name } => FailureView::UnknownLevel { name: name@ },
            Failure::UnknownSymbolKind { name } => FailureView::UnknownSymbolKind { name: name@ },
            Failure::IndexerConstruction { detail } => FailureView::IndexerConstruction {
                detail: detail@,
            },
            Failure::WatchStartup { detail } => FailureView::WatchStartup { detail: detail@ },
            Failure::InitialIndex { detail } => FailureView::InitialIndex { detail: detail@ },
            Failure::WatchStartupAndInitialIndex { watch, index } =>
                FailureView::WatchStartupAndInitialIndex { watch: watch@, index: index@ },
            Failure::WatcherStopped => FailureView::WatcherStopped,
        }
    }
}

impl FailureView {
    /// The descriptive text of a failure.
    pub open spec fn message(self) -> Seq<char> {
        match self {
            FailureView::ExpectedString { .. } => "Expected a string"@,
            FailureView::UnknownLevel { .. } =>
                "Invalid log level: attempted to convert a string that doesn't match an existing log level"@,
            FailureView::UnknownSymbolKind { .. } =>
                "Invalid SymbolKind: Matching variant not found"@,
            FailureView::IndexerConstruction { detail } => "Failed to create indexer for: "@
                + detail,
            FailureView::WatchStartup { detail } => detail,
            FailureView::InitialIndex { detail } => "Initial indexing failed: "@ + detail,
            FailureView::WatchStartupAndInitialIndex { watch, index } => watch
                + "; Initial indexing failed: "@ + index,
            FailureView::WatcherStopped => "Watcher has been stopped"@,
        }
    }
}

impl Target {
    /// The name of the target, as a conversion failure gives it.
    pub open spec fn name_text(self) -> Seq<char> {
        match self {
            Target::Level => "Level"@,
            Target::SymbolKind => "SymbolKind"@,
        }
    }

    /// The name of the target, as a conversion failure gives it.
    pub fn name(&self) -> (text: &'static str)
        ensures
            text@ == self.name_text(),
    {
        match self {
            Target::Level => "Level",
            Target::SymbolKind => "SymbolKind",
        }
    }
}

impl Failure {
    /// The descriptive text of the failure.
    pub fn message(&self) -> (text: String)
        ensures
            text@ == self@.message(),
    {
        match self {
            Failure::ExpectedString { .. } => "Expected a string".to_owned(),
            Failure::UnknownLevel { .. } =>
                "Invalid log level: attempted to convert a string that doesn't match an existing log level".to_owned(),
            Failure::UnknownSymbolKind { .. } =>
                "Invalid SymbolKind: Matching variant not found".to_owned(),
            Failure::IndexerConstruction { detail } => "Failed to create indexer for: ".to_owned().concat(
                detail.as_str(),
            ),
            Failure::WatchStartup { detail } => detail.clone(),
            Failure::InitialIndex { detail } => "Initial indexing failed: ".to_owned().concat(
                detail.as_str(),
            ),
            Failure::WatchStartupAndInitialIndex { watch, index } => watch.clone().concat(
                "; Initial indexing failed: ",
            ).concat(index.as_str()),
            Failure::WatcherStopped => "Watcher has been stopped".to_owned(),
        }
    }
}

} // verus!
