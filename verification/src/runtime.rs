//! The two execution engines of the bridge, and the one operation by which
//! the host gives up a scheduling step.
//!
//! Work for the watcher and work for queries run on engines of their own.
//! Each engine is built when it is first entered and then lives as long as
//! the process.

use vstd::prelude::*;
use crate::host::Step;

verus! {

/// What an engine is for.
#[derive(Clone, Copy, PartialEq, Eq, Structural, Debug)]
pub enum Domain {
    /// Watching and indexing.
    Watch,
    /// Resolving queries.
    Query,
}

/// Which of the two engines have been built.
#[derive(Clone, Copy, PartialEq, Eq, Structural, Debug)]
pub struct Runtimes {
    pub watch_built: bool,
    pub query_built: bool,
}

impl Runtimes {
    /// Whether the engine of a domain has been built.
    pub open spec fn built(self, domain: Domain) -> bool {
        match domain {
            Domain::Watch => self.watch_built,
            Domain::Query => self.query_built,
        }
    }

    /// The engines after one of them has been entered: that one is built,
    /// the other is as it was.
    pub open spec fn entered(self, domain: Domain) -> Runtimes {
        match domain {
            Domain::Watch => Runtimes { watch_built: true, ..self },
            Domain::Query => Runtimes { query_built: true, ..self },
        }
    }

    /// The engines after each domain of `domains` has been entered, in order.
    pub open spec fn after(self, domains: Seq<Domain>) -> Runtimes
        decreases domains.len(),
    {
        if domains.len() == 0 {
            self
        } else {
            self.after(domains.drop_last()).entered(domains.last())
        }
    }

    /// How often the engine of `domain` is built while each domain of
    /// `domains` is entered, in order.
    pub open spec fn builds(self, domains: Seq<Domain>, domain: Domain) -> nat
        decreases domains.len(),
    {
        if domains.len() == 0 {
            0
        } else {
            let last: nat = if domains.last() == domain && !self.after(domains.drop_last()).built(
                domain,
            ) {
                1
            } else {
                0
            };
            self.builds(domains.drop_last(), domain) + last
        }
    }

    /// No engine has been built.
    pub fn new() -> (runtimes: Runtimes)
        ensures
            !runtimes.watch_built,
            !runtimes.query_built,
    {
        Runtimes { watch_built: false, query_built: false }
    }

    /// Enters the engine of a domain, and says whether it has to be built
    /// first: it has exactly when it is entered for the first time.
    pub fn enter(&mut self, domain: Domain) -> (build: bool)
        ensures
            *final(self) == old(self).entered(domain),
            build == !old(self).built(domain),
    {
        match domain {
            Domain::Watch => {
                let build = !self.watch_built;
                self.watch_built = true;
                build
            },
            Domain::Query => {
                let build = !self.query_built;
                self.query_built = true;
                build
            },
        }
    }
}

/// There is one engine for each domain: however often and in whatever order
/// the domains are entered, the engine of a domain is built exactly once if
/// it was not built before and the domain is entered at all, and never
/// otherwise.
pub proof fn engine_is_built_once(runtimes: Runtimes, domains: Seq<Domain>, domain: Domain)
    ensures
        runtimes.after(domains).built(domain) == (runtimes.built(domain) || domains.contains(
            domain,
        )),
        runtimes.builds(domains, domain) == (if !runtimes.built(domain) && domains.contains(
            domain,
        ) {
            1nat
        } else {
            0nat
        }),
    decreases domains.len(),
{
    if domains.len() > 0 {
        let front = domains.drop_last();
        engine_is_built_once(runtimes, front, domain);
        if front.contains(domain) {
            let i = choose|i: int| 0 <= i < front.len() && front[i] == domain;
            assert(domains[i] == domain);
        }
        if domains.last() == domain {
            assert(domains[domains.len() - 1] == domain);
        }
        if domains.contains(domain) && domains.last() != domain {
            let i = choose|i: int| 0 <= i < domains.len() && domains[i] == domain;
            assert(front[i] == domain);
        }
    }
}

/// The suspension that the host awaits to give up one scheduling step.
#[derive(Clone, Copy, PartialEq, Eq, Structural, Debug)]
pub struct Suspension {
    pub yielded: bool,
}

/// Starts a suspension: control has not been given up yet.
pub fn pending() -> (suspension: Suspension)
    ensures
        !suspension.yielded,
{
    Suspension { yielded: false }
}

impl Suspension {
    /// One step of the suspension. The first step gives control back to the
    /// host; every later step completes, with nothing to show.
    pub fn step(&mut self) -> (step: Step<()>)
        ensures
            final(self).yielded,
            step == (if old(self).yielded {
                Step::Done(())
            } else {
                Step::NotYet
            }),
    {
        if self.yielded {
            Step::Done(())
        } else {
            self.yielded = true;
            Step::NotYet
        }
    }
}

} // verus!
