//! A lazily initialized, memoized engine slot.
//!
//! The first use of a slot constructs the engine and evaluates its
//! initialization script; the outcome, success or failure, is recorded and
//! never recomputed. In particular a failed initialization is never
//! retried: every later use observes an error with the same content. This
//! is a deliberate predictability trade-off. A host binds one slot to each
//! worker thread to give that thread its engine.

use vstd::prelude::*;

use crate::error::Error;
use crate::error::has_detail;
use crate::js_engine::quick_js::Engine;
use crate::opts::Opts;
use crate::render_inner;
use crate::init_engine;

verus! {

/// A memoized engine slot: at most one initialization ever runs.
pub struct EngineCache {
    source: String,
    slot: Option<Result<Engine, Error>>,
    attempts: u64,
}

impl EngineCache {
    /// Whether an outcome has been recorded.
    pub closed spec fn spec_initialized(&self) -> bool {
        self.slot is Some
    }

    /// The error recorded by a failed initialization, if that is the
    /// recorded outcome.
    pub closed spec fn spec_failure(&self) -> Option<Error> {
        match self.slot {
            Some(Err(e)) => Some(e),
            _ => None,
        }
    }

    /// How many times initialization has run.
    pub closed spec fn spec_attempts(&self) -> u64 {
        self.attempts
    }

    /// The initialization script.
    pub closed spec fn spec_source(&self) -> Seq<char> {
        self.source@
    }

    /// A slot runs initialization exactly once, and only when asked.
    pub open spec fn wf(&self) -> bool {
        &&& self.spec_initialized() <==> self.spec_attempts() == 1
        &&& !self.spec_initialized() <==> self.spec_attempts() == 0
    }

    /// A fresh slot for an engine to be initialized with the given script.
    /// Nothing runs yet.
    pub fn new(source: String) -> (r: EngineCache)
        ensures
            r.wf(),
            !r.spec_initialized(),
            r.spec_attempts() == 0,
            r.spec_source() == source@,
    {
        EngineCache { source, slot: None, attempts: 0 }
    }

    /// How many times initialization has run: zero before first use, one
    /// from then on.
    pub fn attempts(&self) -> (n: u64)
        ensures
            n == self.spec_attempts(),
    {
        self.attempts
    }

    /// Render through the memoized engine.
    ///
    /// The first call records the initialization outcome; no later call
    /// changes the record. Once a failure is recorded, every call returns
    /// an error with exactly the recorded content and runs nothing.
    pub fn render(&mut self, input: &str, opts: &Opts) -> (r: Result<String, Error>)
        requires
            old(self).wf(),
        ensures
            final(self).wf(),
            final(self).spec_initialized(),
            final(self).spec_source() == old(self).spec_source(),
            old(self).spec_initialized() ==> *final(self) == *old(self),
            final(self).spec_attempts() == 1,
            match final(self).spec_failure() {
                Some(e) => r == Err::<String, Error>(e),
                None => r matches Err(e) ==> has_detail(e),
            },
            old(self).spec_failure() matches Some(e) ==> r == Err::<String, Error>(e),
    {
        if self.slot.is_none() {
            self.attempts = self.attempts + 1;
            let outcome = init_engine(self.source.as_str());
            self.slot = Some(outcome);
        }
        match &self.slot {
            Some(Ok(engine)) => render_inner(engine, input, opts),
            Some(Err(e)) => Err(e.duplicate()),
            None => unreached(),
        }
    }
}

} // verus!
