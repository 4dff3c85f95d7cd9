//! ArgumentCache: the process-wide, write-once holder of the parsed options
//! record.
//!
//! Every entry path funnels its tokens here, so the slot may see more than
//! one store attempt; only the first one ever takes effect, and later
//! attempts are silently ignored (a deliberate no-op, not an error). A read
//! before the first store reports absence rather than a default-valued
//! record, so callers can tell "not yet initialized" from "initialized with
//! defaults". The hosting binary keeps one instance of this cache alive for
//! the life of the process behind its own synchronization primitive.

use vstd::prelude::*;

use crate::parser::{parse_args, spec_parse, Args};

verus! {

/// What one store attempt leaves in the slot: the first stored value wins,
/// every later attempt leaves the slot unchanged.
pub open spec fn cache_after_store(slot: Option<Args>, value: Args) -> Option<Args> {
    if slot is Some {
        slot
    } else {
        Some(value)
    }
}

/// Process-wide singleton slot holding at most one parsed options record.
pub struct ArgumentCache {
    slot: Option<Args>,
}

impl ArgumentCache {
    /// The slot's content: absent until the first store, then forever the
    /// first value stored.
    pub closed spec fn stored(&self) -> Option<Args> {
        self.slot
    }

    /// A fresh cache holds nothing.
    pub fn new() -> (c: Self)
        ensures
            c.stored() is None,
    {
        ArgumentCache { slot: None }
    }

    /// Parse the given tokens and store the result, only if nothing is
    /// stored yet; otherwise the call is a no-op and the tokens are
    /// discarded without being applied.
    pub fn set_parsed_args(&mut self, args: Vec<String>)
        ensures
            final(self).stored() == cache_after_store(old(self).stored(), spec_parse(args@)),
    {
        if self.slot.is_some() {
            return ;
        }
        self.slot = Some(parse_args(&args));
    }

    /// The stored options record, or absence if nothing was stored yet.
    /// Never a default-valued record, and never a partial one.
    pub fn get_args(&self) -> (r: Option<Args>)
        ensures
            r == self.stored(),
    {
        self.slot
    }
}

/// Law: storing is idempotent in the write-once sense — after a first store
/// into an empty slot, a second store attempt with any value (equal or
/// different) leaves exactly the first value observable.
pub proof fn lemma_cache_set_once(first: Args, second: Args)
    ensures
        cache_after_store(cache_after_store(None, first), second) == Some(first),
{
}

} // verus!
