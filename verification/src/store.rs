//! The cursor state: the timestamp watermark of the last fully-processed
//! batch. Reading and writing the file that persists it is the driver's
//! side; the state value and its meaning live here.

use crate::strutil::{append_decimal, dec_rep};
use vstd::prelude::*;

verus! {

/// The persisted watermark: messages at or before this timestamp are done.
pub struct State {
    pub last_ts: String,
}

pub ghost struct StateV {
    pub last_ts: Seq<char>,
}

impl View for State {
    type V = StateV;

    open spec fn view(&self) -> StateV {
        StateV { last_ts: self.last_ts@ }
    }
}

impl State {
    /// The initial state when no watermark was persisted yet: the given
    /// current Unix time, printed in decimal, so that only messages from now
    /// on are processed.
    pub fn new(now_unix_secs: usize) -> (r: State)
        ensures
            r@.last_ts == dec_rep(now_unix_secs as int),
    {
        let mut ts = String::new();
        append_decimal(&mut ts, now_unix_secs);
        proof {
            assert(ts@ =~= dec_rep(now_unix_secs as int));
        }
        State { last_ts: ts }
    }

    pub fn duplicate(&self) -> (r: State)
        ensures
            r@ == self@,
    {
        State { last_ts: self.last_ts.clone() }
    }
}

} // verus!
