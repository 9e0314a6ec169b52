//! The immutable run configuration.
//!
//! The surrounding command-line layer parses and validates the user's
//! arguments — the filter pattern as a well-formed regular expression, the
//! destination as a URL — and then hands this crate one value of
//! [`Configuration`], plain bytes and an integer, fixed for the life of the
//! process.  Text fields are UTF-8 bytes.

use vstd::prelude::*;
use crate::payload::{encode_payload, payload_bytes};

verus! {

/// The validated run configuration, immutable once constructed.
#[derive(Clone, Debug)]
pub struct Configuration {
    /// Caller name; the payload's `id` field.
    pub name: Vec<u8>,
    /// Filter pattern, validated as well-formed by the supplier but carried
    /// and transmitted as an opaque string — it is never evaluated against
    /// anything here; the payload's `cmdIdRe` field.
    pub pattern: Vec<u8>,
    /// Command text; the payload's `cmd` field.
    pub cmd: Vec<u8>,
    /// Destination address, validated as a URL by the supplier; where each
    /// tick's request is posted.
    pub dst_url: Vec<u8>,
    /// The interval between ticks, in milliseconds; always positive.
    pub interval_ms: u32,
}

impl Configuration {
    /// The configuration's invariant: the tick interval is positive.
    pub open spec fn well_formed(&self) -> bool {
        self.interval_ms >= 1
    }

    /// Build a configuration from already validated inputs.
    pub fn new(
        name: Vec<u8>,
        pattern: Vec<u8>,
        cmd: Vec<u8>,
        dst_url: Vec<u8>,
        interval_ms: u32,
    ) -> (c: Self)
        requires
            interval_ms >= 1,
        ensures
            c.well_formed(),
            c.name@ == name@,
            c.pattern@ == pattern@,
            c.cmd@ == cmd@,
            c.dst_url@ == dst_url@,
            c.interval_ms == interval_ms,
    {
        Configuration { name, pattern, cmd, dst_url, interval_ms }
    }

    /// The request payload for one tick.  It is built from the configuration
    /// alone, so every tick of a run sends the same bytes.
    pub fn tick_payload(&self) -> (r: Vec<u8>)
        ensures
            r@ == payload_bytes(self.name@, self.pattern@, self.cmd@),
    {
        encode_payload(&self.name, &self.pattern, &self.cmd)
    }
}

} // verus!
