//! Per-flow fault-injection parameters and their fixed-size wire form.
//!
//! A flow configuration is pure data: four numeric parameters, each
//! defaulted to zero (no fault injected). For storage in the kernel-shared
//! map the record has a fixed 32-byte encoding — four little-endian 64-bit
//! fields, no variable-length parts — and `from_wire_form` is the exact
//! inverse of `to_wire_form`.

use vstd::bytes::*;
use vstd::prelude::*;
use vstd::slice::slice_subrange;

use crate::errors::ConfigError;

verus! {

/// Number of bytes of the wire form of one flow configuration.
pub const WIRE_LEN: usize = 32;

/// Largest admissible loss percentage.
pub const MAX_LOSS_PERCENT: u64 = 100;

/// Fault-injection parameters for one direction of one flow.
///
/// Immutable once read from the configuration source; two instances are
/// associated with a flow, one per traffic direction.
#[derive(Clone, Copy, PartialEq, Eq, Structural, Debug)]
pub struct FlowConfig {
    /// Added one-way delay, in microseconds.
    pub delay_micros: u64,
    /// Random jitter added on top of the delay, in microseconds.
    pub jitter_micros: u64,
    /// Percentage of packets dropped; at most [`MAX_LOSS_PERCENT`].
    pub loss_percent: u64,
    /// Bandwidth cap, in kilobits per second; zero means uncapped.
    pub bandwidth_kbps: u64,
}

impl FlowConfig {
    /// A valid record: the loss percentage is an actual percentage.
    pub open spec fn wf(self) -> bool {
        self.loss_percent <= MAX_LOSS_PERCENT
    }

    /// Builds a record, rejecting an out-of-range loss percentage.
    pub fn new(
        delay_micros: u64,
        jitter_micros: u64,
        loss_percent: u64,
        bandwidth_kbps: u64,
    ) -> (r: Result<FlowConfig, ConfigError>)
        ensures
            loss_percent <= MAX_LOSS_PERCENT <==> (r matches Ok(c) && c == (FlowConfig {
                delay_micros,
                jitter_micros,
                loss_percent,
                bandwidth_kbps,
            })),
            loss_percent > MAX_LOSS_PERCENT <==> (r matches Err(e) && e
                == ConfigError::Malformed),
            r matches Ok(c) ==> c.wf(),
    {
        if loss_percent > MAX_LOSS_PERCENT {
            Err(ConfigError::Malformed)
        } else {
            Ok(FlowConfig { delay_micros, jitter_micros, loss_percent, bandwidth_kbps })
        }
    }

    /// The wire form: the four fields, each as 8 little-endian bytes.
    pub open spec fn spec_wire(self) -> Seq<u8> {
        spec_u64_to_le_bytes(self.delay_micros) + spec_u64_to_le_bytes(self.jitter_micros)
            + spec_u64_to_le_bytes(self.loss_percent) + spec_u64_to_le_bytes(self.bandwidth_kbps)
    }

    /// Produces the fixed-size binary encoding for kernel-map storage.
    pub fn to_wire_form(&self) -> (r: Vec<u8>)
        ensures
            r@ == self.spec_wire(),
            r@.len() == WIRE_LEN,
    {
        proof {
            lemma_auto_spec_u64_to_from_le_bytes();
        }
        let mut out = u64_to_le_bytes(self.delay_micros);
        let mut jitter = u64_to_le_bytes(self.jitter_micros);
        let mut loss = u64_to_le_bytes(self.loss_percent);
        let mut bandwidth = u64_to_le_bytes(self.bandwidth_kbps);
        out.append(&mut jitter);
        out.append(&mut loss);
        out.append(&mut bandwidth);
        out
    }

    /// Decodes the wire form; the exact inverse of [`Self::to_wire_form`].
    ///
    /// Fails with `ConfigError::Malformed` exactly on inputs that no valid
    /// record encodes to: a length other than [`WIRE_LEN`], or a loss field
    /// above [`MAX_LOSS_PERCENT`].
    pub fn from_wire_form(bytes: &[u8]) -> (r: Result<FlowConfig, ConfigError>)
        ensures
            wire_ok(bytes@) <==> (r matches Ok(c) && c == spec_from_wire(bytes@)),
            !wire_ok(bytes@) <==> (r matches Err(e) && e == ConfigError::Malformed),
            r matches Ok(c) ==> c.wf() && c.spec_wire() == bytes@,
    {
        proof {
            lemma_auto_spec_u64_to_from_le_bytes();
        }
        if bytes.len() != WIRE_LEN {
            return Err(ConfigError::Malformed);
        }
        let delay_micros = u64_from_le_bytes(slice_subrange(bytes, 0, 8));
        let jitter_micros = u64_from_le_bytes(slice_subrange(bytes, 8, 16));
        let loss_percent = u64_from_le_bytes(slice_subrange(bytes, 16, 24));
        let bandwidth_kbps = u64_from_le_bytes(slice_subrange(bytes, 24, 32));
        if loss_percent > MAX_LOSS_PERCENT {
            return Err(ConfigError::Malformed);
        }
        let c = FlowConfig { delay_micros, jitter_micros, loss_percent, bandwidth_kbps };
        proof {
            lemma_wire_fields(bytes@);
            assert(c == spec_from_wire(bytes@));
            lemma_from_wire_inverse(bytes@);
        }
        Ok(c)
    }
}

/// The byte sequences that decode to a valid record.
pub open spec fn wire_ok(s: Seq<u8>) -> bool {
    s.len() == WIRE_LEN && spec_u64_from_le_bytes(s.subrange(16, 24)) <= MAX_LOSS_PERCENT
}

/// The record a 32-byte wire form decodes to.
pub open spec fn spec_from_wire(s: Seq<u8>) -> FlowConfig
    recommends
        s.len() == WIRE_LEN,
{
    FlowConfig {
        delay_micros: spec_u64_from_le_bytes(s.subrange(0, 8)),
        jitter_micros: spec_u64_from_le_bytes(s.subrange(8, 16)),
        loss_percent: spec_u64_from_le_bytes(s.subrange(16, 24)),
        bandwidth_kbps: spec_u64_from_le_bytes(s.subrange(24, 32)),
    }
}

/// The wire form splits into the four 8-byte fields.
proof fn lemma_wire_fields(s: Seq<u8>)
    requires
        s.len() == WIRE_LEN,
    ensures
        spec_from_wire(s).spec_wire() == s <==> {
            &&& spec_u64_to_le_bytes(spec_u64_from_le_bytes(s.subrange(0, 8))) == s.subrange(0, 8)
            &&& spec_u64_to_le_bytes(spec_u64_from_le_bytes(s.subrange(8, 16))) == s.subrange(
                8,
                16,
            )
            &&& spec_u64_to_le_bytes(spec_u64_from_le_bytes(s.subrange(16, 24))) == s.subrange(
                16,
                24,
            )
            &&& spec_u64_to_le_bytes(spec_u64_from_le_bytes(s.subrange(24, 32))) == s.subrange(
                24,
                32,
            )
        },
{
    lemma_auto_spec_u64_to_from_le_bytes();
    let w = spec_from_wire(s).spec_wire();
    assert(w.len() == WIRE_LEN);
    if spec_u64_to_le_bytes(spec_u64_from_le_bytes(s.subrange(0, 8))) == s.subrange(0, 8)
        && spec_u64_to_le_bytes(spec_u64_from_le_bytes(s.subrange(8, 16))) == s.subrange(8, 16)
        && spec_u64_to_le_bytes(spec_u64_from_le_bytes(s.subrange(16, 24))) == s.subrange(16, 24)
        && spec_u64_to_le_bytes(spec_u64_from_le_bytes(s.subrange(24, 32))) == s.subrange(24, 32) {
        assert forall|i: int| 0 <= i < WIRE_LEN implies w[i] == s[i] by {
            if i < 8 {
                assert(w[i] == s.subrange(0, 8)[i]);
            } else if i < 16 {
                assert(w[i] == s.subrange(8, 16)[i - 8]);
            } else if i < 24 {
                assert(w[i] == s.subrange(16, 24)[i - 16]);
            } else {
                assert(w[i] == s.subrange(24, 32)[i - 24]);
            }
        }
        assert(w =~= s);
    }
    if w == s {
        assert forall|i: int| 0 <= i < 8 implies spec_u64_to_le_bytes(
            spec_u64_from_le_bytes(s.subrange(0, 8)),
        )[i] == s.subrange(0, 8)[i] by {
            assert(w[i] == s[i]);
        }
        assert(spec_u64_to_le_bytes(spec_u64_from_le_bytes(s.subrange(0, 8))) =~= s.subrange(0, 8));
        assert forall|i: int| 0 <= i < 8 implies spec_u64_to_le_bytes(
            spec_u64_from_le_bytes(s.subrange(8, 16)),
        )[i] == s.subrange(8, 16)[i] by {
            assert(w[i + 8] == s[i + 8]);
        }
        assert(spec_u64_to_le_bytes(spec_u64_from_le_bytes(s.subrange(8, 16))) =~= s.subrange(
            8,
            16,
        ));
        assert forall|i: int| 0 <= i < 8 implies spec_u64_to_le_bytes(
            spec_u64_from_le_bytes(s.subrange(16, 24)),
        )[i] == s.subrange(16, 24)[i] by {
            assert(w[i + 16] == s[i + 16]);
        }
        assert(spec_u64_to_le_bytes(spec_u64_from_le_bytes(s.subrange(16, 24))) =~= s.subrange(
            16,
            24,
        ));
        assert forall|i: int| 0 <= i < 8 implies spec_u64_to_le_bytes(
            spec_u64_from_le_bytes(s.subrange(24, 32)),
        )[i] == s.subrange(24, 32)[i] by {
            assert(w[i + 24] == s[i + 24]);
        }
        assert(spec_u64_to_le_bytes(spec_u64_from_le_bytes(s.subrange(24, 32))) =~= s.subrange(
            24,
            32,
        ));
    }
}

/// Law: decoding is a left inverse of encoding — every valid record
/// survives the round trip through the wire form unchanged.
pub proof fn lemma_wire_round_trip(c: FlowConfig)
    ensures
        c.spec_wire().len() == WIRE_LEN,
        wire_ok(c.spec_wire()) <==> c.wf(),
        c.wf() ==> spec_from_wire(c.spec_wire()) == c,
{
    lemma_auto_spec_u64_to_from_le_bytes();
    let w = c.spec_wire();
    assert(w.subrange(0, 8) =~= spec_u64_to_le_bytes(c.delay_micros));
    assert(w.subrange(8, 16) =~= spec_u64_to_le_bytes(c.jitter_micros));
    assert(w.subrange(16, 24) =~= spec_u64_to_le_bytes(c.loss_percent));
    assert(w.subrange(24, 32) =~= spec_u64_to_le_bytes(c.bandwidth_kbps));
}

/// Law: encoding is a left inverse of decoding — every byte string that
/// decodes successfully is reproduced exactly by re-encoding the record.
pub proof fn lemma_from_wire_inverse(s: Seq<u8>)
    requires
        wire_ok(s),
    ensures
        spec_from_wire(s).wf(),
        spec_from_wire(s).spec_wire() == s,
{
    lemma_auto_spec_u64_to_from_le_bytes();
    lemma_wire_fields(s);
}

impl Default for FlowConfig {
    /// The default record injects no fault at all.
    fn default() -> (r: Self)
        ensures
            r == (FlowConfig {
                delay_micros: 0u64,
                jitter_micros: 0u64,
                loss_percent: 0u64,
                bandwidth_kbps: 0u64,
            }),
            r.wf(),
    {
        FlowConfig { delay_micros: 0, jitter_micros: 0, loss_percent: 0, bandwidth_kbps: 0 }
    }
}

} // verus!
