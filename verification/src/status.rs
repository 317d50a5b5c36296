//! The status codec: interpreting a raw wait-status value.
//!
//! The kernel reports a child's termination as a single integer whose bit
//! layout encodes whether the child exited normally (low byte zero, exit code
//! in the next byte) or was terminated by a signal (signal number in the low
//! seven bits). Decoding is total and pure: the same raw value decodes the
//! same way at every call site, whether during the race-free initial probe or
//! a later re-probe.

use vstd::prelude::*;

verus! {

/// True when the raw status says the child exited normally (rather than
/// being terminated by a signal): the low byte is zero.
pub open spec fn exited_normally(raw: i32) -> bool {
    raw & 0xff == 0
}

/// The exit code carried by a raw status of a normally exited child: the
/// byte above the low one.
pub open spec fn encoded_exit_code(raw: i32) -> i32 {
    (raw >> 8) & 0xff
}

/// The signal number carried by a raw status of a signal-terminated child:
/// the low seven bits (the eighth low bit flags a core dump and is not part
/// of the signal number).
pub open spec fn encoded_signal(raw: i32) -> i32 {
    raw & 0x7f
}

/// What `ExitStatus::code` decodes from a raw status.
pub open spec fn decoded_code(raw: i32) -> Option<i32> {
    if exited_normally(raw) {
        Some(encoded_exit_code(raw))
    } else {
        None
    }
}

/// What `ExitStatus::unix_signal` decodes from a raw status.
pub open spec fn decoded_signal(raw: i32) -> Option<i32> {
    if exited_normally(raw) {
        None
    } else {
        Some(encoded_signal(raw))
    }
}

/// Exit status from a child process, as one opaque platform status value.
///
/// Exactly one of `code` and `unix_signal` is ever non-empty: a child either
/// exited normally with a code or was terminated by a signal.
#[derive(Eq, PartialEq, Copy, Clone, Debug, Structural)]
pub struct ExitStatus {
    raw: i32,
}

impl ExitStatus {
    /// The raw status value this decodes.
    pub closed spec fn raw_spec(self) -> i32 {
        self.raw
    }

    /// Wraps a raw wait-status value as reported by the kernel.
    pub fn from_raw(raw: i32) -> (r: ExitStatus)
        ensures
            r.raw_spec() == raw,
    {
        ExitStatus { raw }
    }

    /// The raw status value this decodes.
    pub fn raw(&self) -> (r: i32)
        ensures
            r == self.raw_spec(),
    {
        self.raw
    }

    /// Returns whether this exit status represents a successful execution:
    /// the child exited normally with a status code of 0.
    pub fn success(&self) -> (r: bool)
        ensures
            r == (decoded_code(self.raw_spec()) == Some(0i32)),
    {
        let c = self.code();
        c == Some(0i32)
    }

    /// Returns the code associated with the child's exit event, or `None` if
    /// the child instead exited because of a signal.
    pub fn code(&self) -> (r: Option<i32>)
        ensures
            r == decoded_code(self.raw_spec()),
    {
        if self.raw & 0xff == 0 {
            Some((self.raw >> 8) & 0xff)
        } else {
            None
        }
    }

    /// Returns the signal which terminated this process, or `None` if the
    /// process exited normally.
    pub fn unix_signal(&self) -> (r: Option<i32>)
        ensures
            r == decoded_signal(self.raw_spec()),
    {
        if self.raw & 0xff == 0 {
            None
        } else {
            Some(self.raw & 0x7f)
        }
    }
}

/// Mutual exclusivity: for every raw status, exactly one of the two decoded
/// queries is non-empty. A status reports an exit code or a terminating
/// signal, never both and never neither.
pub proof fn lemma_code_signal_exclusive(raw: i32)
    ensures
        decoded_code(raw) is Some <==> decoded_signal(raw) is None,
{
}

/// Round trip for normal exits: a child that exits with code `c` (any value
/// in 0..=255) produces the raw status `c << 8`, which decodes back to exit
/// code `c` and to no terminating signal.
pub proof fn lemma_exit_code_round_trip(c: i32)
    requires
        0 <= c <= 255,
    ensures
        decoded_code(c << 8) == Some(c),
        decoded_signal(c << 8) is None,
{
    assert(exited_normally(c << 8) && encoded_exit_code(c << 8) == c) by (bit_vector)
        requires 0 <= c <= 255;
}

/// Round trip for signal terminations: a child killed by signal `s` produces
/// the raw status `s` (or `s | 0x80` when a core was dumped), and either form
/// decodes back to terminating signal `s` and to no exit code.
pub proof fn lemma_signal_round_trip(s: i32)
    requires
        1 <= s <= 126,
    ensures
        decoded_signal(s) == Some(s),
        decoded_code(s) is None,
        decoded_signal(s | 0x80) == Some(s),
        decoded_code(s | 0x80) is None,
{
    assert(!exited_normally(s) && encoded_signal(s) == s) by (bit_vector)
        requires 1 <= s <= 126;
    assert(!exited_normally(s | 0x80) && encoded_signal(s | 0x80) == s) by (bit_vector)
        requires 1 <= s <= 126;
}

} // verus!
