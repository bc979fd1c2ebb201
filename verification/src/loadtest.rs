//! The decisions of an echo load test.
//!
//! A load test sends a probe of random bytes to an echo server, waits for
//! the reply, and repeats until told to stop. The sending and receiving are
//! the caller's; what is decided here is what a probe holds, whether a reply
//! is the echo of its probe, what an exchange adds to the counters, and when
//! the test ends.

use rand::rngs::OsRng;
use rand::RngCore;
use vstd::prelude::*;

verus! {

/// The number of bytes of a probe.
pub const PROBE_LEN: usize = 4096;

/// Overwrites `dest` with bytes from the operating system's random source,
/// by `try_fill_bytes` of rand's `OsRng`. Returns whether the source
/// delivered. Nothing is claimed of the bytes; the call cannot change how
/// many there are.
#[verifier::external_body]
fn os_fill_bytes(dest: &mut Vec<u8>) -> (ok: bool)
    ensures
        final(dest)@.len() == old(dest)@.len(),
{
    OsRng.try_fill_bytes(dest.as_mut_slice()).is_ok()
}

/// Turns a buffer that the random source was asked to fill into a probe:
/// the buffer itself if the source delivered, `None` if it did not.
pub fn probe_from(data: Vec<u8>, filled: bool) -> (probe: Option<Vec<u8>>)
    ensures
        probe == (if filled {
            Some(data)
        } else {
            None
        }),
{
    if filled {
        Some(data)
    } else {
        None
    }
}

/// Makes a probe: `PROBE_LEN` random bytes, or `None` if the operating
/// system's random source did not deliver.
pub fn new_probe() -> (probe: Option<Vec<u8>>)
    ensures
        probe matches Some(data) ==> data@.len() == PROBE_LEN,
{
    let mut data: Vec<u8> = Vec::new();
    data.resize(PROBE_LEN, 0u8);
    let filled = os_fill_bytes(&mut data);
    probe_from(data, filled)
}

/// How one exchange with the echo server ended.
#[derive(Debug, Clone, Copy, PartialEq, Eq, Structural)]
pub enum Exchange {
    /// The reply is the probe, byte for byte.
    Echoed,
    /// A reply came, and it is not the probe.
    Garbled,
    /// Sending or receiving failed; no reply came.
    Failed,
}

/// What an exchange with a given reply comes to.
pub open spec fn exchange_of(sent: Seq<u8>, reply: Option<Seq<u8>>) -> Exchange {
    match reply {
        None => Exchange::Failed,
        Some(bytes) => if bytes == sent {
            Exchange::Echoed
        } else {
            Exchange::Garbled
        },
    }
}

/// Tells whether two buffers hold the same bytes.
pub fn same_bytes(a: &[u8], b: &[u8]) -> (same: bool)
    ensures
        same == (a@ == b@),
{
    if a.len() != b.len() {
        return false;
    }
    let mut i: usize = 0;
    while i < a.len()
        invariant
            a@.len() == b@.len(),
            i <= a@.len(),
            forall|k: int| 0 <= k < i ==> a@[k] == b@[k],
        decreases a@.len() - i,
    {
        if a[i] != b[i] {
            return false;
        }
        i += 1;
    }
    assert(a@ =~= b@);
    true
}

/// Judges an exchange: `reply` is what came back for the probe `sent`, or
/// `None` if sending or receiving failed.
pub fn judge_reply(sent: &[u8], reply: Option<&[u8]>) -> (outcome: Exchange)
    ensures
        outcome == exchange_of(
            sent@,
            match reply {
                Some(bytes) => Some(bytes@),
                None => None,
            },
        ),
{
    match reply {
        None => Exchange::Failed,
        Some(bytes) => if same_bytes(bytes, sent) {
            Exchange::Echoed
        } else {
            Exchange::Garbled
        },
    }
}

/// What one exchange does to a running test.
#[derive(Debug, Clone, Copy, PartialEq, Eq, Structural)]
pub struct Tally {
    /// The exchange counts as an error.
    pub error: bool,
    /// The probe counts as sent.
    pub sent: bool,
    /// The test ends here.
    pub stop: bool,
}

/// What an exchange does to a running test: every exchange but a clean echo
/// is an error; an error ends the test, its probe uncounted, unless errors
/// are ignored.
pub open spec fn tally_of(outcome: Exchange, ignore_errors: bool) -> Tally {
    let error = outcome != Exchange::Echoed;
    let stop = error && !ignore_errors;
    Tally { error, sent: !stop, stop }
}

/// Decides what an exchange does to a running test.
pub fn tally(outcome: Exchange, ignore_errors: bool) -> (t: Tally)
    ensures
        t == tally_of(outcome, ignore_errors),
{
    let error = match outcome {
        Exchange::Echoed => false,
        Exchange::Garbled => true,
        Exchange::Failed => true,
    };
    let stop = error && !ignore_errors;
    Tally { error, sent: !stop, stop }
}

/// The counters of a running test.
#[derive(Debug, Clone, Copy, PartialEq, Eq, Structural)]
pub struct LoopStats {
    /// Probes sent and counted.
    pub total_sent: u64,
    /// Bytes of the probes counted.
    pub total_bytes: u64,
    /// Exchanges that were errors.
    pub error_count: u64,
}

impl LoopStats {
    /// The counters after an exchange with a probe of `probe_len` bytes.
    pub open spec fn after(self, t: Tally, probe_len: nat) -> LoopStats {
        LoopStats {
            total_sent: if t.sent {
                (self.total_sent + 1) as u64
            } else {
                self.total_sent
            },
            total_bytes: if t.sent {
                (self.total_bytes + probe_len) as u64
            } else {
                self.total_bytes
            },
            error_count: if t.error {
                (self.error_count + 1) as u64
            } else {
                self.error_count
            },
        }
    }

    /// Whether the counters have room for one more exchange with a probe
    /// of `probe_len` bytes.
    pub open spec fn has_room(self, probe_len: nat) -> bool {
        &&& self.total_sent < u64::MAX
        &&& self.total_bytes + probe_len <= u64::MAX
        &&& self.error_count < u64::MAX
    }

    /// The counters of a test that has not begun.
    pub fn new() -> (stats: Self)
        ensures
            stats == (LoopStats { total_sent: 0, total_bytes: 0, error_count: 0 }),
    {
        LoopStats { total_sent: 0, total_bytes: 0, error_count: 0 }
    }

    /// Tells whether the counters have room for one more exchange.
    pub fn can_record(&self, probe_len: usize) -> (ok: bool)
        ensures
            ok == self.has_room(probe_len as nat),
    {
        self.total_sent < u64::MAX && self.error_count < u64::MAX && probe_len as u64 <= u64::MAX
            - self.total_bytes
    }

    /// Counts an exchange, and tells whether the test ends with it.
    pub fn record(&mut self, outcome: Exchange, probe_len: usize, ignore_errors: bool) -> (stop:
        bool)
        requires
            old(self).has_room(probe_len as nat),
        ensures
            *final(self) == old(self).after(tally_of(outcome, ignore_errors), probe_len as nat),
            stop == tally_of(outcome, ignore_errors).stop,
    {
        let t = tally(outcome, ignore_errors);
        if t.error {
            self.error_count = self.error_count + 1;
        }
        if t.sent {
            self.total_sent = self.total_sent + 1;
            self.total_bytes = self.total_bytes + probe_len as u64;
        }
        t.stop
    }
}

/// Tells whether a test that has run for `elapsed_secs` whole seconds has
/// reached its time limit. A test without a limit never does.
pub fn deadline_reached(elapsed_secs: u64, duration: Option<u64>) -> (reached: bool)
    ensures
        reached == (duration matches Some(limit) && elapsed_secs >= limit),
{
    match duration {
        Some(limit) => elapsed_secs >= limit,
        None => false,
    }
}

/// A test that stops at the first error counts no probe it did not get
/// echoed: an exchange that ends the test adds to the errors alone, and an
/// exchange that is a clean echo never ends it.
pub proof fn lemma_stopping_exchange_is_uncounted(
    stats: LoopStats,
    outcome: Exchange,
    probe_len: nat,
    ignore_errors: bool,
)
    requires
        stats.has_room(probe_len),
    ensures
        ({
            let t = tally_of(outcome, ignore_errors);
            let next = stats.after(t, probe_len);
            &&& t.stop ==> next.total_sent == stats.total_sent && next.total_bytes
                == stats.total_bytes && next.error_count == stats.error_count + 1
            &&& !t.stop ==> next.total_sent == stats.total_sent + 1 && next.total_bytes
                == stats.total_bytes + probe_len
            &&& outcome == Exchange::Echoed ==> !t.stop && next.error_count == stats.error_count
            &&& ignore_errors ==> !t.stop
        }),
{
}

} // verus!
