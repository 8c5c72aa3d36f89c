use vstd::prelude::*;

use crate::binding::{sha384_digest, sha384_of};
use crate::bytes::{push_all, zeros};

verus! {

/// Number of runtime measurement registers.
pub const RTMR_COUNT: usize = 4;

/// Width of one measurement register, that of a SHA-384 digest.
pub const RTMR_LEN: usize = 48;

/// One event of a boot or runtime event log.
#[derive(Clone, Debug)]
pub struct EventLogEntry {
    /// The register this event extends; events naming no register extend none.
    pub imr: u32,
    /// The kind of event, kept for inspection.
    pub event_type: u32,
    /// The measured digest folded into the register.
    pub digest: Vec<u8>,
    /// A short name of the event, kept for inspection.
    pub event: String,
    /// The measured payload, kept for inspection.
    pub event_payload: Vec<u8>,
}

/// The value of register `idx` after replaying `log` in order from all zeros:
/// each event for `idx` sets the register to `sha384(register || digest)`.
pub open spec fn replay(log: Seq<EventLogEntry>, idx: int) -> Seq<u8>
    decreases log.len(),
{
    if log.len() == 0 {
        zeros(48)
    } else {
        let prev = replay(log.drop_last(), idx);
        if log.last().imr as int == idx {
            sha384_of(prev + log.last().digest@)
        } else {
            prev
        }
    }
}

/// `reg` extended by `digest`: the SHA-384 digest of the two, concatenated.
fn extend(reg: &Vec<u8>, digest: &Vec<u8>) -> (r: Vec<u8>)
    ensures
        r@ == sha384_of(reg@ + digest@),
        r@.len() == 48,
{
    let mut message: Vec<u8> = Vec::new();
    push_all(&mut message, reg.as_slice());
    push_all(&mut message, digest.as_slice());
    sha384_digest(message.as_slice())
}

/// Replays `log` into the four runtime measurement registers, in log order.
pub fn compute_rtmrs(log: &Vec<EventLogEntry>) -> (r: Vec<Vec<u8>>)
    ensures
        r@.len() == 4,
        forall|k: int| 0 <= k < 4 ==> (#[trigger] r@[k])@ == replay(log@, k),
        forall|k: int| 0 <= k < 4 ==> (#[trigger] r@[k])@.len() == 48,
{
    let mut r0: Vec<u8> = vec![0u8; RTMR_LEN];
    let mut r1: Vec<u8> = vec![0u8; RTMR_LEN];
    let mut r2: Vec<u8> = vec![0u8; RTMR_LEN];
    let mut r3: Vec<u8> = vec![0u8; RTMR_LEN];
    assert(r0@ =~= zeros(48));
    assert(r1@ =~= zeros(48));
    assert(r2@ =~= zeros(48));
    assert(r3@ =~= zeros(48));
    let n = log.len();
    let mut i: usize = 0;
    assert(log@.subrange(0, 0) =~= Seq::<EventLogEntry>::empty());
    while i < n
        invariant
            n == log@.len(),
            i <= n,
            r0@ == replay(log@.subrange(0, i as int), 0),
            r1@ == replay(log@.subrange(0, i as int), 1),
            r2@ == replay(log@.subrange(0, i as int), 2),
            r3@ == replay(log@.subrange(0, i as int), 3),
            r0@.len() == 48,
            r1@.len() == 48,
            r2@.len() == 48,
            r3@.len() == 48,
        decreases n - i,
    {
        let entry = &log[i];
        let ghost done = log@.subrange(0, i as int);
        let ghost next = log@.subrange(0, i + 1);
        assert(next.drop_last() =~= done);
        assert(next.last() == log@[i as int]);
        if entry.imr == 0 {
            r0 = extend(&r0, &entry.digest);
        } else if entry.imr == 1 {
            r1 = extend(&r1, &entry.digest);
        } else if entry.imr == 2 {
            r2 = extend(&r2, &entry.digest);
        } else if entry.imr == 3 {
            r3 = extend(&r3, &entry.digest);
        }
        i = i + 1;
    }
    assert(log@.subrange(0, n as int) =~= log@);
    let r = vec![r0, r1, r2, r3];
    r
}

/// A register that no event of the log names keeps its zero value; with an
/// empty log, that is every register.
pub proof fn lemma_untouched_register_is_zero(log: Seq<EventLogEntry>, idx: int)
    requires
        forall|j: int| 0 <= j < log.len() ==> (#[trigger] log[j]).imr as int != idx,
    ensures
        replay(log, idx) == zeros(48),
    decreases log.len(),
{
    if log.len() > 0 {
        let prefix = log.drop_last();
        assert forall|j: int| 0 <= j < prefix.len() implies (#[trigger] prefix[j]).imr as int
            != idx by {
            assert(prefix[j] == log[j]);
        }
        lemma_untouched_register_is_zero(prefix, idx);
        assert(log.last() == log[log.len() - 1]);
    }
}

/// Replaying a log is a function of the log: events for other registers do
/// not touch register `idx`, and an event for `idx` folds its digest into
/// the value the earlier events left.
pub proof fn lemma_replay_step(log: Seq<EventLogEntry>, e: EventLogEntry, idx: int)
    ensures
        e.imr as int == idx ==> replay(log.push(e), idx) == sha384_of(replay(log, idx) + e.digest@),
        e.imr as int != idx ==> replay(log.push(e), idx) == replay(log, idx),
{
    assert(log.push(e).drop_last() =~= log);
}

} // verus!
