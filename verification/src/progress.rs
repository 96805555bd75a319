//! The fetch progress protocol.
//!
//! During a clone, the fetch machinery reports counts: objects received
//! against the total during network transfer, then files checked out
//! against their total while the working tree is materialized. Each job
//! owns one `ProgressTracker`, which turns those counts into
//! `ProgressEvent`s: events carry the `Transferring` phase while fewer
//! objects were received than exist, and from the first report in which
//! the received count equals the total the tracker switches permanently to
//! the `CheckingOut` phase. The counts themselves are read out of the
//! fetch machinery's progress lines by `parse_progress_counts`: the two
//! decimal numbers of the line's final parenthesized `current/total`
//! group.

use vstd::prelude::*;

verus! {

/// The phase of a fetch: network object transfer, then checkout.
#[derive(Clone, Copy, Debug, PartialEq, Eq, Structural)]
pub enum Phase {
    Transferring,
    CheckingOut,
}

/// One progress report of a job's fetch: the phase, and the current and
/// total counts of that phase (objects while transferring, files while
/// checking out).
#[derive(Clone, Copy, Debug, PartialEq, Eq, Structural)]
pub struct ProgressEvent {
    pub phase: Phase,
    pub current: u64,
    pub total: u64,
}

/// The per-job progress state: which phase the job's fetch is in.
pub struct ProgressTracker {
    pub phase: Phase,
}

/// The phase after one report in which `received` of `total` objects have
/// arrived: checkout is entered exactly when the received count reaches
/// the total, and is never left again.
pub open spec fn phase_after(p: Phase, received: u64, total: u64) -> Phase {
    if p is CheckingOut || received == total {
        Phase::CheckingOut
    } else {
        Phase::Transferring
    }
}

/// The phase after a whole sequence of `(received, total)` object-count
/// reports.
pub open spec fn phase_trace(p: Phase, obs: Seq<(u64, u64)>) -> Phase
    decreases obs.len(),
{
    if obs.len() == 0 {
        p
    } else {
        phase_trace(phase_after(p, obs[0].0, obs[0].1), obs.drop_first())
    }
}

/// Checkout is permanent: no report moves the phase back.
pub proof fn lemma_checkout_persists(obs: Seq<(u64, u64)>)
    ensures
        phase_trace(Phase::CheckingOut, obs) == Phase::CheckingOut,
    decreases obs.len(),
{
    if obs.len() > 0 {
        lemma_checkout_persists(obs.drop_first());
    }
}

/// A fresh tracker is transferring, and stays so exactly as long as every
/// report so far still had fewer objects received than its total.
pub proof fn lemma_transferring_iff(obs: Seq<(u64, u64)>, k: int)
    requires
        0 <= k <= obs.len(),
    ensures
        phase_trace(Phase::Transferring, obs.take(k)) == Phase::Transferring
            <==> (forall|j: int| 0 <= j < k ==> obs[j].0 != obs[j].1),
    decreases k,
{
    if k > 0 {
        let rest = obs.drop_first();
        assert(obs.take(k).drop_first() =~= rest.take(k - 1));
        if obs[0].0 == obs[0].1 {
            lemma_checkout_persists(rest.take(k - 1));
        } else {
            lemma_transferring_iff(rest, k - 1);
            assert(forall|j: int| 0 <= j < k - 1 ==> rest[j] == obs[j + 1]);
            if forall|j: int| 0 <= j < k - 1 ==> rest[j].0 != rest[j].1 {
                assert forall|j: int| 0 <= j < k implies obs[j].0 != obs[j].1 by {
                    if j > 0 {
                        assert(rest[j - 1] == obs[j]);
                    }
                }
            }
        }
    }
}

/// The phase transition happens at report `k` exactly when that report is
/// the first whose received count equals its total: the phase switches
/// precisely when the received objects reach the total, and before then
/// every report still transferred.
pub proof fn lemma_transition_exactly_when_complete(obs: Seq<(u64, u64)>, k: int)
    requires
        0 <= k < obs.len(),
    ensures
        (phase_trace(Phase::Transferring, obs.take(k)) == Phase::Transferring
            && phase_trace(Phase::Transferring, obs.take(k + 1)) == Phase::CheckingOut)
            <==> (obs[k].0 == obs[k].1 && forall|j: int| 0 <= j < k ==> obs[j].0 != obs[j].1),
{
    lemma_transferring_iff(obs, k);
    lemma_transferring_iff(obs, k + 1);
    assert(obs.take(k + 1)[k] == obs[k]);
    assert(forall|j: int| 0 <= j < k ==> obs.take(k + 1)[j] == obs[j]);
}

/// The phase transition happens at most once: two transition points are
/// the same report.
pub proof fn lemma_transition_once(obs: Seq<(u64, u64)>, k1: int, k2: int)
    requires
        0 <= k1 < obs.len(),
        0 <= k2 < obs.len(),
        phase_trace(Phase::Transferring, obs.take(k1)) == Phase::Transferring,
        phase_trace(Phase::Transferring, obs.take(k1 + 1)) == Phase::CheckingOut,
        phase_trace(Phase::Transferring, obs.take(k2)) == Phase::Transferring,
        phase_trace(Phase::Transferring, obs.take(k2 + 1)) == Phase::CheckingOut,
    ensures
        k1 == k2,
{
    lemma_transition_exactly_when_complete(obs, k1);
    lemma_transition_exactly_when_complete(obs, k2);
}

impl ProgressTracker {
    /// A fresh tracker for one job's fetch, in the transfer phase.
    pub fn new() -> (r: ProgressTracker)
        ensures
            r.phase == Phase::Transferring,
    {
        ProgressTracker { phase: Phase::Transferring }
    }

    /// Turn one raw progress report into the event to emit: a transfer
    /// event with the object counts while objects are still arriving, and
    /// from the first report whose received count equals its total onward
    /// a checkout event with the file counts.
    pub fn observe(&mut self, received: u64, total: u64, checked_out: u64, total_files: u64) -> (ev:
        ProgressEvent)
        ensures
            final(self).phase == phase_after(old(self).phase, received, total),
            ev.phase == final(self).phase,
            (ev.phase is Transferring ==> ev.current == received && ev.total == total),
            (ev.phase is CheckingOut ==> ev.current == checked_out && ev.total == total_files),
    {
        if matches!(self.phase, Phase::Transferring) && received != total {
            ProgressEvent { phase: Phase::Transferring, current: received, total }
        } else {
            self.phase = Phase::CheckingOut;
            ProgressEvent { phase: Phase::CheckingOut, current: checked_out, total: total_files }
        }
    }
}

/// Whether byte `b` is a decimal digit.
pub open spec fn is_digit(b: u8) -> bool {
    48 <= b <= 57
}

/// Whether every byte of `s` is a decimal digit.
pub open spec fn all_digits(s: Seq<u8>) -> bool {
    forall|i: int| 0 <= i < s.len() ==> is_digit(#[trigger] s[i])
}

/// The value of the decimal digit run `s`.
pub open spec fn dec_val(s: Seq<u8>) -> int
    decreases s.len(),
{
    if s.len() == 0 {
        0
    } else {
        dec_val(s.drop_last()) * 10 + (s.last() - 48)
    }
}

/// A digit run's value is never negative.
proof fn lemma_dec_val_nonneg(s: Seq<u8>)
    requires
        all_digits(s),
    ensures
        dec_val(s) >= 0,
    decreases s.len(),
{
    if s.len() > 0 {
        assert forall|k: int| 0 <= k < s.drop_last().len() implies is_digit(
            #[trigger] s.drop_last()[k],
        ) by {
            assert(s.drop_last()[k] == s[k]);
        }
        lemma_dec_val_nonneg(s.drop_last());
    }
}

/// A digit run's value only grows as the run extends to the right.
proof fn lemma_dec_val_prefix(s: Seq<u8>, k: int)
    requires
        all_digits(s),
        0 <= k <= s.len(),
    ensures
        dec_val(s.take(k)) <= dec_val(s),
    decreases s.len() - k,
{
    if k == s.len() {
        assert(s.take(k) =~= s);
    } else {
        lemma_dec_val_prefix(s, k + 1);
        assert(s.take(k + 1).drop_last() =~= s.take(k));
        assert(s.take(k + 1).last() == s[k]);
        assert forall|q: int| 0 <= q < s.take(k).len() implies is_digit(
            #[trigger] s.take(k)[q],
        ) by {
            assert(s.take(k)[q] == s[q]);
        }
        lemma_dec_val_nonneg(s.take(k));
    }
}

/// Parses the byte range `[from, to)` of `line` as a decimal count: the
/// value exactly when the range is a nonempty digit run whose value fits
/// in a `u64`.
pub fn parse_u64(line: &[u8], from: usize, to: usize) -> (r: Option<u64>)
    requires
        from <= to <= line@.len(),
    ensures
        (r is Some) <==> (from < to && all_digits(line@.subrange(from as int, to as int))
            && dec_val(line@.subrange(from as int, to as int)) <= u64::MAX),
        (r matches Some(v) ==> v == dec_val(line@.subrange(from as int, to as int))),
{
    let ghost sub = line@.subrange(from as int, to as int);
    if from == to {
        return None;
    }
    let mut acc: u64 = 0;
    let mut i: usize = from;
    while i < to
        invariant
            from <= i <= to <= line@.len(),
            sub == line@.subrange(from as int, to as int),
            all_digits(line@.subrange(from as int, i as int)),
            acc == dec_val(line@.subrange(from as int, i as int)),
        decreases to - i,
    {
        let b = line[i];
        if b < 48 || b > 57 {
            proof {
                assert(sub[i - from] == line@[i as int]);
                assert(!is_digit(sub[i - from]));
            }
            return None;
        }
        let d = (b - 48) as u64;
        let ghost prev = line@.subrange(from as int, i as int);
        let ghost cur = line@.subrange(from as int, i + 1);
        proof {
            assert(cur.drop_last() =~= prev);
            assert(cur.last() == line@[i as int]);
            assert forall|k: int| 0 <= k < cur.len() implies is_digit(#[trigger] cur[k]) by {
                if k < i - from {
                    assert(cur[k] == prev[k]);
                } else {
                    assert(cur[k] == line@[i as int]);
                }
            }
            assert(dec_val(cur) == acc * 10 + d);
        }
        let next = match acc.checked_mul(10) {
            Option::Some(x) => x.checked_add(d),
            Option::None => None,
        };
        match next {
            Option::Some(y) => {
                acc = y;
            },
            Option::None => {
                proof {
                    if all_digits(sub) {
                        assert(sub.take(i + 1 - from) =~= cur);
                        lemma_dec_val_prefix(sub, i + 1 - from);
                        assert(dec_val(sub) > u64::MAX);
                    }
                }
                return None;
            },
        }
        i = i + 1;
    }
    proof {
        assert(line@.subrange(from as int, i as int) =~= sub);
    }
    Some(acc)
}

/// Whether positions `i < m < j` delimit the progress-count group of the
/// line `s`: `s[i]` is the last `(` (byte 40) of the line, `s[j]` the
/// first `)` (byte 41) after it, `s[m]` the first `/` (byte 47) between
/// them, and both sides of the `/` are nonempty digit runs.
pub open spec fn counts_group(s: Seq<u8>, i: int, m: int, j: int) -> bool {
    &&& 0 <= i && i + 1 < m && m + 1 < j && j < s.len()
    &&& s[i] == 40
    &&& s[m] == 47
    &&& s[j] == 41
    &&& (forall|p: int| i < p < s.len() ==> s[p] != 40)
    &&& (forall|p: int| i < p < j ==> s[p] != 41)
    &&& (forall|p: int| i < p < m ==> s[p] != 47)
    &&& all_digits(s.subrange(i + 1, m))
    &&& all_digits(s.subrange(m + 1, j))
}

/// Reads the `current/total` counts out of one fetch progress line: the
/// two decimal numbers between the line's last `(` and the `/` and `)`
/// that follow it. Returns them exactly when such a group is present and
/// both numbers fit in a `u64`.
pub fn parse_progress_counts(line: &[u8]) -> (r: Option<(u64, u64)>)
    ensures
        (r matches Some((a, b)) ==> exists|i: int, m: int, j: int|
            #[trigger] counts_group(line@, i, m, j) && a == dec_val(line@.subrange(i + 1, m))
                && b == dec_val(line@.subrange(m + 1, j))),
        (r is None ==> forall|i: int, m: int, j: int|
            #[trigger] counts_group(line@, i, m, j) ==> dec_val(line@.subrange(i + 1, m))
                > u64::MAX || dec_val(line@.subrange(m + 1, j)) > u64::MAX),
{
    let n = line.len();
    let mut open: usize = 0;
    let mut has_open = false;
    let mut p: usize = 0;
    while p < n
        invariant
            p <= n,
            n == line@.len(),
            has_open ==> open < p && line@[open as int] == 40 && (forall|q: int|
                open < q < p ==> line@[q] != 40),
            !has_open ==> (forall|q: int| 0 <= q < p ==> line@[q] != 40),
        decreases n - p,
    {
        if line[p] == 40 {
            open = p;
            has_open = true;
        }
        p = p + 1;
    }
    if !has_open {
        proof {
            assert forall|i: int, m: int, j: int| counts_group(line@, i, m, j) implies false by {
                assert(line@[i] != 40);
            }
        }
        return None;
    }
    let i = open;
    let mut q: usize = i + 1;
    while q < n && line[q] != 41
        invariant
            i < q <= n,
            n == line@.len(),
            forall|t: int| i < t < q ==> line@[t] != 41,
        decreases n - q,
    {
        q = q + 1;
    }
    if q == n {
        proof {
            assert forall|i2: int, m2: int, j2: int| counts_group(line@, i2, m2, j2)
                implies false by {
                assert(line@[i as int] == 40);
                assert(line@[i2] == 40);
                assert(i2 == i);
                assert(line@[j2] != 41);
            }
        }
        return None;
    }
    let j = q;
    let mut t: usize = i + 1;
    while t < j && line[t] != 47
        invariant
            i < t <= j,
            j < n == line@.len(),
            forall|u: int| i < u < t ==> line@[u] != 47,
        decreases j - t,
    {
        t = t + 1;
    }
    if t == j {
        proof {
            assert forall|i2: int, m2: int, j2: int| counts_group(line@, i2, m2, j2)
                implies false by {
                assert(line@[i as int] == 40);
                assert(line@[j as int] == 41);
                assert(line@[i2] == 40);
                assert(i2 == i);
                assert(line@[j2] == 41);
                assert(j2 == j);
                assert(line@[m2] != 47);
            }
        }
        return None;
    }
    let m = t;
    let a = parse_u64(line, i + 1, m);
    let b = parse_u64(line, m + 1, j);
    match (a, b) {
        (Option::Some(x), Option::Some(y)) => {
            proof {
                assert(counts_group(line@, i as int, m as int, j as int));
            }
            Some((x, y))
        },
        _ => {
            proof {
                assert forall|i2: int, m2: int, j2: int| counts_group(line@, i2, m2, j2)
                    implies dec_val(line@.subrange(i2 + 1, m2)) > u64::MAX || dec_val(
                    line@.subrange(m2 + 1, j2),
                ) > u64::MAX by {
                    assert(line@[i as int] == 40);
                    assert(line@[j as int] == 41);
                    assert(line@[m as int] == 47);
                    assert(line@[i2] == 40);
                    assert(i2 == i);
                    assert(line@[j2] == 41);
                    assert(j2 == j);
                    assert(line@[m2] == 47);
                    assert(m2 == m);
                }
            }
            None
        },
    }
}

} // verus!
