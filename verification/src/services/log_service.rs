//! The sign-in log: new entries, the newest-first order in which the log is
//! read, and the lockout after repeated failures.

use vstd::prelude::*;
use vstd::multiset::Multiset;
use crate::models::login_attempts::{Model, NewLoginAttempt};

verus! {

broadcast use vstd::seq_lib::group_to_multiset_ensures;

/// How many most recent failures in a row lock an address out of sign-in.
pub const MAX_FAILED_ATTEMPTS: usize = 5;

/// Whether `s` runs from the newest attempt to the oldest.
pub open spec fn is_newest_first(s: Seq<Model>) -> bool {
    forall|i: int, j: int| 0 <= i < j < s.len() ==> s[i].created_at >= s[j].created_at
}

/// The lockout rule, over attempts listed newest first: there are at least
/// five, and none of the five most recent succeeded.
pub open spec fn lockout_rule(recent_first: Seq<Model>) -> bool {
    &&& recent_first.len() >= MAX_FAILED_ATTEMPTS
    &&& forall|i: int| 0 <= i < MAX_FAILED_ATTEMPTS ==> !(#[trigger] recent_first[i]).success
}

/// The entry that logs one sign-in attempt made at time `created_at`.
pub fn log_login_attempt(
    email: &str,
    ip: Option<String>,
    success: bool,
    provider: Option<String>,
    created_at: i64,
) -> (entry: NewLoginAttempt)
    ensures
        entry.user_email@ == email@,
        entry.ip_address == ip,
        entry.success == success,
        entry.created_at == created_at,
        entry.provider == provider,
{
    NewLoginAttempt {
        user_email: email.to_string(),
        ip_address: ip,
        success,
        created_at,
        provider,
    }
}

/// Whether `out` lists the entries of `input` newest first, keeping the
/// input's order among entries of the same time: `idx` says where in `input`
/// each entry of `out` comes from, each place once.
pub open spec fn stable_newest_first(input: Seq<Model>, out: Seq<Model>, idx: Seq<int>) -> bool {
    &&& out.len() == input.len()
    &&& idx.len() == out.len()
    &&& forall|k: int| 0 <= k < idx.len() ==> 0 <= #[trigger] idx[k] < input.len() && out[k] == input[idx[k]]
    &&& forall|k: int, l: int| 0 <= k < l < idx.len() ==> idx[k] != idx[l]
    &&& is_newest_first(out)
    &&& forall|k: int, l: int|
        0 <= k < l < out.len() && out[k].created_at == out[l].created_at ==> idx[k] < idx[l]
}

/// Orders a log newest first: the same entries, each as many times, with no
/// entry older than one after it, and entries of the same time in the order given.
pub fn newest_first(attempts: Vec<Model>) -> (out: Vec<Model>)
    ensures
        out@.to_multiset() == attempts@.to_multiset(),
        exists|idx: Seq<int>| stable_newest_first(attempts@, out@, idx),
{
    let ghost input = attempts@;
    let n = attempts.len();
    let mut remaining = attempts;
    let mut out: Vec<Model> = Vec::new();
    let ghost mut idx: Seq<int> = Seq::empty();
    let mut i: usize = 0;
    assert(out@.to_multiset() =~= Multiset::empty());
    assert(input.subrange(0, 0) =~= out@);
    while remaining.len() > 0
        invariant
            n == input.len(),
            i <= n,
            remaining@ == input.subrange(i as int, n as int),
            out@.to_multiset().add(remaining@.to_multiset()) == input.to_multiset(),
            out@.len() == i,
            idx.len() == i,
            forall|k: int| 0 <= k < idx.len() ==> 0 <= #[trigger] idx[k] < i && out@[k] == input[idx[k]],
            forall|k: int, l: int| 0 <= k < l < idx.len() ==> idx[k] != idx[l],
            is_newest_first(out@),
            forall|k: int, l: int|
                0 <= k < l < out@.len() && out@[k].created_at == out@[l].created_at ==> idx[k] < idx[l],
        decreases remaining.len(),
    {
        let ghost before = remaining@;
        let item = remaining.remove(0);
        assert(before =~= remaining@.insert(0, item));
        assert(item == input[i as int]);
        assert(remaining@ =~= input.subrange(i + 1, n as int));
        let t = item.created_at;
        let mut p: usize = 0;
        while p < out.len() && out[p].created_at >= t
            invariant
                p <= out.len(),
                forall|k: int| 0 <= k < p ==> out@[k].created_at >= t,
            decreases out.len() - p,
        {
            p = p + 1;
        }
        let ghost old_out = out@;
        let ghost old_idx = idx;
        out.insert(p, item);
        proof {
            idx = old_idx.insert(p as int, i as int);
        }
        assert(out@ =~= old_out.insert(p as int, item));
        assert forall|k: int| 0 <= k < idx.len() implies 0 <= #[trigger] idx[k] < i + 1 && out@[k]
            == input[idx[k]] by {
            if k < p {
                assert(idx[k] == old_idx[k] && out@[k] == old_out[k]);
            } else if k > p {
                assert(idx[k] == old_idx[k - 1] && out@[k] == old_out[k - 1]);
            }
        }
        assert forall|k: int, l: int| 0 <= k < l < idx.len() implies idx[k] != idx[l] by {
            if k == p {
                assert(idx[l] == old_idx[l - 1]);
            } else if l == p {
                assert(idx[k] == old_idx[k]);
            } else if l < p {
                assert(idx[k] == old_idx[k] && idx[l] == old_idx[l]);
            } else if k > p {
                assert(idx[k] == old_idx[k - 1] && idx[l] == old_idx[l - 1]);
            } else {
                assert(idx[k] == old_idx[k] && idx[l] == old_idx[l - 1]);
            }
        }
        assert forall|k: int, l: int| 0 <= k < l < out@.len() implies out@[k].created_at
            >= out@[l].created_at by {
            if l < p {
                assert(out@[k] == old_out[k] && out@[l] == old_out[l]);
            } else if l == p {
                assert(out@[k] == old_out[k]);
            } else if k > p {
                assert(out@[k] == old_out[k - 1] && out@[l] == old_out[l - 1]);
            } else if k == p {
                assert(old_out[p as int].created_at < t);
                assert(out@[l] == old_out[l - 1]);
            } else {
                assert(out@[k] == old_out[k] && out@[l] == old_out[l - 1]);
            }
        }
        assert forall|k: int, l: int|
            0 <= k < l < out@.len() && out@[k].created_at == out@[l].created_at implies idx[k]
            < idx[l] by {
            if l < p {
                assert(out@[k] == old_out[k] && out@[l] == old_out[l]);
                assert(idx[k] == old_idx[k] && idx[l] == old_idx[l]);
            } else if l == p {
                assert(idx[k] == old_idx[k]);
            } else if k > p {
                assert(out@[k] == old_out[k - 1] && out@[l] == old_out[l - 1]);
                assert(idx[k] == old_idx[k - 1] && idx[l] == old_idx[l - 1]);
            } else if k == p {
                assert(old_out[p as int].created_at < t);
                assert(out@[l] == old_out[l - 1]);
                assert(old_out[l - 1].created_at <= old_out[p as int].created_at);
            } else {
                assert(out@[k] == old_out[k] && out@[l] == old_out[l - 1]);
                assert(idx[k] == old_idx[k] && idx[l] == old_idx[l - 1]);
            }
        }
        assert(out@.to_multiset() == old_out.to_multiset().insert(item));
        assert(before.to_multiset() == remaining@.to_multiset().insert(item));
        assert(out@.to_multiset().add(remaining@.to_multiset()) =~= old_out.to_multiset().add(
            before.to_multiset(),
        ));
        i = i + 1;
    }
    assert(remaining@.to_multiset() =~= Multiset::empty());
    assert(out@.to_multiset().add(Multiset::empty()) =~= out@.to_multiset());
    assert(stable_newest_first(input, out@, idx));
    out
}

/// Whether sign-in is locked for the attempts `recent_first`, listed newest
/// first: at least five attempts, the five most recent all failed.
pub fn too_many_failed_attempts(recent_first: &Vec<Model>) -> (locked: bool)
    ensures
        locked == lockout_rule(recent_first@),
{
    if recent_first.len() < MAX_FAILED_ATTEMPTS {
        return false;
    }
    let mut i: usize = 0;
    while i < MAX_FAILED_ATTEMPTS
        invariant
            recent_first@.len() >= MAX_FAILED_ATTEMPTS,
            i <= MAX_FAILED_ATTEMPTS,
            forall|k: int| 0 <= k < i ==> !(#[trigger] recent_first@[k]).success,
        decreases MAX_FAILED_ATTEMPTS - i,
    {
        if recent_first[i].success {
            return false;
        }
        i = i + 1;
    }
    true
}

/// A successful sign-in, logged as the newest attempt, lifts any lockout.
pub proof fn lemma_success_unlocks(history: Seq<Model>, attempt: Model)
    requires
        attempt.success,
    ensures
        !lockout_rule(seq![attempt] + history),
{
    assert((seq![attempt] + history)[0] == attempt);
}

/// A failed attempt, logged as the newest, keeps a lockout in place.
pub proof fn lemma_failure_keeps_lock(history: Seq<Model>, attempt: Model)
    requires
        lockout_rule(history),
        !attempt.success,
    ensures
        lockout_rule(seq![attempt] + history),
{
    let s = seq![attempt] + history;
    assert forall|i: int| 0 <= i < MAX_FAILED_ATTEMPTS implies !(#[trigger] s[i]).success by {
        if i > 0 {
            assert(s[i] == history[i - 1]);
        }
    }
}

/// Five failures in a row, logged as the newest attempts, lock sign-in
/// whatever came before them.
pub proof fn lemma_five_failures_lock(history: Seq<Model>, failures: Seq<Model>)
    requires
        failures.len() == MAX_FAILED_ATTEMPTS,
        forall|i: int| 0 <= i < failures.len() ==> !(#[trigger] failures[i]).success,
    ensures
        lockout_rule(failures + history),
{
    let s = failures + history;
    assert forall|i: int| 0 <= i < MAX_FAILED_ATTEMPTS implies !(#[trigger] s[i]).success by {
        assert(s[i] == failures[i]);
    }
}

} // verus!
