//! What the token cache guarantees under every schedule of its callers.
//!
//! Each statement is about the model of
//! [`coordination`](crate::client::coordination): any number of callers, any
//! interleaving of their moves, any answers of the transport.

use vstd::prelude::*;
use crate::client::access_token::{Credential, expired};
use crate::client::coordination::{
    coherent, exclusive_at, initial, lemma_initial_coherent, lemma_run_coherent,
    lemma_step_coherent, refresher_at, run, System, system_step, Tick, waiting_at,
};
use crate::client::token_storage::PhaseModel;
use crate::error::ErrorKind;

verus! {

/// The number of callers never changes.
pub proof fn lemma_run_keeps_callers(s: System, ticks: Seq<Tick>)
    ensures
        run(s, ticks).callers.len() == s.callers.len(),
    decreases ticks.len(),
{
    if ticks.len() > 0 {
        lemma_run_keeps_callers(s, ticks.drop_last());
    }
}

/// Single refresher: whatever the schedule, at most one caller holds the
/// refresher role at any time, so at most one network refresh is in flight.
/// The flag is set exactly while that caller exists.
pub proof fn lemma_single_refresher(n: nat, credential: Credential, ticks: Seq<Tick>, i: int, j: int)
    requires
        refresher_at(run(initial(n, credential), ticks), i),
        refresher_at(run(initial(n, credential), ticks), j),
    ensures
        i == j,
        run(initial(n, credential), ticks).cache.refreshing,
{
    lemma_initial_coherent(n, credential);
    lemma_run_coherent(initial(n, credential), ticks);
}

/// A tick of a quiet period: the clock stays between `lo` and `hi`, and the
/// transport, if asked, delivers a credential that is still fresh at `hi`.
pub open spec fn calm(t: Tick, lo: int, hi: int) -> bool {
    &&& lo <= t.now <= hi
    &&& t.reply matches Ok(credential) && !expired(credential, hi)
}

/// Whether caller `i` has asked the transport and its answer is not stored
/// yet.
pub open spec fn busy_at(s: System, i: int) -> bool {
    &&& 0 <= i < s.callers.len()
    &&& s.callers[i] is InFlight || s.callers[i] matches PhaseModel::Releasing {
        store: Some(_),
        ..
    }
}

/// Whether a caller in `phase` has neither been served nor asked the
/// transport.
pub open spec fn unserved(phase: PhaseModel) -> bool {
    phase is Start || phase is Contending || phase is Refresher || phase is Waiting
}

/// What holds throughout a quiet period that began with the stale credential
/// `stale`: the transport is asked at most once; before that nobody is served;
/// after that the fresh credential is stored or on its way.
pub open spec fn settled(s: System, stale: Credential, hi: int) -> bool {
    &&& s.transport_calls <= 1
    &&& s.transport_calls == 0 ==> {
        &&& s.cache.credential == stale
        &&& forall|i: int| 0 <= i < s.callers.len() ==> unserved(#[trigger] s.callers[i])
        &&& forall|i: int| !s.notified.contains(i)
    }
    &&& forall|i: int|
        0 <= i < s.callers.len() ==> (#[trigger] s.callers[i] matches PhaseModel::Releasing {
            store: Some(c),
            ..
        } ==> !expired(c, hi))
    &&& s.transport_calls == 1 ==> !expired(s.cache.credential, hi) || exists|i: int|
        busy_at(s, i)
}

proof fn lemma_step_settled(s: System, t: Tick, stale: Credential, lo: int, hi: int)
    requires
        coherent(s),
        settled(s, stale, hi),
        calm(t, lo, hi),
        expired(stale, lo),
    ensures
        settled(system_step(s, t), stale, hi),
{
    let n = system_step(s, t);
    if 0 <= t.caller < s.callers.len() && n != s {
        let k = t.caller;
        assert forall|i: int| i != k implies busy_at(n, i) == busy_at(s, i) by {}
        if s.transport_calls == 1 && expired(s.cache.credential, hi) {
            let w = choose|i: int| busy_at(s, i);
            assert(busy_at(s, w));
            assert(refresher_at(s, w));
            if w != k {
                assert(busy_at(n, w));
                if refresher_at(s, k) {
                    assert(false);
                }
            }
        }
        match s.callers[k] {
            PhaseModel::Start => {},
            PhaseModel::Contending => {},
            PhaseModel::Refresher => {
                assert(refresher_at(s, k));
                if n.callers[k] is InFlight {
                    assert(busy_at(n, k));
                }
            },
            PhaseModel::InFlight => {
                assert(refresher_at(s, k));
                assert(busy_at(n, k));
            },
            PhaseModel::Releasing { store, outcome } => {
                assert(refresher_at(s, k));
            },
            PhaseModel::Waiting => {},
            PhaseModel::Done { outcome } => {},
        }
        assert forall|i: int| 0 <= i < n.callers.len() implies (#[trigger] n.callers[i]
            matches PhaseModel::Releasing { store: Some(c), .. } ==> !expired(c, hi)) by {
            if i != k {
                assert(n.callers[i] == s.callers[i]);
            }
        }
        if n.transport_calls == 0 {
            assert forall|i: int| 0 <= i < n.callers.len() implies unserved(
                #[trigger] n.callers[i],
            ) by {
                if i != k {
                    assert(n.callers[i] == s.callers[i]);
                }
            }
        }
    }
}

proof fn lemma_run_settled(n: nat, stale: Credential, lo: int, hi: int, ticks: Seq<Tick>)
    requires
        expired(stale, lo),
        forall|k: int| 0 <= k < ticks.len() ==> calm(#[trigger] ticks[k], lo, hi),
    ensures
        settled(run(initial(n, stale), ticks), stale, hi),
        coherent(run(initial(n, stale), ticks)),
    decreases ticks.len(),
{
    let s0 = initial(n, stale);
    lemma_initial_coherent(n, stale);
    lemma_run_coherent(s0, ticks);
    if ticks.len() > 0 {
        let head = ticks.drop_last();
        assert forall|k: int| 0 <= k < head.len() implies calm(#[trigger] head[k], lo, hi) by {
            assert(head[k] == ticks[k]);
        }
        lemma_run_settled(n, stale, lo, hi, head);
        lemma_step_settled(run(s0, head), ticks.last(), stale, lo, hi);
    }
}

/// Single flight: `n` callers ask a cache whose credential is stale from the
/// instant `lo` on; all their moves fall between `lo` and `hi`, and the
/// transport delivers credentials that are still fresh at `hi`. Then,
/// however the moves interleave, the transport is never asked twice, nobody
/// is served before it has been asked, and once a caller is finished it has
/// been asked exactly once.
pub proof fn lemma_single_flight(n: nat, stale: Credential, lo: int, hi: int, ticks: Seq<Tick>)
    requires
        expired(stale, lo),
        forall|k: int| 0 <= k < ticks.len() ==> calm(#[trigger] ticks[k], lo, hi),
    ensures
        run(initial(n, stale), ticks).transport_calls <= 1,
        forall|i: int|
            0 <= i < n && #[trigger] run(initial(n, stale), ticks).callers[i] is Done ==> run(
                initial(n, stale),
                ticks,
            ).transport_calls == 1,
{
    lemma_run_settled(n, stale, lo, hi, ticks);
    lemma_run_keeps_callers(initial(n, stale), ticks);
}

/// Margin: a credential with four minutes and fifty-nine seconds of life left
/// counts as expired, one with five minutes and one second left counts as
/// fresh, and the border lies at five minutes exactly: with that much left
/// the credential is still fresh.
pub proof fn lemma_margin(credential: Credential, now: int)
    ensures
        credential.expires_at - now == 299 * 1_000_000_000 ==> expired(credential, now),
        credential.expires_at - now == 301 * 1_000_000_000 ==> !expired(credential, now),
        expired(credential, now) <==> credential.expires_at - now < 300 * 1_000_000_000,
        credential.expires_at <= now ==> expired(credential, now),
{
}

/// Freshness: a caller that starts while the stored credential is fresh, and
/// can read it, is handed the stored token at once. The transport is not
/// asked and the cache is left as it is.
pub proof fn lemma_fresh_token_served(s: System, t: Tick)
    requires
        0 <= t.caller < s.callers.len(),
        s.callers[t.caller] is Start,
        !s.cache.exclusive,
        !expired(s.cache.credential, t.now),
    ensures
        system_step(s, t).callers[t.caller] == (PhaseModel::Done {
            outcome: Ok(s.cache.credential.token),
        }),
        system_step(s, t).transport_calls == s.transport_calls,
        system_step(s, t).cache == s.cache,
{
}

/// Whether the transport delivered `credential` at some tick of `ticks`.
pub open spec fn delivered(ticks: Seq<Tick>, credential: Credential) -> bool {
    exists|k: int| 0 <= k < ticks.len() && (#[trigger] ticks[k]).reply == Ok::<
        Credential,
        (ErrorKind, Seq<char>),
    >(credential)
}

/// Whether `token` is the token of the credential that the cache began with
/// or of one that the transport delivered.
pub open spec fn known_token(ticks: Seq<Tick>, first: Credential, token: Seq<char>) -> bool {
    token == first.token || exists|c: Credential| #[trigger] delivered(ticks, c) && c.token == token
}

/// Every credential in the system is one that existed as a whole: the one
/// the cache began with, or one that the transport delivered.
pub open spec fn untorn(s: System, first: Credential, ticks: Seq<Tick>) -> bool {
    &&& s.cache.credential == first || delivered(ticks, s.cache.credential)
    &&& forall|i: int|
        0 <= i < s.callers.len() ==> (#[trigger] s.callers[i] matches PhaseModel::Releasing {
            store: Some(c),
            ..
        } ==> delivered(ticks, c))
    &&& forall|i: int|
        0 <= i < s.callers.len() ==> (#[trigger] s.callers[i] matches PhaseModel::Releasing {
            outcome: Ok(token),
            ..
        } ==> known_token(ticks, first, token))
    &&& forall|i: int|
        0 <= i < s.callers.len() ==> (#[trigger] s.callers[i] matches PhaseModel::Done {
            outcome: Ok(token),
        } ==> known_token(ticks, first, token))
}

proof fn lemma_delivered_grows(ticks: Seq<Tick>, c: Credential)
    requires
        ticks.len() > 0,
        delivered(ticks.drop_last(), c),
    ensures
        delivered(ticks, c),
{
    let head = ticks.drop_last();
    let k = choose|k: int| 0 <= k < head.len() && (#[trigger] head[k]).reply == Ok::<
        Credential,
        (ErrorKind, Seq<char>),
    >(c);
    assert(ticks[k] == head[k]);
}

proof fn lemma_known_token_grows(ticks: Seq<Tick>, first: Credential, token: Seq<char>)
    requires
        ticks.len() > 0,
        known_token(ticks.drop_last(), first, token),
    ensures
        known_token(ticks, first, token),
{
    if token != first.token {
        let c = choose|c: Credential| #[trigger]
            delivered(ticks.drop_last(), c) && c.token == token;
        lemma_delivered_grows(ticks, c);
    }
}

proof fn lemma_untorn_grows(s: System, first: Credential, ticks: Seq<Tick>)
    requires
        ticks.len() > 0,
        untorn(s, first, ticks.drop_last()),
    ensures
        untorn(s, first, ticks),
{
    let head = ticks.drop_last();
    if s.cache.credential != first {
        lemma_delivered_grows(ticks, s.cache.credential);
    }
    assert forall|i: int| 0 <= i < s.callers.len() implies (#[trigger] s.callers[i]
        matches PhaseModel::Releasing { store: Some(c), .. } ==> delivered(ticks, c)) by {
        if let PhaseModel::Releasing { store: Some(c), .. } = s.callers[i] {
            lemma_delivered_grows(ticks, c);
        }
    }
    assert forall|i: int| 0 <= i < s.callers.len() implies (#[trigger] s.callers[i]
        matches PhaseModel::Releasing { outcome: Ok(token), .. } ==> known_token(
        ticks,
        first,
        token,
    )) by {
        if let PhaseModel::Releasing { outcome: Ok(token), .. } = s.callers[i] {
            lemma_known_token_grows(ticks, first, token);
        }
    }
    assert forall|i: int| 0 <= i < s.callers.len() implies (#[trigger] s.callers[i]
        matches PhaseModel::Done { outcome: Ok(token) } ==> known_token(ticks, first, token)) by {
        if let PhaseModel::Done { outcome: Ok(token) } = s.callers[i] {
            lemma_known_token_grows(ticks, first, token);
        }
    }
}

/// No torn write: after any schedule, the stored credential is, token and
/// expiry together, either the one the cache began with or one that the
/// transport delivered, and every token handed to a caller is the token of
/// such a credential.
pub proof fn lemma_no_torn_credential(n: nat, first: Credential, ticks: Seq<Tick>)
    ensures
        untorn(run(initial(n, first), ticks), first, ticks),
    decreases ticks.len(),
{
    let s0 = initial(n, first);
    if ticks.len() > 0 {
        let head = ticks.drop_last();
        let t = ticks.last();
        let s = run(s0, head);
        let next = system_step(s, t);
        lemma_no_torn_credential(n, first, head);
        lemma_untorn_grows(s, first, ticks);
        if 0 <= t.caller < s.callers.len() && next != s {
            let k = t.caller;
            assert(ticks[ticks.len() - 1] == t);
            if let Ok(c) = t.reply {
                assert(delivered(ticks, c));
            }
            assert(known_token(ticks, first, s.cache.credential.token));
            assert forall|i: int| 0 <= i < next.callers.len() && i != k implies next.callers[i]
                == s.callers[i] by {}
            assert(untorn(next, first, ticks));
        }
    }
}

/// Whether caller `i` asked the transport itself and was answered with the
/// failure `e`, at some tick of `ticks` run from `s0`.
pub open spec fn own_failure(s0: System, ticks: Seq<Tick>, i: int, e: (ErrorKind, Seq<char>)) -> bool {
    exists|k: int|
        0 <= k < ticks.len() && (#[trigger] ticks[k]).caller == i && ticks[k].reply == Err::<
            Credential,
            (ErrorKind, Seq<char>),
        >(e) && run(s0, ticks.take(k)).callers[i] is InFlight
}

/// Every failure in the hands of a caller is one that the transport gave to
/// that very caller.
pub open spec fn isolated(s: System, s0: System, ticks: Seq<Tick>) -> bool {
    &&& forall|i: int|
        0 <= i < s.callers.len() ==> (#[trigger] s.callers[i] matches PhaseModel::Releasing {
            outcome: Err(e),
            ..
        } ==> own_failure(s0, ticks, i, e))
    &&& forall|i: int|
        0 <= i < s.callers.len() ==> (#[trigger] s.callers[i] matches PhaseModel::Done {
            outcome: Err(e),
        } ==> own_failure(s0, ticks, i, e))
}

proof fn lemma_own_failure_grows(s0: System, ticks: Seq<Tick>, i: int, e: (ErrorKind, Seq<char>))
    requires
        ticks.len() > 0,
        own_failure(s0, ticks.drop_last(), i, e),
    ensures
        own_failure(s0, ticks, i, e),
{
    let head = ticks.drop_last();
    let k = choose|k: int|
        0 <= k < head.len() && (#[trigger] head[k]).caller == i && head[k].reply == Err::<
            Credential,
            (ErrorKind, Seq<char>),
        >(e) && run(s0, head.take(k)).callers[i] is InFlight;
    assert(ticks[k] == head[k]);
    assert(ticks.take(k) =~= head.take(k));
}

/// Failure isolation, first half: whatever the schedule, a caller holds a
/// failure only if it asked the transport itself and the transport answered
/// it with that failure. A parked caller is never handed the refresher's
/// failure.
pub proof fn lemma_failure_isolation(n: nat, first: Credential, ticks: Seq<Tick>)
    ensures
        isolated(run(initial(n, first), ticks), initial(n, first), ticks),
    decreases ticks.len(),
{
    let s0 = initial(n, first);
    if ticks.len() > 0 {
        let head = ticks.drop_last();
        let t = ticks.last();
        let s = run(s0, head);
        let next = system_step(s, t);
        lemma_failure_isolation(n, first, head);
        let k = t.caller;
        assert forall|i: int| 0 <= i < next.callers.len() implies (#[trigger] next.callers[i]
            matches PhaseModel::Releasing { outcome: Err(e), .. } ==> own_failure(
            s0,
            ticks,
            i,
            e,
        )) by {
            if let PhaseModel::Releasing { outcome: Err(e), .. } = next.callers[i] {
                if s.callers[i] == next.callers[i] {
                    lemma_own_failure_grows(s0, ticks, i, e);
                } else {
                    assert(i == k);
                    assert(s.callers[i] is InFlight);
                    let last = ticks.len() - 1;
                    assert(ticks[last] == t);
                    assert(ticks.take(last) =~= head);
                }
            }
        }
        assert forall|i: int| 0 <= i < next.callers.len() implies (#[trigger] next.callers[i]
            matches PhaseModel::Done { outcome: Err(e) } ==> own_failure(s0, ticks, i, e)) by {
            if let PhaseModel::Done { outcome: Err(e) } = next.callers[i] {
                if s.callers[i] == next.callers[i] {
                    lemma_own_failure_grows(s0, ticks, i, e);
                } else {
                    assert(i == k);
                    assert(s.callers[i] matches PhaseModel::Releasing { outcome: Err(e2), .. }
                        && e2 == e);
                    lemma_own_failure_grows(s0, ticks, i, e);
                }
            }
        }
    }
}

/// Failure isolation, second half: when the transport fails the refresher,
/// the refresher ends with that failure, the stored credential stays what it
/// was, and a parked caller that then wakes is handed the stored token.
pub proof fn lemma_failed_refresh_keeps_credential(
    s: System,
    fail: Tick,
    release: Tick,
    wake: Tick,
    e: (ErrorKind, Seq<char>),
)
    requires
        coherent(s),
        0 <= fail.caller < s.callers.len(),
        s.callers[fail.caller] is InFlight,
        fail.reply == Err::<Credential, (ErrorKind, Seq<char>)>(e),
        release.caller == fail.caller,
        0 <= wake.caller < s.callers.len(),
        s.callers[wake.caller] is Waiting,
    ensures
        ({
            let failed = system_step(s, fail);
            let released = system_step(failed, release);
            let woken = system_step(released, wake);
            &&& released.callers[fail.caller] == (PhaseModel::Done { outcome: Err(e) })
            &&& released.cache.credential == s.cache.credential
            &&& released.transport_calls == s.transport_calls
            &&& !released.cache.refreshing
            &&& woken.callers[wake.caller] == (PhaseModel::Done {
                outcome: Ok(s.cache.credential.token),
            })
            &&& woken.cache.credential == s.cache.credential
        }),
{
    let failed = system_step(s, fail);
    let released = system_step(failed, release);
    assert(failed.callers[wake.caller] is Waiting);
    assert(released.notified.contains(wake.caller)) by {
        assert(crate::client::coordination::waiting_at(failed, wake.caller));
    }
}

/// Flag release: a caller that holds the refresher role gives it up within
/// its next three moves, whether the refresh succeeds or fails: after them
/// the caller is finished and the flag is clear.
pub proof fn lemma_flag_released(s: System, first: Tick, second: Tick, third: Tick)
    requires
        coherent(s),
        refresher_at(s, first.caller),
        second.caller == first.caller,
        third.caller == first.caller,
    ensures
        ({
            let end = system_step(system_step(system_step(s, first), second), third);
            &&& end.callers[first.caller] is Done
            &&& !end.cache.refreshing
            &&& !end.cache.exclusive
        }),
{
    let a = system_step(s, first);
    let b = system_step(a, second);
    let c = system_step(b, third);
    lemma_step_coherent(s, first);
    lemma_step_coherent(a, second);
    lemma_step_coherent(b, third);
    assert(c.callers[first.caller] is Done);
    assert forall|i: int| !refresher_at(c, i) by {
        if refresher_at(c, i) {
            assert(i != first.caller);
            assert(c.callers[i] == s.callers[i]);
            assert(refresher_at(s, i));
        }
    }
    assert forall|i: int| !exclusive_at(c, i) by {
        if exclusive_at(c, i) {
            assert(refresher_at(c, i));
        }
    }
}

/// Whether every parked caller has either been reached by a broadcast or
/// still has a refresher that will send one.
pub open spec fn attended(s: System) -> bool {
    forall|i: int| waiting_at(s, i) ==> s.notified.contains(i) || s.cache.refreshing
}

proof fn lemma_step_attended(s: System, t: Tick)
    requires
        attended(s),
    ensures
        attended(system_step(s, t)),
{
    let n = system_step(s, t);
    if 0 <= t.caller < s.callers.len() && n != s {
        let k = t.caller;
        assert forall|i: int| waiting_at(n, i) implies n.notified.contains(i)
            || n.cache.refreshing by {
            if i != k {
                assert(waiting_at(s, i));
            }
        }
    }
}

/// Broadcast wake-up: whatever the schedule, no parked caller is forgotten.
/// Each has been reached by a broadcast already, or the refresher whose
/// release will reach it is still at work.
pub proof fn lemma_parked_callers_are_woken(n: nat, credential: Credential, ticks: Seq<Tick>)
    ensures
        attended(run(initial(n, credential), ticks)),
    decreases ticks.len(),
{
    let s0 = initial(n, credential);
    if ticks.len() > 0 {
        lemma_parked_callers_are_woken(n, credential, ticks.drop_last());
        lemma_step_attended(run(s0, ticks.drop_last()), ticks.last());
    } else {
        assert forall|i: int| !waiting_at(s0, i) by {}
    }
}

/// No deadlock: in every reachable state in which some caller is not
/// finished, some caller can move.
pub proof fn lemma_some_caller_can_move(n: nat, credential: Credential, ticks: Seq<Tick>, i: int)
    requires
        0 <= i < n,
        !(run(initial(n, credential), ticks).callers[i] is Done),
    ensures
        exists|t: Tick| #[trigger]
            system_step(run(initial(n, credential), ticks), t) != run(
                initial(n, credential),
                ticks,
            ),
{
    let s = run(initial(n, credential), ticks);
    lemma_initial_coherent(n, credential);
    lemma_run_coherent(initial(n, credential), ticks);
    lemma_run_keeps_callers(initial(n, credential), ticks);
    lemma_parked_callers_are_woken(n, credential, ticks);
    let reply = Ok::<Credential, (ErrorKind, Seq<char>)>(credential);
    let blocked_on_reader = (s.callers[i] is Start || (s.callers[i] is Waiting
        && s.notified.contains(i))) && s.cache.exclusive;
    let blocked_on_wake = s.callers[i] is Waiting && !s.notified.contains(i);
    let mover = if blocked_on_reader {
        choose|w: int| exclusive_at(s, w)
    } else if blocked_on_wake {
        assert(waiting_at(s, i));
        choose|w: int| refresher_at(s, w)
    } else {
        i
    };
    let t = Tick { caller: mover, now: 0, reply };
    let next = system_step(s, t);
    assert(0 <= mover < s.callers.len());
    assert(next.callers[mover] != s.callers[mover]);
    assert(next != s);
}

/// Flag release, continued: in a reachable state in which nobody holds the
/// refresher role, the flag is clear, and a caller that found the credential
/// stale wins the claim.
pub proof fn lemma_claim_after_release(n: nat, credential: Credential, ticks: Seq<Tick>, t: Tick)
    requires
        forall|i: int| !refresher_at(run(initial(n, credential), ticks), i),
        0 <= t.caller < n,
        run(initial(n, credential), ticks).callers[t.caller] is Contending,
    ensures
        !run(initial(n, credential), ticks).cache.refreshing,
        system_step(run(initial(n, credential), ticks), t).callers[t.caller] is Refresher,
{
    lemma_initial_coherent(n, credential);
    lemma_run_coherent(initial(n, credential), ticks);
    lemma_run_keeps_callers(initial(n, credential), ticks);
}

} // verus!
