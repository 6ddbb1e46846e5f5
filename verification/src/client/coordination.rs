//! Many callers sharing one token cache.
//!
//! [`step`](crate::client::token_storage::step) is the protocol of a single
//! caller. This module puts any number of callers around one cache and lets a
//! scheduler pick, tick by tick, which of them moves next. What the runtime
//! does between two decisions of a caller is modelled here: the read under
//! shared access, the compare-and-set on the refresher flag, exclusive access
//! held across the network exchange, the broadcast wake-up. The guarantees of
//! the cache are then statements about every schedule.
//!
//! One tick is one atomic piece of work. Storing the new credential, giving
//! up exclusive access, clearing the flag and waking the parked callers count
//! as a single tick: between them no other caller can change what is stored.

use vstd::prelude::*;
use crate::client::access_token::Credential;
use crate::client::token_storage::{EventModel, PhaseModel, step};
use crate::error::ErrorKind;

verus! {

/// The state that the callers share.
pub struct Cache {
    /// The stored credential.
    pub credential: Credential,
    /// The refresher flag: set while some caller holds the refresher role.
    pub refreshing: bool,
    /// Whether some caller holds exclusive access to the credential.
    pub exclusive: bool,
}

/// The cache together with everyone who is asking it for a token.
pub struct System {
    pub cache: Cache,
    /// The phase of each caller.
    pub callers: Seq<PhaseModel>,
    /// The parked callers that a broadcast has reached.
    pub notified: Set<int>,
    /// How often the transport has been invoked so far.
    pub transport_calls: nat,
}

/// One choice of the scheduler: the caller that moves, the instant on the
/// clock, and what the transport answers should this move ask it.
pub struct Tick {
    pub caller: int,
    pub now: int,
    pub reply: Result<Credential, (ErrorKind, Seq<char>)>,
}

/// The system in which `n` callers are about to ask a cache that holds
/// `credential` and that nobody is refreshing.
pub open spec fn initial(n: nat, credential: Credential) -> System {
    System {
        cache: Cache { credential, refreshing: false, exclusive: false },
        callers: Seq::new(n, |i: int| PhaseModel::Start),
        notified: Set::empty(),
        transport_calls: 0,
    }
}

/// Whether a caller in `phase` holds the refresher role.
pub open spec fn is_refresher(phase: PhaseModel) -> bool {
    phase is Refresher || phase is InFlight || phase is Releasing
}

/// Whether a caller in `phase` holds exclusive access to the credential.
pub open spec fn holds_exclusive(phase: PhaseModel) -> bool {
    phase is InFlight || phase is Releasing
}

/// Whether caller `i` exists and holds the refresher role.
pub open spec fn refresher_at(s: System, i: int) -> bool {
    0 <= i < s.callers.len() && is_refresher(s.callers[i])
}

/// Whether caller `i` exists and holds exclusive access.
pub open spec fn exclusive_at(s: System, i: int) -> bool {
    0 <= i < s.callers.len() && holds_exclusive(s.callers[i])
}

/// Whether caller `i` exists and is parked.
pub open spec fn waiting_at(s: System, i: int) -> bool {
    0 <= i < s.callers.len() && s.callers[i] is Waiting
}

/// The system after the move that `t` picks. A move that is not possible
/// (no such caller, a read while exclusive access is held, a parked caller
/// that no broadcast has reached, a finished caller) leaves the system as it
/// is.
pub open spec fn system_step(s: System, t: Tick) -> System {
    if !(0 <= t.caller < s.callers.len()) {
        s
    } else {
        let i = t.caller;
        let phase = s.callers[i];
        match phase {
            PhaseModel::Start => {
                if s.cache.exclusive {
                    s
                } else {
                    let event = EventModel::Snapshot { credential: s.cache.credential, now: t.now };
                    System { callers: s.callers.update(i, step(phase, event)), ..s }
                }
            },
            PhaseModel::Contending => {
                let event = EventModel::Claim { won: !s.cache.refreshing };
                System {
                    cache: Cache { refreshing: true, ..s.cache },
                    callers: s.callers.update(i, step(phase, event)),
                    ..s
                }
            },
            PhaseModel::Refresher => {
                let event = EventModel::Exclusive { credential: s.cache.credential, now: t.now };
                let next = step(phase, event);
                System {
                    cache: Cache { exclusive: true, ..s.cache },
                    callers: s.callers.update(i, next),
                    transport_calls: if next is InFlight {
                        s.transport_calls + 1
                    } else {
                        s.transport_calls
                    },
                    ..s
                }
            },
            PhaseModel::InFlight => {
                let event = EventModel::Transport { reply: t.reply };
                System { callers: s.callers.update(i, step(phase, event)), ..s }
            },
            PhaseModel::Releasing { store, outcome } => {
                System {
                    cache: Cache {
                        credential: match store {
                            Some(credential) => credential,
                            None => s.cache.credential,
                        },
                        refreshing: false,
                        exclusive: false,
                    },
                    callers: s.callers.update(i, step(phase, EventModel::Released)),
                    notified: s.notified.union(Set::new(|j: int| waiting_at(s, j))),
                    ..s
                }
            },
            PhaseModel::Waiting => {
                if s.notified.contains(i) && !s.cache.exclusive {
                    let event = EventModel::Woken { credential: s.cache.credential };
                    System { callers: s.callers.update(i, step(phase, event)), ..s }
                } else {
                    s
                }
            },
            PhaseModel::Done { outcome } => s,
        }
    }
}

/// The system after the moves of `ticks`, taken in order.
pub open spec fn run(s: System, ticks: Seq<Tick>) -> System
    decreases ticks.len(),
{
    if ticks.len() == 0 {
        s
    } else {
        system_step(run(s, ticks.drop_last()), ticks.last())
    }
}

/// What holds of the flag and of exclusive access in every state that the
/// system can reach: at most one caller holds the refresher role, the flag is
/// set exactly while someone holds it, and exclusive access is marked exactly
/// while the holder has taken it.
pub open spec fn coherent(s: System) -> bool {
    &&& forall|i: int, j: int| refresher_at(s, i) && refresher_at(s, j) ==> i == j
    &&& s.cache.refreshing <==> exists|i: int| refresher_at(s, i)
    &&& s.cache.exclusive <==> exists|i: int| exclusive_at(s, i)
}

/// The initial system is coherent.
pub proof fn lemma_initial_coherent(n: nat, credential: Credential)
    ensures
        coherent(initial(n, credential)),
{
    let s = initial(n, credential);
    assert forall|i: int| !refresher_at(s, i) by {}
    assert forall|i: int| !exclusive_at(s, i) by {}
}

/// No move breaks coherence.
pub proof fn lemma_step_coherent(s: System, t: Tick)
    requires
        coherent(s),
    ensures
        coherent(system_step(s, t)),
{
    let n = system_step(s, t);
    if 0 <= t.caller < s.callers.len() && n != s {
        let k = t.caller;
        assert(n.callers.len() == s.callers.len());
        assert forall|i: int| i != k implies refresher_at(n, i) == refresher_at(s, i) by {}
        assert forall|i: int| i != k implies exclusive_at(n, i) == exclusive_at(s, i) by {}
        if s.cache.refreshing {
            let w = choose|i: int| refresher_at(s, i);
            assert(refresher_at(s, w));
            if w != k {
                assert(refresher_at(n, w));
            }
        }
        if s.cache.exclusive {
            let w = choose|i: int| exclusive_at(s, i);
            assert(exclusive_at(s, w));
            assert(refresher_at(s, w));
            if w != k {
                assert(exclusive_at(n, w));
            }
        }
        match s.callers[k] {
            PhaseModel::Refresher => {
                assert(refresher_at(s, k));
                assert(exclusive_at(n, k));
                assert(refresher_at(n, k));
            },
            PhaseModel::InFlight => {
                assert(refresher_at(s, k));
                assert(exclusive_at(s, k));
                assert(exclusive_at(n, k));
                assert(refresher_at(n, k));
            },
            PhaseModel::Releasing { store, outcome } => {
                assert(refresher_at(s, k));
            },
            PhaseModel::Contending => {
                if !s.cache.refreshing {
                    assert(refresher_at(n, k));
                }
            },
            _ => {},
        }
        if refresher_at(s, k) {
            assert forall|i: int| refresher_at(n, i) implies i == k by {
                if i != k {
                    assert(refresher_at(s, i));
                }
            }
            assert forall|i: int| exclusive_at(n, i) implies i == k by {
                if i != k {
                    assert(exclusive_at(s, i));
                    assert(refresher_at(s, i));
                }
            }
        }
        assert forall|i: int, j: int| refresher_at(n, i) && refresher_at(n, j) implies i == j by {
            if i != k && j != k {
                assert(refresher_at(s, i) && refresher_at(s, j));
            } else if i != j {
                let other = if i == k { j } else { i };
                assert(refresher_at(s, other));
            }
        }
    }
}

/// Every state reached from a coherent one is coherent.
pub proof fn lemma_run_coherent(s: System, ticks: Seq<Tick>)
    requires
        coherent(s),
    ensures
        coherent(run(s, ticks)),
    decreases ticks.len(),
{
    if ticks.len() > 0 {
        lemma_run_coherent(s, ticks.drop_last());
        lemma_step_coherent(run(s, ticks.drop_last()), ticks.last());
    }
}

} // verus!
