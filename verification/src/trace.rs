//! Whole runs of one accept: the events a driver feeds in, the actions it is
//! told in return, and what holds of every run of a given shape.

use crate::config::BoringSSLConfig;
use crate::future::{AcceptAction, AcceptError, AcceptEvent, AcceptState};
use crate::timeout::HandshakeTimeout;
use vstd::prelude::*;

verus! {

/// `n` times `item`.
pub open spec fn repeated<A>(item: A, n: nat) -> Seq<A> {
    Seq::new(n, |i: int| item)
}

/// The state that `state` has reached after `events`, taken in order.
pub open spec fn run<C, R, S, T, E>(
    state: AcceptState<C, S>,
    events: Seq<AcceptEvent<R, S, T, E>>,
) -> AcceptState<C, S>
    decreases events.len(),
{
    if events.len() == 0 {
        state
    } else {
        run(state, events.drop_last()).step(events.last())
    }
}

/// What the driver is told on each of `events`, in order.
pub open spec fn actions<C, R, S, T, E>(
    state: AcceptState<C, S>,
    events: Seq<AcceptEvent<R, S, T, E>>,
) -> Seq<AcceptAction<C, R, S, T, E>>
    decreases events.len(),
{
    if events.len() == 0 {
        Seq::empty()
    } else {
        actions(state, events.drop_last()).push(
            run(state, events.drop_last()).action(events.last()),
        )
    }
}

/// Whether each of `events` can be taken in the state that the events before it lead to.
pub open spec fn admissible<C, R, S, T, E>(
    state: AcceptState<C, S>,
    events: Seq<AcceptEvent<R, S, T, E>>,
) -> bool
    decreases events.len(),
{
    events.len() == 0 || (admissible(state, events.drop_last()) && run(
        state,
        events.drop_last(),
    ).admits(events.last()))
}

/// A run of `first` followed by `second` is a run of `first` and then, from
/// where that ended, a run of `second`.
pub proof fn lemma_run_concat<C, R, S, T, E>(
    state: AcceptState<C, S>,
    first: Seq<AcceptEvent<R, S, T, E>>,
    second: Seq<AcceptEvent<R, S, T, E>>,
)
    ensures
        run(state, first + second) == run(run(state, first), second),
        actions(state, first + second) == actions(state, first) + actions(
            run(state, first),
            second,
        ),
        admissible(state, first + second) == (admissible(state, first) && admissible(
            run(state, first),
            second,
        )),
    decreases second.len(),
{
    if second.len() == 0 {
        assert(first + second =~= first);
        assert(actions(state, first) + actions(run(state, first), second) =~= actions(
            state,
            first,
        ));
    } else {
        lemma_run_concat(state, first, second.drop_last());
        assert((first + second).drop_last() =~= first + second.drop_last());
        assert((first + second).last() == second.last());
        assert(actions(state, first + second) =~= actions(state, first) + actions(
            run(state, first),
            second,
        ));
    }
}

/// While the inner accept is pending and reports nothing, the state stays as
/// it is and the driver is told to suspend each time.
pub proof fn lemma_inner_waits<C, R, S, T, E>(state: AcceptState<C, S>, n: nat)
    requires
        state is InnerAccepting,
    ensures
        run(state, repeated(AcceptEvent::<R, S, T, E>::InnerPending, n)) == state,
        actions(state, repeated(AcceptEvent::<R, S, T, E>::InnerPending, n)) == repeated(
            AcceptAction::<C, R, S, T, E>::Suspend,
            n,
        ),
        admissible(state, repeated(AcceptEvent::<R, S, T, E>::InnerPending, n)),
    decreases n,
{
    let events = repeated(AcceptEvent::<R, S, T, E>::InnerPending, n);
    if n > 0 {
        lemma_inner_waits::<C, R, S, T, E>(state, (n - 1) as nat);
        assert(events.drop_last() =~= repeated(
            AcceptEvent::<R, S, T, E>::InnerPending,
            (n - 1) as nat,
        ));
    }
    assert(actions(state, events) =~= repeated(AcceptAction::<C, R, S, T, E>::Suspend, n));
}

/// While the handshake is pending and reports nothing, the state stays as it
/// is and the driver is told to suspend each time.
pub proof fn lemma_handshake_waits<C, R, S, T, E>(state: AcceptState<C, S>, n: nat)
    requires
        state is TlsAccepting,
    ensures
        run(state, repeated(AcceptEvent::<R, S, T, E>::HandshakePending, n)) == state,
        actions(state, repeated(AcceptEvent::<R, S, T, E>::HandshakePending, n)) == repeated(
            AcceptAction::<C, R, S, T, E>::Suspend,
            n,
        ),
        admissible(state, repeated(AcceptEvent::<R, S, T, E>::HandshakePending, n)),
    decreases n,
{
    let events = repeated(AcceptEvent::<R, S, T, E>::HandshakePending, n);
    if n > 0 {
        lemma_handshake_waits::<C, R, S, T, E>(state, (n - 1) as nat);
        assert(events.drop_last() =~= repeated(
            AcceptEvent::<R, S, T, E>::HandshakePending,
            (n - 1) as nat,
        ));
    }
    assert(actions(state, events) =~= repeated(AcceptAction::<C, R, S, T, E>::Suspend, n));
}

/// The events of an accept whose inner accept reports nothing `inner_waits`
/// times and then gives `stream` and `service`.
pub open spec fn accepted<R, S, T, E>(inner_waits: nat, stream: R, service: S) -> Seq<
    AcceptEvent<R, S, T, E>,
> {
    repeated(AcceptEvent::InnerPending, inner_waits).push(
        AcceptEvent::InnerAccepted(stream, service),
    )
}

/// What the driver is told on the events of [`accepted`]: to suspend each
/// time, and then to begin the handshake on `stream`.
pub open spec fn handshake_begun<C, R, S, T, E>(
    config: BoringSSLConfig<C>,
    handshake_timeout: HandshakeTimeout,
    inner_waits: nat,
    stream: R,
) -> Seq<AcceptAction<C, R, S, T, E>> {
    repeated(AcceptAction::Suspend, inner_waits).push(
        AcceptAction::BeginHandshake { config, stream, handshake_timeout },
    )
}

/// Up to the start of the handshake every accept goes the same way: the
/// driver suspends while the inner accept reports nothing, and on its success
/// is handed the configuration, the raw stream and the deadline, while the
/// service is kept.
pub proof fn lemma_accepted<C, R, S, T, E>(
    config: BoringSSLConfig<C>,
    handshake_timeout: HandshakeTimeout,
    inner_waits: nat,
    stream: R,
    service: S,
)
    ensures
        ({
            let start = AcceptState::<C, S>::start(config, handshake_timeout);
            let events = accepted::<R, S, T, E>(inner_waits, stream, service);
            &&& admissible(start, events)
            &&& run(start, events) == (AcceptState::<C, S>::TlsAccepting { service: Some(service) })
            &&& actions(start, events) == handshake_begun::<C, R, S, T, E>(
                config,
                handshake_timeout,
                inner_waits,
                stream,
            )
        }),
{
    let start = AcceptState::<C, S>::start(config, handshake_timeout);
    let events = accepted::<R, S, T, E>(inner_waits, stream, service);
    lemma_inner_waits::<C, R, S, T, E>(start, inner_waits);
    assert(events.drop_last() =~= repeated(AcceptEvent::<R, S, T, E>::InnerPending, inner_waits));
}

/// A handshake that is done before its deadline yields the encrypted stream
/// together with the very service that the inner accept gave.
///
/// However often the inner accept and then the handshake report nothing, the
/// driver is told to suspend each time, to begin the handshake once, on the
/// accepted stream and under the configured deadline, and at the end to
/// resolve with `encrypted` and `service`. After that the service is gone from
/// the state, so it cannot be handed out a second time.
pub proof fn law_completed_handshake_returns_service<C, R, S, T, E>(
    config: BoringSSLConfig<C>,
    handshake_timeout: HandshakeTimeout,
    inner_waits: nat,
    stream: R,
    service: S,
    handshake_waits: nat,
    encrypted: T,
)
    ensures
        ({
            let start = AcceptState::<C, S>::start(config, handshake_timeout);
            let events = accepted::<R, S, T, E>(inner_waits, stream, service) + repeated(
                AcceptEvent::HandshakePending,
                handshake_waits,
            ).push(AcceptEvent::HandshakeCompleted(encrypted));
            &&& admissible(start, events)
            &&& actions(start, events) == handshake_begun::<C, R, S, T, E>(
                config,
                handshake_timeout,
                inner_waits,
                stream,
            ) + repeated(AcceptAction::Suspend, handshake_waits).push(
                AcceptAction::Resolve(Ok((encrypted, service))),
            )
            &&& run(start, events) == (AcceptState::<C, S>::TlsAccepting { service: None })
            &&& forall|again: AcceptEvent<R, S, T, E>|
                again is HandshakeCompleted ==> !(#[trigger] run(start, events).admits(again))
        }),
{
    let start = AcceptState::<C, S>::start(config, handshake_timeout);
    let held = AcceptState::<C, S>::TlsAccepting { service: Some(service) };
    let first = accepted::<R, S, T, E>(inner_waits, stream, service);
    let waits = repeated(AcceptEvent::<R, S, T, E>::HandshakePending, handshake_waits);
    let second = waits.push(AcceptEvent::HandshakeCompleted(encrypted));
    lemma_accepted::<C, R, S, T, E>(config, handshake_timeout, inner_waits, stream, service);
    lemma_handshake_waits::<C, R, S, T, E>(held, handshake_waits);
    assert(second.drop_last() =~= waits);
    lemma_run_concat(start, first, second);
}

/// When the deadline passes before the handshake is done, the accept resolves
/// with [`AcceptError::TimedOut`], and the driver is at no point told to
/// resolve with a service.
pub proof fn law_missed_deadline_times_out<C, R, S, T, E>(
    config: BoringSSLConfig<C>,
    handshake_timeout: HandshakeTimeout,
    inner_waits: nat,
    stream: R,
    service: S,
    handshake_waits: nat,
)
    ensures
        ({
            let start = AcceptState::<C, S>::start(config, handshake_timeout);
            let events = accepted::<R, S, T, E>(inner_waits, stream, service) + repeated(
                AcceptEvent::HandshakePending,
                handshake_waits,
            ).push(AcceptEvent::HandshakeTimedOut);
            let told = actions(start, events);
            &&& admissible(start, events)
            &&& told == handshake_begun::<C, R, S, T, E>(
                config,
                handshake_timeout,
                inner_waits,
                stream,
            ) + repeated(AcceptAction::Suspend, handshake_waits).push(
                AcceptAction::Resolve(Err(AcceptError::TimedOut)),
            )
            &&& forall|i: int|
                0 <= i < told.len() ==> !(#[trigger] told[i] matches AcceptAction::Resolve(Ok(_)))
        }),
{
    let start = AcceptState::<C, S>::start(config, handshake_timeout);
    let held = AcceptState::<C, S>::TlsAccepting { service: Some(service) };
    let first = accepted::<R, S, T, E>(inner_waits, stream, service);
    let waits = repeated(AcceptEvent::<R, S, T, E>::HandshakePending, handshake_waits);
    let second = waits.push(AcceptEvent::HandshakeTimedOut);
    lemma_accepted::<C, R, S, T, E>(config, handshake_timeout, inner_waits, stream, service);
    lemma_handshake_waits::<C, R, S, T, E>(held, handshake_waits);
    assert(second.drop_last() =~= waits);
    lemma_run_concat(start, first, second);
}

/// When the inner accept fails, the accept resolves with that very failure on
/// the spot. The driver is at no point told to begin a handshake, and the
/// configuration is still in the state, never handed out.
pub proof fn law_inner_failure_is_passed_on<C, R, S, T, E>(
    config: BoringSSLConfig<C>,
    handshake_timeout: HandshakeTimeout,
    inner_waits: nat,
    failure: E,
)
    ensures
        ({
            let start = AcceptState::<C, S>::start(config, handshake_timeout);
            let events = repeated(AcceptEvent::<R, S, T, E>::InnerPending, inner_waits).push(
                AcceptEvent::InnerFailed(failure),
            );
            let told = actions(start, events);
            &&& admissible(start, events)
            &&& told == repeated(AcceptAction::<C, R, S, T, E>::Suspend, inner_waits).push(
                AcceptAction::Resolve(Err(AcceptError::Inner(failure))),
            )
            &&& forall|i: int| 0 <= i < told.len() ==> !(#[trigger] told[i] is BeginHandshake)
            &&& run(start, events) == start
        }),
{
    let start = AcceptState::<C, S>::start(config, handshake_timeout);
    let waits = repeated(AcceptEvent::<R, S, T, E>::InnerPending, inner_waits);
    let events = waits.push(AcceptEvent::InnerFailed(failure));
    lemma_inner_waits::<C, R, S, T, E>(start, inner_waits);
    assert(events.drop_last() =~= waits);
}

/// How often the driver is told in `told` to begin a handshake, which is how
/// often the configuration is handed out.
pub open spec fn handshakes_begun<C, R, S, T, E>(told: Seq<AcceptAction<C, R, S, T, E>>) -> nat
    decreases told.len(),
{
    if told.len() == 0 {
        0
    } else {
        handshakes_begun(told.drop_last()) + if told.last() is BeginHandshake {
            1nat
        } else {
            0nat
        }
    }
}

/// How often the driver is told in `told` to resolve with a stream and a
/// service, which is how often the service is handed out.
pub open spec fn services_returned<C, R, S, T, E>(told: Seq<AcceptAction<C, R, S, T, E>>) -> nat
    decreases told.len(),
{
    if told.len() == 0 {
        0
    } else {
        services_returned(told.drop_last()) + if told.last() matches AcceptAction::Resolve(Ok(_)) {
            1nat
        } else {
            0nat
        }
    }
}

/// In every run of an accept, whatever the events, the configuration is
/// handed out at most once and the service at most once, and the service only
/// after the handshake was begun. The phase tells how far the run has come.
pub proof fn law_handed_out_at_most_once<C, R, S, T, E>(
    config: BoringSSLConfig<C>,
    handshake_timeout: HandshakeTimeout,
    events: Seq<AcceptEvent<R, S, T, E>>,
)
    requires
        admissible(AcceptState::<C, S>::start(config, handshake_timeout), events),
    ensures
        ({
            let start = AcceptState::<C, S>::start(config, handshake_timeout);
            let told = actions(start, events);
            let begun = handshakes_begun(told);
            let returned = services_returned(told);
            &&& returned <= begun <= 1
            &&& run(start, events) is InnerAccepting <==> begun == 0
            &&& run(start, events) == start <==> begun == 0
            &&& (run(start, events) matches AcceptState::TlsAccepting { service } && service is None)
                <==> returned == 1
        }),
    decreases events.len(),
{
    if events.len() > 0 {
        let start = AcceptState::<C, S>::start(config, handshake_timeout);
        law_handed_out_at_most_once(config, handshake_timeout, events.drop_last());
        assert(actions(start, events).drop_last() =~= actions(start, events.drop_last()));
    }
}

/// One poll among several accepts in flight: the place of the accept that was
/// polled, and what its driver saw.
pub type Polled<R, S, T, E> = (int, AcceptEvent<R, S, T, E>);

/// The states of several accepts after the polls of `schedule`, each of which
/// reaches the one accept that it names.
pub open spec fn run_all<C, R, S, T, E>(
    states: Seq<AcceptState<C, S>>,
    schedule: Seq<Polled<R, S, T, E>>,
) -> Seq<AcceptState<C, S>>
    decreases schedule.len(),
{
    if schedule.len() == 0 {
        states
    } else {
        let before = run_all(states, schedule.drop_last());
        let (k, event) = schedule.last();
        if 0 <= k < before.len() {
            before.update(k, before[k].step(event))
        } else {
            before
        }
    }
}

/// The events of `schedule` that reach the accept at place `k`, in order.
pub open spec fn events_of<R, S, T, E>(schedule: Seq<Polled<R, S, T, E>>, k: int) -> Seq<
    AcceptEvent<R, S, T, E>,
>
    decreases schedule.len(),
{
    if schedule.len() == 0 {
        Seq::empty()
    } else if schedule.last().0 == k {
        events_of(schedule.drop_last(), k).push(schedule.last().1)
    } else {
        events_of(schedule.drop_last(), k)
    }
}

/// What the driver of the accept at place `k` is told in the course of `schedule`.
pub open spec fn told_to<C, R, S, T, E>(
    states: Seq<AcceptState<C, S>>,
    schedule: Seq<Polled<R, S, T, E>>,
    k: int,
) -> Seq<AcceptAction<C, R, S, T, E>>
    decreases schedule.len(),
{
    if schedule.len() == 0 {
        Seq::empty()
    } else if schedule.last().0 == k {
        told_to(states, schedule.drop_last(), k).push(
            run_all(states, schedule.drop_last())[k].action(schedule.last().1),
        )
    } else {
        told_to(states, schedule.drop_last(), k)
    }
}

/// Accepts in flight do not touch each other: however the polls of several
/// accepts are interleaved, each accept goes through the states, and its
/// driver is told the actions, of a run that holds its own events alone.
pub proof fn law_accepts_do_not_interfere<C, R, S, T, E>(
    states: Seq<AcceptState<C, S>>,
    schedule: Seq<Polled<R, S, T, E>>,
    k: int,
)
    requires
        0 <= k < states.len(),
    ensures
        run_all(states, schedule).len() == states.len(),
        run_all(states, schedule)[k] == run(states[k], events_of(schedule, k)),
        told_to(states, schedule, k) == actions(states[k], events_of(schedule, k)),
    decreases schedule.len(),
{
    if schedule.len() > 0 {
        let earlier = schedule.drop_last();
        law_accepts_do_not_interfere(states, earlier, k);
        if schedule.last().0 == k {
            assert(events_of(schedule, k).drop_last() =~= events_of(earlier, k));
        } else {
            let other = schedule.last().0;
            if 0 <= other < states.len() {
                law_accepts_do_not_interfere(states, earlier, other);
            }
        }
    }
}

/// Any number of accepts that begin with the same configuration and deadline,
/// as those of an acceptor and of its clones do, succeed side by side: when
/// the events that reach one of them are those of a handshake done in time,
/// its driver is told to resolve with its own encrypted stream and its own
/// service, whatever is going on in the others.
pub proof fn law_concurrent_accepts_succeed<C, R, S, T, E>(
    config: BoringSSLConfig<C>,
    handshake_timeout: HandshakeTimeout,
    accepts: nat,
    schedule: Seq<Polled<R, S, T, E>>,
    k: int,
    inner_waits: nat,
    stream: R,
    service: S,
    handshake_waits: nat,
    encrypted: T,
)
    requires
        0 <= k < accepts,
        events_of(schedule, k) == accepted::<R, S, T, E>(inner_waits, stream, service) + repeated(
            AcceptEvent::HandshakePending,
            handshake_waits,
        ).push(AcceptEvent::HandshakeCompleted(encrypted)),
    ensures
        told_to(
            repeated(AcceptState::<C, S>::start(config, handshake_timeout), accepts),
            schedule,
            k,
        ) == handshake_begun::<C, R, S, T, E>(config, handshake_timeout, inner_waits, stream)
            + repeated(AcceptAction::Suspend, handshake_waits).push(
            AcceptAction::Resolve(Ok((encrypted, service))),
        ),
{
    let states = repeated(AcceptState::<C, S>::start(config, handshake_timeout), accepts);
    law_accepts_do_not_interfere(states, schedule, k);
    law_completed_handshake_returns_service::<C, R, S, T, E>(
        config,
        handshake_timeout,
        inner_waits,
        stream,
        service,
        handshake_waits,
        encrypted,
    );
}

} // verus!
