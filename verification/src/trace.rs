//! Runs of the machine, and what holds of every run.
//!
//! A run is a state of the machine together with the inputs that the shell
//! reported from there on, in order. The theorems at the end speak of the
//! action that answers each input of a run.

use vstd::prelude::*;
use crate::config::Config;
use crate::simulation::{initial, next, ActionView, EngineView, Fault, ForkView, InputView, PhaseView};
use crate::event::Event;
use crate::filter::swap_topic;

verus! {

/// The state that `inputs`, taken one after the other, lead to from `state`.
pub open spec fn state_after(state: EngineView, inputs: Seq<InputView>) -> EngineView
    decreases inputs.len(),
{
    if inputs.len() == 0 {
        state
    } else {
        next(state_after(state, inputs.drop_last()), inputs.last()).0
    }
}

/// The action that answers the input at position `i` of a run from `state`.
pub open spec fn action_at(state: EngineView, inputs: Seq<InputView>, i: int) -> ActionView
    recommends
        0 <= i < inputs.len(),
{
    next(state_after(state, inputs.take(i)), inputs[i]).1
}

/// Whether `input` reports a launched fork with at least one funded key.
pub open spec fn launched(input: InputView) -> bool {
    input matches InputView::ForkLaunched { keys, .. } && keys.len() > 0
}

/// The fork that a successful launch reports: its endpoint and the key of
/// its first funded account.
pub open spec fn fork_of(input: InputView) -> ForkView
    recommends
        launched(input),
{
    ForkView { endpoint: input->endpoint, key: input->keys[0] }
}

/// Whether `input` is the one that lets a run from the start proceed at
/// position `i`: the five successes of start-up, then logs.
pub open spec fn expected(i: int, input: InputView) -> bool {
    if i == 0 {
        launched(input)
    } else if i == 1 {
        input is ForkConnected
    } else if i == 2 {
        input is UpstreamConnected
    } else if i == 3 {
        input matches InputView::Head { number: Some(_) }
    } else if i == 4 {
        input is Subscribed
    } else {
        input is EventArrived
    }
}

/// Whether every input of `inputs` is the expected one at its position.
pub open spec fn on_course(inputs: Seq<InputView>) -> bool {
    forall|j: int| 0 <= j < inputs.len() ==> expected(j, #[trigger] inputs[j])
}

/// The fault with which a run from the start stops when the input at
/// position `i` is not the expected one.
pub open spec fn fault_at(i: int) -> Fault {
    if i == 0 {
        Fault::ForkLaunch
    } else if i == 1 {
        Fault::ForkConnection
    } else if i == 2 {
        Fault::UpstreamConnection
    } else if i == 3 {
        Fault::HeadRead
    } else if i == 4 {
        Fault::FilterInstall
    } else {
        Fault::StreamEnded
    }
}

/// The phase that a run from the start is in after `inputs`, all of them
/// expected.
pub open spec fn phase_on_course(inputs: Seq<InputView>) -> PhaseView {
    if inputs.len() == 0 {
        PhaseView::LaunchingFork
    } else if inputs.len() == 1 {
        PhaseView::ConnectingFork(fork_of(inputs[0]))
    } else if inputs.len() == 2 {
        PhaseView::ConnectingUpstream(fork_of(inputs[0]))
    } else if inputs.len() == 3 {
        PhaseView::ReadingHead(fork_of(inputs[0]))
    } else if inputs.len() == 4 {
        PhaseView::Subscribing(fork_of(inputs[0]))
    } else {
        PhaseView::Forwarding(fork_of(inputs[0]))
    }
}

/// Whether `inputs` begins with the five replies of a start-up in which
/// every request succeeded.
pub open spec fn started(inputs: Seq<InputView>) -> bool {
    inputs.len() >= 5 && on_course(inputs.take(5))
}

/// The inputs that report the arrival of `events`, one for each, in order.
pub open spec fn arrivals(events: Seq<Event>) -> Seq<InputView> {
    Seq::new(events.len(), |i: int| InputView::EventArrived(events[i]))
}

/// A run's state after `i + 1` inputs follows from its state after `i`.
pub proof fn lemma_step(state: EngineView, inputs: Seq<InputView>, i: int)
    requires
        0 <= i < inputs.len(),
    ensures
        state_after(state, inputs.take(i + 1)) == next(
            state_after(state, inputs.take(i)),
            inputs[i],
        ).0,
{
    let longer = inputs.take(i + 1);
    assert(longer.drop_last() == inputs.take(i));
    assert(longer.last() == inputs[i]);
}

/// Running `first` and then `then` is running the two in one.
pub proof fn lemma_compose(state: EngineView, first: Seq<InputView>, then: Seq<InputView>)
    ensures
        state_after(state, first + then) == state_after(state_after(state, first), then),
    decreases then.len(),
{
    if then.len() == 0 {
        assert(first + then == first);
    } else {
        lemma_compose(state, first, then.drop_last());
        assert((first + then).drop_last() == first + then.drop_last());
        assert((first + then).last() == then.last());
    }
}

/// No input leads out of `Stopped`.
pub proof fn lemma_stopped_stays(state: EngineView, inputs: Seq<InputView>)
    requires
        state.phase is Stopped,
    ensures
        state_after(state, inputs) == state,
    decreases inputs.len(),
{
    if inputs.len() > 0 {
        lemma_stopped_stays(state, inputs.drop_last());
    }
}

/// While every input is the expected one, a run from the start is in the
/// phase that the number of its inputs gives.
pub proof fn lemma_on_course(config: Config, inputs: Seq<InputView>)
    requires
        on_course(inputs),
    ensures
        state_after(initial(config), inputs) == (EngineView {
            config,
            phase: phase_on_course(inputs),
        }),
    decreases inputs.len(),
{
    if inputs.len() > 0 {
        let before = inputs.drop_last();
        assert forall|j: int| 0 <= j < before.len() implies expected(j, #[trigger] before[j]) by {
            assert(before[j] == inputs[j]);
        }
        lemma_on_course(config, before);
        assert(expected(inputs.len() - 1, inputs[inputs.len() - 1]));
        if inputs.len() > 1 {
            assert(before[0] == inputs[0]);
        }
    }
}

/// A run from the start that has not stopped has seen only expected inputs.
pub proof fn lemma_alive(config: Config, inputs: Seq<InputView>)
    ensures
        state_after(initial(config), inputs).phase is Stopped || on_course(inputs),
    decreases inputs.len(),
{
    if inputs.len() > 0 {
        let before = inputs.drop_last();
        lemma_alive(config, before);
        if !(state_after(initial(config), before).phase is Stopped) {
            lemma_on_course(config, before);
            if !(state_after(initial(config), inputs).phase is Stopped) {
                assert(expected(inputs.len() - 1, inputs.last()));
                assert forall|j: int| 0 <= j < inputs.len() implies expected(
                    j,
                    #[trigger] inputs[j],
                ) by {
                    if j < before.len() {
                        assert(before[j] == inputs[j]);
                    }
                }
            }
        }
    }
}

/// A run from the start whose input at position `k` is the first that is
/// not the expected one has stopped there, with the fault of that position.
pub proof fn lemma_off_course(config: Config, inputs: Seq<InputView>, k: int)
    requires
        0 <= k < inputs.len(),
        on_course(inputs.take(k)),
        !expected(k, inputs[k]),
    ensures
        state_after(initial(config), inputs) == (EngineView {
            config,
            phase: PhaseView::Stopped(fault_at(k)),
        }),
{
    let start = initial(config);
    lemma_on_course(config, inputs.take(k));
    lemma_step(start, inputs, k);
    let upto = inputs.take(k + 1);
    let rest = inputs.skip(k + 1);
    assert(upto + rest == inputs);
    lemma_compose(start, upto, rest);
    lemma_stopped_stays(state_after(start, upto), rest);
}

/// The endpoint is handed out only once the fork is up and reachable.
///
/// In a run from the start, a `Serve` answers no input but the fifth, and
/// only where all five requests of start-up succeeded: the fork was
/// launched, the connection to it stands, and so do the connection to the
/// live chain and the subscription. The endpoint served is the one that the
/// launch reported.
pub proof fn theorem_served_endpoint_is_live(config: Config, inputs: Seq<InputView>, i: int)
    requires
        0 <= i < inputs.len(),
        action_at(initial(config), inputs, i) is Serve,
    ensures
        i == 4,
        started(inputs),
        action_at(initial(config), inputs, i) == (ActionView::Serve {
            endpoint: inputs[0]->endpoint,
        }),
{
    let before = inputs.take(i);
    lemma_alive(config, before);
    lemma_on_course(config, before);
    assert(before[0] == inputs[0]);
    let five = inputs.take(5);
    assert forall|j: int| 0 <= j < five.len() implies expected(j, #[trigger] five[j]) by {
        if j < 4 {
            assert(before[j] == inputs[j]);
        }
    }
}

/// Start-up takes five replies and no more.
///
/// After five inputs a run from the start has either handed out the
/// endpoint, in answer to the fifth, and forwards, or has stopped.
pub proof fn theorem_startup_is_bounded(config: Config, inputs: Seq<InputView>)
    requires
        inputs.len() >= 5,
    ensures
        started(inputs) ==> action_at(initial(config), inputs, 4) == (ActionView::Serve {
            endpoint: inputs[0]->endpoint,
        }) && state_after(initial(config), inputs.take(5)).phase == PhaseView::Forwarding(
            fork_of(inputs[0]),
        ),
        !started(inputs) ==> state_after(initial(config), inputs.take(5)).phase is Stopped,
{
    let five = inputs.take(5);
    if started(inputs) {
        lemma_on_course(config, five);
        assert(five[0] == inputs[0]);
        let four = inputs.take(4);
        assert forall|j: int| 0 <= j < four.len() implies expected(j, #[trigger] four[j]) by {
            assert(four[j] == five[j]);
        }
        lemma_on_course(config, four);
        assert(four[0] == inputs[0]);
        assert(expected(4, five[4]));
    } else {
        lemma_alive(config, five);
    }
}

/// Every request is made in its turn, and none twice.
///
/// In a run from the start, each request of start-up can answer one input
/// only: the connection to the fork the first, the connection to the live
/// chain the second, the reading of the head the third, the subscription
/// the fourth, the handing out of the endpoint the fifth. Units are spawned
/// from the sixth input on, and the fork is never launched again.
pub proof fn theorem_requests_in_turn(config: Config, inputs: Seq<InputView>, i: int)
    requires
        0 <= i < inputs.len(),
    ensures
        match action_at(initial(config), inputs, i) {
            ActionView::LaunchFork { .. } => false,
            ActionView::ConnectFork { .. } => i == 0,
            ActionView::ConnectUpstream { .. } => i == 1,
            ActionView::ReadHead => i == 2,
            ActionView::Subscribe { .. } => i == 3,
            ActionView::Serve { .. } => i == 4,
            ActionView::Spawn { .. } => i >= 5,
            ActionView::Abort { .. } => true,
        },
{
    let before = inputs.take(i);
    lemma_alive(config, before);
    if on_course(before) {
        lemma_on_course(config, before);
    }
}

/// The subscription starts at the head that was read.
///
/// In a run from the start, a `Subscribe` answers no input but the fourth,
/// the reply that carries the live chain's head; the filter starts at
/// exactly that block and selects the `Swap` topic.
pub proof fn theorem_subscription_starts_at_head(config: Config, inputs: Seq<InputView>, i: int)
    requires
        0 <= i < inputs.len(),
        action_at(initial(config), inputs, i) is Subscribe,
    ensures
        i == 3,
        inputs[3] matches InputView::Head { number: Some(head) } && action_at(
            initial(config),
            inputs,
            i,
        ) == (ActionView::Subscribe { topic0: swap_topic(), from_block: head }),
{
    let before = inputs.take(i);
    lemma_alive(config, before);
    lemma_on_course(config, before);
}

/// Logs are dispatched one by one, in the order of their arrival, and none
/// waits for another.
///
/// From a forwarding state, the action that answers the arrival of a log is
/// the `Spawn` of that very log, with the retry settings of the
/// configuration and the fork's key, whatever arrived before; the state
/// stays the same. The machine has no input by which the end of a unit
/// could be reported, so no dispatch depends on one.
pub proof fn theorem_dispatch_in_order(state: EngineView, events: Seq<Event>, i: int)
    requires
        state.phase is Forwarding,
        0 <= i < events.len(),
    ensures
        action_at(state, arrivals(events), i) == (ActionView::Spawn {
            event: events[i],
            retry_times: state.config.tx_retry_times,
            retry_interval: state.config.tx_retry_interval,
            key: state.phase->Forwarding_0.key,
        }),
        state_after(state, arrivals(events)) == state,
{
    lemma_forwarding_stays(state, arrivals(events).take(i));
    lemma_forwarding_stays(state, arrivals(events));
}

/// A unit is spawned for a log that arrived, and for nothing else.
///
/// In a run from the start, a `Spawn` answers the arrival of a log and
/// names that log, the retry settings of the configuration, and the key of
/// the first funded account that the launch reported.
pub proof fn theorem_spawn_answers_arrival(config: Config, inputs: Seq<InputView>, i: int)
    requires
        0 <= i < inputs.len(),
        action_at(initial(config), inputs, i) is Spawn,
    ensures
        started(inputs),
        inputs[i] matches InputView::EventArrived(event) && action_at(initial(config), inputs, i)
            == (ActionView::Spawn {
            event,
            retry_times: config.tx_retry_times,
            retry_interval: config.tx_retry_interval,
            key: inputs[0]->keys[0],
        }),
{
    let before = inputs.take(i);
    lemma_alive(config, before);
    lemma_on_course(config, before);
    assert(before[0] == inputs[0]);
    let five = inputs.take(5);
    assert forall|j: int| 0 <= j < five.len() implies expected(j, #[trigger] five[j]) by {
        assert(before[j] == inputs[j]);
    }
}

/// While only logs arrive, a forwarding machine keeps its state.
pub proof fn lemma_forwarding_stays(state: EngineView, inputs: Seq<InputView>)
    requires
        state.phase is Forwarding,
        forall|j: int| 0 <= j < inputs.len() ==> #[trigger] inputs[j] is EventArrived,
    ensures
        state_after(state, inputs) == state,
    decreases inputs.len(),
{
    if inputs.len() > 0 {
        let before = inputs.drop_last();
        assert forall|j: int| 0 <= j < before.len() implies #[trigger] before[j] is EventArrived by {
            assert(before[j] == inputs[j]);
        }
        lemma_forwarding_stays(state, before);
        assert(inputs.last() == inputs[inputs.len() - 1]);
    }
}

/// A failed launch ends the run.
///
/// Where the first input does not report a launched fork with a funded
/// key, every action of the run is the `Abort` for the failed launch: no
/// endpoint is handed out and no filter is installed, whatever is reported
/// afterwards.
pub proof fn theorem_failed_launch_aborts(config: Config, inputs: Seq<InputView>, i: int)
    requires
        0 <= i < inputs.len(),
        !launched(inputs[0]),
    ensures
        action_at(initial(config), inputs, i) == (ActionView::Abort { fault: Fault::ForkLaunch }),
{
    if i > 0 {
        let before = inputs.take(i);
        assert(before.take(0) =~= Seq::<InputView>::empty());
        assert(before[0] == inputs[0]);
        lemma_off_course(config, before, 0);
    } else {
        assert(inputs.take(0) =~= Seq::<InputView>::empty());
    }
}

/// A stop is final.
///
/// Once an `Abort` has answered an input, the same `Abort` answers every
/// later input of the run: nothing is restarted, and no further log is
/// dispatched.
pub proof fn theorem_stop_is_final(state: EngineView, inputs: Seq<InputView>, i: int, j: int)
    requires
        0 <= i <= j < inputs.len(),
        action_at(state, inputs, i) is Abort,
    ensures
        action_at(state, inputs, j) == action_at(state, inputs, i),
{
    if i < j {
        lemma_step(state, inputs, i);
        let upto = inputs.take(i + 1);
        let rest = inputs.take(j).skip(i + 1);
        assert(upto + rest == inputs.take(j));
        lemma_compose(state, upto, rest);
        lemma_stopped_stays(state_after(state, upto), rest);
    }
}

} // verus!
