//! The relay's control flow as a state machine.
//!
//! The machine never acts. It is told what happened ([`Input`]) and answers
//! with what has to happen next ([`Action`]); a shell performs the action
//! and comes back with the next input. Start-up is a chain of five requests,
//! each of which must succeed; after the last one the fork's endpoint is
//! handed out and every log that arrives is dispatched at once.

use vstd::prelude::*;
use crate::config::Config;
use crate::endpoint::{fork_source, fork_source_url, upstream, upstream_url};
use crate::event::{Event, SigningKey};
use crate::filter::{swap_filter, swap_topic, EventFilter};

verus! {

/// Why the relay stopped.
#[derive(Clone, Copy, Debug, PartialEq, Eq, Structural)]
pub enum Fault {
    /// The fork could not be launched, or came up without a funded key.
    ForkLaunch,
    /// No connection to the fork's endpoint.
    ForkConnection,
    /// No streaming connection to the live chain.
    UpstreamConnection,
    /// The live chain's head could not be read.
    HeadRead,
    /// The log filter could not be installed.
    FilterInstall,
    /// The stream of logs ended.
    StreamEnded,
}

/// A launched fork: where it listens and the key of its first funded account.
#[derive(Debug, PartialEq, Eq)]
pub struct Fork {
    /// The fork's local endpoint.
    pub endpoint: String,
    /// Key of the fork's first funded account.
    pub key: SigningKey,
}

/// Mathematical value of a [`Fork`].
pub struct ForkView {
    pub endpoint: Seq<char>,
    pub key: SigningKey,
}

impl View for Fork {
    type V = ForkView;

    open spec fn view(&self) -> ForkView {
        ForkView { endpoint: self.endpoint@, key: self.key }
    }
}

/// Where the relay stands.
#[derive(Debug, PartialEq, Eq)]
pub enum Phase {
    /// The fork was asked for.
    LaunchingFork,
    /// The fork is up; a connection to it was asked for.
    ConnectingFork(Fork),
    /// A streaming connection to the live chain was asked for.
    ConnectingUpstream(Fork),
    /// The live chain's head was asked for.
    ReadingHead(Fork),
    /// The filter's installation was asked for.
    Subscribing(Fork),
    /// Start-up is over; logs are awaited and dispatched.
    Forwarding(Fork),
    /// The relay stopped for good.
    Stopped(Fault),
}

/// Mathematical value of a [`Phase`].
pub enum PhaseView {
    LaunchingFork,
    ConnectingFork(ForkView),
    ConnectingUpstream(ForkView),
    ReadingHead(ForkView),
    Subscribing(ForkView),
    Forwarding(ForkView),
    Stopped(Fault),
}

impl View for Phase {
    type V = PhaseView;

    open spec fn view(&self) -> PhaseView {
        match *self {
            Phase::LaunchingFork => PhaseView::LaunchingFork,
            Phase::ConnectingFork(fork) => PhaseView::ConnectingFork(fork@),
            Phase::ConnectingUpstream(fork) => PhaseView::ConnectingUpstream(fork@),
            Phase::ReadingHead(fork) => PhaseView::ReadingHead(fork@),
            Phase::Subscribing(fork) => PhaseView::Subscribing(fork@),
            Phase::Forwarding(fork) => PhaseView::Forwarding(fork@),
            Phase::Stopped(fault) => PhaseView::Stopped(fault),
        }
    }
}

/// What the shell reports to the machine.
#[derive(Debug, PartialEq, Eq)]
pub enum Input {
    /// The fork is up, with its endpoint and the keys of its funded accounts.
    ForkLaunched { endpoint: String, keys: Vec<SigningKey> },
    /// The connection to the fork stands.
    ForkConnected,
    /// The streaming connection to the live chain stands.
    UpstreamConnected,
    /// The live chain answered the question for its head; `number` is absent
    /// where it named no block, or a block that has no number yet.
    Head { number: Option<u64> },
    /// The filter is installed.
    Subscribed,
    /// The subscription yielded a log.
    EventArrived(Event),
    /// The subscription will yield no further log.
    StreamEnded,
    /// The last request could not be carried out.
    Failed,
}

/// Mathematical value of an [`Input`].
pub enum InputView {
    ForkLaunched { endpoint: Seq<char>, keys: Seq<SigningKey> },
    ForkConnected,
    UpstreamConnected,
    Head { number: Option<u64> },
    Subscribed,
    EventArrived(Event),
    StreamEnded,
    Failed,
}

impl View for Input {
    type V = InputView;

    open spec fn view(&self) -> InputView {
        match *self {
            Input::ForkLaunched { endpoint, keys } => InputView::ForkLaunched {
                endpoint: endpoint@,
                keys: keys@,
            },
            Input::ForkConnected => InputView::ForkConnected,
            Input::UpstreamConnected => InputView::UpstreamConnected,
            Input::Head { number } => InputView::Head { number },
            Input::Subscribed => InputView::Subscribed,
            Input::EventArrived(event) => InputView::EventArrived(event),
            Input::StreamEnded => InputView::StreamEnded,
            Input::Failed => InputView::Failed,
        }
    }
}

/// What the shell has to do next.
#[derive(Debug, PartialEq, Eq)]
pub enum Action {
    /// Launch a fork of the chain behind `source` that produces a block
    /// every `block_time` seconds.
    LaunchFork { block_time: u64, source: String },
    /// Open a read-write connection to the fork at `endpoint`.
    ConnectFork { endpoint: String },
    /// Open a streaming connection to the live chain at `url`.
    ConnectUpstream { url: String },
    /// Read the number of the live chain's latest block, once.
    ReadHead,
    /// Install `filter` on the live chain.
    Subscribe { filter: EventFilter },
    /// Hand `endpoint` to the caller, then await the first log.
    Serve { endpoint: String },
    /// Start an independent unit that processes `event` against the fork,
    /// signing with `key` and retrying `retry_times` times,
    /// `retry_interval` milliseconds apart; do not wait for it, and await
    /// the next log.
    Spawn { event: Event, retry_times: u32, retry_interval: u64, key: SigningKey },
    /// Stop: nothing further will be asked for.
    Abort { fault: Fault },
}

/// Mathematical value of an [`Action`].
pub enum ActionView {
    LaunchFork { block_time: u64, source: Seq<char> },
    ConnectFork { endpoint: Seq<char> },
    ConnectUpstream { url: Seq<char> },
    ReadHead,
    Subscribe { topic0: Seq<u8>, from_block: u64 },
    Serve { endpoint: Seq<char> },
    Spawn { event: Event, retry_times: u32, retry_interval: u64, key: SigningKey },
    Abort { fault: Fault },
}

impl View for Action {
    type V = ActionView;

    open spec fn view(&self) -> ActionView {
        match *self {
            Action::LaunchFork { block_time, source } => ActionView::LaunchFork {
                block_time,
                source: source@,
            },
            Action::ConnectFork { endpoint } => ActionView::ConnectFork { endpoint: endpoint@ },
            Action::ConnectUpstream { url } => ActionView::ConnectUpstream { url: url@ },
            Action::ReadHead => ActionView::ReadHead,
            Action::Subscribe { filter } => ActionView::Subscribe {
                topic0: filter.topic0@,
                from_block: filter.from_block,
            },
            Action::Serve { endpoint } => ActionView::Serve { endpoint: endpoint@ },
            Action::Spawn { event, retry_times, retry_interval, key } => ActionView::Spawn {
                event,
                retry_times,
                retry_interval,
                key,
            },
            Action::Abort { fault } => ActionView::Abort { fault },
        }
    }
}

/// The machine: the settings it was started with and where it stands.
#[derive(Debug, PartialEq, Eq)]
pub struct Engine {
    /// The settings, unchanged since the start.
    pub config: Config,
    /// The current phase.
    pub phase: Phase,
}

/// Mathematical value of an [`Engine`].
pub struct EngineView {
    pub config: Config,
    pub phase: PhaseView,
}

impl View for Engine {
    type V = EngineView;

    open spec fn view(&self) -> EngineView {
        EngineView { config: self.config, phase: self.phase@ }
    }
}

/// The machine's first state: the fork has been asked for.
pub open spec fn initial(config: Config) -> EngineView {
    EngineView { config, phase: PhaseView::LaunchingFork }
}

/// The machine's first request.
pub open spec fn first_action(config: Config) -> ActionView {
    ActionView::LaunchFork { block_time: config.block_time, source: fork_source(config) }
}

/// The state in which `state` stops with `fault`, and the action that says so.
pub open spec fn stop(state: EngineView, fault: Fault) -> (EngineView, ActionView) {
    (EngineView { config: state.config, phase: PhaseView::Stopped(fault) }, ActionView::Abort { fault })
}

/// The transition function. In each phase before `Stopped` exactly one kind
/// of input lets the relay proceed; any other stops it with the fault of
/// that phase. Once stopped, the machine stays stopped.
pub open spec fn next(state: EngineView, input: InputView) -> (EngineView, ActionView) {
    let config = state.config;
    match state.phase {
        PhaseView::LaunchingFork => match input {
            InputView::ForkLaunched { endpoint, keys } if keys.len() > 0 => (
                EngineView {
                    config,
                    phase: PhaseView::ConnectingFork(ForkView { endpoint, key: keys[0] }),
                },
                ActionView::ConnectFork { endpoint },
            ),
            _ => stop(state, Fault::ForkLaunch),
        },
        PhaseView::ConnectingFork(fork) => match input {
            InputView::ForkConnected => (
                EngineView { config, phase: PhaseView::ConnectingUpstream(fork) },
                ActionView::ConnectUpstream { url: upstream(config) },
            ),
            _ => stop(state, Fault::ForkConnection),
        },
        PhaseView::ConnectingUpstream(fork) => match input {
            InputView::UpstreamConnected => (
                EngineView { config, phase: PhaseView::ReadingHead(fork) },
                ActionView::ReadHead,
            ),
            _ => stop(state, Fault::UpstreamConnection),
        },
        PhaseView::ReadingHead(fork) => match input {
            InputView::Head { number: Some(head) } => (
                EngineView { config, phase: PhaseView::Subscribing(fork) },
                ActionView::Subscribe { topic0: swap_topic(), from_block: head },
            ),
            _ => stop(state, Fault::HeadRead),
        },
        PhaseView::Subscribing(fork) => match input {
            InputView::Subscribed => (
                EngineView { config, phase: PhaseView::Forwarding(fork) },
                ActionView::Serve { endpoint: fork.endpoint },
            ),
            _ => stop(state, Fault::FilterInstall),
        },
        PhaseView::Forwarding(fork) => match input {
            InputView::EventArrived(event) => (
                state,
                ActionView::Spawn {
                    event,
                    retry_times: config.tx_retry_times,
                    retry_interval: config.tx_retry_interval,
                    key: fork.key,
                },
            ),
            _ => stop(state, Fault::StreamEnded),
        },
        PhaseView::Stopped(fault) => (state, ActionView::Abort { fault }),
    }
}

/// Starts the relay: returns the machine in its first state and the request
/// to launch the fork.
pub fn start(config: Config) -> (begun: (Engine, Action))
    ensures
        begun.0@ == initial(config),
        begun.1@ == first_action(config),
{
    let source = fork_source_url(&config);
    let action = Action::LaunchFork { block_time: config.block_time, source };
    (Engine { config, phase: Phase::LaunchingFork }, action)
}

impl Engine {
    fn stop(self, fault: Fault) -> (stopped: (Engine, Action))
        ensures
            (stopped.0@, stopped.1@) == stop(self@, fault),
    {
        (Engine { config: self.config, phase: Phase::Stopped(fault) }, Action::Abort { fault })
    }

    /// Takes one input and returns the machine's next state with the action
    /// that the shell has to perform.
    pub fn step(self, input: Input) -> (stepped: (Engine, Action))
        ensures
            (stepped.0@, stepped.1@) == next(self@, input@),
    {
        let Engine { config, phase } = self;
        match phase {
            Phase::LaunchingFork => match input {
                Input::ForkLaunched { endpoint, keys } => {
                    if keys.len() > 0 {
                        let key = keys[0];
                        let action = Action::ConnectFork { endpoint: endpoint.clone() };
                        (Engine { config, phase: Phase::ConnectingFork(Fork { endpoint, key }) }, action)
                    } else {
                        Engine { config, phase: Phase::LaunchingFork }.stop(Fault::ForkLaunch)
                    }
                },
                _ => Engine { config, phase: Phase::LaunchingFork }.stop(Fault::ForkLaunch),
            },
            Phase::ConnectingFork(fork) => match input {
                Input::ForkConnected => {
                    let url = upstream_url(&config);
                    (Engine { config, phase: Phase::ConnectingUpstream(fork) }, Action::ConnectUpstream { url })
                },
                _ => Engine { config, phase: Phase::ConnectingFork(fork) }.stop(Fault::ForkConnection),
            },
            Phase::ConnectingUpstream(fork) => match input {
                Input::UpstreamConnected => (
                    Engine { config, phase: Phase::ReadingHead(fork) },
                    Action::ReadHead,
                ),
                _ => Engine { config, phase: Phase::ConnectingUpstream(fork) }.stop(
                    Fault::UpstreamConnection,
                ),
            },
            Phase::ReadingHead(fork) => match input {
                Input::Head { number: Some(head) } => (
                    Engine { config, phase: Phase::Subscribing(fork) },
                    Action::Subscribe { filter: swap_filter(head) },
                ),
                _ => Engine { config, phase: Phase::ReadingHead(fork) }.stop(Fault::HeadRead),
            },
            Phase::Subscribing(fork) => match input {
                Input::Subscribed => {
                    let endpoint = fork.endpoint.clone();
                    (Engine { config, phase: Phase::Forwarding(fork) }, Action::Serve { endpoint })
                },
                _ => Engine { config, phase: Phase::Subscribing(fork) }.stop(Fault::FilterInstall),
            },
            Phase::Forwarding(fork) => match input {
                Input::EventArrived(event) => {
                    let action = Action::Spawn {
                        event,
                        retry_times: config.tx_retry_times,
                        retry_interval: config.tx_retry_interval,
                        key: fork.key,
                    };
                    (Engine { config, phase: Phase::Forwarding(fork) }, action)
                },
                _ => Engine { config, phase: Phase::Forwarding(fork) }.stop(Fault::StreamEnded),
            },
            Phase::Stopped(fault) => (
                Engine { config, phase: Phase::Stopped(fault) },
                Action::Abort { fault },
            ),
        }
    }
}

} // verus!
