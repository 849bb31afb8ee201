use vstd::prelude::*;

use crate::error::DsuError;
use crate::packet::{spec_packet, spec_sample_payload, to_dsu_packet, MESSAGE_TYPE_DATA};
use crate::provider::{DsuProvider, MotionSample};

verus! {

/// Cadence and identity of the streaming loop.
#[derive(Clone, Copy, Debug, PartialEq, Eq, Structural)]
pub struct StreamConfig {
    /// Milliseconds to wait after a completed send before the next poll.
    pub interval_ms: u64,
    /// Server id stamped into every packet header.
    pub server_id: u32,
}

impl Default for StreamConfig {
    /// The stock cadence: one packet every 500 ms.
    fn default() -> (c: Self)
        ensures
            c == (StreamConfig { interval_ms: 500, server_id: 0 }),
    {
        StreamConfig { interval_ms: 500, server_id: 0 }
    }
}

/// Control state of the streaming loop. The normal life of the loop is
/// the cycle `Polling -> Encoding -> Sending -> Polling`; any failure is
/// fatal and parks the machine in `Failed`.
#[derive(Clone, Copy, Debug, PartialEq, Eq, Structural)]
pub enum LoopState {
    /// Not started yet.
    Idle,
    /// A poll of the provider is in flight.
    Polling,
    /// The cycle's sample is being turned into a packet.
    Encoding,
    /// A packet is on its way out; no new send starts before its outcome
    /// is known.
    Sending,
    /// The loop aborted on the given error.
    Failed(DsuError),
}

/// What the driver reports back to the machine.
#[derive(Clone, Copy, Debug, PartialEq, Eq, Structural)]
pub enum LoopEvent {
    /// The loop was told to start.
    Started,
    /// The provider poll finished without error.
    PollSucceeded,
    /// The provider poll failed with the given error.
    PollFailed(DsuError),
    /// The driver acknowledges the encode step.
    Encoded,
    /// The packet went out.
    SendSucceeded,
    /// The transport failed to send the packet.
    SendFailed,
}

/// What the driver must do next.
#[derive(Debug, PartialEq, Eq)]
pub enum LoopAction {
    /// Poll the provider and report the outcome.
    Poll,
    /// Let the encoder run, then report `Encoded`.
    Encode,
    /// Transmit this packet and report the outcome.
    Send(Vec<u8>),
    /// Wait out the cadence, then poll and report the outcome.
    SleepThenPoll(u64),
    /// Stop the loop and surface the error.
    Abort(DsuError),
    /// Nothing to do; the event did not belong to the current state.
    Wait,
}

/// The spec-level image of an action, with the send payload as bytes.
pub enum ActionModel {
    Poll,
    Encode,
    Send(Seq<u8>),
    SleepThenPoll(u64),
    Abort(DsuError),
    Wait,
}

impl View for LoopAction {
    type V = ActionModel;

    open spec fn view(&self) -> ActionModel {
        match self {
            LoopAction::Poll => ActionModel::Poll,
            LoopAction::Encode => ActionModel::Encode,
            LoopAction::Send(p) => ActionModel::Send(p@),
            LoopAction::SleepThenPoll(ms) => ActionModel::SleepThenPoll(*ms),
            LoopAction::Abort(e) => ActionModel::Abort(*e),
            LoopAction::Wait => ActionModel::Wait,
        }
    }
}

/// The packet a cycle sends: the provider's current sample, encoded and
/// framed under the configured server id.
#[verifier::opaque]
pub open spec fn spec_cycle_packet(provider: DsuProvider, cfg: StreamConfig) -> Seq<u8> {
    spec_packet(
        cfg.server_id,
        MESSAGE_TYPE_DATA,
        spec_sample_payload(
            MotionSample {
                accel: provider.spec_accel_reading(),
                gyro: provider.spec_gyro_reading(),
            }),
    )
}

/// One step of the streaming state machine: the next control state and
/// the action the driver performs before reporting the next event. Poll
/// and send failures are fatal; an event that does not belong to the
/// current state changes nothing.
pub open spec fn spec_loop_step(
    state: LoopState,
    provider: DsuProvider,
    cfg: StreamConfig,
    ev: LoopEvent,
) -> (LoopState, ActionModel) {
    match (state, ev) {
        (LoopState::Idle, LoopEvent::Started) => (LoopState::Polling, ActionModel::Poll),
        (LoopState::Polling, LoopEvent::PollSucceeded) => (
            LoopState::Encoding,
            ActionModel::Encode,
        ),
        (LoopState::Polling, LoopEvent::PollFailed(e)) => (
            LoopState::Failed(e),
            ActionModel::Abort(e),
        ),
        (LoopState::Encoding, LoopEvent::Encoded) => (
            LoopState::Sending,
            ActionModel::Send(spec_cycle_packet(provider, cfg)),
        ),
        (LoopState::Sending, LoopEvent::SendSucceeded) => (
            LoopState::Polling,
            ActionModel::SleepThenPoll(cfg.interval_ms),
        ),
        (LoopState::Sending, LoopEvent::SendFailed) => (
            LoopState::Failed(DsuError::Transport),
            ActionModel::Abort(DsuError::Transport),
        ),
        (LoopState::Failed(e), _) => (LoopState::Failed(e), ActionModel::Abort(e)),
        _ => (state, ActionModel::Wait),
    }
}

/// Advances the streaming loop by one event.
pub fn loop_step(
    state: LoopState,
    provider: &DsuProvider,
    cfg: &StreamConfig,
    ev: &LoopEvent,
) -> (r: (LoopState, LoopAction))
    ensures
        r.0 == spec_loop_step(state, *provider, *cfg, *ev).0,
        r.1@ == spec_loop_step(state, *provider, *cfg, *ev).1,
{
    match (state, ev) {
        (LoopState::Idle, LoopEvent::Started) => (LoopState::Polling, LoopAction::Poll),
        (LoopState::Polling, LoopEvent::PollSucceeded) => (
            LoopState::Encoding,
            LoopAction::Encode,
        ),
        (LoopState::Polling, LoopEvent::PollFailed(e)) => (
            LoopState::Failed(*e),
            LoopAction::Abort(*e),
        ),
        (LoopState::Encoding, LoopEvent::Encoded) => {
            let sample = provider.sample();
            let packet = to_dsu_packet(&sample, cfg.server_id);
            proof {
                reveal(spec_cycle_packet);
            }
            (LoopState::Sending, LoopAction::Send(packet))
        },
        (LoopState::Sending, LoopEvent::SendSucceeded) => (
            LoopState::Polling,
            LoopAction::SleepThenPoll(cfg.interval_ms),
        ),
        (LoopState::Sending, LoopEvent::SendFailed) => (
            LoopState::Failed(DsuError::Transport),
            LoopAction::Abort(DsuError::Transport),
        ),
        (LoopState::Failed(e), _) => (LoopState::Failed(e), LoopAction::Abort(e)),
        _ => (state, LoopAction::Wait),
    }
}

/// The control state after a run of events.
pub open spec fn spec_run_state(
    state: LoopState,
    provider: DsuProvider,
    cfg: StreamConfig,
    events: Seq<LoopEvent>,
) -> LoopState
    decreases events.len(),
{
    if events.len() == 0 {
        state
    } else {
        spec_run_state(
            spec_loop_step(state, provider, cfg, events[0]).0,
            provider,
            cfg,
            events.drop_first(),
        )
    }
}

/// The actions a run of events makes the driver perform, in order.
pub open spec fn spec_run_actions(
    state: LoopState,
    provider: DsuProvider,
    cfg: StreamConfig,
    events: Seq<LoopEvent>,
) -> Seq<ActionModel>
    decreases events.len(),
{
    if events.len() == 0 {
        Seq::empty()
    } else {
        let (s2, a) = spec_loop_step(state, provider, cfg, events[0]);
        seq![a] + spec_run_actions(s2, provider, cfg, events.drop_first())
    }
}

/// The events of one successful cycle, starting at `Polling`.
pub open spec fn spec_cycle_events() -> Seq<LoopEvent> {
    seq![LoopEvent::PollSucceeded, LoopEvent::Encoded, LoopEvent::SendSucceeded]
}

/// The events of `n` successful cycles in a row.
pub open spec fn spec_success_events(n: nat) -> Seq<LoopEvent>
    decreases n,
{
    if n == 0 {
        Seq::empty()
    } else {
        spec_cycle_events() + spec_success_events((n - 1) as nat)
    }
}

/// The actions of one successful cycle: encode, send the cycle's packet,
/// then wait out the cadence before the next poll.
pub open spec fn spec_cycle_actions(provider: DsuProvider, cfg: StreamConfig) -> Seq<
    ActionModel,
> {
    seq![
        ActionModel::Encode,
        ActionModel::Send(spec_cycle_packet(provider, cfg)),
        ActionModel::SleepThenPoll(cfg.interval_ms),
    ]
}

/// The actions of `n` successful cycles in a row.
pub open spec fn spec_success_actions(
    n: nat,
    provider: DsuProvider,
    cfg: StreamConfig,
) -> Seq<ActionModel>
    decreases n,
{
    if n == 0 {
        Seq::empty()
    } else {
        spec_cycle_actions(provider, cfg) + spec_success_actions((n - 1) as nat, provider, cfg)
    }
}

/// How many of the actions transmit a packet.
pub open spec fn count_sends(actions: Seq<ActionModel>) -> nat
    decreases actions.len(),
{
    if actions.len() == 0 {
        0
    } else {
        (if actions[0] is Send {
            1nat
        } else {
            0nat
        }) + count_sends(actions.drop_first())
    }
}

proof fn lemma_count_sends_append(a: Seq<ActionModel>, b: Seq<ActionModel>)
    ensures
        count_sends(a + b) == count_sends(a) + count_sends(b),
    decreases a.len(),
{
    if a.len() == 0 {
        assert(a + b =~= b);
    } else {
        assert((a + b).drop_first() =~= a.drop_first() + b);
        lemma_count_sends_append(a.drop_first(), b);
    }
}

proof fn lemma_run_append(
    state: LoopState,
    provider: DsuProvider,
    cfg: StreamConfig,
    e1: Seq<LoopEvent>,
    e2: Seq<LoopEvent>,
)
    ensures
        spec_run_state(state, provider, cfg, e1 + e2) == spec_run_state(
            spec_run_state(state, provider, cfg, e1), provider, cfg, e2),
        spec_run_actions(state, provider, cfg, e1 + e2) == spec_run_actions(
            state, provider, cfg, e1) + spec_run_actions(
            spec_run_state(state, provider, cfg, e1), provider, cfg, e2),
    decreases e1.len(),
{
    if e1.len() == 0 {
        assert(e1 + e2 =~= e2);
        assert(spec_run_actions(state, provider, cfg, e1) + spec_run_actions(
            state, provider, cfg, e2) =~= spec_run_actions(state, provider, cfg, e2));
    } else {
        let s2 = spec_loop_step(state, provider, cfg, e1[0]).0;
        assert((e1 + e2).drop_first() =~= e1.drop_first() + e2);
        lemma_run_append(s2, provider, cfg, e1.drop_first(), e2);
        assert(spec_run_actions(state, provider, cfg, e1 + e2) =~= spec_run_actions(
            state, provider, cfg, e1) + spec_run_actions(
            spec_run_state(state, provider, cfg, e1), provider, cfg, e2));
    }
}

proof fn lemma_single_cycle(provider: DsuProvider, cfg: StreamConfig)
    ensures
        spec_run_state(LoopState::Polling, provider, cfg, spec_cycle_events())
            == LoopState::Polling,
        spec_run_actions(LoopState::Polling, provider, cfg, spec_cycle_events())
            == spec_cycle_actions(provider, cfg),
{
    let evs = spec_cycle_events();
    reveal_with_fuel(spec_run_state, 4);
    reveal_with_fuel(spec_run_actions, 4);
    assert(evs.drop_first() =~= seq![LoopEvent::Encoded, LoopEvent::SendSucceeded]);
    assert(evs.drop_first().drop_first() =~= seq![LoopEvent::SendSucceeded]);
    assert(evs.drop_first().drop_first().drop_first() =~= Seq::<LoopEvent>::empty());
    assert(spec_run_actions(LoopState::Polling, provider, cfg, evs) =~= spec_cycle_actions(
        provider, cfg));
}

/// The streaming loop sends exactly one packet per cycle. Driven from
/// `Polling` by `n` cycles of successful poll, encode and send events, the
/// machine performs the cycle actions `n` times over — encode, one send,
/// one cadence wait, in that order, so sends never overlap and each sits
/// behind one configured interval — ends back at `Polling`, and the run
/// contains exactly `n` sends.
pub proof fn lemma_one_send_per_cycle(provider: DsuProvider, cfg: StreamConfig, n: nat)
    ensures
        spec_run_state(LoopState::Polling, provider, cfg, spec_success_events(n))
            == LoopState::Polling,
        spec_run_actions(LoopState::Polling, provider, cfg, spec_success_events(n))
            == spec_success_actions(n, provider, cfg),
        count_sends(spec_success_actions(n, provider, cfg)) == n,
    decreases n,
{
    if n == 0 {
    } else {
        lemma_single_cycle(provider, cfg);
        lemma_run_append(
            LoopState::Polling,
            provider,
            cfg,
            spec_cycle_events(),
            spec_success_events((n - 1) as nat),
        );
        lemma_one_send_per_cycle(provider, cfg, (n - 1) as nat);
        lemma_count_sends_append(
            spec_cycle_actions(provider, cfg),
            spec_success_actions((n - 1) as nat, provider, cfg),
        );
        assert(count_sends(spec_cycle_actions(provider, cfg)) == 1) by {
            reveal_with_fuel(count_sends, 4);
            let a = spec_cycle_actions(provider, cfg);
            assert(a.drop_first() =~= seq![
                ActionModel::Send(spec_cycle_packet(provider, cfg)),
                ActionModel::SleepThenPoll(cfg.interval_ms),
            ]);
            assert(a.drop_first().drop_first() =~= seq![
                ActionModel::SleepThenPoll(cfg.interval_ms),
            ]);
            assert(a.drop_first().drop_first().drop_first() =~= Seq::<ActionModel>::empty());
        }
    }
}

} // verus!
