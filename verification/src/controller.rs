//! The cross-thread window lifecycle controller.
//!
//! A view is run by exactly two execution contexts: the caller's, which keeps
//! a handle, and one dedicated worker, which exclusively owns the window and
//! the decoded image and runs the event loop. The caller may send a single
//! [`Command::Close`] over a channel and then join the worker, or join it
//! without sending anything and wait for the window to close on its own.
//!
//! This module holds every decision of that protocol: the window's internal
//! state machine ([`LifecycleModel`]), the per-iteration decision of the event
//! loop ([`event_loop_tick`]), and the rules by which the caller-side
//! operations turn a send attempt and a join result into their final outcome
//! ([`close_outcome`], [`wait_outcome`]). The unverifiable work around those
//! decisions — spawning the thread, polling the native window, drawing —
//! performs exactly what these functions direct.

use vstd::prelude::*;

use crate::config::Config;
use crate::errors::MiniViewError;

verus! {

/// The only message ever sent from the handle into the worker. It carries no
/// payload and is delivered at most once.
#[derive(Debug, Clone, Copy, PartialEq, Eq, Structural)]
pub enum Command {
    /// Ask the worker to close the window and terminate.
    Close,
}

/// A native window event, as the event loop classifies it. Everything the
/// loop's decisions depend on is captured here; all other detail of a native
/// event stays with the window adapter.
#[derive(Debug, Clone, Copy, PartialEq, Eq, Structural)]
pub enum NativeEvent {
    /// The window manager asked for the window to close (its close button).
    CloseRequested,
    /// The escape key was pressed.
    EscapePressed,
    /// A frame finished rendering; nothing needs to be done for it.
    AfterRender,
    /// Any other native event; it is redraw-eligible.
    Other,
}

/// What the worker must do for one iteration of its event loop.
#[derive(Debug, Clone, Copy, PartialEq, Eq, Structural)]
pub enum TickStep {
    /// Invoke the window's close primitive and return success: a close trigger
    /// fired. No further polling or drawing occurs.
    CloseAndExit,
    /// Issue exactly one draw call with the cached decoded image.
    Draw,
    /// Nothing to do this iteration; keep looping.
    Continue,
}

/// The window's phase: `Open` (initial), then `Closing`, then `Closed`
/// (terminal). The order is irreversible.
#[derive(Debug, Clone, Copy, PartialEq, Eq, Structural)]
pub enum ViewPhase {
    /// The window is up and its event loop is running.
    Open,
    /// A close trigger fired; the window is shutting down.
    Closing,
    /// The window is gone.
    Closed,
}

/// The model of the window's lifecycle that lives inside the worker. It pairs
/// the phase with whether the window adapter's close primitive has been
/// invoked, so that the one way of reaching `Closed` — through an invoked
/// close — is part of the state itself.
#[derive(Debug, Clone, Copy, PartialEq, Eq, Structural)]
pub struct LifecycleModel {
    /// Where in `Open` → `Closing` → `Closed` the window stands.
    pub phase: ViewPhase,
    /// Whether the adapter's close primitive has been invoked. The primitive
    /// is idempotent, so invoking it on an already-closing window would be a
    /// no-op; this model never needs to.
    pub close_requested: bool,
}

/// How far along `Open` → `Closing` → `Closed` a phase stands.
pub open spec fn phase_rank(phase: ViewPhase) -> int {
    match phase {
        ViewPhase::Open => 0,
        ViewPhase::Closing => 1,
        ViewPhase::Closed => 2,
    }
}

/// The transitions a lifecycle may take: stay put, move from `Open` to
/// `Closing` while invoking the close primitive, or move from `Closing` to
/// `Closed` once the primitive has been invoked. Every operation of
/// [`LifecycleModel`] promises that the values before and after it stand in
/// this relation.
pub open spec fn lifecycle_step(before: LifecycleModel, after: LifecycleModel) -> bool {
    ||| after == before
    ||| (before.phase is Open && after == (LifecycleModel {
        phase: ViewPhase::Closing,
        close_requested: true,
    }))
    ||| (before.phase is Closing && before.close_requested && after == (LifecycleModel {
        phase: ViewPhase::Closed,
        close_requested: true,
    }))
}

impl LifecycleModel {
    /// The lifecycle invariant: a window past `Open` has had the close
    /// primitive invoked.
    pub open spec fn inv(self) -> bool {
        !(self.phase is Open) ==> self.close_requested
    }

    /// A fresh lifecycle: the window is open and no close has been requested.
    pub fn new() -> (model: Self)
        ensures
            model.phase is Open,
            !model.close_requested,
            model.inv(),
    {
        LifecycleModel { phase: ViewPhase::Open, close_requested: false }
    }

    /// Takes the irreversible step out of `Open`: the window transitions to
    /// `Closing` together with the invocation of the adapter's close
    /// primitive.
    pub fn request_close(&mut self)
        requires
            old(self).phase is Open,
        ensures
            final(self).phase is Closing,
            final(self).close_requested,
            final(self).inv(),
            lifecycle_step(*old(self), *final(self)),
    {
        self.phase = ViewPhase::Closing;
        self.close_requested = true;
    }

    /// Records that the window is gone. Only a closing window whose close
    /// primitive has been invoked can reach `Closed`.
    pub fn mark_closed(&mut self)
        requires
            old(self).phase is Closing,
            old(self).close_requested,
        ensures
            final(self).phase is Closed,
            final(self).close_requested,
            final(self).inv(),
            lifecycle_step(*old(self), *final(self)),
    {
        self.phase = ViewPhase::Closed;
    }
}

/// The lifecycle only ever moves forward: no step leads from `Closing` or
/// `Closed` back towards `Open`. Once a close trigger has moved the window
/// out of `Open`, that transition is irreversible.
pub proof fn lemma_lifecycle_irreversible(before: LifecycleModel, after: LifecycleModel)
    requires
        lifecycle_step(before, after),
    ensures
        phase_rank(before.phase) <= phase_rank(after.phase),
        !(before.phase is Open) ==> !(after.phase is Open),
{
}

/// Whether one iteration of the event loop must shut the window down, given
/// what the iteration observed: a pending command, the polled native event,
/// and the value of the auto-close predicate. The triggers are, in the order
/// the loop considers them: a pending [`Command::Close`]; a native close
/// request; the escape key, if the configuration says it exits; and the
/// auto-close predicate.
pub open spec fn close_trigger(
    config: Config,
    command: Option<Command>,
    event: Option<NativeEvent>,
    auto_close: bool,
) -> bool {
    ||| command == Some(Command::Close)
    ||| event == Some(NativeEvent::CloseRequested)
    ||| (event == Some(NativeEvent::EscapePressed) && config.exit_on_esc)
    ||| auto_close
}

/// Whether the polled native event asks for a redraw. A finished render needs
/// none, and neither does an empty poll; every other event redraws the single
/// cached image.
pub open spec fn redraw_eligible(event: Option<NativeEvent>) -> bool {
    match event {
        Some(NativeEvent::CloseRequested) => false,
        Some(NativeEvent::EscapePressed) => true,
        Some(NativeEvent::AfterRender) => false,
        Some(NativeEvent::Other) => true,
        None => false,
    }
}

/// One iteration of the worker's event loop, given everything the iteration
/// observed. In this fixed order: a pending close command, a native close
/// request, the escape key (honoured only when the configuration says so),
/// and the auto-close predicate each shut the window down — the lifecycle
/// moves to `Closing` with the close primitive invoked, and the step is
/// [`TickStep::CloseAndExit`]. Otherwise the window stays `Open` and the step
/// says whether the observed event warrants one draw of the cached image.
pub fn event_loop_tick(
    config: &Config,
    lifecycle: &mut LifecycleModel,
    command: Option<Command>,
    event: Option<NativeEvent>,
    auto_close: bool,
) -> (step: TickStep)
    requires
        old(lifecycle).phase is Open,
    ensures
        final(lifecycle).inv(),
        lifecycle_step(*old(lifecycle), *final(lifecycle)),
        step is CloseAndExit <==> close_trigger(*config, command, event, auto_close),
        step is CloseAndExit ==> final(lifecycle).phase is Closing
            && final(lifecycle).close_requested,
        !(step is CloseAndExit) ==> *final(lifecycle) == *old(lifecycle),
        step is Draw <==> !close_trigger(*config, command, event, auto_close) && redraw_eligible(
            event,
        ),
        step is Continue <==> !close_trigger(*config, command, event, auto_close)
            && !redraw_eligible(event),
{
    if let Some(Command::Close) = command {
        assert(command == Some(Command::Close));
        lifecycle.request_close();
        return TickStep::CloseAndExit;
    }
    match event {
        Some(NativeEvent::CloseRequested) => {
            lifecycle.request_close();
            return TickStep::CloseAndExit;
        },
        Some(NativeEvent::EscapePressed) => {
            if config.exit_on_esc {
                lifecycle.request_close();
                return TickStep::CloseAndExit;
            }
        },
        _ => {},
    }
    if auto_close {
        lifecycle.request_close();
        return TickStep::CloseAndExit;
    }
    match event {
        Some(NativeEvent::EscapePressed) => TickStep::Draw,
        Some(NativeEvent::Other) => TickStep::Draw,
        _ => TickStep::Continue,
    }
}

/// What one iteration of the event loop observed: a pending command (if any),
/// the polled native event (if any), and the value of the auto-close
/// predicate for this iteration.
#[derive(Debug, Clone, Copy, PartialEq, Eq)]
pub struct TickObservation {
    /// The command pending on the channel, if one was.
    pub command: Option<Command>,
    /// The native event the poll yielded, if one did.
    pub event: Option<NativeEvent>,
    /// Whether the auto-close predicate held on this iteration.
    pub auto_close: bool,
}

impl TickObservation {
    /// Whether this observation shuts the window down under the given
    /// configuration.
    pub open spec fn triggers_close(self, config: Config) -> bool {
        close_trigger(config, self.command, self.event, self.auto_close)
    }
}

/// Runs the event loop's decisions over a finite sequence of per-iteration
/// observations, in order, and reports the index of the iteration that shut
/// the window down, if one did. The loop stops at the first close trigger —
/// exactly as the worker's own loop returns on the iteration whose trigger
/// fires — and leaves the lifecycle `Closing` with the close primitive
/// invoked; on a script without a trigger the window simply stays `Open`
/// through every iteration.
pub fn run_event_loop(
    config: &Config,
    lifecycle: &mut LifecycleModel,
    observations: &Vec<TickObservation>,
) -> (closed_at: Option<usize>)
    requires
        old(lifecycle).phase is Open,
        !old(lifecycle).close_requested,
    ensures
        match closed_at {
            Some(index) => {
                &&& index < observations@.len()
                &&& observations@[index as int].triggers_close(*config)
                &&& forall|earlier: int|
                    0 <= earlier < index ==> !observations@[earlier].triggers_close(*config)
                &&& final(lifecycle).phase is Closing
                &&& final(lifecycle).close_requested
            },
            None => {
                &&& forall|each: int|
                    0 <= each < observations@.len() ==> !observations@[each].triggers_close(
                        *config,
                    )
                &&& *final(lifecycle) == *old(lifecycle)
            },
        },
{
    let mut index: usize = 0;
    while index < observations.len()
        invariant
            index <= observations@.len(),
            lifecycle.phase is Open,
            !lifecycle.close_requested,
            *lifecycle == *old(lifecycle),
            forall|earlier: int|
                0 <= earlier < index ==> !observations@[earlier].triggers_close(*config),
        decreases observations@.len() - index,
    {
        let observation = observations[index];
        let step = event_loop_tick(
            config,
            lifecycle,
            observation.command,
            observation.event,
            observation.auto_close,
        );
        if let TickStep::CloseAndExit = step {
            return Some(index);
        }
        index = index + 1;
    }
    None
}

/// A pending close command ends the event loop on the very iteration that
/// observes it, whatever native event the poll yielded and whatever the
/// auto-close predicate said. With continuous polling the command is checked
/// every iteration, so it is observed within one; with lazy polling the
/// iteration itself only runs once a native event wakes the poll, and this
/// says the command is then acted on at once.
pub proof fn lemma_pending_close_ends_loop(
    config: Config,
    event: Option<NativeEvent>,
    auto_close: bool,
)
    ensures
        close_trigger(config, Some(Command::Close), event, auto_close),
{
}

/// Without any close trigger — no pending command, no native close request,
/// no escape press that the configuration honours, and a false auto-close
/// predicate — an iteration never shuts the window down: in particular,
/// merely dropping the caller's handle sends nothing and so leaves the worker
/// running until a trigger of its own arrives.
pub proof fn lemma_no_close_without_trigger(
    config: Config,
    event: Option<NativeEvent>,
)
    requires
        event != Some(NativeEvent::CloseRequested),
        event == Some(NativeEvent::EscapePressed) ==> !config.exit_on_esc,
    ensures
        !close_trigger(config, None, event, false),
{
}

/// The escape key closes the window exactly when the configuration says it
/// does: with `exit_on_esc` set the press is a close trigger, and with it
/// unset the same press leaves the window open.
pub proof fn lemma_escape_follows_config(config: Config)
    ensures
        close_trigger(config, None, Some(NativeEvent::EscapePressed), false)
            == config.exit_on_esc,
{
}

/// An auto-close predicate that holds on an iteration shuts the window down
/// on that iteration, without any close command having been sent.
pub proof fn lemma_auto_close_fires(config: Config, event: Option<NativeEvent>)
    ensures
        close_trigger(config, None, event, true),
{
}

/// What joining the worker thread yielded: either the worker terminated
/// abnormally instead of returning, or it returned its terminal result.
#[derive(Debug, Clone, Copy, PartialEq, Eq)]
pub enum JoinOutcome {
    /// The worker did not return a value (it panicked); nothing it produced is
    /// available.
    Panicked,
    /// The worker returned this terminal result.
    Returned(Result<(), MiniViewError>),
}

/// The outcome of closing a view: the close command was sent (successfully or
/// not, `send_ok`) and the worker was joined (`join`). The join outcome is
/// authoritative: an abnormal join is reported as
/// [`MiniViewError::ViewThreadFailedToJoin`], distinct from any error value
/// the worker itself returned, and a worker error is propagated as it stands.
/// Only when the worker returned cleanly does a failed send surface as
/// [`MiniViewError::SendStopError`] — the receiving end was already gone.
pub fn close_outcome(send_ok: bool, join: JoinOutcome) -> (outcome: Result<(), MiniViewError>)
    ensures
        join is Panicked ==> outcome == Err::<(), MiniViewError>(
            MiniViewError::ViewThreadFailedToJoin,
        ),
        forall|worker_error: MiniViewError|
            join == JoinOutcome::Returned(Err::<(), MiniViewError>(worker_error)) ==> outcome
                == Err::<(), MiniViewError>(worker_error),
        join == JoinOutcome::Returned(Ok::<(), MiniViewError>(())) && send_ok ==> outcome
            == Ok::<(), MiniViewError>(()),
        join == JoinOutcome::Returned(Ok::<(), MiniViewError>(())) && !send_ok ==> outcome
            == Err::<(), MiniViewError>(MiniViewError::SendStopError),
{
    match join {
        JoinOutcome::Panicked => Err(MiniViewError::ViewThreadFailedToJoin),
        JoinOutcome::Returned(Err(worker_error)) => Err(worker_error),
        JoinOutcome::Returned(Ok(())) => {
            if send_ok {
                Ok(())
            } else {
                Err(MiniViewError::SendStopError)
            }
        },
    }
}

/// The outcome of waiting for a view to exit on its own: nothing was sent, so
/// the join result is everything — an abnormal join is reported as
/// [`MiniViewError::ViewThreadFailedToJoin`], and otherwise the worker's own
/// terminal result is propagated unchanged.
pub fn wait_outcome(join: JoinOutcome) -> (outcome: Result<(), MiniViewError>)
    ensures
        join is Panicked ==> outcome == Err::<(), MiniViewError>(
            MiniViewError::ViewThreadFailedToJoin,
        ),
        forall|returned: Result<(), MiniViewError>|
            join == JoinOutcome::Returned(returned) ==> outcome == returned,
{
    match join {
        JoinOutcome::Panicked => Err(MiniViewError::ViewThreadFailedToJoin),
        JoinOutcome::Returned(returned) => returned,
    }
}

} // verus!
