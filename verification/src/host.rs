//! The lifecycle of the loaded module and its component, as a state machine.
//!
//! The host decides; its caller acts. Each step takes the outcome of the last
//! action as an event and answers with the next action, so that opening the
//! module, calling into it and closing it stay with the caller while every
//! decision about their order is made here.

use vstd::prelude::*;
use vstd::string::*;
use vstd::utf8::encode_utf8;
use crate::abi::MODULE_NAME;
use crate::discovery::{artifact_prefix, find_latest_lib, scan_result, DirEntry, DiscoveryError};

verus! {

/// What the surrounding loop asks for at the end of a tick.
#[derive(Debug, PartialEq, Eq, Clone, Copy, Structural)]
pub enum ReloadAction {
    /// Keep the component.
    Keep,
    /// Freeze the component and unload its module.
    Reload,
}

/// The step that failed. Every failure is final.
#[derive(Debug, PartialEq, Eq, Clone, Copy)]
pub enum HostError {
    /// The scan for an artifact failed.
    Discovery(DiscoveryError),
    /// The scan found no artifact.
    NoArtifact,
    /// The artifact could not be opened as a module.
    OpenFailed,
    /// The module does not export the factory entry point.
    MissingEntryPoint,
    /// The factory did not find a resource that it requires.
    MissingDependency,
    /// An event arrived that answers no pending action.
    UnexpectedEvent,
}

/// Where the host stands.
#[derive(Debug, PartialEq, Eq, Clone, Copy)]
pub enum Stage {
    /// No module, no component; between ticks.
    Unloaded,
    /// A scan for the newest artifact was asked for.
    Discovering,
    /// The artifact is being opened.
    Opening,
    /// The module is open; its entry point is being resolved.
    Resolving,
    /// The module is open; the factory is building the component.
    Constructing,
    /// Module open, component live; between ticks.
    Loaded,
    /// The component is drawing.
    Rendering,
    /// The component is being frozen.
    Freezing,
    /// The component is gone; the module is being closed.
    Closing,
    /// A step failed; nothing more will be done.
    Halted(HostError),
}

/// What the caller reports back.
#[derive(Debug, PartialEq, Eq)]
pub enum Event<F> {
    /// A new tick begins: a frame is wanted.
    Tick,
    /// The scan ended with this outcome.
    Discovered(Result<Option<usize>, DiscoveryError>),
    /// The artifact was opened, or could not be.
    Opened(bool),
    /// The entry point was found, or is absent.
    Resolved(bool),
    /// The factory returned a component, or lacked a dependency.
    Constructed(bool),
    /// The component drew a frame, and the loop decided this.
    Rendered(ReloadAction),
    /// The component was frozen into this state.
    Froze(F),
    /// The module was closed.
    Closed,
}

/// What the caller is to do next.
#[derive(Debug, PartialEq, Eq)]
pub enum Action<F> {
    /// Scan the build directory and report the outcome.
    Discover,
    /// Open the listing's entry `artifact` as a module.
    Open { artifact: usize },
    /// Resolve the factory entry point in the open module.
    Resolve,
    /// Call the factory with the dependencies and this frozen state.
    Construct(Option<F>),
    /// Let the component draw, then poll the loop's events.
    Render,
    /// Freeze the component, which ends it.
    Freeze,
    /// Close the module.
    Close,
    /// The tick is over.
    Done,
    /// Stop the process and report this failure.
    Abort(HostError),
}

/// The host's state: its stage and the frozen state that waits for the next
/// component.
#[derive(Debug)]
pub struct Host<F> {
    /// Where the host stands.
    pub stage: Stage,
    /// The state of the last frozen component, until a factory call takes it.
    pub frozen: Option<F>,
}

/// Whether a module is open at this stage.
pub open spec fn module_open(stage: Stage) -> bool {
    stage is Resolving || stage is Constructing || stage is Loaded || stage is Rendering
        || stage is Freezing || stage is Closing
}

/// Whether a component is live at this stage.
pub open spec fn component_live(stage: Stage) -> bool {
    stage is Loaded || stage is Rendering || stage is Freezing
}

/// The state that a failure leaves, and the action that reports it.
pub open spec fn halt<F>(h: Host<F>, err: HostError) -> (Host<F>, Action<F>) {
    (Host { stage: Stage::Halted(err), frozen: h.frozen }, Action::Abort(err))
}

/// The state in a new stage, and the action that leads there.
pub open spec fn advance<F>(h: Host<F>, stage: Stage, action: Action<F>) -> (Host<F>, Action<F>) {
    (Host { stage, frozen: h.frozen }, action)
}

/// The transition function: the state after `event`, and the action that
/// answers it. An event that answers no pending action halts the host, and a
/// halted host repeats its failure.
pub open spec fn next<F>(h: Host<F>, event: Event<F>) -> (Host<F>, Action<F>) {
    match (h.stage, event) {
        (Stage::Halted(err), _) => (h, Action::Abort(err)),
        (Stage::Unloaded, Event::Tick) => advance(h, Stage::Discovering, Action::Discover),
        (Stage::Loaded, Event::Tick) => advance(h, Stage::Rendering, Action::Render),
        (Stage::Discovering, Event::Discovered(Ok(Some(artifact)))) => advance(
            h,
            Stage::Opening,
            Action::Open { artifact },
        ),
        (Stage::Discovering, Event::Discovered(Ok(None))) => halt(h, HostError::NoArtifact),
        (Stage::Discovering, Event::Discovered(Err(e))) => halt(h, HostError::Discovery(e)),
        (Stage::Opening, Event::Opened(true)) => advance(h, Stage::Resolving, Action::Resolve),
        (Stage::Opening, Event::Opened(false)) => halt(h, HostError::OpenFailed),
        (Stage::Resolving, Event::Resolved(true)) => (
            Host { stage: Stage::Constructing, frozen: None },
            Action::Construct(h.frozen),
        ),
        (Stage::Resolving, Event::Resolved(false)) => halt(h, HostError::MissingEntryPoint),
        (Stage::Constructing, Event::Constructed(true)) => advance(
            h,
            Stage::Rendering,
            Action::Render,
        ),
        (Stage::Constructing, Event::Constructed(false)) => halt(
            h,
            HostError::MissingDependency,
        ),
        (Stage::Rendering, Event::Rendered(ReloadAction::Keep)) => advance(
            h,
            Stage::Loaded,
            Action::Done,
        ),
        (Stage::Rendering, Event::Rendered(ReloadAction::Reload)) => advance(
            h,
            Stage::Freezing,
            Action::Freeze,
        ),
        (Stage::Freezing, Event::Froze(f)) => (
            Host { stage: Stage::Closing, frozen: Some(f) },
            Action::Close,
        ),
        (Stage::Closing, Event::Closed) => advance(h, Stage::Unloaded, Action::Done),
        _ => halt(h, HostError::UnexpectedEvent),
    }
}

impl<F> Host<F> {
    /// Whether the state is one that the host can be in: a frozen state waits
    /// only while no component has taken it.
    pub open spec fn wf(self) -> bool {
        self.frozen is Some ==> !(self.stage is Constructing || component_live(self.stage))
    }

    /// A host with nothing loaded and nothing frozen.
    pub fn new() -> (h: Self)
        ensures
            h == initial::<F>(),
            h.wf(),
    {
        Host { stage: Stage::Unloaded, frozen: None }
    }

    /// Takes the outcome of the last action and decides the next one.
    pub fn step(&mut self, event: Event<F>) -> (action: Action<F>)
        ensures
            (*final(self), action) == next(*old(self), event),
            old(self).wf() ==> final(self).wf(),
    {
        let stage = self.stage;
        match (stage, event) {
            (Stage::Halted(err), _) => Action::Abort(err),
            (Stage::Unloaded, Event::Tick) => {
                self.stage = Stage::Discovering;
                Action::Discover
            },
            (Stage::Loaded, Event::Tick) => {
                self.stage = Stage::Rendering;
                Action::Render
            },
            (Stage::Discovering, Event::Discovered(Ok(Some(artifact)))) => {
                self.stage = Stage::Opening;
                Action::Open { artifact }
            },
            (Stage::Discovering, Event::Discovered(Ok(None))) => self.fail(HostError::NoArtifact),
            (Stage::Discovering, Event::Discovered(Err(e))) => self.fail(HostError::Discovery(e)),
            (Stage::Opening, Event::Opened(true)) => {
                self.stage = Stage::Resolving;
                Action::Resolve
            },
            (Stage::Opening, Event::Opened(false)) => self.fail(HostError::OpenFailed),
            (Stage::Resolving, Event::Resolved(true)) => {
                self.stage = Stage::Constructing;
                Action::Construct(self.frozen.take())
            },
            (Stage::Resolving, Event::Resolved(false)) => self.fail(HostError::MissingEntryPoint),
            (Stage::Constructing, Event::Constructed(true)) => {
                self.stage = Stage::Rendering;
                Action::Render
            },
            (Stage::Constructing, Event::Constructed(false)) => self.fail(
                HostError::MissingDependency,
            ),
            (Stage::Rendering, Event::Rendered(ReloadAction::Keep)) => {
                self.stage = Stage::Loaded;
                Action::Done
            },
            (Stage::Rendering, Event::Rendered(ReloadAction::Reload)) => {
                self.stage = Stage::Freezing;
                Action::Freeze
            },
            (Stage::Freezing, Event::Froze(f)) => {
                self.stage = Stage::Closing;
                self.frozen = Some(f);
                Action::Close
            },
            (Stage::Closing, Event::Closed) => {
                self.stage = Stage::Unloaded;
                Action::Done
            },
            _ => self.fail(HostError::UnexpectedEvent),
        }
    }

    /// Scans `entries`, the listing of the build directory, for the newest
    /// artifact of the renderer module, and takes the outcome as the answer
    /// to a pending scan.
    pub fn scan(&mut self, entries: &Vec<DirEntry>, dll_prefix: &str, dll_extension: &str) -> (action:
        Action<F>)
        ensures
            exists|r: Result<Option<usize>, DiscoveryError>|
                {
                    &&& #[trigger] scan_result(
                        entries@,
                        artifact_prefix(encode_utf8(dll_prefix@), encode_utf8(MODULE_NAME@)),
                        encode_utf8(dll_extension@),
                        r,
                    )
                    &&& (*final(self), action) == next(*old(self), Event::Discovered(r))
                },
            old(self).wf() ==> final(self).wf(),
    {
        proof {
            reveal_strlit("sandbox_render");
        }
        let outcome = find_latest_lib(entries, dll_prefix, dll_extension, MODULE_NAME, None);
        self.step(Event::Discovered(outcome))
    }

    fn fail(&mut self, err: HostError) -> (action: Action<F>)
        ensures
            (*final(self), action) == halt(*old(self), err),
    {
        self.stage = Stage::Halted(err);
        Action::Abort(err)
    }
}

/// Every step keeps the state well formed.
pub proof fn step_keeps_wf<F>(h: Host<F>, event: Event<F>)
    requires
        h.wf(),
    ensures
        next(h, event).0.wf(),
{
}

/// A component is live only while its module is open.
pub proof fn component_needs_module(stage: Stage)
    ensures
        component_live(stage) ==> module_open(stage),
{
}

/// A failure is final: a halted host stays as it is and answers every event
/// with the same failure. In particular a factory that lacked a dependency
/// leaves no component, and none is ever drawn afterwards.
pub proof fn halted_is_final<F>(h: Host<F>, event: Event<F>)
    requires
        h.stage is Halted,
    ensures
        next(h, event) == (h, Action::<F>::Abort(h.stage->Halted_0)),
        !component_live(h.stage),
        !module_open(h.stage),
{
}

/// A factory that reports a missing dependency halts the host with that
/// failure, and no component is live.
pub proof fn missing_dependency_halts<F>(h: Host<F>)
    requires
        h.stage is Constructing,
    ensures
        next(h, Event::Constructed(false)).0.stage == Stage::Halted(HostError::MissingDependency),
        next(h, Event::<F>::Constructed(false)).1 == Action::<F>::Abort(
            HostError::MissingDependency,
        ),
        !component_live(next(h, Event::Constructed(false)).0.stage),
{
}

/// The host asks for a frame only of a live component: either one that was
/// live between ticks, or one that the factory has just returned.
pub proof fn render_needs_live_component<F>(h: Host<F>, event: Event<F>)
    requires
        next(h, event).1 is Render,
    ensures
        next(h, event).0.stage is Rendering,
        component_live(next(h, event).0.stage),
        (h.stage is Loaded && event is Tick) || (h.stage is Constructing && event
            == Event::<F>::Constructed(true)),
{
}

/// A component becomes live only when the factory returns it.
pub proof fn component_comes_from_factory<F>(h: Host<F>, event: Event<F>)
    requires
        !component_live(h.stage),
        component_live(next(h, event).0.stage),
    ensures
        h.stage is Constructing,
        event == Event::<F>::Constructed(true),
{
}

/// The module is closed only after the component is gone: the host asks for
/// it only in answer to the frozen state, and no component is live then.
pub proof fn close_follows_freeze<F>(h: Host<F>, event: Event<F>)
    requires
        next(h, event).1 is Close,
    ensures
        h.stage is Freezing,
        event is Froze,
        !component_live(next(h, event).0.stage),
        next(h, event).0.frozen == Some(event->Froze_0),
{
}

/// A reload request unloads everything: the component is frozen, then the
/// module is closed, and the host is left unloaded with the frozen state
/// pending, whatever was pending before.
pub proof fn reload_unloads<F>(h: Host<F>, f: F)
    requires
        h.stage is Rendering,
    ensures
        ({
            let (h1, a1) = next(h, Event::Rendered(ReloadAction::Reload));
            let (h2, a2) = next(h1, Event::Froze(f));
            let (h3, a3) = next(h2, Event::Closed);
            &&& a1 is Freeze
            &&& a2 is Close
            &&& a3 is Done
            &&& !component_live(h2.stage)
            &&& h3.stage is Unloaded
            &&& h3.frozen == Some(f)
        }),
{
}

/// No second module, no second component: the host asks to open a module only
/// while none is open, and calls the factory only while a module is open and
/// no component is live.
pub proof fn no_second_handle<F>(h: Host<F>, event: Event<F>)
    ensures
        next(h, event).1 is Open ==> !module_open(h.stage) && !component_live(h.stage),
        next(h, event).1 is Construct ==> module_open(h.stage) && !component_live(h.stage),
{
}

/// The state that a component is frozen into at a reload is the state that
/// the next factory call receives: from the reload request through freezing,
/// closing, the next tick's scan, opening and resolving, the host hands the
/// factory exactly `f`, and keeps nothing back.
pub proof fn reload_round_trip<F>(h: Host<F>, f: F, artifact: usize)
    requires
        h.stage is Rendering,
    ensures
        ({
            let h1 = next(h, Event::Rendered(ReloadAction::Reload)).0;
            let h2 = next(h1, Event::Froze(f)).0;
            let h3 = next(h2, Event::Closed).0;
            let h4 = next(h3, Event::Tick).0;
            let h5 = next(h4, Event::Discovered(Ok(Some(artifact)))).0;
            let h6 = next(h5, Event::Opened(true)).0;
            let (h7, a7) = next(h6, Event::Resolved(true));
            let (h8, a8) = next(h7, Event::Constructed(true));
            &&& a7 == Action::Construct(Some(f))
            &&& h7.frozen is None
            &&& a8 is Render
            &&& h8.stage is Rendering
        }),
{
}

/// An unloaded host stays without module and component until a tick asks for
/// a frame.
pub proof fn unloaded_until_tick<F>(h: Host<F>, event: Event<F>)
    requires
        h.stage is Unloaded,
        !(event is Tick),
    ensures
        !module_open(next(h, event).0.stage),
        !component_live(next(h, event).0.stage),
{
}

/// The frozen state that waits in an unloaded host is what the next factory
/// call receives: a tick, a scan that finds `artifact`, an open module and a
/// resolved entry point lead to the factory call with exactly that state, and
/// leave nothing pending.
pub proof fn frozen_state_reaches_factory<F>(h: Host<F>, artifact: usize)
    requires
        h.stage is Unloaded,
    ensures
        ({
            let (h1, a1) = next(h, Event::Tick);
            let (h2, a2) = next(h1, Event::Discovered(Ok(Some(artifact))));
            let (h3, a3) = next(h2, Event::Opened(true));
            let (h4, a4) = next(h3, Event::Resolved(true));
            let (h5, a5) = next(h4, Event::Constructed(true));
            &&& a1 is Discover
            &&& a2 == Action::<F>::Open { artifact }
            &&& a3 is Resolve
            &&& a4 == Action::Construct(h.frozen)
            &&& h4.frozen is None
            &&& a5 is Render
            &&& component_live(h5.stage)
        }),
{
}

/// A tick that keeps the component leaves the host loaded, and the next tick
/// draws again without loading anything.
pub proof fn loaded_tick_only_renders<F>(h: Host<F>)
    requires
        h.stage is Loaded,
    ensures
        ({
            let (h1, a1) = next(h, Event::Tick);
            let (h2, a2) = next(h1, Event::Rendered(ReloadAction::Keep));
            &&& a1 is Render
            &&& a2 is Done
            &&& h2 == h
        }),
{
}

/// The state that a host reaches from `h` by taking `events` in turn.
pub open spec fn run<F>(h: Host<F>, events: Seq<Event<F>>) -> Host<F>
    decreases events.len(),
{
    if events.len() == 0 {
        h
    } else {
        next(run(h, events.drop_last()), events.last()).0
    }
}

/// The action with which a host that started in `h` answers the last of
/// `events`.
pub open spec fn answer<F>(h: Host<F>, events: Seq<Event<F>>) -> Action<F>
    recommends
        events.len() > 0,
{
    next(run(h, events.drop_last()), events.last()).1
}

/// A new host: nothing loaded, nothing frozen.
pub open spec fn initial<F>() -> Host<F> {
    Host { stage: Stage::Unloaded, frozen: None }
}

/// Whether `events` hold a successful factory call, taken by a host that was
/// waiting for it, after which no component was frozen.
pub open spec fn built_and_kept<F>(events: Seq<Event<F>>) -> bool {
    exists|j: int|
        {
            &&& 0 <= j < events.len()
            &&& #[trigger] events[j] == Event::<F>::Constructed(true)
            &&& run(initial::<F>(), events.take(j)).stage is Constructing
            &&& forall|k: int| j < k < events.len() ==> !(#[trigger] events[k] is Froze)
        }
}

/// Whatever events it is fed, a host that started new stays well formed.
pub proof fn reachable_is_wf<F>(events: Seq<Event<F>>)
    ensures
        run(initial::<F>(), events).wf(),
    decreases events.len(),
{
    if events.len() > 0 {
        reachable_is_wf::<F>(events.drop_last());
        step_keeps_wf(run(initial::<F>(), events.drop_last()), events.last());
    }
}

/// Whatever events it is fed, a host that started new holds a live component
/// only if the factory returned one and it was not frozen since.
pub proof fn live_component_was_built<F>(events: Seq<Event<F>>)
    requires
        component_live(run(initial::<F>(), events).stage),
    ensures
        built_and_kept(events),
    decreases events.len(),
{
    if events.len() > 0 {
        let before = events.drop_last();
        let at = events.len() - 1;
        let h = run(initial::<F>(), before);
        if component_live(h.stage) {
            live_component_was_built::<F>(before);
            let j = choose|j: int|
                {
                    &&& 0 <= j < before.len()
                    &&& #[trigger] before[j] == Event::<F>::Constructed(true)
                    &&& run(initial::<F>(), before.take(j)).stage is Constructing
                    &&& forall|k: int| j < k < before.len() ==> !(#[trigger] before[k] is Froze)
                };
            assert(events.take(j) =~= before.take(j));
            assert(events[j] == before[j]);
            assert forall|k: int| j < k < events.len() implies !(#[trigger] events[k] is Froze) by {
                if k < at {
                    assert(events[k] == before[k]);
                }
            }
        } else {
            component_comes_from_factory(h, events.last());
            assert(events.take(at) =~= before);
            assert(events[at] == Event::<F>::Constructed(true));
        }
    }
}

/// Whatever events it is fed, a host that started new asks for a frame only
/// of a component that the factory returned and that was not frozen since.
pub proof fn render_only_after_construction<F>(events: Seq<Event<F>>)
    requires
        events.len() > 0,
        answer(initial::<F>(), events) is Render,
    ensures
        built_and_kept(events),
{
    render_needs_live_component(run(initial::<F>(), events.drop_last()), events.last());
    live_component_was_built(events);
}

/// Whatever events it is fed, a host that started new has a module open
/// whenever a component is live, and is rid of both once halted or unloaded.
pub proof fn handles_go_together<F>(events: Seq<Event<F>>)
    ensures
        ({
            let stage = run(initial::<F>(), events).stage;
            &&& component_live(stage) ==> module_open(stage)
            &&& (stage is Unloaded || stage is Halted) ==> !module_open(stage) && !component_live(
                stage,
            )
        }),
{
}

} // verus!
