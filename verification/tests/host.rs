use sandbox_host::discovery::DiscoveryError;
use sandbox_host::host::{Action, Event, Host, HostError, ReloadAction, Stage};

fn loaded() -> Host<u64> {
    let mut host: Host<u64> = Host::new();
    assert_eq!(host.step(Event::Tick), Action::Discover);
    assert_eq!(host.step(Event::Discovered(Ok(Some(0)))), Action::Open { artifact: 0 });
    assert_eq!(host.step(Event::Opened(true)), Action::Resolve);
    assert_eq!(host.step(Event::Resolved(true)), Action::Construct(None));
    assert_eq!(host.step(Event::Constructed(true)), Action::Render);
    assert_eq!(host.step(Event::Rendered(ReloadAction::Keep)), Action::Done);
    host
}

#[test]
fn new_host_is_unloaded() {
    let host: Host<u64> = Host::new();
    assert_eq!(host.stage, Stage::Unloaded);
    assert_eq!(host.frozen, None);
}

#[test]
fn first_tick_loads_then_renders() {
    let host = loaded();
    assert_eq!(host.stage, Stage::Loaded);
    assert_eq!(host.frozen, None);
}

#[test]
fn loaded_tick_renders_at_once() {
    let mut host = loaded();
    assert_eq!(host.step(Event::Tick), Action::Render);
    assert_eq!(host.stage, Stage::Rendering);
    assert_eq!(host.step(Event::Rendered(ReloadAction::Keep)), Action::Done);
    assert_eq!(host.stage, Stage::Loaded);
}

#[test]
fn reload_freezes_then_closes() {
    let mut host = loaded();
    assert_eq!(host.step(Event::Tick), Action::Render);
    assert_eq!(host.step(Event::Rendered(ReloadAction::Reload)), Action::Freeze);
    assert_eq!(host.stage, Stage::Freezing);
    assert_eq!(host.step(Event::Froze(42)), Action::Close);
    assert_eq!(host.stage, Stage::Closing);
    assert_eq!(host.frozen, Some(42));
    assert_eq!(host.step(Event::Closed), Action::Done);
    assert_eq!(host.stage, Stage::Unloaded);
    assert_eq!(host.frozen, Some(42));
}

#[test]
fn frozen_state_goes_to_the_next_factory_call_once() {
    let mut host = loaded();
    host.step(Event::Tick);
    host.step(Event::Rendered(ReloadAction::Reload));
    host.step(Event::Froze(42));
    host.step(Event::Closed);
    assert_eq!(host.step(Event::Tick), Action::Discover);
    assert_eq!(host.step(Event::Discovered(Ok(Some(3)))), Action::Open { artifact: 3 });
    assert_eq!(host.step(Event::Opened(true)), Action::Resolve);
    assert_eq!(host.step(Event::Resolved(true)), Action::Construct(Some(42)));
    assert_eq!(host.frozen, None);
    assert_eq!(host.step(Event::Constructed(true)), Action::Render);
}

#[test]
fn later_frozen_state_replaces_the_earlier() {
    let mut host: Host<u64> = Host { stage: Stage::Freezing, frozen: Some(1) };
    assert_eq!(host.step(Event::Froze(2)), Action::Close);
    assert_eq!(host.frozen, Some(2));
}

#[test]
fn scan_failure_halts() {
    let mut host: Host<u64> = Host::new();
    host.step(Event::Tick);
    let err = HostError::Discovery(DiscoveryError::Metadata { index: 4 });
    assert_eq!(host.step(Event::Discovered(Err(DiscoveryError::Metadata { index: 4 }))), Action::Abort(err));
    assert_eq!(host.stage, Stage::Halted(err));
}

#[test]
fn missing_artifact_halts() {
    let mut host: Host<u64> = Host::new();
    host.step(Event::Tick);
    assert_eq!(host.step(Event::Discovered(Ok(None))), Action::Abort(HostError::NoArtifact));
    assert_eq!(host.stage, Stage::Halted(HostError::NoArtifact));
}

#[test]
fn open_failure_halts() {
    let mut host: Host<u64> = Host::new();
    host.step(Event::Tick);
    host.step(Event::Discovered(Ok(Some(0))));
    assert_eq!(host.step(Event::Opened(false)), Action::Abort(HostError::OpenFailed));
    assert_eq!(host.stage, Stage::Halted(HostError::OpenFailed));
}

#[test]
fn missing_entry_point_halts() {
    let mut host: Host<u64> = Host::new();
    host.step(Event::Tick);
    host.step(Event::Discovered(Ok(Some(0))));
    host.step(Event::Opened(true));
    assert_eq!(host.step(Event::Resolved(false)), Action::Abort(HostError::MissingEntryPoint));
    assert_eq!(host.stage, Stage::Halted(HostError::MissingEntryPoint));
}

#[test]
fn missing_dependency_halts_before_any_render() {
    let mut host: Host<u64> = Host::new();
    host.step(Event::Tick);
    host.step(Event::Discovered(Ok(Some(0))));
    host.step(Event::Opened(true));
    host.step(Event::Resolved(true));
    assert_eq!(host.step(Event::Constructed(false)), Action::Abort(HostError::MissingDependency));
    assert_eq!(host.stage, Stage::Halted(HostError::MissingDependency));
    assert_eq!(host.step(Event::Tick), Action::Abort(HostError::MissingDependency));
    assert_eq!(host.step(Event::Constructed(true)), Action::Abort(HostError::MissingDependency));
    assert_eq!(host.stage, Stage::Halted(HostError::MissingDependency));
}

#[test]
fn event_without_pending_action_halts() {
    let mut host: Host<u64> = Host::new();
    assert_eq!(host.step(Event::Rendered(ReloadAction::Keep)), Action::Abort(HostError::UnexpectedEvent));
    assert_eq!(host.stage, Stage::Halted(HostError::UnexpectedEvent));
    let mut host = loaded();
    assert_eq!(host.step(Event::Froze(1)), Action::Abort(HostError::UnexpectedEvent));
    assert_eq!(host.frozen, None);
    let mut host = loaded();
    host.step(Event::Tick);
    assert_eq!(host.step(Event::Tick), Action::Abort(HostError::UnexpectedEvent));
}

#[test]
fn failure_keeps_the_pending_frozen_state() {
    let mut host: Host<u64> = Host { stage: Stage::Discovering, frozen: Some(7) };
    assert_eq!(host.step(Event::Discovered(Ok(None))), Action::Abort(HostError::NoArtifact));
    assert_eq!(host.frozen, Some(7));
}
