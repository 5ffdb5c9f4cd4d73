//! From the window's events of one tick to what the loop does next.

use vstd::prelude::*;
use crate::host::ReloadAction;

verus! {

/// The key that asks for a reload.
pub const RELOAD_KEY: char = 'r';

/// A window event, as far as the loop tells events apart.
#[derive(Debug, PartialEq, Eq, Clone, Copy)]
pub enum LoopEvent {
    /// The window was closed.
    Closed,
    /// A character was typed.
    ReceivedCharacter(char),
    /// Anything else.
    Other,
}

/// What the loop does after a tick.
#[derive(Debug, PartialEq, Eq, Clone, Copy)]
pub struct Verdict {
    /// Whether the loop ends.
    pub exit: bool,
    /// Whether the component is to be reloaded.
    pub reload: ReloadAction,
}

/// Whether one of the events closes the window.
pub open spec fn any_closed(events: Seq<LoopEvent>) -> bool {
    exists|i: int| 0 <= i < events.len() && #[trigger] events[i] == LoopEvent::Closed
}

/// Whether one of the events is the reload key.
pub open spec fn any_reload_key(events: Seq<LoopEvent>) -> bool {
    exists|i: int|
        0 <= i < events.len() && #[trigger] events[i] == LoopEvent::ReceivedCharacter(RELOAD_KEY)
}

/// The verdict on the events of one tick: the loop ends if the window was
/// closed, and the component is reloaded if the reload key was typed. The two
/// do not depend on each other, nor on the order of the events.
pub open spec fn verdict_of(events: Seq<LoopEvent>) -> Verdict {
    Verdict {
        exit: any_closed(events),
        reload: if any_reload_key(events) {
            ReloadAction::Reload
        } else {
            ReloadAction::Keep
        },
    }
}

/// Judges the events that the window delivered during one tick.
pub fn judge_events(events: &Vec<LoopEvent>) -> (v: Verdict)
    ensures
        v == verdict_of(events@),
{
    let mut exit = false;
    let mut reload = ReloadAction::Keep;
    let mut i: usize = 0;
    while i < events.len()
        invariant
            i <= events@.len(),
            exit == any_closed(events@.take(i as int)),
            reload == verdict_of(events@.take(i as int)).reload,
        decreases events@.len() - i,
    {
        let ghost before = events@.take(i as int);
        let ghost after = events@.take(i + 1);
        proof {
            assert(after[i as int] == events@[i as int]);
            assert forall|k: int| 0 <= k < i implies before[k] == after[k] by {}
            if any_closed(before) {
                let k = choose|k: int| 0 <= k < before.len() && before[k] == LoopEvent::Closed;
                assert(after[k] == LoopEvent::Closed);
            }
            if any_reload_key(before) {
                let k = choose|k: int|
                    0 <= k < before.len() && before[k] == LoopEvent::ReceivedCharacter(
                        RELOAD_KEY,
                    );
                assert(after[k] == LoopEvent::ReceivedCharacter(RELOAD_KEY));
            }
            if any_closed(after) {
                let k = choose|k: int| 0 <= k < after.len() && after[k] == LoopEvent::Closed;
                assert(k < i ==> before[k] == LoopEvent::Closed);
            }
            if any_reload_key(after) {
                let k = choose|k: int|
                    0 <= k < after.len() && after[k] == LoopEvent::ReceivedCharacter(RELOAD_KEY);
                assert(k < i ==> before[k] == LoopEvent::ReceivedCharacter(RELOAD_KEY));
            }
        }
        match events[i] {
            LoopEvent::Closed => {
                exit = true;
            },
            LoopEvent::ReceivedCharacter(c) => {
                if c == RELOAD_KEY {
                    reload = ReloadAction::Reload;
                }
            },
            LoopEvent::Other => {},
        }
        i += 1;
    }
    assert(events@.take(i as int) =~= events@);
    Verdict { exit, reload }
}

} // verus!
