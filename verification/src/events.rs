//! Keyboard dispatch: the control loop hands every key in here and acts on
//! the answer. A key either retargets the presentation (tab selection),
//! moves the entry selection — which asks for a pipeline re-run — or quits.
//! Everything else is ignored.

use vstd::prelude::*;

use crate::state::{App, AppView, TAB_COUNT};

verus! {

/// The keys the interface reacts to. The unverified shell translates raw
/// terminal events into these; both quit keys arrive as `Quit`.
#[derive(Clone, Copy, PartialEq, Eq, Structural, Debug)]
pub enum KeyCommand {
    /// Cycle to the next artifact tab.
    NextTab,
    /// Jump to the unoptimized-artifact tab.
    TabUnopt,
    /// Jump to the optimized-artifact tab.
    TabOpt,
    /// Jump to the timing-report tab.
    TabDelay,
    /// Move the entry selection one to the left.
    EntryPrev,
    /// Move the entry selection one to the right.
    EntryNext,
    /// Leave the control loop.
    Quit,
    /// Any other key.
    Other,
}

/// What the control loop must do after a key was applied.
#[derive(Clone, Copy, PartialEq, Eq, Structural, Debug)]
pub enum KeyAction {
    /// Nothing beyond the state change already applied.
    Idle,
    /// The entry selection moved: re-run the whole pipeline.
    Rerun,
    /// Leave the control loop.
    Exit,
}

/// The state after a key: tab keys retarget the displayed artifact, the
/// navigation keys move the entry selection by one and are no-ops at the
/// ends, every other key changes nothing.
pub open spec fn after_key(v: AppView, key: KeyCommand) -> AppView {
    match key {
        KeyCommand::NextTab => AppView {
            selected_tab: (v.selected_tab + 1) % (TAB_COUNT as int),
            ..v
        },
        KeyCommand::TabUnopt => AppView { selected_tab: 0, ..v },
        KeyCommand::TabOpt => AppView { selected_tab: 1, ..v },
        KeyCommand::TabDelay => AppView { selected_tab: 2, ..v },
        KeyCommand::EntryPrev => if v.selected_entry > 0 {
            AppView { selected_entry: v.selected_entry - 1, ..v }
        } else {
            v
        },
        KeyCommand::EntryNext => if v.selected_entry + 1 < v.entry_points.len() {
            AppView { selected_entry: v.selected_entry + 1, ..v }
        } else {
            v
        },
        KeyCommand::Quit => v,
        KeyCommand::Other => v,
    }
}

/// The action a key asks for: a pipeline re-run exactly when the entry
/// selection actually moved, an exit for the quit keys, nothing otherwise.
pub open spec fn action_of_key(v: AppView, key: KeyCommand) -> KeyAction {
    match key {
        KeyCommand::EntryPrev => if v.selected_entry > 0 {
            KeyAction::Rerun
        } else {
            KeyAction::Idle
        },
        KeyCommand::EntryNext => if v.selected_entry + 1 < v.entry_points.len() {
            KeyAction::Rerun
        } else {
            KeyAction::Idle
        },
        KeyCommand::Quit => KeyAction::Exit,
        _ => KeyAction::Idle,
    }
}

/// Law: navigating left at the first entry, or right at the last, leaves the
/// whole state unchanged and triggers no pipeline run.
pub proof fn lemma_navigation_boundary(v: AppView)
    requires
        v.wf(),
    ensures
        v.selected_entry == 0 ==> after_key(v, KeyCommand::EntryPrev) == v && action_of_key(
            v,
            KeyCommand::EntryPrev,
        ) == KeyAction::Idle,
        v.selected_entry + 1 >= v.entry_points.len() ==> after_key(v, KeyCommand::EntryNext) == v
            && action_of_key(v, KeyCommand::EntryNext) == KeyAction::Idle,
{
}

/// Law: no key can break the state's well-formedness or touch the entry
/// list, so the selected index stays within the list under any sequence of
/// navigation keys.
pub proof fn lemma_keys_preserve_wf(v: AppView, key: KeyCommand)
    requires
        v.wf(),
    ensures
        after_key(v, key).wf(),
        after_key(v, key).entry_points == v.entry_points,
        0 <= after_key(v, key).selected_entry,
        after_key(v, key).entry_points.len() > 0 ==> after_key(v, key).selected_entry < after_key(
            v,
            key,
        ).entry_points.len(),
{
}

impl App {
    /// Applies one key to the state and says what the control loop must do
    /// next: re-run the pipeline when the entry selection moved, exit on the
    /// quit keys, nothing otherwise.
    pub fn handle_key(&mut self, key: KeyCommand) -> (action: KeyAction)
        requires
            old(self)@.wf(),
        ensures
            final(self)@ == after_key(old(self)@, key),
            final(self)@.wf(),
            action == action_of_key(old(self)@, key),
    {
        let action = match key {
            KeyCommand::NextTab => {
                self.selected_tab = (self.selected_tab + 1) % TAB_COUNT;
                KeyAction::Idle
            },
            KeyCommand::TabUnopt => {
                self.selected_tab = 0;
                KeyAction::Idle
            },
            KeyCommand::TabOpt => {
                self.selected_tab = 1;
                KeyAction::Idle
            },
            KeyCommand::TabDelay => {
                self.selected_tab = 2;
                KeyAction::Idle
            },
            KeyCommand::EntryPrev => {
                if self.selected_entry > 0 {
                    self.selected_entry = self.selected_entry - 1;
                    KeyAction::Rerun
                } else {
                    KeyAction::Idle
                }
            },
            KeyCommand::EntryNext => {
                let count = self.entry_points.len();
                if count > 0 && self.selected_entry < count - 1 {
                    self.selected_entry = self.selected_entry + 1;
                    KeyAction::Rerun
                } else {
                    KeyAction::Idle
                }
            },
            KeyCommand::Quit => KeyAction::Exit,
            KeyCommand::Other => KeyAction::Idle,
        };
        proof {
            assert(self@ =~= after_key(old(self)@, key));
        }
        action
    }
}

} // verus!
