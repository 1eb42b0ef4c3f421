//! A model of the overlay window, and what holds between it and the mode.
//!
//! `WindowModel` keeps the two attributes that the commands of the state
//! machine change: whether the window is shown and whether input passes
//! through it. It serves as a stand-in for the window layer, and the laws of
//! this module are stated over it.

use crate::mode::{Action, Effect, OverlayMode, OverlayState};
use vstd::prelude::*;

verus! {

/// The attributes of the window that the commands act on.
#[derive(Clone, Copy, Debug, PartialEq, Eq, Structural)]
pub struct WindowModel {
    pub visible: bool,
    pub click_through: bool,
}

impl WindowModel {
    /// The window at startup: not shown, not click-through.
    pub open spec fn initial() -> WindowModel {
        WindowModel { visible: false, click_through: false }
    }

    /// The window after one command.
    pub open spec fn after(self, effect: Effect) -> WindowModel {
        match effect {
            Effect::Show => WindowModel { visible: true, click_through: self.click_through },
            Effect::SetClickThrough(on) => WindowModel { visible: self.visible, click_through: on },
            Effect::Focus => self,
            Effect::Notify(_) => self,
        }
    }

    /// The window after a list of commands, carried out from the first to the
    /// last.
    pub open spec fn after_all(self, effects: Seq<Effect>) -> WindowModel
        decreases effects.len(),
    {
        if effects.len() == 0 {
            self
        } else {
            self.after_all(effects.drop_last()).after(effects.last())
        }
    }

    /// The window shows what the state asks for: it is visible unless the
    /// mode is `Hidden`, and click-through exactly in `Ghosted` without quick
    /// chat.
    pub open spec fn agrees_with(self, state: OverlayState) -> bool {
        &&& self.visible == !(state.mode is Hidden)
        &&& self.click_through == state.click_through()
    }

    /// The window at startup.
    pub fn new() -> (window: WindowModel)
        ensures
            window == WindowModel::initial(),
    {
        WindowModel { visible: false, click_through: false }
    }

    /// Carries out one command.
    pub fn apply(&mut self, effect: Effect)
        ensures
            *final(self) == old(self).after(effect),
    {
        match effect {
            Effect::Show => {
                self.visible = true;
            },
            Effect::SetClickThrough(on) => {
                self.click_through = on;
            },
            _ => {},
        }
    }

    /// Carries out a list of commands in order.
    pub fn apply_all(&mut self, effects: &Vec<Effect>)
        ensures
            *final(self) == old(self).after_all(effects@),
    {
        let mut i: usize = 0;
        while i < effects.len()
            invariant
                i <= effects.len(),
                *self == old(self).after_all(effects@.take(i as int)),
            decreases effects.len() - i,
        {
            assert(effects@.take(i + 1).drop_last() =~= effects@.take(i as int));
            self.apply(effects[i]);
            i += 1;
        }
        assert(effects@.take(effects.len() as int) =~= effects@);
    }
}

/// State and window after a sequence of actions from startup, each action's
/// commands carried out before the next action.
pub open spec fn run(actions: Seq<Action>) -> (OverlayState, WindowModel)
    decreases actions.len(),
{
    if actions.len() == 0 {
        (OverlayState::initial(), WindowModel::initial())
    } else {
        let before = run(actions.drop_last());
        (
            before.0.next(actions.last()),
            before.1.after_all(before.0.effects(actions.last())),
        )
    }
}

/// Carrying out two lists one after the other is carrying out their
/// concatenation.
pub proof fn lemma_after_all_concat(window: WindowModel, first: Seq<Effect>, second: Seq<Effect>)
    ensures
        window.after_all(first + second) == window.after_all(first).after_all(second),
    decreases second.len(),
{
    if second.len() == 0 {
        assert(first + second =~= first);
    } else {
        assert((first + second).drop_last() =~= first + second.drop_last());
        lemma_after_all_concat(window, first, second.drop_last());
    }
}

/// What a list of up to four commands does to the window, command by command.
proof fn lemma_after_all_unfold(window: WindowModel, effects: Seq<Effect>)
    requires
        effects.len() <= 4,
    ensures
        effects.len() == 0 ==> window.after_all(effects) == window,
        effects.len() == 2 ==> window.after_all(effects) == window.after(effects[0]).after(
            effects[1],
        ),
        effects.len() == 3 ==> window.after_all(effects) == window.after(effects[0]).after(
            effects[1],
        ).after(effects[2]),
        effects.len() == 4 ==> window.after_all(effects) == window.after(effects[0]).after(
            effects[1],
        ).after(effects[2]).after(effects[3]),
{
    reveal_with_fuel(WindowModel::after_all, 5);
    if effects.len() >= 2 {
        let a = effects.drop_last();
        assert(a.last() == effects[effects.len() - 2]);
        if effects.len() >= 3 {
            let b = a.drop_last();
            assert(b.last() == effects[effects.len() - 3]);
            if effects.len() >= 4 {
                let c = b.drop_last();
                assert(c.last() == effects[0]);
            }
        }
    }
}

/// One step keeps state and window in agreement: where the window shows what
/// a well-formed state asks for, it still does after any action's commands
/// have been carried out, and the next state is well-formed.
pub proof fn lemma_step_keeps_agreement(state: OverlayState, window: WindowModel, action: Action)
    requires
        state.wf(),
        window.agrees_with(state),
    ensures
        state.next(action).wf(),
        window.after_all(state.effects(action)).agrees_with(state.next(action)),
{
    let effects = state.effects(action);
    if state.in_quick_chat() && action is ToggleOverlay {
        let first = crate::mode::exit_quick_chat_effects();
        let second = OverlayState::toggle_effects(OverlayMode::Ghosted, action);
        lemma_after_all_concat(window, first, second);
        lemma_after_all_unfold(window, first);
        lemma_after_all_unfold(window.after_all(first), second);
    } else {
        lemma_after_all_unfold(window, effects);
    }
}

/// After every prefix of any sequence of actions from startup the state is
/// well-formed: the machine is in one of its four modes, and quick chat is
/// open only in `Ghosted`.
pub proof fn lemma_reachable_states_are_well_formed(actions: Seq<Action>)
    ensures
        forall|n: int|
            0 <= n <= actions.len() ==> (#[trigger] run(actions.take(n))).0.wf() && (run(
                actions.take(n),
            ).0.quick_chat ==> run(actions.take(n)).0.mode is Ghosted),
{
    assert forall|n: int| 0 <= n <= actions.len() implies (#[trigger] run(actions.take(n))).0.wf()
        && (run(actions.take(n)).0.quick_chat ==> run(actions.take(n)).0.mode is Ghosted) by {
        lemma_reachable_agreement(actions.take(n));
    }
}

/// In every state that a sequence of actions reaches from startup, with
/// every command carried out, the window is click-through exactly when the
/// mode is `Ghosted` and no quick chat is open, and it is shown exactly when
/// the mode is not `Hidden`.
pub proof fn lemma_reachable_agreement(actions: Seq<Action>)
    ensures
        run(actions).0.wf(),
        run(actions).1.agrees_with(run(actions).0),
        run(actions).1.click_through <==> (run(actions).0.mode is Ghosted && !run(
            actions,
        ).0.quick_chat),
    decreases actions.len(),
{
    if actions.len() > 0 {
        lemma_reachable_agreement(actions.drop_last());
        let before = run(actions.drop_last());
        lemma_step_keeps_agreement(before.0, before.1, actions.last());
    }
}

/// Opening the quick-chat input and closing it again leaves the window's
/// click-through attribute as it was before, from every state in which the
/// input is not open already.
pub proof fn lemma_quick_chat_round_trip(state: OverlayState, window: WindowModel)
    requires
        state.wf(),
        window.agrees_with(state),
        !state.quick_chat,
    ensures
        ({
            let opened = state.next(Action::ToggleQuickChat);
            let during = window.after_all(state.effects(Action::ToggleQuickChat));
            let closed = opened.next(Action::ExitQuickChat);
            let afterwards = during.after_all(opened.effects(Action::ExitQuickChat));
            &&& closed == state
            &&& afterwards.click_through == window.click_through
            &&& afterwards == window
        }),
{
    let opened = state.next(Action::ToggleQuickChat);
    let during = window.after_all(state.effects(Action::ToggleQuickChat));
    lemma_after_all_unfold(window, state.effects(Action::ToggleQuickChat));
    lemma_after_all_unfold(during, opened.effects(Action::ExitQuickChat));
}

} // verus!
