//! The overlay's mode state machine.
//!
//! A transition takes the current state and an action and yields the next
//! state together with the commands for the window layer, in the order in
//! which they have to be carried out. Policy of the overlay toggle: from
//! `Hidden` it opens into `Active`; once the overlay is shown it alternates
//! between `Active` and `Ghosted` and never hides the window.

use vstd::prelude::*;

verus! {

/// What the overlay is currently doing.
#[derive(Clone, Copy, Debug, PartialEq, Eq, Structural)]
pub enum OverlayMode {
    /// The window is not shown.
    Hidden,
    /// Shown and fully interactive.
    Active,
    /// Ghost mode: shown, input passes through to the application beneath.
    Ghosted,
    /// Shown and interactive, for arranging the overlay's contents.
    Manage,
}

/// A user-facing action of the state machine.
#[derive(Clone, Copy, Debug, PartialEq, Eq, Structural)]
pub enum Action {
    ToggleOverlay,
    ToggleGhost,
    ToggleManage,
    ToggleQuickChat,
    ExitQuickChat,
}

/// A message for the rendered content.
#[derive(Clone, Copy, Debug, PartialEq, Eq, Structural)]
pub enum UiEvent {
    /// The ghost and manage flags of the mode that was just entered.
    ModeChanged { ghosted: bool, managed: bool },
    QuickChatActivated,
    QuickChatDeactivated,
}

/// A command for the window layer.
#[derive(Clone, Copy, Debug, PartialEq, Eq, Structural)]
pub enum Effect {
    Show,
    Focus,
    SetClickThrough(bool),
    Notify(UiEvent),
}

/// The pinned-view flag that the rendered content is told of: set while the
/// overlay is ghosted or managed.
#[derive(Clone, Copy, Debug, PartialEq, Eq, Structural)]
pub struct OverlayPinnedViewState(pub bool);

/// Whether the quick-chat input is open.
#[derive(Clone, Copy, Debug, PartialEq, Eq, Structural)]
pub struct QuickChatActiveState(pub bool);

/// The state of the machine: the mode, and the quick-chat flag within `Ghosted`.
#[derive(Clone, Copy, Debug, PartialEq, Eq, Structural)]
pub struct OverlayState {
    pub mode: OverlayMode,
    pub quick_chat: bool,
}

/// The flags that `ModeChanged` carries for a mode. A managed overlay keeps the
/// ghost flag: manage is ghost with interaction switched back on.
pub open spec fn mode_changed(mode: OverlayMode) -> Effect {
    Effect::Notify(
        UiEvent::ModeChanged {
            ghosted: mode is Ghosted || mode is Manage,
            managed: mode is Manage,
        },
    )
}

/// The commands that close the quick-chat input.
pub open spec fn exit_quick_chat_effects() -> Seq<Effect> {
    seq![Effect::SetClickThrough(true), Effect::Notify(UiEvent::QuickChatDeactivated)]
}

impl OverlayState {
    /// Quick chat is a sub-state of `Ghosted` and of no other mode.
    pub open spec fn wf(self) -> bool {
        self.quick_chat ==> self.mode is Ghosted
    }

    /// The state at startup.
    pub open spec fn initial() -> OverlayState {
        OverlayState { mode: OverlayMode::Hidden, quick_chat: false }
    }

    /// The quick-chat input is open.
    pub open spec fn in_quick_chat(self) -> bool {
        self.mode is Ghosted && self.quick_chat
    }

    /// Whether input has to pass through the window in this state.
    pub open spec fn click_through(self) -> bool {
        self.mode is Ghosted && !self.quick_chat
    }

    /// The mode that an action leads to from a mode in which no quick chat is
    /// open.
    pub open spec fn target_mode(mode: OverlayMode, action: Action) -> OverlayMode {
        match action {
            Action::ToggleOverlay => match mode {
                OverlayMode::Hidden => OverlayMode::Active,
                OverlayMode::Active => OverlayMode::Ghosted,
                OverlayMode::Ghosted => OverlayMode::Active,
                OverlayMode::Manage => OverlayMode::Active,
            },
            Action::ToggleGhost => match mode {
                OverlayMode::Hidden => OverlayMode::Ghosted,
                OverlayMode::Active => OverlayMode::Ghosted,
                OverlayMode::Ghosted => OverlayMode::Active,
                OverlayMode::Manage => OverlayMode::Ghosted,
            },
            Action::ToggleManage => match mode {
                OverlayMode::Hidden => OverlayMode::Manage,
                OverlayMode::Active => OverlayMode::Manage,
                OverlayMode::Ghosted => OverlayMode::Manage,
                OverlayMode::Manage => OverlayMode::Ghosted,
            },
            Action::ToggleQuickChat => mode,
            Action::ExitQuickChat => mode,
        }
    }

    /// The state after `action`.
    ///
    /// While the quick-chat input is open the overlay toggle first closes it
    /// and then acts as from `Ghosted`; the ghost and manage toggles are ignored
    /// until the input has been closed.
    pub open spec fn next(self, action: Action) -> OverlayState {
        if self.in_quick_chat() {
            match action {
                Action::ToggleOverlay => OverlayState {
                    mode: OverlayMode::Active,
                    quick_chat: false,
                },
                Action::ExitQuickChat => OverlayState {
                    mode: OverlayMode::Ghosted,
                    quick_chat: false,
                },
                _ => OverlayState { mode: OverlayMode::Ghosted, quick_chat: true },
            }
        } else {
            OverlayState {
                mode: Self::target_mode(self.mode, action),
                quick_chat: action is ToggleQuickChat && self.mode is Ghosted,
            }
        }
    }

    /// The commands that a mode toggle emits from a mode in which no quick chat
    /// is open: the window is shown before anything else is done to it, the
    /// click-through attribute is set before the content is notified.
    pub open spec fn toggle_effects(mode: OverlayMode, action: Action) -> Seq<Effect> {
        let target = Self::target_mode(mode, action);
        let through = Effect::SetClickThrough(target is Ghosted);
        let notify = mode_changed(target);
        if mode is Hidden {
            seq![Effect::Show, Effect::Focus, through, notify]
        } else if mode is Ghosted && !(action is ToggleGhost) {
            seq![through, Effect::Focus, notify]
        } else if mode is Manage && action is ToggleOverlay {
            seq![through, Effect::Focus, notify]
        } else {
            seq![through, notify]
        }
    }

    /// The commands that `action` emits in this state, in order.
    pub open spec fn effects(self, action: Action) -> Seq<Effect> {
        match action {
            Action::ToggleQuickChat => if self.mode is Ghosted && !self.quick_chat {
                seq![Effect::SetClickThrough(false), Effect::Notify(UiEvent::QuickChatActivated)]
            } else {
                Seq::empty()
            },
            Action::ExitQuickChat => if self.in_quick_chat() {
                exit_quick_chat_effects()
            } else {
                Seq::empty()
            },
            Action::ToggleOverlay => if self.in_quick_chat() {
                exit_quick_chat_effects() + Self::toggle_effects(OverlayMode::Ghosted, action)
            } else {
                Self::toggle_effects(self.mode, action)
            },
            _ => if self.in_quick_chat() {
                Seq::empty()
            } else {
                Self::toggle_effects(self.mode, action)
            },
        }
    }
}

impl OverlayState {
    /// The machine at startup: hidden, no quick chat.
    pub fn new() -> (state: OverlayState)
        ensures
            state == OverlayState::initial(),
    {
        OverlayState { mode: OverlayMode::Hidden, quick_chat: false }
    }

    /// A state made of its parts, where they go together: quick chat can be
    /// open in `Ghosted` only.
    pub fn from_parts(mode: OverlayMode, quick_chat: bool) -> (state: Option<OverlayState>)
        ensures
            state == if quick_chat && !(mode is Ghosted) {
                None
            } else {
                Some(OverlayState { mode, quick_chat })
            },
    {
        if quick_chat && !matches!(mode, OverlayMode::Ghosted) {
            None
        } else {
            Some(OverlayState { mode, quick_chat })
        }
    }

    /// Whether the window has to let input through in this state.
    pub fn wants_click_through(&self) -> (on: bool)
        ensures
            on == self.click_through(),
    {
        matches!(self.mode, OverlayMode::Ghosted) && !self.quick_chat
    }

    /// The pinned-view flag of this state.
    pub fn get_pinned_view_state(&self) -> (pinned: OverlayPinnedViewState)
        ensures
            pinned.0 == (self.mode is Ghosted || self.mode is Manage),
    {
        OverlayPinnedViewState(
            matches!(self.mode, OverlayMode::Ghosted) || matches!(self.mode, OverlayMode::Manage),
        )
    }

    /// Whether the quick-chat input is open in this state.
    pub fn get_quick_chat_active(&self) -> (active: QuickChatActiveState)
        ensures
            active.0 == self.in_quick_chat(),
    {
        QuickChatActiveState(matches!(self.mode, OverlayMode::Ghosted) && self.quick_chat)
    }
}

/// The mode that `action` leads to from `mode` while no quick chat is open.
fn toggle_target(mode: OverlayMode, action: Action) -> (target: OverlayMode)
    ensures
        target == OverlayState::target_mode(mode, action),
{
    match action {
        Action::ToggleOverlay => match mode {
            OverlayMode::Hidden => OverlayMode::Active,
            OverlayMode::Active => OverlayMode::Ghosted,
            OverlayMode::Ghosted => OverlayMode::Active,
            OverlayMode::Manage => OverlayMode::Active,
        },
        Action::ToggleGhost => match mode {
            OverlayMode::Ghosted => OverlayMode::Active,
            _ => OverlayMode::Ghosted,
        },
        Action::ToggleManage => match mode {
            OverlayMode::Manage => OverlayMode::Ghosted,
            _ => OverlayMode::Manage,
        },
        Action::ToggleQuickChat => mode,
        Action::ExitQuickChat => mode,
    }
}

/// Appends the commands of a mode toggle from `mode` to `effects`.
fn push_toggle_effects(effects: &mut Vec<Effect>, mode: OverlayMode, action: Action)
    requires
        action is ToggleOverlay || action is ToggleGhost || action is ToggleManage,
    ensures
        final(effects)@ == old(effects)@ + OverlayState::toggle_effects(mode, action),
{
    let target = toggle_target(mode, action);
    let through = Effect::SetClickThrough(matches!(target, OverlayMode::Ghosted));
    let notify = Effect::Notify(
        UiEvent::ModeChanged {
            ghosted: matches!(target, OverlayMode::Ghosted) || matches!(target, OverlayMode::Manage),
            managed: matches!(target, OverlayMode::Manage),
        },
    );
    let focus_after = match mode {
        OverlayMode::Ghosted => !matches!(action, Action::ToggleGhost),
        OverlayMode::Manage => matches!(action, Action::ToggleOverlay),
        _ => false,
    };
    if matches!(mode, OverlayMode::Hidden) {
        effects.push(Effect::Show);
        effects.push(Effect::Focus);
        effects.push(through);
    } else {
        effects.push(through);
        if focus_after {
            effects.push(Effect::Focus);
        }
    }
    effects.push(notify);
    assert(effects@ =~= old(effects)@ + OverlayState::toggle_effects(mode, action));
}

/// The transition function: the state after `action` and the commands to
/// carry out, in order. It is defined for every state and every action.
pub fn transition(state: OverlayState, action: Action) -> (step: (OverlayState, Vec<Effect>))
    ensures
        step.0 == state.next(action),
        step.1@ == state.effects(action),
        step.0.wf(),
{
    let mut effects: Vec<Effect> = Vec::new();
    let in_quick_chat = matches!(state.mode, OverlayMode::Ghosted) && state.quick_chat;
    let next = match action {
        Action::ToggleQuickChat => {
            if matches!(state.mode, OverlayMode::Ghosted) && !state.quick_chat {
                effects.push(Effect::SetClickThrough(false));
                effects.push(Effect::Notify(UiEvent::QuickChatActivated));
                OverlayState { mode: OverlayMode::Ghosted, quick_chat: true }
            } else {
                OverlayState { mode: state.mode, quick_chat: in_quick_chat }
            }
        },
        Action::ExitQuickChat => {
            if in_quick_chat {
                effects.push(Effect::SetClickThrough(true));
                effects.push(Effect::Notify(UiEvent::QuickChatDeactivated));
            }
            OverlayState { mode: state.mode, quick_chat: false }
        },
        Action::ToggleOverlay => {
            let from = if in_quick_chat {
                effects.push(Effect::SetClickThrough(true));
                effects.push(Effect::Notify(UiEvent::QuickChatDeactivated));
                OverlayMode::Ghosted
            } else {
                state.mode
            };
            push_toggle_effects(&mut effects, from, action);
            OverlayState { mode: toggle_target(from, action), quick_chat: false }
        },
        _ => {
            if in_quick_chat {
                state
            } else {
                push_toggle_effects(&mut effects, state.mode, action);
                OverlayState { mode: toggle_target(state.mode, action), quick_chat: false }
            }
        },
    };
    assert(effects@ =~= state.effects(action));
    (next, effects)
}

/// Applies `action` to the state in place and returns the commands to carry
/// out.
pub fn dispatch(state: &mut OverlayState, action: Action) -> (effects: Vec<Effect>)
    ensures
        *final(state) == old(state).next(action),
        effects@ == old(state).effects(action),
        final(state).wf(),
{
    let (next, effects) = transition(*state, action);
    *state = next;
    effects
}

/// The overlay toggle: opens a hidden overlay into `Active`, afterwards
/// alternates between `Active` and `Ghosted`.
pub fn toggle_overlay(state: &mut OverlayState) -> (effects: Vec<Effect>)
    ensures
        *final(state) == old(state).next(Action::ToggleOverlay),
        effects@ == old(state).effects(Action::ToggleOverlay),
        final(state).wf(),
{
    dispatch(state, Action::ToggleOverlay)
}

/// The ghost toggle: leaves `Ghosted` for `Active`, enters `Ghosted` from
/// every other mode.
pub fn toggle_ghost_mode(state: &mut OverlayState) -> (effects: Vec<Effect>)
    ensures
        *final(state) == old(state).next(Action::ToggleGhost),
        effects@ == old(state).effects(Action::ToggleGhost),
        final(state).wf(),
{
    dispatch(state, Action::ToggleGhost)
}

/// The manage toggle: leaves `Manage` for `Ghosted`, enters `Manage` from
/// every other mode.
pub fn toggle_manage_mode(state: &mut OverlayState) -> (effects: Vec<Effect>)
    ensures
        *final(state) == old(state).next(Action::ToggleManage),
        effects@ == old(state).effects(Action::ToggleManage),
        final(state).wf(),
{
    dispatch(state, Action::ToggleManage)
}

/// Opens the quick-chat input where the overlay is ghosted and the input is
/// not open yet; does nothing in any other state.
pub fn toggle_quick_chat(state: &mut OverlayState) -> (effects: Vec<Effect>)
    ensures
        *final(state) == old(state).next(Action::ToggleQuickChat),
        effects@ == old(state).effects(Action::ToggleQuickChat),
        final(state).wf(),
{
    dispatch(state, Action::ToggleQuickChat)
}

/// Closes the quick-chat input where it is open; does nothing in any other
/// state.
pub fn exit_quick_chat(state: &mut OverlayState) -> (effects: Vec<Effect>)
    ensures
        *final(state) == old(state).next(Action::ExitQuickChat),
        effects@ == old(state).effects(Action::ExitQuickChat),
        final(state).wf(),
{
    dispatch(state, Action::ExitQuickChat)
}

/// The commands of a transition come in a fixed order: the window is shown
/// before anything else is done, the content is notified last, and never
/// before the click-through attribute has been set.
pub proof fn lemma_effects_in_order(state: OverlayState, action: Action)
    ensures
        forall|i: int|
            0 <= i < state.effects(action).len() && (#[trigger] state.effects(action)[i]) is Show
                ==> i == 0,
        state.effects(action).len() > 0 ==> state.effects(action).last() is Notify,
        forall|i: int|
            0 <= i < state.effects(action).len() && (#[trigger] state.effects(action)[i])
                is Notify ==> exists|j: int|
                0 <= j < i && (#[trigger] state.effects(action)[j]) is SetClickThrough,
{
    let effects = state.effects(action);
    assert forall|i: int| 0 <= i < effects.len() && (#[trigger] effects[i]) is Notify implies exists|
        j: int,
    | 0 <= j < i && (#[trigger] effects[j]) is SetClickThrough by {
        if effects[0] is SetClickThrough {
            assert(effects[0] is SetClickThrough);
        } else {
            assert(effects[2] is SetClickThrough);
        }
    }
}

} // verus!
