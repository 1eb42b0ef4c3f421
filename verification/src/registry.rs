//! The registry of the shortcuts that trigger the overlay's actions.
//!
//! The registry keeps, for each bindable action, the combination that is
//! registered for it. It never talks to the platform itself: a rebind request
//! is answered with the commands for the hotkey facility, and the binding
//! becomes current when the caller reports that the facility took it.

use crate::error::ShortcutError;
use crate::keys::{key_code_of, modifier_set, parse_key_code, parse_modifiers, KeyCode, ModifierSet};
use crate::mode::{dispatch, Action, Effect, OverlayState};
use crate::text::{chars_of, same_chars};
use vstd::prelude::*;

verus! {

/// An action that a shortcut can be bound to.
#[derive(Clone, Copy, Debug, PartialEq, Eq, Structural)]
pub enum ActionId {
    OverlayToggle,
    GhostToggle,
    ManageToggle,
    QuickChatToggle,
}

/// The two edges of a key combination.
#[derive(Clone, Copy, Debug, PartialEq, Eq, Structural)]
pub enum KeyEdge {
    Pressed,
    Released,
}

/// A key combination and the action it triggers.
#[derive(Debug, PartialEq, Eq)]
pub struct ShortcutBinding {
    pub action: ActionId,
    pub modifiers: ModifierSet,
    pub key: KeyCode,
}

/// A binding as a plain value.
pub struct BindingView {
    pub action: ActionId,
    pub modifiers: ModifierSet,
    pub key: Seq<char>,
}

impl View for ShortcutBinding {
    type V = BindingView;

    open spec fn view(&self) -> BindingView {
        BindingView { action: self.action, modifiers: self.modifiers, key: self.key@ }
    }
}

impl Clone for ShortcutBinding {
    fn clone(&self) -> (copy: ShortcutBinding)
        ensures
            copy@ == self@,
    {
        ShortcutBinding { action: self.action, modifiers: self.modifiers, key: self.key.clone() }
    }
}

/// A command for the platform's hotkey facility.
#[derive(Debug, PartialEq, Eq)]
pub enum HotkeyCommand {
    /// Revoke the registration of a combination. A failure is of no
    /// consequence: the platform may have dropped the registration already.
    Unregister(ShortcutBinding),
    /// Register a combination, to fire its action when it is pressed.
    Register(ShortcutBinding),
}

/// A command as a plain value.
pub enum CommandView {
    Unregister(BindingView),
    Register(BindingView),
}

impl View for HotkeyCommand {
    type V = CommandView;

    open spec fn view(&self) -> CommandView {
        match *self {
            HotkeyCommand::Unregister(binding) => CommandView::Unregister(binding@),
            HotkeyCommand::Register(binding) => CommandView::Register(binding@),
        }
    }
}

/// The views of a list of commands.
pub open spec fn command_views(commands: Seq<HotkeyCommand>) -> Seq<CommandView> {
    Seq::new(commands.len(), |i: int| commands[i]@)
}

/// The name by which a request refers to an action.
pub open spec fn action_named(name: Seq<char>) -> Option<ActionId> {
    if name == "overlay"@ {
        Some(ActionId::OverlayToggle)
    } else if name == "ghost"@ {
        Some(ActionId::GhostToggle)
    } else if name == "manage"@ {
        Some(ActionId::ManageToggle)
    } else if name == "quickChat"@ {
        Some(ActionId::QuickChatToggle)
    } else {
        None
    }
}

/// The binding that an action has at startup. The manage toggle has none: it
/// is unbound until it is first rebound.
pub open spec fn default_binding(action: ActionId) -> Option<BindingView> {
    let shift = ModifierSet { shift: true, ctrl: false, alt: false, meta: false };
    match action {
        ActionId::OverlayToggle => Some(BindingView { action, modifiers: shift, key: "Tab"@ }),
        ActionId::GhostToggle => Some(BindingView { action, modifiers: shift, key: "KeyP"@ }),
        ActionId::ManageToggle => None,
        ActionId::QuickChatToggle => Some(BindingView { action, modifiers: shift, key: "Enter"@ }),
    }
}

/// The binding that a rebind request asks for, where its key names a code.
pub open spec fn candidate(action: ActionId, key: Seq<char>, modifiers: Seq<String>) -> Option<
    BindingView,
> {
    match key_code_of(key) {
        Some(code) => Some(BindingView { action, modifiers: modifier_set(modifiers), key: code }),
        None => None,
    }
}

/// The commands that replace `current` by `wanted`: none where the two are
/// the same; else the old registration is revoked, if there is one, and the
/// new one is made.
pub open spec fn rebind_commands(current: Option<BindingView>, wanted: BindingView) -> Seq<
    CommandView,
> {
    match current {
        Some(old) => if old == wanted {
            Seq::empty()
        } else {
            seq![CommandView::Unregister(old), CommandView::Register(wanted)]
        },
        None => seq![CommandView::Register(wanted)],
    }
}

impl ActionId {
    /// The action of the state machine that a shortcut for `self` fires.
    pub open spec fn fires(self) -> Action {
        match self {
            ActionId::OverlayToggle => Action::ToggleOverlay,
            ActionId::GhostToggle => Action::ToggleGhost,
            ActionId::ManageToggle => Action::ToggleManage,
            ActionId::QuickChatToggle => Action::ToggleQuickChat,
        }
    }

    /// The action of the state machine that a shortcut for `self` fires.
    pub fn action(&self) -> (action: Action)
        ensures
            action == self.fires(),
    {
        match self {
            ActionId::OverlayToggle => Action::ToggleOverlay,
            ActionId::GhostToggle => Action::ToggleGhost,
            ActionId::ManageToggle => Action::ToggleManage,
            ActionId::QuickChatToggle => Action::ToggleQuickChat,
        }
    }

    /// Reads the name of an action in a request: `overlay`, `ghost`, `manage`
    /// or `quickChat`.
    pub fn from_name(name: &str) -> (action: Option<ActionId>)
        ensures
            action == action_named(name@),
    {
        let text = chars_of(name);
        if same_chars(&text, &chars_of("overlay")) {
            Some(ActionId::OverlayToggle)
        } else if same_chars(&text, &chars_of("ghost")) {
            Some(ActionId::GhostToggle)
        } else if same_chars(&text, &chars_of("manage")) {
            Some(ActionId::ManageToggle)
        } else if same_chars(&text, &chars_of("quickChat")) {
            Some(ActionId::QuickChatToggle)
        } else {
            None
        }
    }
}

impl ShortcutBinding {
    /// Whether two bindings are the same combination for the same action.
    pub fn same_as(&self, other: &ShortcutBinding) -> (same: bool)
        ensures
            same == (self@ == other@),
    {
        self.action == other.action && self.modifiers == other.modifiers && self.key.same_as(
            &other.key,
        )
    }
}

/// The current binding of each action.
#[derive(Debug, PartialEq, Eq)]
pub struct ShortcutRegistry {
    overlay: Option<ShortcutBinding>,
    ghost_mode: Option<ShortcutBinding>,
    manage: Option<ShortcutBinding>,
    quick_chat: Option<ShortcutBinding>,
}

impl ShortcutRegistry {
    /// The binding that is kept for an action.
    pub closed spec fn slot(self, action: ActionId) -> Option<ShortcutBinding> {
        match action {
            ActionId::OverlayToggle => self.overlay,
            ActionId::GhostToggle => self.ghost_mode,
            ActionId::ManageToggle => self.manage,
            ActionId::QuickChatToggle => self.quick_chat,
        }
    }

    /// The binding that is current for an action, if it has one.
    pub open spec fn current(self, action: ActionId) -> Option<BindingView> {
        match self.slot(action) {
            Some(binding) => Some(binding@),
            None => None,
        }
    }

    /// Every binding is kept under the action that it triggers.
    pub open spec fn wf(self) -> bool {
        forall|action: ActionId| (#[trigger] self.current(action)) matches Some(binding)
            ==> binding.action == action
    }

    /// The registry at startup, with the default binding of each action.
    pub fn new() -> (registry: ShortcutRegistry)
        ensures
            forall|action: ActionId| #[trigger] registry.current(action) == default_binding(action),
            registry.wf(),
    {
        let shift = ModifierSet { shift: true, ctrl: false, alt: false, meta: false };
        ShortcutRegistry {
            overlay: Some(
                ShortcutBinding {
                    action: ActionId::OverlayToggle,
                    modifiers: shift,
                    key: KeyCode { name: String::from_str("Tab") },
                },
            ),
            ghost_mode: Some(
                ShortcutBinding {
                    action: ActionId::GhostToggle,
                    modifiers: shift,
                    key: KeyCode { name: String::from_str("KeyP") },
                },
            ),
            manage: None,
            quick_chat: Some(
                ShortcutBinding {
                    action: ActionId::QuickChatToggle,
                    modifiers: shift,
                    key: KeyCode { name: String::from_str("Enter") },
                },
            ),
        }
    }

    /// The binding that is current for an action.
    pub fn binding(&self, action: ActionId) -> (binding: Option<ShortcutBinding>)
        ensures
            match binding {
                Some(found) => self.current(action) == Some(found@),
                None => self.current(action) is None,
            },
    {
        let slot = match action {
            ActionId::OverlayToggle => &self.overlay,
            ActionId::GhostToggle => &self.ghost_mode,
            ActionId::ManageToggle => &self.manage,
            ActionId::QuickChatToggle => &self.quick_chat,
        };
        match slot {
            Some(found) => Some(found.clone()),
            None => None,
        }
    }

    /// Answers a rebind request with the commands for the hotkey facility.
    ///
    /// The request fails with `InvalidKeyCode` where its key names no code.
    /// Where it asks for the binding that is current already, there is
    /// nothing to do. Else the old registration is to be revoked, if there is
    /// one, and the new combination to be registered; how that registration
    /// went is reported to `commit_rebind`. The registry itself is not
    /// changed by the request.
    pub fn plan_rebind(&self, action: ActionId, key: &str, modifiers: Vec<String>) -> (plan: Result<
        Vec<HotkeyCommand>,
        ShortcutError,
    >)
        ensures
            match plan {
                Ok(commands) => candidate(action, key@, modifiers@) matches Some(wanted)
                    && command_views(commands@) == rebind_commands(self.current(action), wanted),
                Err(error) => candidate(action, key@, modifiers@) is None && error
                    == ShortcutError::InvalidKeyCode,
            },
    {
        let mods = parse_modifiers(modifiers);
        let code = match parse_key_code(key) {
            Ok(code) => code,
            Err(error) => {
                return Err(error);
            },
        };
        let wanted = ShortcutBinding { action, modifiers: mods, key: code };
        let mut commands: Vec<HotkeyCommand> = Vec::new();
        match self.binding(action) {
            Some(old) => {
                if !old.same_as(&wanted) {
                    commands.push(HotkeyCommand::Unregister(old));
                    commands.push(HotkeyCommand::Register(wanted));
                }
            },
            None => {
                commands.push(HotkeyCommand::Register(wanted));
            },
        }
        assert(command_views(commands@) =~= rebind_commands(self.current(action), wanted@));
        Ok(commands)
    }

    /// Takes note of how the registration of a new binding went.
    ///
    /// Where the platform took the combination, the binding becomes the
    /// current one of its action. Where it refused, the registry stays as it
    /// was and the request fails with `PlatformRegistrationFailed`. No other
    /// action's binding changes either way.
    pub fn commit_rebind(&mut self, binding: ShortcutBinding, registered: bool) -> (outcome: Result<
        (),
        ShortcutError,
    >)
        ensures
            registered ==> outcome is Ok && forall|action: ActionId|
                #[trigger] final(self).current(action) == if action == binding.action {
                    Some(binding@)
                } else {
                    old(self).current(action)
                },
            !registered ==> outcome == Err::<(), ShortcutError>(
                ShortcutError::PlatformRegistrationFailed,
            ) && *final(self) == *old(self),
            old(self).wf() ==> final(self).wf(),
    {
        if !registered {
            return Err(ShortcutError::PlatformRegistrationFailed);
        }
        match binding.action {
            ActionId::OverlayToggle => {
                self.overlay = Some(binding);
            },
            ActionId::GhostToggle => {
                self.ghost_mode = Some(binding);
            },
            ActionId::ManageToggle => {
                self.manage = Some(binding);
            },
            ActionId::QuickChatToggle => {
                self.quick_chat = Some(binding);
            },
        }
        assert(old(self).wf() ==> self.wf()) by {
            if old(self).wf() {
                assert forall|action: ActionId|
                    (#[trigger] self.current(action)) is Some implies self.current(
                    action,
                )->0.action == action by {
                    assert(action != binding.action ==> self.current(action) == old(self).current(
                        action,
                    ));
                }
            }
        }
        Ok(())
    }
}

/// The rebind request for the overlay toggle.
pub fn update_overlay_shortcut(registry: &ShortcutRegistry, key: String, modifiers: Vec<String>) -> (plan:
    Result<Vec<HotkeyCommand>, ShortcutError>)
    ensures
        match plan {
            Ok(commands) => candidate(ActionId::OverlayToggle, key@, modifiers@) matches Some(
                wanted,
            ) && command_views(commands@) == rebind_commands(
                registry.current(ActionId::OverlayToggle),
                wanted,
            ),
            Err(error) => candidate(ActionId::OverlayToggle, key@, modifiers@) is None && error
                == ShortcutError::InvalidKeyCode,
        },
{
    registry.plan_rebind(ActionId::OverlayToggle, key.as_str(), modifiers)
}

/// The rebind request for the ghost toggle.
pub fn update_ghost_shortcut(registry: &ShortcutRegistry, key: String, modifiers: Vec<String>) -> (plan:
    Result<Vec<HotkeyCommand>, ShortcutError>)
    ensures
        match plan {
            Ok(commands) => candidate(ActionId::GhostToggle, key@, modifiers@) matches Some(wanted)
                && command_views(commands@) == rebind_commands(
                registry.current(ActionId::GhostToggle),
                wanted,
            ),
            Err(error) => candidate(ActionId::GhostToggle, key@, modifiers@) is None && error
                == ShortcutError::InvalidKeyCode,
        },
{
    registry.plan_rebind(ActionId::GhostToggle, key.as_str(), modifiers)
}

/// The rebind request for the manage toggle.
pub fn update_manage_shortcut(registry: &ShortcutRegistry, key: String, modifiers: Vec<String>) -> (plan:
    Result<Vec<HotkeyCommand>, ShortcutError>)
    ensures
        match plan {
            Ok(commands) => candidate(ActionId::ManageToggle, key@, modifiers@) matches Some(wanted)
                && command_views(commands@) == rebind_commands(
                registry.current(ActionId::ManageToggle),
                wanted,
            ),
            Err(error) => candidate(ActionId::ManageToggle, key@, modifiers@) is None && error
                == ShortcutError::InvalidKeyCode,
        },
{
    registry.plan_rebind(ActionId::ManageToggle, key.as_str(), modifiers)
}

/// The rebind request for the quick-chat toggle.
pub fn update_quick_chat_shortcut(
    registry: &ShortcutRegistry,
    key: String,
    modifiers: Vec<String>,
) -> (plan: Result<Vec<HotkeyCommand>, ShortcutError>)
    ensures
        match plan {
            Ok(commands) => candidate(ActionId::QuickChatToggle, key@, modifiers@) matches Some(
                wanted,
            ) && command_views(commands@) == rebind_commands(
                registry.current(ActionId::QuickChatToggle),
                wanted,
            ),
            Err(error) => candidate(ActionId::QuickChatToggle, key@, modifiers@) is None && error
                == ShortcutError::InvalidKeyCode,
        },
{
    registry.plan_rebind(ActionId::QuickChatToggle, key.as_str(), modifiers)
}

/// What a registered combination does when the platform reports an edge of
/// it: the press fires the action, the release does nothing.
pub fn on_fire(state: &mut OverlayState, action: ActionId, edge: KeyEdge) -> (effects: Vec<Effect>)
    ensures
        edge is Pressed ==> *final(state) == old(state).next(action.fires()) && effects@ == old(
            state,
        ).effects(action.fires()),
        edge is Released ==> *final(state) == *old(state) && effects@ == Seq::<Effect>::empty(),
{
    match edge {
        KeyEdge::Pressed => dispatch(state, action.action()),
        KeyEdge::Released => Vec::new(),
    }
}

/// The combinations that are registered with the platform after it has
/// carried out a list of commands, each with success.
pub open spec fn registered_after(registered: Set<BindingView>, commands: Seq<CommandView>) -> Set<
    BindingView,
>
    decreases commands.len(),
{
    if commands.len() == 0 {
        registered
    } else {
        let before = registered_after(registered, commands.drop_last());
        match commands.last() {
            CommandView::Unregister(binding) => before.remove(binding),
            CommandView::Register(binding) => before.insert(binding),
        }
    }
}

/// Rebinding an action to the binding that it has is a no-op: the request
/// yields no command, so that the platform's registrations stay as they are.
pub proof fn lemma_rebind_to_current_is_noop(
    registry: ShortcutRegistry,
    registered: Set<BindingView>,
    action: ActionId,
    key: Seq<char>,
    modifiers: Seq<String>,
)
    requires
        candidate(action, key, modifiers) is Some,
        registry.current(action) == candidate(action, key, modifiers),
    ensures
        rebind_commands(registry.current(action), candidate(action, key, modifiers)->0)
            == Seq::<CommandView>::empty(),
        registered_after(
            registered,
            rebind_commands(registry.current(action), candidate(action, key, modifiers)->0),
        ) == registered,
{
}

/// A rebind that changes the binding revokes the old combination before it
/// registers the new one, and registers exactly one combination: once the
/// platform has carried the commands out, the new combination is registered
/// and the old one is not.
pub proof fn lemma_rebind_replaces_registration(
    registered: Set<BindingView>,
    current: Option<BindingView>,
    wanted: BindingView,
)
    requires
        current != Some(wanted),
    ensures
        registered_after(registered, rebind_commands(current, wanted)).contains(wanted),
        current matches Some(old) ==> !registered_after(
            registered,
            rebind_commands(current, wanted),
        ).contains(old),
        rebind_commands(current, wanted).last() == CommandView::Register(wanted),
{
    reveal_with_fuel(registered_after, 3);
    let commands = rebind_commands(current, wanted);
    if current is Some {
        assert(commands.drop_last() =~= seq![CommandView::Unregister(current->0)]);
        assert(commands.drop_last().drop_last() =~= Seq::<CommandView>::empty());
    } else {
        assert(commands.drop_last() =~= Seq::<CommandView>::empty());
    }
}

} // verus!
