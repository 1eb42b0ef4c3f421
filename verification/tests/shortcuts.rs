use overlay_control::error::ShortcutError;
use overlay_control::keys::{candidates_for, parse_key_code, parse_modifiers, KeyCode, ModifierSet};
use overlay_control::mode::{Action, Effect, OverlayMode, OverlayState};
use overlay_control::registry::{
    on_fire, update_ghost_shortcut, update_manage_shortcut, update_overlay_shortcut,
    update_quick_chat_shortcut, ActionId, HotkeyCommand, KeyEdge, ShortcutBinding,
    ShortcutRegistry,
};

fn names(list: &[&str]) -> Vec<String> {
    list.iter().map(|s| s.to_string()).collect()
}

fn mods(shift: bool, ctrl: bool, alt: bool, meta: bool) -> ModifierSet {
    ModifierSet { shift, ctrl, alt, meta }
}

fn code(name: &str) -> KeyCode {
    KeyCode { name: name.to_string() }
}

fn binding(action: ActionId, modifiers: ModifierSet, key: &str) -> ShortcutBinding {
    ShortcutBinding { action, modifiers, key: code(key) }
}

fn texts(list: Vec<Vec<char>>) -> Vec<String> {
    list.into_iter().map(|c| c.into_iter().collect()).collect()
}

/// A stand-in for the hotkey facility: it counts the calls and keeps what is
/// registered; it refuses the combinations in `taken`.
struct Platform {
    registered: Vec<ShortcutBinding>,
    taken: Vec<String>,
    unregister_calls: usize,
    register_calls: usize,
}

impl Platform {
    fn new(registry: &ShortcutRegistry) -> Platform {
        let mut registered = Vec::new();
        for action in [
            ActionId::OverlayToggle,
            ActionId::GhostToggle,
            ActionId::ManageToggle,
            ActionId::QuickChatToggle,
        ] {
            if let Some(b) = registry.binding(action) {
                registered.push(b);
            }
        }
        Platform { registered, taken: Vec::new(), unregister_calls: 0, register_calls: 0 }
    }

    fn rebind(
        &mut self,
        registry: &mut ShortcutRegistry,
        action: &str,
        key: &str,
        modifiers: &[&str],
    ) -> Result<(), ShortcutError> {
        let action = ActionId::from_name(action).unwrap();
        let commands = registry.plan_rebind(action, key, names(modifiers))?;
        for command in commands {
            match command {
                HotkeyCommand::Unregister(old) => {
                    self.unregister_calls += 1;
                    self.registered.retain(|b| *b != old);
                }
                HotkeyCommand::Register(new) => {
                    self.register_calls += 1;
                    let accepted = !self.taken.contains(&new.key.name);
                    if accepted {
                        self.registered.push(new.clone());
                    }
                    registry.commit_rebind(new, accepted)?;
                }
            }
        }
        Ok(())
    }
}

#[test]
fn modifiers_by_name() {
    assert_eq!(parse_modifiers(names(&["Shift"])), mods(true, false, false, false));
    assert_eq!(parse_modifiers(names(&["Ctrl"])), mods(false, true, false, false));
    assert_eq!(parse_modifiers(names(&["Control"])), mods(false, true, false, false));
    assert_eq!(parse_modifiers(names(&["Alt"])), mods(false, false, true, false));
    assert_eq!(parse_modifiers(names(&["Meta"])), mods(false, false, false, true));
    assert_eq!(parse_modifiers(names(&["Super"])), mods(false, false, false, true));
    assert_eq!(parse_modifiers(names(&["Command"])), mods(false, false, false, true));
    assert_eq!(parse_modifiers(names(&[])), mods(false, false, false, false));
}

#[test]
fn unknown_modifier_names_are_ignored() {
    assert_eq!(parse_modifiers(names(&["Hyper", "", "shift", "SHIFT", " Shift"])), mods(false, false, false, false));
    assert_eq!(parse_modifiers(names(&["Hyper", "Alt", "Fn"])), mods(false, false, true, false));
}

#[test]
fn modifier_order_and_repetition_make_no_difference() {
    let a = parse_modifiers(names(&["Shift", "Ctrl", "Alt"]));
    let b = parse_modifiers(names(&["Alt", "Control", "Shift", "Shift", "Ctrl"]));
    assert_eq!(a, b);
    assert_eq!(a, mods(true, true, true, false));
    assert_eq!(
        parse_modifiers(names(&["Command", "Meta", "Super", "Alt", "Control", "Shift"])),
        mods(true, true, true, true)
    );
}

#[test]
fn key_code_from_a_code_name() {
    assert_eq!(parse_key_code("KeyP"), Ok(code("KeyP")));
    assert_eq!(parse_key_code("Tab"), Ok(code("Tab")));
    assert_eq!(parse_key_code("Enter"), Ok(code("Enter")));
    assert_eq!(parse_key_code("F5"), Ok(code("F5")));
    assert_eq!(parse_key_code("Digit7"), Ok(code("Digit7")));
}

#[test]
fn key_code_from_a_single_character() {
    assert_eq!(parse_key_code("p"), Ok(code("KeyP")));
    assert_eq!(parse_key_code("P"), Ok(code("KeyP")));
    assert_eq!(parse_key_code("a"), Ok(code("KeyA")));
    assert_eq!(parse_key_code("z"), Ok(code("KeyZ")));
    assert_eq!(parse_key_code("0"), Ok(code("Digit0")));
    assert_eq!(parse_key_code("9"), Ok(code("Digit9")));
}

#[test]
fn key_code_from_a_prefixed_letter() {
    assert_eq!(parse_key_code("Keyp"), Ok(code("KeyP")));
    assert_eq!(parse_key_code("Keyq"), Ok(code("KeyQ")));
    assert_eq!(parse_key_code("keyp"), Err(ShortcutError::InvalidKeyCode));
    assert_eq!(parse_key_code("Key1"), Err(ShortcutError::InvalidKeyCode));
}

#[test]
fn key_code_ignores_surrounding_white_space() {
    assert_eq!(parse_key_code("  p "), Ok(code("KeyP")));
    assert_eq!(parse_key_code("\tEnter\n"), Ok(code("Enter")));
    assert_eq!(parse_key_code("\u{a0}Tab\u{3000}"), Ok(code("Tab")));
    assert_eq!(parse_key_code("Key P"), Err(ShortcutError::InvalidKeyCode));
}

#[test]
fn key_code_aliases_give_the_canonical_name() {
    assert_eq!(parse_key_code("VolumeUp"), Ok(code("AudioVolumeUp")));
    assert_eq!(parse_key_code("AudioVolumeUp"), Ok(code("AudioVolumeUp")));
    assert_eq!(parse_key_code("OSLeft"), Ok(code("MetaLeft")));
}

#[test]
fn invalid_key_codes() {
    assert_eq!(parse_key_code(""), Err(ShortcutError::InvalidKeyCode));
    assert_eq!(parse_key_code("   "), Err(ShortcutError::InvalidKeyCode));
    assert_eq!(parse_key_code("??"), Err(ShortcutError::InvalidKeyCode));
    assert_eq!(parse_key_code("?"), Err(ShortcutError::InvalidKeyCode));
    assert_eq!(parse_key_code("\u{e9}"), Err(ShortcutError::InvalidKeyCode));
    assert_eq!(parse_key_code("Key\u{e9}"), Err(ShortcutError::InvalidKeyCode));
    assert_eq!(parse_key_code("pp"), Err(ShortcutError::InvalidKeyCode));
    assert_eq!(parse_key_code("tab"), Err(ShortcutError::InvalidKeyCode));
}

#[test]
fn candidates_in_order() {
    assert_eq!(texts(candidates_for("p")), vec!["p", "KeyP"]);
    assert_eq!(texts(candidates_for(" Q ")), vec!["Q", "KeyQ"]);
    assert_eq!(texts(candidates_for("7")), vec!["7", "Digit7"]);
    assert_eq!(texts(candidates_for("Keyp")), vec!["Keyp", "KeyP"]);
    assert_eq!(texts(candidates_for("KeyP")), vec!["KeyP", "KeyP"]);
    assert_eq!(texts(candidates_for("Key1")), vec!["Key1", "Key1"]);
    assert_eq!(texts(candidates_for("Tab")), vec!["Tab"]);
    assert_eq!(texts(candidates_for("?")), vec!["?"]);
    assert_eq!(texts(candidates_for("Key\u{e9}")), vec!["Key\u{e9}"]);
    assert_eq!(texts(candidates_for("keyp")), vec!["keyp"]);
    assert!(candidates_for("").is_empty());
    assert!(candidates_for(" \t ").is_empty());
}

#[test]
fn default_bindings() {
    let r = ShortcutRegistry::new();
    let shift = mods(true, false, false, false);
    assert_eq!(r.binding(ActionId::OverlayToggle), Some(binding(ActionId::OverlayToggle, shift, "Tab")));
    assert_eq!(r.binding(ActionId::GhostToggle), Some(binding(ActionId::GhostToggle, shift, "KeyP")));
    assert_eq!(r.binding(ActionId::QuickChatToggle), Some(binding(ActionId::QuickChatToggle, shift, "Enter")));
    assert_eq!(r.binding(ActionId::ManageToggle), None);
}

#[test]
fn default_key_codes_are_code_names() {
    let r = ShortcutRegistry::new();
    for action in [ActionId::OverlayToggle, ActionId::GhostToggle, ActionId::QuickChatToggle] {
        let b = r.binding(action).unwrap();
        assert_eq!(parse_key_code(&b.key.name), Ok(b.key.clone()));
    }
}

#[test]
fn action_names() {
    assert_eq!(ActionId::from_name("overlay"), Some(ActionId::OverlayToggle));
    assert_eq!(ActionId::from_name("ghost"), Some(ActionId::GhostToggle));
    assert_eq!(ActionId::from_name("manage"), Some(ActionId::ManageToggle));
    assert_eq!(ActionId::from_name("quickChat"), Some(ActionId::QuickChatToggle));
    assert_eq!(ActionId::from_name("quickchat"), None);
    assert_eq!(ActionId::from_name(""), None);
    assert_eq!(ActionId::from_name("Overlay"), None);
    assert_eq!(ActionId::OverlayToggle.action(), Action::ToggleOverlay);
    assert_eq!(ActionId::GhostToggle.action(), Action::ToggleGhost);
    assert_eq!(ActionId::ManageToggle.action(), Action::ToggleManage);
    assert_eq!(ActionId::QuickChatToggle.action(), Action::ToggleQuickChat);
}

#[test]
fn rebinding_replaces_the_old_registration() {
    let r = ShortcutRegistry::new();
    let shift = mods(true, false, false, false);
    let plan = r.plan_rebind(ActionId::OverlayToggle, "p", names(&["Shift", "Ctrl"])).unwrap();
    assert_eq!(
        plan,
        vec![
            HotkeyCommand::Unregister(binding(ActionId::OverlayToggle, shift, "Tab")),
            HotkeyCommand::Register(binding(
                ActionId::OverlayToggle,
                mods(true, true, false, false),
                "KeyP"
            )),
        ]
    );
    assert_eq!(r, ShortcutRegistry::new());
}

#[test]
fn rebinding_an_unbound_action_only_registers() {
    let mut r = ShortcutRegistry::new();
    let plan = r.plan_rebind(ActionId::ManageToggle, "m", names(&["Alt"])).unwrap();
    let wanted = binding(ActionId::ManageToggle, mods(false, false, true, false), "KeyM");
    assert_eq!(plan, vec![HotkeyCommand::Register(wanted.clone())]);
    assert_eq!(r.commit_rebind(wanted.clone(), true), Ok(()));
    assert_eq!(r.binding(ActionId::ManageToggle), Some(wanted));
    assert_eq!(r.binding(ActionId::OverlayToggle), ShortcutRegistry::new().binding(ActionId::OverlayToggle));
    assert_eq!(r.binding(ActionId::GhostToggle), ShortcutRegistry::new().binding(ActionId::GhostToggle));
    assert_eq!(r.binding(ActionId::QuickChatToggle), ShortcutRegistry::new().binding(ActionId::QuickChatToggle));
}

#[test]
fn rebinding_to_the_current_binding_does_nothing() {
    let r = ShortcutRegistry::new();
    assert_eq!(r.plan_rebind(ActionId::OverlayToggle, "Tab", names(&["Shift"])), Ok(vec![]));
    assert_eq!(r.plan_rebind(ActionId::GhostToggle, "p", names(&["Shift", "Shift"])), Ok(vec![]));
    assert_eq!(r.plan_rebind(ActionId::GhostToggle, " Keyp", names(&["Shift", "Hyper"])), Ok(vec![]));
    assert_eq!(r.plan_rebind(ActionId::QuickChatToggle, "Enter", names(&["Shift"])), Ok(vec![]));
}

#[test]
fn same_combination_for_another_action_is_another_binding() {
    let r = ShortcutRegistry::new();
    let plan = r.plan_rebind(ActionId::OverlayToggle, "p", names(&["Shift"])).unwrap();
    assert_eq!(plan.len(), 2);
}

#[test]
fn rebind_twice_with_the_same_arguments_makes_no_platform_call_the_second_time() {
    let mut r = ShortcutRegistry::new();
    let mut p = Platform::new(&r);
    assert_eq!(p.rebind(&mut r, "overlay", "p", &["Shift"]), Ok(()));
    assert_eq!(p.unregister_calls, 1);
    assert_eq!(p.register_calls, 1);
    let registered = p.registered.clone();
    let bound = r.binding(ActionId::OverlayToggle);
    assert_eq!(bound, Some(binding(ActionId::OverlayToggle, mods(true, false, false, false), "KeyP")));

    assert_eq!(p.rebind(&mut r, "overlay", "p", &["Shift"]), Ok(()));
    assert_eq!(p.unregister_calls, 1);
    assert_eq!(p.register_calls, 1);
    assert_eq!(p.registered, registered);
    assert_eq!(r.binding(ActionId::OverlayToggle), bound);
}

#[test]
fn invalid_key_code_leaves_binding_and_platform_alone() {
    let mut r = ShortcutRegistry::new();
    let mut p = Platform::new(&r);
    let registered = p.registered.clone();
    assert_eq!(p.rebind(&mut r, "ghost", "no such key", &["Shift"]), Err(ShortcutError::InvalidKeyCode));
    assert_eq!(r, ShortcutRegistry::new());
    assert_eq!(p.registered, registered);
    assert_eq!(p.unregister_calls + p.register_calls, 0);
}

#[test]
fn platform_refusal_leaves_the_binding_as_it_was() {
    let mut r = ShortcutRegistry::new();
    let mut p = Platform::new(&r);
    p.taken.push("F12".to_string());
    assert_eq!(
        p.rebind(&mut r, "quickChat", "F12", &["Ctrl"]),
        Err(ShortcutError::PlatformRegistrationFailed)
    );
    assert_eq!(r, ShortcutRegistry::new());
    assert_eq!(p.register_calls, 1);
}

#[test]
fn commit_reports_refusal() {
    let mut r = ShortcutRegistry::new();
    let wanted = binding(ActionId::GhostToggle, mods(false, true, false, false), "KeyG");
    assert_eq!(r.commit_rebind(wanted.clone(), false), Err(ShortcutError::PlatformRegistrationFailed));
    assert_eq!(r, ShortcutRegistry::new());
    assert_eq!(r.commit_rebind(wanted.clone(), true), Ok(()));
    assert_eq!(r.binding(ActionId::GhostToggle), Some(wanted));
    assert_eq!(r.binding(ActionId::OverlayToggle), ShortcutRegistry::new().binding(ActionId::OverlayToggle));
}

#[test]
fn rebind_entry_points_per_action() {
    let r = ShortcutRegistry::new();
    let shift = mods(true, false, false, false);
    let alt = mods(false, false, true, false);
    assert_eq!(
        update_overlay_shortcut(&r, "o".to_string(), names(&["Alt"])),
        Ok(vec![
            HotkeyCommand::Unregister(binding(ActionId::OverlayToggle, shift, "Tab")),
            HotkeyCommand::Register(binding(ActionId::OverlayToggle, alt, "KeyO")),
        ])
    );
    assert_eq!(
        update_ghost_shortcut(&r, "g".to_string(), names(&["Alt"])),
        Ok(vec![
            HotkeyCommand::Unregister(binding(ActionId::GhostToggle, shift, "KeyP")),
            HotkeyCommand::Register(binding(ActionId::GhostToggle, alt, "KeyG")),
        ])
    );
    assert_eq!(
        update_manage_shortcut(&r, "m".to_string(), names(&["Alt"])),
        Ok(vec![HotkeyCommand::Register(binding(ActionId::ManageToggle, alt, "KeyM"))])
    );
    assert_eq!(
        update_quick_chat_shortcut(&r, "Enter".to_string(), names(&["Shift"])),
        Ok(vec![])
    );
    assert_eq!(
        update_quick_chat_shortcut(&r, "nothing".to_string(), names(&["Shift"])),
        Err(ShortcutError::InvalidKeyCode)
    );
    assert_eq!(update_overlay_shortcut(&r, String::new(), names(&[])), Err(ShortcutError::InvalidKeyCode));
    assert_eq!(update_ghost_shortcut(&r, "#".to_string(), names(&[])), Err(ShortcutError::InvalidKeyCode));
    assert_eq!(update_manage_shortcut(&r, "mm".to_string(), names(&[])), Err(ShortcutError::InvalidKeyCode));
}

#[test]
fn bindings_compare_by_action_modifiers_and_key() {
    let a = binding(ActionId::OverlayToggle, mods(true, false, false, false), "KeyP");
    assert!(a.same_as(&a.clone()));
    assert!(!a.same_as(&binding(ActionId::GhostToggle, mods(true, false, false, false), "KeyP")));
    assert!(!a.same_as(&binding(ActionId::OverlayToggle, mods(true, true, false, false), "KeyP")));
    assert!(!a.same_as(&binding(ActionId::OverlayToggle, mods(true, false, false, false), "KeyQ")));
    assert!(code("Tab").same_as(&code("Tab")));
    assert!(!code("Tab").same_as(&code("Enter")));
}

#[test]
fn only_the_press_fires() {
    let mut s = OverlayState::new();
    let e = on_fire(&mut s, ActionId::OverlayToggle, KeyEdge::Released);
    assert!(e.is_empty());
    assert_eq!(s, OverlayState::new());
    let e = on_fire(&mut s, ActionId::OverlayToggle, KeyEdge::Pressed);
    assert_eq!(e.len(), 4);
    assert_eq!(e[0], Effect::Show);
    assert_eq!(s.mode, OverlayMode::Active);
    let e = on_fire(&mut s, ActionId::GhostToggle, KeyEdge::Pressed);
    assert_eq!(s.mode, OverlayMode::Ghosted);
    assert_eq!(e[0], Effect::SetClickThrough(true));
    let e = on_fire(&mut s, ActionId::QuickChatToggle, KeyEdge::Released);
    assert!(e.is_empty());
    assert!(!s.quick_chat);
    on_fire(&mut s, ActionId::QuickChatToggle, KeyEdge::Pressed);
    assert!(s.quick_chat);
    on_fire(&mut s, ActionId::ManageToggle, KeyEdge::Pressed);
    assert_eq!(s.mode, OverlayMode::Ghosted);
    assert!(s.quick_chat);
}

#[test]
fn error_messages() {
    assert_eq!(ShortcutError::InvalidKeyCode.message(), "Invalid key code");
    assert_eq!(ShortcutError::PlatformRegistrationFailed.message(), "Shortcut registration failed");
}
