use inputbot::{
    should_continue, start_handling_input_events, stop_handling_input_events, BlockInput,
    ButtonStates, Dispatch, HookChange, HookChanges, KeybdKey, MouseButton, Registry,
};
use std::collections::HashMap;
use std::sync::Arc;

type Reg = Registry<u32, fn() -> BlockInput>;

fn block() -> BlockInput {
    BlockInput::Block
}

fn dont_block() -> BlockInput {
    BlockInput::DontBlock
}

fn spawned(d: Dispatch<'_, u32, fn() -> BlockInput>) -> Option<u32> {
    match d {
        Dispatch::Spawn(h) => Some(*h),
        _ => None,
    }
}

#[test]
fn bind_then_unbind_leaves_no_bind_and_no_hook() {
    let mut reg = Reg::new();
    let started = start_handling_input_events(&mut reg);
    assert_eq!(started, HookChanges { keyboard: HookChange::Keep, mouse: HookChange::Keep });
    assert_eq!(KeybdKey::AKey.bind(&mut reg, 1), HookChange::Install);
    assert!(KeybdKey::AKey.is_bound(&reg));
    assert_eq!(KeybdKey::AKey.unbind(&mut reg), HookChange::Uninstall);
    assert!(!KeybdKey::AKey.is_bound(&reg));
    assert!(!should_continue(&reg, true));
    assert!(should_continue(&reg, false));
}

#[test]
fn unbinding_an_unbound_key_changes_nothing() {
    let mut reg = Reg::new();
    start_handling_input_events(&mut reg);
    assert_eq!(KeybdKey::BKey.bind(&mut reg, 1), HookChange::Install);
    assert_eq!(KeybdKey::CKey.unbind(&mut reg), HookChange::Keep);
    assert!(KeybdKey::BKey.is_bound(&reg));
    assert_eq!(KeybdKey::BKey.unbind(&mut reg), HookChange::Uninstall);
}

#[test]
fn hooks_follow_the_running_flag() {
    let mut reg = Reg::new();
    assert_eq!(MouseButton::LeftButton.bind(&mut reg, 3), HookChange::Keep);
    assert!(!should_continue(&reg, false));
    let started = start_handling_input_events(&mut reg);
    assert_eq!(started, HookChanges { keyboard: HookChange::Keep, mouse: HookChange::Install });
    assert!(should_continue(&reg, true));
    let stopped = stop_handling_input_events(&mut reg);
    assert_eq!(stopped, HookChanges { keyboard: HookChange::Keep, mouse: HookChange::Uninstall });
    assert!(MouseButton::LeftButton.is_bound(&reg));
    assert!(!should_continue(&reg, false));
}

#[test]
fn release_binds_keep_the_hook() {
    let mut reg = Reg::new();
    start_handling_input_events(&mut reg);
    assert_eq!(KeybdKey::AKey.bind_release(&mut reg, 5), HookChange::Install);
    assert!(!KeybdKey::AKey.is_bound(&reg));
    assert_eq!(KeybdKey::AKey.bind(&mut reg, 6), HookChange::Keep);
    assert_eq!(KeybdKey::AKey.unbind(&mut reg), HookChange::Keep);
    assert_eq!(spawned(reg.keybd_event(KeybdKey::AKey, false)), Some(5));
    assert!(matches!(reg.keybd_event(KeybdKey::AKey, true), Dispatch::PassThrough));
}

#[test]
fn last_bind_wins() {
    let mut reg = Reg::new();
    KeybdKey::EnterKey.bind(&mut reg, 1);
    KeybdKey::EnterKey.bind(&mut reg, 2);
    assert_eq!(spawned(reg.keybd_event(KeybdKey::EnterKey, true)), Some(2));
    MouseButton::RightButton.bind(&mut reg, 3);
    MouseButton::RightButton.block_bind(&mut reg, 4);
    match reg.mouse_event(MouseButton::RightButton, true) {
        Dispatch::SpawnAndBlock(h) => assert_eq!(*h, 4),
        _ => panic!("expected a blocking bind"),
    }
}

#[test]
fn blockable_bind_decides_suppression() {
    let mut reg = Reg::new();
    KeybdKey::AKey.blockable_bind(&mut reg, block as fn() -> BlockInput);
    KeybdKey::BKey.blockable_bind(&mut reg, dont_block as fn() -> BlockInput);
    let a = reg.keybd_event(KeybdKey::AKey, true);
    let answer = match a {
        Dispatch::Decide(f) => f(),
        _ => panic!("expected a deciding bind"),
    };
    assert!(a.suppressed(answer));
    let b = reg.keybd_event(KeybdKey::BKey, true);
    let answer = match b {
        Dispatch::Decide(f) => f(),
        _ => panic!("expected a deciding bind"),
    };
    assert!(!b.suppressed(answer));
    assert!(matches!(reg.keybd_event(KeybdKey::AKey, false), Dispatch::PassThrough));
}

#[test]
fn block_bind_suppresses_and_normal_bind_passes() {
    let mut reg = Reg::new();
    KeybdKey::F1Key.block_bind(&mut reg, 1);
    KeybdKey::F2Key.bind(&mut reg, 2);
    assert!(reg.keybd_event(KeybdKey::F1Key, true).suppressed(BlockInput::DontBlock));
    assert!(!reg.keybd_event(KeybdKey::F2Key, true).suppressed(BlockInput::Block));
    assert!(!reg.keybd_event(KeybdKey::F3Key, true).suppressed(BlockInput::Block));
}

#[test]
fn bind_all_binds_every_named_key() {
    let mut reg = Reg::new();
    start_handling_input_events(&mut reg);
    assert_eq!(KeybdKey::bind_all(&mut reg, |k: KeybdKey| k.keysym() as u32), HookChange::Install);
    for k in KeybdKey::all() {
        assert!(k.is_bound(&reg));
        assert_eq!(spawned(reg.keybd_event(k, true)), Some(k.keysym() as u32));
    }
    assert!(!KeybdKey::OtherKey(1).is_bound(&reg));
    assert_eq!(MouseButton::bind_all(&mut reg, |b: MouseButton| b.x11_button()), HookChange::Install);
    for b in MouseButton::all() {
        assert!(b.is_bound(&reg));
    }
    MouseButton::bind_all_release(&mut reg, |_b: MouseButton| 9);
    KeybdKey::bind_all_release(&mut reg, |_k: KeybdKey| 8);
    assert_eq!(spawned(reg.mouse_event(MouseButton::X2Button, false)), Some(9));
    assert_eq!(spawned(reg.keybd_event(KeybdKey::ZKey, false)), Some(8));
}

#[test]
fn shadow_button_state_tracks_events() {
    let mut reg = Reg::new();
    let mut states = ButtonStates::new();
    assert!(!states.is_pressed(MouseButton::LeftButton));
    MouseButton::LeftButton.bind(&mut reg, 7);
    assert_eq!(spawned(reg.button_event(&mut states, MouseButton::LeftButton, true)), Some(7));
    assert!(states.is_pressed(MouseButton::LeftButton));
    assert!(!states.is_pressed(MouseButton::RightButton));
    assert!(spawned(reg.button_event(&mut states, MouseButton::LeftButton, false)).is_none());
    assert!(!states.is_pressed(MouseButton::LeftButton));
}

#[test]
fn interleaved_binds_and_unbinds_lose_no_update() {
    let mut reg = Reg::new();
    start_handling_input_events(&mut reg);
    let mut model: HashMap<KeybdKey, u32> = HashMap::new();
    let keys = [KeybdKey::AKey, KeybdKey::BKey, KeybdKey::OtherKey(3)];
    let mut seed: u64 = 0x2545F4914F6CDD1D;
    for step in 0..2000u32 {
        seed ^= seed << 13;
        seed ^= seed >> 7;
        seed ^= seed << 17;
        let key = keys[(seed % 3) as usize];
        let was_active = !model.is_empty();
        let change = match (seed >> 8) % 3 {
            0 => {
                model.insert(key, step);
                key.bind(&mut reg, step)
            }
            1 => {
                model.remove(&key);
                key.unbind(&mut reg)
            }
            _ => {
                assert_eq!(spawned(reg.keybd_event(key, true)), model.get(&key).copied());
                HookChange::Keep
            }
        };
        let active = !model.is_empty();
        let expected = match (was_active, active) {
            (false, true) => HookChange::Install,
            (true, false) => HookChange::Uninstall,
            _ => HookChange::Keep,
        };
        assert_eq!(change, expected);
        for k in keys {
            assert_eq!(k.is_bound(&reg), model.contains_key(&k));
        }
    }
}

#[test]
fn handler_taken_before_unbind_stays_usable() {
    let mut reg: Registry<Arc<dyn Fn() -> u32>, fn() -> BlockInput> = Registry::new();
    start_handling_input_events(&mut reg);
    KeybdKey::AKey.bind(&mut reg, Arc::new(|| 7u32) as Arc<dyn Fn() -> u32>);
    let taken = match reg.keybd_event(KeybdKey::AKey, true) {
        Dispatch::Spawn(h) => h.clone(),
        _ => panic!("expected a spawned bind"),
    };
    assert_eq!(KeybdKey::AKey.unbind(&mut reg), HookChange::Uninstall);
    assert_eq!(taken(), 7);
    assert!(!KeybdKey::AKey.is_bound(&reg));
    assert!(matches!(reg.keybd_event(KeybdKey::AKey, true), Dispatch::PassThrough));
}
