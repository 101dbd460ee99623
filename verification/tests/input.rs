use darksouls3::util::input::{
    capture_flags, HookAnswer, HookPlan, InputBlocker, InputDevice, InputFlags, InstallOutcome,
    ALL_BITS, DEVICE_COUNT, GAME_PAD_BIT, KEYBOARD_BIT, MOUSE_BIT,
};

#[test]
fn flags_have_one_bit_each() {
    assert_eq!(InputFlags::game_pad().bits(), 0b001);
    assert_eq!(InputFlags::keyboard().bits(), 0b010);
    assert_eq!(InputFlags::mouse().bits(), 0b100);
    assert_eq!(InputFlags::all().bits(), 0b111);
    assert_eq!(InputFlags::empty().bits(), 0);
    assert_eq!((GAME_PAD_BIT, KEYBOARD_BIT, MOUSE_BIT, ALL_BITS), (1, 2, 4, 7));
    assert!(InputFlags::empty().is_empty());
    assert!(!InputFlags::mouse().is_empty());
}

#[test]
fn flags_combine_as_sets() {
    let pad = InputFlags::game_pad();
    let keys = InputFlags::keyboard();
    let both = pad.union(keys);
    assert_eq!(both.bits(), 0b011);
    assert!(both.contains(pad));
    assert!(both.contains(keys));
    assert!(both.contains(InputFlags::empty()));
    assert!(!both.contains(InputFlags::mouse()));
    assert!(!pad.contains(both));
    assert_eq!(both.intersection(keys), keys);
    assert_eq!(both.intersection(InputFlags::mouse()), InputFlags::empty());
    assert_eq!(both.complement(), InputFlags::mouse());
    assert_eq!(InputFlags::all().complement(), InputFlags::empty());
    assert_eq!(InputFlags::empty().complement(), InputFlags::all());
}

#[test]
fn unknown_bits_are_kept_or_dropped_as_asked() {
    assert_eq!(InputFlags::from_bits_retain(0xf9).bits(), 0xf9);
    assert_eq!(InputFlags::from_bits_truncate(0xf9).bits(), 0b001);
    assert_eq!(InputFlags::from_bits_truncate(0b110).bits(), 0b110);
    assert_eq!(InputFlags::from_bits_retain(0xf9).complement().bits(), 0b110);
}

#[test]
fn devices_have_slots_and_flags() {
    assert_eq!(DEVICE_COUNT, 3);
    assert_eq!(InputDevice::GamePad.slot(), 0);
    assert_eq!(InputDevice::Keyboard.slot(), 1);
    assert_eq!(InputDevice::Mouse.slot(), 2);
    assert_eq!(InputDevice::GamePad.flag(), InputFlags::game_pad());
    assert_eq!(InputDevice::Keyboard.flag(), InputFlags::keyboard());
    assert_eq!(InputDevice::Mouse.flag(), InputFlags::mouse());
    assert_eq!(InputDevice::from_slot(0), Some(InputDevice::GamePad));
    assert_eq!(InputDevice::from_slot(1), Some(InputDevice::Keyboard));
    assert_eq!(InputDevice::from_slot(2), Some(InputDevice::Mouse));
    assert_eq!(InputDevice::from_slot(3), None);
}

#[test]
fn blocker_starts_with_nothing_blocked() {
    let blocker = InputBlocker::new();
    assert!(blocker.blocked().is_empty());
    assert_eq!(blocker.answer(InputDevice::GamePad), HookAnswer::CallOriginal);
    assert_eq!(blocker.answer(InputDevice::Keyboard), HookAnswer::CallOriginal);
    assert_eq!(blocker.answer(InputDevice::Mouse), HookAnswer::CallOriginal);
}

#[test]
fn block_adds_and_unblock_removes() {
    let mut blocker = InputBlocker::new();
    blocker.block(InputFlags::keyboard());
    assert_eq!(blocker.blocked(), InputFlags::keyboard());
    blocker.block(InputFlags::mouse());
    assert_eq!(blocker.blocked().bits(), 0b110);
    assert_eq!(blocker.answer(InputDevice::GamePad), HookAnswer::CallOriginal);
    assert_eq!(blocker.answer(InputDevice::Keyboard), HookAnswer::Suppress);
    assert_eq!(blocker.answer(InputDevice::Mouse), HookAnswer::Suppress);
    blocker.unblock(InputFlags::keyboard().union(InputFlags::game_pad()));
    assert_eq!(blocker.blocked(), InputFlags::mouse());
    blocker.unblock(InputFlags::empty());
    assert_eq!(blocker.blocked(), InputFlags::mouse());
    blocker.unblock(InputFlags::all());
    assert!(blocker.blocked().is_empty());
}

#[test]
fn block_only_replaces_the_set() {
    let mut blocker = InputBlocker::from_bits(0b011);
    blocker.block_only(InputFlags::mouse());
    assert_eq!(blocker.blocked(), InputFlags::mouse());
    assert_eq!(blocker.answer(InputDevice::GamePad), HookAnswer::CallOriginal);
    blocker.block_only(InputFlags::empty());
    assert_eq!(blocker, InputBlocker::new());
}

#[test]
fn capture_requests_become_flags() {
    assert_eq!(capture_flags(false, false), InputFlags::empty());
    assert_eq!(capture_flags(true, false), InputFlags::mouse());
    assert_eq!(capture_flags(false, true), InputFlags::keyboard());
    assert_eq!(capture_flags(true, true), InputFlags::all());
}

#[test]
fn hooks_are_installed_one_device_after_another() {
    let mut plan = HookPlan::new();
    assert_eq!(plan.outcome(), None);
    assert_eq!(plan.next_target(), Some(InputDevice::GamePad));
    plan.record(true);
    assert_eq!(plan.next_target(), Some(InputDevice::Keyboard));
    plan.record(true);
    assert_eq!(plan.next_target(), Some(InputDevice::Mouse));
    assert_eq!(plan.outcome(), None);
    plan.record(true);
    assert_eq!(plan.next_target(), None);
    assert_eq!(plan.outcome(), Some(InstallOutcome::Commit));
    plan.record(false);
    assert_eq!(plan.outcome(), Some(InstallOutcome::Commit));
}

#[test]
fn one_failed_hook_undoes_those_before_it() {
    let mut plan = HookPlan::new();
    plan.record(true);
    plan.record(true);
    plan.record(false);
    assert_eq!(plan.next_target(), None);
    assert_eq!(plan.outcome(), Some(InstallOutcome::RollBack { undo: 2 }));
    plan.record(true);
    assert_eq!(plan.outcome(), Some(InstallOutcome::RollBack { undo: 2 }));

    let mut plan = HookPlan::new();
    plan.record(false);
    assert_eq!(plan.outcome(), Some(InstallOutcome::RollBack { undo: 0 }));
}
