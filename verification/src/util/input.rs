//! Switching the game's handling of input on and off.
//!
//! The game asks each input device whether its input is to be ignored. Those
//! questions can be intercepted, one hook for each kind of device, and
//! answered from a set of flags. This module holds the flags and the
//! decisions: which devices are blocked, what a hook answers, and in which
//! order hooks are installed and undone. Installing a hook is the business
//! of whoever runs inside the game.

use vstd::prelude::*;

verus! {

/// The bit for input from a player's controller.
pub const GAME_PAD_BIT: u8 = 0b001;

/// The bit for input from a player's keyboard.
pub const KEYBOARD_BIT: u8 = 0b010;

/// The bit for input from a player's mouse.
pub const MOUSE_BIT: u8 = 0b100;

/// The bits of all input methods together.
pub const ALL_BITS: u8 = 0b111;

/// The number of input methods, and so of hooks.
pub const DEVICE_COUNT: usize = 3;

/// A set of input methods to target, one bit for each.
///
/// Bits that name no input method may be set as well. They are kept by every
/// operation but [`InputFlags::complement`] and
/// [`InputFlags::from_bits_truncate`].
#[derive(Debug, Copy, Clone, PartialEq, Eq, Structural)]
pub struct InputFlags {
    bits: u8,
}

impl View for InputFlags {
    type V = u8;

    /// The bits of the set.
    closed spec fn view(&self) -> u8 {
        self.bits
    }
}

impl InputFlags {
    /// Returns the set that holds no input method.
    pub fn empty() -> (f: InputFlags)
        ensures
            f@ == 0,
    {
        InputFlags { bits: 0 }
    }

    /// Returns the set that holds every input method.
    pub fn all() -> (f: InputFlags)
        ensures
            f@ == ALL_BITS,
    {
        InputFlags { bits: ALL_BITS }
    }

    /// Returns the set that holds only the controller.
    pub fn game_pad() -> (f: InputFlags)
        ensures
            f@ == GAME_PAD_BIT,
    {
        InputFlags { bits: GAME_PAD_BIT }
    }

    /// Returns the set that holds only the keyboard.
    pub fn keyboard() -> (f: InputFlags)
        ensures
            f@ == KEYBOARD_BIT,
    {
        InputFlags { bits: KEYBOARD_BIT }
    }

    /// Returns the set that holds only the mouse.
    pub fn mouse() -> (f: InputFlags)
        ensures
            f@ == MOUSE_BIT,
    {
        InputFlags { bits: MOUSE_BIT }
    }

    /// Returns the bits of the set.
    pub fn bits(&self) -> (b: u8)
        ensures
            b == self@,
    {
        self.bits
    }

    /// Returns the set with exactly the given bits, whether or not they name
    /// an input method.
    pub fn from_bits_retain(bits: u8) -> (f: InputFlags)
        ensures
            f@ == bits,
    {
        InputFlags { bits }
    }

    /// Returns the set with the given bits, without those that name no input
    /// method.
    pub fn from_bits_truncate(bits: u8) -> (f: InputFlags)
        ensures
            f@ == bits & ALL_BITS,
    {
        InputFlags { bits: bits & ALL_BITS }
    }

    /// Returns whether the set holds nothing.
    pub fn is_empty(&self) -> (b: bool)
        ensures
            b == (self@ == 0),
    {
        self.bits == 0
    }

    /// Returns whether every bit of `other` is set in this set.
    pub fn contains(&self, other: InputFlags) -> (b: bool)
        ensures
            b == (self@ & other@ == other@),
    {
        self.bits & other.bits == other.bits
    }

    /// Returns the set that holds what either set holds.
    pub fn union(&self, other: InputFlags) -> (f: InputFlags)
        ensures
            f@ == self@ | other@,
    {
        InputFlags { bits: self.bits | other.bits }
    }

    /// Returns the set that holds what both sets hold.
    pub fn intersection(&self, other: InputFlags) -> (f: InputFlags)
        ensures
            f@ == self@ & other@,
    {
        InputFlags { bits: self.bits & other.bits }
    }

    /// Returns the set of the input methods that this set doesn't hold.
    pub fn complement(&self) -> (f: InputFlags)
        ensures
            f@ == !self@ & ALL_BITS,
    {
        InputFlags { bits: !self.bits & ALL_BITS }
    }

    /// Two sets with the same bits are the same set.
    pub proof fn lemma_view_injective(a: InputFlags, b: InputFlags)
        requires
            a@ == b@,
        ensures
            a == b,
    {
    }
}

/// The kinds of input device that the game asks, in the order of their bits.
#[derive(Debug, Copy, Clone, PartialEq, Eq, Structural)]
pub enum InputDevice {
    GamePad,
    Keyboard,
    Mouse,
}

impl InputDevice {
    /// The position of the device's bit, which is also the place of its hook
    /// among the hooks.
    pub open spec fn spec_slot(&self) -> usize {
        match self {
            InputDevice::GamePad => 0,
            InputDevice::Keyboard => 1,
            InputDevice::Mouse => 2,
        }
    }

    /// The device's bit.
    pub open spec fn spec_bit(&self) -> u8 {
        match self {
            InputDevice::GamePad => GAME_PAD_BIT,
            InputDevice::Keyboard => KEYBOARD_BIT,
            InputDevice::Mouse => MOUSE_BIT,
        }
    }

    /// Returns the place of the device's hook among the hooks.
    #[verifier::when_used_as_spec(spec_slot)]
    pub fn slot(&self) -> (s: usize)
        ensures
            s == self.spec_slot(),
            s < DEVICE_COUNT,
    {
        match self {
            InputDevice::GamePad => 0,
            InputDevice::Keyboard => 1,
            InputDevice::Mouse => 2,
        }
    }

    /// Returns the set that holds only this device.
    pub fn flag(&self) -> (f: InputFlags)
        ensures
            f@ == self.spec_bit(),
    {
        match self {
            InputDevice::GamePad => InputFlags::game_pad(),
            InputDevice::Keyboard => InputFlags::keyboard(),
            InputDevice::Mouse => InputFlags::mouse(),
        }
    }

    /// Returns the device whose hook has the given place, if there is one.
    pub fn from_slot(slot: usize) -> (r: Option<InputDevice>)
        ensures
            r is Some <==> slot < DEVICE_COUNT,
            r is Some ==> r->Some_0.spec_slot() == slot,
    {
        if slot == 0 {
            Some(InputDevice::GamePad)
        } else if slot == 1 {
            Some(InputDevice::Keyboard)
        } else if slot == 2 {
            Some(InputDevice::Mouse)
        } else {
            None
        }
    }
}

/// What a hook does with a question of the game.
#[derive(Debug, Copy, Clone, PartialEq, Eq, Structural)]
pub enum HookAnswer {
    /// The device is blocked: answer zero and don't ask the game's own
    /// routine.
    Suppress,
    /// The device is not blocked: hand the question on to the game's own
    /// routine and answer what it answers.
    CallOriginal,
}

/// The switch that turns the game's handling of input on and off: the set of
/// input methods that are blocked right now.
#[derive(Debug, Copy, Clone, PartialEq, Eq, Structural)]
pub struct InputBlocker {
    blocked: u8,
}

impl View for InputBlocker {
    type V = u8;

    /// The bits of the input methods that are blocked.
    closed spec fn view(&self) -> u8 {
        self.blocked
    }
}

impl InputBlocker {
    /// Creates a switch that blocks nothing.
    pub fn new() -> (b: InputBlocker)
        ensures
            b@ == 0,
    {
        InputBlocker { blocked: 0 }
    }

    /// Creates a switch from the bits of the input methods that are blocked.
    pub fn from_bits(blocked: u8) -> (b: InputBlocker)
        ensures
            b@ == blocked,
    {
        InputBlocker { blocked }
    }

    /// Returns the set of input methods that are blocked.
    pub fn blocked(&self) -> (f: InputFlags)
        ensures
            f@ == self@,
    {
        InputFlags::from_bits_retain(self.blocked)
    }

    /// Blocks all input from inputs selected by `inputs`. Leaves inputs that
    /// aren't selected as-is.
    pub fn block(&mut self, inputs: InputFlags)
        ensures
            final(self)@ == old(self)@ | inputs@,
    {
        self.blocked = self.blocked | inputs.bits();
    }

    /// Blocks all input from inputs selected by `inputs` and unblocks all
    /// input from inputs that aren't selected.
    pub fn block_only(&mut self, inputs: InputFlags)
        ensures
            final(self)@ == inputs@,
    {
        self.blocked = inputs.bits();
    }

    /// Unblocks all input from inputs selected by `inputs`.
    pub fn unblock(&mut self, inputs: InputFlags)
        ensures
            final(self)@ == old(self)@ & (!inputs@ & ALL_BITS),
    {
        self.blocked = self.blocked & inputs.complement().bits();
    }

    /// Decides what the hook of `device` answers: its input is suppressed
    /// exactly while the device is blocked.
    pub fn answer(&self, device: InputDevice) -> (a: HookAnswer)
        ensures
            a == HookAnswer::Suppress <==> self@ & device.spec_bit() == device.spec_bit(),
    {
        if self.blocked().contains(device.flag()) {
            HookAnswer::Suppress
        } else {
            HookAnswer::CallOriginal
        }
    }
}

/// The bits of the input methods to block while an overlay is shown that
/// wants the mouse, the keyboard, both or neither.
pub open spec fn capture_bits(want_mouse: bool, want_keyboard: bool) -> u8 {
    if want_mouse && want_keyboard {
        ALL_BITS
    } else if want_mouse {
        MOUSE_BIT
    } else if want_keyboard {
        KEYBOARD_BIT
    } else {
        0
    }
}

/// Selects the input methods to block while an overlay is shown. The mouse
/// is blocked while the overlay wants the mouse and the keyboard while it
/// wants the keyboard. The controller is blocked only while it wants both,
/// as when a modal dialog is up.
pub fn capture_flags(want_mouse: bool, want_keyboard: bool) -> (f: InputFlags)
    ensures
        f@ == capture_bits(want_mouse, want_keyboard),
{
    if want_mouse && want_keyboard {
        InputFlags::all()
    } else if want_mouse {
        InputFlags::mouse()
    } else if want_keyboard {
        InputFlags::keyboard()
    } else {
        InputFlags::empty()
    }
}

/// What is to be done with the hooks once installing them has ended.
#[derive(Debug, Copy, Clone, PartialEq, Eq, Structural)]
pub enum InstallOutcome {
    /// Every hook is in place. The hooks stay for good.
    Commit,
    /// A hook could not be installed. The hooks that are in place, `undo`
    /// of them, are all to be removed again.
    RollBack { undo: usize },
}

/// The course of installing the hooks, one for each kind of device: either
/// all of them end up in place, or none does.
#[derive(Debug, Copy, Clone, PartialEq, Eq, Structural)]
pub struct HookPlan {
    installed: usize,
    failed: bool,
}

impl HookPlan {
    #[verifier::type_invariant]
    spec fn well_formed(self) -> bool {
        self.installed <= DEVICE_COUNT && (self.failed ==> self.installed < DEVICE_COUNT)
    }

    /// The number of hooks that are in place.
    pub closed spec fn spec_installed(&self) -> usize {
        self.installed
    }

    /// Whether a hook could not be installed.
    pub closed spec fn spec_failed(&self) -> bool {
        self.failed
    }

    /// Starts with no hook in place.
    pub fn new() -> (plan: HookPlan)
        ensures
            plan.spec_installed() == 0,
            !plan.spec_failed(),
    {
        HookPlan { installed: 0, failed: false }
    }

    /// Returns the device whose hook is to be installed next, or `None` once
    /// installing has ended.
    pub fn next_target(&self) -> (r: Option<InputDevice>)
        ensures
            r is Some <==> !self.spec_failed() && self.spec_installed() < DEVICE_COUNT,
            r is Some ==> r->Some_0.spec_slot() == self.spec_installed(),
    {
        if self.failed {
            None
        } else {
            InputDevice::from_slot(self.installed)
        }
    }

    /// Takes note of whether the hook of the next device could be installed.
    /// Once installing has ended, nothing changes any more.
    pub fn record(&mut self, installed: bool)
        ensures
            old(self).spec_failed() || old(self).spec_installed() >= DEVICE_COUNT ==> *final(self)
                == *old(self),
            !old(self).spec_failed() && old(self).spec_installed() < DEVICE_COUNT && installed ==> {
                &&& final(self).spec_installed() == old(self).spec_installed() + 1
                &&& !final(self).spec_failed()
            },
            !old(self).spec_failed() && old(self).spec_installed() < DEVICE_COUNT && !installed
                ==> {
                &&& final(self).spec_installed() == old(self).spec_installed()
                &&& final(self).spec_failed()
            },
    {
        proof {
            use_type_invariant(&*self);
        }
        if self.failed || self.installed >= DEVICE_COUNT {
            return ;
        }
        if installed {
            self.installed = self.installed + 1;
        } else {
            self.failed = true;
        }
    }

    /// Returns what is to be done with the hooks, or `None` while installing
    /// has not ended. The hooks are kept only if every one of them is in
    /// place; after a failure every hook that is in place is undone.
    pub fn outcome(&self) -> (r: Option<InstallOutcome>)
        ensures
            r is None <==> !self.spec_failed() && self.spec_installed() < DEVICE_COUNT,
            r == Some(InstallOutcome::Commit) <==> !self.spec_failed() && self.spec_installed()
                == DEVICE_COUNT,
            self.spec_failed() ==> r == Some(
                InstallOutcome::RollBack { undo: self.spec_installed() },
            ),
    {
        proof {
            use_type_invariant(self);
        }
        if self.failed {
            Some(InstallOutcome::RollBack { undo: self.installed })
        } else if self.installed == DEVICE_COUNT {
            Some(InstallOutcome::Commit)
        } else {
            None
        }
    }
}

/// Blocking and unblocking undo each other as far as they can: after a set
/// of inputs is blocked, each of its input methods is blocked; after it is
/// unblocked, none of its bits is; and unblocking leaves no bit set that was
/// not set before.
pub proof fn lemma_block_unblock(state: u8, inputs: u8)
    ensures
        (state | inputs) & inputs == inputs,
        (state & (!inputs & ALL_BITS)) & inputs == 0,
        (state & (!inputs & ALL_BITS)) & state == state & (!inputs & ALL_BITS),
        ((state | inputs) & (!inputs & ALL_BITS)) == state & (!inputs & ALL_BITS),
{
    assert((state | inputs) & inputs == inputs) by (bit_vector);
    assert((state & (!inputs & 7u8)) & inputs == 0) by (bit_vector);
    assert((state & (!inputs & 7u8)) & state == state & (!inputs & 7u8)) by (bit_vector);
    assert(((state | inputs) & (!inputs & 7u8)) == state & (!inputs & 7u8)) by (bit_vector);
}

} // verus!
