//! The system-wide keyboard hook.
use vstd::prelude::*;

verus! {

/// A virtual key code.
#[derive(Clone, Copy, Debug, PartialEq, Eq, Structural)]
pub struct KeyCode(pub u16);

pub const VK_LSHIFT: u16 = 0xa0;

pub const VK_RSHIFT: u16 = 0xa1;

pub const VK_LCONTROL: u16 = 0xa2;

pub const VK_RCONTROL: u16 = 0xa3;

pub const VK_LMENU: u16 = 0xa4;

pub const VK_RMENU: u16 = 0xa5;

pub const VK_LWIN: u16 = 0x5b;

pub const VK_RWIN: u16 = 0x5c;

/// A key was pressed.
pub const WM_KEYDOWN: u32 = 0x0100;

/// A key was pressed while the alt key was held.
pub const WM_SYSKEYDOWN: u32 = 0x0104;

/// A key as keybindings name it.
#[derive(Clone, Copy, Debug, PartialEq, Eq, Structural)]
pub enum Key {
    Cmd,
    Win,
    Alt,
    Ctrl,
    Shift,
    /// Any other key that the keyboard can report.
    Mapped(KeyCode),
    /// A key that no key code stands for.
    Unmapped,
}

impl Key {
    /// The key codes of which one has to be down for the key to be down.
    pub open spec fn codes(self) -> Seq<u16> {
        match self {
            Key::Cmd | Key::Win => seq![VK_LWIN, VK_RWIN],
            Key::Alt => seq![VK_LMENU, VK_RMENU],
            Key::Ctrl => seq![VK_LCONTROL, VK_RCONTROL],
            Key::Shift => seq![VK_LSHIFT, VK_RSHIFT],
            Key::Mapped(code) => seq![code.0],
            Key::Unmapped => seq![],
        }
    }
}

/// The key state says that the key is down.
pub open spec fn is_down(state: i16) -> bool {
    state & 0x80 == 0x80
}

/// The key state was reported for the code.
pub open spec fn reported<F: Fn(u16) -> i16>(key_state: F, code: u16, down: bool) -> bool {
    exists|state: i16| #[trigger]
        call_ensures(key_state, (code,), state) && is_down(state) == down
}

/// A key event received from the keyboard hook.
#[derive(Clone, Copy, Debug, PartialEq, Eq, Structural)]
pub struct KeyEvent {
    /// The key that was pressed or released.
    pub key: Key,
    /// Key code that generated this event.
    pub key_code: KeyCode,
    /// Whether the event is for a key press or release.
    pub is_keypress: bool,
}

impl KeyEvent {
    /// Gets whether the specified key is currently pressed. `key_state` reports
    /// the native state of a key code.
    pub fn is_key_down<F: Fn(u16) -> i16>(&self, key: Key, key_state: F) -> (down: bool)
        requires
            forall|code: u16| call_requires(key_state, (code,)),
        ensures
            down ==> exists|i: int|
                0 <= i < key.codes().len() && reported(key_state, #[trigger] key.codes()[i], true),
            !down ==> forall|i: int|
                0 <= i < key.codes().len() ==> reported(
                    key_state,
                    #[trigger] key.codes()[i],
                    false,
                ),
    {
        match key {
            Key::Cmd | Key::Win => Self::either_down(key, VK_LWIN, VK_RWIN, &key_state),
            Key::Alt => Self::either_down(key, VK_LMENU, VK_RMENU, &key_state),
            Key::Ctrl => Self::either_down(key, VK_LCONTROL, VK_RCONTROL, &key_state),
            Key::Shift => Self::either_down(key, VK_LSHIFT, VK_RSHIFT, &key_state),
            Key::Mapped(code) => {
                let down = Self::is_key_down_raw(code.0, &key_state);
                assert(key.codes()[0] == code.0);
                down
            },
            Key::Unmapped => false,
        }
    }

    fn either_down<F: Fn(u16) -> i16>(key: Key, left: u16, right: u16, key_state: &F) -> (down:
        bool)
        requires
            forall|code: u16| call_requires(*key_state, (code,)),
            key.codes() == seq![left, right],
        ensures
            down ==> exists|i: int|
                0 <= i < key.codes().len() && reported(*key_state, #[trigger] key.codes()[i], true),
            !down ==> forall|i: int|
                0 <= i < key.codes().len() ==> reported(
                    *key_state,
                    #[trigger] key.codes()[i],
                    false,
                ),
    {
        assert(key.codes()[0] == left && key.codes()[1] == right);
        Self::is_key_down_raw(left, key_state) || Self::is_key_down_raw(right, key_state)
    }

    /// Gets whether the specified key is currently down using the raw key code.
    fn is_key_down_raw<F: Fn(u16) -> i16>(code: u16, key_state: &F) -> (down: bool)
        requires
            call_requires(*key_state, (code,)),
        ensures
            reported(*key_state, code, down),
    {
        let state: i16 = key_state(code);
        assert(call_ensures(*key_state, (code,), state));
        state & 0x80 == 0x80
    }
}

/// The key code of a native keyboard event: its lower sixteen bits.
pub fn event_key_code(vk_code: u32) -> (code: KeyCode)
    ensures
        code.0 == vk_code % 0x1_0000,
{
    assert(vk_code & 0xffff == vk_code % 0x1_0000 && vk_code & 0xffff <= 0xffff) by (bit_vector);
    KeyCode((vk_code & 0xffff) as u16)
}

/// The event that a hook notification stands for. `key` is the key that the
/// event's code names. Notifications with another code than zero, and keys that
/// have no name, are passed on unseen.
pub fn hook_event(code: i32, vk_code: u32, message: u32, key: Option<Key>) -> (event: Option<
    KeyEvent,
>)
    ensures
        event is Some <==> code == 0 && key is Some,
        event matches Some(event) ==> {
            &&& Some(event.key) == key
            &&& event.key_code.0 == vk_code % 0x1_0000
            &&& event.is_keypress == (message == WM_KEYDOWN || message == WM_SYSKEYDOWN)
        },
{
    if code != 0 {
        return None;
    }
    match key {
        None => None,
        Some(key) => Some(
            KeyEvent {
                key,
                key_code: event_key_code(vk_code),
                is_keypress: message == WM_KEYDOWN || message == WM_SYSKEYDOWN,
            },
        ),
    }
}

/// Why a hook could not be set or removed.
#[derive(Clone, Copy, Debug, PartialEq, Eq, Structural)]
pub enum HookError {
    /// The thread already has a hook.
    AlreadyRegistered,
    /// The native call failed.
    Native,
}

/// A thread's place for the hook callback, of which there is one.
///
/// The callback is called for every keyboard event and returns `true` if the
/// event should be intercepted.
pub struct HookSlot<C> {
    pub callback: Option<C>,
}

/// A system-wide low-level keyboard hook.
pub struct KeyboardHook {
    pub handle: Option<isize>,
}

impl<C> HookSlot<C> {
    pub fn new() -> (slot: HookSlot<C>)
        ensures
            slot.callback is None,
    {
        HookSlot { callback: None }
    }

    /// Whether a native hook may be set for this thread.
    pub fn check_vacant(&self) -> (result: Result<(), HookError>)
        ensures
            result is Err <==> self.callback is Some,
            result matches Err(error) ==> error == HookError::AlreadyRegistered,
    {
        if self.callback.is_some() {
            Err(HookError::AlreadyRegistered)
        } else {
            Ok(())
        }
    }

    /// Takes the outcome of setting the native hook, whose handle is there if it
    /// succeeded. The callback is stored only then. A thread that has a hook
    /// keeps it.
    pub fn install(&mut self, callback: C, native: Option<isize>) -> (result: Result<
        KeyboardHook,
        HookError,
    >)
        ensures
            result == if old(self).callback is Some {
                Err::<KeyboardHook, HookError>(HookError::AlreadyRegistered)
            } else if native is None {
                Err(HookError::Native)
            } else {
                Ok(KeyboardHook { handle: native })
            },
            result is Ok ==> final(self).callback == Some(callback),
            result is Err ==> *final(self) == *old(self),
    {
        if self.callback.is_some() {
            return Err(HookError::AlreadyRegistered);
        }
        match native {
            None => Err(HookError::Native),
            Some(handle) => {
                self.callback = Some(callback);
                Ok(KeyboardHook { handle: Some(handle) })
            },
        }
    }

    /// Asks the callback whether the event should be intercepted. Without a
    /// callback nothing is.
    pub fn should_intercept(&self, event: KeyEvent) -> (intercept: bool) where
        C: Fn(KeyEvent) -> bool,

        requires
            self.callback matches Some(callback) ==> call_requires(callback, (event,)),
        ensures
            match self.callback {
                Some(callback) => call_ensures(callback, (event,), intercept),
                None => !intercept,
            },
    {
        match &self.callback {
            Some(callback) => callback(event),
            None => false,
        }
    }
}

impl KeyboardHook {
    /// The native hook that a termination has to remove. A hook that was
    /// terminated has none.
    pub fn to_unhook(&self) -> (handle: Option<isize>)
        ensures
            handle == self.handle,
    {
        self.handle
    }

    /// Terminates the keyboard hook, given whether the native hook could be
    /// removed. If it could not, everything stays as it is and the termination
    /// can be tried again; the callback is released only afterwards.
    pub fn terminate<C>(&mut self, slot: &mut HookSlot<C>, unhooked: bool) -> (result: Result<
        (),
        HookError,
    >)
        ensures
            result is Err <==> old(self).handle is Some && !unhooked,
            result matches Err(error) ==> error == HookError::Native,
            result is Err || old(self).handle is None ==> *final(self) == *old(self)
                && *final(slot) == *old(slot),
            result is Ok ==> final(self).handle is None,
            result is Ok && old(self).handle is Some ==> final(slot).callback is None,
    {
        if self.handle.is_none() {
            return Ok(());
        }
        if !unhooked {
            return Err(HookError::Native);
        }
        slot.callback = None;
        self.handle = None;
        Ok(())
    }
}

/// A modifier stands for its two keys, the left and the right one; the command
/// and the Windows key are the same. Another key stands for its own code, and
/// one without a code for none.
pub proof fn law_modifiers_stand_for_both_sides(key: Key, code: u16)
    ensures
        key.codes().contains(code) <==> {
            ||| key is Shift && (code == 0xa0 || code == 0xa1)
            ||| key is Ctrl && (code == 0xa2 || code == 0xa3)
            ||| key is Alt && (code == 0xa4 || code == 0xa5)
            ||| (key is Cmd || key is Win) && (code == 0x5b || code == 0x5c)
            ||| key == Key::Mapped(KeyCode(code))
        },
{
    let codes = key.codes();
    if codes.contains(code) {
        let i = choose|i: int| 0 <= i < codes.len() && codes[i] == code;
        assert(i == 0 || i == 1);
    }
    if codes.len() > 0 {
        assert(codes.contains(codes[0]));
    }
    if codes.len() > 1 {
        assert(codes.contains(codes[1]));
    }
}

/// A key is down exactly if the eighth bit of its state is set.
pub proof fn law_the_eighth_bit_tells_keys_down(state: i16)
    ensures
        is_down(state) <==> (state >> 7) & 1 == 1,
{
    assert(state & 0x80 == 0x80 <==> (state >> 7) & 1 == 1) by (bit_vector);
}

} // verus!
