use vstd::prelude::*;

verus! {

/// Number of virtual-key codes; every `u8` code has a slot.
pub const KEY_SLOTS: usize = 256;

pub const VK_LSHIFT: u8 = 0xA0;
pub const VK_LCONTROL: u8 = 0xA2;
pub const VK_LMENU: u8 = 0xA4;
pub const VK_RMENU: u8 = 0xA5;

/// The "is down" flag of every virtual key, as last reported by the hook.
/// Its view always has `KEY_SLOTS` entries, one per `u8` code.
pub struct KeyState {
    pub down: [bool; KEY_SLOTS],
}

impl View for KeyState {
    type V = Seq<bool>;

    open spec fn view(&self) -> Seq<bool> {
        self.down@
    }
}

impl KeyState {
    /// All keys up.
    pub fn new() -> (r: Self)
        ensures
            r@ == Seq::new(KEY_SLOTS as nat, |i: int| false),
    {
        let r = KeyState { down: [false; KEY_SLOTS] };
        assert(r@ =~= Seq::new(KEY_SLOTS as nat, |i: int| false));
        r
    }

    /// Overwrites the flag of `vk`.
    pub fn set(&mut self, vk: u8, down: bool)
        ensures
            final(self)@ == old(self)@.update(vk as int, down),
            final(self)@[vk as int] == down,
    {
        self.down[vk as usize] = down;
    }

    pub fn is_down(&self, vk: u8) -> (r: bool)
        ensures
            r == self@[vk as int],
    {
        self.down[vk as usize]
    }
}

} // verus!
