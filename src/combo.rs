use vstd::prelude::*;
use crate::config::{HookMode, InputMode, ModeField, RunMode};
use crate::keys::{KeyState, VK_LCONTROL, VK_LMENU, VK_LSHIFT, VK_RMENU};
use crate::modifiers::{
    palette_slot, shift_palette, shifted_palette, toggled, ModifierPipeline, ModifierSlot,
    MAX_MODIFIER_PALETTES,
};

verus! {

pub const KEY_0: u8 = 0x30;
pub const KEY_1: u8 = 0x31;
pub const KEY_9: u8 = 0x39;
pub const KEY_C: u8 = 0x43;
pub const KEY_M: u8 = 0x4D;
pub const KEY_Q: u8 = 0x51;
pub const KEY_V: u8 = 0x56;
pub const KEY_X: u8 = 0x58;
pub const KEY_Z: u8 = 0x5A;

/// What a key event asks of the engine.
#[derive(Clone, Copy, Debug, PartialEq, Eq, Structural)]
pub enum ComboAction {
    NoAction,
    Copy,
    Paste,
    Undo,
    Reset,
    ToggleHookMode,
    /// Digit 1 to 9 of the active palette.
    ToggleModifierSlot(usize),
    /// `true` moves to the previous palette.
    ShiftPalette(bool),
    /// `true` (Shift held) toggles the input mode, `false` burst mode.
    ToggleInputOrBurstMode(bool),
}

/// Whether the hook lets the OS see the key event.
#[derive(Clone, Copy, Debug, PartialEq, Eq, Structural)]
pub enum KeyVerdict {
    Continue,
    Suppress,
}

/// The chord that Control plus `vk` makes, with or without Alt.
pub open spec fn chord_action(vk: u8, alt: bool, shift: bool) -> ComboAction {
    if !alt {
        if vk == KEY_C || vk == KEY_X {
            ComboAction::Copy
        } else if vk == KEY_V {
            ComboAction::Paste
        } else {
            ComboAction::NoAction
        }
    } else if vk == KEY_C {
        ComboAction::Copy
    } else if vk == KEY_X {
        ComboAction::Reset
    } else if vk == KEY_0 {
        ComboAction::ToggleHookMode
    } else if vk == KEY_Z {
        ComboAction::Undo
    } else if KEY_1 <= vk <= KEY_9 {
        ComboAction::ToggleModifierSlot((vk - KEY_0) as usize)
    } else if vk == KEY_Q {
        ComboAction::ShiftPalette(shift)
    } else if vk == KEY_M {
        ComboAction::ToggleInputOrBurstMode(shift)
    } else {
        ComboAction::NoAction
    }
}

/// The action a press of `vk` means, given the keys held and the hook mode.
/// Chords need Control; under the OS's own shortcuts only Control+Alt+0,
/// which switches back, is recognised.
pub open spec fn classified(vk: u8, keys: Seq<bool>, hook: HookMode) -> ComboAction {
    if !keys[VK_LCONTROL as int] {
        ComboAction::NoAction
    } else if keys[VK_LMENU as int] || keys[VK_RMENU as int] {
        if hook == HookMode::OsStandard && vk != KEY_0 {
            ComboAction::NoAction
        } else {
            chord_action(vk, true, keys[VK_LSHIFT as int])
        }
    } else if hook == HookMode::Override {
        chord_action(vk, false, keys[VK_LSHIFT as int])
    } else {
        ComboAction::NoAction
    }
}

fn chord(vk: u8, alt: bool, shift: bool) -> (r: ComboAction)
    ensures
        r == chord_action(vk, alt, shift),
{
    if !alt {
        if vk == KEY_C || vk == KEY_X {
            ComboAction::Copy
        } else if vk == KEY_V {
            ComboAction::Paste
        } else {
            ComboAction::NoAction
        }
    } else if vk == KEY_C {
        ComboAction::Copy
    } else if vk == KEY_X {
        ComboAction::Reset
    } else if vk == KEY_0 {
        ComboAction::ToggleHookMode
    } else if vk == KEY_Z {
        ComboAction::Undo
    } else if KEY_1 <= vk && vk <= KEY_9 {
        ComboAction::ToggleModifierSlot((vk - KEY_0) as usize)
    } else if vk == KEY_Q {
        ComboAction::ShiftPalette(shift)
    } else if vk == KEY_M {
        ComboAction::ToggleInputOrBurstMode(shift)
    } else {
        ComboAction::NoAction
    }
}

/// Classifies a press of `vk`; reads the key table and the hook mode only.
pub fn judge_combo_key(vk: u8, keys: &KeyState, hook: HookMode) -> (r: ComboAction)
    ensures
        r == classified(vk, keys@, hook),
{
    if !keys.is_down(VK_LCONTROL) {
        return ComboAction::NoAction;
    }
    let shift = keys.is_down(VK_LSHIFT);
    if keys.is_down(VK_LMENU) || keys.is_down(VK_RMENU) {
        if hook == HookMode::OsStandard && vk != KEY_0 {
            ComboAction::NoAction
        } else {
            chord(vk, true, shift)
        }
    } else if hook == HookMode::Override {
        chord(vk, false, shift)
    } else {
        ComboAction::NoAction
    }
}

/// The action as reported back to the hook once performed: switching to the
/// OS's shortcuts reports nothing, so the key goes on to the OS.
pub open spec fn reported(action: ComboAction, new_hook: HookMode) -> ComboAction {
    if action == ComboAction::ToggleHookMode && new_hook == HookMode::OsStandard {
        ComboAction::NoAction
    } else {
        action
    }
}

/// The effect of performing `action`: run mode `m0` becomes `m1` and the
/// modifier slots `slots0` become `slots1`.
pub open spec fn performed(
    action: ComboAction,
    m0: RunMode,
    m1: RunMode,
    slots0: Seq<ModifierSlot>,
    slots1: Seq<ModifierSlot>,
) -> bool {
    match action {
        ComboAction::ToggleHookMode => {
            &&& m1.hook_mode() == (if m0.hook_mode() == HookMode::Override {
                HookMode::OsStandard
            } else {
                HookMode::Override
            })
            &&& RunMode::same_except(m1, m0, ModeField::Hook)
            &&& slots1 == slots0
        },
        ComboAction::ToggleModifierSlot(digit) => {
            let index = m0.palette_no() * MAX_MODIFIER_PALETTES + digit - 1;
            &&& RunMode::same_except(m1, m0, ModeField::Nothing)
            &&& if 1 <= digit <= MAX_MODIFIER_PALETTES && 0 <= index < slots0.len() {
                slots1 == toggled(slots0, index)
            } else {
                slots1 == slots0
            }
        },
        ComboAction::ShiftPalette(backward) => {
            &&& m1.palette_no() == shifted_palette(m0.palette_no() as nat, slots0.len(), backward)
            &&& RunMode::same_except(m1, m0, ModeField::Palette)
            &&& slots1 == slots0
        },
        ComboAction::ToggleInputOrBurstMode(input) => {
            &&& input ==> (m0.input_mode() == InputMode::Clipboard ==> {
                &&& m1.input_mode() == InputMode::DirectKeyInput
                &&& m1.burst_mode() == m0.burst_mode()
            })
            &&& input ==> (m0.input_mode() == InputMode::DirectKeyInput ==> {
                &&& m1.input_mode() == InputMode::Clipboard
                &&& !m1.burst_mode()
            })
            &&& !input ==> {
                &&& m1.burst_mode() == !m0.burst_mode()
                &&& (m1.burst_mode() ==> m1.input_mode() == InputMode::DirectKeyInput)
                &&& (!m1.burst_mode() ==> m1.input_mode() == m0.input_mode())
            }
            &&& RunMode::same_except_modes(m1, m0)
            &&& slots1 == slots0
        },
        _ => {
            &&& RunMode::same_except(m1, m0, ModeField::Nothing)
            &&& slots1 == slots0
        },
    }
}

/// Carries out the actions that only touch settings (hook mode, modifier
/// slots, palette, input and burst mode) and returns the reported action.
/// Copy, paste, undo and reset are left to the caller, which runs them off
/// the hook thread.
pub fn perform(action: ComboAction, mode: &mut RunMode, pipeline: &mut ModifierPipeline) -> (r: ComboAction)
    ensures
        r == reported(action, final(mode).hook_mode()),
        performed(action, *old(mode), *final(mode), old(pipeline).slots(), final(pipeline).slots()),
{
    match action {
        ComboAction::ToggleHookMode => {
            mode.toggle_hook_mode();
        },
        ComboAction::ToggleModifierSlot(digit) => {
            if 1 <= digit && digit <= MAX_MODIFIER_PALETTES {
                let count = pipeline.slot_count();
                if let Some(index) = palette_slot(mode.get_palette_no(), digit) {
                    if index < count {
                        pipeline.toggle(index);
                    }
                }
            }
        },
        ComboAction::ShiftPalette(backward) => {
            let next = shift_palette(mode.get_palette_no(), pipeline.slot_count(), backward);
            mode.set_palette_no(next);
        },
        ComboAction::ToggleInputOrBurstMode(input) => {
            if input {
                mode.toggle_input_mode();
            } else {
                mode.toggle_burst_mode();
            }
        },
        _ => {},
    }
    if action == ComboAction::ToggleHookMode && mode.get_hook_mode() == HookMode::OsStandard {
        ComboAction::NoAction
    } else {
        action
    }
}

/// What one key-down event did: the action recognised (already performed
/// where it only touches settings) and the verdict for the OS.
#[derive(Clone, Copy, Debug, PartialEq, Eq, Structural)]
pub struct KeyDownOutcome {
    pub action: ComboAction,
    pub verdict: KeyVerdict,
}

/// Handles a key press. Events the engine injected itself are passed on
/// untouched. Otherwise the key is marked down, the chord is classified and
/// performed, and in burst mode a recognised chord is kept from the OS.
pub fn key_down(
    keys: &mut KeyState,
    mode: &mut RunMode,
    pipeline: &mut ModifierPipeline,
    vk: u8,
    injected: bool,
) -> (r: KeyDownOutcome)
    ensures
        injected ==> {
            &&& r == KeyDownOutcome { action: ComboAction::NoAction, verdict: KeyVerdict::Continue }
            &&& *final(keys) == *old(keys)
            &&& RunMode::same_except(*final(mode), *old(mode), ModeField::Nothing)
            &&& final(pipeline).slots() == old(pipeline).slots()
        },
        !injected ==> {
            let action = classified(vk, old(keys)@.update(vk as int, true), old(mode).hook_mode());
            &&& final(keys)@ == old(keys)@.update(vk as int, true)
            &&& performed(action, *old(mode), *final(mode), old(pipeline).slots(), final(pipeline).slots())
            &&& r.action == reported(action, final(mode).hook_mode())
            &&& r.verdict == (if r.action != ComboAction::NoAction && old(mode).burst_mode() {
                KeyVerdict::Suppress
            } else {
                KeyVerdict::Continue
            })
        },
{
    if injected {
        return KeyDownOutcome { action: ComboAction::NoAction, verdict: KeyVerdict::Continue };
    }
    keys.set(vk, true);
    let is_burst = mode.is_burst_mode();
    let action = judge_combo_key(vk, keys, mode.get_hook_mode());
    let done = perform(action, mode, pipeline);
    let verdict = if done != ComboAction::NoAction && is_burst {
        KeyVerdict::Suppress
    } else {
        KeyVerdict::Continue
    };
    KeyDownOutcome { action: done, verdict }
}

/// Reacts to a change of the system clipboard made outside the paste path:
/// it is ingested only when a copy chord asked for it, and the request is
/// consumed.
pub fn clipboard_changed(copy_requested: &mut bool) -> (ingest: bool)
    ensures
        ingest == *old(copy_requested),
        !*final(copy_requested),
{
    let ingest = *copy_requested;
    *copy_requested = false;
    ingest
}

/// Handles a key release: marks the key up unless the engine injected it.
pub fn key_up(keys: &mut KeyState, vk: u8, injected: bool) -> (r: KeyVerdict)
    ensures
        r == KeyVerdict::Continue,
        injected ==> *final(keys) == *old(keys),
        !injected ==> final(keys)@ == old(keys)@.update(vk as int, false),
{
    if !injected {
        keys.set(vk, false);
    }
    KeyVerdict::Continue
}

} // verus!
