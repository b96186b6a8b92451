use vstd::prelude::*;
use crate::config::{Config, ModeField, RunMode};
use crate::modifiers::{slot_names, usable_names, ModifierPipeline};

verus! {

/// Applies a configuration: the run mode takes its timing parameters and key
/// sequence, and the result names the modifiers to load in place of the
/// current slots, if any. At startup a configured list is always honoured;
/// on a reload only when the configuration allows reloading modifiers. A
/// list naming exactly the loaded slots keeps their enabled states.
pub fn apply_config(
    mode: &mut RunMode,
    pipeline: &ModifierPipeline,
    config: Config,
    startup: bool,
) -> (r: Option<Vec<String>>)
    ensures
        final(mode).tabindex_keyseq()@ == config.tabindex_key@,
        final(mode).line_delay_msec() == config.line_delay_msec,
        final(mode).char_delay_msec() == config.char_delay_msec,
        final(mode).max_line_len() == config.max_line_length,
        final(mode).paste_timeout_msec() == config.paste_timeout,
        RunMode::same_except(*final(mode), *old(mode), ModeField::Timing),
        match config.text_modifiers {
            Some(list) if startup || config.text_modifiers_dyn_load => {
                let names = usable_names(list@);
                let same = names.map_values(|n: String| n@) == slot_names(pipeline.slots());
                &&& (names.len() == 0 || same) ==> r.is_none()
                &&& !(names.len() == 0 || same) ==> (r matches Some(v) && v@ == names)
            },
            _ => r.is_none(),
        },
{
    let plan = match &config.text_modifiers {
        Some(list) => {
            if startup || config.text_modifiers_dyn_load {
                pipeline.plan_reload(list)
            } else {
                None
            }
        },
        None => None,
    };
    mode.set_config(config);
    plan
}

/// Collapses a burst of file-change notices into one reload: each notice
/// is counted, each settles after a delay, and only the last one to settle
/// triggers the reload.
pub struct ReloadDebounce {
    outstanding: usize,
}

impl ReloadDebounce {
    pub closed spec fn outstanding(&self) -> nat {
        self.outstanding as nat
    }

    pub fn new() -> (r: Self)
        ensures
            r.outstanding() == 0,
    {
        ReloadDebounce { outstanding: 0 }
    }

    /// Counts a notice whose delay has started; returns false, counting
    /// nothing, when the count is already at its maximum (the caller then
    /// starts no delay for it).
    pub fn notice(&mut self) -> (counted: bool)
        ensures
            counted == (old(self).outstanding() < usize::MAX),
            counted ==> final(self).outstanding() == old(self).outstanding() + 1,
            !counted ==> final(self).outstanding() == old(self).outstanding(),
    {
        if self.outstanding == usize::MAX {
            return false;
        }
        self.outstanding = self.outstanding + 1;
        true
    }

    /// A notice's delay has run out; true when no later notice is pending,
    /// so the configuration should be reloaded now.
    pub fn settle(&mut self) -> (reload: bool)
        ensures
            old(self).outstanding() == 0 ==> !reload && final(self).outstanding() == 0,
            old(self).outstanding() > 0 ==> final(self).outstanding() == old(self).outstanding() - 1
                && reload == (final(self).outstanding() == 0),
    {
        if self.outstanding == 0 {
            return false;
        }
        self.outstanding = self.outstanding - 1;
        self.outstanding == 0
    }
}

} // verus!
