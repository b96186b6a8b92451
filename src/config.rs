use vstd::prelude::*;

verus! {

/// Persisted settings, applied at startup and on every reload.
#[derive(Clone, Debug)]
pub struct Config {
    pub tabindex_key: String,
    pub line_delay_msec: u64,
    pub char_delay_msec: u64,
    pub paste_timeout: u64,
    pub max_line_length: usize,
    /// Whether a reload also reloads the modifier list.
    pub text_modifiers_dyn_load: bool,
    pub text_modifiers: Option<Vec<String>>,
}

impl Default for Config {
    fn default() -> (r: Self)
        ensures
            r.tabindex_key@ == "\t"@,
            r.line_delay_msec == 200,
            r.char_delay_msec == 0,
            r.paste_timeout == 250,
            r.max_line_length == 256,
            !r.text_modifiers_dyn_load,
            r.text_modifiers.is_none(),
    {
        Config {
            tabindex_key: "\t".to_owned(),
            line_delay_msec: 200,
            char_delay_msec: 0,
            paste_timeout: 250,
            max_line_length: 256,
            text_modifiers_dyn_load: false,
            text_modifiers: None,
        }
    }
}

/// How a pasted line reaches the focused application.
#[derive(Clone, Copy, Debug, PartialEq, Eq, Structural)]
pub enum InputMode {
    Clipboard,
    DirectKeyInput,
}

/// Whether the engine's chords are active or the OS's own shortcuts are.
#[derive(Clone, Copy, Debug, PartialEq, Eq, Structural)]
pub enum HookMode {
    OsStandard,
    Override,
}

/// A group of `RunMode` fields, for stating what an update leaves alone.
#[derive(Clone, Copy, Debug, PartialEq, Eq, Structural)]
pub enum ModeField {
    Input,
    Burst,
    /// The timing parameters, the maximum line length and the key sequence.
    Timing,
    Hook,
    Palette,
    /// No field: every field is compared.
    Nothing,
}

/// The behaviour flags and timing parameters every component reads.
#[derive(Clone, Debug)]
pub struct RunMode {
    input_mode: InputMode,
    burst_mode: bool,
    tabindex_keyseq: String,
    line_delay_msec: u64,
    char_delay_msec: u64,
    paste_timeout: u64,
    max_line_len: usize,
    hook_mode: HookMode,
    palette_no: usize,
}

impl Default for RunMode {
    fn default() -> (r: Self)
        ensures
            r.input_mode() == InputMode::DirectKeyInput,
            !r.burst_mode(),
            r.tabindex_keyseq()@.len() == 0,
            r.line_delay_msec() == 200,
            r.char_delay_msec() == 0,
            r.paste_timeout_msec() == 0,
            r.max_line_len() == 512,
            r.hook_mode() == HookMode::Override,
            r.palette_no() == 0,
    {
        RunMode {
            input_mode: InputMode::DirectKeyInput,
            burst_mode: false,
            tabindex_keyseq: String::new(),
            line_delay_msec: 200,
            char_delay_msec: 0,
            paste_timeout: 0,
            max_line_len: 512,
            hook_mode: HookMode::Override,
            palette_no: 0,
        }
    }
}

impl RunMode {
    pub closed spec fn input_mode(&self) -> InputMode {
        self.input_mode
    }

    pub closed spec fn burst_mode(&self) -> bool {
        self.burst_mode
    }

    pub closed spec fn tabindex_keyseq(&self) -> String {
        self.tabindex_keyseq
    }

    pub closed spec fn line_delay_msec(&self) -> u64 {
        self.line_delay_msec
    }

    pub closed spec fn char_delay_msec(&self) -> u64 {
        self.char_delay_msec
    }

    pub closed spec fn paste_timeout_msec(&self) -> u64 {
        self.paste_timeout
    }

    pub closed spec fn max_line_len(&self) -> usize {
        self.max_line_len
    }

    pub closed spec fn hook_mode(&self) -> HookMode {
        self.hook_mode
    }

    pub closed spec fn palette_no(&self) -> usize {
        self.palette_no
    }

    /// Every field but `field` is the same in `a` and `b`.
    pub open spec fn same_except(a: RunMode, b: RunMode, field: ModeField) -> bool {
        &&& (field != ModeField::Input ==> a.input_mode() == b.input_mode())
        &&& (field != ModeField::Burst ==> a.burst_mode() == b.burst_mode())
        &&& (field != ModeField::Timing ==> {
            &&& a.tabindex_keyseq()@ == b.tabindex_keyseq()@
            &&& a.line_delay_msec() == b.line_delay_msec()
            &&& a.char_delay_msec() == b.char_delay_msec()
            &&& a.paste_timeout_msec() == b.paste_timeout_msec()
            &&& a.max_line_len() == b.max_line_len()
        })
        &&& (field != ModeField::Hook ==> a.hook_mode() == b.hook_mode())
        &&& (field != ModeField::Palette ==> a.palette_no() == b.palette_no())
    }

    /// Everything but the input mode and burst mode is the same in `a` and `b`.
    pub open spec fn same_except_modes(a: RunMode, b: RunMode) -> bool {
        &&& a.tabindex_keyseq()@ == b.tabindex_keyseq()@
        &&& a.line_delay_msec() == b.line_delay_msec()
        &&& a.char_delay_msec() == b.char_delay_msec()
        &&& a.paste_timeout_msec() == b.paste_timeout_msec()
        &&& a.max_line_len() == b.max_line_len()
        &&& a.hook_mode() == b.hook_mode()
        &&& a.palette_no() == b.palette_no()
    }

    pub fn new() -> (r: Self)
        ensures
            r.input_mode() == InputMode::DirectKeyInput,
            !r.burst_mode(),
            r.tabindex_keyseq()@.len() == 0,
            r.line_delay_msec() == 200,
            r.char_delay_msec() == 0,
            r.paste_timeout_msec() == 0,
            r.max_line_len() == 512,
            r.hook_mode() == HookMode::Override,
            r.palette_no() == 0,
    {
        RunMode::default()
    }

    /// Takes the timing parameters and the tab-index key sequence from `config`.
    pub fn set_config(&mut self, config: Config)
        ensures
            final(self).tabindex_keyseq()@ == config.tabindex_key@,
            final(self).line_delay_msec() == config.line_delay_msec,
            final(self).char_delay_msec() == config.char_delay_msec,
            final(self).max_line_len() == config.max_line_length,
            final(self).paste_timeout_msec() == config.paste_timeout,
            RunMode::same_except(*final(self), *old(self), ModeField::Timing),
    {
        self.tabindex_keyseq = config.tabindex_key;
        self.line_delay_msec = config.line_delay_msec;
        self.char_delay_msec = config.char_delay_msec;
        self.max_line_len = config.max_line_length;
        self.paste_timeout = config.paste_timeout;
    }

    /// Applies the command-line choices: burst mode, and clipboard input
    /// instead of direct key input.
    pub fn configure(self, clipboard: bool, burst: bool) -> (r: RunMode)
        ensures
            r.burst_mode() == burst,
            r.input_mode() == (if clipboard { InputMode::Clipboard } else { InputMode::DirectKeyInput }),
            r.hook_mode() == self.hook_mode(),
            r.palette_no() == self.palette_no(),
            r.max_line_len() == self.max_line_len(),
            r.tabindex_keyseq()@ == self.tabindex_keyseq()@,
            r.line_delay_msec() == self.line_delay_msec(),
            r.char_delay_msec() == self.char_delay_msec(),
            r.paste_timeout_msec() == self.paste_timeout_msec(),
    {
        let mut run_mode = self;
        run_mode.set_burst_mode(burst);
        run_mode.set_input_mode(if clipboard { InputMode::Clipboard } else { InputMode::DirectKeyInput });
        run_mode
    }

    pub fn set_burst_mode(&mut self, burst_mode: bool)
        ensures
            final(self).burst_mode() == burst_mode,
            RunMode::same_except(*final(self), *old(self), ModeField::Burst),
    {
        self.burst_mode = burst_mode;
    }

    pub fn is_burst_mode(&self) -> (r: bool)
        ensures
            r == self.burst_mode(),
    {
        self.burst_mode
    }

    pub fn set_input_mode(&mut self, input_mode: InputMode)
        ensures
            final(self).input_mode() == input_mode,
            RunMode::same_except(*final(self), *old(self), ModeField::Input),
    {
        self.input_mode = input_mode;
    }

    pub fn get_input_mode(&self) -> (r: InputMode)
        ensures
            r == self.input_mode(),
    {
        self.input_mode
    }

    pub fn get_tabindex_keyseq(&self) -> (r: String)
        ensures
            r@ == self.tabindex_keyseq()@,
    {
        self.tabindex_keyseq.clone()
    }

    pub fn get_line_delay_msec(&self) -> (r: u64)
        ensures
            r == self.line_delay_msec(),
    {
        self.line_delay_msec
    }

    pub fn get_char_delay_msec(&self) -> (r: u64)
        ensures
            r == self.char_delay_msec(),
    {
        self.char_delay_msec
    }

    pub fn paste_timeout(&self) -> (r: u64)
        ensures
            r == self.paste_timeout_msec(),
    {
        self.paste_timeout
    }

    pub fn get_max_line_len(&self) -> (r: usize)
        ensures
            r == self.max_line_len(),
    {
        self.max_line_len
    }

    pub fn set_hook_mode(&mut self, mode: HookMode)
        ensures
            final(self).hook_mode() == mode,
            RunMode::same_except(*final(self), *old(self), ModeField::Hook),
    {
        self.hook_mode = mode;
    }

    pub fn get_hook_mode(&self) -> (r: HookMode)
        ensures
            r == self.hook_mode(),
    {
        self.hook_mode
    }

    pub fn get_palette_no(&self) -> (r: usize)
        ensures
            r == self.palette_no(),
    {
        self.palette_no
    }

    pub fn set_palette_no(&mut self, no: usize)
        ensures
            final(self).palette_no() == no,
            RunMode::same_except(*final(self), *old(self), ModeField::Palette),
    {
        self.palette_no = no;
    }

    /// Switches between the engine's chords and the OS's own shortcuts;
    /// returns the new mode.
    pub fn toggle_hook_mode(&mut self) -> (r: HookMode)
        ensures
            r == final(self).hook_mode(),
            old(self).hook_mode() == HookMode::Override ==> r == HookMode::OsStandard,
            old(self).hook_mode() == HookMode::OsStandard ==> r == HookMode::Override,
            RunMode::same_except(*final(self), *old(self), ModeField::Hook),
    {
        let next = match self.hook_mode {
            HookMode::Override => HookMode::OsStandard,
            HookMode::OsStandard => HookMode::Override,
        };
        self.hook_mode = next;
        next
    }

    /// Switches the input mode. Going to clipboard input turns burst mode
    /// off, since bursts are typed; going to direct key input keeps it.
    pub fn toggle_input_mode(&mut self)
        ensures
            old(self).input_mode() == InputMode::Clipboard ==> {
                &&& final(self).input_mode() == InputMode::DirectKeyInput
                &&& final(self).burst_mode() == old(self).burst_mode()
            },
            old(self).input_mode() == InputMode::DirectKeyInput ==> {
                &&& final(self).input_mode() == InputMode::Clipboard
                &&& !final(self).burst_mode()
            },
            RunMode::same_except_modes(*final(self), *old(self)),
    {
        match self.input_mode {
            InputMode::Clipboard => {
                self.input_mode = InputMode::DirectKeyInput;
            },
            InputMode::DirectKeyInput => {
                self.input_mode = InputMode::Clipboard;
                self.burst_mode = false;
            },
        }
    }

    /// Switches burst mode. Turning it on also selects direct key input,
    /// since a burst is typed line by line.
    pub fn toggle_burst_mode(&mut self)
        ensures
            final(self).burst_mode() == !old(self).burst_mode(),
            final(self).burst_mode() ==> final(self).input_mode() == InputMode::DirectKeyInput,
            !final(self).burst_mode() ==> final(self).input_mode() == old(self).input_mode(),
            RunMode::same_except_modes(*final(self), *old(self)),
    {
        self.burst_mode = !self.burst_mode;
        if self.burst_mode {
            self.input_mode = InputMode::DirectKeyInput;
        }
    }
}

} // verus!
