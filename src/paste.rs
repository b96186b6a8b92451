use vstd::prelude::*;
use vstd::string::*;
use crate::buffer::ClipboardData;
use crate::config::{InputMode, RunMode};
use crate::combo::KEY_V;
use crate::keys::VK_LCONTROL;

verus! {

/// How one pasted line is delivered.
#[derive(Clone, Copy, Debug, PartialEq, Eq, Structural)]
pub enum LineRoute {
    /// Typed as synthesized keystrokes.
    TypeKeys,
    /// Placed on the system clipboard for the application's own paste.
    ViaClipboard,
    /// An empty line in clipboard mode: nothing is placed.
    Nothing,
}

/// One synthesized key event.
#[derive(Clone, Copy, Debug, PartialEq, Eq, Structural)]
pub struct KeyStroke {
    pub vk: u8,
    pub down: bool,
}

/// One step of a typed key chain: a key event, or a character to type.
#[derive(Clone, Copy, Debug, PartialEq, Eq, Structural)]
pub enum TypingStep {
    Key(KeyStroke),
    Char(char),
}

/// The chain that types `text`: Control is released first, so the
/// characters are not read as chords, then each character in order.
pub open spec fn typing_steps(text: Seq<char>) -> Seq<TypingStep>
    decreases text.len(),
{
    if text.len() == 0 {
        seq![TypingStep::Key(KeyStroke { vk: VK_LCONTROL, down: false })]
    } else {
        typing_steps(text.drop_last()).push(TypingStep::Char(text.last()))
    }
}

/// Number of UTF-8 bytes of a line, the measure the maximum line length uses.
pub open spec fn byte_len(line: Seq<char>) -> nat {
    vstd::utf8::encode_utf8(line).len()
}

/// How a line of `len` bytes goes out under `mode`. Direct key input is
/// unsuitable for lines over the maximum, which go through the clipboard.
pub open spec fn route_of(len: nat, mode: InputMode, max_line_len: nat) -> LineRoute {
    if mode == InputMode::DirectKeyInput && len <= max_line_len {
        LineRoute::TypeKeys
    } else if len == 0 {
        LineRoute::Nothing
    } else {
        LineRoute::ViaClipboard
    }
}

/// The lines one paste may emit, for `available` buffered lines: all of them
/// in a typed burst, otherwise one.
pub open spec fn paste_budget(available: nat, burst: bool, mode: InputMode) -> nat {
    if available == 0 {
        0
    } else if burst && mode == InputMode::DirectKeyInput {
        available
    } else {
        1
    }
}

/// The decisions of one paste operation: how many lines it may take from
/// the buffer, how each goes out, when a burst stops and whether the
/// application must be sent a second Control+V.
pub struct PasteSession {
    start_len: usize,
    budget: usize,
    emitted: usize,
    stopped: bool,
    clipboard_used: bool,
    typed_burst: bool,
}

impl PasteSession {
    pub closed spec fn start_len(&self) -> nat {
        self.start_len as nat
    }

    pub closed spec fn budget(&self) -> nat {
        self.budget as nat
    }

    pub closed spec fn emitted(&self) -> nat {
        self.emitted as nat
    }

    pub closed spec fn stopped(&self) -> bool {
        self.stopped
    }

    pub closed spec fn clipboard_used(&self) -> bool {
        self.clipboard_used
    }

    /// Whether this paste is a burst typed into consecutive form fields.
    pub closed spec fn typed_burst(&self) -> bool {
        self.typed_burst
    }

    /// Lines emitted never outnumber the budget, nor the budget the lines
    /// buffered when the paste began.
    pub open spec fn wf(&self) -> bool {
        self.emitted() <= self.budget() <= self.start_len()
    }

    /// Begins a paste over `buffer` under `mode`; `None` when the buffer is
    /// empty and there is nothing to paste.
    pub fn start(buffer: &ClipboardData, mode: &RunMode) -> (r: Option<PasteSession>)
        ensures
            buffer.lines().len() == 0 ==> r.is_none(),
            buffer.lines().len() > 0 ==> (r matches Some(s) && {
                &&& s.wf()
                &&& s.start_len() == buffer.lines().len()
                &&& s.budget() == paste_budget(
                    buffer.lines().len(),
                    mode.burst_mode(),
                    mode.input_mode(),
                )
                &&& s.emitted() == 0
                &&& !s.stopped()
                &&& !s.clipboard_used()
                &&& s.typed_burst() == (mode.burst_mode() && mode.input_mode()
                    == InputMode::DirectKeyInput)
            }),
    {
        let len = buffer.get_clipboard_lines();
        if len == 0 {
            return None;
        }
        let typed_burst = mode.is_burst_mode() && mode.get_input_mode() == InputMode::DirectKeyInput;
        let budget = if typed_burst {
            len
        } else {
            1
        };
        Some(
            PasteSession {
                start_len: len,
                budget,
                emitted: 0,
                stopped: false,
                clipboard_used: false,
                typed_burst,
            },
        )
    }

    /// Takes the next line to paste (the oldest one) while the budget lasts
    /// and no line has ended the session.
    pub fn next_line(&mut self, buffer: &mut ClipboardData) -> (r: Option<String>)
        requires
            old(self).wf(),
        ensures
            final(self).wf(),
            final(self).start_len() == old(self).start_len(),
            final(self).budget() == old(self).budget(),
            final(self).clipboard_used() == old(self).clipboard_used(),
            final(self).typed_burst() == old(self).typed_burst(),
            final(buffer).batches() == old(buffer).batches(),
            final(buffer).pending() == old(buffer).pending(),
            (old(self).stopped() || old(self).emitted() == old(self).budget()) ==> {
                &&& r.is_none()
                &&& *final(buffer) == *old(buffer)
                &&& *final(self) == *old(self)
            },
            !(old(self).stopped() || old(self).emitted() == old(self).budget()) ==> {
                &&& old(buffer).lines().len() == 0 ==> r.is_none() && final(self).stopped()
                    && final(self).emitted() == old(self).emitted() && final(buffer).lines()
                    == old(buffer).lines()
                &&& old(buffer).lines().len() > 0 ==> r == Some(old(buffer).lines().last())
                    && final(buffer).lines() == old(buffer).lines().drop_last()
                    && final(self).emitted() == old(self).emitted() + 1 && !final(self).stopped()
            },
    {
        if self.stopped || self.emitted == self.budget {
            return None;
        }
        match buffer.pop_back() {
            Some(line) => {
                self.emitted = self.emitted + 1;
                Some(line)
            },
            None => {
                self.stopped = true;
                None
            },
        }
    }

    /// Decides how `line` (already through the modifiers) goes out. A line
    /// that cannot be typed goes through the clipboard for this line only,
    /// and ends a burst; `mode` itself is not changed.
    pub fn route(&mut self, line: &String, mode: &RunMode) -> (r: LineRoute)
        requires
            old(self).wf(),
        ensures
            r == route_of(byte_len(line@), mode.input_mode(), mode.max_line_len() as nat),
            final(self).wf(),
            final(self).start_len() == old(self).start_len(),
            final(self).budget() == old(self).budget(),
            final(self).emitted() == old(self).emitted(),
            final(self).typed_burst() == old(self).typed_burst(),
            final(self).stopped() == (old(self).stopped() || r != LineRoute::TypeKeys),
            final(self).clipboard_used() == (old(self).clipboard_used() || r != LineRoute::TypeKeys),
    {
        let len = line.as_str().as_bytes().len();
        let r = if mode.get_input_mode() == InputMode::DirectKeyInput && len <= mode.get_max_line_len() {
            LineRoute::TypeKeys
        } else if len == 0 {
            LineRoute::Nothing
        } else {
            LineRoute::ViaClipboard
        };
        if r != LineRoute::TypeKeys {
            self.stopped = true;
            self.clipboard_used = true;
        }
        r
    }

    /// Whether the tab-index key sequence follows a line that went out by
    /// `route`: in a typed burst, after every typed line. A line sent through
    /// the clipboard ends the burst without one.
    pub fn separator_follows(&self, route: LineRoute) -> (r: bool)
        ensures
            r == (self.typed_burst() && route == LineRoute::TypeKeys),
    {
        self.typed_burst && route == LineRoute::TypeKeys
    }

    pub fn emitted_lines(&self) -> (r: usize)
        ensures
            r == self.emitted(),
    {
        self.emitted
    }

    /// Whether the application must be sent Control+V again: a line went
    /// through the clipboard and the whole paste took longer than `timeout`
    /// milliseconds, so the keystroke that started it may have been dropped.
    pub fn forced_paste_due(&self, elapsed_msec: u64, timeout: u64) -> (r: bool)
        ensures
            r == (self.clipboard_used() && elapsed_msec > timeout),
    {
        self.clipboard_used && elapsed_msec > timeout
    }
}

/// A paste never emits more lines than the buffer held when it began: the
/// bound holds in every state that `start`, `next_line` and `route` reach.
pub proof fn lemma_paste_within_start(session: PasteSession)
    requires
        session.wf(),
    ensures
        session.emitted() <= session.start_len(),
{
}

/// The key chain that re-issues Control+V. Control is released at the end
/// only if the user is not holding it.
pub fn forced_paste_keys(control_held: bool) -> (r: Vec<KeyStroke>)
    ensures
        r@ == (if control_held {
            seq![
                KeyStroke { vk: VK_LCONTROL, down: true },
                KeyStroke { vk: KEY_V, down: true },
                KeyStroke { vk: KEY_V, down: false },
            ]
        } else {
            seq![
                KeyStroke { vk: VK_LCONTROL, down: true },
                KeyStroke { vk: KEY_V, down: true },
                KeyStroke { vk: KEY_V, down: false },
                KeyStroke { vk: VK_LCONTROL, down: false },
            ]
        }),
{
    let mut r: Vec<KeyStroke> = Vec::new();
    r.push(KeyStroke { vk: VK_LCONTROL, down: true });
    r.push(KeyStroke { vk: KEY_V, down: true });
    r.push(KeyStroke { vk: KEY_V, down: false });
    if !control_held {
        r.push(KeyStroke { vk: VK_LCONTROL, down: false });
    }
    assert(r@ =~= (if control_held {
        seq![
            KeyStroke { vk: VK_LCONTROL, down: true },
            KeyStroke { vk: KEY_V, down: true },
            KeyStroke { vk: KEY_V, down: false },
        ]
    } else {
        seq![
            KeyStroke { vk: VK_LCONTROL, down: true },
            KeyStroke { vk: KEY_V, down: true },
            KeyStroke { vk: KEY_V, down: false },
            KeyStroke { vk: VK_LCONTROL, down: false },
        ]
    }));
    r
}

/// The key chain that types `text`, for a pasted line or for the tab-index
/// key sequence between burst lines.
pub fn typing_chain(text: &str) -> (r: Vec<TypingStep>)
    ensures
        r@ == typing_steps(text@),
{
    let mut r: Vec<TypingStep> = Vec::new();
    r.push(TypingStep::Key(KeyStroke { vk: VK_LCONTROL, down: false }));
    let n = text.unicode_len();
    let mut i: usize = 0;
    assert(r@ =~= typing_steps(text@.subrange(0, 0)));
    while i < n
        invariant
            n == text@.len(),
            i <= n,
            r@ == typing_steps(text@.subrange(0, i as int)),
        decreases n - i,
    {
        let c = text.get_char(i);
        r.push(TypingStep::Char(c));
        proof {
            assert(text@.subrange(0, i + 1).drop_last() =~= text@.subrange(0, i as int));
        }
        i = i + 1;
    }
    assert(text@.subrange(0, n as int) =~= text@);
    r
}

/// The Control event that follows typed text: Control is put back into the
/// state the user's hand holds it in.
pub fn control_restore(control_held: bool) -> (r: KeyStroke)
    ensures
        r == (KeyStroke { vk: VK_LCONTROL, down: control_held }),
{
    KeyStroke { vk: VK_LCONTROL, down: control_held }
}

} // verus!
