use combo_paste::buffer::ClipboardData;
use combo_paste::config::{Config, InputMode, RunMode};
use combo_paste::keys::VK_LCONTROL;
use combo_paste::combo::KEY_V;
use combo_paste::paste::{
    control_restore, forced_paste_keys, typing_chain, KeyStroke, LineRoute, PasteSession, TypingStep,
};

fn buffer_of(lines: &[&str]) -> ClipboardData {
    let mut b = ClipboardData::new();
    for l in lines {
        b.add_clipboard(l.to_string());
    }
    b.commit_copy_lines();
    b
}

fn mode_with(burst: bool, input: InputMode, max: usize) -> RunMode {
    let mut m = RunMode::new();
    let mut c = Config::default();
    c.max_line_length = max;
    m.set_config(c);
    m.set_burst_mode(burst);
    m.set_input_mode(input);
    m
}

#[test]
fn empty_buffer_aborts_paste() {
    let b = ClipboardData::new();
    assert!(PasteSession::start(&b, &RunMode::new()).is_none());
}

#[test]
fn single_paste_emits_one_line() {
    let mut b = buffer_of(&["a", "b", "c"]);
    let m = mode_with(false, InputMode::DirectKeyInput, 256);
    let mut s = PasteSession::start(&b, &m).unwrap();
    assert_eq!(s.next_line(&mut b), Some("a".to_owned()));
    assert_eq!(s.next_line(&mut b), None);
    assert_eq!(s.emitted_lines(), 1);
    assert_eq!(b.get_clipboard_lines(), 2);
}

#[test]
fn burst_never_emits_more_than_buffered_at_start() {
    let mut b = buffer_of(&["a", "b", "c"]);
    let m = mode_with(true, InputMode::DirectKeyInput, 256);
    let mut s = PasteSession::start(&b, &m).unwrap();
    let mut out = Vec::new();
    while let Some(line) = s.next_line(&mut b) {
        assert_eq!(s.route(&line, &m), LineRoute::TypeKeys);
        out.push(line);
        // a line arriving in the buffer mid-burst is not taken by this paste
        if out.len() == 1 {
            b.add_clipboard("late".to_owned());
        }
    }
    assert_eq!(out, vec!["a", "b", "c"]);
    assert_eq!(s.emitted_lines(), 3);
    assert_eq!(b.snapshot(), vec!["late".to_owned()]);
}

#[test]
fn burst_in_clipboard_mode_emits_one_line() {
    let mut b = buffer_of(&["a", "b"]);
    let m = mode_with(true, InputMode::Clipboard, 256);
    let mut s = PasteSession::start(&b, &m).unwrap();
    let line = s.next_line(&mut b).unwrap();
    assert_eq!(s.route(&line, &m), LineRoute::ViaClipboard);
    assert_eq!(s.next_line(&mut b), None);
}

#[test]
fn long_line_goes_through_clipboard_for_that_line_only() {
    let long = "x".repeat(600);
    let mut b = buffer_of(&[long.as_str(), "short", "tail"]);
    let m = mode_with(true, InputMode::DirectKeyInput, 256);
    let mut s = PasteSession::start(&b, &m).unwrap();
    let line = s.next_line(&mut b).unwrap();
    assert_eq!(line.len(), 600);
    assert_eq!(s.route(&line, &m), LineRoute::ViaClipboard);
    // the burst stops after the clipboard line
    assert_eq!(s.next_line(&mut b), None);
    assert!(s.forced_paste_due(300, 250));
    // the run mode itself was not switched
    assert_eq!(m.get_input_mode(), InputMode::DirectKeyInput);
    assert!(m.is_burst_mode());
    // the next paste types again
    let mut s = PasteSession::start(&b, &m).unwrap();
    let line = s.next_line(&mut b).unwrap();
    assert_eq!(s.route(&line, &m), LineRoute::TypeKeys);
    assert!(!s.forced_paste_due(10_000, 250));
}

#[test]
fn line_at_maximum_is_typed() {
    let mut b = buffer_of(&["abcd"]);
    let m = mode_with(false, InputMode::DirectKeyInput, 4);
    let mut s = PasteSession::start(&b, &m).unwrap();
    let line = s.next_line(&mut b).unwrap();
    assert_eq!(s.route(&line, &m), LineRoute::TypeKeys);
}

#[test]
fn empty_line_in_clipboard_mode_places_nothing() {
    let mut b = buffer_of(&[""]);
    let m = mode_with(false, InputMode::Clipboard, 256);
    let mut s = PasteSession::start(&b, &m).unwrap();
    let line = s.next_line(&mut b).unwrap();
    assert_eq!(s.route(&line, &m), LineRoute::Nothing);
}

#[test]
fn forced_paste_needs_timeout_exceeded() {
    let mut b = buffer_of(&["a"]);
    let m = mode_with(false, InputMode::Clipboard, 256);
    let mut s = PasteSession::start(&b, &m).unwrap();
    assert!(!s.forced_paste_due(1000, 250));
    let line = s.next_line(&mut b).unwrap();
    s.route(&line, &m);
    assert!(!s.forced_paste_due(250, 250));
    assert!(s.forced_paste_due(251, 250));
}

#[test]
fn forced_paste_keeps_held_control() {
    let held = forced_paste_keys(true);
    assert_eq!(
        held,
        vec![
            KeyStroke { vk: VK_LCONTROL, down: true },
            KeyStroke { vk: KEY_V, down: true },
            KeyStroke { vk: KEY_V, down: false },
        ]
    );
    let released = forced_paste_keys(false);
    assert_eq!(released.len(), 4);
    assert_eq!(released[3], KeyStroke { vk: VK_LCONTROL, down: false });
    assert_eq!(control_restore(true), KeyStroke { vk: VK_LCONTROL, down: true });
    assert_eq!(control_restore(false), KeyStroke { vk: VK_LCONTROL, down: false });
}

#[test]
fn separator_follows_typed_burst_lines_only() {
    let long = "y".repeat(20);
    let mut b = buffer_of(&["a", long.as_str()]);
    let m = mode_with(true, InputMode::DirectKeyInput, 10);
    let mut s = PasteSession::start(&b, &m).unwrap();
    let line = s.next_line(&mut b).unwrap();
    let r = s.route(&line, &m);
    assert!(s.separator_follows(r));
    let line = s.next_line(&mut b).unwrap();
    let r = s.route(&line, &m);
    assert_eq!(r, LineRoute::ViaClipboard);
    assert!(!s.separator_follows(r));
    let mut b = buffer_of(&["a"]);
    let m = mode_with(false, InputMode::DirectKeyInput, 10);
    let mut s = PasteSession::start(&b, &m).unwrap();
    let line = s.next_line(&mut b).unwrap();
    let r = s.route(&line, &m);
    assert!(!s.separator_follows(r));
}

#[test]
fn typing_chain_releases_control_then_types() {
    assert_eq!(
        typing_chain("hé\t"),
        vec![
            TypingStep::Key(KeyStroke { vk: VK_LCONTROL, down: false }),
            TypingStep::Char('h'),
            TypingStep::Char('é'),
            TypingStep::Char('\t'),
        ]
    );
    assert_eq!(typing_chain(""), vec![TypingStep::Key(KeyStroke { vk: VK_LCONTROL, down: false })]);
}
