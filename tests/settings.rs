use combo_paste::config::{Config, HookMode, InputMode, RunMode};
use combo_paste::engine::{apply_config, ReloadDebounce};
use combo_paste::modifiers::ModifierPipeline;

#[test]
fn config_defaults() {
    let c = Config::default();
    assert_eq!(c.tabindex_key, "\t");
    assert_eq!(c.line_delay_msec, 200);
    assert_eq!(c.char_delay_msec, 0);
    assert_eq!(c.paste_timeout, 250);
    assert_eq!(c.max_line_length, 256);
    assert!(!c.text_modifiers_dyn_load);
    assert!(c.text_modifiers.is_none());
}

#[test]
fn run_mode_defaults() {
    let m = RunMode::new();
    assert_eq!(m.get_input_mode(), InputMode::DirectKeyInput);
    assert!(!m.is_burst_mode());
    assert_eq!(m.get_tabindex_keyseq(), "");
    assert_eq!(m.get_line_delay_msec(), 200);
    assert_eq!(m.get_char_delay_msec(), 0);
    assert_eq!(m.paste_timeout(), 0);
    assert_eq!(m.get_max_line_len(), 512);
    assert_eq!(m.get_hook_mode(), HookMode::Override);
    assert_eq!(m.get_palette_no(), 0);
}

#[test]
fn set_config_takes_timing_only() {
    let mut m = RunMode::new();
    m.set_burst_mode(true);
    m.set_palette_no(2);
    let mut c = Config::default();
    c.tabindex_key = "\t\t".to_owned();
    c.line_delay_msec = 5;
    c.char_delay_msec = 7;
    c.paste_timeout = 900;
    c.max_line_length = 40;
    m.set_config(c);
    assert_eq!(m.get_tabindex_keyseq(), "\t\t");
    assert_eq!(m.get_line_delay_msec(), 5);
    assert_eq!(m.get_char_delay_msec(), 7);
    assert_eq!(m.paste_timeout(), 900);
    assert_eq!(m.get_max_line_len(), 40);
    assert!(m.is_burst_mode());
    assert_eq!(m.get_palette_no(), 2);
}

#[test]
fn command_line_flags_configure_modes() {
    let m = RunMode::new().configure(true, false);
    assert_eq!(m.get_input_mode(), InputMode::Clipboard);
    assert!(!m.is_burst_mode());
    let m = RunMode::new().configure(false, true);
    assert_eq!(m.get_input_mode(), InputMode::DirectKeyInput);
    assert!(m.is_burst_mode());
}

#[test]
fn hook_mode_toggles_back_and_forth() {
    let mut m = RunMode::new();
    assert_eq!(m.toggle_hook_mode(), HookMode::OsStandard);
    assert_eq!(m.toggle_hook_mode(), HookMode::Override);
    m.set_hook_mode(HookMode::OsStandard);
    assert_eq!(m.get_hook_mode(), HookMode::OsStandard);
}

#[test]
fn apply_config_plans_modifier_loads() {
    let mut m = RunMode::new();
    let mut p = ModifierPipeline::new();
    let mut c = Config::default();
    c.text_modifiers = Some(vec!["a".to_owned(), "".to_owned(), "b".to_owned()]);
    assert_eq!(apply_config(&mut m, &p, c.clone(), true), Some(vec!["a".to_owned(), "b".to_owned()]));
    assert_eq!(m.get_tabindex_keyseq(), "\t");
    // on reload the list is honoured only when reloading is allowed
    assert_eq!(apply_config(&mut m, &p, c.clone(), false), None);
    c.text_modifiers_dyn_load = true;
    assert_eq!(apply_config(&mut m, &p, c.clone(), false), Some(vec!["a".to_owned(), "b".to_owned()]));
    p.push_slot("a".to_owned(), String::new());
    p.push_slot("b".to_owned(), String::new());
    p.toggle(0);
    assert_eq!(apply_config(&mut m, &p, c, false), None);
    assert_eq!(p.is_enabled(0), Some(false));
}

#[test]
fn debounce_reloads_after_last_notice() {
    let mut d = ReloadDebounce::new();
    assert!(!d.settle());
    assert!(d.notice());
    assert!(d.notice());
    assert!(d.notice());
    assert!(!d.settle());
    assert!(!d.settle());
    assert!(d.settle());
    assert!(!d.settle());
}
