use combo_paste::modifiers::{finish_line, palette_slot, shift_palette, ModifierPipeline};

fn three_slots() -> ModifierPipeline {
    let mut p = ModifierPipeline::new();
    p.push_slot("upper".to_owned(), "upper-case".to_owned());
    p.push_slot("bang".to_owned(), "append !".to_owned());
    p.push_slot("wrap".to_owned(), "brackets".to_owned());
    p
}

fn run(slot: usize, b: Vec<u8>) -> Vec<u8> {
    match slot {
        0 => b.to_ascii_uppercase(),
        1 => {
            let mut b = b;
            b.push(b'!');
            b
        }
        _ => {
            let mut r = vec![b'['];
            r.extend(b);
            r.push(b']');
            r
        }
    }
}

#[test]
fn enabled_slots_run_in_position_order() {
    let p = three_slots();
    assert_eq!(p.apply(&"ab".to_owned(), run), "[AB!]");
}

#[test]
fn chained_application_equals_stepwise_application() {
    let p = three_slots();
    let line = "xy".to_owned();
    let whole = p.apply(&line, run);
    let step = run(2, run(1, run(0, line.as_bytes().to_vec())));
    assert_eq!(whole.as_bytes(), &step[..]);
}

#[test]
fn disabled_slot_has_no_effect_on_next_apply() {
    let mut p = three_slots();
    assert_eq!(p.toggle(1), Some(false));
    assert_eq!(p.enabled_order(), vec![0, 2]);
    assert_eq!(p.apply(&"ab".to_owned(), run), "[AB]");
    assert_eq!(p.toggle(0), Some(false));
    assert_eq!(p.apply(&"ab".to_owned(), run), "[ab]");
    assert_eq!(p.toggle(1), Some(true));
    assert_eq!(p.apply(&"ab".to_owned(), run), "[ab!]");
}

#[test]
fn no_enabled_slot_leaves_line_unchanged() {
    let p = ModifierPipeline::new();
    assert_eq!(p.apply(&"héllo".to_owned(), run), "héllo");
}

#[test]
fn invalid_utf8_output_rolls_back() {
    let mut p = ModifierPipeline::new();
    p.push_slot("broken".to_owned(), String::new());
    let out = p.apply(&"keep me".to_owned(), |_i: usize, _b: Vec<u8>| vec![0xff, 0xfe]);
    assert_eq!(out, "keep me");
    assert_eq!(finish_line("orig".to_owned(), vec![0xc3, 0xa9]), "é");
    assert_eq!(finish_line("orig".to_owned(), vec![0xc3]), "orig");
}

#[test]
fn toggle_out_of_range_is_none() {
    let mut p = three_slots();
    assert_eq!(p.toggle(3), None);
    assert_eq!(p.is_enabled(3), None);
    assert_eq!(p.enabled_order(), vec![0, 1, 2]);
}

#[test]
fn palette_view_is_clamped() {
    let mut p = ModifierPipeline::new();
    for i in 0..11 {
        p.push_slot(format!("m{i}"), String::new());
    }
    let v = p.active_palette_view(0);
    assert_eq!(v.len(), 9);
    assert_eq!(v[0].name, "m0");
    let v = p.active_palette_view(1);
    assert_eq!(v.iter().map(|s| s.name.clone()).collect::<Vec<_>>(), vec!["m9", "m10"]);
    assert_eq!(p.active_palette_view(2).len(), 0);
    assert_eq!(p.active_palette_view(usize::MAX).len(), 0);
}

#[test]
fn palette_shift_wraps_both_ways() {
    assert_eq!(shift_palette(2, 27, false), 0);
    assert_eq!(shift_palette(0, 27, true), 2);
    assert_eq!(shift_palette(1, 27, false), 2);
    assert_eq!(shift_palette(2, 27, true), 1);
    assert_eq!(shift_palette(0, 28, true), 3);
    assert_eq!(shift_palette(0, 9, false), 0);
    assert_eq!(shift_palette(0, 0, false), 0);
    assert_eq!(shift_palette(5, 0, true), 0);
    assert_eq!(shift_palette(7, 10, true), 1);
}

#[test]
fn palette_digit_selects_slot() {
    assert_eq!(palette_slot(0, 1), Some(0));
    assert_eq!(palette_slot(2, 9), Some(26));
    assert_eq!(palette_slot(usize::MAX, 1), None);
}

#[test]
fn reload_keeps_state_for_same_list() {
    let mut p = three_slots();
    p.toggle(1);
    let same = vec!["upper".to_owned(), "".to_owned(), "bang".to_owned(), "wrap".to_owned()];
    assert_eq!(p.plan_reload(&same), None);
    let other = vec!["upper".to_owned(), "wrap".to_owned()];
    assert_eq!(p.plan_reload(&other), Some(other.clone()));
    assert_eq!(p.plan_reload(&vec!["".to_owned()]), None);
    assert_eq!(p.plan_reload(&vec![]), None);
    p.clear();
    assert_eq!(p.slot_count(), 0);
}
