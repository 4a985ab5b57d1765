use iced_ui::number_input::{NumberInput, Numeric};

#[test]
fn integers_saturate_at_their_bounds() {
    assert_eq!(250u8.add(10), 255);
    assert_eq!(5u8.sub(10), 0);
    assert_eq!(i8::MIN.sub(1), i8::MIN);
    assert_eq!(i64::MAX.add(1), i64::MAX);
    assert_eq!(i32::MIN.add(-1), i32::MIN);
    assert_eq!(7i16.sub(-3), 10);
}

#[test]
fn characters_allowed_while_typing() {
    assert!(u32::is_valid_char('7', ""));
    assert!(!u32::is_valid_char('-', ""));
    assert!(i32::is_valid_char('-', ""));
    assert!(!i32::is_valid_char('-', "1"));
    assert!(!i32::is_valid_char('.', "1"));
}

#[test]
fn parsing_follows_from_str() {
    assert_eq!(u8::parse_text("255"), Some(255));
    assert_eq!(u8::parse_text("256"), None);
    assert_eq!(i8::parse_text("-128"), Some(-128));
    assert_eq!(i64::parse_text("-9223372036854775808"), Some(i64::MIN));
    assert_eq!(u32::parse_text("+12"), Some(12));
    assert_eq!(u32::parse_text("-1"), None);
    assert_eq!(i32::parse_text("-"), None);
    assert_eq!(i32::parse_text(""), None);
    assert_eq!(i32::parse_text("1 2"), None);
}

#[test]
fn values_print_as_display_does() {
    assert_eq!(i64::MIN.to_text(), i64::MIN.to_string());
    assert_eq!((-42i32).to_text(), "-42");
    assert_eq!(0u16.to_text(), "0");
}

#[test]
fn stepping_clamps_to_the_range() {
    let input = NumberInput::new(9u32).range(0..=10).step(5);
    assert_eq!(input.step_value(true), 10);
    assert_eq!(input.step_value(false), 4);
    let input = NumberInput::new(1i32).step(5);
    assert_eq!(input.step_value(false), -4);
}

#[test]
fn typing_updates_validity() {
    let input = NumberInput::new(5i32).range(-10..=10);
    let mut state = input.initial_state();
    assert_eq!(state.text, "5");
    assert_eq!(input.text_changed(&mut state, "-".to_string()), None);
    assert!(!state.is_valid);
    assert_eq!(state.text, "-");
    assert_eq!(input.text_changed(&mut state, "-7".to_string()), Some(-7));
    assert!(state.is_valid);
    assert_eq!(input.text_changed(&mut state, "-70".to_string()), None);
    assert!(!state.is_valid);
    assert_eq!(input.text_changed(&mut state, "7-".to_string()), None);
    assert_eq!(state.text, "-70");
    assert_eq!(input.text_changed(&mut state, String::new()), None);
    assert!(state.is_valid);
}

#[test]
fn committing_clamps_or_reverts() {
    let input = NumberInput::new(5u8).range(0..=100);
    let mut state = input.initial_state();
    input.text_changed(&mut state, "200".to_string());
    assert_eq!(input.commit_text(&mut state), Some(100));
    assert_eq!(state.text, "100");
    input.text_changed(&mut state, String::new());
    assert_eq!(input.commit_text(&mut state), None);
    assert_eq!(state.text, "5");
    assert!(state.is_valid);
}

#[test]
fn stepper_press_shows_the_new_value() {
    let input = NumberInput::new(3u64).step(2);
    let mut state = input.initial_state();
    assert_eq!(input.step_pressed(&mut state, true), 5);
    assert_eq!(state.text, "5");
    input.sync_text(&mut state, false);
    assert_eq!(state.text, "3");
}

#[test]
fn valid_text_is_checked_keystroke_by_keystroke() {
    assert!(NumberInput::<i32>::is_valid_text("-12"));
    assert!(!NumberInput::<i32>::is_valid_text("1-2"));
    assert!(!NumberInput::<u8>::is_valid_text("-1"));
    assert!(NumberInput::<u8>::is_valid_text(""));
}

#[test]
fn committing_twice_changes_nothing() {
    let input = NumberInput::new(0i16).range(-5..=5);
    let mut state = input.initial_state();
    input.text_changed(&mut state, "-9".to_string());
    let first = input.commit_text(&mut state);
    let text = state.text.clone();
    let second = input.commit_text(&mut state);
    assert_eq!(first, Some(-5));
    assert_eq!(second, first);
    assert_eq!(state.text, text);
}
