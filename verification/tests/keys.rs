use scaffolder::key::{classify, Input, KeyCode, KeyPress, Modifiers};

fn press(code: KeyCode, modifiers: Modifiers) -> KeyPress {
    KeyPress { code, modifiers }
}

#[test]
fn no_modifiers_holds_nothing() {
    let none = Modifiers::none();
    assert!(!none.shift && !none.control && !none.alt);
    assert!(!none.super_key && !none.hyper && !none.meta);
}

#[test]
fn control_holds_control_alone() {
    let control = Modifiers::control();
    assert!(control.control);
    assert_eq!(Modifiers { control: false, ..control }, Modifiers::none());
}

#[test]
fn control_c_is_the_interrupt() {
    assert_eq!(classify(press(KeyCode::Char('c'), Modifiers::control())), Input::Interrupt);
}

#[test]
fn plain_c_is_a_character() {
    assert_eq!(classify(press(KeyCode::Char('c'), Modifiers::none())), Input::Character('c'));
}

#[test]
fn control_with_another_modifier_is_no_interrupt() {
    let both = Modifiers { shift: true, ..Modifiers::control() };
    assert_eq!(classify(press(KeyCode::Char('c'), both)), Input::Character('c'));
    let alt = Modifiers { alt: true, ..Modifiers::control() };
    assert_eq!(classify(press(KeyCode::Char('c'), alt)), Input::Character('c'));
    let meta = Modifiers { meta: true, ..Modifiers::control() };
    assert_eq!(classify(press(KeyCode::Char('c'), meta)), Input::Character('c'));
}

#[test]
fn control_with_another_letter_is_that_letter() {
    assert_eq!(classify(press(KeyCode::Char('x'), Modifiers::control())), Input::Character('x'));
    assert_eq!(classify(press(KeyCode::Char('C'), Modifiers::control())), Input::Character('C'));
}

#[test]
fn shifted_letter_is_a_character() {
    let shift = Modifiers { shift: true, ..Modifiers::none() };
    assert_eq!(classify(press(KeyCode::Char('A'), shift)), Input::Character('A'));
}

#[test]
fn named_keys_map_to_their_inputs() {
    assert_eq!(classify(press(KeyCode::Up, Modifiers::none())), Input::Up);
    assert_eq!(classify(press(KeyCode::Down, Modifiers::none())), Input::Down);
    assert_eq!(classify(press(KeyCode::Enter, Modifiers::none())), Input::Confirm);
    assert_eq!(classify(press(KeyCode::Backspace, Modifiers::none())), Input::Backspace);
}

#[test]
fn named_keys_ignore_modifiers() {
    assert_eq!(classify(press(KeyCode::Up, Modifiers::control())), Input::Up);
    assert_eq!(classify(press(KeyCode::Enter, Modifiers::control())), Input::Confirm);
}

#[test]
fn other_keys_are_ignored() {
    assert_eq!(classify(press(KeyCode::Other, Modifiers::none())), Input::Ignored);
    assert_eq!(classify(press(KeyCode::Other, Modifiers::control())), Input::Ignored);
}
