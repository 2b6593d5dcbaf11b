use girl::input::{buttons, buttons_pressed, Button, Buttons};

/// Querying the union of two buttons is true exactly when both are pressed.
#[test]
fn pair_query_needs_both() {
    let a = Button::A.mask();
    let b = Button::B.mask();
    let query = a.union(b);

    let pressed_both = a.union(b);
    assert!(buttons_pressed(pressed_both, query));

    let pressed_one = a;
    assert!(!buttons_pressed(pressed_one, query));
    assert!(!buttons_pressed(b, query));

    // other pressed buttons play no part
    let with_extra = pressed_both.union(Button::Start.mask());
    assert!(buttons_pressed(with_extra, query));

    // but the full-mask comparison sees the extra button
    assert_eq!(buttons(with_extra, with_extra), with_extra);
    assert_ne!(buttons(pressed_both, with_extra), with_extra);
    assert!(!buttons_pressed(pressed_both, with_extra));
}

/// The filtered query returns exactly the queried buttons that are pressed.
#[test]
fn filtered_query_is_intersection() {
    let pressed = Button::X.mask().union(Button::Y.mask()).union(Button::DPadUp.mask());
    let query = Button::Y.mask().union(Button::DPadDown.mask());
    let held = buttons(pressed, query);
    assert_eq!(held, Button::Y.mask());
    assert!(held.contains(Button::Y));
    assert!(!held.contains(Button::X));
    assert!(!held.contains(Button::DPadDown));
}

/// Masks assign one distinct bit per button.
#[test]
fn masks_are_single_distinct_bits() {
    assert_eq!(Button::A.mask().bits, 1 << 0);
    assert_eq!(Button::B.mask().bits, 1 << 1);
    assert_eq!(Button::Touchpad.mask().bits, 1 << 20);
    for ca in 0..=20u8 {
        let a = Button::from_code(ca).unwrap().mask().bits;
        assert_eq!(a.count_ones(), 1);
        for cb in 0..=20u8 {
            let b = Button::from_code(cb).unwrap().mask().bits;
            assert_eq!(a == b, ca == cb);
        }
    }
}

/// The full set contains every button and nothing more.
#[test]
fn full_set() {
    let all = Buttons::all();
    for code in 0..=20u8 {
        assert!(all.contains(Button::from_code(code).unwrap()));
    }
    assert_eq!(all.bits.count_ones(), 21);
    assert!(buttons_pressed(all, all));
}

/// Set operations behave as set operations.
#[test]
fn set_operations() {
    let empty = Buttons::empty();
    assert_eq!(empty.bits, 0);
    assert!(!empty.contains(Button::A));
    let s = empty.insert(Button::Guide);
    assert!(s.contains(Button::Guide));
    let s2 = s.insert(Button::Guide);
    assert_eq!(s, s2);
    let u = s.union(Button::Back.mask());
    assert!(u.contains(Button::Guide) && u.contains(Button::Back));
    // the empty query is always fully pressed
    assert!(buttons_pressed(empty, empty));
    assert!(buttons_pressed(u, s));
    assert!(!buttons_pressed(s, u));
}
