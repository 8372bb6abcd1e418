use draw_screen::{Button, CapabilityObject, Draw, Screen, Screen1, SelectBox};

fn ok_button() -> Button {
    Button {
        width: 50,
        height: 20,
        label: "ok".to_string(),
    }
}

fn first_second_box() -> SelectBox {
    SelectBox {
        width: 80,
        height: 30,
        options: vec!["first".to_string(), "second".to_string()],
    }
}

#[test]
fn widgets_draw_their_own_line() {
    assert_eq!(ok_button().draw(), "Draw Button");
    assert_eq!(first_second_box().draw(), "Draw SelectBox");
}

#[test]
fn wrapped_value_draws_through_its_own_impl() {
    let b = CapabilityObject::wrap(ok_button());
    let s = CapabilityObject::wrap(first_second_box());
    assert_eq!(b.invoke_draw(), "Draw Button");
    assert_eq!(s.invoke_draw(), "Draw SelectBox");
}

#[test]
fn mixed_screen_renders_button_then_select_box() {
    let mut screen = Screen::new();
    screen.append(CapabilityObject::wrap(ok_button()));
    screen.append(CapabilityObject::wrap(first_second_box()));
    assert_eq!(screen.run(), vec!["Draw Button", "Draw SelectBox"]);
}

#[test]
fn mixed_screen_from_literal_fields() {
    let screen = Screen {
        components: vec![
            CapabilityObject::wrap(ok_button()),
            CapabilityObject::wrap(first_second_box()),
        ],
    };
    assert_eq!(screen.run(), vec!["Draw Button", "Draw SelectBox"]);
}

#[test]
fn button_screen_renders_two_buttons() {
    let screen = Screen1 {
        components: vec![ok_button(), ok_button()],
    };
    assert_eq!(screen.run(), vec!["Draw Button", "Draw Button"]);
}

#[test]
fn empty_screens_render_nothing() {
    let mixed = Screen::new();
    let plain: Screen1<Button> = Screen1::new();
    assert!(mixed.run().is_empty());
    assert!(plain.run().is_empty());
}

#[test]
fn render_order_is_insertion_order() {
    let mut screen = Screen::new();
    screen.append(CapabilityObject::wrap(first_second_box()));
    screen.append(CapabilityObject::wrap(ok_button()));
    screen.append(CapabilityObject::wrap(first_second_box()));
    screen.append(CapabilityObject::wrap(first_second_box()));
    screen.append(CapabilityObject::wrap(ok_button()));
    assert_eq!(
        screen.run(),
        vec![
            "Draw SelectBox",
            "Draw Button",
            "Draw SelectBox",
            "Draw SelectBox",
            "Draw Button",
        ]
    );
}

#[test]
fn button_screen_matches_mixed_screen_of_buttons() {
    let mut mixed = Screen::new();
    let mut plain = Screen1::new();
    for _ in 0..3 {
        mixed.append(CapabilityObject::wrap(ok_button()));
        plain.append(ok_button());
    }
    assert_eq!(mixed.run(), plain.run());
    assert_eq!(plain.run().len(), 3);
}

#[test]
fn append_after_render_leaves_earlier_result() {
    let mut screen = Screen::new();
    screen.append(CapabilityObject::wrap(ok_button()));
    let first = screen.run();
    screen.append(CapabilityObject::wrap(first_second_box()));
    let second = screen.run();
    assert_eq!(first, vec!["Draw Button"]);
    assert_eq!(second, vec!["Draw Button", "Draw SelectBox"]);
}

#[test]
fn append_after_render_on_button_screen() {
    let mut screen = Screen1::new();
    screen.append(ok_button());
    let first = screen.run();
    screen.append(ok_button());
    let second = screen.run();
    assert_eq!(first, vec!["Draw Button"]);
    assert_eq!(second, vec!["Draw Button", "Draw Button"]);
}

#[test]
fn render_twice_gives_the_same_lines() {
    let mut screen = Screen::new();
    screen.append(CapabilityObject::wrap(ok_button()));
    screen.append(CapabilityObject::wrap(first_second_box()));
    assert_eq!(screen.run(), screen.run());
}
