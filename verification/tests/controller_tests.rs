use nesemulator::controller::{Button, Controller};

#[test]
fn test_controller_default_values() {
    let mut controller = Controller::new();

    for _ in 0..=1000 {
        assert!(controller.read() == 0);
    }
}

#[test]
fn test_controller_strobe_off() {
    let mut controller = Controller::new();
    controller.write(0);

    for i in 0..=7 {
        assert!(controller.read() == 0, "i = {}, controller.read() returned 1", i);
    }

    for i in 8..=1000 {
        assert!(controller.read() == 1, "i = {}, controller.read() returned 0", i);
    }
}

#[test]
fn test_controller_with_changing_state() {
    let mut controller = Controller::new();

    for i in 0..=7 {
        assert!(controller.read() == 0, "i = {}, controller.read() returned 1", i);
    }

    controller.set_button_state(Button::Left, true);
    controller.set_button_state(Button::Up, true);
    controller.set_button_state(Button::Select, true);

    controller.write(1);
    controller.write(0);

    // Set some states after 1 0 sequence. Should not affect the result.
    controller.set_button_state(Button::Select, false);
    controller.set_button_state(Button::A, true);

    assert!(controller.read() == 0); // A
    assert!(controller.read() == 0); // B
    assert!(controller.read() == 1); // Select
    assert!(controller.read() == 0); // Start
    assert!(controller.read() == 1); // Up
    assert!(controller.read() == 0); // Down
    assert!(controller.read() == 1); // Left
    assert!(controller.read() == 0); // Right

    for i in 8..=1000 {
        assert!(controller.read() == 1, "i = {}, controller.read() returned 0", i);
    }
}
