use split_keyboard::controller::{Controller, Effect, HidOp};
use split_keyboard::keycodes::{
    HID_KEY_7, HID_KEY_BACKSPACE, HID_KEY_ESCAPE, HID_KEY_NONE, HID_KEY_P, HID_KEY_Q,
    HID_KEY_SHIFT_LEFT, HID_KEY_SPACE,
};
use split_keyboard::keymap::{
    Half, KeyAction, Keymap, KEY_MATRIX, KEY_TO_LED, LED_MATRIX, SWITCH_COUNT,
};
use split_keyboard::message::{GeneralMessage, KeyMessage, LayerMessage, MultiKeyMessage};

fn switch_at(column: usize, row: usize) -> usize {
    KEY_MATRIX.iter().position(|&place| place == (column, row)).unwrap()
}

fn press(controller: &mut Controller, switch: usize) -> Effect {
    controller.sample_press(switch, true).unwrap()
}

fn release(controller: &mut Controller, switch: usize) -> Effect {
    controller.sample_release(switch, true).unwrap()
}

#[test]
fn starts_on_the_first_layer_with_nothing_held() {
    let controller = Controller::new(Half::Left);
    assert_eq!(controller.layer(), 0);
    assert_eq!(controller.percent(), 0);
    for switch in 0..SWITCH_COUNT {
        assert!(!controller.is_pressed(switch));
    }
}

#[test]
fn key_goes_down_and_up() {
    let mut controller = Controller::new(Half::Right);
    let switch = switch_at(1, 0);
    assert_eq!(switch, 3);
    let effect = press(&mut controller, switch);
    assert_eq!(effect.ops, vec![HidOp::Press(HID_KEY_P)]);
    assert_eq!(
        effect.message,
        GeneralMessage::KeyMessage(KeyMessage { press: true, key: HID_KEY_P })
    );
    assert!(controller.is_pressed(switch));
    let effect = release(&mut controller, switch);
    assert_eq!(effect.ops, vec![HidOp::Release(HID_KEY_P)]);
    assert_eq!(
        effect.message,
        GeneralMessage::KeyMessage(KeyMessage { press: false, key: HID_KEY_P })
    );
    assert!(!controller.is_pressed(switch));
    assert_eq!(controller.layer(), 0);
}

#[test]
fn only_edges_count() {
    let mut controller = Controller::new(Half::Left);
    assert!(controller.sample_press(4, false).is_none());
    assert!(controller.sample_release(4, true).is_none());
    assert!(controller.sample_press(4, true).is_some());
    assert!(controller.sample_press(4, true).is_none());
    assert!(controller.sample_release(4, false).is_none());
    assert!(controller.is_pressed(4));
    assert!(!controller.is_pressed(5));
    assert!(controller.sample_release(4, true).is_some());
    assert!(controller.sample_release(4, true).is_none());
}

#[test]
fn layer_switch_is_momentary() {
    for (half, layer) in [(Half::Left, 1u8), (Half::Right, 2u8)] {
        let mut controller = Controller::new(half);
        let effect = press(&mut controller, 0);
        assert_eq!(controller.layer(), layer as usize);
        assert_eq!(effect.ops, vec![HidOp::Release(HID_KEY_SHIFT_LEFT)]);
        assert_eq!(
            effect.message,
            GeneralMessage::LayerMessage(LayerMessage { new_layer: layer })
        );
        let effect = release(&mut controller, 0);
        assert_eq!(controller.layer(), 0);
        assert_eq!(effect.ops, vec![HidOp::Release(HID_KEY_SHIFT_LEFT)]);
        assert_eq!(effect.message, GeneralMessage::LayerMessage(LayerMessage { new_layer: 0 }));
    }
}

#[test]
fn two_keys_go_down_and_up_in_order() {
    let mut controller = Controller::new(Half::Right);
    press(&mut controller, 0);
    let switch = switch_at(1, 0);
    let effect = press(&mut controller, switch);
    assert_eq!(effect.ops, vec![HidOp::Press(HID_KEY_SHIFT_LEFT), HidOp::Press(HID_KEY_7)]);
    assert_eq!(
        effect.message,
        GeneralMessage::MultiKeyMessage(MultiKeyMessage {
            press: true,
            key_1: HID_KEY_SHIFT_LEFT,
            key_2: HID_KEY_7,
        })
    );
    let effect = release(&mut controller, switch);
    assert_eq!(effect.ops, vec![HidOp::Release(HID_KEY_SHIFT_LEFT), HidOp::Release(HID_KEY_7)]);
    assert_eq!(
        effect.message,
        GeneralMessage::MultiKeyMessage(MultiKeyMessage {
            press: false,
            key_1: HID_KEY_SHIFT_LEFT,
            key_2: HID_KEY_7,
        })
    );
}

#[test]
fn release_goes_by_the_layer_in_use() {
    let mut controller = Controller::new(Half::Left);
    let switch = switch_at(1, 0);
    assert_eq!(press(&mut controller, switch).ops, vec![HidOp::Press(HID_KEY_Q)]);
    press(&mut controller, 0);
    assert_eq!(release(&mut controller, switch).ops, vec![HidOp::Release(HID_KEY_NONE)]);
}

#[test]
fn reports_are_carried_out() {
    let mut controller = Controller::new(Half::Left);
    let report = GeneralMessage::KeyMessage(KeyMessage { press: true, key: 9 });
    assert_eq!(controller.receive(&report), vec![HidOp::Press(9)]);
    let report = GeneralMessage::KeyMessage(KeyMessage { press: false, key: 9 });
    assert_eq!(controller.receive(&report), vec![HidOp::Release(9)]);
    let report =
        GeneralMessage::MultiKeyMessage(MultiKeyMessage { press: true, key_1: 3, key_2: 4 });
    assert_eq!(controller.receive(&report), vec![HidOp::Press(3), HidOp::Press(4)]);
    let report =
        GeneralMessage::MultiKeyMessage(MultiKeyMessage { press: false, key_1: 3, key_2: 4 });
    assert_eq!(controller.receive(&report), vec![HidOp::Release(3), HidOp::Release(4)]);
    assert_eq!(controller.layer(), 0);
    let report = GeneralMessage::LayerMessage(LayerMessage { new_layer: 2 });
    assert_eq!(controller.receive(&report), vec![HidOp::Release(HID_KEY_SHIFT_LEFT)]);
    assert_eq!(controller.layer(), 2);
}

#[test]
fn a_reported_layer_is_taken_as_sent() {
    let mut controller = Controller::new(Half::Left);
    controller.receive(&GeneralMessage::LayerMessage(LayerMessage { new_layer: 250 }));
    assert_eq!(controller.layer(), 250);
    assert!(controller.sample_press(0, false).is_none());
    assert!(controller.sample_release(0, true).is_none());
}

#[test]
fn halves_stay_in_step_through_a_session() {
    let mut left = Controller::new(Half::Left);
    let mut right = Controller::new(Half::Right);
    let moves = [
        (Half::Left, 7, true),
        (Half::Right, 0, true),
        (Half::Left, 7, false),
        (Half::Right, 3, true),
        (Half::Left, 0, true),
        (Half::Right, 3, false),
        (Half::Right, 0, false),
        (Half::Left, 0, false),
    ];
    for (half, switch, down) in moves {
        let (acting, hearing) = match half {
            Half::Left => (&mut left, &mut right),
            Half::Right => (&mut right, &mut left),
        };
        let effect = if down {
            press(acting, switch)
        } else {
            release(acting, switch)
        };
        let heard = GeneralMessage::from_bytes(&effect.message.to_bytes()).unwrap();
        assert_eq!(hearing.receive(&heard), effect.ops);
        assert_eq!(left.layer(), right.layer());
    }
    assert_eq!(left.layer(), 0);
}

#[test]
fn a_layer_switch_brings_halves_together() {
    let mut left = Controller::new(Half::Left);
    let mut right = Controller::new(Half::Right);
    right.receive(&GeneralMessage::LayerMessage(LayerMessage { new_layer: 2 }));
    assert_ne!(left.layer(), right.layer());
    right.receive(&press(&mut left, 0).message);
    assert_eq!(left.layer(), 1);
    assert_eq!(right.layer(), 1);
}

#[test]
fn every_stroke_releases_what_it_pressed() {
    for half in [Half::Left, Half::Right] {
        for layer in 0..3u8 {
            for switch in 1..SWITCH_COUNT {
                let mut controller = Controller::new(half);
                controller.receive(&GeneralMessage::LayerMessage(LayerMessage {
                    new_layer: layer,
                }));
                let down = press(&mut controller, switch).ops;
                let up = release(&mut controller, switch).ops;
                let expected: Vec<HidOp> = down
                    .iter()
                    .map(|op| match op {
                        HidOp::Press(key) => HidOp::Release(*key),
                        HidOp::Release(key) => HidOp::Press(*key),
                    })
                    .collect();
                assert_eq!(up, expected);
                assert_eq!(controller.layer(), layer as usize);
            }
        }
    }
}

#[test]
fn pass_counter_wraps_after_a_hundred() {
    let mut controller = Controller::new(Half::Left);
    for expected in 1..=100u8 {
        controller.begin_pass();
        assert_eq!(controller.percent(), expected);
    }
    controller.begin_pass();
    assert_eq!(controller.percent(), 0);
}

#[test]
fn action_of_many_keys_announces_two() {
    let action = KeyAction::MultiKey(&[1, 2, 3]);
    assert_eq!(action.ops(true), vec![HidOp::Press(1), HidOp::Press(2), HidOp::Press(3)]);
    assert_eq!(
        action.message(true),
        GeneralMessage::MultiKeyMessage(MultiKeyMessage { press: true, key_1: 1, key_2: 2 })
    );
    assert_eq!(KeyAction::MultiKey(&[]).ops(false), vec![]);
}

fn key_of(keymap: &Keymap, layer: usize, switch: usize) -> u8 {
    match keymap.switch_action(layer, switch) {
        KeyAction::Key(key) => key,
        KeyAction::MultiKey(keys) => keys[1],
        KeyAction::LayerMo(layer) => layer,
    }
}

#[test]
fn keymaps_hold_the_layouts() {
    let left = Keymap::new(Half::Left);
    let right = Keymap::new(Half::Right);
    let row = |keymap: &Keymap, layer: usize, row: usize| -> Vec<u8> {
        (0..6).map(|column| key_of(keymap, layer, switch_at(column, row))).collect()
    };
    assert_eq!(row(&left, 0, 0), vec![HID_KEY_ESCAPE, HID_KEY_Q, 0x1a, 0x08, 0x15, 0x17]);
    assert_eq!(row(&left, 1, 1), vec![0x2b, 0x27, 0x21, 0x22, 0x23, 0x28]);
    assert_eq!(row(&left, 2, 2), vec![0x00, 0x20, 0x21, 0x31, 0x35, 0x35]);
    assert_eq!(row(&right, 0, 1), vec![HID_KEY_BACKSPACE, 0x33, 0x0f, 0x0e, 0x0d, 0x0b]);
    assert_eq!(row(&right, 1, 2), vec![0x00, 0x4d, 0x46, 0x00, 0x4a, 0x00]);
    assert_eq!(row(&right, 2, 0), vec![0x00, HID_KEY_7, 0x2e, 0x37, 0x36, 0x1e]);
    assert_eq!(key_of(&left, 0, switch_at(4, 3)), HID_KEY_SPACE);
    assert_eq!(key_of(&left, 2, switch_at(5, 3)), 1);
    assert_eq!(key_of(&right, 1, switch_at(5, 3)), 2);
}

#[test]
fn lights_match_switches() {
    for switch in 0..SWITCH_COUNT {
        assert_eq!(LED_MATRIX[KEY_TO_LED[switch]], KEY_MATRIX[switch]);
        for other in 0..switch {
            assert_ne!(KEY_MATRIX[other], KEY_MATRIX[switch]);
        }
    }
}
