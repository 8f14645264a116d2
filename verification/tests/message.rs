use split_keyboard::message::{GeneralMessage, KeyMessage, LayerMessage, MultiKeyMessage};

#[test]
fn key_message_bytes() {
    assert_eq!(KeyMessage { press: true, key: 0x13 }.to_bytes(), [1, 0x13, 0]);
    assert_eq!(KeyMessage { press: false, key: 0xff }.to_bytes(), [0, 0xff, 0]);
}

#[test]
fn key_message_from_bytes() {
    assert_eq!(KeyMessage::from_bytes(&[]), None);
    assert_eq!(KeyMessage::from_bytes(&[1]), None);
    assert_eq!(KeyMessage::from_bytes(&[1, 4]), Some(KeyMessage { press: true, key: 4 }));
    assert_eq!(KeyMessage::from_bytes(&[0, 4, 9]), Some(KeyMessage { press: false, key: 4 }));
    assert_eq!(KeyMessage::from_bytes(&[7, 4, 9, 9]), Some(KeyMessage { press: true, key: 4 }));
}

#[test]
fn multi_key_message_bytes() {
    let message = MultiKeyMessage { press: true, key_1: 0xe1, key_2: 0x24 };
    assert_eq!(message.to_bytes(), [1, 0xe1, 0x24]);
    let message = MultiKeyMessage { press: false, key_1: 0xe1, key_2: 0x24 };
    assert_eq!(message.to_bytes(), [0, 0xe1, 0x24]);
}

#[test]
fn multi_key_message_from_bytes() {
    assert_eq!(MultiKeyMessage::from_bytes(&[1, 2]), None);
    assert_eq!(
        MultiKeyMessage::from_bytes(&[2, 3, 4]),
        Some(MultiKeyMessage { press: true, key_1: 3, key_2: 4 })
    );
    assert_eq!(
        MultiKeyMessage::from_bytes(&[0, 3, 4, 5]),
        Some(MultiKeyMessage { press: false, key_1: 3, key_2: 4 })
    );
}

#[test]
fn layer_message_bytes() {
    assert_eq!(LayerMessage { new_layer: 2 }.to_bytes(), [2, 0, 0]);
}

#[test]
fn layer_message_from_bytes() {
    assert_eq!(LayerMessage::from_bytes(&[]), None);
    assert_eq!(LayerMessage::from_bytes(&[200]), Some(LayerMessage { new_layer: 200 }));
    assert_eq!(LayerMessage::from_bytes(&[1, 2, 3]), Some(LayerMessage { new_layer: 1 }));
}

#[test]
fn general_message_bytes() {
    let key = GeneralMessage::KeyMessage(KeyMessage { press: true, key: 5 });
    assert_eq!(key.to_bytes(), [0, 1, 5, 0]);
    let layer = GeneralMessage::LayerMessage(LayerMessage { new_layer: 1 });
    assert_eq!(layer.to_bytes(), [1, 1, 0, 0]);
    let keys = GeneralMessage::MultiKeyMessage(MultiKeyMessage {
        press: false,
        key_1: 6,
        key_2: 7,
    });
    assert_eq!(keys.to_bytes(), [2, 0, 6, 7]);
}

#[test]
fn general_message_refuses_short_payloads() {
    assert_eq!(GeneralMessage::from_bytes(&[]), None);
    assert_eq!(GeneralMessage::from_bytes(&[0, 1, 5]), None);
    assert_eq!(GeneralMessage::from_bytes(&[1, 1]), None);
}

#[test]
fn general_message_refuses_unknown_tags() {
    for tag in 3..=255u8 {
        assert_eq!(GeneralMessage::from_bytes(&[tag, 1, 2, 3]), None);
    }
}

#[test]
fn general_message_reads_every_kind() {
    assert_eq!(
        GeneralMessage::from_bytes(&[0, 9, 5, 77]),
        Some(GeneralMessage::KeyMessage(KeyMessage { press: true, key: 5 }))
    );
    assert_eq!(
        GeneralMessage::from_bytes(&[1, 250, 5, 77, 1]),
        Some(GeneralMessage::LayerMessage(LayerMessage { new_layer: 250 }))
    );
    assert_eq!(
        GeneralMessage::from_bytes(&[2, 0, 5, 77]),
        Some(GeneralMessage::MultiKeyMessage(MultiKeyMessage {
            press: false,
            key_1: 5,
            key_2: 77
        }))
    );
}

#[test]
fn messages_come_back() {
    for press in [false, true] {
        for key in 0..=255u8 {
            let messages = [
                GeneralMessage::KeyMessage(KeyMessage { press, key }),
                GeneralMessage::LayerMessage(LayerMessage { new_layer: key }),
                GeneralMessage::MultiKeyMessage(MultiKeyMessage {
                    press,
                    key_1: key,
                    key_2: 255 - key,
                }),
            ];
            for message in messages {
                let mut payload = message.to_bytes().to_vec();
                assert_eq!(GeneralMessage::from_bytes(&payload), Some(message));
                payload.push(key);
                assert_eq!(GeneralMessage::from_bytes(&payload), Some(message));
            }
        }
    }
}

#[test]
fn reencoding_normalizes() {
    let read = GeneralMessage::from_bytes(&[0, 9, 5, 77]).unwrap();
    assert_eq!(read.to_bytes(), [0, 1, 5, 0]);
    let read = GeneralMessage::from_bytes(&[2, 1, 5, 77]).unwrap();
    assert_eq!(read.to_bytes(), [2, 1, 5, 77]);
}
