use split_keyboard::link::{
    classify, packet_for, peer_to_add, Frame, Interface, Reception, ANNOUNCEMENT,
    BROADCAST_ADDRESS,
};
use split_keyboard::message::{GeneralMessage, KeyMessage, LayerMessage};

const OWN: [u8; 6] = [1, 2, 3, 4, 5, 6];
const OTHER: [u8; 6] = [1, 2, 3, 4, 5, 7];

fn frame(dst_address: [u8; 6], data: &[u8]) -> Frame<'_> {
    Frame { src_address: OTHER, dst_address, data }
}

#[test]
fn announcement_text() {
    assert_eq!(&ANNOUNCEMENT, b"Hello.");
}

#[test]
fn a_broadcast_announces_its_sender() {
    for data in [&ANNOUNCEMENT[..], &[0, 1, 5, 0][..], &[][..]] {
        assert!(matches!(
            classify(&OWN, &frame(BROADCAST_ADDRESS, data)),
            Reception::Announcement(sender) if sender == OTHER
        ));
    }
    assert!(matches!(
        classify(&BROADCAST_ADDRESS, &frame(BROADCAST_ADDRESS, &[1, 2, 0, 0])),
        Reception::Announcement(_)
    ));
}

#[test]
fn a_frame_for_this_half_is_a_message() {
    let message = GeneralMessage::LayerMessage(LayerMessage { new_layer: 2 });
    assert!(matches!(
        classify(&OWN, &frame(OWN, &message.to_bytes())),
        Reception::Message(heard) if heard == message
    ));
}

#[test]
fn a_frame_that_holds_no_message_is_nothing() {
    assert!(matches!(classify(&OWN, &frame(OWN, &ANNOUNCEMENT)), Reception::Nothing));
    assert!(matches!(classify(&OWN, &frame(OWN, &[0, 1, 5])), Reception::Nothing));
}

#[test]
fn a_frame_for_another_is_nothing() {
    assert!(matches!(classify(&OWN, &frame(OTHER, &[0, 1, 5, 0])), Reception::Nothing));
}

#[test]
fn unknown_senders_become_peers() {
    assert!(peer_to_add(OTHER, true).is_none());
    let peer = peer_to_add(OTHER, false).unwrap();
    assert_eq!(peer.peer_address, OTHER);
    assert_eq!(peer.interface, Interface::Sta);
    assert_eq!(peer.lmk, None);
    assert_eq!(peer.channel, None);
    assert!(!peer.encrypt);
}

#[test]
fn packets_go_to_the_peer() {
    let message = GeneralMessage::KeyMessage(KeyMessage { press: true, key: 5 });
    assert!(packet_for(None, &message).is_none());
    let packet = packet_for(Some(OTHER), &message).unwrap();
    assert_eq!(packet.address, OTHER);
    assert_eq!(packet.payload, [0, 1, 5, 0]);
}

#[test]
fn a_sender_is_taken_on_once() {
    let third = [9, 9, 9, 9, 9, 9];
    let mut known: Vec<[u8; 6]> = vec![third];
    let mut added: Vec<[u8; 6]> = Vec::new();
    let heard = [
        (OTHER, OWN),
        (OTHER, BROADCAST_ADDRESS),
        (third, BROADCAST_ADDRESS),
        (OTHER, BROADCAST_ADDRESS),
        (OWN, BROADCAST_ADDRESS),
        (OTHER, BROADCAST_ADDRESS),
        (OWN, BROADCAST_ADDRESS),
    ];
    for (src_address, dst_address) in heard {
        let frame = Frame { src_address, dst_address, data: &ANNOUNCEMENT };
        if let Reception::Announcement(sender) = classify(&OWN, &frame) {
            if let Some(peer) = peer_to_add(sender, known.contains(&sender)) {
                known.push(peer.peer_address);
                added.push(peer.peer_address);
            }
        }
    }
    assert_eq!(added, vec![OTHER, OWN]);
}
