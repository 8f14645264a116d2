//! The radio link between the halves: who to send to, and what to make of what arrives.
//!
//! Each half announces itself now and then to everybody. A half that hears an announcement takes
//! the sender on as its peer, and sends its messages to the peer's own address.

use vstd::prelude::*;
use crate::message::{general_message_round_trip, GeneralMessage};

verus! {

/// The address of a radio.
pub type Address = [u8; 6];

/// The address that reaches every radio.
pub const BROADCAST_ADDRESS: Address = [0xff, 0xff, 0xff, 0xff, 0xff, 0xff];

/// What a half sends to everybody to announce itself: the text `Hello.`.
pub const ANNOUNCEMENT: [u8; 6] = [0x48, 0x65, 0x6c, 0x6c, 0x6f, 0x2e];

/// Whether two addresses are the same.
fn same_address(first: &Address, second: &Address) -> (same: bool)
    ensures
        same == (first@ == second@),
{
    for i in 0..6usize
        invariant
            forall|j: int| 0 <= j < i ==> first@[j] == second@[j],
    {
        if first[i] != second[i] {
            return false;
        }
    }
    assert(first@ =~= second@);
    true
}

/// A frame that the radio received.
#[derive(Clone, Copy, Debug)]
pub struct Frame<'a> {
    /// The radio that sent it.
    pub src_address: Address,
    /// The address that it was sent to.
    pub dst_address: Address,
    /// The payload.
    pub data: &'a [u8],
}

/// What a received frame is.
#[derive(Clone, Copy, Debug)]
pub enum Reception {
    /// Its sender announced itself. The sender becomes a peer unless it is one.
    Announcement(Address),
    /// A message for this half.
    Message(GeneralMessage),
    /// Nothing for this half.
    Nothing,
}

/// What a frame is to the radio that has the address `own`: a broadcast announces its sender,
/// whatever it holds; a frame for this radio is the message that its payload holds, if any.
pub open spec fn reception(own: Seq<u8>, frame: Frame) -> Reception {
    if frame.dst_address@ == BROADCAST_ADDRESS@ {
        Reception::Announcement(frame.src_address)
    } else if frame.dst_address@ == own {
        match GeneralMessage::decoded(frame.data@) {
            Some(message) => Reception::Message(message),
            None => Reception::Nothing,
        }
    } else {
        Reception::Nothing
    }
}

/// Tells what a received frame is.
pub fn classify(own: &Address, frame: &Frame) -> (result: Reception)
    ensures
        result == reception(own@, *frame),
        frame.dst_address@ == seq![0xffu8, 0xffu8, 0xffu8, 0xffu8, 0xffu8, 0xffu8] ==> result
            == Reception::Announcement(frame.src_address),
        frame.dst_address@ != seq![0xffu8, 0xffu8, 0xffu8, 0xffu8, 0xffu8, 0xffu8] ==> {
            &&& !(result is Announcement)
            &&& result is Message <==> frame.dst_address@ == own@ && GeneralMessage::decoded(
                frame.data@,
            ) is Some
            &&& result matches Reception::Message(message) ==> GeneralMessage::decoded(
                frame.data@,
            ) == Some(message)
        },
{
    proof {
        everybody_is_reached_by_ones();
    }
    if same_address(&frame.dst_address, &BROADCAST_ADDRESS) {
        Reception::Announcement(frame.src_address)
    } else if same_address(&frame.dst_address, own) {
        match GeneralMessage::from_bytes(frame.data) {
            Some(message) => Reception::Message(message),
            None => Reception::Nothing,
        }
    } else {
        Reception::Nothing
    }
}

/// The radio interface over which a peer is reached.
#[derive(Clone, Copy, Debug, PartialEq, Eq, Structural)]
pub enum Interface {
    /// The access point interface.
    Ap,
    /// The station interface.
    Sta,
}

/// An entry for the radio's list of peers.
#[derive(Clone, Copy, Debug)]
pub struct Peer {
    /// The interface over which the peer is reached.
    pub interface: Interface,
    /// The peer's address.
    pub peer_address: Address,
    /// The key that the peer's frames are encrypted with.
    pub lmk: Option<[u8; 16]>,
    /// The channel that the peer uses, if it is not the current one.
    pub channel: Option<u8>,
    /// Whether the peer's frames are encrypted.
    pub encrypt: bool,
}

/// The entry under which the sender of an announcement is taken on.
pub open spec fn new_peer(sender: Address) -> Peer {
    Peer {
        interface: Interface::Sta,
        peer_address: sender,
        lmk: None,
        channel: None,
        encrypt: false,
    }
}

/// The entry that an announcement adds, by whether the radio already knows the sender.
pub open spec fn added_peer(sender: Address, known: bool) -> Option<Peer> {
    if known {
        None
    } else {
        Some(new_peer(sender))
    }
}

/// Tells whether the sender of an announcement is to be taken on as a peer: it is, without
/// encryption and on the current channel, unless the radio already knows it.
pub fn peer_to_add(sender: Address, known: bool) -> (peer: Option<Peer>)
    ensures
        peer == added_peer(sender, known),
        peer is Some <==> !known,
        peer matches Some(p) ==> {
            &&& p.interface == Interface::Sta
            &&& p.peer_address == sender
            &&& p.lmk is None
            &&& p.channel is None
            &&& !p.encrypt
        },
{
    if known {
        None
    } else {
        Some(
            Peer {
                interface: Interface::Sta,
                peer_address: sender,
                lmk: None,
                channel: None,
                encrypt: false,
            },
        )
    }
}

/// A payload for a peer.
#[derive(Clone, Copy, Debug)]
pub struct Packet {
    /// The peer's address.
    pub address: Address,
    /// The payload.
    pub payload: [u8; 4],
}

/// Puts a message up for the peer that the radio names first. With no peer nothing is sent.
pub fn packet_for(peer: Option<Address>, message: &GeneralMessage) -> (packet: Option<Packet>)
    ensures
        packet is Some <==> peer is Some,
        packet matches Some(p) ==> p.address == peer->0 && p.payload@ == message.encoded(),
        packet matches Some(p) ==> GeneralMessage::decoded(p.payload@) == Some(*message),
{
    proof {
        general_message_round_trip(*message, Seq::empty());
        assert(message.encoded() + Seq::<u8>::empty() =~= message.encoded());
    }
    match peer {
        Some(address) => Some(Packet { address, payload: message.to_bytes() }),
        None => None,
    }
}

/// What one half sends to the other's address arrives there as the same message.
pub proof fn messages_arrive(message: GeneralMessage, frame: Frame)
    requires
        frame.data@ == message.encoded(),
        frame.dst_address@ != BROADCAST_ADDRESS@,
    ensures
        reception(frame.dst_address@, frame) == Reception::Message(message),
{
    general_message_round_trip(message, Seq::empty());
    assert(message.encoded() + Seq::<u8>::empty() =~= message.encoded());
}

/// Whoever broadcasts is heard as announcing itself, by every radio and whatever it sent.
pub proof fn broadcasts_announce_their_sender(own: Seq<u8>, frame: Frame)
    requires
        frame.dst_address@ == BROADCAST_ADDRESS@,
    ensures
        reception(own, frame) == Reception::Announcement(frame.src_address),
{
}

/// A frame for another radio is nothing to this half, unless it is for everybody.
pub proof fn frames_for_others_are_ignored(own: Seq<u8>, frame: Frame)
    requires
        frame.dst_address@ != own,
        frame.dst_address@ != BROADCAST_ADDRESS@,
    ensures
        reception(own, frame) == Reception::Nothing,
{
}

/// An announcement is never taken for a message, whichever address it is sent to.
pub proof fn announcements_are_no_messages(own: Seq<u8>, frame: Frame)
    requires
        frame.data@ == ANNOUNCEMENT@,
    ensures
        !(reception(own, frame) is Message),
{
    assert(ANNOUNCEMENT@[0] == 0x48);
}

/// The radio's list of peers as a listening half keeps it. A peer that is added is known from
/// then on, and none is taken off.
#[verifier::ext_equal]
pub struct Listening {
    /// The addresses that the radio knows.
    pub known: Set<Seq<u8>>,
    /// The entries that were added, in order.
    pub added: Seq<Peer>,
}

impl Listening {
    /// The list before anything was heard.
    pub open spec fn initial(known: Set<Seq<u8>>) -> Listening {
        Listening { known, added: Seq::empty() }
    }

    /// The list after a frame: only an announcement can add to it.
    pub open spec fn after(self, own: Seq<u8>, frame: Frame) -> Listening {
        match reception(own, frame) {
            Reception::Announcement(sender) => match added_peer(
                sender,
                self.known.contains(sender@),
            ) {
                Some(peer) => Listening {
                    known: self.known.insert(peer.peer_address@),
                    added: self.added.push(peer),
                },
                None => self,
            },
            _ => self,
        }
    }

    /// The list after a series of frames.
    pub open spec fn after_all(self, own: Seq<u8>, frames: Seq<Frame>) -> Listening
        decreases frames.len(),
    {
        if frames.len() == 0 {
            self
        } else {
            self.after_all(own, frames.drop_last()).after(own, frames.last())
        }
    }

    /// Whether an entry for an address was added.
    pub open spec fn has_added(self, address: Seq<u8>) -> bool {
        exists|i: int| 0 <= i < self.added.len() && #[trigger] self.added[i].peer_address@ == address
    }
}

/// Whether an address broadcast one of a series of frames.
pub open spec fn has_broadcast(frames: Seq<Frame>, address: Seq<u8>) -> bool {
    exists|i: int|
        0 <= i < frames.len() && (#[trigger] frames[i]).dst_address@ == BROADCAST_ADDRESS@
            && frames[i].src_address@ == address
}

/// Over any series of frames no peer is added twice, none that was known at the start is added,
/// and what is added is an unencrypted entry.
pub proof fn peers_are_added_once(known: Set<Seq<u8>>, own: Seq<u8>, frames: Seq<Frame>)
    ensures
        ({
            let list = Listening::initial(known).after_all(own, frames);
            &&& forall|i: int, j: int|
                0 <= i < j < list.added.len() ==> (#[trigger] list.added[i]).peer_address@ != (
                #[trigger] list.added[j]).peer_address@
            &&& forall|i: int|
                0 <= i < list.added.len() ==> {
                    &&& !known.contains((#[trigger] list.added[i]).peer_address@)
                    &&& list.added[i] == new_peer(list.added[i].peer_address)
                }
        }),
    decreases frames.len(),
{
    if frames.len() > 0 {
        peers_are_added_once(known, own, frames.drop_last());
        let before = Listening::initial(known).after_all(own, frames.drop_last());
        assert forall|i: int| 0 <= i < before.added.len() implies before.known.contains(
            (#[trigger] before.added[i]).peer_address@,
        ) by {
            known_addresses_are_the_added(
                known,
                own,
                frames.drop_last(),
                before.added[i].peer_address@,
            );
        }
        known_addresses_are_the_added(known, own, frames.drop_last(), frames.last().src_address@);
    }
}

/// Over any series of frames the radio knows exactly what it knew at the start and what was
/// added, and what was added is whoever broadcast and was not known at the start.
pub proof fn known_addresses_are_the_added(
    known: Set<Seq<u8>>,
    own: Seq<u8>,
    frames: Seq<Frame>,
    address: Seq<u8>,
)
    ensures
        ({
            let list = Listening::initial(known).after_all(own, frames);
            &&& list.known.contains(address) <==> known.contains(address) || list.has_added(address)
            &&& list.has_added(address) <==> !known.contains(address) && has_broadcast(
                frames,
                address,
            )
        }),
    decreases frames.len(),
{
    let list = Listening::initial(known).after_all(own, frames);
    if frames.len() > 0 {
        let earlier = frames.drop_last();
        let last = frames.last();
        let before = Listening::initial(known).after_all(own, earlier);
        known_addresses_are_the_added(known, own, earlier, address);
        known_addresses_are_the_added(known, own, earlier, last.src_address@);
        assert(list == before.after(own, last));
        if before.has_added(address) {
            let i = choose|i: int|
                0 <= i < before.added.len() && #[trigger] before.added[i].peer_address@ == address;
            assert(list.added[i] == before.added[i]);
        }
        if has_broadcast(earlier, address) {
            let i = choose|i: int|
                0 <= i < earlier.len() && (#[trigger] earlier[i]).dst_address@
                    == BROADCAST_ADDRESS@ && earlier[i].src_address@ == address;
            assert(frames[i] == earlier[i]);
        }
        if has_broadcast(frames, address) {
            let i = choose|i: int|
                0 <= i < frames.len() && (#[trigger] frames[i]).dst_address@ == BROADCAST_ADDRESS@
                    && frames[i].src_address@ == address;
            if i < earlier.len() {
                assert(earlier[i] == frames[i]);
            }
        }
        if last.dst_address@ == BROADCAST_ADDRESS@ {
            assert(frames[frames.len() - 1] == last);
            if !before.known.contains(last.src_address@) {
                assert(list.added[before.added.len() as int] == new_peer(last.src_address));
            }
        }
        if list.has_added(address) {
            let i = choose|i: int|
                0 <= i < list.added.len() && #[trigger] list.added[i].peer_address@ == address;
            if i < before.added.len() {
                assert(before.added[i] == list.added[i]);
            }
        }
    }
}

/// A broadcast changes nothing if its sender was known at the start or broadcast before.
pub proof fn repeating_a_broadcast_changes_nothing(
    known: Set<Seq<u8>>,
    own: Seq<u8>,
    frames: Seq<Frame>,
    again: Frame,
)
    requires
        again.dst_address@ == BROADCAST_ADDRESS@,
        known.contains(again.src_address@) || has_broadcast(frames, again.src_address@),
    ensures
        Listening::initial(known).after_all(own, frames.push(again)) == Listening::initial(
            known,
        ).after_all(own, frames),
{
    known_addresses_are_the_added(known, own, frames, again.src_address@);
    assert(frames.push(again).drop_last() =~= frames);
}

/// The address of everybody is six bytes of ones, and an announcement is the text `Hello.`.
pub proof fn everybody_is_reached_by_ones()
    ensures
        BROADCAST_ADDRESS@ == seq![0xffu8, 0xffu8, 0xffu8, 0xffu8, 0xffu8, 0xffu8],
        ANNOUNCEMENT@ == seq![0x48u8, 0x65u8, 0x6cu8, 0x6cu8, 0x6fu8, 0x2eu8],
{
}

/// Whoever the sender is, it is added exactly when it is not known, under its own address, over
/// the station interface, with no key, no channel of its own and no encryption.
pub proof fn every_sender_is_added_alike(sender: Address, known: bool)
    ensures
        added_peer(sender, known) is Some <==> !known,
        added_peer(sender, known) matches Some(peer) ==> {
            &&& peer.interface == Interface::Sta
            &&& peer.peer_address == sender
            &&& peer.lmk is None
            &&& peer.channel is None
            &&& !peer.encrypt
        },
        new_peer(sender).interface == Interface::Sta,
        new_peer(sender).peer_address == sender,
        new_peer(sender).lmk is None,
        new_peer(sender).channel is None,
        !new_peer(sender).encrypt,
{
}

/// Two senders are added under entries that differ in the address alone.
pub proof fn entries_differ_in_the_address_alone(first: Address, second: Address)
    ensures
        (Peer { peer_address: second, ..new_peer(first) }) == new_peer(second),
{
}

/// What a frame is depends on where it was sent to and what it holds: sent to everybody, it
/// announces its sender; sent here, it is the message that it holds; otherwise it is nothing.
pub proof fn frames_go_by_their_destination(own: Seq<u8>, frame: Frame)
    ensures
        ({
            let everybody = seq![0xffu8, 0xffu8, 0xffu8, 0xffu8, 0xffu8, 0xffu8];
            let to = frame.dst_address@;
            let message = GeneralMessage::decoded(frame.data@);
            &&& to == everybody ==> reception(own, frame) == Reception::Announcement(
                frame.src_address,
            )
            &&& to != everybody && to == own && message is Some ==> reception(own, frame)
                == Reception::Message(message->0)
            &&& to != everybody && (to != own || message is None) ==> reception(own, frame)
                == Reception::Nothing
        }),
{
    everybody_is_reached_by_ones();
}

} // verus!
