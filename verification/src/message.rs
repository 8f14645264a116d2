//! The messages that one half of the keyboard sends to the other, and their wire format.
//!
//! Every message is four bytes: a tag that tells the kinds apart, then three bytes of body. A
//! reader takes what it needs from the front and lets further bytes stand.

use vstd::prelude::*;
use vstd::slice::slice_subrange;

verus! {

/// The byte that stands for a key going down (`1`) or up (`0`).
pub open spec fn press_byte(press: bool) -> u8 {
    if press {
        1
    } else {
        0
    }
}

/// One key went down or up.
#[derive(Clone, Copy, Debug, PartialEq, Eq, Structural)]
pub struct KeyMessage {
    /// Whether the key went down.
    pub press: bool,
    /// The key's HID usage code.
    pub key: u8,
}

impl KeyMessage {
    /// The body on the wire: the direction, the key, and a byte of padding.
    pub open spec fn encoded(self) -> Seq<u8> {
        seq![press_byte(self.press), self.key, 0u8]
    }

    /// The message that a body holds: any direction byte but zero means down.
    pub open spec fn decoded(bytes: Seq<u8>) -> Option<KeyMessage> {
        if bytes.len() < 2 {
            None
        } else {
            Some(KeyMessage { press: bytes[0] != 0, key: bytes[1] })
        }
    }

    /// Writes the message as a body.
    pub fn to_bytes(&self) -> (bytes: [u8; 3])
        ensures
            bytes@ == self.encoded(),
            self.press ==> bytes@ == seq![1u8, self.key, 0u8],
            !self.press ==> bytes@ == seq![0u8, self.key, 0u8],
    {
        [self.press as u8, self.key, 0]
    }

    /// Reads the message from the front of a body. It needs two bytes.
    pub fn from_bytes(bytes: &[u8]) -> (message: Option<Self>)
        ensures
            message == KeyMessage::decoded(bytes@),
            bytes@.len() < 2 ==> message is None,
            bytes@.len() >= 2 ==> message == Some(
                KeyMessage { press: bytes@[0] != 0, key: bytes@[1] },
            ),
    {
        if bytes.len() < 2 {
            return None;
        }
        Some(KeyMessage { press: bytes[0] != 0, key: bytes[1] })
    }
}

/// Two keys went down or up together.
#[derive(Clone, Copy, Debug, PartialEq, Eq, Structural)]
pub struct MultiKeyMessage {
    /// Whether the keys went down.
    pub press: bool,
    /// The HID usage code of the key that comes first.
    pub key_1: u8,
    /// The HID usage code of the key that comes second.
    pub key_2: u8,
}

impl MultiKeyMessage {
    /// The body on the wire: the direction and the two keys.
    pub open spec fn encoded(self) -> Seq<u8> {
        seq![press_byte(self.press), self.key_1, self.key_2]
    }

    /// The message that a body holds: any direction byte but zero means down.
    pub open spec fn decoded(bytes: Seq<u8>) -> Option<MultiKeyMessage> {
        if bytes.len() < 3 {
            None
        } else {
            Some(MultiKeyMessage { press: bytes[0] != 0, key_1: bytes[1], key_2: bytes[2] })
        }
    }

    /// Writes the message as a body.
    pub fn to_bytes(&self) -> (bytes: [u8; 3])
        ensures
            bytes@ == self.encoded(),
            self.press ==> bytes@ == seq![1u8, self.key_1, self.key_2],
            !self.press ==> bytes@ == seq![0u8, self.key_1, self.key_2],
    {
        [self.press as u8, self.key_1, self.key_2]
    }

    /// Reads the message from the front of a body. It needs three bytes.
    pub fn from_bytes(bytes: &[u8]) -> (message: Option<Self>)
        ensures
            message == MultiKeyMessage::decoded(bytes@),
            bytes@.len() < 3 ==> message is None,
            bytes@.len() >= 3 ==> message == Some(
                MultiKeyMessage { press: bytes@[0] != 0, key_1: bytes@[1], key_2: bytes@[2] },
            ),
    {
        if bytes.len() < 3 {
            return None;
        }
        Some(MultiKeyMessage { press: bytes[0] != 0, key_1: bytes[1], key_2: bytes[2] })
    }
}

/// The keymap layer changed.
#[derive(Clone, Copy, Debug, PartialEq, Eq, Structural)]
pub struct LayerMessage {
    /// The layer that both halves now use.
    pub new_layer: u8,
}

impl LayerMessage {
    /// The body on the wire: the layer and two bytes of padding.
    pub open spec fn encoded(self) -> Seq<u8> {
        seq![self.new_layer, 0u8, 0u8]
    }

    /// The message that a body holds. Any layer is read as it stands.
    pub open spec fn decoded(bytes: Seq<u8>) -> Option<LayerMessage> {
        if bytes.len() < 1 {
            None
        } else {
            Some(LayerMessage { new_layer: bytes[0] })
        }
    }

    /// Writes the message as a body.
    pub fn to_bytes(&self) -> (bytes: [u8; 3])
        ensures
            bytes@ == self.encoded(),
            bytes@ == seq![self.new_layer, 0u8, 0u8],
    {
        [self.new_layer, 0, 0]
    }

    /// Reads the message from the front of a body. It needs one byte.
    pub fn from_bytes(bytes: &[u8]) -> (message: Option<Self>)
        ensures
            message == LayerMessage::decoded(bytes@),
            bytes@.len() < 1 ==> message is None,
            bytes@.len() >= 1 ==> message == Some(LayerMessage { new_layer: bytes@[0] }),
    {
        if bytes.len() < 1 {
            return None;
        }
        Some(LayerMessage { new_layer: bytes[0] })
    }
}

/// The tag of a `KeyMessage`.
pub const KEY_TAG: u8 = 0;

/// The tag of a `LayerMessage`.
pub const LAYER_TAG: u8 = 1;

/// The tag of a `MultiKeyMessage`.
pub const MULTI_KEY_TAG: u8 = 2;

/// Any message that one half sends to the other.
#[derive(Clone, Copy, Debug, PartialEq, Eq, Structural)]
pub enum GeneralMessage {
    /// One key went down or up.
    KeyMessage(KeyMessage),
    /// The keymap layer changed.
    LayerMessage(LayerMessage),
    /// Two keys went down or up together.
    MultiKeyMessage(MultiKeyMessage),
}

impl GeneralMessage {
    /// The tag that tells this kind of message apart.
    pub open spec fn tag(self) -> u8 {
        match self {
            GeneralMessage::KeyMessage(_) => KEY_TAG,
            GeneralMessage::LayerMessage(_) => LAYER_TAG,
            GeneralMessage::MultiKeyMessage(_) => MULTI_KEY_TAG,
        }
    }

    /// The message's three bytes of body.
    pub open spec fn body(self) -> Seq<u8> {
        match self {
            GeneralMessage::KeyMessage(m) => m.encoded(),
            GeneralMessage::LayerMessage(m) => m.encoded(),
            GeneralMessage::MultiKeyMessage(m) => m.encoded(),
        }
    }

    /// The message on the wire: the tag, then the body.
    pub open spec fn encoded(self) -> Seq<u8> {
        seq![self.tag()] + self.body()
    }

    /// The message that a payload holds: there is none in fewer than four bytes, nor under a tag
    /// that belongs to no kind.
    pub open spec fn decoded(bytes: Seq<u8>) -> Option<GeneralMessage> {
        if bytes.len() < 4 {
            None
        } else if bytes[0] == KEY_TAG {
            Some(GeneralMessage::KeyMessage(KeyMessage { press: bytes[1] != 0, key: bytes[2] }))
        } else if bytes[0] == LAYER_TAG {
            Some(GeneralMessage::LayerMessage(LayerMessage { new_layer: bytes[1] }))
        } else if bytes[0] == MULTI_KEY_TAG {
            Some(
                GeneralMessage::MultiKeyMessage(
                    MultiKeyMessage { press: bytes[1] != 0, key_1: bytes[2], key_2: bytes[3] },
                ),
            )
        } else {
            None
        }
    }

    /// Writes the message as a payload.
    pub fn to_bytes(&self) -> (bytes: [u8; 4])
        ensures
            bytes@ == self.encoded(),
            self matches GeneralMessage::KeyMessage(m) ==> {
                &&& m.press ==> bytes@ == seq![0u8, 1u8, m.key, 0u8]
                &&& !m.press ==> bytes@ == seq![0u8, 0u8, m.key, 0u8]
            },
            self matches GeneralMessage::LayerMessage(m) ==> bytes@ == seq![
                1u8,
                m.new_layer,
                0u8,
                0u8,
            ],
            self matches GeneralMessage::MultiKeyMessage(m) ==> {
                &&& m.press ==> bytes@ == seq![2u8, 1u8, m.key_1, m.key_2]
                &&& !m.press ==> bytes@ == seq![2u8, 0u8, m.key_1, m.key_2]
            },
    {
        let (tag, body): (u8, [u8; 3]) = match self {
            GeneralMessage::KeyMessage(m) => (KEY_TAG, m.to_bytes()),
            GeneralMessage::LayerMessage(m) => (LAYER_TAG, m.to_bytes()),
            GeneralMessage::MultiKeyMessage(m) => (MULTI_KEY_TAG, m.to_bytes()),
        };
        [tag, body[0], body[1], body[2]]
    }

    /// Reads the message from the front of a payload.
    pub fn from_bytes(bytes: &[u8]) -> (message: Option<Self>)
        ensures
            message == GeneralMessage::decoded(bytes@),
            bytes@.len() < 4 ==> message is None,
            bytes@.len() >= 4 && bytes@[0] > 2 ==> message is None,
            bytes@.len() >= 4 && bytes@[0] == 0 ==> message == Some(
                GeneralMessage::KeyMessage(KeyMessage { press: bytes@[1] != 0, key: bytes@[2] }),
            ),
            bytes@.len() >= 4 && bytes@[0] == 1 ==> message == Some(
                GeneralMessage::LayerMessage(LayerMessage { new_layer: bytes@[1] }),
            ),
            bytes@.len() >= 4 && bytes@[0] == 2 ==> message == Some(
                GeneralMessage::MultiKeyMessage(
                    MultiKeyMessage { press: bytes@[1] != 0, key_1: bytes@[2], key_2: bytes@[3] },
                ),
            ),
    {
        if bytes.len() < 4 {
            return None;
        }
        let body = slice_subrange(bytes, 1, bytes.len());
        match bytes[0] {
            KEY_TAG => Some(GeneralMessage::KeyMessage(KeyMessage::from_bytes(body).unwrap())),
            LAYER_TAG => Some(GeneralMessage::LayerMessage(LayerMessage::from_bytes(body).unwrap())),
            MULTI_KEY_TAG => Some(
                GeneralMessage::MultiKeyMessage(MultiKeyMessage::from_bytes(body).unwrap()),
            ),
            _ => None,
        }
    }
}

/// A key message comes back from its bytes, whatever follows them.
pub proof fn key_message_round_trip(message: KeyMessage, rest: Seq<u8>)
    ensures
        KeyMessage::decoded(message.encoded() + rest) == Some(message),
{
}

/// A two-key message comes back from its bytes, whatever follows them.
pub proof fn multi_key_message_round_trip(message: MultiKeyMessage, rest: Seq<u8>)
    ensures
        MultiKeyMessage::decoded(message.encoded() + rest) == Some(message),
{
}

/// A layer message comes back from its bytes, whatever follows them.
pub proof fn layer_message_round_trip(message: LayerMessage, rest: Seq<u8>)
    ensures
        LayerMessage::decoded(message.encoded() + rest) == Some(message),
{
}

/// A message of any kind comes back from its bytes, whatever follows them.
pub proof fn general_message_round_trip(message: GeneralMessage, rest: Seq<u8>)
    ensures
        message.encoded().len() == 4,
        GeneralMessage::decoded(message.encoded() + rest) == Some(message),
{
}

/// No two messages share a wire form.
pub proof fn encoding_is_injective(first: GeneralMessage, second: GeneralMessage)
    requires
        first.encoded() == second.encoded(),
    ensures
        first == second,
{
    general_message_round_trip(first, Seq::empty());
    general_message_round_trip(second, Seq::empty());
}

/// A payload decodes exactly when it has four bytes and a known tag.
pub proof fn decoding_succeeds_on_known_tags(bytes: Seq<u8>)
    ensures
        GeneralMessage::decoded(bytes) is Some <==> bytes.len() >= 4 && bytes[0] <= MULTI_KEY_TAG,
{
}

/// A payload of a known kind is read as its body is read by that kind alone.
pub proof fn decoding_reads_the_body(bytes: Seq<u8>)
    requires
        bytes.len() >= 4,
    ensures
        bytes[0] == KEY_TAG ==> GeneralMessage::decoded(bytes) == Some(
            GeneralMessage::KeyMessage(KeyMessage::decoded(bytes.skip(1)).unwrap()),
        ),
        bytes[0] == LAYER_TAG ==> GeneralMessage::decoded(bytes) == Some(
            GeneralMessage::LayerMessage(LayerMessage::decoded(bytes.skip(1)).unwrap()),
        ),
        bytes[0] == MULTI_KEY_TAG ==> GeneralMessage::decoded(bytes) == Some(
            GeneralMessage::MultiKeyMessage(MultiKeyMessage::decoded(bytes.skip(1)).unwrap()),
        ),
{
}

/// Only the first four bytes of a payload count.
pub proof fn decoding_ignores_trailing_bytes(bytes: Seq<u8>, rest: Seq<u8>)
    requires
        bytes.len() >= 4,
    ensures
        GeneralMessage::decoded(bytes + rest) == GeneralMessage::decoded(bytes),
{
}

/// Writing a payload again after reading it gives its first four bytes back exactly when they are
/// in the form that a writer uses, with a direction byte of zero or one and zero padding.
pub proof fn reencoding_gives_written_payloads_back(bytes: Seq<u8>)
    requires
        GeneralMessage::decoded(bytes) is Some,
    ensures
        GeneralMessage::decoded(bytes).unwrap().encoded() == bytes.take(4) <==> {
            ||| bytes[0] == KEY_TAG && bytes[1] <= 1 && bytes[3] == 0
            ||| bytes[0] == LAYER_TAG && bytes[2] == 0 && bytes[3] == 0
            ||| bytes[0] == MULTI_KEY_TAG && bytes[1] <= 1
        },
{
    let written = GeneralMessage::decoded(bytes).unwrap().encoded();
    if written == bytes.take(4) {
        assert(forall|i: int| 0 <= i < 4 ==> written[i] == #[trigger] bytes.take(4)[i]);
        assert(written[1] == bytes[1] && written[2] == bytes[2] && written[3] == bytes[3]);
    } else {
        assert(!(written =~= bytes.take(4)));
    }
}

/// The bytes of every message on the wire.
pub proof fn wire_bytes(key_1: u8, key_2: u8)
    ensures
        GeneralMessage::KeyMessage(KeyMessage { press: true, key: key_1 }).encoded()
            == seq![0u8, 1u8, key_1, 0u8],
        GeneralMessage::KeyMessage(KeyMessage { press: false, key: key_1 }).encoded()
            == seq![0u8, 0u8, key_1, 0u8],
        GeneralMessage::LayerMessage(LayerMessage { new_layer: key_1 }).encoded()
            == seq![1u8, key_1, 0u8, 0u8],
        GeneralMessage::MultiKeyMessage(MultiKeyMessage { press: true, key_1, key_2 }).encoded()
            == seq![2u8, 1u8, key_1, key_2],
        GeneralMessage::MultiKeyMessage(MultiKeyMessage { press: false, key_1, key_2 }).encoded()
            == seq![2u8, 0u8, key_1, key_2],
{
}

/// The message in every payload, byte by byte. Any second byte but zero means down.
pub proof fn payload_bytes(bytes: Seq<u8>)
    ensures
        bytes.len() < 4 || bytes[0] > 2 ==> GeneralMessage::decoded(bytes) is None,
        bytes.len() >= 4 && bytes[0] == 0 ==> {
            &&& GeneralMessage::decoded(bytes) matches Some(GeneralMessage::KeyMessage(m))
            &&& m.press <==> bytes[1] != 0
            &&& m.key == bytes[2]
        },
        bytes.len() >= 4 && bytes[0] == 1 ==> {
            &&& GeneralMessage::decoded(bytes) matches Some(GeneralMessage::LayerMessage(m))
            &&& m.new_layer == bytes[1]
        },
        bytes.len() >= 4 && bytes[0] == 2 ==> {
            &&& GeneralMessage::decoded(bytes) matches Some(GeneralMessage::MultiKeyMessage(m))
            &&& m.press <==> bytes[1] != 0
            &&& m.key_1 == bytes[2]
            &&& m.key_2 == bytes[3]
        },
{
}

/// The bytes of every body on the wire, and the message in every body.
pub proof fn body_bytes(
    key: KeyMessage,
    keys: MultiKeyMessage,
    layer: LayerMessage,
    bytes: Seq<u8>,
)
    ensures
        key.press ==> key.encoded() == seq![1u8, key.key, 0u8],
        !key.press ==> key.encoded() == seq![0u8, key.key, 0u8],
        keys.press ==> keys.encoded() == seq![1u8, keys.key_1, keys.key_2],
        !keys.press ==> keys.encoded() == seq![0u8, keys.key_1, keys.key_2],
        layer.encoded() == seq![layer.new_layer, 0u8, 0u8],
        KeyMessage::decoded(bytes) is Some <==> bytes.len() >= 2,
        KeyMessage::decoded(bytes) matches Some(m) ==> m.press == (bytes[0] != 0) && m.key
            == bytes[1],
        MultiKeyMessage::decoded(bytes) is Some <==> bytes.len() >= 3,
        MultiKeyMessage::decoded(bytes) matches Some(m) ==> m.press == (bytes[0] != 0) && m.key_1
            == bytes[1] && m.key_2 == bytes[2],
        LayerMessage::decoded(bytes) is Some <==> bytes.len() >= 1,
        LayerMessage::decoded(bytes) matches Some(m) ==> m.new_layer == bytes[0],
{
}

} // verus!
