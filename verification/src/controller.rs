//! The controller of one half: which layer is in use, which switches are held, and what follows
//! when a switch moves or the other half reports.

use vstd::prelude::*;
use crate::keycodes::HID_KEY_SHIFT_LEFT;
use crate::keymap::{
    layout_of, layouts_are_valid, switch_action, valid_layout, Action, Half, KeyAction, Keymap,
    Layout, LAYER_COUNT, SWITCH_COUNT,
};
use crate::message::{GeneralMessage, KeyMessage, LayerMessage, MultiKeyMessage};

verus! {

/// The last value of the pass counter before it starts again.
pub const LAST_PERCENT: u8 = 100;

/// A command to the USB keyboard.
#[derive(Clone, Copy, Debug, PartialEq, Eq, Structural)]
pub enum HidOp {
    /// The key goes down.
    Press(u8),
    /// The key goes up.
    Release(u8),
}

/// The command that moves a key.
pub open spec fn key_op(press: bool, key: u8) -> HidOp {
    if press {
        HidOp::Press(key)
    } else {
        HidOp::Release(key)
    }
}

/// The commands that carry out an action when its switch goes down or up. A change of layer lets
/// left shift go.
pub open spec fn action_ops(action: Action, press: bool) -> Seq<HidOp> {
    match action {
        Action::MultiKey(keys) => keys.map_values(|key: u8| key_op(press, key)),
        Action::Key(key) => seq![key_op(press, key)],
        Action::LayerMo(_) => seq![HidOp::Release(HID_KEY_SHIFT_LEFT)],
    }
}

/// The message that tells the other half of an action. Of several keys it names the first two.
pub open spec fn action_message(action: Action, press: bool) -> GeneralMessage {
    match action {
        Action::MultiKey(keys) => GeneralMessage::MultiKeyMessage(
            MultiKeyMessage { press, key_1: keys[0], key_2: keys[1] },
        ),
        Action::Key(key) => GeneralMessage::KeyMessage(KeyMessage { press, key }),
        Action::LayerMo(layer) => GeneralMessage::LayerMessage(
            LayerMessage {
                new_layer: if press {
                    layer
                } else {
                    0
                },
            },
        ),
    }
}

/// The layer in use after an action: a layer switch chooses its layer for as long as it is held,
/// and the first layer when it is let go.
pub open spec fn action_layer(action: Action, press: bool, layer: nat) -> nat {
    match action {
        Action::LayerMo(target) => if press {
            target as nat
        } else {
            0
        },
        _ => layer,
    }
}

/// The commands that carry out what the other half reports.
pub open spec fn message_ops(message: GeneralMessage) -> Seq<HidOp> {
    match message {
        GeneralMessage::KeyMessage(m) => seq![key_op(m.press, m.key)],
        GeneralMessage::LayerMessage(_) => seq![HidOp::Release(HID_KEY_SHIFT_LEFT)],
        GeneralMessage::MultiKeyMessage(m) => seq![
            key_op(m.press, m.key_1),
            key_op(m.press, m.key_2),
        ],
    }
}

/// The layer in use after what the other half reports.
pub open spec fn message_layer(message: GeneralMessage, layer: nat) -> nat {
    match message {
        GeneralMessage::LayerMessage(m) => m.new_layer as nat,
        _ => layer,
    }
}

/// What follows when a switch moves, as a mathematical value.
#[verifier::ext_equal]
pub struct EffectView {
    /// The commands to the USB keyboard, in order.
    pub ops: Seq<HidOp>,
    /// The message to the other half.
    pub message: GeneralMessage,
}

/// What follows when a switch moves.
#[derive(Debug)]
pub struct Effect {
    /// The commands to the USB keyboard, in order.
    pub ops: Vec<HidOp>,
    /// The message to the other half, which goes out after the commands.
    pub message: GeneralMessage,
}

impl View for Effect {
    type V = EffectView;

    open spec fn view(&self) -> EffectView {
        EffectView { ops: self.ops@, message: self.message }
    }
}

/// The state of a controller.
#[verifier::ext_equal]
pub struct State {
    /// The half's layout.
    pub layout: Layout,
    /// The layer in use. The other half may choose one that the layout does not have.
    pub layer: nat,
    /// Which switches are held.
    pub pressed: Seq<bool>,
    /// The pass counter.
    pub percent: nat,
}

impl State {
    /// The state at power-on.
    pub open spec fn initial(half: Half) -> State {
        State {
            layout: layout_of(half),
            layer: 0,
            pressed: Seq::new(SWITCH_COUNT as nat, |i: int| false),
            percent: 0,
        }
    }

    /// What every state of a controller satisfies.
    pub open spec fn valid(self) -> bool {
        &&& valid_layout(self.layout)
        &&& self.pressed.len() == SWITCH_COUNT
        &&& self.percent <= LAST_PERCENT
    }

    /// Whether the layer in use is one of the layout's.
    pub open spec fn layer_exists(self) -> bool {
        self.layer < LAYER_COUNT
    }

    /// What a switch does on the layer in use.
    pub open spec fn action(self, switch: int) -> Action {
        switch_action(self.layout, self.layer as int, switch)
    }

    /// What follows when a switch goes down or up.
    pub open spec fn effect(self, switch: int, press: bool) -> EffectView {
        EffectView {
            ops: action_ops(self.action(switch), press),
            message: action_message(self.action(switch), press),
        }
    }

    /// The state after a switch went down or up.
    pub open spec fn moved(self, switch: int, press: bool) -> State {
        State {
            layer: action_layer(self.action(switch), press, self.layer),
            pressed: self.pressed.update(switch, press),
            ..self
        }
    }

    /// The state after a report of the other half.
    pub open spec fn received(self, message: GeneralMessage) -> State {
        State { layer: message_layer(message, self.layer), ..self }
    }
}

/// Appends the commands that move `keys`, in order.
fn push_key_ops(ops: &mut Vec<HidOp>, press: bool, keys: &[u8])
    ensures
        final(ops)@ == old(ops)@ + keys@.map_values(|key: u8| key_op(press, key)),
        final(ops)@.len() == old(ops)@.len() + keys@.len(),
        forall|i: int| 0 <= i < old(ops)@.len() ==> final(ops)@[i] == old(ops)@[i],
        press ==> forall|i: int|
            0 <= i < keys@.len() ==> final(ops)@[old(ops)@.len() + i] == HidOp::Press(
                #[trigger] keys@[i],
            ),
        !press ==> forall|i: int|
            0 <= i < keys@.len() ==> final(ops)@[old(ops)@.len() + i] == HidOp::Release(
                #[trigger] keys@[i],
            ),
{
    let ghost before = ops@;
    for i in 0..keys.len()
        invariant
            ops@ == before + keys@.take(i as int).map_values(|key: u8| key_op(press, key)),
    {
        let key: u8 = keys[i];
        ops.push(
            if press {
                HidOp::Press(key)
            } else {
                HidOp::Release(key)
            },
        );
        assert(keys@.take(i + 1) =~= keys@.take(i as int).push(key));
    }
    assert(keys@.take(keys@.len() as int) =~= keys@);
}

impl<'a> KeyAction<'a> {
    /// The commands that carry the action out when its switch goes down or up.
    pub fn ops(&self, press: bool) -> (ops: Vec<HidOp>)
        ensures
            ops@ == action_ops(self@, press),
            self matches KeyAction::MultiKey(keys) ==> {
                &&& ops@.len() == keys@.len()
                &&& press ==> forall|i: int|
                    0 <= i < keys@.len() ==> ops@[i] == HidOp::Press(#[trigger] keys@[i])
                &&& !press ==> forall|i: int|
                    0 <= i < keys@.len() ==> ops@[i] == HidOp::Release(#[trigger] keys@[i])
            },
            self matches KeyAction::Key(key) ==> {
                &&& press ==> ops@ == seq![HidOp::Press(*key)]
                &&& !press ==> ops@ == seq![HidOp::Release(*key)]
            },
            self is LayerMo ==> ops@ == seq![HidOp::Release(0xE1)],
    {
        let mut ops: Vec<HidOp> = Vec::new();
        match self {
            KeyAction::MultiKey(keys) => push_key_ops(&mut ops, press, keys),
            KeyAction::Key(key) => push_key_ops(&mut ops, press, &[*key]),
            KeyAction::LayerMo(_) => push_key_ops(&mut ops, false, &[HID_KEY_SHIFT_LEFT]),
        }
        assert(ops@ =~= action_ops(self@, press));
        ops
    }

    /// The message that tells the other half of the action. Several keys must be two at least.
    pub fn message(&self, press: bool) -> (message: GeneralMessage)
        requires
            self@ matches Action::MultiKey(keys) ==> keys.len() >= 2,
        ensures
            message == action_message(self@, press),
            self matches KeyAction::MultiKey(keys) ==> message == GeneralMessage::MultiKeyMessage(
                MultiKeyMessage { press, key_1: keys@[0], key_2: keys@[1] },
            ),
            self matches KeyAction::Key(key) ==> message == GeneralMessage::KeyMessage(
                KeyMessage { press, key: *key },
            ),
            self matches KeyAction::LayerMo(layer) ==> {
                &&& press ==> message == GeneralMessage::LayerMessage(
                    LayerMessage { new_layer: *layer },
                )
                &&& !press ==> message == GeneralMessage::LayerMessage(
                    LayerMessage { new_layer: 0 },
                )
            },
    {
        match self {
            KeyAction::MultiKey(keys) => GeneralMessage::MultiKeyMessage(
                MultiKeyMessage { press, key_1: keys[0], key_2: keys[1] },
            ),
            KeyAction::Key(key) => GeneralMessage::KeyMessage(KeyMessage { press, key: *key }),
            KeyAction::LayerMo(layer) => GeneralMessage::LayerMessage(
                LayerMessage {
                    new_layer: if press {
                        *layer
                    } else {
                        0
                    },
                },
            ),
        }
    }
}

/// The controller of one half.
pub struct Controller {
    keymap: Keymap,
    layer: usize,
    pressed: [bool; SWITCH_COUNT],
    percent: u8,
}

impl View for Controller {
    type V = State;

    closed spec fn view(&self) -> State {
        State {
            layout: self.keymap@,
            layer: self.layer as nat,
            pressed: self.pressed@,
            percent: self.percent as nat,
        }
    }
}

impl Controller {
    /// A controller at power-on.
    pub fn new(half: Half) -> (controller: Controller)
        ensures
            controller@ == State::initial(half),
            controller@.layout == layout_of(half),
            controller@.layer == 0,
            controller@.percent == 0,
            controller@.pressed.len() == 21,
            forall|i: int| 0 <= i < 21 ==> !#[trigger] controller@.pressed[i],
            controller@.valid(),
            controller@.layer_exists(),
    {
        proof {
            layouts_are_valid(half);
        }
        let controller = Controller {
            keymap: Keymap::new(half),
            layer: 0,
            pressed: [false; SWITCH_COUNT],
            percent: 0,
        };
        assert(controller@ =~= State::initial(half));
        controller
    }

    /// The layer in use.
    pub fn layer(&self) -> (layer: usize)
        ensures
            layer == self@.layer,
    {
        self.layer
    }

    /// Whether a switch is held.
    pub fn is_pressed(&self, switch: usize) -> (pressed: bool)
        requires
            switch < SWITCH_COUNT,
        ensures
            pressed == self@.pressed[switch as int],
    {
        self.pressed[switch]
    }

    /// The pass counter.
    pub fn percent(&self) -> (percent: u8)
        ensures
            percent == self@.percent,
    {
        self.percent
    }

    /// Counts a pass over the switches: the counter runs from zero to `LAST_PERCENT` and starts
    /// again.
    pub fn begin_pass(&mut self)
        requires
            old(self)@.valid(),
        ensures
            final(self)@.valid(),
            final(self)@ == (State {
                percent: if old(self)@.percent == LAST_PERCENT {
                    0
                } else {
                    old(self)@.percent + 1
                },
                ..old(self)@
            }),
            old(self)@.percent < 100 ==> final(self)@.percent == old(self)@.percent + 1,
            old(self)@.percent == 100 ==> final(self)@.percent == 0,
    {
        self.percent = self.percent + 1;
        if self.percent > LAST_PERCENT {
            self.percent = 0;
        }
    }

    /// Carries out the move of a switch.
    fn move_switch(&mut self, switch: usize, press: bool) -> (effect: Effect)
        requires
            old(self)@.valid(),
            old(self)@.layer_exists(),
            switch < SWITCH_COUNT,
        ensures
            effect@ == old(self)@.effect(switch as int, press),
            final(self)@ == old(self)@.moved(switch as int, press),
    {
        self.pressed[switch] = press;
        let action = self.keymap.switch_action(self.layer, switch);
        if let KeyAction::LayerMo(target) = action {
            self.layer = if press {
                target as usize
            } else {
                0
            };
        }
        Effect { ops: action.ops(press), message: action.message(press) }
    }

    /// Takes a sample that says whether a switch's line is high. The switch goes down when the
    /// line is high and the switch was not held.
    pub fn sample_press(&mut self, switch: usize, high: bool) -> (effect: Option<Effect>)
        requires
            old(self)@.valid(),
            switch < SWITCH_COUNT,
            high && !old(self)@.pressed[switch as int] ==> old(self)@.layer_exists(),
        ensures
            final(self)@.valid(),
            high && !old(self)@.pressed[switch as int] ==> {
                &&& effect matches Some(e) && e@ == old(self)@.effect(switch as int, true)
                &&& final(self)@ == old(self)@.moved(switch as int, true)
            },
            !high || old(self)@.pressed[switch as int] ==> {
                &&& effect is None
                &&& final(self)@ == old(self)@
            },
    {
        if high && !self.pressed[switch] {
            Some(self.move_switch(switch, true))
        } else {
            None
        }
    }

    /// Takes a sample that says whether a switch's line is low. The switch goes up when the line
    /// is low and the switch was held.
    pub fn sample_release(&mut self, switch: usize, low: bool) -> (effect: Option<Effect>)
        requires
            old(self)@.valid(),
            switch < SWITCH_COUNT,
            low && old(self)@.pressed[switch as int] ==> old(self)@.layer_exists(),
        ensures
            final(self)@.valid(),
            low && old(self)@.pressed[switch as int] ==> {
                &&& effect matches Some(e) && e@ == old(self)@.effect(switch as int, false)
                &&& final(self)@ == old(self)@.moved(switch as int, false)
            },
            !low || !old(self)@.pressed[switch as int] ==> {
                &&& effect is None
                &&& final(self)@ == old(self)@
            },
    {
        if low && self.pressed[switch] {
            Some(self.move_switch(switch, false))
        } else {
            None
        }
    }

    /// Takes a report of the other half and gives the commands that carry it out. A layer is
    /// taken over as it was sent.
    pub fn receive(&mut self, message: &GeneralMessage) -> (ops: Vec<HidOp>)
        requires
            old(self)@.valid(),
        ensures
            final(self)@.valid(),
            final(self)@ == old(self)@.received(*message),
            ops@ == message_ops(*message),
            message matches GeneralMessage::KeyMessage(m) ==> {
                &&& m.press ==> ops@ == seq![HidOp::Press(m.key)]
                &&& !m.press ==> ops@ == seq![HidOp::Release(m.key)]
                &&& final(self)@.layer == old(self)@.layer
            },
            message matches GeneralMessage::MultiKeyMessage(m) ==> {
                &&& m.press ==> ops@ == seq![HidOp::Press(m.key_1), HidOp::Press(m.key_2)]
                &&& !m.press ==> ops@ == seq![HidOp::Release(m.key_1), HidOp::Release(m.key_2)]
                &&& final(self)@.layer == old(self)@.layer
            },
            message matches GeneralMessage::LayerMessage(m) ==> {
                &&& ops@ == seq![HidOp::Release(0xE1)]
                &&& final(self)@.layer == m.new_layer
            },
            final(self)@.pressed == old(self)@.pressed,
            final(self)@.layout == old(self)@.layout,
            final(self)@.percent == old(self)@.percent,
    {
        let mut ops: Vec<HidOp> = Vec::new();
        match message {
            GeneralMessage::KeyMessage(m) => push_key_ops(&mut ops, m.press, &[m.key]),
            GeneralMessage::LayerMessage(m) => {
                self.layer = m.new_layer as usize;
                push_key_ops(&mut ops, false, &[HID_KEY_SHIFT_LEFT]);
            },
            GeneralMessage::MultiKeyMessage(m) => push_key_ops(
                &mut ops,
                m.press,
                &[m.key_1, m.key_2],
            ),
        }
        assert(ops@ =~= message_ops(*message));
        ops
    }
}

} // verus!
