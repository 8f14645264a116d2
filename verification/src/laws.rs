//! What holds of the keyboard as a whole.

use vstd::prelude::*;
use crate::controller::{
    action_layer, action_message, action_ops, message_layer, message_ops, Effect, HidOp, State,
};
use crate::keycodes::HID_KEY_SHIFT_LEFT;
use crate::keymap::{
    layout_of, layouts_are_valid, switch_action, switches_have_places_of_their_own, valid_action,
    valid_layout, Action, Half, Layout, KEY_MATRIX, LAYER_COUNT, SWITCH_COUNT,
};
use crate::message::{
    general_message_round_trip, GeneralMessage, KeyMessage, LayerMessage, MultiKeyMessage,
};

verus! {

/// Every switch has a valid action on every layer.
pub proof fn switch_actions_are_valid(layout: Layout, layer: int, switch: int)
    requires
        valid_layout(layout),
        0 <= layer < LAYER_COUNT,
        0 <= switch < SWITCH_COUNT,
    ensures
        valid_action(switch_action(layout, layer, switch)),
{
    switches_have_places_of_their_own(switch, switch);
}

/// Moving a switch keeps the state valid and its layer among the layout's.
pub proof fn moves_keep_the_layer(state: State, switch: int, press: bool)
    requires
        state.valid(),
        state.layer_exists(),
        0 <= switch < SWITCH_COUNT,
    ensures
        state.moved(switch, press).valid(),
        state.moved(switch, press).layer_exists(),
{
    switch_actions_are_valid(state.layout, state.layer as int, switch);
}

/// A report keeps the state valid, and keeps the layer among the layout's exactly when it leaves
/// an existing layer alone or names one.
pub proof fn reports_keep_the_layer(state: State, message: GeneralMessage)
    requires
        state.valid(),
    ensures
        state.received(message).valid(),
        state.received(message).layer_exists() <==> match message {
            GeneralMessage::LayerMessage(m) => m.new_layer < LAYER_COUNT,
            _ => state.layer_exists(),
        },
{
}

/// What one half does when a switch moves, the other half does when it reads the message off the
/// air: the same commands in the same order. Where both used the same layer before, they use the
/// same layer after; a layer switch brings them to the same layer whatever they used before.
pub proof fn halves_act_alike(state: State, other: State, switch: int, press: bool, rest: Seq<u8>)
    requires
        state.valid(),
        state.layer_exists(),
        0 <= switch < SWITCH_COUNT,
    ensures
        ({
            let effect = state.effect(switch, press);
            let heard = GeneralMessage::decoded(effect.message.encoded() + rest);
            &&& heard is Some
            &&& message_ops(heard.unwrap()) == effect.ops
            &&& other.layer == state.layer || state.action(switch) is LayerMo
                ==> other.received(heard.unwrap()).layer == state.moved(switch, press).layer
        }),
{
    let effect = state.effect(switch, press);
    switch_actions_are_valid(state.layout, state.layer as int, switch);
    general_message_round_trip(effect.message, rest);
    assert(message_ops(effect.message) =~= effect.ops);
}

/// A move of one switch of one half.
pub struct SwitchMove {
    /// The half that the switch belongs to.
    pub half: Half,
    /// The switch.
    pub switch: int,
    /// Whether it goes down.
    pub press: bool,
}

impl SwitchMove {
    /// Whether the switch is one of the half's.
    pub open spec fn valid(self) -> bool {
        0 <= self.switch < SWITCH_COUNT
    }
}

/// Both halves, and every command that each has given to its computer.
#[verifier::ext_equal]
pub struct Pair {
    /// The left half's controller.
    pub left: State,
    /// The right half's controller.
    pub right: State,
    /// The commands of the left half.
    pub left_ops: Seq<HidOp>,
    /// The commands of the right half.
    pub right_ops: Seq<HidOp>,
}

impl Pair {
    /// Both halves at power-on.
    pub open spec fn initial() -> Pair {
        Pair {
            left: State::initial(Half::Left),
            right: State::initial(Half::Right),
            left_ops: Seq::empty(),
            right_ops: Seq::empty(),
        }
    }

    /// Both halves after a switch of one moved and the other read of it off the air.
    pub open spec fn after(self, m: SwitchMove) -> Pair {
        match m.half {
            Half::Left => {
                let effect = self.left.effect(m.switch, m.press);
                let heard = GeneralMessage::decoded(effect.message.encoded()).unwrap();
                Pair {
                    left: self.left.moved(m.switch, m.press),
                    right: self.right.received(heard),
                    left_ops: self.left_ops + effect.ops,
                    right_ops: self.right_ops + message_ops(heard),
                }
            },
            Half::Right => {
                let effect = self.right.effect(m.switch, m.press);
                let heard = GeneralMessage::decoded(effect.message.encoded()).unwrap();
                Pair {
                    left: self.left.received(heard),
                    right: self.right.moved(m.switch, m.press),
                    left_ops: self.left_ops + message_ops(heard),
                    right_ops: self.right_ops + effect.ops,
                }
            },
        }
    }

    /// Both halves after a series of moves, each heard before the next.
    pub open spec fn after_all(self, moves: Seq<SwitchMove>) -> Pair
        decreases moves.len(),
    {
        if moves.len() == 0 {
            self
        } else {
            self.after_all(moves.drop_last()).after(moves.last())
        }
    }

    /// Whether the halves act as one keyboard: they use the same layer, one that exists, and have
    /// given the same commands.
    pub open spec fn in_step(self) -> bool {
        &&& self.left.valid()
        &&& self.right.valid()
        &&& self.left.layer_exists()
        &&& self.left.layer == self.right.layer
        &&& self.left_ops == self.right_ops
    }
}

/// The halves stay in step when a switch moves and the other half hears of it.
pub proof fn a_move_keeps_halves_in_step(pair: Pair, m: SwitchMove)
    requires
        pair.in_step(),
        m.valid(),
    ensures
        pair.after(m).in_step(),
{
    let (acting, hearing) = match m.half {
        Half::Left => (pair.left, pair.right),
        Half::Right => (pair.right, pair.left),
    };
    let sent = acting.effect(m.switch, m.press).message.encoded();
    moves_keep_the_layer(acting, m.switch, m.press);
    halves_act_alike(acting, hearing, m.switch, m.press, Seq::empty());
    assert(sent + Seq::<u8>::empty() =~= sent);
}

/// From power-on, whatever switches move, the halves stay in step as long as each hears of every
/// move of the other before the next.
pub proof fn halves_stay_in_step(moves: Seq<SwitchMove>)
    requires
        forall|i: int| 0 <= i < moves.len() ==> (#[trigger] moves[i]).valid(),
    ensures
        Pair::initial().after_all(moves).in_step(),
    decreases moves.len(),
{
    if moves.len() == 0 {
        layouts_are_valid(Half::Left);
        layouts_are_valid(Half::Right);
    } else {
        halves_stay_in_step(moves.drop_last());
        a_move_keeps_halves_in_step(
            Pair::initial().after_all(moves.drop_last()),
            moves.last(),
        );
    }
}

/// A move is remembered until the switch moves back, and no other switch is touched.
pub proof fn a_move_touches_one_switch(state: State, switch: int, press: bool, other: int)
    requires
        state.valid(),
        0 <= switch < SWITCH_COUNT,
        0 <= other < SWITCH_COUNT,
    ensures
        state.moved(switch, press).pressed[switch] == press,
        other != switch ==> state.moved(switch, press).pressed[other] == state.pressed[other],
        state.moved(switch, press).layout == state.layout,
        state.moved(switch, press).percent == state.percent,
{
}

/// A switch releases exactly the keys that it pressed, in the same order, if the layer in use
/// when it goes up is the one that was in use when it went down.
pub proof fn a_stroke_releases_what_it_pressed(down: State, up: State, switch: int)
    requires
        up.layout == down.layout,
        up.layer == down.layer,
        !(down.action(switch) is LayerMo),
    ensures
        ({
            let pressed = down.effect(switch, true).ops;
            let released = up.effect(switch, false).ops;
            &&& released.len() == pressed.len()
            &&& forall|i: int|
                0 <= i < pressed.len() ==> {
                    &&& #[trigger] pressed[i] is Press
                    &&& released[i] == HidOp::Release(pressed[i]->Press_0)
                }
        }),
{
}

/// A switch that is no layer switch, going down and up again, leaves the state as it was.
pub proof fn a_stroke_restores_the_state(state: State, switch: int)
    requires
        state.valid(),
        0 <= switch < SWITCH_COUNT,
        !state.pressed[switch],
        !(state.action(switch) is LayerMo),
    ensures
        state.moved(switch, true).moved(switch, false) == state,
{
    assert(state.moved(switch, true).moved(switch, false).pressed =~= state.pressed);
}

/// The layer that a half's layer switch chooses.
pub open spec fn held_layer(half: Half) -> u8 {
    match half {
        Half::Left => 1,
        Half::Right => 2,
    }
}

/// Each half has one layer switch, the first. It is one on every layer, and always for the same
/// layer.
pub proof fn the_first_switch_is_the_layer_switch(half: Half, layer: int, switch: int)
    requires
        0 <= layer < LAYER_COUNT,
        0 <= switch < SWITCH_COUNT,
    ensures
        switch_action(layout_of(half), layer, 0) == Action::LayerMo(held_layer(half)),
        switch != 0 ==> !(switch_action(layout_of(half), layer, switch) is LayerMo),
{
}

/// Holding the layer switch brings its layer in from any layer, and letting it go brings the
/// first layer back from any layer, also from one that the other half chose meanwhile.
pub proof fn the_layer_switch_is_momentary(half: Half, before: State, meanwhile: State)
    requires
        before.layout == layout_of(half),
        before.layer_exists(),
        meanwhile.layout == layout_of(half),
        meanwhile.layer_exists(),
    ensures
        before.moved(0, true).layer == held_layer(half),
        meanwhile.moved(0, false).layer == 0,
{
    the_first_switch_is_the_layer_switch(half, before.layer as int, 0);
    the_first_switch_is_the_layer_switch(half, meanwhile.layer as int, 0);
}

/// No layer changes without left shift being let go, on either half.
pub proof fn a_layer_change_lets_shift_go(
    state: State,
    switch: int,
    press: bool,
    message: GeneralMessage,
)
    ensures
        state.moved(switch, press).layer != state.layer ==> state.effect(switch, press).ops
            == seq![HidOp::Release(HID_KEY_SHIFT_LEFT)],
        state.received(message).layer != state.layer ==> message_ops(message)
            == seq![HidOp::Release(HID_KEY_SHIFT_LEFT)],
{
}

/// A switch for one key presses that key when it goes down and releases it when it goes up, and
/// reports just that, whatever the key.
pub proof fn one_key_is_moved_as_it_is(key: u8)
    ensures
        action_ops(Action::Key(key), true) == seq![HidOp::Press(key)],
        action_ops(Action::Key(key), false) == seq![HidOp::Release(key)],
        action_message(Action::Key(key), true) == GeneralMessage::KeyMessage(
            KeyMessage { press: true, key },
        ),
        action_message(Action::Key(key), false) == GeneralMessage::KeyMessage(
            KeyMessage { press: false, key },
        ),
        forall|press: bool, layer: nat|
            #[trigger] action_layer(Action::Key(key), press, layer) == layer,
{
}

/// A switch for several keys moves every one of them, in order and once, and reports the first
/// two, whatever the keys.
pub proof fn every_key_of_a_combination_is_moved(keys: Seq<u8>)
    ensures
        action_ops(Action::MultiKey(keys), true).len() == keys.len(),
        action_ops(Action::MultiKey(keys), false).len() == keys.len(),
        forall|i: int|
            0 <= i < keys.len() ==> {
                &&& action_ops(Action::MultiKey(keys), true)[i] == HidOp::Press(#[trigger] keys[i])
                &&& action_ops(Action::MultiKey(keys), false)[i] == HidOp::Release(keys[i])
            },
        action_message(Action::MultiKey(keys), true) == GeneralMessage::MultiKeyMessage(
            MultiKeyMessage { press: true, key_1: keys[0], key_2: keys[1] },
        ),
        action_message(Action::MultiKey(keys), false) == GeneralMessage::MultiKeyMessage(
            MultiKeyMessage { press: false, key_1: keys[0], key_2: keys[1] },
        ),
        forall|press: bool, layer: nat|
            #[trigger] action_layer(Action::MultiKey(keys), press, layer) == layer,
{
}

/// A layer switch lets left shift go and does nothing else to the keys, both ways; held, it
/// brings in and reports its layer, let go, the first layer.
pub proof fn a_layer_switch_only_lets_shift_go(target: u8, layer: nat)
    ensures
        action_ops(Action::LayerMo(target), true) == seq![HidOp::Release(0xE1)],
        action_ops(Action::LayerMo(target), false) == seq![HidOp::Release(0xE1)],
        action_message(Action::LayerMo(target), true) == GeneralMessage::LayerMessage(
            LayerMessage { new_layer: target },
        ),
        action_message(Action::LayerMo(target), false) == GeneralMessage::LayerMessage(
            LayerMessage { new_layer: 0 },
        ),
        action_layer(Action::LayerMo(target), true, layer) == target,
        action_layer(Action::LayerMo(target), false, layer) == 0,
{
}

/// A report of one key moves that key, a report of two keys moves the first and then the second,
/// and neither changes the layer, whatever the keys.
pub proof fn reported_keys_are_moved_as_they_are(key_1: u8, key_2: u8, layer: nat)
    ensures
        message_ops(GeneralMessage::KeyMessage(KeyMessage { press: true, key: key_1 }))
            == seq![HidOp::Press(key_1)],
        message_ops(GeneralMessage::KeyMessage(KeyMessage { press: false, key: key_1 }))
            == seq![HidOp::Release(key_1)],
        message_ops(
            GeneralMessage::MultiKeyMessage(MultiKeyMessage { press: true, key_1, key_2 }),
        ) == seq![HidOp::Press(key_1), HidOp::Press(key_2)],
        message_ops(
            GeneralMessage::MultiKeyMessage(MultiKeyMessage { press: false, key_1, key_2 }),
        ) == seq![HidOp::Release(key_1), HidOp::Release(key_2)],
        forall|m: KeyMessage|
            #[trigger] message_layer(GeneralMessage::KeyMessage(m), layer) == layer,
        forall|m: MultiKeyMessage|
            #[trigger] message_layer(GeneralMessage::MultiKeyMessage(m), layer) == layer,
{
}

/// A reported layer is taken over as it is, and lets left shift go.
pub proof fn a_reported_layer_is_taken_over(new_layer: u8, layer: nat)
    ensures
        message_ops(GeneralMessage::LayerMessage(LayerMessage { new_layer }))
            == seq![HidOp::Release(0xE1)],
        message_layer(GeneralMessage::LayerMessage(LayerMessage { new_layer }), layer)
            == new_layer,
{
}

/// What a move gives is decided by what the layout holds at the switch's row and column on the
/// layer in use: that key, those keys or that layer, and nothing else.
pub proof fn a_move_does_what_the_place_holds(state: State, switch: int, press: bool)
    requires
        state.valid(),
        state.layer < 3,
        0 <= switch < 21,
    ensures
        ({
            let place =
                state.layout[state.layer as int][KEY_MATRIX@[switch].1 as int][KEY_MATRIX@[switch].0 as int];
            let effect = state.effect(switch, press);
            let after = state.moved(switch, press);
            &&& after.pressed == state.pressed.update(switch, press)
            &&& after.layout == state.layout
            &&& after.percent == state.percent
            &&& match place {
                Action::Key(key) => {
                    &&& effect.ops.len() == 1
                    &&& press ==> effect.ops[0] == HidOp::Press(key)
                    &&& !press ==> effect.ops[0] == HidOp::Release(key)
                    &&& effect.message == GeneralMessage::KeyMessage(KeyMessage { press, key })
                    &&& after.layer == state.layer
                },
                Action::MultiKey(keys) => {
                    &&& effect.ops.len() == 2
                    &&& keys.len() == 2
                    &&& press ==> effect.ops[0] == HidOp::Press(keys[0]) && effect.ops[1]
                        == HidOp::Press(keys[1])
                    &&& !press ==> effect.ops[0] == HidOp::Release(keys[0]) && effect.ops[1]
                        == HidOp::Release(keys[1])
                    &&& effect.message == GeneralMessage::MultiKeyMessage(
                        MultiKeyMessage { press, key_1: keys[0], key_2: keys[1] },
                    )
                    &&& after.layer == state.layer
                },
                Action::LayerMo(target) => {
                    &&& effect.ops == seq![HidOp::Release(0xE1)]
                    &&& target < 3
                    &&& press ==> after.layer == target && effect.message
                        == GeneralMessage::LayerMessage(LayerMessage { new_layer: target })
                    &&& !press ==> after.layer == 0 && effect.message
                        == GeneralMessage::LayerMessage(LayerMessage { new_layer: 0 })
                },
            }
        }),
{
    switch_actions_are_valid(state.layout, state.layer as int, switch);
}

/// A report changes nothing of the state but the layer, and that only when it names one.
pub proof fn a_report_changes_the_layer_alone(state: State, message: GeneralMessage)
    ensures
        state.received(message).layout == state.layout,
        state.received(message).pressed == state.pressed,
        state.received(message).percent == state.percent,
        message matches GeneralMessage::LayerMessage(m) ==> state.received(message).layer
            == m.new_layer,
        !(message is LayerMessage) ==> state.received(message).layer == state.layer,
{
}

/// A half starts on the first layer of its own layout with no switch held, in a valid state; the
/// layers that exist are the first three.
pub proof fn power_on(half: Half, state: State)
    ensures
        State::initial(half).layout == layout_of(half),
        State::initial(half).layer == 0,
        State::initial(half).percent == 0,
        State::initial(half).pressed.len() == 21,
        forall|i: int| 0 <= i < 21 ==> !#[trigger] State::initial(half).pressed[i],
        State::initial(half).valid(),
        state.layer_exists() <==> state.layer < 3,
{
    layouts_are_valid(half);
}

/// The view of an effect holds its commands in order and its message.
pub proof fn effect_views(effect: Effect)
    ensures
        effect@.ops == effect.ops@,
        effect@.message == effect.message,
{
}

} // verus!
