//! The keymaps: what each switch of each half does on each layer.

use vstd::prelude::*;
use crate::keycodes::{
    HID_KEY_NONE,
    HID_KEY_A,
    HID_KEY_B,
    HID_KEY_C,
    HID_KEY_D,
    HID_KEY_E,
    HID_KEY_F,
    HID_KEY_G,
    HID_KEY_H,
    HID_KEY_I,
    HID_KEY_J,
    HID_KEY_K,
    HID_KEY_L,
    HID_KEY_M,
    HID_KEY_N,
    HID_KEY_O,
    HID_KEY_P,
    HID_KEY_Q,
    HID_KEY_R,
    HID_KEY_S,
    HID_KEY_T,
    HID_KEY_U,
    HID_KEY_V,
    HID_KEY_W,
    HID_KEY_X,
    HID_KEY_Y,
    HID_KEY_Z,
    HID_KEY_1,
    HID_KEY_2,
    HID_KEY_3,
    HID_KEY_4,
    HID_KEY_5,
    HID_KEY_6,
    HID_KEY_7,
    HID_KEY_8,
    HID_KEY_9,
    HID_KEY_0,
    HID_KEY_ENTER,
    HID_KEY_ESCAPE,
    HID_KEY_BACKSPACE,
    HID_KEY_TAB,
    HID_KEY_SPACE,
    HID_KEY_MINUS,
    HID_KEY_EQUAL,
    HID_KEY_BRACKET_LEFT,
    HID_KEY_BRACKET_RIGHT,
    HID_KEY_BACKSLASH,
    HID_KEY_SEMICOLON,
    HID_KEY_APOSTROPHE,
    HID_KEY_GRAVE,
    HID_KEY_COMMA,
    HID_KEY_PERIOD,
    HID_KEY_SLASH,
    HID_KEY_PRINT_SCREEN,
    HID_KEY_HOME,
    HID_KEY_END,
    HID_KEY_ARROW_RIGHT,
    HID_KEY_ARROW_LEFT,
    HID_KEY_ARROW_DOWN,
    HID_KEY_ARROW_UP,
    HID_KEY_CONTROL_LEFT,
    HID_KEY_SHIFT_LEFT,
    HID_KEY_ALT_LEFT,
    HID_KEY_GUI_LEFT,
};

verus! {

/// Layers in a keymap.
pub const LAYER_COUNT: usize = 3;

/// Rows of keys on a half.
pub const ROW_COUNT: usize = 4;

/// Columns of keys on a half.
pub const COLUMN_COUNT: usize = 6;

/// Switches on a half. The bottom row has fewer keys than the others.
pub const SWITCH_COUNT: usize = 21;

/// The column and row of each switch.
pub const KEY_MATRIX: [(usize, usize); SWITCH_COUNT] = [
    (5, 3),
    (1, 1),
    (0, 0),
    (1, 0),
    (2, 0),
    (3, 0),
    (0, 1),
    (3, 1),
    (4, 1),
    (5, 1),
    (0, 2),
    (1, 2),
    (2, 2),
    (4, 0),
    (5, 0),
    (3, 2),
    (4, 3),
    (3, 3),
    (2, 1),
    (4, 2),
    (5, 2),
];

/// The column and row of each light, in the order of the light chain.
pub const LED_MATRIX: [(usize, usize); SWITCH_COUNT] = [
    (5, 0),
    (4, 0),
    (3, 0),
    (2, 0),
    (1, 0),
    (0, 0),
    (5, 1),
    (4, 1),
    (3, 1),
    (2, 1),
    (1, 1),
    (0, 1),
    (5, 2),
    (4, 2),
    (3, 2),
    (2, 2),
    (1, 2),
    (0, 2),
    (5, 3),
    (4, 3),
    (3, 3),
];

/// The place in the light chain of the light under each switch.
pub const KEY_TO_LED: [usize; SWITCH_COUNT] = [
    18, 10, 5, 4, 3, 2, 11, 8, 7, 6, 17, 16, 15, 1, 0, 14, 19, 20, 9, 13, 12,
];

/// Which half of the keyboard this is.
#[derive(Clone, Copy, Debug, PartialEq, Eq, Structural)]
pub enum Half {
    /// The half under the left hand.
    Left,
    /// The half under the right hand.
    Right,
}

/// What a switch does.
#[derive(Clone, Copy, Debug)]
pub enum KeyAction<'a> {
    /// Several keys at once, pressed and released in this order.
    MultiKey(&'a [u8]),
    /// One key.
    Key(u8),
    /// A layer that is in use for as long as the switch is held.
    LayerMo(u8),
}

/// What a switch does, as a mathematical value.
#[verifier::ext_equal]
pub enum Action {
    /// Several keys at once, pressed and released in this order.
    MultiKey(Seq<u8>),
    /// One key.
    Key(u8),
    /// A layer that is in use for as long as the switch is held.
    LayerMo(u8),
}

impl<'a> View for KeyAction<'a> {
    type V = Action;

    open spec fn view(&self) -> Action {
        match self {
            KeyAction::MultiKey(keys) => Action::MultiKey(keys@),
            KeyAction::Key(key) => Action::Key(*key),
            KeyAction::LayerMo(layer) => Action::LayerMo(*layer),
        }
    }
}

/// Actions by layer, row and column.
pub type Layout = Seq<Seq<Seq<Action>>>;

/// A key together with left shift.
pub open spec fn shifted(key: u8) -> Action {
    Action::MultiKey(seq![HID_KEY_SHIFT_LEFT, key])
}

/// The layout of the left half.
pub open spec fn left_layout() -> Layout {
    seq![
        seq![
            seq![
                Action::Key(HID_KEY_ESCAPE),
                Action::Key(HID_KEY_Q),
                Action::Key(HID_KEY_W),
                Action::Key(HID_KEY_E),
                Action::Key(HID_KEY_R),
                Action::Key(HID_KEY_T),
            ],
            seq![
                Action::Key(HID_KEY_TAB),
                Action::Key(HID_KEY_A),
                Action::Key(HID_KEY_S),
                Action::Key(HID_KEY_D),
                Action::Key(HID_KEY_F),
                Action::Key(HID_KEY_G),
            ],
            seq![
                Action::Key(HID_KEY_NONE),
                Action::Key(HID_KEY_Z),
                Action::Key(HID_KEY_X),
                Action::Key(HID_KEY_C),
                Action::Key(HID_KEY_V),
                Action::Key(HID_KEY_B),
            ],
            seq![
                Action::Key(HID_KEY_NONE),
                Action::Key(HID_KEY_NONE),
                Action::Key(HID_KEY_NONE),
                Action::Key(HID_KEY_CONTROL_LEFT),
                Action::Key(HID_KEY_SPACE),
                Action::LayerMo(1),
            ],
        ],
        seq![
            seq![
                Action::Key(HID_KEY_ESCAPE),
                Action::Key(HID_KEY_NONE),
                Action::Key(HID_KEY_7),
                Action::Key(HID_KEY_8),
                Action::Key(HID_KEY_9),
                Action::Key(HID_KEY_NONE),
            ],
            seq![
                Action::Key(HID_KEY_TAB),
                Action::Key(HID_KEY_0),
                Action::Key(HID_KEY_4),
                Action::Key(HID_KEY_5),
                Action::Key(HID_KEY_6),
                Action::Key(HID_KEY_ENTER),
            ],
            seq![
                Action::Key(HID_KEY_NONE),
                Action::Key(HID_KEY_NONE),
                Action::Key(HID_KEY_1),
                Action::Key(HID_KEY_2),
                Action::Key(HID_KEY_3),
                Action::Key(HID_KEY_PERIOD),
            ],
            seq![
                Action::Key(HID_KEY_NONE),
                Action::Key(HID_KEY_NONE),
                Action::Key(HID_KEY_NONE),
                Action::Key(HID_KEY_NONE),
                Action::Key(HID_KEY_NONE),
                Action::LayerMo(1),
            ],
        ],
        seq![
            seq![
                Action::Key(HID_KEY_ESCAPE),
                shifted(HID_KEY_APOSTROPHE),
                shifted(HID_KEY_MINUS),
                Action::Key(HID_KEY_BRACKET_LEFT),
                Action::Key(HID_KEY_BRACKET_RIGHT),
                shifted(HID_KEY_6),
            ],
            seq![
                Action::Key(HID_KEY_NONE),
                Action::Key(HID_KEY_SLASH),
                Action::Key(HID_KEY_MINUS),
                shifted(HID_KEY_BRACKET_LEFT),
                shifted(HID_KEY_BRACKET_RIGHT),
                shifted(HID_KEY_8),
            ],
            seq![
                Action::Key(HID_KEY_NONE),
                shifted(HID_KEY_3),
                shifted(HID_KEY_4),
                shifted(HID_KEY_BACKSLASH),
                shifted(HID_KEY_GRAVE),
                Action::Key(HID_KEY_GRAVE),
            ],
            seq![
                Action::Key(HID_KEY_NONE),
                Action::Key(HID_KEY_NONE),
                Action::Key(HID_KEY_NONE),
                Action::Key(HID_KEY_NONE),
                Action::Key(HID_KEY_NONE),
                Action::LayerMo(1),
            ],
        ],
    ]
}

/// The layout of the right half.
pub open spec fn right_layout() -> Layout {
    seq![
        seq![
            seq![
                Action::Key(HID_KEY_NONE),
                Action::Key(HID_KEY_P),
                Action::Key(HID_KEY_O),
                Action::Key(HID_KEY_I),
                Action::Key(HID_KEY_U),
                Action::Key(HID_KEY_Y),
            ],
            seq![
                Action::Key(HID_KEY_BACKSPACE),
                Action::Key(HID_KEY_SEMICOLON),
                Action::Key(HID_KEY_L),
                Action::Key(HID_KEY_K),
                Action::Key(HID_KEY_J),
                Action::Key(HID_KEY_H),
            ],
            seq![
                Action::Key(HID_KEY_NONE),
                Action::Key(HID_KEY_NONE),
                Action::Key(HID_KEY_PERIOD),
                Action::Key(HID_KEY_COMMA),
                Action::Key(HID_KEY_M),
                Action::Key(HID_KEY_N),
            ],
            seq![
                Action::Key(HID_KEY_NONE),
                Action::Key(HID_KEY_NONE),
                Action::Key(HID_KEY_NONE),
                Action::Key(HID_KEY_SHIFT_LEFT),
                Action::Key(HID_KEY_ENTER),
                Action::LayerMo(2),
            ],
        ],
        seq![
            seq![
                Action::Key(HID_KEY_NONE),
                Action::Key(HID_KEY_NONE),
                Action::Key(HID_KEY_NONE),
                Action::Key(HID_KEY_TAB),
                Action::Key(HID_KEY_ALT_LEFT),
                Action::Key(HID_KEY_NONE),
            ],
            seq![
                Action::Key(HID_KEY_BACKSPACE),
                Action::Key(HID_KEY_ARROW_RIGHT),
                Action::Key(HID_KEY_ARROW_UP),
                Action::Key(HID_KEY_ARROW_DOWN),
                Action::Key(HID_KEY_ARROW_LEFT),
                Action::Key(HID_KEY_GUI_LEFT),
            ],
            seq![
                Action::Key(HID_KEY_NONE),
                Action::Key(HID_KEY_END),
                Action::Key(HID_KEY_PRINT_SCREEN),
                Action::Key(HID_KEY_NONE),
                Action::Key(HID_KEY_HOME),
                Action::Key(HID_KEY_NONE),
            ],
            seq![
                Action::Key(HID_KEY_NONE),
                Action::Key(HID_KEY_NONE),
                Action::Key(HID_KEY_NONE),
                Action::Key(HID_KEY_NONE),
                Action::Key(HID_KEY_NONE),
                Action::LayerMo(2),
            ],
        ],
        seq![
            seq![
                Action::Key(HID_KEY_NONE),
                shifted(HID_KEY_7),
                Action::Key(HID_KEY_EQUAL),
                shifted(HID_KEY_PERIOD),
                shifted(HID_KEY_COMMA),
                shifted(HID_KEY_1),
            ],
            seq![
                Action::Key(HID_KEY_BACKSPACE),
                shifted(HID_KEY_SEMICOLON),
                Action::Key(HID_KEY_APOSTROPHE),
                shifted(HID_KEY_0),
                shifted(HID_KEY_9),
                shifted(HID_KEY_SLASH),
            ],
            seq![
                Action::Key(HID_KEY_NONE),
                Action::Key(HID_KEY_NONE),
                shifted(HID_KEY_2),
                Action::Key(HID_KEY_BACKSLASH),
                shifted(HID_KEY_5),
                shifted(HID_KEY_EQUAL),
            ],
            seq![
                Action::Key(HID_KEY_NONE),
                Action::Key(HID_KEY_NONE),
                Action::Key(HID_KEY_NONE),
                Action::Key(HID_KEY_NONE),
                Action::Key(HID_KEY_NONE),
                Action::LayerMo(2),
            ],
        ],
    ]
}

/// The layout of a half.
pub open spec fn layout_of(half: Half) -> Layout {
    match half {
        Half::Left => left_layout(),
        Half::Right => right_layout(),
    }
}

/// Whether an action is one that a half can carry out and announce: a combination is of two
/// keys, and a layer is one of the keymap's.
pub open spec fn valid_action(action: Action) -> bool {
    match action {
        Action::MultiKey(keys) => keys.len() == 2,
        Action::Key(_) => true,
        Action::LayerMo(layer) => layer < LAYER_COUNT,
    }
}

/// Whether a layout has every layer, row and column, and only valid actions.
pub open spec fn valid_layout(layout: Layout) -> bool {
    &&& layout.len() == LAYER_COUNT
    &&& forall|l: int| 0 <= l < LAYER_COUNT ==> (#[trigger] layout[l]).len() == ROW_COUNT
    &&& forall|l: int, r: int|
        0 <= l < LAYER_COUNT && 0 <= r < ROW_COUNT ==> (#[trigger] layout[l][r]).len()
            == COLUMN_COUNT
    &&& forall|l: int, r: int, c: int|
        0 <= l < LAYER_COUNT && 0 <= r < ROW_COUNT && 0 <= c < COLUMN_COUNT ==> valid_action(
            #[trigger] layout[l][r][c],
        )
}

/// What a switch does on a layer.
pub open spec fn switch_action(layout: Layout, layer: int, switch: int) -> Action {
    layout[layer][KEY_MATRIX@[switch].1 as int][KEY_MATRIX@[switch].0 as int]
}

/// The keymap of a half.
pub struct Keymap {
    layers: [[[KeyAction<'static>; COLUMN_COUNT]; ROW_COUNT]; LAYER_COUNT],
}

impl View for Keymap {
    type V = Layout;

    closed spec fn view(&self) -> Layout {
        Seq::new(
            LAYER_COUNT as nat,
            |l: int|
                Seq::new(
                    ROW_COUNT as nat,
                    |r: int|
                        Seq::new(COLUMN_COUNT as nat, |c: int| self.layers@[l]@[r]@[c]@),
                ),
        )
    }
}

impl Keymap {
    /// The keymap of a half.
    pub fn new(half: Half) -> (keymap: Keymap)
        ensures
            keymap@ == layout_of(half),
    {
        match half {
            Half::Left => Keymap::left(),
            Half::Right => Keymap::right(),
        }
    }

    fn left() -> (keymap: Keymap)
        ensures
            keymap@ == left_layout(),
    {
        let layers =
        [
            [
                [
                    KeyAction::Key(HID_KEY_ESCAPE),
                    KeyAction::Key(HID_KEY_Q),
                    KeyAction::Key(HID_KEY_W),
                    KeyAction::Key(HID_KEY_E),
                    KeyAction::Key(HID_KEY_R),
                    KeyAction::Key(HID_KEY_T),
                ],
                [
                    KeyAction::Key(HID_KEY_TAB),
                    KeyAction::Key(HID_KEY_A),
                    KeyAction::Key(HID_KEY_S),
                    KeyAction::Key(HID_KEY_D),
                    KeyAction::Key(HID_KEY_F),
                    KeyAction::Key(HID_KEY_G),
                ],
                [
                    KeyAction::Key(HID_KEY_NONE),
                    KeyAction::Key(HID_KEY_Z),
                    KeyAction::Key(HID_KEY_X),
                    KeyAction::Key(HID_KEY_C),
                    KeyAction::Key(HID_KEY_V),
                    KeyAction::Key(HID_KEY_B),
                ],
                [
                    KeyAction::Key(HID_KEY_NONE),
                    KeyAction::Key(HID_KEY_NONE),
                    KeyAction::Key(HID_KEY_NONE),
                    KeyAction::Key(HID_KEY_CONTROL_LEFT),
                    KeyAction::Key(HID_KEY_SPACE),
                    KeyAction::LayerMo(1),
                ],
            ],
            [
                [
                    KeyAction::Key(HID_KEY_ESCAPE),
                    KeyAction::Key(HID_KEY_NONE),
                    KeyAction::Key(HID_KEY_7),
                    KeyAction::Key(HID_KEY_8),
                    KeyAction::Key(HID_KEY_9),
                    KeyAction::Key(HID_KEY_NONE),
                ],
                [
                    KeyAction::Key(HID_KEY_TAB),
                    KeyAction::Key(HID_KEY_0),
                    KeyAction::Key(HID_KEY_4),
                    KeyAction::Key(HID_KEY_5),
                    KeyAction::Key(HID_KEY_6),
                    KeyAction::Key(HID_KEY_ENTER),
                ],
                [
                    KeyAction::Key(HID_KEY_NONE),
                    KeyAction::Key(HID_KEY_NONE),
                    KeyAction::Key(HID_KEY_1),
                    KeyAction::Key(HID_KEY_2),
                    KeyAction::Key(HID_KEY_3),
                    KeyAction::Key(HID_KEY_PERIOD),
                ],
                [
                    KeyAction::Key(HID_KEY_NONE),
                    KeyAction::Key(HID_KEY_NONE),
                    KeyAction::Key(HID_KEY_NONE),
                    KeyAction::Key(HID_KEY_NONE),
                    KeyAction::Key(HID_KEY_NONE),
                    KeyAction::LayerMo(1),
                ],
            ],
            [
                [
                    KeyAction::Key(HID_KEY_ESCAPE),
                    KeyAction::MultiKey(&[HID_KEY_SHIFT_LEFT, HID_KEY_APOSTROPHE]),
                    KeyAction::MultiKey(&[HID_KEY_SHIFT_LEFT, HID_KEY_MINUS]),
                    KeyAction::Key(HID_KEY_BRACKET_LEFT),
                    KeyAction::Key(HID_KEY_BRACKET_RIGHT),
                    KeyAction::MultiKey(&[HID_KEY_SHIFT_LEFT, HID_KEY_6]),
                ],
                [
                    KeyAction::Key(HID_KEY_NONE),
                    KeyAction::Key(HID_KEY_SLASH),
                    KeyAction::Key(HID_KEY_MINUS),
                    KeyAction::MultiKey(&[HID_KEY_SHIFT_LEFT, HID_KEY_BRACKET_LEFT]),
                    KeyAction::MultiKey(&[HID_KEY_SHIFT_LEFT, HID_KEY_BRACKET_RIGHT]),
                    KeyAction::MultiKey(&[HID_KEY_SHIFT_LEFT, HID_KEY_8]),
                ],
                [
                    KeyAction::Key(HID_KEY_NONE),
                    KeyAction::MultiKey(&[HID_KEY_SHIFT_LEFT, HID_KEY_3]),
                    KeyAction::MultiKey(&[HID_KEY_SHIFT_LEFT, HID_KEY_4]),
                    KeyAction::MultiKey(&[HID_KEY_SHIFT_LEFT, HID_KEY_BACKSLASH]),
                    KeyAction::MultiKey(&[HID_KEY_SHIFT_LEFT, HID_KEY_GRAVE]),
                    KeyAction::Key(HID_KEY_GRAVE),
                ],
                [
                    KeyAction::Key(HID_KEY_NONE),
                    KeyAction::Key(HID_KEY_NONE),
                    KeyAction::Key(HID_KEY_NONE),
                    KeyAction::Key(HID_KEY_NONE),
                    KeyAction::Key(HID_KEY_NONE),
                    KeyAction::LayerMo(1),
                ],
            ],
        ]
        ;
        let keymap = Keymap { layers };
        assert(keymap@ =~~= left_layout());
        keymap
    }

    fn right() -> (keymap: Keymap)
        ensures
            keymap@ == right_layout(),
    {
        let layers =
        [
            [
                [
                    KeyAction::Key(HID_KEY_NONE),
                    KeyAction::Key(HID_KEY_P),
                    KeyAction::Key(HID_KEY_O),
                    KeyAction::Key(HID_KEY_I),
                    KeyAction::Key(HID_KEY_U),
                    KeyAction::Key(HID_KEY_Y),
                ],
                [
                    KeyAction::Key(HID_KEY_BACKSPACE),
                    KeyAction::Key(HID_KEY_SEMICOLON),
                    KeyAction::Key(HID_KEY_L),
                    KeyAction::Key(HID_KEY_K),
                    KeyAction::Key(HID_KEY_J),
                    KeyAction::Key(HID_KEY_H),
                ],
                [
                    KeyAction::Key(HID_KEY_NONE),
                    KeyAction::Key(HID_KEY_NONE),
                    KeyAction::Key(HID_KEY_PERIOD),
                    KeyAction::Key(HID_KEY_COMMA),
                    KeyAction::Key(HID_KEY_M),
                    KeyAction::Key(HID_KEY_N),
                ],
                [
                    KeyAction::Key(HID_KEY_NONE),
                    KeyAction::Key(HID_KEY_NONE),
                    KeyAction::Key(HID_KEY_NONE),
                    KeyAction::Key(HID_KEY_SHIFT_LEFT),
                    KeyAction::Key(HID_KEY_ENTER),
                    KeyAction::LayerMo(2),
                ],
            ],
            [
                [
                    KeyAction::Key(HID_KEY_NONE),
                    KeyAction::Key(HID_KEY_NONE),
                    KeyAction::Key(HID_KEY_NONE),
                    KeyAction::Key(HID_KEY_TAB),
                    KeyAction::Key(HID_KEY_ALT_LEFT),
                    KeyAction::Key(HID_KEY_NONE),
                ],
                [
                    KeyAction::Key(HID_KEY_BACKSPACE),
                    KeyAction::Key(HID_KEY_ARROW_RIGHT),
                    KeyAction::Key(HID_KEY_ARROW_UP),
                    KeyAction::Key(HID_KEY_ARROW_DOWN),
                    KeyAction::Key(HID_KEY_ARROW_LEFT),
                    KeyAction::Key(HID_KEY_GUI_LEFT),
                ],
                [
                    KeyAction::Key(HID_KEY_NONE),
                    KeyAction::Key(HID_KEY_END),
                    KeyAction::Key(HID_KEY_PRINT_SCREEN),
                    KeyAction::Key(HID_KEY_NONE),
                    KeyAction::Key(HID_KEY_HOME),
                    KeyAction::Key(HID_KEY_NONE),
                ],
                [
                    KeyAction::Key(HID_KEY_NONE),
                    KeyAction::Key(HID_KEY_NONE),
                    KeyAction::Key(HID_KEY_NONE),
                    KeyAction::Key(HID_KEY_NONE),
                    KeyAction::Key(HID_KEY_NONE),
                    KeyAction::LayerMo(2),
                ],
            ],
            [
                [
                    KeyAction::Key(HID_KEY_NONE),
                    KeyAction::MultiKey(&[HID_KEY_SHIFT_LEFT, HID_KEY_7]),
                    KeyAction::Key(HID_KEY_EQUAL),
                    KeyAction::MultiKey(&[HID_KEY_SHIFT_LEFT, HID_KEY_PERIOD]),
                    KeyAction::MultiKey(&[HID_KEY_SHIFT_LEFT, HID_KEY_COMMA]),
                    KeyAction::MultiKey(&[HID_KEY_SHIFT_LEFT, HID_KEY_1]),
                ],
                [
                    KeyAction::Key(HID_KEY_BACKSPACE),
                    KeyAction::MultiKey(&[HID_KEY_SHIFT_LEFT, HID_KEY_SEMICOLON]),
                    KeyAction::Key(HID_KEY_APOSTROPHE),
                    KeyAction::MultiKey(&[HID_KEY_SHIFT_LEFT, HID_KEY_0]),
                    KeyAction::MultiKey(&[HID_KEY_SHIFT_LEFT, HID_KEY_9]),
                    KeyAction::MultiKey(&[HID_KEY_SHIFT_LEFT, HID_KEY_SLASH]),
                ],
                [
                    KeyAction::Key(HID_KEY_NONE),
                    KeyAction::Key(HID_KEY_NONE),
                    KeyAction::MultiKey(&[HID_KEY_SHIFT_LEFT, HID_KEY_2]),
                    KeyAction::Key(HID_KEY_BACKSLASH),
                    KeyAction::MultiKey(&[HID_KEY_SHIFT_LEFT, HID_KEY_5]),
                    KeyAction::MultiKey(&[HID_KEY_SHIFT_LEFT, HID_KEY_EQUAL]),
                ],
                [
                    KeyAction::Key(HID_KEY_NONE),
                    KeyAction::Key(HID_KEY_NONE),
                    KeyAction::Key(HID_KEY_NONE),
                    KeyAction::Key(HID_KEY_NONE),
                    KeyAction::Key(HID_KEY_NONE),
                    KeyAction::LayerMo(2),
                ],
            ],
        ]
        ;
        let keymap = Keymap { layers };
        assert(keymap@ =~~= right_layout());
        keymap
    }

    /// What a switch does on a layer.
    pub fn switch_action(&self, layer: usize, switch: usize) -> (action: KeyAction<'static>)
        requires
            layer < LAYER_COUNT,
            switch < SWITCH_COUNT,
        ensures
            action@ == switch_action(self@, layer as int, switch as int),
            action@
                == self@[layer as int][KEY_MATRIX@[switch as int].1 as int][KEY_MATRIX@[switch as int].0 as int],
    {
        let (column, row) = KEY_MATRIX[switch];
        self.layers[layer][row][column]
    }
}

/// Both layouts are complete and hold only valid actions.
pub proof fn layouts_are_valid(half: Half)
    ensures
        valid_layout(layout_of(half)),
{
}

/// Every switch lies on the board, and no two share a place.
pub proof fn switches_have_places_of_their_own(first: int, second: int)
    requires
        0 <= first < SWITCH_COUNT,
        0 <= second < SWITCH_COUNT,
    ensures
        KEY_MATRIX@[first].0 < COLUMN_COUNT,
        KEY_MATRIX@[first].1 < ROW_COUNT,
        first != second ==> KEY_MATRIX@[first] != KEY_MATRIX@[second],
{
}

/// The light of a switch lies at the switch's place.
pub proof fn lights_lie_under_their_switches(switch: int)
    requires
        0 <= switch < SWITCH_COUNT,
    ensures
        KEY_TO_LED@[switch] < SWITCH_COUNT,
        LED_MATRIX@[KEY_TO_LED@[switch] as int] == KEY_MATRIX@[switch],
{
}

} // verus!
