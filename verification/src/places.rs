//! Where each key lies: for every key and layer, the places of the board that hold it. Keys go by
//! their HID usage codes, rows by their number from the top and columns by their number from the
//! outer edge of the half.

use vstd::prelude::*;
use crate::keymap::{
    layout_of, switch_action, Action, Half, KeyAction, Layout, KEY_MATRIX, KEY_TO_LED, LED_MATRIX,
};

verus! {

/// Which switch lies at each place, and that the first three places of the bottom row have none.
pub proof fn switch_places(switch: int)
    requires
        0 <= switch < 21,
    ensures
        ({
            let (column, row) = KEY_MATRIX@[switch];
            &&& row == 0 && column == 0 <==> switch == 2
            &&& row == 0 && column == 1 <==> switch == 3
            &&& row == 0 && column == 2 <==> switch == 4
            &&& row == 0 && column == 3 <==> switch == 5
            &&& row == 0 && column == 4 <==> switch == 13
            &&& row == 0 && column == 5 <==> switch == 14
            &&& row == 1 && column == 0 <==> switch == 6
            &&& row == 1 && column == 1 <==> switch == 1
            &&& row == 1 && column == 2 <==> switch == 18
            &&& row == 1 && column == 3 <==> switch == 7
            &&& row == 1 && column == 4 <==> switch == 8
            &&& row == 1 && column == 5 <==> switch == 9
            &&& row == 2 && column == 0 <==> switch == 10
            &&& row == 2 && column == 1 <==> switch == 11
            &&& row == 2 && column == 2 <==> switch == 12
            &&& row == 2 && column == 3 <==> switch == 15
            &&& row == 2 && column == 4 <==> switch == 19
            &&& row == 2 && column == 5 <==> switch == 20
            &&& row == 3 && column == 3 <==> switch == 17
            &&& row == 3 && column == 4 <==> switch == 16
            &&& row == 3 && column == 5 <==> switch == 0
            &&& row <= 3
            &&& row == 3 ==> column >= 3
            &&& column <= 5
        }),
{
}

/// The lights run row by row from the top, each row from the inner edge outwards, and each switch
/// has the light at its own place.
pub proof fn light_places(light: int, switch: int)
    requires
        0 <= light < 21,
        0 <= switch < 21,
    ensures
        LED_MATRIX@[light].0 == 5 - light % 6,
        LED_MATRIX@[light].1 == light / 6,
        KEY_TO_LED@[switch] == 6 * KEY_MATRIX@[switch].1 + 5 - KEY_MATRIX@[switch].0,
{
}

/// A half has three layers of four rows of six places, and what a switch does on a layer is what
/// the layout holds at the switch's own row and column, on that layer.
pub proof fn a_switch_does_what_its_place_holds(layout: Layout, layer: int, switch: int)
    ensures
        layout_of(Half::Left).len() == 3,
        layout_of(Half::Right).len() == 3,
        forall|half: Half, l: int|
            0 <= l < 3 ==> (#[trigger] layout_of(half)[l]).len() == 4,
        forall|half: Half, l: int, r: int|
            0 <= l < 3 && 0 <= r < 4 ==> (#[trigger] layout_of(half)[l][r]).len() == 6,
        switch_action(layout, layer, switch)
            == layout[layer][KEY_MATRIX@[switch].1 as int][KEY_MATRIX@[switch].0 as int],
{
}

/// A switch's action depends on nothing but what the layout holds at the switch's place on the
/// layer: layouts that agree there give the switch the same action, and a layout that changes
/// there changes it.
pub proof fn only_its_own_place_decides(
    first: Layout,
    second: Layout,
    layer: int,
    switch: int,
    row: int,
    column: int,
)
    requires
        KEY_MATRIX@[switch].1 == row,
        KEY_MATRIX@[switch].0 == column,
    ensures
        switch_action(first, layer, switch) == switch_action(second, layer, switch)
            <==> first[layer][row][column] == second[layer][row][column],
{
}

/// The view of an action says what the action holds.
pub proof fn action_views(keys: &[u8], code: u8)
    ensures
        KeyAction::MultiKey(keys)@ == Action::MultiKey(keys@),
        KeyAction::Key(code)@ == Action::Key(code),
        KeyAction::LayerMo(code)@ == Action::LayerMo(code),
{
}

/// Where each key lies on the first layer of the left half.
pub proof fn left_first_layer(row: int, column: int)
    requires
        0 <= row < 4,
        0 <= column < 6,
    ensures
        ({
            let action = layout_of(Half::Left)[0][row][column];
            // no key
            &&& action == Action::Key(0x00) <==> {
                ||| row == 2 && column == 0
                ||| row == 3 && 0 <= column <= 2
            }
            // A
            &&& action == Action::Key(0x04) <==> row == 1 && column == 1
            // B
            &&& action == Action::Key(0x05) <==> row == 2 && column == 5
            // C
            &&& action == Action::Key(0x06) <==> row == 2 && column == 3
            // D
            &&& action == Action::Key(0x07) <==> row == 1 && column == 3
            // E
            &&& action == Action::Key(0x08) <==> row == 0 && column == 3
            // F
            &&& action == Action::Key(0x09) <==> row == 1 && column == 4
            // G
            &&& action == Action::Key(0x0A) <==> row == 1 && column == 5
            // Q
            &&& action == Action::Key(0x14) <==> row == 0 && column == 1
            // R
            &&& action == Action::Key(0x15) <==> row == 0 && column == 4
            // S
            &&& action == Action::Key(0x16) <==> row == 1 && column == 2
            // T
            &&& action == Action::Key(0x17) <==> row == 0 && column == 5
            // V
            &&& action == Action::Key(0x19) <==> row == 2 && column == 4
            // W
            &&& action == Action::Key(0x1A) <==> row == 0 && column == 2
            // X
            &&& action == Action::Key(0x1B) <==> row == 2 && column == 2
            // Z
            &&& action == Action::Key(0x1D) <==> row == 2 && column == 1
            // escape
            &&& action == Action::Key(0x29) <==> row == 0 && column == 0
            // tab
            &&& action == Action::Key(0x2B) <==> row == 1 && column == 0
            // space
            &&& action == Action::Key(0x2C) <==> row == 3 && column == 4
            // control left
            &&& action == Action::Key(0xE0) <==> row == 3 && column == 3
            // layer 1 while held
            &&& action == Action::LayerMo(1) <==> row == 3 && column == 5
        }),
{
}

/// Where each key lies on the second layer of the left half.
pub proof fn left_second_layer(row: int, column: int)
    requires
        0 <= row < 4,
        0 <= column < 6,
    ensures
        ({
            let action = layout_of(Half::Left)[1][row][column];
            // no key
            &&& action == Action::Key(0x00) <==> {
                ||| row == 0 && (column == 1 || column == 5)
                ||| row == 2 && 0 <= column <= 1
                ||| row == 3 && 0 <= column <= 4
            }
            // 1
            &&& action == Action::Key(0x1E) <==> row == 2 && column == 2
            // 2
            &&& action == Action::Key(0x1F) <==> row == 2 && column == 3
            // 3
            &&& action == Action::Key(0x20) <==> row == 2 && column == 4
            // 4
            &&& action == Action::Key(0x21) <==> row == 1 && column == 2
            // 5
            &&& action == Action::Key(0x22) <==> row == 1 && column == 3
            // 6
            &&& action == Action::Key(0x23) <==> row == 1 && column == 4
            // 7
            &&& action == Action::Key(0x24) <==> row == 0 && column == 2
            // 8
            &&& action == Action::Key(0x25) <==> row == 0 && column == 3
            // 9
            &&& action == Action::Key(0x26) <==> row == 0 && column == 4
            // 0
            &&& action == Action::Key(0x27) <==> row == 1 && column == 1
            // enter
            &&& action == Action::Key(0x28) <==> row == 1 && column == 5
            // escape
            &&& action == Action::Key(0x29) <==> row == 0 && column == 0
            // tab
            &&& action == Action::Key(0x2B) <==> row == 1 && column == 0
            // period
            &&& action == Action::Key(0x37) <==> row == 2 && column == 5
            // layer 1 while held
            &&& action == Action::LayerMo(1) <==> row == 3 && column == 5
        }),
{
}

/// Where each key lies on the third layer of the left half.
pub proof fn left_third_layer(row: int, column: int)
    requires
        0 <= row < 4,
        0 <= column < 6,
    ensures
        ({
            let action = layout_of(Half::Left)[2][row][column];
            // no key
            &&& action == Action::Key(0x00) <==> {
                ||| row == 1 && column == 0
                ||| row == 2 && column == 0
                ||| row == 3 && 0 <= column <= 4
            }
            // escape
            &&& action == Action::Key(0x29) <==> row == 0 && column == 0
            // minus
            &&& action == Action::Key(0x2D) <==> row == 1 && column == 2
            // bracket left
            &&& action == Action::Key(0x2F) <==> row == 0 && column == 3
            // bracket right
            &&& action == Action::Key(0x30) <==> row == 0 && column == 4
            // grave
            &&& action == Action::Key(0x35) <==> row == 2 && column == 5
            // slash
            &&& action == Action::Key(0x38) <==> row == 1 && column == 1
            // shifted 3, `#`
            &&& (action matches Action::MultiKey(keys) && keys.len() == 2 && keys[0] == 0xE1 && keys[1]
                == 0x20) <==> row == 2 && column == 1
            // shifted 4, `$`
            &&& (action matches Action::MultiKey(keys) && keys.len() == 2 && keys[0] == 0xE1 && keys[1]
                == 0x21) <==> row == 2 && column == 2
            // shifted 6, `^`
            &&& (action matches Action::MultiKey(keys) && keys.len() == 2 && keys[0] == 0xE1 && keys[1]
                == 0x23) <==> row == 0 && column == 5
            // shifted 8, `*`
            &&& (action matches Action::MultiKey(keys) && keys.len() == 2 && keys[0] == 0xE1 && keys[1]
                == 0x25) <==> row == 1 && column == 5
            // shifted minus, `_`
            &&& (action matches Action::MultiKey(keys) && keys.len() == 2 && keys[0] == 0xE1 && keys[1]
                == 0x2D) <==> row == 0 && column == 2
            // shifted bracket left, `{`
            &&& (action matches Action::MultiKey(keys) && keys.len() == 2 && keys[0] == 0xE1 && keys[1]
                == 0x2F) <==> row == 1 && column == 3
            // shifted bracket right, `}`
            &&& (action matches Action::MultiKey(keys) && keys.len() == 2 && keys[0] == 0xE1 && keys[1]
                == 0x30) <==> row == 1 && column == 4
            // shifted backslash, `|`
            &&& (action matches Action::MultiKey(keys) && keys.len() == 2 && keys[0] == 0xE1 && keys[1]
                == 0x31) <==> row == 2 && column == 3
            // shifted apostrophe, `"`
            &&& (action matches Action::MultiKey(keys) && keys.len() == 2 && keys[0] == 0xE1 && keys[1]
                == 0x34) <==> row == 0 && column == 1
            // shifted grave, `~`
            &&& (action matches Action::MultiKey(keys) && keys.len() == 2 && keys[0] == 0xE1 && keys[1]
                == 0x35) <==> row == 2 && column == 4
            // layer 1 while held
            &&& action == Action::LayerMo(1) <==> row == 3 && column == 5
        }),
{
}

/// Where each key lies on the first layer of the right half.
pub proof fn right_first_layer(row: int, column: int)
    requires
        0 <= row < 4,
        0 <= column < 6,
    ensures
        ({
            let action = layout_of(Half::Right)[0][row][column];
            // no key
            &&& action == Action::Key(0x00) <==> {
                ||| row == 0 && column == 0
                ||| row == 2 && 0 <= column <= 1
                ||| row == 3 && 0 <= column <= 2
            }
            // H
            &&& action == Action::Key(0x0B) <==> row == 1 && column == 5
            // I
            &&& action == Action::Key(0x0C) <==> row == 0 && column == 3
            // J
            &&& action == Action::Key(0x0D) <==> row == 1 && column == 4
            // K
            &&& action == Action::Key(0x0E) <==> row == 1 && column == 3
            // L
            &&& action == Action::Key(0x0F) <==> row == 1 && column == 2
            // M
            &&& action == Action::Key(0x10) <==> row == 2 && column == 4
            // N
            &&& action == Action::Key(0x11) <==> row == 2 && column == 5
            // O
            &&& action == Action::Key(0x12) <==> row == 0 && column == 2
            // P
            &&& action == Action::Key(0x13) <==> row == 0 && column == 1
            // U
            &&& action == Action::Key(0x18) <==> row == 0 && column == 4
            // Y
            &&& action == Action::Key(0x1C) <==> row == 0 && column == 5
            // enter
            &&& action == Action::Key(0x28) <==> row == 3 && column == 4
            // backspace
            &&& action == Action::Key(0x2A) <==> row == 1 && column == 0
            // semicolon
            &&& action == Action::Key(0x33) <==> row == 1 && column == 1
            // comma
            &&& action == Action::Key(0x36) <==> row == 2 && column == 3
            // period
            &&& action == Action::Key(0x37) <==> row == 2 && column == 2
            // shift left
            &&& action == Action::Key(0xE1) <==> row == 3 && column == 3
            // layer 2 while held
            &&& action == Action::LayerMo(2) <==> row == 3 && column == 5
        }),
{
}

/// Where each key lies on the second layer of the right half.
pub proof fn right_second_layer(row: int, column: int)
    requires
        0 <= row < 4,
        0 <= column < 6,
    ensures
        ({
            let action = layout_of(Half::Right)[1][row][column];
            // no key
            &&& action == Action::Key(0x00) <==> {
                ||| row == 0 && (column == 0 || column == 1 || column == 2 || column == 5)
                ||| row == 2 && (column == 0 || column == 3 || column == 5)
                ||| row == 3 && 0 <= column <= 4
            }
            // backspace
            &&& action == Action::Key(0x2A) <==> row == 1 && column == 0
            // tab
            &&& action == Action::Key(0x2B) <==> row == 0 && column == 3
            // print screen
            &&& action == Action::Key(0x46) <==> row == 2 && column == 2
            // home
            &&& action == Action::Key(0x4A) <==> row == 2 && column == 4
            // end
            &&& action == Action::Key(0x4D) <==> row == 2 && column == 1
            // arrow right
            &&& action == Action::Key(0x4F) <==> row == 1 && column == 1
            // arrow left
            &&& action == Action::Key(0x50) <==> row == 1 && column == 4
            // arrow down
            &&& action == Action::Key(0x51) <==> row == 1 && column == 3
            // arrow up
            &&& action == Action::Key(0x52) <==> row == 1 && column == 2
            // alt left
            &&& action == Action::Key(0xE2) <==> row == 0 && column == 4
            // gui left
            &&& action == Action::Key(0xE3) <==> row == 1 && column == 5
            // layer 2 while held
            &&& action == Action::LayerMo(2) <==> row == 3 && column == 5
        }),
{
}

/// Where each key lies on the third layer of the right half.
pub proof fn right_third_layer(row: int, column: int)
    requires
        0 <= row < 4,
        0 <= column < 6,
    ensures
        ({
            let action = layout_of(Half::Right)[2][row][column];
            // no key
            &&& action == Action::Key(0x00) <==> {
                ||| row == 0 && column == 0
                ||| row == 2 && 0 <= column <= 1
                ||| row == 3 && 0 <= column <= 4
            }
            // backspace
            &&& action == Action::Key(0x2A) <==> row == 1 && column == 0
            // equal
            &&& action == Action::Key(0x2E) <==> row == 0 && column == 2
            // backslash
            &&& action == Action::Key(0x31) <==> row == 2 && column == 3
            // apostrophe
            &&& action == Action::Key(0x34) <==> row == 1 && column == 2
            // shifted 1, `!`
            &&& (action matches Action::MultiKey(keys) && keys.len() == 2 && keys[0] == 0xE1 && keys[1]
                == 0x1E) <==> row == 0 && column == 5
            // shifted 2, `@`
            &&& (action matches Action::MultiKey(keys) && keys.len() == 2 && keys[0] == 0xE1 && keys[1]
                == 0x1F) <==> row == 2 && column == 2
            // shifted 5, `%`
            &&& (action matches Action::MultiKey(keys) && keys.len() == 2 && keys[0] == 0xE1 && keys[1]
                == 0x22) <==> row == 2 && column == 4
            // shifted 7, `&`
            &&& (action matches Action::MultiKey(keys) && keys.len() == 2 && keys[0] == 0xE1 && keys[1]
                == 0x24) <==> row == 0 && column == 1
            // shifted 9, `(`
            &&& (action matches Action::MultiKey(keys) && keys.len() == 2 && keys[0] == 0xE1 && keys[1]
                == 0x26) <==> row == 1 && column == 4
            // shifted 0, `)`
            &&& (action matches Action::MultiKey(keys) && keys.len() == 2 && keys[0] == 0xE1 && keys[1]
                == 0x27) <==> row == 1 && column == 3
            // shifted equal, `+`
            &&& (action matches Action::MultiKey(keys) && keys.len() == 2 && keys[0] == 0xE1 && keys[1]
                == 0x2E) <==> row == 2 && column == 5
            // shifted semicolon, `:`
            &&& (action matches Action::MultiKey(keys) && keys.len() == 2 && keys[0] == 0xE1 && keys[1]
                == 0x33) <==> row == 1 && column == 1
            // shifted comma, `<`
            &&& (action matches Action::MultiKey(keys) && keys.len() == 2 && keys[0] == 0xE1 && keys[1]
                == 0x36) <==> row == 0 && column == 4
            // shifted period, `>`
            &&& (action matches Action::MultiKey(keys) && keys.len() == 2 && keys[0] == 0xE1 && keys[1]
                == 0x37) <==> row == 0 && column == 3
            // shifted slash, `?`
            &&& (action matches Action::MultiKey(keys) && keys.len() == 2 && keys[0] == 0xE1 && keys[1]
                == 0x38) <==> row == 1 && column == 5
            // layer 2 while held
            &&& action == Action::LayerMo(2) <==> row == 3 && column == 5
        }),
{
}

} // verus!
