//! The host's side of the joypad: the byte that says which buttons are
//! held, and the dialog in which the player binds keys and controller
//! buttons to the eight buttons of the console.
use vstd::prelude::*;

verus! {

/// The bit of a button in the joypad state byte: 0 while the button is
/// held, else its weight.
pub open spec fn released_bit(held: bool, weight: u8) -> u8 {
    if held { 0 } else { weight }
}

/// The joypad state byte for the buttons held, in the order Right, Left,
/// Up, Down, A, B, Select, Start from bit 0: a bit is 0 while its button is
/// held.
pub open spec fn joypad_byte_spec(held: Seq<bool>) -> u8 {
    released_bit(held[0], 0x01) | released_bit(held[1], 0x02) | released_bit(held[2], 0x04)
        | released_bit(held[3], 0x08) | released_bit(held[4], 0x10) | released_bit(held[5], 0x20)
        | released_bit(held[6], 0x40) | released_bit(held[7], 0x80)
}

pub fn joypad_byte(held: &[bool; 8]) -> (state: u8)
    ensures
        state == joypad_byte_spec(held@),
        (state & 0x01 == 0) == held@[0],
        (state & 0x02 == 0) == held@[1],
        (state & 0x04 == 0) == held@[2],
        (state & 0x08 == 0) == held@[3],
        (state & 0x10 == 0) == held@[4],
        (state & 0x20 == 0) == held@[5],
        (state & 0x40 == 0) == held@[6],
        (state & 0x80 == 0) == held@[7],
        (state == 0xFF) <==> (forall|n: int| 0 <= n < 8 ==> !held@[n]),
{
    let b0: u8 = if held[0] { 0 } else { 0x01 };
    let b1: u8 = if held[1] { 0 } else { 0x02 };
    let b2: u8 = if held[2] { 0 } else { 0x04 };
    let b3: u8 = if held[3] { 0 } else { 0x08 };
    let b4: u8 = if held[4] { 0 } else { 0x10 };
    let b5: u8 = if held[5] { 0 } else { 0x20 };
    let b6: u8 = if held[6] { 0 } else { 0x40 };
    let b7: u8 = if held[7] { 0 } else { 0x80 };
    proof {
        crate::bits::lemma_button_bits(b0, b1, b2, b3, b4, b5, b6, b7);
    }
    b0 | b1 | b2 | b3 | b4 | b5 | b6 | b7
}

/// What each of the eight buttons is bound to, as the codes that the host
/// gives its keys and controller buttons.  The slots are Up, Down, Left,
/// Right, A, B, Start, Select.
#[derive(Clone, Copy, Debug)]
pub struct Bindings {
    pub buttons: [u32; 8],
    pub keys: [u32; 8],
}

/// The binding dialog: the bindings so far, and the slot that waits for a
/// key or a button, if one was picked.
#[derive(Clone, Copy, Debug)]
pub struct BindingDialog {
    pub bindings: Bindings,
    pub target: Option<usize>,
}

/// The row of the dialog that a click at height `y` hits, if it hits one of
/// the eight: rows are `row_height` high and start at `first_row`.
pub open spec fn row_at_spec(y: int, first_row: int, row_height: int) -> Option<usize> {
    if row_height > 0 && y >= first_row && (y - first_row) / row_height < 8 {
        Some(((y - first_row) / row_height) as usize)
    } else {
        None
    }
}

pub fn row_at(y: usize, first_row: usize, row_height: usize) -> (row: Option<usize>)
    ensures
        row == row_at_spec(y as int, first_row as int, row_height as int),
        row is Some ==> row->0 < 8,
{
    if row_height > 0 && y >= first_row && (y - first_row) / row_height < 8 {
        Some((y - first_row) / row_height)
    } else {
        None
    }
}

impl BindingDialog {
    /// The dialog after one round of input.  While a slot waits, a
    /// controller button binds it, else a key does, and the slot stops
    /// waiting; with nothing pressed it goes on waiting.  While no slot
    /// waits, a click on one of the eight rows makes that slot wait.
    pub open spec fn step_spec(self, button: Option<u32>, key: Option<u32>, clicked: Option<usize>) -> BindingDialog {
        match self.target {
            Some(slot) => match (button, key) {
                (Some(code), _) => BindingDialog {
                    bindings: if slot < 8 {
                        Bindings {
                            buttons: vstd::array::spec_array_update(self.bindings.buttons, slot as int, code),
                            ..self.bindings
                        }
                    } else {
                        self.bindings
                    },
                    target: None,
                },
                (None, Some(code)) => BindingDialog {
                    bindings: if slot < 8 {
                        Bindings {
                            keys: vstd::array::spec_array_update(self.bindings.keys, slot as int, code),
                            ..self.bindings
                        }
                    } else {
                        self.bindings
                    },
                    target: None,
                },
                (None, None) => self,
            },
            None => match clicked {
                Some(row) => if row < 8 { BindingDialog { target: Some(row), ..self } } else { self },
                None => self,
            },
        }
    }

    /// Takes one round of input: the controller button and the key that
    /// were pressed, if any, and the row that was clicked, if any.
    pub fn step(&mut self, button: Option<u32>, key: Option<u32>, clicked: Option<usize>)
        ensures
            *final(self) == old(self).step_spec(button, key, clicked),
    {
        match self.target {
            Some(slot) => {
                match button {
                    Some(code) => {
                        if slot < 8 {
                            self.bindings.buttons[slot] = code;
                        }
                        self.target = None;
                    },
                    None => match key {
                        Some(code) => {
                            if slot < 8 {
                                self.bindings.keys[slot] = code;
                            }
                            self.target = None;
                        },
                        None => {},
                    },
                }
            },
            None => match clicked {
                Some(row) => {
                    if row < 8 {
                        self.target = Some(row);
                    }
                },
                None => {},
            },
        }
    }
}

} // verus!
