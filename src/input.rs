//! The input status code that the host reports from the keys pressed.

use vstd::prelude::*;

verus! {

/// A key as the machine tells keys apart.
#[derive(Debug, Clone, Copy, PartialEq, Eq, Structural)]
pub enum InputKey {
    W,
    A,
    S,
    D,
    Other,
}

/// The status code of one key: W 1, A 2, S 3, D 4, any other key 0.
pub open spec fn key_code_spec(k: InputKey) -> u8 {
    match k {
        InputKey::W => 1,
        InputKey::A => 2,
        InputKey::S => 3,
        InputKey::D => 4,
        InputKey::Other => 0,
    }
}

/// The status code of `k`.
pub fn key_code(k: InputKey) -> (r: u8)
    ensures
        r == key_code_spec(k),
{
    match k {
        InputKey::W => 1,
        InputKey::A => 2,
        InputKey::S => 3,
        InputKey::D => 4,
        InputKey::Other => 0,
    }
}

/// The input report for the keys newly pressed, in the order reported: none
/// when no key was pressed, else the code of the last key.
pub fn status_from_keys(keys: &Vec<InputKey>) -> (r: Option<u8>)
    ensures
        keys@.len() == 0 ==> r == None::<u8>,
        keys@.len() > 0 ==> r == Some(key_code_spec(keys@.last())),
{
    let mut status: Option<u8> = None;
    let mut i: usize = 0;
    while i < keys.len()
        invariant
            i <= keys@.len(),
            i == 0 ==> status == None::<u8>,
            i > 0 ==> status == Some(key_code_spec(keys@[i - 1])),
        decreases keys@.len() - i,
    {
        status = Some(key_code(keys[i]));
        i = i + 1;
    }
    status
}

} // verus!
