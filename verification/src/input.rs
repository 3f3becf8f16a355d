//! Keyboard input.
//!
//! The windowing collaborator reports keys as values of [`Key`]; the
//! engine derives typed ASCII characters from them — letters honouring
//! the shift state, digits as themselves, nothing else.

use vstd::prelude::*;

verus! {

/// A physical key, as reported by the windowing collaborator.  Letters
/// and digits can be turned into characters; the remaining keys the
/// engine reacts to are listed, and every other key is `Other`.
#[derive(Clone, Copy, Debug, PartialEq, Eq, Structural)]
pub enum Key {
    A,
    B,
    C,
    D,
    E,
    F,
    G,
    H,
    I,
    J,
    K,
    L,
    M,
    N,
    O,
    P,
    Q,
    R,
    S,
    T,
    U,
    V,
    W,
    X,
    Y,
    Z,
    Key0,
    Key1,
    Key2,
    Key3,
    Key4,
    Key5,
    Key6,
    Key7,
    Key8,
    Key9,
    Escape,
    LeftShift,
    RightShift,
    Space,
    Other,
}

/// The alphabet index of a letter key.
pub open spec fn letter_index_spec(key: Key) -> Option<u8> {
    match key {
        Key::A => Some(0u8),
        Key::B => Some(1u8),
        Key::C => Some(2u8),
        Key::D => Some(3u8),
        Key::E => Some(4u8),
        Key::F => Some(5u8),
        Key::G => Some(6u8),
        Key::H => Some(7u8),
        Key::I => Some(8u8),
        Key::J => Some(9u8),
        Key::K => Some(10u8),
        Key::L => Some(11u8),
        Key::M => Some(12u8),
        Key::N => Some(13u8),
        Key::O => Some(14u8),
        Key::P => Some(15u8),
        Key::Q => Some(16u8),
        Key::R => Some(17u8),
        Key::S => Some(18u8),
        Key::T => Some(19u8),
        Key::U => Some(20u8),
        Key::V => Some(21u8),
        Key::W => Some(22u8),
        Key::X => Some(23u8),
        Key::Y => Some(24u8),
        Key::Z => Some(25u8),
        _ => None,
    }
}

/// The digit value of a digit key.
pub open spec fn digit_index_spec(key: Key) -> Option<u8> {
    match key {
        Key::Key0 => Some(0u8),
        Key::Key1 => Some(1u8),
        Key::Key2 => Some(2u8),
        Key::Key3 => Some(3u8),
        Key::Key4 => Some(4u8),
        Key::Key5 => Some(5u8),
        Key::Key6 => Some(6u8),
        Key::Key7 => Some(7u8),
        Key::Key8 => Some(8u8),
        Key::Key9 => Some(9u8),
        _ => None,
    }
}

/// The character a key types: letters follow the shift state, digits are
/// themselves, every other key types nothing.
pub open spec fn key_char_spec(key: Key, caps: bool) -> Option<char> {
    if letter_index_spec(key) is Some {
        let n = letter_index_spec(key)->Some_0;
        if caps {
            Some(((n + 65) as u8) as char)
        } else {
            Some(((n + 97) as u8) as char)
        }
    } else if digit_index_spec(key) is Some {
        let n = digit_index_spec(key)->Some_0;
        Some(((n + 48) as u8) as char)
    } else {
        None
    }
}

/// The alphabet index of a letter key.
fn letter_index(key: Key) -> (r: Option<u8>)
    ensures
        r == letter_index_spec(key),
{
    match key {
        Key::A => Some(0u8),
        Key::B => Some(1u8),
        Key::C => Some(2u8),
        Key::D => Some(3u8),
        Key::E => Some(4u8),
        Key::F => Some(5u8),
        Key::G => Some(6u8),
        Key::H => Some(7u8),
        Key::I => Some(8u8),
        Key::J => Some(9u8),
        Key::K => Some(10u8),
        Key::L => Some(11u8),
        Key::M => Some(12u8),
        Key::N => Some(13u8),
        Key::O => Some(14u8),
        Key::P => Some(15u8),
        Key::Q => Some(16u8),
        Key::R => Some(17u8),
        Key::S => Some(18u8),
        Key::T => Some(19u8),
        Key::U => Some(20u8),
        Key::V => Some(21u8),
        Key::W => Some(22u8),
        Key::X => Some(23u8),
        Key::Y => Some(24u8),
        Key::Z => Some(25u8),
        _ => None,
    }
}

/// The digit value of a digit key.
fn digit_index(key: Key) -> (r: Option<u8>)
    ensures
        r == digit_index_spec(key),
{
    match key {
        Key::Key0 => Some(0u8),
        Key::Key1 => Some(1u8),
        Key::Key2 => Some(2u8),
        Key::Key3 => Some(3u8),
        Key::Key4 => Some(4u8),
        Key::Key5 => Some(5u8),
        Key::Key6 => Some(6u8),
        Key::Key7 => Some(7u8),
        Key::Key8 => Some(8u8),
        Key::Key9 => Some(9u8),
        _ => None,
    }
}

/// Convert a key into the character it types, honouring the shift state
/// for letters.  Letters and digits only; every other key yields `None`.
pub fn key_to_char(key: Key, caps: bool) -> (r: Option<char>)
    ensures
        r == key_char_spec(key, caps),
{
    if let Some(n) = letter_index(key) {
        if caps {
            Some((n + 65) as char)
        } else {
            Some((n + 97) as char)
        }
    } else if let Some(n) = digit_index(key) {
        Some((n + 48) as char)
    } else {
        None
    }
}

/// The characters a snapshot of held keys types, in order.
pub open spec fn typed_chars_spec(keys: Seq<Key>, caps: bool) -> Seq<char>
    decreases keys.len(),
{
    if keys.len() == 0 {
        Seq::empty()
    } else {
        typed_chars_spec(keys.drop_last(), caps) + match key_char_spec(keys.last(), caps) {
            Some(c) => seq![c],
            None => Seq::<char>::empty(),
        }
    }
}

/// Derive the typed characters from a snapshot of held keys.
pub fn typed_chars(keys: &Vec<Key>, caps: bool) -> (r: Vec<char>)
    ensures
        r@ == typed_chars_spec(keys@, caps),
{
    let mut out: Vec<char> = Vec::new();
    let mut i: usize = 0;
    while i < keys.len()
        invariant
            i <= keys@.len(),
            out@ == typed_chars_spec(keys@.take(i as int), caps),
        decreases keys@.len() - i,
    {
        if let Some(c) = key_to_char(keys[i], caps) {
            out.push(c);
        }
        proof {
            let t = keys@.take(i + 1int);
            assert(t.drop_last() =~= keys@.take(i as int));
            assert(t.last() == keys@[i as int]);
        }
        i = i + 1;
    }
    proof {
        assert(keys@.take(keys@.len() as int) =~= keys@);
    }
    out
}

} // verus!
