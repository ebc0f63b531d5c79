//! The fixed table from physical keys to the machine's sixteen keypad
//! indices. A pure lookup with no state: most physical keys are simply
//! unmapped, which is a normal outcome, not an error.

use vstd::prelude::*;

verus! {

/// The physical keys the front end distinguishes. `Escape` is the designated
/// exit key; `Other` stands for every key outside the table.
#[derive(Clone, Copy, Debug, PartialEq, Eq, Structural)]
pub enum Key {
    Num1,
    Num2,
    Num3,
    Num4,
    Q,
    W,
    E,
    R,
    A,
    S,
    D,
    F,
    Z,
    X,
    C,
    V,
    Escape,
    Other,
}

/// The keypad index a physical key stands for, if any: the classic
/// four-by-four layout, `1`..`4` over `q`..`r` over `a`..`f` over `z`..`v`.
pub open spec fn key_index(k: Key) -> Option<u8> {
    match k {
        Key::Num1 => Some(0x1u8),
        Key::Num2 => Some(0x2u8),
        Key::Num3 => Some(0x3u8),
        Key::Num4 => Some(0xCu8),
        Key::Q => Some(0x4u8),
        Key::W => Some(0x5u8),
        Key::E => Some(0x6u8),
        Key::R => Some(0xDu8),
        Key::A => Some(0x7u8),
        Key::S => Some(0x8u8),
        Key::D => Some(0x9u8),
        Key::F => Some(0xEu8),
        Key::Z => Some(0xAu8),
        Key::X => Some(0x0u8),
        Key::C => Some(0xBu8),
        Key::V => Some(0xFu8),
        Key::Escape => None,
        Key::Other => None,
    }
}

/// Looks a physical key up in the table. Unmapped keys (the exit key among
/// them) yield `None`; every mapped key yields its keypad index, below 16.
pub fn lookup(k: Key) -> (r: Option<u8>)
    ensures
        r == key_index(k),
        r is Some ==> r->0 < 16,
{
    match k {
        Key::Num1 => Some(0x1),
        Key::Num2 => Some(0x2),
        Key::Num3 => Some(0x3),
        Key::Num4 => Some(0xC),
        Key::Q => Some(0x4),
        Key::W => Some(0x5),
        Key::E => Some(0x6),
        Key::R => Some(0xD),
        Key::A => Some(0x7),
        Key::S => Some(0x8),
        Key::D => Some(0x9),
        Key::F => Some(0xE),
        Key::Z => Some(0xA),
        Key::X => Some(0x0),
        Key::C => Some(0xB),
        Key::V => Some(0xF),
        Key::Escape => None,
        Key::Other => None,
    }
}

/// Every mapped key's index is a keypad index: below 16.
pub proof fn lemma_key_index_range(k: Key)
    ensures
        key_index(k) is Some ==> key_index(k)->0 < 16,
{
}

/// The table is injective: no two distinct mapped keys share a keypad index.
pub proof fn lemma_key_index_injective(k1: Key, k2: Key)
    requires
        key_index(k1) is Some,
        key_index(k1) == key_index(k2),
    ensures
        k1 == k2,
{
}

} // verus!
