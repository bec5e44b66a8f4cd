//! The fixed layout that maps keyboard keys onto the 16-key keypad.
use vstd::prelude::*;

verus! {

/// The keyboard key of each keypad slot, slot 0x0 first.
pub open spec fn key_layout() -> Seq<char> {
    seq!['1', '2', '3', '4', 'Q', 'W', 'E', 'R', 'A', 'S', 'D', 'F', 'Z', 'X', 'C', 'V']
}

/// The keypad slot of keyboard key `c`, if the layout has one.
pub fn keypad_index(c: char) -> (r: Option<u8>)
    ensures
        r matches Some(k) ==> k < 16 && key_layout()[k as int] == c,
        r is None <==> !key_layout().contains(c),
{
    let r: Option<u8> = match c {
        '1' => Some(0),
        '2' => Some(1),
        '3' => Some(2),
        '4' => Some(3),
        'Q' => Some(4),
        'W' => Some(5),
        'E' => Some(6),
        'R' => Some(7),
        'A' => Some(8),
        'S' => Some(9),
        'D' => Some(10),
        'F' => Some(11),
        'Z' => Some(12),
        'X' => Some(13),
        'C' => Some(14),
        'V' => Some(15),
        _ => None,
    };
    proof {
        if key_layout().contains(c) {
            let i = choose|i: int| 0 <= i < key_layout().len() && key_layout()[i] == c;
            assert(0 <= i < 16);
        }
        if let Some(k) = r {
            assert(key_layout()[k as int] == c);
        }
    }
    r
}

} // verus!
