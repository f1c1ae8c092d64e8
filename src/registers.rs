use vstd::prelude::*;

verus! {

/// Name of the register with the given 3-bit index, byte-wide or word-wide.
pub open spec fn register_name(index: u8, wide: bool) -> Seq<char> {
    if wide {
        if index == 0 {
            "ax"@
        } else if index == 1 {
            "cx"@
        } else if index == 2 {
            "dx"@
        } else if index == 3 {
            "bx"@
        } else if index == 4 {
            "sp"@
        } else if index == 5 {
            "bp"@
        } else if index == 6 {
            "si"@
        } else {
            "di"@
        }
    } else {
        if index == 0 {
            "al"@
        } else if index == 1 {
            "cl"@
        } else if index == 2 {
            "dl"@
        } else if index == 3 {
            "bl"@
        } else if index == 4 {
            "ah"@
        } else if index == 5 {
            "ch"@
        } else if index == 6 {
            "dh"@
        } else {
            "bh"@
        }
    }
}

/// Looks up the canonical name of a register.
pub fn register(index: u8, wide: bool) -> (r: &'static str)
    requires
        index < 8,
    ensures
        r@ == register_name(index, wide),
{
    if wide {
        match index {
            0 => "ax",
            1 => "cx",
            2 => "dx",
            3 => "bx",
            4 => "sp",
            5 => "bp",
            6 => "si",
            _ => "di",
        }
    } else {
        match index {
            0 => "al",
            1 => "cl",
            2 => "dl",
            3 => "bl",
            4 => "ah",
            5 => "ch",
            6 => "dh",
            _ => "bh",
        }
    }
}

} // verus!
