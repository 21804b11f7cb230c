use vstd::prelude::*;

verus! {

/// The canonical name of the register selected by a three-bit code and the
/// word-size flag: the byte registers when narrow, the word registers when
/// wide.
pub open spec fn reg_name(code: u8, wide: bool) -> Seq<char>
    recommends
        code < 8,
{
    if wide {
        if code == 0 {
            "ax"@
        } else if code == 1 {
            "cx"@
        } else if code == 2 {
            "dx"@
        } else if code == 3 {
            "bx"@
        } else if code == 4 {
            "sp"@
        } else if code == 5 {
            "bp"@
        } else if code == 6 {
            "si"@
        } else {
            "di"@
        }
    } else {
        if code == 0 {
            "al"@
        } else if code == 1 {
            "cl"@
        } else if code == 2 {
            "dl"@
        } else if code == 3 {
            "bl"@
        } else if code == 4 {
            "ah"@
        } else if code == 5 {
            "ch"@
        } else if code == 6 {
            "dh"@
        } else {
            "bh"@
        }
    }
}

/// The register name table: a three-bit code together with the size flag
/// selects one of the sixteen fixed names.
pub fn get_register_name(registe_code: u8, is_wide: bool) -> (r: &'static str)
    requires
        registe_code < 8,
    ensures
        r@ == reg_name(registe_code, is_wide),
{
    if is_wide {
        if registe_code == 0 {
            "ax"
        } else if registe_code == 1 {
            "cx"
        } else if registe_code == 2 {
            "dx"
        } else if registe_code == 3 {
            "bx"
        } else if registe_code == 4 {
            "sp"
        } else if registe_code == 5 {
            "bp"
        } else if registe_code == 6 {
            "si"
        } else {
            "di"
        }
    } else {
        if registe_code == 0 {
            "al"
        } else if registe_code == 1 {
            "cl"
        } else if registe_code == 2 {
            "dl"
        } else if registe_code == 3 {
            "bl"
        } else if registe_code == 4 {
            "ah"
        } else if registe_code == 5 {
            "ch"
        } else if registe_code == 6 {
            "dh"
        } else {
            "bh"
        }
    }
}

/// Extracts a three-bit register code from `word` (the three bits that start
/// `start_byte` bits from the top) and resolves it through the register name
/// table.
pub fn find_register_name(word: &u8, start_byte: u8, is_wide: bool) -> (r: &'static str)
    requires
        start_byte < 8,
    ensures
        r@ == reg_name((*word << start_byte) >> 5, is_wide),
{
    let clean_word: u8 = *word << start_byte >> 5;
    proof {
        assert(((*word << start_byte) >> 5) < 8) by (bit_vector);
    }
    get_register_name(clean_word, is_wide)
}

} // verus!
