use vstd::prelude::*;

verus! {

/// What [`u8_to_text_pt_br`] answers: the words for one, two and three,
/// and a catch-all.
pub open spec fn spec_u8_text(val: u8) -> Seq<char> {
    if val == 1 {
        "um"@
    } else if val == 2 {
        "dois"@
    } else if val == 3 {
        "três"@
    } else {
        "outro"@
    }
}

/// Switch-style number naming.
pub fn u8_to_text_pt_br(val: u8) -> (r: String)
    ensures
        r@ == spec_u8_text(val),
{
    let pt_br_text: String;

    match val {
        1 => pt_br_text = "um".to_owned(),
        2 => pt_br_text = "dois".to_owned(),
        3 => pt_br_text = "três".to_owned(),
        _ => pt_br_text = "outro".to_owned(),
    };

    return pt_br_text;
}

/// What [`u8_to_text_pt_br_rs`] answers: words for the small numbers,
/// ranges for the middle ones, a special case for ten and one hundred.
pub open spec fn spec_u8_text_rs(val: u8) -> Seq<char> {
    if val == 1 {
        "um"@
    } else if val == 2 {
        "dois"@
    } else if 3 <= val < 7 {
        "entre três e seis"@
    } else if 7 <= val <= 9 {
        "entre sete e nove"@
    } else if val == 10 || val == 100 {
        "Dez ou cem"@
    } else {
        "outro"@
    }
}

/// Match-style number naming, with ranges and alternatives.
pub fn u8_to_text_pt_br_rs(val: u8) -> (r: String)
    ensures
        r@ == spec_u8_text_rs(val),
{
    match val {
        1 => "um".to_owned(),
        2 => "dois".to_owned(),
        3..=6 => "entre três e seis".to_owned(),
        7..=9 => "entre sete e nove".to_owned(),
        10 | 100 => "Dez ou cem".to_owned(),
        _ => "outro".to_owned(),
    }
}

} // verus!
