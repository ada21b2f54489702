//! Item ids as the price table spells them: the remote service keys prices
//! by the id written out in decimal.

use vstd::prelude::*;
use vstd::string::*;

verus! {

/// Whether `c` is one of the digits `0` to `9`.
pub open spec fn is_digit(c: char) -> bool {
    48 <= c as u32 <= 57
}

/// The number that a digit stands for.
pub open spec fn digit_value(c: char) -> nat {
    (c as u32 - 48) as nat
}

/// The number that a run of digits spells in base ten.
pub open spec fn decimal_value(digits: Seq<char>) -> nat
    decreases digits.len(),
{
    if digits.len() == 0 {
        0
    } else {
        decimal_value(digits.drop_last()) * 10 + digit_value(digits.last())
    }
}

/// Whether `text` is a whole number written the plain way: one digit or
/// more, nothing but digits, and no zero in front of another digit.
pub open spec fn is_plain_decimal(text: Seq<char>) -> bool {
    &&& text.len() > 0
    &&& forall|i: int| 0 <= i < text.len() ==> is_digit(#[trigger] text[i])
    &&& text.len() > 1 ==> digit_value(text[0]) != 0
}

/// The item id that `key` spells, if it spells one: `key` is a plain
/// decimal number no greater than `u32::MAX`.
pub open spec fn item_id(key: Seq<char>) -> Option<u32> {
    if is_plain_decimal(key) && decimal_value(key) <= u32::MAX {
        Some(decimal_value(key) as u32)
    } else {
        None
    }
}

/// A run of digits spells no less than any of its beginnings.
pub proof fn lemma_decimal_value_grows(digits: Seq<char>, upto: int)
    requires
        0 <= upto <= digits.len(),
    ensures
        decimal_value(digits.take(upto)) <= decimal_value(digits),
    decreases digits.len() - upto,
{
    if upto == digits.len() {
        assert(digits.take(upto) =~= digits);
    } else {
        lemma_decimal_value_grows(digits, upto + 1);
        assert(digits.take(upto + 1).drop_last() =~= digits.take(upto));
    }
}

/// Reads the item id that a key of the price table spells; `None` where the
/// key is no plain decimal number or the number is too large for an id.
pub fn parse_item_id(key: &str) -> (id: Option<u32>)
    ensures
        id == item_id(key@),
{
    let len = key.unicode_len();
    if len == 0 {
        return None;
    }
    let mut value: u64 = 0;
    let mut i: usize = 0;
    assert(key@.take(0) =~= Seq::<char>::empty());
    while i < len
        invariant
            i <= len,
            len == key@.len(),
            forall|k: int| 0 <= k < i ==> is_digit(#[trigger] key@[k]),
            value == decimal_value(key@.take(i as int)),
            value <= u32::MAX,
            i > 1 ==> digit_value(key@[0]) != 0,
        decreases len - i,
    {
        let code: u32 = key.get_char(i) as u32;
        if code < 48 || code > 57 {
            return None;
        }
        proof {
            if i == 1 {
                assert(key@.take(1).drop_last() =~= Seq::<char>::empty());
                assert(key@.take(1).last() == key@[0]);
                assert(decimal_value(Seq::<char>::empty()) == 0);
                assert(value == digit_value(key@[0]));
            }
        }
        if i == 1 && value == 0 {
            return None;
        }
        assert(key@.take(i + 1).drop_last() =~= key@.take(i as int));
        assert(key@.take(i + 1).last() == key@[i as int]);
        value = value * 10 + (code - 48) as u64;
        if value > u32::MAX as u64 {
            proof {
                lemma_decimal_value_grows(key@, i + 1);
            }
            return None;
        }
        i += 1;
    }
    assert(key@.take(i as int) =~= key@);
    Some(value as u32)
}

} // verus!
