//! Texts as lists of characters.

use vstd::prelude::*;

verus! {

/// The characters of `text`, in order.
pub fn to_chars(text: &str) -> (r: Vec<char>)
    ensures
        r@ == text@,
{
    let mut r: Vec<char> = Vec::new();
    for c in it: text.chars()
        invariant
            r@ == it.seq().take(it.index() as int),
            it.seq() == text@,
    {
        r.push(c);
        assert(it.seq().take(it.index() + 1) =~= it.seq().take(it.index() as int).push(c));
    }
    assert(text@.take(text@.len() as int) =~= text@);
    r
}

/// The text made of the characters of `chars` from `from` up to, but not
/// including, `to`.
pub fn text_of(chars: &Vec<char>, from: usize, to: usize) -> (r: String)
    requires
        from <= to <= chars.len(),
    ensures
        r@ == chars@.subrange(from as int, to as int),
{
    let mut r = String::new();
    let mut i = from;
    while i < to
        invariant
            from <= i <= to <= chars.len(),
            r@ == chars@.subrange(from as int, i as int),
        decreases to - i,
    {
        r.push(chars[i]);
        assert(chars@.subrange(from as int, i + 1) =~= chars@.subrange(from as int, i as int).push(chars@[i as int]));
        i += 1;
    }
    r
}

/// The small letter for a capital letter of the Latin alphabet, and `c`
/// itself for every other character.
pub open spec fn spec_lowercase(c: char) -> char {
    if 'A' <= c <= 'Z' {
        ((c as u8) + 32) as char
    } else {
        c
    }
}

pub fn lowercase(c: char) -> (r: char)
    ensures
        r == spec_lowercase(c),
{
    if 'A' <= c && c <= 'Z' {
        ((c as u8) + 32) as char
    } else {
        c
    }
}

/// The first character of `text`, as a small letter; nothing for an empty
/// text.
pub fn first_lowercase(text: &str) -> (r: Option<char>)
    ensures
        r == (if text@.len() > 0 {
            Some(spec_lowercase(text@[0]))
        } else {
            None
        }),
{
    let chars = to_chars(text);
    if chars.len() > 0 {
        Some(lowercase(chars[0]))
    } else {
        None
    }
}

/// Puts the characters of `more` at the end of `text`.
pub fn append(text: &mut String, more: &str)
    ensures
        final(text)@ == old(text)@ + more@,
{
    let chars = to_chars(more);
    let mut i: usize = 0;
    while i < chars.len()
        invariant
            i <= chars.len(),
            chars@ == more@,
            text@ == old(text)@ + chars@.subrange(0, i as int),
        decreases chars.len() - i,
    {
        text.push(chars[i]);
        assert((old(text)@ + chars@.subrange(0, i as int)).push(chars@[i as int]) =~= old(text)@ + chars@.subrange(
            0,
            i + 1,
        ));
        i += 1;
    }
    assert(chars@.subrange(0, chars@.len() as int) =~= chars@);
}

/// The two numbers as a pair is written: between brackets, with a comma
/// and a space between them.
pub fn bracketed(x: i32, y: i32) -> (r: String)
    ensures
        r@ == seq!['('] + spec_decimal(x as int) + seq![',', ' '] + spec_decimal(y as int) + seq![')'],
{
    let mut r = String::new();
    r.push('(');
    append(&mut r, decimal(x).as_str());
    r.push(',');
    r.push(' ');
    append(&mut r, decimal(y).as_str());
    r.push(')');
    assert(r@ =~= seq!['('] + spec_decimal(x as int) + seq![',', ' '] + spec_decimal(y as int) + seq![')']);
    r
}

/// The character for the digit `d`, from 0 to 9.
pub open spec fn digit_char(d: int) -> char {
    (('0' as u8) + d) as char
}

/// The digits of `n` in base ten, the leading one first; a single 0 for
/// 0.
pub open spec fn digits_of(n: nat) -> Seq<char>
    decreases n,
{
    if n < 10 {
        seq![digit_char(n as int)]
    } else {
        digits_of(n / 10).push(digit_char((n % 10) as int))
    }
}

/// `n` as it is written in base ten, with a minus sign before a negative
/// number.
pub open spec fn spec_decimal(n: int) -> Seq<char> {
    if n < 0 {
        seq!['-'] + digits_of((-n) as nat)
    } else {
        digits_of(n as nat)
    }
}

/// `n` as it is written in base ten.
pub fn decimal(n: i32) -> (r: String)
    ensures
        r@ == spec_decimal(n as int),
{
    let negative = n < 0;
    let magnitude: u32 = if negative {
        (-(n as i64)) as u32
    } else {
        n as u32
    };
    // The digits, the last one first.
    let mut reversed: Vec<char> = Vec::new();
    let mut rest = magnitude;
    reversed.push(((('0' as u8) + (rest % 10) as u8)) as char);
    rest = rest / 10;
    proof {
        assert(reversed@ =~= seq![digit_char((magnitude % 10) as int)]);
    }
    while rest > 0
        invariant
            reversed@.len() >= 1,
            digits_of(magnitude as nat) == digits_of(rest as nat) + reversed@.reverse() || (rest == 0 && digits_of(
                magnitude as nat,
            ) == reversed@.reverse()),
            rest == 0 ==> digits_of(magnitude as nat) == reversed@.reverse(),
        decreases rest,
    {
        let ghost before = reversed@;
        let ghost rest_before = rest;
        reversed.push(((('0' as u8) + (rest % 10) as u8)) as char);
        rest = rest / 10;
        proof {
            let d = digit_char((rest_before % 10) as int);
            assert(reversed@.reverse() =~= seq![d] + before.reverse());
            if rest_before < 10 {
                assert(digits_of(rest_before as nat) =~= seq![d]);
                assert(digits_of(magnitude as nat) =~= reversed@.reverse());
            } else {
                assert(digits_of(rest_before as nat) =~= digits_of(rest as nat).push(d));
                assert(digits_of(magnitude as nat) =~= digits_of(rest as nat) + reversed@.reverse());
            }
        }
    }
    let mut r = String::new();
    if negative {
        r.push('-');
    }
    let ghost sign = r@;
    let mut i = reversed.len();
    while i > 0
        invariant
            i <= reversed.len(),
            r@ == sign + reversed@.reverse().subrange(0, reversed.len() - i),
        decreases i,
    {
        i -= 1;
        r.push(reversed[i]);
        proof {
            let shown = reversed@.reverse();
            assert(shown[reversed.len() - 1 - i] == reversed@[i as int]);
            assert(shown.subrange(0, reversed.len() - i) =~= shown.subrange(0, reversed.len() - i - 1).push(
                reversed@[i as int],
            ));
        }
    }
    proof {
        assert(reversed@.reverse().subrange(0, reversed.len() as int) =~= reversed@.reverse());
        if negative {
            assert(sign =~= seq!['-']);
        } else {
            assert(sign =~= Seq::<char>::empty());
            assert(r@ =~= reversed@.reverse());
        }
    }
    r
}

/// Whether `c` is one of the ten digits.
pub open spec fn is_digit(c: char) -> bool {
    '0' <= c <= '9'
}

/// The number that the digits `digits` write in base ten; 0 for none.
pub open spec fn value_of(digits: Seq<char>) -> int
    decreases digits.len(),
{
    if digits.len() == 0 {
        0
    } else {
        value_of(digits.drop_last()) * 10 + (digits.last() as u8 - '0' as u8)
    }
}

/// Whether all of `digits` are digits.
pub open spec fn all_digits(digits: Seq<char>) -> bool {
    forall|i: int| 0 <= i < digits.len() ==> is_digit(#[trigger] digits[i])
}

/// The number that `digits` write, if they write one that an `i32` holds:
/// there has to be a digit, nothing but digits, and the number must not
/// be too large.
pub fn parse_number(digits: &Vec<char>) -> (r: Option<i32>)
    ensures
        r.is_some() == (digits@.len() > 0 && all_digits(digits@) && value_of(digits@) <= i32::MAX),
        r.is_some() ==> r.unwrap() == value_of(digits@),
{
    if digits.len() == 0 {
        return None;
    }
    let mut value: i64 = 0;
    let mut i: usize = 0;
    while i < digits.len()
        invariant
            i <= digits.len(),
            all_digits(digits@.subrange(0, i as int)),
            value == value_of(digits@.subrange(0, i as int)),
            0 <= value <= i32::MAX,
        decreases digits.len() - i,
    {
        let c = digits[i];
        proof {
            let longer = digits@.subrange(0, i + 1);
            assert(longer.drop_last() =~= digits@.subrange(0, i as int));
            assert(longer.last() == c);
            lemma_value_nonnegative(digits@.subrange(0, i as int));
        }
        if !('0' <= c && c <= '9') {
            assert(!all_digits(digits@)) by {
                assert(!is_digit(digits@[i as int]));
            }
            return None;
        }
        let next = value * 10 + (c as u8 - '0' as u8) as i64;
        if next > i32::MAX as i64 {
            proof {
                if all_digits(digits@) {
                    lemma_value_grows(digits@, i + 1, digits@.len() as int);
                    assert(digits@.subrange(0, digits@.len() as int) =~= digits@);
                }
            }
            return None;
        }
        value = next;
        proof {
            assert forall|j: int| 0 <= j < i + 1 implies is_digit(#[trigger] digits@.subrange(0, i + 1)[j]) by {
                if j < i {
                    assert(digits@.subrange(0, i as int)[j] == digits@[j]);
                }
            }
        }
        i += 1;
    }
    proof {
        assert(digits@.subrange(0, digits@.len() as int) =~= digits@);
    }
    Some(value as i32)
}

/// The number that digits write is not negative.
pub proof fn lemma_value_nonnegative(digits: Seq<char>)
    requires
        all_digits(digits),
    ensures
        value_of(digits) >= 0,
    decreases digits.len(),
{
    if digits.len() > 0 {
        assert forall|i: int| 0 <= i < digits.drop_last().len() implies is_digit(#[trigger] digits.drop_last()[i]) by {
            assert(digits.drop_last()[i] == digits[i]);
        }
        lemma_value_nonnegative(digits.drop_last());
        assert(is_digit(digits[digits.len() - 1]));
    }
}

/// More digits write no smaller a number: what the first `shorter` of
/// the digits write is at most what the first `longer` of them write.
pub proof fn lemma_value_grows(digits: Seq<char>, shorter: int, longer: int)
    requires
        0 <= shorter <= longer <= digits.len(),
        all_digits(digits),
    ensures
        value_of(digits.subrange(0, shorter)) <= value_of(digits.subrange(0, longer)),
    decreases longer - shorter,
{
    if shorter < longer {
        lemma_value_grows(digits, shorter, longer - 1);
        let whole = digits.subrange(0, longer);
        let part = digits.subrange(0, longer - 1);
        assert(whole.drop_last() =~= part);
        assert forall|i: int| 0 <= i < part.len() implies is_digit(#[trigger] part[i]) by {
            assert(part[i] == digits[i]);
        }
        lemma_value_nonnegative(part);
        assert(is_digit(digits[longer - 1]));
        assert(whole.last() == digits[longer - 1]);
    }
}

} // verus!
