//! Text operations that the parsers lean on.
//!
//! Comparing texts, taking a pattern out of a text and reading an integer
//! are proved here. Lower-casing is handed to `std`: that one function makes
//! one call and is believed, not proved.
use vstd::prelude::*;
use vstd::std_specs::iter::IteratorSpec;

verus! {

/// The text that Unicode lower-casing makes of `text`.
pub uninterp spec fn lowercased(text: Seq<char>) -> Seq<char>;

/// The value of `c` as a digit in base `radix`, if it is one. The digits are
/// `0` to `9` and then the letters from `a` on, in either case, each standing
/// for ten and more.
pub open spec fn digit_in_radix(c: char, radix: u32) -> Option<int> {
    let code = c as u32 as int;
    let value = if 48 <= code <= 57 {
        code - 48
    } else if 97 <= code <= 122 {
        code - 97 + 10
    } else if 65 <= code <= 90 {
        code - 65 + 10
    } else {
        radix as int
    };
    if value < radix {
        Some(value)
    } else {
        None
    }
}

/// The number that `digits` stand for in base `radix`, if each of them is a
/// digit in that base. No digits stand for zero.
pub open spec fn digits_in_radix(digits: Seq<char>, radix: u32) -> Option<int>
    decreases digits.len(),
{
    if digits.len() == 0 {
        Some(0)
    } else {
        match (digits_in_radix(digits.drop_last(), radix), digit_in_radix(digits.last(), radix)) {
            (Some(higher), Some(lowest)) => Some(higher * radix + lowest),
            _ => None,
        }
    }
}

/// The integer that `text` stands for in base `radix`: a sign, which may be
/// left out, and then one digit or more. There is none where `text` is not
/// of that shape or where the integer does not fit into 64 bits.
pub open spec fn integer_in_radix(text: Seq<char>, radix: u32) -> Option<i64> {
    let signed = text.len() > 0 && (text[0] == '-' || text[0] == '+');
    let digits = if signed {
        text.skip(1)
    } else {
        text
    };
    if digits.len() == 0 {
        None
    } else {
        match digits_in_radix(digits, radix) {
            Some(size) => {
                let number = if text[0] == '-' {
                    -size
                } else {
                    size
                };
                if i64::MIN <= number <= i64::MAX {
                    Some(number as i64)
                } else {
                    None
                }
            },
            None => None,
        }
    }
}

/// `text` with every occurrence of `pattern` taken out, found from the left
/// and without overlap.
pub open spec fn without(text: Seq<char>, pattern: Seq<char>) -> Seq<char>
    decreases text.len(),
{
    if pattern.len() == 0 || text.len() < pattern.len() {
        text
    } else if text.take(pattern.len() as int) == pattern {
        without(text.skip(pattern.len() as int), pattern)
    } else {
        seq![text[0]] + without(text.skip(1), pattern)
    }
}

/// Whether two string slices hold the same characters. They do where their
/// bytes agree, since a text is what its encoding decodes to.
pub(crate) fn same_text(a: &str, b: &str) -> (same: bool)
    ensures
        same == (a@ == b@),
{
    let left = a.as_bytes();
    let right = b.as_bytes();
    proof {
        vstd::utf8::encode_utf8_decode_utf8(a@);
        vstd::utf8::encode_utf8_decode_utf8(b@);
    }
    if left.len() != right.len() {
        return false;
    }
    let mut i: usize = 0;
    while i < left.len()
        invariant
            0 <= i <= left@.len(),
            left@.len() == right@.len(),
            left@ == vstd::utf8::encode_utf8(a@),
            right@ == vstd::utf8::encode_utf8(b@),
            forall|j: int| 0 <= j < i ==> left@[j] == right@[j],
        decreases left@.len() - i,
    {
        if left[i] != right[i] {
            return false;
        }
        i += 1;
    }
    assert(left@ =~= right@);
    true
}

/// `str::to_lowercase`: the result depends on the characters alone, so it is
/// given the name `lowercased`.
#[verifier::external_body]
pub(crate) fn lowercase(text: &str) -> (lower: String)
    ensures
        lower@ == lowercased(text@),
{
    text.to_lowercase()
}

/// The characters of `text`, first to last.
pub(crate) fn characters(text: &str) -> (chars: Vec<char>)
    ensures
        chars@ == text@,
{
    broadcast use vstd::string::group_string_axioms;

    let mut rest = text.chars();
    let mut chars: Vec<char> = Vec::new();
    loop
        invariant
            chars@.len() <= text@.len(),
            chars@ == text@.take(chars@.len() as int),
            rest.remaining() == text@.skip(chars@.len() as int),
        decreases text@.len() - chars@.len(),
    {
        let ghost done = chars@.len() as int;
        match rest.next() {
            None => {
                assert(text@.take(done) =~= text@);
                return chars;
            },
            Some(c) => {
                chars.push(c);
                proof {
                    assert(text@.take(done + 1) =~= text@.take(done).push(text@[done]));
                    assert(text@.skip(done).drop_first() =~= text@.skip(done + 1));
                }
            },
        }
    }
}

/// Whether `pattern` stands in `text` at `at`.
fn stands_at(text: &[char], at: usize, pattern: &[char]) -> (stands: bool)
    requires
        at <= text@.len(),
    ensures
        stands == pattern@.is_prefix_of(text@.skip(at as int)),
{
    if pattern.len() > text.len() - at {
        return false;
    }
    let mut i: usize = 0;
    while i < pattern.len()
        invariant
            0 <= i <= pattern@.len(),
            at + pattern@.len() <= text@.len() <= usize::MAX,
            forall|j: int| 0 <= j < i ==> pattern@[j] == text@[at + j],
        decreases pattern@.len() - i,
    {
        if pattern[i] != text[at + i] {
            assert(text@.skip(at as int)[i as int] != pattern@[i as int]);
            return false;
        }
        i += 1;
    }
    assert(pattern@ =~= text@.skip(at as int).subrange(0, pattern@.len() as int));
    true
}

/// Whether `prefix` is how `text` begins.
pub(crate) fn begins_with(text: &[char], prefix: &[char]) -> (begins: bool)
    ensures
        begins == prefix@.is_prefix_of(text@),
{
    assert(text@.skip(0) =~= text@);
    stands_at(text, 0, prefix)
}

/// Whether `pattern` stands somewhere in `text`.
pub open spec fn occurs(pattern: Seq<char>, text: Seq<char>) -> bool {
    exists|at: int| 0 <= at <= text.len() && pattern.is_prefix_of(#[trigger] text.skip(at))
}

/// Whether `pattern` stands somewhere in `text`.
pub(crate) fn holds(text: &[char], pattern: &[char]) -> (held: bool)
    ensures
        held == occurs(pattern@, text@),
{
    let mut at: usize = 0;
    while at < text.len()
        invariant
            0 <= at <= text@.len(),
            forall|earlier: int|
                0 <= earlier < at ==> !pattern@.is_prefix_of(#[trigger] text@.skip(earlier)),
        decreases text@.len() - at,
    {
        if stands_at(text, at, pattern) {
            return true;
        }
        at += 1;
    }
    stands_at(text, at, pattern)
}

/// Whether `suffix` is how `text` ends.
pub(crate) fn ends_with(text: &[char], suffix: &[char]) -> (ends: bool)
    ensures
        ends == suffix@.is_suffix_of(text@),
{
    if suffix.len() > text.len() {
        return false;
    }
    let at = text.len() - suffix.len();
    proof {
        assert(text@.skip(at as int) =~= text@.subrange(at as int, text@.len() as int));
        if suffix@.is_prefix_of(text@.skip(at as int)) {
            assert(suffix@ =~= text@.skip(at as int));
        }
    }
    stands_at(text, at, suffix)
}

/// Takes every occurrence of `pattern` out of `text`. `pattern` is not empty.
pub(crate) fn remove_all(text: &[char], pattern: &[char]) -> (rest: Vec<char>)
    requires
        pattern@.len() > 0,
    ensures
        rest@ == without(text@, pattern@),
{
    let mut rest: Vec<char> = Vec::new();
    let mut at: usize = 0;
    proof {
        assert(text@.skip(0) =~= text@);
        assert(rest@ + without(text@.skip(0), pattern@) =~= without(text@, pattern@));
    }
    while at < text.len()
        invariant
            0 <= at <= text@.len(),
            pattern@.len() > 0,
            rest@ + without(text@.skip(at as int), pattern@) == without(text@, pattern@),
        decreases text@.len() - at,
    {
        let ghost left = text@.skip(at as int);
        let ghost kept = rest@;
        if stands_at(text, at, pattern) {
            proof {
                assert(left.take(pattern@.len() as int) =~= pattern@);
                assert(left.skip(pattern@.len() as int) =~= text@.skip(at + pattern@.len()));
            }
            at += pattern.len();
        } else {
            proof {
                assert(left.skip(1) =~= text@.skip(at + 1));
                if left.len() < pattern@.len() {
                    lemma_short_text_is_kept(left, pattern@);
                    lemma_short_text_is_kept(left.skip(1), pattern@);
                    assert(left =~= seq![left[0]] + left.skip(1));
                } else {
                    assert(left.take(pattern@.len() as int) =~= left.subrange(
                        0,
                        pattern@.len() as int,
                    ));
                }
                assert(without(left, pattern@) == seq![left[0]] + without(
                    left.skip(1),
                    pattern@,
                ));
                assert(kept.push(left[0]) + without(left.skip(1), pattern@) =~= kept + (seq![
                    left[0],
                ] + without(left.skip(1), pattern@)));
            }
            rest.push(text[at]);
            at += 1;
        }
    }
    proof {
        assert(text@.skip(at as int) =~= Seq::<char>::empty());
        assert(rest@ + Seq::<char>::empty() =~= rest@);
    }
    rest
}

/// A text that is shorter than the pattern holds no occurrence of it.
proof fn lemma_short_text_is_kept(text: Seq<char>, pattern: Seq<char>)
    requires
        text.len() < pattern.len(),
    ensures
        without(text, pattern) == text,
{
}

/// The largest size that an integer of 64 bits can have: that of the
/// smallest one.
pub const LARGEST_SIZE: i128 = 0x8000_0000_0000_0000;

/// Digits of which some are no digits stand for no number, however many
/// follow.
proof fn lemma_no_digits_stay_none(digits: Seq<char>, radix: u32, count: int)
    requires
        0 <= count <= digits.len(),
        digits_in_radix(digits.take(count), radix) is None,
    ensures
        digits_in_radix(digits, radix) is None,
    decreases digits.len() - count,
{
    if count < digits.len() {
        assert(digits.take(count + 1).drop_last() =~= digits.take(count));
        lemma_no_digits_stay_none(digits, radix, count + 1);
    } else {
        assert(digits.take(count) =~= digits);
    }
}

/// Digits stand for no negative number.
proof fn lemma_digits_are_not_negative(digits: Seq<char>, radix: u32)
    ensures
        digits_in_radix(digits, radix) matches Some(size) ==> size >= 0,
    decreases digits.len(),
{
    if digits.len() > 0 {
        lemma_digits_are_not_negative(digits.drop_last(), radix);
        if digits_in_radix(digits, radix) is Some {
            let higher = digits_in_radix(digits.drop_last(), radix)->Some_0;
            assert(higher * radix >= 0) by (nonlinear_arith)
                requires
                    higher >= 0,
                    radix >= 0,
            ;
        }
    }
}

/// A number does not shrink as more digits are put behind it.
proof fn lemma_digits_grow(digits: Seq<char>, radix: u32, count: int)
    requires
        radix >= 1,
        0 <= count <= digits.len(),
        digits_in_radix(digits, radix) is Some,
    ensures
        digits_in_radix(digits.take(count), radix) matches Some(part) && 0 <= part
            <= digits_in_radix(digits, radix)->Some_0,
    decreases digits.len() - count,
{
    if count < digits.len() {
        assert(digits.take(count + 1).drop_last() =~= digits.take(count));
        lemma_digits_grow(digits, radix, count + 1);
        let part = digits_in_radix(digits.take(count), radix)->Some_0;
        lemma_digits_are_not_negative(digits.take(count), radix);
        assert(part * radix >= part) by (nonlinear_arith)
            requires
                part >= 0,
                radix >= 1,
        ;
    } else {
        assert(digits.take(count) =~= digits);
        lemma_digits_are_not_negative(digits, radix);
    }
}

/// The value of `c` as a digit in base `radix`, if it is one.
fn digit_from_radix(c: char, radix: u32) -> (digit: Option<u32>)
    ensures
        match digit {
            Some(value) => digit_in_radix(c, radix) == Some(value as int),
            None => digit_in_radix(c, radix) is None,
        },
{
    let code: u32 = c as u32;
    let value: u32 = if 48 <= code && code <= 57 {
        code - 48
    } else if 97 <= code && code <= 122 {
        code - 97 + 10
    } else if 65 <= code && code <= 90 {
        code - 65 + 10
    } else {
        radix
    };
    if value < radix {
        Some(value)
    } else {
        None
    }
}

/// Reads an integer in base `radix`, which lies between 2 and 36. The
/// reading stops at the first digit with which the integer no longer fits.
pub(crate) fn integer_from_radix(text: &[char], radix: u32) -> (value: Option<i64>)
    requires
        2 <= radix <= 36,
    ensures
        value == integer_in_radix(text@, radix),
{
    let length = text.len();
    if length == 0 {
        return None;
    }
    let first = text[0];
    let negative = first == '-';
    let start: usize = if first == '-' || first == '+' {
        1
    } else {
        0
    };
    if start == length {
        return None;
    }
    let ghost digits = text@.skip(start as int);
    let mut size: i128 = 0;
    let mut at: usize = start;
    proof {
        assert(digits.take(0) =~= Seq::<char>::empty());
        assert(text@.skip(0) =~= text@);
    }
    while at < length
        invariant
            2 <= radix <= 36,
            start <= at <= length,
            length == text@.len(),
            length > 0,
            text@.skip(0) == text@,
            start == if text@[0] == '-' || text@[0] == '+' {
                1usize
            } else {
                0usize
            },
            digits == text@.skip(start as int),
            digits_in_radix(digits.take(at - start), radix) == Some(size as int),
            0 <= size <= LARGEST_SIZE,
        decreases length - at,
    {
        let c = text[at];
        proof {
            assert(digits.take(at - start + 1).drop_last() =~= digits.take(at - start));
            assert(digits.take(at - start + 1).last() == c);
        }
        match digit_from_radix(c, radix) {
            None => {
                proof {
                    lemma_no_digits_stay_none(digits, radix, at - start + 1);
                }
                return None;
            },
            Some(digit) => {
                assert(0 <= size * (radix as i128) <= LARGEST_SIZE * 36) by (nonlinear_arith)
                    requires
                        0 <= size <= LARGEST_SIZE,
                        2 <= radix <= 36,
                ;
                size = size * (radix as i128) + (digit as i128);
                if size > LARGEST_SIZE {
                    proof {
                        if digits_in_radix(digits, radix) is Some {
                            lemma_digits_grow(digits, radix, at - start + 1);
                        }
                    }
                    return None;
                }
            },
        }
        at += 1;
    }
    proof {
        assert(digits.take(at - start) =~= digits);
    }
    if negative {
        Some((-size) as i64)
    } else if size < LARGEST_SIZE {
        Some(size as i64)
    } else {
        None
    }
}

} // verus!
