//! What holds of every text, number and property.

use vstd::prelude::*;

use crate::properties::{ascending, flag_text, number_text, precedes, with_property, Property};
use crate::text::{
    bool_text, decimal, digit_char, digits_value, is_blank, is_digit, is_white_space, lower_char,
    lowercase, or_else, same_ignoring_case, text_of, trim_end, trim_start, trimmed, u32_value,
    upper_char, uppercase, without_plus,
};

verus! {

/// Of two values the first that is there counts, and the text of a string is what it holds.
pub proof fn the_first_that_is_there<T>(a: T, b: Option<T>, s: String)
    ensures
        or_else(Some(a), b) == Some(a),
        or_else(None, b) == b,
        text_of(Some(s)) == Some(s@),
        text_of(None) is None,
{
}

/// White space is the tabulator, the line ends, the space, the no-break space and the other spaces
/// and separators of Unicode.
pub proof fn white_space_is_one_of_these(c: char)
    ensures
        is_white_space(c) <==> {
            ||| c == '\t' || c == '\n' || c == '\u{b}' || c == '\u{c}' || c == '\r' || c == ' '
            ||| c == '\u{85}' || c == '\u{a0}' || c == '\u{1680}' || c == '\u{2000}'
            ||| c == '\u{2001}' || c == '\u{2002}' || c == '\u{2003}' || c == '\u{2004}'
            ||| c == '\u{2005}' || c == '\u{2006}' || c == '\u{2007}' || c == '\u{2008}'
            ||| c == '\u{2009}' || c == '\u{200a}' || c == '\u{2028}' || c == '\u{2029}'
            ||| c == '\u{202f}' || c == '\u{205f}' || c == '\u{3000}'
        },
{
}

/// Whether there is nothing but white space in `s`.
pub open spec fn all_white(s: Seq<char>) -> bool {
    forall|i: int| 0 <= i < s.len() ==> is_white_space(#[trigger] s[i])
}

proof fn lemma_trim_start_splits(s: Seq<char>) -> (a: int)
    ensures
        0 <= a <= s.len(),
        trim_start(s) == s.skip(a),
        all_white(s.take(a)),
        trim_start(s).len() > 0 ==> !is_white_space(trim_start(s)[0]),
    decreases s.len(),
{
    if s.len() > 0 && is_white_space(s[0]) {
        let rest = s.drop_first();
        let b = lemma_trim_start_splits(rest);
        assert(rest.skip(b) =~= s.skip(b + 1));
        assert forall|i: int| 0 <= i < b + 1 implies is_white_space(#[trigger] s.take(b + 1)[i]) by {
            if i > 0 {
                assert(rest.take(b)[i - 1] == s[i]);
            }
        }
        b + 1
    } else {
        assert(s.skip(0) =~= s);
        0
    }
}

proof fn lemma_trim_end_splits(s: Seq<char>) -> (b: int)
    ensures
        0 <= b <= s.len(),
        trim_end(s) == s.take(b),
        all_white(s.skip(b)),
        trim_end(s).len() > 0 ==> !is_white_space(trim_end(s).last()),
    decreases s.len(),
{
    if s.len() > 0 && is_white_space(s.last()) {
        let rest = s.drop_last();
        let b = lemma_trim_end_splits(rest);
        assert(rest.take(b) =~= s.take(b));
        assert forall|i: int| 0 <= i < s.len() - b implies is_white_space(#[trigger] s.skip(b)[i]) by {
            if i < rest.len() - b {
                assert(rest.skip(b)[i] == s[b + i]);
            }
        }
        b
    } else {
        assert(s.take(s.len() as int) =~= s);
        s.len() as int
    }
}

/// To trim a text is to take white space off its ends, and nothing else: what is left neither
/// begins nor ends with white space. Nothing is left of a text exactly where it is all white space.
pub proof fn trimming_takes_white_space_off_the_ends(s: Seq<char>)
    ensures
        exists|front: Seq<char>, back: Seq<char>|
            all_white(front) && all_white(back) && s == #[trigger] (front + trimmed(s) + back),
        trimmed(s).len() > 0 ==> !is_white_space(trimmed(s)[0]) && !is_white_space(trimmed(s).last()),
        is_blank(s) <==> all_white(s),
        is_blank(s) <==> trimmed(s) == Seq::<char>::empty(),
{
    let a = lemma_trim_start_splits(s);
    let rest = s.skip(a);
    let b = lemma_trim_end_splits(rest);
    let (front, back) = (s.take(a), rest.skip(b));
    assert(s =~= front + trimmed(s) + back);
    if trimmed(s).len() > 0 {
        assert(trimmed(s)[0] == rest[0]);
        assert(s[a] == rest[0]);
    } else {
        assert(trimmed(s) =~= Seq::<char>::empty());
        assert forall|i: int| 0 <= i < s.len() implies is_white_space(#[trigger] s[i]) by {
            if i < a {
                assert(front[i] == s[i]);
            } else {
                assert(back[i - a] == s[i]);
            }
        }
    }
}

/// Whether `a` and `b` are the same character or the same ASCII letter, the one a capital and the
/// other small.
pub open spec fn same_letter(a: char, b: char) -> bool {
    ||| a == b
    ||| 'A' <= a <= 'Z' && 'a' <= b <= 'z' && (a as u32) - ('A' as u32) == (b as u32) - ('a' as u32)
    ||| 'a' <= a <= 'z' && 'A' <= b <= 'Z' && (a as u32) - ('a' as u32) == (b as u32) - ('A' as u32)
}

proof fn lemma_case_of(c: char)
    ensures
        same_letter(c, lower_char(c)),
        same_letter(c, upper_char(c)),
        !('A' <= lower_char(c) <= 'Z'),
        !('a' <= upper_char(c) <= 'z'),
{
}

proof fn lemma_same_letter(a: char, b: char)
    ensures
        same_letter(a, b) <==> lower_char(a) == lower_char(b),
{
}

/// A text in small letters has each character of the text, and no capital of ASCII; in capitals it
/// has no small letter of ASCII.
pub proof fn case_changes_the_case_of_letters_alone(s: Seq<char>)
    ensures
        lowercase(s).len() == s.len(),
        uppercase(s).len() == s.len(),
        forall|i: int|
            0 <= i < s.len() ==> same_letter(s[i], #[trigger] lowercase(s)[i]) && !('A' <= lowercase(
                s,
            )[i] <= 'Z'),
        forall|i: int|
            0 <= i < s.len() ==> same_letter(s[i], #[trigger] uppercase(s)[i]) && !('a' <= uppercase(
                s,
            )[i] <= 'z'),
{
    assert forall|i: int| 0 <= i < s.len() implies same_letter(s[i], #[trigger] lowercase(s)[i]) && !(
    'A' <= lowercase(s)[i] <= 'Z') by {
        lemma_case_of(s[i]);
    }
    assert forall|i: int| 0 <= i < s.len() implies same_letter(s[i], #[trigger] uppercase(s)[i]) && !(
    'a' <= uppercase(s)[i] <= 'z') by {
        lemma_case_of(s[i]);
    }
}

/// Two texts are the same but for case where they are as long, and each character of the one is
/// the same letter as the other's in its place.
pub proof fn same_but_for_case_is_letter_by_letter(a: Seq<char>, b: Seq<char>)
    ensures
        same_ignoring_case(a, b) <==> a.len() == b.len() && forall|i: int|
            0 <= i < a.len() ==> same_letter(#[trigger] a[i], b[i]),
{
    if same_ignoring_case(a, b) {
        assert(lowercase(a).len() == a.len() && lowercase(b).len() == b.len());
        assert forall|i: int| 0 <= i < a.len() implies same_letter(#[trigger] a[i], b[i]) by {
            assert(lowercase(a)[i] == lowercase(b)[i]);
            lemma_same_letter(a[i], b[i]);
        }
    }
    if a.len() == b.len() && forall|i: int| 0 <= i < a.len() ==> same_letter(#[trigger] a[i], b[i]) {
        assert forall|i: int| 0 <= i < a.len() implies lowercase(a)[i] == lowercase(b)[i] by {
            assert(same_letter(a[i], b[i]));
            lemma_same_letter(a[i], b[i]);
        }
        assert(lowercase(a) =~= lowercase(b));
    }
}

/// Whether `s` is made of decimal digits, of at least one.
pub open spec fn all_digits(s: Seq<char>) -> bool {
    s.len() > 0 && forall|i: int| 0 <= i < s.len() ==> '0' <= #[trigger] s[i] <= '9'
}

/// Digits count in tens from the left, each for what it says.
pub proof fn digits_count_in_tens(s: Seq<char>, n: nat)
    requires
        n < 10,
    ensures
        digits_value(Seq::<char>::empty()) == 0,
        digit_char(n) == "0123456789"@[n as int],
        digits_value(s.push("0123456789"@[n as int])) == 10 * digits_value(s) + n,
{
    reveal_strlit("0123456789");
    let c = digit_char(n);
    assert(c == "0123456789"@[n as int]) by {
        assert(n == 0 || n == 1 || n == 2 || n == 3 || n == 4 || n == 5 || n == 6 || n == 7 || n == 8
            || n == 9);
    }
    assert(s.push(c).drop_last() =~= s);
    assert((c as u32) - ('0' as u32) == n);
}

proof fn lemma_decimal_digits(n: nat)
    ensures
        all_digits(decimal(n)),
        digits_value(decimal(n)) == n,
        n > 0 ==> decimal(n)[0] != '0',
    decreases n,
{
    let text = decimal(n);
    assert((text.last() as u32) - ('0' as u32) == n % 10);
    if n < 10 {
        assert(digits_value(text.drop_last()) == 0);
    } else {
        lemma_decimal_digits(n / 10);
        assert(text.drop_last() =~= decimal(n / 10));
        assert(text[0] == decimal(n / 10)[0]);
        assert forall|i: int| 0 <= i < text.len() implies '0' <= #[trigger] text[i] <= '9' by {
            if i < text.len() - 1 {
                assert(text[i] == decimal(n / 10)[i]);
            }
        }
    }
}

/// The decimal form of a number is made of digits that count for the number, and has no leading
/// zero but for the number zero.
pub proof fn decimal_is_the_number_without_leading_zeros(n: nat)
    ensures
        all_digits(decimal(n)),
        digits_value(decimal(n)) == n,
        n > 0 ==> decimal(n)[0] != '0',
        decimal(0) == seq!['0'],
{
    lemma_decimal_digits(n);
    assert(decimal(0) =~= seq!['0']);
}

/// A text of digits reads as the number that they count for, where a `u32` holds it, with a plus
/// sign before them or without.
pub proof fn digits_read_as_their_number(s: Seq<char>)
    requires
        all_digits(s),
    ensures
        digits_value(s) <= 4294967295 ==> u32_value(s) == Some(digits_value(s) as u32),
        digits_value(s) > 4294967295 ==> u32_value(s) is None,
        u32_value(seq!['+'] + s) == u32_value(s),
{
    assert(s[0] != '+');
    assert(without_plus(s) == s);
    assert((seq!['+'] + s).drop_first() =~= s);
    assert forall|i: int| 0 <= i < s.len() implies is_digit(#[trigger] s[i]) by {}
}

/// Nothing but digits, with a plus sign before them or without, reads as a number.
pub proof fn only_digits_read_as_a_number(s: Seq<char>)
    ensures
        u32_value(s) is Some ==> all_digits(s) || s.len() > 0 && s[0] == '+' && all_digits(
            s.drop_first(),
        ),
{
    if u32_value(s) is Some {
        let digits = without_plus(s);
        assert forall|i: int| 0 <= i < digits.len() implies '0' <= #[trigger] digits[i] <= '9' by {
            assert(is_digit(digits[i]));
        }
    }
}

/// A flag is written as a word and a number in decimal, where there is one.
pub proof fn flags_are_words_and_numbers_decimal(n: u32)
    ensures
        bool_text(true) == "true"@,
        bool_text(false) == "false"@,
        flag_text(Some(true)) == Some("true"@),
        flag_text(Some(false)) == Some("false"@),
        flag_text(None) is None,
        number_text(Some(n)) == Some(decimal(n as nat)),
        number_text(None) is None,
{
}

/// To give a property a value changes this property alone, and to give it none changes nothing.
pub proof fn a_property_changes_alone(
    properties: Map<Seq<char>, Seq<char>>,
    name: Seq<char>,
    value: Seq<char>,
    other: Seq<char>,
)
    ensures
        with_property(properties, name, None) == properties,
        with_property(properties, name, Some(value)).contains_key(name),
        with_property(properties, name, Some(value))[name] == value,
        other != name ==> with_property(properties, name, Some(value)).contains_key(other)
            == properties.contains_key(other),
        other != name && properties.contains_key(other) ==> with_property(
            properties,
            name,
            Some(value),
        )[other] == properties[other],
{
}

/// One text comes before another by the first character in which they differ, or where the other
/// goes on after it.
pub proof fn the_first_difference_orders(a: Seq<char>, b: Seq<char>)
    ensures
        precedes(a, b) <==> exists|i: int|
            #![trigger a.take(i)]
            0 <= i <= a.len() && i < b.len() && a.take(i) == b.take(i) && (i == a.len() || a[i] < b[i]),
    decreases a.len(),
{
    if b.len() == 0 {
    } else if a.len() == 0 {
        assert(a.take(0) =~= b.take(0));
    } else if a[0] != b[0] {
        assert(a.take(0) =~= b.take(0));
        assert forall|i: int| 0 < i <= a.len() && i < b.len() implies #[trigger] a.take(i) != b.take(
            i,
        ) by {
            assert(a.take(i)[0] != b.take(i)[0]);
        }
    } else {
        let (x, y) = (a.drop_first(), b.drop_first());
        the_first_difference_orders(x, y);
        if precedes(a, b) {
            let i = choose|i: int|
                #![trigger x.take(i)]
                0 <= i <= x.len() && i < y.len() && x.take(i) == y.take(i) && (i == x.len() || x[i]
                    < y[i]);
            assert(a.take(i + 1) =~= seq![a[0]] + x.take(i));
            assert(b.take(i + 1) =~= seq![b[0]] + y.take(i));
        }
        if exists|i: int|
            #![trigger a.take(i)]
            0 <= i <= a.len() && i < b.len() && a.take(i) == b.take(i) && (i == a.len() || a[i]
                < b[i]) {
            let i = choose|i: int|
                #![trigger a.take(i)]
                0 <= i <= a.len() && i < b.len() && a.take(i) == b.take(i) && (i == a.len() || a[i]
                    < b[i]);
            assert(i > 0);
            assert(x.take(i - 1) =~= a.take(i).drop_first());
            assert(y.take(i - 1) =~= b.take(i).drop_first());
        }
    }
}

/// In an ascending sequence every name comes before all that follow it.
pub proof fn ascending_names_come_in_order(entries: Seq<Property>, i: int, j: int)
    requires
        ascending(entries),
        0 <= i < j < entries.len(),
    ensures
        precedes(entries[i].name@, entries[j].name@),
{
}

} // verus!
