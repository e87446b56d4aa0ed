//! Character-level string helpers shared by the planners and formatters.
//!
//! All reasoning is done over `Seq<char>` views; the only trusted pieces
//! are the specifications of `String::push` and of the standard `Chars`
//! iterator, which vstd supplies.

use vstd::prelude::*;

verus! {

use vstd::std_specs::iter::IteratorSpec;

/// Relies on String::push: appends the given character to the end of the string.
pub assume_specification[ String::push ](s: &mut String, ch: char)
    ensures
        final(s)@ == old(s)@.push(ch),
;

/// The characters of `s`, as a vector.
pub fn str_chars(s: &str) -> (v: Vec<char>)
    ensures
        v@ == s@,
{
    broadcast use vstd::string::axiom_spec_iter, vstd::string::next_postcondition;

    let mut it = s.chars();
    let mut v: Vec<char> = Vec::new();
    loop
        invariant
            it.obeys_prophetic_iter_laws(),
            it.decrease() is Some,
            v@ + it.remaining() == s@,
        ensures
            v@ == s@,
        decreases it.decrease()->0,
    {
        match it.next() {
            Some(c) => {
                v.push(c);
            }
            None => {
                break ;
            }
        }
    }
    v
}

/// A string holding exactly the characters of `v`.
pub fn chars_to_string(v: &Vec<char>) -> (s: String)
    ensures
        s@ == v@,
{
    let mut s = String::new();
    let mut i: usize = 0;
    while i < v.len()
        invariant
            i <= v.len(),
            s@ == v@.take(i as int),
        decreases v.len() - i,
    {
        s.push(v[i]);
        i = i + 1;
        assert(s@ =~= v@.take(i as int));
    }
    assert(v@.take(v.len() as int) =~= v@);
    s
}

/// `sub` occurs in `text` starting at position `i`.
pub open spec fn occurs_at(text: Seq<char>, sub: Seq<char>, i: int) -> bool {
    0 <= i && i + sub.len() <= text.len() && text.subrange(i, i + sub.len() as int) == sub
}

/// `sub` occurs somewhere in `text`.
pub open spec fn contains_seq(text: Seq<char>, sub: Seq<char>) -> bool {
    exists|i: int| occurs_at(text, sub, i)
}

/// Whether `sub` occurs in `text` starting at position `i` (an exact window check).
fn matches_at(text: &Vec<char>, sub: &Vec<char>, i: usize) -> (r: bool)
    requires
        i + sub@.len() <= text@.len(),
    ensures
        r == occurs_at(text@, sub@, i as int),
{
    let tn = text.len();
    let sn = sub.len();
    let mut j: usize = 0;
    while j < sn
        invariant
            tn == text@.len(),
            sn == sub@.len(),
            i + sn <= tn,
            j <= sn,
            forall|k: int| 0 <= k < j ==> text@[i + k] == sub@[k],
        decreases sn - j,
    {
        if text[i + j] != sub[j] {
            assert(text@.subrange(i as int, i + sub@.len() as int)[j as int] != sub@[j as int]);
            return false;
        }
        j = j + 1;
    }
    assert(text@.subrange(i as int, i + sub@.len() as int) =~= sub@);
    true
}

/// Substring search: whether `sub` occurs anywhere in `text`.
pub fn contains_chars(text: &Vec<char>, sub: &Vec<char>) -> (r: bool)
    ensures
        r == contains_seq(text@, sub@),
{
    if sub.len() > text.len() {
        assert(!contains_seq(text@, sub@));
        return false;
    }
    if sub.len() == 0 {
        assert(occurs_at(text@, sub@, 0)) by {
            assert(text@.subrange(0, 0) =~= sub@);
        }
        return true;
    }
    let mut i: usize = 0;
    let last = text.len() - sub.len();
    while i <= last
        invariant
            1 <= sub@.len() <= text@.len(),
            text@.len() <= usize::MAX,
            last == text@.len() - sub@.len(),
            i <= last + 1,
            forall|k: int| 0 <= k < i ==> !occurs_at(text@, sub@, k),
        decreases last + 1 - i,
    {
        if matches_at(text, sub, i) {
            return true;
        }
        i = i + 1;
    }
    assert forall|k: int| !occurs_at(text@, sub@, k) by {
        if 0 <= k <= last {
            assert(!occurs_at(text@, sub@, k));
        }
    }
    false
}

/// Substring search over `&str` arguments.
pub fn str_contains(text: &str, sub: &str) -> (r: bool)
    ensures
        r == contains_seq(text@, sub@),
{
    let t = str_chars(text);
    let s = str_chars(sub);
    contains_chars(&t, &s)
}

/// Character-wise equality of two strings.
pub fn str_eq(a: &str, b: &str) -> (r: bool)
    ensures
        r == (a@ == b@),
{
    let va = str_chars(a);
    let vb = str_chars(b);
    if va.len() != vb.len() {
        return false;
    }
    let mut i: usize = 0;
    while i < va.len()
        invariant
            va@ == a@,
            vb@ == b@,
            va@.len() == vb@.len(),
            i <= va@.len(),
            forall|k: int| 0 <= k < i ==> va@[k] == vb@[k],
        decreases va.len() - i,
    {
        if va[i] != vb[i] {
            assert(a@[i as int] != b@[i as int]);
            return false;
        }
        i = i + 1;
    }
    assert(a@ =~= b@);
    true
}

/// The character with upper-case ASCII letters folded to lower case.
pub open spec fn lower_char_spec(c: char) -> char {
    if 'A' <= c && c <= 'Z' {
        ((c as u8) + 32) as char
    } else {
        c
    }
}

/// A string with its upper-case ASCII letters folded to lower case.
pub open spec fn lower_spec(s: Seq<char>) -> Seq<char> {
    s.map_values(|c: char| lower_char_spec(c))
}

fn lower_char(c: char) -> (r: char)
    ensures
        r == lower_char_spec(c),
{
    if 'A' <= c && c <= 'Z' {
        (((c as u8) + 32) as u8) as char
    } else {
        c
    }
}

/// Folds the upper-case ASCII letters of a string to lower case.
pub fn to_ascii_lower(s: &str) -> (r: String)
    ensures
        r@ == lower_spec(s@),
{
    let v = str_chars(s);
    let mut out = String::new();
    let mut i: usize = 0;
    while i < v.len()
        invariant
            i <= v@.len(),
            v@ == s@,
            out@ == lower_spec(s@).take(i as int),
        decreases v.len() - i,
    {
        out.push(lower_char(v[i]));
        i = i + 1;
        assert(out@ =~= lower_spec(s@).take(i as int));
    }
    proof {
        assert(lower_spec(s@).take(s@.len() as int) =~= lower_spec(s@));
    }
    out
}

/// An ASCII decimal digit.
pub open spec fn is_digit_char(c: char) -> bool {
    48 <= (c as u32) && (c as u32) <= 57
}

/// The numeric value of a decimal digit character.
pub open spec fn digit_val(c: char) -> int {
    (c as u32) - 48
}

/// Every character is a decimal digit.
pub open spec fn all_digits(s: Seq<char>) -> bool {
    forall|i: int| 0 <= i < s.len() ==> is_digit_char(s[i])
}

/// The value of a digit string, most significant first.
pub open spec fn digits_value(s: Seq<char>) -> int
    decreases s.len(),
{
    if s.len() == 0 {
        0
    } else {
        digits_value(s.drop_last()) * 10 + digit_val(s.last())
    }
}

/// The digits of a number after an optional leading plus sign.
pub open spec fn u64_str_body(s: Seq<char>) -> Seq<char> {
    if s.len() > 0 && s[0] == '+' {
        s.skip(1)
    } else {
        s
    }
}

/// A string the standard unsigned parser accepts as a u64: an optional
/// plus sign, one or more digits, and a value that fits.
pub open spec fn parses_as_u64(s: Seq<char>) -> bool {
    let b = u64_str_body(s);
    b.len() > 0 && all_digits(b) && digits_value(b) <= u64::MAX
}

proof fn lemma_digits_value_nonneg(s: Seq<char>)
    requires
        all_digits(s),
    ensures
        digits_value(s) >= 0,
    decreases s.len(),
{
    if s.len() > 0 {
        assert(all_digits(s.drop_last())) by {
            assert(forall|i: int| 0 <= i < s.len() - 1 ==> s.drop_last()[i] == s[i]);
        }
        lemma_digits_value_nonneg(s.drop_last());
    }
}

proof fn lemma_digits_value_prefix_le(s: Seq<char>, i: int)
    requires
        all_digits(s),
        0 <= i <= s.len(),
    ensures
        digits_value(s.take(i)) <= digits_value(s),
    decreases s.len() - i,
{
    if i < s.len() {
        lemma_digits_value_prefix_le(s, i + 1);
        let t = s.take(i + 1);
        assert(t.drop_last() =~= s.take(i));
        assert(t.last() == s[i]);
        assert(all_digits(s.take(i))) by {
            assert(forall|k: int| 0 <= k < i ==> s.take(i)[k] == s[k]);
        }
        lemma_digits_value_nonneg(s.take(i));
        assert(digits_value(s.take(i)) <= digits_value(s.take(i + 1)));
    } else {
        assert(s.take(i) =~= s);
    }
}

/// Parses a decimal u64 as the standard library does: an optional plus
/// sign, then digits; anything else, or a value that does not fit, fails.
pub fn parse_u64(s: &str) -> (r: Option<u64>)
    ensures
        r is Some <==> parses_as_u64(s@),
        r is Some ==> r->0 == digits_value(u64_str_body(s@)),
{
    let v = str_chars(s);
    let ghost body = u64_str_body(s@);
    let start: usize = if v.len() > 0 && v[0] == '+' {
        1
    } else {
        0
    };
    proof {
        assert(body =~= s@.skip(start as int));
    }
    if v.len() == start {
        return None;
    }
    let mut acc: u128 = 0;
    let mut i = start;
    while i < v.len()
        invariant
            start <= i <= v@.len(),
            v@ == s@,
            body == u64_str_body(s@),
            body == s@.skip(start as int),
            all_digits(body.take(i - start)),
            acc == digits_value(body.take(i - start)),
            acc <= u64::MAX,
        decreases v.len() - i,
    {
        let c = v[i];
        let u = c as u32;
        if !(u >= 48 && u <= 57) {
            assert(!parses_as_u64(s@)) by {
                assert(body[i - start] == s@[i as int]);
                assert(!is_digit_char(body[i - start]));
            }
            return None;
        }
        let d: u32 = u - 48;
        acc = acc * 10 + d as u128;
        i = i + 1;
        proof {
            let t = body.take(i - start);
            assert(t.drop_last() =~= body.take(i - start - 1));
            assert(t.last() == body[i - start - 1]);
            assert(forall|k: int| 0 <= k < t.len() ==> t[k] == body[k]);
        }
        if acc > u64::MAX as u128 {
            proof {
                if parses_as_u64(s@) {
                    assert(all_digits(body));
                    assert(i - start <= body.len());
                    lemma_digits_value_prefix_le(body, i - start);
                    assert(digits_value(body) >= acc);
                }
            }
            return None;
        }
    }
    proof {
        assert(body.take(body.len() as int) =~= body);
    }
    Some(acc as u64)
}

/// The only colon of the string stands at position `p`.
pub open spec fn single_colon_at(s: Seq<char>, p: int) -> bool {
    0 <= p < s.len() && s[p] == ':' && (forall|q: int| 0 <= q < s.len() && q != p ==> s[q] != ':')
}

/// Splits a string holding exactly one colon into the parts before and
/// after it; any other number of colons gives nothing.
pub fn split_single_colon(s: &str) -> (r: Option<(String, String)>)
    ensures
        (r is Some <==> exists|p: int| single_colon_at(s@, p)),
        r is Some ==> ({
            let pair = r->0;
            exists|p: int|
                #[trigger] single_colon_at(s@, p) && pair.0@ == s@.take(p) && pair.1@ == s@.skip(
                    p + 1,
                )
        }),
{
    let v = str_chars(s);
    let mut first: usize = 0;
    let mut found = false;
    let mut i: usize = 0;
    while i < v.len()
        invariant
            i <= v@.len(),
            v@ == s@,
            !found ==> forall|q: int| 0 <= q < i ==> s@[q] != ':',
            found ==> first < i && s@[first as int] == ':' && (forall|q: int|
                0 <= q < i && q != first ==> s@[q] != ':'),
        decreases v.len() - i,
    {
        if v[i] == ':' {
            if found {
                // A second colon: more than one part separator.
                assert(forall|p: int| !single_colon_at(s@, p)) by {
                    assert forall|p: int| !single_colon_at(s@, p) by {
                        if single_colon_at(s@, p) {
                            if p != first {
                                assert(s@[first as int] == ':');
                            } else {
                                assert(s@[i as int] == ':');
                            }
                        }
                    }
                }
                return None;
            }
            first = i;
            found = true;
        }
        i = i + 1;
    }
    if !found {
        assert(forall|p: int| !single_colon_at(s@, p));
        return None;
    }
    let mut left: Vec<char> = Vec::new();
    let mut k: usize = 0;
    while k < first
        invariant
            k <= first <= v@.len(),
            v@ == s@,
            left@ == s@.take(k as int),
        decreases first - k,
    {
        left.push(v[k]);
        k = k + 1;
        assert(left@ =~= s@.take(k as int));
    }
    let mut right: Vec<char> = Vec::new();
    let mut m: usize = first + 1;
    while m < v.len()
        invariant
            first + 1 <= m <= v@.len(),
            v@ == s@,
            right@ == s@.subrange(first + 1, m as int),
        decreases v.len() - m,
    {
        right.push(v[m]);
        m = m + 1;
        assert(right@ =~= s@.subrange(first + 1, m as int));
    }
    proof {
        assert(single_colon_at(s@, first as int));
        assert(right@ =~= s@.skip(first as int + 1));
    }
    Some((chars_to_string(&left), chars_to_string(&right)))
}

/// The character of a decimal digit value.
pub open spec fn digit_char_spec(d: int) -> char {
    (d + 48) as char
}

/// The decimal representation of a non-negative number, no padding.
pub open spec fn dec_spec(n: int) -> Seq<char>
    decreases n,
    when n >= 0
{
    if n < 10 {
        seq![digit_char_spec(n)]
    } else {
        dec_spec(n / 10).push(digit_char_spec(n % 10))
    }
}

fn digit_char(d: u64) -> (c: char)
    requires
        d < 10,
    ensures
        c == digit_char_spec(d as int),
{
    match d {
        0 => '0',
        1 => '1',
        2 => '2',
        3 => '3',
        4 => '4',
        5 => '5',
        6 => '6',
        7 => '7',
        8 => '8',
        _ => '9',
    }
}

fn push_dec(s: &mut String, n: u64)
    ensures
        final(s)@ == old(s)@ + dec_spec(n as int),
    decreases n,
{
    if n < 10 {
        s.push(digit_char(n));
        assert(final(s)@ =~= old(s)@ + dec_spec(n as int));
    } else {
        push_dec(s, n / 10);
        s.push(digit_char(n % 10));
        assert(final(s)@ =~= old(s)@ + dec_spec(n as int));
    }
}

/// The decimal text of a number.
pub fn u64_to_dec(n: u64) -> (r: String)
    ensures
        r@ == dec_spec(n as int),
{
    let mut s = String::new();
    push_dec(&mut s, n);
    proof {
        assert(s@ =~= dec_spec(n as int));
    }
    s
}

/// The decimal text of a number, zero-padded to at least two digits.
pub open spec fn dec2_spec(n: int) -> Seq<char> {
    if n < 10 {
        seq!['0'] + dec_spec(n)
    } else {
        dec_spec(n)
    }
}

/// Appends the two-digit (or longer) decimal text of a number.
pub fn push_dec2(s: &mut String, n: u64)
    ensures
        final(s)@ == old(s)@ + dec2_spec(n as int),
{
    if n < 10 {
        s.push('0');
    }
    push_dec(s, n);
    proof {
        assert(final(s)@ =~= old(s)@ + dec2_spec(n as int));
    }
}

} // verus!
