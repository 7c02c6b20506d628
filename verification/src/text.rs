//! Text helpers shared by the rest of the crate: comparison, decimal
//! rendering, joining and a few searches over the characters of a string.

use vstd::prelude::*;
use vstd::string::StringSliceAdditionalSpecFns;
use vstd::utf8::{decode_utf8, encode_utf8, encode_utf8_decode_utf8, is_char_boundary};

verus! {

/// Whether two string slices hold the same characters.
pub fn same(a: &str, b: &str) -> (r: bool)
    ensures
        r == (a@ == b@),
{
    let x = a.as_bytes();
    let y = b.as_bytes();
    proof {
        encode_utf8_decode_utf8(a@);
        encode_utf8_decode_utf8(b@);
    }
    if x.len() != y.len() {
        return false;
    }
    let n = x.len();
    let mut i: usize = 0;
    while i < n
        invariant
            i <= n,
            n == x@.len(),
            n == y@.len(),
            x@ == a.spec_bytes(),
            y@ == b.spec_bytes(),
            forall|j: int| 0 <= j < i ==> x@[j] == y@[j],
        decreases n - i,
    {
        if x[i] != y[i] {
            return false;
        }
        i += 1;
    }
    assert(x@ =~= y@);
    true
}

/// The character that writes the decimal digit `d`.
pub open spec fn digit_char(d: int) -> char {
    if d == 0 {
        '0'
    } else if d == 1 {
        '1'
    } else if d == 2 {
        '2'
    } else if d == 3 {
        '3'
    } else if d == 4 {
        '4'
    } else if d == 5 {
        '5'
    } else if d == 6 {
        '6'
    } else if d == 7 {
        '7'
    } else if d == 8 {
        '8'
    } else {
        '9'
    }
}

/// The decimal digits of a natural number, most significant first, without
/// leading zeros.
pub open spec fn decimal_digits(n: nat) -> Seq<char>
    decreases n,
{
    if n < 10 {
        seq![digit_char(n as int)]
    } else {
        decimal_digits(n / 10).push(digit_char((n % 10) as int))
    }
}

/// The decimal text of an integer: a minus sign for a negative number, then
/// its digits.
pub open spec fn decimal_text(n: int) -> Seq<char> {
    if n < 0 {
        seq!['-'] + decimal_digits((-n) as nat)
    } else {
        decimal_digits(n as nat)
    }
}

fn digit_str(d: u128) -> (r: &'static str)
    requires
        d < 10,
    ensures
        r@ == seq![digit_char(d as int)],
{
    proof {
        reveal_strlit("0");
        reveal_strlit("1");
        reveal_strlit("2");
        reveal_strlit("3");
        reveal_strlit("4");
        reveal_strlit("5");
        reveal_strlit("6");
        reveal_strlit("7");
        reveal_strlit("8");
        reveal_strlit("9");
    }
    let r = if d == 0 {
        "0"
    } else if d == 1 {
        "1"
    } else if d == 2 {
        "2"
    } else if d == 3 {
        "3"
    } else if d == 4 {
        "4"
    } else if d == 5 {
        "5"
    } else if d == 6 {
        "6"
    } else if d == 7 {
        "7"
    } else if d == 8 {
        "8"
    } else {
        "9"
    };
    assert(r@ =~= seq![digit_char(d as int)]);
    r
}

fn push_digits(out: &mut String, n: u128)
    ensures
        final(out)@ == old(out)@ + decimal_digits(n as nat),
    decreases n,
{
    if n >= 10 {
        push_digits(out, n / 10);
    }
    out.append(digit_str(n % 10));
    assert(out@ =~= old(out)@ + decimal_digits(n as nat));
}

/// Appends the decimal text of `n` to `out`.
pub fn push_decimal(out: &mut String, n: i128)
    ensures
        final(out)@ == old(out)@ + decimal_text(n as int),
{
    if n < 0 {
        proof {
            reveal_strlit("-");
        }
        out.append("-");
        let m: u128 = if n == i128::MIN {
            170141183460469231731687303715884105728u128
        } else {
            (-n) as u128
        };
        push_digits(out, m);
        assert(out@ =~= old(out)@ + decimal_text(n as int));
    } else {
        push_digits(out, n as u128);
    }
}

/// The decimal text of `n` as a fresh string.
pub fn decimal(n: i128) -> (r: String)
    ensures
        r@ == decimal_text(n as int),
{
    let mut out = String::new();
    push_decimal(&mut out, n);
    assert(out@ =~= decimal_text(n as int));
    out
}

/// What `str::trim` makes of a text: the text without the whitespace at its
/// start and at its end.
pub uninterp spec fn trim_of(s: Seq<char>) -> Seq<char>;

/// `s` without the whitespace at its start and at its end.
///
/// Calls `str::trim` of the standard library, which removes leading and
/// trailing characters that have the Unicode property `White_Space`. The
/// contract gives the result its name and claims nothing more of it.
#[verifier::external_body]
pub(crate) fn trimmed(s: &str) -> (r: String)
    ensures
        r@ == trim_of(s@),
{
    s.trim().to_string()
}

/// What `str::to_lowercase` makes of a text: its lowercase form.
pub uninterp spec fn lowercase_of(s: Seq<char>) -> Seq<char>;

/// The lowercase form of `s`.
///
/// Calls `str::to_lowercase` of the standard library, which maps each
/// character as the Unicode property `Lowercase` says. The contract gives
/// the result its name and claims nothing more of it.
#[verifier::external_body]
pub(crate) fn lowercase(s: &str) -> (r: String)
    ensures
        r@ == lowercase_of(s@),
{
    s.to_lowercase()
}

/// Whether `s` begins with `prefix`.
pub open spec fn has_prefix(s: Seq<char>, prefix: Seq<char>) -> bool {
    prefix.len() <= s.len() && s.take(prefix.len() as int) == prefix
}

/// `s` without `prefix` at its start, where it begins with it; else `s`.
pub open spec fn without_prefix(s: Seq<char>, prefix: Seq<char>) -> Seq<char> {
    if has_prefix(s, prefix) {
        s.skip(prefix.len() as int)
    } else {
        s
    }
}

/// The position of the first `c` in `s`, or the length of `s` where it
/// holds none.
pub open spec fn first_index_of(s: Seq<char>, c: char) -> int
    decreases s.len(),
{
    if s.len() == 0 {
        0
    } else if s[0] == c {
        0
    } else {
        1 + first_index_of(s.drop_first(), c)
    }
}

/// What stands in `s` before its first `c`; all of `s` where it holds none.
pub open spec fn before_first(s: Seq<char>, c: char) -> Seq<char> {
    s.take(first_index_of(s, c))
}

/// The first index of a character lies within the text, no character
/// before it is that character, and the character stands there unless the
/// index is the length.
pub proof fn lemma_first_index_of(s: Seq<char>, c: char)
    ensures
        0 <= first_index_of(s, c) <= s.len(),
        forall|i: int| 0 <= i < first_index_of(s, c) ==> s[i] != c,
        first_index_of(s, c) < s.len() ==> s[first_index_of(s, c)] == c,
    decreases s.len(),
{
    if s.len() > 0 && s[0] != c {
        lemma_first_index_of(s.drop_first(), c);
        assert forall|i: int| 0 <= i < first_index_of(s, c) implies s[i] != c by {
            if i > 0 {
                assert(s.drop_first()[i - 1] == s[i]);
            }
        }
    }
}

/// An index at which `c` stands, with no `c` before it, is the first index
/// of `c`; so is the length of a text that holds no `c`.
pub proof fn lemma_first_index_is(s: Seq<char>, c: char, at: int)
    requires
        0 <= at <= s.len(),
        forall|i: int| 0 <= i < at ==> s[i] != c,
        at < s.len() ==> s[at] == c,
    ensures
        first_index_of(s, c) == at,
{
    lemma_first_index_of(s, c);
}

/// `s` without `prefix` at its start, where it begins with it; else `s`.
pub fn strip_prefix(s: &str, prefix: &str) -> (r: String)
    ensures
        r@ == without_prefix(s@, prefix@),
{
    if starts_with(s, prefix) {
        let r = s.substring_char(prefix.unicode_len(), s.unicode_len());
        assert(r@ =~= s@.skip(prefix@.len() as int));
        r.to_string()
    } else {
        s.to_string()
    }
}

/// What stands in `s` before its first `c`; all of `s` where it holds none.
pub fn up_to(s: &str, c: char) -> (r: String)
    ensures
        r@ == before_first(s@, c),
{
    let text = chars_of(s);
    let mut i: usize = 0;
    while i < text.len() && text[i] != c
        invariant
            i <= text.len(),
            text@ == s@,
            forall|j: int| 0 <= j < i ==> text@[j] != c,
        decreases text.len() - i,
    {
        i += 1;
    }
    proof {
        lemma_first_index_is(s@, c, i as int);
    }
    s.substring_char(0, i).to_string()
}

/// The characters of `s`, one element each.
pub fn chars_of(s: &str) -> (v: Vec<char>)
    ensures
        v@ == s@,
{
    let n = s.unicode_len();
    let mut v: Vec<char> = Vec::new();
    let mut i: usize = 0;
    while i < n
        invariant
            i <= n,
            n == s@.len(),
            v@ == s@.take(i as int),
        decreases n - i,
    {
        v.push(s.get_char(i));
        assert(v@ =~= s@.take(i + 1));
        i += 1;
    }
    assert(v@ =~= s@);
    v
}

/// What stands in `s` from the byte at `from` up to the byte at `to` of its
/// UTF-8 form; nothing where the two do not mark off whole characters of
/// `s`.
pub open spec fn span_of(s: Seq<char>, from: int, to: int) -> Seq<char> {
    let bytes = encode_utf8(s);
    if 0 <= from <= to <= bytes.len() && is_char_boundary(bytes, from) && is_char_boundary(
        bytes.subrange(from, bytes.len() as int),
        to - from,
    ) {
        decode_utf8(bytes.subrange(from, to))
    } else {
        Seq::empty()
    }
}

/// What stands in `s` from the byte at `from` up to the byte at `to`;
/// nothing where the two do not mark off whole characters of `s`.
pub fn span(s: &str, from: usize, to: usize) -> (r: &str)
    ensures
        r@ == span_of(s@, from as int, to as int),
        0 <= from <= to <= s.spec_bytes().len() && is_char_boundary(s.spec_bytes(), from as int)
            && is_char_boundary(
            s.spec_bytes().subrange(from as int, s.spec_bytes().len() as int),
            to - from,
        ) ==> r.spec_bytes() == s.spec_bytes().subrange(from as int, to as int),
{
    let nothing = "";
    proof {
        reveal_strlit("");
        assert(nothing@ =~= Seq::<char>::empty());
    }
    let ghost bytes = s.spec_bytes();
    if !(from <= to && to <= s.as_bytes().len()) {
        return nothing;
    }
    if !s.is_char_boundary(from) {
        return nothing;
    }
    let (_, tail) = s.split_at(from);
    assert(tail.spec_bytes() == bytes.subrange(from as int, bytes.len() as int));
    if !tail.is_char_boundary(to - from) {
        return nothing;
    }
    let (r, _) = tail.split_at(to - from);
    proof {
        encode_utf8_decode_utf8(r@);
        assert(r.spec_bytes() =~= bytes.subrange(from as int, to as int));
    }
    r
}

/// `s` with every `from` replaced by `to`.
pub open spec fn replaced(s: Seq<char>, from: char, to: char) -> Seq<char> {
    Seq::new(s.len(), |i: int| if s[i] == from {
        to
    } else {
        s[i]
    })
}

/// `s` with every `from` replaced by the one character that `to` holds.
pub(crate) fn replace_char(s: &str, from: char, to: &str) -> (r: String)
    requires
        to@.len() == 1,
    ensures
        r@ == replaced(s@, from, to@[0]),
{
    let text = chars_of(s);
    let mut out = String::new();
    let mut i: usize = 0;
    while i < text.len()
        invariant
            i <= text.len(),
            text@ == s@,
            to@.len() == 1,
            out@ == replaced(s@, from, to@[0]).take(i as int),
        decreases text.len() - i,
    {
        if text[i] == from {
            out.append(to);
            assert(to@ =~= seq![to@[0]]);
        } else {
            let one = s.substring_char(i, i + 1);
            assert(one@ =~= seq![s@[i as int]]);
            out.append(one);
        }
        assert(out@ =~= replaced(s@, from, to@[0]).take(i + 1));
        i += 1;
    }
    assert(out@ =~= replaced(s@, from, to@[0]));
    out
}

/// Whether `sep` stands in `s` at position `at`.
pub open spec fn occurs_at(s: Seq<char>, sep: Seq<char>, at: int) -> bool {
    0 <= at && at + sep.len() <= s.len() && s.subrange(at, at + sep.len()) == sep
}

/// The last of the parts into which `sep` splits `s`, for a reader that
/// stands at `pos` and has seen the last separator end at `start`. The text
/// is read from the left, and a separator that is found is skipped whole.
pub open spec fn last_part_from(s: Seq<char>, sep: Seq<char>, start: int, pos: int) -> Seq<char>
    decreases s.len() - pos,
{
    if sep.len() == 0 || pos < 0 || pos + sep.len() > s.len() {
        s.skip(start)
    } else if occurs_at(s, sep, pos) {
        last_part_from(s, sep, pos + sep.len(), pos + sep.len())
    } else {
        last_part_from(s, sep, start, pos + 1)
    }
}

/// The last of the parts into which the separator `sep` splits `s`: all of
/// `s` where it holds no separator.
pub open spec fn last_part(s: Seq<char>, sep: Seq<char>) -> Seq<char> {
    last_part_from(s, sep, 0, 0)
}

/// The last of the parts into which the separator `sep` splits `s`.
pub fn after_text(s: &str, sep: &str) -> (r: String)
    ensures
        r@ == last_part(s@, sep@),
{
    let text = chars_of(s);
    let mark = chars_of(sep);
    if mark.len() == 0 || text.len() < mark.len() {
        assert(s@.skip(0) =~= s@);
        return s.to_string();
    }
    let mut start: usize = 0;
    let mut pos: usize = 0;
    while pos <= text.len() - mark.len()
        invariant
            start <= pos <= text.len(),
            text@ == s@,
            mark@ == sep@,
            0 < mark.len() <= text.len(),
            last_part(s@, sep@) == last_part_from(s@, sep@, start as int, pos as int),
        decreases text.len() - pos,
    {
        let mut j: usize = 0;
        let mut matches = true;
        while j < mark.len()
            invariant
                j <= mark.len(),
                pos + mark.len() <= text.len(),
                text@ == s@,
                mark@ == sep@,
                matches == (forall|k: int| 0 <= k < j ==> text@[pos + k] == mark@[k]),
            decreases mark.len() - j,
        {
            if text[pos + j] != mark[j] {
                matches = false;
            }
            j += 1;
        }
        proof {
            let here = s@.subrange(pos as int, pos + sep@.len());
            if matches {
                assert(here =~= sep@);
            } else {
                let k = choose|k: int| 0 <= k < mark.len() && text@[pos + k] != mark@[k];
                assert(here[k] != sep@[k]);
            }
        }
        if matches {
            pos = pos + mark.len();
            start = pos;
        } else {
            pos = pos + 1;
        }
    }
    let r = s.substring_char(start, text.len());
    assert(r@ =~= s@.skip(start as int));
    r.to_string()
}

/// The position of the last `c` in `s`, or -1 where it holds none.
pub open spec fn last_index_of(s: Seq<char>, c: char) -> int
    decreases s.len(),
{
    if s.len() == 0 {
        -1
    } else if s.last() == c {
        s.len() - 1
    } else {
        last_index_of(s.drop_last(), c)
    }
}

/// What stands in `s` after its last `c`; all of `s` where it holds none.
pub open spec fn after_last(s: Seq<char>, c: char) -> Seq<char> {
    s.skip(last_index_of(s, c) + 1)
}

/// An index right after a `c`, with no `c` from it on, is the one after
/// the last index of `c`; so is 0 in a text that holds no `c`.
pub proof fn lemma_last_index_is(s: Seq<char>, c: char, at: int)
    requires
        0 <= at <= s.len(),
        forall|i: int| at <= i < s.len() ==> s[i] != c,
        at > 0 ==> s[at - 1] == c,
    ensures
        last_index_of(s, c) == at - 1,
    decreases s.len(),
{
    if s.len() > 0 && at < s.len() {
        assert(s.last() != c);
        lemma_last_index_is(s.drop_last(), c, at);
    }
}

/// What stands in `s` after its last `c`; all of `s` where it holds none.
pub fn after(s: &str, c: char) -> (r: String)
    ensures
        r@ == after_last(s@, c),
{
    let text = chars_of(s);
    let mut i: usize = text.len();
    while i > 0 && text[i - 1] != c
        invariant
            i <= text.len(),
            text@ == s@,
            forall|j: int| i <= j < text.len() ==> text@[j] != c,
        decreases i,
    {
        i -= 1;
    }
    proof {
        lemma_last_index_is(s@, c, i as int);
    }
    s.substring_char(i, text.len()).to_string()
}

/// `s` without the characters `c` at its start.
pub open spec fn without_leading(s: Seq<char>, c: char) -> Seq<char>
    decreases s.len(),
{
    if s.len() > 0 && s[0] == c {
        without_leading(s.drop_first(), c)
    } else {
        s
    }
}

/// `s` without the characters `c` at its start.
pub fn strip_leading(s: &str, c: char) -> (r: String)
    ensures
        r@ == without_leading(s@, c),
{
    let text = chars_of(s);
    let mut i: usize = 0;
    assert(s@.skip(0) =~= s@);
    while i < text.len() && text[i] == c
        invariant
            i <= text.len(),
            text@ == s@,
            without_leading(s@, c) == without_leading(s@.skip(i as int), c),
        decreases text.len() - i,
    {
        assert(s@.skip(i as int).drop_first() =~= s@.skip(i + 1));
        i += 1;
    }
    s.substring_char(i, text.len()).to_string()
}

/// The texts `parts` joined by `sep`.
pub open spec fn joined(parts: Seq<Seq<char>>, sep: Seq<char>) -> Seq<char>
    decreases parts.len(),
{
    if parts.len() == 0 {
        Seq::empty()
    } else if parts.len() == 1 {
        parts[0]
    } else {
        joined(parts.drop_last(), sep) + sep + parts.last()
    }
}

/// Appends the texts `parts`, joined by `sep`, to `out`.
pub fn push_joined(out: &mut String, parts: &Vec<String>, sep: &str)
    ensures
        final(out)@ == old(out)@ + joined(parts.deep_view(), sep@),
{
    let ghost all = parts.deep_view();
    let ghost head = out@;
    let mut i: usize = 0;
    assert(all.take(0) =~= Seq::<Seq<char>>::empty());
    assert(out@ =~= head + joined(all.take(0), sep@));
    while i < parts.len()
        invariant
            i <= parts.len(),
            all == parts.deep_view(),
            out@ == head + joined(all.take(i as int), sep@),
        decreases parts.len() - i,
    {
        if i > 0 {
            out.append(sep);
        }
        out.append(parts[i].as_str());
        proof {
            assert(all.take(i + 1).drop_last() =~= all.take(i as int));
            assert(all.take(i + 1).last() == parts[i as int]@);
            assert(out@ =~= head + joined(all.take(i + 1), sep@));
        }
        i += 1;
    }
    assert(all.take(parts.len() as int) =~= all);
}

/// Whether `s` begins with `prefix`.
pub fn starts_with(s: &str, prefix: &str) -> (r: bool)
    ensures
        r == has_prefix(s@, prefix@),
{
    let text = chars_of(s);
    let lead = chars_of(prefix);
    if lead.len() > text.len() {
        return false;
    }
    let mut i: usize = 0;
    while i < lead.len()
        invariant
            i <= lead.len(),
            lead.len() <= text.len(),
            text@ == s@,
            lead@ == prefix@,
            forall|j: int| 0 <= j < i ==> text@[j] == lead@[j],
        decreases lead.len() - i,
    {
        if text[i] != lead[i] {
            assert(s@.take(prefix@.len() as int)[i as int] != prefix@[i as int]);
            return false;
        }
        i += 1;
    }
    assert(s@.take(prefix@.len() as int) =~= prefix@);
    true
}

/// The parts of `s` between the occurrences of `sep`: one more part than
/// `s` holds separators, empty parts included.
pub open spec fn split_on(s: Seq<char>, sep: char) -> Seq<Seq<char>>
    decreases s.len(),
{
    let k = first_index_of(s, sep);
    if 0 <= k < s.len() {
        seq![s.take(k)] + split_on(s.skip(k + 1), sep)
    } else {
        seq![s]
    }
}

/// Whether `c` is one of the ten decimal digits.
pub open spec fn is_digit(c: char) -> bool {
    '0' <= c && c <= '9'
}

/// The value of the decimal digit `c`.
pub open spec fn digit_value(c: char) -> nat {
    (c as u32 - '0' as u32) as nat
}

/// The number that the decimal digits `digits` write, the first digit
/// weighing most.
pub open spec fn digits_value(digits: Seq<char>) -> nat
    decreases digits.len(),
{
    if digits.len() == 0 {
        0
    } else {
        digits_value(digits.drop_last()) * 10 + digit_value(digits.last())
    }
}

/// The digits of a number text: the text without a plus sign at its start.
pub open spec fn digits_of(s: Seq<char>) -> Seq<char> {
    if s.len() > 0 && s[0] == '+' {
        s.skip(1)
    } else {
        s
    }
}

/// The number that `s` writes, if it writes one that fits 32 bits: an
/// optional plus sign, then one or more decimal digits and nothing else.
pub open spec fn number_of(s: Seq<char>) -> Option<u32> {
    let digits = digits_of(s);
    if digits.len() > 0 && (forall|i: int| 0 <= i < digits.len() ==> is_digit(#[trigger] digits[i]))
        && digits_value(digits) <= u32::MAX {
        Some(digits_value(digits) as u32)
    } else {
        None
    }
}

/// The numbers that the texts `parts` write, if each of them writes one.
pub open spec fn numbers_of(parts: Seq<Seq<char>>) -> Option<Seq<u32>>
    decreases parts.len(),
{
    if parts.len() == 0 {
        Some(Seq::empty())
    } else {
        match (number_of(parts[0]), numbers_of(parts.drop_first())) {
            (Some(first), Some(rest)) => Some(seq![first] + rest),
            _ => None,
        }
    }
}

/// A number written with more digits is no smaller than the number that its
/// first digits write.
proof fn lemma_digits_grow(digits: Seq<char>, k: int)
    requires
        0 <= k <= digits.len(),
    ensures
        digits_value(digits.take(k)) <= digits_value(digits),
    decreases digits.len(),
{
    if k < digits.len() {
        lemma_digits_grow(digits.drop_last(), k);
        assert(digits.drop_last().take(k) =~= digits.take(k));
    } else {
        assert(digits.take(k) =~= digits);
    }
}

/// The number that the characters of `text` from `from` up to `to` write, if
/// they write one that fits 32 bits.
pub fn parse_number(text: &Vec<char>, from: usize, to: usize) -> (r: Option<u32>)
    requires
        from <= to <= text.len(),
    ensures
        r == number_of(text@.subrange(from as int, to as int)),
{
    let ghost s = text@.subrange(from as int, to as int);
    let mut i = from;
    if i < to && text[i] == '+' {
        i += 1;
    }
    let start = i;
    let ghost digits = digits_of(s);
    assert(digits =~= text@.subrange(start as int, to as int));
    if start == to {
        return None;
    }
    let mut value: u64 = 0;
    assert(digits.take(0) =~= Seq::<char>::empty());
    while i < to
        invariant
            from <= start <= i <= to,
            start < to,
            to <= text.len(),
            s == text@.subrange(from as int, to as int),
            digits == digits_of(s),
            digits == text@.subrange(start as int, to as int),
            forall|j: int| 0 <= j < i - start ==> is_digit(#[trigger] digits[j]),
            value == digits_value(digits.take(i - start)),
            value <= u32::MAX,
        decreases to - i,
    {
        let c = text[i];
        assert(digits[i - start] == c);
        if c < '0' || c > '9' {
            return None;
        }
        let d: u64 = (c as u32 - '0' as u32) as u64;
        let next: u64 = value * 10 + d;
        proof {
            assert(digits.take(i - start + 1).drop_last() =~= digits.take(i - start));
            assert(digits.take(i - start + 1).last() == c);
            assert(next == digits_value(digits.take(i - start + 1)));
        }
        if next > 0xffff_ffff {
            proof {
                lemma_digits_grow(digits, i - start + 1);
            }
            return None;
        }
        value = next;
        i += 1;
    }
    assert(digits.take(to - start) =~= digits);
    Some(value as u32)
}

/// The numbers that the parts of `text` from `from` on write, the parts
/// being what stands between the occurrences of `sep`; `None` unless every
/// part writes a number that fits 32 bits.
pub fn parse_numbers(text: &Vec<char>, from: usize, sep: char) -> (r: Option<Vec<u32>>)
    requires
        from <= text.len(),
    ensures
        r.deep_view() == numbers_of(split_on(text@.skip(from as int), sep)),
    decreases text.len() - from,
{
    let ghost s = text@.skip(from as int);
    let mut i = from;
    while i < text.len() && text[i] != sep
        invariant
            from <= i <= text.len(),
            s == text@.skip(from as int),
            forall|j: int| 0 <= j < i - from ==> s[j] != sep,
        decreases text.len() - i,
    {
        i += 1;
    }
    proof {
        lemma_first_index_is(s, sep, i - from);
    }
    let first = parse_number(text, from, i);
    let ghost parts = split_on(s, sep);
    if i < text.len() {
        proof {
            assert(s.take(i - from) =~= text@.subrange(from as int, i as int));
            assert(s.skip(i - from + 1) =~= text@.skip(i + 1));
            assert(parts =~= seq![s.take(i - from)] + split_on(text@.skip(i + 1), sep));
            assert(parts.drop_first() =~= split_on(text@.skip(i + 1), sep));
            assert(parts[0] == s.take(i - from));
        }
        let rest = parse_numbers(text, i + 1, sep);
        match (first, rest) {
            (Some(v), Some(tail)) => {
                let ghost tail_view = tail.deep_view();
                let mut out = tail;
                out.insert(0, v);
                assert(out.deep_view() =~= seq![v] + tail_view);
                Some(out)
            },
            _ => None,
        }
    } else {
        proof {
            assert(s =~= text@.subrange(from as int, i as int));
            assert(parts =~= seq![s]);
            assert(parts.drop_first() =~= Seq::<Seq<char>>::empty());
            assert(numbers_of(Seq::<Seq<char>>::empty()) == Some(Seq::<u32>::empty()));
        }
        match first {
            Some(v) => {
                let mut out: Vec<u32> = Vec::new();
                out.push(v);
                assert(out.deep_view() =~= seq![v] + Seq::<u32>::empty());
                Some(out)
            },
            None => None,
        }
    }
}

/// How `a` stands to `b` when the two are compared number by number from
/// the front, a list that ends first standing before one that goes on: a
/// negative number where `a` comes first, zero where the two are the same,
/// a positive number where `b` comes first.
pub open spec fn lex_sign(a: Seq<u32>, b: Seq<u32>) -> int
    decreases a.len(),
{
    if a.len() == 0 {
        if b.len() == 0 {
            0
        } else {
            -1
        }
    } else if b.len() == 0 {
        1
    } else if a[0] < b[0] {
        -1
    } else if a[0] > b[0] {
        1
    } else {
        lex_sign(a.drop_first(), b.drop_first())
    }
}

/// Compares two lists of numbers from the front: `-1` where `a` comes
/// first, `0` where the two are the same, `1` where `b` comes first.
pub fn compare_numbers(a: &Vec<u32>, b: &Vec<u32>) -> (sign: i8)
    ensures
        sign == lex_sign(a@, b@),
{
    let mut i: usize = 0;
    assert(a@.skip(0) =~= a@ && b@.skip(0) =~= b@);
    while i < a.len() && i < b.len()
        invariant
            i <= a.len(),
            i <= b.len(),
            lex_sign(a@, b@) == lex_sign(a@.skip(i as int), b@.skip(i as int)),
        decreases a.len() - i,
    {
        if a[i] < b[i] {
            return -1;
        }
        if a[i] > b[i] {
            return 1;
        }
        assert(a@.skip(i as int).drop_first() =~= a@.skip(i + 1));
        assert(b@.skip(i as int).drop_first() =~= b@.skip(i + 1));
        i += 1;
    }
    if i < b.len() {
        -1
    } else if i < a.len() {
        1
    } else {
        0
    }
}

} // verus!
