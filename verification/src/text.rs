//! Text primitives shared by the rest of the crate: strings as sequences of
//! characters, decimal rendering, padding and substring search.

use vstd::prelude::*;
use vstd::string::StringSliceAdditionalSpecFns;

verus! {

/// `String::push` appends exactly the given character to the end of the
/// string and leaves everything before it untouched.
pub assume_specification[ String::push ](s: &mut String, ch: char)
    ensures
        final(s)@ == old(s)@.push(ch),
;

/// `String::from_utf8` accepts exactly the byte strings that are well-formed
/// UTF-8 and returns the text that they encode; for any other input it
/// returns an error, which is mapped to `None` here.
#[verifier::external_body]
pub(crate) fn decode(bytes: Vec<u8>) -> (text: Option<String>)
    ensures
        text is Some <==> vstd::utf8::valid_utf8(bytes@),
        text is Some ==> text->0@ == vstd::utf8::decode_utf8(bytes@),
{
    match String::from_utf8(bytes) {
        Ok(text) => Some(text),
        Err(_) => None,
    }
}

/// The characters of `s`, in order.
pub fn to_chars(s: &str) -> (out: Vec<char>)
    ensures
        out@ == s@,
{
    let mut out: Vec<char> = Vec::new();
    for c in it: s.chars()
        invariant
            out@ == it.seq().take(it.index()),
            it.seq() == s@,
    {
        out.push(c);
    }
    out
}

/// The string whose characters are those of `chars`, in order.
pub fn from_chars(chars: &[char]) -> (out: String)
    ensures
        out@ == chars@,
{
    let mut out = String::new();
    let mut i: usize = 0;
    while i < chars.len()
        invariant
            i <= chars.len(),
            out@ == chars@.take(i as int),
        decreases chars.len() - i,
    {
        out.push(chars[i]);
        i += 1;
    }
    out
}

/// The string made of the characters of `chars` from index `from` on.
pub fn tail(chars: &[char], from: usize) -> (out: String)
    requires
        from <= chars.len(),
    ensures
        out@ == chars@.skip(from as int),
{
    let mut out = String::new();
    let mut i: usize = from;
    while i < chars.len()
        invariant
            from <= i <= chars.len(),
            out@ == chars@.subrange(from as int, i as int),
        decreases chars.len() - i,
    {
        out.push(chars[i]);
        assert(chars@.subrange(from as int, i + 1) == chars@.subrange(from as int, i as int).push(
            chars@[i as int],
        ));
        i += 1;
    }
    assert(chars@.subrange(from as int, i as int) == chars@.skip(from as int));
    out
}

/// Appends a copy of `text` to `list`.
pub fn push_text(list: &mut Vec<String>, text: &str)
    ensures
        final(list).deep_view() == old(list).deep_view().push(text@),
{
    list.push(text.to_owned());
    assert(list.deep_view() =~= old(list).deep_view().push(text@));
}

/// `prefix` followed by `suffix`.
pub fn chain(prefix: &str, suffix: &str) -> (out: String)
    ensures
        out@ == prefix@ + suffix@,
{
    let mut out = prefix.to_owned();
    out.append(suffix);
    out
}

/// A copy of every string of `texts`, in order.
pub fn copy_texts(texts: &[String]) -> (out: Vec<String>)
    ensures
        out.deep_view() == texts.deep_view(),
{
    let mut out: Vec<String> = Vec::with_capacity(texts.len());
    let mut i: usize = 0;
    while i < texts.len()
        invariant
            i <= texts.len(),
            out.len() == i,
            forall|k: int| 0 <= k < i ==> #[trigger] out[k]@ == texts[k]@,
        decreases texts.len() - i,
    {
        out.push(texts[i].clone());
        i += 1;
    }
    assert(out.deep_view() =~= texts.deep_view());
    out
}

/// Whether `text` begins with `prefix`.
pub fn begins_with(text: &str, prefix: &str) -> (yes: bool)
    ensures
        yes == starts_with(text@, prefix@),
{
    let text_chars = to_chars(text);
    let prefix_chars = to_chars(prefix);
    matches_at(text_chars.as_slice(), prefix_chars.as_slice(), 0)
}

/// The character that stands for the decimal digit `d`.
pub open spec fn digit_char(d: nat) -> char
    recommends
        d < 10,
{
    if d == 0 {
        '0'
    } else if d == 1 {
        '1'
    } else if d == 2 {
        '2'
    } else if d == 3 {
        '3'
    } else if d == 4 {
        '4'
    } else if d == 5 {
        '5'
    } else if d == 6 {
        '6'
    } else if d == 7 {
        '7'
    } else if d == 8 {
        '8'
    } else {
        '9'
    }
}

/// The decimal numeral of `n`: no sign, no leading zero, `"0"` for zero.
pub open spec fn decimal(n: nat) -> Seq<char>
    decreases n,
{
    if n < 10 {
        seq![digit_char(n)]
    } else {
        decimal(n / 10).push(digit_char(n % 10))
    }
}

/// `text` right-aligned in a field of `width` characters, filled on the left
/// with `'0'`; text that is already as wide as the field is left as it is.
pub open spec fn zero_padded(text: Seq<char>, width: nat) -> Seq<char> {
    if text.len() >= width {
        text
    } else {
        Seq::new((width - text.len()) as nat, |i: int| '0') + text
    }
}

fn digit(d: u8) -> (c: char)
    requires
        d < 10,
    ensures
        c == digit_char(d as nat),
{
    match d {
        0 => '0',
        1 => '1',
        2 => '2',
        3 => '3',
        4 => '4',
        5 => '5',
        6 => '6',
        7 => '7',
        8 => '8',
        _ => '9',
    }
}

/// Appends the decimal numeral of `n` to `out`.
pub fn push_decimal(out: &mut String, n: u128)
    ensures
        final(out)@ == old(out)@ + decimal(n as nat),
    decreases n,
{
    if n >= 10 {
        push_decimal(out, n / 10);
    }
    let low: u8 = (n % 10) as u8;
    out.push(digit(low));
}

/// The decimal numeral of `n` as a string.
pub fn decimal_string(n: u128) -> (out: String)
    ensures
        out@ == decimal(n as nat),
{
    let mut out = String::new();
    push_decimal(&mut out, n);
    out
}

/// The decimal numeral of an integer: a minus sign in front of the numeral
/// of the magnitude where the integer is negative.
pub open spec fn signed_decimal(n: int) -> Seq<char> {
    if n < 0 {
        seq!['-'] + decimal((-n) as nat)
    } else {
        decimal(n as nat)
    }
}

/// The decimal numeral of `n` as a string.
pub fn signed_decimal_string(n: i64) -> (out: String)
    ensures
        out@ == signed_decimal(n as int),
{
    let mut out = String::new();
    if n < 0 {
        out.push('-');
        let magnitude: u128 = (-(n as i128)) as u128;
        push_decimal(&mut out, magnitude);
    } else {
        push_decimal(&mut out, n as u128);
    }
    out
}

/// Every numeral has at least one digit, all its characters are digits, and
/// only the numeral of zero begins with `0`.
pub proof fn lemma_decimal_shape(n: nat)
    ensures
        decimal(n).len() >= 1,
        n >= 10 ==> decimal(n).len() >= 2,
        forall|i: int| 0 <= i < decimal(n).len() ==> '0' <= #[trigger] decimal(n)[i] <= '9',
        n > 0 ==> decimal(n)[0] != '0',
    decreases n,
{
    if n >= 10 {
        lemma_decimal_shape(n / 10);
    }
}

/// Different numbers have different numerals.
pub proof fn lemma_decimal_is_injective(a: nat, b: nat)
    requires
        decimal(a) == decimal(b),
    ensures
        a == b,
    decreases a,
{
    lemma_decimal_shape(a);
    lemma_decimal_shape(b);
    if a >= 10 && b >= 10 {
        let left = decimal(a / 10);
        let right = decimal(b / 10);
        assert(left == decimal(a).drop_last());
        assert(right == decimal(b).drop_last());
        assert(decimal(a).last() == digit_char(a % 10));
        assert(decimal(b).last() == digit_char(b % 10));
        lemma_decimal_is_injective(a / 10, b / 10);
    } else if a < 10 && b < 10 {
        assert(decimal(a)[0] == digit_char(a));
        assert(decimal(b)[0] == digit_char(b));
    }
}

/// Different numbers stay different when their numerals are filled up with
/// zeros to the same width.
pub proof fn lemma_zero_padded_is_injective(a: nat, b: nat, width: nat)
    requires
        zero_padded(decimal(a), width) == zero_padded(decimal(b), width),
    ensures
        a == b,
{
    let left = decimal(a);
    let right = decimal(b);
    lemma_decimal_shape(a);
    lemma_decimal_shape(b);
    let padded_left = zero_padded(left, width);
    let padded_right = zero_padded(right, width);
    if left.len() == right.len() {
        if left.len() < width {
            let fill = (width - left.len()) as int;
            assert forall|i: int| 0 <= i < left.len() implies left[i] == right[i] by {
                assert(padded_left[fill + i] == left[i]);
                assert(padded_right[fill + i] == right[i]);
            }
            assert(left =~= right);
        }
        lemma_decimal_is_injective(a, b);
    } else if left.len() < right.len() {
        // the longer numeral begins where the shorter one is still filled
        lemma_padding_tells_lengths(a, b, width);
    } else {
        lemma_padding_tells_lengths(b, a, width);
    }
}

/// A numeral cannot equal a shorter one that was filled up with zeros: it
/// would have to begin with `0`.
proof fn lemma_padding_tells_lengths(short: nat, long: nat, width: nat)
    requires
        decimal(short).len() < decimal(long).len(),
    ensures
        zero_padded(decimal(short), width) != zero_padded(decimal(long), width),
{
    let left = decimal(short);
    let right = decimal(long);
    lemma_decimal_shape(short);
    lemma_decimal_shape(long);
    let padded_left = zero_padded(left, width);
    let padded_right = zero_padded(right, width);
    if left.len() >= width {
        assert(padded_left.len() != padded_right.len());
    } else if right.len() >= width {
        if right.len() == width {
            assert(padded_left[0] == '0');
            assert(padded_right[0] == right[0]);
        } else {
            assert(padded_left.len() != padded_right.len());
        }
    } else {
        let at = (width - right.len()) as int;
        assert(padded_left[at] == '0');
        assert(padded_right[at] == right[0]);
    }
}

/// Appends the decimal numeral of `n` to `out`, right-aligned in a field of
/// `width` characters that is filled on the left with `'0'`.
pub fn push_zero_padded(out: &mut String, n: u128, width: usize)
    ensures
        final(out)@ == old(out)@ + zero_padded(decimal(n as nat), width as nat),
{
    let numeral = decimal_string(n);
    let digits = to_chars(numeral.as_str());
    let ghost before = out@;
    if digits.len() < width {
        let missing: usize = width - digits.len();
        let mut i: usize = 0;
        while i < missing
            invariant
                i <= missing,
                out@ == before + Seq::new(i as nat, |k: int| '0'),
            decreases missing - i,
        {
            out.push('0');
            i += 1;
        }
    }
    out.append(numeral.as_str());
}

/// Whether two string slices hold the same characters.
pub fn same_text(a: &str, b: &str) -> (same: bool)
    ensures
        same == (a@ == b@),
{
    let left = a.as_bytes();
    let right = b.as_bytes();
    proof {
        vstd::utf8::encode_utf8_decode_utf8(a@);
        vstd::utf8::encode_utf8_decode_utf8(b@);
    }
    if left.len() != right.len() {
        return false;
    }
    let mut i: usize = 0;
    while i < left.len()
        invariant
            i <= left.len(),
            left.len() == right.len(),
            left@.take(i as int) == right@.take(i as int),
            left@ == a.spec_bytes(),
            right@ == b.spec_bytes(),
            vstd::utf8::decode_utf8(a.spec_bytes()) == a@,
            vstd::utf8::decode_utf8(b.spec_bytes()) == b@,
        decreases left.len() - i,
    {
        if left[i] != right[i] {
            assert(left@[i as int] != right@[i as int]);
            return false;
        }
        assert(left@.take(i + 1) == left@.take(i as int).push(left@[i as int]));
        assert(right@.take(i + 1) == right@.take(i as int).push(right@[i as int]));
        i += 1;
    }
    assert(left@ == left@.take(i as int));
    assert(right@ == right@.take(i as int));
    true
}

/// Whether `pattern` stands in `text` at index `at`.
pub open spec fn occurs_at(text: Seq<char>, pattern: Seq<char>, at: int) -> bool {
    &&& 0 <= at
    &&& at + pattern.len() <= text.len()
    &&& text.subrange(at, at + pattern.len()) == pattern
}

/// Whether `text` begins with `prefix`.
pub open spec fn starts_with(text: Seq<char>, prefix: Seq<char>) -> bool {
    occurs_at(text, prefix, 0)
}

/// The least index at or after `from` at which `pattern` stands in `text`.
pub open spec fn find_from(text: Seq<char>, pattern: Seq<char>, from: int) -> Option<int>
    decreases text.len() - from + 1,
{
    if from < 0 || from + pattern.len() > text.len() {
        None
    } else if occurs_at(text, pattern, from) {
        Some(from)
    } else {
        find_from(text, pattern, from + 1)
    }
}

/// The least index at which `pattern` stands in `text`.
pub open spec fn find(text: Seq<char>, pattern: Seq<char>) -> Option<int> {
    find_from(text, pattern, 0)
}

/// What `find_from` returns is the first occurrence at or after `from`, and
/// it returns `None` only when there is none.
pub proof fn lemma_find_from(text: Seq<char>, pattern: Seq<char>, from: int)
    requires
        0 <= from,
    ensures
        match find_from(text, pattern, from) {
            Some(at) => {
                &&& from <= at
                &&& occurs_at(text, pattern, at)
                &&& forall|k: int| from <= k < at ==> !occurs_at(text, pattern, k)
            },
            None => forall|k: int| from <= k ==> !occurs_at(text, pattern, k),
        },
    decreases text.len() - from + 1,
{
    if from + pattern.len() > text.len() {
    } else if occurs_at(text, pattern, from) {
    } else {
        lemma_find_from(text, pattern, from + 1);
    }
}

/// Whether `pattern` stands in `text` at index `at`.
pub fn matches_at(text: &[char], pattern: &[char], at: usize) -> (found: bool)
    ensures
        found == occurs_at(text@, pattern@, at as int),
{
    if at > text.len() || pattern.len() > text.len() - at {
        return false;
    }
    let mut i: usize = 0;
    while i < pattern.len()
        invariant
            i <= pattern.len(),
            at + pattern.len() <= text.len(),
            text@.subrange(at as int, at + i) == pattern@.take(i as int),
        decreases pattern.len() - i,
    {
        if text[at + i] != pattern[i] {
            assert(text@.subrange(at as int, at + pattern.len())[i as int] != pattern@[i as int]);
            return false;
        }
        assert(text@.subrange(at as int, at + i + 1) == text@.subrange(at as int, at + i).push(
            text@[at + i],
        ));
        assert(pattern@.take(i + 1) == pattern@.take(i as int).push(pattern@[i as int]));
        i += 1;
    }
    assert(pattern@ == pattern@.take(i as int));
    true
}

/// The index of the first occurrence of `pattern` in `text`.
pub fn find_in(text: &[char], pattern: &[char]) -> (found: Option<usize>)
    ensures
        match found {
            Some(at) => find(text@, pattern@) == Some(at as int),
            None => find(text@, pattern@) is None,
        },
{
    if pattern.len() > text.len() {
        return None;
    }
    let last: usize = text.len() - pattern.len();
    let mut at: usize = 0;
    loop
        invariant
            at <= last,
            last == text.len() - pattern.len(),
            find(text@, pattern@) == find_from(text@, pattern@, at as int),
        decreases last - at,
    {
        if matches_at(text, pattern, at) {
            return Some(at);
        }
        if at == last {
            assert(find_from(text@, pattern@, at + 1) is None);
            return None;
        }
        at += 1;
    }
}

/// `text` with every occurrence of `pattern` taken out, scanning from the
/// left and never looking again at what an occurrence covered. An empty
/// pattern takes nothing out.
pub open spec fn without(text: Seq<char>, pattern: Seq<char>) -> Seq<char>
    decreases text.len(),
{
    if pattern.len() == 0 || text.len() < pattern.len() {
        text
    } else if starts_with(text, pattern) {
        without(text.skip(pattern.len() as int), pattern)
    } else {
        seq![text[0]] + without(text.skip(1), pattern)
    }
}

/// Takes every occurrence of `pattern` out of `text`.
pub fn remove_all(text: &[char], pattern: &[char]) -> (out: Vec<char>)
    ensures
        out@ == without(text@, pattern@),
{
    let mut out: Vec<char> = Vec::new();
    let mut i: usize = 0;
    if pattern.len() == 0 {
        while i < text.len()
            invariant
                i <= text.len(),
                out@ == text@.take(i as int),
            decreases text.len() - i,
        {
            out.push(text[i]);
            i += 1;
        }
        assert(text@.take(i as int) == text@);
        return out;
    }
    assert(text@.skip(0) == text@);
    assert(Seq::<char>::empty() + without(text@, pattern@) == without(text@, pattern@));
    while i < text.len()
        invariant
            i <= text.len(),
            pattern.len() > 0,
            out@ + without(text@.skip(i as int), pattern@) == without(text@, pattern@),
        decreases text.len() - i,
    {
        let ghost rest = text@.skip(i as int);
        if matches_at(text, pattern, i) {
            assert(rest.subrange(0, pattern.len() as int) == text@.subrange(
                i as int,
                i + pattern.len(),
            ));
            assert(rest.skip(pattern.len() as int) == text@.skip(i + pattern.len()));
            i += pattern.len();
        } else {
            proof {
                if rest.len() >= pattern.len() {
                    assert(rest.subrange(0, pattern.len() as int) == text@.subrange(
                        i as int,
                        i + pattern.len(),
                    ));
                }
                assert(rest.skip(1) == text@.skip(i + 1));
                if rest.len() < pattern.len() {
                    assert(rest == seq![rest[0]] + rest.skip(1));
                }
                assert(without(rest, pattern@) == seq![rest[0]] + without(rest.skip(1), pattern@));
                assert(out@.push(text@[i as int]) + without(rest.skip(1), pattern@) == out@ + (
                    seq![rest[0]] + without(rest.skip(1), pattern@)));
            }
            out.push(text[i]);
            i += 1;
        }
    }
    assert(text@.skip(i as int) == Seq::<char>::empty());
    assert(out@ + Seq::<char>::empty() == out@);
    out
}

/// `text` without the characters equal to `unwanted`.
pub open spec fn without_char(text: Seq<char>, unwanted: char) -> Seq<char>
    decreases text.len(),
{
    if text.len() == 0 {
        text
    } else if text.last() == unwanted {
        without_char(text.drop_last(), unwanted)
    } else {
        without_char(text.drop_last(), unwanted).push(text.last())
    }
}

/// Drops every character equal to `unwanted` from `text`.
pub fn remove_char(text: &[char], unwanted: char) -> (out: Vec<char>)
    ensures
        out@ == without_char(text@, unwanted),
{
    let mut out: Vec<char> = Vec::new();
    let mut i: usize = 0;
    while i < text.len()
        invariant
            i <= text.len(),
            out@ == without_char(text@.take(i as int), unwanted),
        decreases text.len() - i,
    {
        assert(text@.take(i + 1).drop_last() == text@.take(i as int));
        if text[i] != unwanted {
            out.push(text[i]);
        }
        i += 1;
    }
    assert(text@.take(i as int) == text@);
    out
}

/// The parts in order, with `separator` between each two neighbours.
pub open spec fn joined(parts: Seq<Seq<char>>, separator: Seq<char>) -> Seq<char>
    decreases parts.len(),
{
    if parts.len() == 0 {
        Seq::empty()
    } else if parts.len() == 1 {
        parts[0]
    } else {
        joined(parts.drop_last(), separator) + separator + parts.last()
    }
}

/// Joins `parts` with `separator` between each two neighbours.
pub fn join(parts: &Vec<String>, separator: &str) -> (out: String)
    ensures
        out@ == joined(parts.deep_view(), separator@),
{
    let mut out = String::new();
    let mut i: usize = 0;
    while i < parts.len()
        invariant
            i <= parts.len(),
            out@ == joined(parts.deep_view().take(i as int), separator@),
        decreases parts.len() - i,
    {
        let ghost upto = parts.deep_view().take(i + 1);
        assert(upto.drop_last() == parts.deep_view().take(i as int));
        assert(upto.last() == parts[i as int]@);
        if i > 0 {
            out.append(separator);
        } else {
            assert(Seq::<char>::empty() + parts[0]@ == parts[0]@);
        }
        out.append(parts[i].as_str());
        i += 1;
    }
    assert(parts.deep_view().take(i as int) == parts.deep_view());
    out
}

} // verus!
