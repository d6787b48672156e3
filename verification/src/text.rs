//! Text as sequences of characters: comparison, trimming, splitting, decimal
//! numbers and the pieces the rest of the library builds its messages from.

use vstd::prelude::*;
use vstd::string::*;
use vstd::utf8::*;

verus! {

/// `String::push` appends the character it is given and changes nothing else
/// of the string.
pub assume_specification[ String::push ](s: &mut String, c: char)
    ensures
        final(s)@ == old(s)@.push(c),
;

/// Whether two texts hold the same characters.
pub fn same(a: &str, b: &str) -> (r: bool)
    ensures
        r == (a@ == b@),
{
    let x = a.as_bytes();
    let y = b.as_bytes();
    proof {
        encode_utf8_decode_utf8(a@);
        encode_utf8_decode_utf8(b@);
    }
    if x.len() != y.len() {
        return false;
    }
    let mut i: usize = 0;
    while i < x.len()
        invariant
            x@ == encode_utf8(a@),
            y@ == encode_utf8(b@),
            x@.len() == y@.len(),
            i <= x@.len(),
            forall|j: int| 0 <= j < i ==> x@[j] == y@[j],
        decreases x.len() - i,
    {
        if x[i] != y[i] {
            assert(a@ != b@);
            return false;
        }
        i += 1;
    }
    assert(x@ =~= y@);
    true
}

/// The characters of a text as a vector.
pub fn chars_of(text: &str) -> (r: Vec<char>)
    ensures
        r@ == text@,
{
    let mut out: Vec<char> = Vec::new();
    for c in it: text.chars()
        invariant
            it.seq() == text@,
            out@ == it.seq().take(it.index() as int),
    {
        out.push(c);
    }
    assert(text@.take(text@.len() as int) =~= text@);
    out
}

/// The text made of the characters from `from` up to `to`.
pub fn string_of(chars: &Vec<char>, from: usize, to: usize) -> (r: String)
    requires
        from <= to <= chars@.len(),
    ensures
        r@ == chars@.subrange(from as int, to as int),
{
    let mut out = String::new();
    let mut i: usize = from;
    while i < to
        invariant
            from <= i <= to <= chars@.len(),
            out@ == chars@.subrange(from as int, i as int),
        decreases to - i,
    {
        out.push(chars[i]);
        assert(chars@.subrange(from as int, i as int).push(chars@[i as int]) =~= chars@.subrange(from as int, i + 1));
        i += 1;
    }
    out
}


/// A character of the Unicode property `White_Space`.
pub open spec fn is_space(c: char) -> bool {
    let n = c as u32;
    ||| 0x9 <= n <= 0xd
    ||| n == 0x20
    ||| n == 0x85
    ||| n == 0xa0
    ||| n == 0x1680
    ||| 0x2000 <= n <= 0x200a
    ||| n == 0x2028
    ||| n == 0x2029
    ||| n == 0x202f
    ||| n == 0x205f
    ||| n == 0x3000
}

/// Whether `c` is white space.
pub fn space(c: char) -> (r: bool)
    ensures
        r == is_space(c),
{
    let n = c as u32;
    (0x9 <= n && n <= 0xd) || n == 0x20 || n == 0x85 || n == 0xa0 || n == 0x1680 || (0x2000 <= n && n
        <= 0x200a) || n == 0x2028 || n == 0x2029 || n == 0x202f || n == 0x205f || n == 0x3000
}

/// `s` without the white space it starts with.
pub open spec fn trimmed_start(s: Seq<char>) -> Seq<char>
    decreases s.len(),
{
    if s.len() > 0 && is_space(s[0]) {
        trimmed_start(s.skip(1))
    } else {
        s
    }
}

/// `s` without the white space it ends with.
pub open spec fn trimmed_end(s: Seq<char>) -> Seq<char>
    decreases s.len(),
{
    if s.len() > 0 && is_space(s.last()) {
        trimmed_end(s.drop_last())
    } else {
        s
    }
}

/// `s` without the white space around it.
pub open spec fn trimmed(s: Seq<char>) -> Seq<char> {
    trimmed_start(trimmed_end(s))
}

/// The text without the white space it ends with.
pub fn trim_end(text: &str) -> (r: String)
    ensures
        r@ == trimmed_end(text@),
{
    let chars = chars_of(text);
    let mut end: usize = chars.len();
    assert(chars@.take(end as int) =~= text@);
    while end > 0 && space(chars[end - 1])
        invariant
            end <= chars@.len(),
            chars@ == text@,
            trimmed_end(chars@.take(end as int)) == trimmed_end(text@),
        decreases end,
    {
        assert(chars@.take(end as int).drop_last() =~= chars@.take(end - 1));
        assert(chars@.take(end as int).last() == chars@[end - 1]);
        end -= 1;
    }
    proof {
        let rest = chars@.take(end as int);
        assert(rest.len() > 0 ==> rest.last() == chars@[end - 1]);
        assert(rest =~= chars@.subrange(0, end as int));
    }
    string_of(&chars, 0, end)
}

/// The text without the white space around it.
pub fn trim(text: &str) -> (r: String)
    ensures
        r@ == trimmed(text@),
{
    let kept = trim_end(text);
    let chars = chars_of(kept.as_str());
    let mut start: usize = 0;
    assert(chars@.skip(0) =~= chars@);
    while start < chars.len() && space(chars[start])
        invariant
            start <= chars@.len(),
            trimmed_start(chars@.skip(start as int)) == trimmed_start(chars@),
        decreases chars@.len() - start,
    {
        assert(chars@.skip(start as int).skip(1) =~= chars@.skip(start + 1));
        assert(chars@.skip(start as int)[0] == chars@[start as int]);
        start += 1;
    }
    proof {
        let rest = chars@.skip(start as int);
        assert(rest.len() > 0 ==> rest[0] == chars@[start as int]);
        assert(rest =~= chars@.subrange(start as int, chars@.len() as int));
    }
    let end = chars.len();
    string_of(&chars, start, end)
}

/// Whether the text holds nothing but white space.
pub fn blank(text: &str) -> (r: bool)
    ensures
        r == (trimmed(text@).len() == 0),
{
    let t = trim(text);
    t.as_str().is_empty()
}

/// Whether `s` starts with `prefix`.
pub open spec fn has_prefix(s: Seq<char>, prefix: Seq<char>) -> bool {
    prefix.len() <= s.len() && s.take(prefix.len() as int) == prefix
}

/// Whether `s` ends with `suffix`.
pub open spec fn has_suffix(s: Seq<char>, suffix: Seq<char>) -> bool {
    suffix.len() <= s.len() && s.skip(s.len() - suffix.len()) == suffix
}

/// What follows `prefix` in `s`, where `s` starts with it.
pub open spec fn without_prefix(s: Seq<char>, prefix: Seq<char>) -> Option<Seq<char>> {
    if has_prefix(s, prefix) {
        Some(s.skip(prefix.len() as int))
    } else {
        None
    }
}

/// What comes before `suffix` in `s`, where `s` ends with it.
pub open spec fn without_suffix(s: Seq<char>, suffix: Seq<char>) -> Option<Seq<char>> {
    if has_suffix(s, suffix) {
        Some(s.take(s.len() - suffix.len()))
    } else {
        None
    }
}

/// The view of an optional text.
pub open spec fn opt_view(o: Option<String>) -> Option<Seq<char>> {
    match o {
        Some(s) => Some(s@),
        None => None,
    }
}

/// Whether the characters of `chars` from `at` on start with `part`.
fn matches_at(chars: &Vec<char>, at: usize, part: &Vec<char>) -> (r: bool)
    requires
        at <= chars@.len(),
    ensures
        r == has_prefix(chars@.skip(at as int), part@),
{
    if part.len() > chars.len() - at {
        return false;
    }
    let n = chars.len();
    let mut i: usize = 0;
    while i < part.len()
        invariant
            i <= part@.len(),
            n == chars@.len(),
            at + part@.len() <= n,
            forall|j: int| 0 <= j < i ==> chars@[at + j] == part@[j],
        decreases part@.len() - i,
    {
        if chars[at + i] != part[i] {
            assert(chars@.skip(at as int).take(part@.len() as int)[i as int] != part@[i as int]);
            return false;
        }
        i += 1;
    }
    assert(chars@.skip(at as int).take(part@.len() as int) =~= part@);
    true
}

/// Whether the text starts with `prefix`.
pub fn starts_with(text: &str, prefix: &str) -> (r: bool)
    ensures
        r == has_prefix(text@, prefix@),
{
    let chars = chars_of(text);
    let part = chars_of(prefix);
    assert(chars@.skip(0) =~= chars@);
    matches_at(&chars, 0, &part)
}

/// What follows `prefix` in the text.
pub fn strip_prefix(text: &str, prefix: &str) -> (r: Option<String>)
    ensures
        opt_view(r) == without_prefix(text@, prefix@),
{
    let chars = chars_of(text);
    let part = chars_of(prefix);
    assert(chars@.skip(0) =~= chars@);
    if !matches_at(&chars, 0, &part) {
        return None;
    }
    let (from, to) = (part.len(), chars.len());
    assert(chars@.subrange(from as int, to as int) =~= chars@.skip(from as int));
    Some(string_of(&chars, from, to))
}

/// What comes before `suffix` in the text.
pub fn strip_suffix(text: &str, suffix: &str) -> (r: Option<String>)
    ensures
        opt_view(r) == without_suffix(text@, suffix@),
{
    let chars = chars_of(text);
    let part = chars_of(suffix);
    if part.len() > chars.len() {
        return None;
    }
    let cut: usize = chars.len() - part.len();
    if !matches_at(&chars, cut, &part) {
        assert(chars@.skip(cut as int).take(part@.len() as int) =~= chars@.skip(cut as int));
        return None;
    }
    assert(chars@.skip(cut as int).take(part@.len() as int) =~= chars@.skip(cut as int));
    assert(chars@.subrange(0, cut as int) =~= chars@.take(cut as int));
    Some(string_of(&chars, 0, cut))
}

/// The least place at or after `from` where `part` stands in `s`, if any.
pub open spec fn found_from(s: Seq<char>, part: Seq<char>, from: int) -> Option<int>
    decreases s.len() - from + 1,
{
    if from < 0 || from > s.len() {
        None
    } else if has_prefix(s.skip(from), part) {
        Some(from)
    } else {
        found_from(s, part, from + 1)
    }
}

/// The place where `part` first stands in `chars`.
fn find(chars: &Vec<char>, part: &Vec<char>) -> (r: Option<usize>)
    ensures
        match r {
            Some(at) => found_from(chars@, part@, 0) == Some(at as int) && at + part@.len()
                <= chars@.len(),
            None => found_from(chars@, part@, 0) is None,
        },
{
    let mut at: usize = 0;
    let n = chars.len();
    loop
        invariant
            at <= n,
            n == chars@.len(),
            found_from(chars@, part@, 0) == found_from(chars@, part@, at as int),
        decreases n - at,
    {
        if matches_at(chars, at, part) {
            return Some(at);
        }
        if at == n {
            assert(found_from(chars@, part@, at + 1) is None);
            return None;
        }
        at += 1;
    }
}

/// Whether `part` stands somewhere in `s`.
pub open spec fn has_part(s: Seq<char>, part: Seq<char>) -> bool {
    found_from(s, part, 0) is Some
}

/// Whether `part` stands somewhere in the text.
pub fn contains(text: &str, part: &str) -> (r: bool)
    ensures
        r == has_part(text@, part@),
{
    let chars = chars_of(text);
    let what = chars_of(part);
    find(&chars, &what).is_some()
}

/// A text that stands between two others stands in the whole.
pub proof fn part_is_found(before: Seq<char>, part: Seq<char>, after: Seq<char>)
    ensures
        has_part(before + part + after, part),
{
    let s = before + part + after;
    assert(s.skip(before.len() as int).take(part.len() as int) =~= part);
    found_by(s, part, 0, before.len() as int);
}

/// A place at or after `from` where `part` stands is found from there.
proof fn found_by(s: Seq<char>, part: Seq<char>, from: int, at: int)
    requires
        0 <= from <= at <= s.len(),
        has_prefix(s.skip(at), part),
    ensures
        found_from(s, part, from) is Some,
    decreases at - from,
{
    if !has_prefix(s.skip(from), part) {
        found_by(s, part, from + 1, at);
    }
}

/// `s` cut at the first `sep`: what is before it and what is after it.
pub open spec fn cut(s: Seq<char>, sep: Seq<char>) -> Option<(Seq<char>, Seq<char>)> {
    match found_from(s, sep, 0) {
        Some(at) => Some((s.take(at), s.skip(at + sep.len()))),
        None => None,
    }
}

/// The text cut at the first `sep`.
pub fn split_once(text: &str, sep: &str) -> (r: Option<(String, String)>)
    ensures
        match r {
            Some((before, after)) => cut(text@, sep@) == Some((before@, after@)),
            None => cut(text@, sep@) is None,
        },
{
    let chars = chars_of(text);
    let part = chars_of(sep);
    match find(&chars, &part) {
        Some(at) => {
            let n = chars.len();
            let after = at + part.len();
            assert(chars@.subrange(0, at as int) =~= chars@.take(at as int));
            assert(chars@.subrange(after as int, n as int) =~= chars@.skip(after as int));
            Some((string_of(&chars, 0, at), string_of(&chars, after, n)))
        },
        None => None,
    }
}

/// The first line of a text: what stands before its first line feed, without
/// the carriage return before that; none of an empty text.
pub open spec fn first_line_of(s: Seq<char>) -> Option<Seq<char>> {
    if s.len() == 0 {
        None
    } else {
        match cut(s, seq!['\n']) {
            Some((line, rest)) => Some(
                if line.len() > 0 && line.last() == '\r' {
                    line.drop_last()
                } else {
                    line
                },
            ),
            None => Some(s),
        }
    }
}

/// The first line of the text.
pub fn first_line(text: &str) -> (r: Option<String>)
    ensures
        opt_view(r) == first_line_of(text@),
{
    if text.is_empty() {
        return None;
    }
    proof {
        reveal_strlit("\n");
        reveal_strlit("\r");
        assert("\n"@ =~= seq!['\n']);
        assert("\r"@ =~= seq!['\r']);
    }
    match split_once(text, "\n") {
        Some((line, rest)) => {
            proof {
                let l = line@;
                if l.len() > 0 {
                    assert(l.skip(l.len() - 1) =~= seq![l.last()]);
                    assert(seq!['\r'][0] == '\r');
                    assert(seq![l.last()][0] == l.last());
                    assert(l.take(l.len() - 1) =~= l.drop_last());
                }
            }
            match strip_suffix(line.as_str(), "\r") {
                Some(bare) => Some(bare),
                None => Some(line),
            }
        },
        None => Some(text.to_owned()),
    }
}

/// The ASCII lower case of one character.
pub open spec fn lower(c: char) -> char {
    if 'A' <= c <= 'Z' {
        ((c as u8) + 32) as char
    } else {
        c
    }
}

/// `s` with its ASCII letters in lower case.
pub open spec fn lowered(s: Seq<char>) -> Seq<char> {
    s.map_values(|c: char| lower(c))
}

/// The text with its ASCII letters in lower case.
pub fn ascii_lower(text: &str) -> (r: String)
    ensures
        r@ == lowered(text@),
{
    let chars = chars_of(text);
    let mut out = String::new();
    let mut i: usize = 0;
    while i < chars.len()
        invariant
            i <= chars@.len(),
            chars@ == text@,
            out@ == lowered(text@.take(i as int)),
        decreases chars@.len() - i,
    {
        let c = chars[i];
        let d = if 'A' <= c && c <= 'Z' {
            ((c as u8) + 32) as char
        } else {
            c
        };
        out.push(d);
        assert(lowered(text@.take(i + 1)) =~= lowered(text@.take(i as int)).push(lower(c)));
        i += 1;
    }
    assert(text@.take(i as int) =~= text@);
    out
}


/// The decimal digit `d`.
pub open spec fn digit(d: nat) -> char {
    (('0' as u8) + d) as char
}

/// `n` in decimal, without leading zeros.
pub open spec fn decimal(n: nat) -> Seq<char>
    decreases n,
{
    if n < 10 {
        seq![digit(n)]
    } else {
        decimal(n / 10).push(digit(n % 10))
    }
}

/// `n` in decimal, with a minus sign when it is negative.
pub open spec fn signed(n: int) -> Seq<char> {
    if n < 0 {
        "-"@ + decimal((-n) as nat)
    } else {
        decimal(n as nat)
    }
}

/// `n` in decimal.
pub fn number(n: u64) -> (r: String)
    ensures
        r@ == decimal(n as nat),
    decreases n,
{
    let d = (48u8 + (n % 10) as u8) as char;
    if n < 10 {
        let mut out = String::new();
        out.push(d);
        assert(out@ =~= seq![digit(n as nat)]);
        out
    } else {
        let mut out = number(n / 10);
        out.push(d);
        out
    }
}

/// `n` in decimal.
pub fn integer(n: i64) -> (r: String)
    ensures
        r@ == signed(n as int),
{
    if n == i64::MIN {
        let rest = number(9223372036854775808);
        "-".to_owned().concat(rest.as_str())
    } else if n < 0 {
        let rest = number((-n) as u64);
        "-".to_owned().concat(rest.as_str())
    } else {
        number(n as u64)
    }
}

/// Whether `c` is a decimal digit.
pub open spec fn is_digit(c: char) -> bool {
    '0' <= c <= '9'
}

/// The number the digits of `s` spell.
pub open spec fn value_of(s: Seq<char>) -> nat
    decreases s.len(),
{
    if s.len() == 0 {
        0
    } else {
        value_of(s.drop_last()) * 10 + (s.last() as u8 - '0' as u8) as nat
    }
}

/// The digits of an unsigned number's text: all of it, less one leading plus
/// sign.
pub open spec fn unsigned_digits(s: Seq<char>) -> Seq<char> {
    if s.len() > 0 && s[0] == '+' {
        s.skip(1)
    } else {
        s
    }
}

/// The unsigned number `s` spells, where it is at most `max`: one or more
/// digits, after a plus sign or not.
pub open spec fn parsed(s: Seq<char>, max: nat) -> Option<nat> {
    let d = unsigned_digits(s);
    if d.len() > 0 && (forall|i: int| 0 <= i < d.len() ==> is_digit(#[trigger] d[i])) && value_of(d)
        <= max {
        Some(value_of(d))
    } else {
        None
    }
}

/// A longer row of digits spells no smaller number.
proof fn value_grows(s: Seq<char>, i: int)
    requires
        0 <= i <= s.len(),
        forall|j: int| 0 <= j < s.len() ==> is_digit(#[trigger] s[j]),
    ensures
        value_of(s.take(i)) <= value_of(s),
    decreases s.len(),
{
    if i < s.len() {
        assert(s.drop_last().take(i) =~= s.take(i));
        assert forall|j: int| 0 <= j < s.drop_last().len() implies is_digit(
            #[trigger] s.drop_last()[j],
        ) by {
            assert(s.drop_last()[j] == s[j]);
        }
        value_grows(s.drop_last(), i);
    } else {
        assert(s.take(i) =~= s);
    }
}

/// The unsigned number the text spells, where it is at most `max`.
pub fn parse_unsigned(text: &str, max: u64) -> (r: Option<u64>)
    ensures
        match r {
            Some(n) => parsed(text@, max as nat) == Some(n as nat),
            None => parsed(text@, max as nat) is None,
        },
{
    let chars = chars_of(text);
    let n = chars.len();
    let start: usize = if n > 0 && chars[0] == '+' {
        1
    } else {
        0
    };
    let ghost d = unsigned_digits(text@);
    assert(d =~= chars@.skip(start as int));
    if start == n {
        return None;
    }
    let mut i: usize = start;
    let mut total: u64 = 0;
    assert(d.take(0) =~= Seq::empty());
    while i < n
        invariant
            start <= i <= n,
            n == chars@.len(),
            d == chars@.skip(start as int),
            d == unsigned_digits(text@),
            forall|j: int| 0 <= j < i - start ==> is_digit(#[trigger] d[j]),
            total == value_of(d.take(i - start)),
            total <= max,
        decreases n - i,
    {
        let c = chars[i];
        assert(d[i - start] == c);
        if !('0' <= c && c <= '9') {
            return None;
        }
        let add = (c as u8) - 48u8;
        let ghost upto = d.take(i + 1 - start);
        assert(upto.drop_last() =~= d.take(i - start));
        assert(upto.last() == c);
        let wide: u128 = (total as u128) * 10 + (add as u128);
        assert(wide == value_of(upto));
        if wide > max as u128 {
            proof {
                if forall|j: int| 0 <= j < d.len() ==> is_digit(#[trigger] d[j]) {
                    value_grows(d, i + 1 - start);
                }
            }
            return None;
        }
        total = wide as u64;
        i += 1;
    }
    assert(d.take(d.len() as int) =~= d);
    Some(total)
}

/// The integer a text spells with an optional sign, within the range of the
/// type.
pub open spec fn parsed_signed(s: Seq<char>) -> Option<int> {
    if s.len() > 0 && s[0] == '-' {
        if s.len() > 1 && s[1] == '+' {
            None
        } else {
            match parsed(s.skip(1), 0x8000_0000_0000_0000) {
                Some(n) => Some(-(n as int)),
                None => None,
            }
        }
    } else {
        match parsed(s, 0x7fff_ffff_ffff_ffff) {
            Some(n) => Some(n as int),
            None => None,
        }
    }
}

/// The integer a text spells, if it spells one that fits.
pub fn parse_signed(text: &str) -> (r: Option<i64>)
    ensures
        match r {
            Some(n) => parsed_signed(text@) == Some(n as int),
            None => parsed_signed(text@) is None,
        },
{
    let chars = chars_of(text);
    if chars.len() > 0 && chars[0] == '-' {
        if chars.len() > 1 && chars[1] == '+' {
            return None;
        }
        let rest = string_of(&chars, 1, chars.len());
        assert(rest@ =~= text@.skip(1));
        return match parse_unsigned(rest.as_str(), 0x8000_0000_0000_0000) {
            Some(n) => {
                let wide: i128 = -(n as i128);
                Some(wide as i64)
            },
            None => None,
        };
    }
    match parse_unsigned(text, 0x7fff_ffff_ffff_ffff) {
        Some(n) => Some(n as i64),
        None => None,
    }
}

/// What a number's decimal text spells is the number.
pub proof fn decimal_is_parsed(n: nat, max: nat)
    requires
        n <= max,
    ensures
        parsed(decimal(n), max) == Some(n),
{
    decimal_spells(n);
    let s = decimal(n);
    assert(is_digit(s[0]));
    assert(unsigned_digits(s) == s);
}

/// A number's decimal text is made of digits, at least one, that spell it.
pub proof fn decimal_spells(n: nat)
    ensures
        decimal(n).len() > 0,
        forall|i: int| 0 <= i < decimal(n).len() ==> is_digit(#[trigger] decimal(n)[i]),
        value_of(decimal(n)) == n,
    decreases n,
{
    let s = decimal(n);
    if n < 10 {
        assert(s.drop_last() =~= Seq::empty());
        assert(value_of(s.drop_last()) == 0);
        assert(s.last() == digit(n));
    } else {
        decimal_spells(n / 10);
        assert(s.drop_last() =~= decimal(n / 10));
        assert(s.last() == digit(n % 10));
        assert forall|i: int| 0 <= i < s.len() implies is_digit(#[trigger] s[i]) by {
            if i < decimal(n / 10).len() {
                assert(s[i] == decimal(n / 10)[i]);
            }
        }
    }
}

/// Two numbers with the same decimal text are the same.
pub proof fn decimal_is_injective(a: nat, b: nat)
    requires
        decimal(a) == decimal(b),
    ensures
        a == b,
{
    decimal_spells(a);
    decimal_spells(b);
}

/// The views of a list of texts.
pub open spec fn views(list: Seq<String>) -> Seq<Seq<char>> {
    list.map_values(|s: String| s@)
}

/// The items of `list` with `sep` between each two of them.
pub open spec fn joined(list: Seq<Seq<char>>, sep: Seq<char>) -> Seq<char>
    decreases list.len(),
{
    if list.len() == 0 {
        Seq::empty()
    } else if list.len() == 1 {
        list[0]
    } else {
        joined(list.drop_last(), sep) + sep + list.last()
    }
}

/// The items of `list` with `sep` between each two of them.
pub fn join(list: &Vec<String>, sep: &str) -> (r: String)
    ensures
        r@ == joined(views(list@), sep@),
{
    let mut out = String::new();
    let mut i: usize = 0;
    while i < list.len()
        invariant
            i <= list@.len(),
            out@ == joined(views(list@).take(i as int), sep@),
        decreases list@.len() - i,
    {
        proof {
            let upto = views(list@).take(i + 1);
            assert(upto.drop_last() =~= views(list@).take(i as int));
            assert(upto.last() == list@[i as int]@);
        }
        if i == 0 {
            out = list[i].clone();
        } else {
            out.append(sep);
            out.append(list[i].as_str());
        }
        i += 1;
    }
    assert(views(list@).take(list@.len() as int) =~= views(list@));
    out
}

/// Whether the optional text is this one.
pub fn is_text(o: &Option<String>, what: &str) -> (r: bool)
    ensures
        r == (opt_view(*o) == Some(what@)),
{
    match o {
        Some(s) => same(s.as_str(), what),
        None => false,
    }
}

/// Whether the list holds a text with these characters.
pub fn lists(list: &Vec<String>, text: &str) -> (r: bool)
    ensures
        r == views(list@).contains(text@),
{
    let mut i: usize = 0;
    while i < list.len()
        invariant
            i <= list@.len(),
            forall|j: int| 0 <= j < i ==> list@[j]@ != text@,
        decreases list@.len() - i,
    {
        if same(list[i].as_str(), text) {
            assert(views(list@)[i as int] == text@);
            return true;
        }
        i += 1;
    }
    false
}

/// A list of the same texts.
pub fn copied(list: &Vec<String>) -> (r: Vec<String>)
    ensures
        r@ == list@,
{
    let mut out: Vec<String> = Vec::new();
    let mut i: usize = 0;
    while i < list.len()
        invariant
            i <= list@.len(),
            out@ == list@.take(i as int),
        decreases list@.len() - i,
    {
        out.push(list[i].clone());
        assert(list@.take(i + 1) =~= list@.take(i as int).push(list@[i as int]));
        i += 1;
    }
    assert(list@.take(list@.len() as int) =~= list@);
    out
}

/// The bytes `c` takes in UTF-8.
pub open spec fn width(c: char) -> nat {
    let n = c as u32;
    if n < 0x80 {
        1
    } else if n < 0x800 {
        2
    } else if n < 0x10000 {
        3
    } else {
        4
    }
}

/// The bytes `s` takes in UTF-8.
pub open spec fn bytes_of(s: Seq<char>) -> nat
    decreases s.len(),
{
    if s.len() == 0 {
        0
    } else {
        width(s[0]) + bytes_of(s.skip(1))
    }
}

/// The longest end of `s` that takes at most `max` bytes in UTF-8.
pub open spec fn tail_of(s: Seq<char>, max: nat) -> Seq<char>
    decreases s.len(),
{
    if bytes_of(s) <= max || s.len() == 0 {
        s
    } else {
        tail_of(s.skip(1), max)
    }
}

/// The last `max` bytes of the text, less those of a character they would
/// split.
pub fn tail(text: &str, max: usize) -> (r: String)
    ensures
        r@ == tail_of(text@, max as nat),
{
    let chars = chars_of(text);
    let n = chars.len();
    let mut at: usize = n;
    let mut room: usize = max;
    assert(chars@.skip(n as int) =~= Seq::empty());
    loop
        invariant
            at <= n,
            n == chars@.len(),
            chars@ == text@,
            room <= max,
            bytes_of(chars@.skip(at as int)) == max - room,
        ensures
            at <= n,
            bytes_of(chars@.skip(at as int)) <= max,
            at > 0 ==> bytes_of(chars@.skip(at - 1)) > max,
        decreases at,
    {
        if at == 0 {
            break;
        }
        let c = chars[at - 1];
        let code = c as u32;
        let w: usize = if code < 0x80 {
            1
        } else if code < 0x800 {
            2
        } else if code < 0x10000 {
            3
        } else {
            4
        };
        assert(chars@.skip(at - 1).skip(1) =~= chars@.skip(at as int));
        assert(chars@.skip(at - 1)[0] == c);
        if w > room {
            break;
        }
        room -= w;
        at -= 1;
    }
    proof {
        tail_is(text@, at as int, max as nat);
        assert(text@.skip(at as int) =~= chars@.subrange(at as int, n as int));
    }
    string_of(&chars, at, n)
}

/// The end of `s` from `at` is its tail, where one character more is too long.
proof fn tail_is(s: Seq<char>, at: int, max: nat)
    requires
        0 <= at <= s.len(),
        bytes_of(s.skip(at)) <= max,
        at > 0 ==> bytes_of(s.skip(at - 1)) > max,
    ensures
        tail_of(s, max) == s.skip(at),
    decreases at,
{
    if at == 0 {
        assert(s.skip(0) =~= s);
    } else {
        longer_takes_more(s, at - 1);
        assert(s.skip(1).skip(at - 1) =~= s.skip(at));
        if at > 1 {
            assert(s.skip(1).skip(at - 2) =~= s.skip(at - 1));
        }
        tail_is(s.skip(1), at - 1, max);
    }
}

/// An end of `s` takes no more bytes than `s`.
proof fn longer_takes_more(s: Seq<char>, at: int)
    requires
        0 <= at <= s.len(),
    ensures
        bytes_of(s.skip(at)) <= bytes_of(s),
    decreases at,
{
    if at == 0 {
        assert(s.skip(0) =~= s);
    } else {
        assert(s.skip(1).skip(at - 1) =~= s.skip(at));
        longer_takes_more(s.skip(1), at - 1);
    }
}

/// The tail of a text is an end of it and takes at most the bytes asked for;
/// it is the whole text where that fits.
pub proof fn tail_fits(s: Seq<char>, max: nat)
    ensures
        has_suffix(s, tail_of(s, max)),
        bytes_of(tail_of(s, max)) <= max,
        bytes_of(s) <= max ==> tail_of(s, max) == s,
    decreases s.len(),
{
    if bytes_of(s) <= max || s.len() == 0 {
        assert(s.skip(0) =~= s);
    } else {
        tail_fits(s.skip(1), max);
        let t = tail_of(s, max);
        assert(s.skip(1).skip(s.len() - 1 - t.len()) =~= s.skip(s.len() - t.len()));
    }
}

/// The text as Rust's `Debug` shows it, in quotes and with escapes.
pub uninterp spec fn debug_of(s: Seq<char>) -> Seq<char>;

/// `format!` with `{:?}` on a `str`: the text its `Debug` implementation
/// writes, which depends on the characters alone.
#[verifier::external_body]
pub(crate) fn debug_text(text: &str) -> (r: String)
    ensures
        r@ == debug_of(text@),
{
    format!("{:?}", text)
}

/// Whether a text holds nothing but white space.
pub open spec fn is_blank(s: Seq<char>) -> bool {
    forall|i: int| 0 <= i < s.len() ==> is_space(#[trigger] s[i])
}

/// What trimming the end leaves is a start of the text, followed by white
/// space alone, and does not end in any.
proof fn end_is_cut(s: Seq<char>)
    ensures
        trimmed_end(s).len() <= s.len(),
        trimmed_end(s) == s.take(trimmed_end(s).len() as int),
        is_blank(s.skip(trimmed_end(s).len() as int)),
        trimmed_end(s).len() > 0 ==> !is_space(trimmed_end(s).last()),
    decreases s.len(),
{
    if s.len() > 0 && is_space(s.last()) {
        let front = s.drop_last();
        end_is_cut(front);
        let n = trimmed_end(front).len() as int;
        assert(s.take(n) =~= front.take(n));
        assert forall|i: int| 0 <= i < s.skip(n).len() implies is_space(#[trigger] s.skip(n)[i]) by {
            if i < front.skip(n).len() {
                assert(front.skip(n)[i] == s.skip(n)[i]);
            } else {
                assert(s.skip(n)[i] == s.last());
            }
        }
    } else {
        assert(s.take(s.len() as int) =~= s);
    }
}

/// What trimming the start leaves is an end of the text, after white space
/// alone, and does not start with any.
proof fn start_is_cut(s: Seq<char>)
    ensures
        trimmed_start(s).len() <= s.len(),
        trimmed_start(s) == s.skip(s.len() - trimmed_start(s).len()),
        is_blank(s.take(s.len() - trimmed_start(s).len())),
        trimmed_start(s).len() > 0 ==> !is_space(trimmed_start(s)[0]),
    decreases s.len(),
{
    if s.len() > 0 && is_space(s[0]) {
        let back = s.skip(1);
        start_is_cut(back);
        let n = back.len() - trimmed_start(back).len();
        assert(s.skip(n + 1) =~= back.skip(n));
        assert forall|i: int| 0 <= i < s.take(n + 1).len() implies is_space(
            #[trigger] s.take(n + 1)[i],
        ) by {
            if i > 0 {
                assert(back.take(n)[i - 1] == s.take(n + 1)[i]);
            }
        }
    } else {
        assert(s.skip(0) =~= s);
        assert(s.take(0) =~= Seq::empty());
    }
}

/// A trimmed text stands in the text, with nothing but white space before and
/// after it, and neither starts nor ends with any.
pub proof fn trimming_takes_only_outer_space(s: Seq<char>)
    ensures
        exists|a: Seq<char>, b: Seq<char>|
            is_blank(a) && is_blank(b) && s == #[trigger] (a + trimmed(s) + b),
        trimmed(s).len() > 0 ==> !is_space(trimmed(s)[0]) && !is_space(trimmed(s).last()),
        exists|b: Seq<char>| is_blank(b) && s == #[trigger] (trimmed_end(s) + b),
        trimmed_end(s).len() > 0 ==> !is_space(trimmed_end(s).last()),
{
    let kept = trimmed_end(s);
    let t = trimmed(s);
    end_is_cut(s);
    start_is_cut(kept);
    let a = kept.take(kept.len() - t.len());
    let b = s.skip(kept.len() as int);
    assert(s =~= a + t + b);
    assert(s =~= kept + b);
    if t.len() > 0 {
        assert(t.last() == kept.last());
    }
}

/// Nothing is left of a trimmed text exactly where it was all white space.
pub proof fn blank_is_all_space(s: Seq<char>)
    ensures
        trimmed(s).len() == 0 <==> is_blank(s),
{
    let kept = trimmed_end(s);
    let t = trimmed(s);
    end_is_cut(s);
    start_is_cut(kept);
    if t.len() == 0 {
        assert(kept.take(kept.len() as int) =~= kept);
        assert forall|i: int| 0 <= i < s.len() implies is_space(#[trigger] s[i]) by {
            if i < kept.len() {
                assert(kept[i] == s.take(kept.len() as int)[i]);
                assert(kept.take(kept.len() as int)[i] == s[i]);
            } else {
                assert(s.skip(kept.len() as int)[i - kept.len()] == s[i]);
            }
        }
    } else if is_blank(s) {
        assert(kept.last() == s.take(kept.len() as int).last());
        assert(kept.last() == s[kept.len() - 1]);
        assert(false);
    }
}

/// Lowering a text changes its capital ASCII letters, each to its small one,
/// and nothing else.
pub proof fn lowering_changes_only_capitals(s: Seq<char>)
    ensures
        lowered(s).len() == s.len(),
        forall|i: int|
            0 <= i < s.len() ==> if 'A' <= #[trigger] s[i] <= 'Z' {
                lowered(s)[i] as u32 == s[i] as u32 + ('a' as u32 - 'A' as u32)
            } else {
                lowered(s)[i] == s[i]
            },
        lowered(lowered(s)) == lowered(s),
{
    assert forall|i: int| 0 <= i < s.len() implies if 'A' <= #[trigger] s[i] <= 'Z' {
        lowered(s)[i] as u32 == s[i] as u32 + ('a' as u32 - 'A' as u32)
    } else {
        lowered(s)[i] == s[i]
    } by {
        let c = s[i];
        if 'A' <= c <= 'Z' {
            assert(lowered(s)[i] == ((c as u8) + 32) as char);
        }
    }
    assert(lowered(lowered(s)) =~= lowered(s));
}

/// One more item of a joined list adds the separator and the item; the first
/// stands alone.
pub proof fn joining_adds_a_separator(list: Seq<Seq<char>>, item: Seq<char>, sep: Seq<char>)
    ensures
        joined(list.push(item), sep) == (if list.len() == 0 {
            item
        } else {
            joined(list, sep) + sep + item
        }),
        joined(Seq::<Seq<char>>::empty(), sep).len() == 0,
{
    assert(list.push(item).drop_last() =~= list);
}

/// What follows a prefix, after that prefix, is the text; a text that does not
/// start with it has nothing that follows.
pub proof fn a_prefix_is_cut_off(s: Seq<char>, prefix: Seq<char>)
    ensures
        match without_prefix(s, prefix) {
            Some(rest) => s == prefix + rest,
            None => forall|rest: Seq<char>| s != #[trigger] (prefix + rest),
        },
        match without_suffix(s, prefix) {
            Some(front) => s == front + prefix,
            None => forall|front: Seq<char>| s != #[trigger] (front + prefix),
        },
{
    if has_prefix(s, prefix) {
        assert(s =~= prefix + s.skip(prefix.len() as int));
    } else {
        assert forall|rest: Seq<char>| s != #[trigger] (prefix + rest) by {
            assert((prefix + rest).take(prefix.len() as int) =~= prefix);
        }
    }
    if has_suffix(s, prefix) {
        assert(s =~= s.take(s.len() - prefix.len()) + prefix);
    } else {
        assert forall|front: Seq<char>| s != #[trigger] (front + prefix) by {
            assert((front + prefix).skip(front.len() as int) =~= prefix);
        }
    }
}

/// A part is found exactly at the first place where its characters stand.
pub proof fn a_part_is_found_where_it_first_stands(s: Seq<char>, part: Seq<char>, from: int)
    requires
        0 <= from,
    ensures
        match found_from(s, part, from) {
            Some(at) => {
                &&& from <= at && at + part.len() <= s.len()
                &&& s.subrange(at, at + part.len()) == part
                &&& forall|i: int|
                    from <= i < at && i + part.len() <= s.len() ==> #[trigger] s.subrange(
                        i,
                        i + part.len(),
                    ) != part
            },
            None => forall|i: int|
                from <= i && i + part.len() <= s.len() ==> #[trigger] s.subrange(
                    i,
                    i + part.len(),
                ) != part,
        },
    decreases s.len() - from + 1,
{
    if from <= s.len() {
        if part.len() <= s.len() - from {
            assert(s.skip(from).take(part.len() as int) =~= s.subrange(from, from + part.len()));
        }
        if !has_prefix(s.skip(from), part) {
            a_part_is_found_where_it_first_stands(s, part, from + 1);
        }
    }
}

/// A text cut at a separator is what stands before its first place and what
/// stands after it.
pub proof fn a_cut_loses_only_the_separator(s: Seq<char>, sep: Seq<char>)
    ensures
        cut(s, sep) matches Some((before, after)) ==> before + sep + after == s,
        cut(s, sep) matches Some((before, after)) ==> (sep.len() > 0 ==> !has_part(
            (before + sep).drop_last(),
            sep,
        )),
        cut(s, sep) is None <==> !has_part(s, sep),
{
    a_part_is_found_where_it_first_stands(s, sep, 0);
    if let Some((before, after)) = cut(s, sep) {
        let at = found_from(s, sep, 0)->0;
        assert(before + sep + after =~= s);
        if sep.len() > 0 {
            let head = (before + sep).drop_last();
            a_part_is_found_where_it_first_stands(head, sep, 0);
            if let Some(i) = found_from(head, sep, 0) {
                assert(head.subrange(i, i + sep.len()) =~= s.subrange(i, i + sep.len()));
                assert(i < at);
            }
        }
    }
}

/// The first line of a text holds no line feed, and the text starts with it.
pub proof fn the_first_line_is_a_line(s: Seq<char>)
    ensures
        first_line_of(s) is None <==> s.len() == 0,
        first_line_of(s) matches Some(line) ==> line.len() <= s.len() && s.take(line.len() as int)
            == line && !line.contains('\n'),
        first_line_of(s) matches Some(line) ==> (line.len() < s.len() ==> s[line.len() as int] == '\n'
            || (s[line.len() as int] == '\r' && line.len() + 1 < s.len() && s[line.len() as int + 1]
            == '\n')),
{
    let feed = seq!['\n'];
    a_part_is_found_where_it_first_stands(s, feed, 0);
    if let Some(line) = first_line_of(s) {
        if line.contains('\n') {
            let k = choose|k: int| 0 <= k < line.len() && line[k] == '\n';
            assert(s[k] == '\n');
            assert(s.subrange(k, k + feed.len()) =~= feed);
        }
        if found_from(s, feed, 0) is Some {
            let at = found_from(s, feed, 0)->0;
            assert(s.subrange(at, at + feed.len())[0] == '\n');
            assert(s[at] == '\n');
        }
        assert(s.take(line.len() as int) =~= line);
    }
}

/// The tail of a text is the longest that fits: one character more does not.
pub proof fn a_tail_is_the_longest(s: Seq<char>, max: nat)
    ensures
        tail_of(s, max).len() < s.len() ==> bytes_of(s.skip(s.len() - tail_of(s, max).len() - 1))
            > max,
    decreases s.len(),
{
    if !(bytes_of(s) <= max || s.len() == 0) {
        let rest = s.skip(1);
        a_tail_is_the_longest(rest, max);
        tail_fits(rest, max);
        let t = tail_of(rest, max);
        if t.len() == rest.len() {
            assert(s.skip(0) =~= s);
        } else {
            assert(rest.skip(rest.len() - t.len() - 1) =~= s.skip(s.len() - t.len() - 1));
        }
    }
}

/// Only a text of digits, after one plus sign or none, is read as a number, and
/// none above the limit.
pub proof fn only_digits_are_read(s: Seq<char>, max: nat)
    ensures
        parsed(s, max) is Some ==> parsed(s, max)->0 <= max && s.len() > 0 && (s[0] == '+' || (
        '0' <= s[0] <= '9')) && forall|i: int|
            1 <= i < s.len() ==> '0' <= #[trigger] s[i] <= '9',
        s.len() == 0 ==> parsed(s, max) is None,
        s.len() == 1 && '0' <= s[0] <= '9' && s[0] as u8 - '0' as u8 <= max ==> parsed(s, max)
            == Some((s[0] as u8 - '0' as u8) as nat),
{
    let d = unsigned_digits(s);
    if parsed(s, max) is Some {
        assert(is_digit(d[0]));
        assert forall|i: int| 1 <= i < s.len() implies '0' <= #[trigger] s[i] <= '9' by {
            if s[0] == '+' {
                assert(d[i - 1] == s[i]);
            } else {
                assert(d[i] == s[i]);
            }
        }
    }
    if s.len() == 1 && '0' <= s[0] <= '9' {
        assert(d == s);
        assert(is_digit(d[0]));
        assert(d.drop_last() =~= Seq::empty());
        reveal_with_fuel(value_of, 2);
        assert(d.last() == s[0]);
    }
}

/// A further digit multiplies by ten and adds itself.
pub proof fn a_further_digit_counts_ten(s: Seq<char>, c: char)
    requires
        '0' <= c <= '9',
    ensures
        value_of(s.push(c)) == value_of(s) * 10 + (c as u8 - '0' as u8),
{
    assert(s.push(c).drop_last() =~= s);
}

/// A sign is read as one: a minus gives the negative of what follows, and a sign
/// after a minus gives nothing.
pub proof fn a_minus_is_read_as_one(s: Seq<char>)
    ensures
        s.len() > 0 && s[0] == '-' && parsed_signed(s) is Some ==> parsed_signed(s)->0 <= 0
            && parsed(s.skip(1), 0x8000_0000_0000_0000) == Some((-parsed_signed(s)->0) as nat),
        s.len() > 1 && s[0] == '-' && s[1] == '+' ==> parsed_signed(s) is None,
        s.len() > 0 && s[0] != '-' ==> (parsed_signed(s) is Some <==> parsed(
            s,
            0x7fff_ffff_ffff_ffff,
        ) is Some),
        s.len() > 0 && s[0] != '-' && parsed_signed(s) is Some ==> parsed_signed(s)->0 >= 0,
{
}

} // verus!
