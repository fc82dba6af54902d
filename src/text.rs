//! Text handling for ASCII payloads and command lines: UTF-8 conversion,
//! decimal numbers, comma-separated fields and the single-quote convention.
use vstd::prelude::*;
use vstd::string::StrSliceExecFns;
use vstd::string::StringExecFns;
use vstd::utf8::{decode_utf8, encode_utf8, valid_utf8};

verus! {

/// The characters that `String::from_utf8_lossy` makes of `b`.
pub uninterp spec fn lossy_text(b: Seq<u8>) -> Seq<char>;

/// Relies on `String::from_utf8_lossy`: valid UTF-8 is decoded as it stands;
/// what else it yields depends on the bytes alone.
#[verifier::external_body]
pub(crate) fn lossy_utf8(b: &[u8]) -> (r: String)
    ensures
        r@ == lossy_text(b@),
        valid_utf8(b@) ==> r@ == decode_utf8(b@),
{
    String::from_utf8_lossy(b).to_string()
}

/// Relies on `std::str::from_utf8`: it accepts exactly the valid UTF-8
/// sequences and then holds their characters.
#[verifier::external_body]
fn utf8_str<'a>(b: &'a [u8]) -> (r: Option<&'a str>)
    ensures
        r is Some <==> valid_utf8(b@),
        r is Some ==> r->Some_0@ == decode_utf8(b@),
{
    std::str::from_utf8(b).ok()
}

/// Converts a payload to a `String`; it must be valid UTF-8.
pub fn convert_string(payload: &[u8]) -> (r: Option<String>)
    ensures
        r is Some <==> valid_utf8(payload@),
        r is Some ==> r->Some_0@ == decode_utf8(payload@),
{
    match utf8_str(payload) {
        Some(s) => Some(s.to_owned()),
        None => None,
    }
}

pub open spec fn is_digit(c: char) -> bool {
    '0' <= c <= '9'
}

pub open spec fn all_digits(s: Seq<char>) -> bool {
    forall|i: int| 0 <= i < s.len() ==> is_digit(#[trigger] s[i])
}

/// The number that a run of decimal digits denotes.
pub open spec fn digits_value(s: Seq<char>) -> int
    decreases s.len(),
{
    if s.len() == 0 {
        0
    } else {
        digits_value(s.drop_last()) * 10 + (s.last() as int - '0' as int)
    }
}

/// `s` is one or more decimal digits denoting at most `max`: its value.
pub open spec fn digits_text(s: Seq<char>, max: int) -> Option<int> {
    if s.len() > 0 && all_digits(s) && digits_value(s) <= max {
        Some(digits_value(s))
    } else {
        None
    }
}

/// What `str::parse` makes of `s` for an unsigned type whose largest value
/// is `max`: an optional `+`, then decimal digits.
pub open spec fn unsigned_text(s: Seq<char>, max: int) -> Option<int> {
    if s.len() > 0 && s[0] == '+' {
        digits_text(s.drop_first(), max)
    } else {
        digits_text(s, max)
    }
}

/// What `str::parse::<i16>` makes of `s`: an optional sign, then decimal
/// digits, in range.
pub open spec fn i16_text(s: Seq<char>) -> Option<int> {
    if s.len() > 0 && s[0] == '-' {
        match digits_text(s.drop_first(), 32768) {
            Some(v) => Some(-v),
            None => None,
        }
    } else {
        unsigned_text(s, 32767)
    }
}

proof fn lemma_digits_prefix(s: Seq<char>, j: int)
    requires
        all_digits(s),
        0 <= j <= s.len(),
    ensures
        digits_value(s) >= digits_value(s.subrange(0, j)),
        digits_value(s) >= 0,
    decreases s.len(),
{
    if s.len() > 0 {
        let t = s.drop_last();
        assert(all_digits(t)) by {
            assert forall|i: int| 0 <= i < t.len() implies is_digit(#[trigger] t[i]) by {
                assert(t[i] == s[i]);
            }
        }
        assert(is_digit(s[s.len() - 1]));
        if j == s.len() {
            assert(s.subrange(0, j) =~= s);
            lemma_digits_prefix(t, 0);
        } else {
            lemma_digits_prefix(t, j);
            assert(t.subrange(0, j) =~= s.subrange(0, j));
        }
    }
}

fn char_digit(c: char) -> (r: Option<u64>)
    ensures
        r is Some <==> is_digit(c),
        r is Some ==> r->Some_0 == c as int - '0' as int,
{
    if '0' <= c && c <= '9' {
        Some((c as u32 - '0' as u32) as u64)
    } else {
        None
    }
}

/// Parses the characters of `s` from `start` on as one or more decimal digits
/// denoting at most `max`.
fn parse_digits_from(s: &str, start: usize, max: u64) -> (r: Option<u64>)
    requires
        start <= s@.len(),
    ensures
        match r {
            Some(v) => digits_text(s@.subrange(start as int, s@.len() as int), max as int) == Some(
                v as int,
            ),
            None => digits_text(s@.subrange(start as int, s@.len() as int), max as int) is None,
        },
{
    let ghost body = s@.subrange(start as int, s@.len() as int);
    let len = s.unicode_len();
    if start >= len {
        return None;
    }
    let mut acc: u64 = 0;
    let mut i = start;
    while i < len
        invariant
            len == s@.len(),
            start <= i <= len,
            body == s@.subrange(start as int, s@.len() as int),
            all_digits(s@.subrange(start as int, i as int)),
            acc == digits_value(s@.subrange(start as int, i as int)),
            acc <= max,
        decreases len - i,
    {
        let ghost pre = s@.subrange(start as int, i as int);
        let ghost next = s@.subrange(start as int, i + 1);
        assert(next.drop_last() =~= pre);
        assert(next.last() == s@[i as int]);
        let c = s.get_char(i);
        let d = match char_digit(c) {
            Some(d) => d,
            None => {
                assert(body[i - start] == c);
                return None;
            },
        };
        assert(all_digits(next)) by {
            assert forall|k: int| 0 <= k < next.len() implies is_digit(#[trigger] next[k]) by {
                if k < pre.len() {
                    assert(next[k] == pre[k]);
                }
            }
        }
        if d > max || acc > (max - d) / 10 {
            proof {
                assert(acc * 10 + d > max) by (nonlinear_arith)
                    requires
                        d > max || acc > (max - d) / 10,
                        d <= 9,
                ;
                if all_digits(body) {
                    assert(body.subrange(0, i + 1 - start) =~= next);
                    lemma_digits_prefix(body, i + 1 - start);
                }
            }
            return None;
        }
        assert(acc * 10 + d <= max) by (nonlinear_arith)
            requires
                d <= max,
                acc <= (max - d) / 10,
        ;
        acc = acc * 10 + d;
        i = i + 1;
    }
    assert(s@.subrange(start as int, i as int) =~= body);
    Some(acc)
}

/// Parses `s` as `str::parse` does for an unsigned type whose largest value
/// is `max`.
pub fn parse_unsigned(s: &str, max: u64) -> (r: Option<u64>)
    ensures
        match r {
            Some(v) => unsigned_text(s@, max as int) == Some(v as int),
            None => unsigned_text(s@, max as int) is None,
        },
{
    let len = s.unicode_len();
    if len > 0 && s.get_char(0) == '+' {
        assert(s@.subrange(1, s@.len() as int) =~= s@.drop_first());
        parse_digits_from(s, 1, max)
    } else {
        assert(s@.subrange(0, s@.len() as int) =~= s@);
        parse_digits_from(s, 0, max)
    }
}

/// Parses `s` as `str::parse::<i16>` does.
pub fn parse_i16(s: &str) -> (r: Option<i16>)
    ensures
        match r {
            Some(v) => i16_text(s@) == Some(v as int),
            None => i16_text(s@) is None,
        },
{
    let len = s.unicode_len();
    if len > 0 && s.get_char(0) == '-' {
        assert(s@.subrange(1, s@.len() as int) =~= s@.drop_first());
        match parse_digits_from(s, 1, 32768) {
            Some(v) => {
                if v == 32768 {
                    Some(-32767i16 - 1)
                } else {
                    Some(-(v as i16))
                }
            },
            None => None,
        }
    } else {
        match parse_unsigned(s, 32767) {
            Some(v) => Some(v as i16),
            None => None,
        }
    }
}

/// The comma-separated fields of `s`, as `str::split(',')` yields them.
pub open spec fn split_commas(s: Seq<char>) -> Seq<Seq<char>>
    decreases s.len(),
{
    if s.len() == 0 {
        seq![Seq::<char>::empty()]
    } else if s.last() == ',' {
        split_commas(s.drop_last()).push(Seq::<char>::empty())
    } else {
        let p = split_commas(s.drop_last());
        p.update(p.len() - 1, p.last().push(s.last()))
    }
}

pub proof fn lemma_split_commas_nonempty(s: Seq<char>)
    ensures
        split_commas(s).len() >= 1,
    decreases s.len(),
{
    if s.len() > 0 {
        lemma_split_commas_nonempty(s.drop_last());
    }
}

/// The views of a sequence of strings.
pub open spec fn views_of(v: Seq<String>) -> Seq<Seq<char>> {
    v.map_values(|x: String| x@)
}

/// Splits `s` at every comma.
pub fn split_fields(s: &str) -> (r: Vec<String>)
    ensures
        views_of(r@) == split_commas(s@),
{
    let len = s.unicode_len();
    let mut fields: Vec<String> = Vec::new();
    let mut start: usize = 0;
    let mut i: usize = 0;
    assert(s@.subrange(0, 0) =~= Seq::<char>::empty());
    assert(views_of(fields@).push(Seq::<char>::empty()) =~= seq![Seq::<char>::empty()]);
    while i < len
        invariant
            len == s@.len(),
            start <= i <= len,
            views_of(fields@).push(s@.subrange(start as int, i as int)) =~= split_commas(
                s@.subrange(0, i as int),
            ),
        decreases len - i,
    {
        let ghost pre = s@.subrange(0, i as int);
        let ghost next = s@.subrange(0, i + 1);
        assert(next.drop_last() =~= pre);
        assert(next.last() == s@[i as int]);
        let c = s.get_char(i);
        let ghost prev = views_of(fields@).push(s@.subrange(start as int, i as int));
        if c == ',' {
            let ghost before = fields@;
            let field = s.substring_char(start, i).to_owned();
            fields.push(field);
            assert(views_of(fields@) =~= views_of(before).push(field@));
            start = i + 1;
            assert(s@.subrange(start as int, i + 1) =~= Seq::<char>::empty());
        } else {
            let ghost grown = s@.subrange(start as int, i + 1);
            assert(grown =~= s@.subrange(start as int, i as int).push(c));
            assert(prev.update(prev.len() - 1, prev.last().push(c)) =~= views_of(fields@).push(
                grown,
            ));
        }
        i = i + 1;
    }
    let last = s.substring_char(start, len).to_owned();
    let ghost before = fields@;
    fields.push(last);
    assert(s@.subrange(0, len as int) =~= s@);
    assert(views_of(fields@) =~= views_of(before).push(last@));
    fields
}

/// `s` without its first and last character (the quotes of a quoted
/// setting); empty when `s` is shorter than two characters.
pub open spec fn stripped(s: Seq<char>) -> Seq<char> {
    if s.len() >= 2 {
        s.subrange(1, s.len() - 1)
    } else {
        Seq::<char>::empty()
    }
}

/// Removes the quoting characters around a setting's text.
pub fn strip_string(s: &str) -> (r: String)
    ensures
        r@ == stripped(s@),
{
    let len = s.unicode_len();
    if len >= 2 {
        s.substring_char(1, len - 1).to_owned()
    } else {
        String::new()
    }
}

/// `s` between single quotes.
pub open spec fn enclosed(s: Seq<char>) -> Seq<char> {
    seq!['\''] + s + seq!['\'']
}

/// Puts `s` between single quotes.
pub fn enclose_string(s: &str) -> (r: String)
    ensures
        r@ == enclosed(s@),
{
    let quote = "'";
    proof {
        reveal_strlit("'");
    }
    let r = String::from_str(quote).concat(s).concat(quote);
    assert(r@ =~= enclosed(s@));
    r
}

/// The ASCII decimal digits of `n`, most significant first.
pub open spec fn decimal_digits(n: nat) -> Seq<u8>
    decreases n,
{
    if n < 10 {
        seq![(48 + n) as u8]
    } else {
        decimal_digits(n / 10).push((48 + n % 10) as u8)
    }
}

/// The ASCII decimal text of `i`, with a leading `-` when it is negative.
pub open spec fn signed_digits(i: int) -> Seq<u8> {
    if i < 0 {
        seq![45u8] + decimal_digits((-i) as nat)
    } else {
        decimal_digits(i as nat)
    }
}

/// The UTF-8 bytes of `s`.
pub open spec fn utf8(s: Seq<char>) -> Seq<u8> {
    encode_utf8(s)
}

/// Appends the bytes of `src`.
pub fn push_bytes(dst: &mut Vec<u8>, src: &[u8])
    ensures
        final(dst)@ == old(dst)@ + src@,
{
    let mut i: usize = 0;
    let ghost start = dst@;
    while i < src.len()
        invariant
            i <= src@.len(),
            dst@ =~= start + src@.subrange(0, i as int),
        decreases src@.len() - i,
    {
        dst.push(src[i]);
        i = i + 1;
    }
    assert(src@.subrange(0, src@.len() as int) =~= src@);
}

/// Appends the UTF-8 bytes of `s`.
pub fn push_str(dst: &mut Vec<u8>, s: &str)
    ensures
        final(dst)@ == old(dst)@ + utf8(s@),
{
    push_bytes(dst, s.as_bytes());
}

/// Appends the decimal digits of `n`.
pub fn push_decimal(dst: &mut Vec<u8>, n: u64)
    ensures
        final(dst)@ == old(dst)@ + decimal_digits(n as nat),
{
    let mut digits: Vec<u8> = Vec::new();
    let mut m = n;
    while m >= 10
        invariant
            decimal_digits(n as nat) =~= decimal_digits(m as nat) + digits@,
        decreases m,
    {
        let d = (48 + m % 10) as u8;
        digits.insert(0, d);
        assert(decimal_digits(m as nat) == decimal_digits((m / 10) as nat).push(d));
        m = m / 10;
    }
    digits.insert(0, (48 + m) as u8);
    assert(decimal_digits(n as nat) =~= digits@);
    push_bytes(dst, digits.as_slice());
}

/// Appends the decimal text of `i`, signed.
pub fn push_signed(dst: &mut Vec<u8>, i: i16)
    ensures
        final(dst)@ == old(dst)@ + signed_digits(i as int),
{
    if i < 0 {
        dst.push(45u8);
        let ghost mid = dst@;
        push_decimal(dst, (0 - (i as i32)) as u64);
        assert(dst@ =~= old(dst)@ + signed_digits(i as int));
    } else {
        push_decimal(dst, i as u64);
    }
}

/// Whether two strings hold the same characters.
pub fn str_eq(a: &str, b: &str) -> (r: bool)
    ensures
        r == (a@ == b@),
{
    let n = a.unicode_len();
    if n != b.unicode_len() {
        return false;
    }
    let mut i: usize = 0;
    while i < n
        invariant
            n == a@.len(),
            n == b@.len(),
            i <= n,
            forall|k: int| 0 <= k < i ==> a@[k] == b@[k],
        decreases n - i,
    {
        if a.get_char(i) != b.get_char(i) {
            return false;
        }
        i = i + 1;
    }
    assert(a@ =~= b@);
    true
}

/// `s` between double quotes.
pub fn quoted_string(s: &str) -> (r: String)
    ensures
        r@ == seq!['"'] + s@ + seq!['"'],
{
    let quote = "\"";
    proof {
        reveal_strlit("\"");
    }
    String::from_str(quote).concat(s).concat(quote)
}

} // verus!
