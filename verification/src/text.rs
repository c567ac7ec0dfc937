use vstd::prelude::*;
use vstd::string::StringExecFns;

verus! {

/// ASCII lower-casing of one character: `A`..`Z` map to `a`..`z`, every
/// other character is kept.
pub open spec fn ascii_lower(c: char) -> char {
    if 'A' <= c && c <= 'Z' {
        ((c as u32) + 32) as char
    } else {
        c
    }
}

/// ASCII upper-casing of one character: `a`..`z` map to `A`..`Z`, every
/// other character is kept.
pub open spec fn ascii_upper(c: char) -> char {
    if 'a' <= c && c <= 'z' {
        ((c as u32) - 32) as char
    } else {
        c
    }
}

/// Whether `s` equals `t` once `s` is ASCII lower-cased (`t` is compared as is).
pub open spec fn lower_matches(s: Seq<char>, t: Seq<char>) -> bool {
    &&& s.len() == t.len()
    &&& forall|i: int| 0 <= i < s.len() ==> ascii_lower(#[trigger] s[i]) == t[i]
}

/// Whether `s` equals `t` once `s` is ASCII upper-cased (`t` is compared as is).
pub open spec fn upper_matches(s: Seq<char>, t: Seq<char>) -> bool {
    &&& s.len() == t.len()
    &&& forall|i: int| 0 <= i < s.len() ==> ascii_upper(#[trigger] s[i]) == t[i]
}

/// The text of an optional string.
pub open spec fn opt_text(o: Option<String>) -> Option<Seq<char>> {
    match o {
        Some(s) => Some(s@),
        None => None,
    }
}

/// `s` with every ASCII capital letter lower-cased.
pub open spec fn lowered(s: Seq<char>) -> Seq<char> {
    s.map_values(|c: char| ascii_lower(c))
}

/// `s` with every ASCII small letter upper-cased.
pub open spec fn uppered(s: Seq<char>) -> Seq<char> {
    s.map_values(|c: char| ascii_upper(c))
}

/// Calls `str::to_ascii_lowercase`, which maps `A`..`Z` to `a`..`z` and
/// keeps every other character.
#[verifier::external_body]
pub(crate) fn to_ascii_lower(s: &str) -> (r: String)
    ensures
        r@ == lowered(s@),
{
    s.to_ascii_lowercase()
}

/// Calls `str::to_ascii_uppercase`, which maps `a`..`z` to `A`..`Z` and
/// keeps every other character.
#[verifier::external_body]
pub(crate) fn to_ascii_upper(s: &str) -> (r: String)
    ensures
        r@ == uppered(s@),
{
    s.to_ascii_uppercase()
}

/// Lower-casing forgets whether a letter was upper-cased first, and the
/// other way round.
pub proof fn lemma_case_maps(c: char)
    ensures
        ascii_lower(ascii_upper(c)) == ascii_lower(c),
        ascii_upper(ascii_lower(c)) == ascii_upper(c),
{
    if 'a' <= c && c <= 'z' {
        let u = ascii_upper(c);
        assert(u as u32 == (c as u32) - 32);
        assert('A' <= u && u <= 'Z');
        assert((((u as u32) + 32) as char) as u32 == c as u32);
    }
    if 'A' <= c && c <= 'Z' {
        let l = ascii_lower(c);
        assert(l as u32 == (c as u32) + 32);
        assert('a' <= l && l <= 'z');
        assert((((l as u32) - 32) as char) as u32 == c as u32);
    }
}

/// A text lower-cases the same whether or not it was upper-cased first,
/// and the other way round.
pub proof fn lemma_case_maps_seq(s: Seq<char>)
    ensures
        lowered(uppered(s)) == lowered(s),
        uppered(lowered(s)) == uppered(s),
{
    assert forall|i: int| 0 <= i < s.len() implies #[trigger] lowered(uppered(s))[i] == lowered(s)[i] by {
        lemma_case_maps(s[i]);
    }
    assert forall|i: int| 0 <= i < s.len() implies #[trigger] uppered(lowered(s))[i] == uppered(s)[i] by {
        lemma_case_maps(s[i]);
    }
    assert(lowered(uppered(s)) =~= lowered(s));
    assert(uppered(lowered(s)) =~= uppered(s));
}

/// Character-wise equality of two string slices.
pub fn str_eq(a: &str, b: &str) -> (r: bool)
    ensures
        r == (a@ == b@),
{
    let n = a.unicode_len();
    let m = b.unicode_len();
    if n != m {
        return false;
    }
    let mut i: usize = 0;
    while i < n
        invariant
            n == a@.len(),
            m == b@.len(),
            n == m,
            i <= n,
            forall|j: int| 0 <= j < i ==> a@[j] == b@[j],
        decreases n - i,
    {
        if a.get_char(i) != b.get_char(i) {
            return false;
        }
        i = i + 1;
    }
    assert(a@ =~= b@);
    true
}

fn char_lower_eq(c: char, d: char) -> (r: bool)
    ensures
        r == (ascii_lower(c) == d),
{
    if 'A' <= c && c <= 'Z' {
        let cu = c as u32;
        let du = d as u32;
        assert(ascii_lower(c) == d <==> cu + 32 == du) by {
            assert((((c as u32) + 32) as char) as u32 == (c as u32) + 32);
        }
        cu + 32 == du
    } else {
        c == d
    }
}

fn char_upper_eq(c: char, d: char) -> (r: bool)
    ensures
        r == (ascii_upper(c) == d),
{
    if 'a' <= c && c <= 'z' {
        let cu = c as u32;
        let du = d as u32;
        assert(ascii_upper(c) == d <==> cu - 32 == du) by {
            assert((((c as u32) - 32) as char) as u32 == (c as u32) - 32);
        }
        cu - 32 == du
    } else {
        c == d
    }
}

/// Whether `s`, ASCII lower-cased, equals `t`.
pub fn eq_lowered(s: &str, t: &str) -> (r: bool)
    ensures
        r == lower_matches(s@, t@),
{
    let n = s.unicode_len();
    let m = t.unicode_len();
    if n != m {
        return false;
    }
    let mut i: usize = 0;
    while i < n
        invariant
            n == s@.len(),
            m == t@.len(),
            n == m,
            i <= n,
            forall|j: int| 0 <= j < i ==> ascii_lower(#[trigger] s@[j]) == t@[j],
        decreases n - i,
    {
        if !char_lower_eq(s.get_char(i), t.get_char(i)) {
            return false;
        }
        i = i + 1;
    }
    true
}

/// Whether `s`, ASCII upper-cased, equals `t`.
pub fn eq_uppered(s: &str, t: &str) -> (r: bool)
    ensures
        r == upper_matches(s@, t@),
{
    let n = s.unicode_len();
    let m = t.unicode_len();
    if n != m {
        return false;
    }
    let mut i: usize = 0;
    while i < n
        invariant
            n == s@.len(),
            m == t@.len(),
            n == m,
            i <= n,
            forall|j: int| 0 <= j < i ==> ascii_upper(#[trigger] s@[j]) == t@[j],
        decreases n - i,
    {
        if !char_upper_eq(s.get_char(i), t.get_char(i)) {
            return false;
        }
        i = i + 1;
    }
    true
}


pub open spec fn is_digit(c: char) -> bool {
    '0' <= c && c <= '9'
}

pub open spec fn digit_value(c: char) -> int {
    (c as int) - ('0' as int)
}

/// Value of a string of decimal digits, most significant first.
pub open spec fn decimal_value(s: Seq<char>) -> int
    decreases s.len(),
{
    if s.len() == 0 {
        0
    } else {
        decimal_value(s.drop_last()) * 10 + digit_value(s.last())
    }
}

pub open spec fn all_digits(s: Seq<char>) -> bool {
    forall|i: int| 0 <= i < s.len() ==> is_digit(#[trigger] s[i])
}

/// The digits of an unsigned decimal literal: one leading `+` is allowed.
pub open spec fn unsigned_digits(s: Seq<char>) -> Seq<char> {
    if s.len() > 0 && s[0] == '+' {
        s.drop_first()
    } else {
        s
    }
}

/// The value of a run of decimal digits as a `u64`: at least one digit,
/// nothing but digits, and a value that fits in 64 bits.
pub open spec fn digits_u64_spec(d: Seq<char>) -> Option<u64> {
    if d.len() > 0 && all_digits(d) && decimal_value(d) <= u64::MAX {
        Some(decimal_value(d) as u64)
    } else {
        None
    }
}

/// What parsing `s` as a `u64` gives: an optional `+`, then at least one
/// decimal digit and nothing else, with a value that fits in 64 bits.
pub open spec fn parse_u64_spec(s: Seq<char>) -> Option<u64> {
    digits_u64_spec(unsigned_digits(s))
}

proof fn lemma_decimal_nonneg(s: Seq<char>)
    requires
        all_digits(s),
    ensures
        decimal_value(s) >= 0,
    decreases s.len(),
{
    if s.len() > 0 {
        assert(all_digits(s.drop_last()));
        lemma_decimal_nonneg(s.drop_last());
        assert(is_digit(s[s.len() - 1]));
    }
}

proof fn lemma_decimal_prefix_grows(s: Seq<char>, i: int, j: int)
    requires
        all_digits(s),
        0 <= i <= j <= s.len(),
    ensures
        decimal_value(s.take(i)) <= decimal_value(s.take(j)),
    decreases j - i,
{
    if i < j {
        lemma_decimal_prefix_grows(s, i, j - 1);
        let t = s.take(j);
        assert(t.drop_last() =~= s.take(j - 1));
        assert(all_digits(s.take(j - 1)));
        lemma_decimal_nonneg(s.take(j - 1));
        assert(is_digit(s[j - 1]));
        assert(t.last() == s[j - 1]);
        assert(decimal_value(s.take(j - 1)) <= decimal_value(s.take(j))) by (nonlinear_arith)
            requires
                decimal_value(s.take(j - 1)) >= 0,
                decimal_value(s.take(j)) == decimal_value(s.take(j - 1)) * 10 + digit_value(s[j - 1]),
                digit_value(s[j - 1]) >= 0,
        ;
    }
}

/// Reads the characters of `s` from position `start` on as a run of
/// decimal digits.
pub fn digits_from(s: &str, start: usize) -> (r: Option<u64>)
    requires
        start <= s@.len(),
    ensures
        r == digits_u64_spec(s@.subrange(start as int, s@.len() as int)),
{
    let n = s.unicode_len();
    let ghost d = s@.subrange(start as int, n as int);
    if start == n {
        return None;
    }
    let mut acc: u64 = 0;
    let mut i: usize = start;
    while i < n
        invariant
            n == s@.len(),
            start <= i <= n,
            d =~= s@.subrange(start as int, n as int),
            all_digits(d.take(i - start)),
            acc as int == decimal_value(d.take(i - start)),
        decreases n - i,
    {
        let c = s.get_char(i);
        if !('0' <= c && c <= '9') {
            assert(d[i - start] == c);
            assert(!all_digits(d));
            return None;
        }
        let dv = (c as u32 - '0' as u32) as u64;
        let k = i - start;
        assert(d.take(k + 1).drop_last() =~= d.take(k as int));
        assert(d.take(k + 1).last() == c);
        assert(all_digits(d.take(k as int)));
        assert(all_digits(d.take(k + 1)));
        assert(decimal_value(d.take(k + 1)) == acc * 10 + dv);
        if acc > 1844674407370955161u64 || (acc == 1844674407370955161u64 && dv > 5) {
            // the value read so far no longer fits; digits only add to it
            proof {
                if all_digits(d) {
                    lemma_decimal_prefix_grows(d, k + 1, d.len() as int);
                    assert(d.take(d.len() as int) =~= d);
                }
            }
            return None;
        }
        acc = acc * 10 + dv;
        i = i + 1;
    }
    assert(d.take(n - start) =~= d);
    Some(acc)
}

/// Parses an unsigned decimal integer the way `u64::from_str` does: an
/// optional leading `+`, then one or more ASCII digits, and no overflow.
pub fn parse_u64(s: &str) -> (r: Option<u64>)
    ensures
        r == parse_u64_spec(s@),
{
    let n = s.unicode_len();
    if n > 0 && s.get_char(0) == '+' {
        assert(unsigned_digits(s@) =~= s@.subrange(1, n as int));
        digits_from(s, 1)
    } else {
        assert(unsigned_digits(s@) =~= s@.subrange(0, n as int));
        digits_from(s, 0)
    }
}

/// What a JSON number's text gives as an `i64`: an optional `-`, then
/// digits whose value fits in 64-bit two's complement.
pub open spec fn json_i64_spec(t: Seq<char>) -> Option<i64> {
    if t.len() > 0 && t[0] == '-' {
        let d = t.drop_first();
        if d.len() > 0 && all_digits(d) && decimal_value(d) <= 9223372036854775808 {
            Some((-decimal_value(d)) as i64)
        } else {
            None
        }
    } else {
        match digits_u64_spec(t) {
            Some(v) => if v <= i64::MAX {
                Some(v as i64)
            } else {
                None
            },
            None => None,
        }
    }
}

/// Reads a JSON number's text as an `i64`.
pub fn json_i64(t: &str) -> (r: Option<i64>)
    ensures
        r == json_i64_spec(t@),
{
    let n = t.unicode_len();
    if n > 0 && t.get_char(0) == '-' {
        assert(t@.drop_first() =~= t@.subrange(1, n as int));
        match digits_from(t, 1) {
            Some(v) => {
                proof {
                    lemma_decimal_nonneg(t@.drop_first());
                }
                if v < 9223372036854775808u64 {
                    let w = v as i64;
                    Some(-w)
                } else if v == 9223372036854775808u64 {
                    Some(i64::MIN)
                } else {
                    None
                }
            },
            None => None,
        }
    } else {
        assert(t@ =~= t@.subrange(0, n as int));
        match digits_from(t, 0) {
            Some(v) => if v <= 9223372036854775807u64 {
                Some(v as i64)
            } else {
                None
            },
            None => None,
        }
    }
}

/// The decimal digit character of `d`.
pub open spec fn digit_char(d: nat) -> char {
    if d == 0 { '0' } else if d == 1 { '1' } else if d == 2 { '2' } else if d == 3 { '3' } else if d
        == 4 { '4' } else if d == 5 { '5' } else if d == 6 { '6' } else if d == 7 { '7' } else if d
        == 8 { '8' } else { '9' }
}

/// The decimal text of `n`, without leading zeros.
pub open spec fn decimal_text(n: nat) -> Seq<char>
    decreases n,
{
    if n < 10 {
        seq![digit_char(n)]
    } else {
        decimal_text(n / 10).push(digit_char(n % 10))
    }
}

fn digit_str(d: u64) -> (r: &'static str)
    requires
        d < 10,
    ensures
        r@ == seq![digit_char(d as nat)],
{
    proof {
        reveal_strlit("0");
        reveal_strlit("1");
        reveal_strlit("2");
        reveal_strlit("3");
        reveal_strlit("4");
        reveal_strlit("5");
        reveal_strlit("6");
        reveal_strlit("7");
        reveal_strlit("8");
        reveal_strlit("9");
    }
    let r = if d == 0 { "0" } else if d == 1 { "1" } else if d == 2 { "2" } else if d == 3 { "3" } else if d
        == 4 { "4" } else if d == 5 { "5" } else if d == 6 { "6" } else if d == 7 { "7" } else if d
        == 8 { "8" } else { "9" };
    assert(r@ =~= seq![digit_char(d as nat)]);
    r
}

/// Writes `n` in decimal.
pub fn decimal_string(n: u64) -> (r: String)
    ensures
        r@ == decimal_text(n as nat),
    decreases n,
{
    if n < 10 {
        String::from_str(digit_str(n))
    } else {
        let mut s = decimal_string(n / 10);
        s.append(digit_str(n % 10));
        s
    }
}

proof fn lemma_digit_char(d: nat)
    requires
        d < 10,
    ensures
        is_digit(digit_char(d)),
        digit_value(digit_char(d)) == d,
{
}

/// The decimal text of a number is a run of digits whose value is the
/// number.
pub proof fn lemma_decimal_text(n: nat)
    ensures
        decimal_text(n).len() > 0,
        all_digits(decimal_text(n)),
        decimal_value(decimal_text(n)) == n,
    decreases n,
{
    if n < 10 {
        lemma_digit_char(n);
        let s = decimal_text(n);
        assert(s.drop_last() =~= Seq::<char>::empty());
        assert(decimal_value(s) == decimal_value(s.drop_last()) * 10 + digit_value(s.last()));
    } else {
        lemma_decimal_text(n / 10);
        lemma_digit_char(n % 10);
        let p = decimal_text(n / 10);
        let s = decimal_text(n);
        assert(s == p.push(digit_char(n % 10)));
        assert(s.drop_last() =~= p);
        assert forall|i: int| 0 <= i < s.len() implies is_digit(#[trigger] s[i]) by {
            if i < p.len() {
                assert(s[i] == p[i]);
            }
        }
        assert(decimal_value(s) == decimal_value(p) * 10 + digit_value(digit_char(n % 10)));
        assert((n / 10) * 10 + n % 10 == n) by (nonlinear_arith);
    }
}

/// Parsing the decimal text of a number gives the number back.
pub proof fn law_decimal_round_trip(n: u64)
    ensures
        parse_u64_spec(decimal_text(n as nat)) == Some(n),
{
    let s = decimal_text(n as nat);
    lemma_decimal_text(n as nat);
    assert(is_digit(s[0]));
    assert(unsigned_digits(s) == s);
}

/// The decimal text of an integer, with a leading `-` when negative.
pub open spec fn int_text(t: int) -> Seq<char> {
    if t < 0 {
        seq!['-'] + decimal_text((-t) as nat)
    } else {
        decimal_text(t as nat)
    }
}

/// Writes a signed integer in decimal.
pub fn i64_string(t: i64) -> (r: String)
    ensures
        r@ == int_text(t as int),
{
    if t < 0 {
        let wide: i128 = t as i128;
        let mag: u64 = (-wide) as u64;
        let mut s = String::from_str("-");
        let d = decimal_string(mag);
        s.append(d.as_str());
        proof {
            reveal_strlit("-");
            assert("-"@ =~= seq!['-']);
        }
        s
    } else {
        decimal_string(t as u64)
    }
}

/// Reading the decimal text of an `i64` as a JSON integer gives it back.
pub proof fn law_i64_text_round_trip(t: i64)
    ensures
        json_i64_spec(int_text(t as int)) == Some(t),
{
    if t < 0 {
        let d = decimal_text((-t) as nat);
        lemma_decimal_text((-t) as nat);
        let s = int_text(t as int);
        assert(s[0] == '-');
        assert(s.drop_first() =~= d);
    } else {
        lemma_decimal_text(t as nat);
        let s = decimal_text(t as nat);
        assert(is_digit(s[0]));
    }
}

/// A decimal text reads as its number with or without a leading `+`; a
/// leading `-`, an empty text or a lone `+` reads as nothing.
pub proof fn law_parse_u64_sign(n: u64, s: Seq<char>)
    ensures
        parse_u64_spec(decimal_text(n as nat)) == Some(n),
        parse_u64_spec(seq!['+'] + decimal_text(n as nat)) == Some(n),
        parse_u64_spec(seq!['-'] + s) is None,
        parse_u64_spec(Seq::<char>::empty()) is None,
        parse_u64_spec(seq!['+']) is None,
{
    law_decimal_round_trip(n);
    let d = decimal_text(n as nat);
    lemma_decimal_text(n as nat);
    assert((seq!['+'] + d).drop_first() =~= d);
    assert(unsigned_digits(seq!['+'] + d) =~= d);
    let m = seq!['-'] + s;
    assert(unsigned_digits(m) == m);
    assert(!is_digit(m[0]));
    assert(unsigned_digits(seq!['+']) =~= Seq::<char>::empty());
}

} // verus!
