//! Retrieval helpers owned by the bindings: the static query expander of
//! the multi-query retriever and the sentence filter of the contextual
//! compression retriever.

use vstd::prelude::*;
use vstd::string::StringExecFns;

use crate::memory::texts_of;
use crate::text::{decimal_string, decimal_text, law_decimal_round_trip, parse_u64_spec, str_eq};

verus! {

/// The variants a multi-query retriever expands with when none are given:
/// `variant0`, `variant1`, … for at least one query.
pub open spec fn default_variant(i: nat) -> Seq<char> {
    "variant"@ + decimal_text(i)
}

/// The `i`-th default variant is `variant` followed by `i` in decimal: the
/// text after `variant` reads back as `i`.
pub proof fn law_default_variant(i: u64)
    ensures
        default_variant(i as nat).take(7) == "variant"@,
        parse_u64_spec(default_variant(i as nat).skip(7)) == Some(i),
{
    reveal_strlit("variant");
    let v = default_variant(i as nat);
    assert(v.take(7) =~= "variant"@);
    assert(v.skip(7) =~= decimal_text(i as nat));
    law_decimal_round_trip(i);
}

/// The variants of a multi-query retriever: the given ones, or
/// `variant0` up to `variant<k-1>` with `k` the number of queries (at
/// least one).
pub fn query_variants(n_queries: usize, variants: Option<Vec<String>>) -> (r: Vec<String>)
    ensures
        match variants {
            Some(v) => r@ == v@,
            None => r@.len() == (if n_queries == 0 { 1 } else { n_queries as int }) && forall|i: int|
                0 <= i < r@.len() ==> (#[trigger] r@[i])@ == default_variant(i as nat),
        },
{
    match variants {
        Some(v) => v,
        None => {
            let k: usize = if n_queries == 0 { 1 } else { n_queries };
            let mut out: Vec<String> = Vec::new();
            let mut i: usize = 0;
            while i < k
                invariant
                    i <= k,
                    out@.len() == i,
                    forall|j: int| 0 <= j < i ==> (#[trigger] out@[j])@ == default_variant(j as nat),
                decreases k - i,
            {
                let mut s = String::from_str("variant");
                let d = decimal_string(i as u64);
                s.append(d.as_str());
                out.push(s);
                i = i + 1;
            }
            out
        },
    }
}

/// A query expander that appends fixed suffixes to the query.
pub struct StaticExpander {
    pub variants: Vec<String>,
}

impl StaticExpander {
    /// One query per variant: the query, a space, and the variant.
    pub fn expand(&self, query: &str) -> (r: Vec<String>)
        ensures
            r@.len() == self.variants@.len(),
            forall|i: int|
                0 <= i < r@.len() ==> (#[trigger] r@[i])@ == query@ + " "@ + self.variants@[i]@,
    {
        let mut out: Vec<String> = Vec::new();
        let mut i: usize = 0;
        while i < self.variants.len()
            invariant
                i <= self.variants@.len(),
                out@.len() == i,
                forall|j: int|
                    0 <= j < i ==> (#[trigger] out@[j])@ == query@ + " "@ + self.variants@[j]@,
            decreases self.variants.len() - i,
        {
            let mut s = String::from_str(query);
            s.append(" ");
            s.append(self.variants[i].as_str());
            out.push(s);
            i = i + 1;
        }
        out
    }
}

/// What `str::to_lowercase` gives: the text's Unicode lower-case form (a
/// character may map to several, and a capital sigma maps according to its
/// place in a word).
pub uninterp spec fn unicode_lowercase(s: Seq<char>) -> Seq<char>;

/// Whether a character is alphabetic or numeric in Unicode's sense, as
/// `char::is_alphanumeric` says.
pub uninterp spec fn unicode_alphanumeric(c: char) -> bool;

/// Whether a character has Unicode's `White_Space` property, as
/// `char::is_whitespace` says: the 25 code points U+0009 to U+000D, U+0020,
/// U+0085, U+00A0, U+1680, U+2000 to U+200A, U+2028, U+2029, U+202F,
/// U+205F and U+3000.
pub open spec fn unicode_white_space(c: char) -> bool {
    let u = c as u32;
    ||| 0x09 <= u <= 0x0D
    ||| u == 0x20
    ||| u == 0x85
    ||| u == 0xA0
    ||| u == 0x1680
    ||| 0x2000 <= u <= 0x200A
    ||| u == 0x2028
    ||| u == 0x2029
    ||| u == 0x202F
    ||| u == 0x205F
    ||| u == 0x3000
}

/// Calls `str::to_lowercase`; the contract names its result.
#[verifier::external_body]
fn to_lowercase(s: &str) -> (r: String)
    ensures
        r@ == unicode_lowercase(s@),
{
    s.to_lowercase()
}

/// Calls `char::is_alphanumeric`; the contract names its result.
#[verifier::external_body]
fn is_alphanumeric(c: char) -> (r: bool)
    ensures
        r == unicode_alphanumeric(c),
{
    c.is_alphanumeric()
}

/// Whether `needle` occurs in `hay` as a run of consecutive characters.
pub open spec fn is_substring(needle: Seq<char>, hay: Seq<char>) -> bool {
    exists|i: int| 0 <= i <= hay.len() - needle.len() && #[trigger] hay.subrange(i, i + needle.len()) == needle
}

/// Whether `needle` occurs in `hay`, as `str::contains` decides it for a
/// string pattern.
fn contains_str(hay: &str, needle: &str) -> (r: bool)
    ensures
        r == is_substring(needle@, hay@),
{
    let n = hay.unicode_len();
    let m = needle.unicode_len();
    if m > n {
        return false;
    }
    if m == 0 {
        assert(hay@.subrange(0, 0 + needle@.len() as int) =~= needle@);
        return true;
    }
    let mut i: usize = 0;
    while i <= n - m
        invariant
            n == hay@.len(),
            m == needle@.len(),
            0 < m <= n,
            i <= n - m + 1,
            forall|j: int| 0 <= j < i ==> #[trigger] hay@.subrange(j, j + m) != needle@,
        decreases n - m + 1 - i,
    {
        let part = hay.substring_char(i, i + m);
        if str_eq(part, needle) {
            assert(hay@.subrange(i as int, i + m) == needle@);
            return true;
        }
        i = i + 1;
    }
    false
}

/// The number of leading characters of `s` that are white space.
pub open spec fn leading_ws(s: Seq<char>) -> nat
    decreases s.len(),
{
    if s.len() > 0 && unicode_white_space(s[0]) {
        1 + leading_ws(s.drop_first())
    } else {
        0
    }
}

/// The number of trailing characters of `s` that are white space.
pub open spec fn trailing_ws(s: Seq<char>) -> nat
    decreases s.len(),
{
    if s.len() > 0 && unicode_white_space(s.last()) {
        1 + trailing_ws(s.drop_last())
    } else {
        0
    }
}

/// `s` without its leading and trailing white space.
pub open spec fn trim_spec(s: Seq<char>) -> Seq<char> {
    if leading_ws(s) == s.len() {
        Seq::empty()
    } else {
        s.subrange(leading_ws(s) as int, s.len() - trailing_ws(s))
    }
}

/// Whether `c` is white space, as `char::is_whitespace` decides it.
fn is_whitespace(c: char) -> (r: bool)
    ensures
        r == unicode_white_space(c),
{
    let u = c as u32;
    (0x09 <= u && u <= 0x0D) || u == 0x20 || u == 0x85 || u == 0xA0 || u == 0x1680 || (0x2000 <= u
        && u <= 0x200A) || u == 0x2028 || u == 0x2029 || u == 0x202F || u == 0x205F || u == 0x3000
}

proof fn lemma_leading_ws(s: Seq<char>, k: int)
    requires
        0 <= k <= s.len(),
        forall|j: int| 0 <= j < k ==> unicode_white_space(#[trigger] s[j]),
        k == s.len() || !unicode_white_space(s[k]),
    ensures
        leading_ws(s) == k,
    decreases k,
{
    if k > 0 {
        let t = s.drop_first();
        assert forall|j: int| 0 <= j < k - 1 implies unicode_white_space(#[trigger] t[j]) by {
            assert(t[j] == s[j + 1]);
        }
        if k - 1 < t.len() {
            assert(t[k - 1] == s[k]);
        }
        lemma_leading_ws(t, k - 1);
        assert(unicode_white_space(s[0]));
    }
}

proof fn lemma_leading_ws_facts(s: Seq<char>)
    ensures
        leading_ws(s) <= s.len(),
        forall|j: int| 0 <= j < leading_ws(s) ==> unicode_white_space(#[trigger] s[j]),
        leading_ws(s) < s.len() ==> !unicode_white_space(s[leading_ws(s) as int]),
    decreases s.len(),
{
    if s.len() > 0 && unicode_white_space(s[0]) {
        let t = s.drop_first();
        lemma_leading_ws_facts(t);
        assert forall|j: int| 0 <= j < leading_ws(s) implies unicode_white_space(#[trigger] s[j]) by {
            if j > 0 {
                assert(s[j] == t[j - 1]);
            }
        }
        if leading_ws(s) < s.len() {
            assert(s[leading_ws(s) as int] == t[leading_ws(t) as int]);
        }
    }
}

proof fn lemma_trailing_ws_facts(s: Seq<char>)
    ensures
        trailing_ws(s) <= s.len(),
        forall|j: int| s.len() - trailing_ws(s) <= j < s.len() ==> unicode_white_space(#[trigger] s[j]),
        trailing_ws(s) < s.len() ==> !unicode_white_space(s[s.len() - trailing_ws(s) - 1]),
    decreases s.len(),
{
    if s.len() > 0 && unicode_white_space(s.last()) {
        let t = s.drop_last();
        lemma_trailing_ws_facts(t);
        assert forall|j: int| s.len() - trailing_ws(s) <= j < s.len() implies unicode_white_space(
            #[trigger] s[j],
        ) by {
            if j < s.len() - 1 {
                assert(s[j] == t[j]);
            }
        }
        if trailing_ws(s) < s.len() {
            assert(s[s.len() - trailing_ws(s) - 1] == t[t.len() - trailing_ws(t) - 1]);
        }
    }
}

/// Trimming removes exactly the white space at both ends: the result is
/// the piece of the text between a run of white space at its start and
/// one at its end, and a non-empty result neither starts nor ends with
/// white space.
pub proof fn law_trim(s: Seq<char>)
    ensures
        exists|a: int, b: int|
            0 <= a <= b <= s.len() && trim_spec(s) == s.subrange(a, b) && (forall|j: int|
                0 <= j < a ==> unicode_white_space(#[trigger] s[j])) && (forall|j: int|
                b <= j < s.len() ==> unicode_white_space(#[trigger] s[j])),
        trim_spec(s).len() > 0 ==> !unicode_white_space(trim_spec(s)[0]) && !unicode_white_space(
            trim_spec(s).last(),
        ),
        (forall|j: int| 0 <= j < s.len() ==> unicode_white_space(#[trigger] s[j])) ==> trim_spec(s).len()
            == 0,
{
    lemma_leading_ws_facts(s);
    lemma_trailing_ws_facts(s);
    let a = leading_ws(s) as int;
    let b = s.len() - trailing_ws(s);
    if a == s.len() {
        assert(trim_spec(s) =~= s.subrange(a, a));
        assert(forall|j: int| a <= j < s.len() ==> unicode_white_space(#[trigger] s[j]));
    } else {
        assert(!unicode_white_space(s[a]));
        // the first non-white character lies before the trailing white space
        assert(a < b) by {
            if a >= b {
                assert(s.len() - trailing_ws(s) <= a);
            }
        }
        assert(trim_spec(s) == s.subrange(a, b));
        assert(trim_spec(s)[0] == s[a]);
        assert(trim_spec(s).last() == s[b - 1]);
    }
    if forall|j: int| 0 <= j < s.len() ==> unicode_white_space(#[trigger] s[j]) {
        if a < s.len() {
            assert(unicode_white_space(s[a]));
        }
    }
}

proof fn lemma_trailing_ws(s: Seq<char>, k: int)
    requires
        0 <= k <= s.len(),
        forall|j: int| s.len() - k <= j < s.len() ==> unicode_white_space(#[trigger] s[j]),
        k == s.len() || !unicode_white_space(s[s.len() - k - 1]),
    ensures
        trailing_ws(s) == k,
    decreases k,
{
    if k > 0 {
        let t = s.drop_last();
        assert forall|j: int| t.len() - (k - 1) <= j < t.len() implies unicode_white_space(#[trigger] t[j]) by {
            assert(t[j] == s[j]);
        }
        if k - 1 < t.len() {
            assert(t[t.len() - (k - 1) - 1] == s[s.len() - k - 1]);
        }
        lemma_trailing_ws(t, k - 1);
        assert(unicode_white_space(s.last()));
    }
}

/// `s` without leading and trailing white space, as `str::trim` gives it.
pub fn trim(s: &str) -> (r: String)
    ensures
        r@ == trim_spec(s@),
{
    let n = s.unicode_len();
    let mut a: usize = 0;
    while a < n && is_whitespace(s.get_char(a))
        invariant
            n == s@.len(),
            a <= n,
            forall|j: int| 0 <= j < a ==> unicode_white_space(#[trigger] s@[j]),
        decreases n - a,
    {
        a = a + 1;
    }
    proof {
        lemma_leading_ws(s@, a as int);
    }
    if a == n {
        return String::new();
    }
    let mut b: usize = n;
    while b > a && is_whitespace(s.get_char(b - 1))
        invariant
            n == s@.len(),
            a < n,
            !unicode_white_space(s@[a as int]),
            a <= b <= n,
            forall|j: int| b <= j < n ==> unicode_white_space(#[trigger] s@[j]),
        decreases b,
    {
        b = b - 1;
    }
    proof {
        if b == a {
            assert(false);
        }
        lemma_trailing_ws(s@, (n - b) as int);
    }
    String::from_str(s.substring_char(a, b))
}

/// The pieces of `s` between the positions that `sep` marks, as
/// `str::split` yields them: empty pieces included, one more piece than
/// there are marks.
pub open spec fn split_marked(s: Seq<char>, sep: Seq<bool>) -> Seq<Seq<char>>
    decreases s.len(),
{
    if s.len() == 0 {
        seq![Seq::empty()]
    } else {
        let p = split_marked(s.drop_last(), sep.take(sep.len() - 1));
        if sep.last() {
            p.push(Seq::empty())
        } else {
            p.update(p.len() - 1, p.last().push(s.last()))
        }
    }
}

proof fn lemma_split_nonempty(s: Seq<char>, sep: Seq<bool>)
    ensures
        split_marked(s, sep).len() >= 1,
    decreases s.len(),
{
    if s.len() > 0 {
        lemma_split_nonempty(s.drop_last(), sep.take(sep.len() - 1));
    }
}

/// Splits `s` at the positions marked in `sep`.
fn split_at_marks(s: &str, sep: &Vec<bool>) -> (r: Vec<String>)
    requires
        sep@.len() == s@.len(),
    ensures
        texts_of(r@) == split_marked(s@, sep@),
{
    let n = s.unicode_len();
    let mut out: Vec<String> = Vec::new();
    let mut start: usize = 0;
    let mut i: usize = 0;
    proof {
        assert(s@.take(0).len() == 0);
        assert(split_marked(s@.take(0), sep@.take(0)) == seq![Seq::<char>::empty()]);
        assert(texts_of(out@) =~= Seq::<Seq<char>>::empty());
        assert(s@.subrange(0, 0) =~= Seq::<char>::empty());
        assert(texts_of(out@).push(s@.subrange(0, 0)) =~= split_marked(s@.take(0), sep@.take(0)));
    }
    while i < n
        invariant
            n == s@.len(),
            sep@.len() == n,
            start <= i <= n,
            texts_of(out@).push(s@.subrange(start as int, i as int)) == split_marked(
                s@.take(i as int),
                sep@.take(i as int),
            ),
        decreases n - i,
    {
        let ghost before = split_marked(s@.take(i as int), sep@.take(i as int));
        proof {
            assert(s@.take(i + 1).drop_last() =~= s@.take(i as int));
            assert(sep@.take(i + 1).take(i as int) =~= sep@.take(i as int));
            assert(s@.take(i + 1).last() == s@[i as int]);
            assert(sep@.take(i + 1).last() == sep@[i as int]);
            lemma_split_nonempty(s@.take(i as int), sep@.take(i as int));
        }
        if sep[i] {
            let piece = s.substring_char(start, i);
            let ghost old_out = out@;
            out.push(String::from_str(piece));
            assert(texts_of(out@) =~= texts_of(old_out).push(s@.subrange(start as int, i as int)));
            start = i + 1;
            assert(texts_of(out@) == before);
            assert(s@.subrange(start as int, i + 1) =~= Seq::<char>::empty());
            assert(texts_of(out@).push(s@.subrange(start as int, i + 1)) =~= before.push(Seq::empty()));
        } else {
            assert(s@.subrange(start as int, i + 1) =~= s@.subrange(start as int, i as int).push(s@[i as int]));
            assert(texts_of(out@).push(s@.subrange(start as int, i + 1)) =~= before.update(
                before.len() - 1,
                before.last().push(s@[i as int]),
            ));
        }
        i = i + 1;
    }
    let last = s.substring_char(start, n);
    let ghost old_out = out@;
    out.push(String::from_str(last));
    assert(texts_of(out@) =~= texts_of(old_out).push(s@.subrange(start as int, n as int)));
    assert(s@.take(n as int) =~= s@);
    assert(sep@.take(n as int) =~= sep@);
    assert(texts_of(out@) =~= split_marked(s@, sep@));
    out
}

/// The marks of the characters that are not alphanumeric.
pub open spec fn non_alnum_marks(s: Seq<char>) -> Seq<bool> {
    Seq::new(s.len(), |i: int| !unicode_alphanumeric(s[i]))
}

/// The marks of the full stops.
pub open spec fn dot_marks(s: Seq<char>) -> Seq<bool> {
    Seq::new(s.len(), |i: int| s[i] == '.')
}

/// The words of a query: its lower-cased text split at every character
/// that is not alphanumeric (empty pieces included; they match nothing).
pub open spec fn query_tokens(q: Seq<char>) -> Seq<Seq<char>> {
    split_marked(unicode_lowercase(q), non_alnum_marks(unicode_lowercase(q)))
}

/// Whether a sentence, lower-cased, contains one of the non-empty words.
pub open spec fn mentions(sentence: Seq<char>, tokens: Seq<Seq<char>>) -> bool {
    exists|i: int|
        0 <= i < tokens.len() && tokens[i].len() > 0 && is_substring(
            #[trigger] tokens[i],
            unicode_lowercase(sentence),
        )
}

/// The sentences that mention one of the words, in order.
pub open spec fn kept_sentences(ss: Seq<Seq<char>>, tokens: Seq<Seq<char>>) -> Seq<Seq<char>>
    decreases ss.len(),
{
    if ss.len() == 0 {
        Seq::empty()
    } else {
        let rest = kept_sentences(ss.drop_last(), tokens);
        if mentions(ss.last(), tokens) {
            rest.push(ss.last())
        } else {
            rest
        }
    }
}

/// A sentence in which one non-empty query word occurs, once lower-cased,
/// mentions the query; one in which none occurs does not.
pub proof fn law_mentions(sentence: Seq<char>, tokens: Seq<Seq<char>>, i: int)
    ensures
        0 <= i < tokens.len() && tokens[i].len() > 0 && is_substring(tokens[i], unicode_lowercase(sentence))
            ==> mentions(sentence, tokens),
        (forall|k: int| 0 <= k < tokens.len() && (#[trigger] tokens[k]).len() > 0 ==> !is_substring(
            tokens[k],
            unicode_lowercase(sentence),
        )) ==> !mentions(sentence, tokens),
{
}

/// A sentence in which one non-empty query word occurs (after
/// lower-casing) is kept.
pub proof fn law_sentence_kept(ss: Seq<Seq<char>>, tokens: Seq<Seq<char>>, j: int, i: int)
    requires
        0 <= j < ss.len(),
        0 <= i < tokens.len(),
        tokens[i].len() > 0,
        is_substring(tokens[i], unicode_lowercase(ss[j])),
    ensures
        kept_sentences(ss, tokens).contains(ss[j]),
    decreases ss.len(),
{
    let rest = kept_sentences(ss.drop_last(), tokens);
    if j == ss.len() - 1 {
        assert(mentions(ss.last(), tokens));
        assert(kept_sentences(ss, tokens) == rest.push(ss.last()));
        assert(kept_sentences(ss, tokens)[rest.len() as int] == ss[j]);
    } else {
        assert(ss.drop_last()[j] == ss[j]);
        law_sentence_kept(ss.drop_last(), tokens, j, i);
        let k = choose|k: int| 0 <= k < rest.len() && rest[k] == ss[j];
        if mentions(ss.last(), tokens) {
            assert(kept_sentences(ss, tokens)[k] == ss[j]);
        } else {
            assert(kept_sentences(ss, tokens)[k] == ss[j]);
        }
    }
}

/// Every kept sentence is one of the sentences, and one of the query's
/// non-empty words occurs in it (after lower-casing).
pub proof fn law_kept_sentence_mentions(ss: Seq<Seq<char>>, tokens: Seq<Seq<char>>, s: Seq<char>)
    requires
        kept_sentences(ss, tokens).contains(s),
    ensures
        ss.contains(s),
        exists|i: int| 0 <= i < tokens.len() && tokens[i].len() > 0 && is_substring(
            #[trigger] tokens[i],
            unicode_lowercase(s),
        ),
    decreases ss.len(),
{
    let rest = kept_sentences(ss.drop_last(), tokens);
    let k = choose|k: int| 0 <= k < kept_sentences(ss, tokens).len() && kept_sentences(ss, tokens)[k] == s;
    if mentions(ss.last(), tokens) && k == rest.len() {
        assert(s == ss.last());
        assert(ss[ss.len() - 1] == s);
    } else {
        assert(rest[k] == s);
        assert(rest.contains(s));
        law_kept_sentence_mentions(ss.drop_last(), tokens, s);
        let m = choose|m: int| 0 <= m < ss.drop_last().len() && ss.drop_last()[m] == s;
        assert(ss[m] == s);
    }
}

/// A document one of whose full-stop sentences holds a word of the query
/// (after lower-casing) is kept by the sentence filter.
pub proof fn law_document_kept(query: Seq<char>, text: Seq<char>, j: int, i: int)
    requires
        0 <= j < split_marked(text, dot_marks(text)).len(),
        0 <= i < query_tokens(query).len(),
        query_tokens(query)[i].len() > 0,
        is_substring(query_tokens(query)[i], unicode_lowercase(split_marked(text, dot_marks(text))[j])),
    ensures
        compress_spec(query, text) is Some,
{
    let ss = split_marked(text, dot_marks(text));
    law_sentence_kept(ss, query_tokens(query), j, i);
}

/// The pieces joined with full stops between them.
pub open spec fn join_dots(ps: Seq<Seq<char>>) -> Seq<char>
    decreases ps.len(),
{
    if ps.len() == 0 {
        Seq::empty()
    } else if ps.len() == 1 {
        ps[0]
    } else {
        join_dots(ps.drop_last()) + seq!['.'] + ps.last()
    }
}

proof fn lemma_join_extend_last(ps: Seq<Seq<char>>, c: char)
    requires
        ps.len() >= 1,
    ensures
        join_dots(ps.update(ps.len() - 1, ps.last().push(c))) == join_dots(ps).push(c),
{
    let qs = ps.update(ps.len() - 1, ps.last().push(c));
    if ps.len() > 1 {
        assert(qs.drop_last() =~= ps.drop_last());
        assert(qs.last() == ps.last().push(c));
        assert(join_dots(qs) =~= join_dots(ps).push(c));
    }
}

/// Splitting a text at its full stops gives pieces without full stops that
/// join back, with a full stop between each two, into the text.
pub proof fn law_sentences_join_back(s: Seq<char>, sep: Seq<bool>)
    requires
        sep.len() == s.len(),
        forall|i: int| 0 <= i < s.len() ==> sep[i] == (s[i] == '.'),
    ensures
        join_dots(split_marked(s, sep)) == s,
        forall|k: int| 0 <= k < split_marked(s, sep).len() ==> !(#[trigger] split_marked(s, sep)[k]).contains('.'),
    decreases s.len(),
{
    if s.len() > 0 {
        let t = s.drop_last();
        let st = sep.take(sep.len() - 1);
        law_sentences_join_back(t, st);
        lemma_split_nonempty(t, st);
        let p = split_marked(t, st);
        if sep.last() {
            let pp = p.push(Seq::<char>::empty());
            assert(pp.drop_last() =~= p);
            assert(pp.len() > 1);
            assert(join_dots(pp) == join_dots(pp.drop_last()) + seq!['.'] + pp.last());
            assert(join_dots(pp) =~= join_dots(p) + seq!['.']);
            assert(s =~= t.push('.'));
            assert forall|k: int| 0 <= k < p.push(Seq::<char>::empty()).len() implies !(
            #[trigger] p.push(Seq::<char>::empty())[k]).contains('.') by {
                if k < p.len() {
                    assert(p.push(Seq::<char>::empty())[k] == p[k]);
                }
            }
        } else {
            lemma_join_extend_last(p, s.last());
            assert(s =~= t.push(s.last()));
            let q = p.update(p.len() - 1, p.last().push(s.last()));
            assert forall|k: int| 0 <= k < q.len() implies !(#[trigger] q[k]).contains('.') by {
                if k < p.len() - 1 {
                    assert(q[k] == p[k]);
                } else {
                    assert(!p[k].contains('.'));
                    if q[k].contains('.') {
                        let m = choose|m: int| 0 <= m < q[k].len() && q[k][m] == '.';
                        if m < p[k].len() {
                            assert(p[k][m] == '.');
                        }
                    }
                }
            }
        }
    }
}

/// The sentences of a text are the pieces between its full stops.
pub proof fn law_dot_sentences(text: Seq<char>)
    ensures
        join_dots(split_marked(text, dot_marks(text))) == text,
        forall|k: int|
            0 <= k < split_marked(text, dot_marks(text)).len() ==> !(#[trigger] split_marked(
                text,
                dot_marks(text),
            )[k]).contains('.'),
{
    law_sentences_join_back(text, dot_marks(text));
}

/// What the sentence filter makes of a document's text for a query: the
/// full-stop-separated sentences that mention a word of the query, joined
/// again and trimmed; `None`, dropping the document, where no sentence
/// does.
pub open spec fn compress_spec(query: Seq<char>, text: Seq<char>) -> Option<Seq<char>> {
    let kept = kept_sentences(split_marked(text, dot_marks(text)), query_tokens(query));
    if kept.len() == 0 {
        None
    } else {
        Some(trim_spec(join_dots(kept)))
    }
}

fn marks_not_alnum(s: &str) -> (r: Vec<bool>)
    ensures
        r@ == non_alnum_marks(s@),
{
    let n = s.unicode_len();
    let mut out: Vec<bool> = Vec::new();
    let mut i: usize = 0;
    while i < n
        invariant
            n == s@.len(),
            i <= n,
            out@.len() == i,
            forall|j: int| 0 <= j < i ==> out@[j] == !unicode_alphanumeric(s@[j]),
        decreases n - i,
    {
        let b = !is_alphanumeric(s.get_char(i));
        out.push(b);
        i = i + 1;
    }
    assert(out@ =~= non_alnum_marks(s@));
    out
}

fn marks_dots(s: &str) -> (r: Vec<bool>)
    ensures
        r@ == dot_marks(s@),
{
    let n = s.unicode_len();
    let mut out: Vec<bool> = Vec::new();
    let mut i: usize = 0;
    while i < n
        invariant
            n == s@.len(),
            i <= n,
            out@.len() == i,
            forall|j: int| 0 <= j < i ==> out@[j] == (s@[j] == '.'),
        decreases n - i,
    {
        let b = s.get_char(i) == '.';
        out.push(b);
        i = i + 1;
    }
    assert(out@ =~= dot_marks(s@));
    out
}

fn mentions_any(sentence: &str, tokens: &Vec<String>) -> (r: bool)
    ensures
        r == mentions(sentence@, texts_of(tokens@)),
{
    let lower = to_lowercase(sentence);
    let ghost ts = texts_of(tokens@);
    let mut j: usize = 0;
    while j < tokens.len()
        invariant
            ts == texts_of(tokens@),
            lower@ == unicode_lowercase(sentence@),
            j <= tokens@.len(),
            forall|k: int|
                0 <= k < j ==> !((#[trigger] ts[k]).len() > 0 && is_substring(ts[k], lower@)),
        decreases tokens.len() - j,
    {
        if tokens[j].as_str().unicode_len() > 0 && contains_str(lower.as_str(), tokens[j].as_str()) {
            assert(ts[j as int] == tokens@[j as int]@);
            return true;
        }
        j = j + 1;
    }
    proof {
        if mentions(sentence@, ts) {
            let k = choose|k: int|
                0 <= k < ts.len() && ts[k].len() > 0 && is_substring(
                    #[trigger] ts[k],
                    unicode_lowercase(sentence@),
                );
            assert(!(ts[k].len() > 0 && is_substring(ts[k], lower@)));
        }
    }
    false
}

/// Joins texts with full stops between them.
fn join_with_dots(ps: &Vec<String>) -> (r: String)
    ensures
        r@ == join_dots(texts_of(ps@)),
{
    let ghost t = texts_of(ps@);
    let mut out = String::new();
    let mut i: usize = 0;
    proof {
        reveal_strlit(".");
        assert(t.take(0).len() == 0);
    }
    while i < ps.len()
        invariant
            t == texts_of(ps@),
            i <= ps@.len(),
            out@ == join_dots(t.take(i as int)),
        decreases ps.len() - i,
    {
        proof {
            reveal_strlit(".");
            assert(t.take(i + 1).drop_last() =~= t.take(i as int));
            assert(t.take(i + 1).last() == ps@[i as int]@);
        }
        if i > 0 {
            out.append(".");
            assert(seq!['.'] =~= "."@);
        } else {
            assert(t.take(1) =~= seq![ps@[0]@]);
        }
        out.append(ps[i].as_str());
        proof {
            if i > 0 {
                assert(out@ =~= join_dots(t.take(i as int)) + seq!['.'] + ps@[i as int]@);
            } else {
                assert(out@ =~= ps@[0]@);
            }
        }
        i = i + 1;
    }
    assert(t.take(ps.len() as int) =~= t);
    out
}

/// The sentence filter of the contextual compression retriever.
pub fn compress_text(query: &str, text: &str) -> (r: Option<String>)
    ensures
        match r {
            Some(t) => compress_spec(query@, text@) == Some(t@),
            None => compress_spec(query@, text@) is None,
        },
{
    let lq = to_lowercase(query);
    let qmarks = marks_not_alnum(lq.as_str());
    let tokens = split_at_marks(lq.as_str(), &qmarks);
    let dmarks = marks_dots(text);
    let sentences = split_at_marks(text, &dmarks);
    let ghost ss = texts_of(sentences@);
    let ghost toks = texts_of(tokens@);
    assert(toks == query_tokens(query@));
    let mut kept: Vec<String> = Vec::new();
    let mut i: usize = 0;
    assert(texts_of(kept@) =~= kept_sentences(ss.take(0), toks));
    while i < sentences.len()
        invariant
            ss == texts_of(sentences@),
            toks == texts_of(tokens@),
            i <= sentences@.len(),
            texts_of(kept@) == kept_sentences(ss.take(i as int), toks),
        decreases sentences.len() - i,
    {
        proof {
            assert(ss.take(i + 1).drop_last() =~= ss.take(i as int));
            assert(ss.take(i + 1).last() == sentences@[i as int]@);
        }
        if mentions_any(sentences[i].as_str(), &tokens) {
            let ghost old_kept = kept@;
            kept.push(sentences[i].clone());
            assert(texts_of(kept@) =~= texts_of(old_kept).push(sentences@[i as int]@));
        }
        i = i + 1;
    }
    assert(ss.take(sentences.len() as int) =~= ss);
    if kept.len() == 0 {
        return None;
    }
    let joined = join_with_dots(&kept);
    Some(trim(joined.as_str()))
}

} // verus!
