//! Byte signatures written as text, such as `"8B 0D ? ? ? ? 8B 46"`, and a
//! search for the first place in a module image where one occurs.
//!
//! A signature is a list of tokens separated by ASCII whitespace. A token is
//! either `?` or `??`, which match any byte, or exactly two hexadecimal digits (of
//! either case), which match that byte. Any other token makes the signature
//! invalid, and an invalid signature is found nowhere.
use vstd::prelude::*;
use vstd::string::StringSliceAdditionalSpecFns;

verus! {

/// One position of a parsed signature.
#[derive(Clone, Copy, Debug, PartialEq, Eq, Structural)]
pub enum PatternByte {
    /// `?` or `??`: any byte.
    Any,
    /// A byte that must be equal.
    Exact(u8),
}

/// The ASCII whitespace bytes that separate tokens.
pub open spec fn is_pattern_space(b: u8) -> bool {
    b == 0x20 || b == 0x09 || b == 0x0A || b == 0x0B || b == 0x0C || b == 0x0D
}

/// The value of a hexadecimal digit.
pub open spec fn hex_digit_value(b: u8) -> Option<u8> {
    if 0x30 <= b <= 0x39 {
        Some((b - 0x30) as u8)
    } else if 0x41 <= b <= 0x46 {
        Some((b - 0x41 + 10) as u8)
    } else if 0x61 <= b <= 0x66 {
        Some((b - 0x61 + 10) as u8)
    } else {
        None
    }
}

/// The meaning of one token.
pub open spec fn token_value(t: Seq<u8>) -> Option<PatternByte> {
    if (t.len() == 1 && t[0] == 0x3F) || (t.len() == 2 && t[0] == 0x3F && t[1] == 0x3F) {
        Some(PatternByte::Any)
    } else if t.len() == 2 && hex_digit_value(t[0]) is Some && hex_digit_value(t[1]) is Some {
        Some(
            PatternByte::Exact(
                (hex_digit_value(t[0])->0 * 16 + hex_digit_value(t[1])->0) as u8,
            ),
        )
    } else {
        None
    }
}

/// The number of leading bytes of `s` before the first separator.
pub open spec fn token_len(s: Seq<u8>) -> nat
    decreases s.len(),
{
    if s.len() == 0 || is_pattern_space(s[0]) {
        0
    } else {
        1 + token_len(s.drop_first())
    }
}

pub proof fn lemma_token_len_bound(s: Seq<u8>)
    ensures
        token_len(s) <= s.len(),
        s.len() > 0 && !is_pattern_space(s[0]) ==> token_len(s) >= 1,
    decreases s.len(),
{
    if s.len() > 0 && !is_pattern_space(s[0]) {
        lemma_token_len_bound(s.drop_first());
    }
}

/// The bytes a signature text stands for, or `None` where a token is invalid.
pub open spec fn parse_pattern_bytes(s: Seq<u8>) -> Option<Seq<PatternByte>>
    decreases s.len(),
{
    if s.len() == 0 {
        Some(Seq::empty())
    } else if is_pattern_space(s[0]) {
        parse_pattern_bytes(s.drop_first())
    } else {
        let n = token_len(s);
        proof {
            lemma_token_len_bound(s);
        }
        match token_value(s.take(n as int)) {
            None => None,
            Some(p) => match parse_pattern_bytes(s.skip(n as int)) {
                None => None,
                Some(rest) => Some(seq![p] + rest),
            },
        }
    }
}

/// Whether a signature position accepts a byte.
pub open spec fn byte_matches(p: PatternByte, b: u8) -> bool {
    match p {
        PatternByte::Any => true,
        PatternByte::Exact(x) => x == b,
    }
}

/// Whether `pat` occurs in `data` starting at index `i`.
pub open spec fn matches_at(data: Seq<u8>, pat: Seq<PatternByte>, i: int) -> bool {
    &&& 0 <= i
    &&& i + pat.len() <= data.len()
    &&& forall|k: int| 0 <= k < pat.len() ==> byte_matches(#[trigger] pat[k], data[i + k])
}

/// `res` is the first index at which `pat` occurs in `data`, or `None` when
/// it occurs nowhere.
pub open spec fn is_first_match(data: Seq<u8>, pat: Seq<PatternByte>, res: Option<usize>) -> bool {
    match res {
        Some(i) => {
            &&& matches_at(data, pat, i as int)
            &&& forall|j: int| 0 <= j < i ==> !matches_at(data, pat, j)
        },
        None => forall|j: int| !matches_at(data, pat, j),
    }
}

/// The first index at which `pat` occurs in `data`, if it occurs at all.
pub open spec fn first_match(data: Seq<u8>, pat: Seq<PatternByte>) -> Option<usize> {
    if exists|i: usize| is_first_match(data, pat, Some(i)) {
        Some(choose|i: usize| is_first_match(data, pat, Some(i)))
    } else {
        None
    }
}

/// The first match is unique: any result that meets `is_first_match` is
/// `first_match`.
pub proof fn lemma_first_match_unique(data: Seq<u8>, pat: Seq<PatternByte>, res: Option<usize>)
    requires
        is_first_match(data, pat, res),
    ensures
        res == first_match(data, pat),
{
    match res {
        Some(i) => {
            let j = choose|j: usize| is_first_match(data, pat, Some(j));
            assert(is_first_match(data, pat, Some(j)));
            if j < i {
                assert(!matches_at(data, pat, j as int));
            } else if i < j {
                assert(!matches_at(data, pat, i as int));
            }
        },
        None => {
            assert forall|i: usize| !is_first_match(data, pat, Some(i)) by {
                assert(!matches_at(data, pat, i as int));
            }
        },
    }
}

/// The result of searching `data` for the signature text `pattern`.
pub open spec fn spec_find_pattern(data: Seq<u8>, pattern: Seq<u8>) -> Option<usize> {
    match parse_pattern_bytes(pattern) {
        None => None,
        Some(p) => first_match(data, p),
    }
}

/// What searching for the signature text `pattern` in `data` gives: the first
/// index where it occurs, `None` where it occurs nowhere or is invalid.
pub open spec fn pattern_search_result(data: Seq<u8>, pattern: Seq<u8>, res: Option<usize>) -> bool {
    match parse_pattern_bytes(pattern) {
        None => res is None,
        Some(p) => is_first_match(data, p, res),
    }
}

fn is_space_byte(b: u8) -> (r: bool)
    ensures
        r == is_pattern_space(b),
{
    b == 0x20 || b == 0x09 || b == 0x0A || b == 0x0B || b == 0x0C || b == 0x0D
}

fn hex_digit(b: u8) -> (r: Option<u8>)
    ensures
        r == hex_digit_value(b),
{
    if 0x30 <= b && b <= 0x39 {
        Some(b - 0x30)
    } else if 0x41 <= b && b <= 0x46 {
        Some(b - 0x41 + 10)
    } else if 0x61 <= b && b <= 0x66 {
        Some(b - 0x61 + 10)
    } else {
        None
    }
}

/// `prefix` followed by what `rest` parses to.
pub open spec fn prepend_parsed(prefix: Seq<PatternByte>, rest: Option<Seq<PatternByte>>) -> Option<
    Seq<PatternByte>,
> {
    match rest {
        None => None,
        Some(r) => Some(prefix + r),
    }
}

/// Reads a signature text into its positions; `None` if a token is neither
/// `?` nor two hexadecimal digits.
pub fn parse_pattern(pattern: &str) -> (res: Option<Vec<PatternByte>>)
    ensures
        match parse_pattern_bytes(pattern.spec_bytes()) {
            None => res is None,
            Some(p) => res matches Some(v) && v@ == p,
        },
{
    let bytes = pattern.as_bytes();
    let ghost s = bytes@;
    let mut out: Vec<PatternByte> = Vec::new();
    let mut i: usize = 0;
    assert(s.skip(0) =~= s);
    while i < bytes.len()
        invariant
            s == bytes@,
            s == pattern.spec_bytes(),
            0 <= i <= s.len(),
            parse_pattern_bytes(s) == prepend_parsed(out@, parse_pattern_bytes(s.skip(i as int))),
        decreases s.len() - i,
    {
        if is_space_byte(bytes[i]) {
            assert(s.skip(i as int).drop_first() =~= s.skip(i + 1));
            i = i + 1;
        } else {
            let start = i;
            proof {
                reveal_with_fuel(token_len, 2);
            }
            while i < bytes.len() && !is_space_byte(bytes[i])
                invariant
                    s == bytes@,
                    start < s.len(),
                    !is_pattern_space(s[start as int]),
                    start <= i <= s.len(),
                    token_len(s.skip(start as int)) == (i - start) + token_len(s.skip(i as int)),
                decreases s.len() - i,
            {
                assert(s.skip(i as int).drop_first() =~= s.skip(i + 1));
                i = i + 1;
            }
            assert(token_len(s.skip(i as int)) == 0);
            let ghost rest = s.skip(start as int);
            assert(rest.take((i - start) as int) =~= s.subrange(start as int, i as int));
            assert(rest.skip((i - start) as int) =~= s.skip(i as int));
            let len = i - start;
            let tok: PatternByte;
            if len == 1 && bytes[start] == 0x3F {
                tok = PatternByte::Any;
            } else if len == 2 && bytes[start] == 0x3F && bytes[start + 1] == 0x3F {
                tok = PatternByte::Any;
            } else if len == 2 {
                let hi = hex_digit(bytes[start]);
                let lo = hex_digit(bytes[start + 1]);
                match (hi, lo) {
                    (Some(h), Some(l)) => {
                        tok = PatternByte::Exact(h * 16 + l);
                    },
                    _ => {
                        return None;
                    },
                }
            } else {
                return None;
            }
            proof {
                assert(token_value(s.subrange(start as int, i as int)) == Some(tok));
                match parse_pattern_bytes(s.skip(i as int)) {
                    None => {},
                    Some(r) => {
                        assert(out@ + (seq![tok] + r) =~= out@.push(tok) + r);
                    },
                }
            }
            out.push(tok);
        }
    }
    assert(s.skip(i as int) =~= Seq::<u8>::empty());
    assert(out@ + Seq::<PatternByte>::empty() =~= out@);
    Some(out)
}

/// The first index at which the positions `pat` occur in `data`.
pub fn find_bytes(data: &[u8], pat: &[PatternByte]) -> (res: Option<usize>)
    ensures
        is_first_match(data@, pat@, res),
        res == first_match(data@, pat@),
{
    let res = find_first(data, pat);
    proof {
        lemma_first_match_unique(data@, pat@, res);
    }
    res
}

fn find_first(data: &[u8], pat: &[PatternByte]) -> (res: Option<usize>)
    ensures
        is_first_match(data@, pat@, res),
{
    if pat.len() == 0 {
        return Some(0);
    }
    if pat.len() > data.len() {
        return None;
    }
    let mut i: usize = 0;
    let last = data.len() - pat.len();
    while i <= last
        invariant
            pat@.len() >= 1,
            pat@.len() <= data@.len(),
            last == data@.len() - pat@.len(),
            data@.len() <= usize::MAX,
            i <= last + 1,
            forall|j: int| 0 <= j < i ==> !matches_at(data@, pat@, j),
        decreases data@.len() - i,
    {
        let mut k: usize = 0;
        let mut all = true;
        while k < pat.len()
            invariant
                i + pat@.len() <= data@.len(),
                i <= last,
                last == data@.len() - pat@.len(),
                data@.len() <= usize::MAX,
                0 <= k <= pat@.len(),
                all == (forall|m: int| 0 <= m < k ==> byte_matches(#[trigger] pat@[m], data@[i + m])),
            decreases pat@.len() - k,
        {
            let ok = match pat[k] {
                PatternByte::Any => true,
                PatternByte::Exact(x) => x == data[i + k],
            };
            if !ok {
                all = false;
            }
            k = k + 1;
        }
        if all {
            return Some(i);
        }
        i = i + 1;
    }
    None
}

/// Finds the first index of `data` at which the signature text `pattern`
/// occurs. `None` when it occurs nowhere, or when `pattern` holds a token
/// that is neither `?` nor two hexadecimal digits.
pub fn find_pattern(data: &[u8], pattern: &str) -> (res: Option<usize>)
    ensures
        pattern_search_result(data@, pattern.spec_bytes(), res),
        res == spec_find_pattern(data@, pattern.spec_bytes()),
{
    match parse_pattern(pattern) {
        None => None,
        Some(p) => find_bytes(data, p.as_slice()),
    }
}

/// The first occurrence of a signature in a module image is still its first
/// occurrence when more bytes follow the image.
pub proof fn lemma_first_match_survives_extension(
    data: Seq<u8>,
    more: Seq<u8>,
    pat: Seq<PatternByte>,
    i: usize,
)
    requires
        is_first_match(data, pat, Some(i)),
    ensures
        is_first_match(data + more, pat, Some(i)),
{
    let d2 = data + more;
    assert forall|k: int| 0 <= k < pat.len() implies byte_matches(#[trigger] pat[k], d2[i + k]) by {
        assert(byte_matches(pat[k], data[i + k]));
    }
    assert forall|j: int| 0 <= j < i implies !matches_at(d2, pat, j) by {
        assert(!matches_at(data, pat, j));
        if matches_at(d2, pat, j) {
            assert forall|k: int| 0 <= k < pat.len() implies byte_matches(#[trigger] pat[k], data[j + k]) by {
                assert(d2[j + k] == data[j + k]);
            }
            assert(matches_at(data, pat, j));
        }
    }
}

/// Both parts parsed, joined; `None` if either part is invalid.
pub open spec fn join_parsed(a: Option<Seq<PatternByte>>, b: Option<Seq<PatternByte>>) -> Option<
    Seq<PatternByte>,
> {
    match (a, b) {
        (Some(x), Some(y)) => Some(x + y),
        _ => None,
    }
}

proof fn lemma_token_len_stops_at_space(a: Seq<u8>, t: Seq<u8>)
    requires
        t.len() > 0,
        is_pattern_space(t[0]),
    ensures
        token_len(a + t) == token_len(a),
    decreases a.len(),
{
    if a.len() == 0 {
        assert(a + t =~= t);
    } else if !is_pattern_space(a[0]) {
        assert((a + t).drop_first() =~= a.drop_first() + t);
        lemma_token_len_stops_at_space(a.drop_first(), t);
    }
}

/// Signature texts can be written in pieces: two texts joined by whitespace
/// read as the first one's positions followed by the second's, and are
/// invalid exactly when either piece is.
pub proof fn lemma_parse_pattern_concat(a: Seq<u8>, sp: u8, b: Seq<u8>)
    requires
        is_pattern_space(sp),
    ensures
        parse_pattern_bytes(a + seq![sp] + b) == join_parsed(
            parse_pattern_bytes(a),
            parse_pattern_bytes(b),
        ),
    decreases a.len(),
{
    let s = a + seq![sp] + b;
    if a.len() == 0 {
        assert(s.drop_first() =~= b);
        match parse_pattern_bytes(b) {
            None => {},
            Some(y) => {
                assert(Seq::<PatternByte>::empty() + y =~= y);
            },
        }
    } else if is_pattern_space(a[0]) {
        assert(s.drop_first() =~= a.drop_first() + seq![sp] + b);
        lemma_parse_pattern_concat(a.drop_first(), sp, b);
    } else {
        let n = token_len(a);
        lemma_token_len_bound(a);
        assert(s =~= a + (seq![sp] + b));
        lemma_token_len_stops_at_space(a, seq![sp] + b);
        assert(token_len(s) == n);
        assert(s.take(n as int) =~= a.take(n as int));
        assert(s.skip(n as int) =~= a.skip(n as int) + seq![sp] + b);
        lemma_parse_pattern_concat(a.skip(n as int), sp, b);
        match (parse_pattern_bytes(a.skip(n as int)), parse_pattern_bytes(b)) {
            (Some(x), Some(y)) => {
                let p = token_value(a.take(n as int));
                if p is Some {
                    assert(seq![p->0] + (x + y) =~= (seq![p->0] + x) + y);
                }
            },
            _ => {},
        }
    }
}

/// A signature of `n` wildcards occurs first at the start of any image that
/// holds at least `n` bytes, and nowhere in a shorter one.
pub proof fn lemma_wildcards_match_at_start(data: Seq<u8>, n: nat)
    ensures
        data.len() >= n ==> is_first_match(data, Seq::new(n, |k: int| PatternByte::Any), Some(0)),
        data.len() < n ==> is_first_match(data, Seq::new(n, |k: int| PatternByte::Any), None),
{
}

/// The character for a hexadecimal digit value below sixteen, in upper
/// case (`0`-`9`, `A`-`F`) or lower case (`0`-`9`, `a`-`f`).
pub open spec fn hex_char(d: int, upper: bool) -> u8 {
    if d < 10 {
        (0x30 + d) as u8
    } else if upper {
        (0x41 + d - 10) as u8
    } else {
        (0x61 + d - 10) as u8
    }
}

/// Every byte written as two hexadecimal digits, in either case, is a
/// signature of that one byte.
pub proof fn lemma_hex_rendering_parses(b: u8, upper: bool)
    ensures
        parse_pattern_bytes(seq![hex_char(b as int / 16, upper), hex_char(b as int % 16, upper)])
            == Some(seq![PatternByte::Exact(b)]),
{
    let s = seq![hex_char(b as int / 16, upper), hex_char(b as int % 16, upper)];
    reveal_with_fuel(token_len, 3);
    assert(s.drop_first().drop_first() =~= Seq::<u8>::empty());
    assert(token_len(s) == 2);
    assert(s.take(2) =~= s);
    assert(s.skip(2) =~= Seq::<u8>::empty());
    assert(hex_digit_value(s[0]) == Some((b / 16) as u8));
    assert(hex_digit_value(s[1]) == Some((b % 16) as u8));
    assert((b / 16) * 16 + b % 16 == b);
    assert(parse_pattern_bytes(s.skip(2)) == Some(Seq::<PatternByte>::empty()));
    assert(seq![PatternByte::Exact(b)] + Seq::<PatternByte>::empty() =~= seq![PatternByte::Exact(b)]);
}

} // verus!
