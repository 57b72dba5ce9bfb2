//! A small JSON scanner: just enough of the grammar to validate a response
//! body and pull named fields out of nested objects.
//!
//! The scanner works over a sequence of characters. Each `spec` function
//! defines one grammar production by structural recursion and the matching
//! executable function is proved to return exactly the `spec` result.
//! String values decode the single-character escapes (`\"`, `\\`, `\/`,
//! `\b`, `\f`, `\n`, `\r`, `\t`); a `\u` escape is not accepted and makes
//! the enclosing document invalid.
use vstd::prelude::*;

verus! {

/// JSON insignificant whitespace.
pub open spec fn is_ws(c: char) -> bool {
    c == ' ' || c == '\t' || c == '\n' || c == '\r'
}

/// ASCII decimal digit.
pub open spec fn is_digit(c: char) -> bool {
    '0' <= c && c <= '9'
}

/// A character that may stand unescaped inside a string literal.
pub open spec fn is_plain_str_char(c: char) -> bool {
    c != '"' && c != '\\' && (c as u32) >= 32
}

/// The character denoted by a single-character escape, if the escape is one
/// the scanner accepts.
pub open spec fn escape_char(c: char) -> Option<char> {
    match c {
        '"' => Some('"'),
        '\\' => Some('\\'),
        '/' => Some('/'),
        'b' => Some('\u{8}'),
        'f' => Some('\u{c}'),
        'n' => Some('\n'),
        'r' => Some('\r'),
        't' => Some('\t'),
        _ => None,
    }
}

/// First position at or after `i` holding a non-whitespace character.
pub open spec fn spec_ws_end(t: Seq<char>, i: int) -> int
    decreases t.len() - i,
{
    if 0 <= i < t.len() && is_ws(t[i]) {
        spec_ws_end(t, i + 1)
    } else {
        i
    }
}

/// End of the run of unescaped string characters starting at `i`.
pub open spec fn spec_plain_run_end(t: Seq<char>, i: int) -> int
    decreases t.len() - i,
{
    if 0 <= i < t.len() && is_plain_str_char(t[i]) {
        spec_plain_run_end(t, i + 1)
    } else {
        i
    }
}

/// End of the run of decimal digits starting at `i`.
pub open spec fn spec_digits_end(t: Seq<char>, i: int) -> int
    decreases t.len() - i,
{
    if 0 <= i < t.len() && is_digit(t[i]) {
        spec_digits_end(t, i + 1)
    } else {
        i
    }
}

proof fn lemma_digits_end_bounds(t: Seq<char>, i: int)
    requires
        0 <= i <= t.len(),
    ensures
        i <= spec_digits_end(t, i) <= t.len(),
    decreases t.len() - i,
{
    if i < t.len() && is_digit(t[i]) {
        lemma_digits_end_bounds(t, i + 1);
    }
}

/// The characters of `s`, one vector entry per `char`.
pub fn str_to_chars(s: &str) -> (v: Vec<char>)
    ensures
        v@ == s@,
{
    let n: usize = s.unicode_len();
    let mut v: Vec<char> = Vec::new();
    let mut i: usize = 0;
    while i < n
        invariant
            n == s@.len(),
            i <= n,
            v@ == s@.subrange(0, i as int),
        decreases n - i,
    {
        v.push(s.get_char(i));
        i = i + 1;
        proof {
            assert(v@ =~= s@.subrange(0, i as int));
        }
    }
    proof {
        assert(v@ =~= s@);
    }
    v
}

/// Decoded contents and end position of the string literal whose opening
/// quote stands at `i`; the end position is the position just after the
/// closing quote.
pub open spec fn spec_string_at(t: Seq<char>, i: int) -> Option<(Seq<char>, int)> {
    if 0 <= i < t.len() && t[i] == '"' {
        spec_str_tail(t, i + 1)
    } else {
        None
    }
}

/// Contents of a string literal from position `j` (already inside the
/// quotes) to its closing quote, decoding single-character escapes.
pub open spec fn spec_str_tail(t: Seq<char>, j: int) -> Option<(Seq<char>, int)>
    decreases t.len() - j,
{
    if !(0 <= j < t.len()) {
        None
    } else if t[j] == '"' {
        Some((Seq::empty(), j + 1))
    } else if t[j] == '\\' {
        if j + 1 < t.len() && escape_char(t[j + 1]) is Some {
            match spec_str_tail(t, j + 2) {
                Some((rest, e)) => Some((seq![escape_char(t[j + 1])->0] + rest, e)),
                None => None,
            }
        } else {
            None
        }
    } else if is_plain_str_char(t[j]) {
        match spec_str_tail(t, j + 1) {
            Some((rest, e)) => Some((seq![t[j]] + rest, e)),
            None => None,
        }
    } else {
        None
    }
}

proof fn lemma_str_tail_bounds(t: Seq<char>, j: int)
    ensures
        spec_str_tail(t, j) matches Some(de) ==> j < de.1 <= t.len(),
    decreases t.len() - j,
{
    if 0 <= j < t.len() {
        if t[j] == '"' {
        } else if t[j] == '\\' {
            if j + 1 < t.len() && escape_char(t[j + 1]) is Some {
                lemma_str_tail_bounds(t, j + 2);
            }
        } else if is_plain_str_char(t[j]) {
            lemma_str_tail_bounds(t, j + 1);
        }
    }
}

/// A run of unescaped characters may be peeled off the front of a string
/// body without changing what it decodes to or where it ends.
proof fn lemma_str_tail_plain_prefix(t: Seq<char>, j: int, k: int)
    requires
        0 <= j <= k <= t.len(),
        forall|m: int| j <= m < k ==> is_plain_str_char(t[m]),
    ensures
        match spec_str_tail(t, k) {
            Some(de) => spec_str_tail(t, j) == Some((t.subrange(j, k) + de.0, de.1)),
            None => spec_str_tail(t, j) is None,
        },
    decreases k - j,
{
    if j < k {
        lemma_str_tail_plain_prefix(t, j + 1, k);
        assert(is_plain_str_char(t[j]));
        match spec_str_tail(t, k) {
            Some(de) => {
                assert(t.subrange(j, k) =~= seq![t[j]] + t.subrange(j + 1, k));
                assert(seq![t[j]] + (t.subrange(j + 1, k) + de.0) =~= t.subrange(j, k) + de.0);
            },
            None => {},
        }
    } else {
        match spec_str_tail(t, k) {
            Some(de) => {
                assert(t.subrange(j, k) + de.0 =~= de.0);
            },
            None => {},
        }
    }
}

/// First non-whitespace position at or after `i`.
pub fn ws_end(v: &Vec<char>, i: usize) -> (r: usize)
    requires
        i <= v@.len(),
    ensures
        r == spec_ws_end(v@, i as int),
        i <= r <= v@.len(),
{
    let mut k: usize = i;
    while k < v.len() && (v[k] == ' ' || v[k] == '\t' || v[k] == '\n' || v[k] == '\r')
        invariant
            i <= k <= v@.len(),
            spec_ws_end(v@, i as int) == spec_ws_end(v@, k as int),
        decreases v@.len() - k,
    {
        k = k + 1;
    }
    k
}

/// End of the unescaped-character run starting at `i`.
fn plain_run_end(v: &Vec<char>, i: usize) -> (r: usize)
    requires
        i <= v@.len(),
    ensures
        r == spec_plain_run_end(v@, i as int),
        i <= r <= v@.len(),
        forall|m: int| i <= m < r ==> is_plain_str_char(v@[m]),
        r < v@.len() ==> !is_plain_str_char(v@[r as int]),
{
    let mut k: usize = i;
    while k < v.len() && v[k] != '"' && v[k] != '\\' && (v[k] as u32) >= 32
        invariant
            i <= k <= v@.len(),
            spec_plain_run_end(v@, i as int) == spec_plain_run_end(v@, k as int),
            forall|m: int| i <= m < k ==> is_plain_str_char(v@[m]),
        decreases v@.len() - k,
    {
        k = k + 1;
    }
    k
}

/// End of the digit run starting at `i`.
fn digits_end(v: &Vec<char>, i: usize) -> (r: usize)
    requires
        i <= v@.len(),
    ensures
        r == spec_digits_end(v@, i as int),
        i <= r <= v@.len(),
        forall|m: int| i <= m < r ==> is_digit(v@[m]),
{
    let mut k: usize = i;
    while k < v.len() && '0' <= v[k] && v[k] <= '9'
        invariant
            i <= k <= v@.len(),
            spec_digits_end(v@, i as int) == spec_digits_end(v@, k as int),
            forall|m: int| i <= m < k ==> is_digit(v@[m]),
        decreases v@.len() - k,
    {
        k = k + 1;
    }
    k
}

/// The one-character string denoted by the escape `c`, if any.
fn escape_lit(c: char) -> (r: Option<&'static str>)
    ensures
        match escape_char(c) {
            Some(d) => r matches Some(l) && l@ =~= seq![d],
            None => r is None,
        },
{
    proof {
        reveal_strlit("\"");
        reveal_strlit("\\");
        reveal_strlit("/");
        reveal_strlit("\u{8}");
        reveal_strlit("\u{c}");
        reveal_strlit("\n");
        reveal_strlit("\r");
        reveal_strlit("\t");
    }
    match c {
        '"' => Some("\""),
        '\\' => Some("\\"),
        '/' => Some("/"),
        'b' => Some("\u{8}"),
        'f' => Some("\u{c}"),
        'n' => Some("\n"),
        'r' => Some("\r"),
        't' => Some("\t"),
        _ => None,
    }
}

/// Position just after the string literal whose opening quote stands at `i`.
pub fn skip_string(v: &Vec<char>, i: usize) -> (r: Option<usize>)
    requires
        i <= v@.len(),
    ensures
        match spec_string_at(v@, i as int) {
            Some(de) => r matches Some(re) && re == de.1,
            None => r is None,
        },
        r matches Some(e) ==> i < e <= v@.len(),
{
    let ghost t = v@;
    if !(i < v.len() && v[i] == '"') {
        return None;
    }
    let mut p: usize = i + 1;
    loop
        invariant
            t == v@,
            i < t.len(),
            t[i as int] == '"',
            i + 1 <= p <= t.len(),
            match spec_str_tail(t, p as int) {
                Some(de) => spec_str_tail(t, (i + 1) as int) matches Some(de0) && de0.1 == de.1,
                None => spec_str_tail(t, (i + 1) as int) is None,
            },
        decreases t.len() - p,
    {
        let k = plain_run_end(v, p);
        proof {
            lemma_str_tail_plain_prefix(t, p as int, k as int);
            lemma_str_tail_bounds(t, k as int);
        }
        if k == v.len() {
            return None;
        }
        let c = v[k];
        if c == '"' {
            return Some(k + 1);
        } else if c == '\\' {
            if k + 1 == v.len() {
                return None;
            }
            match escape_lit(v[k + 1]) {
                None => {
                    return None;
                },
                Some(_) => {
                    proof {
                        lemma_str_tail_bounds(t, (k + 2) as int);
                    }
                    p = k + 2;
                },
            }
        } else {
            return None;
        }
    }
}

/// Decoded contents and end position of the string literal whose opening
/// quote stands at `i`. `v` must hold the characters of `s`.
pub fn string_at(s: &str, v: &Vec<char>, i: usize) -> (r: Option<(String, usize)>)
    requires
        v@ == s@,
        i <= v@.len(),
    ensures
        (r is Some) == (spec_string_at(v@, i as int) is Some),
        r matches Some(de) ==> spec_string_at(v@, i as int) == Some((de.0@, de.1 as int)),
{
    let ghost t = v@;
    if !(i < v.len() && v[i] == '"') {
        return None;
    }
    let mut acc = String::new();
    let mut p: usize = i + 1;
    loop
        invariant
            t == v@,
            v@ == s@,
            i < t.len(),
            t[i as int] == '"',
            i + 1 <= p <= t.len(),
            match spec_str_tail(t, p as int) {
                Some(de) => spec_str_tail(t, (i + 1) as int) == Some((acc@ + de.0, de.1)),
                None => spec_str_tail(t, (i + 1) as int) is None,
            },
        decreases t.len() - p,
    {
        let k = plain_run_end(v, p);
        proof {
            lemma_str_tail_plain_prefix(t, p as int, k as int);
            lemma_str_tail_bounds(t, k as int);
        }
        let ghost acc0 = acc@;
        let run = s.substring_char(p, k);
        acc.append(run);
        if k == v.len() {
            return None;
        }
        let c = v[k];
        if c == '"' {
            proof {
                assert(acc0 + (t.subrange(p as int, k as int) + Seq::<char>::empty()) =~= acc@);
            }
            return Some((acc, k + 1));
        } else if c == '\\' {
            if k + 1 == v.len() {
                return None;
            }
            match escape_lit(v[k + 1]) {
                None => {
                    return None;
                },
                Some(lit) => {
                    proof {
                        lemma_str_tail_bounds(t, (k + 2) as int);
                    }
                    acc.append(lit);
                    proof {
                        match spec_str_tail(t, (k + 2) as int) {
                            Some(de) => {
                                assert(acc0 + (t.subrange(p as int, k as int) + (seq![
                                    escape_char(t[k + 1 as int])->0,
                                ] + de.0)) =~= acc@ + de.0);
                            },
                            None => {},
                        }
                    }
                    p = k + 2;
                },
            }
        } else {
            return None;
        }
    }
}

/// End of the exponent part that may start at `j`; `j` itself when no
/// exponent stands there.
pub open spec fn spec_exp_end(t: Seq<char>, j: int) -> Option<int> {
    if 0 <= j < t.len() && (t[j] == 'e' || t[j] == 'E') {
        let k = if j + 1 < t.len() && (t[j + 1] == '+' || t[j + 1] == '-') {
            j + 2
        } else {
            j + 1
        };
        if k < t.len() && is_digit(t[k]) {
            Some(spec_digits_end(t, k))
        } else {
            None
        }
    } else {
        Some(j)
    }
}

/// End of the optional fraction and exponent parts that may start at `j`.
pub open spec fn spec_frac_end(t: Seq<char>, j: int) -> Option<int> {
    if 0 <= j < t.len() && t[j] == '.' {
        if j + 1 < t.len() && is_digit(t[j + 1]) {
            spec_exp_end(t, spec_digits_end(t, j + 1))
        } else {
            None
        }
    } else {
        spec_exp_end(t, j)
    }
}

/// End of the number literal starting at `i`.
pub open spec fn spec_number_end(t: Seq<char>, i: int) -> Option<int> {
    if !(0 <= i < t.len()) {
        None
    } else {
        let j = if t[i] == '-' {
            i + 1
        } else {
            i
        };
        if !(j < t.len()) {
            None
        } else if t[j] == '0' {
            spec_frac_end(t, j + 1)
        } else if is_digit(t[j]) {
            spec_frac_end(t, spec_digits_end(t, j))
        } else {
            None
        }
    }
}

proof fn lemma_number_end_bounds(t: Seq<char>, i: int)
    requires
        0 <= i <= t.len(),
    ensures
        spec_number_end(t, i) matches Some(e) ==> i < e <= t.len(),
{
    if i < t.len() {
        let j = if t[i] == '-' {
            i + 1
        } else {
            i
        };
        if j < t.len() {
            if t[j] == '0' {
                lemma_frac_end_bounds(t, j + 1);
            } else if is_digit(t[j]) {
                lemma_digits_end_bounds(t, j + 1);
                assert(spec_digits_end(t, j) == spec_digits_end(t, j + 1));
                lemma_frac_end_bounds(t, spec_digits_end(t, j));
            }
        }
    }
}

proof fn lemma_frac_end_bounds(t: Seq<char>, j: int)
    requires
        0 <= j <= t.len(),
    ensures
        spec_frac_end(t, j) matches Some(e) ==> j <= e <= t.len(),
{
    if 0 <= j < t.len() && t[j] == '.' {
        if j + 1 < t.len() && is_digit(t[j + 1]) {
            lemma_digits_end_bounds(t, j + 1);
            lemma_exp_end_bounds(t, spec_digits_end(t, j + 1));
        }
    } else {
        lemma_exp_end_bounds(t, j);
    }
}

proof fn lemma_exp_end_bounds(t: Seq<char>, j: int)
    requires
        0 <= j <= t.len(),
    ensures
        spec_exp_end(t, j) matches Some(e) ==> j <= e <= t.len(),
{
    if 0 <= j < t.len() && (t[j] == 'e' || t[j] == 'E') {
        let k = if j + 1 < t.len() && (t[j + 1] == '+' || t[j + 1] == '-') {
            j + 2
        } else {
            j + 1
        };
        if k < t.len() && is_digit(t[k]) {
            lemma_digits_end_bounds(t, k);
        }
    }
}

/// End of the exponent part that may start at `j`.
fn exp_end(v: &Vec<char>, j: usize) -> (r: Option<usize>)
    requires
        j <= v@.len(),
    ensures
        match spec_exp_end(v@, j as int) {
            Some(e) => r matches Some(re) && re == e,
            None => r is None,
        },
        r matches Some(e) ==> j <= e <= v@.len(),
{
    if j < v.len() && (v[j] == 'e' || v[j] == 'E') {
        let k: usize = if j + 1 < v.len() && (v[j + 1] == '+' || v[j + 1] == '-') {
            j + 2
        } else {
            j + 1
        };
        if k < v.len() && '0' <= v[k] && v[k] <= '9' {
            Some(digits_end(v, k))
        } else {
            None
        }
    } else {
        Some(j)
    }
}

/// End of the optional fraction and exponent parts that may start at `j`.
fn frac_end(v: &Vec<char>, j: usize) -> (r: Option<usize>)
    requires
        j <= v@.len(),
    ensures
        match spec_frac_end(v@, j as int) {
            Some(e) => r matches Some(re) && re == e,
            None => r is None,
        },
        r matches Some(e) ==> j <= e <= v@.len(),
{
    if j < v.len() && v[j] == '.' {
        if j + 1 < v.len() && '0' <= v[j + 1] && v[j + 1] <= '9' {
            exp_end(v, digits_end(v, j + 1))
        } else {
            None
        }
    } else {
        exp_end(v, j)
    }
}

/// End of the number literal starting at `i`.
pub fn number_end(v: &Vec<char>, i: usize) -> (r: Option<usize>)
    requires
        i <= v@.len(),
    ensures
        match spec_number_end(v@, i as int) {
            Some(e) => r matches Some(re) && re == e,
            None => r is None,
        },
        r matches Some(e) ==> i < e <= v@.len(),
{
    proof {
        lemma_number_end_bounds(v@, i as int);
    }
    if !(i < v.len()) {
        return None;
    }
    let j: usize = if v[i] == '-' {
        i + 1
    } else {
        i
    };
    if !(j < v.len()) {
        None
    } else if v[j] == '0' {
        frac_end(v, j + 1)
    } else if '0' <= v[j] && v[j] <= '9' {
        frac_end(v, digits_end(v, j))
    } else {
        None
    }
}

/// End of the JSON value starting exactly at `i`.
pub open spec fn spec_value_end(t: Seq<char>, i: int) -> Option<int>
    decreases t.len() - i, 1int,
{
    if !(0 <= i < t.len()) {
        None
    } else if t[i] == '"' {
        match spec_str_tail(t, i + 1) {
            Some(de) => Some(de.1),
            None => None,
        }
    } else if t[i] == '{' {
        spec_members_end(t, i + 1, true)
    } else if t[i] == '[' {
        spec_elements_end(t, i + 1, true)
    } else if t[i] == 't' {
        if i + 4 <= t.len() && t[i + 1] == 'r' && t[i + 2] == 'u' && t[i + 3] == 'e' {
            Some(i + 4)
        } else {
            None
        }
    } else if t[i] == 'f' {
        if i + 5 <= t.len() && t[i + 1] == 'a' && t[i + 2] == 'l' && t[i + 3] == 's' && t[i + 4]
            == 'e' {
            Some(i + 5)
        } else {
            None
        }
    } else if t[i] == 'n' {
        if i + 4 <= t.len() && t[i + 1] == 'u' && t[i + 2] == 'l' && t[i + 3] == 'l' {
            Some(i + 4)
        } else {
            None
        }
    } else if t[i] == '-' || is_digit(t[i]) {
        spec_number_end(t, i)
    } else {
        None
    }
}

/// End of the member list of an object whose opening brace stands just
/// before `i`. `first` is false after a comma, where a further member is
/// mandatory.
pub open spec fn spec_members_end(t: Seq<char>, i: int, first: bool) -> Option<int>
    decreases t.len() - i, 2int,
{
    if !(0 <= i <= t.len()) {
        None
    } else {
        let j = spec_ws_end(t, i);
        if !(i <= j < t.len()) {
            None
        } else if t[j] == '}' && first {
            Some(j + 1)
        } else if t[j] == '"' {
            match spec_str_tail(t, j + 1) {
                None => None,
                Some(kde) => {
                    if !(j + 1 < kde.1 <= t.len()) {
                        None
                    } else {
                        let m = spec_ws_end(t, kde.1);
                        if !(kde.1 <= m < t.len()) {
                            None
                        } else if t[m] != ':' {
                            None
                        } else {
                            let vp = spec_ws_end(t, m + 1);
                            if !(m + 1 <= vp <= t.len()) {
                                None
                            } else {
                                match spec_value_end(t, vp) {
                                    None => None,
                                    Some(e) => {
                                        if !(vp < e <= t.len()) {
                                            None
                                        } else {
                                            let w = spec_ws_end(t, e);
                                            if !(e <= w < t.len()) {
                                                None
                                            } else if t[w] == ',' {
                                                spec_members_end(t, w + 1, false)
                                            } else if t[w] == '}' {
                                                Some(w + 1)
                                            } else {
                                                None
                                            }
                                        }
                                    },
                                }
                            }
                        }
                    }
                },
            }
        } else {
            None
        }
    }
}

/// End of the element list of an array whose opening bracket stands just
/// before `i`. `first` is false after a comma, where a further element is
/// mandatory.
pub open spec fn spec_elements_end(t: Seq<char>, i: int, first: bool) -> Option<int>
    decreases t.len() - i, 2int,
{
    if !(0 <= i <= t.len()) {
        None
    } else {
        let j = spec_ws_end(t, i);
        if !(i <= j < t.len()) {
            None
        } else if t[j] == ']' && first {
            Some(j + 1)
        } else {
            match spec_value_end(t, j) {
                None => None,
                Some(e) => {
                    if !(j < e <= t.len()) {
                        None
                    } else {
                        let w = spec_ws_end(t, e);
                        if !(e <= w < t.len()) {
                            None
                        } else if t[w] == ',' {
                            spec_elements_end(t, w + 1, false)
                        } else if t[w] == ']' {
                            Some(w + 1)
                        } else {
                            None
                        }
                    }
                },
            }
        }
    }
}

/// End of the JSON value starting exactly at `i`.
pub fn value_end(v: &Vec<char>, i: usize) -> (r: Option<usize>)
    requires
        i <= v@.len(),
    ensures
        match spec_value_end(v@, i as int) {
            Some(e) => r matches Some(re) && re == e,
            None => r is None,
        },
        r matches Some(e) ==> i < e <= v@.len(),
    decreases v@.len() - i, 1int,
{
    if !(i < v.len()) {
        return None;
    }
    let c = v[i];
    if c == '"' {
        proof {
            lemma_str_tail_bounds(v@, i as int + 1);
        }
        skip_string(v, i)
    } else if c == '{' {
        members_end(v, i + 1, true)
    } else if c == '[' {
        elements_end(v, i + 1, true)
    } else if c == 't' {
        if v.len() - i >= 4 && v[i + 1] == 'r' && v[i + 2] == 'u' && v[i + 3] == 'e' {
            Some(i + 4)
        } else {
            None
        }
    } else if c == 'f' {
        if v.len() - i >= 5 && v[i + 1] == 'a' && v[i + 2] == 'l' && v[i + 3] == 's' && v[i + 4]
            == 'e' {
            Some(i + 5)
        } else {
            None
        }
    } else if c == 'n' {
        if v.len() - i >= 4 && v[i + 1] == 'u' && v[i + 2] == 'l' && v[i + 3] == 'l' {
            Some(i + 4)
        } else {
            None
        }
    } else if c == '-' || ('0' <= c && c <= '9') {
        number_end(v, i)
    } else {
        None
    }
}

/// End of the member list of an object whose opening brace stands just
/// before `i`.
fn members_end(v: &Vec<char>, i: usize, first: bool) -> (r: Option<usize>)
    requires
        i <= v@.len(),
    ensures
        match spec_members_end(v@, i as int, first) {
            Some(e) => r matches Some(re) && re == e,
            None => r is None,
        },
        r matches Some(e) ==> i < e <= v@.len(),
    decreases v@.len() - i, 2int,
{
    let j = ws_end(v, i);
    if !(j < v.len()) {
        return None;
    }
    if v[j] == '}' && first {
        return Some(j + 1);
    }
    if v[j] != '"' {
        return None;
    }
    proof {
        lemma_str_tail_bounds(v@, j as int + 1);
    }
    let k = match skip_string(v, j) {
        None => {
            return None;
        },
        Some(k) => k,
    };
    let m = ws_end(v, k);
    if !(m < v.len()) {
        return None;
    }
    if v[m] != ':' {
        return None;
    }
    let vp = ws_end(v, m + 1);
    let e = match value_end(v, vp) {
        None => {
            return None;
        },
        Some(e) => e,
    };
    let w = ws_end(v, e);
    if !(w < v.len()) {
        return None;
    }
    if v[w] == ',' {
        members_end(v, w + 1, false)
    } else if v[w] == '}' {
        Some(w + 1)
    } else {
        None
    }
}

/// End of the element list of an array whose opening bracket stands just
/// before `i`.
fn elements_end(v: &Vec<char>, i: usize, first: bool) -> (r: Option<usize>)
    requires
        i <= v@.len(),
    ensures
        match spec_elements_end(v@, i as int, first) {
            Some(e) => r matches Some(re) && re == e,
            None => r is None,
        },
        r matches Some(e) ==> i < e <= v@.len(),
    decreases v@.len() - i, 2int,
{
    let j = ws_end(v, i);
    if !(j < v.len()) {
        return None;
    }
    if v[j] == ']' && first {
        return Some(j + 1);
    }
    let e = match value_end(v, j) {
        None => {
            return None;
        },
        Some(e) => e,
    };
    let w = ws_end(v, e);
    if !(w < v.len()) {
        return None;
    }
    if v[w] == ',' {
        elements_end(v, w + 1, false)
    } else if v[w] == ']' {
        Some(w + 1)
    } else {
        None
    }
}

/// Position of the value bound to `key` in the member list that starts at
/// `i` (just after the opening brace or after a comma); `None` when the
/// list is malformed or holds no such key before its closing brace.
pub open spec fn spec_member_value(t: Seq<char>, i: int, key: Seq<char>) -> Option<int>
    decreases t.len() - i,
{
    if !(0 <= i <= t.len()) {
        None
    } else {
        let j = spec_ws_end(t, i);
        if !(i <= j < t.len()) {
            None
        } else if t[j] == '"' {
            match spec_str_tail(t, j + 1) {
                None => None,
                Some(kde) => {
                    if !(j + 1 < kde.1 <= t.len()) {
                        None
                    } else {
                        let m = spec_ws_end(t, kde.1);
                        if !(kde.1 <= m < t.len()) {
                            None
                        } else if t[m] != ':' {
                            None
                        } else {
                            let vp = spec_ws_end(t, m + 1);
                            if !(m + 1 <= vp <= t.len()) {
                                None
                            } else if kde.0 == key {
                                Some(vp)
                            } else {
                                match spec_value_end(t, vp) {
                                    None => None,
                                    Some(e) => {
                                        if !(vp < e <= t.len()) {
                                            None
                                        } else {
                                            let w = spec_ws_end(t, e);
                                            if !(e <= w < t.len()) {
                                                None
                                            } else if t[w] == ',' {
                                                spec_member_value(t, w + 1, key)
                                            } else {
                                                None
                                            }
                                        }
                                    },
                                }
                            }
                        }
                    }
                },
            }
        } else {
            None
        }
    }
}

/// Position of the value bound to `key` in the member list starting at `i`.
/// `v` must hold the characters of `s`.
pub fn member_value(s: &str, v: &Vec<char>, i: usize, key: &String) -> (r: Option<usize>)
    requires
        v@ == s@,
        i <= v@.len(),
    ensures
        match spec_member_value(v@, i as int, key@) {
            Some(p) => r matches Some(rp) && rp == p,
            None => r is None,
        },
        r matches Some(p) ==> i < p <= v@.len(),
    decreases v@.len() - i,
{
    let j = ws_end(v, i);
    if !(j < v.len()) {
        return None;
    }
    if v[j] != '"' {
        return None;
    }
    proof {
        lemma_str_tail_bounds(v@, j as int + 1);
    }
    let (kstr, k) = match string_at(s, v, j) {
        None => {
            return None;
        },
        Some(kde) => kde,
    };
    let m = ws_end(v, k);
    if !(m < v.len()) {
        return None;
    }
    if v[m] != ':' {
        return None;
    }
    let vp = ws_end(v, m + 1);
    if kstr.eq(key) {
        return Some(vp);
    }
    let e = match value_end(v, vp) {
        None => {
            return None;
        },
        Some(e) => e,
    };
    let w = ws_end(v, e);
    if !(w < v.len()) {
        return None;
    }
    if v[w] == ',' {
        member_value(s, v, w + 1, key)
    } else {
        None
    }
}

/// Numeric value of a sequence of decimal digit characters, most
/// significant first.
pub open spec fn digits_value(d: Seq<char>) -> int
    decreases d.len(),
{
    if d.len() == 0 {
        0
    } else {
        digits_value(d.drop_last()) * 10 + (d.last() as u32 - 48)
    }
}

/// The unsigned integer denoted by the number literal at `p`: the literal
/// must be a plain run of digits (no sign, fraction or exponent) and its
/// value must fit in a `u64`.
pub open spec fn spec_u64_at(t: Seq<char>, p: int) -> Option<u64> {
    if !(0 <= p < t.len() && is_digit(t[p])) {
        None
    } else {
        match spec_number_end(t, p) {
            None => None,
            Some(e) => {
                if e == spec_digits_end(t, p) && 0 <= digits_value(t.subrange(p, e))
                    <= u64::MAX {
                    Some(digits_value(t.subrange(p, e)) as u64)
                } else {
                    None
                }
            },
        }
    }
}

proof fn lemma_digits_value_nonneg(d: Seq<char>)
    requires
        forall|m: int| 0 <= m < d.len() ==> is_digit(d[m]),
    ensures
        digits_value(d) >= 0,
    decreases d.len(),
{
    if d.len() > 0 {
        lemma_digits_value_nonneg(d.drop_last());
    }
}

proof fn lemma_digits_value_mono(t: Seq<char>, p: int, a: int, b: int)
    requires
        0 <= p <= a <= b <= t.len(),
        forall|m: int| p <= m < b ==> is_digit(t[m]),
    ensures
        digits_value(t.subrange(p, a)) <= digits_value(t.subrange(p, b)),
    decreases b - a,
{
    if a < b {
        lemma_digits_value_mono(t, p, a, b - 1);
        assert(t.subrange(p, b).drop_last() =~= t.subrange(p, b - 1));
        assert(forall|m: int| 0 <= m < b - p ==> is_digit(t.subrange(p, b)[m]));
        lemma_digits_value_nonneg(t.subrange(p, b - 1));
        let x = digits_value(t.subrange(p, b - 1));
        assert(digits_value(t.subrange(p, b)) == x * 10 + (t[b - 1] as u32 - 48));
        assert(x * 10 >= x);
    }
}

/// The unsigned integer denoted by the digit run at `p`.
pub fn u64_at(v: &Vec<char>, p: usize) -> (r: Option<u64>)
    requires
        p <= v@.len(),
    ensures
        r == spec_u64_at(v@, p as int),
{
    let ghost t = v@;
    if !(p < v.len() && '0' <= v[p] && v[p] <= '9') {
        return None;
    }
    let ne = match number_end(v, p) {
        None => {
            return None;
        },
        Some(e) => e,
    };
    let de = digits_end(v, p);
    if ne != de {
        return None;
    }
    let mut acc: u64 = 0;
    let mut q: usize = p;
    while q < de
        invariant
            t == v@,
            p <= q <= de <= t.len(),
            de == spec_digits_end(t, p as int),
            forall|m: int| p <= m < de ==> is_digit(t[m]),
            acc == digits_value(t.subrange(p as int, q as int)),
        decreases de - q,
    {
        let dg: u64 = (v[q] as u32 - 48) as u64;
        proof {
            assert(is_digit(t[q as int]));
        }
        if acc > (u64::MAX - dg) / 10 {
            proof {
                assert(acc * 10 + dg > u64::MAX) by {
                    let lim = (u64::MAX - dg) / 10;
                    assert(acc >= lim + 1);
                    assert(acc * 10 >= (lim + 1) * 10) by (nonlinear_arith)
                        requires
                            acc >= lim + 1,
                    ;
                    assert((lim + 1) * 10 > u64::MAX - dg) by (nonlinear_arith)
                        requires
                            lim == (u64::MAX - dg) / 10,
                            0 <= dg <= 9,
                    ;
                }
                assert(t.subrange(p as int, q as int + 1).drop_last() =~= t.subrange(
                    p as int,
                    q as int,
                ));
                assert(t.subrange(p as int, q as int + 1).last() == t[q as int]);
                assert(digits_value(t.subrange(p as int, q as int + 1)) == acc * 10 + dg);
                lemma_digits_value_mono(t, p as int, q as int + 1, de as int);
                assert(digits_value(t.subrange(p as int, de as int)) > u64::MAX);
            }
            return None;
        }
        proof {
            let lim = (u64::MAX - dg) / 10;
            assert(acc * 10 <= lim * 10) by (nonlinear_arith)
                requires
                    acc <= lim,
            ;
            assert(lim * 10 <= u64::MAX - dg) by (nonlinear_arith)
                requires
                    lim == (u64::MAX - dg) / 10,
                    0 <= dg <= 9,
            ;
        }
        acc = acc * 10 + dg;
        q = q + 1;
        proof {
            assert(t.subrange(p as int, q as int).drop_last() =~= t.subrange(
                p as int,
                q as int - 1,
            ));
            assert(t.subrange(p as int, q as int).last() == t[q as int - 1]);
        }
    }
    proof {
        assert(t.subrange(p as int, de as int) =~= t.subrange(p as int, q as int));
    }
    Some(acc)
}

/// The whole of `t` is one JSON value, possibly surrounded by whitespace.
pub open spec fn spec_document_ok(t: Seq<char>) -> bool {
    let j = spec_ws_end(t, 0);
    &&& 0 <= j < t.len()
    &&& match spec_value_end(t, j) {
        Some(e) => spec_ws_end(t, e) == t.len(),
        None => false,
    }
}

/// Whether the whole of `v` is one JSON value, possibly surrounded by
/// whitespace.
pub fn document_ok(v: &Vec<char>) -> (r: bool)
    ensures
        r == spec_document_ok(v@),
{
    let j = ws_end(v, 0);
    if !(j < v.len()) {
        return false;
    }
    match value_end(v, j) {
        None => false,
        Some(e) => {
            let w = ws_end(v, e);
            w == v.len()
        },
    }
}

} // verus!
