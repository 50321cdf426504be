//! A small verified reader and writer for the key-specification document
//! format: a single flat object whose members are strings or unsigned
//! integers, as in `{"label":"backup","id":1}`. String literals may carry
//! escaped quotes and backslashes; other escapes and control characters
//! are refused.
//!
//! The executable reader and writer are each specified against a
//! specification-level twin over `Seq<char>`, so callers' contracts can say
//! exactly which documents are accepted and what they denote.

use vstd::prelude::*;

verus! {

/// A member value: a string or an unsigned integer.
#[derive(Debug, Clone, PartialEq, Eq)]
pub enum JsonValue {
    Str(String),
    Uint(u64),
}

/// The mathematical form of a member value.
pub enum JsonVal {
    S(Seq<char>),
    U(u64),
}

impl View for JsonValue {
    type V = JsonVal;

    open spec fn view(&self) -> JsonVal {
        match self {
            JsonValue::Str(s) => JsonVal::S(s@),
            JsonValue::Uint(n) => JsonVal::U(*n),
        }
    }
}

/// The mathematical form of a parsed document: its members in order.
pub open spec fn pairs_view(v: Seq<(String, JsonValue)>) -> Seq<(Seq<char>, JsonVal)> {
    Seq::new(v.len(), |i: int| (v[i].0@, v[i].1@))
}

/// Insignificant whitespace between tokens.
pub open spec fn is_ws_char(c: char) -> bool {
    c == ' ' || c == '\n' || c == '\t' || c == '\r'
}

/// A decimal digit.
pub open spec fn is_digit_char(c: char) -> bool {
    c as u32 >= 48 && c as u32 <= 57
}

/// The value of a decimal digit.
pub open spec fn digit_val(c: char) -> nat {
    (c as u32 - 48) as nat
}

/// A character accepted inside a string literal: anything but the closing
/// quote, a backslash escape, or a control character.
pub open spec fn is_str_char(c: char) -> bool {
    c != '"' && c != '\\' && c as u32 >= 0x20
}

/// Whether text carries nothing but whitespace.
pub open spec fn is_blank(s: Seq<char>) -> bool {
    forall|i: int| 0 <= i < s.len() ==> is_ws_char(s[i])
}

/// Executable twin of [`is_blank`].
pub fn is_blank_x(s: &str) -> (r: bool)
    ensures
        r == is_blank(s@),
{
    let n = s.unicode_len();
    let mut i: usize = 0;
    while i < n
        invariant
            n == s@.len(),
            i <= n,
            forall|t: int| 0 <= t < i ==> is_ws_char(s@[t]),
        decreases n - i,
    {
        let c = s.get_char(i);
        if !(c == ' ' || c == '\n' || c == '\t' || c == '\r') {
            return false;
        }
        i = i + 1;
    }
    true
}

/// The first index at or after `i` holding a non-whitespace character.
pub open spec fn ws_end(s: Seq<char>, i: int) -> int
    decreases s.len() - i,
{
    if 0 <= i < s.len() && is_ws_char(s[i]) {
        ws_end(s, i + 1)
    } else {
        i
    }
}

/// A character written behind a backslash escape inside a string literal.
pub open spec fn is_esc_char(c: char) -> bool {
    c == '"' || c == '\\'
}

/// The first index at or after `i` holding a character that cannot stand
/// plainly inside a string literal.
pub open spec fn plain_end(s: Seq<char>, i: int) -> int
    decreases s.len() - i,
{
    if 0 <= i < s.len() && is_str_char(s[i]) {
        plain_end(s, i + 1)
    } else {
        i
    }
}

proof fn lemma_plain_end_bounds(s: Seq<char>, i: int)
    ensures
        i <= plain_end(s, i),
        0 <= i <= s.len() ==> plain_end(s, i) <= s.len(),
    decreases s.len() - i,
{
    if 0 <= i < s.len() && is_str_char(s[i]) {
        lemma_plain_end_bounds(s, i + 1);
    }
}

/// The unescaped body and the closing-quote index of the string literal
/// whose body starts at `i`: plain characters stand for themselves, and a
/// backslash followed by a quote or a backslash stands for that character.
pub open spec fn str_scan(s: Seq<char>, i: int) -> Option<(Seq<char>, int)>
    decreases s.len() - i,
        via str_scan_decreases
{
    let j = plain_end(s, i);
    if j < 0 || j >= s.len() {
        None
    } else if s[j] == '"' {
        Some((s.subrange(i, j), j))
    } else if s[j] == '\\' && j + 1 < s.len() && is_esc_char(s[j + 1]) {
        match str_scan(s, j + 2) {
            Some((rest, end)) => Some((s.subrange(i, j) + seq![s[j + 1]] + rest, end)),
            None => None,
        }
    } else {
        None
    }
}

#[via_fn]
proof fn str_scan_decreases(s: Seq<char>, i: int) {
    lemma_plain_end_bounds(s, i);
}

/// The first index at or after `i` holding a non-digit character.
pub open spec fn digits_end(s: Seq<char>, i: int) -> int
    decreases s.len() - i,
{
    if 0 <= i < s.len() && is_digit_char(s[i]) {
        digits_end(s, i + 1)
    } else {
        i
    }
}

/// The value of the decimal digit run `s[i .. j)`.
pub open spec fn digits_val(s: Seq<char>, i: int, j: int) -> nat
    decreases j - i,
{
    if j <= i {
        0
    } else {
        digits_val(s, i, j - 1) * 10 + digit_val(s[j - 1])
    }
}

proof fn lemma_digits_end_bounds(s: Seq<char>, i: int)
    requires
        0 <= i <= s.len(),
    ensures
        i <= digits_end(s, i) <= s.len(),
        forall|t: int| i <= t < digits_end(s, i) ==> is_digit_char(s[t]),
    decreases s.len() - i,
{
    if i < s.len() && is_digit_char(s[i]) {
        lemma_digits_end_bounds(s, i + 1);
    }
}

/// Appending digits to a run never shrinks its value.
proof fn lemma_digits_val_mono(s: Seq<char>, i: int, j: int, k: int)
    requires
        i <= j <= k,
    ensures
        digits_val(s, i, j) <= digits_val(s, i, k),
    decreases k - j,
{
    if j < k {
        lemma_digits_val_mono(s, i, j, k - 1);
    }
}

/// Executable twin of [`ws_end`].
fn ws_end_x(s: &str, i: usize) -> (r: usize)
    requires
        i <= s@.len(),
    ensures
        r == ws_end(s@, i as int),
        i <= r <= s@.len(),
    decreases s@.len() - i,
{
    let n = s.unicode_len();
    if i < n {
        let c = s.get_char(i);
        if c == ' ' || c == '\n' || c == '\t' || c == '\r' {
            ws_end_x(s, i + 1)
        } else {
            i
        }
    } else {
        i
    }
}

/// Executable twin of [`plain_end`].
fn plain_end_x(s: &str, i: usize) -> (r: usize)
    requires
        i <= s@.len(),
    ensures
        r == plain_end(s@, i as int),
        i <= r <= s@.len(),
    decreases s@.len() - i,
{
    let n = s.unicode_len();
    if i < n {
        let c = s.get_char(i);
        if c != '"' && c != '\\' && c as u32 >= 0x20 {
            plain_end_x(s, i + 1)
        } else {
            i
        }
    } else {
        i
    }
}

/// Executable twin of [`str_scan`].
fn str_scan_x(s: &str, i: usize) -> (r: Option<(String, usize)>)
    requires
        i <= s@.len(),
    ensures
        match r {
            Some((body, j)) => str_scan(s@, i as int) == Some((body@, j as int)) && i <= j
                < s@.len(),
            None => str_scan(s@, i as int) is None,
        },
    decreases s@.len() - i,
{
    let n = s.unicode_len();
    let j = plain_end_x(s, i);
    if j >= n {
        return None;
    }
    let c = s.get_char(j);
    if c == '"' {
        Some((s.substring_char(i, j).to_owned(), j))
    } else if c == '\\' && j + 1 < n {
        let e = s.get_char(j + 1);
        if e == '"' || e == '\\' {
            match str_scan_x(s, j + 2) {
                Some((rest, end)) => {
                    let mut body = s.substring_char(i, j).to_owned();
                    let esc = if e == '"' {
                        "\""
                    } else {
                        "\\"
                    };
                    proof {
                        reveal_strlit("\"");
                        reveal_strlit("\\");
                        assert(esc@ =~= seq![e]);
                    }
                    body.append(esc);
                    body.append(rest.as_str());
                    proof {
                        assert(body@ =~= s@.subrange(i as int, j as int) + seq![s@[j + 1]]
                            + rest@);
                    }
                    Some((body, end))
                },
                None => None,
            }
        } else {
            None
        }
    } else {
        None
    }
}

/// Executable twin of [`digits_end`].
fn digits_end_x(s: &str, i: usize) -> (r: usize)
    requires
        i <= s@.len(),
    ensures
        r == digits_end(s@, i as int),
        i <= r <= s@.len(),
    decreases s@.len() - i,
{
    let n = s.unicode_len();
    if i < n {
        let c = s.get_char(i);
        if c as u32 >= 48 && c as u32 <= 57 {
            digits_end_x(s, i + 1)
        } else {
            i
        }
    } else {
        i
    }
}

/// The member value starting at `i` (no leading whitespace) and the index
/// just past it, if one is there: a string literal or a decimal integer that
/// fits in a `u64`.
pub open spec fn value_at(s: Seq<char>, i: int) -> Option<(JsonVal, int)> {
    if i < 0 || i >= s.len() {
        None
    } else if s[i] == '"' {
        match str_scan(s, i + 1) {
            Some((body, j)) => Some((JsonVal::S(body), j + 1)),
            None => None,
        }
    } else if is_digit_char(s[i]) {
        let j = digits_end(s, i);
        if digits_val(s, i, j) <= u64::MAX {
            Some((JsonVal::U(digits_val(s, i, j) as u64), j))
        } else {
            None
        }
    } else {
        None
    }
}

/// The `"key" : value` member starting at `i` (leading whitespace allowed)
/// and the index just past its value.
pub open spec fn member_at(s: Seq<char>, i: int) -> Option<((Seq<char>, JsonVal), int)> {
    let k = ws_end(s, i);
    if k < s.len() && s[k] == '"' {
        match str_scan(s, k + 1) {
            Some((key, j)) => {
                let c = ws_end(s, j + 1);
                if c < s.len() && s[c] == ':' {
                    match value_at(s, ws_end(s, c + 1)) {
                        Some((v, e)) => Some(((key, v), e)),
                        None => None,
                    }
                } else {
                    None
                }
            },
            None => None,
        }
    } else {
        None
    }
}

/// The comma-separated members starting at `i` up to and including the
/// closing brace, and the index just past that brace. `fuel` only bounds the
/// recursion; every call supplies more than the document's length.
pub open spec fn members_from(s: Seq<char>, i: int, fuel: nat) -> Option<
    (Seq<(Seq<char>, JsonVal)>, int),
>
    decreases fuel,
{
    if fuel == 0 {
        None
    } else {
        match member_at(s, i) {
            Some((p, e)) => {
                let c = ws_end(s, e);
                if c < s.len() && s[c] == ',' {
                    match members_from(s, c + 1, (fuel - 1) as nat) {
                        Some((rest, e2)) => Some((seq![p] + rest, e2)),
                        None => None,
                    }
                } else if c < s.len() && s[c] == '}' {
                    Some((seq![p], c + 1))
                } else {
                    None
                }
            },
            None => None,
        }
    }
}

/// The document `s` as the sequence of its members, if `s` is one flat
/// object with nothing but whitespace around it.
pub open spec fn doc_members(s: Seq<char>) -> Option<Seq<(Seq<char>, JsonVal)>> {
    let i = ws_end(s, 0);
    if i < s.len() && s[i] == '{' {
        let j = ws_end(s, i + 1);
        if j < s.len() && s[j] == '}' {
            if ws_end(s, j + 1) == s.len() {
                Some(Seq::empty())
            } else {
                None
            }
        } else {
            match members_from(s, i + 1, s.len() + 1) {
                Some((ps, e)) => {
                    if 0 <= e <= s.len() && ws_end(s, e) == s.len() {
                        Some(ps)
                    } else {
                        None
                    }
                },
                None => None,
            }
        }
    } else {
        None
    }
}

/// Executable twin of [`value_at`].
fn value_at_x(s: &str, i: usize) -> (r: Option<(JsonValue, usize)>)
    requires
        i <= s@.len(),
    ensures
        match r {
            Some((v, j)) => value_at(s@, i as int) == Some((v@, j as int)) && i < j <= s@.len(),
            None => value_at(s@, i as int) is None,
        },
{
    let n = s.unicode_len();
    if i >= n {
        return None;
    }
    let c = s.get_char(i);
    if c == '"' {
        match str_scan_x(s, i + 1) {
            Some((body, j)) => Some((JsonValue::Str(body), j + 1)),
            None => None,
        }
    } else if c as u32 >= 48 && c as u32 <= 57 {
        let j = digits_end_x(s, i);
        proof {
            lemma_digits_end_bounds(s@, i as int);
            lemma_digits_end_bounds(s@, i + 1);
            assert(digits_end(s@, i as int) == digits_end(s@, i + 1));
        }
        let mut acc: u64 = 0;
        let mut k: usize = i;
        while k < j
            invariant
                i <= k <= j <= s@.len(),
                j == digits_end(s@, i as int),
                forall|t: int| i <= t < j ==> is_digit_char(s@[t]),
                acc == digits_val(s@, i as int, k as int),
            decreases j - k,
        {
            let d = s.get_char(k) as u32 - 48;
            let step = match acc.checked_mul(10) {
                Some(m) => m.checked_add(d as u64),
                None => None,
            };
            match step {
                Some(next) => {
                    acc = next;
                },
                None => {
                    proof {
                        assert(digits_val(s@, i as int, k + 1) > u64::MAX);
                        lemma_digits_val_mono(s@, i as int, k + 1, j as int);
                    }
                    return None;
                },
            }
            k = k + 1;
        }
        Some((JsonValue::Uint(acc), j))
    } else {
        None
    }
}

/// Executable twin of [`member_at`].
fn member_at_x(s: &str, i: usize) -> (r: Option<((String, JsonValue), usize)>)
    requires
        i <= s@.len(),
    ensures
        match r {
            Some(((key, v), e)) => member_at(s@, i as int) == Some(((key@, v@), e as int)) && i
                <= e <= s@.len(),
            None => member_at(s@, i as int) is None,
        },
{
    let n = s.unicode_len();
    let k = ws_end_x(s, i);
    if !(k < n && s.get_char(k) == '"') {
        return None;
    }
    match str_scan_x(s, k + 1) {
        Some((key, j)) => {
            let c = ws_end_x(s, j + 1);
            if c < n && s.get_char(c) == ':' {
                let v = ws_end_x(s, c + 1);
                match value_at_x(s, v) {
                    Some((val, e)) => Some(((key, val), e)),
                    None => None,
                }
            } else {
                None
            }
        },
        None => None,
    }
}

/// Executable twin of [`members_from`].
fn members_from_x(s: &str, i: usize, Ghost(fuel): Ghost<nat>) -> (r: Option<
    (Vec<(String, JsonValue)>, usize),
>)
    requires
        i <= s@.len(),
        fuel > s@.len() - i,
    ensures
        match r {
            Some((ps, e)) => members_from(s@, i as int, fuel) == Some((pairs_view(ps@), e as int))
                && i <= e <= s@.len(),
            None => members_from(s@, i as int, fuel) is None,
        },
    decreases s@.len() - i,
{
    let n = s.unicode_len();
    match member_at_x(s, i) {
        Some((p, e)) => {
            let c = ws_end_x(s, e);
            if c < n && s.get_char(c) == ',' {
                match members_from_x(s, c + 1, Ghost((fuel - 1) as nat)) {
                    Some((rest, e2)) => {
                        let ghost rest_snap = rest@;
                        let mut ps: Vec<(String, JsonValue)> = Vec::new();
                        ps.push(p);
                        let mut rest = rest;
                        ps.append(&mut rest);
                        proof {
                            assert(pairs_view(ps@) =~= seq![(ps@[0].0@, ps@[0].1@)] + pairs_view(
                                rest_snap,
                            ));
                        }
                        Some((ps, e2))
                    },
                    None => None,
                }
            } else if c < n && s.get_char(c) == '}' {
                let mut ps: Vec<(String, JsonValue)> = Vec::new();
                ps.push(p);
                proof {
                    assert(pairs_view(ps@) =~= seq![(p.0@, p.1@)]);
                }
                Some((ps, c + 1))
            } else {
                None
            }
        },
        None => None,
    }
}

/// Reads the document as one flat object and returns its members in order;
/// `None` on any malformed document. Executable twin of [`doc_members`].
pub fn parse_object(s: &str) -> (r: Option<Vec<(String, JsonValue)>>)
    ensures
        match r {
            Some(ps) => doc_members(s@) == Some(pairs_view(ps@)),
            None => doc_members(s@) is None,
        },
{
    let n = s.unicode_len();
    let i = ws_end_x(s, 0);
    if !(i < n && s.get_char(i) == '{') {
        return None;
    }
    let j = ws_end_x(s, i + 1);
    if j < n && s.get_char(j) == '}' {
        if ws_end_x(s, j + 1) == n {
            let ps: Vec<(String, JsonValue)> = Vec::new();
            proof {
                assert(pairs_view(ps@) =~= Seq::<(Seq<char>, JsonVal)>::empty());
            }
            Some(ps)
        } else {
            None
        }
    } else {
        match members_from_x(s, i + 1, Ghost(s@.len() + 1)) {
            Some((ps, e)) => {
                if ws_end_x(s, e) == n {
                    Some(ps)
                } else {
                    None
                }
            },
            None => None,
        }
    }
}

/// The character for one decimal digit value.
pub open spec fn digit_char(d: nat) -> char {
    if d == 0 {
        '0'
    } else if d == 1 {
        '1'
    } else if d == 2 {
        '2'
    } else if d == 3 {
        '3'
    } else if d == 4 {
        '4'
    } else if d == 5 {
        '5'
    } else if d == 6 {
        '6'
    } else if d == 7 {
        '7'
    } else if d == 8 {
        '8'
    } else {
        '9'
    }
}

/// The decimal writing of `n`, most significant digit first.
pub open spec fn dec_digits(n: nat) -> Seq<char>
    decreases n,
{
    if n < 10 {
        seq![digit_char(n)]
    } else {
        dec_digits(n / 10) + seq![digit_char(n % 10)]
    }
}

/// The first index at or after `i` holding a character that must be
/// written behind an escape.
pub open spec fn esc_end(s: Seq<char>, i: int) -> int
    decreases s.len() - i,
{
    if 0 <= i < s.len() && !is_esc_char(s[i]) {
        esc_end(s, i + 1)
    } else {
        i
    }
}

proof fn lemma_esc_end_bounds(s: Seq<char>, i: int)
    ensures
        i <= esc_end(s, i),
        0 <= i <= s.len() ==> esc_end(s, i) <= s.len(),
        forall|t: int| i <= t < esc_end(s, i) ==> !is_esc_char(#[trigger] s[t]),
        0 <= i && esc_end(s, i) < s.len() ==> is_esc_char(s[esc_end(s, i)]),
    decreases s.len() - i,
{
    if 0 <= i < s.len() && !is_esc_char(s[i]) {
        lemma_esc_end_bounds(s, i + 1);
    }
}

/// The escaped writing of the text from position `i` on: quotes and
/// backslashes behind a backslash, everything else as it stands.
pub open spec fn esc_from(s: Seq<char>, i: int) -> Seq<char>
    decreases s.len() - i,
        via esc_from_decreases
{
    if !(0 <= i <= s.len()) {
        Seq::empty()
    } else {
        let j = esc_end(s, i);
        if j >= s.len() {
            s.subrange(i, s.len() as int)
        } else {
            s.subrange(i, j) + seq!['\\', s[j]] + esc_from(s, j + 1)
        }
    }
}

#[via_fn]
proof fn esc_from_decreases(s: Seq<char>, i: int) {
    lemma_esc_end_bounds(s, i);
}

/// A string literal: the escaped body between two quotes.
pub open spec fn ser_string(s: Seq<char>) -> Seq<char> {
    seq!['"'] + esc_from(s, 0) + seq!['"']
}

/// The writing of one member value.
pub open spec fn ser_value(v: JsonVal) -> Seq<char> {
    match v {
        JsonVal::S(s) => ser_string(s),
        JsonVal::U(n) => dec_digits(n as nat),
    }
}

/// The writing of one `"key":value` member.
pub open spec fn ser_member(p: (Seq<char>, JsonVal)) -> Seq<char> {
    ser_string(p.0) + seq![':'] + ser_value(p.1)
}

/// The comma-separated writing of a member sequence.
pub open spec fn ser_members(ps: Seq<(Seq<char>, JsonVal)>) -> Seq<char>
    decreases ps.len(),
{
    if ps.len() == 0 {
        Seq::empty()
    } else if ps.len() == 1 {
        ser_member(ps[0])
    } else {
        ser_members(ps.drop_last()) + seq![','] + ser_member(ps.last())
    }
}

/// The canonical writing of a whole document.
pub open spec fn ser_doc(ps: Seq<(Seq<char>, JsonVal)>) -> Seq<char> {
    seq!['{'] + ser_members(ps) + seq!['}']
}

/// Character-wise equality of two string slices.
pub fn str_eq(a: &str, b: &str) -> (r: bool)
    ensures
        r == (a@ == b@),
{
    let na = a.unicode_len();
    let nb = b.unicode_len();
    if na != nb {
        proof {
            assert(a@ != b@);
        }
        return false;
    }
    let mut i: usize = 0;
    while i < na
        invariant
            na == a@.len() && na == b@.len(),
            i <= na,
            forall|t: int| 0 <= t < i ==> a@[t] == b@[t],
        decreases na - i,
    {
        if a.get_char(i) != b.get_char(i) {
            proof {
                assert(a@ != b@);
            }
            return false;
        }
        i = i + 1;
    }
    proof {
        assert(a@ =~= b@);
    }
    true
}

/// One digit as text.
fn digit_str(d: u64) -> (r: &'static str)
    requires
        d < 10,
    ensures
        r@ == seq![digit_char(d as nat)],
{
    proof {
        reveal_strlit("0");
        reveal_strlit("1");
        reveal_strlit("2");
        reveal_strlit("3");
        reveal_strlit("4");
        reveal_strlit("5");
        reveal_strlit("6");
        reveal_strlit("7");
        reveal_strlit("8");
        reveal_strlit("9");
    }
    let r = match d {
        0 => "0",
        1 => "1",
        2 => "2",
        3 => "3",
        4 => "4",
        5 => "5",
        6 => "6",
        7 => "7",
        8 => "8",
        _ => "9",
    };
    proof {
        assert(r@ =~= seq![digit_char(d as nat)]);
    }
    r
}

/// Writes `n` in decimal. Executable twin of [`dec_digits`].
pub fn dec_str(n: u64) -> (r: String)
    ensures
        r@ == dec_digits(n as nat),
    decreases n,
{
    let d = digit_str(n % 10);
    if n < 10 {
        d.to_owned()
    } else {
        let mut r = dec_str(n / 10);
        r.append(d);
        r
    }
}

/// Executable twin of [`esc_end`].
fn esc_end_x(s: &str, i: usize) -> (r: usize)
    requires
        i <= s@.len(),
    ensures
        r == esc_end(s@, i as int),
        i <= r <= s@.len(),
    decreases s@.len() - i,
{
    let n = s.unicode_len();
    if i < n {
        let c = s.get_char(i);
        if c != '"' && c != '\\' {
            esc_end_x(s, i + 1)
        } else {
            i
        }
    } else {
        i
    }
}

/// Writes text in its escaped form. Executable twin of [`esc_from`].
fn esc_x(s: &str, i: usize) -> (r: String)
    requires
        i <= s@.len(),
    ensures
        r@ == esc_from(s@, i as int),
    decreases s@.len() - i,
{
    let n = s.unicode_len();
    let j = esc_end_x(s, i);
    if j >= n {
        s.substring_char(i, n).to_owned()
    } else {
        proof {
            lemma_esc_end_bounds(s@, i as int);
        }
        let c = s.get_char(j);
        let mut out = s.substring_char(i, j).to_owned();
        let piece = if c == '"' {
            "\\\""
        } else {
            "\\\\"
        };
        proof {
            reveal_strlit("\\\"");
            reveal_strlit("\\\\");
            assert(piece@ =~= seq!['\\', c]);
        }
        out.append(piece);
        let rest = esc_x(s, j + 1);
        out.append(rest.as_str());
        proof {
            assert(out@ =~= esc_from(s@, i as int));
        }
        out
    }
}

/// Writes one member value. Executable twin of [`ser_value`].
fn ser_value_x(v: &JsonValue) -> (r: String)
    ensures
        r@ == ser_value(v@),
{
    proof {
        reveal_strlit("\"");
    }
    match v {
        JsonValue::Str(s) => {
            let mut r = String::from_str("\"");
            let body = esc_x(s.as_str(), 0);
            r.append(body.as_str());
            r.append("\"");
            proof {
                assert(r@ =~= ser_string(s@));
            }
            r
        },
        JsonValue::Uint(n) => dec_str(*n),
    }
}

/// Writes the members as one flat object, each member in order, with no
/// whitespace. Executable twin of [`ser_doc`].
pub fn write_object(ps: &Vec<(String, JsonValue)>) -> (r: String)
    ensures
        r@ == ser_doc(pairs_view(ps@)),
{
    proof {
        reveal_strlit("{");
        reveal_strlit("}");
        reveal_strlit("\"");
        reveal_strlit(":");
        reveal_strlit(",");
    }
    let mut r = String::from_str("{");
    let mut i: usize = 0;
    while i < ps.len()
        invariant
            i <= ps@.len(),
            r@ == seq!['{'] + ser_members(pairs_view(ps@).take(i as int)),
        decreases ps@.len() - i,
    {
        proof {
            reveal_strlit("\"");
            reveal_strlit(":");
            reveal_strlit(",");
        }
        if i > 0 {
            r.append(",");
        }
        r.append("\"");
        let key = esc_x(ps[i].0.as_str(), 0);
        r.append(key.as_str());
        r.append("\"");
        r.append(":");
        let v = ser_value_x(&ps[i].1);
        r.append(v.as_str());
        proof {
            let m = pairs_view(ps@);
            assert(m.take(i + 1).len() == i + 1);
            if i == 0 {
                assert(ser_members(m.take(1)) == ser_member(m.take(1)[0]));
                assert(m.take(1)[0] == m[0]);
            } else {
                assert(m.take(i + 1).drop_last() =~= m.take(i as int));
                assert(m.take(i + 1).last() == m[i as int]);
                assert(ser_members(m.take(i + 1)) == ser_members(m.take(i + 1).drop_last())
                    + seq![','] + ser_member(m.take(i + 1).last()));
            }
            assert(v@ == ser_value(m[i as int].1));
            assert(ps@[i as int].0@ == m[i as int].0);
            let sep: Seq<char> = if i > 0 {
                seq![',']
            } else {
                Seq::empty()
            };
            assert(r@ =~= seq!['{'] + ser_members(m.take(i as int)) + sep + ser_member(
                m[i as int],
            ));
            assert(seq!['{'] + ser_members(m.take(i as int)) + sep + ser_member(m[i as int]) =~= seq![
                '{',
            ] + ser_members(m.take(i + 1)));
            assert(r@ =~= seq!['{'] + ser_members(m.take(i + 1)));
        }
        i = i + 1;
    }
    r.append("}");
    proof {
        assert(pairs_view(ps@).take(ps@.len() as int) =~= pairs_view(ps@));
        assert(r@ =~= ser_doc(pairs_view(ps@)));
    }
    r
}

/// Every character of `s` can be written inside a string literal: no
/// control characters; quotes and backslashes are written escaped.
pub open spec fn text_ok(s: Seq<char>) -> bool {
    forall|i: int| 0 <= i < s.len() ==> (#[trigger] s[i]) as u32 >= 0x20
}

/// A value the writer can emit and the reader will take back.
pub open spec fn value_wf(v: JsonVal) -> bool {
    match v {
        JsonVal::S(s) => text_ok(s),
        JsonVal::U(_) => true,
    }
}

/// A member the writer can emit and the reader will take back.
pub open spec fn member_wf(p: (Seq<char>, JsonVal)) -> bool {
    text_ok(p.0) && value_wf(p.1)
}

/// Every member of the list round-trips through the writer.
pub open spec fn members_wf(ps: Seq<(Seq<char>, JsonVal)>) -> bool {
    forall|k: int| 0 <= k < ps.len() ==> member_wf(#[trigger] ps[k])
}

/// `seg` stands in `s` starting at `i`.
pub open spec fn seg_at(s: Seq<char>, i: int, seg: Seq<char>) -> bool {
    forall|t: int| 0 <= t < seg.len() ==> s[i + t] == #[trigger] seg[t]
}

/// The writer's member list, decomposed from the left.
proof fn lemma_ser_members_cons(ps: Seq<(Seq<char>, JsonVal)>)
    requires
        ps.len() >= 1,
    ensures
        ps.len() == 1 ==> ser_members(ps) == ser_member(ps[0]),
        ps.len() > 1 ==> ser_members(ps) == ser_member(ps[0]) + seq![','] + ser_members(
            ps.drop_first(),
        ),
    decreases ps.len(),
{
    if ps.len() > 1 {
        lemma_ser_members_cons(ps.drop_last());
        if ps.len() == 2 {
            assert(ps.drop_last()[0] == ps[0]);
            assert(ps.drop_first().len() == 1);
            assert(ps.drop_first()[0] == ps[1]);
            assert(ps.drop_last() =~= seq![ps[0]]);
            assert(ser_members(ps.drop_last()) == ser_member(ps[0]));
            assert(ser_members(ps.drop_first()) == ser_member(ps[1]));
            assert(ps.last() == ps[1]);
            assert(ser_members(ps) =~= ser_member(ps[0]) + seq![','] + ser_members(
                ps.drop_first(),
            ));
        } else {
            lemma_ser_members_cons(ps.drop_first());
            assert(ps.drop_last().drop_first() =~= ps.drop_first().drop_last());
            assert(ps.drop_last()[0] == ps[0]);
            assert(ps.drop_first().last() == ps.last());
            assert(ser_members(ps) =~= ser_member(ps[0]) + seq![','] + ser_members(
                ps.drop_first(),
            ));
        }
    }
}

/// A member's writing is never empty and never starts with whitespace.
proof fn lemma_ser_member_head(p: (Seq<char>, JsonVal))
    ensures
        ser_member(p).len() >= 4,
        ser_member(p)[0] == '"',
{
    assert(ser_member(p)[0] == '"');
}

/// The writer's member list is at least as long as the list itself.
proof fn lemma_ser_members_len(ps: Seq<(Seq<char>, JsonVal)>)
    ensures
        ser_members(ps).len() >= ps.len(),
    decreases ps.len(),
{
    if ps.len() > 1 {
        lemma_ser_members_len(ps.drop_last());
    }
}

/// Scanning a well-formed literal body finds exactly its closing quote.
/// A run of plain characters bounded by a non-plain one scans to exactly
/// its end.
proof fn lemma_plain_end_run(s: Seq<char>, i: int, j: int)
    requires
        0 <= i <= j <= s.len(),
        forall|t: int| i <= t < j ==> is_str_char(#[trigger] s[t]),
        j == s.len() || !is_str_char(s[j]),
    ensures
        plain_end(s, i) == j,
    decreases j - i,
{
    if i < j {
        lemma_plain_end_run(s, i + 1, j);
    }
}

/// Scanning the escaped writing of a text, bounded by a closing quote,
/// yields back exactly that text and stops at the quote.
proof fn lemma_scan_of_esc(s: Seq<char>, i: int, body: Seq<char>, bi: int)
    requires
        0 <= bi <= body.len(),
        0 <= i,
        text_ok(body),
        i + esc_from(body, bi).len() < s.len(),
        seg_at(s, i, esc_from(body, bi)),
        s[i + esc_from(body, bi).len()] == '"',
    ensures
        str_scan(s, i) == Some(
            (body.subrange(bi, body.len() as int), i + esc_from(body, bi).len()),
        ),
    decreases body.len() - bi,
{
    lemma_esc_end_bounds(body, bi);
    let j0 = esc_end(body, bi);
    let img = esc_from(body, bi);
    if j0 >= body.len() {
        assert(img == body.subrange(bi, body.len() as int));
        assert forall|t: int| i <= t < i + img.len() implies is_str_char(s[t]) by {
            assert(s[t] == img[t - i]);
            assert(img[t - i] == body[bi + (t - i)]);
            assert(!is_esc_char(body[bi + (t - i)]));
            assert(body[bi + (t - i)] as u32 >= 0x20);
        }
        lemma_plain_end_run(s, i, i + img.len());
        assert(s.subrange(i, i + img.len()) =~= body.subrange(bi, body.len() as int));
    } else {
        let head = body.subrange(bi, j0);
        let rest_img = esc_from(body, j0 + 1);
        assert(img == head + seq!['\\', body[j0]] + rest_img);
        assert forall|t: int| i <= t < i + (j0 - bi) implies is_str_char(s[t]) by {
            assert(s[t] == img[t - i]);
            assert(img[t - i] == head[t - i]);
            assert(head[t - i] == body[bi + (t - i)]);
            assert(!is_esc_char(body[bi + (t - i)]));
            assert(body[bi + (t - i)] as u32 >= 0x20);
        }
        let j = i + (j0 - bi);
        assert(s[j] == img[j0 - bi]);
        assert(img[j0 - bi] == '\\');
        lemma_plain_end_run(s, i, j);
        assert(s[j + 1] == img[j0 - bi + 1]);
        assert(img[j0 - bi + 1] == body[j0]);
        assert(is_esc_char(body[j0]));
        assert(seg_at(s, j + 2, rest_img)) by {
            assert(forall|t: int|
                0 <= t < rest_img.len() ==> #[trigger] rest_img[t] == img[(j0 - bi) + 2 + t]);
        }
        assert(i + img.len() == j + 2 + rest_img.len());
        lemma_scan_of_esc(s, j + 2, body, j0 + 1);
        assert forall|t: int| 0 <= t < j0 - bi implies s[i + t] == head[t] by {
            assert(s[i + t] == img[t]);
            assert(img[t] == head[t]);
        }
        assert(s.subrange(i, j) =~= head);
        assert(head + seq![body[j0]] + body.subrange(j0 + 1, body.len() as int) =~= body.subrange(
            bi,
            body.len() as int,
        ));
    }
}

/// Every character the decimal writer emits is a digit.
proof fn lemma_dec_digits_are_digits(n: nat)
    ensures
        dec_digits(n).len() >= 1,
        forall|t: int| 0 <= t < dec_digits(n).len() ==> is_digit_char(#[trigger] dec_digits(n)[t]),
    decreases n,
{
    if n >= 10 {
        lemma_dec_digits_are_digits(n / 10);
    }
}

/// A run of digits bounded by a non-digit scans to exactly its end.
proof fn lemma_digits_end_run(s: Seq<char>, i: int, j: int)
    requires
        0 <= i <= j <= s.len(),
        forall|t: int| i <= t < j ==> is_digit_char(#[trigger] s[t]),
        j == s.len() || !is_digit_char(s[j]),
    ensures
        digits_end(s, i) == j,
    decreases j - i,
{
    if i < j {
        lemma_digits_end_run(s, i + 1, j);
    }
}

/// The decimal writing of `n` reads back as the value `n`.
proof fn lemma_digits_val_of_dec(s: Seq<char>, i: int, n: nat)
    requires
        0 <= i,
        i + dec_digits(n).len() <= s.len(),
        seg_at(s, i, dec_digits(n)),
    ensures
        digits_val(s, i, i + dec_digits(n).len()) == n,
    decreases n,
{
    let dd = dec_digits(n);
    if n < 10 {
        assert(s[i] == dd[0]);
        assert(digits_val(s, i, i) == 0);
        assert(digits_val(s, i, i + 1) == digit_val(s[i]));
        assert(digit_val(digit_char(n)) == n);
    } else {
        let head = dec_digits(n / 10);
        assert(dd == head + seq![digit_char(n % 10)]);
        assert(seg_at(s, i, head)) by {
            assert(forall|t: int| 0 <= t < head.len() ==> #[trigger] head[t] == dd[t]);
        }
        lemma_digits_val_of_dec(s, i, n / 10);
        assert(s[i + dd.len() - 1] == dd[dd.len() - 1]);
        assert(dd[dd.len() as int - 1] == digit_char(n % 10));
        assert(digit_val(digit_char(n % 10)) == n % 10);
        assert(digits_val(s, i, i + dd.len()) == digits_val(s, i, i + head.len()) * 10 + digit_val(
            s[i + dd.len() - 1],
        ));
        assert(digits_val(s, i, i + head.len()) * 10 + n % 10 == (n / 10) * 10 + n % 10);
        assert((n / 10) * 10 + n % 10 == n) by (nonlinear_arith);
    }
}

/// A written value reads back as itself, ending right where the writing
/// ends.
proof fn lemma_value_of_ser(s: Seq<char>, i: int, v: JsonVal)
    requires
        0 <= i,
        i + ser_value(v).len() < s.len(),
        value_wf(v),
        seg_at(s, i, ser_value(v)),
        !is_digit_char(s[i + ser_value(v).len()]),
    ensures
        value_at(s, i) == Some((v, i + ser_value(v).len())),
{
    let sv = ser_value(v);
    match v {
        JsonVal::S(body) => {
            let img = esc_from(body, 0);
            assert(s[i] == sv[0]);
            assert(sv[0] == '"');
            assert(seg_at(s, i + 1, img)) by {
                assert(forall|t: int| 0 <= t < img.len() ==> #[trigger] img[t] == sv[t + 1]);
            }
            assert(s[i + 1 + img.len()] == sv[img.len() as int + 1]);
            assert(sv[img.len() as int + 1] == '"');
            lemma_scan_of_esc(s, i + 1, body, 0);
            assert(body.subrange(0, body.len() as int) =~= body);
        },
        JsonVal::U(n) => {
            lemma_dec_digits_are_digits(n as nat);
            assert(s[i] == sv[0]);
            assert(is_digit_char(sv[0]));
            assert(s[i] != '"') by {
                assert(s[i] as u32 >= 48);
            }
            assert forall|t: int| i <= t < i + sv.len() implies is_digit_char(s[t]) by {
                assert(s[t] == sv[t - i]);
                assert(is_digit_char(sv[t - i]));
            }
            lemma_digits_end_run(s, i, i + sv.len());
            lemma_digits_val_of_dec(s, i, n as nat);
        },
    }
}

/// A written member reads back as itself.
proof fn lemma_member_of_ser(s: Seq<char>, i: int, p: (Seq<char>, JsonVal))
    requires
        0 <= i,
        i + ser_member(p).len() < s.len(),
        member_wf(p),
        seg_at(s, i, ser_member(p)),
        !is_digit_char(s[i + ser_member(p).len()]),
    ensures
        member_at(s, i) == Some((p, i + ser_member(p).len())),
{
    let sm = ser_member(p);
    let key = p.0;
    let kimg = esc_from(key, 0);
    let sv = ser_value(p.1);
    assert(s[i] == sm[0]);
    assert(sm[0] == '"');
    assert(ws_end(s, i) == i);
    assert(seg_at(s, i + 1, kimg)) by {
        assert(forall|t: int| 0 <= t < kimg.len() ==> #[trigger] kimg[t] == sm[t + 1]);
    }
    assert(s[i + 1 + kimg.len()] == sm[kimg.len() as int + 1]);
    assert(sm[kimg.len() as int + 1] == '"');
    lemma_scan_of_esc(s, i + 1, key, 0);
    assert(key.subrange(0, key.len() as int) =~= key);
    let j = i + 1 + kimg.len();
    assert(s[j + 1] == sm[kimg.len() as int + 2]);
    assert(sm[kimg.len() as int + 2] == ':');
    assert(ws_end(s, j + 1) == j + 1);
    let vstart = j + 2;
    assert(seg_at(s, vstart, sv)) by {
        assert(forall|t: int|
            0 <= t < sv.len() ==> #[trigger] sv[t] == sm[kimg.len() as int + 3 + t]);
    }
    assert(s[vstart] == sv[0]);
    assert(sv[0] != ' ' && sv[0] != '\n' && sv[0] != '\t' && sv[0] != '\r') by {
        match p.1 {
            JsonVal::S(_) => {
                assert(sv[0] == '"');
            },
            JsonVal::U(n) => {
                lemma_dec_digits_are_digits(n as nat);
                assert(is_digit_char(sv[0]));
            },
        }
    }
    assert(ws_end(s, vstart) == vstart);
    lemma_value_of_ser(s, vstart, p.1);
}

/// A written member list followed by the closing brace reads back as
/// itself, consuming the brace.
#[verifier::rlimit(60)]
proof fn lemma_members_of_ser(s: Seq<char>, i: int, ps: Seq<(Seq<char>, JsonVal)>, fuel: nat)
    requires
        0 <= i,
        ps.len() >= 1,
        members_wf(ps),
        i + ser_members(ps).len() + 1 <= s.len(),
        seg_at(s, i, ser_members(ps)),
        s[i + ser_members(ps).len()] == '}',
        fuel >= ps.len(),
    ensures
        members_from(s, i, fuel) == Some((ps, i + ser_members(ps).len() + 1)),
    decreases ps.len(),
{
    lemma_ser_members_cons(ps);
    let sm = ser_members(ps);
    let first = ps[0];
    let fm = ser_member(first);
    assert(member_wf(first));
    if ps.len() == 1 {
        assert(sm == fm);
        assert(seg_at(s, i, fm));
        assert(s[i + fm.len()] == '}');
        assert(!is_digit_char('}'));
        lemma_member_of_ser(s, i, first);
        let e = i + fm.len();
        assert(ws_end(s, e) == e);
        assert(seq![first] =~= ps);
    } else {
        let rest = ps.drop_first();
        let rm = ser_members(rest);
        assert(sm == fm + seq![','] + rm);
        assert(seg_at(s, i, fm)) by {
            assert(forall|t: int| 0 <= t < fm.len() ==> #[trigger] fm[t] == sm[t]);
        }
        assert(s[i + fm.len()] == sm[fm.len() as int]);
        assert(sm[fm.len() as int] == ',');
        assert(!is_digit_char(','));
        lemma_member_of_ser(s, i, first);
        let e = i + fm.len();
        assert(ws_end(s, e) == e);
        assert(members_wf(rest)) by {
            assert(forall|k: int|
                0 <= k < rest.len() ==> #[trigger] rest[k] == ps[k + 1] && member_wf(ps[k + 1]));
        }
        assert(seg_at(s, e + 1, rm)) by {
            assert(forall|t: int| 0 <= t < rm.len() ==> #[trigger] rm[t] == sm[fm.len() as int + 1 + t]);
        }
        assert(s[e + 1 + rm.len()] == s[i + sm.len()]);
        lemma_members_of_ser(s, e + 1, rest, (fuel - 1) as nat);
        assert(seq![first] + rest =~= ps);
    }
}

/// Law: a document written canonically from a non-empty member list reads
/// back as exactly that list. With the reader's own contract this makes
/// writing and reading inverse on well-formed members.
pub proof fn lemma_doc_roundtrip(ps: Seq<(Seq<char>, JsonVal)>)
    requires
        ps.len() >= 1,
        members_wf(ps),
    ensures
        doc_members(ser_doc(ps)) == Some(ps),
{
    let s = ser_doc(ps);
    let m = ser_members(ps);
    lemma_ser_members_cons(ps);
    lemma_ser_member_head(ps[0]);
    lemma_ser_members_len(ps);
    assert(s[0] == '{');
    assert(ws_end(s, 0) == 0);
    assert(m[0] == ser_member(ps[0])[0]);
    assert(s[1] == m[0]);
    assert(m[0] == '"');
    assert(ws_end(s, 1) == 1);
    assert(seg_at(s, 1, m)) by {
        assert(forall|t: int| 0 <= t < m.len() ==> s[1 + t] == #[trigger] m[t]);
    }
    assert(s[1 + m.len() as int] == '}');
    lemma_members_of_ser(s, 1, ps, s.len() + 1);
    assert(ws_end(s, s.len() as int) == s.len());
}

} // verus!
