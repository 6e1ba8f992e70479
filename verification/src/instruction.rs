//! Instruction decoding for inbound notifications.
//!
//! A non-empty notification payload must match exactly one recognized
//! instruction shape, or the whole notification is rejected.  The recognized
//! shapes are tried in order and the first structural match is accepted, so
//! the set can grow without breaking existing encodings.  Today there is one
//! shape, an object designating an optional downstream beneficiary:
//!
//! - `{ }` — beneficiary absent;
//! - `{ "buyer_id" : null }` — beneficiary absent;
//! - `{ "buyer_id" : "<identity>" }` — beneficiary present.
//!
//! Whitespace (space, tab, line feed, carriage return) is allowed around
//! every token.  The identity may be any run of characters free of quotes
//! and backslashes; anything else — other keys, escapes, trailing text — is
//! no structural match.  [`decode_spec`] is the authoritative definition of
//! this grammar; the executable decoder returns exactly what it says.

use vstd::prelude::*;
use vstd::string::StrSliceExecFns;

verus! {

/// What the orchestrator should do with a received transfer.  One variant
/// today; decoding tries each variant's shape in order.
pub enum Instruction {
    /// Record an optional downstream beneficiary for this transfer.
    Action { buyer_id: Option<String> },
}

impl View for Instruction {
    type V = Option<Seq<char>>;

    open spec fn view(&self) -> Option<Seq<char>> {
        match self {
            Instruction::Action { buyer_id: Some(b) } => Some(b@),
            Instruction::Action { buyer_id: None } => None,
        }
    }
}

/// The whitespace the grammar allows between tokens.
pub open spec fn is_ws(c: char) -> bool {
    c == ' ' || c == '\t' || c == '\n' || c == '\r'
}

/// The first index at or after `i` holding a non-whitespace character, or
/// the end of `s`.
pub open spec fn skip_ws(s: Seq<char>, i: int) -> int
    decreases s.len() - i,
{
    if 0 <= i && i < s.len() && is_ws(s[i]) {
        skip_ws(s, i + 1)
    } else {
        i
    }
}

/// The first index at or after `i` holding a quote, or the end of `s`.
pub open spec fn find_quote(s: Seq<char>, i: int) -> int
    decreases s.len() - i,
{
    if 0 <= i && i < s.len() {
        if s[i] == '"' {
            i
        } else {
            find_quote(s, i + 1)
        }
    } else {
        i
    }
}

/// A beneficiary identity carries no escapes: no backslash anywhere.
pub open spec fn plain_chars(s: Seq<char>) -> bool {
    forall|k: int| 0 <= k < s.len() ==> s[k] != '\\'
}

/// The quoted key that introduces the beneficiary field.
pub open spec fn key_lit() -> Seq<char> {
    "\"buyer_id\""@
}

/// After the object's payload ends at `p` with beneficiary `buyer`: the
/// object must close and nothing but whitespace may follow.
pub open spec fn decode_close(s: Seq<char>, p: int, buyer: Option<Seq<char>>) -> Option<
    Option<Seq<char>>,
> {
    let q = skip_ws(s, p);
    if q < s.len() && s[q] == '}' && skip_ws(s, q + 1) == s.len() {
        Some(buyer)
    } else {
        None
    }
}

/// After the key ends at `p`: a colon, then `null` or a quoted identity,
/// then the close of the object.
pub open spec fn decode_after_key(s: Seq<char>, p: int) -> Option<Option<Seq<char>>> {
    let k = skip_ws(s, p);
    if k < s.len() && s[k] == ':' {
        let m = skip_ws(s, k + 1);
        if m + 4 <= s.len() && s.subrange(m, m + 4) == "null"@ {
            decode_close(s, m + 4, None)
        } else if m < s.len() && s[m] == '"' {
            let e = find_quote(s, m + 1);
            if e < s.len() && plain_chars(s.subrange(m + 1, e)) {
                decode_close(s, e + 1, Some(s.subrange(m + 1, e)))
            } else {
                None
            }
        } else {
            None
        }
    } else {
        None
    }
}

/// The instruction grammar: `Some(buyer)` exactly when `s` is one of the
/// recognized shapes, `None` when it matches none of them.
pub open spec fn decode_spec(s: Seq<char>) -> Option<Option<Seq<char>>> {
    let i = skip_ws(s, 0);
    if i < s.len() && s[i] == '{' {
        let j = skip_ws(s, i + 1);
        if j < s.len() && s[j] == '}' {
            if skip_ws(s, j + 1) == s.len() {
                Some(None)
            } else {
                None
            }
        } else if j + 10 <= s.len() && s.subrange(j, j + 10) == key_lit() {
            decode_after_key(s, j + 10)
        } else {
            None
        }
    } else {
        None
    }
}

/// Walks to the first non-whitespace character at or after `i`.
fn skip_ws_exec(s: &str, n: usize, i: usize) -> (r: usize)
    requires
        n == s@.len(),
        i <= n,
    ensures
        r == skip_ws(s@, i as int),
        i <= r <= n,
{
    let mut cur = i;
    loop
        invariant
            i <= cur <= n,
            n == s@.len(),
            skip_ws(s@, i as int) == skip_ws(s@, cur as int),
        decreases n - cur,
    {
        if cur == n {
            return cur;
        }
        let c = s.get_char(cur);
        if !(c == ' ' || c == '\t' || c == '\n' || c == '\r') {
            return cur;
        }
        cur = cur + 1;
    }
}

/// Walks to the first quote at or after `i`.
fn find_quote_exec(s: &str, n: usize, i: usize) -> (r: usize)
    requires
        n == s@.len(),
        i <= n,
    ensures
        r == find_quote(s@, i as int),
        i <= r <= n,
{
    let mut cur = i;
    loop
        invariant
            i <= cur <= n,
            n == s@.len(),
            find_quote(s@, i as int) == find_quote(s@, cur as int),
        decreases n - cur,
    {
        if cur == n {
            return cur;
        }
        if s.get_char(cur) == '"' {
            return cur;
        }
        cur = cur + 1;
    }
}

/// Whether `s` carries the literal `pat` starting at `i`.
fn match_lit(s: &str, n: usize, i: usize, pat: &str, m: usize) -> (r: bool)
    requires
        n == s@.len(),
        m == pat@.len(),
        i <= n,
    ensures
        r == (i + m <= s@.len() && s@.subrange(i as int, i as int + m as int) == pat@),
{
    if m > n - i {
        return false;
    }
    let mut k: usize = 0;
    while k < m
        invariant
            0 <= k <= m,
            i + m <= n,
            n == s@.len(),
            m == pat@.len(),
            forall|d: int| 0 <= d < k ==> s@[i as int + d] == pat@[d],
        decreases m - k,
    {
        if !(s.get_char(i + k) == pat.get_char(k)) {
            proof {
                assert(s@.subrange(i as int, i as int + m as int)[k as int] != pat@[k as int]);
            }
            return false;
        }
        k = k + 1;
    }
    proof {
        assert(s@.subrange(i as int, i as int + m as int) =~= pat@);
    }
    true
}

/// Whether `s` is free of backslashes.
fn plain_chars_exec(s: &str) -> (r: bool)
    ensures
        r == plain_chars(s@),
{
    let n = s.unicode_len();
    let mut k: usize = 0;
    while k < n
        invariant
            0 <= k <= n,
            n == s@.len(),
            forall|d: int| 0 <= d < k ==> s@[d] != '\\',
        decreases n - k,
    {
        if s.get_char(k) == '\\' {
            return false;
        }
        k = k + 1;
    }
    true
}

/// Decodes a notification payload against the recognized instruction
/// shapes: returns the instruction `decode_spec` recognizes in `msg`, or
/// nothing when `msg` matches no shape.
pub fn decode_instruction(msg: &str) -> (r: Option<Instruction>)
    ensures
        match r {
            Some(ins) => decode_spec(msg@) == Some(ins@),
            None => decode_spec(msg@) is None,
        },
{
    let n = msg.unicode_len();
    let i = skip_ws_exec(msg, n, 0);
    if !(i < n && msg.get_char(i) == '{') {
        return None;
    }
    let j = skip_ws_exec(msg, n, i + 1);
    if j < n && msg.get_char(j) == '}' {
        if skip_ws_exec(msg, n, j + 1) == n {
            return Some(Instruction::Action { buyer_id: None });
        }
        return None;
    }
    proof {
        reveal_strlit("\"buyer_id\"");
    }
    if !match_lit(msg, n, j, "\"buyer_id\"", 10) {
        return None;
    }
    let k = skip_ws_exec(msg, n, j + 10);
    if !(k < n && msg.get_char(k) == ':') {
        return None;
    }
    let m = skip_ws_exec(msg, n, k + 1);
    proof {
        reveal_strlit("null");
    }
    if match_lit(msg, n, m, "null", 4) {
        if close_object(msg, n, m + 4) {
            return Some(Instruction::Action { buyer_id: None });
        }
        return None;
    }
    if !(m < n && msg.get_char(m) == '"') {
        return None;
    }
    let e = find_quote_exec(msg, n, m + 1);
    if !(e < n) {
        return None;
    }
    let value = msg.substring_char(m + 1, e);
    if !plain_chars_exec(value) {
        return None;
    }
    if close_object(msg, n, e + 1) {
        let owned: String = value.to_owned();
        return Some(Instruction::Action { buyer_id: Some(owned) });
    }
    None
}

/// Whether, from `p` on, `s` holds the closing brace and then only
/// whitespace to its end.
fn close_object(s: &str, n: usize, p: usize) -> (r: bool)
    requires
        n == s@.len(),
        p <= n,
    ensures
        r == ({
            let q = skip_ws(s@, p as int);
            q < s@.len() && s@[q] == '}' && skip_ws(s@, q + 1) == s@.len()
        }),
{
    let q = skip_ws_exec(s, n, p);
    q < n && s.get_char(q) == '}' && skip_ws_exec(s, n, q + 1) == n
}

} // verus!
