//! Small string utilities: appending a character, and trimming.
//!
//! Strings are viewed as sequences of characters; every function here has an
//! exact contract over that view.

use vstd::prelude::*;
use vstd::string::StrSliceExecFns;

verus! {

/// Relies on std's String::push: appends the given character to the end.
#[verifier::external_body]
pub fn push_char(s: &mut String, c: char)
    ensures
        final(s)@ == old(s)@.push(c),
{
    s.push(c);
}

/// Unicode whitespace, as `str::trim` strips it: the characters with the
/// White_Space property.
pub open spec fn is_ws(c: char) -> bool {
    ||| c == '\u{0009}' || c == '\u{000A}' || c == '\u{000B}' || c == '\u{000C}' || c
        == '\u{000D}'
    ||| c == '\u{0020}' || c == '\u{0085}' || c == '\u{00A0}' || c == '\u{1680}'
    ||| '\u{2000}' <= c && c <= '\u{200A}'
    ||| c == '\u{2028}' || c == '\u{2029}' || c == '\u{202F}' || c == '\u{205F}' || c
        == '\u{3000}'
}

/// Drops the longest prefix of characters satisfying `p`.
pub open spec fn drop_while_front(s: Seq<char>, p: spec_fn(char) -> bool) -> Seq<char>
    decreases s.len(),
{
    if s.len() > 0 && p(s[0]) {
        drop_while_front(s.drop_first(), p)
    } else {
        s
    }
}

/// Drops the longest suffix of characters satisfying `p`.
pub open spec fn drop_while_back(s: Seq<char>, p: spec_fn(char) -> bool) -> Seq<char>
    decreases s.len(),
{
    if s.len() > 0 && p(s[s.len() - 1]) {
        drop_while_back(s.drop_last(), p)
    } else {
        s
    }
}

/// The whitespace predicate as a value, shared by specs and proofs.
pub open spec fn ws_pred() -> spec_fn(char) -> bool {
    |c: char| is_ws(c)
}

/// The NUL predicate as a value, shared by specs and proofs.
pub open spec fn nul_pred() -> spec_fn(char) -> bool {
    |c: char| c == '\0'
}

/// A string with whitespace stripped from both ends.
pub open spec fn trim_spec(s: Seq<char>) -> Seq<char> {
    drop_while_back(drop_while_front(s, ws_pred()), ws_pred())
}

pub proof fn lemma_drop_while_front(s: Seq<char>, p: spec_fn(char) -> bool, k: int)
    requires
        0 <= k <= s.len(),
        forall|j: int| 0 <= j < k ==> p(#[trigger] s[j]),
        k < s.len() ==> !p(s[k]),
    ensures
        drop_while_front(s, p) == s.skip(k),
    decreases k,
{
    if k == 0 {
        assert(s.skip(0) =~= s);
    } else {
        assert(p(s[0]));
        lemma_drop_while_front(s.drop_first(), p, k - 1);
        assert(s.drop_first().skip(k - 1) =~= s.skip(k));
    }
}

pub proof fn lemma_drop_while_back(s: Seq<char>, p: spec_fn(char) -> bool, k: int)
    requires
        0 <= k <= s.len(),
        forall|j: int| k <= j < s.len() ==> p(#[trigger] s[j]),
        k > 0 ==> !p(s[k - 1]),
    ensures
        drop_while_back(s, p) == s.take(k),
    decreases s.len() - k,
{
    if k == s.len() {
        if s.len() == 0 {
            assert(s.take(0) =~= s);
        } else {
            assert(!p(s[s.len() - 1]));
            assert(s.take(k) =~= s);
        }
    } else {
        assert(p(s[s.len() - 1]));
        lemma_drop_while_back(s.drop_last(), p, k);
        assert(s.drop_last().take(k) =~= s.take(k));
    }
}

/// Strips leading and trailing whitespace.
pub fn trim(s: &str) -> (r: String)
    ensures
        r@ == trim_spec(s@),
{
    let n = s.unicode_len();
    let mut lo: usize = 0;
    while lo < n && is_ws_exec(s.get_char(lo))
        invariant
            0 <= lo <= n,
            n == s@.len(),
            forall|j: int| 0 <= j < lo ==> is_ws(#[trigger] s@[j]),
        decreases n - lo,
    {
        lo = lo + 1;
    }
    let mut hi: usize = n;
    while hi > lo && is_ws_exec(s.get_char(hi - 1))
        invariant
            lo <= hi <= n,
            n == s@.len(),
            forall|j: int| 0 <= j < lo ==> is_ws(#[trigger] s@[j]),
            forall|j: int| hi <= j < n ==> is_ws(#[trigger] s@[j]),
        decreases hi,
    {
        hi = hi - 1;
    }
    proof {
        let p = ws_pred();
        lemma_drop_while_front(s@, p, lo as int);
        lemma_drop_while_back(s@.skip(lo as int), p, hi - lo);
        assert(s@.skip(lo as int).take(hi - lo) =~= s@.subrange(lo as int, hi as int));
    }
    let piece = s.substring_char(lo, hi);
    piece.to_owned()
}

/// Strips trailing NUL characters.
pub fn trim_trailing_nuls(s: &str) -> (r: String)
    ensures
        r@ == drop_while_back(s@, nul_pred()),
{
    let n = s.unicode_len();
    let mut hi: usize = n;
    while hi > 0 && s.get_char(hi - 1) == '\0'
        invariant
            0 <= hi <= n,
            n == s@.len(),
            forall|j: int| hi <= j < n ==> #[trigger] s@[j] == '\0',
        decreases hi,
    {
        hi = hi - 1;
    }
    proof {
        lemma_drop_while_back(s@, nul_pred(), hi as int);
        assert(s@.take(hi as int) =~= s@.subrange(0, hi as int));
    }
    let piece = s.substring_char(0, hi);
    piece.to_owned()
}

/// Relies on std's String::from_utf8: accepts exactly the valid UTF-8 byte
/// strings and decodes them to their characters.
#[verifier::external_body]
pub fn string_from_utf8(bytes: Vec<u8>) -> (r: Option<String>)
    ensures
        r matches Some(s) ==> vstd::utf8::valid_utf8(bytes@) && s@ == vstd::utf8::decode_utf8(
            bytes@,
        ),
        r is None ==> !vstd::utf8::valid_utf8(bytes@),
{
    String::from_utf8(bytes).ok()
}

/// Copies a byte vector.
pub fn bytes_clone(v: &Vec<u8>) -> (r: Vec<u8>)
    ensures
        r@ == v@,
{
    let r = v.clone();
    proof {
        assert(r@ =~= v@);
    }
    r
}

/// Equality of two strings, by content.
pub fn str_eq(a: &str, b: &str) -> (r: bool)
    ensures
        r == (a@ == b@),
{
    let ax = a.to_owned();
    let bx = b.to_owned();
    ax.eq(&bx)
}

/// Tests for whitespace.
pub fn is_ws_exec(c: char) -> (r: bool)
    ensures
        r == is_ws(c),
{
    c == '\u{0009}' || c == '\u{000A}' || c == '\u{000B}' || c == '\u{000C}' || c == '\u{000D}'
        || c == '\u{0020}' || c == '\u{0085}' || c == '\u{00A0}' || c == '\u{1680}' || ('\u{2000}'
        <= c && c <= '\u{200A}') || c == '\u{2028}' || c == '\u{2029}' || c == '\u{202F}' || c
        == '\u{205F}' || c == '\u{3000}'
}

} // verus!
