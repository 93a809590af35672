//! Byte patterns with wildcards: compiling the textual form and searching a buffer.
use vstd::prelude::*;

verus! {

/// The value of one hexadecimal digit, either case.
pub open spec fn hex_digit_value(c: char) -> Option<nat> {
    if '0' <= c && c <= '9' {
        Some((c as nat - '0' as nat) as nat)
    } else if 'a' <= c && c <= 'f' {
        Some((c as nat - 'a' as nat + 10) as nat)
    } else if 'A' <= c && c <= 'F' {
        Some((c as nat - 'A' as nat + 10) as nat)
    } else {
        None
    }
}

/// The characters that separate the tokens of a pattern.
pub open spec fn is_space(c: char) -> bool {
    c == ' ' || c == '\t' || c == '\n' || c == '\r'
}

/// The tokens completed so far and the token being read, after reading `s`.
pub open spec fn split_state(s: Seq<char>) -> (Seq<Seq<char>>, Seq<char>)
    decreases s.len(),
{
    if s.len() == 0 {
        (Seq::empty(), Seq::empty())
    } else {
        let (done, cur) = split_state(s.drop_last());
        if is_space(s.last()) {
            if cur.len() > 0 {
                (done.push(cur), Seq::empty())
            } else {
                (done, Seq::empty())
            }
        } else {
            (done, cur.push(s.last()))
        }
    }
}

/// The tokens of a text: its maximal runs of characters that are not spaces.
pub open spec fn tokens(s: Seq<char>) -> Seq<Seq<char>> {
    let (done, cur) = split_state(s);
    if cur.len() > 0 {
        done.push(cur)
    } else {
        done
    }
}

/// What one token stands for: `?` and `??` any byte, two hexadecimal digits that byte;
/// `None` for any other token.
pub open spec fn token_byte(t: Seq<char>) -> Option<Option<u8>> {
    if t =~= seq!['?'] || t =~= seq!['?', '?'] {
        Some(None)
    } else if t.len() == 2 && hex_digit_value(t[0]) is Some && hex_digit_value(t[1]) is Some {
        Some(Some((hex_digit_value(t[0])->0 * 16 + hex_digit_value(t[1])->0) as u8))
    } else {
        None
    }
}

/// The pattern that a run of tokens stands for, or `None` where one of them is malformed.
pub open spec fn needle_of_tokens(ts: Seq<Seq<char>>) -> Option<Seq<Option<u8>>>
    decreases ts.len(),
{
    if ts.len() == 0 {
        Some(Seq::empty())
    } else {
        match (needle_of_tokens(ts.drop_last()), token_byte(ts.last())) {
            (Some(n), Some(b)) => Some(n.push(b)),
            _ => None,
        }
    }
}

/// The compiled form of a textual pattern: `None` where it has no token or a malformed one.
pub open spec fn needle_of(s: Seq<char>) -> Option<Seq<Option<u8>>> {
    if tokens(s).len() == 0 {
        None
    } else {
        needle_of_tokens(tokens(s))
    }
}

/// A byte of the buffer against one element of a pattern.
pub open spec fn byte_matches(b: u8, p: Option<u8>) -> bool {
    match p {
        Some(x) => b == x,
        None => true,
    }
}

/// The pattern lies within the buffer at `i` and every exact element matches.
pub open spec fn matches_at(buf: Seq<u8>, pat: Seq<Option<u8>>, i: int) -> bool {
    &&& 0 <= i
    &&& i + pat.len() <= buf.len()
    &&& forall|j: int| 0 <= j < pat.len() ==> #[trigger] byte_matches(buf[i + j], pat[j])
}

/// The lowest position at or after `from` where the pattern matches.
pub open spec fn first_match_from(buf: Seq<u8>, pat: Seq<Option<u8>>, from: int) -> Option<int>
    decreases buf.len() - from,
{
    if from < 0 || from + pat.len() > buf.len() {
        None
    } else if matches_at(buf, pat, from) {
        Some(from)
    } else {
        first_match_from(buf, pat, from + 1)
    }
}

/// The lowest position where the pattern matches.
pub open spec fn first_match(buf: Seq<u8>, pat: Seq<Option<u8>>) -> Option<int> {
    first_match_from(buf, pat, 0)
}

/// `first_match_from` finds the least matching position at or after `from`.
pub proof fn lemma_first_match_from_is_least(buf: Seq<u8>, pat: Seq<Option<u8>>, from: int)
    requires
        0 <= from,
    ensures
        match first_match_from(buf, pat, from) {
            Some(i) => from <= i && matches_at(buf, pat, i) && forall|k: int|
                from <= k < i ==> !#[trigger] matches_at(buf, pat, k),
            None => forall|k: int| from <= k ==> !#[trigger] matches_at(buf, pat, k),
        },
    decreases buf.len() - from,
{
    if from + pat.len() > buf.len() {
    } else if matches_at(buf, pat, from) {
    } else {
        lemma_first_match_from_is_least(buf, pat, from + 1);
    }
}

/// `first_match` is the least position where the pattern matches, and there is none
/// exactly when the pattern matches nowhere.
pub proof fn lemma_first_match_is_least(buf: Seq<u8>, pat: Seq<Option<u8>>)
    ensures
        match first_match(buf, pat) {
            Some(i) => matches_at(buf, pat, i) && forall|k: int|
                0 <= k < i ==> !#[trigger] matches_at(buf, pat, k),
            None => forall|k: int| !#[trigger] matches_at(buf, pat, k),
        },
{
    lemma_first_match_from_is_least(buf, pat, 0);
}

/// A pattern made of wildcards only is found at the start of any buffer that is
/// not empty and is at least as long as the pattern.
pub proof fn lemma_wildcards_match_at_start(buf: Seq<u8>, pat: Seq<Option<u8>>)
    requires
        forall|j: int| 0 <= j < pat.len() ==> #[trigger] pat[j] is None,
        buf.len() > 0,
        pat.len() <= buf.len(),
    ensures
        first_match(buf, pat) == Some(0int),
{
    assert(matches_at(buf, pat, 0)) by {
        assert forall|j: int| 0 <= j < pat.len() implies #[trigger] byte_matches(
            buf[0 + j],
            pat[j],
        ) by {
            assert(pat[j] is None);
        }
    }
}

/// The bytes that a pattern without wildcards stands for.
pub open spec fn literal_bytes(pat: Seq<Option<u8>>) -> Seq<u8> {
    pat.map_values(|p: Option<u8>| p->0)
}

/// `lit` occurs in `buf` at `i`.
pub open spec fn occurs_at(buf: Seq<u8>, lit: Seq<u8>, i: int) -> bool {
    0 <= i && i + lit.len() <= buf.len() && buf.subrange(i, i + lit.len()) =~= lit
}

/// A pattern without wildcards is found exactly at the first occurrence of its bytes,
/// and not at all when they do not occur.
pub proof fn lemma_exact_pattern_finds_first_occurrence(buf: Seq<u8>, pat: Seq<Option<u8>>)
    requires
        forall|j: int| 0 <= j < pat.len() ==> #[trigger] pat[j] is Some,
    ensures
        match first_match(buf, pat) {
            Some(i) => occurs_at(buf, literal_bytes(pat), i) && forall|k: int|
                0 <= k < i ==> !#[trigger] occurs_at(buf, literal_bytes(pat), k),
            None => forall|k: int| !#[trigger] occurs_at(buf, literal_bytes(pat), k),
        },
{
    let lit = literal_bytes(pat);
    assert forall|k: int| #[trigger] occurs_at(buf, lit, k) == matches_at(buf, pat, k) by {
        if occurs_at(buf, lit, k) {
            assert forall|j: int| 0 <= j < pat.len() implies #[trigger] byte_matches(
                buf[k + j],
                pat[j],
            ) by {
                assert(buf.subrange(k, k + lit.len())[j] == lit[j]);
            }
        }
        if matches_at(buf, pat, k) {
            assert forall|j: int| 0 <= j < lit.len() implies #[trigger] buf.subrange(
                k,
                k + lit.len(),
            )[j] == lit[j] by {
                assert(byte_matches(buf[k + j], pat[j]));
            }
        }
    }
    lemma_first_match_is_least(buf, pat);
}

fn is_hex_digit_value(c: char) -> (r: Option<u32>)
    ensures
        match hex_digit_value(c) {
            Some(v) => r == Some(v as u32) && v < 16,
            None => r is None,
        },
{
    if '0' <= c && c <= '9' {
        Some(c as u32 - '0' as u32)
    } else if 'a' <= c && c <= 'f' {
        Some(c as u32 - 'a' as u32 + 10)
    } else if 'A' <= c && c <= 'F' {
        Some(c as u32 - 'A' as u32 + 10)
    } else {
        None
    }
}

/// What one token of a pattern stands for, or `None` where it is malformed.
pub fn parse_token(t: &[char]) -> (r: Option<Option<u8>>)
    ensures
        r == token_byte(t@),
{
    if t.len() == 1 && t[0] == '?' {
        assert(t@ =~= seq!['?']);
        Some(None)
    } else if t.len() == 2 && t[0] == '?' && t[1] == '?' {
        assert(t@ =~= seq!['?', '?']);
        Some(None)
    } else if t.len() == 2 {
        assert(!(t@ =~= seq!['?'])) by {
            assert(t@.len() == 2);
        }
        assert(!(t@ =~= seq!['?', '?'])) by {
            if t@ =~= seq!['?', '?'] {
                assert(t@[0] == '?' && t@[1] == '?');
            }
        }
        match (is_hex_digit_value(t[0]), is_hex_digit_value(t[1])) {
            (Some(h), Some(l)) => Some(Some((h * 16 + l) as u8)),
            _ => None,
        }
    } else {
        assert(!(t@ =~= seq!['?'])) by {
            if t@ =~= seq!['?'] {
                assert(t@[0] == '?');
            }
        }
        None
    }
}

fn is_space_char(c: char) -> (r: bool)
    ensures
        r == is_space(c),
{
    c == ' ' || c == '\t' || c == '\n' || c == '\r'
}

/// Compiles a textual pattern: tokens separated by spaces, each two hexadecimal digits for
/// that byte or `?`/`??` for any byte; `None` where there is no token or a malformed one.
pub fn into_needle(pattern: &str) -> (r: Option<Vec<Option<u8>>>)
    ensures
        match r {
            Some(v) => needle_of(pattern@) == Some(v@),
            None => needle_of(pattern@) is None,
        },
{
    let n = pattern.unicode_len();
    let mut done: Vec<Option<u8>> = Vec::new();
    let mut ok = true;
    let mut count: usize = 0;
    let mut cur: Vec<char> = Vec::new();
    let mut i: usize = 0;
    while i < n
        invariant
            n == pattern@.len(),
            i <= n,
            cur@ == split_state(pattern@.subrange(0, i as int)).1,
            count as int == split_state(pattern@.subrange(0, i as int)).0.len(),
            count <= i,
            ok ==> needle_of_tokens(split_state(pattern@.subrange(0, i as int)).0) == Some(
                done@,
            ),
            !ok ==> needle_of_tokens(split_state(pattern@.subrange(0, i as int)).0) is None,
        decreases n - i,
    {
        let c = pattern.get_char(i);
        let ghost pre = pattern@.subrange(0, i as int);
        let ghost next = pattern@.subrange(0, i + 1);
        assert(next.drop_last() =~= pre);
        assert(next.last() == c);
        if is_space_char(c) {
            if cur.len() > 0 {
                let ghost d = split_state(pre).0;
                assert(split_state(next).0 == d.push(cur@));
                assert(d.push(cur@).drop_last() =~= d);
                match parse_token(cur.as_slice()) {
                    Some(b) => {
                        if ok {
                            done.push(b);
                        }
                    },
                    None => {
                        ok = false;
                    },
                }
                count += 1;
                cur = Vec::new();
            }
        } else {
            cur.push(c);
        }
        i += 1;
    }
    assert(pattern@.subrange(0, n as int) =~= pattern@);
    let any = count > 0 || cur.len() > 0;
    if cur.len() > 0 {
        let ghost d = split_state(pattern@).0;
        assert(d.push(cur@).drop_last() =~= d);
        match parse_token(cur.as_slice()) {
            Some(b) => {
                if ok {
                    done.push(b);
                }
            },
            None => {
                ok = false;
            },
        }
    }
    if !ok || !any {
        None
    } else {
        Some(done)
    }
}

/// Whether the pattern matches the buffer at `i`.
fn window_matches(bytes: &[u8], pattern: &[Option<u8>], i: usize) -> (r: bool)
    requires
        i + pattern@.len() <= bytes@.len(),
    ensures
        r == matches_at(bytes@, pattern@, i as int),
{
    let len = bytes.len();
    let mut j: usize = 0;
    while j < pattern.len()
        invariant
            len == bytes@.len(),
            i + pattern@.len() <= bytes@.len(),
            j <= pattern@.len(),
            forall|t: int| 0 <= t < j ==> #[trigger] byte_matches(bytes@[i + t], pattern@[t]),
        decreases pattern.len() - j,
    {
        match pattern[j] {
            Some(x) => {
                if bytes[i + j] != x {
                    assert(!byte_matches(bytes@[i + j as int], pattern@[j as int]));
                    return false;
                }
            },
            None => {},
        }
        j += 1;
    }
    true
}

/// The lowest index at which every exact byte of the pattern matches the buffer.
pub fn naive_search(bytes: &[u8], pattern: &[Option<u8>]) -> (r: Option<usize>)
    ensures
        first_match(bytes@, pattern@) == match r {
            Some(i) => Some(i as int),
            None => None,
        },
{
    if pattern.len() > bytes.len() {
        return None;
    }
    if pattern.len() == 0 {
        assert(matches_at(bytes@, pattern@, 0));
        return Some(0);
    }
    let last = bytes.len() - pattern.len();
    let mut i: usize = 0;
    while i <= last
        invariant
            1 <= pattern@.len() <= bytes@.len(),
            last == bytes@.len() - pattern@.len(),
            i <= last + 1,
            first_match(bytes@, pattern@) == first_match_from(bytes@, pattern@, i as int),
        decreases bytes.len() - i,
    {
        if window_matches(bytes, pattern, i) {
            return Some(i);
        }
        i += 1;
    }
    None
}

} // verus!
