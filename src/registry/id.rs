use crate::registry::error::RegistryError;
use vstd::prelude::*;
use vstd::utf8::is_ascii_chars;

verus! {

/// Longest identifier accepted, in characters.
pub const MAX_ID_LEN: usize = 200;

/// Characters with the Unicode `White_Space` property.
pub open spec fn is_whitespace(c: char) -> bool {
    ('\u{9}' <= c <= '\u{d}') || c == ' ' || c == '\u{85}' || c == '\u{a0}' || c == '\u{1680}'
        || ('\u{2000}' <= c <= '\u{200a}') || c == '\u{2028}' || c == '\u{2029}' || c
        == '\u{202f}' || c == '\u{205f}' || c == '\u{3000}'
}

pub open spec fn trim_start(s: Seq<char>) -> Seq<char>
    decreases s.len(),
{
    if s.len() > 0 && is_whitespace(s[0]) {
        trim_start(s.drop_first())
    } else {
        s
    }
}

pub open spec fn trim_end(s: Seq<char>) -> Seq<char>
    decreases s.len(),
{
    if s.len() > 0 && is_whitespace(s.last()) {
        trim_end(s.drop_last())
    } else {
        s
    }
}

/// `s` without its leading and trailing whitespace.
pub open spec fn trimmed(s: Seq<char>) -> Seq<char> {
    trim_end(trim_start(s))
}

pub open spec fn ascii_lower_char(c: char) -> char {
    if 'A' <= c <= 'Z' {
        ((c as u32) + 32) as char
    } else {
        c
    }
}

pub open spec fn ascii_lower(s: Seq<char>) -> Seq<char> {
    s.map_values(|c: char| ascii_lower_char(c))
}

/// What `str::to_lowercase` makes of a string that is not all ASCII.
pub uninterp spec fn lower_of(s: Seq<char>) -> Seq<char>;

/// The full lowercase mapping of `s`.
pub open spec fn lowercased(s: Seq<char>) -> Seq<char> {
    if is_ascii_chars(s) {
        ascii_lower(s)
    } else {
        lower_of(s)
    }
}

/// The candidate that a raw identifier normalizes to, valid or not.
pub open spec fn normalized(raw: Seq<char>) -> Seq<char> {
    lowercased(trimmed(raw))
}

/// Characters allowed anywhere in an identifier.
pub open spec fn is_id_char(c: char) -> bool {
    ('a' <= c <= 'z') || ('0' <= c <= '9') || c == '.' || c == '_' || c == '-'
}

/// A valid identifier: 1 to 200 characters of `[a-z0-9._-]`, with at most one
/// `:` that is neither the first nor the last character.
pub open spec fn is_valid_id(s: Seq<char>) -> bool {
    &&& 1 <= s.len() <= MAX_ID_LEN
    &&& forall|i: int|
        0 <= i < s.len() ==> is_id_char(#[trigger] s[i]) || (s[i] == ':' && 0 < i < s.len() - 1)
    &&& forall|i: int, j: int| 0 <= i < j < s.len() && #[trigger] s[i] == ':' ==> #[trigger] s[j] != ':'
}

/// Whether `s` lies in the reserved `core:` namespace.
pub open spec fn is_core(s: Seq<char>) -> bool {
    s.len() >= 5 && s[0] == 'c' && s[1] == 'o' && s[2] == 'r' && s[3] == 'e' && s[4] == ':'
}

/// Relies on `str::trim`: drops leading and trailing `White_Space` characters.
#[verifier::external_body]
fn trim_whitespace(s: &str) -> (r: &str)
    ensures
        r@ == trimmed(s@),
{
    s.trim()
}

/// Relies on `str::to_lowercase`: on ASCII input it maps `A`-`Z` to `a`-`z`
/// and keeps every other character; otherwise the result is named. Every
/// character lowercases to one or more characters, so nothing gets shorter.
#[verifier::external_body]
fn to_lowercase(s: &str) -> (r: String)
    ensures
        r@.len() >= s@.len(),
        is_ascii_chars(s@) ==> r@ == ascii_lower(s@),
        !is_ascii_chars(s@) ==> r@ == lower_of(s@),
{
    s.to_lowercase()
}

/// Checks an already lowercased candidate against the identifier rules.
pub fn is_valid_id_str(s: &str) -> (r: bool)
    ensures
        r == is_valid_id(s@),
{
    let len = s.unicode_len();
    if len == 0 || len > MAX_ID_LEN {
        return false;
    }
    let mut seen_colon = false;
    let mut i: usize = 0;
    while i < len
        invariant
            len == s@.len(),
            1 <= len <= MAX_ID_LEN,
            i <= len,
            forall|k: int|
                0 <= k < i ==> is_id_char(#[trigger] s@[k]) || (s@[k] == ':' && 0 < k < len - 1),
            forall|k: int, j: int| 0 <= k < j < i && #[trigger] s@[k] == ':' ==> #[trigger] s@[j] != ':',
            seen_colon <==> exists|k: int| 0 <= k < i && s@[k] == ':',
        decreases len - i,
    {
        let c = s.get_char(i);
        if is_id_char_exec(c) {
        } else if c == ':' && !seen_colon && i > 0 && i < len - 1 {
            seen_colon = true;
        } else {
            if c == ':' && seen_colon {
                let ghost k = choose|k: int| 0 <= k < i && s@[k] == ':';
                assert(s@[k] == ':' && s@[i as int] == ':');
            }
            assert(!is_valid_id(s@)) by {
                if c != ':' {
                    assert(!is_id_char(s@[i as int]));
                }
            }
            return false;
        }
        i += 1;
    }
    true
}

fn is_id_char_exec(c: char) -> (r: bool)
    ensures
        r == is_id_char(c),
{
    ('a' <= c && c <= 'z') || ('0' <= c && c <= '9') || c == '.' || c == '_' || c == '-'
}

/// Normalizes a raw identifier: trims whitespace, lowercases, and checks the
/// identifier rules. Fails with `InvalidId` carrying the raw input.
pub fn normalize_id(raw: &str) -> (r: Result<String, RegistryError>)
    ensures
        r is Ok <==> is_valid_id(normalized(raw@)),
        r matches Ok(s) ==> s@ == normalized(raw@),
        r matches Err(e) ==> (e matches RegistryError::InvalidId(m) && m@ == raw@),
        trimmed(raw@).len() == 0 || trimmed(raw@).len() > MAX_ID_LEN ==> r is Err,
{
    let s = to_lowercase(trim_whitespace(raw));
    if is_valid_id_str(s.as_str()) {
        Ok(s)
    } else {
        Err(RegistryError::InvalidId(raw.to_string()))
    }
}

/// Whether an identifier lies in the reserved `core:` namespace.
pub fn is_core_id(id: &str) -> (r: bool)
    ensures
        r == is_core(id@),
{
    let len = id.unicode_len();
    len >= 5 && id.get_char(0) == 'c' && id.get_char(1) == 'o' && id.get_char(2) == 'r'
        && id.get_char(3) == 'e' && id.get_char(4) == ':'
}

proof fn lemma_trim_start_all_whitespace(s: Seq<char>)
    requires
        forall|i: int| 0 <= i < s.len() ==> is_whitespace(#[trigger] s[i]),
    ensures
        trim_start(s).len() == 0,
    decreases s.len(),
{
    if s.len() > 0 {
        assert(is_whitespace(s[0]));
        let t = s.drop_first();
        assert forall|i: int| 0 <= i < t.len() implies is_whitespace(#[trigger] t[i]) by {
            assert(t[i] == s[i + 1]);
        }
        lemma_trim_start_all_whitespace(t);
    }
}

/// Normalizing is idempotent: a normalized identifier normalizes to itself,
/// and it holds no uppercase ASCII letter and no leading or trailing
/// whitespace.
pub proof fn lemma_normalize_idempotent(raw: Seq<char>)
    requires
        is_valid_id(normalized(raw)),
    ensures
        normalized(normalized(raw)) == normalized(raw),
        forall|i: int|
            0 <= i < normalized(raw).len() ==> !('A' <= #[trigger] normalized(raw)[i] <= 'Z'),
        !is_whitespace(normalized(raw)[0]),
        !is_whitespace(normalized(raw).last()),
{
    let s = normalized(raw);
    assert forall|i: int| 0 <= i < s.len() implies !is_whitespace(#[trigger] s[i]) && '\0' <= s[i]
        <= '\u{7f}' && !('A' <= s[i] <= 'Z') by {
        assert(is_id_char(s[i]) || s[i] == ':');
    }
    assert(!is_whitespace(s[0]));
    assert(!is_whitespace(s[s.len() - 1]));
    assert(trim_start(s) == s);
    assert(trim_end(s) == s);
    assert(is_ascii_chars(s));
    assert(ascii_lower(s) =~= s);
}

/// What normalization rejects: a blank input; a candidate longer than 200
/// characters; a character outside `[a-z0-9._-:]`; a second `:`; a `:` in the
/// first or the last position.
pub proof fn lemma_normalize_rejects(raw: Seq<char>)
    ensures
        (forall|i: int| 0 <= i < raw.len() ==> is_whitespace(#[trigger] raw[i])) ==> !is_valid_id(
            normalized(raw),
        ),
        normalized(raw).len() > MAX_ID_LEN ==> !is_valid_id(normalized(raw)),
        (exists|i: int|
            0 <= i < normalized(raw).len() && !is_id_char(#[trigger] normalized(raw)[i])
                && normalized(raw)[i] != ':') ==> !is_valid_id(normalized(raw)),
        (exists|i: int, j: int|
            0 <= i < j < normalized(raw).len() && #[trigger] normalized(raw)[i] == ':'
                && #[trigger] normalized(raw)[j] == ':') ==> !is_valid_id(normalized(raw)),
        normalized(raw).len() > 0 && (normalized(raw)[0] == ':' || normalized(raw).last() == ':')
            ==> !is_valid_id(normalized(raw)),
{
    if forall|i: int| 0 <= i < raw.len() ==> is_whitespace(#[trigger] raw[i]) {
        lemma_trim_start_all_whitespace(raw);
        let t = trim_start(raw);
        assert(trim_end(t) == t);
        assert(is_ascii_chars(t));
        assert(normalized(raw).len() == 0);
    }
    let s = normalized(raw);
    if s.len() > 0 && s.last() == ':' {
        assert(s[s.len() - 1] == ':');
    }
}

} // verus!
