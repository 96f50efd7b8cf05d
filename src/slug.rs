//! Slug utilities.
//!
//! A slug is a string of ASCII alphanumeric characters and slashes, used to
//! identify a node in a human-readable way. Everything up to and including
//! the last slash is the namespace; the rest is the fragment.

use std::borrow::Cow;
use vstd::prelude::*;

verus! {

/// The longest fragment, in characters, that normalization may produce.
pub const MAX_LEN: usize = 128;

/// An ASCII letter or digit.
pub open spec fn is_alnum(c: char) -> bool {
    ('0' <= c && c <= '9') || ('A' <= c && c <= 'Z') || ('a' <= c && c <= 'z')
}

/// A character allowed in a slug: an ASCII letter or digit, or a slash.
pub open spec fn is_slug_char(c: char) -> bool {
    is_alnum(c) || c == '/'
}

/// An ASCII lowercase letter.
pub open spec fn is_lower(c: char) -> bool {
    'a' <= c && c <= 'z'
}

/// The ASCII uppercase form of `c`; any other character is left alone.
pub open spec fn to_upper(c: char) -> char {
    if is_lower(c) {
        ((c as u32) - 32) as char
    } else {
        c
    }
}

/// Every character of `s` may stand in a slug.
pub open spec fn all_slug_chars(s: Seq<char>) -> bool {
    forall|j: int| 0 <= j < s.len() ==> is_slug_char(#[trigger] s[j])
}

/// The character at `i` begins a word: it is the first one, or follows a
/// character that is not alphanumeric.
pub open spec fn starts_word(s: Seq<char>, i: int) -> bool {
    i == 0 || !is_alnum(s[i - 1])
}

/// What normalization writes for the character at `i`: nothing for a
/// character that is not alphanumeric, the uppercase form at the start of a
/// word, the character itself elsewhere.
pub open spec fn emitted(s: Seq<char>, i: int) -> Seq<char> {
    if !is_alnum(s[i]) {
        Seq::empty()
    } else if starts_word(s, i) {
        seq![to_upper(s[i])]
    } else {
        seq![s[i]]
    }
}

/// The normalization of the first `n` characters of `s`.
pub open spec fn normalize_prefix(s: Seq<char>, n: nat) -> Seq<char>
    decreases n,
{
    if n == 0 {
        Seq::empty()
    } else {
        normalize_prefix(s, (n - 1) as nat) + emitted(s, n - 1)
    }
}

/// The free-text normalization of `s` into a fragment: the characters that
/// are not alphanumeric are dropped, and the first letter of each word is
/// made uppercase.
pub open spec fn normalize(s: Seq<char>) -> Seq<char> {
    normalize_prefix(s, s.len())
}

/// The index of the last slash in `s`, or -1 where there is none.
pub open spec fn last_slash(s: Seq<char>) -> int
    decreases s.len(),
{
    if s.len() == 0 {
        -1
    } else if s.last() == '/' {
        s.len() - 1
    } else {
        last_slash(s.drop_last())
    }
}

/// The namespace of a slug: everything up to and including its last slash.
pub open spec fn namespace_of(s: Seq<char>) -> Option<Seq<char>> {
    if last_slash(s) < 0 {
        None
    } else {
        Some(s.take(last_slash(s) + 1))
    }
}

/// The fragment of a slug: everything after its last slash.
pub open spec fn fragment_of(s: Seq<char>) -> Seq<char> {
    s.skip(last_slash(s) + 1)
}

/// A namespace followed by a fragment.
pub open spec fn join_of(namespace: Option<Seq<char>>, fragment: Seq<char>) -> Seq<char> {
    match namespace {
        Some(p) => p + fragment,
        None => fragment,
    }
}

/// A namespace is well formed when it ends in a slash.
pub open spec fn ends_in_slash(s: Seq<char>) -> bool {
    s.len() > 0 && s.last() == '/'
}

/// A sequence without any slash.
pub open spec fn has_no_slash(s: Seq<char>) -> bool {
    forall|j: int| 0 <= j < s.len() ==> #[trigger] s[j] != '/'
}

/// An error for slug parsing.
#[derive(Clone, Copy, Debug, PartialEq, Eq, Structural)]
pub enum Error {
    /// The input string is empty.
    Empty,
    /// The result is over 128 characters long; carries its length.
    Length(usize),
    /// The input has a character that may not stand in a slug; carries the
    /// character and its 1-based column.
    InvalidChar(char, usize),
}

/// Whether `c` is an ASCII letter or digit.
pub fn is_alphanumeric(c: char) -> (r: bool)
    ensures
        r == is_alnum(c),
{
    ('0' <= c && c <= '9') || ('A' <= c && c <= 'Z') || ('a' <= c && c <= 'z')
}

/// Whether `c` may stand in a slug.
pub fn is_valid(c: char) -> (r: bool)
    ensures
        r == is_slug_char(c),
{
    is_alphanumeric(c) || c == '/'
}

/// The index of the first character of `s` that may not stand in a slug, or
/// -1 where there is none.
pub open spec fn first_invalid(s: Seq<char>) -> int
    decreases s.len(),
{
    if s.len() == 0 {
        -1
    } else if first_invalid(s.drop_last()) >= 0 {
        first_invalid(s.drop_last())
    } else if is_slug_char(s.last()) {
        -1
    } else {
        s.len() - 1
    }
}

/// The first invalid character of a prefix is the first of the whole.
proof fn lemma_first_invalid_take(s: Seq<char>, k: int)
    requires
        0 <= k <= s.len(),
        first_invalid(s.take(k)) >= 0,
    ensures
        first_invalid(s) == first_invalid(s.take(k)),
    decreases s.len() - k,
{
    if k < s.len() {
        assert(s.drop_last().take(k) =~= s.take(k));
        lemma_first_invalid_take(s.drop_last(), k);
    } else {
        assert(s.take(k) =~= s);
    }
}

/// Checks that a string is a slug, without rewriting it.
///
/// Fails on the first character that is neither alphanumeric nor a slash,
/// with that character and its 1-based column.
pub fn check_slug(s: &str) -> (r: Result<&str, Error>)
    ensures
        r is Ok <==> all_slug_chars(s@),
        r is Ok <==> first_invalid(s@) < 0,
        r matches Ok(t) ==> t == s,
        r matches Err(e) ==> e == Error::InvalidChar(
            s@[first_invalid(s@)],
            (first_invalid(s@) + 1) as usize,
        ),
{
    let n = s.unicode_len();
    let mut i: usize = 0;
    while i < n
        invariant
            n == s@.len(),
            i <= n,
            all_slug_chars(s@.take(i as int)),
            first_invalid(s@.take(i as int)) < 0,
        decreases n - i,
    {
        let c = s.get_char(i);
        assert(s@.take(i + 1).drop_last() =~= s@.take(i as int));
        if !is_valid(c) {
            proof {
                lemma_first_invalid_take(s@, i + 1);
                assert(!all_slug_chars(s@));
            }
            return Err(Error::InvalidChar(c, i + 1));
        }
        assert(s@.take(i + 1) =~= s@.take(i as int).push(c));
        i = i + 1;
    }
    assert(s@.take(n as int) =~= s@);
    Ok(s)
}

/// The uppercase form of an ASCII lowercase letter, as a one-character string.
fn upper_letter(c: char) -> (r: &'static str)
    requires
        is_lower(c),
    ensures
        r@ == seq![to_upper(c)],
{
    let k = ((c as u32) - ('a' as u32)) as usize;
    let letters = "ABCDEFGHIJKLMNOPQRSTUVWXYZ";
    proof {
        reveal_strlit("ABCDEFGHIJKLMNOPQRSTUVWXYZ");
        assert(letters@ =~= Seq::new(26, |j: int| (65 + j) as char));
    }
    letters.substring_char(k, k + 1)
}

/// Turns free text into a slug fragment.
///
/// The characters that are not ASCII alphanumeric are removed, slashes
/// included, and each marks a word boundary; the first letter of the text and
/// of each word after such a boundary is made uppercase. Where nothing had to
/// change the text itself is handed back.
pub fn slugify<'a>(s: &'a str) -> (r: Result<Cow<'a, str>, Error>)
    ensures
        s@.len() == 0 ==> r matches Err(Error::Empty),
        s@.len() > 0 && normalize(s@).len() > MAX_LEN ==> (r matches Err(Error::Length(n))
            && n == normalize(s@).len()),
        s@.len() > 0 && normalize(s@).len() <= MAX_LEN ==> (r matches Ok(f) && f@ == normalize(
            s@,
        )),
{
    if s.is_empty() {
        return Err(Error::Empty);
    }
    let n = s.unicode_len();
    let mut out = String::new();
    let mut len: usize = 0;
    let mut changed = false;
    let mut after_alnum = false;
    let mut i: usize = 0;
    while i < n
        invariant
            n == s@.len(),
            i <= n,
            out@ == normalize_prefix(s@, i as nat),
            len == out@.len(),
            len <= i,
            !changed ==> out@ == s@.take(i as int),
            i > 0 ==> after_alnum == is_alnum(s@[i - 1]),
        decreases n - i,
    {
        let c = s.get_char(i);
        if is_alphanumeric(c) {
            if (i == 0 || !after_alnum) && 'a' <= c && c <= 'z' {
                out.append(upper_letter(c));
                changed = true;
            } else {
                out.append(s.substring_char(i, i + 1));
            }
            len = len + 1;
            after_alnum = true;
        } else {
            changed = true;
            after_alnum = false;
        }
        assert(s@.take(i + 1) =~= s@.take(i as int).push(c));
        i = i + 1;
    }
    assert(s@.take(n as int) =~= s@);
    if len > MAX_LEN {
        return Err(Error::Length(len));
    }
    if changed {
        Ok(Cow::Owned(out))
    } else {
        Ok(Cow::Borrowed(s))
    }
}

/// Facts on the normalization of a prefix: it is no longer than the prefix,
/// holds only alphanumeric characters, begins with one that is not a
/// lowercase letter, and is empty only where the prefix has no alphanumeric
/// character.
pub proof fn lemma_normalize_prefix(s: Seq<char>, n: nat)
    requires
        n <= s.len(),
    ensures
        normalize_prefix(s, n).len() <= n,
        forall|j: int|
            0 <= j < normalize_prefix(s, n).len() ==> is_alnum(#[trigger] normalize_prefix(s, n)[j]),
        normalize_prefix(s, n).len() == 0 ==> forall|j: int| 0 <= j < n ==> !is_alnum(#[trigger] s[j]),
        normalize_prefix(s, n).len() > 0 ==> !is_lower(normalize_prefix(s, n)[0]),
    decreases n,
{
    if n > 0 {
        lemma_normalize_prefix(s, (n - 1) as nat);
        let p = normalize_prefix(s, (n - 1) as nat);
        let q = normalize_prefix(s, n);
        assert(q == p + emitted(s, n - 1));
        assert forall|j: int| 0 <= j < q.len() implies is_alnum(#[trigger] q[j]) by {
            if j >= p.len() {
                assert(q[j] == emitted(s, n - 1)[j - p.len()]);
            }
        }
        if p.len() == 0 && q.len() > 0 {
            assert(q[0] == emitted(s, n - 1)[0]);
        } else if p.len() > 0 {
            assert(q[0] == p[0]);
        }
    }
}

/// Normalizing a non-empty text of at most 128 characters that holds an
/// alphanumeric character succeeds, and gives a non-empty fragment of
/// alphanumeric characters alone: no slash is ever brought back.
pub proof fn lemma_normalize_succeeds(s: Seq<char>)
    requires
        0 < s.len() <= MAX_LEN,
        exists|j: int| 0 <= j < s.len() && is_alnum(#[trigger] s[j]),
    ensures
        0 < normalize(s).len() <= MAX_LEN,
        forall|j: int| 0 <= j < normalize(s).len() ==> is_alnum(#[trigger] normalize(s)[j]),
{
    lemma_normalize_prefix(s, s.len());
}

/// A fragment of alphanumeric characters whose first one is not a lowercase
/// letter is its own normalization.
proof fn lemma_normalize_fixed(t: Seq<char>, n: nat)
    requires
        n <= t.len(),
        forall|j: int| 0 <= j < t.len() ==> is_alnum(#[trigger] t[j]),
        t.len() > 0 ==> !is_lower(t[0]),
    ensures
        normalize_prefix(t, n) == t.take(n as int),
    decreases n,
{
    if n > 0 {
        lemma_normalize_fixed(t, (n - 1) as nat);
        assert(t.take(n as int) =~= t.take(n - 1).push(t[n - 1]));
        assert(emitted(t, n - 1) =~= seq![t[n - 1]]);
    } else {
        assert(t.take(0) =~= Seq::<char>::empty());
    }
}

/// Normalizing a fragment a second time changes nothing.
pub proof fn lemma_normalize_idempotent(s: Seq<char>)
    requires
        0 < s.len(),
        0 < normalize(s).len() <= MAX_LEN,
    ensures
        normalize(normalize(s)) == normalize(s),
{
    lemma_normalize_prefix(s, s.len());
    let t = normalize(s);
    lemma_normalize_fixed(t, t.len());
    assert(t.take(t.len() as int) =~= t);
}

/// Removing the characters after the last slash does not move it.
proof fn lemma_last_slash_take(s: Seq<char>, i: int)
    requires
        0 <= i <= s.len(),
        forall|k: int| i <= k < s.len() ==> #[trigger] s[k] != '/',
    ensures
        last_slash(s) == last_slash(s.take(i)),
    decreases s.len() - i,
{
    if i < s.len() {
        assert(s.drop_last() =~= s.take(s.len() - 1));
        lemma_last_slash_take(s.drop_last(), i);
        assert(s.drop_last().take(i) =~= s.take(i));
    } else {
        assert(s.take(i) =~= s);
    }
}

/// Splits a slug into its namespace and its fragment, at the last slash.
pub fn split<'a>(s: &'a str) -> (r: (Option<&'a str>, &'a str))
    ensures
        r.0.deep_view() == namespace_of(s@),
        r.1@ == fragment_of(s@),
{
    let n = s.unicode_len();
    let mut i: usize = n;
    while i > 0
        invariant
            n == s@.len(),
            i <= n,
            forall|k: int| i <= k < n ==> #[trigger] s@[k] != '/',
        decreases i,
    {
        if s.get_char(i - 1) == '/' {
            proof {
                lemma_last_slash_take(s@, i as int);
                assert(s@.take(i as int).last() == '/');
            }
            return (Some(s.substring_char(0, i)), s.substring_char(i, n));
        }
        i = i - 1;
    }
    proof {
        lemma_last_slash_take(s@, 0);
        assert(s@.skip(0) =~= s@);
    }
    (None, s)
}

/// Joins a namespace, which ends in a slash where it is given, and a fragment.
pub fn join(namespace: Option<&str>, fragment: &str) -> (r: String)
    ensures
        r@ == join_of(namespace.deep_view(), fragment@),
{
    match namespace {
        Some(p) => String::from_str(p).concat(fragment),
        None => String::from_str(fragment),
    }
}

/// Splitting what was joined gives back the namespace and the fragment.
pub proof fn lemma_split_join(namespace: Option<Seq<char>>, fragment: Seq<char>)
    requires
        namespace matches Some(p) ==> ends_in_slash(p),
        has_no_slash(fragment),
    ensures
        namespace_of(join_of(namespace, fragment)) == namespace,
        fragment_of(join_of(namespace, fragment)) == fragment,
{
    let s = join_of(namespace, fragment);
    match namespace {
        Some(p) => {
            assert forall|k: int| p.len() <= k < s.len() implies #[trigger] s[k] != '/' by {
                assert(s[k] == fragment[k - p.len()]);
            }
            lemma_last_slash_take(s, p.len() as int);
            assert(s.take(p.len() as int) =~= p);
            assert(s.take(last_slash(s) + 1) =~= p);
            assert(s.skip(last_slash(s) + 1) =~= fragment);
        },
        None => {
            lemma_last_slash_take(s, 0);
            assert(s.skip(0) =~= s);
        },
    }
}

/// Joining the namespace and the fragment of a slug gives back the slug.
pub proof fn lemma_join_split(s: Seq<char>)
    ensures
        join_of(namespace_of(s), fragment_of(s)) == s,
{
    lemma_last_slash_bounds(s);
    if last_slash(s) >= 0 {
        assert(s.take(last_slash(s) + 1) + s.skip(last_slash(s) + 1) =~= s);
    } else {
        assert(s.skip(0) =~= s);
    }
}

/// The last slash, where there is one, is a slash within the sequence.
proof fn lemma_last_slash_bounds(s: Seq<char>)
    ensures
        -1 <= last_slash(s) < s.len(),
        last_slash(s) >= 0 ==> s[last_slash(s)] == '/',
    decreases s.len(),
{
    if s.len() > 0 && s.last() != '/' {
        lemma_last_slash_bounds(s.drop_last());
    }
}

} // verus!
