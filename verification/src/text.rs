//! Small text utilities over `String` with their contracts.

use vstd::prelude::*;

verus! {

/// Every character is in the ASCII range.
pub open spec fn ascii_only(s: Seq<char>) -> bool {
    forall|i: int| 0 <= i < s.len() ==> (#[trigger] s[i] as u32) < 128
}

/// The ASCII upper-case form of `c`: `'a'..='z'` go to `'A'..='Z'`, every other
/// character stays as it is.
pub open spec fn ascii_upper(c: char) -> char {
    if 'a' <= c && c <= 'z' {
        ((c as u32) - 32) as char
    } else {
        c
    }
}

/// The characters that `char::to_uppercase` yields for a non-ASCII `c` (its
/// Unicode upper-case mapping, one or more characters).
pub uninterp spec fn char_uppercase(c: char) -> Seq<char>;

/// The upper-case mapping of a character: the ASCII one for an ASCII
/// character, the Unicode one (as `char::to_uppercase` gives it) otherwise.
pub open spec fn uppercase_of(c: char) -> Seq<char> {
    if (c as u32) < 128 {
        seq![ascii_upper(c)]
    } else {
        char_uppercase(c)
    }
}

/// Calls `char::to_uppercase` and collects what it yields.
///
/// Trusted: for an ASCII character the result is its ASCII upper-case form, as
/// the documentation of `char::to_ascii_uppercase` states (it agrees with
/// `to_uppercase` on ASCII); for any other character the result is named
/// `char_uppercase(c)`, the Unicode mapping, which is not written out here.
#[verifier::external_body]
pub(crate) fn char_to_uppercase(c: char) -> (r: String)
    ensures
        (c as u32) < 128 ==> r@ == seq![ascii_upper(c)],
        (c as u32) >= 128 ==> r@ == char_uppercase(c),
{
    c.to_uppercase().to_string()
}

/// Calls `String::push`.
///
/// Trusted: the character is appended at the end, as the documentation of
/// `String::push` states.
#[verifier::external_body]
pub(crate) fn push_char(s: &mut String, c: char)
    ensures
        final(s)@ == old(s)@.push(c),
{
    s.push(c)
}

/// The parts of `parts` with `sep` between each two of them.
pub open spec fn join(parts: Seq<Seq<char>>, sep: Seq<char>) -> Seq<char>
    decreases parts.len(),
{
    if parts.len() == 0 {
        Seq::empty()
    } else if parts.len() == 1 {
        parts[0]
    } else {
        join(parts.drop_last(), sep) + sep + parts.last()
    }
}

/// The texts held by a vector of strings.
pub open spec fn texts(v: Seq<String>) -> Seq<Seq<char>> {
    v.map_values(|s: String| s@)
}

/// Joins `parts` with `sep` between each two of them.
pub fn join_strings(parts: &Vec<String>, sep: &str) -> (r: String)
    ensures
        r@ == join(texts(parts@), sep@),
{
    let mut r = String::new();
    let ghost all = texts(parts@);
    let n = parts.len();
    let mut i: usize = 0;
    while i < n
        invariant
            n == parts.len(),
            i <= n,
            all == texts(parts@),
            r@ == join(all.take(i as int), sep@),
        decreases n - i,
    {
        assert(all.take(i + 1).drop_last() =~= all.take(i as int));
        if i != 0 {
            r.append(sep);
        } else {
            assert(r@ =~= Seq::<char>::empty());
        }
        r.append(parts[i].as_str());
        i = i + 1;
        assert(all.take(i as int).last() == parts@[i - 1]@);
        if i == 1 {
            assert(r@ =~= join(all.take(i as int), sep@));
        }
    }
    assert(all.take(n as int) =~= all);
    r
}

/// Whether two strings hold the same characters.
pub fn same_text(a: &str, b: &str) -> (r: bool)
    ensures
        r == (a@ == b@),
{
    let n = a.unicode_len();
    let m = b.unicode_len();
    if n != m {
        return false;
    }
    let mut i: usize = 0;
    while i < n
        invariant
            n == a@.len(),
            m == b@.len(),
            n == m,
            i <= n,
            forall|j: int| 0 <= j < i ==> a@[j] == b@[j],
        decreases n - i,
    {
        if a.get_char(i) != b.get_char(i) {
            return false;
        }
        i = i + 1;
    }
    assert(a@ =~= b@);
    true
}

} // verus!
