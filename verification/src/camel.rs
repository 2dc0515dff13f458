//! snake_case to CamelCase conversion.

use vstd::prelude::*;
use crate::text::{ascii_only, ascii_upper, char_to_uppercase, push_char, uppercase_of};

verus! {

/// The CamelCase form of what remains of a name, where `at_start` tells
/// whether the next character opens a part (the start of the name or the
/// character after an underscore): underscores are dropped and the first
/// character of each part is replaced by its upper-case mapping.
pub open spec fn camel_from(s: Seq<char>, at_start: bool) -> Seq<char>
    decreases s.len(),
{
    if s.len() == 0 {
        Seq::empty()
    } else if s[0] == '_' {
        camel_from(s.drop_first(), true)
    } else if at_start {
        uppercase_of(s[0]) + camel_from(s.drop_first(), false)
    } else {
        seq![s[0]] + camel_from(s.drop_first(), false)
    }
}

/// The CamelCase form of a snake_case name: the name is split at each `_`,
/// the first character of each part is upper-cased, and the parts are
/// concatenated.
pub open spec fn camel_case(s: Seq<char>) -> Seq<char> {
    camel_from(s, true)
}

/// Converts a snake_case name to CamelCase (`draw_rectangle` gives
/// `DrawRectangle`).
pub fn to_camel_case(input: &str) -> (r: String)
    ensures
        r@ == camel_case(input@),
{
    let n = input.unicode_len();
    let mut out = String::new();
    let mut at_start = true;
    let mut i: usize = 0;
    assert(input@.skip(0) =~= input@);
    while i < n
        invariant
            n == input@.len(),
            i <= n,
            camel_case(input@) == out@ + camel_from(input@.skip(i as int), at_start),
        decreases n - i,
    {
        let c = input.get_char(i);
        let ghost rest = input@.skip(i as int);
        assert(rest[0] == c);
        assert(rest.drop_first() =~= input@.skip(i + 1));
        if c == '_' {
            at_start = true;
        } else if at_start {
            let up = char_to_uppercase(c);
            out.append(up.as_str());
            at_start = false;
        } else {
            push_char(&mut out, c);
            at_start = false;
        }
        i = i + 1;
    }
    assert(input@.skip(n as int) =~= Seq::<char>::empty());
    assert(out@ + Seq::<char>::empty() =~= out@);
    out
}

proof fn lemma_camel_join(a: Seq<char>, b: Seq<char>, at_start: bool)
    ensures
        camel_from(a + seq!['_'] + b, at_start) == camel_from(a, at_start) + camel_from(b, true),
    decreases a.len(),
{
    let s = a + seq!['_'] + b;
    if a.len() == 0 {
        assert(s.drop_first() =~= b);
        assert(camel_from(a, at_start) =~= Seq::<char>::empty());
        assert(camel_from(s, at_start) =~= camel_from(a, at_start) + camel_from(b, true));
    } else {
        assert(s.drop_first() =~= a.drop_first() + seq!['_'] + b);
        assert(s[0] == a[0]);
        lemma_camel_join(a.drop_first(), b, true);
        lemma_camel_join(a.drop_first(), b, false);
        if a[0] == '_' {
        } else if at_start {
            assert(camel_from(s, at_start) =~= camel_from(a, at_start) + camel_from(b, true));
        } else {
            assert(camel_from(s, at_start) =~= camel_from(a, at_start) + camel_from(b, true));
        }
    }
}

/// Joining two names with an underscore joins their CamelCase forms: the
/// conversion works part by part.
pub proof fn law_camel_case_underscore_join(a: Seq<char>, b: Seq<char>)
    ensures
        camel_case(a + seq!['_'] + b) == camel_case(a) + camel_case(b),
{
    lemma_camel_join(a, b, true);
}

/// What the conversion of an ASCII name gives: ASCII text with no underscore,
/// whose first character, when the conversion starts a part there, is not a
/// lower-case letter.
proof fn lemma_camel_ascii(s: Seq<char>, at_start: bool)
    requires
        ascii_only(s),
    ensures
        ascii_only(camel_from(s, at_start)),
        forall|i: int| 0 <= i < camel_from(s, at_start).len() ==> #[trigger] camel_from(s, at_start)[i] != '_',
        at_start && camel_from(s, at_start).len() > 0 ==> ascii_upper(camel_from(s, at_start)[0]) == camel_from(s, at_start)[0],
    decreases s.len(),
{
    if s.len() > 0 {
        let rest = s.drop_first();
        assert(ascii_only(rest)) by {
            assert forall|i: int| 0 <= i < rest.len() implies (#[trigger] rest[i] as u32) < 128 by {
                assert(rest[i] == s[i + 1]);
            }
        }
        assert((s[0] as u32) < 128);
        lemma_camel_ascii(rest, true);
        lemma_camel_ascii(rest, false);
        let out = camel_from(s, at_start);
        if s[0] == '_' {
        } else if at_start {
            let u = ascii_upper(s[0]);
            assert(uppercase_of(s[0]) == seq![u]);
            let tail = camel_from(rest, false);
            assert(out =~= seq![u] + tail);
            assert(u != '_');
            assert(ascii_upper(u) == u);
            assert((u as u32) < 128);
            assert forall|i: int| 0 <= i < out.len() implies (#[trigger] out[i] as u32) < 128 && out[i] != '_' by {
                if i > 0 {
                    assert(out[i] == tail[i - 1]);
                }
            }
        } else {
            let tail = camel_from(rest, false);
            assert(out =~= seq![s[0]] + tail);
            assert forall|i: int| 0 <= i < out.len() implies (#[trigger] out[i] as u32) < 128 && out[i] != '_' by {
                if i > 0 {
                    assert(out[i] == tail[i - 1]);
                }
            }
        }
    }
}

/// An ASCII text with no underscore is left as it is when no part starts in
/// it, and only its first character is upper-cased when one does.
proof fn lemma_camel_no_underscore(t: Seq<char>)
    requires
        ascii_only(t),
        forall|i: int| 0 <= i < t.len() ==> #[trigger] t[i] != '_',
    ensures
        camel_from(t, false) == t,
        t.len() > 0 ==> camel_from(t, true) == seq![ascii_upper(t[0])] + t.drop_first(),
    decreases t.len(),
{
    if t.len() > 0 {
        let rest = t.drop_first();
        assert forall|i: int| 0 <= i < rest.len() implies (#[trigger] rest[i] as u32) < 128 && rest[i] != '_' by {
            assert(rest[i] == t[i + 1]);
        }
        lemma_camel_no_underscore(rest);
        assert(t[0] != '_');
        assert((t[0] as u32) < 128);
        assert(camel_from(t, false) =~= t);
    }
}

/// The CamelCase form of an ASCII name holds no underscore.
pub proof fn law_camel_case_ascii_has_no_underscore(s: Seq<char>)
    requires
        ascii_only(s),
    ensures
        ascii_only(camel_case(s)),
        forall|i: int| 0 <= i < camel_case(s).len() ==> #[trigger] camel_case(s)[i] != '_',
{
    lemma_camel_ascii(s, true);
}

/// Converting an ASCII name a second time changes nothing.
pub proof fn law_camel_case_ascii_idempotent(s: Seq<char>)
    requires
        ascii_only(s),
    ensures
        camel_case(camel_case(s)) == camel_case(s),
{
    let t = camel_case(s);
    lemma_camel_ascii(s, true);
    lemma_camel_no_underscore(t);
    if t.len() > 0 {
        assert(t =~= seq![t[0]] + t.drop_first());
    } else {
        assert(camel_case(t) =~= t);
    }
}

/// The number of underscores in a text.
pub open spec fn underscores(s: Seq<char>) -> nat
    decreases s.len(),
{
    if s.len() == 0 {
        0
    } else {
        (if s[0] == '_' { 1nat } else { 0nat }) + underscores(s.drop_first())
    }
}

proof fn lemma_camel_ascii_len(s: Seq<char>, at_start: bool)
    requires
        ascii_only(s),
    ensures
        camel_from(s, at_start).len() + underscores(s) == s.len(),
    decreases s.len(),
{
    if s.len() > 0 {
        let rest = s.drop_first();
        assert forall|i: int| 0 <= i < rest.len() implies (#[trigger] rest[i] as u32) < 128 by {
            assert(rest[i] == s[i + 1]);
        }
        assert((s[0] as u32) < 128);
        lemma_camel_ascii_len(rest, true);
        lemma_camel_ascii_len(rest, false);
    }
}

/// Converting an ASCII name drops its underscores and keeps every other
/// character: the length shrinks by the number of underscores.
pub proof fn law_camel_case_ascii_length(s: Seq<char>)
    requires
        ascii_only(s),
    ensures
        camel_case(s).len() + underscores(s) == s.len(),
{
    lemma_camel_ascii_len(s, true);
}

} // verus!
