//! The names that a log request may hold.
use crate::text::chars_of;
use vstd::prelude::*;

verus! {

/// Whether `c` is alphanumeric by the Unicode tables: a letter or a number of any script.
pub uninterp spec fn unicode_alphanumeric(c: char) -> bool;

/// The ASCII letters and digits.
pub open spec fn ascii_alphanumeric(c: char) -> bool {
    ||| '0' <= c <= '9'
    ||| 'A' <= c <= 'Z'
    ||| 'a' <= c <= 'z'
}

/// The characters of names: letters and numbers, the underscore and the hyphen.
pub open spec fn name_char(c: char) -> bool {
    ||| c == '_'
    ||| c == '-'
    ||| if (c as u32) < 0x80 {
        ascii_alphanumeric(c)
    } else {
        unicode_alphanumeric(c)
    }
}

/// Whether `s` holds characters of names only.
pub open spec fn valid(s: Seq<char>) -> bool {
    forall|i: int| 0 <= i < s.len() ==> name_char(#[trigger] s[i])
}

/// Calls `char::is_alphanumeric`. Trusted: the answer depends on the character alone. Which
/// characters of the other scripts it holds for is left to the Unicode tables.
#[verifier::external_body]
fn char_is_alphanumeric(c: char) -> (r: bool)
    ensures
        r == unicode_alphanumeric(c),
{
    c.is_alphanumeric()
}

/// Whether `c` may stand in a name.
pub fn is_name_char(c: char) -> (r: bool)
    ensures
        r == name_char(c),
{
    if c == '_' || c == '-' {
        true
    } else if (c as u32) < 0x80 {
        ('0' <= c && c <= '9') || ('A' <= c && c <= 'Z') || ('a' <= c && c <= 'z')
    } else {
        char_is_alphanumeric(c)
    }
}

/// Whether `s` holds characters of names only.
pub fn is_valid(s: &str) -> (r: bool)
    ensures
        r == valid(s@),
{
    let v = chars_of(s);
    let mut i: usize = 0;
    while i < v.len()
        invariant
            i <= v@.len(),
            v@ == s@,
            forall|k: int| 0 <= k < i ==> name_char(#[trigger] s@[k]),
        decreases v@.len() - i,
    {
        if !is_name_char(v[i]) {
            assert(!name_char(s@[i as int]));
            return false;
        }
        i = i + 1;
    }
    true
}

/// A valid name holds none of the characters that mean something in a path or to a shell: of the
/// ASCII characters it holds only letters, digits, the underscore and the hyphen.
pub proof fn law_valid_name_is_inert(s: Seq<char>)
    requires
        valid(s),
    ensures
        !s.contains('/'),
        !s.contains('.'),
        !s.contains('\\'),
        !s.contains(' '),
        forall|i: int|
            0 <= i < s.len() && (#[trigger] s[i] as u32) < 0x80 ==> ascii_alphanumeric(s[i])
                || s[i] == '_' || s[i] == '-',
{
    assert forall|c: char| #[trigger] s.contains(c) implies name_char(c) by {
        let i = choose|i: int| 0 <= i < s.len() && s[i] == c;
        assert(name_char(s[i]));
    }
}

/// A name is valid exactly if each of its characters is an underscore, a hyphen, an ASCII letter
/// or digit, or a letter or number of another script; so the parts of a valid name are valid, and
/// valid names in a row are a valid name.
pub proof fn law_names_are_valid_by_character(a: Seq<char>, b: Seq<char>, c: char)
    ensures
        valid(Seq::empty()),
        valid(a + b) <==> valid(a) && valid(b),
        (c as u32) < 0x80 ==> (valid(seq![c]) <==> c == '_' || c == '-' || '0' <= c <= '9' || 'A'
            <= c <= 'Z' || 'a' <= c <= 'z'),
        (c as u32) >= 0x80 ==> (valid(seq![c]) <==> unicode_alphanumeric(c)),
{
    if valid(a + b) {
        assert forall|i: int| 0 <= i < a.len() implies name_char(#[trigger] a[i]) by {
            assert((a + b)[i] == a[i]);
        }
        assert forall|i: int| 0 <= i < b.len() implies name_char(#[trigger] b[i]) by {
            assert((a + b)[a.len() + i] == b[i]);
        }
    }
    assert(seq![c][0] == c);
    if valid(seq![c]) {
        assert(name_char(seq![c][0]));
    }
}

/// A name is valid exactly if each of its characters may stand in a name.
pub proof fn law_names_in_full(s: &str, c: char, all: bool, one: bool)
    requires
        call_ensures(is_valid, (s,), all),
        call_ensures(is_name_char, (c,), one),
    ensures
        all <==> forall|i: int| 0 <= i < s@.len() ==> name_char(#[trigger] s@[i]),
        (c as u32) < 0x80 ==> (one <==> '0' <= c <= '9' || 'A' <= c <= 'Z' || 'a' <= c <= 'z' || c
            == '_' || c == '-'),
        (c as u32) >= 0x80 ==> one == unicode_alphanumeric(c),
{
}

} // verus!
