//! Escaping of reserved delimiter characters for the record syntax.
//!
//! The record format reserves `,`, `:`, `;` and `\`; any of these appearing
//! in a free-text field must be preceded by a single `\`. All other
//! characters pass through unchanged and in their original order.

use vstd::prelude::*;

verus! {

/// True of the four characters the record syntax reserves.
pub open spec fn is_reserved_char(c: char) -> bool {
    c == ',' || c == ':' || c == ';' || c == '\\'
}

/// What a single character contributes to the escaped output: reserved
/// characters gain exactly one leading backslash, all others stand alone.
pub open spec fn escaped_char(c: char) -> Seq<char> {
    if is_reserved_char(c) {
        seq!['\\', c]
    } else {
        seq![c]
    }
}

/// The escaped form of a whole character sequence: each character replaced
/// by its `escaped_char` contribution, in order.
pub open spec fn escape_chars(s: Seq<char>) -> Seq<char>
    decreases s.len(),
{
    if s.len() == 0 {
        Seq::empty()
    } else {
        escaped_char(s[0]) + escape_chars(s.drop_first())
    }
}

/// How many characters of `s` are reserved delimiters.
pub open spec fn count_reserved(s: Seq<char>) -> nat
    decreases s.len(),
{
    if s.len() == 0 {
        0
    } else {
        (if is_reserved_char(s[0]) {
            1nat
        } else {
            0nat
        }) + count_reserved(s.drop_first())
    }
}

/// Escaping a concatenation escapes each part independently: the escaper
/// is character-local, so no boundary between two fields changes the result.
pub proof fn lemma_escape_concat(a: Seq<char>, b: Seq<char>)
    ensures
        escape_chars(a + b) == escape_chars(a) + escape_chars(b),
    decreases a.len(),
{
    if a.len() == 0 {
        assert(a + b =~= b);
        assert(escape_chars(a) + escape_chars(b) =~= escape_chars(b));
    } else {
        assert((a + b).drop_first() =~= a.drop_first() + b);
        lemma_escape_concat(a.drop_first(), b);
        assert((a + b)[0] == a[0]);
        assert(escape_chars(a + b) =~= escape_chars(a) + escape_chars(b));
    }
}

/// A single character escapes to its `escaped_char` contribution: one
/// backslash inserted before a reserved character, nothing else changed.
pub proof fn lemma_escape_single(c: char)
    ensures
        escape_chars(seq![c]) == escaped_char(c),
{
    let s = seq![c];
    assert(s.len() == 1 && s[0] == c);
    assert(s.drop_first() =~= Seq::<char>::empty());
    assert(escape_chars(s.drop_first()) =~= Seq::<char>::empty());
    assert(escape_chars(s) == escaped_char(c) + escape_chars(s.drop_first()));
    assert(escaped_char(c) + Seq::<char>::empty() =~= escaped_char(c));
}

/// Escaping never alters the character count except by adding exactly one
/// character per reserved delimiter.
pub proof fn lemma_escape_len(s: Seq<char>)
    ensures
        escape_chars(s).len() == s.len() + count_reserved(s),
    decreases s.len(),
{
    if s.len() == 0 {
    } else {
        lemma_escape_len(s.drop_first());
    }
}

/// Appending one character to the input appends its contribution to the
/// escaped output.
pub proof fn lemma_escape_snoc(s: Seq<char>, c: char)
    ensures
        escape_chars(s.push(c)) == escape_chars(s) + escaped_char(c),
{
    assert(s.push(c) =~= s + seq![c]);
    lemma_escape_concat(s, seq![c]);
    lemma_escape_single(c);
}

/// Relies on `String::push`: appends the given character to the end of the
/// string.
#[verifier::external_body]
pub(crate) fn push_char(s: &mut String, c: char)
    ensures
        final(s)@ == old(s)@.push(c),
{
    s.push(c);
}

/// Escapes the reserved delimiter characters `,`, `:`, `;` and `\` with a
/// single backslash each; every other character is kept unchanged and in
/// order.
pub fn mecardify(s: &str) -> (r: String)
    ensures
        r@ == escape_chars(s@),
{
    let len = s.unicode_len();
    let mut r = String::new();
    let mut i: usize = 0;
    while i < len
        invariant
            len == s@.len(),
            i <= len,
            r@ == escape_chars(s@.take(i as int)),
        decreases len - i,
    {
        let c = s.get_char(i);
        if c == ',' || c == ':' || c == ';' || c == '\\' {
            push_char(&mut r, '\\');
        }
        push_char(&mut r, c);
        proof {
            assert(s@.take(i + 1 as int) =~= s@.take(i as int).push(s@[i as int]));
            lemma_escape_snoc(s@.take(i as int), s@[i as int]);
            assert(r@ =~= escape_chars(s@.take(i + 1 as int)));
        }
        i += 1;
    }
    proof {
        assert(s@.take(len as int) =~= s@);
    }
    r
}

} // verus!
