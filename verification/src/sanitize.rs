//! Names of files made from names given by users.
use crate::text::{replace_all, replace_all_spec};
use vstd::prelude::*;

verus! {

/// The characters that file names on some system do not allow.
pub open spec fn illegal_in_file_names(c: char) -> bool {
    c == '/' || c == '?' || c == '<' || c == '>' || c == '\\' || c == ':' || c == '*' || c == '|'
        || c == '"' || (c as int) <= 0x1f || (0x80 <= (c as int) && (c as int) <= 0x9f)
}

/// The characters of `s` that file names allow, in order.
pub open spec fn legal_chars(s: Seq<char>) -> Seq<char> {
    s.filter(|c: char| !illegal_in_file_names(c))
}

/// The character in lower case, for the letters of ASCII; any other character as it is.
pub open spec fn ascii_lower(c: char) -> char {
    if 'A' <= c && c <= 'Z' {
        ((c as int) + 32) as char
    } else {
        c
    }
}

/// Whether the name is the word `w` (in any case), alone or followed by a dot and anything.
pub open spec fn is_word_name(n: Seq<char>, w: Seq<char>) -> bool {
    &&& n.len() >= w.len()
    &&& forall|i: int| 0 <= i < w.len() ==> ascii_lower(#[trigger] n[i]) == w[i]
    &&& (n.len() == w.len() || n[w.len() as int] == '.')
}

/// Whether the name is one that Windows reserves for devices: `con`, `prn`, `aux`, `nul`, or
/// `com` or `lpt` followed by a digit, alone or followed by a dot and anything, in any case.
pub open spec fn windows_reserved(n: Seq<char>) -> bool {
    ||| is_word_name(n, "con"@)
    ||| is_word_name(n, "prn"@)
    ||| is_word_name(n, "aux"@)
    ||| is_word_name(n, "nul"@)
    ||| exists|d: char|
        '0' <= d && d <= '9' && (is_word_name(n, "com"@.push(d)) || is_word_name(
            n,
            "lpt"@.push(d),
        ))
}

/// The number of bytes of a character in UTF-8.
pub open spec fn utf8_char_len(c: char) -> nat {
    if (c as int) < 0x80 {
        1
    } else if (c as int) < 0x800 {
        2
    } else if (c as int) < 0x10000 {
        3
    } else {
        4
    }
}

/// The number of bytes of a text in UTF-8.
pub open spec fn utf8_len(s: Seq<char>) -> nat
    decreases s.len(),
{
    if s.len() == 0 {
        0
    } else {
        utf8_len(s.drop_last()) + utf8_char_len(s.last())
    }
}

/// Whether a name made of allowed characters is kept as it is on every system: it does not end
/// in a dot or a space (so it is not made of dots only), it is not reserved on Windows, and it
/// has at most 255 bytes.
pub open spec fn plain_file_name(n: Seq<char>) -> bool {
    &&& (n.len() == 0 || (n.last() != '.' && n.last() != ' '))
    &&& !windows_reserved(n)
    &&& utf8_len(n) <= 255
}

/// `sanitize_filename::sanitize`: removes from the name the characters that file names do not
/// allow, replaces a name made of dots only by the empty name, and (on Windows) a reserved name
/// by the empty name and drops trailing dots and spaces; then cuts it to at most 255 bytes. On
/// every system the result is therefore a prefix of the allowed characters of the name, and is
/// all of them when the name is plain. What it gives for other names depends on the system and
/// is not stated.
#[verifier::external_body]
fn sanitize_filename_of(s: &str) -> (r: String)
    ensures
        r@.is_prefix_of(legal_chars(s@)),
        plain_file_name(legal_chars(s@)) ==> r@ == legal_chars(s@),
        forall|i: int| 0 <= i < r@.len() ==> !illegal_in_file_names(#[trigger] r@[i]),
{
    sanitize_filename::sanitize(s)
}

/// The name without its dots (which would interfere with adding an extension).
pub fn remove_dots(s: &str) -> (r: String)
    ensures
        r@ == replace_all_spec(s@, seq!['.'], Seq::empty()),
{
    proof {
        reveal_strlit(".");
        reveal_strlit("");
        assert("."@ =~= seq!['.']);
        assert(""@ =~= Seq::<char>::empty());
    }
    replace_all(s, ".", "")
}

/// What removing the dots leaves: the characters that are not dots, in order.
proof fn lemma_remove_dots(s: Seq<char>)
    ensures
        forall|i: int| #![trigger replace_all_spec(s, seq!['.'], Seq::empty())[i]]
            0 <= i < replace_all_spec(s, seq!['.'], Seq::empty()).len() ==> {
                let r = replace_all_spec(s, seq!['.'], Seq::empty());
                r[i] != '.' && s.contains(r[i])
            },
    decreases s.len(),
{
    let r = replace_all_spec(s, seq!['.'], Seq::empty());
    if s.len() >= 1 {
        let rest = s.subrange(1, s.len() as int);
        lemma_remove_dots(rest);
        let rr = replace_all_spec(rest, seq!['.'], Seq::empty());
        if s.subrange(0, 1) == seq!['.'] {
            assert(r =~= rr);
            assert forall|i: int| 0 <= i < r.len() implies r[i] != '.' && s.contains(r[i]) by {
                let j = choose|j: int| 0 <= j < rest.len() && rest[j] == rr[i];
                assert(s[j + 1] == rest[j]);
            }
        } else {
            assert(s[0] != '.') by {
                if s[0] == '.' {
                    assert(s.subrange(0, 1) =~= seq!['.']);
                }
            }
            assert(r =~= seq![s[0]] + rr);
            assert forall|i: int| 0 <= i < r.len() implies r[i] != '.' && s.contains(r[i]) by {
                if i == 0 {
                    assert(s[0] == r[0]);
                } else {
                    let j = choose|j: int| 0 <= j < rest.len() && rest[j] == rr[i - 1];
                    assert(s[j + 1] == rest[j]);
                }
            }
        }
    }
}

/// A name for a file made from `s`: the characters that file names do not allow are removed
/// (`sanitize_filename::sanitize`), and so are the dots. The result is the dot-free form of a
/// prefix of the allowed characters of `s`, and of all of them when those make a plain name; it
/// has neither dots nor characters that file names do not allow.
pub fn sanitize(s: &String) -> (r: String)
    ensures
        exists|c: Seq<char>|
            c.is_prefix_of(legal_chars(s@)) && r@ == #[trigger] replace_all_spec(
                c,
                seq!['.'],
                Seq::empty(),
            ),
        plain_file_name(legal_chars(s@)) ==> r@ == replace_all_spec(
            legal_chars(s@),
            seq!['.'],
            Seq::empty(),
        ),
        forall|i: int| 0 <= i < r@.len() ==> #[trigger] r@[i] != '.' && !illegal_in_file_names(
            r@[i],
        ),
{
    let clean = sanitize_filename_of(s.as_str());
    let r = remove_dots(clean.as_str());
    proof {
        lemma_remove_dots(clean@);
        assert forall|i: int| 0 <= i < r@.len() implies #[trigger] r@[i] != '.'
            && !illegal_in_file_names(r@[i]) by {
            let j = choose|j: int| 0 <= j < clean@.len() && clean@[j] == r@[i];
            assert(!illegal_in_file_names(clean@[j]));
        }
        assert(clean@.is_prefix_of(legal_chars(s@)) && r@ == replace_all_spec(
            clean@,
            seq!['.'],
            Seq::empty(),
        ));
    }
    r
}

} // verus!
