//! Verified text helpers: the strings of this library are sequences of characters.
use vstd::prelude::*;

verus! {

/// Every occurrence of `pat` in `s`, found from left to right without overlaps, replaced by `rep`.
pub open spec fn replace_all_spec(s: Seq<char>, pat: Seq<char>, rep: Seq<char>) -> Seq<char>
    decreases s.len(),
{
    if pat.len() == 0 || s.len() < pat.len() {
        s
    } else if s.subrange(0, pat.len() as int) == pat {
        rep + replace_all_spec(s.subrange(pat.len() as int, s.len() as int), pat, rep)
    } else {
        seq![s[0]] + replace_all_spec(s.subrange(1, s.len() as int), pat, rep)
    }
}

/// The elements of `parts` with `sep` between each two neighbours.
pub open spec fn join_spec(parts: Seq<Seq<char>>, sep: Seq<char>) -> Seq<char>
    decreases parts.len(),
{
    if parts.len() == 0 {
        Seq::empty()
    } else if parts.len() == 1 {
        parts[0]
    } else {
        join_spec(parts.drop_last(), sep) + sep + parts.last()
    }
}

/// The character of a decimal digit.
pub open spec fn digit_char(d: nat) -> char {
    if d == 0 {
        '0'
    } else if d == 1 {
        '1'
    } else if d == 2 {
        '2'
    } else if d == 3 {
        '3'
    } else if d == 4 {
        '4'
    } else if d == 5 {
        '5'
    } else if d == 6 {
        '6'
    } else if d == 7 {
        '7'
    } else if d == 8 {
        '8'
    } else {
        '9'
    }
}

/// The decimal notation of a natural number, without leading zeros.
pub open spec fn decimal(n: nat) -> Seq<char>
    decreases n,
{
    if n < 10 {
        seq![digit_char(n)]
    } else {
        decimal(n / 10).push(digit_char(n % 10))
    }
}

/// Appends one character to a string (`String::push`).
#[verifier::external_body]
pub(crate) fn push_char(s: &mut String, c: char)
    ensures
        final(s)@ == old(s)@.push(c),
{
    s.push(c)
}

/// The characters of a string slice.
pub fn chars_of(s: &str) -> (r: Vec<char>)
    ensures
        r@ == s@,
{
    let mut r: Vec<char> = Vec::new();
    for c in it: s.chars()
        invariant
            r@ == it.seq().take(it.index() as int),
    {
        r.push(c);
    }
    r
}

/// The string made of the given characters.
pub fn string_of(v: &Vec<char>) -> (r: String)
    ensures
        r@ == v@,
{
    let mut r = String::new();
    let mut i: usize = 0;
    while i < v.len()
        invariant
            i <= v.len(),
            r@ == v@.take(i as int),
        decreases v.len() - i,
    {
        push_char(&mut r, v[i]);
        assert(v@.take(i as int).push(v@[i as int]) =~= v@.take(i + 1));
        i += 1;
    }
    assert(v@.take(v.len() as int) =~= v@);
    r
}

/// Appends the characters of `other` to `v`.
pub fn extend_chars(v: &mut Vec<char>, other: &Vec<char>)
    ensures
        final(v)@ == old(v)@ + other@,
{
    let ghost start = v@;
    let mut i: usize = 0;
    while i < other.len()
        invariant
            i <= other.len(),
            v@ == start + other@.take(i as int),
        decreases other.len() - i,
    {
        v.push(other[i]);
        assert(start + other@.take(i as int).push(other@[i as int]) =~= start + other@.take(i + 1));
        i += 1;
    }
    assert(other@.take(other.len() as int) =~= other@);
}

/// Whether `pat` occurs in `s` at position `i`.
pub fn matches_at(s: &Vec<char>, i: usize, pat: &Vec<char>) -> (r: bool)
    requires
        i + pat.len() <= s.len(),
    ensures
        r == (s@.subrange(i as int, i + pat.len()) == pat@),
{
    let mut j: usize = 0;
    while j < pat.len()
        invariant
            j <= pat.len(),
            i + pat.len() <= s.len(),
            s@.subrange(i as int, i + j) == pat@.take(j as int),
        decreases pat.len() - j,
    {
        if s[i + j] != pat[j] {
            assert(s@.subrange(i as int, i + pat.len())[j as int] != pat@[j as int]);
            return false;
        }
        assert(s@.subrange(i as int, i + j + 1) =~= pat@.take(j + 1));
        j += 1;
    }
    assert(pat@.take(pat.len() as int) =~= pat@);
    true
}

/// Whether the string starts with the given prefix.
pub fn starts_with(s: &str, prefix: &str) -> (r: bool)
    ensures
        r == prefix@.is_prefix_of(s@),
{
    let sv = chars_of(s);
    let pv = chars_of(prefix);
    if pv.len() > sv.len() {
        return false;
    }
    let r = matches_at(&sv, 0, &pv);
    assert(r == (sv@.subrange(0, pv@.len() as int) =~= pv@));
    r
}

/// `str::replace` on character sequences: every occurrence of the non-empty `pat` in `s`,
/// from left to right, is replaced by `rep`.
pub fn replace_all(s: &str, pat: &str, rep: &str) -> (r: String)
    requires
        pat@.len() > 0,
    ensures
        r@ == replace_all_spec(s@, pat@, rep@),
{
    let sv = chars_of(s);
    let pv = chars_of(pat);
    let rv = chars_of(rep);
    let mut out: Vec<char> = Vec::new();
    let mut i: usize = 0;
    assert(sv@.subrange(0, sv@.len() as int) =~= sv@);
    assert(out@ + replace_all_spec(sv@, pv@, rv@) =~= replace_all_spec(sv@, pv@, rv@));
    while i < sv.len()
        invariant
            i <= sv.len(),
            pv@.len() > 0,
            sv@ == s@,
            pv@ == pat@,
            rv@ == rep@,
            out@ + replace_all_spec(sv@.subrange(i as int, sv@.len() as int), pv@, rv@)
                == replace_all_spec(sv@, pv@, rv@),
        decreases sv.len() - i,
    {
        let ghost rest = sv@.subrange(i as int, sv@.len() as int);
        if pv.len() <= sv.len() - i && matches_at(&sv, i, &pv) {
            assert(rest.subrange(0, pv@.len() as int) =~= sv@.subrange(i as int, i + pv.len()));
            assert(rest.subrange(pv@.len() as int, rest.len() as int) =~= sv@.subrange(
                i + pv.len(),
                sv@.len() as int,
            ));
            let ghost before = out@;
            extend_chars(&mut out, &rv);
            assert(out@ + replace_all_spec(sv@.subrange(i + pv.len(), sv@.len() as int), pv@, rv@)
                =~= before + replace_all_spec(rest, pv@, rv@));
            i = i + pv.len();
        } else {
            assert(rest.subrange(1, rest.len() as int) =~= sv@.subrange(i + 1, sv@.len() as int));
            if pv.len() <= sv.len() - i {
                assert(rest.subrange(0, pv@.len() as int) =~= sv@.subrange(
                    i as int,
                    i + pv.len(),
                ));
            }
            let ghost before = out@;
            out.push(sv[i]);
            proof {
                if rest.len() < pv@.len() {
                    let tail = sv@.subrange(i + 1, sv@.len() as int);
                    assert(replace_all_spec(tail, pv@, rv@) == tail);
                    assert(seq![rest[0]] + tail =~= rest);
                }
            }
            assert(out@ + replace_all_spec(sv@.subrange(i + 1, sv@.len() as int), pv@, rv@)
                =~= before + replace_all_spec(rest, pv@, rv@));
            i = i + 1;
        }
    }
    assert(sv@.subrange(i as int, sv@.len() as int) =~= Seq::<char>::empty());
    assert(out@ + Seq::<char>::empty() =~= out@);
    string_of(&out)
}

/// Joins the strings with the separator between neighbours (`[String]::join`).
pub fn join(parts: &Vec<String>, sep: &str) -> (r: String)
    ensures
        r@ == join_spec(parts@.map_values(|p: String| p@), sep@),
{
    let ghost views = parts@.map_values(|p: String| p@);
    let sepv = chars_of(sep);
    let mut out: Vec<char> = Vec::new();
    let mut i: usize = 0;
    while i < parts.len()
        invariant
            i <= parts.len(),
            views == parts@.map_values(|p: String| p@),
            sepv@ == sep@,
            out@ == join_spec(views.take(i as int), sep@),
        decreases parts.len() - i,
    {
        let pv = chars_of(parts[i].as_str());
        assert(views.take(i + 1).drop_last() =~= views.take(i as int));
        assert(views.take(i + 1).last() == views[i as int]);
        if i > 0 {
            extend_chars(&mut out, &sepv);
        }
        extend_chars(&mut out, &pv);
        if i == 0 {
            assert(out@ =~= views.take(1)[0]);
        }
        i += 1;
    }
    assert(views.take(parts.len() as int) =~= views);
    string_of(&out)
}

/// The decimal notation of a natural number (`usize::to_string`).
pub fn usize_to_string(n: usize) -> (r: String)
    ensures
        r@ == decimal(n as nat),
    decreases n,
{
    let d = n % 10;
    let c = if d == 0 {
        '0'
    } else if d == 1 {
        '1'
    } else if d == 2 {
        '2'
    } else if d == 3 {
        '3'
    } else if d == 4 {
        '4'
    } else if d == 5 {
        '5'
    } else if d == 6 {
        '6'
    } else if d == 7 {
        '7'
    } else if d == 8 {
        '8'
    } else {
        '9'
    };
    if n < 10 {
        let mut r = String::new();
        push_char(&mut r, c);
        r
    } else {
        let mut r = usize_to_string(n / 10);
        push_char(&mut r, c);
        r
    }
}

/// A copy of a string slice as an owned string.
pub fn owned(s: &str) -> (r: String)
    ensures
        r@ == s@,
{
    let v = chars_of(s);
    string_of(&v)
}

/// Whether two strings hold the same characters.
pub fn same_text(a: &str, b: &str) -> (r: bool)
    ensures
        r == (a@ == b@),
{
    let av = chars_of(a);
    let bv = chars_of(b);
    if av.len() != bv.len() {
        return false;
    }
    let r = matches_at(&av, 0, &bv);
    assert(av@.subrange(0, bv.len() as int) =~= av@);
    r
}

/// The text without its first and its last character (empty for texts of at most two).
pub fn remove_first_and_last(value: &str) -> (r: String)
    ensures
        r@ == if value@.len() <= 2 {
            Seq::<char>::empty()
        } else {
            value@.subrange(1, value@.len() - 1)
        },
{
    let v = chars_of(value);
    let mut out: Vec<char> = Vec::new();
    if v.len() > 2 {
        let mut i: usize = 1;
        while i < v.len() - 1
            invariant
                1 <= i <= v@.len() - 1,
                v@.len() > 2,
                out@ == v@.subrange(1, i as int),
            decreases v@.len() - 1 - i,
        {
            out.push(v[i]);
            assert(out@ =~= v@.subrange(1, i + 1));
            i += 1;
        }
    }
    string_of(&out)
}

} // verus!
