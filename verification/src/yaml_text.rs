//! Which texts yaml_subset reads without failing. Its parser stops the program on some block
//! scalars (`|` or `>` strings over several lines): on an indentation digit that is not an ASCII
//! digit, too large, or `0`, and on a line of the block that is shorter than the indentation it
//! takes from the first line. Its path parser stops on an index too large for `usize`. The checks
//! here let a text through only where the parser cannot meet those cases.
use vstd::prelude::*;

verus! {

/// Whether the character belongs to ASCII.
pub open spec fn is_ascii_char(c: char) -> bool {
    (c as int) < 128
}

/// Whether the character is white space of ASCII that can stand within a line: space, tab,
/// vertical tab or form feed.
pub open spec fn is_ascii_blank(c: char) -> bool {
    c == ' ' || c == '\t' || c == '\x0b' || c == '\x0c'
}

/// The lines of a text: the pieces between the newline characters.
pub open spec fn split_lines(s: Seq<char>) -> Seq<Seq<char>>
    decreases s.len(),
{
    if s.len() == 0 {
        seq![Seq::empty()]
    } else {
        let ls = split_lines(s.drop_last());
        if s.last() == '\n' {
            ls.push(Seq::empty())
        } else {
            ls.update(ls.len() - 1, ls.last().push(s.last()))
        }
    }
}

/// A text has at least one line.
proof fn lemma_split_lines_len(s: Seq<char>)
    ensures
        split_lines(s).len() >= 1,
    decreases s.len(),
{
    if s.len() > 0 {
        lemma_split_lines_len(s.drop_last());
    }
}

/// The number of spaces at the start of a line.
pub open spec fn leading_spaces(l: Seq<char>) -> nat
    decreases l.len(),
{
    if l.len() > 0 && l[0] == ' ' {
        1 + leading_spaces(l.drop_first())
    } else {
        0
    }
}

/// The number of ASCII white space characters at the start of a line.
pub open spec fn leading_blanks(l: Seq<char>) -> nat
    decreases l.len(),
{
    if l.len() > 0 && is_ascii_blank(l[0]) {
        1 + leading_blanks(l.drop_first())
    } else {
        0
    }
}

/// Whether a character can follow a block scalar's `|` or `>` on its line: a chomping sign, a
/// digit, a space, or a character outside ASCII (which may be a digit or a space of Unicode).
pub open spec fn may_follow_block_start(c: char) -> bool {
    c == '+' || c == '-' || ('0' <= c && c <= '9') || c == ' ' || !is_ascii_char(c)
}

/// Whether the `|` or `>` at position `j` of the line may begin a block scalar: nothing but such
/// characters follow it on the line.
pub open spec fn block_start_candidate(l: Seq<char>, j: int) -> bool {
    &&& 0 <= j < l.len()
    &&& (l[j] == '|' || l[j] == '>')
    &&& forall|t: int| j < t < l.len() ==> may_follow_block_start(#[trigger] l[t])
}

/// Whether only spaces and chomping signs follow position `j` on the line (no indentation digit).
pub open spec fn plain_block_start(l: Seq<char>, j: int) -> bool {
    forall|t: int| j < t < l.len() ==> #[trigger] l[t] == ' ' || l[t] == '+' || l[t] == '-'
}

/// Whether the line starts an element at its leading spaces (the first character after them is
/// ASCII and no white space) and position `j` comes after that start. The parser then holds the
/// leading spaces as the current indentation.
pub open spec fn after_element_start(l: Seq<char>, j: int) -> bool {
    let n = leading_spaces(l) as int;
    n < j && j < l.len() && is_ascii_char(l[n]) && !is_ascii_blank(l[n])
}

/// Whether the line is made of spaces only.
pub open spec fn spaces_only(l: Seq<char>) -> bool {
    forall|t: int| 0 <= t < l.len() ==> #[trigger] l[t] == ' '
}

/// Whether the line starts with `p` spaces.
pub open spec fn starts_with_spaces(l: Seq<char>, p: nat) -> bool {
    l.len() >= p && forall|t: int| 0 <= t < p ==> #[trigger] l[t] == ' '
}

/// The first line from `i` on that is not made of spaces only; the number of lines when there is
/// none.
pub open spec fn first_content(ls: Seq<Seq<char>>, i: int) -> int
    decreases ls.len() - i,
{
    if i < 0 || i >= ls.len() {
        ls.len() as int
    } else if spaces_only(ls[i]) {
        first_content(ls, i + 1)
    } else {
        i
    }
}

/// Whether the first line of a block gives an indentation the parser counts as this module
/// does: its ASCII white space at the start is followed by the end or by an ASCII character.
pub open spec fn first_block_line_ok(x: Seq<char>) -> bool {
    let n = leading_blanks(x) as int;
    n == x.len() || is_ascii_char(x[n])
}

/// Whether the parser can cut the indentation `indent` from a further line of a block: it is
/// empty, or it has at least `indent` characters and those are ASCII.
pub open spec fn later_block_line_ok(x: Seq<char>, indent: nat) -> bool {
    x.len() == 0 || (x.len() >= indent && forall|t: int| 0 <= t < indent ==> is_ascii_char(
        #[trigger] x[t],
    ))
}

/// Whether the further lines of a block from line `i` on are all fine; the block holds the
/// empty lines and the lines that start with `p` spaces, up to the first other line.
pub open spec fn block_rest_ok(ls: Seq<Seq<char>>, i: int, p: nat, indent: nat) -> bool
    decreases ls.len() - i,
{
    if i < 0 || i >= ls.len() {
        true
    } else if ls[i].len() == 0 {
        block_rest_ok(ls, i + 1, p, indent)
    } else if starts_with_spaces(ls[i], p) {
        later_block_line_ok(ls[i].skip(p as int), indent) && block_rest_ok(ls, i + 1, p, indent)
    } else {
        true
    }
}

/// Whether a block scalar that starts on line `k` is one the parser reads without failing. Its
/// lines start with the indentation of line `k` and one more space; the lines made of spaces
/// only before its first line are skipped. When the first other line does not start so, there
/// is no block, provided that line is all ASCII (so that it is not made of spaces of Unicode).
pub open spec fn block_ok(ls: Seq<Seq<char>>, k: int) -> bool {
    let p = leading_spaces(ls[k]) + 1;
    let m = first_content(ls, k + 1);
    if m >= ls.len() {
        true
    } else if !starts_with_spaces(ls[m], p) {
        forall|t: int| 0 <= t < ls[m].len() ==> is_ascii_char(#[trigger] ls[m][t])
    } else {
        let x = ls[m].skip(p as int);
        first_block_line_ok(x) && block_rest_ok(ls, m + 1, p, leading_blanks(x))
    }
}

/// Whether yaml_subset reads the text without failing: every `|` or `>` that may begin a block
/// scalar has no indentation digit, comes after the start of an element on its line, and the
/// block that would follow it is one the parser cuts without failing; and where there is such
/// a `|` or `>`, the text has no carriage return.
pub open spec fn yaml_text_safe(s: Seq<char>) -> bool {
    let ls = split_lines(s);
    forall|k: int, j: int|
        0 <= k < ls.len() && #[trigger] block_start_candidate(ls[k], j) ==> {
            &&& !s.contains('\r')
            &&& plain_block_start(ls[k], j)
            &&& after_element_start(ls[k], j)
            &&& block_ok(ls, k)
        }
}

/// The texts of lines held as lists of characters.
pub open spec fn lines_view(v: Seq<Vec<char>>) -> Seq<Seq<char>> {
    v.map_values(|l: Vec<char>| l@)
}

/// The lines of a text.
fn split_lines_exec(cs: &Vec<char>) -> (r: Vec<Vec<char>>)
    ensures
        lines_view(r@) == split_lines(cs@),
{
    let mut r: Vec<Vec<char>> = Vec::new();
    r.push(Vec::new());
    assert(cs@.take(0) =~= Seq::<char>::empty());
    assert(lines_view(r@) =~= split_lines(cs@.take(0)));
    let mut i: usize = 0;
    while i < cs.len()
        invariant
            i <= cs@.len(),
            r@.len() >= 1,
            lines_view(r@) == split_lines(cs@.take(i as int)),
        decreases cs@.len() - i,
    {
        let ghost before = lines_view(r@);
        assert(cs@.take(i + 1).drop_last() =~= cs@.take(i as int));
        assert(cs@.take(i + 1).last() == cs@[i as int]);
        let c = cs[i];
        if c == '\n' {
            r.push(Vec::new());
            assert(lines_view(r@) =~= before.push(Seq::empty()));
        } else {
            let mut l = r.pop().unwrap();
            let ghost lv = l@;
            l.push(c);
            r.push(l);
            assert(lines_view(r@) =~= before.update(before.len() - 1, lv.push(c)));
        }
        i += 1;
    }
    assert(cs@.take(cs@.len() as int) =~= cs@);
    r
}

/// The number of spaces at the start of a line.
fn leading_spaces_exec(l: &Vec<char>) -> (r: usize)
    ensures
        r == leading_spaces(l@),
        r <= l@.len(),
{
    let mut i: usize = 0;
    assert(l@.skip(0) =~= l@);
    while i < l.len() && l[i] == ' '
        invariant
            i <= l@.len(),
            leading_spaces(l@) == i + leading_spaces(l@.skip(i as int)),
        decreases l@.len() - i,
    {
        assert(l@.skip(i as int).drop_first() =~= l@.skip(i + 1));
        i += 1;
    }
    proof {
        lemma_leading_end(l@, i as int);
    }
    i
}

/// Where a leading run ends, nothing more is counted.
proof fn lemma_leading_end(l: Seq<char>, i: int)
    requires
        0 <= i <= l.len(),
        i == l.len() || l[i] != ' ',
    ensures
        leading_spaces(l.skip(i)) == 0,
{
    if i < l.len() {
        assert(l.skip(i)[0] == l[i]);
    }
}

/// The number of ASCII white space characters at the start of a line.
fn leading_blanks_exec(l: &Vec<char>) -> (r: usize)
    ensures
        r == leading_blanks(l@),
        r <= l@.len(),
{
    let mut i: usize = 0;
    assert(l@.skip(0) =~= l@);
    while i < l.len() && (l[i] == ' ' || l[i] == '\t' || l[i] == '\x0b' || l[i] == '\x0c')
        invariant
            i <= l@.len(),
            leading_blanks(l@) == i + leading_blanks(l@.skip(i as int)),
        decreases l@.len() - i,
    {
        assert(l@.skip(i as int).drop_first() =~= l@.skip(i + 1));
        i += 1;
    }
    if i < l.len() {
        assert(l@.skip(i as int)[0] == l@[i as int]);
    }
    i
}

/// Whether the character belongs to ASCII.
fn is_ascii_exec(c: char) -> (r: bool)
    ensures
        r == is_ascii_char(c),
{
    (c as u32) < 128
}

/// Whether the `|` or `>` at position `j` may begin a block scalar.
fn block_start_candidate_exec(l: &Vec<char>, j: usize) -> (r: bool)
    ensures
        r == block_start_candidate(l@, j as int),
{
    if j >= l.len() || !(l[j] == '|' || l[j] == '>') {
        return false;
    }
    let mut t: usize = j + 1;
    while t < l.len()
        invariant
            j < l@.len(),
            j + 1 <= t <= l@.len(),
            forall|u: int| j < u < t ==> may_follow_block_start(#[trigger] l@[u]),
        decreases l@.len() - t,
    {
        let c = l[t];
        if !(c == '+' || c == '-' || ('0' <= c && c <= '9') || c == ' ' || !is_ascii_exec(c)) {
            assert(!may_follow_block_start(l@[t as int]));
            return false;
        }
        t += 1;
    }
    true
}

/// Whether only spaces and chomping signs follow position `j` on the line.
fn plain_block_start_exec(l: &Vec<char>, j: usize) -> (r: bool)
    ensures
        r == plain_block_start(l@, j as int),
{
    if j >= l.len() {
        return true;
    }
    let mut t: usize = j + 1;
    while t < l.len()
        invariant
            j + 1 <= t <= l@.len(),
            forall|u: int| j < u < t ==> #[trigger] l@[u] == ' ' || l@[u] == '+' || l@[u] == '-',
        decreases l@.len() - t,
    {
        let c = l[t];
        if !(c == ' ' || c == '+' || c == '-') {
            return false;
        }
        t += 1;
    }
    true
}

/// Whether the line starts an element at its leading spaces and position `j` comes after.
fn after_element_start_exec(l: &Vec<char>, j: usize) -> (r: bool)
    ensures
        r == after_element_start(l@, j as int),
{
    let n = leading_spaces_exec(l);
    n < j && j < l.len() && is_ascii_exec(l[n]) && !(l[n] == ' ' || l[n] == '\t' || l[n]
        == '\x0b' || l[n] == '\x0c')
}

/// Whether the line is made of spaces only.
fn spaces_only_exec(l: &Vec<char>) -> (r: bool)
    ensures
        r == spaces_only(l@),
{
    let n = leading_spaces_exec(l);
    if n < l.len() {
        proof {
            let ls = l@;
            assert(ls.skip(n as int)[0] == ls[n as int]);
        }
    }
    proof {
        lemma_leading_spaces_are_spaces(l@, n as int);
    }
    n == l.len()
}

/// The first `leading_spaces` characters are spaces, and the next one is none.
proof fn lemma_leading_spaces_are_spaces(l: Seq<char>, n: int)
    requires
        n == leading_spaces(l),
    ensures
        forall|t: int| 0 <= t < n ==> l[t] == ' ',
        n < l.len() ==> l[n] != ' ',
        n <= l.len(),
    decreases l.len(),
{
    if l.len() > 0 && l[0] == ' ' {
        lemma_leading_spaces_are_spaces(l.drop_first(), n - 1);
        assert forall|t: int| 0 <= t < n implies l[t] == ' ' by {
            if t > 0 {
                assert(l[t] == l.drop_first()[t - 1]);
            }
        }
    }
}

/// Whether the line starts with `p` spaces.
fn starts_with_spaces_exec(l: &Vec<char>, p: usize) -> (r: bool)
    ensures
        r == starts_with_spaces(l@, p as nat),
{
    if l.len() < p {
        return false;
    }
    let mut t: usize = 0;
    while t < p
        invariant
            t <= p <= l@.len(),
            forall|u: int| 0 <= u < t ==> #[trigger] l@[u] == ' ',
        decreases p - t,
    {
        if l[t] != ' ' {
            return false;
        }
        t += 1;
    }
    true
}

/// Whether the line is all ASCII.
fn all_ascii_exec(l: &Vec<char>) -> (r: bool)
    ensures
        r == forall|t: int| 0 <= t < l@.len() ==> is_ascii_char(#[trigger] l@[t]),
{
    let mut t: usize = 0;
    while t < l.len()
        invariant
            t <= l@.len(),
            forall|u: int| 0 <= u < t ==> is_ascii_char(#[trigger] l@[u]),
        decreases l@.len() - t,
    {
        if !is_ascii_exec(l[t]) {
            return false;
        }
        t += 1;
    }
    true
}

/// The first line from `i` on that is not made of spaces only.
fn first_content_exec(ls: &Vec<Vec<char>>, i: usize) -> (r: usize)
    ensures
        r as int == first_content(lines_view(ls@), i as int),
        r <= ls@.len(),
{
    let ghost v = lines_view(ls@);
    let mut m: usize = i;
    if m > ls.len() {
        m = ls.len();
    }
    while m < ls.len() && spaces_only_exec(&ls[m])
        invariant
            v == lines_view(ls@),
            m <= ls@.len(),
            i <= ls@.len() ==> m >= i,
            first_content(v, i as int) == first_content(v, m as int),
        decreases ls@.len() - m,
    {
        assert(v[m as int] == ls@[m as int]@);
        m += 1;
    }
    if m < ls.len() {
        assert(v[m as int] == ls@[m as int]@);
    }
    m
}

/// Whether the further lines of a block from line `i` on are all fine.
fn block_rest_ok_exec(ls: &Vec<Vec<char>>, i: usize, p: usize, indent: usize) -> (r: bool)
    ensures
        r == block_rest_ok(lines_view(ls@), i as int, p as nat, indent as nat),
{
    let ghost v = lines_view(ls@);
    let mut k: usize = i;
    while k < ls.len()
        invariant
            v == lines_view(ls@),
            i <= k,
            block_rest_ok(v, i as int, p as nat, indent as nat) == block_rest_ok(
                v,
                k as int,
                p as nat,
                indent as nat,
            ),
        decreases ls@.len() - k,
    {
        let l = &ls[k];
        assert(v[k as int] == l@);
        if l.len() == 0 {
            k += 1;
        } else if starts_with_spaces_exec(l, p) {
            let ok = later_line_ok_exec(l, p, indent);
            if !ok {
                return false;
            }
            k += 1;
        } else {
            return true;
        }
    }
    true
}

/// Whether the part of the line after `p` characters is a fine further line of a block.
fn later_line_ok_exec(l: &Vec<char>, p: usize, indent: usize) -> (r: bool)
    requires
        p <= l@.len(),
    ensures
        r == later_block_line_ok(l@.skip(p as int), indent as nat),
{
    let ghost x = l@.skip(p as int);
    let len = l.len() - p;
    if len == 0 {
        return true;
    }
    if len < indent {
        return false;
    }
    let mut t: usize = 0;
    while t < indent
        invariant
            x == l@.skip(p as int),
            t <= indent <= x.len(),
            p + x.len() == l@.len(),
            p + indent <= l@.len(),
            l@.len() <= usize::MAX,
            forall|u: int| 0 <= u < t ==> is_ascii_char(#[trigger] x[u]),
        decreases indent - t,
    {
        assert(x[t as int] == l@[p + t]);
        if !is_ascii_exec(l[p + t]) {
            return false;
        }
        t += 1;
    }
    true
}

/// Whether a block scalar that starts on line `k` is one the parser reads without failing.
fn block_ok_exec(ls: &Vec<Vec<char>>, k: usize) -> (r: bool)
    requires
        k < ls@.len(),
    ensures
        r == block_ok(lines_view(ls@), k as int),
{
    let ghost v = lines_view(ls@);
    let _n = ls.len();
    assert(v[k as int] == ls@[k as int]@);
    let lead = leading_spaces_exec(&ls[k]);
    let m = first_content_exec(ls, k + 1);
    if m >= ls.len() {
        return true;
    }
    let l = &ls[m];
    assert(v[m as int] == l@);
    if lead >= l.len() {
        // no line can start with more spaces than it has characters
        return all_ascii_exec(l);
    }
    let p = lead + 1;
    if !starts_with_spaces_exec(l, p) {
        return all_ascii_exec(l);
    }
    let rest: Vec<char> = tail_from(l, p);
    let indent = leading_blanks_exec(&rest);
    let first_ok = indent == rest.len() || is_ascii_exec(rest[indent]);
    if !first_ok {
        return false;
    }
    block_rest_ok_exec(ls, m + 1, p, indent)
}

/// The characters of the line after the first `p`.
fn tail_from(l: &Vec<char>, p: usize) -> (r: Vec<char>)
    requires
        p <= l@.len(),
    ensures
        r@ == l@.skip(p as int),
{
    let mut r: Vec<char> = Vec::new();
    let mut t: usize = p;
    while t < l.len()
        invariant
            p <= t <= l@.len(),
            r@ == l@.subrange(p as int, t as int),
        decreases l@.len() - t,
    {
        r.push(l[t]);
        assert(r@ =~= l@.subrange(p as int, t + 1));
        t += 1;
    }
    assert(l@.subrange(p as int, l@.len() as int) =~= l@.skip(p as int));
    r
}

/// Whether the text has a carriage return.
fn has_carriage_return(cs: &Vec<char>) -> (r: bool)
    ensures
        r == cs@.contains('\r'),
{
    let mut t: usize = 0;
    while t < cs.len()
        invariant
            t <= cs@.len(),
            forall|u: int| 0 <= u < t ==> cs@[u] != '\r',
        decreases cs@.len() - t,
    {
        if cs[t] == '\r' {
            assert(cs@[t as int] == '\r');
            assert(cs@.contains('\r'));
            return true;
        }
        t += 1;
    }
    assert(!cs@.contains('\r'));
    false
}

/// Whether yaml_subset reads the text without failing (see `yaml_text_safe`).
pub fn yaml_text_is_safe(s: &str) -> (r: bool)
    ensures
        r == yaml_text_safe(s@),
{
    let cs = crate::text::chars_of(s);
    let ls = split_lines_exec(&cs);
    let ghost v = lines_view(ls@);
    let cr = has_carriage_return(&cs);
    let mut k: usize = 0;
    while k < ls.len()
        invariant
            v == lines_view(ls@),
            v == split_lines(s@),
            cs@ == s@,
            cr == s@.contains('\r'),
            k <= ls@.len(),
            forall|k2: int, j: int|
                0 <= k2 < k && #[trigger] block_start_candidate(v[k2], j) ==> {
                    &&& !s@.contains('\r')
                    &&& plain_block_start(v[k2], j)
                    &&& after_element_start(v[k2], j)
                    &&& block_ok(v, k2)
                },
        decreases ls@.len() - k,
    {
        let l = &ls[k];
        assert(v[k as int] == l@);
        let mut j: usize = 0;
        while j < l.len()
            invariant
                v == lines_view(ls@),
                v == split_lines(s@),
                k < ls@.len(),
                v[k as int] == l@,
                cr == s@.contains('\r'),
                j <= l@.len(),
                forall|j2: int|
                    0 <= j2 < j && #[trigger] block_start_candidate(v[k as int], j2) ==> {
                        &&& !s@.contains('\r')
                        &&& plain_block_start(v[k as int], j2)
                        &&& after_element_start(v[k as int], j2)
                        &&& block_ok(v, k as int)
                    },
            decreases l@.len() - j,
        {
            if block_start_candidate_exec(l, j) {
                if cr || !plain_block_start_exec(l, j) || !after_element_start_exec(l, j)
                    || !block_ok_exec(&ls, k) {
                    assert(block_start_candidate(split_lines(s@)[k as int], j as int));
                    return false;
                }
            }
            j += 1;
        }
        assert forall|j2: int| #[trigger] block_start_candidate(v[k as int], j2) implies {
            &&& !s@.contains('\r')
            &&& plain_block_start(v[k as int], j2)
            &&& after_element_start(v[k as int], j2)
            &&& block_ok(v, k as int)
        } by {
            assert(0 <= j2 < l@.len());
        }
        k += 1;
    }
    true
}

/// Whether ten ASCII digits follow each other from position `i`.
pub open spec fn ten_digits_at(s: Seq<char>, i: int) -> bool {
    forall|t: int| i <= t < i + 10 ==> '0' <= #[trigger] s[t] && s[t] <= '9'
}

/// Whether yaml_subset reads the text as a path without failing: no ten ASCII digits follow
/// each other, so every index in it fits in `usize` on every system.
pub open spec fn path_text_safe(s: Seq<char>) -> bool {
    forall|i: int| 0 <= i && i + 10 <= s.len() ==> !#[trigger] ten_digits_at(s, i)
}

/// Whether yaml_subset reads the text as a path without failing.
pub fn path_text_is_safe(s: &str) -> (r: bool)
    ensures
        r == path_text_safe(s@),
{
    let cs = crate::text::chars_of(s);
    let mut run: usize = 0;
    let mut t: usize = 0;
    while t < cs.len()
        invariant
            cs@ == s@,
            t <= cs@.len(),
            run <= 9,
            run <= t,
            forall|u: int| t - run <= u < t ==> '0' <= #[trigger] cs@[u] && cs@[u] <= '9',
            run < t ==> !('0' <= cs@[t - run - 1] && cs@[t - run - 1] <= '9'),
            forall|i: int| 0 <= i && i + 10 <= t ==> !#[trigger] ten_digits_at(s@, i),
        decreases cs@.len() - t,
    {
        let c = cs[t];
        if '0' <= c && c <= '9' {
            if run == 9 {
                assert(ten_digits_at(s@, t - 9));
                return false;
            }
            proof {
                assert forall|i: int| 0 <= i && i + 10 <= t + 1 implies !#[trigger] ten_digits_at(
                    s@,
                    i,
                ) by {
                    if i + 10 == t + 1 {
                        let w = t - run - 1;
                        assert(i <= w < i + 10);
                    }
                }
            }
            run = run + 1;
        } else {
            proof {
                assert forall|i: int| 0 <= i && i + 10 <= t + 1 implies !#[trigger] ten_digits_at(
                    s@,
                    i,
                ) by {
                    if i + 10 == t + 1 {
                        assert(i <= t < i + 10);
                    }
                }
            }
            run = 0;
        }
        t += 1;
    }
    true
}

} // verus!
