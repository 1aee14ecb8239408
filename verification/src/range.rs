//! Ranges of numbers written as text, `from .. to#step` or `random(from .. to#step)`, as the
//! values of question variables.
use crate::input_check::opt_view;
use vstd::prelude::*;

verus! {

/// The groups that the regular expression `pattern` captures in the first match in `haystack`,
/// group 0 being the whole match and `None` standing for a group that took no part; `None` when
/// `pattern` is not a valid regular expression or nothing matches.
pub uninterp spec fn regex_captures(pattern: Seq<char>, haystack: Seq<char>) -> Option<
    Seq<Option<Seq<char>>>,
>;

/// A number written in ASCII as a range holds it: an optional minus sign, digits, and
/// optionally a dot followed by digits.
pub struct NumberText {
    pub negative: bool,
    pub whole: Seq<char>,
    pub fraction: Option<Seq<char>>,
}

/// Whether every character is an ASCII digit, and there is one at least.
pub open spec fn ascii_digits(d: Seq<char>) -> bool {
    d.len() > 0 && forall|i: int| 0 <= i < d.len() ==> '0' <= #[trigger] d[i] && d[i] <= '9'
}

/// Whether the parts of the number are digits.
pub open spec fn number_ok(n: NumberText) -> bool {
    ascii_digits(n.whole) && (n.fraction matches Some(f) ==> ascii_digits(f))
}

/// The text of a number.
pub open spec fn number_text(n: NumberText) -> Seq<char> {
    (if n.negative {
        seq!['-']
    } else {
        Seq::empty()
    }) + n.whole + match n.fraction {
        Some(f) => seq!['.'] + f,
        None => Seq::empty(),
    }
}

/// The minus sign of a number, when it has one.
pub open spec fn minus_of(n: NumberText) -> Option<Seq<char>> {
    if n.negative {
        Some(seq!['-'])
    } else {
        None
    }
}

/// How a range is laid out: the first number, spaces, `..`, spaces, the second number, and
/// optionally `#` and the step.
pub struct RangeLayout {
    pub from: NumberText,
    pub spaces_before: nat,
    pub spaces_after: nat,
    pub to: NumberText,
    pub step: Option<NumberText>,
}

/// `n` spaces.
pub open spec fn spaces(n: nat) -> Seq<char> {
    Seq::new(n, |i: int| ' ')
}

/// Whether the numbers of the range are written in digits.
pub open spec fn layout_ok(l: RangeLayout) -> bool {
    number_ok(l.from) && number_ok(l.to) && (l.step matches Some(c) ==> number_ok(c))
}

/// The text of a range laid out as `l`.
pub open spec fn layout_text(l: RangeLayout) -> Seq<char> {
    number_text(l.from) + spaces(l.spaces_before) + seq!['.', '.'] + spaces(l.spaces_after)
        + number_text(l.to) + match l.step {
        Some(c) => seq!['#'] + number_text(c),
        None => Seq::empty(),
    }
}

/// The groups that the range pattern captures in the text of a range laid out as `l`: the whole
/// text, the first number and its minus sign, the second number and its minus sign, `#` with the
/// step, and the step and its minus sign.
pub open spec fn layout_groups(l: RangeLayout) -> Seq<Option<Seq<char>>> {
    seq![
        Some(layout_text(l)),
        Some(number_text(l.from)),
        minus_of(l.from),
        Some(number_text(l.to)),
        minus_of(l.to),
        match l.step {
            Some(c) => Some(seq!['#'] + number_text(c)),
            None => None,
        },
        match l.step {
            Some(c) => Some(number_text(c)),
            None => None,
        },
        match l.step {
            Some(c) => minus_of(c),
            None => None,
        },
    ]
}

/// The range that a range laid out as `l` gives: its two numbers, and its step or `1`.
pub open spec fn layout_range(l: RangeLayout) -> (Seq<char>, Seq<char>, Seq<char>) {
    (
        number_text(l.from),
        number_text(l.to),
        match l.step {
            Some(c) => number_text(c),
            None => "1"@,
        },
    )
}

/// The range pattern as the regex crate is asked it, whose matches the regex crate documents.
spec fn documented_range_pattern() -> Seq<char> {
    "^((-)?\\d+(?:\\.\\d*)?)\\s*\\.\\.\\s*((-)?\\d+(?:\\.\\d*)?)(\\#((-)?\\d+(?:\\.\\d*)?))?$"@
}

/// `regex::Regex::new(pattern)`, then `Regex::captures(haystack)`, with the text of each group.
/// Of the one pattern the library asks, the range pattern, what the regex crate documents is
/// stated for texts written in ASCII digits and spaces: it matches such a range, and the groups
/// are its parts (`\\d` matches the ASCII digits and `\\s` the space; the text can be split
/// into a range in one way only, and the greedy groups take that way).
#[verifier::external_body]
fn captures_of(pattern: &str, haystack: &str) -> (r: Option<Vec<Option<String>>>)
    ensures
        match r {
            Some(v) => regex_captures(pattern@, haystack@) == Some(
                v@.map_values(|g: Option<String>| opt_view(g)),
            ),
            None => regex_captures(pattern@, haystack@) is None,
        },
        r matches Some(v) ==> forall|l: RangeLayout|
            pattern@ == documented_range_pattern() && layout_ok(l) && #[trigger] layout_text(l)
                == haystack@ ==> v@.map_values(|g: Option<String>| opt_view(g)) == layout_groups(l),
        r is None ==> forall|l: RangeLayout|
            !(pattern@ == documented_range_pattern() && layout_ok(l) && #[trigger] layout_text(l)
                == haystack@),
{
    let re = regex::Regex::new(pattern).ok()?;
    let caps = re.captures(haystack)?;
    Some(caps.iter().map(|g| g.map(|m| m.as_str().to_string())).collect())
}

/// The texts of the numbers of a range.
#[derive(Debug, PartialEq)]
pub struct RangeText {
    pub from: String,
    pub to: String,
    pub step: String,
}

/// The regular expression of a range: a number, `..` (with spaces around it or not), a number,
/// and optionally `#` and the step.
pub open spec fn range_pattern() -> Seq<char> {
    "^((-)?\\d+(?:\\.\\d*)?)\\s*\\.\\.\\s*((-)?\\d+(?:\\.\\d*)?)(\\#((-)?\\d+(?:\\.\\d*)?))?$"@
}

/// The range that the captured groups describe: the first and third group are the bounds, the
/// sixth the step, `1` when it is absent.
pub open spec fn range_of_captures(c: Option<Seq<Option<Seq<char>>>>) -> Option<
    (Seq<char>, Seq<char>, Seq<char>),
> {
    match c {
        Some(g) => if g.len() > 6 && g[1] is Some && g[3] is Some {
            Some(
                (
                    g[1]->Some_0,
                    g[3]->Some_0,
                    match g[6] {
                        Some(s) => s,
                        None => "1"@,
                    },
                ),
            )
        } else {
            None
        },
        None => None,
    }
}

/// The texts of a range as a triple.
pub open spec fn range_view(r: Option<RangeText>) -> Option<(Seq<char>, Seq<char>, Seq<char>)> {
    match r {
        Some(t) => Some((t.from@, t.to@, t.step@)),
        None => None,
    }
}

/// The range that the groups captured by the range pattern describe.
pub fn range_from_captures(c: Option<Vec<Option<String>>>) -> (r: Option<RangeText>)
    ensures
        range_view(r) == range_of_captures(
            match c {
                Some(v) => Some(v@.map_values(|g: Option<String>| opt_view(g))),
                None => None,
            },
        ),
{
    match c {
        None => None,
        Some(groups) => {
            if groups.len() <= 6 {
                return None;
            }
            let from = match &groups[1] {
                Some(s) => s.clone(),
                None => {
                    return None;
                },
            };
            let to = match &groups[3] {
                Some(s) => s.clone(),
                None => {
                    return None;
                },
            };
            let step = match &groups[6] {
                Some(s) => s.clone(),
                None => crate::text::owned("1"),
            };
            Some(RangeText { from, to, step })
        },
    }
}

/// Reads a range `from .. to#step`; the step is `1` when it is not given.
pub fn try_from_range(s: &str) -> (r: Option<RangeText>)
    ensures
        range_view(r) == range_of_captures(regex_captures(range_pattern(), s@)),
        forall|l: RangeLayout|
            layout_ok(l) && #[trigger] layout_text(l) == s@ ==> range_view(r) == Some(
                layout_range(l),
            ),
{
    let c = captures_of(
        "^((-)?\\d+(?:\\.\\d*)?)\\s*\\.\\.\\s*((-)?\\d+(?:\\.\\d*)?)(\\#((-)?\\d+(?:\\.\\d*)?))?$",
        s,
    );
    let r = range_from_captures(c);
    proof {
        assert forall|l: RangeLayout|
            layout_ok(l) && #[trigger] layout_text(l) == s@ implies range_view(r) == Some(
                layout_range(l),
            ) by {
            let g = layout_groups(l);
            assert(g.len() == 8);
            assert(g[1] == Some(number_text(l.from)));
            assert(g[3] == Some(number_text(l.to)));
        }
    }
    r
}

/// Whether the text is `random(` followed by a text and `)`.
pub open spec fn is_random_call(s: Seq<char>) -> bool {
    "random("@.is_prefix_of(s) && s.len() >= 8 && s.last() == ')'
}

/// Reads a random range `random(from .. to#step)`.
pub fn try_from_random_range(s: &str) -> (r: Option<RangeText>)
    ensures
        if is_random_call(s@) {
            range_view(r) == range_of_captures(
                regex_captures(range_pattern(), s@.subrange(7, s@.len() - 1)),
            )
        } else {
            r is None
        },
        forall|l: RangeLayout|
            layout_ok(l) && s@ == "random("@ + #[trigger] layout_text(l) + seq![')'] ==> range_view(r)
                == Some(layout_range(l)),
{
    let v = crate::text::chars_of(s);
    proof {
        reveal_strlit("random(");
    }
    if crate::text::starts_with(s, "random(") && v.len() >= 8 && v[v.len() - 1] == ')' {
        let mut inner: Vec<char> = Vec::new();
        let mut i: usize = 7;
        while i < v.len() - 1
            invariant
                7 <= i <= v@.len() - 1,
                v@.len() >= 8,
                inner@ == v@.subrange(7, i as int),
            decreases v@.len() - 1 - i,
        {
            inner.push(v[i]);
            assert(inner@ =~= v@.subrange(7, i + 1));
            i += 1;
        }
        let text = crate::text::string_of(&inner);
        let r = try_from_range(text.as_str());
        proof {
            assert forall|l: RangeLayout|
                layout_ok(l) && s@ == "random("@ + #[trigger] layout_text(l) + seq![')'] implies range_view(r)
                    == Some(layout_range(l)) by {
                assert(s@.subrange(7, s@.len() - 1) =~= layout_text(l));
            }
        }
        r
    } else {
        proof {
            if is_random_call(s@) {
                assert(v@.len() >= 8 && v@[v@.len() - 1] == ')');
            }
            assert forall|l: RangeLayout|
                layout_ok(l) && s@ == "random("@ + #[trigger] layout_text(l) + seq![')'] implies false by {
                assert(layout_text(l).len() >= 1);
                assert("random("@.is_prefix_of(s@)) by {
                    assert(s@.subrange(0, 7) =~= "random("@);
                }
                assert(s@.last() == ')');
            }
        }
        None
    }
}

} // verus!
