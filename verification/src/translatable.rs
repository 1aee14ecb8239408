//! Strings that can be given per locale, with placeholders filled in by other translations.
use crate::input_check::opt_view;
use crate::string_map::{lookup, StringMap};
use crate::text::{chars_of, extend_chars, owned, replace_all, replace_all_spec, same_text, string_of};
use vstd::prelude::*;

verus! {

/// A string given in the yaml, or read from a file: a content for all locales, and contents for
/// some locales.
#[derive(Debug, PartialEq)]
pub struct FileString {
    pub file_name: Option<String>,
    pub content: Option<String>,
    pub translated_content: StringMap<String>,
}

/// The content of a file string in a locale: the content for that locale, else the common one.
pub open spec fn file_content(fs: FileString, locale: Seq<char>) -> Option<Seq<char>> {
    match lookup(fs.translated_content.entries_spec(), locale) {
        Some(c) => Some(c@),
        None => opt_view(fs.content),
    }
}

impl FileString {
    /// The content in the given locale.
    pub fn get_content(&self, locale: &str) -> (r: Option<String>)
        ensures
            opt_view(r) == file_content(*self, locale@),
    {
        match self.translated_content.get(locale) {
            Some(c) => Some(owned(c.as_str())),
            None => match &self.content {
                Some(c) => Some(owned(c.as_str())),
                None => None,
            },
        }
    }

    /// A literal string, the same in every locale.
    pub fn s(content: &str) -> (r: Self)
        ensures
            r.file_name is None,
            opt_view(r.content) == Some(content@),
            r.translated_content.entries_spec().len() == 0,
    {
        FileString {
            file_name: None,
            content: Some(owned(content)),
            translated_content: StringMap::new(),
        }
    }
}

/// The text of a translation: one file string for all locales, or one per locale.
#[derive(Debug, PartialEq)]
pub enum TranslationContent {
    Locales(StringMap<FileString>),
    Content(FileString),
}

/// The file string that a translation content gives for a locale.
pub open spec fn content_for(c: TranslationContent, locale: Seq<char>) -> Option<FileString> {
    match c {
        TranslationContent::Content(fs) => Some(fs),
        TranslationContent::Locales(m) => lookup(m.entries_spec(), locale),
    }
}

impl TranslationContent {
    /// The file string for the given locale.
    pub fn get(&self, locale: &str) -> (r: Option<&FileString>)
        ensures
            match r {
                Some(fs) => content_for(*self, locale@) == Some(*fs),
                None => content_for(*self, locale@) is None,
            },
    {
        match self {
            TranslationContent::Content(c) => Some(c),
            TranslationContent::Locales(m) => m.get(locale),
        }
    }
}

/// A translatable text with placeholders: each `{name}` in the text is replaced by the text of the
/// translation stored under `name`.
#[derive(Debug, PartialEq)]
pub struct Translation {
    pub content: TranslationContent,
    pub placeholders: Vec<(String, Translation)>,
}

/// How a placeholder is written in a text: its name between braces.
pub open spec fn placeholder_key(name: Seq<char>) -> Seq<char> {
    seq!['{'] + name + seq!['}']
}

/// The rendering of a translation in a locale, with `fuel` rounds of substitution at most at each
/// level. The outer `None`: the fuel ran out; `Some(None)`: a text is missing in the locale.
pub open spec fn render(t: Translation, locale: Seq<char>, fuel: nat) -> Option<Option<Seq<char>>>
    decreases t, fuel, 3int, 0int,
{
    match content_for(t.content, locale) {
        None => Some(None),
        Some(fs) => match file_content(fs, locale) {
            None => Some(None),
            Some(p) => substitute(p, locale, t, fuel),
        },
    }
}

/// One round of substitution: the placeholders of `t` replaced in `text` one after the other,
/// then, if that changed the text, another round.
pub open spec fn substitute(text: Seq<char>, locale: Seq<char>, t: Translation, fuel: nat) -> Option<
    Option<Seq<char>>,
>
    decreases t, fuel, 2int, 0int,
{
    if fuel == 0 {
        None
    } else {
        match fill_from(text, false, locale, t, fuel, 0) {
            None => None,
            Some(None) => Some(None),
            Some(Some((r, changed))) => if changed {
                substitute(r, locale, t, (fuel - 1) as nat)
            } else {
                Some(Some(r))
            },
        }
    }
}

/// The placeholders of `t` from the `i`-th on, replaced in `text` in order; `changed` records
/// whether a replacement changed the text so far.
pub open spec fn fill_from(
    text: Seq<char>,
    changed: bool,
    locale: Seq<char>,
    t: Translation,
    fuel: nat,
    i: int,
) -> Option<Option<(Seq<char>, bool)>>
    decreases t, fuel, 1int, t.placeholders@.len() - i,
{
    if i < 0 || i >= t.placeholders@.len() {
        Some(Some((text, changed)))
    } else {
        let (name, child) = t.placeholders@[i];
        proof {
            assert(decreases_to!(t => t.placeholders));
            assert(decreases_to!(t.placeholders => t.placeholders@));
            assert(decreases_to!(t.placeholders@ => t.placeholders@[i]));
            assert(decreases_to!(t.placeholders@[i] => t.placeholders@[i].1));
        }
        match render(child, locale, fuel) {
            None => None,
            Some(None) => Some(None),
            Some(Some(v)) => {
                let next = replace_all_spec(text, placeholder_key(name@), v);
                fill_from(next, changed || next != text, locale, t, fuel, i + 1)
            },
        }
    }
}

/// Whether rendering the translation in the locale comes to an end.
pub open spec fn renders(t: Translation, locale: Seq<char>) -> bool {
    exists|fuel: nat| #[trigger] render(t, locale, fuel) is Some
}

/// The text of a translation in a locale, `None` when a text is missing in that locale.
pub open spec fn translation_text(t: Translation, locale: Seq<char>) -> Option<Seq<char>> {
    render(t, locale, choose|fuel: nat| #[trigger] render(t, locale, fuel) is Some)->Some_0
}

/// Rendering with one more round of fuel gives the same result, once the fuel suffices.
proof fn lemma_render_more(t: Translation, locale: Seq<char>, fuel: nat)
    requires
        render(t, locale, fuel) is Some,
    ensures
        render(t, locale, fuel + 1) == render(t, locale, fuel),
    decreases t, fuel, 3int, 0int,
{
    if let Some(fs) = content_for(t.content, locale) {
        if let Some(p) = file_content(fs, locale) {
            lemma_substitute_more(p, locale, t, fuel);
        }
    }
}

/// Substituting with one more round of fuel gives the same result, once the fuel suffices.
proof fn lemma_substitute_more(text: Seq<char>, locale: Seq<char>, t: Translation, fuel: nat)
    requires
        substitute(text, locale, t, fuel) is Some,
    ensures
        substitute(text, locale, t, fuel + 1) == substitute(text, locale, t, fuel),
    decreases t, fuel, 2int, 0int,
{
    lemma_fill_more(text, false, locale, t, fuel, 0);
    if let Some(Some((r, changed))) = fill_from(text, false, locale, t, fuel, 0) {
        if changed {
            lemma_substitute_more(r, locale, t, (fuel - 1) as nat);
        }
    }
}

/// Filling in the placeholders with one more round of fuel gives the same result, once the fuel
/// suffices.
proof fn lemma_fill_more(
    text: Seq<char>,
    changed: bool,
    locale: Seq<char>,
    t: Translation,
    fuel: nat,
    i: int,
)
    requires
        fill_from(text, changed, locale, t, fuel, i) is Some,
    ensures
        fill_from(text, changed, locale, t, fuel + 1, i) == fill_from(
            text,
            changed,
            locale,
            t,
            fuel,
            i,
        ),
    decreases t, fuel, 1int, t.placeholders@.len() - i,
{
    if 0 <= i < t.placeholders@.len() {
        let (name, child) = t.placeholders@[i];
        assert(decreases_to!(t => t.placeholders));
        assert(decreases_to!(t.placeholders => t.placeholders@));
        assert(decreases_to!(t.placeholders@ => t.placeholders@[i]));
        assert(decreases_to!(t.placeholders@[i] => t.placeholders@[i].1));
        lemma_render_more(child, locale, fuel);
        if let Some(Some(v)) = render(child, locale, fuel) {
            let next = replace_all_spec(text, placeholder_key(name@), v);
            lemma_fill_more(next, changed || next != text, locale, t, fuel, i + 1);
        }
    }
}

/// Once the fuel suffices, more fuel gives the same rendering.
proof fn lemma_render_fuel(t: Translation, locale: Seq<char>, f1: nat, f2: nat)
    requires
        render(t, locale, f1) is Some,
        f1 <= f2,
    ensures
        render(t, locale, f2) == render(t, locale, f1),
    decreases f2 - f1,
{
    if f1 < f2 {
        lemma_render_more(t, locale, f1);
        lemma_render_fuel(t, locale, f1 + 1, f2);
    }
}

/// The text of a translation is what rendering gives with any fuel that suffices.
pub proof fn lemma_render_gives_text(t: Translation, locale: Seq<char>, fuel: nat)
    requires
        render(t, locale, fuel) is Some,
    ensures
        renders(t, locale),
        translation_text(t, locale) == render(t, locale, fuel)->Some_0,
{
    let c = choose|f: nat| #[trigger] render(t, locale, f) is Some;
    assert(render(t, locale, c) is Some);
    if c <= fuel {
        lemma_render_fuel(t, locale, c, fuel);
    } else {
        lemma_render_fuel(t, locale, fuel, c);
    }
}

/// The number of opening braces in a text.
pub open spec fn opening_braces(s: Seq<char>) -> nat
    decreases s.len(),
{
    if s.len() == 0 {
        0
    } else {
        (if s[0] == '{' {
            1nat
        } else {
            0nat
        }) + opening_braces(s.subrange(1, s.len() as int))
    }
}

/// The opening braces of two texts put together are those of each.
proof fn lemma_braces_concat(a: Seq<char>, b: Seq<char>)
    ensures
        opening_braces(a + b) == opening_braces(a) + opening_braces(b),
    decreases a.len(),
{
    if a.len() > 0 {
        assert((a + b).subrange(1, (a + b).len() as int) =~= a.subrange(1, a.len() as int) + b);
        lemma_braces_concat(a.subrange(1, a.len() as int), b);
    } else {
        assert(a + b =~= b);
    }
}

/// Replacing a key that starts with `{` by a text without `{` never adds opening braces, and
/// removes at least one when it changes the text.
proof fn lemma_replace_braces(s: Seq<char>, pat: Seq<char>, rep: Seq<char>)
    requires
        pat.len() > 0,
        pat[0] == '{',
        !rep.contains('{'),
    ensures
        opening_braces(replace_all_spec(s, pat, rep)) <= opening_braces(s),
        replace_all_spec(s, pat, rep) != s ==> opening_braces(replace_all_spec(s, pat, rep))
            < opening_braces(s),
    decreases s.len(),
{
    lemma_no_braces(rep);
    if s.len() < pat.len() {
    } else if s.subrange(0, pat.len() as int) == pat {
        let rest = s.subrange(pat.len() as int, s.len() as int);
        lemma_replace_braces(rest, pat, rep);
        lemma_braces_concat(rep, replace_all_spec(rest, pat, rep));
        assert(s =~= pat + rest);
        lemma_braces_concat(pat, rest);
        assert(opening_braces(pat) >= 1);
    } else {
        let rest = s.subrange(1, s.len() as int);
        lemma_replace_braces(rest, pat, rep);
        lemma_braces_concat(seq![s[0]], replace_all_spec(rest, pat, rep));
        assert(s =~= seq![s[0]] + rest);
        lemma_braces_concat(seq![s[0]], rest);
        assert(seq![s[0]].subrange(1, 1) =~= Seq::<char>::empty());
        if replace_all_spec(s, pat, rep) != s {
            assert(replace_all_spec(rest, pat, rep) != rest);
        }
    }
}

/// A text without `{` has no opening braces.
proof fn lemma_no_braces(s: Seq<char>)
    requires
        !s.contains('{'),
    ensures
        opening_braces(s) == 0,
    decreases s.len(),
{
    if s.len() > 0 {
        assert(s[0] != '{');
        let rest = s.subrange(1, s.len() as int);
        assert forall|i: int| 0 <= i < rest.len() implies rest[i] != '{' by {
            assert(rest[i] == s[i + 1]);
        }
        lemma_no_braces(rest);
    }
}

/// A fuel with which the translation renders, where there is one.
pub open spec fn enough_fuel(t: Translation, locale: Seq<char>) -> nat {
    choose|fuel: nat| #[trigger] render(t, locale, fuel) is Some
}

/// The largest of the fuels with which the placeholders render.
pub open spec fn placeholder_fuel(ps: Seq<(String, Translation)>, locale: Seq<char>) -> nat
    decreases ps.len(),
{
    if ps.len() == 0 {
        0
    } else {
        let before = placeholder_fuel(ps.drop_last(), locale);
        let last = enough_fuel(ps.last().1, locale);
        if before >= last {
            before
        } else {
            last
        }
    }
}

/// The fuel of each placeholder is at most the largest.
proof fn lemma_placeholder_fuel(ps: Seq<(String, Translation)>, locale: Seq<char>, i: int)
    requires
        0 <= i < ps.len(),
    ensures
        enough_fuel(ps[i].1, locale) <= placeholder_fuel(ps, locale),
    decreases ps.len(),
{
    if i < ps.len() - 1 {
        lemma_placeholder_fuel(ps.drop_last(), locale, i);
        assert(ps.drop_last()[i] == ps[i]);
    }
}

/// Whether every placeholder of the translation renders in the locale, to a text without
/// opening braces when it has one.
pub open spec fn placeholders_render_brace_free(t: Translation, locale: Seq<char>) -> bool {
    forall|i: int|
        0 <= i < t.placeholders@.len() ==> renders(#[trigger] t.placeholders@[i].1, locale) && (
        translation_text(t.placeholders@[i].1, locale) matches Some(v) ==> !v.contains('{'))
}

/// Filling in placeholders whose renderings have no braces, with enough fuel for each of them,
/// comes to an end, never adds opening braces, and removes some when it changes the text.
proof fn lemma_fill_brace_free(
    start: Seq<char>,
    text: Seq<char>,
    changed: bool,
    locale: Seq<char>,
    t: Translation,
    fuel: nat,
    i: int,
)
    requires
        placeholders_render_brace_free(t, locale),
        fuel >= placeholder_fuel(t.placeholders@, locale),
        0 <= i,
        opening_braces(text) <= opening_braces(start),
        changed ==> opening_braces(text) < opening_braces(start),
    ensures
        fill_from(text, changed, locale, t, fuel, i) is Some,
        fill_from(text, changed, locale, t, fuel, i) matches Some(Some((r, c))) ==> (
        opening_braces(r) <= opening_braces(start) && (c ==> opening_braces(r) < opening_braces(
            start,
        ))),
    decreases t.placeholders@.len() - i,
{
    if i < t.placeholders@.len() {
        let (name, child) = t.placeholders@[i];
        assert(renders(t.placeholders@[i].1, locale));
        let f = enough_fuel(child, locale);
        assert(render(child, locale, f) is Some);
        lemma_placeholder_fuel(t.placeholders@, locale, i);
        lemma_render_fuel(child, locale, f, fuel);
        lemma_render_gives_text(child, locale, f);
        if let Some(Some(v)) = render(child, locale, fuel) {
            let key = placeholder_key(name@);
            let next = replace_all_spec(text, key, v);
            assert(key[0] == '{');
            lemma_replace_braces(text, key, v);
            lemma_fill_brace_free(start, next, changed || next != text, locale, t, fuel, i + 1);
        }
    }
}

/// Substituting placeholders whose renderings have no braces comes to an end with enough fuel:
/// that of the placeholders, and one round for each opening brace and one more.
proof fn lemma_substitute_brace_free(text: Seq<char>, locale: Seq<char>, t: Translation, fuel: nat)
    requires
        placeholders_render_brace_free(t, locale),
        fuel >= placeholder_fuel(t.placeholders@, locale) + opening_braces(text) + 1,
    ensures
        substitute(text, locale, t, fuel) is Some,
    decreases opening_braces(text),
{
    lemma_fill_brace_free(text, text, false, locale, t, fuel, 0);
    if let Some(Some((r, changed))) = fill_from(text, false, locale, t, fuel, 0) {
        if changed {
            lemma_substitute_brace_free(r, locale, t, (fuel - 1) as nat);
        }
    }
}

/// A translation whose placeholders all render, to texts without opening braces, renders: every
/// round of substitution that changes the text removes an opening brace and adds none. So
/// `to_string` can be called on it.
pub proof fn lemma_brace_free_renders(t: Translation, locale: Seq<char>)
    requires
        placeholders_render_brace_free(t, locale),
    ensures
        renders(t, locale),
{
    match content_for(t.content, locale) {
        None => {
            assert(render(t, locale, 0) is Some);
        },
        Some(fs) => match file_content(fs, locale) {
            None => {
                assert(render(t, locale, 0) is Some);
            },
            Some(p) => {
                let fuel = placeholder_fuel(t.placeholders@, locale) + opening_braces(p) + 1;
                lemma_substitute_brace_free(p, locale, t, fuel);
                assert(render(t, locale, fuel) is Some);
            },
        },
    }
}

/// `{name}` as a string.
fn key_of(name: &str) -> (r: String)
    ensures
        r@ == placeholder_key(name@),
{
    let mut v: Vec<char> = Vec::new();
    v.push('{');
    let n = chars_of(name);
    extend_chars(&mut v, &n);
    v.push('}');
    assert(v@ =~= placeholder_key(name@));
    string_of(&v)
}

/// Renders `t` in the locale with the given fuel, which suffices.
fn render_exec(t: &Translation, locale: &str, Ghost(fuel): Ghost<nat>) -> (r: Option<String>)
    requires
        render(*t, locale@, fuel) is Some,
    ensures
        opt_view(r) == render(*t, locale@, fuel)->Some_0,
    decreases *t, fuel, 3int, 0int,
{
    match t.content.get(locale) {
        None => None,
        Some(fs) => match fs.get_content(locale) {
            None => None,
            Some(p) => substitute_exec(p, locale, t, Ghost(fuel)),
        },
    }
}

/// Substitutes the placeholders of `t` in `text` with the given fuel, which suffices.
fn substitute_exec(text: String, locale: &str, t: &Translation, Ghost(fuel): Ghost<nat>) -> (r:
    Option<String>)
    requires
        substitute(text@, locale@, *t, fuel) is Some,
    ensures
        opt_view(r) == substitute(text@, locale@, *t, fuel)->Some_0,
    decreases *t, fuel, 2int, 0int,
{
    let ghost start = text@;
    let mut result = text;
    let mut changed = false;
    let mut i: usize = 0;
    while i < t.placeholders.len()
        invariant
            fuel > 0,
            start == text@,
            i <= t.placeholders@.len(),
            fill_from(start, false, locale@, *t, fuel, 0) == fill_from(
                result@,
                changed,
                locale@,
                *t,
                fuel,
                i as int,
            ),
            fill_from(start, false, locale@, *t, fuel, 0) is Some,
        decreases t.placeholders@.len() - i,
    {
        let name = &t.placeholders[i].0;
        let child = &t.placeholders[i].1;
        proof {
            assert(decreases_to!(*t => t.placeholders));
            assert(decreases_to!(t.placeholders => t.placeholders@));
            assert(decreases_to!(t.placeholders@ => t.placeholders@[i as int]));
            assert(decreases_to!(t.placeholders@[i as int] => t.placeholders@[i as int].1));
        }
        match render_exec(child, locale, Ghost(fuel)) {
            None => {
                assert(fill_from(result@, changed, locale@, *t, fuel, i as int) == Some(
                    None::<(Seq<char>, bool)>,
                ));
                assert(substitute(start, locale@, *t, fuel) == Some(None::<Seq<char>>));
                return None;
            },
            Some(v) => {
                let key = key_of(name.as_str());
                let next = replace_all(result.as_str(), key.as_str(), v.as_str());
                let same = same_text(result.as_str(), next.as_str());
                changed = changed || !same;
                result = next;
            },
        }
        i += 1;
    }
    if changed {
        substitute_exec(result, locale, t, Ghost((fuel - 1) as nat))
    } else {
        Some(result)
    }
}

/// Renders `t` in the locale with at most `fuel` rounds of substitution at each level; `None`
/// when that is not enough.
fn render_bounded(t: &Translation, locale: &str, fuel: u64) -> (r: Option<Option<String>>)
    ensures
        match render(*t, locale@, fuel as nat) {
            None => r is None,
            Some(x) => r matches Some(y) && opt_view(y) == x,
        },
    decreases *t, fuel, 3int, 0int,
{
    match t.content.get(locale) {
        None => Some(None),
        Some(fs) => match fs.get_content(locale) {
            None => Some(None),
            Some(p) => substitute_bounded(p, locale, t, fuel),
        },
    }
}

/// Substitutes the placeholders of `t` in `text` with at most `fuel` rounds at each level;
/// `None` when that is not enough.
fn substitute_bounded(text: String, locale: &str, t: &Translation, fuel: u64) -> (r: Option<
    Option<String>,
>)
    ensures
        match substitute(text@, locale@, *t, fuel as nat) {
            None => r is None,
            Some(x) => r matches Some(y) && opt_view(y) == x,
        },
    decreases *t, fuel, 2int, 0int,
{
    if fuel == 0 {
        return None;
    }
    let ghost start = text@;
    let mut result = text;
    let mut changed = false;
    let mut i: usize = 0;
    while i < t.placeholders.len()
        invariant
            fuel > 0,
            start == text@,
            i <= t.placeholders@.len(),
            fill_from(start, false, locale@, *t, fuel as nat, 0) == fill_from(
                result@,
                changed,
                locale@,
                *t,
                fuel as nat,
                i as int,
            ),
        decreases t.placeholders@.len() - i,
    {
        let name = &t.placeholders[i].0;
        let child = &t.placeholders[i].1;
        proof {
            assert(decreases_to!(*t => t.placeholders));
            assert(decreases_to!(t.placeholders => t.placeholders@));
            assert(decreases_to!(t.placeholders@ => t.placeholders@[i as int]));
            assert(decreases_to!(t.placeholders@[i as int] => t.placeholders@[i as int].1));
        }
        match render_bounded(child, locale, fuel) {
            None => {
                assert(fill_from(result@, changed, locale@, *t, fuel as nat, i as int) is None);
                return None;
            },
            Some(None) => {
                assert(fill_from(result@, changed, locale@, *t, fuel as nat, i as int) == Some(
                    None::<(Seq<char>, bool)>,
                ));
                return Some(None);
            },
            Some(Some(v)) => {
                let key = key_of(name.as_str());
                let next = replace_all(result.as_str(), key.as_str(), v.as_str());
                let same = same_text(result.as_str(), next.as_str());
                changed = changed || !same;
                result = next;
            },
        }
        i += 1;
    }
    if changed {
        substitute_bounded(result, locale, t, fuel - 1)
    } else {
        Some(Some(result))
    }
}

impl Translation {
    /// The text in the given locale, with all placeholders filled in; `None` when a text is
    /// missing in that locale. Its rendering must come to an end.
    pub fn to_string(&self, locale: &str) -> (r: Option<String>)
        requires
            renders(*self, locale@),
        ensures
            opt_view(r) == translation_text(*self, locale@),
    {
        let ghost fuel = choose|fuel: nat| #[trigger] render(*self, locale@, fuel) is Some;
        render_exec(self, locale, Ghost(fuel))
    }

    /// The text in the given locale, found with at most `rounds` rounds of substitution at each
    /// level: `None` when that is not enough; otherwise the text (`None` inside when a text is
    /// missing in that locale), and the rendering then comes to an end.
    pub fn to_string_within(&self, locale: &str, rounds: u64) -> (r: Option<Option<String>>)
        ensures
            r is None <==> render(*self, locale@, rounds as nat) is None,
            r matches Some(x) ==> opt_view(x) == render(*self, locale@, rounds as nat)->Some_0,
            r matches Some(x) ==> renders(*self, locale@) && opt_view(x) == translation_text(
                *self,
                locale@,
            ),
    {
        let r = render_bounded(self, locale, rounds);
        proof {
            if render(*self, locale@, rounds as nat) is Some {
                lemma_render_gives_text(*self, locale@, rounds as nat);
            }
        }
        r
    }
}

/// A string that is either translated, with placeholders, or the same file string everywhere.
#[derive(Debug, PartialEq)]
pub enum TranslatableString {
    Translated(Translation),
    NotTranslated(FileString),
}

/// A translatable JME expression.
pub type JMETranslatableString = TranslatableString;

/// A translatable text in which JME expressions stand between braces.
pub type EmbracedJMETranslatableString = TranslatableString;

/// A translatable content area: html with embedded JME expressions.
pub type ContentAreaTranslatableString = TranslatableString;

/// A JME expression given in the yaml or read from a file.
pub type JMEFileString = FileString;

/// Whether the text of a translatable string in a locale can be computed.
pub open spec fn translatable_renders(s: TranslatableString, locale: Seq<char>) -> bool {
    match s {
        TranslatableString::Translated(t) => renders(t, locale),
        TranslatableString::NotTranslated(_) => true,
    }
}

/// The text of a translatable string in a locale.
pub open spec fn translatable_text(s: TranslatableString, locale: Seq<char>) -> Option<Seq<char>> {
    match s {
        TranslatableString::Translated(t) => translation_text(t, locale),
        TranslatableString::NotTranslated(fs) => file_content(fs, locale),
    }
}

/// The text of a translatable string in a locale with at most `fuel` rounds of substitution at
/// each level; the outer `None`: that is not enough.
pub open spec fn translatable_render(s: TranslatableString, locale: Seq<char>, fuel: nat) -> Option<
    Option<Seq<char>>,
> {
    match s {
        TranslatableString::Translated(t) => render(t, locale, fuel),
        TranslatableString::NotTranslated(fs) => Some(file_content(fs, locale)),
    }
}

impl TranslatableString {
    /// The text in the given locale, found with at most `rounds` rounds of substitution at each
    /// level: `None` when that is not enough; otherwise the text (`None` inside when it is
    /// missing), and the text can then be computed.
    pub fn to_string_within(&self, locale: &str, rounds: u64) -> (r: Option<Option<String>>)
        ensures
            r is None <==> translatable_render(*self, locale@, rounds as nat) is None,
            r matches Some(x) ==> opt_view(x) == translatable_render(
                *self,
                locale@,
                rounds as nat,
            )->Some_0,
            r matches Some(x) ==> translatable_renders(*self, locale@) && opt_view(x)
                == translatable_text(*self, locale@),
    {
        match self {
            TranslatableString::NotTranslated(s) => Some(s.get_content(locale)),
            TranslatableString::Translated(t) => t.to_string_within(locale, rounds),
        }
    }

    /// The text in the given locale; `None` when it is missing.
    pub fn to_string(&self, locale: &str) -> (r: Option<String>)
        requires
            translatable_renders(*self, locale@),
        ensures
            opt_view(r) == translatable_text(*self, locale@),
    {
        match self {
            TranslatableString::NotTranslated(s) => s.get_content(locale),
            TranslatableString::Translated(t) => t.to_string(locale),
        }
    }
}

/// A translation without placeholders renders, in every locale, to the content of its file string
/// for that locale, unchanged; `None` when it has no text in that locale.
pub proof fn lemma_no_placeholders(t: Translation, locale: Seq<char>)
    requires
        t.placeholders@.len() == 0,
    ensures
        renders(t, locale),
        translation_text(t, locale) == match content_for(t.content, locale) {
            Some(fs) => file_content(fs, locale),
            None => None,
        },
{
    assert forall|fuel: nat| fuel > 0 implies #[trigger] render(t, locale, fuel) == Some(
        match content_for(t.content, locale) {
            Some(fs) => file_content(fs, locale),
            None => None,
        },
    ) by {
        if let Some(fs) = content_for(t.content, locale) {
            if let Some(p) = file_content(fs, locale) {
                assert(fill_from(p, false, locale, t, fuel, 0) == Some(Some((p, false))));
            }
        }
    }
    assert(render(t, locale, 1) is Some);
    let f = choose|fuel: nat| #[trigger] render(t, locale, fuel) is Some;
    if f == 0 {
        if let Some(fs) = content_for(t.content, locale) {
            if let Some(p) = file_content(fs, locale) {
                assert(substitute(p, locale, t, 0) is None);
            }
        }
    }
}

} // verus!
