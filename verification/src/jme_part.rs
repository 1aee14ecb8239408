//! The notes of custom marking algorithms and the settings of mathematical expression parts.
use crate::noneable::Noneable;
use crate::text::{join, join_spec, owned};
use crate::translatable::{
    translatable_render, translatable_renders, translatable_text, FileString, JMEFileString,
    JMETranslatableString,
};
use vstd::prelude::*;

verus! {

/// A note of a marking algorithm: its name, an optional description and its JME expression.
#[derive(Debug)]
pub struct JMENote {
    pub name: String,
    pub description: Noneable<String>,
    pub expression: JMETranslatableString,
}

/// The notes of a marking algorithm.
#[derive(Debug)]
pub struct JMENotes(pub Vec<JMENote>);

/// Whether the expression of a note has a text in the locale.
pub open spec fn note_renders(n: JMENote, locale: Seq<char>) -> bool {
    translatable_renders(n.expression, locale) && translatable_text(n.expression, locale) is Some
}

/// A note as Numbas writes it: `name(description):expression`, without the part in brackets when
/// there is no description.
pub open spec fn note_text(n: JMENote, locale: Seq<char>) -> Seq<char> {
    n.name@ + match n.description {
        Noneable::NotNone(d) => seq!['('] + d@ + seq![')'],
        Noneable::NoneValue => Seq::empty(),
    } + seq![':'] + translatable_text(n.expression, locale)->Some_0
}

impl JMENote {
    /// The note as Numbas writes it.
    pub fn note_text(&self, locale: &str) -> (r: String)
        requires
            note_renders(*self, locale@),
        ensures
            r@ == note_text(*self, locale@),
    {
        let mut r = owned(self.name.as_str());
        match &self.description {
            Noneable::NotNone(d) => {
                crate::text::push_char(&mut r, '(');
                r.append(d.as_str());
                crate::text::push_char(&mut r, ')');
            },
            Noneable::NoneValue => {},
        }
        crate::text::push_char(&mut r, ':');
        let e = match self.expression.to_string(locale) {
            Some(e) => e,
            None => String::new(),
        };
        r.append(e.as_str());
        let ghost n = *self;
        assert(r@ =~= note_text(n, locale@));
        r
    }
}

impl JMENote {
    /// The note as Numbas writes it, with its expression found with at most `rounds` rounds of
    /// substitution at each level; `None` when that is not enough or the expression has no text
    /// in the locale.
    pub fn note_text_within(&self, locale: &str, rounds: u64) -> (r: Option<String>)
        ensures
            r is Some <==> translatable_render(self.expression, locale@, rounds as nat) matches Some(
                Some(_),
            ),
            r matches Some(t) ==> note_renders(*self, locale@) && t@ == note_text(*self, locale@),
    {
        match self.expression.to_string_within(locale, rounds) {
            Some(Some(_)) => Some(self.note_text(locale)),
            _ => None,
        }
    }
}

impl JMENotes {
    /// The notes as Numbas writes them: each note, with a blank line between two notes. Every
    /// expression must have a text in the locale.
    pub fn notes_text(&self, locale: &str) -> (r: String)
        requires
            forall|i: int| 0 <= i < self.0@.len() ==> note_renders(#[trigger] self.0@[i], locale@),
        ensures
            r@ == join_spec(self.0@.map_values(|n: JMENote| note_text(n, locale@)), "\n\n"@),
    {
        let mut texts: Vec<String> = Vec::new();
        let mut i: usize = 0;
        while i < self.0.len()
            invariant
                i <= self.0@.len(),
                forall|k: int| 0 <= k < self.0@.len() ==> note_renders(#[trigger] self.0@[k], locale@),
                texts@.map_values(|p: String| p@) == self.0@.take(i as int).map_values(
                    |n: JMENote| note_text(n, locale@),
                ),
            decreases self.0@.len() - i,
        {
            let t = self.0[i].note_text(locale);
            let ghost before = texts@;
            let ghost tv = t@;
            assert(tv == note_text(self.0@[i as int], locale@));
            texts.push(t);
            assert(texts@.map_values(|p: String| p@) =~= before.map_values(|p: String| p@).push(tv));
            assert(self.0@.take(i + 1) =~= self.0@.take(i as int).push(self.0@[i as int]));
            assert(texts@.map_values(|p: String| p@) =~= self.0@.take(i + 1).map_values(
                |n: JMENote| note_text(n, locale@),
            ));
            i += 1;
        }
        assert(self.0@.take(self.0@.len() as int) =~= self.0@);
        join(&texts, "\n\n")
    }
}

/// A custom marking algorithm.
#[derive(Debug)]
pub struct CustomMarking {
    /// The notes of the marking algorithm
    pub algorithm_notes: JMENotes,
    /// Whether the notes of the standard marking algorithm stay available
    pub extend_base_marking_algorithm: bool,
}

/// A value that is generated for a variable when answers are compared.
#[derive(Debug)]
pub struct JMEValueGenerator {
    /// The name of the variable
    pub name: FileString,
    /// The expression to generate the value
    pub value: JMEFileString,
}

/// The simplification rules that are applied to expressions.
#[derive(Debug, PartialEq, Eq, Structural)]
pub struct JMEAnswerSimplification {
    pub simplify_basic: bool,
    pub cancel_unit_factors: bool,
    pub cancel_unit_powers: bool,
    pub cancel_unit_denominators: bool,
    pub cancel_zero_factors: bool,
    pub omit_zero_terms: bool,
    pub cancel_zero_powers: bool,
    pub cancel_powers_with_base_zero: bool,
    pub collect_numbers: bool,
    pub constants_first: bool,
    pub collect_sqrt_products: bool,
    pub collect_sqrt_divisions: bool,
    pub cancel_sqrt_square: bool,
    pub evaluate_powers_of_numbers: bool,
    pub rewrite_to_no_leading_minus: bool,
    pub simplify_fractions: bool,
    pub simplify_trigonometric: bool,
    pub collect_terms: bool,
    pub collect_powers_of_common_factors: bool,
    pub collect_like_fractions: bool,
    pub order_canonical: bool,
    pub expand_brackets: bool,
}

/// What every rule is when it is not set: all rules apply except for putting the terms in a
/// canonical order and expanding brackets.
pub open spec fn default_simplification() -> JMEAnswerSimplification {
    JMEAnswerSimplification {
        simplify_basic: true,
        cancel_unit_factors: true,
        cancel_unit_powers: true,
        cancel_unit_denominators: true,
        cancel_zero_factors: true,
        omit_zero_terms: true,
        cancel_zero_powers: true,
        cancel_powers_with_base_zero: true,
        collect_numbers: true,
        constants_first: true,
        collect_sqrt_products: true,
        collect_sqrt_divisions: true,
        cancel_sqrt_square: true,
        evaluate_powers_of_numbers: true,
        rewrite_to_no_leading_minus: true,
        simplify_fractions: true,
        simplify_trigonometric: true,
        collect_terms: true,
        collect_powers_of_common_factors: true,
        collect_like_fractions: true,
        order_canonical: false,
        expand_brackets: false,
    }
}

impl Default for JMEAnswerSimplification {
    fn default() -> (r: Self)
        ensures
            r == default_simplification(),
    {
        JMEAnswerSimplification {
            simplify_basic: true,
            cancel_unit_factors: true,
            cancel_unit_powers: true,
            cancel_unit_denominators: true,
            cancel_zero_factors: true,
            omit_zero_terms: true,
            cancel_zero_powers: true,
            cancel_powers_with_base_zero: true,
            collect_numbers: true,
            constants_first: true,
            collect_sqrt_products: true,
            collect_sqrt_divisions: true,
            cancel_sqrt_square: true,
            evaluate_powers_of_numbers: true,
            rewrite_to_no_leading_minus: true,
            simplify_fractions: true,
            simplify_trigonometric: true,
            collect_terms: true,
            collect_powers_of_common_factors: true,
            collect_like_fractions: true,
            order_canonical: false,
            expand_brackets: false,
        }
    }
}

/// How expressions are displayed.
#[derive(Debug, PartialEq, Eq, Structural)]
pub struct JMEAnswerDisplay {
    pub broken_as_fractions: bool,
    pub mixed_fractions: bool,
    pub flat_fractions: bool,
    pub vector_as_row: bool,
    pub always_show_multiplication_sign: bool,
    pub use_dot_as_multiplication_sign: bool,
    pub matrices_without_parentheses: bool,
}

/// A ruleset: simplification rules or display options.
#[derive(Debug, PartialEq, Eq, Structural)]
pub enum JMERulesetItem {
    Simplification(JMEAnswerSimplification),
    Display(JMEAnswerDisplay),
}

} // verus!
