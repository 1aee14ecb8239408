//! The updates of a repository from one version of rumbas to the next: which edits of its yaml
//! files each update makes, and to which files.
//!
//! A path in a yaml document is held as its parts, outermost first, each written in the path
//! syntax of yaml_subset (`parts[*]|type=jme`, `accuracy.answer_check`, `` for the document
//! itself); the whole path is the first part with each next part inserted at its end.
use crate::default::{
    lemma_question_kinds_by_name, question_kind_stem, DefaultFileTypeMethods,
    DefaultQuestionFileType,
};
use crate::path::{components_of, RumbasPath};
use crate::text::{chars_of, extend_chars, owned, string_of};
use crate::variable::ungrouped_group;
use vstd::prelude::*;

verus! {

/// The texts of a sequence of strings.
pub open spec fn texts(v: Seq<String>) -> Seq<Seq<char>> {
    v.map_values(|s: String| s@)
}

/// A value that an update inserts into a hash.
#[derive(Debug, PartialEq, Eq)]
pub enum InsertedValue {
    /// An empty inline list, `[]`.
    EmptyList,
    /// An empty inline hash, `{}`.
    EmptyHash,
    /// An unquoted string.
    Unquoted(String),
}

/// The view of an inserted value.
pub enum InsertedValueView {
    EmptyList,
    EmptyHash,
    Unquoted(Seq<char>),
}

impl View for InsertedValue {
    type V = InsertedValueView;

    open spec fn view(&self) -> InsertedValueView {
        match self {
            InsertedValue::EmptyList => InsertedValueView::EmptyList,
            InsertedValue::EmptyHash => InsertedValueView::EmptyHash,
            InsertedValue::Unquoted(s) => InsertedValueView::Unquoted(s@),
        }
    }
}

/// An edit of a yaml document, at a path.
#[derive(Debug, PartialEq, Eq)]
pub enum YamlChangeAction {
    /// Replaces the value at the path by a hash that holds it under the given key.
    ToObject(Vec<String>, String),
    /// Moves the named fields of the hash at the path into its subfield of the given name.
    MoveToSubfield(Vec<String>, String, Vec<String>),
    /// Removes the field at the path.
    RemoveFromHash(Vec<String>),
    /// Renames the field at the path.
    RenameField(Vec<String>, String),
    /// Inserts the value at the path; an existing value is replaced when the flag is set.
    InsertIntoHash(Vec<String>, InsertedValue, bool),
    /// Moves the entries of the field named by the first string of the hash at the path into a
    /// new field (named by the third string), grouped by the value of their field named by the
    /// second string; entries where that value is empty or one of the given strings stay.
    MoveToMapWithFieldAsKey(Vec<String>, String, String, String, Vec<String>),
}

/// The view of an edit: its path and strings as texts.
pub enum ActionView {
    ToObject(Seq<Seq<char>>, Seq<char>),
    MoveToSubfield(Seq<Seq<char>>, Seq<char>, Seq<Seq<char>>),
    RemoveFromHash(Seq<Seq<char>>),
    RenameField(Seq<Seq<char>>, Seq<char>),
    InsertIntoHash(Seq<Seq<char>>, InsertedValueView, bool),
    MoveToMapWithFieldAsKey(Seq<Seq<char>>, Seq<char>, Seq<char>, Seq<char>, Seq<Seq<char>>),
}

impl View for YamlChangeAction {
    type V = ActionView;

    open spec fn view(&self) -> ActionView {
        match self {
            YamlChangeAction::ToObject(p, k) => ActionView::ToObject(texts(p@), k@),
            YamlChangeAction::MoveToSubfield(p, f, fs) => ActionView::MoveToSubfield(
                texts(p@),
                f@,
                texts(fs@),
            ),
            YamlChangeAction::RemoveFromHash(p) => ActionView::RemoveFromHash(texts(p@)),
            YamlChangeAction::RenameField(p, n) => ActionView::RenameField(texts(p@), n@),
            YamlChangeAction::InsertIntoHash(p, v, o) => ActionView::InsertIntoHash(
                texts(p@),
                v@,
                *o,
            ),
            YamlChangeAction::MoveToMapWithFieldAsKey(p, a, b, c, ks) =>
                ActionView::MoveToMapWithFieldAsKey(texts(p@), a@, b@, c@, texts(ks@)),
        }
    }
}

/// The views of a sequence of edits.
pub open spec fn views(v: Seq<YamlChangeAction>) -> Seq<ActionView> {
    v.map_values(|a: YamlChangeAction| a@)
}

/// The path `path` taken within the value at the path part `begin`.
pub open spec fn within_path(begin: Seq<char>, path: Seq<Seq<char>>) -> Seq<Seq<char>> {
    seq![begin] + path
}

/// The edit `a` made within the value at the path part `begin`.
pub open spec fn within_spec(a: ActionView, begin: Seq<char>) -> ActionView {
    match a {
        ActionView::ToObject(p, k) => ActionView::ToObject(within_path(begin, p), k),
        ActionView::MoveToSubfield(p, f, fs) => ActionView::MoveToSubfield(
            within_path(begin, p),
            f,
            fs,
        ),
        ActionView::RemoveFromHash(p) => ActionView::RemoveFromHash(within_path(begin, p)),
        ActionView::RenameField(p, n) => ActionView::RenameField(within_path(begin, p), n),
        ActionView::InsertIntoHash(p, v, o) => ActionView::InsertIntoHash(
            within_path(begin, p),
            v,
            o,
        ),
        ActionView::MoveToMapWithFieldAsKey(p, a, b, c, ks) => ActionView::MoveToMapWithFieldAsKey(
            within_path(begin, p),
            a,
            b,
            c,
            ks,
        ),
    }
}

/// A copy of a list of strings.
fn copy_texts(v: &Vec<String>) -> (r: Vec<String>)
    ensures
        texts(r@) == texts(v@),
{
    let mut r: Vec<String> = Vec::new();
    let mut i: usize = 0;
    while i < v.len()
        invariant
            i <= v@.len(),
            r@.len() == i,
            forall|k: int| 0 <= k < i ==> (#[trigger] r@[k])@ == v@[k]@,
        decreases v@.len() - i,
    {
        let s = v[i].clone();
        r.push(s);
        i += 1;
    }
    assert(texts(r@) =~= texts(v@));
    r
}

/// Adds a copy of `s` at the end of `v`.
fn push_text(v: &mut Vec<String>, s: &str)
    ensures
        texts(final(v)@) == texts(old(v)@).push(s@),
{
    let t = owned(s);
    v.push(t);
    assert(texts(v@) =~= texts(old(v)@).push(s@));
}

/// The list that holds `s` alone.
fn one(s: &str) -> (r: Vec<String>)
    ensures
        texts(r@) == seq![s@],
{
    let mut r: Vec<String> = Vec::new();
    push_text(&mut r, s);
    assert(texts(r@) =~= seq![s@]);
    r
}

/// The text `a` followed by the text `b`.
fn concat(a: &str, b: &str) -> (r: String)
    ensures
        r@ == a@ + b@,
{
    let mut v = chars_of(a);
    let w = chars_of(b);
    extend_chars(&mut v, &w);
    string_of(&v)
}

impl InsertedValue {
    /// A copy of the value.
    pub fn copy(&self) -> (r: Self)
        ensures
            r@ == self@,
    {
        match self {
            InsertedValue::EmptyList => InsertedValue::EmptyList,
            InsertedValue::EmptyHash => InsertedValue::EmptyHash,
            InsertedValue::Unquoted(s) => InsertedValue::Unquoted(s.clone()),
        }
    }
}

/// The path part `begin` followed by the parts of `path`.
fn prefixed(begin: String, path: &Vec<String>) -> (r: Vec<String>)
    ensures
        texts(r@) == within_path(begin@, texts(path@)),
{
    let mut r: Vec<String> = Vec::new();
    r.push(begin);
    let mut rest = copy_texts(path);
    r.append(&mut rest);
    assert(texts(r@) =~= within_path(begin@, texts(path@)));
    r
}

impl YamlChangeAction {
    /// A copy of the edit.
    pub fn copy(&self) -> (r: Self)
        ensures
            r@ == self@,
    {
        match self {
            YamlChangeAction::ToObject(p, k) => YamlChangeAction::ToObject(copy_texts(p), k.clone()),
            YamlChangeAction::MoveToSubfield(p, f, fs) => YamlChangeAction::MoveToSubfield(
                copy_texts(p),
                f.clone(),
                copy_texts(fs),
            ),
            YamlChangeAction::RemoveFromHash(p) => YamlChangeAction::RemoveFromHash(copy_texts(p)),
            YamlChangeAction::RenameField(p, n) => YamlChangeAction::RenameField(
                copy_texts(p),
                n.clone(),
            ),
            YamlChangeAction::InsertIntoHash(p, v, o) => YamlChangeAction::InsertIntoHash(
                copy_texts(p),
                v.copy(),
                *o,
            ),
            YamlChangeAction::MoveToMapWithFieldAsKey(p, a, b, c, ks) =>
                YamlChangeAction::MoveToMapWithFieldAsKey(
                copy_texts(p),
                a.clone(),
                b.clone(),
                c.clone(),
                copy_texts(ks),
            ),
        }
    }

    /// The same edit, made within the value at the path part `begin`.
    pub fn within(self, begin: String) -> (r: Self)
        ensures
            r@ == within_spec(self@, begin@),
    {
        match self {
            YamlChangeAction::ToObject(p, k) => YamlChangeAction::ToObject(prefixed(begin, &p), k),
            YamlChangeAction::MoveToSubfield(p, f, fs) => YamlChangeAction::MoveToSubfield(
                prefixed(begin, &p),
                f,
                fs,
            ),
            YamlChangeAction::RemoveFromHash(p) => YamlChangeAction::RemoveFromHash(
                prefixed(begin, &p),
            ),
            YamlChangeAction::RenameField(p, n) => YamlChangeAction::RenameField(
                prefixed(begin, &p),
                n,
            ),
            YamlChangeAction::InsertIntoHash(p, v, o) => YamlChangeAction::InsertIntoHash(
                prefixed(begin, &p),
                v,
                o,
            ),
            YamlChangeAction::MoveToMapWithFieldAsKey(p, a, b, c, ks) =>
                YamlChangeAction::MoveToMapWithFieldAsKey(prefixed(begin, &p), a, b, c, ks),
        }
    }
}

/// Each edit of `actions`, in order, made within each of the path parts `prefixes`, in order.
pub open spec fn within_each(actions: Seq<ActionView>, prefixes: Seq<Seq<char>>) -> Seq<ActionView>
    decreases actions.len(),
{
    if actions.len() == 0 {
        seq![]
    } else {
        within_each(actions.drop_last(), prefixes) + prefixes.map_values(
            |p: Seq<char>| within_spec(actions.last(), p),
        )
    }
}

/// Each edit of `actions`, in order, made within each of the path parts `prefixes`, in order.
pub fn within_all(actions: &Vec<YamlChangeAction>, prefixes: &Vec<String>) -> (r: Vec<
    YamlChangeAction,
>)
    ensures
        views(r@) == within_each(views(actions@), texts(prefixes@)),
{
    let ghost ps = texts(prefixes@);
    let mut r: Vec<YamlChangeAction> = Vec::new();
    let mut i: usize = 0;
    while i < actions.len()
        invariant
            i <= actions@.len(),
            ps == texts(prefixes@),
            views(r@) == within_each(views(actions@).take(i as int), ps),
        decreases actions@.len() - i,
    {
        let ghost before = views(r@);
        let ghost a = actions@[i as int]@;
        let mut j: usize = 0;
        while j < prefixes.len()
            invariant
                i < actions@.len(),
                j <= prefixes@.len(),
                ps == texts(prefixes@),
                a == actions@[i as int]@,
                views(r@) == before + ps.take(j as int).map_values(
                    |p: Seq<char>| within_spec(a, p),
                ),
            decreases prefixes@.len() - j,
        {
            let e = actions[i].copy().within(prefixes[j].clone());
            let ghost mid = r@;
            r.push(e);
            assert(views(r@) =~= views(mid).push(e@));
            assert(ps.take(j + 1).map_values(|p: Seq<char>| within_spec(a, p)) =~= ps.take(
                j as int,
            ).map_values(|p: Seq<char>| within_spec(a, p)).push(within_spec(a, ps[j as int])));
            j += 1;
        }
        assert(ps.take(prefixes@.len() as int) =~= ps);
        assert(views(actions@).take(i + 1).drop_last() =~= views(actions@).take(i as int));
        i += 1;
    }
    assert(views(actions@).take(actions@.len() as int) =~= views(actions@));
    r
}

/// The edits of the update from 0.7.1 to 0.8.0 to each exam: `picking_strategy` of each question
/// group becomes a hash that holds the old value as `type`, and `pick_questions` moves into it.
pub open spec fn exam_actions_spec() -> Seq<ActionView> {
    seq![
        ActionView::ToObject(seq!["question_groups[*].picking_strategy"@], "type"@),
        ActionView::MoveToSubfield(
            seq!["question_groups[*]"@],
            "picking_strategy"@,
            seq!["pick_questions"@],
        ),
    ]
}

/// The edits of the update from 0.7.1 to 0.8.0 to each exam.
pub fn exam_actions() -> (r: Vec<YamlChangeAction>)
    ensures
        views(r@) == exam_actions_spec(),
{
    let mut r: Vec<YamlChangeAction> = Vec::new();
    r.push(
        YamlChangeAction::ToObject(one("question_groups[*].picking_strategy"), owned("type")),
    );
    r.push(
        YamlChangeAction::MoveToSubfield(
            one("question_groups[*]"),
            owned("picking_strategy"),
            one("pick_questions"),
        ),
    );
    assert(views(r@) =~= exam_actions_spec());
    r
}

/// The edits of the update from 0.7.1 to 0.8.0 to each question part, whatever its type: the
/// minimum marks and the custom name flag go, `custom_name` becomes `part_name`, the custom
/// marking fields move into `custom_marking` and the adaptive marking fields into
/// `adaptive_marking`, which gets an empty list of variable replacements.
pub open spec fn part_actions_spec() -> Seq<ActionView> {
    seq![
        ActionView::RemoveFromHash(seq!["minimum_marks"@]),
        ActionView::RemoveFromHash(seq!["enable_minimum_marks"@]),
        ActionView::RemoveFromHash(seq!["use_custom_name"@]),
        ActionView::RenameField(seq!["custom_name"@], "part_name"@),
        ActionView::RenameField(seq!["custom_name"@], "part_name"@),
        ActionView::MoveToSubfield(
            seq![""@],
            "custom_marking"@,
            seq!["custom_marking_algorithm_notes"@, "extend_base_marking_algorithm"@],
        ),
        ActionView::RenameField(
            seq!["custom_marking.custom_marking_algorithm_notes"@],
            "algorithm_notes"@,
        ),
        ActionView::MoveToSubfield(
            seq![""@],
            "adaptive_marking"@,
            seq!["variable_replacement_strategy"@, "adaptive_marking_penalty"@],
        ),
        ActionView::RenameField(seq!["adaptive_marking.adaptive_marking_penalty"@], "penalty"@),
        ActionView::InsertIntoHash(
            seq!["adaptive_marking.variable_replacements"@],
            InsertedValueView::EmptyList,
            false,
        ),
    ]
}

/// The two texts `a` and `b`.
fn two(a: &str, b: &str) -> (r: Vec<String>)
    ensures
        texts(r@) == seq![a@, b@],
{
    let mut r = one(a);
    push_text(&mut r, b);
    assert(texts(r@) =~= seq![a@, b@]);
    r
}

/// The edits of the update from 0.7.1 to 0.8.0 to each question part, whatever its type.
pub fn part_actions() -> (r: Vec<YamlChangeAction>)
    ensures
        views(r@) == part_actions_spec(),
{
    let mut r: Vec<YamlChangeAction> = Vec::new();
    r.push(YamlChangeAction::RemoveFromHash(one("minimum_marks")));
    r.push(YamlChangeAction::RemoveFromHash(one("enable_minimum_marks")));
    r.push(YamlChangeAction::RemoveFromHash(one("use_custom_name")));
    r.push(YamlChangeAction::RenameField(one("custom_name"), owned("part_name")));
    r.push(YamlChangeAction::RenameField(one("custom_name"), owned("part_name")));
    r.push(
        YamlChangeAction::MoveToSubfield(
            one(""),
            owned("custom_marking"),
            two("custom_marking_algorithm_notes", "extend_base_marking_algorithm"),
        ),
    );
    r.push(
        YamlChangeAction::RenameField(
            one("custom_marking.custom_marking_algorithm_notes"),
            owned("algorithm_notes"),
        ),
    );
    r.push(
        YamlChangeAction::MoveToSubfield(
            one(""),
            owned("adaptive_marking"),
            two("variable_replacement_strategy", "adaptive_marking_penalty"),
        ),
    );
    r.push(
        YamlChangeAction::RenameField(
            one("adaptive_marking.adaptive_marking_penalty"),
            owned("penalty"),
        ),
    );
    r.push(
        YamlChangeAction::InsertIntoHash(
            one("adaptive_marking.variable_replacements"),
            InsertedValue::EmptyList,
            false,
        ),
    );
    assert(views(r@) =~= part_actions_spec());
    r
}

/// The types of question parts, in the order in which the update from 0.7.1 to 0.8.0 handles
/// them.
#[derive(Debug, Clone, Copy, PartialEq, Eq, Structural)]
pub enum PartType {
    JME,
    GapFill,
    ChooseOne,
    ChooseMultiple,
    MatchAnswers,
    Matrix,
    NumberEntry,
    PatternMatch,
    Information,
    Extension,
}

/// The name of a part type, as its `type` field holds it.
pub open spec fn part_type_name(t: PartType) -> Seq<char> {
    match t {
        PartType::JME => "jme"@,
        PartType::GapFill => "gapfill"@,
        PartType::ChooseOne => "choose_one"@,
        PartType::ChooseMultiple => "choose_multiple"@,
        PartType::MatchAnswers => "match_answers"@,
        PartType::Matrix => "matrix"@,
        PartType::NumberEntry => "number_entry"@,
        PartType::PatternMatch => "pattern_match"@,
        PartType::Information => "information"@,
        PartType::Extension => "extension"@,
    }
}

impl PartType {
    /// The name of the part type, as its `type` field holds it.
    pub fn name(&self) -> (r: &'static str)
        ensures
            r@ == part_type_name(*self),
    {
        match self {
            PartType::JME => "jme",
            PartType::GapFill => "gapfill",
            PartType::ChooseOne => "choose_one",
            PartType::ChooseMultiple => "choose_multiple",
            PartType::MatchAnswers => "match_answers",
            PartType::Matrix => "matrix",
            PartType::NumberEntry => "number_entry",
            PartType::PatternMatch => "pattern_match",
            PartType::Information => "information",
            PartType::Extension => "extension",
        }
    }
}

/// The edits of the update from 0.7.1 to 0.8.0 to the question parts of one type, besides those
/// of every part: the accuracy fields of JME parts move into `accuracy` under new names; number
/// entry parts rename `hint_fraction` and pattern match parts `partial_credit`.
pub open spec fn part_type_actions_spec(t: PartType) -> Seq<ActionView> {
    match t {
        PartType::JME => seq![
            ActionView::MoveToSubfield(
                seq![""@],
                "accuracy"@,
                seq!["answer_check"@, "failure_rate"@, "vset_range"@, "vset_range_points"@],
            ),
            ActionView::RenameField(seq!["accuracy.answer_check"@], "checking_type"@),
            ActionView::RenameField(seq!["accuracy.failure_rate"@], "max_failures"@),
            ActionView::RenameField(seq!["accuracy.vset_range"@], "checking_range"@),
            ActionView::RenameField(seq!["accuracy.vset_range_points"@], "points_to_check"@),
        ],
        PartType::NumberEntry => seq![
            ActionView::RenameField(seq!["hint_fraction"@], "fractions_must_be_reduced_hint"@),
        ],
        PartType::PatternMatch => seq![
            ActionView::RenameField(seq!["partial_credit"@], "wrong_case_partial_credit"@),
        ],
        _ => seq![],
    }
}

/// The edits of the update from 0.7.1 to 0.8.0 to the question parts of type `t`, besides those
/// of every part.
pub fn part_type_actions(t: PartType) -> (r: Vec<YamlChangeAction>)
    ensures
        views(r@) == part_type_actions_spec(t),
{
    let mut r: Vec<YamlChangeAction> = Vec::new();
    match t {
        PartType::JME => {
            let mut fields = two("answer_check", "failure_rate");
            push_text(&mut fields, "vset_range");
            push_text(&mut fields, "vset_range_points");
            assert(texts(fields@) =~= seq![
                "answer_check"@,
                "failure_rate"@,
                "vset_range"@,
                "vset_range_points"@,
            ]);
            r.push(YamlChangeAction::MoveToSubfield(one(""), owned("accuracy"), fields));
            r.push(
                YamlChangeAction::RenameField(one("accuracy.answer_check"), owned("checking_type")),
            );
            r.push(
                YamlChangeAction::RenameField(one("accuracy.failure_rate"), owned("max_failures")),
            );
            r.push(
                YamlChangeAction::RenameField(one("accuracy.vset_range"), owned("checking_range")),
            );
            r.push(
                YamlChangeAction::RenameField(
                    one("accuracy.vset_range_points"),
                    owned("points_to_check"),
                ),
            );
            assert(views(r@) =~= part_type_actions_spec(t));
        },
        PartType::NumberEntry => {
            r.push(
                YamlChangeAction::RenameField(
                    one("hint_fraction"),
                    owned("fractions_must_be_reduced_hint"),
                ),
            );
            assert(views(r@) =~= part_type_actions_spec(t));
        },
        PartType::PatternMatch => {
            r.push(
                YamlChangeAction::RenameField(
                    one("partial_credit"),
                    owned("wrong_case_partial_credit"),
                ),
            );
            assert(views(r@) =~= part_type_actions_spec(t));
        },
        _ => {
            assert(views(r@) =~= part_type_actions_spec(t));
        },
    }
    r
}

/// The path parts at which a question holds its parts: its parts, the gaps of its gap fill
/// parts, and the steps of its parts.
pub open spec fn part_prefixes_spec() -> Seq<Seq<char>> {
    seq!["parts[*]"@, "parts[*]|type=gapfill.gaps[*]"@, "parts[*].steps[*]"@]
}

/// The path parts at which a question holds its parts of type `t`: gap fill parts among its
/// parts; parts of another type among its parts, among the gaps of its gap fill parts and among
/// the steps of its parts.
pub open spec fn part_type_prefixes_spec(t: PartType) -> Seq<Seq<char>> {
    if t == PartType::GapFill {
        seq!["parts[*]|type=gapfill"@]
    } else {
        seq![
            "parts[*]|type="@ + part_type_name(t),
            "parts[*]|type=gapfill.gaps[*]|type="@ + part_type_name(t),
            "parts[*].steps[*]|type="@ + part_type_name(t),
        ]
    }
}

/// The path parts at which a question holds its parts.
pub fn part_prefixes() -> (r: Vec<String>)
    ensures
        texts(r@) == part_prefixes_spec(),
{
    let mut r = two("parts[*]", "parts[*]|type=gapfill.gaps[*]");
    push_text(&mut r, "parts[*].steps[*]");
    assert(texts(r@) =~= part_prefixes_spec());
    r
}

/// The path parts at which a question holds its parts of type `t`.
pub fn part_type_prefixes(t: PartType) -> (r: Vec<String>)
    ensures
        texts(r@) == part_type_prefixes_spec(t),
{
    let mut r: Vec<String> = Vec::new();
    if t == PartType::GapFill {
        push_text(&mut r, "parts[*]|type=gapfill");
    } else {
        let name = t.name();
        r.push(concat("parts[*]|type=", name));
        r.push(concat("parts[*]|type=gapfill.gaps[*]|type=", name));
        r.push(concat("parts[*].steps[*]|type=", name));
    }
    assert(texts(r@) =~= part_type_prefixes_spec(t));
    r
}

/// The part types in the order in which the update from 0.7.1 to 0.8.0 handles them.
pub open spec fn all_part_types() -> Seq<PartType> {
    seq![
        PartType::JME,
        PartType::GapFill,
        PartType::ChooseOne,
        PartType::ChooseMultiple,
        PartType::MatchAnswers,
        PartType::Matrix,
        PartType::NumberEntry,
        PartType::PatternMatch,
        PartType::Information,
        PartType::Extension,
    ]
}

/// For each part type of `types` in order, its own edits made within the places of a question
/// that hold parts of that type.
pub open spec fn typed_actions(types: Seq<PartType>) -> Seq<ActionView>
    decreases types.len(),
{
    if types.len() == 0 {
        seq![]
    } else {
        typed_actions(types.drop_last()) + within_each(
            part_type_actions_spec(types.last()),
            part_type_prefixes_spec(types.last()),
        )
    }
}

/// The edit that moves the variables of a question into `grouped_variables`, grouped by their
/// `group`; variables without a group or in the group of ungrouped variables stay.
pub open spec fn grouping_action_spec() -> ActionView {
    ActionView::MoveToMapWithFieldAsKey(
        seq![""@],
        "variables"@,
        "group"@,
        "grouped_variables"@,
        seq![""@, ungrouped_group()],
    )
}

/// The edits of the update from 0.7.1 to 0.8.0 to each question: the grouping of its variables,
/// then the edits of every part made within each place that holds parts, then the edits of each
/// part type made within each place that holds parts of that type.
pub open spec fn question_actions_spec() -> Seq<ActionView> {
    seq![grouping_action_spec()] + within_each(part_actions_spec(), part_prefixes_spec())
        + typed_actions(all_part_types())
}

/// The edits of the update from 0.7.1 to 0.8.0 to each question.
pub fn question_actions() -> (r: Vec<YamlChangeAction>)
    ensures
        views(r@) == question_actions_spec(),
{
    let mut r: Vec<YamlChangeAction> = Vec::new();
    let mut keys = one("");
    push_text(&mut keys, "Ungrouped variables");
    assert(texts(keys@) =~= seq![""@, ungrouped_group()]);
    r.push(
        YamlChangeAction::MoveToMapWithFieldAsKey(
            one(""),
            owned("variables"),
            owned("group"),
            owned("grouped_variables"),
            keys,
        ),
    );
    let ghost first = views(r@);
    let mut general = within_all(&part_actions(), &part_prefixes());
    let ghost general_views = views(general@);
    r.append(&mut general);
    assert(views(r@) =~= first + general_views);
    let types = vec![
        PartType::JME,
        PartType::GapFill,
        PartType::ChooseOne,
        PartType::ChooseMultiple,
        PartType::MatchAnswers,
        PartType::Matrix,
        PartType::NumberEntry,
        PartType::PatternMatch,
        PartType::Information,
        PartType::Extension,
    ];
    assert(types@ =~= all_part_types());
    assert(types@.take(0) =~= Seq::<PartType>::empty());
    let ghost start = first + general_views;
    let mut k: usize = 0;
    while k < types.len()
        invariant
            k <= types@.len(),
            types@ == all_part_types(),
            start == seq![grouping_action_spec()] + within_each(
                part_actions_spec(),
                part_prefixes_spec(),
            ),
            views(r@) == start + typed_actions(types@.take(k as int)),
        decreases types@.len() - k,
    {
        let t = types[k];
        let mut more = within_all(&part_type_actions(t), &part_type_prefixes(t));
        let ghost mid = views(r@);
        let ghost added = views(more@);
        r.append(&mut more);
        assert(views(r@) =~= mid + added);
        assert(types@.take(k + 1).drop_last() =~= types@.take(k as int));
        assert(typed_actions(types@.take(k + 1)) == typed_actions(types@.take(k as int)) + added);
        assert(views(r@) =~= start + typed_actions(types@.take(k + 1)));
        k += 1;
    }
    assert(types@.take(types@.len() as int) =~= types@);
    r
}

/// The part type of the question parts that a default file of kind `t` describes; `None` for
/// the default question file.
pub open spec fn default_part_type(t: DefaultQuestionFileType) -> Option<PartType> {
    match t {
        DefaultQuestionFileType::Question => None,
        DefaultQuestionFileType::QuestionPartJME => Some(PartType::JME),
        DefaultQuestionFileType::QuestionPartGapFillGapJME => Some(PartType::JME),
        DefaultQuestionFileType::QuestionPartGapFill => Some(PartType::GapFill),
        DefaultQuestionFileType::QuestionPartChooseOne => Some(PartType::ChooseOne),
        DefaultQuestionFileType::QuestionPartGapFillGapChooseOne => Some(PartType::ChooseOne),
        DefaultQuestionFileType::QuestionPartChooseMultiple => Some(PartType::ChooseMultiple),
        DefaultQuestionFileType::QuestionPartGapFillGapChooseMultiple => Some(
            PartType::ChooseMultiple,
        ),
        DefaultQuestionFileType::QuestionPartMatchAnswersWithItems => Some(PartType::MatchAnswers),
        DefaultQuestionFileType::QuestionPartGapFillGapMatchAnswersWithItems => Some(
            PartType::MatchAnswers,
        ),
        DefaultQuestionFileType::QuestionPartNumberEntry => Some(PartType::NumberEntry),
        DefaultQuestionFileType::QuestionPartGapFillGapNumberEntry => Some(PartType::NumberEntry),
        DefaultQuestionFileType::QuestionPartPatternMatch => Some(PartType::PatternMatch),
        DefaultQuestionFileType::QuestionPartGapFillGapPatternMatch => Some(PartType::PatternMatch),
        DefaultQuestionFileType::QuestionPartInformation => Some(PartType::Information),
        DefaultQuestionFileType::QuestionPartGapFillGapInformation => Some(PartType::Information),
        DefaultQuestionFileType::QuestionPartExtension => Some(PartType::Extension),
        DefaultQuestionFileType::QuestionPartGapFillGapExtension => Some(PartType::Extension),
    }
}

/// The part type of the question parts that a default file of kind `t` describes; `None` for
/// the default question file.
pub fn part_type_of_default(t: &DefaultQuestionFileType) -> (r: Option<PartType>)
    ensures
        r == default_part_type(*t),
{
    match t {
        DefaultQuestionFileType::Question => None,
        DefaultQuestionFileType::QuestionPartJME => Some(PartType::JME),
        DefaultQuestionFileType::QuestionPartGapFillGapJME => Some(PartType::JME),
        DefaultQuestionFileType::QuestionPartGapFill => Some(PartType::GapFill),
        DefaultQuestionFileType::QuestionPartChooseOne => Some(PartType::ChooseOne),
        DefaultQuestionFileType::QuestionPartGapFillGapChooseOne => Some(PartType::ChooseOne),
        DefaultQuestionFileType::QuestionPartChooseMultiple => Some(PartType::ChooseMultiple),
        DefaultQuestionFileType::QuestionPartGapFillGapChooseMultiple => Some(
            PartType::ChooseMultiple,
        ),
        DefaultQuestionFileType::QuestionPartMatchAnswersWithItems => Some(PartType::MatchAnswers),
        DefaultQuestionFileType::QuestionPartGapFillGapMatchAnswersWithItems => Some(
            PartType::MatchAnswers,
        ),
        DefaultQuestionFileType::QuestionPartNumberEntry => Some(PartType::NumberEntry),
        DefaultQuestionFileType::QuestionPartGapFillGapNumberEntry => Some(PartType::NumberEntry),
        DefaultQuestionFileType::QuestionPartPatternMatch => Some(PartType::PatternMatch),
        DefaultQuestionFileType::QuestionPartGapFillGapPatternMatch => Some(PartType::PatternMatch),
        DefaultQuestionFileType::QuestionPartInformation => Some(PartType::Information),
        DefaultQuestionFileType::QuestionPartGapFillGapInformation => Some(PartType::Information),
        DefaultQuestionFileType::QuestionPartExtension => Some(PartType::Extension),
        DefaultQuestionFileType::QuestionPartGapFillGapExtension => Some(PartType::Extension),
    }
}

/// The edit that sets `grouped_variables` of the main default question file to `none`, unless
/// it is set.
pub open spec fn grouped_variables_default_spec() -> ActionView {
    ActionView::InsertIntoHash(
        seq!["grouped_variables"@],
        InsertedValueView::Unquoted("none"@),
        false,
    )
}

/// The edits of the update from 0.7.1 to 0.8.0 to a default file of kind `t`: a default part
/// file gets the edits of every part and those of its part type; the default question file gets
/// those of a question, after the grouped variables are set to `none` where it is the main one
/// (in the main `defaults` folder).
pub open spec fn default_file_actions_spec(t: DefaultQuestionFileType, main: bool) -> Seq<
    ActionView,
> {
    match default_part_type(t) {
        Some(p) => part_actions_spec() + part_type_actions_spec(p),
        None => (if main {
            seq![grouped_variables_default_spec()]
        } else {
            seq![]
        }) + question_actions_spec(),
    }
}

/// The edits of the update from 0.7.1 to 0.8.0 to the default file of kind `t` at `path`.
pub fn default_file_actions(t: &DefaultQuestionFileType, path: &RumbasPath) -> (r: Vec<
    YamlChangeAction,
>)
    ensures
        views(r@) == default_file_actions_spec(
            *t,
            components_of("defaults"@).is_prefix_of(path@.1),
        ),
{
    match part_type_of_default(t) {
        Some(p) => {
            let mut r = part_actions();
            let ghost first = views(r@);
            let mut more = part_type_actions(p);
            let ghost second = views(more@);
            r.append(&mut more);
            assert(views(r@) =~= first + second);
            r
        },
        None => {
            let mut r: Vec<YamlChangeAction> = Vec::new();
            if path.in_main_folder("defaults") {
                r.push(
                    YamlChangeAction::InsertIntoHash(
                        one("grouped_variables"),
                        InsertedValue::Unquoted(owned("none")),
                        false,
                    ),
                );
            }
            let ghost first = views(r@);
            let mut more = question_actions();
            let ghost second = views(more@);
            r.append(&mut more);
            assert(views(r@) =~= first + second);
            r
        },
    }
}

/// The edits of the update from 0.5 to 0.6.3 to a default file of kind `t` at a path whose part
/// within the repository is `project`: the main default question file (in the folder written
/// `./defaults`) gets an empty hash of rulesets, unless it has one; other files are left as
/// they are.
pub open spec fn zero_five_actions_spec(t: DefaultQuestionFileType, project: Seq<Seq<char>>) -> Seq<
    ActionView,
> {
    if t == DefaultQuestionFileType::Question && components_of("./defaults"@).is_prefix_of(project) {
        seq![
            ActionView::InsertIntoHash(seq!["rulesets"@], InsertedValueView::EmptyHash, false),
        ]
    } else {
        seq![]
    }
}

/// The edits of the update from 0.5 to 0.6.3 to the default file of kind `t` at `path`.
pub fn zero_five_actions(t: &DefaultQuestionFileType, path: &RumbasPath) -> (r: Vec<
    YamlChangeAction,
>)
    ensures
        views(r@) == zero_five_actions_spec(*t, path@.1),
{
    let mut r: Vec<YamlChangeAction> = Vec::new();
    let is_question = match t {
        DefaultQuestionFileType::Question => true,
        _ => false,
    };
    if is_question && path.in_main_folder("./defaults") {
        r.push(
            YamlChangeAction::InsertIntoHash(one("rulesets"), InsertedValue::EmptyHash, false),
        );
    }
    assert(views(r@) =~= zero_five_actions_spec(*t, path@.1));
    r
}

/// The part type that a default question part file describes is the one its name names: the
/// file of part type `p` is named `questionpart.<p>` or `questionpart.gapfill.gap.<p>` (the
/// defaults of gaps), where `<p>` is the name of `p` as the `type` field of a part holds it; the
/// default question file, named `question`, describes no part type.
pub proof fn lemma_default_part_type_by_name(stem: Seq<char>, t: DefaultQuestionFileType)
    requires
        <DefaultQuestionFileType as DefaultFileTypeMethods>::named(stem) == Some(t),
    ensures
        match default_part_type(t) {
            Some(p) => stem == "questionpart."@ + part_type_name(p) || stem
                == "questionpart.gapfill.gap."@ + part_type_name(p),
            None => stem == "question"@,
        },
{
    lemma_question_kinds_by_name(stem, t);
    assert(stem == question_kind_stem(t));
    match t {
        DefaultQuestionFileType::Question => {},
        DefaultQuestionFileType::QuestionPartJME => {
            reveal_strlit("questionpart.");
            reveal_strlit("jme");
            reveal_strlit("questionpart.jme");
            assert("questionpart.jme"@ =~= "questionpart."@ + "jme"@);
        },
        DefaultQuestionFileType::QuestionPartGapFill => {
            reveal_strlit("questionpart.");
            reveal_strlit("gapfill");
            reveal_strlit("questionpart.gapfill");
            assert("questionpart.gapfill"@ =~= "questionpart."@ + "gapfill"@);
        },
        DefaultQuestionFileType::QuestionPartChooseOne => {
            reveal_strlit("questionpart.");
            reveal_strlit("choose_one");
            reveal_strlit("questionpart.choose_one");
            assert("questionpart.choose_one"@ =~= "questionpart."@ + "choose_one"@);
        },
        DefaultQuestionFileType::QuestionPartChooseMultiple => {
            reveal_strlit("questionpart.");
            reveal_strlit("choose_multiple");
            reveal_strlit("questionpart.choose_multiple");
            assert("questionpart.choose_multiple"@ =~= "questionpart."@ + "choose_multiple"@);
        },
        DefaultQuestionFileType::QuestionPartMatchAnswersWithItems => {
            reveal_strlit("questionpart.");
            reveal_strlit("match_answers");
            reveal_strlit("questionpart.match_answers");
            assert("questionpart.match_answers"@ =~= "questionpart."@ + "match_answers"@);
        },
        DefaultQuestionFileType::QuestionPartNumberEntry => {
            reveal_strlit("questionpart.");
            reveal_strlit("number_entry");
            reveal_strlit("questionpart.number_entry");
            assert("questionpart.number_entry"@ =~= "questionpart."@ + "number_entry"@);
        },
        DefaultQuestionFileType::QuestionPartPatternMatch => {
            reveal_strlit("questionpart.");
            reveal_strlit("pattern_match");
            reveal_strlit("questionpart.pattern_match");
            assert("questionpart.pattern_match"@ =~= "questionpart."@ + "pattern_match"@);
        },
        DefaultQuestionFileType::QuestionPartInformation => {
            reveal_strlit("questionpart.");
            reveal_strlit("information");
            reveal_strlit("questionpart.information");
            assert("questionpart.information"@ =~= "questionpart."@ + "information"@);
        },
        DefaultQuestionFileType::QuestionPartExtension => {
            reveal_strlit("questionpart.");
            reveal_strlit("extension");
            reveal_strlit("questionpart.extension");
            assert("questionpart.extension"@ =~= "questionpart."@ + "extension"@);
        },
        DefaultQuestionFileType::QuestionPartGapFillGapJME => {
            reveal_strlit("questionpart.gapfill.gap.");
            reveal_strlit("jme");
            reveal_strlit("questionpart.gapfill.gap.jme");
            assert("questionpart.gapfill.gap.jme"@ =~= "questionpart.gapfill.gap."@ + "jme"@);
        },
        DefaultQuestionFileType::QuestionPartGapFillGapChooseOne => {
            reveal_strlit("questionpart.gapfill.gap.");
            reveal_strlit("choose_one");
            reveal_strlit("questionpart.gapfill.gap.choose_one");
            assert("questionpart.gapfill.gap.choose_one"@ =~= "questionpart.gapfill.gap."@ + "choose_one"@);
        },
        DefaultQuestionFileType::QuestionPartGapFillGapChooseMultiple => {
            reveal_strlit("questionpart.gapfill.gap.");
            reveal_strlit("choose_multiple");
            reveal_strlit("questionpart.gapfill.gap.choose_multiple");
            assert("questionpart.gapfill.gap.choose_multiple"@ =~= "questionpart.gapfill.gap."@ + "choose_multiple"@);
        },
        DefaultQuestionFileType::QuestionPartGapFillGapMatchAnswersWithItems => {
            reveal_strlit("questionpart.gapfill.gap.");
            reveal_strlit("match_answers");
            reveal_strlit("questionpart.gapfill.gap.match_answers");
            assert("questionpart.gapfill.gap.match_answers"@ =~= "questionpart.gapfill.gap."@ + "match_answers"@);
        },
        DefaultQuestionFileType::QuestionPartGapFillGapNumberEntry => {
            reveal_strlit("questionpart.gapfill.gap.");
            reveal_strlit("number_entry");
            reveal_strlit("questionpart.gapfill.gap.number_entry");
            assert("questionpart.gapfill.gap.number_entry"@ =~= "questionpart.gapfill.gap."@ + "number_entry"@);
        },
        DefaultQuestionFileType::QuestionPartGapFillGapPatternMatch => {
            reveal_strlit("questionpart.gapfill.gap.");
            reveal_strlit("pattern_match");
            reveal_strlit("questionpart.gapfill.gap.pattern_match");
            assert("questionpart.gapfill.gap.pattern_match"@ =~= "questionpart.gapfill.gap."@ + "pattern_match"@);
        },
        DefaultQuestionFileType::QuestionPartGapFillGapInformation => {
            reveal_strlit("questionpart.gapfill.gap.");
            reveal_strlit("information");
            reveal_strlit("questionpart.gapfill.gap.information");
            assert("questionpart.gapfill.gap.information"@ =~= "questionpart.gapfill.gap."@ + "information"@);
        },
        DefaultQuestionFileType::QuestionPartGapFillGapExtension => {
            reveal_strlit("questionpart.gapfill.gap.");
            reveal_strlit("extension");
            reveal_strlit("questionpart.gapfill.gap.extension");
            assert("questionpart.gapfill.gap.extension"@ =~= "questionpart.gapfill.gap."@ + "extension"@);
        },
    }
}

} // verus!
