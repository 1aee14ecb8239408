//! Yaml documents of a repository, as yaml_subset reads, edits and writes them: the edits of an
//! update made on the text of a file, and the rule that an update writes its files only when
//! every one of them could be read.
//!
//! A document is known by the text it was read from and the edits made in it since, in order; a
//! path by its parts. What yaml_subset writes of such a document, and how many places an edit
//! changes, are named by `yaml_edited_text` and `yaml_edit_count`.
use crate::updates::{texts, views, ActionView, InsertedValue, YamlChangeAction};
use crate::yaml_text::{path_text_is_safe, path_text_safe, yaml_text_is_safe, yaml_text_safe};
use vstd::prelude::*;
use yaml_subset::yaml::{AliasedYaml, Document, Yaml, YamlInsert};
use yaml_subset::YamlPath;

verus! {

/// A yaml document as yaml_subset holds it.
#[verifier::external_type_specification]
#[verifier::external_body]
pub struct ExDocument(Document);

/// A path in a yaml document as yaml_subset holds it.
#[verifier::external_type_specification]
#[verifier::external_body]
pub struct ExYamlPath(YamlPath);

/// Whether yaml_subset reads the text as a yaml document (for a text it reads without failing,
/// see `yaml_text_safe`).
pub uninterp spec fn yaml_parses(content: Seq<char>) -> bool;

/// Whether yaml_subset reads the text as a path (for a text it reads without failing, see
/// `path_text_safe`).
pub uninterp spec fn yaml_path_parses(part: Seq<char>) -> bool;

/// The text that yaml_subset writes of the document it reads from `source`, after the edits
/// `edits` are made in it in order.
pub uninterp spec fn yaml_edited_text(source: Seq<char>, edits: Seq<ActionView>) -> Seq<char>;

/// The number of places that yaml_subset changes when it makes `edit` in the document it reads
/// from `source`, after the edits `done`.
pub uninterp spec fn yaml_edit_count(
    source: Seq<char>,
    done: Seq<ActionView>,
    edit: ActionView,
) -> usize;

/// A yaml document, with the text it was read from and the edits made in it since.
pub struct YamlDocument {
    doc: Document,
    source: Ghost<Seq<char>>,
    edits: Ghost<Seq<ActionView>>,
}

impl View for YamlDocument {
    /// The text the document was read from, and the edits made in it since, in order.
    type V = (Seq<char>, Seq<ActionView>);

    closed spec fn view(&self) -> (Seq<char>, Seq<ActionView>) {
        (self.source@, self.edits@)
    }
}

/// A path in a yaml document, with the parts it was built from.
pub struct PathParts {
    path: YamlPath,
    parts: Ghost<Seq<Seq<char>>>,
}

impl View for PathParts {
    /// The parts of the path: the first, with each next one inserted at its end.
    type V = Seq<Seq<char>>;

    closed spec fn view(&self) -> Seq<Seq<char>> {
        self.parts@
    }
}

/// `yaml_subset::yaml::parse_yaml_file`: the document written in `content`; `None` when it is
/// not one. The parser fails on some texts; `yaml_text_safe` leaves them out.
#[verifier::external_body]
fn parse_document(content: &str) -> (r: Option<YamlDocument>)
    requires
        yaml_text_safe(content@),
    ensures
        r is Some <==> yaml_parses(content@),
        r matches Some(d) ==> d@ == (content@, Seq::<ActionView>::empty()),
{
    match yaml_subset::yaml::parse_yaml_file(content) {
        Ok(doc) => Some(YamlDocument { doc, source: Ghost(content@), edits: Ghost(Seq::empty()) }),
        Err(_) => None,
    }
}

/// `Document::format`: the text of the document. It only writes into a `String`, which does not
/// fail.
#[verifier::external_body]
fn format_document(doc: &YamlDocument) -> (r: String)
    ensures
        r@ == yaml_edited_text(doc@.0, doc@.1),
{
    doc.doc.format().unwrap_or_default()
}

/// `str::parse::<YamlPath>`: the path written in `part`; `None` when it is not one. The parser
/// fails on an index too large for `usize`; `path_text_safe` leaves such texts out.
#[verifier::external_body]
fn parse_path_part(part: &str) -> (r: Option<PathParts>)
    requires
        path_text_safe(part@),
    ensures
        r is Some <==> yaml_path_parses(part@),
        r matches Some(p) ==> p@ == seq![part@],
{
    match part.parse::<YamlPath>() {
        Ok(path) => Some(PathParts { path, parts: Ghost(seq![part@]) }),
        Err(_) => None,
    }
}

/// `YamlPath::insert`: puts `inner` at the end of `path`.
#[verifier::external_body]
fn insert_path(path: &mut PathParts, inner: PathParts)
    ensures
        final(path)@ == old(path)@ + inner@,
{
    path.path.insert(inner.path)
}

/// `YamlInsert::to_object` on a document.
#[verifier::external_body]
fn doc_to_object(doc: &mut YamlDocument, path: &PathParts, key: String) -> (n: usize)
    ensures
        final(doc)@ == (old(doc)@.0, old(doc)@.1.push(ActionView::ToObject(path@, key@))),
        n == yaml_edit_count(old(doc)@.0, old(doc)@.1, ActionView::ToObject(path@, key@)),
{
    doc.doc.to_object(&path.path, key)
}

/// `YamlInsert::move_to_subfield` on a document; it reads the subfield and each field moved as a
/// path, and fails on one that is not.
#[verifier::external_body]
fn doc_move_to_subfield(
    doc: &mut YamlDocument,
    path: &PathParts,
    subfield: String,
    fields: Vec<String>,
) -> (n: usize)
    requires
        path_part_ok(subfield@),
        forall|i: int| 0 <= i < fields@.len() ==> path_part_ok(#[trigger] fields@[i]@),
    ensures
        final(doc)@ == (old(doc)@.0, old(doc)@.1.push(
            ActionView::MoveToSubfield(path@, subfield@, texts(fields@)),
        )),
        n == yaml_edit_count(
            old(doc)@.0,
            old(doc)@.1,
            ActionView::MoveToSubfield(path@, subfield@, texts(fields@)),
        ),
{
    doc.doc.move_to_subfield(&path.path, subfield, fields)
}

/// `YamlInsert::remove_from_hash` on a document.
#[verifier::external_body]
fn doc_remove_from_hash(doc: &mut YamlDocument, path: &PathParts) -> (n: usize)
    ensures
        final(doc)@ == (old(doc)@.0, old(doc)@.1.push(ActionView::RemoveFromHash(path@))),
        n == yaml_edit_count(old(doc)@.0, old(doc)@.1, ActionView::RemoveFromHash(path@)),
{
    doc.doc.remove_from_hash(&path.path)
}

/// `YamlInsert::rename_field` on a document.
#[verifier::external_body]
fn doc_rename_field(doc: &mut YamlDocument, path: &PathParts, name: String) -> (n: usize)
    ensures
        final(doc)@ == (old(doc)@.0, old(doc)@.1.push(ActionView::RenameField(path@, name@))),
        n == yaml_edit_count(old(doc)@.0, old(doc)@.1, ActionView::RenameField(path@, name@)),
{
    doc.doc.rename_field(&path.path, name)
}

/// `YamlInsert::insert_into_hash` on a document, with the value as yaml_subset writes it: an
/// empty inline list, an empty inline hash, or an unquoted string.
#[verifier::external_body]
fn doc_insert_into_hash(
    doc: &mut YamlDocument,
    path: &PathParts,
    value: &InsertedValue,
    overwrite: bool,
) -> (n: usize)
    ensures
        final(doc)@ == (old(doc)@.0, old(doc)@.1.push(
            ActionView::InsertIntoHash(path@, value@, overwrite),
        )),
        n == yaml_edit_count(
            old(doc)@.0,
            old(doc)@.1,
            ActionView::InsertIntoHash(path@, value@, overwrite),
        ),
{
    let value = match value {
        InsertedValue::EmptyList => Yaml::InlineArray(Vec::new()),
        InsertedValue::EmptyHash => Yaml::InlineHash(Vec::new()),
        InsertedValue::Unquoted(s) => Yaml::UnquotedString(s.clone()),
    };
    doc.doc.insert_into_hash(&path.path, &AliasedYaml { alias: None, value }, overwrite)
}

/// `YamlInsert::move_to_map_with_field_as_key` on a document; it reads the three names as paths,
/// and fails on one that is not.
#[verifier::external_body]
fn doc_move_to_map_with_field_as_key(
    doc: &mut YamlDocument,
    path: &PathParts,
    old_map: String,
    selector: String,
    new_map: String,
    keeps: Vec<String>,
) -> (n: usize)
    requires
        path_part_ok(old_map@),
        path_part_ok(selector@),
        path_part_ok(new_map@),
    ensures
        final(doc)@ == (old(doc)@.0, old(doc)@.1.push(
            ActionView::MoveToMapWithFieldAsKey(path@, old_map@, selector@, new_map@, texts(keeps@)),
        )),
        n == yaml_edit_count(
            old(doc)@.0,
            old(doc)@.1,
            ActionView::MoveToMapWithFieldAsKey(path@, old_map@, selector@, new_map@, texts(keeps@)),
        ),
{
    doc.doc.move_to_map_with_field_as_key(&path.path, old_map, selector, new_map, keeps)
}

/// Whether yaml_subset reads the text as a path, without failing.
pub open spec fn path_part_ok(part: Seq<char>) -> bool {
    path_text_safe(part) && yaml_path_parses(part)
}

/// Whether every part of the path is read as a path.
pub open spec fn path_parses(parts: Seq<Seq<char>>) -> bool {
    forall|i: int| 0 <= i < parts.len() ==> path_part_ok(#[trigger] parts[i])
}

/// Whether the text is read as a path, without failing.
fn part_ok(part: &str) -> (r: bool)
    ensures
        r == path_part_ok(part@),
{
    path_text_is_safe(part) && parse_path_part(part).is_some()
}

/// The yaml_subset path of the parts of a path: the first part with each next one inserted at
/// its end; `None` when there are no parts or one of them is not a path.
pub fn yaml_path(parts: &Vec<String>) -> (r: Option<PathParts>)
    ensures
        r is Some <==> parts@.len() > 0 && path_parses(texts(parts@)),
        r matches Some(p) ==> p@ == texts(parts@),
{
    if parts.len() == 0 {
        return None;
    }
    if !path_text_is_safe(parts[0].as_str()) {
        assert(!path_part_ok(texts(parts@)[0]));
        return None;
    }
    let mut path = match parse_path_part(parts[0].as_str()) {
        Some(p) => p,
        None => {
            assert(!path_part_ok(texts(parts@)[0]));
            return None;
        },
    };
    let mut i: usize = 1;
    while i < parts.len()
        invariant
            1 <= i <= parts@.len(),
            forall|j: int| 0 <= j < i ==> path_part_ok(#[trigger] texts(parts@)[j]),
            path@ == texts(parts@).take(i as int),
        decreases parts@.len() - i,
    {
        if !path_text_is_safe(parts[i].as_str()) {
            assert(!path_part_ok(texts(parts@)[i as int]));
            return None;
        }
        match parse_path_part(parts[i].as_str()) {
            Some(p) => {
                let ghost before = path@;
                insert_path(&mut path, p);
                assert(texts(parts@).take(i + 1) =~= before + seq![texts(parts@)[i as int]]);
            },
            None => {
                assert(!path_part_ok(texts(parts@)[i as int]));
                return None;
            },
        }
        i += 1;
    }
    assert(texts(parts@).take(parts@.len() as int) =~= texts(parts@));
    Some(path)
}

/// Whether every one of the names is read as a path.
pub open spec fn names_parse(names: Seq<Seq<char>>) -> bool {
    forall|i: int| 0 <= i < names.len() ==> path_part_ok(#[trigger] names[i])
}

/// Whether the edit can be made: its path has parts that are all paths, and the names that the
/// edit reads as paths are paths.
pub open spec fn action_applies(a: ActionView) -> bool {
    match a {
        ActionView::ToObject(p, _) => p.len() > 0 && path_parses(p),
        ActionView::MoveToSubfield(p, f, fs) => p.len() > 0 && path_parses(p) && path_part_ok(f)
            && names_parse(fs),
        ActionView::RemoveFromHash(p) => p.len() > 0 && path_parses(p),
        ActionView::RenameField(p, _) => p.len() > 0 && path_parses(p),
        ActionView::InsertIntoHash(p, _, _) => p.len() > 0 && path_parses(p),
        ActionView::MoveToMapWithFieldAsKey(p, a, b, c, _) => p.len() > 0 && path_parses(p)
            && path_part_ok(a) && path_part_ok(b) && path_part_ok(c),
    }
}

/// Whether each of the texts is read as a path.
fn all_parse(names: &Vec<String>) -> (r: bool)
    ensures
        r == names_parse(texts(names@)),
{
    let mut i: usize = 0;
    while i < names.len()
        invariant
            i <= names@.len(),
            forall|j: int| 0 <= j < i ==> path_part_ok(#[trigger] texts(names@)[j]),
        decreases names@.len() - i,
    {
        if !part_ok(names[i].as_str()) {
            assert(!path_part_ok(texts(names@)[i as int]));
            return false;
        }
        i += 1;
    }
    true
}

/// A copy of a list of texts.
fn copy_names(v: &Vec<String>) -> (r: Vec<String>)
    ensures
        texts(r@) == texts(v@),
{
    let mut r: Vec<String> = Vec::new();
    let mut i: usize = 0;
    while i < v.len()
        invariant
            i <= v@.len(),
            r@.len() == i,
            forall|k: int| 0 <= k < i ==> (#[trigger] r@[k])@ == v@[k]@,
        decreases v@.len() - i,
    {
        r.push(v[i].clone());
        i += 1;
    }
    assert(texts(r@) =~= texts(v@));
    r
}

/// Makes the edit in the document and gives the number of places it changed; an edit that
/// cannot be made (see `action_applies`) leaves the document as it is and gives 0.
pub fn apply_action(doc: &mut YamlDocument, a: &YamlChangeAction) -> (n: usize)
    ensures
        action_applies(a@) ==> final(doc)@ == (old(doc)@.0, old(doc)@.1.push(a@)) && n
            == yaml_edit_count(old(doc)@.0, old(doc)@.1, a@),
        !action_applies(a@) ==> n == 0 && final(doc)@ == old(doc)@,
{
    match a {
        YamlChangeAction::ToObject(p, k) => match yaml_path(p) {
            Some(path) => doc_to_object(doc, &path, k.clone()),
            None => 0,
        },
        YamlChangeAction::MoveToSubfield(p, f, fs) => {
            if !part_ok(f.as_str()) || !all_parse(fs) {
                return 0;
            }
            let fields = copy_names(fs);
            proof {
                assert forall|i: int| 0 <= i < fields@.len() implies path_part_ok(
                    #[trigger] fields@[i]@,
                ) by {
                    assert(texts(fields@)[i] == fields@[i]@);
                    assert(texts(fs@)[i] == texts(fields@)[i]);
                }
            }
            match yaml_path(p) {
                Some(path) => doc_move_to_subfield(doc, &path, f.clone(), fields),
                None => 0,
            }
        },
        YamlChangeAction::RemoveFromHash(p) => match yaml_path(p) {
            Some(path) => doc_remove_from_hash(doc, &path),
            None => 0,
        },
        YamlChangeAction::RenameField(p, n) => match yaml_path(p) {
            Some(path) => doc_rename_field(doc, &path, n.clone()),
            None => 0,
        },
        YamlChangeAction::InsertIntoHash(p, v, o) => match yaml_path(p) {
            Some(path) => doc_insert_into_hash(doc, &path, v, *o),
            None => 0,
        },
        YamlChangeAction::MoveToMapWithFieldAsKey(p, a, b, c, ks) => {
            if !part_ok(a.as_str()) || !part_ok(b.as_str()) || !part_ok(c.as_str()) {
                return 0;
            }
            let keeps = copy_names(ks);
            match yaml_path(p) {
                Some(path) => doc_move_to_map_with_field_as_key(
                    doc,
                    &path,
                    a.clone(),
                    b.clone(),
                    c.clone(),
                    keeps,
                ),
                None => 0,
            }
        },
    }
}

/// The edits among `actions` that can be made, in order.
pub open spec fn applied_edits(actions: Seq<ActionView>) -> Seq<ActionView>
    decreases actions.len(),
{
    if actions.len() == 0 {
        seq![]
    } else if action_applies(actions.last()) {
        applied_edits(actions.drop_last()).push(actions.last())
    } else {
        applied_edits(actions.drop_last())
    }
}

/// The text of a file after the edits: `None` when yaml_subset does not read the text as a
/// yaml document (or would fail on it); otherwise what yaml_subset writes of the document after
/// the edits that can be made are made in it, in order.
pub fn update_file(content: &str, actions: &Vec<YamlChangeAction>) -> (r: Option<String>)
    ensures
        r is Some <==> yaml_text_safe(content@) && yaml_parses(content@),
        r matches Some(t) ==> t@ == yaml_edited_text(content@, applied_edits(views(actions@))),
{
    if !yaml_text_is_safe(content) {
        return None;
    }
    let mut doc = match parse_document(content) {
        Some(d) => d,
        None => return None,
    };
    let mut i: usize = 0;
    assert(views(actions@).take(0) =~= Seq::<ActionView>::empty());
    while i < actions.len()
        invariant
            i <= actions@.len(),
            doc@ == (content@, applied_edits(views(actions@).take(i as int))),
        decreases actions@.len() - i,
    {
        apply_action(&mut doc, &actions[i]);
        assert(views(actions@).take(i + 1).drop_last() =~= views(actions@).take(i as int));
        assert(views(actions@).take(i + 1).last() == actions@[i as int]@);
        i += 1;
    }
    assert(views(actions@).take(actions@.len() as int) =~= views(actions@));
    Some(format_document(&doc))
}

/// The number of files that could not be updated.
pub open spec fn failed_count(results: Seq<Option<String>>) -> nat
    decreases results.len(),
{
    if results.len() == 0 {
        0
    } else {
        failed_count(results.drop_last()) + if results.last() is None {
            1nat
        } else {
            0nat
        }
    }
}

/// What an update writes: the texts of all files when every one of them could be updated, in
/// order; otherwise nothing, and the number of files that could not be.
pub fn files_to_write(results: Vec<Option<String>>) -> (r: Result<Vec<String>, usize>)
    requires
        results@.len() <= usize::MAX,
    ensures
        r is Err <==> exists|i: int| 0 <= i < results@.len() && results@[i] is None,
        r matches Err(n) ==> n == failed_count(results@),
        r matches Ok(v) ==> v@.len() == results@.len() && forall|i: int|
            0 <= i < v@.len() ==> v@[i] == results@[i]->Some_0,
{
    let mut written: Vec<String> = Vec::new();
    let mut failed: usize = 0;
    let mut i: usize = 0;
    while i < results.len()
        invariant
            i <= results@.len(),
            results@.len() <= usize::MAX,
            failed == failed_count(results@.take(i as int)),
            failed <= i,
            failed == 0 <==> forall|j: int| 0 <= j < i ==> results@[j] is Some,
            failed == 0 ==> written@.len() == i && forall|j: int|
                0 <= j < i ==> written@[j] == results@[j]->Some_0,
        decreases results@.len() - i,
    {
        assert(results@.take(i + 1).drop_last() =~= results@.take(i as int));
        match &results[i] {
            Some(text) => {
                if failed == 0 {
                    written.push(text.clone());
                }
            },
            None => {
                failed = failed + 1;
            },
        }
        i += 1;
    }
    assert(results@.take(results@.len() as int) =~= results@);
    if failed == 0 {
        Ok(written)
    } else {
        Err(failed)
    }
}

} // verus!
