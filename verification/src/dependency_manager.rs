//! Which files depend on which: a file that is read while compiling another is recorded, so that a
//! change to it tells which files must be compiled again.
use crate::path::{components_of, path_display, FilePath};
use crate::string_map::{lemma_insert_lookup, StringMap};
use vstd::prelude::*;

verus! {

/// The key of a path: its components written with `/` between them, so that two texts of the
/// same path (`a//b`, `a/./b`, `a/b/`) have one key.
pub open spec fn path_key(s: Seq<char>) -> Seq<char> {
    path_display(components_of(s))
}

/// The keys of a list of paths, as a set.
pub open spec fn key_set(v: Seq<String>) -> Set<Seq<char>> {
    v.map_values(|s: String| path_key(s@)).to_set()
}

/// The key of a path.
fn key_of(s: &str) -> (r: String)
    ensures
        r@ == path_key(s@),
{
    FilePath::from_text(s).display()
}

/// The texts of a list of strings, as a set.
pub open spec fn text_set(v: Seq<String>) -> Set<Seq<char>> {
    v.map_values(|s: String| s@).to_set()
}

/// Appending an element adds it to the set of elements.
proof fn lemma_push_set(s: Seq<Seq<char>>, x: Seq<char>)
    ensures
        s.push(x).to_set() == s.to_set().insert(x),
{
    assert forall|y: Seq<char>|
        s.push(x).to_set().contains(y) == s.to_set().insert(x).contains(y) by {
        if s.contains(y) {
            let i = choose|i: int| 0 <= i < s.len() && s[i] == y;
            assert(s.push(x)[i] == y);
        }
        if y == x {
            assert(s.push(x)[s.len() as int] == x);
        }
        if s.push(x).contains(y) {
            let i = choose|i: int| 0 <= i < s.push(x).len() && s.push(x)[i] == y;
            if i < s.len() {
                assert(s[i] == y);
            }
        }
    }
    assert(s.push(x).to_set() =~= s.to_set().insert(x));
}

/// For each file (by the key of its path), the keys of the files that depend on it.
#[derive(Debug)]
pub struct DependencyManager {
    depended_on_by: StringMap<Vec<String>>,
}

impl DependencyManager {
    /// No file is listed twice among the dependants of a file.
    #[verifier::type_invariant]
    closed spec fn lists_distinct(&self) -> bool {
        forall|k: int|
            0 <= k < self.depended_on_by.entries_spec().len() ==> (
            #[trigger] self.depended_on_by.entries_spec()[k]).1@.map_values(
                |s: String| s@,
            ).no_duplicates()
    }

    /// The keys of the files that depend on the file with key `p`.
    pub closed spec fn dependants(&self, p: Seq<char>) -> Set<Seq<char>> {
        match self.depended_on_by.get_spec(p) {
            Some(v) => text_set(v@),
            None => Set::empty(),
        }
    }

    /// A manager that knows of no dependencies.
    pub fn new() -> (r: Self)
        ensures
            forall|p: Seq<char>| #[trigger] r.dependants(p) == Set::<Seq<char>>::empty(),
    {
        DependencyManager { depended_on_by: StringMap::new() }
    }

    /// Records that `path` depends on `dependency`.
    fn add_one(&mut self, dependency: &String, path: &String)
        ensures
            forall|q: Seq<char>| #[trigger]
                final(self).dependants(q) == if q == dependency@ {
                    old(self).dependants(q).insert(path@)
                } else {
                    old(self).dependants(q)
                },
    {
        proof {
            use_type_invariant(&*self);
        }
        let ghost es = self.depended_on_by.entries_spec();
        let mut list: Vec<String> = Vec::new();
        let mut present = false;
        proof {
            crate::string_map::lemma_position(es, dependency@);
        }
        match self.depended_on_by.get(dependency.as_str()) {
            Some(v) => {
                let ghost pos = crate::string_map::position(es, dependency@)->Some_0;
                assert(es[pos].1 == *v);
                let mut i: usize = 0;
                while i < v.len()
                    invariant
                        i <= v@.len(),
                        list@ == v@.take(i as int),
                        present == v@.take(i as int).map_values(|s: String| s@).contains(path@),
                    decreases v@.len() - i,
                {
                    let same = crate::text::same_text(v[i].as_str(), path.as_str());
                    proof {
                        let t = v@.take(i + 1).map_values(|s: String| s@);
                        assert(t =~= v@.take(i as int).map_values(|s: String| s@).push(v@[i as int]@));
                        lemma_push_set(v@.take(i as int).map_values(|s: String| s@), v@[i as int]@);
                        assert(t.to_set().contains(path@) == t.contains(path@));
                    }
                    present = present || same;
                    list.push(v[i].clone());
                    assert(list@ =~= v@.take(i + 1));
                    i += 1;
                }
                assert(v@.take(v@.len() as int) =~= v@);
            },
            None => {},
        }
        let ghost before = list@;
        if !present {
            list.push(path.clone());
            assert(list@.map_values(|s: String| s@) =~= before.map_values(|s: String| s@).push(
                path@,
            ));
        }
        assert(text_set(list@) == text_set(before).insert(path@)) by {
            lemma_push_set(before.map_values(|s: String| s@), path@);
            if present {
                assert(text_set(before).contains(path@));
                assert(text_set(before).insert(path@) =~= text_set(before));
            }
        }
        assert(list@.map_values(|s: String| s@).no_duplicates()) by {
            if !present {
                let b = before.map_values(|s: String| s@);
                assert forall|x: int, y: int| 0 <= x < y < b.push(path@).len() implies b.push(path@)[x]
                    != b.push(path@)[y] by {
                    if y == b.len() {
                        assert(b[x] == b.push(path@)[x]);
                    }
                }
            }
        }
        proof {
            if self.depended_on_by.get_spec(dependency@) is None {
                assert(text_set(before) =~= Set::<Seq<char>>::empty());
            }
        }
        let ghost new_list: Vec<String> = list;
        let ghost inserted = crate::string_map::insert_spec(es, dependency@, new_list);
        assert forall|k: int| 0 <= k < inserted.len() implies (#[trigger] inserted[k]).1@.map_values(
            |s: String| s@,
        ).no_duplicates() by {
            match crate::string_map::position(es, dependency@) {
                Some(p) => {
                    if k != p {
                        assert(inserted[k] == es[k]);
                    }
                },
                None => {
                    if k < es.len() {
                        assert(inserted[k] == es[k]);
                    }
                },
            }
        }
        let mut map: StringMap<Vec<String>> = StringMap::new();
        std::mem::swap(&mut map, &mut self.depended_on_by);
        map.insert(dependency.clone(), list);
        self.depended_on_by = map;
        assert forall|q: Seq<char>| #[trigger]
            self.dependants(q) == if q == dependency@ {
                old(self).dependants(q).insert(path@)
            } else {
                old(self).dependants(q)
            } by {
            lemma_insert_lookup(es, dependency@, new_list, q);
        }
    }

    /// Records that the file at `path` depends on the file at each of `dependencies`, and on
    /// itself; paths are known by their keys.
    pub fn add_dependencies(&mut self, path: String, dependencies: Vec<String>)
        ensures
            registers(*old(self), *final(self), path_key(path@), key_set(dependencies@)),
    {
        let key = key_of(path.as_str());
        let mut keys: Vec<String> = Vec::new();
        let mut i: usize = 0;
        while i < dependencies.len()
            invariant
                i <= dependencies@.len(),
                keys@.len() == i,
                forall|k: int| 0 <= k < i ==> (#[trigger] keys@[k])@ == path_key(dependencies@[k]@),
            decreases dependencies@.len() - i,
        {
            keys.push(key_of(dependencies[i].as_str()));
            i += 1;
        }
        assert(keys@.map_values(|s: String| s@) =~= dependencies@.map_values(
            |s: String| path_key(s@),
        ));
        self.add_keys(key, keys);
    }

    /// Records that `path` depends on each of `dependencies`, and on itself.
    fn add_keys(&mut self, path: String, dependencies: Vec<String>)
        ensures
            registers(*old(self), *final(self), path@, text_set(dependencies@)),
    {
        let mut i: usize = 0;
        while i < dependencies.len()
            invariant
                i <= dependencies@.len(),
                forall|q: Seq<char>| #[trigger]
                    self.dependants(q) == if text_set(dependencies@.take(i as int)).contains(q) {
                        old(self).dependants(q).insert(path@)
                    } else {
                        old(self).dependants(q)
                    },
            decreases dependencies@.len() - i,
        {
            let ghost mid = *self;
            self.add_one(&dependencies[i], &path);
            assert forall|q: Seq<char>| #[trigger]
                self.dependants(q) == if text_set(dependencies@.take(i + 1)).contains(q) {
                    old(self).dependants(q).insert(path@)
                } else {
                    old(self).dependants(q)
                } by {
                assert(dependencies@.take(i + 1).map_values(|s: String| s@) =~= dependencies@.take(
                    i as int,
                ).map_values(|s: String| s@).push(dependencies@[i as int]@));
                lemma_push_set(
                    dependencies@.take(i as int).map_values(|s: String| s@),
                    dependencies@[i as int]@,
                );
                assert(text_set(dependencies@.take(i + 1)) == text_set(
                    dependencies@.take(i as int),
                ).insert(dependencies@[i as int]@));
                if q == dependencies@[i as int]@ {
                    assert(old(self).dependants(q).insert(path@).insert(path@) =~= old(
                        self,
                    ).dependants(q).insert(path@));
                }
            }
            i += 1;
        }
        assert(dependencies@.take(dependencies@.len() as int) =~= dependencies@);
        let ghost mid = *self;
        self.add_one(&path, &path);
        assert forall|q: Seq<char>| #[trigger]
            self.dependants(q) == if text_set(dependencies@).contains(q) || q == path@ {
                old(self).dependants(q).insert(path@)
            } else {
                old(self).dependants(q)
            } by {
            if q == path@ && text_set(dependencies@).contains(q) {
                assert(old(self).dependants(q).insert(path@).insert(path@) =~= old(
                    self,
                ).dependants(q).insert(path@));
            }
        }
    }

    /// The keys of the files that depend on the file at `path`.
    pub fn get_dependants(&self, path: &str) -> (r: Vec<String>)
        ensures
            text_set(r@) == self.dependants(path_key(path@)),
            r@.map_values(|s: String| s@).no_duplicates(),
    {
        let key = key_of(path);
        self.dependants_of_key(key.as_str())
    }

    /// The files that depend on the file with key `path`.
    fn dependants_of_key(&self, path: &str) -> (r: Vec<String>)
        ensures
            text_set(r@) == self.dependants(path@),
            r@.map_values(|s: String| s@).no_duplicates(),
    {
        proof {
            use_type_invariant(self);
            crate::string_map::lemma_position(self.depended_on_by.entries_spec(), path@);
        }
        match self.depended_on_by.get(path) {
            Some(v) => {
                let ghost pos = crate::string_map::position(self.depended_on_by.entries_spec(), path@)->Some_0;
                assert(self.depended_on_by.entries_spec()[pos].1 == *v);
                let mut list: Vec<String> = Vec::new();
                let mut i: usize = 0;
                while i < v.len()
                    invariant
                        i <= v@.len(),
                        list@ == v@.take(i as int),
                    decreases v@.len() - i,
                {
                    list.push(v[i].clone());
                    assert(list@ =~= v@.take(i + 1));
                    i += 1;
                }
                assert(v@.take(v@.len() as int) =~= v@);
                list
            },
            None => {
                let list: Vec<String> = Vec::new();
                assert(text_set(list@) =~= Set::<Seq<char>>::empty());
                list
            },
        }
    }
}

/// The files that depend on `q` after the registrations of `history`, in order: each
/// registration is a file and the set of files it depends on, and a file also depends on itself.
pub open spec fn registered_dependants(history: Seq<(Seq<char>, Set<Seq<char>>)>, q: Seq<char>) -> Set<
    Seq<char>,
>
    decreases history.len(),
{
    if history.len() == 0 {
        Set::empty()
    } else {
        let before = registered_dependants(history.drop_last(), q);
        let (p, ds) = history.last();
        if ds.contains(q) || q == p {
            before.insert(p)
        } else {
            before
        }
    }
}

/// Whether `after` is what registering `path` with the dependencies `ds` makes of `before`, as
/// `add_dependencies` states it.
pub open spec fn registers(
    before: DependencyManager,
    after: DependencyManager,
    path: Seq<char>,
    ds: Set<Seq<char>>,
) -> bool {
    forall|q: Seq<char>| #[trigger]
        after.dependants(q) == if ds.contains(q) || q == path {
            before.dependants(q).insert(path)
        } else {
            before.dependants(q)
        }
}

/// After a new manager has recorded the registrations of `history` one after the other (the
/// states in between are `states`), the files that depend on a file are exactly those
/// registered with it as a dependency or as themselves.
pub proof fn lemma_dependants_of_history(
    states: Seq<DependencyManager>,
    history: Seq<(Seq<char>, Set<Seq<char>>)>,
)
    requires
        states.len() == history.len() + 1,
        forall|q: Seq<char>| #[trigger] states[0].dependants(q) == Set::<Seq<char>>::empty(),
        forall|i: int|
            0 <= i < history.len() ==> registers(
                states[i],
                #[trigger] states[i + 1],
                history[i].0,
                history[i].1,
            ),
    ensures
        forall|q: Seq<char>| #[trigger]
            states.last().dependants(q) == registered_dependants(history, q),
    decreases history.len(),
{
    if history.len() > 0 {
        let n = history.len() - 1;
        lemma_dependants_of_history(states.drop_last(), history.drop_last());
        assert(registers(states[n], states[n + 1], history[n].0, history[n].1));
        assert forall|q: Seq<char>| #[trigger]
            states.last().dependants(q) == registered_dependants(history, q) by {
            assert(states.drop_last().last() == states[n]);
            assert(states.drop_last().last().dependants(q) == registered_dependants(
                history.drop_last(),
                q,
            ));
        }
    }
}

} // verus!
