//! Paths as lists of components, and the paths of files within a rumbas repository.
use crate::text::{join, join_spec, owned, same_text};
use vstd::prelude::*;

verus! {

/// The component that stands for the root of the file system.
pub open spec fn root_component() -> Seq<char> {
    seq!['/']
}

/// A path as the list of its components: the root `/` first for an absolute path, then the names
/// of the folders and of the file.
#[derive(Debug, PartialEq)]
pub struct FilePath {
    pub components: Vec<String>,
}

impl View for FilePath {
    type V = Seq<Seq<char>>;

    open spec fn view(&self) -> Seq<Seq<char>> {
        self.components@.map_values(|p: String| p@)
    }
}

/// Whether the path starts at the root.
pub open spec fn is_absolute(p: Seq<Seq<char>>) -> bool {
    p.len() > 0 && p[0] == root_component()
}

/// Whether a component names a file or folder (it is not the root, `.` or `..`).
pub open spec fn is_name(c: Seq<char>) -> bool {
    c != root_component() && c != seq!['.'] && c != seq!['.', '.']
}

/// The path `q` followed from `p`: `q` itself when it is absolute.
pub open spec fn join_path(p: Seq<Seq<char>>, q: Seq<Seq<char>>) -> Seq<Seq<char>> {
    if is_absolute(q) {
        q
    } else {
        p + q
    }
}

/// The enclosing folder: `None` for the empty path and for the root.
pub open spec fn parent_path(p: Seq<Seq<char>>) -> Option<Seq<Seq<char>>> {
    if p.len() == 0 || (p.len() == 1 && p[0] == root_component()) {
        None
    } else {
        Some(p.drop_last())
    }
}

/// The last component, when it is a name.
pub open spec fn file_name_of(p: Seq<Seq<char>>) -> Option<Seq<char>> {
    if p.len() > 0 && is_name(p.last()) {
        Some(p.last())
    } else {
        None
    }
}

/// The position of the last `.` in a name.
pub open spec fn last_dot(name: Seq<char>) -> Option<int>
    decreases name.len(),
{
    if name.len() == 0 {
        None
    } else if name.last() == '.' {
        Some(name.len() - 1)
    } else {
        last_dot(name.drop_last())
    }
}

/// The name without its extension: the part before the last `.`, or the whole name when it has no
/// `.` other than a leading one.
pub open spec fn stem_of(name: Seq<char>) -> Seq<char> {
    match last_dot(name) {
        Some(i) => if i == 0 {
            name
        } else {
            name.take(i)
        },
        None => name,
    }
}

/// The path with the extension of its file name set to `ext`: the name without its extension,
/// then `.` and `ext` when `ext` is not empty; unchanged when it ends in no name.
pub open spec fn with_extension_spec(p: Seq<Seq<char>>, ext: Seq<char>) -> Seq<Seq<char>> {
    match file_name_of(p) {
        Some(n) => p.drop_last().push(
            if ext.len() == 0 {
                stem_of(n)
            } else {
                stem_of(n) + seq!['.'] + ext
            },
        ),
        None => p,
    }
}

/// The text of a path: its names separated by `/`, after a `/` for an absolute path.
pub open spec fn path_display(p: Seq<Seq<char>>) -> Seq<char> {
    if is_absolute(p) {
        seq!['/'] + join_spec(p.skip(1), seq!['/'])
    } else {
        join_spec(p, seq!['/'])
    }
}

/// The components added to `done` for the piece `cur`: none for an empty piece or `.`.
pub open spec fn flush(done: Seq<Seq<char>>, cur: Seq<char>) -> Seq<Seq<char>> {
    if cur.len() == 0 || cur == seq!['.'] {
        done
    } else {
        done.push(cur)
    }
}

/// The finished components and the current piece after reading the first `i` characters.
pub open spec fn scan(s: Seq<char>, i: int) -> (Seq<Seq<char>>, Seq<char>)
    decreases i,
{
    if i <= 0 {
        (Seq::empty(), Seq::empty())
    } else {
        let (done, cur) = scan(s, i - 1);
        if s[i - 1] == '/' {
            (flush(done, cur), Seq::empty())
        } else {
            (done, cur.push(s[i - 1]))
        }
    }
}

/// Whether the text starts with the piece `.` (a path relative to the current folder).
pub open spec fn starts_with_current(s: Seq<char>) -> bool {
    s.len() > 0 && s[0] == '.' && (s.len() == 1 || s[1] == '/')
}

/// The components of a path written as text: the root for a leading `/`, or `.` for a leading
/// piece `.`, then the pieces between the `/`s, leaving out empty pieces and other `.`s.
pub open spec fn components_of(s: Seq<char>) -> Seq<Seq<char>> {
    let names = flush(scan(s, s.len() as int).0, scan(s, s.len() as int).1);
    if s.len() > 0 && s[0] == '/' {
        seq![root_component()] + names
    } else if starts_with_current(s) {
        seq![seq!['.']] + names
    } else {
        names
    }
}

/// A copy of a list of strings.
fn copy_strings(v: &Vec<String>) -> (r: Vec<String>)
    ensures
        r@ == v@,
{
    let mut r: Vec<String> = Vec::new();
    let mut i: usize = 0;
    while i < v.len()
        invariant
            i <= v@.len(),
            r@ == v@.take(i as int),
        decreases v@.len() - i,
    {
        r.push(v[i].clone());
        assert(r@ =~= v@.take(i + 1));
        i += 1;
    }
    assert(v@.take(v@.len() as int) =~= v@);
    r
}

/// Whether a string is the root component.
fn is_root_text(s: &String) -> (r: bool)
    ensures
        r == (s@ == root_component()),
{
    let v = crate::text::chars_of(s.as_str());
    let r = v.len() == 1 && v[0] == '/';
    proof {
        if r {
            assert(v@ =~= seq!['/']);
        } else if s@ == root_component() {
            assert(v@[0] == '/');
        }
    }
    r
}

impl Clone for FilePath {
    fn clone(&self) -> (r: Self)
        ensures
            r@ == self@,
    {
        FilePath { components: copy_strings(&self.components) }
    }
}

impl FilePath {
    /// The path written as `s`.
    pub fn from_text(s: &str) -> (r: FilePath)
        ensures
            r@ == components_of(s@),
    {
        let cs = crate::text::chars_of(s);
        let mut done: Vec<String> = Vec::new();
        let mut cur: Vec<char> = Vec::new();
        let mut i: usize = 0;
        while i < cs.len()
            invariant
                i <= cs@.len(),
                cs@ == s@,
                (done@.map_values(|p: String| p@), cur@) == scan(s@, i as int),
            decreases cs@.len() - i,
        {
            if cs[i] == '/' {
                if cur.len() > 0 && !(cur.len() == 1 && cur[0] == '.') {
                    let piece = crate::text::string_of(&cur);
                    done.push(piece);
                    assert(done@.map_values(|p: String| p@) =~= scan(s@, i + 1).0);
                } else {
                    assert(cur@.len() == 0 || cur@ =~= seq!['.']);
                    assert(done@.map_values(|p: String| p@) =~= scan(s@, i + 1).0);
                }
                cur = Vec::new();
            } else {
                cur.push(cs[i]);
            }
            i += 1;
        }
        let ghost names = flush(scan(s@, s@.len() as int).0, scan(s@, s@.len() as int).1);
        if cur.len() > 0 && !(cur.len() == 1 && cur[0] == '.') {
            let piece = crate::text::string_of(&cur);
            done.push(piece);
        } else {
            assert(cur@.len() == 0 || cur@ =~= seq!['.']);
        }
        assert(done@.map_values(|p: String| p@) =~= names);
        if cs.len() > 0 && cs[0] == '/' {
            let mut all: Vec<String> = Vec::new();
            all.push(crate::text::owned("/"));
            proof {
                reveal_strlit("/");
                assert("/"@ =~= seq!['/']);
            }
            let ghost first = all@;
            let ghost d = done@;
            all.append(&mut done);
            assert(all@ =~= first + d);
            assert(first[0]@ == root_component());
            assert(all@.map_values(|p: String| p@) =~= seq![root_component()] + names);
            FilePath { components: all }
        } else if cs.len() > 0 && cs[0] == '.' && (cs.len() == 1 || cs[1] == '/') {
            let mut all: Vec<String> = Vec::new();
            all.push(crate::text::owned("."));
            proof {
                reveal_strlit(".");
                assert("."@ =~= seq!['.']);
            }
            let ghost first = all@;
            let ghost d = done@;
            all.append(&mut done);
            assert(all@ =~= first + d);
            assert(first[0]@ == seq!['.']);
            assert(all@.map_values(|p: String| p@) =~= seq![seq!['.']] + names);
            FilePath { components: all }
        } else {
            FilePath { components: done }
        }
    }

    /// Whether the path starts at the root.
    pub fn is_absolute(&self) -> (r: bool)
        ensures
            r == is_absolute(self@),
    {
        self.components.len() > 0 && is_root_text(&self.components[0])
    }

    /// The path `p` followed from this one; `p` itself when it is absolute (`Path::join`).
    pub fn join(&self, p: &FilePath) -> (r: FilePath)
        ensures
            r@ == join_path(self@, p@),
    {
        if p.is_absolute() {
            p.clone()
        } else {
            let mut all = copy_strings(&self.components);
            let mut rest = copy_strings(&p.components);
            let ghost (a, b) = (all@, rest@);
            all.append(&mut rest);
            assert(all@ =~= a + b);
            assert(all@.map_values(|p: String| p@) =~= self@ + p@);
            FilePath { components: all }
        }
    }

    /// Whether `base` is a prefix of this path, component by component (`Path::starts_with`).
    pub fn starts_with(&self, base: &FilePath) -> (r: bool)
        ensures
            r == base@.is_prefix_of(self@),
    {
        if base.components.len() > self.components.len() {
            return false;
        }
        let mut i: usize = 0;
        while i < base.components.len()
            invariant
                i <= base@.len(),
                base@.len() <= self@.len(),
                forall|j: int| 0 <= j < i ==> #[trigger] base@[j] == self@[j],
            decreases base@.len() - i,
        {
            assert(base@[i as int] == base.components@[i as int]@);
            assert(self@[i as int] == self.components@[i as int]@);
            if !same_text(base.components[i].as_str(), self.components[i].as_str()) {
                return false;
            }
            i += 1;
        }
        assert(self@.take(base@.len() as int) =~= base@);
        true
    }

    /// Whether two paths have the same components.
    pub fn same_as(&self, other: &FilePath) -> (r: bool)
        ensures
            r == (self@ == other@),
    {
        let r = self.components.len() == other.components.len() && self.starts_with(other);
        proof {
            if r {
                assert(self@ =~= other@);
            } else if self@ == other@ {
                assert(self@.take(self@.len() as int) =~= self@);
                assert(other@.is_prefix_of(self@));
            }
        }
        r
    }

    /// The rest of this path after `base`, when `base` is a prefix of it (`Path::strip_prefix`).
    pub fn strip_prefix(&self, base: &FilePath) -> (r: Option<FilePath>)
        ensures
            match r {
                Some(q) => base@.is_prefix_of(self@) && q@ == self@.skip(base@.len() as int),
                None => !base@.is_prefix_of(self@),
            },
    {
        if !self.starts_with(base) {
            return None;
        }
        let mut rest: Vec<String> = Vec::new();
        let mut i: usize = base.components.len();
        while i < self.components.len()
            invariant
                base@.len() <= i <= self@.len(),
                rest@.map_values(|p: String| p@) == self@.subrange(base@.len() as int, i as int),
            decreases self@.len() - i,
        {
            let c = self.components[i].clone();
            assert(c@ == self@[i as int]);
            let ghost before = rest@;
            rest.push(c);
            assert(rest@.map_values(|p: String| p@) =~= before.map_values(|p: String| p@).push(
                c@,
            ));
            assert(self@.subrange(base@.len() as int, i + 1) =~= self@.subrange(
                base@.len() as int,
                i as int,
            ).push(self@[i as int]));
            i += 1;
        }
        Some(FilePath { components: rest })
    }

    /// The enclosing folder; `None` for the empty path and for the root (`Path::parent`).
    pub fn parent(&self) -> (r: Option<FilePath>)
        ensures
            match r {
                Some(q) => parent_path(self@) == Some(q@),
                None => parent_path(self@) is None,
            },
    {
        let n = self.components.len();
        if n == 0 || (n == 1 && is_root_text(&self.components[0])) {
            return None;
        }
        let mut all = copy_strings(&self.components);
        all.pop();
        assert(all@.map_values(|p: String| p@) =~= self@.drop_last());
        Some(FilePath { components: all })
    }

    /// The name of the file or folder that the path ends in (`Path::file_name`).
    pub fn file_name(&self) -> (r: Option<String>)
        ensures
            crate::input_check::opt_view(r) == file_name_of(self@),
    {
        let n = self.components.len();
        if n == 0 {
            return None;
        }
        let last = &self.components[n - 1];
        assert(last@ == self@.last());
        let v = crate::text::chars_of(last.as_str());
        let dots = v.len() >= 1 && v.len() <= 2 && v[0] == '.' && (v.len() == 1 || v[1] == '.');
        if is_root_text(last) || dots {
            proof {
                if dots {
                    if v@.len() == 1 {
                        assert(last@ =~= seq!['.']);
                    } else {
                        assert(last@ =~= seq!['.', '.']);
                    }
                }
            }
            None
        } else {
            proof {
                if last@ == seq!['.'] {
                    assert(v@[0] == '.');
                }
                if last@ == seq!['.', '.'] {
                    assert(v@[0] == '.' && v@[1] == '.');
                }
            }
            Some(owned(last.as_str()))
        }
    }

    /// The name of the file without its extension (`Path::file_stem`).
    pub fn file_stem(&self) -> (r: Option<String>)
        ensures
            crate::input_check::opt_view(r) == match file_name_of(self@) {
                Some(name) => Some(stem_of(name)),
                None => None,
            },
    {
        match self.file_name() {
            None => None,
            Some(name) => {
                let v = crate::text::chars_of(name.as_str());
                let mut i: usize = v.len();
                assert(v@.take(v@.len() as int) =~= v@);
                while i > 0
                    invariant
                        i <= v@.len(),
                        v@ == name@,
                        last_dot(v@) == last_dot(v@.take(i as int)),
                        forall|j: int| i <= j < v@.len() ==> v@[j] != '.',
                    ensures
                        i == 0 || v@[i - 1] == '.',
                    decreases i,
                {
                    if v[i - 1] == '.' {
                        break;
                    }
                    assert(v@.take(i as int).drop_last() =~= v@.take(i - 1));
                    i -= 1;
                }
                assert(v@.take(v@.len() as int) =~= v@);
                if i <= 1 {
                    proof {
                        if i == 1 {
                            assert(v@.take(1).last() == v@[0]);
                            assert(last_dot(v@.take(1)) == Some(0int));
                        } else {
                            assert(v@.take(0) =~= Seq::<char>::empty());
                        }
                    }
                    Some(name)
                } else {
                    assert(v@.take(i as int).last() == v@[i - 1]);
                    assert(last_dot(v@.take(i as int)) == Some(i - 1));
                    let mut stem: Vec<char> = Vec::new();
                    let mut j: usize = 0;
                    while j < i - 1
                        invariant
                            j <= i - 1,
                            i <= v@.len(),
                            stem@ == v@.take(j as int),
                        decreases i - 1 - j,
                    {
                        stem.push(v[j]);
                        assert(stem@ =~= v@.take(j + 1));
                        j += 1;
                    }
                    Some(crate::text::string_of(&stem))
                }
            },
        }
    }

    /// The path with the extension of its file name set to `ext`; an empty `ext` removes the
    /// extension (`Path::with_extension`).
    pub fn with_extension(&self, ext: &str) -> (r: FilePath)
        ensures
            r@ == with_extension_spec(self@, ext@),
    {
        match self.file_stem() {
            None => self.clone(),
            Some(stem) => {
                let ghost sv = stem@;
                let mut name = stem;
                if crate::text::chars_of(ext).len() > 0 {
                    crate::text::push_char(&mut name, '.');
                    name.append(ext);
                    assert(name@ =~= sv + seq!['.'] + ext@);
                }
                let mut all = copy_strings(&self.components);
                all.pop();
                let ghost nv = name@;
                all.push(name);
                assert(all@.map_values(|p: String| p@) =~= self@.drop_last().push(nv));
                FilePath { components: all }
            },
        }
    }

    /// The text of the path, with `/` between its names (`Path::display`).
    pub fn display(&self) -> (r: String)
        ensures
            r@ == path_display(self@),
    {
        if self.is_absolute() {
            let mut names: Vec<String> = Vec::new();
            let mut i: usize = 1;
            while i < self.components.len()
                invariant
                    1 <= i <= self@.len(),
                    names@.map_values(|p: String| p@) == self@.subrange(1, i as int),
                decreases self@.len() - i,
            {
                let c = self.components[i].clone();
                assert(c@ == self@[i as int]);
                let ghost before = names@;
                names.push(c);
                assert(names@.map_values(|p: String| p@) =~= before.map_values(|p: String| p@).push(
                    c@,
                ));
                assert(self@.subrange(1, i + 1) =~= self@.subrange(1, i as int).push(
                    self@[i as int],
                ));
                i += 1;
            }
            proof {
                reveal_strlit("/");
                assert("/"@ =~= seq!['/']);
            }
            assert(names@.map_values(|p: String| p@) == self@.skip(1));
            let body = join(&names, "/");
            assert(body@ == join_spec(names@.map_values(|p: String| p@), "/"@));
            let mut r = owned("/");
            r.append(body.as_str());
            proof {
                reveal_strlit("/");
                assert("/"@ =~= seq!['/']);
            }
            assert(self@.skip(1) =~= self@.subrange(1, self@.len() as int));
            assert(body@ == join_spec(self@.skip(1), seq!['/']));
            assert(r@ =~= seq!['/'] + join_spec(self@.skip(1), seq!['/']));
            r
        } else {
            let r = join(&self.components, "/");
            proof {
                reveal_strlit("/");
                assert("/"@ =~= seq!['/']);
            }
            r
        }
    }
}

/// The position of a file or folder in a rumbas repository: the root of the repository, the path
/// within it, and the path as it was given.
#[derive(Debug)]
pub struct RumbasPath {
    root_path: FilePath,
    project_path: FilePath,
    absolute_path: FilePath,
}

impl View for RumbasPath {
    /// The root, the path within the repository, and the path as given.
    type V = (Seq<Seq<char>>, Seq<Seq<char>>, Seq<Seq<char>>);

    closed spec fn view(&self) -> (Seq<Seq<char>>, Seq<Seq<char>>, Seq<Seq<char>>) {
        (self.root_path@, self.project_path@, self.absolute_path@)
    }
}

impl PartialEq for RumbasPath {
    /// Two positions are the same file when their paths as given are the same.
    fn eq(&self, other: &Self) -> (r: bool) {
        self.absolute_path.same_as(&other.absolute_path)
    }
}

impl vstd::std_specs::cmp::PartialEqSpecImpl for RumbasPath {
    open spec fn obeys_eq_spec() -> bool {
        true
    }

    open spec fn eq_spec(&self, other: &Self) -> bool {
        self@.2 == other@.2
    }
}

impl Clone for RumbasPath {
    fn clone(&self) -> (r: Self)
        ensures
            r@ == self@,
    {
        RumbasPath {
            root_path: self.root_path.clone(),
            project_path: self.project_path.clone(),
            absolute_path: self.absolute_path.clone(),
        }
    }
}

impl RumbasPath {
    /// Whether the path within the repository lies in the folder written as `s`.
    pub fn in_main_folder(&self, s: &str) -> (r: bool)
        ensures
            r == components_of(s@).is_prefix_of(self@.1),
    {
        let folder = FilePath::from_text(s);
        self.project_path.starts_with(&folder)
    }

    /// The path within the repository, as text.
    pub fn display(&self) -> (r: String)
        ensures
            r@ == path_display(self@.1),
    {
        self.project_path.display()
    }

    /// The root of the repository.
    pub fn root(&self) -> (r: &FilePath)
        ensures
            r@ == self@.0,
    {
        &self.root_path
    }

    /// The path within the repository.
    pub fn project(&self) -> (r: &FilePath)
        ensures
            r@ == self@.1,
    {
        &self.project_path
    }

    /// The path as it was given.
    pub fn absolute(&self) -> (r: &FilePath)
        ensures
            r@ == self@.2,
    {
        &self.absolute_path
    }

    /// The path `p` within the same repository.
    pub fn keep_root(&self, p: &FilePath) -> (r: Self)
        ensures
            r@ == (self@.0, p@, join_path(self@.0, p@)),
    {
        RumbasPath {
            absolute_path: self.root_path.join(p),
            root_path: self.root_path.clone(),
            project_path: p.clone(),
        }
    }

    /// The path `path`, whose canonical form is `canonical`, within the repository at `root`;
    /// `None` when it lies outside of it.
    pub fn create(path: &FilePath, canonical: &FilePath, root: &FilePath) -> (r: Option<Self>)
        ensures
            match r {
                Some(rp) => root@.is_prefix_of(canonical@) && rp@ == (
                    root@,
                    canonical@.skip(root@.len() as int),
                    path@,
                ),
                None => !root@.is_prefix_of(canonical@),
            },
    {
        match canonical.strip_prefix(root) {
            Some(rest) => Some(
                RumbasPath { root_path: root.clone(), project_path: rest, absolute_path: path.clone() },
            ),
            None => None,
        }
    }

    /// The path `p`, whose canonical form is `canonical`, within the same repository.
    pub fn in_root(&self, p: &FilePath, canonical: &FilePath) -> (r: Option<Self>)
        ensures
            match r {
                Some(rp) => self@.0.is_prefix_of(canonical@) && rp@ == (
                    self@.0,
                    canonical@.skip(self@.0.len() as int),
                    p@,
                ),
                None => !self@.0.is_prefix_of(canonical@),
            },
    {
        Self::create(p, canonical, &self.root_path)
    }
}

/// How many paths `ancestors` gives: down to the root for an absolute path, down to the empty
/// path otherwise.
pub open spec fn ancestor_count(p: Seq<Seq<char>>) -> nat {
    if is_absolute(p) {
        p.len()
    } else {
        p.len() + 1
    }
}

/// The `i`-th ancestor: the path without its last `i` components.
pub open spec fn ancestor(p: Seq<Seq<char>>, i: int) -> Seq<Seq<char>> {
    p.take(p.len() - i)
}

/// The path and the folders that enclose it, innermost first (`Path::ancestors`).
pub fn ancestors(p: &FilePath) -> (r: Vec<FilePath>)
    ensures
        r@.len() == ancestor_count(p@),
        forall|i: int| 0 <= i < r@.len() ==> #[trigger] r@[i]@ == ancestor(p@, i),
{
    let mut r: Vec<FilePath> = Vec::new();
    let mut cur = p.clone();
    r.push(p.clone());
    assert(p@.take(p@.len() as int) =~= p@);
    loop
        invariant
            1 <= r@.len() <= ancestor_count(p@),
            cur@ == ancestor(p@, r@.len() - 1),
            forall|i: int| 0 <= i < r@.len() ==> #[trigger] r@[i]@ == ancestor(p@, i),
        ensures
            r@.len() == ancestor_count(p@),
            forall|i: int| 0 <= i < r@.len() ==> #[trigger] r@[i]@ == ancestor(p@, i),
        decreases ancestor_count(p@) - r@.len(),
    {
        match cur.parent() {
            None => {
                proof {
                    if is_absolute(p@) && cur@.len() == 1 {
                        assert(cur@[0] == p@[0]);
                    }
                }
                break;
            },
            Some(q) => {
                proof {
                    if is_absolute(p@) {
                        assert(cur@[0] == p@[0]);
                    }
                }
                assert(q@ =~= ancestor(p@, r@.len() as int));
                let next = q.clone();
                r.push(q);
                cur = next;
            },
        }
    }
    r
}

/// The position of the first `true`.
pub open spec fn first_true(s: Seq<bool>) -> Option<int>
    decreases s.len(),
{
    if s.len() == 0 {
        None
    } else if s[0] {
        Some(0)
    } else {
        match first_true(s.skip(1)) {
            Some(i) => Some(i + 1),
            None => None,
        }
    }
}

/// The root of the repository that holds the path whose canonical form is `canonical`: the
/// innermost of its `ancestors` that holds the run commands file, as `rc_present` tells for each.
pub fn find_root(canonical: &FilePath, rc_present: &Vec<bool>) -> (r: Option<FilePath>)
    requires
        rc_present@.len() == ancestor_count(canonical@),
    ensures
        match first_true(rc_present@) {
            Some(i) => r matches Some(root) && root@ == ancestor(canonical@, i),
            None => r is None,
        },
{
    let all = ancestors(canonical);
    let mut i: usize = 0;
    assert(rc_present@.skip(0) =~= rc_present@);
    while i < rc_present.len()
        invariant
            i <= rc_present@.len(),
            all@.len() == rc_present@.len(),
            forall|j: int| 0 <= j < all@.len() ==> #[trigger] all@[j]@ == ancestor(canonical@, j),
            first_true(rc_present@) == match first_true(rc_present@.skip(i as int)) {
                Some(k) => Some(k + i),
                None => None,
            },
        decreases rc_present@.len() - i,
    {
        if rc_present[i] {
            return Some(all[i].clone());
        }
        assert(rc_present@.skip(i as int).skip(1) =~= rc_present@.skip(i + 1));
        i += 1;
    }
    None
}

/// The path `path`, whose canonical form is `canonical`, within the repository that holds it;
/// `None` when no enclosing folder holds the run commands file, or the path lies outside the root
/// that was found.
pub fn within_repo(path: &FilePath, canonical: &FilePath, rc_present: &Vec<bool>) -> (r: Option<
    RumbasPath,
>)
    requires
        rc_present@.len() == ancestor_count(canonical@),
    ensures
        match first_true(rc_present@) {
            Some(i) => {
                let root = ancestor(canonical@, i);
                match r {
                    Some(rp) => root.is_prefix_of(canonical@) && rp@ == (
                        root,
                        canonical@.skip(root.len() as int),
                        path@,
                    ),
                    None => !root.is_prefix_of(canonical@),
                }
            },
            None => r is None,
        },
{
    match find_root(canonical, rc_present) {
        Some(root) => RumbasPath::create(path, canonical, &root),
        None => None,
    }
}

/// A path kept in the same repository is found back in it: the root is a prefix of the path as
/// given, and what follows the root is the path within the repository.
pub proof fn lemma_keep_root_create(root: Seq<Seq<char>>, p: Seq<Seq<char>>)
    requires
        !is_absolute(p),
    ensures
        root.is_prefix_of(join_path(root, p)),
        join_path(root, p).skip(root.len() as int) == p,
{
    assert(join_path(root, p).take(root.len() as int) =~= root);
    assert(join_path(root, p).skip(root.len() as int) =~= p);
}

} // verus!
