//! The run commands of a rumbas repository: the version of rumbas it is written for, and the
//! steps that update a repository to the next version.
use vstd::prelude::*;

verus! {

/// A version number `major.minor.patch`, with an optional pre-release and build part (empty when
/// absent), as in semantic versioning.
#[derive(Debug, PartialEq)]
pub struct Version {
    pub major: u64,
    pub minor: u64,
    pub patch: u64,
    pub pre: String,
    pub build: String,
}

impl Clone for Version {
    fn clone(&self) -> (r: Self)
        ensures
            r == *self,
    {
        Version {
            major: self.major,
            minor: self.minor,
            patch: self.patch,
            pre: self.pre.clone(),
            build: self.build.clone(),
        }
    }
}

/// Whether `v` is the release `major.minor.patch`, without pre-release or build part.
pub open spec fn is_release(v: Version, major: u64, minor: u64, patch: u64) -> bool {
    v.major == major && v.minor == minor && v.patch == patch && v.pre@.len() == 0 && v.build@.len()
        == 0
}

impl Version {
    /// The release `major.minor.patch`.
    pub fn new(major: u64, minor: u64, patch: u64) -> (r: Self)
        ensures
            is_release(r, major, minor, patch),
    {
        Version { major, minor, patch, pre: String::new(), build: String::new() }
    }

    /// Whether this is the release `major.minor.patch`.
    pub fn is(&self, major: u64, minor: u64, patch: u64) -> (r: bool)
        ensures
            r == is_release(*self, major, minor, patch),
    {
        self.major == major && self.minor == minor && self.patch == patch
            && crate::text::chars_of(self.pre.as_str()).len() == 0
            && crate::text::chars_of(self.build.as_str()).len() == 0
    }
}

/// Whether the version `major.minor.patch-pre+build` satisfies the requirement written as `req`,
/// as the semver crate decides it; `None` when `req` is not a requirement or `pre` or `build` are
/// not valid identifiers.
pub uninterp spec fn version_req_matches(
    req: Seq<char>,
    major: u64,
    minor: u64,
    patch: u64,
    pre: Seq<char>,
    build: Seq<char>,
) -> Option<bool>;

/// `semver::VersionReq::parse(req)` and `VersionReq::matches` on the version built from its parts
/// (`semver::Prerelease::new`, `semver::BuildMetadata::new`). The result is named: it depends on
/// the requirement and the version alone. Of the one requirement the library asks, `0.5.*` (a
/// wildcard: major 0, minor 5, any patch, no pre-release), semver's documented meaning is
/// stated: it is answered for a version without pre-release or build part, and it holds exactly
/// of the versions `0.5.x` without pre-release part.
#[verifier::external_body]
fn requirement_matches(req: &str, v: &Version) -> (r: Option<bool>)
    ensures
        r == version_req_matches(req@, v.major, v.minor, v.patch, v.pre@, v.build@),
        req@ == "0.5.*"@ ==> (r matches Some(b) ==> (b <==> (v.major == 0 && v.minor == 5
            && v.pre@.len() == 0))),
        req@ == "0.5.*"@ && v.pre@.len() == 0 && v.build@.len() == 0 ==> r is Some,
{
    let req = semver::VersionReq::parse(req).ok()?;
    let pre = semver::Prerelease::new(v.pre.as_str()).ok()?;
    let build = semver::BuildMetadata::new(v.build.as_str()).ok()?;
    Some(req.matches(&semver::Version { major: v.major, minor: v.minor, patch: v.patch, pre, build }))
}

/// The run commands of a repository.
#[derive(Debug, PartialEq)]
pub struct RC {
    version: Version,
}

impl RC {
    /// The version of rumbas the repository is written for.
    pub closed spec fn version_spec(&self) -> Version {
        self.version
    }

    /// The run commands of a repository that has none: version 0.4.0.
    pub fn default() -> (r: Self)
        ensures
            is_release(r.version_spec(), 0, 4, 0),
    {
        RC { version: Version::new(0, 4, 0) }
    }

    /// The run commands with the given version.
    pub fn with_version(&self, version: Version) -> (r: RC)
        ensures
            r.version_spec() == version,
    {
        RC { version }
    }

    /// The version of rumbas the repository is written for.
    pub fn version(&self) -> (r: Version)
        ensures
            r == self.version_spec(),
    {
        self.version.clone()
    }
}

/// What updating a repository from its version takes.
#[derive(Debug, PartialEq)]
pub enum UpdateStep {
    /// Version 0.4.0 is too old to be updated by this version of rumbas.
    TooOld,
    /// The update of repositories of version 0.5.* has to be run; it gives the version held.
    FromZeroFive(Version),
    /// Only the version changes.
    To(Version),
    /// The repository has to be updated by hand to the given version.
    ByHandTo(Version),
    /// The update of repositories of version 0.7.1 has to be run; it gives the version held.
    FromZeroSevenOne(Version),
    /// There is no newer version to update to.
    UpToDate,
}

/// An update step, with the versions as `(major, minor, patch)`.
pub enum StepView {
    TooOld,
    FromZeroFive(u64, u64, u64),
    To(u64, u64, u64),
    ByHandTo(u64, u64, u64),
    FromZeroSevenOne(u64, u64, u64),
    UpToDate,
}

/// The update step for version `v`, where `zero_five` tells whether `v` satisfies `0.5.*`.
pub open spec fn step_for(v: Version, zero_five: Option<bool>) -> StepView {
    if is_release(v, 0, 4, 0) {
        StepView::TooOld
    } else if zero_five == Some(true) {
        StepView::FromZeroFive(0, 6, 3)
    } else if is_release(v, 0, 6, 0) || is_release(v, 0, 6, 1) || is_release(v, 0, 6, 2) {
        StepView::To(0, 6, 3)
    } else if is_release(v, 0, 6, 3) {
        StepView::ByHandTo(0, 7, 0)
    } else if is_release(v, 0, 7, 0) {
        StepView::To(0, 7, 1)
    } else if is_release(v, 0, 7, 1) {
        StepView::FromZeroSevenOne(0, 8, 0)
    } else {
        StepView::UpToDate
    }
}

/// Whether the step is the one described.
pub open spec fn step_is(s: UpdateStep, v: StepView) -> bool {
    match (s, v) {
        (UpdateStep::TooOld, StepView::TooOld) => true,
        (UpdateStep::FromZeroFive(w), StepView::FromZeroFive(a, b, c)) => is_release(w, a, b, c),
        (UpdateStep::To(w), StepView::To(a, b, c)) => is_release(w, a, b, c),
        (UpdateStep::ByHandTo(w), StepView::ByHandTo(a, b, c)) => is_release(w, a, b, c),
        (UpdateStep::FromZeroSevenOne(w), StepView::FromZeroSevenOne(a, b, c)) => is_release(
            w,
            a,
            b,
            c,
        ),
        (UpdateStep::UpToDate, StepView::UpToDate) => true,
        _ => false,
    }
}

/// The step for version `v`, given whether it satisfies `0.5.*` (`None`: that could not be
/// decided).
pub fn step_for_version(v: &Version, zero_five: Option<bool>) -> (r: UpdateStep)
    ensures
        step_is(r, step_for(*v, zero_five)),
{
    if v.is(0, 4, 0) {
        UpdateStep::TooOld
    } else if zero_five == Some(true) {
        UpdateStep::FromZeroFive(Version::new(0, 6, 3))
    } else if v.is(0, 6, 0) || v.is(0, 6, 1) || v.is(0, 6, 2) {
        UpdateStep::To(Version::new(0, 6, 3))
    } else if v.is(0, 6, 3) {
        UpdateStep::ByHandTo(Version::new(0, 7, 0))
    } else if v.is(0, 7, 0) {
        UpdateStep::To(Version::new(0, 7, 1))
    } else if v.is(0, 7, 1) {
        UpdateStep::FromZeroSevenOne(Version::new(0, 8, 0))
    } else {
        UpdateStep::UpToDate
    }
}

/// The update step for the repository with run commands `rc`.
pub fn update_step(rc: &RC) -> (r: UpdateStep)
    ensures
        step_is(r, step_for(rc.version_spec(), zero_five_answer(rc.version_spec()))),
        step_target(step_for(rc.version_spec(), zero_five_answer(rc.version_spec()))) matches Some(
            t,
        ) ==> comes_before(rc.version_spec(), t),
        step_target(step_for(rc.version_spec(), zero_five_answer(rc.version_spec()))) is None
            <==> has_no_step(rc.version_spec(), zero_five_answer(rc.version_spec())),
        zero_five_answer(rc.version_spec()) == Some(true) ==> rc.version_spec().major == 0
            && rc.version_spec().minor == 5,
        rc.version_spec().major == 0 && rc.version_spec().minor == 5 && rc.version_spec().pre@.len()
            == 0 && rc.version_spec().build@.len() == 0 ==> r is FromZeroFive,
{
    let v = rc.version();
    let zero_five = requirement_matches("0.5.*", &v);
    proof {
        lemma_step_raises_version(v, zero_five);
    }
    step_for_version(&v, zero_five)
}

/// Whether the version `v` satisfies `0.5.*`, as semver answers it.
pub open spec fn zero_five_answer(v: Version) -> Option<bool> {
    version_req_matches("0.5.*"@, v.major, v.minor, v.patch, v.pre@, v.build@)
}

/// Whether there is no update step from version `v`, where `zero_five` tells whether it satisfies
/// `0.5.*`: it is 0.4.0, or it neither satisfies `0.5.*` nor is one of 0.6.0, 0.6.1, 0.6.2,
/// 0.6.3, 0.7.0 and 0.7.1.
pub open spec fn has_no_step(v: Version, zero_five: Option<bool>) -> bool {
    is_release(v, 0, 4, 0) || (zero_five != Some(true) && !is_release(v, 0, 6, 0) && !is_release(
        v,
        0,
        6,
        1,
    ) && !is_release(v, 0, 6, 2) && !is_release(v, 0, 6, 3) && !is_release(v, 0, 7, 0)
        && !is_release(v, 0, 7, 1))
}

/// The run commands after an update: with the new version, or `None` when there was none.
pub fn updated(rc: &RC, new_version: Option<Version>) -> (r: Option<RC>)
    ensures
        match new_version {
            Some(v) => r matches Some(n) && n.version_spec() == v,
            None => r is None,
        },
{
    match new_version {
        Some(v) => Some(rc.with_version(v)),
        None => None,
    }
}

/// Whether, starting from version `v`, the update steps stop within `n` steps, whatever version
/// each step gives among those it describes; `zero_five` tells of each version whether it
/// satisfies `0.5.*`.
pub open spec fn updates_end_within(v: Version, zero_five: spec_fn(Version) -> Option<bool>, n: nat) -> bool
    decreases n,
{
    match step_for(v, zero_five(v)) {
        StepView::FromZeroFive(a, b, c) => n > 0 && forall|w: Version|
            #[trigger] is_release(w, a, b, c) ==> updates_end_within(w, zero_five, (n - 1) as nat),
        StepView::To(a, b, c) => n > 0 && forall|w: Version|
            #[trigger] is_release(w, a, b, c) ==> updates_end_within(w, zero_five, (n - 1) as nat),
        StepView::ByHandTo(a, b, c) => n > 0 && forall|w: Version|
            #[trigger] is_release(w, a, b, c) ==> updates_end_within(w, zero_five, (n - 1) as nat),
        StepView::FromZeroSevenOne(a, b, c) => n > 0 && forall|w: Version|
            #[trigger] is_release(w, a, b, c) ==> updates_end_within(w, zero_five, (n - 1) as nat),
        _ => true,
    }
}

/// Updating a repository step by step ends within five steps, from any version: each step gives
/// a later release, up to 0.8.0, for which there is no step. This holds where none of the
/// releases that the steps give satisfies `0.5.*`.
pub proof fn lemma_updates_end(v: Version, zero_five: spec_fn(Version) -> Option<bool>)
    requires
        forall|w: Version|
            is_release(w, 0, 6, 3) || is_release(w, 0, 7, 0) || is_release(w, 0, 7, 1)
                || is_release(w, 0, 8, 0) ==> #[trigger] zero_five(w) != Some(true),
    ensures
        updates_end_within(v, zero_five, 5),
{
    reveal_with_fuel(updates_end_within, 6);
    assert forall|w: Version| #[trigger] is_release(w, 0, 8, 0) implies updates_end_within(
        w,
        zero_five,
        1,
    ) by {
        assert(zero_five(w) != Some(true));
    }
    assert forall|w: Version| #[trigger] is_release(w, 0, 7, 1) implies updates_end_within(
        w,
        zero_five,
        2,
    ) by {
        assert(zero_five(w) != Some(true));
    }
    assert forall|w: Version| #[trigger] is_release(w, 0, 7, 0) implies updates_end_within(
        w,
        zero_five,
        3,
    ) by {
        assert(zero_five(w) != Some(true));
    }
    assert forall|w: Version| #[trigger] is_release(w, 0, 6, 3) implies updates_end_within(
        w,
        zero_five,
        4,
    ) by {
        assert(zero_five(w) != Some(true));
    }
}

/// The release that a step gives, as `(major, minor, patch)`; `None` for a step that gives no
/// version.
pub open spec fn step_target(s: StepView) -> Option<(u64, u64, u64)> {
    match s {
        StepView::FromZeroFive(a, b, c) => Some((a, b, c)),
        StepView::To(a, b, c) => Some((a, b, c)),
        StepView::ByHandTo(a, b, c) => Some((a, b, c)),
        StepView::FromZeroSevenOne(a, b, c) => Some((a, b, c)),
        _ => None,
    }
}

/// Whether the version number `(major, minor, patch)` of `v` comes before `t`.
pub open spec fn comes_before(v: Version, t: (u64, u64, u64)) -> bool {
    v.major < t.0 || (v.major == t.0 && (v.minor < t.1 || (v.minor == t.1 && v.patch < t.2)))
}

/// An update step only raises the version number, and there is a step exactly for 0.5.*, 0.6.0,
/// 0.6.1, 0.6.2, 0.6.3, 0.7.0 and 0.7.1: every other version, 0.4.0 among them, gets none. This
/// holds where the answer to `0.5.*` is only `Some(true)` for versions `0.5.x`.
pub proof fn lemma_step_raises_version(v: Version, zero_five: Option<bool>)
    requires
        zero_five == Some(true) ==> v.major == 0 && v.minor == 5,
    ensures
        step_target(step_for(v, zero_five)) matches Some(t) ==> comes_before(v, t),
        step_target(step_for(v, zero_five)) is None <==> has_no_step(v, zero_five),
{
}

/// Whether `(major, minor, patch)` is one of the releases that the update steps lead to, in
/// order: 0.6.3, 0.7.0, 0.7.1 and 0.8.0.
pub open spec fn is_step_release(t: (u64, u64, u64)) -> bool {
    t == (0u64, 6u64, 3u64) || t == (0u64, 7u64, 0u64) || t == (0u64, 7u64, 1u64) || t == (
        0u64,
        8u64,
        0u64,
    )
}

/// Whether the version number `a` comes before `b`.
pub open spec fn triple_before(a: (u64, u64, u64), b: (u64, u64, u64)) -> bool {
    a.0 < b.0 || (a.0 == b.0 && (a.1 < b.1 || (a.1 == b.1 && a.2 < b.2)))
}

/// An update step never skips a release on the way: it gives one of 0.6.3, 0.7.0, 0.7.1 and
/// 0.8.0, after the version it starts from, and no such release lies between the two. So every
/// 0.5.x, 0.6.0, 0.6.1 and 0.6.2 goes to 0.6.3, whose step, and only whose step, is the update
/// by hand to 0.7.0. The update from 0.5 is taken exactly for the versions that satisfy `0.5.*`,
/// and the update from 0.7.1 exactly for 0.7.1. This holds where the answer to `0.5.*` is only
/// `Some(true)` for versions `0.5.x`.
pub proof fn lemma_steps_do_not_skip(v: Version, zero_five: Option<bool>)
    requires
        zero_five == Some(true) ==> v.major == 0 && v.minor == 5,
    ensures
        step_target(step_for(v, zero_five)) matches Some(t) ==> {
            &&& is_step_release(t)
            &&& comes_before(v, t)
            &&& forall|r: (u64, u64, u64)|
                is_step_release(r) && comes_before(v, r) ==> !#[trigger] triple_before(r, t)
        },
        step_for(v, zero_five) is ByHandTo <==> is_release(v, 0, 6, 3),
        step_for(v, zero_five) is FromZeroFive <==> zero_five == Some(true),
        step_for(v, zero_five) is FromZeroSevenOne <==> is_release(v, 0, 7, 1),
{
}

} // verus!
