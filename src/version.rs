use vstd::prelude::*;
use core::cmp::Ordering;
use semver::Op as SemverOp;

verus! {

/// A fully resolved version: three numbers, with the pre-release and build
/// tags kept as text.
#[derive(Clone, Debug)]
pub struct Version {
    pub major: u64,
    pub minor: u64,
    pub patch: u64,
    pub pre: String,
    pub build: String,
}

/// The comparison operator of one comparator of a requirement.
#[derive(Clone, Copy, Debug, PartialEq, Eq, Structural)]
pub enum Op {
    Exact,
    Greater,
    GreaterEq,
    Less,
    LessEq,
    Tilde,
    Caret,
    Wildcard,
    Other,
}

/// One comparator of a requirement, such as `^1.2`.
#[derive(Clone, Debug)]
pub struct Comparator {
    pub op: Op,
    pub major: u64,
    pub minor: Option<u64>,
    pub patch: Option<u64>,
    pub pre: String,
}

/// A requirement: its text, as written, and its comparators.
#[derive(Clone, Debug)]
pub struct Requirement {
    pub text: String,
    pub comparators: Vec<Comparator>,
}

/// The declared version requirement of one dependency.
#[derive(Clone, Debug)]
pub enum VersionSpec {
    Exact(Version),
    Range(Requirement),
    Versionless,
}

/// The mathematical value of a requirement: a range is its text and its
/// comparators.
pub enum VersionView {
    Exact(Version),
    Range(Seq<char>, Seq<Comparator>),
    Versionless,
}

impl View for VersionSpec {
    type V = VersionView;

    open spec fn view(&self) -> VersionView {
        match self {
            VersionSpec::Exact(v) => VersionView::Exact(*v),
            VersionSpec::Range(r) => VersionView::Range(r.text@, r.comparators@),
            VersionSpec::Versionless => VersionView::Versionless,
        }
    }
}

/// What semver's parser makes of a version text.
pub uninterp spec fn parsed_version(s: Seq<char>) -> Option<Version>;

/// What semver's parser makes of a requirement text, comparator by comparator.
pub uninterp spec fn parsed_requirement(s: Seq<char>) -> Option<Seq<Comparator>>;

/// semver's order of two pre-release tags.
pub uninterp spec fn prerelease_order(a: Seq<char>, b: Seq<char>) -> Ordering;

/// Whether semver finds that the version satisfies the requirement text.
pub uninterp spec fn requirement_matches(req: Seq<char>, v: Version) -> bool;

/// Relies on semver::Version::parse: a version text of three numbers with
/// optional tags; the fields are copied out of the parsed value.
#[verifier::external_body]
fn parse_exact(s: &str) -> (r: Option<Version>)
    ensures
        r == parsed_version(s@),
{
    match semver::Version::parse(s) {
        Ok(v) => Some(Version {
            major: v.major,
            minor: v.minor,
            patch: v.patch,
            pre: v.pre.as_str().to_string(),
            build: v.build.as_str().to_string(),
        }),
        Err(_) => None,
    }
}

/// Relies on semver::VersionReq::parse: the comparators of a requirement text,
/// each copied out with its operator and numbers.
#[verifier::external_body]
fn parse_requirement(s: &str) -> (r: Option<Vec<Comparator>>)
    ensures
        r.is_some() == parsed_requirement(s@).is_some(),
        r matches Some(v) ==> parsed_requirement(s@) == Some(v@),
{
    let req = semver::VersionReq::parse(s).ok()?;
    Some(req.comparators.iter().map(|c| Comparator {
        op: match c.op {
            SemverOp::Exact => Op::Exact, SemverOp::Greater => Op::Greater,
            SemverOp::GreaterEq => Op::GreaterEq, SemverOp::Less => Op::Less,
            SemverOp::LessEq => Op::LessEq, SemverOp::Tilde => Op::Tilde,
            SemverOp::Caret => Op::Caret, SemverOp::Wildcard => Op::Wildcard,
            _ => Op::Other,
        },
        major: c.major, minor: c.minor, patch: c.patch, pre: c.pre.as_str().to_string(),
    }).collect())
}

/// Relies on the `Ord` of semver::Prerelease: the precedence of two tags.
#[verifier::external_body]
fn compare_prerelease(a: &str, b: &str) -> (r: Ordering)
    ensures
        r == prerelease_order(a@, b@),
{
    let empty = semver::Prerelease::EMPTY;
    semver::Prerelease::new(a).unwrap_or(empty.clone()).cmp(&semver::Prerelease::new(b).unwrap_or(empty))
}

/// Relies on semver::VersionReq::matches: whether the version satisfies the
/// requirement.
#[verifier::external_body]
fn matches_requirement(req: &str, v: &Version) -> (r: bool)
    ensures
        r == requirement_matches(req@, *v),
{
    let parsed = semver::VersionReq::parse(req);
    let pre = semver::Prerelease::new(&v.pre);
    let build = semver::BuildMetadata::new(&v.build);
    match (parsed, pre, build) {
        (Ok(req), Ok(pre), Ok(build)) => req.matches(&semver::Version {
            major: v.major, minor: v.minor, patch: v.patch, pre, build,
        }),
        _ => false,
    }
}

pub open spec fn cmp_u64(a: u64, b: u64) -> Ordering {
    if a < b {
        Ordering::Less
    } else if a > b {
        Ordering::Greater
    } else {
        Ordering::Equal
    }
}

/// The precedence of exact versions: major, minor, patch, then the
/// pre-release tag; build metadata plays no part.
pub open spec fn version_order(a: Version, b: Version) -> Ordering {
    if a.major != b.major {
        cmp_u64(a.major, b.major)
    } else if a.minor != b.minor {
        cmp_u64(a.minor, b.minor)
    } else if a.patch != b.patch {
        cmp_u64(a.patch, b.patch)
    } else {
        prerelease_order(a.pre@, b.pre@)
    }
}

/// Comparators that are a single caret comparator.
pub open spec fn single_caret(cs: Seq<Comparator>) -> bool {
    cs.len() == 1 && cs[0].op == Op::Caret
}

/// Two single-caret comparators ordered by major, then minor, then patch, an
/// absent part counting as zero; equal ones are incomparable.
pub open spec fn caret_order(a: Comparator, b: Comparator) -> Option<Ordering> {
    let am = a.minor.unwrap_or(0);
    let bm = b.minor.unwrap_or(0);
    let ap = a.patch.unwrap_or(0);
    let bp = b.patch.unwrap_or(0);
    if a.major != b.major {
        Some(cmp_u64(a.major, b.major))
    } else if am != bm {
        Some(cmp_u64(am, bm))
    } else if ap != bp {
        Some(cmp_u64(ap, bp))
    } else {
        None
    }
}

/// The partial order of version requirements.
pub open spec fn spec_order(a: VersionView, b: VersionView) -> Option<Ordering> {
    match (a, b) {
        (VersionView::Versionless, _) => None,
        (_, VersionView::Versionless) => None,
        (VersionView::Exact(x), VersionView::Exact(y)) => Some(version_order(x, y)),
        (VersionView::Exact(v), VersionView::Range(t, _)) => {
            if requirement_matches(t, v) {
                Some(Ordering::Greater)
            } else {
                Some(Ordering::Less)
            }
        },
        (VersionView::Range(t, _), VersionView::Exact(v)) => {
            if requirement_matches(t, v) {
                Some(Ordering::Less)
            } else {
                Some(Ordering::Greater)
            }
        },
        (VersionView::Range(_, x), VersionView::Range(_, y)) => {
            if single_caret(x) && single_caret(y) {
                caret_order(x[0], y[0])
            } else {
                None
            }
        },
    }
}

/// Whether the first requirement is strictly greater than the second.
pub open spec fn spec_greater(a: VersionView, b: VersionView) -> bool {
    spec_order(a, b) == Some(Ordering::Greater)
}

/// The requirement that a version text declares: an exact version where it
/// parses as one, else a range.
pub open spec fn spec_parse(text: Seq<char>) -> Option<VersionView> {
    match parsed_version(text) {
        Some(v) => Some(VersionView::Exact(v)),
        None => match parsed_requirement(text) {
            Some(cs) => Some(VersionView::Range(text, cs)),
            None => None,
        },
    }
}

fn compare_u64(a: u64, b: u64) -> (r: Ordering)
    ensures
        r == cmp_u64(a, b),
{
    if a < b {
        Ordering::Less
    } else if a > b {
        Ordering::Greater
    } else {
        Ordering::Equal
    }
}

impl Version {
    /// Compares two exact versions by precedence.
    pub fn compare(&self, other: &Version) -> (r: Ordering)
        ensures
            r == version_order(*self, *other),
    {
        if self.major != other.major {
            compare_u64(self.major, other.major)
        } else if self.minor != other.minor {
            compare_u64(self.minor, other.minor)
        } else if self.patch != other.patch {
            compare_u64(self.patch, other.patch)
        } else {
            compare_prerelease(self.pre.as_str(), other.pre.as_str())
        }
    }
}

impl Requirement {
    /// Whether the version satisfies this requirement.
    pub fn matches(&self, v: &Version) -> (r: bool)
        ensures
            r == requirement_matches(self.text@, *v),
    {
        matches_requirement(self.text.as_str(), v)
    }
}

fn compare_carets(a: &Comparator, b: &Comparator) -> (r: Option<Ordering>)
    ensures
        r == caret_order(*a, *b),
{
    let am: u64 = match a.minor { Some(m) => m, None => 0 };
    let bm: u64 = match b.minor { Some(m) => m, None => 0 };
    let ap: u64 = match a.patch { Some(p) => p, None => 0 };
    let bp: u64 = match b.patch { Some(p) => p, None => 0 };
    if a.major != b.major {
        Some(compare_u64(a.major, b.major))
    } else if am != bm {
        Some(compare_u64(am, bm))
    } else if ap != bp {
        Some(compare_u64(ap, bp))
    } else {
        None
    }
}

impl VersionSpec {
    /// Parses the version text of a dependency: an exact version where it is
    /// one, else a requirement; `None` where it is neither.
    pub fn parse(text: &str) -> (r: Option<VersionSpec>)
        ensures
            r is None <==> spec_parse(text@) is None,
            r matches Some(v) ==> spec_parse(text@) == Some(v@),
    {
        match parse_exact(text) {
            Some(v) => Some(VersionSpec::Exact(v)),
            None => match parse_requirement(text) {
                Some(comparators) => Some(VersionSpec::Range(Requirement {
                    text: text.to_string(),
                    comparators,
                })),
                None => None,
            },
        }
    }

}

fn same_version(a: &Version, b: &Version) -> (r: bool)
    ensures
        r == version_same(*a, *b),
{
    a.major == b.major && a.minor == b.minor && a.patch == b.patch && a.pre == b.pre && a.build == b.build
}

fn same_comparators(a: &Vec<Comparator>, b: &Vec<Comparator>) -> (r: bool)
    ensures
        r == comparators_same(a@, b@),
{
    if a.len() != b.len() {
        return false;
    }
    let mut i: usize = 0;
    while i < a.len()
        invariant
            a@.len() == b@.len(),
            i <= a@.len(),
            forall|k: int| 0 <= k < i ==> comparator_same(#[trigger] a@[k], b@[k]),
        decreases a@.len() - i,
    {
        let x = &a[i];
        let y = &b[i];
        if !(x.op == y.op && x.major == y.major && x.minor == y.minor && x.patch == y.patch && x.pre == y.pre) {
            return false;
        }
        i += 1;
    }
    true
}

impl PartialEq for VersionSpec {
    /// Exact versions are equal where all their parts are; ranges where their
    /// comparators are; a requirement without a version equals nothing.
    fn eq(&self, other: &VersionSpec) -> (r: bool) {
        match (self, other) {
            (VersionSpec::Exact(x), VersionSpec::Exact(y)) => same_version(x, y),
            (VersionSpec::Range(x), VersionSpec::Range(y)) => same_comparators(&x.comparators, &y.comparators),
            _ => false,
        }
    }
}

impl vstd::std_specs::cmp::PartialEqSpecImpl for VersionSpec {
    open spec fn obeys_eq_spec() -> bool {
        true
    }

    open spec fn eq_spec(&self, other: &VersionSpec) -> bool {
        spec_same(self@, other@)
    }
}

impl PartialOrd for VersionSpec {
    /// The partial order of requirements: `None` where the two are incomparable.
    fn partial_cmp(&self, other: &VersionSpec) -> (r: Option<Ordering>) {
        match (self, other) {
            (VersionSpec::Versionless, _) => None,
            (_, VersionSpec::Versionless) => None,
            (VersionSpec::Exact(x), VersionSpec::Exact(y)) => Some(x.compare(y)),
            (VersionSpec::Exact(v), VersionSpec::Range(r)) => {
                if r.matches(v) {
                    Some(Ordering::Greater)
                } else {
                    Some(Ordering::Less)
                }
            },
            (VersionSpec::Range(r), VersionSpec::Exact(v)) => {
                if r.matches(v) {
                    Some(Ordering::Less)
                } else {
                    Some(Ordering::Greater)
                }
            },
            (VersionSpec::Range(x), VersionSpec::Range(y)) => {
                if x.comparators.len() != 1 || y.comparators.len() != 1 {
                    return None;
                }
                if x.comparators[0].op != Op::Caret || y.comparators[0].op != Op::Caret {
                    return None;
                }
                compare_carets(&x.comparators[0], &y.comparators[0])
            },
        }
    }
}

impl vstd::std_specs::cmp::PartialOrdSpecImpl for VersionSpec {
    open spec fn obeys_partial_cmp_spec() -> bool {
        true
    }

    open spec fn partial_cmp_spec(&self, other: &VersionSpec) -> Option<Ordering> {
        spec_order(self@, other@)
    }
}

pub open spec fn version_same(a: Version, b: Version) -> bool {
    &&& a.major == b.major
    &&& a.minor == b.minor
    &&& a.patch == b.patch
    &&& a.pre@ == b.pre@
    &&& a.build@ == b.build@
}

pub open spec fn comparator_same(a: Comparator, b: Comparator) -> bool {
    &&& a.op == b.op
    &&& a.major == b.major
    &&& a.minor == b.minor
    &&& a.patch == b.patch
    &&& a.pre@ == b.pre@
}

pub open spec fn comparators_same(a: Seq<Comparator>, b: Seq<Comparator>) -> bool {
    &&& a.len() == b.len()
    &&& forall|i: int| 0 <= i < a.len() ==> comparator_same(#[trigger] a[i], b[i])
}

/// Equality of requirements: of all parts of exact versions, of the
/// comparators of ranges; a requirement without a version equals nothing.
pub open spec fn spec_same(a: VersionView, b: VersionView) -> bool {
    match (a, b) {
        (VersionView::Exact(x), VersionView::Exact(y)) => version_same(x, y),
        (VersionView::Range(_, x), VersionView::Range(_, y)) => comparators_same(x, y),
        _ => false,
    }
}

/// The numeric order of the three numbers of a version.
pub open spec fn numeric_order(a: Version, b: Version) -> Ordering {
    if a.major != b.major {
        cmp_u64(a.major, b.major)
    } else if a.minor != b.minor {
        cmp_u64(a.minor, b.minor)
    } else {
        cmp_u64(a.patch, b.patch)
    }
}

/// Any two exact versions are comparable, and where their numbers differ they
/// are ordered by major, then minor, then patch.
pub proof fn lemma_exact_versions_ordered(a: Version, b: Version)
    ensures
        spec_order(VersionView::Exact(a), VersionView::Exact(b)) is Some,
        (a.major, a.minor, a.patch) != (b.major, b.minor, b.patch)
            ==> spec_order(VersionView::Exact(a), VersionView::Exact(b)) == Some(numeric_order(a, b)),
{
}

/// Two single-caret ranges whose major, minor and patch agree, an absent part
/// counting as zero, are incomparable.
pub proof fn lemma_equal_carets_incomparable(t1: Seq<char>, c1: Seq<Comparator>, t2: Seq<char>, c2: Seq<Comparator>)
    requires
        single_caret(c1),
        single_caret(c2),
        c1[0].major == c2[0].major,
        c1[0].minor.unwrap_or(0) == c2[0].minor.unwrap_or(0),
        c1[0].patch.unwrap_or(0) == c2[0].patch.unwrap_or(0),
    ensures
        spec_order(VersionView::Range(t1, c1), VersionView::Range(t2, c2)) is None,
{
}

pub open spec fn reverse(o: Option<Ordering>) -> Option<Ordering> {
    match o {
        Some(Ordering::Less) => Some(Ordering::Greater),
        Some(Ordering::Greater) => Some(Ordering::Less),
        other => other,
    }
}

/// Swapping two requirements reverses their order, unless both are exact
/// versions (whose numbers alone still obey it), so that no two requirements
/// are each greater than the other.
pub proof fn lemma_order_antisymmetric(a: VersionView, b: VersionView)
    ensures
        !(a is Exact && b is Exact) ==> spec_order(b, a) == reverse(spec_order(a, b)),
        (a matches VersionView::Exact(x) && b matches VersionView::Exact(y)
            && (x.major, x.minor, x.patch) != (y.major, y.minor, y.patch))
            ==> spec_order(b, a) == reverse(spec_order(a, b)),
{
}

/// A requirement without a version is incomparable with every requirement, on
/// either side, so it is never strictly greater nor strictly less.
pub proof fn lemma_versionless_incomparable(a: VersionView)
    ensures
        spec_order(VersionView::Versionless, a) is None,
        spec_order(a, VersionView::Versionless) is None,
        !spec_greater(VersionView::Versionless, a),
        !spec_greater(a, VersionView::Versionless),
{
}

} // verus!
