use vstd::prelude::*;
use toml_edit::{Item, Value};
use crate::version::{lemma_versionless_incomparable, spec_greater, spec_parse, VersionSpec, VersionView};

verus! {

#[verifier::external_type_specification]
#[verifier::external_body]
pub struct ExDocument(toml_edit::Document);

#[verifier::external_type_specification]
#[verifier::external_body]
pub struct ExTomlError(toml_edit::TomlError);

#[verifier::external_type_specification]
#[verifier::external_body]
pub struct ExItem(toml_edit::Item);

/// Which of the two revisions of a manifest.
#[derive(Clone, Copy, Debug, PartialEq, Eq, Structural)]
pub enum Side {
    Local,
    Remote,
}

/// The version-bearing part of one entry of the dependency table.
#[derive(Clone, Debug)]
pub enum EntryVersion {
    /// A bare version string, or an inline table whose `version` is a string.
    Text(String),
    /// An inline table without a `version` key.
    Missing,
    /// An inline table whose `version` is not a string.
    NotText,
    /// Any other shape of value.
    Unsupported,
}

/// The shape of a table item, as far as a dependency entry needs it.
#[derive(Clone, Debug)]
pub enum ItemShape {
    /// A string value, with its text.
    Str(String),
    /// An inline table.
    Inline,
    /// Anything else.
    Other,
}

/// What an inline table holds under one key.
#[derive(Clone, Debug)]
pub enum InlineValue {
    /// A string value, with its text.
    Str(String),
    /// A value of another kind.
    Other,
    /// No value.
    Absent,
}

/// One entry of the dependency table: its key and its whole item, auxiliary
/// keys and formatting included.
#[derive(Debug)]
pub struct Entry {
    pub name: String,
    pub item: Item,
}

/// A dependency read from a manifest: its name and declared requirement.
#[derive(Clone, Debug)]
pub struct Dependency {
    pub name: String,
    pub version: VersionSpec,
}

/// Why two manifests could not be merged.
#[derive(Clone, Debug, PartialEq, Eq)]
pub enum MergeError {
    /// The text of that side is not a TOML document.
    Syntax(Side),
    /// That side has no `[dependencies]` table.
    NoDependencyTable(Side),
    /// The named entry of that side declares no valid version.
    BadVersion(Side, String),
}

/// What toml_edit parses a text into.
pub uninterp spec fn document_of(s: Seq<char>) -> Option<toml_edit::Document>;

/// A document whose root is a table and whose tables hold no empty slot, as
/// every parsed document is.
pub uninterp spec fn well_formed(d: toml_edit::Document) -> bool;

/// The entries of the top-level table under `key`, in table order, each with
/// its whole item; `None` where there is no such table.
pub uninterp spec fn table_listing(d: toml_edit::Document, key: Seq<char>) -> Option<Seq<Entry>>;

/// All of the document but the entries of the top-level table under `key`.
pub uninterp spec fn other_content(d: toml_edit::Document, key: Seq<char>) -> toml_edit::Document;

/// The text toml_edit writes for a document.
pub uninterp spec fn rendered(d: toml_edit::Document) -> Seq<char>;

/// The shape of an item.
pub uninterp spec fn shape_of(i: Item) -> ItemShape;

/// What an inline-table item holds under a key.
pub uninterp spec fn inline_value(i: Item, key: Seq<char>) -> InlineValue;

/// The key of the dependency table.
pub open spec fn deps_key() -> Seq<char> {
    "dependencies"@
}

/// The entries of the dependency table.
pub open spec fn dependency_listing(d: toml_edit::Document) -> Option<Seq<Entry>> {
    table_listing(d, deps_key())
}

pub open spec fn has_name(l: Seq<Entry>, n: Seq<char>) -> bool {
    exists|j: int| 0 <= j < l.len() && l[j].name@ == n
}

pub open spec fn index_of(l: Seq<Entry>, n: Seq<char>) -> int {
    choose|j: int| 0 <= j < l.len() && l[j].name@ == n
}

pub open spec fn distinct_names(l: Seq<Entry>) -> bool {
    forall|i: int, j: int| 0 <= i < l.len() && 0 <= j < l.len() && i != j ==> l[i].name@ != l[j].name@
}

/// The listing with the entry put in: in place of the entry of that name,
/// or at the end where there is none.
pub open spec fn with_entry(l: Seq<Entry>, e: Entry) -> Seq<Entry> {
    if has_name(l, e.name@) {
        l.update(index_of(l, e.name@), e)
    } else {
        l.push(e)
    }
}

/// Relies on `str::parse::<toml_edit::Document>`, which yields a root table
/// and leaves no empty slot in any table.
#[verifier::external_body]
fn parse_document(s: &str) -> (r: Result<toml_edit::Document, toml_edit::TomlError>)
    ensures
        r is Ok <==> document_of(s@) is Some,
        r matches Ok(d) ==> document_of(s@) == Some(d) && well_formed(d),
{
    s.parse::<toml_edit::Document>()
}

/// Relies on toml_edit's `Document::as_table`, `Table::get`, `Item::as_table`
/// and `Table::iter`: the entries of the table under `key`, in order, each key
/// once, each item cloned.
#[verifier::external_body]
fn listing_of(doc: &toml_edit::Document, key: &str) -> (r: Option<Vec<Entry>>)
    requires
        well_formed(*doc),
    ensures
        r is Some <==> table_listing(*doc, key@) is Some,
        r matches Some(v) ==> table_listing(*doc, key@) == Some(v@) && distinct_names(v@),
{
    let table = doc.as_table().get(key)?.as_table()?;
    Some(table.iter().map(|(name, item)| Entry { name: name.to_string(), item: item.clone() }).collect())
}

/// Relies on matching toml_edit's `Item` and `Value` variants.
#[verifier::external_body]
fn item_shape(item: &Item) -> (r: ItemShape)
    ensures
        r == shape_of(*item),
{
    match item {
        Item::Value(Value::String(s)) => ItemShape::Str(s.value().clone()),
        Item::Value(Value::InlineTable(_)) => ItemShape::Inline,
        _ => ItemShape::Other,
    }
}

/// Relies on toml_edit's `InlineTable::get`.
#[verifier::external_body]
fn inline_get(item: &Item, key: &str) -> (r: InlineValue)
    ensures
        r == inline_value(*item, key@),
{
    match item {
        Item::Value(Value::InlineTable(t)) => match t.get(key) {
            Some(Value::String(s)) => InlineValue::Str(s.value().clone()),
            Some(_) => InlineValue::Other,
            None => InlineValue::Absent,
        },
        _ => InlineValue::Absent,
    }
}

/// Relies on toml_edit's indexing of a `Document`: the entry `name` of the
/// table `key` of `src` is cloned into the table `key` of `doc`, in place of
/// the entry of that name or else at the end; nothing else of `doc` changes.
#[verifier::external_body]
fn copy_entry(doc: &mut toml_edit::Document, src: &toml_edit::Document, key: &str, name: &str)
    requires
        well_formed(*old(doc)),
        well_formed(*src),
        table_listing(*old(doc), key@) is Some,
        table_listing(*src, key@) is Some,
        has_name(table_listing(*src, key@)->Some_0, name@),
    ensures
        well_formed(*final(doc)),
        other_content(*final(doc), key@) == other_content(*old(doc), key@),
        table_listing(*final(doc), key@) == Some(with_entry(
            table_listing(*old(doc), key@)->Some_0,
            table_listing(*src, key@)->Some_0[index_of(table_listing(*src, key@)->Some_0, name@)],
        )),
{
    doc[key][name] = src[key][name].clone();
}

/// Relies on the `Display` of toml_edit::Document.
#[verifier::external_body]
fn render(doc: &toml_edit::Document) -> (r: String)
    requires
        well_formed(*doc),
    ensures
        r@ == rendered(*doc),
{
    doc.to_string()
}

/// The version part of an item: the string itself, or the `version` of an
/// inline table.
pub open spec fn classify(i: Item) -> EntryVersion {
    match shape_of(i) {
        ItemShape::Str(t) => EntryVersion::Text(t),
        ItemShape::Inline => match inline_value(i, "version"@) {
            InlineValue::Str(t) => EntryVersion::Text(t),
            InlineValue::Other => EntryVersion::NotText,
            InlineValue::Absent => EntryVersion::Missing,
        },
        ItemShape::Other => EntryVersion::Unsupported,
    }
}

/// Reads the version part of an item.
pub fn classify_item(item: &Item) -> (r: EntryVersion)
    ensures
        r == classify(*item),
{
    match item_shape(item) {
        ItemShape::Str(t) => EntryVersion::Text(t),
        ItemShape::Inline => {
            let v = inline_get(item, "version");
            proof {
                reveal_strlit("version");
            }
            match v {
                InlineValue::Str(t) => EntryVersion::Text(t),
                InlineValue::Other => EntryVersion::NotText,
                InlineValue::Absent => EntryVersion::Missing,
            }
        },
        ItemShape::Other => EntryVersion::Unsupported,
    }
}

/// The requirement an entry declares; `None` where it declares no valid one.
pub open spec fn entry_spec(e: Entry) -> Option<VersionView> {
    match classify(e.item) {
        EntryVersion::Text(t) => spec_parse(t@),
        EntryVersion::Missing => Some(VersionView::Versionless),
        _ => None,
    }
}

pub open spec fn entries_valid(l: Seq<Entry>) -> bool {
    forall|i: int| 0 <= i < l.len() ==> entry_spec(#[trigger] l[i]) is Some
}

/// Whether the local entry wins over the remote one: only where its
/// requirement is strictly greater.
pub open spec fn local_wins(le: Entry, re: Entry) -> bool {
    spec_greater(entry_spec(le)->Some_0, entry_spec(re)->Some_0)
}

/// The merged entry for a local entry.
pub open spec fn merged_entry(le: Entry, rl: Seq<Entry>) -> Entry {
    if has_name(rl, le.name@) {
        let re = rl[index_of(rl, le.name@)];
        if local_wins(le, re) {
            le
        } else {
            re
        }
    } else {
        le
    }
}

/// The entries among the first `n` remote ones whose name the local side lacks.
pub open spec fn remote_only(ll: Seq<Entry>, rl: Seq<Entry>, n: nat) -> Seq<Entry>
    decreases n,
{
    if n == 0 {
        Seq::empty()
    } else {
        let prev = remote_only(ll, rl, (n - 1) as nat);
        if has_name(ll, rl[n - 1].name@) {
            prev
        } else {
            prev.push(rl[n - 1])
        }
    }
}

/// The merged dependency table: each local entry in its place, replaced by the
/// remote one of the same name unless the local one is strictly greater, then
/// the remote-only entries in remote order.
pub open spec fn merged_listing(ll: Seq<Entry>, rl: Seq<Entry>) -> Seq<Entry> {
    Seq::new(ll.len(), |i: int| merged_entry(ll[i], rl)) + remote_only(ll, rl, rl.len())
}

/// Whether a text is a manifest that can be merged.
pub open spec fn manifest_ok(s: Seq<char>) -> bool {
    &&& document_of(s) is Some
    &&& dependency_listing(document_of(s)->Some_0) is Some
    &&& entries_valid(dependency_listing(document_of(s)->Some_0)->Some_0)
}

pub open spec fn listing_of_text(s: Seq<char>) -> Seq<Entry> {
    dependency_listing(document_of(s)->Some_0)->Some_0
}

/// Dependencies that carry, in order, the names and requirements of the entries.
pub open spec fn deps_match(v: Seq<Dependency>, l: Seq<Entry>) -> bool {
    &&& v.len() == l.len()
    &&& forall|i: int| 0 <= i < l.len() ==> (#[trigger] v[i]).name@ == l[i].name@ && entry_spec(l[i]) == Some(v[i].version@)
}

/// Reads the requirement of one entry of the dependency table.
pub fn parse_dependency(e: &Entry) -> (r: Option<Dependency>)
    ensures
        r is Some <==> entry_spec(*e) is Some,
        r matches Some(d) ==> d.name@ == e.name@ && entry_spec(*e) == Some(d.version@),
{
    let version = match classify_item(&e.item) {
        EntryVersion::Text(t) => VersionSpec::parse(t.as_str()),
        EntryVersion::Missing => Some(VersionSpec::Versionless),
        _ => None,
    };
    match version {
        Some(v) => Some(Dependency { name: e.name.clone(), version: v }),
        None => None,
    }
}

/// Reads the dependency table of one side's document.
fn extract_deps(doc: &toml_edit::Document, side: Side) -> (r: Result<Vec<Dependency>, MergeError>)
    requires
        well_formed(*doc),
    ensures
        dependency_listing(*doc) is None ==> r == Err::<Vec<Dependency>, MergeError>(MergeError::NoDependencyTable(side)),
        dependency_listing(*doc) matches Some(l) ==> {
            &&& (r is Ok <==> entries_valid(l))
            &&& (r matches Ok(v) ==> deps_match(v@, l) && distinct_names(l))
            &&& (r matches Err(e) ==> exists|i: int| 0 <= i < l.len() && entry_spec(l[i]) is None && e == MergeError::BadVersion(side, l[i].name))
        },
{
    let entries = match listing_of(doc, "dependencies") {
        Some(l) => l,
        None => return Err(MergeError::NoDependencyTable(side)),
    };
    let ghost l = entries@;
    let mut deps: Vec<Dependency> = Vec::new();
    let mut i: usize = 0;
    while i < entries.len()
        invariant
            l == entries@,
            dependency_listing(*doc) == Some(l),
            distinct_names(l),
            i <= l.len(),
            deps@.len() == i,
            forall|k: int| 0 <= k < i ==> (#[trigger] deps@[k]).name@ == l[k].name@ && entry_spec(l[k]) == Some(deps@[k].version@),
            forall|k: int| 0 <= k < i ==> entry_spec(#[trigger] l[k]) is Some,
        decreases l.len() - i,
    {
        match parse_dependency(&entries[i]) {
            Some(d) => deps.push(d),
            None => return Err(MergeError::BadVersion(side, entries[i].name.clone())),
        }
        i += 1;
    }
    Ok(deps)
}

/// The index of the dependency of that name, if there is one.
pub fn find_dependency(deps: &Vec<Dependency>, name: &String) -> (r: Option<usize>)
    ensures
        r matches Some(j) ==> j < deps@.len() && deps@[j as int].name@ == name@,
        r is None ==> forall|j: int| 0 <= j < deps@.len() ==> (#[trigger] deps@[j]).name@ != name@,
{
    let mut j: usize = 0;
    while j < deps.len()
        invariant
            j <= deps@.len(),
            forall|k: int| 0 <= k < j ==> (#[trigger] deps@[k]).name@ != name@,
        decreases deps@.len() - j,
    {
        if deps[j].name == *name {
            return Some(j);
        }
        j += 1;
    }
    None
}

proof fn lemma_index_of(l: Seq<Entry>, j: int)
    requires
        distinct_names(l),
        0 <= j < l.len(),
    ensures
        has_name(l, l[j].name@),
        index_of(l, l[j].name@) == j,
{
    assert(has_name(l, l[j].name@));
}

proof fn lemma_remote_only_from(ll: Seq<Entry>, rl: Seq<Entry>, n: nat)
    requires
        n <= rl.len(),
    ensures
        forall|k: int| 0 <= k < remote_only(ll, rl, n).len() ==> exists|m: int| 0 <= m < n && #[trigger] remote_only(ll, rl, n)[k] == rl[m] && !has_name(ll, rl[m].name@),
    decreases n,
{
    if n > 0 {
        lemma_remote_only_from(ll, rl, (n - 1) as nat);
        let prev = remote_only(ll, rl, (n - 1) as nat);
        assert forall|k: int| 0 <= k < remote_only(ll, rl, n).len() implies exists|m: int| 0 <= m < n && #[trigger] remote_only(ll, rl, n)[k] == rl[m] && !has_name(ll, rl[m].name@) by {
            if k < prev.len() {
                let m = choose|m: int| 0 <= m < n - 1 && #[trigger] prev[k] == rl[m] && !has_name(ll, rl[m].name@);
                assert(remote_only(ll, rl, n)[k] == rl[m]);
            } else {
                assert(remote_only(ll, rl, n)[k] == rl[n - 1]);
            }
        }
    }
}

/// Merges two revisions of a manifest. The result is written from a document
/// that is the local one outside its dependency table, and whose dependency
/// table is the merged listing: every dependency of either side, with the whole
/// item of the side it is taken from, the local side only where its
/// requirement is strictly greater.
pub fn merge(local: &str, remote: &str) -> (r: Result<String, MergeError>)
    ensures
        document_of(local@) is None ==> r == Err::<String, MergeError>(MergeError::Syntax(Side::Local)),
        document_of(local@) is Some && dependency_listing(document_of(local@)->Some_0) is None
            ==> r == Err::<String, MergeError>(MergeError::NoDependencyTable(Side::Local)),
        document_of(local@) is Some && dependency_listing(document_of(local@)->Some_0) is Some && !entries_valid(listing_of_text(local@))
            ==> r matches Err(MergeError::BadVersion(Side::Local, _)),
        manifest_ok(local@) && document_of(remote@) is None ==> r == Err::<String, MergeError>(MergeError::Syntax(Side::Remote)),
        manifest_ok(local@) && document_of(remote@) is Some && dependency_listing(document_of(remote@)->Some_0) is None
            ==> r == Err::<String, MergeError>(MergeError::NoDependencyTable(Side::Remote)),
        manifest_ok(local@) && document_of(remote@) is Some && dependency_listing(document_of(remote@)->Some_0) is Some && !entries_valid(listing_of_text(remote@))
            ==> r matches Err(MergeError::BadVersion(Side::Remote, _)),
        r is Ok <==> manifest_ok(local@) && manifest_ok(remote@),
        r is Ok ==> distinct_names(listing_of_text(local@)) && distinct_names(listing_of_text(remote@)),
        r matches Ok(out) ==> exists|d: toml_edit::Document| {
            &&& rendered(d) == out@
            &&& other_content(d, deps_key()) == other_content(document_of(local@)->Some_0, deps_key())
            &&& dependency_listing(d) == Some(merged_listing(listing_of_text(local@), listing_of_text(remote@)))
        },
{
    let mut doc = match parse_document(local) {
        Ok(d) => d,
        Err(_) => return Err(MergeError::Syntax(Side::Local)),
    };
    let ld = extract_deps(&doc, Side::Local)?;
    let rdoc = match parse_document(remote) {
        Ok(d) => d,
        Err(_) => return Err(MergeError::Syntax(Side::Remote)),
    };
    let rd = extract_deps(&rdoc, Side::Remote)?;
    proof {
        reveal_strlit("dependencies");
    }
    let ghost ll = listing_of_text(local@);
    let ghost rl = listing_of_text(remote@);
    let ghost part1 = Seq::new(ll.len(), |k: int| merged_entry(ll[k], rl));

    let mut i: usize = 0;
    while i < ld.len()
        invariant
            deps_match(ld@, ll),
            deps_match(rd@, rl),
            distinct_names(ll),
            distinct_names(rl),
            dependency_listing(rdoc) == Some(rl),
            i <= ll.len(),
            well_formed(doc),
            well_formed(rdoc),
            other_content(doc, deps_key()) == other_content(document_of(local@)->Some_0, deps_key()),
            dependency_listing(doc) is Some,
            dependency_listing(doc)->Some_0.len() == ll.len(),
            forall|k: int| 0 <= k < ll.len() ==> #[trigger] dependency_listing(doc)->Some_0[k] == if k < i { merged_entry(ll[k], rl) } else { ll[k] },
            part1 == Seq::new(ll.len(), |k: int| merged_entry(ll[k], rl)),
        decreases ll.len() - i,
    {
        let ghost cur = dependency_listing(doc)->Some_0;
        assert forall|k: int| 0 <= k < ll.len() implies (#[trigger] cur[k]).name@ == ll[k].name@ by {
            if k < i && has_name(rl, ll[k].name@) {
                let m = index_of(rl, ll[k].name@);
            }
        }
        assert(distinct_names(cur));
        match find_dependency(&rd, &ld[i].name) {
            Some(j) => {
                proof {
                    lemma_index_of(rl, j as int);
                    lemma_index_of(cur, i as int);
                }
                if !(ld[i].version > rd[j].version) {
                    copy_entry(&mut doc, &rdoc, "dependencies", rd[j].name.as_str());
                }
            },
            None => {
                assert forall|m: int| 0 <= m < rl.len() implies rl[m].name@ != ll[i as int].name@ by {
                    assert(rd@[m].name@ == rl[m].name@);
                }
                assert(ld@[i as int].name@ == ll[i as int].name@);
                assert(!has_name(rl, ll[i as int].name@));
            },
        }
        i += 1;
    }
    assert(dependency_listing(doc)->Some_0 =~= part1);

    let mut j: usize = 0;
    while j < rd.len()
        invariant
            deps_match(ld@, ll),
            deps_match(rd@, rl),
            distinct_names(ll),
            distinct_names(rl),
            dependency_listing(rdoc) == Some(rl),
            j <= rl.len(),
            well_formed(doc),
            well_formed(rdoc),
            other_content(doc, deps_key()) == other_content(document_of(local@)->Some_0, deps_key()),
            part1 == Seq::new(ll.len(), |k: int| merged_entry(ll[k], rl)),
            dependency_listing(doc) == Some(part1 + remote_only(ll, rl, j as nat)),
        decreases rl.len() - j,
    {
        match find_dependency(&ld, &rd[j].name) {
            Some(_) => {
                assert(has_name(ll, rl[j as int].name@));
            },
            None => {
                let ghost cur = dependency_listing(doc)->Some_0;
                proof {
                    lemma_remote_only_from(ll, rl, j as nat);
                    assert forall|m: int| 0 <= m < ll.len() implies ll[m].name@ != rl[j as int].name@ by {
                        assert(ld@[m].name@ == ll[m].name@);
                    }
                    assert(rd@[j as int].name@ == rl[j as int].name@);
                    assert(!has_name(ll, rl[j as int].name@));
                    assert(!has_name(cur, rl[j as int].name@)) by {
                        if has_name(cur, rl[j as int].name@) {
                            let k = choose|k: int| 0 <= k < cur.len() && cur[k].name@ == rl[j as int].name@;
                            if k < ll.len() {
                                if has_name(rl, ll[k].name@) {
                                    let m = index_of(rl, ll[k].name@);
                                }
                                assert(cur[k].name@ == ll[k].name@);
                            } else {
                                let ro = remote_only(ll, rl, j as nat);
                                assert(cur[k] == ro[k - ll.len()]);
                                let m = choose|m: int| 0 <= m < j && #[trigger] ro[k - ll.len()] == rl[m] && !has_name(ll, rl[m].name@);
                            }
                        }
                    }
                    lemma_index_of(rl, j as int);
                }
                copy_entry(&mut doc, &rdoc, "dependencies", rd[j].name.as_str());
                assert(dependency_listing(doc)->Some_0 =~= part1 + remote_only(ll, rl, (j + 1) as nat));
            },
        }
        j += 1;
    }
    Ok(render(&doc))
}

proof fn lemma_remote_only_has(ll: Seq<Entry>, rl: Seq<Entry>, n: nat, j: int)
    requires
        n <= rl.len(),
        0 <= j < n,
        !has_name(ll, rl[j].name@),
    ensures
        remote_only(ll, rl, n).contains(rl[j]),
    decreases n,
{
    if j < n - 1 {
        lemma_remote_only_has(ll, rl, (n - 1) as nat, j);
        let prev = remote_only(ll, rl, (n - 1) as nat);
        let k = choose|k: int| 0 <= k < prev.len() && prev[k] == rl[j];
        assert(remote_only(ll, rl, n)[k] == rl[j]);
    } else {
        assert(remote_only(ll, rl, n).last() == rl[j]);
    }
}

proof fn lemma_remote_only_none(l: Seq<Entry>, n: nat)
    requires
        n <= l.len(),
    ensures
        remote_only(l, l, n).len() == 0,
    decreases n,
{
    if n > 0 {
        lemma_remote_only_none(l, (n - 1) as nat);
        assert(has_name(l, l[n - 1].name@));
    }
}

/// An entry whose name only one side has is merged unchanged, its whole item
/// included: a local one in its place, a remote one among the merged entries.
pub proof fn lemma_one_sided_entries_kept(ll: Seq<Entry>, rl: Seq<Entry>)
    ensures
        forall|i: int| 0 <= i < ll.len() && !has_name(rl, ll[i].name@) ==> #[trigger] merged_listing(ll, rl)[i] == ll[i],
        forall|j: int| 0 <= j < rl.len() && !has_name(ll, rl[j].name@) ==> merged_listing(ll, rl).contains(#[trigger] rl[j]),
{
    assert forall|j: int| 0 <= j < rl.len() && !has_name(ll, rl[j].name@) implies merged_listing(ll, rl).contains(#[trigger] rl[j]) by {
        lemma_remote_only_has(ll, rl, rl.len(), j);
        let ro = remote_only(ll, rl, rl.len());
        let k = choose|k: int| 0 <= k < ro.len() && ro[k] == rl[j];
        assert(merged_listing(ll, rl)[ll.len() + k] == rl[j]);
    }
}

/// Merging a dependency table with itself gives the same entries back, with
/// the same items, in the same order.
pub proof fn lemma_merge_with_itself(l: Seq<Entry>)
    requires
        distinct_names(l),
    ensures
        merged_listing(l, l) == l,
{
    lemma_remote_only_none(l, l.len());
    assert forall|i: int| 0 <= i < l.len() implies merged_entry(l[i], l) == l[i] by {
        lemma_index_of(l, i);
    }
    assert(merged_listing(l, l) =~= l);
}

/// Where either side declares no version, the remote entry, with its whole
/// item, is the one merged.
pub proof fn lemma_versionless_takes_remote(le: Entry, rl: Seq<Entry>)
    requires
        has_name(rl, le.name@),
        entry_spec(le) == Some(VersionView::Versionless)
            || entry_spec(rl[index_of(rl, le.name@)]) == Some(VersionView::Versionless),
    ensures
        merged_entry(le, rl) == rl[index_of(rl, le.name@)],
{
    lemma_versionless_incomparable(entry_spec(le)->Some_0);
    lemma_versionless_incomparable(entry_spec(rl[index_of(rl, le.name@)])->Some_0);
}

} // verus!
