//! The manifest transformer: derives the isolated build descriptor from the
//! host project's `Cargo.toml`.
//!
//! The descriptor is read into [`TomlItem`], a tree that takes strings, arrays
//! and tables apart and carries every other TOML value whole. Its meaning is
//! [`TomlNode`], and every rule of the transformation is stated over that view.
use vstd::prelude::*;

use crate::KAUMA_SHARED_LIB_NAME;

verus! {

#[verifier::external_type_specification]
#[verifier::external_body]
pub struct ExTomlValue(toml::Value);

#[verifier::external_type_specification]
#[verifier::external_body]
pub struct ExTomlDeError(toml::de::Error);

#[verifier::external_type_specification]
#[verifier::external_body]
pub struct ExTomlSerError(toml::ser::Error);

/// A TOML value as the transformer reads it.
pub enum TomlItem {
    /// A string.
    Text(String),
    /// An array of values.
    Array(Vec<TomlItem>),
    /// A table: its keys with their values.
    Table(Vec<(String, TomlItem)>),
    /// Any other value (integer, float, boolean, date), carried unchanged.
    Scalar(toml::Value),
}

/// The mathematical meaning of a [`TomlItem`].
pub enum TomlNode {
    Text(Seq<char>),
    Array(Seq<TomlNode>),
    Table(Seq<(Seq<char>, TomlNode)>),
    Scalar(toml::Value),
}

pub open spec fn node_of(item: TomlItem) -> TomlNode
    decreases item,
{
    match item {
        TomlItem::Text(s) => TomlNode::Text(s@),
        TomlItem::Array(v) => TomlNode::Array(
            Seq::new(
                v.len() as nat,
                |i: int|
                    if 0 <= i < v.len() {
                        node_of(v[i])
                    } else {
                        TomlNode::Text(Seq::empty())
                    },
            ),
        ),
        TomlItem::Table(v) => TomlNode::Table(
            Seq::new(
                v.len() as nat,
                |i: int|
                    if 0 <= i < v.len() {
                        (v[i].0@, node_of(v[i].1))
                    } else {
                        (Seq::empty(), TomlNode::Text(Seq::empty()))
                    },
            ),
        ),
        TomlItem::Scalar(x) => TomlNode::Scalar(x),
    }
}

/// The meaning of a table's entries.
pub open spec fn entries_view(v: Seq<(String, TomlItem)>) -> Seq<(Seq<char>, TomlNode)> {
    Seq::new(v.len(), |i: int| (v[i].0@, node_of(v[i].1)))
}

/// `i` is the first position of `key` in `t`.
pub open spec fn is_first_entry(t: Seq<(Seq<char>, TomlNode)>, key: Seq<char>, i: int) -> bool {
    &&& 0 <= i < t.len()
    &&& t[i].0 == key
    &&& forall|j: int| 0 <= j < i ==> t[j].0 != key
}

/// The position of `key` in `t`, or -1 where `t` has no such key.
pub open spec fn entry_index(t: Seq<(Seq<char>, TomlNode)>, key: Seq<char>) -> int {
    if exists|i: int| is_first_entry(t, key, i) {
        choose|i: int| is_first_entry(t, key, i)
    } else {
        -1
    }
}

/// `t` with `key` bound to `v`: the first entry of that key takes the value,
/// or the pair is appended.
pub open spec fn with_entry(t: Seq<(Seq<char>, TomlNode)>, key: Seq<char>, v: TomlNode) -> Seq<
    (Seq<char>, TomlNode),
> {
    let i = entry_index(t, key);
    if i >= 0 {
        t.update(i, (key, v))
    } else {
        t.push((key, v))
    }
}

/// The package name of the isolated artifact.
pub open spec fn shared_lib_name() -> Seq<char> {
    KAUMA_SHARED_LIB_NAME@
}

/// The `[package]` table renamed to the artifact's name, where it is a table.
pub open spec fn renamed_package(doc: Seq<(Seq<char>, TomlNode)>) -> Seq<(Seq<char>, TomlNode)> {
    let i = entry_index(doc, "package"@);
    if i >= 0 && doc[i].1 is Table {
        doc.update(
            i,
            (doc[i].0, TomlNode::Table(with_entry(doc[i].1->Table_0, "name"@, TomlNode::Text(shared_lib_name())))),
        )
    } else {
        doc
    }
}

/// A path seen from two directories deeper: absolute paths stay.
pub open spec fn relocated_path(p: Seq<char>) -> Seq<char> {
    if p.len() > 0 && p[0] == '/' {
        p
    } else {
        "../../"@ + p
    }
}

/// A dependency whose `path` is a string gets that path relocated.
pub open spec fn relocated_dependency(n: TomlNode) -> TomlNode {
    match n {
        TomlNode::Table(t) => {
            let j = entry_index(t, "path"@);
            if j >= 0 && t[j].1 is Text {
                TomlNode::Table(t.update(j, (t[j].0, TomlNode::Text(relocated_path(t[j].1->Text_0)))))
            } else {
                n
            }
        },
        _ => n,
    }
}

/// Every entry of a dependency table relocated.
pub open spec fn relocated_dependency_table(t: Seq<(Seq<char>, TomlNode)>) -> Seq<(Seq<char>, TomlNode)> {
    Seq::new(t.len(), |k: int| (t[k].0, relocated_dependency(t[k].1)))
}

/// The `[dependencies]` table with relative paths relocated, where it is a table.
pub open spec fn relocated_dependencies(doc: Seq<(Seq<char>, TomlNode)>) -> Seq<(Seq<char>, TomlNode)> {
    let i = entry_index(doc, "dependencies"@);
    if i >= 0 && doc[i].1 is Table {
        doc.update(i, (doc[i].0, TomlNode::Table(relocated_dependency_table(doc[i].1->Table_0))))
    } else {
        doc
    }
}

/// `[lib]`: a dynamically loadable library whose entry is the host's entry module.
pub open spec fn lib_section() -> TomlNode {
    TomlNode::Table(
        seq![
            ("crate-type"@, TomlNode::Array(seq![TomlNode::Text("cdylib"@)])),
            ("path"@, TomlNode::Text("src/main.rs"@)),
        ],
    )
}

/// The isolated build descriptor derived from a project descriptor.
pub open spec fn isolated_manifest(doc: Seq<(Seq<char>, TomlNode)>) -> Seq<(Seq<char>, TomlNode)> {
    with_entry(relocated_dependencies(renamed_package(doc)), "lib"@, lib_section())
}

proof fn lemma_first_entry(t: Seq<(Seq<char>, TomlNode)>, key: Seq<char>, i: int)
    requires
        is_first_entry(t, key, i),
    ensures
        entry_index(t, key) == i,
{
    let k = choose|k: int| is_first_entry(t, key, k);
    assert(is_first_entry(t, key, k));
    if k < i {
        assert(t[k].0 != key);
    } else if k > i {
        assert(t[i].0 != key);
    }
}

/// The position of the first entry of `t` under `key`.
pub fn entry_position(t: &Vec<(String, TomlItem)>, key: &String) -> (r: Option<usize>)
    ensures
        match r {
            Some(i) => entry_index(entries_view(t@), key@) == i,
            None => entry_index(entries_view(t@), key@) == -1,
        },
{
    let ghost tv = entries_view(t@);
    let mut i: usize = 0;
    while i < t.len()
        invariant
            i <= t.len(),
            tv == entries_view(t@),
            forall|j: int| 0 <= j < i ==> tv[j].0 != key@,
        decreases t.len() - i,
    {
        if t[i].0 == *key {
            proof {
                lemma_first_entry(tv, key@, i as int);
            }
            return Some(i);
        }
        i = i + 1;
    }
    assert(!exists|k: int| is_first_entry(tv, key@, k)) by {
        assert forall|k: int| !is_first_entry(tv, key@, k) by {
            if 0 <= k < tv.len() {
                assert(tv[k].0 != key@);
            }
        }
    }
    None
}

/// Binds `key` to `value` in `t`: the first entry of that key takes the value,
/// or the pair is appended.
pub fn set_entry(t: &mut Vec<(String, TomlItem)>, key: String, value: TomlItem)
    ensures
        entries_view(final(t)@) == with_entry(entries_view(old(t)@), key@, node_of(value)),
{
    let ghost before = entries_view(t@);
    let ghost node = node_of(value);
    match entry_position(t, &key) {
        Some(i) => {
            t.set(i, (key, value));
            assert(entries_view(t@) =~= before.update(i as int, (key@, node)));
        },
        None => {
            t.push((key, value));
            assert(entries_view(t@) =~= before.push((key@, node)));
        },
    }
}


proof fn lemma_table_node(v: Vec<(String, TomlItem)>)
    ensures
        node_of(TomlItem::Table(v)) == TomlNode::Table(entries_view(v@)),
{
    assert(node_of(TomlItem::Table(v))->Table_0 =~= entries_view(v@));
}

/// Renames the `[package]` of a descriptor to the artifact's name.
pub fn modify_package_name(doc: &mut Vec<(String, TomlItem)>)
    ensures
        entries_view(final(doc)@) == renamed_package(entries_view(old(doc)@)),
{
    let ghost before = entries_view(doc@);
    let key = String::from_str("package");
    if let Some(i) = entry_position(doc, &key) {
        let mut slot = (String::new(), TomlItem::Text(String::new()));
        doc.set_and_swap(i, &mut slot);
        let (k, item) = slot;
        match item {
            TomlItem::Table(mut pt) => {
                proof {
                    lemma_table_node(pt);
                }
                let name = TomlItem::Text(String::from_str(KAUMA_SHARED_LIB_NAME));
                set_entry(&mut pt, String::from_str("name"), name);
                proof {
                    lemma_table_node(pt);
                }
                doc.set(i, (k, TomlItem::Table(pt)));
                assert(entries_view(doc@) =~= renamed_package(before));
            },
            other => {
                doc.set(i, (k, other));
                assert(entries_view(doc@) =~= before);
            },
        }
    }
}

/// `p` as seen from the isolated build directory.
pub fn relocate_path(p: String) -> (r: String)
    ensures
        r@ == relocated_path(p@),
{
    if p.as_str().unicode_len() > 0 && p.as_str().get_char(0) == '/' {
        p
    } else {
        let mut r = String::from_str("../../");
        r.append(p.as_str());
        r
    }
}

/// One dependency with a relative `path` relocated.
pub fn relocate_dependency(item: TomlItem) -> (r: TomlItem)
    ensures
        node_of(r) == relocated_dependency(node_of(item)),
{
    match item {
        TomlItem::Table(mut t) => {
            proof {
                lemma_table_node(t);
            }
            let ghost before = entries_view(t@);
            let key = String::from_str("path");
            if let Some(j) = entry_position(&t, &key) {
                let mut slot = (String::new(), TomlItem::Text(String::new()));
                t.set_and_swap(j, &mut slot);
                let (k, v) = slot;
                match v {
                    TomlItem::Text(p) => {
                        let moved = relocate_path(p);
                        t.set(j, (k, TomlItem::Text(moved)));
                        assert(entries_view(t@) =~= before.update(
                            j as int,
                            (before[j as int].0, TomlNode::Text(relocated_path(before[j as int].1->Text_0))),
                        ));
                    },
                    other => {
                        t.set(j, (k, other));
                        assert(entries_view(t@) =~= before);
                    },
                }
            }
            proof {
                lemma_table_node(t);
            }
            TomlItem::Table(t)
        },
        other => other,
    }
}

/// Rewrites every relative `path` of `[dependencies]` for the isolated
/// build directory, two levels below the host project.
pub fn fix_path_dependencies(doc: &mut Vec<(String, TomlItem)>)
    ensures
        entries_view(final(doc)@) == relocated_dependencies(entries_view(old(doc)@)),
{
    let ghost before = entries_view(doc@);
    let key = String::from_str("dependencies");
    if let Some(i) = entry_position(doc, &key) {
        let mut slot = (String::new(), TomlItem::Text(String::new()));
        doc.set_and_swap(i, &mut slot);
        let (k, item) = slot;
        match item {
            TomlItem::Table(mut deps) => {
                proof {
                    lemma_table_node(deps);
                }
                let ghost orig = entries_view(deps@);
                let mut m: usize = 0;
                while m < deps.len()
                    invariant
                        deps.len() == orig.len(),
                        m <= deps.len(),
                        forall|n: int|
                            0 <= n < m ==> #[trigger] entries_view(deps@)[n] == (
                                orig[n].0,
                                relocated_dependency(orig[n].1),
                            ),
                        forall|n: int| m <= n < deps.len() ==> #[trigger] entries_view(deps@)[n] == orig[n],
                    decreases deps.len() - m,
                {
                    let ghost prev = entries_view(deps@);
                    assert(prev[m as int] == orig[m as int]);
                    let mut entry = (String::new(), TomlItem::Text(String::new()));
                    deps.set_and_swap(m, &mut entry);
                    let (name, dep) = entry;
                    let moved = relocate_dependency(dep);
                    deps.set(m, (name, moved));
                    assert(entries_view(deps@) =~= prev.update(
                        m as int,
                        (orig[m as int].0, relocated_dependency(orig[m as int].1)),
                    ));
                    m = m + 1;
                }
                assert(entries_view(deps@) =~= relocated_dependency_table(orig));
                proof {
                    lemma_table_node(deps);
                }
                doc.set(i, (k, TomlItem::Table(deps)));
                assert(entries_view(doc@) =~= relocated_dependencies(before));
            },
            other => {
                doc.set(i, (k, other));
                assert(entries_view(doc@) =~= before);
            },
        }
    }
}

/// Declares the descriptor's library a dynamically loadable object whose
/// entry is the host's entry module.
pub fn add_lib_section(doc: &mut Vec<(String, TomlItem)>)
    ensures
        entries_view(final(doc)@) == with_entry(entries_view(old(doc)@), "lib"@, lib_section()),
{
    let cdylib = TomlItem::Text(String::from_str("cdylib"));
    let entry = TomlItem::Text(String::from_str("src/main.rs"));
    assert(node_of(cdylib) == TomlNode::Text("cdylib"@));
    assert(node_of(entry) == TomlNode::Text("src/main.rs"@));
    let mut kinds: Vec<TomlItem> = Vec::new();
    kinds.push(cdylib);
    let kinds = TomlItem::Array(kinds);
    assert(node_of(kinds)->Array_0 =~= seq![TomlNode::Text("cdylib"@)]);
    let mut lib: Vec<(String, TomlItem)> = Vec::new();
    lib.push((String::from_str("crate-type"), kinds));
    lib.push((String::from_str("path"), entry));
    proof {
        lemma_table_node(lib);
    }
    assert(entries_view(lib@) =~= lib_section()->Table_0);
    set_entry(doc, String::from_str("lib"), TomlItem::Table(lib));
}

/// The isolated build descriptor of a project descriptor: package renamed,
/// relative dependency paths relocated, `[lib]` declared.
pub fn isolate_manifest(doc: Vec<(String, TomlItem)>) -> (r: Vec<(String, TomlItem)>)
    ensures
        entries_view(r@) == isolated_manifest(entries_view(doc@)),
{
    let mut doc = doc;
    modify_package_name(&mut doc);
    fix_path_dependencies(&mut doc);
    add_lib_section(&mut doc);
    doc
}


/// What `toml::from_str` reads from a descriptor's text, as a table, or
/// `None` where it refuses the text.
pub uninterp spec fn toml_document(text: Seq<char>) -> Option<Seq<(Seq<char>, TomlNode)>>;

/// The text that `toml::to_string` writes for a table, or `None` where it
/// refuses the table.
pub uninterp spec fn toml_rendering(doc: Seq<(Seq<char>, TomlNode)>) -> Option<Seq<char>>;

/// Takes a `toml::Value` apart into a [`TomlItem`]: strings, arrays and
/// tables are opened, every other value is kept whole.
#[verifier::external_body]
fn item_from_value(v: toml::Value) -> TomlItem {
    match v {
        toml::Value::String(s) => TomlItem::Text(s),
        toml::Value::Array(a) => TomlItem::Array(a.into_iter().map(item_from_value).collect()),
        toml::Value::Table(t) => TomlItem::Table(
            t.into_iter().map(|(k, x)| (k, item_from_value(x))).collect(),
        ),
        other => TomlItem::Scalar(other),
    }
}

/// Puts a [`TomlItem`] back together as a `toml::Value`.
#[verifier::external_body]
fn value_from_item(item: TomlItem) -> toml::Value {
    match item {
        TomlItem::Text(s) => toml::Value::String(s),
        TomlItem::Array(a) => toml::Value::Array(a.into_iter().map(value_from_item).collect()),
        TomlItem::Table(t) => toml::Value::Table(
            t.into_iter().map(|(k, x)| (k, value_from_item(x))).collect(),
        ),
        TomlItem::Scalar(x) => x,
    }
}

/// Relies on `toml::from_str` reading a document into a `toml::Table`; the
/// result depends on the text alone.
#[verifier::external_body]
fn parse_manifest(text: &str) -> (r: Result<Vec<(String, TomlItem)>, toml::de::Error>)
    ensures
        match r {
            Ok(doc) => toml_document(text@) == Some(entries_view(doc@)),
            Err(_) => toml_document(text@) is None,
        },
{
    toml::from_str::<toml::Table>(text).map(
        |t| t.into_iter().map(|(k, v)| (k, item_from_value(v))).collect(),
    )
}

/// Relies on `toml::to_string` writing a `toml::Table` as a document; the
/// result depends on the table alone.
#[verifier::external_body]
fn render_manifest(doc: Vec<(String, TomlItem)>) -> (r: Result<String, toml::ser::Error>)
    ensures
        match r {
            Ok(text) => toml_rendering(entries_view(doc@)) == Some(text@),
            Err(_) => toml_rendering(entries_view(doc@)) is None,
        },
{
    let table: toml::Table = doc.into_iter().map(|(k, x)| (k, value_from_item(x))).collect();
    toml::to_string(&table)
}

/// Relies on the `Display` of `toml::de::Error` for a message.
#[verifier::external_body]
fn parse_error_message(e: &toml::de::Error) -> String {
    e.to_string()
}

/// Relies on the `Display` of `toml::ser::Error` for a message.
#[verifier::external_body]
fn render_error_message(e: &toml::ser::Error) -> String {
    e.to_string()
}

/// Why a descriptor could not be transformed.
pub enum ManifestError {
    /// The host's descriptor is not TOML; the message says why.
    Unparsable(String),
    /// The transformed descriptor could not be written; the message says why.
    Unrenderable(String),
}

/// `r` is what the transformation owes for the descriptor text `text`.
pub open spec fn transform_outcome(text: Seq<char>, r: Result<String, ManifestError>) -> bool {
    match toml_document(text) {
        None => r matches Err(ManifestError::Unparsable(_)),
        Some(doc) => match toml_rendering(isolated_manifest(doc)) {
            Some(out) => r matches Ok(s) && s@ == out,
            None => r matches Err(ManifestError::Unrenderable(_)),
        },
    }
}

/// The text of the isolated build descriptor derived from the text of the
/// host's descriptor.
pub fn transform_manifest(text: &str) -> (r: Result<String, ManifestError>)
    ensures
        transform_outcome(text@, r),
{
    match parse_manifest(text) {
        Err(e) => Err(ManifestError::Unparsable(parse_error_message(&e))),
        Ok(doc) => {
            let isolated = isolate_manifest(doc);
            match render_manifest(isolated) {
                Ok(out) => Ok(out),
                Err(e) => Err(ManifestError::Unrenderable(render_error_message(&e))),
            }
        },
    }
}

/// Transforming the same descriptor twice gives the same outcome: the same
/// error kind, or byte for byte the same isolated descriptor.
pub proof fn transform_is_deterministic(
    text: Seq<char>,
    first: Result<String, ManifestError>,
    second: Result<String, ManifestError>,
)
    requires
        transform_outcome(text, first),
        transform_outcome(text, second),
    ensures
        first is Ok <==> second is Ok,
        first is Ok ==> first->Ok_0@ == second->Ok_0@,
        first matches Err(ManifestError::Unparsable(_)) <==> second matches Err(
            ManifestError::Unparsable(_),
        ),
{
}

} // verus!
