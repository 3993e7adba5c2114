//! What a Cargo manifest says of a package and of a workspace.
//!
//! The manifest's TOML text is parsed into the library's tree: tables as
//! objects, arrays as arrays, strings as strings.
use vstd::prelude::*;
use crate::json::{lemma_array_view, lemma_object_view, json_seq, member_seq, Json, JsonValue};
use crate::paths::{joined, parent_of, path_join, path_parent};
use crate::wire::{parse_manifest, toml_tree};

verus! {

/// A package as its manifest describes it.
pub struct ProjectConfig {
    pub root: String,
    pub crate_name: Option<String>,
    pub edition: Option<String>,
    pub rust_version: Option<String>,
    pub dependencies: Vec<String>,
}

/// A workspace: its root and its members' directories.
pub struct WorkspaceConfig {
    pub members: Vec<String>,
    pub root: String,
}

/// The directory that holds the manifest; empty where the path has no
/// parent.
pub open spec fn manifest_dir(path: Seq<char>) -> Seq<char> {
    match parent_of(path) {
        Some(d) => d,
        None => Seq::empty(),
    }
}

/// `package.<key>`, where it is text.
pub open spec fn package_str(doc: Json, key: Seq<char>) -> Option<Seq<char>> {
    match doc.field("package"@) {
        Some(p) => p.field_str(key),
        None => None,
    }
}

/// The names of the `[dependencies]` table, in order.
pub open spec fn dependency_names(doc: Json) -> Seq<Seq<char>> {
    match doc.field("dependencies"@) {
        Some(Json::Object(entries)) => entries.map_values(|e: (Seq<char>, Json)| e.0),
        _ => Seq::empty(),
    }
}

/// The texts among the items, in order; other items are passed over.
pub open spec fn str_items(items: Seq<Json>) -> Seq<Seq<char>>
    decreases items.len(),
{
    if items.len() == 0 {
        Seq::empty()
    } else {
        let rest = str_items(items.drop_last());
        match items.last() {
            Json::Str(s) => rest.push(s),
            _ => rest,
        }
    }
}

/// The texts of `workspace.members`, when that is an array.
pub open spec fn member_entries(doc: Json) -> Seq<Seq<char>> {
    match doc.field("workspace"@) {
        Some(w) => match w.field("members"@) {
            Some(Json::Array(items)) => str_items(items),
            _ => Seq::empty(),
        },
        None => Seq::empty(),
    }
}

pub open spec fn opt_seq(o: Option<String>) -> Option<Seq<char>> {
    match o {
        Some(s) => Some(s@),
        None => None,
    }
}

fn manifest_dir_of(path: &str) -> (r: String)
    ensures
        r@ == manifest_dir(path@),
{
    match path_parent(path) {
        Some(d) => d,
        None => String::new(),
    }
}

fn package_field(doc: &JsonValue, key: &str) -> (r: Option<String>)
    ensures
        opt_seq(r) == package_str(doc.view(), key@),
{
    match doc.get("package") {
        Some(p) => match p.get_str(key) {
            Some(s) => Some(String::from_str(s)),
            None => None,
        },
        None => None,
    }
}

fn table_keys(doc: &JsonValue) -> (r: Vec<String>)
    ensures
        crate::text::views(r@) == dependency_names(doc.view()),
{
    let mut out: Vec<String> = Vec::new();
    match doc.get("dependencies") {
        Some(JsonValue::Object(members)) => {
            proof {
                lemma_object_view(*members);
            }
            let ghost entries = member_seq(members@);
            let mut i: usize = 0;
            while i < members.len()
                invariant
                    i <= members@.len(),
                    entries == member_seq(members@),
                    out@.len() == i,
                    forall|k: int| 0 <= k < i ==> (#[trigger] out@[k])@ == members@[k].0@,
                decreases members.len() - i,
            {
                out.push(members[i].0.clone());
                i = i + 1;
            }
            proof {
                assert(crate::text::views(out@) =~= entries.map_values(
                    |e: (Seq<char>, Json)| e.0,
                ));
            }
        },
        _ => {
            proof {
                assert(crate::text::views(out@) =~= Seq::<Seq<char>>::empty());
            }
        },
    }
    out
}

proof fn lemma_str_items_push(items: Seq<Json>, i: int)
    requires
        0 <= i < items.len(),
    ensures
        str_items(items.take(i + 1)) == match items[i] {
            Json::Str(s) => str_items(items.take(i)).push(s),
            _ => str_items(items.take(i)),
        },
{
    assert(items.take(i + 1).drop_last() =~= items.take(i));
}

/// The texts among the items of an array value.
fn str_item_values(items: &Vec<JsonValue>) -> (r: Vec<String>)
    ensures
        crate::text::views(r@) == str_items(json_seq(items@)),
{
    let mut out: Vec<String> = Vec::new();
    let ghost js = json_seq(items@);
    let mut i: usize = 0;
    proof {
        assert(js.take(0) =~= Seq::<Json>::empty());
        assert(crate::text::views(out@) =~= Seq::<Seq<char>>::empty());
    }
    while i < items.len()
        invariant
            i <= items@.len(),
            js == json_seq(items@),
            crate::text::views(out@) == str_items(js.take(i as int)),
        decreases items.len() - i,
    {
        proof {
            lemma_str_items_push(js, i as int);
        }
        let ghost before = out@;
        match items[i].as_str() {
            Some(s) => {
                out.push(String::from_str(s));
                proof {
                    crate::text::lemma_views_push(before, out@.last());
                    assert(out@ =~= before.push(out@.last()));
                }
            },
            None => {},
        }
        i = i + 1;
    }
    proof {
        assert(js.take(i as int) =~= js);
    }
    out
}

fn member_texts(doc: &JsonValue) -> (r: Vec<String>)
    ensures
        crate::text::views(r@) == member_entries(doc.view()),
{
    match doc.get("workspace") {
        Some(w) => match w.get("members") {
            Some(JsonValue::Array(items)) => {
                proof {
                    lemma_array_view(*items);
                }
                str_item_values(items)
            },
            _ => {
                let out: Vec<String> = Vec::new();
                proof {
                    assert(crate::text::views(out@) =~= Seq::<Seq<char>>::empty());
                }
                out
            },
        },
        None => {
            let out: Vec<String> = Vec::new();
            proof {
                assert(crate::text::views(out@) =~= Seq::<Seq<char>>::empty());
            }
            out
        },
    }
}

/// The package fields read from a parsed manifest at `path`.
pub open spec fn describes_project(c: ProjectConfig, path: Seq<char>, doc: Json) -> bool {
    &&& c.root@ == manifest_dir(path)
    &&& opt_seq(c.crate_name) == package_str(doc, "name"@)
    &&& opt_seq(c.edition) == package_str(doc, "edition"@)
    &&& opt_seq(c.rust_version) == package_str(doc, "rust-version"@)
    &&& crate::text::views(c.dependencies@) == dependency_names(doc)
}

/// The workspace read from a parsed manifest at `path`: its directory, and
/// each member text taken relative to it.
pub open spec fn describes_workspace(w: WorkspaceConfig, path: Seq<char>, doc: Json) -> bool {
    &&& w.root@ == manifest_dir(path)
    &&& crate::text::views(w.members@) == member_entries(doc).map_values(
        |m: Seq<char>| joined(manifest_dir(path), m),
    )
}

impl ProjectConfig {
    /// Reads a package from its manifest at `path` with the text `content`;
    /// the parse error's text where the manifest is not TOML.
    pub fn from_cargo_toml(path: &str, content: &str) -> (r: Result<ProjectConfig, String>)
        ensures
            match toml_tree(content@) {
                Some(doc) => r matches Ok(c) && describes_project(c, path@, doc),
                None => r is Err,
            },
    {
        match parse_manifest(content) {
            Ok(doc) => Ok(Self::from_tree(path, &doc)),
            Err(e) => Err(e),
        }
    }

    /// The package that a parsed manifest at `path` describes.
    pub fn from_tree(path: &str, doc: &JsonValue) -> (r: ProjectConfig)
        ensures
            r.root@ == manifest_dir(path@),
            opt_seq(r.crate_name) == package_str(doc.view(), "name"@),
            opt_seq(r.edition) == package_str(doc.view(), "edition"@),
            opt_seq(r.rust_version) == package_str(doc.view(), "rust-version"@),
            crate::text::views(r.dependencies@) == dependency_names(doc.view()),
    {
        ProjectConfig {
            root: manifest_dir_of(path),
            crate_name: package_field(doc, "name"),
            edition: package_field(doc, "edition"),
            rust_version: package_field(doc, "rust-version"),
            dependencies: table_keys(doc),
        }
    }
}

impl WorkspaceConfig {
    /// Reads a workspace from its manifest at `path` with the text
    /// `content`: each member text is taken relative to the manifest's
    /// directory. The parse error's text where the manifest is not TOML.
    pub fn from_cargo_toml(path: &str, content: &str) -> (r: Result<WorkspaceConfig, String>)
        ensures
            match toml_tree(content@) {
                Some(doc) => r matches Ok(w) && describes_workspace(w, path@, doc),
                None => r is Err,
            },
    {
        match parse_manifest(content) {
            Ok(doc) => Ok(Self::from_tree(path, &doc)),
            Err(e) => Err(e),
        }
    }

    /// The workspace that a parsed manifest at `path` describes.
    pub fn from_tree(path: &str, doc: &JsonValue) -> (r: WorkspaceConfig)
        ensures
            r.root@ == manifest_dir(path@),
            crate::text::views(r.members@) == member_entries(doc.view()).map_values(
                |m: Seq<char>| joined(manifest_dir(path@), m),
            ),
    {
        let root = manifest_dir_of(path);
        let names = member_texts(doc);
        let mut members: Vec<String> = Vec::new();
        let mut i: usize = 0;
        while i < names.len()
            invariant
                i <= names@.len(),
                root@ == manifest_dir(path@),
                members@.len() == i,
                forall|k: int| 0 <= k < i ==> (#[trigger] members@[k])@ == joined(root@, names@[k]@),
            decreases names.len() - i,
        {
            members.push(path_join(root.as_str(), names[i].as_str()));
            i = i + 1;
        }
        proof {
            assert(crate::text::views(members@) =~= crate::text::views(names@).map_values(
                |m: Seq<char>| joined(manifest_dir(path@), m),
            ));
        }
        WorkspaceConfig { members, root }
    }
}

/// The crate names a workspace is listed with: the package's name, then
/// the texts of `workspace.members`.
pub open spec fn crate_names(doc: Json) -> Seq<Seq<char>> {
    match package_str(doc, "name"@) {
        Some(n) => seq![n] + member_entries(doc),
        None => member_entries(doc),
    }
}

/// Lists a workspace's crate names from its manifest text; the parse
/// error's text where the manifest is not TOML.
pub fn parse_crate_names(content: &str) -> (r: Result<Vec<String>, String>)
    ensures
        match toml_tree(content@) {
            Some(doc) => r matches Ok(names) && crate::text::views(names@) == crate_names(doc),
            None => r is Err,
        },
{
    match parse_manifest(content) {
        Ok(doc) => Ok(crate_names_of(&doc)),
        Err(e) => Err(e),
    }
}

/// The crate names a parsed manifest lists.
pub fn crate_names_of(doc: &JsonValue) -> (r: Vec<String>)
    ensures
        crate::text::views(r@) == crate_names(doc.view()),
{
    let members = member_texts(doc);
    let mut names: Vec<String> = Vec::new();
    let name = package_field(doc, "name");
    let ghost nv = opt_seq(name);
    match name {
        Some(n) => names.push(n),
        None => {},
    }
    let ghost start = names@;
    let ghost me = member_entries(doc.view());
    proof {
        assert(crate::text::views(start) =~= match nv {
            Some(v) => seq![v],
            None => Seq::<Seq<char>>::empty(),
        });
        assert(crate::text::views(members@).len() == members@.len());
    }
    let mut i: usize = 0;
    while i < members.len()
        invariant
            i <= members@.len(),
            crate::text::views(members@) == me,
            names@.len() == start.len() + i,
            forall|k: int| 0 <= k < start.len() ==> names@[k] == start[k],
            forall|k: int| 0 <= k < i ==> (#[trigger] names@[start.len() + k])@ == members@[k]@,
        decreases members.len() - i,
    {
        names.push(members[i].clone());
        i = i + 1;
    }
    proof {
        let vs = crate::text::views(names@);
        let target = crate_names(doc.view());
        let head = crate::text::views(start);
        assert(target =~= head + me);
        assert forall|j: int| 0 <= j < vs.len() implies vs[j] == (head + me)[j] by {
            if j < start.len() {
                assert(names@[j] == start[j]);
            } else {
                let m = j - start.len();
                assert(names@[start.len() + m]@ == members@[m]@);
                assert(crate::text::views(members@)[m] == members@[m]@);
            }
        }
        assert(vs =~= head + me);
    }
    names
}

} // verus!
