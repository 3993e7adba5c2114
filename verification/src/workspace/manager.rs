//! The open workspaces, each with its language server, and which of them is
//! active.
use vstd::prelude::*;
use crate::keyed::{entry_map, keys_unique, lemma_map_at, lemma_map_contains, lemma_map_push, lemma_map_update};
use crate::paths::{normal_form, path_key};
use crate::text::{str_eq, views};

verus! {

/// A workspace that was added: its root, its client and its crate names.
pub struct WorkspaceInfo<C> {
    pub root: String,
    pub lsp_client: C,
    pub crate_names: Vec<String>,
}

/// Why a workspace could not be had.
pub enum WorkspaceError {
    /// No workspace has been added yet.
    NoActive,
    /// No workspace was added at this root; the root as given.
    NotFound(String),
}

impl WorkspaceError {
    pub fn message(&self) -> (r: String)
        ensures
            r@ == match self {
                WorkspaceError::NoActive => "No active workspace"@,
                WorkspaceError::NotFound(root) => "Workspace not found: "@ + root@,
            },
    {
        match self {
            WorkspaceError::NoActive => String::from_str("No active workspace"),
            WorkspaceError::NotFound(root) => {
                let mut s = String::from_str("Workspace not found: ");
                s.append(root.as_str());
                s
            },
        }
    }
}

/// The workspaces by root. Roots that name the same path are one key: each
/// entry is kept under the normal form of its root, with the root's text as
/// first added, which the listing shows.
pub struct WorkspaceManager<C> {
    ra_path: String,
    workspaces: Vec<(String, (String, WorkspaceInfo<C>))>,
    active_workspace: Option<String>,
}

impl<C> WorkspaceManager<C> {
    /// The workspaces: from a root's normal form to the root's text as
    /// first added and what was added last under it.
    pub closed spec fn view(&self) -> Map<Seq<char>, (String, WorkspaceInfo<C>)> {
        entry_map(self.workspaces@)
    }

    /// The normal form of the active workspace's root, if any.
    pub closed spec fn active(&self) -> Option<Seq<char>> {
        match self.active_workspace {
            Some(a) => Some(a@),
            None => None,
        }
    }

    pub closed spec fn binary(&self) -> Seq<char> {
        self.ra_path@
    }

    /// Keys are distinct, each is its entry's root in normal form, and the
    /// active one was added.
    pub closed spec fn wf(&self) -> bool {
        &&& keys_unique(self.workspaces@)
        &&& forall|i: int|
            0 <= i < self.workspaces@.len() ==> (#[trigger] self.workspaces@[i]).0@ == normal_form(
                self.workspaces@[i].1.1.root@,
            ) && self.workspaces@[i].0@ == normal_form(self.workspaces@[i].1.0@)
        &&& match self.active_workspace {
            Some(a) => self.view().dom().contains(a@),
            None => true,
        }
    }

    pub fn new(ra_path: String) -> (r: Self)
        ensures
            r.wf(),
            r.view() == Map::<Seq<char>, (String, WorkspaceInfo<C>)>::empty(),
            r.active() is None,
            r.binary() == ra_path@,
    {
        let r = WorkspaceManager { ra_path, workspaces: Vec::new(), active_workspace: None };
        proof {
            assert(r.view() =~= Map::<Seq<char>, (String, WorkspaceInfo<C>)>::empty());
        }
        r
    }

    /// The rust-analyzer binary the workspaces' servers run.
    pub fn ra_path(&self) -> (r: &str)
        ensures
            r@ == self.binary(),
    {
        self.ra_path.as_str()
    }

    fn find(&self, key: &String) -> (r: Option<usize>)
        requires
            self.wf(),
        ensures
            match r {
                Some(i) => i < self.workspaces@.len() && self.workspaces@[i as int].0@ == key@,
                None => !self.view().dom().contains(key@),
            },
    {
        let mut i: usize = 0;
        while i < self.workspaces.len()
            invariant
                i <= self.workspaces@.len(),
                forall|j: int| 0 <= j < i ==> self.workspaces@[j].0@ != key@,
            decreases self.workspaces.len() - i,
        {
            if str_eq(self.workspaces[i].0.as_str(), key.as_str()) {
                return Some(i);
            }
            i = i + 1;
        }
        proof {
            lemma_map_contains(self.workspaces@, key@);
        }
        None
    }

    /// Adds a workspace, or replaces the one at the same root; the first
    /// workspace added becomes the active one.
    pub fn add_workspace(&mut self, info: WorkspaceInfo<C>)
        requires
            old(self).wf(),
        ensures
            final(self).wf(),
            final(self).view() == old(self).view().insert(
                normal_form(info.root@),
                (
                    if old(self).view().dom().contains(normal_form(info.root@)) {
                        old(self).view()[normal_form(info.root@)].0
                    } else {
                        info.root
                    },
                    info,
                ),
            ),
            final(self).active() == match old(self).active() {
                Some(a) => Some(a),
                None => Some(normal_form(info.root@)),
            },
            final(self).binary() == old(self).binary(),
    {
        let key = path_key(info.root.as_str());
        let active_key = key.clone();
        let ghost k = key@;
        let ghost m = self.view();
        match self.find(&key) {
            Some(i) => {
                let shown = self.workspaces[i].1.0.clone();
                proof {
                    lemma_map_at(self.workspaces@, i as int);
                }
                let ghost entry = (key, (shown, info));
                let ghost before = self.workspaces@;
                self.workspaces.set(i, (key, (shown, info)));
                proof {
                    lemma_map_update(before, i as int, entry);
                    assert(self.workspaces@ == before.update(i as int, entry));
                }
            },
            None => {
                let shown = info.root.clone();
                let ghost entry = (key, (shown, info));
                let ghost before = self.workspaces@;
                self.workspaces.push((key, (shown, info)));
                proof {
                    lemma_map_push(before, entry);
                }
            },
        }
        if self.active_workspace.is_none() {
            self.active_workspace = Some(active_key);
        }
        proof {
            assert forall|a: Seq<char>| m.dom().contains(a) implies self.view().dom().contains(a) by {}
            assert(self.view().dom().contains(k));
        }
    }

    /// Makes the workspace at `root` the active one.
    pub fn switch_workspace(&mut self, root: &str) -> (r: Result<(), WorkspaceError>)
        requires
            old(self).wf(),
        ensures
            final(self).wf(),
            final(self).view() == old(self).view(),
            final(self).binary() == old(self).binary(),
            old(self).view().dom().contains(normal_form(root@)) ==> r is Ok && final(self).active()
                == Some(normal_form(root@)),
            !old(self).view().dom().contains(normal_form(root@)) ==> (r matches Err(
                WorkspaceError::NotFound(shown),
            ) && shown@ == root@) && final(self).active() == old(self).active(),
    {
        let key = path_key(root);
        match self.find(&key) {
            Some(i) => {
                proof {
                    lemma_map_at(self.workspaces@, i as int);
                }
                self.active_workspace = Some(key);
                Ok(())
            },
            None => Err(WorkspaceError::NotFound(String::from_str(root))),
        }
    }

    /// The client of the active workspace.
    pub fn get_active(&self) -> (r: Result<&C, WorkspaceError>)
        requires
            self.wf(),
        ensures
            match self.active() {
                Some(a) => r matches Ok(c) && *c == self.view()[a].1.lsp_client,
                None => r matches Err(WorkspaceError::NoActive),
            },
    {
        match &self.active_workspace {
            Some(a) => match self.find(a) {
                Some(i) => {
                    proof {
                        lemma_map_at(self.workspaces@, i as int);
                    }
                    Ok(&self.workspaces[i].1.1.lsp_client)
                },
                None => Err(WorkspaceError::NotFound(a.clone())),
            },
            None => Err(WorkspaceError::NoActive),
        }
    }

    /// Each workspace's root, as first added, with its crate names; one
    /// pair per workspace.
    pub fn list_workspaces(&self) -> (r: Vec<(String, Vec<String>)>)
        requires
            self.wf(),
        ensures
            r@.len() == self.view().len(),
            forall|k: Seq<char>|
                self.view().dom().contains(k) ==> exists|i: int|
                    0 <= i < r@.len() && #[trigger] shows_workspace(self.view(), k, r@[i]),
            forall|i: int|
                0 <= i < r@.len() ==> #[trigger] shows_workspace(self.view(), normal_form(r@[i].0@), r@[i]),
    {
        let mut out: Vec<(String, Vec<String>)> = Vec::new();
        let mut i: usize = 0;
        while i < self.workspaces.len()
            invariant
                self.wf(),
                i <= self.workspaces@.len(),
                out@.len() == i,
                forall|j: int|
                    0 <= j < i ==> (#[trigger] out@[j]).0@ == self.workspaces@[j].1.0@ && views(
                        out@[j].1@,
                    ) == views(self.workspaces@[j].1.1.crate_names@),
            decreases self.workspaces.len() - i,
        {
            let names = copy_names(&self.workspaces[i].1.1.crate_names);
            out.push((self.workspaces[i].1.0.clone(), names));
            i = i + 1;
        }
        proof {
            lemma_listing(self.workspaces@, out@);
        }
        out
    }
}

/// Law: a workspace once added can be switched to by its root, and the
/// client then active is the one added with it; the first one added is
/// active at once.
pub proof fn law_added_workspace_is_reachable<C>(
    before: WorkspaceManager<C>,
    after: WorkspaceManager<C>,
    info: WorkspaceInfo<C>,
)
    requires
        after.view() == before.view().insert(
            normal_form(info.root@),
            (
                if before.view().dom().contains(normal_form(info.root@)) {
                    before.view()[normal_form(info.root@)].0
                } else {
                    info.root
                },
                info,
            ),
        ),
        after.active() == match before.active() {
            Some(a) => Some(a),
            None => Some(normal_form(info.root@)),
        },
    ensures
        after.view().dom().contains(normal_form(info.root@)),
        after.view()[normal_form(info.root@)].1.lsp_client == info.lsp_client,
        before.active() is None ==> after.active() == Some(normal_form(info.root@)),
{
}

/// The listed pair shows the workspace under key `k`: its root as first
/// added and its crate names.
pub open spec fn shows_workspace<C>(
    m: Map<Seq<char>, (String, WorkspaceInfo<C>)>,
    k: Seq<char>,
    e: (String, Vec<String>),
) -> bool {
    m.dom().contains(k) && e.0@ == m[k].0@ && views(e.1@) == views(m[k].1.crate_names@)
}

proof fn lemma_listing<C>(ws: Seq<(String, (String, WorkspaceInfo<C>))>, out: Seq<(String, Vec<String>)>)
    requires
        keys_unique(ws),
        forall|j: int| 0 <= j < ws.len() ==> (#[trigger] ws[j]).0@ == normal_form(ws[j].1.0@),
        out.len() == ws.len(),
        forall|j: int|
            0 <= j < out.len() ==> (#[trigger] out[j]).0@ == ws[j].1.0@ && views(out[j].1@) == views(
                ws[j].1.1.crate_names@,
            ),
    ensures
        out.len() == entry_map(ws).len(),
        forall|k: Seq<char>|
            entry_map(ws).dom().contains(k) ==> exists|i: int|
                0 <= i < out.len() && #[trigger] shows_workspace(entry_map(ws), k, out[i]),
        forall|i: int|
            0 <= i < out.len() ==> #[trigger] shows_workspace(entry_map(ws), normal_form(out[i].0@), out[i]),
{
    crate::keyed::lemma_map_len(ws);
    assert forall|k: Seq<char>| entry_map(ws).dom().contains(k) implies exists|j: int|
        0 <= j < out.len() && #[trigger] shows_workspace(entry_map(ws), k, out[j]) by {
        crate::keyed::lemma_contains_slot(ws, k);
        let j = crate::keyed::slot_of(ws, k);
        lemma_map_at(ws, j);
        assert(shows_workspace(entry_map(ws), k, out[j]));
    }
    assert forall|j: int| 0 <= j < out.len() implies #[trigger] shows_workspace(entry_map(ws), normal_form(out[j].0@), out[j]) by {
        lemma_map_at(ws, j);
    }
}

fn copy_names(names: &Vec<String>) -> (r: Vec<String>)
    ensures
        views(r@) == views(names@),
{
    let mut out: Vec<String> = Vec::new();
    let mut i: usize = 0;
    while i < names.len()
        invariant
            i <= names@.len(),
            out@.len() == i,
            forall|j: int| 0 <= j < i ==> (#[trigger] out@[j])@ == names@[j]@,
        decreases names.len() - i,
    {
        out.push(names[i].clone());
        i = i + 1;
    }
    proof {
        assert(views(out@) =~= views(names@));
    }
    out
}

} // verus!
