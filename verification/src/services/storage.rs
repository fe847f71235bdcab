use vstd::prelude::*;
use std::collections::HashMap;
use crate::bindings::{now, new_uuid, uuid_hyphenated, uuid_is_v4, uuid_text};
use crate::domain::models::{
    copy_scans, scan_views, AuditProject, CreateProjectRequest, PageAuditResult,
    ProjectView, ScanView, Timestamp,
};
use crate::utils::validators::concat2;
use vstd::std_specs::hash::spec_keys_iter;
use vstd::std_specs::iter::IteratorSpec;

verus! {

broadcast use vstd::std_specs::hash::group_hash_axioms;

/// In-memory storage for audit projects, keyed by the 128-bit value of each
/// project's UUID.
pub struct Storage {
    projects: HashMap<u128, AuditProject>,
}

/// Updates that can be applied to a project: each present field replaces
/// the project's own.
pub struct ProjectUpdates {
    pub name: Option<String>,
    pub description: Option<Option<String>>,
    pub target_url: Option<String>,
}

impl View for Storage {
    type V = Map<u128, ProjectView>;

    closed spec fn view(&self) -> Map<u128, ProjectView> {
        self.projects@.map_values(|p: AuditProject| p@)
    }
}

/// The project that a creation request makes, under the given id and
/// creation time: no scans yet, and last updated when created.
pub open spec fn project_from_request(id: u128, request: CreateProjectRequest, at: Timestamp) -> ProjectView {
    ProjectView {
        id,
        name: request.name,
        description: request.description,
        created_at: at,
        updated_at: at,
        target_url: request.target_url,
        scans: Seq::empty(),
    }
}

/// A project after an update made at time `at`.
pub open spec fn updated_project(p: ProjectView, updates: ProjectUpdates, at: Timestamp) -> ProjectView {
    ProjectView {
        name: match updates.name {
            Some(n) => n,
            None => p.name,
        },
        description: match updates.description {
            Some(d) => d,
            None => p.description,
        },
        target_url: match updates.target_url {
            Some(u) => u,
            None => p.target_url,
        },
        updated_at: at,
        ..p
    }
}

/// A project after a scan was added at time `at`.
pub open spec fn project_with_scan(p: ProjectView, scan: ScanView, at: Timestamp) -> ProjectView {
    ProjectView { scans: p.scans.push(scan), updated_at: at, ..p }
}

/// The error text for a project that is not stored.
pub open spec fn not_found_text(id: u128) -> Seq<char> {
    "Project not found: "@ + uuid_hyphenated(id)
}

/// The views of a list of projects.
pub open spec fn project_views(s: Seq<AuditProject>) -> Seq<ProjectView> {
    s.map_values(|p: AuditProject| p@)
}

/// The error for a project that is not stored.
pub fn not_found_message(id: u128) -> (r: String)
    ensures
        r@ == not_found_text(id),
{
    let t = uuid_text(id);
    concat2("Project not found: ", t.as_str())
}

impl Storage {
    /// Every project is stored under its own id.
    pub open spec fn wf(&self) -> bool {
        forall|k: u128| #[trigger] self@.contains_key(k) ==> self@[k].id == k
    }

    proof fn lemma_view_insert(m: Map<u128, AuditProject>, k: u128, p: AuditProject)
        ensures
            m.insert(k, p).map_values(|q: AuditProject| q@) == m.map_values(
                |q: AuditProject| q@,
            ).insert(k, p@),
    {
        assert(m.insert(k, p).map_values(|q: AuditProject| q@) =~= m.map_values(
            |q: AuditProject| q@,
        ).insert(k, p@));
    }

    proof fn lemma_view_remove(m: Map<u128, AuditProject>, k: u128)
        ensures
            m.remove(k).map_values(|q: AuditProject| q@) == m.map_values(
                |q: AuditProject| q@,
            ).remove(k),
    {
        assert(m.remove(k).map_values(|q: AuditProject| q@) =~= m.map_values(
            |q: AuditProject| q@,
        ).remove(k));
    }

    /// An empty storage.
    pub fn new() -> (r: Self)
        ensures
            r@ == Map::<u128, ProjectView>::empty(),
            r.wf(),
    {
        let r = Self { projects: HashMap::new() };
        assert(r@ =~= Map::<u128, ProjectView>::empty());
        r
    }

    /// Create a new project with a fresh random id; it is stored under that
    /// id and returned.
    pub fn create_project(&mut self, request: CreateProjectRequest) -> (r: Result<AuditProject, String>)
        requires
            old(self).wf(),
        ensures
            final(self).wf(),
            r matches Ok(p) && uuid_is_v4(p.id) && p@ == project_from_request(p.id, request, p.created_at)
                && final(self)@ == old(self)@.insert(p.id, p@),
    {
        let id = new_uuid();
        let at = now();
        let project = AuditProject {
            id,
            name: request.name,
            description: request.description,
            created_at: at,
            updated_at: at,
            target_url: request.target_url,
            scans: Vec::new(),
        };
        assert(project@.scans =~= Seq::<ScanView>::empty());
        let copy = project.clone();
        proof {
            Self::lemma_view_insert(self.projects@, id, copy);
        }
        self.projects.insert(id, copy);
        Ok(project)
    }

    /// Get a project by ID
    pub fn get_project(&self, id: u128) -> (r: Option<AuditProject>)
        ensures
            r is Some <==> self@.contains_key(id),
            r matches Some(p) ==> p@ == self@[id],
    {
        match self.projects.get(&id) {
            Some(p) => Some(p.clone()),
            None => None,
        }
    }

    /// List all projects, each once, in no particular order.
    pub fn list_projects(&self) -> (r: Vec<AuditProject>)
        requires
            self.wf(),
        ensures
            r@.len() == self@.dom().len(),
            forall|i: int|
                0 <= i < r@.len() ==> self@.contains_key(#[trigger] r@[i].id) && self@[r@[i].id]
                    == r@[i]@,
            forall|i: int, j: int|
                0 <= i < r@.len() && 0 <= j < r@.len() && i != j ==> #[trigger] r@[i].id
                    != #[trigger] r@[j].id,
    {
        let mut r: Vec<AuditProject> = Vec::new();
        let ghost n = self@.dom().len();
        proof {
            assert(self@.dom() =~= self.projects@.dom());
            let keys = spec_keys_iter(&self.projects).remaining();
            assert(keys.len() == n);
        }
        for k in it: self.projects.keys()
            invariant
                self.wf(),
                n == self@.dom().len(),
                it.seq().len() == n,
                it.seq().no_duplicates(),
                r@.len() == it.index(),
                forall|i: int| 0 <= i < r@.len() ==> r@[i].id == *it.seq()[i],
                forall|i: int, j: int|
                    0 <= i < r@.len() && 0 <= j < r@.len() && i != j ==> #[trigger] r@[i].id
                        != #[trigger] r@[j].id,
                forall|i: int|
                    0 <= i < r@.len() ==> self@.contains_key(#[trigger] r@[i].id) && self@[r@[i].id]
                        == r@[i]@,
        {
            assert(self.projects@.contains_key(*k));
            match self.projects.get(k) {
                Some(p) => {
                    assert(self@.contains_key(*k));
                    let c = p.clone();
                    let ghost idx = it.index();
                    r.push(c);
                    assert forall|i: int| 0 <= i < idx implies r@[i].id != *k by {
                        assert(it.seq()[i] != it.seq()[idx]);
                    }
                },
                None => {},
            }
        }
        assert(r@.len() == n);
        r
    }

    /// Update a project: each present field of `updates` replaces the
    /// project's, and the project is marked updated now. A project that is
    /// not stored gives an error and nothing changes.
    pub fn update_project(&mut self, id: u128, updates: ProjectUpdates) -> (r: Result<AuditProject, String>)
        requires
            old(self).wf(),
        ensures
            final(self).wf(),
            old(self)@.contains_key(id) ==> (r matches Ok(p) && p@ == updated_project(
                old(self)@[id],
                updates,
                p.updated_at,
            ) && final(self)@ == old(self)@.insert(id, p@)),
            !old(self)@.contains_key(id) ==> (r matches Err(m) && m@ == not_found_text(id)
                && final(self)@ == old(self)@),
    {
        match self.projects.remove(&id) {
            Some(mut project) => {
                let ghost before = project@;
                assert(old(self)@.contains_key(id) && old(self)@[id] == before);
                assert(before.id == id);
                if let Some(name) = updates.name {
                    project.name = name;
                }
                if let Some(description) = updates.description {
                    project.description = description;
                }
                if let Some(target_url) = updates.target_url {
                    project.target_url = target_url;
                }
                project.updated_at = now();
                let copy = project.clone();
                assert(project@.scans == before.scans);
                proof {
                    Self::lemma_view_remove(old(self).projects@, id);
                    Self::lemma_view_insert(self.projects@, id, project);
                    assert(old(self).projects@.remove(id).insert(id, project) =~= old(
                        self,
                    ).projects@.insert(id, project));
                    Self::lemma_view_insert(old(self).projects@, id, project);
                }
                self.projects.insert(id, project);
                assert forall|k: u128| #[trigger] self@.contains_key(k) implies self@[k].id == k by {
                    if k != id {
                        assert(old(self)@.contains_key(k));
                    }
                }
                Ok(copy)
            },
            None => {
                proof {
                    Self::lemma_view_remove(old(self).projects@, id);
                    assert(old(self)@.remove(id) =~= old(self)@);
                }
                Err(not_found_message(id))
            },
        }
    }

    /// Delete a project and all its scans. A project that is not stored
    /// gives an error and nothing changes.
    pub fn delete_project(&mut self, id: u128) -> (r: Result<(), String>)
        requires
            old(self).wf(),
        ensures
            final(self).wf(),
            final(self)@ == old(self)@.remove(id),
            r is Ok <==> old(self)@.contains_key(id),
            r matches Err(m) ==> m@ == not_found_text(id),
    {
        proof {
            Self::lemma_view_remove(self.projects@, id);
        }
        match self.projects.remove(&id) {
            Some(_) => Ok(()),
            None => {
                assert(old(self)@.remove(id) =~= old(self)@);
                Err(not_found_message(id))
            },
        }
    }

    /// Add a scan result to a project: it becomes the project's latest scan
    /// and the project is marked updated now. A project that is not stored
    /// gives an error and nothing changes.
    pub fn add_scan(&mut self, project_id: u128, scan: PageAuditResult) -> (r: Result<AuditProject, String>)
        requires
            old(self).wf(),
        ensures
            final(self).wf(),
            old(self)@.contains_key(project_id) ==> (r matches Ok(p) && p@ == project_with_scan(
                old(self)@[project_id],
                scan@,
                p.updated_at,
            ) && final(self)@ == old(self)@.insert(project_id, p@)),
            !old(self)@.contains_key(project_id) ==> (r matches Err(m) && m@ == not_found_text(
                project_id,
            ) && final(self)@ == old(self)@),
    {
        match self.projects.remove(&project_id) {
            Some(mut project) => {
                let ghost before = project@;
                assert(old(self)@.contains_key(project_id) && old(self)@[project_id] == before);
                assert(before.id == project_id);
                let ghost scan_view = scan@;
                project.scans.push(scan);
                assert(scan_views(project.scans@) =~= before.scans.push(scan_view));
                project.updated_at = now();
                let copy = project.clone();
                proof {
                    Self::lemma_view_remove(old(self).projects@, project_id);
                    Self::lemma_view_insert(self.projects@, project_id, project);
                    assert(old(self).projects@.remove(project_id).insert(project_id, project)
                        =~= old(self).projects@.insert(project_id, project));
                    Self::lemma_view_insert(old(self).projects@, project_id, project);
                }
                self.projects.insert(project_id, project);
                assert forall|k: u128| #[trigger] self@.contains_key(k) implies self@[k].id == k by {
                    if k != project_id {
                        assert(old(self)@.contains_key(k));
                    }
                }
                Ok(copy)
            },
            None => {
                proof {
                    Self::lemma_view_remove(old(self).projects@, project_id);
                    assert(old(self)@.remove(project_id) =~= old(self)@);
                }
                Err(not_found_message(project_id))
            },
        }
    }

    /// Get the latest scan for a project: its last scan, or `None` where the
    /// project is not stored or has no scans.
    pub fn get_latest_scan(&self, project_id: u128) -> (r: Option<PageAuditResult>)
        ensures
            r is Some <==> self@.contains_key(project_id) && self@[project_id].scans.len() > 0,
            r matches Some(s) ==> s@ == self@[project_id].scans.last(),
    {
        match self.projects.get(&project_id) {
            Some(p) => {
                let n = p.scans.len();
                if n == 0 {
                    None
                } else {
                    Some(p.scans[n - 1].clone())
                }
            },
            None => None,
        }
    }

    /// All scans of a project, oldest first, for comparison over time;
    /// `None` where the project is not stored.
    pub fn compare_scans(&self, project_id: u128) -> (r: Option<Vec<PageAuditResult>>)
        ensures
            r is Some <==> self@.contains_key(project_id),
            r matches Some(v) ==> scan_views(v@) == self@[project_id].scans,
    {
        match self.projects.get(&project_id) {
            Some(p) => Some(copy_scans(&p.scans)),
            None => None,
        }
    }
}

impl Default for Storage {
    /// An empty storage.
    fn default() -> (r: Self)
        ensures
            r@ == Map::<u128, ProjectView>::empty(),
            r.wf(),
    {
        Self::new()
    }
}

} // verus!
