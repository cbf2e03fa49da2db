//! Where projects and videos are kept on disk, the errors of storage, and the
//! server's in-memory set of projects with the answers of its project
//! endpoints.
//!
//! The application reads and writes the files; the library decides which
//! files and what the endpoints answer.

use vstd::prelude::*;
use std::collections::HashMap;
use vstd::std_specs::iter::IteratorSpec;
use crate::ids::uuid_text;
use crate::outside::{io_error_text, json_error_text, rfc3339_of, rfc3339_text, uuid_to_string};
use crate::paths::{extension_or_mp4, file_name_extension, is_plain_file_name, join_path, path_join};
use crate::project::Project;
use crate::text::{copy_string, has_prefix, push_str, str_eq};

verus! {

/// Errors of storage operations.
#[derive(Debug)]
pub enum CrudError {
    Io(std::io::Error),
    Serialization(String),
    NotFound(String),
}

impl CrudError {
    /// The error for a JSON document that could not be written or read,
    /// carrying serde_json's message.
    pub fn from_json_error(e: &serde_json::Error) -> (r: CrudError)
        ensures
            r is Serialization,
    {
        CrudError::Serialization(json_error_text(e))
    }

    /// The message of the error.
    pub fn message(&self) -> (s: String)
        ensures
            self matches CrudError::Serialization(m) ==> s@ == "Serialization error: "@ + m@,
            self matches CrudError::NotFound(m) ==> s@ == "Not found: "@ + m@,
            self is Io ==> has_prefix(s@, "IO error: "@),
    {
        let mut s = String::new();
        match self {
            CrudError::Io(e) => {
                push_str(&mut s, "IO error: ");
                let t = io_error_text(e);
                push_str(&mut s, t.as_str());
                assert(s@.take("IO error: "@.len() as int) =~= "IO error: "@);
            },
            CrudError::Serialization(m) => {
                push_str(&mut s, "Serialization error: ");
                push_str(&mut s, m.as_str());
            },
            CrudError::NotFound(m) => {
                push_str(&mut s, "Not found: ");
                push_str(&mut s, m.as_str());
            },
        }
        s
    }
}

/// The file name of a document named `stem`: `stem.json`.
pub open spec fn json_file_name(stem: Seq<char>) -> Seq<char> {
    stem + ".json"@
}

/// The extensions under which a stored video is looked for, in order.
pub open spec fn video_extensions() -> Seq<Seq<char>> {
    seq!["mp4"@, "mov"@, "avi"@, "webm"@, "mkv"@]
}

/// File system storage under a base directory.
#[derive(Debug, Clone)]
pub struct FileStore {
    pub base_path: String,
}

impl FileStore {
    /// Creates a file store at the given base path.
    pub fn new(base_path: &str) -> (s: FileStore)
        ensures
            s.base_path@ == base_path@,
    {
        FileStore { base_path: copy_string(base_path) }
    }

    /// The directory of the project documents: `<base>/projects`.
    pub fn projects_dir(&self) -> (p: String)
        ensures
            p@ == path_join(self.base_path@, "projects"@),
    {
        join_path(self.base_path.as_str(), "projects")
    }

    /// The document of project `id`: `<base>/projects/<id>.json`.
    pub fn project_path(&self, id: u128) -> (p: String)
        ensures
            p@ == path_join(path_join(self.base_path@, "projects"@), json_file_name(uuid_text(id))),
    {
        let dir = self.projects_dir();
        let mut name = uuid_to_string(id);
        push_str(&mut name, ".json");
        join_path(dir.as_str(), name.as_str())
    }

    /// The document of the workspace saved under `project_name`:
    /// `<base>/projects/<project_name>.json`.
    pub fn workspace_path(&self, project_name: &str) -> (p: String)
        ensures
            p@ == path_join(path_join(self.base_path@, "projects"@), json_file_name(project_name@)),
    {
        let dir = self.projects_dir();
        let mut name = copy_string(project_name);
        push_str(&mut name, ".json");
        join_path(dir.as_str(), name.as_str())
    }

    /// The directory of the stored videos: `<base>/work/videos`.
    pub fn videos_dir(&self) -> (p: String)
        ensures
            p@ == path_join(self.base_path@, "work/videos"@),
    {
        join_path(self.base_path.as_str(), "work/videos")
    }

    /// Where an uploaded video `id` named `file_name` is stored: its
    /// extension is kept, `mp4` when it has none.
    pub fn video_path(&self, id: u128, file_name: &str) -> (p: String)
        ensures
            is_plain_file_name(file_name@) ==> p@ == path_join(
                path_join(self.base_path@, "work/videos"@),
                uuid_text(id) + "."@ + match file_name_extension(file_name@) {
                    Some(x) => x,
                    None => "mp4"@,
                },
            ),
    {
        let dir = self.videos_dir();
        let mut name = uuid_to_string(id);
        push_str(&mut name, ".");
        let ext = extension_or_mp4(file_name);
        push_str(&mut name, ext.as_str());
        join_path(dir.as_str(), name.as_str())
    }

    /// The paths at which video `id` is looked for, one per known extension,
    /// in the order of `video_extensions`.
    pub fn video_candidates(&self, id: u128) -> (v: Vec<String>)
        ensures
            v@.len() == video_extensions().len(),
            forall|i: int|
                0 <= i < v@.len() ==> (#[trigger] v@[i])@ == path_join(
                    path_join(self.base_path@, "work/videos"@),
                    uuid_text(id) + "."@ + video_extensions()[i],
                ),
    {
        let dir = self.videos_dir();
        let stem = uuid_to_string(id);
        let mut v: Vec<String> = Vec::new();
        v.push(self.candidate(dir.as_str(), stem.as_str(), "mp4"));
        v.push(self.candidate(dir.as_str(), stem.as_str(), "mov"));
        v.push(self.candidate(dir.as_str(), stem.as_str(), "avi"));
        v.push(self.candidate(dir.as_str(), stem.as_str(), "webm"));
        v.push(self.candidate(dir.as_str(), stem.as_str(), "mkv"));
        proof {
            reveal_strlit("mp4");
            reveal_strlit("mov");
            reveal_strlit("avi");
            reveal_strlit("webm");
            reveal_strlit("mkv");
        }
        v
    }

    fn candidate(&self, dir: &str, stem: &str, ext: &str) -> (p: String)
        ensures
            p@ == path_join(dir@, stem@ + "."@ + ext@),
    {
        let mut name = copy_string(stem);
        push_str(&mut name, ".");
        push_str(&mut name, ext);
        join_path(dir, name.as_str())
    }
}

/// The name an uploaded video is known by: the file name the upload gave,
/// or `video.mp4` when it gave none.
pub fn upload_name(file_name: Option<&str>) -> (s: String)
    ensures
        s@ == match file_name {
            Some(n) => n@,
            None => "video.mp4"@,
        },
{
    match file_name {
        Some(n) => copy_string(n),
        None => copy_string("video.mp4"),
    }
}

/// A directory entry named `name` holds a project document: its extension
/// is `json`.
pub fn is_project_file(name: &str) -> (b: bool)
    ensures
        is_plain_file_name(name@) ==> (b <==> file_name_extension(name@) == Some("json"@)),
{
    match crate::outside::path_extension(name) {
        Some(e) => str_eq(e.as_str(), "json"),
        None => false,
    }
}

/// Request to create a project.
#[derive(Debug)]
pub struct CreateProjectRequest {
    pub name: String,
}

/// A project as the project list shows it.
#[derive(Debug)]
pub struct ProjectSummary {
    pub id: u128,
    pub name: String,
    pub node_count: usize,
    /// The RFC 3339 text of the last modification; `None` only for an
    /// instant that chrono cannot represent, which the times of a project
    /// made by this library never are.
    pub updated_at: Option<String>,
}

/// `s` summarizes `project`: its identifier, name, number of nodes, and the
/// RFC 3339 text of its modification time.
pub open spec fn summarizes(s: ProjectSummary, project: Project) -> bool {
    &&& s.id == project.id
    &&& s.name@ == project.name@
    &&& s.node_count == project.nodes@.len()
    &&& match s.updated_at {
        Some(t) => rfc3339_of(project.updated_at.seconds as int, project.updated_at.nanos as int)
            == Some(t@),
        None => rfc3339_of(
            project.updated_at.seconds as int,
            project.updated_at.nanos as int,
        ) is None,
    }
}

impl ProjectSummary {
    /// The summary of a project.
    pub fn of(project: &Project) -> (s: ProjectSummary)
        ensures
            summarizes(s, *project),
    {
        ProjectSummary {
            id: project.id,
            name: copy_string(project.name.as_str()),
            node_count: project.nodes.len(),
            updated_at: rfc3339_text(project.updated_at.seconds, project.updated_at.nanos),
        }
    }
}

/// The projects the server holds in memory, by identifier.
pub struct ProjectCache {
    projects: HashMap<u128, Project>,
}

impl View for ProjectCache {
    type V = Map<u128, Project>;

    closed spec fn view(&self) -> Map<u128, Project> {
        self.projects@
    }
}

impl ProjectCache {
    /// The invariant of the cache: each project is held under its own
    /// identifier.
    pub closed spec fn wf(&self) -> bool {
        forall|id: u128| #[trigger] self.projects@.contains_key(id) ==> self.projects@[id].id == id
    }

    /// Each project is held under its own identifier.
    pub proof fn lemma_keys(&self, id: u128)
        requires
            self.wf(),
            self@.contains_key(id),
        ensures
            self@[id].id == id,
    {
    }

    /// An empty cache.
    pub fn new() -> (c: ProjectCache)
        ensures
            c.wf(),
            c@ == Map::<u128, Project>::empty(),
    {
        ProjectCache { projects: HashMap::new() }
    }

    /// The number of projects held.
    pub fn len(&self) -> (n: usize)
        ensures
            n == self@.len(),
    {
        broadcast use vstd::std_specs::hash::group_hash_axioms;

        self.projects.len()
    }

    /// The project with identifier `id`, if held.
    pub fn get(&self, id: u128) -> (r: Option<&Project>)
        requires
            self.wf(),
        ensures
            r is Some <==> self@.dom().contains(id),
            r matches Some(p) ==> *p == self@[id],
    {
        broadcast use vstd::std_specs::hash::group_hash_axioms;

        self.projects.get(&id)
    }

    /// Stores `project` under its identifier, replacing a project held under
    /// the same identifier.
    pub fn insert(&mut self, project: Project)
        requires
            old(self).wf(),
        ensures
            final(self).wf(),
            final(self)@ == old(self)@.insert(project.id, project),
    {
        broadcast use vstd::std_specs::hash::group_hash_axioms;

        let id = project.id;
        self.projects.insert(id, project);
    }

    /// Removes the project with identifier `id`; whether one was held.
    pub fn remove(&mut self, id: u128) -> (removed: bool)
        requires
            old(self).wf(),
        ensures
            final(self).wf(),
            removed == old(self)@.dom().contains(id),
            final(self)@ == old(self)@.remove(id),
    {
        broadcast use vstd::std_specs::hash::group_hash_axioms;

        self.projects.remove(&id).is_some()
    }

    /// The summaries of the projects held, one per project. They come in the
    /// order in which the map is walked, which is not stated.
    pub fn summaries(&self) -> (v: Vec<ProjectSummary>)
        requires
            self.wf(),
        ensures
            v@.len() == self@.len(),
            forall|i: int|
                0 <= i < v@.len() ==> self@.contains_key((#[trigger] v@[i]).id) && summarizes(
                    v@[i],
                    self@[v@[i].id],
                ),
            forall|id: u128|
                #[trigger] self@.contains_key(id) ==> exists|i: int|
                    0 <= i < v@.len() && (#[trigger] v@[i]).id == id,
    {
        broadcast use vstd::std_specs::hash::group_hash_axioms;

        let mut v: Vec<ProjectSummary> = Vec::new();
        let ghost m = self.projects@;
        let ghost r = vstd::std_specs::hash::spec_hash_map_iter(&self.projects).remaining();
        for (_, p) in it: self.projects.iter()
            invariant
                m == self.projects@,
                self.wf(),
                it.seq() == r,
                v@.len() == it.index(),
                v@.len() <= r.len(),
                forall|j: int| 0 <= j < v@.len() ==> summarizes(#[trigger] v@[j], *r[j].1),
        {
            v.push(ProjectSummary::of(p));
        }
        proof {
            assert(v@.len() == r.len());
            assert forall|i: int| 0 <= i < v@.len() implies self@.contains_key(
                (#[trigger] v@[i]).id,
            ) && summarizes(v@[i], self@[v@[i].id]) by {
                assert(m.contains_key(*r[i].0));
                assert(m[*r[i].0] == *r[i].1);
            }
            assert forall|id: u128| #[trigger] self@.contains_key(id) implies exists|i: int|
                0 <= i < v@.len() && (#[trigger] v@[i]).id == id by {
                assert(r.contains((&id, &m[id])));
                let i = choose|i: int| 0 <= i < r.len() && r[i] == (&id, &m[id]);
                assert(v@[i].id == id);
            }
        }
        v
    }

    /// Creating a project (`POST /projects`): a new empty project with the
    /// requested name and the fresh identifier `new_id` is stored; its
    /// identifier is returned (answered with status 201).
    pub fn create_project(&mut self, request: &CreateProjectRequest, new_id: u128) -> (id: u128)
        requires
            old(self).wf(),
        ensures
            id == new_id,
            final(self).wf(),
            final(self)@.dom().contains(id),
            final(self)@ == old(self)@.insert(id, final(self)@[id]),
            final(self)@[id].name@ == request.name@,
            final(self)@[id].nodes@.len() == 0,
            final(self)@[id].connections@.len() == 0,
            final(self)@[id].created_at == final(self)@[id].updated_at,
    {
        let project = Project::new(request.name.as_str(), new_id);
        let id = project.id;
        self.insert(project);
        id
    }

    /// Reading a project (`GET /projects/{id}`): the project, or status 404.
    pub fn get_project(&self, id: u128) -> (r: Result<&Project, u16>)
        requires
            self.wf(),
        ensures
            self@.dom().contains(id) ==> (r matches Ok(p) && *p == self@[id]),
            !self@.dom().contains(id) ==> r == Err::<&Project, u16>(404),
    {
        match self.get(id) {
            Some(p) => Ok(p),
            None => Err(404),
        }
    }

    /// Writing a project (`PUT /projects/{id}`): refused with status 400
    /// when the project does not carry the identifier of the path, otherwise
    /// stored under it.
    pub fn update_project(&mut self, id: u128, project: Project) -> (r: Result<(), u16>)
        requires
            old(self).wf(),
        ensures
            final(self).wf(),
            project.id != id ==> r == Err::<(), u16>(400) && final(self)@ == old(self)@,
            project.id == id ==> r is Ok && final(self)@ == old(self)@.insert(id, project),
    {
        if project.id != id {
            return Err(400);
        }
        self.insert(project);
        Ok(())
    }

    /// Deleting a project (`DELETE /projects/{id}`): status 204 when it was
    /// held, 404 when not.
    pub fn delete_project(&mut self, id: u128) -> (status: u16)
        requires
            old(self).wf(),
        ensures
            final(self).wf(),
            final(self)@ == old(self)@.remove(id),
            status == if old(self)@.dom().contains(id) {
                204u16
            } else {
                404u16
            },
    {
        if self.remove(id) {
            204
        } else {
            404
        }
    }
}

} // verus!
