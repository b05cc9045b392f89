//! The stored facts of one generation, the edits that change them, and the
//! queries that read them.

use std::collections::HashMap;
use std::sync::Arc;
use vstd::prelude::*;

verus! {

broadcast use vstd::std_specs::hash::group_hash_axioms;

/// Identifies a source file.
#[derive(Clone, Copy, Debug, PartialEq, Eq, Hash, Structural)]
pub struct FileId(pub u32);

/// Identifies a source root: a set of files that belong to one application.
#[derive(Clone, Copy, Debug, PartialEq, Eq, Hash, Structural)]
pub struct SourceRootId(pub u32);

/// Identifies a project.
#[derive(Clone, Copy, Debug, PartialEq, Eq, Hash, Structural)]
pub struct ProjectId(pub u32);

/// The role of an application within its project.
#[derive(Clone, Copy, Debug, PartialEq, Eq, Structural)]
pub enum AppType {
    App,
    Dep,
    Otp,
}

/// What is known of the application behind a source root.
#[derive(Clone, Copy, Debug, PartialEq, Eq, Structural)]
pub struct AppData {
    pub project_id: ProjectId,
    pub app_type: AppType,
}

/// What is known of a project.
#[derive(Debug, PartialEq, Eq)]
pub struct ProjectData {
    pub source_roots: Vec<SourceRootId>,
    pub root_dir: String,
}

/// The name of a module.
#[derive(Debug, PartialEq, Eq)]
pub struct ModuleName(pub String);

impl View for ModuleName {
    type V = Seq<char>;

    open spec fn view(&self) -> Seq<char> {
        self.0@
    }
}

impl ModuleName {
    /// The module name with the characters of `name`.
    pub fn new(name: &str) -> (module: ModuleName)
        ensures
            module@ == name@,
    {
        ModuleName(name.to_owned())
    }

    /// The name as a string slice.
    pub fn as_str(&self) -> (name: &str)
        ensures
            name@ == self@,
    {
        self.0.as_str()
    }

    /// A copy of this name.
    pub fn duplicate(&self) -> (copy: ModuleName)
        ensures
            copy == *self,
    {
        ModuleName(self.0.clone())
    }
}

/// The name listed for `file` in `entries`: that of the first entry for it.
pub open spec fn name_of(entries: Seq<(ModuleName, FileId)>, file: FileId) -> Option<ModuleName>
    decreases entries.len(),
{
    if entries.len() == 0 {
        None
    } else if entries.first().1 == file {
        Some(entries.first().0)
    } else {
        name_of(entries.drop_first(), file)
    }
}

/// The file listed for the module `name` in `entries`: that of the first entry
/// with this name.
pub open spec fn file_of(entries: Seq<(ModuleName, FileId)>, name: Seq<char>) -> Option<FileId>
    decreases entries.len(),
{
    if entries.len() == 0 {
        None
    } else if entries.first().0@ == name {
        Some(entries.first().1)
    } else {
        file_of(entries.drop_first(), name)
    }
}

/// The modules of one project, each with the file that defines it. Where a
/// file or a name is listed more than once, the entry inserted first counts.
#[derive(Debug, PartialEq, Eq)]
pub struct ModuleIndex {
    entries: Vec<(ModuleName, FileId)>,
}

impl View for ModuleIndex {
    type V = Seq<(ModuleName, FileId)>;

    /// The entries, in the order of insertion.
    closed spec fn view(&self) -> Seq<(ModuleName, FileId)> {
        self.entries@
    }
}

impl ModuleIndex {
    /// An index without entries.
    pub fn new() -> (index: ModuleIndex)
        ensures
            index@ == Seq::<(ModuleName, FileId)>::empty(),
    {
        ModuleIndex { entries: Vec::new() }
    }

    /// Lists `name` as the module that `file_id` defines, after the entries
    /// that are there.
    pub fn insert(&mut self, file_id: FileId, name: ModuleName)
        ensures
            final(self)@ == old(self)@.push((name, file_id)),
    {
        self.entries.push((name, file_id));
    }

    /// Number of entries.
    pub fn len(&self) -> (n: usize)
        ensures
            n == self@.len(),
    {
        self.entries.len()
    }

    /// The name of the module that `file_id` defines, if it is listed.
    pub fn module_for_file(&self, file_id: FileId) -> (res: Option<&ModuleName>)
        ensures
            match res {
                Some(name) => name_of(self@, file_id) == Some(*name),
                None => name_of(self@, file_id).is_none(),
            },
    {
        let mut i: usize = 0;
        assert(self.entries@.skip(0) == self.entries@);
        while i < self.entries.len()
            invariant
                i <= self.entries@.len(),
                name_of(self.entries@, file_id) == name_of(self.entries@.skip(i as int), file_id),
            decreases self.entries@.len() - i,
        {
            let ghost rest = self.entries@.skip(i as int);
            assert(rest.first() == self.entries@[i as int]);
            if self.entries[i].1.0 == file_id.0 {
                return Some(&self.entries[i].0);
            }
            assert(rest.drop_first() == self.entries@.skip(i + 1));
            i += 1;
        }
        assert(self.entries@.skip(i as int).len() == 0);
        None
    }

    /// The file that defines the module `name`, if it is listed.
    pub fn file_for_module(&self, name: &str) -> (res: Option<FileId>)
        ensures
            res == file_of(self@, name@),
    {
        let wanted = name.to_owned();
        let mut i: usize = 0;
        assert(self.entries@.skip(0) == self.entries@);
        while i < self.entries.len()
            invariant
                i <= self.entries@.len(),
                wanted@ == name@,
                file_of(self.entries@, name@) == file_of(self.entries@.skip(i as int), name@),
            decreases self.entries@.len() - i,
        {
            let ghost rest = self.entries@.skip(i as int);
            assert(rest.first() == self.entries@[i as int]);
            if self.entries[i].0.0 == wanted {
                return Some(self.entries[i].1);
            }
            assert(rest.drop_first() == self.entries@.skip(i + 1));
            i += 1;
        }
        assert(self.entries@.skip(i as int).len() == 0);
        None
    }
}

/// The offsets at which the lines of `text` start: 0, and the offset after
/// each line feed, in increasing order.
pub open spec fn line_starts(text: Seq<u8>) -> Seq<usize>
    decreases text.len(),
{
    if text.len() == 0 {
        seq![0usize]
    } else if text.last() == 10u8 {
        line_starts(text.drop_last()).push(text.len() as usize)
    } else {
        line_starts(text.drop_last())
    }
}

/// Where the lines of a text start, as byte offsets.
#[derive(Debug, PartialEq, Eq)]
pub struct LineIndex {
    starts: Vec<usize>,
}

impl View for LineIndex {
    type V = Seq<usize>;

    /// The offsets of the line starts, in increasing order.
    closed spec fn view(&self) -> Seq<usize> {
        self.starts@
    }
}

impl LineIndex {
    /// The line index of `text`.
    pub fn new(text: &str) -> (index: LineIndex)
        ensures
            index@ == line_starts(vstd::utf8::encode_utf8(text@)),
    {
        let bytes = text.as_bytes();
        let mut starts: Vec<usize> = Vec::new();
        starts.push(0);
        let mut i: usize = 0;
        assert(bytes@.take(0).len() == 0);
        while i < bytes.len()
            invariant
                i <= bytes@.len(),
                bytes@ == vstd::utf8::encode_utf8(text@),
                starts@ == line_starts(bytes@.take(i as int)),
            decreases bytes@.len() - i,
        {
            let ghost next = bytes@.take(i + 1);
            assert(next.drop_last() == bytes@.take(i as int));
            assert(next.last() == bytes@[i as int]);
            if bytes[i] == 10u8 {
                starts.push(i + 1);
            }
            i += 1;
        }
        assert(bytes@.take(i as int) == bytes@);
        LineIndex { starts }
    }

    /// Number of lines.
    pub fn line_count(&self) -> (n: usize)
        ensures
            n == self@.len(),
    {
        self.starts.len()
    }

    /// The offset at which line `line` starts, counted from 0, if there is such
    /// a line.
    pub fn line_start(&self, line: usize) -> (res: Option<usize>)
        ensures
            res == (if line < self@.len() {
                Some(self@[line as int])
            } else {
                None
            }),
    {
        if line < self.starts.len() {
            Some(self.starts[line])
        } else {
            None
        }
    }
}

/// One change of an input fact.
#[derive(Debug, PartialEq, Eq)]
pub enum Edit {
    /// The text of `file` becomes `text`.
    SetFileText { file: FileId, text: Arc<String> },
    /// `file` belongs to `source_root`.
    SetFileSourceRoot { file: FileId, source_root: SourceRootId },
    /// The application behind `source_root` becomes `app`; `None` forgets it.
    SetAppData { source_root: SourceRootId, app: Option<AppData> },
    /// The description of `project` becomes `data`.
    SetProjectData { project: ProjectId, data: Arc<ProjectData> },
    /// The modules of `project` become `index`.
    SetModuleIndex { project: ProjectId, index: Arc<ModuleIndex> },
}

/// A description of modified inputs: edits, applied in order.
#[derive(Debug, PartialEq, Eq)]
pub struct Change {
    edits: Vec<Edit>,
}

impl View for Change {
    type V = Seq<Edit>;

    /// The edits, in the order in which they are applied.
    closed spec fn view(&self) -> Seq<Edit> {
        self.edits@
    }
}

impl Change {
    /// A change that modifies nothing.
    pub fn new() -> (change: Change)
        ensures
            change@ == Seq::<Edit>::empty(),
    {
        Change { edits: Vec::new() }
    }

    /// Appends `edit` to the change.
    pub fn push(&mut self, edit: Edit)
        ensures
            final(self)@ == old(self)@.push(edit),
    {
        self.edits.push(edit);
    }

    /// Number of edits.
    pub fn len(&self) -> (n: usize)
        ensures
            n == self@.len(),
    {
        self.edits.len()
    }
}

/// The facts of one generation, as mathematical maps keyed by the number
/// inside each identifier.
pub struct Facts {
    pub file_source_root: Map<u32, SourceRootId>,
    pub app_data: Map<u32, AppData>,
    pub project_data: Map<u32, Arc<ProjectData>>,
    pub module_index: Map<u32, Arc<ModuleIndex>>,
    pub file_text: Map<u32, Arc<String>>,
}

impl Facts {
    /// No facts at all.
    pub open spec fn empty() -> Facts {
        Facts {
            file_source_root: Map::empty(),
            app_data: Map::empty(),
            project_data: Map::empty(),
            module_index: Map::empty(),
            file_text: Map::empty(),
        }
    }

    /// The source root that `file` belongs to.
    pub open spec fn source_root(self, file: FileId) -> Option<SourceRootId> {
        if self.file_source_root.contains_key(file.0) {
            Some(self.file_source_root[file.0])
        } else {
            None
        }
    }

    /// The application behind `source_root`.
    pub open spec fn app(self, source_root: SourceRootId) -> Option<AppData> {
        if self.app_data.contains_key(source_root.0) {
            Some(self.app_data[source_root.0])
        } else {
            None
        }
    }

    /// The application that `file` belongs to.
    pub open spec fn app_of_file(self, file: FileId) -> Option<AppData> {
        match self.source_root(file) {
            Some(source_root) => self.app(source_root),
            None => None,
        }
    }

    /// The description of `project`.
    pub open spec fn project(self, project: ProjectId) -> Option<Arc<ProjectData>> {
        if self.project_data.contains_key(project.0) {
            Some(self.project_data[project.0])
        } else {
            None
        }
    }

    /// The entries of the module index of `project`; none for an unknown
    /// project.
    pub open spec fn modules(self, project: ProjectId) -> Seq<(ModuleName, FileId)> {
        if self.module_index.contains_key(project.0) {
            self.module_index[project.0]@
        } else {
            Seq::empty()
        }
    }

    /// The text of `file`; empty for an unknown file.
    pub open spec fn text(self, file: FileId) -> Seq<char> {
        if self.file_text.contains_key(file.0) {
            self.file_text[file.0]@
        } else {
            Seq::empty()
        }
    }

    /// The line starts of the text of `file`.
    pub open spec fn line_index(self, file: FileId) -> Seq<usize> {
        line_starts(vstd::utf8::encode_utf8(self.text(file)))
    }

    /// The role of the application that `file` belongs to.
    pub open spec fn file_app_type(self, file: FileId) -> Option<AppType> {
        match self.app_of_file(file) {
            Some(app) => Some(app.app_type),
            None => None,
        }
    }

    /// The description of the project that `file` belongs to.
    pub open spec fn project_of_file(self, file: FileId) -> Option<Arc<ProjectData>> {
        match self.app_of_file(file) {
            Some(app) => self.project(app.project_id),
            None => None,
        }
    }

    /// The name of the module that `file` defines, looked up in the module
    /// index of the project that `file` belongs to.
    pub open spec fn module_name(self, file: FileId) -> Option<ModuleName> {
        match self.app_of_file(file) {
            Some(app) => name_of(self.modules(app.project_id), file),
            None => None,
        }
    }

    /// The file that defines the module `name` of `project`.
    pub open spec fn module_file(self, project: ProjectId, name: Seq<char>) -> Option<FileId> {
        file_of(self.modules(project), name)
    }

    /// The facts after `edit`.
    pub open spec fn apply(self, edit: Edit) -> Facts {
        match edit {
            Edit::SetFileText { file, text } => Facts {
                file_text: self.file_text.insert(file.0, text),
                ..self
            },
            Edit::SetFileSourceRoot { file, source_root } => Facts {
                file_source_root: self.file_source_root.insert(file.0, source_root),
                ..self
            },
            Edit::SetAppData { source_root, app } => match app {
                Some(app) => Facts { app_data: self.app_data.insert(source_root.0, app), ..self },
                None => Facts { app_data: self.app_data.remove(source_root.0), ..self },
            },
            Edit::SetProjectData { project, data } => Facts {
                project_data: self.project_data.insert(project.0, data),
                ..self
            },
            Edit::SetModuleIndex { project, index } => Facts {
                module_index: self.module_index.insert(project.0, index),
                ..self
            },
        }
    }

    /// The facts after all of `edits`, applied from the first to the last.
    pub open spec fn apply_all(self, edits: Seq<Edit>) -> Facts
        decreases edits.len(),
    {
        if edits.len() == 0 {
            self
        } else {
            self.apply_all(edits.drop_last()).apply(edits.last())
        }
    }
}

/// `Arc::clone`: a second pointer to the value that `a` points to. The
/// contract claims that the value behind the new pointer is the value behind
/// `a`.
#[verifier::external_body]
pub(crate) fn share<T>(a: &Arc<T>) -> (res: Arc<T>)
    ensures
        res == *a,
{
    Arc::clone(a)
}

/// The storage: the facts of the current generation.
#[derive(Debug)]
pub struct RootDatabase {
    source_roots: HashMap<u32, SourceRootId>,
    apps: HashMap<u32, AppData>,
    projects: HashMap<u32, Arc<ProjectData>>,
    indexes: HashMap<u32, Arc<ModuleIndex>>,
    texts: HashMap<u32, Arc<String>>,
}

impl View for RootDatabase {
    type V = Facts;

    closed spec fn view(&self) -> Facts {
        Facts {
            file_source_root: self.source_roots@,
            app_data: self.apps@,
            project_data: self.projects@,
            module_index: self.indexes@,
            file_text: self.texts@,
        }
    }
}

impl RootDatabase {
    /// A storage without facts.
    pub fn new() -> (db: RootDatabase)
        ensures
            db@ == Facts::empty(),
    {
        RootDatabase {
            source_roots: HashMap::new(),
            apps: HashMap::new(),
            projects: HashMap::new(),
            indexes: HashMap::new(),
            texts: HashMap::new(),
        }
    }

    /// Changes one input fact.
    pub fn apply(&mut self, edit: &Edit)
        ensures
            final(self)@ == old(self)@.apply(*edit),
    {
        match edit {
            Edit::SetFileText { file, text } => {
                self.texts.insert(file.0, share(text));
            },
            Edit::SetFileSourceRoot { file, source_root } => {
                self.source_roots.insert(file.0, *source_root);
            },
            Edit::SetAppData { source_root, app } => {
                match app {
                    Some(app) => {
                        self.apps.insert(source_root.0, *app);
                    },
                    None => {
                        self.apps.remove(&source_root.0);
                    },
                }
            },
            Edit::SetProjectData { project, data } => {
                self.projects.insert(project.0, share(data));
            },
            Edit::SetModuleIndex { project, index } => {
                self.indexes.insert(project.0, share(index));
            },
        }
    }

    /// Applies the edits of `change` in order.
    pub fn apply_change(&mut self, change: &Change)
        ensures
            final(self)@ == old(self)@.apply_all(change@),
    {
        let mut i: usize = 0;
        assert(change.edits@.take(0).len() == 0);
        while i < change.edits.len()
            invariant
                i <= change.edits@.len(),
                self@ == old(self)@.apply_all(change.edits@.take(i as int)),
            decreases change.edits@.len() - i,
        {
            let ghost next = change.edits@.take(i + 1);
            assert(next.drop_last() == change.edits@.take(i as int));
            assert(next.last() == change.edits@[i as int]);
            self.apply(&change.edits[i]);
            i += 1;
        }
        assert(change.edits@.take(i as int) == change.edits@);
    }

    /// The source root that `file_id` belongs to.
    pub fn file_source_root(&self, file_id: FileId) -> (res: Option<SourceRootId>)
        ensures
            res == self@.source_root(file_id),
    {
        match self.source_roots.get(&file_id.0) {
            Some(source_root) => Some(*source_root),
            None => None,
        }
    }

    /// The application behind `source_root`.
    pub fn app_data(&self, source_root: SourceRootId) -> (res: Option<AppData>)
        ensures
            res == self@.app(source_root),
    {
        match self.apps.get(&source_root.0) {
            Some(app) => Some(*app),
            None => None,
        }
    }

    /// The description of `project_id`.
    pub fn project_data(&self, project_id: ProjectId) -> (res: Option<Arc<ProjectData>>)
        ensures
            res == self@.project(project_id),
    {
        match self.projects.get(&project_id.0) {
            Some(data) => Some(share(data)),
            None => None,
        }
    }

    /// The module index of `project_id`; an empty one for an unknown project.
    pub fn module_index(&self, project_id: ProjectId) -> (res: Arc<ModuleIndex>)
        ensures
            res@ == self@.modules(project_id),
            self@.module_index.contains_key(project_id.0) ==> res == self@.module_index[project_id.0],
    {
        match self.indexes.get(&project_id.0) {
            Some(index) => share(index),
            None => Arc::new(ModuleIndex::new()),
        }
    }

    /// The text of `file_id`; an empty one for an unknown file.
    pub fn file_text(&self, file_id: FileId) -> (res: Arc<String>)
        ensures
            res@ == self@.text(file_id),
            self@.file_text.contains_key(file_id.0) ==> res == self@.file_text[file_id.0],
    {
        match self.texts.get(&file_id.0) {
            Some(text) => share(text),
            None => Arc::new(String::new()),
        }
    }

    /// The line index of the text of `file_id`.
    pub fn file_line_index(&self, file_id: FileId) -> (res: Arc<LineIndex>)
        ensures
            res@ == self@.line_index(file_id),
    {
        let text = self.file_text(file_id);
        Arc::new(LineIndex::new(text.as_str()))
    }

    /// The role of the application that `file_id` belongs to.
    pub fn file_app_type(&self, file_id: FileId) -> (res: Option<AppType>)
        ensures
            res == self@.file_app_type(file_id),
    {
        match self.app_of_file(file_id) {
            Some(app) => Some(app.app_type),
            None => None,
        }
    }

    /// The application that `file_id` belongs to.
    pub fn app_of_file(&self, file_id: FileId) -> (res: Option<AppData>)
        ensures
            res == self@.app_of_file(file_id),
    {
        match self.file_source_root(file_id) {
            Some(source_root) => self.app_data(source_root),
            None => None,
        }
    }
}

} // verus!
