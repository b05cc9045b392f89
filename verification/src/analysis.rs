//! Snapshots and the read entry points.

use crate::base_db::AppType;
use crate::base_db::FileId;
use crate::base_db::LineIndex;
use crate::base_db::ModuleIndex;
use crate::base_db::ModuleName;
use crate::base_db::ProjectData;
use crate::base_db::ProjectId;
use crate::base_db::RootDatabase;
use crate::boundary::boundary;
use crate::boundary::Evaluation;
use crate::cancel::Cancellable;
use crate::cancel::Cancelled;
use crate::host::Analysis;
use crate::host::AnalysisHost;
use std::sync::Arc;
use vstd::prelude::*;

verus! {

/// The description of the project that `file_id` belongs to.
fn project_data_in(db: &RootDatabase, file_id: FileId) -> (res: Option<Arc<ProjectData>>)
    ensures
        res == db@.project_of_file(file_id),
{
    match db.app_of_file(file_id) {
        Some(app) => db.project_data(app.project_id),
        None => None,
    }
}

/// The name of the module that `file_id` defines.
fn module_name_in(db: &RootDatabase, file_id: FileId) -> (res: Option<ModuleName>)
    ensures
        res == db@.module_name(file_id),
{
    match db.app_of_file(file_id) {
        Some(app) => {
            let index = db.module_index(app.project_id);
            match index.module_for_file(file_id) {
                Some(name) => Some(name.duplicate()),
                None => None,
            }
        },
        None => None,
    }
}

/// The file that defines the module `module` of `project_id`.
fn module_file_in(db: &RootDatabase, project_id: ProjectId, module: &str) -> (res: Option<FileId>)
    ensures
        res == db@.module_file(project_id, module@),
{
    db.module_index(project_id).file_for_module(module)
}

impl Analysis {
    /// A second snapshot of the same generation. It is counted by `host` on
    /// its own and has to be released on its own.
    pub fn clone(&self, host: &mut AnalysisHost) -> (copy: Analysis)
        requires
            old(host)@.issued < u64::MAX,
        ensures
            copy@ == old(host)@.copy_of(self@),
            final(host)@ == old(host)@.duplicate(self@),
            final(host).storage() == old(host).storage(),
            final(host)@.wf(),
    {
        host.fork(self)
    }

    /// A poll point: `Err(Cancelled)` tells the query that calls it to stop.
    pub fn poll(&self, host: &AnalysisHost) -> (res: Cancellable<()>)
        ensures
            res == (if host@.admits(self@) {
                Ok::<(), Cancelled>(())
            } else {
                Err::<(), Cancelled>(Cancelled)
            }),
    {
        self.with_db(host, |db: &RootDatabase| -> (r: ()) { () })
    }

    /// Gets the file's `LineIndex`: data structure to convert between absolute
    /// offsets and line/column representation.
    pub fn line_index(&self, host: &AnalysisHost, file_id: FileId) -> (res: Cancellable<
        Arc<LineIndex>,
    >)
        ensures
            match res {
                Ok(index) => host@.admits(self@) && index@ == host@.facts.line_index(file_id),
                Err(_) => !host@.admits(self@),
            },
    {
        self.with_db(
            host,
            |db: &RootDatabase| -> (r: Arc<LineIndex>)
                ensures
                    r@ == db@.line_index(file_id)
                { db.file_line_index(file_id) },
        )
    }

    /// The description of the project that the file belongs to.
    pub fn project_data(&self, host: &AnalysisHost, file_id: FileId) -> (res: Cancellable<
        Option<Arc<ProjectData>>,
    >)
        ensures
            res == (if host@.admits(self@) {
                Ok::<Option<Arc<ProjectData>>, Cancelled>(host@.facts.project_of_file(file_id))
            } else {
                Err::<Option<Arc<ProjectData>>, Cancelled>(Cancelled)
            }),
    {
        self.with_db(
            host,
            |db: &RootDatabase| -> (r: Option<Arc<ProjectData>>)
                ensures
                    r == db@.project_of_file(file_id)
                { project_data_in(db, file_id) },
        )
    }

    /// Returns module name
    pub fn module_name(&self, host: &AnalysisHost, file_id: FileId) -> (res: Cancellable<
        Option<ModuleName>,
    >)
        ensures
            res == (if host@.admits(self@) {
                Ok::<Option<ModuleName>, Cancelled>(host@.facts.module_name(file_id))
            } else {
                Err::<Option<ModuleName>, Cancelled>(Cancelled)
            }),
    {
        self.with_db(
            host,
            |db: &RootDatabase| -> (r: Option<ModuleName>)
                ensures
                    r == db@.module_name(file_id)
                { module_name_in(db, file_id) },
        )
    }

    /// The module index of the project.
    pub fn module_index(&self, host: &AnalysisHost, project_id: ProjectId) -> (res: Cancellable<
        Arc<ModuleIndex>,
    >)
        ensures
            match res {
                Ok(index) => host@.admits(self@) && index@ == host@.facts.modules(project_id),
                Err(_) => !host@.admits(self@),
            },
    {
        self.with_db(
            host,
            |db: &RootDatabase| -> (r: Arc<ModuleIndex>)
                ensures
                    r@ == db@.modules(project_id)
                { db.module_index(project_id) },
        )
    }

    /// The file that defines the module `module` of the project.
    pub fn module_file_id(&self, host: &AnalysisHost, project_id: ProjectId, module: &str) -> (res:
        Cancellable<Option<FileId>>)
        ensures
            res == (if host@.admits(self@) {
                Ok::<Option<FileId>, Cancelled>(host@.facts.module_file(project_id, module@))
            } else {
                Err::<Option<FileId>, Cancelled>(Cancelled)
            }),
    {
        self.with_db(
            host,
            |db: &RootDatabase| -> (r: Option<FileId>)
                ensures
                    r == db@.module_file(project_id, module@)
                { module_file_in(db, project_id, module) },
        )
    }

    /// Returns the app_type for a file
    pub fn file_app_type(&self, host: &AnalysisHost, file_id: FileId) -> (res: Cancellable<
        Option<AppType>,
    >)
        ensures
            res == (if host@.admits(self@) {
                Ok::<Option<AppType>, Cancelled>(host@.facts.file_app_type(file_id))
            } else {
                Err::<Option<AppType>, Cancelled>(Cancelled)
            }),
    {
        self.with_db(
            host,
            |db: &RootDatabase| -> (r: Option<AppType>)
                ensures
                    r == db@.file_app_type(file_id)
                { db.file_app_type(file_id) },
        )
    }

    /// Performs an operation on the database that may be cancelled.
    ///
    /// The engine needs to be able to answer semantic questions about the
    /// code while the code is being modified. A common problem is that a
    /// long-running query is being calculated when a new change arrives.
    ///
    /// We can't just apply the change immediately: this will cause the pending
    /// query to see inconsistent state. So what we do is we **cancel** all
    /// pending queries before applying the change.
    ///
    /// `f` runs against the storage of the host exactly when the host admits
    /// this snapshot; otherwise the evaluation is aborted before it reads
    /// anything, and the boundary turns that into `Err(Cancelled)`.
    pub fn with_db<F, T>(&self, host: &AnalysisHost, f: F) -> (res: Cancellable<T>) where
        F: FnOnce(&RootDatabase) -> T,

        requires
            host@.admits(self@) ==> f.requires((&host.storage(),)),
        ensures
            host.storage()@ == host@.facts,
            match res {
                Ok(value) => host@.admits(self@) && f.ensures((&host.storage(),), value),
                Err(signal) => signal == Cancelled && !host@.admits(self@),
            },
    {
        let open = host.admits(self);
        let db = host.raw_database();
        boundary(
            || -> (evaluation: Evaluation<T>)
                requires
                    open ==> f.requires((db,))
                ensures
                    evaluation is Complete ==> open && f.ensures((db,), evaluation->Complete_0),
                    evaluation is Aborted ==> !open
                {
                    if open {
                        Evaluation::Complete(f(db))
                    } else {
                        Evaluation::Aborted
                    }
                },
        )
    }
}

} // verus!
