//! The configuration store and the protocol of its file operations.
//!
//! Every operation is a transaction that the store drives one step at a time:
//! the transaction asks for a file to be read, copied to its backup or
//! written, the caller performs that and reports back, and the store decides
//! the next step. The store never writes the file before a fresh backup was
//! taken, and its cache changes only when a read validated or a write
//! succeeded.
use vstd::prelude::*;

use crate::config::{
    config_is_valid, problem_of, validate_claude_config_structure, ClaudeConfig,
    ConfigView, McpServer, Problem, ServerEntry,
};
use crate::diagnose::JsonErrorInfo;
use crate::messages::SaveResult;
use crate::text::{is_blank, str_is_blank};

verus! {

/// The suffix of the automatic backup beside the configuration file.
pub open spec fn backup_path(path: Seq<char>) -> Seq<char> {
    path + ".backup"@
}

pub fn backup_path_of(path: &String) -> (r: String)
    ensures
        r@ == backup_path(path@),
{
    path.clone().concat(".backup")
}

/// The configuration file to use: a given path unless it is blank, else the
/// platform's default location (or the reason it has none).
pub fn resolve_config_path(custom_path: Option<String>, default_path: Result<String, String>) -> (r: Result<String, String>)
    ensures
        match custom_path {
            Some(p) if !is_blank(p@) => r matches Ok(q) && q@ == p@,
            _ => match (r, default_path) {
                (Ok(q), Ok(d)) => q@ == d@,
                (Err(q), Err(d)) => q@ == d@,
                _ => false,
            },
        },
{
    match custom_path {
        Some(path) => {
            if str_is_blank(path.as_str()) {
                default_path
            } else {
                Ok(path)
            }
        },
        None => default_path,
    }
}

pub ghost struct StoreView {
    pub cache: Option<ConfigView>,
    pub path: Seq<char>,
}

/// The cached configuration and the path that the last load resolved.
pub struct ConfigStore {
    cache: Option<ClaudeConfig>,
    config_path: String,
}

impl View for ConfigStore {
    type V = StoreView;

    closed spec fn view(&self) -> StoreView {
        StoreView {
            cache: match self.cache {
                Some(c) => Some(c@),
                None => None,
            },
            path: self.config_path@,
        }
    }
}

#[derive(Clone, Copy, Debug, PartialEq, Eq, Structural)]
pub enum TxnKind {
    Load,
    Save,
    Add,
    Delete,
    /// Overwrite or create one entry: the backup is taken before the read,
    /// nothing is validated and the cache is left alone.
    Update,
}

/// What a transaction waits for.
#[derive(Clone, Copy, Debug, PartialEq, Eq, Structural)]
pub enum Stage {
    /// The file at `path` to be read and parsed.
    Reading,
    /// The file at `path` to be copied to its backup path.
    Copying,
    /// The pending configuration to be written to `path`.
    Writing,
}

pub ghost struct TxnView {
    pub kind: TxnKind,
    pub stage: Stage,
    pub path: Seq<char>,
    pub name: Seq<char>,
    pub server: Option<ServerEntry>,
    pub pending: ConfigView,
}

/// One operation of the store in progress.
pub struct StoreTxn {
    kind: TxnKind,
    stage: Stage,
    path: String,
    name: String,
    server: Option<McpServer>,
    pending: ClaudeConfig,
}

impl StoreTxn {
    /// An add carries its entry until the read, an update until the write;
    /// a save never reads.
    #[verifier::type_invariant]
    closed spec fn well_formed(&self) -> bool {
        &&& (self.kind == TxnKind::Add && self.stage == Stage::Reading) ==> self.server is Some
        &&& (self.kind == TxnKind::Update && self.stage != Stage::Writing) ==> self.server is Some
        &&& self.kind == TxnKind::Save ==> self.stage != Stage::Reading
    }
}

impl View for StoreTxn {
    type V = TxnView;

    closed spec fn view(&self) -> TxnView {
        TxnView {
            kind: self.kind,
            stage: self.stage,
            path: self.path@,
            name: self.name@,
            server: match self.server {
                Some(s) => Some(s@),
                None => None,
            },
            pending: self.pending@,
        }
    }
}

/// What reading and parsing the file gave.
pub enum ReadResult {
    /// The file could not be read.
    Failed { message: String },
    /// The file is not a configuration document: the parser's message and
    /// its diagnosis.
    Malformed { info: JsonErrorInfo, message: String },
    /// The file parsed as this configuration.
    Parsed { config: ClaudeConfig },
}

pub ghost enum ReadView {
    Failed(Seq<char>),
    Malformed(JsonErrorInfo, Seq<char>),
    Parsed(ConfigView),
}

impl View for ReadResult {
    type V = ReadView;

    open spec fn view(&self) -> ReadView {
        match self {
            ReadResult::Failed { message } => ReadView::Failed(message@),
            ReadResult::Malformed { info, message } => ReadView::Malformed(*info, message@),
            ReadResult::Parsed { config } => ReadView::Parsed(config@),
        }
    }
}

/// A hard failure of a store operation.
pub enum StoreError {
    /// A save came before any load resolved a path.
    PathNotSet,
    Read { path: String, message: String },
    Json { info: JsonErrorInfo, message: String },
    /// The configuration parsed but breaks a structural rule.
    Invalid { problem: Problem, server: String },
    Backup { message: String },
    Serialize { message: String },
    Write { message: String },
}

pub ghost enum ErrorView {
    PathNotSet,
    Read { path: Seq<char>, message: Seq<char> },
    Json(JsonErrorInfo, Seq<char>),
    Invalid,
    Backup(Seq<char>),
    Serialize(Seq<char>),
    Write(Seq<char>),
}

impl View for StoreError {
    type V = ErrorView;

    open spec fn view(&self) -> ErrorView {
        match self {
            StoreError::PathNotSet => ErrorView::PathNotSet,
            StoreError::Read { path, message } => ErrorView::Read {
                path: path@,
                message: message@,
            },
            StoreError::Json { info, message } => ErrorView::Json(*info, message@),
            StoreError::Invalid { .. } => ErrorView::Invalid,
            StoreError::Backup { message } => ErrorView::Backup(message@),
            StoreError::Serialize { message } => ErrorView::Serialize(message@),
            StoreError::Write { message } => ErrorView::Write(message@),
        }
    }
}

/// What the writer reports.
pub enum WriteResult {
    Written,
    SerializeFailed { message: String },
    WriteFailed { message: String },
}

pub ghost enum WriteView {
    Written,
    SerializeFailed(Seq<char>),
    WriteFailed(Seq<char>),
}

impl View for WriteResult {
    type V = WriteView;

    open spec fn view(&self) -> WriteView {
        match self {
            WriteResult::Written => WriteView::Written,
            WriteResult::SerializeFailed { message } => WriteView::SerializeFailed(message@),
            WriteResult::WriteFailed { message } => WriteView::WriteFailed(message@),
        }
    }
}

/// How a store operation ended when nothing failed. `AlreadyExists` and
/// `NotFound` are ordinary negative answers, not errors.
#[derive(Clone, Copy, Debug, PartialEq, Eq, Structural)]
pub enum StoreOutcome {
    Loaded,
    Saved,
    Added,
    AlreadyExists,
    Deleted,
    NotFound,
    Updated,
}

impl StoreOutcome {
    /// The notification an operation that changed the file sends, beside the
    /// general change notice; operations that changed nothing send none.
    pub fn change_event(&self) -> (r: Option<&'static str>)
        ensures
            r is Some <==> (*self is Added || *self is Deleted || *self is Updated),
            r matches Some(e) ==> e@ == match *self {
                StoreOutcome::Added => "server-added"@,
                StoreOutcome::Deleted => "server-deleted"@,
                _ => "server-updated"@,
            },
    {
        match self {
            StoreOutcome::Added => Some("server-added"),
            StoreOutcome::Deleted => Some("server-deleted"),
            StoreOutcome::Updated => Some("server-updated"),
            _ => None,
        }
    }

    /// The answer shown for an add, delete or update of `name`.
    pub fn to_result(&self, name: &str) -> (r: SaveResult)
        requires
            !(*self is Loaded),
            !(*self is Saved),
        ensures
            r.success == (*self is Added || *self is Deleted || *self is Updated),
            r.message@ == "Server '"@ + name@ + match *self {
                StoreOutcome::Added => "' added successfully"@,
                StoreOutcome::AlreadyExists => "' already exists"@,
                StoreOutcome::Deleted => "' deleted successfully"@,
                StoreOutcome::NotFound => "' not found"@,
                _ => "' updated successfully"@,
            },
    {
        let (success, tail) = match self {
            StoreOutcome::Added => (true, "' added successfully"),
            StoreOutcome::AlreadyExists => (false, "' already exists"),
            StoreOutcome::Deleted => (true, "' deleted successfully"),
            StoreOutcome::NotFound => (false, "' not found"),
            _ => (true, "' updated successfully"),
        };
        SaveResult { success, message: String::from_str("Server '").concat(name).concat(tail) }
    }
}

pub enum Step {
    Next(StoreTxn),
    Finished(Result<StoreOutcome, StoreError>),
}

pub ghost enum StepView {
    Next(TxnView),
    Finished(Result<StoreOutcome, ErrorView>),
}

impl View for Step {
    type V = StepView;

    open spec fn view(&self) -> StepView {
        match self {
            Step::Next(t) => StepView::Next(t@),
            Step::Finished(Ok(o)) => StepView::Finished(Ok(*o)),
            Step::Finished(Err(e)) => StepView::Finished(Err(e@)),
        }
    }
}

// ---- the protocol, as functions on views ----

pub open spec fn reading_txn(kind: TxnKind, path: Seq<char>, name: Seq<char>, server: Option<
    ServerEntry,
>) -> TxnView {
    TxnView { kind, stage: Stage::Reading, path, name, server, pending: Map::empty() }
}

/// Starting a load, add or delete remembers the resolved path and asks for
/// the file to be read.
pub open spec fn start_read(
    s: StoreView,
    kind: TxnKind,
    path: Seq<char>,
    name: Seq<char>,
    server: Option<ServerEntry>,
) -> (StoreView, TxnView) {
    (StoreView { path, ..s }, reading_txn(kind, path, name, server))
}

/// Starting a save needs a resolved path; it asks first for the backup copy.
pub open spec fn start_save(s: StoreView, kind: TxnKind, name: Seq<char>, c: ConfigView) -> Result<
    TxnView,
    ErrorView,
> {
    if s.path.len() == 0 {
        Err(ErrorView::PathNotSet)
    } else {
        Ok(TxnView { kind, stage: Stage::Copying, path: s.path, name, server: None, pending: c })
    }
}

pub open spec fn step_of_start(r: Result<TxnView, ErrorView>) -> StepView {
    match r {
        Ok(t) => StepView::Next(t),
        Err(e) => StepView::Finished(Err(e)),
    }
}

/// The step after the file was read.
pub open spec fn read_step(s: StoreView, t: TxnView, rd: ReadView) -> (StoreView, StepView) {
    match rd {
        ReadView::Failed(m) => (s, StepView::Finished(Err(ErrorView::Read { path: t.path, message: m }))),
        ReadView::Malformed(info, m) => (s, StepView::Finished(Err(ErrorView::Json(info, m)))),
        ReadView::Parsed(c) => if t.kind == TxnKind::Update {
            (s, StepView::Next(TxnView { stage: Stage::Writing, server: None, pending: c.insert(t.name, t.server->0), ..t }))
        } else if !config_is_valid(c) {
            (s, StepView::Finished(Err(ErrorView::Invalid)))
        } else {
            let s2 = StoreView { cache: Some(c), ..s };
            match t.kind {
                TxnKind::Add => if c.contains_key(t.name) {
                    (s2, StepView::Finished(Ok(StoreOutcome::AlreadyExists)))
                } else {
                    (s2, step_of_start(start_save(s2, TxnKind::Add, t.name, c.insert(t.name, t.server->0))))
                },
                TxnKind::Delete => if !c.contains_key(t.name) {
                    (s2, StepView::Finished(Ok(StoreOutcome::NotFound)))
                } else {
                    (s2, step_of_start(start_save(s2, TxnKind::Delete, t.name, c.remove(t.name))))
                },
                _ => (s2, StepView::Finished(Ok(StoreOutcome::Loaded))),
            }
        },
    }
}

/// The step after the backup copy: a failed copy ends the operation before
/// anything is written.
pub open spec fn copy_step(s: StoreView, t: TxnView, copied: Result<(), Seq<char>>) -> (StoreView, StepView) {
    match copied {
        Ok(()) => if t.kind == TxnKind::Update {
            (s, StepView::Next(TxnView { stage: Stage::Reading, ..t }))
        } else {
            (s, StepView::Next(TxnView { stage: Stage::Writing, ..t }))
        },
        Err(m) => (s, StepView::Finished(Err(ErrorView::Backup(m)))),
    }
}

pub open spec fn success_of(kind: TxnKind) -> StoreOutcome {
    match kind {
        TxnKind::Add => StoreOutcome::Added,
        TxnKind::Delete => StoreOutcome::Deleted,
        TxnKind::Update => StoreOutcome::Updated,
        _ => StoreOutcome::Saved,
    }
}

/// The step after the write: the cache takes the written configuration only
/// when the write succeeded.
pub open spec fn write_step(s: StoreView, t: TxnView, w: WriteView) -> (StoreView, StepView) {
    match w {
        WriteView::Written => if t.kind == TxnKind::Update {
            (s, StepView::Finished(Ok(success_of(t.kind))))
        } else {
            (StoreView { cache: Some(t.pending), ..s }, StepView::Finished(Ok(success_of(t.kind))))
        },
        WriteView::SerializeFailed(m) => (s, StepView::Finished(Err(ErrorView::Serialize(m)))),
        WriteView::WriteFailed(m) => (s, StepView::Finished(Err(ErrorView::Write(m)))),
    }
}

// ---- whole operations against a model of the files ----

/// The files as the store sees them: each path maps to the configuration its
/// text parses to, the serializer being lossless on configurations.
pub type DiskView = Map<Seq<char>, ConfigView>;

/// The files after the copy of a copying stage, when it succeeded.
pub open spec fn disk_after_copy(d: DiskView, t: TxnView, copied: Result<(), Seq<char>>) -> DiskView {
    if copied is Ok {
        d.insert(backup_path(t.path), d[t.path])
    } else {
        d
    }
}

/// The files after the write of a writing stage, when it succeeded.
pub open spec fn disk_after_write(d: DiskView, t: TxnView, w: WriteView) -> DiskView {
    if w is Written {
        d.insert(t.path, t.pending)
    } else {
        d
    }
}

/// A save of `c` run to its end: the store afterwards, the result, and the
/// files afterwards, given how the copy and the write went.
pub open spec fn run_save(
    s: StoreView,
    c: ConfigView,
    d: DiskView,
    copied: Result<(), Seq<char>>,
    w: WriteView,
) -> (StoreView, Result<StoreOutcome, ErrorView>, DiskView) {
    match start_save(s, TxnKind::Save, Seq::empty(), c) {
        Err(e) => (s, Err(e), d),
        Ok(t1) => {
            let d1 = disk_after_copy(d, t1, copied);
            match copy_step(s, t1, copied).1 {
                StepView::Next(t2) => {
                    let (s3, st3) = write_step(s, t2, w);
                    (s3, st3->Finished_0, disk_after_write(d1, t2, w))
                },
                StepView::Finished(r) => (s, r, d1),
            }
        },
    }
}

/// A load of `path` run to its end, the file parsing as what `d` holds.
pub open spec fn run_load(s: StoreView, path: Seq<char>, d: DiskView) -> (StoreView, Result<StoreOutcome, ErrorView>) {
    let (s1, t1) = start_read(s, TxnKind::Load, path, Seq::empty(), None);
    let (s2, st2) = read_step(s1, t1, ReadView::Parsed(d[path]));
    (s2, st2->Finished_0)
}

/// An add or delete of `name` in the file at `path` run to its end, the file
/// parsing as what `d` holds.
pub open spec fn run_change(
    s: StoreView,
    kind: TxnKind,
    path: Seq<char>,
    name: Seq<char>,
    server: Option<ServerEntry>,
    d: DiskView,
    copied: Result<(), Seq<char>>,
    w: WriteView,
) -> (StoreView, Result<StoreOutcome, ErrorView>, DiskView) {
    let (s1, t1) = start_read(s, kind, path, name, server);
    let (s2, st2) = read_step(s1, t1, ReadView::Parsed(d[path]));
    match st2 {
        StepView::Finished(r) => (s2, r, d),
        StepView::Next(t3) => {
            let d3 = disk_after_copy(d, t3, copied);
            match copy_step(s2, t3, copied).1 {
                StepView::Next(t4) => {
                    let (s5, st5) = write_step(s2, t4, w);
                    (s5, st5->Finished_0, disk_after_write(d3, t4, w))
                },
                StepView::Finished(r) => (s2, r, d3),
            }
        },
    }
}

/// Adding a name that the file already holds, or deleting one it does not
/// hold, touches neither the file nor its backup, whatever a copy or write
/// would have done; on a valid file the answer is `AlreadyExists` or
/// `NotFound` and the cache takes the file as read.
pub proof fn lemma_negative_answers_write_nothing(
    s: StoreView,
    path: Seq<char>,
    name: Seq<char>,
    server: ServerEntry,
    d: DiskView,
    copied: Result<(), Seq<char>>,
    w: WriteView,
)
    requires
        d.contains_key(path),
    ensures
        d[path].contains_key(name) ==> ({
            let (s2, r, d2) = run_change(s, TxnKind::Add, path, name, Some(server), d, copied, w);
            &&& d2 == d
            &&& config_is_valid(d[path]) ==> r == Ok::<StoreOutcome, ErrorView>(StoreOutcome::AlreadyExists)
                && s2 == (StoreView { cache: Some(d[path]), path })
        }),
        !d[path].contains_key(name) ==> ({
            let (s2, r, d2) = run_change(s, TxnKind::Delete, path, name, None, d, copied, w);
            &&& d2 == d
            &&& config_is_valid(d[path]) ==> r == Ok::<StoreOutcome, ErrorView>(StoreOutcome::NotFound)
                && s2 == (StoreView { cache: Some(d[path]), path })
        }),
{
}

/// A successful add or delete leaves the file holding what it held with the
/// entry added or removed, and the backup holding what the file held before.
pub proof fn lemma_change_backs_up_then_writes(
    s: StoreView,
    path: Seq<char>,
    name: Seq<char>,
    server: ServerEntry,
    d: DiskView,
    copied: Result<(), Seq<char>>,
    w: WriteView,
)
    requires
        d.contains_key(path),
    ensures
        ({
            let (s2, r, d2) = run_change(s, TxnKind::Add, path, name, Some(server), d, copied, w);
            r == Ok::<StoreOutcome, ErrorView>(StoreOutcome::Added) ==> d2[path] == d[path].insert(name, server)
                && d2[backup_path(path)] == d[path] && s2.cache == Some(d[path].insert(name, server))
        }),
        ({
            let (s2, r, d2) = run_change(s, TxnKind::Delete, path, name, None, d, copied, w);
            r == Ok::<StoreOutcome, ErrorView>(StoreOutcome::Deleted) ==> d2[path] == d[path].remove(name)
                && d2[backup_path(path)] == d[path] && s2.cache == Some(d[path].remove(name))
        }),
{
    reveal_strlit(".backup");
    assert(backup_path(path).len() != path.len());
}

/// An update of `name` in the file at `path` run to its end: the backup copy
/// first, then the read of the file as `d` holds it after the copy, then the
/// write.
pub open spec fn run_update(
    s: StoreView,
    path: Seq<char>,
    name: Seq<char>,
    server: ServerEntry,
    d: DiskView,
    copied: Result<(), Seq<char>>,
    w: WriteView,
) -> (StoreView, Result<StoreOutcome, ErrorView>, DiskView) {
    let t0 = TxnView {
        kind: TxnKind::Update,
        stage: Stage::Copying,
        path,
        name,
        server: Some(server),
        pending: Map::empty(),
    };
    let d1 = disk_after_copy(d, t0, copied);
    match copy_step(s, t0, copied).1 {
        StepView::Finished(r) => (s, r, d1),
        StepView::Next(t1) => match read_step(s, t1, ReadView::Parsed(d1[path])).1 {
            StepView::Next(t2) => {
                let (s3, st3) = write_step(s, t2, w);
                (s3, st3->Finished_0, disk_after_write(d1, t2, w))
            },
            StepView::Finished(r) => (s, r, d1),
        },
    }
}

/// A successful update leaves the backup holding what the file held before
/// and the file holding it with the entry set; the store's cache and path
/// are left as they were.
pub proof fn lemma_update_backs_up_first(
    s: StoreView,
    path: Seq<char>,
    name: Seq<char>,
    server: ServerEntry,
    d: DiskView,
    copied: Result<(), Seq<char>>,
    w: WriteView,
)
    requires
        d.contains_key(path),
    ensures
        ({
            let (s2, r, d2) = run_update(s, path, name, server, d, copied, w);
            &&& r == Ok::<StoreOutcome, ErrorView>(StoreOutcome::Updated) ==> d2[backup_path(path)] == d[path]
                && d2[path] == d[path].insert(name, server)
            &&& s2 == s
        }),
{
    reveal_strlit(".backup");
    assert(backup_path(path).len() != path.len());
}

/// After a successful save the backup file holds the configuration the file
/// held just before, and the file holds the saved one; a failed backup copy
/// ends the save with the file untouched.
pub proof fn lemma_backup_after_save(
    s: StoreView,
    c: ConfigView,
    d: DiskView,
    copied: Result<(), Seq<char>>,
    w: WriteView,
)
    requires
        d.contains_key(s.path),
    ensures
        ({
            let (s2, r, d2) = run_save(s, c, d, copied, w);
            &&& r is Ok ==> d2.contains_key(backup_path(s.path)) && d2[backup_path(s.path)] == d[s.path]
                && d2[s.path] == c && s2.cache == Some(c)
            &&& copied is Err ==> r is Err && d2[s.path] == d[s.path]
        }),
{
    reveal_strlit(".backup");
    let bp = backup_path(s.path);
    assert(bp.len() != s.path.len());
}

/// Saving a valid configuration, loading the file back and saving again
/// leaves the file holding that configuration, and the load hands back
/// exactly what the first save wrote.
pub proof fn lemma_save_load_save(
    s: StoreView,
    c: ConfigView,
    d: DiskView,
)
    requires
        config_is_valid(c),
        s.path.len() > 0,
        d.contains_key(s.path),
    ensures
        ({
            let (s1, r1, d1) = run_save(s, c, d, Ok(()), WriteView::Written);
            let (s2, r2) = run_load(s1, s.path, d1);
            let (s3, r3, d3) = run_save(s2, s2.cache->0, d1, Ok(()), WriteView::Written);
            &&& r1 == Ok::<StoreOutcome, ErrorView>(StoreOutcome::Saved)
            &&& r2 == Ok::<StoreOutcome, ErrorView>(StoreOutcome::Loaded)
            &&& s2.cache == Some(c)
            &&& r3 == Ok::<StoreOutcome, ErrorView>(StoreOutcome::Saved)
            &&& d3[s.path] == c
        }),
{
    reveal_strlit(".backup");
    let bp = backup_path(s.path);
    assert(bp.len() != s.path.len());
}

impl StoreTxn {
    pub fn kind(&self) -> (r: TxnKind)
        ensures
            r == self@.kind,
    {
        self.kind
    }

    pub fn stage(&self) -> (r: Stage)
        ensures
            r == self@.stage,
    {
        self.stage
    }

    /// The file that the current stage reads, copies or writes.
    pub fn path(&self) -> (r: &String)
        ensures
            r@ == self@.path,
    {
        &self.path
    }

    /// Where the copy of the copying stage goes.
    pub fn backup_path(&self) -> (r: String)
        ensures
            r@ == backup_path(self@.path),
    {
        backup_path_of(&self.path)
    }

    /// The name that an add or delete is about.
    pub fn name(&self) -> (r: &String)
        ensures
            r@ == self@.name,
    {
        &self.name
    }

    /// The configuration that the writing stage writes.
    pub fn pending(&self) -> (r: &ClaudeConfig)
        ensures
            r@ == self@.pending,
    {
        &self.pending
    }
}

impl ConfigStore {
    pub fn new() -> (r: Self)
        ensures
            r@ == (StoreView { cache: None, path: Seq::empty() }),
    {
        ConfigStore { cache: None, config_path: String::new() }
    }

    /// The configuration of the last successful load or save.
    pub fn cached(&self) -> (r: Option<&ClaudeConfig>)
        ensures
            r is Some == self@.cache is Some,
            r is Some ==> r->0@ == self@.cache->0,
    {
        match &self.cache {
            Some(c) => Some(c),
            None => None,
        }
    }

    pub fn config_path(&self) -> (r: &String)
        ensures
            r@ == self@.path,
    {
        &self.config_path
    }

    fn begin_read(&mut self, kind: TxnKind, path: String, name: String, server: Option<McpServer>) -> (r: StoreTxn)
        requires
            kind != TxnKind::Save,
            kind == TxnKind::Add || kind == TxnKind::Update ==> server is Some,
        ensures
            (final(self)@, r@) == start_read(
                old(self)@,
                kind,
                path@,
                name@,
                match server {
                    Some(s) => Some(s@),
                    None => None,
                },
            ),
    {
        self.config_path = path.clone();
        let r = StoreTxn {
            kind,
            stage: Stage::Reading,
            path,
            name,
            server,
            pending: ClaudeConfig::new(),
        };
        r
    }

    /// Loads the file at `path`, which becomes the path of later saves.
    pub fn begin_load(&mut self, path: String) -> (r: StoreTxn)
        ensures
            (final(self)@, r@) == start_read(old(self)@, TxnKind::Load, path@, Seq::empty(), None),
    {
        self.begin_read(TxnKind::Load, path, String::new(), None)
    }

    /// Adds `server` under `name` to the file at `path`, as read afresh.
    pub fn begin_add(&mut self, path: String, name: String, server: McpServer) -> (r: StoreTxn)
        ensures
            (final(self)@, r@) == start_read(old(self)@, TxnKind::Add, path@, name@, Some(server@)),
    {
        self.begin_read(TxnKind::Add, path, name, Some(server))
    }

    /// Deletes `name` from the file at `path`, as read afresh.
    pub fn begin_delete(&mut self, path: String, name: String) -> (r: StoreTxn)
        ensures
            (final(self)@, r@) == start_read(old(self)@, TxnKind::Delete, path@, name@, None),
    {
        self.begin_read(TxnKind::Delete, path, name, None)
    }

    /// Overwrites or creates the entry `name` in the file at `path`: the
    /// file is copied to its backup first, then read and written back.
    pub fn begin_update(path: String, name: String, server: McpServer) -> (r: StoreTxn)
        ensures
            r@ == (TxnView {
                kind: TxnKind::Update,
                stage: Stage::Copying,
                path: path@,
                name: name@,
                server: Some(server@),
                pending: Map::empty(),
            }),
    {
        StoreTxn {
            kind: TxnKind::Update,
            stage: Stage::Copying,
            path,
            name,
            server: Some(server),
            pending: ClaudeConfig::new(),
        }
    }

    fn begin_write(&self, kind: TxnKind, name: String, config: ClaudeConfig) -> (r: Step)
        requires
            kind != TxnKind::Update,
        ensures
            r@ == step_of_start(start_save(self@, kind, name@, config@)),
    {
        if self.config_path.as_str().unicode_len() == 0 {
            Step::Finished(Err(StoreError::PathNotSet))
        } else {
            Step::Next(
                StoreTxn {
                    kind,
                    stage: Stage::Copying,
                    path: self.config_path.clone(),
                    name,
                    server: None,
                    pending: config,
                },
            )
        }
    }

    /// Saves `config` to the path of the last load, after a backup of the
    /// file as it stands.
    pub fn begin_save(&self, config: ClaudeConfig) -> (r: Step)
        ensures
            r@ == step_of_start(start_save(self@, TxnKind::Save, Seq::empty(), config@)),
    {
        self.begin_write(TxnKind::Save, String::new(), config)
    }

    /// Takes what reading the file gave. A load, add or delete validates it
    /// and caches it; an add of a present name and a delete of an absent one
    /// end here, with nothing copied or written.
    pub fn on_read(&mut self, txn: StoreTxn, read: ReadResult) -> (r: Step)
        requires
            txn@.stage == Stage::Reading,
        ensures
            (final(self)@, r@) == read_step(old(self)@, txn@, read@),
            r matches Step::Finished(Err(StoreError::Invalid { problem, server })) ==> read@ matches ReadView::Parsed(c)
                && c.contains_key(server@) && problem_of(server@, c[server@]) == Some(problem),
    {
        proof {
            use_type_invariant(&txn);
        }
        match read {
            ReadResult::Failed { message } => Step::Finished(
                Err(StoreError::Read { path: txn.path, message }),
            ),
            ReadResult::Malformed { info, message } => Step::Finished(
                Err(StoreError::Json { info, message }),
            ),
            ReadResult::Parsed { config } => {
                if txn.kind == TxnKind::Update {
                    let StoreTxn { kind, path, name, server, .. } = txn;
                    let mut next = config;
                    next.mcp_servers.insert(name.clone(), server.unwrap());
                    return Step::Next(
                        StoreTxn { kind, stage: Stage::Writing, path, name, server: None, pending: next },
                    );
                }
                match validate_claude_config_structure(&config) {
                    Err(e) => {
                        return Step::Finished(
                            Err(StoreError::Invalid { problem: e.problem, server: e.server }),
                        );
                    },
                    Ok(()) => {},
                }
                let StoreTxn { kind, name, server, .. } = txn;
                match kind {
                    TxnKind::Add => {
                        if config.mcp_servers.contains_key(name.as_str()) {
                            self.cache = Some(config);
                            Step::Finished(Ok(StoreOutcome::AlreadyExists))
                        } else {
                            let mut next = config.duplicate();
                            let server = server.unwrap();
                            next.mcp_servers.insert(name.clone(), server);
                            self.cache = Some(config);
                            self.begin_write(TxnKind::Add, name, next)
                        }
                    },
                    TxnKind::Delete => {
                        if !config.mcp_servers.contains_key(name.as_str()) {
                            self.cache = Some(config);
                            Step::Finished(Ok(StoreOutcome::NotFound))
                        } else {
                            let mut next = config.duplicate();
                            let _ = next.mcp_servers.remove(name.as_str());
                            self.cache = Some(config);
                            self.begin_write(TxnKind::Delete, name, next)
                        }
                    },
                    _ => {
                        self.cache = Some(config);
                        Step::Finished(Ok(StoreOutcome::Loaded))
                    },
                }
            },
        }
    }

    /// Takes the outcome of the backup copy.
    pub fn on_copied(&mut self, txn: StoreTxn, copied: Result<(), String>) -> (r: Step)
        requires
            txn@.stage == Stage::Copying,
        ensures
            (final(self)@, r@) == copy_step(
                old(self)@,
                txn@,
                match copied {
                    Ok(()) => Ok(()),
                    Err(m) => Err(m@),
                },
            ),
    {
        proof {
            use_type_invariant(&txn);
        }
        match copied {
            Ok(()) => if txn.kind == TxnKind::Update {
                Step::Next(StoreTxn { stage: Stage::Reading, ..txn })
            } else {
                Step::Next(StoreTxn { stage: Stage::Writing, ..txn })
            },
            Err(message) => Step::Finished(Err(StoreError::Backup { message })),
        }
    }

    /// Takes the outcome of the write.
    pub fn on_written(&mut self, txn: StoreTxn, written: WriteResult) -> (r: Step)
        requires
            txn@.stage == Stage::Writing,
        ensures
            (final(self)@, r@) == write_step(old(self)@, txn@, written@),
    {
        match written {
            WriteResult::Written => {
                let kind = txn.kind;
                let outcome = match kind {
                    TxnKind::Add => StoreOutcome::Added,
                    TxnKind::Delete => StoreOutcome::Deleted,
                    TxnKind::Update => StoreOutcome::Updated,
                    _ => StoreOutcome::Saved,
                };
                if kind != TxnKind::Update {
                    self.cache = Some(txn.pending);
                }
                Step::Finished(Ok(outcome))
            },
            WriteResult::SerializeFailed { message } => Step::Finished(
                Err(StoreError::Serialize { message }),
            ),
            WriteResult::WriteFailed { message } => Step::Finished(Err(StoreError::Write { message })),
        }
    }
}

} // verus!
