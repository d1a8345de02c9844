//! Decision logic of the compiler integration. The compilation engine itself
//! is an external collaborator; what is verified here is what the integration
//! decides: which status notifications surround a compilation, how
//! editor-held file batches become change-sets for the compiler's virtual
//! file system, and how a failed span resolution is flattened away.

use vstd::prelude::*;

use crate::editor::{CompileStatus, MemoryFiles, MemoryFilesShort};

verus! {

/// A batch of virtual-file-system changes handed to the compiler: full
/// contents to (re)insert and paths to remove.
pub struct FileChangeSet {
    pub inserts: Vec<(String, String)>,
    pub removes: Vec<String>,
}

/// How a change-set is applied to the compiler's shadow set: `Sync` replaces
/// the whole set, `Update` merges incrementally.
pub enum MemoryEvent {
    Sync(FileChangeSet),
    Update(FileChangeSet),
}

/// Wraps a compiler so that each compilation is reported: `Compiling` goes
/// out when a compilation starts, and its outcome is notified when it ends.
pub struct Reporter<C, H> {
    inner: C,
    cb: H,
}

impl<C, H> Reporter<C, H> {
    /// The wrapped compiler.
    pub closed spec fn inner_spec(self) -> C {
        self.inner
    }

    /// The callback that receives status and outcome notifications.
    pub closed spec fn cb_spec(self) -> H {
        self.cb
    }

    pub fn new(inner: C, cb: H) -> (r: Self)
        ensures
            r.inner_spec() == inner,
            r.cb_spec() == cb,
    {
        Reporter { inner, cb }
    }

    pub fn inner(&self) -> (r: &C)
        ensures
            *r == self.inner_spec(),
    {
        &self.inner
    }

    pub fn inner_mut(&mut self) -> (r: &mut C)
        ensures
            old(self).cb_spec() == final(self).cb_spec(),
            *final(r) == final(self).inner_spec(),
    {
        &mut self.inner
    }

    pub fn callback(&self) -> (r: &H)
        ensures
            *r == self.cb_spec(),
    {
        &self.cb
    }
}

/// The status reported before any compilation starts.
pub fn compile_starting_status() -> (r: CompileStatus)
    ensures
        r == CompileStatus::Compiling,
{
    CompileStatus::Compiling
}

/// The outcome notified once a compilation ends: success passes the document
/// through to the callback, failure is notified as `CompileError`.
pub fn compile_outcome_status(succeeded: bool) -> (r: Option<CompileStatus>)
    ensures
        succeeded ==> r is None,
        !succeeded ==> r == Some(CompileStatus::CompileError),
{
    if succeeded {
        None
    } else {
        Some(CompileStatus::CompileError)
    }
}

/// The change-set event for an editor-held file batch: every file in the
/// batch is inserted with its full content, nothing is removed, and the
/// event replaces the whole shadow set exactly when `reset_shadow` holds.
pub fn memory_update_event(files: MemoryFiles, reset_shadow: bool) -> (r: MemoryEvent)
    ensures
        reset_shadow ==> (r matches MemoryEvent::Sync(cs) && cs.inserts == files.files
            && cs.removes@ == Seq::<String>::empty()),
        !reset_shadow ==> (r matches MemoryEvent::Update(cs) && cs.inserts == files.files
            && cs.removes@ == Seq::<String>::empty()),
{
    let changes = FileChangeSet { inserts: files.files, removes: Vec::new() };
    if reset_shadow {
        MemoryEvent::Sync(changes)
    } else {
        MemoryEvent::Update(changes)
    }
}

/// The change-set event that removes an editor-held file batch from the
/// shadow set: every listed path is removed, nothing is inserted, applied as
/// an incremental update.
pub fn memory_removal_event(files: MemoryFilesShort) -> (r: MemoryEvent)
    ensures
        r matches MemoryEvent::Update(cs) && cs.removes == files.files && cs.inserts@ == Seq::<
            (String, String),
        >::empty(),
{
    MemoryEvent::Update(FileChangeSet { inserts: Vec::new(), removes: files.files })
}

/// Flattens a span-resolution outcome: an error from the resolver is logged
/// by the caller and treated as "no jump target", a successful resolution is
/// passed through.
pub fn flatten_resolution<T, E>(outcome: Result<Option<T>, E>) -> (r: Option<T>)
    ensures
        outcome matches Ok(inner) ==> r == inner,
        outcome is Err ==> r is None,
{
    match outcome {
        Ok(inner) => inner,
        Err(_) => None,
    }
}

} // verus!
