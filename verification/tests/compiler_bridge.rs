use preview_sync::editor::{CompileStatus, MemoryFiles, MemoryFilesShort};
use preview_sync::ts_compiler::{
    compile_outcome_status, compile_starting_status, flatten_resolution, memory_removal_event,
    memory_update_event, MemoryEvent, Reporter,
};

#[test]
fn compilation_is_reported_as_compiling_first() {
    assert_eq!(compile_starting_status(), CompileStatus::Compiling);
}

#[test]
fn compile_outcome_maps_failure_to_compile_error() {
    assert_eq!(compile_outcome_status(true), None);
    assert_eq!(
        compile_outcome_status(false),
        Some(CompileStatus::CompileError)
    );
}

#[test]
fn sync_batch_replaces_the_shadow_set() {
    let files = MemoryFiles {
        files: vec![("a.typ".to_string(), "one".to_string())],
    };
    match memory_update_event(files, true) {
        MemoryEvent::Sync(cs) => {
            assert_eq!(cs.inserts.len(), 1);
            assert_eq!(cs.inserts[0].0, "a.typ");
            assert_eq!(cs.inserts[0].1, "one");
            assert!(cs.removes.is_empty());
        }
        MemoryEvent::Update(_) => panic!("a reset batch must be a sync event"),
    }
}

#[test]
fn update_batch_merges_incrementally() {
    let files = MemoryFiles {
        files: vec![("b.typ".to_string(), "two".to_string())],
    };
    match memory_update_event(files, false) {
        MemoryEvent::Update(cs) => {
            assert_eq!(cs.inserts.len(), 1);
            assert_eq!(cs.inserts[0].0, "b.typ");
            assert!(cs.removes.is_empty());
        }
        MemoryEvent::Sync(_) => panic!("a non-reset batch must be an update event"),
    }
}

#[test]
fn removal_batch_removes_the_listed_paths() {
    let files = MemoryFilesShort {
        files: vec!["a.typ".to_string(), "b.typ".to_string()],
    };
    match memory_removal_event(files) {
        MemoryEvent::Update(cs) => {
            assert!(cs.inserts.is_empty());
            assert_eq!(cs.removes, vec!["a.typ".to_string(), "b.typ".to_string()]);
        }
        MemoryEvent::Sync(_) => panic!("a removal must be an update event"),
    }
}

#[test]
fn resolution_errors_flatten_to_no_target() {
    let ok: Result<Option<u32>, String> = Ok(Some(5));
    assert_eq!(flatten_resolution(ok), Some(5));
    let empty: Result<Option<u32>, String> = Ok(None);
    assert_eq!(flatten_resolution(empty), None);
    let err: Result<Option<u32>, String> = Err("resolver failed".to_string());
    assert_eq!(flatten_resolution(err), None);
}

#[test]
fn reporter_keeps_what_it_wraps() {
    let mut reporter = Reporter::new(7u32, "callback");
    assert_eq!(*reporter.inner(), 7);
    assert_eq!(*reporter.callback(), "callback");
    *reporter.inner_mut() = 9;
    assert_eq!(*reporter.inner(), 9);
}
