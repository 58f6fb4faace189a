use std::cell::Cell;
use std::rc::Rc;

use kwasm::host::KWasmLibrary;
use kwasm::web_worker::{
    spawn_message, WorkerManager, WorkerPhase, SPAWN_WORKER_COMMAND, TLS_ALIGN_COMMAND,
    TLS_SIZE_COMMAND, WASM_PAGE_SIZE, WORKER_STACK_SIZE,
};

fn registered_library() -> KWasmLibrary {
    let mut library = KWasmLibrary::null();
    library.complete_registration(5);
    library
}

#[test]
fn tls_metadata_queried_once_across_spawns() {
    let library = registered_library();
    let mut manager: WorkerManager<fn()> = WorkerManager::new();

    let calls = manager
        .tls_metadata_request(&library)
        .expect("the very first ask must query the host");
    assert_eq!(calls.0.library_id, 5);
    assert_eq!(calls.0.command, TLS_SIZE_COMMAND);
    assert!(calls.0.words.is_empty());
    assert_eq!(calls.1.command, TLS_ALIGN_COMMAND);

    // A second context asking while the query is in flight queries nothing.
    assert!(manager.tls_metadata_request(&library).is_none());

    manager.install_tls_metadata(16, 8);

    // Spawns hit the cache; no spawn ever queries again.
    manager.spawn(noop_entry);
    manager.spawn(noop_entry);
    assert!(manager.tls_metadata_request(&library).is_none());
}

fn noop_entry() {}

#[test]
fn tls_install_first_answer_wins() {
    let mut manager: WorkerManager<fn()> = WorkerManager::new();
    manager.install_tls_metadata(16, 8);
    manager.install_tls_metadata(32, 4);
    let md = manager.cached_tls_metadata();
    assert_eq!((md.size, md.align), (16, 8));
}

#[test]
fn spawned_closure_runs_exactly_once_with_regions_held() {
    let mut manager = WorkerManager::new();
    manager.install_tls_metadata(16, 8);

    let flag = Rc::new(Cell::new(0u32));
    let entry = {
        let flag = flag.clone();
        move || {
            let message = kwasm::console::log("worker ran");
            assert_eq!(message.text, "worker ran");
            flag.set(flag.get() + 1);
        }
    };
    let request = manager.spawn(entry);

    // Nothing runs until the host starts the context and the trampoline
    // fires; the bundle is pending and both regions are held for it.
    assert_eq!(flag.get(), 0);
    assert!(matches!(manager.worker_phase(request.bundle_handle), WorkerPhase::Pending));
    let (stack, tls) = manager.worker_regions(request.bundle_handle);
    assert!(stack.live && tls.live);

    let closure = manager
        .worker_entry_point(request.bundle_handle)
        .expect("first trampoline call must surrender the closure");

    // The regions stay valid for the closure's entire execution.
    let (stack, tls) = manager.worker_regions(request.bundle_handle);
    assert!(stack.live && tls.live);
    closure();
    assert_eq!(flag.get(), 1);
    let (stack, tls) = manager.worker_regions(request.bundle_handle);
    assert!(stack.live && tls.live);

    // The trampoline is one-shot: the same handle surrenders nothing again.
    assert!(manager.worker_entry_point(request.bundle_handle).is_none());
    assert_eq!(flag.get(), 1);

    // Only retiring the worker releases its regions.
    manager.worker_finished(request.bundle_handle);
    assert!(matches!(manager.worker_phase(request.bundle_handle), WorkerPhase::Finished));
    let (stack, tls) = manager.worker_regions(request.bundle_handle);
    assert!(!stack.live && !tls.live);
}

#[test]
fn trampoline_ignores_unknown_handles() {
    let mut manager: WorkerManager<fn()> = WorkerManager::new();
    assert!(manager.worker_entry_point(3).is_none());
}

#[test]
fn spawn_carves_aligned_disjoint_regions() {
    let mut manager: WorkerManager<fn()> = WorkerManager::new();
    manager.install_tls_metadata(16, 8);

    let first = manager.spawn(noop_entry);
    assert_eq!(first.bundle_handle, 0);
    // First stack occupies [0, 1 MiB); its pointer starts at the top.
    assert_eq!(first.stack_pointer, WORKER_STACK_SIZE);
    // The thread-local-storage region follows, already 8-byte aligned.
    assert_eq!(first.tls_pointer, WORKER_STACK_SIZE);

    let second = manager.spawn(noop_entry);
    assert_eq!(second.bundle_handle, 1);
    // The next stack is carved at the next page boundary past the first
    // worker's regions: 1 MiB + 16 bytes rounded up to 64 KiB.
    let second_stack_base = WORKER_STACK_SIZE + WASM_PAGE_SIZE;
    assert_eq!(second.stack_pointer, second_stack_base + WORKER_STACK_SIZE);
    assert_eq!(second.tls_pointer, second_stack_base + WORKER_STACK_SIZE);

    let (first_stack, first_tls) = manager.worker_regions(0);
    let (second_stack, second_tls) = manager.worker_regions(1);
    assert_eq!(first_stack.base, 0);
    assert_eq!(first_stack.size, WORKER_STACK_SIZE);
    assert_eq!(first_stack.align, WASM_PAGE_SIZE);
    assert_eq!(first_tls.base, WORKER_STACK_SIZE);
    assert_eq!((first_tls.size, first_tls.align), (16, 8));
    assert_eq!(second_stack.base, second_stack_base);
    assert_eq!(second_tls.base, second_stack_base + WORKER_STACK_SIZE);

    // No two regions overlap.
    let regions = [first_stack, first_tls, second_stack, second_tls];
    for (i, a) in regions.iter().enumerate() {
        for (j, b) in regions.iter().enumerate() {
            if i != j {
                assert!(a.base + a.size <= b.base || b.base + b.size <= a.base);
            }
        }
    }
}

#[test]
fn alloc_thread_local_storage_uses_cached_layout() {
    let mut manager: WorkerManager<fn()> = WorkerManager::new();
    manager.install_tls_metadata(24, 16);
    let base = manager.alloc_thread_local_storage();
    assert_eq!(base, 0);
    let base = manager.alloc_thread_local_storage();
    assert_eq!(base, 32);
}

#[test]
fn spawn_message_carries_handle_and_addresses() {
    let library = registered_library();
    let mut manager: WorkerManager<fn()> = WorkerManager::new();
    manager.install_tls_metadata(16, 8);
    let request = manager.spawn(noop_entry);
    let call = spawn_message(&library, &request);
    assert_eq!(call.library_id, 5);
    assert_eq!(call.command, SPAWN_WORKER_COMMAND);
    assert_eq!(
        call.words,
        vec![request.bundle_handle, request.stack_pointer, request.tls_pointer]
    );
}
