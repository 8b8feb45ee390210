use sharky_env::sharky_app::{tasks_have_reference, SharkyApp, GC_COLLECTION_COUNT};
use sharky_env::sharky_data_types::SharkyDataType;
use sharky_env::sharky_memory::{SharkyDataStack, SharkyMemoryLayout};

fn frame(values: Vec<SharkyDataType>) -> SharkyDataStack {
    let mut s = SharkyDataStack::default();
    for v in values {
        s.push(v);
    }
    s
}

#[test]
fn global_frames_are_stored_in_order() {
    let mut app = SharkyApp::new();
    app.add_global_frames(vec![
        frame(vec![SharkyDataType::Int(1)]),
        frame(vec![SharkyDataType::Int(2), SharkyDataType::Nil]),
    ]);
    let globals = app.globals().clone();
    assert_eq!(globals.len(), 2);
    assert_eq!(app.heap().read(globals[0], 0), Some(SharkyDataType::Int(1)));
    assert_eq!(app.heap().size_frame(globals[1]), Some(2));
    assert_eq!(app.heap().get_allocation_count(), 0);
}

#[test]
fn collection_waits_for_enough_allocations() {
    let mut app = SharkyApp::new();
    let f = app.heap_mut().allocate();
    app.garbage_collect(&vec![]);
    assert_eq!(app.heap().size_frame(f), Some(0));
    assert_eq!(app.heap().get_allocation_count(), 1);
}

#[test]
fn collection_frees_only_unreferenced_frames() {
    let mut app = SharkyApp::new();
    app.add_global_frames(vec![frame(vec![])]);
    let global = app.globals()[0];
    let mut frames = Vec::new();
    for _ in 0..GC_COLLECTION_COUNT {
        frames.push(app.heap_mut().allocate());
    }
    let by_global = frames[0];
    let by_task = frames[1];
    let by_frame = frames[2];
    app.heap_mut().push(global, &SharkyDataType::HeapReference(by_global));
    app.heap_mut().push(by_global, &SharkyDataType::HeapReference(by_frame));
    let mut memory = SharkyMemoryLayout::new();
    memory.get_operational_stack().push(SharkyDataType::HeapReference(by_task));
    let tasks = vec![&memory];
    assert!(tasks_have_reference(&tasks, by_task));
    assert!(!tasks_have_reference(&tasks, frames[3]));

    app.garbage_collect(&tasks);
    assert_eq!(app.heap().get_allocation_count(), 0);
    let left = app.heap().collect_heap_indexes();
    let mut expected = vec![global, by_global, by_task, by_frame];
    expected.sort();
    assert_eq!(left, expected);
    assert_eq!(app.heap().read(by_global, 0), Some(SharkyDataType::HeapReference(by_frame)));

    app.garbage_collect(&tasks);
    assert_eq!(app.heap().collect_heap_indexes(), expected);
}
