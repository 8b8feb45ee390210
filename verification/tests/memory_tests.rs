use sharky_env::sharky_data_types::{SharkyDataType, SharkyStackMode};
use sharky_env::sharky_memory::{copy_stack, SharkyDataStack, SharkyHeap, SharkyMemoryLayout, SharkyStack};

fn stack_of(values: Vec<SharkyDataType>) -> SharkyDataStack {
    let mut s = SharkyDataStack::default();
    for v in values {
        s.push(v);
    }
    s
}

#[test]
fn stack_push_read_top_and_pop() {
    let mut s: SharkyStack<i64> = SharkyStack::default();
    assert_eq!(s.size(), 0);
    assert_eq!(s.read(0), None);
    s.push(7);
    s.push(9);
    assert_eq!(s.size(), 2);
    assert_eq!(s.read_top(), Some(&9));
    assert_eq!(s.read(0), Some(&7));
    s.pop();
    assert_eq!(s.read_top(), Some(&7));
    assert_eq!(s.size(), 1);
}

#[test]
fn stack_pop_on_empty_changes_nothing() {
    let mut s: SharkyStack<u8> = SharkyStack::default();
    s.pop();
    assert_eq!(s.size(), 0);
}

#[test]
fn stack_set_in_range_and_past_the_top() {
    let mut s: SharkyStack<u8> = SharkyStack::default();
    s.push(1);
    s.push(2);
    s.set(0, 5);
    assert_eq!(s.get_vec(), &vec![5u8, 2]);
    s.set(2, 9);
    assert_eq!(s.get_vec(), &vec![5u8, 2]);
}

#[test]
fn stack_search_iter_and_clear() {
    let mut s: SharkyStack<u8> = SharkyStack::default();
    s.push(4);
    s.push(8);
    assert!(s.search(&8));
    assert!(!s.search(&3));
    let items: Vec<u8> = s.iter().cloned().collect();
    assert_eq!(items, vec![4u8, 8]);
    s.get_vec_mut().push(15);
    assert_eq!(s.size(), 3);
    s.clear();
    assert_eq!(s.size(), 0);
}

#[test]
fn copy_stack_copies_values() {
    let s = stack_of(vec![SharkyDataType::Int(-3), SharkyDataType::Nil]);
    let c = copy_stack(&s);
    assert_eq!(c.get_vec(), s.get_vec());
}

#[test]
fn memory_layout_starts_with_one_selected_local_stack() {
    let mut m = SharkyMemoryLayout::new();
    assert_eq!(m.get_local_stacks().len(), 1);
    assert_eq!(m.get_active_stack().map(|s| s.size()), Some(0));
    m.get_active_stack_mut().unwrap().push(SharkyDataType::Max(3));
    assert_eq!(m.get_local_stacks()[0].read(0), Some(&SharkyDataType::Max(3)));
}

#[test]
fn memory_layout_local_stacks_and_modes() {
    let mut m = SharkyMemoryLayout::new();
    m.new_local_stack();
    assert_eq!(m.get_local_stacks().len(), 2);
    m.select_local_stack(5);
    assert!(m.get_active_stack().is_none());
    m.select_local_stack(1);
    assert!(m.get_active_stack().is_some());
    m.pop_local_stack();
    assert_eq!(m.get_local_stacks().len(), 1);
    assert!(m.get_active_stack().is_none());

    m.set_stack_mode(SharkyStackMode::Parameter);
    m.get_active_stack_mut().unwrap().push(SharkyDataType::Bool(true));
    assert_eq!(m.get_parameter_stack().read(0), Some(&SharkyDataType::Bool(true)));

    m.set_stack_mode(SharkyStackMode::Native);
    assert!(m.get_active_stack().is_none());
    assert!(m.get_active_stack_mut().is_none());
}

#[test]
fn memory_layout_transitional_mode_reads_operational_writes_transitional() {
    let mut m = SharkyMemoryLayout::new();
    m.get_operational_stack().push(SharkyDataType::Int(1));
    m.get_transitional_stack().push(SharkyDataType::Int(2));
    m.set_stack_mode(SharkyStackMode::Transitional);
    assert_eq!(m.get_active_stack().unwrap().read(0), Some(&SharkyDataType::Int(1)));
    assert_eq!(m.get_active_stack_mut().unwrap().read(0), Some(&SharkyDataType::Int(2)));
}

#[test]
fn memory_layout_heap_references() {
    let mut m = SharkyMemoryLayout::new();
    assert!(!m.has_heap_ref(4));
    m.get_operational_stack().push(SharkyDataType::HeapReference(4));
    assert!(m.has_heap_ref(4));
    assert!(!m.has_heap_ref(5));
    let p = stack_of(vec![SharkyDataType::HeapReference(5)]);
    m.set_parameter_stack(&p);
    assert!(m.has_heap_ref(5));
    m.get_parameter_stack_mut().clear();
    assert!(!m.has_heap_ref(5));
}

#[test]
fn heap_allocate_gives_fresh_empty_frames() {
    let mut h = SharkyHeap::new();
    let a = h.allocate();
    let b = h.allocate();
    assert_ne!(a, b);
    assert_eq!(h.get_allocation_count(), 2);
    assert_eq!(h.size_frame(a), Some(0));
    assert_eq!(h.collect_heap_indexes(), vec![a.min(b), a.max(b)]);
    h.reset_allocation_count();
    assert_eq!(h.get_allocation_count(), 0);
}

#[test]
fn heap_push_then_read_back() {
    let mut h = SharkyHeap::default();
    let f = h.allocate();
    assert_eq!(h.push(f, &SharkyDataType::Byte(7)), Some(()));
    assert_eq!(h.push(f, &SharkyDataType::Int(-1)), Some(()));
    assert_eq!(h.read(f, 0), Some(SharkyDataType::Byte(7)));
    assert_eq!(h.read(f, 1), Some(SharkyDataType::Int(-1)));
    assert_eq!(h.read(f, 2), None);
    assert_eq!(h.push(f + 1, &SharkyDataType::Nil), None);
    assert_eq!(h.read(f + 1, 0), None);
}

#[test]
fn heap_set_then_read_back() {
    let mut h = SharkyHeap::new();
    let f = h.take_frame(stack_of(vec![SharkyDataType::Nil, SharkyDataType::Nil]));
    assert_eq!(h.get_allocation_count(), 0);
    assert_eq!(h.set(f, 1, &SharkyDataType::Bool(false)), Some(()));
    assert_eq!(h.read(f, 1), Some(SharkyDataType::Bool(false)));
    assert_eq!(h.read(f, 0), Some(SharkyDataType::Nil));
    assert_eq!(h.set(f, 5, &SharkyDataType::Bool(true)), Some(()));
    assert_eq!(h.size_frame(f), Some(2));
    assert_eq!(h.set(f + 1, 0, &SharkyDataType::Nil), None);
}

#[test]
fn heap_take_frame_clone_and_free() {
    let mut h = SharkyHeap::new();
    let f = h.take_frame(stack_of(vec![SharkyDataType::Max(1), SharkyDataType::Max(2)]));
    let copy = h.get_frame_clone(f).unwrap();
    assert_eq!(copy.get_vec(), &vec![SharkyDataType::Max(1), SharkyDataType::Max(2)]);
    let g = h.clone_frame(f).unwrap();
    assert_ne!(f, g);
    assert_eq!(h.get_allocation_count(), 1);
    assert_eq!(h.read(g, 1), Some(SharkyDataType::Max(2)));
    h.set(g, 0, &SharkyDataType::Max(9));
    assert_eq!(h.read(f, 0), Some(SharkyDataType::Max(1)));
    h.free(f);
    assert!(h.get_frame_clone(f).is_none());
    assert_eq!(h.clone_frame(f), None);
    assert_eq!(h.size_frame(f), None);
    assert_eq!(h.collect_heap_indexes(), vec![g]);
}

#[test]
fn heap_has_reference_looks_into_frames() {
    let mut h = SharkyHeap::new();
    let a = h.allocate();
    let b = h.allocate();
    assert!(!h.has_reference(b));
    h.push(a, &SharkyDataType::HeapReference(b));
    assert!(h.has_reference(b));
    assert!(!h.has_reference(a));
}
