use global_cell::slot::SlotState;
use global_cell::{GlobalMut, GlobalRef};

#[test]
fn fresh_shared_cell_reads_absent() {
    let cell: GlobalRef<i32> = GlobalRef::new();
    assert_eq!(cell.state(), SlotState::Uninitialized);
    assert_eq!(cell.try_get(), None);
}

#[test]
fn fresh_exclusive_cell_reads_absent() {
    let cell: GlobalMut<i32> = GlobalMut::new();
    assert_eq!(cell.state(), SlotState::Uninitialized);
    assert_eq!(cell.try_get(), None);
    assert_eq!(cell.try_get_mut(), None);
}

#[test]
fn default_cells_are_fresh() {
    let shared: GlobalRef<u8> = GlobalRef::default();
    let exclusive: GlobalMut<u8> = GlobalMut::default();
    assert_eq!(shared.state(), SlotState::Uninitialized);
    assert_eq!(exclusive.state(), SlotState::Uninitialized);
}

#[test]
fn shared_set_then_get() {
    let mut cell: GlobalRef<i32> = GlobalRef::new();
    cell.set(4096);
    assert_eq!(cell.state(), SlotState::Registered(4096));
    assert_eq!(cell.get(), 4096);
    assert_eq!(cell.try_get(), Some(4096));
}

#[test]
fn exclusive_set_then_get_mut() {
    let mut cell: GlobalMut<i32> = GlobalMut::new();
    cell.set(4096);
    assert_eq!(cell.get_mut(), 4096);
    assert_eq!(cell.try_get_mut(), Some(4096));
    assert_eq!(cell.get(), cell.get_mut());
}

#[test]
fn shared_clear_then_try_get() {
    let mut cell: GlobalRef<i32> = GlobalRef::new();
    cell.set(4096);
    cell.clear();
    assert_eq!(cell.state(), SlotState::Empty);
    assert_eq!(cell.try_get(), None);
}

#[test]
fn exclusive_clear_then_try_get() {
    let mut cell: GlobalMut<i32> = GlobalMut::new();
    cell.set(4096);
    cell.clear();
    assert_eq!(cell.state(), SlotState::Empty);
    assert_eq!(cell.try_get(), None);
    assert_eq!(cell.try_get_mut(), None);
}

#[test]
fn clear_on_fresh_cell_is_legal() {
    let mut cell: GlobalRef<i32> = GlobalRef::new();
    cell.clear();
    assert_eq!(cell.state(), SlotState::Empty);
    assert_eq!(cell.try_get(), None);
}

#[test]
fn clear_is_idempotent() {
    let mut cell: GlobalMut<i32> = GlobalMut::new();
    cell.set(4096);
    cell.clear();
    cell.clear();
    assert_eq!(cell.state(), SlotState::Empty);
    assert_eq!(cell.try_get(), None);
}

#[test]
fn shared_double_set_last_wins() {
    let mut cell: GlobalRef<i32> = GlobalRef::new();
    cell.set(4096);
    cell.set(8192);
    assert_eq!(cell.get(), 8192);
    assert_eq!(cell.try_get(), Some(8192));
}

#[test]
fn exclusive_double_set_last_wins() {
    let mut cell: GlobalMut<i32> = GlobalMut::new();
    cell.set(4096);
    cell.set(8192);
    assert_eq!(cell.get_mut(), 8192);
    assert_eq!(cell.try_get_mut(), Some(8192));
}

#[test]
fn shared_with_leaves_empty() {
    let mut cell: GlobalRef<i32> = GlobalRef::new();
    let res = cell.with(4096, || 42);
    assert_eq!(res, 42);
    assert_eq!(cell.state(), SlotState::Empty);
    assert_eq!(cell.try_get(), None);
}

#[test]
fn exclusive_with_leaves_empty() {
    let mut cell: GlobalMut<i32> = GlobalMut::new();
    let res = cell.with(4096, || "done");
    assert_eq!(res, "done");
    assert_eq!(cell.state(), SlotState::Empty);
    assert_eq!(cell.try_get(), None);
    assert_eq!(cell.try_get_mut(), None);
}

#[test]
fn with_leaves_empty_when_body_reports_failure() {
    let mut cell: GlobalRef<i32> = GlobalRef::new();
    let res: Result<i32, &str> = cell.with(4096, || Err("body failed"));
    assert_eq!(res, Err("body failed"));
    assert_eq!(cell.state(), SlotState::Empty);
    assert_eq!(cell.try_get(), None);
}

#[test]
fn with_on_registered_cell_still_clears() {
    let mut cell: GlobalMut<i32> = GlobalMut::new();
    cell.set(4096);
    let res = cell.with(8192, || 0u8);
    assert_eq!(res, 0);
    assert_eq!(cell.state(), SlotState::Empty);
    assert_eq!(cell.try_get(), None);
}
