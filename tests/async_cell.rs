use rwcell::{Acquire, AsyncCell, RequestStage, RwCell};

fn ready<G>(a: Acquire<G>) -> G {
    match a {
        Acquire::Ready(g) => g,
        Acquire::Pending => panic!("expected the borrow to be taken"),
    }
}

#[test]
fn write_handoff_between_tasks() {
    let mut cell: AsyncCell<i32, ()> = AsyncCell::new(0);
    let mut fa = cell.async_write();
    let ga = ready(fa.poll(&mut cell));
    assert_eq!(fa.stage(), RequestStage::Satisfied);
    *cell.write_mut(&ga) = 1;
    let mut fb = cell.async_write();
    assert!(matches!(fb.poll(&mut cell), Acquire::Pending));
    assert_eq!(fb.stage(), RequestStage::Waiting);
    assert!(cell.drop_write(ga));
    let gb = ready(fb.poll(&mut cell));
    assert_eq!(*cell.write_ref(&gb), 1);
    *cell.write_mut(&gb) = 2;
    assert!(cell.drop_write(gb));
    let mut fr = cell.async_read();
    let gr = ready(fr.poll(&mut cell));
    assert_eq!(*cell.read_ref(&gr), 2);
    assert!(cell.drop_read(gr));
}

#[test]
fn readers_block_a_writer_until_both_leave() {
    let mut cell: AsyncCell<String, ()> = AsyncCell::new(String::from("shared"));
    let r1 = ready(cell.async_read().poll(&mut cell));
    let r2 = ready(cell.poll_read());
    assert_eq!(cell.read_ref(&r1), cell.read_ref(&r2));
    assert_eq!(cell.read_ref(&r1), "shared");
    let mut fw = cell.async_write();
    assert!(matches!(fw.poll(&mut cell), Acquire::Pending));
    assert!(!cell.drop_read(r1));
    assert!(matches!(fw.poll(&mut cell), Acquire::Pending));
    assert!(cell.drop_read(r2));
    let w = ready(fw.poll(&mut cell));
    assert_eq!(cell.cell_ref().readers(), None);
    assert!(cell.drop_write(w));
}

#[test]
fn cancelled_write_request_changes_nothing() {
    let mut cell: AsyncCell<u8, ()> = AsyncCell::new(9);
    let r = ready(cell.poll_read());
    let mut fw = cell.async_write();
    assert_eq!(fw.stage(), RequestStage::Unstarted);
    assert!(matches!(fw.poll(&mut cell), Acquire::Pending));
    drop(fw);
    assert_eq!(cell.cell_ref().readers(), Some(1));
    let r2 = ready(cell.poll_read());
    assert_eq!(cell.cell_ref().readers(), Some(2));
    assert!(!cell.drop_read(r));
    assert!(cell.drop_read(r2));
    let untouched = cell.async_write();
    drop(untouched);
    let w = ready(cell.poll_write());
    assert!(cell.drop_write(w));
}

#[test]
fn write_refused_while_writing() {
    let mut cell: AsyncCell<u8, ()> = AsyncCell::from_cell(RwCell::new(4));
    let w = ready(cell.poll_write());
    assert!(matches!(cell.poll_write(), Acquire::Pending));
    assert!(matches!(cell.poll_read(), Acquire::Pending));
    assert!(cell.drop_write(w));
    assert_eq!(cell.cell_ref().readers(), Some(0));
}

#[test]
fn cell_parts_are_reachable() {
    let mut cell = AsyncCell::from_parts(RwCell::new(1u16), 77u32);
    assert_eq!(*cell.wakers_ref(), 77);
    *cell.cell_mut().get_mut() = 8;
    assert_eq!(*cell.cell_ref().get_ref_unchecked(), 8);
    let d: AsyncCell<u16, ()> = AsyncCell::default();
    assert_eq!(*d.cell_ref().get_ref_unchecked(), 0);
}
