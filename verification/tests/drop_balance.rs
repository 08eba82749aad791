use bounded_buffer::BoundedBuffer;
use std::cell::Cell;
use std::rc::Rc;

/// An element that counts itself: the shared counter goes up when one is
/// made and down when one is dropped, so a balanced counter after a run
/// shows that no element leaked and none was released twice.
struct Counted {
    live: Rc<Cell<i64>>,
}

impl Counted {
    fn make(live: &Rc<Cell<i64>>) -> Counted {
        live.set(live.get() + 1);
        Counted { live: Rc::clone(live) }
    }
}

impl Drop for Counted {
    fn drop(&mut self) {
        self.live.set(self.live.get() - 1);
    }
}

#[test]
fn balanced_construction_and_destruction() {
    let live = Rc::new(Cell::new(0));

    {
        let mut buf = BoundedBuffer::new(4);
        assert!(buf.try_push(Counted::make(&live)).is_ok());
        assert!(buf.try_push(Counted::make(&live)).is_ok());
        assert!(buf.try_insert(1, Counted::make(&live)).is_ok());
        assert_eq!(live.get(), 3);

        // A removed element is handed out and dropped by the caller.
        let taken = buf.remove(0);
        drop(taken);
        assert_eq!(live.get(), 2);

        // A popped element likewise.
        let popped = buf.pop();
        drop(popped);
        assert_eq!(live.get(), 1);

        // Clearing destructs every remaining element.
        buf.clear();
        assert_eq!(live.get(), 0);

        // Dropping the buffer destructs whatever is still live.
        let _ = buf.try_push(Counted::make(&live));
        let _ = buf.try_push(Counted::make(&live));
        assert_eq!(live.get(), 2);
    }
    assert_eq!(live.get(), 0);
}

#[test]
fn failed_push_returns_the_value() {
    let live = Rc::new(Cell::new(0));
    let mut buf = BoundedBuffer::new(1);
    assert!(buf.try_push(Counted::make(&live)).is_ok());

    // On a full buffer the element comes back: it is neither leaked nor
    // silently dropped, and the caller decides its fate.
    let rejected = buf.try_push(Counted::make(&live));
    assert!(rejected.is_err());
    assert_eq!(live.get(), 2);
    drop(rejected);
    assert_eq!(live.get(), 1);

    drop(buf);
    assert_eq!(live.get(), 0);
}

#[test]
fn lossy_insert_drops_only_the_evicted() {
    let live = Rc::new(Cell::new(0));
    let mut buf = BoundedBuffer::new(2);
    assert!(buf.try_push(Counted::make(&live)).is_ok());
    assert!(buf.try_push(Counted::make(&live)).is_ok());
    assert_eq!(live.get(), 2);

    // Eviction destructs exactly the element that fell off the end.
    buf.insert_lossy(0, Counted::make(&live));
    assert_eq!(live.get(), 2);
    assert_eq!(buf.len(), 2);

    // Inserting past the last slot of a full buffer destructs the incoming
    // element and nothing else.
    buf.insert_lossy(2, Counted::make(&live));
    assert_eq!(live.get(), 2);

    drop(buf);
    assert_eq!(live.get(), 0);
}

#[test]
fn zero_capacity_releases_nothing() {
    let live = Rc::new(Cell::new(0));
    {
        let mut buf = BoundedBuffer::new(0);
        let rejected = buf.try_push(Counted::make(&live));
        assert!(rejected.is_err());
        assert_eq!(live.get(), 1);
    }
    assert_eq!(live.get(), 0);
}
