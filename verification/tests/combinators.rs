use std::cell::Cell;
use std::rc::Rc;

use burrito::Burrito;
use burrito::errors::{ErrorKind, IoError};
use burrito::memhandle::MemHandle;

fn perm_denied() -> IoError {
    IoError::new(ErrorKind::PermissionDenied, "denied".to_string())
}

#[test]
fn wrap_ok_is_good() {
    let b = Burrito::wrap(Ok(MemHandle::new(Vec::new())));
    assert!(b.is_good());
    assert!(!b.is_bad());
}

#[test]
fn wrap_err_is_bad() {
    let b: Burrito<(), MemHandle> = Burrito::wrap(Err(perm_denied()));
    assert!(b.is_bad());
    assert!(!b.is_good());
}

#[test]
fn wrap_func_runs_the_constructor() {
    let b = Burrito::wrap_func(|| Ok(MemHandle::new(b"xy".to_vec())));
    assert!(b.is_good());
    let b2: Burrito<(), MemHandle> = Burrito::wrap_func(|| Err(perm_denied()));
    assert!(b2.is_bad());
}

#[test]
fn round_trip_extraction() {
    // For a wrapper in Good(v, h): to_data yields v, to_handle yields h,
    // ok yields both -- no I/O happens on the way out.
    let h = MemHandle::new(b"abc".to_vec());
    let b = Burrito::wrap(Ok(h)).read(2);
    let (v, h) = b.ok().unwrap();
    assert_eq!(v, b"ab".to_vec());
    assert_eq!(h.operation_count(), 1);

    let b = Burrito::wrap(Ok(MemHandle::new(b"abc".to_vec()))).read(2);
    assert_eq!(b.to_data().unwrap(), b"ab".to_vec());

    let b = Burrito::wrap(Ok(MemHandle::new(b"abc".to_vec()))).read(2);
    let h = b.to_handle().unwrap();
    assert_eq!(h.stream_position(), 2);
    assert_eq!(h.into_bytes(), b"abc".to_vec());
}

#[test]
fn extraction_of_bad_yields_the_error() {
    let b: Burrito<(), MemHandle> = Burrito::wrap(Err(perm_denied()));
    match b.to_data() {
        Err(e) => assert_eq!(e, perm_denied()),
        Ok(_) => panic!("expected the captured error"),
    }
    let b: Burrito<(), MemHandle> = Burrito::wrap(Err(perm_denied()));
    assert!(b.to_handle().is_err());
    let b: Burrito<(), MemHandle> = Burrito::wrap(Err(perm_denied()));
    assert!(b.ok().is_err());
}

#[test]
fn and_then_is_lazy_on_bad() {
    // The function handed to and_then runs zero times when the receiver is
    // bad, and the same error comes through.
    let calls = Rc::new(Cell::new(0u32));
    let c = calls.clone();
    let b: Burrito<Vec<u8>, MemHandle> = Burrito::wrap(Err(perm_denied())).read(1);
    let out = b.and_then(move |_, rest| {
        c.set(c.get() + 1);
        rest
    });
    assert_eq!(calls.get(), 0);
    assert_eq!(out.to_data().unwrap_err(), perm_denied());
}

#[test]
fn and_then_runs_once_on_good_with_latest_value() {
    let calls = Rc::new(Cell::new(0u32));
    let c = calls.clone();
    let b = Burrito::wrap(Ok(MemHandle::new(b"hi!".to_vec()))).read(2);
    let out = b.and_then(move |v, rest| {
        c.set(c.get() + 1);
        assert_eq!(v, b"hi".to_vec());
        // the fresh wrapper has its value slot reset to unit
        assert!(rest.is_good());
        rest.read(1)
    });
    assert_eq!(calls.get(), 1);
    assert_eq!(out.to_data().unwrap(), b"!".to_vec());
}

#[test]
fn and_is_eager_and_gates_on_state() {
    // The alternative expression always runs -- argument evaluation is not
    // short-circuited -- but only a good receiver pivots to it.
    let made = Rc::new(Cell::new(0u32));

    let make_alt = |made: &Rc<Cell<u32>>| {
        made.set(made.get() + 1);
        Burrito::wrap(Ok(MemHandle::new(b"alt".to_vec())))
    };

    let good = Burrito::wrap(Ok(MemHandle::new(Vec::new())));
    let out = good.and(make_alt(&made));
    assert_eq!(made.get(), 1);
    assert_eq!(out.read(3).to_data().unwrap(), b"alt".to_vec());

    let bad: Burrito<(), MemHandle> = Burrito::wrap(Err(perm_denied()));
    let out = bad.and(make_alt(&made));
    assert_eq!(made.get(), 2, "the alternative was constructed although the receiver was bad");
    assert_eq!(out.to_data().unwrap_err(), perm_denied());
}

#[test]
fn and_pivots_to_a_handle_of_another_type() {
    // `and` may change both the value type and the handle type: its main use
    // is closing one handle and opening another.
    let done = Burrito::wrap(Ok(MemHandle::new(Vec::new()))).write_all(b"log");
    let pivoted = done.and(burrito::burrito());
    assert!(pivoted.is_good());

    let bad: Burrito<(), MemHandle> = Burrito::wrap(Err(perm_denied()));
    let pivoted = bad.and(burrito::burrito());
    assert!(pivoted.is_bad());
}

#[test]
fn or_is_eager_and_gates_on_state() {
    let made = Rc::new(Cell::new(0u32));

    let make_alt = |made: &Rc<Cell<u32>>| {
        made.set(made.get() + 1);
        Burrito::wrap(Ok(MemHandle::new(b"alt".to_vec())))
    };

    let good = Burrito::wrap(Ok(MemHandle::new(b"keep".to_vec())));
    let out = good.or(make_alt(&made));
    assert_eq!(made.get(), 1, "the alternative was constructed although the receiver was good");
    assert_eq!(out.read(4).to_data().unwrap(), b"keep".to_vec());

    let bad: Burrito<(), MemHandle> = Burrito::wrap(Err(perm_denied()));
    let out = bad.or(make_alt(&made));
    assert_eq!(made.get(), 2);
    assert_eq!(out.read(3).to_data().unwrap(), b"alt".to_vec());
}

#[test]
fn or_else_is_lazy_and_sees_the_error() {
    let calls = Rc::new(Cell::new(0u32));

    let c = calls.clone();
    let good = Burrito::wrap(Ok(MemHandle::new(Vec::new())));
    let out = good.or_else(move |_| {
        c.set(c.get() + 1);
        Burrito::wrap(Ok(MemHandle::new(Vec::new())))
    });
    assert_eq!(calls.get(), 0);
    assert!(out.is_good());

    let c = calls.clone();
    let bad: Burrito<(), MemHandle> = Burrito::wrap(Err(perm_denied()));
    let out = bad.or_else(move |e| {
        c.set(c.get() + 1);
        assert_eq!(e, perm_denied());
        Burrito::wrap(Ok(MemHandle::new(b"recovered".to_vec())))
    });
    assert_eq!(calls.get(), 1);
    assert!(out.is_good());
}

#[test]
fn ignore_resets_the_value_and_keeps_the_state() {
    let b = Burrito::wrap(Ok(MemHandle::new(b"abc".to_vec()))).read(2);
    let b = b.ignore();
    assert_eq!(b.to_data().unwrap(), ());

    let bad: Burrito<Vec<u8>, MemHandle> = Burrito::wrap(Err(perm_denied())).read(1);
    let bad = bad.ignore();
    assert_eq!(bad.to_data().unwrap_err(), perm_denied());
}

#[test]
fn propagation_carries_one_error_through_every_operation() {
    // Once an operation fails, each later non-recovery operation yields Bad
    // with the identical error and performs no I/O: the handle is gone, and
    // every step observes the very same captured failure.
    let h = MemHandle::with_limit(Vec::new(), 3);
    let b = Burrito::wrap(Ok(h)).write_all(b"hello");
    assert!(b.is_bad());

    let b = b.read(4);
    assert!(b.is_bad());
    let b = b.seek(burrito::caps::SeekFrom::Start(0));
    assert!(b.is_bad());
    let b = b.write(b"zz");
    assert!(b.is_bad());
    let b = b.fill_buf();
    assert!(b.is_bad());
    let b = b.consume(1);
    assert!(b.is_bad());
    let b = b.read_until(b',');
    assert!(b.is_bad());
    let b = b.read_line();
    assert!(b.is_bad());
    let b = b.read_to_end();
    assert!(b.is_bad());
    let e = b.to_data().unwrap_err();
    assert_eq!(e.kind, ErrorKind::WriteZero);
    assert_eq!(e.message, "failed to write whole buffer".to_string());
}

#[test]
fn recovery_is_the_only_way_out_of_bad() {
    let h = MemHandle::with_limit(Vec::new(), 0);
    let b = Burrito::wrap(Ok(h)).write_all(b"x").ignore();
    assert!(b.is_bad());
    let recovered = b.or_else(|e| {
        assert_eq!(e.kind, ErrorKind::WriteZero);
        Burrito::wrap(Ok(MemHandle::new(b"fresh".to_vec())))
    });
    assert!(recovered.is_good());
    assert_eq!(recovered.read_to_end().to_data().unwrap(), b"fresh".to_vec());
}
