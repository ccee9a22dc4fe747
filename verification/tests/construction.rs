use burrito::{burrito, Burrito, FromPath, FromAddr};
use burrito::errors::{ErrorKind, IoError};
use burrito::memhandle::MemHandle;

/// A handle type whose construction always fails, the way opening a
/// forbidden path does.
struct NoFs;

impl FromPath for NoFs {
    fn from_path(path: &str) -> Result<Self, IoError> {
        Err(IoError::new(ErrorKind::PermissionDenied, format!("cannot open {}", path)))
    }
}

/// A handle type whose construction always fails, the way connecting to a
/// dead endpoint does.
struct NoNet;

impl FromAddr for NoNet {
    fn from_addr(addr: &str) -> Result<Self, IoError> {
        Err(IoError::new(ErrorKind::ConnectionRefused, format!("cannot reach {}", addr)))
    }
}

#[test]
fn from_path_failure_surfaces_as_initial_bad() {
    let b = Burrito::from_path::<NoFs>("/forbidden/file");
    assert!(b.is_bad());
    let e = b.to_data().unwrap_err();
    assert_eq!(e.kind, ErrorKind::PermissionDenied);
    assert_eq!(e.message, "cannot open /forbidden/file".to_string());
}

#[test]
fn chaining_on_a_failed_construction_keeps_the_error() {
    // A wrapper born bad -- as from an unwritable path -- propagates that
    // very error through read_to_string without attempting a read.
    let denied = IoError::new(ErrorKind::PermissionDenied, "cannot open /forbidden".to_string());
    let b: Burrito<(), MemHandle> = Burrito::wrap(Err(denied.clone()));
    let b = b.read_to_string();
    assert!(b.is_bad());
    assert_eq!(b.to_data().unwrap_err(), denied);
}

#[test]
fn from_addr_failure_surfaces_as_initial_bad() {
    let b = Burrito::from_addr::<NoNet>("localhost:12345");
    assert!(b.is_bad());
    let e = b.to_data().unwrap_err();
    assert_eq!(e.kind, ErrorKind::ConnectionRefused);
    assert_eq!(e.message, "cannot reach localhost:12345".to_string());
}

#[test]
fn the_default_wrapper_is_good() {
    let b = burrito();
    assert!(b.is_good());
    assert!(!b.is_bad());
    let b: Burrito<(), burrito::realworld::RealWorld> = Default::default();
    assert!(b.is_good());
}

#[test]
fn printing_through_the_default_wrapper_stays_good() {
    let b = burrito().print_line("burrito standard output check");
    assert!(b.is_good());
    let b = b.write_all_to_err(b"burrito standard error check\n");
    assert!(b.is_good());
    let b = b.write_to_err(b"");
    assert!(b.is_good());
    let b = b.write_fmt_to_err(&format!("{} checks done\n", 3));
    assert!(b.is_good());
}

#[test]
fn platform_errors_carry_kind_and_message_over() {
    let e = std::io::Error::new(std::io::ErrorKind::NotFound, "gone");
    let e = IoError::from_std(e);
    assert_eq!(e.kind, ErrorKind::NotFound);
    assert_eq!(e.message, "gone".to_string());

    let e = std::io::Error::new(std::io::ErrorKind::Interrupted, "try again");
    let e = IoError::from_std(e);
    assert_eq!(e.kind, ErrorKind::Interrupted);

    let e = std::io::Error::new(std::io::ErrorKind::OutOfMemory, "odd one");
    let e = IoError::from_std(e);
    assert_eq!(e.kind, ErrorKind::Other);
}
