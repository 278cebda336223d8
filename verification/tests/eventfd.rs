use eventfd::Error;
use eventfd::EventFd;

#[test]
fn new() {
    EventFd::new().unwrap();
}

#[test]
fn read_write() {
    let mut evt = EventFd::new().unwrap();
    evt.write(55).unwrap();
    assert_eq!(evt.read().unwrap(), 55);
}

#[test]
fn try_read_nothing() {
    let mut evt = EventFd::new().unwrap();
    let r = evt.try_read();
    match r {
        Err(Error::NotReady) => (),
        _ => panic!("invalid state"),
    }
}

#[test]
fn try_read_something() {
    let mut evt = EventFd::new().unwrap();
    evt.write(1189998819999197253).unwrap();
    let r = evt.try_read().unwrap();
    assert_eq!(r, 1189998819999197253);
}

#[test]
fn clone() {
    let mut evt = EventFd::new().unwrap();
    let mut evt_clone = evt.try_clone().unwrap();
    evt.write(923).unwrap();
    assert_eq!(evt_clone.read().unwrap(), 923);
}

#[test]
fn clone_shares_the_other_way() {
    let mut evt = EventFd::new().unwrap();
    let mut evt_clone = evt.try_clone().unwrap();
    evt_clone.write(77).unwrap();
    assert_eq!(evt.read().unwrap(), 77);
}

#[test]
fn read_resets_counter() {
    let mut evt = EventFd::new().unwrap();
    evt.write(5).unwrap();
    assert_eq!(evt.read().unwrap(), 5);
    match evt.try_read() {
        Err(Error::NotReady) => (),
        _ => panic!("counter was not reset"),
    }
}

#[test]
fn try_read_resets_counter() {
    let mut evt = EventFd::new().unwrap();
    evt.write(42).unwrap();
    assert_eq!(evt.try_read().unwrap(), 42);
    match evt.try_read() {
        Err(Error::NotReady) => (),
        _ => panic!("counter was not reset"),
    }
}

#[test]
fn writes_accumulate() {
    let mut evt = EventFd::new().unwrap();
    evt.write(7).unwrap();
    evt.write(9).unwrap();
    assert_eq!(evt.read().unwrap(), 16);
}

#[test]
fn write_of_zero_leaves_counter_empty() {
    let mut evt = EventFd::new().unwrap();
    evt.write(0).unwrap();
    match evt.try_read() {
        Err(Error::NotReady) => (),
        _ => panic!("a write of zero must not make the counter readable"),
    }
}

#[test]
fn write_of_max_value_is_rejected() {
    let mut evt = EventFd::new().unwrap();
    match evt.write(u64::MAX) {
        Err(Error::WriteFailed(code)) => assert!(code > 0),
        _ => panic!("the kernel rejects an addition of u64::MAX"),
    }
    match evt.try_read() {
        Err(Error::NotReady) => (),
        _ => panic!("a failed write must not change the counter"),
    }
}

#[test]
fn raw_fd_is_nonnegative_and_stable() {
    let mut evt = EventFd::new().unwrap();
    let fd = evt.as_raw_fd();
    assert!(fd >= 0);
    evt.write(3).unwrap();
    assert_eq!(evt.as_raw_fd(), fd);
    assert_eq!(evt.read().unwrap(), 3);
    assert_eq!(evt.as_raw_fd(), fd);
}

#[test]
fn clone_gets_its_own_descriptor() {
    let mut evt = EventFd::new().unwrap();
    let evt_clone = evt.try_clone().unwrap();
    assert_ne!(evt.as_raw_fd(), evt_clone.as_raw_fd());
}
