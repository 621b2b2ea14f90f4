use ysos::lib_io::{stderr, stdin, stdout};
use ysos::sync::{sem_result, Semaphore, SpinLock};
use ysos::syscall::Syscall;

#[test]
fn semaphore_calls() {
    let s = Semaphore::new(42);
    let c = s.init(3);
    assert_eq!((c.syscall, c.arg0, c.arg1, c.arg2), (Syscall::Sem, 0, 42, 3));
    let c = s.remove();
    assert_eq!((c.syscall, c.arg0, c.arg1, c.arg2), (Syscall::Sem, 1, 42, 0));
    let c = s.signal();
    assert_eq!((c.arg0, c.arg1), (2, 42));
    let c = s.wait();
    assert_eq!((c.arg0, c.arg1), (3, 42));
    assert!(sem_result(0));
    assert!(!sem_result(1));
}

#[test]
fn spin_lock_calls_do_nothing() {
    let l = SpinLock::new();
    l.acquire();
    l.release();
}

#[test]
fn write_requests() {
    let r = stdout().write("hi");
    assert_eq!(r.fd, 1);
    assert_eq!(r.bytes, b"hi");
    let r = stderr().write("oops");
    assert_eq!(r.fd, 2);
    assert_eq!(r.bytes, b"oops");
}

#[test]
fn read_line_steps() {
    let input = stdin();
    let mut line = String::new();
    assert!(!input.read_line_step(&mut line, Some(1), b'o'));
    assert!(!input.read_line_step(&mut line, Some(0), b'x'));
    assert!(!input.read_line_step(&mut line, Some(1), b'k'));
    assert!(input.read_line_step(&mut line, Some(1), b'\n'));
    assert_eq!(line, "ok");
    assert!(input.read_line_step(&mut line, None, b'z'));
    assert_eq!(line, "ok");
}

#[test]
fn line_editors_agree_on_the_same_keys() {
    let keys = b"ab\x08c\x01d\x7f\x7fxy\rrest";
    let mut buf = ysos::input::InputBuffer::new();
    for &k in keys.iter() {
        ysos::input::push_key(&mut buf, k);
    }
    let kernel_line = ysos::input::get_line(&mut buf);
    let input = stdin();
    let mut user_line = String::new();
    for &k in keys.iter() {
        if input.read_line_step(&mut user_line, Some(1), k) {
            break;
        }
    }
    assert_eq!(kernel_line, "axy");
    assert_eq!(user_line, kernel_line);
}
