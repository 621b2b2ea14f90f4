use ysos::logger::{enabled, level_str, log_line, LogLevel};
use ysos::regs::{ProcessContext, RegistersValue};
use ysos::serial::{PortWrite, SerialPort};

#[test]
fn serial_port_layout_and_init() {
    let port = SerialPort::new(0x3F8);
    assert_eq!(port.data_port(), 0x3F8);
    assert_eq!(port.line_status_port(), 0x3FD);
    let w = port.init_writes();
    let expected = vec![
        PortWrite { port: 0x3F9, value: 0x00 },
        PortWrite { port: 0x3FB, value: 0x80 },
        PortWrite { port: 0x3F8, value: 0x03 },
        PortWrite { port: 0x3F9, value: 0x00 },
        PortWrite { port: 0x3FB, value: 0x03 },
        PortWrite { port: 0x3FA, value: 0xC7 },
        PortWrite { port: 0x3F9, value: 0x01 },
    ];
    assert_eq!(w, expected);
}

#[test]
fn serial_status_bits() {
    assert!(SerialPort::can_send(0x60));
    assert!(!SerialPort::can_send(0x01));
    assert!(SerialPort::has_data(0x61));
    assert!(!SerialPort::has_data(0x60));
    assert_eq!(SerialPort::backspace_bytes(), vec![0x08, 0x20, 0x08]);
}

#[test]
fn log_levels() {
    assert!(enabled(LogLevel::Error));
    assert!(enabled(LogLevel::Warn));
    assert!(enabled(LogLevel::Info));
    assert!(!enabled(LogLevel::Debug));
    assert!(!enabled(LogLevel::Trace));
    assert_eq!(level_str(LogLevel::Warn), "WARN ");
    assert_eq!(level_str(LogLevel::Trace), "TRACE");
}

#[test]
fn log_lines() {
    assert_eq!(
        log_line(LogLevel::Info, Some("ysos::memory"), "Heap Initialized."),
        Some("[INFO ] ysos::memory: Heap Initialized.".to_string())
    );
    assert_eq!(log_line(LogLevel::Error, None, "boom"), Some("[ERROR] unknown: boom".to_string()));
    assert_eq!(log_line(LogLevel::Debug, Some("m"), "hidden"), None);
}

#[test]
fn register_dump() {
    let mut r = RegistersValue::default();
    r.r15 = 0x1;
    r.rax = 0xdead_beef;
    r.rbp = usize::MAX;
    let text = r.describe();
    let expected = "Registers\n\
        r15: 0x0000000000000001, r14: 0x0000000000000000, r13: 0x0000000000000000,\n\
        r12: 0x0000000000000000, r11: 0x0000000000000000, r10: 0x0000000000000000,\n\
        r9 : 0x0000000000000000, r8 : 0x0000000000000000, rdi: 0x0000000000000000,\n\
        rsi: 0x0000000000000000, rdx: 0x0000000000000000, rcx: 0x0000000000000000,\n\
        rbx: 0x0000000000000000, rax: 0x00000000deadbeef, rbp: 0xffffffffffffffff";
    assert_eq!(text, expected);
}

#[test]
fn set_rax_changes_only_rax() {
    let mut c = ProcessContext::default();
    c.regs.rbx = 5;
    c.instruction_pointer = 9;
    c.set_rax(77);
    assert_eq!(c.regs.rax, 77);
    assert_eq!(c.regs.rbx, 5);
    assert_eq!(c.instruction_pointer, 9);
}
