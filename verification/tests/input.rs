use ysos::input::{
    buffer_len, clear_buffer, edit_line, get_line, is_buffer_empty, is_buffer_full, pop_key, push_key,
    try_pop_key, InputBuffer, KeyEcho, INPUT_BUFFER_SIZE,
};

#[test]
fn echo_of_each_kind_of_key() {
    let mut buf = InputBuffer::new();
    assert_eq!(push_key(&mut buf, b'\n'), KeyEcho::Newline);
    assert_eq!(push_key(&mut buf, b'\r'), KeyEcho::Newline);
    assert_eq!(push_key(&mut buf, 0x08), KeyEcho::Backspace);
    assert_eq!(push_key(&mut buf, 0x7F), KeyEcho::Backspace);
    assert_eq!(push_key(&mut buf, b'a'), KeyEcho::Char(b'a'));
    assert_eq!(push_key(&mut buf, b' '), KeyEcho::Char(b' '));
    assert_eq!(push_key(&mut buf, b'~'), KeyEcho::Char(b'~'));
    assert_eq!(push_key(&mut buf, 0x1b), KeyEcho::Silent);
    assert_eq!(push_key(&mut buf, 0x80), KeyEcho::Silent);
    assert_eq!(buffer_len(&buf), 9);
}

#[test]
fn full_buffer_drops_keys() {
    let mut buf = InputBuffer::new();
    for i in 0..INPUT_BUFFER_SIZE {
        assert_ne!(push_key(&mut buf, (i % 26) as u8 + b'a'), KeyEcho::Dropped);
    }
    assert!(is_buffer_full(&buf));
    assert_eq!(push_key(&mut buf, b'z'), KeyEcho::Dropped);
    assert_eq!(buffer_len(&buf), INPUT_BUFFER_SIZE);
    assert_eq!(try_pop_key(&mut buf), Some(b'a'));
    assert!(!is_buffer_full(&buf));
}

#[test]
fn keys_come_out_in_order() {
    let mut buf = InputBuffer::new();
    assert!(is_buffer_empty(&buf));
    assert_eq!(try_pop_key(&mut buf), None);
    push_key(&mut buf, b'x');
    push_key(&mut buf, b'y');
    assert!(!is_buffer_empty(&buf));
    assert_eq!(pop_key(&mut buf), b'x');
    assert_eq!(try_pop_key(&mut buf), Some(b'y'));
    assert_eq!(try_pop_key(&mut buf), None);
}

#[test]
fn get_line_edits_and_stops_at_line_end() {
    let mut buf = InputBuffer::new();
    for &k in b"helo\x08lo wor\x7fld\x01\rnext" {
        push_key(&mut buf, k);
    }
    let line = get_line(&mut buf);
    assert_eq!(line, "hello wold");
    assert_eq!(buffer_len(&buf), 4);
    assert_eq!(try_pop_key(&mut buf), Some(b'n'));
}

#[test]
fn get_line_erase_on_empty_line_is_harmless() {
    let mut buf = InputBuffer::new();
    for &k in b"\x08\x08ok\n" {
        push_key(&mut buf, k);
    }
    assert_eq!(get_line(&mut buf), "ok");
    assert!(is_buffer_empty(&buf));
}

#[test]
fn get_line_of_an_empty_line() {
    let mut buf = InputBuffer::new();
    push_key(&mut buf, b'\n');
    assert_eq!(get_line(&mut buf), "");
}

#[test]
fn clear_buffer_empties_it() {
    let mut buf = InputBuffer::new();
    for &k in b"abc" {
        push_key(&mut buf, k);
    }
    clear_buffer(&mut buf);
    assert!(is_buffer_empty(&buf));
    assert_eq!(buffer_len(&buf), 0);
}

#[test]
fn edit_line_steps() {
    let mut line = String::new();
    assert!(!edit_line(&mut line, b'a'));
    assert!(!edit_line(&mut line, b'b'));
    assert!(!edit_line(&mut line, 0x08));
    assert!(!edit_line(&mut line, 0x00));
    assert_eq!(line, "a");
    assert!(edit_line(&mut line, b'\r'));
    assert_eq!(line, "a");
}
