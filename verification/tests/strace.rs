use container_runtime::common::strace::{parse_strace_output, strace_write_output};

#[test]
fn writes_are_read_out_of_strace_lines() {
    assert_eq!(
        parse_strace_output("write(1, \"hello\\n\", 6) = 6"),
        Ok(Some("hello\n".to_string()))
    );
    assert_eq!(
        parse_strace_output("[pid 12] write(2, \"a\\nb\", 3) = 3"),
        Ok(Some("a\nb".to_string()))
    );
}

#[test]
fn other_lines_show_nothing() {
    assert_eq!(parse_strace_output("read(0, \"x\", 1) = 1"), Ok(None));
    assert_eq!(parse_strace_output(""), Ok(None));
    assert_eq!(strace_write_output("openat(AT_FDCWD, \"/etc\", O_RDONLY) = 3"), None);
}
