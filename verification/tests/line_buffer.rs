use logpager::state::line_buffer::LogBuffer;

#[test]
fn test_get_lines_normal() {
    let mut buffer = LogBuffer::new();
    buffer.add_line("line 1".to_string());
    buffer.add_line("line 2".to_string());
    buffer.add_line("line 3".to_string());
    buffer.add_line("line 4".to_string());
    buffer.add_line("line 5".to_string());
    buffer.add_line("line 6".to_string());
    buffer.add_line("line 7".to_string());
    buffer.add_line("line 8".to_string());
    buffer.add_line("line 9".to_string());
    buffer.add_line("line 10".to_string());

    let lines = buffer.get_lines(1, 3);
    assert_eq!(lines.len(), 3);
    assert_eq!(lines[0], "line 2".to_string());
    assert_eq!(lines[1], "line 3".to_string());
    assert_eq!(lines[2], "line 4".to_string());
}

#[test]
fn test_get_lines_overflow() {
    let mut buffer = LogBuffer::new();
    buffer.add_line("line 1".to_string());
    buffer.add_line("line 2".to_string());
    buffer.add_line("line 3".to_string());
    buffer.add_line("line 4".to_string());
    buffer.add_line("line 5".to_string());
    buffer.add_line("line 6".to_string());
    buffer.add_line("line 7".to_string());
    buffer.add_line("line 8".to_string());
    buffer.add_line("line 9".to_string());
    buffer.add_line("line 10".to_string());

    let lines = buffer.get_lines(7, 4);
    assert_eq!(lines.len(), 3);
    assert_eq!(lines[0], "line 8".to_string());
    assert_eq!(lines[1], "line 9".to_string());
    assert_eq!(lines[2], "line 10".to_string());
}

#[test]
fn test_get_lines_empty_store() {
    let buffer = LogBuffer::new();
    assert_eq!(buffer.len(), 0);
    assert!(buffer.get_lines(0, 5).is_empty());
    assert!(buffer.get_lines(7, 5).is_empty());
}

#[test]
fn test_get_lines_start_past_end() {
    let mut buffer = LogBuffer::new();
    buffer.add_line("only".to_string());
    assert!(buffer.get_lines(1, 4).is_empty());
    assert!(buffer.get_lines(9, 4).is_empty());
}

#[test]
fn test_get_lines_zero_count() {
    let mut buffer = LogBuffer::new();
    buffer.add_line("a".to_string());
    buffer.add_line("b".to_string());
    assert!(buffer.get_lines(0, 0).is_empty());
}

#[test]
fn test_len_grows_by_one() {
    let mut buffer = LogBuffer::new();
    buffer.add_line("a".to_string());
    assert_eq!(buffer.len(), 1);
    buffer.add_line("b".to_string());
    assert_eq!(buffer.len(), 2);
    let all = buffer.get_lines(0, 2);
    assert_eq!(all, vec!["a".to_string(), "b".to_string()]);
}
