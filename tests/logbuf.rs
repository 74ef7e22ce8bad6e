use macropad::logbuf::{LogBuffer, LOG_BUFFER_SIZE, LOG_TRUNCATE_SIZE};

#[test]
fn lines_accumulate_while_they_fit() {
    let mut log = LogBuffer::new();
    assert!(log.contents().is_empty());
    log.push_line(b"I main Starting\n");
    log.push_line(b"I main Entering main loop\n");
    assert_eq!(log.contents(), b"I main Starting\nI main Entering main loop\n");
}

#[test]
fn full_log_keeps_the_newest_text() {
    let mut log = LogBuffer::new();
    let filler = [b'a'; 500];
    log.push_line(&filler);
    log.push_line(b"0123456789abcdef\n");
    let text = log.contents();
    assert_eq!(text.len(), LOG_TRUNCATE_SIZE);
    assert!(text.ends_with(b"0123456789abcdef\n"));
    assert!(text[..LOG_TRUNCATE_SIZE - 17].iter().all(|&b| b == b'a'));
}

#[test]
fn long_line_replaces_the_log_with_its_tail() {
    let mut log = LogBuffer::new();
    log.push_line(b"old\n");
    let mut line = vec![b'x'; LOG_BUFFER_SIZE];
    line.extend_from_slice(b"end\n");
    log.push_line(&line);
    let text = log.contents();
    assert_eq!(text.len(), LOG_TRUNCATE_SIZE);
    assert!(text.ends_with(b"xend\n"));
}

#[test]
fn exact_fit_is_kept_whole() {
    let mut log = LogBuffer::new();
    log.push_line(&[b'a'; 500]);
    log.push_line(&[b'b'; 12]);
    assert_eq!(log.contents().len(), LOG_BUFFER_SIZE);
    log.push_line(b"c");
    assert_eq!(log.contents().len(), LOG_TRUNCATE_SIZE);
    assert_eq!(log.contents()[LOG_TRUNCATE_SIZE - 1], b'c');
}
