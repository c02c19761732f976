use lawg::{initial_file_content, LogError, Logger};

#[test]
fn it_works() {
    let my_logger = Logger::new("My Logger".to_string(), Some("log.txt".to_string()), true);

    my_logger.log("Hello world");
    let content = my_logger.log_to_file("", "Hello world 123").unwrap();
    my_logger.log_and_log_to_file(&content, "He ate my cereals");
}

#[test]
fn construction_keeps_existing_content() {
    let kept = initial_file_content(Some("line one\nline two".to_string()));
    assert_eq!(kept, "line one\nline two");
}

#[test]
fn construction_creates_empty_content() {
    let created = initial_file_content(None);
    assert_eq!(created, "");
}

#[test]
fn file_append_is_exact() {
    let logger = Logger::new("Svc".to_string(), Some("out.txt".to_string()), true);
    let ts = "2024-05-05 10:00:00 UTC";
    let content = logger.file_content_after(false, "abc", ts, "msg").unwrap();
    assert_eq!(content, "abc\nSvc - [\"2024-05-05 10:00:00 UTC\"]: msg");
}

#[test]
fn error_lines_carry_the_prefix() {
    let logger = Logger::new("Svc".to_string(), None, true);
    let ts = "2024-05-05 10:00:00 UTC";
    let error_line = logger.format_line(true, ts, "bad");
    let plain_line = logger.format_line(false, ts, "fine");
    assert_eq!(error_line, "ERROR: Svc - [\"2024-05-05 10:00:00 UTC\"]: bad");
    assert!(error_line.starts_with("ERROR: "));
    assert!(!plain_line.starts_with("ERROR: "));
    assert_eq!(error_line, format!("ERROR: {}", logger.format_line(false, ts, "bad")));
}

#[test]
fn missing_file_path_is_rejected() {
    let logger = Logger::new("Svc".to_string(), None, true);
    assert_eq!(logger.log_to_file("old", "hi"), Err(LogError::MissingFilePath));
    assert_eq!(logger.error_to_file("old", "hi"), Err(LogError::MissingFilePath));
    assert_eq!(
        logger.file_content_after(false, "old", "ts", "hi"),
        Err(LogError::MissingFilePath)
    );
}

#[test]
fn combined_operation_produces_both_lines() {
    let logger = Logger::new("Svc".to_string(), Some("out.txt".to_string()), true);
    let (line, content) = logger.log_and_log_to_file("start", "X");
    assert!(line.contains(": X"));
    let content = content.unwrap();
    assert!(content.starts_with("start\n"));
    assert!(content.contains(": X"));
}

#[test]
fn combined_operation_prints_even_without_a_file() {
    let logger = Logger::new("Svc".to_string(), None, false);
    let (line, content) = logger.log_and_log_to_file("start", "X");
    assert!(line.ends_with("\"]: X"));
    assert_eq!(content, Err(LogError::MissingFilePath));

    let (error_line, error_content) = logger.error_and_error_to_file("start", "Y");
    assert!(error_line.starts_with("ERROR: Svc - [\""));
    assert!(error_line.ends_with("\"]: Y"));
    assert_eq!(error_content, Err(LogError::MissingFilePath));
}

#[test]
fn first_file_line_scenario() {
    let logger = Logger::new("Svc".to_string(), Some("out.txt".to_string()), true);
    let created = initial_file_content(None);
    assert_eq!(created, "");
    let ts = "2024-05-05 10:00:00 UTC";
    let content = logger.file_content_after(false, &created, ts, "hello").unwrap();
    assert_eq!(content, "\nSvc - [\"2024-05-05 10:00:00 UTC\"]: hello");
}

#[test]
fn second_file_line_scenario() {
    let logger = Logger::new("Svc".to_string(), Some("out.txt".to_string()), true);
    let ts = "2024-05-05 10:00:00 UTC";
    let first = logger.file_content_after(false, "", ts, "hello").unwrap();
    let second = logger.file_content_after(true, &first, ts, "bad").unwrap();
    let last_line = second.rsplit('\n').next().unwrap();
    assert_eq!(last_line, "ERROR: Svc - [\"2024-05-05 10:00:00 UTC\"]: bad");
    assert!(second.starts_with(&first));
    assert_eq!(second.len(), first.len() + 1 + last_line.len());
}

#[test]
fn live_timestamps_flow_into_the_line() {
    let utc_logger = Logger::new("My Logger".to_string(), Some("log.txt".to_string()), true);
    let line = utc_logger.log("hi");
    assert!(line.starts_with("My Logger - [\""));
    assert!(line.ends_with("\"]: hi"));
    assert!(line.contains(" UTC\"]: "));

    let error_line = utc_logger.error("boom");
    assert!(error_line.starts_with("ERROR: My Logger - [\""));
    assert!(error_line.ends_with("\"]: boom"));

    let content = utc_logger.log_to_file("old", "filed").unwrap();
    assert!(content.starts_with("old\nMy Logger - [\""));
    assert!(content.ends_with("\"]: filed"));

    let local_logger = Logger::new("My Logger".to_string(), Some("log.txt".to_string()), false);
    let local_content = local_logger.error_to_file("old", "filed").unwrap();
    assert!(local_content.starts_with("old\nERROR: My Logger - [\""));
    assert!(local_content.ends_with("\"]: filed"));
}
