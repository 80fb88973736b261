use ast_toolkit::trace::{
    begin_fetch, begin_process, debug_future, finish_fetch, finish_process, AsyncLogger,
    DebugFuture, PROCESS_DELAY_MS,
};

fn message_of(entry: &str) -> &str {
    let at = entry.find(": ").unwrap();
    &entry[at + 2..]
}

#[test]
fn new_logger_is_empty() {
    let logger = AsyncLogger::new();
    assert!(logger.log.is_empty());
}

#[test]
fn entry_is_stamp_colon_message() {
    let mut logger = AsyncLogger::new();
    logger.log_at("12:00:00.000", "Starting");
    logger.log_at("12:00:00.250", "Done: really");
    assert_eq!(logger.log, vec!["12:00:00.000: Starting", "12:00:00.250: Done: really"]);
}

#[test]
fn log_appends_one_stamped_entry() {
    let mut logger = AsyncLogger::new();
    logger.log_at("t", "first");
    logger.log("second");
    assert_eq!(logger.log.len(), 2);
    assert_eq!(logger.log[0], "t: first");
    assert!(logger.log[1].ends_with(": second"));
    let stamp = &logger.log[1][..logger.log[1].len() - ": second".len()];
    let shape: String =
        stamp.chars().map(|c| if c.is_ascii_digit() { '0' } else { c }).collect();
    assert_eq!(shape, "00:00:00.000");
}

#[test]
fn clone_has_the_same_entries() {
    let mut logger = AsyncLogger::new();
    logger.log_at("a", "one");
    logger.log_at("b", "two");
    let mut copy = logger.clone();
    assert_eq!(copy, logger);
    copy.log_at("c", "three");
    assert_eq!(logger.log.len(), 2);
    assert_eq!(copy.log.len(), 3);
}

#[test]
fn dump_frames_the_entries() {
    let mut logger = AsyncLogger::new();
    logger.log_at("a", "one");
    assert_eq!(
        logger.dump_log(),
        vec!["=== Async Execution Log ===", "a: one", "==========================="]
    );
    assert_eq!(
        AsyncLogger::new().dump_log(),
        vec!["=== Async Execution Log ===", "==========================="]
    );
}

#[test]
fn debug_future_keeps_what_it_is_given() {
    let mut logger = AsyncLogger::new();
    logger.log_at("a", "one");
    let wrapped = DebugFuture::new(7u8, "fetch_data", logger.clone());
    assert_eq!(wrapped.inner, 7);
    assert_eq!(wrapped.name, "fetch_data");
    assert_eq!(wrapped.logger, logger);
    let other = debug_future("inner", "process_data", AsyncLogger::new());
    assert_eq!(other.inner, "inner");
    assert_eq!(other.name, "process_data");
    assert!(other.logger.log.is_empty());
}

#[test]
fn polls_are_reported_to_the_log() {
    let mut wrapped = debug_future((), "fetch_data", AsyncLogger::new());
    wrapped.poll_started();
    wrapped.poll_finished(false);
    wrapped.poll_started();
    wrapped.poll_finished(true);
    let messages: Vec<&str> = wrapped.logger.log.iter().map(|entry| message_of(entry)).collect();
    assert_eq!(
        messages,
        vec![
            "Polling future 'fetch_data'",
            "Future 'fetch_data' pending",
            "Polling future 'fetch_data'",
            "Future 'fetch_data' completed",
        ]
    );
}

#[test]
fn fetch_waits_a_hundred_milliseconds_per_id() {
    let mut logger = AsyncLogger::new();
    assert_eq!(begin_fetch(42, &mut logger), 4200);
    assert_eq!(begin_fetch(0, &mut logger), 0);
    assert_eq!(begin_fetch(u32::MAX, &mut logger), 429496729500);
    assert_eq!(message_of(&logger.log[0]), "Starting fetch_data(42)");
}

#[test]
fn every_fifth_fetch_fails() {
    let mut logger = AsyncLogger::new();
    assert_eq!(finish_fetch(42, &mut logger), Ok("Data for id 42".to_string()));
    assert_eq!(finish_fetch(5, &mut logger), Err("Data fetch failed"));
    assert_eq!(finish_fetch(0, &mut logger), Err("Data fetch failed"));
    assert_eq!(finish_fetch(4, &mut logger), Ok("Data for id 4".to_string()));
    let messages: Vec<&str> = logger.log.iter().map(|entry| message_of(entry)).collect();
    assert_eq!(
        messages,
        vec![
            "fetch_data(42) succeeded",
            "fetch_data(5) failed",
            "fetch_data(0) failed",
            "fetch_data(4) succeeded",
        ]
    );
}

#[test]
fn processing_prefixes_the_data() {
    let mut logger = AsyncLogger::new();
    assert_eq!(begin_process("Data for id 42", &mut logger), 300);
    assert_eq!(PROCESS_DELAY_MS, 300);
    assert_eq!(finish_process("Data for id 42", &mut logger), "Processed: Data for id 42");
    let messages: Vec<&str> = logger.log.iter().map(|entry| message_of(entry)).collect();
    assert_eq!(
        messages,
        vec![
            "Starting process_data(Data for id 42)",
            "Finished process_data: Processed: Data for id 42",
        ]
    );
}
