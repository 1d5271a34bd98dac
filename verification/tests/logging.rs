use abx_logger::{run, AbxLogger, FakeLogger, LogKind, Logger};

#[test]
fn it_prints_two_logs() {
    let mut logger = FakeLogger::new();

    run(&mut logger);

    let logs = logger.get_logs();
    assert_eq!(logs.len(), 2);
    assert_eq!(logs[0], "Some event description");
    assert_eq!(logs[1], "Some error description");
}

#[test]
fn fresh_recorder_is_empty() {
    let logger = FakeLogger::new();
    assert!(logger.get_logs().is_empty());
    assert!(logger.get_kinds().is_empty());
}

#[test]
fn run_records_event_then_error() {
    let mut logger = FakeLogger::new();
    run(&mut logger);
    assert_eq!(logger.get_kinds(), vec![LogKind::Event, LogKind::Error]);
    assert_eq!(
        logger.get_logs(),
        vec![
            "Some event description".to_string(),
            "Some error description".to_string(),
        ]
    );
}

#[test]
fn run_keeps_what_was_recorded_before() {
    let mut logger = FakeLogger::new();
    logger.abx_log_error("earlier");
    run(&mut logger);
    assert_eq!(
        logger.get_logs(),
        vec![
            "earlier".to_string(),
            "Some event description".to_string(),
            "Some error description".to_string(),
        ]
    );
    assert_eq!(
        logger.get_kinds(),
        vec![LogKind::Error, LogKind::Event, LogKind::Error]
    );
}

#[test]
fn two_runs_on_one_recorder_add_two_calls_each() {
    let mut logger = FakeLogger::new();
    run(&mut logger);
    run(&mut logger);
    assert_eq!(
        logger.get_logs(),
        vec![
            "Some event description".to_string(),
            "Some error description".to_string(),
            "Some event description".to_string(),
            "Some error description".to_string(),
        ]
    );
    assert_eq!(
        logger.get_kinds(),
        vec![LogKind::Event, LogKind::Error, LogKind::Event, LogKind::Error]
    );
}

#[test]
fn fresh_recorders_do_not_share_what_they_record() {
    let mut first = FakeLogger::new();
    let mut second = FakeLogger::new();

    run(&mut first);
    assert_eq!(first.get_logs().len(), 2);
    assert!(second.get_logs().is_empty());

    run(&mut second);
    let expected = vec![
        "Some event description".to_string(),
        "Some error description".to_string(),
    ];
    assert_eq!(first.get_logs(), expected);
    assert_eq!(second.get_logs(), expected);
    assert_eq!(first.get_kinds(), second.get_kinds());
}

#[test]
fn get_logs_hands_out_a_copy() {
    let mut logger = FakeLogger::new();
    logger.abx_log_event("kept");
    let mut copy = logger.get_logs();
    copy.push("added to the copy".to_string());
    copy[0].push_str(" and changed");
    assert_eq!(logger.get_logs(), vec!["kept".to_string()]);
}

#[test]
fn recorder_keeps_the_string_form_of_any_value() {
    let mut logger = FakeLogger::new();
    logger.abx_log_event(&42);
    logger.abx_log_error(&String::from("owned text"));
    logger.abx_log_event(&'c');
    logger.abx_log_error(&format!("{}-{}", 1, 2));
    logger.abx_log_event("");
    assert_eq!(
        logger.get_logs(),
        vec![
            "42".to_string(),
            "owned text".to_string(),
            "c".to_string(),
            "1-2".to_string(),
            String::new(),
        ]
    );
    assert_eq!(
        logger.get_kinds(),
        vec![
            LogKind::Event,
            LogKind::Error,
            LogKind::Event,
            LogKind::Error,
            LogKind::Event,
        ]
    );
}

#[test]
fn new_logger_has_put_out_nothing() {
    let logger = Logger::new("prod credentials".to_string());
    assert!(logger.lines().is_empty());
}

#[test]
fn credentials_do_not_show_in_the_output() {
    let mut logger = Logger::new("secret".to_string());
    logger.log_event("started");
    assert_eq!(logger.lines(), &vec!["Event: started".to_string()]);
}

#[test]
fn log_event_puts_out_an_event_line() {
    let mut logger = Logger::new(String::new());
    logger.log_event("disk is full");
    logger.log_event(&7);
    assert_eq!(
        logger.lines(),
        &vec!["Event: disk is full".to_string(), "Event: 7".to_string()]
    );
}

#[test]
fn log_error_puts_out_an_error_line() {
    let mut logger = Logger::new(String::new());
    logger.log_error("disk is full");
    logger.log_error(&String::from("Event: not an event"));
    assert_eq!(
        logger.lines(),
        &vec![
            "Error: disk is full".to_string(),
            "Error: Event: not an event".to_string(),
        ]
    );
}

#[test]
fn logger_keeps_lines_in_call_order() {
    let mut logger = Logger::new(String::new());
    logger.log_error("first");
    logger.log_event("second");
    logger.abx_log_event("third");
    logger.abx_log_error("fourth");
    assert_eq!(
        logger.lines(),
        &vec![
            "Error: first".to_string(),
            "Event: second".to_string(),
            "Event: third".to_string(),
            "Error: fourth".to_string(),
        ]
    );
}

#[test]
fn capability_on_logger_puts_out_what_the_logger_does() {
    let mut through_capability = Logger::new(String::new());
    through_capability.abx_log_event("a");
    through_capability.abx_log_error("b");

    let mut direct = Logger::new(String::new());
    direct.log_event("a");
    direct.log_error("b");

    assert_eq!(through_capability.lines(), direct.lines());
    assert_eq!(
        direct.lines(),
        &vec!["Event: a".to_string(), "Error: b".to_string()]
    );
}

#[test]
fn run_on_logger_puts_out_two_lines() {
    let mut logger = Logger::new("prod credentials".to_string());
    run(&mut logger);
    assert_eq!(
        logger.lines(),
        &vec![
            "Event: Some event description".to_string(),
            "Error: Some error description".to_string(),
        ]
    );
}

#[test]
fn run_makes_the_same_calls_on_logger_and_recorder() {
    let mut logger = Logger::new("prod credentials".to_string());
    let mut recorder = FakeLogger::new();
    run(&mut logger);
    run(&mut recorder);

    let lines = logger.lines();
    let logs = recorder.get_logs();
    let kinds = recorder.get_kinds();
    assert_eq!(lines.len(), 2);
    assert_eq!(logs.len(), 2);
    for i in 0..2 {
        let prefix = match kinds[i] {
            LogKind::Event => "Event: ",
            LogKind::Error => "Error: ",
        };
        assert_eq!(lines[i], format!("{}{}", prefix, logs[i]));
    }
}

#[test]
fn run_after_earlier_lines_adds_two_more() {
    let mut logger = Logger::new(String::new());
    logger.log_event("boot");
    run(&mut logger);
    assert_eq!(
        logger.lines(),
        &vec![
            "Event: boot".to_string(),
            "Event: Some event description".to_string(),
            "Error: Some error description".to_string(),
        ]
    );
}

#[test]
fn log_kinds_compare_by_variant() {
    assert_eq!(LogKind::Event, LogKind::Event);
    assert_ne!(LogKind::Event, LogKind::Error);
    let kind = LogKind::Error;
    let copy = kind;
    assert_eq!(kind, copy);
}
