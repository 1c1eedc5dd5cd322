use std::sync::mpsc::{channel, Receiver, TryRecvError};

use nautilus_common::consumer::{Consumer, Step};
use nautilus_common::enums::{LogColor, LogLevel};
use nautilus_common::logger::{send_outcome, Logger};
use nautilus_common::message::LogMessage;
use nautilus_common::route::ConsoleSink;

fn make_logger(
    trader_id: &str,
    level_stdout: LogLevel,
    level_file: LogLevel,
    is_bypassed: bool,
) -> (Logger, Receiver<LogMessage>) {
    let (tx, rx) = channel::<LogMessage>();
    let logger = Logger::new(
        String::from(trader_id),
        String::from("user-01"),
        String::from("2d89666b-1a1e-4a75-b193-4eb3b454c757"),
        level_stdout,
        level_file,
        100_000,
        is_bypassed,
        tx,
    );
    (logger, rx)
}

#[test]
fn test_new_logger() {
    let (logger, _rx) = make_logger("TRADER-000", LogLevel::Debug, LogLevel::Debug, false);
    assert_eq!(logger.trader_id, String::from("TRADER-000"));
    assert_eq!(logger.level_stdout, LogLevel::Debug);
}

#[test]
fn test_logger_debug() {
    let (mut logger, _rx) = make_logger("TRADER-001", LogLevel::Info, LogLevel::Debug, false);

    logger
        .info(
            1650000000000000,
            LogColor::Normal,
            String::from("RiskEngine"),
            String::from("This is a test."),
        )
        .expect("Error while logging");
}

#[test]
fn new_logger_keeps_every_setting() {
    let (logger, _rx) = make_logger("TRADER-000", LogLevel::Warning, LogLevel::Error, true);
    assert_eq!(logger.machine_id, "user-01");
    assert_eq!(logger.instance_id, "2d89666b-1a1e-4a75-b193-4eb3b454c757");
    assert_eq!(logger.level_stdout, LogLevel::Warning);
    assert_eq!(logger.level_file, LogLevel::Error);
    assert_eq!(logger.rate_limit, 100_000);
    assert!(logger.is_bypassed);
}

#[test]
fn info_goes_to_stdout_and_no_file() {
    let (mut logger, rx) = make_logger("TRADER-001", LogLevel::Info, LogLevel::Debug, false);
    let mut consumer = logger.consumer(false, 0);
    logger
        .info(
            1650000000000000,
            LogColor::Normal,
            String::from("RiskEngine"),
            String::from("This is a test."),
        )
        .expect("Error while logging");
    let received = rx.try_recv().expect("one envelope");
    assert!(matches!(rx.try_recv(), Err(TryRecvError::Empty)));
    let dispatch = match consumer.handle_message(&received, 1) {
        Step::Write(d) => d,
        Step::Wait => panic!("the window has room"),
    };
    assert_eq!(consumer.limiter.count, 1);
    let console = dispatch.console.expect("a console line");
    assert_eq!(console.sink, ConsoleSink::Stdout);
    assert!(console.line.contains("RiskEngine: This is a test."));
    assert_eq!(
        console.line,
        "\x1b[1m1970-01-20T02:20:00.000000000Z\x1b[0m [INF] TRADER-001.RiskEngine: This is a test.\x1b[0m\n"
    );
    assert!(dispatch.file.is_none());
}

#[test]
fn warn_below_stdout_level_is_silent_and_critical_goes_to_stderr() {
    let (mut logger, rx) = make_logger("TRADER-001", LogLevel::Error, LogLevel::Debug, false);
    let mut consumer = logger.consumer(false, 0);
    logger
        .warn(1, LogColor::Yellow, String::from("Cache"), String::from("slow"))
        .expect("Error while logging");
    logger
        .critical(2, LogColor::Red, String::from("Cache"), String::from("gone"))
        .expect("Error while logging");
    drop(logger);
    let mut stdout_lines = 0;
    let mut stderr_lines: Vec<String> = Vec::new();
    while let Ok(received) = rx.recv() {
        let dispatch = match consumer.handle_message(&received, 1) {
            Step::Write(d) => d,
            Step::Wait => panic!("the window has room"),
        };
        match dispatch.console {
            Some(c) if c.sink == ConsoleSink::Stdout => stdout_lines += 1,
            Some(c) => stderr_lines.push(c.line),
            None => {}
        }
        assert!(dispatch.file.is_none());
    }
    assert_eq!(stdout_lines, 0);
    assert_eq!(
        stderr_lines,
        vec![String::from(
            "\x1b[1m1970-01-01T00:00:00.000000002Z\x1b[0m \x1b[1;31m[CRT] TRADER-001.Cache: gone\x1b[0m\n"
        )]
    );
}

#[test]
fn each_level_method_stamps_its_level() {
    let (mut logger, rx) = make_logger("TRADER-001", LogLevel::Debug, LogLevel::Debug, false);
    logger.debug(1, LogColor::Normal, String::from("a"), String::from("m1")).unwrap();
    logger.info(2, LogColor::Green, String::from("b"), String::from("m2")).unwrap();
    logger.warn(3, LogColor::Yellow, String::from("c"), String::from("m3")).unwrap();
    logger.error(4, LogColor::Red, String::from("d"), String::from("m4")).unwrap();
    logger.critical(5, LogColor::Magenta, String::from("e"), String::from("m5")).unwrap();
    logger.send(6, LogLevel::Info, LogColor::Cyan, String::from("f"), String::from("m6")).unwrap();
    let expected = [
        (1, LogLevel::Debug, LogColor::Normal, "a", "m1"),
        (2, LogLevel::Info, LogColor::Green, "b", "m2"),
        (3, LogLevel::Warning, LogColor::Yellow, "c", "m3"),
        (4, LogLevel::Error, LogColor::Red, "d", "m4"),
        (5, LogLevel::Critical, LogColor::Magenta, "e", "m5"),
        (6, LogLevel::Info, LogColor::Cyan, "f", "m6"),
    ];
    for (ts, level, color, component, msg) in expected {
        let m = rx.try_recv().expect("an envelope");
        assert_eq!(m.timestamp_ns, ts);
        assert_eq!(m.level, level);
        assert_eq!(m.color, color);
        assert_eq!(m.component, component);
        assert_eq!(m.msg, msg);
    }
    assert!(matches!(rx.try_recv(), Err(TryRecvError::Empty)));
}

#[test]
fn envelopes_arrive_in_the_order_sent() {
    let (mut logger, rx) = make_logger("TRADER-001", LogLevel::Debug, LogLevel::Debug, false);
    for i in 0..100u64 {
        logger.info(i, LogColor::Normal, String::from("Seq"), format!("{}", i)).unwrap();
    }
    drop(logger);
    let mut next = 0u64;
    while let Ok(m) = rx.recv() {
        assert_eq!(m.timestamp_ns, next);
        assert_eq!(m.msg, format!("{}", next));
        next += 1;
    }
    assert_eq!(next, 100);
}

#[test]
fn bypassed_logger_sends_nothing() {
    let (mut logger, rx) = make_logger("TRADER-001", LogLevel::Debug, LogLevel::Debug, true);
    assert!(logger.debug(1, LogColor::Normal, String::from("a"), String::from("m")).is_ok());
    assert!(logger.info(2, LogColor::Normal, String::from("a"), String::from("m")).is_ok());
    assert!(logger.warn(3, LogColor::Normal, String::from("a"), String::from("m")).is_ok());
    assert!(logger.error(4, LogColor::Normal, String::from("a"), String::from("m")).is_ok());
    assert!(logger.critical(5, LogColor::Normal, String::from("a"), String::from("m")).is_ok());
    assert!(logger
        .envelope(6, LogLevel::Info, LogColor::Normal, String::from("a"), String::from("m"))
        .is_none());
    assert!(matches!(rx.try_recv(), Err(TryRecvError::Empty)));
}

#[test]
fn bypassed_logger_succeeds_without_a_consumer() {
    let (mut logger, rx) = make_logger("TRADER-001", LogLevel::Debug, LogLevel::Debug, true);
    drop(rx);
    assert!(logger.error(1, LogColor::Red, String::from("a"), String::from("m")).is_ok());
}

#[test]
fn send_after_consumer_is_gone_gives_the_envelope_back() {
    let (mut logger, rx) = make_logger("TRADER-001", LogLevel::Debug, LogLevel::Debug, false);
    drop(rx);
    let failure = logger
        .error(42, LogColor::Red, String::from("ExecEngine"), String::from("lost"))
        .expect_err("the channel is closed");
    assert_eq!(failure.message.timestamp_ns, 42);
    assert_eq!(failure.message.level, LogLevel::Error);
    assert_eq!(failure.message.color, LogColor::Red);
    assert_eq!(failure.message.component, "ExecEngine");
    assert_eq!(failure.message.msg, "lost");
}

#[test]
fn send_outcome_maps_both_answers() {
    assert!(send_outcome(Ok(())).is_ok());
    let m = LogMessage::new(7, LogLevel::Debug, LogColor::Blue, String::from("c"), String::from("t"));
    let failure = send_outcome(Err(m)).expect_err("an error stays an error");
    assert_eq!(failure.message.timestamp_ns, 7);
    assert_eq!(failure.message.level, LogLevel::Debug);
    assert_eq!(failure.message.color, LogColor::Blue);
    assert_eq!(failure.message.component, "c");
    assert_eq!(failure.message.msg, "t");
}

#[test]
fn envelope_carries_the_arguments() {
    let (logger, _rx) = make_logger("TRADER-001", LogLevel::Debug, LogLevel::Debug, false);
    let m = logger
        .envelope(9, LogLevel::Warning, LogColor::Cyan, String::from("Comp"), String::from("Body"))
        .expect("not bypassed");
    assert_eq!(m.timestamp_ns, 9);
    assert_eq!(m.level, LogLevel::Warning);
    assert_eq!(m.color, LogColor::Cyan);
    assert_eq!(m.component, "Comp");
    assert_eq!(m.msg, "Body");
}

#[test]
fn consumer_copies_the_configuration() {
    let (logger, _rx) = make_logger("TRADER-009", LogLevel::Warning, LogLevel::Info, false);
    let c: Consumer = logger.consumer(true, 77);
    assert_eq!(c.trader_id, "TRADER-009");
    assert_eq!(c.level_stdout, LogLevel::Warning);
    assert_eq!(c.level_file, LogLevel::Info);
    assert!(c.has_file);
    assert_eq!(c.limiter.limit, 100_000);
    assert_eq!(c.limiter.count, 0);
    assert_eq!(c.limiter.window_start_ns, 77);
}
