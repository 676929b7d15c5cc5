use campus_network_assistant::backend::logger::LevelColor;
use campus_network_assistant::backend::logger::LogLevel;
use campus_network_assistant::backend::logger::Logger;
use campus_network_assistant::backend::logger::MemorySink;
use campus_network_assistant::backend::logger::MultiWriter;
use campus_network_assistant::backend::logger::Sink;
use campus_network_assistant::backend::logger::LOG_DIR;

#[test]
fn test_multi_writer() {
    let mut writer = MultiWriter::new(vec![MemorySink::new(64), MemorySink::new(64)]);

    let test_data = b"Test message\n";
    let write_result = writer.write(test_data);
    assert!(write_result.is_ok());
    assert_eq!(write_result.unwrap(), test_data.len());

    let sinks = writer.into_writers();
    assert_eq!(sinks[0].bytes, test_data);
    assert_eq!(sinks[1].bytes, test_data);
}

#[test]
fn writer_stops_at_the_first_sink_that_fails() {
    let mut writer =
        MultiWriter::new(vec![MemorySink::new(8), MemorySink::new(2), MemorySink::new(8)]);
    assert_eq!(writer.write(b"ab"), Ok(2));
    assert_eq!(writer.write(b"cd"), Err(1));
    assert_eq!(writer.flush(), Ok(()));
    let sinks = writer.into_writers();
    assert_eq!(sinks[0].bytes, b"abcd");
    assert_eq!(sinks[1].bytes, b"ab");
    assert_eq!(sinks[2].bytes, b"ab");

    let mut nothing: MultiWriter<MemorySink> = MultiWriter::new(Vec::new());
    assert_eq!(nothing.write(b"xyz"), Ok(3));
    assert_eq!(nothing.flush(), Ok(()));
}

#[test]
fn memory_sink_takes_all_or_nothing() {
    let mut sink = MemorySink::new(3);
    assert!(sink.write_all(b"ab"));
    assert!(!sink.write_all(b"cd"));
    assert_eq!(sink.bytes, b"ab");
    assert!(sink.write_all(b"c"));
    assert!(sink.flush());
    assert_eq!(sink.bytes, b"abc");
}

#[test]
fn file_name_and_header() {
    assert_eq!(Logger::log_file_name("2024-12"), "./logs/campus_network_2024-12.log");
    assert_eq!(LOG_DIR, "./logs");
    assert_eq!(
        Logger::file_header(false, "2024-12-01 08:00:00"),
        "\n=== 日志开始于 2024-12-01 08:00:00 ===\n"
    );
    assert_eq!(
        Logger::file_header(true, "2024-12-01 08:00:00"),
        "\n=== 程序启动于 2024-12-01 08:00:00 ===\n"
    );
}

#[test]
fn colours() {
    assert_eq!(LogLevel::Error.color(), LevelColor::Red);
    assert_eq!(LogLevel::Warn.color(), LevelColor::Yellow);
    assert_eq!(LogLevel::Info.color(), LevelColor::Green);
    assert_eq!(LogLevel::Debug.color(), LevelColor::Blue);
    assert_eq!(LogLevel::Trace.color(), LevelColor::Cyan);
}
