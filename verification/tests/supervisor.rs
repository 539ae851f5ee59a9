use app_shell::supervisor::{
    forwarding_step, BackendEvent, Channel, ForwardStep, LogRecord, OutputLine, Severity,
};

fn line(channel: Channel, text: &str) -> Option<BackendEvent> {
    Some(BackendEvent::Line(OutputLine { channel, text: String::from(text) }))
}

#[test]
fn stdout_line_is_logged_as_information() {
    let step = forwarding_step(line(Channel::Stdout, "listening on :4000"));
    assert_eq!(
        step,
        ForwardStep::Log(LogRecord {
            severity: Severity::Info,
            text: String::from("listening on :4000"),
        })
    );
}

#[test]
fn stderr_line_is_logged_as_an_error() {
    let step = forwarding_step(line(Channel::Stderr, "panic: oom"));
    assert_eq!(
        step,
        ForwardStep::Log(LogRecord { severity: Severity::Error, text: String::from("panic: oom") })
    );
}

#[test]
fn line_text_is_forwarded_unchanged() {
    for text in ["", " ", "  padded  ", "tab\there", "ERROR looks like an error", "日本語 ✓"] {
        match forwarding_step(line(Channel::Stdout, text)) {
            ForwardStep::Log(record) => {
                assert_eq!(record.severity, Severity::Info);
                assert_eq!(record.text, text);
            }
            other => panic!("{other:?}"),
        }
        match forwarding_step(line(Channel::Stderr, text)) {
            ForwardStep::Log(record) => {
                assert_eq!(record.severity, Severity::Error);
                assert_eq!(record.text, text);
            }
            other => panic!("{other:?}"),
        }
    }
}

#[test]
fn other_events_are_passed_over() {
    assert_eq!(forwarding_step(Some(BackendEvent::Other)), ForwardStep::Skip);
}

#[test]
fn closed_stream_ends_the_task() {
    assert_eq!(forwarding_step(None), ForwardStep::Stop);
}

#[test]
fn channel_decides_the_severity() {
    assert_eq!(Channel::Stdout.severity(), Severity::Info);
    assert_eq!(Channel::Stderr.severity(), Severity::Error);
}

#[test]
fn task_runs_until_the_stream_closes() {
    let mut events = vec![
        line(Channel::Stdout, "listening on :4000"),
        Some(BackendEvent::Other),
        line(Channel::Stderr, "panic: oom"),
        None,
        line(Channel::Stdout, "never seen"),
    ]
    .into_iter();
    let mut logged: Vec<(Severity, String)> = Vec::new();
    let mut skipped = 0;
    loop {
        match forwarding_step(events.next().unwrap()) {
            ForwardStep::Log(record) => logged.push((record.severity, record.text)),
            ForwardStep::Skip => skipped += 1,
            ForwardStep::Stop => break,
        }
    }
    assert_eq!(
        logged,
        vec![
            (Severity::Info, String::from("listening on :4000")),
            (Severity::Error, String::from("panic: oom")),
        ]
    );
    assert_eq!(skipped, 1);
    assert_eq!(events.len(), 1);
}
