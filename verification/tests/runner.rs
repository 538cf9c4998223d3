use boosty::runner::{shell_invocation, Capture, Channel, Notice, Reading};

fn line(text: &str) -> Reading {
    Reading::Line(text.to_string())
}

#[test]
fn a_fresh_capture_is_empty_and_open() {
    let capture = Capture::new();
    assert!(capture.is_open(Channel::Stdout));
    assert!(capture.is_open(Channel::Stderr));
    assert!(!capture.is_done());
    assert_eq!(capture.transcript(), "");
}

#[test]
fn lines_of_both_channels_go_to_one_transcript() {
    let mut capture = Capture::new();
    assert_eq!(
        capture.observe(Channel::Stdout, line("out1")),
        Notice::Echo { channel: Channel::Stdout, line: "out1".to_string() }
    );
    assert_eq!(
        capture.observe(Channel::Stderr, line("err1")),
        Notice::Echo { channel: Channel::Stderr, line: "err1".to_string() }
    );
    assert_eq!(
        capture.observe(Channel::Stdout, line("out2")),
        Notice::Echo { channel: Channel::Stdout, line: "out2".to_string() }
    );
    assert_eq!(capture.observe(Channel::Stdout, Reading::End), Notice::Quiet);
    assert!(!capture.is_done());
    assert_eq!(capture.observe(Channel::Stderr, Reading::End), Notice::Quiet);
    assert!(capture.is_done());
    assert_eq!(capture.into_transcript(), "out1\nerr1\nout2\n");
}

#[test]
fn concurrent_draining_keeps_all_lines_and_order_within_a_stream() {
    // stdout writes out1 then out2, stderr writes err1: whichever way the two
    // channels are interleaved, all three lines arrive and out1 precedes out2
    let interleavings: [[(Channel, &str); 3]; 3] = [
        [(Channel::Stdout, "out1"), (Channel::Stderr, "err1"), (Channel::Stdout, "out2")],
        [(Channel::Stderr, "err1"), (Channel::Stdout, "out1"), (Channel::Stdout, "out2")],
        [(Channel::Stdout, "out1"), (Channel::Stdout, "out2"), (Channel::Stderr, "err1")],
    ];
    for reads in interleavings {
        let mut capture = Capture::new();
        let mut expected = String::new();
        for (channel, text) in reads {
            capture.observe(channel, line(text));
            expected.push_str(text);
            expected.push('\n');
        }
        capture.observe(Channel::Stderr, Reading::End);
        capture.observe(Channel::Stdout, Reading::End);
        assert!(capture.is_done());
        let transcript = capture.into_transcript();
        assert_eq!(transcript, expected);
        let out1 = transcript.find("out1\n").unwrap();
        let out2 = transcript.find("out2\n").unwrap();
        assert!(transcript.contains("err1\n"));
        assert!(out1 < out2);
    }
}

#[test]
fn the_end_of_stdout_does_not_cut_stderr_off() {
    let mut capture = Capture::new();
    capture.observe(Channel::Stdout, line("a"));
    capture.observe(Channel::Stdout, Reading::End);
    assert!(!capture.is_open(Channel::Stdout));
    assert!(capture.is_open(Channel::Stderr));
    capture.observe(Channel::Stderr, line("late"));
    capture.observe(Channel::Stderr, Reading::End);
    assert_eq!(capture.into_transcript(), "a\nlate\n");
}

#[test]
fn a_failed_read_closes_its_channel_only() {
    let mut capture = Capture::new();
    capture.observe(Channel::Stderr, line("e1"));
    assert_eq!(
        capture.observe(Channel::Stderr, Reading::Failed("stream did not contain valid UTF-8".to_string())),
        Notice::Failure {
            channel: Channel::Stderr,
            message: "Error reading stderr: stream did not contain valid UTF-8".to_string(),
        }
    );
    assert!(!capture.is_open(Channel::Stderr));
    assert!(capture.is_open(Channel::Stdout));
    assert!(!capture.is_done());
    capture.observe(Channel::Stdout, line("o1"));
    assert_eq!(
        capture.observe(Channel::Stdout, Reading::Failed("broken pipe".to_string())),
        Notice::Failure {
            channel: Channel::Stdout,
            message: "Error reading stdout: broken pipe".to_string(),
        }
    );
    assert!(capture.is_done());
    assert_eq!(capture.into_transcript(), "e1\no1\n");
}

#[test]
fn what_comes_from_a_closed_channel_is_passed_over() {
    let mut capture = Capture::new();
    capture.observe(Channel::Stdout, Reading::End);
    assert_eq!(capture.observe(Channel::Stdout, line("ghost")), Notice::Quiet);
    assert_eq!(capture.observe(Channel::Stdout, Reading::Failed("x".to_string())), Notice::Quiet);
    assert_eq!(capture.observe(Channel::Stdout, Reading::End), Notice::Quiet);
    assert_eq!(capture.transcript(), "");
    assert!(capture.is_open(Channel::Stderr));
}

#[test]
fn an_empty_line_still_gets_its_line_ending() {
    let mut capture = Capture::new();
    capture.observe(Channel::Stdout, line(""));
    capture.observe(Channel::Stdout, line("x"));
    assert_eq!(capture.transcript(), "\nx\n");
}

#[test]
fn the_command_goes_to_the_shell_as_one_argument() {
    assert_eq!(shell_invocation("ls -la | wc -l"), vec!["sh", "-c", "ls -la | wc -l"]);
    assert_eq!(shell_invocation(""), vec!["sh", "-c", ""]);
}
