use ztclient_common::containers::{
    capture, decode_all, last_text, messages, remove_container, ContainerRemover, ExecError,
    LogChunk, Removal, Stream, Streams,
};

fn chunk(stream: Stream, text: &str) -> LogChunk {
    LogChunk { stream, message: text.as_bytes().to_vec() }
}

fn sample_output() -> Vec<LogChunk> {
    vec![
        chunk(Stream::StdOut, "out one"),
        chunk(Stream::StdErr, "err one"),
        chunk(Stream::Console, "console"),
        chunk(Stream::StdOut, "out two"),
        chunk(Stream::StdIn, "typed"),
        chunk(Stream::StdErr, "err two"),
    ]
}

#[test]
fn remover_keeps_the_name() {
    let remover = ContainerRemover::new("policy01".to_string());
    assert_eq!(remover.container_name, "policy01");
}

#[test]
fn removal_is_forced() {
    assert_eq!(
        remove_container("policy01", false),
        Some(Removal { container_name: "policy01".to_string(), force: true })
    );
    let remover = ContainerRemover::new("policy02".to_string());
    assert_eq!(
        remover.removal(false),
        Some(Removal { container_name: "policy02".to_string(), force: true })
    );
}

#[test]
fn removal_is_a_no_op_while_containers_are_kept() {
    assert_eq!(remove_container("policy01", true), None);
    assert_eq!(ContainerRemover::new("policy01".to_string()).removal(true), None);
}

#[test]
fn messages_are_picked_by_stream_in_order_of_arrival() {
    let output = sample_output();
    assert_eq!(
        messages(&output, Streams::StdOut),
        vec![b"out one".to_vec(), b"out two".to_vec()]
    );
    assert_eq!(
        messages(&output, Streams::StdErr),
        vec![b"err one".to_vec(), b"err two".to_vec()]
    );
    assert_eq!(
        messages(&output, Streams::Output),
        vec![b"out one".to_vec(), b"err one".to_vec(), b"out two".to_vec(), b"err two".to_vec()]
    );
    assert_eq!(messages(&output, Streams::All).len(), 6);
    assert_eq!(messages(&vec![], Streams::All), Vec::<Vec<u8>>::new());
}

#[test]
fn streams_include_what_they_name() {
    assert!(Streams::StdOut.includes(Stream::StdOut));
    assert!(!Streams::StdOut.includes(Stream::StdErr));
    assert!(Streams::StdErr.includes(Stream::StdErr));
    assert!(!Streams::StdErr.includes(Stream::Console));
    assert!(Streams::Output.includes(Stream::StdOut));
    assert!(Streams::Output.includes(Stream::StdErr));
    assert!(!Streams::Output.includes(Stream::StdIn));
    assert!(!Streams::Output.includes(Stream::Console));
    assert!(Streams::All.includes(Stream::StdIn));
    assert!(Streams::All.includes(Stream::Console));
}

#[test]
fn capture_sorts_by_stream() {
    let captured = capture(&sample_output());
    assert_eq!(captured.stdout, vec![b"out one".to_vec(), b"out two".to_vec()]);
    assert_eq!(captured.stderr, vec![b"err one".to_vec(), b"err two".to_vec()]);
    let nothing = capture(&vec![]);
    assert!(nothing.stdout.is_empty());
    assert!(nothing.stderr.is_empty());
}

#[test]
fn last_text_reads_the_last_piece_of_the_stream() {
    let output = sample_output();
    assert_eq!(last_text(&output, Streams::StdErr), Ok(Some("err two".to_string())));
    assert_eq!(last_text(&output, Streams::StdOut), Ok(Some("out two".to_string())));
    assert_eq!(last_text(&output, Streams::All), Ok(Some("err two".to_string())));
    assert_eq!(last_text(&vec![chunk(Stream::StdOut, "x")], Streams::StdErr), Ok(None));
}

#[test]
fn last_text_decodes_utf8() {
    let output = vec![LogChunk { stream: Stream::StdOut, message: vec![0xc3, 0xa9, 0x21] }];
    assert_eq!(last_text(&output, Streams::StdOut), Ok(Some("é!".to_string())));
}

#[test]
fn last_text_refuses_what_is_no_text() {
    let output = vec![
        chunk(Stream::StdErr, "fine"),
        LogChunk { stream: Stream::StdErr, message: vec![0xff, 0xfe] },
    ];
    assert_eq!(last_text(&output, Streams::StdErr), Err(ExecError::NotText));
    let truncated = vec![LogChunk { stream: Stream::StdErr, message: vec![0xc3] }];
    assert_eq!(last_text(&truncated, Streams::StdErr), Err(ExecError::NotText));
}

#[test]
fn decode_all_reads_every_message_or_none() {
    assert_eq!(
        decode_all(&vec![b"one".to_vec(), b"".to_vec(), "zwö".as_bytes().to_vec()]),
        Ok(vec!["one".to_string(), "".to_string(), "zwö".to_string()])
    );
    assert_eq!(decode_all(&vec![]), Ok(vec![]));
    assert_eq!(decode_all(&vec![b"one".to_vec(), vec![0x80]]), Err(ExecError::NotText));
}
