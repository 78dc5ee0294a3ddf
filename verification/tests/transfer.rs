use opsml_cli::api::error::OpsmlError;
use opsml_cli::api::transfer::append_chunk;
use opsml_cli::api::transfer::body_text;
use opsml_cli::api::transfer::transfer_step;
use opsml_cli::api::transfer::TransferAction;
use opsml_cli::api::transfer::TransferEvent;
use opsml_cli::api::transfer::TransferPhase;

/// Carries a transfer out against a destination held in memory, which starts
/// with some earlier content. Returns the phase reached, the destination, and
/// how many actions of each kind were given, in the order they came.
fn transfer(chunks: &[&[u8]], previous: &[u8]) -> (TransferPhase, Vec<u8>, Vec<&'static str>) {
    let mut file = previous.to_vec();
    let mut log = Vec::new();
    let mut events = vec![TransferEvent::Start(200)];
    for chunk in chunks {
        events.push(TransferEvent::Chunk(chunk.to_vec()));
    }
    events.push(TransferEvent::End);
    let mut phase = TransferPhase::Idle;
    for event in events {
        let (next, action) = transfer_step(phase, event);
        phase = next;
        match action {
            TransferAction::Prepare => {
                file.clear();
                log.push("prepare");
            }
            TransferAction::Append(bytes) => {
                file.extend_from_slice(&bytes);
                log.push("append");
            }
            TransferAction::Finish => log.push("finish"),
            TransferAction::Fail(_) => log.push("fail"),
            TransferAction::Ignore => log.push("ignore"),
        }
    }
    (phase, file, log)
}

#[test]
fn every_partition_of_a_source_gives_the_source() {
    let source: Vec<u8> = (0u8..=20).collect();
    for first in 0..=source.len() {
        for second in first..=source.len() {
            let chunks: [&[u8]; 3] =
                [&source[..first], &source[first..second], &source[second..]];
            let (phase, file, _) = transfer(&chunks, b"what was there before");
            assert_eq!(phase, TransferPhase::Done);
            assert_eq!(file, source);
        }
    }
}

#[test]
fn a_source_in_one_chunk_or_byte_by_byte_gives_the_source() {
    let source = b"model bytes \x00\xff\x10 end".to_vec();
    let (phase, file, _) = transfer(&[&source], b"");
    assert_eq!(phase, TransferPhase::Done);
    assert_eq!(file, source);
    let single: Vec<&[u8]> = source.chunks(1).collect();
    let (phase, file, log) = transfer(&single, b"old");
    assert_eq!(phase, TransferPhase::Done);
    assert_eq!(file, source);
    assert_eq!(log.len(), source.len() + 2);
}

#[test]
fn an_empty_body_empties_the_destination() {
    let (phase, file, log) = transfer(&[], b"old content");
    assert_eq!(phase, TransferPhase::Done);
    assert_eq!(file, Vec::<u8>::new());
    assert_eq!(log, vec!["prepare", "finish"]);
}

#[test]
fn the_destination_is_prepared_before_anything_is_written() {
    let (_, _, log) = transfer(&[b"ab", b"cd"], b"");
    assert_eq!(log, vec!["prepare", "append", "append", "finish"]);
    let (phase, action) = transfer_step(TransferPhase::Idle, TransferEvent::Chunk(vec![1, 2]));
    assert_eq!(phase, TransferPhase::Idle);
    assert!(matches!(action, TransferAction::Ignore));
    let (phase, action) = transfer_step(TransferPhase::Idle, TransferEvent::Start(201));
    assert_eq!(phase, TransferPhase::Writing);
    assert!(matches!(action, TransferAction::Prepare));
}

#[test]
fn a_response_outside_the_success_range_is_refused() {
    for status in [199u16, 300, 404, 500] {
        let (phase, action) = transfer_step(TransferPhase::Idle, TransferEvent::Start(status));
        assert_eq!(phase, TransferPhase::Failed);
        match action {
            TransferAction::Fail(error) => {
                assert_eq!(error, OpsmlError::UnexpectedStatus { status })
            }
            other => panic!("expected a failure, got {:?}", other),
        }
    }
    for status in [200u16, 204, 299] {
        let (phase, action) = transfer_step(TransferPhase::Idle, TransferEvent::Start(status));
        assert_eq!(phase, TransferPhase::Writing);
        assert!(matches!(action, TransferAction::Prepare));
    }
}

#[test]
fn a_chunk_is_appended_as_it_came() {
    let (phase, action) =
        transfer_step(TransferPhase::Writing, TransferEvent::Chunk(vec![7, 8, 9]));
    assert_eq!(phase, TransferPhase::Writing);
    match action {
        TransferAction::Append(bytes) => assert_eq!(bytes, vec![7, 8, 9]),
        other => panic!("expected an append, got {:?}", other),
    }
}

#[test]
fn a_transport_failure_is_a_network_error() {
    for phase in [TransferPhase::Idle, TransferPhase::Writing] {
        let (next, action) = transfer_step(phase, TransferEvent::TransportFailure);
        assert_eq!(next, TransferPhase::Failed);
        assert!(matches!(action, TransferAction::Fail(OpsmlError::NetworkError)));
    }
}

#[test]
fn a_file_failure_is_an_io_error() {
    for phase in [TransferPhase::Idle, TransferPhase::Writing] {
        let (next, action) = transfer_step(phase, TransferEvent::FileFailure);
        assert_eq!(next, TransferPhase::Failed);
        assert!(matches!(action, TransferAction::Fail(OpsmlError::IOError)));
    }
}

#[test]
fn a_settled_transfer_ignores_what_follows() {
    for phase in [TransferPhase::Done, TransferPhase::Failed] {
        let events = vec![
            TransferEvent::Start(200),
            TransferEvent::Chunk(vec![1]),
            TransferEvent::End,
            TransferEvent::TransportFailure,
            TransferEvent::FileFailure,
        ];
        for event in events {
            let (next, action) = transfer_step(phase, event);
            assert_eq!(next, phase);
            assert!(matches!(action, TransferAction::Ignore));
        }
    }
    let (next, action) = transfer_step(TransferPhase::Writing, TransferEvent::Start(200));
    assert_eq!(next, TransferPhase::Writing);
    assert!(matches!(action, TransferAction::Ignore));
    let (next, action) = transfer_step(TransferPhase::Idle, TransferEvent::End);
    assert_eq!(next, TransferPhase::Idle);
    assert!(matches!(action, TransferAction::Ignore));
}

/// Reads a body that arrives in these chunks.
fn read(chunks: &[&[u8]]) -> Result<String, OpsmlError> {
    let mut body = Vec::new();
    for chunk in chunks {
        append_chunk(&mut body, chunk);
    }
    body_text(&body)
}

#[test]
fn chunks_are_appended_in_order() {
    let mut body = vec![1u8, 2];
    append_chunk(&mut body, &[3, 4]);
    assert_eq!(body, vec![1, 2, 3, 4]);
    append_chunk(&mut body, &[]);
    assert_eq!(body, vec![1, 2, 3, 4]);
    append_chunk(&mut body, &[0xff]);
    assert_eq!(body, vec![1, 2, 3, 4, 0xff]);
}

#[test]
fn text_chunks_are_joined() {
    let text = read(&[b"{\"model_name\":", b"", "\"modèle\"}".as_bytes()]);
    assert_eq!(text, Ok("{\"model_name\":\"modèle\"}".to_string()));
    assert_eq!(read(&[]), Ok(String::new()));
}

#[test]
fn a_cut_inside_a_character_does_not_lose_the_text() {
    let bytes = "é".as_bytes();
    assert_eq!(bytes, &[0xc3, 0xa9]);
    assert_eq!(read(&[&bytes[..1], &bytes[1..]]), Ok("é".to_string()));
    let source = "{\"model_name\":\"modèle 模型 🚀\"}";
    let bytes = source.as_bytes();
    for first in 0..=bytes.len() {
        for second in first..=bytes.len() {
            let chunks: [&[u8]; 3] = [&bytes[..first], &bytes[first..second], &bytes[second..]];
            assert_eq!(read(&chunks), Ok(source.to_string()));
        }
    }
    let single: Vec<&[u8]> = bytes.chunks(1).collect();
    assert_eq!(read(&single), Ok(source.to_string()));
}

#[test]
fn a_body_that_is_not_text_is_a_decode_error() {
    assert_eq!(body_text(&[0xff, 0xfe]), Err(OpsmlError::DecodeError));
    assert_eq!(body_text(&"é".as_bytes()[..1]), Err(OpsmlError::DecodeError));
    assert_eq!(body_text(&[0xed, 0xa0, 0x80]), Err(OpsmlError::DecodeError));
    assert_eq!(body_text(&[0xc0, 0x80]), Err(OpsmlError::DecodeError));
    assert_eq!(body_text(&[0xf4, 0x90, 0x80, 0x80]), Err(OpsmlError::DecodeError));
    assert_eq!(read(&[b"so far", &[0xc3]]), Err(OpsmlError::DecodeError));
    assert_eq!(body_text(b"plain"), Ok("plain".to_string()));
}
