use blob2spo::ChunkOutcome;
use blob2spo::TransferSession;
use blob2spo::UploadCall;
use blob2spo::UploadCallKind;
use blob2spo::MAX_CHUNK_SIZE;

const MIB: usize = 1024 * 1024;

fn patterned(len: usize) -> Vec<u8> {
    (0..len).map(|i| (i % 251) as u8).collect()
}

fn drive(fragments: &[Vec<u8>], threshold: usize) -> Vec<UploadCall> {
    let mut session = TransferSession::new(threshold);
    let mut calls: Vec<UploadCall> = Vec::new();
    for fragment in fragments {
        calls.extend(session.push_fragment(fragment));
    }
    calls.extend(session.finish_stream());
    calls
}

fn kinds(calls: &[UploadCall]) -> Vec<UploadCallKind> {
    calls.iter().map(|c| c.kind).collect()
}

#[test]
fn small_file_is_one_single_write() {
    // 10 MiB under a 64 MiB threshold: exactly one one-time save with the
    // full content; StartUpload / ContinueUpload / FinishUpload never occur
    let input = patterned(10 * MIB);
    let calls = drive(&[input.clone()], MAX_CHUNK_SIZE);
    assert_eq!(calls.len(), 1);
    assert_eq!(calls[0].kind, UploadCallKind::OneTimeSave);
    assert_eq!(calls[0].offset, 0);
    assert_eq!(calls[0].data, input);
}

#[test]
fn zero_byte_file_still_writes_the_destination() {
    // an empty input produces exactly one write, with empty content
    let calls = drive(&[], MAX_CHUNK_SIZE);
    assert_eq!(calls.len(), 1);
    assert_eq!(calls[0].kind, UploadCallKind::OneTimeSave);
    assert_eq!(calls[0].offset, 0);
    assert!(calls[0].data.is_empty());

    let calls = drive(&[Vec::new(), Vec::new()], MAX_CHUNK_SIZE);
    assert_eq!(calls.len(), 1);
    assert!(calls[0].data.is_empty());
}

#[test]
fn hundred_mib_file_is_create_start_finish() {
    // 100 MiB against a 64 MiB threshold: one create-empty write, one
    // StartUpload of 64 MiB at offset 0, one FinishUpload of 36 MiB at
    // offset 64 MiB
    let input = patterned(100 * MIB);
    let calls = drive(
        &[input[..60 * MIB].to_vec(), input[60 * MIB..].to_vec()],
        MAX_CHUNK_SIZE,
    );
    assert_eq!(
        kinds(&calls),
        vec![
            UploadCallKind::CreateEmpty,
            UploadCallKind::StartUpload,
            UploadCallKind::FinishUpload,
        ]
    );
    assert!(calls[0].data.is_empty());
    assert_eq!(calls[1].offset, 0);
    assert_eq!(calls[1].data.len(), 64 * MIB);
    assert_eq!(calls[1].data, input[..64 * MIB]);
    assert_eq!(calls[2].offset, 64 * MIB as u64);
    assert_eq!(calls[2].data.len(), 36 * MIB);
    assert_eq!(calls[2].data, input[64 * MIB..]);
}

#[test]
fn chunked_writes_cover_the_input_exactly() {
    // sizes past the threshold: bytes across Start + Continue + Finish sum
    // to the input size, offsets advance chunk by chunk with no gaps
    let threshold = 16usize;
    let input = patterned(41);
    let calls = drive(&[input.clone()], threshold);
    assert_eq!(
        kinds(&calls),
        vec![
            UploadCallKind::CreateEmpty,
            UploadCallKind::StartUpload,
            UploadCallKind::ContinueUpload,
            UploadCallKind::FinishUpload,
        ]
    );
    let mut total = 0u64;
    let mut reassembled: Vec<u8> = Vec::new();
    for call in &calls[1..] {
        assert_eq!(call.offset, total);
        total += call.data.len() as u64;
        reassembled.extend_from_slice(&call.data);
    }
    assert_eq!(total, input.len() as u64);
    assert_eq!(reassembled, input);
    assert_eq!(calls[1].data.len(), threshold);
    assert_eq!(calls[2].data.len(), threshold);
    assert_eq!(calls[3].data.len(), 9);
}

#[test]
fn exact_multiple_of_threshold_has_no_empty_final_chunk() {
    let threshold = 16usize;
    let input = patterned(48);
    let calls = drive(&[input.clone()], threshold);
    assert_eq!(
        kinds(&calls),
        vec![
            UploadCallKind::CreateEmpty,
            UploadCallKind::StartUpload,
            UploadCallKind::ContinueUpload,
            UploadCallKind::FinishUpload,
        ]
    );
    assert_eq!(calls[3].data.len(), threshold);
    assert_eq!(calls[3].offset, 32);
}

#[test]
fn input_of_exactly_the_threshold_is_a_single_write() {
    let threshold = 16usize;
    let input = patterned(16);
    let calls = drive(&[input.clone()], threshold);
    assert_eq!(calls.len(), 1);
    assert_eq!(calls[0].kind, UploadCallKind::OneTimeSave);
    assert_eq!(calls[0].data, input);
}

#[test]
fn fragmentation_does_not_change_the_schedule() {
    let threshold = 16usize;
    let input = patterned(100);
    let whole = drive(&[input.clone()], threshold);
    let bytewise: Vec<Vec<u8>> = input.iter().map(|b| vec![*b]).collect();
    let split = drive(&bytewise, threshold);
    assert_eq!(kinds(&whole), kinds(&split));
    assert_eq!(whole.len(), split.len());
    for (a, b) in whole.iter().zip(split.iter()) {
        assert_eq!(a.offset, b.offset);
        assert_eq!(a.data, b.data);
    }
}

#[test]
fn oversized_fragment_is_cut_into_threshold_chunks() {
    let threshold = 8usize;
    let input = patterned(35);
    let calls = drive(&[input.clone()], threshold);
    assert_eq!(
        kinds(&calls),
        vec![
            UploadCallKind::CreateEmpty,
            UploadCallKind::StartUpload,
            UploadCallKind::ContinueUpload,
            UploadCallKind::ContinueUpload,
            UploadCallKind::ContinueUpload,
            UploadCallKind::FinishUpload,
        ]
    );
    assert_eq!(calls[5].offset, 32);
    assert_eq!(calls[5].data.len(), 3);
}

#[test]
fn rejection_aborts_the_transfer() {
    // a rejected write fails the session: no further chunk is emitted,
    // closing the stream emits nothing
    let threshold = 4usize;
    let mut session = TransferSession::new(threshold);
    let first = session.push_fragment(&patterned(10));
    assert_eq!(
        kinds(&first),
        vec![
            UploadCallKind::CreateEmpty,
            UploadCallKind::StartUpload,
            UploadCallKind::ContinueUpload,
        ]
    );
    session.record_outcome(&ChunkOutcome::Accepted);
    session.record_outcome(&ChunkOutcome::Rejected {
        code: "-2130575251".to_string(),
        message: "The security validation for this page is invalid.".to_string(),
    });
    assert!(session.push_fragment(&patterned(64)).is_empty());
    assert!(session.finish_stream().is_empty());
}

#[test]
fn accepted_outcomes_keep_the_session_alive() {
    let threshold = 4usize;
    let mut session = TransferSession::new(threshold);
    let first = session.push_fragment(&patterned(6));
    for _ in &first {
        session.record_outcome(&ChunkOutcome::Accepted);
    }
    let last = session.finish_stream();
    assert_eq!(last.len(), 1);
    assert_eq!(last[0].kind, UploadCallKind::FinishUpload);
    assert_eq!(last[0].offset, 4);
    assert_eq!(last[0].data.len(), 2);
}

#[test]
fn finishing_twice_emits_nothing_more() {
    let mut session = TransferSession::new(8);
    session.push_fragment(&patterned(3));
    let first = session.finish_stream();
    assert_eq!(first.len(), 1);
    assert!(session.finish_stream().is_empty());
    assert!(session.push_fragment(&patterned(3)).is_empty());
}
