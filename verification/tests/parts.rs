use b2::api::UploadTarget;
use b2::error::Error;
use b2::hasher::sha1_hex;
use b2::parts::{upload_file_parts, Phase, UploadAction, UploadEvent};
use b2::upload::{upload_file, upload_file_non_parts, Upload, LARGE_FILE_THRESHOLD};
use b2::hasher::ContentHasher;

fn target() -> UploadTarget {
    UploadTarget {
        upload_url: "https://pod.example/part".to_string(),
        authorization_token: "part-token".to_string(),
    }
}

/// Runs a chunked upload of `data` to the end and gives the part numbers, the
/// lengths and the digests that were submitted, and the digest list sent to
/// close the session.
fn run(data: &[u8], recommended: u64) -> (Vec<u64>, Vec<u64>, Vec<String>, Vec<String>, u128) {
    let (mut upload, action) = upload_file_parts("bucket-1", data.len() as u64, "dir/file.bin", None);
    assert!(matches!(action, UploadAction::StartLargeFile { .. }));
    let action = upload.on_started("file-9".to_string());
    match action {
        UploadAction::GetUploadPartUrl { file_id } => assert_eq!(file_id, "file-9"),
        other => panic!("unexpected {:?}", other),
    }
    let mut action = upload.on_part_url(target(), recommended);
    let mut numbers = Vec::new();
    let mut lengths = Vec::new();
    let mut digests = Vec::new();
    loop {
        match action {
            UploadAction::ReadChunk { offset, length } => {
                let start = (offset as usize).min(data.len());
                let end = (start + length as usize).min(data.len());
                match upload.on_chunk(&data[start..end]) {
                    UploadAction::UploadPart {
                        upload_url,
                        authorization,
                        part_number,
                        content_length,
                        content_sha1,
                    } => {
                        assert_eq!(upload_url, "https://pod.example/part");
                        assert_eq!(authorization, "part-token");
                        assert_eq!(content_sha1, sha1_hex(&data[start..end]));
                        numbers.push(part_number);
                        lengths.push(content_length);
                        digests.push(content_sha1);
                    }
                    other => panic!("unexpected {:?}", other),
                }
                action = upload.on_part_accepted();
            }
            UploadAction::FinishLargeFile { file_id, part_sha1_array } => {
                assert_eq!(file_id, "file-9");
                assert_eq!(upload.phase, Phase::Finalizing);
                let uploaded = upload.uploaded;
                assert!(matches!(upload.on_finished(), UploadAction::Finished));
                assert_eq!(upload.phase, Phase::Done);
                return (numbers, lengths, digests, part_sha1_array, uploaded);
            }
            other => panic!("unexpected {:?}", other),
        }
    }
}

#[test]
fn first_action_opens_the_session() {
    let (upload, action) = upload_file_parts("bucket-1", 25, "dir/photo.png", None);
    assert_eq!(upload.phase, Phase::Started);
    assert_eq!(upload.total_length, 25);
    match action {
        UploadAction::StartLargeFile { bucket_id, file_name, content_type } => {
            assert_eq!(bucket_id, "bucket-1");
            assert_eq!(file_name, "dir/photo.png");
            assert_eq!(content_type, "image/png");
        }
        other => panic!("unexpected {:?}", other),
    }
}

#[test]
fn finalize_lists_digests_in_part_order() {
    let data: Vec<u8> = (0..25u8).collect();
    let (numbers, lengths, digests, finalize, uploaded) = run(&data, 10);
    assert_eq!(numbers, vec![1, 2, 3]);
    assert_eq!(lengths, vec![10, 10, 5]);
    assert_eq!(
        finalize,
        vec![sha1_hex(&data[0..10]), sha1_hex(&data[10..20]), sha1_hex(&data[20..25])]
    );
    assert_eq!(finalize, digests);
    assert_eq!(uploaded, 25);
}

#[test]
fn exact_multiple_ends_with_an_empty_part() {
    let data: Vec<u8> = vec![7u8; 30];
    let (numbers, lengths, _, finalize, uploaded) = run(&data, 10);
    assert_eq!(numbers, vec![1, 2, 3, 4]);
    assert_eq!(lengths, vec![10, 10, 10, 0]);
    assert_eq!(finalize.len(), 4);
    assert_eq!(finalize[3], "da39a3ee5e6b4b0d3255bfef95601890afd80709");
    assert_eq!(uploaded, 30);
}

#[test]
fn chunks_are_read_at_multiples_of_the_chunk_size() {
    let (mut upload, _) = upload_file_parts("b", 25, "f", Some("text/x"));
    upload.on_started("id".to_string());
    let action = upload.on_part_url(target(), 10);
    assert!(matches!(action, UploadAction::ReadChunk { offset: 0, length: 10 }));
    assert_eq!(upload.plan.chunk_size, 10);
    assert_eq!(upload.plan.chunk_count, 2);
    upload.on_chunk(&[0u8; 10]);
    let action = upload.on_part_accepted();
    assert!(matches!(action, UploadAction::ReadChunk { offset: 10, length: 10 }));
    assert_eq!(upload.uploaded, 10);
    upload.on_chunk(&[0u8; 10]);
    let action = upload.on_part_accepted();
    assert!(matches!(action, UploadAction::ReadChunk { offset: 20, length: 10 }));
    assert_eq!(upload.parts.len(), 2);
    assert_eq!(upload.parts[1].part_number, 2);
    assert_eq!(upload.parts[1].offset, 10);
    assert_eq!(upload.parts[1].length, 10);
}

#[test]
fn too_small_a_file_is_given_up_after_the_lease() {
    let (mut upload, _) = upload_file_parts("b", 1_000, "f", None);
    upload.on_started("id".to_string());
    let action = upload.on_part_url(target(), 100_000_000);
    assert!(matches!(action, UploadAction::Abort(Error::InsufficientData)));
    assert_eq!(upload.phase, Phase::Failed);
}

#[test]
fn failure_aborts_from_any_phase() {
    let (mut upload, _) = upload_file_parts("b", 25, "f", None);
    let action = upload.on_failure(Error::AuthExhausted);
    assert!(matches!(action, UploadAction::Abort(Error::AuthExhausted)));
    assert_eq!(upload.phase, Phase::Failed);

    let (mut upload, _) = upload_file_parts("b", 25, "f", None);
    upload.on_started("id".to_string());
    upload.on_part_url(target(), 10);
    upload.on_chunk(&[1u8; 10]);
    let action = upload.on_failure(Error::Api {
        code: "c".to_string(),
        message: "m".to_string(),
        url: "u".to_string(),
    });
    assert!(matches!(action, UploadAction::Abort(Error::Api { .. })));
    assert_eq!(upload.phase, Phase::Failed);
    assert_eq!(upload.parts.len(), 1);
}

#[test]
fn directories_and_unknown_buckets_are_turned_away() {
    let r = upload_file("some/dir", false, false, "photos", Some("b"), 10, "f", None);
    match r {
        Err(e @ Error::NotAFile { .. }) => assert_eq!(e.message(), "some/dir is not a file."),
        _ => panic!("expected a refusal"),
    }
    let r = upload_file("some/dir", false, true, "photos", None, 10, "f", None);
    assert!(matches!(r, Err(Error::NotAFile { .. })));
    let r = upload_file("a.txt", true, false, "photos", None, 10, "f", None);
    match r {
        Err(e @ Error::BucketNotFound { .. }) => {
            assert_eq!(e.message(), "Bucket `photos` does not exist")
        }
        _ => panic!("expected a refusal"),
    }
}

#[test]
fn large_files_go_in_parts() {
    assert_eq!(LARGE_FILE_THRESHOLD, 1024 * 1024 * 1024);
    let r = upload_file("f", true, false, "n", Some("b"), LARGE_FILE_THRESHOLD, "f", None);
    assert!(matches!(r, Ok(Upload::Parts(..))));
    let r = upload_file("f", true, false, "n", Some("b"), LARGE_FILE_THRESHOLD - 1, "f", None);
    match r {
        Ok(Upload::Whole { bucket_id }) => assert_eq!(bucket_id, "b"),
        _ => panic!("expected a single request"),
    }
    let r = upload_file("f.txt", true, true, "n", Some("b"), 10, "f.txt", None);
    match r {
        Ok(Upload::Parts(upload, UploadAction::StartLargeFile { content_type, .. })) => {
            assert_eq!(upload.total_length, 10);
            assert_eq!(content_type, "text/plain");
        }
        _ => panic!("expected parts"),
    }
}

#[test]
fn single_request_carries_name_type_length_and_digest() {
    let mut hasher = ContentHasher::new();
    hasher.update(b"hello ");
    hasher.update(b"world");
    let request = upload_file_non_parts(target(), hasher, 11, "my dir/caf\u{e9} file.txt", None);
    assert_eq!(request.upload_url, "https://pod.example/part");
    assert_eq!(request.authorization, "part-token");
    assert_eq!(request.file_name, "my%20dir%2Fcaf%C3%A9%20file.txt");
    assert_eq!(request.content_type, "text/plain");
    assert_eq!(request.content_length, 11);
    assert_eq!(request.content_sha1, "2aae6c35c94fcfb415dbe95f408b9ce91ee846ed");
}

#[test]
fn unreserved_characters_are_not_encoded() {
    let request = upload_file_non_parts(target(), ContentHasher::new(), 0, "A-z_0.9~", Some("x/y"));
    assert_eq!(request.file_name, "A-z_0.9~");
    assert_eq!(request.content_type, "x/y");
}

#[test]
fn events_advance_the_upload_like_the_methods() {
    let data: Vec<u8> = (0..12u8).collect();
    let (mut upload, _) = upload_file_parts("b", 12, "f", None);
    let action = upload.step(UploadEvent::Started { file_id: "id".to_string() });
    assert!(matches!(action, UploadAction::GetUploadPartUrl { .. }));
    let action = upload.step(UploadEvent::PartUrlLeased {
        target: target(),
        recommended_part_size: 5,
    });
    assert!(matches!(action, UploadAction::ReadChunk { offset: 0, length: 5 }));
    let mut numbers = Vec::new();
    for (start, end) in [(0usize, 5usize), (5, 10), (10, 12)] {
        let action = upload.step(UploadEvent::ChunkRead { bytes: data[start..end].to_vec() });
        match action {
            UploadAction::UploadPart { part_number, content_length, content_sha1, .. } => {
                numbers.push(part_number);
                assert_eq!(content_length, (end - start) as u64);
                assert_eq!(content_sha1, sha1_hex(&data[start..end]));
            }
            other => panic!("unexpected {:?}", other),
        }
        let action = upload.step(UploadEvent::PartAccepted);
        if end < 12 {
            assert!(matches!(action, UploadAction::ReadChunk { .. }));
        } else {
            match action {
                UploadAction::FinishLargeFile { part_sha1_array, .. } => {
                    assert_eq!(part_sha1_array.len(), 3);
                    assert_eq!(part_sha1_array[2], sha1_hex(&data[10..12]));
                }
                other => panic!("unexpected {:?}", other),
            }
        }
    }
    assert_eq!(numbers, vec![1, 2, 3]);
    assert!(matches!(upload.step(UploadEvent::Finished), UploadAction::Finished));
    assert_eq!(upload.phase, Phase::Done);
    assert!(matches!(
        upload.step(UploadEvent::Failed(Error::AuthExhausted)),
        UploadAction::Abort(Error::AuthExhausted)
    ));
}
