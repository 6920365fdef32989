use mime_sniff::scan::{leading_bytes, SCAN_LIMIT};
use mime_sniff::{infer_from_buffer, infer_from_path};

const PNG_SIGNATURE: [u8; 8] = [0x89, 0x50, 0x4E, 0x47, 0x0D, 0x0A, 0x1A, 0x0A];

fn infer(bytes: &[u8]) -> String {
    let mut task = infer_from_buffer(bytes.to_vec());
    let output = task.compute();
    task.resolve(output)
}

fn infer_file(content: Option<Vec<u8>>) -> Option<String> {
    let mut task = infer_from_path("some/file".to_string());
    let output = task.compute(content);
    task.resolve(output)
}

fn png_with_trailer() -> Vec<u8> {
    let mut bytes = PNG_SIGNATURE.to_vec();
    bytes.extend_from_slice(&[0x00, 0x00, 0x00, 0x0D, 0x49, 0x48, 0x44, 0x52, 0x17, 0x2A]);
    bytes
}

#[test]
fn infers_png_from_its_signature() {
    assert_eq!(infer(&png_with_trailer()), "image/png");
}

#[test]
fn infers_pdf_from_its_signature() {
    assert_eq!(infer(b"%PDF-1.4\n%\xE2\xE3\xCF\xD3\n"), "application/pdf");
    assert_eq!(infer(&[0x25, 0x50, 0x44, 0x46, 0x2D]), "application/pdf");
}

#[test]
fn infers_gif_and_zip_from_their_signatures() {
    assert_eq!(infer(b"GIF89a\x01\x00\x01\x00"), "image/gif");
    assert_eq!(infer(b"PK\x03\x04\x14\x00\x00\x00"), "application/zip");
}

#[test]
fn empty_buffer_gets_an_identifier() {
    assert_eq!(infer(&[]), "text/plain");
}

#[test]
fn plain_words_are_plain_text() {
    assert_eq!(infer(b"hello"), "text/plain");
}

#[test]
fn unrecognised_binary_gets_the_fallback() {
    assert_eq!(infer(&[0x00, 0x01, 0x02]), "application/octet-stream");
}

#[test]
fn identifier_is_never_empty() {
    let samples: [&[u8]; 6] = [
        &[],
        &[0x00],
        &[0xFF, 0xFE, 0xFD],
        &[0x25, 0x50, 0x44, 0x46],
        b"-----BEGIN CA CERTIFICATE-----\n",
        b"<?xml version=\"1.0\"?>",
    ];
    for sample in samples {
        assert!(!infer(sample).is_empty());
    }
}

#[test]
fn buffer_task_keeps_its_bytes() {
    let bytes = png_with_trailer();
    let mut task = infer_from_buffer(bytes.clone());
    assert_eq!(task.bytes(), &bytes[..]);
    let output = task.compute();
    assert_eq!(task.bytes(), &bytes[..]);
    let _ = task.resolve(output);
    assert_eq!(task.bytes(), &bytes[..]);
}

#[test]
fn buffer_resolve_copies_the_identifier() {
    let mut task = infer_from_buffer(vec![1, 2, 3]);
    assert_eq!(task.resolve("image/png"), "image/png");
    assert_eq!(task.resolve("application/octet-stream"), "application/octet-stream");
    assert_eq!(task.resolve(""), "");
}

#[test]
fn buffer_task_can_be_computed_again() {
    let mut task = infer_from_buffer(png_with_trailer());
    let first = task.compute();
    let second = task.compute();
    assert_eq!(first, second);
    assert_eq!(first, "image/png");
}

#[test]
fn unreadable_file_is_a_miss() {
    assert_eq!(infer_file(None), None);
}

#[test]
fn readable_file_is_inferred_from_its_content() {
    assert_eq!(infer_file(Some(png_with_trailer())), Some("image/png".to_string()));
    assert_eq!(infer_file(Some(b"%PDF-1.7\n".to_vec())), Some("application/pdf".to_string()));
}

#[test]
fn empty_file_still_gets_an_identifier() {
    assert_eq!(infer_file(Some(Vec::new())), Some("text/plain".to_string()));
}

#[test]
fn file_inference_stops_at_the_scan_limit() {
    let mut content = vec![b'a'; SCAN_LIMIT];
    assert_eq!(infer_file(Some(content.clone())), Some("text/plain".to_string()));
    content.push(0x00);
    assert_eq!(infer_file(Some(content.clone())), Some("text/plain".to_string()));
    assert_eq!(infer(&content), "application/octet-stream");
    content[SCAN_LIMIT - 1] = 0x00;
    assert_eq!(infer_file(Some(content)), Some("application/octet-stream".to_string()));
}

#[test]
fn path_task_keeps_its_path() {
    let mut task = infer_from_path("/tmp/does/not/exist".to_string());
    assert_eq!(task.path(), "/tmp/does/not/exist");
    let output = task.compute(None);
    assert_eq!(task.path(), "/tmp/does/not/exist");
    let _ = task.resolve(output);
    assert_eq!(task.path(), "/tmp/does/not/exist");
}

#[test]
fn path_resolve_copies_the_identifier() {
    let mut task = infer_from_path("a".to_string());
    assert_eq!(task.resolve(Some("image/gif")), Some("image/gif".to_string()));
    assert_eq!(task.resolve(None), None);
}

#[test]
fn scan_limit_is_two_kibibytes() {
    assert_eq!(SCAN_LIMIT, 2048);
}

#[test]
fn leading_bytes_of_short_content_is_all_of_it() {
    assert_eq!(leading_bytes(&[]), &[] as &[u8]);
    assert_eq!(leading_bytes(&[7, 8, 9]), &[7, 8, 9]);
    let exact = vec![5u8; SCAN_LIMIT];
    assert_eq!(leading_bytes(&exact), &exact[..]);
}

#[test]
fn leading_bytes_of_long_content_is_its_prefix() {
    let mut content = Vec::new();
    for i in 0..(SCAN_LIMIT + 100) {
        content.push((i % 251) as u8);
    }
    let window = leading_bytes(&content);
    assert_eq!(window.len(), SCAN_LIMIT);
    assert_eq!(window, &content[..SCAN_LIMIT]);
}

#[test]
fn identifier_has_one_byte_per_character() {
    let samples: [&[u8]; 8] = [
        &[],
        &[0x00, 0x01, 0x02],
        &[0xC3, 0xA9, 0xE2, 0x82, 0xAC],
        &PNG_SIGNATURE,
        b"%PDF-1.4\n",
        b"%PDF",
        b"-----BEGIN CA CERTIFICATE-----\n",
        b"<?xml version=\"1.0\"?><svg xmlns=\"http://www.w3.org/2000/svg\"></svg>",
    ];
    for sample in samples {
        let text = infer(sample);
        assert!(text.chars().all(|c| (c as u32) < 256));
        assert_eq!(text.chars().count(), text.len());
    }
}

#[test]
fn file_identifier_has_one_byte_per_character() {
    let samples: [&[u8]; 4] = [&[], &[0x00], &PNG_SIGNATURE, b"#!/bin/sh\necho hi\n"];
    for sample in samples {
        let text = infer_file(Some(sample.to_vec())).unwrap();
        assert!(!text.is_empty());
        assert!(text.chars().all(|c| (c as u32) < 256));
    }
}
