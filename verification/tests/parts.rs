//! Planning the extraction of MIME parts.

use apple_mail::mime::{extract_parts, parts_to_save};
use apple_mail::runner::Runner;
use apple_mail::{download_all_parts_plan, Disposition, MailError, MimePart};

fn part(mimetype: &str, body: Result<&[u8], &str>) -> MimePart {
    MimePart {
        children: 0,
        mimetype: mimetype.to_string(),
        type_params: vec![],
        disposition: Disposition::Inline,
        disposition_params: vec![],
        body: body.map(|b| b.to_vec()).map_err(|e| e.to_string()),
    }
}

#[test]
fn unnamed_parts_are_numbered_by_what_was_saved_before() {
    let mut container = part("multipart/mixed", Ok(b"ignored"));
    container.children = 3;
    let mut attached = part("application/pdf", Ok(b"%PDF"));
    attached.disposition = Disposition::Attachment;
    let parts = vec![
        container,
        part("text/plain", Ok(b"hello")),
        part("image/png", Ok(b"\x89PNG")),
        part("image/jpg", Ok(b"")),
        part("image/jpeg", Ok(b"jj")),
        attached,
        part("application/zip", Ok(b"PK")),
    ];
    let (saved, failure) = extract_parts(&parts, "/out");
    assert!(failure.is_none());
    let paths: Vec<&str> = saved.iter().map(|s| s.path.as_str()).collect();
    assert_eq!(paths, vec!["/out/part_1.png", "/out/part_2.jpg", "/out/part_3.pdf", "/out/part_4.bin"]);
    assert_eq!(saved[0].summary, "/out/part_1.png (inline; image/png; 4 bytes)");
    assert_eq!(saved[2].summary, "/out/part_3.pdf (attachment; application/pdf; 4 bytes)");
    assert_eq!(saved[1].body, b"jj".to_vec());
}

#[test]
fn names_come_from_filename_then_name() {
    let mut p1 = part("image/gif", Ok(b"GIF8"));
    p1.disposition_params = vec![("filename".to_string(), "logo.gif".to_string())];
    p1.type_params = vec![("name".to_string(), "other.gif".to_string())];
    let mut p2 = part("image/webp", Ok(b"RIFF"));
    p2.type_params = vec![("charset".to_string(), "x".to_string()), ("name".to_string(), "pic.webp".to_string())];
    p2.disposition = Disposition::Extension("x-custom".to_string());
    let mut p3 = part("image/webp", Ok(b"RIFF"));
    p3.disposition = Disposition::FormData;
    let (saved, failure) = extract_parts(&vec![p1, p2, p3], "dir/");
    assert!(failure.is_none());
    assert_eq!(saved[0].path, "dir/logo.gif");
    assert_eq!(saved[1].summary, "dir/pic.webp (unknown; image/webp; 4 bytes)");
    assert_eq!(saved[2].path, "dir/part_3.webp");
}

#[test]
fn a_part_that_cannot_be_decoded_stops_the_extraction() {
    let parts = vec![
        part("image/png", Ok(b"a")),
        part("image/png", Err("Base64 decode error: bad")),
        part("image/png", Ok(b"c")),
    ];
    let (saved, failure) = extract_parts(&parts, "/d");
    assert_eq!(saved.len(), 1);
    assert!(matches!(failure, Some(MailError::AppleScriptError(m)) if m == "Failed to decode part: Base64 decode error: bad"));
}

const SOURCE: &str = "Subject: test\r\n\
Content-Type: multipart/mixed; boundary=XX\r\n\
\r\n\
--XX\r\n\
Content-Type: text/plain\r\n\
\r\n\
Hello there\r\n\
--XX\r\n\
Content-Type: image/png; name=\"dot.png\"\r\n\
Content-Disposition: attachment; filename=\"Dot.PNG\"\r\n\
Content-Transfer-Encoding: base64\r\n\
\r\n\
aGVsbG8=\r\n\
--XX\r\n\
Content-Type: application/octet-stream\r\n\
\r\n\
raw\r\n\
--XX--\r\n";

#[test]
fn parts_of_a_real_message() {
    let (saved, failure) = parts_to_save(SOURCE, "/tmp/x");
    assert!(failure.is_none());
    assert_eq!(saved.len(), 2);
    assert_eq!(saved[0].path, "/tmp/x/Dot.PNG");
    assert_eq!(saved[0].body, b"hello".to_vec());
    assert_eq!(saved[0].summary, "/tmp/x/Dot.PNG (attachment; image/png; 5 bytes)");
    assert_eq!(saved[1].path, "/tmp/x/part_2.bin");
    assert_eq!(saved[1].summary, "/tmp/x/part_2.bin (inline; application/octet-stream; 3 bytes)");
}

#[test]
fn undecodable_base64_is_reported() {
    let src = "Content-Type: image/png\r\nContent-Transfer-Encoding: base64\r\n\r\n!!!!\r\n";
    let (saved, failure) = parts_to_save(src, "/t");
    assert!(saved.is_empty());
    match failure {
        Some(MailError::AppleScriptError(m)) => assert!(m.starts_with("Failed to decode part: Base64 decode error")),
        other => panic!("unexpected {:?}", other),
    }
}

#[test]
fn plan_goes_through_the_message_source() {
    let (saved, failure) = download_all_parts_plan("5:x", "/o", &mut Runner::new(|_s: String| Ok(SOURCE.to_string())));
    assert!(failure.is_none());
    assert_eq!(saved.len(), 2);
    let (saved, failure) = download_all_parts_plan("5", "/o", &mut Runner::new(|_s: String| Ok("ERROR:none".to_string())));
    assert!(saved.is_empty());
    assert!(matches!(failure, Some(MailError::MessageNotFound(id)) if id == "5"));
}

#[test]
fn text_attachments_are_saved_but_message_text_is_not() {
    let mut notes = part("text/plain", Ok(b"notes"));
    notes.disposition = Disposition::Attachment;
    notes.disposition_params = vec![("filename".to_string(), "notes.txt".to_string())];
    let mut unnamed = part("text/csv", Ok(b"a,b"));
    unnamed.disposition = Disposition::Attachment;
    let parts = vec![part("text/plain", Ok(b"body")), part("text/html", Ok(b"<p>")), notes, unnamed];
    let (saved, failure) = extract_parts(&parts, "/d");
    assert!(failure.is_none());
    let paths: Vec<&str> = saved.iter().map(|s| s.path.as_str()).collect();
    assert_eq!(paths, vec!["/d/notes.txt", "/d/part_2.bin"]);
    assert_eq!(saved[0].summary, "/d/notes.txt (attachment; text/plain; 5 bytes)");
}
