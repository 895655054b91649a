use session_engine::preview::{
    detect_mime_type, file_entry, image_mime_type, is_text_data, preview_file, sftp_list,
    sftp_stat, text_mime_type, EntryAttributes, PREVIEW_MAX_BYTES,
};
use session_engine::sftp::{destination_for, upload_destination};
use session_engine::text::text_eq;

fn attrs(size: Option<u64>, dir: bool) -> EntryAttributes {
    EntryAttributes { size, permissions: Some(0o755), mtime: Some(1_700_000_000), is_dir: dir }
}

#[test]
fn entries_fill_defaults_and_scale_mtime() {
    let e = file_entry("a.txt".to_string(), &attrs(Some(12), false));
    assert_eq!(e.name, "a.txt");
    assert_eq!(e.size, 12);
    assert_eq!(e.entry_type, "file");
    assert_eq!(e.mode, 0o755);
    assert_eq!(e.mtime, 1_700_000_000_000);
    let blank = EntryAttributes { size: None, permissions: None, mtime: None, is_dir: true };
    let d = file_entry("dir".to_string(), &blank);
    assert_eq!((d.size, d.mode, d.mtime), (0, 0, 0));
    assert_eq!(d.entry_type, "directory");
}

#[test]
fn listing_keeps_order() {
    let out = sftp_list(vec![("b".to_string(), attrs(Some(1), false)), ("a".to_string(), attrs(None, true))]);
    assert_eq!(out.len(), 2);
    assert_eq!(out[0].name, "b");
    assert_eq!(out[1].entry_type, "directory");
}

#[test]
fn stat_names_the_entry_by_its_last_component() {
    assert_eq!(sftp_stat("/var/log/syslog", &attrs(Some(5), false)).name, "syslog");
    assert_eq!(sftp_stat("/", &attrs(None, true)).name, "");
}

#[test]
fn image_magic_bytes() {
    assert_eq!(image_mime_type(&[0xFF, 0xD8, 0xFF, 0xE0]), Some("image/jpeg".to_string()));
    assert_eq!(image_mime_type(&[0x89, 0x50, 0x4E, 0x47, 0x0D, 0x0A, 0x1A, 0x0A, 0]), Some("image/png".to_string()));
    assert_eq!(image_mime_type(b"GIF89a.."), Some("image/gif".to_string()));
    assert_eq!(image_mime_type(b"RIFF\0\0\0\0WEBPVP8 "), Some("image/webp".to_string()));
    assert_eq!(image_mime_type(b"RIFF\0\0\0\0WAVE"), None);
    assert_eq!(image_mime_type(&[0xFF, 0xD8]), None);
}

#[test]
fn text_probe_looks_at_first_8k_only() {
    assert!(is_text_data(b"hello"));
    assert!(!is_text_data(b"he\0llo"));
    let mut late = vec![b'a'; 9000];
    late[8500] = 0;
    assert!(is_text_data(&late));
    assert!(is_text_data(b""));
}

#[test]
fn text_mime_by_extension() {
    assert_eq!(text_mime_type("html"), "text/html");
    assert_eq!(text_mime_type("htm"), "text/html");
    assert_eq!(text_mime_type("css"), "text/css");
    assert_eq!(text_mime_type("js"), "application/javascript");
    assert_eq!(text_mime_type("json"), "application/json");
    assert_eq!(text_mime_type("xml"), "application/xml");
    assert_eq!(text_mime_type("md"), "text/markdown");
    assert_eq!(text_mime_type("yml"), "application/x-yaml");
    assert_eq!(text_mime_type("rs"), "text/plain");
}

#[test]
fn detect_uses_lower_case_extension() {
    assert_eq!(detect_mime_type(b"{}", "/etc/conf.JSON"), (true, false, Some("application/json".to_string())));
    assert_eq!(detect_mime_type(b"plain", "/tmp/README"), (true, false, Some("text/plain".to_string())));
    assert_eq!(detect_mime_type(&[0, 1, 2, 3, 4], "/bin/x.html"), (false, false, None));
    assert_eq!(detect_mime_type(&[0xFF, 0xD8, 0, 0], "/a.txt"), (false, true, Some("image/jpeg".to_string())));
}

#[test]
fn preview_of_image_is_base64() {
    let p = preview_file(&[0xFF, 0xD8, 0xFF, 0xE0], "/pic.jpg").unwrap();
    assert!(p.is_image && !p.is_text);
    assert_eq!(p.content, Some("/9j/4A==".to_string()));
    assert_eq!(p.mime_type, Some("image/jpeg".to_string()));
}

#[test]
fn preview_of_text_and_binary() {
    let t = preview_file(b"# Title\n", "/notes.md").unwrap();
    assert!(t.is_text && !t.is_image);
    assert_eq!(t.content, Some("# Title\n".to_string()));
    assert_eq!(t.mime_type, Some("text/markdown".to_string()));
    let b = preview_file(&[1, 0, 2, 3, 4], "/x.bin").unwrap();
    assert!(!b.is_text && !b.is_image);
    assert_eq!(b.content, None);
    assert_eq!(b.mime_type, None);
}

#[test]
fn preview_refuses_files_over_two_mib() {
    let big = vec![b'a'; PREVIEW_MAX_BYTES + 1];
    match preview_file(&big, "/big.txt") {
        Err(m) => assert_eq!(m, "File too large for preview (max 2MB)"),
        Ok(_) => panic!("expected refusal"),
    }
    assert!(preview_file(&vec![b'a'; PREVIEW_MAX_BYTES], "/ok.txt").is_ok());
}

#[test]
fn upload_into_a_directory_keeps_the_local_name() {
    assert_eq!(upload_destination("/srv/in/", "/home/me/report.pdf"), "/srv/in/report.pdf");
    assert_eq!(upload_destination("/srv/in/file.bin", "/home/me/report.pdf"), "/srv/in/file.bin");
    assert_eq!(upload_destination("/srv/in/", "/"), "/srv/in/upload");
    assert_eq!(destination_for("/d/", &None), "/d/upload");
    assert_eq!(destination_for("/d/", &Some("x".to_string())), "/d/x");
}

#[test]
fn text_equality() {
    assert!(text_eq("abc", "abc"));
    assert!(!text_eq("abc", "abd"));
    assert!(!text_eq("ab", "abc"));
    assert!(text_eq("", ""));
}
