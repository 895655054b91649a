//! Directory entries and inline previews of small remote files.
use vstd::prelude::*;
use vstd::string::*;
use crate::hosts::opt_text;
use crate::text::{
    base64_encode, base64_of, extension, extension_of, file_name, file_name_of, lossy_text,
    lossy_text_of, lower_of, lowercase, text_eq,
};

verus! {

/// One entry of a remote directory.
pub struct FileEntry {
    pub name: String,
    pub size: u64,
    pub entry_type: String,
    pub mode: u32,
    pub mtime: u64,
}

/// What the remote side reported of a file.
#[derive(PartialEq, Eq, Structural, Clone, Copy, Debug)]
pub struct EntryAttributes {
    pub size: Option<u64>,
    pub permissions: Option<u32>,
    /// Seconds since the epoch.
    pub mtime: Option<u32>,
    pub is_dir: bool,
}

pub open spec fn entry_type_text(is_dir: bool) -> Seq<char> {
    if is_dir { "directory"@ } else { "file"@ }
}

/// The entry fields that follow from the attributes: absent numbers count as
/// zero and the modification time is given in milliseconds.
pub open spec fn entry_matches(e: FileEntry, name: Seq<char>, a: EntryAttributes) -> bool {
    &&& e.name@ == name
    &&& e.size == (match a.size { Some(s) => s, None => 0 })
    &&& e.entry_type@ == entry_type_text(a.is_dir)
    &&& e.mode == (match a.permissions { Some(p) => p, None => 0 })
    &&& e.mtime == (match a.mtime { Some(t) => t as u64, None => 0 }) * 1000
}

pub fn file_entry(name: String, attrs: &EntryAttributes) -> (r: FileEntry)
    ensures
        entry_matches(r, name@, *attrs),
{
    let mtime_secs: u64 = match attrs.mtime {
        Some(t) => t as u64,
        None => 0,
    };
    FileEntry {
        name,
        size: match attrs.size {
            Some(s) => s,
            None => 0,
        },
        entry_type: if attrs.is_dir { String::from_str("directory") } else { String::from_str("file") },
        mode: match attrs.permissions {
            Some(p) => p,
            None => 0,
        },
        mtime: mtime_secs * 1000,
    }
}

/// The listing of a directory, one entry per name, in the order given.
pub fn sftp_list(raw: Vec<(String, EntryAttributes)>) -> (r: Vec<FileEntry>)
    ensures
        r@.len() == raw@.len(),
        forall|i: int| 0 <= i < raw@.len() ==> entry_matches(#[trigger] r@[i], raw@[i].0@, raw@[i].1),
{
    let mut out: Vec<FileEntry> = Vec::new();
    let mut i: usize = 0;
    while i < raw.len()
        invariant
            i <= raw@.len(),
            out@.len() == i,
            forall|j: int| 0 <= j < i ==> entry_matches(#[trigger] out@[j], raw@[j].0@, raw@[j].1),
        decreases raw@.len() - i,
    {
        let name = raw[i].0.clone();
        out.push(file_entry(name, &raw[i].1));
        i = i + 1;
    }
    out
}

/// The entry for a single path: named by its last component, or empty.
pub fn sftp_stat(path: &str, attrs: &EntryAttributes) -> (r: FileEntry)
    ensures
        entry_matches(r, match file_name_of(path@) { Some(n) => n, None => Seq::<char>::empty() }, *attrs),
{
    let name = match file_name(path) {
        Some(n) => n,
        None => String::new(),
    };
    file_entry(name, attrs)
}

pub open spec fn starts_with_bytes(d: Seq<u8>, at: int, sig: Seq<u8>) -> bool {
    d.len() >= at + sig.len() && d.subrange(at, at + sig.len()) == sig
}

/// The image format that the first bytes announce, for data of 4 bytes or more.
pub open spec fn image_mime_spec(d: Seq<u8>) -> Option<Seq<char>> {
    if d.len() < 4 {
        None
    } else if starts_with_bytes(d, 0, seq![0xFFu8, 0xD8u8]) {
        Some("image/jpeg"@)
    } else if starts_with_bytes(d, 0, seq![0x89u8, 0x50u8, 0x4Eu8, 0x47u8, 0x0Du8, 0x0Au8, 0x1Au8, 0x0Au8]) {
        Some("image/png"@)
    } else if starts_with_bytes(d, 0, seq![0x47u8, 0x49u8, 0x46u8, 0x38u8, 0x39u8, 0x61u8]) {
        Some("image/gif"@)
    } else if starts_with_bytes(d, 0, seq![0x52u8, 0x49u8, 0x46u8, 0x46u8])
        && starts_with_bytes(d, 8, seq![0x57u8, 0x45u8, 0x42u8, 0x50u8]) {
        Some("image/webp"@)
    } else {
        None
    }
}

fn has_prefix(d: &[u8], at: usize, sig: &[u8]) -> (r: bool)
    ensures
        r == starts_with_bytes(d@, at as int, sig@),
{
    if d.len() < sig.len() || at > d.len() - sig.len() {
        return false;
    }
    let mut i: usize = 0;
    while i < sig.len()
        invariant
            d@.len() <= usize::MAX,
            at + sig@.len() <= d@.len(),
            i <= sig@.len(),
            forall|j: int| 0 <= j < i ==> d@[at + j] == sig@[j],
        decreases sig@.len() - i,
    {
        if d[at + i] != sig[i] {
            assert(d@.subrange(at as int, at + sig@.len())[i as int] != sig@[i as int]);
            return false;
        }
        i = i + 1;
    }
    assert(d@.subrange(at as int, at + sig@.len()) =~= sig@);
    true
}

/// Sniffs the magic bytes of JPEG, PNG, GIF89a and WebP.
pub fn image_mime_type(data: &[u8]) -> (r: Option<String>)
    ensures
        opt_text(r) == image_mime_spec(data@),
{
    if data.len() < 4 {
        return None;
    }
    let jpeg: [u8; 2] = [0xFF, 0xD8];
    let png: [u8; 8] = [0x89, 0x50, 0x4E, 0x47, 0x0D, 0x0A, 0x1A, 0x0A];
    let gif: [u8; 6] = [0x47, 0x49, 0x46, 0x38, 0x39, 0x61];
    let riff: [u8; 4] = [0x52, 0x49, 0x46, 0x46];
    let webp: [u8; 4] = [0x57, 0x45, 0x42, 0x50];
    assert(jpeg@ =~= seq![0xFFu8, 0xD8u8]);
    assert(png@ =~= seq![0x89u8, 0x50u8, 0x4Eu8, 0x47u8, 0x0Du8, 0x0Au8, 0x1Au8, 0x0Au8]);
    assert(gif@ =~= seq![0x47u8, 0x49u8, 0x46u8, 0x38u8, 0x39u8, 0x61u8]);
    assert(riff@ =~= seq![0x52u8, 0x49u8, 0x46u8, 0x46u8]);
    assert(webp@ =~= seq![0x57u8, 0x45u8, 0x42u8, 0x50u8]);
    if has_prefix(data, 0, jpeg.as_slice()) {
        Some(String::from_str("image/jpeg"))
    } else if has_prefix(data, 0, png.as_slice()) {
        Some(String::from_str("image/png"))
    } else if has_prefix(data, 0, gif.as_slice()) {
        Some(String::from_str("image/gif"))
    } else if has_prefix(data, 0, riff.as_slice()) && has_prefix(data, 8, webp.as_slice()) {
        Some(String::from_str("image/webp"))
    } else {
        None
    }
}

/// How many leading bytes are examined for NUL when telling text from binary.
pub const TEXT_PROBE_LEN: usize = 8192;

/// No NUL byte among the first `TEXT_PROBE_LEN` bytes.
pub open spec fn looks_like_text(d: Seq<u8>) -> bool {
    forall|i: int| 0 <= i < d.len() && i < TEXT_PROBE_LEN ==> d[i] != 0u8
}

pub fn is_text_data(data: &[u8]) -> (r: bool)
    ensures
        r == looks_like_text(data@),
{
    let n: usize = if data.len() < TEXT_PROBE_LEN { data.len() } else { TEXT_PROBE_LEN };
    let mut i: usize = 0;
    while i < n
        invariant
            n <= data@.len(),
            n == data@.len() || n == TEXT_PROBE_LEN,
            n <= TEXT_PROBE_LEN,
            i <= n,
            forall|j: int| 0 <= j < i ==> data@[j] != 0u8,
        decreases n - i,
    {
        if data[i] == 0 {
            return false;
        }
        i = i + 1;
    }
    true
}

/// The text MIME type for a lower-case file extension.
pub open spec fn text_mime_spec(ext: Seq<char>) -> Seq<char> {
    if ext == "html"@ || ext == "htm"@ {
        "text/html"@
    } else if ext == "css"@ {
        "text/css"@
    } else if ext == "js"@ {
        "application/javascript"@
    } else if ext == "json"@ {
        "application/json"@
    } else if ext == "xml"@ {
        "application/xml"@
    } else if ext == "md"@ {
        "text/markdown"@
    } else if ext == "yaml"@ || ext == "yml"@ {
        "application/x-yaml"@
    } else {
        "text/plain"@
    }
}

pub fn text_mime_type(ext: &str) -> (r: String)
    ensures
        r@ == text_mime_spec(ext@),
{
    if text_eq(ext, "html") || text_eq(ext, "htm") {
        String::from_str("text/html")
    } else if text_eq(ext, "css") {
        String::from_str("text/css")
    } else if text_eq(ext, "js") {
        String::from_str("application/javascript")
    } else if text_eq(ext, "json") {
        String::from_str("application/json")
    } else if text_eq(ext, "xml") {
        String::from_str("application/xml")
    } else if text_eq(ext, "md") {
        String::from_str("text/markdown")
    } else if text_eq(ext, "yaml") || text_eq(ext, "yml") {
        String::from_str("application/x-yaml")
    } else {
        String::from_str("text/plain")
    }
}

/// The lower-cased extension of `path`, or the empty text.
pub open spec fn path_ext_lower(path: Seq<char>) -> Seq<char> {
    lower_of(match extension_of(path) { Some(e) => e, None => ""@ })
}

/// `(is_text, is_image, mime)`: an image when the magic bytes say so; text
/// when it is no image and has no NUL early on, typed by its extension;
/// otherwise neither, and no type.
pub open spec fn detect_spec(d: Seq<u8>, path: Seq<char>) -> (bool, bool, Option<Seq<char>>) {
    let is_image = image_mime_spec(d) is Some;
    let is_text = !is_image && looks_like_text(d);
    (is_text, is_image, if is_image {
        image_mime_spec(d)
    } else if is_text {
        Some(text_mime_spec(path_ext_lower(path)))
    } else {
        None
    })
}

pub fn detect_mime_type(data: &[u8], path: &str) -> (r: (bool, bool, Option<String>))
    ensures
        (r.0, r.1, opt_text(r.2)) == detect_spec(data@, path@),
{
    let mime = image_mime_type(data);
    let is_image = mime.is_some();
    let is_text = !is_image && is_text_data(data);
    if is_image {
        (false, true, mime)
    } else if is_text {
        let ext = match extension(path) {
            Some(e) => e,
            None => String::from_str(""),
        };
        let lower = lowercase(ext.as_str());
        (true, false, Some(text_mime_type(lower.as_str())))
    } else {
        (false, false, None)
    }
}

/// A preview returned inline: Base64 for images, decoded text for text.
pub struct FilePreviewResult {
    pub is_text: bool,
    pub is_image: bool,
    pub content: Option<String>,
    pub mime_type: Option<String>,
}

/// Largest file, in bytes, that is previewed inline (2 MiB).
pub const PREVIEW_MAX_BYTES: usize = 2097152;

pub open spec fn preview_too_large_text() -> Seq<char> {
    "File too large for preview (max 2MB)"@
}

/// Builds the inline preview of `data`, read from `path`; files over the cap
/// are refused.
pub fn preview_file(data: &[u8], path: &str) -> (r: Result<FilePreviewResult, String>)
    ensures
        data@.len() > PREVIEW_MAX_BYTES ==> (r matches Err(m) && m@ == preview_too_large_text()),
        data@.len() <= PREVIEW_MAX_BYTES ==> (r matches Ok(p) && {
            let (is_text, is_image, mime) = detect_spec(data@, path@);
            &&& p.is_text == is_text
            &&& p.is_image == is_image
            &&& opt_text(p.mime_type) == mime
            &&& opt_text(p.content) == if is_image {
                Some(base64_of(data@))
            } else if is_text {
                Some(lossy_text_of(data@))
            } else {
                None
            }
        }),
{
    if data.len() > PREVIEW_MAX_BYTES {
        return Err(String::from_str("File too large for preview (max 2MB)"));
    }
    let (is_text, is_image, mime_type) = detect_mime_type(data, path);
    if is_image {
        Ok(FilePreviewResult { is_text: false, is_image: true, content: Some(base64_encode(data)), mime_type })
    } else if is_text {
        Ok(FilePreviewResult { is_text: true, is_image: false, content: Some(lossy_text(data)), mime_type })
    } else {
        Ok(FilePreviewResult { is_text: false, is_image: false, content: None, mime_type: None })
    }
}

} // verus!
