//! Uploaded images: checks on uploads, where they are stored and how they are linked.
use vstd::prelude::*;
use vstd::std_specs::convert::FromSpecImpl;

use crate::bridge::{
    base64_decode, base64_decoded, now_unix_nanos, sha256_digest, sha256_of, string_from_chars,
};
use crate::text::{
    char_is_ascii_alnum, chars_of, dec_int, digit_char, extend, extend_str, hex_digit, i64_dec, is_ascii_alnum,
    is_blank, outcome, owned, str_eq, trim, trim_bounds, trim_str,
};

verus! {

/// The largest image accepted, in bytes (5 MiB).
pub const MAX_IMAGE_SIZE_BYTES: i64 = 5 * 1024 * 1024;

/// The bucket that holds uploaded assets.
pub const ASSET_BUCKET: &'static str = "post-assets";

/// What an uploaded file is used for.
#[derive(Debug, PartialEq, Eq, Structural)]
pub enum FileUsage {
    Avatar,
    CoverImage,
    MarkdownImage,
    AnnouncementImage,
}

impl Clone for FileUsage {
    fn clone(&self) -> (r: FileUsage)
        ensures
            r == *self,
    {
        match self {
            FileUsage::Avatar => FileUsage::Avatar,
            FileUsage::CoverImage => FileUsage::CoverImage,
            FileUsage::MarkdownImage => FileUsage::MarkdownImage,
            FileUsage::AnnouncementImage => FileUsage::AnnouncementImage,
        }
    }
}

/// The description of an upload: its name, size, type, content hash and use.
#[derive(Clone, Debug, PartialEq, Eq)]
pub struct FileUploadRequest {
    pub original_filename: String,
    pub file_size: i64,
    pub mime_type: String,
    pub content_hash: String,
    pub usage: FileUsage,
}

/// An upload whose content comes as base64 text.
#[derive(Clone, Debug, PartialEq, Eq)]
pub struct FileBinaryUploadRequest {
    pub original_filename: String,
    pub mime_type: String,
    pub content_base64: String,
    pub usage: FileUsage,
}

/// An object to put in storage, with the description it was checked against.
#[derive(Clone, Debug, PartialEq, Eq)]
pub struct FileObjectUpload {
    pub bucket: String,
    pub storage_key: String,
    pub content_type: String,
    pub bytes: Vec<u8>,
    pub asset: FileUploadRequest,
}

/// A stored asset. Identifiers are UUID values; times are Unix timestamps in
/// nanoseconds.
#[derive(Clone, Debug, PartialEq, Eq)]
pub struct FileAsset {
    pub file_id: u128,
    pub original_filename: String,
    pub bucket: String,
    pub storage_key: String,
    pub file_size: i64,
    pub mime_type: String,
    pub file_hash: String,
    pub uploader_id: u128,
    pub public_url: String,
    pub markdown_image: String,
    pub uploaded_at: i128,
}

/// Whether a type is one of the accepted image types: PNG, JPEG or WebP.
pub open spec fn allowed_mime(m: Seq<char>) -> bool {
    m == "image/png"@ || m == "image/jpeg"@ || m == "image/webp"@
}

/// Whether an upload's type is an accepted image type.
pub fn is_allowed_image_mime(mime_type: &str) -> (b: bool)
    ensures
        b == allowed_mime(mime_type@),
{
    str_eq(mime_type, "image/png") || str_eq(mime_type, "image/jpeg") || str_eq(
        mime_type,
        "image/webp",
    )
}

/// The message for an upload description that fails its checks, or `None`: a non-blank
/// file name, a size from 1 byte up to `MAX_IMAGE_SIZE_BYTES`, an accepted type and a
/// non-blank hash, checked in that order.
pub open spec fn upload_error(
    filename: Seq<char>,
    size: int,
    mime: Seq<char>,
    hash: Seq<char>,
) -> Option<Seq<char>> {
    if trim(filename).len() == 0 {
        Some("文件名不能为空"@)
    } else if size <= 0 {
        Some("文件大小必须大于 0"@)
    } else if size > MAX_IMAGE_SIZE_BYTES {
        Some("图片大小不能超过 "@ + dec_int(MAX_IMAGE_SIZE_BYTES / 1024 / 1024) + "MB"@)
    } else if !allowed_mime(mime) {
        Some("仅支持 PNG、JPEG、WebP 图片"@)
    } else if trim(hash).len() == 0 {
        Some("文件 hash 不能为空"@)
    } else {
        None
    }
}

impl FileUploadRequest {
    /// Checks the description (see `upload_error`).
    pub fn validate(&self) -> (r: Result<(), String>)
        ensures
            outcome(r) == upload_error(
                self.original_filename@,
                self.file_size as int,
                self.mime_type@,
                self.content_hash@,
            ),
    {
        if is_blank(self.original_filename.as_str()) {
            return Err(owned("文件名不能为空"));
        }
        if self.file_size <= 0 {
            return Err(owned("文件大小必须大于 0"));
        }
        if self.file_size > MAX_IMAGE_SIZE_BYTES {
            let mut v: Vec<char> = Vec::new();
            extend_str(&mut v, "图片大小不能超过 ");
            let d = i64_dec(MAX_IMAGE_SIZE_BYTES / 1024 / 1024);
            extend(&mut v, &d);
            extend_str(&mut v, "MB");
            return Err(string_from_chars(&v));
        }
        if !is_allowed_image_mime(self.mime_type.as_str()) {
            return Err(owned("仅支持 PNG、JPEG、WebP 图片"));
        }
        if is_blank(self.content_hash.as_str()) {
            return Err(owned("文件 hash 不能为空"));
        }
        Ok(())
    }
}

/// The lower-case hexadecimal text of some bytes, two digits per byte.
pub open spec fn hex_bytes(b: Seq<u8>) -> Seq<char>
    decreases b.len(),
{
    if b.len() == 0 {
        seq![]
    } else {
        hex_bytes(b.drop_last()) + seq![
            hex_digit((b.last() / 16) as nat),
            hex_digit((b.last() % 16) as nat),
        ]
    }
}

/// The lower-case hexadecimal text of some bytes.
pub fn hex_string(bytes: &[u8]) -> (r: String)
    ensures
        r@ == hex_bytes(bytes@),
{
    let mut v: Vec<char> = Vec::new();
    let mut i: usize = 0;
    while i < bytes.len()
        invariant
            i <= bytes@.len(),
            v@ == hex_bytes(bytes@.take(i as int)),
        decreases bytes@.len() - i,
    {
        let b = bytes[i];
        v.push(digit_char((b / 16) as u64));
        v.push(digit_char((b % 16) as u64));
        proof {
            assert(bytes@.take(i + 1).drop_last() =~= bytes@.take(i as int));
            assert(bytes@.take(i + 1).last() == b);
            assert(v@ =~= hex_bytes(bytes@.take(i + 1)));
        }
        i = i + 1;
    }
    assert(bytes@.take(bytes@.len() as int) =~= bytes@);
    string_from_chars(&v)
}

/// The SHA-256 digest of some bytes as lower-case hexadecimal text.
pub fn sha256_hex(bytes: &[u8]) -> (r: String)
    ensures
        r@ == hex_bytes(sha256_of(bytes@)),
{
    let digest = sha256_digest(bytes);
    hex_string(digest.as_slice())
}

/// A file name made safe for storage: trimmed, with every character other than an
/// ASCII letter, digit, `.`, `-` or `_` replaced by `-`.
pub open spec fn sanitized(name: Seq<char>) -> Seq<char> {
    let t = trim(name);
    Seq::new(
        t.len(),
        |i: int|
            if is_ascii_alnum(t[i]) || t[i] == '.' || t[i] == '-' || t[i] == '_' {
                t[i]
            } else {
                '-'
            },
    )
}

/// A file name made safe for storage (see `sanitized`).
pub fn sanitize_filename(filename: &str) -> (r: String)
    ensures
        r@ == sanitized(filename@),
{
    let cs = chars_of(filename);
    let (a, b) = trim_bounds(&cs);
    let ghost t = trim(filename@);
    let mut v: Vec<char> = Vec::new();
    let mut i: usize = a;
    while i < b
        invariant
            a <= i <= b <= cs@.len(),
            t == cs@.subrange(a as int, b as int),
            v@.len() == i - a,
            forall|k: int| 0 <= k < i - a ==> #[trigger] v@[k] == sanitized(filename@)[k],
            cs@ == filename@,
            t == trim(filename@),
        decreases b - i,
    {
        let c = cs[i];
        assert(c == t[i - a]);
        if char_is_ascii_alnum(c) || c == '.' || c == '-' || c == '_' {
            v.push(c);
        } else {
            v.push('-');
        }
        i = i + 1;
    }
    assert(v@ =~= sanitized(filename@));
    string_from_chars(&v)
}

/// The folder of a use.
pub open spec fn usage_path(u: FileUsage) -> Seq<char> {
    match u {
        FileUsage::Avatar => "avatars"@,
        FileUsage::CoverImage => "covers"@,
        FileUsage::MarkdownImage => "markdown"@,
        FileUsage::AnnouncementImage => "announcements"@,
    }
}

/// The ASCII letters and digits of a text, in order.
pub open spec fn alnum_only(s: Seq<char>) -> Seq<char> {
    s.filter(|c: char| is_ascii_alnum(c))
}

/// At most the first `n` elements.
pub open spec fn prefix<T>(s: Seq<T>, n: nat) -> Seq<T> {
    if s.len() <= n {
        s
    } else {
        s.take(n as int)
    }
}

/// Where an upload is stored: `{folder}/{first 12 letters and digits of the hash}/{safe
/// file name}`.
pub open spec fn storage_key_of(r: FileUploadRequest) -> Seq<char> {
    usage_path(r.usage) + "/"@ + prefix(alnum_only(r.content_hash@), 12) + "/"@ + sanitized(
        r.original_filename@,
    )
}

/// Whether a character may stand in a stored file name: an ASCII letter or digit, `.`,
/// `-` or `_`.
pub open spec fn is_safe_name_char(c: char) -> bool {
    is_ascii_alnum(c) || c == '.' || c == '-' || c == '_'
}

/// Every storage key is made of its folder, at most twelve ASCII letters and digits of
/// the content hash, and a file name of safe characters only (no `/` among them), joined
/// by `/`; so an upload never leaves the folder of its use and its hash.
pub proof fn law_storage_keys_are_safe(r: FileUploadRequest)
    ensures
        ({
            let h = prefix(alnum_only(r.content_hash@), 12);
            let n = sanitized(r.original_filename@);
            &&& storage_key_of(r) == usage_path(r.usage) + "/"@ + h + "/"@ + n
            &&& h.len() <= 12
            &&& forall|i: int| 0 <= i < h.len() ==> is_ascii_alnum(#[trigger] h[i])
            &&& forall|i: int| 0 <= i < n.len() ==> is_safe_name_char(#[trigger] n[i])
            &&& !n.contains('/')
            &&& !h.contains('/')
        }),
{
    let pred = |c: char| is_ascii_alnum(c);
    let a = alnum_only(r.content_hash@);
    let h = prefix(a, 12);
    let n = sanitized(r.original_filename@);
    assert forall|i: int| 0 <= i < a.len() implies is_ascii_alnum(#[trigger] a[i]) by {
        r.content_hash@.lemma_filter_pred(pred, i);
    }
    assert forall|i: int| 0 <= i < h.len() implies is_ascii_alnum(#[trigger] h[i]) by {
        assert(h[i] == a[i]);
    }
    assert forall|i: int| 0 <= i < n.len() implies is_safe_name_char(#[trigger] n[i]) by {
    }
    assert(!n.contains('/')) by {
        if n.contains('/') {
            let k = choose|k: int| 0 <= k < n.len() && n[k] == '/';
            assert(is_safe_name_char(n[k]));
        }
    }
    assert(!h.contains('/')) by {
        if h.contains('/') {
            let k = choose|k: int| 0 <= k < h.len() && h[k] == '/';
            assert(is_ascii_alnum(h[k]));
        }
    }
}

fn hash_prefix(hash: &str) -> (r: Vec<char>)
    ensures
        r@ == prefix(alnum_only(hash@), 12),
{
    let cs = chars_of(hash);
    let ghost pred = |c: char| is_ascii_alnum(c);
    let mut v: Vec<char> = Vec::new();
    let mut i: usize = 0;
    assert(cs@.take(0).filter(pred) =~= Seq::<char>::empty()) by {
        reveal(Seq::filter);
    }
    while i < cs.len() && v.len() < 12
        invariant
            i <= cs@.len(),
            cs@ == hash@,
            pred == (|c: char| is_ascii_alnum(c)),
            v@ == cs@.take(i as int).filter(pred),
            v@.len() <= 12,
        decreases cs@.len() - i,
    {
        proof {
            crate::sorting::lemma_filter_take_next(cs@, pred, i as int);
        }
        if char_is_ascii_alnum(cs[i]) {
            v.push(cs[i]);
        }
        i = i + 1;
    }
    proof {
        let all = cs@.filter(pred);
        if i == cs@.len() {
            assert(cs@.take(i as int) =~= cs@);
        } else {
            assert(v@.len() == 12);
            lemma_filter_prefix(cs@, pred, i as int);
            assert(all.take(12) =~= v@);
        }
    }
    v
}

proof fn lemma_filter_prefix(s: Seq<char>, pred: spec_fn(char) -> bool, i: int)
    requires
        0 <= i <= s.len(),
    ensures
        s.filter(pred).len() >= s.take(i).filter(pred).len(),
        s.filter(pred).take(s.take(i).filter(pred).len() as int) =~= s.take(i).filter(pred),
    decreases s.len() - i,
{
    if i < s.len() {
        lemma_filter_prefix(s, pred, i + 1);
        crate::sorting::lemma_filter_take_next(s, pred, i);
        let a = s.take(i).filter(pred);
        let b = s.take(i + 1).filter(pred);
        assert(s.filter(pred).take(a.len() as int) =~= b.take(a.len() as int));
    } else {
        assert(s.take(i) =~= s);
    }
}

/// Where an upload is stored (see `storage_key_of`).
pub fn build_storage_key(request: &FileUploadRequest) -> (r: String)
    ensures
        r@ == storage_key_of(*request),
{
    let filename = sanitize_filename(request.original_filename.as_str());
    let usage = match request.usage {
        FileUsage::Avatar => "avatars",
        FileUsage::CoverImage => "covers",
        FileUsage::MarkdownImage => "markdown",
        FileUsage::AnnouncementImage => "announcements",
    };
    let hp = hash_prefix(request.content_hash.as_str());
    let mut v: Vec<char> = Vec::new();
    extend_str(&mut v, usage);
    extend_str(&mut v, "/");
    extend(&mut v, &hp);
    extend_str(&mut v, "/");
    extend_str(&mut v, filename.as_str());
    string_from_chars(&v)
}

/// The stored text of a use.
pub open spec fn usage_text(u: FileUsage) -> Seq<char> {
    match u {
        FileUsage::Avatar => "avatar"@,
        FileUsage::CoverImage => "cover_image"@,
        FileUsage::MarkdownImage => "markdown_image"@,
        FileUsage::AnnouncementImage => "announcement_image"@,
    }
}

/// The stored text of a file's use.
pub fn usage_as_str(usage: &FileUsage) -> (r: &'static str)
    ensures
        r@ == usage_text(*usage),
{
    match usage {
        FileUsage::Avatar => "avatar",
        FileUsage::CoverImage => "cover_image",
        FileUsage::MarkdownImage => "markdown_image",
        FileUsage::AnnouncementImage => "announcement_image",
    }
}

/// The stored asset of a checked upload, stamped with `uploaded_at`: the safe file name,
/// the asset bucket, the storage key, the public URL `/uploads/{key}` and the Markdown
/// image `![{name}]({url})`.
pub open spec fn asset_ok(
    a: FileAsset,
    file_id: u128,
    uploader_id: u128,
    req: FileUploadRequest,
    uploaded_at: i128,
) -> bool {
    let name = sanitized(req.original_filename@);
    let key = storage_key_of(req);
    let url = "/uploads/"@ + key;
    &&& a.file_id == file_id
    &&& a.original_filename@ == name
    &&& a.bucket@ == ASSET_BUCKET@
    &&& a.storage_key@ == key
    &&& a.file_size == req.file_size
    &&& a.mime_type == req.mime_type
    &&& a.file_hash == req.content_hash
    &&& a.uploader_id == uploader_id
    &&& a.public_url@ == url
    &&& a.markdown_image@ == "!["@ + name + "]("@ + url + ")"@
    &&& a.uploaded_at == uploaded_at
}

/// The stored asset of a checked upload at a given time (see `asset_ok`).
pub fn build_file_asset_at(
    file_id: u128,
    uploader_id: u128,
    request: FileUploadRequest,
    uploaded_at: i128,
) -> (r: FileAsset)
    ensures
        asset_ok(r, file_id, uploader_id, request, uploaded_at),
{
    let filename = sanitize_filename(request.original_filename.as_str());
    let storage_key = build_storage_key(&request);
    let mut u: Vec<char> = Vec::new();
    extend_str(&mut u, "/uploads/");
    extend_str(&mut u, storage_key.as_str());
    let public_url = string_from_chars(&u);
    let mut m: Vec<char> = Vec::new();
    extend_str(&mut m, "![");
    extend_str(&mut m, filename.as_str());
    extend_str(&mut m, "](");
    extend_str(&mut m, public_url.as_str());
    extend_str(&mut m, ")");
    FileAsset {
        file_id,
        original_filename: filename,
        bucket: owned(ASSET_BUCKET),
        storage_key,
        file_size: request.file_size,
        mime_type: request.mime_type,
        file_hash: request.content_hash,
        uploader_id,
        markdown_image: string_from_chars(&m),
        public_url,
        uploaded_at,
    }
}

/// The stored asset of a checked upload, stamped with the current time.
pub fn build_file_asset(file_id: u128, uploader_id: u128, request: FileUploadRequest) -> (r:
    FileAsset)
    ensures
        exists|t: i128| asset_ok(r, file_id, uploader_id, request, t),
{
    let now = now_unix_nanos();
    build_file_asset_at(file_id, uploader_id, request, now)
}

/// The description of an upload of `size` bytes whose digest is `digest`.
pub open spec fn described(req: FileUploadRequest, up: FileBinaryUploadRequest, size: int, digest: Seq<u8>) -> bool {
    &&& req.original_filename == up.original_filename
    &&& req.file_size == size
    &&& req.mime_type == up.mime_type
    &&& req.content_hash@ == hex_bytes(digest)
    &&& req.usage == up.usage
}

/// The message for an upload of `size` bytes with digest `digest`, or `None`: the size
/// must fit in `i64`, then the description must pass its checks.
pub open spec fn described_error(up: FileBinaryUploadRequest, size: int, digest: Seq<u8>) -> Option<
    Seq<char>,
> {
    if size > i64::MAX {
        Some("文件大小超出范围"@)
    } else {
        upload_error(up.original_filename@, size, up.mime_type@, hex_bytes(digest))
    }
}

/// The outcome of a description: `Ok` exactly where there is no message.
pub open spec fn described_ok(
    r: Result<FileUploadRequest, String>,
    up: FileBinaryUploadRequest,
    size: int,
    digest: Seq<u8>,
) -> bool {
    match described_error(up, size, digest) {
        Some(m) => r matches Err(e) && e@ == m,
        None => r matches Ok(req) && described(req, up, size, digest),
    }
}

/// The message for text that is not valid base64.
pub open spec fn bad_base64() -> Seq<char> {
    "图片内容不是有效的 base64"@
}

impl FileBinaryUploadRequest {
    /// The content, decoded from the trimmed base64 text.
    pub fn decoded_bytes(&self) -> (r: Result<Vec<u8>, String>)
        ensures
            match base64_decoded(trim(self.content_base64@)) {
                Some(b) => r matches Ok(v) && v@ == b,
                None => r matches Err(e) && e@ == bad_base64(),
            },
    {
        let t = trim_str(self.content_base64.as_str());
        match base64_decode(t.as_str()) {
            Some(v) => Ok(v),
            None => Err(owned("图片内容不是有效的 base64")),
        }
    }

    /// The checked description of an upload of `size` bytes with SHA-256 digest
    /// `digest`.
    pub fn upload_request_with_digest(&self, size: usize, digest: &[u8]) -> (r: Result<
        FileUploadRequest,
        String,
    >)
        ensures
            described_ok(r, *self, size as int, digest@),
    {
        if size as u128 > 0x7fff_ffff_ffff_ffff {
            return Err(owned("文件大小超出范围"));
        }
        let request = FileUploadRequest {
            original_filename: self.original_filename.clone(),
            file_size: size as i64,
            mime_type: self.mime_type.clone(),
            content_hash: hex_string(digest),
            usage: self.usage.clone(),
        };
        match request.validate() {
            Ok(()) => Ok(request),
            Err(e) => Err(e),
        }
    }

    /// The checked description of an upload of the given content.
    pub fn to_upload_request_from_bytes(&self, bytes: &[u8]) -> (r: Result<FileUploadRequest, String>)
        ensures
            described_ok(r, *self, bytes@.len() as int, sha256_of(bytes@)),
    {
        let digest = sha256_digest(bytes);
        self.upload_request_with_digest(bytes.len(), digest.as_slice())
    }

    /// The checked description of the upload's decoded content.
    pub fn to_upload_request(&self) -> (r: Result<FileUploadRequest, String>)
        ensures
            match base64_decoded(trim(self.content_base64@)) {
                Some(b) => described_ok(r, *self, b.len() as int, sha256_of(b)),
                None => r matches Err(e) && e@ == bad_base64(),
            },
    {
        let bytes = self.decoded_bytes()?;
        self.to_upload_request_from_bytes(bytes.as_slice())
    }

    /// The object to store for the upload: its decoded content under its storage key in
    /// the asset bucket, with its checked description.
    pub fn to_object_upload(&self) -> (r: Result<FileObjectUpload, String>)
        ensures
            match base64_decoded(trim(self.content_base64@)) {
                Some(b) => match described_error(*self, b.len() as int, sha256_of(b)) {
                    Some(m) => r matches Err(e) && e@ == m,
                    None => r matches Ok(o) && {
                        &&& described(o.asset, *self, b.len() as int, sha256_of(b))
                        &&& o.bucket@ == ASSET_BUCKET@
                        &&& o.storage_key@ == storage_key_of(o.asset)
                        &&& o.content_type == o.asset.mime_type
                        &&& o.bytes@ == b
                    },
                },
                None => r matches Err(e) && e@ == bad_base64(),
            },
    {
        let bytes = match self.decoded_bytes() {
            Ok(b) => b,
            Err(e) => {
                return Err(e);
            },
        };
        let asset = match self.to_upload_request_from_bytes(bytes.as_slice()) {
            Ok(a) => a,
            Err(e) => {
                return Err(e);
            },
        };
        let storage_key = build_storage_key(&asset);
        Ok(
            FileObjectUpload {
                bucket: owned(ASSET_BUCKET),
                storage_key,
                content_type: asset.mime_type.clone(),
                bytes,
                asset,
            },
        )
    }
}

/// A stored asset row.
#[derive(Clone, Debug, PartialEq, Eq)]
pub struct FileAssetRow {
    pub file_id: u128,
    pub original_filename: String,
    pub bucket: String,
    pub storage_key: String,
    pub file_size: i64,
    pub mime_type: String,
    pub file_hash: String,
    pub uploader_id: u128,
    pub public_url: String,
    pub markdown_image: String,
    pub uploaded_at: i128,
}

/// The asset of a stored row: every field carried over.
pub open spec fn asset_of_row(row: FileAssetRow) -> FileAsset {
    FileAsset {
        file_id: row.file_id,
        original_filename: row.original_filename,
        bucket: row.bucket,
        storage_key: row.storage_key,
        file_size: row.file_size,
        mime_type: row.mime_type,
        file_hash: row.file_hash,
        uploader_id: row.uploader_id,
        public_url: row.public_url,
        markdown_image: row.markdown_image,
        uploaded_at: row.uploaded_at,
    }
}

impl From<FileAssetRow> for FileAsset {
    fn from(row: FileAssetRow) -> (r: FileAsset) {
        FileAsset {
            file_id: row.file_id,
            original_filename: row.original_filename,
            bucket: row.bucket,
            storage_key: row.storage_key,
            file_size: row.file_size,
            mime_type: row.mime_type,
            file_hash: row.file_hash,
            uploader_id: row.uploader_id,
            public_url: row.public_url,
            markdown_image: row.markdown_image,
            uploaded_at: row.uploaded_at,
        }
    }
}

impl FromSpecImpl<FileAssetRow> for FileAsset {
    open spec fn obeys_from_spec() -> bool {
        true
    }

    open spec fn from_spec(row: FileAssetRow) -> FileAsset {
        asset_of_row(row)
    }
}

/// Reading and writing assets in storage.
pub struct PostgresFileRepository;

/// The Markdown text after an uploaded image is inserted: a line break is added first
/// where the text is non-empty and does not end with one, then the image's Markdown and a
/// line break.
pub open spec fn with_image(markdown: Seq<char>, image: Seq<char>) -> Seq<char> {
    (if markdown.len() > 0 && markdown.last() != '\n' {
        markdown.push('\n')
    } else {
        markdown
    }) + image + seq!['\n']
}

/// Appends an uploaded image to the Markdown being edited (see `with_image`).
pub fn append_markdown_image(markdown: &mut String, asset: &FileAsset)
    ensures
        final(markdown)@ == with_image(old(markdown)@, asset.markdown_image@),
{
    let mut v = chars_of(markdown.as_str());
    if v.len() > 0 && v[v.len() - 1] != '\n' {
        v.push('\n');
    }
    extend_str(&mut v, asset.markdown_image.as_str());
    v.push('\n');
    *markdown = string_from_chars(&v);
}

} // verus!
