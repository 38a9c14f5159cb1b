//! Media files: their names, URLs and content types.
use vstd::prelude::*;
use crate::text::append_str;
use crate::ids::{new_uuid_v4, parse_uuid, uuid_parsed, uuid_text, uuid_to_string};
use crate::text::{opt_str_view, opt_view, str_eq};
use crate::views::ApiFailure;
use crate::activity_streams::{ObjectKind, URLOrLink};
use crate::tasks::{spec_resolve_url, url_of};
use crate::uris::{parse_url, url_serialized};

verus! {

/// The image formats this server can tell apart (those of the `image`
/// crate that have a content type of their own; the rest are `Other`).
#[derive(Clone, Copy, Debug, PartialEq, Eq, Structural)]
pub enum ImageFormat {
    Bmp,
    Gif,
    Ico,
    Jpeg,
    Png,
    Pnm,
    Tiff,
    WebP,
    Dds,
    Avif,
    Tga,
    Hdr,
    OpenExr,
    Other,
}

pub open spec fn spec_image_content_type(f: ImageFormat) -> Seq<char> {
    match f {
        ImageFormat::Bmp => "image/bmp"@,
        ImageFormat::Gif => "image/gif"@,
        ImageFormat::Ico => "image/x-icon"@,
        ImageFormat::Jpeg => "image/jpeg"@,
        ImageFormat::Png => "image/png"@,
        ImageFormat::Pnm => "image/x-portable-bitmap"@,
        ImageFormat::Tiff => "image/tiff"@,
        ImageFormat::WebP => "image/webp"@,
        ImageFormat::Dds => "image/vnd.ms-dds"@,
        ImageFormat::Avif => "image/avif"@,
        ImageFormat::Tga => "image/x-targa"@,
        ImageFormat::Hdr => "image/vnd.radiance"@,
        ImageFormat::OpenExr => "image/x-exr"@,
        ImageFormat::Other => "application/octet-stream"@,
    }
}

/// The content type a file of this format is served with.
pub fn image_format_to_content_type(format: ImageFormat) -> (r: &'static str)
    ensures
        r@ == spec_image_content_type(format),
{
    match format {
        ImageFormat::Bmp => "image/bmp",
        ImageFormat::Gif => "image/gif",
        ImageFormat::Ico => "image/x-icon",
        ImageFormat::Jpeg => "image/jpeg",
        ImageFormat::Png => "image/png",
        ImageFormat::Pnm => "image/x-portable-bitmap",
        ImageFormat::Tiff => "image/tiff",
        ImageFormat::WebP => "image/webp",
        ImageFormat::Dds => "image/vnd.ms-dds",
        ImageFormat::Avif => "image/avif",
        ImageFormat::Tga => "image/x-targa",
        ImageFormat::Hdr => "image/vnd.radiance",
        ImageFormat::OpenExr => "image/x-exr",
        ImageFormat::Other => "application/octet-stream",
    }
}

/// The format of a downloaded attachment.
#[derive(Clone, Copy, Debug, PartialEq, Eq, Structural)]
pub enum AttachmentFormat {
    Image(ImageFormat),
}

impl AttachmentFormat {
    /// The content type the attachment is served with.
    pub fn content_type(&self) -> (r: &'static str)
        ensures
            r@ == match *self {
                AttachmentFormat::Image(f) => spec_image_content_type(f),
            },
    {
        match self {
            AttachmentFormat::Image(f) => image_format_to_content_type(*f),
        }
    }
}

/// Whether remote media of this format is downloaded: PNG, JPEG and GIF.
pub open spec fn spec_attachment_accepted(f: ImageFormat) -> bool {
    f == ImageFormat::Png || f == ImageFormat::Jpeg || f == ImageFormat::Gif
}

/// Whether remote media of this format is downloaded.
pub fn attachment_accepted(f: ImageFormat) -> (r: bool)
    ensures
        r == spec_attachment_accepted(f),
{
    f == ImageFormat::Png || f == ImageFormat::Jpeg || f == ImageFormat::Gif
}

/// The file name of a stored media file: its id and the extension.
pub fn media_name(id: u128, ext: &str) -> (r: String)
    ensures
        r@ == uuid_text(id) + "."@ + ext@,
{
    let mut s = uuid_to_string(id);
    append_str(&mut s, ".");
    append_str(&mut s, ext);
    s
}

/// A fresh name for a media file with extension `ext`: a random id (given
/// back beside the name) in hyphenated form, a dot and the extension.
pub fn fresh_media_name(ext: &str) -> (r: (String, u128))
    ensures
        r.0@ == uuid_text(r.1) + "."@ + ext@,
{
    let id = new_uuid_v4();
    (media_name(id, ext), id)
}

/// The URL a stored media file is served at.
pub fn media_url(uri: &str, name: &str) -> (r: String)
    ensures
        r@ == "https://"@ + uri@ + "/media/"@ + name@,
{
    let mut s = "https://".to_owned();
    append_str(&mut s, uri);
    append_str(&mut s, "/media/");
    append_str(&mut s, name);
    s
}

/// The id of an account's public key, as other servers see it.
pub fn key_id(uri: &str, account_id: u128) -> (r: String)
    ensures
        r@ == "https://"@ + uri@ + "/as/users/"@ + uuid_text(account_id) + "#key"@,
{
    let mut s = "https://".to_owned();
    append_str(&mut s, uri);
    append_str(&mut s, "/as/users/");
    let id = uuid_to_string(account_id);
    append_str(&mut s, id.as_str());
    append_str(&mut s, "#key");
    s
}

/// The URL of an optional stored file.
pub open spec fn file_url(uri: Seq<char>, file: Option<String>) -> Option<Seq<char>> {
    match file {
        Some(f) => Some("https://"@ + uri + "/media/"@ + f@),
        None => None,
    }
}

fn optional_media_url(uri: &str, file: &Option<String>) -> (r: Option<String>)
    ensures
        opt_view(r) == file_url(uri@, *file),
{
    match file {
        Some(f) => Some(media_url(uri, f.as_str())),
        None => None,
    }
}

/// The kinds of media attachment the client API knows.
#[derive(Clone, Copy, Debug, PartialEq, Eq, Structural)]
pub enum MediaAttachmentType {
    Image,
    Video,
    Gifv,
}

pub open spec fn spec_attachment_type(name: Seq<char>) -> Option<MediaAttachmentType> {
    if name == "image"@ {
        Some(MediaAttachmentType::Image)
    } else if name == "video"@ {
        Some(MediaAttachmentType::Video)
    } else if name == "gifv"@ {
        Some(MediaAttachmentType::Gifv)
    } else {
        None
    }
}

/// The kind of a stored media type name; `None` for any other name.
pub fn attachment_type(name: &str) -> (r: Option<MediaAttachmentType>)
    ensures
        r == spec_attachment_type(name@),
{
    proof {
        reveal_strlit("image");
        reveal_strlit("video");
        reveal_strlit("gifv");
    }
    if str_eq(name, "image") {
        Some(MediaAttachmentType::Image)
    } else if str_eq(name, "video") {
        Some(MediaAttachmentType::Video)
    } else if str_eq(name, "gifv") {
        Some(MediaAttachmentType::Gifv)
    } else {
        None
    }
}

/// A stored media file, as far as the client API shows it (its focus
/// point is added by the caller).
pub struct StoredMedia {
    pub id: u128,
    pub media_type: String,
    pub file: Option<String>,
    pub preview_file: Option<String>,
    pub blurhash: Option<String>,
    pub description: Option<String>,
    pub remote_url: Option<String>,
}

/// A media attachment as the client API shows it.
pub struct MediaAttachmentView {
    pub id: String,
    pub media_type: MediaAttachmentType,
    pub url: Option<String>,
    pub preview_url: Option<String>,
    pub blurhash: Option<String>,
    pub description: Option<String>,
    pub remote_url: Option<String>,
}

/// Shows a stored media file: its id in hyphenated form, its kind, the URLs
/// of its file and preview on this server, and its hash, description and
/// remote URL as stored. A media type name that is not one of the known
/// kinds is an internal server error.
pub fn render_media_attachment(m: StoredMedia, uri: &str) -> (r: Result<MediaAttachmentView, ApiFailure>)
    ensures
        match spec_attachment_type(m.media_type@) {
            None => r == Err::<MediaAttachmentView, ApiFailure>(ApiFailure::InternalServerError),
            Some(t) => r matches Ok(v) && {
                &&& v.id@ == uuid_text(m.id)
                &&& v.media_type == t
                &&& opt_view(v.url) == file_url(uri@, m.file)
                &&& opt_view(v.preview_url) == file_url(uri@, m.preview_file)
                &&& v.blurhash == m.blurhash
                &&& v.description == m.description
                &&& v.remote_url == m.remote_url
            },
        },
{
    let media_type = match attachment_type(m.media_type.as_str()) {
        Some(t) => t,
        None => return Err(ApiFailure::InternalServerError),
    };
    let url = optional_media_url(uri, &m.file);
    let preview_url = optional_media_url(uri, &m.preview_file);
    Ok(MediaAttachmentView {
        id: uuid_to_string(m.id),
        media_type,
        url,
        preview_url,
        blurhash: m.blurhash,
        description: m.description,
        remote_url: m.remote_url,
    })
}

/// The check on the content type of an uploaded file: `None` when the
/// upload has none (a bad request), `Some(None)` when it names no image
/// format this server knows (unsupported), else the format.
pub fn upload_format(format: Option<Option<ImageFormat>>) -> (r: Result<ImageFormat, ApiFailure>)
    ensures
        r == (match format {
            None => Err(ApiFailure::InvalidRequest),
            Some(None) => Err(ApiFailure::UnsupportedMediaType),
            Some(Some(f)) => Ok::<ImageFormat, ApiFailure>(f),
        }),
{
    match format {
        None => Err(ApiFailure::InvalidRequest),
        Some(None) => Err(ApiFailure::UnsupportedMediaType),
        Some(Some(f)) => Ok(f),
    }
}

/// The checks before a media file is read or changed: the token must grant
/// `write:media`, and the id must be a UUID (else the media is not found).
pub fn media_request_id(token_grants: bool, media_id: &str) -> (r: Result<u128, ApiFailure>)
    ensures
        r == (if !token_grants {
            Err(ApiFailure::NoPermission)
        } else {
            match uuid_parsed(media_id@) {
                Some(u) => Ok::<u128, ApiFailure>(u),
                None => Err(ApiFailure::MediaNotFound),
            }
        }),
{
    if !token_grants {
        return Err(ApiFailure::NoPermission);
    }
    match parse_uuid(media_id) {
        Some(u) => Ok(u),
        None => Err(ApiFailure::MediaNotFound),
    }
}

/// The check on a media file looked up for the user `subject`: it must
/// exist (`found` is its owner, if it was found), and be theirs.
pub fn media_access(found: Option<Option<&str>>, subject: &str) -> (r: Result<(), ApiFailure>)
    ensures
        r == (match found {
            None => Err(ApiFailure::MediaNotFound),
            Some(owner) => if opt_str_view(owner) == Some(subject@) {
                Ok::<(), ApiFailure>(())
            } else {
                Err(ApiFailure::NoPermission)
            },
        }),
{
    match found {
        None => Err(ApiFailure::MediaNotFound),
        Some(owner) => {
            let mine = match owner {
                Some(o) => str_eq(o, subject),
                None => false,
            };
            if mine {
                Ok(())
            } else {
                Err(ApiFailure::NoPermission)
            }
        },
    }
}

/// Where a remote attachment is downloaded from, and as what: only a
/// Document or an Image with a URL, whose media type names an accepted
/// image format (`format` is `None` where it has no media type, `Some(None)`
/// where the type names no known format), and whose URL parses; the URL as
/// it serializes.
pub open spec fn spec_attachment_download(kind: ObjectKind, url: Option<URLOrLink>, format: Option<Option<ImageFormat>>) -> Option<(Seq<char>, ImageFormat)> {
    if kind != ObjectKind::Document && kind != ObjectKind::Image {
        None
    } else {
        match (url, format) {
            (Some(u), Some(Some(f))) => if !spec_attachment_accepted(f) {
                None
            } else {
                match spec_resolve_url(u) {
                    Some(s) => match url_serialized(s) {
                        Some(p) => Some((p, f)),
                        None => None,
                    },
                    None => None,
                }
            },
            _ => None,
        }
    }
}

/// Decides whether and from where a remote attachment is downloaded.
pub fn attachment_download(kind: ObjectKind, url: &Option<URLOrLink>, format: Option<Option<ImageFormat>>) -> (r: Option<(String, ImageFormat)>)
    ensures
        match r {
            Some((u, f)) => spec_attachment_download(kind, *url, format) == Some((u@, f)),
            None => spec_attachment_download(kind, *url, format) is None,
        },
{
    if kind != ObjectKind::Document && kind != ObjectKind::Image {
        return None;
    }
    let u = match url {
        Some(u) => u,
        None => return None,
    };
    let f = match format {
        Some(Some(f)) => f,
        _ => return None,
    };
    if !attachment_accepted(f) {
        return None;
    }
    let s = match url_of(u) {
        Some(s) => s,
        None => return None,
    };
    match parse_url(s.as_str()) {
        Some(p) => Some((p, f)),
        None => None,
    }
}

/// Where a remote avatar or header image is downloaded from, and as what:
/// only an Image (not a link) with a URL, whose media type names an
/// accepted image format, from the URL as it is given (a link's target).
pub open spec fn spec_image_download(is_image: bool, url: Option<URLOrLink>, format: Option<Option<ImageFormat>>) -> Option<(Seq<char>, ImageFormat)> {
    if !is_image {
        None
    } else {
        match (url, format) {
            (Some(u), Some(Some(f))) => if !spec_attachment_accepted(f) {
                None
            } else {
                match spec_resolve_url(u) {
                    Some(s) => Some((s, f)),
                    None => None,
                }
            },
            _ => None,
        }
    }
}

/// Decides whether and from where a remote profile image is downloaded.
pub fn image_download(is_image: bool, url: &Option<URLOrLink>, format: Option<Option<ImageFormat>>) -> (r: Option<(String, ImageFormat)>)
    ensures
        match r {
            Some((u, f)) => spec_image_download(is_image, *url, format) == Some((u@, f)),
            None => spec_image_download(is_image, *url, format) is None,
        },
{
    if !is_image {
        return None;
    }
    let u = match url {
        Some(u) => u,
        None => return None,
    };
    let f = match format {
        Some(Some(f)) => f,
        _ => return None,
    };
    if !attachment_accepted(f) {
        return None;
    }
    match url_of(u) {
        Some(s) => Some((s, f)),
        None => None,
    }
}

/// The stored row of an image uploaded through the client API, apart from
/// its focus point (a pair of floats, which the caller stores as given).
pub struct UploadedMedia {
    pub id: u128,
    pub media_type: String,
    pub file: Option<String>,
    pub content_type: Option<String>,
    pub remote_url: Option<String>,
    pub preview_file: Option<String>,
    pub preview_content_type: Option<String>,
    pub blurhash: Option<String>,
    pub original_width: Option<i32>,
    pub original_height: Option<i32>,
    pub preview_width: Option<i32>,
    pub preview_height: Option<i32>,
    pub created_at: i64,
    pub description: Option<String>,
    pub owned_by: Option<String>,
}

/// The row of an uploaded image: an `image` with id `id`, its file and
/// content type, no remote URL, its preview file and content type, its
/// hash, its own and its preview's dimensions (as `i32`, as they are
/// stored), the time `now`, the description as given, and owned by the
/// user `subject`.
pub fn uploaded_media(
    id: u128, file: String, content_type: String, preview_file: String, preview_content_type: String,
    blurhash: String, size: (u32, u32), preview_size: (u32, u32), now: i64, description: Option<String>,
    subject: String,
) -> (r: UploadedMedia)
    ensures
        r.id == id,
        r.media_type@ == "image"@,
        r.file matches Some(f) && f@ == file@,
        r.content_type matches Some(c) && c@ == content_type@,
        r.remote_url is None,
        r.preview_file matches Some(f) && f@ == preview_file@,
        r.preview_content_type matches Some(c) && c@ == preview_content_type@,
        r.blurhash matches Some(b) && b@ == blurhash@,
        r.original_width == Some(size.0 as i32) && r.original_height == Some(size.1 as i32),
        r.preview_width == Some(preview_size.0 as i32) && r.preview_height == Some(preview_size.1 as i32),
        r.created_at == now,
        r.description == description,
        r.owned_by matches Some(o) && o@ == subject@,
{
    UploadedMedia {
        id,
        media_type: "image".to_owned(),
        file: Some(file),
        content_type: Some(content_type),
        remote_url: None,
        preview_file: Some(preview_file),
        preview_content_type: Some(preview_content_type),
        blurhash: Some(blurhash),
        original_width: Some(size.0 as i32),
        original_height: Some(size.1 as i32),
        preview_width: Some(preview_size.0 as i32),
        preview_height: Some(preview_size.1 as i32),
        created_at: now,
        description,
        owned_by: Some(subject),
    }
}

} // verus!
