//! The ground server that receives captured images.

use vstd::prelude::*;

use crate::camera::command::str_is;

verus! {

/// The extension of a file path as `std::path::Path::extension` gives it:
/// the part of the file name after its last dot, if the name has a dot that
/// does not start it.
pub uninterp spec fn std_path_extension(path: Seq<char>) -> Option<Seq<char>>;

/// Calls `std::path::Path::extension` on a path given as a string. Its result
/// depends on the path alone; which part of the path it is follows the std
/// documentation and is not written out here. An extension that is not valid
/// Unicode cannot occur, since the path is a string.
#[verifier::external_body]
fn path_extension(path: &str) -> (r: Option<String>)
    ensures
        match r {
            Some(e) => std_path_extension(path@) == Some(e@),
            None => std_path_extension(path@) is None,
        },
{
    match std::path::Path::new(path).extension() {
        Some(e) => match e.to_str() {
            Some(e) => Some(e.to_string()),
            None => None,
        },
        None => None,
    }
}

/// The lowercase of a string as `str::to_lowercase` gives it.
pub uninterp spec fn std_to_lowercase(s: Seq<char>) -> Seq<char>;

/// Calls `str::to_lowercase`, whose result depends on the string alone; the
/// Unicode case mapping is not written out here.
#[verifier::external_body]
fn to_lowercase(s: &str) -> (r: String)
    ensures
        r@ == std_to_lowercase(s@),
{
    s.to_lowercase()
}

/// The media type of a file that the ground server accepts.
#[derive(Clone, Copy, Debug, PartialEq, Eq, Structural)]
pub enum ImageMime {
    Jpeg,
    Mp4,
}

impl ImageMime {
    /// The MIME type string.
    pub fn as_str(&self) -> (r: &'static str)
        ensures
            r@ == match self {
                ImageMime::Jpeg => "image/jpeg"@,
                ImageMime::Mp4 => "video/mp4"@,
            },
    {
        match self {
            ImageMime::Jpeg => "image/jpeg",
            ImageMime::Mp4 => "video/mp4",
        }
    }
}

/// The media type that a lowercased extension names: `jpg` and `jpeg` are
/// JPEG images, `mp4` is MPEG-4 video.
pub open spec fn spec_mime_of_extension(ext: Seq<char>) -> Option<ImageMime> {
    if ext == "jpg"@ || ext == "jpeg"@ {
        Some(ImageMime::Jpeg)
    } else if ext == "mp4"@ {
        Some(ImageMime::Mp4)
    } else {
        None
    }
}

/// The media type of an image file downloaded from the camera, from the
/// extension of its name in any case; `None` for a name with no extension or
/// an unknown one, which is not uploaded.
pub fn image_mime_type(name: &str) -> (r: Option<ImageMime>)
    ensures
        r == match std_path_extension(name@) {
            Some(ext) => spec_mime_of_extension(std_to_lowercase(ext)),
            None => None,
        },
{
    match path_extension(name) {
        Some(ext) => {
            let lower = to_lowercase(ext.as_str());
            let l = lower.as_str();
            if str_is(l, "jpg") || str_is(l, "jpeg") {
                Some(ImageMime::Jpeg)
            } else if str_is(l, "mp4") {
                Some(ImageMime::Mp4)
            } else {
                None
            }
        },
        None => None,
    }
}

} // verus!
