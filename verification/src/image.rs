use crate::api::WebApi;
use crate::retry::Response;
use crate::text::same_text;
use vstd::prelude::*;

verus! {

/// An image format that a content type can name.
#[derive(Clone, Copy, Debug, PartialEq, Eq)]
pub enum ImageFormat {
    Jpeg,
    Png,
}

/// The bytes of an image, with the format to decode them by.  Where there
/// is none, the format has to be found out from the bytes themselves.
#[derive(Debug, PartialEq, Eq)]
pub struct EncodedImage {
    pub format: Option<ImageFormat>,
    pub bytes: Vec<u8>,
}

/// The image format that a content type names, if it names one.
pub open spec fn image_format(content_type: Seq<char>) -> Option<ImageFormat> {
    if content_type == "image/jpeg"@ {
        Some(ImageFormat::Jpeg)
    } else if content_type == "image/png"@ {
        Some(ImageFormat::Png)
    } else {
        None
    }
}

/// Image endpoints.
impl WebApi {
    /// The image that a response holds: its body, to be decoded by the
    /// format that its content type names.
    pub fn get_image(response: Response<Vec<u8>>) -> (image: EncodedImage)
        ensures
            image.format == image_format(response.content_type@),
            image.bytes == response.body,
    {
        let format = if same_text(response.content_type.as_str(), "image/jpeg") {
            Some(ImageFormat::Jpeg)
        } else if same_text(response.content_type.as_str(), "image/png") {
            Some(ImageFormat::Png)
        } else {
            None
        };
        EncodedImage { format, bytes: response.body }
    }
}

} // verus!
