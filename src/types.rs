//! Request and response values of the image endpoints.

use vstd::prelude::*;

verus! {

/// Side length of a generated square image.
#[derive(Clone, Copy, Debug, PartialEq, Eq, Structural)]
pub enum ImageSize {
    S256x256,
    S512x512,
    S1024x1024,
}

/// The text by which the API names an image size.
pub open spec fn image_size_text(size: ImageSize) -> Seq<char> {
    match size {
        ImageSize::S256x256 => "256x256"@,
        ImageSize::S512x512 => "512x512"@,
        ImageSize::S1024x1024 => "1024x1024"@,
    }
}

impl ImageSize {
    /// The text by which the API names this size.
    pub fn as_str(&self) -> (r: &'static str)
        ensures
            r@ == image_size_text(*self),
    {
        match self {
            ImageSize::S256x256 => "256x256",
            ImageSize::S512x512 => "512x512",
            ImageSize::S1024x1024 => "1024x1024",
        }
    }
}

/// How the API returns generated images: as links, or inline as base64 text.
#[derive(Clone, Copy, Debug, PartialEq, Eq, Structural)]
pub enum ResponseFormat {
    Url,
    B64Json,
}

/// The text by which the API names a response format.
pub open spec fn response_format_text(format: ResponseFormat) -> Seq<char> {
    match format {
        ResponseFormat::Url => "url"@,
        ResponseFormat::B64Json => "b64_json"@,
    }
}

impl ResponseFormat {
    /// The text by which the API names this format.
    pub fn as_str(&self) -> (r: &'static str)
        ensures
            r@ == response_format_text(*self),
    {
        match self {
            ResponseFormat::Url => "url",
            ResponseFormat::B64Json => "b64_json",
        }
    }
}

/// An image file given as input to an edit or variation request.
#[derive(Clone, Debug)]
pub struct ImageInput {
    pub path: String,
}

impl ImageInput {
    /// An input that refers to the file at `path`.
    pub fn new(path: &str) -> (r: ImageInput)
        ensures
            r.path@ == path@,
    {
        ImageInput { path: path.to_string() }
    }
}


/// One generated image: a link to fetch it from, or its bytes as base64 text.
#[derive(Clone, Debug)]
pub enum ImageData {
    Url(String),
    B64Json(String),
}

impl ImageData {
    /// A copy of this image descriptor.
    pub fn duplicate(&self) -> (r: ImageData)
        ensures
            r == *self,
    {
        match self {
            ImageData::Url(url) => ImageData::Url(url.clone()),
            ImageData::B64Json(text) => ImageData::B64Json(text.clone()),
        }
    }
}

/// The answer to an image generation request: when it was made, and the images
/// in the order the API listed them.
#[derive(Clone, Debug)]
pub struct ImageResponse {
    pub created: u32,
    pub data: Vec<ImageData>,
}

} // verus!
