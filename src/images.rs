//! Image generation: given a prompt, the model generates new images.

use vstd::prelude::*;

pub mod edits;
pub mod variations;

verus! {

/// Generated images.
#[derive(Clone, Debug)]
pub struct Image {
    pub created: usize,
    pub data: Vec<ImageData>,
}

/// Where one generated image can be fetched.
#[derive(Clone, Debug)]
pub struct ImageData {
    pub url: String,
}

/// Size of the generated images.
#[derive(Clone, Copy, Debug, PartialEq, Eq, Structural)]
pub enum ImageSize {
    Small,
    Medium,
    Large,
}

impl Default for ImageSize {
    fn default() -> (r: ImageSize)
        ensures
            r == ImageSize::Large,
    {
        ImageSize::Large
    }
}

impl ImageSize {
    pub open spec fn spec_wire_name(self) -> Seq<char> {
        match self {
            ImageSize::Small => "256x256"@,
            ImageSize::Medium => "512x512"@,
            ImageSize::Large => "1024x1024"@,
        }
    }

    /// The size as the service writes it.
    pub fn wire_name(&self) -> (r: &'static str)
        ensures
            r@ == self.spec_wire_name(),
    {
        match self {
            ImageSize::Small => "256x256",
            ImageSize::Medium => "512x512",
            ImageSize::Large => "1024x1024",
        }
    }
}

/// Format in which generated images are returned.
#[derive(Clone, Copy, Debug, PartialEq, Eq, Structural)]
pub enum ImageFormat {
    Url,
    Base64Json,
}

impl Default for ImageFormat {
    fn default() -> (r: ImageFormat)
        ensures
            r == ImageFormat::Url,
    {
        ImageFormat::Url
    }
}

impl ImageFormat {
    pub open spec fn spec_wire_name(self) -> Seq<char> {
        match self {
            ImageFormat::Url => "url"@,
            ImageFormat::Base64Json => "b64_json"@,
        }
    }

    /// The format as the service writes it.
    pub fn wire_name(&self) -> (r: &'static str)
        ensures
            r@ == self.spec_wire_name(),
    {
        match self {
            ImageFormat::Url => "url",
            ImageFormat::Base64Json => "b64_json",
        }
    }
}

/// Why a builder could not produce its request.
#[derive(Clone, Debug)]
pub enum BuildError {
    /// A field that the request needs was never set; it holds the field's name.
    UninitializedField(String),
}

/// A request to generate images.
#[derive(Clone, Debug)]
pub struct ImageRequest {
    /// A text description of the desired images; at most 1000 characters.
    pub prompt: String,
    /// The number of images to generate, from 1 to 10.
    pub n: Option<u16>,
    pub size: Option<ImageSize>,
    pub response_format: Option<ImageFormat>,
    /// An identifier of the end user.
    pub user: Option<String>,
}

/// Builds an `ImageRequest` field by field.
#[derive(Clone, Debug)]
pub struct ImageBuilder {
    pub prompt: Option<String>,
    pub n: Option<u16>,
    pub size: Option<ImageSize>,
    pub response_format: Option<ImageFormat>,
    pub user: Option<String>,
}

impl ImageBuilder {
    /// A builder with no field set.
    pub fn create_empty() -> (r: ImageBuilder)
        ensures
            r.prompt is None,
            r.n is None,
            r.size is None,
            r.response_format is None,
            r.user is None,
    {
        ImageBuilder { prompt: None, n: None, size: None, response_format: None, user: None }
    }

    pub fn prompt(self, value: &str) -> (r: ImageBuilder)
        ensures
            r.prompt matches Some(p) && p@ == value@,
            r.n == self.n,
            r.size == self.size,
            r.response_format == self.response_format,
            r.user == self.user,
    {
        ImageBuilder {
            prompt: Some(String::from_str(value)),
            n: self.n,
            size: self.size,
            response_format: self.response_format,
            user: self.user,
        }
    }

    pub fn n(self, value: u16) -> (r: ImageBuilder)
        ensures
            r.prompt == self.prompt,
            r.n == Some(value),
            r.size == self.size,
            r.response_format == self.response_format,
            r.user == self.user,
    {
        ImageBuilder {
            prompt: self.prompt,
            n: Some(value),
            size: self.size,
            response_format: self.response_format,
            user: self.user,
        }
    }

    pub fn size(self, value: ImageSize) -> (r: ImageBuilder)
        ensures
            r.prompt == self.prompt,
            r.n == self.n,
            r.size == Some(value),
            r.response_format == self.response_format,
            r.user == self.user,
    {
        ImageBuilder {
            prompt: self.prompt,
            n: self.n,
            size: Some(value),
            response_format: self.response_format,
            user: self.user,
        }
    }

    pub fn response_format(self, value: ImageFormat) -> (r: ImageBuilder)
        ensures
            r.prompt == self.prompt,
            r.n == self.n,
            r.size == self.size,
            r.response_format == Some(value),
            r.user == self.user,
    {
        ImageBuilder {
            prompt: self.prompt,
            n: self.n,
            size: self.size,
            response_format: Some(value),
            user: self.user,
        }
    }

    pub fn user(self, value: &str) -> (r: ImageBuilder)
        ensures
            r.prompt == self.prompt,
            r.n == self.n,
            r.size == self.size,
            r.response_format == self.response_format,
            r.user matches Some(u) && u@ == value@,
    {
        ImageBuilder {
            prompt: self.prompt,
            n: self.n,
            size: self.size,
            response_format: self.response_format,
            user: Some(String::from_str(value)),
        }
    }

    /// The request, once its prompt is set.
    pub fn build(self) -> (r: Result<ImageRequest, BuildError>)
        ensures
            match self.prompt {
                Some(p) => r matches Ok(req) && req.prompt == p && req.n == self.n && req.size
                    == self.size && req.response_format == self.response_format && req.user
                    == self.user,
                None => r matches Err(BuildError::UninitializedField(f)) && f@ == "prompt"@,
            },
    {
        match self.prompt {
            Some(prompt) => Ok(
                ImageRequest {
                    prompt,
                    n: self.n,
                    size: self.size,
                    response_format: self.response_format,
                    user: self.user,
                },
            ),
            None => Err(BuildError::UninitializedField(String::from_str("prompt"))),
        }
    }
}

impl Image {
    /// A builder whose prompt is set.
    pub fn builder(prompt: &str) -> (r: ImageBuilder)
        ensures
            r.prompt matches Some(p) && p@ == prompt@,
            r.n is None,
            r.size is None,
            r.response_format is None,
            r.user is None,
    {
        ImageBuilder::create_empty().prompt(prompt)
    }
}

} // verus!
