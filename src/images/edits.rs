//! Edited or extended images, given an original image and a prompt.

use vstd::prelude::*;
use crate::images::{BuildError, ImageData, ImageFormat, ImageSize};

verus! {

/// Edited images.
#[derive(Clone, Debug)]
pub struct ImageEdit {
    pub created: usize,
    pub data: Vec<ImageData>,
}

/// A request to edit an image.
#[derive(Clone, Debug)]
pub struct ImageEditRequest {
    /// The image to edit: a square PNG file of less than 4MB.
    pub image: String,
    /// An image whose fully transparent areas show where `image` should be edited.
    pub mask: Option<String>,
    /// A text description of the desired images; at most 1000 characters.
    pub prompt: String,
    /// The number of images to generate, from 1 to 10.
    pub n: Option<u16>,
    pub size: Option<ImageSize>,
    pub response_format: Option<ImageFormat>,
    /// An identifier of the end user.
    pub user: Option<String>,
}

/// Builds an `ImageEditRequest` field by field.
#[derive(Clone, Debug)]
pub struct ImageEditBuilder {
    pub image: Option<String>,
    pub mask: Option<String>,
    pub prompt: Option<String>,
    pub n: Option<u16>,
    pub size: Option<ImageSize>,
    pub response_format: Option<ImageFormat>,
    pub user: Option<String>,
}

impl ImageEditBuilder {
    /// A builder with no field set.
    pub fn create_empty() -> (r: ImageEditBuilder)
        ensures
            r.image is None,
            r.mask is None,
            r.prompt is None,
            r.n is None,
            r.size is None,
            r.response_format is None,
            r.user is None,
    {
        ImageEditBuilder { image: None, mask: None, prompt: None, n: None, size: None, response_format: None, user: None }
    }

    pub fn image(self, value: &str) -> (r: ImageEditBuilder)
        ensures
            r.image matches Some(v) && v@ == value@,
            r.mask == self.mask,
            r.prompt == self.prompt,
            r.n == self.n,
            r.size == self.size,
            r.response_format == self.response_format,
            r.user == self.user,
    {
        ImageEditBuilder {
            image: Some(String::from_str(value)),
            mask: self.mask,
            prompt: self.prompt,
            n: self.n,
            size: self.size,
            response_format: self.response_format,
            user: self.user,
        }
    }

    pub fn mask(self, value: &str) -> (r: ImageEditBuilder)
        ensures
            r.image == self.image,
            r.mask matches Some(v) && v@ == value@,
            r.prompt == self.prompt,
            r.n == self.n,
            r.size == self.size,
            r.response_format == self.response_format,
            r.user == self.user,
    {
        ImageEditBuilder {
            image: self.image,
            mask: Some(String::from_str(value)),
            prompt: self.prompt,
            n: self.n,
            size: self.size,
            response_format: self.response_format,
            user: self.user,
        }
    }

    pub fn prompt(self, value: &str) -> (r: ImageEditBuilder)
        ensures
            r.image == self.image,
            r.mask == self.mask,
            r.prompt matches Some(v) && v@ == value@,
            r.n == self.n,
            r.size == self.size,
            r.response_format == self.response_format,
            r.user == self.user,
    {
        ImageEditBuilder {
            image: self.image,
            mask: self.mask,
            prompt: Some(String::from_str(value)),
            n: self.n,
            size: self.size,
            response_format: self.response_format,
            user: self.user,
        }
    }

    pub fn n(self, value: u16) -> (r: ImageEditBuilder)
        ensures
            r.image == self.image,
            r.mask == self.mask,
            r.prompt == self.prompt,
            r.n == Some(value),
            r.size == self.size,
            r.response_format == self.response_format,
            r.user == self.user,
    {
        ImageEditBuilder {
            image: self.image,
            mask: self.mask,
            prompt: self.prompt,
            n: Some(value),
            size: self.size,
            response_format: self.response_format,
            user: self.user,
        }
    }

    pub fn size(self, value: ImageSize) -> (r: ImageEditBuilder)
        ensures
            r.image == self.image,
            r.mask == self.mask,
            r.prompt == self.prompt,
            r.n == self.n,
            r.size == Some(value),
            r.response_format == self.response_format,
            r.user == self.user,
    {
        ImageEditBuilder {
            image: self.image,
            mask: self.mask,
            prompt: self.prompt,
            n: self.n,
            size: Some(value),
            response_format: self.response_format,
            user: self.user,
        }
    }

    pub fn response_format(self, value: ImageFormat) -> (r: ImageEditBuilder)
        ensures
            r.image == self.image,
            r.mask == self.mask,
            r.prompt == self.prompt,
            r.n == self.n,
            r.size == self.size,
            r.response_format == Some(value),
            r.user == self.user,
    {
        ImageEditBuilder {
            image: self.image,
            mask: self.mask,
            prompt: self.prompt,
            n: self.n,
            size: self.size,
            response_format: Some(value),
            user: self.user,
        }
    }

    pub fn user(self, value: &str) -> (r: ImageEditBuilder)
        ensures
            r.image == self.image,
            r.mask == self.mask,
            r.prompt == self.prompt,
            r.n == self.n,
            r.size == self.size,
            r.response_format == self.response_format,
            r.user matches Some(v) && v@ == value@,
    {
        ImageEditBuilder {
            image: self.image,
            mask: self.mask,
            prompt: self.prompt,
            n: self.n,
            size: self.size,
            response_format: self.response_format,
            user: Some(String::from_str(value)),
        }
    }

    /// The request, once its required fields are set.
    pub fn build(self) -> (r: Result<ImageEditRequest, BuildError>)
        ensures
            self.image is None ==> (r matches Err(BuildError::UninitializedField(f))
                && f@ == "image"@),
            self.image is Some && self.prompt is None ==> (r matches Err(BuildError::UninitializedField(f))
                && f@ == "prompt"@),
            self.image is Some && self.prompt is Some ==> (r matches Ok(req)
                && Some(req.image) == self.image
                && req.mask == self.mask
                && Some(req.prompt) == self.prompt
                && req.n == self.n
                && req.size == self.size
                && req.response_format == self.response_format
                && req.user == self.user),
    {
        let image = match self.image {
            Some(v) => v,
            None => {
                return Err(BuildError::UninitializedField(String::from_str("image")));
            },
        };
        let prompt = match self.prompt {
            Some(v) => v,
            None => {
                return Err(BuildError::UninitializedField(String::from_str("prompt")));
            },
        };
        Ok(
            ImageEditRequest {
                image,
                mask: self.mask,
                prompt,
                n: self.n,
                size: self.size,
                response_format: self.response_format,
                user: self.user,
            },
        )
    }
}

impl ImageEdit {
    /// A builder whose image and prompt are set.
    pub fn builder(image: &str, prompt: &str) -> (r: ImageEditBuilder)
        ensures
            r.image matches Some(v) && v@ == image@,
            r.mask is None,
            r.prompt matches Some(v) && v@ == prompt@,
            r.n is None,
            r.size is None,
            r.response_format is None,
            r.user is None,
    {
        ImageEditBuilder::create_empty().image(image).prompt(prompt)
    }
}

} // verus!
