//! Variations of a given image.

use vstd::prelude::*;
use crate::images::{BuildError, ImageData, ImageFormat, ImageSize};

verus! {

/// Variations of an image.
#[derive(Clone, Debug)]
pub struct ImageVariation {
    pub created: usize,
    pub data: Vec<ImageData>,
}

/// A request for variations of an image.
#[derive(Clone, Debug)]
pub struct ImageVariationRequest {
    /// The image to vary: a square PNG file of less than 4MB.
    pub image: String,
    /// The number of images to generate, from 1 to 10.
    pub n: Option<u16>,
    pub size: Option<ImageSize>,
    pub response_format: Option<ImageFormat>,
    /// An identifier of the end user.
    pub user: Option<String>,
}

/// Builds an `ImageVariationRequest` field by field.
#[derive(Clone, Debug)]
pub struct ImageVariationBuilder {
    pub image: Option<String>,
    pub n: Option<u16>,
    pub size: Option<ImageSize>,
    pub response_format: Option<ImageFormat>,
    pub user: Option<String>,
}

impl ImageVariationBuilder {
    /// A builder with no field set.
    pub fn create_empty() -> (r: ImageVariationBuilder)
        ensures
            r.image is None,
            r.n is None,
            r.size is None,
            r.response_format is None,
            r.user is None,
    {
        ImageVariationBuilder { image: None, n: None, size: None, response_format: None, user: None }
    }

    pub fn image(self, value: &str) -> (r: ImageVariationBuilder)
        ensures
            r.image matches Some(v) && v@ == value@,
            r.n == self.n,
            r.size == self.size,
            r.response_format == self.response_format,
            r.user == self.user,
    {
        ImageVariationBuilder {
            image: Some(String::from_str(value)),
            n: self.n,
            size: self.size,
            response_format: self.response_format,
            user: self.user,
        }
    }

    pub fn n(self, value: u16) -> (r: ImageVariationBuilder)
        ensures
            r.image == self.image,
            r.n == Some(value),
            r.size == self.size,
            r.response_format == self.response_format,
            r.user == self.user,
    {
        ImageVariationBuilder {
            image: self.image,
            n: Some(value),
            size: self.size,
            response_format: self.response_format,
            user: self.user,
        }
    }

    pub fn size(self, value: ImageSize) -> (r: ImageVariationBuilder)
        ensures
            r.image == self.image,
            r.n == self.n,
            r.size == Some(value),
            r.response_format == self.response_format,
            r.user == self.user,
    {
        ImageVariationBuilder {
            image: self.image,
            n: self.n,
            size: Some(value),
            response_format: self.response_format,
            user: self.user,
        }
    }

    pub fn response_format(self, value: ImageFormat) -> (r: ImageVariationBuilder)
        ensures
            r.image == self.image,
            r.n == self.n,
            r.size == self.size,
            r.response_format == Some(value),
            r.user == self.user,
    {
        ImageVariationBuilder {
            image: self.image,
            n: self.n,
            size: self.size,
            response_format: Some(value),
            user: self.user,
        }
    }

    pub fn user(self, value: &str) -> (r: ImageVariationBuilder)
        ensures
            r.image == self.image,
            r.n == self.n,
            r.size == self.size,
            r.response_format == self.response_format,
            r.user matches Some(v) && v@ == value@,
    {
        ImageVariationBuilder {
            image: self.image,
            n: self.n,
            size: self.size,
            response_format: self.response_format,
            user: Some(String::from_str(value)),
        }
    }

    /// The request, once its required fields are set.
    pub fn build(self) -> (r: Result<ImageVariationRequest, BuildError>)
        ensures
            self.image is None ==> (r matches Err(BuildError::UninitializedField(f))
                && f@ == "image"@),
            self.image is Some ==> (r matches Ok(req)
                && Some(req.image) == self.image
                && req.n == self.n
                && req.size == self.size
                && req.response_format == self.response_format
                && req.user == self.user),
    {
        let image = match self.image {
            Some(v) => v,
            None => {
                return Err(BuildError::UninitializedField(String::from_str("image")));
            },
        };
        Ok(
            ImageVariationRequest {
                image,
                n: self.n,
                size: self.size,
                response_format: self.response_format,
                user: self.user,
            },
        )
    }
}

impl ImageVariation {
    /// A builder whose image is set.
    pub fn builder(image: &str) -> (r: ImageVariationBuilder)
        ensures
            r.image matches Some(v) && v@ == image@,
            r.n is None,
            r.size is None,
            r.response_format is None,
            r.user is None,
    {
        ImageVariationBuilder::create_empty().image(image)
    }
}

} // verus!
