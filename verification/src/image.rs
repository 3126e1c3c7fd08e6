//! Image objects.

use vstd::prelude::*;
use crate::api::image::Kind;
use crate::context::GlCall;
use crate::glenum;

verus! {

/// Handle of a texture object and the extent it was declared with.
#[derive(Debug, Clone, Copy, PartialEq, Eq, Structural)]
pub struct OpenGlImage {
    pub id: u32,
    pub kind: Kind,
}

/// Handle of a sampler object.
#[derive(Debug, Clone, Copy, PartialEq, Eq, Structural)]
pub struct OpenGlSampler {
    pub id: u32,
}

/// A view onto an image.
#[derive(Debug, Clone, Copy, PartialEq, Eq, Structural)]
pub struct OpenGlImageView;

/// Why pixel data could not be attached to an image.
#[derive(Debug, Clone, Copy, PartialEq, Eq, Structural)]
pub enum ImageError {
    /// Only two-dimensional images take pixel data.
    NotTwoDimensional,
}

/// The calls that upload one level of a two-dimensional RGBA texture with
/// linear filtering, leaving no texture bound afterwards.
pub open spec fn upload_d2(id: u32, width: u32, height: u32, level: u16) -> Seq<GlCall> {
    seq![
        GlCall::BindTexture { target: glenum::TEXTURE_2D, texture: id },
        GlCall::TexParameteri {
            target: glenum::TEXTURE_2D,
            name: glenum::TEXTURE_MIN_FILTER,
            value: glenum::LINEAR,
        },
        GlCall::TexParameteri {
            target: glenum::TEXTURE_2D,
            name: glenum::TEXTURE_MAG_FILTER,
            value: glenum::LINEAR,
        },
        GlCall::TexImage2D {
            target: glenum::TEXTURE_2D,
            level,
            internal_format: glenum::RGBA,
            width,
            height,
            format: glenum::RGBA,
            pixel_type: glenum::UNSIGNED_INT,
        },
        GlCall::BindTexture { target: glenum::TEXTURE_2D, texture: 0 },
    ]
}

impl OpenGlImage {
    /// The handle for the texture name `id`.
    pub fn new(id: u32, kind: Kind) -> (image: OpenGlImage)
        ensures
            image == (OpenGlImage { id, kind }),
    {
        OpenGlImage { id, kind }
    }

    /// The calls that attach pixel data to the image. Succeeds exactly on
    /// two-dimensional images, with the calls of [`upload_d2`].
    pub fn bind_mem(&self) -> (res: Result<Vec<GlCall>, ImageError>)
        ensures
            match self.kind {
                Kind::D2(width, height, level) => res is Ok && res->Ok_0@ == upload_d2(
                    self.id,
                    width,
                    height,
                    level,
                ),
                _ => res == Err::<Vec<GlCall>, ImageError>(ImageError::NotTwoDimensional),
            },
    {
        match self.kind {
            Kind::D2(width, height, level) => Ok(Self::bind_d2(self.id, width, height, level)),
            _ => Err(ImageError::NotTwoDimensional),
        }
    }

    /// Returns the calls of [`upload_d2`].
    pub fn bind_d2(id: u32, width: u32, height: u32, level: u16) -> (calls: Vec<GlCall>)
        ensures
            calls@ == upload_d2(id, width, height, level),
    {
        let mut calls: Vec<GlCall> = Vec::new();
        calls.push(GlCall::BindTexture { target: glenum::TEXTURE_2D, texture: id });
        calls.push(
            GlCall::TexParameteri {
                target: glenum::TEXTURE_2D,
                name: glenum::TEXTURE_MIN_FILTER,
                value: glenum::LINEAR,
            },
        );
        calls.push(
            GlCall::TexParameteri {
                target: glenum::TEXTURE_2D,
                name: glenum::TEXTURE_MAG_FILTER,
                value: glenum::LINEAR,
            },
        );
        calls.push(
            GlCall::TexImage2D {
                target: glenum::TEXTURE_2D,
                level,
                internal_format: glenum::RGBA,
                width,
                height,
                format: glenum::RGBA,
                pixel_type: glenum::UNSIGNED_INT,
            },
        );
        calls.push(GlCall::BindTexture { target: glenum::TEXTURE_2D, texture: 0 });
        proof {
            assert(calls@ =~= upload_d2(id, width, height, level));
        }
        calls
    }
}

impl OpenGlSampler {
    /// A sampler handle. Samplers are not backed by a context object yet, so
    /// the handle always carries the name 0.
    pub fn new(id: u32) -> (sampler: OpenGlSampler)
        ensures
            sampler.id == 0,
    {
        OpenGlSampler { id: 0 }
    }
}

} // verus!
