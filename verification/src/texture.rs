//! Texture loading options and the upload decisions derived from them.
//!
//! The GL upload itself is host work; what the library owns is the exact
//! option state the builder accumulates and the plan an upload must follow:
//! which pixel format to use and whether to generate mipmaps or clamp the
//! texture to a single level.

use vstd::prelude::*;

verus! {

#[derive(Clone, Copy, Debug, PartialEq, Eq, Structural)]
pub enum ImageFormat {
    Rgb,
    Rgba,
}

pub struct TextureLoadOptions {
    pub resource_name: String,
    pub format: ImageFormat,
    pub gen_mipmaps: bool,
}

impl TextureLoadOptions {
    pub fn from_res_rgb(resource_name: &str) -> (o: TextureLoadOptions)
        ensures
            o.resource_name@ == resource_name@,
            o.format == ImageFormat::Rgb,
            !o.gen_mipmaps,
    {
        TextureLoadOptions {
            resource_name: resource_name.to_owned(),
            format: ImageFormat::Rgb,
            gen_mipmaps: false,
        }
    }

    pub fn from_res_rgba(resource_name: &str) -> (o: TextureLoadOptions)
        ensures
            o.resource_name@ == resource_name@,
            o.format == ImageFormat::Rgba,
            !o.gen_mipmaps,
    {
        TextureLoadOptions {
            resource_name: resource_name.to_owned(),
            format: ImageFormat::Rgba,
            gen_mipmaps: false,
        }
    }
}

pub struct TextureLoadBuilder {
    pub options: TextureLoadOptions,
}

impl TextureLoadBuilder {
    pub fn from_res_rgb(resource_name: &str) -> (b: TextureLoadBuilder)
        ensures
            b.options.resource_name@ == resource_name@,
            b.options.format == ImageFormat::Rgb,
            !b.options.gen_mipmaps,
    {
        TextureLoadBuilder { options: TextureLoadOptions::from_res_rgb(resource_name) }
    }

    pub fn from_res_rgba(resource_name: &str) -> (b: TextureLoadBuilder)
        ensures
            b.options.resource_name@ == resource_name@,
            b.options.format == ImageFormat::Rgba,
            !b.options.gen_mipmaps,
    {
        TextureLoadBuilder { options: TextureLoadOptions::from_res_rgba(resource_name) }
    }

    pub fn with_gen_mipmaps(self) -> (b: TextureLoadBuilder)
        ensures
            b.options.gen_mipmaps,
            b.options.format == self.options.format,
            b.options.resource_name@ == self.options.resource_name@,
    {
        let mut b = self;
        b.options.gen_mipmaps = true;
        b
    }
}

/// Everything an upload of decoded pixels must do, fixed by the options:
/// with mipmaps requested the chain is generated after the upload, otherwise
/// the texture's level range is clamped to the base level.
pub struct UploadPlan {
    pub format: ImageFormat,
    pub gen_mipmaps: bool,
    pub clamp_levels: bool,
    pub width: i32,
    pub height: i32,
}

pub fn upload_plan(options: &TextureLoadOptions, width: i32, height: i32) -> (p: UploadPlan)
    requires
        width >= 0,
        height >= 0,
    ensures
        p.format == options.format,
        p.gen_mipmaps == options.gen_mipmaps,
        p.clamp_levels == !options.gen_mipmaps,
        p.width == width,
        p.height == height,
{
    UploadPlan {
        format: options.format,
        gen_mipmaps: options.gen_mipmaps,
        clamp_levels: !options.gen_mipmaps,
        width,
        height,
    }
}

} // verus!
