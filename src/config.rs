//! The parts of the application configuration that carry no float: figma
//! source, frame names, icon settings and output formats, with their defaults.
use vstd::prelude::*;

use crate::text::owned;
use crate::text::push_text;
use crate::text::string_from_chars;

verus! {

/// The figma file to export from, and optionally the page to look in.
#[derive(Clone, Debug)]
pub struct FigmaConfig {
    pub file_id: String,
    pub page_name: Option<String>,
}

/// Settings shared by all platforms.
#[derive(Clone, Debug)]
pub struct CommonConfig {
    pub images: CommonImagesConfig,
    pub icons: CommonIconsConfig,
}

/// The figma frame that holds the images.
#[derive(Clone, Debug)]
pub struct CommonImagesConfig {
    pub figma_frame_name: String,
}

/// The figma frame that holds the icons.
#[derive(Clone, Debug)]
pub struct CommonIconsConfig {
    pub figma_frame_name: String,
}

/// Where icons go in an Android project, and in which format.
#[derive(Clone, Debug)]
pub struct AndroidIconsConfig {
    pub main_res: Option<String>,
    pub format: IconFormat,
}

/// Output format of images.
#[derive(Clone, Copy, Debug, PartialEq, Eq, Structural)]
pub enum ImageFormat {
    Webp,
    Png,
    Svg,
}

/// Output format of icons.
#[derive(Clone, Copy, Debug, PartialEq, Eq, Structural)]
pub enum IconFormat {
    Svg,
    Xml,
}

pub open spec fn image_extension(f: ImageFormat) -> Seq<char> {
    match f {
        ImageFormat::Png => "png"@,
        ImageFormat::Svg => "svg"@,
        ImageFormat::Webp => "webp"@,
    }
}

pub open spec fn icon_extension(f: IconFormat) -> Seq<char> {
    match f {
        IconFormat::Svg => "svg"@,
        IconFormat::Xml => "xml"@,
    }
}

impl ImageFormat {
    /// The file extension of the format.
    pub fn extension(&self) -> (r: String)
        ensures
            r@ == image_extension(*self),
    {
        match self {
            ImageFormat::Png => owned("png"),
            ImageFormat::Svg => owned("svg"),
            ImageFormat::Webp => owned("webp"),
        }
    }

    /// The format is SVG.
    pub fn is_svg(&self) -> (r: bool)
        ensures
            r == (*self == ImageFormat::Svg),
    {
        match self {
            ImageFormat::Svg => true,
            _ => false,
        }
    }

    /// The format to download in: WEBP images are fetched as PNG and converted afterwards.
    pub fn download_extension(&self) -> (r: String)
        ensures
            r@ == (match *self {
                ImageFormat::Webp => "png"@,
                f => image_extension(f),
            }),
    {
        match self {
            ImageFormat::Png => owned("png"),
            ImageFormat::Svg => owned("svg"),
            ImageFormat::Webp => owned("png"),
        }
    }
}

impl IconFormat {
    /// The file extension of the format.
    pub fn extension(&self) -> (r: String)
        ensures
            r@ == icon_extension(*self),
    {
        match self {
            IconFormat::Svg => owned("svg"),
            IconFormat::Xml => owned("xml"),
        }
    }
}

/// The frame names used when the configuration names none.
pub fn default_common_config() -> (r: CommonConfig)
    ensures
        r.images.figma_frame_name@ == "Images"@,
        r.icons.figma_frame_name@ == "Icons"@,
{
    CommonConfig { images: default_common_images_config(), icons: default_common_icons_config() }
}

pub fn default_common_images_config() -> (r: CommonImagesConfig)
    ensures
        r.figma_frame_name@ == "Images"@,
{
    CommonImagesConfig { figma_frame_name: owned("Images") }
}

pub fn default_common_icons_config() -> (r: CommonIconsConfig)
    ensures
        r.figma_frame_name@ == "Icons"@,
{
    CommonIconsConfig { figma_frame_name: owned("Icons") }
}

/// Icons as vector-drawable XML, in the common resource directory.
pub fn default_android_icons_config() -> (r: AndroidIconsConfig)
    ensures
        r.main_res is None,
        r.format == IconFormat::Xml,
{
    AndroidIconsConfig { main_res: None, format: default_icons_format() }
}

pub fn default_image_format() -> (r: ImageFormat)
    ensures
        r == ImageFormat::Webp,
{
    ImageFormat::Webp
}

pub fn default_icons_format() -> (r: IconFormat)
    ensures
        r == IconFormat::Xml,
{
    IconFormat::Xml
}

/// Why the default configuration could not be written.
#[derive(Clone, Debug)]
pub struct ConfigFeatureError {
    pub message: String,
    pub cause: String,
}

impl ConfigFeatureError {
    /// The message followed by its cause.
    pub fn describe(&self) -> (r: String)
        ensures
            r@ == self.message@ + "; "@ + self.cause@,
    {
        let mut t: Vec<char> = Vec::new();
        push_text(&mut t, self.message.as_str());
        push_text(&mut t, "; ");
        push_text(&mut t, self.cause.as_str());
        assert(t@ =~= self.message@ + "; "@ + self.cause@);
        string_from_chars(&t)
    }
}

} // verus!
