//! Where exported resources go in an Android project.
use vstd::prelude::*;

use crate::config::ImageFormat;
use crate::text::owned;
use crate::text::push_text;
use crate::text::string_from_chars;

verus! {

/// The drawable directory of an icon.
pub open spec fn icon_dir_spec(night: bool) -> Seq<char> {
    if night {
        "drawable-night"@
    } else {
        "drawable"@
    }
}

/// The drawable directory of an image: one per density for raster formats.
pub open spec fn image_dir_spec(format: ImageFormat, night: bool, scale: Seq<char>) -> Seq<char> {
    if format == ImageFormat::Svg {
        icon_dir_spec(night)
    } else if night {
        "drawable-night-"@ + scale
    } else {
        "drawable-"@ + scale
    }
}

/// The drawable directory of an icon, for the night theme or not.
pub fn icon_drawable_dir_name(night: bool) -> (r: String)
    ensures
        r@ == icon_dir_spec(night),
{
    if night {
        owned("drawable-night")
    } else {
        owned("drawable")
    }
}

/// The drawable directory of an image of the given format, theme and density.
pub fn image_drawable_dir_name(format: ImageFormat, night: bool, scale: &str) -> (r: String)
    ensures
        r@ == image_dir_spec(format, night, scale@),
{
    if format.is_svg() {
        return icon_drawable_dir_name(night);
    }
    let mut t: Vec<char> = Vec::new();
    if night {
        push_text(&mut t, "drawable-night-");
    } else {
        push_text(&mut t, "drawable-");
    }
    push_text(&mut t, scale);
    string_from_chars(&t)
}

/// Which resource kind lacks a resource directory.
#[derive(Clone, Copy, Debug, PartialEq, Eq, Structural)]
pub enum MainResProblem {
    /// No directory at all.
    Common,
    /// Only images have one.
    Icons,
    /// Only icons have one.
    Images,
}

/// Checks that images and icons both have a resource directory, given the
/// common one and those of images and icons.
pub fn validate_main_res(common: bool, images: bool, icons: bool) -> (r: Result<(), MainResProblem>)
    ensures
        r == (if !common && !images && !icons {
            Err(MainResProblem::Common)
        } else if !common && images && !icons {
            Err(MainResProblem::Icons)
        } else if !common && !images && icons {
            Err(MainResProblem::Images)
        } else {
            Ok(())
        }),
        r is Ok <==> (common || (images && icons)),
{
    match (common, images, icons) {
        (false, false, false) => Err(MainResProblem::Common),
        (false, true, false) => Err(MainResProblem::Icons),
        (false, false, true) => Err(MainResProblem::Images),
        _ => Ok(()),
    }
}

/// The resource directory that applies: the specific one, else the common one.
pub fn main_res(specific: &Option<String>, common: &Option<String>) -> (r: Option<String>)
    ensures
        match specific {
            Some(s) => r is Some && r->Some_0@ == s@,
            None => match common {
                Some(c) => r is Some && r->Some_0@ == c@,
                None => r is None,
            },
        },
{
    match specific {
        Some(s) => Some(s.clone()),
        None => match common {
            Some(c) => Some(c.clone()),
            None => None,
        },
    }
}

} // verus!
