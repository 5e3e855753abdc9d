//! The ways a conversion can fail.
use vstd::prelude::*;

use crate::text::push_text;
use crate::text::string_from_chars;

verus! {

/// Why a document could not be converted.
#[derive(Clone, Debug)]
pub enum VectorDrawableError {
    /// The source file could not be read: its path and the cause.
    CannotReadSvg(String, String),
    /// The source is not well-formed markup: its path and the cause.
    CannotParseSvg(String, String),
    /// The root element is not `svg`: its name.
    NotSvgRoot(String),
    /// No accepted combination of `width`, `height` and `viewBox`.
    InvalidDimensionSvgTag,
    /// A geometry string holds a malformed token or command.
    InvalidPathData(String),
    /// A geometry string holds a value too large for a 32-bit float.
    InfinitePathData(String),
    /// The output could not be written: the cause.
    CannotWrite(String),
}

/// The failures of a conversion, as values of the specification.
pub enum Failure {
    CannotReadSvg(Seq<char>, Seq<char>),
    CannotParseSvg(Seq<char>, Seq<char>),
    NotSvgRoot(Seq<char>),
    InvalidDimensionSvgTag,
    InvalidPathData(Seq<char>),
    InfinitePathData(Seq<char>),
    CannotWrite(Seq<char>),
}

impl View for VectorDrawableError {
    type V = Failure;

    open spec fn view(&self) -> Failure {
        match self {
            VectorDrawableError::CannotReadSvg(p, c) => Failure::CannotReadSvg(p@, c@),
            VectorDrawableError::CannotParseSvg(p, c) => Failure::CannotParseSvg(p@, c@),
            VectorDrawableError::NotSvgRoot(n) => Failure::NotSvgRoot(n@),
            VectorDrawableError::InvalidDimensionSvgTag => Failure::InvalidDimensionSvgTag,
            VectorDrawableError::InvalidPathData(d) => Failure::InvalidPathData(d@),
            VectorDrawableError::InfinitePathData(d) => Failure::InfinitePathData(d@),
            VectorDrawableError::CannotWrite(c) => Failure::CannotWrite(c@),
        }
    }
}

/// The message that tells a user what went wrong.
pub open spec fn message_text(f: Failure) -> Seq<char> {
    match f {
        Failure::CannotReadSvg(p, c) => "Can't read file "@ + p + ". Cause: "@ + c,
        Failure::CannotParseSvg(p, c) => "Can't parse file "@ + p + ". Cause: "@ + c,
        Failure::NotSvgRoot(n) => "Root tag <"@ + n + "> is not <svg>"@,
        Failure::InvalidDimensionSvgTag => "Invalid dimensions in <svg> tag"@,
        Failure::InvalidPathData(d) => "Invalid path data: "@ + d,
        Failure::InfinitePathData(d) => "Infinite number in path data: "@ + d,
        Failure::CannotWrite(c) => "Can't write to output xml file. Cause: "@ + c,
    }
}

impl VectorDrawableError {
    /// The message that tells a user what went wrong.
    pub fn message(&self) -> (r: String)
        ensures
            r@ == message_text(self@),
    {
        let mut out: Vec<char> = Vec::new();
        match self {
            VectorDrawableError::CannotReadSvg(p, c) => {
                push_text(&mut out, "Can't read file ");
                push_text(&mut out, p.as_str());
                push_text(&mut out, ". Cause: ");
                push_text(&mut out, c.as_str());
            },
            VectorDrawableError::CannotParseSvg(p, c) => {
                push_text(&mut out, "Can't parse file ");
                push_text(&mut out, p.as_str());
                push_text(&mut out, ". Cause: ");
                push_text(&mut out, c.as_str());
            },
            VectorDrawableError::NotSvgRoot(n) => {
                push_text(&mut out, "Root tag <");
                push_text(&mut out, n.as_str());
                push_text(&mut out, "> is not <svg>");
            },
            VectorDrawableError::InvalidDimensionSvgTag => {
                push_text(&mut out, "Invalid dimensions in <svg> tag");
            },
            VectorDrawableError::InvalidPathData(d) => {
                push_text(&mut out, "Invalid path data: ");
                push_text(&mut out, d.as_str());
            },
            VectorDrawableError::InfinitePathData(d) => {
                push_text(&mut out, "Infinite number in path data: ");
                push_text(&mut out, d.as_str());
            },
            VectorDrawableError::CannotWrite(c) => {
                push_text(&mut out, "Can't write to output xml file. Cause: ");
                push_text(&mut out, c.as_str());
            },
        }
        string_from_chars(&out)
    }
}

} // verus!
