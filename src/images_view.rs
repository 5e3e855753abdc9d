//! Progress messages of the image export.
use vstd::prelude::*;

use crate::renderer::indented;
use crate::renderer::push_segment;
use crate::renderer::segments_view;
use crate::renderer::Renderable;
use crate::renderer::Segment;
use crate::renderer::Tint;
use crate::text::push_text;

verus! {

/// A progress message.
pub enum Message {
    FetchingImage(String, String),
    DownloadingImage(String, String),
    ConvertingToWebp(String, String),
    ConvertedToWebp(String, String),
    ImageExported(String, String),
    Error(String),
    Done { message: Option<String> },
}

impl Renderable for Message {
    open spec fn rendered(&self) -> Seq<(Seq<char>, Option<Tint>)> {
        match self {
            Message::FetchingImage(image_name, scale) => seq![(indented("Fetching"@), Some(Tint::Cyan)), (" "@ + "download url for image "@ + image_name@ + " for "@ + scale@, None)],
            Message::DownloadingImage(image_name, scale) => seq![(indented("Downloading"@), Some(Tint::Cyan)), (" "@ + "image "@ + image_name@ + " for "@ + scale@, None)],
            Message::ConvertingToWebp(image_name, scale) => seq![(indented("Converting"@), Some(Tint::Cyan)), (" "@ + "to WEBP image "@ + image_name@ + " for "@ + scale@ + "..."@, None)],
            Message::ConvertedToWebp(image_name, scale) => seq![(indented("Converted"@), Some(Tint::Green)), (" "@ + "to WEBP image "@ + image_name@ + " for "@ + scale@, None)],
            Message::ImageExported(image_name, scale) => seq![(indented("Exported"@), Some(Tint::Green)), (" "@ + "image "@ + image_name@ + " to "@ + scale@, None)],
            Message::Error(description) => seq![(indented("Error"@), Some(Tint::Red)), (" "@ + description@, None)],
            Message::Done { message } => match message {
                Some(m) => seq![(indented("Done"@), Some(Tint::Green)), (" "@ + m@, None)],
                None => seq![(indented("Done"@), Some(Tint::Green))],
            },
        }
    }

    fn render(&self) -> (r: Vec<Segment>) {
        let mut out: Vec<Segment> = Vec::new();
        match self {
            Message::FetchingImage(image_name, scale) => {
                push_segment(&mut out, "Fetching", Tint::Cyan);
                let mut t: Vec<char> = Vec::new();
                push_text(&mut t, " ");
                push_text(&mut t, "download url for image ");
                push_text(&mut t, image_name.as_str());
                push_text(&mut t, " for ");
                push_text(&mut t, scale.as_str());
                assert(t@ =~= " "@ + "download url for image "@ + image_name@ + " for "@ + scale@);
                let seg = Segment::plain(&t);
                let ghost before = segments_view(out@);
                out.push(seg);
                assert(segments_view(out@) =~= before.push(seg@));
                assert(segments_view(out@) =~= self.rendered());
            },
            Message::DownloadingImage(image_name, scale) => {
                push_segment(&mut out, "Downloading", Tint::Cyan);
                let mut t: Vec<char> = Vec::new();
                push_text(&mut t, " ");
                push_text(&mut t, "image ");
                push_text(&mut t, image_name.as_str());
                push_text(&mut t, " for ");
                push_text(&mut t, scale.as_str());
                assert(t@ =~= " "@ + "image "@ + image_name@ + " for "@ + scale@);
                let seg = Segment::plain(&t);
                let ghost before = segments_view(out@);
                out.push(seg);
                assert(segments_view(out@) =~= before.push(seg@));
                assert(segments_view(out@) =~= self.rendered());
            },
            Message::ConvertingToWebp(image_name, scale) => {
                push_segment(&mut out, "Converting", Tint::Cyan);
                let mut t: Vec<char> = Vec::new();
                push_text(&mut t, " ");
                push_text(&mut t, "to WEBP image ");
                push_text(&mut t, image_name.as_str());
                push_text(&mut t, " for ");
                push_text(&mut t, scale.as_str());
                push_text(&mut t, "...");
                assert(t@ =~= " "@ + "to WEBP image "@ + image_name@ + " for "@ + scale@ + "..."@);
                let seg = Segment::plain(&t);
                let ghost before = segments_view(out@);
                out.push(seg);
                assert(segments_view(out@) =~= before.push(seg@));
                assert(segments_view(out@) =~= self.rendered());
            },
            Message::ConvertedToWebp(image_name, scale) => {
                push_segment(&mut out, "Converted", Tint::Green);
                let mut t: Vec<char> = Vec::new();
                push_text(&mut t, " ");
                push_text(&mut t, "to WEBP image ");
                push_text(&mut t, image_name.as_str());
                push_text(&mut t, " for ");
                push_text(&mut t, scale.as_str());
                assert(t@ =~= " "@ + "to WEBP image "@ + image_name@ + " for "@ + scale@);
                let seg = Segment::plain(&t);
                let ghost before = segments_view(out@);
                out.push(seg);
                assert(segments_view(out@) =~= before.push(seg@));
                assert(segments_view(out@) =~= self.rendered());
            },
            Message::ImageExported(image_name, scale) => {
                push_segment(&mut out, "Exported", Tint::Green);
                let mut t: Vec<char> = Vec::new();
                push_text(&mut t, " ");
                push_text(&mut t, "image ");
                push_text(&mut t, image_name.as_str());
                push_text(&mut t, " to ");
                push_text(&mut t, scale.as_str());
                assert(t@ =~= " "@ + "image "@ + image_name@ + " to "@ + scale@);
                let seg = Segment::plain(&t);
                let ghost before = segments_view(out@);
                out.push(seg);
                assert(segments_view(out@) =~= before.push(seg@));
                assert(segments_view(out@) =~= self.rendered());
            },
            Message::Error(description) => {
                push_segment(&mut out, "Error", Tint::Red);
                let mut t: Vec<char> = Vec::new();
                push_text(&mut t, " ");
                push_text(&mut t, description.as_str());
                assert(t@ =~= " "@ + description@);
                let seg = Segment::plain(&t);
                let ghost before = segments_view(out@);
                out.push(seg);
                assert(segments_view(out@) =~= before.push(seg@));
                assert(segments_view(out@) =~= self.rendered());
            },
            Message::Done { message } => {
                push_segment(&mut out, "Done", Tint::Green);
                if let Some(m) = message {
                    let mut t: Vec<char> = Vec::new();
                    push_text(&mut t, " ");
                    push_text(&mut t, m.as_str());
                    assert(t@ =~= " "@ + m@);
                    let seg = Segment::plain(&t);
                    let ghost before = segments_view(out@);
                    out.push(seg);
                    assert(segments_view(out@) =~= before.push(seg@));
                }
                assert(segments_view(out@) =~= self.rendered());
            },
        }
        out
    }
}

} // verus!
