//! Progress messages of the icon export.
use vstd::prelude::*;

use crate::renderer::indented;
use crate::renderer::push_segment;
use crate::renderer::segments_view;
use crate::renderer::Renderable;
use crate::renderer::Segment;
use crate::renderer::Tint;
use crate::text::push_text;

verus! {

/// A progress message.
pub enum Message {
    FetchingIcon(String, String),
    DownloadingIcon(String, String),
    IconDownloaded(String, String),
    ConvertingToXml(String, String),
    ConvertedToXml(String, String),
    IconExported(String, String),
    Error(String),
    Done { message: Option<String> },
}

impl Renderable for Message {
    open spec fn rendered(&self) -> Seq<(Seq<char>, Option<Tint>)> {
        match self {
            Message::FetchingIcon(image_name, dir_name) => seq![(indented("Fetching"@), Some(Tint::Cyan)), (" "@ + "download url for icon "@ + image_name@ + " ("@ + dir_name@ + ")"@, None)],
            Message::DownloadingIcon(image_name, dir_name) => seq![(indented("Downloading"@), Some(Tint::Cyan)), (" "@ + "icon "@ + image_name@ + " ("@ + dir_name@ + ")"@, None)],
            Message::IconDownloaded(image_name, dir_name) => seq![(indented("Downloaded"@), Some(Tint::Green)), (" "@ + "icon "@ + image_name@ + " ("@ + dir_name@ + ")"@, None)],
            Message::ConvertingToXml(image_name, dir_name) => seq![(indented("Converting"@), Some(Tint::Cyan)), (" "@ + "to Android Drawable XML image "@ + image_name@ + " ("@ + dir_name@ + ")"@, None)],
            Message::ConvertedToXml(image_name, dir_name) => seq![(indented("Converted"@), Some(Tint::Green)), (" "@ + "to Android Drawable XML image "@ + image_name@ + " ("@ + dir_name@ + ")"@, None)],
            Message::IconExported(image_name, dir_name) => seq![(indented("Exported"@), Some(Tint::Green)), (" "@ + "icon "@ + image_name@ + " ("@ + dir_name@ + ")"@, None)],
            Message::Error(description) => seq![(indented("Error"@), Some(Tint::Red)), (" "@ + description@, None)],
            Message::Done { message } => match message {
                Some(m) => seq![(indented("Done"@), Some(Tint::Green)), (" "@ + m@, None)],
                None => seq![(indented("Done"@), Some(Tint::Green))],
            },
        }
    }

    fn render(&self) -> (r: Vec<Segment>) {
        let mut out: Vec<Segment> = Vec::new();
        match self {
            Message::FetchingIcon(image_name, dir_name) => {
                push_segment(&mut out, "Fetching", Tint::Cyan);
                let mut t: Vec<char> = Vec::new();
                push_text(&mut t, " ");
                push_text(&mut t, "download url for icon ");
                push_text(&mut t, image_name.as_str());
                push_text(&mut t, " (");
                push_text(&mut t, dir_name.as_str());
                push_text(&mut t, ")");
                assert(t@ =~= " "@ + "download url for icon "@ + image_name@ + " ("@ + dir_name@ + ")"@);
                let seg = Segment::plain(&t);
                let ghost before = segments_view(out@);
                out.push(seg);
                assert(segments_view(out@) =~= before.push(seg@));
                assert(segments_view(out@) =~= self.rendered());
            },
            Message::DownloadingIcon(image_name, dir_name) => {
                push_segment(&mut out, "Downloading", Tint::Cyan);
                let mut t: Vec<char> = Vec::new();
                push_text(&mut t, " ");
                push_text(&mut t, "icon ");
                push_text(&mut t, image_name.as_str());
                push_text(&mut t, " (");
                push_text(&mut t, dir_name.as_str());
                push_text(&mut t, ")");
                assert(t@ =~= " "@ + "icon "@ + image_name@ + " ("@ + dir_name@ + ")"@);
                let seg = Segment::plain(&t);
                let ghost before = segments_view(out@);
                out.push(seg);
                assert(segments_view(out@) =~= before.push(seg@));
                assert(segments_view(out@) =~= self.rendered());
            },
            Message::IconDownloaded(image_name, dir_name) => {
                push_segment(&mut out, "Downloaded", Tint::Green);
                let mut t: Vec<char> = Vec::new();
                push_text(&mut t, " ");
                push_text(&mut t, "icon ");
                push_text(&mut t, image_name.as_str());
                push_text(&mut t, " (");
                push_text(&mut t, dir_name.as_str());
                push_text(&mut t, ")");
                assert(t@ =~= " "@ + "icon "@ + image_name@ + " ("@ + dir_name@ + ")"@);
                let seg = Segment::plain(&t);
                let ghost before = segments_view(out@);
                out.push(seg);
                assert(segments_view(out@) =~= before.push(seg@));
                assert(segments_view(out@) =~= self.rendered());
            },
            Message::ConvertingToXml(image_name, dir_name) => {
                push_segment(&mut out, "Converting", Tint::Cyan);
                let mut t: Vec<char> = Vec::new();
                push_text(&mut t, " ");
                push_text(&mut t, "to Android Drawable XML image ");
                push_text(&mut t, image_name.as_str());
                push_text(&mut t, " (");
                push_text(&mut t, dir_name.as_str());
                push_text(&mut t, ")");
                assert(t@ =~= " "@ + "to Android Drawable XML image "@ + image_name@ + " ("@ + dir_name@ + ")"@);
                let seg = Segment::plain(&t);
                let ghost before = segments_view(out@);
                out.push(seg);
                assert(segments_view(out@) =~= before.push(seg@));
                assert(segments_view(out@) =~= self.rendered());
            },
            Message::ConvertedToXml(image_name, dir_name) => {
                push_segment(&mut out, "Converted", Tint::Green);
                let mut t: Vec<char> = Vec::new();
                push_text(&mut t, " ");
                push_text(&mut t, "to Android Drawable XML image ");
                push_text(&mut t, image_name.as_str());
                push_text(&mut t, " (");
                push_text(&mut t, dir_name.as_str());
                push_text(&mut t, ")");
                assert(t@ =~= " "@ + "to Android Drawable XML image "@ + image_name@ + " ("@ + dir_name@ + ")"@);
                let seg = Segment::plain(&t);
                let ghost before = segments_view(out@);
                out.push(seg);
                assert(segments_view(out@) =~= before.push(seg@));
                assert(segments_view(out@) =~= self.rendered());
            },
            Message::IconExported(image_name, dir_name) => {
                push_segment(&mut out, "Exported", Tint::Green);
                let mut t: Vec<char> = Vec::new();
                push_text(&mut t, " ");
                push_text(&mut t, "icon ");
                push_text(&mut t, image_name.as_str());
                push_text(&mut t, " (");
                push_text(&mut t, dir_name.as_str());
                push_text(&mut t, ")");
                assert(t@ =~= " "@ + "icon "@ + image_name@ + " ("@ + dir_name@ + ")"@);
                let seg = Segment::plain(&t);
                let ghost before = segments_view(out@);
                out.push(seg);
                assert(segments_view(out@) =~= before.push(seg@));
                assert(segments_view(out@) =~= self.rendered());
            },
            Message::Error(description) => {
                push_segment(&mut out, "Error", Tint::Red);
                let mut t: Vec<char> = Vec::new();
                push_text(&mut t, " ");
                push_text(&mut t, description.as_str());
                assert(t@ =~= " "@ + description@);
                let seg = Segment::plain(&t);
                let ghost before = segments_view(out@);
                out.push(seg);
                assert(segments_view(out@) =~= before.push(seg@));
                assert(segments_view(out@) =~= self.rendered());
            },
            Message::Done { message } => {
                push_segment(&mut out, "Done", Tint::Green);
                if let Some(m) = message {
                    let mut t: Vec<char> = Vec::new();
                    push_text(&mut t, " ");
                    push_text(&mut t, m.as_str());
                    assert(t@ =~= " "@ + m@);
                    let seg = Segment::plain(&t);
                    let ghost before = segments_view(out@);
                    out.push(seg);
                    assert(segments_view(out@) =~= before.push(seg@));
                }
                assert(segments_view(out@) =~= self.rendered());
            },
        }
        out
    }
}

} // verus!
