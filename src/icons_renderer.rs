//! Progress lines of the icon export, one per step.
use vstd::prelude::*;

use crate::renderer::indented;
use crate::renderer::push_segment;
use crate::renderer::segments_view;
use crate::renderer::Renderable;
use crate::renderer::Segment;
use crate::renderer::Tint;
use crate::text::push_text;

verus! {

/// A progress line.
pub enum Message {
    ReadingConfig { path: String },
    ReceivedConfig { path: String },
    FetchingDom { url: String },
    DomFetched { url: String, from_cache: bool },
    ProcessingDom,
    FoundIcons(String),
    FetchingIcon(String),
    DownloadingIcon(String),
    IconDownloaded(String),
    IconExported(String),
    Error { description: String },
    Done { message: Option<String> },
}

impl Renderable for Message {
    open spec fn rendered(&self) -> Seq<(Seq<char>, Option<Tint>)> {
        match self {
            Message::ReadingConfig { path } => seq![(indented("Loading"@), Some(Tint::Cyan)), (" "@ + "config from file "@ + path@ + "\n"@, None)],
            Message::ReceivedConfig { path } => seq![(indented("Loaded"@), Some(Tint::Green)), (" "@ + "config from file "@ + path@ + "\n"@, None)],
            Message::FetchingDom { url } => seq![(indented("Fetching"@), Some(Tint::Cyan)), (" "@ + "figma file nodes from "@ + url@ + "\n"@, None)],
            Message::DomFetched { url, from_cache } => seq![(indented("Fetched"@), Some(Tint::Green)), (" figma file nodes from "@ + (if *from_cache { "cache"@ } else { url@ }) + "\n"@, None)],
            Message::ProcessingDom => seq![(indented("Processing"@), Some(Tint::Cyan)), (" "@ + "figma file nodes...\n"@, None)],
            Message::FoundIcons(frame_name) => seq![(indented("Found"@), Some(Tint::Green)), (" "@ + "figma frame `"@ + frame_name@ + "` with icons\n"@, None)],
            Message::FetchingIcon(image_name) => seq![(indented("Fetching"@), Some(Tint::Cyan)), (" "@ + "download url for icon "@ + image_name@ + "\n"@, None)],
            Message::DownloadingIcon(image_name) => seq![(indented("Downloading"@), Some(Tint::Cyan)), (" "@ + "icon "@ + image_name@ + "\n"@, None)],
            Message::IconDownloaded(image_name) => seq![(indented("Downloaded"@), Some(Tint::Green)), (" "@ + "icon "@ + image_name@ + "\n"@, None)],
            Message::IconExported(image_name) => seq![(indented("Exported"@), Some(Tint::Green)), (" "@ + "icon "@ + image_name@ + "\n"@, None)],
            Message::Error { description } => seq![(indented("Error"@), Some(Tint::Red)), (" "@ + description@ + "\n"@, None)],
            Message::Done { message } => match message { Some(m) => seq![(indented("Done"@), Some(Tint::Green)), (" "@ + m@ + "\n"@, None)], None => seq![(indented("Done"@), Some(Tint::Green)), ("\n"@, None)] },
        }
    }

    fn render(&self) -> (r: Vec<Segment>) {
        let mut out: Vec<Segment> = Vec::new();
        match self {
            Message::ReadingConfig { path } => {
                push_segment(&mut out, "Loading", Tint::Cyan);
                let mut t: Vec<char> = Vec::new();
                push_text(&mut t, " ");
                push_text(&mut t, "config from file ");
                push_text(&mut t, path.as_str());
                push_text(&mut t, "\n");
                assert(t@ =~= " "@ + "config from file "@ + path@ + "\n"@);
                let seg = Segment::plain(&t);
                let ghost before = segments_view(out@);
                out.push(seg);
                assert(segments_view(out@) =~= before.push(seg@));
                assert(segments_view(out@) =~= self.rendered());
            },
            Message::ReceivedConfig { path } => {
                push_segment(&mut out, "Loaded", Tint::Green);
                let mut t: Vec<char> = Vec::new();
                push_text(&mut t, " ");
                push_text(&mut t, "config from file ");
                push_text(&mut t, path.as_str());
                push_text(&mut t, "\n");
                assert(t@ =~= " "@ + "config from file "@ + path@ + "\n"@);
                let seg = Segment::plain(&t);
                let ghost before = segments_view(out@);
                out.push(seg);
                assert(segments_view(out@) =~= before.push(seg@));
                assert(segments_view(out@) =~= self.rendered());
            },
            Message::FetchingDom { url } => {
                push_segment(&mut out, "Fetching", Tint::Cyan);
                let mut t: Vec<char> = Vec::new();
                push_text(&mut t, " ");
                push_text(&mut t, "figma file nodes from ");
                push_text(&mut t, url.as_str());
                push_text(&mut t, "\n");
                assert(t@ =~= " "@ + "figma file nodes from "@ + url@ + "\n"@);
                let seg = Segment::plain(&t);
                let ghost before = segments_view(out@);
                out.push(seg);
                assert(segments_view(out@) =~= before.push(seg@));
                assert(segments_view(out@) =~= self.rendered());
            },
            Message::DomFetched { url, from_cache } => {
                push_segment(&mut out, "Fetched", Tint::Green);
                let mut t: Vec<char> = Vec::new();
                push_text(&mut t, " figma file nodes from ");
                if *from_cache {
                    push_text(&mut t, "cache");
                } else {
                    push_text(&mut t, url.as_str());
                }
                push_text(&mut t, "\n");
                assert(t@ =~= " figma file nodes from "@ + (if *from_cache { "cache"@ } else { url@ }) + "\n"@);
                let seg = Segment::plain(&t);
                let ghost before = segments_view(out@);
                out.push(seg);
                assert(segments_view(out@) =~= before.push(seg@));
                assert(segments_view(out@) =~= self.rendered());
            },
            Message::ProcessingDom => {
                push_segment(&mut out, "Processing", Tint::Cyan);
                let mut t: Vec<char> = Vec::new();
                push_text(&mut t, " ");
                push_text(&mut t, "figma file nodes...\n");
                assert(t@ =~= " "@ + "figma file nodes...\n"@);
                let seg = Segment::plain(&t);
                let ghost before = segments_view(out@);
                out.push(seg);
                assert(segments_view(out@) =~= before.push(seg@));
                assert(segments_view(out@) =~= self.rendered());
            },
            Message::FoundIcons(frame_name) => {
                push_segment(&mut out, "Found", Tint::Green);
                let mut t: Vec<char> = Vec::new();
                push_text(&mut t, " ");
                push_text(&mut t, "figma frame `");
                push_text(&mut t, frame_name.as_str());
                push_text(&mut t, "` with icons\n");
                assert(t@ =~= " "@ + "figma frame `"@ + frame_name@ + "` with icons\n"@);
                let seg = Segment::plain(&t);
                let ghost before = segments_view(out@);
                out.push(seg);
                assert(segments_view(out@) =~= before.push(seg@));
                assert(segments_view(out@) =~= self.rendered());
            },
            Message::FetchingIcon(image_name) => {
                push_segment(&mut out, "Fetching", Tint::Cyan);
                let mut t: Vec<char> = Vec::new();
                push_text(&mut t, " ");
                push_text(&mut t, "download url for icon ");
                push_text(&mut t, image_name.as_str());
                push_text(&mut t, "\n");
                assert(t@ =~= " "@ + "download url for icon "@ + image_name@ + "\n"@);
                let seg = Segment::plain(&t);
                let ghost before = segments_view(out@);
                out.push(seg);
                assert(segments_view(out@) =~= before.push(seg@));
                assert(segments_view(out@) =~= self.rendered());
            },
            Message::DownloadingIcon(image_name) => {
                push_segment(&mut out, "Downloading", Tint::Cyan);
                let mut t: Vec<char> = Vec::new();
                push_text(&mut t, " ");
                push_text(&mut t, "icon ");
                push_text(&mut t, image_name.as_str());
                push_text(&mut t, "\n");
                assert(t@ =~= " "@ + "icon "@ + image_name@ + "\n"@);
                let seg = Segment::plain(&t);
                let ghost before = segments_view(out@);
                out.push(seg);
                assert(segments_view(out@) =~= before.push(seg@));
                assert(segments_view(out@) =~= self.rendered());
            },
            Message::IconDownloaded(image_name) => {
                push_segment(&mut out, "Downloaded", Tint::Green);
                let mut t: Vec<char> = Vec::new();
                push_text(&mut t, " ");
                push_text(&mut t, "icon ");
                push_text(&mut t, image_name.as_str());
                push_text(&mut t, "\n");
                assert(t@ =~= " "@ + "icon "@ + image_name@ + "\n"@);
                let seg = Segment::plain(&t);
                let ghost before = segments_view(out@);
                out.push(seg);
                assert(segments_view(out@) =~= before.push(seg@));
                assert(segments_view(out@) =~= self.rendered());
            },
            Message::IconExported(image_name) => {
                push_segment(&mut out, "Exported", Tint::Green);
                let mut t: Vec<char> = Vec::new();
                push_text(&mut t, " ");
                push_text(&mut t, "icon ");
                push_text(&mut t, image_name.as_str());
                push_text(&mut t, "\n");
                assert(t@ =~= " "@ + "icon "@ + image_name@ + "\n"@);
                let seg = Segment::plain(&t);
                let ghost before = segments_view(out@);
                out.push(seg);
                assert(segments_view(out@) =~= before.push(seg@));
                assert(segments_view(out@) =~= self.rendered());
            },
            Message::Error { description } => {
                push_segment(&mut out, "Error", Tint::Red);
                let mut t: Vec<char> = Vec::new();
                push_text(&mut t, " ");
                push_text(&mut t, description.as_str());
                push_text(&mut t, "\n");
                assert(t@ =~= " "@ + description@ + "\n"@);
                let seg = Segment::plain(&t);
                let ghost before = segments_view(out@);
                out.push(seg);
                assert(segments_view(out@) =~= before.push(seg@));
                assert(segments_view(out@) =~= self.rendered());
            },
            Message::Done { message } => {
                push_segment(&mut out, "Done", Tint::Green);
                let mut t: Vec<char> = Vec::new();
                match message {
                    Some(m) => {
                        push_text(&mut t, " ");
                        push_text(&mut t, m.as_str());
                        push_text(&mut t, "\n");
                    },
                    None => {
                        push_text(&mut t, "\n");
                    },
                }
                assert(t@ =~= (match message { Some(m) => " "@ + m@ + "\n"@, None => "\n"@ }));
                let seg = Segment::plain(&t);
                let ghost before = segments_view(out@);
                out.push(seg);
                assert(segments_view(out@) =~= before.push(seg@));
                assert(segments_view(out@) =~= self.rendered());
            },
        }
        out
    }
}

/// Composes the progress lines of the icon export.
pub struct FeatureIconsRenderer;

impl FeatureIconsRenderer {
    pub fn new() -> (r: Self) {
        FeatureIconsRenderer
    }

    /// The segments of the line that shows `view`.
    pub fn render(&self, view: &Message) -> (r: Vec<Segment>)
        ensures
            segments_view(r@) == view.rendered(),
    {
        view.render()
    }
}

} // verus!
