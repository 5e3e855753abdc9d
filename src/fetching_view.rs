//! Progress messages of reading the configuration and the figma document.
use vstd::prelude::*;

use crate::renderer::indented;
use crate::renderer::push_segment;
use crate::renderer::segments_view;
use crate::renderer::Renderable;
use crate::renderer::Segment;
use crate::renderer::Tint;
use crate::text::push_text;

verus! {

/// A progress line.
pub enum Message {
    ReadingConfig { path: String },
    ReceivedConfig { path: String },
    FetchingDom { url: String },
    DomFetched { url: String, from_cache: bool },
    ProcessingDom,
    FoundImages { frame_name: String },
}

impl Renderable for Message {
    open spec fn rendered(&self) -> Seq<(Seq<char>, Option<Tint>)> {
        match self {
            Message::ReadingConfig { path } => seq![(indented("Loading"@), Some(Tint::Cyan)), (" "@ + "config from file "@ + path@, None)],
            Message::ReceivedConfig { path } => seq![(indented("Loaded"@), Some(Tint::Green)), (" "@ + "config from file "@ + path@ + "\n"@, None)],
            Message::FetchingDom { url } => seq![(indented("Fetching"@), Some(Tint::Cyan)), (" "@ + "figma file nodes from "@ + url@, None)],
            Message::DomFetched { url, from_cache } => if *from_cache { seq![(indented("Fetched"@), Some(Tint::Green)), (" figma file nodes "@, None), ("from cache"@, Some(Tint::White)), ("\n"@, None)] } else { seq![(indented("Fetched"@), Some(Tint::Green)), (" figma file nodes from "@ + url@ + "\n"@, None)] },
            Message::ProcessingDom => seq![(indented("Processing"@), Some(Tint::Cyan)), (" "@ + "figma file nodes..."@, None)],
            Message::FoundImages { frame_name } => seq![(indented("Found"@), Some(Tint::Green)), (" "@ + "figma frame `"@ + frame_name@ + "` with images\n"@, None)],
        }
    }

    fn render(&self) -> (r: Vec<Segment>) {
        let mut out: Vec<Segment> = Vec::new();
        match self {
            Message::ReadingConfig { path } => {
                push_segment(&mut out, "Loading", Tint::Cyan);
                let mut t: Vec<char> = Vec::new();
                push_text(&mut t, " ");
                push_text(&mut t, "config from file ");
                push_text(&mut t, path.as_str());
                assert(t@ =~= " "@ + "config from file "@ + path@);
                let seg = Segment::plain(&t);
                let ghost before = segments_view(out@);
                out.push(seg);
                assert(segments_view(out@) =~= before.push(seg@));
                assert(segments_view(out@) =~= self.rendered());
            },
            Message::ReceivedConfig { path } => {
                push_segment(&mut out, "Loaded", Tint::Green);
                let mut t: Vec<char> = Vec::new();
                push_text(&mut t, " ");
                push_text(&mut t, "config from file ");
                push_text(&mut t, path.as_str());
                push_text(&mut t, "\n");
                assert(t@ =~= " "@ + "config from file "@ + path@ + "\n"@);
                let seg = Segment::plain(&t);
                let ghost before = segments_view(out@);
                out.push(seg);
                assert(segments_view(out@) =~= before.push(seg@));
                assert(segments_view(out@) =~= self.rendered());
            },
            Message::FetchingDom { url } => {
                push_segment(&mut out, "Fetching", Tint::Cyan);
                let mut t: Vec<char> = Vec::new();
                push_text(&mut t, " ");
                push_text(&mut t, "figma file nodes from ");
                push_text(&mut t, url.as_str());
                assert(t@ =~= " "@ + "figma file nodes from "@ + url@);
                let seg = Segment::plain(&t);
                let ghost before = segments_view(out@);
                out.push(seg);
                assert(segments_view(out@) =~= before.push(seg@));
                assert(segments_view(out@) =~= self.rendered());
            },
            Message::DomFetched { url, from_cache } => {
                push_segment(&mut out, "Fetched", Tint::Green);
                if *from_cache {
                    let mut t: Vec<char> = Vec::new();
                    push_text(&mut t, " figma file nodes ");
                    let a = Segment::plain(&t);
                    let mut u: Vec<char> = Vec::new();
                    push_text(&mut u, "from cache");
                    let b = Segment { text: crate::text::string_from_chars(&u), tint: Some(Tint::White) };
                    let mut w: Vec<char> = Vec::new();
                    push_text(&mut w, "\n");
                    let c = Segment::plain(&w);
                    let ghost before = segments_view(out@);
                    out.push(a);
                    out.push(b);
                    out.push(c);
                    assert(segments_view(out@) =~= before.push(a@).push(b@).push(c@));
                } else {
                    let mut t: Vec<char> = Vec::new();
                    push_text(&mut t, " figma file nodes from ");
                    push_text(&mut t, url.as_str());
                    push_text(&mut t, "\n");
                    assert(t@ =~= " figma file nodes from "@ + url@ + "\n"@);
                    let seg = Segment::plain(&t);
                    let ghost before = segments_view(out@);
                    out.push(seg);
                    assert(segments_view(out@) =~= before.push(seg@));
                }
                assert(segments_view(out@) =~= self.rendered());
            },
            Message::ProcessingDom => {
                push_segment(&mut out, "Processing", Tint::Cyan);
                let mut t: Vec<char> = Vec::new();
                push_text(&mut t, " ");
                push_text(&mut t, "figma file nodes...");
                assert(t@ =~= " "@ + "figma file nodes..."@);
                let seg = Segment::plain(&t);
                let ghost before = segments_view(out@);
                out.push(seg);
                assert(segments_view(out@) =~= before.push(seg@));
                assert(segments_view(out@) =~= self.rendered());
            },
            Message::FoundImages { frame_name } => {
                push_segment(&mut out, "Found", Tint::Green);
                let mut t: Vec<char> = Vec::new();
                push_text(&mut t, " ");
                push_text(&mut t, "figma frame `");
                push_text(&mut t, frame_name.as_str());
                push_text(&mut t, "` with images\n");
                assert(t@ =~= " "@ + "figma frame `"@ + frame_name@ + "` with images\n"@);
                let seg = Segment::plain(&t);
                let ghost before = segments_view(out@);
                out.push(seg);
                assert(segments_view(out@) =~= before.push(seg@));
                assert(segments_view(out@) =~= self.rendered());
            },
        }
        out
    }
}

} // verus!
