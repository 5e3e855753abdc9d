//! Messages of the creation of a default configuration.
use vstd::prelude::*;

use crate::renderer::indented;
use crate::renderer::push_segment;
use crate::renderer::segments_view;
use crate::renderer::Renderable;
use crate::renderer::Segment;
use crate::renderer::Tint;
use crate::text::push_text;

verus! {

/// A progress message.
pub enum Message {
    Error(String),
    Created(String),
}

impl Renderable for Message {
    open spec fn rendered(&self) -> Seq<(Seq<char>, Option<Tint>)> {
        match self {
            Message::Error(description) => seq![(indented("Error"@), Some(Tint::Red)), (" "@ + description@, None)],
            Message::Created(file_name) => seq![(indented("Created"@), Some(Tint::Green)), (" "@ + "config file "@ + file_name@, None)],
        }
    }

    fn render(&self) -> (r: Vec<Segment>) {
        let mut out: Vec<Segment> = Vec::new();
        match self {
            Message::Error(description) => {
                push_segment(&mut out, "Error", Tint::Red);
                let mut t: Vec<char> = Vec::new();
                push_text(&mut t, " ");
                push_text(&mut t, description.as_str());
                assert(t@ =~= " "@ + description@);
                let seg = Segment::plain(&t);
                let ghost before = segments_view(out@);
                out.push(seg);
                assert(segments_view(out@) =~= before.push(seg@));
                assert(segments_view(out@) =~= self.rendered());
            },
            Message::Created(file_name) => {
                push_segment(&mut out, "Created", Tint::Green);
                let mut t: Vec<char> = Vec::new();
                push_text(&mut t, " ");
                push_text(&mut t, "config file ");
                push_text(&mut t, file_name.as_str());
                assert(t@ =~= " "@ + "config file "@ + file_name@);
                let seg = Segment::plain(&t);
                let ghost before = segments_view(out@);
                out.push(seg);
                assert(segments_view(out@) =~= before.push(seg@));
                assert(segments_view(out@) =~= self.rendered());
            },
        }
        out
    }
}

} // verus!
