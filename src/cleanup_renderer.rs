//! Result lines of the cleanup command.
use vstd::prelude::*;

use crate::renderer::indented;
use crate::renderer::push_segment;
use crate::renderer::segments_view;
use crate::renderer::Renderable;
use crate::renderer::Segment;
use crate::renderer::Tint;
use crate::text::push_text;

verus! {

/// A progress line.
pub enum Message {
    Error { description: String },
    Done { message: String },
}

impl Renderable for Message {
    open spec fn rendered(&self) -> Seq<(Seq<char>, Option<Tint>)> {
        match self {
            Message::Error { description } => seq![(indented("Error"@), Some(Tint::Red)), (" "@ + description@ + "\n"@, None)],
            Message::Done { message } => seq![(indented("Done"@), Some(Tint::Green)), (" "@ + message@ + "\n"@, None)],
        }
    }

    fn render(&self) -> (r: Vec<Segment>) {
        let mut out: Vec<Segment> = Vec::new();
        match self {
            Message::Error { description } => {
                push_segment(&mut out, "Error", Tint::Red);
                let mut t: Vec<char> = Vec::new();
                push_text(&mut t, " ");
                push_text(&mut t, description.as_str());
                push_text(&mut t, "\n");
                assert(t@ =~= " "@ + description@ + "\n"@);
                let seg = Segment::plain(&t);
                let ghost before = segments_view(out@);
                out.push(seg);
                assert(segments_view(out@) =~= before.push(seg@));
                assert(segments_view(out@) =~= self.rendered());
            },
            Message::Done { message } => {
                push_segment(&mut out, "Done", Tint::Green);
                let mut t: Vec<char> = Vec::new();
                push_text(&mut t, " ");
                push_text(&mut t, message.as_str());
                push_text(&mut t, "\n");
                assert(t@ =~= " "@ + message@ + "\n"@);
                let seg = Segment::plain(&t);
                let ghost before = segments_view(out@);
                out.push(seg);
                assert(segments_view(out@) =~= before.push(seg@));
                assert(segments_view(out@) =~= self.rendered());
            },
        }
        out
    }
}

/// Composes the result line of the cleanup command.
pub struct FeatureCleanupRenderer;

impl FeatureCleanupRenderer {
    pub fn new() -> (r: Self) {
        FeatureCleanupRenderer
    }

    /// The segments of the line that shows `view`.
    pub fn render_internal(&self, view: &Message) -> (r: Vec<Segment>)
        ensures
            segments_view(r@) == view.rendered(),
    {
        view.render()
    }
}

} // verus!
