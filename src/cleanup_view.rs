//! Messages of the removal of the temporary directory.
use vstd::prelude::*;

use crate::renderer::indented;
use crate::renderer::push_segment;
use crate::renderer::segments_view;
use crate::renderer::Renderable;
use crate::renderer::Segment;
use crate::renderer::Tint;
use crate::text::push_text;

verus! {

/// A message about the cleanup.
pub enum Message {
    Error(String),
    Done,
}

impl Renderable for Message {
    open spec fn rendered(&self) -> Seq<(Seq<char>, Option<Tint>)> {
        match self {
            Message::Error(description) => seq![
                (indented("Error"@), Some(Tint::Red)),
                (" "@ + description@, None),
            ],
            Message::Done => seq![(indented("Done"@), Some(Tint::Green))],
        }
    }

    fn render(&self) -> (r: Vec<Segment>) {
        let mut out: Vec<Segment> = Vec::new();
        match self {
            Message::Error(description) => {
                push_segment(&mut out, "Error", Tint::Red);
                let mut t: Vec<char> = Vec::new();
                push_text(&mut t, " ");
                push_text(&mut t, description.as_str());
                assert(t@ =~= " "@ + description@);
                let seg = Segment::plain(&t);
                assert(seg@ == (" "@ + description@, None::<Tint>));
                let ghost before = segments_view(out@);
                out.push(seg);
                assert(segments_view(out@) =~= before.push(seg@));
                assert(segments_view(out@) =~= self.rendered());
            },
            Message::Done => {
                push_segment(&mut out, "Done", Tint::Green);
                assert(segments_view(out@) =~= self.rendered());
            },
        }
        out
    }
}

/// The message for the outcome of removing the temporary directory: done, or
/// an error with the cause.
pub fn cleanup(removal: Result<(), String>) -> (r: Message)
    ensures
        match removal {
            Ok(()) => r is Done,
            Err(cause) => r is Error && r->Error_0@ == "Can't delete temporary `.fxn` directory: "@
                + cause@,
        },
{
    match removal {
        Ok(()) => Message::Done,
        Err(e) => {
            let mut t: Vec<char> = Vec::new();
            push_text(&mut t, "Can't delete temporary `.fxn` directory: ");
            push_text(&mut t, e.as_str());
            Message::Error(crate::text::string_from_chars(&t))
        },
    }
}

} // verus!
