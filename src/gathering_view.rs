//! Messages of matching the requested names against the names in the frame.
use vstd::prelude::*;

use crate::renderer::indented;
use crate::renderer::push_segment;
use crate::renderer::segments_view;
use crate::renderer::Renderable;
use crate::renderer::Segment;
use crate::renderer::Tint;
use crate::renderer::spaces;
use crate::renderer::Indentable;
use crate::text::push_text;

verus! {

/// A progress line.
pub enum Message {
    GatheringStarted,
    FoundSimple(String),
    FoundThemed(String),
    NotFound(String, String),
    NotFoundButSuggestions(String, String, Vec<String>),
}

impl Renderable for Message {
    open spec fn rendered(&self) -> Seq<(Seq<char>, Option<Tint>)> {
        match self {
            Message::GatheringStarted => seq![(indented("Gathering"@), Some(Tint::Green)), (" "@ + "resource names...\n"@, None)],
            Message::FoundSimple(name) => seq![(indented("Found"@), Some(Tint::Green)), (" "@ + "resource with name `"@ + name@ + "`\n"@, None)],
            Message::FoundThemed(name) => seq![(indented("Found"@), Some(Tint::Green)), (" "@ + "resource with name `"@ + name@ + "` for light and dark theme\n"@, None)],
            Message::NotFound(resource_name, frame_name) => seq![(indented("Error"@), Some(Tint::Red)), (" "@ + "A resource with name `"@ + resource_name@ + "` is missing in frame `"@ + frame_name@ + "`\n"@, None)],
            Message::NotFoundButSuggestions(resource_name, frame_name, suggestions) => seq![(indented("Missing"@), Some(Tint::Red)), (" resource with name `"@ + resource_name@ + "` in frame `"@ + frame_name@ + "`,\n "@ + indented(Seq::empty()) + "but there are resources with similar names:\n"@ + suggestions_text(names_view(suggestions@), suggestions@.len()) + "\n"@, None)],
        }
    }

    fn render(&self) -> (r: Vec<Segment>) {
        let mut out: Vec<Segment> = Vec::new();
        match self {
            Message::GatheringStarted => {
                push_segment(&mut out, "Gathering", Tint::Green);
                let mut t: Vec<char> = Vec::new();
                push_text(&mut t, " ");
                push_text(&mut t, "resource names...\n");
                assert(t@ =~= " "@ + "resource names...\n"@);
                let seg = Segment::plain(&t);
                let ghost before = segments_view(out@);
                out.push(seg);
                assert(segments_view(out@) =~= before.push(seg@));
                assert(segments_view(out@) =~= self.rendered());
            },
            Message::FoundSimple(name) => {
                push_segment(&mut out, "Found", Tint::Green);
                let mut t: Vec<char> = Vec::new();
                push_text(&mut t, " ");
                push_text(&mut t, "resource with name `");
                push_text(&mut t, name.as_str());
                push_text(&mut t, "`\n");
                assert(t@ =~= " "@ + "resource with name `"@ + name@ + "`\n"@);
                let seg = Segment::plain(&t);
                let ghost before = segments_view(out@);
                out.push(seg);
                assert(segments_view(out@) =~= before.push(seg@));
                assert(segments_view(out@) =~= self.rendered());
            },
            Message::FoundThemed(name) => {
                push_segment(&mut out, "Found", Tint::Green);
                let mut t: Vec<char> = Vec::new();
                push_text(&mut t, " ");
                push_text(&mut t, "resource with name `");
                push_text(&mut t, name.as_str());
                push_text(&mut t, "` for light and dark theme\n");
                assert(t@ =~= " "@ + "resource with name `"@ + name@ + "` for light and dark theme\n"@);
                let seg = Segment::plain(&t);
                let ghost before = segments_view(out@);
                out.push(seg);
                assert(segments_view(out@) =~= before.push(seg@));
                assert(segments_view(out@) =~= self.rendered());
            },
            Message::NotFound(resource_name, frame_name) => {
                push_segment(&mut out, "Error", Tint::Red);
                let mut t: Vec<char> = Vec::new();
                push_text(&mut t, " ");
                push_text(&mut t, "A resource with name `");
                push_text(&mut t, resource_name.as_str());
                push_text(&mut t, "` is missing in frame `");
                push_text(&mut t, frame_name.as_str());
                push_text(&mut t, "`\n");
                assert(t@ =~= " "@ + "A resource with name `"@ + resource_name@ + "` is missing in frame `"@ + frame_name@ + "`\n"@);
                let seg = Segment::plain(&t);
                let ghost before = segments_view(out@);
                out.push(seg);
                assert(segments_view(out@) =~= before.push(seg@));
                assert(segments_view(out@) =~= self.rendered());
            },
            Message::NotFoundButSuggestions(resource_name, frame_name, suggestions) => {
                push_segment(&mut out, "Missing", Tint::Red);
                let mut t: Vec<char> = Vec::new();
                push_text(&mut t, " resource with name `");
                push_text(&mut t, resource_name.as_str());
                push_text(&mut t, "` in frame `");
                push_text(&mut t, frame_name.as_str());
                push_text(&mut t, "`,\n ");
                let pad = "".indent();
                proof {
                    reveal_strlit("");
                    assert(""@ =~= Seq::<char>::empty());
                }
                push_text(&mut t, pad.as_str());
                push_text(&mut t, "but there are resources with similar names:\n");
                push_suggestions(&mut t, suggestions);
                push_text(&mut t, "\n");
                assert(t@ =~= " resource with name `"@ + resource_name@ + "` in frame `"@ + frame_name@ + "`,\n "@ + indented(Seq::empty()) + "but there are resources with similar names:\n"@ + suggestions_text(names_view(suggestions@), suggestions@.len()) + "\n"@);
                let seg = Segment::plain(&t);
                let ghost before = segments_view(out@);
                out.push(seg);
                assert(segments_view(out@) =~= before.push(seg@));
                assert(segments_view(out@) =~= self.rendered());
            },
        }
        out
    }
}

pub open spec fn names_view(v: Seq<String>) -> Seq<Seq<char>> {
    v.map_values(|s: String| s@)
}

/// The first `k` suggested names, one per line, each indented and quoted.
pub open spec fn suggestions_text(ss: Seq<Seq<char>>, k: nat) -> Seq<char>
    decreases k,
{
    if k == 0 || k > ss.len() {
        Seq::empty()
    } else {
        suggestions_text(ss, (k - 1) as nat) + (if k > 1 {
            "\n"@
        } else {
            Seq::empty()
        }) + spaces(12) + " `"@ + ss[k - 1] + "`"@
    }
}

fn push_suggestions(out: &mut Vec<char>, ss: &Vec<String>)
    ensures
        final(out)@ == old(out)@ + suggestions_text(names_view(ss@), ss@.len()),
{
    let mut k: usize = 0;
    while k < ss.len()
        invariant
            k <= ss@.len(),
            out@ == old(out)@ + suggestions_text(names_view(ss@), k as nat),
        decreases ss@.len() - k,
    {
        if k > 0 {
            push_text(out, "\n");
        }
        push_text(out, "            ");
        push_text(out, " `");
        push_text(out, ss[k].as_str());
        push_text(out, "`");
        k = k + 1;
        proof {
            reveal_strlit("            ");
            assert("            "@ =~= spaces(12));
        }
        assert(out@ =~= old(out)@ + suggestions_text(names_view(ss@), k as nat));
    }
}

} // verus!
