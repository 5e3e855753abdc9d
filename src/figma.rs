//! The figma document tree, and finding the frame of resources in it.
use vstd::prelude::*;

use crate::text::same_chars;

verus! {

/// A figma file: its pages.
#[derive(Debug)]
pub struct Document {
    pub id: String,
    pub name: String,
    pub children: Vec<Canvas>,
}

/// A page: its top-level frames.
#[derive(Debug)]
pub struct Canvas {
    pub id: String,
    pub name: String,
    pub children: Vec<Frame>,
}

/// A frame and the nodes inside it, each with a name and an id.
#[derive(Debug)]
pub struct Frame {
    pub id: String,
    pub name: String,
    pub children: Option<Vec<Frame>>,
}

/// Which kind of resource is being exported.
#[derive(Clone, Copy, Debug, PartialEq, Eq, Structural)]
pub enum FetcherTarget {
    Images,
    Icons,
}

/// Why the frame of resources could not be used.
#[derive(Clone, Debug)]
pub enum FrameLookupError {
    /// No frame has the wanted name: the name.
    FindDesiredFrame(String),
    /// The frame holds nothing: its name.
    DesiredFrameIsEmpty(String),
}

/// The map from names to ids that inserting the pairs in order gives:
/// a later pair with the same name replaces an earlier one.
pub open spec fn names_map(pairs: Seq<(Seq<char>, Seq<char>)>) -> Map<Seq<char>, Seq<char>>
    decreases pairs.len(),
{
    if pairs.len() == 0 {
        Map::empty()
    } else {
        names_map(pairs.drop_last()).insert(pairs.last().0, pairs.last().1)
    }
}

/// A list of pairs with distinct names that holds exactly the map `m`.
pub open spec fn lists_map(r: Seq<(Seq<char>, Seq<char>)>, m: Map<Seq<char>, Seq<char>>) -> bool {
    &&& forall|i: int, j: int| 0 <= i < j < r.len() ==> r[i].0 != r[j].0
    &&& forall|i: int| 0 <= i < r.len() ==> m.contains_key(#[trigger] r[i].0) && m[r[i].0] == r[i].1
    &&& forall|k: Seq<char>| m.contains_key(k) ==> exists|i: int| 0 <= i < r.len() && r[i].0 == k
}

pub open spec fn pairs_view(v: Seq<(String, String)>) -> Seq<(Seq<char>, Seq<char>)> {
    v.map_values(|p: (String, String)| (p.0@, p.1@))
}

pub open spec fn frame_pairs(fs: Seq<Frame>) -> Seq<(Seq<char>, Seq<char>)> {
    fs.map_values(|f: Frame| (f.name@, f.id@))
}

/// The names of the nodes inside a frame, each with its id.
pub open spec fn frame_map(f: Frame) -> Map<Seq<char>, Seq<char>> {
    match f.children {
        Some(c) => names_map(frame_pairs(c@)),
        None => Map::empty(),
    }
}

/// The names and ids of the nodes inside a frame.
pub fn collect_names_to_ids(frame: &Frame) -> (r: Vec<(String, String)>)
    ensures
        lists_map(pairs_view(r@), frame_map(*frame)),
{
    let mut out: Vec<(String, String)> = Vec::new();
    match &frame.children {
        None => {},
        Some(children) => {
            let mut k: usize = 0;
            assert(frame_pairs(children@).subrange(0, 0) =~= Seq::<(Seq<char>, Seq<char>)>::empty());
            while k < children.len()
                invariant
                    k <= children@.len(),
                    lists_map(pairs_view(out@), names_map(frame_pairs(children@).subrange(0, k as int))),
                decreases children@.len() - k,
            {
                let f = &children[k];
                let ghost prefix = frame_pairs(children@).subrange(0, k + 1);
                assert(prefix.drop_last() == frame_pairs(children@).subrange(0, k as int));
                assert(prefix.last() == (f.name@, f.id@));
                let ghost m0 = names_map(frame_pairs(children@).subrange(0, k as int));
                let ghost r0 = pairs_view(out@);
                let mut j: usize = 0;
                let mut found = false;
                while j < out.len() && !found
                    invariant
                        j <= out@.len(),
                        r0 == pairs_view(out@),
                        found ==> j < out@.len() && r0[j as int].0 == f.name@,
                        forall|i: int| 0 <= i < j ==> r0[i].0 != f.name@,
                    decreases out@.len() - j + (if found { 0int } else { 1int }),
                {
                    if same_chars(out[j].0.as_str(), f.name.as_str()) {
                        found = true;
                    } else {
                        j = j + 1;
                    }
                }
                let ghost m1 = m0.insert(f.name@, f.id@);
                if found {
                    out.set(j, (f.name.clone(), f.id.clone()));
                    proof {
                        let r1 = pairs_view(out@);
                        assert(r1 == r0.update(j as int, (f.name@, f.id@)));
                        assert forall|i: int| 0 <= i < r1.len() implies m1.contains_key(#[trigger] r1[i].0)
                            && m1[r1[i].0] == r1[i].1 by {
                            if i != j {
                                assert(r0[i].0 != r0[j as int].0);
                            }
                        }
                        assert forall|key: Seq<char>| m1.contains_key(key) implies exists|i: int|
                            0 <= i < r1.len() && r1[i].0 == key by {
                            if key == f.name@ {
                                assert(r1[j as int].0 == key);
                            } else {
                                let i = choose|i: int| 0 <= i < r0.len() && r0[i].0 == key;
                                assert(r1[i].0 == key);
                            }
                        }
                    }
                } else {
                    out.push((f.name.clone(), f.id.clone()));
                    proof {
                        let r1 = pairs_view(out@);
                        assert(r1 == r0.push((f.name@, f.id@)));
                        assert forall|i: int| 0 <= i < r1.len() implies m1.contains_key(#[trigger] r1[i].0)
                            && m1[r1[i].0] == r1[i].1 by {
                            if i < r0.len() {
                                assert(r1[i] == r0[i]);
                            }
                        }
                        assert forall|key: Seq<char>| m1.contains_key(key) implies exists|i: int|
                            0 <= i < r1.len() && r1[i].0 == key by {
                            if key == f.name@ {
                                assert(r1[r0.len() as int].0 == key);
                            } else {
                                let i = choose|i: int| 0 <= i < r0.len() && r0[i].0 == key;
                                assert(r1[i].0 == key);
                            }
                        }
                    }
                }
                k = k + 1;
            }
            assert(frame_pairs(children@).subrange(0, children@.len() as int) == frame_pairs(children@));
        },
    }
    out
}

/// The position of the first frame from `j` on named `name`.
pub open spec fn frame_index(fs: Seq<Frame>, name: Seq<char>, j: int) -> Option<int>
    decreases fs.len() - j,
{
    if j < 0 || j >= fs.len() {
        None
    } else if fs[j].name@ == name {
        Some(j)
    } else {
        frame_index(fs, name, j + 1)
    }
}

/// A page that the search looks in: any page when none is named.
pub open spec fn page_wanted(c: Canvas, page: Option<String>) -> bool {
    match page {
        None => true,
        Some(p) => p@ == c.name@,
    }
}

/// The page and frame positions of the first frame named `name`, searching
/// the wanted pages from page `i` on, in order.
pub open spec fn canvas_match(cs: Seq<Canvas>, page: Option<String>, name: Seq<char>, i: int) -> Option<
    (int, int),
>
    decreases cs.len() - i,
{
    if i < 0 || i >= cs.len() {
        None
    } else if page_wanted(cs[i], page) && frame_index(cs[i].children@, name, 0) is Some {
        Some((i, frame_index(cs[i].children@, name, 0)->Some_0))
    } else {
        canvas_match(cs, page, name, i + 1)
    }
}

proof fn lemma_frame_index_bound(fs: Seq<Frame>, name: Seq<char>, j: int)
    requires
        0 <= j,
    ensures
        frame_index(fs, name, j) is Some ==> j <= frame_index(fs, name, j)->Some_0 < fs.len()
            && fs[frame_index(fs, name, j)->Some_0].name@ == name,
    decreases fs.len() - j,
{
    if j < fs.len() && fs[j].name@ != name {
        lemma_frame_index_bound(fs, name, j + 1);
    }
}

proof fn lemma_canvas_match_bound(cs: Seq<Canvas>, page: Option<String>, name: Seq<char>, i: int)
    requires
        0 <= i,
    ensures
        canvas_match(cs, page, name, i) is Some ==> ({
            let (a, b) = canvas_match(cs, page, name, i)->Some_0;
            i <= a < cs.len() && 0 <= b < cs[a].children@.len()
        }),
    decreases cs.len() - i,
{
    if i < cs.len() {
        lemma_frame_index_bound(cs[i].children@, name, 0);
        lemma_canvas_match_bound(cs, page, name, i + 1);
    }
}

fn find_frame_in(fs: &Vec<Frame>, name: &String) -> (r: Option<usize>)
    ensures
        r is None ==> frame_index(fs@, name@, 0) is None,
        r is Some ==> frame_index(fs@, name@, 0) == Some(r->Some_0 as int),
{
    let mut j: usize = 0;
    while j < fs.len()
        invariant
            j <= fs@.len(),
            frame_index(fs@, name@, 0) == frame_index(fs@, name@, j as int),
        decreases fs@.len() - j,
    {
        if same_chars(fs[j].name.as_str(), name.as_str()) {
            return Some(j);
        }
        j = j + 1;
    }
    None
}

/// Finds the frame named `desired_frame_name` on the wanted pages and lists
/// the names and ids of what it holds. Fails when no such frame exists, or
/// when it holds nothing.
pub fn find_images_frame(document: &Document, page_name: &Option<String>, desired_frame_name: &String) -> (r: Result<Vec<(String, String)>, FrameLookupError>)
    ensures
        match canvas_match(document.children@, *page_name, desired_frame_name@, 0) {
            None => r is Err && r->Err_0 is FindDesiredFrame
                && r->Err_0->FindDesiredFrame_0@ == desired_frame_name@,
            Some((a, b)) => {
                let m = frame_map(document.children@[a].children@[b]);
                if m.dom().len() == 0 {
                    r is Err && r->Err_0 is DesiredFrameIsEmpty
                        && r->Err_0->DesiredFrameIsEmpty_0@ == desired_frame_name@
                } else {
                    r is Ok && lists_map(pairs_view(r->Ok_0@), m)
                }
            },
        },
{
    let cs = &document.children;
    let mut i: usize = 0;
    while i < cs.len()
        invariant
            i <= cs@.len(),
            cs@ == document.children@,
            canvas_match(cs@, *page_name, desired_frame_name@, 0) == canvas_match(
                cs@,
                *page_name,
                desired_frame_name@,
                i as int,
            ),
        decreases cs@.len() - i,
    {
        let c = &cs[i];
        let wanted = match page_name {
            None => true,
            Some(p) => same_chars(p.as_str(), c.name.as_str()),
        };
        if wanted {
            match find_frame_in(&c.children, desired_frame_name) {
                Some(j) => {
                    proof {
                        lemma_frame_index_bound(c.children@, desired_frame_name@, 0);
                        assert(page_wanted(cs@[i as int], *page_name));
                        assert(cs@[i as int].children@ == c.children@);
                        assert(frame_index(c.children@, desired_frame_name@, 0) == Some(j as int));
                        assert(canvas_match(cs@, *page_name, desired_frame_name@, i as int) == Some(
                            (i as int, j as int),
                        ));
                    }
                    let frame = &c.children[j];
                    let names_to_ids = collect_names_to_ids(frame);
                    let ghost m = frame_map(*frame);
                    proof {
                        lemma_frame_map_finite(*frame);
                        lemma_empty_listing(pairs_view(names_to_ids@), m);
                        assert(*frame == document.children@[i as int].children@[j as int]);
                    }
                    if names_to_ids.len() == 0 {
                        return Err(FrameLookupError::DesiredFrameIsEmpty(desired_frame_name.clone()));
                    } else {
                        return Ok(names_to_ids);
                    }
                },
                None => {},
            }
        }
        i = i + 1;
    }
    Err(FrameLookupError::FindDesiredFrame(desired_frame_name.clone()))
}

proof fn lemma_names_map_finite(pairs: Seq<(Seq<char>, Seq<char>)>)
    ensures
        names_map(pairs).dom().finite(),
    decreases pairs.len(),
{
    if pairs.len() > 0 {
        lemma_names_map_finite(pairs.drop_last());
    }
}

proof fn lemma_frame_map_finite(f: Frame)
    ensures
        frame_map(f).dom().finite(),
{
    match f.children {
        Some(c) => lemma_names_map_finite(frame_pairs(c@)),
        None => {},
    }
}

proof fn lemma_empty_listing(r: Seq<(Seq<char>, Seq<char>)>, m: Map<Seq<char>, Seq<char>>)
    requires
        lists_map(r, m),
        m.dom().finite(),
    ensures
        (r.len() == 0) == (m.dom().len() == 0),
{
    if r.len() == 0 {
        if m.dom().len() != 0 {
            let k = m.dom().choose();
            assert(m.dom().contains(k));
        }
    } else {
        assert(m.dom().contains(r[0].0));
    }
}

} // verus!
