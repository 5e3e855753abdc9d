//! The `_light` and `_dark` suffixes of themed resource names.
use vstd::prelude::*;

use crate::text::chars_of;
use crate::text::push_text;
use crate::text::string_from_chars;

verus! {

pub open spec fn ends_with(s: Seq<char>, suffix: Seq<char>) -> bool {
    s.len() >= suffix.len() && s.subrange(s.len() - suffix.len(), s.len() as int) == suffix
}

/// Whether the characters of `s` end with those of `suffix`.
pub fn text_ends_with(s: &str, suffix: &str) -> (r: bool)
    ensures
        r == ends_with(s@, suffix@),
{
    let a = chars_of(s);
    let b = chars_of(suffix);
    if a.len() < b.len() {
        return false;
    }
    let off = a.len() - b.len();
    let mut i: usize = 0;
    while i < b.len()
        invariant
            i <= b@.len(),
            a@ == s@,
            b@ == suffix@,
            off + b@.len() == a@.len(),
            a@.len() <= usize::MAX,
            forall|k: int| 0 <= k < i ==> a@[off + k] == b@[k],
        decreases b@.len() - i,
    {
        if a[off + i] != b[i] {
            proof {
                let t = a@.subrange(off as int, a@.len() as int);
                assert(t[i as int] == a@[off + i]);
            }
            return false;
        }
        i = i + 1;
    }
    assert(a@.subrange(off as int, a@.len() as int) =~= b@);
    true
}

/// Names of resources that come in a light and a dark variant.
pub trait SuffixExt: Sized {
    spec fn text(&self) -> Seq<char>;

    /// The name ends with `_light`.
    fn light(&self) -> (r: bool)
        ensures
            r == ends_with(self.text(), "_light"@),
    ;

    /// The name ends with `_dark`.
    fn dark(&self) -> (r: bool)
        ensures
            r == ends_with(self.text(), "_dark"@),
    ;

    /// The name followed by `_light`.
    fn with_light_suffix(&self) -> (r: Self)
        ensures
            r.text() == self.text() + "_light"@,
    ;

    /// The name followed by `_dark`.
    fn with_dark_suffix(&self) -> (r: Self)
        ensures
            r.text() == self.text() + "_dark"@,
    ;
}

impl SuffixExt for String {
    open spec fn text(&self) -> Seq<char> {
        self@
    }

    fn light(&self) -> (r: bool) {
        text_ends_with(self.as_str(), "_light")
    }

    fn dark(&self) -> (r: bool) {
        text_ends_with(self.as_str(), "_dark")
    }

    fn with_light_suffix(&self) -> (r: String) {
        let mut out = chars_of(self.as_str());
        push_text(&mut out, "_light");
        string_from_chars(&out)
    }

    fn with_dark_suffix(&self) -> (r: String) {
        let mut out = chars_of(self.as_str());
        push_text(&mut out, "_dark");
        string_from_chars(&out)
    }
}

} // verus!
