//! Android resource names from user-facing names.
use vstd::prelude::*;

use crate::text::chars_of;
use crate::text::string_from_chars;

verus! {

pub open spec fn is_lower_ascii(c: char) -> bool {
    'a' <= c && c <= 'z'
}

pub open spec fn is_upper_ascii(c: char) -> bool {
    'A' <= c && c <= 'Z'
}

pub open spec fn is_digit_ascii(c: char) -> bool {
    '0' <= c && c <= '9'
}

pub open spec fn lower_letters() -> Seq<char> {
    seq![
        'a', 'b', 'c', 'd', 'e', 'f', 'g', 'h', 'i', 'j', 'k', 'l', 'm', 'n', 'o', 'p', 'q', 'r',
        's', 't', 'u', 'v', 'w', 'x', 'y', 'z',
    ]
}

/// The lower-case form of an upper-case ASCII letter.
pub open spec fn lower_of_upper(c: char) -> char {
    lower_letters()[(c as u32 - 'A' as u32) as int]
}

/// The resource name built from the characters of `s`, and whether the last
/// character read counts as upper case (a separator counts as one).
///
/// Lower-case letters and digits are kept; an upper-case letter is lowered
/// and, unless it follows another upper-case letter or stands first, gets an
/// underscore before it; any other character becomes an underscore.
pub open spec fn res_name_state(s: Seq<char>) -> (Seq<char>, bool)
    decreases s.len(),
{
    if s.len() == 0 {
        (Seq::empty(), false)
    } else {
        let (out, prev_upper) = res_name_state(s.drop_last());
        let c = s.last();
        if is_lower_ascii(c) || is_digit_ascii(c) {
            (out.push(c), false)
        } else if is_upper_ascii(c) {
            (
                (if s.len() > 1 && !prev_upper {
                    out.push('_')
                } else {
                    out
                }).push(lower_of_upper(c)),
                true,
            )
        } else {
            (out.push('_'), true)
        }
    }
}

pub open spec fn res_name_spec(s: Seq<char>) -> Seq<char> {
    res_name_state(s).0
}

/// Turns a name such as `ic_24/PaperLeft` into a resource name such as
/// `ic_24_paper_left`.
pub fn to_res_name(name: &String) -> (r: String)
    ensures
        r@ == res_name_spec(name@),
{
    let letters = vec![
        'a', 'b', 'c', 'd', 'e', 'f', 'g', 'h', 'i', 'j', 'k', 'l', 'm', 'n', 'o', 'p', 'q', 'r',
        's', 't', 'u', 'v', 'w', 'x', 'y', 'z',
    ];
    assert(letters@ =~= lower_letters());
    let s = chars_of(name.as_str());
    let mut output: Vec<char> = Vec::new();
    let mut prev_char_is_uppercase = false;
    let mut i: usize = 0;
    assert(s@.subrange(0, 0) =~= Seq::<char>::empty());
    while i < s.len()
        invariant
            i <= s@.len(),
            s@ == name@,
            letters@ == lower_letters(),
            res_name_state(s@.subrange(0, i as int)) == (output@, prev_char_is_uppercase),
        decreases s@.len() - i,
    {
        let ch = s[i];
        assert(s@.subrange(0, i + 1).drop_last() == s@.subrange(0, i as int));
        if ('a' <= ch && ch <= 'z') || ('0' <= ch && ch <= '9') {
            output.push(ch);
            prev_char_is_uppercase = false;
        } else if 'A' <= ch && ch <= 'Z' {
            if i > 0 && !prev_char_is_uppercase {
                output.push('_');
            }
            output.push(letters[(ch as u32 - 'A' as u32) as usize]);
            prev_char_is_uppercase = true;
        } else {
            prev_char_is_uppercase = true;
            output.push('_');
        }
        i = i + 1;
    }
    assert(s@.subrange(0, s@.len() as int) == s@);
    string_from_chars(&output)
}

} // verus!
