//! The path-data mini-language: reading a geometry string into command
//! records, and writing the records back.
use vstd::prelude::*;

use crate::number::number_text;
use crate::number::parse_number;
use crate::number::parse_number_spec;
use crate::number::push_number_text;
use crate::number::Number;
use crate::number::NumberFault;
use crate::text::copy_range;
use crate::text::trim_chars;
use crate::text::trimmed;

verus! {

/// One command of a path: its letter and its numeric parameters.
#[derive(Clone, Debug)]
pub struct PathDataNode(pub char, pub Vec<Number>);

impl View for PathDataNode {
    type V = (char, Seq<Number>);

    open spec fn view(&self) -> (char, Seq<Number>) {
        (self.0, self.1@)
    }
}

pub open spec fn nodes_view(v: Seq<PathDataNode>) -> Seq<(char, Seq<Number>)> {
    v.map_values(|n: PathDataNode| n@)
}

/// A letter that starts a new segment: any ASCII letter but `e` and `E`,
/// which belong to the exponent of a number.
pub open spec fn starts_segment(c: char) -> bool {
    (('A' <= c && c <= 'Z') || ('a' <= c && c <= 'z')) && c != 'e' && c != 'E'
}

/// A command letter of the path-data language.
pub open spec fn is_command(c: char) -> bool {
    c == 'M' || c == 'm' || c == 'L' || c == 'l' || c == 'H' || c == 'h' || c == 'V' || c == 'v'
        || c == 'C' || c == 'c' || c == 'S' || c == 's' || c == 'Q' || c == 'q' || c == 'T'
        || c == 't' || c == 'A' || c == 'a' || c == 'Z' || c == 'z'
}

/// A character that separates two parameters.
pub open spec fn is_separator(c: char) -> bool {
    c == ' ' || c == ',' || c == '\t' || c == '\n' || c == '\r'
}

/// The first position from `i` on that starts a segment, or the length.
pub open spec fn next_start_spec(s: Seq<char>, i: int) -> int
    decreases s.len() - i,
{
    if i >= s.len() || (i >= 0 && starts_segment(s[i])) {
        i
    } else {
        next_start_spec(s, i + 1)
    }
}

pub open spec fn join<T>(a: Result<Seq<T>, NumberFault>, b: Result<Seq<T>, NumberFault>) -> Result<
    Seq<T>,
    NumberFault,
> {
    match a {
        Err(f) => Err(f),
        Ok(x) => match b {
            Err(f) => Err(f),
            Ok(y) => Ok(x + y),
        },
    }
}

/// The parameter read from a pending token, if there is one.
pub open spec fn flush_params(cur: Seq<char>) -> Result<Seq<Number>, NumberFault> {
    if cur.len() == 0 {
        Ok(Seq::empty())
    } else {
        match parse_number_spec(cur) {
            Ok(n) => Ok(seq![n]),
            Err(f) => Err(f),
        }
    }
}

/// The parameters of `s`, whose first token has begun with `cur`: tokens are
/// the maximal runs of characters that are not separators.
pub open spec fn params_from(s: Seq<char>, cur: Seq<char>) -> Result<Seq<Number>, NumberFault>
    decreases s.len(),
{
    if s.len() == 0 {
        flush_params(cur)
    } else if is_separator(s[0]) {
        join(flush_params(cur), params_from(s.drop_first(), Seq::empty()))
    } else {
        params_from(s.drop_first(), cur.push(s[0]))
    }
}

pub open spec fn absolute(n: Number) -> Number {
    match n {
        Number::Decimal { negative, mantissa, exponent } => Number::Decimal {
            negative: false,
            mantissa,
            exponent,
        },
        Number::NotANumber => Number::NotANumber,
    }
}

/// Arc parameters with the two radii of each group of seven made non-negative.
pub open spec fn radii_forced(ps: Seq<Number>) -> Seq<Number> {
    Seq::new(ps.len(), |i: int| if i % 7 < 2 { absolute(ps[i]) } else { ps[i] })
}

/// The record of one segment: its first character is the command.
pub open spec fn segment_node(seg: Seq<char>) -> Result<(char, Seq<Number>), NumberFault> {
    let c = seg[0];
    if !is_command(c) {
        Err(NumberFault::Malformed)
    } else if c == 'Z' || c == 'z' {
        Ok((c, Seq::empty()))
    } else {
        match params_from(seg.drop_first(), Seq::empty()) {
            Err(f) => Err(f),
            Ok(ps) => Ok((c, if c == 'A' || c == 'a' { radii_forced(ps) } else { ps })),
        }
    }
}

/// The records of the segments of `s` from position `start` on.
pub open spec fn segments_from(s: Seq<char>, start: int) -> Result<
    Seq<(char, Seq<Number>)>,
    NumberFault,
>
    decreases s.len() - start,
    via segments_from_decreases
{
    if start < 0 || start >= s.len() {
        Ok(Seq::empty())
    } else {
        let end = next_start_spec(s, start + 1);
        match segment_node(s.subrange(start, end)) {
            Err(f) => Err(f),
            Ok(n) => join(Ok(seq![n]), segments_from(s, end)),
        }
    }
}

#[via_fn]
proof fn segments_from_decreases(s: Seq<char>, start: int) {
    if !(start < 0 || start >= s.len()) {
        lemma_next_start_bounds(s, start + 1);
    }
}

pub open spec fn origin_move() -> (char, Seq<Number>) {
    let zero = Number::Decimal { negative: false, mantissa: 0, exponent: 0 };
    ('M', seq![zero, zero])
}

/// What a geometry string parses to: see `parse_trimmed_spec`.
pub open spec fn parse_path_spec(d: Seq<char>) -> Result<Seq<(char, Seq<Number>)>, NumberFault> {
    parse_trimmed_spec(trimmed(d))
}

/// What a geometry string without surrounding white space parses to: the
/// records of its segments, led by a moveto to the origin where the first
/// command is not a moveto.
pub open spec fn parse_trimmed_spec(t: Seq<char>) -> Result<Seq<(char, Seq<Number>)>, NumberFault> {
    match segments_from(t, 0) {
        Err(f) => Err(f),
        Ok(nodes) => {
            if nodes.len() > 0 && nodes[0].0 != 'M' && nodes[0].0 != 'm' {
                Ok(seq![origin_move()] + nodes)
            } else {
                Ok(nodes)
            }
        },
    }
}

proof fn lemma_next_start_bounds(s: Seq<char>, i: int)
    requires
        0 <= i,
    ensures
        i <= next_start_spec(s, i),
        i <= s.len() ==> next_start_spec(s, i) <= s.len(),
    decreases s.len() - i,
{
    if !(i >= s.len() || starts_segment(s[i])) {
        lemma_next_start_bounds(s, i + 1);
    }
}

/// The first position from `i` on that starts a segment, or the length.
pub fn next_start(s: &Vec<char>, i: usize) -> (r: usize)
    requires
        i <= s@.len(),
    ensures
        r == next_start_spec(s@, i as int),
        i <= r <= s@.len(),
{
    let mut j: usize = i;
    while j < s.len() && !((('A' <= s[j] && s[j] <= 'Z') || ('a' <= s[j] && s[j] <= 'z'))
        && s[j] != 'e' && s[j] != 'E')
        invariant
            i <= j <= s@.len(),
            next_start_spec(s@, i as int) == next_start_spec(s@, j as int),
        decreases s@.len() - j,
    {
        j = j + 1;
    }
    j
}

fn flush_exec(out: &mut Vec<Number>, cur: &Vec<char>) -> (r: Result<(), NumberFault>)
    ensures
        match flush_params(cur@) {
            Ok(x) => r is Ok && final(out)@ == old(out)@ + x,
            Err(f) => r == Err::<(), NumberFault>(f),
        },
{
    if cur.len() == 0 {
        assert(out@ == out@ + Seq::<Number>::empty());
        return Ok(());
    }
    match parse_number(cur) {
        Ok(n) => {
            out.push(n);
            assert(final(out)@ == old(out)@ + seq![n]);
            Ok(())
        },
        Err(f) => Err(f),
    }
}

proof fn lemma_join_assoc<T>(
    a: Result<Seq<T>, NumberFault>,
    b: Result<Seq<T>, NumberFault>,
    c: Result<Seq<T>, NumberFault>,
)
    ensures
        join(a, join(b, c)) == join(join(a, b), c),
{
    match (a, b, c) {
        (Ok(x), Ok(y), Ok(z)) => {
            assert(x + (y + z) == (x + y) + z);
        },
        _ => {},
    }
}

/// The parameters of `s[from..]`: its tokens read as numbers.
pub fn parse_params(s: &Vec<char>, from: usize) -> (r: Result<Vec<Number>, NumberFault>)
    requires
        from <= s@.len(),
    ensures
        match params_from(s@.subrange(from as int, s@.len() as int), Seq::empty()) {
            Ok(ps) => r is Ok && r->Ok_0@ == ps,
            Err(f) => r is Err && r->Err_0 == f,
        },
{
    let n = s.len();
    let mut out: Vec<Number> = Vec::new();
    let mut cur: Vec<char> = Vec::new();
    let mut i: usize = from;
    let ghost whole = params_from(s@.subrange(from as int, n as int), Seq::empty());
    assert(whole == join(Ok(out@), params_from(s@.subrange(i as int, n as int), cur@))) by {
        match whole {
            Ok(x) => assert(Seq::<Number>::empty() + x == x),
            Err(_) => {},
        }
    }
    while i < n
        invariant
            from <= i <= n,
            n == s@.len(),
            whole == params_from(s@.subrange(from as int, n as int), Seq::empty()),
            whole == join(Ok(out@), params_from(s@.subrange(i as int, n as int), cur@)),
        decreases n - i,
    {
        let c = s[i];
        let ghost rest = s@.subrange(i as int, n as int);
        assert(rest.drop_first() == s@.subrange(i + 1, n as int));
        if c == ' ' || c == ',' || c == '\t' || c == '\n' || c == '\r' {
            let ghost before = out@;
            assert(params_from(rest, cur@) == join(
                flush_params(cur@),
                params_from(rest.drop_first(), Seq::empty()),
            ));
            proof {
                lemma_join_assoc(
                    Ok(before),
                    flush_params(cur@),
                    params_from(rest.drop_first(), Seq::empty()),
                );
            }
            match flush_exec(&mut out, &cur) {
                Ok(()) => {},
                Err(f) => {
                    assert(flush_params(cur@) == Err::<Seq<Number>, NumberFault>(f));
                    assert(join(Ok(before), flush_params(cur@)) == Err::<Seq<Number>, NumberFault>(f));
                    assert(whole == Err::<Seq<Number>, NumberFault>(f));
                    return Err(f);
                },
            }
            cur = Vec::new();
        } else {
            assert(params_from(rest, cur@) == params_from(rest.drop_first(), cur@.push(c)));
            cur.push(c);
        }
        i = i + 1;
    }
    let ghost before = out@;
    match flush_exec(&mut out, &cur) {
        Ok(()) => {},
        Err(f) => {
            return Err(f);
        },
    }
    assert(whole == Ok::<Seq<Number>, NumberFault>(out@));
    Ok(out)
}

/// Gives the two radii of each group of seven arc parameters their absolute value.
fn force_radii(ps: &mut Vec<Number>)
    ensures
        final(ps)@ == radii_forced(old(ps)@),
{
    let n = ps.len();
    let mut i: usize = 0;
    while i < n
        invariant
            i <= n,
            n == ps@.len(),
            n == old(ps)@.len(),
            forall|k: int| 0 <= k < i ==> ps@[k] == radii_forced(old(ps)@)[k],
            forall|k: int| i <= k < n ==> ps@[k] == old(ps)@[k],
        decreases n - i,
    {
        if i % 7 < 2 {
            let v = ps[i];
            let a = match v {
                Number::Decimal { negative: _, mantissa, exponent } => Number::Decimal {
                    negative: false,
                    mantissa,
                    exponent,
                },
                Number::NotANumber => Number::NotANumber,
            };
            ps.set(i, a);
        }
        i = i + 1;
    }
    assert(ps@ =~= radii_forced(old(ps)@));
}

/// The record of the segment `s[start..end]`.
fn parse_segment(s: &Vec<char>, start: usize, end: usize) -> (r: Result<PathDataNode, NumberFault>)
    requires
        start < end <= s@.len(),
    ensures
        match segment_node(s@.subrange(start as int, end as int)) {
            Ok(x) => r is Ok && r->Ok_0@ == x,
            Err(f) => r is Err && r->Err_0 == f,
        },
{
    let seg = copy_range(s, start, end);
    let c = seg[0];
    if !(c == 'M' || c == 'm' || c == 'L' || c == 'l' || c == 'H' || c == 'h' || c == 'V' || c
        == 'v' || c == 'C' || c == 'c' || c == 'S' || c == 's' || c == 'Q' || c == 'q' || c == 'T'
        || c == 't' || c == 'A' || c == 'a' || c == 'Z' || c == 'z') {
        return Err(NumberFault::Malformed);
    }
    if c == 'Z' || c == 'z' {
        return Ok(PathDataNode(c, Vec::new()));
    }
    assert(seg@.subrange(1, seg@.len() as int) == seg@.drop_first());
    match parse_params(&seg, 1) {
        Err(f) => Err(f),
        Ok(ps) => {
            let mut ps = ps;
            if c == 'A' || c == 'a' {
                force_radii(&mut ps);
            }
            Ok(PathDataNode(c, ps))
        },
    }
}

/// Reads a geometry string into its command records.
///
/// A segment runs from a command letter to the next one; its parameters are
/// the tokens between separators. A path whose first command is not a moveto
/// is led by a moveto to the origin. A malformed token or command, or a value
/// that a 32-bit float cannot hold, fails the whole string.
pub fn parse_path(d: &str) -> (r: Result<Vec<PathDataNode>, NumberFault>)
    ensures
        match parse_path_spec(d@) {
            Ok(x) => r is Ok && nodes_view(r->Ok_0@) == x,
            Err(f) => r is Err && r->Err_0 == f,
        },
{
    let all = crate::text::chars_of(d);
    let t = trim_chars(&all);
    parse_trimmed_path(&t)
}

/// Reads a geometry string that has no surrounding white space.
pub fn parse_trimmed_path(t: &Vec<char>) -> (r: Result<Vec<PathDataNode>, NumberFault>)
    ensures
        match parse_trimmed_spec(t@) {
            Ok(x) => r is Ok && nodes_view(r->Ok_0@) == x,
            Err(f) => r is Err && r->Err_0 == f,
        },
{
    let n = t.len();
    let mut out: Vec<PathDataNode> = Vec::new();
    let mut start: usize = 0;
    let ghost whole = segments_from(t@, 0);
    assert(whole == join(Ok(nodes_view(out@)), segments_from(t@, start as int))) by {
        match whole {
            Ok(x) => assert(nodes_view(out@) + x == x),
            Err(_) => {},
        }
    }
    while start < n
        invariant
            start <= n,
            n == t@.len(),
            whole == segments_from(t@, 0),
            whole == join(Ok(nodes_view(out@)), segments_from(t@, start as int)),
        decreases n - start,
    {
        let end = next_start(t, start + 1);
        let ghost before = nodes_view(out@);
        match parse_segment(t, start, end) {
            Err(f) => {
                return Err(f);
            },
            Ok(node) => {
                let ghost nv = node@;
                out.push(node);
                proof {
                    lemma_join_assoc(Ok(before), Ok(seq![nv]), segments_from(t@, end as int));
                    assert(nodes_view(out@) == before + seq![nv]);
                }
            },
        }
        start = end;
    }
    assert(whole == Ok::<Seq<(char, Seq<Number>)>, NumberFault>(nodes_view(out@)));
    if out.len() > 0 && out[0].0 != 'M' && out[0].0 != 'm' {
        let zero = Number::Decimal { negative: false, mantissa: 0, exponent: 0 };
        let mut lead: Vec<PathDataNode> = Vec::new();
        lead.push(PathDataNode('M', vec![zero, zero]));
        let ghost lv = nodes_view(lead@);
        lead.append(&mut out);
        assert(lv == seq![origin_move()]);
        assert(nodes_view(lead@) == seq![origin_move()] + whole->Ok_0);
        return Ok(lead);
    }
    Ok(out)
}

/// The lineto letter, in the same case, that continues a moveto.
pub open spec fn line_to_of(c: char) -> char {
    if c == 'm' {
        'l'
    } else {
        'L'
    }
}

/// What stands before parameter `j` of a command `c` with `len` parameters:
/// nothing before the first, a comma before odd positions; before the other
/// even positions a space, or the continuing lineto letter in a moveto with
/// more than one pair.
pub open spec fn separator_before(c: char, len: nat, j: int) -> Seq<char> {
    if j == 0 {
        Seq::empty()
    } else if j % 2 == 1 {
        seq![',']
    } else if (c == 'M' || c == 'm') && len > 2 {
        seq![line_to_of(c)]
    } else {
        seq![' ']
    }
}

/// The text of the first `k` parameters of a command.
pub open spec fn params_text(c: char, ps: Seq<Number>, k: nat) -> Seq<char>
    decreases k,
{
    if k == 0 || k > ps.len() {
        Seq::empty()
    } else {
        params_text(c, ps, (k - 1) as nat) + separator_before(c, ps.len(), k - 1) + number_text(
            ps[k - 1],
        )
    }
}

/// The text of one command record.
pub open spec fn node_text(n: (char, Seq<Number>)) -> Seq<char> {
    seq![n.0] + params_text(n.0, n.1, n.1.len())
}

/// The text of the first `k` command records, written one after another.
pub open spec fn path_text(nodes: Seq<(char, Seq<Number>)>, k: nat) -> Seq<char>
    decreases k,
{
    if k == 0 || k > nodes.len() {
        Seq::empty()
    } else {
        path_text(nodes, (k - 1) as nat) + node_text(nodes[k - 1])
    }
}

/// Appends the text of one command record to `out`.
fn push_node_text(out: &mut Vec<char>, node: &PathDataNode)
    ensures
        final(out)@ == old(out)@ + node_text(node@),
{
    let c = node.0;
    let len = node.1.len();
    out.push(c);
    let mut j: usize = 0;
    while j < len
        invariant
            j <= len,
            len == node.1@.len(),
            c == node.0,
            out@ == old(out)@ + seq![c] + params_text(c, node.1@, j as nat),
        decreases len - j,
    {
        let ghost before = out@;
        if j > 0 {
            if j % 2 == 1 {
                out.push(',');
            } else if (c == 'M' || c == 'm') && len > 2 {
                out.push(if c == 'm' { 'l' } else { 'L' });
            } else {
                out.push(' ');
            }
        }
        assert(out@ == before + separator_before(c, len as nat, j as int));
        push_number_text(out, node.1[j]);
        j = j + 1;
        assert(out@ =~= old(out)@ + seq![c] + params_text(c, node.1@, j as nat));
    }
    assert(out@ =~= old(out)@ + node_text(node@));
}

/// Appends the text of a whole path to `out`.
pub fn write_path_data(out: &mut Vec<char>, nodes: &Vec<PathDataNode>)
    ensures
        final(out)@ == old(out)@ + path_text(nodes_view(nodes@), nodes@.len()),
{
    let mut k: usize = 0;
    while k < nodes.len()
        invariant
            k <= nodes@.len(),
            out@ == old(out)@ + path_text(nodes_view(nodes@), k as nat),
        decreases nodes@.len() - k,
    {
        push_node_text(out, &nodes[k]);
        k = k + 1;
        assert(out@ =~= old(out)@ + path_text(nodes_view(nodes@), k as nat));
    }
}

} // verus!
