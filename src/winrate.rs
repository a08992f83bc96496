use vstd::prelude::*;
use crate::bytes::{LF, SP, split, views, split_bytes, bytes_equal};
use crate::command::{line_body, body_of};

verus! {

/// The token `winrate`.
pub open spec fn marker() -> Seq<u8> {
    seq![119u8, 105, 110, 114, 97, 116, 101]
}

/// Among the first `n` of `tokens`, each one whose predecessor is a marker,
/// in order.
pub open spec fn marked_upto(tokens: Seq<Seq<u8>>, n: int) -> Seq<Seq<u8>>
    decreases n,
{
    if n <= 1 || n > tokens.len() {
        Seq::empty()
    } else if tokens[n - 2] == marker() {
        marked_upto(tokens, n - 1).push(tokens[n - 1])
    } else {
        marked_upto(tokens, n - 1)
    }
}

/// The tokens of a line that follow a marker, in order.
pub open spec fn line_values(line: Seq<u8>) -> Seq<Seq<u8>> {
    let t = split(line_body(line), SP);
    marked_upto(t, t.len() as int)
}

/// The values that follow a marker, line after line.
pub open spec fn values_of_lines(lines: Seq<Seq<u8>>) -> Seq<Seq<u8>>
    decreases lines.len(),
{
    if lines.len() == 0 {
        Seq::empty()
    } else {
        values_of_lines(lines.drop_last()) + line_values(lines.last())
    }
}

/// The winrate tokens of a response: every token that follows a `winrate`
/// marker on the same line, in the order they appear.
pub open spec fn winrate_values(response: Seq<u8>) -> Seq<Seq<u8>> {
    values_of_lines(split(response, LF))
}

/// Appends to `out` every token of `line` that follows a marker.
fn push_line_values(out: &mut Vec<Vec<u8>>, line: &[u8])
    ensures
        views(final(out)@) == views(old(out)@) + line_values(line@),
{
    let m: Vec<u8> = vec![119u8, 105, 110, 114, 97, 116, 101];
    assert(m@ =~= marker());
    let body = body_of(line);
    let tokens = split_bytes(body.as_slice(), SP);
    let ghost t = views(tokens@);
    assert(t == split(line_body(line@), SP));
    if tokens.len() == 0 {
        assert(views(out@) =~= views(old(out)@) + line_values(line@));
        return;
    }
    let mut i: usize = 1;
    assert(views(out@) =~= views(old(out)@) + marked_upto(t, 1));
    while i < tokens.len()
        invariant
            1 <= i <= tokens@.len(),
            t == views(tokens@),
            m@ == marker(),
            views(out@) == views(old(out)@) + marked_upto(t, i as int),
        decreases tokens@.len() - i,
    {
        assert(t[i - 1] == tokens@[i - 1]@);
        assert(t[i as int] == tokens@[i as int]@);
        let ghost prev = out@;
        if bytes_equal(tokens[i - 1].as_slice(), m.as_slice()) {
            out.push(tokens[i].clone());
            assert(views(out@) =~= views(prev).push(t[i as int]));
        }
        i = i + 1;
    }
}

/// Gives every token of a line that follows a marker.
pub fn value_on_line(line: &[u8]) -> (r: Vec<Vec<u8>>)
    ensures
        views(r@) == line_values(line@),
{
    let mut r: Vec<Vec<u8>> = Vec::new();
    push_line_values(&mut r, line);
    assert(views(r@) =~= Seq::<Seq<u8>>::empty() + line_values(line@));
    r
}

/// Collects the winrate tokens of an engine response.
pub fn winrate_tokens(response: &[u8]) -> (r: Vec<Vec<u8>>)
    ensures
        views(r@) == winrate_values(response@),
{
    let lines = split_bytes(response, LF);
    let mut out: Vec<Vec<u8>> = Vec::new();
    let mut i: usize = 0;
    assert(views(out@) =~= values_of_lines(views(lines@).subrange(0, 0)));
    while i < lines.len()
        invariant
            i <= lines@.len(),
            views(lines@) == split(response@, LF),
            views(out@) == values_of_lines(views(lines@).subrange(0, i as int)),
        decreases lines@.len() - i,
    {
        let ghost upto = views(lines@).subrange(0, i + 1);
        assert(upto.drop_last() =~= views(lines@).subrange(0, i as int));
        assert(upto.last() == lines@[i as int]@);
        push_line_values(&mut out, lines[i].as_slice());
        i = i + 1;
    }
    assert(views(lines@).subrange(0, i as int) =~= views(lines@));
    out
}

} // verus!
