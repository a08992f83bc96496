use vstd::prelude::*;
use crate::bytes::{CR, LF, SP, find_from, lemma_find_from_bounds, find_byte, slice_to_vec};
use crate::color::{Color, color_named, letter_of, opposite_of, letter, opposite, parse_color};
use crate::fault::Fault;

verus! {

/// A line without its line break (a line feed, and a carriage return before it).
pub open spec fn line_body(l: Seq<u8>) -> Seq<u8> {
    let a = if l.len() > 0 && l.last() == LF {
        l.drop_last()
    } else {
        l
    };
    if a.len() > 0 && a.last() == CR {
        a.drop_last()
    } else {
        a
    }
}

/// Where the second token of a line body starts (just after the first space),
/// or past the end if the body has a single token.
pub open spec fn color_start(body: Seq<u8>) -> int {
    find_from(body, SP, 0) + 1
}

/// Where the second token of a line body ends.
pub open spec fn color_end(body: Seq<u8>) -> int {
    find_from(body, SP, color_start(body))
}

/// The second token of a line body, if it has one.
pub open spec fn color_token(body: Seq<u8>) -> Option<Seq<u8>> {
    if color_start(body) > body.len() {
        None
    } else {
        Some(body.subrange(color_start(body), color_end(body)))
    }
}

/// The line that asks the engine what it would do had the other side
/// moved: the color token replaced by its opposite, all else kept.
pub open spec fn probe_of(body: Seq<u8>, c: Color) -> Seq<u8> {
    body.subrange(0, color_start(body)) + seq![letter_of(opposite_of(c))] + body.subrange(
        color_end(body),
        body.len() as int,
    ) + seq![LF]
}

/// `play <color> pass` and a line feed.
pub open spec fn pass_command_of(c: Color) -> Seq<u8> {
    seq![112u8, 108, 97, 121, 32] + seq![letter_of(c)] + seq![32u8, 112, 97, 115, 115, 10]
}

/// What intercepting a line requires: the side to move, the probe line to
/// evaluate with, and the pass command for that side.
#[derive(Clone, Debug)]
pub struct Intercept {
    pub color: Color,
    pub probe: Vec<u8>,
    pub pass_command: Vec<u8>,
}

/// Appends `src[from..to]` to `dst`.
fn push_range(dst: &mut Vec<u8>, src: &[u8], from: usize, to: usize)
    requires
        from <= to <= src@.len(),
    ensures
        final(dst)@ == old(dst)@ + src@.subrange(from as int, to as int),
{
    let mut i: usize = from;
    while i < to
        invariant
            from <= i <= to <= src@.len(),
            dst@ == old(dst)@ + src@.subrange(from as int, i as int),
        decreases to - i,
    {
        dst.push(src[i]);
        i = i + 1;
        assert(dst@ =~= old(dst)@ + src@.subrange(from as int, i as int));
    }
}

/// Gives the line with its line break taken off.
pub fn body_of(line: &[u8]) -> (r: Vec<u8>)
    ensures
        r@ == line_body(line@),
{
    let mut n: usize = line.len();
    if n > 0 && line[n - 1] == LF {
        n = n - 1;
    }
    if n > 0 && line[n - 1] == CR {
        n = n - 1;
    }
    let r = slice_to_vec(line, 0, n);
    assert(r@ =~= line_body(line@));
    r
}

/// Builds the pass command for side `c`.
pub fn pass_command(c: Color) -> (r: Vec<u8>)
    ensures
        r@ == pass_command_of(c),
{
    let r: Vec<u8> = vec![112u8, 108, 97, 121, 32, letter(c), 32, 112, 97, 115, 115, 10];
    assert(r@ =~= pass_command_of(c));
    r
}

/// Reads the side to move out of a move-generation line, and builds the
/// probe line and the pass command for it.
pub fn plan_intercept(line: &[u8]) -> (r: Result<Intercept, Fault>)
    ensures
        color_token(line_body(line@)) is None <==> r == Err::<Intercept, Fault>(Fault::MissingColor),
        (color_token(line_body(line@)) is Some && color_named(
            color_token(line_body(line@))->0,
        ) is None) <==> r == Err::<Intercept, Fault>(Fault::UnknownColor),
        (color_token(line_body(line@)) is Some && color_named(
            color_token(line_body(line@))->0,
        ) is Some) ==> r is Ok,
        r is Ok ==> color_token(line_body(line@)) is Some && color_named(
            color_token(line_body(line@))->0,
        ) == Some(r->Ok_0.color) && r->Ok_0.probe@ == probe_of(line_body(line@), r->Ok_0.color)
            && r->Ok_0.pass_command@ == pass_command_of(r->Ok_0.color),
{
    let body = body_of(line);
    let sp = find_byte(&body, SP, 0);
    proof {
        lemma_find_from_bounds(body@, SP, 0);
    }
    if sp >= body.len() {
        return Err(Fault::MissingColor);
    }
    let start = sp + 1;
    let end = find_byte(&body, SP, start);
    proof {
        lemma_find_from_bounds(body@, SP, start as int);
    }
    let token = slice_to_vec(&body, start, end);
    match parse_color(&token) {
        None => Err(Fault::UnknownColor),
        Some(c) => {
            let mut probe: Vec<u8> = Vec::new();
            push_range(&mut probe, &body, 0, start);
            probe.push(letter(opposite(c)));
            push_range(&mut probe, &body, end, body.len());
            probe.push(LF);
            assert(probe@ =~= probe_of(body@, c));
            Ok(Intercept { color: c, probe, pass_command: pass_command(c) })
        },
    }
}

} // verus!
