//! The fixed protocol text the broker writes, as bytes.
use vstd::prelude::*;

verus! {

/// `KataPass is considering passing...` and a line feed: the diagnostic
/// line written when a line is intercepted.
pub open spec fn considering_text() -> Seq<u8> {
    seq![75u8, 97, 116, 97, 80, 97, 115, 115, 32, 105, 115, 32, 99, 111, 110, 115, 105, 100, 101, 114, 105, 110, 103, 32, 112, 97, 115, 115, 105, 110, 103, 46, 46, 46, 10]
}

/// `KataPass has decided to play.` and a line feed: the diagnostic line
/// written when the original line goes on.
pub open spec fn decided_play_text() -> Seq<u8> {
    seq![75u8, 97, 116, 97, 80, 97, 115, 115, 32, 104, 97, 115, 32, 100, 101, 99, 105, 100, 101, 100, 32, 116, 111, 32, 112, 108, 97, 121, 46, 10]
}

/// `KataPass has decided to pass.` and a line feed: the diagnostic line
/// written when a pass is put in its place.
pub open spec fn decided_pass_text() -> Seq<u8> {
    seq![75u8, 97, 116, 97, 80, 97, 115, 115, 32, 104, 97, 115, 32, 100, 101, 99, 105, 100, 101, 100, 32, 116, 111, 32, 112, 97, 115, 115, 46, 10]
}

/// `undo` and a line feed: the command that takes back the probed move.
pub open spec fn undo_command_text() -> Seq<u8> {
    seq![117u8, 110, 100, 111, 10]
}

/// `=`, a line feed, `play pass`, and a blank line: the acknowledgement
/// handed to the controller when passing.
pub open spec fn pass_reply_text() -> Seq<u8> {
    seq![61u8, 10, 112, 108, 97, 121, 32, 112, 97, 115, 115, 10, 10]
}

/// Builds `considering_text`.
pub fn considering() -> (r: Vec<u8>)
    ensures
        r@ == considering_text(),
{
    let r: Vec<u8> = vec![75u8, 97, 116, 97, 80, 97, 115, 115, 32, 105, 115, 32, 99, 111, 110, 115, 105, 100, 101, 114, 105, 110, 103, 32, 112, 97, 115, 115, 105, 110, 103, 46, 46, 46, 10];
    assert(r@ =~= considering_text());
    r
}

/// Builds `decided_play_text`.
pub fn decided_play() -> (r: Vec<u8>)
    ensures
        r@ == decided_play_text(),
{
    let r: Vec<u8> = vec![75u8, 97, 116, 97, 80, 97, 115, 115, 32, 104, 97, 115, 32, 100, 101, 99, 105, 100, 101, 100, 32, 116, 111, 32, 112, 108, 97, 121, 46, 10];
    assert(r@ =~= decided_play_text());
    r
}

/// Builds `decided_pass_text`.
pub fn decided_pass() -> (r: Vec<u8>)
    ensures
        r@ == decided_pass_text(),
{
    let r: Vec<u8> = vec![75u8, 97, 116, 97, 80, 97, 115, 115, 32, 104, 97, 115, 32, 100, 101, 99, 105, 100, 101, 100, 32, 116, 111, 32, 112, 97, 115, 115, 46, 10];
    assert(r@ =~= decided_pass_text());
    r
}

/// Builds `undo_command_text`.
pub fn undo_command() -> (r: Vec<u8>)
    ensures
        r@ == undo_command_text(),
{
    let r: Vec<u8> = vec![117u8, 110, 100, 111, 10];
    assert(r@ =~= undo_command_text());
    r
}

/// Builds `pass_reply_text`.
pub fn pass_reply() -> (r: Vec<u8>)
    ensures
        r@ == pass_reply_text(),
{
    let r: Vec<u8> = vec![61u8, 10, 112, 108, 97, 121, 32, 112, 97, 115, 115, 10, 10];
    assert(r@ =~= pass_reply_text());
    r
}

} // verus!
