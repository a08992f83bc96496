use vstd::prelude::*;

verus! {

/// Why the intermediary cannot go on.
#[derive(Clone, Copy, Debug, PartialEq, Eq, Structural)]
pub enum Fault {
    /// A move-generation line with no color argument.
    MissingColor,
    /// A move-generation line whose color argument names no color.
    UnknownColor,
    /// An event that the broker's current state does not expect.
    OutOfOrder,
    /// The other end of the response channel is gone.
    ChannelClosed,
}

} // verus!
