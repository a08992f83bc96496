use vstd::prelude::*;

verus! {

/// The last three bytes seen, held in a fixed-capacity ring buffer
/// that drops its oldest byte when a fourth is pushed.
#[verifier::external_body]
pub struct Window {
    ring: fixed_vec_deque::FixedVecDeque<[u8; 3]>,
}

/// The bytes a window holds, oldest first.
pub uninterp spec fn window_bytes(w: Window) -> Seq<u8>;

/// The bytes a ring of capacity three holds after `b` is pushed onto `old`.
pub open spec fn pushed(old: Seq<u8>, b: u8) -> Seq<u8> {
    if old.len() < 3 {
        old.push(b)
    } else {
        old.subrange(1, old.len() as int).push(b)
    }
}

/// Relies on FixedVecDeque::new: an empty ring.
#[verifier::external_body]
pub fn window_new() -> (r: Window)
    ensures
        window_bytes(r) == Seq::<u8>::empty(),
{
    Window { ring: fixed_vec_deque::FixedVecDeque::new() }
}

/// Relies on FixedVecDeque::push_back: the slot it hands out becomes the
/// back, and the front is dropped when the ring is full.
#[verifier::external_body]
pub fn window_push(w: &mut Window, b: u8)
    requires
        window_bytes(*old(w)).len() <= 3,
    ensures
        window_bytes(*final(w)) == pushed(window_bytes(*old(w)), b),
{
    *w.ring.push_back() = b;
}

/// Relies on FixedVecDeque::len: the number of bytes held.
#[verifier::external_body]
pub fn window_len(w: &Window) -> (r: usize)
    ensures
        r == window_bytes(*w).len(),
{
    w.ring.len()
}

/// Relies on FixedVecDeque's indexing: position 0 is the front.
#[verifier::external_body]
pub fn window_at(w: &Window, i: usize) -> (r: u8)
    requires
        i < window_bytes(*w).len(),
    ensures
        r == window_bytes(*w)[i as int],
{
    w.ring[i]
}

/// Relies on FixedVecDeque::clear: afterwards the ring is empty.
#[verifier::external_body]
pub fn window_clear(w: &mut Window)
    ensures
        window_bytes(*final(w)) == Seq::<u8>::empty(),
{
    w.ring.clear();
}

} // verus!
