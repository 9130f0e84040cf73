//! How a request or reply body is cut into frames.

use vstd::prelude::*;

verus! {

/// How many bytes a body is asked for at a time when it is read frame by frame.
pub const FRAME_BUFFER_SIZE: usize = 8192;

/// The frame made of a read that put `n` bytes at the front of `buffer`: none
/// when nothing was read, which ends the body, and else those `n` bytes.
pub fn frame_from_read(buffer: &[u8], n: usize) -> (r: Option<Vec<u8>>)
    requires
        n <= buffer@.len(),
    ensures
        n == 0 ==> r is None,
        n > 0 ==> (r matches Some(f) && f@ == buffer@.take(n as int)),
{
    if n == 0 {
        return None;
    }
    let mut frame: Vec<u8> = Vec::with_capacity(n);
    let mut i: usize = 0;
    while i < n
        invariant
            n <= buffer@.len(),
            i <= n,
            frame@ == buffer@.take(i as int),
        decreases n - i,
    {
        frame.push(buffer[i]);
        i = i + 1;
        assert(frame@ =~= buffer@.take(i as int));
    }
    Some(frame)
}

} // verus!
