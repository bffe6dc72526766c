//! Raw pixel buffers as a platform hands them over, and their conversion
//! into the one channel order the rest of the pipeline works on.

use vstd::prelude::*;

verus! {

/// Number of bytes that make up one pixel.
pub const BYTES_PER_PIXEL: usize = 4;

/// Order in which a platform lays out the four channels of a pixel.
#[derive(Clone, Copy, Debug, PartialEq, Eq, Structural)]
pub enum ChannelOrder {
    /// Red, green, blue, alpha: the canonical order.
    Rgba,
    /// Blue, green, red, alpha.
    Bgra,
}

/// Number of bytes of `len` that belong to whole pixels.
pub open spec fn whole_pixel_bytes(len: int) -> int {
    len - len % 4
}

/// The position in the source buffer from which byte `i` of the reordered
/// buffer is taken. Red and blue trade places inside every whole pixel of a
/// `Bgra` buffer; green, alpha and a trailing partial pixel stay in place.
pub open spec fn source_index(order: ChannelOrder, len: int, i: int) -> int {
    if order == ChannelOrder::Bgra && i < whole_pixel_bytes(len) {
        if i % 4 == 0 {
            i + 2
        } else if i % 4 == 2 {
            i - 2
        } else {
            i
        }
    } else {
        i
    }
}

/// The buffer `bytes` with its channels moved between `order` and the
/// canonical order. The same exchange serves both directions.
pub open spec fn reordered(bytes: Seq<u8>, order: ChannelOrder) -> Seq<u8> {
    Seq::new(bytes.len(), |i: int| bytes[source_index(order, bytes.len() as int, i)])
}

/// Exchanging the channels twice gives back every byte of the buffer.
pub proof fn lemma_reorder_involutive(bytes: Seq<u8>, order: ChannelOrder)
    ensures
        reordered(reordered(bytes, order), order) == bytes,
{
}

/// Moves the channels of `bytes` from `order` into the canonical order.
pub fn reorder_channels(bytes: &[u8], order: ChannelOrder) -> (out: Vec<u8>)
    ensures
        out@ == reordered(bytes@, order),
{
    let len = bytes.len();
    let whole: usize = len - len % 4;
    let mut out: Vec<u8> = Vec::with_capacity(len);
    let mut i: usize = 0;
    while i < len
        invariant
            len == bytes@.len(),
            whole == whole_pixel_bytes(len as int),
            i <= len,
            out@.len() == i,
            forall|k: int| 0 <= k < i ==> out@[k] == bytes@[source_index(order, len as int, k)],
        decreases len - i,
    {
        let from: usize = match order {
            ChannelOrder::Rgba => i,
            ChannelOrder::Bgra => {
                if i < whole {
                    if i % 4 == 0 {
                        i + 2
                    } else if i % 4 == 2 {
                        i - 2
                    } else {
                        i
                    }
                } else {
                    i
                }
            },
        };
        out.push(bytes[from]);
        i = i + 1;
    }
    out
}

/// Moves the channels of a canonical buffer back into `order`.
pub fn restore_channels(pixels: &[u8], order: ChannelOrder) -> (out: Vec<u8>)
    ensures
        out@ == reordered(pixels@, order),
        reordered(out@, order) == pixels@,
{
    proof {
        lemma_reorder_involutive(pixels@, order);
    }
    reorder_channels(pixels, order)
}

} // verus!
