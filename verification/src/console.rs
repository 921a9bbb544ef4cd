//! What goes out to the console: the bytes as they are, but for the line
//! feed, which a terminal wants preceded by a carriage return.

use vstd::prelude::*;

verus! {

/// The byte that ends a line.
pub const LINE_FEED: u8 = 0x0a;

/// The byte that a terminal wants in front of a line feed.
pub const CARRIAGE_RETURN: u8 = 0x0d;

/// What is sent for one byte.
pub open spec fn spec_putchar(c: u8) -> Seq<u8> {
    if c == LINE_FEED {
        seq![CARRIAGE_RETURN, LINE_FEED]
    } else {
        seq![c]
    }
}

/// What is sent for a run of bytes.
pub open spec fn spec_write_bytes(bytes: Seq<u8>) -> Seq<u8>
    decreases bytes.len(),
{
    if bytes.len() == 0 {
        Seq::empty()
    } else {
        spec_write_bytes(bytes.drop_last()) + spec_putchar(bytes.last())
    }
}

/// Appends to `out` what is sent for the byte `c`.
pub fn do_putchar(out: &mut Vec<u8>, c: u8)
    ensures
        final(out)@ == old(out)@ + spec_putchar(c),
{
    if c == LINE_FEED {
        out.push(CARRIAGE_RETURN);
        out.push(LINE_FEED);
    } else {
        out.push(c);
    }
    assert(out@ =~= old(out)@ + spec_putchar(c));
}

/// What is sent to the console for `bytes`.
pub fn write_bytes(bytes: &[u8]) -> (out: Vec<u8>)
    ensures
        out@ == spec_write_bytes(bytes@),
{
    let mut out: Vec<u8> = Vec::new();
    let mut i: usize = 0;
    while i < bytes.len()
        invariant
            i <= bytes.len(),
            out@ == spec_write_bytes(bytes@.take(i as int)),
        decreases bytes.len() - i,
    {
        do_putchar(&mut out, bytes[i]);
        proof {
            let upto = bytes@.take(i + 1);
            assert(upto.drop_last() =~= bytes@.take(i as int));
            assert(upto.last() == bytes@[i as int]);
        }
        i = i + 1;
    }
    assert(bytes@.take(i as int) =~= bytes@);
    out
}

/// What is sent for two runs of bytes in a row is what is sent for the
/// first, followed by what is sent for the second.
pub proof fn lemma_write_bytes_concat(a: Seq<u8>, b: Seq<u8>)
    ensures
        spec_write_bytes(a + b) == spec_write_bytes(a) + spec_write_bytes(b),
    decreases b.len(),
{
    if b.len() == 0 {
        assert(a + b =~= a);
        assert(spec_write_bytes(a) + spec_write_bytes(b) =~= spec_write_bytes(a));
    } else {
        lemma_write_bytes_concat(a, b.drop_last());
        assert((a + b).drop_last() =~= a + b.drop_last());
        assert((a + b).last() == b.last());
        assert(spec_write_bytes(a + b) =~= spec_write_bytes(a) + spec_write_bytes(b));
    }
}

/// Every line feed that goes out follows a carriage return, and nothing is
/// lost: the output is at least as long as the input, and at most twice.
pub proof fn lemma_write_bytes_length(bytes: Seq<u8>)
    ensures
        bytes.len() <= spec_write_bytes(bytes).len() <= 2 * bytes.len(),
        forall|i: int|
            0 <= i < spec_write_bytes(bytes).len() && #[trigger] spec_write_bytes(bytes)[i]
                == LINE_FEED ==> i > 0 && spec_write_bytes(bytes)[i - 1] == CARRIAGE_RETURN,
    decreases bytes.len(),
{
    if bytes.len() > 0 {
        let head = spec_write_bytes(bytes.drop_last());
        let tail = spec_putchar(bytes.last());
        lemma_write_bytes_length(bytes.drop_last());
        assert forall|i: int|
            0 <= i < (head + tail).len() && #[trigger] (head + tail)[i] == LINE_FEED implies i > 0
            && (head + tail)[i - 1] == CARRIAGE_RETURN by {
            if i < head.len() {
                assert(head[i] == LINE_FEED);
            } else if i > head.len() {
                assert((head + tail)[i - 1] == tail[i - 1 - head.len()]);
            }
        }
    }
}

} // verus!
