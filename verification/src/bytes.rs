//! Small byte-buffer helpers the protocol stages share.

use vstd::prelude::*;

verus! {

/// The big-endian 16-bit value at position `i` of the buffer.
pub open spec fn port_at(b: Seq<u8>, i: int) -> u16
    recommends
        0 <= i,
        i + 2 <= b.len(),
{
    (b[i] * 256 + b[i + 1]) as u16
}

/// The two big-endian bytes of a 16-bit value.
pub open spec fn port_bytes(port: u16) -> Seq<u8> {
    seq![(port / 256) as u8, (port % 256) as u8]
}

/// Copies `len` bytes of the buffer starting at `start`.
pub fn copy_range(buf: &Vec<u8>, start: usize, len: usize) -> (r: Vec<u8>)
    requires
        start + len <= buf@.len(),
    ensures
        r@ == buf@.subrange(start as int, start + len),
{
    let n = buf.len();
    let mut out: Vec<u8> = Vec::new();
    let mut i: usize = 0;
    while i < len
        invariant
            i <= len,
            n == buf@.len(),
            start + len <= n,
            out@ == buf@.subrange(start as int, start + i),
        decreases len - i,
    {
        out.push(buf[start + i]);
        proof {
            assert(out@ =~= buf@.subrange(start as int, start + i + 1));
        }
        i = i + 1;
    }
    out
}

/// Reads the big-endian 16-bit value at position `i` of the buffer.
pub fn read_port(buf: &Vec<u8>, i: usize) -> (r: u16)
    requires
        i + 2 <= buf@.len(),
    ensures
        r == port_at(buf@, i as int),
{
    let n = buf.len();
    proof {
        assert(i + 2 <= n);
    }
    (buf[i] as u16) * 256 + (buf[i + 1] as u16)
}

/// Appends the whole of `bytes` to `out`.
pub fn append_bytes(out: &mut Vec<u8>, bytes: &Vec<u8>)
    ensures
        final(out)@ == old(out)@ + bytes@,
{
    let ghost orig = out@;
    let mut i: usize = 0;
    proof {
        assert(out@ =~= orig + bytes@.take(0));
    }
    while i < bytes.len()
        invariant
            i <= bytes@.len(),
            out@ == orig + bytes@.take(i as int),
        decreases bytes@.len() - i,
    {
        out.push(bytes[i]);
        proof {
            assert(out@ =~= orig + bytes@.take(i + 1 as int));
        }
        i = i + 1;
    }
    proof {
        assert(orig + bytes@.take(bytes@.len() as int) =~= orig + bytes@);
    }
}

} // verus!
