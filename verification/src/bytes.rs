use vstd::prelude::*;

verus! {

/// Append all of `b` to the end of `v`.
pub fn append_bytes(v: &mut Vec<u8>, b: &[u8])
    ensures
        final(v)@ == old(v)@ + b@,
{
    let n = b.len();
    let ghost start = v@;
    let mut i: usize = 0;
    while i < n
        invariant
            n == b@.len(),
            i <= n,
            v@ == start + b@.subrange(0, i as int),
        decreases n - i,
    {
        v.push(b[i]);
        proof {
            assert(start + b@.subrange(0, i as int) + seq![b@[i as int]] =~= start + b@.subrange(
                0,
                i as int + 1,
            ));
        }
        i = i + 1;
    }
    proof {
        assert(b@.subrange(0, n as int) =~= b@);
    }
}

/// Copy 24 bytes of `src`, starting at `off`, into a fresh array.
pub fn copy24(src: &[u8], off: usize) -> (r: [u8; 24])
    requires
        off + 24 <= src@.len(),
    ensures
        r@ == src@.subrange(off as int, off as int + 24),
{
    let n = src.len();
    let mut out = [0u8; 24];
    let mut i: usize = 0;
    while i < 24
        invariant
            off + 24 <= n == src@.len(),
            i <= 24,
            forall|j: int| 0 <= j < i ==> out@[j] == src@[off + j],
        decreases 24 - i,
    {
        out[i] = src[off + i];
        i = i + 1;
    }
    proof {
        assert(out@ =~= src@.subrange(off as int, off as int + 24));
    }
    out
}

/// Copy 32 bytes of `src`, starting at `off`, into a fresh array.
pub fn copy32(src: &[u8], off: usize) -> (r: [u8; 32])
    requires
        off + 32 <= src@.len(),
    ensures
        r@ == src@.subrange(off as int, off as int + 32),
{
    let n = src.len();
    let mut out = [0u8; 32];
    let mut i: usize = 0;
    while i < 32
        invariant
            off + 32 <= n == src@.len(),
            i <= 32,
            forall|j: int| 0 <= j < i ==> out@[j] == src@[off + j],
        decreases 32 - i,
    {
        out[i] = src[off + i];
        i = i + 1;
    }
    proof {
        assert(out@ =~= src@.subrange(off as int, off as int + 32));
    }
    out
}

/// Copy 64 bytes of `src`, starting at `off`, into a fresh array.
pub fn copy64(src: &[u8], off: usize) -> (r: [u8; 64])
    requires
        off + 64 <= src@.len(),
    ensures
        r@ == src@.subrange(off as int, off as int + 64),
{
    let n = src.len();
    let mut out = [0u8; 64];
    let mut i: usize = 0;
    while i < 64
        invariant
            off + 64 <= n == src@.len(),
            i <= 64,
            forall|j: int| 0 <= j < i ==> out@[j] == src@[off + j],
        decreases 64 - i,
    {
        out[i] = src[off + i];
        i = i + 1;
    }
    proof {
        assert(out@ =~= src@.subrange(off as int, off as int + 64));
    }
    out
}

} // verus!
