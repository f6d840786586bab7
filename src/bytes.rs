use vstd::prelude::*;

verus! {

/// The `len` lowest base-256 digits of `n`, least significant first.
pub open spec fn le_bytes(n: nat, len: nat) -> Seq<u8>
    decreases len,
{
    if len == 0 {
        Seq::empty()
    } else {
        seq![(n % 256) as u8].add(le_bytes(n / 256, (len - 1) as nat))
    }
}

/// `le_bytes` yields exactly `len` bytes.
pub proof fn lemma_le_bytes_len(n: nat, len: nat)
    ensures
        le_bytes(n, len).len() == len,
    decreases len,
{
    if len > 0 {
        lemma_le_bytes_len(n / 256, (len - 1) as nat);
    }
}

/// The 16-byte little-endian encoding of `n`.
pub fn u128_to_le_bytes(n: u128) -> (r: [u8; 16])
    ensures
        r@ == le_bytes(n as nat, 16),
{
    let mut r: [u8; 16] = [0u8; 16];
    let mut v: u128 = n;
    let mut i: usize = 0;
    while i < 16
        invariant
            0 <= i <= 16,
            r@.len() == 16,
            r@.subrange(0, i as int).add(le_bytes(v as nat, (16 - i) as nat)) == le_bytes(
                n as nat,
                16,
            ),
        decreases 16 - i,
    {
        let ghost before = r@;
        r[i] = (v % 256) as u8;
        proof {
            assert(r@.subrange(0, i + 1) =~= before.subrange(0, i as int).push((v % 256) as u8));
            assert(le_bytes(v as nat, (16 - i) as nat) =~= seq![(v % 256) as u8].add(
                le_bytes((v / 256) as nat, (16 - i - 1) as nat),
            ));
            assert(r@.subrange(0, i + 1).add(le_bytes((v / 256) as nat, (16 - i - 1) as nat))
                =~= before.subrange(0, i as int).add(le_bytes(v as nat, (16 - i) as nat)));
        }
        v = v / 256;
        i = i + 1;
    }
    assert(r@.subrange(0, 16) =~= r@);
    assert(le_bytes(v as nat, 0) =~= Seq::<u8>::empty());
    assert(r@.subrange(0, 16).add(le_bytes(v as nat, 0)) =~= r@);
    r
}

/// Appends the `len` lowest little-endian bytes of `n` to `out`.
pub fn push_le_bytes(out: &mut Vec<u8>, n: u128, len: usize)
    ensures
        final(out)@ == old(out)@.add(le_bytes(n as nat, len as nat)),
{
    let ghost start = out@;
    let mut v: u128 = n;
    let mut i: usize = 0;
    while i < len
        invariant
            i <= len,
            out@.add(le_bytes(v as nat, (len - i) as nat)) == start.add(
                le_bytes(n as nat, len as nat),
            ),
        decreases len - i,
    {
        let ghost before = out@;
        out.push((v % 256) as u8);
        proof {
            assert(le_bytes(v as nat, (len - i) as nat) =~= seq![(v % 256) as u8].add(
                le_bytes((v / 256) as nat, (len - i - 1) as nat),
            ));
            assert(out@.add(le_bytes((v / 256) as nat, (len - i - 1) as nat)) =~= before.add(
                le_bytes(v as nat, (len - i) as nat),
            ));
        }
        v = v / 256;
        i = i + 1;
    }
    assert(out@.add(le_bytes(v as nat, 0)) =~= out@);
}

/// Appends the bytes of `b` to `out`.
pub fn push_all(out: &mut Vec<u8>, b: &[u8])
    ensures
        final(out)@ == old(out)@.add(b@),
{
    let ghost start = out@;
    let mut i: usize = 0;
    while i < b.len()
        invariant
            i <= b@.len(),
            out@ == start.add(b@.take(i as int)),
        decreases b@.len() - i,
    {
        out.push(b[i]);
        i = i + 1;
        assert(out@ =~= start.add(b@.take(i as int)));
    }
    assert(b@.take(b@.len() as int) =~= b@);
}

} // verus!
