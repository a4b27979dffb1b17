use vstd::prelude::*;

verus! {

/// Little-endian encoding of `n` in `k` bytes.
pub open spec fn le_bytes(n: nat, k: nat) -> Seq<u8>
    decreases k,
{
    if k == 0 {
        Seq::empty()
    } else {
        seq![(n % 256) as u8] + le_bytes(n / 256, (k - 1) as nat)
    }
}

/// A part of a canonical encoding: its length as eight little-endian bytes,
/// then the part itself.
pub open spec fn framed(part: Seq<u8>) -> Seq<u8> {
    le_bytes(part.len(), 8) + part
}

/// Eight little-endian bytes of a count.
pub open spec fn u64_le(n: u64) -> Seq<u8> {
    le_bytes(n as nat, 8)
}

/// Appends the eight little-endian bytes of `n`.
pub fn push_u64_le(target: &mut Vec<u8>, n: u64)
    ensures
        final(target)@ == old(target)@ + u64_le(n),
{
    let ghost start = target@;
    let mut v: u64 = n;
    let mut i: usize = 0;
    while i < 8
        invariant
            i <= 8,
            target@ + le_bytes(v as nat, (8 - i) as nat) == start + u64_le(n),
        decreases 8 - i,
    {
        let ghost before = target@;
        let byte = (v % 256) as u8;
        target.push(byte);
        proof {
            assert(le_bytes(v as nat, (8 - i) as nat) == seq![(v as nat % 256) as u8] + le_bytes(
                v as nat / 256,
                (8 - i - 1) as nat,
            ));
            assert(target@ + le_bytes((v / 256) as nat, (8 - i - 1) as nat) =~= before + le_bytes(
                v as nat,
                (8 - i) as nat,
            ));
        }
        v = v / 256;
        i += 1;
    }
    assert(le_bytes(v as nat, 0) =~= Seq::<u8>::empty());
    assert(target@ =~= target@ + le_bytes(v as nat, 0));
}

/// Appends one framed part.
pub fn push_framed(target: &mut Vec<u8>, part: &[u8])
    ensures
        final(target)@ == old(target)@ + framed(part@),
{
    let ghost start = target@;
    push_u64_le(target, part.len() as u64);
    let mut i: usize = 0;
    while i < part.len()
        invariant
            i <= part.len(),
            target@ == start + u64_le(part@.len() as u64) + part@.take(i as int),
        decreases part.len() - i,
    {
        target.push(part[i]);
        assert(part@.take(i + 1) =~= part@.take(i as int).push(part@[i as int]));
        i += 1;
    }
    assert(part@.take(part.len() as int) =~= part@);
    assert(target@ =~= start + framed(part@));
}

/// Appends a count as a framed eight-byte part.
pub fn push_framed_u64(target: &mut Vec<u8>, n: u64)
    ensures
        final(target)@ == old(target)@ + framed(u64_le(n)),
{
    let ghost start = target@;
    push_u64_le(target, 8);
    let ghost mid = target@;
    push_u64_le(target, n);
    proof {
        lemma_le_bytes_len(n as nat, 8);
        assert(target@ =~= start + framed(u64_le(n)));
    }
}

/// Appends a 32-bit value as a framed four-byte part.
pub fn push_framed_u32(target: &mut Vec<u8>, n: u32)
    ensures
        final(target)@ == old(target)@ + framed(le_bytes(n as nat, 4)),
{
    let ghost start = target@;
    push_u64_le(target, 4);
    let mut v: u32 = n;
    let mut i: usize = 0;
    while i < 4
        invariant
            i <= 4,
            target@ + le_bytes(v as nat, (4 - i) as nat) == start + u64_le(4) + le_bytes(
                n as nat,
                4,
            ),
        decreases 4 - i,
    {
        let ghost before = target@;
        let byte = (v % 256) as u8;
        target.push(byte);
        proof {
            assert(target@ + le_bytes((v / 256) as nat, (4 - i - 1) as nat) =~= before + le_bytes(
                v as nat,
                (4 - i) as nat,
            ));
        }
        v = v / 256;
        i += 1;
    }
    assert(le_bytes(v as nat, 0) =~= Seq::<u8>::empty());
    proof {
        lemma_le_bytes_len(n as nat, 4);
    }
    assert(target@ =~= start + framed(le_bytes(n as nat, 4)));
}

pub proof fn lemma_le_bytes_len(n: nat, k: nat)
    ensures
        le_bytes(n, k).len() == k,
    decreases k,
{
    if k > 0 {
        lemma_le_bytes_len(n / 256, (k - 1) as nat);
    }
}

} // verus!
