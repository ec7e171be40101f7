//! Little-endian numbers and byte sequences.

use vstd::prelude::*;

verus! {

/// The number that `bytes` encode with the least significant byte first.
pub open spec fn le_value(bytes: Seq<u8>) -> nat
    decreases bytes.len(),
{
    if bytes.len() == 0 {
        0
    } else {
        (bytes[0] as nat) + 256 * le_value(bytes.drop_first())
    }
}

/// 256 to the power of `n`.
pub open spec fn pow256(n: nat) -> nat
    decreases n,
{
    if n == 0 {
        1
    } else {
        256 * pow256((n - 1) as nat)
    }
}

/// The eight bytes that encode `x` with the least significant byte first.
pub open spec fn u64_le_bytes(x: u64) -> Seq<u8> {
    Seq::new(8, |i: int| ((x as nat / pow256(i as nat)) % 256) as u8)
}

/// The sequences of `parts` one after the other.
pub open spec fn concat(parts: Seq<Seq<u8>>) -> Seq<u8>
    decreases parts.len(),
{
    if parts.len() == 0 {
        Seq::empty()
    } else {
        concat(parts.drop_last()) + parts.last()
    }
}

/// The powers of 256 up to the eighth.
pub proof fn lemma_pow256_values()
    ensures
        pow256(0) == 1,
        pow256(1) == 0x100,
        pow256(2) == 0x1_0000,
        pow256(3) == 0x100_0000,
        pow256(4) == 0x1_0000_0000,
        pow256(5) == 0x100_0000_0000,
        pow256(6) == 0x1_0000_0000_0000,
        pow256(7) == 0x100_0000_0000_0000,
        pow256(8) == 0x1_0000_0000_0000_0000,
{
    reveal_with_fuel(pow256, 9);
}

/// 256 to a power grows with the power.
pub proof fn lemma_pow256_monotonic(m: nat, n: nat)
    requires
        m <= n,
    ensures
        1 <= pow256(m) <= pow256(n),
    decreases n,
{
    if m < n {
        lemma_pow256_monotonic(m, (n - 1) as nat);
    } else if n > 0 {
        lemma_pow256_monotonic((m - 1) as nat, (n - 1) as nat);
    }
}

/// A number below 256 is encoded as itself followed by seven zero bytes.
pub proof fn lemma_u64_le_bytes_of_byte(x: u8)
    ensures
        u64_le_bytes(x as u64) == seq![x, 0u8, 0u8, 0u8, 0u8, 0u8, 0u8, 0u8],
{
    lemma_pow256_values();
    let bytes = u64_le_bytes(x as u64);
    let n = x as nat;
    assert(bytes[0] == ((n / pow256(0)) % 256) as u8);
    assert(bytes[1] == ((n / pow256(1)) % 256) as u8 && n / 0x100 == 0);
    assert(bytes[2] == ((n / pow256(2)) % 256) as u8 && n / 0x1_0000 == 0);
    assert(bytes[3] == ((n / pow256(3)) % 256) as u8 && n / 0x100_0000 == 0);
    assert(bytes[4] == ((n / pow256(4)) % 256) as u8 && n / 0x1_0000_0000 == 0);
    assert(bytes[5] == ((n / pow256(5)) % 256) as u8 && n / 0x100_0000_0000 == 0);
    assert(bytes[6] == ((n / pow256(6)) % 256) as u8 && n / 0x1_0000_0000_0000 == 0);
    assert(bytes[7] == ((n / pow256(7)) % 256) as u8 && n / 0x100_0000_0000_0000 == 0);
    assert(bytes =~= seq![x, 0u8, 0u8, 0u8, 0u8, 0u8, 0u8, 0u8]);
}

/// Adding one more part to the parts adds it to the end of what they make.
pub proof fn lemma_concat_push(parts: Seq<Seq<u8>>, part: Seq<u8>)
    ensures
        concat(parts.push(part)) == concat(parts) + part,
{
    assert(parts.push(part).drop_last() =~= parts);
}

} // verus!
