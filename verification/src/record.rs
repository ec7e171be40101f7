//! The proof record: what a player discloses of a draw.

use vstd::prelude::*;

verus! {

/// The pre-output within the bytes of a record: bytes 0 to 31.
pub open spec fn record_pre_output(record: Seq<u8>) -> Seq<u8> {
    record.subrange(0, 32)
}

/// The proof within the bytes of a record: bytes 32 to 95.
pub open spec fn record_proof(record: Seq<u8>) -> Seq<u8> {
    record.subrange(32, 96)
}

/// The draw index within the bytes of a record: byte 96.
pub open spec fn record_draw_index(record: Seq<u8>) -> u8 {
    record[96]
}

/// The bytes of the record of a pre-output, a proof and a draw index.
pub open spec fn record_bytes(pre_output: Seq<u8>, proof_bytes: Seq<u8>, draw_index: u8) -> Seq<
    u8,
> {
    pre_output + proof_bytes + seq![draw_index]
}

/// A record that was packed holds its three parts where they are read.
pub proof fn lemma_record_layout(pre_output: Seq<u8>, proof_bytes: Seq<u8>, draw_index: u8)
    requires
        pre_output.len() == 32,
        proof_bytes.len() == 64,
    ensures
        record_bytes(pre_output, proof_bytes, draw_index).len() == 97,
        record_pre_output(record_bytes(pre_output, proof_bytes, draw_index)) == pre_output,
        record_proof(record_bytes(pre_output, proof_bytes, draw_index)) == proof_bytes,
        record_draw_index(record_bytes(pre_output, proof_bytes, draw_index)) == draw_index,
{
    let bytes = record_bytes(pre_output, proof_bytes, draw_index);
    assert(bytes.subrange(0, 32) =~= pre_output);
    assert(bytes.subrange(32, 96) =~= proof_bytes);
}

/// A pre-output, the proof that belongs to it and the index of the draw,
/// in 97 bytes. It carries all that a verifier needs besides the public
/// key and the seed.
#[derive(Clone, Copy, Debug, PartialEq, Eq)]
pub struct ProofRecord {
    pub bytes: [u8; 97],
}

impl View for ProofRecord {
    type V = Seq<u8>;

    open spec fn view(&self) -> Seq<u8> {
        self.bytes@
    }
}

impl ProofRecord {
    /// Takes a record as it was disclosed.
    pub fn from_bytes(bytes: [u8; 97]) -> (record: ProofRecord)
        ensures
            record@ == bytes@,
    {
        ProofRecord { bytes }
    }

    /// The bytes to disclose.
    pub fn to_bytes(&self) -> (bytes: [u8; 97])
        ensures
            bytes@ == self@,
    {
        self.bytes
    }

    /// Packs a pre-output, a proof and a draw index into a record.
    pub fn pack(pre_output: &[u8; 32], proof_bytes: &[u8; 64], draw_index: u8) -> (record:
        ProofRecord)
        ensures
            record@ == record_bytes(pre_output@, proof_bytes@, draw_index),
    {
        let mut bytes: [u8; 97] = [0u8; 97];
        let mut i: usize = 0;
        while i < 32
            invariant
                i <= 32,
                forall|j: int| 0 <= j < i ==> bytes@[j] == pre_output@[j],
            decreases 32 - i,
        {
            bytes[i] = pre_output[i];
            i += 1;
        }
        let mut k: usize = 0;
        while k < 64
            invariant
                k <= 64,
                forall|j: int| 0 <= j < 32 ==> bytes@[j] == pre_output@[j],
                forall|j: int| 0 <= j < k ==> bytes@[32 + j] == proof_bytes@[j],
            decreases 64 - k,
        {
            bytes[32 + k] = proof_bytes[k];
            k += 1;
        }
        bytes[96] = draw_index;
        assert(bytes@ =~= record_bytes(pre_output@, proof_bytes@, draw_index));
        ProofRecord { bytes }
    }

    /// The pre-output of the record.
    pub fn pre_output(&self) -> (pre_output: [u8; 32])
        ensures
            pre_output@ == record_pre_output(self@),
    {
        let mut out: [u8; 32] = [0u8; 32];
        let mut i: usize = 0;
        while i < 32
            invariant
                i <= 32,
                forall|j: int| 0 <= j < i ==> out@[j] == self.bytes@[j],
            decreases 32 - i,
        {
            out[i] = self.bytes[i];
            i += 1;
        }
        assert(out@ =~= record_pre_output(self@));
        out
    }

    /// The proof of the record.
    pub fn proof_bytes(&self) -> (proof_bytes: [u8; 64])
        ensures
            proof_bytes@ == record_proof(self@),
    {
        let mut out: [u8; 64] = [0u8; 64];
        let mut i: usize = 0;
        while i < 64
            invariant
                i <= 64,
                forall|j: int| 0 <= j < i ==> out@[j] == self.bytes@[32 + j],
            decreases 64 - i,
        {
            out[i] = self.bytes[32 + i];
            i += 1;
        }
        assert(out@ =~= record_proof(self@));
        out
    }

    /// The index of the draw that the record is of.
    pub fn draw_index(&self) -> (draw_index: u8)
        ensures
            draw_index == record_draw_index(self@),
    {
        self.bytes[96]
    }
}

} // verus!
