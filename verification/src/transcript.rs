//! Merlin transcripts as this library sees them: a log of labelled messages.

use vstd::prelude::*;
use merlin::Transcript;
use crate::bytes::u64_le_bytes;

verus! {

/// `merlin::Transcript`, carried as a value of which only its log is known.
#[verifier::external_type_specification]
#[verifier::external_body]
pub struct ExTranscript(Transcript);

/// The labelled messages that a transcript has absorbed, oldest first, each
/// as the pair of its label and its bytes. The state of a transcript that
/// was made by `Transcript::new` and extended by appending is a function of
/// this log.
pub uninterp spec fn transcript_log(t: Transcript) -> Seq<(Seq<u8>, Seq<u8>)>;

/// The bytes that `Transcript::challenge_bytes` writes into a buffer of
/// `len` bytes under `label`, on a transcript with the given log.
pub uninterp spec fn transcript_challenge(
    log: Seq<(Seq<u8>, Seq<u8>)>,
    label: Seq<u8>,
    len: nat,
) -> Seq<u8>;

/// The label under which a new transcript absorbs its domain separator:
/// the bytes of `dom-sep`.
pub open spec fn domain_separator_label() -> Seq<u8> {
    seq![100u8, 111u8, 109u8, 45u8, 115u8, 101u8, 112u8]
}

/// The log of a transcript that was started under `domain` and has
/// absorbed nothing else.
pub open spec fn new_log(domain: Seq<u8>) -> Seq<(Seq<u8>, Seq<u8>)> {
    seq![(domain_separator_label(), domain)]
}

/// `merlin::Transcript::new`: the new transcript has absorbed one message,
/// the domain separator `label`, under the label `dom-sep`. Merlin frames
/// that message by its length in 32 bits and panics on a longer one.
pub assume_specification[ Transcript::new ](label: &'static [u8]) -> (t: Transcript)
    requires
        label@.len() <= u32::MAX,
    ensures
        transcript_log(t) == new_log(label@),
;

/// `merlin::Transcript::append_message`: the message is added to the end of
/// the log under its label. Merlin frames a message by its length in 32
/// bits and panics on a longer one.
pub assume_specification[ Transcript::append_message ](
    t: &mut Transcript,
    label: &'static [u8],
    message: &[u8],
)
    requires
        message@.len() <= u32::MAX,
    ensures
        transcript_log(*final(t)) == transcript_log(*old(t)).push((label@, message@)),
;

/// `merlin::Transcript::append_u64`: appends the eight bytes of `x`, least
/// significant first, as a message.
pub assume_specification[ Transcript::append_u64 ](
    t: &mut Transcript,
    label: &'static [u8],
    x: u64,
)
    ensures
        transcript_log(*final(t)) == transcript_log(*old(t)).push((label@, u64_le_bytes(x))),
;

/// `merlin::Transcript::challenge_bytes`: fills `dest` with bytes that are
/// a function of the log so far, the label and the length of `dest`.
/// Merlin frames the length in 32 bits and panics on a longer buffer.
pub assume_specification[ Transcript::challenge_bytes ](
    t: &mut Transcript,
    label: &'static [u8],
    dest: &mut [u8],
)
    requires
        old(dest)@.len() <= u32::MAX,
    ensures
        final(dest)@ == transcript_challenge(
            transcript_log(*old(t)),
            label@,
            old(dest)@.len(),
        ),
;

} // verus!
