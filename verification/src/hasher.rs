//! Fingerprints of what a layout depends on.
//!
//! A widget writes into a [`Hasher`] everything that its size depends on. Two
//! hashers that were written the same byte strings in the same order finish
//! with the same fingerprint, so a cached layout whose fingerprint has not
//! changed can be kept.
use std::collections::hash_map::DefaultHasher;
use vstd::prelude::*;
use vstd::utf8::encode_utf8;
use crate::length::Length;

verus! {

/// The hasher that layouts are fingerprinted with. Its view is the sequence
/// of the byte strings written into it so far.
pub type Hasher = DefaultHasher;

/// What a text adds to a hasher: its bytes, then a byte that no text holds,
/// so that two texts in a row never read as one.
pub open spec fn text_writes(text: Seq<char>) -> Seq<Seq<u8>> {
    seq![encode_utf8(text), seq![0xffu8]]
}

/// What a sequence of texts adds to a hasher: each text in turn.
pub open spec fn texts_writes(texts: Seq<Seq<char>>) -> Seq<Seq<u8>>
    decreases texts.len(),
{
    if texts.len() == 0 {
        Seq::empty()
    } else {
        texts_writes(texts.drop_last()) + text_writes(texts.last())
    }
}

/// What a length adds to a hasher: a byte for its kind and, for a fixed
/// length, the two bytes of its pixels, the low one first.
pub open spec fn length_writes(length: Length) -> Seq<Seq<u8>> {
    match length {
        Length::Fill => seq![seq![0u8]],
        Length::Shrink => seq![seq![1u8]],
        Length::Fixed(units) => seq![seq![2u8, (units % 256) as u8, (units / 256) as u8]],
    }
}

/// Writes `text` into `state`.
pub fn write_text(state: &mut Hasher, text: &str)
    ensures
        final(state)@ == old(state)@ + text_writes(text@),
{
    let end: [u8; 1] = [0xff];
    std::hash::Hasher::write(state, text.as_bytes());
    std::hash::Hasher::write(state, end.as_slice());
    assert(end@ == seq![0xffu8]);
}

/// Writes `length` into `state`.
pub fn write_length(state: &mut Hasher, length: Length)
    ensures
        final(state)@ == old(state)@ + length_writes(length),
{
    match length {
        Length::Fill => {
            let bytes: [u8; 1] = [0];
            std::hash::Hasher::write(state, bytes.as_slice());
            assert(bytes@ == seq![0u8]);
        },
        Length::Shrink => {
            let bytes: [u8; 1] = [1];
            std::hash::Hasher::write(state, bytes.as_slice());
            assert(bytes@ == seq![1u8]);
        },
        Length::Fixed(units) => {
            let bytes: [u8; 3] = [2, (units % 256) as u8, (units / 256) as u8];
            std::hash::Hasher::write(state, bytes.as_slice());
            assert(bytes@ == seq![2u8, (units % 256) as u8, (units / 256) as u8]);
        },
    }
}

/// A text more adds its own writes after those of the texts before it.
pub proof fn lemma_texts_writes_push(texts: Seq<Seq<char>>, text: Seq<char>)
    ensures
        texts_writes(texts.push(text)) == texts_writes(texts) + text_writes(text),
{
    assert(texts.push(text).drop_last() == texts);
}

} // verus!
