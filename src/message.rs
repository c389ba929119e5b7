//! The benchmark payload: a message whose single `bytes` field (tag 1)
//! holds a run of zero bytes of a chosen size.
use prost::bytes::Bytes;
use vstd::prelude::*;

use crate::wire::{bytes_content, bytes_from_vec, length_delimited_field, put_bytes_field};

verus! {

/// A message with one Protocol Buffers field, `bytes content = 1;`.
#[must_use]
#[derive(Debug)]
pub struct TestMessage {
    pub content: Vec<u8>,
}

/// `n` zero bytes.
pub open spec fn zeros(n: nat) -> Seq<u8> {
    Seq::new(n, |i: int| 0u8)
}

/// The field number of `content`.
pub const CONTENT_TAG: u32 = 1;

impl TestMessage {
    /// The message's wire form: nothing when `content` is empty (the field
    /// then holds its default and is left out), else the one length-delimited
    /// field.
    pub open spec fn wire_bytes(&self) -> Seq<u8> {
        if self.content@.len() == 0 {
            Seq::empty()
        } else {
            length_delimited_field(CONTENT_TAG as nat, self.content@)
        }
    }

    /// A message whose content is `size` zero bytes.
    pub fn new(size: usize) -> (r: Self)
        ensures
            r.content@ == zeros(size as nat),
    {
        let mut content: Vec<u8> = Vec::with_capacity(size);
        let mut i: usize = 0;
        while i < size
            invariant
                i <= size,
                content@ == zeros(i as nat),
            decreases size - i,
        {
            content.push(0u8);
            i = i + 1;
            assert(content@ =~= zeros(i as nat));
        }
        Self { content }
    }

    /// The message encoded in the Protocol Buffers wire format.
    pub fn encode_to_vec(&self) -> (r: Vec<u8>)
        ensures
            r@ == self.wire_bytes(),
    {
        let mut buf: Vec<u8> = Vec::new();
        if self.content.len() > 0 {
            put_bytes_field(CONTENT_TAG, &self.content, &mut buf);
        }
        buf
    }

    /// The encoded message in a shared buffer, ready to publish.
    pub fn into_bytes(&self) -> (r: Bytes)
        ensures
            bytes_content(r) == self.wire_bytes(),
    {
        bytes_from_vec(self.encode_to_vec())
    }
}

impl Default for TestMessage {
    /// The message with empty content, whose wire form is empty.
    fn default() -> (r: Self)
        ensures
            r.content@ == Seq::<u8>::empty(),
    {
        Self { content: Vec::new() }
    }
}

} // verus!
