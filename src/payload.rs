use vstd::prelude::*;

verus! {

/// The payload type tag of the interop protocol.
#[derive(Clone, Copy, Debug, PartialEq, Eq, Structural)]
pub enum PayloadType {
    Compressable,
}

/// A message payload: a type tag and a byte body.
#[derive(Clone, Debug)]
pub struct Payload {
    pub type_: PayloadType,
    pub body: Vec<u8>,
}

/// Builds the payload a client sends: `size` zero bytes, tagged compressable.
pub fn client_payload(size: usize) -> (r: Payload)
    ensures
        r.body@.len() == size,
        r.type_ == PayloadType::Compressable,
        forall|i: int| 0 <= i < size ==> r.body@[i] == 0u8,
{
    let mut body: Vec<u8> = Vec::with_capacity(size);
    let mut i: usize = 0;
    while i < size
        invariant
            i <= size,
            body@.len() == i,
            forall|j: int| 0 <= j < i ==> body@[j] == 0u8,
        decreases size - i,
    {
        body.push(0u8);
        i = i + 1;
    }
    Payload { type_: PayloadType::Compressable, body }
}

} // verus!
