//! The instructions of the echo program and their wire format: one byte that
//! says which instruction it is, then its fields in order.

use crate::codec::{
    blob, blob_decode, lemma_blob_canonical, lemma_blob_round_trip, lemma_u64_le_bytes, read_blob,
    read_u64, u64_from_le_bytes, u64_le_bytes, write_blob, write_u64,
};
use crate::error::CodecError;
use vstd::prelude::*;

verus! {

/// An instruction to the echo program.
#[derive(Clone, Debug, PartialEq, Eq)]
pub enum EchoInstruction {
    /// Write `data` into a buffer that nothing was written to yet.
    Echo { data: Vec<u8> },
    /// Create the buffer that belongs to an authority and `buffer_seed`,
    /// `buffer_size` bytes in all.
    InitializeAuthorizedEcho { buffer_seed: u64, buffer_size: u64 },
    /// Write `data` into the buffer of the authority that signed.
    AuthorizedEcho { data: Vec<u8> },
    /// Create the buffer that belongs to a mint and `price`, `buffer_size`
    /// bytes in all.
    InitializeVendingMachineEcho { price: u64, buffer_size: u64 },
    /// Write `data` into a priced buffer, for its price in tokens.
    VendingMachineEcho { data: Vec<u8> },
}

/// An instruction as a mathematical value.
pub enum EchoInstructionView {
    Echo { data: Seq<u8> },
    InitializeAuthorizedEcho { buffer_seed: u64, buffer_size: u64 },
    AuthorizedEcho { data: Seq<u8> },
    InitializeVendingMachineEcho { price: u64, buffer_size: u64 },
    VendingMachineEcho { data: Seq<u8> },
}

impl View for EchoInstruction {
    type V = EchoInstructionView;

    open spec fn view(&self) -> EchoInstructionView {
        match *self {
            EchoInstruction::Echo { data } => EchoInstructionView::Echo { data: data@ },
            EchoInstruction::InitializeAuthorizedEcho { buffer_seed, buffer_size } => {
                EchoInstructionView::InitializeAuthorizedEcho { buffer_seed, buffer_size }
            },
            EchoInstruction::AuthorizedEcho { data } => EchoInstructionView::AuthorizedEcho {
                data: data@,
            },
            EchoInstruction::InitializeVendingMachineEcho { price, buffer_size } => {
                EchoInstructionView::InitializeVendingMachineEcho { price, buffer_size }
            },
            EchoInstruction::VendingMachineEcho { data } => {
                EchoInstructionView::VendingMachineEcho { data: data@ }
            },
        }
    }
}

impl EchoInstructionView {
    /// The byte that says which instruction this is.
    pub open spec fn tag(self) -> u8 {
        match self {
            EchoInstructionView::Echo { .. } => 0,
            EchoInstructionView::InitializeAuthorizedEcho { .. } => 1,
            EchoInstructionView::AuthorizedEcho { .. } => 2,
            EchoInstructionView::InitializeVendingMachineEcho { .. } => 3,
            EchoInstructionView::VendingMachineEcho { .. } => 4,
        }
    }

    /// The fields behind the tag.
    pub open spec fn payload(self) -> Seq<u8> {
        match self {
            EchoInstructionView::Echo { data } => blob(data),
            EchoInstructionView::InitializeAuthorizedEcho { buffer_seed, buffer_size } => {
                u64_le_bytes(buffer_seed) + u64_le_bytes(buffer_size)
            },
            EchoInstructionView::AuthorizedEcho { data } => blob(data),
            EchoInstructionView::InitializeVendingMachineEcho { price, buffer_size } => {
                u64_le_bytes(price) + u64_le_bytes(buffer_size)
            },
            EchoInstructionView::VendingMachineEcho { data } => blob(data),
        }
    }

    /// The instruction can be encoded: its payload, where it has one, is no
    /// longer than a four-byte count can say.
    pub open spec fn encodable(self) -> bool {
        match self {
            EchoInstructionView::Echo { data } => data.len() <= u32::MAX,
            EchoInstructionView::AuthorizedEcho { data } => data.len() <= u32::MAX,
            EchoInstructionView::VendingMachineEcho { data } => data.len() <= u32::MAX,
            _ => true,
        }
    }

    /// The wire format of the instruction.
    pub open spec fn encoding(self) -> Seq<u8>
        recommends
            self.encodable(),
    {
        seq![self.tag()] + self.payload()
    }

    /// The instruction of which `bytes` is the whole wire format, if there
    /// is one.
    pub open spec fn decode(bytes: Seq<u8>) -> Option<EchoInstructionView> {
        if bytes.len() == 0 {
            None
        } else {
            let tag = bytes[0];
            let rest = bytes.skip(1);
            if tag == 0 || tag == 2 || tag == 4 {
                match blob_decode(rest) {
                    Some(data) => Some(
                        if tag == 0 {
                            EchoInstructionView::Echo { data }
                        } else if tag == 2 {
                            EchoInstructionView::AuthorizedEcho { data }
                        } else {
                            EchoInstructionView::VendingMachineEcho { data }
                        },
                    ),
                    None => None,
                }
            } else if (tag == 1 || tag == 3) && rest.len() == 16 {
                let first = u64_from_le_bytes(rest.take(8));
                let second = u64_from_le_bytes(rest.skip(8));
                Some(
                    if tag == 1 {
                        EchoInstructionView::InitializeAuthorizedEcho {
                            buffer_seed: first,
                            buffer_size: second,
                        }
                    } else {
                        EchoInstructionView::InitializeVendingMachineEcho {
                            price: first,
                            buffer_size: second,
                        }
                    },
                )
            } else {
                None
            }
        }
    }

    /// Decoding undoes encoding: an instruction that can be encoded is read
    /// back from its wire format unchanged.
    pub proof fn lemma_decode_encoding(self)
        requires
            self.encodable(),
        ensures
            EchoInstructionView::decode(self.encoding()) == Some(self),
    {
        let bytes = self.encoding();
        assert(bytes.skip(1) =~= self.payload());
        match self {
            EchoInstructionView::Echo { data } => {
                lemma_blob_round_trip(data);
            },
            EchoInstructionView::AuthorizedEcho { data } => {
                lemma_blob_round_trip(data);
            },
            EchoInstructionView::VendingMachineEcho { data } => {
                lemma_blob_round_trip(data);
            },
            EchoInstructionView::InitializeAuthorizedEcho { buffer_seed, buffer_size } => {
                lemma_u64_le_bytes(buffer_seed, Seq::empty());
                lemma_u64_le_bytes(buffer_size, Seq::empty());
                assert(self.payload().take(8) =~= u64_le_bytes(buffer_seed));
                assert(self.payload().skip(8) =~= u64_le_bytes(buffer_size));
            },
            EchoInstructionView::InitializeVendingMachineEcho { price, buffer_size } => {
                lemma_u64_le_bytes(price, Seq::empty());
                lemma_u64_le_bytes(buffer_size, Seq::empty());
                assert(self.payload().take(8) =~= u64_le_bytes(price));
                assert(self.payload().skip(8) =~= u64_le_bytes(buffer_size));
            },
        }
    }

    /// There is one wire format for each instruction: bytes that decode are
    /// the encoding of what they decode to.
    pub proof fn lemma_encoding_of_decoded(bytes: Seq<u8>)
        requires
            EchoInstructionView::decode(bytes) is Some,
        ensures
            EchoInstructionView::decode(bytes)->0.encodable(),
            EchoInstructionView::decode(bytes)->0.encoding() == bytes,
    {
        let tag = bytes[0];
        let rest = bytes.skip(1);
        let decoded = EchoInstructionView::decode(bytes)->0;
        assert(seq![tag] + rest =~= bytes);
        if tag == 0 || tag == 2 || tag == 4 {
            lemma_blob_canonical(rest);
        } else {
            assert(rest.take(8) + rest.skip(8) =~= rest);
            lemma_u64_le_bytes(0, rest.take(8));
            lemma_u64_le_bytes(0, rest.skip(8));
        }
    }
}

impl EchoInstruction {
    /// The wire format of the instruction. Fails where the payload is longer
    /// than a four-byte count can say.
    pub fn try_to_vec(&self) -> (r: Result<Vec<u8>, CodecError>)
        ensures
            self@.encodable() ==> (r matches Ok(bytes) && bytes@ == self@.encoding()),
            !self@.encodable() ==> r matches Err(CodecError::Oversized),
    {
        let mut out: Vec<u8> = Vec::new();
        match self {
            EchoInstruction::Echo { data } => {
                out.push(0);
                write_blob(&mut out, data.as_slice())?;
            },
            EchoInstruction::InitializeAuthorizedEcho { buffer_seed, buffer_size } => {
                out.push(1);
                write_u64(&mut out, *buffer_seed);
                write_u64(&mut out, *buffer_size);
            },
            EchoInstruction::AuthorizedEcho { data } => {
                out.push(2);
                write_blob(&mut out, data.as_slice())?;
            },
            EchoInstruction::InitializeVendingMachineEcho { price, buffer_size } => {
                out.push(3);
                write_u64(&mut out, *price);
                write_u64(&mut out, *buffer_size);
            },
            EchoInstruction::VendingMachineEcho { data } => {
                out.push(4);
                write_blob(&mut out, data.as_slice())?;
            },
        }
        assert(out@ =~= self@.encoding());
        Ok(out)
    }

    /// Reads an instruction from its wire format. Fails on anything that is
    /// not the whole wire format of one instruction: no bytes, an unknown tag,
    /// fields cut short, or bytes left over.
    pub fn try_from_slice(input: &[u8]) -> (r: Result<EchoInstruction, CodecError>)
        ensures
            match EchoInstructionView::decode(input@) {
                Some(instruction) => r matches Ok(i) && i@ == instruction,
                None => r matches Err(CodecError::Malformed),
            },
    {
        if input.len() == 0 {
            return Err(CodecError::Malformed);
        }
        let tag: u8 = input[0];
        if tag == 0 || tag == 2 || tag == 4 {
            let data = read_blob(input, 1)?;
            if tag == 0 {
                Ok(EchoInstruction::Echo { data })
            } else if tag == 2 {
                Ok(EchoInstruction::AuthorizedEcho { data })
            } else {
                Ok(EchoInstruction::VendingMachineEcho { data })
            }
        } else if (tag == 1 || tag == 3) && input.len() == 17 {
            let first: u64 = read_u64(input, 1)?;
            let second: u64 = read_u64(input, 9)?;
            assert(input@.subrange(1, 9) =~= input@.skip(1).take(8));
            assert(input@.subrange(9, 17) =~= input@.skip(1).skip(8));
            if tag == 1 {
                Ok(EchoInstruction::InitializeAuthorizedEcho {
                    buffer_seed: first,
                    buffer_size: second,
                })
            } else {
                Ok(EchoInstruction::InitializeVendingMachineEcho {
                    price: first,
                    buffer_size: second,
                })
            }
        } else {
            Err(CodecError::Malformed)
        }
    }
}

} // verus!
