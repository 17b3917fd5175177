//! The records that the buffers hold, and their layout in an account's bytes.
//!
//! An authorized buffer is `[bump_seed: 1][buffer_seed: 8][count: 4][echo_data]`;
//! a vending-machine buffer is
//! `[bump_seed: 1][price: 8][vending_machine_mint: 32][count: 4][echo_data]`.
//! The length of `echo_data` is fixed when the buffer is created and is what
//! the buffer's size leaves once the other fields are taken off.

use crate::buffer::{fill_left_aligned, left_aligned, zeros};
use crate::codec::{
    blob, blob_decode, lemma_blob_canonical, lemma_blob_round_trip, lemma_u64_le_bytes, read_blob,
    read_u64, u64_from_le_bytes, u64_le_bytes, write_blob, write_u64,
};
use crate::error::CodecError;
use crate::pubkey::Pubkey;
use vstd::prelude::*;
use vstd::slice::*;

verus! {

/// The bytes of an authorized buffer that are not `echo_data`: the bump seed,
/// the buffer seed and the count.
pub const AUTHORIZED_HEADER_BYTES: u64 = 13;

/// The bytes of a vending-machine buffer that are not `echo_data`: the bump
/// seed, the price, the mint and the count.
pub const VENDING_MACHINE_HEADER_BYTES: u64 = 45;

/// The length of `echo_data` in a buffer of `buffer_size` bytes of which
/// `header_bytes` are taken by the other fields. There is none where the
/// buffer cannot hold those, or where a four-byte count cannot say the length.
pub open spec fn reserved_len(buffer_size: u64, header_bytes: u64) -> Option<nat> {
    if header_bytes <= buffer_size && buffer_size - header_bytes <= u32::MAX {
        Some((buffer_size - header_bytes) as nat)
    } else {
        None
    }
}

/// The record of a buffer that belongs to an authority.
#[derive(Clone, Debug, PartialEq, Eq)]
pub struct AuthorizedBufferHeader {
    pub bump_seed: u8,
    pub buffer_seed: u64,
    pub echo_data: Vec<u8>,
}

/// An authorized buffer's record as a mathematical value.
pub struct AuthorizedBufferHeaderView {
    pub bump_seed: u8,
    pub buffer_seed: u64,
    pub echo_data: Seq<u8>,
}

impl View for AuthorizedBufferHeader {
    type V = AuthorizedBufferHeaderView;

    open spec fn view(&self) -> AuthorizedBufferHeaderView {
        AuthorizedBufferHeaderView {
            bump_seed: self.bump_seed,
            buffer_seed: self.buffer_seed,
            echo_data: self.echo_data@,
        }
    }
}

impl AuthorizedBufferHeaderView {
    /// The record can be encoded: a four-byte count can say how long
    /// `echo_data` is.
    pub open spec fn encodable(self) -> bool {
        self.echo_data.len() <= u32::MAX
    }

    /// The bytes of the record.
    pub open spec fn encoding(self) -> Seq<u8>
        recommends
            self.encodable(),
    {
        seq![self.bump_seed] + u64_le_bytes(self.buffer_seed) + blob(self.echo_data)
    }

    /// The record of which `bytes` is the whole encoding, if there is one.
    pub open spec fn decode(bytes: Seq<u8>) -> Option<AuthorizedBufferHeaderView> {
        if bytes.len() < 9 {
            None
        } else {
            match blob_decode(bytes.skip(9)) {
                Some(echo_data) => Some(
                    AuthorizedBufferHeaderView {
                        bump_seed: bytes[0],
                        buffer_seed: u64_from_le_bytes(bytes.subrange(1, 9)),
                        echo_data,
                    },
                ),
                None => None,
            }
        }
    }

    /// The record with `data` written into `echo_data`: the field is cleared
    /// and then holds `data` from its first byte on, at its old length.
    pub open spec fn echoed(self, data: Seq<u8>) -> AuthorizedBufferHeaderView {
        AuthorizedBufferHeaderView {
            echo_data: left_aligned(data, self.echo_data.len()),
            ..self
        }
    }

    /// The record of a new buffer of `buffer_size` bytes: `echo_data` is all
    /// zeros and as long as the size leaves.
    pub open spec fn zeroed(bump_seed: u8, buffer_seed: u64, buffer_size: u64) -> Option<
        AuthorizedBufferHeaderView,
    > {
        match reserved_len(buffer_size, AUTHORIZED_HEADER_BYTES) {
            Some(len) => Some(
                AuthorizedBufferHeaderView { bump_seed, buffer_seed, echo_data: zeros(len) },
            ),
            None => None,
        }
    }

    /// Encoding then decoding yields the record again, whatever the length of
    /// `echo_data` that a count can say.
    pub proof fn lemma_decode_encoding(self)
        requires
            self.encodable(),
        ensures
            self.encoding().len() == AUTHORIZED_HEADER_BYTES + self.echo_data.len(),
            AuthorizedBufferHeaderView::decode(self.encoding()) == Some(self),
    {
        lemma_u64_le_bytes(self.buffer_seed, Seq::empty());
        lemma_blob_round_trip(self.echo_data);
        let bytes = self.encoding();
        assert(bytes.subrange(1, 9) =~= u64_le_bytes(self.buffer_seed));
        assert(bytes.skip(9) =~= blob(self.echo_data));
    }

    /// Bytes that decode to a record are the encoding of that record: a
    /// record has one encoding.
    pub proof fn lemma_encoding_of_decoded(bytes: Seq<u8>)
        requires
            AuthorizedBufferHeaderView::decode(bytes) is Some,
        ensures
            AuthorizedBufferHeaderView::decode(bytes)->0.encodable(),
            AuthorizedBufferHeaderView::decode(bytes)->0.encoding() == bytes,
    {
        lemma_blob_canonical(bytes.skip(9));
        let seed = bytes.subrange(1, 9);
        lemma_u64_le_bytes(0, seed);
        assert(seq![bytes[0]] + seed + bytes.skip(9) =~= bytes);
    }

    /// The record of a new buffer fills the buffer exactly.
    pub proof fn lemma_zeroed_fills_buffer(bump_seed: u8, buffer_seed: u64, buffer_size: u64)
        requires
            AuthorizedBufferHeaderView::zeroed(bump_seed, buffer_seed, buffer_size) is Some,
        ensures
            AuthorizedBufferHeaderView::zeroed(bump_seed, buffer_seed, buffer_size)->0.encodable(),
            AuthorizedBufferHeaderView::zeroed(
                bump_seed,
                buffer_seed,
                buffer_size,
            )->0.encoding().len() == buffer_size,
    {
        AuthorizedBufferHeaderView::zeroed(
            bump_seed,
            buffer_seed,
            buffer_size,
        )->0.lemma_decode_encoding();
    }
}

impl AuthorizedBufferHeader {
    /// The record of a new buffer of `buffer_size` bytes, or `None` where a
    /// buffer of that size cannot hold a record.
    pub fn zeroed(bump_seed: u8, buffer_seed: u64, buffer_size: u64) -> (r: Option<
        AuthorizedBufferHeader,
    >)
        ensures
            match AuthorizedBufferHeaderView::zeroed(bump_seed, buffer_seed, buffer_size) {
                Some(header) => r matches Some(h) && h@ == header,
                None => r is None,
            },
    {
        if buffer_size < AUTHORIZED_HEADER_BYTES || buffer_size - AUTHORIZED_HEADER_BYTES
            > 0xffff_ffff {
            return None;
        }
        let len: usize = (buffer_size - AUTHORIZED_HEADER_BYTES) as usize;
        let echo_data: Vec<u8> = vec![0u8; len];
        assert(echo_data@ =~= zeros(len as nat));
        Some(AuthorizedBufferHeader { bump_seed, buffer_seed, echo_data })
    }

    /// Writes `data` into `echo_data`: the field is cleared, then `data` is
    /// copied in from the first byte on, as far as the field goes. The
    /// field's length and the other fields stay.
    pub fn echo(&mut self, data: &[u8])
        ensures
            final(self)@ == old(self)@.echoed(data@),
    {
        self.echo_data = fill_left_aligned(data, self.echo_data.len());
    }

    /// The bytes of the record. Fails where `echo_data` is longer than a
    /// four-byte count can say.
    pub fn try_to_vec(&self) -> (r: Result<Vec<u8>, CodecError>)
        ensures
            self@.encodable() ==> (r matches Ok(bytes) && bytes@ == self@.encoding()),
            !self@.encodable() ==> r matches Err(CodecError::Oversized),
    {
        let mut out: Vec<u8> = Vec::new();
        out.push(self.bump_seed);
        write_u64(&mut out, self.buffer_seed);
        write_blob(&mut out, self.echo_data.as_slice())?;
        assert(out@ =~= self@.encoding());
        Ok(out)
    }

    /// Reads a record from a buffer's bytes. Fails unless the bytes are the
    /// whole encoding of one record.
    pub fn try_from_slice(input: &[u8]) -> (r: Result<AuthorizedBufferHeader, CodecError>)
        ensures
            match AuthorizedBufferHeaderView::decode(input@) {
                Some(header) => r matches Ok(h) && h@ == header,
                None => r matches Err(CodecError::Malformed),
            },
    {
        if input.len() < 9 {
            return Err(CodecError::Malformed);
        }
        let bump_seed: u8 = input[0];
        let buffer_seed: u64 = read_u64(input, 1)?;
        let echo_data = read_blob(input, 9)?;
        Ok(AuthorizedBufferHeader { bump_seed, buffer_seed, echo_data })
    }
}

/// The record of a buffer that belongs to a mint and a price.
#[derive(Clone, Debug, PartialEq, Eq)]
pub struct VendingMachineBufferHeader {
    pub bump_seed: u8,
    pub price: u64,
    pub vending_machine_mint: Pubkey,
    pub echo_data: Vec<u8>,
}

/// A vending-machine buffer's record as a mathematical value.
pub struct VendingMachineBufferHeaderView {
    pub bump_seed: u8,
    pub price: u64,
    pub vending_machine_mint: Seq<u8>,
    pub echo_data: Seq<u8>,
}

impl View for VendingMachineBufferHeader {
    type V = VendingMachineBufferHeaderView;

    open spec fn view(&self) -> VendingMachineBufferHeaderView {
        VendingMachineBufferHeaderView {
            bump_seed: self.bump_seed,
            price: self.price,
            vending_machine_mint: self.vending_machine_mint@,
            echo_data: self.echo_data@,
        }
    }
}

impl VendingMachineBufferHeaderView {
    /// The record can be encoded: the mint has the length of an address, and
    /// a four-byte count can say how long `echo_data` is.
    pub open spec fn encodable(self) -> bool {
        self.vending_machine_mint.len() == 32 && self.echo_data.len() <= u32::MAX
    }

    /// The bytes of the record.
    pub open spec fn encoding(self) -> Seq<u8>
        recommends
            self.encodable(),
    {
        seq![self.bump_seed] + u64_le_bytes(self.price) + self.vending_machine_mint + blob(
            self.echo_data,
        )
    }

    /// The record of which `bytes` is the whole encoding, if there is one.
    pub open spec fn decode(bytes: Seq<u8>) -> Option<VendingMachineBufferHeaderView> {
        if bytes.len() < 41 {
            None
        } else {
            match blob_decode(bytes.skip(41)) {
                Some(echo_data) => Some(
                    VendingMachineBufferHeaderView {
                        bump_seed: bytes[0],
                        price: u64_from_le_bytes(bytes.subrange(1, 9)),
                        vending_machine_mint: bytes.subrange(9, 41),
                        echo_data,
                    },
                ),
                None => None,
            }
        }
    }

    /// The record with `data` written into `echo_data`: the field is cleared
    /// and then holds `data` from its first byte on, at its old length.
    pub open spec fn echoed(self, data: Seq<u8>) -> VendingMachineBufferHeaderView {
        VendingMachineBufferHeaderView {
            echo_data: left_aligned(data, self.echo_data.len()),
            ..self
        }
    }

    /// The record of a new buffer of `buffer_size` bytes: `echo_data` is all
    /// zeros and as long as the size leaves.
    pub open spec fn zeroed(
        bump_seed: u8,
        price: u64,
        vending_machine_mint: Seq<u8>,
        buffer_size: u64,
    ) -> Option<VendingMachineBufferHeaderView> {
        match reserved_len(buffer_size, VENDING_MACHINE_HEADER_BYTES) {
            Some(len) => Some(
                VendingMachineBufferHeaderView {
                    bump_seed,
                    price,
                    vending_machine_mint,
                    echo_data: zeros(len),
                },
            ),
            None => None,
        }
    }

    /// Encoding then decoding yields the record again, whatever the length of
    /// `echo_data` that a count can say.
    pub proof fn lemma_decode_encoding(self)
        requires
            self.encodable(),
        ensures
            self.encoding().len() == VENDING_MACHINE_HEADER_BYTES + self.echo_data.len(),
            VendingMachineBufferHeaderView::decode(self.encoding()) == Some(self),
    {
        lemma_u64_le_bytes(self.price, Seq::empty());
        lemma_blob_round_trip(self.echo_data);
        let bytes = self.encoding();
        assert(bytes.subrange(1, 9) =~= u64_le_bytes(self.price));
        assert(bytes.subrange(9, 41) =~= self.vending_machine_mint);
        assert(bytes.skip(41) =~= blob(self.echo_data));
    }

    /// Bytes that decode to a record are the encoding of that record: a
    /// record has one encoding.
    pub proof fn lemma_encoding_of_decoded(bytes: Seq<u8>)
        requires
            VendingMachineBufferHeaderView::decode(bytes) is Some,
        ensures
            VendingMachineBufferHeaderView::decode(bytes)->0.encodable(),
            VendingMachineBufferHeaderView::decode(bytes)->0.encoding() == bytes,
    {
        lemma_blob_canonical(bytes.skip(41));
        let price = bytes.subrange(1, 9);
        lemma_u64_le_bytes(0, price);
        assert(seq![bytes[0]] + price + bytes.subrange(9, 41) + bytes.skip(41) =~= bytes);
    }

    /// The record of a new buffer fills the buffer exactly.
    pub proof fn lemma_zeroed_fills_buffer(
        bump_seed: u8,
        price: u64,
        vending_machine_mint: Seq<u8>,
        buffer_size: u64,
    )
        requires
            vending_machine_mint.len() == 32,
            VendingMachineBufferHeaderView::zeroed(
                bump_seed,
                price,
                vending_machine_mint,
                buffer_size,
            ) is Some,
        ensures
            VendingMachineBufferHeaderView::zeroed(
                bump_seed,
                price,
                vending_machine_mint,
                buffer_size,
            )->0.encodable(),
            VendingMachineBufferHeaderView::zeroed(
                bump_seed,
                price,
                vending_machine_mint,
                buffer_size,
            )->0.encoding().len() == buffer_size,
    {
        VendingMachineBufferHeaderView::zeroed(
            bump_seed,
            price,
            vending_machine_mint,
            buffer_size,
        )->0.lemma_decode_encoding();
    }
}

impl VendingMachineBufferHeader {
    /// The record of a new buffer of `buffer_size` bytes, or `None` where a
    /// buffer of that size cannot hold a record.
    pub fn zeroed(bump_seed: u8, price: u64, vending_machine_mint: Pubkey, buffer_size: u64) -> (r:
        Option<VendingMachineBufferHeader>)
        ensures
            match VendingMachineBufferHeaderView::zeroed(
                bump_seed,
                price,
                vending_machine_mint@,
                buffer_size,
            ) {
                Some(header) => r matches Some(h) && h@ == header,
                None => r is None,
            },
    {
        if buffer_size < VENDING_MACHINE_HEADER_BYTES || buffer_size - VENDING_MACHINE_HEADER_BYTES
            > 0xffff_ffff {
            return None;
        }
        let len: usize = (buffer_size - VENDING_MACHINE_HEADER_BYTES) as usize;
        let echo_data: Vec<u8> = vec![0u8; len];
        assert(echo_data@ =~= zeros(len as nat));
        Some(VendingMachineBufferHeader { bump_seed, price, vending_machine_mint, echo_data })
    }

    /// Writes `data` into `echo_data`: the field is cleared, then `data` is
    /// copied in from the first byte on, as far as the field goes. The
    /// field's length and the other fields stay.
    pub fn echo(&mut self, data: &[u8])
        ensures
            final(self)@ == old(self)@.echoed(data@),
    {
        self.echo_data = fill_left_aligned(data, self.echo_data.len());
    }

    /// The bytes of the record. Fails where `echo_data` is longer than a
    /// four-byte count can say.
    pub fn try_to_vec(&self) -> (r: Result<Vec<u8>, CodecError>)
        ensures
            self@.encodable() ==> (r matches Ok(bytes) && bytes@ == self@.encoding()),
            !self@.encodable() ==> r matches Err(CodecError::Oversized),
    {
        let mut out: Vec<u8> = Vec::new();
        out.push(self.bump_seed);
        write_u64(&mut out, self.price);
        let mut mint = self.vending_machine_mint.to_vec();
        out.append(&mut mint);
        write_blob(&mut out, self.echo_data.as_slice())?;
        assert(out@ =~= self@.encoding());
        Ok(out)
    }

    /// Reads a record from a buffer's bytes. Fails unless the bytes are the
    /// whole encoding of one record.
    pub fn try_from_slice(input: &[u8]) -> (r: Result<VendingMachineBufferHeader, CodecError>)
        ensures
            match VendingMachineBufferHeaderView::decode(input@) {
                Some(header) => r matches Ok(h) && h@ == header,
                None => r matches Err(CodecError::Malformed),
            },
    {
        if input.len() < 41 {
            return Err(CodecError::Malformed);
        }
        let bump_seed: u8 = input[0];
        let price: u64 = read_u64(input, 1)?;
        let vending_machine_mint = Pubkey::from_slice(slice_subrange(input, 9, 41));
        let echo_data = read_blob(input, 41)?;
        Ok(VendingMachineBufferHeader { bump_seed, price, vending_machine_mint, echo_data })
    }
}

} // verus!
