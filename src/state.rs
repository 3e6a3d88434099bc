use crate::address::Address;
use crate::error::ProcessError;
use vstd::prelude::*;

verus! {

broadcast use vstd::array::group_array_axioms;

/// Size in bytes of an encoded swap record.
pub const SWAP_LEN: usize = 179;

/// The persisted record of one outstanding offer.
#[derive(Debug, Clone, Copy, PartialEq, Eq)]
pub struct Swap {
    pub is_initialized: bool,
    pub creator: Address,
    pub offered_mint: Address,
    pub desired_mint: Address,
    pub ata_creator_offered: Address,
    pub escrow: Address,
    pub offered_amount: u64,
    pub desired_amount: u64,
    pub swap_bump: u8,
    pub escrow_bump: u8,
}

/// The eight little-endian bytes of `v`.
pub open spec fn le_bytes(v: u64) -> Seq<u8> {
    seq![
        v as u8, (v >> 8u64) as u8, (v >> 16u64) as u8, (v >> 24u64) as u8,
        (v >> 32u64) as u8, (v >> 40u64) as u8, (v >> 48u64) as u8, (v >> 56u64) as u8,
    ]
}

/// The integer whose little-endian bytes are the first eight of `b`.
pub open spec fn le_u64(b: Seq<u8>) -> u64 {
    (b[0] as u64) | ((b[1] as u64) << 8u64) | ((b[2] as u64) << 16u64) | ((b[3] as u64) << 24u64)
        | ((b[4] as u64) << 32u64) | ((b[5] as u64) << 40u64) | ((b[6] as u64) << 48u64)
        | ((b[7] as u64) << 56u64)
}

pub proof fn lemma_le_round_trip(v: u64)
    ensures
        le_u64(le_bytes(v)) == v,
{
    let b = le_bytes(v);
    let (b0, b1, b2, b3, b4, b5, b6, b7) = (b[0], b[1], b[2], b[3], b[4], b[5], b[6], b[7]);
    assert(b0 == v as u8 && b1 == (v >> 8u64) as u8 && b2 == (v >> 16u64) as u8 && b3 == (v >> 24u64) as u8);
    assert(b4 == (v >> 32u64) as u8 && b5 == (v >> 40u64) as u8 && b6 == (v >> 48u64) as u8 && b7 == (v >> 56u64) as u8);
    assert(((v as u8) as u64) | ((((v >> 8u64) as u8) as u64) << 8u64) | ((((v >> 16u64) as u8) as u64) << 16u64)
        | ((((v >> 24u64) as u8) as u64) << 24u64) | ((((v >> 32u64) as u8) as u64) << 32u64)
        | ((((v >> 40u64) as u8) as u64) << 40u64) | ((((v >> 48u64) as u8) as u64) << 48u64)
        | ((((v >> 56u64) as u8) as u64) << 56u64) == v) by (bit_vector);
}

impl Swap {
    /// The fixed-width encoding: flag byte, five addresses, two little-endian
    /// amounts, two bumps.
    pub open spec fn encode_spec(self) -> Seq<u8> {
        seq![if self.is_initialized { 1u8 } else { 0u8 }] + self.creator.bytes@
            + self.offered_mint.bytes@ + self.desired_mint.bytes@
            + self.ata_creator_offered.bytes@ + self.escrow.bytes@
            + le_bytes(self.offered_amount) + le_bytes(self.desired_amount)
            + seq![self.swap_bump, self.escrow_bump]
    }

    /// Whether `b` holds a record: long enough, with a flag byte of 0 or 1.
    pub open spec fn decodable(b: Seq<u8>) -> bool {
        b.len() >= SWAP_LEN && b[0] <= 1
    }

    /// The record held in the first bytes of `b`, if any.
    pub open spec fn decode_spec(b: Seq<u8>) -> Option<Swap> {
        if Self::decodable(b) {
            Some(choose|s: Swap| s.encode_spec() == b.subrange(0, SWAP_LEN as int))
        } else {
            None
        }
    }

    pub proof fn lemma_encode_len(self)
        ensures
            self.encode_spec().len() == SWAP_LEN,
    {
        let flag = seq![if self.is_initialized { 1u8 } else { 0u8 }];
        let prefix1 = flag + self.creator.bytes@;
        let prefix2 = prefix1 + self.offered_mint.bytes@;
        let prefix3 = prefix2 + self.desired_mint.bytes@;
        let prefix4 = prefix3 + self.ata_creator_offered.bytes@;
        let prefix5 = prefix4 + self.escrow.bytes@;
        let prefix6 = prefix5 + le_bytes(self.offered_amount);
        let prefix7 = prefix6 + le_bytes(self.desired_amount);
        let tail = seq![self.swap_bump, self.escrow_bump];
        assert(tail.len() == 2);
        let prefix8 = prefix7 + tail;
        assert(flag.len() == 1);
        assert(prefix1.len() == 33);
        assert(prefix2.len() == 65);
        assert(prefix3.len() == 97);
        assert(prefix4.len() == 129);
        assert(prefix5.len() == 161);
        assert(prefix6.len() == 169);
        assert(prefix7.len() == 177);
        assert(prefix8.len() == 179);
        assert(prefix8 == self.encode_spec());
    }

    /// The encoding determines the record.
    pub proof fn lemma_encode_injective(s: Swap, t: Swap)
        requires
            s.encode_spec() == t.encode_spec(),
        ensures
            s == t,
    {
        s.lemma_encode_len();
        t.lemma_encode_len();
        let e = s.encode_spec();
        let f = t.encode_spec();
        assert(e[0] == f[0]);
        assert(s.creator.bytes@ =~= e.subrange(1, 33));
        assert(t.creator.bytes@ =~= f.subrange(1, 33));
        assert(s.offered_mint.bytes@ =~= e.subrange(33, 65));
        assert(t.offered_mint.bytes@ =~= f.subrange(33, 65));
        assert(s.desired_mint.bytes@ =~= e.subrange(65, 97));
        assert(t.desired_mint.bytes@ =~= f.subrange(65, 97));
        assert(s.ata_creator_offered.bytes@ =~= e.subrange(97, 129));
        assert(t.ata_creator_offered.bytes@ =~= f.subrange(97, 129));
        assert(s.escrow.bytes@ =~= e.subrange(129, 161));
        assert(t.escrow.bytes@ =~= f.subrange(129, 161));
        assert(le_bytes(s.offered_amount) =~= e.subrange(161, 169));
        assert(le_bytes(t.offered_amount) =~= f.subrange(161, 169));
        assert(le_bytes(s.desired_amount) =~= e.subrange(169, 177));
        assert(le_bytes(t.desired_amount) =~= f.subrange(169, 177));
        assert(e[177] == f[177]);
        assert(e[178] == f[178]);
        Address::lemma_bytes_determine(s.creator, t.creator);
        Address::lemma_bytes_determine(s.offered_mint, t.offered_mint);
        Address::lemma_bytes_determine(s.desired_mint, t.desired_mint);
        Address::lemma_bytes_determine(s.ata_creator_offered, t.ata_creator_offered);
        Address::lemma_bytes_determine(s.escrow, t.escrow);
        lemma_le_round_trip(s.offered_amount);
        lemma_le_round_trip(t.offered_amount);
        lemma_le_round_trip(s.desired_amount);
        lemma_le_round_trip(t.desired_amount);
    }

    /// Decoding an encoded record gives back that record.
    pub proof fn lemma_round_trip(s: Swap)
        ensures
            Self::decode_spec(s.encode_spec()) == Some(s),
    {
        s.lemma_encode_len();
        let e = s.encode_spec();
        assert(e.subrange(0, SWAP_LEN as int) =~= e);
        let t = choose|t: Swap| t.encode_spec() == e.subrange(0, SWAP_LEN as int);
        Self::lemma_encode_injective(s, t);
    }

    /// Whether a decoded record is marked initialized.
    pub fn is_initialized(&self) -> (r: bool)
        ensures
            r == self.is_initialized,
    {
        self.is_initialized
    }

    /// Encodes the record in exactly `SWAP_LEN` bytes.
    pub fn encode(&self) -> (r: Vec<u8>)
        ensures
            r@ == self.encode_spec(),
            r@.len() == SWAP_LEN,
    {
        let mut out: Vec<u8> = Vec::new();
        out.push(if self.is_initialized { 1u8 } else { 0u8 });
        push_address(&mut out, &self.creator);
        push_address(&mut out, &self.offered_mint);
        push_address(&mut out, &self.desired_mint);
        push_address(&mut out, &self.ata_creator_offered);
        push_address(&mut out, &self.escrow);
        push_u64(&mut out, self.offered_amount);
        push_u64(&mut out, self.desired_amount);
        out.push(self.swap_bump);
        out.push(self.escrow_bump);
        assert(out@ =~= self.encode_spec());
        proof {
            self.lemma_encode_len();
        }
        out
    }

    /// Writes the encoding over the first `SWAP_LEN` bytes of `dst`, leaving
    /// the rest as it was.
    pub fn pack_into_slice(&self, dst: &mut [u8])
        requires
            old(dst)@.len() >= SWAP_LEN,
        ensures
            final(dst)@ == self.encode_spec() + old(dst)@.subrange(SWAP_LEN as int, old(dst)@.len() as int),
    {
        let bytes = self.encode();
        let mut i: usize = 0;
        while i < SWAP_LEN
            invariant
                0 <= i <= SWAP_LEN,
                bytes@ == self.encode_spec(),
                bytes@.len() == SWAP_LEN,
                dst@.len() == old(dst)@.len(),
                dst@.len() >= SWAP_LEN,
                forall|j: int| 0 <= j < i ==> dst@[j] == bytes@[j],
                forall|j: int| i <= j < dst@.len() ==> dst@[j] == old(dst)@[j],
            decreases SWAP_LEN - i,
        {
            dst[i] = bytes[i];
            i += 1;
        }
        assert(dst@ =~= self.encode_spec() + old(dst)@.subrange(SWAP_LEN as int, old(dst)@.len() as int));
    }

    /// Stores `src` in account data of exactly `SWAP_LEN` bytes.
    pub fn pack(src: Swap, dst: &mut [u8]) -> (r: Result<(), ProcessError>)
        ensures
            old(dst)@.len() == SWAP_LEN ==> r is Ok && final(dst)@ == src.encode_spec(),
            old(dst)@.len() != SWAP_LEN ==> r == Err::<(), ProcessError>(ProcessError::InvalidAccountData)
                && final(dst)@ == old(dst)@,
    {
        if dst.len() != SWAP_LEN {
            return Err(ProcessError::InvalidAccountData);
        }
        src.pack_into_slice(dst);
        assert(dst@ =~= src.encode_spec());
        Ok(())
    }

    /// Decodes the record held in the first `SWAP_LEN` bytes of `src`;
    /// bytes past them are ignored.
    pub fn unpack_from_slice(src: &[u8]) -> (r: Result<Swap, ProcessError>)
        ensures
            match Self::decode_spec(src@) {
                Some(s) => r == Ok::<Swap, ProcessError>(s),
                None => r == Err::<Swap, ProcessError>(ProcessError::InvalidAccountData),
            },
    {
        if src.len() < SWAP_LEN {
            return Err(ProcessError::InvalidAccountData);
        }
        let is_initialized = if src[0] == 0 {
            false
        } else if src[0] == 1 {
            true
        } else {
            return Err(ProcessError::InvalidAccountData);
        };
        let s = Swap {
            is_initialized,
            creator: read_address(src, 1),
            offered_mint: read_address(src, 33),
            desired_mint: read_address(src, 65),
            ata_creator_offered: read_address(src, 97),
            escrow: read_address(src, 129),
            offered_amount: read_u64(src, 161),
            desired_amount: read_u64(src, 169),
            swap_bump: src[177],
            escrow_bump: src[178],
        };
        proof {
            let b = src@.subrange(0, SWAP_LEN as int);
            assert(s.encode_spec() == b) by {
                s.lemma_encode_len();
                lemma_le_round_trip(s.offered_amount);
                lemma_le_round_trip(s.desired_amount);
                assert(le_bytes(s.offered_amount) =~= src@.subrange(161, 169)) by {
                    lemma_le_bytes_of(src@.subrange(161, 169));
                }
                assert(le_bytes(s.desired_amount) =~= src@.subrange(169, 177)) by {
                    lemma_le_bytes_of(src@.subrange(169, 177));
                }
                assert(s.encode_spec() =~= b);
            }
            let t = choose|t: Swap| t.encode_spec() == b;
            Self::lemma_encode_injective(s, t);
        }
        Ok(s)
    }

    /// Decodes a record stored in an account of exactly `SWAP_LEN` bytes,
    /// whatever its flag says.
    pub fn unpack_unchecked(src: &[u8]) -> (r: Result<Swap, ProcessError>)
        ensures
            src@.len() != SWAP_LEN ==> r == Err::<Swap, ProcessError>(ProcessError::InvalidAccountData),
            src@.len() == SWAP_LEN ==> match Self::decode_spec(src@) {
                Some(s) => r == Ok::<Swap, ProcessError>(s),
                None => r == Err::<Swap, ProcessError>(ProcessError::InvalidAccountData),
            },
    {
        if src.len() != SWAP_LEN {
            return Err(ProcessError::InvalidAccountData);
        }
        Self::unpack_from_slice(src)
    }

    /// Decodes a record stored in an account of exactly `SWAP_LEN` bytes,
    /// which must be marked initialized.
    pub fn unpack(src: &[u8]) -> (r: Result<Swap, ProcessError>)
        ensures
            r == Self::stored_spec(src@),
    {
        let s = Self::unpack_unchecked(src)?;
        if s.is_initialized() {
            Ok(s)
        } else {
            Err(ProcessError::UninitializedAccount)
        }
    }

    /// What reading an initialized record from account data gives.
    pub open spec fn stored_spec(b: Seq<u8>) -> Result<Swap, ProcessError> {
        if b.len() != SWAP_LEN {
            Err(ProcessError::InvalidAccountData)
        } else {
            match Self::decode_spec(b) {
                None => Err(ProcessError::InvalidAccountData),
                Some(s) => if s.is_initialized {
                    Ok(s)
                } else {
                    Err(ProcessError::UninitializedAccount)
                },
            }
        }
    }
}

proof fn lemma_le_bytes_of(b: Seq<u8>)
    requires
        b.len() == 8,
    ensures
        le_bytes(le_u64(b)) == b,
{
    let (b0, b1, b2, b3, b4, b5, b6, b7) = (b[0], b[1], b[2], b[3], b[4], b[5], b[6], b[7]);
    let v = le_u64(b);
    assert(v == (b0 as u64) | ((b1 as u64) << 8u64) | ((b2 as u64) << 16u64) | ((b3 as u64) << 24u64)
        | ((b4 as u64) << 32u64) | ((b5 as u64) << 40u64) | ((b6 as u64) << 48u64)
        | ((b7 as u64) << 56u64));
    assert(v as u8 == b0 && (v >> 8u64) as u8 == b1 && (v >> 16u64) as u8 == b2 && (v >> 24u64) as u8 == b3
        && (v >> 32u64) as u8 == b4 && (v >> 40u64) as u8 == b5 && (v >> 48u64) as u8 == b6
        && (v >> 56u64) as u8 == b7) by (bit_vector)
        requires
            v == (b0 as u64) | ((b1 as u64) << 8u64) | ((b2 as u64) << 16u64) | ((b3 as u64) << 24u64)
                | ((b4 as u64) << 32u64) | ((b5 as u64) << 40u64) | ((b6 as u64) << 48u64)
                | ((b7 as u64) << 56u64),
    ;
    assert(le_bytes(v) =~= b);
}

fn push_address(out: &mut Vec<u8>, a: &Address)
    ensures
        final(out)@ == old(out)@ + a.bytes@,
{
    let mut i: usize = 0;
    while i < 32
        invariant
            0 <= i <= 32,
            out@ == old(out)@ + a.bytes@.subrange(0, i as int),
        decreases 32 - i,
    {
        out.push(a.bytes[i]);
        i += 1;
        assert(out@ =~= old(out)@ + a.bytes@.subrange(0, i as int));
    }
    assert(a.bytes@.subrange(0, 32) =~= a.bytes@);
}

fn push_u64(out: &mut Vec<u8>, v: u64)
    ensures
        final(out)@ == old(out)@ + le_bytes(v),
{
    out.push(v as u8);
    out.push((v >> 8u64) as u8);
    out.push((v >> 16u64) as u8);
    out.push((v >> 24u64) as u8);
    out.push((v >> 32u64) as u8);
    out.push((v >> 40u64) as u8);
    out.push((v >> 48u64) as u8);
    out.push((v >> 56u64) as u8);
    assert(out@ =~= old(out)@ + le_bytes(v));
}

fn read_address(src: &[u8], at: usize) -> (r: Address)
    requires
        at + 32 <= src@.len(),
    ensures
        r.bytes@ == src@.subrange(at as int, at + 32),
{
    let len = src.len();
    let mut bytes = [0u8; 32];
    let mut i: usize = 0;
    while i < 32
        invariant
            0 <= i <= 32,
            at + 32 <= src@.len(),
            len == src@.len(),
            forall|j: int| 0 <= j < i ==> bytes[j] == src@[at + j],
        decreases 32 - i,
    {
        bytes[i] = src[at + i];
        i += 1;
    }
    assert(bytes@ =~= src@.subrange(at as int, at + 32));
    Address { bytes }
}

pub(crate) fn read_u64(src: &[u8], at: usize) -> (r: u64)
    requires
        at + 8 <= src@.len(),
    ensures
        r == le_u64(src@.subrange(at as int, at + 8)),
{
    (src[at] as u64) | ((src[at + 1] as u64) << 8u64) | ((src[at + 2] as u64) << 16u64)
        | ((src[at + 3] as u64) << 24u64) | ((src[at + 4] as u64) << 32u64)
        | ((src[at + 5] as u64) << 40u64) | ((src[at + 6] as u64) << 48u64)
        | ((src[at + 7] as u64) << 56u64)
}

} // verus!
