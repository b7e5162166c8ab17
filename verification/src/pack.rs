//! The byte layout of the fund record.
//!
//! A record is its fields in declaration order, with nothing between them: a `bool` is one
//! byte, 0 or 1; a `u64` is eight bytes, least significant first; an identity is its 32
//! bytes; the fund type is a tag byte, 0 for `FundMe` and 1 for `Raise`, and a `Raise` is
//! followed by its `private` flag.

use crate::accounts::fund::{Fund, FundType};
use crate::error::{FundError, FundErrorCode};
use crate::identity::Identity;
use vstd::bytes::{
    lemma_auto_spec_u64_to_from_le_bytes, spec_u64_from_le_bytes, spec_u64_to_le_bytes,
    u64_from_le_bytes, u64_to_le_bytes,
};
use vstd::prelude::*;
use vstd::slice::slice_subrange;

verus! {

/// Bytes that follow the fund type in a record.
pub const BODY_LEN: usize = 289;

/// The byte that encodes a `bool`.
pub open spec fn spec_bool_byte(b: bool) -> u8 {
    if b {
        1u8
    } else {
        0u8
    }
}

/// The bytes that encode a fund type.
pub open spec fn spec_pack_type(t: FundType) -> Seq<u8> {
    match t {
        FundType::FundMe => seq![0u8],
        FundType::Raise { private } => seq![1u8, spec_bool_byte(private)],
    }
}

/// The bytes that encode what follows the fund type.
pub open spec fn spec_pack_body(f: Fund) -> Seq<u8> {
    f.owner@ + f.authority@ + spec_u64_to_le_bytes(f.max_balance) + spec_u64_to_le_bytes(
        f.balance,
    ) + seq![f.nonce] + f.mint@ + f.vault@ + spec_u64_to_le_bytes(f.shares) + f.nft_account@
        + f.nft_mint@ + f.whitelist@ + f.payback_vault@ + spec_u64_to_le_bytes(f.payback_bal)
}

/// The bytes that encode a record.
pub open spec fn spec_pack(f: Fund) -> Seq<u8> {
    seq![spec_bool_byte(f.initialized), spec_bool_byte(f.open)] + spec_pack_type(f.fund_type)
        + spec_pack_body(f)
}

/// The record that the bytes encode, if they encode one.
pub open spec fn spec_unpack(data: Seq<u8>) -> Option<Fund> {
    if exists|f: Fund| spec_pack(f) == data {
        Some(choose|f: Fund| spec_pack(f) == data)
    } else {
        None
    }
}

/// The number of bytes that encode a record.
pub open spec fn spec_size(f: Fund) -> nat {
    match f.fund_type {
        FundType::FundMe => 292,
        FundType::Raise { .. } => 293,
    }
}

/// Where each field after the fund type lies.
pub proof fn lemma_body_layout(f: Fund)
    ensures
        spec_pack_body(f).len() == 289,
        spec_pack_body(f).subrange(0, 32) == f.owner@,
        spec_pack_body(f).subrange(32, 64) == f.authority@,
        spec_pack_body(f).subrange(64, 72) == spec_u64_to_le_bytes(f.max_balance),
        spec_pack_body(f).subrange(72, 80) == spec_u64_to_le_bytes(f.balance),
        spec_pack_body(f)[80] == f.nonce,
        spec_pack_body(f).subrange(81, 113) == f.mint@,
        spec_pack_body(f).subrange(113, 145) == f.vault@,
        spec_pack_body(f).subrange(145, 153) == spec_u64_to_le_bytes(f.shares),
        spec_pack_body(f).subrange(153, 185) == f.nft_account@,
        spec_pack_body(f).subrange(185, 217) == f.nft_mint@,
        spec_pack_body(f).subrange(217, 249) == f.whitelist@,
        spec_pack_body(f).subrange(249, 281) == f.payback_vault@,
        spec_pack_body(f).subrange(281, 289) == spec_u64_to_le_bytes(f.payback_bal),
{
    lemma_auto_spec_u64_to_from_le_bytes();
    let b = spec_pack_body(f);
    assert(b.len() == 289);
    assert(b.subrange(0, 32) =~= f.owner@);
    assert(b.subrange(32, 64) =~= f.authority@);
    assert(b.subrange(64, 72) =~= spec_u64_to_le_bytes(f.max_balance));
    assert(b.subrange(72, 80) =~= spec_u64_to_le_bytes(f.balance));
    assert(b.subrange(81, 113) =~= f.mint@);
    assert(b.subrange(113, 145) =~= f.vault@);
    assert(b.subrange(145, 153) =~= spec_u64_to_le_bytes(f.shares));
    assert(b.subrange(153, 185) =~= f.nft_account@);
    assert(b.subrange(185, 217) =~= f.nft_mint@);
    assert(b.subrange(217, 249) =~= f.whitelist@);
    assert(b.subrange(249, 281) =~= f.payback_vault@);
    assert(b.subrange(281, 289) =~= spec_u64_to_le_bytes(f.payback_bal));
}

/// The head of an encoded record: the two flags and the fund type, then the body.
pub proof fn lemma_pack_shape(f: Fund)
    ensures
        spec_pack(f).len() == spec_size(f),
        spec_pack(f)[0] == spec_bool_byte(f.initialized),
        spec_pack(f)[1] == spec_bool_byte(f.open),
        f.fund_type is FundMe ==> spec_pack(f)[2] == 0 && spec_pack(f).subrange(3, 292)
            == spec_pack_body(f),
        f.fund_type matches FundType::Raise { private } ==> spec_pack(f)[2] == 1 && spec_pack(
            f,
        )[3] == spec_bool_byte(private) && spec_pack(f).subrange(4, 293) == spec_pack_body(f),
{
    lemma_body_layout(f);
    let p = spec_pack(f);
    match f.fund_type {
        FundType::FundMe => {
            assert(p.subrange(3, 292) =~= spec_pack_body(f));
        },
        FundType::Raise { private } => {
            assert(p.subrange(4, 293) =~= spec_pack_body(f));
        },
    }
}

/// Two records with the same body bytes agree on every field after the fund type.
proof fn lemma_body_injective(f: Fund, g: Fund)
    requires
        spec_pack_body(f) == spec_pack_body(g),
    ensures
        f.owner == g.owner,
        f.authority == g.authority,
        f.max_balance == g.max_balance,
        f.balance == g.balance,
        f.nonce == g.nonce,
        f.mint == g.mint,
        f.vault == g.vault,
        f.shares == g.shares,
        f.nft_account == g.nft_account,
        f.nft_mint == g.nft_mint,
        f.whitelist == g.whitelist,
        f.payback_vault == g.payback_vault,
        f.payback_bal == g.payback_bal,
{
    lemma_body_layout(f);
    lemma_body_layout(g);
    lemma_auto_spec_u64_to_from_le_bytes();
    crate::identity::identity_ext(f.owner, g.owner);
    crate::identity::identity_ext(f.authority, g.authority);
    crate::identity::identity_ext(f.mint, g.mint);
    crate::identity::identity_ext(f.vault, g.vault);
    crate::identity::identity_ext(f.nft_account, g.nft_account);
    crate::identity::identity_ext(f.nft_mint, g.nft_mint);
    crate::identity::identity_ext(f.whitelist, g.whitelist);
    crate::identity::identity_ext(f.payback_vault, g.payback_vault);
    assert(f.max_balance == spec_u64_from_le_bytes(spec_u64_to_le_bytes(f.max_balance)));
    assert(g.max_balance == spec_u64_from_le_bytes(spec_u64_to_le_bytes(g.max_balance)));
    assert(f.balance == spec_u64_from_le_bytes(spec_u64_to_le_bytes(f.balance)));
    assert(g.balance == spec_u64_from_le_bytes(spec_u64_to_le_bytes(g.balance)));
    assert(f.shares == spec_u64_from_le_bytes(spec_u64_to_le_bytes(f.shares)));
    assert(g.shares == spec_u64_from_le_bytes(spec_u64_to_le_bytes(g.shares)));
    assert(f.payback_bal == spec_u64_from_le_bytes(spec_u64_to_le_bytes(f.payback_bal)));
    assert(g.payback_bal == spec_u64_from_le_bytes(spec_u64_to_le_bytes(g.payback_bal)));
}

/// No two records have the same encoding.
pub proof fn pack_is_injective(f: Fund, g: Fund)
    requires
        spec_pack(f) == spec_pack(g),
    ensures
        f == g,
{
    lemma_pack_shape(f);
    lemma_pack_shape(g);
    assert(spec_pack_body(f) == spec_pack_body(g));
    lemma_body_injective(f, g);
}

/// Decoding an encoded record gives the record back.
pub proof fn unpack_inverts_pack(f: Fund)
    ensures
        spec_unpack(spec_pack(f)) == Some(f),
{
    let g = choose|g: Fund| spec_pack(g) == spec_pack(f);
    pack_is_injective(g, f);
}

/// Bytes that decode to a record are exactly the record's encoding.
pub proof fn pack_inverts_unpack(data: Seq<u8>, f: Fund)
    requires
        spec_unpack(data) == Some(f),
    ensures
        spec_pack(f) == data,
        data.len() == spec_size(f),
{
    lemma_pack_shape(f);
}

/// Appends `src` to `out`.
pub(crate) fn append(out: &mut Vec<u8>, src: &[u8])
    ensures
        final(out)@ == old(out)@ + src@,
{
    let mut i: usize = 0;
    while i < src.len()
        invariant
            i <= src@.len(),
            out@ == old(out)@ + src@.subrange(0, i as int),
        decreases src@.len() - i,
    {
        out.push(src[i]);
        i += 1;
        assert(out@ =~= old(out)@ + src@.subrange(0, i as int));
    }
    assert(src@.subrange(0, src@.len() as int) =~= src@);
}

/// Appends the 32 bytes of an identity to `out`.
pub(crate) fn append_identity(out: &mut Vec<u8>, id: &Identity)
    ensures
        final(out)@ == old(out)@ + id@,
{
    append(out, id.bytes.as_slice());
}

/// Appends the eight bytes of `x`, least significant first, to `out`.
pub(crate) fn append_u64(out: &mut Vec<u8>, x: u64)
    ensures
        final(out)@ == old(out)@ + spec_u64_to_le_bytes(x),
{
    let bytes = u64_to_le_bytes(x);
    append(out, bytes.as_slice());
}

/// The byte that encodes a `bool`.
pub(crate) fn bool_byte(b: bool) -> (byte: u8)
    ensures
        byte == spec_bool_byte(b),
{
    if b {
        1
    } else {
        0
    }
}

/// The identity whose bytes are the 32 bytes of `src` from `off` on.
pub(crate) fn read_identity(src: &[u8], off: usize) -> (id: Identity)
    requires
        off + 32 <= src@.len(),
    ensures
        id@ == src@.subrange(off as int, off + 32),
{
    let len = src.len();
    let mut bytes = [0u8; 32];
    let mut i: usize = 0;
    while i < 32
        invariant
            i <= 32,
            off + 32 <= src@.len() == len,
            forall|j: int| 0 <= j < i ==> bytes[j] == src@[off + j],
        decreases 32 - i,
    {
        bytes[i] = src[off + i];
        i += 1;
    }
    let id = Identity { bytes };
    assert(id@ =~= src@.subrange(off as int, off + 32));
    id
}

/// The number whose eight bytes, least significant first, are those of `src` from `off` on.
pub(crate) fn read_u64(src: &[u8], off: usize) -> (x: u64)
    requires
        off + 8 <= src@.len(),
    ensures
        spec_u64_to_le_bytes(x) == src@.subrange(off as int, off + 8),
{
    let len = src.len();
    assert(off + 8 <= len);
    let x = u64_from_le_bytes(slice_subrange(src, off, off + 8));
    proof {
        lemma_auto_spec_u64_to_from_le_bytes();
    }
    x
}

impl Fund {
    /// The number of bytes that encode the record.
    pub fn size(&self) -> (n: usize)
        ensures
            n == spec_size(*self),
            n == spec_pack(*self).len(),
    {
        proof {
            lemma_pack_shape(*self);
        }
        match self.fund_type {
            FundType::FundMe => 292,
            FundType::Raise { private: _ } => 293,
        }
    }

    /// Encodes the record.
    pub fn pack(&self) -> (out: Vec<u8>)
        ensures
            out@ == spec_pack(*self),
            spec_unpack(out@) == Some(*self),
    {
        let mut out: Vec<u8> = Vec::new();
        out.push(bool_byte(self.initialized));
        out.push(bool_byte(self.open));
        match self.fund_type {
            FundType::FundMe => {
                out.push(0);
            },
            FundType::Raise { private } => {
                out.push(1);
                out.push(bool_byte(private));
            },
        }
        let ghost head = out@;
        assert(head =~= seq![spec_bool_byte(self.initialized), spec_bool_byte(self.open)]
            + spec_pack_type(self.fund_type));
        append_identity(&mut out, &self.owner);
        append_identity(&mut out, &self.authority);
        append_u64(&mut out, self.max_balance);
        append_u64(&mut out, self.balance);
        out.push(self.nonce);
        append_identity(&mut out, &self.mint);
        append_identity(&mut out, &self.vault);
        append_u64(&mut out, self.shares);
        append_identity(&mut out, &self.nft_account);
        append_identity(&mut out, &self.nft_mint);
        append_identity(&mut out, &self.whitelist);
        append_identity(&mut out, &self.payback_vault);
        append_u64(&mut out, self.payback_bal);
        proof {
            assert(out@ =~= head + spec_pack_body(*self));
            unpack_inverts_pack(*self);
        }
        out
    }

    /// Decodes a record. Bytes that are no record's encoding are refused: a wrong length, a
    /// flag byte other than 0 or 1, an unknown fund type.
    pub fn unpack(src: &[u8]) -> (r: Result<Fund, FundError>)
        ensures
            r == spec_unpack_result(src@),
    {
        let len = src.len();
        if len < 3 || src[0] > 1 || src[1] > 1 || src[2] > 1 {
            proof {
                assert forall|f: Fund| spec_pack(f) != src@ by {
                    lemma_pack_shape(f);
                }
            }
            return Err(FundError::ErrorCode(FundErrorCode::InvalidAccountData));
        }
        let raise = src[2] == 1;
        let start: usize = if raise {
            4
        } else {
            3
        };
        if len != start + BODY_LEN || (raise && src[3] > 1) {
            proof {
                assert forall|f: Fund| spec_pack(f) != src@ by {
                    lemma_pack_shape(f);
                }
            }
            return Err(FundError::ErrorCode(FundErrorCode::InvalidAccountData));
        }
        let fund_type = if raise {
            FundType::Raise { private: src[3] == 1 }
        } else {
            FundType::FundMe
        };
        let body = slice_subrange(src, start, len);
        let fund = Fund {
            initialized: src[0] == 1,
            open: src[1] == 1,
            fund_type,
            owner: read_identity(body, 0),
            authority: read_identity(body, 32),
            max_balance: read_u64(body, 64),
            balance: read_u64(body, 72),
            nonce: body[80],
            mint: read_identity(body, 81),
            vault: read_identity(body, 113),
            shares: read_u64(body, 145),
            nft_account: read_identity(body, 153),
            nft_mint: read_identity(body, 185),
            whitelist: read_identity(body, 217),
            payback_vault: read_identity(body, 249),
            payback_bal: read_u64(body, 281),
        };
        proof {
            assert(spec_pack_body(fund) =~= body@);
            assert(spec_pack(fund) =~= src@);
            unpack_inverts_pack(fund);
        }
        Ok(fund)
    }
}

/// What decoding the bytes returns: the record they encode, or `InvalidAccountData`.
pub open spec fn spec_unpack_result(data: Seq<u8>) -> Result<Fund, FundError> {
    match spec_unpack(data) {
        Some(f) => Ok(f),
        None => Err(FundError::ErrorCode(FundErrorCode::InvalidAccountData)),
    }
}

} // verus!
