//! The allow-list registry: one record per (collection, rarity tier, nonce),
//! created by its admin at a seed-derived address, naming the assets that may
//! be staked.
use crate::address::Address;
use crate::derivation::{allow_list_address, allow_list_address_of};
use vstd::array::ArrayAdditionalExecFns;
use vstd::prelude::*;
use vstd::string::StringSliceAdditionalSpecFns;
use vstd::utf8::encode_utf8;

verus! {

/// An allow-list record.
#[derive(Clone, Debug)]
pub struct RarityInfo {
    pub admin: Address,
    pub collection: [u8; 16],
    pub rarity: [u8; 16],
    /// The eligible assets, in the order they were appended.
    pub mint_list: Vec<Address>,
}

#[derive(Clone, Copy, Debug, PartialEq, Eq)]
pub enum ErrorCode {
    /// The record's address is not the one derived from its admin and seed.
    InvalidAccount,
    /// The signer is not the record's admin.
    Unauthorized,
    /// A label does not fit in 16 bytes.
    LabelTooLong,
}

/// Accounts of the call that creates an allow-list record.
#[derive(Clone, Debug)]
pub struct Initialize {
    /// The registry program.
    pub program_id: Address,
    /// The signer, who becomes the record's admin.
    pub admin: Address,
    pub rarity_info_address: Address,
    pub rarity_info: RarityInfo,
}

/// Accounts of the call that hands the record to a new admin.
#[derive(Clone, Debug)]
pub struct UpdateAdmin {
    /// The signer.
    pub admin: Address,
    pub new_admin: Address,
    pub rarity_info: RarityInfo,
}

/// Accounts of the call that appends eligible assets.
#[derive(Clone, Debug)]
pub struct AppendList {
    /// The signer.
    pub admin: Address,
    pub rarity_info: RarityInfo,
}

/// A label stored left-aligned in 16 bytes, zero-padded.
pub open spec fn fixed_label(b: Seq<u8>) -> Seq<u8> {
    b + Seq::new((16 - b.len()) as nat, |i: int| 0u8)
}

/// The label's UTF-8 bytes, left-aligned and zero-padded to 16; a label
/// longer than 16 bytes is refused rather than cut.
pub fn tofixlength(txt: String) -> (r: Result<[u8; 16], ErrorCode>)
    ensures
        r is Ok <==> encode_utf8(txt@).len() <= 16,
        r matches Ok(a) ==> a@ == fixed_label(encode_utf8(txt@)),
        r matches Err(e) ==> e == ErrorCode::LabelTooLong,
{
    let src = txt.as_str().as_bytes();
    if src.len() > 16 {
        return Err(ErrorCode::LabelTooLong);
    }
    let mut data: [u8; 16] = [0u8; 16];
    let mut i: usize = 0;
    while i < src.len()
        invariant
            i <= src@.len() <= 16,
            src@ == encode_utf8(txt@),
            data@.len() == 16,
            forall|j: int| 0 <= j < i ==> data@[j] == src@[j],
            forall|j: int| i <= j < 16 ==> data@[j] == 0u8,
        decreases src@.len() - i,
    {
        data.set(i, src[i]);
        i = i + 1;
    }
    assert(data@ =~= fixed_label(src@));
    Ok(data)
}

/// Creates the allow-list record at the address derived from the admin and
/// the lookup seed of (collection, rarity, nonce), storing both labels.
pub fn initialize(ctx: &mut Initialize, collection: String, rarity: String, nonce: u64) -> (r: Result<(), ErrorCode>)
    ensures
        ({
            let c = *old(ctx);
            let derived_ok = allow_list_address_of(c.admin@, collection@, rarity@, nonce, c.program_id@)
                == Some(c.rarity_info_address@);
            let fits = encode_utf8(collection@).len() <= 16 && encode_utf8(rarity@).len() <= 16;
            &&& (r is Ok <==> derived_ok && fits)
            &&& (!derived_ok ==> r == Err::<(), ErrorCode>(ErrorCode::InvalidAccount))
            &&& (derived_ok && !fits ==> r == Err::<(), ErrorCode>(ErrorCode::LabelTooLong))
            &&& (r is Err ==> *final(ctx) == c)
            &&& (r is Ok ==> final(ctx).program_id == c.program_id && final(ctx).admin == c.admin
                && final(ctx).rarity_info_address == c.rarity_info_address
                && final(ctx).rarity_info.admin == c.admin
                && final(ctx).rarity_info.collection@ == fixed_label(encode_utf8(collection@))
                && final(ctx).rarity_info.rarity@ == fixed_label(encode_utf8(rarity@))
                && final(ctx).rarity_info.mint_list == c.rarity_info.mint_list)
        }),
{
    let derived = allow_list_address(&ctx.admin, &collection, &rarity, nonce, &ctx.program_id);
    let valid = match derived {
        Some(a) => a.same_as(&ctx.rarity_info_address),
        None => false,
    };
    if !valid {
        return Err(ErrorCode::InvalidAccount);
    }
    let collection_tag = tofixlength(collection)?;
    let rarity_tag = tofixlength(rarity)?;
    ctx.rarity_info.admin = ctx.admin;
    ctx.rarity_info.collection = collection_tag;
    ctx.rarity_info.rarity = rarity_tag;
    Ok(())
}

/// Hands the record to `new_admin`; only the current admin may.
pub fn update_admin(ctx: &mut UpdateAdmin) -> (r: Result<(), ErrorCode>)
    ensures
        (r is Ok <==> old(ctx).admin@ == old(ctx).rarity_info.admin@),
        r is Err ==> r == Err::<(), ErrorCode>(ErrorCode::Unauthorized) && *final(ctx) == *old(ctx),
        r is Ok ==> *final(ctx) == (UpdateAdmin {
            rarity_info: RarityInfo { admin: old(ctx).new_admin, ..old(ctx).rarity_info },
            ..*old(ctx)
        }),
{
    if !ctx.admin.same_as(&ctx.rarity_info.admin) {
        return Err(ErrorCode::Unauthorized);
    }
    ctx.rarity_info.admin = ctx.new_admin;
    Ok(())
}

/// Appends assets to the end of the list, in order; only the admin may.
pub fn append_list(ctx: &mut AppendList, append_mint_list: Vec<Address>) -> (r: Result<(), ErrorCode>)
    ensures
        (r is Ok <==> old(ctx).admin@ == old(ctx).rarity_info.admin@),
        r is Err ==> r == Err::<(), ErrorCode>(ErrorCode::Unauthorized) && *final(ctx) == *old(ctx),
        r is Ok ==> final(ctx).admin == old(ctx).admin
            && final(ctx).rarity_info.admin == old(ctx).rarity_info.admin
            && final(ctx).rarity_info.collection == old(ctx).rarity_info.collection
            && final(ctx).rarity_info.rarity == old(ctx).rarity_info.rarity
            && final(ctx).rarity_info.mint_list@ == old(ctx).rarity_info.mint_list@ + append_mint_list@,
{
    if !ctx.admin.same_as(&ctx.rarity_info.admin) {
        return Err(ErrorCode::Unauthorized);
    }
    let mut i: usize = 0;
    while i < append_mint_list.len()
        invariant
            i <= append_mint_list@.len(),
            ctx.admin == old(ctx).admin,
            ctx.rarity_info.admin == old(ctx).rarity_info.admin,
            ctx.rarity_info.collection == old(ctx).rarity_info.collection,
            ctx.rarity_info.rarity == old(ctx).rarity_info.rarity,
            ctx.rarity_info.mint_list@ == old(ctx).rarity_info.mint_list@ + append_mint_list@.subrange(0, i as int),
        decreases append_mint_list@.len() - i,
    {
        ctx.rarity_info.mint_list.push(append_mint_list[i]);
        i = i + 1;
        assert(ctx.rarity_info.mint_list@ =~= old(ctx).rarity_info.mint_list@ + append_mint_list@.subrange(0, i as int));
    }
    assert(append_mint_list@.subrange(0, i as int) =~= append_mint_list@);
    Ok(())
}

} // verus!
