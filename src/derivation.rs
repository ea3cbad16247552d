//! Deterministic derivation of the addresses that the pool relies on:
//! the allow-list lookup seed, program-derived addresses and associated
//! holding accounts.
use anchor_lang::solana_program::hash::hash;
use anchor_lang::solana_program::pubkey::{Pubkey, PubkeyError};
use anchor_spl::associated_token::get_associated_token_address;
use crate::address::Address;
use vstd::prelude::*;
use vstd::string::StringSliceAdditionalSpecFns;
use vstd::utf8::encode_utf8;

verus! {

#[verifier::external_type_specification]
#[verifier::external_body]
pub struct ExPubkeyError(PubkeyError);

/// The lower-case hexadecimal digit for a value below 16.
pub open spec fn hex_digit(n: u8) -> char {
    if n == 0 { '0' } else if n == 1 { '1' } else if n == 2 { '2' } else if n == 3 { '3' }
    else if n == 4 { '4' } else if n == 5 { '5' } else if n == 6 { '6' } else if n == 7 { '7' }
    else if n == 8 { '8' } else if n == 9 { '9' } else if n == 10 { 'a' } else if n == 11 { 'b' }
    else if n == 12 { 'c' } else if n == 13 { 'd' } else if n == 14 { 'e' } else { 'f' }
}

/// Two lower-case hex digits per byte, high nibble first.
pub open spec fn hex_text(b: Seq<u8>) -> Seq<char> {
    Seq::new(
        2 * b.len(),
        |i: int| hex_digit(if i % 2 == 0 { b[i / 2] / 16 } else { b[i / 2] % 16 }),
    )
}

/// The bytes of an ASCII text.
pub open spec fn ascii_bytes(s: Seq<char>) -> Seq<u8> {
    Seq::new(s.len(), |i: int| s[i] as u8)
}

/// The ASCII decimal digits of `n`, most significant first, without leading zeros.
pub open spec fn decimal(n: nat) -> Seq<u8>
    decreases n,
{
    if n < 10 {
        seq![(48 + n) as u8]
    } else {
        decimal(n / 10).push((48 + n % 10) as u8)
    }
}

/// What `hash` returns: the SHA-256 digest of the bytes.
pub uninterp spec fn sha256_of(data: Seq<u8>) -> Seq<u8>;

/// What `create_with_seed` derives from a base, a seed and an owner program.
pub uninterp spec fn address_with_seed_of(base: Seq<u8>, seed: Seq<u8>, owner: Seq<u8>) -> Seq<u8>;

/// What `find_program_address` derives from seeds and a program: an address
/// with its bump, or nothing where no bump gives an address off the curve.
pub uninterp spec fn program_address_of(seeds: Seq<Seq<u8>>, program: Seq<u8>) -> Option<(Seq<u8>, u8)>;

/// The associated holding account of a wallet for a mint, under the token program.
pub uninterp spec fn associated_token_address_of(wallet: Seq<u8>, mint: Seq<u8>) -> Seq<u8>;

/// The marker that ends every program-derived address preimage.
pub open spec fn pda_marker() -> Seq<u8> {
    // "ProgramDerivedAddress"
    seq![80u8, 114u8, 111u8, 103u8, 114u8, 97u8, 109u8, 68u8, 101u8, 114u8, 105u8,
        118u8, 101u8, 100u8, 65u8, 100u8, 100u8, 114u8, 101u8, 115u8, 115u8]
}

/// An owner that `create_with_seed` refuses: its last bytes are the marker.
pub open spec fn is_marked_owner(owner: Seq<u8>) -> bool {
    owner.len() >= 21 && owner.subrange(owner.len() - 21, owner.len() as int) == pda_marker()
}

/// Relies on hex::encode: two lower-case hex digits for each byte, in order.
#[verifier::external_body]
fn hex_encode(b: &[u8]) -> (r: String)
    ensures
        r@ == hex_text(b@),
{
    hex::encode(b)
}

/// Relies on solana_program::hash::hash: the 32-byte SHA-256 digest of the bytes.
#[verifier::external_body]
fn sha256(data: &[u8]) -> (r: Vec<u8>)
    ensures
        r@ == sha256_of(data@),
        r@.len() == 32,
{
    hash(data).to_bytes().to_vec()
}

/// Relies on Pubkey::create_with_seed: it fails exactly on a seed over 32
/// bytes or an owner that ends with the marker, and otherwise derives the
/// address from the three byte strings alone.
#[verifier::external_body]
fn create_with_seed(base: &Address, seed: &str, owner: &Address) -> (r: Result<Address, PubkeyError>)
    ensures
        r is Ok <==> (seed.spec_bytes().len() <= 32 && !is_marked_owner(owner@)),
        r matches Ok(a) ==> a@ == address_with_seed_of(base@, seed.spec_bytes(), owner@),
{
    Pubkey::create_with_seed(&Pubkey::new_from_array(base.bytes), seed, &Pubkey::new_from_array(owner.bytes))
        .map(|p| Address { bytes: p.to_bytes() })
}

/// Relies on Pubkey::try_find_program_address: the result depends on the
/// seeds and the program alone.
#[verifier::external_body]
fn find_program_address(seeds: &Vec<Vec<u8>>, program: &Address) -> (r: Option<(Address, u8)>)
    ensures
        r is Some <==> program_address_of(seed_view(seeds@), program@) is Some,
        r matches Some(p) ==> program_address_of(seed_view(seeds@), program@) == Some((p.0@, p.1)),
{
    let refs: Vec<&[u8]> = seeds.iter().map(|s| s.as_slice()).collect();
    Pubkey::try_find_program_address(&refs, &Pubkey::new_from_array(program.bytes))
        .map(|(p, bump)| (Address { bytes: p.to_bytes() }, bump))
}

/// Relies on get_associated_token_address: the holding account address
/// depends on the wallet and the mint alone. It derives the address with
/// find_program_address, which panics only where none of the 255 bumps
/// gives an address off the curve.
#[verifier::external_body]
fn associated_token_address(wallet: &Address, mint: &Address) -> (r: Address)
    ensures
        r@ == associated_token_address_of(wallet@, mint@),
{
    let p = get_associated_token_address(&Pubkey::new_from_array(wallet.bytes), &Pubkey::new_from_array(mint.bytes));
    Address { bytes: p.to_bytes() }
}

/// The ASCII decimal text of `n`.
pub fn decimal_bytes(n: u64) -> (r: Vec<u8>)
    ensures
        r@ == decimal(n as nat),
{
    let mut out: Vec<u8> = Vec::new();
    let mut m: u64 = n;
    loop
        invariant
            decimal(n as nat) == decimal(m as nat) + out@,
        decreases m,
    {
        let d: u8 = (m % 10) as u8 + 48;
        if m < 10 {
            out.insert(0, d);
            assert(decimal(n as nat) =~= out@);
            return out;
        }
        let ghost prev = out@;
        let ghost before = m;
        out.insert(0, d);
        m = m / 10;
        assert(decimal(before as nat) == decimal(m as nat).push(d));
        assert(decimal(m as nat).push(d) + prev =~= decimal(m as nat) + out@);
    }
}

/// The bytes that are hex-encoded and hashed to locate an allow-list:
/// collection, rarity tier, decimal nonce and domain label, in that order.
pub open spec fn seed_preimage(collection: Seq<char>, rarity: Seq<char>, nonce: u64, label: Seq<char>) -> Seq<u8> {
    encode_utf8(collection) + encode_utf8(rarity) + decimal(nonce as nat) + encode_utf8(label)
}

/// The digest of the hex text of the preimage.
pub open spec fn seed_digest(collection: Seq<char>, rarity: Seq<char>, nonce: u64, label: Seq<char>) -> Seq<u8> {
    sha256_of(ascii_bytes(hex_text(seed_preimage(collection, rarity, nonce, label))))
}

/// The full lookup hash: the hex text of the digest.
pub open spec fn seed_hash_text(collection: Seq<char>, rarity: Seq<char>, nonce: u64, label: Seq<char>) -> Seq<char> {
    hex_text(seed_digest(collection, rarity, nonce, label))
}

/// The lookup seed: the first 32 characters of the lookup hash.
pub open spec fn lookup_seed_text(collection: Seq<char>, rarity: Seq<char>, nonce: u64, label: Seq<char>) -> Seq<char> {
    seed_hash_text(collection, rarity, nonce, label).subrange(0, 32)
}

pub proof fn lemma_hex_text_is_ascii(b: Seq<u8>)
    ensures
        vstd::utf8::is_ascii_chars(hex_text(b)),
{
}

pub proof fn lemma_hex_text_prefix(b: Seq<u8>, n: int)
    requires
        0 <= n <= b.len(),
    ensures
        hex_text(b).subrange(0, 2 * n) == hex_text(b.subrange(0, n)),
{
    assert(hex_text(b).subrange(0, 2 * n) =~= hex_text(b.subrange(0, n)));
}

fn append_bytes(v: &mut Vec<u8>, s: &[u8])
    ensures
        final(v)@ == old(v)@ + s@,
{
    let mut i: usize = 0;
    while i < s.len()
        invariant
            i <= s@.len(),
            v@ == old(v)@ + s@.subrange(0, i as int),
        decreases s@.len() - i,
    {
        v.push(s[i]);
        i = i + 1;
        assert(v@ =~= old(v)@ + s@.subrange(0, i as int));
    }
    assert(s@.subrange(0, i as int) =~= s@);
}

fn seed_digest_bytes(collection: &String, rarity: &String, nonce: u64, label: &String) -> (r: Vec<u8>)
    ensures
        r@ == seed_digest(collection@, rarity@, nonce, label@),
        r@.len() == 32,
{
    broadcast use vstd::string::is_ascii_spec_bytes;

    let mut data: Vec<u8> = Vec::new();
    append_bytes(&mut data, collection.as_str().as_bytes());
    append_bytes(&mut data, rarity.as_str().as_bytes());
    let digits = decimal_bytes(nonce);
    append_bytes(&mut data, digits.as_slice());
    append_bytes(&mut data, label.as_str().as_bytes());
    assert(data@ =~= seed_preimage(collection@, rarity@, nonce, label@));
    let text = hex_encode(data.as_slice());
    proof {
        lemma_hex_text_is_ascii(data@);
    }
    let text_str = text.as_str();
    assert(vstd::string::is_ascii(text_str));
    let text_bytes = text_str.as_bytes();
    assert(text_bytes@ =~= ascii_bytes(hex_text(data@)));
    sha256(text_bytes)
}

/// The lookup hash of an allow-list: a 64-character lower-case hex text that
/// depends on the four inputs alone.
pub fn seedhash(collection: String, rarity: String, nonce: u64, rarity_info: String) -> (r: String)
    ensures
        r@ == seed_hash_text(collection@, rarity@, nonce, rarity_info@),
        r@.len() == 64,
{
    let digest = seed_digest_bytes(&collection, &rarity, nonce, &rarity_info);
    hex_encode(digest.as_slice())
}

/// The seed under which an allow-list record is created: the first 32
/// characters of its lookup hash.
pub fn lookup_seed(collection: &String, rarity: &String, nonce: u64, label: &String) -> (r: String)
    ensures
        r@ == lookup_seed_text(collection@, rarity@, nonce, label@),
        r@.len() == 32,
        vstd::utf8::is_ascii_chars(r@),
{
    let digest = seed_digest_bytes(collection, rarity, nonce, label);
    let mut head: Vec<u8> = Vec::new();
    let mut i: usize = 0;
    while i < 16
        invariant
            i <= 16,
            digest@.len() == 32,
            head@ == digest@.subrange(0, i as int),
        decreases 16 - i,
    {
        head.push(digest[i]);
        i = i + 1;
        assert(head@ =~= digest@.subrange(0, i as int));
    }
    proof {
        lemma_hex_text_prefix(digest@, 16);
        lemma_hex_text_is_ascii(head@);
    }
    hex_encode(head.as_slice())
}

/// The role label of the pool's custodial authority: "prove_token_vault".
pub open spec fn prove_token_vault_seed() -> Seq<u8> {
    ascii_bytes("prove_token_vault"@)
}

/// The role label of a per-asset vault record: "nft_vault".
pub open spec fn nft_vault_seed() -> Seq<u8> {
    ascii_bytes("nft_vault"@)
}

/// The role label of a pool record: "pool_info".
pub open spec fn pool_info_seed() -> Seq<u8> {
    ascii_bytes("pool_info"@)
}

/// The domain label of the allow-list lookup seed.
pub open spec fn rarity_info_label() -> Seq<char> {
    "rarity_info"@
}

/// `address` is what `seeds` derive under `program`.
pub open spec fn is_derived(seeds: Seq<Seq<u8>>, program: Seq<u8>, address: Seq<u8>) -> bool {
    match program_address_of(seeds, program) {
        Some(p) => p.0 == address,
        None => false,
    }
}

/// Seeds of a pool's custodial authority.
pub open spec fn authority_seeds(pool: Seq<u8>) -> Seq<Seq<u8>> {
    seq![pool, prove_token_vault_seed()]
}

/// Seeds of the vault record of an asset in a pool.
pub open spec fn nft_vault_seeds(mint: Seq<u8>, pool: Seq<u8>) -> Seq<Seq<u8>> {
    seq![mint, pool, nft_vault_seed()]
}

/// Seeds of the pool record of an allow-list.
pub open spec fn pool_seeds(rarity_info: Seq<u8>) -> Seq<Seq<u8>> {
    seq![rarity_info, pool_info_seed()]
}

/// The address of the allow-list record that `admin` created under
/// `program` for these labels and nonce, where the derivation is defined.
pub open spec fn allow_list_address_of(
    admin: Seq<u8>,
    collection: Seq<char>,
    rarity: Seq<char>,
    nonce: u64,
    program: Seq<u8>,
) -> Option<Seq<u8>> {
    if is_marked_owner(program) {
        None
    } else {
        Some(address_with_seed_of(admin, ascii_bytes(lookup_seed_text(collection, rarity, nonce, rarity_info_label())), program))
    }
}

/// The byte strings of a seed list.
pub open spec fn seed_view(seeds: Seq<Vec<u8>>) -> Seq<Seq<u8>> {
    seeds.map_values(|s: Vec<u8>| s@)
}

/// The address and bump derived from `seeds`, in the model's terms.
pub open spec fn derivation_view(r: Option<(Address, u8)>) -> Option<(Seq<u8>, u8)> {
    match r {
        Some(p) => Some((p.0@, p.1)),
        None => None,
    }
}

fn derive(seeds: &Vec<Vec<u8>>, program: &Address) -> (r: Option<(Address, u8)>)
    ensures
        derivation_view(r) == program_address_of(seed_view(seeds@), program@),
{
    let r = find_program_address(seeds, program);
    proof {
        if r is None {
            assert(program_address_of(seed_view(seeds@), program@) is None);
        }
    }
    r
}

fn matches_derivation(seeds: &Vec<Vec<u8>>, program: &Address, supplied: &Address) -> (r: bool)
    ensures
        r == is_derived(seed_view(seeds@), program@, supplied@),
{
    match derive(seeds, program) {
        Some(p) => p.0.same_as(supplied),
        None => false,
    }
}

fn label_bytes(label: &str) -> (r: Vec<u8>)
    requires
        vstd::string::is_ascii(label),
    ensures
        r@ == ascii_bytes(label@),
{
    broadcast use vstd::string::is_ascii_spec_bytes;

    let mut v: Vec<u8> = Vec::new();
    append_bytes(&mut v, label.as_bytes());
    assert(v@ =~= ascii_bytes(label@));
    v
}

fn authority_seed_list(pool: &Address) -> (r: Vec<Vec<u8>>)
    ensures
        seed_view(r@) == authority_seeds(pool@),
{
    proof {
        reveal_strlit("prove_token_vault");
    }
    let label = label_bytes("prove_token_vault");
    let mut r: Vec<Vec<u8>> = Vec::new();
    r.push(pool.to_vec());
    r.push(label);
    assert(seed_view(r@) =~= authority_seeds(pool@));
    r
}

fn nft_vault_seed_list(mint: &Address, pool: &Address) -> (r: Vec<Vec<u8>>)
    ensures
        seed_view(r@) == nft_vault_seeds(mint@, pool@),
{
    proof {
        reveal_strlit("nft_vault");
    }
    let label = label_bytes("nft_vault");
    let mut r: Vec<Vec<u8>> = Vec::new();
    r.push(mint.to_vec());
    r.push(pool.to_vec());
    r.push(label);
    assert(seed_view(r@) =~= nft_vault_seeds(mint@, pool@));
    r
}

fn pool_seed_list(rarity_info: &Address) -> (r: Vec<Vec<u8>>)
    ensures
        seed_view(r@) == pool_seeds(rarity_info@),
{
    proof {
        reveal_strlit("pool_info");
    }
    let label = label_bytes("pool_info");
    let mut r: Vec<Vec<u8>> = Vec::new();
    r.push(rarity_info.to_vec());
    r.push(label);
    assert(seed_view(r@) =~= pool_seeds(rarity_info@));
    r
}

/// The custodial authority of a pool, with its bump.
pub fn prove_token_authority_address(pool: &Address, program: &Address) -> (r: Option<(Address, u8)>)
    ensures
        derivation_view(r) == program_address_of(authority_seeds(pool@), program@),
{
    derive(&authority_seed_list(pool), program)
}

/// The vault record address of an asset in a pool, with its bump.
pub fn nft_vault_address(mint: &Address, pool: &Address, program: &Address) -> (r: Option<(Address, u8)>)
    ensures
        derivation_view(r) == program_address_of(nft_vault_seeds(mint@, pool@), program@),
{
    derive(&nft_vault_seed_list(mint, pool), program)
}

/// Whether `supplied` is the custodial authority of the pool.
pub fn is_prove_token_authority(pool: &Address, program: &Address, supplied: &Address) -> (r: bool)
    ensures
        r == is_derived(authority_seeds(pool@), program@, supplied@),
{
    matches_derivation(&authority_seed_list(pool), program, supplied)
}

/// Whether `supplied` is the vault record address of the asset in the pool.
pub fn is_nft_vault_address(mint: &Address, pool: &Address, program: &Address, supplied: &Address) -> (r: bool)
    ensures
        r == is_derived(nft_vault_seeds(mint@, pool@), program@, supplied@),
{
    matches_derivation(&nft_vault_seed_list(mint, pool), program, supplied)
}

/// Whether `supplied` is the pool record of the allow-list.
pub fn is_pool_address(rarity_info: &Address, program: &Address, supplied: &Address) -> (r: bool)
    ensures
        r == is_derived(pool_seeds(rarity_info@), program@, supplied@),
{
    matches_derivation(&pool_seed_list(rarity_info), program, supplied)
}

/// Whether `supplied` is the associated holding account of `wallet` for `mint`.
pub fn is_associated_token_address(wallet: &Address, mint: &Address, supplied: &Address) -> (r: bool)
    ensures
        r == (associated_token_address_of(wallet@, mint@) == supplied@),
{
    associated_token_address(wallet, mint).same_as(supplied)
}

/// The address of the allow-list record that `admin` created under
/// `program` for these labels and nonce; `None` where `program` is an
/// owner that seed derivation refuses.
pub fn allow_list_address(admin: &Address, collection: &String, rarity: &String, nonce: u64, program: &Address) -> (r: Option<Address>)
    ensures
        match r {
            Some(a) => allow_list_address_of(admin@, collection@, rarity@, nonce, program@) == Some(a@),
            None => allow_list_address_of(admin@, collection@, rarity@, nonce, program@) is None,
        },
{
    broadcast use vstd::string::is_ascii_spec_bytes;

    let label = "rarity_info".to_owned();
    proof {
        reveal_strlit("rarity_info");
    }
    let seed = lookup_seed(collection, rarity, nonce, &label);
    let seed_str = seed.as_str();
    assert(vstd::string::is_ascii(seed_str));
    assert(seed_str.spec_bytes() =~= ascii_bytes(seed@));
    match create_with_seed(admin, seed_str, program) {
        Ok(a) => Some(a),
        Err(_) => None,
    }
}

} // verus!
