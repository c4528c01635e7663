use vstd::prelude::*;
use vstd::slice::slice_to_vec;
use vstd::utf8::encode_utf8;

use crate::address::Address;
use crate::state::Marketplace;

verus! {

/// The bytes of the word `marketplace`, the first seed of a marketplace's address.
pub open spec fn marketplace_tag() -> Seq<u8> {
    seq![109u8, 97u8, 114u8, 107u8, 101u8, 116u8, 112u8, 108u8, 97u8, 99u8, 101u8]
}

/// The bytes of the word `listing`, the first seed of a listing's address.
pub open spec fn listing_tag() -> Seq<u8> {
    seq![108u8, 105u8, 115u8, 116u8, 105u8, 110u8, 103u8]
}

/// The seeds with which a marketplace named `name` signs: the tag, the name's
/// UTF-8 bytes and the bump.
pub open spec fn marketplace_signer(name: Seq<char>, bump: u8) -> Seq<Seq<u8>> {
    seq![marketplace_tag(), encode_utf8(name), seq![bump]]
}

/// The seeds with which the listing of `mint` on `marketplace` signs: the tag,
/// the marketplace's address, the mint's address and the bump.
pub open spec fn listing_signer(marketplace: Address, mint: Address, bump: u8) -> Seq<Seq<u8>> {
    seq![listing_tag(), marketplace@, mint@, seq![bump]]
}

fn bytes_to_vec(bytes: &[u8]) -> (v: Vec<u8>)
    ensures
        v@ == bytes@,
        v.deep_view() == bytes@,
{
    let v = slice_to_vec(bytes);
    assert(v.deep_view() =~= v@);
    v
}

/// The seeds of `marketplace_signer` for the given marketplace.
pub fn marketplace_signer_seeds(marketplace: &Marketplace) -> (seeds: Vec<Vec<u8>>)
    ensures
        seeds.deep_view() == marketplace_signer(marketplace.name@, marketplace.bump),
{
    let tag: Vec<u8> = vec![109u8, 97u8, 114u8, 107u8, 101u8, 116u8, 112u8, 108u8, 97u8, 99u8, 101u8];
    assert(tag.deep_view() =~= marketplace_tag());
    let name = bytes_to_vec(marketplace.name.as_str().as_bytes());
    let bump: Vec<u8> = vec![marketplace.bump];
    assert(bump.deep_view() =~= seq![marketplace.bump]);
    let seeds: Vec<Vec<u8>> = vec![tag, name, bump];
    assert(seeds.deep_view() =~= marketplace_signer(marketplace.name@, marketplace.bump));
    seeds
}

/// The seeds of `listing_signer` for the given marketplace, mint and bump.
pub fn listing_signer_seeds(marketplace: &Address, mint: &Address, bump: u8) -> (seeds: Vec<Vec<u8>>)
    ensures
        seeds.deep_view() == listing_signer(*marketplace, *mint, bump),
{
    let tag: Vec<u8> = vec![108u8, 105u8, 115u8, 116u8, 105u8, 110u8, 103u8];
    assert(tag.deep_view() =~= listing_tag());
    let market = bytes_to_vec(marketplace.as_slice());
    let mint_bytes = bytes_to_vec(mint.as_slice());
    let bump_bytes: Vec<u8> = vec![bump];
    assert(bump_bytes.deep_view() =~= seq![bump]);
    let seeds: Vec<Vec<u8>> = vec![tag, market, mint_bytes, bump_bytes];
    assert(seeds.deep_view() =~= listing_signer(*marketplace, *mint, bump));
    seeds
}

} // verus!
