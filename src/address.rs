//! Identities and derived storage locations.

use anchor_lang::prelude::Pubkey;
use vstd::prelude::*;

verus! {

/// A 32-byte identity: an owner, a token mint, a program, or a derived location.
#[derive(Clone, Copy, Debug)]
pub struct Address {
    pub bytes: [u8; 32],
}

impl View for Address {
    type V = Seq<u8>;

    open spec fn view(&self) -> Seq<u8> {
        self.bytes@
    }
}

impl Address {
    pub fn new(bytes: [u8; 32]) -> (r: Address)
        ensures
            r@ == bytes@,
    {
        Address { bytes }
    }

    /// Byte-wise comparison of two identities.
    pub fn equals(&self, other: &Address) -> (r: bool)
        ensures
            r == (self@ == other@),
    {
        let mut i: usize = 0;
        while i < 32
            invariant
                i <= 32,
                self@.len() == 32,
                other@.len() == 32,
                forall|j: int| 0 <= j < i ==> self@[j] == other@[j],
            decreases 32 - i,
        {
            if self.bytes[i] != other.bytes[i] {
                return false;
            }
            i = i + 1;
        }
        assert(self@ =~= other@);
        true
    }

    /// The identity's bytes, in order.
    pub fn to_vec(&self) -> (r: Vec<u8>)
        ensures
            r@ == self@,
    {
        let mut v: Vec<u8> = Vec::new();
        let mut i: usize = 0;
        while i < 32
            invariant
                i <= 32,
                self@.len() == 32,
                v@ == self@.subrange(0, i as int),
            decreases 32 - i,
        {
            v.push(self.bytes[i]);
            i = i + 1;
            assert(v@ =~= self@.subrange(0, i as int));
        }
        assert(self@.subrange(0, 32) =~= self@);
        v
    }
}

/// The seed that tags vault locations: the bytes of "vault".
pub open spec fn vault_tag() -> Seq<u8> {
    seq![118u8, 97u8, 117u8, 108u8, 116u8]
}

/// The seed that tags order locations: the bytes of "order".
pub open spec fn order_tag() -> Seq<u8> {
    seq![111u8, 114u8, 100u8, 101u8, 114u8]
}

/// The eight little-endian bytes of `x`.
pub open spec fn le_bytes(x: u64) -> Seq<u8> {
    seq![
        (x % 0x100) as u8,
        ((x / 0x100) % 0x100) as u8,
        ((x / 0x1_0000) % 0x100) as u8,
        ((x / 0x100_0000) % 0x100) as u8,
        ((x / 0x1_0000_0000) % 0x100) as u8,
        ((x / 0x100_0000_0000) % 0x100) as u8,
        ((x / 0x1_0000_0000_0000) % 0x100) as u8,
        ((x / 0x100_0000_0000_0000) % 0x100) as u8,
    ]
}

/// Seeds of the vault location of `owner`.
pub open spec fn vault_seeds(owner: Seq<u8>) -> Seq<Seq<u8>> {
    seq![vault_tag(), owner]
}

/// Seeds of the location of order `order_id` of the vault at `vault`.
pub open spec fn order_seeds(vault: Seq<u8>, order_id: u64) -> Seq<Seq<u8>> {
    seq![order_tag(), vault, le_bytes(order_id)]
}

/// The canonical program-derived location and bump seed for `seeds` under
/// `program`, or none where no bump seed yields a location.
pub uninterp spec fn program_address_of(seeds: Seq<Seq<u8>>, program: Seq<u8>) -> Option<(Seq<u8>, u8)>;

/// A derived location as plain values.
pub open spec fn location_view(loc: Option<(Address, u8)>) -> Option<(Seq<u8>, u8)> {
    match loc {
        Some(p) => Some((p.0@, p.1)),
        None => None,
    }
}

/// Where the vault of `owner` lives under `program`.
pub open spec fn vault_location(owner: Seq<u8>, program: Seq<u8>) -> Option<(Seq<u8>, u8)> {
    program_address_of(vault_seeds(owner), program)
}

/// Where order `order_id` of the vault at `vault` lives under `program`.
pub open spec fn order_location(vault: Seq<u8>, order_id: u64, program: Seq<u8>) -> Option<(Seq<u8>, u8)> {
    program_address_of(order_seeds(vault, order_id), program)
}

/// Relies on `Pubkey::try_find_program_address` of anchor-lang (solana-program):
/// the first bump seed from 255 down whose hashed location is off the curve,
/// with that location, or none; the search depends on the seeds and the
/// program alone, and too many or too long seeds give none.
#[verifier::external_body]
fn try_find_program_address(seeds: &Vec<Vec<u8>>, program: &Address) -> (r: Option<(Address, u8)>)
    ensures
        location_view(r) == program_address_of(seeds.deep_view(), program@),
{
    let slices: Vec<&[u8]> = seeds.iter().map(|s| s.as_slice()).collect();
    let program_key = Pubkey::new_from_array(program.bytes);
    match Pubkey::try_find_program_address(&slices, &program_key) {
        Some((key, bump)) => Some((Address { bytes: key.to_bytes() }, bump)),
        None => None,
    }
}

/// The eight little-endian bytes of `x`.
pub fn le_bytes_of(x: u64) -> (r: Vec<u8>)
    ensures
        r@ == le_bytes(x),
{
    let r: Vec<u8> = vec![
        (x % 0x100) as u8,
        ((x / 0x100) % 0x100) as u8,
        ((x / 0x1_0000) % 0x100) as u8,
        ((x / 0x100_0000) % 0x100) as u8,
        ((x / 0x1_0000_0000) % 0x100) as u8,
        ((x / 0x100_0000_0000) % 0x100) as u8,
        ((x / 0x1_0000_0000_0000) % 0x100) as u8,
        ((x / 0x100_0000_0000_0000) % 0x100) as u8,
    ];
    assert(r@ =~= le_bytes(x));
    r
}

/// Derives the vault location of `owner` under `program`.
pub fn find_vault_location(owner: &Address, program: &Address) -> (r: Option<(Address, u8)>)
    ensures
        location_view(r) == vault_location(owner@, program@),
{
    let mut seeds: Vec<Vec<u8>> = Vec::new();
    seeds.push(vec![118u8, 97u8, 117u8, 108u8, 116u8]);
    seeds.push(owner.to_vec());
    assert(seeds.deep_view()[0] =~= vault_tag());
    assert(seeds.deep_view()[1] =~= owner@);
    assert(seeds.deep_view() =~= vault_seeds(owner@));
    try_find_program_address(&seeds, program)
}

/// Derives the location of order `order_id` of the vault at `vault` under `program`.
pub fn find_order_location(vault: &Address, order_id: u64, program: &Address) -> (r: Option<(Address, u8)>)
    ensures
        location_view(r) == order_location(vault@, order_id, program@),
{
    let mut seeds: Vec<Vec<u8>> = Vec::new();
    seeds.push(vec![111u8, 114u8, 100u8, 101u8, 114u8]);
    seeds.push(vault.to_vec());
    seeds.push(le_bytes_of(order_id));
    assert(seeds.deep_view()[0] =~= order_tag());
    assert(seeds.deep_view()[1] =~= vault@);
    assert(seeds.deep_view()[2] =~= le_bytes(order_id));
    assert(seeds.deep_view() =~= order_seeds(vault@, order_id));
    try_find_program_address(&seeds, program)
}

/// Whether `loc` is the location `address` with the bump seed `bump`.
pub open spec fn located_at(loc: Option<(Seq<u8>, u8)>, address: Seq<u8>, bump: u8) -> bool {
    match loc {
        Some(p) => p.0 == address && p.1 == bump,
        None => false,
    }
}

/// Tests that a derived location is `address` with the bump seed `bump`.
pub fn is_located_at(loc: &Option<(Address, u8)>, address: &Address, bump: u8) -> (r: bool)
    ensures
        r == located_at(location_view(*loc), address@, bump),
{
    match loc {
        Some(p) => p.1 == bump && p.0.equals(address),
        None => false,
    }
}

} // verus!
