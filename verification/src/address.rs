//! Deterministic address derivation with domain separation.
//!
//! Every record gets a 32-byte-style address derived from a domain tag and the
//! seed values of its kind. An address is modelled by its derivation inputs,
//! so two addresses are equal exactly when they were derived from the same tag
//! and the same seeds: derivation is deterministic and injective by
//! construction.

use vstd::prelude::*;

verus! {

/// A 32-byte public key, held as four 64-bit words.
#[derive(Clone, Copy, PartialEq, Eq, Structural, Debug)]
pub struct Pubkey {
    pub w0: u64,
    pub w1: u64,
    pub w2: u64,
    pub w3: u64,
}

/// Domain tag for an asset record's address.
pub const ASSET_TAG: u8 = 1;
/// Domain tag for a group record's address.
pub const GROUP_TAG: u8 = 2;
/// Domain tag for a metadata record's address.
pub const ASSET_DATA_TAG: u8 = 3;
/// Domain tag for a royalty record's address.
pub const ASSET_ROYALTY_TAG: u8 = 4;
/// Domain tag for the derived authority that signs outgoing batches.
pub const CPI_AUTHORITY_TAG: u8 = 5;

/// The seed values an address is derived from, one variant per derivation rule.
#[derive(PartialEq, Eq, Debug)]
pub enum DerivationSeed {
    /// An authority key together with a caller-supplied number: standalone
    /// assets and groups.
    AuthorityNumber { authority: Pubkey, number: u64 },
    /// A group's address together with a member ordinal: member assets.
    GroupMember { group: Box<Address>, member_number: u64 },
    /// The address of the owning asset: metadata and royalty records.
    OwnedRecord { asset: Box<Address> },
    /// The identity of the invoking caller: the derived signing authority.
    Caller { caller: Pubkey },
}

/// A derived record address: a domain tag applied to seed values.
#[derive(PartialEq, Eq, Debug)]
pub struct Address {
    pub tag: u8,
    pub seed: DerivationSeed,
}

/// Derives the address for `seed` under the domain tag `tag`.
///
/// The result is a pure function of its inputs: the same tag and seeds always
/// give the same address, and distinct inputs give distinct addresses (see
/// `lemma_derive_injective`).
pub fn derive_address(tag: u8, seed: DerivationSeed) -> (a: Address)
    ensures
        a == (Address { tag, seed }),
{
    Address { tag, seed }
}

/// Derives the signing authority for batches sent on behalf of `caller`.
pub fn derive_authority(caller: &Pubkey) -> (a: Address)
    ensures
        is_authority_address(a, *caller),
{
    derive_address(CPI_AUTHORITY_TAG, DerivationSeed::Caller { caller: *caller })
}

/// Holds when `a` was derived under `tag` from an authority key and a number.
pub open spec fn is_seeded_address(a: Address, tag: u8, authority: Pubkey, number: u64) -> bool {
    &&& a.tag == tag
    &&& a.seed matches DerivationSeed::AuthorityNumber { authority: k, number: n }
    &&& k == authority
    &&& n == number
}

/// Holds when `a` is the address of the member asset with ordinal
/// `member_number` in the group at `group`.
pub open spec fn is_member_address(a: Address, group: Address, member_number: u64) -> bool {
    &&& a.tag == ASSET_TAG
    &&& a.seed matches DerivationSeed::GroupMember { group: g, member_number: m }
    &&& *g == group
    &&& m == member_number
}

/// Holds when `a` was derived under `tag` from the owning asset's address.
pub open spec fn is_owned_address(a: Address, tag: u8, owner: Address) -> bool {
    &&& a.tag == tag
    &&& a.seed matches DerivationSeed::OwnedRecord { asset: o }
    &&& *o == owner
}

/// Holds when `a` is the derived signing authority for `caller`.
pub open spec fn is_authority_address(a: Address, caller: Pubkey) -> bool {
    &&& a.tag == CPI_AUTHORITY_TAG
    &&& a.seed matches DerivationSeed::Caller { caller: c }
    &&& c == caller
}

/// Address derivation is injective: two derived addresses are equal exactly
/// when their domain tags and their seed values are equal. In particular,
/// distinct domain tags never collide, whatever the seeds.
pub proof fn lemma_derive_injective(t1: u8, s1: DerivationSeed, t2: u8, s2: DerivationSeed)
    ensures
        ((Address { tag: t1, seed: s1 }) == (Address { tag: t2, seed: s2 })) <==> (t1 == t2
            && s1 == s2),
{
}

/// Member ordinals are never reused: two member-asset addresses of the same
/// group with distinct ordinals are distinct addresses.
pub proof fn lemma_member_addresses_distinct(
    a1: Address,
    a2: Address,
    group: Address,
    n1: u64,
    n2: u64,
)
    requires
        is_member_address(a1, group, n1),
        is_member_address(a2, group, n2),
        n1 != n2,
    ensures
        a1 != a2,
{
}

impl DerivationSeed {
    /// Copies the seed values into a fresh, equal value.
    pub fn dup(&self) -> (r: DerivationSeed)
        ensures
            r == *self,
        decreases *self,
    {
        match self {
            DerivationSeed::AuthorityNumber { authority, number } => {
                DerivationSeed::AuthorityNumber { authority: *authority, number: *number }
            },
            DerivationSeed::GroupMember { group, member_number } => {
                DerivationSeed::GroupMember {
                    group: Box::new(group.dup()),
                    member_number: *member_number,
                }
            },
            DerivationSeed::OwnedRecord { asset } => {
                DerivationSeed::OwnedRecord { asset: Box::new(asset.dup()) }
            },
            DerivationSeed::Caller { caller } => DerivationSeed::Caller { caller: *caller },
        }
    }

    /// Decides equality of two seed values.
    pub fn seed_eq(&self, other: &DerivationSeed) -> (r: bool)
        ensures
            r == (*self == *other),
        decreases *self,
    {
        match (self, other) {
            (
                DerivationSeed::AuthorityNumber { authority: k1, number: n1 },
                DerivationSeed::AuthorityNumber { authority: k2, number: n2 },
            ) => k1 == k2 && n1 == n2,
            (
                DerivationSeed::GroupMember { group: g1, member_number: m1 },
                DerivationSeed::GroupMember { group: g2, member_number: m2 },
            ) => g1.addr_eq(g2) && m1 == m2,
            (
                DerivationSeed::OwnedRecord { asset: a1 },
                DerivationSeed::OwnedRecord { asset: a2 },
            ) => a1.addr_eq(a2),
            (DerivationSeed::Caller { caller: c1 }, DerivationSeed::Caller { caller: c2 }) => c1
                == c2,
            _ => false,
        }
    }
}

impl Address {
    /// Copies the address into a fresh, equal value.
    pub fn dup(&self) -> (r: Address)
        ensures
            r == *self,
        decreases *self,
    {
        Address { tag: self.tag, seed: self.seed.dup() }
    }

    /// Decides equality of two addresses.
    pub fn addr_eq(&self, other: &Address) -> (r: bool)
        ensures
            r == (*self == *other),
        decreases *self,
    {
        self.tag == other.tag && self.seed.seed_eq(&other.seed)
    }
}

} // verus!
