//! The record kinds and their builders.
//!
//! An operation produces an asset record, an updated group record when a
//! member is admitted, and optional metadata and royalty records linked to the
//! asset by its derived address.

use vstd::prelude::*;

use crate::address::Address;
use crate::address::DerivationSeed;
use crate::address::Pubkey;
use crate::address::ASSET_DATA_TAG;
use crate::address::ASSET_ROYALTY_TAG;
use crate::address::derive_address;
use crate::address::is_owned_address;

verus! {

/// The largest value `basis_points` may take: the whole fee, in hundredths of
/// a percent.
pub const MAX_BASIS_POINTS: u16 = 10000;

/// Who controls an asset.
#[derive(Clone, Copy, PartialEq, Eq, Structural, Debug)]
pub enum AuthorityState {
    /// A single owner.
    Owner,
    /// A multisig authority; never produced by creation.
    Multisig,
}

/// Whether an asset is locked against mutation.
#[derive(Clone, Copy, PartialEq, Eq, Structural, Debug)]
pub enum LockState {
    Unlocked,
    Locked,
}

/// The back-reference an asset carries when it was created as a group member.
#[derive(PartialEq, Eq, Debug)]
pub struct GroupMembership {
    /// The group's stable address.
    pub group_key: Address,
    /// The ordinal this member was admitted under: the group's size after the
    /// admission.
    pub member_number: u64,
}

/// A key-value pair of metadata.
#[derive(PartialEq, Eq, Debug)]
pub struct Attribute {
    pub key: String,
    pub value: String,
}

/// A royalty payee and its share.
#[derive(Clone, Copy, PartialEq, Eq, Structural, Debug)]
pub struct Creator {
    pub address: Pubkey,
    pub share: u8,
}

/// A reference to an external royalty-enforcement policy.
#[derive(Clone, Copy, PartialEq, Eq, Structural, Debug)]
pub struct Ruleset {
    pub policy: Pubkey,
}

/// An asset record.
#[derive(PartialEq, Eq, Debug)]
pub struct Asset {
    /// Derived address; immutable once assigned.
    pub address: Address,
    pub authority_state: AuthorityState,
    pub lock_state: LockState,
    /// Present exactly when the asset was created as a group member.
    pub group_membership: Option<GroupMembership>,
    pub rentable: bool,
    pub transferable: bool,
    /// Mirrors the presence of a linked metadata record.
    pub has_metadata: bool,
    /// Mirrors the presence of a linked royalty record.
    pub has_royalties: bool,
}

/// A group record.
#[derive(PartialEq, Eq, Debug)]
pub struct Group {
    /// Stable address; unchanged by admissions.
    pub address: Address,
    /// How many members were ever admitted.
    pub size: u64,
}

/// The metadata record optionally linked to an asset.
#[derive(PartialEq, Eq, Debug)]
pub struct AssetData {
    /// Derived from the owning asset's address under the metadata tag.
    pub address: Address,
    /// Back-reference to the owning asset.
    pub asset_key: Address,
    pub name: String,
    pub uri: String,
    pub attributes: Vec<Attribute>,
    /// Whether future edits are allowed.
    pub mutable: bool,
    /// Starts empty at creation.
    pub privilege_attributes: Vec<Attribute>,
}

/// The royalty record optionally linked to an asset.
#[derive(PartialEq, Eq, Debug)]
pub struct AssetRoyalties {
    /// Derived from the owning asset's address under the royalty tag.
    pub address: Address,
    /// Back-reference to the owning asset.
    pub asset_key: Address,
    /// Fee fraction, at most `MAX_BASIS_POINTS`.
    pub basis_points: u16,
    pub creators: Vec<Creator>,
    pub ruleset: Ruleset,
}

/// Any record a batch can carry.
#[derive(PartialEq, Eq, Debug)]
pub enum Record {
    Asset(Asset),
    Group(Group),
    Metadata(AssetData),
    Royalties(AssetRoyalties),
}

/// The address a record lives at.
pub open spec fn record_address(r: Record) -> Address {
    match r {
        Record::Asset(a) => a.address,
        Record::Group(g) => g.address,
        Record::Metadata(d) => d.address,
        Record::Royalties(y) => y.address,
    }
}

/// The metadata supplied with a creation call.
#[derive(PartialEq, Eq, Debug)]
pub struct MetadataArgs {
    pub name: String,
    pub uri: String,
    pub attributes: Vec<Attribute>,
    pub mutable: bool,
}

/// The royalty terms supplied with a creation call.
#[derive(PartialEq, Eq, Debug)]
pub struct RoyaltyArgs {
    pub basis_points: u16,
    pub creators: Vec<Creator>,
    pub ruleset: Ruleset,
}

/// The arguments of both creation operations.
#[derive(PartialEq, Eq, Debug)]
pub struct CreateAssetArgs {
    pub rentable: bool,
    pub transferable: bool,
    pub metadata: Option<MetadataArgs>,
    pub royalty: Option<RoyaltyArgs>,
}

/// The supplied royalty terms stay within the representable fee range.
pub open spec fn args_wf(args: CreateAssetArgs) -> bool {
    args.royalty matches Some(r) ==> r.basis_points <= MAX_BASIS_POINTS
}

/// The asset record `a` is exactly the one a creation call with `args`
/// produces at `address` with the given membership.
pub open spec fn asset_fields(
    a: Asset,
    address: Address,
    membership: Option<GroupMembership>,
    args: CreateAssetArgs,
) -> bool {
    &&& a.address == address
    &&& a.authority_state is Owner
    &&& a.lock_state is Unlocked
    &&& a.group_membership == membership
    &&& a.rentable == args.rentable
    &&& a.transferable == args.transferable
    &&& a.has_metadata == (args.metadata is Some)
    &&& a.has_royalties == (args.royalty is Some)
}

/// The metadata record `d` is exactly the one built from `m` for the asset at
/// `asset_address`.
pub open spec fn metadata_fields(d: AssetData, asset_address: Address, m: MetadataArgs) -> bool {
    &&& is_owned_address(d.address, ASSET_DATA_TAG, asset_address)
    &&& d.asset_key == asset_address
    &&& d.name == m.name
    &&& d.uri == m.uri
    &&& d.attributes == m.attributes
    &&& d.mutable == m.mutable
    &&& d.privilege_attributes@.len() == 0
}

/// The royalty record `y` is exactly the one built from `ro` for the asset at
/// `asset_address`.
pub open spec fn royalty_fields(y: AssetRoyalties, asset_address: Address, ro: RoyaltyArgs) -> bool {
    &&& is_owned_address(y.address, ASSET_ROYALTY_TAG, asset_address)
    &&& y.asset_key == asset_address
    &&& y.basis_points == ro.basis_points
    &&& y.creators == ro.creators
    &&& y.ruleset == ro.ruleset
}

/// Builds the metadata record for the asset at `asset_address`, at an address
/// derived from the asset's own address under the metadata tag.
pub fn build_metadata(asset_address: &Address, m: MetadataArgs) -> (d: AssetData)
    ensures
        metadata_fields(d, *asset_address, m),
{
    let address = derive_address(
        ASSET_DATA_TAG,
        DerivationSeed::OwnedRecord { asset: Box::new(asset_address.dup()) },
    );
    AssetData {
        address,
        asset_key: asset_address.dup(),
        name: m.name,
        uri: m.uri,
        attributes: m.attributes,
        mutable: m.mutable,
        privilege_attributes: Vec::new(),
    }
}

/// Builds the royalty record for the asset at `asset_address`, at an address
/// derived from the asset's own address under the royalty tag.
pub fn build_royalties(asset_address: &Address, ro: RoyaltyArgs) -> (y: AssetRoyalties)
    ensures
        royalty_fields(y, *asset_address, ro),
{
    let address = derive_address(
        ASSET_ROYALTY_TAG,
        DerivationSeed::OwnedRecord { asset: Box::new(asset_address.dup()) },
    );
    AssetRoyalties {
        address,
        asset_key: asset_address.dup(),
        basis_points: ro.basis_points,
        creators: ro.creators,
        ruleset: ro.ruleset,
    }
}

impl Group {
    /// Copies the group record into a fresh, equal value.
    pub fn dup(&self) -> (r: Group)
        ensures
            r == *self,
    {
        Group { address: self.address.dup(), size: self.size }
    }
}

} // verus!
