//! Admission of a member asset into an existing group.
//!
//! The group's size is incremented with an overflow check, the member's
//! address is derived from the group's address and the new ordinal, and the
//! prior group record is consumed by the same batch that writes the updated
//! group, so that conflicting concurrent admissions are detected by the
//! external commit layer.

use vstd::prelude::*;

use crate::address::Address;
use crate::address::DerivationSeed;
use crate::address::Pubkey;
use crate::address::ASSET_TAG;
use crate::address::GROUP_TAG;
use crate::address::derive_address;
use crate::address::is_authority_address;
use crate::address::is_member_address;
use crate::address::is_seeded_address;
use crate::batch::CommitRequest;
use crate::batch::InclusionProof;
use crate::batch::append_creation_records;
use crate::batch::assemble_batch;
use crate::batch::batch_coherent;
use crate::batch::build_commit_request;
use crate::batch::creation_outputs;
use crate::batch::lemma_creation_batch_coherent;
use crate::error::AssetError;
use crate::records::CreateAssetArgs;
use crate::records::Group;
use crate::records::GroupMembership;
use crate::records::Record;
use crate::records::args_wf;

verus! {

/// The validated inputs of a member admission: the fee-paying signer, the
/// authority the group is derived under, the invoking program whose derived
/// authority signs the batch, and the prior committed state of the group.
pub struct CreateMemberAsset {
    pub signer: Pubkey,
    pub authority: Pubkey,
    pub invoking_program: Pubkey,
    pub group: Group,
}

/// The supplied group record is the one derivable from the authority and the
/// group seed.
pub open spec fn group_matches(ctx: CreateMemberAsset, group_seed: u64) -> bool {
    is_seeded_address(ctx.group.address, GROUP_TAG, ctx.authority, group_seed)
}

/// The membership back-reference an admission into `ctx`'s group produces.
pub open spec fn admitted_membership(ctx: CreateMemberAsset) -> GroupMembership {
    GroupMembership {
        group_key: ctx.group.address,
        member_number: (ctx.group.size + 1) as u64,
    }
}

/// Builds the atomic batch-update request that admits one member asset into
/// the supplied group.
///
/// The request consumes the prior group record and writes, in order, the group
/// with its size raised by one, the optional metadata and royalty records, and
/// the asset record last; the asset carries a membership back-reference whose
/// ordinal is the new size. A group whose address is not derivable from the
/// authority and `group_seed` is refused, and a group already at the largest
/// representable size fails with the member-overflow error; either failure
/// yields no batch.
pub fn handler(
    ctx: CreateMemberAsset,
    group_seed: u64,
    args: CreateAssetArgs,
    inclusion_proof: InclusionProof,
) -> (r: Result<CommitRequest, AssetError>)
    requires
        args_wf(args),
    ensures
        r is Err <==> (!group_matches(ctx, group_seed) || ctx.group.size == u64::MAX),
        !group_matches(ctx, group_seed) ==> r == Err::<CommitRequest, AssetError>(
            AssetError::GroupNotFound,
        ),
        group_matches(ctx, group_seed) && ctx.group.size == u64::MAX ==> r == Err::<
            CommitRequest,
            AssetError,
        >(AssetError::MemberAssetOverflow),
        r matches Ok(req) ==> is_authority_address(req.signing_authority, ctx.invoking_program),
        r matches Ok(req) ==> req.batch.inclusion_proof == Some(inclusion_proof),
        r matches Ok(req) ==> req.batch.value_transfer is None,
        r matches Ok(req) ==> req.batch.input_records@ == seq![Record::Group(ctx.group)],
        r matches Ok(req) ==> req.batch.output_records@.len() >= 1,
        r matches Ok(req) ==> (req.batch.output_records@[0] matches Record::Group(g) && g.address
            == ctx.group.address && g.size == ctx.group.size + 1),
        r matches Ok(req) ==> req.batch.new_address_requests@.len() >= 1,
        r matches Ok(req) ==> is_member_address(
            req.batch.new_address_requests@[0],
            ctx.group.address,
            (ctx.group.size + 1) as u64,
        ),
        r matches Ok(req) ==> creation_outputs(
            req.batch.output_records@,
            req.batch.new_address_requests@,
            1,
            req.batch.new_address_requests@[0],
            Some(admitted_membership(ctx)),
            args,
        ),
        r matches Ok(req) ==> batch_coherent(req.batch),
{
    let expected = derive_address(
        GROUP_TAG,
        DerivationSeed::AuthorityNumber { authority: ctx.authority, number: group_seed },
    );
    if !ctx.group.address.addr_eq(&expected) {
        return Err(AssetError::GroupNotFound);
    }
    if ctx.group.size == u64::MAX {
        return Err(AssetError::MemberAssetOverflow);
    }
    let new_size = ctx.group.size + 1;
    let asset_address = derive_address(
        ASSET_TAG,
        DerivationSeed::GroupMember {
            group: Box::new(ctx.group.address.dup()),
            member_number: new_size,
        },
    );
    let membership = GroupMembership { group_key: ctx.group.address.dup(), member_number: new_size };
    let mut requests: Vec<Address> = Vec::new();
    requests.push(asset_address.dup());
    let mut outputs: Vec<Record> = Vec::new();
    outputs.push(Record::Group(Group { address: ctx.group.address.dup(), size: new_size }));
    let mut input_records: Vec<Record> = Vec::new();
    input_records.push(Record::Group(ctx.group.dup()));
    append_creation_records(&asset_address, Some(membership), args, &mut requests, &mut outputs);
    proof {
        assert(outputs@.subrange(0, 1)[0] == outputs@[0]);
        lemma_creation_batch_coherent(
            outputs@,
            requests@,
            input_records@,
            asset_address,
            Some(admitted_membership(ctx)),
            args,
        );
    }
    let batch = assemble_batch(inclusion_proof, requests, input_records, outputs);
    Ok(build_commit_request(batch, &ctx.invoking_program))
}

} // verus!
