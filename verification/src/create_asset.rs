//! Creation of a standalone asset.
//!
//! One pass of the pipeline: derive the asset's address from the authority and
//! a caller-supplied seed, build the asset and its optional sub-records,
//! assemble the batch, and wrap it with the derived signing authority. The
//! batch consumes no prior records.

use vstd::prelude::*;

use crate::address::Address;
use crate::address::DerivationSeed;
use crate::address::Pubkey;
use crate::address::ASSET_TAG;
use crate::address::derive_address;
use crate::address::is_authority_address;
use crate::address::is_seeded_address;
use crate::batch::CommitRequest;
use crate::batch::InclusionProof;
use crate::batch::append_creation_records;
use crate::batch::assemble_batch;
use crate::batch::batch_coherent;
use crate::batch::build_commit_request;
use crate::batch::creation_outputs;
use crate::batch::lemma_creation_batch_coherent;
use crate::records::CreateAssetArgs;
use crate::records::GroupMembership;
use crate::records::Record;
use crate::records::args_wf;

verus! {

/// The validated inputs of a standalone creation: the fee-paying signer, the
/// authority the asset is derived under, and the invoking program whose
/// derived authority signs the batch.
pub struct CreateAsset {
    pub signer: Pubkey,
    pub authority: Pubkey,
    pub invoking_program: Pubkey,
}

/// Builds the atomic batch-update request that creates one standalone asset.
///
/// The request consumes nothing and writes, in order, the metadata record if
/// metadata was supplied, the royalty record if royalty terms were supplied,
/// and the asset record last, with one new-address request per record: the
/// asset's first, then the sub-records' in the same order.
pub fn handler(
    ctx: CreateAsset,
    seed: u64,
    args: CreateAssetArgs,
    inclusion_proof: InclusionProof,
) -> (r: CommitRequest)
    requires
        args_wf(args),
    ensures
        is_authority_address(r.signing_authority, ctx.invoking_program),
        r.batch.inclusion_proof == Some(inclusion_proof),
        r.batch.value_transfer is None,
        r.batch.input_records@.len() == 0,
        r.batch.new_address_requests@.len() >= 1,
        is_seeded_address(r.batch.new_address_requests@[0], ASSET_TAG, ctx.authority, seed),
        creation_outputs(
            r.batch.output_records@,
            r.batch.new_address_requests@,
            0,
            r.batch.new_address_requests@[0],
            None::<GroupMembership>,
            args,
        ),
        batch_coherent(r.batch),
{
    let asset_address = derive_address(
        ASSET_TAG,
        DerivationSeed::AuthorityNumber { authority: ctx.authority, number: seed },
    );
    let mut requests: Vec<Address> = Vec::new();
    requests.push(asset_address.dup());
    let mut outputs: Vec<Record> = Vec::new();
    append_creation_records(&asset_address, None, args, &mut requests, &mut outputs);
    let input_records: Vec<Record> = Vec::new();
    proof {
        lemma_creation_batch_coherent(
            outputs@,
            requests@,
            input_records@,
            asset_address,
            None::<GroupMembership>,
            args,
        );
    }
    let batch = assemble_batch(inclusion_proof, requests, input_records, outputs);
    build_commit_request(batch, &ctx.invoking_program)
}

} // verus!
