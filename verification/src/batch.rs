//! Batch assembly and the commit request.
//!
//! One operation yields one batch: the new-address requests, the prior records
//! it consumes, and the records it writes, committed all-or-nothing by the
//! external verification and storage service. The batch is coherent: the
//! address-request list corresponds one-to-one with the brand-new output
//! records, while mutated records (the group) carry no request.

use vstd::prelude::*;

use crate::address::Address;
use crate::address::Pubkey;
use crate::address::ASSET_TAG;
use crate::address::derive_authority;
use crate::address::is_authority_address;
use crate::records::Asset;
use crate::records::AuthorityState;
use crate::records::CreateAssetArgs;
use crate::records::GroupMembership;
use crate::records::LockState;
use crate::records::Record;
use crate::records::asset_fields;
use crate::records::build_metadata;
use crate::records::build_royalties;
use crate::records::metadata_fields;
use crate::records::record_address;
use crate::records::royalty_fields;

verus! {

/// The opaque inclusion proof the caller supplies; validated by the external
/// service, carried through unread.
#[derive(PartialEq, Eq, Debug)]
pub struct InclusionProof {
    pub bytes: Vec<u8>,
}

/// One atomic batch-update request.
#[derive(PartialEq, Eq, Debug)]
pub struct Batch {
    /// Required for every operation; never inspected here.
    pub inclusion_proof: Option<InclusionProof>,
    /// One derived address per brand-new output record.
    pub new_address_requests: Vec<Address>,
    /// The prior committed form of every record this operation consumes.
    pub input_records: Vec<Record>,
    /// The records this operation writes, new and mutated.
    pub output_records: Vec<Record>,
    /// No value is moved by a creation operation.
    pub value_transfer: Option<u64>,
}

/// A batch together with the derived authority that signs it: everything the
/// external service needs.
#[derive(PartialEq, Eq, Debug)]
pub struct CommitRequest {
    pub batch: Batch,
    pub signing_authority: Address,
}

/// The addresses of the records a batch consumes.
pub open spec fn consumed_addresses(inputs: Seq<Record>) -> Set<Address> {
    Set::new(
        |a: Address| exists|i: int| 0 <= i < inputs.len() && record_address(inputs[i]) == a,
    )
}

/// The addresses of the brand-new output records, in output order: the
/// outputs whose address is not that of a consumed record.
pub open spec fn fresh_output_addresses(outputs: Seq<Record>, consumed: Set<Address>) -> Seq<
    Address,
>
    decreases outputs.len(),
{
    if outputs.len() == 0 {
        Seq::empty()
    } else {
        let rest = fresh_output_addresses(outputs.drop_last(), consumed);
        if consumed.contains(record_address(outputs.last())) {
            rest
        } else {
            rest.push(record_address(outputs.last()))
        }
    }
}

/// The address-request list corresponds one-to-one, with no duplicates, to the
/// brand-new output records. The documented order puts the asset's request
/// first but the asset record last, so the fresh-output addresses are the
/// request list rotated by one.
pub open spec fn batch_coherent(b: Batch) -> bool {
    let reqs = b.new_address_requests@;
    let fresh = fresh_output_addresses(b.output_records@, consumed_addresses(b.input_records@));
    &&& reqs.len() >= 1
    &&& reqs.no_duplicates()
    &&& fresh == reqs.subrange(1, reqs.len() as int) + seq![reqs[0]]
}

/// Packs one operation's lists into a batch, attaching no value transfer.
pub fn assemble_batch(
    inclusion_proof: InclusionProof,
    new_address_requests: Vec<Address>,
    input_records: Vec<Record>,
    output_records: Vec<Record>,
) -> (b: Batch)
    ensures
        b.inclusion_proof == Some(inclusion_proof),
        b.new_address_requests == new_address_requests,
        b.input_records == input_records,
        b.output_records == output_records,
        b.value_transfer is None,
{
    Batch {
        inclusion_proof: Some(inclusion_proof),
        new_address_requests,
        input_records,
        output_records,
        value_transfer: None,
    }
}

/// Wraps a batch with the authority derived from the invoking caller, ready to
/// be forwarded to the external service.
pub fn build_commit_request(batch: Batch, invoking_program: &Pubkey) -> (r: CommitRequest)
    ensures
        r.batch == batch,
        is_authority_address(r.signing_authority, *invoking_program),
{
    let signing_authority = derive_authority(invoking_program);
    CommitRequest { batch, signing_authority }
}

/// The outputs and requests of one creation, after `start` prefix records that
/// carry no request: the optional metadata record, the optional royalty
/// record, and the asset record last; the asset's request first, then one
/// request per sub-record, in the same order.
pub open spec fn creation_outputs(
    outs: Seq<Record>,
    reqs: Seq<Address>,
    start: int,
    asset_address: Address,
    membership: Option<GroupMembership>,
    args: CreateAssetArgs,
) -> bool {
    let n_md: int = if args.metadata is Some {
        1int
    } else {
        0int
    };
    let n_roy: int = if args.royalty is Some {
        1int
    } else {
        0int
    };
    &&& 0 <= start
    &&& outs.len() == start + n_md + n_roy + 1
    &&& reqs.len() == 1 + n_md + n_roy
    &&& reqs[0] == asset_address
    &&& (args.metadata matches Some(m) ==> (outs[start] matches Record::Metadata(d)
        && metadata_fields(d, asset_address, m) && reqs[1] == d.address))
    &&& (args.royalty matches Some(ro) ==> (outs[start + n_md] matches Record::Royalties(y)
        && royalty_fields(y, asset_address, ro) && reqs[n_md + 1] == y.address))
    &&& (outs.last() matches Record::Asset(a) && asset_fields(a, asset_address, membership, args))
}

/// A creation given neither metadata nor royalty terms yields exactly one
/// new-address request and one brand-new output record: the asset itself,
/// placed last, with both sub-record flags clear.
pub proof fn lemma_bare_creation_minimal(
    outs: Seq<Record>,
    reqs: Seq<Address>,
    start: int,
    asset_address: Address,
    membership: Option<GroupMembership>,
    args: CreateAssetArgs,
)
    requires
        creation_outputs(outs, reqs, start, asset_address, membership, args),
        args.metadata is None,
        args.royalty is None,
    ensures
        reqs.len() == 1,
        outs.len() == start + 1,
        outs.last() matches Record::Asset(a) && !a.has_metadata && !a.has_royalties && a.address
            == asset_address,
{
}

/// A creation given both metadata and royalty terms yields exactly three
/// new-address requests and three brand-new output records, in the order
/// metadata, royalty, asset; the asset carries both sub-record flags, each
/// sub-record's back-reference is the asset's derived address, and each
/// brand-new record's address stands in the request list.
pub proof fn lemma_full_creation_links(
    outs: Seq<Record>,
    reqs: Seq<Address>,
    start: int,
    asset_address: Address,
    membership: Option<GroupMembership>,
    args: CreateAssetArgs,
)
    requires
        creation_outputs(outs, reqs, start, asset_address, membership, args),
        args.metadata is Some,
        args.royalty is Some,
    ensures
        reqs.len() == 3,
        outs.len() == start + 3,
        reqs[0] == asset_address,
        outs[start] matches Record::Metadata(d) && d.asset_key == asset_address && d.address
            == reqs[1],
        outs[start + 1] matches Record::Royalties(y) && y.asset_key == asset_address && y.address
            == reqs[2],
        outs[start + 2] matches Record::Asset(a) && a.has_metadata && a.has_royalties && a.address
            == asset_address,
{
}

/// Appends one creation's records to a batch under assembly: the optional
/// metadata and royalty records, then the asset record last, with one address
/// request per sub-record after the asset's own request already in place.
pub fn append_creation_records(
    asset_address: &Address,
    group_membership: Option<GroupMembership>,
    args: CreateAssetArgs,
    requests: &mut Vec<Address>,
    outputs: &mut Vec<Record>,
)
    requires
        old(requests)@.len() == 1,
        old(requests)@[0] == *asset_address,
    ensures
        final(outputs)@.subrange(0, old(outputs)@.len() as int) == old(outputs)@,
        creation_outputs(
            final(outputs)@,
            final(requests)@,
            old(outputs)@.len() as int,
            *asset_address,
            group_membership,
            args,
        ),
{
    let mut asset = Asset {
        address: asset_address.dup(),
        authority_state: AuthorityState::Owner,
        lock_state: LockState::Unlocked,
        group_membership,
        rentable: args.rentable,
        transferable: args.transferable,
        has_metadata: false,
        has_royalties: false,
    };
    match args.metadata {
        Some(m) => {
            asset.has_metadata = true;
            let d = build_metadata(asset_address, m);
            requests.push(d.address.dup());
            outputs.push(Record::Metadata(d));
        },
        None => {},
    }
    match args.royalty {
        Some(ro) => {
            asset.has_royalties = true;
            let y = build_royalties(asset_address, ro);
            requests.push(y.address.dup());
            outputs.push(Record::Royalties(y));
        },
        None => {},
    }
    outputs.push(Record::Asset(asset));
    assert(outputs@.subrange(0, old(outputs)@.len() as int) =~= old(outputs)@);
}

/// The fresh-output addresses of a record list whose first `k` records are all
/// consumed and whose remaining records are all brand-new are exactly the
/// addresses of the remaining records, in order.
proof fn lemma_fresh_skip_consumed_prefix(outs: Seq<Record>, consumed: Set<Address>, k: int)
    requires
        0 <= k <= outs.len(),
        forall|i: int| 0 <= i < k ==> consumed.contains(#[trigger] record_address(outs[i])),
        forall|i: int|
            k <= i < outs.len() ==> !consumed.contains(#[trigger] record_address(outs[i])),
    ensures
        fresh_output_addresses(outs, consumed).len() == outs.len() - k,
        forall|i: int|
            0 <= i < outs.len() - k ==> #[trigger] fresh_output_addresses(outs, consumed)[i]
                == record_address(outs[k + i]),
    decreases outs.len(),
{
    if outs.len() == 0 {
    } else if outs.len() == k {
        assert(consumed.contains(record_address(outs[outs.len() - 1])));
        lemma_fresh_skip_consumed_prefix(outs.drop_last(), consumed, k - 1);
    } else {
        assert(!consumed.contains(record_address(outs[outs.len() - 1])));
        lemma_fresh_skip_consumed_prefix(outs.drop_last(), consumed, k);
    }
}

/// The batch laid out by `creation_outputs` over consumed inputs of group kind
/// is coherent: its requests are distinct, and they correspond one-to-one to
/// the brand-new outputs, rotated by one.
pub proof fn lemma_creation_batch_coherent(
    outs: Seq<Record>,
    reqs: Seq<Address>,
    inputs: Seq<Record>,
    asset_address: Address,
    membership: Option<GroupMembership>,
    args: CreateAssetArgs,
)
    requires
        inputs.len() <= 1,
        creation_outputs(outs, reqs, inputs.len() as int, asset_address, membership, args),
        asset_address.tag == ASSET_TAG,
        forall|i: int|
            0 <= i < inputs.len() ==> #[trigger] record_address(outs[i]) == record_address(
                inputs[i],
            ) && record_address(inputs[i]).tag == crate::address::GROUP_TAG,
    ensures
        reqs.no_duplicates(),
        fresh_output_addresses(outs, consumed_addresses(inputs)) == reqs.subrange(
            1,
            reqs.len() as int,
        ) + seq![reqs[0]],
{
    let consumed = consumed_addresses(inputs);
    let start = inputs.len() as int;
    assert forall|a: Address| consumed.contains(a) implies a.tag
        == crate::address::GROUP_TAG by {
        let i = choose|i: int| 0 <= i < inputs.len() && record_address(inputs[i]) == a;
        assert(record_address(outs[i]) == record_address(inputs[i]));
    }
    assert forall|i: int| 0 <= i < start implies consumed.contains(
        #[trigger] record_address(outs[i]),
    ) by {
        assert(record_address(inputs[i]) == record_address(outs[i]));
    }
    assert forall|i: int| start <= i < outs.len() implies !consumed.contains(
        #[trigger] record_address(outs[i]),
    ) by {
        assert(record_address(outs[i]).tag != crate::address::GROUP_TAG);
    }
    lemma_fresh_skip_consumed_prefix(outs, consumed, start);
    let fresh = fresh_output_addresses(outs, consumed);
    let rot = reqs.subrange(1, reqs.len() as int) + seq![reqs[0]];
    assert(fresh.len() == rot.len());
    assert forall|i: int| 0 <= i < fresh.len() implies fresh[i] == rot[i] by {
        assert(fresh[i] == record_address(outs[start + i]));
    }
    assert(fresh =~= rot);
    assert forall|i: int, j: int| 0 <= i < j < reqs.len() implies reqs[i] != reqs[j] by {
        assert(reqs[i].tag != reqs[j].tag);
    }
    assert(reqs.no_duplicates());
}

} // verus!
