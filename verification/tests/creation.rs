use feather_assets::address::derive_address;
use feather_assets::address::derive_authority;
use feather_assets::address::DerivationSeed;
use feather_assets::address::Pubkey;
use feather_assets::address::ASSET_DATA_TAG;
use feather_assets::address::ASSET_ROYALTY_TAG;
use feather_assets::address::ASSET_TAG;
use feather_assets::batch::InclusionProof;
use feather_assets::create_asset::handler;
use feather_assets::create_asset::CreateAsset;
use feather_assets::records::Attribute;
use feather_assets::records::AuthorityState;
use feather_assets::records::CreateAssetArgs;
use feather_assets::records::Creator;
use feather_assets::records::LockState;
use feather_assets::records::MetadataArgs;
use feather_assets::records::Record;
use feather_assets::records::RoyaltyArgs;
use feather_assets::records::Ruleset;

fn key(n: u64) -> Pubkey {
    Pubkey { w0: n, w1: 0, w2: 0, w3: 0 }
}

fn ctx() -> CreateAsset {
    CreateAsset { signer: key(1), authority: key(2), invoking_program: key(3) }
}

fn proof_blob() -> InclusionProof {
    InclusionProof { bytes: vec![9, 9, 9] }
}

fn metadata_args() -> MetadataArgs {
    MetadataArgs {
        name: String::from("X"),
        uri: String::from("u"),
        attributes: Vec::new(),
        mutable: true,
    }
}

fn royalty_args() -> RoyaltyArgs {
    RoyaltyArgs {
        basis_points: 500,
        creators: vec![Creator { address: key(8), share: 100 }],
        ruleset: Ruleset { policy: key(9) },
    }
}

#[test]
fn bare_creation_has_one_request_and_one_record() {
    let args = CreateAssetArgs {
        rentable: false,
        transferable: true,
        metadata: None,
        royalty: None,
    };
    let r = handler(ctx(), 7, args, proof_blob());
    assert_eq!(r.batch.new_address_requests.len(), 1);
    assert_eq!(r.batch.output_records.len(), 1);
    assert!(r.batch.input_records.is_empty());
    match &r.batch.output_records[0] {
        Record::Asset(a) => {
            assert!(!a.has_metadata);
            assert!(!a.has_royalties);
            assert!(a.group_membership.is_none());
            assert!(!a.rentable);
            assert!(a.transferable);
            assert_eq!(a.authority_state, AuthorityState::Owner);
            assert_eq!(a.lock_state, LockState::Unlocked);
        }
        other => panic!("expected an asset record, got {:?}", other),
    }
}

#[test]
fn bare_creation_requests_the_asset_address() {
    let args = CreateAssetArgs {
        rentable: false,
        transferable: true,
        metadata: None,
        royalty: None,
    };
    let r = handler(ctx(), 7, args, proof_blob());
    let expected = derive_address(
        ASSET_TAG,
        DerivationSeed::AuthorityNumber { authority: key(2), number: 7 },
    );
    assert_eq!(r.batch.new_address_requests[0], expected);
    match &r.batch.output_records[0] {
        Record::Asset(a) => assert_eq!(a.address, expected),
        other => panic!("expected an asset record, got {:?}", other),
    }
}

#[test]
fn full_creation_has_three_records_in_order() {
    let args = CreateAssetArgs {
        rentable: true,
        transferable: true,
        metadata: Some(metadata_args()),
        royalty: Some(royalty_args()),
    };
    let r = handler(ctx(), 11, args, proof_blob());
    assert_eq!(r.batch.new_address_requests.len(), 3);
    assert_eq!(r.batch.output_records.len(), 3);
    let asset_address = derive_address(
        ASSET_TAG,
        DerivationSeed::AuthorityNumber { authority: key(2), number: 11 },
    );
    let md_address = derive_address(
        ASSET_DATA_TAG,
        DerivationSeed::OwnedRecord { asset: Box::new(asset_address.dup()) },
    );
    let roy_address = derive_address(
        ASSET_ROYALTY_TAG,
        DerivationSeed::OwnedRecord { asset: Box::new(asset_address.dup()) },
    );
    assert_eq!(r.batch.new_address_requests[0], asset_address);
    assert_eq!(r.batch.new_address_requests[1], md_address);
    assert_eq!(r.batch.new_address_requests[2], roy_address);
    match &r.batch.output_records[0] {
        Record::Metadata(d) => {
            assert_eq!(d.address, md_address);
            assert_eq!(d.asset_key, asset_address);
            assert_eq!(d.name, "X");
        }
        other => panic!("expected a metadata record, got {:?}", other),
    }
    match &r.batch.output_records[1] {
        Record::Royalties(y) => {
            assert_eq!(y.address, roy_address);
            assert_eq!(y.asset_key, asset_address);
            assert_eq!(y.basis_points, 500);
        }
        other => panic!("expected a royalty record, got {:?}", other),
    }
    match &r.batch.output_records[2] {
        Record::Asset(a) => {
            assert_eq!(a.address, asset_address);
            assert!(a.has_metadata);
            assert!(a.has_royalties);
        }
        other => panic!("expected an asset record, got {:?}", other),
    }
}

#[test]
fn creation_with_metadata_links_back_to_the_asset() {
    let args = CreateAssetArgs {
        rentable: true,
        transferable: false,
        metadata: Some(metadata_args()),
        royalty: None,
    };
    let r = handler(ctx(), 7, args, proof_blob());
    assert_eq!(r.batch.output_records.len(), 2);
    let asset_address = derive_address(
        ASSET_TAG,
        DerivationSeed::AuthorityNumber { authority: key(2), number: 7 },
    );
    match &r.batch.output_records[1] {
        Record::Asset(a) => {
            assert_eq!(a.address, asset_address);
            assert!(a.rentable);
            assert!(!a.transferable);
            assert!(a.has_metadata);
            assert!(!a.has_royalties);
        }
        other => panic!("expected an asset record, got {:?}", other),
    }
    match &r.batch.output_records[0] {
        Record::Metadata(d) => {
            assert_eq!(d.asset_key, asset_address);
            assert_eq!(d.name, "X");
            assert_eq!(d.uri, "u");
            assert!(d.attributes.is_empty());
            assert!(d.mutable);
            assert!(d.privilege_attributes.is_empty());
        }
        other => panic!("expected a metadata record, got {:?}", other),
    }
}

#[test]
fn metadata_attributes_are_carried_over() {
    let args = CreateAssetArgs {
        rentable: false,
        transferable: false,
        metadata: Some(MetadataArgs {
            name: String::from("name"),
            uri: String::from("uri"),
            attributes: vec![Attribute {
                key: String::from("color"),
                value: String::from("red"),
            }],
            mutable: false,
        }),
        royalty: None,
    };
    let r = handler(ctx(), 1, args, proof_blob());
    match &r.batch.output_records[0] {
        Record::Metadata(d) => {
            assert_eq!(d.attributes.len(), 1);
            assert_eq!(d.attributes[0].key, "color");
            assert_eq!(d.attributes[0].value, "red");
            assert!(!d.mutable);
        }
        other => panic!("expected a metadata record, got {:?}", other),
    }
}

#[test]
fn whole_fee_royalty_is_accepted() {
    let args = CreateAssetArgs {
        rentable: false,
        transferable: true,
        metadata: None,
        royalty: Some(RoyaltyArgs {
            basis_points: 10000,
            creators: Vec::new(),
            ruleset: Ruleset { policy: key(9) },
        }),
    };
    let r = handler(ctx(), 7, args, proof_blob());
    assert_eq!(r.batch.new_address_requests.len(), 2);
    assert_eq!(r.batch.output_records.len(), 2);
    match &r.batch.output_records[0] {
        Record::Royalties(y) => {
            assert_eq!(y.basis_points, 10000);
            assert!(y.creators.is_empty());
        }
        other => panic!("expected a royalty record, got {:?}", other),
    }
    match &r.batch.output_records[1] {
        Record::Asset(a) => {
            assert!(!a.has_metadata);
            assert!(a.has_royalties);
        }
        other => panic!("expected an asset record, got {:?}", other),
    }
}

#[test]
fn request_carries_proof_and_derived_authority_and_no_transfer() {
    let args = CreateAssetArgs {
        rentable: false,
        transferable: false,
        metadata: None,
        royalty: None,
    };
    let r = handler(ctx(), 7, args, proof_blob());
    assert_eq!(r.batch.inclusion_proof, Some(proof_blob()));
    assert_eq!(r.batch.value_transfer, None);
    assert_eq!(r.signing_authority, derive_authority(&key(3)));
}
