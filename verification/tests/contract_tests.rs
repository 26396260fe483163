use aura4973::error::ContractError;
use aura4973::msg::{ExecuteMsg, InstantiateMsg, QueryMsg, QueryResponse};
use aura4973::state::Aura4973;

const MINTER: &str = "minter";

// function to set up the ledger for testing
fn setup_contract() -> Aura4973 {
    let contract_info = InstantiateMsg {
        name: "Aura 4973".to_string(),
        symbol: "A4973".to_string(),
        minter: String::from(MINTER),
    };

    let (contract, response) = Aura4973::instantiate(contract_info).unwrap();

    // a fresh ledger reports nothing
    assert_eq!(0, response.attributes.len());

    contract
}

fn equipped_of(contract: &Aura4973, owner: &str) -> Vec<aura4973::state::NftInfo> {
    let res = contract
        .query(QueryMsg::AllEquippedNftOf { owner: owner.to_string() })
        .unwrap();
    match res {
        QueryResponse::Nfts(nfts) => nfts,
        _ => panic!("unexpected query response"),
    }
}

fn unequipped_of(contract: &Aura4973, owner: &str) -> Vec<aura4973::state::NftInfo> {
    let res = contract
        .query(QueryMsg::AllUnequippedNftOf { owner: owner.to_string() })
        .unwrap();
    match res {
        QueryResponse::Nfts(nfts) => nfts,
        _ => panic!("unexpected query response"),
    }
}

fn num_nfts(contract: &Aura4973) -> u64 {
    match contract.query(QueryMsg::NumNfts {}).unwrap() {
        QueryResponse::NumNfts(n) => n.count,
        _ => panic!("unexpected query response"),
    }
}

// function for testing mint nft to owner
#[test]
fn test_mint_nft() {
    let mut contract = setup_contract();

    let mint_msg = ExecuteMsg::Mint {
        nft_id: "nft_id".to_string(),
        owner: "owner".to_string(),
        nft_uri: "nft_uri".to_string(),
    };

    // a random user cannot mint
    let err = contract
        .execute("random".to_string(), mint_msg.clone())
        .unwrap_err();
    assert_eq!(err, ContractError::Unauthorized {});

    // the minter can mint
    let _res = contract.execute(MINTER.to_string(), mint_msg.clone()).unwrap();

    let nft_info = equipped_of(&contract, "owner");

    assert_eq!(nft_info[0].id, "nft_id");
    assert_eq!(nft_info[0].nft_uri, "nft_uri".to_string());
    assert_eq!(nft_info[0].owner, "owner".to_string());
    assert_eq!(nft_info[0].equiped, true);
}

// function to unequip a nft for testing
#[test]
fn execute_unequip() {
    let mut contract = setup_contract();

    let mint_msg = ExecuteMsg::Mint {
        nft_id: "nft_id".to_string(),
        owner: "owner".to_string(),
        nft_uri: "nft_uri".to_string(),
    };
    let _res = contract.execute(MINTER.to_string(), mint_msg).unwrap();

    let unequipped_msg = ExecuteMsg::UnEquip { nft_id: "nft_id".to_string() };
    let _res = contract.execute("owner".to_string(), unequipped_msg).unwrap();

    let nft_info = equipped_of(&contract, "owner");
    assert_eq!(nft_info.len(), 0);

    let nft_info = unequipped_of(&contract, "owner");
    assert_eq!(nft_info[0].id, "nft_id");
    assert_eq!(nft_info[0].nft_uri, "nft_uri".to_string());
    assert_eq!(nft_info[0].owner, "owner".to_string());
    assert_eq!(nft_info[0].equiped, false);
}

// function to re-equip a nft for testing
#[test]
fn execute_re_equip() {
    let mut contract = setup_contract();

    let mint_msg = ExecuteMsg::Mint {
        nft_id: "nft_id_re-equip".to_string(),
        owner: "owner".to_string(),
        nft_uri: "nft_uri".to_string(),
    };
    let _res = contract.execute(MINTER.to_string(), mint_msg).unwrap();

    let unequipped_msg = ExecuteMsg::UnEquip { nft_id: "nft_id_re-equip".to_string() };
    let _res = contract.execute("owner".to_string(), unequipped_msg).unwrap();

    let nft_info = equipped_of(&contract, "owner");
    assert_eq!(nft_info.len(), 0);

    let nft_info = unequipped_of(&contract, "owner");
    assert_eq!(nft_info[0].id, "nft_id_re-equip");
    assert_eq!(nft_info[0].nft_uri, "nft_uri".to_string());
    assert_eq!(nft_info[0].owner, "owner".to_string());
    assert_eq!(nft_info[0].equiped, false);

    let unequipped_nft_id = &nft_info[0].id;
    let re_equipped_msg = ExecuteMsg::Equip { nft_id: unequipped_nft_id.clone() };
    let _res = contract.execute("owner".to_string(), re_equipped_msg).unwrap();

    let nft_info = equipped_of(&contract, "owner");
    assert_eq!(nft_info.len(), 1);
    assert_eq!(nft_info[0].id, "nft_id_re-equip");
    assert_eq!(nft_info[0].nft_uri, "nft_uri".to_string());
    assert_eq!(nft_info[0].owner, "owner".to_string());
    assert_eq!(nft_info[0].equiped, true);
}

// function to test minter can unadmit a nft
#[test]
fn execute_unadmit() {
    let mut contract = setup_contract();

    let mint_msg = ExecuteMsg::Mint {
        nft_id: "nft_id_unadmit".to_string(),
        owner: "owner".to_string(),
        nft_uri: "nft_uri".to_string(),
    };
    let _res = contract.execute(MINTER.to_string(), mint_msg).unwrap();

    let nft_info = equipped_of(&contract, "owner");
    assert_eq!(nft_info.len(), 1);

    let unadmit_msg = ExecuteMsg::UnAdmit { nft_id: "nft_id_unadmit".to_string() };
    let _res = contract.execute(MINTER.to_string(), unadmit_msg).unwrap();

    let nft_info = equipped_of(&contract, "owner");
    assert_eq!(nft_info.len(), 0);
}

// authority mints, the owner unequips, the authority revokes: the token
// leaves every listing while its record survives
#[test]
fn scenario_mint_unequip_revoke() {
    let mut contract = setup_contract();

    let mint_msg = ExecuteMsg::Mint {
        nft_id: "t1".to_string(),
        owner: "owner1".to_string(),
        nft_uri: "u1".to_string(),
    };
    let res = contract.execute(MINTER.to_string(), mint_msg).unwrap();
    assert_eq!(res.attributes.len(), 3);
    assert_eq!(res.attributes[0].key, "action");
    assert_eq!(res.attributes[0].value, "mint");
    assert_eq!(res.attributes[1].key, "nft_id");
    assert_eq!(res.attributes[1].value, "t1");
    assert_eq!(res.attributes[2].key, "owner");
    assert_eq!(res.attributes[2].value, "owner1");

    assert_eq!(num_nfts(&contract), 1);

    let equipped = equipped_of(&contract, "owner1");
    assert_eq!(equipped.len(), 1);
    assert_eq!(equipped[0].id, "t1");
    assert_eq!(equipped[0].nft_uri, "u1");
    assert_eq!(equipped[0].equiped, true);
    assert_eq!(equipped[0].revoked, false);

    let _res = contract
        .execute("owner1".to_string(), ExecuteMsg::UnEquip { nft_id: "t1".to_string() })
        .unwrap();
    assert_eq!(equipped_of(&contract, "owner1").len(), 0);
    let unequipped = unequipped_of(&contract, "owner1");
    assert_eq!(unequipped.len(), 1);
    assert_eq!(unequipped[0].equiped, false);

    let _res = contract
        .execute(MINTER.to_string(), ExecuteMsg::UnAdmit { nft_id: "t1".to_string() })
        .unwrap();
    assert_eq!(unequipped_of(&contract, "owner1").len(), 0);
    assert_eq!(equipped_of(&contract, "owner1").len(), 0);

    // the record itself survives revocation
    match contract.query(QueryMsg::NftInfo { nft_id: "t1".to_string() }).unwrap() {
        QueryResponse::NftInfo(info) => {
            assert_eq!(info.id, "t1");
            assert_eq!(info.revoked, true);
        },
        _ => panic!("unexpected query response"),
    }
    assert_eq!(num_nfts(&contract), 1);
}

// a non-authority mint fails and the issuance counter does not move
#[test]
fn scenario_unauthorized_mint_leaves_count() {
    let mut contract = setup_contract();

    let mint_msg = ExecuteMsg::Mint {
        nft_id: "t1".to_string(),
        owner: "owner1".to_string(),
        nft_uri: "u1".to_string(),
    };
    let err = contract.execute("mallory".to_string(), mint_msg).unwrap_err();
    assert_eq!(err, ContractError::Unauthorized {});
    assert_eq!(num_nfts(&contract), 0);
}

#[test]
fn second_unequip_fails() {
    let mut contract = setup_contract();
    let mint_msg = ExecuteMsg::Mint {
        nft_id: "tok".to_string(),
        owner: "owner".to_string(),
        nft_uri: "uri".to_string(),
    };
    contract.execute(MINTER.to_string(), mint_msg).unwrap();
    contract
        .execute("owner".to_string(), ExecuteMsg::UnEquip { nft_id: "tok".to_string() })
        .unwrap();
    let err = contract
        .execute("owner".to_string(), ExecuteMsg::UnEquip { nft_id: "tok".to_string() })
        .unwrap_err();
    assert_eq!(err, ContractError::NftAlreadyUnequipped {});
}

#[test]
fn second_equip_fails() {
    let mut contract = setup_contract();
    let mint_msg = ExecuteMsg::Mint {
        nft_id: "tok".to_string(),
        owner: "owner".to_string(),
        nft_uri: "uri".to_string(),
    };
    contract.execute(MINTER.to_string(), mint_msg).unwrap();
    // freshly minted tokens are already equipped
    let err = contract
        .execute("owner".to_string(), ExecuteMsg::Equip { nft_id: "tok".to_string() })
        .unwrap_err();
    assert_eq!(err, ContractError::NftAlreadyEquipped {});
}

#[test]
fn second_unadmit_fails() {
    let mut contract = setup_contract();
    let mint_msg = ExecuteMsg::Mint {
        nft_id: "tok".to_string(),
        owner: "owner".to_string(),
        nft_uri: "uri".to_string(),
    };
    contract.execute(MINTER.to_string(), mint_msg).unwrap();
    contract
        .execute(MINTER.to_string(), ExecuteMsg::UnAdmit { nft_id: "tok".to_string() })
        .unwrap();
    let err = contract
        .execute(MINTER.to_string(), ExecuteMsg::UnAdmit { nft_id: "tok".to_string() })
        .unwrap_err();
    assert_eq!(err, ContractError::NftAlreadyUnadmitted {});
}

#[test]
fn lifecycle_needs_the_right_caller() {
    let mut contract = setup_contract();
    let mint_msg = ExecuteMsg::Mint {
        nft_id: "tok".to_string(),
        owner: "owner".to_string(),
        nft_uri: "uri".to_string(),
    };
    contract.execute(MINTER.to_string(), mint_msg).unwrap();

    let err = contract
        .execute("stranger".to_string(), ExecuteMsg::UnEquip { nft_id: "tok".to_string() })
        .unwrap_err();
    assert_eq!(err, ContractError::Unauthorized {});

    let err = contract
        .execute("owner".to_string(), ExecuteMsg::UnAdmit { nft_id: "tok".to_string() })
        .unwrap_err();
    assert_eq!(err, ContractError::NotMinter {});
}

#[test]
fn missing_token_is_not_found() {
    let mut contract = setup_contract();
    let err = contract
        .execute("owner".to_string(), ExecuteMsg::UnEquip { nft_id: "ghostly".to_string() })
        .unwrap_err();
    assert_eq!(err, ContractError::NftNotFound {});

    let err = contract
        .query(QueryMsg::OwnerOf { nft_id: "ghostly".to_string() })
        .unwrap_err();
    assert_eq!(err, ContractError::NftNotFound {});

    let err = contract
        .query(QueryMsg::NftInfo { nft_id: "ghostly".to_string() })
        .unwrap_err();
    assert_eq!(err, ContractError::NftNotFound {});
}

#[test]
fn duplicate_mint_fails() {
    let mut contract = setup_contract();
    let mint_msg = ExecuteMsg::Mint {
        nft_id: "tok".to_string(),
        owner: "owner".to_string(),
        nft_uri: "uri".to_string(),
    };
    contract.execute(MINTER.to_string(), mint_msg.clone()).unwrap();
    let err = contract.execute(MINTER.to_string(), mint_msg).unwrap_err();
    assert_eq!(err, ContractError::NftAlreadyMinted {});
    assert_eq!(num_nfts(&contract), 1);
}

#[test]
fn mint_rejects_invalid_owner_address() {
    let mut contract = setup_contract();
    // the host's address check refuses anything shorter than three bytes
    let mint_msg = ExecuteMsg::Mint {
        nft_id: "tok".to_string(),
        owner: "o1".to_string(),
        nft_uri: "uri".to_string(),
    };
    let err = contract.execute(MINTER.to_string(), mint_msg).unwrap_err();
    assert_eq!(err, ContractError::InvalidAddress {});

    // and anything that is not lowercase
    let mint_msg = ExecuteMsg::Mint {
        nft_id: "tok".to_string(),
        owner: "Owner".to_string(),
        nft_uri: "uri".to_string(),
    };
    let err = contract.execute(MINTER.to_string(), mint_msg).unwrap_err();
    assert_eq!(err, ContractError::InvalidAddress {});
    assert_eq!(num_nfts(&contract), 0);
}

#[test]
fn instantiate_rejects_invalid_minter() {
    let msg = InstantiateMsg {
        name: "Aura 4973".to_string(),
        symbol: "A4973".to_string(),
        minter: "ab".to_string(),
    };
    let err = Aura4973::instantiate(msg).unwrap_err();
    assert_eq!(err, ContractError::InvalidAddress {});
}

#[test]
fn metadata_queries() {
    let contract = setup_contract();

    match contract.query(QueryMsg::ContractInfo {}).unwrap() {
        QueryResponse::ContractInfo(info) => {
            assert_eq!(info.name, "Aura 4973");
            assert_eq!(info.symbol, "A4973");
        },
        _ => panic!("unexpected query response"),
    }
    assert_eq!(contract.name().name, "Aura 4973");
    assert_eq!(contract.symbol().symbol, "A4973");
    assert_eq!(num_nfts(&contract), 0);
}

#[test]
fn owner_of_reports_the_owner() {
    let mut contract = setup_contract();
    let mint_msg = ExecuteMsg::Mint {
        nft_id: "tok".to_string(),
        owner: "owner".to_string(),
        nft_uri: "uri".to_string(),
    };
    contract.execute(MINTER.to_string(), mint_msg).unwrap();

    match contract.query(QueryMsg::OwnerOf { nft_id: "tok".to_string() }).unwrap() {
        QueryResponse::OwnerOf(o) => assert_eq!(o.owner, "owner"),
        _ => panic!("unexpected query response"),
    }
}

#[test]
fn listings_are_scoped_to_the_owner() {
    let mut contract = setup_contract();
    for (id, owner) in [("a1", "alice"), ("b1", "bobby"), ("a2", "alice")] {
        let mint_msg = ExecuteMsg::Mint {
            nft_id: id.to_string(),
            owner: owner.to_string(),
            nft_uri: "uri".to_string(),
        };
        contract.execute(MINTER.to_string(), mint_msg).unwrap();
    }
    let alice = equipped_of(&contract, "alice");
    assert_eq!(alice.len(), 2);
    // insertion order within the owner partition
    assert_eq!(alice[0].id, "a1");
    assert_eq!(alice[1].id, "a2");
    let bobby = equipped_of(&contract, "bobby");
    assert_eq!(bobby.len(), 1);
    assert_eq!(bobby[0].id, "b1");
    assert_eq!(equipped_of(&contract, "carol").len(), 0);
    assert_eq!(num_nfts(&contract), 3);
}
