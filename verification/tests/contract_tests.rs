use marketplace::contract::{execute, instantiate, query};
use marketplace::error::ContractError;
use marketplace::msg::{
    Coin, CollectionVolumeResponse, ContractInfoResponse, Effect, ExecuteMsg, InitMsg,
    MessageInfo, NftReceiveMsg, OfferingsResponse, QueryMsg, QueryResponse, SellNft,
};
use marketplace::state::Marketplace;

// NOTE: all selling has to be >=1million utoken (1token)

const MP_NAME: &str = "test market";
const DENOM: &str = "ucraft";

// ==== TEST HELPERS ====

fn coins(amount: u128, denom: &str) -> Vec<Coin> {
    vec![Coin { denom: denom.to_string(), amount }]
}

fn mock_info(sender: &str, funds: &[Coin]) -> MessageInfo {
    MessageInfo { sender: sender.to_string(), funds: funds.to_vec() }
}

fn initialize_contract() -> (Marketplace, String, String, u128) {
    let msg = InitMsg {
        name: MP_NAME.to_string(),
        denom: DENOM.to_string(),
        fee_receive_address: String::from("craftdaoaddr"),
        platform_fee: 5,
    };
    let denom = msg.denom.clone();
    let fee_receiver = msg.fee_receive_address.clone();
    let platform_fee = msg.platform_fee;
    let state = instantiate(msg);
    (state, denom, fee_receiver, platform_fee)
}

fn buy_nft(
    state: &mut Marketplace,
    info: MessageInfo,
    offering_id: String,
) -> Result<(), ContractError> {
    let res = execute(state, info, ExecuteMsg::BuyNft { offering_id });
    match res {
        Ok(_) => Ok(()),
        Err(e) => {
            println!("{:?}", e);
            Err(e)
        }
    }
}

fn sell_nft(
    state: &mut Marketplace,
    info: MessageInfo,
    token_id: String,
    amount: u128,
) -> (String, String) {
    let msg = ExecuteMsg::ReceiveNft(NftReceiveMsg {
        sender: info.sender.clone(),
        token_id: token_id.clone(),
        msg: SellNft { list_price: amount },
    });
    execute(state, info.clone(), msg).unwrap();

    (info.sender, token_id)
}

fn receive_nft(
    state: &mut Marketplace,
    info: MessageInfo,
    list_price: u128,
    token_id: String,
) -> Result<(), ContractError> {
    let msg = ExecuteMsg::ReceiveNft(NftReceiveMsg {
        sender: String::from("seller"),
        token_id,
        msg: SellNft { list_price },
    });

    match execute(state, info, msg) {
        Ok(_) => Ok(()),
        Err(e) => Err(e),
    }
}

fn get_offerings(state: &Marketplace) -> OfferingsResponse {
    match query(state, QueryMsg::GetOfferings { filter_seller: None }) {
        QueryResponse::Offerings(o) => o,
        other => panic!("unexpected query response: {:?}", other),
    }
}

fn get_contract_info(state: &Marketplace) -> ContractInfoResponse {
    match query(state, QueryMsg::GetContractInfo {}) {
        QueryResponse::ContractInfo(c) => c,
        other => panic!("unexpected query response: {:?}", other),
    }
}

fn get_collection_volume(state: &Marketplace, address: &str) -> CollectionVolumeResponse {
    match query(state, QueryMsg::GetCollectionVolume { address: address.to_string() }) {
        QueryResponse::CollectionVolume(v) => v,
        other => panic!("unexpected query response: {:?}", other),
    }
}

// ==== PORTED TESTS ====

#[test]
fn proper_initialization() {
    let (state, _, dao_address, platform_fee) = initialize_contract();

    let res = get_contract_info(&state);
    assert_eq!(res.name, MP_NAME.to_string());
    assert_eq!(res.denom, DENOM);
    assert_eq!(res.fee_receive_address, dao_address);
    assert_eq!(res.platform_fee, platform_fee);
}

#[test]
fn test_update_fee_receiver_address() {
    let (mut state, _, fee_receiver, _) = initialize_contract();

    let msg = ExecuteMsg::UpdateFeeReceiverAddress {
        new_address: "new_dao_address".to_string(),
    };

    // ensure the new address is not the initial one
    assert_ne!(fee_receiver, "new_dao_address");

    let useless_coins = coins(1, "ucraft");

    // try changing the current address as a non DAO user (should fail)
    let non_dao_user_info = mock_info("not_the_fee_receiver", &useless_coins);
    let err = execute(&mut state, non_dao_user_info, msg.clone()).unwrap_err();
    match err {
        ContractError::Unauthorized {} => {}
        _ => panic!("Unexpected error: {:?}", err),
    }

    // try to change it successfully as the DAO (fee receiver)
    let info = mock_info(&fee_receiver, &useless_coins);
    execute(&mut state, info, msg).unwrap();

    let res = get_contract_info(&state);
    assert_eq!(res.fee_receive_address, "new_dao_address");
}

#[test]
fn test_update_platform_fee() {
    let (mut state, _, fee_receiver, _platform_fee) = initialize_contract();

    let msg = ExecuteMsg::UpdatePlatformFee { new_fee: 7 };
    let high_msg = ExecuteMsg::UpdatePlatformFee { new_fee: 101 };

    let useless_coins = coins(1, "ucraft");

    // try changing the platform fee as a non DAO user (should fail)
    let non_dao_user_info = mock_info("not_the_fee_receiver", &useless_coins);
    let err = execute(&mut state, non_dao_user_info, msg.clone()).unwrap_err();
    match err {
        ContractError::Unauthorized {} => {}
        _ => panic!("Unexpected error: {:?}", err),
    }

    // change as DAO, but >100 (should fail)
    let info = mock_info(&fee_receiver, &useless_coins);
    let err = execute(&mut state, info, high_msg).unwrap_err();
    match err {
        ContractError::PlatformFeeToHigh {} => {}
        _ => panic!("Unexpected error: {:?}", err),
    }

    // try to change it successfully as the DAO (fee receiver)
    let info = mock_info(&fee_receiver, &useless_coins);
    execute(&mut state, info, msg).unwrap();

    let res = get_contract_info(&state);
    assert_eq!(res.platform_fee, 7);
}

#[test]
fn test_force_withdraw_all_from_marketplace() {
    let (mut state, _, fee_receiver, _) = initialize_contract();
    println!("Initial fee_receiver: {}", fee_receiver);

    let msg = ExecuteMsg::ForceWithdrawAll {};
    let useless_coins = coins(1_000_000, "ucraft");

    // try to run it, but you are not the dao so you can't
    let info = mock_info("not_the_fee_receiver", &useless_coins);
    let err = execute(&mut state, info, msg.clone()).unwrap_err();
    match err {
        ContractError::Unauthorized {} => {}
        _ => panic!("Unexpected error: {:?}", err),
    }

    // Takes all tokens for sale and sends them back to the rightful owners IF
    // the caller is the fee_receiver.  Ex: 2 NFTs on marketplace, sends all to
    // users (& removes from marketplace offerings), until there are 0 left.
    let info = mock_info(&fee_receiver, &useless_coins);

    sell_nft(&mut state, info.clone(), String::from("token1"), 1_100_000);
    sell_nft(&mut state, info.clone(), String::from("token2"), 2_200_000);

    let res = get_offerings(&state);
    assert_eq!(res.offerings.len(), 2);
    // send them to users
    execute(&mut state, info, msg).unwrap();

    let res = get_offerings(&state);
    assert_eq!(res.offerings.len(), 0);
}

#[test]
fn test_sell_offering() {
    let (mut state, denom, _dao_address, _tax_rate) = initialize_contract();

    let amount: u128 = 1_000_000; // list price & buy price
    let info = mock_info("anyone", &coins(0, &denom));
    let msg = ExecuteMsg::ReceiveNft(NftReceiveMsg {
        sender: String::from("seller_contract"),
        token_id: String::from("token_id"),
        msg: SellNft { list_price: amount },
    });

    let res = execute(&mut state, info, msg);
    match res {
        Ok(_) => {}
        Err(e) => {
            panic!("{:?}", e);
        }
    }

    // Offering should be listed = length of 1
    let value = get_offerings(&state);
    assert_eq!(1, value.offerings.len());
}

#[test]
fn test_buying_offering() {
    let (mut state, denom, _dao_address, _tax_rate) = initialize_contract();

    let amount: u128 = 1_000_000; // list price & buy price
    let info_seller = mock_info("seller", &coins(0, &denom));
    sell_nft(&mut state, info_seller.clone(), String::from("token1"), amount);

    // Offering should be listed = length of 1
    let value = get_offerings(&state);
    assert_eq!(1, value.offerings.len());

    // Purchase the NFT from the store for 1mil ucraft
    let info = mock_info("buyer", &coins(amount, &denom));
    let res = execute(
        &mut state,
        info,
        ExecuteMsg::BuyNft { offering_id: value.offerings[0].offering_id.clone() },
    );
    match res {
        Ok(_) => {}
        Err(_) => panic!("should have succeeded"),
    }

    // check offerings again. Should be 0 since the NFT is bought
    let value = get_offerings(&state);
    assert_eq!(0, value.offerings.len());

    // == OVERPAYING FOR AN OFFERING ==
    let for_sale_amount = 1_000_000;
    let overpay_amount = 3_100_000;
    sell_nft(
        &mut state,
        info_seller.clone(),
        String::from("token1"),
        for_sale_amount,
    );

    // get offering_id in the offering list
    let value = get_offerings(&state);
    let offering_id = value.offerings[0].offering_id.clone();
    assert_eq!("2", offering_id);

    // try to have the seller buy their own offering. Should error out
    match buy_nft(&mut state, info_seller, offering_id.clone()) {
        Ok(_) => panic!("should have failed, InsufficientFundsSend"),
        Err(e) => match e {
            ContractError::UnableToPurchaseMarketplaceItemYouSold {} => {}
            _ => panic!("should have failed with UnableToPurchaseMarketplaceItemYouSold"),
        },
    }

    // buyer tries to buy it with an overpayment
    let buyer_info = mock_info("addr1", &coins(overpay_amount, &denom));
    match buy_nft(&mut state, buyer_info, offering_id) {
        Ok(_) => panic!("should have failed, InsufficientFundsSend"),
        Err(e) => match e {
            ContractError::InsufficientFundsSend { needed: _, received: _ } => {}
            _ => panic!("should have failed with OverpayingForOffering"),
        },
    }
}

#[test]
fn test_buy_with_volume() {
    let (mut state, denom, _dao_address, _tax_rate) = initialize_contract();

    let amount: u128 = 1_000_000; // list price & buy price
    let info_seller = mock_info("seller", &coins(0, &denom));
    let (c_addr, _) = sell_nft(&mut state, info_seller.clone(), String::from("token1"), amount);

    // check that the current volume of the given contract is 0
    let value = get_collection_volume(&state, &c_addr);
    assert_eq!(0u128, value.total_volume);

    // Purchase the NFT from the store for 1mil ucraft
    let info = mock_info("buyer", &coins(amount, &denom));
    let res = execute(
        &mut state,
        info,
        ExecuteMsg::BuyNft { offering_id: "1".to_string() },
    );
    match res {
        Ok(_) => {}
        Err(_) => panic!("should have succeeded"),
    }

    // check the total volume increased to 1_000_000 of the token for the address
    let value = get_collection_volume(&state, &c_addr);
    assert_eq!(amount, value.total_volume);

    // check offerings again. Should be 0 since the NFT is bought
    let value = get_offerings(&state);
    assert_eq!(0, value.offerings.len());

    // == OVERPAYING FOR AN OFFERING ==
    let for_sale_amount = 1_000_000;
    let overpay_amount = 3_100_000;
    sell_nft(
        &mut state,
        info_seller.clone(),
        String::from("token1"),
        for_sale_amount,
    );

    // get offering_id in the offering list
    let value = get_offerings(&state);
    let offering_id = value.offerings[0].offering_id.clone();
    assert_eq!("2", offering_id);

    // try to have the seller buy their own offering. Should error out
    match buy_nft(&mut state, info_seller, offering_id.clone()) {
        Ok(_) => panic!("should have failed, InsufficientFundsSend"),
        Err(e) => match e {
            ContractError::UnableToPurchaseMarketplaceItemYouSold {} => {}
            _ => panic!("should have failed with UnableToPurchaseMarketplaceItemYouSold"),
        },
    }

    // buyer tries to buy it with an overpayment
    let buyer_info = mock_info("addr1", &coins(overpay_amount, &denom));
    match buy_nft(&mut state, buyer_info, offering_id) {
        Ok(_) => panic!("should have failed, InsufficientFundsSend"),
        Err(e) => match e {
            ContractError::InsufficientFundsSend { needed: _, received: _ } => {}
            _ => panic!("should have failed with OverpayingForOffering"),
        },
    }
}

#[test]
fn test_withdraw_offering() {
    let msg = InitMsg {
        name: String::from("test market"),
        denom: String::from("ucraft"),
        fee_receive_address: String::from("craftdaoaddr"),
        platform_fee: 5,
    };
    let denom = msg.denom.clone();

    let mut state = instantiate(msg);

    // beneficiary can release it
    let info = mock_info("anyone", &coins(1_000_000, &denom));
    receive_nft(&mut state, info, 1_000_000, String::from("token_id")).unwrap();

    // Offering should be listed
    let value = get_offerings(&state);
    assert_eq!(1, value.offerings.len());

    // withdraw offering
    let withdraw_info = mock_info("seller", &coins(2, &denom));
    let withdraw_msg = ExecuteMsg::WithdrawNft {
        offering_id: value.offerings[0].offering_id.clone(),
    };
    execute(&mut state, withdraw_info, withdraw_msg).unwrap();

    // Offering should be removed
    let value = get_offerings(&state);
    assert_eq!(0, value.offerings.len());
}

#[test]
fn test_update_offering_price() {
    let (mut state, denom, _, _) = initialize_contract();

    let amount: u128 = 1_000_000; // list price & buy price
    let info = mock_info("anyone", &coins(0, &denom));
    sell_nft(&mut state, info.clone(), String::from("token1"), amount);

    // Offering should be listed = length of 1
    let value = get_offerings(&state);
    assert_eq!(1, value.offerings.len());

    // get the first offering
    let offering_id = value.offerings[0].offering_id.clone();

    // update the price of the offering
    let new_amount: u128 = 9_999_999;
    let update_msg = ExecuteMsg::UpdateListingPrice { offering_id, new_price: new_amount };

    let res = execute(&mut state, info, update_msg.clone());
    match res {
        Ok(_) => {}
        Err(e) => panic!("should have succeeded: {:?}", e),
    }

    // confirm the price is updated to new_price
    let value = get_offerings(&state);
    assert_eq!(new_amount, value.offerings[0].list_price);

    // try to update the price of the offering, but with the incorrect sender
    let info = mock_info("wrong_person", &coins(0, &denom));
    let res = execute(&mut state, info, update_msg);
    match res {
        Ok(_) => panic!("should have failed"),
        Err(e) => match e {
            ContractError::Unauthorized {} => {}
            _ => panic!("should have failed with InvalidSender"),
        },
    }
}

#[test]
fn test_query_selective_seller_offerings_only() {
    let (mut state, denom, _dao_address, _tax_rate) = initialize_contract();

    let amount = 1_000_000u128; // list price & buy price
    let info_seller = mock_info("seller", &coins(0, &denom));
    sell_nft(&mut state, info_seller.clone(), String::from("token1"), amount);
    sell_nft(&mut state, info_seller.clone(), String::from("token2"), amount);
    let random_seller = mock_info("random_person", &coins(0, &denom));
    sell_nft(&mut state, random_seller.clone(), String::from("token2"), amount);

    // Two of the three offerings belong to "seller"
    let value = match query(
        &state,
        QueryMsg::GetOfferings { filter_seller: Some("seller".to_string()) },
    ) {
        QueryResponse::Offerings(o) => o,
        other => panic!("unexpected query response: {:?}", other),
    };
    assert_eq!(2, value.offerings.len());
}
