use orderly_contract::{
    ContractInfo, OrderlyContract, PendingBootstrap, PoolError, TokenMetadata, TokenPair,
};

fn meta(name: &str, symbol: &str, decimals: u8) -> TokenMetadata {
    TokenMetadata { name: name.to_string(), symbol: symbol.to_string(), decimals }
}

#[test]
fn init_names_the_two_ledgers_and_changes_nothing() {
    let contract = OrderlyContract::new("owner.test".to_string());
    let pending = contract.init("wnear.test".to_string(), "usdc.test".to_string());
    assert_eq!(
        pending,
        Ok(PendingBootstrap {
            token_a: "wnear.test".to_string(),
            token_b: "usdc.test".to_string()
        })
    );
    assert_eq!(contract.get_contract_info(), None);
}

#[test]
fn init_twice_fails_the_second_time() {
    let mut contract = OrderlyContract::new("owner.test".to_string());
    let pending = contract.init("wnear.test".to_string(), "usdc.test".to_string()).unwrap();
    assert_eq!(
        contract.handle_init(
            pending.token_a,
            pending.token_b,
            Some(meta("Wrapped NEAR", "wNEAR", 24)),
            Some(meta("USD Coin", "USDC", 6)),
        ),
        Ok(())
    );
    assert_eq!(
        contract.init("wnear.test".to_string(), "usdc.test".to_string()),
        Err(PoolError::AlreadyBootstrapped)
    );
    assert_eq!(
        contract.init("other.test".to_string(), "another.test".to_string()),
        Err(PoolError::AlreadyBootstrapped)
    );
}

#[test]
fn handle_init_keeps_what_the_ledgers_said() {
    let mut contract = OrderlyContract::new("owner.test".to_string());
    contract
        .handle_init(
            "wnear.test".to_string(),
            "usdc.test".to_string(),
            Some(meta("Wrapped NEAR", "wNEAR", 24)),
            Some(meta("USD Coin", "USDC", 6)),
        )
        .unwrap();
    assert_eq!(
        contract.get_contract_info(),
        Some(ContractInfo {
            token_a_id: "wnear.test".to_string(),
            token_a_name: "Wrapped NEAR".to_string(),
            token_a_symbol: "wNEAR".to_string(),
            token_a_supply: 0,
            token_a_decimals: 24,
            token_b_id: "usdc.test".to_string(),
            token_b_name: "USD Coin".to_string(),
            token_b_symbol: "USDC".to_string(),
            token_b_supply: 0,
            token_b_decimals: 6,
        })
    );
}

#[test]
fn handle_init_on_a_bound_pool_fails_and_keeps_the_supplies() {
    let mut contract = OrderlyContract::new("owner.test".to_string());
    contract
        .handle_init(
            "wnear.test".to_string(),
            "usdc.test".to_string(),
            Some(meta("Wrapped NEAR", "wNEAR", 24)),
            Some(meta("USD Coin", "USDC", 6)),
        )
        .unwrap();
    contract.ft_on_transfer("owner.test".to_string(), "usdc.test".to_string(), 500).unwrap();
    let before = contract.get_contract_info();
    assert_eq!(
        contract.handle_init(
            "x.test".to_string(),
            "y.test".to_string(),
            Some(meta("X", "X", 1)),
            Some(meta("Y", "Y", 2)),
        ),
        Err(PoolError::AlreadyBootstrapped)
    );
    assert_eq!(
        contract.handle_init("x.test".to_string(), "y.test".to_string(), None, None),
        Err(PoolError::AlreadyBootstrapped)
    );
    assert_eq!(contract.get_contract_info(), before);
    assert_eq!(before.unwrap().token_b_supply, 500);
}

#[test]
fn a_ledger_that_does_not_answer_fails_the_join() {
    let mut contract = OrderlyContract::new("owner.test".to_string());
    assert_eq!(
        contract.handle_init(
            "wnear.test".to_string(),
            "usdc.test".to_string(),
            None,
            Some(meta("USD Coin", "USDC", 6)),
        ),
        Err(PoolError::BootstrapJoinFailure)
    );
    assert_eq!(contract.get_contract_info(), None);
    assert_eq!(
        contract.handle_init(
            "wnear.test".to_string(),
            "usdc.test".to_string(),
            Some(meta("Wrapped NEAR", "wNEAR", 24)),
            None,
        ),
        Err(PoolError::BootstrapJoinFailure)
    );
    assert_eq!(
        contract.handle_init("wnear.test".to_string(), "usdc.test".to_string(), None, None),
        Err(PoolError::BootstrapJoinFailure)
    );
    assert_eq!(contract.get_contract_info(), None);
}

#[test]
fn a_failed_join_can_be_tried_again() {
    let mut contract = OrderlyContract::new("owner.test".to_string());
    let first = contract.init("wnear.test".to_string(), "nothing.test".to_string()).unwrap();
    assert_eq!(
        contract.handle_init(
            first.token_a,
            first.token_b,
            Some(meta("Wrapped NEAR", "wNEAR", 24)),
            None
        ),
        Err(PoolError::BootstrapJoinFailure)
    );
    let second = contract.init("wnear.test".to_string(), "usdc.test".to_string()).unwrap();
    assert_eq!(
        contract.handle_init(
            second.token_a,
            second.token_b,
            Some(meta("Wrapped NEAR", "wNEAR", 24)),
            Some(meta("USD Coin", "USDC", 6)),
        ),
        Ok(())
    );
    let info = contract.get_contract_info().unwrap();
    assert_eq!(info.token_b_id, "usdc.test");
    assert_eq!(info.token_a_supply, 0);
    assert_eq!(info.token_b_supply, 0);
}

#[test]
fn restore_brings_back_what_was_read() {
    let mut contract = OrderlyContract::new("owner.test".to_string());
    contract
        .handle_init(
            "wnear.test".to_string(),
            "usdc.test".to_string(),
            Some(meta("Wrapped NEAR", "wNEAR", 24)),
            Some(meta("USD Coin", "USDC", 6)),
        )
        .unwrap();
    contract.ft_on_transfer("owner.test".to_string(), "wnear.test".to_string(), 31).unwrap();
    contract.ft_on_transfer("owner.test".to_string(), "usdc.test".to_string(), 17).unwrap();
    let restored =
        OrderlyContract::restore(contract.owner().clone(), contract.get_contract_info());
    assert_eq!(restored, contract);
    assert_eq!(restored.get_contract_info().unwrap().token_a_supply, 31);
    assert_eq!(restored.get_contract_info().unwrap().token_b_supply, 17);

    let unbound = OrderlyContract::restore("owner.test".to_string(), None);
    assert_eq!(unbound, OrderlyContract::new("owner.test".to_string()));
}

#[test]
fn a_new_side_holds_nothing() {
    let pair = TokenPair::new("usdc.test".to_string(), meta("USD Coin", "USDC", 6));
    assert_eq!(pair.account_id, "usdc.test");
    assert_eq!(pair.metadata, meta("USD Coin", "USDC", 6));
    assert_eq!(pair.supply, 0);
    assert_eq!(pair.clone(), pair);
}

#[test]
fn copies_are_equal_to_what_they_were_made_from() {
    let metadata = meta("USD Coin", "USDC", 6);
    assert_eq!(metadata.clone(), metadata);

    let mut contract = OrderlyContract::new("owner.test".to_string());
    contract
        .handle_init(
            "wnear.test".to_string(),
            "usdc.test".to_string(),
            Some(meta("Wrapped NEAR", "wNEAR", 24)),
            Some(metadata),
        )
        .unwrap();
    let info = contract.get_contract_info().unwrap();
    assert_eq!(info.clone(), info);
    assert_eq!(info.clone().token_a_decimals, 24);
}
