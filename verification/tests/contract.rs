use orderly_contract::{
    Contract, ContractInfo, OrderlyContract, PoolError, TokenMetadata, TransferOutcome,
};

const OWNER: &str = "bob";
const TOKEN_A: &str = "token-a.test";
const TOKEN_B: &str = "token-b.test";

fn metadata(name: &str, symbol: &str) -> TokenMetadata {
    TokenMetadata { name: name.to_string(), symbol: symbol.to_string(), decimals: 12 }
}

fn initialize_contracts() -> OrderlyContract {
    OrderlyContract::new(OWNER.to_string())
}

fn contract_init(contract: &mut OrderlyContract) {
    let pending = contract.init(TOKEN_A.to_string(), TOKEN_B.to_string()).unwrap();
    let res = contract.handle_init(
        pending.token_a,
        pending.token_b,
        Some(metadata("TokenA", "TKNA")),
        Some(metadata("TokenB", "TKNB")),
    );
    assert!(res.is_ok());
}

fn info(token_a_supply: u128, token_b_supply: u128) -> ContractInfo {
    ContractInfo {
        token_a_id: TOKEN_A.to_string(),
        token_a_name: "TokenA".to_string(),
        token_a_symbol: "TKNA".to_string(),
        token_a_supply,
        token_a_decimals: 12,
        token_b_id: TOKEN_B.to_string(),
        token_b_name: "TokenB".to_string(),
        token_b_symbol: "TKNB".to_string(),
        token_b_supply,
        token_b_decimals: 12,
    }
}

/// What a ledger does with the pool's answer to a deposit: it hands back what
/// the pool declined, and all of it where the pool failed.
fn transfer_tokens(
    contract: &mut OrderlyContract,
    balance: &mut u128,
    sender: &str,
    token: &str,
    amount: u128,
) -> Result<TransferOutcome, PoolError> {
    let res = contract.ft_on_transfer(sender.to_string(), token.to_string(), amount);
    let refund = match &res {
        Ok(outcome) => outcome.refund,
        Err(_) => amount,
    };
    *balance = *balance - amount + refund;
    res
}

#[test]
fn test_new() {
    let contract = OrderlyContract::new("bob".to_string());
    assert_eq!(contract.owner(), "bob");
    assert_eq!(contract.get_contract_info(), None);
}

#[test]
fn lib_test_new() {
    let contract = Contract::new("bob".to_string());
    assert_eq!(contract.owner(), &"bob".to_string());
}

#[test]
fn test_init() {
    let mut contract = initialize_contracts();

    contract_init(&mut contract);
}

#[test]
fn test_get_contract_info() {
    let mut contract = initialize_contracts();

    contract_init(&mut contract);

    let res = contract.get_contract_info();
    assert_eq!(
        res.unwrap(),
        ContractInfo {
            token_a_id: TOKEN_A.to_string(),
            token_a_name: "TokenA".to_string(),
            token_a_symbol: "TKNA".to_string(),
            token_a_supply: 0,
            token_a_decimals: 12,
            token_b_id: TOKEN_B.to_string(),
            token_b_name: "TokenB".to_string(),
            token_b_symbol: "TKNB".to_string(),
            token_b_supply: 0,
            token_b_decimals: 12
        }
    );
}

#[test]
fn test_get_contract_info_no_init() {
    let contract = initialize_contracts();

    let res = contract.get_contract_info();
    assert_eq!(res, None);
}

#[test]
fn test_deposit_owner() {
    let mut contract = initialize_contracts();

    contract_init(&mut contract);
    let mut balance_a: u128 = 1_000_000;

    let res = transfer_tokens(&mut contract, &mut balance_a, OWNER, TOKEN_A, 1_000);
    assert_eq!(res, Ok(TransferOutcome { refund: 0, payout: None }));

    assert_eq!(balance_a, 999_000);
    let res = contract.get_contract_info();
    assert_eq!(
        res.unwrap(),
        ContractInfo {
            token_a_id: TOKEN_A.to_string(),
            token_a_name: "TokenA".to_string(),
            token_a_symbol: "TKNA".to_string(),
            token_a_supply: 1_000,
            token_a_decimals: 12,
            token_b_id: TOKEN_B.to_string(),
            token_b_name: "TokenB".to_string(),
            token_b_symbol: "TKNB".to_string(),
            token_b_supply: 0,
            token_b_decimals: 12
        }
    );
}

#[test]
fn test_deposit_owner_2() {
    let mut contract = initialize_contracts();

    contract_init(&mut contract);
    let mut balance_a: u128 = 1_000_000;
    let mut balance_b: u128 = 1_000_000;

    transfer_tokens(&mut contract, &mut balance_a, OWNER, TOKEN_A, 1_000).unwrap();
    transfer_tokens(&mut contract, &mut balance_b, OWNER, TOKEN_B, 69_000).unwrap();
    transfer_tokens(&mut contract, &mut balance_b, OWNER, TOKEN_B, 42).unwrap();

    assert_eq!(balance_a, 999_000);
    assert_eq!(balance_b, 1_000_000 - 69_000 - 42);
    let res = contract.get_contract_info();
    assert_eq!(
        res.unwrap(),
        ContractInfo {
            token_a_id: TOKEN_A.to_string(),
            token_a_name: "TokenA".to_string(),
            token_a_symbol: "TKNA".to_string(),
            token_a_supply: 1_000,
            token_a_decimals: 12,
            token_b_id: TOKEN_B.to_string(),
            token_b_name: "TokenB".to_string(),
            token_b_symbol: "TKNB".to_string(),
            token_b_supply: 69_042,
            token_b_decimals: 12
        }
    );
}

#[test]
fn test_deposit_owner_no_init_should_refund() {
    let mut contract = initialize_contracts();
    let mut balance_a: u128 = 1_000_000;

    let res = transfer_tokens(&mut contract, &mut balance_a, OWNER, TOKEN_A, 1_000);
    assert_eq!(res, Err(PoolError::Uninitialized));

    assert_eq!(balance_a, 1_000_000);
    assert_eq!(contract.get_contract_info(), None);
}

#[test]
fn bound_pool_reads_back_with_empty_sides() {
    let mut contract = initialize_contracts();
    contract_init(&mut contract);
    assert_eq!(contract.get_contract_info(), Some(info(0, 0)));
    assert_eq!(contract.owner(), OWNER);
}

#[test]
fn reading_twice_reads_the_same() {
    let mut contract = initialize_contracts();
    assert_eq!(contract.get_contract_info(), contract.get_contract_info());
    contract_init(&mut contract);
    let mut balance: u128 = 5_000;
    transfer_tokens(&mut contract, &mut balance, OWNER, TOKEN_B, 77).unwrap();
    let first = contract.get_contract_info();
    let second = contract.get_contract_info();
    assert_eq!(first, second);
    assert_eq!(first, Some(info(0, 77)));
}
