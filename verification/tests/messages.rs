use contract_demo::{
    answers, ContractDemo, ContractTokenInfo, CreateClassFromContract, Event, HostCall, HostReply,
    HostResult, NFTMartErr, Originator, Output, RandomUpdated, Receipt, Step, TokenData,
};
use ink_env::AccountId;

/// A host that answers the requests it gets from a script, and keeps what it was asked.
struct Host {
    script: Vec<HostResult>,
    asked: Vec<HostCall>,
}

impl Host {
    fn new(script: Vec<HostResult>) -> Self {
        Host { script, asked: Vec::new() }
    }

    fn perform(&mut self, call: &HostCall) -> HostResult {
        self.asked.push(call.clone());
        self.script.remove(0)
    }
}

/// Runs a message to its end against `host`.
fn drive(contract: &mut ContractDemo, host: &mut Host, first: Step) -> Receipt {
    let mut step = first;
    loop {
        match step {
            Step::Ask(pending) => {
                let result = host.perform(pending.call());
                assert!(answers(pending.call().operation(), &result));
                step = contract.resume(pending, result);
            }
            Step::Done(receipt) => return receipt,
        }
    }
}

fn account(byte: u8) -> AccountId {
    AccountId::from([byte; 32])
}

fn failure(code: u32) -> NFTMartErr {
    NFTMartErr { code }
}

#[test]
fn new_works() {
    let _contract = ContractDemo::new();
}

#[test]
fn fresh_contract_holds_zero_seed() {
    let contract = ContractDemo::new();
    assert_eq!(contract.get(), [0u8; 32]);
}

#[test]
fn update_stores_and_announces_the_seed() {
    let mut contract = ContractDemo::new();
    let mut host = Host::new(vec![Ok(HostReply::Random([0xAB; 32]))]);
    let first = contract.update();
    let receipt = drive(&mut contract, &mut host, first);
    assert_eq!(contract.get(), [0xAB; 32]);
    assert_eq!(receipt.events, vec![Event::RandomUpdated(RandomUpdated { new: [0xAB; 32] })]);
    assert_eq!(receipt.output, Output::Status(Ok(())));
    assert_eq!(host.asked, vec![HostCall::FetchRandom]);
}

#[test]
fn second_update_replaces_the_seed() {
    let mut contract = ContractDemo::new();
    let mut host =
        Host::new(vec![Ok(HostReply::Random([1; 32])), Ok(HostReply::Random([2; 32]))]);
    let first = contract.update();
    drive(&mut contract, &mut host, first);
    assert_eq!(contract.get(), [1; 32]);
    let first = contract.update();
    let receipt = drive(&mut contract, &mut host, first);
    assert_eq!(contract.get(), [2; 32]);
    assert_eq!(receipt.events, vec![Event::RandomUpdated(RandomUpdated { new: [2; 32] })]);
}

#[test]
fn failed_update_keeps_the_seed_and_is_silent() {
    let mut contract = ContractDemo::new();
    let mut host = Host::new(vec![Ok(HostReply::Random([7; 32])), Err(failure(4))]);
    let first = contract.update();
    drive(&mut contract, &mut host, first);
    let first = contract.update();
    let receipt = drive(&mut contract, &mut host, first);
    assert_eq!(contract.get(), [7; 32]);
    assert_eq!(receipt.events, vec![]);
    assert_eq!(receipt.output, Output::Status(Err(failure(4))));
}

#[test]
fn create_class_by_caller_announces_the_class() {
    let mut contract = ContractDemo::new();
    let mut host =
        Host::new(vec![Ok(HostReply::ClassCreated { owner: account(0xA1), class_id: 7 })]);
    let first =
        contract.create_class_by_caller(b"ipfs://x".to_vec(), b"C".to_vec(), b"d".to_vec(), 0);
    let receipt = drive(&mut contract, &mut host, first);
    assert_eq!(receipt.output, Output::Status(Ok(())));
    assert_eq!(
        receipt.events,
        vec![Event::CreateClassFromContract(CreateClassFromContract {
            owner: account(0xA1),
            class_id: 7
        })]
    );
    assert_eq!(
        host.asked,
        vec![HostCall::CreateClass {
            originator: Originator::Caller,
            metadata: b"ipfs://x".to_vec(),
            name: b"C".to_vec(),
            description: b"d".to_vec(),
            properties: 0,
        }]
    );
    assert_eq!(contract.get(), [0u8; 32]);
}

#[test]
fn create_class_names_the_creator() {
    let mut contract = ContractDemo::new();
    let mut host =
        Host::new(vec![Ok(HostReply::ClassCreated { owner: account(3), class_id: 12 })]);
    let first =
        contract.create_class(account(9), b"m".to_vec(), b"n".to_vec(), b"text".to_vec(), 0b101);
    let receipt = drive(&mut contract, &mut host, first);
    assert_eq!(
        host.asked,
        vec![HostCall::CreateClass {
            originator: Originator::Account(account(9)),
            metadata: b"m".to_vec(),
            name: b"n".to_vec(),
            description: b"text".to_vec(),
            properties: 0b101,
        }]
    );
    assert_eq!(
        receipt.events,
        vec![Event::CreateClassFromContract(CreateClassFromContract {
            owner: account(3),
            class_id: 12
        })]
    );
}

#[test]
fn create_class_by_contract_names_the_contract() {
    let mut contract = ContractDemo::new();
    let mut host =
        Host::new(vec![Ok(HostReply::ClassCreated { owner: account(5), class_id: 1 })]);
    let first = contract.create_class_by_contract(vec![], vec![], vec![], 255);
    let receipt = drive(&mut contract, &mut host, first);
    assert_eq!(
        host.asked,
        vec![HostCall::CreateClass {
            originator: Originator::Contract,
            metadata: vec![],
            name: vec![],
            description: vec![],
            properties: 255,
        }]
    );
    assert_eq!(receipt.events.len(), 1);
    assert_eq!(receipt.output, Output::Status(Ok(())));
}

#[test]
fn failed_class_creation_hands_the_error_back() {
    for code in [1u32, 2, 77, u32::MAX] {
        let mut contract = ContractDemo::new();
        let mut host = Host::new(vec![Err(failure(code))]);
        let first = contract.create_class(account(1), vec![1], vec![2], vec![3], 0);
        let receipt = drive(&mut contract, &mut host, first);
        assert_eq!(receipt.output, Output::Status(Err(failure(code))));
        assert_eq!(receipt.events, vec![]);
        assert_eq!(contract.get(), [0u8; 32]);
    }
}

#[test]
fn mint_by_contract_succeeds_without_event() {
    let mut contract = ContractDemo::new();
    let mut host = Host::new(vec![Ok(HostReply::Minted {
        class_owner: account(1),
        beneficiary: account(0xA2),
        class_id: 3,
        token_id: 0,
        quantity: 100,
    })]);
    let first = contract.mint_nft_by_contract(account(0xA2), 3, b"m".to_vec(), 100, Some(true));
    let receipt = drive(&mut contract, &mut host, first);
    assert_eq!(receipt.output, Output::Status(Ok(())));
    assert_eq!(receipt.events, vec![]);
    assert_eq!(
        host.asked,
        vec![HostCall::ProxyMint {
            originator: Originator::Contract,
            to: account(0xA2),
            class_id: 3,
            metadata: b"m".to_vec(),
            quantity: 100,
            charge_royalty: Some(true),
        }]
    );
}

#[test]
fn mint_variants_differ_in_the_originator_alone() {
    let contract = ContractDemo::new();
    let by_account = contract.mint_nft(account(8), account(2), 3, vec![4], 5, None);
    let by_caller = contract.mint_nft_by_caller(account(2), 3, vec![4], 5, None);
    let by_contract = contract.mint_nft_by_contract(account(2), 3, vec![4], 5, None);
    let mut seen = Vec::new();
    for step in [by_account, by_caller, by_contract] {
        match step {
            Step::Ask(pending) => match pending.call() {
                HostCall::ProxyMint { originator, to, class_id, metadata, quantity, charge_royalty } => {
                    assert_eq!(*to, account(2));
                    assert_eq!(*class_id, 3);
                    assert_eq!(*metadata, vec![4]);
                    assert_eq!(*quantity, 5);
                    assert_eq!(*charge_royalty, None);
                    seen.push(*originator);
                }
                other => panic!("asked for {:?}", other),
            },
            Step::Done(_) => panic!("ended without the host"),
        }
    }
    assert_eq!(seen, vec![Originator::Account(account(8)), Originator::Caller, Originator::Contract]);
}

#[test]
fn failed_mint_hands_the_error_back() {
    let mut contract = ContractDemo::new();
    let mut host = Host::new(vec![Err(failure(3))]);
    let first = contract.mint_nft_by_caller(account(2), 3, vec![], 1, Some(false));
    let receipt = drive(&mut contract, &mut host, first);
    assert_eq!(receipt.output, Output::Status(Err(failure(3))));
    assert_eq!(receipt.events, vec![]);
}

#[test]
fn transfer_asks_once() {
    let mut contract = ContractDemo::new();
    let mut host = Host::new(vec![Ok(HostReply::Transferred)]);
    let first = contract.transfer(account(4), 1, 2, 3);
    let receipt = drive(&mut contract, &mut host, first);
    assert_eq!(receipt.output, Output::Status(Ok(())));
    assert_eq!(receipt.events, vec![]);
    assert_eq!(
        host.asked,
        vec![HostCall::Transfer { to: account(4), class_id: 1, token_id: 2, quantity: 3 }]
    );
}

#[test]
fn transfer_all_stops_at_the_first_failure() {
    let mut contract = ContractDemo::new();
    let mut host =
        Host::new(vec![Ok(HostReply::Transferred), Err(failure(6)), Ok(HostReply::Transferred)]);
    let first = contract.transfer_all(account(0xA2), vec![(1, 10, 5), (1, 11, 3), (1, 12, 9)]);
    let receipt = drive(&mut contract, &mut host, first);
    assert_eq!(receipt.output, Output::Status(Err(failure(6))));
    assert_eq!(receipt.events, vec![]);
    assert_eq!(
        host.asked,
        vec![
            HostCall::Transfer { to: account(0xA2), class_id: 1, token_id: 10, quantity: 5 },
            HostCall::Transfer { to: account(0xA2), class_id: 1, token_id: 11, quantity: 3 },
        ]
    );
    assert_eq!(host.script.len(), 1);
}

#[test]
fn transfer_all_moves_every_item_in_order() {
    let mut contract = ContractDemo::new();
    let mut host = Host::new(vec![
        Ok(HostReply::Transferred),
        Ok(HostReply::Transferred),
        Ok(HostReply::Transferred),
    ]);
    let first = contract.transfer_all(account(1), vec![(9, 8, 7), (6, 5, 4), (3, 2, 1)]);
    let receipt = drive(&mut contract, &mut host, first);
    assert_eq!(receipt.output, Output::Status(Ok(())));
    assert_eq!(
        host.asked,
        vec![
            HostCall::Transfer { to: account(1), class_id: 9, token_id: 8, quantity: 7 },
            HostCall::Transfer { to: account(1), class_id: 6, token_id: 5, quantity: 4 },
            HostCall::Transfer { to: account(1), class_id: 3, token_id: 2, quantity: 1 },
        ]
    );
}

#[test]
fn transfer_all_of_nothing_never_asks() {
    let contract = ContractDemo::new();
    match contract.transfer_all(account(1), vec![]) {
        Step::Done(receipt) => {
            assert_eq!(receipt.output, Output::Status(Ok(())));
            assert_eq!(receipt.events, vec![]);
        }
        Step::Ask(pending) => panic!("asked for {:?}", pending.call()),
    }
}

#[test]
fn transfer_all_failing_at_once_asks_once() {
    let mut contract = ContractDemo::new();
    let mut host = Host::new(vec![Err(failure(2))]);
    let first = contract.transfer_all(account(1), vec![(1, 1, 1), (2, 2, 2)]);
    let receipt = drive(&mut contract, &mut host, first);
    assert_eq!(receipt.output, Output::Status(Err(failure(2))));
    assert_eq!(host.asked.len(), 1);
}

#[test]
fn tokens_of_a_missing_token_are_empty() {
    let mut contract = ContractDemo::new();
    let mut host = Host::new(vec![Ok(HostReply::Tokens(None))]);
    let first = contract.tokens(42, 1);
    let receipt = drive(&mut contract, &mut host, first);
    assert_eq!(receipt.output, Output::Tokens(b"".to_vec(), 0, 0));
    assert_eq!(receipt.events, vec![]);
    assert_eq!(host.asked, vec![HostCall::Tokens { class_id: 42, token_id: 1 }]);
}

#[test]
fn tokens_projects_the_record() {
    let mut contract = ContractDemo::new();
    let info = ContractTokenInfo {
        metadata: vec![0, 255, 7, 7],
        quantity: u64::MAX,
        data: TokenData { create_block: 123_456 },
    };
    let mut host = Host::new(vec![Ok(HostReply::Tokens(Some(info)))]);
    let first = contract.tokens(1, 2);
    let receipt = drive(&mut contract, &mut host, first);
    assert_eq!(receipt.output, Output::Tokens(vec![0, 255, 7, 7], u64::MAX, 123_456));
    assert_eq!(contract.get(), [0u8; 32]);
}

#[test]
fn tokens_swallows_a_host_failure() {
    let mut contract = ContractDemo::new();
    let mut host = Host::new(vec![Err(failure(1))]);
    let first = contract.tokens(1, 2);
    let receipt = drive(&mut contract, &mut host, first);
    assert_eq!(receipt.output, Output::Tokens(vec![], 0, 0));
    assert_eq!(receipt.events, vec![]);
}

#[test]
fn messages_other_than_update_keep_the_seed() {
    let mut contract = ContractDemo::new();
    let mut host = Host::new(vec![
        Ok(HostReply::Random([9; 32])),
        Ok(HostReply::Transferred),
        Ok(HostReply::ClassCreated { owner: account(1), class_id: 1 }),
        Ok(HostReply::Tokens(None)),
    ]);
    let first = contract.update();
    drive(&mut contract, &mut host, first);
    let first = contract.transfer(account(1), 1, 1, 1);
    drive(&mut contract, &mut host, first);
    let first = contract.create_class_by_caller(vec![], vec![], vec![], 0);
    drive(&mut contract, &mut host, first);
    let first = contract.tokens(1, 1);
    drive(&mut contract, &mut host, first);
    assert_eq!(contract.get(), [9; 32]);
}
