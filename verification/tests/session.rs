use ore_miner::address::Address;
use ore_miner::bootstrap::{Bootstrap, BootstrapAction, BootstrapPhase};
use ore_miner::instruction::{
    Instruction, Operation, CU_LIMIT_ATA, CU_LIMIT_CLAIM, CU_LIMIT_MINE, CU_LIMIT_REGISTER,
    RELAY_PRIORITY_FEE, TIP_ADDRESS, TIP_LAMPORTS,
};
use ore_miner::miner::{ClaimPlan, Miner, Strategy, SubmissionRequest, MAX_SIGNERS};
use ore_miner::nonce::{nonce_address, NONCE_ACCOUNT_SPACE};
use ore_miner::pow::Solution;
use solana_program::pubkey::Pubkey;
use std::str::FromStr;

fn identity(n: u8) -> Address {
    Address::new([n; 32])
}

fn session(count: u8, relay: bool) -> Miner {
    let signers: Vec<Address> = (1..=count).map(identity).collect();
    Miner::new("https://rpc.example".to_string(), 10, signers, relay).unwrap()
}

fn expected_nonce_account(payer: &Address) -> Address {
    let key = Pubkey::create_with_seed(
        &Pubkey::new_from_array(payer.to_bytes()),
        "nonce",
        &solana_program::system_program::ID,
    )
    .unwrap();
    Address::new(key.to_bytes())
}

fn advance(payer: &Address) -> Instruction {
    Instruction::AdvanceNonce { nonce_account: expected_nonce_account(payer), authority: *payer }
}

#[test]
fn tip_address_is_the_relay_tip_account() {
    let key = Pubkey::from_str("ADuUkR4vqLUMWXxW9gh6D6L8pMSawimctcNZ5pGwDcEt").unwrap();
    assert_eq!(TIP_ADDRESS, key.to_bytes());
    assert_eq!(TIP_LAMPORTS, 500_000);
    assert_eq!(RELAY_PRIORITY_FEE, 1_000);
}

#[test]
fn unit_limits_per_operation() {
    assert_eq!(Operation::Register.unit_limit(), CU_LIMIT_REGISTER);
    assert_eq!(Operation::Mine.unit_limit(), CU_LIMIT_MINE);
    assert_eq!(Operation::Claim.unit_limit(), CU_LIMIT_CLAIM);
    assert_eq!(Operation::CreateTokenAccount.unit_limit(), CU_LIMIT_ATA);
    assert_eq!(
        [CU_LIMIT_REGISTER, CU_LIMIT_MINE, CU_LIMIT_CLAIM, CU_LIMIT_ATA],
        [7_660, 3_200, 11_000, 24_000]
    );
}

#[test]
fn session_needs_between_one_and_the_most_signers() {
    assert!(Miner::new("x".to_string(), 1, vec![], false).is_none());
    assert!(Miner::new("x".to_string(), 1, vec![identity(1)], false).is_some());
    assert!(Miner::new("x".to_string(), 1, vec![identity(1); MAX_SIGNERS], true).is_some());
    assert!(Miner::new("x".to_string(), 1, vec![identity(1); MAX_SIGNERS + 1], true).is_none());
}

#[test]
fn session_hands_back_what_it_was_given() {
    let m = Miner::new("https://rpc.example".to_string(), 77, vec![identity(4), identity(5)], true)
        .unwrap();
    assert_eq!(m.signers(), &vec![identity(4), identity(5)]);
    assert_eq!(m.payer(), identity(4));
    assert_eq!(m.priority_fee(), 77);
    assert_eq!(m.cluster(), "https://rpc.example");
    assert!(m.has_relay());
    assert!(!session(1, false).has_relay());
}

#[test]
fn strategy_follows_credential_and_suppression() {
    assert_eq!(session(1, true).strategy(false), Strategy::BundleRelay);
    assert_eq!(session(1, true).strategy(true), Strategy::DirectPoll);
    assert_eq!(session(1, false).strategy(false), Strategy::DirectPoll);
    assert_eq!(session(1, false).strategy(true), Strategy::DirectPoll);
    assert_eq!(session(1, true).unit_price(Strategy::BundleRelay), 1_000);
    assert_eq!(session(1, true).unit_price(Strategy::DirectPoll), 10);
}

#[test]
fn nonce_address_is_derived_with_the_seed_nonce() {
    for n in [0u8, 1, 200, 255] {
        let payer = identity(n);
        assert_eq!(nonce_address(&payer), expected_nonce_account(&payer));
        assert_ne!(nonce_address(&payer), payer);
    }
    assert_ne!(nonce_address(&identity(1)), nonce_address(&identity(2)));
    assert_eq!(NONCE_ACCOUNT_SPACE, 80);
}

#[test]
fn get_or_create_returns_one_address_and_creates_once() {
    let m = session(3, false);
    let first = m.get_or_create_nonce_acct(false);
    assert!(first.missing);
    assert_eq!(first.address, expected_nonce_account(&identity(1)));
    let (creation, delivery, begin) = m.create_nonce_account(1_447_680);
    assert_eq!(
        creation,
        vec![Instruction::CreateNonceAccount {
            payer: identity(1),
            nonce_account: first.address,
            lamports: 1_447_680,
        }]
    );
    assert_eq!(
        delivery,
        Bootstrap { skip_confirm: false, phase: BootstrapPhase::CheckingBalance }
    );
    assert_eq!(begin, BootstrapAction::ReadBalance);
    let mut creations = 1;
    for _ in 0..5 {
        let again = m.get_or_create_nonce_acct(true);
        assert_eq!(again.address, first.address);
        if again.missing {
            creations += 1;
        }
    }
    assert_eq!(creations, 1);
    assert_eq!(m.nonce_address(), first.address);
}

#[test]
fn cosigners_add_the_payer_where_it_is_missing() {
    let m = session(4, false);
    assert_eq!(m.cosigners(None), vec![0, 1, 2, 3]);
    assert_eq!(m.cosigners(Some(&vec![2, 3])), vec![2, 3, 0]);
    assert_eq!(m.cosigners(Some(&vec![1, 0, 3])), vec![1, 0, 3]);
    assert_eq!(m.cosigners(Some(&vec![0])), vec![0]);
    assert_eq!(m.cosigners(Some(&vec![])), vec![0]);
    assert_eq!(session(1, false).cosigners(None), vec![0]);
}

#[test]
fn built_request_has_nonce_budget_domain_and_tip_in_order() {
    let m = session(2, true);
    let domain = vec![
        Instruction::Register { identity: identity(1) },
        Instruction::Register { identity: identity(2) },
    ];
    let relayed = m.build_request(Operation::Register, &domain, None, false);
    assert_eq!(
        relayed,
        SubmissionRequest {
            instructions: vec![
                advance(&identity(1)),
                Instruction::SetComputeUnitLimit { units: 2 * 7_660 },
                Instruction::SetComputeUnitPrice { micro_lamports: 1_000 },
                Instruction::Register { identity: identity(1) },
                Instruction::Register { identity: identity(2) },
                Instruction::Tip {
                    payer: identity(1),
                    recipient: Address::new(TIP_ADDRESS),
                    lamports: 500_000,
                },
            ],
            signers: vec![0, 1],
            strategy: Strategy::BundleRelay,
        }
    );
    let direct = m.build_request(Operation::Register, &domain, Some(&vec![1]), true);
    assert_eq!(
        direct,
        SubmissionRequest {
            instructions: vec![
                advance(&identity(1)),
                Instruction::SetComputeUnitLimit { units: 15_320 },
                Instruction::SetComputeUnitPrice { micro_lamports: 10 },
                Instruction::Register { identity: identity(1) },
                Instruction::Register { identity: identity(2) },
            ],
            signers: vec![1, 0],
            strategy: Strategy::DirectPoll,
        }
    );
}

#[test]
fn built_request_with_no_domain_instruction() {
    let m = session(1, false);
    let empty = m.build_request(Operation::Claim, &vec![], Some(&vec![0]), false);
    assert_eq!(
        empty.instructions,
        vec![
            advance(&identity(1)),
            Instruction::SetComputeUnitLimit { units: 0 },
            Instruction::SetComputeUnitPrice { micro_lamports: 10 },
        ]
    );
    assert_eq!(empty.signers, vec![0]);
}

#[test]
fn register_with_three_signers_two_registered() {
    let m = session(3, false);
    let request = m.register(&vec![true, true, false]).unwrap();
    let registrations: Vec<&Instruction> = request
        .instructions
        .iter()
        .filter(|ix| matches!(ix, Instruction::Register { .. }))
        .collect();
    assert_eq!(registrations, vec![&Instruction::Register { identity: identity(3) }]);
    assert_eq!(
        request.instructions,
        vec![
            advance(&identity(1)),
            Instruction::SetComputeUnitLimit { units: 7_660 },
            Instruction::SetComputeUnitPrice { micro_lamports: 10 },
            Instruction::Register { identity: identity(3) },
        ]
    );
    assert_eq!(request.signers, vec![2, 0]);
    assert_eq!(request.strategy, Strategy::DirectPoll);
}

#[test]
fn register_when_everyone_is_registered_sends_nothing() {
    assert_eq!(session(3, false).register(&vec![true, true, true]), None);
    assert_eq!(session(1, true).register(&vec![true]), None);
}

#[test]
fn register_when_nobody_is_registered() {
    let m = session(3, true);
    let request = m.register(&vec![false, false, false]).unwrap();
    assert_eq!(request.signers, vec![0, 1, 2]);
    assert_eq!(request.strategy, Strategy::BundleRelay);
    assert_eq!(request.instructions.len(), 7);
    assert_eq!(request.instructions[1], Instruction::SetComputeUnitLimit { units: 3 * 7_660 });
    assert_eq!(
        request.instructions[2],
        Instruction::SetComputeUnitPrice { micro_lamports: 1_000 }
    );
    for i in 0..3u8 {
        assert_eq!(
            request.instructions[3 + i as usize],
            Instruction::Register { identity: identity(i + 1) }
        );
    }
    assert!(matches!(request.instructions[6], Instruction::Tip { .. }));
}

#[test]
fn claim_with_nothing_claimable_is_a_no_op() {
    assert_eq!(session(3, false).claim(identity(50), &vec![0, 0, 0]), ClaimPlan::NoRewardsToClaim);
    assert_eq!(session(1, true).claim(identity(50), &vec![0]), ClaimPlan::NoRewardsToClaim);
}

#[test]
fn claim_batches_the_identities_with_rewards() {
    let m = session(4, false);
    let plan = m.claim(identity(50), &vec![0, 700, 0, 35]);
    match plan {
        ClaimPlan::Submit { request, total } => {
            assert_eq!(total, 735);
            assert_eq!(
                request.instructions,
                vec![
                    advance(&identity(1)),
                    Instruction::SetComputeUnitLimit { units: 22_000 },
                    Instruction::SetComputeUnitPrice { micro_lamports: 10 },
                    Instruction::Claim {
                        identity: identity(2),
                        beneficiary: identity(50),
                        amount: 700,
                    },
                    Instruction::Claim {
                        identity: identity(4),
                        beneficiary: identity(50),
                        amount: 35,
                    },
                ]
            );
            assert_eq!(request.signers, vec![1, 3, 0]);
            assert_eq!(request.strategy, Strategy::DirectPoll);
        }
        ClaimPlan::NoRewardsToClaim => panic!("there are rewards to claim"),
    }
}

#[test]
fn claim_total_does_not_overflow() {
    let m = session(3, true);
    match m.claim(identity(9), &vec![u64::MAX, u64::MAX, 1]) {
        ClaimPlan::Submit { request, total } => {
            assert_eq!(total, 2 * (u64::MAX as u128) + 1);
            assert_eq!(request.signers, vec![0, 1, 2]);
            assert_eq!(request.strategy, Strategy::BundleRelay);
            assert_eq!(request.instructions.len(), 7);
        }
        ClaimPlan::NoRewardsToClaim => panic!("there are rewards to claim"),
    }
}

#[test]
fn mine_request_carries_one_digest_per_signer() {
    let m = session(2, false);
    let solutions =
        vec![Solution { hash: [1; 32], nonce: 11 }, Solution { hash: [2; 32], nonce: 22 }];
    let request = m.mine_request(&solutions, 6);
    assert_eq!(
        request,
        SubmissionRequest {
            instructions: vec![
                advance(&identity(1)),
                Instruction::SetComputeUnitLimit { units: 6_400 },
                Instruction::SetComputeUnitPrice { micro_lamports: 10 },
                Instruction::Mine { identity: identity(1), bus: 6, hash: [1; 32], nonce: 11 },
                Instruction::Mine { identity: identity(2), bus: 6, hash: [2; 32], nonce: 22 },
            ],
            signers: vec![0, 1],
            strategy: Strategy::DirectPoll,
        }
    );
}

#[test]
fn token_account_is_created_only_where_missing() {
    let m = session(2, true);
    assert_eq!(m.initialize_ata(true), None);
    let request = m.initialize_ata(false).unwrap();
    assert_eq!(
        request,
        SubmissionRequest {
            instructions: vec![
                advance(&identity(1)),
                Instruction::SetComputeUnitLimit { units: 24_000 },
                Instruction::SetComputeUnitPrice { micro_lamports: 10 },
                Instruction::CreateTokenAccount { payer: identity(1), owner: identity(1) },
            ],
            signers: vec![0],
            strategy: Strategy::DirectPoll,
        }
    );
}

#[test]
fn addresses_compare_by_their_bytes() {
    assert!(identity(3).same_as(&Address::new([3; 32])));
    assert!(!identity(3).same_as(&identity(4)));
    assert_eq!(identity(3).to_bytes(), [3u8; 32]);
}
