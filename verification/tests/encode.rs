use ore_miner::accounts::{
    bytes_to_vec, proof_address, token_account_address, ASSOCIATED_TOKEN_PROGRAM_ID, MINT_ADDRESS,
    ORE_PROGRAM_ID, PROOF_SEED, TOKEN_PROGRAM_ID, TREASURY_ADDRESS,
};
use ore_miner::address::Address;
use ore_miner::encode::{encode, encode_all, AccountMeta, EncodedInstruction};
use ore_miner::instruction::Instruction;
use ore_miner::miner::Miner;
use ore_miner::pow::Solution;
use solana_program::pubkey::Pubkey;
use solana_sdk::compute_budget::ComputeBudgetInstruction;

fn identity(n: u8) -> Address {
    Address::new([n; 32])
}

fn key(a: &Address) -> Pubkey {
    Pubkey::new_from_array(a.to_bytes())
}

fn wire(ix: solana_program::instruction::Instruction) -> EncodedInstruction {
    EncodedInstruction {
        program_id: Address::new(ix.program_id.to_bytes()),
        accounts: ix
            .accounts
            .iter()
            .map(|m| AccountMeta {
                address: Address::new(m.pubkey.to_bytes()),
                is_signer: m.is_signer,
                is_writable: m.is_writable,
            })
            .collect(),
        data: ix.data,
    }
}

#[test]
fn addresses_are_those_of_the_programs() {
    assert_eq!(ORE_PROGRAM_ID, ore::id().to_bytes());
    assert_eq!(MINT_ADDRESS, ore::MINT_ADDRESS.to_bytes());
    assert_eq!(TREASURY_ADDRESS, ore::TREASURY_ADDRESS.to_bytes());
    assert_eq!(TOKEN_PROGRAM_ID, spl_token::id().to_bytes());
    assert_eq!(ASSOCIATED_TOKEN_PROGRAM_ID, spl_associated_token_account::id().to_bytes());
    assert_eq!(&PROOF_SEED[..], ore::PROOF);
}

#[test]
fn proof_address_is_the_program_derived_address() {
    for n in [1u8, 2, 77, 255] {
        let id = identity(n);
        let expected = Pubkey::find_program_address(&[ore::PROOF, &[n; 32]], &ore::id()).0;
        assert_eq!(proof_address(&id), Some(Address::new(expected.to_bytes())));
    }
    assert_ne!(proof_address(&identity(1)), proof_address(&identity(2)));
}

#[test]
fn token_account_address_is_the_associated_token_address() {
    for n in [1u8, 9, 200] {
        let owner = identity(n);
        let expected = spl_associated_token_account::get_associated_token_address(
            &key(&owner),
            &ore::MINT_ADDRESS,
        );
        assert_eq!(token_account_address(&owner), Some(Address::new(expected.to_bytes())));
    }
}

#[test]
fn bytes_to_vec_copies() {
    assert_eq!(bytes_to_vec(&[]), Vec::<u8>::new());
    assert_eq!(bytes_to_vec(&[1, 2, 3]), vec![1, 2, 3]);
}

#[test]
fn budget_and_nonce_instructions_are_those_of_the_builders() {
    let nonce_account = identity(40);
    let payer = identity(1);
    assert_eq!(
        encode(&Instruction::AdvanceNonce { nonce_account, authority: payer }),
        Some(vec![wire(solana_program::system_instruction::advance_nonce_account(
            &key(&nonce_account),
            &key(&payer)
        ))])
    );
    assert_eq!(
        encode(&Instruction::SetComputeUnitLimit { units: 6_400 }),
        Some(vec![wire(ComputeBudgetInstruction::set_compute_unit_limit(6_400))])
    );
    assert_eq!(
        encode(&Instruction::SetComputeUnitPrice { micro_lamports: 1_000 }),
        Some(vec![wire(ComputeBudgetInstruction::set_compute_unit_price(1_000))])
    );
    assert_eq!(
        encode(&Instruction::Tip { payer, recipient: identity(3), lamports: 500_000 }),
        Some(vec![wire(solana_program::system_instruction::transfer(
            &key(&payer),
            &key(&identity(3)),
            500_000
        ))])
    );
}

#[test]
fn program_instructions_are_those_of_the_builders() {
    let id = identity(5);
    assert_eq!(
        encode(&Instruction::Register { identity: id }),
        Some(vec![wire(ore::instruction::register(key(&id)))])
    );
    assert_eq!(
        encode(&Instruction::Mine { identity: id, bus: 6, hash: [0xcd; 32], nonce: 0x0102_0304 }),
        Some(vec![wire(ore::instruction::mine(
            key(&id),
            ore::BUS_ADDRESSES[6],
            ore::state::Hash([0xcd; 32]),
            0x0102_0304
        ))])
    );
    assert_eq!(
        encode(&Instruction::Claim { identity: id, beneficiary: identity(8), amount: 735 }),
        Some(vec![wire(ore::instruction::claim(key(&id), key(&identity(8)), 735))])
    );
}

#[test]
fn mine_payload_holds_tag_digest_and_nonce() {
    let encoded = encode(&Instruction::Mine {
        identity: identity(5),
        bus: 0,
        hash: [0xcd; 32],
        nonce: 0x0807_0605_0403_0201,
    })
    .unwrap();
    assert_eq!(encoded.len(), 1);
    assert_eq!(encoded[0].program_id, Address::new(ORE_PROGRAM_ID));
    assert_eq!(encoded[0].data[0], 2);
    assert_eq!(&encoded[0].data[1..33], &[0xcd; 32]);
    assert_eq!(&encoded[0].data[33..41], &[1, 2, 3, 4, 5, 6, 7, 8]);
    assert_eq!(
        encoded[0].accounts[0],
        AccountMeta { address: identity(5), is_signer: true, is_writable: true }
    );
    assert_eq!(encoded[0].accounts[1].address, Address::new(ore::BUS_ADDRESSES[0].to_bytes()));
    assert_eq!(encoded[0].accounts[2].address, proof_address(&identity(5)).unwrap());
}

#[test]
fn mine_to_a_shard_outside_the_pool_has_no_wire_form() {
    let ix = Instruction::Mine { identity: identity(5), bus: 8, hash: [0; 32], nonce: 1 };
    assert_eq!(encode(&ix), None);
    let ok = Instruction::Mine { identity: identity(5), bus: 7, hash: [0; 32], nonce: 1 };
    assert!(encode(&ok).is_some());
    assert_eq!(encode_all(&vec![ok, ix, ok]), None);
}

#[test]
fn account_creations_are_those_of_the_builders() {
    let payer = identity(1);
    let nonce_account = Miner::new("x".to_string(), 1, vec![payer], false).unwrap().nonce_address();
    let expected: Vec<EncodedInstruction> =
        solana_program::system_instruction::create_nonce_account_with_seed(
            &key(&payer),
            &key(&nonce_account),
            &key(&payer),
            "nonce",
            &key(&payer),
            1_447_680,
        )
        .into_iter()
        .map(wire)
        .collect();
    assert_eq!(expected.len(), 2);
    assert_eq!(
        encode(&Instruction::CreateNonceAccount { payer, nonce_account, lamports: 1_447_680 }),
        Some(expected)
    );
    assert_eq!(
        encode(&Instruction::CreateTokenAccount { payer, owner: payer }),
        Some(vec![wire(
            spl_associated_token_account::instruction::create_associated_token_account(
                &key(&payer),
                &key(&payer),
                &ore::MINT_ADDRESS,
                &spl_token::id(),
            )
        )])
    );
}

#[test]
fn a_request_is_encoded_in_order() {
    let m = Miner::new("x".to_string(), 10, vec![identity(1), identity(2)], true).unwrap();
    let solutions =
        vec![Solution { hash: [1; 32], nonce: 11 }, Solution { hash: [2; 32], nonce: 22 }];
    let request = m.mine_request(&solutions, 4);
    let encoded = encode_all(&request.instructions).unwrap();
    let mut expected = vec![];
    for ix in request.instructions.iter() {
        expected.extend(encode(ix).unwrap());
    }
    assert_eq!(encoded, expected);
    assert_eq!(encoded.len(), 6);
    assert_eq!(
        encoded[0],
        wire(solana_program::system_instruction::advance_nonce_account(
            &key(&m.nonce_address()),
            &key(&identity(1))
        ))
    );
    assert_eq!(encoded[1], wire(ComputeBudgetInstruction::set_compute_unit_limit(6_400)));
    assert_eq!(encoded[2], wire(ComputeBudgetInstruction::set_compute_unit_price(1_000)));
    assert_eq!(
        encoded[4],
        wire(ore::instruction::mine(
            key(&identity(2)),
            ore::BUS_ADDRESSES[4],
            ore::state::Hash([2; 32]),
            22
        ))
    );
    assert_eq!(
        encoded[5],
        wire(solana_program::system_instruction::transfer(
            &key(&identity(1)),
            &Pubkey::new_from_array(ore_miner::instruction::TIP_ADDRESS),
            500_000
        ))
    );
    assert_eq!(encode_all(&vec![]), Some(vec![]));
}
