//! The mining session: who signs, what is paid for priority, and how the
//! session's transactions are put together.

use crate::address::Address;
use crate::instruction::{
    Instruction, Operation, CU_LIMIT_ATA, RELAY_PRIORITY_FEE, TIP_ADDRESS, TIP_LAMPORTS,
};
use crate::nonce::{nonce_address, nonce_address_of};
use crate::pow::Solution;
use crate::records::valid_bus_id;
use vstd::prelude::*;

verus! {

/// Most identities that one session may hold. All of them sign the mining
/// transaction, and a transaction counts its signatures in one byte.
pub const MAX_SIGNERS: usize = 255;

/// How a signed transaction is delivered.
#[derive(Clone, Copy, Debug, PartialEq, Eq)]
pub enum Strategy {
    /// Broadcast to the network endpoint and poll for the signature.
    DirectPoll,
    /// Hand to the block-building relay as a bundle of one.
    BundleRelay,
}

/// A transaction to deliver: its instructions in order, the session's signers
/// that sign it (by their place in the session), and the way of delivery.
#[derive(Clone, Debug, PartialEq, Eq)]
pub struct SubmissionRequest {
    pub instructions: Vec<Instruction>,
    pub signers: Vec<usize>,
    pub strategy: Strategy,
}

/// A mining session. The first signer pays for every transaction.
pub struct Miner {
    signers: Vec<Address>,
    priority_fee: u64,
    cluster: String,
    relay: bool,
}

/// What a session holds.
pub struct MinerView {
    pub signers: Seq<Address>,
    pub priority_fee: u64,
    pub cluster: Seq<char>,
    pub relay: bool,
}

impl View for Miner {
    type V = MinerView;

    closed spec fn view(&self) -> MinerView {
        MinerView {
            signers: self.signers@,
            priority_fee: self.priority_fee,
            cluster: self.cluster@,
            relay: self.relay,
        }
    }
}

impl MinerView {
    /// The identity that pays.
    pub open spec fn payer(&self) -> Address {
        self.signers[0]
    }

    /// The way of delivery of a transaction: the relay where the session has
    /// one and the call does not rule it out.
    pub open spec fn strategy(&self, no_relay: bool) -> Strategy {
        if self.relay && !no_relay {
            Strategy::BundleRelay
        } else {
            Strategy::DirectPoll
        }
    }

    /// The price per compute unit under `strategy`: the session's fee, or the
    /// relay's fixed price.
    pub open spec fn unit_price(&self, strategy: Strategy) -> u64 {
        match strategy {
            Strategy::BundleRelay => RELAY_PRIORITY_FEE,
            Strategy::DirectPoll => self.priority_fee,
        }
    }

    /// The signers of a transaction: the named ones in the order given,
    /// followed by the payer unless it is among them; all of the session
    /// where none are named.
    pub open spec fn cosigners(&self, named: Option<Seq<usize>>) -> Seq<usize> {
        match named {
            Some(indexes) => if indexes.contains(0) {
                indexes
            } else {
                indexes.push(0)
            },
            None => Seq::new(self.signers.len(), |i: int| i as usize),
        }
    }

    /// The compute budget of a transaction: the limit for `batched`
    /// identities, then the price per unit.
    pub open spec fn budget(&self, op: Operation, batched: nat, strategy: Strategy) -> Seq<
        Instruction,
    > {
        seq![
            Instruction::SetComputeUnitLimit { units: (batched * op.spec_unit_limit()) as u32 },
            Instruction::SetComputeUnitPrice { micro_lamports: self.unit_price(strategy) },
        ]
    }

    /// What closes a transaction: the relay's tip, on the relay path only.
    pub open spec fn tip(&self, strategy: Strategy) -> Seq<Instruction> {
        match strategy {
            Strategy::BundleRelay => seq![
                Instruction::Tip {
                    payer: self.payer(),
                    recipient: Address { bytes: TIP_ADDRESS },
                    lamports: TIP_LAMPORTS,
                },
            ],
            Strategy::DirectPoll => seq![],
        }
    }

    /// Whether `ix` advances the payer's nonce account on the payer's
    /// authority.
    pub open spec fn advances_nonce(&self, ix: Instruction) -> bool {
        ix matches Instruction::AdvanceNonce { nonce_account, authority } && nonce_account@
            == nonce_address_of(self.payer()@) && authority == self.payer()
    }

    /// Whether `instructions` is the transaction built around `domain`: the
    /// nonce advance first, then the compute budget, the domain instructions
    /// in their order, and the tip where the relay is used.
    pub open spec fn wraps(
        &self,
        instructions: Seq<Instruction>,
        op: Operation,
        domain: Seq<Instruction>,
        strategy: Strategy,
    ) -> bool {
        &&& instructions.len() == 3 + domain.len() + self.tip(strategy).len()
        &&& self.advances_nonce(instructions[0])
        &&& instructions.subrange(1, instructions.len() as int) == self.budget(
            op,
            domain.len(),
            strategy,
        ) + domain + self.tip(strategy)
    }

    /// Whether `request` is the transaction built around `domain` for its
    /// strategy, signed by `named`.
    pub open spec fn builds(
        &self,
        request: SubmissionRequest,
        op: Operation,
        domain: Seq<Instruction>,
        named: Option<Seq<usize>>,
        no_relay: bool,
    ) -> bool {
        &&& request.strategy == self.strategy(no_relay)
        &&& self.wraps(request.instructions@, op, domain, request.strategy)
        &&& request.signers@ == self.cosigners(named)
    }
}

/// The places of the identities that have yet to register, in ascending
/// order, where `registered[i]` tells whether the identity at place `i` has a
/// proof record.
pub open spec fn unregistered(registered: Seq<bool>) -> Seq<usize>
    decreases registered.len(),
{
    if registered.len() == 0 {
        seq![]
    } else {
        let earlier = unregistered(registered.drop_last());
        if registered.last() {
            earlier
        } else {
            earlier.push((registered.len() - 1) as usize)
        }
    }
}

/// The places of the identities with something to claim, in ascending order,
/// where `rewards[i]` is the claimable reward of the identity at place `i`.
pub open spec fn rewarded(rewards: Seq<u64>) -> Seq<usize>
    decreases rewards.len(),
{
    if rewards.len() == 0 {
        seq![]
    } else {
        let earlier = rewarded(rewards.drop_last());
        if rewards.last() == 0 {
            earlier
        } else {
            earlier.push((rewards.len() - 1) as usize)
        }
    }
}

/// The sum of the rewards.
pub open spec fn total_rewards(rewards: Seq<u64>) -> nat
    decreases rewards.len(),
{
    if rewards.len() == 0 {
        0
    } else {
        total_rewards(rewards.drop_last()) + rewards.last() as nat
    }
}

/// Every place listed by `unregistered` lies inside `registered`, and there
/// are no more places than identities.
pub proof fn lemma_unregistered_in_range(registered: Seq<bool>)
    requires
        registered.len() <= usize::MAX,
    ensures
        unregistered(registered).len() <= registered.len(),
        forall|k: int|
            0 <= k < unregistered(registered).len() ==> (#[trigger] unregistered(registered)[k])
                < registered.len() && !registered[unregistered(registered)[k] as int],
    decreases registered.len(),
{
    if registered.len() > 0 {
        let earlier = registered.drop_last();
        lemma_unregistered_in_range(earlier);
        let places = unregistered(registered);
        assert forall|k: int| 0 <= k < places.len() implies (#[trigger] places[k])
            < registered.len() && !registered[places[k] as int] by {
            if k < unregistered(earlier).len() {
                let place = unregistered(earlier)[k];
                assert(places[k] == place);
                assert(earlier[place as int] == registered[place as int]);
            }
        }
    }
}

/// Every place listed by `rewarded` lies inside `rewards` and has a reward,
/// and there are no more places than identities.
pub proof fn lemma_rewarded_in_range(rewards: Seq<u64>)
    requires
        rewards.len() <= usize::MAX,
    ensures
        rewarded(rewards).len() <= rewards.len(),
        forall|k: int|
            0 <= k < rewarded(rewards).len() ==> (#[trigger] rewarded(rewards)[k]) < rewards.len()
                && rewards[rewarded(rewards)[k] as int] > 0,
    decreases rewards.len(),
{
    if rewards.len() > 0 {
        let earlier = rewards.drop_last();
        lemma_rewarded_in_range(earlier);
        let places = rewarded(rewards);
        assert forall|k: int| 0 <= k < places.len() implies (#[trigger] places[k]) < rewards.len()
            && rewards[places[k] as int] > 0 by {
            if k < rewarded(earlier).len() {
                let place = rewarded(earlier)[k];
                assert(places[k] == place);
                assert(earlier[place as int] == rewards[place as int]);
            }
        }
    }
}

/// Nothing is listed by `rewarded` exactly when every reward is zero.
pub proof fn lemma_rewarded_empty(rewards: Seq<u64>)
    ensures
        rewarded(rewards).len() == 0 <==> forall|i: int| 0 <= i < rewards.len() ==> rewards[i] == 0,
        rewarded(rewards).len() == 0 ==> total_rewards(rewards) == 0,
    decreases rewards.len(),
{
    if rewards.len() > 0 {
        let earlier = rewards.drop_last();
        lemma_rewarded_empty(earlier);
        if rewarded(rewards).len() == 0 {
            assert forall|i: int| 0 <= i < rewards.len() implies rewards[i] == 0 by {
                if i < earlier.len() {
                    assert(earlier[i] == rewards[i]);
                }
            }
        } else if rewards.last() == 0 {
            let i = choose|i: int| 0 <= i < earlier.len() && earlier[i] != 0;
            assert(rewards[i] != 0);
        }
    }
}

/// Nothing is listed by `unregistered` exactly when every identity is
/// registered.
pub proof fn lemma_unregistered_empty(registered: Seq<bool>)
    ensures
        unregistered(registered).len() == 0 <==> forall|i: int|
            0 <= i < registered.len() ==> registered[i],
    decreases registered.len(),
{
    if registered.len() > 0 {
        let earlier = registered.drop_last();
        lemma_unregistered_empty(earlier);
        if unregistered(registered).len() == 0 {
            assert forall|i: int| 0 <= i < registered.len() implies registered[i] by {
                if i < earlier.len() {
                    assert(earlier[i] == registered[i]);
                }
            }
        } else if registered.last() {
            let i = choose|i: int| 0 <= i < earlier.len() && !earlier[i];
            assert(!registered[i]);
        }
    }
}

impl MinerView {
    /// One registration for each of the identities at `places`.
    pub open spec fn registrations(&self, places: Seq<usize>) -> Seq<Instruction> {
        Seq::new(
            places.len(),
            |k: int| Instruction::Register { identity: self.signers[places[k] as int] },
        )
    }

    /// One claim for each of the identities at `places`, of the whole of its
    /// reward.
    pub open spec fn claims(
        &self,
        places: Seq<usize>,
        beneficiary: Address,
        rewards: Seq<u64>,
    ) -> Seq<Instruction> {
        Seq::new(
            places.len(),
            |k: int|
                Instruction::Claim {
                    identity: self.signers[places[k] as int],
                    beneficiary,
                    amount: rewards[places[k] as int],
                },
        )
    }

    /// One submitted digest for each identity of the session, in order.
    pub open spec fn mines(&self, solutions: Seq<Solution>, bus: u64) -> Seq<Instruction> {
        Seq::new(
            self.signers.len(),
            |i: int|
                Instruction::Mine {
                    identity: self.signers[i],
                    bus,
                    hash: solutions[i].hash,
                    nonce: solutions[i].nonce,
                },
        )
    }
}

/// What a claim comes to.
#[derive(Clone, Debug, PartialEq, Eq)]
pub enum ClaimPlan {
    /// No identity has anything to claim: nothing is sent.
    NoRewardsToClaim,
    /// The transaction to deliver, and the sum that it claims.
    Submit { request: SubmissionRequest, total: u128 },
}

/// Where the payer's nonce account lives, and whether it has yet to be
/// created.
#[derive(Clone, Copy, Debug, PartialEq, Eq)]
pub struct NonceAccount {
    pub address: Address,
    pub missing: bool,
}

impl Miner {
    #[verifier::type_invariant]
    spec fn has_signers(self) -> bool {
        1 <= self.signers@.len() <= MAX_SIGNERS
    }

    /// A session for the given identities, or `None` where there are none or
    /// more than `MAX_SIGNERS`.
    pub fn new(cluster: String, priority_fee: u64, signers: Vec<Address>, relay: bool) -> (miner:
        Option<Miner>)
        ensures
            miner is Some <==> 1 <= signers@.len() <= MAX_SIGNERS,
            miner matches Some(m) ==> m@ == (MinerView {
                signers: signers@,
                priority_fee,
                cluster: cluster@,
                relay,
            }),
    {
        if signers.len() == 0 || signers.len() > MAX_SIGNERS {
            return None;
        }
        Some(Miner { signers, priority_fee, cluster, relay })
    }

    /// The session's identities, the payer first.
    pub fn signers(&self) -> (signers: &Vec<Address>)
        ensures
            signers@ == self@.signers,
            1 <= signers@.len() <= MAX_SIGNERS,
    {
        proof {
            use_type_invariant(self);
        }
        &self.signers
    }

    /// The identity that pays.
    pub fn payer(&self) -> (payer: Address)
        ensures
            payer == self@.payer(),
    {
        proof {
            use_type_invariant(self);
        }
        self.signers[0]
    }

    /// The configured price per compute unit.
    pub fn priority_fee(&self) -> (fee: u64)
        ensures
            fee == self@.priority_fee,
    {
        self.priority_fee
    }

    /// The network endpoint.
    pub fn cluster(&self) -> (cluster: &String)
        ensures
            cluster@ == self@.cluster,
    {
        &self.cluster
    }

    /// Whether the session has a relay credential.
    pub fn has_relay(&self) -> (relay: bool)
        ensures
            relay == self@.relay,
    {
        self.relay
    }

    /// The way of delivery of a transaction.
    pub fn strategy(&self, no_relay: bool) -> (strategy: Strategy)
        ensures
            strategy == self@.strategy(no_relay),
    {
        if self.relay && !no_relay {
            Strategy::BundleRelay
        } else {
            Strategy::DirectPoll
        }
    }
}

impl Miner {
    /// The price per compute unit under `strategy`.
    pub fn unit_price(&self, strategy: Strategy) -> (price: u64)
        ensures
            price == self@.unit_price(strategy),
    {
        match strategy {
            Strategy::BundleRelay => RELAY_PRIORITY_FEE,
            Strategy::DirectPoll => self.priority_fee,
        }
    }

    /// The address of the payer's nonce account.
    pub fn nonce_address(&self) -> (address: Address)
        ensures
            address@ == nonce_address_of(self@.payer()@),
    {
        let payer = self.payer();
        nonce_address(&payer)
    }

    /// The signers of a transaction, by their place in the session: the named
    /// ones in the order given, followed by the payer unless it is among
    /// them; all of the session where none are named.
    pub fn cosigners(&self, named: Option<&Vec<usize>>) -> (chosen: Vec<usize>)
        requires
            named matches Some(indexes) ==> forall|k: int|
                0 <= k < indexes@.len() ==> indexes@[k] < self@.signers.len(),
        ensures
            match named {
                Some(indexes) => chosen@ == self@.cosigners(Some(indexes@)),
                None => chosen@ == self@.cosigners(None),
            },
            forall|k: int| 0 <= k < chosen@.len() ==> chosen@[k] < self@.signers.len(),
            chosen@.contains(0),
    {
        proof {
            use_type_invariant(self);
        }
        let mut chosen: Vec<usize> = Vec::new();
        match named {
            Some(indexes) => {
                let mut has_payer = false;
                let mut k: usize = 0;
                while k < indexes.len()
                    invariant
                        k <= indexes@.len(),
                        chosen@ == indexes@.subrange(0, k as int),
                        has_payer == indexes@.subrange(0, k as int).contains(0),
                    decreases indexes@.len() - k,
                {
                    let index = indexes[k];
                    chosen.push(index);
                    proof {
                        let before = indexes@.subrange(0, k as int);
                        let after = indexes@.subrange(0, k + 1);
                        assert(after =~= before.push(index));
                        if index == 0 {
                            assert(after[k as int] == 0);
                        } else if has_payer {
                            let w = choose|w: int| 0 <= w < before.len() && before[w] == 0;
                            assert(after[w] == 0);
                        } else {
                            assert forall|w: int| 0 <= w < after.len() implies after[w] != 0 by {
                                if w < k {
                                    assert(before[w] == after[w]);
                                }
                            }
                        }
                    }
                    if index == 0 {
                        has_payer = true;
                    }
                    k = k + 1;
                }
                assert(indexes@.subrange(0, k as int) =~= indexes@);
                if !has_payer {
                    chosen.push(0);
                    assert(chosen@[chosen@.len() - 1] == 0);
                }
            },
            None => {
                let count = self.signers.len();
                let mut k: usize = 0;
                while k < count
                    invariant
                        k <= count,
                        1 <= count,
                        count == self@.signers.len(),
                        chosen@ == Seq::new(k as nat, |i: int| i as usize),
                    decreases count - k,
                {
                    chosen.push(k);
                    k = k + 1;
                    assert(chosen@ =~= Seq::new(k as nat, |i: int| i as usize));
                }
                assert(chosen@[0] == 0);
            },
        }
        chosen
    }

    /// Builds the transaction around `domain`, the instructions of one
    /// operation for each batched identity.
    ///
    /// The list opens with the advance of the payer's nonce, the compute
    /// limit (that of `op` for each of the batched identities) and the price
    /// per unit (the session's fee, or the relay's fixed price). It closes,
    /// on the relay path, with the tip.
    pub fn build_request(
        &self,
        op: Operation,
        domain: &Vec<Instruction>,
        named: Option<&Vec<usize>>,
        no_relay: bool,
    ) -> (request: SubmissionRequest)
        requires
            domain@.len() <= MAX_SIGNERS,
            named matches Some(indexes) ==> forall|k: int|
                0 <= k < indexes@.len() ==> indexes@[k] < self@.signers.len(),
        ensures
            match named {
                Some(indexes) => self@.builds(request, op, domain@, Some(indexes@), no_relay),
                None => self@.builds(request, op, domain@, None, no_relay),
            },
    {
        let strategy = self.strategy(no_relay);
        let payer = self.payer();
        let nonce_account = self.nonce_address();
        let per_identity = op.unit_limit();
        assert(domain@.len() * per_identity <= MAX_SIGNERS * CU_LIMIT_ATA) by (nonlinear_arith)
            requires
                domain@.len() <= MAX_SIGNERS,
                per_identity <= CU_LIMIT_ATA,
        ;
        let batched: u32 = domain.len() as u32;
        let units: u32 = batched * per_identity;
        let mut instructions: Vec<Instruction> = Vec::new();
        instructions.push(Instruction::AdvanceNonce { nonce_account, authority: payer });
        instructions.push(Instruction::SetComputeUnitLimit { units });
        instructions.push(
            Instruction::SetComputeUnitPrice { micro_lamports: self.unit_price(strategy) },
        );
        let ghost head = instructions@;
        let mut k: usize = 0;
        while k < domain.len()
            invariant
                k <= domain@.len(),
                instructions@ == head + domain@.subrange(0, k as int),
            decreases domain@.len() - k,
        {
            instructions.push(domain[k]);
            k = k + 1;
            assert(instructions@ =~= head + domain@.subrange(0, k as int));
        }
        assert(domain@.subrange(0, k as int) =~= domain@);
        match strategy {
            Strategy::BundleRelay => {
                instructions.push(
                    Instruction::Tip {
                        payer,
                        recipient: Address { bytes: TIP_ADDRESS },
                        lamports: TIP_LAMPORTS,
                    },
                );
            },
            Strategy::DirectPoll => {},
        }
        let signers = self.cosigners(named);
        proof {
            let tip = self@.tip(strategy);
            assert(instructions@ =~= head + domain@ + tip);
            assert(instructions@.subrange(1, instructions@.len() as int) =~= self@.budget(
                op,
                domain@.len(),
                strategy,
            ) + domain@ + tip);
        }
        SubmissionRequest { instructions, signers, strategy }
    }
}

impl Miner {
    /// Plans the registration of the session, where `registered[i]` tells
    /// whether the identity at place `i` has a proof record.
    ///
    /// Where every identity has one, nothing is to be sent. Otherwise one
    /// transaction holds one registration for each identity without, signed
    /// by those identities and the payer.
    pub fn register(&self, registered: &Vec<bool>) -> (request: Option<SubmissionRequest>)
        requires
            registered@.len() == self@.signers.len(),
        ensures
            request is None <==> forall|i: int| 0 <= i < registered@.len() ==> registered@[i],
            request matches Some(r) ==> self@.builds(
                r,
                Operation::Register,
                self@.registrations(unregistered(registered@)),
                Some(unregistered(registered@)),
                false,
            ),
    {
        proof {
            use_type_invariant(self);
            lemma_unregistered_empty(registered@);
            lemma_unregistered_in_range(registered@);
        }
        let mut places: Vec<usize> = Vec::new();
        let mut domain: Vec<Instruction> = Vec::new();
        let mut i: usize = 0;
        while i < registered.len()
            invariant
                i <= registered@.len(),
                registered@.len() == self.signers@.len(),
                self.signers@ == self@.signers,
                places@ == unregistered(registered@.subrange(0, i as int)),
                domain@ == self@.registrations(places@),
            decreases registered@.len() - i,
        {
            proof {
                assert(registered@.subrange(0, i + 1).drop_last() =~= registered@.subrange(
                    0,
                    i as int,
                ));
            }
            if !registered[i] {
                places.push(i);
                domain.push(Instruction::Register { identity: self.signers[i] });
                assert(domain@ =~= self@.registrations(places@));
            }
            i = i + 1;
        }
        assert(registered@.subrange(0, i as int) =~= registered@);
        if places.len() == 0 {
            return None;
        }
        Some(self.build_request(Operation::Register, &domain, Some(&places), false))
    }

    /// Plans a claim of everything claimable, where `rewards[i]` is the
    /// claimable reward of the identity at place `i`.
    ///
    /// Where no identity has anything to claim, nothing is to be sent.
    /// Otherwise one transaction holds one claim for each identity with a
    /// reward, paid to `beneficiary` and signed by those identities and the
    /// payer.
    pub fn claim(&self, beneficiary: Address, rewards: &Vec<u64>) -> (plan: ClaimPlan)
        requires
            rewards@.len() == self@.signers.len(),
        ensures
            plan is NoRewardsToClaim <==> forall|i: int|
                0 <= i < rewards@.len() ==> rewards@[i] == 0,
            plan matches ClaimPlan::Submit { request, total } ==> {
                &&& total == total_rewards(rewards@)
                &&& self@.builds(
                    request,
                    Operation::Claim,
                    self@.claims(rewarded(rewards@), beneficiary, rewards@),
                    Some(rewarded(rewards@)),
                    false,
                )
            },
    {
        proof {
            use_type_invariant(self);
            lemma_rewarded_empty(rewards@);
            lemma_rewarded_in_range(rewards@);
        }
        let mut places: Vec<usize> = Vec::new();
        let mut domain: Vec<Instruction> = Vec::new();
        let mut total: u128 = 0;
        let mut i: usize = 0;
        while i < rewards.len()
            invariant
                i <= rewards@.len(),
                rewards@.len() == self.signers@.len(),
                self.signers@ == self@.signers,
                places@ == rewarded(rewards@.subrange(0, i as int)),
                domain@ == self@.claims(places@, beneficiary, rewards@),
                forall|k: int| 0 <= k < places@.len() ==> places@[k] < i,
                rewards@.len() <= MAX_SIGNERS,
                total == total_rewards(rewards@.subrange(0, i as int)),
                total <= i * u64::MAX,
            decreases rewards@.len() - i,
        {
            proof {
                assert(rewards@.subrange(0, i + 1).drop_last() =~= rewards@.subrange(0, i as int));
                assert((i + 1) * u64::MAX == i * u64::MAX + u64::MAX) by (nonlinear_arith);
                assert(i * u64::MAX <= MAX_SIGNERS * u64::MAX) by (nonlinear_arith)
                    requires
                        i <= MAX_SIGNERS,
                ;
            }
            let amount = rewards[i];
            if amount > 0 {
                places.push(i);
                domain.push(
                    Instruction::Claim { identity: self.signers[i], beneficiary, amount },
                );
                assert(domain@ =~= self@.claims(places@, beneficiary, rewards@));
            }
            total = total + amount as u128;
            i = i + 1;
        }
        assert(rewards@.subrange(0, i as int) =~= rewards@);
        if places.len() == 0 {
            return ClaimPlan::NoRewardsToClaim;
        }
        let request = self.build_request(Operation::Claim, &domain, Some(&places), false);
        ClaimPlan::Submit { request, total }
    }

    /// Builds the mining transaction: one submitted digest for each identity
    /// of the session, `solutions[i]` for the identity at place `i`, all paid
    /// from shard `bus` and signed by every identity.
    pub fn mine_request(&self, solutions: &Vec<Solution>, bus: u64) -> (request:
        SubmissionRequest)
        requires
            solutions@.len() == self@.signers.len(),
            valid_bus_id(bus),
        ensures
            self@.builds(request, Operation::Mine, self@.mines(solutions@, bus), None, false),
    {
        proof {
            use_type_invariant(self);
        }
        let mut domain: Vec<Instruction> = Vec::new();
        let mut i: usize = 0;
        while i < solutions.len()
            invariant
                i <= solutions@.len(),
                solutions@.len() == self.signers@.len(),
                self.signers@ == self@.signers,
                domain@ == self@.mines(solutions@, bus).subrange(0, i as int),
            decreases solutions@.len() - i,
        {
            let s = solutions[i];
            domain.push(
                Instruction::Mine { identity: self.signers[i], bus, hash: s.hash, nonce: s.nonce },
            );
            i = i + 1;
            assert(domain@ =~= self@.mines(solutions@, bus).subrange(0, i as int));
        }
        assert(domain@ =~= self@.mines(solutions@, bus));
        self.build_request(Operation::Mine, &domain, None, false)
    }

    /// Plans the creation of the payer's token account, from whether a read
    /// found it.
    ///
    /// Where the account exists, nothing is to be sent. Otherwise one
    /// transaction creates it, signed by the payer and delivered without the
    /// relay.
    pub fn initialize_ata(&self, exists: bool) -> (request: Option<SubmissionRequest>)
        ensures
            request is None <==> exists,
            request matches Some(r) ==> self@.builds(
                r,
                Operation::CreateTokenAccount,
                seq![
                    Instruction::CreateTokenAccount { payer: self@.payer(), owner: self@.payer() },
                ],
                Some(seq![0usize]),
                true,
            ),
    {
        if exists {
            return None;
        }
        proof {
            use_type_invariant(self);
        }
        let payer = self.payer();
        let mut domain: Vec<Instruction> = Vec::new();
        domain.push(Instruction::CreateTokenAccount { payer, owner: payer });
        let mut places: Vec<usize> = Vec::new();
        places.push(0);
        assert(domain@ =~= seq![Instruction::CreateTokenAccount { payer, owner: payer }]);
        assert(places@ =~= seq![0usize]);
        Some(self.build_request(Operation::CreateTokenAccount, &domain, Some(&places), true))
    }

    /// Says where the payer's nonce account lives and, from whether a read
    /// found it, whether it has yet to be created. The address depends on
    /// the payer alone.
    pub fn get_or_create_nonce_acct(&self, exists: bool) -> (account: NonceAccount)
        ensures
            account.address@ == nonce_address_of(self@.payer()@),
            account.missing == !exists,
    {
        NonceAccount { address: self.nonce_address(), missing: !exists }
    }
}

/// How many of a run of calls of `get_or_create_nonce_acct` report the
/// account as missing, and so ask for its creation, where `found[i]` tells
/// whether the read before call `i` found the account.
pub open spec fn creations(found: Seq<bool>) -> nat
    decreases found.len(),
{
    if found.len() == 0 {
        0
    } else {
        creations(found.drop_last()) + if found.last() {
            0nat
        } else {
            1nat
        }
    }
}

/// The nonce account of a payer is created at most once: where every call
/// after the first finds the account, because the call before it found or
/// created it, at most one call of the run asks for a creation.
pub proof fn lemma_nonce_created_at_most_once(found: Seq<bool>)
    requires
        forall|i: int| 0 < i < found.len() ==> found[i],
    ensures
        creations(found) <= 1,
    decreases found.len(),
{
    if found.len() > 1 {
        let earlier = found.drop_last();
        assert forall|i: int| 0 < i < earlier.len() implies earlier[i] by {
            assert(earlier[i] == found[i]);
        }
        lemma_nonce_created_at_most_once(earlier);
        assert(found.last());
    } else if found.len() == 1 {
        assert(creations(found.drop_last()) == 0);
    }
}

/// Two sessions with the same payer have the same nonce account, and so has
/// one session at every call.
pub proof fn lemma_nonce_address_of_payer(a: MinerView, b: MinerView)
    requires
        a.payer()@ == b.payer()@,
    ensures
        nonce_address_of(a.payer()@) == nonce_address_of(b.payer()@),
{
}

} // verus!
