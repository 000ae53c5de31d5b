use anchor_lang::prelude::Pubkey;
use quest_escrow::{
    abandon_claim, approve_completion, auto_approve, cancel_quest, claim_quest, create_quest,
    expire_claim, initialize, reject_completion, submit_proof, Claim, ClaimAbandoned,
    ClaimExpired, ClaimStatus, FailReason, Party, ProofSubmitted, ProtocolInitialized, Quest,
    QuestCancelled, QuestClaimed, QuestCompleted, QuestConfig, QuestCreated, QuestError,
    QuestFailed, QuestStatus, QuestType, Transfer,
};

const START: i64 = 1_700_000_000;
const DAY: i64 = 86_400;

fn party(tag: u8) -> Pubkey {
    Pubkey::new_from_array([tag; 32])
}

fn authority() -> Pubkey {
    party(1)
}

fn treasury() -> Pubkey {
    party(2)
}

fn creator() -> Pubkey {
    party(3)
}

fn claimer() -> Pubkey {
    party(4)
}

fn other_claimer() -> Pubkey {
    party(5)
}

fn escrow() -> Pubkey {
    party(6)
}

fn mint() -> Pubkey {
    party(7)
}

fn quest_key() -> Pubkey {
    party(8)
}

fn config_with_fee(fee_basis_points: u16) -> QuestConfig {
    initialize(authority(), treasury(), fee_basis_points, 0, 255).unwrap().0
}

fn open_quest(config: &mut QuestConfig, reward: u64, max_claimers: u8) -> Quest {
    create_quest(
        config,
        creator(),
        escrow(),
        mint(),
        reward,
        QuestType::Open,
        None,
        max_claimers,
        None,
        [9; 32],
        START,
        254,
    )
    .unwrap()
    .0
}

fn pay_in(from: Party, amount: u64) -> Transfer {
    Transfer { from, to: Party::Escrow, amount }
}

fn pay_out(to: Party, amount: u64) -> Transfer {
    Transfer { from: Party::Escrow, to, amount }
}

fn settle(balance: &mut i128, transfers: &[Transfer]) {
    for transfer in transfers {
        if transfer.to == Party::Escrow {
            *balance += transfer.amount as i128;
        }
        if transfer.from == Party::Escrow {
            *balance -= transfer.amount as i128;
        }
    }
}

fn due(quest: &Quest, claims: &[&Claim]) -> i128 {
    let terminal = matches!(
        quest.status,
        QuestStatus::Completed | QuestStatus::Failed | QuestStatus::Cancelled
    );
    let mut sum: i128 = if terminal { 0 } else { quest.reward_amount as i128 };
    for claim in claims {
        if matches!(claim.status, ClaimStatus::Active | ClaimStatus::Submitted) {
            sum += claim.stake_amount as i128;
        }
    }
    sum
}

fn claimed_quest(fee_basis_points: u16, stake: u64) -> (QuestConfig, Quest, Claim) {
    let mut config = config_with_fee(fee_basis_points);
    let mut quest = open_quest(&mut config, 1_000_000, 1);
    let (claim, _) = claim_quest(&mut quest, quest_key(), claimer(), stake, START + 10, 253).unwrap();
    (config, quest, claim)
}

fn submitted_quest(fee_basis_points: u16, stake: u64) -> (QuestConfig, Quest, Claim) {
    let (config, quest, mut claim) = claimed_quest(fee_basis_points, stake);
    submit_proof(&quest, &mut claim, claimer(), [7; 32], START + 20).unwrap();
    (config, quest, claim)
}

#[test]
fn initialize_sets_the_protocol_up() {
    let (config, event) = initialize(authority(), treasury(), 500, 100, 255).unwrap();
    assert_eq!(
        config,
        QuestConfig {
            authority: authority(),
            treasury: treasury(),
            fee_basis_points: 500,
            burn_basis_points: 100,
            quest_count: 0,
            bump: 255,
        }
    );
    assert_eq!(
        event,
        ProtocolInitialized { authority: authority(), treasury: treasury(), fee_basis_points: 500 }
    );
}

#[test]
fn create_quest_opens_an_active_quest() {
    let mut config = config_with_fee(500);
    let (quest, effects) = create_quest(
        &mut config,
        creator(),
        escrow(),
        mint(),
        1_000_000,
        QuestType::Open,
        None,
        1,
        Some(START + 1),
        [9; 32],
        START,
        254,
    )
    .unwrap();
    assert_eq!(
        quest,
        Quest {
            id: 0,
            creator: creator(),
            escrow: escrow(),
            reward_mint: mint(),
            reward_amount: 1_000_000,
            quest_type: QuestType::Open,
            status: QuestStatus::Active,
            target: None,
            max_claimers: 1,
            current_claimers: 0,
            time_limit: Some(START + 1),
            proof_deadline_hours: 24,
            review_deadline_hours: 24,
            description_hash: [9; 32],
            created_at: START,
            bump: 254,
        }
    );
    assert_eq!(effects.transfers, vec![pay_in(Party::Creator, 1_000_000)]);
    assert_eq!(
        effects.event,
        QuestCreated {
            quest_id: 0,
            creator: creator(),
            reward_amount: 1_000_000,
            reward_mint: mint(),
            quest_type: QuestType::Open,
        }
    );
    assert_eq!(config.quest_count, 1);
}

#[test]
fn quests_are_numbered_in_sequence() {
    let mut config = config_with_fee(500);
    let first = open_quest(&mut config, 1_000_000, 1);
    let second = open_quest(&mut config, 2_000_000, 3);
    let third = open_quest(&mut config, 3_000_000, 100);
    assert_eq!((first.id, second.id, third.id), (0, 1, 2));
    assert_eq!(config.quest_count, 3);
    assert_eq!(config.authority, authority());
    assert_eq!(config.fee_basis_points, 500);
}

#[test]
fn direct_quest_keeps_its_target() {
    let mut config = config_with_fee(500);
    let (quest, effects) = create_quest(
        &mut config,
        creator(),
        escrow(),
        mint(),
        5_000_000,
        QuestType::Direct,
        Some(claimer()),
        1,
        None,
        [0; 32],
        START,
        1,
    )
    .unwrap();
    assert_eq!(quest.quest_type, QuestType::Direct);
    assert_eq!(quest.target, Some(claimer()));
    assert_eq!(effects.event.quest_type, QuestType::Direct);
}

#[test]
fn open_quest_may_name_its_creator_as_target() {
    let mut config = config_with_fee(500);
    let (quest, _) = create_quest(
        &mut config,
        creator(),
        escrow(),
        mint(),
        1_000_000,
        QuestType::Open,
        Some(creator()),
        1,
        None,
        [0; 32],
        START,
        1,
    )
    .unwrap();
    assert_eq!(quest.target, Some(creator()));
    assert_eq!(quest.status, QuestStatus::Active);
}

#[test]
fn claim_with_five_percent_stake_fills_a_single_slot() {
    let mut config = config_with_fee(500);
    let mut quest = open_quest(&mut config, 1_000_000, 1);
    let (claim, effects) =
        claim_quest(&mut quest, quest_key(), claimer(), 50_000, START + 10, 253).unwrap();
    assert_eq!(
        claim,
        Claim {
            quest: quest_key(),
            claimer: claimer(),
            stake_amount: 50_000,
            status: ClaimStatus::Active,
            proof_deadline: START + 10 + DAY,
            review_deadline: None,
            proof_hash: None,
            claimed_at: START + 10,
            submitted_at: None,
            bump: 253,
        }
    );
    assert_eq!(effects.transfers, vec![pay_in(Party::Claimer, 50_000)]);
    assert_eq!(
        effects.event,
        QuestClaimed { quest_id: 0, claimer: claimer(), stake_amount: 50_000 }
    );
    assert_eq!(quest.status, QuestStatus::Claimed);
    assert_eq!(quest.current_claimers, 1);
}

#[test]
fn claim_one_short_of_five_percent_is_too_low() {
    let mut config = config_with_fee(500);
    let mut quest = open_quest(&mut config, 1_000_000, 1);
    let before = quest;
    assert_eq!(
        claim_quest(&mut quest, quest_key(), claimer(), 49_999, START + 10, 253),
        Err(QuestError::StakeTooLow)
    );
    assert_eq!(quest, before);
}

#[test]
fn quest_is_claimed_only_when_the_last_slot_goes() {
    let mut config = config_with_fee(500);
    let mut quest = open_quest(&mut config, 1_000_000, 2);
    claim_quest(&mut quest, quest_key(), claimer(), 50_000, START + 10, 253).unwrap();
    assert_eq!((quest.status, quest.current_claimers), (QuestStatus::Active, 1));
    claim_quest(&mut quest, quest_key(), other_claimer(), 60_000, START + 11, 252).unwrap();
    assert_eq!((quest.status, quest.current_claimers), (QuestStatus::Claimed, 2));
    assert_eq!(
        claim_quest(&mut quest, quest_key(), party(50), 60_000, START + 12, 251),
        Err(QuestError::QuestNotActive)
    );
    assert_eq!((quest.status, quest.current_claimers), (QuestStatus::Claimed, 2));
}

#[test]
fn direct_quest_is_claimed_by_its_target() {
    let mut config = config_with_fee(500);
    let (mut quest, _) = create_quest(
        &mut config,
        creator(),
        escrow(),
        mint(),
        1_000_000,
        QuestType::Direct,
        Some(claimer()),
        1,
        None,
        [0; 32],
        START,
        1,
    )
    .unwrap();
    assert_eq!(
        claim_quest(&mut quest, quest_key(), other_claimer(), 50_000, START, 1),
        Err(QuestError::NotTargetUser)
    );
    let (claim, _) = claim_quest(&mut quest, quest_key(), claimer(), 50_000, START, 1).unwrap();
    assert_eq!(claim.claimer, claimer());
}

#[test]
fn claim_is_taken_until_just_before_the_expiry() {
    let mut config = config_with_fee(500);
    let (quest, _) = create_quest(
        &mut config,
        creator(),
        escrow(),
        mint(),
        1_000_000,
        QuestType::Open,
        None,
        3,
        Some(START + 100),
        [0; 32],
        START,
        1,
    )
    .unwrap();
    let mut early = quest;
    assert!(claim_quest(&mut early, quest_key(), claimer(), 50_000, START + 99, 1).is_ok());
    let mut at_limit = quest;
    assert_eq!(
        claim_quest(&mut at_limit, quest_key(), claimer(), 50_000, START + 100, 1),
        Err(QuestError::QuestExpired)
    );
    let mut late = quest;
    assert_eq!(
        claim_quest(&mut late, quest_key(), claimer(), 50_000, START + 101, 1),
        Err(QuestError::QuestExpired)
    );
}

#[test]
fn submit_proof_opens_the_review_window() {
    let (_, quest, mut claim) = claimed_quest(500, 50_000);
    let before = claim;
    let effects = submit_proof(&quest, &mut claim, claimer(), [7; 32], START + 20).unwrap();
    assert_eq!(
        claim,
        Claim {
            status: ClaimStatus::Submitted,
            proof_hash: Some([7; 32]),
            submitted_at: Some(START + 20),
            review_deadline: Some(START + 20 + DAY),
            ..before
        }
    );
    assert!(effects.transfers.is_empty());
    assert_eq!(
        effects.event,
        ProofSubmitted { quest_id: 0, claimer: claimer(), proof_hash: [7; 32] }
    );
}

#[test]
fn proof_is_taken_at_the_deadline_and_not_after() {
    let (_, quest, claim) = claimed_quest(500, 50_000);
    let mut on_time = claim;
    assert!(submit_proof(&quest, &mut on_time, claimer(), [7; 32], claim.proof_deadline).is_ok());
    assert_eq!(on_time.review_deadline, Some(claim.proof_deadline + DAY));
    let mut late = claim;
    assert_eq!(
        submit_proof(&quest, &mut late, claimer(), [7; 32], claim.proof_deadline + 1),
        Err(QuestError::ProofDeadlinePassed)
    );
    assert_eq!(late, claim);
}

#[test]
fn approval_pays_claimer_and_treasury() {
    let (config, mut quest, mut claim) = submitted_quest(500, 50_000);
    let effects = approve_completion(&config, &mut quest, &mut claim, authority()).unwrap();
    assert_eq!(
        effects.transfers,
        vec![pay_out(Party::Claimer, 1_000_000), pay_out(Party::Treasury, 50_000)]
    );
    assert_eq!(
        effects.event,
        QuestCompleted {
            quest_id: 0,
            claimer: claimer(),
            reward_amount: 950_000,
            fee_amount: 50_000,
        }
    );
    assert_eq!(quest.status, QuestStatus::Completed);
    assert_eq!(claim.status, ClaimStatus::Approved);
    assert_eq!(claim.stake_amount, 50_000);
    assert_eq!(quest.current_claimers, 1);
}

#[test]
fn approval_without_fee_makes_one_transfer() {
    let (config, mut quest, mut claim) = submitted_quest(0, 70_000);
    let effects = approve_completion(&config, &mut quest, &mut claim, authority()).unwrap();
    assert_eq!(effects.transfers, vec![pay_out(Party::Claimer, 1_070_000)]);
    assert_eq!(effects.event.reward_amount, 1_000_000);
    assert_eq!(effects.event.fee_amount, 0);
}

#[test]
fn approval_at_full_fee_leaves_the_claimer_the_stake() {
    let (config, mut quest, mut claim) = submitted_quest(10_000, 50_000);
    let effects = approve_completion(&config, &mut quest, &mut claim, authority()).unwrap();
    assert_eq!(
        effects.transfers,
        vec![pay_out(Party::Claimer, 50_000), pay_out(Party::Treasury, 1_000_000)]
    );
}

#[test]
fn late_proof_fails_and_the_claim_expires() {
    let (_, mut quest, mut claim) = claimed_quest(500, 50_000);
    let after_deadline = claim.proof_deadline + 1;
    assert_eq!(
        submit_proof(&quest, &mut claim, claimer(), [7; 32], after_deadline),
        Err(QuestError::ProofDeadlinePassed)
    );
    let effects = expire_claim(&mut quest, &mut claim, after_deadline).unwrap();
    assert_eq!(effects.transfers, vec![pay_out(Party::Creator, 50_000)]);
    assert_eq!(effects.event, ClaimExpired { quest_id: 0, claimer: claimer() });
    assert_eq!(claim.status, ClaimStatus::Expired);
    assert_eq!(quest.current_claimers, 0);
    assert_eq!(quest.status, QuestStatus::Active);
    let (again, _) =
        claim_quest(&mut quest, quest_key(), other_claimer(), 50_000, after_deadline, 1).unwrap();
    assert_eq!(again.claimer, other_claimer());
    assert_eq!(quest.status, QuestStatus::Claimed);
}

#[test]
fn expiry_waits_until_the_deadline_has_passed() {
    let (_, quest, claim) = claimed_quest(500, 50_000);
    let mut quest_at = quest;
    let mut claim_at = claim;
    assert_eq!(
        expire_claim(&mut quest_at, &mut claim_at, claim.proof_deadline),
        Err(QuestError::DeadlineNotReached)
    );
    assert_eq!((quest_at, claim_at), (quest, claim));
    assert_eq!(
        expire_claim(&mut quest_at, &mut claim_at, claim.claimed_at),
        Err(QuestError::DeadlineNotReached)
    );
    assert!(expire_claim(&mut quest_at, &mut claim_at, claim.proof_deadline + 1).is_ok());
    assert_eq!(claim.proof_deadline, claim.claimed_at + 24 * 3_600);
}

#[test]
fn safety_flagged_rejection_returns_reward_and_stake_apart() {
    let (config, mut quest, mut claim) = submitted_quest(500, 50_000);
    let effects = reject_completion(&config, &mut quest, &mut claim, authority(), true).unwrap();
    assert_eq!(
        effects.transfers,
        vec![pay_out(Party::Creator, 1_000_000), pay_out(Party::Claimer, 50_000)]
    );
    assert_eq!(
        effects.event,
        QuestFailed { quest_id: 0, claimer: claimer(), reason: FailReason::Rejected }
    );
    assert_eq!(quest.status, QuestStatus::Failed);
    assert_eq!(claim.status, ClaimStatus::Rejected);
}

#[test]
fn ordinary_rejection_sends_reward_and_stake_to_the_creator() {
    let (config, mut quest, mut claim) = submitted_quest(500, 50_000);
    let effects = reject_completion(&config, &mut quest, &mut claim, authority(), false).unwrap();
    assert_eq!(effects.transfers, vec![pay_out(Party::Creator, 1_050_000)]);
    assert_eq!(
        effects.event,
        QuestFailed { quest_id: 0, claimer: claimer(), reason: FailReason::Rejected }
    );
    assert_eq!(quest.status, QuestStatus::Failed);
    assert_eq!(claim.status, ClaimStatus::Rejected);
}

#[test]
fn safety_flagged_rejection_skips_a_stake_of_zero() {
    let (config, mut quest, mut claim) = submitted_quest(500, 50_000);
    claim.stake_amount = 0;
    let effects = reject_completion(&config, &mut quest, &mut claim, authority(), true).unwrap();
    assert_eq!(effects.transfers, vec![pay_out(Party::Creator, 1_000_000)]);
}

#[test]
fn abandonment_forfeits_the_stake_and_frees_the_slot() {
    let (_, mut quest, mut claim) = claimed_quest(500, 80_000);
    let effects = abandon_claim(&mut quest, &mut claim, claimer()).unwrap();
    assert_eq!(effects.transfers, vec![pay_out(Party::Creator, 80_000)]);
    assert_eq!(effects.event, ClaimAbandoned { quest_id: 0, claimer: claimer() });
    assert_eq!(claim.status, ClaimStatus::Abandoned);
    assert_eq!(quest.status, QuestStatus::Active);
    assert_eq!(quest.current_claimers, 0);
}

#[test]
fn abandonment_of_a_stake_of_zero_moves_nothing() {
    let (_, mut quest, mut claim) = claimed_quest(500, 50_000);
    claim.stake_amount = 0;
    let effects = abandon_claim(&mut quest, &mut claim, claimer()).unwrap();
    assert!(effects.transfers.is_empty());
    assert_eq!(claim.status, ClaimStatus::Abandoned);
}

#[test]
fn claimer_count_never_falls_under_zero() {
    let (_, mut quest, mut claim) = claimed_quest(500, 50_000);
    quest.current_claimers = 0;
    quest.status = QuestStatus::Active;
    abandon_claim(&mut quest, &mut claim, claimer()).unwrap();
    assert_eq!(quest.current_claimers, 0);
    assert_eq!(quest.status, QuestStatus::Active);
}

#[test]
fn abandonment_leaves_a_partly_claimed_quest_active() {
    let mut config = config_with_fee(500);
    let mut quest = open_quest(&mut config, 1_000_000, 3);
    let (mut first, _) =
        claim_quest(&mut quest, quest_key(), claimer(), 50_000, START, 1).unwrap();
    claim_quest(&mut quest, quest_key(), other_claimer(), 50_000, START, 1).unwrap();
    abandon_claim(&mut quest, &mut first, claimer()).unwrap();
    assert_eq!((quest.status, quest.current_claimers), (QuestStatus::Active, 1));
}

#[test]
fn auto_approval_waits_until_the_review_deadline_has_passed() {
    let (config, quest, claim) = submitted_quest(500, 50_000);
    let deadline = claim.review_deadline.unwrap();
    assert_eq!(deadline, claim.submitted_at.unwrap() + 24 * 3_600);
    let mut quest_at = quest;
    let mut claim_at = claim;
    assert_eq!(
        auto_approve(&config, &mut quest_at, &mut claim_at, deadline),
        Err(QuestError::DeadlineNotReached)
    );
    assert_eq!((quest_at, claim_at), (quest, claim));
    let effects = auto_approve(&config, &mut quest_at, &mut claim_at, deadline + 1).unwrap();
    assert_eq!(
        effects.transfers,
        vec![pay_out(Party::Claimer, 1_000_000), pay_out(Party::Treasury, 50_000)]
    );
    assert_eq!(
        effects.event,
        QuestCompleted {
            quest_id: 0,
            claimer: claimer(),
            reward_amount: 950_000,
            fee_amount: 50_000,
        }
    );
    assert_eq!(quest_at.status, QuestStatus::Completed);
    assert_eq!(claim_at.status, ClaimStatus::Approved);
}

#[test]
fn auto_approval_pays_as_the_arbiter_would() {
    let (config, quest, claim) = submitted_quest(250, 123_456);
    let (mut quest_a, mut claim_a) = (quest, claim);
    let (mut quest_b, mut claim_b) = (quest, claim);
    let by_arbiter = approve_completion(&config, &mut quest_a, &mut claim_a, authority()).unwrap();
    let by_timeout =
        auto_approve(&config, &mut quest_b, &mut claim_b, claim.review_deadline.unwrap() + 1)
            .unwrap();
    assert_eq!(by_arbiter, by_timeout);
    assert_eq!((quest_a, claim_a), (quest_b, claim_b));
}

#[test]
fn cancellation_returns_the_reward() {
    let mut config = config_with_fee(500);
    let mut quest = open_quest(&mut config, 2_500_000, 4);
    let effects = cancel_quest(&mut quest, creator()).unwrap();
    assert_eq!(effects.transfers, vec![pay_out(Party::Creator, 2_500_000)]);
    assert_eq!(effects.event, QuestCancelled { quest_id: 0, creator: creator() });
    assert_eq!(quest.status, QuestStatus::Cancelled);
}

#[test]
fn escrow_holds_reward_and_live_stakes_through_a_quest() {
    let mut config = config_with_fee(300);
    let mut balance: i128 = 0;
    let (mut quest, effects) = create_quest(
        &mut config,
        creator(),
        escrow(),
        mint(),
        4_000_000,
        QuestType::Open,
        None,
        2,
        None,
        [0; 32],
        START,
        1,
    )
    .unwrap();
    settle(&mut balance, &effects.transfers);
    assert_eq!(balance, 4_000_000);
    assert_eq!(balance, due(&quest, &[]));

    let (mut first, effects) =
        claim_quest(&mut quest, quest_key(), claimer(), 200_000, START + 1, 1).unwrap();
    settle(&mut balance, &effects.transfers);
    assert_eq!(balance, 4_200_000);
    assert_eq!(balance, due(&quest, &[&first]));

    let (mut second, effects) =
        claim_quest(&mut quest, quest_key(), other_claimer(), 300_000, START + 2, 1).unwrap();
    settle(&mut balance, &effects.transfers);
    assert_eq!(balance, 4_500_000);
    assert_eq!(balance, due(&quest, &[&first, &second]));

    let effects = abandon_claim(&mut quest, &mut second, other_claimer()).unwrap();
    settle(&mut balance, &effects.transfers);
    assert_eq!(balance, 4_200_000);
    assert_eq!(balance, due(&quest, &[&first, &second]));

    let effects = submit_proof(&quest, &mut first, claimer(), [1; 32], START + 3).unwrap();
    settle(&mut balance, &effects.transfers);
    assert_eq!(balance, 4_200_000);
    assert_eq!(balance, due(&quest, &[&first, &second]));

    let effects = approve_completion(&config, &mut quest, &mut first, authority()).unwrap();
    settle(&mut balance, &effects.transfers);
    assert_eq!(balance, 0);
    assert_eq!(balance, due(&quest, &[&first, &second]));
    assert_eq!(quest.status, QuestStatus::Completed);
}

#[test]
fn escrow_is_empty_after_each_way_to_close_a_quest() {
    for way in 0..5 {
        let (config, mut quest, mut claim) = submitted_quest(700, 90_000);
        let mut balance: i128 = 1_090_000;
        assert_eq!(balance, due(&quest, &[&claim]));
        let after_review = claim.review_deadline.unwrap() + 1;
        let transfers = match way {
            0 => approve_completion(&config, &mut quest, &mut claim, authority()).unwrap().transfers,
            1 => auto_approve(&config, &mut quest, &mut claim, after_review).unwrap().transfers,
            2 => {
                reject_completion(&config, &mut quest, &mut claim, authority(), true)
                    .unwrap()
                    .transfers
            },
            3 => {
                reject_completion(&config, &mut quest, &mut claim, authority(), false)
                    .unwrap()
                    .transfers
            },
            _ => {
                let (_, mut held, mut active) = claimed_quest(700, 90_000);
                let mut out = abandon_claim(&mut held, &mut active, claimer()).unwrap().transfers;
                out.extend(cancel_quest(&mut held, creator()).unwrap().transfers);
                quest = held;
                claim = active;
                out
            },
        };
        settle(&mut balance, &transfers);
        assert_eq!(balance, 0);
        assert_eq!(balance, due(&quest, &[&claim]));
    }
}

#[test]
fn approval_leaves_the_stakes_of_other_live_claims() {
    let mut config = config_with_fee(500);
    let mut quest = open_quest(&mut config, 1_000_000, 2);
    let (mut first, _) =
        claim_quest(&mut quest, quest_key(), claimer(), 50_000, START, 1).unwrap();
    let (second, _) =
        claim_quest(&mut quest, quest_key(), other_claimer(), 60_000, START, 1).unwrap();
    let mut balance: i128 = 1_110_000;
    submit_proof(&quest, &mut first, claimer(), [1; 32], START + 1).unwrap();
    let effects = approve_completion(&config, &mut quest, &mut first, authority()).unwrap();
    settle(&mut balance, &effects.transfers);
    assert_eq!(balance, 60_000);
    assert_eq!(balance, due(&quest, &[&first, &second]));
}

#[test]
fn claimers_never_outnumber_the_limit() {
    let mut config = config_with_fee(500);
    let mut quest = open_quest(&mut config, 1_000_000, 3);
    let mut claims: Vec<Claim> = Vec::new();
    for round in 0..20u8 {
        let who = party(100 + round);
        match claim_quest(&mut quest, quest_key(), who, 50_000, START, 1) {
            Ok((claim, _)) => claims.push(claim),
            Err(reason) => {
                assert_eq!(reason, QuestError::QuestNotActive);
                let mut gone = claims.remove(0);
                let who_left = gone.claimer;
                abandon_claim(&mut quest, &mut gone, who_left).unwrap();
            },
        }
        assert!(quest.current_claimers <= quest.max_claimers);
        assert_eq!(quest.current_claimers as usize, claims.len());
        assert_eq!(
            quest.status == QuestStatus::Claimed,
            quest.current_claimers == quest.max_claimers
        );
    }
}

#[test]
fn final_claim_refuses_every_operation() {
    let finals = [
        ClaimStatus::Approved,
        ClaimStatus::Rejected,
        ClaimStatus::Abandoned,
        ClaimStatus::Expired,
    ];
    for status in finals {
        let (config, quest, submitted) = submitted_quest(500, 50_000);
        let closed = Claim { status, ..submitted };
        let late = i64::MAX;
        let (mut q, mut c) = (quest, closed);
        assert_eq!(
            submit_proof(&q, &mut c, claimer(), [1; 32], START + 30),
            Err(QuestError::ClaimNotActive)
        );
        assert_eq!(abandon_claim(&mut q, &mut c, claimer()), Err(QuestError::ClaimNotActive));
        assert_eq!(expire_claim(&mut q, &mut c, late), Err(QuestError::ClaimNotActive));
        assert_eq!(
            approve_completion(&config, &mut q, &mut c, authority()),
            Err(QuestError::ClaimNotSubmitted)
        );
        assert_eq!(
            reject_completion(&config, &mut q, &mut c, authority(), true),
            Err(QuestError::ClaimNotSubmitted)
        );
        assert_eq!(
            reject_completion(&config, &mut q, &mut c, authority(), false),
            Err(QuestError::ClaimNotSubmitted)
        );
        assert_eq!(auto_approve(&config, &mut q, &mut c, late), Err(QuestError::ClaimNotSubmitted));
        assert_eq!((q, c), (quest, closed));
    }
}

#[test]
fn final_quest_takes_no_claim_and_no_cancellation() {
    let finals = [QuestStatus::Completed, QuestStatus::Failed, QuestStatus::Cancelled];
    for status in finals {
        let mut config = config_with_fee(500);
        let quest = Quest { status, ..open_quest(&mut config, 1_000_000, 2) };
        let mut q = quest;
        assert_eq!(
            claim_quest(&mut q, quest_key(), claimer(), 50_000, START, 1),
            Err(QuestError::QuestNotActive)
        );
        assert_eq!(cancel_quest(&mut q, creator()), Err(QuestError::QuestNotActive));
        assert_eq!(q, quest);
    }
}

#[test]
fn approved_quest_and_claim_stay_as_they_are() {
    let (config, mut quest, mut claim) = submitted_quest(500, 50_000);
    approve_completion(&config, &mut quest, &mut claim, authority()).unwrap();
    let (quest_then, claim_then) = (quest, claim);
    assert_eq!(
        approve_completion(&config, &mut quest, &mut claim, authority()),
        Err(QuestError::ClaimNotSubmitted)
    );
    assert_eq!(
        reject_completion(&config, &mut quest, &mut claim, authority(), false),
        Err(QuestError::ClaimNotSubmitted)
    );
    assert_eq!(abandon_claim(&mut quest, &mut claim, claimer()), Err(QuestError::ClaimNotActive));
    assert_eq!(cancel_quest(&mut quest, creator()), Err(QuestError::QuestNotActive));
    assert_eq!(
        claim_quest(&mut quest, quest_key(), other_claimer(), 50_000, START, 1),
        Err(QuestError::QuestNotActive)
    );
    assert_eq!((quest, claim), (quest_then, claim_then));
}
