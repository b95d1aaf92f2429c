use nft_challenge::AdminError;
use nft_challenge::ApprovalOutcome;
use nft_challenge::ClaimOutcome;
use nft_challenge::Contract;
use nft_challenge::InitError;
use nft_challenge::MintError;
use nft_challenge::NFTTokenMetadata;
use nft_challenge::TokenCompliant;

fn empty_metadata() -> NFTTokenMetadata {
    NFTTokenMetadata {
        title: None,
        description: None,
        media: None,
        copies: None,
        expires_at: None,
        starts_at: None,
        extra: None,
        reference: None,
        reference_hash: None,
        media_hash: None,
    }
}

fn burn_challenge() -> Contract {
    match Contract::new(
        "owner_id".to_string(),
        "creator_id".to_string(),
        "name".to_string(),
        "description".to_string(),
        "media_link".to_string(),
        "reward_nft".to_string(),
        vec!["piece_one.near".to_string(), "piece_two.near".to_string()],
        vec![true, false],
        1000000000000,
        2,
        true,
        empty_metadata(),
    ) {
        Ok(c) => c,
        Err(e) => panic!("challenge construction failed: {:?}", e),
    }
}

fn owned(token_id: &str) -> Option<Vec<TokenCompliant>> {
    Some(vec![TokenCompliant {
        token_id: token_id.to_string(),
    }])
}

#[test]
fn burn_flagged_claim_runs_every_round() {
    let mut challenge = burn_challenge();
    let account = "account_id".to_string();
    assert!(challenge.initiate_claim(&account, 0).is_ok());
    assert_eq!(challenge.potential_winners_left(), 1);

    // Ownership round: both items owned, first tokens are captured.
    let outcome = challenge.on_claim(&account, &vec![owned("11"), owned("22")]);
    let token_ids = match outcome {
        ClaimOutcome::NeedApprovals { token_ids } => token_ids,
        other => panic!("expected the approval round, got {:?}", other),
    };
    assert_eq!(token_ids, vec!["11".to_string(), "22".to_string()]);

    // The approval fan-out pairs each item's registry with its own token.
    let queries = challenge.have_approvals_for_transfers(&token_ids);
    assert_eq!(
        queries,
        vec![
            ("piece_one.near".to_string(), "11".to_string()),
            ("piece_two.near".to_string(), "22".to_string()),
        ]
    );

    // Approval round: both approvals in hand, transfers are index-aligned.
    let outcome = challenge.on_approval_check(&token_ids, &vec![Some(5), Some(9)]);
    let transfers = match outcome {
        ApprovalOutcome::Transfers { transfers } => transfers,
        other => panic!("expected the transfer round, got {:?}", other),
    };
    assert_eq!(
        transfers,
        vec![
            ("piece_one.near".to_string(), "11".to_string(), 5),
            ("piece_two.near".to_string(), "22".to_string(), 9),
        ]
    );

    // Burn fan-out, then a fully successful burn round commits the claim.
    let burns = challenge.burn_nfts(&token_ids);
    assert_eq!(
        burns,
        vec![
            ("piece_one.near".to_string(), "11".to_string()),
            ("piece_two.near".to_string(), "22".to_string()),
        ]
    );
    assert!(challenge.on_burn_nfts(&account, &vec![true, true]));
    assert_eq!(challenge.is_account_winner(&account), true);
    assert_eq!(challenge.get_challenge_metadata().winners_count, 1);
    assert_eq!(challenge.potential_winners_left(), 1);
}

#[test]
fn missing_approval_fails_claim_and_restores_slot() {
    let mut challenge = burn_challenge();
    let account = "account_id".to_string();
    assert!(challenge.initiate_claim(&account, 0).is_ok());
    let outcome = challenge.on_claim(&account, &vec![owned("11"), owned("22")]);
    let token_ids = match outcome {
        ClaimOutcome::NeedApprovals { token_ids } => token_ids,
        other => panic!("expected the approval round, got {:?}", other),
    };
    let outcome = challenge.on_approval_check(&token_ids, &vec![Some(5), None]);
    match outcome {
        ApprovalOutcome::NotApproved { failed_index } => assert_eq!(failed_index, 1),
        other => panic!("expected a not-approved outcome, got {:?}", other),
    }
    assert_eq!(challenge.potential_winners_left(), 2);
    assert_eq!(challenge.get_challenge_metadata().winners_count, 0);
    assert_eq!(challenge.is_account_winner(&account), false);
}

#[test]
fn failed_burn_fails_claim_and_restores_slot() {
    let mut challenge = burn_challenge();
    let account = "account_id".to_string();
    assert!(challenge.initiate_claim(&account, 0).is_ok());
    let outcome = challenge.on_claim(&account, &vec![owned("11"), owned("22")]);
    let token_ids = match outcome {
        ClaimOutcome::NeedApprovals { token_ids } => token_ids,
        other => panic!("expected the approval round, got {:?}", other),
    };
    let outcome = challenge.on_approval_check(&token_ids, &vec![Some(5), Some(9)]);
    assert!(matches!(outcome, ApprovalOutcome::Transfers { .. }));
    assert!(!challenge.on_burn_nfts(&account, &vec![true, false]));
    assert_eq!(challenge.potential_winners_left(), 2);
    assert_eq!(challenge.get_challenge_metadata().winners_count, 0);
    assert_eq!(challenge.is_account_winner(&account), false);
}

#[test]
fn new_rejects_invalid_owner_account() {
    let attempt = |owner: &str| {
        Contract::new(
            owner.to_string(),
            "creator_id".to_string(),
            "name".to_string(),
            "description".to_string(),
            "media_link".to_string(),
            "reward_nft".to_string(),
            vec!["piece_one.near".to_string()],
            vec![false],
            1000000000000,
            1,
            true,
            empty_metadata(),
        )
    };
    assert!(matches!(attempt("x"), Err(InitError::InvalidOwnerId)));
    assert!(matches!(attempt("Owner!"), Err(InitError::InvalidOwnerId)));
    assert!(matches!(attempt("two..dots"), Err(InitError::InvalidOwnerId)));
    assert!(matches!(attempt("ends."), Err(InitError::InvalidOwnerId)));
    assert!(attempt("a-valid.owner_0").is_ok());
}

#[test]
fn new_rejects_ill_formed_item_lists() {
    let attempt = |ids: Vec<&str>, burn: Vec<bool>, limit: u64| {
        Contract::new(
            "owner_id".to_string(),
            "creator_id".to_string(),
            "name".to_string(),
            "description".to_string(),
            "media_link".to_string(),
            "reward_nft".to_string(),
            ids.into_iter().map(|s| s.to_string()).collect(),
            burn,
            1000000000000,
            limit,
            true,
            empty_metadata(),
        )
    };
    assert!(matches!(
        attempt(vec!["a.near"], vec![true, false], 1),
        Err(InitError::LengthMismatch)
    ));
    assert!(matches!(
        attempt(vec![], vec![], 1),
        Err(InitError::NoChallengeItems)
    ));
    assert!(matches!(
        attempt(vec!["a.near"], vec![true], 0),
        Err(InitError::WinnerLimitZero)
    ));
    assert!(matches!(
        attempt(vec!["a.near", "b.near", "a.near"], vec![true, false, true], 1),
        Err(InitError::DuplicateChallengeIds)
    ));
    assert!(attempt(vec!["a.near", "b.near"], vec![true, false], 1).is_ok());
}

#[test]
fn mint_is_gated_by_winning_and_fee() {
    let mut challenge = burn_challenge();
    let account = "account_id".to_string();
    assert_eq!(
        challenge.mint_nft(&account, 100),
        Err(MintError::NotWinner)
    );
    assert!(challenge.initiate_claim(&account, 0).is_ok());
    let outcome = challenge.on_claim(&account, &vec![owned("11"), owned("22")]);
    let token_ids = match outcome {
        ClaimOutcome::NeedApprovals { token_ids } => token_ids,
        other => panic!("expected the approval round, got {:?}", other),
    };
    let outcome = challenge.on_approval_check(&token_ids, &vec![Some(5), Some(9)]);
    assert!(matches!(outcome, ApprovalOutcome::Transfers { .. }));
    assert!(challenge.on_burn_nfts(&account, &vec![true, true]));
    assert_eq!(
        challenge.mint_nft(&account, 53),
        Err(MintError::InsufficientDeposit)
    );
    assert_eq!(challenge.mint_nft(&account, 54), Ok(()));
    assert_eq!(challenge.mint_nft_callback(true), Ok(()));
    assert_eq!(
        challenge.mint_nft_callback(false),
        Err(MintError::MintFailed)
    );
}

#[test]
fn completion_toggle_is_owner_gated() {
    let mut challenge = burn_challenge();
    assert_eq!(
        challenge.update_challenge_completion_status(&"stranger.near".to_string(), true),
        Err(AdminError::NotChallengeOwner)
    );
    assert_eq!(challenge.is_challenge_complete(), false);
    assert_eq!(
        challenge.update_challenge_completion_status(&"owner_id".to_string(), true),
        Ok(())
    );
    assert_eq!(challenge.is_challenge_complete(), true);
    assert_eq!(
        challenge.update_challenge_completion_status(&"owner_id".to_string(), false),
        Ok(())
    );
    assert_eq!(challenge.is_challenge_complete(), false);
}

#[test]
fn completion_toggle_respects_update_permission() {
    let challenge = Contract::new(
        "owner_id".to_string(),
        "creator_id".to_string(),
        "name".to_string(),
        "description".to_string(),
        "media_link".to_string(),
        "reward_nft".to_string(),
        vec!["piece_one.near".to_string()],
        vec![false],
        1000000000000,
        1,
        false,
        empty_metadata(),
    );
    let mut challenge = match challenge {
        Ok(c) => c,
        Err(e) => panic!("challenge construction failed: {:?}", e),
    };
    assert_eq!(
        challenge.update_challenge_completion_status(&"owner_id".to_string(), true),
        Err(AdminError::CreatorCannotUpdate)
    );
    assert_eq!(challenge.is_challenge_complete(), false);
}

#[test]
fn reward_metadata_is_carried() {
    let challenge = Contract::new(
        "owner_id".to_string(),
        "creator_id".to_string(),
        "name".to_string(),
        "description".to_string(),
        "media_link".to_string(),
        "reward_nft".to_string(),
        vec!["piece_one.near".to_string()],
        vec![false],
        1000000000000,
        1,
        true,
        NFTTokenMetadata {
            title: Some("Reward NFT".to_string()),
            description: Some("A description for a reward NFT".to_string()),
            media: Some("A link to an image!".to_string()),
            media_hash: Some(vec![1, 2, 3]),
            copies: Some(7),
            expires_at: None,
            starts_at: None,
            extra: None,
            reference: None,
            reference_hash: None,
        },
    );
    let challenge = match challenge {
        Ok(c) => c,
        Err(e) => panic!("challenge construction failed: {:?}", e),
    };
    let metadata = challenge.get_challenge_metadata().reward_nft_metadata;
    assert_eq!(metadata.title, Some("Reward NFT".to_string()));
    assert_eq!(
        metadata.description,
        Some("A description for a reward NFT".to_string())
    );
    assert_eq!(metadata.media, Some("A link to an image!".to_string()));
    assert_eq!(metadata.media_hash, Some(vec![1, 2, 3]));
    assert_eq!(metadata.copies, Some(7));
    assert_eq!(metadata.expires_at, None);
}
