use anchor_lang::prelude::Pubkey;
use neptune::instructions::{BeginUnstaking, CreateVault, MergeUnstake, Stake, WithdrawUnstake};
use neptune::{Effect, NeptuneError, Unstaking, Vault};

fn funded_vault(total_lst_minted: u64, total_utoken_staked: u64) -> Vault {
    Vault {
        owner: Pubkey::new_unique(),
        escrow: Pubkey::new_unique(),
        lst_mint: Pubkey::new_unique(),
        total_lst_minted,
        total_utoken_staked,
        fees_bps: 100,
        bump: 254,
    }
}

fn ticket(owner: Pubkey, lst_amt: u64, utoken_amt: u64) -> Unstaking {
    Unstaking {
        owner,
        vault: Pubkey::new_unique(),
        partial_unstaking: Pubkey::new_unique(),
        lst_amt,
        utoken_amt,
    }
}

#[test]
fn create_vault_writes_an_empty_record() {
    let stale = funded_vault(5, 6);
    let mut ctx = CreateVault {
        vault: stale,
        escrow: Pubkey::new_unique(),
        lst_mint: Pubkey::new_unique(),
        vault_owner: Pubkey::new_unique(),
    };
    let before = ctx;
    let effects = ctx.create_vault(253, 1_000).unwrap();
    assert_eq!(
        effects,
        vec![Effect::NewEscrow, Effect::ToggleMaxLock { is_max_lock: true }]
    );
    assert_eq!(
        ctx.vault,
        Vault {
            owner: before.vault_owner,
            escrow: before.escrow,
            lst_mint: before.lst_mint,
            total_lst_minted: 0,
            total_utoken_staked: 0,
            fees_bps: 1_000,
            bump: 253,
        }
    );
    assert_eq!(ctx.escrow, before.escrow);
    assert_eq!(ctx.lst_mint, before.lst_mint);
    assert_eq!(ctx.vault_owner, before.vault_owner);
}

#[test]
fn create_vault_takes_fee_rates_below_one_hundred_per_cent() {
    for fees_bps in [0_u16, 1, 9_999] {
        let mut ctx = CreateVault {
            vault: Vault::default(),
            escrow: Pubkey::new_unique(),
            lst_mint: Pubkey::new_unique(),
            vault_owner: Pubkey::new_unique(),
        };
        assert!(ctx.create_vault(1, fees_bps).is_ok());
        assert_eq!(ctx.vault.fees_bps, fees_bps);
    }
}

#[test]
fn create_vault_refuses_fee_rates_from_one_hundred_per_cent() {
    for fees_bps in [10_000_u16, 10_001, u16::MAX] {
        let mut ctx = CreateVault {
            vault: funded_vault(5, 6),
            escrow: Pubkey::new_unique(),
            lst_mint: Pubkey::new_unique(),
            vault_owner: Pubkey::new_unique(),
        };
        let before = ctx;
        assert_eq!(ctx.create_vault(1, fees_bps), Err(NeptuneError::InvalidBPS));
        assert_eq!(ctx, before);
    }
}

#[test]
fn stake_test_test_stake() {
    let mut ctx = Stake { vault: funded_vault(0, 0) };
    let effects = ctx.stake(10_000).unwrap();
    assert_eq!(
        effects,
        vec![
            Effect::IncreaseLockedAmount { amount: 10_000 },
            Effect::MintTo { amount: 10_000 },
        ]
    );
    assert_eq!(ctx.vault.total_lst_minted, 10_000);
    assert_eq!(ctx.vault.total_utoken_staked, 10_000);
}

#[test]
fn lib_test_stake() {
    let vault_owner = Pubkey::new_unique();
    let player = Pubkey::new_unique();
    let fees = 1000_u16;
    let decimals = 6_u32;
    let vault_pk = Pubkey::new_unique();
    let escrow_pk = Pubkey::new_unique();
    let lst_mint_pk = Pubkey::new_unique();

    let mut create = CreateVault {
        vault: Vault::default(),
        escrow: escrow_pk,
        lst_mint: lst_mint_pk,
        vault_owner,
    };
    create.create_vault(255, fees).unwrap();
    let vault_account = create.vault;

    assert_eq!(vault_account.escrow, escrow_pk);
    assert_eq!(vault_account.fees_bps, fees);
    assert_eq!(vault_account.lst_mint, lst_mint_pk);
    assert_eq!(vault_account.owner, vault_owner);

    let stake_amt = 1000_u64 * 10_u64.pow(decimals);
    let mut stake = Stake { vault: vault_account };
    let effects = stake.stake(stake_amt).unwrap();
    let mut player_lst = 0_u64;
    for effect in effects {
        if let Effect::MintTo { amount } = effect {
            player_lst += amount;
        }
    }
    assert_eq!(player_lst, stake_amt, "lst amount should match stake amount");
    assert_eq!(
        stake.vault.total_utoken_staked, stake_amt,
        "total_utoken_staked should match stake amount"
    );

    let stake_amt_2st = 2000_u64 * 10_u64.pow(decimals);
    let effects = stake.stake(stake_amt_2st).unwrap();
    for effect in effects {
        if let Effect::MintTo { amount } = effect {
            player_lst += amount;
        }
    }
    let total_amount = 3000_u64 * 10_u64.pow(decimals);
    assert_eq!(player_lst, total_amount, "lst amount should match stake amount");
    assert_eq!(
        stake.vault.total_utoken_staked, total_amount,
        "total_utoken_staked should match stake amount"
    );

    let unstaking_amount = 1000_u64 * 10_u64.pow(decimals);
    let mut begin = BeginUnstaking {
        signer: player,
        vault_key: vault_pk,
        vault: stake.vault,
        partial_unstaking: Pubkey::new_unique(),
        unstaking: Unstaking::default(),
    };
    begin.begin_unstaking(unstaking_amount).unwrap();
    assert_eq!(begin.unstaking.owner, player);
    assert_eq!(begin.unstaking.lst_amt, unstaking_amount);
}

#[test]
fn stake_mints_at_the_present_price() {
    let mut ctx = Stake { vault: funded_vault(100, 110) };
    let before = ctx.vault;
    let effects = ctx.stake(12).unwrap();
    assert_eq!(
        effects,
        vec![
            Effect::IncreaseLockedAmount { amount: 12 },
            Effect::MintTo { amount: 10 },
        ]
    );
    assert_eq!(ctx.vault.total_lst_minted, 110);
    assert_eq!(ctx.vault.total_utoken_staked, 122);
    assert_eq!(ctx.vault.owner, before.owner);
    assert_eq!(ctx.vault.escrow, before.escrow);
    assert_eq!(ctx.vault.lst_mint, before.lst_mint);
    assert_eq!(ctx.vault.fees_bps, before.fees_bps);
    assert_eq!(ctx.vault.bump, before.bump);
}

#[test]
fn stake_refuses_nothing() {
    let mut ctx = Stake { vault: funded_vault(100, 110) };
    let before = ctx;
    assert_eq!(ctx.stake(0), Err(NeptuneError::AmtMustGreaterThanZero));
    assert_eq!(ctx, before);
}

#[test]
fn stake_refuses_overflow_and_changes_nothing() {
    let mut ctx = Stake { vault: funded_vault(u64::MAX, 1) };
    let before = ctx;
    assert_eq!(ctx.stake(2), Err(NeptuneError::ArithmeticOverflow));
    assert_eq!(ctx, before);

    let mut ctx = Stake { vault: funded_vault(u64::MAX - 5, u64::MAX - 5) };
    let before = ctx;
    assert_eq!(ctx.stake(6), Err(NeptuneError::ArithmeticOverflow));
    assert_eq!(ctx, before);
    assert!(ctx.stake(5).is_ok());
    assert_eq!(ctx.vault.total_lst_minted, u64::MAX);
    assert_eq!(ctx.vault.total_utoken_staked, u64::MAX);

    let mut ctx = Stake { vault: funded_vault(1, u64::MAX) };
    let before = ctx;
    assert_eq!(ctx.stake(1), Err(NeptuneError::ArithmeticOverflow));
    assert_eq!(ctx, before);
}

#[test]
fn begin_unstaking_writes_the_ticket_and_reads_the_vault() {
    let signer = Pubkey::new_unique();
    let vault_key = Pubkey::new_unique();
    let partial_unstaking = Pubkey::new_unique();
    let vault = funded_vault(100, 110);
    let mut ctx = BeginUnstaking {
        signer,
        vault_key,
        vault,
        partial_unstaking,
        unstaking: Unstaking::default(),
    };
    let effects = ctx.begin_unstaking(10).unwrap();
    assert_eq!(
        effects,
        vec![
            Effect::TransferToEscrow { amount: 10 },
            Effect::OpenPartialUnstaking { amount: 11 },
        ]
    );
    assert_eq!(
        ctx.unstaking,
        Unstaking { owner: signer, vault: vault_key, partial_unstaking, lst_amt: 10, utoken_amt: 11 }
    );
    assert_eq!(ctx.vault, vault);
    assert_eq!(ctx.signer, signer);
    assert_eq!(ctx.vault_key, vault_key);
    assert_eq!(ctx.partial_unstaking, partial_unstaking);
}

#[test]
fn begin_unstaking_rounds_down() {
    let mut ctx = BeginUnstaking {
        signer: Pubkey::new_unique(),
        vault_key: Pubkey::new_unique(),
        vault: funded_vault(100, 110),
        partial_unstaking: Pubkey::new_unique(),
        unstaking: Unstaking::default(),
    };
    ctx.begin_unstaking(7).unwrap();
    assert_eq!(ctx.unstaking.lst_amt, 7);
    assert_eq!(ctx.unstaking.utoken_amt, 7);
}

#[test]
fn begin_unstaking_refuses_nothing() {
    let mut ctx = BeginUnstaking {
        signer: Pubkey::new_unique(),
        vault_key: Pubkey::new_unique(),
        vault: funded_vault(100, 110),
        partial_unstaking: Pubkey::new_unique(),
        unstaking: Unstaking::default(),
    };
    let before = ctx;
    assert_eq!(ctx.begin_unstaking(0), Err(NeptuneError::AmtMustGreaterThanZero));
    assert_eq!(ctx, before);
}

#[test]
fn begin_unstaking_refuses_overflow() {
    let mut ctx = BeginUnstaking {
        signer: Pubkey::new_unique(),
        vault_key: Pubkey::new_unique(),
        vault: funded_vault(2, u64::MAX),
        partial_unstaking: Pubkey::new_unique(),
        unstaking: Unstaking::default(),
    };
    let before = ctx;
    assert_eq!(ctx.begin_unstaking(3), Err(NeptuneError::ArithmeticOverflow));
    assert_eq!(ctx, before);
}

#[test]
fn merge_unstaking_hands_the_shares_back() {
    let signer = Pubkey::new_unique();
    let mut ctx = MergeUnstake {
        signer,
        vault: funded_vault(100, 110),
        unstaking: ticket(signer, 10, 11),
    };
    let before = ctx;
    let effects = ctx.merge_unstaking().unwrap();
    assert_eq!(
        effects,
        vec![
            Effect::TransferFromEscrow { amount: 10 },
            Effect::MergePartialUnstaking,
            Effect::CloseUnstaking,
        ]
    );
    assert_eq!(ctx, before);
}

#[test]
fn merge_unstaking_refuses_a_stranger() {
    let mut ctx = MergeUnstake {
        signer: Pubkey::new_unique(),
        vault: funded_vault(100, 110),
        unstaking: ticket(Pubkey::new_unique(), 10, 11),
    };
    let before = ctx;
    assert_eq!(ctx.merge_unstaking(), Err(NeptuneError::InvalidOwner));
    assert_eq!(ctx, before);
}

#[test]
fn withdraw_unstake_settles_the_ticket() {
    let signer = Pubkey::new_unique();
    let vault = funded_vault(100, 110);
    let mut ctx = WithdrawUnstake {
        signer,
        vault,
        unstaking: ticket(signer, 10, 11),
        lst_escrow_amount: 10,
    };
    let before = ctx;
    let effects = ctx.withdraw_unstake().unwrap();
    assert_eq!(
        effects,
        vec![
            Effect::WithdrawPartialUnstaking { amount: 11 },
            Effect::Burn { amount: 10 },
            Effect::CloseEscrow,
            Effect::CloseUnstaking,
        ]
    );
    assert_eq!(ctx.vault.total_lst_minted, 90);
    assert_eq!(ctx.vault.total_utoken_staked, 99);
    assert_eq!(ctx.vault.owner, vault.owner);
    assert_eq!(ctx.vault.escrow, vault.escrow);
    assert_eq!(ctx.vault.lst_mint, vault.lst_mint);
    assert_eq!(ctx.vault.fees_bps, vault.fees_bps);
    assert_eq!(ctx.vault.bump, vault.bump);
    assert_eq!(ctx.signer, before.signer);
    assert_eq!(ctx.unstaking, before.unstaking);
    assert_eq!(ctx.lst_escrow_amount, before.lst_escrow_amount);
}

#[test]
fn withdraw_unstake_returns_what_exceeds_the_ticket() {
    let signer = Pubkey::new_unique();
    let mut ctx = WithdrawUnstake {
        signer,
        vault: funded_vault(100, 110),
        unstaking: ticket(signer, 10, 11),
        lst_escrow_amount: 17,
    };
    let effects = ctx.withdraw_unstake().unwrap();
    assert_eq!(
        effects,
        vec![
            Effect::WithdrawPartialUnstaking { amount: 11 },
            Effect::TransferFromEscrow { amount: 7 },
            Effect::Burn { amount: 10 },
            Effect::CloseEscrow,
            Effect::CloseUnstaking,
        ]
    );
    let mut in_custody = 17_u64;
    for effect in effects {
        match effect {
            Effect::TransferFromEscrow { amount } => in_custody -= amount,
            Effect::Burn { amount } => in_custody -= amount,
            Effect::CloseEscrow => assert_eq!(in_custody, 0),
            _ => {}
        }
    }
    assert_eq!(in_custody, 0);
    assert_eq!(ctx.vault.total_lst_minted, 90);
    assert_eq!(ctx.vault.total_utoken_staked, 99);
}

#[test]
fn withdraw_unstake_refuses_a_stranger() {
    let mut ctx = WithdrawUnstake {
        signer: Pubkey::new_unique(),
        vault: funded_vault(100, 110),
        unstaking: ticket(Pubkey::new_unique(), 10, 11),
        lst_escrow_amount: 10,
    };
    let before = ctx;
    assert_eq!(ctx.withdraw_unstake(), Err(NeptuneError::InvalidOwner));
    assert_eq!(ctx, before);
}

#[test]
fn withdraw_unstake_refuses_what_the_vault_has_not_on_record() {
    let signer = Pubkey::new_unique();
    for (lst_amt, utoken_amt) in [(101_u64, 11_u64), (10, 111), (101, 111)] {
        let mut ctx = WithdrawUnstake {
            signer,
            vault: funded_vault(100, 110),
            unstaking: ticket(signer, lst_amt, utoken_amt),
            lst_escrow_amount: lst_amt,
        };
        let before = ctx;
        assert_eq!(ctx.withdraw_unstake(), Err(NeptuneError::InvalidUnstakeAmt));
        assert_eq!(ctx, before);
    }
}

#[test]
fn withdraw_unstake_refuses_a_short_custody_account() {
    let signer = Pubkey::new_unique();
    let mut ctx = WithdrawUnstake {
        signer,
        vault: funded_vault(100, 110),
        unstaking: ticket(signer, 10, 11),
        lst_escrow_amount: 9,
    };
    let before = ctx;
    assert_eq!(ctx.withdraw_unstake(), Err(NeptuneError::EscrowAmtIsNotCorrect));
    assert_eq!(ctx, before);
}

#[test]
fn withdraw_unstake_names_the_first_reason_to_refuse() {
    let signer = Pubkey::new_unique();
    let mut ctx = WithdrawUnstake {
        signer: Pubkey::new_unique(),
        vault: funded_vault(100, 110),
        unstaking: ticket(signer, 101, 11),
        lst_escrow_amount: 0,
    };
    assert_eq!(ctx.withdraw_unstake(), Err(NeptuneError::InvalidOwner));
    ctx.signer = signer;
    assert_eq!(ctx.withdraw_unstake(), Err(NeptuneError::InvalidUnstakeAmt));
    ctx.unstaking.lst_amt = 100;
    assert_eq!(ctx.withdraw_unstake(), Err(NeptuneError::EscrowAmtIsNotCorrect));
    ctx.lst_escrow_amount = 100;
    assert!(ctx.withdraw_unstake().is_ok());
}
