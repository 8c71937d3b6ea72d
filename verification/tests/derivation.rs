use anchor_lang::prelude::Pubkey;
use domain_escrow::accounts::{Mint, SignerSeeds, TokenAccount, VaultAuthority};
use domain_escrow::authority::{
    authority_from, derive_vault_authority, record_seed_bytes, signer_seed_bytes, vault_authority,
};
use domain_escrow::contexts::deposit::Deposit;
use domain_escrow::contexts::withdraw::Withdraw;
use domain_escrow::error::EscrowError;
use domain_escrow::escrow::{deposit, make_loan_offer, make_sell_offer, withdraw};
use domain_escrow::contexts::make_loan_offer::MakeLoanOffer;
use domain_escrow::contexts::make_sell_offer::MakeSellOffer;
use domain_escrow::identity::Identity;

fn id(byte: u8) -> Identity {
    Identity::new([byte; 32])
}

fn program() -> Identity {
    id(0x11)
}

fn maker() -> Identity {
    id(1)
}

fn asset() -> Mint {
    Mint { key: id(2), decimals: 0 }
}

fn currency() -> Mint {
    Mint { key: id(3), decimals: 6 }
}

fn open_deposit() -> Deposit {
    Deposit {
        maker: maker(),
        mint_domain: asset(),
        mint_currency: currency(),
        maker_ata_domain: TokenAccount { mint: asset().key, owner: maker(), amount: 1 },
        escrow: None,
        vault: None,
    }
}

fn withdrawal(accounts: &Deposit, caller: Identity) -> Withdraw {
    Withdraw {
        maker: caller,
        mint_domain: accounts.mint_domain,
        maker_ata_domain: accounts.maker_ata_domain,
        escrow: accounts.escrow,
        vault: accounts.vault,
    }
}

fn reference_find(maker: &Identity, seed: u64, program: &Identity) -> (Identity, u8) {
    let (address, bump) = Pubkey::find_program_address(
        &[b"escrow", &maker.bytes[..], &seed.to_le_bytes()[..]],
        &Pubkey::new_from_array(program.bytes),
    );
    (Identity::new(address.to_bytes()), bump)
}

/// A nonce whose canonical salt is below 255, so that 255 derives nothing.
fn nonce_with_low_salt() -> (u64, VaultAuthority) {
    let mut seed = 0u64;
    loop {
        let authority = derive_vault_authority(&program(), &maker(), seed).unwrap();
        if authority.bump < 255 {
            return (seed, authority);
        }
        seed += 1;
    }
}

#[test]
fn record_seeds_are_tag_maker_and_little_endian_nonce() {
    let seeds = record_seed_bytes(&maker(), 7);
    assert_eq!(
        seeds,
        vec![
            vec![0x65u8, 0x73, 0x63, 0x72, 0x6f, 0x77],
            vec![1u8; 32],
            vec![7u8, 0, 0, 0, 0, 0, 0, 0],
        ]
    );
    assert_eq!(seeds[0], b"escrow".to_vec());
    let seeds = record_seed_bytes(&id(0xab), 0x0102030405060708);
    assert_eq!(seeds[1], vec![0xabu8; 32]);
    assert_eq!(seeds[2], vec![8u8, 7, 6, 5, 4, 3, 2, 1]);
}

#[test]
fn seeds_differ_between_records() {
    let base = record_seed_bytes(&maker(), 7);
    assert_ne!(base, record_seed_bytes(&maker(), 8));
    assert_ne!(base, record_seed_bytes(&id(4), 7));
    assert_ne!(base.concat(), record_seed_bytes(&maker(), 7 << 8).concat());
    assert_ne!(base.concat(), record_seed_bytes(&id(4), 7).concat());
    assert_eq!(base.concat().len(), 46);
    let signer = signer_seed_bytes(&SignerSeeds { maker: maker(), seed: 7, bump: 254 });
    assert_eq!(signer.concat().len(), 47);
    assert_ne!(
        signer.concat(),
        signer_seed_bytes(&SignerSeeds { maker: maker(), seed: 7, bump: 253 }).concat()
    );
}

#[test]
fn signer_seeds_end_with_the_salt() {
    let seeds = signer_seed_bytes(&SignerSeeds { maker: maker(), seed: 7, bump: 254 });
    assert_eq!(
        seeds,
        vec![
            b"escrow".to_vec(),
            vec![1u8; 32],
            vec![7u8, 0, 0, 0, 0, 0, 0, 0],
            vec![254u8],
        ]
    );
}

#[test]
fn derived_authority_matches_the_addressing_scheme() {
    for seed in [0u64, 7, 8, u64::MAX] {
        let authority = derive_vault_authority(&program(), &maker(), seed).unwrap();
        let (address, bump) = reference_find(&maker(), seed, &program());
        assert_eq!(authority.address, address);
        assert_eq!(authority.bump, bump);
        assert_ne!(authority.address, maker());
        assert_ne!(authority.address, program());
    }
}

#[test]
fn derivation_is_deterministic_and_separates_inputs() {
    let first = derive_vault_authority(&program(), &maker(), 7).unwrap();
    let again = derive_vault_authority(&program(), &maker(), 7).unwrap();
    assert_eq!(first, again);
    let other_nonce = derive_vault_authority(&program(), &maker(), 8).unwrap();
    let other_maker = derive_vault_authority(&program(), &id(4), 7).unwrap();
    let other_program = derive_vault_authority(&id(0x12), &maker(), 7).unwrap();
    assert_ne!(first.address, other_nonce.address);
    assert_ne!(first.address, other_maker.address);
    assert_ne!(first.address, other_program.address);
}

#[test]
fn stored_triple_rebuilds_the_authority() {
    for seed in [0u64, 7, 8, 12345] {
        let authority = derive_vault_authority(&program(), &maker(), seed).unwrap();
        let rebuilt = vault_authority(
            &program(),
            &SignerSeeds { maker: maker(), seed, bump: authority.bump },
        );
        assert_eq!(rebuilt, Some(authority.address));
        let reference = Pubkey::create_program_address(
            &[b"escrow", &maker().bytes[..], &seed.to_le_bytes()[..], &[authority.bump]],
            &Pubkey::new_from_array(program().bytes),
        )
        .unwrap();
        assert_eq!(rebuilt.unwrap().bytes, reference.to_bytes());
    }
}

#[test]
fn unusable_salt_rebuilds_nothing() {
    let (seed, authority) = nonce_with_low_salt();
    assert!(authority.bump < 255);
    let rebuilt = vault_authority(&program(), &SignerSeeds { maker: maker(), seed, bump: 255 });
    assert_eq!(rebuilt, None);
}

#[test]
fn other_salt_rebuilds_another_identity_or_nothing() {
    let authority = derive_vault_authority(&program(), &maker(), 7).unwrap();
    let mut bump = authority.bump;
    loop {
        bump = bump.wrapping_sub(1);
        let rebuilt = vault_authority(&program(), &SignerSeeds { maker: maker(), seed: 7, bump });
        if let Some(address) = rebuilt {
            assert_ne!(address, authority.address);
            break;
        }
    }
}

#[test]
fn exhausted_search_is_reported() {
    assert_eq!(authority_from(None), Err(EscrowError::DerivationExhausted));
    assert_eq!(
        authority_from(Some((id(9), 253))),
        Ok(VaultAuthority { address: id(9), bump: 253 })
    );
}

#[test]
fn program_deposit_returns_record_identifier() {
    let mut accounts = open_deposit();
    let (record, movement) = deposit(&program(), &mut accounts, 7).unwrap();
    let (address, bump) = reference_find(&maker(), 7, &program());
    assert_eq!(record, address);
    assert_eq!(accounts.escrow.unwrap().bump, bump);
    assert_eq!(accounts.escrow.unwrap().owner, maker());
    assert_eq!(accounts.escrow.unwrap().seed, 7);
    assert_eq!(accounts.vault, Some(TokenAccount { mint: asset().key, owner: address, amount: 1 }));
    assert_eq!(movement.from, maker());
    assert_eq!(movement.to, address);
    assert_eq!(movement.authority, maker());
    assert_eq!(movement.amount, 1);
    assert_eq!(movement.signer, None);
}

#[test]
fn program_deposit_listing_and_withdrawal() {
    let mut accounts = open_deposit();
    deposit(&program(), &mut accounts, 7).unwrap();
    assert_eq!(accounts.vault.unwrap().amount, 1);
    let mut listing = MakeSellOffer { maker: maker(), escrow: accounts.escrow };
    assert_eq!(make_sell_offer(&mut listing, 500), Ok(()));
    assert_eq!(listing.escrow.unwrap().wanted_sell_amount, 500);
    let mut taking = withdrawal(&accounts, maker());
    taking.escrow = listing.escrow;
    let movement = withdraw(&program(), &mut taking).unwrap();
    assert_eq!(taking.vault.unwrap().amount, 0);
    assert_eq!(taking.maker_ata_domain.amount, 1);
    assert_eq!(movement.authority, accounts.vault.unwrap().owner);
    assert_eq!(movement.from, accounts.vault.unwrap().owner);
    assert_eq!(movement.to, maker());
    assert_eq!(
        movement.signer,
        Some(SignerSeeds { maker: maker(), seed: 7, bump: accounts.escrow.unwrap().bump })
    );
}

#[test]
fn program_rejects_second_deposit() {
    let mut accounts = open_deposit();
    deposit(&program(), &mut accounts, 7).unwrap();
    let before = accounts;
    assert_eq!(deposit(&program(), &mut accounts, 7), Err(EscrowError::AlreadyExists));
    assert_eq!(accounts, before);
    assert_eq!(accounts.vault.unwrap().amount, 1);
}

#[test]
fn program_rejects_withdrawal_by_stranger() {
    let mut accounts = open_deposit();
    deposit(&program(), &mut accounts, 7).unwrap();
    let stranger = id(0x58);
    let mut taking = withdrawal(&accounts, stranger);
    taking.maker_ata_domain = TokenAccount { mint: asset().key, owner: stranger, amount: 0 };
    let before = taking;
    assert_eq!(withdraw(&program(), &mut taking), Err(EscrowError::Unauthorized));
    assert_eq!(taking, before);
    assert_eq!(taking.vault.unwrap().amount, 1);
}

#[test]
fn handler_checks_the_authority_it_is_given() {
    let mut accounts = open_deposit();
    let authority = VaultAuthority { address: id(9), bump: 254 };
    accounts.deposit(7, &authority).unwrap();
    let mut unsigned = withdrawal(&accounts, maker());
    let before = unsigned;
    assert_eq!(unsigned.withdraw(None), Err(EscrowError::Unauthorized));
    assert_eq!(unsigned, before);
    assert_eq!(unsigned.withdraw(Some(id(8))), Err(EscrowError::Unauthorized));
    assert_eq!(unsigned.withdraw(Some(maker())), Err(EscrowError::Unauthorized));
    assert_eq!(unsigned, before);
    let movement = unsigned.withdraw(Some(id(9))).unwrap();
    assert_eq!(movement.authority, id(9));
    assert_eq!(unsigned.vault.unwrap().amount, 0);
}

#[test]
fn program_refuses_vault_under_other_authority() {
    let mut accounts = open_deposit();
    deposit(&program(), &mut accounts, 7).unwrap();
    let mut taking = withdrawal(&accounts, maker());
    taking.vault = Some(TokenAccount { mint: asset().key, owner: id(9), amount: 1 });
    let before = taking;
    assert_eq!(withdraw(&program(), &mut taking), Err(EscrowError::Unauthorized));
    assert_eq!(taking, before);
    let mut owned_by_maker = withdrawal(&accounts, maker());
    owned_by_maker.vault = Some(TokenAccount { mint: asset().key, owner: maker(), amount: 1 });
    assert_eq!(withdraw(&program(), &mut owned_by_maker), Err(EscrowError::Unauthorized));
}

#[test]
fn program_refuses_record_with_forged_triple() {
    let mut accounts = open_deposit();
    deposit(&program(), &mut accounts, 7).unwrap();
    let mut other_nonce = withdrawal(&accounts, maker());
    let mut state = accounts.escrow.unwrap();
    state.seed = 8;
    other_nonce.escrow = Some(state);
    assert_eq!(withdraw(&program(), &mut other_nonce), Err(EscrowError::Unauthorized));

    let (seed, _) = nonce_with_low_salt();
    let mut low = open_deposit();
    deposit(&program(), &mut low, seed).unwrap();
    let mut bad_salt = withdrawal(&low, maker());
    let mut state = low.escrow.unwrap();
    state.bump = 255;
    bad_salt.escrow = Some(state);
    let before = bad_salt;
    assert_eq!(withdraw(&program(), &mut bad_salt), Err(EscrowError::Unauthorized));
    assert_eq!(bad_salt, before);
}

#[test]
fn program_refuses_under_other_program() {
    let mut accounts = open_deposit();
    deposit(&program(), &mut accounts, 7).unwrap();
    let mut taking = withdrawal(&accounts, maker());
    assert_eq!(withdraw(&id(0x12), &mut taking), Err(EscrowError::Unauthorized));
    assert_eq!(taking.vault.unwrap().amount, 1);
}

#[test]
fn program_withdraw_reports_handler_refusals() {
    let mut empty = withdrawal(&open_deposit(), maker());
    assert_eq!(withdraw(&program(), &mut empty), Err(EscrowError::NotFound));

    let mut accounts = open_deposit();
    deposit(&program(), &mut accounts, 7).unwrap();
    let mut wrong_asset = withdrawal(&accounts, maker());
    wrong_asset.mint_domain = currency();
    assert_eq!(withdraw(&program(), &mut wrong_asset), Err(EscrowError::MintMismatch));

    let mut taking = withdrawal(&accounts, maker());
    withdraw(&program(), &mut taking).unwrap();
    let before = taking;
    assert_eq!(withdraw(&program(), &mut taking), Err(EscrowError::EmptyVault));
    assert_eq!(taking, before);
}

#[test]
fn program_deposit_reports_handler_refusals() {
    let mut accounts = open_deposit();
    accounts.maker_ata_domain.amount = 0;
    let before = accounts;
    assert_eq!(deposit(&program(), &mut accounts, 7), Err(EscrowError::InsufficientBalance));
    assert_eq!(accounts, before);
    accounts.maker_ata_domain = TokenAccount { mint: currency().key, owner: maker(), amount: 1 };
    assert_eq!(deposit(&program(), &mut accounts, 7), Err(EscrowError::MintMismatch));
}

#[test]
fn program_round_trip_restores_holding() {
    let mut accounts = open_deposit();
    accounts.maker_ata_domain.amount = 2;
    let before = accounts.maker_ata_domain;
    deposit(&program(), &mut accounts, 99).unwrap();
    assert_eq!(accounts.maker_ata_domain.amount, 1);
    let mut taking = withdrawal(&accounts, maker());
    withdraw(&program(), &mut taking).unwrap();
    assert_eq!(taking.maker_ata_domain, before);
    assert_eq!(taking.vault.unwrap().amount, 0);
}

#[test]
fn program_listing_entry_points() {
    let mut accounts = open_deposit();
    deposit(&program(), &mut accounts, 7).unwrap();
    let mut selling = MakeSellOffer { maker: maker(), escrow: accounts.escrow };
    assert_eq!(make_sell_offer(&mut selling, 0), Err(EscrowError::InvalidAmount));
    assert_eq!(selling.escrow, accounts.escrow);
    assert_eq!(make_sell_offer(&mut selling, 500), Ok(()));
    let mut lending = MakeLoanOffer { maker: maker(), escrow: selling.escrow };
    assert_eq!(make_loan_offer(&mut lending, 0, 5), Err(EscrowError::InvalidAmount));
    assert_eq!(make_loan_offer(&mut lending, 1000, 5), Ok(()));
    let state = lending.escrow.unwrap();
    assert_eq!(
        (state.wanted_sell_amount, state.wanted_loan_amount, state.wanted_apy),
        (500, 1000, 5)
    );
}

#[test]
fn derived_authority_for_known_inputs() {
    let authority = derive_vault_authority(&program(), &maker(), 7).unwrap();
    assert_eq!(
        authority.address.bytes,
        [
            164, 102, 196, 216, 50, 223, 127, 98, 99, 40, 139, 187, 29, 19, 35, 127, 228, 212, 72,
            179, 151, 245, 186, 158, 223, 159, 148, 97, 168, 250, 93, 124,
        ]
    );
    assert_eq!(authority.bump, 255);
}
