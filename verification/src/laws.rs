use vstd::prelude::*;
use vstd::bytes::{lemma_auto_spec_u64_to_from_le_bytes, spec_u64_to_le_bytes};
use crate::accounts::{Movement, SignerSeeds, TokenAccount, VaultAuthority};
use crate::authority::{derived_address, escrow_tag, record_seeds, signer_seeds};
use crate::contexts::deposit::Deposit;
use crate::contexts::make_loan_offer::MakeLoanOffer;
use crate::contexts::make_sell_offer::MakeSellOffer;
use crate::contexts::withdraw::Withdraw;
use crate::error::EscrowError;
use crate::escrow::{deposit_refusal, rebuilt_authority};
use crate::identity::Identity;
use crate::state::{stage_of, EscrowState, Stage};

verus! {

/// The seeds of a record, run together, are the tag, the maker and the nonce
/// in 46 bytes; with the salt behind them, 47.
proof fn seeds_run_together(maker: Identity, seed: u64, bump: u8)
    ensures
        record_seeds(maker@, seed).flatten() == escrow_tag() + maker@ + spec_u64_to_le_bytes(seed),
        signer_seeds(maker@, seed, bump).flatten() == escrow_tag() + maker@ + spec_u64_to_le_bytes(
            seed,
        ) + seq![bump],
        spec_u64_to_le_bytes(seed).len() == 8,
{
    lemma_auto_spec_u64_to_from_le_bytes();
    let nonce = spec_u64_to_le_bytes(seed);
    let short = record_seeds(maker@, seed);
    let long = signer_seeds(maker@, seed, bump);
    assert(short.flatten() =~= escrow_tag() + maker@ + nonce) by {
        reveal_with_fuel(Seq::flatten, 4);
        assert(short.drop_first() =~= seq![maker@, nonce]);
        assert(short.drop_first().drop_first() =~= seq![nonce]);
        assert(short.drop_first().drop_first().drop_first() =~= Seq::<Seq<u8>>::empty());
    }
    assert(long.flatten() =~= escrow_tag() + maker@ + nonce + seq![bump]) by {
        reveal_with_fuel(Seq::flatten, 5);
        assert(long.drop_first() =~= seq![maker@, nonce, seq![bump]]);
        assert(long.drop_first().drop_first() =~= seq![nonce, seq![bump]]);
        assert(long.drop_first().drop_first().drop_first() =~= seq![seq![bump]]);
        assert(long.drop_first().drop_first().drop_first().drop_first() =~= Seq::<
            Seq<u8>,
        >::empty());
    }
}

/// Two makers with the same 32 bytes are the same maker, and two nonces with
/// the same little-endian bytes are the same nonce.
proof fn parts_tell_apart(maker: Identity, seed: u64, other_maker: Identity, other_seed: u64)
    ensures
        maker@ == other_maker@ ==> maker == other_maker,
        spec_u64_to_le_bytes(seed) == spec_u64_to_le_bytes(other_seed) ==> seed == other_seed,
{
    lemma_auto_spec_u64_to_from_le_bytes();
    if maker@ == other_maker@ {
        assert(maker.bytes =~= other_maker.bytes);
    }
}

/// No two records share their seeds. The seeds of a record determine its
/// maker and its nonce, and they still do when they are run together into one
/// byte string, as a hash takes them in: each seed has a fixed length, so no
/// byte can pass from one seed into the next.
pub proof fn record_seeds_tell_records_apart(
    maker: Identity,
    seed: u64,
    other_maker: Identity,
    other_seed: u64,
)
    ensures
        record_seeds(maker@, seed) == record_seeds(other_maker@, other_seed) ==> maker
            == other_maker && seed == other_seed,
        record_seeds(maker@, seed).flatten() == record_seeds(other_maker@, other_seed).flatten()
            ==> maker == other_maker && seed == other_seed,
{
    parts_tell_apart(maker, seed, other_maker, other_seed);
    let nonce = spec_u64_to_le_bytes(seed);
    let other_nonce = spec_u64_to_le_bytes(other_seed);
    if record_seeds(maker@, seed) == record_seeds(other_maker@, other_seed) {
        assert(record_seeds(maker@, seed)[1] == maker@);
        assert(record_seeds(other_maker@, other_seed)[1] == other_maker@);
        assert(record_seeds(maker@, seed)[2] == nonce);
        assert(record_seeds(other_maker@, other_seed)[2] == other_nonce);
    }
    if record_seeds(maker@, seed).flatten() == record_seeds(other_maker@, other_seed).flatten() {
        seeds_run_together(maker, seed, 0);
        seeds_run_together(other_maker, other_seed, 0);
        let joined = escrow_tag() + maker@ + nonce;
        let other_joined = escrow_tag() + other_maker@ + other_nonce;
        assert(joined == other_joined);
        assert(maker@ =~= joined.subrange(6, 38));
        assert(other_maker@ =~= other_joined.subrange(6, 38));
        assert(nonce =~= joined.subrange(38, 46));
        assert(other_nonce =~= other_joined.subrange(38, 46));
    }
}

/// No two triples share their signer seeds: the seeds with which a vault
/// authority is derived determine the maker, the nonce and the salt, as a
/// list and run together.
pub proof fn signer_seeds_tell_triples_apart(signer: SignerSeeds, other: SignerSeeds)
    ensures
        signer_seeds(signer.maker@, signer.seed, signer.bump) == signer_seeds(
            other.maker@,
            other.seed,
            other.bump,
        ) ==> signer == other,
        signer_seeds(signer.maker@, signer.seed, signer.bump).flatten() == signer_seeds(
            other.maker@,
            other.seed,
            other.bump,
        ).flatten() ==> signer == other,
{
    parts_tell_apart(signer.maker, signer.seed, other.maker, other.seed);
    let seeds = signer_seeds(signer.maker@, signer.seed, signer.bump);
    let other_seeds = signer_seeds(other.maker@, other.seed, other.bump);
    let nonce = spec_u64_to_le_bytes(signer.seed);
    let other_nonce = spec_u64_to_le_bytes(other.seed);
    if seeds == other_seeds {
        assert(seeds[1] == signer.maker@);
        assert(other_seeds[1] == other.maker@);
        assert(seeds[2] == nonce);
        assert(other_seeds[2] == other_nonce);
        assert(seeds[3] == seq![signer.bump]);
        assert(other_seeds[3] == seq![other.bump]);
        assert(seq![signer.bump][0] == seq![other.bump][0]);
    }
    if seeds.flatten() == other_seeds.flatten() {
        seeds_run_together(signer.maker, signer.seed, signer.bump);
        seeds_run_together(other.maker, other.seed, other.bump);
        let joined = escrow_tag() + signer.maker@ + nonce + seq![signer.bump];
        let other_joined = escrow_tag() + other.maker@ + other_nonce + seq![other.bump];
        assert(joined == other_joined);
        assert(signer.maker@ =~= joined.subrange(6, 38));
        assert(other.maker@ =~= other_joined.subrange(6, 38));
        assert(nonce =~= joined.subrange(38, 46));
        assert(other_nonce =~= other_joined.subrange(38, 46));
        assert(joined[46] == signer.bump);
        assert(other_joined[46] == other.bump);
    }
}

/// A deposit is accepted once. On the accounts that an accepted deposit
/// leaves, a second deposit is refused with `AlreadyExists`, whatever nonce or
/// authority it names, and changes nothing: the vault holds one unit after
/// both calls, never two.
pub proof fn deposit_is_accepted_once(
    accounts: Deposit,
    seed: u64,
    authority: VaultAuthority,
    second_seed: u64,
    second_authority: VaultAuthority,
)
    requires
        accounts.answer(authority) is Ok,
    ensures
        ({
            let first = accounts.after(seed, authority);
            let second = first.after(second_seed, second_authority);
            &&& first.answer(second_authority) == Err::<Movement, EscrowError>(
                EscrowError::AlreadyExists,
            )
            &&& second == first
            &&& first.vault->0.amount == 1
            &&& second.vault->0.amount == 1
        }),
{
}

/// The program accepts a deposit once as well: for the maker and nonce of a
/// deposit that it accepted, it refuses the next one with `AlreadyExists`.
pub proof fn program_accepts_deposit_once(
    program: Seq<u8>,
    accounts: Deposit,
    seed: u64,
    authority: VaultAuthority,
)
    requires
        deposit_refusal(program, accounts, seed) is None,
    ensures
        deposit_refusal(program, accounts.deposited(seed, authority), seed) == Some(
            EscrowError::AlreadyExists,
        ),
{
}

/// An accepted deposit writes the record that the design asks for: the maker
/// as owner, no listing terms, the salt of the authority; and it puts the
/// vault under that authority, bound to the asset deposited.
pub proof fn deposit_writes_fresh_record(accounts: Deposit, seed: u64, authority: VaultAuthority)
    requires
        accounts.answer(authority) is Ok,
    ensures
        ({
            let left = accounts.after(seed, authority);
            &&& left.escrow is Some
            &&& left.escrow->0.seed == seed
            &&& left.escrow->0.maker == accounts.maker
            &&& left.escrow->0.owner == accounts.maker
            &&& left.escrow->0.mint_domain == accounts.mint_domain.key
            &&& left.escrow->0.mint_currency == accounts.mint_currency.key
            &&& left.escrow->0.bump == authority.bump
            &&& left.escrow->0.no_terms()
            &&& left.vault == Some(
                TokenAccount {
                    mint: accounts.mint_domain.key,
                    owner: authority.address,
                    amount: 1,
                },
            )
            &&& left.maker_ata_domain.amount == accounts.maker_ata_domain.amount - 1
        }),
{
}

/// Only the vault's own authority signs a movement out of a vault. An
/// accepted withdrawal leaves the vault under the identity that the record's
/// triple derives, carries that triple as its signer, and goes to the
/// record's maker.
pub proof fn withdrawal_is_signed_by_derived_authority(
    accounts: Withdraw,
    authority: Option<Seq<u8>>,
)
    requires
        accounts.answer(authority) is Ok,
    ensures
        ({
            let movement = accounts.movement();
            &&& accounts.answer(authority) == Ok::<Movement, EscrowError>(movement)
            &&& authority == Some(movement.authority@)
            &&& movement.signer == Some(accounts.triple())
            &&& movement.from == accounts.vault->0.owner
            &&& movement.authority == accounts.vault->0.owner
            &&& movement.to == accounts.escrow->0.maker
            &&& movement.amount == 1
        }),
{
}

/// Where the program accepts a withdrawal, the authority of the movement is
/// the address derived under the program from the maker, nonce and salt that
/// the record stores.
pub proof fn program_signs_with_derived_authority(program: Seq<u8>, accounts: Withdraw)
    requires
        accounts.answer(rebuilt_authority(program, accounts)) is Ok,
    ensures
        derived_address(
            signer_seeds(
                accounts.escrow->0.maker@,
                accounts.escrow->0.seed,
                accounts.escrow->0.bump,
            ),
            program,
        ) == Some(accounts.movement().authority@),
{
}

/// A caller who is not the maker of an existing record gets nothing out of
/// its vault: whatever the authority, the withdrawal is refused with
/// `Unauthorized` and the accounts, the vault's balance among them, stay as
/// they were.
pub proof fn withdrawal_by_stranger_is_refused(accounts: Withdraw, authority: Option<Seq<u8>>)
    requires
        accounts.escrow is Some,
        accounts.vault is Some,
        accounts.maker != accounts.escrow->0.maker,
    ensures
        accounts.answer(authority) == Err::<Movement, EscrowError>(EscrowError::Unauthorized),
        accounts.after(authority) == accounts,
        accounts.after(authority).vault->0.amount == accounts.vault->0.amount,
{
}

/// A vault that is not under the authority derived from the record's triple
/// is never debited, whoever calls.
pub proof fn unbound_vault_is_never_debited(accounts: Withdraw, authority: Option<Seq<u8>>)
    requires
        accounts.escrow is Some,
        accounts.vault is Some,
        authority != Some(accounts.vault->0.owner@),
    ensures
        accounts.answer(authority) == Err::<Movement, EscrowError>(EscrowError::Unauthorized),
        accounts.after(authority) == accounts,
{
}

/// A sale price of zero is refused with `InvalidAmount` on any accounts, and
/// leaves them, the posted price included, as they were.
pub proof fn zero_price_is_refused(accounts: MakeSellOffer)
    ensures
        accounts.answer(0) == Err::<(), EscrowError>(EscrowError::InvalidAmount),
        accounts.after(0) == accounts,
{
}

/// A positive sale price asked by the maker of an existing record is
/// accepted, and sets the price to exactly that amount; nothing else in the
/// record changes.
pub proof fn positive_price_is_set(accounts: MakeSellOffer, amount: u64)
    requires
        amount > 0,
        accounts.escrow is Some,
        accounts.maker == accounts.escrow->0.maker,
    ensures
        accounts.answer(amount) == Ok::<(), EscrowError>(()),
        accounts.after(amount).escrow is Some,
        accounts.after(amount).escrow->0.wanted_sell_amount == amount,
        accounts.after(amount).escrow->0.wanted_loan_amount
            == accounts.escrow->0.wanted_loan_amount,
        accounts.after(amount).escrow->0.wanted_apy == accounts.escrow->0.wanted_apy,
        accounts.after(amount).escrow->0.same_identity_as(accounts.escrow->0),
        accounts.after(amount).maker == accounts.maker,
{
}

/// Loan terms follow the same law as the sale price: an amount of zero is
/// refused with `InvalidAmount` on any accounts; a positive one asked by the
/// maker sets both loan terms and leaves the sale price alone.
pub proof fn loan_terms_follow_amount(accounts: MakeLoanOffer, amount: u64, apy: u64)
    ensures
        amount == 0 ==> accounts.answer(amount) == Err::<(), EscrowError>(
            EscrowError::InvalidAmount,
        ) && accounts.after(amount, apy) == accounts,
        amount > 0 && accounts.escrow is Some && accounts.maker == accounts.escrow->0.maker ==> {
            &&& accounts.answer(amount) == Ok::<(), EscrowError>(())
            &&& accounts.after(amount, apy).escrow->0.wanted_loan_amount == amount
            &&& accounts.after(amount, apy).escrow->0.wanted_apy == apy
            &&& accounts.after(amount, apy).escrow->0.wanted_sell_amount
                == accounts.escrow->0.wanted_sell_amount
            &&& accounts.after(amount, apy).escrow->0.same_identity_as(accounts.escrow->0)
        },
{
}

/// Deposit, then withdraw: the maker of an accepted deposit gets the asset
/// back. Under the authority of the deposit, the withdrawal on the accounts
/// that the deposit left is accepted; it empties the vault, brings the
/// maker's holding back to what it was before the deposit, and leaves the
/// record untouched.
pub proof fn round_trip_restores_holding(accounts: Deposit, seed: u64, authority: VaultAuthority)
    requires
        accounts.answer(authority) is Ok,
    ensures
        ({
            let funded = Withdraw::following(accounts.after(seed, authority));
            let emptied = funded.after(Some(authority.address@));
            &&& funded.answer(Some(authority.address@)) is Ok
            &&& emptied.vault->0.amount == 0
            &&& emptied.maker_ata_domain == accounts.maker_ata_domain
            &&& emptied.escrow == funded.escrow
        }),
{
}

/// The program accepts the withdrawal of a round trip as well, provided the
/// salt recorded by the deposit derives the authority of the deposit. The
/// program's own deposit records such a salt.
pub proof fn round_trip_passes_program(
    program: Seq<u8>,
    accounts: Deposit,
    seed: u64,
    authority: VaultAuthority,
)
    requires
        accounts.answer(authority) is Ok,
        derived_address(signer_seeds(accounts.maker@, seed, authority.bump), program) == Some(
            authority.address@,
        ),
    ensures
        ({
            let funded = Withdraw::following(accounts.after(seed, authority));
            let rebuilt = rebuilt_authority(program, funded);
            &&& rebuilt == Some(authority.address@)
            &&& funded.answer(rebuilt) is Ok
            &&& funded.after(rebuilt).vault->0.amount == 0
            &&& funded.after(rebuilt).maker_ata_domain == accounts.maker_ata_domain
        }),
{
}

/// Listing terms play no part in a withdrawal: two records that differ in
/// their terms only are treated alike, and an accepted withdrawal hands the
/// record on with its terms as they were.
pub proof fn terms_do_not_matter_to_withdrawal(
    program: Seq<u8>,
    accounts: Withdraw,
    authority: Option<Seq<u8>>,
    relisted: EscrowState,
)
    requires
        accounts.escrow is Some,
        relisted.same_identity_as(accounts.escrow->0),
    ensures
        ({
            let other = Withdraw { escrow: Some(relisted), ..accounts };
            &&& other.refusal(authority) == accounts.refusal(authority)
            &&& rebuilt_authority(program, other) == rebuilt_authority(program, accounts)
            &&& other.refusal(authority) is None ==> {
                &&& other.movement() == accounts.movement()
                &&& other.after(authority).vault == accounts.after(authority).vault
                &&& other.after(authority).maker_ata_domain == accounts.after(
                    authority,
                ).maker_ata_domain
                &&& other.after(authority).escrow == Some(relisted)
            }
        }),
{
}

/// The life of a record runs one way. A deposit is accepted only where
/// nothing exists yet, and leaves the record funded; a withdrawal is accepted
/// only from a funded record, and leaves a vault that held its one unit
/// emptied; once emptied, neither is accepted again.
pub proof fn stages_run_one_way(
    placing: Deposit,
    seed: u64,
    authority: VaultAuthority,
    taking: Withdraw,
    rebuilt: Option<Seq<u8>>,
)
    ensures
        placing.answer(authority) is Ok ==> {
            &&& stage_of(placing.escrow, placing.vault) == Some(Stage::Uninitialized)
            &&& stage_of(
                placing.after(seed, authority).escrow,
                placing.after(seed, authority).vault,
            ) == Some(Stage::Funded)
        },
        taking.answer(rebuilt) is Ok ==> stage_of(taking.escrow, taking.vault) == Some(
            Stage::Funded,
        ),
        taking.answer(rebuilt) is Ok && taking.vault->0.is_vault_balance() ==> stage_of(
            taking.after(rebuilt).escrow,
            taking.after(rebuilt).vault,
        ) == Some(Stage::Emptied),
        stage_of(placing.escrow, placing.vault) == Some(Stage::Emptied) ==> placing.answer(
            authority,
        ) == Err::<Movement, EscrowError>(EscrowError::AlreadyExists),
        stage_of(taking.escrow, taking.vault) == Some(Stage::Emptied) ==> taking.answer(rebuilt)
            is Err && taking.after(rebuilt) == taking,
{
}

/// A vault holds nothing or the one unit in custody, before and after every
/// transition that touches it.
pub proof fn vault_holds_at_most_one_unit(
    placing: Deposit,
    seed: u64,
    authority: VaultAuthority,
    taking: Withdraw,
    rebuilt: Option<Seq<u8>>,
)
    ensures
        placing.vault is None && placing.after(seed, authority).vault is Some ==> placing.after(
            seed,
            authority,
        ).vault->0.is_vault_balance(),
        taking.vault is Some && taking.vault->0.is_vault_balance() ==> taking.after(
            rebuilt,
        ).vault->0.is_vault_balance(),
{
}

/// A listing changes terms and nothing else: maker, owner, nonce, asset
/// types and salt of a record stay what the deposit wrote.
pub proof fn listing_keeps_record_identity(
    selling: MakeSellOffer,
    lending: MakeLoanOffer,
    amount: u64,
    apy: u64,
)
    ensures
        selling.escrow is Some ==> selling.after(amount).escrow is Some && selling.after(
            amount,
        ).escrow->0.same_identity_as(selling.escrow->0),
        lending.escrow is Some ==> lending.after(amount, apy).escrow is Some && lending.after(
            amount,
            apy,
        ).escrow->0.same_identity_as(lending.escrow->0),
{
}

} // verus!
