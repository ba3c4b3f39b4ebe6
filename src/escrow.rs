use vstd::prelude::*;
use crate::derive::{cmp_pubkeys, derivation_view, derive_escrow, escrow_derivation, Address};
use crate::error::EscrowError;
use crate::ledger::{
    close_error, close_token_account, closed, credited, debited, refunded, transfer,
    transfer_error, TokenAccount, Wallet,
};

verus! {

/// The custody record of one open offer: `authority` sells `sell_amount` of
/// `sell_mint` for `buy_amount` of `buy_mint`, paid into `receive_ata`.
#[derive(Clone, Copy, Debug, PartialEq, Eq)]
pub struct Escrow {
    pub is_initialized: bool,
    pub authority: Address,
    pub sell_mint: Address,
    pub buy_mint: Address,
    pub sell_amount: u64,
    pub buy_amount: u64,
    pub receive_ata: Address,
    pub bump: u8,
}

/// The account that holds a custody record, at a derived address.
#[derive(Clone, Copy, Debug, PartialEq, Eq)]
pub struct EscrowAccount {
    pub key: Address,
    pub lamports: u64,
    pub data: Escrow,
}

/// The accounts an Open reads and writes. `escrow_bump` is the bump supplied
/// for the record's address.
#[derive(Clone, Copy, Debug, PartialEq, Eq)]
pub struct InitEscrow {
    pub sell_mint: Address,
    pub buy_mint: Address,
    pub authority: Wallet,
    pub authority_sell_ata: TokenAccount,
    pub authority_buy_ata: TokenAccount,
    pub escrow: EscrowAccount,
    pub escrow_bump: u8,
    pub escrow_ata: TokenAccount,
}

/// The accounts a Settle reads and writes: `authority` is the maker, who
/// sells `taker_buy_mint` and is paid in `taker_sell_mint`.
#[derive(Clone, Copy, Debug, PartialEq, Eq)]
pub struct Exchange {
    pub authority: Wallet,
    pub taker: Wallet,
    pub taker_sell_mint: Address,
    pub taker_buy_mint: Address,
    pub taker_sell_ata: TokenAccount,
    pub taker_buy_ata: TokenAccount,
    pub receive_ata: TokenAccount,
    pub escrow: EscrowAccount,
    pub escrow_ata: TokenAccount,
}

/// The record left behind once an offer is settled: no longer initialized.
pub open spec fn retired(e: Escrow) -> Escrow {
    Escrow { is_initialized: false, ..e }
}

/// Whether a derivation result names the record at `key` with `bump`.
pub open spec fn seeds_match(derived: Option<(Seq<u8>, u8)>, key: Address, bump: u8) -> bool {
    match derived {
        Some(p) => p.0 == key@ && p.1 == bump,
        None => false,
    }
}

/// The custody sub-account as Open creates it: empty, for `sell_mint`, under
/// the record's authority.
pub open spec fn created_custody(ctx: InitEscrow) -> TokenAccount {
    TokenAccount { mint: ctx.sell_mint, owner: ctx.escrow.key, amount: 0, is_open: true, ..ctx.escrow_ata }
}

/// The record that Open writes.
pub open spec fn opened_record(ctx: InitEscrow, sell_amount: u64, buy_amount: u64) -> Escrow {
    Escrow {
        is_initialized: true,
        authority: ctx.authority.key,
        sell_mint: ctx.sell_mint,
        buy_mint: ctx.buy_mint,
        sell_amount,
        buy_amount,
        receive_ata: ctx.authority_buy_ata.key,
        bump: ctx.escrow_bump,
    }
}

/// Why Open is refused, in the order it checks, given the derived address of
/// the maker's record; `None` when it succeeds.
pub open spec fn init_escrow_error(ctx: InitEscrow, derived: Option<(Seq<u8>, u8)>, sell_amount: u64, buy_amount: u64) -> Option<EscrowError> {
    if !ctx.authority.is_signer {
        Some(EscrowError::MissingRequiredSignature)
    } else if !seeds_match(derived, ctx.escrow.key, ctx.escrow_bump) {
        Some(EscrowError::InvalidSeeds)
    } else if ctx.escrow.data.is_initialized || ctx.escrow_ata.is_open {
        Some(EscrowError::InitializedAccount)
    } else if sell_amount == 0 || buy_amount == 0 {
        Some(EscrowError::ZeroAmount)
    } else {
        transfer_error(ctx.authority_sell_ata, created_custody(ctx), ctx.sell_mint, ctx.authority.key, sell_amount)
    }
}

/// The accounts after a successful Open: the record written, and
/// `sell_amount` moved from the maker into the new custody sub-account.
pub open spec fn init_escrow_effect(ctx: InitEscrow, sell_amount: u64, buy_amount: u64) -> InitEscrow {
    InitEscrow {
        escrow: EscrowAccount { data: opened_record(ctx, sell_amount, buy_amount), ..ctx.escrow },
        authority_sell_ata: debited(ctx.authority_sell_ata, sell_amount),
        escrow_ata: credited(created_custody(ctx), sell_amount),
        ..ctx
    }
}

/// Opens an offer, given the derivation of the maker's record address.
/// Either every effect is applied or, on refusal, nothing changes.
pub fn init_escrow_with(ctx: &mut InitEscrow, derived: Option<(Address, u8)>, sell_amount: u64, buy_amount: u64) -> (r: Result<(), EscrowError>)
    ensures
        match init_escrow_error(*old(ctx), derivation_view(derived), sell_amount, buy_amount) {
            Some(e) => r == Err::<(), EscrowError>(e) && *final(ctx) == *old(ctx),
            None => r is Ok && *final(ctx) == init_escrow_effect(*old(ctx), sell_amount, buy_amount),
        },
        r is Ok ==> old(ctx).authority_sell_ata.amount == final(ctx).authority_sell_ata.amount + final(ctx).escrow_ata.amount,
        r is Ok ==> final(ctx).escrow_ata.amount == sell_amount,
{
    if !ctx.authority.is_signer {
        return Err(EscrowError::MissingRequiredSignature);
    }
    match derived {
        Some(p) => {
            if !cmp_pubkeys(&p.0, &ctx.escrow.key) || p.1 != ctx.escrow_bump {
                return Err(EscrowError::InvalidSeeds);
            }
        },
        None => {
            return Err(EscrowError::InvalidSeeds);
        },
    }
    if ctx.escrow.data.is_initialized || ctx.escrow_ata.is_open {
        return Err(EscrowError::InitializedAccount);
    }
    if sell_amount == 0 || buy_amount == 0 {
        return Err(EscrowError::ZeroAmount);
    }
    let mut source: TokenAccount = ctx.authority_sell_ata;
    let mut custody = TokenAccount {
        key: ctx.escrow_ata.key,
        mint: ctx.sell_mint,
        owner: ctx.escrow.key,
        amount: 0,
        lamports: ctx.escrow_ata.lamports,
        is_open: true,
    };
    match transfer(&mut source, &mut custody, &ctx.sell_mint, &ctx.authority.key, sell_amount) {
        Ok(()) => {},
        Err(e) => {
            return Err(e);
        },
    }
    ctx.escrow.data = Escrow {
        is_initialized: true,
        authority: ctx.authority.key,
        sell_mint: ctx.sell_mint,
        buy_mint: ctx.buy_mint,
        sell_amount,
        buy_amount,
        receive_ata: ctx.authority_buy_ata.key,
        bump: ctx.escrow_bump,
    };
    ctx.authority_sell_ata = source;
    ctx.escrow_ata = custody;
    Ok(())
}

/// Opens an offer under `program_id`: derives the maker's record address from
/// (maker, sell asset) and proceeds as `init_escrow_with`.
pub fn init_escrow(ctx: &mut InitEscrow, program_id: &Address, sell_amount: u64, buy_amount: u64) -> (r: Result<(), EscrowError>)
    ensures
        match init_escrow_error(*old(ctx), escrow_derivation(program_id@, old(ctx).authority.key@, old(ctx).sell_mint@), sell_amount, buy_amount) {
            Some(e) => r == Err::<(), EscrowError>(e) && *final(ctx) == *old(ctx),
            None => r is Ok && *final(ctx) == init_escrow_effect(*old(ctx), sell_amount, buy_amount),
        },
{
    if !ctx.authority.is_signer {
        return Err(EscrowError::MissingRequiredSignature);
    }
    let derived = derive_escrow(program_id, &ctx.authority.key, &ctx.sell_mint);
    init_escrow_with(ctx, derived, sell_amount, buy_amount)
}

/// Why Settle is refused before any asset moves, in the order it checks.
pub open spec fn exchange_check_error(ctx: Exchange, derived: Option<(Seq<u8>, u8)>, sell_amount: u64, buy_amount: u64) -> Option<EscrowError> {
    if !ctx.taker.is_signer {
        Some(EscrowError::MissingRequiredSignature)
    } else if !ctx.escrow.data.is_initialized {
        Some(EscrowError::UninitializedAccount)
    } else if !seeds_match(derived, ctx.escrow.key, ctx.escrow.data.bump) {
        Some(EscrowError::InvalidSeeds)
    } else if buy_amount != ctx.escrow.data.sell_amount || buy_amount != ctx.escrow_ata.amount
        || sell_amount != ctx.escrow.data.buy_amount {
        Some(EscrowError::AmountNotEqual)
    } else if ctx.taker_sell_mint@ != ctx.escrow.data.buy_mint@ {
        Some(EscrowError::MintMismatch)
    } else if ctx.receive_ata.key@ != ctx.escrow.data.receive_ata@ {
        Some(EscrowError::InvalidAuthority)
    } else {
        None
    }
}

/// Step (a): the custodied asset goes to the taker.
pub open spec fn released(ctx: Exchange, amount: u64) -> Exchange {
    Exchange { escrow_ata: debited(ctx.escrow_ata, amount), taker_buy_ata: credited(ctx.taker_buy_ata, amount), ..ctx }
}

/// Step (b): the custody sub-account is closed, its deposit to the maker.
pub open spec fn custody_closed(ctx: Exchange) -> Exchange {
    Exchange { escrow_ata: closed(ctx.escrow_ata), authority: refunded(ctx.authority, ctx.escrow_ata.lamports), ..ctx }
}

/// Step (c): the taker pays the maker's payout account.
pub open spec fn paid(ctx: Exchange, amount: u64) -> Exchange {
    Exchange { taker_sell_ata: debited(ctx.taker_sell_ata, amount), receive_ata: credited(ctx.receive_ata, amount), ..ctx }
}

/// Step (d): the record is retired, its deposit to the maker.
pub open spec fn record_closed(ctx: Exchange) -> Exchange {
    Exchange {
        escrow: EscrowAccount { lamports: 0, data: retired(ctx.escrow.data), ..ctx.escrow },
        authority: refunded(ctx.authority, ctx.escrow.lamports),
        ..ctx
    }
}

/// Why Settle is refused: a failed check, or the first step of (a) to (d)
/// that the ledger refuses; `None` when it succeeds.
pub open spec fn exchange_error(ctx: Exchange, derived: Option<(Seq<u8>, u8)>, sell_amount: u64, buy_amount: u64) -> Option<EscrowError> {
    if exchange_check_error(ctx, derived, sell_amount, buy_amount) is Some {
        exchange_check_error(ctx, derived, sell_amount, buy_amount)
    } else if transfer_error(ctx.escrow_ata, ctx.taker_buy_ata, ctx.taker_buy_mint, ctx.escrow.key, buy_amount) is Some {
        transfer_error(ctx.escrow_ata, ctx.taker_buy_ata, ctx.taker_buy_mint, ctx.escrow.key, buy_amount)
    } else {
        let s1 = released(ctx, buy_amount);
        if close_error(s1.escrow_ata, s1.authority, ctx.escrow.key) is Some {
            close_error(s1.escrow_ata, s1.authority, ctx.escrow.key)
        } else {
            let s2 = custody_closed(s1);
            if transfer_error(s2.taker_sell_ata, s2.receive_ata, ctx.taker_sell_mint, ctx.taker.key, sell_amount) is Some {
                transfer_error(s2.taker_sell_ata, s2.receive_ata, ctx.taker_sell_mint, ctx.taker.key, sell_amount)
            } else {
                let s3 = paid(s2, sell_amount);
                if s3.authority.lamports + s3.escrow.lamports > u64::MAX {
                    Some(EscrowError::Overflow)
                } else {
                    None
                }
            }
        }
    }
}

/// The accounts after a successful Settle: steps (a) to (d) applied in order.
pub open spec fn exchange_effect(ctx: Exchange, sell_amount: u64, buy_amount: u64) -> Exchange {
    record_closed(paid(custody_closed(released(ctx, buy_amount)), sell_amount))
}

/// Settles an offer, given the derivation of the record address from the
/// maker and the asset the taker buys. Either every effect is applied or, on
/// refusal, nothing changes; balances of each asset and native deposits are
/// conserved.
pub fn exchange_with(ctx: &mut Exchange, derived: Option<(Address, u8)>, sell_amount: u64, buy_amount: u64) -> (r: Result<(), EscrowError>)
    ensures
        match exchange_error(*old(ctx), derivation_view(derived), sell_amount, buy_amount) {
            Some(e) => r == Err::<(), EscrowError>(e) && *final(ctx) == *old(ctx),
            None => r is Ok && *final(ctx) == exchange_effect(*old(ctx), sell_amount, buy_amount),
        },
        r is Ok ==> old(ctx).escrow_ata.amount + old(ctx).taker_buy_ata.amount == final(ctx).escrow_ata.amount + final(ctx).taker_buy_ata.amount,
        r is Ok ==> old(ctx).taker_sell_ata.amount + old(ctx).receive_ata.amount == final(ctx).taker_sell_ata.amount + final(ctx).receive_ata.amount,
        r is Ok ==> old(ctx).authority.lamports + old(ctx).escrow.lamports + old(ctx).escrow_ata.lamports == final(ctx).authority.lamports + final(ctx).escrow.lamports + final(ctx).escrow_ata.lamports,
{
    if !ctx.taker.is_signer {
        return Err(EscrowError::MissingRequiredSignature);
    }
    if !ctx.escrow.data.is_initialized {
        return Err(EscrowError::UninitializedAccount);
    }
    match derived {
        Some(p) => {
            if !cmp_pubkeys(&p.0, &ctx.escrow.key) || p.1 != ctx.escrow.data.bump {
                return Err(EscrowError::InvalidSeeds);
            }
        },
        None => {
            return Err(EscrowError::InvalidSeeds);
        },
    }
    if buy_amount != ctx.escrow.data.sell_amount {
        return Err(EscrowError::AmountNotEqual);
    }
    if buy_amount != ctx.escrow_ata.amount {
        return Err(EscrowError::AmountNotEqual);
    }
    if sell_amount != ctx.escrow.data.buy_amount {
        return Err(EscrowError::AmountNotEqual);
    }
    if !cmp_pubkeys(&ctx.taker_sell_mint, &ctx.escrow.data.buy_mint) {
        return Err(EscrowError::MintMismatch);
    }
    if !cmp_pubkeys(&ctx.receive_ata.key, &ctx.escrow.data.receive_ata) {
        return Err(EscrowError::InvalidAuthority);
    }
    let escrow_key: Address = ctx.escrow.key;
    let mut custody: TokenAccount = ctx.escrow_ata;
    let mut taker_receives: TokenAccount = ctx.taker_buy_ata;
    let mut maker: Wallet = ctx.authority;
    let mut taker_pays: TokenAccount = ctx.taker_sell_ata;
    let mut payout: TokenAccount = ctx.receive_ata;
    match transfer(&mut custody, &mut taker_receives, &ctx.taker_buy_mint, &escrow_key, buy_amount) {
        Ok(()) => {},
        Err(e) => {
            return Err(e);
        },
    }
    match close_token_account(&mut custody, &mut maker, &escrow_key) {
        Ok(()) => {},
        Err(e) => {
            return Err(e);
        },
    }
    match transfer(&mut taker_pays, &mut payout, &ctx.taker_sell_mint, &ctx.taker.key, sell_amount) {
        Ok(()) => {},
        Err(e) => {
            return Err(e);
        },
    }
    if maker.lamports > u64::MAX - ctx.escrow.lamports {
        return Err(EscrowError::Overflow);
    }
    maker.lamports = maker.lamports + ctx.escrow.lamports;
    ctx.escrow.lamports = 0;
    ctx.escrow.data.is_initialized = false;
    ctx.escrow_ata = custody;
    ctx.taker_buy_ata = taker_receives;
    ctx.authority = maker;
    ctx.taker_sell_ata = taker_pays;
    ctx.receive_ata = payout;
    Ok(())
}

/// Settles an offer under `program_id`: derives the record address from the
/// maker and the asset the taker buys, and proceeds as `exchange_with`.
pub fn exchange(ctx: &mut Exchange, program_id: &Address, sell_amount: u64, buy_amount: u64) -> (r: Result<(), EscrowError>)
    ensures
        match exchange_error(*old(ctx), escrow_derivation(program_id@, old(ctx).authority.key@, old(ctx).taker_buy_mint@), sell_amount, buy_amount) {
            Some(e) => r == Err::<(), EscrowError>(e) && *final(ctx) == *old(ctx),
            None => r is Ok && *final(ctx) == exchange_effect(*old(ctx), sell_amount, buy_amount),
        },
{
    if !ctx.taker.is_signer {
        return Err(EscrowError::MissingRequiredSignature);
    }
    let derived = derive_escrow(program_id, &ctx.authority.key, &ctx.taker_buy_mint);
    exchange_with(ctx, derived, sell_amount, buy_amount)
}

/// Once an offer has been settled, every later Settle against the same record
/// is refused (and so moves nothing): with `UninitializedAccount` whenever its
/// taker signed. Of two takers racing for one offer, whichever comes second
/// therefore fails, whatever it supplies.
pub proof fn lemma_settle_exactly_once(
    ctx: Exchange,
    derived: Option<(Seq<u8>, u8)>,
    sell_amount: u64,
    buy_amount: u64,
    again: Exchange,
    derived_again: Option<(Seq<u8>, u8)>,
    sell_again: u64,
    buy_again: u64,
)
    requires
        exchange_error(ctx, derived, sell_amount, buy_amount) is None,
        again.escrow == exchange_effect(ctx, sell_amount, buy_amount).escrow,
    ensures
        exchange_error(again, derived_again, sell_again, buy_again) is Some,
        again.taker.is_signer ==> exchange_error(again, derived_again, sell_again, buy_again)
            == Some(EscrowError::UninitializedAccount),
{
}

/// While an offer is open, a second Open for the same (maker, asset) pair is
/// refused (and so changes nothing): with `InitializedAccount` whenever the
/// maker signed and supplied the derived bump, else with `InvalidSeeds`.
pub proof fn lemma_open_exactly_once(
    ctx: InitEscrow,
    derived: Option<(Seq<u8>, u8)>,
    sell_amount: u64,
    buy_amount: u64,
    again: InitEscrow,
    derived_again: Option<(Seq<u8>, u8)>,
    sell_again: u64,
    buy_again: u64,
)
    requires
        init_escrow_error(ctx, derived, sell_amount, buy_amount) is None,
        again.escrow == init_escrow_effect(ctx, sell_amount, buy_amount).escrow,
        derived_again == derived,
    ensures
        init_escrow_error(again, derived_again, sell_again, buy_again) is Some,
        again.authority.is_signer && again.escrow_bump == ctx.escrow_bump
            ==> init_escrow_error(again, derived_again, sell_again, buy_again)
            == Some(EscrowError::InitializedAccount),
        again.authority.is_signer && again.escrow_bump != ctx.escrow_bump
            ==> init_escrow_error(again, derived_again, sell_again, buy_again)
            == Some(EscrowError::InvalidSeeds),
{
}

/// A settled offer conserves each asset: the sold asset between custody and
/// taker, the paid asset between taker and maker, and native deposits between
/// the record, the custody sub-account and the maker.
pub proof fn lemma_settle_conserves(ctx: Exchange, derived: Option<(Seq<u8>, u8)>, sell_amount: u64, buy_amount: u64)
    requires
        exchange_error(ctx, derived, sell_amount, buy_amount) is None,
    ensures
        ({
            let after = exchange_effect(ctx, sell_amount, buy_amount);
            &&& ctx.escrow_ata.amount + ctx.taker_buy_ata.amount == after.escrow_ata.amount + after.taker_buy_ata.amount
            &&& ctx.taker_sell_ata.amount + ctx.receive_ata.amount == after.taker_sell_ata.amount + after.receive_ata.amount
            &&& ctx.authority.lamports + ctx.escrow.lamports + ctx.escrow_ata.lamports
                == after.authority.lamports + after.escrow.lamports + after.escrow_ata.lamports
        }),
{
}

/// An opened offer conserves the sold asset between the maker and the new
/// custody sub-account, which holds exactly the offered amount.
pub proof fn lemma_open_conserves(ctx: InitEscrow, derived: Option<(Seq<u8>, u8)>, sell_amount: u64, buy_amount: u64)
    requires
        init_escrow_error(ctx, derived, sell_amount, buy_amount) is None,
    ensures
        ({
            let after = init_escrow_effect(ctx, sell_amount, buy_amount);
            &&& ctx.authority_sell_ata.amount == after.authority_sell_ata.amount + after.escrow_ata.amount
            &&& after.escrow_ata.amount == sell_amount
        }),
{
}

/// A signed Open whose record address or bump is not the derived one is
/// refused with `InvalidSeeds`, whether or not a record exists there.
pub proof fn lemma_open_seeds_checked(ctx: InitEscrow, derived: Option<(Seq<u8>, u8)>, sell_amount: u64, buy_amount: u64)
    requires
        ctx.authority.is_signer,
        derived != Some((ctx.escrow.key@, ctx.escrow_bump)),
    ensures
        init_escrow_error(ctx, derived, sell_amount, buy_amount) == Some(EscrowError::InvalidSeeds),
{
}

/// The only record address and bump that an Open accepts are the derived ones.
pub proof fn lemma_open_accepts_only_derived(ctx: InitEscrow, derived: Option<(Seq<u8>, u8)>, sell_amount: u64, buy_amount: u64)
    requires
        init_escrow_error(ctx, derived, sell_amount, buy_amount) != Some(EscrowError::InvalidSeeds),
        init_escrow_error(ctx, derived, sell_amount, buy_amount) != Some(EscrowError::MissingRequiredSignature),
    ensures
        derived == Some((ctx.escrow.key@, ctx.escrow_bump)),
{
}

/// A signed Settle against an existing record whose address or stored bump
/// is not the one derived from the supplied (maker, asset) is refused with
/// `InvalidSeeds` (and so changes nothing).
pub proof fn lemma_settle_seeds_checked(ctx: Exchange, derived: Option<(Seq<u8>, u8)>, sell_amount: u64, buy_amount: u64)
    requires
        ctx.taker.is_signer,
        ctx.escrow.data.is_initialized,
        derived != Some((ctx.escrow.key@, ctx.escrow.data.bump)),
    ensures
        exchange_error(ctx, derived, sell_amount, buy_amount) == Some(EscrowError::InvalidSeeds),
{
}

/// A signed Settle of the right record whose amounts differ from the record or
/// from the custodied balance is refused with `AmountNotEqual` (and so
/// changes nothing).
pub proof fn lemma_settle_amounts_checked(ctx: Exchange, derived: Option<(Seq<u8>, u8)>, sell_amount: u64, buy_amount: u64)
    requires
        ctx.taker.is_signer,
        ctx.escrow.data.is_initialized,
        derived == Some((ctx.escrow.key@, ctx.escrow.data.bump)),
        buy_amount != ctx.escrow.data.sell_amount || ctx.escrow_ata.amount != ctx.escrow.data.sell_amount
            || sell_amount != ctx.escrow.data.buy_amount,
    ensures
        exchange_error(ctx, derived, sell_amount, buy_amount) == Some(EscrowError::AmountNotEqual),
{
}

} // verus!
