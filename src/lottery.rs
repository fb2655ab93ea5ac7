//! The lottery state machine: vault and counter set-up, creation, ticket
//! sales, winner declaration with fee extraction, and the prize claim.
use vstd::prelude::*;
use crate::address::{
    derive_ticket, derive_vault, derived_view, is_derived, matches_derived, program_address,
    ticket_seeds, vault_seeds, Address,
};
use crate::randomness::{digest_of, draw_digest, entropy, winner_from_digest, winner_of};
use crate::state::{
    ErrorCode, Lottery, LotteryCounter, LotteryVault, UserTicket, FEE_PERCENT, SALES_WINDOW,
};

verus! {

/// Accounts of vault initialisation.
pub struct InitializeLotteryVault {
    pub program_id: Address,
    pub payer: Address,
    pub lottery_vault_address: Address,
    pub lottery_vault: LotteryVault,
}

/// Accounts of counter initialisation.
pub struct InitializeCounter {
    pub lottery_counter: LotteryCounter,
}

/// Accounts of lottery creation.
pub struct InitializeLottery {
    pub signer: Address,
    pub lottery: Lottery,
    pub counter: LotteryCounter,
}

/// Accounts of a ticket purchase. The vault is the custody vault of the
/// lottery's authority; `signer_lamports` is the buyer's balance.
pub struct BuyTicket {
    pub program_id: Address,
    pub signer: Address,
    pub signer_lamports: u64,
    pub lottery_address: Address,
    pub lottery: Lottery,
    pub lottery_vault_address: Address,
    pub lottery_vault: LotteryVault,
    pub ticket_address: Address,
    pub ticket: UserTicket,
}

/// Accounts of a winner declaration. `vault` is the custody vault of the
/// lottery's authority, `fee_vault` the vault of the declaring caller.
pub struct DeclareWinner {
    pub program_id: Address,
    pub signer: Address,
    pub lottery: Lottery,
    pub vault_address: Address,
    pub vault: LotteryVault,
    pub fee_vault_address: Address,
    pub fee_vault: LotteryVault,
}

/// Accounts of a prize claim.
pub struct ClaimPrize {
    pub program_id: Address,
    pub signer: Address,
    pub signer_lamports: u64,
    pub lottery_address: Address,
    pub lottery: Lottery,
    pub ticket_address: Address,
    pub ticket: UserTicket,
    pub vault_address: Address,
    pub vault: LotteryVault,
}

pub open spec fn result_of(e: Option<ErrorCode>) -> Result<(), ErrorCode> {
    match e {
        Some(e) => Err(e),
        None => Ok(()),
    }
}

/// The fee that the declaration takes from a pot.
pub open spec fn fee_of(pot: u64) -> nat {
    (pot as nat * FEE_PERCENT as nat / 100) as nat
}

// ---------------------------------------------------------------- vault set-up

pub open spec fn init_vault_error(c: InitializeLotteryVault, d: Option<(Seq<u8>, u8)>) -> Option<ErrorCode> {
    if c.lottery_vault.initialized || c.lottery_vault.amount > 0 {
        Some(ErrorCode::PdaAlreadyInitialized)
    } else if !matches_derived(c.lottery_vault_address@, d) {
        Some(ErrorCode::InvalidVaultPda)
    } else {
        None
    }
}

pub open spec fn init_vault_post(
    old: InitializeLotteryVault,
    new: InitializeLotteryVault,
    r: Result<(), ErrorCode>,
    d: Option<(Seq<u8>, u8)>,
) -> bool {
    &&& r == result_of(init_vault_error(old, d))
    &&& r is Err ==> new == old
    &&& r is Ok ==> new == (InitializeLotteryVault {
        lottery_vault: LotteryVault { authority: old.payer, amount: 0, initialized: true },
        ..old
    })
}

/// Initialises the payer's vault, given the derivation of its address.
pub fn init_vault_with(ctx: &mut InitializeLotteryVault, derived: &Option<(Address, u8)>) -> (r: Result<(), ErrorCode>)
    ensures
        init_vault_post(*old(ctx), *final(ctx), r, derived_view(*derived)),
{
    if ctx.lottery_vault.initialized || ctx.lottery_vault.amount > 0 {
        return Err(ErrorCode::PdaAlreadyInitialized);
    }
    if !is_derived(&ctx.lottery_vault_address, derived) {
        return Err(ErrorCode::InvalidVaultPda);
    }
    ctx.lottery_vault = LotteryVault { authority: ctx.payer, amount: 0, initialized: true };
    Ok(())
}

/// Initialises the payer's vault: fails if it already holds state or value,
/// or if the supplied address is not the payer's derived vault address.
pub fn initialize_pda_lottery_vault(ctx: &mut InitializeLotteryVault) -> (r: Result<(), ErrorCode>)
    ensures
        init_vault_post(
            *old(ctx),
            *final(ctx),
            r,
            program_address(vault_seeds(old(ctx).payer@), old(ctx).program_id@),
        ),
{
    let derived = derive_vault(&ctx.payer, &ctx.program_id);
    init_vault_with(ctx, &derived)
}

// ---------------------------------------------------------------- counter

/// Sets the lottery counter to zero.
pub fn initialize_lottery_counter(ctx: &mut InitializeCounter) -> (r: Result<(), ErrorCode>)
    ensures
        r is Ok,
        final(ctx).lottery_counter.total_lottery == 0,
{
    ctx.lottery_counter.total_lottery = 0;
    Ok(())
}

// ---------------------------------------------------------------- creation

pub open spec fn create_error(c: InitializeLottery, ticket_price: u32, now: u64) -> Option<ErrorCode> {
    if ticket_price == 0 {
        Some(ErrorCode::InvalidTicketPrice)
    } else if c.counter.total_lottery == u64::MAX || now as int + SALES_WINDOW as int > u64::MAX {
        Some(ErrorCode::ArithmeticOverflow)
    } else {
        None
    }
}

/// The record of a freshly created lottery.
pub open spec fn new_lottery(id: u64, authority: Address, ticket_price: u32, now: u64) -> Lottery {
    Lottery {
        lottery_id: id,
        start_time: now,
        end_time: (now + SALES_WINDOW) as u64,
        total_tickets: 0,
        ticket_price,
        lottery_pot_amount: 0,
        winner: None,
        winner_chosen: false,
        claimed: false,
        authority,
    }
}

pub open spec fn create_post(
    old: InitializeLottery,
    new: InitializeLottery,
    r: Result<u64, ErrorCode>,
    ticket_price: u32,
    now: u64,
) -> bool {
    match create_error(old, ticket_price, now) {
        Some(e) => r == Err::<u64, ErrorCode>(e) && new == old,
        None => {
            let id = (old.counter.total_lottery + 1) as u64;
            &&& r == Ok::<u64, ErrorCode>(id)
            &&& new.lottery == new_lottery(id, old.signer, ticket_price, now)
            &&& new.counter.total_lottery == id
            &&& new.signer == old.signer
        },
    }
}

/// Creates the next lottery at time `now` and returns its id, one more than
/// the counter, which is set to it.
pub fn create_lottery(ctx: &mut InitializeLottery, ticket_price: u32, now: u64) -> (r: Result<u64, ErrorCode>)
    ensures
        create_post(*old(ctx), *final(ctx), r, ticket_price, now),
        r is Ok ==> final(ctx).lottery.wf(),
{
    if ticket_price == 0 {
        return Err(ErrorCode::InvalidTicketPrice);
    }
    if ctx.counter.total_lottery == u64::MAX || now > u64::MAX - SALES_WINDOW {
        return Err(ErrorCode::ArithmeticOverflow);
    }
    let lottery_id = ctx.counter.total_lottery + 1;
    ctx.lottery = Lottery {
        lottery_id,
        start_time: now,
        end_time: now + SALES_WINDOW,
        total_tickets: 0,
        ticket_price,
        lottery_pot_amount: 0,
        winner: None,
        winner_chosen: false,
        claimed: false,
        authority: ctx.signer,
    };
    ctx.counter.total_lottery = lottery_id;
    Ok(lottery_id)
}

// ---------------------------------------------------------------- ticket sales

pub open spec fn buy_error(
    c: BuyTicket,
    lottery_id: u64,
    ticket_price: u32,
    now: u64,
    vault_d: Option<(Seq<u8>, u8)>,
    ticket_d: Option<(Seq<u8>, u8)>,
) -> Option<ErrorCode> {
    if c.lottery.lottery_id != lottery_id {
        Some(ErrorCode::InvalidLotteryId)
    } else if c.lottery.ticket_price != ticket_price {
        Some(ErrorCode::UnmatchedTicketPrice)
    } else if now >= c.lottery.end_time {
        Some(ErrorCode::ExpiredLotterySession)
    } else if !matches_derived(c.lottery_vault_address@, vault_d) {
        Some(ErrorCode::InvalidVaultPda)
    } else if !matches_derived(c.ticket_address@, ticket_d) || (c.ticket.tickets_bought > 0 && (
    c.ticket.user@ != c.signer@ || c.ticket.lottery@ != c.lottery_address@)) {
        Some(ErrorCode::InvalidUserTicket)
    } else if c.signer_lamports < ticket_price {
        Some(ErrorCode::InsufficientFunds)
    } else if c.lottery.total_tickets == u32::MAX || c.ticket.tickets_bought == u32::MAX
        || c.lottery.lottery_pot_amount + ticket_price > u64::MAX || c.lottery_vault.amount
        + ticket_price > u64::MAX {
        Some(ErrorCode::ArithmeticOverflow)
    } else {
        None
    }
}

pub open spec fn buy_post(
    old: BuyTicket,
    new: BuyTicket,
    r: Result<(), ErrorCode>,
    lottery_id: u64,
    ticket_price: u32,
    now: u64,
    vault_d: Option<(Seq<u8>, u8)>,
    ticket_d: Option<(Seq<u8>, u8)>,
) -> bool {
    &&& r == result_of(buy_error(old, lottery_id, ticket_price, now, vault_d, ticket_d))
    &&& r is Err ==> new == old
    &&& r is Ok ==> {
        let number = (old.lottery.total_tickets + 1) as u32;
        &&& new.lottery == (Lottery {
            total_tickets: number,
            lottery_pot_amount: (old.lottery.lottery_pot_amount + ticket_price) as u64,
            ..old.lottery
        })
        &&& new.ticket.lottery_number@ == old.ticket.lottery_number@.push(number as u64)
        &&& new.ticket.tickets_bought == old.ticket.tickets_bought + 1
        &&& new.ticket.user == old.signer
        &&& new.ticket.lottery == old.lottery_address
        &&& new.ticket.bump == ticket_d.unwrap().1
        &&& new.signer_lamports == old.signer_lamports - ticket_price
        &&& new.lottery_vault == (LotteryVault {
            amount: (old.lottery_vault.amount + ticket_price) as u64,
            ..old.lottery_vault
        })
        &&& new.program_id == old.program_id
        &&& new.signer == old.signer
        &&& new.lottery_address == old.lottery_address
        &&& new.lottery_vault_address == old.lottery_vault_address
        &&& new.ticket_address == old.ticket_address
    }
}

/// Sells one ticket, given the derivations of the custody vault and of the
/// buyer's ticket record.
pub fn buy_ticket_with(
    ctx: &mut BuyTicket,
    lottery_id: u64,
    ticket_price: u32,
    now: u64,
    vault_derived: &Option<(Address, u8)>,
    ticket_derived: &Option<(Address, u8)>,
) -> (r: Result<(), ErrorCode>)
    ensures
        buy_post(
            *old(ctx),
            *final(ctx),
            r,
            lottery_id,
            ticket_price,
            now,
            derived_view(*vault_derived),
            derived_view(*ticket_derived),
        ),
        old(ctx).lottery.wf() ==> final(ctx).lottery.wf(),
        old(ctx).ticket.wf() ==> final(ctx).ticket.wf(),
{
    if ctx.lottery.lottery_id != lottery_id {
        return Err(ErrorCode::InvalidLotteryId);
    }
    if ctx.lottery.ticket_price != ticket_price {
        return Err(ErrorCode::UnmatchedTicketPrice);
    }
    if now >= ctx.lottery.end_time {
        return Err(ErrorCode::ExpiredLotterySession);
    }
    if !is_derived(&ctx.lottery_vault_address, vault_derived) {
        return Err(ErrorCode::InvalidVaultPda);
    }
    if !is_derived(&ctx.ticket_address, ticket_derived) || (ctx.ticket.tickets_bought > 0 && (
    !ctx.ticket.user.same_as(&ctx.signer) || !ctx.ticket.lottery.same_as(&ctx.lottery_address))) {
        return Err(ErrorCode::InvalidUserTicket);
    }
    if ctx.signer_lamports < ticket_price as u64 {
        return Err(ErrorCode::InsufficientFunds);
    }
    if ctx.lottery.total_tickets == u32::MAX || ctx.ticket.tickets_bought == u32::MAX
        || ctx.lottery.lottery_pot_amount > u64::MAX - ticket_price as u64
        || ctx.lottery_vault.amount > u64::MAX - ticket_price as u64 {
        return Err(ErrorCode::ArithmeticOverflow);
    }
    let bump = match ticket_derived {
        Some(p) => p.1,
        None => 0,
    };
    // Transfer of the ticket price from the buyer to the custody vault.
    ctx.signer_lamports = ctx.signer_lamports - ticket_price as u64;
    ctx.lottery_vault.amount = ctx.lottery_vault.amount + ticket_price as u64;

    ctx.lottery.total_tickets = ctx.lottery.total_tickets + 1;
    ctx.lottery.lottery_pot_amount = ctx.lottery.lottery_pot_amount + ticket_price as u64;

    ctx.ticket.bump = bump;
    ctx.ticket.user = ctx.signer;
    ctx.ticket.lottery = ctx.lottery_address;
    ctx.ticket.lottery_number.push(ctx.lottery.total_tickets as u64);
    ctx.ticket.tickets_bought = ctx.ticket.tickets_bought + 1;
    Ok(())
}

/// Sells one ticket at time `now`: checks the lottery id, the expected price
/// and the open window, verifies the custody vault and the ticket record
/// against their derived addresses, moves the price from the buyer to the
/// vault, and appends the next ticket number to the buyer's record.
pub fn buy_ticket(ctx: &mut BuyTicket, lottery_id: u64, ticket_price: u32, now: u64) -> (r: Result<(), ErrorCode>)
    ensures
        buy_post(
            *old(ctx),
            *final(ctx),
            r,
            lottery_id,
            ticket_price,
            now,
            program_address(vault_seeds(old(ctx).lottery.authority@), old(ctx).program_id@),
            program_address(
                ticket_seeds(old(ctx).lottery_address@, old(ctx).signer@),
                old(ctx).program_id@,
            ),
        ),
        old(ctx).lottery.wf() ==> final(ctx).lottery.wf(),
        old(ctx).ticket.wf() ==> final(ctx).ticket.wf(),
{
    let vault_derived = derive_vault(&ctx.lottery.authority, &ctx.program_id);
    let ticket_derived = derive_ticket(&ctx.lottery_address, &ctx.signer, &ctx.program_id);
    buy_ticket_with(ctx, lottery_id, ticket_price, now, &vault_derived, &ticket_derived)
}

// ---------------------------------------------------------------- declaration

pub open spec fn declare_error(
    c: DeclareWinner,
    lottery_id: u64,
    now: u64,
    vault_d: Option<(Seq<u8>, u8)>,
    fee_d: Option<(Seq<u8>, u8)>,
) -> Option<ErrorCode> {
    if now < c.lottery.end_time {
        Some(ErrorCode::UnexpiredLotterySession)
    } else if c.lottery.lottery_id != lottery_id {
        Some(ErrorCode::UnmatchedLotteryId)
    } else if c.lottery.winner_chosen {
        Some(ErrorCode::AlreadyDeclared)
    } else if c.lottery.total_tickets == 0 {
        Some(ErrorCode::NoTicketsSold)
    } else {
        fee_error(c, vault_d, fee_d)
    }
}

/// The errors of fee extraction.
pub open spec fn fee_error(
    c: DeclareWinner,
    vault_d: Option<(Seq<u8>, u8)>,
    fee_d: Option<(Seq<u8>, u8)>,
) -> Option<ErrorCode> {
    if !matches_derived(c.vault_address@, vault_d) || !matches_derived(c.fee_vault_address@, fee_d) {
        Some(ErrorCode::InvalidVaultPda)
    } else if c.vault.amount < fee_of(c.lottery.lottery_pot_amount) {
        Some(ErrorCode::InsufficientVaultBalance)
    } else if c.vault_address@ != c.fee_vault_address@ && c.fee_vault.amount + fee_of(
        c.lottery.lottery_pot_amount,
    ) > u64::MAX {
        Some(ErrorCode::ArithmeticOverflow)
    } else {
        None
    }
}

pub open spec fn declare_post(
    old: DeclareWinner,
    new: DeclareWinner,
    r: Result<(), ErrorCode>,
    lottery_id: u64,
    now: u64,
    digest: Seq<u8>,
    vault_d: Option<(Seq<u8>, u8)>,
    fee_d: Option<(Seq<u8>, u8)>,
) -> bool {
    &&& r == result_of(declare_error(old, lottery_id, now, vault_d, fee_d))
    &&& r is Err ==> new == old
    &&& r is Ok ==> {
        let fee = fee_of(old.lottery.lottery_pot_amount);
        &&& new.lottery == (Lottery {
            winner: Some(winner_of(digest, old.lottery.total_tickets as nat) as u64),
            winner_chosen: true,
            lottery_pot_amount: (old.lottery.lottery_pot_amount - fee) as u64,
            ..old.lottery
        })
        &&& if old.vault_address@ == old.fee_vault_address@ {
            new.vault == old.vault && new.fee_vault == old.fee_vault
        } else {
            &&& new.vault == (LotteryVault { amount: (old.vault.amount - fee) as u64, ..old.vault })
            &&& new.fee_vault == (LotteryVault {
                amount: (old.fee_vault.amount + fee) as u64,
                ..old.fee_vault
            })
        }
        &&& new.program_id == old.program_id
        &&& new.signer == old.signer
        &&& new.vault_address == old.vault_address
        &&& new.fee_vault_address == old.fee_vault_address
    }
}

/// Fee extraction: checks both vaults against their derivations and the
/// custody balance, moves the fee to the caller's vault, and takes it off
/// the pot.
fn charge_fees(
    ctx: &mut DeclareWinner,
    vault_derived: &Option<(Address, u8)>,
    fee_derived: &Option<(Address, u8)>,
) -> (r: Result<(), ErrorCode>)
    ensures
        r == result_of(fee_error(*old(ctx), derived_view(*vault_derived), derived_view(*fee_derived))),
        r is Err ==> *final(ctx) == *old(ctx),
        r is Ok ==> {
            let fee = fee_of(old(ctx).lottery.lottery_pot_amount);
            &&& final(ctx).lottery == (Lottery {
                lottery_pot_amount: (old(ctx).lottery.lottery_pot_amount - fee) as u64,
                ..old(ctx).lottery
            })
            &&& if old(ctx).vault_address@ == old(ctx).fee_vault_address@ {
                final(ctx).vault == old(ctx).vault && final(ctx).fee_vault == old(ctx).fee_vault
            } else {
                &&& final(ctx).vault == (LotteryVault {
                    amount: (old(ctx).vault.amount - fee) as u64,
                    ..old(ctx).vault
                })
                &&& final(ctx).fee_vault == (LotteryVault {
                    amount: (old(ctx).fee_vault.amount + fee) as u64,
                    ..old(ctx).fee_vault
                })
            }
            &&& final(ctx).program_id == old(ctx).program_id
            &&& final(ctx).signer == old(ctx).signer
            &&& final(ctx).vault_address == old(ctx).vault_address
            &&& final(ctx).fee_vault_address == old(ctx).fee_vault_address
        },
{
    let fee: u64 = ctx.lottery.lottery_pot_amount / 100 * FEE_PERCENT
        + ctx.lottery.lottery_pot_amount % 100 * FEE_PERCENT / 100;
    assert(fee as nat == fee_of(ctx.lottery.lottery_pot_amount)) by (nonlinear_arith)
        requires
            fee as nat == ctx.lottery.lottery_pot_amount as nat / 100 * 10
                + ctx.lottery.lottery_pot_amount as nat % 100 * 10 / 100,
            fee_of(ctx.lottery.lottery_pot_amount) == ctx.lottery.lottery_pot_amount as nat * 10 / 100,
    ;
    if !is_derived(&ctx.vault_address, vault_derived) || !is_derived(&ctx.fee_vault_address, fee_derived) {
        return Err(ErrorCode::InvalidVaultPda);
    }
    if ctx.vault.amount < fee {
        return Err(ErrorCode::InsufficientVaultBalance);
    }
    let same = ctx.vault_address.same_as(&ctx.fee_vault_address);
    if !same && ctx.fee_vault.amount > u64::MAX - fee {
        return Err(ErrorCode::ArithmeticOverflow);
    }
    if !same {
        ctx.vault.amount = ctx.vault.amount - fee;
        ctx.fee_vault.amount = ctx.fee_vault.amount + fee;
    }
    ctx.lottery.lottery_pot_amount = ctx.lottery.lottery_pot_amount - fee;
    Ok(())
}

/// Declares the winner, given the digest of the entropy sources and the
/// derivations of the custody vault and of the caller's vault.
pub fn declare_winner_with(
    ctx: &mut DeclareWinner,
    lottery_id: u64,
    now: u64,
    digest: &[u8; 32],
    vault_derived: &Option<(Address, u8)>,
    fee_derived: &Option<(Address, u8)>,
) -> (r: Result<(), ErrorCode>)
    ensures
        declare_post(
            *old(ctx),
            *final(ctx),
            r,
            lottery_id,
            now,
            digest@,
            derived_view(*vault_derived),
            derived_view(*fee_derived),
        ),
        old(ctx).lottery.wf() ==> final(ctx).lottery.wf(),
{
    if now < ctx.lottery.end_time {
        return Err(ErrorCode::UnexpiredLotterySession);
    }
    if ctx.lottery.lottery_id != lottery_id {
        return Err(ErrorCode::UnmatchedLotteryId);
    }
    if ctx.lottery.winner_chosen {
        return Err(ErrorCode::AlreadyDeclared);
    }
    if ctx.lottery.total_tickets == 0 {
        return Err(ErrorCode::NoTicketsSold);
    }
    let winner = winner_from_digest(digest, ctx.lottery.total_tickets);
    let charged = charge_fees(ctx, vault_derived, fee_derived);
    match charged {
        Err(e) => Err(e),
        Ok(()) => {
            ctx.lottery.winner = Some(winner);
            ctx.lottery.winner_chosen = true;
            Ok(())
        },
    }
}

/// Declares the winner at time `now`, once the sales window has closed:
/// hashes the time, the recent chain value, the caller and the lottery id,
/// picks ticket `r mod total_tickets + 1` from the first eight bytes of the
/// digest, and takes the fee off the pot.
pub fn declare_winner(ctx: &mut DeclareWinner, lottery_id: u64, now: u64, recent: &[u8; 32]) -> (r: Result<(), ErrorCode>)
    ensures
        declare_post(
            *old(ctx),
            *final(ctx),
            r,
            lottery_id,
            now,
            digest_of(entropy(now, recent@, old(ctx).signer@, old(ctx).lottery.lottery_id)),
            program_address(vault_seeds(old(ctx).lottery.authority@), old(ctx).program_id@),
            program_address(vault_seeds(old(ctx).signer@), old(ctx).program_id@),
        ),
        old(ctx).lottery.wf() ==> final(ctx).lottery.wf(),
{
    let digest = draw_digest(now, recent, &ctx.signer, ctx.lottery.lottery_id);
    let vault_derived = derive_vault(&ctx.lottery.authority, &ctx.program_id);
    let fee_derived = derive_vault(&ctx.signer, &ctx.program_id);
    declare_winner_with(ctx, lottery_id, now, &digest, &vault_derived, &fee_derived)
}

// ---------------------------------------------------------------- claim

pub open spec fn claim_error(
    c: ClaimPrize,
    lottery_id: u64,
    ticket_d: Option<(Seq<u8>, u8)>,
    vault_d: Option<(Seq<u8>, u8)>,
) -> Option<ErrorCode> {
    if c.lottery.lottery_id != lottery_id {
        Some(ErrorCode::LotteryIdMismatch)
    } else if !c.lottery.winner_chosen || c.lottery.winner is None {
        Some(ErrorCode::WinnerNotYetDeclared)
    } else if c.lottery.claimed {
        Some(ErrorCode::AlreadyClaimed)
    } else if !matches_derived(c.ticket_address@, ticket_d) || c.ticket.user@ != c.signer@
        || c.ticket.lottery@ != c.lottery_address@ {
        Some(ErrorCode::InvalidUserTicket)
    } else if !c.ticket.lottery_number@.contains(c.lottery.winner.unwrap()) {
        Some(ErrorCode::NotAWinningTicket)
    } else if !matches_derived(c.vault_address@, vault_d) {
        Some(ErrorCode::InvalidVaultPda)
    } else if c.vault.amount < c.lottery.lottery_pot_amount {
        Some(ErrorCode::InsufficientVaultBalance)
    } else if c.signer_lamports + c.lottery.lottery_pot_amount > u64::MAX {
        Some(ErrorCode::ArithmeticOverflow)
    } else {
        None
    }
}

pub open spec fn claim_post(
    old: ClaimPrize,
    new: ClaimPrize,
    r: Result<(), ErrorCode>,
    lottery_id: u64,
    ticket_d: Option<(Seq<u8>, u8)>,
    vault_d: Option<(Seq<u8>, u8)>,
) -> bool {
    &&& r == result_of(claim_error(old, lottery_id, ticket_d, vault_d))
    &&& r is Err ==> new == old
    &&& r is Ok ==> {
        let prize = old.lottery.lottery_pot_amount;
        &&& new.lottery == (Lottery { claimed: true, ..old.lottery })
        &&& new.vault == (LotteryVault { amount: (old.vault.amount - prize) as u64, ..old.vault })
        &&& new.signer_lamports == old.signer_lamports + prize
        &&& new.ticket == old.ticket
        &&& new.program_id == old.program_id
        &&& new.signer == old.signer
        &&& new.lottery_address == old.lottery_address
        &&& new.ticket_address == old.ticket_address
        &&& new.vault_address == old.vault_address
    }
}

/// Pays the prize, given the derivations of the caller's ticket record and
/// of the custody vault.
pub fn claim_prize_with(
    ctx: &mut ClaimPrize,
    lottery_id: u64,
    ticket_derived: &Option<(Address, u8)>,
    vault_derived: &Option<(Address, u8)>,
) -> (r: Result<(), ErrorCode>)
    ensures
        claim_post(
            *old(ctx),
            *final(ctx),
            r,
            lottery_id,
            derived_view(*ticket_derived),
            derived_view(*vault_derived),
        ),
        old(ctx).lottery.wf() ==> final(ctx).lottery.wf(),
{
    if ctx.lottery.lottery_id != lottery_id {
        return Err(ErrorCode::LotteryIdMismatch);
    }
    let winner = match ctx.lottery.winner {
        Some(w) => w,
        None => {
            return Err(ErrorCode::WinnerNotYetDeclared);
        },
    };
    if !ctx.lottery.winner_chosen {
        return Err(ErrorCode::WinnerNotYetDeclared);
    }
    if ctx.lottery.claimed {
        return Err(ErrorCode::AlreadyClaimed);
    }
    if !is_derived(&ctx.ticket_address, ticket_derived) || !ctx.ticket.user.same_as(&ctx.signer)
        || !ctx.ticket.lottery.same_as(&ctx.lottery_address) {
        return Err(ErrorCode::InvalidUserTicket);
    }
    if !ctx.ticket.holds(winner) {
        return Err(ErrorCode::NotAWinningTicket);
    }
    if !is_derived(&ctx.vault_address, vault_derived) {
        return Err(ErrorCode::InvalidVaultPda);
    }
    let prize = ctx.lottery.lottery_pot_amount;
    if ctx.vault.amount < prize {
        return Err(ErrorCode::InsufficientVaultBalance);
    }
    if ctx.signer_lamports > u64::MAX - prize {
        return Err(ErrorCode::ArithmeticOverflow);
    }
    ctx.vault.amount = ctx.vault.amount - prize;
    ctx.signer_lamports = ctx.signer_lamports + prize;
    ctx.lottery.claimed = true;
    Ok(())
}

/// Pays the remaining pot to the caller, who must hold the winning ticket,
/// and marks the lottery claimed; any later claim fails.
pub fn claim_prize(ctx: &mut ClaimPrize, lottery_id: u64) -> (r: Result<(), ErrorCode>)
    ensures
        claim_post(
            *old(ctx),
            *final(ctx),
            r,
            lottery_id,
            program_address(
                ticket_seeds(old(ctx).lottery_address@, old(ctx).signer@),
                old(ctx).program_id@,
            ),
            program_address(vault_seeds(old(ctx).lottery.authority@), old(ctx).program_id@),
        ),
        old(ctx).lottery.wf() ==> final(ctx).lottery.wf(),
{
    let ticket_derived = derive_ticket(&ctx.lottery_address, &ctx.signer, &ctx.program_id);
    let vault_derived = derive_vault(&ctx.lottery.authority, &ctx.program_id);
    claim_prize_with(ctx, lottery_id, &ticket_derived, &vault_derived)
}

} // verus!
