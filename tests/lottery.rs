use krank_lottery::address::{derive_ticket, derive_vault, Address};
use krank_lottery::lottery::{
    buy_ticket, claim_prize, create_lottery, declare_winner, initialize_lottery_counter,
    initialize_pda_lottery_vault, BuyTicket, ClaimPrize, DeclareWinner, InitializeCounter,
    InitializeLottery, InitializeLotteryVault,
};
use krank_lottery::state::{ErrorCode, Lottery, LotteryCounter, LotteryVault, UserTicket};

const START: u64 = 1000;
const WEEK: u64 = 604800;

fn addr(b: u8) -> Address {
    Address::new([b; 32])
}

fn program() -> Address {
    addr(9)
}

fn vault_of(a: &Address) -> Address {
    derive_vault(a, &program()).unwrap().0
}

fn ticket_of(lottery: &Address, buyer: &Address) -> Address {
    derive_ticket(lottery, buyer, &program()).unwrap().0
}

fn empty_vault(a: &Address) -> LotteryVault {
    LotteryVault { authority: *a, amount: 0, initialized: true }
}

fn blank_lottery() -> Lottery {
    Lottery {
        lottery_id: 0,
        start_time: 0,
        end_time: 0,
        total_tickets: 0,
        ticket_price: 0,
        lottery_pot_amount: 0,
        winner: None,
        winner_chosen: false,
        claimed: false,
        authority: addr(0),
    }
}

fn created(price: u32) -> Lottery {
    let mut ctx = InitializeLottery {
        signer: addr(1),
        lottery: blank_lottery(),
        counter: LotteryCounter { total_lottery: 0 },
    };
    assert_eq!(create_lottery(&mut ctx, price, START), Ok(1));
    ctx.lottery
}

fn buy_ctx(lottery: Lottery, vault: LotteryVault, buyer: u8, ticket: UserTicket) -> BuyTicket {
    let signer = addr(buyer);
    let lottery_address = addr(3);
    BuyTicket {
        program_id: program(),
        signer,
        signer_lamports: 1_000,
        lottery_address,
        lottery_vault_address: vault_of(&lottery.authority),
        lottery,
        lottery_vault: vault,
        ticket_address: ticket_of(&lottery_address, &signer),
        ticket,
    }
}

fn declare_ctx(lottery: Lottery, vault: LotteryVault, caller: u8) -> DeclareWinner {
    let signer = addr(caller);
    DeclareWinner {
        program_id: program(),
        signer,
        vault_address: vault_of(&lottery.authority),
        fee_vault_address: vault_of(&signer),
        fee_vault: empty_vault(&signer),
        lottery,
        vault,
    }
}

fn claim_ctx(lottery: Lottery, vault: LotteryVault, caller: u8, ticket: UserTicket) -> ClaimPrize {
    let signer = addr(caller);
    let lottery_address = addr(3);
    ClaimPrize {
        program_id: program(),
        signer,
        signer_lamports: 0,
        lottery_address,
        vault_address: vault_of(&lottery.authority),
        lottery,
        ticket_address: ticket_of(&lottery_address, &signer),
        ticket,
        vault,
    }
}

/// Sells one ticket to each buyer in turn; returns the lottery, the vault and
/// each buyer's record.
fn sell(price: u32, buyers: &[u8]) -> (Lottery, LotteryVault, Vec<UserTicket>) {
    let mut lottery = created(price);
    let mut vault = empty_vault(&addr(1));
    let mut tickets = Vec::new();
    for b in buyers {
        let mut ctx = buy_ctx(lottery, vault, *b, UserTicket::empty());
        assert_eq!(buy_ticket(&mut ctx, 1, price, START + 10), Ok(()));
        assert_eq!(ctx.signer_lamports, 1_000 - price as u64);
        lottery = ctx.lottery;
        vault = ctx.lottery_vault;
        tickets.push(ctx.ticket);
    }
    (lottery, vault, tickets)
}

#[test]
fn scenario_three_buyers() {
    let (lottery, vault, tickets) = sell(100, &[11, 12, 13]);
    assert_eq!(lottery.total_tickets, 3);
    assert_eq!(lottery.lottery_pot_amount, 300);
    assert_eq!(vault.amount, 300);

    let mut d = declare_ctx(lottery, vault, 20);
    assert_eq!(declare_winner(&mut d, 1, START + WEEK, &[5u8; 32]), Ok(()));
    let w = d.lottery.winner.unwrap();
    assert!((1..=3).contains(&w));
    assert_eq!(d.lottery.lottery_pot_amount, 270);
    assert_eq!(d.vault.amount, 270);
    assert_eq!(d.fee_vault.amount, 30);

    let holder = (w - 1) as usize;
    assert_eq!(tickets[holder].lottery_number, vec![w]);
    let mut c = claim_ctx(d.lottery.clone(), d.vault.clone(), 11 + holder as u8, tickets[holder].clone());
    assert_eq!(claim_prize(&mut c, 1), Ok(()));
    assert_eq!(c.signer_lamports, 270);
    assert_eq!(c.vault.amount, 0);
    assert!(c.lottery.claimed);

    for (i, t) in tickets.iter().enumerate() {
        let mut again = claim_ctx(c.lottery.clone(), c.vault.clone(), 11 + i as u8, t.clone());
        assert_eq!(claim_prize(&mut again, 1), Err(ErrorCode::AlreadyClaimed));
        assert_eq!(again.signer_lamports, 0);
    }
}

#[test]
fn create_starts_empty() {
    let l = created(100);
    assert_eq!(l.lottery_id, 1);
    assert_eq!(l.total_tickets, 0);
    assert_eq!(l.lottery_pot_amount, 0);
    assert!(!l.winner_chosen);
    assert_eq!(l.winner, None);
    assert_eq!(l.start_time, START);
    assert_eq!(l.end_time, START + WEEK);
    assert_eq!(l.authority.bytes, [1u8; 32]);
}

#[test]
fn create_bumps_counter_and_rejects_zero_price() {
    let mut ctx = InitializeLottery {
        signer: addr(1),
        lottery: blank_lottery(),
        counter: LotteryCounter { total_lottery: 41 },
    };
    assert_eq!(create_lottery(&mut ctx, 0, START), Err(ErrorCode::InvalidTicketPrice));
    assert_eq!(ctx.counter.total_lottery, 41);
    assert_eq!(create_lottery(&mut ctx, 5, START), Ok(42));
    assert_eq!(ctx.counter.total_lottery, 42);
    assert_eq!(ctx.lottery.lottery_id, 42);
    assert_eq!(create_lottery(&mut ctx, 5, u64::MAX - 3), Err(ErrorCode::ArithmeticOverflow));
}

#[test]
fn counter_starts_at_zero() {
    let mut ctx = InitializeCounter { lottery_counter: LotteryCounter { total_lottery: 7 } };
    assert_eq!(initialize_lottery_counter(&mut ctx), Ok(()));
    assert_eq!(ctx.lottery_counter.total_lottery, 0);
}

#[test]
fn sales_issue_consecutive_numbers() {
    let (lottery, vault, tickets) = sell(7, &[11, 12, 13, 14, 15]);
    assert_eq!(lottery.total_tickets, 5);
    assert_eq!(lottery.lottery_pot_amount, 35);
    assert_eq!(vault.amount, 35);
    let mut all: Vec<u64> = tickets.iter().flat_map(|t| t.lottery_number.clone()).collect();
    all.sort();
    assert_eq!(all, vec![1, 2, 3, 4, 5]);
}

#[test]
fn repeat_buyer_appends_to_record() {
    let lottery = created(10);
    let mut ctx = buy_ctx(lottery, empty_vault(&addr(1)), 11, UserTicket::empty());
    assert_eq!(buy_ticket(&mut ctx, 1, 10, START), Ok(()));
    assert_eq!(buy_ticket(&mut ctx, 1, 10, START + 1), Ok(()));
    assert_eq!(ctx.ticket.lottery_number, vec![1, 2]);
    assert_eq!(ctx.ticket.tickets_bought, 2);
    assert_eq!(ctx.ticket.user.bytes, [11u8; 32]);
    assert_eq!(ctx.signer_lamports, 980);
    assert_eq!(ctx.lottery.lottery_pot_amount, 20);
}

#[test]
fn buy_after_window_fails_unchanged() {
    let lottery = created(10);
    let mut ctx = buy_ctx(lottery, empty_vault(&addr(1)), 11, UserTicket::empty());
    assert_eq!(buy_ticket(&mut ctx, 1, 10, START + WEEK), Err(ErrorCode::ExpiredLotterySession));
    assert_eq!(buy_ticket(&mut ctx, 1, 10, u64::MAX), Err(ErrorCode::ExpiredLotterySession));
    assert_eq!(ctx.lottery.total_tickets, 0);
    assert_eq!(ctx.lottery.lottery_pot_amount, 0);
    assert_eq!(ctx.signer_lamports, 1_000);
    assert!(ctx.ticket.lottery_number.is_empty());
}

#[test]
fn buy_errors() {
    let lottery = created(10);
    let mut ctx = buy_ctx(lottery.clone(), empty_vault(&addr(1)), 11, UserTicket::empty());
    assert_eq!(buy_ticket(&mut ctx, 2, 10, START), Err(ErrorCode::InvalidLotteryId));
    assert_eq!(buy_ticket(&mut ctx, 1, 11, START), Err(ErrorCode::UnmatchedTicketPrice));

    ctx.lottery_vault_address = addr(77);
    assert_eq!(buy_ticket(&mut ctx, 1, 10, START), Err(ErrorCode::InvalidVaultPda));

    let mut ctx = buy_ctx(lottery.clone(), empty_vault(&addr(1)), 11, UserTicket::empty());
    ctx.ticket_address = addr(77);
    assert_eq!(buy_ticket(&mut ctx, 1, 10, START), Err(ErrorCode::InvalidUserTicket));

    let mut other = UserTicket::empty();
    other.tickets_bought = 1;
    other.lottery_number = vec![1];
    other.user = addr(12);
    other.lottery = addr(3);
    let mut ctx = buy_ctx(lottery.clone(), empty_vault(&addr(1)), 11, other);
    assert_eq!(buy_ticket(&mut ctx, 1, 10, START), Err(ErrorCode::InvalidUserTicket));

    let mut ctx = buy_ctx(lottery.clone(), empty_vault(&addr(1)), 11, UserTicket::empty());
    ctx.signer_lamports = 9;
    assert_eq!(buy_ticket(&mut ctx, 1, 10, START), Err(ErrorCode::InsufficientFunds));

    let mut full = lottery.clone();
    full.total_tickets = u32::MAX;
    let mut ctx = buy_ctx(full, empty_vault(&addr(1)), 11, UserTicket::empty());
    assert_eq!(buy_ticket(&mut ctx, 1, 10, START), Err(ErrorCode::ArithmeticOverflow));
    assert_eq!(ctx.lottery.total_tickets, u32::MAX);
}

#[test]
fn declare_twice_fails_and_keeps_winner() {
    let (lottery, vault, _) = sell(100, &[11, 12]);
    let mut d = declare_ctx(lottery, vault, 20);
    assert_eq!(declare_winner(&mut d, 1, START + WEEK, &[5u8; 32]), Ok(()));
    let w = d.lottery.winner;
    let pot = d.lottery.lottery_pot_amount;
    assert_eq!(declare_winner(&mut d, 1, START + WEEK + 5, &[6u8; 32]), Err(ErrorCode::AlreadyDeclared));
    assert_eq!(d.lottery.winner, w);
    assert_eq!(d.lottery.lottery_pot_amount, pot);
}

#[test]
fn declare_picks_in_range_and_repeats() {
    let (lottery, vault, _) = sell(100, &[11, 12, 13, 14, 15]);
    let mut a = declare_ctx(lottery.clone(), vault.clone(), 20);
    let mut b = declare_ctx(lottery.clone(), vault.clone(), 20);
    assert_eq!(declare_winner(&mut a, 1, START + WEEK, &[5u8; 32]), Ok(()));
    assert_eq!(declare_winner(&mut b, 1, START + WEEK, &[5u8; 32]), Ok(()));
    let w = a.lottery.winner.unwrap();
    assert!((1..=5).contains(&w));
    assert_eq!(b.lottery.winner, Some(w));
    for k in 0..20u8 {
        let mut c = declare_ctx(lottery.clone(), vault.clone(), 20);
        assert_eq!(declare_winner(&mut c, 1, START + WEEK + k as u64, &[k; 32]), Ok(()));
        assert!((1..=5).contains(&c.lottery.winner.unwrap()));
    }
}

#[test]
fn declare_winner_exact_digest() {
    // The caller's address is [4; 32]; the digest's first eight bytes read
    // 6715585838686383266, which is 1 modulo 5.
    let (lottery, vault, _) = sell(100, &[11, 12, 13, 14, 15]);
    let mut d = declare_ctx(lottery, vault, 4);
    assert_eq!(declare_winner(&mut d, 1, START + WEEK, &[5u8; 32]), Ok(()));
    assert_eq!(d.lottery.winner, Some(2));
}

#[test]
fn declare_fee_is_truncated_tenth() {
    let (lottery, vault, _) = sell(99, &[11]);
    let mut d = declare_ctx(lottery, vault, 20);
    assert_eq!(declare_winner(&mut d, 1, START + WEEK, &[1u8; 32]), Ok(()));
    assert_eq!(d.lottery.lottery_pot_amount, 90);
    assert_eq!(d.vault.amount, 90);
    assert_eq!(d.fee_vault.amount, 9);
}

#[test]
fn declare_by_authority_keeps_fee_in_vault() {
    let (lottery, vault, _) = sell(100, &[11, 12]);
    let mut d = declare_ctx(lottery, vault, 1);
    assert_eq!(declare_winner(&mut d, 1, START + WEEK, &[1u8; 32]), Ok(()));
    assert_eq!(d.lottery.lottery_pot_amount, 180);
    assert_eq!(d.vault.amount, 200);
}

#[test]
fn declare_errors() {
    let (lottery, vault, _) = sell(100, &[11]);
    let mut d = declare_ctx(lottery.clone(), vault.clone(), 20);
    assert_eq!(declare_winner(&mut d, 1, START + WEEK - 1, &[1u8; 32]), Err(ErrorCode::UnexpiredLotterySession));
    assert_eq!(declare_winner(&mut d, 2, START + WEEK, &[1u8; 32]), Err(ErrorCode::UnmatchedLotteryId));
    d.fee_vault_address = addr(77);
    assert_eq!(declare_winner(&mut d, 1, START + WEEK, &[1u8; 32]), Err(ErrorCode::InvalidVaultPda));

    let mut d = declare_ctx(lottery.clone(), LotteryVault { amount: 5, ..vault.clone() }, 20);
    assert_eq!(declare_winner(&mut d, 1, START + WEEK, &[1u8; 32]), Err(ErrorCode::InsufficientVaultBalance));
    assert!(!d.lottery.winner_chosen);

    let mut d = declare_ctx(created(100), empty_vault(&addr(1)), 20);
    assert_eq!(declare_winner(&mut d, 1, START + WEEK, &[1u8; 32]), Err(ErrorCode::NoTicketsSold));
}

#[test]
fn claim_errors() {
    let (lottery, vault, tickets) = sell(100, &[11, 12]);
    let mut c = claim_ctx(lottery.clone(), vault.clone(), 11, tickets[0].clone());
    assert_eq!(claim_prize(&mut c, 1), Err(ErrorCode::WinnerNotYetDeclared));
    assert_eq!(claim_prize(&mut c, 2), Err(ErrorCode::LotteryIdMismatch));

    let mut d = declare_ctx(lottery, vault, 20);
    assert_eq!(declare_winner(&mut d, 1, START + WEEK, &[5u8; 32]), Ok(()));
    let w = d.lottery.winner.unwrap() as usize;
    let loser = 2 - w;
    let mut c = claim_ctx(d.lottery.clone(), d.vault.clone(), 11 + loser as u8, tickets[loser].clone());
    assert_eq!(claim_prize(&mut c, 1), Err(ErrorCode::NotAWinningTicket));

    let mut c = claim_ctx(d.lottery.clone(), d.vault.clone(), 11 + loser as u8, tickets[w - 1].clone());
    assert_eq!(claim_prize(&mut c, 1), Err(ErrorCode::InvalidUserTicket));

    let mut c = claim_ctx(d.lottery.clone(), d.vault.clone(), 10 + w as u8, tickets[w - 1].clone());
    c.vault_address = addr(77);
    assert_eq!(claim_prize(&mut c, 1), Err(ErrorCode::InvalidVaultPda));

    let poor = LotteryVault { amount: 1, ..d.vault.clone() };
    let mut c = claim_ctx(d.lottery.clone(), poor, 10 + w as u8, tickets[w - 1].clone());
    assert_eq!(claim_prize(&mut c, 1), Err(ErrorCode::InsufficientVaultBalance));

    let mut c = claim_ctx(d.lottery.clone(), d.vault.clone(), 10 + w as u8, tickets[w - 1].clone());
    c.signer_lamports = u64::MAX;
    assert_eq!(claim_prize(&mut c, 1), Err(ErrorCode::ArithmeticOverflow));
    assert!(!c.lottery.claimed);
}

#[test]
fn vault_initialisation() {
    let payer = addr(1);
    let mut ctx = InitializeLotteryVault {
        program_id: program(),
        payer,
        lottery_vault_address: vault_of(&payer),
        lottery_vault: LotteryVault { authority: addr(0), amount: 0, initialized: false },
    };
    assert_eq!(initialize_pda_lottery_vault(&mut ctx), Ok(()));
    assert!(ctx.lottery_vault.initialized);
    assert_eq!(ctx.lottery_vault.authority.bytes, [1u8; 32]);
    assert_eq!(initialize_pda_lottery_vault(&mut ctx), Err(ErrorCode::PdaAlreadyInitialized));

    let mut funded = InitializeLotteryVault {
        program_id: program(),
        payer,
        lottery_vault_address: vault_of(&payer),
        lottery_vault: LotteryVault { authority: addr(0), amount: 3, initialized: false },
    };
    assert_eq!(initialize_pda_lottery_vault(&mut funded), Err(ErrorCode::PdaAlreadyInitialized));

    let mut wrong = InitializeLotteryVault {
        program_id: program(),
        payer,
        lottery_vault_address: vault_of(&addr(2)),
        lottery_vault: LotteryVault { authority: addr(0), amount: 0, initialized: false },
    };
    assert_eq!(initialize_pda_lottery_vault(&mut wrong), Err(ErrorCode::InvalidVaultPda));
    assert!(!wrong.lottery_vault.initialized);
}

#[test]
fn derived_addresses_are_distinct_and_stable() {
    let a = derive_vault(&addr(1), &program()).unwrap();
    let b = derive_vault(&addr(1), &program()).unwrap();
    let c = derive_vault(&addr(2), &program()).unwrap();
    let t = derive_ticket(&addr(3), &addr(1), &program()).unwrap();
    assert_eq!(a.0.bytes, b.0.bytes);
    assert_eq!(a.1, b.1);
    assert_ne!(a.0.bytes, c.0.bytes);
    assert_ne!(a.0.bytes, [1u8; 32]);
    assert_ne!(a.0.bytes, t.0.bytes);
}
