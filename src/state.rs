//! Persisted records of the lottery program and its errors.
use vstd::prelude::*;
use crate::address::Address;

verus! {

/// Length of the sales window of every lottery, in seconds (one week).
pub const SALES_WINDOW: u64 = 604800;

/// Percentage of the pot taken as protocol fee when the winner is declared.
pub const FEE_PERCENT: u64 = 10;

/// One lottery instance.
#[derive(Clone, Copy, Debug)]
pub struct Lottery {
    pub lottery_id: u64,
    pub start_time: u64,
    pub end_time: u64,
    pub total_tickets: u32,
    pub ticket_price: u32,
    pub lottery_pot_amount: u64,
    pub winner: Option<u64>,
    pub winner_chosen: bool,
    pub claimed: bool,
    pub authority: Address,
}

/// A custody account holding pooled funds of one authority.
#[derive(Clone, Copy, Debug)]
pub struct LotteryVault {
    pub authority: Address,
    pub amount: u64,
    pub initialized: bool,
}

/// The tickets that one buyer holds in one lottery.
#[derive(Clone, Debug)]
pub struct UserTicket {
    pub bump: u8,
    pub lottery: Address,
    pub user: Address,
    pub lottery_number: Vec<u64>,
    pub tickets_bought: u32,
}

/// The global sequence of lottery identifiers.
#[derive(Clone, Copy, Debug)]
pub struct LotteryCounter {
    pub total_lottery: u64,
}

#[derive(Clone, Copy, Debug, PartialEq, Eq, Structural)]
pub enum ErrorCode {
    PdaAlreadyInitialized,
    InvalidLotteryId,
    UnmatchedLotteryId,
    UnmatchedTicketPrice,
    ExpiredLotterySession,
    InvalidUserTicket,
    InsufficientVaultBalance,
    UnexpiredLotterySession,
    NoTicketsSold,
    AlreadyDeclared,
    InvalidVaultPda,
    LotteryIdMismatch,
    NotAWinningTicket,
    AlreadyClaimed,
    WinnerNotYetDeclared,
    InvalidTicketPrice,
    InsufficientFunds,
    ArithmeticOverflow,
}

impl Lottery {
    /// The record's invariant: a fixed window, a winner in range once chosen,
    /// and no claim before a winner.
    pub open spec fn wf(&self) -> bool {
        &&& self.end_time as int == self.start_time as int + SALES_WINDOW as int
        &&& (self.winner_chosen <==> self.winner is Some)
        &&& (self.winner matches Some(w) ==> 1 <= w <= self.total_tickets)
        &&& (self.claimed ==> self.winner_chosen)
    }
}

impl UserTicket {
    /// The record's invariant: the count equals the number of tickets held.
    pub open spec fn wf(&self) -> bool {
        self.tickets_bought as int == self.lottery_number@.len()
    }

    /// An empty record, before the first purchase.
    pub fn empty() -> (r: UserTicket)
        ensures
            r.wf(),
            r.tickets_bought == 0,
            r.lottery_number@ == Seq::<u64>::empty(),
    {
        UserTicket {
            bump: 0,
            lottery: Address::new([0u8; 32]),
            user: Address::new([0u8; 32]),
            lottery_number: Vec::new(),
            tickets_bought: 0,
        }
    }

    /// Does this record hold ticket `number`?
    pub fn holds(&self, number: u64) -> (r: bool)
        ensures
            r == self.lottery_number@.contains(number),
    {
        let mut i: usize = 0;
        while i < self.lottery_number.len()
            invariant
                0 <= i <= self.lottery_number@.len(),
                forall|j: int| 0 <= j < i ==> self.lottery_number@[j] != number,
            decreases self.lottery_number@.len() - i,
        {
            if self.lottery_number[i] == number {
                return true;
            }
            i = i + 1;
        }
        false
    }
}

} // verus!
