//! Properties of the lottery life cycle, stated over the handlers' contracts.
use vstd::prelude::*;
use crate::lottery::{
    buy_post, claim_post, create_post, declare_post, BuyTicket, ClaimPrize, DeclareWinner,
    InitializeLottery,
};
use crate::randomness::{digest_of, entropy};
use crate::state::{ErrorCode, SALES_WINDOW};

verus! {

/// A freshly created lottery has sold no tickets, holds an empty pot and has
/// no winner; creation succeeds for every positive price while the counter
/// and the end of the window fit.
pub proof fn lemma_create_fresh(
    old: InitializeLottery,
    new: InitializeLottery,
    r: Result<u64, ErrorCode>,
    ticket_price: u32,
    now: u64,
)
    requires
        create_post(old, new, r, ticket_price, now),
    ensures
        (ticket_price > 0 && old.counter.total_lottery < u64::MAX && now as int + SALES_WINDOW as int
            <= u64::MAX) ==> r is Ok,
        r is Ok ==> {
            &&& new.lottery.total_tickets == 0
            &&& new.lottery.lottery_pot_amount == 0
            &&& !new.lottery.winner_chosen
            &&& new.lottery.winner is None
        },
{
}

/// The issued ticket number of each purchase in a run of purchases.
pub open spec fn issued(post: Seq<BuyTicket>) -> Seq<u64> {
    post.map_values(|t: BuyTicket| t.ticket.lottery_number@.last())
}

/// A run of successful purchases on one lottery that starts fresh: the state
/// of the lottery after each purchase is the state before the next.
pub open spec fn sales_run(
    pre: Seq<BuyTicket>,
    post: Seq<BuyTicket>,
    lottery_id: u64,
    ticket_price: u32,
    nows: Seq<u64>,
    vault_ds: Seq<Option<(Seq<u8>, u8)>>,
    ticket_ds: Seq<Option<(Seq<u8>, u8)>>,
) -> bool {
    &&& pre.len() == post.len()
    &&& nows.len() == pre.len()
    &&& vault_ds.len() == pre.len()
    &&& ticket_ds.len() == pre.len()
    &&& pre.len() > 0 ==> pre[0].lottery.total_tickets == 0 && pre[0].lottery.lottery_pot_amount == 0
    &&& forall|i: int|
        0 <= i < pre.len() ==> buy_post(
            #[trigger] pre[i],
            post[i],
            Ok(()),
            lottery_id,
            ticket_price,
            nows[i],
            vault_ds[i],
            ticket_ds[i],
        )
    &&& forall|i: int| 0 < i < pre.len() ==> (#[trigger] pre[i]).lottery == post[i - 1].lottery
}

proof fn lemma_sales_prefix(
    pre: Seq<BuyTicket>,
    post: Seq<BuyTicket>,
    lottery_id: u64,
    ticket_price: u32,
    nows: Seq<u64>,
    vault_ds: Seq<Option<(Seq<u8>, u8)>>,
    ticket_ds: Seq<Option<(Seq<u8>, u8)>>,
    k: int,
)
    requires
        sales_run(pre, post, lottery_id, ticket_price, nows, vault_ds, ticket_ds),
        0 <= k < pre.len(),
    ensures
        post[k].lottery.total_tickets == k + 1,
        post[k].lottery.lottery_pot_amount == (k + 1) * ticket_price,
        post[k].ticket.lottery_number@.last() == k + 1,
    decreases k,
{
    assert(buy_post(pre[k], post[k], Ok(()), lottery_id, ticket_price, nows[k], vault_ds[k], ticket_ds[k]));
    if k > 0 {
        lemma_sales_prefix(pre, post, lottery_id, ticket_price, nows, vault_ds, ticket_ds, k - 1);
        assert(pre[k].lottery == post[k - 1].lottery);
    }
    assert((k + 1) * ticket_price == k * ticket_price + ticket_price) by (nonlinear_arith);
}

/// After `n` successful purchases on a fresh lottery, `n` tickets are sold,
/// the pot holds `n` times the price, and the issued ticket numbers are
/// exactly `1..=n`, each issued once.
pub proof fn lemma_sales_accumulate(
    pre: Seq<BuyTicket>,
    post: Seq<BuyTicket>,
    lottery_id: u64,
    ticket_price: u32,
    nows: Seq<u64>,
    vault_ds: Seq<Option<(Seq<u8>, u8)>>,
    ticket_ds: Seq<Option<(Seq<u8>, u8)>>,
)
    requires
        sales_run(pre, post, lottery_id, ticket_price, nows, vault_ds, ticket_ds),
        pre.len() > 0,
    ensures
        post.last().lottery.total_tickets == post.len(),
        post.last().lottery.lottery_pot_amount == post.len() * ticket_price,
        issued(post) == Seq::new(post.len(), |i: int| (i + 1) as u64),
        issued(post).no_duplicates(),
        issued(post).to_set() == Set::new(|t: u64| 1 <= t <= post.len()),
{
    let n = post.len();
    assert forall|i: int| 0 <= i < n implies #[trigger] issued(post)[i] == (i + 1) as u64 by {
        lemma_sales_prefix(pre, post, lottery_id, ticket_price, nows, vault_ds, ticket_ds, i);
    }
    lemma_sales_prefix(pre, post, lottery_id, ticket_price, nows, vault_ds, ticket_ds, n - 1);
    assert(issued(post) =~= Seq::new(n, |i: int| (i + 1) as u64));
    assert forall|t: u64| #[trigger] issued(post).to_set().contains(t) <==> 1 <= t <= n by {
        if 1 <= t <= n {
            assert(issued(post)[t - 1] == t);
        }
    }
    assert(issued(post).to_set() =~= Set::new(|t: u64| 1 <= t <= n));
}

/// A purchase once the window has closed fails and changes neither the
/// ticket count nor the pot; with the right id and price the error is the
/// expired session.
pub proof fn lemma_buy_after_window(
    old: BuyTicket,
    new: BuyTicket,
    r: Result<(), ErrorCode>,
    lottery_id: u64,
    ticket_price: u32,
    now: u64,
    vault_d: Option<(Seq<u8>, u8)>,
    ticket_d: Option<(Seq<u8>, u8)>,
)
    requires
        buy_post(old, new, r, lottery_id, ticket_price, now, vault_d, ticket_d),
        now >= old.lottery.end_time,
    ensures
        r is Err,
        new.lottery.total_tickets == old.lottery.total_tickets,
        new.lottery.lottery_pot_amount == old.lottery.lottery_pot_amount,
        (old.lottery.lottery_id == lottery_id && old.lottery.ticket_price == ticket_price) ==> r
            == Err::<(), ErrorCode>(ErrorCode::ExpiredLotterySession),
{
}

/// A second declaration on a declared lottery, at the same time or later,
/// fails as already declared and keeps the winner.
pub proof fn lemma_declare_once(
    c1: DeclareWinner,
    n1: DeclareWinner,
    r1: Result<(), ErrorCode>,
    c2: DeclareWinner,
    n2: DeclareWinner,
    r2: Result<(), ErrorCode>,
    lottery_id: u64,
    now1: u64,
    now2: u64,
    digest1: Seq<u8>,
    digest2: Seq<u8>,
    vault_d1: Option<(Seq<u8>, u8)>,
    fee_d1: Option<(Seq<u8>, u8)>,
    vault_d2: Option<(Seq<u8>, u8)>,
    fee_d2: Option<(Seq<u8>, u8)>,
)
    requires
        declare_post(c1, n1, r1, lottery_id, now1, digest1, vault_d1, fee_d1),
        r1 is Ok,
        c2.lottery == n1.lottery,
        now2 >= now1,
        declare_post(c2, n2, r2, lottery_id, now2, digest2, vault_d2, fee_d2),
    ensures
        r2 == Err::<(), ErrorCode>(ErrorCode::AlreadyDeclared),
        n2.lottery.winner == n1.lottery.winner,
{
}

/// A declaration picks a ticket in `1..=total_tickets`, and the same
/// entropy sources on the same lottery pick the same ticket.
pub proof fn lemma_declare_winner_range(
    c1: DeclareWinner,
    n1: DeclareWinner,
    c2: DeclareWinner,
    n2: DeclareWinner,
    lottery_id: u64,
    now: u64,
    recent: Seq<u8>,
    vault_d1: Option<(Seq<u8>, u8)>,
    fee_d1: Option<(Seq<u8>, u8)>,
    vault_d2: Option<(Seq<u8>, u8)>,
    fee_d2: Option<(Seq<u8>, u8)>,
)
    requires
        declare_post(
            c1,
            n1,
            Ok(()),
            lottery_id,
            now,
            digest_of(entropy(now, recent, c1.signer@, c1.lottery.lottery_id)),
            vault_d1,
            fee_d1,
        ),
        declare_post(
            c2,
            n2,
            Ok(()),
            lottery_id,
            now,
            digest_of(entropy(now, recent, c2.signer@, c2.lottery.lottery_id)),
            vault_d2,
            fee_d2,
        ),
        c1.lottery == c2.lottery,
        c1.signer@ == c2.signer@,
    ensures
        n1.lottery.winner matches Some(w) && 1 <= w <= c1.lottery.total_tickets,
        n1.lottery.winner == n2.lottery.winner,
{
}

/// The declaration leaves the pot less the truncated ten percent fee.
pub proof fn lemma_declare_fee(
    old: DeclareWinner,
    new: DeclareWinner,
    lottery_id: u64,
    now: u64,
    digest: Seq<u8>,
    vault_d: Option<(Seq<u8>, u8)>,
    fee_d: Option<(Seq<u8>, u8)>,
)
    requires
        declare_post(old, new, Ok(()), lottery_id, now, digest, vault_d, fee_d),
    ensures
        new.lottery.lottery_pot_amount == old.lottery.lottery_pot_amount - old.lottery.lottery_pot_amount
            * 10 / 100,
{
}

/// A successful claim is made by the holder of the winning ticket and pays
/// the whole remaining pot from the vault to the caller; any later claim on
/// the same lottery fails as already claimed and changes nothing.
pub proof fn lemma_claim_once(
    c1: ClaimPrize,
    n1: ClaimPrize,
    c2: ClaimPrize,
    n2: ClaimPrize,
    r2: Result<(), ErrorCode>,
    lottery_id: u64,
    ticket_d1: Option<(Seq<u8>, u8)>,
    vault_d1: Option<(Seq<u8>, u8)>,
    ticket_d2: Option<(Seq<u8>, u8)>,
    vault_d2: Option<(Seq<u8>, u8)>,
)
    requires
        claim_post(c1, n1, Ok(()), lottery_id, ticket_d1, vault_d1),
        c2.lottery == n1.lottery,
        claim_post(c2, n2, r2, lottery_id, ticket_d2, vault_d2),
    ensures
        c1.ticket.user@ == c1.signer@,
        c1.lottery.winner matches Some(w) && c1.ticket.lottery_number@.contains(w),
        n1.signer_lamports == c1.signer_lamports + c1.lottery.lottery_pot_amount,
        n1.vault.amount == c1.vault.amount - c1.lottery.lottery_pot_amount,
        r2 == Err::<(), ErrorCode>(ErrorCode::AlreadyClaimed),
        n2 == c2,
{
}

} // verus!
