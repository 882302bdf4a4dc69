use vstd::prelude::*;

use crate::errors::RenewraError;
use crate::events::{
    DistributeYieldEvent, NavUpdateEvent, PauseEvent, RedeemRequestEvent, SubscribeEvent,
};
use crate::fund_state::{lemma_sum_amounts_push, sum_amounts, FundState};
use crate::governance::Governance;
use crate::identity::Identity;
use crate::nav_oracle::NavOracle;
use crate::pricing::{shares_for_deposit, shares_for_deposit_spec};
use crate::redemption_queue::{RedemptionQueue, RedemptionRequest, RedemptionStatus, MAX_REQUESTS};
use crate::yield_distributor::{per_share_yield, per_share_yield_of};

verus! {

/// The parameter bundle accepted at fund genesis.
#[derive(Clone, Copy, Debug, PartialEq, Eq, Structural)]
pub struct InitializeFundParams {
    pub oracle_signer: Identity,
    pub management_fee_bps: u16,
    pub mint_fee_bps: u16,
    pub redemption_fee_bps: u16,
    /// Initial NAV per share in cents; must be positive.
    pub initial_nav: u64,
}

/// One fund instance: governance parameters, the NAV oracle, the redemption
/// queue and the running totals, with the four public operations over them.
/// Each operation either completes, returning the event it announces, or
/// fails before any of its state changes take effect.
pub struct Fund {
    pub governance: Governance,
    pub nav_oracle: NavOracle,
    pub redemption_queue: RedemptionQueue,
    pub fund_state: FundState,
    /// Ghost record of the deposit amount of every successful subscription,
    /// in order; the amounts the subscription events announced.
    pub deposit_log: Ghost<Seq<u64>>,
    /// Ghost record of the amount of every successful yield distribution,
    /// in order; the amounts the distribution events announced.
    pub yield_log: Ghost<Seq<u64>>,
}

impl Fund {
    /// Every component invariant holds, and the denormalized totals are
    /// exactly the sums of the amounts announced by the underlying
    /// subscription and distribution events, so they are rebuildable from
    /// those events.
    pub open spec fn wf(self) -> bool {
        &&& self.governance.wf()
        &&& self.nav_oracle.wf()
        &&& self.redemption_queue.wf()
        &&& self.fund_state.total_deposits == sum_amounts(self.deposit_log@)
        &&& self.fund_state.total_yield_distributed == sum_amounts(self.yield_log@)
    }

    /// `b` is observably the same fund state as `a`: a failed operation
    /// leaves the fund in this relation to its pre-state.
    pub open spec fn same_state(a: Fund, b: Fund) -> bool {
        &&& b.governance == a.governance
        &&& b.nav_oracle == a.nav_oracle
        &&& b.redemption_queue.requests@ == a.redemption_queue.requests@
        &&& b.fund_state == a.fund_state
        &&& b.deposit_log@ == a.deposit_log@
        &&& b.yield_log@ == a.yield_log@
    }

    /// Fund genesis: sets up governance under `admin_key`, seeds the oracle
    /// with the initial NAV (latest and previous alike), and starts with an
    /// empty redemption queue and zeroed totals, as one atomic unit.
    pub fn initialize_fund(params: InitializeFundParams, admin_key: Identity, now: i64) -> (f:
        Fund)
        requires
            params.management_fee_bps <= 10000,
            params.mint_fee_bps <= 10000,
            params.redemption_fee_bps <= 10000,
            params.initial_nav > 0,
        ensures
            f.wf(),
            f.governance == (Governance {
                admin_key,
                oracle_signer: params.oracle_signer,
                management_fee_bps: params.management_fee_bps,
                mint_fee_bps: params.mint_fee_bps,
                redemption_fee_bps: params.redemption_fee_bps,
                paused: false,
            }),
            f.nav_oracle == (NavOracle {
                latest_nav: params.initial_nav,
                previous_nav: params.initial_nav,
                timestamp: now,
            }),
            f.redemption_queue.requests@.len() == 0,
            f.fund_state == (FundState { total_deposits: 0, total_yield_distributed: 0 }),
            f.deposit_log@ == Seq::<u64>::empty(),
            f.yield_log@ == Seq::<u64>::empty(),
    {
        Fund {
            governance: Governance {
                admin_key,
                oracle_signer: params.oracle_signer,
                management_fee_bps: params.management_fee_bps,
                mint_fee_bps: params.mint_fee_bps,
                redemption_fee_bps: params.redemption_fee_bps,
                paused: false,
            },
            nav_oracle: NavOracle {
                latest_nav: params.initial_nav,
                previous_nav: params.initial_nav,
                timestamp: now,
            },
            redemption_queue: RedemptionQueue::new(),
            fund_state: FundState { total_deposits: 0, total_yield_distributed: 0 },
            deposit_log: Ghost(Seq::empty()),
            yield_log: Ghost(Seq::empty()),
        }
    }

    /// Records a new NAV submitted by the oracle: the old value moves to
    /// `previous_nav`, the new one becomes `latest_nav`, and the update time
    /// is recorded. Only the oracle identity may call, the price must be
    /// positive, and pausing the fund does not gate this operation.
    pub fn submit_nav(&mut self, new_nav: u64, caller: Identity, now: i64) -> (r: Result<
        NavUpdateEvent,
        RenewraError,
    >)
        requires
            old(self).wf(),
        ensures
            final(self).wf(),
            r is Err ==> Fund::same_state(*old(self), *final(self)),
            caller != old(self).governance.oracle_signer ==> r == Err::<
                NavUpdateEvent,
                RenewraError,
            >(RenewraError::Unauthorized),
            caller == old(self).governance.oracle_signer && new_nav == 0 ==> r == Err::<
                NavUpdateEvent,
                RenewraError,
            >(RenewraError::InvalidNavPrice),
            caller == old(self).governance.oracle_signer && new_nav > 0 ==> {
                &&& r == Ok::<NavUpdateEvent, RenewraError>(NavUpdateEvent {
                    old_nav: old(self).nav_oracle.latest_nav,
                    new_nav,
                    timestamp: now,
                    oracle_signer: caller,
                })
                &&& final(self).nav_oracle == (NavOracle {
                    latest_nav: new_nav,
                    previous_nav: old(self).nav_oracle.latest_nav,
                    timestamp: now,
                })
                &&& final(self).governance == old(self).governance
                &&& final(self).redemption_queue.requests@ == old(
                    self,
                ).redemption_queue.requests@
                &&& final(self).fund_state == old(self).fund_state
                &&& final(self).deposit_log@ == old(self).deposit_log@
                &&& final(self).yield_log@ == old(self).yield_log@
            },
    {
        if caller != self.governance.oracle_signer {
            return Err(RenewraError::Unauthorized);
        }
        if new_nav == 0 {
            return Err(RenewraError::InvalidNavPrice);
        }
        let old_nav = self.nav_oracle.latest_nav;
        self.nav_oracle.previous_nav = old_nav;
        self.nav_oracle.latest_nav = new_nav;
        self.nav_oracle.timestamp = now;
        Ok(NavUpdateEvent { old_nav, new_nav, timestamp: now, oracle_signer: caller })
    }

    /// Mints shares against a deposit: takes the mint fee out, prices the
    /// net amount at the latest NAV, and records the deposit in the running
    /// total. The host ledger must, as one atomic unit with this call, move
    /// the full deposit from the caller to the treasury (the fee stays in
    /// the treasury) and mint the returned share amount to the caller.
    pub fn subscribe(&mut self, usdc_amount: u64, caller: Identity, now: i64) -> (r: Result<
        SubscribeEvent,
        RenewraError,
    >)
        requires
            old(self).wf(),
        ensures
            final(self).wf(),
            r is Err ==> Fund::same_state(*old(self), *final(self)),
            ({
                let s = shares_for_deposit_spec(
                    usdc_amount as int,
                    old(self).governance.mint_fee_bps as int,
                    old(self).nav_oracle.latest_nav as int,
                );
                let fits = old(self).fund_state.total_deposits + usdc_amount <= u64::MAX;
                &&& (old(self).governance.paused ==> r == Err::<SubscribeEvent, RenewraError>(
                    RenewraError::FundPaused,
                ))
                &&& (!old(self).governance.paused && usdc_amount == 0 ==> r == Err::<
                    SubscribeEvent,
                    RenewraError,
                >(RenewraError::InvalidAmount))
                &&& (!old(self).governance.paused && usdc_amount > 0 && s == 0 ==> r == Err::<
                    SubscribeEvent,
                    RenewraError,
                >(RenewraError::InvalidAmount))
                &&& (!old(self).governance.paused && usdc_amount > 0 && s > u64::MAX ==> r
                    == Err::<SubscribeEvent, RenewraError>(RenewraError::ArithmeticOverflow))
                &&& (!old(self).governance.paused && usdc_amount > 0 && 0 < s <= u64::MAX
                    && !fits ==> r == Err::<SubscribeEvent, RenewraError>(
                    RenewraError::ArithmeticOverflow,
                ))
                &&& (r is Ok <==> !old(self).governance.paused && usdc_amount > 0 && 0 < s
                    <= u64::MAX && fits)
                &&& (r matches Ok(ev) ==> {
                    &&& ev == (SubscribeEvent {
                        user: caller,
                        usdc_amount,
                        tokens_minted: s as u64,
                        nav_at_subscription: old(self).nav_oracle.latest_nav,
                        timestamp: now,
                    })
                    &&& final(self).fund_state == (FundState {
                        total_deposits: (old(self).fund_state.total_deposits
                            + usdc_amount) as u64,
                        total_yield_distributed: old(self).fund_state.total_yield_distributed,
                    })
                    &&& final(self).governance == old(self).governance
                    &&& final(self).nav_oracle == old(self).nav_oracle
                    &&& final(self).redemption_queue.requests@ == old(
                        self,
                    ).redemption_queue.requests@
                    &&& final(self).deposit_log@ == old(self).deposit_log@.push(usdc_amount)
                    &&& final(self).yield_log@ == old(self).yield_log@
                })
            }),
    {
        if self.governance.paused {
            return Err(RenewraError::FundPaused);
        }
        if usdc_amount == 0 {
            return Err(RenewraError::InvalidAmount);
        }
        if self.nav_oracle.latest_nav == 0 {
            return Err(RenewraError::InvalidNavPrice);
        }
        let nav_cents = self.nav_oracle.latest_nav;
        let tokens_to_mint: u64 = match shares_for_deposit(
            usdc_amount,
            self.governance.mint_fee_bps,
            nav_cents,
        ) {
            Ok(shares) => shares,
            Err(e) => { return Err(e) },
        };
        let new_total: u64 = match self.fund_state.total_deposits.checked_add(usdc_amount) {
            Some(t) => t,
            None => { return Err(RenewraError::ArithmeticOverflow) },
        };
        proof {
            lemma_sum_amounts_push(self.deposit_log@, usdc_amount);
        }
        self.fund_state.total_deposits = new_total;
        self.deposit_log = Ghost(self.deposit_log@.push(usdc_amount));
        Ok(
            SubscribeEvent {
                user: caller,
                usdc_amount,
                tokens_minted: tokens_to_mint,
                nav_at_subscription: nav_cents,
                timestamp: now,
            },
        )
    }

    /// Enqueues a redemption request for later settlement. The caller's
    /// share balance is supplied by the host ledger; this engine holds no
    /// balances and does not escrow the shares — the settler must check the
    /// balance again at settlement time. The returned event carries the
    /// request's 1-indexed id.
    pub fn request_redeem(
        &mut self,
        token_amount: u64,
        caller: Identity,
        caller_share_balance: u64,
        now: i64,
    ) -> (r: Result<RedeemRequestEvent, RenewraError>)
        requires
            old(self).wf(),
        ensures
            final(self).wf(),
            r is Err ==> Fund::same_state(*old(self), *final(self)),
            ({
                let qlen = old(self).redemption_queue.requests@.len();
                &&& (old(self).governance.paused ==> r == Err::<
                    RedeemRequestEvent,
                    RenewraError,
                >(RenewraError::FundPaused))
                &&& (!old(self).governance.paused && token_amount == 0 ==> r == Err::<
                    RedeemRequestEvent,
                    RenewraError,
                >(RenewraError::InvalidAmount))
                &&& (!old(self).governance.paused && token_amount > 0 && caller_share_balance
                    < token_amount ==> r == Err::<RedeemRequestEvent, RenewraError>(
                    RenewraError::InsufficientTokens,
                ))
                &&& (!old(self).governance.paused && token_amount > 0 && caller_share_balance
                    >= token_amount && qlen >= MAX_REQUESTS ==> r == Err::<
                    RedeemRequestEvent,
                    RenewraError,
                >(RenewraError::RedemptionQueueFull))
                &&& (r is Ok <==> !old(self).governance.paused && token_amount > 0
                    && caller_share_balance >= token_amount && qlen < MAX_REQUESTS)
                &&& (r matches Ok(ev) ==> {
                    &&& ev == (RedeemRequestEvent {
                        requester: caller,
                        token_amount,
                        nav_at_request: old(self).nav_oracle.latest_nav,
                        requested_at: now,
                        request_id: (qlen + 1) as u64,
                    })
                    &&& final(self).redemption_queue.requests@ == old(
                        self,
                    ).redemption_queue.requests@.push(
                        (RedemptionRequest {
                            requester: caller,
                            token_amount,
                            requested_at: now,
                            status: RedemptionStatus::Pending,
                            request_id: (qlen + 1) as u64,
                        }),
                    )
                    &&& final(self).governance == old(self).governance
                    &&& final(self).nav_oracle == old(self).nav_oracle
                    &&& final(self).fund_state == old(self).fund_state
                    &&& final(self).deposit_log@ == old(self).deposit_log@
                    &&& final(self).yield_log@ == old(self).yield_log@
                })
            }),
    {
        if self.governance.paused {
            return Err(RenewraError::FundPaused);
        }
        if token_amount == 0 {
            return Err(RenewraError::InvalidAmount);
        }
        if caller_share_balance < token_amount {
            return Err(RenewraError::InsufficientTokens);
        }
        let request_id: u64 = match self.redemption_queue.enqueue(caller, token_amount, now) {
            Ok(id) => id,
            Err(e) => { return Err(e) },
        };
        Ok(
            RedeemRequestEvent {
                requester: caller,
                token_amount,
                nav_at_request: self.nav_oracle.latest_nav,
                requested_at: now,
                request_id,
            },
        )
    }

    /// Computes and announces the per-share yield rate for a distribution.
    /// Admin only. No value moves: the host reads the announced rate and the
    /// holder list and disburses externally. The treasury balance and share
    /// supply are supplied by the host ledger; the balance check is a safety
    /// check even though no transfer happens here.
    pub fn distribute_yield(
        &mut self,
        yield_amount: u64,
        total_share_supply: u64,
        treasury_balance: u64,
        caller: Identity,
        now: i64,
    ) -> (r: Result<DistributeYieldEvent, RenewraError>)
        requires
            old(self).wf(),
        ensures
            final(self).wf(),
            r is Err ==> Fund::same_state(*old(self), *final(self)),
            ({
                let admin = old(self).governance.admin_key;
                let fits = old(self).fund_state.total_yield_distributed + yield_amount
                    <= u64::MAX;
                &&& (caller != admin ==> r == Err::<DistributeYieldEvent, RenewraError>(
                    RenewraError::Unauthorized,
                ))
                &&& (caller == admin && yield_amount == 0 ==> r == Err::<
                    DistributeYieldEvent,
                    RenewraError,
                >(RenewraError::InvalidAmount))
                &&& (caller == admin && yield_amount > 0 && total_share_supply == 0 ==> r
                    == Err::<DistributeYieldEvent, RenewraError>(RenewraError::InvalidAmount))
                &&& (caller == admin && yield_amount > 0 && total_share_supply > 0
                    && treasury_balance < yield_amount ==> r == Err::<
                    DistributeYieldEvent,
                    RenewraError,
                >(RenewraError::InsufficientTokens))
                &&& (caller == admin && yield_amount > 0 && total_share_supply > 0
                    && treasury_balance >= yield_amount && !fits ==> r == Err::<
                    DistributeYieldEvent,
                    RenewraError,
                >(RenewraError::ArithmeticOverflow))
                &&& (r is Ok <==> caller == admin && yield_amount > 0 && total_share_supply > 0
                    && treasury_balance >= yield_amount && fits)
                &&& (r matches Ok(ev) ==> {
                    &&& ev == (DistributeYieldEvent {
                        yield_amount,
                        total_token_supply: total_share_supply,
                        per_token_yield: per_share_yield_of(
                            yield_amount as int,
                            total_share_supply as int,
                        ) as u128,
                        timestamp: now,
                    })
                    &&& final(self).fund_state == (FundState {
                        total_deposits: old(self).fund_state.total_deposits,
                        total_yield_distributed: (old(self).fund_state.total_yield_distributed
                            + yield_amount) as u64,
                    })
                    &&& final(self).governance == old(self).governance
                    &&& final(self).nav_oracle == old(self).nav_oracle
                    &&& final(self).redemption_queue.requests@ == old(
                        self,
                    ).redemption_queue.requests@
                    &&& final(self).deposit_log@ == old(self).deposit_log@
                    &&& final(self).yield_log@ == old(self).yield_log@.push(yield_amount)
                })
            }),
    {
        if caller != self.governance.admin_key {
            return Err(RenewraError::Unauthorized);
        }
        if yield_amount == 0 {
            return Err(RenewraError::InvalidAmount);
        }
        if total_share_supply == 0 {
            return Err(RenewraError::InvalidAmount);
        }
        if treasury_balance < yield_amount {
            return Err(RenewraError::InsufficientTokens);
        }
        let new_total: u64 = match self.fund_state.total_yield_distributed.checked_add(
            yield_amount,
        ) {
            Some(t) => t,
            None => { return Err(RenewraError::ArithmeticOverflow) },
        };
        let per_token_yield: u128 = per_share_yield(yield_amount, total_share_supply);
        proof {
            lemma_sum_amounts_push(self.yield_log@, yield_amount);
        }
        self.fund_state.total_yield_distributed = new_total;
        self.yield_log = Ghost(self.yield_log@.push(yield_amount));
        Ok(
            DistributeYieldEvent {
                yield_amount,
                total_token_supply: total_share_supply,
                per_token_yield,
                timestamp: now,
            },
        )
    }

    /// Pauses or resumes the fund. Admin only. While paused, subscriptions
    /// and redemption requests are rejected; oracle NAV updates still go
    /// through.
    pub fn set_paused(&mut self, paused: bool, caller: Identity, now: i64) -> (r: Result<
        PauseEvent,
        RenewraError,
    >)
        requires
            old(self).wf(),
        ensures
            final(self).wf(),
            r is Err ==> Fund::same_state(*old(self), *final(self)),
            caller != old(self).governance.admin_key ==> r == Err::<PauseEvent, RenewraError>(
                RenewraError::Unauthorized,
            ),
            caller == old(self).governance.admin_key ==> {
                &&& r == Ok::<PauseEvent, RenewraError>(PauseEvent {
                    paused,
                    triggered_by: caller,
                    timestamp: now,
                })
                &&& final(self).governance == (Governance {
                    paused,
                    ..old(self).governance
                })
                &&& final(self).nav_oracle == old(self).nav_oracle
                &&& final(self).redemption_queue.requests@ == old(
                    self,
                ).redemption_queue.requests@
                &&& final(self).fund_state == old(self).fund_state
                &&& final(self).deposit_log@ == old(self).deposit_log@
                &&& final(self).yield_log@ == old(self).yield_log@
            },
    {
        if caller != self.governance.admin_key {
            return Err(RenewraError::Unauthorized);
        }
        self.governance.paused = paused;
        Ok(PauseEvent { paused, triggered_by: caller, timestamp: now })
    }
}

} // verus!
