//! The token ledger state machine: deploy, mint, transfer request and send
//! settlement, each a function from the rows it reads to the rows it writes.

use crate::decimal::{lemma_frac_digits_bound, lemma_pow10_positive, pow10, scale_up, Decimal, UNIT_SCALE};
use crate::models::{
    Balances, HistoryInsert, Inscriptions, Tracker, TrackerInsert, MAX_DECIMALS,
};
use crate::util::bigdecimal_fractional_count;
use vstd::prelude::*;
use vstd::utf8::encode_utf8;

verus! {

/// Decimals a deploy declares; 18 when it declares none.
pub open spec fn deploy_decimals(inscription: Inscriptions) -> int {
    match inscription.decimal {
        Some(d) => d as int,
        None => 18,
    }
}

/// Fractional digits of the unit a ticker with this supply counts in: 18,
/// or more when the supply itself is finer.
pub open spec fn unit_scale_of(supply: Decimal) -> int {
    if supply.fraction_digits() > UNIT_SCALE {
        supply.fraction_digits() as int
    } else {
        UNIT_SCALE as int
    }
}

/// A supply is accepted when it is positive and at most `i64::MAX` tokens.
/// Both sides are counted in the ticker's unit, in which the supply is
/// exact.
pub open spec fn supply_acceptable(supply: Option<Decimal>) -> bool {
    &&& supply matches Some(s)
    &&& s.spec_is_positive()
    &&& s.units_at(unit_scale_of(s)) <= i64::MAX * pow10(unit_scale_of(s) as nat)
}

/// The unit scale of a ticker with this supply.
pub fn ledger_unit_scale(supply: &Decimal) -> (r: i64)
    ensures
        r == unit_scale_of(*supply),
{
    let f = bigdecimal_fractional_count(*supply);
    proof {
        lemma_frac_digits_bound(supply.digits as nat, supply.scale as int);
    }
    if f > UNIT_SCALE as u64 {
        f as i64
    } else {
        UNIT_SCALE
    }
}

pub open spec fn limit_or_zero(limit: Option<Decimal>) -> Decimal {
    match limit {
        Some(l) => l,
        None => Decimal { negative: false, digits: 0, scale: 0 },
    }
}

pub open spec fn deploy_acceptable(inscription: Inscriptions) -> bool {
    &&& 0 <= deploy_decimals(inscription) <= MAX_DECIMALS
    &&& encode_utf8(inscription.ticker@).len() == 4
    &&& supply_acceptable(inscription.supply)
    &&& !limit_or_zero(inscription.limit_mint).spec_is_negative()
}

/// An amount is accepted when present, positive, and no finer than the
/// ticker's decimals.
pub open spec fn amount_acceptable(amount: Option<Decimal>, decimals: i32) -> bool {
    &&& amount matches Some(a)
    &&& a.spec_is_positive()
    &&& a.fraction_digits() <= decimals
}

/// A limit of zero means no limit.
pub open spec fn within_limit(limit: Decimal, amount: Decimal) -> bool {
    limit.spec_is_zero() || amount.spec_le(limit)
}

/// Units a mint of `amount` units credits when `minted` of `supply` are out:
/// the amount, clipped to the remaining headroom.
pub open spec fn mint_credit(supply: int, minted: int, amount: int) -> int {
    if amount < supply - minted {
        amount
    } else {
        supply - minted
    }
}

pub open spec fn mint_applies(t: Tracker, inscription: Inscriptions) -> bool {
    &&& amount_acceptable(inscription.amount, t.decimals)
    &&& within_limit(t.limit_mint, inscription.amount->0)
    &&& t.supply_minted < t.supply
}

pub open spec fn mint_credit_of(t: Tracker, inscription: Inscriptions) -> int {
    mint_credit(
        t.supply as int,
        t.supply_minted as int,
        inscription.amount->0.units_at(t.unit_scale as int),
    )
}

/// The counters that a mint raises stay within their integer types.
pub open spec fn mint_fits(t: Tracker, balance: Option<&Balances>, credit: int) -> bool {
    match balance {
        Some(b) => b.balance + credit <= u128::MAX,
        None => t.holders < i64::MAX,
    }
}

/// One change to a balance row, seen as (spendable, earmarked).
pub enum RowEvent {
    /// Spendable funds arrive (a mint, or the receiving side of a send).
    Credit(nat),
    /// A transfer request earmarks spendable funds, if there are enough.
    Earmark(nat),
    /// A send releases earmarked funds, if there are enough.
    Release(nat),
}

pub open spec fn apply_row_event(row: (int, int), event: RowEvent) -> (int, int) {
    match event {
        RowEvent::Credit(a) => (row.0 + a, row.1),
        RowEvent::Earmark(a) => if a <= row.0 {
            (row.0 - a, row.1 + a)
        } else {
            row
        },
        RowEvent::Release(a) => if a <= row.1 {
            (row.0, row.1 - a)
        } else {
            row
        },
    }
}

pub open spec fn row_of(b: Balances) -> (int, int) {
    (b.balance as int, b.transfer_balance as int)
}

pub open spec fn row_after(row: (int, int), events: Seq<RowEvent>) -> (int, int)
    decreases events.len(),
{
    if events.len() == 0 {
        row
    } else {
        row_after(apply_row_event(row, events[0]), events.drop_first())
    }
}

/// Neither the spendable nor the earmarked amount of a balance row ever goes
/// below zero, whatever mix of mints, transfer requests and sends reaches it.
pub proof fn lemma_balances_stay_non_negative(row: (int, int), events: Seq<RowEvent>)
    requires
        row.0 >= 0,
        row.1 >= 0,
    ensures
        row_after(row, events).0 >= 0,
        row_after(row, events).1 >= 0,
    decreases events.len(),
{
    if events.len() > 0 {
        lemma_balances_stay_non_negative(apply_row_event(row, events[0]), events.drop_first());
    }
}

/// Minted supply after a run of mint requests of the given unit amounts; a
/// request applies only while supply remains.
pub open spec fn minted_after(supply: int, minted: int, amounts: Seq<int>) -> int
    decreases amounts.len(),
{
    if amounts.len() == 0 {
        minted
    } else if minted < supply && amounts[0] > 0 {
        minted_after(supply, minted + mint_credit(supply, minted, amounts[0]), amounts.drop_first())
    } else {
        minted_after(supply, minted, amounts.drop_first())
    }
}

/// The minted supply of a ticker never exceeds its supply, whatever amounts
/// are minted and in whatever order, and it never decreases.
pub proof fn lemma_minted_never_exceeds_supply(supply: int, minted: int, amounts: Seq<int>)
    requires
        0 <= minted <= supply,
    ensures
        minted <= minted_after(supply, minted, amounts) <= supply,
    decreases amounts.len(),
{
    if amounts.len() > 0 {
        if minted < supply && amounts[0] > 0 {
            lemma_minted_never_exceeds_supply(
                supply,
                minted + mint_credit(supply, minted, amounts[0]),
                amounts.drop_first(),
            );
        } else {
            lemma_minted_never_exceeds_supply(supply, minted, amounts.drop_first());
        }
    }
}

/// The tracker an accepted deploy creates.
pub open spec fn deploy_result(inscription: Inscriptions, t: TrackerInsert) -> bool {
    &&& t.ticker == inscription.ticker
    &&& t.deploy_inscription == inscription.inscription_id
    &&& t.deploy_inscription_num == inscription.inscription_num
    &&& t.unit_scale == unit_scale_of(inscription.supply->0)
    &&& t.supply == inscription.supply->0.units_at(t.unit_scale as int)
    &&& t.limit_mint == limit_or_zero(inscription.limit_mint)
    &&& t.decimals == deploy_decimals(inscription)
}

/// The tracker a deploy creates: `None` when a tracker already exists for
/// the ticker or the deploy fails validation (decimals within 0..=18, a
/// ticker of exactly four bytes, a positive supply of at most `i64::MAX`
/// tokens, a limit that is not negative).
pub fn deploy(existing: Option<&Tracker>, inscription: &Inscriptions) -> (r: Option<TrackerInsert>)
    ensures
        r is Some <==> existing is None && deploy_acceptable(*inscription),
        r matches Some(t) ==> deploy_result(*inscription, t),
{
    if existing.is_some() {
        return None;
    }
    let decimal: i32 = match inscription.decimal {
        Some(d) => d,
        None => 18,
    };
    if decimal < 0 || decimal > MAX_DECIMALS {
        return None;
    }
    if inscription.ticker.as_str().as_bytes().len() != 4 {
        return None;
    }
    let supply: Decimal = match &inscription.supply {
        Some(s) => *s,
        None => {
            return None;
        },
    };
    if !supply.is_positive() {
        return None;
    }
    let scale = ledger_unit_scale(&supply);
    proof {
        let f = supply.fraction_digits() as int;
        let d = supply.digits as int;
        lemma_frac_digits_bound(supply.digits as nat, supply.scale as int);
        if scale > UNIT_SCALE {
            // The unit is the supply's own finest digit: counting in it only
            // drops trailing zeros, so the count fits in the digits' width.
            assert(f <= supply.scale);
            let p = pow10((supply.scale - f) as nat) as int;
            lemma_pow10_positive((supply.scale - f) as nat);
            if f == supply.scale {
                assert(pow10(0) == 1);
                assert(d * 1 == d);
            } else {
                assert(d / p <= d) by (nonlinear_arith)
                    requires
                        d >= 0,
                        p >= 1,
                ;
            }
            assert(supply.units_at(scale as int) <= u128::MAX);
        } else {
            reveal_with_fuel(pow10, 19);
            assert(pow10(18) == 1_000_000_000_000_000_000);
        }
    }
    let units: u128 = match supply.to_units_at(scale) {
        Some(u) => u,
        None => {
            return None;
        },
    };
    let within_cap = match scale_up(i64::MAX as u128, scale as u128) {
        Some(cap) => units <= cap,
        None => true,
    };
    if !within_cap {
        return None;
    }
    let limit: Decimal = match &inscription.limit_mint {
        Some(l) => *l,
        None => Decimal::zero(),
    };
    if limit.is_negative() {
        return None;
    }
    Some(
        TrackerInsert {
            deploy_inscription_num: inscription.inscription_num,
            deploy_inscription: inscription.inscription_id.clone(),
            ticker: inscription.ticker.clone(),
            unit_scale: scale,
            supply: units,
            limit_mint: limit,
            decimals: decimal,
        },
    )
}

/// What an accepted transfer request writes: the requester's row (changed
/// only when the request is valid), the history row, and whether the
/// request is valid.
pub struct TransferOutcome {
    pub balance: Balances,
    pub history: HistoryInsert,
    pub valid: bool,
}

/// What a settled send writes. `receiver` is `None` when sender and
/// receiver are the same address: the sender's row then holds the net update.
pub struct SendOutcome {
    pub sender: Balances,
    pub receiver: Option<Balances>,
    pub receiver_created: bool,
    pub tracker: Option<Tracker>,
    pub history: HistoryInsert,
}

/// Why a send is not settled.
#[derive(Clone, Copy, Debug, PartialEq, Eq, Structural)]
pub enum SendRefusal {
    /// The transfer request was invalid: its earmark never existed, so the
    /// spend moves nothing.
    InvalidTransfer,
    /// The rows cannot settle it: the sender has no row, an address or an
    /// exact amount is missing, the earmark is short, or a counter would
    /// overflow.
    Unsettleable,
}

/// What an accepted mint writes.
pub struct MintOutcome {
    pub tracker: Tracker,
    pub balance: Balances,
    pub balance_created: bool,
    pub history: HistoryInsert,
}

/// The empty string.
pub open spec fn empty_text() -> Seq<char> {
    Seq::<char>::empty()
}

/// The history row of a mint or transfer request by `inscription`.
pub open spec fn request_history(
    h: HistoryInsert,
    inscription: Inscriptions,
    ticker: String,
    sender: Seq<char>,
    receiver: Seq<char>,
    invalid: bool,
) -> bool {
    &&& h.address_sender@ == sender
    &&& h.address_receiver@ == receiver
    &&& h.amount == inscription.amount->0
    &&& h.ticker == ticker
    &&& h.action == inscription.action
    &&& h.invalid == invalid
    &&& h.inscription_id == inscription.inscription_id
    &&& h.inscription_num == inscription.inscription_num
    &&& h.tx_id == inscription.genesis_tx_id
    &&& h.height == inscription.height
    &&& h.timestamp == inscription.timestamp
}

/// The rows an accepted mint writes.
pub open spec fn mint_result(
    tracker: Tracker,
    balance: Option<&Balances>,
    inscription: Inscriptions,
    o: MintOutcome,
) -> bool {
    let credit = mint_credit_of(tracker, inscription);
    let num = inscription.inscription_num;
    &&& o.tracker.wf()
    &&& o.tracker == (Tracker {
        supply_minted: (tracker.supply_minted + credit) as u128,
        holders: if balance is None {
            tracker.holders + 1
        } else {
            tracker.holders as int
        } as i64,
        inscription_mint_start: if tracker.supply_minted == 0 {
            Some(num)
        } else {
            tracker.inscription_mint_start
        },
        inscription_mint_end: if inscription.amount->0.units_at(tracker.unit_scale as int) >= tracker.supply
            - tracker.supply_minted {
            Some(num)
        } else {
            tracker.inscription_mint_end
        },
        ..tracker
    })
    &&& o.balance_created == (balance is None)
    &&& match balance {
        Some(b) => {
            &&& o.balance == (Balances { balance: (b.balance + credit) as u128, ..*b })
            &&& row_of(o.balance) == apply_row_event(row_of(*b), RowEvent::Credit(credit as nat))
        },
        None => {
            &&& o.balance.address == inscription.genesis_address
            &&& o.balance.ticker == tracker.ticker
            &&& o.balance.balance == credit
            &&& o.balance.transfer_balance == 0
        },
    }
    &&& request_history(
        o.history,
        inscription,
        tracker.ticker,
        empty_text(),
        inscription.genesis_address@,
        false,
    )
}

/// Applies a mint to the ticker's tracker and the minter's balance row (when
/// one exists). `None` when the mint is dropped: amount missing, not
/// positive, finer than the ticker's decimals or above a non-zero limit; the
/// supply already fully minted; or a counter that would overflow. Otherwise
/// the minter is credited the amount clipped to the remaining supply.
pub fn mint(tracker: &Tracker, balance: Option<&Balances>, inscription: &Inscriptions) -> (r: Option<
    MintOutcome,
>)
    requires
        tracker.wf(),
    ensures
        r is Some <==> mint_applies(*tracker, *inscription) && mint_fits(
            *tracker,
            balance,
            mint_credit_of(*tracker, *inscription),
        ),
        r matches Some(o) ==> mint_result(*tracker, balance, *inscription, o),
{
    let amount: Decimal = match &inscription.amount {
        Some(a) => *a,
        None => {
            return None;
        },
    };
    if !amount.is_positive() {
        return None;
    }
    let frac = bigdecimal_fractional_count(amount);
    if frac > tracker.decimals as u64 {
        return None;
    }
    if !(tracker.limit_mint.is_zero() || amount.value_le(&tracker.limit_mint)) {
        return None;
    }
    if tracker.supply_minted >= tracker.supply {
        return None;
    }
    let headroom: u128 = tracker.supply - tracker.supply_minted;
    let (credit, reaches_end): (u128, bool) = match amount.to_units_at(tracker.unit_scale) {
        Some(u) => if u < headroom {
            (u, false)
        } else {
            (headroom, true)
        },
        None => (headroom, true),
    };
    assert(credit == mint_credit_of(*tracker, *inscription));
    let mut new_tracker = tracker.copied();
    new_tracker.supply_minted = tracker.supply_minted + credit;
    if tracker.supply_minted == 0 {
        new_tracker.inscription_mint_start = Some(inscription.inscription_num);
    }
    if reaches_end {
        new_tracker.inscription_mint_end = Some(inscription.inscription_num);
    }
    let new_balance: Balances = match balance {
        Some(b) => {
            let total: u128 = match b.balance.checked_add(credit) {
                Some(t) => t,
                None => {
                    return None;
                },
            };
            let mut nb = b.copied();
            nb.balance = total;
            nb
        },
        None => {
            if tracker.holders == i64::MAX {
                return None;
            }
            new_tracker.holders = tracker.holders + 1;
            Balances {
                id: 0,
                address: inscription.genesis_address.clone(),
                ticker: tracker.ticker.clone(),
                balance: credit,
                transfer_balance: 0,
            }
        },
    };
    let history = HistoryInsert {
        address_sender: String::new(),
        address_receiver: inscription.genesis_address.clone(),
        amount,
        ticker: tracker.ticker.clone(),
        action: inscription.action.clone(),
        invalid: false,
        inscription_id: inscription.inscription_id.clone(),
        inscription_num: inscription.inscription_num,
        tx_id: inscription.genesis_tx_id.clone(),
        height: inscription.height,
        timestamp: inscription.timestamp,
    };
    Some(
        MintOutcome {
            tracker: new_tracker,
            balance: new_balance,
            balance_created: balance.is_none(),
            history,
        },
    )
}

/// A transfer request is valid when the requester holds the amount,
/// counted in units of `10^-scale`.
pub open spec fn transfer_valid(b: Balances, amount: Decimal, scale: int) -> bool {
    amount.units_at(scale) <= b.balance
}

/// The rows a transfer request writes.
pub open spec fn transfer_result(
    tracker: Tracker,
    balance: Balances,
    inscription: Inscriptions,
    o: TransferOutcome,
) -> bool {
    let units = inscription.amount->0.units_at(tracker.unit_scale as int);
    &&& o.valid == transfer_valid(balance, inscription.amount->0, tracker.unit_scale as int)
    &&& o.balance == (if o.valid {
        Balances {
            balance: (balance.balance - units) as u128,
            transfer_balance: (balance.transfer_balance + units) as u128,
            ..balance
        }
    } else {
        balance
    })
    &&& row_of(o.balance) == apply_row_event(row_of(balance), RowEvent::Earmark(units as nat))
    &&& request_history(
        o.history,
        inscription,
        tracker.ticker,
        inscription.genesis_address@,
        empty_text(),
        !o.valid,
    )
}

/// Applies a transfer request to the requester's balance row. `None` when
/// the request is dropped: amount missing, not positive or finer than the
/// ticker's decimals, or an earmark that would overflow. A valid request
/// moves the amount from spendable to earmarked; an invalid one changes no
/// balance and is recorded with `invalid` set.
pub fn transfer(tracker: &Tracker, balance: &Balances, inscription: &Inscriptions) -> (r: Option<
    TransferOutcome,
>)
    requires
        tracker.wf(),
    ensures
        r is Some <==> amount_acceptable(inscription.amount, tracker.decimals) && (transfer_valid(
            *balance,
            inscription.amount->0,
            tracker.unit_scale as int,
        ) ==> balance.transfer_balance + inscription.amount->0.units_at(tracker.unit_scale as int)
            <= u128::MAX),
        r matches Some(o) ==> transfer_result(*tracker, *balance, *inscription, o),
{
    let amount: Decimal = match &inscription.amount {
        Some(a) => *a,
        None => {
            return None;
        },
    };
    if !amount.is_positive() {
        return None;
    }
    let frac = bigdecimal_fractional_count(amount);
    if frac > tracker.decimals as u64 {
        return None;
    }
    let mut new_balance = balance.copied();
    let valid: bool = match amount.to_units_at(tracker.unit_scale) {
        Some(u) => {
            if u <= balance.balance {
                let earmarked: u128 = match balance.transfer_balance.checked_add(u) {
                    Some(t) => t,
                    None => {
                        return None;
                    },
                };
                new_balance.balance = balance.balance - u;
                new_balance.transfer_balance = earmarked;
                true
            } else {
                false
            }
        },
        None => false,
    };
    let history = HistoryInsert {
        address_sender: inscription.genesis_address.clone(),
        address_receiver: String::new(),
        amount,
        ticker: tracker.ticker.clone(),
        action: inscription.action.clone(),
        invalid: !valid,
        inscription_id: inscription.inscription_id.clone(),
        inscription_num: inscription.inscription_num,
        tx_id: inscription.genesis_tx_id.clone(),
        height: inscription.height,
        timestamp: inscription.timestamp,
    };
    Some(TransferOutcome { balance: new_balance, history, valid })
}

pub open spec fn is_empty_row(row: (int, int)) -> bool {
    row.0 == 0 && row.1 == 0
}

/// Change in holder count of a send: one more when the receiver had no row
/// or an empty one, one fewer when the sender's row ends empty.
pub open spec fn holders_delta(receiver_before: Option<(int, int)>, sender_after: (int, int)) -> int {
    (if receiver_before matches Some(row) && !is_empty_row(row) {
        0int
    } else {
        1int
    }) - (if is_empty_row(sender_after) {
        1int
    } else {
        0int
    })
}

/// Unit scale a send is counted in: the tracker's, or 18 without one.
pub open spec fn send_scale(tracker: Option<&Tracker>) -> int {
    match tracker {
        Some(t) => t.unit_scale as int,
        None => UNIT_SCALE as int,
    }
}

/// Amount a send settles, in units of `10^-scale` (zero when the
/// inscription names none).
pub open spec fn send_units(inscription: Inscriptions, scale: int) -> int {
    match inscription.amount {
        Some(a) => a.units_at(scale),
        None => 0,
    }
}

pub open spec fn send_amount(inscription: Inscriptions) -> Decimal {
    match inscription.amount {
        Some(a) => a,
        None => Decimal { negative: false, digits: 0, scale: 0 },
    }
}

/// Whether a send of `inscription` can be settled from these rows: both
/// addresses recorded, an amount exact in the ticker's unit, enough earmarked
/// funds, and no counter that would overflow.
pub open spec fn send_settles(
    tracker: Option<&Tracker>,
    sender: Balances,
    receiver: Option<&Balances>,
    inscription: Inscriptions,
) -> bool {
    let u = send_units(inscription, send_scale(tracker));
    let same = inscription.address_sender->0@ == inscription.address_receiver->0@;
    let sender_after = if same {
        (sender.balance + u, sender.transfer_balance - u)
    } else {
        (sender.balance as int, sender.transfer_balance - u)
    };
    let receiver_before = if same {
        Some(row_of(sender))
    } else {
        match receiver {
            Some(b) => Some(row_of(*b)),
            None => None,
        }
    };
    &&& inscription.address_sender is Some
    &&& inscription.address_receiver is Some
    &&& !send_amount(inscription).spec_is_negative()
    &&& send_amount(inscription).fraction_digits() <= send_scale(tracker)
    &&& u <= sender.transfer_balance
    &&& (same ==> sender.balance + u <= u128::MAX)
    &&& (!same && receiver is Some ==> receiver->0.balance + u <= u128::MAX)
    &&& (tracker matches Some(t) ==> {
        &&& i64::MIN <= t.holders + holders_delta(receiver_before, sender_after) <= i64::MAX
        &&& t.transactions < i64::MAX
    })
}

/// Settles a send: the transfer inscription's amount leaves the sender's
/// earmarked funds and reaches the receiver's spendable funds (a new row
/// when the receiver has none). When both addresses are the same, one net
/// update of the sender's row. The tracker, when given, gains the holder
/// delta and one transaction. A transfer that was not valid settles
/// nothing.
pub fn process_inscription_transfer(
    tracker: Option<&Tracker>,
    sender: Option<&Balances>,
    receiver: Option<&Balances>,
    inscription: &Inscriptions,
) -> (r: Result<SendOutcome, SendRefusal>)
    requires
        tracker matches Some(t) ==> t.wf(),
    ensures
        r == Err::<SendOutcome, SendRefusal>(SendRefusal::InvalidTransfer) <==> inscription.valid
            != Some(true),
        r is Ok <==> inscription.valid == Some(true) && sender is Some && send_settles(
            tracker,
            *sender->0,
            receiver,
            *inscription,
        ),
        r matches Ok(o) ==> {
            let u = send_units(*inscription, send_scale(tracker));
            let same = inscription.address_sender->0@ == inscription.address_receiver->0@;
            let receiver_before = if same {
                Some(row_of(*sender->0))
            } else {
                match receiver {
                    Some(b) => Some(row_of(*b)),
                    None => None,
                }
            };
            &&& row_of(o.sender) == if same {
                apply_row_event(
                    apply_row_event(row_of(*sender->0), RowEvent::Release(u as nat)),
                    RowEvent::Credit(u as nat),
                )
            } else {
                apply_row_event(row_of(*sender->0), RowEvent::Release(u as nat))
            }
            &&& o.sender == (Balances {
                balance: row_of(o.sender).0 as u128,
                transfer_balance: row_of(o.sender).1 as u128,
                ..*sender->0
            })
            &&& same ==> o.receiver is None && !o.receiver_created
            &&& !same ==> match receiver {
                Some(b) => {
                    &&& o.receiver == Some(Balances { balance: (b.balance + u) as u128, ..*b })
                    &&& !o.receiver_created
                },
                None => {
                    &&& o.receiver matches Some(nb)
                    &&& nb.address == inscription.address_receiver->0
                    &&& nb.ticker == inscription.ticker
                    &&& nb.balance == u
                    &&& nb.transfer_balance == 0
                    &&& o.receiver_created
                },
            }
            &&& match tracker {
                Some(t) => o.tracker == Some(
                    Tracker {
                        holders: (t.holders + holders_delta(receiver_before, row_of(o.sender))) as i64,
                        transactions: (t.transactions + 1) as i64,
                        ..*t
                    },
                ),
                None => o.tracker is None,
            }
            &&& o.history.address_sender == inscription.address_sender->0
            &&& o.history.address_receiver == inscription.address_receiver->0
            &&& o.history.amount == send_amount(*inscription)
            &&& o.history.ticker == inscription.ticker
            &&& o.history.action@ == "send"@
            &&& !o.history.invalid
            &&& o.history.inscription_id == inscription.inscription_id
            &&& o.history.inscription_num == inscription.inscription_num
            &&& o.history.tx_id == inscription.genesis_tx_id
            &&& o.history.height == inscription.height
            &&& o.history.timestamp == inscription.timestamp
        },
{
    if inscription.valid != Some(true) {
        return Err(SendRefusal::InvalidTransfer);
    }
    let sender: &Balances = match sender {
        Some(s) => s,
        None => {
            return Err(SendRefusal::Unsettleable);
        },
    };
    let sender_address: &String = match &inscription.address_sender {
        Some(a) => a,
        None => {
            return Err(SendRefusal::Unsettleable);
        },
    };
    let receiver_address: &String = match &inscription.address_receiver {
        Some(a) => a,
        None => {
            return Err(SendRefusal::Unsettleable);
        },
    };
    let amount: Decimal = match &inscription.amount {
        Some(a) => *a,
        None => Decimal::zero(),
    };
    let scale: i64 = match tracker {
        Some(t) => t.unit_scale,
        None => UNIT_SCALE,
    };
    assert(scale == send_scale(tracker));
    assert(amount == send_amount(*inscription));
    proof {
        if inscription.amount is None {
            let p = pow10(scale as nat) as int;
            assert(amount.signed_digits() == 0);
            assert(0int * p == 0);
        }
    }
    assert(amount.units_at(scale as int) == send_units(*inscription, scale as int));
    let u: u128 = match amount.to_units_at(scale) {
        Some(u) => u,
        None => {
            return Err(SendRefusal::Unsettleable);
        },
    };
    if u > sender.transfer_balance {
        return Err(SendRefusal::Unsettleable);
    }
    let same = *sender_address == *receiver_address;
    let mut new_sender = sender.copied();
    new_sender.transfer_balance = sender.transfer_balance - u;
    let mut new_receiver: Option<Balances> = None;
    let mut receiver_created = false;
    let receiver_was_empty: bool;
    if same {
        new_sender.balance = match sender.balance.checked_add(u) {
            Some(t) => t,
            None => {
                return Err(SendRefusal::Unsettleable);
            },
        };
        receiver_was_empty = sender.balance == 0 && sender.transfer_balance == 0;
    } else {
        match receiver {
            Some(b) => {
                let total: u128 = match b.balance.checked_add(u) {
                    Some(t) => t,
                    None => {
                        return Err(SendRefusal::Unsettleable);
                    },
                };
                receiver_was_empty = b.balance == 0 && b.transfer_balance == 0;
                let mut nb = b.copied();
                nb.balance = total;
                new_receiver = Some(nb);
            },
            None => {
                receiver_was_empty = true;
                receiver_created = true;
                new_receiver = Some(
                    Balances {
                        id: 0,
                        address: receiver_address.clone(),
                        ticker: inscription.ticker.clone(),
                        balance: u,
                        transfer_balance: 0,
                    },
                );
            },
        }
    }
    let gain: i64 = if receiver_was_empty {
        1
    } else {
        0
    };
    let loss: i64 = if new_sender.balance == 0 && new_sender.transfer_balance == 0 {
        1
    } else {
        0
    };
    let new_tracker: Option<Tracker> = match tracker {
        Some(t) => {
            if gain - loss > 0 && t.holders == i64::MAX {
                return Err(SendRefusal::Unsettleable);
            }
            if gain - loss < 0 && t.holders == i64::MIN {
                return Err(SendRefusal::Unsettleable);
            }
            if t.transactions == i64::MAX {
                return Err(SendRefusal::Unsettleable);
            }
            let mut nt = t.copied();
            nt.holders = t.holders + (gain - loss);
            nt.transactions = t.transactions + 1;
            Some(nt)
        },
        None => None,
    };
    let history = HistoryInsert {
        address_sender: sender_address.clone(),
        address_receiver: receiver_address.clone(),
        amount,
        ticker: inscription.ticker.clone(),
        action: String::from_str("send"),
        invalid: false,
        inscription_id: inscription.inscription_id.clone(),
        inscription_num: inscription.inscription_num,
        tx_id: inscription.genesis_tx_id.clone(),
        height: inscription.height,
        timestamp: inscription.timestamp,
    };
    Ok(
        SendOutcome {
            sender: new_sender,
            receiver: new_receiver,
            receiver_created,
            tracker: new_tracker,
            history,
        },
    )
}

} // verus!
