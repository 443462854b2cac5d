//! Ledger records: decoded operations, stored inscriptions, ticker trackers,
//! balances and history rows.

use crate::decimal::{Decimal, UNIT_SCALE};
use vstd::prelude::*;

verus! {

/// Largest number of decimals a ticker may declare.
pub const MAX_DECIMALS: i32 = 18;

/// A decoded token operation.
#[derive(Clone, Debug)]
pub struct Ord20 {
    pub p: String,
    pub op: String,
    pub tick: String,
    pub max: Option<Decimal>,
    pub lim: Option<Decimal>,
    pub amt: Option<Decimal>,
    pub dec: Option<i32>,
}

/// A new inscription row, as first recorded at genesis.
#[derive(Clone, Debug)]
pub struct InscriptionsInsert {
    pub genesis_tx_id: String,
    pub genesis_address: String,
    pub ticker: String,
    pub action: String,
    pub supply: Option<Decimal>,
    pub limit_mint: Option<Decimal>,
    pub decimal: Option<i32>,
    pub amount: Option<Decimal>,
    pub inscription_id: String,
    pub inscription_num: i64,
    pub output: String,
    pub value: i64,
    pub height: i64,
    pub timestamp: i64,
}

/// A stored inscription: genesis facts and, once its output is spent, the
/// spend facts.
#[derive(Clone, Debug)]
pub struct Inscriptions {
    pub id: i32,
    pub genesis_tx_id: String,
    pub genesis_address: String,
    pub address_sender: Option<String>,
    pub address_receiver: Option<String>,
    pub ticker: String,
    pub action: String,
    pub supply: Option<Decimal>,
    pub limit_mint: Option<Decimal>,
    pub decimal: Option<i32>,
    pub amount: Option<Decimal>,
    pub inscription_id: String,
    pub inscription_num: i64,
    pub height: i64,
    pub timestamp: i64,
    pub output: String,
    pub value: Option<i64>,
    pub valid: Option<bool>,
    pub spent: Option<bool>,
    pub spent_tx: Option<String>,
    pub spent_offset: Option<i64>,
    pub spent_height: Option<i64>,
    pub spent_timestamp: Option<i64>,
}

/// A new ticker tracker; supply in units of `10^-unit_scale`.
#[derive(Clone, Debug)]
pub struct TrackerInsert {
    pub deploy_inscription_num: i64,
    pub deploy_inscription: String,
    pub ticker: String,
    pub unit_scale: i64,
    pub supply: u128,
    pub limit_mint: Decimal,
    pub decimals: i32,
}

/// A ticker tracker. Supply, minted supply and the ticker's balances are
/// counted in units of `10^-unit_scale`.
#[derive(Clone, Debug)]
pub struct Tracker {
    pub id: i32,
    pub deploy_inscription_num: i64,
    pub deploy_inscription: String,
    pub ticker: String,
    pub unit_scale: i64,
    pub supply: u128,
    pub supply_minted: u128,
    pub limit_mint: Decimal,
    pub decimals: i32,
    pub holders: i64,
    pub transactions: i64,
    pub inscription_mint_start: Option<i64>,
    pub inscription_mint_end: Option<i64>,
}

impl Tracker {
    /// The tracker invariant: decimals in range, a unit no coarser than
    /// `10^-18`, and the minted supply never above the supply.
    pub open spec fn wf(&self) -> bool {
        &&& 0 <= self.decimals <= MAX_DECIMALS
        &&& UNIT_SCALE <= self.unit_scale
        &&& self.supply_minted <= self.supply
    }

    pub fn copied(&self) -> (r: Tracker)
        ensures
            r == *self,
    {
        Tracker {
            id: self.id,
            deploy_inscription_num: self.deploy_inscription_num,
            deploy_inscription: self.deploy_inscription.clone(),
            ticker: self.ticker.clone(),
            unit_scale: self.unit_scale,
            supply: self.supply,
            supply_minted: self.supply_minted,
            limit_mint: self.limit_mint,
            decimals: self.decimals,
            holders: self.holders,
            transactions: self.transactions,
            inscription_mint_start: self.inscription_mint_start,
            inscription_mint_end: self.inscription_mint_end,
        }
    }

    pub fn is_well_formed(&self) -> (r: bool)
        ensures
            r == self.wf(),
    {
        0 <= self.decimals && self.decimals <= MAX_DECIMALS && UNIT_SCALE <= self.unit_scale
            && self.supply_minted <= self.supply
    }
}

/// A new, empty balance row.
#[derive(Clone, Debug)]
pub struct BalancesInsert {
    pub address: String,
    pub ticker: String,
}

/// Spendable and earmarked amounts of one address for one ticker, in the
/// ticker's units.
#[derive(Clone, Debug)]
pub struct Balances {
    pub id: i32,
    pub address: String,
    pub ticker: String,
    pub balance: u128,
    pub transfer_balance: u128,
}

impl Balances {
    pub fn copied(&self) -> (r: Balances)
        ensures
            r == *self,
    {
        Balances {
            id: self.id,
            address: self.address.clone(),
            ticker: self.ticker.clone(),
            balance: self.balance,
            transfer_balance: self.transfer_balance,
        }
    }
}

/// A history row.
#[derive(Clone, Debug)]
pub struct HistoryInsert {
    pub address_sender: String,
    pub address_receiver: String,
    pub amount: Decimal,
    pub ticker: String,
    pub action: String,
    pub invalid: bool,
    pub inscription_id: String,
    pub inscription_num: i64,
    pub tx_id: String,
    pub height: i64,
    pub timestamp: i64,
}

} // verus!
