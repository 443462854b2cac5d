use ord20_indexer::decimal::Decimal;
use ord20_indexer::indexer::{InscriptionEffect, Indexer};
use ord20_indexer::ledger::{deploy, mint, process_inscription_transfer, transfer, SendRefusal};
use ord20_indexer::models::{Balances, Inscriptions, Tracker, TrackerInsert};

const ONE: u128 = 1_000_000_000_000_000_000;

fn dec(digits: u128, scale: i64) -> Decimal {
    Decimal { negative: false, digits, scale }
}

fn record(action: &str, ticker: &str, address: &str) -> Inscriptions {
    Inscriptions {
        id: 1,
        genesis_tx_id: "tx".to_string(),
        genesis_address: address.to_string(),
        address_sender: None,
        address_receiver: None,
        ticker: ticker.to_string(),
        action: action.to_string(),
        supply: None,
        limit_mint: None,
        decimal: None,
        amount: None,
        inscription_id: "txi0".to_string(),
        inscription_num: 7,
        height: 100,
        timestamp: 1000,
        output: "tx:0".to_string(),
        value: None,
        valid: None,
        spent: None,
        spent_tx: None,
        spent_offset: None,
        spent_height: None,
        spent_timestamp: None,
    }
}

fn deploy_record(ticker: &str, supply: Decimal, limit: Option<Decimal>, decimals: Option<i32>) -> Inscriptions {
    let mut r = record("deploy", ticker, "deployer");
    r.supply = Some(supply);
    r.limit_mint = limit;
    r.decimal = decimals;
    r
}

fn amount_record(action: &str, address: &str, amount: Decimal) -> Inscriptions {
    let mut r = record(action, "test", address);
    r.amount = Some(amount);
    r
}

fn tracker_of(t: TrackerInsert) -> Tracker {
    Tracker {
        id: 1,
        deploy_inscription_num: t.deploy_inscription_num,
        deploy_inscription: t.deploy_inscription,
        ticker: t.ticker,
        unit_scale: t.unit_scale,
        supply: t.supply,
        supply_minted: 0,
        limit_mint: t.limit_mint,
        decimals: t.decimals,
        holders: 0,
        transactions: 0,
        inscription_mint_start: None,
        inscription_mint_end: None,
    }
}

fn row(address: &str, balance: u128, transfer_balance: u128) -> Balances {
    Balances {
        id: 1,
        address: address.to_string(),
        ticker: "test".to_string(),
        balance,
        transfer_balance,
    }
}

fn test_tracker(supply: u128, limit: u128, decimals: i32) -> Tracker {
    tracker_of(deploy(None, &deploy_record("test", dec(supply, 0), Some(dec(limit, 0)), Some(decimals))).unwrap())
}

fn spent(mut r: Inscriptions, sender: &str, receiver: &str) -> Inscriptions {
    r.address_sender = Some(sender.to_string());
    r.address_receiver = Some(receiver.to_string());
    r.spent = Some(true);
    r.valid = Some(true);
    r
}

#[test]
fn deploy_creates_tracker() {
    let t = deploy(None, &deploy_record("test", dec(1000, 0), Some(dec(100, 0)), Some(0))).unwrap();
    assert_eq!(t.ticker, "test");
    assert_eq!(t.supply, 1000 * ONE);
    assert_eq!(t.limit_mint, dec(100, 0));
    assert_eq!(t.decimals, 0);
    assert_eq!(t.unit_scale, 18);
    assert_eq!(t.deploy_inscription, "txi0");
    assert_eq!(t.deploy_inscription_num, 7);
}

#[test]
fn deploy_defaults() {
    let t = deploy(None, &deploy_record("test", dec(21, 0), None, None)).unwrap();
    assert_eq!(t.decimals, 18);
    assert!(t.limit_mint.is_zero());
}

#[test]
fn deploy_rejects_ticker_not_four_bytes() {
    assert!(deploy(None, &deploy_record("abc", dec(1000, 0), None, Some(0))).is_none());
    assert!(deploy(None, &deploy_record("abcde", dec(1000, 0), None, Some(0))).is_none());
    assert!(deploy(None, &deploy_record("ab\u{20ac}", dec(1000, 0), None, Some(0))).is_none());
    assert!(deploy(None, &deploy_record("a\u{20ac}", dec(1000, 0), None, Some(0))).is_some());
}

#[test]
fn deploy_rejects_decimals_out_of_range() {
    assert!(deploy(None, &deploy_record("test", dec(1000, 0), None, Some(19))).is_none());
    assert!(deploy(None, &deploy_record("test", dec(1000, 0), None, Some(-1))).is_none());
    assert!(deploy(None, &deploy_record("test", dec(1000, 0), None, Some(18))).is_some());
}

#[test]
fn deploy_rejects_bad_supply_or_limit() {
    assert!(deploy(None, &deploy_record("test", dec(0, 0), None, Some(0))).is_none());
    let negative = Decimal { negative: true, digits: 5, scale: 0 };
    assert!(deploy(None, &deploy_record("test", negative, None, Some(0))).is_none());
    assert!(deploy(None, &deploy_record("test", dec(1000, 0), Some(negative), Some(0))).is_none());
    let mut no_supply = deploy_record("test", dec(1, 0), None, Some(0));
    no_supply.supply = None;
    assert!(deploy(None, &no_supply).is_none());
    let max = i64::MAX as u128;
    assert!(deploy(None, &deploy_record("test", dec(max, 0), None, Some(0))).is_some());
    assert!(deploy(None, &deploy_record("test", dec(max + 1, 0), None, Some(0))).is_none());
}

#[test]
fn deploy_accepts_supply_finer_than_eighteen_digits() {
    let fine = dec(10_000_000_000_000_000_001, 19);
    let t = deploy(None, &deploy_record("test", fine, None, None)).unwrap();
    assert_eq!(t.unit_scale, 19);
    assert_eq!(t.supply, 10_000_000_000_000_000_001);
    let tiny = deploy(None, &deploy_record("test", dec(5, 40), None, None)).unwrap();
    assert_eq!(tiny.unit_scale, 40);
    assert_eq!(tiny.supply, 5);
    let padded = deploy(None, &deploy_record("test", dec(50, 41), None, None)).unwrap();
    assert_eq!(padded.unit_scale, 40);
    assert_eq!(padded.supply, 5);
    let cap = i64::MAX as u128 * 10u128.pow(19);
    let at_cap = deploy(None, &deploy_record("test", dec(cap, 19), None, None)).unwrap();
    assert_eq!(at_cap.unit_scale, 18);
    assert_eq!(at_cap.supply, cap / 10);
    assert!(deploy(None, &deploy_record("test", dec(cap + 1, 19), None, None)).is_none());
}

#[test]
fn fine_supply_mints_out_exactly() {
    let t = tracker_of(deploy(None, &deploy_record("test", dec(10_000_000_000_000_000_001, 19), None, Some(0))).unwrap());
    let o = mint(&t, None, &amount_record("mint", "A", dec(1, 0))).unwrap();
    assert_eq!(o.balance.balance, 10_000_000_000_000_000_000);
    assert_eq!(o.tracker.inscription_mint_end, None);
    let last = mint(&o.tracker, None, &amount_record("mint", "B", dec(1, 0))).unwrap();
    assert_eq!(last.balance.balance, 1);
    assert_eq!(last.tracker.supply_minted, 10_000_000_000_000_000_001);
    assert_eq!(last.tracker.inscription_mint_end, Some(7));
    assert!(mint(&last.tracker, None, &amount_record("mint", "C", dec(1, 0))).is_none());
}

#[test]
fn first_deploy_wins() {
    let existing = test_tracker(1000, 100, 0);
    assert!(deploy(Some(&existing), &deploy_record("test", dec(5, 0), None, Some(0))).is_none());
}

#[test]
fn mint_credits_minter_and_counts_holder() {
    let t = test_tracker(1000, 100, 0);
    let o = mint(&t, None, &amount_record("mint", "A", dec(100, 0))).unwrap();
    assert_eq!(o.tracker.supply_minted, 100 * ONE);
    assert_eq!(o.tracker.holders, 1);
    assert_eq!(o.tracker.inscription_mint_start, Some(7));
    assert_eq!(o.tracker.inscription_mint_end, None);
    assert!(o.balance_created);
    assert_eq!(o.balance.address, "A");
    assert_eq!(o.balance.balance, 100 * ONE);
    assert_eq!(o.balance.transfer_balance, 0);
    assert_eq!(o.history.address_receiver, "A");
    assert_eq!(o.history.address_sender, "");
    assert_eq!(o.history.action, "mint");
    assert!(!o.history.invalid);
}

#[test]
fn mint_to_existing_row_keeps_holders() {
    let mut t = test_tracker(1000, 100, 0);
    t.supply_minted = 100 * ONE;
    t.holders = 1;
    let a = row("A", 100 * ONE, 7);
    let o = mint(&t, Some(&a), &amount_record("mint", "A", dec(40, 0))).unwrap();
    assert_eq!(o.balance.balance, 140 * ONE);
    assert_eq!(o.balance.transfer_balance, 7);
    assert_eq!(o.tracker.holders, 1);
    assert_eq!(o.tracker.inscription_mint_start, None);
    assert!(!o.balance_created);
}

#[test]
fn mint_above_limit_is_dropped() {
    let t = test_tracker(1000, 100, 0);
    assert!(mint(&t, None, &amount_record("mint", "A", dec(101, 0))).is_none());
    assert!(mint(&t, None, &amount_record("mint", "A", dec(100000, 3))).is_some());
    assert!(mint(&t, None, &amount_record("mint", "A", dec(0, 0))).is_none());
}

#[test]
fn mint_rejects_excess_precision() {
    let t = test_tracker(1000, 0, 2);
    assert!(mint(&t, None, &amount_record("mint", "A", dec(1005, 3))).is_none());
    assert!(mint(&t, None, &amount_record("mint", "A", dec(100500, 5))).is_none());
    let o = mint(&t, None, &amount_record("mint", "A", dec(150, 2))).unwrap();
    assert_eq!(o.balance.balance, ONE + ONE / 2);
    assert!(mint(&t, None, &amount_record("mint", "A", dec(1500, 3))).is_some());
}

#[test]
fn mints_never_exceed_supply() {
    let mut t = test_tracker(1000, 0, 0);
    let amounts: Vec<u128> = vec![400, 1, 350, 400, 3, 999];
    let mut balance: Option<Balances> = None;
    let mut credited: u128 = 0;
    for a in amounts {
        match mint(&t, balance.as_ref(), &amount_record("mint", "A", dec(a, 0))) {
            Some(o) => {
                credited += o.balance.balance - balance.as_ref().map(|b| b.balance).unwrap_or(0);
                t = o.tracker;
                balance = Some(o.balance);
            }
            None => {}
        }
        assert!(t.supply_minted <= t.supply);
    }
    assert_eq!(t.supply_minted, 1000 * ONE);
    assert_eq!(credited, 1000 * ONE);
    assert_eq!(balance.unwrap().balance, 1000 * ONE);
}

#[test]
fn last_mint_is_clipped_and_marks_end() {
    let mut t = test_tracker(1000, 0, 0);
    t.supply_minted = 900 * ONE;
    t.holders = 1;
    let o = mint(&t, None, &amount_record("mint", "B", dec(250, 0))).unwrap();
    assert_eq!(o.balance.balance, 100 * ONE);
    assert_eq!(o.tracker.supply_minted, 1000 * ONE);
    assert_eq!(o.tracker.inscription_mint_end, Some(7));
    assert_eq!(o.history.amount, dec(250, 0));
    assert!(mint(&o.tracker, None, &amount_record("mint", "C", dec(1, 0))).is_none());
}

#[test]
fn transfer_earmarks_funds() {
    let t = test_tracker(1000, 100, 0);
    let a = row("A", 100 * ONE, 0);
    let o = transfer(&t, &a, &amount_record("transfer", "A", dec(50, 0))).unwrap();
    assert!(o.valid);
    assert_eq!(o.balance.balance, 50 * ONE);
    assert_eq!(o.balance.transfer_balance, 50 * ONE);
    assert!(!o.history.invalid);
    assert_eq!(o.history.address_sender, "A");
    assert_eq!(o.history.address_receiver, "");
}

#[test]
fn transfer_above_balance_is_invalid() {
    let t = test_tracker(1000, 100, 0);
    let a = row("A", 100 * ONE, 3);
    let o = transfer(&t, &a, &amount_record("transfer", "A", dec(101, 0))).unwrap();
    assert!(!o.valid);
    assert!(o.history.invalid);
    assert_eq!(o.balance.balance, 100 * ONE);
    assert_eq!(o.balance.transfer_balance, 3);
    let huge = transfer(&t, &a, &amount_record("transfer", "A", dec(u128::MAX, 0))).unwrap();
    assert!(!huge.valid);
}

#[test]
fn transfer_rejects_bad_amounts() {
    let t = test_tracker(1000, 100, 0);
    let a = row("A", 100 * ONE, 0);
    assert!(transfer(&t, &a, &amount_record("transfer", "A", dec(15, 1))).is_none());
    assert!(transfer(&t, &a, &amount_record("transfer", "A", dec(0, 0))).is_none());
    assert!(transfer(&t, &a, &record("transfer", "test", "A")).is_none());
}

#[test]
fn send_moves_earmark_to_new_receiver() {
    let mut t = test_tracker(1000, 100, 0);
    t.holders = 1;
    let a = row("A", 50 * ONE, 50 * ONE);
    let insc = spent(amount_record("transfer", "A", dec(50, 0)), "A", "B");
    let o = process_inscription_transfer(Some(&t), Some(&a), None, &insc).unwrap();
    assert_eq!(o.sender.balance, 50 * ONE);
    assert_eq!(o.sender.transfer_balance, 0);
    let b = o.receiver.unwrap();
    assert_eq!(b.address, "B");
    assert_eq!(b.balance, 50 * ONE);
    assert!(o.receiver_created);
    let nt = o.tracker.unwrap();
    assert_eq!(nt.holders, 2);
    assert_eq!(nt.transactions, 1);
    assert_eq!(o.history.action, "send");
    assert_eq!(o.history.address_sender, "A");
    assert_eq!(o.history.address_receiver, "B");
}

#[test]
fn send_that_empties_sender_keeps_holder_count() {
    let mut t = test_tracker(1000, 100, 0);
    t.holders = 1;
    let a = row("A", 0, 50 * ONE);
    let insc = spent(amount_record("transfer", "A", dec(50, 0)), "A", "B");
    let o = process_inscription_transfer(Some(&t), Some(&a), None, &insc).unwrap();
    assert_eq!(o.tracker.unwrap().holders, 1);
}

#[test]
fn send_to_existing_rows() {
    let mut t = test_tracker(1000, 100, 0);
    t.holders = 2;
    let a = row("A", 0, 50 * ONE);
    let b = row("B", 0, 0);
    let c = row("C", 10, 0);
    let insc = spent(amount_record("transfer", "A", dec(50, 0)), "A", "B");
    let to_empty = process_inscription_transfer(Some(&t), Some(&a), Some(&b), &insc).unwrap();
    assert_eq!(to_empty.tracker.unwrap().holders, 2);
    assert!(!to_empty.receiver_created);
    let insc_c = spent(amount_record("transfer", "A", dec(50, 0)), "A", "C");
    let to_holder = process_inscription_transfer(Some(&t), Some(&a), Some(&c), &insc_c).unwrap();
    assert_eq!(to_holder.tracker.unwrap().holders, 1);
    assert_eq!(to_holder.receiver.unwrap().balance, 50 * ONE + 10);
}

#[test]
fn send_to_self_is_one_net_update() {
    let mut t = test_tracker(1000, 100, 0);
    t.holders = 1;
    let a = row("A", 0, 50 * ONE);
    let insc = spent(amount_record("transfer", "A", dec(50, 0)), "A", "A");
    let o = process_inscription_transfer(Some(&t), Some(&a), Some(&a), &insc).unwrap();
    assert!(o.receiver.is_none());
    assert_eq!(o.sender.balance, 50 * ONE);
    assert_eq!(o.sender.transfer_balance, 0);
    assert_eq!(o.tracker.unwrap().holders, 1);
}

#[test]
fn send_without_enough_earmark_is_refused() {
    let t = test_tracker(1000, 100, 0);
    let a = row("A", 100 * ONE, 10);
    let insc = spent(amount_record("transfer", "A", dec(50, 0)), "A", "B");
    assert_eq!(
        process_inscription_transfer(Some(&t), Some(&a), None, &insc).err(),
        Some(SendRefusal::Unsettleable)
    );
    let mut unspent = amount_record("transfer", "A", dec(50, 0));
    unspent.valid = Some(true);
    let b = row("A", 0, 50 * ONE);
    assert_eq!(
        process_inscription_transfer(Some(&t), Some(&b), None, &unspent).err(),
        Some(SendRefusal::Unsettleable)
    );
    assert_eq!(
        process_inscription_transfer(Some(&t), None, None, &spent(amount_record("transfer", "A", dec(50, 0)), "A", "B")).err(),
        Some(SendRefusal::Unsettleable)
    );
}

#[test]
fn invalid_transfer_settles_nothing() {
    let t = test_tracker(1000, 100, 0);
    let a = row("A", 100 * ONE, 0);
    let mut insc = spent(amount_record("transfer", "A", dec(500, 0)), "A", "B");
    insc.valid = Some(false);
    assert_eq!(
        process_inscription_transfer(Some(&t), Some(&a), None, &insc).err(),
        Some(SendRefusal::InvalidTransfer)
    );
    insc.valid = None;
    assert_eq!(
        process_inscription_transfer(Some(&t), Some(&a), None, &insc).err(),
        Some(SendRefusal::InvalidTransfer)
    );
}

#[test]
fn send_without_tracker_still_moves_funds() {
    let a = row("A", 0, 50 * ONE);
    let insc = spent(amount_record("transfer", "A", dec(50, 0)), "A", "B");
    let o = process_inscription_transfer(None, Some(&a), None, &insc).unwrap();
    assert!(o.tracker.is_none());
    assert_eq!(o.receiver.unwrap().balance, 50 * ONE);
}

#[test]
fn dispatch_by_action() {
    let t = test_tracker(1000, 100, 0);
    let a = row("A", 100 * ONE, 0);
    let d = deploy_record("test", dec(1000, 0), None, Some(0));
    assert!(matches!(Indexer::process_inscription(None, None, &d), InscriptionEffect::Deploy(_)));
    assert!(matches!(Indexer::process_inscription(Some(&t), None, &d), InscriptionEffect::Nothing));
    let m = amount_record("mint", "A", dec(10, 0));
    assert!(matches!(Indexer::process_inscription(Some(&t), None, &m), InscriptionEffect::Mint(_)));
    assert!(matches!(Indexer::process_inscription(None, None, &m), InscriptionEffect::Nothing));
    let x = amount_record("transfer", "A", dec(10, 0));
    assert!(matches!(Indexer::process_inscription(Some(&t), Some(&a), &x), InscriptionEffect::Transfer(_)));
    assert!(matches!(Indexer::process_inscription(Some(&t), None, &x), InscriptionEffect::Nothing));
    let other = amount_record("burn", "A", dec(10, 0));
    assert!(matches!(Indexer::process_inscription(Some(&t), Some(&a), &other), InscriptionEffect::Nothing));
}
