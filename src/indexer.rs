//! Per-block decisions of the indexer: which inscriptions are token
//! candidates, how their content is decoded into a stored record, where a
//! spent transfer inscription goes, and which ledger step an inscription
//! triggers.

use crate::decimal::Decimal;
use crate::ledger::{
    amount_acceptable, deploy, deploy_acceptable, deploy_result, mint, mint_applies,
    mint_credit_of, mint_fits, mint_result, transfer, transfer_result, transfer_valid,
    MintOutcome, TransferOutcome,
};
use crate::models::{Balances, Inscriptions, InscriptionsInsert, Ord20, Tracker, TrackerInsert};
use crate::ordinals::{Block, Inscription, Ordinals, Transaction, TransactionInscription};
use crate::util::{string_to_timestamp, timestamp_of};
use vstd::prelude::*;
use vstd::utf8::encode_utf8;

verus! {

/// Value of one hex digit, either case.
pub open spec fn hex_value(c: u8) -> Option<u8> {
    if 48 <= c <= 57 {
        Some((c - 48) as u8)
    } else if 97 <= c <= 102 {
        Some((c - 87) as u8)
    } else if 65 <= c <= 70 {
        Some((c - 55) as u8)
    } else {
        None
    }
}

/// The bytes a hex text spells: one byte per pair of digits, high digit
/// first; `None` for an odd length or a character that is not a hex digit.
pub open spec fn hex_bytes(s: Seq<u8>) -> Option<Seq<u8>> {
    if s.len() % 2 == 0 && forall|i: int| 0 <= i < s.len() ==> (#[trigger] hex_value(s[i])) is Some {
        Some(
            Seq::new(
                s.len() / 2,
                |i: int| (hex_value(s[2 * i])->0 * 16 + hex_value(s[2 * i + 1])->0) as u8,
            ),
        )
    } else {
        None
    }
}

/// Relies on hex::decode: an even number of hex digits of either case
/// decodes to one byte per pair; anything else is an error.
#[verifier::external_body]
fn hex_decode(data: &[u8]) -> (r: Option<Vec<u8>>)
    ensures
        r matches Some(v) ==> hex_bytes(data@) == Some(v@),
        r is None ==> hex_bytes(data@) is None,
{
    hex::decode(data).ok()
}

/// The text std's lossy UTF-8 decoding reads from `b`.
pub uninterp spec fn utf8_lossy_of(b: Seq<u8>) -> Seq<char>;

/// Relies on `String::from_utf8_lossy`: the text depends on the bytes alone.
#[verifier::external_body]
fn lossy_text(b: &[u8]) -> (r: String)
    ensures
        r@ == utf8_lossy_of(b@),
{
    String::from_utf8_lossy(b).into_owned()
}

/// The lowercase form std gives `s`.
pub uninterp spec fn lower_of(s: Seq<char>) -> Seq<char>;

/// Relies on `str::to_lowercase`: the result depends on the characters
/// alone.
#[verifier::external_body]
fn lowercase(s: &str) -> (r: String)
    ensures
        r@ == lower_of(s@),
{
    s.to_lowercase()
}

/// Whether `pattern` occurs in `s` as a run of consecutive characters.
pub open spec fn contains_text(s: Seq<char>, pattern: Seq<char>) -> bool {
    exists|i: int|
        0 <= i && i + pattern.len() <= s.len() && #[trigger] s.subrange(i, i + pattern.len())
            == pattern
}

/// Relies on `str::contains` with a string pattern: true when the pattern
/// matches a sub-slice of the text.
#[verifier::external_body]
fn text_contains(s: &str, pattern: &str) -> (r: bool)
    ensures
        r == contains_text(s@, pattern@),
{
    s.contains(pattern)
}

/// `s` with every `i` written as `:`.
pub open spec fn locator_of(s: Seq<char>) -> Seq<char> {
    s.map_values(|c: char| if c == 'i' { ':' } else { c })
}

/// Relies on `str::replace` of the character `i` by `:`: every match is
/// replaced, nothing else changes.
#[verifier::external_body]
fn replace_i_by_colon(s: &str) -> (r: String)
    ensures
        r@ == locator_of(s@),
{
    s.replace('i', ":")
}

/// Text of hex-encoded content: hex decoded, then read as UTF-8 with
/// invalid sequences replaced. `None` when the hex does not decode.
pub fn decode_content(hex_text: &str) -> (r: Option<String>)
    ensures
        r is Some <==> hex_bytes(encode_utf8(hex_text@)) is Some,
        r matches Some(t) ==> t@ == utf8_lossy_of(hex_bytes(encode_utf8(hex_text@))->0),
{
    match hex_decode(hex_text.as_bytes()) {
        Some(bytes) => Some(lossy_text(bytes.as_slice())),
        None => None,
    }
}

/// What a ledger step asks to be written for one inscription.
pub enum InscriptionEffect {
    Nothing,
    Deploy(TrackerInsert),
    Mint(MintOutcome),
    Transfer(TransferOutcome),
}

/// Offsets of the inputs of one transaction, built from the input values as
/// they are fetched, in input order.
pub struct InputOffsets {
    counted: usize,
    offset: u64,
    values: Ghost<Seq<u64>>,
}

pub open spec fn sum_values(values: Seq<u64>) -> int
    decreases values.len(),
{
    if values.len() == 0 {
        0
    } else {
        sum_values(values.drop_last()) + values.last()
    }
}

impl InputOffsets {
    /// Values counted so far: those of the first inputs, in order.
    pub closed spec fn view(&self) -> Seq<u64> {
        self.values@
    }

    pub closed spec fn wf(&self) -> bool {
        &&& self.counted == self.values@.len()
        &&& self.offset == sum_values(self.values@)
    }

    pub fn new() -> (r: InputOffsets)
        ensures
            r.wf(),
            r@ == Seq::<u64>::empty(),
    {
        InputOffsets { counted: 0, offset: 0, values: Ghost(Seq::empty()) }
    }

    /// The next input whose value must be fetched before the offset of
    /// input `index` is known; `None` once every earlier input is counted.
    pub fn next_missing(&self, index: usize) -> (r: Option<usize>)
        requires
            self.wf(),
        ensures
            r is Some <==> self@.len() < index,
            r matches Some(i) ==> i == self@.len(),
    {
        if self.counted < index {
            Some(self.counted)
        } else {
            None
        }
    }

    /// Counts the fetched value of the next input. Returns `false`, and
    /// counts nothing, when the running offset would overflow.
    pub fn record(&mut self, value: u64) -> (r: bool)
        requires
            old(self).wf(),
            old(self)@.len() < usize::MAX,
        ensures
            final(self).wf(),
            r == (sum_values(old(self)@) + value <= u64::MAX),
            r ==> final(self)@ == old(self)@.push(value),
            !r ==> final(self)@ == old(self)@,
    {
        match self.offset.checked_add(value) {
            Some(total) => {
                proof {
                    assert(self.values@.push(value).drop_last() =~= self.values@);
                }
                self.offset = total;
                self.counted = self.counted + 1;
                self.values = Ghost(self.values@.push(value));
                true
            },
            None => false,
        }
    }

    /// The sum of the values of the inputs before input `index`, once all
    /// of them are counted.
    pub fn offset_for(&self, index: usize) -> (r: Option<u64>)
        requires
            self.wf(),
        ensures
            r is Some <==> self@.len() == index,
            r matches Some(o) ==> o == sum_values(self@),
    {
        if self.counted == index {
            Some(self.offset)
        } else {
            None
        }
    }
}

/// Total value of the first `n` outputs.
pub open spec fn outputs_value(outputs: Seq<(String, u64)>, n: int) -> int
    decreases n,
{
    if n <= 0 {
        0
    } else {
        outputs_value(outputs, n - 1) + outputs[n - 1].1
    }
}

/// Whether `s` holds exactly the text `t`.
fn text_is(s: &String, t: &str) -> (r: bool)
    ensures
        r == (s@ == t@),
{
    *s == String::from_str(t)
}

/// Text of hex-encoded content, or the empty text where the hex does not
/// decode.
pub open spec fn decoded_or_empty(hex_text: Seq<char>) -> Seq<char> {
    match hex_bytes(encode_utf8(hex_text)) {
        Some(b) => utf8_lossy_of(b),
        None => Seq::<char>::empty(),
    }
}

/// The identifier a record keeps: the inscription's own, or, when that is
/// empty, the genesis transaction and output joined by `i`.
pub open spec fn record_id(inscription: Inscription) -> Seq<char> {
    if inscription.inscription_id@.len() == 0 {
        inscription.genesis_transaction@ + "i"@ + inscription.output@
    } else {
        inscription.inscription_id@
    }
}

/// The stored record a decoded operation makes of a genesis inscription.
pub open spec fn record_of(inscription: Inscription, ord20: Ord20, n: InscriptionsInsert) -> bool {
    &&& n.genesis_tx_id == inscription.genesis_transaction
    &&& n.genesis_address == inscription.genesis_address
    &&& n.inscription_id@ == record_id(inscription)
    &&& n.inscription_num == inscription.number
    &&& n.height == inscription.genesis_height
    &&& n.output == inscription.output
    &&& n.timestamp == match timestamp_of(inscription.timestamp@) {
        Some(t) => t,
        None => 0,
    }
    &&& n.ticker@ == lower_of(ord20.tick@)
    &&& n.action == ord20.op
    &&& n.supply == ord20.max
    &&& n.limit_mint == ord20.lim
    &&& n.decimal == ord20.dec
    &&& n.amount == ord20.amt
    &&& n.value == 0
}

/// A transfer inscription whose output has not been spent yet.
pub open spec fn pending_transfer(inscription: Inscriptions) -> bool {
    contains_text(inscription.action@, "transfer"@) && inscription.spent != Some(true)
}

/// The indexer's settings: where blocks come from and which meta-protocol
/// tag it follows.
pub struct Indexer {
    pub ordinals: Ordinals,
    pub meta_protocol: String,
}

impl Indexer {
    pub fn new(ordinals: Ordinals, meta_protocol: String) -> (r: Indexer)
        ensures
            r.ordinals == ordinals,
            r.meta_protocol == meta_protocol,
    {
        Indexer { ordinals, meta_protocol }
    }

    /// The address a transaction's inscriptions are credited to: that of
    /// its first output, or the empty text when it has none.
    pub fn transaction_address(tx: &Transaction) -> (r: String)
        ensures
            tx.output_addresses@.len() > 0 ==> r == tx.output_addresses@[0],
            tx.output_addresses@.len() == 0 ==> r@ == Seq::<char>::empty(),
    {
        if tx.output_addresses.len() > 0 {
            tx.output_addresses[0].clone()
        } else {
            String::new()
        }
    }

    /// The genesis view of an inscription revealed by `tx` in `block`: its
    /// output locator is its id with `i` written as `:`, its content type
    /// is decoded from hex.
    pub fn new_inscription(
        block: &Block,
        tx: &Transaction,
        tx_inscription: &TransactionInscription,
        address: &String,
    ) -> (r: Inscription)
        ensures
            r.number == tx_inscription.inscription_number,
            r.genesis_height == block.height,
            r.genesis_transaction == tx.transaction,
            r.inscription_id == tx_inscription.inscription_id,
            r.output@ == locator_of(tx_inscription.inscription_id@),
            r.genesis_address == *address,
            r.timestamp == block.timestamp,
            match tx_inscription.content_type {
                Some(ct) => r.content_type matches Some(t) && t@ == decoded_or_empty(ct@),
                None => r.content_type is None,
            },
    {
        let content_type: Option<String> = match &tx_inscription.content_type {
            Some(ct) => match decode_content(ct.as_str()) {
                Some(t) => Some(t),
                None => Some(String::new()),
            },
            None => None,
        };
        Inscription {
            number: tx_inscription.inscription_number,
            offset: 0,
            genesis_fee: 0,
            genesis_height: block.height as i64,
            genesis_transaction: tx.transaction.clone(),
            inscription_id: tx_inscription.inscription_id.clone(),
            output: replace_i_by_colon(tx_inscription.inscription_id.as_str()),
            location: String::new(),
            address: String::new(),
            genesis_address: address.clone(),
            content_type,
            timestamp: block.timestamp.clone(),
        }
    }

    /// Only inscriptions with a positive number and a plain text or JSON
    /// content type are decoded.
    pub fn is_token_candidate(inscription: &Inscription) -> (r: bool)
        ensures
            r == (inscription.number > 0 && (inscription.content_type matches Some(ct) && (
            contains_text(ct@, "text/plain"@) || contains_text(ct@, "application/json"@)))),
    {
        if inscription.number <= 0 {
            return false;
        }
        match &inscription.content_type {
            Some(ct) => text_contains(ct.as_str(), "text/plain") || text_contains(
                ct.as_str(),
                "application/json",
            ),
            None => false,
        }
    }

    /// The record to store for a decoded operation: `None` unless its
    /// protocol tag is the indexer's meta-protocol tag. The ticker is kept in
    /// lowercase.
    pub fn add_inscription(&self, inscription: Inscription, ord20: Ord20) -> (r: Option<
        InscriptionsInsert,
    >)
        ensures
            r is Some <==> ord20.p@ == self.meta_protocol@,
            r matches Some(n) ==> record_of(inscription, ord20, n),
    {
        if ord20.p != self.meta_protocol {
            return None;
        }
        let inscription_id = if inscription.inscription_id.as_str().is_empty() {
            inscription.genesis_transaction.clone().concat("i").concat(inscription.output.as_str())
        } else {
            inscription.inscription_id.clone()
        };
        let timestamp: i64 = match string_to_timestamp(inscription.timestamp.as_str()) {
            Some(t) => t,
            None => 0,
        };
        Some(
            InscriptionsInsert {
                genesis_tx_id: inscription.genesis_transaction,
                genesis_address: inscription.genesis_address,
                ticker: lowercase(ord20.tick.as_str()),
                action: ord20.op,
                supply: ord20.max,
                limit_mint: ord20.lim,
                decimal: ord20.dec,
                amount: ord20.amt,
                inscription_id,
                inscription_num: inscription.number,
                output: inscription.output,
                value: 0,
                height: inscription.genesis_height,
                timestamp,
            },
        )
    }

    /// The ledger step a stored inscription triggers, from the tracker of
    /// its ticker and the inscriber's balance row as they stand: a deploy
    /// creates a tracker, a mint credits the minter, a transfer request
    /// earmarks funds; anything else, or a dropped step, writes nothing.
    pub fn process_inscription(
        tracker: Option<&Tracker>,
        balance: Option<&Balances>,
        inscription: &Inscriptions,
    ) -> (r: InscriptionEffect)
        requires
            tracker matches Some(t) ==> t.wf(),
        ensures
            inscription.action@ == "deploy"@ ==> {
                &&& r is Deploy <==> tracker is None && deploy_acceptable(*inscription)
                &&& r matches InscriptionEffect::Deploy(t) ==> deploy_result(*inscription, t)
                &&& !(r is Mint || r is Transfer)
            },
            inscription.action@ == "mint"@ ==> {
                &&& r is Mint <==> (tracker matches Some(t) && mint_applies(*t, *inscription)
                    && mint_fits(*t, balance, mint_credit_of(*t, *inscription)))
                &&& r matches InscriptionEffect::Mint(o) ==> mint_result(
                    *tracker->0,
                    balance,
                    *inscription,
                    o,
                )
                &&& !(r is Deploy || r is Transfer)
            },
            inscription.action@ == "transfer"@ ==> {
                &&& r is Transfer <==> (tracker matches Some(t) && balance matches Some(b)
                    && amount_acceptable(inscription.amount, t.decimals) && (transfer_valid(
                    *b,
                    inscription.amount->0,
                    t.unit_scale as int,
                ) ==> b.transfer_balance + inscription.amount->0.units_at(t.unit_scale as int)
                    <= u128::MAX))
                &&& r matches InscriptionEffect::Transfer(o) ==> transfer_result(
                    *tracker->0,
                    *balance->0,
                    *inscription,
                    o,
                )
                &&& !(r is Deploy || r is Mint)
            },
            !(inscription.action@ == "deploy"@ || inscription.action@ == "mint"@
                || inscription.action@ == "transfer"@) ==> r is Nothing,
    {
        proof {
            reveal_strlit("deploy");
            reveal_strlit("mint");
            reveal_strlit("transfer");
            assert("mint"@.len() == 4 && "deploy"@.len() == 6 && "transfer"@.len() == 8);
        }
        if text_is(&inscription.action, "deploy") {
            match deploy(tracker, inscription) {
                Some(t) => InscriptionEffect::Deploy(t),
                None => InscriptionEffect::Nothing,
            }
        } else if text_is(&inscription.action, "mint") {
            match tracker {
                Some(t) => match mint(t, balance, inscription) {
                    Some(o) => InscriptionEffect::Mint(o),
                    None => InscriptionEffect::Nothing,
                },
                None => InscriptionEffect::Nothing,
            }
        } else if text_is(&inscription.action, "transfer") {
            match (tracker, balance) {
                (Some(t), Some(b)) => match transfer(t, b, inscription) {
                    Some(o) => InscriptionEffect::Transfer(o),
                    None => InscriptionEffect::Nothing,
                },
                _ => InscriptionEffect::Nothing,
            }
        } else {
            InscriptionEffect::Nothing
        }
    }

    /// Whether spending the output of `inscription` settles a send: it is a
    /// transfer inscription not spent before.
    pub fn is_pending_transfer(inscription: &Inscriptions) -> (r: bool)
        ensures
            r == pending_transfer(*inscription),
    {
        text_contains(inscription.action.as_str(), "transfer") && match inscription.spent {
            Some(spent) => !spent,
            None => true,
        }
    }

    /// The address a spent inscription reaches: that of output `vout`, or
    /// the genesis address when `vout` names no output.
    pub fn spend_receiver(vout: usize, tx: &Transaction, genesis_address: &String) -> (r: String)
        ensures
            vout < tx.outputs@.len() && vout < tx.output_addresses@.len() ==> r
                == tx.output_addresses@[vout as int],
            !(vout < tx.outputs@.len() && vout < tx.output_addresses@.len()) ==> r
                == *genesis_address,
    {
        if vout < tx.outputs.len() && vout < tx.output_addresses.len() {
            tx.output_addresses[vout].clone()
        } else {
            genesis_address.clone()
        }
    }

    /// Records the spend of an inscription's output, once: `None` when it
    /// is already spent.
    pub fn mark_spent(
        inscription: &Inscriptions,
        receiver: String,
        spent_tx: String,
        spent_offset: i64,
        spent_height: i64,
        spent_timestamp: i64,
    ) -> (r: Option<Inscriptions>)
        ensures
            r is Some <==> inscription.spent != Some(true),
            r matches Some(s) ==> s == (Inscriptions {
                address_sender: Some(inscription.genesis_address),
                address_receiver: Some(receiver),
                spent: Some(true),
                spent_tx: Some(spent_tx),
                spent_offset: Some(spent_offset),
                spent_height: Some(spent_height),
                spent_timestamp: Some(spent_timestamp),
                ..*inscription
            }),
    {
        if inscription.spent == Some(true) {
            return None;
        }
        Some(
            Inscriptions {
                id: inscription.id,
                genesis_tx_id: inscription.genesis_tx_id.clone(),
                genesis_address: inscription.genesis_address.clone(),
                address_sender: Some(inscription.genesis_address.clone()),
                address_receiver: Some(receiver),
                ticker: inscription.ticker.clone(),
                action: inscription.action.clone(),
                supply: inscription.supply,
                limit_mint: inscription.limit_mint,
                decimal: inscription.decimal,
                amount: inscription.amount,
                inscription_id: inscription.inscription_id.clone(),
                inscription_num: inscription.inscription_num,
                height: inscription.height,
                timestamp: inscription.timestamp,
                output: inscription.output.clone(),
                value: inscription.value,
                valid: inscription.valid,
                spent: Some(true),
                spent_tx: Some(spent_tx),
                spent_offset: Some(spent_offset),
                spent_height: Some(spent_height),
                spent_timestamp: Some(spent_timestamp),
            },
        )
    }

    /// Index of the output that receives the inscription at the start of
    /// input `input_index`, `ordinal_offset` being the value of the inputs
    /// before it: 0 for the first input, else the first output whose
    /// running total exceeds the offset, or the number of outputs when none
    /// does.
    pub fn calculate_ordinal_position(
        input_index: usize,
        ordinal_offset: u64,
        outputs: &Vec<(String, u64)>,
    ) -> (r: usize)
        ensures
            input_index == 0 ==> r == 0,
            input_index > 0 ==> {
                &&& r <= outputs@.len()
                &&& forall|j: int|
                    0 < j <= r ==> #[trigger] outputs_value(outputs@, j) <= ordinal_offset
                &&& r < outputs@.len() ==> outputs_value(outputs@, r + 1) > ordinal_offset
            },
    {
        if input_index == 0 {
            return 0;
        }
        let mut output_index: usize = 0;
        let mut output_count: u128 = 0;
        while output_index < outputs.len()
            invariant
                input_index > 0,
                output_index <= outputs@.len(),
                output_count == outputs_value(outputs@, output_index as int),
                output_count <= ordinal_offset,
                forall|j: int|
                    0 < j <= output_index ==> #[trigger] outputs_value(outputs@, j)
                        <= ordinal_offset,
            decreases outputs@.len() - output_index,
        {
            output_count = output_count + outputs[output_index].1 as u128;
            if output_count > ordinal_offset as u128 {
                return output_index;
            }
            output_index = output_index + 1;
        }
        output_index
    }
}

} // verus!
