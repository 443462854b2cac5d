//! Records supplied by the block data source.

use vstd::prelude::*;

verus! {

/// A page of inscription links.
#[derive(Clone, Debug)]
pub struct Inscriptions {
    pub inscriptions: Vec<InscriptionItem>,
}

#[derive(Clone, Debug)]
pub struct InscriptionItem {
    pub href: String,
}

/// An inscription as the indexer sees it at genesis.
#[derive(Clone, Debug)]
pub struct Inscription {
    pub number: i64,
    pub offset: i64,
    pub genesis_fee: i64,
    pub genesis_height: i64,
    pub genesis_transaction: String,
    pub inscription_id: String,
    pub output: String,
    pub location: String,
    pub address: String,
    pub genesis_address: String,
    pub content_type: Option<String>,
    pub timestamp: String,
}

/// An inscription carried by a transaction; content type and content are
/// hex encoded.
#[derive(Clone, Debug)]
pub struct TransactionInscription {
    pub inscription_id: String,
    pub inscription_number: i64,
    pub content_type: Option<String>,
    pub content: Option<String>,
}

/// A transaction: inputs as (outpoint, value), outputs as (script, value),
/// the address of each output, and the inscriptions it reveals.
#[derive(Clone, Debug)]
pub struct Transaction {
    pub transaction: String,
    pub inputs: Vec<(String, u64)>,
    pub outputs: Vec<(String, u64)>,
    pub output_addresses: Vec<String>,
    pub inscriptions: Vec<TransactionInscription>,
}

#[derive(Clone, Debug)]
pub struct Block {
    pub hash: String,
    pub height: i32,
    pub previous_blockhash: String,
    pub size: i32,
    pub target: String,
    pub timestamp: String,
    pub transactions: Vec<Transaction>,
    pub weight: i32,
}

/// A transaction output looked up by outpoint.
#[derive(Clone, Debug)]
pub struct Output {
    pub address: String,
    pub transaction: String,
    pub value: u64,
}

/// Where the block data source is reached.
#[derive(Clone, Debug)]
pub struct Ordinals {
    base_url: String,
}

impl Ordinals {
    pub closed spec fn spec_base_url(&self) -> Seq<char> {
        self.base_url@
    }

    pub fn new(base_url: String) -> (r: Self)
        ensures
            r.spec_base_url() == base_url@,
    {
        Ordinals { base_url }
    }

    pub fn base_url(&self) -> (r: &str)
        ensures
            r@ == self.spec_base_url(),
    {
        self.base_url.as_str()
    }
}

} // verus!
