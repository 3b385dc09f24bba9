//! The trader's reference prices: for each card that is traded, the highest
//! price that is still acceptable.
//!
//! The table is read once, from a file of two columns without a header: the
//! English name of a card, then its reference price. A row that cannot be
//! read, or that names no card, makes the whole table fail: no table is made
//! of the rows that could be read.

use crate::decimal::{read_decimal, Decimal, NumericError};
use crate::nft::{get_card_by_name, resolve_name, NftCardMap};
use std::collections::HashMap;
use vstd::prelude::*;
use vstd::string::*;

verus! {

broadcast use vstd::std_specs::hash::group_hash_axioms;

/// Why the table of reference prices could not be made.
#[derive(Debug, Clone, Copy, PartialEq, Eq, Structural)]
pub enum ConfigError {
    /// The text is no table of comma-separated values.
    NotATable,
    /// Row `row`, counted from zero, does not have two columns.
    Columns { row: usize },
    /// Row `row` names no card of the catalog.
    UnknownName { row: usize },
    /// The price in row `row` is no amount.
    BadPrice { row: usize, error: NumericError },
    /// The catalog of cards has not been filled.
    CatalogNotReady,
}

/// What one row of the file says: a card's number and its reference price.
/// With a catalog that is not filled, no name stands for a card.
pub open spec fn row_entry(row: Seq<Seq<char>>, row_number: usize, ready: bool) -> Result<
    (u32, Decimal),
    ConfigError,
> {
    if row.len() != 2 {
        Err(ConfigError::Columns { row: row_number })
    } else if !ready || resolve_name(row[0]) is None {
        Err(ConfigError::UnknownName { row: row_number })
    } else {
        match read_decimal(row[1]) {
            Ok(price) => Ok((resolve_name(row[0])->0.wire_code(), price)),
            Err(error) => Err(ConfigError::BadPrice { row: row_number, error }),
        }
    }
}

/// The table that the rows make, or the fault of the first row that has one.
/// Where two rows name the same card, the later row counts.
pub open spec fn table_of(rows: Seq<Seq<Seq<char>>>, ready: bool) -> Result<
    Map<u32, Decimal>,
    ConfigError,
>
    decreases rows.len(),
{
    if rows.len() == 0 {
        Ok(Map::empty())
    } else {
        match table_of(rows.drop_last(), ready) {
            Err(e) => Err(e),
            Ok(table) => match row_entry(rows.last(), (rows.len() - 1) as usize, ready) {
                Err(e) => Err(e),
                Ok((id, price)) => Ok(table.insert(id, price)),
            },
        }
    }
}

/// A row with a fault makes the whole table fail: no table is made of the
/// other rows.
pub proof fn lemma_faulty_row_fails(rows: Seq<Seq<Seq<char>>>, ready: bool, i: int)
    requires
        0 <= i < rows.len(),
        row_entry(rows[i], i as usize, ready) is Err,
    ensures
        table_of(rows, ready) is Err,
    decreases rows.len(),
{
    if i < rows.len() - 1 {
        assert(rows.drop_last()[i] == rows[i]);
        lemma_faulty_row_fails(rows.drop_last(), ready, i);
    }
}

/// A name that stands for no card makes the whole table fail.
pub proof fn lemma_unknown_name_fails(rows: Seq<Seq<Seq<char>>>, ready: bool, i: int)
    requires
        0 <= i < rows.len(),
        rows[i].len() == 2,
        resolve_name(rows[i][0]) is None,
    ensures
        table_of(rows, ready) is Err,
{
    lemma_faulty_row_fails(rows, ready, i);
}

/// The reference prices, by the number of the card.
#[derive(Debug)]
pub struct PriceTable {
    prices: HashMap<u32, Decimal>,
}

impl View for PriceTable {
    type V = Map<u32, Decimal>;

    closed spec fn view(&self) -> Map<u32, Decimal> {
        self.prices@
    }
}

impl PriceTable {
    /// The table without any price.
    pub fn new() -> (table: PriceTable)
        ensures
            table@ == Map::<u32, Decimal>::empty(),
    {
        PriceTable { prices: HashMap::new() }
    }

    /// Sets the reference price of card `item_id`.
    pub fn insert(&mut self, item_id: u32, price: Decimal)
        ensures
            final(self)@ == old(self)@.insert(item_id, price),
    {
        self.prices.insert(item_id, price);
    }

    /// The reference price of card `item_id`: `None` exactly when the table
    /// has none for it, which means that the card is not traded.
    pub fn get(&self, item_id: u32) -> (price: Option<Decimal>)
        ensures
            price == if self@.contains_key(item_id) {
                Some(self@[item_id])
            } else {
                None::<Decimal>
            },
    {
        match self.prices.get(&item_id) {
            Some(price) => Some(*price),
            None => None,
        }
    }

    /// How many cards have a reference price.
    pub fn len(&self) -> (n: usize)
        ensures
            n == self@.len(),
    {
        self.prices.len()
    }

    /// Makes the table from the rows of the file.
    ///
    /// Each row holds the English name of a card and its reference price. The
    /// first row that has another number of columns, names no card of
    /// `catalog`, or holds a price that is no amount makes the whole table
    /// fail.
    pub fn load(rows: &Vec<Vec<String>>, catalog: &NftCardMap) -> (loaded: Result<
        PriceTable,
        ConfigError,
    >)
        ensures
            match (loaded, table_of(rows.deep_view(), catalog.ready())) {
                (Ok(table), Ok(expected)) => table@ == expected,
                (Err(e), Err(expected)) => e == expected,
                _ => false,
            },
    {
        let ghost all = rows.deep_view();
        let ghost ready = catalog.ready();
        let mut table = PriceTable::new();
        let mut i: usize = 0;
        while i < rows.len()
            invariant
                i <= rows@.len(),
                all == rows.deep_view(),
                ready == catalog.ready(),
                table_of(all.take(i as int), ready) == Ok::<Map<u32, Decimal>, ConfigError>(table@),
            decreases rows@.len() - i,
        {
            let row = &rows[i];
            proof {
                assert(all.take(i as int + 1).drop_last() =~= all.take(i as int));
                assert(all.take(i as int + 1).last() == all[i as int]);
                assert(all[i as int] == row.deep_view());
                assert(row.deep_view().len() == row@.len());
                if row@.len() == 2 {
                    assert(row.deep_view()[0] == row@[0]@);
                    assert(row.deep_view()[1] == row@[1]@);
                }
            }
            if row.len() != 2 {
                proof {
                    lemma_faulty_prefix(all, ready, i as int + 1);
                }
                return Err(ConfigError::Columns { row: i });
            }
            let id = match get_card_by_name(catalog, row[0].as_str()) {
                Some(card) => card.value,
                None => {
                    proof {
                        lemma_faulty_prefix(all, ready, i as int + 1);
                    }
                    return Err(ConfigError::UnknownName { row: i });
                },
            };
            let price = match Decimal::parse(row[1].as_str()) {
                Ok(price) => price,
                Err(error) => {
                    proof {
                        lemma_faulty_prefix(all, ready, i as int + 1);
                    }
                    return Err(ConfigError::BadPrice { row: i, error });
                },
            };
            table.insert(id, price);
            i += 1;
        }
        assert(all.take(rows@.len() as int) =~= all);
        Ok(table)
    }
}

/// A fault among the first `k` rows is the fault of the whole table.
proof fn lemma_faulty_prefix(rows: Seq<Seq<Seq<char>>>, ready: bool, k: int)
    requires
        0 <= k <= rows.len(),
        table_of(rows.take(k), ready) is Err,
    ensures
        table_of(rows, ready) == table_of(rows.take(k), ready),
    decreases rows.len() - k,
{
    if k < rows.len() {
        assert(rows.take(k + 1).drop_last() =~= rows.take(k));
        lemma_faulty_prefix(rows, ready, k + 1);
    } else {
        assert(rows.take(k) =~= rows);
    }
}

/// The rows of a text of comma-separated values without a header, each row as
/// its fields; `None` where the text is no such table.
pub uninterp spec fn csv_records(text: Seq<char>) -> Option<Seq<Seq<Seq<char>>>>;

/// Splits a text of comma-separated values into its rows and fields, with
/// `csv::Reader::records`, on a reader that `csv::ReaderBuilder` made without
/// a header row. The rows are what the `csv` crate reads from this text, and
/// `None` comes exactly when it reads none.
#[verifier::external_body]
fn read_records(text: &str) -> (records: Option<Vec<Vec<String>>>)
    ensures
        match records {
            Some(rows) => csv_records(text@) == Some(rows.deep_view()),
            None => csv_records(text@) is None,
        },
{
    let mut reader = csv::ReaderBuilder::new().has_headers(false).from_reader(text.as_bytes());
    let mut rows: Vec<Vec<String>> = Vec::new();
    for record in reader.records() {
        rows.push(record.ok()?.iter().map(|field| field.to_string()).collect());
    }
    Some(rows)
}

/// Reads the table of reference prices from the text of the file.
pub fn read_csv(text: &str, catalog: &NftCardMap) -> (loaded: Result<PriceTable, ConfigError>)
    ensures
        match csv_records(text@) {
            Some(rows) => match (loaded, table_of(rows, catalog.ready())) {
                (Ok(table), Ok(expected)) => table@ == expected,
                (Err(e), Err(expected)) => e == expected,
                _ => false,
            },
            None => loaded is Err && loaded->Err_0 == ConfigError::NotATable,
        },
{
    match read_records(text) {
        Some(rows) => PriceTable::load(&rows, catalog),
        None => Err(ConfigError::NotATable),
    }
}

} // verus!
