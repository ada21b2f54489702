//! The two datasets as values.

use vstd::prelude::*;
use std::collections::HashMap;
use crate::ids::{item_id, parse_item_id};

verus! {

/// One tradable item: its id, by which prices are found, and its name.
#[derive(Clone, Debug)]
pub struct ItemMapping {
    pub id: u32,
    pub name: String,
}

/// The latest prices of one item. A price that is absent means that no
/// trade of that kind was seen lately; it does not mean zero.
#[derive(Clone, Copy, Debug)]
pub struct PriceResult {
    pub high: Option<u32>,
    pub low: Option<u32>,
}

/// The price table: prices by item id.
#[derive(Clone, Debug)]
pub struct PriceResults {
    pub data: HashMap<u32, PriceResult>,
}

/// The table that a list of prices under spelled-out ids stands for, if
/// every key spells an id. Where two keys spell the same id the later entry
/// stays.
pub open spec fn keyed_prices(entries: Seq<(String, PriceResult)>) -> Option<Map<u32, PriceResult>>
    decreases entries.len(),
{
    if entries.len() == 0 {
        Some(Map::empty())
    } else {
        match (keyed_prices(entries.drop_last()), item_id(entries.last().0@)) {
            (Some(table), Some(id)) => Some(table.insert(id, entries.last().1)),
            _ => None,
        }
    }
}

/// A list with a beginning that stands for no table stands for none.
pub proof fn lemma_keyed_prices_fails_on(entries: Seq<(String, PriceResult)>, upto: int)
    requires
        0 <= upto <= entries.len(),
        keyed_prices(entries.take(upto)) is None,
    ensures
        keyed_prices(entries) is None,
    decreases entries.len() - upto,
{
    if upto == entries.len() {
        assert(entries.take(upto) =~= entries);
    } else {
        assert(entries.take(upto + 1).drop_last() =~= entries.take(upto));
        lemma_keyed_prices_fails_on(entries, upto + 1);
    }
}

impl PriceResults {
    /// The prices of the item `id`, if the table holds any.
    pub fn get(&self, id: u32) -> (price: Option<&PriceResult>)
        ensures
            match price {
                Some(price) => self.data@.contains_key(id) && *price == self.data@[id],
                None => !self.data@.contains_key(id),
            },
    {
        broadcast use vstd::std_specs::hash::group_hash_axioms;

        self.data.get(&id)
    }

    /// Builds the table from prices listed under ids as the remote service
    /// spells them, in decimal; `None` where a key spells no id.
    pub fn from_keyed(entries: &[(String, PriceResult)]) -> (table: Option<PriceResults>)
        ensures
            match table {
                Some(table) => keyed_prices(entries@) == Some(table.data@),
                None => keyed_prices(entries@) is None,
            },
    {
        broadcast use vstd::std_specs::hash::group_hash_axioms;

        let mut data: HashMap<u32, PriceResult> = HashMap::new();
        let mut i: usize = 0;
        assert(entries@.take(0) =~= Seq::empty());
        while i < entries.len()
            invariant
                i <= entries.len(),
                keyed_prices(entries@.take(i as int)) == Some(data@),
            decreases entries.len() - i,
        {
            assert(entries@.take(i + 1).drop_last() =~= entries@.take(i as int));
            let entry = &entries[i];
            match parse_item_id(entry.0.as_str()) {
                Some(id) => {
                    data.insert(id, entry.1);
                },
                None => {
                    proof {
                        lemma_keyed_prices_fails_on(entries@, i + 1);
                    }
                    return None;
                },
            }
            i += 1;
        }
        assert(entries@.take(i as int) =~= entries@);
        Some(PriceResults { data })
    }
}

} // verus!
