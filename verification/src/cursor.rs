//! How far each contract's transactions have been read.

use crate::contract::WatchedContract;
use vstd::hash_map::StringHashMap;
use vstd::prelude::*;

verus! {

/// The paging token of the last transaction seen of each contract, by contract
/// address.
pub struct Cursors {
    tokens: StringHashMap<String>,
}

impl View for Cursors {
    type V = Map<Seq<char>, Seq<char>>;

    closed spec fn view(&self) -> Map<Seq<char>, Seq<char>> {
        self.tokens@.map_values(|token: String| token@)
    }
}

/// The cursor that stands for the present: only what comes after it is read.
pub open spec fn now() -> Seq<char> {
    "now"@
}

/// The cursor of `contract_id` among `cursors`; the present, where there is
/// none.
pub open spec fn cursor_of(cursors: Map<Seq<char>, Seq<char>>, contract_id: Seq<char>) -> Seq<
    char,
> {
    if cursors.contains_key(contract_id) {
        cursors[contract_id]
    } else {
        now()
    }
}

/// One of `contracts` has the address `id`.
pub open spec fn watches(contracts: Seq<WatchedContract>, id: Seq<char>) -> bool {
    exists|i: int| 0 <= i < contracts.len() && (#[trigger] contracts[i]).contract_id@ == id
}

/// A cursor at the present for every contract.
pub open spec fn fresh_cursors(contracts: Seq<WatchedContract>) -> Map<Seq<char>, Seq<char>> {
    Map::new(|id: Seq<char>| watches(contracts, id), |id: Seq<char>| now())
}

impl Cursors {
    /// Cursors for a watch that begins: every contract is read from the present
    /// on.
    pub fn starting_now(contracts: &Vec<WatchedContract>) -> (cursors: Cursors)
        ensures
            cursors@ == fresh_cursors(contracts@),
    {
        let mut cursors = Cursors { tokens: StringHashMap::new() };
        let mut i: usize = 0;
        assert(cursors@ =~= fresh_cursors(contracts@.take(0)));
        while i < contracts.len()
            invariant
                i <= contracts.len(),
                cursors@ == fresh_cursors(contracts@.take(i as int)),
            decreases contracts.len() - i,
        {
            cursors.advance(contracts[i].contract_id.as_str(), "now");
            proof {
                let before = contracts@.take(i as int);
                let after = contracts@.take(i + 1);
                let here = contracts@[i as int].contract_id@;
                assert(after[i as int].contract_id@ == here);
                assert forall|id: Seq<char>| watches(after, id) == (watches(before, id) || id
                    == here) by {
                    if watches(after, id) {
                        let j = choose|j: int|
                            0 <= j < after.len() && (#[trigger] after[j]).contract_id@ == id;
                        assert(j == i || before[j].contract_id@ == id);
                    }
                    if watches(before, id) {
                        let j = choose|j: int|
                            0 <= j < before.len() && (#[trigger] before[j]).contract_id@ == id;
                        assert(after[j].contract_id@ == id);
                    }
                }
                assert(cursors@ =~= fresh_cursors(after));
            }
            i += 1;
        }
        assert(contracts@.take(i as int) =~= contracts@);
        cursors
    }

    /// Where to read on from for `contract_id`.
    pub fn get(&self, contract_id: &str) -> (cursor: String)
        ensures
            cursor@ == cursor_of(self@, contract_id@),
    {
        match self.tokens.get(contract_id) {
            Some(token) => token.clone(),
            None => "now".to_owned(),
        }
    }

    /// Notes that `contract_id` has been read up to `paging_token`.
    pub fn advance(&mut self, contract_id: &str, paging_token: &str)
        ensures
            final(self)@ == old(self)@.insert(contract_id@, paging_token@),
    {
        self.tokens.insert(contract_id.to_owned(), paging_token.to_owned());
        assert(self@ =~= old(self)@.insert(contract_id@, paging_token@));
    }
}

} // verus!
