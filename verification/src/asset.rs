use vstd::prelude::*;
use crate::error::Error;

verus! {

/// The position at which `symbol` stands in `universe`; where a symbol is
/// listed more than once, the last listing counts.
pub open spec fn index_in(universe: Seq<Seq<char>>, symbol: Seq<char>) -> Option<int>
    decreases universe.len(),
{
    if universe.len() == 0 {
        None
    } else if universe.last() == symbol {
        Some(universe.len() - 1)
    } else {
        index_in(universe.drop_last(), symbol)
    }
}

/// No symbol is listed twice.
pub open spec fn distinct_symbols(universe: Seq<Seq<char>>) -> bool {
    forall|i: int, j: int|
        0 <= i < universe.len() && 0 <= j < universe.len() && i != j ==> universe[i]
            != universe[j]
}

/// The instrument universe of an exchange: each symbol's index is its
/// position in the published list.
pub struct AssetIndex {
    pub symbols: Vec<String>,
}

impl AssetIndex {
    /// The symbols in universe order.
    pub open spec fn universe(&self) -> Seq<Seq<char>> {
        Seq::new(self.symbols@.len(), |i: int| self.symbols@[i]@)
    }

    /// Every index fits the wire type.
    pub open spec fn wf(&self) -> bool {
        self.symbols@.len() <= u32::MAX
    }

    /// The index that `resolve` gives for `symbol`, if any.
    pub open spec fn index_of(&self, symbol: Seq<char>) -> Option<int> {
        index_in(self.universe(), symbol)
    }

    /// Builds the index from the ordered instrument universe.
    pub fn new(symbols: Vec<String>) -> (res: AssetIndex)
        requires
            symbols@.len() <= u32::MAX,
        ensures
            res.wf(),
            res.symbols == symbols,
            res.universe() == Seq::new(symbols@.len(), |i: int| symbols@[i]@),
    {
        AssetIndex { symbols }
    }

    /// The number of instruments.
    pub fn len(&self) -> (n: usize)
        ensures
            n == self.universe().len(),
    {
        self.symbols.len()
    }

    /// The index of `symbol`, or `AssetNotFound` where the universe does not list it.
    pub fn resolve(&self, symbol: &str) -> (res: Result<u32, Error>)
        requires
            self.wf(),
        ensures
            match res {
                Ok(i) => self.index_of(symbol@) == Some(i as int),
                Err(e) => e == Error::AssetNotFound && self.index_of(symbol@).is_none(),
            },
            res.is_ok() <==> self.universe().contains(symbol@),
    {
        let wanted: String = symbol.to_owned();
        let mut i: usize = self.symbols.len();
        proof {
            assert(self.universe().take(i as int) =~= self.universe());
            lemma_index_in_bounds(self.universe(), symbol@);
        }
        while i > 0
            invariant
                self.wf(),
                i <= self.symbols@.len(),
                wanted@ == symbol@,
                index_in(self.universe(), symbol@) == index_in(
                    self.universe().take(i as int),
                    symbol@,
                ),
            decreases i,
        {
            let ghost prefix = self.universe().take(i as int);
            assert(prefix.last() == self.symbols@[i - 1]@);
            assert(prefix.drop_last() =~= self.universe().take(i - 1));
            i = i - 1;
            if self.symbols[i] == wanted {
                return Ok(i as u32);
            }
        }
        Err(Error::AssetNotFound)
    }
}

/// What `index_in` finds is a listing of the symbol, the last one, and it
/// finds one exactly where the symbol is listed.
pub proof fn lemma_index_in_bounds(universe: Seq<Seq<char>>, symbol: Seq<char>)
    ensures
        match index_in(universe, symbol) {
            Some(i) => 0 <= i < universe.len() && universe[i] == symbol && forall|j: int|
                i < j < universe.len() ==> universe[j] != symbol,
            None => !universe.contains(symbol),
        },
        index_in(universe, symbol).is_some() <==> universe.contains(symbol),
    decreases universe.len(),
{
    if universe.len() == 0 {
    } else if universe.last() == symbol {
        assert(universe[universe.len() - 1] == symbol);
    } else {
        let front = universe.drop_last();
        lemma_index_in_bounds(front, symbol);
        match index_in(front, symbol) {
            Some(i) => {
                assert(front[i] == universe[i]);
                assert forall|j: int| i < j < universe.len() implies universe[j] != symbol by {
                    if j < front.len() {
                        assert(front[j] == universe[j]);
                    }
                }
                assert(universe.contains(symbol));
            },
            None => {
                assert forall|j: int| 0 <= j < universe.len() implies universe[j] != symbol by {
                    if j < front.len() {
                        assert(front[j] == universe[j]);
                        assert(front.contains(front[j]));
                    }
                }
            },
        }
    }
}

/// Over a universe without repeated symbols, resolution is a bijection
/// between the listed symbols and the positions `0..n`: the symbol at
/// position `i` resolves to `i`, every resolved index is a position whose
/// symbol is the one asked for, two symbols with one index are the same
/// symbol, and a symbol that is not listed resolves to nothing.
pub proof fn lemma_resolve_bijection(universe: Seq<Seq<char>>)
    requires
        distinct_symbols(universe),
    ensures
        forall|i: int| 0 <= i < universe.len() ==> #[trigger] index_in(universe, universe[i]) == Some(i),
        forall|s: Seq<char>| #[trigger]
            index_in(universe, s).is_some() ==> 0 <= index_in(universe, s).unwrap()
                < universe.len() && universe[index_in(universe, s).unwrap()] == s,
        forall|s: Seq<char>, t: Seq<char>|
            index_in(universe, s).is_some() && #[trigger] index_in(universe, s) == #[trigger] index_in(universe, t)
                ==> s == t,
        forall|s: Seq<char>| !universe.contains(s) ==> #[trigger] index_in(universe, s).is_none(),
{
    assert forall|i: int| 0 <= i < universe.len() implies #[trigger] index_in(
        universe,
        universe[i],
    ) == Some(i) by {
        lemma_index_in_bounds(universe, universe[i]);
        assert(universe.contains(universe[i]));
    }
    assert forall|s: Seq<char>| #[trigger] index_in(universe, s).is_some() implies 0 <= index_in(
        universe,
        s,
    ).unwrap() < universe.len() && universe[index_in(universe, s).unwrap()] == s by {
        lemma_index_in_bounds(universe, s);
    }
    assert forall|s: Seq<char>, t: Seq<char>|
        index_in(universe, s).is_some() && #[trigger] index_in(universe, s) == #[trigger] index_in(
            universe,
            t,
        ) implies s == t by {
        lemma_index_in_bounds(universe, s);
        lemma_index_in_bounds(universe, t);
    }
    assert forall|s: Seq<char>| !universe.contains(s) implies #[trigger] index_in(
        universe,
        s,
    ).is_none() by {
        lemma_index_in_bounds(universe, s);
    }
}

} // verus!
