//! Stock endpoints: list stock levels, apply a batch of stock deltas, and
//! read one product's ordered change history. A batch is applied in order
//! and atomically: if any delta names a missing product or would leave the
//! `u64` range, nothing changes and the delta's error is returned.

use vstd::prelude::*;

use crate::auth::{gate, Floor};
use crate::errors::MyError;
use crate::lookup::{find_stock, has_stock, stock_index};
use crate::products::same_auth;
use crate::types::{stocks_unique, AddStocks, Db, ProductStockHistory, Stock, StockHistory, StockVar};

verus! {

/// Apply one delta: the product must have a stock row and the new quantity
/// must stay within `u64`.
pub open spec fn apply_one(stocks: Seq<Stock>, c: StockVar) -> Result<Seq<Stock>, MyError> {
    if !has_stock(stocks, c.id) {
        Result::Err(MyError::NotFoundError)
    } else {
        let i = stock_index(stocks, c.id);
        let q = stocks[i].quantity as int + c.variation as int;
        if 0 <= q <= u64::MAX as int {
            Result::Ok(stocks.update(i, Stock { product_id: c.id, quantity: q as u64 }))
        } else {
            Result::Err(MyError::ConstraintError)
        }
    }
}

/// Apply a batch of deltas in order, stopping at the first failure.
pub open spec fn apply_changes(stocks: Seq<Stock>, changes: Seq<StockVar>) -> Result<
    Seq<Stock>,
    MyError,
>
    decreases changes.len(),
{
    if changes.len() == 0 {
        Result::Ok(stocks)
    } else {
        match apply_one(stocks, changes[0]) {
            Result::Ok(s2) => apply_changes(s2, changes.drop_first()),
            Result::Err(e) => Result::Err(e),
        }
    }
}

/// The history entries a batch of deltas appends, in order.
pub open spec fn history_entries(changes: Seq<StockVar>) -> Seq<StockHistory> {
    changes.map_values(|c: StockVar| StockHistory { product_id: c.id, variation: c.variation })
}

/// Appending one delta to a batch applies it after the batch.
proof fn lemma_apply_changes_snoc(stocks: Seq<Stock>, changes: Seq<StockVar>, c: StockVar)
    ensures
        apply_changes(stocks, changes.push(c)) == (match apply_changes(stocks, changes) {
            Result::Ok(s2) => apply_one(s2, c),
            Result::Err(e) => Result::Err(e),
        }),
    decreases changes.len(),
{
    reveal_with_fuel(apply_changes, 3);
    if changes.len() == 0 {
        assert(changes.push(c)[0] == c);
        assert(changes.push(c).drop_first() =~= Seq::<StockVar>::empty());
    } else {
        assert(changes.push(c).len() == changes.len() + 1);
        assert(changes.push(c)[0] == changes[0]);
        assert(changes.push(c).drop_first() =~= changes.drop_first().push(c));
        match apply_one(stocks, changes[0]) {
            Result::Ok(s2) => {
                lemma_apply_changes_snoc(s2, changes.drop_first(), c);
                assert(apply_changes(stocks, changes.push(c)) == apply_changes(
                    s2,
                    changes.drop_first().push(c),
                ));
                assert(apply_changes(stocks, changes) == apply_changes(s2, changes.drop_first()));
            },
            Result::Err(e) => {
                assert(apply_changes(stocks, changes.push(c)) == Result::<
                    Seq<Stock>,
                    MyError,
                >::Err(e));
                assert(apply_changes(stocks, changes) == Result::<Seq<Stock>, MyError>::Err(e));
            },
        }
    }
}

/// Once a prefix of the batch fails, the whole batch fails the same way.
proof fn lemma_apply_changes_prefix_err(stocks: Seq<Stock>, changes: Seq<StockVar>, k: int)
    requires
        0 <= k <= changes.len(),
        apply_changes(stocks, changes.subrange(0, k)) is Err,
    ensures
        apply_changes(stocks, changes) == apply_changes(stocks, changes.subrange(0, k)),
    decreases changes.len(),
{
    if k == 0 {
        assert(changes.subrange(0, 0) =~= Seq::<StockVar>::empty());
    } else {
        assert(changes.subrange(0, k)[0] == changes[0]);
        assert(changes.subrange(0, k).drop_first() =~= changes.drop_first().subrange(0, k - 1));
        match apply_one(stocks, changes[0]) {
            Result::Ok(s2) => {
                lemma_apply_changes_prefix_err(s2, changes.drop_first(), k - 1);
            },
            Result::Err(_) => {},
        }
    }
}

impl Db {
    /// List the stock level of every product. Any authenticated role may
    /// read.
    pub fn get_stocks(&self, token: u64) -> (r: Result<&Vec<Stock>, MyError>)
        requires
            self.wf(),
        ensures
            match gate(self.role_of(token), Floor::AnyRole) {
                Option::Some(e) => r matches Err(x) && x == e,
                Option::None => r matches Ok(v) && v@ == self.data.stocks@,
            },
    {
        if let Some(e) = self.gate_check(token, Floor::AnyRole) {
            return Err(e);
        }
        Ok(&self.data.stocks)
    }

    /// Apply a batch of stock deltas in order and log each one in the
    /// history. The batch is atomic: a failing delta leaves the store
    /// untouched. Guests may not write.
    pub fn var_stock(&mut self, stocks_var: &AddStocks) -> (r: Result<&'static str, MyError>)
        requires
            old(self).wf(),
        ensures
            final(self).wf(),
            same_auth(*old(self), *final(self)),
            match gate(old(self).role_of(stocks_var.token), Floor::NonGuest) {
                Option::Some(e) => r matches Err(x) && x == e && *final(self) == *old(self),
                Option::None => match apply_changes(old(self).data.stocks@, stocks_var.stocks@) {
                    Result::Err(e) => r matches Err(x) && x == e && *final(self) == *old(self),
                    Result::Ok(s2) => r matches Ok(m) && m@ == "stock changed"@ && final(self).data.stocks@ == s2 && final(self).data.history@ == old(self).data.history@
                        + history_entries(stocks_var.stocks@) && final(self).data
                        == crate::types::Dataset {
                        stocks: final(self).data.stocks,
                        history: final(self).data.history,
                        ..old(self).data
                    },
                },
            },
    {
        if let Some(e) = self.gate_check(stocks_var.token, Floor::NonGuest) {
            return Err(e);
        }
        let ghost orig = self.data.stocks@;
        // work on a copy so that a failing delta leaves the store untouched
        let mut work: Vec<Stock> = Vec::new();
        let mut i: usize = 0;
        while i < self.data.stocks.len()
            invariant
                i <= self.data.stocks@.len(),
                work@ == self.data.stocks@.subrange(0, i as int),
                *self == *old(self),
                old(self).wf(),
                orig == old(self).data.stocks@,
                gate(old(self).role_of(stocks_var.token), Floor::NonGuest) is None,
            decreases self.data.stocks@.len() - i,
        {
            work.push(self.data.stocks[i]);
            proof {
                assert(work@ =~= self.data.stocks@.subrange(0, i + 1 as int));
            }
            i += 1;
        }
        proof {
            assert(work@ =~= orig);
        }
        let mut i: usize = 0;
        while i < stocks_var.stocks.len()
            invariant
                i <= stocks_var.stocks@.len(),
                *self == *old(self),
                old(self).wf(),
                gate(old(self).role_of(stocks_var.token), Floor::NonGuest) is None,
                orig == old(self).data.stocks@,
                apply_changes(orig, stocks_var.stocks@.subrange(0, i as int)) == Result::<
                    Seq<Stock>,
                    MyError,
                >::Ok(work@),
                work@.len() == orig.len(),
                forall|k: int|
                    0 <= k < work@.len() ==> (#[trigger] work@[k]).product_id == orig[k].product_id,
            decreases stocks_var.stocks@.len() - i,
        {
            let c = stocks_var.stocks[i];
            proof {
                lemma_apply_changes_snoc(orig, stocks_var.stocks@.subrange(0, i as int), c);
                assert(stocks_var.stocks@.subrange(0, i + 1 as int) =~= stocks_var.stocks@.subrange(
                    0,
                    i as int,
                ).push(c));
                assert(stocks_unique(work@));
            }
            let j = match find_stock(&work, c.id) {
                Some(j) => j,
                None => {
                    proof {
                        lemma_apply_changes_prefix_err(orig, stocks_var.stocks@, i + 1 as int);
                    }
                    return Err(MyError::NotFoundError);
                },
            };
            let q: i128 = work[j].quantity as i128 + c.variation as i128;
            if q < 0 || q > u64::MAX as i128 {
                proof {
                    lemma_apply_changes_prefix_err(orig, stocks_var.stocks@, i + 1 as int);
                }
                return Err(MyError::ConstraintError);
            }
            let ghost prework = work@;
            work[j].quantity = q as u64;
            proof {
                assert(work@[j as int].product_id == c.id);
                assert(work@ =~= prework.update(
                    j as int,
                    Stock { product_id: c.id, quantity: q as u64 },
                ));
            }
            i += 1;
        }
        proof {
            assert(stocks_var.stocks@.subrange(0, stocks_var.stocks@.len() as int)
                =~= stocks_var.stocks@);
            assert forall|a: int, b: int| 0 <= a < b < work@.len() implies (
            #[trigger] work@[a]).product_id != (#[trigger] work@[b]).product_id by {
                assert(work@[a].product_id == orig[a].product_id);
                assert(work@[b].product_id == orig[b].product_id);
            }
            assert forall|k: int| 0 <= k < work@.len() implies (#[trigger] work@[k]).product_id
                < old(self).data.next_product_id by {
                assert(work@[k].product_id == orig[k].product_id);
            }
        }
        self.data.stocks = work;
        let ghost mid = *self;
        let mut i: usize = 0;
        while i < stocks_var.stocks.len()
            invariant
                i <= stocks_var.stocks@.len(),
                gate(old(self).role_of(stocks_var.token), Floor::NonGuest) is None,
                old(self).wf(),
                apply_changes(old(self).data.stocks@, stocks_var.stocks@) == Result::<
                    Seq<Stock>,
                    MyError,
                >::Ok(mid.data.stocks@),
                same_auth(*old(self), mid),
                mid.data == (crate::types::Dataset {
                    stocks: mid.data.stocks,
                    ..old(self).data
                }),
                mid.wf(),
                self.users == mid.users,
                self.sessions == mid.sessions,
                self.next_token == mid.next_token,
                self.data == (crate::types::Dataset { history: self.data.history, ..mid.data }),
                self.data.history@ == mid.data.history@ + history_entries(
                    stocks_var.stocks@.subrange(0, i as int),
                ),
            decreases stocks_var.stocks@.len() - i,
        {
            let c = stocks_var.stocks[i];
            self.data.history.push(StockHistory { product_id: c.id, variation: c.variation });
            proof {
                assert(history_entries(stocks_var.stocks@.subrange(0, i + 1 as int))
                    =~= history_entries(stocks_var.stocks@.subrange(0, i as int)).push(
                    StockHistory { product_id: c.id, variation: c.variation },
                ));
                assert(self.data.history@ == mid.data.history@ + history_entries(
                    stocks_var.stocks@.subrange(0, i + 1 as int),
                ));
            }
            i += 1;
        }
        proof {
            assert(stocks_var.stocks@.subrange(0, stocks_var.stocks@.len() as int)
                =~= stocks_var.stocks@);
        }
        Ok("stock changed")
    }

    /// The ordered change history of one product. Any authenticated role
    /// may read.
    pub fn get_stock_history(&self, query: &ProductStockHistory) -> (r: Result<
        Vec<StockHistory>,
        MyError,
    >)
        requires
            self.wf(),
        ensures
            match gate(self.role_of(query.token), Floor::AnyRole) {
                Option::Some(e) => r matches Err(x) && x == e,
                Option::None => r matches Ok(v) && v@ == history_of(self.data.history@, query.id),
            },
    {
        if let Some(e) = self.gate_check(query.token, Floor::AnyRole) {
            return Err(e);
        }
        proof {
            reveal(Seq::filter);
        }
        let mut out: Vec<StockHistory> = Vec::new();
        let mut i: usize = 0;
        while i < self.data.history.len()
            invariant
                i <= self.data.history@.len(),
                out@ == history_of(self.data.history@.subrange(0, i as int), query.id),
            decreases self.data.history@.len() - i,
        {
            proof {
                reveal(Seq::filter);
                assert(self.data.history@.subrange(0, i + 1 as int).drop_last()
                    =~= self.data.history@.subrange(0, i as int));
                assert(self.data.history@.subrange(0, i + 1 as int).last()
                    == self.data.history@[i as int]);
            }
            let h = self.data.history[i];
            if h.product_id == query.id {
                out.push(h);
            }
            i += 1;
        }
        proof {
            assert(self.data.history@.subrange(0, self.data.history@.len() as int)
                =~= self.data.history@);
        }
        Ok(out)
    }
}

/// The history entries of one product, in log order.
pub open spec fn history_of(h: Seq<StockHistory>, id: u64) -> Seq<StockHistory> {
    h.filter(|e: StockHistory| e.product_id == id)
}

} // verus!
