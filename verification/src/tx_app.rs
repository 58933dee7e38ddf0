//! Running a script of transactions in order, stopping at the first one that
//! fails.
use vstd::prelude::*;

use crate::dao::{EmployeeDao, Store};
use crate::pay::PayCalculator;
use crate::tx::{
    Response, Tx, execute_tx, step_error, step_ok, step_response, step_store, store_failed,
};
use crate::interface::UsecaseError;

verus! {

/// The store after running the transactions in order; one that fails leaves
/// the store as it was.
pub open spec fn run_store<C: PayCalculator>(s: Store, txs: Seq<Tx>, calc: C) -> Store
    decreases txs.len(),
{
    if txs.len() == 0 {
        s
    } else {
        let p = run_store(s, txs.drop_last(), calc);
        if step_ok(p, txs.last()) {
            step_store(p, txs.last(), calc)
        } else {
            p
        }
    }
}

/// Every transaction succeeds when they run in order.
pub open spec fn run_ok<C: PayCalculator>(s: Store, txs: Seq<Tx>, calc: C) -> bool
    decreases txs.len(),
{
    if txs.len() == 0 {
        true
    } else {
        run_ok(s, txs.drop_last(), calc) && step_ok(
            run_store(s, txs.drop_last(), calc),
            txs.last(),
        )
    }
}

/// What the transactions answer when they run in order.
pub open spec fn run_responses<C: PayCalculator>(s: Store, txs: Seq<Tx>, calc: C) -> Seq<Response>
    decreases txs.len(),
{
    if txs.len() == 0 {
        Seq::empty()
    } else {
        run_responses(s, txs.drop_last(), calc).push(
            step_response(run_store(s, txs.drop_last(), calc), txs.last(), calc),
        )
    }
}

/// The first `k` transactions succeed and the next one fails with `e`,
/// leaving the store `s2`: either the store state refuses it, and it changes
/// nothing, or a store call failed while it ran (see `store_failed`).
pub open spec fn fails_at<C: PayCalculator>(
    s: Store,
    txs: Seq<Tx>,
    calc: C,
    k: int,
    e: UsecaseError,
    s2: Store,
) -> bool {
    &&& 0 <= k < txs.len()
    &&& run_ok(s, txs.take(k), calc)
    &&& if step_ok(run_store(s, txs.take(k), calc), txs[k]) {
        store_failed(run_store(s, txs.take(k), calc), txs[k], calc, s2, Err(e))
    } else {
        step_error(run_store(s, txs.take(k), calc), txs[k], e) && s2 == run_store(
            s,
            txs.take(k),
            calc,
        )
    }
}

/// No transaction of the script is a payday, the one transaction whose
/// success a store call can deny.
pub open spec fn without_payday(txs: Seq<Tx>) -> bool {
    forall|i: int| 0 <= i < txs.len() ==> !(#[trigger] txs[i] is Payday)
}

/// When a whole script succeeds, so does each of its beginnings.
pub proof fn lemma_run_ok_prefix<C: PayCalculator>(s: Store, txs: Seq<Tx>, calc: C, k: int)
    requires
        run_ok(s, txs, calc),
        0 <= k <= txs.len(),
    ensures
        run_ok(s, txs.take(k), calc),
    decreases txs.len(),
{
    if k == txs.len() {
        assert(txs.take(k) =~= txs);
    } else {
        lemma_run_ok_prefix(s, txs.drop_last(), calc, k);
        assert(txs.drop_last().take(k) =~= txs.take(k));
    }
}

/// A script of transactions.
pub struct TxApp {
    pub txs: Vec<Tx>,
}

impl TxApp {
    pub fn new(txs: Vec<Tx>) -> (r: TxApp)
        ensures
            r.txs@ == txs@,
    {
        TxApp { txs }
    }

    /// Runs the transactions in order and stops at the first that fails.
    pub fn run<D: EmployeeDao, C: PayCalculator>(&self, dao: &mut D, calc: &C) -> (r: Result<
        Vec<Response>,
        UsecaseError,
    >)
        requires
            old(dao).inv(),
        ensures
            final(dao).inv(),
            r matches Ok(out) ==> run_ok(old(dao).store(), self.txs@, *calc) && out@
                == run_responses(old(dao).store(), self.txs@, *calc) && final(dao).store()
                == run_store(old(dao).store(), self.txs@, *calc),
            run_ok(old(dao).store(), self.txs@, *calc) && (without_payday(self.txs@)
                || D::reliable()) ==> r is Ok,
            r matches Err(e) ==> exists|k: int|
                fails_at(old(dao).store(), self.txs@, *calc, k, e, final(dao).store()),
    {
        let ghost s0 = dao.store();
        let mut out: Vec<Response> = Vec::new();
        let mut i: usize = 0;
        assert(self.txs@.take(0) =~= Seq::<Tx>::empty());
        while i < self.txs.len()
            invariant
                dao.inv(),
                s0 == old(dao).store(),
                i <= self.txs@.len(),
                run_ok(s0, self.txs@.take(i as int), *calc),
                dao.store() == run_store(s0, self.txs@.take(i as int), *calc),
                out@ == run_responses(s0, self.txs@.take(i as int), *calc),
            decreases self.txs@.len() - i,
        {
            let ghost before = dao.store();
            assert(self.txs@.take(i + 1).drop_last() =~= self.txs@.take(i as int));
            assert(self.txs@.take(i + 1).last() == self.txs@[i as int]);
            match execute_tx(dao, calc, &self.txs[i]) {
                Ok(resp) => {
                    out.push(resp);
                },
                Err(e) => {
                    proof {
                        assert(self.txs@[i as int] == self.txs[i as int]);
                        assert(fails_at(s0, self.txs@, *calc, i as int, e, dao.store()));
                        if run_ok(s0, self.txs@, *calc) && (without_payday(self.txs@)
                            || D::reliable()) {
                            lemma_run_ok_prefix(s0, self.txs@, *calc, i + 1);
                            assert(run_ok(s0, self.txs@.take(i + 1), *calc));
                            assert(!(self.txs@[i as int] is Payday));
                        }
                    }
                    return Err(e);
                },
            }
            i = i + 1;
        }
        assert(self.txs@.take(self.txs@.len() as int) =~= self.txs@);
        Ok(out)
    }
}

} // verus!
