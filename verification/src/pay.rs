//! The pay rules that a payday consults, and a table of precomputed
//! paychecks that serves as such rules.
use vstd::prelude::*;

use crate::domain::{Date, Employee, EmployeeId, EmployeeModel, Paycheck};

verus! {

/// The pay rules of the payroll: whether a date is an employee's payday and,
/// if it is, the paycheck for the pay period that ends then.
pub trait PayCalculator {
    spec fn spec_paycheck(&self, emp: EmployeeModel, pay_date: Date) -> Option<Paycheck>;

    fn paycheck(&self, emp: &Employee, pay_date: Date) -> (r: Option<Paycheck>)
        ensures
            r == self.spec_paycheck(emp@, pay_date),
    ;
}

/// `<chrono::NaiveDate as PartialEq>::eq`. chrono derives it over the date's
/// single field, so it holds exactly when the two dates are the same value.
#[verifier::external_body]
fn same_date(a: &Date, b: &Date) -> (r: bool)
    ensures
        r == (*a == *b),
{
    *a == *b
}

/// The first entry for the employee and date, if any.
pub open spec fn table_lookup(
    entries: Seq<(EmployeeId, Date, Paycheck)>,
    id: EmployeeId,
    pay_date: Date,
) -> Option<Paycheck>
    decreases entries.len(),
{
    if entries.len() == 0 {
        None
    } else if entries[0].0 == id && entries[0].1 == pay_date {
        Some(entries[0].2)
    } else {
        table_lookup(entries.drop_first(), id, pay_date)
    }
}

/// Pay rules given as a table: the employees that are paid on a date, each
/// with the paycheck worked out beforehand. An employee and date that the
/// table does not list are not paid.
pub struct PayTable {
    pub entries: Vec<(EmployeeId, Date, Paycheck)>,
}

impl PayTable {
    pub fn new() -> (r: PayTable)
        ensures
            r.entries@ == Seq::<(EmployeeId, Date, Paycheck)>::empty(),
    {
        PayTable { entries: Vec::new() }
    }

    pub fn add(&mut self, id: EmployeeId, pay_date: Date, paycheck: Paycheck)
        ensures
            final(self).entries@ == old(self).entries@.push((id, pay_date, paycheck)),
    {
        self.entries.push((id, pay_date, paycheck));
    }
}

impl PayCalculator for PayTable {
    open spec fn spec_paycheck(&self, emp: EmployeeModel, pay_date: Date) -> Option<Paycheck> {
        table_lookup(self.entries@, emp.id, pay_date)
    }

    fn paycheck(&self, emp: &Employee, pay_date: Date) -> (r: Option<Paycheck>) {
        let mut i: usize = 0;
        assert(self.entries@.subrange(0, self.entries@.len() as int) =~= self.entries@);
        while i < self.entries.len()
            invariant
                i <= self.entries@.len(),
                table_lookup(self.entries@, emp.id, pay_date) == table_lookup(
                    self.entries@.subrange(i as int, self.entries@.len() as int),
                    emp.id,
                    pay_date,
                ),
            decreases self.entries@.len() - i,
        {
            let ghost rest = self.entries@.subrange(i as int, self.entries@.len() as int);
            assert(rest[0] == self.entries@[i as int]);
            if self.entries[i].0 == emp.id && same_date(&self.entries[i].1, &pay_date) {
                return Some(self.entries[i].2);
            }
            assert(rest.drop_first() =~= self.entries@.subrange(
                i + 1,
                self.entries@.len() as int,
            ));
            i = i + 1;
        }
        None
    }
}

} // verus!
