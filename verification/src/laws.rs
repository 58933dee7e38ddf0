//! Properties of the store and of the transactions taken together.
use vstd::prelude::*;

use crate::dao::{Store, enumerates, keyed_by_id, position};
use crate::domain::{
    AffiliationModel, Amount, ClassificationModel, Date, EmployeeId, EmployeeModel, MemberId,
    MethodModel, PaymentSchedule, SalesReceipt, ServiceCharge, TimeCard, new_employee_model,
};
use crate::pay::PayCalculator;
use crate::tx::{
    Response, Tx, change_ok, change_store, commissioned_model, executes, hourly_model,
    salaried_model, step_ok, step_store,
};
use crate::tx_app::{run_ok, run_store};
use crate::interface::{
    UsecaseError, add_service_charge_ok, affiliation_member_id, member_employee, paid_through,
    payday_records,
    union_affiliation,
};

verus! {

/// A store whose own consistency holds: the order names every employee once
/// and each employee is stored under its own id.
pub open spec fn valid_store(s: Store) -> bool {
    enumerates(s.order, s.employees) && keyed_by_id(s.employees)
}

// ---------------------------------------------------------------------------
// The store: what a read gives back of a write
// ---------------------------------------------------------------------------

/// An inserted employee is found under its id, as it was inserted; no other
/// employee changes.
pub proof fn law_read_after_insert(s: Store, e: EmployeeModel, other: EmployeeId)
    requires
        !s.has(e.id),
        other != e.id,
    ensures
        s.add(e).has(e.id),
        s.add(e).employees[e.id] == e,
        s.add(e).has(other) == s.has(other),
        s.has(other) ==> s.add(e).employees[other] == s.employees[other],
        s.add(e).order == s.order.push(e.id),
{
}

/// An updated employee reads back as written; no other employee changes and
/// the order stays.
pub proof fn law_read_after_update(s: Store, e: EmployeeModel, other: EmployeeId)
    requires
        s.has(e.id),
        other != e.id,
    ensures
        s.put(e).employees[e.id] == e,
        s.put(e).has(other) == s.has(other),
        s.has(other) ==> s.put(e).employees[other] == s.employees[other],
        s.put(e).order == s.order,
{
}

/// A removed employee is no longer found; every other employee is.
pub proof fn law_read_after_remove(s: Store, id: EmployeeId, other: EmployeeId)
    requires
        s.has(id),
        other != id,
    ensures
        !s.drop(id).has(id),
        s.drop(id).has(other) == s.has(other),
        s.has(other) ==> s.drop(id).employees[other] == s.employees[other],
{
}

/// A recorded union membership is found under its member id until it is
/// forgotten.
pub proof fn law_membership_reads_back(s: Store, member_id: MemberId, emp_id: EmployeeId)
    requires
        !s.members.contains_key(member_id),
    ensures
        s.with_members(s.members.insert(member_id, emp_id)).members[member_id] == emp_id,
        s.with_members(s.members.insert(member_id, emp_id).remove(member_id)) == s,
{
    assert(s.members.insert(member_id, emp_id).remove(member_id) =~= s.members);
}

/// Removing an employee just inserted gives back the store as it was.
pub proof fn law_remove_undoes_insert(s: Store, e: EmployeeModel)
    requires
        valid_store(s),
        !s.has(e.id),
    ensures
        s.add(e).drop(e.id) == s,
{
    let id = e.id;
    let s1 = s.add(e);
    let n = s.order.len() as int;
    assert(s1.order[n] == id);
    let p = position(s1.order, id);
    assert(0 <= p < s1.order.len() && s1.order[p] == id);
    if p < n {
        assert(s.order[p] == id);
        assert(s.employees.contains_key(s.order[p]));
    }
    assert(p == n);
    assert(s1.order.remove(p) =~= s.order);
    assert(s1.employees.remove(id) =~= s.employees);
}

// ---------------------------------------------------------------------------
// Transactions
// ---------------------------------------------------------------------------

/// A transaction that fails, other than a payday, leaves the store exactly
/// as it was.
pub proof fn law_failed_transaction_changes_nothing<C: PayCalculator>(
    s: Store,
    tx: Tx,
    calc: C,
    s2: Store,
    r: Result<Response, UsecaseError>,
)
    requires
        executes(s, tx, calc, s2, r),
        r is Err,
        !(tx is Payday),
    ensures
        s2 == s,
{
}

/// A payday that fails answers the failure as its own, changes nothing but
/// the paychecks, and keeps every paycheck recorded before it: the store's
/// paychecks then start with those there were before.
pub proof fn law_failed_payday_keeps_the_records<C: PayCalculator>(
    s: Store,
    date: Date,
    calc: C,
    s2: Store,
    r: Result<Response, UsecaseError>,
)
    requires
        executes(s, Tx::Payday { date }, calc, s2, r),
        r is Err,
    ensures
        r matches Err(UsecaseError::PaydayFailed(_)),
        s2 == s.with_paychecks(s2.paychecks),
        s.paychecks.len() <= s2.paychecks.len(),
        s2.paychecks.subrange(0, s.paychecks.len() as int) == s.paychecks,
{
    if s2 != s {
        let k = choose|k: int|
            0 <= k < s.order.len() && (#[trigger] calc.spec_paycheck(
                s.employees[s.order[k]],
                date,
            )) is Some && s2 == paid_through(s, calc, date, k);
        assert(s2.paychecks.subrange(0, s.paychecks.len() as int) =~= s.paychecks);
    }
}

/// Adding an employee and then deleting it leaves the store as it was.
pub proof fn law_delete_undoes_add(
    s: Store,
    id: EmployeeId,
    name: String,
    address: String,
    hourly_rate: Amount,
)
    requires
        valid_store(s),
        !s.has(id),
    ensures
        change_ok(s, Tx::AddHourlyEmployee { id, name, address, hourly_rate }),
        change_ok(
            change_store(s, Tx::AddHourlyEmployee { id, name, address, hourly_rate }),
            Tx::DeleteEmployee { id },
        ),
        change_store(
            change_store(s, Tx::AddHourlyEmployee { id, name, address, hourly_rate }),
            Tx::DeleteEmployee { id },
        ) == s,
{
    law_remove_undoes_insert(
        s,
        new_employee_model(id, name@, address@, hourly_model(hourly_rate), PaymentSchedule::Weekly),
    );
}

/// Renaming an employee twice is the same as renaming it once to the second name.
pub proof fn law_last_name_wins(s: Store, id: EmployeeId, first: String, second: String)
    requires
        valid_store(s),
        s.has(id),
    ensures
        change_ok(
            change_store(s, Tx::ChangeEmployeeName { id, new_name: first }),
            Tx::ChangeEmployeeName { id, new_name: second },
        ),
        change_store(
            change_store(s, Tx::ChangeEmployeeName { id, new_name: first }),
            Tx::ChangeEmployeeName { id, new_name: second },
        ) == change_store(s, Tx::ChangeEmployeeName { id, new_name: second }),
{
    let s1 = change_store(s, Tx::ChangeEmployeeName { id, new_name: first });
    assert(s1.employees[id] == s.employees[id].with_name(first@));
    assert(s1.employees.insert(id, s1.employees[id].with_name(second@)) =~= s.employees.insert(
        id,
        s.employees[id].with_name(second@),
    ));
}

/// Joining the union and then leaving it gives back the store as it was, for
/// an employee in no union and a member id that is free.
pub proof fn law_leaving_undoes_joining(
    s: Store,
    emp_id: EmployeeId,
    member_id: MemberId,
    dues: Amount,
)
    requires
        valid_store(s),
        s.has(emp_id),
        s.employees[emp_id].affiliation == AffiliationModel::NoAffiliation,
        !s.members.contains_key(member_id),
    ensures
        change_ok(s, Tx::ChangeEmployeeMember { emp_id, member_id, dues }),
        change_ok(
            change_store(s, Tx::ChangeEmployeeMember { emp_id, member_id, dues }),
            Tx::ChangeEmployeeNoMember { emp_id },
        ),
        change_store(
            change_store(s, Tx::ChangeEmployeeMember { emp_id, member_id, dues }),
            Tx::ChangeEmployeeNoMember { emp_id },
        ) == s,
{
    let e = s.employees[emp_id];
    let s1 = change_store(s, Tx::ChangeEmployeeMember { emp_id, member_id, dues });
    assert(s1.employees[emp_id].affiliation is Union);
    assert(s1.members.contains_key(member_id));
    let s2 = change_store(s1, Tx::ChangeEmployeeNoMember { emp_id });
    assert(s1.members.remove(member_id) =~= s.members);
    assert(s1.employees[emp_id].with_affiliation(AffiliationModel::NoAffiliation) == e);
    assert(s2.employees =~= s.employees);
}

/// An employee made hourly can always be given a time card next, and the
/// time card is the only one the employee has.
pub proof fn law_hourly_takes_timecards(
    s: Store,
    id: EmployeeId,
    hourly_rate: Amount,
    date: Date,
    hours: Amount,
)
    requires
        valid_store(s),
        s.has(id),
    ensures
        change_ok(
            change_store(s, Tx::ChangeEmployeeHourly { id, hourly_rate }),
            Tx::AddTimeCard { id, date, hours },
        ),
        change_store(
            change_store(s, Tx::ChangeEmployeeHourly { id, hourly_rate }),
            Tx::AddTimeCard { id, date, hours },
        ).employees[id].classification == (ClassificationModel::Hourly {
            hourly_rate,
            timecards: seq![TimeCard { date, hours }],
        }),
{
    let s1 = change_store(s, Tx::ChangeEmployeeHourly { id, hourly_rate });
    assert(s1.employees[id].is_hourly());
    assert(Seq::<TimeCard>::empty().push(TimeCard { date, hours }) =~= seq![
        TimeCard { date, hours },
    ]);
}

proof fn lemma_payday_records<C: PayCalculator>(
    employees: Map<EmployeeId, EmployeeModel>,
    order: Seq<EmployeeId>,
    calc: C,
    pay_date: Date,
)
    requires
        forall|i: int| 0 <= i < order.len() ==> employees.contains_key(#[trigger] order[i]),
    ensures
        forall|i: int|
            0 <= i < payday_records(employees, order, calc, pay_date).len() ==> {
                let (id, pc) = #[trigger] payday_records(employees, order, calc, pay_date)[i];
                &&& employees.contains_key(id)
                &&& calc.spec_paycheck(employees[id], pay_date) == Some(pc)
            },
        payday_records(employees, order, calc, pay_date).len() <= order.len(),
    decreases order.len(),
{
    if order.len() > 0 {
        let rest = order.drop_last();
        assert forall|i: int| 0 <= i < rest.len() implies employees.contains_key(
            #[trigger] rest[i],
        ) by {
            assert(rest[i] == order[i]);
        }
        lemma_payday_records(employees, rest, calc, pay_date);
        assert(employees.contains_key(order[order.len() - 1]));
    }
}

/// A payday records only paychecks of stored employees, no more of them than
/// the store lists employees, each being what the pay rules give that employee on
/// that date.
pub proof fn law_payday_pays_stored_employees<C: PayCalculator>(
    s: Store,
    calc: C,
    pay_date: Date,
)
    requires
        valid_store(s),
    ensures
        forall|i: int|
            0 <= i < payday_records(s.employees, s.order, calc, pay_date).len() ==> {
                let (id, pc) = #[trigger] payday_records(s.employees, s.order, calc, pay_date)[i];
                &&& s.has(id)
                &&& calc.spec_paycheck(s.employees[id], pay_date) == Some(pc)
            },
        payday_records(s.employees, s.order, calc, pay_date).len() <= s.order.len(),
{
    lemma_payday_records(s.employees, s.order, calc, pay_date);
}

/// Running two scripts one after the other is running the one script made
/// of both: the same store results, and all of it succeeds exactly when the
/// first part does and then the second part does too.
pub proof fn law_scripts_compose<C: PayCalculator>(s: Store, a: Seq<Tx>, b: Seq<Tx>, calc: C)
    ensures
        run_store(s, a + b, calc) == run_store(run_store(s, a, calc), b, calc),
        run_ok(s, a + b, calc) == (run_ok(s, a, calc) && run_ok(run_store(s, a, calc), b, calc)),
    decreases b.len(),
{
    if b.len() == 0 {
        assert(a + b =~= a);
    } else {
        law_scripts_compose(s, a, b.drop_last(), calc);
        assert((a + b).drop_last() =~= a + b.drop_last());
        assert((a + b).last() == b.last());
    }
}

/// An employee that was just added reads back as added: under its id, with
/// its name, address, classification and schedule, paid by hold and in no
/// union.
pub proof fn law_added_employee_reads_back(
    s: Store,
    id: EmployeeId,
    name: String,
    address: String,
    salary: Amount,
)
    requires
        valid_store(s),
        !s.has(id),
    ensures
        change_ok(s, Tx::AddSalariedEmployee { id, name, address, salary }),
        change_store(s, Tx::AddSalariedEmployee { id, name, address, salary }).has(id),
        change_store(s, Tx::AddSalariedEmployee { id, name, address, salary }).employees[id]
            == new_employee_model(
            id,
            name@,
            address@,
            salaried_model(salary),
            PaymentSchedule::Monthly,
        ),
{
}

/// Once an employee has joined the union, a service charge under the member
/// id reaches that employee, and is the only charge the employee has.
pub proof fn law_joined_member_takes_service_charges(
    s: Store,
    emp_id: EmployeeId,
    member_id: MemberId,
    dues: Amount,
    date: Date,
    amount: Amount,
)
    requires
        valid_store(s),
        s.has(emp_id),
        !s.members.contains_key(member_id),
    ensures
        change_ok(
            change_store(s, Tx::ChangeEmployeeMember { emp_id, member_id, dues }),
            Tx::AddServiceCharge { member_id, date, amount },
        ),
        change_store(
            change_store(s, Tx::ChangeEmployeeMember { emp_id, member_id, dues }),
            Tx::AddServiceCharge { member_id, date, amount },
        ).employees[emp_id].affiliation == (AffiliationModel::Union {
            member_id,
            dues,
            service_charges: seq![ServiceCharge { date, amount }],
        }),
{
    let s1 = change_store(s, Tx::ChangeEmployeeMember { emp_id, member_id, dues });
    assert(member_employee(s1, member_id) == emp_id);
    assert(s1.employees[emp_id].is_union_member());
    assert(Seq::<ServiceCharge>::empty().push(ServiceCharge { date, amount }) =~= seq![
        ServiceCharge { date, amount },
    ]);
}

// ---------------------------------------------------------------------------
// Every transaction keeps the store consistent
// ---------------------------------------------------------------------------

proof fn lemma_add_keeps_valid(s: Store, e: EmployeeModel)
    requires
        valid_store(s),
        !s.has(e.id),
    ensures
        valid_store(s.add(e)),
{
    let t = s.add(e);
    let n = s.order.len() as int;
    assert forall|i: int, j: int|
        0 <= i < t.order.len() && 0 <= j < t.order.len() && i != j implies t.order[i]
        != t.order[j] by {
        if i == n {
            assert(s.employees.contains_key(s.order[j]));
        } else if j == n {
            assert(s.employees.contains_key(s.order[i]));
        }
    }
    assert forall|i: int| 0 <= i < t.order.len() implies t.employees.contains_key(
        #[trigger] t.order[i],
    ) by {
        if i < n {
            assert(s.employees.contains_key(s.order[i]));
        }
    }
    assert forall|k: EmployeeId| t.employees.contains_key(k) implies t.order.contains(k) by {
        if k == e.id {
            assert(t.order[n] == k);
        } else {
            assert(s.order.contains(k));
            let i = choose|i: int| 0 <= i < s.order.len() && s.order[i] == k;
            assert(t.order[i] == k);
        }
    }
}

proof fn lemma_drop_keeps_valid(s: Store, id: EmployeeId)
    requires
        valid_store(s),
        s.has(id),
    ensures
        valid_store(s.drop(id)),
{
    let t = s.drop(id);
    assert(s.order.contains(id));
    let p = position(s.order, id);
    assert(0 <= p < s.order.len() && s.order[p] == id);
    let o = t.order;
    assert(o.len() == s.order.len() - 1);
    assert forall|i: int| 0 <= i < o.len() implies #[trigger] o[i] == (if i < p {
        s.order[i]
    } else {
        s.order[i + 1]
    }) by {}
    assert forall|i: int, j: int|
        0 <= i < o.len() && 0 <= j < o.len() && i != j implies o[i] != o[j] by {
        let a = if i < p { i } else { i + 1 };
        let b = if j < p { j } else { j + 1 };
        assert(o[i] == s.order[a] && o[j] == s.order[b] && a != b);
    }
    assert forall|i: int| 0 <= i < o.len() implies t.employees.contains_key(#[trigger] o[i]) by {
        let a = if i < p { i } else { i + 1 };
        assert(o[i] == s.order[a] && a != p);
        assert(s.employees.contains_key(s.order[a]));
    }
    assert forall|k: EmployeeId| t.employees.contains_key(k) implies o.contains(k) by {
        assert(s.order.contains(k));
        let a = choose|a: int| 0 <= a < s.order.len() && s.order[a] == k;
        assert(a != p);
        if a < p {
            assert(o[a] == k);
        } else {
            assert(o[a - 1] == k);
        }
    }
}

proof fn lemma_put_keeps_valid(s: Store, e: EmployeeModel)
    requires
        valid_store(s),
        s.has(e.id),
    ensures
        valid_store(s.put(e)),
{
    let t = s.put(e);
    assert forall|i: int| 0 <= i < t.order.len() implies t.employees.contains_key(
        #[trigger] t.order[i],
    ) by {
        assert(s.employees.contains_key(s.order[i]));
    }
    assert forall|k: EmployeeId| t.employees.contains_key(k) implies s.employees.contains_key(
        k,
    ) by {}
}

/// Every transaction that succeeds keeps the store consistent: the order
/// still names every stored employee exactly once, and each employee is still
/// stored under its own id.
pub proof fn law_transactions_keep_store_valid<C: PayCalculator>(s: Store, tx: Tx, calc: C)
    requires
        valid_store(s),
        step_ok(s, tx),
    ensures
        valid_store(step_store(s, tx, calc)),
{
    match tx {
        Tx::AddHourlyEmployee { id, name, address, hourly_rate } => {
            lemma_add_keeps_valid(
                s,
                new_employee_model(
                    id,
                    name@,
                    address@,
                    hourly_model(hourly_rate),
                    PaymentSchedule::Weekly,
                ),
            );
        },
        Tx::AddSalariedEmployee { id, name, address, salary } => {
            lemma_add_keeps_valid(
                s,
                new_employee_model(
                    id,
                    name@,
                    address@,
                    salaried_model(salary),
                    PaymentSchedule::Monthly,
                ),
            );
        },
        Tx::AddCommissionedEmployee { id, name, address, salary, commission_rate } => {
            lemma_add_keeps_valid(
                s,
                new_employee_model(
                    id,
                    name@,
                    address@,
                    commissioned_model(salary, commission_rate),
                    PaymentSchedule::Biweekly,
                ),
            );
        },
        Tx::DeleteEmployee { id } => {
            lemma_drop_keeps_valid(s, id);
        },
        Tx::AddTimeCard { id, date, hours } => {
            lemma_put_keeps_valid(s, s.employees[id].with_timecard(TimeCard { date, hours }));
        },
        Tx::AddSalesReceipt { id, date, amount } => {
            let receipt = SalesReceipt { date, amount };
            lemma_put_keeps_valid(s, s.employees[id].with_sales_receipt(receipt));
        },
        Tx::AddServiceCharge { member_id, date, amount } => {
            let id = member_employee(s, member_id);
            let charge = ServiceCharge { date, amount };
            lemma_put_keeps_valid(s, s.employees[id].with_service_charge(charge));
        },
        Tx::ChangeEmployeeName { id, new_name } => {
            lemma_put_keeps_valid(s, s.employees[id].with_name(new_name@));
        },
        Tx::ChangeEmployeeAddress { id, new_address } => {
            lemma_put_keeps_valid(s, s.employees[id].with_address(new_address@));
        },
        Tx::ChangeEmployeeHourly { id, hourly_rate } => {
            lemma_put_keeps_valid(
                s,
                s.employees[id].with_classification(
                    hourly_model(hourly_rate),
                    PaymentSchedule::Weekly,
                ),
            );
        },
        Tx::ChangeEmployeeSalaried { id, salary } => {
            lemma_put_keeps_valid(
                s,
                s.employees[id].with_classification(
                    salaried_model(salary),
                    PaymentSchedule::Monthly,
                ),
            );
        },
        Tx::ChangeEmployeeCommissioned { id, salary, commission_rate } => {
            lemma_put_keeps_valid(
                s,
                s.employees[id].with_classification(
                    commissioned_model(salary, commission_rate),
                    PaymentSchedule::Biweekly,
                ),
            );
        },
        Tx::ChangeEmployeeHold { id } => {
            lemma_put_keeps_valid(s, s.employees[id].with_method(MethodModel::Hold));
        },
        Tx::ChangeEmployeeDirect { id, bank, account } => {
            lemma_put_keeps_valid(
                s,
                s.employees[id].with_method(MethodModel::Direct { bank: bank@, account: account@ }),
            );
        },
        Tx::ChangeEmployeeMail { id, address } => {
            let method = MethodModel::Mail { address: address@ };
            lemma_put_keeps_valid(s, s.employees[id].with_method(method));
        },
        Tx::ChangeEmployeeMember { emp_id, member_id, dues } => {
            let s1 = s.with_members(s.members.insert(member_id, emp_id));
            lemma_put_keeps_valid(
                s1,
                s.employees[emp_id].with_affiliation(union_affiliation(member_id, dues)),
            );
        },
        Tx::ChangeEmployeeNoMember { emp_id } => {
            let s1 = s.with_members(s.members.remove(affiliation_member_id(s.employees[emp_id])));
            lemma_put_keeps_valid(
                s1,
                s.employees[emp_id].with_affiliation(AffiliationModel::NoAffiliation),
            );
        },
        _ => {},
    }
}

proof fn lemma_payday_records_complete<C: PayCalculator>(
    employees: Map<EmployeeId, EmployeeModel>,
    listing: Seq<EmployeeId>,
    calc: C,
    pay_date: Date,
)
    requires
        forall|i: int, j: int|
            0 <= i < listing.len() && 0 <= j < listing.len() && i != j ==> listing[i] != listing[j],
    ensures
        forall|k: int|
            0 <= k < payday_records(employees, listing, calc, pay_date).len() ==> listing.contains(
                (#[trigger] payday_records(employees, listing, calc, pay_date)[k]).0,
            ),
        forall|k: int, m: int|
            0 <= k < payday_records(employees, listing, calc, pay_date).len() && 0 <= m
                < payday_records(employees, listing, calc, pay_date).len() && k != m ==> (
            #[trigger] payday_records(employees, listing, calc, pay_date)[k]).0 != (
            #[trigger] payday_records(employees, listing, calc, pay_date)[m]).0,
        forall|i: int|
            0 <= i < listing.len() && (#[trigger] calc.spec_paycheck(
                employees[listing[i]],
                pay_date,
            )) is Some ==> payday_records(employees, listing, calc, pay_date).contains(
                (listing[i], calc.spec_paycheck(employees[listing[i]], pay_date)->0),
            ),
    decreases listing.len(),
{
    if listing.len() > 0 {
        let rest = listing.drop_last();
        let last = listing.last();
        lemma_payday_records_complete(employees, rest, calc, pay_date);
        let r0 = payday_records(employees, rest, calc, pay_date);
        let r = payday_records(employees, listing, calc, pay_date);
        assert forall|k: int| 0 <= k < r0.len() implies (#[trigger] r0[k]).0 != last by {
            assert(rest.contains(r0[k].0));
            let j = choose|j: int| 0 <= j < rest.len() && rest[j] == r0[k].0;
            assert(listing[j] == rest[j]);
            assert(listing[listing.len() - 1] == last);
        }
        assert forall|k: int| 0 <= k < r.len() implies listing.contains((#[trigger] r[k]).0) by {
            if k < r0.len() {
                assert(r[k] == r0[k]);
                assert(rest.contains(r0[k].0));
                let j = choose|j: int| 0 <= j < rest.len() && rest[j] == r0[k].0;
                assert(listing[j] == rest[j]);
            } else {
                assert(listing[listing.len() - 1] == last);
            }
        }
        assert forall|k: int, m: int|
            0 <= k < r.len() && 0 <= m < r.len() && k != m implies (#[trigger] r[k]).0 != (
            #[trigger] r[m]).0 by {
            if k < r0.len() && m < r0.len() {
                assert(r[k] == r0[k] && r[m] == r0[m]);
            } else if k < r0.len() {
                assert(r[k] == r0[k]);
            } else if m < r0.len() {
                assert(r[m] == r0[m]);
            }
        }
        assert forall|i: int|
            0 <= i < listing.len() && (#[trigger] calc.spec_paycheck(
                employees[listing[i]],
                pay_date,
            )) is Some implies r.contains(
            (listing[i], calc.spec_paycheck(employees[listing[i]], pay_date)->0),
        ) by {
            let pc = calc.spec_paycheck(employees[listing[i]], pay_date)->0;
            if i < listing.len() - 1 {
                assert(rest[i] == listing[i]);
                assert(calc.spec_paycheck(employees[rest[i]], pay_date) is Some);
                assert(r0.contains((listing[i], pc)));
                let k = choose|k: int| 0 <= k < r0.len() && r0[k] == (listing[i], pc);
                assert(r[k] == r0[k]);
            } else {
                assert(r[r.len() - 1] == (last, pc));
            }
        }
    }
}

/// A payday pays every stored employee whose payday it is, exactly once and
/// with the paycheck that the pay rules give: each such employee has one
/// recorded paycheck, and no employee has two.
pub proof fn law_payday_pays_everyone_due<C: PayCalculator>(s: Store, calc: C, pay_date: Date)
    requires
        valid_store(s),
    ensures
        forall|id: EmployeeId|
            s.has(id) && (#[trigger] calc.spec_paycheck(s.employees[id], pay_date)) is Some
                ==> payday_records(s.employees, s.order, calc, pay_date).contains(
                (id, calc.spec_paycheck(s.employees[id], pay_date)->0),
            ),
        forall|k: int, m: int|
            0 <= k < payday_records(s.employees, s.order, calc, pay_date).len() && 0 <= m
                < payday_records(s.employees, s.order, calc, pay_date).len() && k != m ==> (
            #[trigger] payday_records(s.employees, s.order, calc, pay_date)[k]).0 != (
            #[trigger] payday_records(s.employees, s.order, calc, pay_date)[m]).0,
{
    lemma_payday_records_complete(s.employees, s.order, calc, pay_date);
    assert forall|id: EmployeeId|
        s.has(id) && (#[trigger] calc.spec_paycheck(s.employees[id], pay_date)) is Some
            implies payday_records(s.employees, s.order, calc, pay_date).contains(
        (id, calc.spec_paycheck(s.employees[id], pay_date)->0),
    ) by {
        assert(s.order.contains(id));
        let i = choose|i: int| 0 <= i < s.order.len() && s.order[i] == id;
        assert(calc.spec_paycheck(s.employees[s.order[i]], pay_date) is Some);
    }
}

/// The one employee that a transaction adds, changes or deletes, if any.
pub open spec fn touched(s: Store, tx: Tx) -> Option<EmployeeId> {
    match tx {
        Tx::AddHourlyEmployee { id, .. } => Some(id),
        Tx::AddSalariedEmployee { id, .. } => Some(id),
        Tx::AddCommissionedEmployee { id, .. } => Some(id),
        Tx::DeleteEmployee { id } => Some(id),
        Tx::AddTimeCard { id, .. } => Some(id),
        Tx::AddSalesReceipt { id, .. } => Some(id),
        Tx::AddServiceCharge { member_id, .. } => Some(member_employee(s, member_id)),
        Tx::ChangeEmployeeName { id, .. } => Some(id),
        Tx::ChangeEmployeeAddress { id, .. } => Some(id),
        Tx::ChangeEmployeeHourly { id, .. } => Some(id),
        Tx::ChangeEmployeeSalaried { id, .. } => Some(id),
        Tx::ChangeEmployeeCommissioned { id, .. } => Some(id),
        Tx::ChangeEmployeeHold { id } => Some(id),
        Tx::ChangeEmployeeDirect { id, .. } => Some(id),
        Tx::ChangeEmployeeMail { id, .. } => Some(id),
        Tx::ChangeEmployeeMember { emp_id, .. } => Some(emp_id),
        Tx::ChangeEmployeeNoMember { emp_id } => Some(emp_id),
        _ => None,
    }
}

/// A transaction, whether it succeeds or fails, leaves every employee but
/// the one it names as it was: still stored (or still not stored), with the
/// same record.
pub proof fn law_transactions_touch_one_employee<C: PayCalculator>(
    s: Store,
    tx: Tx,
    calc: C,
    s2: Store,
    r: Result<Response, UsecaseError>,
    other: EmployeeId,
)
    requires
        valid_store(s),
        executes(s, tx, calc, s2, r),
        touched(s, tx) != Some(other),
    ensures
        s2.has(other) == s.has(other),
        s.has(other) ==> s2.employees[other] == s.employees[other],
{
    if step_ok(s, tx) {
        match tx {
            Tx::ChangeEmployeeMember { emp_id, member_id, dues } => {
                let s1 = s.with_members(s.members.insert(member_id, emp_id));
                assert(s1.employees == s.employees);
            },
            Tx::ChangeEmployeeNoMember { emp_id } => {
                let s1 = s.with_members(
                    s.members.remove(affiliation_member_id(s.employees[emp_id])),
                );
                assert(s1.employees == s.employees);
            },
            _ => {},
        }
    }
}

// ---------------------------------------------------------------------------
// What each change does to one employee
// ---------------------------------------------------------------------------

/// Everything but the classification and schedule of `b` is as in `a`.
pub open spec fn same_but_pay(a: EmployeeModel, b: EmployeeModel) -> bool {
    &&& b.id == a.id
    &&& b.name == a.name
    &&& b.address == a.address
    &&& b.method == a.method
    &&& b.affiliation == a.affiliation
}

/// A time card given to an hourly employee goes at the end of the cards the
/// employee has: there is one card more, the earlier cards stay as they were
/// and in order, the rate stays, and nothing else about the employee changes.
pub proof fn law_timecard_appends(e: EmployeeModel, card: TimeCard)
    requires
        e.is_hourly(),
    ensures
        same_but_pay(e, e.with_timecard(card)),
        e.with_timecard(card).schedule == e.schedule,
        e.classification matches ClassificationModel::Hourly { hourly_rate, timecards } ==> (
        e.with_timecard(card).classification matches ClassificationModel::Hourly {
            hourly_rate: rate,
            timecards: cards,
        } && rate == hourly_rate && cards.len() == timecards.len() + 1 && cards.subrange(
            0,
            timecards.len() as int,
        ) == timecards && cards[timecards.len() as int] == card),
{
    if let ClassificationModel::Hourly { hourly_rate, timecards } = e.classification {
        assert(timecards.push(card).subrange(0, timecards.len() as int) =~= timecards);
    }
}

/// A sales receipt given to a commissioned employee goes at the end of the
/// receipts the employee has: there is one receipt more, the earlier ones stay
/// as they were and in order, salary and rate stay, and nothing else changes.
pub proof fn law_sales_receipt_appends(e: EmployeeModel, receipt: SalesReceipt)
    requires
        e.is_commissioned(),
    ensures
        same_but_pay(e, e.with_sales_receipt(receipt)),
        e.with_sales_receipt(receipt).schedule == e.schedule,
        e.classification matches ClassificationModel::Commissioned {
            salary,
            commission_rate,
            sales_receipts,
        } ==> (e.with_sales_receipt(receipt).classification matches ClassificationModel::Commissioned {
            salary: salary2,
            commission_rate: rate2,
            sales_receipts: receipts,
        } && salary2 == salary && rate2 == commission_rate && receipts.len() == sales_receipts.len()
            + 1 && receipts.subrange(0, sales_receipts.len() as int) == sales_receipts
            && receipts[sales_receipts.len() as int] == receipt),
{
    if let ClassificationModel::Commissioned { sales_receipts, .. } = e.classification {
        assert(sales_receipts.push(receipt).subrange(0, sales_receipts.len() as int)
            =~= sales_receipts);
    }
}

/// A service charge given to a union member goes at the end of the charges
/// the member has: there is one charge more, the earlier ones stay as they
/// were and in order, member id and dues stay, and nothing else changes.
pub proof fn law_service_charge_appends(e: EmployeeModel, charge: ServiceCharge)
    requires
        e.is_union_member(),
    ensures
        e.with_service_charge(charge).id == e.id,
        e.with_service_charge(charge).name == e.name,
        e.with_service_charge(charge).address == e.address,
        e.with_service_charge(charge).classification == e.classification,
        e.with_service_charge(charge).schedule == e.schedule,
        e.with_service_charge(charge).method == e.method,
        e.affiliation matches AffiliationModel::Union { member_id, dues, service_charges } ==> (
        e.with_service_charge(charge).affiliation matches AffiliationModel::Union {
            member_id: member2,
            dues: dues2,
            service_charges: charges,
        } && member2 == member_id && dues2 == dues && charges.len() == service_charges.len() + 1
            && charges.subrange(0, service_charges.len() as int) == service_charges
            && charges[service_charges.len() as int] == charge),
{
    if let AffiliationModel::Union { service_charges, .. } = e.affiliation {
        assert(service_charges.push(charge).subrange(0, service_charges.len() as int)
            =~= service_charges);
    }
}

/// A new classification replaces the old one whatever that was: the employee
/// has exactly the classification and schedule given, and nothing else
/// changes.
pub proof fn law_classification_is_replaced(
    e: EmployeeModel,
    classification: ClassificationModel,
    schedule: PaymentSchedule,
)
    ensures
        e.with_classification(classification, schedule).classification == classification,
        e.with_classification(classification, schedule).schedule == schedule,
        same_but_pay(e, e.with_classification(classification, schedule)),
{
}

/// A new payment method replaces the old one whatever that was: the employee
/// is paid exactly by the method given, and nothing else changes.
pub proof fn law_method_is_replaced(e: EmployeeModel, method: MethodModel)
    ensures
        e.with_method(method).method == method,
        e.with_method(method).id == e.id,
        e.with_method(method).name == e.name,
        e.with_method(method).address == e.address,
        e.with_method(method).classification == e.classification,
        e.with_method(method).schedule == e.schedule,
        e.with_method(method).affiliation == e.affiliation,
{
}

// ---------------------------------------------------------------------------
// Two transactions on one employee
// ---------------------------------------------------------------------------

/// Two time cards for an hourly employee are both kept, in the order they
/// came, after the cards the employee had.
pub proof fn law_two_timecards_are_both_kept(
    s: Store,
    id: EmployeeId,
    first: TimeCard,
    second: TimeCard,
)
    requires
        valid_store(s),
        s.has(id),
        s.employees[id].is_hourly(),
    ensures
        change_ok(s, Tx::AddTimeCard { id, date: first.date, hours: first.hours }),
        change_ok(
            change_store(s, Tx::AddTimeCard { id, date: first.date, hours: first.hours }),
            Tx::AddTimeCard { id, date: second.date, hours: second.hours },
        ),
        s.employees[id].classification matches ClassificationModel::Hourly { hourly_rate, timecards }
            ==> change_store(
            change_store(s, Tx::AddTimeCard { id, date: first.date, hours: first.hours }),
            Tx::AddTimeCard { id, date: second.date, hours: second.hours },
        ).employees[id].classification == (ClassificationModel::Hourly {
            hourly_rate,
            timecards: timecards + seq![first, second],
        }),
{
    if let ClassificationModel::Hourly { hourly_rate, timecards } = s.employees[id].classification {
        let s1 = change_store(s, Tx::AddTimeCard { id, date: first.date, hours: first.hours });
        assert(s1.employees[id].is_hourly());
        assert(timecards.push(first).push(second) =~= timecards + seq![first, second]);
    }
}

/// Two sales receipts for a commissioned employee are both kept, in the order
/// they came, after the receipts the employee had.
pub proof fn law_two_sales_receipts_are_both_kept(
    s: Store,
    id: EmployeeId,
    first: SalesReceipt,
    second: SalesReceipt,
)
    requires
        valid_store(s),
        s.has(id),
        s.employees[id].is_commissioned(),
    ensures
        change_ok(s, Tx::AddSalesReceipt { id, date: first.date, amount: first.amount }),
        change_ok(
            change_store(s, Tx::AddSalesReceipt { id, date: first.date, amount: first.amount }),
            Tx::AddSalesReceipt { id, date: second.date, amount: second.amount },
        ),
        s.employees[id].classification matches ClassificationModel::Commissioned {
            salary,
            commission_rate,
            sales_receipts,
        } ==> change_store(
            change_store(s, Tx::AddSalesReceipt { id, date: first.date, amount: first.amount }),
            Tx::AddSalesReceipt { id, date: second.date, amount: second.amount },
        ).employees[id].classification == (ClassificationModel::Commissioned {
            salary,
            commission_rate,
            sales_receipts: sales_receipts + seq![first, second],
        }),
{
    if let ClassificationModel::Commissioned { sales_receipts, .. } = s.employees[id].classification {
        let s1 = change_store(s, Tx::AddSalesReceipt { id, date: first.date, amount: first.amount });
        assert(s1.employees[id].is_commissioned());
        assert(sales_receipts.push(first).push(second) =~= sales_receipts + seq![first, second]);
    }
}

/// Two service charges for a union member are both kept, in the order they
/// came, after the charges the member had.
pub proof fn law_two_service_charges_are_both_kept(
    s: Store,
    member_id: MemberId,
    first: ServiceCharge,
    second: ServiceCharge,
)
    requires
        valid_store(s),
        add_service_charge_ok(s, member_id),
    ensures
        change_ok(s, Tx::AddServiceCharge { member_id, date: first.date, amount: first.amount }),
        change_ok(
            change_store(s, Tx::AddServiceCharge { member_id, date: first.date, amount: first.amount }),
            Tx::AddServiceCharge { member_id, date: second.date, amount: second.amount },
        ),
        s.employees[member_employee(s, member_id)].affiliation matches AffiliationModel::Union {
            member_id: m,
            dues,
            service_charges,
        } ==> change_store(
            change_store(s, Tx::AddServiceCharge { member_id, date: first.date, amount: first.amount }),
            Tx::AddServiceCharge { member_id, date: second.date, amount: second.amount },
        ).employees[member_employee(s, member_id)].affiliation == (AffiliationModel::Union {
            member_id: m,
            dues,
            service_charges: service_charges + seq![first, second],
        }),
{
    let id = member_employee(s, member_id);
    let s1 = change_store(s, Tx::AddServiceCharge { member_id, date: first.date, amount: first.amount });
    assert(member_employee(s1, member_id) == id);
    assert(s1.employees[id].is_union_member());
    if let AffiliationModel::Union { service_charges, .. } = s.employees[id].affiliation {
        assert(service_charges.push(first).push(second) =~= service_charges + seq![first, second]);
    }
}

/// A classification change takes effect whatever the employee was paid
/// before: the employee then has exactly the classification given, with no
/// cards or receipts, and the schedule that goes with it.
pub proof fn law_classification_change_takes_effect(
    s: Store,
    id: EmployeeId,
    salary: Amount,
    hourly_rate: Amount,
    commission_rate: Amount,
)
    requires
        valid_store(s),
        s.has(id),
    ensures
        change_ok(s, Tx::ChangeEmployeeSalaried { id, salary }),
        change_store(s, Tx::ChangeEmployeeSalaried { id, salary }).employees[id].classification
            == (ClassificationModel::Salaried { salary }),
        change_store(s, Tx::ChangeEmployeeSalaried { id, salary }).employees[id].schedule
            == PaymentSchedule::Monthly,
        change_store(s, Tx::ChangeEmployeeHourly { id, hourly_rate }).employees[id].classification
            == (ClassificationModel::Hourly { hourly_rate, timecards: Seq::empty() }),
        change_store(s, Tx::ChangeEmployeeHourly { id, hourly_rate }).employees[id].schedule
            == PaymentSchedule::Weekly,
        change_store(
            s,
            Tx::ChangeEmployeeCommissioned { id, salary, commission_rate },
        ).employees[id].classification == (ClassificationModel::Commissioned {
            salary,
            commission_rate,
            sales_receipts: Seq::empty(),
        }),
        change_store(
            s,
            Tx::ChangeEmployeeCommissioned { id, salary, commission_rate },
        ).employees[id].schedule == PaymentSchedule::Biweekly,
{
}

/// A method change takes effect whatever the employee was paid by before:
/// the employee is then paid exactly by the method given, bank and account
/// or address included.
pub proof fn law_method_change_takes_effect(
    s: Store,
    id: EmployeeId,
    bank: String,
    account: String,
    address: String,
)
    requires
        valid_store(s),
        s.has(id),
    ensures
        change_ok(s, Tx::ChangeEmployeeDirect { id, bank, account }),
        change_store(s, Tx::ChangeEmployeeDirect { id, bank, account }).employees[id].method == (
        MethodModel::Direct { bank: bank@, account: account@ }),
        change_store(s, Tx::ChangeEmployeeMail { id, address }).employees[id].method == (
        MethodModel::Mail { address: address@ }),
        change_store(s, Tx::ChangeEmployeeHold { id }).employees[id].method == MethodModel::Hold,
{
}

} // verus!
