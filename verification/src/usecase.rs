//! The use cases on their own, each generic over the store it runs against:
//! a use case reads the store, changes one employee, a union membership or the
//! paychecks, and writes the change back. A failure names the step that failed
//! (getting, adding, updating or deleting) and leaves the store as it was.
use vstd::prelude::*;

use crate::dao::{DaoError, EmployeeDao, Store};
use crate::domain::{
    Affiliation, AffiliationModel, Date, Employee, EmployeeId, EmployeeModel, MemberId,
    PaymentClassification, PaymentMethod, PaymentSchedule, SalesReceipt, ServiceCharge, TimeCard,
};
use crate::interface::{
    PaydayFailure, affiliation_member_id, member_employee, paid_all, pay_all,
    payday_recording_stopped,
};
use crate::pay::PayCalculator;

verus! {

#[derive(Debug, PartialEq)]
pub enum UsecaseError {
    FailedToGet(DaoError),
    FailedToAdd(DaoError),
    FailedToUpdate(DaoError),
    FailedToDelete(DaoError),
    FailedToGetUnionMember(DaoError),
    FailedToAddUnionMember(DaoError),
    FailedToDeleteUnionMember(DaoError),
    Unexpected(String),
}

/// `e` is the unexpected-state error that carries `message`.
pub open spec fn is_unexpected(e: UsecaseError, message: Seq<char>) -> bool {
    e matches UsecaseError::Unexpected(m) && m@ == message
}

pub open spec fn not_hourly_message() -> Seq<char> {
    "didn't hourly classification"@
}

pub open spec fn not_commissioned_message() -> Seq<char> {
    "didn't commissioned classification"@
}

pub open spec fn not_union_message() -> Seq<char> {
    "didn't union affiliation"@
}

// ---------------------------------------------------------------------------
// What each use case does to the store and answers
// ---------------------------------------------------------------------------

/// Adding `emp` took the store from `s` to `s2` and answered `r`.
pub open spec fn employee_added(
    s: Store,
    emp: EmployeeModel,
    s2: Store,
    r: Result<EmployeeId, UsecaseError>,
) -> bool {
    if !s.has(emp.id) {
        r == Ok::<EmployeeId, UsecaseError>(emp.id) && s2 == s.add(emp)
    } else {
        s2 == s && r == Err::<EmployeeId, UsecaseError>(
            UsecaseError::FailedToAdd(DaoError::AlreadyExists(emp.id)),
        )
    }
}

/// Fetching employee `id`, changing it into `changed` and writing it back
/// took the store from `s` to `s2` and answered `r`.
pub open spec fn employee_changed(
    s: Store,
    id: EmployeeId,
    changed: EmployeeModel,
    s2: Store,
    r: Result<(), UsecaseError>,
) -> bool {
    if s.has(id) {
        r == Ok::<(), UsecaseError>(()) && s2 == s.put(changed)
    } else {
        s2 == s && r == Err::<(), UsecaseError>(UsecaseError::FailedToGet(DaoError::NotFound(id)))
    }
}

/// Deleting employee `id` took the store from `s` to `s2` and answered `r`.
pub open spec fn employee_deleted(
    s: Store,
    id: EmployeeId,
    s2: Store,
    r: Result<(), UsecaseError>,
) -> bool {
    if s.has(id) {
        r == Ok::<(), UsecaseError>(()) && s2 == s.drop(id)
    } else {
        s2 == s && r == Err::<(), UsecaseError>(
            UsecaseError::FailedToDelete(DaoError::NotFound(id)),
        )
    }
}

/// Adding a time card to employee `id` took the store from `s` to `s2` and
/// answered `r`.
pub open spec fn timecard_added(
    s: Store,
    id: EmployeeId,
    card: TimeCard,
    s2: Store,
    r: Result<(), UsecaseError>,
) -> bool {
    if !s.has(id) {
        s2 == s && r == Err::<(), UsecaseError>(UsecaseError::FailedToGet(DaoError::NotFound(id)))
    } else if !s.employees[id].is_hourly() {
        s2 == s && (r matches Err(e) && is_unexpected(e, not_hourly_message()))
    } else {
        r == Ok::<(), UsecaseError>(()) && s2 == s.put(s.employees[id].with_timecard(card))
    }
}

/// Adding a sales receipt to employee `id` took the store from `s` to `s2`
/// and answered `r`.
pub open spec fn sales_receipt_added(
    s: Store,
    id: EmployeeId,
    receipt: SalesReceipt,
    s2: Store,
    r: Result<(), UsecaseError>,
) -> bool {
    if !s.has(id) {
        s2 == s && r == Err::<(), UsecaseError>(UsecaseError::FailedToGet(DaoError::NotFound(id)))
    } else if !s.employees[id].is_commissioned() {
        s2 == s && (r matches Err(e) && is_unexpected(e, not_commissioned_message()))
    } else {
        r == Ok::<(), UsecaseError>(()) && s2 == s.put(s.employees[id].with_sales_receipt(receipt))
    }
}

/// Adding a service charge to the member `member_id` took the store from
/// `s` to `s2` and answered `r`.
pub open spec fn service_charge_added(
    s: Store,
    member_id: MemberId,
    charge: ServiceCharge,
    s2: Store,
    r: Result<(), UsecaseError>,
) -> bool {
    let id = member_employee(s, member_id);
    if !s.members.contains_key(member_id) {
        s2 == s && r == Err::<(), UsecaseError>(
            UsecaseError::FailedToGetUnionMember(DaoError::MemberNotFound(member_id)),
        )
    } else if !s.has(id) {
        s2 == s && r == Err::<(), UsecaseError>(UsecaseError::FailedToGet(DaoError::NotFound(id)))
    } else if !s.employees[id].is_union_member() {
        s2 == s && (r matches Err(e) && is_unexpected(e, not_union_message()))
    } else {
        r == Ok::<(), UsecaseError>(()) && s2 == s.put(s.employees[id].with_service_charge(charge))
    }
}

/// Recording `member_id` as the membership of `emp_id` took the store from
/// `s` to `s2` and answered `r`.
pub open spec fn membership_recorded(
    s: Store,
    member_id: MemberId,
    emp_id: EmployeeId,
    s2: Store,
    r: Result<(), UsecaseError>,
) -> bool {
    if s.members.contains_key(member_id) {
        s2 == s && r == Err::<(), UsecaseError>(
            UsecaseError::FailedToAddUnionMember(DaoError::MemberAlreadyExists(member_id)),
        )
    } else {
        r == Ok::<(), UsecaseError>(()) && s2 == s.with_members(s.members.insert(member_id, emp_id))
    }
}

/// Recording the membership and giving employee `emp_id` the affiliation
/// `aff` took the store from `s` to `s2` and answered `r`.
pub open spec fn union_affiliation_added(
    s: Store,
    member_id: MemberId,
    emp_id: EmployeeId,
    aff: AffiliationModel,
    s2: Store,
    r: Result<(), UsecaseError>,
) -> bool {
    if s.members.contains_key(member_id) {
        s2 == s && r == Err::<(), UsecaseError>(
            UsecaseError::FailedToAddUnionMember(DaoError::MemberAlreadyExists(member_id)),
        )
    } else if !s.has(emp_id) {
        s2 == s && r == Err::<(), UsecaseError>(
            UsecaseError::FailedToGet(DaoError::NotFound(emp_id)),
        )
    } else {
        r == Ok::<(), UsecaseError>(()) && s2 == s.with_members(
            s.members.insert(member_id, emp_id),
        ).put(s.employees[emp_id].with_affiliation(aff))
    }
}

/// The membership of employee `emp_id` cannot be forgotten in `s`, and `r`
/// is the error that says why.
pub open spec fn membership_removal_refused(
    s: Store,
    emp_id: EmployeeId,
    r: Result<(), UsecaseError>,
) -> bool {
    if !s.has(emp_id) {
        r == Err::<(), UsecaseError>(UsecaseError::FailedToGet(DaoError::NotFound(emp_id)))
    } else if !s.employees[emp_id].is_union_member() {
        r matches Err(e) && is_unexpected(e, not_union_message())
    } else {
        &&& !s.members.contains_key(affiliation_member_id(s.employees[emp_id]))
        &&& r == Err::<(), UsecaseError>(
            UsecaseError::FailedToDeleteUnionMember(
                DaoError::MemberNotFound(affiliation_member_id(s.employees[emp_id])),
            ),
        )
    }
}

/// The membership of employee `emp_id` can be forgotten in `s`.
pub open spec fn membership_removable(s: Store, emp_id: EmployeeId) -> bool {
    &&& s.has(emp_id)
    &&& s.employees[emp_id].is_union_member()
    &&& s.members.contains_key(affiliation_member_id(s.employees[emp_id]))
}

/// Forgetting the membership of employee `emp_id` took the store from `s` to
/// `s2` and answered `r`.
pub open spec fn membership_removed(
    s: Store,
    emp_id: EmployeeId,
    s2: Store,
    r: Result<(), UsecaseError>,
) -> bool {
    if membership_removable(s, emp_id) {
        r == Ok::<(), UsecaseError>(()) && s2 == s.with_members(
            s.members.remove(affiliation_member_id(s.employees[emp_id])),
        )
    } else {
        s2 == s && membership_removal_refused(s, emp_id, r)
    }
}

/// Forgetting the membership and giving employee `emp_id` the affiliation
/// `aff` took the store from `s` to `s2` and answered `r`.
pub open spec fn union_affiliation_removed(
    s: Store,
    emp_id: EmployeeId,
    aff: AffiliationModel,
    s2: Store,
    r: Result<(), UsecaseError>,
) -> bool {
    if membership_removable(s, emp_id) {
        r == Ok::<(), UsecaseError>(()) && s2 == s.with_members(
            s.members.remove(affiliation_member_id(s.employees[emp_id])),
        ).put(s.employees[emp_id].with_affiliation(aff))
    } else {
        s2 == s && membership_removal_refused(s, emp_id, r)
    }
}

/// A payday on `pay_date` took the store from `s` to `s2` and answered `r`:
/// on success every due employee is paid; a failure to get the employees
/// leaves the store as it was; a failure to update stops at the paycheck
/// that could not be recorded.
pub open spec fn payday_done<C: PayCalculator>(
    s: Store,
    calc: C,
    pay_date: Date,
    s2: Store,
    r: Result<(), UsecaseError>,
) -> bool {
    match r {
        Ok(()) => s2 == paid_all(s, calc, pay_date),
        Err(UsecaseError::FailedToGet(_)) => s2 == s,
        Err(UsecaseError::FailedToUpdate(_)) => payday_recording_stopped(s, calc, pay_date, s2),
        Err(_) => false,
    }
}

// ---------------------------------------------------------------------------
// The use cases
// ---------------------------------------------------------------------------

/// Adds a new employee and answers its id.
pub fn add_employee<D: EmployeeDao>(dao: &mut D, emp: Employee) -> (r: Result<
    EmployeeId,
    UsecaseError,
>)
    requires
        old(dao).inv(),
    ensures
        final(dao).inv(),
        employee_added(old(dao).store(), emp@, final(dao).store(), r),
{
    match dao.insert(emp) {
        Ok(id) => Ok(id),
        Err(e) => Err(UsecaseError::FailedToAdd(e)),
    }
}

/// Writes back an employee fetched and changed by a use case.
fn write_back<D: EmployeeDao>(dao: &mut D, emp: Employee) -> (r: Result<(), UsecaseError>)
    requires
        old(dao).inv(),
        old(dao).store().has(emp@.id),
    ensures
        final(dao).inv(),
        r == Ok::<(), UsecaseError>(()),
        final(dao).store() == old(dao).store().put(emp@),
{
    match dao.update(emp) {
        Ok(()) => Ok(()),
        Err(e) => Err(UsecaseError::FailedToUpdate(e)),
    }
}

/// Fetches an employee for a use case to change.
fn fetch_for_change<D: EmployeeDao>(dao: &D, id: EmployeeId) -> (r: Result<Employee, UsecaseError>)
    requires
        dao.inv(),
    ensures
        dao.store().has(id) ==> (r matches Ok(e) && e@ == dao.store().employees[id] && e@.id
            == id),
        !dao.store().has(id) ==> r == Err::<Employee, UsecaseError>(
            UsecaseError::FailedToGet(DaoError::NotFound(id)),
        ),
{
    match dao.fetch(id) {
        Ok(e) => Ok(e),
        Err(e) => Err(UsecaseError::FailedToGet(e)),
    }
}

/// Renames an employee.
pub fn chg_employee_name<D: EmployeeDao>(dao: &mut D, id: EmployeeId, name: &str) -> (r: Result<
    (),
    UsecaseError,
>)
    requires
        old(dao).inv(),
    ensures
        final(dao).inv(),
        employee_changed(
            old(dao).store(),
            id,
            old(dao).store().employees[id].with_name(name@),
            final(dao).store(),
            r,
        ),
{
    let mut emp = fetch_for_change(dao, id)?;
    emp.name = name.to_owned();
    write_back(dao, emp)
}

/// Changes an employee's address.
pub fn chg_employee_address<D: EmployeeDao>(dao: &mut D, id: EmployeeId, address: &str) -> (r:
    Result<(), UsecaseError>)
    requires
        old(dao).inv(),
    ensures
        final(dao).inv(),
        employee_changed(
            old(dao).store(),
            id,
            old(dao).store().employees[id].with_address(address@),
            final(dao).store(),
            r,
        ),
{
    let mut emp = fetch_for_change(dao, id)?;
    emp.address = address.to_owned();
    write_back(dao, emp)
}

/// Gives an employee a new classification and schedule.
pub fn chg_classification<D: EmployeeDao>(
    dao: &mut D,
    id: EmployeeId,
    classification: PaymentClassification,
    schedule: PaymentSchedule,
) -> (r: Result<(), UsecaseError>)
    requires
        old(dao).inv(),
    ensures
        final(dao).inv(),
        employee_changed(
            old(dao).store(),
            id,
            old(dao).store().employees[id].with_classification(classification@, schedule),
            final(dao).store(),
            r,
        ),
{
    let mut emp = fetch_for_change(dao, id)?;
    emp.classification = classification;
    emp.schedule = schedule;
    write_back(dao, emp)
}

/// Gives an employee a new payment method.
pub fn chg_method<D: EmployeeDao>(dao: &mut D, id: EmployeeId, method: PaymentMethod) -> (r:
    Result<(), UsecaseError>)
    requires
        old(dao).inv(),
    ensures
        final(dao).inv(),
        employee_changed(
            old(dao).store(),
            id,
            old(dao).store().employees[id].with_method(method@),
            final(dao).store(),
            r,
        ),
{
    let mut emp = fetch_for_change(dao, id)?;
    emp.method = method;
    write_back(dao, emp)
}

/// Deletes an employee.
pub fn del_employee<D: EmployeeDao>(dao: &mut D, id: EmployeeId) -> (r: Result<(), UsecaseError>)
    requires
        old(dao).inv(),
    ensures
        final(dao).inv(),
        employee_deleted(old(dao).store(), id, final(dao).store(), r),
{
    match dao.remove(id) {
        Ok(()) => Ok(()),
        Err(e) => Err(UsecaseError::FailedToDelete(e)),
    }
}

/// Records `member_id` as the union membership of `emp_id`.
pub fn record_membership<D: EmployeeDao>(
    dao: &mut D,
    member_id: MemberId,
    emp_id: EmployeeId,
) -> (r: Result<(), UsecaseError>)
    requires
        old(dao).inv(),
    ensures
        final(dao).inv(),
        membership_recorded(old(dao).store(), member_id, emp_id, final(dao).store(), r),
{
    match dao.add_union_member(member_id, emp_id) {
        Ok(()) => Ok(()),
        Err(e) => Err(UsecaseError::FailedToAddUnionMember(e)),
    }
}

/// Records the union membership, then gives the employee the affiliation.
/// When the employee is missing, the membership just recorded is taken back.
pub fn add_union_affiliation<D: EmployeeDao>(
    dao: &mut D,
    member_id: MemberId,
    emp_id: EmployeeId,
    affiliation: Affiliation,
) -> (r: Result<(), UsecaseError>)
    requires
        old(dao).inv(),
    ensures
        final(dao).inv(),
        union_affiliation_added(
            old(dao).store(),
            member_id,
            emp_id,
            affiliation@,
            final(dao).store(),
            r,
        ),
{
    record_membership(dao, member_id, emp_id)?;
    let mut emp = match fetch_for_change(dao, emp_id) {
        Ok(emp) => emp,
        Err(e) => {
            let ghost before = dao.store();
            let _ = dao.remove_union_member(member_id);
            proof {
                assert(before.members.remove(member_id) =~= old(dao).store().members);
            }
            return Err(e);
        },
    };
    emp.affiliation = affiliation;
    write_back(dao, emp)
}

/// Forgets the union membership recorded under the member id of the
/// employee's union affiliation.
pub fn remove_membership<D: EmployeeDao>(dao: &mut D, emp_id: EmployeeId) -> (r: Result<
    (),
    UsecaseError,
>)
    requires
        old(dao).inv(),
    ensures
        final(dao).inv(),
        membership_removed(old(dao).store(), emp_id, final(dao).store(), r),
{
    let emp = fetch_for_change(dao, emp_id)?;
    let member_id = match &emp.affiliation {
        Affiliation::Union { member_id, .. } => *member_id,
        _ => {
            return Err(UsecaseError::Unexpected("didn't union affiliation".to_owned()));
        },
    };
    match dao.remove_union_member(member_id) {
        Ok(()) => Ok(()),
        Err(e) => Err(UsecaseError::FailedToDeleteUnionMember(e)),
    }
}

/// Forgets the employee's union membership, then gives the employee the
/// affiliation.
pub fn del_union_affiliation<D: EmployeeDao>(
    dao: &mut D,
    emp_id: EmployeeId,
    affiliation: Affiliation,
) -> (r: Result<(), UsecaseError>)
    requires
        old(dao).inv(),
    ensures
        final(dao).inv(),
        union_affiliation_removed(
            old(dao).store(),
            emp_id,
            affiliation@,
            final(dao).store(),
            r,
        ),
{
    remove_membership(dao, emp_id)?;
    let mut emp = fetch_for_change(dao, emp_id)?;
    emp.affiliation = affiliation;
    write_back(dao, emp)
}

/// Gives an hourly employee one more time card.
pub fn add_time_card<D: EmployeeDao>(dao: &mut D, id: EmployeeId, card: TimeCard) -> (r: Result<
    (),
    UsecaseError,
>)
    requires
        old(dao).inv(),
    ensures
        final(dao).inv(),
        timecard_added(old(dao).store(), id, card, final(dao).store(), r),
{
    let mut emp = fetch_for_change(dao, id)?;
    match &mut emp.classification {
        PaymentClassification::Hourly { timecards, .. } => {
            timecards.push(card);
        },
        _ => {
            return Err(UsecaseError::Unexpected("didn't hourly classification".to_owned()));
        },
    }
    write_back(dao, emp)
}

/// Gives a commissioned employee one more sales receipt.
pub fn add_sales_receipt<D: EmployeeDao>(
    dao: &mut D,
    id: EmployeeId,
    receipt: SalesReceipt,
) -> (r: Result<(), UsecaseError>)
    requires
        old(dao).inv(),
    ensures
        final(dao).inv(),
        sales_receipt_added(old(dao).store(), id, receipt, final(dao).store(), r),
{
    let mut emp = fetch_for_change(dao, id)?;
    match &mut emp.classification {
        PaymentClassification::Commissioned { sales_receipts, .. } => {
            sales_receipts.push(receipt);
        },
        _ => {
            return Err(
                UsecaseError::Unexpected("didn't commissioned classification".to_owned()),
            );
        },
    }
    write_back(dao, emp)
}

/// Gives the union member with the member id one more service charge.
pub fn add_service_charge<D: EmployeeDao>(
    dao: &mut D,
    member_id: MemberId,
    charge: ServiceCharge,
) -> (r: Result<(), UsecaseError>)
    requires
        old(dao).inv(),
    ensures
        final(dao).inv(),
        service_charge_added(old(dao).store(), member_id, charge, final(dao).store(), r),
{
    let emp_id = match dao.find_union_member(member_id) {
        Ok(id) => id,
        Err(e) => {
            return Err(UsecaseError::FailedToGetUnionMember(e));
        },
    };
    let mut emp = fetch_for_change(dao, emp_id)?;
    match &mut emp.affiliation {
        Affiliation::Union { service_charges, .. } => {
            service_charges.push(charge);
        },
        _ => {
            return Err(UsecaseError::Unexpected("didn't union affiliation".to_owned()));
        },
    }
    write_back(dao, emp)
}

/// Pays every employee whose payday `pay_date` is, in the store's order. A
/// failed listing of the employees is a failure to get; a failed recording of
/// a paycheck is a failure to update, and ends the payday.
pub fn payday<D: EmployeeDao, C: PayCalculator>(dao: &mut D, calc: &C, pay_date: Date) -> (r:
    Result<(), UsecaseError>)
    requires
        old(dao).inv(),
    ensures
        final(dao).inv(),
        payday_done(old(dao).store(), *calc, pay_date, final(dao).store(), r),
        D::reliable() ==> r is Ok,
{
    match pay_all(dao, calc, pay_date) {
        Ok(()) => Ok(()),
        Err(PaydayFailure::Listing(e)) => Err(UsecaseError::FailedToGet(e)),
        Err(PaydayFailure::Recording(e)) => Err(UsecaseError::FailedToUpdate(e)),
    }
}

} // verus!
