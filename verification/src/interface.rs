//! The use cases that the transactions run: each reads the store, changes
//! one employee (or the union memberships, or the paychecks) and writes the
//! change back, or fails, reports which use case failed and why, and leaves
//! the store as it was.
use vstd::prelude::*;

use crate::dao::{DaoError, EmployeeDao, Store, enumerates};
use crate::pay::PayCalculator;
use crate::domain::{
    Affiliation, AffiliationModel, Amount, ClassificationModel, Date, Employee, EmployeeId,
    EmployeeModel, MemberId, PaymentClassification, PaymentMethod, PaymentSchedule, Paycheck,
    SalesReceipt, ServiceCharge, TimeCard,
};

verus! {

#[derive(Debug, PartialEq)]
pub enum UsecaseError {
    AddEmployeeFailed(DaoError),
    EmployeeRetrievalFailed(DaoError),
    DeleteEmployeeFailed(DaoError),
    AddTimeCardFailed(DaoError),
    AddSalesReceiptFailed(DaoError),
    AddServiceChargeFailed(DaoError),
    ChangeEmployeeNameFailed(DaoError),
    ChangeEmployeeAddressFailed(DaoError),
    ChangePaymentClassificationFailed(DaoError),
    ChangePaymentMethodFailed(DaoError),
    ChangeMemberFailed(DaoError),
    ChangeNoMemberFailed(DaoError),
    PaydayFailed(DaoError),
    UnexpectedError(String),
}

pub open spec fn not_hourly_message() -> Seq<char> {
    "classification is not HourlyClassification"@
}

pub open spec fn not_commissioned_message() -> Seq<char> {
    "classification is not CommissionedClassification"@
}

pub open spec fn not_union_message() -> Seq<char> {
    "didn't union affiliation"@
}

/// `e` is a store error of the unexpected kind that carries `message`.
pub open spec fn is_unexpected(e: DaoError, message: Seq<char>) -> bool {
    e matches DaoError::UnexpectedError(m) && m@ == message
}

// ---------------------------------------------------------------------------
// The effect of each use case on the store
// ---------------------------------------------------------------------------

pub open spec fn add_employee_ok(s: Store, emp: EmployeeModel) -> bool {
    !s.has(emp.id)
}

pub open spec fn delete_employee_ok(s: Store, id: EmployeeId) -> bool {
    s.has(id)
}

pub open spec fn after_delete_employee(s: Store, id: EmployeeId) -> Store {
    s.drop(id)
}

pub open spec fn add_timecard_ok(s: Store, id: EmployeeId) -> bool {
    s.has(id) && s.employees[id].is_hourly()
}

pub open spec fn add_sales_receipt_ok(s: Store, id: EmployeeId) -> bool {
    s.has(id) && s.employees[id].is_commissioned()
}

/// The employee that a union member id belongs to.
pub open spec fn member_employee(s: Store, member_id: MemberId) -> EmployeeId {
    s.members[member_id]
}

pub open spec fn add_service_charge_ok(s: Store, member_id: MemberId) -> bool {
    &&& s.members.contains_key(member_id)
    &&& s.has(member_employee(s, member_id))
    &&& s.employees[member_employee(s, member_id)].is_union_member()
}

pub open spec fn union_affiliation(member_id: MemberId, dues: u32) -> AffiliationModel {
    AffiliationModel::Union { member_id, dues, service_charges: Seq::empty() }
}

pub open spec fn change_member_ok(s: Store, member_id: MemberId, emp_id: EmployeeId) -> bool {
    !s.members.contains_key(member_id) && s.has(emp_id)
}

pub open spec fn after_change_member(
    s: Store,
    member_id: MemberId,
    emp_id: EmployeeId,
    dues: u32,
) -> Store {
    s.with_members(s.members.insert(member_id, emp_id)).put(
        s.employees[emp_id].with_affiliation(union_affiliation(member_id, dues)),
    )
}

/// The member id of a union member's affiliation.
pub open spec fn affiliation_member_id(e: EmployeeModel) -> MemberId {
    match e.affiliation {
        AffiliationModel::Union { member_id, .. } => member_id,
        AffiliationModel::NoAffiliation => 0,
    }
}

pub open spec fn change_no_member_ok(s: Store, emp_id: EmployeeId) -> bool {
    &&& s.has(emp_id)
    &&& s.employees[emp_id].is_union_member()
    &&& s.members.contains_key(affiliation_member_id(s.employees[emp_id]))
}

pub open spec fn after_change_no_member(s: Store, emp_id: EmployeeId) -> Store {
    s.with_members(s.members.remove(affiliation_member_id(s.employees[emp_id]))).put(
        s.employees[emp_id].with_affiliation(AffiliationModel::NoAffiliation),
    )
}

/// The paychecks that a payday records, in the order of `listing`.
pub open spec fn payday_records<C: PayCalculator>(
    employees: Map<EmployeeId, EmployeeModel>,
    listing: Seq<EmployeeId>,
    calc: C,
    pay_date: Date,
) -> Seq<(EmployeeId, Paycheck)>
    decreases listing.len(),
{
    if listing.len() == 0 {
        Seq::empty()
    } else {
        let rest = payday_records(employees, listing.drop_last(), calc, pay_date);
        let id = listing.last();
        match calc.spec_paycheck(employees[id], pay_date) {
            Some(pc) => rest.push((id, pc)),
            None => rest,
        }
    }
}

// ---------------------------------------------------------------------------
// Changes to one employee
// ---------------------------------------------------------------------------

/// Gives an hourly employee one more time card; any other employee is refused.
pub fn add_timecard_to(emp: &mut Employee, card: TimeCard) -> (r: Result<(), DaoError>)
    ensures
        old(emp)@.is_hourly() ==> r is Ok && final(emp)@ == old(emp)@.with_timecard(card),
        !old(emp)@.is_hourly() ==> (r matches Err(e) && is_unexpected(e, not_hourly_message()))
            && final(emp)@ == old(emp)@,
        old(emp)@.classification matches ClassificationModel::Hourly { hourly_rate, timecards }
            ==> final(emp)@.classification == (ClassificationModel::Hourly {
            hourly_rate,
            timecards: timecards.push(card),
        }),
{
    match &mut emp.classification {
        PaymentClassification::Hourly { timecards, .. } => {
            timecards.push(card);
            Ok(())
        },
        _ => Err(
            DaoError::UnexpectedError("classification is not HourlyClassification".to_owned()),
        ),
    }
}

/// Gives a commissioned employee one more sales receipt; any other employee
/// is refused.
pub fn add_sales_receipt_to(emp: &mut Employee, receipt: SalesReceipt) -> (r: Result<
    (),
    DaoError,
>)
    ensures
        old(emp)@.is_commissioned() ==> r is Ok && final(emp)@ == old(emp)@.with_sales_receipt(
            receipt,
        ),
        !old(emp)@.is_commissioned() ==> (r matches Err(e) && is_unexpected(
            e,
            not_commissioned_message(),
        )) && final(emp)@ == old(emp)@,
        old(emp)@.classification matches ClassificationModel::Commissioned {
            salary,
            commission_rate,
            sales_receipts,
        } ==> final(emp)@.classification == (ClassificationModel::Commissioned {
            salary,
            commission_rate,
            sales_receipts: sales_receipts.push(receipt),
        }),
{
    match &mut emp.classification {
        PaymentClassification::Commissioned { sales_receipts, .. } => {
            sales_receipts.push(receipt);
            Ok(())
        },
        _ => Err(
            DaoError::UnexpectedError(
                "classification is not CommissionedClassification".to_owned(),
            ),
        ),
    }
}

/// Gives a union member one more service charge; any other employee is refused.
pub fn add_service_charge_to(emp: &mut Employee, charge: ServiceCharge) -> (r: Result<
    (),
    DaoError,
>)
    ensures
        old(emp)@.is_union_member() ==> r is Ok && final(emp)@ == old(emp)@.with_service_charge(
            charge,
        ),
        !old(emp)@.is_union_member() ==> (r matches Err(e) && is_unexpected(
            e,
            not_union_message(),
        )) && final(emp)@ == old(emp)@,
        old(emp)@.affiliation matches AffiliationModel::Union { member_id, dues, service_charges }
            ==> final(emp)@.affiliation == (AffiliationModel::Union {
            member_id,
            dues,
            service_charges: service_charges.push(charge),
        }),
{
    match &mut emp.affiliation {
        Affiliation::Union { service_charges, .. } => {
            service_charges.push(charge);
            Ok(())
        },
        _ => Err(DaoError::UnexpectedError("didn't union affiliation".to_owned())),
    }
}

/// Forgets the union membership recorded under the member id of an
/// employee's union affiliation.
pub fn remove_membership<D: EmployeeDao>(dao: &mut D, emp_id: EmployeeId) -> (r: Result<
    (),
    DaoError,
>)
    requires
        old(dao).inv(),
    ensures
        final(dao).inv(),
        change_no_member_ok(old(dao).store(), emp_id) ==> r is Ok && final(dao).store() == old(
            dao,
        ).store().with_members(
            old(dao).store().members.remove(
                affiliation_member_id(old(dao).store().employees[emp_id]),
            ),
        ),
        !change_no_member_ok(old(dao).store(), emp_id) ==> r is Err && final(dao).store() == old(
            dao,
        ).store(),
        !old(dao).store().has(emp_id) ==> r == Err::<(), DaoError>(DaoError::NotFound(emp_id)),
        old(dao).store().has(emp_id) && !old(dao).store().employees[emp_id].is_union_member() ==> (
        r matches Err(e) && is_unexpected(e, not_union_message())),
        old(dao).store().has(emp_id) && old(dao).store().employees[emp_id].is_union_member()
            && !old(dao).store().members.contains_key(
            affiliation_member_id(old(dao).store().employees[emp_id]),
        ) ==> r == Err::<(), DaoError>(
            DaoError::MemberNotFound(affiliation_member_id(old(dao).store().employees[emp_id])),
        ),
{
    let emp = dao.fetch(emp_id)?;
    let member_id = match &emp.affiliation {
        Affiliation::Union { member_id, .. } => *member_id,
        _ => {
            return Err(DaoError::UnexpectedError("didn't union affiliation".to_owned()));
        },
    };
    dao.remove_union_member(member_id)
}

// ---------------------------------------------------------------------------
// The use cases
// ---------------------------------------------------------------------------

/// Adds a new employee.
pub fn add_employee<D: EmployeeDao>(dao: &mut D, emp: Employee) -> (r: Result<(), UsecaseError>)
    requires
        old(dao).inv(),
    ensures
        final(dao).inv(),
        add_employee_ok(old(dao).store(), emp@) ==> r == Ok::<(), UsecaseError>(())
            && final(dao).store() == old(dao).store().add(emp@),
        !add_employee_ok(old(dao).store(), emp@) ==> r == Err::<(), UsecaseError>(
            UsecaseError::AddEmployeeFailed(DaoError::AlreadyExists(emp@.id)),
        ) && final(dao).store() == old(dao).store(),
{
    match dao.insert(emp) {
        Ok(_) => Ok(()),
        Err(e) => Err(UsecaseError::AddEmployeeFailed(e)),
    }
}

/// Deletes an employee.
pub fn delete_employee<D: EmployeeDao>(dao: &mut D, id: EmployeeId) -> (r: Result<
    (),
    UsecaseError,
>)
    requires
        old(dao).inv(),
    ensures
        final(dao).inv(),
        delete_employee_ok(old(dao).store(), id) ==> r == Ok::<(), UsecaseError>(())
            && final(dao).store() == after_delete_employee(old(dao).store(), id),
        !delete_employee_ok(old(dao).store(), id) ==> r == Err::<(), UsecaseError>(
            UsecaseError::DeleteEmployeeFailed(DaoError::NotFound(id)),
        ) && final(dao).store() == old(dao).store(),
{
    match dao.remove(id) {
        Ok(()) => Ok(()),
        Err(e) => Err(UsecaseError::DeleteEmployeeFailed(e)),
    }
}

/// Adds a time card to an hourly employee.
pub fn add_timecard<D: EmployeeDao>(dao: &mut D, id: EmployeeId, card: TimeCard) -> (r: Result<
    (),
    UsecaseError,
>)
    requires
        old(dao).inv(),
    ensures
        final(dao).inv(),
        add_timecard_ok(old(dao).store(), id) ==> r == Ok::<(), UsecaseError>(())
            && final(dao).store() == old(dao).store().put(
            old(dao).store().employees[id].with_timecard(card),
        ),
        !add_timecard_ok(old(dao).store(), id) ==> r is Err && final(dao).store() == old(
            dao,
        ).store(),
        !old(dao).store().has(id) ==> r == Err::<(), UsecaseError>(
            UsecaseError::AddTimeCardFailed(DaoError::NotFound(id)),
        ),
        old(dao).store().has(id) && !old(dao).store().employees[id].is_hourly() ==> (r matches Err(
            UsecaseError::AddTimeCardFailed(e),
        ) && is_unexpected(e, not_hourly_message())),
{
    let mut emp = match dao.fetch(id) {
        Ok(emp) => emp,
        Err(e) => {
            return Err(UsecaseError::AddTimeCardFailed(e));
        },
    };
    match add_timecard_to(&mut emp, card) {
        Ok(()) => {},
        Err(e) => {
            return Err(UsecaseError::AddTimeCardFailed(e));
        },
    }
    match dao.update(emp) {
        Ok(()) => Ok(()),
        Err(e) => Err(UsecaseError::AddTimeCardFailed(e)),
    }
}

/// Adds a sales receipt to a commissioned employee.
pub fn add_sales_receipt<D: EmployeeDao>(
    dao: &mut D,
    id: EmployeeId,
    receipt: SalesReceipt,
) -> (r: Result<(), UsecaseError>)
    requires
        old(dao).inv(),
    ensures
        final(dao).inv(),
        add_sales_receipt_ok(old(dao).store(), id) ==> r == Ok::<(), UsecaseError>(())
            && final(dao).store() == old(dao).store().put(
            old(dao).store().employees[id].with_sales_receipt(receipt),
        ),
        !add_sales_receipt_ok(old(dao).store(), id) ==> r is Err && final(dao).store() == old(
            dao,
        ).store(),
        !old(dao).store().has(id) ==> r == Err::<(), UsecaseError>(
            UsecaseError::AddSalesReceiptFailed(DaoError::NotFound(id)),
        ),
        old(dao).store().has(id) && !old(dao).store().employees[id].is_commissioned() ==> (
        r matches Err(UsecaseError::AddSalesReceiptFailed(e)) && is_unexpected(
            e,
            not_commissioned_message(),
        )),
{
    let mut emp = match dao.fetch(id) {
        Ok(emp) => emp,
        Err(e) => {
            return Err(UsecaseError::AddSalesReceiptFailed(e));
        },
    };
    match add_sales_receipt_to(&mut emp, receipt) {
        Ok(()) => {},
        Err(e) => {
            return Err(UsecaseError::AddSalesReceiptFailed(e));
        },
    }
    match dao.update(emp) {
        Ok(()) => Ok(()),
        Err(e) => Err(UsecaseError::AddSalesReceiptFailed(e)),
    }
}

/// Adds a service charge to the union member with the given member id.
pub fn add_service_charge<D: EmployeeDao>(
    dao: &mut D,
    member_id: MemberId,
    charge: ServiceCharge,
) -> (r: Result<(), UsecaseError>)
    requires
        old(dao).inv(),
    ensures
        final(dao).inv(),
        add_service_charge_ok(old(dao).store(), member_id) ==> r == Ok::<(), UsecaseError>(())
            && final(dao).store() == old(dao).store().put(
            old(dao).store().employees[member_employee(
                old(dao).store(),
                member_id,
            )].with_service_charge(charge),
        ),
        !add_service_charge_ok(old(dao).store(), member_id) ==> r is Err && final(dao).store()
            == old(dao).store(),
        !old(dao).store().members.contains_key(member_id) ==> r == Err::<(), UsecaseError>(
            UsecaseError::AddServiceChargeFailed(DaoError::MemberNotFound(member_id)),
        ),
        old(dao).store().members.contains_key(member_id) && !old(dao).store().has(
            member_employee(old(dao).store(), member_id),
        ) ==> r == Err::<(), UsecaseError>(
            UsecaseError::AddServiceChargeFailed(
                DaoError::NotFound(member_employee(old(dao).store(), member_id)),
            ),
        ),
        old(dao).store().members.contains_key(member_id) && old(dao).store().has(
            member_employee(old(dao).store(), member_id),
        ) && !old(dao).store().employees[member_employee(
            old(dao).store(),
            member_id,
        )].is_union_member() ==> (r matches Err(UsecaseError::AddServiceChargeFailed(e))
            && is_unexpected(e, not_union_message())),
{
    let emp_id = match dao.find_union_member(member_id) {
        Ok(id) => id,
        Err(e) => {
            return Err(UsecaseError::AddServiceChargeFailed(e));
        },
    };
    let mut emp = match dao.fetch(emp_id) {
        Ok(emp) => emp,
        Err(e) => {
            return Err(UsecaseError::AddServiceChargeFailed(e));
        },
    };
    match add_service_charge_to(&mut emp, charge) {
        Ok(()) => {},
        Err(e) => {
            return Err(UsecaseError::AddServiceChargeFailed(e));
        },
    }
    match dao.update(emp) {
        Ok(()) => Ok(()),
        Err(e) => Err(UsecaseError::AddServiceChargeFailed(e)),
    }
}

/// Renames an employee.
pub fn change_employee_name<D: EmployeeDao>(dao: &mut D, id: EmployeeId, new_name: &str) -> (r:
    Result<(), UsecaseError>)
    requires
        old(dao).inv(),
    ensures
        final(dao).inv(),
        old(dao).store().has(id) ==> r == Ok::<(), UsecaseError>(()) && final(dao).store() == old(
            dao,
        ).store().put(old(dao).store().employees[id].with_name(new_name@)),
        !old(dao).store().has(id) ==> r == Err::<(), UsecaseError>(
            UsecaseError::ChangeEmployeeNameFailed(DaoError::NotFound(id)),
        ) && final(dao).store() == old(dao).store(),
{
    let mut emp = match dao.fetch(id) {
        Ok(emp) => emp,
        Err(e) => {
            return Err(UsecaseError::ChangeEmployeeNameFailed(e));
        },
    };
    emp.name = new_name.to_owned();
    match dao.update(emp) {
        Ok(()) => Ok(()),
        Err(e) => Err(UsecaseError::ChangeEmployeeNameFailed(e)),
    }
}

/// Changes an employee's address.
pub fn change_employee_address<D: EmployeeDao>(
    dao: &mut D,
    id: EmployeeId,
    new_address: &str,
) -> (r: Result<(), UsecaseError>)
    requires
        old(dao).inv(),
    ensures
        final(dao).inv(),
        old(dao).store().has(id) ==> r == Ok::<(), UsecaseError>(()) && final(dao).store() == old(
            dao,
        ).store().put(old(dao).store().employees[id].with_address(new_address@)),
        !old(dao).store().has(id) ==> r == Err::<(), UsecaseError>(
            UsecaseError::ChangeEmployeeAddressFailed(DaoError::NotFound(id)),
        ) && final(dao).store() == old(dao).store(),
{
    let mut emp = match dao.fetch(id) {
        Ok(emp) => emp,
        Err(e) => {
            return Err(UsecaseError::ChangeEmployeeAddressFailed(e));
        },
    };
    emp.address = new_address.to_owned();
    match dao.update(emp) {
        Ok(()) => Ok(()),
        Err(e) => Err(UsecaseError::ChangeEmployeeAddressFailed(e)),
    }
}

/// Gives an employee a new payment classification and the schedule that goes with it.
pub fn change_classification<D: EmployeeDao>(
    dao: &mut D,
    id: EmployeeId,
    classification: PaymentClassification,
    schedule: PaymentSchedule,
) -> (r: Result<(), UsecaseError>)
    requires
        old(dao).inv(),
    ensures
        final(dao).inv(),
        old(dao).store().has(id) ==> r == Ok::<(), UsecaseError>(()) && final(dao).store() == old(
            dao,
        ).store().put(
            old(dao).store().employees[id].with_classification(classification@, schedule),
        ),
        !old(dao).store().has(id) ==> r == Err::<(), UsecaseError>(
            UsecaseError::ChangePaymentClassificationFailed(DaoError::NotFound(id)),
        ) && final(dao).store() == old(dao).store(),
{
    let mut emp = match dao.fetch(id) {
        Ok(emp) => emp,
        Err(e) => {
            return Err(UsecaseError::ChangePaymentClassificationFailed(e));
        },
    };
    emp.classification = classification;
    emp.schedule = schedule;
    match dao.update(emp) {
        Ok(()) => Ok(()),
        Err(e) => Err(UsecaseError::ChangePaymentClassificationFailed(e)),
    }
}

/// Gives an employee a new payment method.
pub fn change_method<D: EmployeeDao>(dao: &mut D, id: EmployeeId, method: PaymentMethod) -> (r:
    Result<(), UsecaseError>)
    requires
        old(dao).inv(),
    ensures
        final(dao).inv(),
        old(dao).store().has(id) ==> r == Ok::<(), UsecaseError>(()) && final(dao).store() == old(
            dao,
        ).store().put(old(dao).store().employees[id].with_method(method@)),
        !old(dao).store().has(id) ==> r == Err::<(), UsecaseError>(
            UsecaseError::ChangePaymentMethodFailed(DaoError::NotFound(id)),
        ) && final(dao).store() == old(dao).store(),
{
    let mut emp = match dao.fetch(id) {
        Ok(emp) => emp,
        Err(e) => {
            return Err(UsecaseError::ChangePaymentMethodFailed(e));
        },
    };
    emp.method = method;
    match dao.update(emp) {
        Ok(()) => Ok(()),
        Err(e) => Err(UsecaseError::ChangePaymentMethodFailed(e)),
    }
}

/// Makes an employee a union member: records the membership, then gives the
/// employee the union affiliation. When the employee is missing, the
/// membership just recorded is taken back.
pub fn change_member<D: EmployeeDao>(
    dao: &mut D,
    member_id: MemberId,
    emp_id: EmployeeId,
    dues: u32,
) -> (r: Result<(), UsecaseError>)
    requires
        old(dao).inv(),
    ensures
        final(dao).inv(),
        change_member_ok(old(dao).store(), member_id, emp_id) ==> r == Ok::<(), UsecaseError>(())
            && final(dao).store() == after_change_member(old(dao).store(), member_id, emp_id, dues),
        !change_member_ok(old(dao).store(), member_id, emp_id) ==> final(dao).store() == old(
            dao,
        ).store(),
        old(dao).store().members.contains_key(member_id) ==> r == Err::<(), UsecaseError>(
            UsecaseError::ChangeMemberFailed(DaoError::MemberAlreadyExists(member_id)),
        ),
        !old(dao).store().members.contains_key(member_id) && !old(dao).store().has(emp_id) ==> r
            == Err::<(), UsecaseError>(
            UsecaseError::ChangeMemberFailed(DaoError::NotFound(emp_id)),
        ),
{
    match dao.add_union_member(member_id, emp_id) {
        Ok(()) => {},
        Err(e) => {
            return Err(UsecaseError::ChangeMemberFailed(e));
        },
    }
    let mut emp = match dao.fetch(emp_id) {
        Ok(emp) => emp,
        Err(e) => {
            let ghost before = dao.store();
            let _ = dao.remove_union_member(member_id);
            proof {
                assert(before.members.remove(member_id) =~= old(dao).store().members);
                assert(dao.store().members == old(dao).store().members);
                assert(dao.store() == old(dao).store());
            }
            return Err(UsecaseError::ChangeMemberFailed(e));
        },
    };
    emp.affiliation = Affiliation::union_member(member_id, dues);
    match dao.update(emp) {
        Ok(()) => Ok(()),
        Err(e) => Err(UsecaseError::ChangeMemberFailed(e)),
    }
}

/// Takes an employee out of the union: forgets the membership recorded under
/// the employee's member id, then gives the employee no affiliation.
pub fn change_no_member<D: EmployeeDao>(dao: &mut D, emp_id: EmployeeId) -> (r: Result<
    (),
    UsecaseError,
>)
    requires
        old(dao).inv(),
    ensures
        final(dao).inv(),
        change_no_member_ok(old(dao).store(), emp_id) ==> r == Ok::<(), UsecaseError>(())
            && final(dao).store() == after_change_no_member(old(dao).store(), emp_id),
        !change_no_member_ok(old(dao).store(), emp_id) ==> r is Err && final(dao).store() == old(
            dao,
        ).store(),
        !old(dao).store().has(emp_id) ==> r == Err::<(), UsecaseError>(
            UsecaseError::ChangeNoMemberFailed(DaoError::NotFound(emp_id)),
        ),
        old(dao).store().has(emp_id) && !old(dao).store().employees[emp_id].is_union_member() ==> (
        r matches Err(UsecaseError::ChangeNoMemberFailed(e)) && is_unexpected(
            e,
            not_union_message(),
        )),
        old(dao).store().has(emp_id) && old(dao).store().employees[emp_id].is_union_member()
            && !old(dao).store().members.contains_key(
            affiliation_member_id(old(dao).store().employees[emp_id]),
        ) ==> r == Err::<(), UsecaseError>(
            UsecaseError::ChangeNoMemberFailed(
                DaoError::MemberNotFound(
                    affiliation_member_id(old(dao).store().employees[emp_id]),
                ),
            ),
        ),
{
    match remove_membership(dao, emp_id) {
        Ok(()) => {},
        Err(e) => {
            return Err(UsecaseError::ChangeNoMemberFailed(e));
        },
    }
    let mut emp = match dao.fetch(emp_id) {
        Ok(emp) => emp,
        Err(e) => {
            return Err(UsecaseError::ChangeNoMemberFailed(e));
        },
    };
    emp.affiliation = Affiliation::NoAffiliation;
    match dao.update(emp) {
        Ok(()) => Ok(()),
        Err(e) => Err(UsecaseError::ChangeNoMemberFailed(e)),
    }
}

/// The store call at which a payday stopped, with the error the store answered.
#[derive(Debug, PartialEq)]
pub enum PaydayFailure {
    /// Listing the employees failed; nothing was recorded.
    Listing(DaoError),
    /// Recording a paycheck failed; the paychecks before it stay recorded.
    Recording(DaoError),
}

/// The store after a payday has gone through the employees at positions `i`
/// up to `k` of the store's order, recording the paycheck of each one that is
/// due.
pub open spec fn paid_between<C: PayCalculator>(
    s: Store,
    calc: C,
    pay_date: Date,
    i: int,
    k: int,
) -> Store {
    s.with_paychecks(
        s.paychecks + payday_records(s.employees, s.order.subrange(i, k), calc, pay_date),
    )
}

/// The store after a payday has gone through the first `k` employees of the
/// store's order, recording the paycheck of each one that is due.
pub open spec fn paid_through<C: PayCalculator>(
    s: Store,
    calc: C,
    pay_date: Date,
    k: int,
) -> Store {
    paid_between(s, calc, pay_date, 0, k)
}

/// The employee at position `k` of the store's order is due on `pay_date`.
pub open spec fn due_at<C: PayCalculator>(s: Store, calc: C, pay_date: Date, k: int) -> bool {
    calc.spec_paycheck(s.employees[s.order[k]], pay_date) is Some
}

/// `emps` lists the employees of `s`, with their ids, in the store's order.
pub open spec fn lists(emps: Seq<(EmployeeId, Employee)>, s: Store) -> bool {
    &&& emps.len() == s.order.len()
    &&& forall|j: int|
        0 <= j < emps.len() ==> (#[trigger] emps[j]).0 == s.order[j] && emps[j].1@
            == s.employees[s.order[j]]
}

/// The store after a payday that went through the whole order.
pub open spec fn paid_all<C: PayCalculator>(s: Store, calc: C, pay_date: Date) -> Store {
    s.with_paychecks(s.paychecks + payday_records(s.employees, s.order, calc, pay_date))
}

/// Recording the paycheck of a due employee failed, after the paychecks of the
/// employees before it in the store's order were recorded: `s2` is the store
/// then, and no paycheck was recorded after the failing one.
pub open spec fn payday_recording_stopped<C: PayCalculator>(
    s: Store,
    calc: C,
    pay_date: Date,
    s2: Store,
) -> bool {
    exists|k: int|
        0 <= k < s.order.len() && #[trigger] due_at(s, calc, pay_date, k) && s2 == paid_through(
            s,
            calc,
            pay_date,
            k,
        )
}

/// A payday that failed: either listing the employees failed and the store
/// is as it was, or recording a paycheck failed as `payday_recording_stopped`
/// says.
pub open spec fn payday_stopped<C: PayCalculator>(
    s: Store,
    calc: C,
    pay_date: Date,
    s2: Store,
) -> bool {
    s2 == s || payday_recording_stopped(s, calc, pay_date, s2)
}

/// The paychecks recorded for two lists of employees, one after the other,
/// are those of the two lists joined.
proof fn lemma_records_concat<C: PayCalculator>(
    employees: Map<EmployeeId, EmployeeModel>,
    a: Seq<EmployeeId>,
    b: Seq<EmployeeId>,
    calc: C,
    pay_date: Date,
)
    ensures
        payday_records(employees, a + b, calc, pay_date) == payday_records(
            employees,
            a,
            calc,
            pay_date,
        ) + payday_records(employees, b, calc, pay_date),
    decreases b.len(),
{
    if b.len() == 0 {
        assert(a + b =~= a);
        assert(payday_records(employees, a, calc, pay_date) + payday_records(
            employees,
            b,
            calc,
            pay_date,
        ) =~= payday_records(employees, a, calc, pay_date));
    } else {
        lemma_records_concat(employees, a, b.drop_last(), calc, pay_date);
        assert((a + b).drop_last() =~= a + b.drop_last());
        assert((a + b).last() == b.last());
        let ra = payday_records(employees, a, calc, pay_date);
        let rb = payday_records(employees, b.drop_last(), calc, pay_date);
        match calc.spec_paycheck(employees[b.last()], pay_date) {
            Some(pc) => {
                assert((ra + rb).push((b.last(), pc)) =~= ra + rb.push((b.last(), pc)));
            },
            None => {},
        }
    }
}

/// Going through positions `i` up to `k` is going through the one at `i`,
/// then the rest.
proof fn lemma_paid_between_step<C: PayCalculator>(
    s: Store,
    calc: C,
    pay_date: Date,
    i: int,
    k: int,
)
    requires
        0 <= i < k <= s.order.len(),
    ensures
        payday_records(s.employees, s.order.subrange(i, k), calc, pay_date) == payday_records(
            s.employees,
            s.order.subrange(i, i + 1),
            calc,
            pay_date,
        ) + payday_records(s.employees, s.order.subrange(i + 1, k), calc, pay_date),
        payday_records(s.employees, s.order.subrange(i, i + 1), calc, pay_date) == (match calc
            .spec_paycheck(s.employees[s.order[i]], pay_date) {
            Some(pc) => seq![(s.order[i], pc)],
            None => Seq::<(EmployeeId, Paycheck)>::empty(),
        }),
{
    assert(s.order.subrange(i, k) =~= s.order.subrange(i, i + 1) + s.order.subrange(i + 1, k));
    lemma_records_concat(
        s.employees,
        s.order.subrange(i, i + 1),
        s.order.subrange(i + 1, k),
        calc,
        pay_date,
    );
    let one = s.order.subrange(i, i + 1);
    assert(one.drop_last() =~= Seq::<EmployeeId>::empty());
    assert(one.last() == s.order[i]);
    assert(payday_records(s.employees, one.drop_last(), calc, pay_date)
        =~= Seq::<(EmployeeId, Paycheck)>::empty());
    match calc.spec_paycheck(s.employees[s.order[i]], pay_date) {
        Some(pc) => {
            assert(Seq::<(EmployeeId, Paycheck)>::empty().push((s.order[i], pc)) =~= seq![
                (s.order[i], pc),
            ]);
        },
        None => {},
    }
}

/// Goes through the listed employees from position `i` on, recording the
/// paycheck of each one that is due, and stops at the first recording that
/// fails.
pub fn pay_from<D: EmployeeDao, C: PayCalculator>(
    dao: &mut D,
    calc: &C,
    pay_date: Date,
    emps: &Vec<(EmployeeId, Employee)>,
    i: usize,
) -> (r: Result<(), PaydayFailure>)
    requires
        old(dao).inv(),
        lists(emps@, old(dao).store()),
        i <= emps@.len(),
    ensures
        final(dao).inv(),
        r is Ok ==> final(dao).store() == paid_between(
            old(dao).store(),
            *calc,
            pay_date,
            i as int,
            emps@.len() as int,
        ),
        r is Err ==> (r matches Err(PaydayFailure::Recording(_))) && exists|k: int|
            i <= k < emps@.len() && #[trigger] due_at(old(dao).store(), *calc, pay_date, k)
                && final(dao).store() == paid_between(
                old(dao).store(),
                *calc,
                pay_date,
                i as int,
                k,
            ),
        D::reliable() ==> r is Ok,
    decreases emps@.len() - i, 1int,
{
    let ghost s = dao.store();
    if i >= emps.len() {
        proof {
            assert(s.order.subrange(i as int, emps@.len() as int) =~= Seq::<EmployeeId>::empty());
            assert(s.paychecks + Seq::<(EmployeeId, Paycheck)>::empty() =~= s.paychecks);
        }
        return Ok(());
    }
    let id = emps[i].0;
    proof {
        dao.lemma_store();
        assert(s.employees.contains_key(s.order[i as int]));
        lemma_paid_between_step(s, *calc, pay_date, i as int, emps@.len() as int);
    }
    match calc.paycheck(&emps[i].1, pay_date) {
        None => {
            let r = pay_from(dao, calc, pay_date, emps, i + 1);
            proof {
                assert forall|k: int| i + 1 <= k < emps@.len() implies paid_between(
                    s,
                    *calc,
                    pay_date,
                    i + 1,
                    k,
                ) == paid_between(s, *calc, pay_date, i as int, k) by {
                    lemma_paid_between_step(s, *calc, pay_date, i as int, k);
                    let from_i = s.order.subrange(i as int, k);
                    let from_next = s.order.subrange(i + 1, k);
                    assert(payday_records(s.employees, from_i, *calc, pay_date) =~= payday_records(
                        s.employees,
                        from_next,
                        *calc,
                        pay_date,
                    ));
                }
                assert(payday_records(
                    s.employees,
                    s.order.subrange(i as int, emps@.len() as int),
                    *calc,
                    pay_date,
                ) =~= payday_records(
                    s.employees,
                    s.order.subrange(i + 1, emps@.len() as int),
                    *calc,
                    pay_date,
                ));
            }
            r
        },
        Some(pc) => {
            let recorded = dao.record_paycheck(id, pc);
            let ghost s1 = dao.store();
            let r = pay_after_recording(dao, calc, pay_date, emps, i, recorded);
            proof {
                if recorded is Ok {
                    let one = seq![(id, pc)];
                    assert(s1.paychecks =~= s.paychecks + one);
                    assert forall|k: int| i + 1 <= k < emps@.len() implies paid_between(
                        s1,
                        *calc,
                        pay_date,
                        i + 1,
                        k,
                    ) == paid_between(s, *calc, pay_date, i as int, k) by {
                        lemma_paid_between_step(s, *calc, pay_date, i as int, k);
                        let rest = payday_records(
                            s.employees,
                            s.order.subrange(i + 1, k),
                            *calc,
                            pay_date,
                        );
                        assert(s.paychecks + one + rest =~= s.paychecks + (one + rest));
                    }
                    let rest = payday_records(
                        s.employees,
                        s.order.subrange(i + 1, emps@.len() as int),
                        *calc,
                        pay_date,
                    );
                    assert(s.paychecks + one + rest =~= s.paychecks + (one + rest));
                    if r is Err {
                        let k = choose|k: int|
                            i + 1 <= k < emps@.len() && #[trigger] due_at(s1, *calc, pay_date, k)
                                && dao.store() == paid_between(s1, *calc, pay_date, i + 1, k);
                        assert(due_at(s, *calc, pay_date, k));
                    }
                } else {
                    assert(s.order.subrange(i as int, i as int) =~= Seq::<EmployeeId>::empty());
                    assert(s.paychecks + Seq::<(EmployeeId, Paycheck)>::empty() =~= s.paychecks);
                    assert(due_at(s, *calc, pay_date, i as int));
                }
            }
            r
        },
    }
}

/// Goes on with a payday after the paycheck of the employee at position `i`
/// was to be recorded, given what the store answered: a failed recording ends
/// the payday with that very error; a successful one goes on from the next
/// position.
pub fn pay_after_recording<D: EmployeeDao, C: PayCalculator>(
    dao: &mut D,
    calc: &C,
    pay_date: Date,
    emps: &Vec<(EmployeeId, Employee)>,
    i: usize,
    recorded: Result<(), DaoError>,
) -> (r: Result<(), PaydayFailure>)
    requires
        old(dao).inv(),
        lists(emps@, old(dao).store()),
        i < emps@.len(),
    ensures
        final(dao).inv(),
        recorded matches Err(e) ==> r == Err::<(), PaydayFailure>(PaydayFailure::Recording(e))
            && final(dao).store() == old(dao).store(),
        recorded is Ok && r is Ok ==> final(dao).store() == paid_between(
            old(dao).store(),
            *calc,
            pay_date,
            i + 1,
            emps@.len() as int,
        ),
        recorded is Ok && r is Err ==> (r matches Err(PaydayFailure::Recording(_))) && exists|
            k: int,
        |
            i + 1 <= k < emps@.len() && #[trigger] due_at(old(dao).store(), *calc, pay_date, k)
                && final(dao).store() == paid_between(
                old(dao).store(),
                *calc,
                pay_date,
                i + 1,
                k,
            ),
        recorded is Ok && D::reliable() ==> r is Ok,
    decreases emps@.len() - i, 0int,
{
    assert(emps@.len() == emps.len());
    match recorded {
        Err(e) => Err(PaydayFailure::Recording(e)),
        Ok(()) => pay_from(dao, calc, pay_date, emps, i + 1),
    }
}

/// Pays the employees given what the store answered when asked to list them:
/// a failed listing ends the payday with that very error and records
/// nothing; a listing goes through the employees in the store's order.
pub fn pay_listed<D: EmployeeDao, C: PayCalculator>(
    dao: &mut D,
    calc: &C,
    pay_date: Date,
    listing: Result<Vec<(EmployeeId, Employee)>, DaoError>,
) -> (r: Result<(), PaydayFailure>)
    requires
        old(dao).inv(),
        listing matches Ok(v) ==> lists(v@, old(dao).store()),
    ensures
        final(dao).inv(),
        listing matches Err(e) ==> r == Err::<(), PaydayFailure>(PaydayFailure::Listing(e))
            && final(dao).store() == old(dao).store(),
        listing is Ok && r is Ok ==> final(dao).store() == paid_all(
            old(dao).store(),
            *calc,
            pay_date,
        ),
        listing is Ok && r is Err ==> (r matches Err(PaydayFailure::Recording(_)))
            && payday_recording_stopped(old(dao).store(), *calc, pay_date, final(dao).store()),
        listing is Ok && D::reliable() ==> r is Ok,
{
    match listing {
        Err(e) => Err(PaydayFailure::Listing(e)),
        Ok(emps) => {
            let ghost s = dao.store();
            let r = pay_from(dao, calc, pay_date, &emps, 0);
            proof {
                assert(s.order.subrange(0, emps@.len() as int) =~= s.order);
                if r is Err {
                    let k = choose|k: int|
                        0 <= k < emps@.len() && #[trigger] due_at(s, *calc, pay_date, k)
                            && dao.store() == paid_between(s, *calc, pay_date, 0, k);
                    assert(due_at(s, *calc, pay_date, k));
                }
            }
            r
        },
    }
}

/// Records, for every employee whose payday `pay_date` is and in the
/// store's order, the paycheck that the pay rules give. Stops at the first
/// store call that fails and answers which call it was and the store's error.
pub fn pay_all<D: EmployeeDao, C: PayCalculator>(dao: &mut D, calc: &C, pay_date: Date) -> (r:
    Result<(), PaydayFailure>)
    requires
        old(dao).inv(),
    ensures
        final(dao).inv(),
        r is Ok ==> final(dao).store() == paid_all(old(dao).store(), *calc, pay_date),
        r matches Err(PaydayFailure::Listing(_)) ==> final(dao).store() == old(dao).store(),
        r matches Err(PaydayFailure::Recording(_)) ==> payday_recording_stopped(
            old(dao).store(),
            *calc,
            pay_date,
            final(dao).store(),
        ),
        D::reliable() ==> r is Ok,
{
    let listing = dao.fetch_all();
    pay_listed(dao, calc, pay_date, listing)
}

/// Pays every employee whose payday `pay_date` is, in the store's order:
/// records the paycheck that the pay rules give for each of them. A store
/// call that fails ends the payday, which answers the store's error as its
/// own failure.
pub fn payday<D: EmployeeDao, C: PayCalculator>(dao: &mut D, calc: &C, pay_date: Date) -> (r:
    Result<(), UsecaseError>)
    requires
        old(dao).inv(),
    ensures
        final(dao).inv(),
        r is Ok ==> final(dao).store() == paid_all(old(dao).store(), *calc, pay_date),
        r is Err ==> (r matches Err(UsecaseError::PaydayFailed(_))) && payday_stopped(
            old(dao).store(),
            *calc,
            pay_date,
            final(dao).store(),
        ),
        D::reliable() ==> r is Ok,
{
    match pay_all(dao, calc, pay_date) {
        Ok(()) => Ok(()),
        Err(PaydayFailure::Listing(e)) => Err(UsecaseError::PaydayFailed(e)),
        Err(PaydayFailure::Recording(e)) => Err(UsecaseError::PaydayFailed(e)),
    }
}

// ---------------------------------------------------------------------------
// Checking a paycheck
// ---------------------------------------------------------------------------

/// The amount of a paycheck that a check looks at.
#[derive(Clone, Copy, Debug, PartialEq, Eq)]
pub enum PaycheckField {
    GrossPay,
    Deductions,
    NetPay,
}

pub open spec fn paycheck_field(pc: Paycheck, field: PaycheckField) -> Amount {
    match field {
        PaycheckField::GrossPay => pc.gross_pay,
        PaycheckField::Deductions => pc.deductions,
        PaycheckField::NetPay => pc.net_pay,
    }
}

/// The bits of a single-precision NaN.
pub open spec fn f32_bits_is_nan(b: Amount) -> bool {
    (b & 0x7f80_0000u32) == 0x7f80_0000u32 && (b & 0x007f_ffffu32) != 0
}

/// Single-precision `==` on two bit patterns: a NaN equals nothing, and the
/// two zeros are equal.
pub open spec fn f32_bits_equal(a: Amount, b: Amount) -> bool {
    &&& !f32_bits_is_nan(a)
    &&& !f32_bits_is_nan(b)
    &&& (a == b || ((a & 0x7fff_ffffu32) == 0 && (b & 0x7fff_ffffu32) == 0))
}

pub fn amounts_equal(a: Amount, b: Amount) -> (r: bool)
    ensures
        r == f32_bits_equal(a, b),
{
    let a_nan = (a & 0x7f80_0000u32) == 0x7f80_0000u32 && (a & 0x007f_ffffu32) != 0;
    let b_nan = (b & 0x7f80_0000u32) == 0x7f80_0000u32 && (b & 0x007f_ffffu32) != 0;
    !a_nan && !b_nan && (a == b || ((a & 0x7fff_ffffu32) == 0 && (b & 0x7fff_ffffu32) == 0))
}

/// Whether the paycheck that the pay rules give the employee on the date has
/// the expected amount; no paycheck on that date never matches.
pub open spec fn paycheck_matches<C: PayCalculator>(
    s: Store,
    emp_id: EmployeeId,
    pay_date: Date,
    calc: C,
    field: PaycheckField,
    expected: Amount,
) -> bool {
    match calc.spec_paycheck(s.employees[emp_id], pay_date) {
        Some(pc) => f32_bits_equal(paycheck_field(pc, field), expected),
        None => false,
    }
}

/// Checks one amount of the paycheck that an employee would get on a date.
pub fn verify_paycheck<D: EmployeeDao, C: PayCalculator>(
    dao: &D,
    calc: &C,
    emp_id: EmployeeId,
    pay_date: Date,
    field: PaycheckField,
    expected: Amount,
) -> (r: Result<bool, UsecaseError>)
    requires
        dao.inv(),
    ensures
        dao.store().has(emp_id) ==> r == Ok::<bool, UsecaseError>(
            paycheck_matches(dao.store(), emp_id, pay_date, *calc, field, expected),
        ),
        !dao.store().has(emp_id) ==> r == Err::<bool, UsecaseError>(
            UsecaseError::EmployeeRetrievalFailed(DaoError::NotFound(emp_id)),
        ),
{
    let emp = match dao.fetch(emp_id) {
        Ok(emp) => emp,
        Err(e) => {
            return Err(UsecaseError::EmployeeRetrievalFailed(e));
        },
    };
    match calc.paycheck(&emp, pay_date) {
        Some(pc) => {
            let actual = match field {
                PaycheckField::GrossPay => pc.gross_pay,
                PaycheckField::Deductions => pc.deductions,
                PaycheckField::NetPay => pc.net_pay,
            };
            Ok(amounts_equal(actual, expected))
        },
        None => Ok(false),
    }
}

} // verus!
