//! Transactions: the requests a payroll script is made of, what each one does
//! to the store, and what it answers.
use vstd::prelude::*;

use crate::dao::{DaoError, EmployeeDao, Store};
use crate::domain::{
    Affiliation, Amount, ClassificationModel, Date, Employee, EmployeeId, MemberId, MethodModel,
    PaymentClassification, PaymentMethod, PaymentSchedule, SalesReceipt, ServiceCharge, TimeCard,
    new_employee_model,
};
use crate::pay::PayCalculator;
use crate::interface::{
    PaycheckField, UsecaseError, add_employee, add_sales_receipt, add_sales_receipt_ok,
    add_service_charge, add_service_charge_ok, add_timecard, add_timecard_ok,
    affiliation_member_id, after_change_member, after_change_no_member, change_classification,
    change_employee_address, change_employee_name, change_member, change_member_ok,
    change_method, change_no_member, change_no_member_ok, delete_employee, is_unexpected,
    member_employee, not_commissioned_message, not_hourly_message, not_union_message,
    paycheck_matches, payday, payday_records, payday_stopped, verify_paycheck,
};

verus! {

/// What a transaction answers when it succeeds.
#[derive(Clone, Copy, Debug, PartialEq, Eq, Structural)]
pub enum Response {
    Void,
    EmployeeId(EmployeeId),
    Verified(bool),
}

/// One request of a payroll script.
#[derive(Debug, PartialEq)]
pub enum Tx {
    AddHourlyEmployee { id: EmployeeId, name: String, address: String, hourly_rate: Amount },
    AddSalariedEmployee { id: EmployeeId, name: String, address: String, salary: Amount },
    AddCommissionedEmployee {
        id: EmployeeId,
        name: String,
        address: String,
        salary: Amount,
        commission_rate: Amount,
    },
    DeleteEmployee { id: EmployeeId },
    AddTimeCard { id: EmployeeId, date: Date, hours: Amount },
    AddSalesReceipt { id: EmployeeId, date: Date, amount: Amount },
    AddServiceCharge { member_id: MemberId, date: Date, amount: Amount },
    ChangeEmployeeName { id: EmployeeId, new_name: String },
    ChangeEmployeeAddress { id: EmployeeId, new_address: String },
    ChangeEmployeeHourly { id: EmployeeId, hourly_rate: Amount },
    ChangeEmployeeSalaried { id: EmployeeId, salary: Amount },
    ChangeEmployeeCommissioned { id: EmployeeId, salary: Amount, commission_rate: Amount },
    ChangeEmployeeHold { id: EmployeeId },
    ChangeEmployeeDirect { id: EmployeeId, bank: String, account: String },
    ChangeEmployeeMail { id: EmployeeId, address: String },
    ChangeEmployeeMember { emp_id: EmployeeId, member_id: MemberId, dues: Amount },
    ChangeEmployeeNoMember { emp_id: EmployeeId },
    Payday { date: Date },
    VerifyGrossPay { emp_id: EmployeeId, pay_date: Date, gross_pay: Amount },
    VerifyDeductions { emp_id: EmployeeId, pay_date: Date, deductions: Amount },
    VerifyNetPay { emp_id: EmployeeId, pay_date: Date, net_pay: Amount },
}

pub open spec fn hourly_model(hourly_rate: Amount) -> ClassificationModel {
    ClassificationModel::Hourly { hourly_rate, timecards: Seq::empty() }
}

pub open spec fn salaried_model(salary: Amount) -> ClassificationModel {
    ClassificationModel::Salaried { salary }
}

pub open spec fn commissioned_model(
    salary: Amount,
    commission_rate: Amount,
) -> ClassificationModel {
    ClassificationModel::Commissioned { salary, commission_rate, sales_receipts: Seq::empty() }
}

/// Whether the transaction consults the pay rules.
pub open spec fn uses_pay_rules(tx: Tx) -> bool {
    ||| tx is Payday
    ||| tx is VerifyGrossPay
    ||| tx is VerifyDeductions
    ||| tx is VerifyNetPay
}

// ---------------------------------------------------------------------------
// Transactions that change an employee
// ---------------------------------------------------------------------------

/// Whether a transaction that does not consult the pay rules succeeds on the store.
pub open spec fn change_ok(s: Store, tx: Tx) -> bool {
    match tx {
        Tx::AddHourlyEmployee { id, .. } => !s.has(id),
        Tx::AddSalariedEmployee { id, .. } => !s.has(id),
        Tx::AddCommissionedEmployee { id, .. } => !s.has(id),
        Tx::DeleteEmployee { id } => s.has(id),
        Tx::AddTimeCard { id, .. } => add_timecard_ok(s, id),
        Tx::AddSalesReceipt { id, .. } => add_sales_receipt_ok(s, id),
        Tx::AddServiceCharge { member_id, .. } => add_service_charge_ok(s, member_id),
        Tx::ChangeEmployeeName { id, .. } => s.has(id),
        Tx::ChangeEmployeeAddress { id, .. } => s.has(id),
        Tx::ChangeEmployeeHourly { id, .. } => s.has(id),
        Tx::ChangeEmployeeSalaried { id, .. } => s.has(id),
        Tx::ChangeEmployeeCommissioned { id, .. } => s.has(id),
        Tx::ChangeEmployeeHold { id } => s.has(id),
        Tx::ChangeEmployeeDirect { id, .. } => s.has(id),
        Tx::ChangeEmployeeMail { id, .. } => s.has(id),
        Tx::ChangeEmployeeMember { emp_id, member_id, .. } => change_member_ok(
            s,
            member_id,
            emp_id,
        ),
        Tx::ChangeEmployeeNoMember { emp_id } => change_no_member_ok(s, emp_id),
        _ => false,
    }
}

/// The store after a successful transaction that does not consult the pay rules.
pub open spec fn change_store(s: Store, tx: Tx) -> Store {
    match tx {
        Tx::AddHourlyEmployee { id, name, address, hourly_rate } => s.add(
            new_employee_model(
                id,
                name@,
                address@,
                hourly_model(hourly_rate),
                PaymentSchedule::Weekly,
            ),
        ),
        Tx::AddSalariedEmployee { id, name, address, salary } => s.add(
            new_employee_model(
                id,
                name@,
                address@,
                salaried_model(salary),
                PaymentSchedule::Monthly,
            ),
        ),
        Tx::AddCommissionedEmployee { id, name, address, salary, commission_rate } => s.add(
            new_employee_model(
                id,
                name@,
                address@,
                commissioned_model(salary, commission_rate),
                PaymentSchedule::Biweekly,
            ),
        ),
        Tx::DeleteEmployee { id } => s.drop(id),
        Tx::AddTimeCard { id, date, hours } => s.put(
            s.employees[id].with_timecard(TimeCard { date, hours }),
        ),
        Tx::AddSalesReceipt { id, date, amount } => s.put(
            s.employees[id].with_sales_receipt(SalesReceipt { date, amount }),
        ),
        Tx::AddServiceCharge { member_id, date, amount } => s.put(
            s.employees[member_employee(s, member_id)].with_service_charge(
                ServiceCharge { date, amount },
            ),
        ),
        Tx::ChangeEmployeeName { id, new_name } => s.put(s.employees[id].with_name(new_name@)),
        Tx::ChangeEmployeeAddress { id, new_address } => s.put(
            s.employees[id].with_address(new_address@),
        ),
        Tx::ChangeEmployeeHourly { id, hourly_rate } => s.put(
            s.employees[id].with_classification(
                hourly_model(hourly_rate),
                PaymentSchedule::Weekly,
            ),
        ),
        Tx::ChangeEmployeeSalaried { id, salary } => s.put(
            s.employees[id].with_classification(salaried_model(salary), PaymentSchedule::Monthly),
        ),
        Tx::ChangeEmployeeCommissioned { id, salary, commission_rate } => s.put(
            s.employees[id].with_classification(
                commissioned_model(salary, commission_rate),
                PaymentSchedule::Biweekly,
            ),
        ),
        Tx::ChangeEmployeeHold { id } => s.put(s.employees[id].with_method(MethodModel::Hold)),
        Tx::ChangeEmployeeDirect { id, bank, account } => s.put(
            s.employees[id].with_method(MethodModel::Direct { bank: bank@, account: account@ }),
        ),
        Tx::ChangeEmployeeMail { id, address } => s.put(
            s.employees[id].with_method(MethodModel::Mail { address: address@ }),
        ),
        Tx::ChangeEmployeeMember { emp_id, member_id, dues } => after_change_member(
            s,
            member_id,
            emp_id,
            dues,
        ),
        Tx::ChangeEmployeeNoMember { emp_id } => after_change_no_member(s, emp_id),
        _ => s,
    }
}

/// What a successful transaction that does not consult the pay rules answers.
pub open spec fn change_response(tx: Tx) -> Response {
    match tx {
        Tx::AddHourlyEmployee { id, .. } => Response::EmployeeId(id),
        Tx::AddSalariedEmployee { id, .. } => Response::EmployeeId(id),
        Tx::AddCommissionedEmployee { id, .. } => Response::EmployeeId(id),
        _ => Response::Void,
    }
}

/// The error that a failing transaction that does not consult the pay rules reports.
pub open spec fn change_error(s: Store, tx: Tx, e: UsecaseError) -> bool {
    match tx {
        Tx::AddHourlyEmployee { id, .. } => e == UsecaseError::AddEmployeeFailed(
            DaoError::AlreadyExists(id),
        ),
        Tx::AddSalariedEmployee { id, .. } => e == UsecaseError::AddEmployeeFailed(
            DaoError::AlreadyExists(id),
        ),
        Tx::AddCommissionedEmployee { id, .. } => e == UsecaseError::AddEmployeeFailed(
            DaoError::AlreadyExists(id),
        ),
        Tx::DeleteEmployee { id } => e == UsecaseError::DeleteEmployeeFailed(
            DaoError::NotFound(id),
        ),
        Tx::AddTimeCard { id, .. } => if !s.has(id) {
            e == UsecaseError::AddTimeCardFailed(DaoError::NotFound(id))
        } else {
            e matches UsecaseError::AddTimeCardFailed(d) && is_unexpected(d, not_hourly_message())
        },
        Tx::AddSalesReceipt { id, .. } => if !s.has(id) {
            e == UsecaseError::AddSalesReceiptFailed(DaoError::NotFound(id))
        } else {
            e matches UsecaseError::AddSalesReceiptFailed(d) && is_unexpected(
                d,
                not_commissioned_message(),
            )
        },
        Tx::AddServiceCharge { member_id, .. } => if !s.members.contains_key(member_id) {
            e == UsecaseError::AddServiceChargeFailed(DaoError::MemberNotFound(member_id))
        } else if !s.has(member_employee(s, member_id)) {
            e == UsecaseError::AddServiceChargeFailed(
                DaoError::NotFound(member_employee(s, member_id)),
            )
        } else {
            e matches UsecaseError::AddServiceChargeFailed(d) && is_unexpected(
                d,
                not_union_message(),
            )
        },
        Tx::ChangeEmployeeName { id, .. } => e == UsecaseError::ChangeEmployeeNameFailed(
            DaoError::NotFound(id),
        ),
        Tx::ChangeEmployeeAddress { id, .. } => e == UsecaseError::ChangeEmployeeAddressFailed(
            DaoError::NotFound(id),
        ),
        Tx::ChangeEmployeeHourly { id, .. } => e
            == UsecaseError::ChangePaymentClassificationFailed(DaoError::NotFound(id)),
        Tx::ChangeEmployeeSalaried { id, .. } => e
            == UsecaseError::ChangePaymentClassificationFailed(DaoError::NotFound(id)),
        Tx::ChangeEmployeeCommissioned { id, .. } => e
            == UsecaseError::ChangePaymentClassificationFailed(DaoError::NotFound(id)),
        Tx::ChangeEmployeeHold { id } => e == UsecaseError::ChangePaymentMethodFailed(
            DaoError::NotFound(id),
        ),
        Tx::ChangeEmployeeDirect { id, .. } => e == UsecaseError::ChangePaymentMethodFailed(
            DaoError::NotFound(id),
        ),
        Tx::ChangeEmployeeMail { id, .. } => e == UsecaseError::ChangePaymentMethodFailed(
            DaoError::NotFound(id),
        ),
        Tx::ChangeEmployeeMember { emp_id, member_id, .. } => if s.members.contains_key(
            member_id,
        ) {
            e == UsecaseError::ChangeMemberFailed(DaoError::MemberAlreadyExists(member_id))
        } else {
            e == UsecaseError::ChangeMemberFailed(DaoError::NotFound(emp_id))
        },
        Tx::ChangeEmployeeNoMember { emp_id } => if !s.has(emp_id) {
            e == UsecaseError::ChangeNoMemberFailed(DaoError::NotFound(emp_id))
        } else if !s.employees[emp_id].is_union_member() {
            e matches UsecaseError::ChangeNoMemberFailed(d) && is_unexpected(
                d,
                not_union_message(),
            )
        } else {
            e == UsecaseError::ChangeNoMemberFailed(
                DaoError::MemberNotFound(affiliation_member_id(s.employees[emp_id])),
            )
        },
        _ => false,
    }
}

/// A transaction that does not consult the pay rules took the store from `s`
/// to `s2` and answered `r`: on success the store changed as `change_store`
/// says, on failure it is as it was and the error is the one `change_error`
/// names.
pub open spec fn change_executes(
    s: Store,
    tx: Tx,
    s2: Store,
    r: Result<Response, UsecaseError>,
) -> bool {
    if change_ok(s, tx) {
        r == Ok::<Response, UsecaseError>(change_response(tx)) && s2 == change_store(s, tx)
    } else {
        s2 == s && (r matches Err(e) && change_error(s, tx, e))
    }
}

// ---------------------------------------------------------------------------
// Transactions that consult the pay rules
// ---------------------------------------------------------------------------

pub open spec fn pay_ok(s: Store, tx: Tx) -> bool {
    match tx {
        Tx::Payday { .. } => true,
        Tx::VerifyGrossPay { emp_id, .. } => s.has(emp_id),
        Tx::VerifyDeductions { emp_id, .. } => s.has(emp_id),
        Tx::VerifyNetPay { emp_id, .. } => s.has(emp_id),
        _ => false,
    }
}

pub open spec fn pay_store<C: PayCalculator>(s: Store, tx: Tx, calc: C) -> Store {
    match tx {
        Tx::Payday { date } => s.with_paychecks(
            s.paychecks + payday_records(s.employees, s.order, calc, date),
        ),
        _ => s,
    }
}

/// The check of the gross pay answers nothing; the checks of the deductions
/// and of the net pay answer whether the amount matched.
pub open spec fn pay_response<C: PayCalculator>(s: Store, tx: Tx, calc: C) -> Response {
    match tx {
        Tx::VerifyDeductions { emp_id, pay_date, deductions } => Response::Verified(
            paycheck_matches(s, emp_id, pay_date, calc, PaycheckField::Deductions, deductions),
        ),
        Tx::VerifyNetPay { emp_id, pay_date, net_pay } => Response::Verified(
            paycheck_matches(s, emp_id, pay_date, calc, PaycheckField::NetPay, net_pay),
        ),
        _ => Response::Void,
    }
}

pub open spec fn pay_error(tx: Tx, e: UsecaseError) -> bool {
    match tx {
        Tx::VerifyGrossPay { emp_id, .. } => e == UsecaseError::EmployeeRetrievalFailed(
            DaoError::NotFound(emp_id),
        ),
        Tx::VerifyDeductions { emp_id, .. } => e == UsecaseError::EmployeeRetrievalFailed(
            DaoError::NotFound(emp_id),
        ),
        Tx::VerifyNetPay { emp_id, .. } => e == UsecaseError::EmployeeRetrievalFailed(
            DaoError::NotFound(emp_id),
        ),
        _ => false,
    }
}

// ---------------------------------------------------------------------------
// Any transaction
// ---------------------------------------------------------------------------

pub open spec fn step_ok(s: Store, tx: Tx) -> bool {
    if uses_pay_rules(tx) {
        pay_ok(s, tx)
    } else {
        change_ok(s, tx)
    }
}

pub open spec fn step_store<C: PayCalculator>(s: Store, tx: Tx, calc: C) -> Store {
    if uses_pay_rules(tx) {
        pay_store(s, tx, calc)
    } else {
        change_store(s, tx)
    }
}

pub open spec fn step_response<C: PayCalculator>(s: Store, tx: Tx, calc: C) -> Response {
    if uses_pay_rules(tx) {
        pay_response(s, tx, calc)
    } else {
        change_response(tx)
    }
}

pub open spec fn step_error(s: Store, tx: Tx, e: UsecaseError) -> bool {
    if uses_pay_rules(tx) {
        pay_error(tx, e)
    } else {
        change_error(s, tx, e)
    }
}

/// A store call failed while the transaction ran, so that it did not
/// succeed although the store allowed it: this happens to a payday, which
/// then answers the store's failure and stops as `payday_stopped` says.
pub open spec fn store_failed<C: PayCalculator>(
    s: Store,
    tx: Tx,
    calc: C,
    s2: Store,
    r: Result<Response, UsecaseError>,
) -> bool {
    match tx {
        Tx::Payday { date } => (r matches Err(UsecaseError::PaydayFailed(_))) && payday_stopped(
            s,
            calc,
            date,
            s2,
        ),
        _ => false,
    }
}

/// A transaction took the store from `s` to `s2` and answered `r`.
pub open spec fn executes<C: PayCalculator>(
    s: Store,
    tx: Tx,
    calc: C,
    s2: Store,
    r: Result<Response, UsecaseError>,
) -> bool {
    if step_ok(s, tx) {
        ||| r == Ok::<Response, UsecaseError>(step_response(s, tx, calc)) && s2 == step_store(
            s,
            tx,
            calc,
        )
        ||| store_failed(s, tx, calc, s2, r)
    } else {
        s2 == s && (r matches Err(e) && step_error(s, tx, e))
    }
}

// ---------------------------------------------------------------------------
// Running a transaction
// ---------------------------------------------------------------------------

pub(crate) fn new_employee(
    id: EmployeeId,
    name: &String,
    address: &String,
    classification: PaymentClassification,
    schedule: PaymentSchedule,
) -> (r: Employee)
    ensures
        r@ == new_employee_model(id, name@, address@, classification@, schedule),
{
    Employee::new(
        id,
        name.as_str(),
        address.as_str(),
        classification,
        schedule,
        PaymentMethod::Hold,
        Affiliation::NoAffiliation,
    )
}

pub(crate) fn void_response(r: Result<(), UsecaseError>) -> (out: Result<Response, UsecaseError>)
    ensures
        r is Ok ==> out == Ok::<Response, UsecaseError>(Response::Void),
        r matches Err(e) ==> out == Err::<Response, UsecaseError>(e),
{
    match r {
        Ok(()) => Ok(Response::Void),
        Err(e) => Err(e),
    }
}

pub(crate) fn id_response(r: Result<(), UsecaseError>, id: EmployeeId) -> (out: Result<
    Response,
    UsecaseError,
>)
    ensures
        r is Ok ==> out == Ok::<Response, UsecaseError>(Response::EmployeeId(id)),
        r matches Err(e) ==> out == Err::<Response, UsecaseError>(e),
{
    match r {
        Ok(()) => Ok(Response::EmployeeId(id)),
        Err(e) => Err(e),
    }
}

pub(crate) fn verified_response(r: Result<bool, UsecaseError>) -> (out: Result<
    Response,
    UsecaseError,
>)
    ensures
        r matches Ok(b) ==> out == Ok::<Response, UsecaseError>(Response::Verified(b)),
        r matches Err(e) ==> out == Err::<Response, UsecaseError>(e),
{
    match r {
        Ok(b) => Ok(Response::Verified(b)),
        Err(e) => Err(e),
    }
}

/// Runs one transaction against the store.
pub fn execute_tx<D: EmployeeDao, C: PayCalculator>(dao: &mut D, calc: &C, tx: &Tx) -> (r: Result<
    Response,
    UsecaseError,
>)
    requires
        old(dao).inv(),
    ensures
        final(dao).inv(),
        executes(old(dao).store(), *tx, *calc, final(dao).store(), r),
        D::reliable() && step_ok(old(dao).store(), *tx) ==> r is Ok,
{
    match tx {
        Tx::AddHourlyEmployee { id, name, address, hourly_rate } => {
            let emp = new_employee(
                *id,
                name,
                address,
                PaymentClassification::hourly(*hourly_rate),
                PaymentSchedule::Weekly,
            );
            id_response(add_employee(dao, emp), *id)
        },
        Tx::AddSalariedEmployee { id, name, address, salary } => {
            let emp = new_employee(
                *id,
                name,
                address,
                PaymentClassification::salaried(*salary),
                PaymentSchedule::Monthly,
            );
            id_response(add_employee(dao, emp), *id)
        },
        Tx::AddCommissionedEmployee { id, name, address, salary, commission_rate } => {
            let emp = new_employee(
                *id,
                name,
                address,
                PaymentClassification::commissioned(*salary, *commission_rate),
                PaymentSchedule::Biweekly,
            );
            id_response(add_employee(dao, emp), *id)
        },
        Tx::DeleteEmployee { id } => void_response(delete_employee(dao, *id)),
        Tx::AddTimeCard { id, date, hours } => void_response(
            add_timecard(dao, *id, TimeCard { date: *date, hours: *hours }),
        ),
        Tx::AddSalesReceipt { id, date, amount } => void_response(
            add_sales_receipt(dao, *id, SalesReceipt { date: *date, amount: *amount }),
        ),
        Tx::AddServiceCharge { member_id, date, amount } => void_response(
            add_service_charge(dao, *member_id, ServiceCharge { date: *date, amount: *amount }),
        ),
        Tx::ChangeEmployeeName { id, new_name } => void_response(
            change_employee_name(dao, *id, new_name.as_str()),
        ),
        Tx::ChangeEmployeeAddress { id, new_address } => void_response(
            change_employee_address(dao, *id, new_address.as_str()),
        ),
        Tx::ChangeEmployeeHourly { id, hourly_rate } => void_response(
            change_classification(
                dao,
                *id,
                PaymentClassification::hourly(*hourly_rate),
                PaymentSchedule::Weekly,
            ),
        ),
        Tx::ChangeEmployeeSalaried { id, salary } => void_response(
            change_classification(
                dao,
                *id,
                PaymentClassification::salaried(*salary),
                PaymentSchedule::Monthly,
            ),
        ),
        Tx::ChangeEmployeeCommissioned { id, salary, commission_rate } => void_response(
            change_classification(
                dao,
                *id,
                PaymentClassification::commissioned(*salary, *commission_rate),
                PaymentSchedule::Biweekly,
            ),
        ),
        Tx::ChangeEmployeeHold { id } => void_response(
            change_method(dao, *id, PaymentMethod::Hold),
        ),
        Tx::ChangeEmployeeDirect { id, bank, account } => void_response(
            change_method(dao, *id, PaymentMethod::direct(bank.as_str(), account.as_str())),
        ),
        Tx::ChangeEmployeeMail { id, address } => void_response(
            change_method(dao, *id, PaymentMethod::mail(address.as_str())),
        ),
        Tx::ChangeEmployeeMember { emp_id, member_id, dues } => void_response(
            change_member(dao, *member_id, *emp_id, *dues),
        ),
        Tx::ChangeEmployeeNoMember { emp_id } => void_response(change_no_member(dao, *emp_id)),
        Tx::Payday { date } => void_response(payday(dao, calc, *date)),
        Tx::VerifyGrossPay { emp_id, pay_date, gross_pay } => {
            let checked = verify_paycheck(
                dao,
                calc,
                *emp_id,
                *pay_date,
                PaycheckField::GrossPay,
                *gross_pay,
            );
            match checked {
                Ok(_) => Ok(Response::Void),
                Err(e) => Err(e),
            }
        },
        Tx::VerifyDeductions { emp_id, pay_date, deductions } => verified_response(
            verify_paycheck(dao, calc, *emp_id, *pay_date, PaycheckField::Deductions, *deductions),
        ),
        Tx::VerifyNetPay { emp_id, pay_date, net_pay } => verified_response(
            verify_paycheck(dao, calc, *emp_id, *pay_date, PaycheckField::NetPay, *net_pay),
        ),
    }
}

} // verus!
