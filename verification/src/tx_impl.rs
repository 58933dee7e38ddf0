//! One type per kind of transaction, each built from its parameters and run
//! against a store.
use vstd::prelude::*;

use crate::dao::EmployeeDao;
use crate::domain::{
    Amount, Date, EmployeeId, MemberId, PaymentClassification, PaymentMethod, PaymentSchedule,
    SalesReceipt, ServiceCharge, TimeCard,
};
use crate::pay::PayCalculator;
use crate::tx::{
    Response, Tx, change_executes, executes, id_response, new_employee, verified_response,
    void_response,
};
use crate::interface::{
    PaycheckField, UsecaseError, add_employee, add_sales_receipt, add_service_charge,
    add_timecard, change_classification, change_employee_address, change_employee_name,
    change_member, change_method, change_no_member, delete_employee, payday, verify_paycheck,
};

verus! {

/// Adds an hourly employee, paid weekly.
#[derive(Debug)]
pub struct AddHourlyEmployeeTx {
    pub id: EmployeeId,
    pub name: String,
    pub address: String,
    pub hourly_rate: Amount,
}

impl AddHourlyEmployeeTx {
    pub fn new(
        id: EmployeeId,
        name: &str,
        address: &str,
        hourly_rate: Amount,
    ) -> (r: AddHourlyEmployeeTx)
        ensures
            r.id == id,
            r.name@ == name@,
            r.address@ == address@,
            r.hourly_rate == hourly_rate,
    {
        AddHourlyEmployeeTx { id, name: name.to_owned(), address: address.to_owned(), hourly_rate }
    }

    pub open spec fn as_tx(&self) -> Tx {
        Tx::AddHourlyEmployee {
            id: self.id,
            name: self.name,
            address: self.address,
            hourly_rate: self.hourly_rate,
        }
    }

    pub fn execute<D: EmployeeDao>(&self, dao: &mut D) -> (r: Result<Response, UsecaseError>)
        requires
            old(dao).inv(),
        ensures
            final(dao).inv(),
            change_executes(old(dao).store(), self.as_tx(), final(dao).store(), r),
    {
        let emp = new_employee(
            self.id,
            &self.name,
            &self.address,
            PaymentClassification::hourly(self.hourly_rate),
            PaymentSchedule::Weekly,
        );
        id_response(add_employee(dao, emp), self.id)
    }
}

/// Adds a salaried employee, paid monthly.
#[derive(Debug)]
pub struct AddSalariedEmployeeTx {
    pub id: EmployeeId,
    pub name: String,
    pub address: String,
    pub salary: Amount,
}

impl AddSalariedEmployeeTx {
    pub fn new(
        id: EmployeeId,
        name: &str,
        address: &str,
        salary: Amount,
    ) -> (r: AddSalariedEmployeeTx)
        ensures
            r.id == id,
            r.name@ == name@,
            r.address@ == address@,
            r.salary == salary,
    {
        AddSalariedEmployeeTx { id, name: name.to_owned(), address: address.to_owned(), salary }
    }

    pub open spec fn as_tx(&self) -> Tx {
        Tx::AddSalariedEmployee {
            id: self.id,
            name: self.name,
            address: self.address,
            salary: self.salary,
        }
    }

    pub fn execute<D: EmployeeDao>(&self, dao: &mut D) -> (r: Result<Response, UsecaseError>)
        requires
            old(dao).inv(),
        ensures
            final(dao).inv(),
            change_executes(old(dao).store(), self.as_tx(), final(dao).store(), r),
    {
        let emp = new_employee(
            self.id,
            &self.name,
            &self.address,
            PaymentClassification::salaried(self.salary),
            PaymentSchedule::Monthly,
        );
        id_response(add_employee(dao, emp), self.id)
    }
}

/// Adds a commissioned employee, paid every other week.
#[derive(Debug)]
pub struct AddCommissionedEmployeeTx {
    pub id: EmployeeId,
    pub name: String,
    pub address: String,
    pub salary: Amount,
    pub commission_rate: Amount,
}

impl AddCommissionedEmployeeTx {
    pub fn new(
        id: EmployeeId,
        name: &str,
        address: &str,
        salary: Amount,
        commission_rate: Amount,
    ) -> (r: AddCommissionedEmployeeTx)
        ensures
            r.id == id,
            r.name@ == name@,
            r.address@ == address@,
            r.salary == salary,
            r.commission_rate == commission_rate,
    {
        AddCommissionedEmployeeTx {
            id,
            name: name.to_owned(),
            address: address.to_owned(),
            salary,
            commission_rate,
        }
    }

    pub open spec fn as_tx(&self) -> Tx {
        Tx::AddCommissionedEmployee {
            id: self.id,
            name: self.name,
            address: self.address,
            salary: self.salary,
            commission_rate: self.commission_rate,
        }
    }

    pub fn execute<D: EmployeeDao>(&self, dao: &mut D) -> (r: Result<Response, UsecaseError>)
        requires
            old(dao).inv(),
        ensures
            final(dao).inv(),
            change_executes(old(dao).store(), self.as_tx(), final(dao).store(), r),
    {
        let emp = new_employee(
            self.id,
            &self.name,
            &self.address,
            PaymentClassification::commissioned(self.salary, self.commission_rate),
            PaymentSchedule::Biweekly,
        );
        id_response(add_employee(dao, emp), self.id)
    }
}

/// Deletes an employee.
#[derive(Debug)]
pub struct DeleteEmployeeTx {
    pub id: EmployeeId,
}

impl DeleteEmployeeTx {
    pub fn new(id: EmployeeId) -> (r: DeleteEmployeeTx)
        ensures
            r.id == id,
    {
        DeleteEmployeeTx { id }
    }

    pub open spec fn as_tx(&self) -> Tx {
        Tx::DeleteEmployee { id: self.id }
    }

    pub fn execute<D: EmployeeDao>(&self, dao: &mut D) -> (r: Result<Response, UsecaseError>)
        requires
            old(dao).inv(),
        ensures
            final(dao).inv(),
            change_executes(old(dao).store(), self.as_tx(), final(dao).store(), r),
    {
        void_response(delete_employee(dao, self.id))
    }
}

/// Adds a time card to an hourly employee.
#[derive(Debug)]
pub struct AddTimeCardTx {
    pub id: EmployeeId,
    pub date: Date,
    pub hours: Amount,
}

impl AddTimeCardTx {
    pub fn new(id: EmployeeId, date: Date, hours: Amount) -> (r: AddTimeCardTx)
        ensures
            r.id == id,
            r.date == date,
            r.hours == hours,
    {
        AddTimeCardTx { id, date, hours }
    }

    pub open spec fn as_tx(&self) -> Tx {
        Tx::AddTimeCard { id: self.id, date: self.date, hours: self.hours }
    }

    pub fn execute<D: EmployeeDao>(&self, dao: &mut D) -> (r: Result<Response, UsecaseError>)
        requires
            old(dao).inv(),
        ensures
            final(dao).inv(),
            change_executes(old(dao).store(), self.as_tx(), final(dao).store(), r),
    {
        void_response(add_timecard(dao, self.id, TimeCard { date: self.date, hours: self.hours }))
    }
}

/// Adds a sales receipt to a commissioned employee.
#[derive(Debug)]
pub struct AddSalesReceiptTx {
    pub id: EmployeeId,
    pub date: Date,
    pub amount: Amount,
}

impl AddSalesReceiptTx {
    pub fn new(id: EmployeeId, date: Date, amount: Amount) -> (r: AddSalesReceiptTx)
        ensures
            r.id == id,
            r.date == date,
            r.amount == amount,
    {
        AddSalesReceiptTx { id, date, amount }
    }

    pub open spec fn as_tx(&self) -> Tx {
        Tx::AddSalesReceipt { id: self.id, date: self.date, amount: self.amount }
    }

    pub fn execute<D: EmployeeDao>(&self, dao: &mut D) -> (r: Result<Response, UsecaseError>)
        requires
            old(dao).inv(),
        ensures
            final(dao).inv(),
            change_executes(old(dao).store(), self.as_tx(), final(dao).store(), r),
    {
        void_response(
            add_sales_receipt(dao, self.id, SalesReceipt { date: self.date, amount: self.amount }),
        )
    }
}

/// Adds a service charge to a union member.
#[derive(Debug)]
pub struct AddServiceChargeTx {
    pub member_id: MemberId,
    pub date: Date,
    pub amount: Amount,
}

impl AddServiceChargeTx {
    pub fn new(member_id: MemberId, date: Date, amount: Amount) -> (r: AddServiceChargeTx)
        ensures
            r.member_id == member_id,
            r.date == date,
            r.amount == amount,
    {
        AddServiceChargeTx { member_id, date, amount }
    }

    pub open spec fn as_tx(&self) -> Tx {
        Tx::AddServiceCharge { member_id: self.member_id, date: self.date, amount: self.amount }
    }

    pub fn execute<D: EmployeeDao>(&self, dao: &mut D) -> (r: Result<Response, UsecaseError>)
        requires
            old(dao).inv(),
        ensures
            final(dao).inv(),
            change_executes(old(dao).store(), self.as_tx(), final(dao).store(), r),
    {
        void_response(
            add_service_charge(
                dao,
                self.member_id,
                ServiceCharge { date: self.date, amount: self.amount },
            ),
        )
    }
}

/// Renames an employee.
#[derive(Debug)]
pub struct ChangeEmployeeNameTx {
    pub id: EmployeeId,
    pub new_name: String,
}

impl ChangeEmployeeNameTx {
    pub fn new(id: EmployeeId, new_name: &str) -> (r: ChangeEmployeeNameTx)
        ensures
            r.id == id,
            r.new_name@ == new_name@,
    {
        ChangeEmployeeNameTx { id, new_name: new_name.to_owned() }
    }

    pub open spec fn as_tx(&self) -> Tx {
        Tx::ChangeEmployeeName { id: self.id, new_name: self.new_name }
    }

    pub fn execute<D: EmployeeDao>(&self, dao: &mut D) -> (r: Result<Response, UsecaseError>)
        requires
            old(dao).inv(),
        ensures
            final(dao).inv(),
            change_executes(old(dao).store(), self.as_tx(), final(dao).store(), r),
    {
        void_response(change_employee_name(dao, self.id, self.new_name.as_str()))
    }
}

/// Changes an employee's address.
#[derive(Debug)]
pub struct ChangeEmployeeAddressTx {
    pub id: EmployeeId,
    pub new_address: String,
}

impl ChangeEmployeeAddressTx {
    pub fn new(id: EmployeeId, new_address: &str) -> (r: ChangeEmployeeAddressTx)
        ensures
            r.id == id,
            r.new_address@ == new_address@,
    {
        ChangeEmployeeAddressTx { id, new_address: new_address.to_owned() }
    }

    pub open spec fn as_tx(&self) -> Tx {
        Tx::ChangeEmployeeAddress { id: self.id, new_address: self.new_address }
    }

    pub fn execute<D: EmployeeDao>(&self, dao: &mut D) -> (r: Result<Response, UsecaseError>)
        requires
            old(dao).inv(),
        ensures
            final(dao).inv(),
            change_executes(old(dao).store(), self.as_tx(), final(dao).store(), r),
    {
        void_response(change_employee_address(dao, self.id, self.new_address.as_str()))
    }
}

/// Makes an employee hourly, paid weekly.
#[derive(Debug)]
pub struct ChangeHourlyTx {
    pub id: EmployeeId,
    pub hourly_rate: Amount,
}

impl ChangeHourlyTx {
    pub fn new(id: EmployeeId, hourly_rate: Amount) -> (r: ChangeHourlyTx)
        ensures
            r.id == id,
            r.hourly_rate == hourly_rate,
    {
        ChangeHourlyTx { id, hourly_rate }
    }

    pub open spec fn as_tx(&self) -> Tx {
        Tx::ChangeEmployeeHourly { id: self.id, hourly_rate: self.hourly_rate }
    }

    pub fn execute<D: EmployeeDao>(&self, dao: &mut D) -> (r: Result<Response, UsecaseError>)
        requires
            old(dao).inv(),
        ensures
            final(dao).inv(),
            change_executes(old(dao).store(), self.as_tx(), final(dao).store(), r),
    {
        void_response(
            change_classification(
                dao,
                self.id,
                PaymentClassification::hourly(self.hourly_rate),
                PaymentSchedule::Weekly,
            ),
        )
    }
}

/// Makes an employee salaried, paid monthly.
#[derive(Debug)]
pub struct ChangeSalariedTx {
    pub id: EmployeeId,
    pub salary: Amount,
}

impl ChangeSalariedTx {
    pub fn new(id: EmployeeId, salary: Amount) -> (r: ChangeSalariedTx)
        ensures
            r.id == id,
            r.salary == salary,
    {
        ChangeSalariedTx { id, salary }
    }

    pub open spec fn as_tx(&self) -> Tx {
        Tx::ChangeEmployeeSalaried { id: self.id, salary: self.salary }
    }

    pub fn execute<D: EmployeeDao>(&self, dao: &mut D) -> (r: Result<Response, UsecaseError>)
        requires
            old(dao).inv(),
        ensures
            final(dao).inv(),
            change_executes(old(dao).store(), self.as_tx(), final(dao).store(), r),
    {
        void_response(
            change_classification(
                dao,
                self.id,
                PaymentClassification::salaried(self.salary),
                PaymentSchedule::Monthly,
            ),
        )
    }
}

/// Makes an employee commissioned, paid every other week.
#[derive(Debug)]
pub struct ChangeCommissionedTx {
    pub id: EmployeeId,
    pub salary: Amount,
    pub commission_rate: Amount,
}

impl ChangeCommissionedTx {
    pub fn new(id: EmployeeId, salary: Amount, commission_rate: Amount) -> (r: ChangeCommissionedTx)
        ensures
            r.id == id,
            r.salary == salary,
            r.commission_rate == commission_rate,
    {
        ChangeCommissionedTx { id, salary, commission_rate }
    }

    pub open spec fn as_tx(&self) -> Tx {
        Tx::ChangeEmployeeCommissioned {
            id: self.id,
            salary: self.salary,
            commission_rate: self.commission_rate,
        }
    }

    pub fn execute<D: EmployeeDao>(&self, dao: &mut D) -> (r: Result<Response, UsecaseError>)
        requires
            old(dao).inv(),
        ensures
            final(dao).inv(),
            change_executes(old(dao).store(), self.as_tx(), final(dao).store(), r),
    {
        void_response(
            change_classification(
                dao,
                self.id,
                PaymentClassification::commissioned(self.salary, self.commission_rate),
                PaymentSchedule::Biweekly,
            ),
        )
    }
}

/// Has an employee's pay held.
#[derive(Debug)]
pub struct ChangeHoldTx {
    pub id: EmployeeId,
}

impl ChangeHoldTx {
    pub fn new(id: EmployeeId) -> (r: ChangeHoldTx)
        ensures
            r.id == id,
    {
        ChangeHoldTx { id }
    }

    pub open spec fn as_tx(&self) -> Tx {
        Tx::ChangeEmployeeHold { id: self.id }
    }

    pub fn execute<D: EmployeeDao>(&self, dao: &mut D) -> (r: Result<Response, UsecaseError>)
        requires
            old(dao).inv(),
        ensures
            final(dao).inv(),
            change_executes(old(dao).store(), self.as_tx(), final(dao).store(), r),
    {
        void_response(change_method(dao, self.id, PaymentMethod::Hold))
    }
}

/// Has an employee paid into a bank account.
#[derive(Debug)]
pub struct ChangeDirectTx {
    pub id: EmployeeId,
    pub bank: String,
    pub account: String,
}

impl ChangeDirectTx {
    pub fn new(id: EmployeeId, bank: &str, account: &str) -> (r: ChangeDirectTx)
        ensures
            r.id == id,
            r.bank@ == bank@,
            r.account@ == account@,
    {
        ChangeDirectTx { id, bank: bank.to_owned(), account: account.to_owned() }
    }

    pub open spec fn as_tx(&self) -> Tx {
        Tx::ChangeEmployeeDirect { id: self.id, bank: self.bank, account: self.account }
    }

    pub fn execute<D: EmployeeDao>(&self, dao: &mut D) -> (r: Result<Response, UsecaseError>)
        requires
            old(dao).inv(),
        ensures
            final(dao).inv(),
            change_executes(old(dao).store(), self.as_tx(), final(dao).store(), r),
    {
        void_response(
            change_method(
                dao,
                self.id,
                PaymentMethod::direct(self.bank.as_str(), self.account.as_str()),
            ),
        )
    }
}

/// Has an employee's pay mailed.
#[derive(Debug)]
pub struct ChangeMailTx {
    pub id: EmployeeId,
    pub address: String,
}

impl ChangeMailTx {
    pub fn new(id: EmployeeId, address: &str) -> (r: ChangeMailTx)
        ensures
            r.id == id,
            r.address@ == address@,
    {
        ChangeMailTx { id, address: address.to_owned() }
    }

    pub open spec fn as_tx(&self) -> Tx {
        Tx::ChangeEmployeeMail { id: self.id, address: self.address }
    }

    pub fn execute<D: EmployeeDao>(&self, dao: &mut D) -> (r: Result<Response, UsecaseError>)
        requires
            old(dao).inv(),
        ensures
            final(dao).inv(),
            change_executes(old(dao).store(), self.as_tx(), final(dao).store(), r),
    {
        void_response(change_method(dao, self.id, PaymentMethod::mail(self.address.as_str())))
    }
}

/// Makes an employee a union member.
#[derive(Debug)]
pub struct ChangeMemberTx {
    pub member_id: MemberId,
    pub emp_id: EmployeeId,
    pub dues: Amount,
}

impl ChangeMemberTx {
    pub fn new(member_id: MemberId, emp_id: EmployeeId, dues: Amount) -> (r: ChangeMemberTx)
        ensures
            r.member_id == member_id,
            r.emp_id == emp_id,
            r.dues == dues,
    {
        ChangeMemberTx { member_id, emp_id, dues }
    }

    pub open spec fn as_tx(&self) -> Tx {
        Tx::ChangeEmployeeMember { member_id: self.member_id, emp_id: self.emp_id, dues: self.dues }
    }

    pub fn execute<D: EmployeeDao>(&self, dao: &mut D) -> (r: Result<Response, UsecaseError>)
        requires
            old(dao).inv(),
        ensures
            final(dao).inv(),
            change_executes(old(dao).store(), self.as_tx(), final(dao).store(), r),
    {
        void_response(change_member(dao, self.member_id, self.emp_id, self.dues))
    }
}

/// Takes an employee out of the union.
#[derive(Debug)]
pub struct ChangeNoMemberTx {
    pub emp_id: EmployeeId,
}

impl ChangeNoMemberTx {
    pub fn new(emp_id: EmployeeId) -> (r: ChangeNoMemberTx)
        ensures
            r.emp_id == emp_id,
    {
        ChangeNoMemberTx { emp_id }
    }

    pub open spec fn as_tx(&self) -> Tx {
        Tx::ChangeEmployeeNoMember { emp_id: self.emp_id }
    }

    pub fn execute<D: EmployeeDao>(&self, dao: &mut D) -> (r: Result<Response, UsecaseError>)
        requires
            old(dao).inv(),
        ensures
            final(dao).inv(),
            change_executes(old(dao).store(), self.as_tx(), final(dao).store(), r),
    {
        void_response(change_no_member(dao, self.emp_id))
    }
}

/// Pays the employees whose payday the date is.
#[derive(Debug)]
pub struct PaydayTx {
    pub pay_date: Date,
}

impl PaydayTx {
    pub fn new(pay_date: Date) -> (r: PaydayTx)
        ensures
            r.pay_date == pay_date,
    {
        PaydayTx { pay_date }
    }

    pub open spec fn as_tx(&self) -> Tx {
        Tx::Payday { date: self.pay_date }
    }

    pub fn execute<D: EmployeeDao, C: PayCalculator>(&self, dao: &mut D, calc: &C) -> (r: Result<
        Response,
        UsecaseError,
    >)
        requires
            old(dao).inv(),
        ensures
            final(dao).inv(),
            executes(old(dao).store(), self.as_tx(), *calc, final(dao).store(), r),
            D::reliable() ==> r is Ok,
    {
        void_response(payday(dao, calc, self.pay_date))
    }
}

/// Checks the gross pay of an employee's paycheck on a date; answers nothing.
#[derive(Debug)]
pub struct VerifyGrossPayTx {
    pub emp_id: EmployeeId,
    pub pay_date: Date,
    pub gross_pay: Amount,
}

impl VerifyGrossPayTx {
    pub fn new(emp_id: EmployeeId, pay_date: Date, gross_pay: Amount) -> (r: VerifyGrossPayTx)
        ensures
            r.emp_id == emp_id,
            r.pay_date == pay_date,
            r.gross_pay == gross_pay,
    {
        VerifyGrossPayTx { emp_id, pay_date, gross_pay }
    }

    pub open spec fn as_tx(&self) -> Tx {
        Tx::VerifyGrossPay {
            emp_id: self.emp_id,
            pay_date: self.pay_date,
            gross_pay: self.gross_pay,
        }
    }

    pub fn execute<D: EmployeeDao, C: PayCalculator>(&self, dao: &mut D, calc: &C) -> (r: Result<
        Response,
        UsecaseError,
    >)
        requires
            old(dao).inv(),
        ensures
            final(dao).inv(),
            executes(old(dao).store(), self.as_tx(), *calc, final(dao).store(), r),
    {
        let checked = verify_paycheck(
            dao,
            calc,
            self.emp_id,
            self.pay_date,
            PaycheckField::GrossPay,
            self.gross_pay,
        );
        match checked {
            Ok(_) => Ok(Response::Void),
            Err(e) => Err(e),
        }
    }
}

/// Checks the net pay of an employee's paycheck on a date; answers whether it matched.
#[derive(Debug)]
pub struct VerifyNetPayTx {
    pub emp_id: EmployeeId,
    pub pay_date: Date,
    pub net_pay: Amount,
}

impl VerifyNetPayTx {
    pub fn new(emp_id: EmployeeId, pay_date: Date, net_pay: Amount) -> (r: VerifyNetPayTx)
        ensures
            r.emp_id == emp_id,
            r.pay_date == pay_date,
            r.net_pay == net_pay,
    {
        VerifyNetPayTx { emp_id, pay_date, net_pay }
    }

    pub open spec fn as_tx(&self) -> Tx {
        Tx::VerifyNetPay { emp_id: self.emp_id, pay_date: self.pay_date, net_pay: self.net_pay }
    }

    pub fn execute<D: EmployeeDao, C: PayCalculator>(&self, dao: &mut D, calc: &C) -> (r: Result<
        Response,
        UsecaseError,
    >)
        requires
            old(dao).inv(),
        ensures
            final(dao).inv(),
            executes(old(dao).store(), self.as_tx(), *calc, final(dao).store(), r),
    {
        let checked = verify_paycheck(
            dao,
            calc,
            self.emp_id,
            self.pay_date,
            PaycheckField::NetPay,
            self.net_pay,
        );
        verified_response(checked)
    }
}

} // verus!
