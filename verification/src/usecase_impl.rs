//! One type per use case, holding the use case's parameters and running it
//! against a store.
use vstd::prelude::*;

use crate::dao::EmployeeDao;
use crate::domain::{
    Affiliation, AffiliationModel, Amount, Date, Employee, EmployeeId, MemberId, MethodModel,
    PaymentClassification, PaymentMethod, PaymentSchedule, SalesReceipt, ServiceCharge, TimeCard,
    new_employee_model,
};
use crate::interface::union_affiliation;
use crate::pay::PayCalculator;
use crate::tx::{commissioned_model, hourly_model, salaried_model};
use crate::usecase::{
    UsecaseError, add_employee, add_sales_receipt, add_service_charge, add_time_card,
    add_union_affiliation, chg_classification, chg_employee_address, chg_employee_name,
    chg_method, del_employee, del_union_affiliation, employee_added, employee_changed,
    employee_deleted, payday, payday_done, sales_receipt_added, service_charge_added,
    timecard_added, union_affiliation_added, union_affiliation_removed,
};

verus! {

/// Adds a salaried employee, paid monthly.
#[derive(Debug)]
pub struct AddSalariedEmployeeImpl {
    pub id: EmployeeId,
    pub name: String,
    pub address: String,
    pub salary: Amount,
}

impl AddSalariedEmployeeImpl {
    pub fn new(
        id: EmployeeId,
        name: &str,
        address: &str,
        salary: Amount,
    ) -> (r: AddSalariedEmployeeImpl)
        ensures
            r.id == id,
            r.name@ == name@,
            r.address@ == address@,
            r.salary == salary,
    {
        AddSalariedEmployeeImpl { id, name: name.to_owned(), address: address.to_owned(), salary }
    }

    pub fn execute<D: EmployeeDao>(&self, dao: &mut D) -> (r: Result<EmployeeId, UsecaseError>)
        requires
            old(dao).inv(),
        ensures
            final(dao).inv(),
            employee_added(
                old(dao).store(),
                new_employee_model(
                    self.id,
                    self.name@,
                    self.address@,
                    salaried_model(self.salary),
                    PaymentSchedule::Monthly,
                ),
                final(dao).store(),
                r,
            ),
    {
        let emp = Employee::new(
            self.id,
            self.name.as_str(),
            self.address.as_str(),
            PaymentClassification::salaried(self.salary),
            PaymentSchedule::Monthly,
            PaymentMethod::Hold,
            Affiliation::NoAffiliation,
        );
        add_employee(dao, emp)
    }
}

/// Adds an hourly employee, paid weekly.
#[derive(Debug)]
pub struct AddHourlyEmployeeImpl {
    pub id: EmployeeId,
    pub name: String,
    pub address: String,
    pub hourly_rate: Amount,
}

impl AddHourlyEmployeeImpl {
    pub fn new(
        id: EmployeeId,
        name: &str,
        address: &str,
        hourly_rate: Amount,
    ) -> (r: AddHourlyEmployeeImpl)
        ensures
            r.id == id,
            r.name@ == name@,
            r.address@ == address@,
            r.hourly_rate == hourly_rate,
    {
        AddHourlyEmployeeImpl {
            id,
            name: name.to_owned(),
            address: address.to_owned(),
            hourly_rate,
        }
    }

    pub fn execute<D: EmployeeDao>(&self, dao: &mut D) -> (r: Result<EmployeeId, UsecaseError>)
        requires
            old(dao).inv(),
        ensures
            final(dao).inv(),
            employee_added(
                old(dao).store(),
                new_employee_model(
                    self.id,
                    self.name@,
                    self.address@,
                    hourly_model(self.hourly_rate),
                    PaymentSchedule::Weekly,
                ),
                final(dao).store(),
                r,
            ),
    {
        let emp = Employee::new(
            self.id,
            self.name.as_str(),
            self.address.as_str(),
            PaymentClassification::hourly(self.hourly_rate),
            PaymentSchedule::Weekly,
            PaymentMethod::Hold,
            Affiliation::NoAffiliation,
        );
        add_employee(dao, emp)
    }
}

/// Adds a commissioned employee, paid every other week.
#[derive(Debug)]
pub struct AddCommissionedEmployeeImpl {
    pub id: EmployeeId,
    pub name: String,
    pub address: String,
    pub salary: Amount,
    pub commission_rate: Amount,
}

impl AddCommissionedEmployeeImpl {
    pub fn new(
        id: EmployeeId,
        name: &str,
        address: &str,
        salary: Amount,
        commission_rate: Amount,
    ) -> (r: AddCommissionedEmployeeImpl)
        ensures
            r.id == id,
            r.name@ == name@,
            r.address@ == address@,
            r.salary == salary,
            r.commission_rate == commission_rate,
    {
        AddCommissionedEmployeeImpl {
            id,
            name: name.to_owned(),
            address: address.to_owned(),
            salary,
            commission_rate,
        }
    }

    pub fn execute<D: EmployeeDao>(&self, dao: &mut D) -> (r: Result<EmployeeId, UsecaseError>)
        requires
            old(dao).inv(),
        ensures
            final(dao).inv(),
            employee_added(
                old(dao).store(),
                new_employee_model(
                    self.id,
                    self.name@,
                    self.address@,
                    commissioned_model(self.salary, self.commission_rate),
                    PaymentSchedule::Biweekly,
                ),
                final(dao).store(),
                r,
            ),
    {
        let emp = Employee::new(
            self.id,
            self.name.as_str(),
            self.address.as_str(),
            PaymentClassification::commissioned(self.salary, self.commission_rate),
            PaymentSchedule::Biweekly,
            PaymentMethod::Hold,
            Affiliation::NoAffiliation,
        );
        add_employee(dao, emp)
    }
}

/// Renames an employee.
#[derive(Debug)]
pub struct ChgEmployeeNameImpl {
    pub id: EmployeeId,
    pub new_name: String,
}

impl ChgEmployeeNameImpl {
    pub fn new(id: EmployeeId, new_name: &str) -> (r: ChgEmployeeNameImpl)
        ensures
            r.id == id,
            r.new_name@ == new_name@,
    {
        ChgEmployeeNameImpl { id, new_name: new_name.to_owned() }
    }

    pub fn execute<D: EmployeeDao>(&self, dao: &mut D) -> (r: Result<(), UsecaseError>)
        requires
            old(dao).inv(),
        ensures
            final(dao).inv(),
            employee_changed(
                old(dao).store(),
                self.id,
                old(dao).store().employees[self.id].with_name(self.new_name@),
                final(dao).store(),
                r,
            ),
    {
        chg_employee_name(dao, self.id, self.new_name.as_str())
    }
}

/// Changes an employee's address.
#[derive(Debug)]
pub struct ChgEmployeeAddressImpl {
    pub id: EmployeeId,
    pub new_address: String,
}

impl ChgEmployeeAddressImpl {
    pub fn new(id: EmployeeId, new_address: &str) -> (r: ChgEmployeeAddressImpl)
        ensures
            r.id == id,
            r.new_address@ == new_address@,
    {
        ChgEmployeeAddressImpl { id, new_address: new_address.to_owned() }
    }

    pub fn execute<D: EmployeeDao>(&self, dao: &mut D) -> (r: Result<(), UsecaseError>)
        requires
            old(dao).inv(),
        ensures
            final(dao).inv(),
            employee_changed(
                old(dao).store(),
                self.id,
                old(dao).store().employees[self.id].with_address(self.new_address@),
                final(dao).store(),
                r,
            ),
    {
        chg_employee_address(dao, self.id, self.new_address.as_str())
    }
}

/// Deletes an employee.
#[derive(Debug)]
pub struct DelEmployeeImpl {
    pub id: EmployeeId,
}

impl DelEmployeeImpl {
    pub fn new(id: EmployeeId) -> (r: DelEmployeeImpl)
        ensures
            r.id == id,
    {
        DelEmployeeImpl { id }
    }

    pub fn execute<D: EmployeeDao>(&self, dao: &mut D) -> (r: Result<(), UsecaseError>)
        requires
            old(dao).inv(),
        ensures
            final(dao).inv(),
            employee_deleted(old(dao).store(), self.id, final(dao).store(), r),
    {
        del_employee(dao, self.id)
    }
}

/// Makes an employee salaried, paid monthly.
#[derive(Debug)]
pub struct ChgSalariedEmployeeImpl {
    pub id: EmployeeId,
    pub salary: Amount,
}

impl ChgSalariedEmployeeImpl {
    pub fn new(id: EmployeeId, salary: Amount) -> (r: ChgSalariedEmployeeImpl)
        ensures
            r.id == id,
            r.salary == salary,
    {
        ChgSalariedEmployeeImpl { id, salary }
    }

    pub fn execute<D: EmployeeDao>(&self, dao: &mut D) -> (r: Result<(), UsecaseError>)
        requires
            old(dao).inv(),
        ensures
            final(dao).inv(),
            employee_changed(
                old(dao).store(),
                self.id,
                old(dao).store().employees[self.id].with_classification(
                    salaried_model(self.salary),
                    PaymentSchedule::Monthly,
                ),
                final(dao).store(),
                r,
            ),
    {
        chg_classification(
            dao,
            self.id,
            PaymentClassification::salaried(self.salary),
            PaymentSchedule::Monthly,
        )
    }
}

/// Makes an employee hourly, paid weekly.
#[derive(Debug)]
pub struct ChgHourlyEmployeeImpl {
    pub id: EmployeeId,
    pub hourly_rate: Amount,
}

impl ChgHourlyEmployeeImpl {
    pub fn new(id: EmployeeId, hourly_rate: Amount) -> (r: ChgHourlyEmployeeImpl)
        ensures
            r.id == id,
            r.hourly_rate == hourly_rate,
    {
        ChgHourlyEmployeeImpl { id, hourly_rate }
    }

    pub fn execute<D: EmployeeDao>(&self, dao: &mut D) -> (r: Result<(), UsecaseError>)
        requires
            old(dao).inv(),
        ensures
            final(dao).inv(),
            employee_changed(
                old(dao).store(),
                self.id,
                old(dao).store().employees[self.id].with_classification(
                    hourly_model(self.hourly_rate),
                    PaymentSchedule::Weekly,
                ),
                final(dao).store(),
                r,
            ),
    {
        chg_classification(
            dao,
            self.id,
            PaymentClassification::hourly(self.hourly_rate),
            PaymentSchedule::Weekly,
        )
    }
}

/// Makes an employee commissioned, paid every other week.
#[derive(Debug)]
pub struct ChgCommissionedEmployeeImpl {
    pub id: EmployeeId,
    pub salary: Amount,
    pub commission_rate: Amount,
}

impl ChgCommissionedEmployeeImpl {
    pub fn new(
        id: EmployeeId,
        salary: Amount,
        commission_rate: Amount,
    ) -> (r: ChgCommissionedEmployeeImpl)
        ensures
            r.id == id,
            r.salary == salary,
            r.commission_rate == commission_rate,
    {
        ChgCommissionedEmployeeImpl { id, salary, commission_rate }
    }

    pub fn execute<D: EmployeeDao>(&self, dao: &mut D) -> (r: Result<(), UsecaseError>)
        requires
            old(dao).inv(),
        ensures
            final(dao).inv(),
            employee_changed(
                old(dao).store(),
                self.id,
                old(dao).store().employees[self.id].with_classification(
                    commissioned_model(self.salary, self.commission_rate),
                    PaymentSchedule::Biweekly,
                ),
                final(dao).store(),
                r,
            ),
    {
        chg_classification(
            dao,
            self.id,
            PaymentClassification::commissioned(self.salary, self.commission_rate),
            PaymentSchedule::Biweekly,
        )
    }
}

/// Has an employee's pay held.
#[derive(Debug)]
pub struct ChgHoldMethodImpl {
    pub id: EmployeeId,
}

impl ChgHoldMethodImpl {
    pub fn new(id: EmployeeId) -> (r: ChgHoldMethodImpl)
        ensures
            r.id == id,
    {
        ChgHoldMethodImpl { id }
    }

    pub fn execute<D: EmployeeDao>(&self, dao: &mut D) -> (r: Result<(), UsecaseError>)
        requires
            old(dao).inv(),
        ensures
            final(dao).inv(),
            employee_changed(
                old(dao).store(),
                self.id,
                old(dao).store().employees[self.id].with_method(MethodModel::Hold),
                final(dao).store(),
                r,
            ),
    {
        chg_method(dao, self.id, PaymentMethod::Hold)
    }
}

/// Has an employee paid into a bank account.
#[derive(Debug)]
pub struct ChgDirectMethodImpl {
    pub id: EmployeeId,
    pub bank: String,
    pub account: String,
}

impl ChgDirectMethodImpl {
    pub fn new(id: EmployeeId, bank: &str, account: &str) -> (r: ChgDirectMethodImpl)
        ensures
            r.id == id,
            r.bank@ == bank@,
            r.account@ == account@,
    {
        ChgDirectMethodImpl { id, bank: bank.to_owned(), account: account.to_owned() }
    }

    pub fn execute<D: EmployeeDao>(&self, dao: &mut D) -> (r: Result<(), UsecaseError>)
        requires
            old(dao).inv(),
        ensures
            final(dao).inv(),
            employee_changed(
                old(dao).store(),
                self.id,
                old(dao).store().employees[self.id].with_method(
                    MethodModel::Direct { bank: self.bank@, account: self.account@ },
                ),
                final(dao).store(),
                r,
            ),
    {
        chg_method(dao, self.id, PaymentMethod::direct(self.bank.as_str(), self.account.as_str()))
    }
}

/// Has an employee's pay mailed.
#[derive(Debug)]
pub struct ChgMailMethodImpl {
    pub id: EmployeeId,
    pub address: String,
}

impl ChgMailMethodImpl {
    pub fn new(id: EmployeeId, address: &str) -> (r: ChgMailMethodImpl)
        ensures
            r.id == id,
            r.address@ == address@,
    {
        ChgMailMethodImpl { id, address: address.to_owned() }
    }

    pub fn execute<D: EmployeeDao>(&self, dao: &mut D) -> (r: Result<(), UsecaseError>)
        requires
            old(dao).inv(),
        ensures
            final(dao).inv(),
            employee_changed(
                old(dao).store(),
                self.id,
                old(dao).store().employees[self.id].with_method(
                    MethodModel::Mail { address: self.address@ },
                ),
                final(dao).store(),
                r,
            ),
    {
        chg_method(dao, self.id, PaymentMethod::mail(self.address.as_str()))
    }
}

/// Makes an employee a union member.
#[derive(Debug)]
pub struct AddUnionMemberImpl {
    pub member_id: MemberId,
    pub emp_id: EmployeeId,
    pub dues: Amount,
}

impl AddUnionMemberImpl {
    pub fn new(member_id: MemberId, emp_id: EmployeeId, dues: Amount) -> (r: AddUnionMemberImpl)
        ensures
            r.member_id == member_id,
            r.emp_id == emp_id,
            r.dues == dues,
    {
        AddUnionMemberImpl { member_id, emp_id, dues }
    }

    pub fn execute<D: EmployeeDao>(&self, dao: &mut D) -> (r: Result<(), UsecaseError>)
        requires
            old(dao).inv(),
        ensures
            final(dao).inv(),
            union_affiliation_added(
                old(dao).store(),
                self.member_id,
                self.emp_id,
                union_affiliation(self.member_id, self.dues),
                final(dao).store(),
                r,
            ),
    {
        add_union_affiliation(
            dao,
            self.member_id,
            self.emp_id,
            Affiliation::union_member(self.member_id, self.dues),
        )
    }
}

/// Takes an employee out of the union.
#[derive(Debug)]
pub struct DelUnionMemberImpl {
    pub emp_id: EmployeeId,
}

impl DelUnionMemberImpl {
    pub fn new(emp_id: EmployeeId) -> (r: DelUnionMemberImpl)
        ensures
            r.emp_id == emp_id,
    {
        DelUnionMemberImpl { emp_id }
    }

    pub fn execute<D: EmployeeDao>(&self, dao: &mut D) -> (r: Result<(), UsecaseError>)
        requires
            old(dao).inv(),
        ensures
            final(dao).inv(),
            union_affiliation_removed(
                old(dao).store(),
                self.emp_id,
                AffiliationModel::NoAffiliation,
                final(dao).store(),
                r,
            ),
    {
        del_union_affiliation(dao, self.emp_id, Affiliation::NoAffiliation)
    }
}

/// Adds a time card to an hourly employee.
#[derive(Debug)]
pub struct AddTimecardImpl {
    pub emp_id: EmployeeId,
    pub date: Date,
    pub hours: Amount,
}

impl AddTimecardImpl {
    pub fn new(emp_id: EmployeeId, date: Date, hours: Amount) -> (r: AddTimecardImpl)
        ensures
            r.emp_id == emp_id,
            r.date == date,
            r.hours == hours,
    {
        AddTimecardImpl { emp_id, date, hours }
    }

    pub fn execute<D: EmployeeDao>(&self, dao: &mut D) -> (r: Result<(), UsecaseError>)
        requires
            old(dao).inv(),
        ensures
            final(dao).inv(),
            timecard_added(
                old(dao).store(),
                self.emp_id,
                TimeCard { date: self.date, hours: self.hours },
                final(dao).store(),
                r,
            ),
    {
        add_time_card(dao, self.emp_id, TimeCard { date: self.date, hours: self.hours })
    }
}

/// Adds a sales receipt to a commissioned employee.
#[derive(Debug)]
pub struct AddSalesReceiptImpl {
    pub emp_id: EmployeeId,
    pub date: Date,
    pub amount: Amount,
}

impl AddSalesReceiptImpl {
    pub fn new(emp_id: EmployeeId, date: Date, amount: Amount) -> (r: AddSalesReceiptImpl)
        ensures
            r.emp_id == emp_id,
            r.date == date,
            r.amount == amount,
    {
        AddSalesReceiptImpl { emp_id, date, amount }
    }

    pub fn execute<D: EmployeeDao>(&self, dao: &mut D) -> (r: Result<(), UsecaseError>)
        requires
            old(dao).inv(),
        ensures
            final(dao).inv(),
            sales_receipt_added(
                old(dao).store(),
                self.emp_id,
                SalesReceipt { date: self.date, amount: self.amount },
                final(dao).store(),
                r,
            ),
    {
        add_sales_receipt(dao, self.emp_id, SalesReceipt { date: self.date, amount: self.amount })
    }
}

/// Adds a service charge to a union member.
#[derive(Debug)]
pub struct AddServiceChargeImpl {
    pub member_id: MemberId,
    pub date: Date,
    pub amount: Amount,
}

impl AddServiceChargeImpl {
    pub fn new(member_id: MemberId, date: Date, amount: Amount) -> (r: AddServiceChargeImpl)
        ensures
            r.member_id == member_id,
            r.date == date,
            r.amount == amount,
    {
        AddServiceChargeImpl { member_id, date, amount }
    }

    pub fn execute<D: EmployeeDao>(&self, dao: &mut D) -> (r: Result<(), UsecaseError>)
        requires
            old(dao).inv(),
        ensures
            final(dao).inv(),
            service_charge_added(
                old(dao).store(),
                self.member_id,
                ServiceCharge { date: self.date, amount: self.amount },
                final(dao).store(),
                r,
            ),
    {
        add_service_charge(
            dao,
            self.member_id,
            ServiceCharge { date: self.date, amount: self.amount },
        )
    }
}

/// Pays the employees whose payday the date is.
#[derive(Debug)]
pub struct PaydayImpl {
    pub pay_date: Date,
}

impl PaydayImpl {
    pub fn new(pay_date: Date) -> (r: PaydayImpl)
        ensures
            r.pay_date == pay_date,
    {
        PaydayImpl { pay_date }
    }

    pub fn execute<D: EmployeeDao, C: PayCalculator>(&self, dao: &mut D, calc: &C) -> (r: Result<
        (),
        UsecaseError,
    >)
        requires
            old(dao).inv(),
        ensures
            final(dao).inv(),
            payday_done(old(dao).store(), *calc, self.pay_date, final(dao).store(), r),
            D::reliable() ==> r is Ok,
    {
        payday(dao, calc, self.pay_date)
    }
}

} // verus!
