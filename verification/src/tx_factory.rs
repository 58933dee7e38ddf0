//! Building the transactions of a script from their parameters.
use vstd::prelude::*;

use crate::domain::{Amount, Date, EmployeeId, MemberId};
use crate::tx::Tx;

verus! {

/// Makes transactions from the parameters that a script gives them.
pub struct TxFactoryImpl;

impl TxFactoryImpl {
    pub fn new() -> (r: TxFactoryImpl) {
        TxFactoryImpl
    }

    /// Adds an hourly employee.
    pub fn mk_add_hourly_employee_tx(
        &self,
        id: EmployeeId,
        name: &str,
        address: &str,
        hourly_rate: Amount,
    ) -> (r: Tx)
        ensures
            (r matches Tx::AddHourlyEmployee { id: a, name: b, address: c, hourly_rate: d }
                && a == id && b@ == name@ && c@ == address@ && d == hourly_rate),
    {
        Tx::AddHourlyEmployee {
            id,
            name: name.to_owned(),
            address: address.to_owned(),
            hourly_rate,
        }
    }

    /// Adds a salaried employee.
    pub fn mk_add_salaried_employee_tx(
        &self,
        id: EmployeeId,
        name: &str,
        address: &str,
        salary: Amount,
    ) -> (r: Tx)
        ensures
            (r matches Tx::AddSalariedEmployee { id: a, name: b, address: c, salary: d }
                && a == id && b@ == name@ && c@ == address@ && d == salary),
    {
        Tx::AddSalariedEmployee { id, name: name.to_owned(), address: address.to_owned(), salary }
    }

    /// Adds a commissioned employee.
    pub fn mk_add_commissioned_employee_tx(
        &self,
        id: EmployeeId,
        name: &str,
        address: &str,
        salary: Amount,
        commission_rate: Amount,
    ) -> (r: Tx)
        ensures
            (r matches Tx::AddCommissionedEmployee {
                id: a,
                name: b,
                address: c,
                salary: d,
                commission_rate: e,
            }
                && a == id && b@ == name@ && c@ == address@ && d == salary && e == commission_rate),
    {
        Tx::AddCommissionedEmployee {
            id,
            name: name.to_owned(),
            address: address.to_owned(),
            salary,
            commission_rate,
        }
    }

    /// Deletes an employee.
    pub fn mk_delete_employee_tx(&self, id: EmployeeId) -> (r: Tx)
        ensures
            (r matches Tx::DeleteEmployee { id: a } && a == id),
    {
        Tx::DeleteEmployee { id }
    }

    /// Adds a time card.
    pub fn mk_add_timecard_tx(&self, id: EmployeeId, date: Date, hours: Amount) -> (r: Tx)
        ensures
            (r matches Tx::AddTimeCard { id: a, date: b, hours: c }
                && a == id && b == date && c == hours),
    {
        Tx::AddTimeCard { id, date, hours }
    }

    /// Adds a sales receipt.
    pub fn mk_add_sales_receipt_tx(&self, id: EmployeeId, date: Date, amount: Amount) -> (r: Tx)
        ensures
            (r matches Tx::AddSalesReceipt { id: a, date: b, amount: c }
                && a == id && b == date && c == amount),
    {
        Tx::AddSalesReceipt { id, date, amount }
    }

    /// Adds a service charge to a union member.
    pub fn mk_add_service_charge_tx(
        &self,
        member_id: MemberId,
        date: Date,
        amount: Amount,
    ) -> (r: Tx)
        ensures
            (r matches Tx::AddServiceCharge { member_id: a, date: b, amount: c }
                && a == member_id && b == date && c == amount),
    {
        Tx::AddServiceCharge { member_id, date, amount }
    }

    /// Renames an employee.
    pub fn mk_change_employee_name_tx(&self, id: EmployeeId, new_name: &str) -> (r: Tx)
        ensures
            (r matches Tx::ChangeEmployeeName { id: a, new_name: b } && a == id && b@ == new_name@),
    {
        Tx::ChangeEmployeeName { id, new_name: new_name.to_owned() }
    }

    /// Changes an employee's address.
    pub fn mk_change_employee_address_tx(&self, id: EmployeeId, new_address: &str) -> (r: Tx)
        ensures
            (r matches Tx::ChangeEmployeeAddress { id: a, new_address: b }
                && a == id && b@ == new_address@),
    {
        Tx::ChangeEmployeeAddress { id, new_address: new_address.to_owned() }
    }

    /// Makes an employee hourly.
    pub fn mk_change_employee_hourly_tx(&self, id: EmployeeId, hourly_rate: Amount) -> (r: Tx)
        ensures
            (r matches Tx::ChangeEmployeeHourly { id: a, hourly_rate: b }
                && a == id && b == hourly_rate),
    {
        Tx::ChangeEmployeeHourly { id, hourly_rate }
    }

    /// Makes an employee salaried.
    pub fn mk_change_employee_salaried_tx(&self, id: EmployeeId, salary: Amount) -> (r: Tx)
        ensures
            (r matches Tx::ChangeEmployeeSalaried { id: a, salary: b } && a == id && b == salary),
    {
        Tx::ChangeEmployeeSalaried { id, salary }
    }

    /// Makes an employee commissioned.
    pub fn mk_change_employee_commissioned_tx(
        &self,
        id: EmployeeId,
        salary: Amount,
        commission_rate: Amount,
    ) -> (r: Tx)
        ensures
            (r matches Tx::ChangeEmployeeCommissioned { id: a, salary: b, commission_rate: c }
                && a == id && b == salary && c == commission_rate),
    {
        Tx::ChangeEmployeeCommissioned { id, salary, commission_rate }
    }

    /// Has an employee's pay held.
    pub fn mk_change_employee_hold_tx(&self, id: EmployeeId) -> (r: Tx)
        ensures
            (r matches Tx::ChangeEmployeeHold { id: a } && a == id),
    {
        Tx::ChangeEmployeeHold { id }
    }

    /// Has an employee paid into a bank account.
    pub fn mk_change_employee_direct_tx(&self, id: EmployeeId, bank: &str, account: &str) -> (r: Tx)
        ensures
            (r matches Tx::ChangeEmployeeDirect { id: a, bank: b, account: c }
                && a == id && b@ == bank@ && c@ == account@),
    {
        Tx::ChangeEmployeeDirect { id, bank: bank.to_owned(), account: account.to_owned() }
    }

    /// Has an employee's pay mailed.
    pub fn mk_change_employee_mail_tx(&self, id: EmployeeId, address: &str) -> (r: Tx)
        ensures
            (r matches Tx::ChangeEmployeeMail { id: a, address: b } && a == id && b@ == address@),
    {
        Tx::ChangeEmployeeMail { id, address: address.to_owned() }
    }

    /// Makes an employee a union member.
    pub fn mk_change_employee_member_tx(
        &self,
        emp_id: EmployeeId,
        member_id: MemberId,
        dues: Amount,
    ) -> (r: Tx)
        ensures
            (r matches Tx::ChangeEmployeeMember { emp_id: a, member_id: b, dues: c }
                && a == emp_id && b == member_id && c == dues),
    {
        Tx::ChangeEmployeeMember { emp_id, member_id, dues }
    }

    /// Takes an employee out of the union.
    pub fn mk_change_employee_no_member_tx(&self, emp_id: EmployeeId) -> (r: Tx)
        ensures
            (r matches Tx::ChangeEmployeeNoMember { emp_id: a } && a == emp_id),
    {
        Tx::ChangeEmployeeNoMember { emp_id }
    }

    /// Pays everyone whose payday the date is.
    pub fn mk_payday_tx(&self, date: Date) -> (r: Tx)
        ensures
            (r matches Tx::Payday { date: a } && a == date),
    {
        Tx::Payday { date }
    }
}

} // verus!
