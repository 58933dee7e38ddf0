use std::cell::RefCell;

use chrono::NaiveDate;

use payroll::dao::{DaoError, EmployeeDao, Store};
use payroll::domain::{
    Affiliation, Employee, EmployeeId, MemberId, Paycheck, PaymentClassification, PaymentMethod,
    PaymentSchedule, SalesReceipt, TimeCard,
};
use payroll::tx::Response;
use payroll::tx_impl::{
    AddCommissionedEmployeeTx, AddSalariedEmployeeTx, AddSalesReceiptTx, AddTimeCardTx,
};

#[derive(Debug, PartialEq)]
enum Call {
    Insert(Employee),
    Fetch(EmployeeId),
    Update(Employee),
}

/// A store that records the calls made on it and answers fetches from a list.
struct Recorder {
    calls: RefCell<Vec<Call>>,
    fetched: RefCell<Vec<Result<Employee, DaoError>>>,
}

impl Recorder {
    fn new(fetched: Vec<Result<Employee, DaoError>>) -> Self {
        Recorder { calls: RefCell::new(vec![]), fetched: RefCell::new(fetched) }
    }
}

impl EmployeeDao for Recorder {
    fn store(&self) -> Store {
        unreachable!("the store's contents are only spoken of in proofs")
    }
    fn inv(&self) -> bool {
        true
    }
    fn lemma_store(&self) {}
    fn reliable() -> bool {
        false
    }
    fn insert(&mut self, emp: Employee) -> Result<EmployeeId, DaoError> {
        let id = emp.id;
        self.calls.borrow_mut().push(Call::Insert(emp));
        Ok(id)
    }
    fn remove(&mut self, _id: EmployeeId) -> Result<(), DaoError> {
        unreachable!("remove should not be called")
    }
    fn fetch(&self, id: EmployeeId) -> Result<Employee, DaoError> {
        self.calls.borrow_mut().push(Call::Fetch(id));
        self.fetched.borrow_mut().pop().unwrap()
    }
    fn fetch_all(&self) -> Result<Vec<(EmployeeId, Employee)>, DaoError> {
        unreachable!("fetch_all should not be called")
    }
    fn update(&mut self, emp: Employee) -> Result<(), DaoError> {
        self.calls.borrow_mut().push(Call::Update(emp));
        Ok(())
    }
    fn add_union_member(&mut self, _member_id: MemberId, _emp_id: EmployeeId) -> Result<(), DaoError> {
        unreachable!("add_union_member should not be called")
    }
    fn remove_union_member(&mut self, _member_id: MemberId) -> Result<(), DaoError> {
        unreachable!("remove_union_member should not be called")
    }
    fn find_union_member(&self, _member_id: MemberId) -> Result<EmployeeId, DaoError> {
        unreachable!("find_union_member should not be called")
    }
    fn record_paycheck(&mut self, _emp_id: EmployeeId, _paycheck: Paycheck) -> Result<(), DaoError> {
        unreachable!("record_paycheck should not be called")
    }
}

fn bits(x: f32) -> u32 {
    x.to_bits()
}

fn date(y: i32, m: u32, d: u32) -> NaiveDate {
    NaiveDate::from_ymd_opt(y, m, d).unwrap()
}

#[test]
fn add_commissioned_employee_test_add_emp() {
    let mut t = Recorder::new(vec![]);
    let tx = AddCommissionedEmployeeTx::new(1, "Chris", "Wall St. 123", bits(123.0), bits(0.15));
    let r = tx.execute(&mut t);
    assert_eq!(r, Ok(Response::EmployeeId(1)));
    let expected = Employee::new(
        1,
        "Chris",
        "Wall St. 123",
        PaymentClassification::commissioned(bits(123.0), bits(0.15)),
        PaymentSchedule::Biweekly,
        PaymentMethod::Hold,
        Affiliation::NoAffiliation,
    );
    assert_eq!(*t.calls.borrow(), vec![Call::Insert(expected)]);
}

#[test]
fn add_salaried_employee_test_add_emp() {
    let mut t = Recorder::new(vec![]);
    let tx = AddSalariedEmployeeTx::new(1, "Bob", "Home", bits(123.0));
    let r = tx.execute(&mut t);
    assert_eq!(r, Ok(Response::EmployeeId(1)));
    let expected = Employee::new(
        1,
        "Bob",
        "Home",
        PaymentClassification::salaried(bits(123.0)),
        PaymentSchedule::Monthly,
        PaymentMethod::Hold,
        Affiliation::NoAffiliation,
    );
    assert_eq!(*t.calls.borrow(), vec![Call::Insert(expected)]);
}

#[test]
fn add_sales_receipt_test_add_timecard() {
    let stored = Employee::new(
        1,
        "Bob",
        "Home",
        PaymentClassification::commissioned(bits(123.0), bits(0.01)),
        PaymentSchedule::Biweekly,
        PaymentMethod::Hold,
        Affiliation::NoAffiliation,
    );
    let mut t = Recorder::new(vec![Ok(stored)]);
    let tx = AddSalesReceiptTx::new(1, date(2025, 3, 5), bits(1000.0));
    let r = tx.execute(&mut t);
    assert_eq!(r, Ok(Response::Void));
    let expected = Employee::new(
        1,
        "Bob",
        "Home",
        PaymentClassification::Commissioned {
            salary: bits(123.0),
            commission_rate: bits(0.01),
            sales_receipts: vec![SalesReceipt { date: date(2025, 3, 5), amount: bits(1000.0) }],
        },
        PaymentSchedule::Biweekly,
        PaymentMethod::Hold,
        Affiliation::NoAffiliation,
    );
    assert_eq!(*t.calls.borrow(), vec![Call::Fetch(1), Call::Update(expected)]);
}

#[test]
fn add_timecard_test_add_timecard() {
    let stored = Employee::new(
        1,
        "Bob",
        "Home",
        PaymentClassification::hourly(bits(12.0)),
        PaymentSchedule::Weekly,
        PaymentMethod::Hold,
        Affiliation::NoAffiliation,
    );
    let mut t = Recorder::new(vec![Ok(stored)]);
    let tx = AddTimeCardTx::new(1, date(2025, 3, 5), bits(8.0));
    let r = tx.execute(&mut t);
    assert_eq!(r, Ok(Response::Void));
    let expected = Employee::new(
        1,
        "Bob",
        "Home",
        PaymentClassification::Hourly {
            hourly_rate: bits(12.0),
            timecards: vec![TimeCard { date: date(2025, 3, 5), hours: bits(8.0) }],
        },
        PaymentSchedule::Weekly,
        PaymentMethod::Hold,
        Affiliation::NoAffiliation,
    );
    assert_eq!(*t.calls.borrow(), vec![Call::Fetch(1), Call::Update(expected)]);
}
