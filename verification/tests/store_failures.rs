use std::cell::Cell;

use chrono::NaiveDate;

use payroll::dao::{DaoError, EmployeeDao, Store};
use payroll::domain::{
    Affiliation, Employee, EmployeeId, MemberId, Paycheck, PaymentClassification, PaymentMethod,
    PaymentSchedule,
};
use payroll::interface::{
    pay_after_recording, pay_all, pay_listed, payday, PaydayFailure, UsecaseError,
};
use payroll::memory_dao::MemoryDao;
use payroll::pay::PayTable;
use payroll::tx::{execute_tx, Tx};
use payroll::tx_app::TxApp;
use payroll::usecase;

/// A store in memory that fails to list its employees, or fails the n-th
/// paycheck it is asked to record.
struct FaultyStore {
    inner: MemoryDao,
    listing_fails: bool,
    fail_record_at: Option<usize>,
    record_calls: Cell<usize>,
}

impl FaultyStore {
    fn new(inner: MemoryDao, listing_fails: bool, fail_record_at: Option<usize>) -> Self {
        FaultyStore { inner, listing_fails, fail_record_at, record_calls: Cell::new(0) }
    }
}

fn fault() -> DaoError {
    DaoError::UnexpectedError("disk full".to_string())
}

impl EmployeeDao for FaultyStore {
    fn store(&self) -> Store {
        unreachable!("the store's contents are only spoken of in proofs")
    }
    fn inv(&self) -> bool {
        true
    }
    fn lemma_store(&self) {}
    fn reliable() -> bool {
        false
    }
    fn insert(&mut self, emp: Employee) -> Result<EmployeeId, DaoError> {
        self.inner.insert(emp)
    }
    fn remove(&mut self, id: EmployeeId) -> Result<(), DaoError> {
        self.inner.remove(id)
    }
    fn fetch(&self, id: EmployeeId) -> Result<Employee, DaoError> {
        self.inner.fetch(id)
    }
    fn fetch_all(&self) -> Result<Vec<(EmployeeId, Employee)>, DaoError> {
        if self.listing_fails {
            Err(fault())
        } else {
            self.inner.fetch_all()
        }
    }
    fn update(&mut self, emp: Employee) -> Result<(), DaoError> {
        self.inner.update(emp)
    }
    fn add_union_member(&mut self, member_id: MemberId, emp_id: EmployeeId) -> Result<(), DaoError> {
        self.inner.add_union_member(member_id, emp_id)
    }
    fn remove_union_member(&mut self, member_id: MemberId) -> Result<(), DaoError> {
        self.inner.remove_union_member(member_id)
    }
    fn find_union_member(&self, member_id: MemberId) -> Result<EmployeeId, DaoError> {
        self.inner.find_union_member(member_id)
    }
    fn record_paycheck(&mut self, emp_id: EmployeeId, paycheck: Paycheck) -> Result<(), DaoError> {
        let n = self.record_calls.get() + 1;
        self.record_calls.set(n);
        if self.fail_record_at == Some(n) {
            Err(fault())
        } else {
            self.inner.record_paycheck(emp_id, paycheck)
        }
    }
}

fn bits(x: f32) -> u32 {
    x.to_bits()
}

fn date(y: i32, m: u32, d: u32) -> NaiveDate {
    NaiveDate::from_ymd_opt(y, m, d).unwrap()
}

fn pc(x: f32) -> Paycheck {
    Paycheck {
        period_start: date(2025, 3, 1),
        period_end: date(2025, 3, 31),
        gross_pay: bits(x),
        deductions: bits(0.0),
        net_pay: bits(x),
    }
}

/// Three salaried employees, all due on the payday, and the table that pays them.
fn three_due() -> (MemoryDao, PayTable, NaiveDate) {
    let mut dao = MemoryDao::new();
    let payday_date = date(2025, 3, 31);
    let mut table = PayTable::new();
    for id in [1u32, 2, 3] {
        let emp = Employee::new(
            id,
            "X",
            "Home",
            PaymentClassification::salaried(bits(100.0)),
            PaymentSchedule::Monthly,
            PaymentMethod::Hold,
            Affiliation::NoAffiliation,
        );
        dao.insert(emp).unwrap();
        table.add(id, payday_date, pc(id as f32));
    }
    (dao, table, payday_date)
}

#[test]
fn a_failed_recording_stops_payday_and_is_its_failure() {
    let (dao, table, d) = three_due();
    let mut store = FaultyStore::new(dao, false, Some(2));
    assert_eq!(payday(&mut store, &table, d), Err(UsecaseError::PaydayFailed(fault())));
    assert_eq!(store.record_calls.get(), 2);
    assert_eq!(store.inner.paychecks(), vec![(1, pc(1.0))]);
}

#[test]
fn a_failed_listing_is_payday_failure_and_records_nothing() {
    let (dao, table, d) = three_due();
    let mut store = FaultyStore::new(dao, true, None);
    assert_eq!(payday(&mut store, &table, d), Err(UsecaseError::PaydayFailed(fault())));
    assert_eq!(store.record_calls.get(), 0);
    assert_eq!(store.inner.paychecks(), vec![]);
}

#[test]
fn pay_all_says_which_call_failed() {
    let (dao, table, d) = three_due();
    let mut store = FaultyStore::new(dao, true, None);
    assert_eq!(pay_all(&mut store, &table, d), Err(PaydayFailure::Listing(fault())));
    let (dao, table, d) = three_due();
    let mut store = FaultyStore::new(dao, false, Some(1));
    assert_eq!(pay_all(&mut store, &table, d), Err(PaydayFailure::Recording(fault())));
    assert_eq!(store.inner.paychecks(), vec![]);
}

#[test]
fn the_use_case_names_the_failing_step() {
    let (dao, table, d) = three_due();
    let mut store = FaultyStore::new(dao, true, None);
    assert_eq!(
        usecase::payday(&mut store, &table, d),
        Err(usecase::UsecaseError::FailedToGet(fault()))
    );
    let (dao, table, d) = three_due();
    let mut store = FaultyStore::new(dao, false, Some(3));
    assert_eq!(
        usecase::payday(&mut store, &table, d),
        Err(usecase::UsecaseError::FailedToUpdate(fault()))
    );
    assert_eq!(store.inner.paychecks(), vec![(1, pc(1.0)), (2, pc(2.0))]);
}

#[test]
fn a_script_stops_at_a_failed_payday() {
    let (dao, table, d) = three_due();
    let mut store = FaultyStore::new(dao, false, Some(1));
    let app = TxApp::new(vec![Tx::Payday { date: d }, Tx::DeleteEmployee { id: 1 }]);
    assert_eq!(app.run(&mut store, &table), Err(UsecaseError::PaydayFailed(fault())));
    assert!(store.inner.fetch(1).is_ok());
    assert_eq!(execute_tx(&mut store, &table, &Tx::DeleteEmployee { id: 1 }).is_ok(), true);
}

#[test]
fn a_listing_answer_decides_how_payday_goes_on() {
    let (dao, table, d) = three_due();
    let mut store = FaultyStore::new(dao, false, None);
    let listing = store.fetch_all();
    assert_eq!(pay_listed(&mut store, &table, d, listing), Ok(()));
    assert_eq!(store.inner.paychecks(), vec![(1, pc(1.0)), (2, pc(2.0)), (3, pc(3.0))]);
    let (dao, table, d) = three_due();
    let mut store = FaultyStore::new(dao, false, None);
    let other = DaoError::NotFound(77);
    assert_eq!(
        pay_listed(&mut store, &table, d, Err(other.clone_error())),
        Err(PaydayFailure::Listing(other))
    );
    assert_eq!(store.record_calls.get(), 0);
}

#[test]
fn a_recording_answer_decides_how_payday_goes_on() {
    let (dao, table, d) = three_due();
    let mut store = FaultyStore::new(dao, false, None);
    let emps = store.fetch_all().unwrap();
    let other = DaoError::MemberNotFound(5);
    assert_eq!(
        pay_after_recording(&mut store, &table, d, &emps, 0, Err(other.clone_error())),
        Err(PaydayFailure::Recording(other))
    );
    assert_eq!(store.record_calls.get(), 0);
    assert_eq!(pay_after_recording(&mut store, &table, d, &emps, 0, Ok(())), Ok(()));
    assert_eq!(store.inner.paychecks(), vec![(2, pc(2.0)), (3, pc(3.0))]);
}

trait CloneError {
    fn clone_error(&self) -> DaoError;
}

impl CloneError for DaoError {
    fn clone_error(&self) -> DaoError {
        match self {
            DaoError::AlreadyExists(i) => DaoError::AlreadyExists(*i),
            DaoError::NotFound(i) => DaoError::NotFound(*i),
            DaoError::MemberAlreadyExists(i) => DaoError::MemberAlreadyExists(*i),
            DaoError::MemberNotFound(i) => DaoError::MemberNotFound(*i),
            DaoError::UnexpectedError(m) => DaoError::UnexpectedError(m.clone()),
        }
    }
}

#[test]
fn a_reliable_store_pays_everyone_due() {
    let (mut dao, table, d) = three_due();
    assert_eq!(payday(&mut dao, &table, d), Ok(()));
    assert_eq!(dao.paychecks(), vec![(1, pc(1.0)), (2, pc(2.0)), (3, pc(3.0))]);
}
