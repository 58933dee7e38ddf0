use chrono::NaiveDate;

use payroll::dao::{DaoError, EmployeeDao};
use payroll::domain::{
    Affiliation, Employee, Paycheck, PaymentClassification, PaymentMethod, PaymentSchedule,
};
use payroll::memory_dao::MemoryDao;

fn bits(x: f32) -> u32 {
    x.to_bits()
}

fn date(y: i32, m: u32, d: u32) -> NaiveDate {
    NaiveDate::from_ymd_opt(y, m, d).unwrap()
}

fn salaried(id: u32, name: &str) -> Employee {
    Employee::new(
        id,
        name,
        "Home",
        PaymentClassification::salaried(bits(1000.0)),
        PaymentSchedule::Monthly,
        PaymentMethod::Hold,
        Affiliation::NoAffiliation,
    )
}

fn paycheck(gross: f32, deductions: f32, net: f32) -> Paycheck {
    Paycheck {
        period_start: date(2025, 3, 1),
        period_end: date(2025, 3, 31),
        gross_pay: bits(gross),
        deductions: bits(deductions),
        net_pay: bits(net),
    }
}

#[test]
fn insert_then_fetch_gives_the_employee_back() {
    let mut dao = MemoryDao::new();
    assert_eq!(dao.insert(salaried(1, "Bob")), Ok(1));
    assert_eq!(dao.fetch(1), Ok(salaried(1, "Bob")));
}

#[test]
fn insert_refuses_a_taken_id() {
    let mut dao = MemoryDao::new();
    assert_eq!(dao.insert(salaried(1, "Bob")), Ok(1));
    assert_eq!(dao.insert(salaried(1, "Alice")), Err(DaoError::AlreadyExists(1)));
    assert_eq!(dao.fetch(1), Ok(salaried(1, "Bob")));
}

#[test]
fn fetch_of_a_missing_employee_is_not_found() {
    let dao = MemoryDao::new();
    assert_eq!(dao.fetch(7), Err(DaoError::NotFound(7)));
}

#[test]
fn remove_takes_the_employee_out() {
    let mut dao = MemoryDao::new();
    dao.insert(salaried(1, "Bob")).unwrap();
    dao.insert(salaried(2, "Alice")).unwrap();
    assert_eq!(dao.remove(1), Ok(()));
    assert_eq!(dao.fetch(1), Err(DaoError::NotFound(1)));
    assert_eq!(dao.fetch(2), Ok(salaried(2, "Alice")));
    assert_eq!(dao.remove(1), Err(DaoError::NotFound(1)));
}

#[test]
fn fetch_all_lists_employees_in_the_order_they_were_added() {
    let mut dao = MemoryDao::new();
    dao.insert(salaried(3, "Carol")).unwrap();
    dao.insert(salaried(1, "Bob")).unwrap();
    dao.insert(salaried(2, "Alice")).unwrap();
    dao.remove(1).unwrap();
    let all = dao.fetch_all();
    assert_eq!(all, Ok(vec![(3, salaried(3, "Carol")), (2, salaried(2, "Alice"))]));
}

#[test]
fn update_replaces_the_stored_employee() {
    let mut dao = MemoryDao::new();
    dao.insert(salaried(1, "Bob")).unwrap();
    assert_eq!(dao.update(salaried(1, "Robert")), Ok(()));
    assert_eq!(dao.fetch(1), Ok(salaried(1, "Robert")));
    assert_eq!(dao.update(salaried(2, "Alice")), Err(DaoError::NotFound(2)));
    assert_eq!(dao.fetch(2), Err(DaoError::NotFound(2)));
}

#[test]
fn union_members_are_recorded_found_and_forgotten() {
    let mut dao = MemoryDao::new();
    dao.insert(salaried(1, "Bob")).unwrap();
    assert_eq!(dao.add_union_member(7734, 1), Ok(()));
    assert_eq!(dao.find_union_member(7734), Ok(1));
    assert_eq!(dao.add_union_member(7734, 1), Err(DaoError::MemberAlreadyExists(7734)));
    assert_eq!(dao.remove_union_member(7734), Ok(()));
    assert_eq!(dao.find_union_member(7734), Err(DaoError::MemberNotFound(7734)));
    assert_eq!(dao.remove_union_member(7734), Err(DaoError::MemberNotFound(7734)));
}

#[test]
fn paychecks_are_recorded_for_stored_employees_only() {
    let mut dao = MemoryDao::new();
    dao.insert(salaried(1, "Bob")).unwrap();
    assert_eq!(dao.record_paycheck(1, paycheck(1000.0, 0.0, 1000.0)), Ok(()));
    assert_eq!(dao.record_paycheck(2, paycheck(5.0, 0.0, 5.0)), Err(DaoError::NotFound(2)));
    assert_eq!(dao.record_paycheck(1, paycheck(900.0, 10.0, 890.0)), Ok(()));
    assert_eq!(
        dao.paychecks(),
        vec![(1, paycheck(1000.0, 0.0, 1000.0)), (1, paycheck(900.0, 10.0, 890.0))]
    );
}

#[test]
fn a_new_store_is_empty() {
    let dao = MemoryDao::new();
    assert_eq!(dao.fetch_all(), Ok(vec![]));
    assert_eq!(dao.paychecks(), vec![]);
    assert_eq!(dao.find_union_member(1), Err(DaoError::MemberNotFound(1)));
}
