use chrono::NaiveDate;

use payroll::dao::{DaoError, EmployeeDao};
use payroll::domain::{
    Affiliation, Employee, Paycheck, PaymentClassification, PaymentMethod, PaymentSchedule,
    SalesReceipt, ServiceCharge, TimeCard,
};
use payroll::memory_dao::MemoryDao;
use payroll::pay::PayTable;
use payroll::tx::{execute_tx, Response, Tx};
use payroll::interface::{
    add_sales_receipt_to, add_service_charge_to, add_timecard_to, amounts_equal, remove_membership,
    verify_paycheck, PaycheckField, UsecaseError,
};

fn bits(x: f32) -> u32 {
    x.to_bits()
}

fn date(y: i32, m: u32, d: u32) -> NaiveDate {
    NaiveDate::from_ymd_opt(y, m, d).unwrap()
}

fn run(dao: &mut MemoryDao, tx: Tx) -> Result<Response, UsecaseError> {
    execute_tx(dao, &PayTable::new(), &tx)
}

fn add_hourly(dao: &mut MemoryDao, id: u32, name: &str) {
    let tx = Tx::AddHourlyEmployee {
        id,
        name: name.to_string(),
        address: "Home".to_string(),
        hourly_rate: bits(15.25),
    };
    assert_eq!(run(dao, tx), Ok(Response::EmployeeId(id)));
}

fn add_salaried(dao: &mut MemoryDao, id: u32, name: &str) {
    let tx = Tx::AddSalariedEmployee {
        id,
        name: name.to_string(),
        address: "Home".to_string(),
        salary: bits(1000.0),
    };
    assert_eq!(run(dao, tx), Ok(Response::EmployeeId(id)));
}

fn add_commissioned(dao: &mut MemoryDao, id: u32, name: &str) {
    let tx = Tx::AddCommissionedEmployee {
        id,
        name: name.to_string(),
        address: "Home".to_string(),
        salary: bits(2500.0),
        commission_rate: bits(3.2),
    };
    assert_eq!(run(dao, tx), Ok(Response::EmployeeId(id)));
}

fn join_union(dao: &mut MemoryDao, emp_id: u32, member_id: u32) {
    let tx = Tx::ChangeEmployeeMember { emp_id, member_id, dues: bits(9.42) };
    assert_eq!(run(dao, tx), Ok(Response::Void));
}

fn paycheck(gross: f32, deductions: f32, net: f32) -> Paycheck {
    Paycheck {
        period_start: date(2025, 3, 1),
        period_end: date(2025, 3, 31),
        gross_pay: bits(gross),
        deductions: bits(deductions),
        net_pay: bits(net),
    }
}

#[test]
fn added_employees_get_their_schedule_hold_and_no_union() {
    let mut dao = MemoryDao::new();
    add_hourly(&mut dao, 1, "Bob");
    add_salaried(&mut dao, 2, "Alice");
    add_commissioned(&mut dao, 3, "Carol");
    let hourly = dao.fetch(1).unwrap();
    assert_eq!(hourly.schedule, PaymentSchedule::Weekly);
    assert_eq!(hourly.method, PaymentMethod::Hold);
    assert_eq!(hourly.affiliation, Affiliation::NoAffiliation);
    assert_eq!(hourly.classification, PaymentClassification::hourly(bits(15.25)));
    assert_eq!(dao.fetch(2).unwrap().schedule, PaymentSchedule::Monthly);
    assert_eq!(
        dao.fetch(2).unwrap().classification,
        PaymentClassification::salaried(bits(1000.0))
    );
    let commissioned = dao.fetch(3).unwrap();
    assert_eq!(commissioned.schedule, PaymentSchedule::Biweekly);
    assert_eq!(
        commissioned.classification,
        PaymentClassification::commissioned(bits(2500.0), bits(3.2))
    );
    assert_eq!(commissioned.name, "Carol");
    assert_eq!(commissioned.address, "Home");
}

#[test]
fn adding_a_taken_id_fails_and_keeps_the_first_employee() {
    let mut dao = MemoryDao::new();
    add_hourly(&mut dao, 1, "Bob");
    let tx = Tx::AddSalariedEmployee {
        id: 1,
        name: "Alice".to_string(),
        address: "Work".to_string(),
        salary: bits(1.0),
    };
    assert_eq!(
        run(&mut dao, tx),
        Err(UsecaseError::AddEmployeeFailed(DaoError::AlreadyExists(1)))
    );
    assert_eq!(dao.fetch(1).unwrap().name, "Bob");
}

#[test]
fn delete_employee_removes_it_and_fails_for_a_missing_one() {
    let mut dao = MemoryDao::new();
    add_hourly(&mut dao, 1, "Bob");
    assert_eq!(run(&mut dao, Tx::DeleteEmployee { id: 1 }), Ok(Response::Void));
    assert_eq!(dao.fetch(1), Err(DaoError::NotFound(1)));
    assert_eq!(
        run(&mut dao, Tx::DeleteEmployee { id: 1 }),
        Err(UsecaseError::DeleteEmployeeFailed(DaoError::NotFound(1)))
    );
}

#[test]
fn time_cards_go_to_hourly_employees_only() {
    let mut dao = MemoryDao::new();
    add_hourly(&mut dao, 1, "Bob");
    add_salaried(&mut dao, 2, "Alice");
    let card = Tx::AddTimeCard { id: 1, date: date(2025, 3, 7), hours: bits(8.0) };
    assert_eq!(run(&mut dao, card), Ok(Response::Void));
    assert_eq!(
        dao.fetch(1).unwrap().classification,
        PaymentClassification::Hourly {
            hourly_rate: bits(15.25),
            timecards: vec![TimeCard { date: date(2025, 3, 7), hours: bits(8.0) }],
        }
    );
    let wrong = Tx::AddTimeCard { id: 2, date: date(2025, 3, 7), hours: bits(8.0) };
    assert_eq!(
        run(&mut dao, wrong),
        Err(UsecaseError::AddTimeCardFailed(DaoError::UnexpectedError(
            "classification is not HourlyClassification".to_string()
        )))
    );
    assert_eq!(
        dao.fetch(2).unwrap().classification,
        PaymentClassification::salaried(bits(1000.0))
    );
    let missing = Tx::AddTimeCard { id: 9, date: date(2025, 3, 7), hours: bits(8.0) };
    assert_eq!(
        run(&mut dao, missing),
        Err(UsecaseError::AddTimeCardFailed(DaoError::NotFound(9)))
    );
}

#[test]
fn sales_receipts_go_to_commissioned_employees_only() {
    let mut dao = MemoryDao::new();
    add_commissioned(&mut dao, 1, "Carol");
    add_hourly(&mut dao, 2, "Bob");
    let receipt = Tx::AddSalesReceipt { id: 1, date: date(2025, 3, 7), amount: bits(500.0) };
    assert_eq!(run(&mut dao, receipt), Ok(Response::Void));
    assert_eq!(
        dao.fetch(1).unwrap().classification,
        PaymentClassification::Commissioned {
            salary: bits(2500.0),
            commission_rate: bits(3.2),
            sales_receipts: vec![SalesReceipt { date: date(2025, 3, 7), amount: bits(500.0) }],
        }
    );
    let wrong = Tx::AddSalesReceipt { id: 2, date: date(2025, 3, 7), amount: bits(500.0) };
    assert_eq!(
        run(&mut dao, wrong),
        Err(UsecaseError::AddSalesReceiptFailed(DaoError::UnexpectedError(
            "classification is not CommissionedClassification".to_string()
        )))
    );
    let missing = Tx::AddSalesReceipt { id: 9, date: date(2025, 3, 7), amount: bits(1.0) };
    assert_eq!(
        run(&mut dao, missing),
        Err(UsecaseError::AddSalesReceiptFailed(DaoError::NotFound(9)))
    );
}

#[test]
fn service_charges_go_to_union_members() {
    let mut dao = MemoryDao::new();
    add_hourly(&mut dao, 1, "Bob");
    join_union(&mut dao, 1, 7734);
    let charge = Tx::AddServiceCharge { member_id: 7734, date: date(2025, 3, 7), amount: bits(12.95) };
    assert_eq!(run(&mut dao, charge), Ok(Response::Void));
    assert_eq!(
        dao.fetch(1).unwrap().affiliation,
        Affiliation::Union {
            member_id: 7734,
            dues: bits(9.42),
            service_charges: vec![ServiceCharge { date: date(2025, 3, 7), amount: bits(12.95) }],
        }
    );
    let unknown = Tx::AddServiceCharge { member_id: 1, date: date(2025, 3, 7), amount: bits(1.0) };
    assert_eq!(
        run(&mut dao, unknown),
        Err(UsecaseError::AddServiceChargeFailed(DaoError::MemberNotFound(1)))
    );
}

#[test]
fn a_service_charge_for_a_deleted_member_reports_the_missing_employee() {
    let mut dao = MemoryDao::new();
    add_hourly(&mut dao, 1, "Bob");
    join_union(&mut dao, 1, 7734);
    assert_eq!(run(&mut dao, Tx::DeleteEmployee { id: 1 }), Ok(Response::Void));
    let charge = Tx::AddServiceCharge { member_id: 7734, date: date(2025, 3, 7), amount: bits(1.0) };
    assert_eq!(
        run(&mut dao, charge),
        Err(UsecaseError::AddServiceChargeFailed(DaoError::NotFound(1)))
    );
}

#[test]
fn a_service_charge_for_a_member_who_left_is_refused() {
    let mut dao = MemoryDao::new();
    add_hourly(&mut dao, 1, "Bob");
    dao.add_union_member(7734, 1).unwrap();
    let charge = Tx::AddServiceCharge { member_id: 7734, date: date(2025, 3, 7), amount: bits(1.0) };
    assert_eq!(
        run(&mut dao, charge),
        Err(UsecaseError::AddServiceChargeFailed(DaoError::UnexpectedError(
            "didn't union affiliation".to_string()
        )))
    );
    assert_eq!(dao.fetch(1).unwrap().affiliation, Affiliation::NoAffiliation);
}

#[test]
fn name_and_address_changes() {
    let mut dao = MemoryDao::new();
    add_hourly(&mut dao, 1, "Bob");
    let rename = Tx::ChangeEmployeeName { id: 1, new_name: "Robert".to_string() };
    assert_eq!(run(&mut dao, rename), Ok(Response::Void));
    let moved = Tx::ChangeEmployeeAddress { id: 1, new_address: "Work".to_string() };
    assert_eq!(run(&mut dao, moved), Ok(Response::Void));
    let emp = dao.fetch(1).unwrap();
    assert_eq!(emp.name, "Robert");
    assert_eq!(emp.address, "Work");
    let missing_name = Tx::ChangeEmployeeName { id: 2, new_name: "X".to_string() };
    assert_eq!(
        run(&mut dao, missing_name),
        Err(UsecaseError::ChangeEmployeeNameFailed(DaoError::NotFound(2)))
    );
    let missing_address = Tx::ChangeEmployeeAddress { id: 2, new_address: "X".to_string() };
    assert_eq!(
        run(&mut dao, missing_address),
        Err(UsecaseError::ChangeEmployeeAddressFailed(DaoError::NotFound(2)))
    );
}

#[test]
fn classification_changes_bring_their_schedule() {
    let mut dao = MemoryDao::new();
    add_hourly(&mut dao, 1, "Bob");
    assert_eq!(run(&mut dao, Tx::ChangeEmployeeSalaried { id: 1, salary: bits(3000.0) }), Ok(Response::Void));
    let emp = dao.fetch(1).unwrap();
    assert_eq!(emp.classification, PaymentClassification::salaried(bits(3000.0)));
    assert_eq!(emp.schedule, PaymentSchedule::Monthly);
    let tx = Tx::ChangeEmployeeCommissioned { id: 1, salary: bits(2000.0), commission_rate: bits(0.5) };
    assert_eq!(run(&mut dao, tx), Ok(Response::Void));
    let emp = dao.fetch(1).unwrap();
    assert_eq!(
        emp.classification,
        PaymentClassification::commissioned(bits(2000.0), bits(0.5))
    );
    assert_eq!(emp.schedule, PaymentSchedule::Biweekly);
    assert_eq!(run(&mut dao, Tx::ChangeEmployeeHourly { id: 1, hourly_rate: bits(20.0) }), Ok(Response::Void));
    let emp = dao.fetch(1).unwrap();
    assert_eq!(emp.classification, PaymentClassification::hourly(bits(20.0)));
    assert_eq!(emp.schedule, PaymentSchedule::Weekly);
    assert_eq!(
        run(&mut dao, Tx::ChangeEmployeeHourly { id: 5, hourly_rate: bits(20.0) }),
        Err(UsecaseError::ChangePaymentClassificationFailed(DaoError::NotFound(5)))
    );
}

#[test]
fn method_changes() {
    let mut dao = MemoryDao::new();
    add_salaried(&mut dao, 1, "Alice");
    let direct = Tx::ChangeEmployeeDirect {
        id: 1,
        bank: "mufg".to_string(),
        account: "1234567".to_string(),
    };
    assert_eq!(run(&mut dao, direct), Ok(Response::Void));
    assert_eq!(dao.fetch(1).unwrap().method, PaymentMethod::direct("mufg", "1234567"));
    let mail = Tx::ChangeEmployeeMail { id: 1, address: "Post box 7".to_string() };
    assert_eq!(run(&mut dao, mail), Ok(Response::Void));
    assert_eq!(dao.fetch(1).unwrap().method, PaymentMethod::mail("Post box 7"));
    assert_eq!(run(&mut dao, Tx::ChangeEmployeeHold { id: 1 }), Ok(Response::Void));
    assert_eq!(dao.fetch(1).unwrap().method, PaymentMethod::Hold);
    assert_eq!(
        run(&mut dao, Tx::ChangeEmployeeHold { id: 2 }),
        Err(UsecaseError::ChangePaymentMethodFailed(DaoError::NotFound(2)))
    );
}

#[test]
fn joining_the_union_records_the_membership() {
    let mut dao = MemoryDao::new();
    add_hourly(&mut dao, 1, "Bob");
    join_union(&mut dao, 1, 7734);
    assert_eq!(dao.find_union_member(7734), Ok(1));
    assert_eq!(dao.fetch(1).unwrap().affiliation, Affiliation::union_member(7734, bits(9.42)));
}

#[test]
fn joining_with_a_taken_member_id_fails() {
    let mut dao = MemoryDao::new();
    add_hourly(&mut dao, 1, "Bob");
    add_hourly(&mut dao, 2, "Ann");
    join_union(&mut dao, 1, 7734);
    let tx = Tx::ChangeEmployeeMember { emp_id: 2, member_id: 7734, dues: bits(1.0) };
    assert_eq!(
        run(&mut dao, tx),
        Err(UsecaseError::ChangeMemberFailed(DaoError::MemberAlreadyExists(7734)))
    );
    assert_eq!(dao.find_union_member(7734), Ok(1));
    assert_eq!(dao.fetch(2).unwrap().affiliation, Affiliation::NoAffiliation);
}

#[test]
fn joining_for_a_missing_employee_fails_and_records_no_membership() {
    let mut dao = MemoryDao::new();
    let tx = Tx::ChangeEmployeeMember { emp_id: 3, member_id: 7734, dues: bits(1.0) };
    assert_eq!(
        run(&mut dao, tx),
        Err(UsecaseError::ChangeMemberFailed(DaoError::NotFound(3)))
    );
    assert_eq!(dao.find_union_member(7734), Err(DaoError::MemberNotFound(7734)));
}

#[test]
fn leaving_the_union_forgets_the_membership() {
    let mut dao = MemoryDao::new();
    add_hourly(&mut dao, 1, "Bob");
    join_union(&mut dao, 1, 7734);
    assert_eq!(run(&mut dao, Tx::ChangeEmployeeNoMember { emp_id: 1 }), Ok(Response::Void));
    assert_eq!(dao.fetch(1).unwrap().affiliation, Affiliation::NoAffiliation);
    assert_eq!(dao.find_union_member(7734), Err(DaoError::MemberNotFound(7734)));
}

#[test]
fn leaving_the_union_fails_for_a_non_member_or_a_missing_employee() {
    let mut dao = MemoryDao::new();
    add_hourly(&mut dao, 1, "Bob");
    assert_eq!(
        run(&mut dao, Tx::ChangeEmployeeNoMember { emp_id: 1 }),
        Err(UsecaseError::ChangeNoMemberFailed(DaoError::UnexpectedError(
            "didn't union affiliation".to_string()
        )))
    );
    assert_eq!(
        run(&mut dao, Tx::ChangeEmployeeNoMember { emp_id: 2 }),
        Err(UsecaseError::ChangeNoMemberFailed(DaoError::NotFound(2)))
    );
}

#[test]
fn leaving_the_union_with_a_forgotten_membership_reports_it() {
    let mut dao = MemoryDao::new();
    add_hourly(&mut dao, 1, "Bob");
    join_union(&mut dao, 1, 7734);
    dao.remove_union_member(7734).unwrap();
    assert_eq!(
        run(&mut dao, Tx::ChangeEmployeeNoMember { emp_id: 1 }),
        Err(UsecaseError::ChangeNoMemberFailed(DaoError::MemberNotFound(7734)))
    );
    assert_eq!(dao.fetch(1).unwrap().affiliation, Affiliation::union_member(7734, bits(9.42)));
}

#[test]
fn payday_records_what_the_pay_table_gives_in_store_order() {
    let mut dao = MemoryDao::new();
    add_salaried(&mut dao, 2, "Alice");
    add_hourly(&mut dao, 1, "Bob");
    add_commissioned(&mut dao, 3, "Carol");
    let payday = date(2025, 3, 31);
    let mut table = PayTable::new();
    table.add(1, payday, paycheck(100.0, 0.0, 100.0));
    table.add(2, payday, paycheck(1000.0, 50.0, 950.0));
    table.add(3, date(2025, 3, 28), paycheck(7.0, 0.0, 7.0));
    let r = execute_tx(&mut dao, &table, &Tx::Payday { date: payday });
    assert_eq!(r, Ok(Response::Void));
    assert_eq!(
        dao.paychecks(),
        vec![(2, paycheck(1000.0, 50.0, 950.0)), (1, paycheck(100.0, 0.0, 100.0))]
    );
}

#[test]
fn payday_with_nobody_due_records_nothing() {
    let mut dao = MemoryDao::new();
    add_salaried(&mut dao, 1, "Alice");
    let r = execute_tx(&mut dao, &PayTable::new(), &Tx::Payday { date: date(2025, 3, 31) });
    assert_eq!(r, Ok(Response::Void));
    assert_eq!(dao.paychecks(), vec![]);
}

#[test]
fn the_pay_table_uses_the_first_matching_entry() {
    let mut dao = MemoryDao::new();
    add_salaried(&mut dao, 1, "Alice");
    let payday = date(2025, 3, 31);
    let mut table = PayTable::new();
    table.add(1, payday, paycheck(10.0, 0.0, 10.0));
    table.add(1, payday, paycheck(20.0, 0.0, 20.0));
    execute_tx(&mut dao, &table, &Tx::Payday { date: payday }).unwrap();
    assert_eq!(dao.paychecks(), vec![(1, paycheck(10.0, 0.0, 10.0))]);
}

#[test]
fn verifying_a_paycheck() {
    let mut dao = MemoryDao::new();
    add_salaried(&mut dao, 1, "Alice");
    let payday = date(2025, 3, 31);
    let mut table = PayTable::new();
    table.add(1, payday, paycheck(1000.0, 50.0, 950.0));
    let net_ok = Tx::VerifyNetPay { emp_id: 1, pay_date: payday, net_pay: bits(950.0) };
    assert_eq!(execute_tx(&mut dao, &table, &net_ok), Ok(Response::Verified(true)));
    let net_wrong = Tx::VerifyNetPay { emp_id: 1, pay_date: payday, net_pay: bits(951.0) };
    assert_eq!(execute_tx(&mut dao, &table, &net_wrong), Ok(Response::Verified(false)));
    let deductions = Tx::VerifyDeductions { emp_id: 1, pay_date: payday, deductions: bits(50.0) };
    assert_eq!(execute_tx(&mut dao, &table, &deductions), Ok(Response::Verified(true)));
    let gross = Tx::VerifyGrossPay { emp_id: 1, pay_date: payday, gross_pay: bits(1.0) };
    assert_eq!(execute_tx(&mut dao, &table, &gross), Ok(Response::Void));
    let other_day = Tx::VerifyNetPay { emp_id: 1, pay_date: date(2025, 4, 30), net_pay: bits(950.0) };
    assert_eq!(execute_tx(&mut dao, &table, &other_day), Ok(Response::Verified(false)));
    let missing = Tx::VerifyNetPay { emp_id: 2, pay_date: payday, net_pay: bits(950.0) };
    assert_eq!(
        execute_tx(&mut dao, &table, &missing),
        Err(UsecaseError::EmployeeRetrievalFailed(DaoError::NotFound(2)))
    );
    assert_eq!(dao.paychecks(), vec![]);
}

#[test]
fn verify_paycheck_reads_the_field_asked_for() {
    let mut dao = MemoryDao::new();
    add_salaried(&mut dao, 1, "Alice");
    let payday = date(2025, 3, 31);
    let mut table = PayTable::new();
    table.add(1, payday, paycheck(1000.0, 50.0, 950.0));
    let check = |field, amount: f32| verify_paycheck(&dao, &table, 1, payday, field, bits(amount));
    assert_eq!(check(PaycheckField::GrossPay, 1000.0), Ok(true));
    assert_eq!(check(PaycheckField::GrossPay, 950.0), Ok(false));
    assert_eq!(check(PaycheckField::Deductions, 50.0), Ok(true));
    assert_eq!(check(PaycheckField::NetPay, 950.0), Ok(true));
    assert_eq!(check(PaycheckField::NetPay, 1000.0), Ok(false));
}

#[test]
fn amounts_compare_as_single_precision_numbers() {
    assert!(amounts_equal(bits(950.0), bits(950.0)));
    assert!(!amounts_equal(bits(950.0), bits(950.5)));
    assert!(amounts_equal(bits(0.0), bits(-0.0)));
    assert!(!amounts_equal(bits(f32::NAN), bits(f32::NAN)));
    assert!(!amounts_equal(bits(f32::NAN), bits(1.0)));
    assert!(amounts_equal(bits(f32::INFINITY), bits(f32::INFINITY)));
    assert!(!amounts_equal(bits(f32::INFINITY), bits(f32::NEG_INFINITY)));
    for x in [0.0f32, -0.0, 1.5, -3.25, 1e-40, f32::MAX, f32::NAN] {
        for y in [0.0f32, -0.0, 1.5, -3.25, 1e-40, f32::MAX, f32::NAN] {
            assert_eq!(amounts_equal(bits(x), bits(y)), x == y);
        }
    }
}

#[test]
fn employee_copies_are_equal_to_the_original() {
    let emp = Employee::new(
        4,
        "Dan",
        "Street 1",
        PaymentClassification::Hourly {
            hourly_rate: bits(10.0),
            timecards: vec![TimeCard { date: date(2025, 1, 2), hours: bits(3.0) }],
        },
        PaymentSchedule::Weekly,
        PaymentMethod::direct("bank", "acct"),
        Affiliation::Union {
            member_id: 5,
            dues: bits(1.0),
            service_charges: vec![ServiceCharge { date: date(2025, 1, 3), amount: bits(2.0) }],
        },
    );
    assert_eq!(emp.copy(), emp);
}

fn hourly_bob() -> Employee {
    Employee::new(
        1,
        "Bob",
        "Home",
        PaymentClassification::hourly(bits(12.0)),
        PaymentSchedule::Weekly,
        PaymentMethod::Hold,
        Affiliation::NoAffiliation,
    )
}

#[test]
fn changes_to_one_employee() {
    let mut emp = hourly_bob();
    let card = TimeCard { date: date(2025, 3, 5), hours: bits(8.0) };
    assert_eq!(add_timecard_to(&mut emp, card), Ok(()));
    assert_eq!(
        emp.classification,
        PaymentClassification::Hourly { hourly_rate: bits(12.0), timecards: vec![card] }
    );
    let receipt = SalesReceipt { date: date(2025, 3, 5), amount: bits(3.0) };
    assert_eq!(
        add_sales_receipt_to(&mut emp, receipt),
        Err(DaoError::UnexpectedError(
            "classification is not CommissionedClassification".to_string()
        ))
    );
    let charge = ServiceCharge { date: date(2025, 3, 5), amount: bits(3.0) };
    assert_eq!(
        add_service_charge_to(&mut emp, charge),
        Err(DaoError::UnexpectedError("didn't union affiliation".to_string()))
    );
    assert_eq!(
        emp.classification,
        PaymentClassification::Hourly { hourly_rate: bits(12.0), timecards: vec![card] }
    );
    emp.affiliation = Affiliation::union_member(7, bits(1.0));
    assert_eq!(add_service_charge_to(&mut emp, charge), Ok(()));
    assert_eq!(
        emp.affiliation,
        Affiliation::Union { member_id: 7, dues: bits(1.0), service_charges: vec![charge] }
    );
    let mut salaried = hourly_bob();
    salaried.classification = PaymentClassification::salaried(bits(5.0));
    assert_eq!(
        add_timecard_to(&mut salaried, card),
        Err(DaoError::UnexpectedError("classification is not HourlyClassification".to_string()))
    );
    assert_eq!(salaried.classification, PaymentClassification::salaried(bits(5.0)));
}

#[test]
fn removing_a_membership() {
    let mut dao = MemoryDao::new();
    assert_eq!(remove_membership(&mut dao, 1), Err(DaoError::NotFound(1)));
    add_hourly(&mut dao, 1, "Bob");
    assert_eq!(
        remove_membership(&mut dao, 1),
        Err(DaoError::UnexpectedError("didn't union affiliation".to_string()))
    );
    join_union(&mut dao, 1, 7734);
    assert_eq!(remove_membership(&mut dao, 1), Ok(()));
    assert_eq!(dao.find_union_member(7734), Err(DaoError::MemberNotFound(7734)));
    assert_eq!(dao.fetch(1).unwrap().affiliation, Affiliation::union_member(7734, bits(9.42)));
    assert_eq!(remove_membership(&mut dao, 1), Err(DaoError::MemberNotFound(7734)));
}
