use chrono::NaiveDate;

use payroll::dao::{DaoError, EmployeeDao};
use payroll::domain::{
    Affiliation, Paycheck, PaymentClassification, PaymentMethod, PaymentSchedule, SalesReceipt,
    ServiceCharge, TimeCard,
};
use payroll::memory_dao::MemoryDao;
use payroll::pay::PayTable;
use payroll::usecase::{record_membership, remove_membership, UsecaseError};
use payroll::usecase_impl::{
    AddCommissionedEmployeeImpl, AddHourlyEmployeeImpl, AddSalariedEmployeeImpl,
    AddSalesReceiptImpl, AddServiceChargeImpl, AddTimecardImpl, AddUnionMemberImpl,
    ChgCommissionedEmployeeImpl, ChgDirectMethodImpl, ChgEmployeeAddressImpl, ChgEmployeeNameImpl,
    ChgHoldMethodImpl, ChgHourlyEmployeeImpl, ChgMailMethodImpl, ChgSalariedEmployeeImpl,
    DelEmployeeImpl, DelUnionMemberImpl, PaydayImpl,
};

fn bits(x: f32) -> u32 {
    x.to_bits()
}

fn date(y: i32, m: u32, d: u32) -> NaiveDate {
    NaiveDate::from_ymd_opt(y, m, d).unwrap()
}

fn unexpected(message: &str) -> UsecaseError {
    UsecaseError::Unexpected(message.to_string())
}

#[test]
fn adding_employees_answers_their_ids() {
    let mut dao = MemoryDao::new();
    assert_eq!(AddSalariedEmployeeImpl::new(1, "Bob", "Home", bits(1000.0)).execute(&mut dao), Ok(1));
    assert_eq!(AddHourlyEmployeeImpl::new(2, "Ann", "Home", bits(12.5)).execute(&mut dao), Ok(2));
    let commissioned = AddCommissionedEmployeeImpl::new(3, "Cy", "Home", bits(800.0), bits(0.1));
    assert_eq!(commissioned.execute(&mut dao), Ok(3));
    assert_eq!(dao.fetch(1).unwrap().schedule, PaymentSchedule::Monthly);
    assert_eq!(dao.fetch(2).unwrap().schedule, PaymentSchedule::Weekly);
    assert_eq!(dao.fetch(3).unwrap().schedule, PaymentSchedule::Biweekly);
    assert_eq!(
        AddHourlyEmployeeImpl::new(2, "Again", "Home", bits(1.0)).execute(&mut dao),
        Err(UsecaseError::FailedToAdd(DaoError::AlreadyExists(2)))
    );
}

#[test]
fn changes_to_a_missing_employee_fail_to_get_it() {
    let mut dao = MemoryDao::new();
    let get = Err(UsecaseError::FailedToGet(DaoError::NotFound(9)));
    assert_eq!(ChgEmployeeNameImpl::new(9, "X").execute(&mut dao), get);
    assert_eq!(ChgEmployeeAddressImpl::new(9, "X").execute(&mut dao), get);
    assert_eq!(ChgSalariedEmployeeImpl::new(9, bits(1.0)).execute(&mut dao), get);
    assert_eq!(ChgHourlyEmployeeImpl::new(9, bits(1.0)).execute(&mut dao), get);
    assert_eq!(ChgCommissionedEmployeeImpl::new(9, bits(1.0), bits(0.1)).execute(&mut dao), get);
    assert_eq!(ChgHoldMethodImpl::new(9).execute(&mut dao), get);
    assert_eq!(ChgDirectMethodImpl::new(9, "b", "a").execute(&mut dao), get);
    assert_eq!(ChgMailMethodImpl::new(9, "m").execute(&mut dao), get);
    assert_eq!(AddTimecardImpl::new(9, date(2025, 3, 1), bits(8.0)).execute(&mut dao), get);
    assert_eq!(AddSalesReceiptImpl::new(9, date(2025, 3, 1), bits(8.0)).execute(&mut dao), get);
    assert_eq!(DelUnionMemberImpl::new(9).execute(&mut dao), get);
    assert_eq!(
        DelEmployeeImpl::new(9).execute(&mut dao),
        Err(UsecaseError::FailedToDelete(DaoError::NotFound(9)))
    );
}

#[test]
fn changes_to_an_employee() {
    let mut dao = MemoryDao::new();
    AddHourlyEmployeeImpl::new(1, "Bob", "Home", bits(12.5)).execute(&mut dao).unwrap();
    assert_eq!(ChgEmployeeNameImpl::new(1, "Robert").execute(&mut dao), Ok(()));
    assert_eq!(ChgEmployeeAddressImpl::new(1, "Work").execute(&mut dao), Ok(()));
    assert_eq!(ChgDirectMethodImpl::new(1, "bank", "acct").execute(&mut dao), Ok(()));
    let emp = dao.fetch(1).unwrap();
    assert_eq!(emp.name, "Robert");
    assert_eq!(emp.address, "Work");
    assert_eq!(emp.method, PaymentMethod::direct("bank", "acct"));
    assert_eq!(ChgMailMethodImpl::new(1, "Box 7").execute(&mut dao), Ok(()));
    assert_eq!(dao.fetch(1).unwrap().method, PaymentMethod::mail("Box 7"));
    assert_eq!(ChgHoldMethodImpl::new(1).execute(&mut dao), Ok(()));
    assert_eq!(dao.fetch(1).unwrap().method, PaymentMethod::Hold);
    assert_eq!(ChgSalariedEmployeeImpl::new(1, bits(900.0)).execute(&mut dao), Ok(()));
    let emp = dao.fetch(1).unwrap();
    assert_eq!(emp.classification, PaymentClassification::salaried(bits(900.0)));
    assert_eq!(emp.schedule, PaymentSchedule::Monthly);
    let commissioned = ChgCommissionedEmployeeImpl::new(1, bits(700.0), bits(0.2));
    assert_eq!(commissioned.execute(&mut dao), Ok(()));
    assert_eq!(dao.fetch(1).unwrap().schedule, PaymentSchedule::Biweekly);
    assert_eq!(ChgHourlyEmployeeImpl::new(1, bits(20.0)).execute(&mut dao), Ok(()));
    assert_eq!(dao.fetch(1).unwrap().classification, PaymentClassification::hourly(bits(20.0)));
    assert_eq!(DelEmployeeImpl::new(1).execute(&mut dao), Ok(()));
    assert_eq!(dao.fetch(1), Err(DaoError::NotFound(1)));
}

#[test]
fn time_cards_and_receipts_need_the_right_classification() {
    let mut dao = MemoryDao::new();
    AddHourlyEmployeeImpl::new(1, "Bob", "Home", bits(12.5)).execute(&mut dao).unwrap();
    AddCommissionedEmployeeImpl::new(2, "Cy", "Home", bits(800.0), bits(0.1))
        .execute(&mut dao)
        .unwrap();
    let d = date(2025, 3, 4);
    assert_eq!(AddTimecardImpl::new(1, d, bits(8.0)).execute(&mut dao), Ok(()));
    assert_eq!(
        AddTimecardImpl::new(2, d, bits(8.0)).execute(&mut dao),
        Err(unexpected("didn't hourly classification"))
    );
    assert_eq!(AddSalesReceiptImpl::new(2, d, bits(99.0)).execute(&mut dao), Ok(()));
    assert_eq!(
        AddSalesReceiptImpl::new(1, d, bits(99.0)).execute(&mut dao),
        Err(unexpected("didn't commissioned classification"))
    );
    assert_eq!(
        dao.fetch(1).unwrap().classification,
        PaymentClassification::Hourly {
            hourly_rate: bits(12.5),
            timecards: vec![TimeCard { date: d, hours: bits(8.0) }],
        }
    );
    assert_eq!(
        dao.fetch(2).unwrap().classification,
        PaymentClassification::Commissioned {
            salary: bits(800.0),
            commission_rate: bits(0.1),
            sales_receipts: vec![SalesReceipt { date: d, amount: bits(99.0) }],
        }
    );
}

#[test]
fn union_membership_comes_and_goes() {
    let mut dao = MemoryDao::new();
    AddHourlyEmployeeImpl::new(1, "Bob", "Home", bits(12.5)).execute(&mut dao).unwrap();
    assert_eq!(AddUnionMemberImpl::new(7734, 1, bits(9.42)).execute(&mut dao), Ok(()));
    assert_eq!(dao.find_union_member(7734), Ok(1));
    assert_eq!(dao.fetch(1).unwrap().affiliation, Affiliation::union_member(7734, bits(9.42)));
    assert_eq!(
        AddUnionMemberImpl::new(7734, 1, bits(1.0)).execute(&mut dao),
        Err(UsecaseError::FailedToAddUnionMember(DaoError::MemberAlreadyExists(7734)))
    );
    let d = date(2025, 3, 4);
    assert_eq!(AddServiceChargeImpl::new(7734, d, bits(12.95)).execute(&mut dao), Ok(()));
    assert_eq!(
        dao.fetch(1).unwrap().affiliation,
        Affiliation::Union {
            member_id: 7734,
            dues: bits(9.42),
            service_charges: vec![ServiceCharge { date: d, amount: bits(12.95) }],
        }
    );
    assert_eq!(
        AddServiceChargeImpl::new(1, d, bits(1.0)).execute(&mut dao),
        Err(UsecaseError::FailedToGetUnionMember(DaoError::MemberNotFound(1)))
    );
    assert_eq!(DelUnionMemberImpl::new(1).execute(&mut dao), Ok(()));
    assert_eq!(dao.fetch(1).unwrap().affiliation, Affiliation::NoAffiliation);
    assert_eq!(dao.find_union_member(7734), Err(DaoError::MemberNotFound(7734)));
    assert_eq!(
        DelUnionMemberImpl::new(1).execute(&mut dao),
        Err(unexpected("didn't union affiliation"))
    );
}

#[test]
fn joining_for_a_missing_employee_takes_the_membership_back() {
    let mut dao = MemoryDao::new();
    assert_eq!(
        AddUnionMemberImpl::new(7734, 5, bits(1.0)).execute(&mut dao),
        Err(UsecaseError::FailedToGet(DaoError::NotFound(5)))
    );
    assert_eq!(dao.find_union_member(7734), Err(DaoError::MemberNotFound(7734)));
}

#[test]
fn membership_steps() {
    let mut dao = MemoryDao::new();
    AddHourlyEmployeeImpl::new(1, "Bob", "Home", bits(12.5)).execute(&mut dao).unwrap();
    assert_eq!(record_membership(&mut dao, 7734, 1), Ok(()));
    assert_eq!(
        record_membership(&mut dao, 7734, 1),
        Err(UsecaseError::FailedToAddUnionMember(DaoError::MemberAlreadyExists(7734)))
    );
    assert_eq!(remove_membership(&mut dao, 1), Err(unexpected("didn't union affiliation")));
    AddUnionMemberImpl::new(42, 1, bits(2.0)).execute(&mut dao).unwrap();
    dao.remove_union_member(42).unwrap();
    assert_eq!(
        remove_membership(&mut dao, 1),
        Err(UsecaseError::FailedToDeleteUnionMember(DaoError::MemberNotFound(42)))
    );
    assert_eq!(
        DelUnionMemberImpl::new(1).execute(&mut dao),
        Err(UsecaseError::FailedToDeleteUnionMember(DaoError::MemberNotFound(42)))
    );
    assert_eq!(dao.fetch(1).unwrap().affiliation, Affiliation::union_member(42, bits(2.0)));
}

#[test]
fn a_service_charge_for_a_deleted_member_fails_to_get_the_employee() {
    let mut dao = MemoryDao::new();
    AddHourlyEmployeeImpl::new(1, "Bob", "Home", bits(12.5)).execute(&mut dao).unwrap();
    AddUnionMemberImpl::new(7734, 1, bits(9.42)).execute(&mut dao).unwrap();
    DelEmployeeImpl::new(1).execute(&mut dao).unwrap();
    assert_eq!(
        AddServiceChargeImpl::new(7734, date(2025, 3, 4), bits(1.0)).execute(&mut dao),
        Err(UsecaseError::FailedToGet(DaoError::NotFound(1)))
    );
}

#[test]
fn a_service_charge_for_a_non_member_is_unexpected() {
    let mut dao = MemoryDao::new();
    AddHourlyEmployeeImpl::new(1, "Bob", "Home", bits(12.5)).execute(&mut dao).unwrap();
    dao.add_union_member(7734, 1).unwrap();
    assert_eq!(
        AddServiceChargeImpl::new(7734, date(2025, 3, 4), bits(1.0)).execute(&mut dao),
        Err(unexpected("didn't union affiliation"))
    );
}

#[test]
fn payday_records_the_table_paychecks() {
    let mut dao = MemoryDao::new();
    AddSalariedEmployeeImpl::new(1, "Bob", "Home", bits(1000.0)).execute(&mut dao).unwrap();
    AddSalariedEmployeeImpl::new(2, "Ann", "Home", bits(1000.0)).execute(&mut dao).unwrap();
    let d = date(2025, 3, 31);
    let pc = Paycheck {
        period_start: date(2025, 3, 1),
        period_end: d,
        gross_pay: bits(1000.0),
        deductions: bits(0.0),
        net_pay: bits(1000.0),
    };
    let mut table = PayTable::new();
    table.add(2, d, pc);
    assert_eq!(PaydayImpl::new(d).execute(&mut dao, &table), Ok(()));
    assert_eq!(dao.paychecks(), vec![(2, pc)]);
}
