//! The payroll records that transactions read and write: employees with their
//! payment classification, schedule, method and union affiliation, and the
//! paychecks that a payday produces.
//!
//! Money amounts, hour counts and rates are single-precision numbers in the
//! front end. The library never computes with them; it keeps each one as the
//! bit pattern of that number (`f32::to_bits`), so a value goes in and comes
//! out unchanged.
use vstd::prelude::*;

verus! {

/// `chrono::NaiveDate`, the calendar dates of the payroll, declared to Verus as
/// an opaque type: verified code carries dates and compares them for equality
/// (see `pay::same_date`), and never looks inside one.
#[verifier::external_type_specification]
#[verifier::external_body]
pub struct ExNaiveDate(chrono::NaiveDate);

pub type Date = chrono::NaiveDate;

pub type EmployeeId = u32;

pub type MemberId = u32;

/// The bit pattern of a single-precision amount (pay, hours, rate or dues).
pub type Amount = u32;

#[derive(Clone, Copy, Debug, PartialEq)]
pub struct TimeCard {
    pub date: Date,
    pub hours: Amount,
}

#[derive(Clone, Copy, Debug, PartialEq)]
pub struct SalesReceipt {
    pub date: Date,
    pub amount: Amount,
}

#[derive(Clone, Copy, Debug, PartialEq)]
pub struct ServiceCharge {
    pub date: Date,
    pub amount: Amount,
}

#[derive(Debug, PartialEq)]
pub enum PaymentClassification {
    Salaried { salary: Amount },
    Hourly { hourly_rate: Amount, timecards: Vec<TimeCard> },
    Commissioned { salary: Amount, commission_rate: Amount, sales_receipts: Vec<SalesReceipt> },
}

#[derive(Clone, Copy, Debug, PartialEq, Eq)]
pub enum PaymentSchedule {
    Weekly,
    Monthly,
    Biweekly,
}

#[derive(Debug, PartialEq)]
pub enum PaymentMethod {
    Hold,
    Direct { bank: String, account: String },
    Mail { address: String },
}

#[derive(Debug, PartialEq)]
pub enum Affiliation {
    NoAffiliation,
    Union { member_id: MemberId, dues: Amount, service_charges: Vec<ServiceCharge> },
}

#[derive(Debug, PartialEq)]
pub struct Employee {
    pub id: EmployeeId,
    pub name: String,
    pub address: String,
    pub classification: PaymentClassification,
    pub schedule: PaymentSchedule,
    pub method: PaymentMethod,
    pub affiliation: Affiliation,
}

/// What a payday pays one employee for one pay period.
#[derive(Clone, Copy, Debug, PartialEq)]
pub struct Paycheck {
    pub period_start: Date,
    pub period_end: Date,
    pub gross_pay: Amount,
    pub deductions: Amount,
    pub net_pay: Amount,
}

// ---------------------------------------------------------------------------
// Mathematical models
// ---------------------------------------------------------------------------

pub enum ClassificationModel {
    Salaried { salary: Amount },
    Hourly { hourly_rate: Amount, timecards: Seq<TimeCard> },
    Commissioned { salary: Amount, commission_rate: Amount, sales_receipts: Seq<SalesReceipt> },
}

pub enum MethodModel {
    Hold,
    Direct { bank: Seq<char>, account: Seq<char> },
    Mail { address: Seq<char> },
}

pub enum AffiliationModel {
    NoAffiliation,
    Union { member_id: MemberId, dues: Amount, service_charges: Seq<ServiceCharge> },
}

pub struct EmployeeModel {
    pub id: EmployeeId,
    pub name: Seq<char>,
    pub address: Seq<char>,
    pub classification: ClassificationModel,
    pub schedule: PaymentSchedule,
    pub method: MethodModel,
    pub affiliation: AffiliationModel,
}

impl View for PaymentClassification {
    type V = ClassificationModel;

    open spec fn view(&self) -> ClassificationModel {
        match self {
            PaymentClassification::Salaried { salary } => ClassificationModel::Salaried {
                salary: *salary,
            },
            PaymentClassification::Hourly { hourly_rate, timecards } =>
                ClassificationModel::Hourly { hourly_rate: *hourly_rate, timecards: timecards@ },
            PaymentClassification::Commissioned { salary, commission_rate, sales_receipts } =>
                ClassificationModel::Commissioned {
                salary: *salary,
                commission_rate: *commission_rate,
                sales_receipts: sales_receipts@,
            },
        }
    }
}

impl View for PaymentMethod {
    type V = MethodModel;

    open spec fn view(&self) -> MethodModel {
        match self {
            PaymentMethod::Hold => MethodModel::Hold,
            PaymentMethod::Direct { bank, account } => MethodModel::Direct {
                bank: bank@,
                account: account@,
            },
            PaymentMethod::Mail { address } => MethodModel::Mail { address: address@ },
        }
    }
}

impl View for Affiliation {
    type V = AffiliationModel;

    open spec fn view(&self) -> AffiliationModel {
        match self {
            Affiliation::NoAffiliation => AffiliationModel::NoAffiliation,
            Affiliation::Union { member_id, dues, service_charges } => AffiliationModel::Union {
                member_id: *member_id,
                dues: *dues,
                service_charges: service_charges@,
            },
        }
    }
}

impl View for Employee {
    type V = EmployeeModel;

    open spec fn view(&self) -> EmployeeModel {
        EmployeeModel {
            id: self.id,
            name: self.name@,
            address: self.address@,
            classification: self.classification@,
            schedule: self.schedule,
            method: self.method@,
            affiliation: self.affiliation@,
        }
    }
}

impl EmployeeModel {
    pub open spec fn with_name(self, name: Seq<char>) -> EmployeeModel {
        EmployeeModel { name, ..self }
    }

    pub open spec fn with_address(self, address: Seq<char>) -> EmployeeModel {
        EmployeeModel { address, ..self }
    }

    pub open spec fn with_classification(
        self,
        classification: ClassificationModel,
        schedule: PaymentSchedule,
    ) -> EmployeeModel {
        EmployeeModel { classification, schedule, ..self }
    }

    pub open spec fn with_method(self, method: MethodModel) -> EmployeeModel {
        EmployeeModel { method, ..self }
    }

    pub open spec fn with_affiliation(self, affiliation: AffiliationModel) -> EmployeeModel {
        EmployeeModel { affiliation, ..self }
    }

    pub open spec fn is_hourly(self) -> bool {
        self.classification is Hourly
    }

    pub open spec fn is_commissioned(self) -> bool {
        self.classification is Commissioned
    }

    pub open spec fn is_union_member(self) -> bool {
        self.affiliation is Union
    }

    /// The employee with one more time card; meant for an hourly employee.
    pub open spec fn with_timecard(self, card: TimeCard) -> EmployeeModel {
        match self.classification {
            ClassificationModel::Hourly { hourly_rate, timecards } => self.with_classification(
                ClassificationModel::Hourly { hourly_rate, timecards: timecards.push(card) },
                self.schedule,
            ),
            _ => self,
        }
    }

    /// The employee with one more sales receipt; meant for a commissioned employee.
    pub open spec fn with_sales_receipt(self, receipt: SalesReceipt) -> EmployeeModel {
        match self.classification {
            ClassificationModel::Commissioned { salary, commission_rate, sales_receipts } =>
                self.with_classification(
                ClassificationModel::Commissioned {
                    salary,
                    commission_rate,
                    sales_receipts: sales_receipts.push(receipt),
                },
                self.schedule,
            ),
            _ => self,
        }
    }

    /// The employee with one more service charge; meant for a union member.
    pub open spec fn with_service_charge(self, charge: ServiceCharge) -> EmployeeModel {
        match self.affiliation {
            AffiliationModel::Union { member_id, dues, service_charges } => self.with_affiliation(
                AffiliationModel::Union {
                    member_id,
                    dues,
                    service_charges: service_charges.push(charge),
                },
            ),
            _ => self,
        }
    }
}

/// A new employee's record: paid by hold, in no union.
pub open spec fn new_employee_model(
    id: EmployeeId,
    name: Seq<char>,
    address: Seq<char>,
    classification: ClassificationModel,
    schedule: PaymentSchedule,
) -> EmployeeModel {
    EmployeeModel {
        id,
        name,
        address,
        classification,
        schedule,
        method: MethodModel::Hold,
        affiliation: AffiliationModel::NoAffiliation,
    }
}

// ---------------------------------------------------------------------------
// Construction and copying
// ---------------------------------------------------------------------------

/// A copy of a list of plain records.
fn copy_vec<T: Copy>(v: &Vec<T>) -> (r: Vec<T>)
    ensures
        r@ == v@,
{
    let mut r: Vec<T> = Vec::new();
    let mut i: usize = 0;
    while i < v.len()
        invariant
            i <= v.len(),
            r@ == v@.subrange(0, i as int),
        decreases v.len() - i,
    {
        r.push(v[i]);
        i = i + 1;
    }
    r
}

impl PaymentClassification {
    pub fn salaried(salary: Amount) -> (r: PaymentClassification)
        ensures
            r@ == (ClassificationModel::Salaried { salary }),
    {
        PaymentClassification::Salaried { salary }
    }

    pub fn hourly(hourly_rate: Amount) -> (r: PaymentClassification)
        ensures
            r@ == (ClassificationModel::Hourly { hourly_rate, timecards: Seq::empty() }),
    {
        PaymentClassification::Hourly { hourly_rate, timecards: Vec::new() }
    }

    pub fn commissioned(salary: Amount, commission_rate: Amount) -> (r: PaymentClassification)
        ensures
            r@ == (ClassificationModel::Commissioned {
                salary,
                commission_rate,
                sales_receipts: Seq::empty(),
            }),
    {
        PaymentClassification::Commissioned { salary, commission_rate, sales_receipts: Vec::new() }
    }

    pub fn copy(&self) -> (r: PaymentClassification)
        ensures
            r@ == self@,
    {
        match self {
            PaymentClassification::Salaried { salary } => PaymentClassification::Salaried {
                salary: *salary,
            },
            PaymentClassification::Hourly { hourly_rate, timecards } =>
                PaymentClassification::Hourly {
                hourly_rate: *hourly_rate,
                timecards: copy_vec(timecards),
            },
            PaymentClassification::Commissioned { salary, commission_rate, sales_receipts } =>
                PaymentClassification::Commissioned {
                salary: *salary,
                commission_rate: *commission_rate,
                sales_receipts: copy_vec(sales_receipts),
            },
        }
    }
}

impl PaymentMethod {
    pub fn direct(bank: &str, account: &str) -> (r: PaymentMethod)
        ensures
            r@ == (MethodModel::Direct { bank: bank@, account: account@ }),
    {
        PaymentMethod::Direct { bank: bank.to_owned(), account: account.to_owned() }
    }

    pub fn mail(address: &str) -> (r: PaymentMethod)
        ensures
            r@ == (MethodModel::Mail { address: address@ }),
    {
        PaymentMethod::Mail { address: address.to_owned() }
    }

    pub fn copy(&self) -> (r: PaymentMethod)
        ensures
            r@ == self@,
    {
        match self {
            PaymentMethod::Hold => PaymentMethod::Hold,
            PaymentMethod::Direct { bank, account } => PaymentMethod::Direct {
                bank: bank.clone(),
                account: account.clone(),
            },
            PaymentMethod::Mail { address } => PaymentMethod::Mail { address: address.clone() },
        }
    }
}

impl Affiliation {
    pub fn union_member(member_id: MemberId, dues: Amount) -> (r: Affiliation)
        ensures
            r@ == (AffiliationModel::Union { member_id, dues, service_charges: Seq::empty() }),
    {
        Affiliation::Union { member_id, dues, service_charges: Vec::new() }
    }

    pub fn copy(&self) -> (r: Affiliation)
        ensures
            r@ == self@,
    {
        match self {
            Affiliation::NoAffiliation => Affiliation::NoAffiliation,
            Affiliation::Union { member_id, dues, service_charges } => Affiliation::Union {
                member_id: *member_id,
                dues: *dues,
                service_charges: copy_vec(service_charges),
            },
        }
    }
}

impl Employee {
    pub fn new(
        id: EmployeeId,
        name: &str,
        address: &str,
        classification: PaymentClassification,
        schedule: PaymentSchedule,
        method: PaymentMethod,
        affiliation: Affiliation,
    ) -> (r: Employee)
        ensures
            r@ == (EmployeeModel {
                id,
                name: name@,
                address: address@,
                classification: classification@,
                schedule,
                method: method@,
                affiliation: affiliation@,
            }),
    {
        Employee {
            id,
            name: name.to_owned(),
            address: address.to_owned(),
            classification,
            schedule,
            method,
            affiliation,
        }
    }

    pub fn copy(&self) -> (r: Employee)
        ensures
            r@ == self@,
    {
        Employee {
            id: self.id,
            name: self.name.clone(),
            address: self.address.clone(),
            classification: self.classification.copy(),
            schedule: self.schedule,
            method: self.method.copy(),
            affiliation: self.affiliation.copy(),
        }
    }
}

} // verus!
