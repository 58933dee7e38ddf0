//! The store of employees that transactions run against: the interface that a
//! store offers, the errors it reports, and the state it is described by.
use vstd::prelude::*;

use crate::domain::{Employee, EmployeeId, EmployeeModel, MemberId, Paycheck};

verus! {

#[derive(Debug, PartialEq)]
pub enum DaoError {
    AlreadyExists(EmployeeId),
    NotFound(EmployeeId),
    MemberAlreadyExists(MemberId),
    MemberNotFound(MemberId),
    UnexpectedError(String),
}

/// Everything a store holds: the employees by id, the order in which it
/// hands them out, the union members (member id to employee id) and the
/// paychecks recorded so far, oldest first.
pub struct Store {
    pub employees: Map<EmployeeId, EmployeeModel>,
    pub order: Seq<EmployeeId>,
    pub members: Map<MemberId, EmployeeId>,
    pub paychecks: Seq<(EmployeeId, Paycheck)>,
}

impl Store {
    pub open spec fn with_employees(self, employees: Map<EmployeeId, EmployeeModel>) -> Store {
        Store { employees, ..self }
    }

    pub open spec fn with_members(self, members: Map<MemberId, EmployeeId>) -> Store {
        Store { members, ..self }
    }

    pub open spec fn with_paychecks(self, paychecks: Seq<(EmployeeId, Paycheck)>) -> Store {
        Store { paychecks, ..self }
    }

    /// The store with `emp` written over the employee stored under its id.
    pub open spec fn put(self, emp: EmployeeModel) -> Store {
        self.with_employees(self.employees.insert(emp.id, emp))
    }

    /// The store with `emp` added under its id, last in the order.
    pub open spec fn add(self, emp: EmployeeModel) -> Store {
        Store {
            employees: self.employees.insert(emp.id, emp),
            order: self.order.push(emp.id),
            ..self
        }
    }

    /// The store without the employee stored under `id`.
    pub open spec fn drop(self, id: EmployeeId) -> Store {
        Store {
            employees: self.employees.remove(id),
            order: self.order.remove(position(self.order, id)),
            ..self
        }
    }

    pub open spec fn has(self, id: EmployeeId) -> bool {
        self.employees.contains_key(id)
    }
}

/// Where `id` stands in a list of ids.
pub open spec fn position(order: Seq<EmployeeId>, id: EmployeeId) -> int {
    choose|i: int| 0 <= i < order.len() && order[i] == id
}

/// A list of employee ids that names every stored employee exactly once.
pub open spec fn enumerates(
    listing: Seq<EmployeeId>,
    employees: Map<EmployeeId, EmployeeModel>,
) -> bool {
    &&& forall|i: int, j: int|
        0 <= i < listing.len() && 0 <= j < listing.len() && i != j ==> listing[i] != listing[j]
    &&& forall|i: int| 0 <= i < listing.len() ==> employees.contains_key(#[trigger] listing[i])
    &&& forall|k: EmployeeId| employees.contains_key(k) ==> listing.contains(k)
}

/// Every employee is stored under its own id.
pub open spec fn keyed_by_id(employees: Map<EmployeeId, EmployeeModel>) -> bool {
    forall|k: EmployeeId| #[trigger] employees.contains_key(k) ==> employees[k].id == k
}

/// The store of employees, union memberships and paychecks.
///
/// `store` is what the store holds and `inv` the store's own consistency,
/// which every operation keeps.
pub trait EmployeeDao: Sized {
    spec fn store(&self) -> Store;

    spec fn inv(&self) -> bool;

    /// Whether a store of this kind always answers: it lists its employees
    /// and records every paycheck of a stored employee, never failing on its
    /// own.
    spec fn reliable() -> bool;

    proof fn lemma_store(&self)
        requires
            self.inv(),
        ensures
            enumerates(self.store().order, self.store().employees),
            keyed_by_id(self.store().employees),
    ;

    /// Adds a new employee under its id; refused when the id is taken.
    fn insert(&mut self, emp: Employee) -> (r: Result<EmployeeId, DaoError>)
        requires
            old(self).inv(),
        ensures
            final(self).inv(),
            old(self).store().has(emp@.id) ==> r == Err::<EmployeeId, DaoError>(
                DaoError::AlreadyExists(emp@.id),
            ) && final(self).store() == old(self).store(),
            !old(self).store().has(emp@.id) ==> r == Ok::<EmployeeId, DaoError>(emp@.id)
                && final(self).store() == old(self).store().add(emp@),
    ;

    /// Removes an employee; refused when there is none under the id.
    fn remove(&mut self, id: EmployeeId) -> (r: Result<(), DaoError>)
        requires
            old(self).inv(),
        ensures
            final(self).inv(),
            !old(self).store().has(id) ==> r == Err::<(), DaoError>(DaoError::NotFound(id))
                && final(self).store() == old(self).store(),
            old(self).store().has(id) ==> r == Ok::<(), DaoError>(()) && final(self).store()
                == old(self).store().drop(id),
    ;

    /// A copy of the employee stored under the id.
    fn fetch(&self, id: EmployeeId) -> (r: Result<Employee, DaoError>)
        requires
            self.inv(),
        ensures
            !self.store().has(id) ==> r == Err::<Employee, DaoError>(DaoError::NotFound(id)),
            self.store().has(id) ==> (r matches Ok(e) && e@ == self.store().employees[id]
                && e@.id == id),
    ;

    /// Copies of all employees, with their ids, in the store's order. A store
    /// may fail to list its employees; it then answers the error it met.
    fn fetch_all(&self) -> (r: Result<Vec<(EmployeeId, Employee)>, DaoError>)
        requires
            self.inv(),
        ensures
            Self::reliable() ==> r is Ok,
            r matches Ok(v) ==> v@.len() == self.store().order.len() && forall|i: int|
                0 <= i < v@.len() ==> (#[trigger] v@[i]).0 == self.store().order[i] && v@[i].1@
                    == self.store().employees[self.store().order[i]],
    ;

    /// Replaces the stored employee that has the same id; refused when there is none.
    fn update(&mut self, emp: Employee) -> (r: Result<(), DaoError>)
        requires
            old(self).inv(),
        ensures
            final(self).inv(),
            !old(self).store().has(emp@.id) ==> r == Err::<(), DaoError>(
                DaoError::NotFound(emp@.id),
            ) && final(self).store() == old(self).store(),
            old(self).store().has(emp@.id) ==> r == Ok::<(), DaoError>(()) && final(self).store()
                == old(self).store().put(emp@),
    ;

    /// Records that `member_id` is the union membership of `emp_id`;
    /// refused when the member id is taken.
    fn add_union_member(&mut self, member_id: MemberId, emp_id: EmployeeId) -> (r: Result<
        (),
        DaoError,
    >)
        requires
            old(self).inv(),
        ensures
            final(self).inv(),
            old(self).store().members.contains_key(member_id) ==> r == Err::<(), DaoError>(
                DaoError::MemberAlreadyExists(member_id),
            ) && final(self).store() == old(self).store(),
            !old(self).store().members.contains_key(member_id) ==> r == Ok::<(), DaoError>(())
                && final(self).store() == old(self).store().with_members(
                old(self).store().members.insert(member_id, emp_id),
            ),
    ;

    /// Forgets a union membership; refused when the member id is unknown.
    fn remove_union_member(&mut self, member_id: MemberId) -> (r: Result<(), DaoError>)
        requires
            old(self).inv(),
        ensures
            final(self).inv(),
            !old(self).store().members.contains_key(member_id) ==> r == Err::<(), DaoError>(
                DaoError::MemberNotFound(member_id),
            ) && final(self).store() == old(self).store(),
            old(self).store().members.contains_key(member_id) ==> r == Ok::<(), DaoError>(())
                && final(self).store() == old(self).store().with_members(
                old(self).store().members.remove(member_id),
            ),
    ;

    /// The employee that holds a union membership.
    fn find_union_member(&self, member_id: MemberId) -> (r: Result<EmployeeId, DaoError>)
        requires
            self.inv(),
        ensures
            !self.store().members.contains_key(member_id) ==> r == Err::<EmployeeId, DaoError>(
                DaoError::MemberNotFound(member_id),
            ),
            self.store().members.contains_key(member_id) ==> r == Ok::<EmployeeId, DaoError>(
                self.store().members[member_id],
            ),
    ;

    /// Appends a paycheck for a stored employee; refused for an unknown one.
    /// A store may also fail to record a paycheck for a stored employee; it
    /// then answers the error it met and records nothing.
    fn record_paycheck(&mut self, emp_id: EmployeeId, paycheck: Paycheck) -> (r: Result<
        (),
        DaoError,
    >)
        requires
            old(self).inv(),
        ensures
            final(self).inv(),
            !old(self).store().has(emp_id) ==> r == Err::<(), DaoError>(
                DaoError::NotFound(emp_id),
            ),
            r is Ok ==> final(self).store() == old(self).store().with_paychecks(
                old(self).store().paychecks.push((emp_id, paycheck)),
            ),
            r is Err ==> final(self).store() == old(self).store(),
            Self::reliable() && old(self).store().has(emp_id) ==> r is Ok,
    ;
}

} // verus!
