//! A store held in memory: employees in the order they were added, union
//! memberships and recorded paychecks.
use vstd::prelude::*;

use crate::dao::{DaoError, EmployeeDao, Store, position};
use crate::domain::{Employee, EmployeeId, EmployeeModel, MemberId, Paycheck};

verus! {

// ---------------------------------------------------------------------------
// Association lists and the maps they stand for
// ---------------------------------------------------------------------------

pub open spec fn keys_unique<K, V>(s: Seq<(K, V)>) -> bool {
    forall|i: int, j: int| 0 <= i < s.len() && 0 <= j < s.len() && i != j ==> s[i].0 != s[j].0
}

pub open spec fn has_key<K, V>(s: Seq<(K, V)>, k: K) -> bool {
    exists|i: int| 0 <= i < s.len() && s[i].0 == k
}

pub open spec fn key_index<K, V>(s: Seq<(K, V)>, k: K) -> int {
    choose|i: int| 0 <= i < s.len() && s[i].0 == k
}

/// The map that an association list with distinct keys stands for.
pub open spec fn pair_map<K, V>(s: Seq<(K, V)>) -> Map<K, V> {
    Map::new(|k: K| has_key(s, k), |k: K| s[key_index(s, k)].1)
}

proof fn lemma_key_index<K, V>(s: Seq<(K, V)>, i: int)
    requires
        keys_unique(s),
        0 <= i < s.len(),
    ensures
        has_key(s, s[i].0),
        key_index(s, s[i].0) == i,
        pair_map(s).contains_key(s[i].0),
        pair_map(s)[s[i].0] == s[i].1,
{
    let k = s[i].0;
    assert(0 <= i < s.len() && s[i].0 == k);
    let j = key_index(s, k);
    assert(0 <= j < s.len() && s[j].0 == k);
}

proof fn lemma_pair_map_push<K, V>(s: Seq<(K, V)>, k: K, v: V)
    requires
        keys_unique(s),
        !pair_map(s).contains_key(k),
    ensures
        keys_unique(s.push((k, v))),
        pair_map(s.push((k, v))) == pair_map(s).insert(k, v),
{
    let t = s.push((k, v));
    assert forall|i: int, j: int|
        0 <= i < t.len() && 0 <= j < t.len() && i != j implies t[i].0 != t[j].0 by {
        if i < s.len() && j < s.len() {
        } else if i == s.len() {
            assert(s[j].0 == t[j].0);
            if s[j].0 == k {
                assert(has_key(s, k));
            }
        } else {
            assert(s[i].0 == t[i].0);
            if s[i].0 == k {
                assert(has_key(s, k));
            }
        }
    }
    assert forall|key: K| #[trigger] pair_map(t).contains_key(key) <==> pair_map(s).insert(
        k,
        v,
    ).contains_key(key) by {
        if has_key(t, key) {
            let i = choose|i: int| 0 <= i < t.len() && t[i].0 == key;
            if i < s.len() {
                assert(s[i].0 == key);
            }
        }
        if has_key(s, key) {
            let i = choose|i: int| 0 <= i < s.len() && s[i].0 == key;
            assert(t[i].0 == key);
        }
        if key == k {
            assert(t[s.len() as int].0 == key);
        }
    }
    assert forall|key: K| #[trigger] pair_map(t).contains_key(key) implies pair_map(t)[key]
        == pair_map(s).insert(k, v)[key] by {
        let i = choose|i: int| 0 <= i < t.len() && t[i].0 == key;
        lemma_key_index(t, i);
        if i < s.len() {
            assert(s[i] == t[i]);
            lemma_key_index(s, i);
        }
    }
    assert(pair_map(t) =~= pair_map(s).insert(k, v));
}

proof fn lemma_pair_map_update<K, V>(s: Seq<(K, V)>, i: int, v: V)
    requires
        keys_unique(s),
        0 <= i < s.len(),
    ensures
        keys_unique(s.update(i, (s[i].0, v))),
        pair_map(s.update(i, (s[i].0, v))) == pair_map(s).insert(s[i].0, v),
{
    let k = s[i].0;
    let t = s.update(i, (k, v));
    assert forall|a: int, b: int|
        0 <= a < t.len() && 0 <= b < t.len() && a != b implies t[a].0 != t[b].0 by {
        assert(t[a].0 == s[a].0);
        assert(t[b].0 == s[b].0);
    }
    lemma_key_index(s, i);
    assert forall|key: K| #[trigger] pair_map(t).contains_key(key) <==> pair_map(s).insert(
        k,
        v,
    ).contains_key(key) by {
        if has_key(t, key) {
            let a = choose|a: int| 0 <= a < t.len() && t[a].0 == key;
            assert(s[a].0 == key);
        }
        if has_key(s, key) {
            let a = choose|a: int| 0 <= a < s.len() && s[a].0 == key;
            assert(t[a].0 == key);
        }
    }
    assert forall|key: K| #[trigger] pair_map(t).contains_key(key) implies pair_map(t)[key]
        == pair_map(s).insert(k, v)[key] by {
        let a = choose|a: int| 0 <= a < t.len() && t[a].0 == key;
        lemma_key_index(t, a);
        if a != i {
            assert(s[a] == t[a]);
            lemma_key_index(s, a);
        }
    }
    assert(pair_map(t) =~= pair_map(s).insert(k, v));
}

proof fn lemma_pair_map_remove<K, V>(s: Seq<(K, V)>, i: int)
    requires
        keys_unique(s),
        0 <= i < s.len(),
    ensures
        keys_unique(s.remove(i)),
        pair_map(s.remove(i)) == pair_map(s).remove(s[i].0),
{
    let k = s[i].0;
    let t = s.remove(i);
    assert forall|a: int, b: int|
        0 <= a < t.len() && 0 <= b < t.len() && a != b implies t[a].0 != t[b].0 by {
        let a2 = if a < i {
            a
        } else {
            a + 1
        };
        let b2 = if b < i {
            b
        } else {
            b + 1
        };
        assert(t[a] == s[a2]);
        assert(t[b] == s[b2]);
    }
    assert forall|key: K| #[trigger] pair_map(t).contains_key(key) <==> pair_map(s).remove(
        k,
    ).contains_key(key) by {
        if has_key(t, key) {
            let a = choose|a: int| 0 <= a < t.len() && t[a].0 == key;
            let a2 = if a < i {
                a
            } else {
                a + 1
            };
            assert(s[a2].0 == key);
            assert(a2 != i);
        }
        if has_key(s, key) && key != k {
            let a = choose|a: int| 0 <= a < s.len() && s[a].0 == key;
            assert(a != i);
            let a2 = if a < i {
                a
            } else {
                a - 1
            };
            assert(t[a2].0 == key);
        }
    }
    assert forall|key: K| #[trigger] pair_map(t).contains_key(key) implies pair_map(t)[key]
        == pair_map(s).remove(k)[key] by {
        let a = choose|a: int| 0 <= a < t.len() && t[a].0 == key;
        lemma_key_index(t, a);
        let a2 = if a < i {
            a
        } else {
            a + 1
        };
        assert(s[a2] == t[a]);
        lemma_key_index(s, a2);
    }
    assert(pair_map(t) =~= pair_map(s).remove(k));
}

// ---------------------------------------------------------------------------
// The store
// ---------------------------------------------------------------------------

pub open spec fn employee_pairs(s: Seq<Employee>) -> Seq<(EmployeeId, EmployeeModel)> {
    Seq::new(s.len(), |i: int| (s[i].id, s[i]@))
}

pub open spec fn employee_ids(s: Seq<Employee>) -> Seq<EmployeeId> {
    Seq::new(s.len(), |i: int| s[i].id)
}

proof fn lemma_position(s: Seq<Employee>, i: int)
    requires
        keys_unique(employee_pairs(s)),
        0 <= i < s.len(),
    ensures
        position(employee_ids(s), s[i].id) == i,
{
    let l = employee_ids(s);
    let p = employee_pairs(s);
    assert(0 <= i < l.len() && l[i] == s[i].id);
    let j = position(l, s[i].id);
    assert(p[j].0 == p[i].0);
}

/// A store held in memory. Employees are handed out in the order they were
/// added.
pub struct MemoryDao {
    employees: Vec<Employee>,
    members: Vec<(MemberId, EmployeeId)>,
    paychecks: Vec<(EmployeeId, Paycheck)>,
}

impl MemoryDao {
    pub fn new() -> (r: MemoryDao)
        ensures
            r.inv(),
            r.store().employees == Map::<EmployeeId, EmployeeModel>::empty(),
            r.store().order == Seq::<EmployeeId>::empty(),
            r.store().members == Map::<MemberId, EmployeeId>::empty(),
            r.store().paychecks == Seq::<(EmployeeId, Paycheck)>::empty(),
    {
        let r = MemoryDao { employees: Vec::new(), members: Vec::new(), paychecks: Vec::new() };
        assert(employee_pairs(r.employees@) =~= Seq::empty());
        assert(pair_map(employee_pairs(r.employees@)) =~= Map::empty());
        assert(pair_map(r.members@) =~= Map::empty());
        assert(employee_ids(r.employees@) =~= Seq::empty());
        r
    }

    /// The paychecks recorded so far, oldest first.
    pub fn paychecks(&self) -> (r: Vec<(EmployeeId, Paycheck)>)
        requires
            self.inv(),
        ensures
            r@ == self.store().paychecks,
    {
        let mut r: Vec<(EmployeeId, Paycheck)> = Vec::new();
        let mut i: usize = 0;
        while i < self.paychecks.len()
            invariant
                i <= self.paychecks@.len(),
                r@ == self.paychecks@.subrange(0, i as int),
            decreases self.paychecks@.len() - i,
        {
            r.push(self.paychecks[i]);
            i = i + 1;
        }
        r
    }

    fn find_employee(&self, id: EmployeeId) -> (r: Option<usize>)
        requires
            self.inv(),
        ensures
            r is None ==> !self.store().has(id),
            r matches Some(i) ==> i < self.employees@.len() && self.employees@[i as int].id
                == id,
    {
        let mut i: usize = 0;
        while i < self.employees.len()
            invariant
                i <= self.employees@.len(),
                forall|j: int| 0 <= j < i ==> self.employees@[j].id != id,
            decreases self.employees@.len() - i,
        {
            if self.employees[i].id == id {
                return Some(i);
            }
            i = i + 1;
        }
        proof {
            let s = employee_pairs(self.employees@);
            if has_key(s, id) {
                let j = choose|j: int| 0 <= j < s.len() && s[j].0 == id;
                assert(self.employees@[j].id == id);
            }
        }
        None
    }

    fn find_member(&self, member_id: MemberId) -> (r: Option<usize>)
        requires
            self.inv(),
        ensures
            r is None ==> !self.store().members.contains_key(member_id),
            r matches Some(i) ==> i < self.members@.len() && self.members@[i as int].0
                == member_id,
    {
        let mut i: usize = 0;
        while i < self.members.len()
            invariant
                i <= self.members@.len(),
                forall|j: int| 0 <= j < i ==> self.members@[j].0 != member_id,
            decreases self.members@.len() - i,
        {
            if self.members[i].0 == member_id {
                return Some(i);
            }
            i = i + 1;
        }
        None
    }
}

impl EmployeeDao for MemoryDao {
    closed spec fn store(&self) -> Store {
        Store {
            employees: pair_map(employee_pairs(self.employees@)),
            order: employee_ids(self.employees@),
            members: pair_map(self.members@),
            paychecks: self.paychecks@,
        }
    }

    closed spec fn inv(&self) -> bool {
        &&& keys_unique(employee_pairs(self.employees@))
        &&& keys_unique(self.members@)
    }

    /// The store in memory lists its employees and records every paycheck of
    /// a stored employee.
    open spec fn reliable() -> bool {
        true
    }

    proof fn lemma_store(&self) {
        let s = employee_pairs(self.employees@);
        let l = self.store().order;
        assert forall|i: int| 0 <= i < l.len() implies self.store().employees.contains_key(
            #[trigger] l[i],
        ) by {
            lemma_key_index(s, i);
        }
        assert forall|k: EmployeeId| self.store().employees.contains_key(k) implies l.contains(
            k,
        ) by {
            let i = choose|i: int| 0 <= i < s.len() && s[i].0 == k;
            assert(l[i] == k);
        }
        assert forall|i: int, j: int|
            0 <= i < l.len() && 0 <= j < l.len() && i != j implies l[i] != l[j] by {
            assert(s[i].0 == l[i]);
            assert(s[j].0 == l[j]);
        }
        assert forall|k: EmployeeId| #[trigger] self.store().employees.contains_key(
            k,
        ) implies self.store().employees[k].id == k by {
            let i = choose|i: int| 0 <= i < s.len() && s[i].0 == k;
            lemma_key_index(s, i);
        }
    }

    fn insert(&mut self, emp: Employee) -> (r: Result<EmployeeId, DaoError>) {
        let id = emp.id;
        match self.find_employee(id) {
            Some(i) => {
                proof {
                    lemma_key_index(employee_pairs(self.employees@), i as int);
                }
                Err(DaoError::AlreadyExists(id))
            },
            None => {
                let ghost old_s = self.employees@;
                let ghost e = emp@;
                self.employees.push(emp);
                proof {
                    assert(employee_pairs(self.employees@) =~= employee_pairs(old_s).push(
                        (id, e),
                    ));
                    lemma_pair_map_push(employee_pairs(old_s), id, e);
                    assert(employee_ids(self.employees@) =~= employee_ids(old_s).push(id));
                }
                Ok(id)
            },
        }
    }

    fn remove(&mut self, id: EmployeeId) -> (r: Result<(), DaoError>) {
        match self.find_employee(id) {
            None => Err(DaoError::NotFound(id)),
            Some(i) => {
                let ghost old_s = self.employees@;
                let _ = self.employees.remove(i);
                proof {
                    assert(employee_pairs(self.employees@) =~= employee_pairs(old_s).remove(
                        i as int,
                    ));
                    lemma_pair_map_remove(employee_pairs(old_s), i as int);
                    assert(employee_ids(self.employees@) =~= employee_ids(old_s).remove(i as int));
                    lemma_position(old_s, i as int);
                }
                Ok(())
            },
        }
    }

    fn fetch(&self, id: EmployeeId) -> (r: Result<Employee, DaoError>) {
        match self.find_employee(id) {
            None => Err(DaoError::NotFound(id)),
            Some(i) => {
                proof {
                    lemma_key_index(employee_pairs(self.employees@), i as int);
                }
                Ok(self.employees[i].copy())
            },
        }
    }

    fn fetch_all(&self) -> (r: Result<Vec<(EmployeeId, Employee)>, DaoError>) {
        let mut r: Vec<(EmployeeId, Employee)> = Vec::new();
        let mut i: usize = 0;
        while i < self.employees.len()
            invariant
                self.inv(),
                i <= self.employees@.len(),
                r@.len() == i,
                forall|j: int|
                    0 <= j < i ==> (#[trigger] r@[j]).0 == self.store().order[j] && r@[j].1@
                        == self.store().employees[self.store().order[j]],
            decreases self.employees@.len() - i,
        {
            proof {
                lemma_key_index(employee_pairs(self.employees@), i as int);
            }
            let e = self.employees[i].copy();
            r.push((self.employees[i].id, e));
            i = i + 1;
        }
        Ok(r)
    }

    fn update(&mut self, emp: Employee) -> (r: Result<(), DaoError>) {
        let id = emp.id;
        match self.find_employee(id) {
            None => Err(DaoError::NotFound(id)),
            Some(i) => {
                let ghost old_s = self.employees@;
                let ghost e = emp@;
                self.employees.set(i, emp);
                proof {
                    assert(employee_pairs(self.employees@) =~= employee_pairs(old_s).update(
                        i as int,
                        (id, e),
                    ));
                    lemma_pair_map_update(employee_pairs(old_s), i as int, e);
                    assert(employee_ids(self.employees@) =~= employee_ids(old_s));
                }
                Ok(())
            },
        }
    }

    fn add_union_member(&mut self, member_id: MemberId, emp_id: EmployeeId) -> (r: Result<
        (),
        DaoError,
    >) {
        match self.find_member(member_id) {
            Some(i) => {
                proof {
                    lemma_key_index(self.members@, i as int);
                }
                Err(DaoError::MemberAlreadyExists(member_id))
            },
            None => {
                proof {
                    lemma_pair_map_push(self.members@, member_id, emp_id);
                }
                self.members.push((member_id, emp_id));
                Ok(())
            },
        }
    }

    fn remove_union_member(&mut self, member_id: MemberId) -> (r: Result<(), DaoError>) {
        match self.find_member(member_id) {
            None => Err(DaoError::MemberNotFound(member_id)),
            Some(i) => {
                proof {
                    lemma_pair_map_remove(self.members@, i as int);
                }
                let _ = self.members.remove(i);
                Ok(())
            },
        }
    }

    fn find_union_member(&self, member_id: MemberId) -> (r: Result<EmployeeId, DaoError>) {
        match self.find_member(member_id) {
            None => Err(DaoError::MemberNotFound(member_id)),
            Some(i) => {
                proof {
                    lemma_key_index(self.members@, i as int);
                }
                Ok(self.members[i].1)
            },
        }
    }

    fn record_paycheck(&mut self, emp_id: EmployeeId, paycheck: Paycheck) -> (r: Result<
        (),
        DaoError,
    >) {
        match self.find_employee(emp_id) {
            None => Err(DaoError::NotFound(emp_id)),
            Some(i) => {
                proof {
                    lemma_key_index(employee_pairs(self.employees@), i as int);
                }
                self.paychecks.push((emp_id, paycheck));
                Ok(())
            },
        }
    }
}

} // verus!
