//! A company's employees, listed by department.
use vstd::hash_map::StringHashMap;
use vstd::prelude::*;

verus! {

pub struct Company {
    employees: StringHashMap<Vec<String>>,
}

impl Company {
    /// The staff of each department, by the department's name.
    pub closed spec fn staff(&self) -> Map<Seq<char>, Seq<String>> {
        self.employees@.map_values(|names: Vec<String>| names@)
    }

    /// A company with no departments.
    pub fn new() -> (r: Company)
        ensures
            r.staff() == Map::<Seq<char>, Seq<String>>::empty(),
    {
        let r = Company { employees: StringHashMap::new() };
        assert(r.staff() =~= Map::<Seq<char>, Seq<String>>::empty());
        r
    }

    /// The staff of `department`; none for an unknown department.
    pub fn employees_by_department(&self, department: String) -> (r: Vec<String>)
        ensures
            r@ == (if self.staff().contains_key(department@) {
                self.staff()[department@]
            } else {
                Seq::<String>::empty()
            }),
    {
        match self.employees.get(department.as_str()) {
            Some(x) => {
                let r = x.clone();
                assert(r@ =~= x@);
                r
            },
            None => vec![],
        }
    }

    /// Sets the staff of `department` to `names`, replacing what it had.
    pub fn add_employees_by_department(&mut self, department: String, names: Vec<String>)
        ensures
            final(self).staff() == old(self).staff().insert(department@, names@),
    {
        let ghost d = department@;
        let ghost n = names@;
        self.employees.insert(department, names);
        assert(self.staff() =~= old(self).staff().insert(d, n));
    }
}

} // verus!
