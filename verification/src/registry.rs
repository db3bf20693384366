//! The catalog of available tests and the resolution of a caller's
//! filter into the ordered run list: an empty filter keeps the whole
//! registry in its natural (priority-declaring) order, a non-empty
//! filter is replayed exactly in the caller's order, and a name that is
//! not registered fails the resolution.

use vstd::prelude::*;
use crate::decimal::dec_of;
use crate::errors::PipelineError;

verus! {

/// One registered test: its name and its declared priority.
#[derive(PartialEq, Eq, Debug)]
pub struct TestDescriptor {
    pub name: String,
    pub priority: Option<u32>,
}

impl Clone for TestDescriptor {
    fn clone(&self) -> (res: Self)
        ensures
            res == *self,
    {
        TestDescriptor { name: self.name.clone(), priority: self.priority }
    }
}

/// Whether some registered test carries the given name.
pub open spec fn registry_has(reg: Seq<TestDescriptor>, name: Seq<char>) -> bool {
    exists|i: int| 0 <= i < reg.len() && reg[i].name@ == name
}

/// The first registered test with the given name, if any.
pub open spec fn lookup_test(reg: Seq<TestDescriptor>, name: Seq<char>) -> Option<TestDescriptor>
    decreases reg.len(),
{
    if reg.len() == 0 {
        None
    } else if reg[0].name@ == name {
        Some(reg[0])
    } else {
        lookup_test(reg.drop_first(), name)
    }
}

proof fn lemma_lookup_at(reg: Seq<TestDescriptor>, name: Seq<char>, j: int)
    requires
        0 <= j < reg.len(),
        reg[j].name@ == name,
        forall|k: int| 0 <= k < j ==> reg[k].name@ != name,
    ensures
        lookup_test(reg, name) == Some(reg[j]),
    decreases j,
{
    if j == 0 {
    } else {
        assert(reg.drop_first()[j - 1] == reg[j]);
        assert(forall|k: int| 0 <= k < j - 1 ==> reg.drop_first()[k] == reg[k + 1]);
        lemma_lookup_at(reg.drop_first(), name, j - 1);
    }
}

proof fn lemma_lookup_none(reg: Seq<TestDescriptor>, name: Seq<char>)
    requires
        forall|k: int| 0 <= k < reg.len() ==> reg[k].name@ != name,
    ensures
        lookup_test(reg, name) is None,
        !registry_has(reg, name),
    decreases reg.len(),
{
    if reg.len() > 0 {
        assert(forall|k: int| 0 <= k < reg.len() - 1 ==> reg.drop_first()[k] == reg[k + 1]);
        lemma_lookup_none(reg.drop_first(), name);
    }
}

proof fn lemma_lookup_found(reg: Seq<TestDescriptor>, name: Seq<char>)
    requires
        registry_has(reg, name),
    ensures
        lookup_test(reg, name) matches Some(d) && d.name@ == name,
    decreases reg.len(),
{
    if reg.len() > 0 && reg[0].name@ != name {
        assert(forall|k: int| 0 <= k < reg.len() - 1 ==> reg.drop_first()[k] == reg[k + 1]);
        let w = choose|i: int| 0 <= i < reg.len() && reg[i].name@ == name;
        assert(reg.drop_first()[w - 1].name@ == name);
        lemma_lookup_found(reg.drop_first(), name);
    }
}

/// The first registered test with the given name, resolved by a scan.
fn find_test(registry: &Vec<TestDescriptor>, name: &String) -> (r: Option<TestDescriptor>)
    ensures
        r == lookup_test(registry@, name@),
        r is Some <==> registry_has(registry@, name@),
{
    let n = registry.len();
    let mut i: usize = 0;
    while i < n
        invariant
            n == registry@.len(),
            0 <= i <= n,
            forall|k: int| 0 <= k < i ==> registry@[k].name@ != name@,
        decreases n - i,
    {
        if registry[i].name == *name {
            proof {
                lemma_lookup_at(registry@, name@, i as int);
            }
            return Some(registry[i].clone());
        }
        i += 1;
    }
    proof {
        lemma_lookup_none(registry@, name@);
    }
    None
}

/// Resolves a caller-supplied filter into the ordered run list.
///
/// An empty filter selects the full registry in registry order. A
/// non-empty filter selects exactly the named tests, in the caller's
/// order; any name absent from the registry fails the resolution with
/// `UnknownTest`, carrying the first such name.
pub fn get_filtered_tests(registry: &Vec<TestDescriptor>, filters: &Vec<String>) -> (r: Result<
    Vec<TestDescriptor>,
    PipelineError,
>)
    ensures
        filters@.len() == 0 ==> (r matches Ok(ts) && ts@ == registry@),
        r matches Ok(ts) ==> filters@.len() != 0 ==> ts@.len() == filters@.len()
            && (forall|i: int|
                0 <= i < filters@.len() ==> lookup_test(registry@, filters@[i]@) == Some(ts@[i]))
            && (forall|i: int| 0 <= i < filters@.len() ==> ts@[i].name@ == filters@[i]@),
        r is Ok <==> (forall|i: int|
            0 <= i < filters@.len() ==> registry_has(registry@, filters@[i]@)),
        r matches Err(e) ==> (e matches PipelineError::UnknownTest(n) && exists|i: int|
            0 <= i < filters@.len() && n@ == filters@[i]@ && !registry_has(registry@, filters@[i]@)),
{
    if filters.len() == 0 {
        let n = registry.len();
        let mut out: Vec<TestDescriptor> = Vec::new();
        let mut i: usize = 0;
        while i < n
            invariant
                n == registry@.len(),
                0 <= i <= n,
                out@ =~= registry@.subrange(0, i as int),
            decreases n - i,
        {
            out.push(registry[i].clone());
            i += 1;
        }
        proof {
            assert(out@ =~= registry@);
        }
        Ok(out)
    } else {
        let n = filters.len();
        let mut out: Vec<TestDescriptor> = Vec::new();
        let mut i: usize = 0;
        while i < n
            invariant
                n == filters@.len(),
                0 <= i <= n,
                out@.len() == i,
                forall|k: int| 0 <= k < i ==> registry_has(registry@, filters@[k]@),
                forall|k: int|
                    0 <= k < i ==> lookup_test(registry@, filters@[k]@) == Some(out@[k]),
                forall|k: int| 0 <= k < i ==> out@[k].name@ == filters@[k]@,
            decreases n - i,
        {
            match find_test(registry, &filters[i]) {
                Some(d) => {
                    proof {
                        lemma_lookup_found(registry@, filters@[i as int]@);
                    }
                    out.push(d);
                }
                None => {
                    return Err(PipelineError::UnknownTest(filters[i].clone()));
                }
            }
            i += 1;
        }
        Ok(out)
    }
}

/// The priority of a test, with absence meaning zero.
pub open spec fn priority_of(d: TestDescriptor) -> nat {
    match d.priority {
        Some(p) => p as nat,
        None => 0,
    }
}

/// One listing row: the priority in decimal, a tab, the test's name.
pub open spec fn row_of(d: TestDescriptor) -> Seq<char> {
    dec_of(priority_of(d)) + seq!['\t'] + d.name@
}

/// Renders the registry listing, one row per registered test, in
/// registry order, never sorted by priority.
pub fn list_test_rows(registry: &Vec<TestDescriptor>) -> (r: Vec<String>)
    ensures
        r@.len() == registry@.len(),
        forall|i: int| 0 <= i < registry@.len() ==> r@[i]@ == row_of(registry@[i]),
{
    let n = registry.len();
    let mut out: Vec<String> = Vec::new();
    let mut i: usize = 0;
    while i < n
        invariant
            n == registry@.len(),
            0 <= i <= n,
            out@.len() == i,
            forall|k: int| 0 <= k < i ==> out@[k]@ == row_of(registry@[k]),
        decreases n - i,
    {
        let prio: u32 = match registry[i].priority {
            Some(p) => p,
            None => 0,
        };
        let mut row = crate::decimal::u32_to_dec(prio);
        row.append("\t");
        row.append(registry[i].name.as_str());
        proof {
            reveal_strlit("\t");
            assert(row@ =~= row_of(registry@[i as int]));
        }
        out.push(row);
        i += 1;
    }
    out
}

} // verus!
