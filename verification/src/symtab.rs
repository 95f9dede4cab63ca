//! Label tables. Code labels resolve to instruction indices, data labels to
//! byte addresses; each table is one namespace. What happens on a duplicate
//! definition is a configurable policy.

use vstd::prelude::*;

use crate::errors::AsmError;
use crate::errors::AsmErrorKind;
use crate::text::str_eq;

verus! {

/// What a second definition of the same label does.
#[derive(Clone, Copy, PartialEq, Eq, Structural, Debug)]
pub enum DuplicatePolicy {
    /// The later definition replaces the earlier one silently.
    Overwrite,
    /// A second definition is a hard error.
    Reject,
}

/// A mapping from label names to resolved addresses.
pub struct SymbolTable {
    entries: Vec<(String, u32)>,
    policy: DuplicatePolicy,
}

/// The address bound to `name`, scanning entries in order.
pub open spec fn spec_lookup(entries: Seq<(Seq<char>, u32)>, name: Seq<char>) -> Option<u32>
    decreases entries.len(),
{
    if entries.len() == 0 {
        None
    } else if entries[0].0 == name {
        Some(entries[0].1)
    } else {
        spec_lookup(entries.drop_first(), name)
    }
}

/// The table after binding `name` to `addr`: the first entry for `name` is
/// replaced in place, or a new entry is appended.
pub open spec fn spec_define(entries: Seq<(Seq<char>, u32)>, name: Seq<char>, addr: u32) -> Seq<
    (Seq<char>, u32),
>
    decreases entries.len(),
{
    if entries.len() == 0 {
        seq![(name, addr)]
    } else if entries[0].0 == name {
        seq![(name, addr)] + entries.drop_first()
    } else {
        seq![entries[0]] + spec_define(entries.drop_first(), name, addr)
    }
}

proof fn lemma_lookup_from_scan(entries: Seq<(Seq<char>, u32)>, name: Seq<char>, i: int)
    requires
        0 <= i <= entries.len(),
        forall|j: int| 0 <= j < i ==> entries[j].0 != name,
        i < entries.len() ==> entries[i].0 == name,
    ensures
        spec_lookup(entries, name) == if i == entries.len() {
            None::<u32>
        } else {
            Some(entries[i].1)
        },
    decreases entries.len(),
{
    if entries.len() > 0 && entries[0].0 != name {
        lemma_lookup_from_scan(entries.drop_first(), name, i - 1);
    }
}

proof fn lemma_define_absent(entries: Seq<(Seq<char>, u32)>, name: Seq<char>, addr: u32)
    requires
        forall|j: int| 0 <= j < entries.len() ==> entries[j].0 != name,
    ensures
        spec_define(entries, name, addr) == entries.push((name, addr)),
    decreases entries.len(),
{
    if entries.len() == 0 {
        assert(spec_define(entries, name, addr) =~= entries.push((name, addr)));
    } else {
        lemma_define_absent(entries.drop_first(), name, addr);
        assert(spec_define(entries, name, addr) =~= entries.push((name, addr)));
    }
}

proof fn lemma_define_found(entries: Seq<(Seq<char>, u32)>, name: Seq<char>, addr: u32, i: int)
    requires
        0 <= i < entries.len(),
        forall|j: int| 0 <= j < i ==> entries[j].0 != name,
        entries[i].0 == name,
    ensures
        spec_define(entries, name, addr) == entries.update(i, (name, addr)),
    decreases entries.len(),
{
    if i == 0 {
        assert(spec_define(entries, name, addr) =~= entries.update(0, (name, addr)));
    } else {
        lemma_define_found(entries.drop_first(), name, addr, i - 1);
        assert(entries.drop_first().update(i - 1, (name, addr)) =~= entries.update(
            i,
            (name, addr),
        ).drop_first());
        assert(spec_define(entries, name, addr) =~= entries.update(i, (name, addr)));
    }
}

impl View for SymbolTable {
    type V = Seq<(Seq<char>, u32)>;

    closed spec fn view(&self) -> Seq<(Seq<char>, u32)> {
        self.entries@.map_values(|e: (String, u32)| (e.0@, e.1))
    }
}

impl SymbolTable {
    pub closed spec fn spec_policy(self) -> DuplicatePolicy {
        self.policy
    }

    /// An empty table with the given duplicate policy.
    pub fn new(policy: DuplicatePolicy) -> (t: SymbolTable)
        ensures
            t@ == Seq::<(Seq<char>, u32)>::empty(),
            t.spec_policy() == policy,
    {
        let t = SymbolTable { entries: Vec::new(), policy };
        proof {
            assert(t@ =~= Seq::<(Seq<char>, u32)>::empty());
        }
        t
    }

    /// The address bound to `name`, if any.
    pub fn lookup(&self, name: &str) -> (r: Option<u32>)
        ensures
            r == spec_lookup(self@, name@),
    {
        let n = self.entries.len();
        let mut i: usize = 0;
        while i < n
            invariant
                0 <= i <= n,
                n == self.entries.len(),
                self@.len() == n,
                forall|j: int| 0 <= j < i ==> self@[j].0 != name@,
            decreases n - i,
        {
            let e = &self.entries[i];
            if str_eq(e.0.as_str(), name) {
                proof {
                    lemma_lookup_from_scan(self@, name@, i as int);
                }
                return Some(e.1);
            }
            i += 1;
        }
        proof {
            lemma_lookup_from_scan(self@, name@, n as int);
        }
        None
    }

    /// Binds `name` to `addr`. On a duplicate, the policy decides: overwrite
    /// in place, or report the label as a `DuplicateLabel` error and leave
    /// the table unchanged.
    pub fn define(&mut self, name: String, addr: u32) -> (r: Result<(), AsmError>)
        ensures
            match r {
                Ok(_) => final(self)@ == spec_define(old(self)@, name@, addr),
                Err(e) => final(self)@ == old(self)@ && e.kind == AsmErrorKind::DuplicateLabel
                    && e.token@ == name@,
            },
            r is Err <==> (old(self).spec_policy() == DuplicatePolicy::Reject && spec_lookup(
                old(self)@,
                name@,
            ) is Some),
            final(self).spec_policy() == old(self).spec_policy(),
    {
        let n = self.entries.len();
        let mut i: usize = 0;
        while i < n
            invariant
                0 <= i <= n,
                n == self.entries.len(),
                self@.len() == n,
                forall|j: int| 0 <= j < i ==> self@[j].0 != name@,
                self == old(self),
            decreases n - i,
        {
            let found = str_eq(self.entries[i].0.as_str(), name.as_str());
            if found {
                proof {
                    lemma_lookup_from_scan(self@, name@, i as int);
                }
                match self.policy {
                    DuplicatePolicy::Overwrite => {
                        proof {
                            lemma_define_found(self@, name@, addr, i as int);
                        }
                        let ghost pre = self@;
                        self.entries.set(i, (name, addr));
                        proof {
                            assert(self@ =~= pre.update(i as int, (name@, addr)));
                        }
                        return Ok(());
                    },
                    DuplicatePolicy::Reject => {
                        return Err(
                            AsmError { kind: AsmErrorKind::DuplicateLabel, token: name },
                        );
                    },
                }
            }
            i += 1;
        }
        proof {
            lemma_lookup_from_scan(self@, name@, n as int);
            lemma_define_absent(self@, name@, addr);
        }
        let ghost pre = self@;
        self.entries.push((name, addr));
        proof {
            assert(self@ =~= pre.push((name@, addr)));
        }
        Ok(())
    }

    /// The first label bound to `addr`, if any: how a memory dump names the
    /// addresses that `.data` labels declared.
    pub fn label_for_address(&self, addr: u32) -> (r: Option<String>)
        ensures
            match r {
                Some(label) => spec_label_for_address(self@, addr) == Some(label@),
                None => spec_label_for_address(self@, addr) is None,
            },
    {
        let n = self.entries.len();
        let mut i: usize = 0;
        while i < n
            invariant
                0 <= i <= n,
                n == self.entries.len(),
                self@.len() == n,
                forall|j: int| 0 <= j < i ==> self@[j].1 != addr,
            decreases n - i,
        {
            let e = &self.entries[i];
            if e.1 == addr {
                proof {
                    lemma_label_for_address_from_scan(self@, addr, i as int);
                }
                return Some(e.0.clone());
            }
            i += 1;
        }
        proof {
            lemma_label_for_address_from_scan(self@, addr, n as int);
        }
        None
    }
}

/// The first label bound to `addr`, scanning entries in order.
pub open spec fn spec_label_for_address(entries: Seq<(Seq<char>, u32)>, addr: u32) -> Option<
    Seq<char>,
>
    decreases entries.len(),
{
    if entries.len() == 0 {
        None
    } else if entries[0].1 == addr {
        Some(entries[0].0)
    } else {
        spec_label_for_address(entries.drop_first(), addr)
    }
}

proof fn lemma_label_for_address_from_scan(entries: Seq<(Seq<char>, u32)>, addr: u32, i: int)
    requires
        0 <= i <= entries.len(),
        forall|j: int| 0 <= j < i ==> entries[j].1 != addr,
        i < entries.len() ==> entries[i].1 == addr,
    ensures
        spec_label_for_address(entries, addr) == if i == entries.len() {
            None::<Seq<char>>
        } else {
            Some(entries[i].0)
        },
    decreases entries.len(),
{
    if entries.len() > 0 && entries[0].1 != addr {
        lemma_label_for_address_from_scan(entries.drop_first(), addr, i - 1);
    }
}

} // verus!
