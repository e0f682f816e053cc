//! Imports.
use crate::parse_tree::language_types::ExternalKind;
use crate::tree::section::Section;
use vstd::prelude::*;

verus! {

/// The imports section: its entries in order.
#[derive(Debug, Clone, PartialEq, Eq)]
pub struct ImportSection {
    pub entries: Vec<ImportEntry>,
}

impl Section for ImportSection {

}

/// An import: module name, field name and the kind of entity imported.
#[derive(Debug, Clone, PartialEq, Eq)]
pub struct ImportEntry {
    pub module: String,
    pub field: String,
    pub kind: ExternalKind,
}

/// The imports that a list of entries defines, keyed by module and field name.
pub open spec fn import_map(s: Seq<ImportEntry>) -> Map<(Seq<char>, Seq<char>), ExternalKind>
    decreases s.len(),
{
    if s.len() == 0 {
        Map::empty()
    } else {
        import_map(s.drop_last()).insert((s.last().module@, s.last().field@), s.last().kind)
    }
}

/// No two entries import the same field of the same module.
pub open spec fn distinct_imports(s: Seq<ImportEntry>) -> bool {
    forall|i: int, j: int|
        0 <= i < j < s.len() ==> (s[i].module@, s[i].field@) != (s[j].module@, s[j].field@)
}

proof fn lemma_import_map_keys(s: Seq<ImportEntry>, k: (Seq<char>, Seq<char>))
    ensures
        import_map(s).contains_key(k) <==> exists|i: int| 0 <= i < s.len() && (s[i].module@, s[i].field@) == k,
    decreases s.len(),
{
    if s.len() > 0 {
        lemma_import_map_keys(s.drop_last(), k);
        if import_map(s.drop_last()).contains_key(k) {
            let i = choose|i: int| 0 <= i < s.drop_last().len() && (s.drop_last()[i].module@, s.drop_last()[i].field@) == k;
            assert(s[i] == s.drop_last()[i]);
        }
        if exists|i: int| 0 <= i < s.len() && (s[i].module@, s[i].field@) == k {
            let i = choose|i: int| 0 <= i < s.len() && (s[i].module@, s[i].field@) == k;
            if i < s.len() - 1 {
                assert(s.drop_last()[i] == s[i]);
            }
        }
    }
}

/// Records an import, unless the same field of the same module is already
/// imported: then the list is left as it was and `false` is returned.
pub fn insert_import(entries: &mut Vec<ImportEntry>, module: String, field: String, kind: ExternalKind) -> (added: bool)
    requires
        distinct_imports(old(entries)@),
    ensures
        distinct_imports(final(entries)@),
        added == !import_map(old(entries)@).contains_key((module@, field@)),
        added ==> import_map(final(entries)@) == import_map(old(entries)@).insert((module@, field@), kind),
        !added ==> final(entries)@ == old(entries)@,
{
    proof {
        lemma_import_map_keys(entries@, (module@, field@));
    }
    let mut i: usize = 0;
    while i < entries.len()
        invariant
            i <= entries@.len(),
            entries@ == old(entries)@,
            distinct_imports(entries@),
            import_map(entries@).contains_key((module@, field@)) <==> exists|j: int|
                0 <= j < entries@.len() && (entries@[j].module@, entries@[j].field@) == (module@, field@),
            forall|j: int| 0 <= j < i ==> (entries@[j].module@, entries@[j].field@) != (module@, field@),
        decreases entries@.len() - i,
    {
        if entries[i].module == module && entries[i].field == field {
            assert((entries@[i as int].module@, entries@[i as int].field@) == (module@, field@));
            return false;
        }
        i = i + 1;
    }
    let ghost before = entries@;
    entries.push(ImportEntry { module, field, kind });
    proof {
        assert(entries@.drop_last() =~= before);
    }
    true
}

/// Whether `supplied` names field `f` of module `m`.
pub open spec fn supplies(supplied: Seq<(String, String)>, m: Seq<char>, f: Seq<char>) -> bool {
    exists|i: int| 0 <= i < supplied.len() && supplied[i].0@ == m && supplied[i].1@ == f
}

/// Whether an entry of `s` imports a function from module `m`.
pub open spec fn imports_function_from(s: Seq<ImportEntry>, m: Seq<char>) -> bool {
    exists|i: int| 0 <= i < s.len() && s[i].kind is Function && s[i].module@ == m
}

/// Whether `m` is one of the names in `list`.
pub open spec fn listed(list: Seq<String>, m: Seq<char>) -> bool {
    exists|i: int| 0 <= i < list.len() && list[i]@ == m
}

/// Whether the last entry of `s` gets a function of the instance, given the
/// functions that the host supplies by module and field name: it imports a
/// function, the host supplies it, and it is the first function import from
/// its module (the host's functions of a module are taken at that module's
/// first function import).
pub open spec fn gets_slot(s: Seq<ImportEntry>, supplied: Seq<(String, String)>) -> bool {
    &&& s.len() > 0
    &&& s.last().kind is Function
    &&& supplies(supplied, s.last().module@, s.last().field@)
    &&& !imports_function_from(s.drop_last(), s.last().module@)
}

/// The function imports that get a function of the instance, in order: the
/// imported function with index `i` is the entry at position `i`.
pub open spec fn function_imports(s: Seq<ImportEntry>, supplied: Seq<(String, String)>) -> Seq<ImportEntry>
    decreases s.len(),
{
    if s.len() == 0 {
        Seq::empty()
    } else if gets_slot(s, supplied) {
        function_imports(s.drop_last(), supplied).push(s.last())
    } else {
        function_imports(s.drop_last(), supplied)
    }
}

/// Whether `supplied` names field `f` of module `m`.
pub fn supplies_of(supplied: &Vec<(String, String)>, m: &String, f: &String) -> (r: bool)
    ensures
        r == supplies(supplied@, m@, f@),
{
    let mut i: usize = 0;
    while i < supplied.len()
        invariant
            i <= supplied@.len(),
            forall|j: int| 0 <= j < i ==> !(supplied@[j].0@ == m@ && supplied@[j].1@ == f@),
        decreases supplied@.len() - i,
    {
        if supplied[i].0 == *m && supplied[i].1 == *f {
            return true;
        }
        i = i + 1;
    }
    false
}

/// Whether `m` is one of the names in `list`.
fn listed_of(list: &Vec<String>, m: &String) -> (r: bool)
    ensures
        r == listed(list@, m@),
{
    let mut i: usize = 0;
    while i < list.len()
        invariant
            i <= list@.len(),
            forall|j: int| 0 <= j < i ==> list@[j]@ != m@,
        decreases list@.len() - i,
    {
        if list[i] == *m {
            return true;
        }
        i = i + 1;
    }
    false
}

/// Whether entry `i` of `entries` gets a function of the instance, and the
/// modules of the function imports up to it.
pub(crate) fn slot_step(entries: &Vec<ImportEntry>, i: usize, seen: &mut Vec<String>, supplied: &Vec<(String, String)>) -> (r: bool)
    requires
        i < entries@.len(),
        forall|m: Seq<char>| listed(old(seen)@, m) == imports_function_from(entries@.take(i as int), m),
    ensures
        r == gets_slot(entries@.take(i + 1), supplied@),
        forall|m: Seq<char>| listed(final(seen)@, m) == imports_function_from(entries@.take(i + 1), m),
{
    let ghost t = entries@.take(i + 1);
    assert(t.drop_last() =~= entries@.take(i as int));
    assert(t.last() == entries@[i as int]);
    match entries[i].kind {
        ExternalKind::Function(_) => {
            let earlier = listed_of(seen, &entries[i].module);
            let supplied_here = supplies_of(supplied, &entries[i].module, &entries[i].field);
            let ghost before = seen@;
            assert(before == old(seen)@);
            seen.push(entries[i].module.clone());
            proof {
                assert forall|m: Seq<char>| listed(seen@, m) == imports_function_from(t, m) by {
                    if listed(seen@, m) {
                        let j = choose|j: int| 0 <= j < seen@.len() && seen@[j]@ == m;
                        if j < before.len() {
                            assert(before[j] == seen@[j]);
                            assert(listed(before, m));
                            assert(imports_function_from(entries@.take(i as int), m));
                            let k = choose|k: int| 0 <= k < i && entries@.take(i as int)[k].kind is Function
                                && entries@.take(i as int)[k].module@ == m;
                            assert(t[k] == entries@.take(i as int)[k]);
                        } else {
                            assert(t[i as int] == entries@[i as int]);
                        }
                    }
                    if imports_function_from(t, m) {
                        let k = choose|k: int| 0 <= k < t.len() && t[k].kind is Function && t[k].module@ == m;
                        if k < i {
                            assert(entries@.take(i as int)[k] == t[k]);
                            assert(imports_function_from(entries@.take(i as int), m));
                            assert(listed(before, m));
                            let j = choose|j: int| 0 <= j < before.len() && before[j]@ == m;
                            assert(seen@[j] == before[j]);
                        } else {
                            assert(seen@[before.len() as int]@ == m);
                        }
                    }
                }
            }
            !earlier && supplied_here
        },
        _ => {
            proof {
                assert forall|m: Seq<char>| listed(seen@, m) == imports_function_from(t, m) by {
                    if imports_function_from(t, m) {
                        let k = choose|k: int| 0 <= k < t.len() && t[k].kind is Function && t[k].module@ == m;
                        assert(k < i);
                        assert(entries@.take(i as int)[k] == t[k]);
                    }
                    if imports_function_from(entries@.take(i as int), m) {
                        let k = choose|k: int| 0 <= k < i && entries@.take(i as int)[k].kind is Function
                            && entries@.take(i as int)[k].module@ == m;
                        assert(t[k] == entries@.take(i as int)[k]);
                    }
                }
            }
            false
        },
    }
}

/// The module and field names of the function imports that get functions of
/// the instance, in order, given the functions that the host supplies.
pub fn function_import_names(entries: &Vec<ImportEntry>, supplied: &Vec<(String, String)>) -> (r: Vec<(String, String)>)
    ensures
        r@.len() == function_imports(entries@, supplied@).len(),
        forall|i: int|
            0 <= i < r@.len() ==> (#[trigger] r@[i]).0@ == function_imports(entries@, supplied@)[i].module@ && r@[i].1@
                == function_imports(entries@, supplied@)[i].field@,
{
    let mut r: Vec<(String, String)> = Vec::new();
    let mut seen: Vec<String> = Vec::new();
    let mut k: usize = 0;
    while k < entries.len()
        invariant
            k <= entries@.len(),
            forall|m: Seq<char>| listed(seen@, m) == imports_function_from(entries@.take(k as int), m),
            r@.len() == function_imports(entries@.take(k as int), supplied@).len(),
            forall|i: int|
                0 <= i < r@.len() ==> (#[trigger] r@[i]).0@ == function_imports(entries@.take(k as int), supplied@)[i].module@
                    && r@[i].1@ == function_imports(entries@.take(k as int), supplied@)[i].field@,
        decreases entries@.len() - k,
    {
        assert(entries@.take(k as int + 1).drop_last() =~= entries@.take(k as int));
        if slot_step(entries, k, &mut seen, supplied) {
            r.push((entries[k].module.clone(), entries[k].field.clone()));
        }
        k = k + 1;
    }
    assert(entries@.take(entries@.len() as int) =~= entries@);
    r
}

} // verus!
