//! Exports.
use crate::parse_tree::language_types::ExternalKind;
use crate::tree::section::Section;
use vstd::prelude::*;

verus! {

/// The exports section: its entries in order.
#[derive(Debug, Clone, PartialEq, Eq)]
pub struct ExportSection {
    pub entries: Vec<ExportEntry>,
}

impl Section for ExportSection {

}

/// An export: a name and the entity it exports.
#[derive(Debug, Clone, PartialEq, Eq)]
pub struct ExportEntry {
    pub field: String,
    pub kind: ExternalKind,
}

/// The exports that a list of entries defines: each name maps to the entity of
/// its last entry.
pub open spec fn export_map(s: Seq<ExportEntry>) -> Map<Seq<char>, ExternalKind>
    decreases s.len(),
{
    if s.len() == 0 {
        Map::empty()
    } else {
        export_map(s.drop_last()).insert(s.last().field@, s.last().kind)
    }
}

/// No two entries have the same name.
pub open spec fn distinct_fields(s: Seq<ExportEntry>) -> bool {
    forall|i: int, j: int| 0 <= i < j < s.len() ==> s[i].field@ != s[j].field@
}

proof fn lemma_export_map_absent(s: Seq<ExportEntry>, k: Seq<char>)
    requires
        forall|i: int| 0 <= i < s.len() ==> s[i].field@ != k,
    ensures
        !export_map(s).contains_key(k),
    decreases s.len(),
{
    if s.len() > 0 {
        lemma_export_map_absent(s.drop_last(), k);
    }
}

proof fn lemma_export_map_update(s: Seq<ExportEntry>, i: int, e: ExportEntry)
    requires
        distinct_fields(s),
        0 <= i < s.len(),
        s[i].field@ == e.field@,
    ensures
        export_map(s.update(i, e)) == export_map(s).insert(e.field@, e.kind),
    decreases s.len(),
{
    let t = s.update(i, e);
    if i == s.len() - 1 {
        assert(t.drop_last() =~= s.drop_last());
    } else {
        lemma_export_map_update(s.drop_last(), i, e);
        assert(t.drop_last() =~= s.drop_last().update(i, e));
        assert(s.last().field@ != e.field@);
    }
    assert(export_map(t) =~= export_map(s).insert(e.field@, e.kind));
}

/// Records an export under its name: an entry with the same name is replaced,
/// otherwise the entry is appended.
pub fn insert_export(entries: &mut Vec<ExportEntry>, field: String, kind: ExternalKind)
    requires
        distinct_fields(old(entries)@),
    ensures
        distinct_fields(final(entries)@),
        export_map(final(entries)@) == export_map(old(entries)@).insert(field@, kind),
{
    let mut i: usize = 0;
    while i < entries.len()
        invariant
            i <= entries@.len(),
            entries@ == old(entries)@,
            distinct_fields(entries@),
            forall|j: int| 0 <= j < i ==> entries@[j].field@ != field@,
        decreases entries@.len() - i,
    {
        if entries[i].field == field {
            let ghost before = entries@;
            let e = ExportEntry { field, kind };
            entries.set(i, e);
            proof {
                lemma_export_map_update(before, i as int, e);
                assert(entries@ == before.update(i as int, e));
            }
            return;
        }
        i = i + 1;
    }
    let ghost before = entries@;
    let e = ExportEntry { field, kind };
    entries.push(e);
    proof {
        lemma_export_map_absent(before, e.field@);
        assert(entries@.drop_last() =~= before);
    }
}

/// The entity that a name maps to is that of its last entry.
proof fn lemma_export_map_last(s: Seq<ExportEntry>, j: int, k: Seq<char>)
    requires
        0 <= j < s.len(),
        s[j].field@ == k,
        forall|i: int| j < i < s.len() ==> s[i].field@ != k,
    ensures
        export_map(s).contains_key(k),
        export_map(s)[k] == s[j].kind,
    decreases s.len(),
{
    if j < s.len() - 1 {
        lemma_export_map_last(s.drop_last(), j, k);
    }
}

/// The function that the export `name` refers to: the index of the function
/// that the name maps to, or `None` where the name is not exported or names no
/// function.
pub fn exported_function(entries: &Vec<ExportEntry>, name: &String) -> (r: Option<usize>)
    ensures
        match r {
            Some(f) => export_map(entries@).contains_key(name@) && export_map(entries@)[name@]
                == ExternalKind::Function(f),
            None => !export_map(entries@).contains_key(name@) || !(export_map(
                entries@,
            )[name@] is Function),
        },
{
    let mut i: usize = entries.len();
    while i > 0
        invariant
            i <= entries@.len(),
            forall|j: int| i <= j < entries@.len() ==> entries@[j].field@ != name@,
        decreases i,
    {
        i = i - 1;
        if entries[i].field == *name {
            proof {
                lemma_export_map_last(entries@, i as int, name@);
            }
            return match entries[i].kind {
                ExternalKind::Function(f) => Some(f),
                _ => None,
            };
        }
    }
    proof {
        lemma_export_map_absent(entries@, name@);
    }
    None
}

} // verus!
