//! A listing of a module's sections, for inspecting a binary by eye.
//!
//! Unlike the parser, the listing reads each section id as a single byte, reads
//! every integer as an unsigned LEB128 value without a bit budget, and reads only
//! the contents of the types, functions, table, exports, elements and code
//! sections; after any other section it reads the next section id right where
//! the previous one's length ended.
use crate::leb::continues;
use crate::leb::overlong_run;
use crate::leb::read_unbounded_at;
use crate::leb::unbounded_spec;
use crate::leb::ReadError;
use crate::parser::errors::outcome;
use crate::parser::errors::ParseError;
use crate::parser::errors::Violation;
use crate::parser::utils::lemma_swallow_advances;
use crate::parser::utils::read_byte;
use crate::parser::utils::read_u32_le;
use crate::parser::utils::spec_byte;
use crate::parser::utils::spec_swallow_expr;
use crate::parser::utils::spec_u32_le;
use crate::parser::utils::swallow_expr;
use crate::parser::utils::utf8_string;
use vstd::arithmetic::power2::*;
use vstd::prelude::*;
use vstd::utf8::decode_utf8;
use vstd::utf8::valid_utf8;

verus! {

/// An unsigned LEB128 integer read without a bit budget, keeping its low 64 bits.
/// Ten continuation bytes followed by another byte are refused: the eleventh
/// byte's payload would be shifted past 64 bits.
pub open spec fn spec_leb(s: Seq<u8>, pos: int) -> Result<(u64, int), ParseError> {
    if overlong_run(s, pos) {
        Err(ParseError::Io(ReadError::NumTooBig))
    } else {
        match unbounded_spec(s, pos) {
            Ok((w, q)) => Ok(((w % pow2(64)) as u64, q)),
            Err(e) => Err(ParseError::Io(e)),
        }
    }
}

/// The same integer, its 64 bits read as two's complement (no sign extension
/// from the last byte).
pub open spec fn spec_leb_signed(s: Seq<u8>, pos: int) -> Result<(i64, int), ParseError> {
    match spec_leb(s, pos) {
        Ok((v, q)) => Ok((v as i64, q)),
        Err(e) => Err(e),
    }
}

proof fn lemma_unbounded_advances(s: Seq<u8>, pos: int)
    ensures
        unbounded_spec(s, pos) matches Ok((_, q)) ==> 0 <= pos < q <= s.len(),
    decreases s.len() - pos,
{
    if 0 <= pos < s.len() && continues(s[pos]) {
        lemma_unbounded_advances(s, pos + 1);
    }
}

/// Reading an integer moves forward and stays within the input.
pub proof fn lemma_leb_advances(s: Seq<u8>, pos: int)
    ensures
        spec_leb(s, pos) matches Ok((_, q)) ==> 0 <= pos < q <= s.len(),
        spec_leb_signed(s, pos) matches Ok((_, q)) ==> 0 <= pos < q <= s.len(),
{
    lemma_unbounded_advances(s, pos);
}

/// Whether ten continuation bytes followed by another byte start at `pos`.
fn is_overlong(input: &[u8], pos: usize) -> (r: bool)
    ensures
        r == overlong_run(input@, pos as int),
{
    if pos >= input.len() || input.len() - pos <= 10 {
        return false;
    }
    let mut i: usize = 0;
    while i < 10
        invariant
            i <= 10,
            pos + 10 < input.len(),
            forall|j: int| 0 <= j < i ==> continues(#[trigger] input@[pos + j]),
        decreases 10 - i,
    {
        if input[pos + i] < 0x80 {
            assert(!continues(input@[pos + i]));
            return false;
        }
        i = i + 1;
    }
    true
}

/// Reads an unsigned LEB128 integer without a bit budget.
pub fn read_leb(input: &[u8], pos: usize) -> (res: Result<(u64, usize), ParseError>)
    ensures
        outcome(res) == spec_leb(input@, pos as int),
{
    if is_overlong(input, pos) {
        return Err(ParseError::Io(ReadError::NumTooBig));
    }
    match read_unbounded_at(input, pos) {
        Ok((v, p)) => Ok((v, p)),
        Err(e) => Err(ParseError::Io(e)),
    }
}

/// Reads an unsigned LEB128 integer without a bit budget and returns its 64 bits
/// as two's complement.
pub fn read_leb_signed(input: &[u8], pos: usize) -> (res: Result<(i64, usize), ParseError>)
    ensures
        outcome(res) == spec_leb_signed(input@, pos as int),
{
    let (v, p) = read_leb(input, pos)?;
    Ok((v as i64, p))
}

/// `n` more integers after those in `acc`.
pub open spec fn spec_lebs(s: Seq<u8>, pos: int, n: nat, acc: Seq<u64>) -> Result<(Seq<u64>, int), ParseError>
    decreases n,
{
    if n == 0 {
        Ok((acc, pos))
    } else {
        match spec_leb(s, pos) {
            Err(e) => Err(e),
            Ok((v, p)) => spec_lebs(s, p, (n - 1) as nat, acc.push(v)),
        }
    }
}

proof fn lemma_lebs_move(s: Seq<u8>, pos: int, n: nat, acc: Seq<u64>)
    requires
        0 <= pos <= s.len(),
    ensures
        spec_lebs(s, pos, n, acc) matches Ok((_, p)) ==> pos <= p <= s.len(),
    decreases n,
{
    if n > 0 {
        lemma_leb_advances(s, pos);
        if let Ok((v, p)) = spec_leb(s, pos) {
            lemma_lebs_move(s, p, (n - 1) as nat, acc.push(v));
        }
    }
}

/// Reads `n` integers.
fn read_lebs(input: &[u8], pos: usize, n: u64) -> (res: Result<(Vec<u64>, usize), ParseError>)
    ensures
        match res {
            Ok((v, p)) => spec_lebs(input@, pos as int, n as nat, Seq::empty()) == Ok::<(Seq<u64>, int), ParseError>((v@, p as int)),
            Err(e) => spec_lebs(input@, pos as int, n as nat, Seq::empty()) == Err::<(Seq<u64>, int), ParseError>(e),
        },
{
    let mut values: Vec<u64> = Vec::new();
    let mut p: usize = pos;
    let mut i: u64 = 0;
    while i < n
        invariant
            i <= n,
            spec_lebs(input@, pos as int, n as nat, Seq::empty()) == spec_lebs(input@, p as int, (n - i) as nat, values@),
        decreases n - i,
    {
        let (v, q) = read_leb(input, p)?;
        values.push(v);
        p = q;
        i = i + 1;
    }
    Ok((values, p))
}

/// The bytes of an expression: everything up to and including the first `end`
/// (0x0b).
pub open spec fn spec_expression(s: Seq<u8>, pos: int) -> Result<(Seq<u8>, int), ParseError> {
    match spec_swallow_expr(s, pos) {
        Ok((_, q)) => Ok((s.subrange(pos, q), q)),
        Err(e) => Err(e),
    }
}

/// Reads the bytes of an expression, up to and including the first `end`.
pub fn parse_expression(input: &[u8], pos: usize) -> (res: Result<(Vec<u8>, usize), ParseError>)
    ensures
        match res {
            Ok((v, p)) => spec_expression(input@, pos as int) == Ok::<(Seq<u8>, int), ParseError>((v@, p as int)),
            Err(e) => spec_expression(input@, pos as int) == Err::<(Seq<u8>, int), ParseError>(e),
        },
{
    let (_, q) = swallow_expr(input, pos)?;
    proof {
        lemma_swallow_advances(input@, pos as int);
    }
    let bytes = vstd::slice::slice_to_vec(vstd::slice::slice_subrange(input, pos, q));
    Ok((bytes, q))
}

/// A section's header: its id and its declared payload length.
#[derive(Debug, Clone, Copy, PartialEq, Eq, Structural)]
pub struct Section {
    pub id: u8,
    pub len: u64,
}

/// A function type as listed: its form, which must be `func` (0x60), its
/// parameter types, its result count and one result type, which is read
/// whatever the count says.
#[derive(Debug, Clone, PartialEq, Eq)]
pub struct TypesSectionEntry {
    pub form: i64,
    pub param_count: u64,
    pub params: Vec<u64>,
    pub return_count: u64,
    pub return_type: Vec<i64>,
}

/// A listed function type as values.
pub struct TypesSectionEntryView {
    pub form: i64,
    pub param_count: u64,
    pub params: Seq<u64>,
    pub return_count: u64,
    pub return_type: Seq<i64>,
}

impl View for TypesSectionEntry {
    type V = TypesSectionEntryView;

    open spec fn view(&self) -> TypesSectionEntryView {
        TypesSectionEntryView {
            form: self.form,
            param_count: self.param_count,
            params: self.params@,
            return_count: self.return_count,
            return_type: self.return_type@,
        }
    }
}

/// The listed types section: its header, its entry count and its entries.
#[derive(Debug, Clone, PartialEq, Eq)]
pub struct TypesSection {
    pub section: Section,
    pub count: u64,
    pub entries: Vec<TypesSectionEntry>,
}

/// The listed types section as values.
pub struct TypesSectionView {
    pub section: Section,
    pub count: u64,
    pub entries: Seq<TypesSectionEntryView>,
}

impl View for TypesSection {
    type V = TypesSectionView;

    open spec fn view(&self) -> TypesSectionView {
        TypesSectionView {
            section: self.section,
            count: self.count,
            entries: self.entries@.map_values(|e: TypesSectionEntry| e@),
        }
    }
}

/// One listed function type.
pub open spec fn spec_types_entry(s: Seq<u8>, pos: int) -> Result<(TypesSectionEntryView, int), ParseError> {
    match spec_leb_signed(s, pos) {
        Err(e) => Err(e),
        Ok((form, p)) => if form != 0x60 {
            Err(ParseError::InvalidTypeForm)
        } else {
            match spec_leb(s, p) {
                Err(e) => Err(e),
                Ok((param_count, q)) => match spec_lebs(s, q, param_count as nat, Seq::empty()) {
                    Err(e) => Err(e),
                    Ok((params, r)) => match spec_leb(s, r) {
                        Err(e) => Err(e),
                        Ok((return_count, t)) => match spec_leb_signed(s, t) {
                            Err(e) => Err(e),
                            Ok((return_type, u)) => Ok(
                                (TypesSectionEntryView { form, param_count, params, return_count, return_type: seq![return_type] }, u),
                            ),
                        },
                    },
                },
            }
        },
    }
}

/// `n` more listed function types after those in `acc`.
pub open spec fn spec_types_entries(s: Seq<u8>, pos: int, n: nat, acc: Seq<TypesSectionEntryView>) -> Result<(Seq<TypesSectionEntryView>, int), ParseError>
    decreases n,
{
    if n == 0 {
        Ok((acc, pos))
    } else {
        match spec_types_entry(s, pos) {
            Err(e) => Err(e),
            Ok((v, p)) => spec_types_entries(s, p, (n - 1) as nat, acc.push(v)),
        }
    }
}

proof fn lemma_types_entry_advances(s: Seq<u8>, pos: int)
    ensures
        spec_types_entry(s, pos) matches Ok((_, q)) ==> 0 <= pos < q <= s.len(),
{
    lemma_leb_advances(s, pos);
    if let Ok((_, p)) = spec_leb_signed(s, pos) {
        lemma_leb_advances(s, p);
        if let Ok((param_count, q)) = spec_leb(s, p) {
            lemma_lebs_move(s, q, param_count as nat, Seq::empty());
            if let Ok((_, r)) = spec_lebs(s, q, param_count as nat, Seq::empty()) {
                lemma_leb_advances(s, r);
                if let Ok((_, t)) = spec_leb(s, r) {
                    lemma_leb_advances(s, t);
                }
            }
        }
    }
}

proof fn lemma_types_entries_move(s: Seq<u8>, pos: int, n: nat, acc: Seq<TypesSectionEntryView>)
    requires
        0 <= pos <= s.len(),
    ensures
        spec_types_entries(s, pos, n, acc) matches Ok((_, p)) ==> pos <= p <= s.len(),
    decreases n,
{
    if n > 0 {
        lemma_types_entry_advances(s, pos);
        if let Ok((v, p)) = spec_types_entry(s, pos) {
            lemma_types_entries_move(s, p, (n - 1) as nat, acc.push(v));
        }
    }
}

/// Lists one function type.
fn read_types_entry(input: &[u8], pos: usize) -> (res: Result<(TypesSectionEntry, usize), ParseError>)
    ensures
        outcome(res) == spec_types_entry(input@, pos as int),
{
    let (form, p) = read_leb_signed(input, pos)?;
    if form != 0x60 {
        return Err(ParseError::InvalidTypeForm);
    }
    let (param_count, q) = read_leb(input, p)?;
    let (params, r) = read_lebs(input, q, param_count)?;
    let (return_count, t) = read_leb(input, r)?;
    let (return_type, u) = read_leb_signed(input, t)?;
    let return_types: Vec<i64> = vec![return_type];
    let entry = TypesSectionEntry { form, param_count, params, return_count, return_type: return_types };
    proof {
        assert(entry@.return_type =~= seq![return_type]);
    }
    Ok((entry, u))
}

/// Lists the types section: the entry count, then the function types.
fn read_section_types(section: Section, input: &[u8], pos: usize) -> (res: Result<(TypesSection, usize), ParseError>)
    ensures
        match res {
            Ok((v, p)) => spec_types_section(section, input@, pos as int) == Ok::<(TypesSectionView, int), ParseError>((v@, p as int)),
            Err(e) => spec_types_section(section, input@, pos as int) == Err::<(TypesSectionView, int), ParseError>(e),
        },
{
    let (count, p0) = read_leb(input, pos)?;
    let mut entries: Vec<TypesSectionEntry> = Vec::new();
    let mut p: usize = p0;
    let mut i: u64 = 0;
    assert(entries@.map_values(|e: TypesSectionEntry| e@) =~= Seq::empty());
    while i < count
        invariant
            i <= count,
            spec_leb(input@, pos as int) == Ok::<(u64, int), ParseError>((count, p0 as int)),
            spec_types_entries(input@, p0 as int, count as nat, Seq::empty()) == spec_types_entries(
                input@,
                p as int,
                (count - i) as nat,
                entries@.map_values(|e: TypesSectionEntry| e@),
            ),
        decreases count - i,
    {
        let (entry, q) = read_types_entry(input, p)?;
        let ghost before = entries@;
        entries.push(entry);
        proof {
            assert(entries@.map_values(|e: TypesSectionEntry| e@) =~= before.map_values(|e: TypesSectionEntry| e@).push(entry@));
        }
        p = q;
        i = i + 1;
    }
    Ok((TypesSection { section, count, entries }, p))
}

/// The listed types section: the entry count, then the function types.
pub open spec fn spec_types_section(section: Section, s: Seq<u8>, pos: int) -> Result<(TypesSectionView, int), ParseError> {
    match spec_leb(s, pos) {
        Err(e) => Err(e),
        Ok((count, p)) => match spec_types_entries(s, p, count as nat, Seq::empty()) {
            Err(e) => Err(e),
            Ok((entries, q)) => Ok((TypesSectionView { section, count, entries }, q)),
        },
    }
}

/// A table as listed: its element type, which must be `anyfunc` (0x70), its
/// limits flag, initial size, and maximum, which is read where the flag is 1.
#[derive(Debug, Clone, Copy, PartialEq, Eq, Structural)]
pub struct TableRecord {
    pub elem_type: i64,
    pub flag: u64,
    pub initial: u64,
    pub maximum: Option<u64>,
}

impl View for TableRecord {
    type V = TableRecord;

    open spec fn view(&self) -> TableRecord {
        *self
    }
}

/// One listed table.
pub open spec fn spec_table_record(s: Seq<u8>, pos: int) -> Result<(TableRecord, int), ParseError> {
    match spec_leb_signed(s, pos) {
        Err(e) => Err(e),
        Ok((elem_type, p)) => if elem_type != 0x70 {
            Err(ParseError::CustomError(Violation::TableNotAnyfunc))
        } else {
            match spec_leb(s, p) {
                Err(e) => Err(e),
                Ok((flag, q)) => match spec_leb(s, q) {
                    Err(e) => Err(e),
                    Ok((initial, r)) => if flag == 1 {
                        match spec_leb(s, r) {
                            Err(e) => Err(e),
                            Ok((maximum, t)) => Ok((TableRecord { elem_type, flag, initial, maximum: Some(maximum) }, t)),
                        }
                    } else {
                        Ok((TableRecord { elem_type, flag, initial, maximum: None }, r))
                    },
                },
            }
        },
    }
}

/// `n` more listed tables after those in `acc`.
pub open spec fn spec_table_records(s: Seq<u8>, pos: int, n: nat, acc: Seq<TableRecord>) -> Result<(Seq<TableRecord>, int), ParseError>
    decreases n,
{
    if n == 0 {
        Ok((acc, pos))
    } else {
        match spec_table_record(s, pos) {
            Err(e) => Err(e),
            Ok((v, p)) => spec_table_records(s, p, (n - 1) as nat, acc.push(v)),
        }
    }
}

proof fn lemma_table_record_advances(s: Seq<u8>, pos: int)
    ensures
        spec_table_record(s, pos) matches Ok((_, q)) ==> 0 <= pos < q <= s.len(),
{
    lemma_leb_advances(s, pos);
    if let Ok((_, p)) = spec_leb_signed(s, pos) {
        lemma_leb_advances(s, p);
        if let Ok((_, q)) = spec_leb(s, p) {
            lemma_leb_advances(s, q);
            if let Ok((_, r)) = spec_leb(s, q) {
                lemma_leb_advances(s, r);
            }
        }
    }
}

proof fn lemma_table_records_move(s: Seq<u8>, pos: int, n: nat, acc: Seq<TableRecord>)
    requires
        0 <= pos <= s.len(),
    ensures
        spec_table_records(s, pos, n, acc) matches Ok((_, p)) ==> pos <= p <= s.len(),
    decreases n,
{
    if n > 0 {
        lemma_table_record_advances(s, pos);
        if let Ok((v, p)) = spec_table_record(s, pos) {
            lemma_table_records_move(s, p, (n - 1) as nat, acc.push(v));
        }
    }
}

/// Lists one table.
fn read_table_record(input: &[u8], pos: usize) -> (res: Result<(TableRecord, usize), ParseError>)
    ensures
        outcome(res) == spec_table_record(input@, pos as int),
{
    let (elem_type, p) = read_leb_signed(input, pos)?;
    if elem_type != 0x70 {
        return Err(ParseError::CustomError(Violation::TableNotAnyfunc));
    }
    let (flag, q) = read_leb(input, p)?;
    let (initial, r) = read_leb(input, q)?;
    if flag == 1 {
        let (maximum, t) = read_leb(input, r)?;
        Ok((TableRecord { elem_type, flag, initial, maximum: Some(maximum) }, t))
    } else {
        Ok((TableRecord { elem_type, flag, initial, maximum: None }, r))
    }
}

/// A listed table record holds the fields read one after another from its
/// bytes: the element type, which is `anyfunc` (0x70), then the flag, then
/// the initial size; it has a maximum exactly when the flag is 1, and then
/// that maximum is the number read after the initial size; the record ends
/// after the last field read.
pub proof fn lemma_table_record(s: Seq<u8>, pos: int)
    ensures
        spec_table_record(s, pos) matches Ok((rec, end)) ==> (spec_leb_signed(s, pos) matches Ok((elem_type, p)) && (
        elem_type == 0x70 && rec.elem_type == elem_type && (spec_leb(s, p) matches Ok((flag, q)) && (rec.flag == flag && (
        spec_leb(s, q) matches Ok((initial, r)) && (rec.initial == initial && (rec.maximum is Some <==> flag == 1) && (flag
            == 1 ==> (spec_leb(s, r) matches Ok((maximum, t)) && rec.maximum == Some(maximum) && end == t)) && (flag != 1
            ==> end == r))))))),
{
}

/// Lists the tables of the table section: the entry count, then the tables.
fn read_section_table(input: &[u8], pos: usize) -> (res: Result<(Vec<TableRecord>, usize), ParseError>)
    ensures
        match res {
            Ok((v, p)) => spec_table_section(input@, pos as int) == Ok::<(Seq<TableRecord>, int), ParseError>((v@, p as int)),
            Err(e) => spec_table_section(input@, pos as int) == Err::<(Seq<TableRecord>, int), ParseError>(e),
        },
{
    let (count, p0) = read_leb(input, pos)?;
    let mut records: Vec<TableRecord> = Vec::new();
    let mut p: usize = p0;
    let mut i: u64 = 0;
    while i < count
        invariant
            i <= count,
            spec_leb(input@, pos as int) == Ok::<(u64, int), ParseError>((count, p0 as int)),
            spec_table_records(input@, p0 as int, count as nat, Seq::empty()) == spec_table_records(
                input@,
                p as int,
                (count - i) as nat,
                records@,
            ),
        decreases count - i,
    {
        let (record, q) = read_table_record(input, p)?;
        records.push(record);
        p = q;
        i = i + 1;
    }
    Ok((records, p))
}

/// The listed table section: the entry count, then the tables.
pub open spec fn spec_table_section(s: Seq<u8>, pos: int) -> Result<(Seq<TableRecord>, int), ParseError> {
    match spec_leb(s, pos) {
        Err(e) => Err(e),
        Ok((count, p)) => spec_table_records(s, p, count as nat, Seq::empty()),
    }
}

/// The listed functions section: the entry count, then a type index for each.
pub open spec fn spec_functions_section(s: Seq<u8>, pos: int) -> Result<(Seq<u64>, int), ParseError> {
    match spec_leb(s, pos) {
        Err(e) => Err(e),
        Ok((count, p)) => spec_lebs(s, p, count as nat, Seq::empty()),
    }
}

/// Lists the type indices of the functions section.
fn read_section_functions(input: &[u8], pos: usize) -> (res: Result<(Vec<u64>, usize), ParseError>)
    ensures
        match res {
            Ok((v, p)) => spec_functions_section(input@, pos as int) == Ok::<(Seq<u64>, int), ParseError>((v@, p as int)),
            Err(e) => spec_functions_section(input@, pos as int) == Err::<(Seq<u64>, int), ParseError>(e),
        },
{
    let (count, p) = read_leb(input, pos)?;
    read_lebs(input, p, count)
}

/// An export as listed: its field name, its kind byte and its index.
#[derive(Debug, Clone, PartialEq, Eq)]
pub struct ExportRecord {
    pub field: String,
    pub external_type: u8,
    pub index: u64,
}

/// A listed export as values.
pub struct ExportRecordView {
    pub field: Seq<char>,
    pub external_type: u8,
    pub index: u64,
}

impl View for ExportRecord {
    type V = ExportRecordView;

    open spec fn view(&self) -> ExportRecordView {
        ExportRecordView { field: self.field@, external_type: self.external_type, index: self.index }
    }
}

/// One listed export: the name's length, the name's bytes (as many as remain,
/// where fewer do), which must be UTF-8, the kind as one byte, the index.
pub open spec fn spec_export_record(s: Seq<u8>, pos: int) -> Result<(ExportRecordView, int), ParseError> {
    match spec_leb(s, pos) {
        Err(e) => Err(e),
        Ok((len, p)) => {
            let end = if p + len <= s.len() {
                p + len
            } else {
                s.len() as int
            };
            let bytes = s.subrange(p, end);
            if !valid_utf8(bytes) {
                Err(ParseError::Io(ReadError::InvalidData))
            } else {
                match spec_byte(s, end) {
                    Err(e) => Err(e),
                    Ok((external_type, q)) => match spec_leb(s, q) {
                        Err(e) => Err(e),
                        Ok((index, r)) => Ok((ExportRecordView { field: decode_utf8(bytes), external_type, index }, r)),
                    },
                }
            }
        },
    }
}

/// `n` more listed exports after those in `acc`.
pub open spec fn spec_export_records(s: Seq<u8>, pos: int, n: nat, acc: Seq<ExportRecordView>) -> Result<(Seq<ExportRecordView>, int), ParseError>
    decreases n,
{
    if n == 0 {
        Ok((acc, pos))
    } else {
        match spec_export_record(s, pos) {
            Err(e) => Err(e),
            Ok((v, p)) => spec_export_records(s, p, (n - 1) as nat, acc.push(v)),
        }
    }
}

proof fn lemma_export_record_advances(s: Seq<u8>, pos: int)
    ensures
        spec_export_record(s, pos) matches Ok((_, q)) ==> 0 <= pos < q <= s.len(),
{
    lemma_leb_advances(s, pos);
    if let Ok((len, p)) = spec_leb(s, pos) {
        let end = if p + len <= s.len() {
            p + len
        } else {
            s.len() as int
        };
        if let Ok((_, q)) = spec_byte(s, end) {
            lemma_leb_advances(s, q);
        }
    }
}

proof fn lemma_export_records_move(s: Seq<u8>, pos: int, n: nat, acc: Seq<ExportRecordView>)
    requires
        0 <= pos <= s.len(),
    ensures
        spec_export_records(s, pos, n, acc) matches Ok((_, p)) ==> pos <= p <= s.len(),
    decreases n,
{
    if n > 0 {
        lemma_export_record_advances(s, pos);
        if let Ok((v, p)) = spec_export_record(s, pos) {
            lemma_export_records_move(s, p, (n - 1) as nat, acc.push(v));
        }
    }
}

/// Lists one export.
fn read_export_record(input: &[u8], pos: usize) -> (res: Result<(ExportRecord, usize), ParseError>)
    ensures
        outcome(res) == spec_export_record(input@, pos as int),
{
    let (len, p) = read_leb(input, pos)?;
    proof {
        lemma_leb_advances(input@, pos as int);
    }
    let end: usize = if len as u128 <= (input.len() - p) as u128 {
        p + len as usize
    } else {
        input.len()
    };
    let field = match utf8_string(vstd::slice::slice_subrange(input, p, end)) {
        Some(t) => t,
        None => {
            return Err(ParseError::Io(ReadError::InvalidData));
        },
    };
    let (external_type, q) = read_byte(input, end)?;
    let (index, r) = read_leb(input, q)?;
    Ok((ExportRecord { field, external_type, index }, r))
}

/// Lists the exports of the exports section: the entry count, then the exports.
fn read_section_exports(input: &[u8], pos: usize) -> (res: Result<(Vec<ExportRecord>, usize), ParseError>)
    ensures
        match res {
            Ok((v, p)) => spec_exports_section(input@, pos as int) == Ok::<(Seq<ExportRecordView>, int), ParseError>(
                (v@.map_values(|e: ExportRecord| e@), p as int),
            ),
            Err(e) => spec_exports_section(input@, pos as int) == Err::<(Seq<ExportRecordView>, int), ParseError>(e),
        },
{
    let (count, p0) = read_leb(input, pos)?;
    let mut records: Vec<ExportRecord> = Vec::new();
    let mut p: usize = p0;
    let mut i: u64 = 0;
    assert(records@.map_values(|e: ExportRecord| e@) =~= Seq::empty());
    while i < count
        invariant
            i <= count,
            spec_leb(input@, pos as int) == Ok::<(u64, int), ParseError>((count, p0 as int)),
            spec_export_records(input@, p0 as int, count as nat, Seq::empty()) == spec_export_records(
                input@,
                p as int,
                (count - i) as nat,
                records@.map_values(|e: ExportRecord| e@),
            ),
        decreases count - i,
    {
        let (record, q) = read_export_record(input, p)?;
        let ghost before = records@;
        records.push(record);
        proof {
            assert(records@.map_values(|e: ExportRecord| e@) =~= before.map_values(|e: ExportRecord| e@).push(record@));
        }
        p = q;
        i = i + 1;
    }
    Ok((records, p))
}

/// The listed exports section: the entry count, then the exports.
pub open spec fn spec_exports_section(s: Seq<u8>, pos: int) -> Result<(Seq<ExportRecordView>, int), ParseError> {
    match spec_leb(s, pos) {
        Err(e) => Err(e),
        Ok((count, p)) => spec_export_records(s, p, count as nat, Seq::empty()),
    }
}

/// An element segment as listed: its table index, the bytes of its offset
/// expression and its function indices.
#[derive(Debug, Clone, PartialEq, Eq)]
pub struct ElementRecord {
    pub index: u64,
    pub offset: Vec<u8>,
    pub function_indices: Vec<u64>,
}

/// A listed element segment as values.
pub struct ElementRecordView {
    pub index: u64,
    pub offset: Seq<u8>,
    pub function_indices: Seq<u64>,
}

impl View for ElementRecord {
    type V = ElementRecordView;

    open spec fn view(&self) -> ElementRecordView {
        ElementRecordView { index: self.index, offset: self.offset@, function_indices: self.function_indices@ }
    }
}

/// One listed element segment: the table index, the offset expression, the
/// count of function indices, then the indices.
pub open spec fn spec_element_record(s: Seq<u8>, pos: int) -> Result<(ElementRecordView, int), ParseError> {
    match spec_leb(s, pos) {
        Err(e) => Err(e),
        Ok((index, p)) => match spec_expression(s, p) {
            Err(e) => Err(e),
            Ok((offset, q)) => match spec_leb(s, q) {
                Err(e) => Err(e),
                Ok((num, r)) => match spec_lebs(s, r, num as nat, Seq::empty()) {
                    Err(e) => Err(e),
                    Ok((function_indices, t)) => Ok((ElementRecordView { index, offset, function_indices }, t)),
                },
            },
        },
    }
}

/// `n` more listed element segments after those in `acc`.
pub open spec fn spec_element_records(s: Seq<u8>, pos: int, n: nat, acc: Seq<ElementRecordView>) -> Result<(Seq<ElementRecordView>, int), ParseError>
    decreases n,
{
    if n == 0 {
        Ok((acc, pos))
    } else {
        match spec_element_record(s, pos) {
            Err(e) => Err(e),
            Ok((v, p)) => spec_element_records(s, p, (n - 1) as nat, acc.push(v)),
        }
    }
}

proof fn lemma_element_record_advances(s: Seq<u8>, pos: int)
    ensures
        spec_element_record(s, pos) matches Ok((_, q)) ==> 0 <= pos < q <= s.len(),
{
    lemma_leb_advances(s, pos);
    if let Ok((_, p)) = spec_leb(s, pos) {
        lemma_swallow_advances(s, p);
        if let Ok((_, q)) = spec_expression(s, p) {
            lemma_leb_advances(s, q);
            if let Ok((num, r)) = spec_leb(s, q) {
                lemma_lebs_move(s, r, num as nat, Seq::empty());
            }
        }
    }
}

proof fn lemma_element_records_move(s: Seq<u8>, pos: int, n: nat, acc: Seq<ElementRecordView>)
    requires
        0 <= pos <= s.len(),
    ensures
        spec_element_records(s, pos, n, acc) matches Ok((_, p)) ==> pos <= p <= s.len(),
    decreases n,
{
    if n > 0 {
        lemma_element_record_advances(s, pos);
        if let Ok((v, p)) = spec_element_record(s, pos) {
            lemma_element_records_move(s, p, (n - 1) as nat, acc.push(v));
        }
    }
}

/// Lists one element segment.
fn read_element_record(input: &[u8], pos: usize) -> (res: Result<(ElementRecord, usize), ParseError>)
    ensures
        outcome(res) == spec_element_record(input@, pos as int),
{
    let (index, p) = read_leb(input, pos)?;
    let (offset, q) = parse_expression(input, p)?;
    let (num, r) = read_leb(input, q)?;
    let (function_indices, t) = read_lebs(input, r, num)?;
    Ok((ElementRecord { index, offset, function_indices }, t))
}

/// Lists the segments of the elements section: the entry count, then the
/// segments.
fn read_section_elements(input: &[u8], pos: usize) -> (res: Result<(Vec<ElementRecord>, usize), ParseError>)
    ensures
        match res {
            Ok((v, p)) => spec_elements_section(input@, pos as int) == Ok::<(Seq<ElementRecordView>, int), ParseError>(
                (v@.map_values(|e: ElementRecord| e@), p as int),
            ),
            Err(e) => spec_elements_section(input@, pos as int) == Err::<(Seq<ElementRecordView>, int), ParseError>(e),
        },
{
    let (count, p0) = read_leb(input, pos)?;
    let mut records: Vec<ElementRecord> = Vec::new();
    let mut p: usize = p0;
    let mut i: u64 = 0;
    assert(records@.map_values(|e: ElementRecord| e@) =~= Seq::empty());
    while i < count
        invariant
            i <= count,
            spec_leb(input@, pos as int) == Ok::<(u64, int), ParseError>((count, p0 as int)),
            spec_element_records(input@, p0 as int, count as nat, Seq::empty()) == spec_element_records(
                input@,
                p as int,
                (count - i) as nat,
                records@.map_values(|e: ElementRecord| e@),
            ),
        decreases count - i,
    {
        let (record, q) = read_element_record(input, p)?;
        let ghost before = records@;
        records.push(record);
        proof {
            assert(records@.map_values(|e: ElementRecord| e@) =~= before.map_values(|e: ElementRecord| e@).push(record@));
        }
        p = q;
        i = i + 1;
    }
    Ok((records, p))
}

/// The listed elements section: the entry count, then the segments.
pub open spec fn spec_elements_section(s: Seq<u8>, pos: int) -> Result<(Seq<ElementRecordView>, int), ParseError> {
    match spec_leb(s, pos) {
        Err(e) => Err(e),
        Ok((count, p)) => spec_element_records(s, p, count as nat, Seq::empty()),
    }
}

/// A function body as listed: its size, its local groups (each a count and a
/// type code), and the bytes of its code up to the first `end` byte.
#[derive(Debug, Clone, PartialEq, Eq)]
pub struct CodeRecord {
    pub body_size: u64,
    pub locals: Vec<(u64, u64)>,
    pub code: Vec<u8>,
}

/// A listed function body as values.
pub struct CodeRecordView {
    pub body_size: u64,
    pub locals: Seq<(u64, u64)>,
    pub code: Seq<u8>,
}

impl View for CodeRecord {
    type V = CodeRecordView;

    open spec fn view(&self) -> CodeRecordView {
        CodeRecordView { body_size: self.body_size, locals: self.locals@, code: self.code@ }
    }
}

/// `n` more local groups after those in `acc`: each a count and a type code.
pub open spec fn spec_local_groups(s: Seq<u8>, pos: int, n: nat, acc: Seq<(u64, u64)>) -> Result<(Seq<(u64, u64)>, int), ParseError>
    decreases n,
{
    if n == 0 {
        Ok((acc, pos))
    } else {
        match spec_leb(s, pos) {
            Err(e) => Err(e),
            Ok((count, p)) => match spec_leb(s, p) {
                Err(e) => Err(e),
                Ok((code, q)) => spec_local_groups(s, q, (n - 1) as nat, acc.push((count, code))),
            },
        }
    }
}

proof fn lemma_local_groups_move(s: Seq<u8>, pos: int, n: nat, acc: Seq<(u64, u64)>)
    requires
        0 <= pos <= s.len(),
    ensures
        spec_local_groups(s, pos, n, acc) matches Ok((_, p)) ==> pos <= p <= s.len(),
    decreases n,
{
    if n > 0 {
        lemma_leb_advances(s, pos);
        if let Ok((count, p)) = spec_leb(s, pos) {
            lemma_leb_advances(s, p);
            if let Ok((code, q)) = spec_leb(s, p) {
                lemma_local_groups_move(s, q, (n - 1) as nat, acc.push((count, code)));
            }
        }
    }
}

/// One listed function body: its size, the count of local groups, the groups,
/// then the code up to the first `end` byte.
pub open spec fn spec_code_record(s: Seq<u8>, pos: int) -> Result<(CodeRecordView, int), ParseError> {
    match spec_leb(s, pos) {
        Err(e) => Err(e),
        Ok((body_size, p)) => match spec_leb(s, p) {
            Err(e) => Err(e),
            Ok((local_count, q)) => match spec_local_groups(s, q, local_count as nat, Seq::empty()) {
                Err(e) => Err(e),
                Ok((locals, r)) => match spec_expression(s, r) {
                    Err(e) => Err(e),
                    Ok((code, t)) => Ok((CodeRecordView { body_size, locals, code }, t)),
                },
            },
        },
    }
}

/// `n` more listed function bodies after those in `acc`.
pub open spec fn spec_code_records(s: Seq<u8>, pos: int, n: nat, acc: Seq<CodeRecordView>) -> Result<(Seq<CodeRecordView>, int), ParseError>
    decreases n,
{
    if n == 0 {
        Ok((acc, pos))
    } else {
        match spec_code_record(s, pos) {
            Err(e) => Err(e),
            Ok((v, p)) => spec_code_records(s, p, (n - 1) as nat, acc.push(v)),
        }
    }
}

proof fn lemma_code_record_advances(s: Seq<u8>, pos: int)
    ensures
        spec_code_record(s, pos) matches Ok((_, q)) ==> 0 <= pos < q <= s.len(),
{
    lemma_leb_advances(s, pos);
    if let Ok((_, p)) = spec_leb(s, pos) {
        lemma_leb_advances(s, p);
        if let Ok((local_count, q)) = spec_leb(s, p) {
            lemma_local_groups_move(s, q, local_count as nat, Seq::empty());
            if let Ok((_, r)) = spec_local_groups(s, q, local_count as nat, Seq::empty()) {
                lemma_swallow_advances(s, r);
            }
        }
    }
}

proof fn lemma_code_records_move(s: Seq<u8>, pos: int, n: nat, acc: Seq<CodeRecordView>)
    requires
        0 <= pos <= s.len(),
    ensures
        spec_code_records(s, pos, n, acc) matches Ok((_, p)) ==> pos <= p <= s.len(),
    decreases n,
{
    if n > 0 {
        lemma_code_record_advances(s, pos);
        if let Ok((v, p)) = spec_code_record(s, pos) {
            lemma_code_records_move(s, p, (n - 1) as nat, acc.push(v));
        }
    }
}

/// Lists one function body.
#[verifier::loop_isolation(false)]
fn read_code_record(input: &[u8], pos: usize) -> (res: Result<(CodeRecord, usize), ParseError>)
    ensures
        outcome(res) == spec_code_record(input@, pos as int),
{
    let (body_size, p) = read_leb(input, pos)?;
    let (local_count, q) = read_leb(input, p)?;
    let mut locals: Vec<(u64, u64)> = Vec::new();
    let mut r: usize = q;
    let mut i: u64 = 0;
    while i < local_count
        invariant
            i <= local_count,
            spec_local_groups(input@, q as int, local_count as nat, Seq::empty()) == spec_local_groups(
                input@,
                r as int,
                (local_count - i) as nat,
                locals@,
            ),
        decreases local_count - i,
    {
        let (count, r1) = read_leb(input, r)?;
        let (code, r2) = read_leb(input, r1)?;
        locals.push((count, code));
        r = r2;
        i = i + 1;
    }
    let (code, t) = parse_expression(input, r)?;
    Ok((CodeRecord { body_size, locals, code }, t))
}

/// Lists the bodies of the code section: the entry count, then the bodies.
fn read_section_code(input: &[u8], pos: usize) -> (res: Result<(Vec<CodeRecord>, usize), ParseError>)
    ensures
        match res {
            Ok((v, p)) => spec_code_section(input@, pos as int) == Ok::<(Seq<CodeRecordView>, int), ParseError>(
                (v@.map_values(|e: CodeRecord| e@), p as int),
            ),
            Err(e) => spec_code_section(input@, pos as int) == Err::<(Seq<CodeRecordView>, int), ParseError>(e),
        },
{
    let (count, p0) = read_leb(input, pos)?;
    let mut records: Vec<CodeRecord> = Vec::new();
    let mut p: usize = p0;
    let mut i: u64 = 0;
    assert(records@.map_values(|e: CodeRecord| e@) =~= Seq::empty());
    while i < count
        invariant
            i <= count,
            spec_leb(input@, pos as int) == Ok::<(u64, int), ParseError>((count, p0 as int)),
            spec_code_records(input@, p0 as int, count as nat, Seq::empty()) == spec_code_records(
                input@,
                p as int,
                (count - i) as nat,
                records@.map_values(|e: CodeRecord| e@),
            ),
        decreases count - i,
    {
        let (record, q) = read_code_record(input, p)?;
        let ghost before = records@;
        records.push(record);
        proof {
            assert(records@.map_values(|e: CodeRecord| e@) =~= before.map_values(|e: CodeRecord| e@).push(record@));
        }
        p = q;
        i = i + 1;
    }
    Ok((records, p))
}

/// The listed code section: the entry count, then the bodies.
pub open spec fn spec_code_section(s: Seq<u8>, pos: int) -> Result<(Seq<CodeRecordView>, int), ParseError> {
    match spec_leb(s, pos) {
        Err(e) => Err(e),
        Ok((count, p)) => spec_code_records(s, p, count as nat, Seq::empty()),
    }
}

/// What the listing reads of one section.
#[derive(Debug, Clone, PartialEq, Eq)]
pub enum SectionDump {
    Types(TypesSection),
    Imports(Section),
    Functions(Section, Vec<u64>),
    Table(Section, Vec<TableRecord>),
    Memory(Section),
    Global(Section),
    Exports(Section, Vec<ExportRecord>),
    Start(Section),
    Elements(Section, Vec<ElementRecord>),
    Code(Section, Vec<CodeRecord>),
    Data(Section),
}

/// A listed section as values.
pub enum SectionDumpView {
    Types(TypesSectionView),
    Imports(Section),
    Functions(Section, Seq<u64>),
    Table(Section, Seq<TableRecord>),
    Memory(Section),
    Global(Section),
    Exports(Section, Seq<ExportRecordView>),
    Start(Section),
    Elements(Section, Seq<ElementRecordView>),
    Code(Section, Seq<CodeRecordView>),
    Data(Section),
}

impl View for SectionDump {
    type V = SectionDumpView;

    open spec fn view(&self) -> SectionDumpView {
        match self {
            SectionDump::Types(t) => SectionDumpView::Types(t@),
            SectionDump::Imports(h) => SectionDumpView::Imports(*h),
            SectionDump::Functions(h, v) => SectionDumpView::Functions(*h, v@),
            SectionDump::Table(h, v) => SectionDumpView::Table(*h, v@),
            SectionDump::Memory(h) => SectionDumpView::Memory(*h),
            SectionDump::Global(h) => SectionDumpView::Global(*h),
            SectionDump::Exports(h, v) => SectionDumpView::Exports(*h, v@.map_values(|e: ExportRecord| e@)),
            SectionDump::Start(h) => SectionDumpView::Start(*h),
            SectionDump::Elements(h, v) => SectionDumpView::Elements(*h, v@.map_values(|e: ElementRecord| e@)),
            SectionDump::Code(h, v) => SectionDumpView::Code(*h, v@.map_values(|e: CodeRecord| e@)),
            SectionDump::Data(h) => SectionDumpView::Data(*h),
        }
    }
}

/// A listed section whose contents are read from `s` at `pos`, given its header.
#[verifier::opaque]
pub open spec fn spec_section_contents(h: Section, s: Seq<u8>, pos: int) -> Result<(SectionDumpView, int), ParseError> {
    if h.id == 1 {
        match spec_types_section(h, s, pos) {
            Ok((t, q)) => Ok((SectionDumpView::Types(t), q)),
            Err(e) => Err(e),
        }
    } else if h.id == 2 {
        Ok((SectionDumpView::Imports(h), pos))
    } else if h.id == 3 {
        match spec_functions_section(s, pos) {
            Ok((v, q)) => Ok((SectionDumpView::Functions(h, v), q)),
            Err(e) => Err(e),
        }
    } else if h.id == 4 {
        match spec_table_section(s, pos) {
            Ok((v, q)) => Ok((SectionDumpView::Table(h, v), q)),
            Err(e) => Err(e),
        }
    } else if h.id == 5 {
        Ok((SectionDumpView::Memory(h), pos))
    } else if h.id == 6 {
        Ok((SectionDumpView::Global(h), pos))
    } else if h.id == 7 {
        match spec_exports_section(s, pos) {
            Ok((v, q)) => Ok((SectionDumpView::Exports(h, v), q)),
            Err(e) => Err(e),
        }
    } else if h.id == 8 {
        Ok((SectionDumpView::Start(h), pos))
    } else if h.id == 9 {
        match spec_elements_section(s, pos) {
            Ok((v, q)) => Ok((SectionDumpView::Elements(h, v), q)),
            Err(e) => Err(e),
        }
    } else if h.id == 10 {
        match spec_code_section(s, pos) {
            Ok((v, q)) => Ok((SectionDumpView::Code(h, v), q)),
            Err(e) => Err(e),
        }
    } else if h.id == 11 {
        Ok((SectionDumpView::Data(h), pos))
    } else {
        Err(ParseError::UnknownSectionId(h.id as u64))
    }
}

/// One listed section: its id as one byte, its length, then what the listing
/// reads of its contents.
pub open spec fn spec_section(s: Seq<u8>, pos: int) -> Result<(SectionDumpView, int), ParseError> {
    match spec_byte(s, pos) {
        Err(e) => Err(e),
        Ok((id, p)) => match spec_leb(s, p) {
            Err(e) => Err(e),
            Ok((len, q)) => spec_section_contents(Section { id, len }, s, q),
        },
    }
}

/// The id of the kind of section that a listed section is.
pub open spec fn dump_kind(d: SectionDumpView) -> u8 {
    match d {
        SectionDumpView::Types(_) => 1,
        SectionDumpView::Imports(_) => 2,
        SectionDumpView::Functions(_, _) => 3,
        SectionDumpView::Table(_, _) => 4,
        SectionDumpView::Memory(_) => 5,
        SectionDumpView::Global(_) => 6,
        SectionDumpView::Exports(_, _) => 7,
        SectionDumpView::Start(_) => 8,
        SectionDumpView::Elements(_, _) => 9,
        SectionDumpView::Code(_, _) => 10,
        SectionDumpView::Data(_) => 11,
    }
}

/// The header that a listed section carries.
pub open spec fn dump_header(d: SectionDumpView) -> Section {
    match d {
        SectionDumpView::Types(t) => t.section,
        SectionDumpView::Imports(h) => h,
        SectionDumpView::Functions(h, _) => h,
        SectionDumpView::Table(h, _) => h,
        SectionDumpView::Memory(h) => h,
        SectionDumpView::Global(h) => h,
        SectionDumpView::Exports(h, _) => h,
        SectionDumpView::Start(h) => h,
        SectionDumpView::Elements(h, _) => h,
        SectionDumpView::Code(h, _) => h,
        SectionDumpView::Data(h) => h,
    }
}

/// A listed section is of the kind that its id byte names (1 types, 2
/// imports, 3 functions, 4 table, 5 memory, 6 global, 7 exports, 8 start, 9
/// elements, 10 code, 11 data) and carries that id and the length read after
/// it; an id of 0 or above 11 is refused with that id.
pub proof fn lemma_section_kind(s: Seq<u8>, pos: int)
    ensures
        spec_section(s, pos) matches Ok((d, q)) ==> (0 <= pos < s.len() && dump_kind(d) == s[pos] && dump_header(d).id
            == s[pos] && (spec_leb(s, pos + 1) matches Ok((len, r)) && dump_header(d).len == len)),
        0 <= pos < s.len() && (s[pos] == 0 || s[pos] > 11) && spec_leb(s, pos + 1) is Ok ==> spec_section(s, pos) == Err::<
            (SectionDumpView, int),
            ParseError,
        >(ParseError::UnknownSectionId(s[pos] as u64)),
{
    reveal(spec_section_contents);
}

/// A listed export holds the kind byte that follows its name and the index
/// read after that byte.
pub proof fn lemma_export_record(s: Seq<u8>, pos: int)
    ensures
        spec_export_record(s, pos) matches Ok((e, q)) ==> (spec_leb(s, pos) matches Ok((len, p)) && ({
            let end = if p + len <= s.len() { p + len } else { s.len() as int };
            0 <= end < s.len() && e.external_type == s[end] && (spec_leb(s, end + 1) matches Ok((index, r)) && e.index
                == index && q == r)
        })),
{
}

/// Listing a section moves forward and stays within the input.
pub proof fn lemma_section_advances(s: Seq<u8>, pos: int)
    ensures
        spec_section(s, pos) matches Ok((_, q)) ==> 0 <= pos < q <= s.len(),
{
    reveal(spec_section_contents);
    if let Ok((id, p)) = spec_byte(s, pos) {
        lemma_leb_advances(s, p);
        if let Ok((len, q)) = spec_leb(s, p) {
            lemma_leb_advances(s, q);
            if let Ok((count, r)) = spec_leb(s, q) {
                lemma_types_entries_move(s, r, count as nat, Seq::empty());
                lemma_lebs_move(s, r, count as nat, Seq::empty());
                lemma_table_records_move(s, r, count as nat, Seq::empty());
                lemma_export_records_move(s, r, count as nat, Seq::empty());
                lemma_element_records_move(s, r, count as nat, Seq::empty());
                lemma_code_records_move(s, r, count as nat, Seq::empty());
            }
        }
    }
}

/// Lists one section: its id as one byte, its length, then what the listing
/// reads of its contents.
fn read_section(input: &[u8], pos: usize) -> (res: Result<(SectionDump, usize), ParseError>)
    ensures
        outcome(res) == spec_section(input@, pos as int),
{
    let (id, p) = read_byte(input, pos)?;
    let (len, q) = read_leb(input, p)?;
    let h = Section { id, len };
    proof {
        reveal(spec_section_contents);
    }
    if id == 1 {
        let (t, r) = read_section_types(h, input, q)?;
        Ok((SectionDump::Types(t), r))
    } else if id == 2 {
        Ok((SectionDump::Imports(h), q))
    } else if id == 3 {
        let (v, r) = read_section_functions(input, q)?;
        Ok((SectionDump::Functions(h, v), r))
    } else if id == 4 {
        let (v, r) = read_section_table(input, q)?;
        Ok((SectionDump::Table(h, v), r))
    } else if id == 5 {
        Ok((SectionDump::Memory(h), q))
    } else if id == 6 {
        Ok((SectionDump::Global(h), q))
    } else if id == 7 {
        let (v, r) = read_section_exports(input, q)?;
        Ok((SectionDump::Exports(h, v), r))
    } else if id == 8 {
        Ok((SectionDump::Start(h), q))
    } else if id == 9 {
        let (v, r) = read_section_elements(input, q)?;
        Ok((SectionDump::Elements(h, v), r))
    } else if id == 10 {
        let (v, r) = read_section_code(input, q)?;
        Ok((SectionDump::Code(h, v), r))
    } else if id == 11 {
        Ok((SectionDump::Data(h), q))
    } else {
        Err(ParseError::UnknownSectionId(id as u64))
    }
}

/// Sections listed from `pos` on, after those in `acc`, until the input ends.
pub open spec fn spec_sections(s: Seq<u8>, pos: int, acc: Seq<SectionDumpView>) -> Result<Seq<SectionDumpView>, ParseError>
    decreases s.len() - pos,
{
    if pos < 0 || pos >= s.len() {
        Ok(acc)
    } else {
        match spec_section(s, pos) {
            Err(e) => Err(e),
            Ok((d, q)) => {
                proof {
                    lemma_section_advances(s, pos);
                }
                spec_sections(s, q, acc.push(d))
            },
        }
    }
}

/// A listing of a whole module: the magic number and the version, each four bytes
/// little-endian (neither is checked), and its sections.
#[derive(Debug, Clone, PartialEq, Eq)]
pub struct ProgramDump {
    pub magic_number: u32,
    pub version_number: u32,
    pub sections: Vec<SectionDump>,
}

/// A listing as values.
pub struct ProgramDumpView {
    pub magic_number: u32,
    pub version_number: u32,
    pub sections: Seq<SectionDumpView>,
}

impl View for ProgramDump {
    type V = ProgramDumpView;

    open spec fn view(&self) -> ProgramDumpView {
        ProgramDumpView {
            magic_number: self.magic_number,
            version_number: self.version_number,
            sections: self.sections@.map_values(|d: SectionDump| d@),
        }
    }
}

/// The listing of a whole module.
pub open spec fn spec_dump(s: Seq<u8>) -> Result<ProgramDumpView, ParseError> {
    match spec_u32_le(s, 0) {
        Err(e) => Err(e),
        Ok((magic_number, p)) => match spec_u32_le(s, p) {
            Err(e) => Err(e),
            Ok((version_number, q)) => match spec_sections(s, q, Seq::empty()) {
                Err(e) => Err(e),
                Ok(sections) => Ok(ProgramDumpView { magic_number, version_number, sections }),
            },
        },
    }
}

/// Something that can list a program's structure.
pub trait ProgramProvider {
    /// Lists the program's structure.
    fn provide(&self) -> Result<ProgramDump, ParseError>;
}

/// A module held as bytes.
pub struct BinaryProvider {
    pub buffer: Vec<u8>,
}

impl BinaryProvider {
    /// A provider for the given bytes.
    pub fn new(buffer: Vec<u8>) -> (r: Self)
        ensures
            r.buffer@ == buffer@,
    {
        BinaryProvider { buffer }
    }

    /// Lists the module: the magic number, the version, then sections until the
    /// bytes run out.
    #[verifier::loop_isolation(false)]
    pub fn dump(&self) -> (res: Result<ProgramDump, ParseError>)
        ensures
            match res {
                Ok(d) => spec_dump(self.buffer@) == Ok::<ProgramDumpView, ParseError>(d@),
                Err(e) => spec_dump(self.buffer@) == Err::<ProgramDumpView, ParseError>(e),
            },
    {
        let input = self.buffer.as_slice();
        let (magic_number, p) = read_u32_le(input, 0)?;
        let (version_number, q) = read_u32_le(input, p)?;
        let mut sections: Vec<SectionDump> = Vec::new();
        let mut r: usize = q;
        assert(sections@.map_values(|d: SectionDump| d@) =~= Seq::empty());
        while r < input.len()
            invariant
                q <= r,
                spec_sections(input@, q as int, Seq::empty()) == spec_sections(
                    input@,
                    r as int,
                    sections@.map_values(|d: SectionDump| d@),
                ),
            decreases input.len() - r,
        {
            let (d, t) = read_section(input, r)?;
            proof {
                lemma_section_advances(input@, r as int);
            }
            let ghost before = sections@;
            sections.push(d);
            proof {
                assert(sections@.map_values(|x: SectionDump| x@) =~= before.map_values(|x: SectionDump| x@).push(d@));
            }
            r = t;
        }
        Ok(ProgramDump { magic_number, version_number, sections })
    }
}

impl ProgramProvider for BinaryProvider {
    fn provide(&self) -> (res: Result<ProgramDump, ParseError>)
        ensures
            match res {
                Ok(d) => spec_dump(self.buffer@) == Ok::<ProgramDumpView, ParseError>(d@),
                Err(e) => spec_dump(self.buffer@) == Err::<ProgramDumpView, ParseError>(e),
            },
    {
        self.dump()
    }
}

} // verus!
