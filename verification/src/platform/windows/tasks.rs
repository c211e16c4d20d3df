//! Scheduled tasks from the CSV output of `schtasks /query /fo csv /v /nh`.
use vstd::prelude::*;

use crate::models::finding::opt_view;
use crate::models::system_info::ScheduledTask;
use crate::platform::linux::etc::strings_view;
use crate::text::{
    eq_ignore_ascii_case, eq_ignore_ascii_case_spec, owned, rfind_char, rfind_char_spec,
    slice_to_vec, to_chars, trim, trim_spec,
};

verus! {

/// Column of the task's full name in the CSV rows.
pub const COL_TASK_NAME: usize = 1;
/// Column of the next run time.
pub const COL_NEXT_RUN: usize = 2;
/// Column of the task's status.
pub const COL_STATUS: usize = 3;
/// Column of the last run time.
pub const COL_LAST_RUN: usize = 5;
/// Column of the author.
pub const COL_AUTHOR: usize = 7;
/// Column of the command the task runs.
pub const COL_TASK_TO_RUN: usize = 8;
/// Column of the task's state (enabled or disabled).
pub const COL_TASK_STATE: usize = 11;
/// Column of the account the task runs as.
pub const COL_RUN_AS_USER: usize = 14;
/// Column of the schedule type.
pub const COL_SCHEDULE_TYPE: usize = 18;

// ---------------------------------------------------------------------------
// CSV
// ---------------------------------------------------------------------------

/// Where a reading of CSV text stands: the rows completed, the fields of the
/// current row, the current field, whether a quoted field is open, and
/// whether the last character was a quote inside a quoted field (which ends
/// the field unless another quote follows).
#[verifier::ext_equal]
pub struct CsvState {
    pub rows: Seq<Seq<Seq<char>>>,
    pub fields: Seq<Seq<char>>,
    pub field: Seq<char>,
    pub in_quotes: bool,
    pub quote_pending: bool,
}

/// Whether every field of a row is empty.
pub open spec fn all_empty(fields: Seq<Seq<char>>) -> bool {
    forall|i: int| 0 <= i < fields.len() ==> (#[trigger] fields[i]).len() == 0
}

/// One character outside a quoted field: a quote opens one, a comma ends the
/// field, a line feed ends the row (a row of empty fields is dropped), a
/// carriage return is ignored, anything else is field text.
pub open spec fn csv_plain(st: CsvState, c: char) -> CsvState {
    if c == '"' {
        CsvState { in_quotes: true, ..st }
    } else if c == ',' {
        CsvState { fields: st.fields.push(st.field), field: Seq::empty(), ..st }
    } else if c == '\r' {
        st
    } else if c == '\n' {
        let row = st.fields.push(st.field);
        if all_empty(row) {
            CsvState { fields: Seq::empty(), field: Seq::empty(), ..st }
        } else {
            CsvState { rows: st.rows.push(row), fields: Seq::empty(), field: Seq::empty(), ..st }
        }
    } else {
        CsvState { field: st.field.push(c), ..st }
    }
}

/// One character of CSV text. Inside a quoted field a doubled quote stands
/// for one quote and a single quote closes the field.
pub open spec fn csv_step(st: CsvState, c: char) -> CsvState {
    if st.quote_pending {
        if c == '"' {
            CsvState { field: st.field.push('"'), quote_pending: false, ..st }
        } else {
            csv_plain(CsvState { in_quotes: false, quote_pending: false, ..st }, c)
        }
    } else if st.in_quotes {
        if c == '"' {
            CsvState { quote_pending: true, ..st }
        } else {
            CsvState { field: st.field.push(c), ..st }
        }
    } else {
        csv_plain(st, c)
    }
}

pub open spec fn csv_fold(s: Seq<char>) -> CsvState
    decreases s.len(),
{
    if s.len() == 0 {
        CsvState {
            rows: Seq::empty(),
            fields: Seq::empty(),
            field: Seq::empty(),
            in_quotes: false,
            quote_pending: false,
        }
    } else {
        csv_step(csv_fold(s.drop_last()), s.last())
    }
}

/// The rows of CSV text: those completed by line feeds, and a last row
/// without a line feed where it has text; rows of empty fields are dropped.
pub open spec fn csv_rows_spec(text: Seq<char>) -> Seq<Seq<Seq<char>>> {
    let st = csv_fold(text);
    if st.field.len() > 0 || st.fields.len() > 0 {
        let row = st.fields.push(st.field);
        if all_empty(row) {
            st.rows
        } else {
            st.rows.push(row)
        }
    } else {
        st.rows
    }
}

/// The views of rows of strings.
pub open spec fn rows_view(rows: Seq<Vec<String>>) -> Seq<Seq<Seq<char>>> {
    rows.map_values(|r: Vec<String>| strings_view(r@))
}

fn all_fields_empty(fields: &Vec<String>) -> (r: bool)
    ensures
        r == all_empty(strings_view(fields@)),
{
    let mut i: usize = 0;
    while i < fields.len()
        invariant
            i <= fields.len(),
            forall|j: int| 0 <= j < i ==> fields@[j]@.len() == 0,
        decreases fields.len() - i,
    {
        if fields[i].as_str().unicode_len() > 0 {
            assert(strings_view(fields@)[i as int] == fields@[i as int]@);
            return false;
        }
        i = i + 1;
    }
    assert forall|j: int| 0 <= j < strings_view(fields@).len() implies (#[trigger] strings_view(fields@)[j]).len() == 0 by {
        assert(strings_view(fields@)[j] == fields@[j]@);
    }
    true
}

struct CsvReader {
    rows: Vec<Vec<String>>,
    fields: Vec<String>,
    field: Vec<char>,
    in_quotes: bool,
    quote_pending: bool,
}

spec fn reader_view(r: CsvReader) -> CsvState {
    CsvState {
        rows: rows_view(r.rows@),
        fields: strings_view(r.fields@),
        field: r.field@,
        in_quotes: r.in_quotes,
        quote_pending: r.quote_pending,
    }
}

fn end_field(rd: &mut CsvReader)
    ensures
        reader_view(*final(rd)) == (CsvState {
            fields: reader_view(*old(rd)).fields.push(reader_view(*old(rd)).field),
            field: Seq::empty(),
            ..reader_view(*old(rd))
        }),
{
    let f = crate::text::from_chars(rd.field.as_slice());
    let ghost before = strings_view(rd.fields@);
    rd.fields.push(f);
    rd.field = Vec::new();
    assert(strings_view(rd.fields@) =~= before.push(f@));
}

fn end_row(rd: &mut CsvReader)
    ensures
        reader_view(*final(rd)) == ({
            let st = reader_view(*old(rd));
            let row = st.fields.push(st.field);
            if all_empty(row) {
                CsvState { fields: Seq::empty(), field: Seq::empty(), ..st }
            } else {
                CsvState { rows: st.rows.push(row), fields: Seq::empty(), field: Seq::empty(), ..st }
            }
        }),
{
    end_field(rd);
    let mut fields: Vec<String> = Vec::new();
    std::mem::swap(&mut fields, &mut rd.fields);
    assert(strings_view(rd.fields@) =~= Seq::<Seq<char>>::empty());
    if !all_fields_empty(&fields) {
        let ghost before = rows_view(rd.rows@);
        let ghost fv = strings_view(fields@);
        rd.rows.push(fields);
        assert(rows_view(rd.rows@) =~= before.push(fv));
    }
}

fn plain_char(rd: &mut CsvReader, c: char)
    ensures
        reader_view(*final(rd)) == csv_plain(reader_view(*old(rd)), c),
{
    if c == '"' {
        rd.in_quotes = true;
    } else if c == ',' {
        end_field(rd);
    } else if c == '\r' {
    } else if c == '\n' {
        end_row(rd);
    } else {
        rd.field.push(c);
    }
}

/// The rows of CSV text (see `csv_rows_spec`): fields separated by commas,
/// rows by line feeds, with quoted fields that may hold commas, line breaks
/// and doubled quotes.
pub fn parse_csv_rows(text: &str) -> (r: Vec<Vec<String>>)
    ensures
        rows_view(r@) == csv_rows_spec(text@),
{
    let chars = to_chars(text);
    let mut rd = CsvReader {
        rows: Vec::new(),
        fields: Vec::new(),
        field: Vec::new(),
        in_quotes: false,
        quote_pending: false,
    };
    assert(reader_view(rd) =~= csv_fold(chars@.take(0)));
    let mut i: usize = 0;
    while i < chars.len()
        invariant
            i <= chars.len(),
            reader_view(rd) == csv_fold(chars@.take(i as int)),
        decreases chars.len() - i,
    {
        proof {
            assert(chars@.take(i + 1).drop_last() =~= chars@.take(i as int));
        }
        let c = chars[i];
        if rd.quote_pending {
            if c == '"' {
                rd.field.push('"');
                rd.quote_pending = false;
            } else {
                rd.in_quotes = false;
                rd.quote_pending = false;
                plain_char(&mut rd, c);
            }
        } else if rd.in_quotes {
            if c == '"' {
                rd.quote_pending = true;
            } else {
                rd.field.push(c);
            }
        } else {
            plain_char(&mut rd, c);
        }
        i = i + 1;
    }
    assert(chars@.take(chars.len() as int) =~= text@);
    if rd.field.len() > 0 || rd.fields.len() > 0 {
        end_row(&mut rd);
    }
    rd.rows
}

// ---------------------------------------------------------------------------
// Tasks
// ---------------------------------------------------------------------------

/// A task's folder and name, split at the last backslash of its full name;
/// a task at the root, or a name without backslash, is in folder `\`.
pub open spec fn split_task_path_spec(full: Seq<char>) -> (Seq<char>, Seq<char>) {
    match rfind_char_spec(full, '\\') {
        Some(i) => (
            if i == 0 {
                "\\"@
            } else {
                full.take(i)
            },
            full.skip(i + 1),
        ),
        None => ("\\"@, full),
    }
}

/// A task's folder and name (see `split_task_path_spec`).
pub fn split_task_path(full: &str) -> (r: (String, String))
    ensures
        (r.0@, r.1@) == split_task_path_spec(full@),
{
    let chars = to_chars(full);
    match rfind_char(chars.as_slice(), '\\') {
        Some(i) => {
            let path = if i == 0 {
                owned("\\")
            } else {
                let p = slice_to_vec(chars.as_slice(), 0, i);
                assert(p@ =~= full@.take(i as int));
                crate::text::from_chars(p.as_slice())
            };
            let n = slice_to_vec(chars.as_slice(), i + 1, chars.len());
            assert(n@ =~= full@.skip(i + 1));
            (path, crate::text::from_chars(n.as_slice()))
        },
        None => (owned("\\"), owned(full)),
    }
}

/// A column of a row as a value: none where the row is too short, the
/// trimmed field is empty, or it is `N/A` in any case.
pub open spec fn optional_field_spec(row: Seq<Seq<char>>, idx: int) -> Option<Seq<char>> {
    if idx < row.len() {
        let v = trim_spec(row[idx]);
        if v.len() == 0 || eq_ignore_ascii_case_spec(v, "N/A"@) {
            None
        } else {
            Some(v)
        }
    } else {
        None
    }
}

/// A column of a row as a value (see `optional_field_spec`).
pub fn optional_field(row: &[String], idx: usize) -> (r: Option<String>)
    ensures
        opt_view(r) == optional_field_spec(strings_view(row@), idx as int),
{
    if idx >= row.len() {
        return None;
    }
    assert(strings_view(row@)[idx as int] == row@[idx as int]@);
    let c = to_chars(row[idx].as_str());
    let v = trim(c.as_slice());
    let na = to_chars("N/A");
    if v.len() == 0 || eq_ignore_ascii_case(v.as_slice(), na.as_slice()) {
        None
    } else {
        Some(crate::text::from_chars(v.as_slice()))
    }
}

/// The trimmed field of a column, empty where the row is too short.
pub open spec fn trimmed_or_empty(row: Seq<Seq<char>>, idx: int) -> Seq<char> {
    if idx < row.len() {
        trim_spec(row[idx])
    } else {
        Seq::empty()
    }
}

/// Whether a row describes a task: it has a name that is not the header's
/// `TaskName`, and a status or a command.
pub open spec fn task_row_ok(row: Seq<Seq<char>>) -> bool {
    let name = trimmed_or_empty(row, COL_TASK_NAME as int);
    &&& COL_TASK_NAME < row.len()
    &&& name.len() > 0
    &&& !eq_ignore_ascii_case_spec(name, "TaskName"@)
    &&& !(trimmed_or_empty(row, COL_STATUS as int).len() == 0 && trimmed_or_empty(
        row,
        COL_TASK_TO_RUN as int,
    ).len() == 0)
}

/// Whether `t` is the task that a good row describes: its folder and name
/// from the full name, its command, account and schedule type, enabled
/// unless its state is `Disabled` in any case.
pub open spec fn describes_task(t: ScheduledTask, row: Seq<Seq<char>>) -> bool {
    let (path, name) = split_task_path_spec(trim_spec(row[COL_TASK_NAME as int]));
    &&& t.name@ == name
    &&& opt_view(t.path) == Some(path)
    &&& opt_view(t.action) == optional_field_spec(row, COL_TASK_TO_RUN as int)
    &&& opt_view(t.run_as) == optional_field_spec(row, COL_RUN_AS_USER as int)
    &&& opt_view(t.trigger) == optional_field_spec(row, COL_SCHEDULE_TYPE as int)
    &&& t.enabled == (COL_TASK_STATE >= row.len() || !eq_ignore_ascii_case_spec(
        trim_spec(row[COL_TASK_STATE as int]),
        "Disabled"@,
    ))
    &&& t.last_run is None
    &&& t.next_run is None
    &&& !t.hidden
}

fn trimmed_field(row: &[String], idx: usize) -> (r: Vec<char>)
    ensures
        r@ == trimmed_or_empty(strings_view(row@), idx as int),
{
    if idx < row.len() {
        assert(strings_view(row@)[idx as int] == row@[idx as int]@);
        let c = to_chars(row[idx].as_str());
        trim(c.as_slice())
    } else {
        Vec::new()
    }
}

/// The task that a CSV row describes, if it is a good row.
pub fn build_task(row: &[String]) -> (r: Option<ScheduledTask>)
    ensures
        match r {
            Some(t) => task_row_ok(strings_view(row@)) && describes_task(t, strings_view(row@)),
            None => !task_row_ok(strings_view(row@)),
        },
{
    if COL_TASK_NAME >= row.len() {
        return None;
    }
    let raw_name = trimmed_field(row, COL_TASK_NAME);
    let header = to_chars("TaskName");
    if raw_name.len() == 0 || eq_ignore_ascii_case(raw_name.as_slice(), header.as_slice()) {
        return None;
    }
    let status = trimmed_field(row, COL_STATUS);
    let command = trimmed_field(row, COL_TASK_TO_RUN);
    if status.len() == 0 && command.len() == 0 {
        return None;
    }
    let full = crate::text::from_chars(raw_name.as_slice());
    let (path, name) = split_task_path(full.as_str());
    let action = optional_field(row, COL_TASK_TO_RUN);
    let run_as = optional_field(row, COL_RUN_AS_USER);
    let trigger = optional_field(row, COL_SCHEDULE_TYPE);
    let enabled = if COL_TASK_STATE < row.len() {
        let st = trimmed_field(row, COL_TASK_STATE);
        let disabled = to_chars("Disabled");
        !eq_ignore_ascii_case(st.as_slice(), disabled.as_slice())
    } else {
        true
    };
    Some(
        ScheduledTask {
            name,
            path: Some(path),
            action,
            run_as,
            trigger,
            enabled,
            last_run: None,
            next_run: None,
            hidden: false,
        },
    )
}

/// The good rows of CSV output, in order.
pub open spec fn task_rows(rows: Seq<Seq<Seq<char>>>) -> Seq<Seq<Seq<char>>>
    decreases rows.len(),
{
    if rows.len() == 0 {
        Seq::empty()
    } else if task_row_ok(rows.last()) {
        task_rows(rows.drop_last()).push(rows.last())
    } else {
        task_rows(rows.drop_last())
    }
}

/// The scheduled tasks in the CSV output of `schtasks`, in order.
pub fn parse_scheduled_tasks(csv: &str) -> (r: Vec<ScheduledTask>)
    ensures
        r@.len() == task_rows(csv_rows_spec(csv@)).len(),
        forall|k: int| 0 <= k < r@.len() ==> describes_task(#[trigger] r@[k], task_rows(csv_rows_spec(csv@))[k]),
{
    let rows = parse_csv_rows(csv);
    let ghost all = rows_view(rows@);
    let mut out: Vec<ScheduledTask> = Vec::new();
    let mut i: usize = 0;
    while i < rows.len()
        invariant
            i <= rows.len(),
            all == rows_view(rows@),
            out@.len() == task_rows(all.take(i as int)).len(),
            forall|k: int| 0 <= k < out@.len() ==> describes_task(#[trigger] out@[k], task_rows(all.take(i as int))[k]),
        decreases rows.len() - i,
    {
        proof {
            assert(all.take(i + 1).drop_last() =~= all.take(i as int));
            assert(all.take(i + 1).last() == strings_view(rows@[i as int]@));
        }
        match build_task(rows[i].as_slice()) {
            Some(t) => {
                out.push(t);
            },
            None => {},
        }
        i = i + 1;
    }
    assert(all.take(rows.len() as int) =~= all);
    out
}

} // verus!
