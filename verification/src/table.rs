use vstd::prelude::*;

verus! {

use crate::error::Error;
use crate::value::{Val, Vm, val_of, kvals_of, lemma_kvals_of, item_text};
use crate::items::StringOrInt;
use crate::effects::{Feed, Stop};
use crate::cmd::Failure;
use crate::context::Context;

/// How a table command's output is parsed into rows.
pub enum TableFormat {
    Csv,
    Json,
    Toml,
    Yaml,
}

/// A host command whose parsed output yields the rows.
pub struct TableCommand {
    pub command: String,
    pub format: TableFormat,
}

/// A producer of row maps for the inner fan-out: inline rows, or a host
/// command's parsed output. Cells are normalized to their text.
pub enum Table {
    Maps(Vec<Vec<(String, StringOrInt)>>),
    Command(TableCommand),
}

pub fn dup_table(t: &Table) -> (r: Table) {
    match t {
        Table::Maps(rows) => {
            let mut out: Vec<Vec<(String, StringOrInt)>> = Vec::new();
            let mut i: usize = 0;
            while i < rows.len()
                invariant
                    i <= rows@.len(),
                decreases rows@.len() - i,
            {
                let mut row: Vec<(String, StringOrInt)> = Vec::new();
                let mut j: usize = 0;
                while j < rows[i].len()
                    invariant
                        i < rows@.len(),
                        j <= rows@[i as int]@.len(),
                    decreases rows@[i as int]@.len() - j,
                {
                    row.push((rows[i][j].0.clone(), rows[i][j].1.dup()));
                    j += 1;
                }
                out.push(row);
                i += 1;
            }
            Table::Maps(out)
        }
        Table::Command(c) => Table::Command(
            TableCommand {
                command: c.command.clone(),
                format: match c.format {
                    TableFormat::Csv => TableFormat::Csv,
                    TableFormat::Json => TableFormat::Json,
                    TableFormat::Toml => TableFormat::Toml,
                    TableFormat::Yaml => TableFormat::Yaml,
                },
            },
        ),
    }
}

/// The cells of one parsed row: each value's text, keys kept in order.
pub open spec fn row_cells(entries: Seq<(Seq<char>, Vm)>) -> Option<Seq<(Seq<char>, Seq<char>)>>
    decreases entries.len(),
{
    if entries.len() == 0 {
        Some(Seq::empty())
    } else {
        match item_text(entries[0].1) {
            Some(t) => match row_cells(entries.drop_first()) {
                Some(rest) => Some(seq![(entries[0].0, t)] + rest),
                None => None,
            },
            None => None,
        }
    }
}

/// Normalizes one parsed row value into a row of text cells.
fn row_of_value(v: &Val) -> (r: Result<Vec<(String, String)>, Error>)
    ensures
        match r {
            Ok(row) => v.deep_view() matches Vm::Obj(entries) && row_cells(entries) matches
                Some(cells) && cells == row.deep_view(),
            Err(_) => !(v.deep_view() matches Vm::Obj(entries) && row_cells(entries) is Some),
        },
{
    match v {
        Val::Obj(entries) => {
            let ghost ve = kvals_of(entries@);
            let mut out: Vec<(String, String)> = Vec::new();
            let mut i: usize = 0;
            proof {
                lemma_kvals_of(entries@);
                assert(ve.skip(0) =~= ve);
            }
            while i < entries.len()
                invariant
                    i <= entries@.len(),
                    ve == kvals_of(entries@),
                    ve.len() == entries@.len(),
                    v.deep_view() == Vm::Obj(ve),
                    forall|j: int| 0 <= j < entries@.len() ==> #[trigger] ve[j] == (
                        entries@[j].0@,
                        val_of(entries@[j].1),
                    ),
                    row_cells(ve) matches Some(cells) ==> row_cells(ve.skip(i as int)) matches
                        Some(rest) && cells == out.deep_view() + rest,
                    out@.len() == i,
                    forall|j: int| 0 <= j < i ==> item_text(ve[j].1) is Some,
                decreases entries@.len() - i,
            {
                proof {
                    assert(ve.skip(i as int)[0] == ve[i as int]);
                    assert(ve.skip(i as int).drop_first() =~= ve.skip(i + 1));
                }
                match entries[i].1.to_item_text() {
                    Some(t) => {
                        let k = entries[i].0.clone();
                        out.push((k, t));
                        proof {
                            if row_cells(ve) is Some {
                                let cells = row_cells(ve).unwrap();
                                assert(out.deep_view() =~= out.deep_view().drop_last().push(
                                    (out@.last().0@, out@.last().1@),
                                ));
                                assert(cells =~= out.deep_view() + row_cells(
                                    ve.skip(i + 1),
                                ).unwrap());
                            }
                        }
                    }
                    None => {
                        proof {
                            assert(item_text(ve[i as int].1) is None);
                            lemma_row_cells_none(ve, i as int);
                            assert(v.deep_view() == Vm::Obj(ve));
                        }
                        return Err(Error::WrongValueType);
                    }
                }
                i += 1;
            }
            proof {
                assert(ve.skip(ve.len() as int).len() == 0);
                lemma_row_cells_all(ve);
                if row_cells(ve) is Some {
                    let cells = row_cells(ve).unwrap();
                    assert(cells =~= out.deep_view());
                }
            }
            Ok(out)
        }
        _ => Err(Error::WrongValueType),
    }
}

proof fn lemma_row_cells_none(entries: Seq<(Seq<char>, Vm)>, i: int)
    requires
        0 <= i < entries.len(),
        item_text(entries[i].1) is None,
    ensures
        row_cells(entries) is None,
    decreases i,
{
    if i > 0 {
        lemma_row_cells_none(entries.drop_first(), i - 1);
    }
}

proof fn lemma_row_cells_all(entries: Seq<(Seq<char>, Vm)>)
    requires
        forall|j: int| 0 <= j < entries.len() ==> item_text(#[trigger] entries[j].1) is Some,
    ensures
        row_cells(entries) is Some,
    decreases entries.len(),
{
    if entries.len() > 0 {
        assert forall|j: int| 0 <= j < entries.drop_first().len() implies item_text(
            #[trigger] entries.drop_first()[j].1,
        ) is Some by {
            assert(entries.drop_first()[j] == entries[j + 1]);
        }
        lemma_row_cells_all(entries.drop_first());
    }
}

/// The text rows of a parsed list value: each member an object whose
/// cells all have text.
pub open spec fn rows_cells(a: Seq<Vm>) -> Option<Seq<Seq<(Seq<char>, Seq<char>)>>>
    decreases a.len(),
{
    if a.len() == 0 {
        Some(Seq::empty())
    } else {
        match a[0] {
            Vm::Obj(entries) => match row_cells(entries) {
                Some(cells) => match rows_cells(a.drop_first()) {
                    Some(rest) => Some(seq![cells] + rest),
                    None => None,
                },
                None => None,
            },
            _ => None,
        }
    }
}

/// The text rows a parsed value yields, when it is such a list.
pub open spec fn rows_cells_of(v: Vm) -> Option<Seq<Seq<(Seq<char>, Seq<char>)>>> {
    match v {
        Vm::Arr(a) => rows_cells(a),
        _ => None,
    }
}

fn rows_of_value(v: &Val) -> (r: Result<Vec<Vec<(String, String)>>, Error>)
    ensures
        r matches Ok(rows) ==> rows_cells_of(v.deep_view()) == Some(rows.deep_view()),
{
    match v {
        Val::Arr(a) => {
            let ghost va = crate::value::vals_of(a@);
            let mut out: Vec<Vec<(String, String)>> = Vec::new();
            let mut i: usize = 0;
            proof {
                crate::value::lemma_vals_of(a@);
                assert(va.skip(0) =~= va);
            }
            while i < a.len()
                invariant
                    i <= a@.len(),
                    va == crate::value::vals_of(a@),
                    va.len() == a@.len(),
                    v.deep_view() == Vm::Arr(va),
                    forall|j: int| 0 <= j < a@.len() ==> #[trigger] va[j] == val_of(a@[j]),
                    rows_cells(va) matches Some(all) ==> rows_cells(va.skip(i as int)) matches
                        Some(rest) && all == out.deep_view() + rest,
                    out@.len() == i,
                    forall|j: int|
                        0 <= j < i ==> ((#[trigger] va[j]) matches Vm::Obj(entries) && row_cells(
                            entries,
                        ) is Some),
                decreases a@.len() - i,
            {
                proof {
                    assert(decreases_to!(a@ => a@[i as int]));
                    assert(va.skip(i as int)[0] == va[i as int]);
                    assert(va.skip(i as int).drop_first() =~= va.skip(i + 1));
                }
                let row = row_of_value(&a[i])?;
                out.push(row);
                proof {
                    if rows_cells(va) is Some {
                        let all = rows_cells(va).unwrap();
                        assert(out.deep_view() =~= out.deep_view().drop_last().push(
                            out@.last().deep_view(),
                        ));
                        assert(all =~= out.deep_view() + rows_cells(va.skip(i + 1)).unwrap());
                    }
                }
                i += 1;
            }
            proof {
                assert(va.skip(va.len() as int).len() == 0);
                lemma_rows_cells_all(va);
                if rows_cells(va) is Some {
                    let all = rows_cells(va).unwrap();
                    assert(all =~= out.deep_view());
                }
            }
            Ok(out)
        }
        _ => Err(Error::WrongValueType),
    }
}

proof fn lemma_rows_cells_all(a: Seq<Vm>)
    requires
        forall|j: int|
            0 <= j < a.len() ==> ((#[trigger] a[j]) matches Vm::Obj(entries) && row_cells(
                entries,
            ) is Some),
    ensures
        rows_cells(a) is Some,
    decreases a.len(),
{
    if a.len() > 0 {
        assert forall|j: int| 0 <= j < a.drop_first().len() implies ((
        #[trigger] a.drop_first()[j]) matches Vm::Obj(entries) && row_cells(entries) is Some) by {
            assert(a.drop_first()[j] == a[j + 1]);
        }
        lemma_rows_cells_all(a.drop_first());
    }
}

impl Table {
    /// Produces the rows: inline rows with each cell rendered, or a host
    /// command's output parsed in the declared format.
    pub fn list(&self, context: &Context, feed: &mut Feed) -> (r: Result<
        Result<Vec<Vec<(String, String)>>, Failure>,
        Stop,
    >)
        ensures
            match self {
                // inline rows keep their count and their column names
                Table::Maps(rows_in) => r matches Ok(rr) ==> (rr matches Ok(rows) ==> rows@.len()
                    == rows_in@.len() && forall|i: int|
                    0 <= i < rows@.len() ==> (#[trigger] rows@[i])@.len() == rows_in@[i]@.len()
                        && forall|j: int|
                        0 <= j < rows@[i]@.len() ==> (#[trigger] rows@[i]@[j]).0@
                            == rows_in@[i]@[j].0@),
                // a command's rows are what its output parsed to
                Table::Command(c) => match c.format {
                    TableFormat::Csv => r matches Ok(rr) ==> (rr matches Ok(rows) ==> exists|
                        text: Seq<char>,
                    | crate::parse::csv_parsed(text) == Some(rows.deep_view())),
                    _ => r matches Ok(rr) ==> (rr matches Ok(rows) ==> exists|v: Vm|
                        rows_cells_of(v) == Some(rows.deep_view())),
                },
            },
    {
        match self {
            Table::Maps(rows) => {
                let mut out: Vec<Vec<(String, String)>> = Vec::new();
                let mut i: usize = 0;
                while i < rows.len()
                    invariant
                        self matches Table::Maps(rs) && rs == rows,
                        i <= rows@.len(),
                        out@.len() == i,
                        forall|k: int|
                            0 <= k < i ==> (#[trigger] out@[k])@.len() == rows@[k]@.len()
                                && forall|j: int|
                                0 <= j < out@[k]@.len() ==> (#[trigger] out@[k]@[j]).0@
                                    == rows@[k]@[j].0@,
                    decreases rows@.len() - i,
                {
                    let mut row: Vec<(String, String)> = Vec::new();
                    let mut j: usize = 0;
                    while j < rows[i].len()
                        invariant
                            self matches Table::Maps(rs) && rs == rows,
                            i < rows@.len(),
                            j <= rows@[i as int]@.len(),
                            row@.len() == j,
                            forall|k: int| 0 <= k < j ==> (#[trigger] row@[k]).0@
                                == rows@[i as int]@[k].0@,
                        decreases rows@[i as int]@.len() - j,
                    {
                        let text = rows[i][j].1.to_text();
                        let rendered = feed.render(text, context)?;
                        row.push((rows[i][j].0.clone(), rendered));
                        j += 1;
                    }
                    out.push(row);
                    i += 1;
                }
                Ok(Ok(out))
            }
            Table::Command(c) => {
                let cmd = feed.render(c.command.clone(), context)?;
                let mut argv: Vec<String> = Vec::new();
                argv.push("sh".to_owned());
                argv.push("-c".to_owned());
                argv.push(cmd);
                let out = feed.run_argv(argv, None)?;
                let parsed: Option<Val> = match c.format {
                    TableFormat::Json => crate::parse::parse_json(out.stdout.as_str()),
                    TableFormat::Toml => crate::parse::parse_toml(out.stdout.as_str()),
                    TableFormat::Yaml => crate::parse::parse_yaml(out.stdout.as_str()),
                    TableFormat::Csv => {
                        return Ok(
                            match crate::parse::parse_csv(out.stdout.as_str()) {
                                Some(rows) => Ok(rows),
                                None => Err(
                                    Failure {
                                        error: Error::WrongValueType,
                                        context: Vec::new(),
                                    },
                                ),
                            },
                        );
                    }
                };
                match parsed {
                    Some(v) => {
                        // a TOML document parses as one object: its rows
                        // stand under it as an array is not expected here,
                        // so accept either an array of rows or fail
                        match rows_of_value(&v) {
                            Ok(rows) => Ok(Ok(rows)),
                            Err(e) => Ok(Err(Failure { error: e, context: Vec::new() })),
                        }
                    }
                    None => Ok(
                        Err(Failure { error: Error::WrongValueType, context: Vec::new() }),
                    ),
                }
            }
        }
    }
}

} // verus!
