use vstd::prelude::*;

verus! {

use crate::error::Error;
use crate::value::{Val, Vm, val_of, vals_of, lemma_vals_of, item_text};
use crate::strings::{int_str, dec_str, i64_string, usize_string, parse_usize};
use crate::effects::{Feed, Stop, fail};
use crate::context::Context;
use crate::tsort::vviews;

/// A word that may be written as text or as a whole number.
pub enum StringOrInt {
    Text(String),
    Number(i64),
}

/// The text of such a word.
pub open spec fn soi_text(w: StringOrInt) -> Seq<char> {
    match w {
        StringOrInt::Text(s) => s@,
        StringOrInt::Number(n) => int_str(n as int),
    }
}

impl StringOrInt {
    pub fn to_text(&self) -> (r: String)
        ensures
            r@ == soi_text(*self),
    {
        match self {
            StringOrInt::Text(s) => s.clone(),
            StringOrInt::Number(n) => i64_string(*n),
        }
    }

    pub fn dup(&self) -> (r: StringOrInt)
        ensures
            soi_text(r) == soi_text(*self),
    {
        match self {
            StringOrInt::Text(s) => StringOrInt::Text(s.clone()),
            StringOrInt::Number(n) => StringOrInt::Number(*n),
        }
    }
}

/// A bound of an integer sequence: a number, or a template that must
/// render to one.
pub enum StringOrUsize {
    Text(String),
    Number(usize),
}

impl StringOrUsize {
    pub fn dup(&self) -> (r: StringOrUsize) {
        match self {
            StringOrUsize::Text(s) => StringOrUsize::Text(s.clone()),
            StringOrUsize::Number(n) => StringOrUsize::Number(*n),
        }
    }

    /// Renders the bound and reads it as a number; `field` names it in the
    /// error. A numeric bound is itself.
    pub fn to_usize(&self, context: &Context, feed: &mut Feed, field: &str) -> (r: Result<
        usize,
        Stop,
    >)
        ensures
            self matches StringOrUsize::Number(n) ==> r matches Ok(m) && m == n,
    {
        match self {
            StringOrUsize::Number(n) => Ok(*n),
            StringOrUsize::Text(s) => {
                let rendered = feed.render(s.clone(), context)?;
                match parse_usize(rendered.as_str()) {
                    Some(n) => Ok(n),
                    None => Err(fail(Error::WrongArgumentType(field.to_owned()))),
                }
            }
        }
    }
}

/// An integer sequence `start..end` by `step`.
pub struct ItemsSeq {
    pub start: StringOrUsize,
    pub end: StringOrUsize,
    pub step: StringOrUsize,
}

/// A host command whose output lines are the items.
pub struct ItemsCommand {
    pub command: String,
}

/// A context variable holding the items.
pub struct ItemsVariable {
    pub variable: String,
}

/// A JSON literal holding the items.
pub struct ItemsJson {
    pub json: String,
}

/// A producer of the ordered item list that drives the outer fan-out.
pub enum Items {
    Words(Vec<StringOrInt>),
    Sequence(ItemsSeq),
    Command(ItemsCommand),
    Json(ItemsJson),
    Variable(ItemsVariable),
}

pub fn dup_items(items: &Items) -> (r: Items) {
    match items {
        Items::Words(ws) => {
            let mut out: Vec<StringOrInt> = Vec::new();
            let mut i: usize = 0;
            while i < ws.len()
                decreases ws@.len() - i,
            {
                out.push(ws[i].dup());
                i += 1;
            }
            Items::Words(out)
        }
        Items::Sequence(s) => Items::Sequence(
            ItemsSeq { start: s.start.dup(), end: s.end.dup(), step: s.step.dup() },
        ),
        Items::Command(c) => Items::Command(ItemsCommand { command: c.command.clone() }),
        Items::Json(j) => Items::Json(ItemsJson { json: j.json.clone() }),
        Items::Variable(v) => Items::Variable(ItemsVariable { variable: v.variable.clone() }),
    }
}

/// The texts of inline words, in order.
pub open spec fn words_texts(ws: Seq<StringOrInt>) -> Seq<Seq<char>> {
    Seq::new(ws.len(), |i: int| soi_text(ws[i]))
}

/// The decimal texts of `start`, `start+step`, ... below `end`.
pub open spec fn seq_texts(start: nat, end: nat, step: nat) -> Seq<Seq<char>>
    decreases end - start,
{
    if step == 0 || start >= end {
        Seq::empty()
    } else {
        seq![dec_str(start)] + if start + step < end {
            seq_texts(start + step, end, step)
        } else {
            Seq::empty()
        }
    }
}

/// The item each member of a list value yields: its text; an object
/// yields its keys; members with neither fail.
pub open spec fn arr_items(a: Seq<Vm>) -> Option<Seq<Seq<char>>>
    decreases a.len(),
{
    if a.len() == 0 {
        Some(Seq::empty())
    } else {
        match item_text(a[0]) {
            Some(t) => match arr_items(a.drop_first()) {
                Some(rest) => Some(seq![t] + rest),
                None => None,
            },
            None => None,
        }
    }
}

/// The items a parsed value yields: element texts for an array, the keys
/// for an object, nothing else.
pub open spec fn value_items(v: Vm) -> Option<Seq<Seq<char>>> {
    match v {
        Vm::Arr(a) => arr_items(a),
        Vm::Obj(o) => Some(Seq::new(o.len(), |i: int| o[i].0)),
        _ => None,
    }
}

/// Turns an in-memory list value into items.
fn list_of_value(v: &Val, bad: Error) -> (r: Result<Vec<String>, Error>)
    ensures
        match r {
            Ok(items) => value_items(v.deep_view()) == Some(vviews(items@)),
            Err(_) => value_items(v.deep_view()) is None,
        },
{
    match v {
        Val::Arr(a) => {
            let mut out: Vec<String> = Vec::new();
            let mut i: usize = 0;
            proof {
                lemma_vals_of(a@);
                assert(vals_of(a@).skip(0) =~= vals_of(a@));
            }
            while i < a.len()
                invariant
                    i <= a@.len(),
                    vals_of(a@).len() == a@.len(),
                    forall|j: int| 0 <= j < a@.len() ==> #[trigger] vals_of(a@)[j] == val_of(
                        a@[j],
                    ),
                    v.deep_view() == Vm::Arr(vals_of(a@)),
                    arr_items(vals_of(a@)) matches Some(all) ==> arr_items(
                        vals_of(a@).skip(i as int),
                    ) matches Some(rest) && all == vviews(out@) + rest,
                    out@.len() == i,
                    forall|j: int| 0 <= j < i ==> item_text(vals_of(a@)[j]) is Some,
                decreases a@.len() - i,
            {
                proof {
                    assert(vals_of(a@).skip(i as int)[0] == vals_of(a@)[i as int]);
                    assert(vals_of(a@).skip(i as int).drop_first() =~= vals_of(a@).skip(i + 1));
                }
                match a[i].to_item_text() {
                    Some(t) => {
                        out.push(t);
                        proof {
                            if arr_items(vals_of(a@)) is Some {
                                let all = arr_items(vals_of(a@)).unwrap();
                                assert(vviews(out@) =~= vviews(out@.drop_last()) + seq![
                                    out@.last()@,
                                ]);
                                assert(all =~= vviews(out@) + arr_items(
                                    vals_of(a@).skip(i + 1),
                                ).unwrap());
                            }
                        }
                    }
                    None => {
                        proof {
                            assert(item_text(vals_of(a@)[i as int]) is None);
                            lemma_arr_items_none(vals_of(a@), i as int);
                            assert(v.deep_view() == Vm::Arr(vals_of(a@)));
                            assert(value_items(v.deep_view()) is None);
                        }
                        return Err(bad);
                    }
                }
                i += 1;
            }
            proof {
                assert(vals_of(a@).skip(a@.len() as int).len() == 0);
                lemma_arr_items_all(vals_of(a@));
                if arr_items(vals_of(a@)) is Some {
                    let all = arr_items(vals_of(a@)).unwrap();
                    assert(all =~= vviews(out@));
                }
            }
            Ok(out)
        }
        Val::Obj(o) => {
            let mut out: Vec<String> = Vec::new();
            let mut i: usize = 0;
            proof {
                crate::value::lemma_kvals_of(o@);
            }
            while i < o.len()
                invariant
                    i <= o@.len(),
                    out@.len() == i,
                    forall|j: int| 0 <= j < i ==> out@[j]@ == #[trigger] o@[j].0@,
                decreases o@.len() - i,
            {
                out.push(o[i].0.clone());
                i += 1;
            }
            proof {
                crate::value::lemma_kvals_of(o@);
                assert(vviews(out@) =~= Seq::new(
                    crate::value::kvals_of(o@).len(),
                    |i: int| crate::value::kvals_of(o@)[i].0,
                ));
            }
            Ok(out)
        }
        _ => Err(bad),
    }
}

proof fn lemma_arr_items_none(a: Seq<Vm>, i: int)
    requires
        0 <= i < a.len(),
        item_text(a[i]) is None,
    ensures
        arr_items(a) is None,
    decreases i,
{
    if a.len() > 0 && i > 0 {
        lemma_arr_items_none(a.drop_first(), i - 1);
    }
}

proof fn lemma_arr_items_all(a: Seq<Vm>)
    requires
        forall|j: int| 0 <= j < a.len() ==> item_text(#[trigger] a[j]) is Some,
    ensures
        arr_items(a) is Some,
    decreases a.len(),
{
    if a.len() > 0 {
        assert forall|j: int| 0 <= j < a.drop_first().len() implies item_text(
            #[trigger] a.drop_first()[j],
        ) is Some by {
            assert(a.drop_first()[j] == a[j + 1]);
        }
        lemma_arr_items_all(a.drop_first());
    }
}

impl Items {
    /// Produces the ordered item list: inline words as their text, an
    /// integer sequence in decimal, a host command's output lines, a JSON
    /// literal's members, or a context variable's members.
    pub fn list(&self, context: &Context, feed: &mut Feed) -> (r: Result<
        Result<Vec<String>, crate::cmd::Failure>,
        Stop,
    >)
        ensures
            match self {
                Items::Words(ws) => r matches Ok(rr) ==> (rr matches Ok(items) && vviews(items@)
                    == words_texts(ws@)),
                // an integer sequence lists its decimal texts; when the
                // bounds are written as numbers they are exactly these
                Items::Sequence(sq) => r matches Ok(rr) ==> (rr matches Ok(items) ==> (exists|
                    a: usize,
                    b: usize,
                    c: usize,
                |
                    vviews(items@) == seq_texts(a as nat, b as nat, c as nat)) && (match (
                    sq.start,
                    sq.end,
                    sq.step,
                ) {
                    (
                        StringOrUsize::Number(a),
                        StringOrUsize::Number(b),
                        StringOrUsize::Number(c),
                    ) => vviews(items@) == seq_texts(a as nat, b as nat, c as nat),
                    _ => true,
                })),
                // a command's items are the lines of whatever it printed
                Items::Command(_) => r matches Ok(rr) ==> (rr matches Ok(items) ==> exists|
                    text: Seq<char>,
                | vviews(items@) == crate::cmd::split_lines(text)),
                // a JSON literal's items are the members of some parsed value
                Items::Json(_) => r matches Ok(rr) ==> (rr matches Ok(items) ==> exists|v: Vm|
                    crate::parse::json_parsed_holds(v) && value_items(v) == Some(vviews(items@))),
                // a variable's items are the members of a context value
                Items::Variable(_) => r matches Ok(rr) ==> (rr matches Ok(items) ==> exists|
                    k: Seq<char>,
                    v: Vm,
                |
                    crate::value::obj_get(context.view_obj(), k) == Some(v) && value_items(v)
                        == Some(vviews(items@))),
            },
    {
        match self {
            Items::Words(ws) => {
                let mut out: Vec<String> = Vec::new();
                let mut i: usize = 0;
                while i < ws.len()
                    invariant
                        i <= ws@.len(),
                        out@.len() == i,
                        forall|j: int| 0 <= j < i ==> out@[j]@ == soi_text(#[trigger] ws@[j]),
                    decreases ws@.len() - i,
                {
                    out.push(ws[i].to_text());
                    i += 1;
                }
                proof {
                    assert(vviews(out@) =~= words_texts(ws@));
                }
                Ok(Ok(out))
            }
            Items::Sequence(sq) => {
                let start = sq.start.to_usize(context, feed, "start")?;
                let end = sq.end.to_usize(context, feed, "end")?;
                let step = sq.step.to_usize(context, feed, "step")?;
                if step == 0 {
                    let empty: Vec<String> = Vec::new();
                    proof {
                        assert(vviews(empty@) =~= seq_texts(
                            start as nat,
                            end as nat,
                            step as nat,
                        ));
                    }
                    return Ok(Ok(empty));
                }
                let mut out: Vec<String> = Vec::new();
                let mut cur = start;
                proof {
                    assert(vviews(out@) + seq_texts(start as nat, end as nat, step as nat)
                        =~= seq_texts(start as nat, end as nat, step as nat));
                }
                while cur < end
                    invariant_except_break
                        step > 0,
                        cur >= start,
                        seq_texts(start as nat, end as nat, step as nat) =~= vviews(out@)
                            + seq_texts(cur as nat, end as nat, step as nat),
                    ensures
                        seq_texts(start as nat, end as nat, step as nat) =~= vviews(out@),
                    decreases end - cur,
                {
                    let ghost pre = out@;
                    out.push(usize_string(cur));
                    proof {
                        assert(vviews(out@) =~= vviews(pre) + seq![dec_str(cur as nat)]);
                    }
                    if end - cur <= step {
                        proof {
                            assert(vviews(out@) + Seq::<Seq<char>>::empty() =~= vviews(out@));
                            assert(seq_texts(start as nat, end as nat, step as nat) =~= vviews(
                                out@,
                            ) + Seq::<Seq<char>>::empty());
                        }
                        break;
                    }
                    cur = cur + step;
                }
                Ok(Ok(out))
            }
            Items::Command(c) => {
                let cmd = feed.render(c.command.clone(), context)?;
                let mut argv: Vec<String> = Vec::new();
                argv.push("sh".to_owned());
                argv.push("-c".to_owned());
                argv.push(cmd);
                let out = feed.run_argv(argv, None)?;
                let lines = crate::cmd::lines_of(out.stdout.as_str());
                Ok(Ok(lines))
            }
            Items::Json(j) => {
                let text = feed.render(j.json.clone(), context)?;
                match crate::parse::parse_json(text.as_str()) {
                    Some(v) => {
                        match list_of_value(&v, Error::WrongItemsJsonType(text)) {
                            Ok(items) => Ok(Ok(items)),
                            Err(e) => Ok(
                                Err(crate::cmd::Failure { error: e, context: Vec::new() }),
                            ),
                        }
                    }
                    None => Ok(
                        Err(
                            crate::cmd::Failure {
                                error: Error::WrongItemsJsonType(text),
                                context: Vec::new(),
                            },
                        ),
                    ),
                }
            }
            Items::Variable(var) => {
                let name = feed.render(var.variable.clone(), context)?;
                match context.get(name.as_str()) {
                    Some(v) => {
                        let owned = v.dup();
                        match list_of_value(&owned, Error::WrongItemsVarType(name)) {
                            Ok(items) => Ok(Ok(items)),
                            Err(e) => Ok(
                                Err(crate::cmd::Failure { error: e, context: Vec::new() }),
                            ),
                        }
                    }
                    None => Ok(
                        Err(
                            crate::cmd::Failure {
                                error: Error::NoItemsVar(name),
                                context: Vec::new(),
                            },
                        ),
                    ),
                }
            }
        }
    }
}

} // verus!
