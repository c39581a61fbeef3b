use vstd::prelude::*;

verus! {

use crate::value::{Vm, Val, val_of, vals_of, kvals_of, lemma_vals_of, lemma_kvals_of};
use crate::strings::{int_str, dec_str, hex_char, exec_hex_char, chars_string, str_chars};

/// One character as JSON string content: quotes, backslashes and control
/// characters escaped, everything else itself.
pub open spec fn json_escape_char(c: char) -> Seq<char> {
    if c == '"' {
        seq!['\\', '"']
    } else if c == '\\' {
        seq!['\\', '\\']
    } else if c == '\n' {
        seq!['\\', 'n']
    } else if c == '\r' {
        seq!['\\', 'r']
    } else if c == '\t' {
        seq!['\\', 't']
    } else if (c as u32) < 32 {
        seq!['\\', 'u', '0', '0', hex_char(((c as u32) / 16) as nat), hex_char(
            ((c as u32) % 16) as nat,
        )]
    } else {
        seq![c]
    }
}

pub open spec fn json_escape(s: Seq<char>) -> Seq<char>
    decreases s.len(),
{
    if s.len() == 0 {
        Seq::empty()
    } else {
        json_escape_char(s[0]) + json_escape(s.drop_first())
    }
}

/// The compact JSON text of a value. A `Float` is emitted as its stored
/// decimal text.
pub open spec fn json_of(v: Vm) -> Seq<char>
    decreases v,
    via json_of_dec
{
    match v {
        Vm::Null => "null"@,
        Vm::Bool(b) => if b {
            "true"@
        } else {
            "false"@
        },
        Vm::Int(i) => int_str(i as int),
        Vm::Uint(u) => dec_str(u as nat),
        Vm::Float(s) => s,
        Vm::Str(s) => seq!['"'] + json_escape(s) + seq!['"'],
        Vm::Arr(a) => seq!['['] + json_join(a) + seq![']'],
        Vm::Obj(o) => seq!['{'] + json_join_obj(o) + seq!['}'],
    }
}

pub open spec fn json_join(a: Seq<Vm>) -> Seq<char>
    decreases a, 0int,
    via json_join_dec
{
    if a.len() == 0 {
        Seq::empty()
    } else if a.len() == 1 {
        json_of(a[0])
    } else {
        json_join(a.drop_last()) + seq![','] + json_of(a.last())
    }
}

pub open spec fn json_join_obj(o: Seq<(Seq<char>, Vm)>) -> Seq<char>
    decreases o, 0int,
    via json_join_obj_dec
{
    if o.len() == 0 {
        Seq::empty()
    } else {
        let entry = seq!['"'] + json_escape(o.last().0) + seq!['"', ':'] + json_of(o.last().1);
        if o.len() == 1 {
            entry
        } else {
            json_join_obj(o.drop_last()) + seq![','] + entry
        }
    }
}

#[via_fn]
proof fn json_of_dec(v: Vm) {
    match v {
        Vm::Arr(a) => {
            assert(decreases_to!(v => a));
        }
        Vm::Obj(o) => {
            assert(decreases_to!(v => o));
        }
        _ => {}
    }
}

#[via_fn]
proof fn json_join_dec(a: Seq<Vm>) {
    if a.len() > 0 {
        assert(decreases_to!(a => a[a.len() - 1]));
        assert(decreases_to!(a => a.drop_last()));
    }
}

#[via_fn]
proof fn json_join_obj_dec(o: Seq<(Seq<char>, Vm)>) {
    if o.len() > 0 {
        assert(decreases_to!(o => o[o.len() - 1]));
        assert(decreases_to!(o[o.len() - 1] => o[o.len() - 1].1));
        assert(decreases_to!(o => o.drop_last()));
    }
}

proof fn lemma_json_escape_snoc(s: Seq<char>, c: char)
    ensures
        json_escape(s.push(c)) =~= json_escape(s) + json_escape_char(c),
    decreases s.len(),
{
    let sp = s.push(c);
    if s.len() == 0 {
        assert(sp[0] == c);
        assert(sp.drop_first() =~= Seq::<char>::empty());
        assert(json_escape(sp) == json_escape_char(c) + json_escape(Seq::<char>::empty()));
        assert(json_escape_char(c) + Seq::<char>::empty() =~= json_escape_char(c));
        assert(json_escape(s) == Seq::<char>::empty());
        assert(Seq::<char>::empty() + json_escape_char(c) =~= json_escape_char(c));
    } else {
        assert(sp[0] == s[0]);
        assert(sp.drop_first() =~= s.drop_first().push(c));
        lemma_json_escape_snoc(s.drop_first(), c);
        assert(json_escape_char(s[0]) + (json_escape(s.drop_first()) + json_escape_char(c)) =~= (
        json_escape_char(s[0]) + json_escape(s.drop_first())) + json_escape_char(c));
    }
}

fn escape_into(s: &str, out: &mut Vec<char>)
    ensures
        final(out)@ == old(out)@ + json_escape(s@),
{
    let cs = str_chars(s);
    let mut i: usize = 0;
    proof {
        assert(out@ + json_escape(s@.take(0)) =~= out@);
    }
    let ghost base = old(out)@;
    while i < cs.len()
        invariant
            i <= cs@.len(),
            cs@ == s@,
            out@ == base + json_escape(s@.take(i as int)),
        decreases cs@.len() - i,
    {
        let c = cs[i];
        let ghost pre = out@;
        if c == '"' {
            out.push('\\');
            out.push('"');
        } else if c == '\\' {
            out.push('\\');
            out.push('\\');
        } else if c == '\n' {
            out.push('\\');
            out.push('n');
        } else if c == '\r' {
            out.push('\\');
            out.push('r');
        } else if c == '\t' {
            out.push('\\');
            out.push('t');
        } else if (c as u32) < 32 {
            out.push('\\');
            out.push('u');
            out.push('0');
            out.push('0');
            out.push(exec_hex_char((c as u32) / 16));
            out.push(exec_hex_char((c as u32) % 16));
        } else {
            out.push(c);
        }
        proof {
            assert(out@ =~= pre + json_escape_char(c));
            lemma_json_escape_snoc(s@.take(i as int), c);
            assert(s@.take(i + 1) =~= s@.take(i as int).push(c));
            assert(out@ =~= base + json_escape(s@.take(i + 1)));
        }
        i += 1;
    }
    proof {
        assert(s@.take(cs@.len() as int) =~= s@);
    }
}

fn push_str_chars(text: &str, out: &mut Vec<char>)
    ensures
        final(out)@ == old(out)@ + text@,
{
    let cs = str_chars(text);
    let mut i: usize = 0;
    let ghost base = old(out)@;
    while i < cs.len()
        invariant
            i <= cs@.len(),
            cs@ == text@,
            out@ =~= base + text@.take(i as int),
        decreases cs@.len() - i,
    {
        out.push(cs[i]);
        proof {
            assert(out@ =~= base + text@.take(i + 1));
        }
        i += 1;
    }
    proof {
        assert(out@ =~= base + text@);
    }
}

fn json_value_into(v: &Val, out: &mut Vec<char>)
    ensures
        final(out)@ == old(out)@ + json_of(val_of(*v)),
    decreases *v,
{
    match v {
        Val::Null => {
            proof {
                reveal_strlit("null");
            }
            push_str_chars("null", out);
        }
        Val::Bool(b) => {
            proof {
                reveal_strlit("true");
                reveal_strlit("false");
            }
            if *b {
                push_str_chars("true", out);
            } else {
                push_str_chars("false", out);
            }
        }
        Val::Int(i) => {
            let text = crate::strings::i64_string(*i);
            push_str_chars(text.as_str(), out);
        }
        Val::Uint(u) => {
            let text = crate::strings::u64_string(*u);
            push_str_chars(text.as_str(), out);
        }
        Val::Float(s) => {
            push_str_chars(s.as_str(), out);
        }
        Val::Str(s) => {
            out.push('"');
            escape_into(s.as_str(), out);
            out.push('"');
            proof {
                assert(out@ =~= old(out)@ + (seq!['"'] + json_escape(s@) + seq!['"']));
            }
        }
        Val::Arr(a) => {
            proof {
                assert(decreases_to!(*v => *a));
                assert(decreases_to!(*a => a@));
            }
            out.push('[');
            json_arr_into(a, out);
            out.push(']');
            proof {
                assert(out@ =~= old(out)@ + (seq!['['] + json_join(vals_of(a@)) + seq![']']));
            }
        }
        Val::Obj(o) => {
            proof {
                assert(decreases_to!(*v => *o));
                assert(decreases_to!(*o => o@));
            }
            out.push('{');
            json_obj_into(o, out);
            out.push('}');
            proof {
                assert(out@ =~= old(out)@ + (seq!['{'] + json_join_obj(kvals_of(o@)) + seq![
                    '}',
                ]));
            }
        }
    }
}

fn json_arr_into(a: &Vec<Val>, out: &mut Vec<char>)
    ensures
        final(out)@ == old(out)@ + json_join(vals_of(a@)),
    decreases a@,
{
    let ghost base = old(out)@;
    let mut i: usize = 0;
    proof {
        lemma_vals_of(a@);
    }
    while i < a.len()
        invariant
            i <= a@.len(),
            vals_of(a@).len() == a@.len(),
            forall|j: int| 0 <= j < a@.len() ==> #[trigger] vals_of(a@)[j] == val_of(a@[j]),
            out@ == base + json_join(vals_of(a@).take(i as int)),
        decreases a@.len() - i,
    {
        if i > 0 {
            out.push(',');
        }
        proof {
            assert(decreases_to!(a@ => a@[i as int]));
        }
        json_value_into(&a[i], out);
        proof {
            let pfx = vals_of(a@).take(i + 1);
            assert(pfx.drop_last() =~= vals_of(a@).take(i as int));
            assert(pfx.last() == vals_of(a@)[i as int]);
            if i > 0 {
                assert(out@ =~= base + (json_join(pfx.drop_last()) + seq![','] + json_of(
                    pfx.last(),
                )));
            } else {
                assert(out@ =~= base + json_of(pfx.last()));
            }
        }
        i += 1;
    }
    proof {
        assert(vals_of(a@).take(a@.len() as int) =~= vals_of(a@));
    }
}

fn json_obj_into(o: &Vec<(String, Val)>, out: &mut Vec<char>)
    ensures
        final(out)@ == old(out)@ + json_join_obj(kvals_of(o@)),
    decreases o@,
{
    let ghost base = old(out)@;
    let mut i: usize = 0;
    proof {
        lemma_kvals_of(o@);
    }
    while i < o.len()
        invariant
            i <= o@.len(),
            kvals_of(o@).len() == o@.len(),
            forall|j: int| 0 <= j < o@.len() ==> #[trigger] kvals_of(o@)[j] == (
                o@[j].0@,
                val_of(o@[j].1),
            ),
            out@ == base + json_join_obj(kvals_of(o@).take(i as int)),
        decreases o@.len() - i,
    {
        if i > 0 {
            out.push(',');
        }
        let ghost mid = out@;
        out.push('"');
        escape_into(o[i].0.as_str(), out);
        out.push('"');
        out.push(':');
        proof {
            assert(decreases_to!(o@ => o@[i as int]));
            assert(decreases_to!(o@[i as int] => o@[i as int].1));
        }
        json_value_into(&o[i].1, out);
        proof {
            let pfx = kvals_of(o@).take(i + 1);
            let entry = seq!['"'] + json_escape(pfx.last().0) + seq!['"', ':'] + json_of(
                pfx.last().1,
            );
            assert(pfx.drop_last() =~= kvals_of(o@).take(i as int));
            assert(pfx.last() == kvals_of(o@)[i as int]);
            assert(out@ =~= mid + entry);
            if i > 0 {
                assert(out@ =~= base + (json_join_obj(pfx.drop_last()) + seq![','] + entry));
            } else {
                assert(out@ =~= base + entry);
            }
        }
        i += 1;
    }
    proof {
        assert(kvals_of(o@).take(o@.len() as int) =~= kvals_of(o@));
    }
}

/// Renders a value as compact JSON text.
pub fn json_encode(v: &Val) -> (r: String)
    ensures
        r@ == json_of(v.deep_view()),
{
    let mut out: Vec<char> = Vec::new();
    json_value_into(v, &mut out);
    proof {
        assert(out@ =~= json_of(val_of(*v)));
    }
    chars_string(&out)
}

} // verus!
