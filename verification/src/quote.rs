use vstd::prelude::*;

verus! {

use crate::strings::{str_chars, chars_string};

/// Characters a POSIX shell reads as themselves in an unquoted word.
pub open spec fn is_safe_char(c: char) -> bool {
    ||| 'a' <= c && c <= 'z'
    ||| 'A' <= c && c <= 'Z'
    ||| '0' <= c && c <= '9'
    ||| c == '_' || c == '.' || c == '/' || c == '-' || c == ':' || c == '=' || c == '+'
    ||| c == ',' || c == '@' || c == '%'
}

pub open spec fn all_safe(s: Seq<char>) -> bool {
    forall|i: int| 0 <= i < s.len() ==> is_safe_char(#[trigger] s[i])
}

/// Characters that must be escaped inside a double-quoted span.
pub open spec fn dq_escapable(c: char) -> bool {
    c == '"' || c == '\\' || c == '$' || c == '`'
}

pub open spec fn dq_escape(s: Seq<char>) -> Seq<char>
    decreases s.len(),
{
    if s.len() == 0 {
        Seq::empty()
    } else {
        (if dq_escapable(s[0]) {
            seq!['\\', s[0]]
        } else {
            seq![s[0]]
        }) + dq_escape(s.drop_first())
    }
}

/// The shell quoting of `s`: kept bare when every character is safe,
/// wrapped in single quotes when it has none of its own, else wrapped in
/// double quotes with the special characters escaped.
pub open spec fn quote_spec(s: Seq<char>) -> Seq<char> {
    if s.len() > 0 && all_safe(s) {
        s
    } else if !s.contains('\'') {
        seq!['\''] + s + seq!['\'']
    } else {
        seq!['"'] + dq_escape(s) + seq!['"']
    }
}

// A reading of one shell word, as `sh` would read it: bare safe
// characters, single-quoted spans, and double-quoted spans with backslash
// escapes, concatenated. Anything else is not a simple word.

pub open spec fn parse_norm(s: Seq<char>) -> Option<Seq<char>>
    decreases s.len(), 0int,
{
    if s.len() == 0 {
        Some(Seq::empty())
    } else if s[0] == '\'' {
        parse_sq(s.drop_first())
    } else if s[0] == '"' {
        parse_dq(s.drop_first())
    } else if is_safe_char(s[0]) {
        match parse_norm(s.drop_first()) {
            Some(w) => Some(seq![s[0]] + w),
            None => None,
        }
    } else {
        None
    }
}

pub open spec fn parse_sq(s: Seq<char>) -> Option<Seq<char>>
    decreases s.len(), 1int,
{
    if s.len() == 0 {
        None
    } else if s[0] == '\'' {
        parse_norm(s.drop_first())
    } else {
        match parse_sq(s.drop_first()) {
            Some(w) => Some(seq![s[0]] + w),
            None => None,
        }
    }
}

pub open spec fn parse_dq(s: Seq<char>) -> Option<Seq<char>>
    decreases s.len(), 1int,
{
    if s.len() == 0 {
        None
    } else if s[0] == '"' {
        parse_norm(s.drop_first())
    } else if s[0] == '\\' && s.len() >= 2 && dq_escapable(s[1]) {
        match parse_dq(s.skip(2)) {
            Some(w) => Some(seq![s[1]] + w),
            None => None,
        }
    } else {
        match parse_dq(s.drop_first()) {
            Some(w) => Some(seq![s[0]] + w),
            None => None,
        }
    }
}

/// What `sh` reads the word `s` as.
pub open spec fn sh_word(s: Seq<char>) -> Option<Seq<char>> {
    parse_norm(s)
}

#[verifier::spinoff_prover]
#[verifier::rlimit(60)]
proof fn lemma_parse_safe(s: Seq<char>)
    requires
        all_safe(s),
    ensures
        parse_norm(s) == Some(s),
    decreases s.len(),
{
    if s.len() > 0 {
        assert(is_safe_char(s[0]));
        assert(s[0] != '\'' && s[0] != '"');
        lemma_parse_safe(s.drop_first());
        assert(seq![s[0]] + s.drop_first() =~= s);
    }
}

#[verifier::spinoff_prover]
#[verifier::rlimit(60)]
proof fn lemma_parse_sq_body(s: Seq<char>, rest: Seq<char>)
    requires
        !s.contains('\''),
        parse_norm(rest) == Some(Seq::<char>::empty()),
    ensures
        parse_sq(s + seq!['\''] + rest) == Some(s),
    decreases s.len(),
{
    let whole = s + seq!['\''] + rest;
    if s.len() == 0 {
        assert(whole[0] == '\'');
        assert(whole.drop_first() =~= rest);
    } else {
        assert(whole[0] == s[0]);
        assert(s[0] != '\'');
        lemma_parse_sq_body(s.drop_first(), rest);
        assert(whole.drop_first() =~= s.drop_first() + seq!['\''] + rest);
        assert(seq![s[0]] + s.drop_first() =~= s);
    }
}

#[verifier::spinoff_prover]
#[verifier::rlimit(60)]
proof fn lemma_parse_dq_body(s: Seq<char>, rest: Seq<char>)
    requires
        parse_norm(rest) == Some(Seq::<char>::empty()),
    ensures
        parse_dq(dq_escape(s) + seq!['"'] + rest) == Some(s),
    decreases s.len(),
{
    let whole = dq_escape(s) + seq!['"'] + rest;
    if s.len() == 0 {
        assert(whole[0] == '"');
        assert(whole.drop_first() =~= rest);
    } else {
        lemma_parse_dq_body(s.drop_first(), rest);
        if dq_escapable(s[0]) {
            assert(dq_escape(s) =~= seq!['\\', s[0]] + dq_escape(s.drop_first()));
            assert(whole[0] == '\\');
            assert(whole[1] == s[0]);
            assert(whole.skip(2) =~= dq_escape(s.drop_first()) + seq!['"'] + rest);
            assert(seq![s[0]] + s.drop_first() =~= s);
        } else {
            assert(dq_escape(s) =~= seq![s[0]] + dq_escape(s.drop_first()));
            assert(whole[0] == s[0]);
            assert(s[0] != '"' && s[0] != '\\');
            assert(whole.drop_first() =~= dq_escape(s.drop_first()) + seq!['"'] + rest);
            assert(seq![s[0]] + s.drop_first() =~= s);
        }
    }
}

/// The round trip: the shell reads the quoting of `s` back as exactly `s`.
pub proof fn lemma_quote_round_trip(s: Seq<char>)
    ensures
        sh_word(quote_spec(s)) == Some(s),
{
    let q = quote_spec(s);
    if s.len() > 0 && all_safe(s) {
        lemma_parse_safe(s);
    } else if !s.contains('\'') {
        assert(q[0] == '\'');
        assert(q.drop_first() =~= s + seq!['\''] + Seq::<char>::empty());
        lemma_parse_sq_body(s, Seq::empty());
    } else {
        assert(q[0] == '"');
        assert(q.drop_first() =~= dq_escape(s) + seq!['"'] + Seq::<char>::empty());
        lemma_parse_dq_body(s, Seq::empty());
    }
}

fn exec_safe_char(c: char) -> (r: bool)
    ensures
        r == is_safe_char(c),
{
    ('a' <= c && c <= 'z') || ('A' <= c && c <= 'Z') || ('0' <= c && c <= '9') || c == '_' || c
        == '.' || c == '/' || c == '-' || c == ':' || c == '=' || c == '+' || c == ',' || c == '@'
        || c == '%'
}

fn exec_dq_escapable(c: char) -> (r: bool)
    ensures
        r == dq_escapable(c),
{
    c == '"' || c == '\\' || c == '$' || c == '`'
}

/// Shell-quotes one word.
pub fn quote(s: &str) -> (r: String)
    ensures
        r@ == quote_spec(s@),
        sh_word(r@) == Some(s@),
{
    let cs = str_chars(s);
    let n = cs.len();
    let mut safe = n > 0;
    let mut has_sq = false;
    let mut i: usize = 0;
    while i < n
        invariant
            n == cs@.len(),
            cs@ == s@,
            i <= n,
            safe == (n > 0 && forall|j: int| 0 <= j < i ==> is_safe_char(#[trigger] cs@[j])),
            has_sq == exists|j: int| 0 <= j < i && cs@[j] == '\'',
        decreases n - i,
    {
        let c = cs[i];
        if !exec_safe_char(c) {
            safe = false;
        }
        if c == '\'' {
            has_sq = true;
        }
        i += 1;
    }
    let mut out: Vec<char> = Vec::new();
    if safe {
        let r = chars_string(&cs);
        proof {
            lemma_quote_round_trip(s@);
        }
        return r;
    }
    if !has_sq {
        out.push('\'');
        let mut k: usize = 0;
        while k < n
            invariant
                n == cs@.len(),
                cs@ == s@,
                k <= n,
                out@ =~= seq!['\''] + s@.take(k as int),
            decreases n - k,
        {
            out.push(cs[k]);
            k += 1;
        }
        out.push('\'');
        proof {
            assert(!s@.contains('\'')) by {
                if s@.contains('\'') {
                    let j = choose|j: int| 0 <= j < s@.len() && s@[j] == '\'';
                    assert(cs@[j] == '\'');
                }
            }
            assert(out@ =~= seq!['\''] + s@ + seq!['\'']);
            lemma_quote_round_trip(s@);
        }
        return chars_string(&out);
    }
    out.push('"');
    let mut k: usize = 0;
    while k < n
        invariant
            n == cs@.len(),
            cs@ == s@,
            k <= n,
            out@ =~= seq!['"'] + dq_escape(s@.take(k as int)),
        decreases n - k,
    {
        let c = cs[k];
        proof {
            lemma_dq_escape_snoc(s@.take(k as int), c);
            assert(s@.take(k + 1) =~= s@.take(k as int).push(c));
        }
        if exec_dq_escapable(c) {
            out.push('\\');
        }
        out.push(c);
        k += 1;
    }
    out.push('"');
    proof {
        assert(s@.take(n as int) =~= s@);
        assert(out@ =~= seq!['"'] + dq_escape(s@) + seq!['"']);
        assert(s@.contains('\'')) by {
            let j = choose|j: int| 0 <= j < s@.len() && cs@[j] == '\'';
            assert(s@[j] == '\'');
        }
        assert(!(s@.len() > 0 && all_safe(s@))) by {
            let j = choose|j: int| 0 <= j < s@.len() && cs@[j] == '\'';
            assert(s@[j] == '\'');
            assert(!is_safe_char('\''));
        }
        lemma_quote_round_trip(s@);
    }
    chars_string(&out)
}

#[verifier::spinoff_prover]
#[verifier::rlimit(60)]
proof fn lemma_dq_escape_snoc(s: Seq<char>, c: char)
    ensures
        dq_escape(s.push(c)) =~= dq_escape(s) + if dq_escapable(c) {
            seq!['\\', c]
        } else {
            seq![c]
        },
    decreases s.len(),
{
    let sp = s.push(c);
    if s.len() == 0 {
        assert(sp[0] == c);
        assert(sp.drop_first() =~= Seq::<char>::empty());
    } else {
        assert(sp[0] == s[0]);
        assert(sp.drop_first() =~= s.drop_first().push(c));
        lemma_dq_escape_snoc(s.drop_first(), c);
        let h = if dq_escapable(s[0]) {
            seq!['\\', s[0]]
        } else {
            seq![s[0]]
        };
        let tail = if dq_escapable(c) {
            seq!['\\', c]
        } else {
            seq![c]
        };
        assert(dq_escape(sp) == h + dq_escape(sp.drop_first()));
        assert(dq_escape(s) == h + dq_escape(s.drop_first()));
        assert(h + (dq_escape(s.drop_first()) + tail) =~= (h + dq_escape(s.drop_first())) + tail);
    }
}

/// Shell-quotes each argument and joins them with single spaces, so that
/// `sh` reads the result back as exactly the given argument list.
pub fn quote_args(args: &Vec<String>) -> (r: String)
    ensures
        args@.len() == 0 ==> r@ == Seq::<char>::empty(),
        args@.len() > 0 ==> r@ == quote_args_spec(
            Seq::new(args@.len(), |i: int| args@[i]@),
        ) && sh_words(r@) == Some(Seq::new(args@.len(), |i: int| args@[i]@)),
{
    proof {
        lemma_quote_args_round_trip(Seq::new(args@.len(), |i: int| args@[i]@));
    }
    let mut out = String::new();
    let mut i: usize = 0;
    while i < args.len()
        invariant
            i <= args@.len(),
            i == 0 ==> out@ =~= Seq::<char>::empty(),
            i > 0 ==> out@ =~= quote_args_spec(Seq::new(i as nat, |j: int| args@[j]@)),
        decreases args@.len() - i,
    {
        let q = quote(args[i].as_str());
        if i > 0 {
            out.push(' ');
        }
        out.append(q.as_str());
        proof {
            let views = Seq::new((i + 1) as nat, |j: int| args@[j]@);
            assert(views.drop_last() =~= Seq::new(i as nat, |j: int| args@[j]@));
            if i > 0 {
                assert(out@ =~= quote_args_spec(views.drop_last()) + seq![' '] + quote_spec(
                    views.last(),
                ));
            } else {
                assert(out@ =~= quote_spec(views.last()));
            }
        }
        i += 1;
    }
    out
}

/// The quoted arguments joined with single spaces.
pub open spec fn quote_args_spec(args: Seq<Seq<char>>) -> Seq<char>
    decreases args.len(),
{
    if args.len() == 0 {
        Seq::empty()
    } else if args.len() == 1 {
        quote_spec(args[0])
    } else {
        quote_args_spec(args.drop_last()) + seq![' '] + quote_spec(args.last())
    }
}


// Reading a whole word LIST as `sh` does: words of the same three span
// kinds, separated by single spaces.

/// One word and what follows it; the remainder is empty or begins at the
/// separating space.
pub open spec fn parse_word(s: Seq<char>) -> Option<(Seq<char>, Seq<char>)>
    decreases s.len(), 0int,
{
    if s.len() == 0 {
        Some((Seq::empty(), Seq::empty()))
    } else if s[0] == ' ' {
        Some((Seq::empty(), s))
    } else if s[0] == '\'' {
        parse_word_sq(s.drop_first())
    } else if s[0] == '"' {
        parse_word_dq(s.drop_first())
    } else if is_safe_char(s[0]) {
        match parse_word(s.drop_first()) {
            Some((w, rest)) => Some((seq![s[0]] + w, rest)),
            None => None,
        }
    } else {
        None
    }
}

pub open spec fn parse_word_sq(s: Seq<char>) -> Option<(Seq<char>, Seq<char>)>
    decreases s.len(), 1int,
{
    if s.len() == 0 {
        None
    } else if s[0] == '\'' {
        parse_word(s.drop_first())
    } else {
        match parse_word_sq(s.drop_first()) {
            Some((w, rest)) => Some((seq![s[0]] + w, rest)),
            None => None,
        }
    }
}

pub open spec fn parse_word_dq(s: Seq<char>) -> Option<(Seq<char>, Seq<char>)>
    decreases s.len(), 1int,
{
    if s.len() == 0 {
        None
    } else if s[0] == '"' {
        parse_word(s.drop_first())
    } else if s[0] == '\\' && s.len() >= 2 && dq_escapable(s[1]) {
        match parse_word_dq(s.skip(2)) {
            Some((w, rest)) => Some((seq![s[1]] + w, rest)),
            None => None,
        }
    } else {
        match parse_word_dq(s.drop_first()) {
            Some((w, rest)) => Some((seq![s[0]] + w, rest)),
            None => None,
        }
    }
}

#[verifier::spinoff_prover]
#[verifier::rlimit(60)]
proof fn lemma_parse_word_rest(s: Seq<char>)
    ensures
        parse_word(s) matches Some(p) ==> p.1.len() <= s.len(),
        parse_word_sq(s) matches Some(p) ==> p.1.len() <= s.len(),
        parse_word_dq(s) matches Some(p) ==> p.1.len() <= s.len(),
    decreases s.len(),
{
    if s.len() > 0 {
        lemma_parse_word_rest(s.drop_first());
        if s.len() >= 2 {
            lemma_parse_word_rest(s.skip(2));
        }
    }
}

/// What `sh` reads the text as: a list of words separated by single
/// spaces.
pub open spec fn sh_words(s: Seq<char>) -> Option<Seq<Seq<char>>>
    decreases s.len(),
    via sh_words_dec
{
    if s.len() == 0 {
        Some(Seq::empty())
    } else {
        match parse_word(s) {
            None => None,
            Some((w, rest)) => if rest.len() == 0 {
                Some(seq![w])
            } else {
                match sh_words(rest.drop_first()) {
                    Some(ws) => Some(seq![w] + ws),
                    None => None,
                }
            },
        }
    }
}

#[via_fn]
proof fn sh_words_dec(s: Seq<char>) {
    if s.len() > 0 {
        lemma_parse_word_rest(s);
    }
}

#[verifier::spinoff_prover]
#[verifier::rlimit(60)]
proof fn lemma_pw_safe(s: Seq<char>, rest: Seq<char>)
    requires
        all_safe(s),
        rest.len() == 0 || rest[0] == ' ',
    ensures
        parse_word(s + rest) == Some((s, rest)),
    decreases s.len(),
{
    let whole = s + rest;
    if s.len() == 0 {
        assert(whole =~= rest);
    } else {
        assert(whole[0] == s[0]);
        assert(is_safe_char(s[0]));
        assert(s[0] != ' ' && s[0] != '\'' && s[0] != '"');
        lemma_pw_safe(s.drop_first(), rest);
        assert(whole.drop_first() =~= s.drop_first() + rest);
        assert(seq![s[0]] + s.drop_first() =~= s);
    }
}

#[verifier::spinoff_prover]
#[verifier::rlimit(60)]
proof fn lemma_pw_sq(s: Seq<char>, rest: Seq<char>)
    requires
        !s.contains('\''),
        rest.len() == 0 || rest[0] == ' ',
    ensures
        parse_word_sq(s + seq!['\''] + rest) == Some((s, rest)),
    decreases s.len(),
{
    let whole = s + seq!['\''] + rest;
    if s.len() == 0 {
        assert(whole[0] == '\'');
        assert(whole.drop_first() =~= rest);
        assert(s =~= Seq::<char>::empty());
        if rest.len() == 0 {
            assert(rest =~= Seq::<char>::empty());
            assert(parse_word_sq(whole) == Some((s, rest)));
        } else {
            assert(rest[0] == ' ');
            assert(parse_word(rest) == Some((Seq::<char>::empty(), rest)));
            assert(parse_word_sq(whole) == Some((s, rest)));
        }
    } else {
        assert(whole.len() > 0);
        assert(whole[0] == s[0]);
        assert(s[0] != '\'');
        lemma_pw_sq(s.drop_first(), rest);
        assert(whole.drop_first() =~= s.drop_first() + seq!['\''] + rest);
        assert(parse_word_sq(whole.drop_first()) == Some((s.drop_first(), rest)));
        assert(parse_word_sq(whole) == Some((seq![s[0]] + s.drop_first(), rest)));
        assert(seq![s[0]] + s.drop_first() =~= s);
        assert(parse_word_sq(whole) == Some((s, rest)));
    }
}

#[verifier::spinoff_prover]
#[verifier::rlimit(60)]
proof fn lemma_pw_dq(s: Seq<char>, rest: Seq<char>)
    requires
        rest.len() == 0 || rest[0] == ' ',
    ensures
        parse_word_dq(dq_escape(s) + seq!['"'] + rest) == Some((s, rest)),
    decreases s.len(),
{
    let whole = dq_escape(s) + seq!['"'] + rest;
    if s.len() == 0 {
        assert(whole[0] == '"');
        assert(whole.drop_first() =~= rest);
        assert(s =~= Seq::<char>::empty());
        if rest.len() == 0 {
            assert(rest =~= Seq::<char>::empty());
            assert(parse_word_dq(whole) == Some((s, rest)));
        } else {
            assert(rest[0] == ' ');
            assert(parse_word(rest) == Some((Seq::<char>::empty(), rest)));
            assert(parse_word_dq(whole) == Some((s, rest)));
        }
    } else {
        lemma_pw_dq(s.drop_first(), rest);
        if dq_escapable(s[0]) {
            assert(dq_escape(s) =~= seq!['\\', s[0]] + dq_escape(s.drop_first()));
            assert(whole[0] == '\\');
            assert(whole.len() >= 2);
            assert(whole[1] == s[0]);
            assert(dq_escapable(whole[1]));
            assert(whole.skip(2) =~= dq_escape(s.drop_first()) + seq!['"'] + rest);
            assert(parse_word_dq(whole.skip(2)) == Some((s.drop_first(), rest)));
            assert(parse_word_dq(whole) == Some((seq![whole[1]] + s.drop_first(), rest)));
            assert(seq![s[0]] + s.drop_first() =~= s);
            assert(parse_word_dq(whole) == Some((s, rest)));
        } else {
            assert(dq_escape(s) =~= seq![s[0]] + dq_escape(s.drop_first()));
            assert(whole[0] == s[0]);
            assert(s[0] != '"' && s[0] != '\\');
            assert(whole.drop_first() =~= dq_escape(s.drop_first()) + seq!['"'] + rest);
            assert(parse_word_dq(whole.drop_first()) == Some((s.drop_first(), rest)));
            assert(parse_word_dq(whole) == Some((seq![whole[0]] + s.drop_first(), rest)));
            assert(seq![s[0]] + s.drop_first() =~= s);
            assert(parse_word_dq(whole) == Some((s, rest)));
        }
    }
}

#[verifier::spinoff_prover]
#[verifier::rlimit(60)]
proof fn lemma_pw_quote(arg: Seq<char>, rest: Seq<char>)
    requires
        rest.len() == 0 || rest[0] == ' ',
    ensures
        parse_word(quote_spec(arg) + rest) == Some((arg, rest)),
{
    let q = quote_spec(arg);
    if arg.len() > 0 && all_safe(arg) {
        lemma_pw_safe(arg, rest);
    } else if !arg.contains('\'') {
        let whole = q + rest;
        assert(whole[0] == '\'');
        assert(whole.drop_first() =~= arg + seq!['\''] + rest);
        lemma_pw_sq(arg, rest);
    } else {
        let whole = q + rest;
        assert(whole[0] == '"');
        assert(whole.drop_first() =~= dq_escape(arg) + seq!['"'] + rest);
        lemma_pw_dq(arg, rest);
    }
}

#[verifier::spinoff_prover]
#[verifier::rlimit(60)]
proof fn lemma_qas_front(args: Seq<Seq<char>>)
    requires
        args.len() >= 2,
    ensures
        quote_args_spec(args) == quote_spec(args[0]) + seq![' '] + quote_args_spec(
            args.drop_first(),
        ),
    decreases args.len(),
{
    if args.len() == 2 {
        assert(args.drop_last()[0] == args[0]);
        assert(args.drop_last() =~= seq![args[0]]);
        assert(args.drop_first() =~= seq![args[1]]);
        assert(args.last() == args[1]);
        assert(quote_args_spec(args.drop_last()) == quote_spec(args[0]));
        assert(quote_args_spec(args.drop_first()) == quote_spec(args[1]));
        assert(quote_args_spec(args) == quote_spec(args[0]) + seq![' '] + quote_spec(args[1]));
    } else {
        lemma_qas_front(args.drop_last());
        assert(args.drop_last()[0] == args[0]);
        assert(args.drop_last().drop_first() =~= args.drop_first().drop_last());
        assert(args.drop_first().last() == args.last());
        let head = quote_spec(args[0]) + seq![' '];
        let mid = quote_args_spec(args.drop_first().drop_last());
        let tail = seq![' '] + quote_spec(args.last());
        assert(quote_args_spec(args) == (head + mid) + tail);
        assert((head + mid) + tail =~= head + (mid + tail));
        assert(quote_args_spec(args.drop_first()) == mid + tail);
    }
}

/// The whole round trip: `sh` reads the quoted, space-joined arguments
/// back as exactly the argument list, so executing them through a shell
/// is executing the arguments themselves.
#[verifier::spinoff_prover]
#[verifier::rlimit(60)]
pub proof fn lemma_quote_args_round_trip(args: Seq<Seq<char>>)
    ensures
        args.len() > 0 ==> sh_words(quote_args_spec(args)) == Some(args),
    decreases args.len(),
{
    if args.len() == 1 {
        lemma_pw_quote(args[0], Seq::empty());
        assert(quote_args_spec(args) =~= quote_spec(args[0]) + Seq::<char>::empty());
        if quote_args_spec(args).len() == 0 {
            // an empty argument still quotes to a nonempty word
            assert(quote_spec(args[0]).len() > 0) by {
                if args[0].len() > 0 && all_safe(args[0]) {
                } else if !args[0].contains('\'') {
                    assert(quote_spec(args[0])[0] == '\'');
                } else {
                    assert(quote_spec(args[0])[0] == '"');
                }
            }
        }
        assert(sh_words(quote_args_spec(args)) =~= Some(seq![args[0]]));
        assert(seq![args[0]] =~= args);
    } else if args.len() >= 2 {
        lemma_qas_front(args);
        lemma_quote_args_round_trip(args.drop_first());
        let restw = quote_args_spec(args.drop_first());
        let sep_rest = seq![' '] + restw;
        assert(sep_rest[0] == ' ');
        lemma_pw_quote(args[0], sep_rest);
        let whole = quote_args_spec(args);
        assert(whole =~= quote_spec(args[0]) + sep_rest);
        assert(whole.len() > 0) by {
            assert(sep_rest.len() > 0);
        }
        assert(sep_rest.drop_first() =~= restw);
        assert(seq![args[0]] + args.drop_first() =~= args);
    }
}
} // verus!
