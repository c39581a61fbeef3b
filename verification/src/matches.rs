use vstd::prelude::*;

verus! {

use crate::error::Error;
use crate::re::{re_match, valid_re, regex_match};

/// A composable predicate over a command's captured outputs. Regular
/// expressions are tested against standard output, standard error, or
/// either.
pub enum Matches {
    And(Vec<Matches>),
    Or(Vec<Matches>),
    AnyRe(String),
    ErrRe(String),
    OutRe(String),
}

/// What evaluating the predicate yields: the verdict, or nothing when a
/// pattern does not compile. `And` and `Or` stop at the first deciding or
/// failing member.
pub open spec fn eval(m: Matches, out: Seq<char>, err: Seq<char>) -> Option<bool>
    decreases m,
    via eval_dec
{
    match m {
        Matches::And(ms) => eval_all(ms@, out, err),
        Matches::Or(ms) => eval_any(ms@, out, err),
        Matches::AnyRe(re) => if valid_re(re@) {
            Some(re_match(re@, out) || re_match(re@, err))
        } else {
            None
        },
        Matches::ErrRe(re) => if valid_re(re@) {
            Some(re_match(re@, err))
        } else {
            None
        },
        Matches::OutRe(re) => if valid_re(re@) {
            Some(re_match(re@, out))
        } else {
            None
        },
    }
}

pub open spec fn eval_all(s: Seq<Matches>, out: Seq<char>, err: Seq<char>) -> Option<bool>
    decreases s,
    via eval_all_dec
{
    if s.len() == 0 {
        Some(true)
    } else {
        match eval(s[0], out, err) {
            None => None,
            Some(false) => Some(false),
            Some(true) => eval_all(s.drop_first(), out, err),
        }
    }
}

pub open spec fn eval_any(s: Seq<Matches>, out: Seq<char>, err: Seq<char>) -> Option<bool>
    decreases s,
    via eval_any_dec
{
    if s.len() == 0 {
        Some(false)
    } else {
        match eval(s[0], out, err) {
            None => None,
            Some(true) => Some(true),
            Some(false) => eval_any(s.drop_first(), out, err),
        }
    }
}

#[via_fn]
proof fn eval_dec(m: Matches, out: Seq<char>, err: Seq<char>) {
    match m {
        Matches::And(ms) => {
            assert(decreases_to!(m => ms));
            assert(decreases_to!(ms => ms@));
        }
        Matches::Or(ms) => {
            assert(decreases_to!(m => ms));
            assert(decreases_to!(ms => ms@));
        }
        _ => {}
    }
}

#[via_fn]
proof fn eval_all_dec(s: Seq<Matches>, out: Seq<char>, err: Seq<char>) {
    if s.len() > 0 {
        assert(decreases_to!(s => s[0]));
        assert(decreases_to!(s => s.drop_first()));
    }
}

#[via_fn]
proof fn eval_any_dec(s: Seq<Matches>, out: Seq<char>, err: Seq<char>) {
    if s.len() > 0 {
        assert(decreases_to!(s => s[0]));
        assert(decreases_to!(s => s.drop_first()));
    }
}

fn is_match_all(ms: &Vec<Matches>, out: &str, err: &str) -> (r: Result<bool, Error>)
    ensures
        match r {
            Ok(b) => eval_all(ms@, out@, err@) == Some(b),
            Err(e) => eval_all(ms@, out@, err@) is None && e is BadRegex,
        },
    decreases ms@,
{
    let mut i: usize = 0;
    proof {
        assert(ms@.skip(0) =~= ms@);
    }
    while i < ms.len()
        invariant
            i <= ms@.len(),
            eval_all(ms@, out@, err@) == eval_all(ms@.skip(i as int), out@, err@),
            forall|j: int| 0 <= j < i ==> eval(ms@[j], out@, err@) == Some(true),
        decreases ms@.len() - i,
    {
        proof {
            assert(decreases_to!(ms@ => ms@[i as int]));
        }
        let v = ms[i].is_match(out, err);
        proof {
            assert(ms@.skip(i as int)[0] == ms@[i as int]);
            assert(ms@.skip(i as int).drop_first() =~= ms@.skip(i + 1));
        }
        match v {
            Err(e) => {
                return Err(e);
            }
            Ok(false) => {
                return Ok(false);
            }
            Ok(true) => {},
        }
        i += 1;
    }
    proof {
        assert(ms@.skip(ms@.len() as int).len() == 0);
    }
    Ok(true)
}

fn is_match_any(ms: &Vec<Matches>, out: &str, err: &str) -> (r: Result<bool, Error>)
    ensures
        match r {
            Ok(b) => eval_any(ms@, out@, err@) == Some(b),
            Err(e) => eval_any(ms@, out@, err@) is None && e is BadRegex,
        },
    decreases ms@,
{
    let mut i: usize = 0;
    proof {
        assert(ms@.skip(0) =~= ms@);
    }
    while i < ms.len()
        invariant
            i <= ms@.len(),
            eval_any(ms@, out@, err@) == eval_any(ms@.skip(i as int), out@, err@),
            forall|j: int| 0 <= j < i ==> eval(ms@[j], out@, err@) == Some(false),
        decreases ms@.len() - i,
    {
        proof {
            assert(decreases_to!(ms@ => ms@[i as int]));
        }
        let v = ms[i].is_match(out, err);
        proof {
            assert(ms@.skip(i as int)[0] == ms@[i as int]);
            assert(ms@.skip(i as int).drop_first() =~= ms@.skip(i + 1));
        }
        match v {
            Err(e) => {
                return Err(e);
            }
            Ok(true) => {
                return Ok(true);
            }
            Ok(false) => {},
        }
        i += 1;
    }
    proof {
        assert(ms@.skip(ms@.len() as int).len() == 0);
    }
    Ok(false)
}

impl Matches {
    /// Evaluates the predicate against the two captured outputs; an error
    /// names the first pattern that does not compile.
    pub fn is_match(&self, out: &str, err: &str) -> (r: Result<bool, Error>)
        ensures
            match r {
                Ok(b) => eval(*self, out@, err@) == Some(b),
                Err(e) => eval(*self, out@, err@) is None && e is BadRegex,
            },
        decreases *self,
    {
        match self {
            Matches::And(ms) => {
                proof {
                    assert(decreases_to!(*self => *ms));
                    assert(decreases_to!(*ms => ms@));
                }
                is_match_all(ms, out, err)
            }
            Matches::Or(ms) => {
                proof {
                    assert(decreases_to!(*self => *ms));
                    assert(decreases_to!(*ms => ms@));
                }
                is_match_any(ms, out, err)
            }
            Matches::AnyRe(re) => {
                match regex_match(re.as_str(), out) {
                    None => Err(Error::BadRegex(re.clone())),
                    Some(true) => Ok(true),
                    Some(false) => {
                        let r2 = regex_match(re.as_str(), err);
                        match r2 {
                            None => Err(Error::BadRegex(re.clone())),
                            Some(b) => Ok(b),
                        }
                    }
                }
            }
            Matches::ErrRe(re) => {
                match regex_match(re.as_str(), err) {
                    None => Err(Error::BadRegex(re.clone())),
                    Some(b) => Ok(b),
                }
            }
            Matches::OutRe(re) => {
                match regex_match(re.as_str(), out) {
                    None => Err(Error::BadRegex(re.clone())),
                    Some(b) => Ok(b),
                }
            }
        }
    }
}

/// A one-member `And` and a one-member `Or` both mean their member.
pub proof fn lemma_matches_singleton(ms: Vec<Matches>, out: Seq<char>, err: Seq<char>)
    requires
        ms@.len() == 1,
    ensures
        eval(Matches::And(ms), out, err) == eval(ms@[0], out, err),
        eval(Matches::Or(ms), out, err) == eval(ms@[0], out, err),
{
    assert(ms@.drop_first().len() == 0);
    assert(eval_all(ms@.drop_first(), out, err) == Some(true));
    assert(eval_any(ms@.drop_first(), out, err) == Some(false));
}

} // verus!
