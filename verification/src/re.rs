use vstd::prelude::*;

verus! {

/// Whether `pattern` is a regular expression that compiles.
pub uninterp spec fn valid_re(pattern: Seq<char>) -> bool;

/// Whether the compiled `pattern` matches somewhere in `text`.
pub uninterp spec fn re_match(pattern: Seq<char>, text: Seq<char>) -> bool;

/// `text` with the first `n` matches of `pattern` replaced by `rep`
/// (every match when `n` is zero).
pub uninterp spec fn re_replacen(
    pattern: Seq<char>,
    text: Seq<char>,
    n: nat,
    rep: Seq<char>,
) -> Seq<char>;

/// `s` with every regular-expression metacharacter escaped.
pub uninterp spec fn re_escaped(s: Seq<char>) -> Seq<char>;

/// Relies on regex::Regex::new and regex::Regex::is_match: whether the
/// pattern compiles, and whether it matches, depend on the pattern and the
/// text alone.
#[verifier::external_body]
pub fn regex_match(pattern: &str, text: &str) -> (r: Option<bool>)
    ensures
        r == if valid_re(pattern@) {
            Some(re_match(pattern@, text@))
        } else {
            None::<bool>
        },
{
    match regex::Regex::new(pattern) {
        Ok(re) => Some(re.is_match(text)),
        Err(_) => None,
    }
}

/// Relies on regex::Regex::new and regex::Regex::replacen: the replacement
/// depends on the pattern, the text, the limit and the replacement alone.
#[verifier::external_body]
pub fn regex_replacen(pattern: &str, text: &str, n: usize, rep: &str) -> (r: Option<String>)
    ensures
        match r {
            Some(s) => valid_re(pattern@) && s@ == re_replacen(pattern@, text@, n as nat, rep@),
            None => !valid_re(pattern@),
        },
{
    match regex::Regex::new(pattern) {
        Ok(re) => Some(re.replacen(text, n, rep).to_string()),
        Err(_) => None,
    }
}

/// Relies on regex::escape: the result depends on the input alone.
#[verifier::external_body]
pub fn regex_escape(s: &str) -> (r: String)
    ensures
        r@ == re_escaped(s@),
{
    regex::escape(s)
}

} // verus!
