use vstd::prelude::*;

verus! {

use crate::error::Error;
use crate::value::{Val, Vm, val_of};
use crate::effects::{Feed, Stop};
use crate::context::Context;
use crate::strings::{str_chars, chars_string};
use vstd::string::StrSliceExecFns;
use vstd::string::StringExecFns;

// --- the variable grammar ------------------------------------------------
//
//   [ KIND [ '(' k:v [ ',' k:v ]* ')' ] '%' ] name [ ':' type [ '|' type ]* ]
//
// KIND and each type are word characters; the name is word characters and
// dots; spaces may stand around '%', ':' and '|'.

pub open spec fn is_word_char(c: char) -> bool {
    ||| 'a' <= c && c <= 'z'
    ||| 'A' <= c && c <= 'Z'
    ||| '0' <= c && c <= '9'
    ||| c == '_'
}

pub open spec fn is_name_char(c: char) -> bool {
    is_word_char(c) || c == '.'
}

pub open spec fn is_blank(c: char) -> bool {
    c == ' ' || c == '\t'
}

/// First index at or after `i` whose character fails `word`-ness, or the
/// length.
pub open spec fn scan_word(s: Seq<char>, i: int) -> int
    decreases s.len() - i,
{
    if i < 0 {
        i
    } else if i >= s.len() {
        s.len() as int
    } else if is_word_char(s[i]) {
        scan_word(s, i + 1)
    } else {
        i
    }
}

pub open spec fn scan_name(s: Seq<char>, i: int) -> int
    decreases s.len() - i,
{
    if i < 0 {
        i
    } else if i >= s.len() {
        s.len() as int
    } else if is_name_char(s[i]) {
        scan_name(s, i + 1)
    } else {
        i
    }
}

pub open spec fn scan_blank(s: Seq<char>, i: int) -> int
    decreases s.len() - i,
{
    if i < 0 {
        i
    } else if i >= s.len() {
        s.len() as int
    } else if is_blank(s[i]) {
        scan_blank(s, i + 1)
    } else {
        i
    }
}

pub open spec fn scan_until(s: Seq<char>, i: int, c: char) -> int
    decreases s.len() - i,
{
    if i < 0 {
        i
    } else if i >= s.len() {
        s.len() as int
    } else if s[i] == c {
        i
    } else {
        scan_until(s, i + 1, c)
    }
}


proof fn lemma_scan_word_bounds(s: Seq<char>, i: int)
    requires
        0 <= i <= s.len(),
    ensures
        i <= scan_word(s, i) <= s.len(),
    decreases s.len() - i,
{
    if i < s.len() && is_word_char(s[i]) {
        lemma_scan_word_bounds(s, i + 1);
    }
}

proof fn lemma_scan_blank_bounds(s: Seq<char>, i: int)
    requires
        0 <= i <= s.len(),
    ensures
        i <= scan_blank(s, i) <= s.len(),
    decreases s.len() - i,
{
    if i < s.len() && is_blank(s[i]) {
        lemma_scan_blank_bounds(s, i + 1);
    }
}

/// The parsed pieces of a variable declaration, still as text.
pub struct VarParts {
    pub kind: Seq<char>,
    pub args: Option<Seq<char>>,
    pub name: Seq<char>,
    pub types: Seq<Seq<char>>,
}

/// The list of type names after the colon: words separated by `|`, spaces
/// allowed around the bars.
pub open spec fn parse_type_list(s: Seq<char>, i: int) -> Option<Seq<Seq<char>>>
    decreases s.len() - i,
    via parse_type_list_dec
{
    let w = scan_word(s, i);
    if i < 0 || w <= i || w > s.len() {
        None
    } else {
        let ty = s.subrange(i, w);
        let p = scan_blank(s, w);
        if p >= s.len() {
            Some(seq![ty])
        } else if s[p] == '|' {
            let t2 = scan_blank(s, p + 1);
            match parse_type_list(s, t2) {
                Some(r) => Some(seq![ty] + r),
                None => None,
            }
        } else {
            None
        }
    }
}

#[via_fn]
proof fn parse_type_list_dec(s: Seq<char>, i: int) {
    if 0 <= i <= s.len() {
        lemma_scan_word_bounds(s, i);
        let w = scan_word(s, i);
        if i < w <= s.len() {
            lemma_scan_blank_bounds(s, w);
            let p = scan_blank(s, w);
            if p < s.len() && s[p] == '|' {
                lemma_scan_blank_bounds(s, p + 1);
            }
        }
    }
}

/// The name and optional type list starting at `i`.
pub open spec fn parse_name_types(
    s: Seq<char>,
    i: int,
    kind: Seq<char>,
    args: Option<Seq<char>>,
) -> Option<VarParts> {
    let n = scan_name(s, i);
    if n <= i {
        None
    } else {
        let name = s.subrange(i, n);
        let p = scan_blank(s, n);
        if p >= s.len() {
            Some(VarParts { kind, args, name, types: Seq::empty() })
        } else if s[p] == ':' {
            let t = scan_blank(s, p + 1);
            match parse_type_list(s, t) {
                Some(types) => Some(VarParts { kind, args, name, types }),
                None => None,
            }
        } else {
            None
        }
    }
}

/// The whole declaration: an optional kind section, then name and types.
pub open spec fn var_parse(s: Seq<char>) -> Option<VarParts> {
    let w = scan_word(s, 0);
    if w > 0 && w < s.len() && s[w] == '(' {
        let close = scan_until(s, w + 1, ')');
        if close >= s.len() || close <= w + 1 {
            None
        } else {
            let args = s.subrange(w + 1, close);
            let p = scan_blank(s, close + 1);
            if p < s.len() && s[p] == '%' {
                parse_name_types(s, scan_blank(s, p + 1), s.subrange(0, w), Some(args))
            } else {
                None
            }
        }
    } else {
        let p = scan_blank(s, w);
        if w > 0 && p < s.len() && s[p] == '%' {
            parse_name_types(s, scan_blank(s, p + 1), s.subrange(0, w), None)
        } else {
            parse_name_types(s, 0, Seq::empty(), None)
        }
    }
}

// --- exec scanning over a char vector ------------------------------------

fn exec_is_word_char(c: char) -> (r: bool)
    ensures
        r == is_word_char(c),
{
    ('a' <= c && c <= 'z') || ('A' <= c && c <= 'Z') || ('0' <= c && c <= '9') || c == '_'
}

fn exec_scan_word(cs: &Vec<char>, i: usize) -> (r: usize)
    requires
        i <= cs@.len(),
    ensures
        r == scan_word(cs@, i as int),
        i <= r <= cs@.len(),
{
    let mut j = i;
    while j < cs.len() && exec_is_word_char(cs[j])
        invariant
            i <= j <= cs@.len(),
            scan_word(cs@, i as int) == scan_word(cs@, j as int),
        decreases cs@.len() - j,
    {
        j += 1;
    }
    j
}

fn exec_scan_name(cs: &Vec<char>, i: usize) -> (r: usize)
    requires
        i <= cs@.len(),
    ensures
        r == scan_name(cs@, i as int),
        i <= r <= cs@.len(),
{
    let mut j = i;
    while j < cs.len() && (exec_is_word_char(cs[j]) || cs[j] == '.')
        invariant
            i <= j <= cs@.len(),
            scan_name(cs@, i as int) == scan_name(cs@, j as int),
        decreases cs@.len() - j,
    {
        j += 1;
    }
    j
}

fn exec_scan_blank(cs: &Vec<char>, i: usize) -> (r: usize)
    requires
        i <= cs@.len(),
    ensures
        r == scan_blank(cs@, i as int),
        i <= r <= cs@.len(),
{
    let mut j = i;
    while j < cs.len() && (cs[j] == ' ' || cs[j] == '\t')
        invariant
            i <= j <= cs@.len(),
            scan_blank(cs@, i as int) == scan_blank(cs@, j as int),
        decreases cs@.len() - j,
    {
        j += 1;
    }
    j
}

fn exec_scan_until(cs: &Vec<char>, i: usize, c: char) -> (r: usize)
    requires
        i <= cs@.len(),
    ensures
        r == scan_until(cs@, i as int, c),
        i <= r <= cs@.len(),
{
    let mut j = i;
    while j < cs.len() && cs[j] != c
        invariant
            i <= j <= cs@.len(),
            scan_until(cs@, i as int, c) == scan_until(cs@, j as int, c),
        decreases cs@.len() - j,
    {
        j += 1;
    }
    j
}

/// Copies a character range out as a string.
pub fn copy_range(cs: &Vec<char>, from: usize, to: usize) -> (r: String)
    requires
        from <= to <= cs@.len(),
    ensures
        r@ == cs@.subrange(from as int, to as int),
{
    let mut out: Vec<char> = Vec::new();
    let mut i = from;
    while i < to
        invariant
            from <= i <= to <= cs@.len(),
            out@ =~= cs@.subrange(from as int, i as int),
        decreases to - i,
    {
        out.push(cs[i]);
        proof {
            assert(out@ =~= cs@.subrange(from as int, i + 1));
        }
        i += 1;
    }
    chars_string(&out)
}

fn exec_parse_type_list(cs: &Vec<char>, i: usize, out: &mut Vec<String>) -> (ok: bool)
    requires
        i <= cs@.len(),
        old(out)@.len() == 0,
    ensures
        match parse_type_list(cs@, i as int) {
            Some(types) => ok && crate::tsort::vviews(final(out)@) == types,
            None => !ok,
        },
    decreases cs@.len() - i,
{
    let w = exec_scan_word(cs, i);
    if w <= i {
        return false;
    }
    let ty = copy_range(cs, i, w);
    let p = exec_scan_blank(cs, w);
    if p >= cs.len() {
        out.push(ty);
        proof {
            assert(crate::tsort::vviews(out@) =~= seq![cs@.subrange(i as int, w as int)]);
        }
        return true;
    }
    if cs[p] == '|' {
        let t2 = exec_scan_blank(cs, p + 1);
        let mut rest: Vec<String> = Vec::new();
        let ok = exec_parse_type_list(cs, t2, &mut rest);
        if !ok {
            return false;
        }
        out.push(ty);
        let mut j: usize = 0;
        let ghost base = out@;
        while j < rest.len()
            invariant
                j <= rest@.len(),
                out@ =~= base + rest@.take(j as int),
            decreases rest@.len() - j,
        {
            let piece = rest[j].clone();
            out.push(piece);
            proof {
                assert(out@ =~= base + rest@.take(j + 1));
            }
            j += 1;
        }
        proof {
            assert(out@ =~= base + rest@);
            let types = parse_type_list(cs@, i as int).unwrap();
            assert(crate::tsort::vviews(out@) =~= types);
        }
        return true;
    }
    false
}

/// A parsed variable declaration: the textual pieces.
pub struct VarText {
    pub kind: String,
    pub args: Option<String>,
    pub name: String,
    pub types: Vec<String>,
}

pub open spec fn var_text_matches(t: VarText, p: VarParts) -> bool {
    &&& t.kind@ == p.kind
    &&& match (t.args, p.args) {
        (Some(a), Some(b)) => a@ == b,
        (None, None) => true,
        _ => false,
    }
    &&& t.name@ == p.name
    &&& crate::tsort::vviews(t.types@) == p.types
}

/// Parses a variable declaration into its textual pieces.
pub fn parse_var_text(s: &str) -> (r: Option<VarText>)
    ensures
        match r {
            Some(t) => var_parse(s@) matches Some(p) && var_text_matches(t, p),
            None => var_parse(s@) is None,
        },
{
    let cs = str_chars(s);
    let w = exec_scan_word(&cs, 0);
    if w > 0 && w < cs.len() && cs[w] == '(' {
        let close = exec_scan_until(&cs, w + 1, ')');
        if close >= cs.len() || close <= w + 1 {
            return None;
        }
        let args = copy_range(&cs, w + 1, close);
        let p = exec_scan_blank(&cs, close + 1);
        if p < cs.len() && cs[p] == '%' {
            let kind = copy_range(&cs, 0, w);
            let q = exec_scan_blank(&cs, p + 1);
            parse_var_name_types(&cs, q, kind, Some(args))
        } else {
            None
        }
    } else {
        let p = exec_scan_blank(&cs, w);
        if w > 0 && p < cs.len() && cs[p] == '%' {
            let kind = copy_range(&cs, 0, w);
            let q = exec_scan_blank(&cs, p + 1);
            parse_var_name_types(&cs, q, kind, None)
        } else {
            parse_var_name_types(&cs, 0, String::new(), None)
        }
    }
}

fn parse_var_name_types(cs: &Vec<char>, i: usize, kind: String, args: Option<String>) -> (r:
    Option<VarText>)
    requires
        i <= cs@.len(),
    ensures
        match r {
            Some(t) => parse_name_types(
                cs@,
                i as int,
                kind@,
                match args {
                    Some(a) => Some(a@),
                    None => None,
                },
            ) matches Some(p) && var_text_matches(t, p),
            None => parse_name_types(
                cs@,
                i as int,
                kind@,
                match args {
                    Some(a) => Some(a@),
                    None => None,
                },
            ) is None,
        },
{
    let n = exec_scan_name(cs, i);
    if n <= i {
        return None;
    }
    let name = copy_range(cs, i, n);
    let p = exec_scan_blank(cs, n);
    if p >= cs.len() {
        let r = VarText { kind, args, name, types: Vec::new() };
        proof {
            assert(crate::tsort::vviews(r.types@) =~= Seq::<Seq<char>>::empty());
        }
        return Some(r);
    }
    if cs[p] == ':' {
        let t = exec_scan_blank(cs, p + 1);
        let mut types: Vec<String> = Vec::new();
        let ok = exec_parse_type_list(cs, t, &mut types);
        if !ok {
            return None;
        }
        return Some(VarText { kind, args, name, types });
    }
    None
}


// --- kinds, types, and the semantic variable ------------------------------

/// Whether `c` is `l` read case-insensitively; `l` is a lower-case ASCII
/// letter or another exact character.
pub open spec fn is_lower_of(c: char, l: char) -> bool {
    c == l || ('a' <= l && l <= 'z' && c as u32 == l as u32 - 32)
}

/// Whether `s` is the keyword `t`, ASCII case-insensitively.
pub open spec fn kw_match(s: Seq<char>, t: Seq<char>) -> bool {
    s.len() == t.len() && forall|i: int| 0 <= i < s.len() ==> is_lower_of(#[trigger] s[i], t[i])
}

/// Whether `s` names the keyword `kw`, ASCII case-insensitively.
fn eq_ignore_case(s: &str, kw: &str) -> (r: bool)
    ensures
        r == kw_match(s@, kw@),
{
    let n = s.unicode_len();
    if n != kw.unicode_len() {
        return false;
    }
    let mut i: usize = 0;
    while i < n
        invariant
            n == s@.len() == kw@.len(),
            i <= n,
            forall|j: int| 0 <= j < i ==> is_lower_of(#[trigger] s@[j], kw@[j]),
        decreases n - i,
    {
        let c = s.get_char(i);
        let l = kw.get_char(i);
        let ok = c == l || ('a' <= l && l <= 'z' && c as u32 == l as u32 - 32);
        if !ok {
            return false;
        }
        i += 1;
    }
    true
}

/// A variable's kind: how its raw value is transformed when the variable
/// is rendered.
pub enum Kind {
    Fs,
    Json,
    Nothing,
    Raw,
    Yaml,
}

impl Kind {
    pub fn is_nothing(&self) -> (r: bool)
        ensures
            r == (*self is Nothing),
    {
        match self {
            Kind::Nothing => true,
            _ => false,
        }
    }
}

/// The kind a kind word names: empty means no transformation; `j` and `r`
/// abbreviate `json` and `raw`.
pub open spec fn kind_of(s: Seq<char>) -> Option<Kind> {
    if s.len() == 0 {
        Some(Kind::Nothing)
    } else if kw_match(s, "fs"@) {
        Some(Kind::Fs)
    } else if kw_match(s, "json"@) || kw_match(s, "j"@) {
        Some(Kind::Json)
    } else if kw_match(s, "raw"@) || kw_match(s, "r"@) {
        Some(Kind::Raw)
    } else if kw_match(s, "yaml"@) {
        Some(Kind::Yaml)
    } else {
        None
    }
}

/// Reads a kind word.
pub fn parse_kind(s: &str) -> (r: Result<Kind, Error>)
    ensures
        match r {
            Ok(k) => kind_of(s@) == Some(k),
            Err(e) => kind_of(s@) is None && (e matches Error::UnknownVarKind(t) && t@ == s@),
        },
{
    if s.is_empty() {
        Ok(Kind::Nothing)
    } else if eq_ignore_case(s, "fs") {
        Ok(Kind::Fs)
    } else if eq_ignore_case(s, "json") || eq_ignore_case(s, "j") {
        Ok(Kind::Json)
    } else if eq_ignore_case(s, "raw") || eq_ignore_case(s, "r") {
        Ok(Kind::Raw)
    } else if eq_ignore_case(s, "yaml") {
        Ok(Kind::Yaml)
    } else {
        Err(Error::UnknownVarKind(s.to_owned()))
    }
}

/// A value type a variable may declare acceptable.
#[derive(Clone, Copy)]
pub enum VarType {
    Bool,
    Number,
    U64,
    I64,
    F64,
    VString,
    Array,
    Object,
}

/// The type a type word names; single letters abbreviate.
pub open spec fn type_of(s: Seq<char>) -> Option<VarType> {
    if kw_match(s, "bool"@) || kw_match(s, "b"@) {
        Some(VarType::Bool)
    } else if kw_match(s, "number"@) || kw_match(s, "n"@) {
        Some(VarType::Number)
    } else if kw_match(s, "u64"@) || kw_match(s, "u"@) {
        Some(VarType::U64)
    } else if kw_match(s, "i64"@) || kw_match(s, "i"@) {
        Some(VarType::I64)
    } else if kw_match(s, "f64"@) || kw_match(s, "f"@) {
        Some(VarType::F64)
    } else if kw_match(s, "string"@) || kw_match(s, "s"@) {
        Some(VarType::VString)
    } else if kw_match(s, "array"@) || kw_match(s, "a"@) {
        Some(VarType::Array)
    } else if kw_match(s, "object"@) || kw_match(s, "o"@) {
        Some(VarType::Object)
    } else {
        None
    }
}

/// Reads a type word.
pub fn parse_type(s: &str) -> (r: Result<VarType, Error>)
    ensures
        match r {
            Ok(t) => type_of(s@) == Some(t),
            Err(e) => type_of(s@) is None && (e matches Error::UnknownVarType(t) && t@ == s@),
        },
{
    if eq_ignore_case(s, "bool") || eq_ignore_case(s, "b") {
        Ok(VarType::Bool)
    } else if eq_ignore_case(s, "number") || eq_ignore_case(s, "n") {
        Ok(VarType::Number)
    } else if eq_ignore_case(s, "u64") || eq_ignore_case(s, "u") {
        Ok(VarType::U64)
    } else if eq_ignore_case(s, "i64") || eq_ignore_case(s, "i") {
        Ok(VarType::I64)
    } else if eq_ignore_case(s, "f64") || eq_ignore_case(s, "f") {
        Ok(VarType::F64)
    } else if eq_ignore_case(s, "string") || eq_ignore_case(s, "s") {
        Ok(VarType::VString)
    } else if eq_ignore_case(s, "array") || eq_ignore_case(s, "a") {
        Ok(VarType::Array)
    } else if eq_ignore_case(s, "object") || eq_ignore_case(s, "o") {
        Ok(VarType::Object)
    } else {
        Err(Error::UnknownVarType(s.to_owned()))
    }
}

/// Whether a value is of a declared type. Whole numbers are stored
/// unsigned whenever they are not negative, so `U64` means unsigned and
/// `I64` means negative or small enough for a signed word.
pub open spec fn type_matches(t: VarType, v: Vm) -> bool {
    match t {
        VarType::Bool => v is Bool,
        VarType::Number => v is Int || v is Uint || v is Float,
        VarType::U64 => v is Uint,
        VarType::I64 => v is Int || (v matches Vm::Uint(u) && u <= i64::MAX as u64),
        VarType::F64 => v is Float,
        VarType::VString => v is Str,
        VarType::Array => v is Arr,
        VarType::Object => v is Obj,
    }
}

impl VarType {
    pub fn is_match(&self, v: &Val) -> (r: bool)
        ensures
            r == type_matches(*self, v.deep_view()),
    {
        match self {
            VarType::Bool => matches!(v, Val::Bool(_)),
            VarType::Number => matches!(v, Val::Int(_) | Val::Uint(_) | Val::Float(_)),
            VarType::U64 => matches!(v, Val::Uint(_)),
            VarType::I64 => match v {
                Val::Int(_) => true,
                Val::Uint(u) => *u <= 9223372036854775807u64,
                _ => false,
            },
            VarType::F64 => matches!(v, Val::Float(_)),
            VarType::VString => matches!(v, Val::Str(_)),
            VarType::Array => matches!(v, Val::Arr(_)),
            VarType::Object => matches!(v, Val::Obj(_)),
        }
    }
}

/// A declared variable: its dotted name, the types its value may take
/// (none accepts any value), its kind, and the kind's arguments.
pub struct Var {
    pub name: String,
    pub types: Vec<VarType>,
    pub kind: Kind,
    pub kind_args: Vec<(String, String)>,
}

/// Whether some declared type accepts `v`; no declared type accepts all.
pub open spec fn types_accept(types: Seq<VarType>, v: Vm) -> bool {
    types.len() == 0 || exists|i: int| 0 <= i < types.len() && type_matches(#[trigger] types[i], v)
}

impl Var {
    /// A plain variable of the given name: render it, accept anything.
    pub fn from_name(name: String) -> (r: Var)
        ensures
            r.name@ == name@,
            r.types@.len() == 0,
            r.kind is Nothing,
            r.kind_args@.len() == 0,
    {
        Var { name, types: Vec::new(), kind: Kind::Nothing, kind_args: Vec::new() }
    }

    /// Checks the current value against the declared types: accepted when
    /// no type is declared or any declared type matches.
    pub fn check_type(&self, value: &Val) -> (r: Result<(), Error>)
        ensures
            r is Ok <==> types_accept(self.types@, value.deep_view()),
            r matches Err(e) ==> e matches Error::WrongVarType(n, _) && n@ == self.name@,
    {
        if self.types.len() == 0 {
            return Ok(());
        }
        let mut i: usize = 0;
        while i < self.types.len()
            invariant
                i <= self.types@.len(),
                forall|j: int| 0 <= j < i ==> !type_matches(#[trigger] self.types@[j], value.deep_view()),
            decreases self.types@.len() - i,
        {
            if self.types[i].is_match(value) {
                return Ok(());
            }
            i += 1;
        }
        Err(Error::WrongVarType(self.name.clone(), self.types_text()))
    }

    /// The declared types joined with bars, for messages.
    pub fn types_text(&self) -> String {
        let mut out = String::new();
        let mut i: usize = 0;
        while i < self.types.len()
            decreases self.types@.len() - i,
        {
            if i > 0 {
                out.push(' ');
                out.push('|');
                out.push(' ');
            }
            let word = match self.types[i] {
                VarType::Bool => "bool",
                VarType::Number => "number",
                VarType::U64 => "u64",
                VarType::I64 => "i64",
                VarType::F64 => "f64",
                VarType::VString => "string",
                VarType::Array => "array",
                VarType::Object => "object",
            };
            out.append(word);
            i += 1;
        }
        out
    }

    /// The declaration rendered back as one line, for messages.
    pub fn to_text(&self) -> String {
        let mut out = String::new();
        match self.kind {
            Kind::Nothing => {},
            Kind::Fs => out.append("fs % "),
            Kind::Json => out.append("json % "),
            Kind::Raw => out.append("raw % "),
            Kind::Yaml => out.append("yaml % "),
        }
        out.append(self.name.as_str());
        if self.types.len() > 0 {
            out.append(": ");
            let types = self.types_text();
            out.append(types.as_str());
        }
        out
    }

    /// Parses a declaration line: the name, kind, kind arguments and type
    /// list all read off the grammar; each way the line can be refused is
    /// named.
    pub fn parse(s: &str) -> (r: Result<Var, Error>)
        ensures
            match r {
                Ok(var) => var_parse(s@) matches Some(p) && var.name@ == p.name && kind_of(p.kind)
                    == Some(var.kind) && var.types@.len() == p.types.len() && (forall|i: int|
                    0 <= i < p.types.len() ==> type_of(p.types[i]) == Some(
                        #[trigger] var.types@[i],
                    )) && (match p.args {
                    Some(atext) => kind_args_spec(atext) == Some(var.kind_args.deep_view()),
                    None => var.kind_args@.len() == 0,
                }),
                Err(e) => match var_parse(s@) {
                    None => e matches Error::BadVar(t) && t@ == s@,
                    Some(p) => {
                        &&& !(e is BadVar)
                        &&& e is UnknownVarKind ==> kind_of(p.kind) is None
                        &&& e is UnknownVarType ==> exists|i: int|
                            0 <= i < p.types.len() && type_of(#[trigger] p.types[i]) is None
                        &&& e is BadKindArg ==> (p.args matches Some(atext) && kind_args_spec(
                            atext,
                        ) is None)
                        &&& (e is UnknownVarKind || e is UnknownVarType || e is BadKindArg)
                    },
                },
            },
    {
        let parts = match parse_var_text(s) {
            Some(p) => p,
            None => {
                return Err(Error::BadVar(s.to_owned()));
            }
        };
        let kind = match parse_kind(parts.kind.as_str()) {
            Ok(k) => k,
            Err(e) => {
                proof {
                    assert(kind_of(var_parse(s@).unwrap().kind) is None);
                }
                return Err(e);
            }
        };
        let kind_args = match parts.args {
            Some(a) => match parse_kind_args(a.as_str()) {
                Ok(list) => list,
                Err(e) => {
                    proof {
                        assert(var_parse(s@).unwrap().args matches Some(atext) && kind_args_spec(
                            atext,
                        ) is None);
                    }
                    return Err(e);
                }
            },
            None => Vec::new(),
        };
        let mut types: Vec<VarType> = Vec::new();
        let mut i: usize = 0;
        let ghost ptypes = var_parse(s@).unwrap().types;
        while i < parts.types.len()
            invariant
                i <= parts.types@.len(),
                var_parse(s@) is Some,
                var_parse(s@).unwrap().types == ptypes,
                crate::tsort::vviews(parts.types@) == ptypes,
                ptypes.len() == parts.types@.len(),
                types@.len() == i,
                forall|j: int| 0 <= j < i ==> type_of(ptypes[j]) == Some(#[trigger] types@[j]),
            decreases parts.types@.len() - i,
        {
            proof {
                assert(crate::tsort::vviews(parts.types@)[i as int] == parts.types@[i as int]@);
            }
            let t = match parse_type(parts.types[i].as_str()) {
                Ok(t) => t,
                Err(e) => {
                    proof {
                        assert(type_of(ptypes[i as int]) is None);
                    }
                    return Err(e);
                }
            };
            types.push(t);
            i += 1;
        }
        proof {
            if kind_args@.len() == 0 {
            }
        }
        Ok(Var { name: parts.name, types, kind, kind_args })
    }
}

/// One kind-argument piece read as `name:value`; blanks before the name
/// are dropped when `strip` is set (a piece that follows a comma).
pub open spec fn arg_pair(piece: Seq<char>, strip: bool) -> Option<(Seq<char>, Seq<char>)> {
    let b = if strip {
        scan_blank(piece, 0)
    } else {
        0
    };
    let c = scan_until(piece, b, ':');
    if c >= piece.len() {
        None
    } else {
        Some((piece.subrange(b, c), piece.subrange(c + 1, piece.len() as int)))
    }
}

/// All pieces as pairs; only the first keeps its leading blanks.
pub open spec fn args_pairs(pieces: Seq<Seq<char>>, first: bool) -> Option<
    Seq<(Seq<char>, Seq<char>)>,
>
    decreases pieces.len(),
{
    if pieces.len() == 0 {
        Some(Seq::empty())
    } else {
        match arg_pair(pieces[0], !first) {
            Some(p) => match args_pairs(pieces.drop_first(), false) {
                Some(rest) => Some(seq![p] + rest),
                None => None,
            },
            None => None,
        }
    }
}

/// The kind arguments an argument list text holds, when every piece has
/// its colon.
pub open spec fn kind_args_spec(s: Seq<char>) -> Option<Seq<(Seq<char>, Seq<char>)>> {
    args_pairs(crate::strings::split_sep(s, ','), true)
}

proof fn lemma_args_pairs_none(pieces: Seq<Seq<char>>, first: bool, i: int)
    requires
        0 <= i < pieces.len(),
        arg_pair(pieces[i], !(first && i == 0)) is None,
    ensures
        args_pairs(pieces, first) is None,
    decreases i,
{
    if i > 0 {
        lemma_args_pairs_none(pieces.drop_first(), false, i - 1);
    }
}

proof fn lemma_args_pairs_all(pieces: Seq<Seq<char>>, first: bool)
    requires
        forall|i: int|
            0 <= i < pieces.len() ==> arg_pair(#[trigger] pieces[i], !(first && i == 0)) is Some,
    ensures
        args_pairs(pieces, first) is Some,
    decreases pieces.len(),
{
    if pieces.len() > 0 {
        assert forall|i: int| 0 <= i < pieces.drop_first().len() implies arg_pair(
            #[trigger] pieces.drop_first()[i],
            true,
        ) is Some by {
            assert(pieces.drop_first()[i] == pieces[i + 1]);
            assert(arg_pair(pieces[i + 1], !(first && i + 1 == 0)) is Some);
        }
        lemma_args_pairs_all(pieces.drop_first(), false);
    }
}

/// Splits a kind-argument list: comma-separated `name:value` pairs, with
/// blanks after the commas ignored; a piece without a colon fails.
pub fn parse_kind_args(s: &str) -> (r: Result<Vec<(String, String)>, Error>)
    ensures
        match r {
            Ok(list) => kind_args_spec(s@) == Some(list.deep_view()),
            Err(e) => kind_args_spec(s@) is None && e is BadKindArg,
        },
{
    let pieces = crate::strings::split_sep_exec(s, ',');
    let ghost pv = crate::tsort::vviews(pieces@);
    let mut out: Vec<(String, String)> = Vec::new();
    let mut i: usize = 0;
    proof {
        assert(pv.skip(0) =~= pv);
    }
    while i < pieces.len()
        invariant
            i <= pieces@.len(),
            pv == crate::tsort::vviews(pieces@),
            pv == crate::strings::split_sep(s@, ','),
            pv.len() == pieces@.len(),
            args_pairs(pv, true) matches Some(all) ==> args_pairs(pv.skip(i as int), i == 0)
                matches Some(rest) && all == out.deep_view() + rest,
            out@.len() == i,
            forall|j: int| 0 <= j < i ==> arg_pair(#[trigger] pv[j], j != 0) is Some,
        decreases pieces@.len() - i,
    {
        proof {
            assert(pv[i as int] == pieces@[i as int]@);
            assert(pv.skip(i as int)[0] == pv[i as int]);
            assert(pv.skip(i as int).drop_first() =~= pv.skip(i + 1));
        }
        let cs = str_chars(pieces[i].as_str());
        let start = if i > 0 {
            exec_scan_blank(&cs, 0)
        } else {
            0
        };
        let colon = exec_scan_until(&cs, start, ':');
        if colon >= cs.len() {
            let piece = copy_range(&cs, start, cs.len());
            proof {
                assert(arg_pair(pv[i as int], i != 0) is None);
                lemma_args_pairs_none(pv, true, i as int);
            }
            return Err(Error::BadKindArg(piece));
        }
        let name = copy_range(&cs, start, colon);
        let value = copy_range(&cs, colon + 1, cs.len());
        out.push((name, value));
        proof {
            assert(arg_pair(pv[i as int], i != 0) == Some((name@, value@)));
            if args_pairs(pv, true) is Some {
                let all = args_pairs(pv, true).unwrap();
                assert(out.deep_view() =~= out.deep_view().drop_last().push((name@, value@)));
                assert(all =~= out.deep_view() + args_pairs(pv.skip(i + 1), false).unwrap());
            }
        }
        i += 1;
    }
    proof {
        assert(pv.skip(pv.len() as int).len() == 0);
        lemma_args_pairs_all(pv, true);
        if args_pairs(pv, true) is Some {
            let all = args_pairs(pv, true).unwrap();
            assert(all =~= out.deep_view());
        }
    }
    Ok(out)
}

/// The first value stored under `name` among the pairs.
pub open spec fn arg_lookup(args: Seq<(Seq<char>, Seq<char>)>, name: Seq<char>) -> Option<
    Seq<char>,
>
    decreases args.len(),
{
    if args.len() == 0 {
        None
    } else if args[0].0 == name {
        Some(args[0].1)
    } else {
        arg_lookup(args.drop_first(), name)
    }
}

/// The value of a kind argument, by name.
pub fn kind_arg<'a>(args: &'a Vec<(String, String)>, name: &str) -> (r: Option<&'a String>)
    ensures
        match r {
            Some(v) => arg_lookup(args.deep_view(), name@) == Some(v@),
            None => arg_lookup(args.deep_view(), name@) is None,
        },
{
    let ghost av = args.deep_view();
    let mut i: usize = 0;
    proof {
        assert(av =~= Seq::new(args@.len(), |k: int| (args@[k].0@, args@[k].1@)));
        assert(av.skip(0) =~= av);
    }
    while i < args.len()
        invariant
            i <= args@.len(),
            av == args.deep_view(),
            av.len() == args@.len(),
            forall|k: int| 0 <= k < args@.len() ==> #[trigger] av[k] == (args@[k].0@, args@[k].1@),
            arg_lookup(av, name@) == arg_lookup(av.skip(i as int), name@),
        decreases args@.len() - i,
    {
        proof {
            assert(av.skip(i as int)[0] == av[i as int]);
            assert(av.skip(i as int).drop_first() =~= av.skip(i + 1));
        }
        if crate::strings::str_eq(args[i].0.as_str(), name) {
            return Some(&args[i].1);
        }
        i += 1;
    }
    proof {
        assert(av.skip(av.len() as int).len() == 0);
    }
    None
}

/// How the `render` kind argument reads: on by default, `false` turns it
/// off, anything else is no flag at all.
pub open spec fn render_flag(args: Seq<(Seq<char>, Seq<char>)>) -> Option<bool> {
    match arg_lookup(args, "render"@) {
        None => Some(true),
        Some(x) => if x == "true"@ {
            Some(true)
        } else if x == "false"@ {
            Some(false)
        } else {
            None
        },
    }
}


// --- variable maps and rendering -------------------------------------------

/// Deep copy of a declared variable.
pub fn dup_var(v: &Var) -> (r: Var)
    ensures
        r.name@ == v.name@,
        r.types@ == v.types@,
        r.kind == v.kind,
{
    let mut types: Vec<VarType> = Vec::new();
    let mut i: usize = 0;
    while i < v.types.len()
        invariant
            i <= v.types@.len(),
            types@ =~= v.types@.take(i as int),
        decreases v.types@.len() - i,
    {
        types.push(v.types[i]);
        proof {
            assert(types@ =~= v.types@.take(i + 1));
        }
        i += 1;
    }
    let mut kind_args: Vec<(String, String)> = Vec::new();
    let mut j: usize = 0;
    while j < v.kind_args.len()
        decreases v.kind_args@.len() - j,
    {
        kind_args.push((v.kind_args[j].0.clone(), v.kind_args[j].1.clone()));
        j += 1;
    }
    proof {
        assert(types@ =~= v.types@);
    }
    Var {
        name: v.name.clone(),
        types,
        kind: match v.kind {
            Kind::Fs => Kind::Fs,
            Kind::Json => Kind::Json,
            Kind::Nothing => Kind::Nothing,
            Kind::Raw => Kind::Raw,
            Kind::Yaml => Kind::Yaml,
        },
        kind_args,
    }
}

/// An ordered mapping from declared variables to their raw values;
/// insertion overrides an earlier entry of the same name in place.
pub struct Vars {
    pub entries: Vec<(Var, Val)>,
}

impl Vars {
    pub fn new() -> (r: Vars)
        ensures
            r.entries@.len() == 0,
    {
        Vars { entries: Vec::new() }
    }

    /// Binds `var`, overriding an earlier entry of the same name.
    pub fn insert(&mut self, var: Var, value: Val) {
        let mut i: usize = 0;
        while i < self.entries.len()
            decreases self.entries@.len() - i,
        {
            if crate::strings::str_eq(self.entries[i].0.name.as_str(), var.name.as_str()) {
                self.entries.set(i, (var, value));
                return;
            }
            i += 1;
        }
        self.entries.push((var, value));
    }

    /// Binds every entry of `other` over this map, in order.
    pub fn extend_with(&mut self, other: Vars) {
        let mut i: usize = 0;
        let entries = other.entries;
        for i in 0..entries.len() {
        }
        let mut k: usize = 0;
        let mut rest = entries;
        loop
            decreases rest@.len(),
        {
            if rest.len() == 0 {
                break;
            }
            let (var, value) = rest.remove(0);
            self.insert(var, value);
        }
    }

    /// The variables as a template context, names bound in order.
    pub fn context(&self) -> (r: Context) {
        let mut ctx = Context::new();
        let mut i: usize = 0;
        while i < self.entries.len()
            decreases self.entries@.len() - i,
        {
            let name = self.entries[i].0.name.clone();
            let value = self.entries[i].1.dup();
            ctx.insert(name, value);
            i += 1;
        }
        ctx
    }

    pub fn dup(&self) -> (r: Vars) {
        let mut entries: Vec<(Var, Val)> = Vec::new();
        let mut i: usize = 0;
        while i < self.entries.len()
            decreases self.entries@.len() - i,
        {
            entries.push((dup_var(&self.entries[i].0), self.entries[i].1.dup()));
            i += 1;
        }
        Vars { entries }
    }
}

/// Inline variables, or a sequence of variable maps applied in order,
/// each visible to the next.
pub enum ExtVars {
    Vars(Vars),
    Maps(Vec<Vars>),
}

pub fn dup_ext_vars(ev: &ExtVars) -> (r: ExtVars) {
    match ev {
        ExtVars::Vars(vs) => ExtVars::Vars(vs.dup()),
        ExtVars::Maps(ms) => {
            let mut out: Vec<Vars> = Vec::new();
            let mut i: usize = 0;
            while i < ms.len()
                decreases ms@.len() - i,
            {
                out.push(ms[i].dup());
                i += 1;
            }
            ExtVars::Maps(out)
        }
    }
}

/// Renders a value against the context: strings are rendered, arrays and
/// objects member-wise, the rest stay as they are.
pub fn render_value(v: &Val, context: &Context, feed: &mut Feed) -> (r: Result<Val, Stop>)
    decreases *v,
{
    match v {
        Val::Str(s) => {
            let rendered = feed.render(s.clone(), context)?;
            Ok(Val::Str(rendered))
        }
        Val::Arr(a) => {
            proof {
                assert(decreases_to!(*v => *a));
                assert(decreases_to!(*a => a@));
            }
            let out = render_vals(a, context, feed)?;
            Ok(Val::Arr(out))
        }
        Val::Obj(o) => {
            proof {
                assert(decreases_to!(*v => *o));
                assert(decreases_to!(*o => o@));
            }
            let out = render_obj(o, context, feed)?;
            Ok(Val::Obj(out))
        }
        _ => Ok(v.dup()),
    }
}

fn render_vals(a: &Vec<Val>, context: &Context, feed: &mut Feed) -> (r: Result<Vec<Val>, Stop>)
    decreases a@,
{
    let mut out: Vec<Val> = Vec::new();
    let mut i: usize = 0;
    while i < a.len()
        invariant
            i <= a@.len(),
        decreases a@.len() - i,
    {
        proof {
            assert(decreases_to!(a@ => a@[i as int]));
        }
        let e = render_value(&a[i], context, feed)?;
        out.push(e);
        i += 1;
    }
    Ok(out)
}

fn render_obj(o: &Vec<(String, Val)>, context: &Context, feed: &mut Feed) -> (r: Result<
    Vec<(String, Val)>,
    Stop,
>)
    decreases o@,
{
    let mut out: Vec<(String, Val)> = Vec::new();
    let mut i: usize = 0;
    while i < o.len()
        invariant
            i <= o@.len(),
        decreases o@.len() - i,
    {
        proof {
            assert(decreases_to!(o@ => o@[i as int]));
            assert(decreases_to!(o@[i as int] => o@[i as int].1));
        }
        let e = render_value(&o[i].1, context, feed)?;
        out.push((o[i].0.clone(), e));
        i += 1;
    }
    Ok(out)
}

/// Applies a variable's kind to its raw value: render unless `raw` or
/// switched off, then parse for `json`/`yaml`, or persist for `fs` and
/// evaluate to the variable's own name.
pub fn process_value(var: &Var, value: &Val, context: &Context, feed: &mut Feed) -> (r: Result<
    Result<Val, Error>,
    Stop,
>)
    ensures
        // a `render` argument that is neither true nor false is refused
        render_flag(var.kind_args.deep_view()) is None ==> (r matches Ok(rr) && (rr matches Err(
            e,
        ) && e is BadKindArgRender)),
        render_flag(var.kind_args.deep_view()) is Some ==> match var.kind {
            // raw is never rendered and never transformed
            Kind::Raw => r matches Ok(rr) && (rr matches Ok(v) && val_of(v) == val_of(*value)),
            // with rendering off, no transformation either
            Kind::Nothing => render_flag(var.kind_args.deep_view()) == Some(false) ==> (
            r matches Ok(rr) && (rr matches Ok(v) && val_of(v) == val_of(*value))),
            // a parsed value is what some JSON text parses to; with
            // rendering off, exactly what the raw string parses to, and a
            // raw non-string is a type error
            Kind::Json => (r matches Ok(rr) ==> (rr matches Ok(v) ==> exists|t: Seq<char>|
                crate::parse::json_parsed(t) == Some(val_of(v)))) && (render_flag(
                var.kind_args.deep_view(),
            ) == Some(false) ==> match value {
                Val::Str(raw) => r matches Ok(rr) ==> (rr matches Ok(v)
                    ==> crate::parse::json_parsed(raw@) == Some(val_of(v))),
                _ => r matches Ok(rr) && (rr matches Err(e) && e is WrongVarType),
            }),
            Kind::Yaml => (r matches Ok(rr) ==> (rr matches Ok(v) ==> exists|t: Seq<char>|
                crate::parse::yaml_parsed(t) == Some(val_of(v)))) && (render_flag(
                var.kind_args.deep_view(),
            ) == Some(false) ==> match value {
                Val::Str(raw) => r matches Ok(rr) ==> (rr matches Ok(v)
                    ==> crate::parse::yaml_parsed(raw@) == Some(val_of(v))),
                _ => r matches Ok(rr) && (rr matches Err(e) && e is WrongVarType),
            }),
            // a filesystem variable evaluates to its own well-formed name
            Kind::Fs => r matches Ok(rr) ==> (rr matches Ok(v) ==> val_of(v) == Vm::Str(
                var.name@,
            ) && crate::fs_store::fs_name_ok(var.name@)),
        },
        // what can go wrong here, by kind
        r matches Ok(rr) ==> (rr matches Err(e) ==> (e is BadKindArgRender || e is WrongVarType
            || e is BadFsVar || e is BadParse)),
{
    let mut render = true;
    match kind_arg(&var.kind_args, "render") {
        Some(arg) => {
            if crate::strings::str_eq(arg.as_str(), "true") {
            } else if crate::strings::str_eq(arg.as_str(), "false") {
                render = false;
            } else {
                return Ok(Err(Error::BadKindArgRender(arg.clone())));
            }
        }
        None => {},
    }
    match var.kind {
        Kind::Raw => Ok(Ok(value.dup())),
        Kind::Nothing => {
            if render {
                let v = render_value(value, context, feed)?;
                Ok(Ok(v))
            } else {
                Ok(Ok(value.dup()))
            }
        }
        Kind::Json => {
            let v = if render {
                render_value(value, context, feed)?
            } else {
                value.dup()
            };
            match v {
                Val::Str(s) => match crate::parse::parse_json(s.as_str()) {
                    Some(parsed) => Ok(Ok(parsed)),
                    None => Ok(Err(Error::BadParse(var.name.clone()))),
                },
                _ => Ok(Err(Error::WrongVarType(var.name.clone(), "string".to_owned()))),
            }
        }
        Kind::Yaml => {
            let v = if render {
                render_value(value, context, feed)?
            } else {
                value.dup()
            };
            match v {
                Val::Str(s) => match crate::parse::parse_yaml(s.as_str()) {
                    Some(parsed) => Ok(Ok(parsed)),
                    None => Ok(Err(Error::BadParse(var.name.clone()))),
                },
                _ => Ok(Err(Error::WrongVarType(var.name.clone(), "string".to_owned()))),
            }
        }
        Kind::Fs => {
            let v = if render {
                render_value(value, context, feed)?
            } else {
                value.dup()
            };
            if !crate::fs_store::check_fs_name(var.name.as_str()) {
                return Ok(Err(Error::BadFsVar(var.name.clone())));
            }
            feed.write_fs_var(var.name.clone(), v)?;
            Ok(Ok(Val::Str(var.name.clone())))
        }
    }
}

/// Renders a variable map: each entry's kind applied against a context
/// that already holds the prior entries' rendered values, its type
/// checked, and its dotted name wrapped into nested objects.
pub fn render_vars(vars: &Vars, context: &Context, feed: &mut Feed) -> (r: Result<
    Result<Vars, Error>,
    Stop,
>)
    ensures
        r matches Ok(rr) ==> (rr matches Err(e) ==> (e is BadKindArgRender || e is WrongVarType
            || e is BadFsVar || e is BadParse)),
{
    let mut out = Vars::new();
    let mut acc = context.dup();
    let mut i: usize = 0;
    while i < vars.entries.len()
        decreases vars.entries@.len() - i,
    {
        let var = &vars.entries[i].0;
        let raw = &vars.entries[i].1;
        let processed = match process_value(var, raw, &acc, feed)? {
            Ok(v) => v,
            Err(e) => {
                return Ok(Err(e));
            }
        };
        match var.check_type(&processed) {
            Ok(()) => {},
            Err(e) => {
                return Ok(Err(e));
            }
        }
        // wrap a dotted name into nested objects
        let parts = crate::strings::split_sep_exec(var.name.as_str(), '.');
        let mut value = processed;
        let mut p: usize = parts.len();
        while p > 1
            invariant
                p <= parts@.len(),
            decreases p,
        {
            p -= 1;
            let mut obj: Vec<(String, Val)> = Vec::new();
            obj.push((parts[p].clone(), value));
            value = Val::Obj(obj);
        }
        let mut new_var = dup_var(var);
        if parts.len() > 0 {
            new_var.name = parts[0].clone();
        }
        // later entries render against this one's value too
        acc.insert(new_var.name.clone(), value.dup());
        out.insert(new_var, value);
        i += 1;
    }
    Ok(Ok(out))
}

/// Resolves task variables to one rendered map: inline variables are
/// rendered against the context; a sequence of maps is rendered in order,
/// each map seeing the previous ones.
pub fn ext_vars_context(ev: &ExtVars, context: &Context, feed: &mut Feed) -> (r: Result<
    Result<Vars, Error>,
    Stop,
>)
    ensures
        r matches Ok(rr) ==> (rr matches Err(e) ==> (e is BadKindArgRender || e is WrongVarType
            || e is BadFsVar || e is BadParse)),
{
    match ev {
        ExtVars::Vars(vs) => render_vars(vs, context, feed),
        ExtVars::Maps(maps) => {
            let mut acc = Vars::new();
            let mut ctx = context.dup();
            let mut i: usize = 0;
            while i < maps.len()
                decreases maps@.len() - i,
            {
                let rendered = match render_vars(&maps[i], &ctx, feed)? {
                    Ok(v) => v,
                    Err(e) => {
                        return Ok(Err(e));
                    }
                };
                let rctx = rendered.context();
                ctx.extend_from(&rctx);
                acc.extend_with(rendered);
                i += 1;
            }
            Ok(Ok(acc))
        }
    }
}

} // verus!
