//! The command-line shorthand syntax for structured values:
//! `name=value,name={name=value,...},name="quoted \"text\""`.
use vstd::prelude::*;
use vstd::string::{StrSliceExecFns, StringExecFns};

verus! {

/// A value written in shorthand syntax.
#[derive(Debug, PartialEq)]
pub enum CliShorthandValue {
    /// An unquoted value, with surrounding ASCII whitespace trimmed.
    SimpleValue(String),
    /// The text between double quotes, escapes left as written.
    MaybeEscapedValue(String),
    /// A brace-delimited list of `name=value` properties.
    Struct(Vec<(String, CliShorthandValue)>),
}

/// Whitespace skipped between the tokens of the syntax.
pub open spec fn is_space(c: char) -> bool {
    c == ' ' || c == '\t' || c == '\r' || c == '\n'
}

/// ASCII whitespace trimmed from unquoted values.
pub open spec fn is_trimmed_space(c: char) -> bool {
    c == ' ' || c == '\t' || c == '\n' || c == '\r' || c == '\x0C'
}

/// Characters of property names.
pub open spec fn is_letter(c: char) -> bool {
    ('a' <= c && c <= 'z') || ('A' <= c && c <= 'Z')
}

/// Characters that end an unquoted value.
pub open spec fn ends_simple(c: char) -> bool {
    c == ',' || c == '}' || c == '\n'
}

/// First index at or after `p` that is not whitespace.
pub open spec fn skip_spaces(s: Seq<char>, p: int) -> int
    decreases s.len() - p,
{
    if 0 <= p < s.len() && is_space(s[p]) {
        skip_spaces(s, p + 1)
    } else {
        p
    }
}

/// First index at or after `p` that is not a letter.
pub open spec fn skip_letters(s: Seq<char>, p: int) -> int
    decreases s.len() - p,
{
    if 0 <= p < s.len() && is_letter(s[p]) {
        skip_letters(s, p + 1)
    } else {
        p
    }
}

/// Start of the property name at `p`.
pub open spec fn name_start(s: Seq<char>, p: int) -> int {
    skip_spaces(s, p)
}

/// End of the property name at `p`.
pub open spec fn name_end(s: Seq<char>, p: int) -> int {
    skip_letters(s, name_start(s, p))
}

/// A property starts at `p`: optional whitespace, a name of letters,
/// optional whitespace, `=`, optional whitespace, and a value, which is any
/// character but `,` and `}`.
pub open spec fn property_ok(s: Seq<char>, p: int) -> bool {
    let a = name_start(s, p);
    let b = name_end(s, p);
    let c = skip_spaces(s, b);
    let d = skip_spaces(s, c + 1);
    a < b && c < s.len() && s[c] == '=' && d < s.len() && s[d] != ',' && s[d] != '}'
}

/// The name of the property that starts at `p`.
pub open spec fn name_at(s: Seq<char>, p: int) -> Seq<char> {
    s.subrange(name_start(s, p), name_end(s, p))
}

/// A property name: one or more letters.
pub open spec fn is_name(n: Seq<char>) -> bool {
    n.len() > 0 && forall|i: int| 0 <= i < n.len() ==> is_letter(#[trigger] n[i])
}

/// The text with every backslash removed.
pub open spec fn without_backslashes(s: Seq<char>) -> Seq<char>
    decreases s.len(),
{
    if s.len() == 0 {
        s
    } else if s.last() == '\\' {
        without_backslashes(s.drop_last())
    } else {
        without_backslashes(s.drop_last()).push(s.last())
    }
}

proof fn lemma_skip_spaces_bounds(s: Seq<char>, p: int)
    requires
        0 <= p <= s.len(),
    ensures
        p <= skip_spaces(s, p) <= s.len(),
        forall|i: int| p <= i < skip_spaces(s, p) ==> is_space(#[trigger] s[i]),
        skip_spaces(s, p) < s.len() ==> !is_space(s[skip_spaces(s, p)]),
    decreases s.len() - p,
{
    if p < s.len() && is_space(s[p]) {
        lemma_skip_spaces_bounds(s, p + 1);
    }
}

proof fn lemma_skip_letters_bounds(s: Seq<char>, p: int)
    requires
        0 <= p <= s.len(),
    ensures
        p <= skip_letters(s, p) <= s.len(),
        forall|i: int| p <= i < skip_letters(s, p) ==> is_letter(#[trigger] s[i]),
    decreases s.len() - p,
{
    if p < s.len() && is_letter(s[p]) {
        lemma_skip_letters_bounds(s, p + 1);
    }
}

fn skip_ws(s: &str, pos: usize) -> (r: usize)
    requires
        pos <= s@.len(),
    ensures
        r == skip_spaces(s@, pos as int),
        pos <= r <= s@.len(),
{
    proof {
        lemma_skip_spaces_bounds(s@, pos as int);
    }
    let n = s.unicode_len();
    let mut i = pos;
    while i < n
        invariant
            n == s@.len(),
            pos <= i <= n,
            skip_spaces(s@, i as int) == skip_spaces(s@, pos as int),
        decreases n - i,
    {
        let c = s.get_char(i);
        if !(c == ' ' || c == '\t' || c == '\r' || c == '\n') {
            return i;
        }
        i = i + 1;
    }
    i
}

fn skip_alpha(s: &str, pos: usize) -> (r: usize)
    requires
        pos <= s@.len(),
    ensures
        r == skip_letters(s@, pos as int),
        pos <= r <= s@.len(),
{
    proof {
        lemma_skip_letters_bounds(s@, pos as int);
    }
    let n = s.unicode_len();
    let mut i = pos;
    while i < n
        invariant
            n == s@.len(),
            pos <= i <= n,
            skip_letters(s@, i as int) == skip_letters(s@, pos as int),
        decreases n - i,
    {
        let c = s.get_char(i);
        if !(('a' <= c && c <= 'z') || ('A' <= c && c <= 'Z')) {
            return i;
        }
        i = i + 1;
    }
    i
}

fn char_ends_simple(c: char) -> (r: bool)
    ensures
        r == ends_simple(c),
{
    c == ',' || c == '}' || c == '\n'
}

/// An unquoted value: the characters up to `,`, `}` or a line break, trimmed.
fn simple_value(s: &str, pos: usize) -> (r: Option<(CliShorthandValue, usize)>)
    requires
        pos <= s@.len(),
    ensures
        r is Some <==> (pos < s@.len() && !ends_simple(s@[pos as int])),
        r is Some ==> pos < r->Some_0.1 <= s@.len() && r->Some_0.0 is SimpleValue,
{
    let n = s.unicode_len();
    if pos >= n {
        return None;
    }
    let mut end = pos;
    while end < n && !char_ends_simple(s.get_char(end))
        invariant
            n == s@.len(),
            pos <= end <= n,
            end > pos ==> !ends_simple(s@[pos as int]),
        decreases n - end,
    {
        end = end + 1;
    }
    if end == pos {
        return None;
    }
    let mut a = pos;
    while a < end
        invariant
            n == s@.len(),
            pos <= a <= end <= n,
        decreases end - a,
    {
        let c = s.get_char(a);
        if !(c == ' ' || c == '\t' || c == '\n' || c == '\r' || c == '\x0C') {
            break;
        }
        a = a + 1;
    }
    let mut b = end;
    while b > a
        invariant
            n == s@.len(),
            pos <= a <= b <= end <= n,
        decreases b - a,
    {
        let c = s.get_char(b - 1);
        if !(c == ' ' || c == '\t' || c == '\n' || c == '\r' || c == '\x0C') {
            break;
        }
        b = b - 1;
    }
    let text = s.substring_char(a, b).to_owned();
    Some((CliShorthandValue::SimpleValue(text), end))
}

/// A quoted value: `"`, one or more characters in which a backslash escapes
/// a backslash, an `n` or a quote, then `"` and optional whitespace.
fn quoted_value(s: &str, pos: usize) -> (r: Option<(CliShorthandValue, usize)>)
    requires
        pos <= s@.len(),
    ensures
        r is Some ==> pos < s@.len() && s@[pos as int] == '"' && pos < r->Some_0.1 <= s@.len()
            && r->Some_0.0 is MaybeEscapedValue,
{
    let n = s.unicode_len();
    if pos >= n || s.get_char(pos) != '"' {
        return None;
    }
    let mut j = pos + 1;
    while j < n
        invariant
            n == s@.len(),
            pos < j <= n,
        decreases n - j,
    {
        let c = s.get_char(j);
        if c == '\\' {
            if j + 1 < n {
                let e = s.get_char(j + 1);
                if e == '\\' || e == 'n' || e == '"' {
                    j = j + 2;
                } else {
                    return None;
                }
            } else {
                return None;
            }
        } else if c == '"' {
            break;
        } else {
            j = j + 1;
        }
    }
    if j == pos + 1 || j >= n {
        return None;
    }
    let text = s.substring_char(pos + 1, j).to_owned();
    let after = skip_ws(s, j + 1);
    Some((CliShorthandValue::MaybeEscapedValue(text), after))
}

/// A brace-delimited list of properties.
fn struct_value(s: &str, pos: usize) -> (r: Option<(CliShorthandValue, usize)>)
    requires
        pos <= s@.len(),
    ensures
        r is Some ==> pos < s@.len() && s@[pos as int] == '{' && pos < r->Some_0.1 <= s@.len()
            && r->Some_0.0 is Struct,
    decreases s@.len() - pos, 0int,
{
    let n = s.unicode_len();
    if pos >= n || s.get_char(pos) != '{' {
        return None;
    }
    match properties(s, pos + 1) {
        None => None,
        Some((items, p)) => {
            let q = skip_ws(s, p);
            if q < n && s.get_char(q) == '}' {
                Some((CliShorthandValue::Struct(items), q + 1))
            } else {
                None
            }
        },
    }
}

/// A value: a list in braces, else a quoted text, else an unquoted one.
fn any_value(s: &str, pos: usize) -> (r: Option<(CliShorthandValue, usize)>)
    requires
        pos <= s@.len(),
    ensures
        r is Some <==> (pos < s@.len() && !ends_simple(s@[pos as int])),
        r is Some ==> pos < r->Some_0.1 <= s@.len(),
    decreases s@.len() - pos, 1int,
{
    match struct_value(s, pos) {
        Some(v) => Some(v),
        None => match quoted_value(s, pos) {
            Some(v) => Some(v),
            None => simple_value(s, pos),
        },
    }
}

/// One `name=value` property, with the whitespace around its parts.
fn property(s: &str, pos: usize) -> (r: Option<((String, CliShorthandValue), usize)>)
    requires
        pos <= s@.len(),
    ensures
        r is Some <==> property_ok(s@, pos as int),
        r is Some ==> pos < r->Some_0.1 <= s@.len() && r->Some_0.0.0@ == name_at(s@, pos as int)
            && is_name(r->Some_0.0.0@),
    decreases s@.len() - pos, 2int,
{
    let n = s.unicode_len();
    let a = skip_ws(s, pos);
    let b = skip_alpha(s, a);
    proof {
        lemma_skip_letters_bounds(s@, a as int);
    }
    if a == b {
        return None;
    }
    let c = skip_ws(s, b);
    if c >= n || s.get_char(c) != '=' {
        return None;
    }
    let d = skip_ws(s, c + 1);
    proof {
        lemma_skip_spaces_bounds(s@, c + 1);
    }
    match any_value(s, d) {
        None => None,
        Some((v, e)) => {
            let f = skip_ws(s, e);
            let name = s.substring_char(a, b).to_owned();
            proof {
                assert forall|i: int| 0 <= i < name@.len() implies is_letter(#[trigger] name@[i]) by {
                    assert(name@[i] == s@[a + i]);
                }
            }
            Some(((name, v), f))
        },
    }
}

/// Where the separator after a property ends: past a `,`, or else at the
/// next `}` (or the end of the text).
fn after_separator(s: &str, pos: usize) -> (r: usize)
    requires
        pos <= s@.len(),
    ensures
        pos <= r <= s@.len(),
{
    let n = s.unicode_len();
    if pos < n && s.get_char(pos) == ',' {
        return pos + 1;
    }
    let mut i = pos;
    while i < n && s.get_char(i) != '}'
        invariant
            n == s@.len(),
            pos <= i <= n,
        decreases n - i,
    {
        i = i + 1;
    }
    i
}

/// One or more properties, each followed by its separator.
fn properties(s: &str, pos: usize) -> (r: Option<(Vec<(String, CliShorthandValue)>, usize)>)
    requires
        pos <= s@.len(),
    ensures
        r is Some <==> property_ok(s@, pos as int),
        r is Some ==> pos < r->Some_0.1 <= s@.len() && r->Some_0.0@.len() >= 1
            && r->Some_0.0@[0].0@ == name_at(s@, pos as int)
            && forall|i: int| 0 <= i < r->Some_0.0@.len() ==> is_name(#[trigger] r->Some_0.0@[i].0@),
    decreases s@.len() - pos, 3int,
{
    let n = s.unicode_len();
    let (first, q) = match property(s, pos) {
        None => { return None; },
        Some(x) => x,
    };
    let mut items: Vec<(String, CliShorthandValue)> = Vec::new();
    items.push(first);
    let mut p = after_separator(s, q);
    let mut done = false;
    while !done
        invariant
            n == s@.len(),
            pos < p <= n,
            items@.len() >= 1,
            items@[0].0@ == name_at(s@, pos as int),
            forall|i: int| 0 <= i < items@.len() ==> is_name(#[trigger] items@[i].0@),
        decreases n - p, (if done { 0int } else { 1int }),
    {
        match property(s, p) {
            None => {
                done = true;
            },
            Some((kv, q2)) => {
                items.push(kv);
                p = after_separator(s, q2);
            },
        }
    }
    Some((items, p))
}

/// The error of a text that is not in shorthand syntax.
#[derive(Debug)]
pub struct CliShorthandError(pub String);

impl CliShorthandError {
    /// The error as text.
    pub fn to_string(&self) -> (r: String)
        ensures
            r@ == "Parsing Error: "@ + self.0@,
    {
        let mut r = String::from_str("Parsing Error: ");
        r.append(self.0.as_str());
        r
    }
}

/// Parses the properties of a shorthand text; text after the last property
/// that is not part of it is ignored. Fails unless the text starts with a
/// property.
pub fn from_cli_string(input: &str) -> (r: Result<Vec<(String, CliShorthandValue)>, CliShorthandError>)
    ensures
        r is Ok <==> property_ok(input@, 0),
        r is Ok ==> r->Ok_0@.len() >= 1 && r->Ok_0@[0].0@ == name_at(input@, 0)
            && forall|i: int| 0 <= i < r->Ok_0@.len() ==> is_name(#[trigger] r->Ok_0@[i].0@),
{
    match properties(input, 0) {
        Some((items, _)) => Ok(items),
        None => Err(CliShorthandError(input.to_owned())),
    }
}

/// Parses the properties at the start of a shorthand text, returning the
/// text they leave unread together with them.
pub fn structure(input: &str) -> (r: Result<(String, Vec<(String, CliShorthandValue)>), CliShorthandError>)
    ensures
        r is Ok <==> property_ok(input@, 0),
        r is Ok ==> r->Ok_0.1@.len() >= 1 && r->Ok_0.1@[0].0@ == name_at(input@, 0)
            && r->Ok_0.0@.len() < input@.len()
            && r->Ok_0.0@ == input@.subrange(input@.len() - r->Ok_0.0@.len(), input@.len() as int),
{
    match properties(input, 0) {
        Some((items, p)) => {
            let n = input.unicode_len();
            Ok((input.substring_char(p, n).to_owned(), items))
        },
        None => Err(CliShorthandError(input.to_owned())),
    }
}

impl CliShorthandValue {
    /// The value is text, not a list of properties.
    pub fn is_string(&self) -> (r: bool)
        ensures
            r == !(self is Struct),
    {
        match self {
            CliShorthandValue::Struct(_) => false,
            _ => true,
        }
    }

    /// The value as text: an unquoted one as it is, a quoted one without its
    /// backslashes, a list of properties not at all.
    pub fn to_string(&self) -> (r: Option<String>)
        ensures
            self is SimpleValue ==> r is Some && r->Some_0@ == self->SimpleValue_0@,
            self is MaybeEscapedValue ==> r is Some && r->Some_0@ == without_backslashes(self->MaybeEscapedValue_0@),
            self is Struct ==> r is None,
    {
        match self {
            CliShorthandValue::SimpleValue(v) => Some(v.clone()),
            CliShorthandValue::MaybeEscapedValue(v) => Some(remove_backslashes(v.as_str())),
            CliShorthandValue::Struct(_) => None,
        }
    }
}

/// Copies a text, dropping every backslash.
fn remove_backslashes(v: &str) -> (r: String)
    ensures
        r@ == without_backslashes(v@),
{
    let n = v.unicode_len();
    let mut out = String::new();
    let mut start: usize = 0;
    let mut i: usize = 0;
    while i < n
        invariant
            n == v@.len(),
            start <= i <= n,
            out@ + v@.subrange(start as int, i as int) == without_backslashes(v@.subrange(0, i as int)),
        decreases n - i,
    {
        let ghost before = v@.subrange(0, i as int);
        proof {
            assert(v@.subrange(0, i + 1).drop_last() =~= before);
            assert(v@.subrange(0, i + 1).last() == v@[i as int]);
        }
        if v.get_char(i) == '\\' {
            out.append(v.substring_char(start, i));
            start = i + 1;
            proof {
                assert(v@.subrange(start as int, i + 1) =~= Seq::<char>::empty());
            }
        } else {
            proof {
                assert(v@.subrange(start as int, i + 1) =~= v@.subrange(start as int, i as int).push(v@[i as int]));
                assert((out@ + v@.subrange(start as int, i as int)).push(v@[i as int]) =~= out@ + v@.subrange(start as int, i + 1));
            }
        }
        i = i + 1;
    }
    out.append(v.substring_char(start, n));
    proof {
        assert(v@.subrange(0, n as int) =~= v@);
    }
    out
}

} // verus!
