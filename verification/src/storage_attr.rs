//! The `#[storage(...)]` field attribute of account components.
//!
//! Its arguments are a comma-separated list of
//! `slot(N)`, `description = "..."` and `type = "..."`, in any order, with
//! an optional trailing comma; `slot` is required and `N` must fit in a
//! byte. A later occurrence of an argument overrides an earlier one.
//!
//! The slot is an integer literal and the description and type are string
//! literals, as Rust writes them (see `lexer`).
use vstd::prelude::*;
use crate::lexer::{
    char_is, exec_ident_end, exec_int_literal, exec_skip_ws, exec_str_literal, ident_end,
    ident_start_at, int_literal, is_ident_start, skip_ws, str_literal,
};

verus! {

/// Why a `storage` attribute was refused.
#[derive(Clone, Copy, Debug, PartialEq, Eq, Structural)]
pub enum AttrError {
    /// The attribute is not of the form `#[storage(...)]`.
    ExpectedList,
    /// The arguments are not a well-formed argument list.
    Syntax,
    /// An argument other than `slot`, `description` or `type`.
    Unrecognized,
    /// A slot number that does not fit in a byte.
    InvalidSlot,
    /// No `slot(N)` argument.
    MissingSlot,
    /// A field with more than one `storage` attribute.
    Duplicate,
    /// A field without a `storage` attribute.
    MissingStorage,
}

/// The arguments of a `storage` attribute.
#[derive(Debug)]
pub struct StorageAttributeArgs {
    pub slot: u8,
    pub description: Option<String>,
    pub type_attr: Option<String>,
}

/// The arguments seen so far: slot, description and type.
pub type ArgsSoFar = (Option<u8>, Option<Seq<char>>, Option<Seq<char>>);

/// One argument starting at `j`: the arguments seen so far updated with it,
/// and the position after it.
pub open spec fn parse_item(s: Seq<char>, j: int, acc: ArgsSoFar) -> Result<(ArgsSoFar, int), AttrError> {
    if !(0 <= j < s.len() && is_ident_start(s[j])) {
        Err(AttrError::Syntax)
    } else {
        let e = ident_end(s, j);
        let name = s.subrange(j, e);
        let p = skip_ws(s, e);
        if p + 1 < s.len() && s[p] == ':' && s[p + 1] == ':' {
            Err(AttrError::Unrecognized)
        } else if name == "slot"@ {
            if p < s.len() && s[p] == '(' {
                match int_literal(s, skip_ws(s, p + 1)) {
                    Some((v, e2)) => if v > 255 {
                        Err(AttrError::InvalidSlot)
                    } else {
                        let r = skip_ws(s, e2);
                        if r < s.len() && s[r] == ')' {
                            Ok(((Some(v as u8), acc.1, acc.2), r + 1))
                        } else {
                            Err(AttrError::Syntax)
                        }
                    },
                    None => Err(AttrError::Syntax),
                }
            } else {
                Err(AttrError::Syntax)
            }
        } else if name == "description"@ || name == "type"@ {
            if p < s.len() && s[p] == '=' {
                match str_literal(s, skip_ws(s, p + 1)) {
                    Some((v, end)) => if name == "description"@ {
                        Ok(((acc.0, Some(v), acc.2), end))
                    } else {
                        Ok(((acc.0, acc.1, Some(v)), end))
                    },
                    None => Err(AttrError::Syntax),
                }
            } else {
                Err(AttrError::Syntax)
            }
        } else {
            Err(AttrError::Unrecognized)
        }
    }
}

/// The arguments from position `i` on, folded into `acc`.
pub open spec fn parse_args(s: Seq<char>, i: int, acc: ArgsSoFar) -> Result<ArgsSoFar, AttrError>
    decreases s.len() - i,
{
    let j = skip_ws(s, i);
    if j >= s.len() || j < 0 {
        Ok(acc)
    } else {
        match parse_item(s, j, acc) {
            Err(e) => Err(e),
            Ok((acc2, k)) => {
                let k2 = skip_ws(s, k);
                if k2 >= s.len() || k2 < 0 {
                    Ok(acc2)
                } else if s[k2] == ',' && k2 + 1 > i {
                    parse_args(s, k2 + 1, acc2)
                } else {
                    Err(AttrError::Syntax)
                }
            },
        }
    }
}

/// The arguments of a `storage(...)` list whose tokens read `s`.
pub open spec fn spec_storage_args(s: Seq<char>) -> Result<(u8, Option<Seq<char>>, Option<Seq<char>>), AttrError> {
    match parse_args(s, 0, (None, None, None)) {
        Ok((Some(slot), d, t)) => Ok((slot, d, t)),
        Ok((None, _, _)) => Err(AttrError::MissingSlot),
        Err(e) => Err(e),
    }
}

/// Whether the characters between `j` and `e` spell `word`.
fn span_is(s: &str, n: usize, j: usize, e: usize, word: &str) -> (r: bool)
    requires
        n == s@.len(),
        j <= e <= n,
    ensures
        r == (s@.subrange(j as int, e as int) == word@),
{
    crate::text::str_eq(s.substring_char(j, e), word)
}

/// The arguments seen so far, as executable values.
pub struct ArgsAcc {
    pub slot: Option<u8>,
    pub description: Option<String>,
    pub type_attr: Option<String>,
}

pub open spec fn opt_view(o: Option<String>) -> Option<Seq<char>> {
    match o {
        Some(s) => Some(s@),
        None => None,
    }
}

impl View for ArgsAcc {
    type V = ArgsSoFar;

    open spec fn view(&self) -> ArgsSoFar {
        (self.slot, opt_view(self.description), opt_view(self.type_attr))
    }
}

/// One argument starting at `j`, folded into `acc`; the position after it.
fn exec_parse_item(s: &str, n: usize, j: usize, acc: ArgsAcc) -> (r: Result<(ArgsAcc, usize), AttrError>)
    requires
        n == s@.len(),
        j <= n,
    ensures
        match parse_item(s@, j as int, acc@) {
            Ok((a, k)) => r matches Ok((ra, rk)) && ra@ == a && rk as int == k && rk <= n,
            Err(e) => r == Err::<(ArgsAcc, usize), AttrError>(e),
        },
{
    if !(j < n && ident_start_at(s, n, j)) {
        return Err(AttrError::Syntax);
    }
    let e = exec_ident_end(s, n, j);
    let p = exec_skip_ws(s, n, e);
    if n - p > 1 && char_is(s, n, p, ':') && char_is(s, n, p + 1, ':') {
        return Err(AttrError::Unrecognized);
    }
    proof {
        reveal_strlit("slot");
        reveal_strlit("description");
        reveal_strlit("type");
    }
    if span_is(s, n, j, e, "slot") {
        if !char_is(s, n, p, '(') {
            return Err(AttrError::Syntax);
        }
        let q = exec_skip_ws(s, n, p + 1);
        match exec_int_literal(s, n, q) {
            Some((v, e2)) => {
                if v > 255 {
                    return Err(AttrError::InvalidSlot);
                }
                let r = exec_skip_ws(s, n, e2);
                if char_is(s, n, r, ')') {
                    Ok((ArgsAcc { slot: Some(v as u8), description: acc.description, type_attr: acc.type_attr }, r + 1))
                } else {
                    Err(AttrError::Syntax)
                }
            },
            None => Err(AttrError::Syntax),
        }
    } else {
        let is_description = span_is(s, n, j, e, "description");
        if is_description || span_is(s, n, j, e, "type") {
            if !char_is(s, n, p, '=') {
                return Err(AttrError::Syntax);
            }
            let q = exec_skip_ws(s, n, p + 1);
            match exec_str_literal(s, n, q) {
                Some((v, end)) => {
                    if is_description {
                        Ok((ArgsAcc { slot: acc.slot, description: Some(v), type_attr: acc.type_attr }, end))
                    } else {
                        Ok((ArgsAcc { slot: acc.slot, description: acc.description, type_attr: Some(v) }, end))
                    }
                },
                None => Err(AttrError::Syntax),
            }
        } else {
            Err(AttrError::Unrecognized)
        }
    }
}

/// The arguments of a `storage(...)` list whose tokens read `s`, folded
/// from position `i`.
fn exec_parse_args(s: &str, n: usize, i: usize, acc: ArgsAcc) -> (r: Result<ArgsAcc, AttrError>)
    requires
        n == s@.len(),
        i <= n,
    ensures
        match parse_args(s@, i as int, acc@) {
            Ok(a) => r matches Ok(ra) && ra@ == a,
            Err(e) => r == Err::<ArgsAcc, AttrError>(e),
        },
    decreases n - i,
{
    let j = exec_skip_ws(s, n, i);
    if j >= n {
        return Ok(acc);
    }
    match exec_parse_item(s, n, j, acc) {
        Err(e) => Err(e),
        Ok((acc2, k)) => {
            let k2 = exec_skip_ws(s, n, k);
            if k2 >= n {
                Ok(acc2)
            } else if char_is(s, n, k2, ',') && k2 + 1 > i {
                exec_parse_args(s, n, k2 + 1, acc2)
            } else {
                Err(AttrError::Syntax)
            }
        },
    }
}

/// The arguments of a `storage(...)` attribute, from the text of the tokens
/// between its parentheses.
pub fn parse_storage_args(tokens: &str) -> (r: Result<StorageAttributeArgs, AttrError>)
    ensures
        match spec_storage_args(tokens@) {
            Ok((slot, d, t)) => r matches Ok(a) && a.slot == slot && opt_view(a.description) == d
                && opt_view(a.type_attr) == t,
            Err(e) => r matches Err(re) && re == e,
        },
{
    let n = tokens.unicode_len();
    let acc = ArgsAcc { slot: None, description: None, type_attr: None };
    match exec_parse_args(tokens, n, 0, acc) {
        Ok(a) => match a.slot {
            Some(slot) => Ok(StorageAttributeArgs { slot, description: a.description, type_attr: a.type_attr }),
            None => Err(AttrError::MissingSlot),
        },
        Err(e) => Err(e),
    }
}

/// The form of an attribute: a bare path (`#[p]`), a list (`#[p(...)]`,
/// with the text of the tokens inside the delimiters) or a name-value pair
/// (`#[p = v]`).
#[derive(Debug)]
pub enum AttrMeta {
    Path,
    List(String),
    NameValue,
}

/// An attribute of a struct field.
#[derive(Debug)]
pub struct Attribute {
    /// The attribute's path as written (`storage`, `doc`, `a::b`, ...).
    pub path: String,
    pub meta: AttrMeta,
}

/// A storage attribute's arguments as plain values: slot, description and
/// type.
pub type ArgsView = (u8, Option<Seq<char>>, Option<Seq<char>>);

/// What an attribute of a field says: nothing (`Ok(None)`) when it is not a
/// `storage` attribute, its arguments when it is a valid one.
pub open spec fn spec_parse_attr(a: Attribute) -> Result<Option<ArgsView>, AttrError> {
    if a.path@ != "storage"@ {
        Ok(None)
    } else {
        match a.meta {
            AttrMeta::List(tokens) => match spec_storage_args(tokens@) {
                Ok(args) => Ok(Some(args)),
                Err(e) => Err(e),
            },
            _ => Err(AttrError::ExpectedList),
        }
    }
}

pub open spec fn args_view(a: StorageAttributeArgs) -> ArgsView {
    (a.slot, opt_view(a.description), opt_view(a.type_attr))
}

/// Parses the arguments inside a `#[storage(...)]` attribute; any other
/// attribute is none of its business.
pub fn parse_storage_attribute(attr: &Attribute) -> (r: Result<Option<StorageAttributeArgs>, AttrError>)
    ensures
        match spec_parse_attr(*attr) {
            Ok(Some(a)) => r matches Ok(Some(ra)) && args_view(ra) == a,
            Ok(None) => r matches Ok(None),
            Err(e) => r matches Err(re) && re == e,
        },
{
    proof {
        reveal_strlit("storage");
    }
    if !crate::text::str_eq(attr.path.as_str(), "storage") {
        return Ok(None);
    }
    match &attr.meta {
        AttrMeta::List(tokens) => match parse_storage_args(tokens.as_str()) {
            Ok(args) => Ok(Some(args)),
            Err(e) => Err(e),
        },
        _ => Err(AttrError::ExpectedList),
    }
}

} // verus!
