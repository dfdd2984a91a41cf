//! The grammar of the `#[oxanus(...)]` attributes of the derive macros:
//! how a `retry_delay`, a `unique_id` and the batch items field of a batch
//! processor are read from the attribute's syntax.
//!
//! The syntax is given as [`AttrMeta`] values, whose leaves (identifiers,
//! string literals, paths and expressions) are carried through unchanged.

use vstd::prelude::*;
use crate::named_map::str_equal;

verus! {

/// The value on the right of `name = value` in an attribute.
pub enum AttrValue<L, P> {
    /// A string literal.
    StrLit(L),
    /// An integer literal, read as a `u64`, or why it could not be.
    IntLit(Result<u64, String>),
    /// Any other literal.
    OtherLit,
    /// A path, such as `Self::unique_id`.
    Path(P),
    /// Any other expression.
    Other,
}

/// An attribute item: a bare path, `name = value`, or `name(items)`.
pub enum AttrMeta<I, L, P, E> {
    Path,
    NameValue {
        /// The name, when it is a single identifier.
        ident: Option<I>,
        /// Whether the name is the identifier `fmt`.
        is_fmt: bool,
        value: AttrValue<L, P>,
        /// The value as written.
        expr: E,
        /// The debug rendering of the value as written.
        debug: String,
    },
    /// The items inside the parentheses, or why they could not be read.
    List { items: Result<Vec<AttrMeta<I, L, P, E>>, String> },
}

/// How a worker's retry delay is given.
pub enum RetryDelay<P> {
    /// `retry_delay = 3`: a fixed number of seconds.
    Value(u64),
    /// `retry_delay = path::to::func`: a function of the worker and the
    /// retry count.
    CustomFunc(P),
}

/// How a worker's unique id is given.
pub enum UniqueIdSpec<I, L, P, E> {
    /// `unique_id = "job_{id}"`: a format string over the job's fields.
    Shorthand(L),
    /// `unique_id(fmt = "...", name = expr, ...)`: a format string with
    /// named arguments.
    NamedFormatter { fmt: L, args: Vec<(I, E)> },
    /// `unique_id = path::to::func`: a function of the worker.
    CustomFunc(P),
}

/// The abstract result of reading a retry delay.
pub open spec fn spec_retry_delay<I, L, P, E>(meta: AttrMeta<I, L, P, E>) -> Result<
    RetryDelay<P>,
    Seq<char>,
> {
    match meta {
        AttrMeta::NameValue { value, debug, .. } => match value {
            AttrValue::IntLit(Ok(v)) => Ok(RetryDelay::Value(v)),
            AttrValue::IntLit(Err(e)) => Err(e@),
            AttrValue::Path(p) => Ok(RetryDelay::CustomFunc(p)),
            _ => Err("unsupported retry_delay value: "@ + debug@),
        },
        _ => Err("retry_delay must be a name-value attribute"@),
    }
}

/// The abstract value of an error message.
pub open spec fn err_view<T>(r: Result<T, String>) -> Result<T, Seq<char>> {
    match r {
        Ok(v) => Ok(v),
        Err(e) => Err(e@),
    }
}

/// Reads a `retry_delay` attribute: an integer literal is a fixed delay, a
/// path names a function; anything else is refused.
pub fn retry_delay_from_meta<I, L, P, E>(meta: AttrMeta<I, L, P, E>) -> (r: Result<
    RetryDelay<P>,
    String,
>)
    ensures
        err_view(r) == spec_retry_delay(meta),
{
    match meta {
        AttrMeta::NameValue { value, debug, .. } => match value {
            AttrValue::IntLit(Ok(v)) => Ok(RetryDelay::Value(v)),
            AttrValue::IntLit(Err(e)) => Err(e),
            AttrValue::Path(p) => Ok(RetryDelay::CustomFunc(p)),
            _ => {
                let mut m = String::from_str("unsupported retry_delay value: ");
                m.append(debug.as_str());
                Err(m)
            },
        },
        _ => Err(String::from_str("retry_delay must be a name-value attribute")),
    }
}

/// The format string and named arguments read from the items of
/// `unique_id(...)`, in order; a later `fmt` replaces an earlier one.
pub open spec fn spec_formatter_items<I, L, P, E>(items: Seq<AttrMeta<I, L, P, E>>) -> Result<
    (Option<L>, Seq<(I, E)>),
    Seq<char>,
>
    decreases items.len(),
{
    if items.len() == 0 {
        Ok((None, Seq::empty()))
    } else {
        match spec_formatter_items(items.drop_last()) {
            Err(e) => Err(e),
            Ok((fmt, args)) => match items.last() {
                AttrMeta::NameValue { ident, is_fmt, value, expr, .. } => if is_fmt {
                    match value {
                        AttrValue::StrLit(l) => Ok((Some(l), args)),
                        _ => Err("fmt must be a string literal"@),
                    }
                } else {
                    match ident {
                        Some(i) => Ok((fmt, args.push((i, expr)))),
                        None => Err("expected identifier"@),
                    }
                },
                _ => Err("unsupported unique_id syntax"@),
            },
        }
    }
}

/// The abstract value of a [`UniqueIdSpec`].
pub enum UniqueIdSpecView<I, L, P, E> {
    Shorthand(L),
    NamedFormatter { fmt: L, args: Seq<(I, E)> },
    CustomFunc(P),
}

/// The abstract value of the result of reading a unique id.
pub open spec fn unique_view<I, L, P, E>(r: Result<UniqueIdSpec<I, L, P, E>, String>) -> Result<
    UniqueIdSpecView<I, L, P, E>,
    Seq<char>,
> {
    match r {
        Ok(UniqueIdSpec::Shorthand(l)) => Ok(UniqueIdSpecView::Shorthand(l)),
        Ok(UniqueIdSpec::NamedFormatter { fmt, args }) => Ok(
            UniqueIdSpecView::NamedFormatter { fmt, args: args@ },
        ),
        Ok(UniqueIdSpec::CustomFunc(p)) => Ok(UniqueIdSpecView::CustomFunc(p)),
        Err(e) => Err(e@),
    }
}

/// The abstract result of reading a unique id.
pub open spec fn spec_unique_id<I, L, P, E>(meta: AttrMeta<I, L, P, E>) -> Result<
    UniqueIdSpecView<I, L, P, E>,
    Seq<char>,
> {
    match meta {
        AttrMeta::NameValue { value, .. } => match value {
            AttrValue::StrLit(l) => Ok(UniqueIdSpecView::Shorthand(l)),
            AttrValue::IntLit(_) => Err("unique_id must be a string literal"@),
            AttrValue::OtherLit => Err("unique_id must be a string literal"@),
            AttrValue::Path(p) => Ok(UniqueIdSpecView::CustomFunc(p)),
            AttrValue::Other => Err("Expected string literal or type path."@),
        },
        AttrMeta::List { items } => match items {
            Err(e) => Err(e@),
            Ok(items) => match spec_formatter_items(items@) {
                Err(e) => Err(e),
                Ok((None, _)) => Err("missing fmt = \"...\""@),
                Ok((Some(fmt), args)) => Ok(UniqueIdSpecView::NamedFormatter { fmt, args }),
            },
        },
        AttrMeta::Path => Err("invalid unique_id attribute"@),
    }
}

/// Reads the items of `unique_id(...)`: `fmt = "..."` gives the format
/// string, every other `name = expr` a named argument.
fn formatter_items<I, L, P, E>(items: Vec<AttrMeta<I, L, P, E>>) -> (r: Result<
    (Option<L>, Vec<(I, E)>),
    String,
>)
    ensures
        match (r, spec_formatter_items(items@)) {
            (Ok((fmt, args)), Ok((sfmt, sargs))) => fmt == sfmt && args@ == sargs,
            (Err(e), Err(se)) => e@ == se,
            _ => false,
        },
{
    let ghost all = items@;
    let mut fmt: Option<L> = None;
    let mut args: Vec<(I, E)> = Vec::new();
    let mut rest = items;
    let mut index: usize = 0;
    let total = rest.len();
    assert(all.len() == total);
    while rest.len() > 0
        invariant
            all == items@,
            index + rest@.len() == all.len(),
            all.len() <= usize::MAX,
            rest@ == all.subrange(index as int, all.len() as int),
            spec_formatter_items(all.take(index as int)) == Ok::<(Option<L>, Seq<(I, E)>), Seq<char>>((fmt, args@)),
        decreases rest@.len(),
    {
        let item = rest.remove(0);
        proof {
            assert(all.take(index + 1).drop_last() =~= all.take(index as int));
            assert(all.take(index + 1).last() == item);
        }
        match item {
            AttrMeta::NameValue { ident, is_fmt, value, expr, .. } => {
                if is_fmt {
                    match value {
                        AttrValue::StrLit(l) => {
                            fmt = Some(l);
                        },
                        _ => {
                            proof {
                                assert(spec_formatter_items(all.take(index + 1)) == Err::<(Option<L>, Seq<(I, E)>), Seq<char>>("fmt must be a string literal"@));
                                lemma_formatter_error_persists(all, index as int + 1);
                            }
                            return Err(String::from_str("fmt must be a string literal"));
                        },
                    }
                } else {
                    match ident {
                        Some(i) => {
                            args.push((i, expr));
                        },
                        None => {
                            proof {
                                lemma_formatter_error_persists(all, index as int + 1);
                            }
                            return Err(String::from_str("expected identifier"));
                        },
                    }
                }
            },
            _ => {
                proof {
                    assert(spec_formatter_items(all.take(index + 1)) == Err::<(Option<L>, Seq<(I, E)>), Seq<char>>("unsupported unique_id syntax"@));
                    lemma_formatter_error_persists(all, index as int + 1);
                }
                return Err(String::from_str("unsupported unique_id syntax"));
            },
        }
        assert(rest@ =~= all.subrange(index + 1, all.len() as int));
        index = index + 1;
    }
    assert(all.take(index as int) =~= all);
    Ok((fmt, args))
}

/// Once an item of `unique_id(...)` is refused, reading more items keeps
/// the first error.
proof fn lemma_formatter_error_persists<I, L, P, E>(items: Seq<AttrMeta<I, L, P, E>>, n: int)
    requires
        0 <= n <= items.len(),
        spec_formatter_items(items.take(n)) is Err,
    ensures
        spec_formatter_items(items) == spec_formatter_items(items.take(n)),
    decreases items.len() - n,
{
    if n < items.len() {
        assert(items.take(n + 1).drop_last() =~= items.take(n));
        lemma_formatter_error_persists(items, n + 1);
    } else {
        assert(items.take(n) =~= items);
    }
}

/// Reads a `unique_id` attribute: a string literal is a format string over
/// the job's fields, a path names a function, and `unique_id(fmt = "...",
/// name = expr, ...)` is a format string with named arguments; anything
/// else is refused.
pub fn unique_id_from_meta<I, L, P, E>(meta: AttrMeta<I, L, P, E>) -> (r: Result<
    UniqueIdSpec<I, L, P, E>,
    String,
>)
    ensures
        unique_view(r) == spec_unique_id(meta),
{
    match meta {
        AttrMeta::NameValue { value, .. } => match value {
            AttrValue::StrLit(l) => Ok(UniqueIdSpec::Shorthand(l)),
            AttrValue::IntLit(_) => Err(String::from_str("unique_id must be a string literal")),
            AttrValue::OtherLit => Err(String::from_str("unique_id must be a string literal")),
            AttrValue::Path(p) => Ok(UniqueIdSpec::CustomFunc(p)),
            AttrValue::Other => Err(String::from_str("Expected string literal or type path.")),
        },
        AttrMeta::List { items } => match items {
            Err(e) => Err(e),
            Ok(items) => match formatter_items(items) {
                Err(e) => Err(e),
                Ok((None, _)) => Err(String::from_str("missing fmt = \"...\"")),
                Ok((Some(fmt), args)) => Ok(UniqueIdSpec::NamedFormatter { fmt, args }),
            },
        },
        AttrMeta::Path => Err(String::from_str("invalid unique_id attribute")),
    }
}

/// The shape of a field of a batch processor struct: its name, if it has
/// one; the last segment of its type, when the type is a path; and the
/// first type argument of that segment, when it has one.
pub struct FieldShape<I, T> {
    pub ident: Option<I>,
    pub last_segment: Option<String>,
    pub first_type_arg: Option<T>,
}

/// Whether a field is a `Vec<T>` field: its type is a path whose last
/// segment is `Vec` with a type argument.
pub open spec fn is_vec_field<I, T>(f: FieldShape<I, T>) -> bool {
    &&& f.last_segment matches Some(s) && s@ == "Vec"@
    &&& f.first_type_arg is Some
}

/// The items field of a batch processor: the first `Vec<T>` field decides;
/// its name and item type, or nothing if it is unnamed or there is none.
pub open spec fn spec_vec_field<I, T>(fields: Seq<FieldShape<I, T>>) -> Option<(I, T)>
    decreases fields.len(),
{
    if fields.len() == 0 {
        None
    } else if is_vec_field(fields[0]) {
        match fields[0].ident {
            Some(i) => Some((i, fields[0].first_type_arg->0)),
            None => None,
        }
    } else {
        spec_vec_field(fields.drop_first())
    }
}

/// Finds the items field of a batch processor.
pub fn extract_vec_field<I, T>(fields: Vec<FieldShape<I, T>>) -> (r: Option<(I, T)>)
    ensures
        r == spec_vec_field(fields@),
{
    let ghost all = fields@;
    let mut rest = fields;
    let total = rest.len();
    assert(all.len() == total);
    while rest.len() > 0
        invariant
            all == fields@,
            spec_vec_field(rest@) == spec_vec_field(all),
        decreases rest@.len(),
    {
        let ghost before = rest@;
        let field = rest.remove(0);
        assert(rest@ =~= before.drop_first());
        assert(before[0] == field);
        let is_vec = match &field.last_segment {
            Some(s) => str_equal(s.as_str(), "Vec") && field.first_type_arg.is_some(),
            None => false,
        };
        proof {
            reveal_strlit("Vec");
        }
        if is_vec {
            return match field.ident {
                Some(i) => match field.first_type_arg {
                    Some(t) => Some((i, t)),
                    None => None,
                },
                None => None,
            };
        }
    }
    None
}

} // verus!
