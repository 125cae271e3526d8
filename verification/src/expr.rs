//! Filter expressions, and which of them partition columns alone can decide.

use crate::schema::{has_name, texts};
use vstd::prelude::*;

verus! {

/// How far the result of a function depends on more than its arguments.
#[derive(Clone, Copy, Debug, PartialEq, Eq, Structural)]
pub enum Volatility {
    /// The arguments alone decide the result.
    Immutable,
    /// The arguments decide the result within one query.
    Stable,
    /// The result may change from call to call.
    Volatile,
}

/// An expression over the columns of a table.
#[derive(Debug)]
pub enum Expr {
    /// The value of the column of this name.
    Column(String),
    /// A constant, as it is written.
    Literal(String),
    /// An operator, a comparison, a cast or the like, which its operands alone decide.
    Operation { op: String, args: Vec<Expr> },
    /// A call of a function.
    Call { function: String, volatility: Volatility, args: Vec<Expr> },
    /// Anything that the values of one row do not decide, such as an aggregate, a window function
    /// or a wildcard.
    Other(String),
}

/// How far a table applies a filter that is handed to it.
#[derive(Clone, Copy, Debug, PartialEq, Eq, Structural)]
pub enum TableProviderFilterPushDown {
    /// The table does not use the filter.
    Unsupported,
    /// The table may leave out rows that fail the filter, but not all of them.
    Inexact,
    /// The table leaves out every row that fails the filter.
    Exact,
}

/// The values of the columns `cols` alone decide `expr`.
pub open spec fn applicable(cols: Seq<Seq<char>>, expr: Expr) -> bool
    decreases expr,
{
    match expr {
        Expr::Column(name) => cols.contains(name@),
        Expr::Literal(_) => true,
        Expr::Operation { op, args } => forall|i: int|
            0 <= i < args@.len() ==> applicable(cols, #[trigger] args@[i]),
        Expr::Call { function, volatility, args } => volatility == Volatility::Immutable && forall|
            i: int,
        |
            0 <= i < args@.len() ==> applicable(cols, #[trigger] args@[i]),
        Expr::Other(_) => false,
    }
}

/// The values of one row decide `expr`.
pub open spec fn row_decides(expr: Expr) -> bool
    decreases expr,
{
    match expr {
        Expr::Column(_) | Expr::Literal(_) => true,
        Expr::Operation { op, args } => forall|i: int|
            0 <= i < args@.len() ==> row_decides(#[trigger] args@[i]),
        Expr::Call { function, volatility, args } => volatility == Volatility::Immutable && forall|
            i: int,
        |
            0 <= i < args@.len() ==> row_decides(#[trigger] args@[i]),
        Expr::Other(_) => false,
    }
}

/// The column `name` occurs in `expr`.
pub open spec fn mentions(expr: Expr, name: Seq<char>) -> bool
    decreases expr,
{
    match expr {
        Expr::Column(column) => column@ == name,
        Expr::Operation { op, args } => exists|i: int|
            0 <= i < args@.len() && mentions(#[trigger] args@[i], name),
        Expr::Call { function, volatility, args } => exists|i: int|
            0 <= i < args@.len() && mentions(#[trigger] args@[i], name),
        Expr::Literal(_) | Expr::Other(_) => false,
    }
}

/// Check whether the given expression can be resolved using only the columns `col_names`.
pub fn expr_applicable_for_cols(col_names: &Vec<String>, expr: &Expr) -> (resolved: bool)
    ensures
        resolved == applicable(texts(col_names@), *expr),
    decreases expr,
{
    match expr {
        Expr::Column(name) => has_name(col_names, name),
        Expr::Literal(_) => true,
        Expr::Operation { args, .. } => all_applicable(col_names, args),
        Expr::Call { volatility, args, .. } => *volatility == Volatility::Immutable
            && all_applicable(col_names, args),
        Expr::Other(_) => false,
    }
}

/// Check whether each of `exprs` can be resolved using only the columns `col_names`.
fn all_applicable(col_names: &Vec<String>, exprs: &Vec<Expr>) -> (resolved: bool)
    ensures
        resolved == forall|i: int|
            0 <= i < exprs@.len() ==> applicable(texts(col_names@), #[trigger] exprs@[i]),
    decreases exprs,
{
    let mut i: usize = 0;
    while i < exprs.len()
        invariant
            i <= exprs@.len(),
            forall|j: int| 0 <= j < i ==> applicable(texts(col_names@), #[trigger] exprs@[j]),
        decreases exprs@.len() - i,
    {
        if !expr_applicable_for_cols(col_names, &exprs[i]) {
            assert(!applicable(texts(col_names@), exprs@[i as int]));
            return false;
        }
        i = i + 1;
    }
    true
}

/// A filter is decided by the columns `cols` if and only if the values of a row decide it and it
/// mentions no other column.
pub proof fn applicable_filters_mention_no_other_column(cols: Seq<Seq<char>>, expr: Expr)
    ensures
        applicable(cols, expr) <==> row_decides(expr) && forall|name: Seq<char>|
            mentions(expr, name) ==> cols.contains(name),
    decreases expr, 1int,
{
    match expr {
        Expr::Column(name) => {
            assert(mentions(expr, name@));
        },
        Expr::Operation { op, args } => {
            lemma_args_mention_no_other_column(cols, expr, args@);
        },
        Expr::Call { function, volatility, args } => {
            lemma_args_mention_no_other_column(cols, expr, args@);
        },
        _ => {},
    }
}

/// What holds of each of `args` holds of all of them together.
proof fn lemma_args_mention_no_other_column(cols: Seq<Seq<char>>, expr: Expr, args: Seq<Expr>)
    requires
        (expr matches Expr::Operation { args: a, .. } && a@ == args) || (expr matches Expr::Call {
            args: a,
            ..
        } && a@ == args),
    ensures
        (forall|i: int| 0 <= i < args.len() ==> applicable(cols, #[trigger] args[i])) <==> (forall|
            i: int,
        |
            0 <= i < args.len() ==> row_decides(#[trigger] args[i])) && forall|name: Seq<char>|
            mentions(expr, name) ==> cols.contains(name),
    decreases expr, 0int,
{
    assert forall|i: int| 0 <= i < args.len() implies (applicable(cols, #[trigger] args[i])
        <==> row_decides(args[i]) && forall|name: Seq<char>|
        mentions(args[i], name) ==> cols.contains(name)) by {
        applicable_filters_mention_no_other_column(cols, args[i]);
    }
}

/// A filter that some columns decide is decided by any columns that these are among.
pub proof fn applicability_grows_with_the_columns(
    fewer: Seq<Seq<char>>,
    more: Seq<Seq<char>>,
    expr: Expr,
)
    requires
        applicable(fewer, expr),
        forall|name: Seq<char>| fewer.contains(name) ==> more.contains(name),
    ensures
        applicable(more, expr),
    decreases expr,
{
    match expr {
        Expr::Operation { op, args } => {
            assert forall|i: int| 0 <= i < args@.len() implies applicable(
                more,
                #[trigger] args@[i],
            ) by {
                assert(applicable(fewer, args@[i]));
                applicability_grows_with_the_columns(fewer, more, args@[i]);
            }
        },
        Expr::Call { function, volatility, args } => {
            assert forall|i: int| 0 <= i < args@.len() implies applicable(
                more,
                #[trigger] args@[i],
            ) by {
                assert(applicable(fewer, args@[i]));
                applicability_grows_with_the_columns(fewer, more, args@[i]);
            }
        },
        _ => {},
    }
}

} // verus!
