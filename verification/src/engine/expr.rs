//! What the library believes of a polars `Expr`, a node of a deferred
//! computation.

use vstd::prelude::*;
use polars::prelude::Expr;

verus! {

/// The binary operators that typed expressions are built with.
pub enum BinaryOp {
    Add,
    Sub,
    Mul,
    Div,
    And,
    Or,
}

/// The reductions that typed expressions are built with.
pub enum Reduction {
    Sum,
    Mean,
    Min,
    Max,
}

/// The shape of an expression, as far as the library builds expressions: a
/// tree over column references. `Other` stands for every node of the engine
/// that the library has no builder for.
pub enum ExprModel {
    /// A reference to the column of that name.
    Column(Seq<char>),
    /// The engine's selection of all columns.
    Wildcard,
    /// An expression whose result is given another name.
    Alias(Box<ExprModel>, Seq<char>),
    /// A binary operator applied to two expressions.
    Binary(BinaryOp, Box<ExprModel>, Box<ExprModel>),
    /// A reduction of an expression to one value; for the minimum and the
    /// maximum, the engine's plain forms.
    Reduce(Reduction, Box<ExprModel>),
    /// The negation of a boolean expression.
    Not(Box<ExprModel>),
    Other,
}

/// The shape of an engine expression.
pub uninterp spec fn expr_model(e: Expr) -> ExprModel;

/// The name that the engine reads as "all columns" rather than as a column.
pub open spec fn wildcard_name() -> Seq<char> {
    seq!['*']
}

/// Calls `col`: a reference to the column of that name, except that the name
/// `*` gives the selection of all columns.
#[verifier::external_body]
pub(crate) fn expr_col(name: &str) -> (e: Expr)
    ensures
        expr_model(e) == (if name@ == wildcard_name() {
            ExprModel::Wildcard
        } else {
            ExprModel::Column(name@)
        }),
{
    polars::prelude::col(name)
}

/// Calls `Expr::alias`, which wraps the expression in a renaming node.
#[verifier::external_body]
pub(crate) fn expr_alias(e: Expr, name: &str) -> (r: Expr)
    ensures
        expr_model(r) == ExprModel::Alias(Box::new(expr_model(e)), name@),
{
    e.alias(name)
}

/// Calls `Expr::clone`, which gives the same expression again.
#[verifier::external_body]
pub(crate) fn expr_clone(e: &Expr) -> (r: Expr)
    ensures
        r == *e,
{
    e.clone()
}

/// Applies `+` to two expressions, which builds the engine's addition node.
#[verifier::external_body]
pub(crate) fn expr_add(l: Expr, r: Expr) -> (e: Expr)
    ensures
        expr_model(e) == ExprModel::Binary(
            BinaryOp::Add,
            Box::new(expr_model(l)),
            Box::new(expr_model(r)),
        ),
{
    l + r
}

/// Applies `-` to two expressions, which builds the engine's subtraction node.
#[verifier::external_body]
pub(crate) fn expr_sub(l: Expr, r: Expr) -> (e: Expr)
    ensures
        expr_model(e) == ExprModel::Binary(
            BinaryOp::Sub,
            Box::new(expr_model(l)),
            Box::new(expr_model(r)),
        ),
{
    l - r
}

/// Applies `*` to two expressions, which builds the engine's multiplication node.
#[verifier::external_body]
pub(crate) fn expr_mul(l: Expr, r: Expr) -> (e: Expr)
    ensures
        expr_model(e) == ExprModel::Binary(
            BinaryOp::Mul,
            Box::new(expr_model(l)),
            Box::new(expr_model(r)),
        ),
{
    l * r
}

/// Applies `/` to two expressions, which builds the engine's division node.
#[verifier::external_body]
pub(crate) fn expr_div(l: Expr, r: Expr) -> (e: Expr)
    ensures
        expr_model(e) == ExprModel::Binary(
            BinaryOp::Div,
            Box::new(expr_model(l)),
            Box::new(expr_model(r)),
        ),
{
    l / r
}

/// Calls `Expr::and`, which builds the engine's conjunction node.
#[verifier::external_body]
pub(crate) fn expr_and(l: Expr, r: Expr) -> (e: Expr)
    ensures
        expr_model(e) == ExprModel::Binary(
            BinaryOp::And,
            Box::new(expr_model(l)),
            Box::new(expr_model(r)),
        ),
{
    l.and(r)
}

/// Calls `Expr::or`, which builds the engine's disjunction node.
#[verifier::external_body]
pub(crate) fn expr_or(l: Expr, r: Expr) -> (e: Expr)
    ensures
        expr_model(e) == ExprModel::Binary(
            BinaryOp::Or,
            Box::new(expr_model(l)),
            Box::new(expr_model(r)),
        ),
{
    l.or(r)
}

/// Calls `Expr::not`, which builds the engine's negation node.
#[verifier::external_body]
pub(crate) fn expr_not(e: Expr) -> (r: Expr)
    ensures
        expr_model(r) == ExprModel::Not(Box::new(expr_model(e))),
{
    e.not()
}

/// Calls `Expr::sum`, which builds the engine's sum node.
#[verifier::external_body]
pub(crate) fn expr_sum(e: Expr) -> (r: Expr)
    ensures
        expr_model(r) == ExprModel::Reduce(Reduction::Sum, Box::new(expr_model(e))),
{
    e.sum()
}

/// Calls `Expr::mean`, which builds the engine's mean node.
#[verifier::external_body]
pub(crate) fn expr_mean(e: Expr) -> (r: Expr)
    ensures
        expr_model(r) == ExprModel::Reduce(Reduction::Mean, Box::new(expr_model(e))),
{
    e.mean()
}

/// Calls `Expr::min`, which builds the engine's plain minimum node.
#[verifier::external_body]
pub(crate) fn expr_min(e: Expr) -> (r: Expr)
    ensures
        expr_model(r) == ExprModel::Reduce(Reduction::Min, Box::new(expr_model(e))),
{
    e.min()
}

/// Calls `Expr::max`, which builds the engine's plain maximum node.
#[verifier::external_body]
pub(crate) fn expr_max(e: Expr) -> (r: Expr)
    ensures
        expr_model(r) == ExprModel::Reduce(Reduction::Max, Box::new(expr_model(e))),
{
    e.max()
}

} // verus!
