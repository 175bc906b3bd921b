//! Deferred computations whose result type is known at compile time.

use vstd::prelude::*;
use std::marker::PhantomData;
use polars::prelude::Expr;
use crate::engine::expr::{
    expr_add, expr_alias, expr_and, expr_clone, expr_col, expr_div, expr_max, expr_mean,
    expr_min, expr_model, expr_mul, expr_not, expr_or, expr_sub, expr_sum, wildcard_name,
    BinaryOp, ExprModel, Reduction,
};
use crate::schema::{Column, ColumnType, Float32, Float64};

verus! {

/// An expression of the engine together with the type `T` that its result is
/// expected to have. Nothing is computed when a typed expression is built; the
/// type is what the builders offered here keep track of, and the engine
/// checks it only when the surrounding query runs.
pub struct TypedExpr<T: ColumnType> {
    inner: Expr,
    marker: PhantomData<T>,
}

/// The markers of the kinds of value that arithmetic and numeric reductions
/// are offered on.
pub trait NumericType: ColumnType {}

impl NumericType for i32 {}

impl NumericType for i64 {}

impl NumericType for Float32 {}

impl NumericType for Float64 {}

impl<T: ColumnType> View for TypedExpr<T> {
    type V = ExprModel;

    /// A typed expression is seen as the shape of the expression it wraps.
    open spec fn view(&self) -> ExprModel {
        expr_model(self.expr())
    }
}

impl<T: ColumnType> TypedExpr<T> {
    /// The engine expression that is wrapped.
    pub closed spec fn expr(self) -> Expr {
        self.inner
    }

    /// Wraps an engine expression. The caller answers for the type of its
    /// result being `T`.
    pub fn new(expr: Expr) -> (e: Self)
        ensures
            e.expr() == expr,
    {
        TypedExpr { inner: expr, marker: PhantomData }
    }

    /// The wrapped engine expression.
    pub fn inner(&self) -> (e: &Expr)
        ensures
            *e == self.expr(),
    {
        &self.inner
    }

    /// Gives the engine expression back.
    pub fn into_inner(self) -> (e: Expr)
        ensures
            e == self.expr(),
    {
        self.inner
    }

    /// The same computation with its result called `name`. The type stays.
    pub fn alias(self, name: &str) -> (e: Self)
        ensures
            e@ == ExprModel::Alias(Box::new(self@), name@),
    {
        TypedExpr { inner: expr_alias(self.inner, name), marker: PhantomData }
    }
}

impl<T: ColumnType> Clone for TypedExpr<T> {
    fn clone(&self) -> (e: Self)
        ensures
            e.expr() == self.expr(),
    {
        TypedExpr { inner: expr_clone(&self.inner), marker: PhantomData }
    }
}

/// The expression that reads the column a handle names, typed as the handle
/// is. (A handle called `*` reads every column: the engine gives that name a
/// meaning of its own.)
pub fn col<T: ColumnType>(column: Column<T>) -> (e: TypedExpr<T>)
    ensures
        e@ == (if column.name@ == wildcard_name() {
            ExprModel::Wildcard
        } else {
            ExprModel::Column(column.name@)
        }),
{
    TypedExpr { inner: expr_col(column.name), marker: PhantomData }
}

impl<T: NumericType> TypedExpr<T> {
    /// The sum of two expressions of one numeric type.
    pub fn add(self, other: TypedExpr<T>) -> (e: Self)
        ensures
            e@ == ExprModel::Binary(BinaryOp::Add, Box::new(self@), Box::new(other@)),
    {
        TypedExpr { inner: expr_add(self.inner, other.inner), marker: PhantomData }
    }

    /// The difference of two expressions of one numeric type.
    pub fn sub(self, other: TypedExpr<T>) -> (e: Self)
        ensures
            e@ == ExprModel::Binary(BinaryOp::Sub, Box::new(self@), Box::new(other@)),
    {
        TypedExpr { inner: expr_sub(self.inner, other.inner), marker: PhantomData }
    }

    /// The product of two expressions of one numeric type.
    pub fn mul(self, other: TypedExpr<T>) -> (e: Self)
        ensures
            e@ == ExprModel::Binary(BinaryOp::Mul, Box::new(self@), Box::new(other@)),
    {
        TypedExpr { inner: expr_mul(self.inner, other.inner), marker: PhantomData }
    }

    /// The quotient of two expressions of one numeric type.
    pub fn div(self, other: TypedExpr<T>) -> (e: Self)
        ensures
            e@ == ExprModel::Binary(BinaryOp::Div, Box::new(self@), Box::new(other@)),
    {
        TypedExpr { inner: expr_div(self.inner, other.inner), marker: PhantomData }
    }

    /// The sum of all values of a numeric expression.
    pub fn sum(self) -> (e: Self)
        ensures
            e@ == ExprModel::Reduce(Reduction::Sum, Box::new(self@)),
    {
        TypedExpr { inner: expr_sum(self.inner), marker: PhantomData }
    }

    /// The mean of all values of a numeric expression.
    pub fn mean(self) -> (e: Self)
        ensures
            e@ == ExprModel::Reduce(Reduction::Mean, Box::new(self@)),
    {
        TypedExpr { inner: expr_mean(self.inner), marker: PhantomData }
    }

    /// The least value of a numeric expression.
    pub fn min(self) -> (e: Self)
        ensures
            e@ == ExprModel::Reduce(Reduction::Min, Box::new(self@)),
    {
        TypedExpr { inner: expr_min(self.inner), marker: PhantomData }
    }

    /// The greatest value of a numeric expression.
    pub fn max(self) -> (e: Self)
        ensures
            e@ == ExprModel::Reduce(Reduction::Max, Box::new(self@)),
    {
        TypedExpr { inner: expr_max(self.inner), marker: PhantomData }
    }
}

impl TypedExpr<bool> {
    /// The conjunction of two boolean expressions.
    pub fn and(self, other: TypedExpr<bool>) -> (e: Self)
        ensures
            e@ == ExprModel::Binary(BinaryOp::And, Box::new(self@), Box::new(other@)),
    {
        TypedExpr { inner: expr_and(self.inner, other.inner), marker: PhantomData }
    }

    /// The disjunction of two boolean expressions.
    pub fn or(self, other: TypedExpr<bool>) -> (e: Self)
        ensures
            e@ == ExprModel::Binary(BinaryOp::Or, Box::new(self@), Box::new(other@)),
    {
        TypedExpr { inner: expr_or(self.inner, other.inner), marker: PhantomData }
    }

    /// The negation of a boolean expression.
    pub fn not(self) -> (e: Self)
        ensures
            e@ == ExprModel::Not(Box::new(self@)),
    {
        TypedExpr { inner: expr_not(self.inner), marker: PhantomData }
    }
}

} // verus!
