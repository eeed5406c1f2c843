//! The boundary to code the verifier does not read: the protocol types of
//! `hrana_client`, and the comparison of string slices in std.
//!
//! Everything in this module is trusted: the types are opaque to the
//! verifier, and the contracts below restate what the protocol crate's source
//! and std's documentation say. Nothing here is proved.

use hrana_client::proto::{Batch, BatchCond, Stmt, Value};
use vstd::prelude::*;

verus! {

/// A scalar of the wire protocol: null, integer, real, text or blob.
#[verifier::external_type_specification]
#[verifier::external_body]
pub struct ExValue(hrana_client::proto::Value);

/// A statement as the wire protocol carries it.
#[verifier::external_type_specification]
#[verifier::external_body]
pub struct ExStmt(hrana_client::proto::Stmt);

/// An ordered batch of steps as the wire protocol carries it.
#[verifier::external_type_specification]
#[verifier::external_body]
pub struct ExBatch(hrana_client::proto::Batch);

/// The condition under which a batch step runs.
#[verifier::external_type_specification]
#[verifier::external_body]
pub struct ExBatchCond(hrana_client::proto::BatchCond);

/// The SQL text held by a wire statement (its `sql` field).
pub uninterp spec fn stmt_sql(s: Stmt) -> Seq<char>;

/// The positional arguments held by a wire statement, in binding order (its
/// `args` field).
pub uninterp spec fn stmt_args(s: Stmt) -> Seq<Value>;

/// The names of the named arguments held by a wire statement (its
/// `named_args` field).
pub uninterp spec fn stmt_named_args(s: Stmt) -> Seq<Seq<char>>;

/// Whether a wire statement asks for its rows back (its `want_rows` field).
pub uninterp spec fn stmt_want_rows(s: Stmt) -> bool;

/// The steps held by a wire batch, in submission order, each with its
/// condition (its `steps` field).
pub uninterp spec fn batch_steps(b: Batch) -> Seq<(Option<BatchCond>, Stmt)>;

/// `Stmt::new`: a statement with the given text and flag and no arguments of
/// either kind.
#[verifier::external_body]
pub(crate) fn new_stmt(sql: String, want_rows: bool) -> (s: Stmt)
    ensures
        stmt_sql(s) == sql@,
        stmt_want_rows(s) == want_rows,
        stmt_args(s) == Seq::<Value>::empty(),
        stmt_named_args(s) == Seq::<Seq<char>>::empty(),
{
    Stmt::new(sql, want_rows)
}

/// `Stmt::bind`: appends one positional argument and changes nothing else.
pub assume_specification[ Stmt::bind ](s: &mut Stmt, val: Value)
    ensures
        stmt_args(*final(s)) == stmt_args(*old(s)).push(val),
        stmt_sql(*final(s)) == stmt_sql(*old(s)),
        stmt_want_rows(*final(s)) == stmt_want_rows(*old(s)),
        stmt_named_args(*final(s)) == stmt_named_args(*old(s)),
;

/// `Batch::new`: a batch without steps.
pub assume_specification[ Batch::new ]() -> (b: Batch)
    ensures
        batch_steps(b) == Seq::<(Option<BatchCond>, Stmt)>::empty(),
;

/// `Batch::step`: appends one step, made of the condition and the statement
/// as given.
pub assume_specification[ Batch::step ](b: &mut Batch, condition: Option<BatchCond>, stmt: Stmt)
    ensures
        batch_steps(*final(b)) == batch_steps(*old(b)).push((condition, stmt)),
;

/// `str`'s `==`: two string slices are equal exactly when they hold the same
/// characters.
#[verifier::external_body]
pub(crate) fn str_eq(a: &str, b: &str) -> (same: bool)
    ensures
        same == (a@ == b@),
{
    a == b
}

/// `Clone::clone` on a wire value: the copy is the same value.
pub assume_specification[ <Value as Clone>::clone ](v: &Value) -> (r: Value)
    ensures
        r == *v,
;

} // verus!
