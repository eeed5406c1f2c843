//! Packaging statements for the wire.

use crate::model::Statement;
use crate::wire::{batch_steps, new_stmt, stmt_args, stmt_named_args, stmt_sql, stmt_want_rows};
use hrana_client::proto::{Batch, BatchCond, Stmt, Value};
use vstd::prelude::*;

verus! {

/// `wire` carries `stmt`: the same text, the parameters as positional
/// arguments in the same order, no named arguments, and the request to have
/// the rows returned with their column names.
pub open spec fn carries(wire: Stmt, stmt: Statement) -> bool {
    &&& stmt_sql(wire) == stmt.q@
    &&& stmt_args(wire) == stmt.params@
    &&& stmt_named_args(wire) == Seq::<Seq<char>>::empty()
    &&& stmt_want_rows(wire)
}

/// `batch` carries `stmts`: one unconditional step per statement, in the
/// order of the statements.
pub open spec fn carries_all(batch: Batch, stmts: Seq<Statement>) -> bool {
    &&& batch_steps(batch).len() == stmts.len()
    &&& forall|i: int|
        0 <= i < stmts.len() ==> (#[trigger] batch_steps(batch)[i]).0 is None && carries(
            batch_steps(batch)[i].1,
            stmts[i],
        )
}

/// Packages one statement for the wire.
pub fn to_wire(stmt: Statement) -> (wire: Stmt)
    ensures
        carries(wire, stmt),
{
    let Statement { q, params } = stmt;
    let mut wire = new_stmt(q, true);
    let ghost all = params@;
    for param in it: params
        invariant
            it.seq() == all,
            stmt_sql(wire) == q@,
            stmt_args(wire) == all.take(it.index() as int),
            stmt_named_args(wire) == Seq::<Seq<char>>::empty(),
            stmt_want_rows(wire),
    {
        wire.bind(param);
        assert(all.take(it.index() + 1) =~= all.take(it.index() as int).push(param));
    }
    assert(all.take(all.len() as int) =~= all);
    wire
}

/// Packages statements into one batch, a step per statement in the order
/// given. No step is made conditional on another.
pub fn to_wire_batch(stmts: Vec<Statement>) -> (batch: Batch)
    ensures
        carries_all(batch, stmts@),
{
    let mut batch = Batch::new();
    let ghost all = stmts@;
    for stmt in it: stmts
        invariant
            it.seq() == all,
            carries_all(batch, all.take(it.index() as int)),
    {
        let ghost before = batch_steps(batch);
        let wire = to_wire(stmt);
        batch.step(None, wire);
        assert(carries_all(batch, all.take(it.index() + 1))) by {
            let upto = all.take(it.index() + 1);
            assert forall|i: int| 0 <= i < upto.len() implies (#[trigger] batch_steps(batch)[i]).0
                is None && carries(batch_steps(batch)[i].1, upto[i]) by {
                if i < it.index() {
                    assert(batch_steps(batch)[i] == before[i]);
                    assert(upto[i] == all.take(it.index() as int)[i]);
                }
            }
        }
    }
    assert(all.take(all.len() as int) =~= all);
    batch
}

} // verus!
