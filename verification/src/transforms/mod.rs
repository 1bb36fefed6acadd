//! The rewrites, one module per construct, and the stand-alone loop
//! rewriter.

use vstd::prelude::*;
use crate::ast::Stmt;
use crate::mapper_state::{next_counter, ident_name, MapperState};
use crate::transforms::stmt_do_while::spec_do_while;
use crate::transforms::stmt_for_n::{spec_for, v_for_init};
use crate::spec_ast::{v_opt_expr, SStmt};

pub mod builder;
pub mod for_header;
pub mod stmt_for_of;
pub mod stmt_continue;
pub mod stmt_do_while;
pub mod stmt_for;
pub mod stmt_for_n;
pub mod stmt_finally;
pub mod stmt_var_decl;
pub mod var_pattern;
pub mod stmt_switch;

verus! {

/// Rewrites loops one statement at a time, outside the mapper.
pub struct LoopTransformer {
    /// The state the rewrites take fresh names from.
    pub state: MapperState,
}

/// The model of `LoopTransformer::transform_statement` with counter `c`: a
/// `do-while` becomes the flag loop of `spec_do_while`, a `for` the `while`
/// of `spec_for`, anything else is kept.
pub open spec fn spec_loop_transform(s: SStmt, c: usize) -> SStmt {
    match s {
        SStmt::DoWhile(b, t) => spec_do_while(*b, t, ident_name(c as nat)),
        SStmt::For(i, t, u, b) => spec_for(i, t, u, *b),
        _ => s,
    }
}

impl LoopTransformer {
    /// A transformer with a fresh state.
    pub fn new() -> (t: LoopTransformer)
        ensures
            t.state.id_counter == 0,
            t.state.continue_targets@.len() == 0,
    {
        LoopTransformer { state: MapperState::new() }
    }

    /// Rewrites a `do-while` or `for` statement into a `while` loop (see
    /// `spec_loop_transform`); other statements are returned as they are.
    pub fn transform_statement(&mut self, stmt: Stmt) -> (r: Result<Stmt, String>)
        ensures
            r is Ok,
            r->Ok_0@ == spec_loop_transform(stmt@, old(self).state.id_counter),
            final(self).state.id_counter == (if stmt@ is DoWhile { next_counter(old(self).state.id_counter) } else { old(self).state.id_counter }),
            final(self).state.continue_targets@ == old(self).state.continue_targets@,
    {
        let ghost sv = stmt@;
        match stmt {
            Stmt::DoWhile(b, t) => {
                let (_, s) = stmt_do_while::transform_do_while_statement(*b, t, &mut self.state);
                Ok(s)
            },
            Stmt::For(i, t, u, b) => {
                let ghost iv = i;
                assert(sv == SStmt::For(v_for_init(iv), v_opt_expr(t), v_opt_expr(u), Box::new(b@)));
                Ok(stmt_for::transform_for_statement(i, t, u, *b))
            },
            other => Ok(other),
        }
    }
}

} // verus!
