//! The whole desugaring of a program.

use vstd::prelude::*;
use crate::ast::Program;
use crate::mapper::{create_mapper_with_debug_id, keeps, MapError, StmtVisitor};
use crate::spec_ast::v_stmts;
use crate::sugar::desugared;

verus! {

/// The budget of nested and repeated visits for a whole program.
pub const PROGRAM_FUEL: u64 = 0xffff_ffff_ffff_ffff;

/// The outcome of transforming a piece of source code: the printed tree and
/// code, and the error if there was one.
pub struct TransformResult {
    pub transformed_ast: String,
    pub transformed_code: String,
    pub had_error: bool,
    pub error_message: Option<String>,
}

/// Desugars a program: a mapper named `root` with the desugaring visitor maps
/// it (see `pipeline`), from a fresh state with the budget `PROGRAM_FUEL`.
/// The outcome is exactly `desugar_program` of the input (see
/// `desugar_model`): the same program always gives the same result. A program
/// it gives back holds no `switch`, `continue`, `do-while`, `for` or `try` with
/// `finally` at any statement position the mapper visits, inside functions,
/// arrows and classes too (see `sugar`).
pub fn transform_program(program: Program) -> (r: Result<Program, MapError>)
    ensures
        r is Ok ==> desugared(v_stmts(r->Ok_0.body@)),
        match crate::desugar_model::desugar_program(v_stmts(program.body@)) {
            Ok(b) => r is Ok && v_stmts(r->Ok_0.body@) == b,
            Err(e) => r == Err::<Program, MapError>(e),
        },
{
    let mut mapper = create_mapper_with_debug_id(String::from_str("root"));
    mapper.add_visitor_stmt(StmtVisitor::Pipeline);
    assert(mapper.visitors_stmt@.len() == 1 && mapper.visitors_stmt@[0] is Pipeline);
    assert(crate::desugar_model::dstate(mapper.state) == crate::desugar_model::fresh_state()) by {
        assert(crate::desugar_model::tview(mapper.state.continue_targets@) =~= Seq::empty());
    }
    mapper.map(program, PROGRAM_FUEL)
}

/// The message of a mapping error.
pub fn map_error_message(e: MapError) -> (s: String)
    ensures
        e == MapError::OutOfFuel ==> s@ == "the program is nested too deeply"@,
        e == MapError::Unsupported ==> s@ == "the program holds a statement the rewrites do not handle"@,
{
    match e {
        MapError::OutOfFuel => String::from_str("the program is nested too deeply"),
        MapError::Unsupported => String::from_str("the program holds a statement the rewrites do not handle"),
    }
}

} // verus!
