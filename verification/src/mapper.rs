//! The tree mapper: visits every statement, lets the configured visitors
//! rewrite it before and after its children are mapped, and maps the
//! statements nested in expressions, functions and classes.
//!
//! Every mapping function takes a budget `fuel` that each nested call and
//! each repeated visit uses up; it fails with `MapError::OutOfFuel` when the
//! budget is spent. With no visitor, or with only the break relabeling, the
//! result is the one `mapper_spec` describes.

use vstd::prelude::*;
use crate::ast::{Program, Stmt};
use crate::mapper_spec::{refused, rl_stmts};
use crate::mapper_state::MapperState;
use crate::spec_ast::{v_stmts, SStmt};

verus! {

/// What a visitor asks the mapper to do next.
#[derive(Debug, Clone, Copy, PartialEq, Eq, Structural)]
pub enum MapperAction {
    /// Call the next visitor; in the before phase the node is then entered.
    Normal,
    /// Stop calling visitors for this step and visit the returned statement
    /// again as a whole.
    Revisit,
    /// In the before phase: call the next visitors, but do not enter the
    /// node's children. No effect in the after phase.
    Skip,
}

/// Why a mapping failed.
#[derive(Debug, Clone, Copy, PartialEq, Eq, Structural)]
pub enum MapError {
    /// The budget of nested and repeated visits was spent.
    OutOfFuel,
    /// A visitor met a statement it cannot handle.
    Unsupported,
}

/// A statement visitor.
#[derive(Debug)]
pub enum StmtVisitor {
    /// The desugaring rewrites (see `pipeline`).
    Pipeline,
    /// Gives every `break` without a label this label (in the before phase),
    /// does not enter `while` loops and function declarations (their breaks
    /// are their own), and refuses `switch`, `continue` and loops other than
    /// `while`.
    BreakRelabel(String),
}

/// The mapper: its visitors, in order, and the state they share.
pub struct Mapper {
    /// The name that identifies this mapper.
    pub debug_id: String,
    /// The statement visitors, in the order they are called.
    pub visitors_stmt: Vec<StmtVisitor>,
    /// The state of the rewrites (fresh names, enclosing loops).
    pub state: MapperState,
    /// Whether the break relabeling gave a label to some `break`.
    pub relabeled: bool,
}

/// The label the visitors give to unlabeled breaks when they only relabel:
/// `Some(None)` with no visitor, `Some(Some(l))` with one `BreakRelabel(l)`,
/// `None` otherwise.
pub open spec fn label_mode(v: Seq<StmtVisitor>) -> Option<Option<Seq<char>>> {
    if v.len() == 0 {
        Some(None)
    } else if v.len() == 1 && v[0] is BreakRelabel {
        Some(Some(v[0]->BreakRelabel_0@))
    } else {
        None
    }
}

/// Whether the mapper's visitors only relabel breaks (or there are none).
pub open spec fn structural(m: Mapper) -> bool {
    label_mode(m.visitors_stmt@) is Some
}

/// The relabeling label of a structural mapper.
pub open spec fn lbl(m: Mapper) -> Option<Seq<char>> {
    label_mode(m.visitors_stmt@).unwrap()
}

/// The mapping left the visitors as they were.
pub open spec fn keeps(m0: Mapper, m1: Mapper) -> bool {
    m1.visitors_stmt@ == m0.visitors_stmt@
}

/// For a structural mapper, a mapping from `m0` to `m1` with outcome (`ok`,
/// `val`, `unsupported`) agrees with the model `spec` (result, unlabeled break
/// reached, nothing refused): it succeeds exactly where the model refuses
/// nothing, and otherwise fails with `Unsupported` (never for want of fuel);
/// a success gives the model's result and records a reached break; the
/// rewrite state is untouched.
pub open spec fn follows<V>(m0: Mapper, m1: Mapper, spec: (V, bool, bool), ok: bool, val: V, unsupported: bool) -> bool {
    structural(m0) ==> {
        &&& ok || unsupported
        &&& ok ==> spec.2 && val == spec.0 && m1.relabeled == (m0.relabeled || spec.1)
        &&& unsupported ==> !spec.2
        &&& m1.state.id_counter == m0.state.id_counter
        &&& m1.state.continue_targets@ == m0.state.continue_targets@
    }
}

/// The result of a visit in the model of a structural mapper: the relabeling
/// of an unlabeled break in the before phase.
pub open spec fn rl_visit(s: SStmt, before: bool, l: Option<Seq<char>>) -> SStmt {
    match (before, l, s) {
        (true, Some(x), SStmt::Break(None)) => SStmt::Break(Some(x)),
        _ => s,
    }
}

impl Mapper {
    /// A mapper without visitors, with a fresh state.
    pub fn new() -> (m: Mapper)
        ensures
            m.visitors_stmt@.len() == 0,
            m.state.id_counter == 0,
            m.state.continue_targets@.len() == 0,
            !m.relabeled,
            m.debug_id@.len() == 0,
    {
        Mapper { debug_id: String::new(), visitors_stmt: Vec::new(), state: MapperState::new(), relabeled: false }
    }

    /// Sets the name that identifies this mapper.
    pub fn set_debug_id(&mut self, debug_id: String)
        ensures
            final(self).debug_id == debug_id,
            final(self).visitors_stmt@ == old(self).visitors_stmt@,
            final(self).state == old(self).state,
            final(self).relabeled == old(self).relabeled,
    {
        self.debug_id = debug_id;
    }

    /// Appends a statement visitor; visitors are called in the order added.
    pub fn add_visitor_stmt(&mut self, visitor: StmtVisitor)
        ensures
            final(self).visitors_stmt@ == old(self).visitors_stmt@.push(visitor),
            final(self).debug_id == old(self).debug_id,
            final(self).state == old(self).state,
            final(self).relabeled == old(self).relabeled,
    {
        self.visitors_stmt.push(visitor);
    }

    /// Maps a program: its statements are mapped as the body of a block.
    pub fn map(&mut self, program: Program, fuel: u64) -> (r: Result<Program, MapError>)
        ensures
            keeps(*old(self), *final(self)),
            follows(
                *old(self),
                *final(self),
                rl_stmt_block(v_stmts(program.body@), lbl(*old(self))),
                r is Ok,
                v_stmts(r->Ok_0.body@),
                r matches Err(MapError::Unsupported),
            ),
            crate::sugar::desugaring(*old(self)) && r is Ok ==> crate::sugar::desugared(v_stmts(r->Ok_0.body@)),
            crate::sugar::desugaring(*old(self)) ==> crate::desugar_model::tracks(
                crate::desugar_model::ds_program(v_stmts(program.body@), crate::desugar_model::dstate(old(self).state), fuel),
                r is Ok,
                v_stmts(r->Ok_0.body@),
                r->Err_0,
                crate::desugar_model::dstate(final(self).state),
            ),
    {
        proof {
            reveal(crate::mapper_spec::rl_stmt);
        }
        let block = match self.map_statement(Stmt::Block(program.body), fuel) { Ok(v) => v, Err(e) => { return Err(e); } };
        match block {
            Stmt::Block(body) => {
                proof {
                    if crate::sugar::desugaring(*old(self)) {
                        crate::sugar::lemma_sugar_free_from(v_stmts(body@), 0);
                    }
                }
                Ok(Program { body })
            },
            _ => Err(MapError::Unsupported),
        }
    }
}

/// The model of mapping a program body as a block.
pub open spec fn rl_stmt_block(b: Seq<SStmt>, l: Option<Seq<char>>) -> (Seq<SStmt>, bool, bool) {
    rl_stmts(b, 0, l)
}

/// A mapper without visitors.
pub fn create_mapper() -> (m: Mapper)
    ensures
        m.visitors_stmt@.len() == 0,
        m.state.id_counter == 0,
        m.state.continue_targets@.len() == 0,
        !m.relabeled,
{
    Mapper::new()
}

/// A mapper without visitors, identified by `debug_id`.
pub fn create_mapper_with_debug_id(debug_id: String) -> (m: Mapper)
    ensures
        m.visitors_stmt@.len() == 0,
        m.state.id_counter == 0,
        m.state.continue_targets@.len() == 0,
        !m.relabeled,
        m.debug_id == debug_id,
{
    let mut m = Mapper::new();
    m.set_debug_id(debug_id);
    m
}

} // verus!
