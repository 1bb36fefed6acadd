//! The statement part of the mapper: visiting a statement and mapping its
//! children.

use vstd::prelude::*;
use crate::ast::{Expr, Stmt};
use crate::mapper::{
    follows, keeps, lbl, rl_visit, structural, MapError, Mapper, MapperAction, StmtVisitor,
};
use crate::mapper_spec::{
    boundary, refused, rl_do_while, rl_for, rl_for_in, rl_for_of, rl_if, rl_stmt, rl_switch, rl_try,
    rl_while, rl_with,
};
use crate::spec_ast::SStmt;
use crate::sugar::{desugaring, sugar_free, sugar_free_below};

verus! {

/// The model of an optional boxed statement.
pub open spec fn v_opt_box_stmt(s: Option<Box<Stmt>>) -> Option<Box<SStmt>> {
    match s {
        Some(x) => Some(Box::new(x@)),
        None => None,
    }
}

/// Every statement has a positive size.
proof fn lemma_sz_stmt_pos(s: SStmt)
    ensures
        crate::mapper_size::sz_stmt(s) >= 1,
{
}

/// The visit of a structural mapper keeps the size of a statement.
proof fn lemma_sz_rl_visit(s: SStmt, before: bool, l: Option<Seq<char>>)
    ensures
        crate::mapper_size::sz_stmt(crate::mapper::rl_visit(s, before, l)) == crate::mapper_size::sz_stmt(s),
{
}

impl Mapper {
    /// The break relabeling visitor with label `l`: in the before phase an
    /// unlabeled `break` gets `l`, a `while` or function declaration is
    /// skipped (not entered), and `switch`, `continue` and loops other than
    /// `while` are refused.
    pub(crate) fn relabel_visit(&mut self, s: Stmt, before: bool, l: String) -> (r: Result<(MapperAction, Stmt), MapError>)
        ensures
            final(self).visitors_stmt@ == old(self).visitors_stmt@,
            final(self).state.id_counter == old(self).state.id_counter,
            final(self).state.continue_targets@ == old(self).state.continue_targets@,
            r is Err <==> before && refused(s@),
            r is Err ==> r->Err_0 == MapError::Unsupported,
            r is Ok ==> {
                &&& r->Ok_0.0 != MapperAction::Revisit
                &&& (r->Ok_0.0 == MapperAction::Skip <==> before && boundary(s@))
                &&& r->Ok_0.1@ == rl_visit(s@, before, Some(l@))
                &&& final(self).relabeled == (old(self).relabeled || (before && s@ matches SStmt::Break(None)))
            },
    {
        if !before {
            return Ok((MapperAction::Normal, s));
        }
        let ghost sv = s;
        match s {
            Stmt::Break(None) => {
                self.relabeled = true;
                Ok((MapperAction::Normal, Stmt::Break(Some(l))))
            },
            Stmt::While(..) | Stmt::FunctionDecl(..) => Ok((MapperAction::Skip, s)),
            Stmt::Switch(..) | Stmt::Continue(..) | Stmt::DoWhile(..) | Stmt::For(..) | Stmt::ForIn(..) | Stmt::ForOf(..) => {
                Err(MapError::Unsupported)
            },
            other => Ok((MapperAction::Normal, other)),
        }
    }

    /// Calls the visitors in order on `stmt`, stopping at the first that asks
    /// for a revisit.
    pub(crate) fn visit_stmt(&mut self, stmt: Stmt, before: bool, fuel: u64) -> (r: Result<(MapperAction, Stmt), MapError>)
        ensures
            keeps(*old(self), *final(self)),
            structural(*old(self)) ==> {
                &&& final(self).state.id_counter == old(self).state.id_counter
                &&& final(self).state.continue_targets@ == old(self).state.continue_targets@
                &&& (r is Err <==> before && lbl(*old(self)) is Some && refused(stmt@))
                &&& r is Err ==> r->Err_0 == MapError::Unsupported
                &&& r is Ok ==> {
                    &&& r->Ok_0.0 != MapperAction::Revisit
                    &&& (r->Ok_0.0 == MapperAction::Skip <==> before && lbl(*old(self)) is Some && boundary(stmt@))
                    &&& r->Ok_0.1@ == rl_visit(stmt@, before, lbl(*old(self)))
                    &&& final(self).relabeled == (old(self).relabeled || (before && lbl(*old(self)) is Some
                        && stmt@ matches SStmt::Break(None)))
                }
            },
            desugaring(*old(self)) && !before && sugar_free_below(stmt@) && r is Ok && r->Ok_0.0 != MapperAction::Revisit
                ==> sugar_free(r->Ok_0.1@),
            desugaring(*old(self)) && r is Ok ==> r->Ok_0.0 != MapperAction::Skip,
            desugaring(*old(self)) ==> crate::desugar_model::tracks(crate::desugar_model::vis(stmt@, before, crate::desugar_model::dstate(old(self).state), fuel),
                r is Ok, (r->Ok_0.0, r->Ok_0.1@), r->Err_0, crate::desugar_model::dstate(final(self).state)),
        decreases fuel, 0nat, 0nat,
    {
        if self.is_desugaring() {
            if fuel == 0 {
                return Err(MapError::OutOfFuel);
            }
            let (a, s2) = match crate::pipeline::pipeline_visit(stmt, before, &mut self.state, fuel - 1) { Ok(v) => v, Err(e) => { return Err(e); } };
            if a == MapperAction::Revisit {
                return Ok((MapperAction::Revisit, s2));
            }
            return Ok((MapperAction::Normal, s2));
        }
        let n = self.visitors_stmt.len();
        if n == 0 {
            return Ok((MapperAction::Normal, stmt));
        }
        if n == 1 {
            let label = match &self.visitors_stmt[0] {
                StmtVisitor::BreakRelabel(l) => Some(l.clone()),
                _ => None,
            };
            match label {
                Some(l) => {
                    return self.relabel_visit(stmt, before, l);
                },
                None => {},
            }
        }
        assert(!desugaring(*old(self)));
        assert(!structural(*old(self)));
        let mut s = stmt;
        let mut action = MapperAction::Normal;
        let mut i: usize = 0;
        while i < n
            invariant
                keeps(*old(self), *self),
                !structural(*old(self)),
                !desugaring(*old(self)),
                n == self.visitors_stmt@.len(),
                i <= n,
            decreases n - i,
        {
            let is_pipeline = match &self.visitors_stmt[i] {
                StmtVisitor::Pipeline => true,
                _ => false,
            };
            let label = match &self.visitors_stmt[i] {
                StmtVisitor::BreakRelabel(l) => l.clone(),
                _ => String::new(),
            };
            let (a, s2) = if is_pipeline {
                if fuel == 0 {
                    return Err(MapError::OutOfFuel);
                }
                match crate::pipeline::pipeline_visit(s, before, &mut self.state, fuel - 1) { Ok(v) => v, Err(e) => { return Err(e); } }
            } else {
                match self.relabel_visit(s, before, label) { Ok(v) => v, Err(e) => { return Err(e); } }
            };
            s = s2;
            if a == MapperAction::Skip {
                action = MapperAction::Skip;
            }
            if a == MapperAction::Revisit {
                action = MapperAction::Revisit;
                break;
            }
            i = i + 1;
        }
        Ok((action, s))
    }

    /// Maps a statement: the before visitors, its children (unless a before
    /// visitor asked to skip them), the after visitors. When a before visitor
    /// asks for a revisit, the statement it
    /// gave back is mapped afresh instead; when an after visitor asks for
    /// one, the result is mapped again. Only revisits, and the children of a
    /// statement a rewriting visitor has seen, use up `fuel`.
    #[verifier::rlimit(60)]
    #[verifier::spinoff_prover]
    pub fn map_statement(&mut self, stmt: Stmt, fuel: u64) -> (r: Result<Stmt, MapError>)
        ensures
            keeps(*old(self), *final(self)),
            follows(*old(self), *final(self), rl_stmt(stmt@, lbl(*old(self))), r is Ok, r->Ok_0@, r matches Err(MapError::Unsupported)),
            desugaring(*old(self)) && r is Ok ==> sugar_free(r->Ok_0@),
            crate::sugar::desugaring(*old(self)) ==> crate::desugar_model::tracks(crate::desugar_model::ds_stmt(stmt@, crate::desugar_model::dstate(old(self).state), fuel), r is Ok, r->Ok_0@, r->Err_0, crate::desugar_model::dstate(final(self).state)),
        decreases fuel, crate::mapper_size::sz_stmt(stmt@), 6nat,
    {
        proof {
            reveal(crate::mapper_spec::rl_stmt);
            reveal(crate::desugar_model::ds_stmt);
            lemma_sz_stmt_pos(stmt@);
        }
        let ghost m0 = *self;
        let (a1, s1) = match self.visit_stmt(stmt, true, fuel) { Ok(v) => v, Err(e) => { return Err(e); } };
        if a1 == MapperAction::Revisit {
            if fuel == 0 {
                return Err(MapError::OutOfFuel);
            }
            return self.map_statement(s1, fuel - 1);
        }
        let ghost m1 = *self;
        let s2 = if a1 == MapperAction::Skip {
            s1
        } else if self.is_structural() {
            proof {
                lemma_sz_rl_visit(stmt@, true, lbl(m0));
            }
            match self.map_stmt_children(s1, fuel) { Ok(v) => v, Err(e) => { return Err(e); } }
        } else {
            if fuel == 0 {
                return Err(MapError::OutOfFuel);
            }
            match self.map_stmt_children(s1, fuel - 1) { Ok(v) => v, Err(e) => { return Err(e); } }
        };
        let ghost m2 = *self;
        let (a2, s3) = match self.visit_stmt(s2, false, fuel) { Ok(v) => v, Err(e) => { return Err(e); } };
        if a2 == MapperAction::Revisit {
            if fuel == 0 {
                return Err(MapError::OutOfFuel);
            }
            self.map_statement(s3, fuel - 1)
        } else {
            Ok(s3)
        }
    }

    /// Whether the only visitor is the desugaring one.
    pub(crate) fn is_desugaring(&self) -> (b: bool)
        ensures
            b == desugaring(*self),
    {
        if self.visitors_stmt.len() == 1 {
            match &self.visitors_stmt[0] {
                StmtVisitor::Pipeline => true,
                _ => false,
            }
        } else {
            false
        }
    }

    /// Whether the visitors only relabel breaks (or there are none).
    pub(crate) fn is_structural(&self) -> (b: bool)
        ensures
            b == structural(*self),
    {
        let n = self.visitors_stmt.len();
        if n == 0 {
            true
        } else if n == 1 {
            match &self.visitors_stmt[0] {
                StmtVisitor::BreakRelabel(_) => true,
                _ => false,
            }
        } else {
            false
        }
    }

    /// Maps the children of a statement.
    pub(crate) fn map_stmt_children(&mut self, stmt: Stmt, fuel: u64) -> (r: Result<Stmt, MapError>)
        ensures
            keeps(*old(self), *final(self)),
            (lbl(*old(self)) is None || (!refused(stmt@) && !boundary(stmt@) && !(stmt@ matches SStmt::Break(None)))) ==>
                follows(*old(self), *final(self), rl_stmt(stmt@, lbl(*old(self))), r is Ok, r->Ok_0@, r matches Err(MapError::Unsupported)),
            desugaring(*old(self)) && r is Ok ==> sugar_free_below(r->Ok_0@),
            crate::sugar::desugaring(*old(self)) ==> crate::desugar_model::tracks(crate::desugar_model::ds_children(stmt@, crate::desugar_model::dstate(old(self).state), fuel), r is Ok, r->Ok_0@, r->Err_0, crate::desugar_model::dstate(final(self).state)),
        decreases fuel, crate::mapper_size::sz_stmt(stmt@), 4nat,
    {
        proof {
            reveal(crate::mapper_spec::rl_stmt);
            reveal(crate::desugar_model::ds_children);
        }
        let f = fuel;
        let ghost sv = stmt@;
        let ghost l = lbl(*self);
        proof {
            if !(l is Some && (refused(sv) || boundary(sv))) {
                match sv {
                    SStmt::DoWhile(..) => assert(rl_stmt(sv, l) == rl_do_while(sv, l)),
                    SStmt::ForIn(..) => assert(rl_stmt(sv, l) == rl_for_in(sv, l)),
                    SStmt::ForOf(..) => assert(rl_stmt(sv, l) == rl_for_of(sv, l)),
                    SStmt::For(..) => assert(rl_stmt(sv, l) == rl_for(sv, l)),
                    SStmt::If(..) => assert(rl_stmt(sv, l) == rl_if(sv, l)),
                    SStmt::Switch(..) => assert(rl_stmt(sv, l) == rl_switch(sv, l)),
                    SStmt::Try(..) => assert(rl_stmt(sv, l) == rl_try(sv, l)),
                    SStmt::While(..) => assert(rl_stmt(sv, l) == rl_while(sv, l)),
                    SStmt::With(..) => assert(rl_stmt(sv, l) == rl_with(sv, l)),
                    _ => {},
                }
            }
        }
        match &stmt {
            Stmt::Block(..) => self.map_block(stmt, f),
            Stmt::DoWhile(..) => self.map_do_while(stmt, f),
            Stmt::Expr(..) => self.map_expr_stmt(stmt, f),
            Stmt::ForIn(..) => self.map_for_in(stmt, f),
            Stmt::ForOf(..) => self.map_for_of(stmt, f),
            Stmt::For(..) => self.map_for(stmt, f),
            Stmt::If(..) => self.map_if(stmt, f),
            Stmt::Labeled(..) => self.map_labeled(stmt, f),
            Stmt::Return(..) => self.map_return(stmt, f),
            Stmt::Switch(..) => self.map_switch(stmt, f),
            Stmt::Throw(..) => self.map_throw(stmt, f),
            Stmt::Try(..) => self.map_try(stmt, f),
            Stmt::While(..) => self.map_while(stmt, f),
            Stmt::With(..) => self.map_with(stmt, f),
            Stmt::VarDecl(..) => self.map_var_decl_stmt(stmt, f),
            Stmt::FunctionDecl(..) => self.map_function_decl(stmt, f),
            Stmt::ClassDecl(..) => self.map_class_decl(stmt, f),
            _ => Ok(stmt),
        }
    }

}

} // verus!
