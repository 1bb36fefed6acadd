//! The mapper on lists: statements, `switch` cases, `catch` clauses.

use vstd::prelude::*;
use crate::ast::Stmt;
use crate::mapper::{follows, keeps, lbl, MapError, Mapper};
use crate::mapper_spec::{rl_stmt, rl_stmts};
use crate::spec_ast::{lemma_v_stmts_index, v_stmts, SStmt};

use crate::sugar::{desugaring, sugar_free_from};

verus! {

impl Mapper {
    /// Maps a list of statements in order.
    #[verifier::spinoff_prover]
    pub(crate) fn map_stmts(&mut self, b: Vec<Stmt>, fuel: u64) -> (r: Result<Vec<Stmt>, MapError>)
        ensures
            keeps(*old(self), *final(self)),
            follows(*old(self), *final(self), crate::mapper_spec::rl_stmts(crate::spec_ast::v_stmts(b@), 0, lbl(*old(self))), r is Ok, crate::spec_ast::v_stmts(r->Ok_0@), r matches Err(MapError::Unsupported)),
            desugaring(*old(self)) && r is Ok ==> sugar_free_from(crate::spec_ast::v_stmts(r->Ok_0@), 0),
            crate::sugar::desugaring(*old(self)) ==> crate::desugar_model::tracks(crate::desugar_model::ds_stmts(crate::spec_ast::v_stmts(b@), 0, crate::desugar_model::dstate(old(self).state), fuel), r is Ok, crate::spec_ast::v_stmts(r->Ok_0@), r->Err_0, crate::desugar_model::dstate(final(self).state)),
        decreases fuel, crate::mapper_size::sz_stmts(crate::spec_ast::v_stmts(b@), 0), 2nat,
    {
        let ghost vb = crate::spec_ast::v_stmts(b@);
        proof {
            crate::spec_ast::lemma_v_stmts_index(b@);
            assert(vb.subrange(0, vb.len() as int) =~= vb);
        }
        self.map_stmts_from(b, Ghost(vb), Ghost(0int), fuel)
    }

    /// Maps the elements of `vb` from index `i` on, which `rest` holds.
    #[verifier::spinoff_prover]
    fn map_stmts_from(&mut self, rest: Vec<Stmt>, vb: Ghost<Seq<crate::spec_ast::SStmt>>, i: Ghost<int>, fuel: u64) -> (r: Result<Vec<Stmt>, MapError>)
        requires
            0 <= i@ <= vb@.len(),
            crate::spec_ast::v_stmts(rest@) == vb@.subrange(i@, vb@.len() as int),
        ensures
            keeps(*old(self), *final(self)),
            follows(*old(self), *final(self), crate::mapper_spec::rl_stmts(vb@, i@, lbl(*old(self))), r is Ok, crate::spec_ast::v_stmts(r->Ok_0@), r matches Err(MapError::Unsupported)),
            desugaring(*old(self)) && r is Ok ==> sugar_free_from(crate::spec_ast::v_stmts(r->Ok_0@), 0),
            crate::sugar::desugaring(*old(self)) ==> crate::desugar_model::tracks(crate::desugar_model::ds_stmts(vb@, i@, crate::desugar_model::dstate(old(self).state), fuel), r is Ok, crate::spec_ast::v_stmts(r->Ok_0@), r->Err_0, crate::desugar_model::dstate(final(self).state)),
        decreases fuel, crate::mapper_size::sz_stmts(vb@, i@), 1nat,
    {
        let ghost l = lbl(*self);
        let ghost all = rest@;
        proof {
            crate::spec_ast::lemma_v_stmts_index(all);
        }
        if rest.len() == 0 {
            proof {
                assert(i@ == vb@.len());
                assert(crate::spec_ast::v_stmts(rest@) =~= vb@.subrange(i@, vb@.len() as int));
            }
            return Ok(rest);
        }
        let mut rest = rest;
        let x = rest.remove(0);
        let ghost a = crate::mapper_spec::rl_stmt(vb@[i@], l);
        let ghost rr = crate::mapper_spec::rl_stmts(vb@, i@ + 1, l);
        proof {
            crate::spec_ast::lemma_v_stmts_index(rest@);
            assert(x == all[0]);
            assert(vb@[i@] == crate::spec_ast::v_stmts(all)[0]);
            assert(vb@[i@] == crate::spec_ast::v_stmt(x));
            assert(rest@ =~= all.subrange(1, all.len() as int));
            assert forall|k: int| 0 <= k < rest@.len() implies #[trigger] crate::spec_ast::v_stmts(rest@)[k] == vb@[i@ + 1 + k] by {
                assert(rest@[k] == all[k + 1]);
                assert(vb@.subrange(i@, vb@.len() as int)[k + 1] == crate::spec_ast::v_stmts(all)[k + 1]);
            }
            assert(crate::spec_ast::v_stmts(rest@) =~= vb@.subrange(i@ + 1, vb@.len() as int));
            assert(crate::mapper_spec::rl_stmts(vb@, i@, l) == (seq![a.0] + rr.0, a.1 || rr.1, a.2 && rr.2));
        }
        let y = match self.map_statement(x, fuel) { Ok(v) => v, Err(e) => { return Err(e); } };
        let mut tail = match self.map_stmts_from(rest, vb, Ghost(i@ + 1), fuel) { Ok(v) => v, Err(e) => { return Err(e); } };
        let ghost t0 = tail@;
        tail.insert(0, y);
        proof {
            crate::spec_ast::lemma_v_stmts_index(t0);
            crate::spec_ast::lemma_v_stmts_index(tail@);
            assert(crate::spec_ast::v_stmts(tail@) =~= seq![crate::spec_ast::v_stmt(y)] + crate::spec_ast::v_stmts(t0));
            if desugaring(*old(self)) {
                crate::sugar::lemma_sugar_free_cons(crate::spec_ast::v_stmt(y), crate::spec_ast::v_stmts(t0));
            }
        }
        Ok(tail)
    }


}

} // verus!
