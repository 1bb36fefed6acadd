//! The mapper on the cases of a `switch`.

use vstd::prelude::*;
use crate::ast::SwitchCase;
use crate::mapper::{follows, keeps, lbl, MapError, Mapper};
use crate::mapper_spec::rl_cases;
use crate::spec_ast::{v_cases, v_opt_expr, v_stmts, SSwitchCase};

verus! {

impl Mapper {
    /// Maps a case: its test, then its statements.
    #[verifier::spinoff_prover]
    pub(crate) fn map_case(&mut self, c: SwitchCase, fuel: u64) -> (r: Result<SwitchCase, MapError>)
        ensures
            keeps(*old(self), *final(self)),
            follows(*old(self), *final(self), crate::mapper_spec::rl_case(crate::spec_ast::v_case(c), lbl(*old(self))), r is Ok, crate::spec_ast::v_case(r->Ok_0), r matches Err(MapError::Unsupported)),
            crate::sugar::desugaring(*old(self)) ==> crate::desugar_model::tracks(crate::desugar_model::ds_case(crate::spec_ast::v_case(c), crate::desugar_model::dstate(old(self).state), fuel), r is Ok, crate::spec_ast::v_case(r->Ok_0), r->Err_0, crate::desugar_model::dstate(final(self).state)),
        decreases fuel, crate::mapper_size::sz_case(crate::spec_ast::v_case(c)), 3nat,
    {
        let ghost cv = crate::spec_ast::v_case(c);
        let ghost l = lbl(*self);
        let SwitchCase { test, body } = c;
        proof {
            assert(cv == SSwitchCase { test: v_opt_expr(test), body: v_stmts(body@) });
        }
        let nt = match self.map_opt_expr(test, fuel) { Ok(v) => v, Err(e) => { return Err(e); } };
        let nb = match self.map_stmts(body, fuel) { Ok(v) => v, Err(e) => { return Err(e); } };
        let res = SwitchCase { test: nt, body: nb };
        proof {
            assert(crate::spec_ast::v_case(res) == SSwitchCase { test: v_opt_expr(nt), body: v_stmts(nb@) });
        }
        Ok(res)
    }

    /// Maps the cases of a switch in order.
    #[verifier::spinoff_prover]
    pub(crate) fn map_cases(&mut self, b: Vec<SwitchCase>, fuel: u64) -> (r: Result<Vec<SwitchCase>, MapError>)
        ensures
            keeps(*old(self), *final(self)),
            follows(*old(self), *final(self), crate::mapper_spec::rl_cases(crate::spec_ast::v_cases(b@), 0, lbl(*old(self))), r is Ok, crate::spec_ast::v_cases(r->Ok_0@), r matches Err(MapError::Unsupported)),
            crate::sugar::desugaring(*old(self)) ==> crate::desugar_model::tracks(crate::desugar_model::ds_cases(crate::spec_ast::v_cases(b@), 0, crate::desugar_model::dstate(old(self).state), fuel), r is Ok, crate::spec_ast::v_cases(r->Ok_0@), r->Err_0, crate::desugar_model::dstate(final(self).state)),
        decreases fuel, crate::mapper_size::sz_cases(crate::spec_ast::v_cases(b@), 0), 2nat,
    {
        let ghost vb = crate::spec_ast::v_cases(b@);
        proof {
            crate::spec_ast::lemma_v_cases_index(b@);
            assert(vb.subrange(0, vb.len() as int) =~= vb);
        }
        self.map_cases_from(b, Ghost(vb), Ghost(0int), fuel)
    }

    /// Maps the elements of `vb` from index `i` on, which `rest` holds.
    #[verifier::spinoff_prover]
    fn map_cases_from(&mut self, rest: Vec<SwitchCase>, vb: Ghost<Seq<crate::spec_ast::SSwitchCase>>, i: Ghost<int>, fuel: u64) -> (r: Result<Vec<SwitchCase>, MapError>)
        requires
            0 <= i@ <= vb@.len(),
            crate::spec_ast::v_cases(rest@) == vb@.subrange(i@, vb@.len() as int),
        ensures
            keeps(*old(self), *final(self)),
            follows(*old(self), *final(self), crate::mapper_spec::rl_cases(vb@, i@, lbl(*old(self))), r is Ok, crate::spec_ast::v_cases(r->Ok_0@), r matches Err(MapError::Unsupported)),
            crate::sugar::desugaring(*old(self)) ==> crate::desugar_model::tracks(crate::desugar_model::ds_cases(vb@, i@, crate::desugar_model::dstate(old(self).state), fuel), r is Ok, crate::spec_ast::v_cases(r->Ok_0@), r->Err_0, crate::desugar_model::dstate(final(self).state)),
        decreases fuel, crate::mapper_size::sz_cases(vb@, i@), 1nat,
    {
        let ghost l = lbl(*self);
        let ghost all = rest@;
        proof {
            crate::spec_ast::lemma_v_cases_index(all);
        }
        if rest.len() == 0 {
            proof {
                assert(i@ == vb@.len());
                assert(crate::spec_ast::v_cases(rest@) =~= vb@.subrange(i@, vb@.len() as int));
            }
            return Ok(rest);
        }
        let mut rest = rest;
        let x = rest.remove(0);
        let ghost a = crate::mapper_spec::rl_case(vb@[i@], l);
        let ghost rr = crate::mapper_spec::rl_cases(vb@, i@ + 1, l);
        proof {
            crate::spec_ast::lemma_v_cases_index(rest@);
            assert(x == all[0]);
            assert(vb@[i@] == crate::spec_ast::v_cases(all)[0]);
            assert(vb@[i@] == crate::spec_ast::v_case(x));
            assert(rest@ =~= all.subrange(1, all.len() as int));
            assert forall|k: int| 0 <= k < rest@.len() implies #[trigger] crate::spec_ast::v_cases(rest@)[k] == vb@[i@ + 1 + k] by {
                assert(rest@[k] == all[k + 1]);
                assert(vb@.subrange(i@, vb@.len() as int)[k + 1] == crate::spec_ast::v_cases(all)[k + 1]);
            }
            assert(crate::spec_ast::v_cases(rest@) =~= vb@.subrange(i@ + 1, vb@.len() as int));
            assert(crate::mapper_spec::rl_cases(vb@, i@, l) == (seq![a.0] + rr.0, a.1 || rr.1, a.2 && rr.2));
        }
        let y = match self.map_case(x, fuel) { Ok(v) => v, Err(e) => { return Err(e); } };
        let mut tail = match self.map_cases_from(rest, vb, Ghost(i@ + 1), fuel) { Ok(v) => v, Err(e) => { return Err(e); } };
        let ghost t0 = tail@;
        tail.insert(0, y);
        proof {
            crate::spec_ast::lemma_v_cases_index(t0);
            crate::spec_ast::lemma_v_cases_index(tail@);
            assert(crate::spec_ast::v_cases(tail@) =~= seq![crate::spec_ast::v_case(y)] + crate::spec_ast::v_cases(t0));
        }
        Ok(tail)
    }
}

} // verus!
