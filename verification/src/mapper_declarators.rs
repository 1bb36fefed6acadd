//! The mapper on lists of declarators.

use vstd::prelude::*;
use crate::ast::Declarator;
use crate::mapper::{follows, keeps, lbl, MapError, Mapper};
use crate::mapper_spec::{rl_declarator, rl_declarators};
use crate::spec_ast::{lemma_v_declarators_index, v_declarator, v_declarators, SDeclarator};

verus! {

impl Mapper {
    /// Maps declarators in order.
    #[verifier::spinoff_prover]
    pub(crate) fn map_declarators(&mut self, b: Vec<Declarator>, fuel: u64) -> (r: Result<Vec<Declarator>, MapError>)
        ensures
            keeps(*old(self), *final(self)),
            follows(*old(self), *final(self), crate::mapper_spec::rl_declarators(crate::spec_ast::v_declarators(b@), 0, lbl(*old(self))), r is Ok, crate::spec_ast::v_declarators(r->Ok_0@), r matches Err(MapError::Unsupported)),
            crate::sugar::desugaring(*old(self)) && r is Ok ==> crate::sugar::declarators_free_from(crate::spec_ast::v_declarators(r->Ok_0@), 0),
            crate::sugar::desugaring(*old(self)) ==> crate::desugar_model::tracks(crate::desugar_model::ds_declarators(crate::spec_ast::v_declarators(b@), 0, crate::desugar_model::dstate(old(self).state), fuel), r is Ok, crate::spec_ast::v_declarators(r->Ok_0@), r->Err_0, crate::desugar_model::dstate(final(self).state)),
        decreases fuel, crate::mapper_size::sz_declarators(crate::spec_ast::v_declarators(b@), 0), 2nat,
    {
        let ghost vb = crate::spec_ast::v_declarators(b@);
        proof {
            crate::spec_ast::lemma_v_declarators_index(b@);
            assert(vb.subrange(0, vb.len() as int) =~= vb);
        }
        self.map_declarators_from(b, Ghost(vb), Ghost(0int), fuel)
    }

    /// Maps the elements of `vb` from index `i` on, which `rest` holds.
    #[verifier::spinoff_prover]
    fn map_declarators_from(&mut self, rest: Vec<Declarator>, vb: Ghost<Seq<crate::spec_ast::SDeclarator>>, i: Ghost<int>, fuel: u64) -> (r: Result<Vec<Declarator>, MapError>)
        requires
            0 <= i@ <= vb@.len(),
            crate::spec_ast::v_declarators(rest@) == vb@.subrange(i@, vb@.len() as int),
        ensures
            keeps(*old(self), *final(self)),
            follows(*old(self), *final(self), crate::mapper_spec::rl_declarators(vb@, i@, lbl(*old(self))), r is Ok, crate::spec_ast::v_declarators(r->Ok_0@), r matches Err(MapError::Unsupported)),
            crate::sugar::desugaring(*old(self)) && r is Ok ==> crate::sugar::declarators_free_from(crate::spec_ast::v_declarators(r->Ok_0@), 0),
            crate::sugar::desugaring(*old(self)) ==> crate::desugar_model::tracks(crate::desugar_model::ds_declarators(vb@, i@, crate::desugar_model::dstate(old(self).state), fuel), r is Ok, crate::spec_ast::v_declarators(r->Ok_0@), r->Err_0, crate::desugar_model::dstate(final(self).state)),
        decreases fuel, crate::mapper_size::sz_declarators(vb@, i@), 1nat,
    {
        let ghost l = lbl(*self);
        let ghost all = rest@;
        proof {
            crate::spec_ast::lemma_v_declarators_index(all);
        }
        if rest.len() == 0 {
            proof {
                assert(i@ == vb@.len());
                assert(crate::spec_ast::v_declarators(rest@) =~= vb@.subrange(i@, vb@.len() as int));
            }
            return Ok(rest);
        }
        let mut rest = rest;
        let x = rest.remove(0);
        let ghost a = crate::mapper_spec::rl_declarator(vb@[i@], l);
        let ghost rr = crate::mapper_spec::rl_declarators(vb@, i@ + 1, l);
        proof {
            crate::spec_ast::lemma_v_declarators_index(rest@);
            assert(x == all[0]);
            assert(vb@[i@] == crate::spec_ast::v_declarators(all)[0]);
            assert(vb@[i@] == crate::spec_ast::v_declarator(x));
            assert(rest@ =~= all.subrange(1, all.len() as int));
            assert forall|k: int| 0 <= k < rest@.len() implies #[trigger] crate::spec_ast::v_declarators(rest@)[k] == vb@[i@ + 1 + k] by {
                assert(rest@[k] == all[k + 1]);
                assert(vb@.subrange(i@, vb@.len() as int)[k + 1] == crate::spec_ast::v_declarators(all)[k + 1]);
            }
            assert(crate::spec_ast::v_declarators(rest@) =~= vb@.subrange(i@ + 1, vb@.len() as int));
            assert(crate::mapper_spec::rl_declarators(vb@, i@, l) == (seq![a.0] + rr.0, a.1 || rr.1, a.2 && rr.2));
        }
        let y = match self.map_declarator(x, fuel) { Ok(v) => v, Err(e) => { return Err(e); } };
        let mut tail = match self.map_declarators_from(rest, vb, Ghost(i@ + 1), fuel) { Ok(v) => v, Err(e) => { return Err(e); } };
        let ghost t0 = tail@;
        tail.insert(0, y);
        proof {
            crate::spec_ast::lemma_v_declarators_index(t0);
            crate::spec_ast::lemma_v_declarators_index(tail@);
            assert(crate::spec_ast::v_declarators(tail@) =~= seq![crate::spec_ast::v_declarator(y)] + crate::spec_ast::v_declarators(t0));
            if crate::sugar::desugaring(*old(self)) {
                let vt = crate::spec_ast::v_declarators(tail@);
                let v0 = crate::spec_ast::v_declarators(t0);
                crate::sugar::lemma_declarators_free_from(v0, 0);
                assert forall|k: int| 0 <= k < vt.len() implies #[trigger] crate::sugar::declarator_free(vt[k]) by {
                    if k > 0 {
                        assert(vt[k] == v0[k - 1]);
                    }
                }
                crate::sugar::lemma_declarators_free_from(vt, 0);
            }
        }
        Ok(tail)
    }


}

} // verus!
