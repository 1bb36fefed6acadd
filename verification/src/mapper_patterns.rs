//! The mapper on lists of binding patterns.

use vstd::prelude::*;
use crate::ast::Pattern;
use crate::mapper::{follows, keeps, lbl, MapError, Mapper};
use crate::mapper_spec::{rl_pattern, rl_patterns};
use crate::spec_ast::{lemma_v_patterns_index, v_pattern, v_patterns, SPattern};

verus! {

impl Mapper {
    /// Maps binding patterns in order.
    #[verifier::spinoff_prover]
    pub(crate) fn map_patterns(&mut self, b: Vec<Pattern>, fuel: u64) -> (r: Result<Vec<Pattern>, MapError>)
        ensures
            keeps(*old(self), *final(self)),
            follows(*old(self), *final(self), crate::mapper_spec::rl_patterns(crate::spec_ast::v_patterns(b@), 0, lbl(*old(self))), r is Ok, crate::spec_ast::v_patterns(r->Ok_0@), r matches Err(MapError::Unsupported)),
            crate::sugar::desugaring(*old(self)) && r is Ok ==> crate::sugar::patterns_free_from(crate::spec_ast::v_patterns(r->Ok_0@), 0),
            crate::sugar::desugaring(*old(self)) ==> crate::desugar_model::tracks(crate::desugar_model::ds_patterns(crate::spec_ast::v_patterns(b@), 0, crate::desugar_model::dstate(old(self).state), fuel), r is Ok, crate::spec_ast::v_patterns(r->Ok_0@), r->Err_0, crate::desugar_model::dstate(final(self).state)),
        decreases fuel, crate::mapper_size::sz_patterns(crate::spec_ast::v_patterns(b@), 0), 2nat,
    {
        let ghost vb = crate::spec_ast::v_patterns(b@);
        proof {
            crate::spec_ast::lemma_v_patterns_index(b@);
            assert(vb.subrange(0, vb.len() as int) =~= vb);
        }
        self.map_patterns_from(b, Ghost(vb), Ghost(0int), fuel)
    }

    /// Maps the elements of `vb` from index `i` on, which `rest` holds.
    #[verifier::spinoff_prover]
    fn map_patterns_from(&mut self, rest: Vec<Pattern>, vb: Ghost<Seq<crate::spec_ast::SPattern>>, i: Ghost<int>, fuel: u64) -> (r: Result<Vec<Pattern>, MapError>)
        requires
            0 <= i@ <= vb@.len(),
            crate::spec_ast::v_patterns(rest@) == vb@.subrange(i@, vb@.len() as int),
        ensures
            keeps(*old(self), *final(self)),
            follows(*old(self), *final(self), crate::mapper_spec::rl_patterns(vb@, i@, lbl(*old(self))), r is Ok, crate::spec_ast::v_patterns(r->Ok_0@), r matches Err(MapError::Unsupported)),
            crate::sugar::desugaring(*old(self)) && r is Ok ==> crate::sugar::patterns_free_from(crate::spec_ast::v_patterns(r->Ok_0@), 0),
            crate::sugar::desugaring(*old(self)) ==> crate::desugar_model::tracks(crate::desugar_model::ds_patterns(vb@, i@, crate::desugar_model::dstate(old(self).state), fuel), r is Ok, crate::spec_ast::v_patterns(r->Ok_0@), r->Err_0, crate::desugar_model::dstate(final(self).state)),
        decreases fuel, crate::mapper_size::sz_patterns(vb@, i@), 1nat,
    {
        let ghost l = lbl(*self);
        let ghost all = rest@;
        proof {
            crate::spec_ast::lemma_v_patterns_index(all);
        }
        if rest.len() == 0 {
            proof {
                assert(i@ == vb@.len());
                assert(crate::spec_ast::v_patterns(rest@) =~= vb@.subrange(i@, vb@.len() as int));
            }
            return Ok(rest);
        }
        let mut rest = rest;
        let x = rest.remove(0);
        let ghost a = crate::mapper_spec::rl_pattern(vb@[i@], l);
        let ghost rr = crate::mapper_spec::rl_patterns(vb@, i@ + 1, l);
        proof {
            crate::spec_ast::lemma_v_patterns_index(rest@);
            assert(x == all[0]);
            assert(vb@[i@] == crate::spec_ast::v_patterns(all)[0]);
            assert(vb@[i@] == crate::spec_ast::v_pattern(x));
            assert(rest@ =~= all.subrange(1, all.len() as int));
            assert forall|k: int| 0 <= k < rest@.len() implies #[trigger] crate::spec_ast::v_patterns(rest@)[k] == vb@[i@ + 1 + k] by {
                assert(rest@[k] == all[k + 1]);
                assert(vb@.subrange(i@, vb@.len() as int)[k + 1] == crate::spec_ast::v_patterns(all)[k + 1]);
            }
            assert(crate::spec_ast::v_patterns(rest@) =~= vb@.subrange(i@ + 1, vb@.len() as int));
            assert(crate::mapper_spec::rl_patterns(vb@, i@, l) == (seq![a.0] + rr.0, a.1 || rr.1, a.2 && rr.2));
        }
        let y = match self.map_binding_pattern(x, fuel) { Ok(v) => v, Err(e) => { return Err(e); } };
        let mut tail = match self.map_patterns_from(rest, vb, Ghost(i@ + 1), fuel) { Ok(v) => v, Err(e) => { return Err(e); } };
        let ghost t0 = tail@;
        tail.insert(0, y);
        proof {
            crate::spec_ast::lemma_v_patterns_index(t0);
            crate::spec_ast::lemma_v_patterns_index(tail@);
            assert(crate::spec_ast::v_patterns(tail@) =~= seq![crate::spec_ast::v_pattern(y)] + crate::spec_ast::v_patterns(t0));
            if crate::sugar::desugaring(*old(self)) {
                let vt = crate::spec_ast::v_patterns(tail@);
                let v0 = crate::spec_ast::v_patterns(t0);
                crate::sugar::lemma_patterns_free_from(v0, 0);
                assert forall|k: int| 0 <= k < vt.len() implies #[trigger] crate::sugar::pattern_free(vt[k]) by {
                    if k > 0 {
                        assert(vt[k] == v0[k - 1]);
                    }
                }
                crate::sugar::lemma_patterns_free_from(vt, 0);
            }
        }
        Ok(tail)
    }

}

} // verus!
