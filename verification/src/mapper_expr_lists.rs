//! The mapper on lists of expressions, arguments, array elements and object
//! properties.

use vstd::prelude::*;
use crate::ast::{Arg, ArrayElem, Expr, ObjProp};
use crate::mapper::{follows, keeps, lbl, MapError, Mapper};
use crate::mapper_spec::{
    rl_arg, rl_args, rl_array_elem, rl_array_elems, rl_expr, rl_exprs, rl_obj_prop,
    rl_obj_props,
};
use crate::spec_ast::{
    lemma_v_args_index, lemma_v_array_elems_index, lemma_v_exprs_index, lemma_v_obj_props_index,
    v_arg, v_args, v_array_elem, v_array_elems, v_expr, v_exprs, v_obj_prop, v_obj_props, SArg,
    SArrayElem, SExpr, SObjProp,
};

verus! {

impl Mapper {
    /// Maps a list of expressions in order.
    #[verifier::spinoff_prover]
    pub(crate) fn map_exprs(&mut self, b: Vec<Expr>, fuel: u64) -> (r: Result<Vec<Expr>, MapError>)
        ensures
            keeps(*old(self), *final(self)),
            follows(*old(self), *final(self), crate::mapper_spec::rl_exprs(crate::spec_ast::v_exprs(b@), 0, lbl(*old(self))), r is Ok, crate::spec_ast::v_exprs(r->Ok_0@), r matches Err(MapError::Unsupported)),
            crate::sugar::desugaring(*old(self)) && r is Ok ==> crate::sugar::exprs_free_from(crate::spec_ast::v_exprs(r->Ok_0@), 0),
            crate::sugar::desugaring(*old(self)) ==> crate::desugar_model::tracks(crate::desugar_model::ds_exprs(crate::spec_ast::v_exprs(b@), 0, crate::desugar_model::dstate(old(self).state), fuel), r is Ok, crate::spec_ast::v_exprs(r->Ok_0@), r->Err_0, crate::desugar_model::dstate(final(self).state)),
        decreases fuel, crate::mapper_size::sz_exprs(crate::spec_ast::v_exprs(b@), 0), 2nat,
    {
        let ghost vb = crate::spec_ast::v_exprs(b@);
        proof {
            crate::spec_ast::lemma_v_exprs_index(b@);
            assert(vb.subrange(0, vb.len() as int) =~= vb);
        }
        self.map_exprs_from(b, Ghost(vb), Ghost(0int), fuel)
    }

    /// Maps the elements of `vb` from index `i` on, which `rest` holds.
    #[verifier::spinoff_prover]
    fn map_exprs_from(&mut self, rest: Vec<Expr>, vb: Ghost<Seq<crate::spec_ast::SExpr>>, i: Ghost<int>, fuel: u64) -> (r: Result<Vec<Expr>, MapError>)
        requires
            0 <= i@ <= vb@.len(),
            crate::spec_ast::v_exprs(rest@) == vb@.subrange(i@, vb@.len() as int),
        ensures
            keeps(*old(self), *final(self)),
            follows(*old(self), *final(self), crate::mapper_spec::rl_exprs(vb@, i@, lbl(*old(self))), r is Ok, crate::spec_ast::v_exprs(r->Ok_0@), r matches Err(MapError::Unsupported)),
            crate::sugar::desugaring(*old(self)) && r is Ok ==> crate::sugar::exprs_free_from(crate::spec_ast::v_exprs(r->Ok_0@), 0),
            crate::sugar::desugaring(*old(self)) ==> crate::desugar_model::tracks(crate::desugar_model::ds_exprs(vb@, i@, crate::desugar_model::dstate(old(self).state), fuel), r is Ok, crate::spec_ast::v_exprs(r->Ok_0@), r->Err_0, crate::desugar_model::dstate(final(self).state)),
        decreases fuel, crate::mapper_size::sz_exprs(vb@, i@), 1nat,
    {
        let ghost l = lbl(*self);
        let ghost all = rest@;
        proof {
            crate::spec_ast::lemma_v_exprs_index(all);
        }
        if rest.len() == 0 {
            proof {
                assert(i@ == vb@.len());
                assert(crate::spec_ast::v_exprs(rest@) =~= vb@.subrange(i@, vb@.len() as int));
            }
            return Ok(rest);
        }
        let mut rest = rest;
        let x = rest.remove(0);
        let ghost a = crate::mapper_spec::rl_expr(vb@[i@], l);
        let ghost rr = crate::mapper_spec::rl_exprs(vb@, i@ + 1, l);
        proof {
            crate::spec_ast::lemma_v_exprs_index(rest@);
            assert(x == all[0]);
            assert(vb@[i@] == crate::spec_ast::v_exprs(all)[0]);
            assert(vb@[i@] == crate::spec_ast::v_expr(x));
            assert(rest@ =~= all.subrange(1, all.len() as int));
            assert forall|k: int| 0 <= k < rest@.len() implies #[trigger] crate::spec_ast::v_exprs(rest@)[k] == vb@[i@ + 1 + k] by {
                assert(rest@[k] == all[k + 1]);
                assert(vb@.subrange(i@, vb@.len() as int)[k + 1] == crate::spec_ast::v_exprs(all)[k + 1]);
            }
            assert(crate::spec_ast::v_exprs(rest@) =~= vb@.subrange(i@ + 1, vb@.len() as int));
            assert(crate::mapper_spec::rl_exprs(vb@, i@, l) == (seq![a.0] + rr.0, a.1 || rr.1, a.2 && rr.2));
        }
        let y = match self.map_expression(x, fuel) { Ok(v) => v, Err(e) => { return Err(e); } };
        let mut tail = match self.map_exprs_from(rest, vb, Ghost(i@ + 1), fuel) { Ok(v) => v, Err(e) => { return Err(e); } };
        let ghost t0 = tail@;
        tail.insert(0, y);
        proof {
            crate::spec_ast::lemma_v_exprs_index(t0);
            crate::spec_ast::lemma_v_exprs_index(tail@);
            assert(crate::spec_ast::v_exprs(tail@) =~= seq![crate::spec_ast::v_expr(y)] + crate::spec_ast::v_exprs(t0));
            if crate::sugar::desugaring(*old(self)) {
                let vt = crate::spec_ast::v_exprs(tail@);
                let v0 = crate::spec_ast::v_exprs(t0);
                crate::sugar::lemma_exprs_free_from(v0, 0);
                assert forall|k: int| 0 <= k < vt.len() implies #[trigger] crate::sugar::expr_free(vt[k]) by {
                    if k > 0 {
                        assert(vt[k] == v0[k - 1]);
                    }
                }
                crate::sugar::lemma_exprs_free_from(vt, 0);
            }
        }
        Ok(tail)
    }

    /// Maps call arguments in order.
    #[verifier::spinoff_prover]
    pub(crate) fn map_args(&mut self, b: Vec<Arg>, fuel: u64) -> (r: Result<Vec<Arg>, MapError>)
        ensures
            keeps(*old(self), *final(self)),
            follows(*old(self), *final(self), crate::mapper_spec::rl_args(crate::spec_ast::v_args(b@), 0, lbl(*old(self))), r is Ok, crate::spec_ast::v_args(r->Ok_0@), r matches Err(MapError::Unsupported)),
            crate::sugar::desugaring(*old(self)) && r is Ok ==> crate::sugar::args_free_from(crate::spec_ast::v_args(r->Ok_0@), 0),
            crate::sugar::desugaring(*old(self)) ==> crate::desugar_model::tracks(crate::desugar_model::ds_args(crate::spec_ast::v_args(b@), 0, crate::desugar_model::dstate(old(self).state), fuel), r is Ok, crate::spec_ast::v_args(r->Ok_0@), r->Err_0, crate::desugar_model::dstate(final(self).state)),
        decreases fuel, crate::mapper_size::sz_args(crate::spec_ast::v_args(b@), 0), 2nat,
    {
        let ghost vb = crate::spec_ast::v_args(b@);
        proof {
            crate::spec_ast::lemma_v_args_index(b@);
            assert(vb.subrange(0, vb.len() as int) =~= vb);
        }
        self.map_args_from(b, Ghost(vb), Ghost(0int), fuel)
    }

    /// Maps the elements of `vb` from index `i` on, which `rest` holds.
    #[verifier::spinoff_prover]
    fn map_args_from(&mut self, rest: Vec<Arg>, vb: Ghost<Seq<crate::spec_ast::SArg>>, i: Ghost<int>, fuel: u64) -> (r: Result<Vec<Arg>, MapError>)
        requires
            0 <= i@ <= vb@.len(),
            crate::spec_ast::v_args(rest@) == vb@.subrange(i@, vb@.len() as int),
        ensures
            keeps(*old(self), *final(self)),
            follows(*old(self), *final(self), crate::mapper_spec::rl_args(vb@, i@, lbl(*old(self))), r is Ok, crate::spec_ast::v_args(r->Ok_0@), r matches Err(MapError::Unsupported)),
            crate::sugar::desugaring(*old(self)) && r is Ok ==> crate::sugar::args_free_from(crate::spec_ast::v_args(r->Ok_0@), 0),
            crate::sugar::desugaring(*old(self)) ==> crate::desugar_model::tracks(crate::desugar_model::ds_args(vb@, i@, crate::desugar_model::dstate(old(self).state), fuel), r is Ok, crate::spec_ast::v_args(r->Ok_0@), r->Err_0, crate::desugar_model::dstate(final(self).state)),
        decreases fuel, crate::mapper_size::sz_args(vb@, i@), 1nat,
    {
        let ghost l = lbl(*self);
        let ghost all = rest@;
        proof {
            crate::spec_ast::lemma_v_args_index(all);
        }
        if rest.len() == 0 {
            proof {
                assert(i@ == vb@.len());
                assert(crate::spec_ast::v_args(rest@) =~= vb@.subrange(i@, vb@.len() as int));
            }
            return Ok(rest);
        }
        let mut rest = rest;
        let x = rest.remove(0);
        let ghost a = crate::mapper_spec::rl_arg(vb@[i@], l);
        let ghost rr = crate::mapper_spec::rl_args(vb@, i@ + 1, l);
        proof {
            crate::spec_ast::lemma_v_args_index(rest@);
            assert(x == all[0]);
            assert(vb@[i@] == crate::spec_ast::v_args(all)[0]);
            assert(vb@[i@] == crate::spec_ast::v_arg(x));
            assert(rest@ =~= all.subrange(1, all.len() as int));
            assert forall|k: int| 0 <= k < rest@.len() implies #[trigger] crate::spec_ast::v_args(rest@)[k] == vb@[i@ + 1 + k] by {
                assert(rest@[k] == all[k + 1]);
                assert(vb@.subrange(i@, vb@.len() as int)[k + 1] == crate::spec_ast::v_args(all)[k + 1]);
            }
            assert(crate::spec_ast::v_args(rest@) =~= vb@.subrange(i@ + 1, vb@.len() as int));
            assert(crate::mapper_spec::rl_args(vb@, i@, l) == (seq![a.0] + rr.0, a.1 || rr.1, a.2 && rr.2));
        }
        let y = match self.map_arg(x, fuel) { Ok(v) => v, Err(e) => { return Err(e); } };
        let mut tail = match self.map_args_from(rest, vb, Ghost(i@ + 1), fuel) { Ok(v) => v, Err(e) => { return Err(e); } };
        let ghost t0 = tail@;
        tail.insert(0, y);
        proof {
            crate::spec_ast::lemma_v_args_index(t0);
            crate::spec_ast::lemma_v_args_index(tail@);
            assert(crate::spec_ast::v_args(tail@) =~= seq![crate::spec_ast::v_arg(y)] + crate::spec_ast::v_args(t0));
            if crate::sugar::desugaring(*old(self)) {
                let vt = crate::spec_ast::v_args(tail@);
                let v0 = crate::spec_ast::v_args(t0);
                crate::sugar::lemma_args_free_from(v0, 0);
                assert forall|k: int| 0 <= k < vt.len() implies #[trigger] crate::sugar::arg_free(vt[k]) by {
                    if k > 0 {
                        assert(vt[k] == v0[k - 1]);
                    }
                }
                crate::sugar::lemma_args_free_from(vt, 0);
            }
        }
        Ok(tail)
    }

    /// Maps array elements in order.
    #[verifier::spinoff_prover]
    pub(crate) fn map_array_elems(&mut self, b: Vec<ArrayElem>, fuel: u64) -> (r: Result<Vec<ArrayElem>, MapError>)
        ensures
            keeps(*old(self), *final(self)),
            follows(*old(self), *final(self), crate::mapper_spec::rl_array_elems(crate::spec_ast::v_array_elems(b@), 0, lbl(*old(self))), r is Ok, crate::spec_ast::v_array_elems(r->Ok_0@), r matches Err(MapError::Unsupported)),
            crate::sugar::desugaring(*old(self)) && r is Ok ==> crate::sugar::array_elems_free_from(crate::spec_ast::v_array_elems(r->Ok_0@), 0),
            crate::sugar::desugaring(*old(self)) ==> crate::desugar_model::tracks(crate::desugar_model::ds_array_elems(crate::spec_ast::v_array_elems(b@), 0, crate::desugar_model::dstate(old(self).state), fuel), r is Ok, crate::spec_ast::v_array_elems(r->Ok_0@), r->Err_0, crate::desugar_model::dstate(final(self).state)),
        decreases fuel, crate::mapper_size::sz_array_elems(crate::spec_ast::v_array_elems(b@), 0), 2nat,
    {
        let ghost vb = crate::spec_ast::v_array_elems(b@);
        proof {
            crate::spec_ast::lemma_v_array_elems_index(b@);
            assert(vb.subrange(0, vb.len() as int) =~= vb);
        }
        self.map_array_elems_from(b, Ghost(vb), Ghost(0int), fuel)
    }

    /// Maps the elements of `vb` from index `i` on, which `rest` holds.
    #[verifier::spinoff_prover]
    fn map_array_elems_from(&mut self, rest: Vec<ArrayElem>, vb: Ghost<Seq<crate::spec_ast::SArrayElem>>, i: Ghost<int>, fuel: u64) -> (r: Result<Vec<ArrayElem>, MapError>)
        requires
            0 <= i@ <= vb@.len(),
            crate::spec_ast::v_array_elems(rest@) == vb@.subrange(i@, vb@.len() as int),
        ensures
            keeps(*old(self), *final(self)),
            follows(*old(self), *final(self), crate::mapper_spec::rl_array_elems(vb@, i@, lbl(*old(self))), r is Ok, crate::spec_ast::v_array_elems(r->Ok_0@), r matches Err(MapError::Unsupported)),
            crate::sugar::desugaring(*old(self)) && r is Ok ==> crate::sugar::array_elems_free_from(crate::spec_ast::v_array_elems(r->Ok_0@), 0),
            crate::sugar::desugaring(*old(self)) ==> crate::desugar_model::tracks(crate::desugar_model::ds_array_elems(vb@, i@, crate::desugar_model::dstate(old(self).state), fuel), r is Ok, crate::spec_ast::v_array_elems(r->Ok_0@), r->Err_0, crate::desugar_model::dstate(final(self).state)),
        decreases fuel, crate::mapper_size::sz_array_elems(vb@, i@), 1nat,
    {
        let ghost l = lbl(*self);
        let ghost all = rest@;
        proof {
            crate::spec_ast::lemma_v_array_elems_index(all);
        }
        if rest.len() == 0 {
            proof {
                assert(i@ == vb@.len());
                assert(crate::spec_ast::v_array_elems(rest@) =~= vb@.subrange(i@, vb@.len() as int));
            }
            return Ok(rest);
        }
        let mut rest = rest;
        let x = rest.remove(0);
        let ghost a = crate::mapper_spec::rl_array_elem(vb@[i@], l);
        let ghost rr = crate::mapper_spec::rl_array_elems(vb@, i@ + 1, l);
        proof {
            crate::spec_ast::lemma_v_array_elems_index(rest@);
            assert(x == all[0]);
            assert(vb@[i@] == crate::spec_ast::v_array_elems(all)[0]);
            assert(vb@[i@] == crate::spec_ast::v_array_elem(x));
            assert(rest@ =~= all.subrange(1, all.len() as int));
            assert forall|k: int| 0 <= k < rest@.len() implies #[trigger] crate::spec_ast::v_array_elems(rest@)[k] == vb@[i@ + 1 + k] by {
                assert(rest@[k] == all[k + 1]);
                assert(vb@.subrange(i@, vb@.len() as int)[k + 1] == crate::spec_ast::v_array_elems(all)[k + 1]);
            }
            assert(crate::spec_ast::v_array_elems(rest@) =~= vb@.subrange(i@ + 1, vb@.len() as int));
            assert(crate::mapper_spec::rl_array_elems(vb@, i@, l) == (seq![a.0] + rr.0, a.1 || rr.1, a.2 && rr.2));
        }
        let y = match self.map_array_elem(x, fuel) { Ok(v) => v, Err(e) => { return Err(e); } };
        let mut tail = match self.map_array_elems_from(rest, vb, Ghost(i@ + 1), fuel) { Ok(v) => v, Err(e) => { return Err(e); } };
        let ghost t0 = tail@;
        tail.insert(0, y);
        proof {
            crate::spec_ast::lemma_v_array_elems_index(t0);
            crate::spec_ast::lemma_v_array_elems_index(tail@);
            assert(crate::spec_ast::v_array_elems(tail@) =~= seq![crate::spec_ast::v_array_elem(y)] + crate::spec_ast::v_array_elems(t0));
            if crate::sugar::desugaring(*old(self)) {
                let vt = crate::spec_ast::v_array_elems(tail@);
                let v0 = crate::spec_ast::v_array_elems(t0);
                crate::sugar::lemma_array_elems_free_from(v0, 0);
                assert forall|k: int| 0 <= k < vt.len() implies #[trigger] crate::sugar::array_elem_free(vt[k]) by {
                    if k > 0 {
                        assert(vt[k] == v0[k - 1]);
                    }
                }
                crate::sugar::lemma_array_elems_free_from(vt, 0);
            }
        }
        Ok(tail)
    }

    /// Maps object properties in order.
    #[verifier::spinoff_prover]
    pub(crate) fn map_obj_props(&mut self, b: Vec<ObjProp>, fuel: u64) -> (r: Result<Vec<ObjProp>, MapError>)
        ensures
            keeps(*old(self), *final(self)),
            follows(*old(self), *final(self), crate::mapper_spec::rl_obj_props(crate::spec_ast::v_obj_props(b@), 0, lbl(*old(self))), r is Ok, crate::spec_ast::v_obj_props(r->Ok_0@), r matches Err(MapError::Unsupported)),
            crate::sugar::desugaring(*old(self)) && r is Ok ==> crate::sugar::obj_props_free_from(crate::spec_ast::v_obj_props(r->Ok_0@), 0),
            crate::sugar::desugaring(*old(self)) ==> crate::desugar_model::tracks(crate::desugar_model::ds_obj_props(crate::spec_ast::v_obj_props(b@), 0, crate::desugar_model::dstate(old(self).state), fuel), r is Ok, crate::spec_ast::v_obj_props(r->Ok_0@), r->Err_0, crate::desugar_model::dstate(final(self).state)),
        decreases fuel, crate::mapper_size::sz_obj_props(crate::spec_ast::v_obj_props(b@), 0), 2nat,
    {
        let ghost vb = crate::spec_ast::v_obj_props(b@);
        proof {
            crate::spec_ast::lemma_v_obj_props_index(b@);
            assert(vb.subrange(0, vb.len() as int) =~= vb);
        }
        self.map_obj_props_from(b, Ghost(vb), Ghost(0int), fuel)
    }

    /// Maps the elements of `vb` from index `i` on, which `rest` holds.
    #[verifier::spinoff_prover]
    fn map_obj_props_from(&mut self, rest: Vec<ObjProp>, vb: Ghost<Seq<crate::spec_ast::SObjProp>>, i: Ghost<int>, fuel: u64) -> (r: Result<Vec<ObjProp>, MapError>)
        requires
            0 <= i@ <= vb@.len(),
            crate::spec_ast::v_obj_props(rest@) == vb@.subrange(i@, vb@.len() as int),
        ensures
            keeps(*old(self), *final(self)),
            follows(*old(self), *final(self), crate::mapper_spec::rl_obj_props(vb@, i@, lbl(*old(self))), r is Ok, crate::spec_ast::v_obj_props(r->Ok_0@), r matches Err(MapError::Unsupported)),
            crate::sugar::desugaring(*old(self)) && r is Ok ==> crate::sugar::obj_props_free_from(crate::spec_ast::v_obj_props(r->Ok_0@), 0),
            crate::sugar::desugaring(*old(self)) ==> crate::desugar_model::tracks(crate::desugar_model::ds_obj_props(vb@, i@, crate::desugar_model::dstate(old(self).state), fuel), r is Ok, crate::spec_ast::v_obj_props(r->Ok_0@), r->Err_0, crate::desugar_model::dstate(final(self).state)),
        decreases fuel, crate::mapper_size::sz_obj_props(vb@, i@), 1nat,
    {
        let ghost l = lbl(*self);
        let ghost all = rest@;
        proof {
            crate::spec_ast::lemma_v_obj_props_index(all);
        }
        if rest.len() == 0 {
            proof {
                assert(i@ == vb@.len());
                assert(crate::spec_ast::v_obj_props(rest@) =~= vb@.subrange(i@, vb@.len() as int));
            }
            return Ok(rest);
        }
        let mut rest = rest;
        let x = rest.remove(0);
        let ghost a = crate::mapper_spec::rl_obj_prop(vb@[i@], l);
        let ghost rr = crate::mapper_spec::rl_obj_props(vb@, i@ + 1, l);
        proof {
            crate::spec_ast::lemma_v_obj_props_index(rest@);
            assert(x == all[0]);
            assert(vb@[i@] == crate::spec_ast::v_obj_props(all)[0]);
            assert(vb@[i@] == crate::spec_ast::v_obj_prop(x));
            assert(rest@ =~= all.subrange(1, all.len() as int));
            assert forall|k: int| 0 <= k < rest@.len() implies #[trigger] crate::spec_ast::v_obj_props(rest@)[k] == vb@[i@ + 1 + k] by {
                assert(rest@[k] == all[k + 1]);
                assert(vb@.subrange(i@, vb@.len() as int)[k + 1] == crate::spec_ast::v_obj_props(all)[k + 1]);
            }
            assert(crate::spec_ast::v_obj_props(rest@) =~= vb@.subrange(i@ + 1, vb@.len() as int));
            assert(crate::mapper_spec::rl_obj_props(vb@, i@, l) == (seq![a.0] + rr.0, a.1 || rr.1, a.2 && rr.2));
        }
        let y = match self.map_obj_prop(x, fuel) { Ok(v) => v, Err(e) => { return Err(e); } };
        let mut tail = match self.map_obj_props_from(rest, vb, Ghost(i@ + 1), fuel) { Ok(v) => v, Err(e) => { return Err(e); } };
        let ghost t0 = tail@;
        tail.insert(0, y);
        proof {
            crate::spec_ast::lemma_v_obj_props_index(t0);
            crate::spec_ast::lemma_v_obj_props_index(tail@);
            assert(crate::spec_ast::v_obj_props(tail@) =~= seq![crate::spec_ast::v_obj_prop(y)] + crate::spec_ast::v_obj_props(t0));
            if crate::sugar::desugaring(*old(self)) {
                let vt = crate::spec_ast::v_obj_props(tail@);
                let v0 = crate::spec_ast::v_obj_props(t0);
                crate::sugar::lemma_obj_props_free_from(v0, 0);
                assert forall|k: int| 0 <= k < vt.len() implies #[trigger] crate::sugar::obj_prop_free(vt[k]) by {
                    if k > 0 {
                        assert(vt[k] == v0[k - 1]);
                    }
                }
                crate::sugar::lemma_obj_props_free_from(vt, 0);
            }
        }
        Ok(tail)
    }

}

} // verus!
