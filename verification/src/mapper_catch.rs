//! The mapper on a `catch` clause.

use vstd::prelude::*;
use crate::ast::CatchClause;
use crate::mapper::{follows, keeps, lbl, MapError, Mapper};
use crate::mapper_spec::{rl_catch, rl_stmts};
use crate::spec_ast::{v_catch, v_stmts};

use crate::sugar::{catch_sugar_free, desugaring};

verus! {

impl Mapper {
    /// Maps a catch clause: its body, then its parameter.
    #[verifier::spinoff_prover]
    pub(crate) fn map_catch(&mut self, h: Option<CatchClause>, fuel: u64) -> (r: Result<Option<CatchClause>, MapError>)
        ensures
            keeps(*old(self), *final(self)),
            follows(*old(self), *final(self), rl_catch(v_catch(h), lbl(*old(self))), r is Ok, v_catch(r->Ok_0), r matches Err(MapError::Unsupported)),
            desugaring(*old(self)) && r is Ok ==> catch_sugar_free(v_catch(r->Ok_0)),
            crate::sugar::desugaring(*old(self)) ==> crate::desugar_model::tracks(crate::desugar_model::ds_catch(v_catch(h), crate::desugar_model::dstate(old(self).state), fuel), r is Ok, v_catch(r->Ok_0), r->Err_0, crate::desugar_model::dstate(final(self).state)),
        decreases fuel, crate::mapper_size::sz_catch(v_catch(h)), 3nat,
    {
        let ghost hv = v_catch(h);
        let ghost l = lbl(*self);
        match h {
            Some(c) => {
                let CatchClause { param, body } = c;
                let ghost rb = rl_stmts(v_stmts(body@), 0, l);
                let ghost rp = crate::mapper_spec::rl_opt_pattern(crate::spec_ast::v_opt_pattern(param), l);
                proof {
                    assert(hv == Some(crate::spec_ast::SCatchClause { param: crate::spec_ast::v_opt_pattern(param), body: v_stmts(body@) }));
                    assert(rl_catch(hv, l) == (Some(crate::spec_ast::SCatchClause { param: rp.0, body: rb.0 }), rb.1 || rp.1, rb.2 && rp.2));
                }
                let nb = match self.map_stmts(body, fuel) { Ok(v) => v, Err(e) => { return Err(e); } };
                let np = match self.map_opt_pattern(param, fuel) { Ok(v) => v, Err(e) => { return Err(e); } };
                let res = CatchClause { param: np, body: nb };
                proof {
                    assert(v_catch(Some(res)) == Some(crate::spec_ast::SCatchClause { param: crate::spec_ast::v_opt_pattern(np), body: v_stmts(nb@) }));
                }
                Ok(Some(res))
            },
            None => Ok(None),
        }
    }
}

} // verus!
