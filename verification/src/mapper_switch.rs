//! The mapper on the parts of a `switch`.

use vstd::prelude::*;
use crate::ast::{Expr, SwitchCase};
use crate::mapper::{follows, keeps, lbl, MapError, Mapper};
use crate::mapper_spec::rl_cases;
use crate::spec_ast::{v_cases, SStmt};

verus! {

impl Mapper {
    /// Maps a switch: the discriminant, then each case's test and
    /// statements.
    #[verifier::spinoff_prover]
    pub fn map_switch_statement(&mut self, discriminant: Expr, cases: Vec<SwitchCase>, fuel: u64) -> (r: Result<(Expr, Vec<SwitchCase>), MapError>)
        ensures
            keeps(*old(self), *final(self)),
            follows(
                *old(self),
                *final(self),
                crate::mapper_spec::rl_switch(SStmt::Switch(discriminant@, v_cases(cases@)), lbl(*old(self))),
                r is Ok,
                SStmt::Switch(r->Ok_0.0@, v_cases(r->Ok_0.1@)),
                r matches Err(MapError::Unsupported),
            ),
            crate::sugar::desugaring(*old(self)) ==> crate::desugar_model::tracks(crate::desugar_model::ds_children(SStmt::Switch(discriminant@, v_cases(cases@)), crate::desugar_model::dstate(old(self).state), fuel), r is Ok, SStmt::Switch(r->Ok_0.0@, v_cases(r->Ok_0.1@)), r->Err_0, crate::desugar_model::dstate(final(self).state)),
        decreases fuel, crate::mapper_size::sz_stmt(SStmt::Switch(discriminant@, v_cases(cases@))), 2nat,
    {
        proof {
            reveal(crate::desugar_model::ds_children);
        }
        let ghost l = lbl(*self);
        let ghost rd = crate::mapper_spec::rl_expr(discriminant@, l);
        let ghost rc = rl_cases(v_cases(cases@), 0, l);
        proof {
            assert(crate::mapper_spec::rl_switch(SStmt::Switch(discriminant@, v_cases(cases@)), l)
                == (SStmt::Switch(rd.0, rc.0), rd.1 || rc.1, rd.2 && rc.2));
        }
        let nd = match self.map_expression(discriminant, fuel) { Ok(v) => v, Err(e) => { return Err(e); } };
        let ncs = match self.map_cases(cases, fuel) { Ok(v) => v, Err(e) => { return Err(e); } };
        Ok((nd, ncs))
    }
}

} // verus!
