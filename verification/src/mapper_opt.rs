//! The mapper on optional statement lists.

use vstd::prelude::*;
use crate::ast::Stmt;
use crate::mapper::{follows, keeps, lbl, MapError, Mapper};
use crate::mapper_spec::rl_opt_stmts;
use crate::spec_ast::v_opt_stmts;

verus! {

impl Mapper {
    /// Maps an optional list of statements.
    #[verifier::spinoff_prover]
    pub(crate) fn map_opt_stmts(&mut self, b: Option<Vec<Stmt>>, fuel: u64) -> (r: Result<Option<Vec<Stmt>>, MapError>)
        ensures
            keeps(*old(self), *final(self)),
            follows(*old(self), *final(self), rl_opt_stmts(v_opt_stmts(b), lbl(*old(self))), r is Ok, v_opt_stmts(r->Ok_0), r matches Err(MapError::Unsupported)),
            crate::sugar::desugaring(*old(self)) ==> crate::desugar_model::tracks(crate::desugar_model::ds_opt_stmts(v_opt_stmts(b), crate::desugar_model::dstate(old(self).state), fuel), r is Ok, v_opt_stmts(r->Ok_0), r->Err_0, crate::desugar_model::dstate(final(self).state)),
        decreases fuel, crate::mapper_size::sz_opt_stmts(v_opt_stmts(b)), 3nat,
    {
        match b {
            Some(x) => {
                let nx = match self.map_stmts(x, fuel) { Ok(v) => v, Err(e) => { return Err(e); } };
                Ok(Some(nx))
            },
            None => Ok(None),
        }
    }


}

} // verus!
