//! The mapper on the children of loops, `if`, `switch` and `try`.

use vstd::prelude::*;
use crate::ast::Stmt;
use crate::mapper::{follows, keeps, lbl, MapError, Mapper};
use crate::spec_ast::{v_cases, v_for_left, SStmt};

use crate::sugar::{desugaring, sugar_free_below};

verus! {

impl Mapper {
    /// Maps the children of a `for-in`.
    #[verifier::rlimit(60)]
    #[verifier::spinoff_prover]
    pub(crate) fn map_for_in(&mut self, stmt: Stmt, fuel: u64) -> (r: Result<Stmt, MapError>)
        requires
            stmt@ is ForIn,
        ensures
            keeps(*old(self), *final(self)),
            follows(*old(self), *final(self), crate::mapper_spec::rl_for_in(stmt@, lbl(*old(self))), r is Ok, r->Ok_0@, r matches Err(MapError::Unsupported)),
            desugaring(*old(self)) && r is Ok ==> sugar_free_below(r->Ok_0@),
            crate::sugar::desugaring(*old(self)) ==> crate::desugar_model::tracks(crate::desugar_model::ds_children(stmt@, crate::desugar_model::dstate(old(self).state), fuel), r is Ok, r->Ok_0@, r->Err_0, crate::desugar_model::dstate(final(self).state)),
        decreases fuel, crate::mapper_size::sz_stmt(stmt@), 3nat,
    {
        proof {
            reveal(crate::desugar_model::ds_children);
        }
        let f = fuel;
        let ghost sv = stmt@;
        match stmt {
            Stmt::ForIn(l, rt, b) => {
                let nl = match self.map_for_left(l, f) { Ok(v) => v, Err(e) => { return Err(e); } };
                let nr = match self.map_expression(rt, f) { Ok(v) => v, Err(e) => { return Err(e); } };
                let nb = match self.map_statement(*b, f) { Ok(v) => v, Err(e) => { return Err(e); } };
                Ok(Stmt::ForIn(nl, nr, Box::new(nb)))
            },
            other => Ok(other),
        }
    }

    /// Maps the children of a `for-of`.
    #[verifier::rlimit(100)]
    #[verifier::spinoff_prover]
    pub(crate) fn map_for_of(&mut self, stmt: Stmt, fuel: u64) -> (r: Result<Stmt, MapError>)
        requires
            stmt@ is ForOf,
        ensures
            keeps(*old(self), *final(self)),
            follows(*old(self), *final(self), crate::mapper_spec::rl_for_of(stmt@, lbl(*old(self))), r is Ok, r->Ok_0@, r matches Err(MapError::Unsupported)),
            desugaring(*old(self)) && r is Ok ==> sugar_free_below(r->Ok_0@),
            crate::sugar::desugaring(*old(self)) ==> crate::desugar_model::tracks(crate::desugar_model::ds_children(stmt@, crate::desugar_model::dstate(old(self).state), fuel), r is Ok, r->Ok_0@, r->Err_0, crate::desugar_model::dstate(final(self).state)),
        decreases fuel, crate::mapper_size::sz_stmt(stmt@), 3nat,
    {
        proof {
            reveal(crate::desugar_model::ds_children);
        }
        let f = fuel;
        let ghost sv = stmt@;
        match stmt {
            Stmt::ForOf(l, rt, b, aw) => {
                proof {
                    assert(sv == SStmt::ForOf(v_for_left(l), rt@, Box::new(b@), aw));
                }
                let nl = match self.map_for_left(l, f) { Ok(v) => v, Err(e) => { return Err(e); } };
                let nr = match self.map_expression(rt, f) { Ok(v) => v, Err(e) => { return Err(e); } };
                let nb = match self.map_statement(*b, f) { Ok(v) => v, Err(e) => { return Err(e); } };
                let res = Stmt::ForOf(nl, nr, Box::new(nb), aw);
                proof {
                    assert(res@ == SStmt::ForOf(v_for_left(nl), nr@, Box::new(nb@), aw));
                }
                Ok(res)
            },
            other => Ok(other),
        }
    }

    /// Maps the children of a `for`.
    #[verifier::rlimit(60)]
    #[verifier::spinoff_prover]
    pub(crate) fn map_for(&mut self, stmt: Stmt, fuel: u64) -> (r: Result<Stmt, MapError>)
        requires
            stmt@ is For,
        ensures
            keeps(*old(self), *final(self)),
            follows(*old(self), *final(self), crate::mapper_spec::rl_for(stmt@, lbl(*old(self))), r is Ok, r->Ok_0@, r matches Err(MapError::Unsupported)),
            desugaring(*old(self)) && r is Ok ==> sugar_free_below(r->Ok_0@),
            crate::sugar::desugaring(*old(self)) ==> crate::desugar_model::tracks(crate::desugar_model::ds_children(stmt@, crate::desugar_model::dstate(old(self).state), fuel), r is Ok, r->Ok_0@, r->Err_0, crate::desugar_model::dstate(final(self).state)),
        decreases fuel, crate::mapper_size::sz_stmt(stmt@), 3nat,
    {
        proof {
            reveal(crate::desugar_model::ds_children);
        }
        let f = fuel;
        let ghost sv = stmt@;
        match stmt {
            Stmt::For(i, t, u, b) => {
                let ni = match self.map_for_init(i, f) { Ok(v) => v, Err(e) => { return Err(e); } };
                let nt = match self.map_opt_expr(t, f) { Ok(v) => v, Err(e) => { return Err(e); } };
                let nu = match self.map_opt_expr(u, f) { Ok(v) => v, Err(e) => { return Err(e); } };
                let nb = match self.map_statement(*b, f) { Ok(v) => v, Err(e) => { return Err(e); } };
                Ok(Stmt::For(ni, nt, nu, Box::new(nb)))
            },
            other => Ok(other),
        }
    }

    /// Maps the children of an `if`.
    #[verifier::rlimit(60)]
    #[verifier::spinoff_prover]
    pub(crate) fn map_if(&mut self, stmt: Stmt, fuel: u64) -> (r: Result<Stmt, MapError>)
        requires
            stmt@ is If,
        ensures
            keeps(*old(self), *final(self)),
            follows(*old(self), *final(self), crate::mapper_spec::rl_if(stmt@, lbl(*old(self))), r is Ok, r->Ok_0@, r matches Err(MapError::Unsupported)),
            desugaring(*old(self)) && r is Ok ==> sugar_free_below(r->Ok_0@),
            crate::sugar::desugaring(*old(self)) ==> crate::desugar_model::tracks(crate::desugar_model::ds_children(stmt@, crate::desugar_model::dstate(old(self).state), fuel), r is Ok, r->Ok_0@, r->Err_0, crate::desugar_model::dstate(final(self).state)),
        decreases fuel, crate::mapper_size::sz_stmt(stmt@), 3nat,
    {
        proof {
            reveal(crate::desugar_model::ds_children);
        }
        let f = fuel;
        let ghost sv = stmt@;
        match stmt {
            Stmt::If(t, c, a) => {
                let nt = match self.map_expression(t, f) { Ok(v) => v, Err(e) => { return Err(e); } };
                let nc = match self.map_statement(*c, f) { Ok(v) => v, Err(e) => { return Err(e); } };
                let na = match self.map_opt_stmt(a, f) { Ok(v) => v, Err(e) => { return Err(e); } };
                Ok(Stmt::If(nt, Box::new(nc), na))
            },
            other => Ok(other),
        }
    }

    /// Maps the children of a `switch`.
    #[verifier::rlimit(60)]
    #[verifier::spinoff_prover]
    pub(crate) fn map_switch(&mut self, stmt: Stmt, fuel: u64) -> (r: Result<Stmt, MapError>)
        requires
            stmt@ is Switch,
        ensures
            keeps(*old(self), *final(self)),
            follows(*old(self), *final(self), crate::mapper_spec::rl_switch(stmt@, lbl(*old(self))), r is Ok, r->Ok_0@, r matches Err(MapError::Unsupported)),
            desugaring(*old(self)) && r is Ok ==> sugar_free_below(r->Ok_0@),
            crate::sugar::desugaring(*old(self)) ==> crate::desugar_model::tracks(crate::desugar_model::ds_children(stmt@, crate::desugar_model::dstate(old(self).state), fuel), r is Ok, r->Ok_0@, r->Err_0, crate::desugar_model::dstate(final(self).state)),
        decreases fuel, crate::mapper_size::sz_stmt(stmt@), 3nat,
    {
        proof {
            reveal(crate::desugar_model::ds_children);
        }
        let f = fuel;
        let ghost sv = stmt@;
        match stmt {
            Stmt::Switch(d, cs) => {
                proof {
                    assert(sv == SStmt::Switch(d@, v_cases(cs@)));
                }
                let (nd, ncs) = match self.map_switch_statement(d, cs, f) { Ok(v) => v, Err(e) => { return Err(e); } };
                let res = Stmt::Switch(nd, ncs);
                proof {
                    assert(res@ == SStmt::Switch(nd@, v_cases(ncs@)));
                }
                Ok(res)
            },
            other => Ok(other),
        }
    }

    /// Maps the children of a `try`.
    #[verifier::rlimit(60)]
    #[verifier::spinoff_prover]
    pub(crate) fn map_try(&mut self, stmt: Stmt, fuel: u64) -> (r: Result<Stmt, MapError>)
        requires
            stmt@ is Try,
        ensures
            keeps(*old(self), *final(self)),
            follows(*old(self), *final(self), crate::mapper_spec::rl_try(stmt@, lbl(*old(self))), r is Ok, r->Ok_0@, r matches Err(MapError::Unsupported)),
            desugaring(*old(self)) && r is Ok ==> sugar_free_below(r->Ok_0@),
            crate::sugar::desugaring(*old(self)) ==> crate::desugar_model::tracks(crate::desugar_model::ds_children(stmt@, crate::desugar_model::dstate(old(self).state), fuel), r is Ok, r->Ok_0@, r->Err_0, crate::desugar_model::dstate(final(self).state)),
        decreases fuel, crate::mapper_size::sz_stmt(stmt@), 3nat,
    {
        proof {
            reveal(crate::desugar_model::ds_children);
        }
        let f = fuel;
        let ghost sv = stmt@;
        match stmt {
            Stmt::Try(b, h, fin) => {
                let nb = match self.map_stmts(b, f) { Ok(v) => v, Err(e) => { return Err(e); } };
                let nh = match self.map_catch(h, f) { Ok(v) => v, Err(e) => { return Err(e); } };
                let nf = match self.map_opt_stmts(fin, f) { Ok(v) => v, Err(e) => { return Err(e); } };
                Ok(Stmt::Try(nb, nh, nf))
            },
            other => Ok(other),
        }
    }

}

} // verus!
