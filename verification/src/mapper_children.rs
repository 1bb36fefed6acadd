//! The mapper on the children of the simpler statements.

use vstd::prelude::*;
use crate::ast::{Expr, Stmt};
use crate::mapper::{follows, keeps, lbl, MapError, Mapper};
use crate::mapper_spec::{boundary, refused, rl_opt_stmt, rl_stmt};
use crate::spec_ast::SStmt;
use crate::mapper_stmt::v_opt_box_stmt;

use crate::sugar::{desugaring, sugar_free, sugar_free_below};

verus! {

impl Mapper {
    /// Maps the statements of a block.
    pub(crate) fn map_block(&mut self, stmt: Stmt, fuel: u64) -> (r: Result<Stmt, MapError>)
        requires
            stmt@ is Block,
        ensures
            keeps(*old(self), *final(self)),
            (lbl(*old(self)) is None || !refused(stmt@)) ==>
                follows(*old(self), *final(self), rl_stmt(stmt@, lbl(*old(self))), r is Ok, r->Ok_0@, r matches Err(MapError::Unsupported)),
            desugaring(*old(self)) && r is Ok ==> sugar_free_below(r->Ok_0@),
            crate::sugar::desugaring(*old(self)) ==> crate::desugar_model::tracks(crate::desugar_model::ds_children(stmt@, crate::desugar_model::dstate(old(self).state), fuel), r is Ok, r->Ok_0@, r->Err_0, crate::desugar_model::dstate(final(self).state)),
        decreases fuel, crate::mapper_size::sz_stmt(stmt@), 3nat,
    {
        proof {
            reveal(crate::desugar_model::ds_children);
        }
        proof {
            reveal(crate::mapper_spec::rl_stmt);
        }
        let f = fuel;
        let ghost sv = stmt@;
        match stmt {
            Stmt::Block(b) => {
                let nb = match self.map_stmts(b, f) { Ok(v) => v, Err(e) => { return Err(e); } };
                Ok(Stmt::Block(nb))
            },
            other => Ok(other),
        }
    }

    /// Maps the children of a `do-while`.
    #[verifier::rlimit(60)]
    #[verifier::spinoff_prover]
    pub(crate) fn map_do_while(&mut self, stmt: Stmt, fuel: u64) -> (r: Result<Stmt, MapError>)
        requires
            stmt@ is DoWhile,
        ensures
            keeps(*old(self), *final(self)),
            follows(*old(self), *final(self), crate::mapper_spec::rl_do_while(stmt@, lbl(*old(self))), r is Ok, r->Ok_0@, r matches Err(MapError::Unsupported)),
            desugaring(*old(self)) && r is Ok ==> sugar_free_below(r->Ok_0@),
            crate::sugar::desugaring(*old(self)) ==> crate::desugar_model::tracks(crate::desugar_model::ds_children(stmt@, crate::desugar_model::dstate(old(self).state), fuel), r is Ok, r->Ok_0@, r->Err_0, crate::desugar_model::dstate(final(self).state)),
        decreases fuel, crate::mapper_size::sz_stmt(stmt@), 3nat,
    {
        proof {
            reveal(crate::desugar_model::ds_children);
        }
        let f = fuel;
        let ghost sv = stmt@;
        match stmt {
            Stmt::DoWhile(b, t) => {
                proof {
                    assert(sv == SStmt::DoWhile(Box::new(b@), t@));
                }
                let nb = match self.map_statement(*b, f) { Ok(v) => v, Err(e) => { return Err(e); } };
                let nt = match self.map_expression(t, f) { Ok(v) => v, Err(e) => { return Err(e); } };
                let res = Stmt::DoWhile(Box::new(nb), nt);
                proof {
                    assert(res@ == SStmt::DoWhile(Box::new(nb@), nt@));
                }
                Ok(res)
            },
            other => Ok(other),
        }
    }

    /// Maps the expression of an expression statement.
    pub(crate) fn map_expr_stmt(&mut self, stmt: Stmt, fuel: u64) -> (r: Result<Stmt, MapError>)
        requires
            stmt@ is Expr,
        ensures
            keeps(*old(self), *final(self)),
            (lbl(*old(self)) is None || !refused(stmt@)) ==>
                follows(*old(self), *final(self), rl_stmt(stmt@, lbl(*old(self))), r is Ok, r->Ok_0@, r matches Err(MapError::Unsupported)),
            desugaring(*old(self)) && r is Ok ==> sugar_free_below(r->Ok_0@),
            crate::sugar::desugaring(*old(self)) ==> crate::desugar_model::tracks(crate::desugar_model::ds_children(stmt@, crate::desugar_model::dstate(old(self).state), fuel), r is Ok, r->Ok_0@, r->Err_0, crate::desugar_model::dstate(final(self).state)),
        decreases fuel, crate::mapper_size::sz_stmt(stmt@), 3nat,
    {
        proof {
            reveal(crate::desugar_model::ds_children);
        }
        proof {
            reveal(crate::mapper_spec::rl_stmt);
        }
        let f = fuel;
        let ghost sv = stmt@;
        match stmt {
            Stmt::Expr(e) => {
                let ne = match self.map_expression(e, f) { Ok(v) => v, Err(e) => { return Err(e); } };
                Ok(Stmt::Expr(ne))
            },
            other => Ok(other),
        }
    }

    /// Maps the body of a labeled statement.
    pub(crate) fn map_labeled(&mut self, stmt: Stmt, fuel: u64) -> (r: Result<Stmt, MapError>)
        requires
            stmt@ is Labeled,
        ensures
            keeps(*old(self), *final(self)),
            (lbl(*old(self)) is None || !refused(stmt@)) ==>
                follows(*old(self), *final(self), rl_stmt(stmt@, lbl(*old(self))), r is Ok, r->Ok_0@, r matches Err(MapError::Unsupported)),
            desugaring(*old(self)) && r is Ok ==> sugar_free_below(r->Ok_0@),
            crate::sugar::desugaring(*old(self)) ==> crate::desugar_model::tracks(crate::desugar_model::ds_children(stmt@, crate::desugar_model::dstate(old(self).state), fuel), r is Ok, r->Ok_0@, r->Err_0, crate::desugar_model::dstate(final(self).state)),
        decreases fuel, crate::mapper_size::sz_stmt(stmt@), 3nat,
    {
        proof {
            reveal(crate::desugar_model::ds_children);
        }
        proof {
            reveal(crate::mapper_spec::rl_stmt);
        }
        let f = fuel;
        let ghost sv = stmt@;
        match stmt {
            Stmt::Labeled(l, b) => {
                let nb = match self.map_statement(*b, f) { Ok(v) => v, Err(e) => { return Err(e); } };
                Ok(Stmt::Labeled(l, Box::new(nb)))
            },
            other => Ok(other),
        }
    }

    /// Maps the argument of a `return`.
    pub(crate) fn map_return(&mut self, stmt: Stmt, fuel: u64) -> (r: Result<Stmt, MapError>)
        requires
            stmt@ is Return,
        ensures
            keeps(*old(self), *final(self)),
            (lbl(*old(self)) is None || !refused(stmt@)) ==>
                follows(*old(self), *final(self), rl_stmt(stmt@, lbl(*old(self))), r is Ok, r->Ok_0@, r matches Err(MapError::Unsupported)),
            desugaring(*old(self)) && r is Ok ==> sugar_free_below(r->Ok_0@),
            crate::sugar::desugaring(*old(self)) ==> crate::desugar_model::tracks(crate::desugar_model::ds_children(stmt@, crate::desugar_model::dstate(old(self).state), fuel), r is Ok, r->Ok_0@, r->Err_0, crate::desugar_model::dstate(final(self).state)),
        decreases fuel, crate::mapper_size::sz_stmt(stmt@), 3nat,
    {
        proof {
            reveal(crate::desugar_model::ds_children);
        }
        proof {
            reveal(crate::mapper_spec::rl_stmt);
        }
        let f = fuel;
        let ghost sv = stmt@;
        match stmt {
            Stmt::Return(a) => {
                let na = match self.map_opt_expr(a, f) { Ok(v) => v, Err(e) => { return Err(e); } };
                Ok(Stmt::Return(na))
            },
            other => Ok(other),
        }
    }

    /// Maps the argument of a `throw`.
    pub(crate) fn map_throw(&mut self, stmt: Stmt, fuel: u64) -> (r: Result<Stmt, MapError>)
        requires
            stmt@ is Throw,
        ensures
            keeps(*old(self), *final(self)),
            (lbl(*old(self)) is None || !refused(stmt@)) ==>
                follows(*old(self), *final(self), rl_stmt(stmt@, lbl(*old(self))), r is Ok, r->Ok_0@, r matches Err(MapError::Unsupported)),
            desugaring(*old(self)) && r is Ok ==> sugar_free_below(r->Ok_0@),
            crate::sugar::desugaring(*old(self)) ==> crate::desugar_model::tracks(crate::desugar_model::ds_children(stmt@, crate::desugar_model::dstate(old(self).state), fuel), r is Ok, r->Ok_0@, r->Err_0, crate::desugar_model::dstate(final(self).state)),
        decreases fuel, crate::mapper_size::sz_stmt(stmt@), 3nat,
    {
        proof {
            reveal(crate::desugar_model::ds_children);
        }
        proof {
            reveal(crate::mapper_spec::rl_stmt);
        }
        let f = fuel;
        let ghost sv = stmt@;
        match stmt {
            Stmt::Throw(e) => {
                let ne = match self.map_expression(e, f) { Ok(v) => v, Err(e) => { return Err(e); } };
                Ok(Stmt::Throw(ne))
            },
            other => Ok(other),
        }
    }

    /// Maps the children of a `while`.
    #[verifier::rlimit(60)]
    #[verifier::spinoff_prover]
    pub(crate) fn map_while(&mut self, stmt: Stmt, fuel: u64) -> (r: Result<Stmt, MapError>)
        requires
            stmt@ is While,
        ensures
            keeps(*old(self), *final(self)),
            follows(*old(self), *final(self), crate::mapper_spec::rl_while(stmt@, lbl(*old(self))), r is Ok, r->Ok_0@, r matches Err(MapError::Unsupported)),
            desugaring(*old(self)) && r is Ok ==> sugar_free_below(r->Ok_0@),
            crate::sugar::desugaring(*old(self)) ==> crate::desugar_model::tracks(crate::desugar_model::ds_children(stmt@, crate::desugar_model::dstate(old(self).state), fuel), r is Ok, r->Ok_0@, r->Err_0, crate::desugar_model::dstate(final(self).state)),
        decreases fuel, crate::mapper_size::sz_stmt(stmt@), 3nat,
    {
        proof {
            reveal(crate::desugar_model::ds_children);
        }
        let f = fuel;
        let ghost sv = stmt@;
        match stmt {
            Stmt::While(t, b) => {
                proof {
                    assert(sv == SStmt::While(t@, Box::new(b@)));
                }
                let nt = match self.map_expression(t, f) { Ok(v) => v, Err(e) => { return Err(e); } };
                let nb = match self.map_statement(*b, f) { Ok(v) => v, Err(e) => { return Err(e); } };
                let res = Stmt::While(nt, Box::new(nb));
                proof {
                    assert(res@ == SStmt::While(nt@, Box::new(nb@)));
                }
                Ok(res)
            },
            other => Ok(other),
        }
    }

    /// Maps the children of a `with`.
    #[verifier::rlimit(60)]
    #[verifier::spinoff_prover]
    pub(crate) fn map_with(&mut self, stmt: Stmt, fuel: u64) -> (r: Result<Stmt, MapError>)
        requires
            stmt@ is With,
        ensures
            keeps(*old(self), *final(self)),
            follows(*old(self), *final(self), crate::mapper_spec::rl_with(stmt@, lbl(*old(self))), r is Ok, r->Ok_0@, r matches Err(MapError::Unsupported)),
            desugaring(*old(self)) && r is Ok ==> sugar_free_below(r->Ok_0@),
            crate::sugar::desugaring(*old(self)) ==> crate::desugar_model::tracks(crate::desugar_model::ds_children(stmt@, crate::desugar_model::dstate(old(self).state), fuel), r is Ok, r->Ok_0@, r->Err_0, crate::desugar_model::dstate(final(self).state)),
        decreases fuel, crate::mapper_size::sz_stmt(stmt@), 3nat,
    {
        proof {
            reveal(crate::desugar_model::ds_children);
        }
        let f = fuel;
        let ghost sv = stmt@;
        match stmt {
            Stmt::With(o, b) => {
                proof {
                    assert(sv == SStmt::With(o@, Box::new(b@)));
                }
                let no = match self.map_expression(o, f) { Ok(v) => v, Err(e) => { return Err(e); } };
                let nb = match self.map_statement(*b, f) { Ok(v) => v, Err(e) => { return Err(e); } };
                let res = Stmt::With(no, Box::new(nb));
                proof {
                    assert(res@ == SStmt::With(no@, Box::new(nb@)));
                }
                Ok(res)
            },
            other => Ok(other),
        }
    }

    /// Maps a declaration statement.
    #[verifier::rlimit(60)]
    #[verifier::spinoff_prover]
    pub(crate) fn map_var_decl_stmt(&mut self, stmt: Stmt, fuel: u64) -> (r: Result<Stmt, MapError>)
        requires
            stmt@ is VarDecl,
        ensures
            keeps(*old(self), *final(self)),
            (lbl(*old(self)) is None || !refused(stmt@)) ==>
                follows(*old(self), *final(self), rl_stmt(stmt@, lbl(*old(self))), r is Ok, r->Ok_0@, r matches Err(MapError::Unsupported)),
            desugaring(*old(self)) && r is Ok ==> sugar_free_below(r->Ok_0@),
            crate::sugar::desugaring(*old(self)) ==> crate::desugar_model::tracks(crate::desugar_model::ds_children(stmt@, crate::desugar_model::dstate(old(self).state), fuel), r is Ok, r->Ok_0@, r->Err_0, crate::desugar_model::dstate(final(self).state)),
        decreases fuel, crate::mapper_size::sz_stmt(stmt@), 3nat,
    {
        proof {
            reveal(crate::desugar_model::ds_children);
        }
        proof {
            reveal(crate::mapper_spec::rl_stmt);
        }
        let f = fuel;
        let ghost sv = stmt@;
        match stmt {
            Stmt::VarDecl(d) => {
                assert(sv == SStmt::VarDecl(crate::spec_ast::v_var_decl(d)));
                let nd = match self.map_variable_declaration(d, f) { Ok(v) => v, Err(e) => { return Err(e); } };
                Ok(Stmt::VarDecl(nd))
            },
            other => Ok(other),
        }
    }

    /// Maps a function declaration.
    #[verifier::rlimit(60)]
    #[verifier::spinoff_prover]
    pub(crate) fn map_function_decl(&mut self, stmt: Stmt, fuel: u64) -> (r: Result<Stmt, MapError>)
        requires
            stmt@ is FunctionDecl,
        ensures
            keeps(*old(self), *final(self)),
            (lbl(*old(self)) is None || (!refused(stmt@) && !boundary(stmt@))) ==>
                follows(*old(self), *final(self), rl_stmt(stmt@, lbl(*old(self))), r is Ok, r->Ok_0@, r matches Err(MapError::Unsupported)),
            desugaring(*old(self)) && r is Ok ==> sugar_free_below(r->Ok_0@),
            crate::sugar::desugaring(*old(self)) ==> crate::desugar_model::tracks(crate::desugar_model::ds_children(stmt@, crate::desugar_model::dstate(old(self).state), fuel), r is Ok, r->Ok_0@, r->Err_0, crate::desugar_model::dstate(final(self).state)),
        decreases fuel, crate::mapper_size::sz_stmt(stmt@), 3nat,
    {
        proof {
            reveal(crate::desugar_model::ds_children);
        }
        proof {
            reveal(crate::mapper_spec::rl_stmt);
        }
        let f = fuel;
        let ghost sv = stmt@;
        match stmt {
            Stmt::FunctionDecl(x) => {
                proof {
                    assert(sv == SStmt::FunctionDecl(Box::new(crate::spec_ast::v_function(*x))));
                }
                let nx = match self.map_function(*x, f) { Ok(v) => v, Err(e) => { return Err(e); } };
                let res = Stmt::FunctionDecl(Box::new(nx));
                proof {
                    assert(res@ == SStmt::FunctionDecl(Box::new(crate::spec_ast::v_function(nx))));
                }
                Ok(res)
            },
            other => Ok(other),
        }
    }

    /// Maps a class declaration.
    #[verifier::rlimit(60)]
    #[verifier::spinoff_prover]
    pub(crate) fn map_class_decl(&mut self, stmt: Stmt, fuel: u64) -> (r: Result<Stmt, MapError>)
        requires
            stmt@ is ClassDecl,
        ensures
            keeps(*old(self), *final(self)),
            (lbl(*old(self)) is None || !refused(stmt@)) ==>
                follows(*old(self), *final(self), rl_stmt(stmt@, lbl(*old(self))), r is Ok, r->Ok_0@, r matches Err(MapError::Unsupported)),
            desugaring(*old(self)) && r is Ok ==> sugar_free_below(r->Ok_0@),
            crate::sugar::desugaring(*old(self)) ==> crate::desugar_model::tracks(crate::desugar_model::ds_children(stmt@, crate::desugar_model::dstate(old(self).state), fuel), r is Ok, r->Ok_0@, r->Err_0, crate::desugar_model::dstate(final(self).state)),
        decreases fuel, crate::mapper_size::sz_stmt(stmt@), 3nat,
    {
        proof {
            reveal(crate::desugar_model::ds_children);
        }
        proof {
            reveal(crate::mapper_spec::rl_stmt);
        }
        let f = fuel;
        let ghost sv = stmt@;
        match stmt {
            Stmt::ClassDecl(x) => {
                proof {
                    assert(sv == SStmt::ClassDecl(Box::new(crate::spec_ast::v_class(*x))));
                }
                let nx = match self.map_class(*x, f) { Ok(v) => v, Err(e) => { return Err(e); } };
                let res = Stmt::ClassDecl(Box::new(nx));
                proof {
                    assert(res@ == SStmt::ClassDecl(Box::new(crate::spec_ast::v_class(nx))));
                }
                Ok(res)
            },
            other => Ok(other),
        }
    }

    /// Maps an optional boxed statement.
    #[verifier::spinoff_prover]
    pub(crate) fn map_opt_stmt(&mut self, s: Option<Box<Stmt>>, fuel: u64) -> (r: Result<Option<Box<Stmt>>, MapError>)
        ensures
            keeps(*old(self), *final(self)),
            follows(*old(self), *final(self), rl_opt_stmt(v_opt_box_stmt(s), lbl(*old(self))), r is Ok, v_opt_box_stmt(r->Ok_0), r matches Err(MapError::Unsupported)),
            desugaring(*old(self)) && r is Ok ==> (match v_opt_box_stmt(r->Ok_0) { Some(x) => sugar_free(*x), None => true }),
            crate::sugar::desugaring(*old(self)) ==> crate::desugar_model::tracks(crate::desugar_model::ds_opt_stmt(v_opt_box_stmt(s), crate::desugar_model::dstate(old(self).state), fuel), r is Ok, v_opt_box_stmt(r->Ok_0), r->Err_0, crate::desugar_model::dstate(final(self).state)),
        decreases fuel, crate::mapper_size::sz_opt_stmt(v_opt_box_stmt(s)), 3nat,
    {
        proof {
            reveal(crate::desugar_model::ds_children);
        }
        let ghost l = lbl(*self);
        let ghost sv = v_opt_box_stmt(s);
        match s {
            Some(x) => {
                let ghost xv = (*x)@;
                proof {
                    reveal_with_fuel(crate::mapper_spec::rl_opt_stmt, 1);
                    assert(sv == Some(Box::new(xv)));
                    assert(rl_opt_stmt(Some(Box::new(xv)), l) == (Some(Box::new(rl_stmt(xv, l).0)), rl_stmt(xv, l).1, rl_stmt(xv, l).2));
                }
                let nx = match self.map_statement(*x, fuel) { Ok(v) => v, Err(e) => { return Err(e); } };
                let res = Some(Box::new(nx));
                proof {
                    assert(v_opt_box_stmt(res) == Some(Box::new(nx@)));
                }
                Ok(res)
            },
            None => Ok(None),
        }
    }

}

} // verus!
