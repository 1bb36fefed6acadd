//! The expression part of the mapper: each kind of expression, mapped for
//! the statements it contains.

use vstd::prelude::*;
use crate::ast::{Arrow, Class, Expr, Function, Member, Template};
use crate::mapper::{follows, keeps, lbl, MapError, Mapper};
use crate::mapper_spec::rl_expr;
use crate::spec_ast::{v_exprs, SExpr};

verus! {

impl Mapper {
    /// Maps an expression for the statements it contains.
    pub fn map_expression(&mut self, e: Expr, fuel: u64) -> (r: Result<Expr, MapError>)
        ensures
            keeps(*old(self), *final(self)),
            follows(*old(self), *final(self), rl_expr(e@, lbl(*old(self))), r is Ok, r->Ok_0@, r matches Err(MapError::Unsupported)),
            crate::sugar::desugaring(*old(self)) && r is Ok ==> crate::sugar::expr_free(r->Ok_0@),
            crate::sugar::desugaring(*old(self)) ==> crate::desugar_model::tracks(crate::desugar_model::ds_expr(e@, crate::desugar_model::dstate(old(self).state), fuel), r is Ok, r->Ok_0@, r->Err_0, crate::desugar_model::dstate(final(self).state)),
        decreases fuel, crate::mapper_size::sz_expr(e@), 6nat,
    {
        let f = fuel;
        proof {
            reveal(crate::mapper_spec::rl_expr);
            reveal(crate::sugar::expr_free);
            reveal(crate::desugar_model::ds_expr);
        }
        match &e {
            Expr::Array(..) => self.map_array_expr(e, f),
            Expr::Object(..) => self.map_object_expr(e, f),
            Expr::Function(..) => self.map_function_expr(e, f),
            Expr::Arrow(..) => self.map_arrow_expr(e, f),
            Expr::Class(..) => self.map_class_expr(e, f),
            Expr::Assign(..) => self.map_assign_expr(e, f),
            Expr::Await(..) => self.map_await_expr(e, f),
            Expr::Binary(..) => self.map_binary_expr(e, f),
            Expr::Logical(..) => self.map_logical_expr(e, f),
            Expr::Unary(..) => self.map_unary_expr(e, f),
            Expr::Update(..) => self.map_update_expr(e, f),
            Expr::Call(..) => self.map_call_expr(e, f),
            Expr::New(..) => self.map_new_expr(e, f),
            Expr::Chain(..) => self.map_chain_expr(e, f),
            Expr::Member(..) => self.map_member_expr(e, f),
            Expr::Conditional(..) => self.map_conditional_expr(e, f),
            Expr::Sequence(..) => self.map_sequence_expr(e, f),
            Expr::TaggedTemplate(..) => self.map_tagged_expr(e, f),
            Expr::Yield(..) => self.map_yield_expr(e, f),
            Expr::Paren(..) => self.map_paren_expr(e, f),
            Expr::Import(..) => self.map_import_expr(e, f),
            _ => Ok(e),
        }
    }

    /// Maps the elements of an array literal.
    pub(crate) fn map_array_expr(&mut self, e: Expr, fuel: u64) -> (r: Result<Expr, MapError>)
        requires
            e@ is Array,
        ensures
            keeps(*old(self), *final(self)),
            follows(*old(self), *final(self), rl_expr(e@, lbl(*old(self))), r is Ok, r->Ok_0@, r matches Err(MapError::Unsupported)),
            crate::sugar::desugaring(*old(self)) && r is Ok ==> crate::sugar::expr_free(r->Ok_0@),
            crate::sugar::desugaring(*old(self)) ==> crate::desugar_model::tracks(crate::desugar_model::ds_expr(e@, crate::desugar_model::dstate(old(self).state), fuel), r is Ok, r->Ok_0@, r->Err_0, crate::desugar_model::dstate(final(self).state)),
        decreases fuel, crate::mapper_size::sz_expr(e@), 5nat,
    {
        proof {
            reveal(crate::mapper_spec::rl_expr);
            reveal(crate::sugar::expr_free);
            reveal(crate::desugar_model::ds_expr);
        }
        let f = fuel;
        match e {
            Expr::Array(es) => {
                Ok(Expr::Array(match self.map_array_elems(es, f) { Ok(v) => v, Err(e) => { return Err(e); } }))
            },
            other => Ok(other),
        }
    }

    /// Maps the properties of an object literal.
    pub(crate) fn map_object_expr(&mut self, e: Expr, fuel: u64) -> (r: Result<Expr, MapError>)
        requires
            e@ is Object,
        ensures
            keeps(*old(self), *final(self)),
            follows(*old(self), *final(self), rl_expr(e@, lbl(*old(self))), r is Ok, r->Ok_0@, r matches Err(MapError::Unsupported)),
            crate::sugar::desugaring(*old(self)) && r is Ok ==> crate::sugar::expr_free(r->Ok_0@),
            crate::sugar::desugaring(*old(self)) ==> crate::desugar_model::tracks(crate::desugar_model::ds_expr(e@, crate::desugar_model::dstate(old(self).state), fuel), r is Ok, r->Ok_0@, r->Err_0, crate::desugar_model::dstate(final(self).state)),
        decreases fuel, crate::mapper_size::sz_expr(e@), 5nat,
    {
        proof {
            reveal(crate::mapper_spec::rl_expr);
            reveal(crate::sugar::expr_free);
            reveal(crate::desugar_model::ds_expr);
        }
        let f = fuel;
        match e {
            Expr::Object(ps) => {
                Ok(Expr::Object(match self.map_obj_props(ps, f) { Ok(v) => v, Err(e) => { return Err(e); } }))
            },
            other => Ok(other),
        }
    }

    /// Maps a function expression.
    pub(crate) fn map_function_expr(&mut self, e: Expr, fuel: u64) -> (r: Result<Expr, MapError>)
        requires
            e@ is Function,
        ensures
            keeps(*old(self), *final(self)),
            follows(*old(self), *final(self), rl_expr(e@, lbl(*old(self))), r is Ok, r->Ok_0@, r matches Err(MapError::Unsupported)),
            crate::sugar::desugaring(*old(self)) && r is Ok ==> crate::sugar::expr_free(r->Ok_0@),
            crate::sugar::desugaring(*old(self)) ==> crate::desugar_model::tracks(crate::desugar_model::ds_expr(e@, crate::desugar_model::dstate(old(self).state), fuel), r is Ok, r->Ok_0@, r->Err_0, crate::desugar_model::dstate(final(self).state)),
        decreases fuel, crate::mapper_size::sz_expr(e@), 5nat,
    {
        proof {
            reveal(crate::mapper_spec::rl_expr);
            reveal(crate::sugar::expr_free);
            reveal(crate::desugar_model::ds_expr);
        }
        let f = fuel;
        match e {
            Expr::Function(x) => {
                Ok(Expr::Function(Box::new(match self.map_function(*x, f) { Ok(v) => v, Err(e) => { return Err(e); } })))
            },
            other => Ok(other),
        }
    }

    /// Maps an arrow.
    pub(crate) fn map_arrow_expr(&mut self, e: Expr, fuel: u64) -> (r: Result<Expr, MapError>)
        requires
            e@ is Arrow,
        ensures
            keeps(*old(self), *final(self)),
            follows(*old(self), *final(self), rl_expr(e@, lbl(*old(self))), r is Ok, r->Ok_0@, r matches Err(MapError::Unsupported)),
            crate::sugar::desugaring(*old(self)) && r is Ok ==> crate::sugar::expr_free(r->Ok_0@),
            crate::sugar::desugaring(*old(self)) ==> crate::desugar_model::tracks(crate::desugar_model::ds_expr(e@, crate::desugar_model::dstate(old(self).state), fuel), r is Ok, r->Ok_0@, r->Err_0, crate::desugar_model::dstate(final(self).state)),
        decreases fuel, crate::mapper_size::sz_expr(e@), 5nat,
    {
        proof {
            reveal(crate::mapper_spec::rl_expr);
            reveal(crate::sugar::expr_free);
            reveal(crate::desugar_model::ds_expr);
        }
        let f = fuel;
        match e {
            Expr::Arrow(x) => {
                Ok(Expr::Arrow(Box::new(match self.map_arrow(*x, f) { Ok(v) => v, Err(e) => { return Err(e); } })))
            },
            other => Ok(other),
        }
    }

    /// Maps a class expression.
    pub(crate) fn map_class_expr(&mut self, e: Expr, fuel: u64) -> (r: Result<Expr, MapError>)
        requires
            e@ is Class,
        ensures
            keeps(*old(self), *final(self)),
            follows(*old(self), *final(self), rl_expr(e@, lbl(*old(self))), r is Ok, r->Ok_0@, r matches Err(MapError::Unsupported)),
            crate::sugar::desugaring(*old(self)) && r is Ok ==> crate::sugar::expr_free(r->Ok_0@),
            crate::sugar::desugaring(*old(self)) ==> crate::desugar_model::tracks(crate::desugar_model::ds_expr(e@, crate::desugar_model::dstate(old(self).state), fuel), r is Ok, r->Ok_0@, r->Err_0, crate::desugar_model::dstate(final(self).state)),
        decreases fuel, crate::mapper_size::sz_expr(e@), 5nat,
    {
        proof {
            reveal(crate::mapper_spec::rl_expr);
            reveal(crate::sugar::expr_free);
            reveal(crate::desugar_model::ds_expr);
        }
        let f = fuel;
        match e {
            Expr::Class(x) => {
                Ok(Expr::Class(Box::new(match self.map_class(*x, f) { Ok(v) => v, Err(e) => { return Err(e); } })))
            },
            other => Ok(other),
        }
    }

    /// Maps an assignment: its target, then its value.
    pub(crate) fn map_assign_expr(&mut self, e: Expr, fuel: u64) -> (r: Result<Expr, MapError>)
        requires
            e@ is Assign,
        ensures
            keeps(*old(self), *final(self)),
            follows(*old(self), *final(self), rl_expr(e@, lbl(*old(self))), r is Ok, r->Ok_0@, r matches Err(MapError::Unsupported)),
            crate::sugar::desugaring(*old(self)) && r is Ok ==> crate::sugar::expr_free(r->Ok_0@),
            crate::sugar::desugaring(*old(self)) ==> crate::desugar_model::tracks(crate::desugar_model::ds_expr(e@, crate::desugar_model::dstate(old(self).state), fuel), r is Ok, r->Ok_0@, r->Err_0, crate::desugar_model::dstate(final(self).state)),
        decreases fuel, crate::mapper_size::sz_expr(e@), 5nat,
    {
        proof {
            reveal(crate::mapper_spec::rl_expr);
            reveal(crate::sugar::expr_free);
            reveal(crate::desugar_model::ds_expr);
        }
        let f = fuel;
        match e {
            Expr::Assign(op, t, x) => {
                let nt = match self.map_assignment_target(*t, f) { Ok(v) => v, Err(e) => { return Err(e); } };
                let nx = match self.map_expression(*x, f) { Ok(v) => v, Err(e) => { return Err(e); } };
                Ok(Expr::Assign(op, Box::new(nt), Box::new(nx)))
            },
            other => Ok(other),
        }
    }

    /// Maps an `await`.
    pub(crate) fn map_await_expr(&mut self, e: Expr, fuel: u64) -> (r: Result<Expr, MapError>)
        requires
            e@ is Await,
        ensures
            keeps(*old(self), *final(self)),
            follows(*old(self), *final(self), rl_expr(e@, lbl(*old(self))), r is Ok, r->Ok_0@, r matches Err(MapError::Unsupported)),
            crate::sugar::desugaring(*old(self)) && r is Ok ==> crate::sugar::expr_free(r->Ok_0@),
            crate::sugar::desugaring(*old(self)) ==> crate::desugar_model::tracks(crate::desugar_model::ds_expr(e@, crate::desugar_model::dstate(old(self).state), fuel), r is Ok, r->Ok_0@, r->Err_0, crate::desugar_model::dstate(final(self).state)),
        decreases fuel, crate::mapper_size::sz_expr(e@), 5nat,
    {
        proof {
            reveal(crate::mapper_spec::rl_expr);
            reveal(crate::sugar::expr_free);
            reveal(crate::desugar_model::ds_expr);
        }
        let f = fuel;
        match e {
            Expr::Await(x) => {
                Ok(Expr::Await(Box::new(match self.map_expression(*x, f) { Ok(v) => v, Err(e) => { return Err(e); } })))
            },
            other => Ok(other),
        }
    }

    /// Maps a binary expression.
    pub(crate) fn map_binary_expr(&mut self, e: Expr, fuel: u64) -> (r: Result<Expr, MapError>)
        requires
            e@ is Binary,
        ensures
            keeps(*old(self), *final(self)),
            follows(*old(self), *final(self), rl_expr(e@, lbl(*old(self))), r is Ok, r->Ok_0@, r matches Err(MapError::Unsupported)),
            crate::sugar::desugaring(*old(self)) && r is Ok ==> crate::sugar::expr_free(r->Ok_0@),
            crate::sugar::desugaring(*old(self)) ==> crate::desugar_model::tracks(crate::desugar_model::ds_expr(e@, crate::desugar_model::dstate(old(self).state), fuel), r is Ok, r->Ok_0@, r->Err_0, crate::desugar_model::dstate(final(self).state)),
        decreases fuel, crate::mapper_size::sz_expr(e@), 5nat,
    {
        proof {
            reveal(crate::mapper_spec::rl_expr);
            reveal(crate::sugar::expr_free);
            reveal(crate::desugar_model::ds_expr);
        }
        let f = fuel;
        match e {
            Expr::Binary(op, x, y) => {
                let nx = match self.map_expression(*x, f) { Ok(v) => v, Err(e) => { return Err(e); } };
                let ny = match self.map_expression(*y, f) { Ok(v) => v, Err(e) => { return Err(e); } };
                Ok(Expr::Binary(op, Box::new(nx), Box::new(ny)))
            },
            other => Ok(other),
        }
    }

    /// Maps a logical expression.
    pub(crate) fn map_logical_expr(&mut self, e: Expr, fuel: u64) -> (r: Result<Expr, MapError>)
        requires
            e@ is Logical,
        ensures
            keeps(*old(self), *final(self)),
            follows(*old(self), *final(self), rl_expr(e@, lbl(*old(self))), r is Ok, r->Ok_0@, r matches Err(MapError::Unsupported)),
            crate::sugar::desugaring(*old(self)) && r is Ok ==> crate::sugar::expr_free(r->Ok_0@),
            crate::sugar::desugaring(*old(self)) ==> crate::desugar_model::tracks(crate::desugar_model::ds_expr(e@, crate::desugar_model::dstate(old(self).state), fuel), r is Ok, r->Ok_0@, r->Err_0, crate::desugar_model::dstate(final(self).state)),
        decreases fuel, crate::mapper_size::sz_expr(e@), 5nat,
    {
        proof {
            reveal(crate::mapper_spec::rl_expr);
            reveal(crate::sugar::expr_free);
            reveal(crate::desugar_model::ds_expr);
        }
        let f = fuel;
        match e {
            Expr::Logical(op, x, y) => {
                let nx = match self.map_expression(*x, f) { Ok(v) => v, Err(e) => { return Err(e); } };
                let ny = match self.map_expression(*y, f) { Ok(v) => v, Err(e) => { return Err(e); } };
                Ok(Expr::Logical(op, Box::new(nx), Box::new(ny)))
            },
            other => Ok(other),
        }
    }

    /// Maps a unary expression.
    pub(crate) fn map_unary_expr(&mut self, e: Expr, fuel: u64) -> (r: Result<Expr, MapError>)
        requires
            e@ is Unary,
        ensures
            keeps(*old(self), *final(self)),
            follows(*old(self), *final(self), rl_expr(e@, lbl(*old(self))), r is Ok, r->Ok_0@, r matches Err(MapError::Unsupported)),
            crate::sugar::desugaring(*old(self)) && r is Ok ==> crate::sugar::expr_free(r->Ok_0@),
            crate::sugar::desugaring(*old(self)) ==> crate::desugar_model::tracks(crate::desugar_model::ds_expr(e@, crate::desugar_model::dstate(old(self).state), fuel), r is Ok, r->Ok_0@, r->Err_0, crate::desugar_model::dstate(final(self).state)),
        decreases fuel, crate::mapper_size::sz_expr(e@), 5nat,
    {
        proof {
            reveal(crate::mapper_spec::rl_expr);
            reveal(crate::sugar::expr_free);
            reveal(crate::desugar_model::ds_expr);
        }
        let f = fuel;
        match e {
            Expr::Unary(op, x) => {
                Ok(Expr::Unary(op, Box::new(match self.map_expression(*x, f) { Ok(v) => v, Err(e) => { return Err(e); } })))
            },
            other => Ok(other),
        }
    }

    /// Maps an update expression.
    pub(crate) fn map_update_expr(&mut self, e: Expr, fuel: u64) -> (r: Result<Expr, MapError>)
        requires
            e@ is Update,
        ensures
            keeps(*old(self), *final(self)),
            follows(*old(self), *final(self), rl_expr(e@, lbl(*old(self))), r is Ok, r->Ok_0@, r matches Err(MapError::Unsupported)),
            crate::sugar::desugaring(*old(self)) && r is Ok ==> crate::sugar::expr_free(r->Ok_0@),
            crate::sugar::desugaring(*old(self)) ==> crate::desugar_model::tracks(crate::desugar_model::ds_expr(e@, crate::desugar_model::dstate(old(self).state), fuel), r is Ok, r->Ok_0@, r->Err_0, crate::desugar_model::dstate(final(self).state)),
        decreases fuel, crate::mapper_size::sz_expr(e@), 5nat,
    {
        proof {
            reveal(crate::mapper_spec::rl_expr);
            reveal(crate::sugar::expr_free);
            reveal(crate::desugar_model::ds_expr);
        }
        let f = fuel;
        match e {
            Expr::Update(op, p, t) => {
                Ok(Expr::Update(op, p, Box::new(match self.map_simple_target(*t, f) { Ok(v) => v, Err(e) => { return Err(e); } })))
            },
            other => Ok(other),
        }
    }

    /// Maps a call: the callee, then the arguments.
    pub(crate) fn map_call_expr(&mut self, e: Expr, fuel: u64) -> (r: Result<Expr, MapError>)
        requires
            e@ is Call,
        ensures
            keeps(*old(self), *final(self)),
            follows(*old(self), *final(self), rl_expr(e@, lbl(*old(self))), r is Ok, r->Ok_0@, r matches Err(MapError::Unsupported)),
            crate::sugar::desugaring(*old(self)) && r is Ok ==> crate::sugar::expr_free(r->Ok_0@),
            crate::sugar::desugaring(*old(self)) ==> crate::desugar_model::tracks(crate::desugar_model::ds_expr(e@, crate::desugar_model::dstate(old(self).state), fuel), r is Ok, r->Ok_0@, r->Err_0, crate::desugar_model::dstate(final(self).state)),
        decreases fuel, crate::mapper_size::sz_expr(e@), 5nat,
    {
        proof {
            reveal(crate::mapper_spec::rl_expr);
            reveal(crate::sugar::expr_free);
            reveal(crate::desugar_model::ds_expr);
        }
        let f = fuel;
        match e {
            Expr::Call(x, args, opt) => {
                let nx = match self.map_expression(*x, f) { Ok(v) => v, Err(e) => { return Err(e); } };
                let na = match self.map_args(args, f) { Ok(v) => v, Err(e) => { return Err(e); } };
                Ok(Expr::Call(Box::new(nx), na, opt))
            },
            other => Ok(other),
        }
    }

    /// Maps a `new`: the callee, then the arguments.
    pub(crate) fn map_new_expr(&mut self, e: Expr, fuel: u64) -> (r: Result<Expr, MapError>)
        requires
            e@ is New,
        ensures
            keeps(*old(self), *final(self)),
            follows(*old(self), *final(self), rl_expr(e@, lbl(*old(self))), r is Ok, r->Ok_0@, r matches Err(MapError::Unsupported)),
            crate::sugar::desugaring(*old(self)) && r is Ok ==> crate::sugar::expr_free(r->Ok_0@),
            crate::sugar::desugaring(*old(self)) ==> crate::desugar_model::tracks(crate::desugar_model::ds_expr(e@, crate::desugar_model::dstate(old(self).state), fuel), r is Ok, r->Ok_0@, r->Err_0, crate::desugar_model::dstate(final(self).state)),
        decreases fuel, crate::mapper_size::sz_expr(e@), 5nat,
    {
        proof {
            reveal(crate::mapper_spec::rl_expr);
            reveal(crate::sugar::expr_free);
            reveal(crate::desugar_model::ds_expr);
        }
        let f = fuel;
        match e {
            Expr::New(x, args) => {
                let nx = match self.map_expression(*x, f) { Ok(v) => v, Err(e) => { return Err(e); } };
                let na = match self.map_args(args, f) { Ok(v) => v, Err(e) => { return Err(e); } };
                Ok(Expr::New(Box::new(nx), na))
            },
            other => Ok(other),
        }
    }

    /// Maps an optional chain.
    pub(crate) fn map_chain_expr(&mut self, e: Expr, fuel: u64) -> (r: Result<Expr, MapError>)
        requires
            e@ is Chain,
        ensures
            keeps(*old(self), *final(self)),
            follows(*old(self), *final(self), rl_expr(e@, lbl(*old(self))), r is Ok, r->Ok_0@, r matches Err(MapError::Unsupported)),
            crate::sugar::desugaring(*old(self)) && r is Ok ==> crate::sugar::expr_free(r->Ok_0@),
            crate::sugar::desugaring(*old(self)) ==> crate::desugar_model::tracks(crate::desugar_model::ds_expr(e@, crate::desugar_model::dstate(old(self).state), fuel), r is Ok, r->Ok_0@, r->Err_0, crate::desugar_model::dstate(final(self).state)),
        decreases fuel, crate::mapper_size::sz_expr(e@), 5nat,
    {
        proof {
            reveal(crate::mapper_spec::rl_expr);
            reveal(crate::sugar::expr_free);
            reveal(crate::desugar_model::ds_expr);
        }
        let f = fuel;
        match e {
            Expr::Chain(c) => {
                Ok(Expr::Chain(Box::new(match self.map_chain(*c, f) { Ok(v) => v, Err(e) => { return Err(e); } })))
            },
            other => Ok(other),
        }
    }

    /// Maps a member expression.
    pub(crate) fn map_member_expr(&mut self, e: Expr, fuel: u64) -> (r: Result<Expr, MapError>)
        requires
            e@ is Member,
        ensures
            keeps(*old(self), *final(self)),
            follows(*old(self), *final(self), rl_expr(e@, lbl(*old(self))), r is Ok, r->Ok_0@, r matches Err(MapError::Unsupported)),
            crate::sugar::desugaring(*old(self)) && r is Ok ==> crate::sugar::expr_free(r->Ok_0@),
            crate::sugar::desugaring(*old(self)) ==> crate::desugar_model::tracks(crate::desugar_model::ds_expr(e@, crate::desugar_model::dstate(old(self).state), fuel), r is Ok, r->Ok_0@, r->Err_0, crate::desugar_model::dstate(final(self).state)),
        decreases fuel, crate::mapper_size::sz_expr(e@), 5nat,
    {
        proof {
            reveal(crate::mapper_spec::rl_expr);
            reveal(crate::sugar::expr_free);
            reveal(crate::desugar_model::ds_expr);
        }
        let f = fuel;
        match e {
            Expr::Member(m) => {
                Ok(Expr::Member(Box::new(match self.map_member(*m, f) { Ok(v) => v, Err(e) => { return Err(e); } })))
            },
            other => Ok(other),
        }
    }

    /// Maps a conditional expression.
    pub(crate) fn map_conditional_expr(&mut self, e: Expr, fuel: u64) -> (r: Result<Expr, MapError>)
        requires
            e@ is Conditional,
        ensures
            keeps(*old(self), *final(self)),
            follows(*old(self), *final(self), rl_expr(e@, lbl(*old(self))), r is Ok, r->Ok_0@, r matches Err(MapError::Unsupported)),
            crate::sugar::desugaring(*old(self)) && r is Ok ==> crate::sugar::expr_free(r->Ok_0@),
            crate::sugar::desugaring(*old(self)) ==> crate::desugar_model::tracks(crate::desugar_model::ds_expr(e@, crate::desugar_model::dstate(old(self).state), fuel), r is Ok, r->Ok_0@, r->Err_0, crate::desugar_model::dstate(final(self).state)),
        decreases fuel, crate::mapper_size::sz_expr(e@), 5nat,
    {
        proof {
            reveal(crate::mapper_spec::rl_expr);
            reveal(crate::sugar::expr_free);
            reveal(crate::desugar_model::ds_expr);
        }
        let f = fuel;
        match e {
            Expr::Conditional(x, y, z) => {
                let nx = match self.map_expression(*x, f) { Ok(v) => v, Err(e) => { return Err(e); } };
                let ny = match self.map_expression(*y, f) { Ok(v) => v, Err(e) => { return Err(e); } };
                let nz = match self.map_expression(*z, f) { Ok(v) => v, Err(e) => { return Err(e); } };
                Ok(Expr::Conditional(Box::new(nx), Box::new(ny), Box::new(nz)))
            },
            other => Ok(other),
        }
    }

    /// Maps a sequence expression.
    pub(crate) fn map_sequence_expr(&mut self, e: Expr, fuel: u64) -> (r: Result<Expr, MapError>)
        requires
            e@ is Sequence,
        ensures
            keeps(*old(self), *final(self)),
            follows(*old(self), *final(self), rl_expr(e@, lbl(*old(self))), r is Ok, r->Ok_0@, r matches Err(MapError::Unsupported)),
            crate::sugar::desugaring(*old(self)) && r is Ok ==> crate::sugar::expr_free(r->Ok_0@),
            crate::sugar::desugaring(*old(self)) ==> crate::desugar_model::tracks(crate::desugar_model::ds_expr(e@, crate::desugar_model::dstate(old(self).state), fuel), r is Ok, r->Ok_0@, r->Err_0, crate::desugar_model::dstate(final(self).state)),
        decreases fuel, crate::mapper_size::sz_expr(e@), 5nat,
    {
        proof {
            reveal(crate::mapper_spec::rl_expr);
            reveal(crate::sugar::expr_free);
            reveal(crate::desugar_model::ds_expr);
        }
        let f = fuel;
        match e {
            Expr::Sequence(es) => {
                Ok(Expr::Sequence(match self.map_exprs(es, f) { Ok(v) => v, Err(e) => { return Err(e); } }))
            },
            other => Ok(other),
        }
    }

    /// Maps a tagged template: the tag, then the interpolated expressions.
    pub(crate) fn map_tagged_expr(&mut self, e: Expr, fuel: u64) -> (r: Result<Expr, MapError>)
        requires
            e@ is TaggedTemplate,
        ensures
            keeps(*old(self), *final(self)),
            follows(*old(self), *final(self), rl_expr(e@, lbl(*old(self))), r is Ok, r->Ok_0@, r matches Err(MapError::Unsupported)),
            crate::sugar::desugaring(*old(self)) && r is Ok ==> crate::sugar::expr_free(r->Ok_0@),
            crate::sugar::desugaring(*old(self)) ==> crate::desugar_model::tracks(crate::desugar_model::ds_expr(e@, crate::desugar_model::dstate(old(self).state), fuel), r is Ok, r->Ok_0@, r->Err_0, crate::desugar_model::dstate(final(self).state)),
        decreases fuel, crate::mapper_size::sz_expr(e@), 5nat,
    {
        proof {
            reveal(crate::mapper_spec::rl_expr);
            reveal(crate::sugar::expr_free);
            reveal(crate::desugar_model::ds_expr);
        }
        let f = fuel;
        let ghost ev = e@;
        match e {
            Expr::TaggedTemplate(t, q) => {
                let ghost tv = crate::spec_ast::v_template(q);
                let ghost l = lbl(*self);
                proof {
                    assert(ev == SExpr::TaggedTemplate(Box::new(t@), tv));
                }
                let nt = match self.map_expression(*t, f) { Ok(v) => v, Err(e) => { return Err(e); } };
                let Template { quasis, exprs } = q;
                proof {
                    assert(tv.exprs == v_exprs(exprs@));
                }
                let ne = match self.map_exprs(exprs, f) { Ok(v) => v, Err(e) => { return Err(e); } };
                let nq = Template { quasis, exprs: ne };
                proof {
                    assert(crate::spec_ast::v_template(nq) == crate::spec_ast::STemplate { quasis: tv.quasis, exprs: v_exprs(ne@) });
                }
                Ok(Expr::TaggedTemplate(Box::new(nt), nq))
            },
            other => Ok(other),
        }
    }

    /// Maps the argument of a `yield`.
    pub(crate) fn map_yield_expr(&mut self, e: Expr, fuel: u64) -> (r: Result<Expr, MapError>)
        requires
            e@ is Yield,
        ensures
            keeps(*old(self), *final(self)),
            follows(*old(self), *final(self), rl_expr(e@, lbl(*old(self))), r is Ok, r->Ok_0@, r matches Err(MapError::Unsupported)),
            crate::sugar::desugaring(*old(self)) && r is Ok ==> crate::sugar::expr_free(r->Ok_0@),
            crate::sugar::desugaring(*old(self)) ==> crate::desugar_model::tracks(crate::desugar_model::ds_expr(e@, crate::desugar_model::dstate(old(self).state), fuel), r is Ok, r->Ok_0@, r->Err_0, crate::desugar_model::dstate(final(self).state)),
        decreases fuel, crate::mapper_size::sz_expr(e@), 5nat,
    {
        proof {
            reveal(crate::mapper_spec::rl_expr);
            reveal(crate::sugar::expr_free);
            reveal(crate::desugar_model::ds_expr);
        }
        let f = fuel;
        match e {
            Expr::Yield(Some(x), d) => {
                Ok(Expr::Yield(Some(Box::new(match self.map_expression(*x, f) { Ok(v) => v, Err(e) => { return Err(e); } })), d))
            },
            other => Ok(other),
        }
    }

    /// Maps a parenthesized expression.
    pub(crate) fn map_paren_expr(&mut self, e: Expr, fuel: u64) -> (r: Result<Expr, MapError>)
        requires
            e@ is Paren,
        ensures
            keeps(*old(self), *final(self)),
            follows(*old(self), *final(self), rl_expr(e@, lbl(*old(self))), r is Ok, r->Ok_0@, r matches Err(MapError::Unsupported)),
            crate::sugar::desugaring(*old(self)) && r is Ok ==> crate::sugar::expr_free(r->Ok_0@),
            crate::sugar::desugaring(*old(self)) ==> crate::desugar_model::tracks(crate::desugar_model::ds_expr(e@, crate::desugar_model::dstate(old(self).state), fuel), r is Ok, r->Ok_0@, r->Err_0, crate::desugar_model::dstate(final(self).state)),
        decreases fuel, crate::mapper_size::sz_expr(e@), 5nat,
    {
        proof {
            reveal(crate::mapper_spec::rl_expr);
            reveal(crate::sugar::expr_free);
            reveal(crate::desugar_model::ds_expr);
        }
        let f = fuel;
        match e {
            Expr::Paren(x) => {
                Ok(Expr::Paren(Box::new(match self.map_expression(*x, f) { Ok(v) => v, Err(e) => { return Err(e); } })))
            },
            other => Ok(other),
        }
    }

    /// Maps the source of an `import()`.
    pub(crate) fn map_import_expr(&mut self, e: Expr, fuel: u64) -> (r: Result<Expr, MapError>)
        requires
            e@ is Import,
        ensures
            keeps(*old(self), *final(self)),
            follows(*old(self), *final(self), rl_expr(e@, lbl(*old(self))), r is Ok, r->Ok_0@, r matches Err(MapError::Unsupported)),
            crate::sugar::desugaring(*old(self)) && r is Ok ==> crate::sugar::expr_free(r->Ok_0@),
            crate::sugar::desugaring(*old(self)) ==> crate::desugar_model::tracks(crate::desugar_model::ds_expr(e@, crate::desugar_model::dstate(old(self).state), fuel), r is Ok, r->Ok_0@, r->Err_0, crate::desugar_model::dstate(final(self).state)),
        decreases fuel, crate::mapper_size::sz_expr(e@), 5nat,
    {
        proof {
            reveal(crate::mapper_spec::rl_expr);
            reveal(crate::sugar::expr_free);
            reveal(crate::desugar_model::ds_expr);
        }
        let f = fuel;
        match e {
            Expr::Import(x, args) => {
                Ok(Expr::Import(Box::new(match self.map_expression(*x, f) { Ok(v) => v, Err(e) => { return Err(e); } }), args))
            },
            other => Ok(other),
        }
    }

}

} // verus!
