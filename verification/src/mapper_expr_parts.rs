//! The mapper on the parts of expressions: arguments, elements, properties,
//! patterns, declarations, targets, functions and classes.

use vstd::prelude::*;
use crate::ast::{
    Arg, ArrayElem, Arrow, ArrowBody, AssignTarget, ChainElem, Class, ClassElem, Declarator,
    Expr, ForInit, ForLeft, Function, Member, ObjProp, Pattern, PropKey, SimpleTarget, VarDecl,
};
use crate::mapper::{follows, keeps, lbl, structural, MapError, Mapper, StmtVisitor};
use crate::mapper_spec::{
    rl_arg, rl_array_elem, rl_arrow, rl_chain, rl_class, rl_class_elem, rl_declarator,
    rl_for_init, rl_for_left, rl_function, rl_member, rl_obj_prop, rl_opt_expr, rl_opt_pattern,
    rl_pattern, rl_simple_target, rl_target, rl_var_decl,
};
use crate::spec_ast::{
    v_arg, v_array_elem, v_arrow, v_chain, v_class, v_class_elem, v_declarator, v_for_left,
    v_function, v_member, v_obj_prop, v_opt_expr, v_opt_pattern, v_simple_target, v_target,
    v_var_decl,
};
use crate::transforms::stmt_for_n::v_for_init;

verus! {

impl Mapper {
    /// Maps an optional expression.
    pub(crate) fn map_opt_expr(&mut self, e: Option<Expr>, fuel: u64) -> (r: Result<Option<Expr>, MapError>)
        ensures
            keeps(*old(self), *final(self)),
            follows(*old(self), *final(self), rl_opt_expr(v_opt_expr(e), lbl(*old(self))), r is Ok, v_opt_expr(r->Ok_0), r matches Err(MapError::Unsupported)),
            crate::sugar::desugaring(*old(self)) && r is Ok ==> crate::sugar::opt_expr_free(v_opt_expr(r->Ok_0)),
            crate::sugar::desugaring(*old(self)) ==> crate::desugar_model::tracks(crate::desugar_model::ds_opt_expr(v_opt_expr(e), crate::desugar_model::dstate(old(self).state), fuel), r is Ok, v_opt_expr(r->Ok_0), r->Err_0, crate::desugar_model::dstate(final(self).state)),
        decreases fuel, crate::mapper_size::sz_opt_expr(v_opt_expr(e)), 3nat,
    {
        match e {
            Some(x) => {
                let nx = match self.map_expression(x, fuel) { Ok(v) => v, Err(e) => { return Err(e); } };
                Ok(Some(nx))
            },
            None => Ok(None),
        }
    }

    /// Maps a call argument.
    pub(crate) fn map_arg(&mut self, a: Arg, fuel: u64) -> (r: Result<Arg, MapError>)
        ensures
            keeps(*old(self), *final(self)),
            follows(*old(self), *final(self), rl_arg(v_arg(a), lbl(*old(self))), r is Ok, v_arg(r->Ok_0), r matches Err(MapError::Unsupported)),
            crate::sugar::desugaring(*old(self)) && r is Ok ==> crate::sugar::arg_free(v_arg(r->Ok_0)),
            crate::sugar::desugaring(*old(self)) ==> crate::desugar_model::tracks(crate::desugar_model::ds_arg(v_arg(a), crate::desugar_model::dstate(old(self).state), fuel), r is Ok, v_arg(r->Ok_0), r->Err_0, crate::desugar_model::dstate(final(self).state)),
        decreases fuel, crate::mapper_size::sz_arg(v_arg(a)), 3nat,
    {
        match a {
            Arg::Expr(e) => {
                let ne = match self.map_expression(e, fuel) { Ok(v) => v, Err(e) => { return Err(e); } };
                Ok(Arg::Expr(ne))
            },
            Arg::Spread(e) => {
                let ne = match self.map_expression(e, fuel) { Ok(v) => v, Err(e) => { return Err(e); } };
                Ok(Arg::Spread(ne))
            },
        }
    }

    /// Maps an array element.
    pub(crate) fn map_array_elem(&mut self, a: ArrayElem, fuel: u64) -> (r: Result<ArrayElem, MapError>)
        ensures
            keeps(*old(self), *final(self)),
            follows(*old(self), *final(self), rl_array_elem(v_array_elem(a), lbl(*old(self))), r is Ok, v_array_elem(r->Ok_0), r matches Err(MapError::Unsupported)),
            crate::sugar::desugaring(*old(self)) && r is Ok ==> crate::sugar::array_elem_free(v_array_elem(r->Ok_0)),
            crate::sugar::desugaring(*old(self)) ==> crate::desugar_model::tracks(crate::desugar_model::ds_array_elem(v_array_elem(a), crate::desugar_model::dstate(old(self).state), fuel), r is Ok, v_array_elem(r->Ok_0), r->Err_0, crate::desugar_model::dstate(final(self).state)),
        decreases fuel, crate::mapper_size::sz_array_elem(v_array_elem(a)), 3nat,
    {
        match a {
            ArrayElem::Expr(e) => {
                let ne = match self.map_expression(e, fuel) { Ok(v) => v, Err(e) => { return Err(e); } };
                Ok(ArrayElem::Expr(ne))
            },
            ArrayElem::Spread(e) => {
                let ne = match self.map_expression(e, fuel) { Ok(v) => v, Err(e) => { return Err(e); } };
                Ok(ArrayElem::Spread(ne))
            },
            ArrayElem::Hole => Ok(ArrayElem::Hole),
        }
    }

    /// Maps an object-literal property: a computed-expression key and the
    /// value.
    pub(crate) fn map_obj_prop(&mut self, p: ObjProp, fuel: u64) -> (r: Result<ObjProp, MapError>)
        ensures
            keeps(*old(self), *final(self)),
            follows(*old(self), *final(self), rl_obj_prop(v_obj_prop(p), lbl(*old(self))), r is Ok, v_obj_prop(r->Ok_0), r matches Err(MapError::Unsupported)),
            crate::sugar::desugaring(*old(self)) && r is Ok ==> crate::sugar::obj_prop_free(v_obj_prop(r->Ok_0)),
            crate::sugar::desugaring(*old(self)) ==> crate::desugar_model::tracks(crate::desugar_model::ds_obj_prop(v_obj_prop(p), crate::desugar_model::dstate(old(self).state), fuel), r is Ok, v_obj_prop(r->Ok_0), r->Err_0, crate::desugar_model::dstate(final(self).state)),
        decreases fuel, crate::mapper_size::sz_obj_prop(v_obj_prop(p)), 3nat,
    {
        match p {
            ObjProp::Prop { kind, key, value, method, shorthand, computed } => {
                let nk = match key {
                    PropKey::Expr(e) => {
                        let ne = match self.map_expression(*e, fuel) { Ok(v) => v, Err(e) => { return Err(e); } };
                        PropKey::Expr(Box::new(ne))
                    },
                    other => other,
                };
                let nv = match self.map_expression(value, fuel) { Ok(v) => v, Err(e) => { return Err(e); } };
                Ok(ObjProp::Prop { kind, key: nk, value: nv, method, shorthand, computed })
            },
            ObjProp::Spread(e) => {
                let ne = match self.map_expression(e, fuel) { Ok(v) => v, Err(e) => { return Err(e); } };
                Ok(ObjProp::Spread(ne))
            },
        }
    }

    /// Maps a class element: a property's value, a method's function.
    pub(crate) fn map_class_elem(&mut self, c: ClassElem, fuel: u64) -> (r: Result<ClassElem, MapError>)
        ensures
            keeps(*old(self), *final(self)),
            follows(*old(self), *final(self), rl_class_elem(v_class_elem(c), lbl(*old(self))), r is Ok, v_class_elem(r->Ok_0), r matches Err(MapError::Unsupported)),
            crate::sugar::desugaring(*old(self)) && r is Ok ==> crate::sugar::class_elem_free(v_class_elem(r->Ok_0)),
            crate::sugar::desugaring(*old(self)) ==> crate::desugar_model::tracks(crate::desugar_model::ds_class_elem(v_class_elem(c), crate::desugar_model::dstate(old(self).state), fuel), r is Ok, v_class_elem(r->Ok_0), r->Err_0, crate::desugar_model::dstate(final(self).state)),
        decreases fuel, crate::mapper_size::sz_class_elem(v_class_elem(c)), 3nat,
    {
        match c {
            ClassElem::Property { key, value, computed, is_static } => {
                let nv = match self.map_opt_expr(value, fuel) { Ok(v) => v, Err(e) => { return Err(e); } };
                Ok(ClassElem::Property { key, value: nv, computed, is_static })
            },
            ClassElem::Method { key, kind, value, computed, is_static } => {
                let f1 = match self.map_function(value, fuel) { Ok(v) => v, Err(e) => { return Err(e); } };
                Ok(ClassElem::Method { key, kind, value: f1, computed, is_static })
            },
            ClassElem::Other(h) => Ok(ClassElem::Other(h)),
        }
    }

    /// Maps an optional pattern.
    pub(crate) fn map_opt_pattern(&mut self, p: Option<Pattern>, fuel: u64) -> (r: Result<Option<Pattern>, MapError>)
        ensures
            keeps(*old(self), *final(self)),
            follows(*old(self), *final(self), rl_opt_pattern(v_opt_pattern(p), lbl(*old(self))), r is Ok, v_opt_pattern(r->Ok_0), r matches Err(MapError::Unsupported)),
            crate::sugar::desugaring(*old(self)) && r is Ok ==> crate::sugar::opt_pattern_free(v_opt_pattern(r->Ok_0)),
            crate::sugar::desugaring(*old(self)) ==> crate::desugar_model::tracks(crate::desugar_model::ds_opt_pattern(v_opt_pattern(p), crate::desugar_model::dstate(old(self).state), fuel), r is Ok, v_opt_pattern(r->Ok_0), r->Err_0, crate::desugar_model::dstate(final(self).state)),
        decreases fuel, crate::mapper_size::sz_opt_pattern(v_opt_pattern(p)), 3nat,
    {
        match p {
            Some(x) => {
                let nx = match self.map_binding_pattern(x, fuel) { Ok(v) => v, Err(e) => { return Err(e); } };
                Ok(Some(nx))
            },
            None => Ok(None),
        }
    }

    /// Maps a binding pattern: array elements and defaults.
    pub(crate) fn map_binding_pattern(&mut self, p: Pattern, fuel: u64) -> (r: Result<Pattern, MapError>)
        ensures
            keeps(*old(self), *final(self)),
            follows(*old(self), *final(self), rl_pattern(p@, lbl(*old(self))), r is Ok, r->Ok_0@, r matches Err(MapError::Unsupported)),
            crate::sugar::desugaring(*old(self)) && r is Ok ==> crate::sugar::pattern_free(r->Ok_0@),
            crate::sugar::desugaring(*old(self)) ==> crate::desugar_model::tracks(crate::desugar_model::ds_pattern(p@, crate::desugar_model::dstate(old(self).state), fuel), r is Ok, r->Ok_0@, r->Err_0, crate::desugar_model::dstate(final(self).state)),
        decreases fuel, crate::mapper_size::sz_pattern(p@), 3nat,
    {
        match p {
            Pattern::Array(elems, rest) => {
                let ne = match self.map_opt_patterns(elems, fuel) { Ok(v) => v, Err(e) => { return Err(e); } };
                Ok(Pattern::Array(ne, rest))
            },
            Pattern::Assign(left, right) => {
                let nl = match self.map_binding_pattern(*left, fuel) { Ok(v) => v, Err(e) => { return Err(e); } };
                let nr = match self.map_expression(*right, fuel) { Ok(v) => v, Err(e) => { return Err(e); } };
                Ok(Pattern::Assign(Box::new(nl), Box::new(nr)))
            },
            other => Ok(other),
        }
    }

    /// Maps a declarator: its pattern, then its initializer.
    pub(crate) fn map_declarator(&mut self, d: Declarator, fuel: u64) -> (r: Result<Declarator, MapError>)
        ensures
            keeps(*old(self), *final(self)),
            follows(*old(self), *final(self), rl_declarator(v_declarator(d), lbl(*old(self))), r is Ok, v_declarator(r->Ok_0), r matches Err(MapError::Unsupported)),
            crate::sugar::desugaring(*old(self)) && r is Ok ==> crate::sugar::declarator_free(v_declarator(r->Ok_0)),
            crate::sugar::desugaring(*old(self)) ==> crate::desugar_model::tracks(crate::desugar_model::ds_declarator(v_declarator(d), crate::desugar_model::dstate(old(self).state), fuel), r is Ok, v_declarator(r->Ok_0), r->Err_0, crate::desugar_model::dstate(final(self).state)),
        decreases fuel, crate::mapper_size::sz_declarator(v_declarator(d)), 3nat,
    {
        proof {
            crate::spec_ast::lemma_v_declarator_fields(d);
            reveal(crate::mapper_spec::rl_declarator);
        }
        let Declarator { id, init } = d;
        let ni = match self.map_binding_pattern(id, fuel) { Ok(v) => v, Err(e) => { return Err(e); } };
        let ne = match self.map_opt_expr(init, fuel) { Ok(v) => v, Err(e) => { return Err(e); } };
        let res = Declarator { id: ni, init: ne };
        proof {
            crate::spec_ast::lemma_v_declarator_fields(res);
        }
        Ok(res)
    }

    /// Maps a variable declaration.
    pub(crate) fn map_variable_declaration(&mut self, d: VarDecl, fuel: u64) -> (r: Result<VarDecl, MapError>)
        ensures
            keeps(*old(self), *final(self)),
            follows(*old(self), *final(self), rl_var_decl(v_var_decl(d), lbl(*old(self))), r is Ok, v_var_decl(r->Ok_0), r matches Err(MapError::Unsupported)),
            crate::sugar::desugaring(*old(self)) && r is Ok ==> crate::sugar::var_decl_free(v_var_decl(r->Ok_0)),
            crate::sugar::desugaring(*old(self)) ==> crate::desugar_model::tracks(crate::desugar_model::ds_var_decl(v_var_decl(d), crate::desugar_model::dstate(old(self).state), fuel), r is Ok, v_var_decl(r->Ok_0), r->Err_0, crate::desugar_model::dstate(final(self).state)),
        decreases fuel, crate::mapper_size::sz_var_decl(v_var_decl(d)), 3nat,
    {
        let VarDecl { kind, decls } = d;
        let nd = match self.map_declarators(decls, fuel) { Ok(v) => v, Err(e) => { return Err(e); } };
        Ok(VarDecl { kind, decls: nd })
    }

    /// Maps the left side of a `for-in`/`for-of` header.
    pub(crate) fn map_for_left(&mut self, l: ForLeft, fuel: u64) -> (r: Result<ForLeft, MapError>)
        ensures
            keeps(*old(self), *final(self)),
            follows(*old(self), *final(self), rl_for_left(v_for_left(l), lbl(*old(self))), r is Ok, v_for_left(r->Ok_0), r matches Err(MapError::Unsupported)),
            crate::sugar::desugaring(*old(self)) && r is Ok ==> crate::sugar::for_left_free(v_for_left(r->Ok_0)),
            crate::sugar::desugaring(*old(self)) ==> crate::desugar_model::tracks(crate::desugar_model::ds_for_left(v_for_left(l), crate::desugar_model::dstate(old(self).state), fuel), r is Ok, v_for_left(r->Ok_0), r->Err_0, crate::desugar_model::dstate(final(self).state)),
        decreases fuel, crate::mapper_size::sz_for_left(v_for_left(l)), 3nat,
    {
        match l {
            ForLeft::VarDecl(d) => {
                let nd = match self.map_variable_declaration(d, fuel) { Ok(v) => v, Err(e) => { return Err(e); } };
                Ok(ForLeft::VarDecl(nd))
            },
            ForLeft::Target(t) => {
                let nt = match self.map_assignment_target(t, fuel) { Ok(v) => v, Err(e) => { return Err(e); } };
                Ok(ForLeft::Target(nt))
            },
        }
    }

    /// Maps the init part of a `for` header.
    #[verifier::spinoff_prover]
    #[verifier::rlimit(40)]
    pub(crate) fn map_for_init(&mut self, i: Option<ForInit>, fuel: u64) -> (r: Result<Option<ForInit>, MapError>)
        ensures
            keeps(*old(self), *final(self)),
            follows(*old(self), *final(self), rl_for_init(v_for_init(i), lbl(*old(self))), r is Ok, v_for_init(r->Ok_0), r matches Err(MapError::Unsupported)),
            crate::sugar::desugaring(*old(self)) ==> crate::desugar_model::tracks(crate::desugar_model::ds_for_init(v_for_init(i), crate::desugar_model::dstate(old(self).state), fuel), r is Ok, v_for_init(r->Ok_0), r->Err_0, crate::desugar_model::dstate(final(self).state)),
        decreases fuel, crate::mapper_size::sz_for_init(v_for_init(i)), 3nat,
    {
        let ghost iv = v_for_init(i);
        match i {
            Some(ForInit::Expr(e)) => {
                proof {
                    assert(iv == Some(crate::spec_ast::SForInit::Expr(e@)));
                }
                let ne = match self.map_expression(e, fuel) { Ok(v) => v, Err(e) => { return Err(e); } };
                let res = Some(ForInit::Expr(ne));
                proof {
                    assert(v_for_init(res) == Some(crate::spec_ast::SForInit::Expr(ne@)));
                }
                Ok(res)
            },
            Some(ForInit::VarDecl(d)) => {
                proof {
                    assert(iv == Some(crate::spec_ast::SForInit::VarDecl(v_var_decl(d))));
                }
                let nd = match self.map_variable_declaration(d, fuel) { Ok(v) => v, Err(e) => { return Err(e); } };
                let res = Some(ForInit::VarDecl(nd));
                proof {
                    assert(v_for_init(res) == Some(crate::spec_ast::SForInit::VarDecl(v_var_decl(nd))));
                }
                Ok(res)
            },
            None => Ok(None),
        }
    }

    /// Maps an assignment target: only member expressions are entered.
    pub(crate) fn map_assignment_target(&mut self, t: AssignTarget, fuel: u64) -> (r: Result<AssignTarget, MapError>)
        ensures
            keeps(*old(self), *final(self)),
            follows(*old(self), *final(self), rl_target(v_target(t), lbl(*old(self))), r is Ok, v_target(r->Ok_0), r matches Err(MapError::Unsupported)),
            crate::sugar::desugaring(*old(self)) && r is Ok ==> crate::sugar::target_free(v_target(r->Ok_0)),
            crate::sugar::desugaring(*old(self)) ==> crate::desugar_model::tracks(crate::desugar_model::ds_target(v_target(t), crate::desugar_model::dstate(old(self).state), fuel), r is Ok, v_target(r->Ok_0), r->Err_0, crate::desugar_model::dstate(final(self).state)),
        decreases fuel, crate::mapper_size::sz_target(v_target(t)), 3nat,
    {
        match t {
            AssignTarget::Member(m) => {
                let nm = match self.map_member(m, fuel) { Ok(v) => v, Err(e) => { return Err(e); } };
                Ok(AssignTarget::Member(nm))
            },
            other => Ok(other),
        }
    }

    /// Maps a member expression: its object, and a computed property.
    pub(crate) fn map_member(&mut self, m: Member, fuel: u64) -> (r: Result<Member, MapError>)
        ensures
            keeps(*old(self), *final(self)),
            follows(*old(self), *final(self), rl_member(v_member(m), lbl(*old(self))), r is Ok, v_member(r->Ok_0), r matches Err(MapError::Unsupported)),
            crate::sugar::desugaring(*old(self)) && r is Ok ==> crate::sugar::member_free(v_member(r->Ok_0)),
            crate::sugar::desugaring(*old(self)) ==> crate::desugar_model::tracks(crate::desugar_model::ds_member(v_member(m), crate::desugar_model::dstate(old(self).state), fuel), r is Ok, v_member(r->Ok_0), r->Err_0, crate::desugar_model::dstate(final(self).state)),
        decreases fuel, crate::mapper_size::sz_member(v_member(m)), 3nat,
    {
        match m {
            Member::Computed(o, p, opt) => {
                let no = match self.map_expression(o, fuel) { Ok(v) => v, Err(e) => { return Err(e); } };
                let np = match self.map_expression(p, fuel) { Ok(v) => v, Err(e) => { return Err(e); } };
                Ok(Member::Computed(no, np, opt))
            },
            Member::Static(o, n, opt) => {
                let no = match self.map_expression(o, fuel) { Ok(v) => v, Err(e) => { return Err(e); } };
                Ok(Member::Static(no, n, opt))
            },
            Member::Private(o, n, opt) => {
                let no = match self.map_expression(o, fuel) { Ok(v) => v, Err(e) => { return Err(e); } };
                Ok(Member::Private(no, n, opt))
            },
        }
    }

    /// Maps an optional-chain element.
    pub(crate) fn map_chain(&mut self, c: ChainElem, fuel: u64) -> (r: Result<ChainElem, MapError>)
        ensures
            keeps(*old(self), *final(self)),
            follows(*old(self), *final(self), rl_chain(v_chain(c), lbl(*old(self))), r is Ok, v_chain(r->Ok_0), r matches Err(MapError::Unsupported)),
            crate::sugar::desugaring(*old(self)) && r is Ok ==> crate::sugar::chain_free(v_chain(r->Ok_0)),
            crate::sugar::desugaring(*old(self)) ==> crate::desugar_model::tracks(crate::desugar_model::ds_chain(v_chain(c), crate::desugar_model::dstate(old(self).state), fuel), r is Ok, v_chain(r->Ok_0), r->Err_0, crate::desugar_model::dstate(final(self).state)),
        decreases fuel, crate::mapper_size::sz_chain(v_chain(c)), 3nat,
    {
        match c {
            ChainElem::Call(f, args, opt) => {
                let nf = match self.map_expression(f, fuel) { Ok(v) => v, Err(e) => { return Err(e); } };
                let na = match self.map_args(args, fuel) { Ok(v) => v, Err(e) => { return Err(e); } };
                Ok(ChainElem::Call(nf, na, opt))
            },
            ChainElem::Computed(o, p, opt) => {
                let no = match self.map_expression(o, fuel) { Ok(v) => v, Err(e) => { return Err(e); } };
                let np = match self.map_expression(p, fuel) { Ok(v) => v, Err(e) => { return Err(e); } };
                Ok(ChainElem::Computed(no, np, opt))
            },
            ChainElem::Static(o, n, opt) => {
                let no = match self.map_expression(o, fuel) { Ok(v) => v, Err(e) => { return Err(e); } };
                Ok(ChainElem::Static(no, n, opt))
            },
        }
    }

    /// Maps the operand of `++`/`--`: the parts of a member operand.
    pub(crate) fn map_simple_target(&mut self, t: SimpleTarget, fuel: u64) -> (r: Result<SimpleTarget, MapError>)
        ensures
            keeps(*old(self), *final(self)),
            follows(*old(self), *final(self), rl_simple_target(v_simple_target(t), lbl(*old(self))), r is Ok, v_simple_target(r->Ok_0), r matches Err(MapError::Unsupported)),
            crate::sugar::desugaring(*old(self)) && r is Ok ==> crate::sugar::simple_target_free(v_simple_target(r->Ok_0)),
            crate::sugar::desugaring(*old(self)) ==> crate::desugar_model::tracks(crate::desugar_model::ds_simple_target(v_simple_target(t), crate::desugar_model::dstate(old(self).state), fuel), r is Ok, v_simple_target(r->Ok_0), r->Err_0, crate::desugar_model::dstate(final(self).state)),
        decreases fuel, crate::mapper_size::sz_simple_target(v_simple_target(t)), 3nat,
    {
        match t {
            SimpleTarget::Computed(o, p, opt) => {
                let no = match self.map_expression(o, fuel) { Ok(v) => v, Err(e) => { return Err(e); } };
                let np = match self.map_expression(p, fuel) { Ok(v) => v, Err(e) => { return Err(e); } };
                Ok(SimpleTarget::Computed(no, np, opt))
            },
            SimpleTarget::Static(o, n, opt) => {
                let no = match self.map_expression(o, fuel) { Ok(v) => v, Err(e) => { return Err(e); } };
                Ok(SimpleTarget::Static(no, n, opt))
            },
            other => Ok(other),
        }
    }

    /// Maps a function: the statements of its body.
    pub(crate) fn map_function(&mut self, f: Function, fuel: u64) -> (r: Result<Function, MapError>)
        ensures
            keeps(*old(self), *final(self)),
            follows(*old(self), *final(self), rl_function(v_function(f), lbl(*old(self))), r is Ok, v_function(r->Ok_0), r matches Err(MapError::Unsupported)),
            crate::sugar::desugaring(*old(self)) && r is Ok ==> crate::sugar::function_free(v_function(r->Ok_0)),
            crate::sugar::desugaring(*old(self)) ==> crate::desugar_model::tracks(crate::desugar_model::ds_function(v_function(f), crate::desugar_model::dstate(old(self).state), fuel), r is Ok, v_function(r->Ok_0), r->Err_0, crate::desugar_model::dstate(final(self).state)),
        decreases fuel, crate::mapper_size::sz_function(v_function(f)), 3nat,
    {
        let Function { id, params, rest, body, is_async, is_generator } = f;
        let nb = match self.map_stmts(body, fuel) { Ok(v) => v, Err(e) => { return Err(e); } };
        Ok(Function { id, params, rest, body: nb, is_async, is_generator })
    }

    /// Maps an arrow: its parameters, and its body when it is a block.
    pub(crate) fn map_arrow(&mut self, a: Arrow, fuel: u64) -> (r: Result<Arrow, MapError>)
        ensures
            keeps(*old(self), *final(self)),
            follows(*old(self), *final(self), rl_arrow(v_arrow(a), lbl(*old(self))), r is Ok, v_arrow(r->Ok_0), r matches Err(MapError::Unsupported)),
            crate::sugar::desugaring(*old(self)) && r is Ok ==> crate::sugar::arrow_free(v_arrow(r->Ok_0)),
            crate::sugar::desugaring(*old(self)) ==> crate::desugar_model::tracks(crate::desugar_model::ds_arrow(v_arrow(a), crate::desugar_model::dstate(old(self).state), fuel), r is Ok, v_arrow(r->Ok_0), r->Err_0, crate::desugar_model::dstate(final(self).state)),
        decreases fuel, crate::mapper_size::sz_arrow(v_arrow(a)), 3nat,
    {
        let Arrow { params, rest, body, is_async } = a;
        let np = match self.map_patterns(params, fuel) { Ok(v) => v, Err(e) => { return Err(e); } };
        match body {
            ArrowBody::Block(b) => {
                let nb = match self.map_stmts(b, fuel) { Ok(v) => v, Err(e) => { return Err(e); } };
                Ok(Arrow { params: np, rest, body: ArrowBody::Block(nb), is_async })
            },
            ArrowBody::Expr(e) => Ok(Arrow { params: np, rest, body: ArrowBody::Expr(e), is_async }),
        }
    }

    /// Maps a class: its superclass and elements.
    pub(crate) fn map_class(&mut self, c: Class, fuel: u64) -> (r: Result<Class, MapError>)
        ensures
            keeps(*old(self), *final(self)),
            follows(*old(self), *final(self), rl_class(v_class(c), lbl(*old(self))), r is Ok, v_class(r->Ok_0), r matches Err(MapError::Unsupported)),
            crate::sugar::desugaring(*old(self)) && r is Ok ==> crate::sugar::class_free(v_class(r->Ok_0)),
            crate::sugar::desugaring(*old(self)) ==> crate::desugar_model::tracks(crate::desugar_model::ds_class(v_class(c), crate::desugar_model::dstate(old(self).state), fuel), r is Ok, v_class(r->Ok_0), r->Err_0, crate::desugar_model::dstate(final(self).state)),
        decreases fuel, crate::mapper_size::sz_class(v_class(c)), 3nat,
    {
        let Class { id, super_class, body } = c;
        let ns = match self.map_opt_expr(super_class, fuel) { Ok(v) => v, Err(e) => { return Err(e); } };
        let nb = match self.map_class_elems(body, fuel) { Ok(v) => v, Err(e) => { return Err(e); } };
        Ok(Class { id, super_class: ns, body: nb })
    }

}

} // verus!
