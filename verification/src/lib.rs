pub mod ast;
pub mod desugar_model;
pub mod mapper;
pub mod mapper_cases;
pub mod mapper_catch;
pub mod mapper_children;
pub mod mapper_class_elems;
pub mod mapper_declarators;
pub mod mapper_expr;
pub mod mapper_expr_lists;
pub mod mapper_expr_parts;
pub mod mapper_lists;
pub mod mapper_laws;
pub mod mapper_size;
pub mod mapper_loops;
pub mod mapper_opt;
pub mod mapper_opt_patterns;
pub mod mapper_patterns;
pub mod mapper_spec;
pub mod mapper_state;
pub mod mapper_stmt;
pub mod mapper_switch;
pub mod pipeline;
pub mod program;
pub mod rewrite_laws;
pub mod spec_ast;
pub mod sugar;
pub mod transforms;
pub mod utils;
