//! SQL parser front end: the small internal AST, the per-backend
//! conversions into it, and the PL/pgSQL body walker.

pub mod ast;
pub mod dialect;
pub mod document;
pub mod json;
pub mod pg_agree;
pub mod pg_convert;
pub mod pg_fits;
pub mod pg_node;
pub mod pg_parse;
pub mod pg_statement;
pub mod plpgsql;
pub mod range;
pub mod sp_agree;
pub mod sp_node;
pub mod sp_parse;
pub mod sp_call;
pub mod sp_convert;
pub mod sp_guard;
