//! # pg_query_gate
//!
//! Deny-by-default validation and session hardening for serving untrusted SQL
//! on PostgreSQL.
//!
//! Four defense layers for a public SQL surface. This crate is the three
//! software layers; the fourth is SQL that is applied to the database:
//!
//! 1. **AST gate** ([`Policy::validate`]) — parse with sqlparser-rs, then
//!    refuse everything that is not one bounded, read-only SELECT (or plain
//!    EXPLAIN). Unknown constructs are denied by construction.
//! 2. **Token gate** (part of [`Policy::validate`]) — an independent screen at
//!    the token level that blocks catalog introspection and side-effect
//!    helpers, including their quoted and Unicode-escaped identifier forms.
//! 3. **Session battery** ([`session::build_setup_statements`]) — the
//!    `SET LOCAL` preamble that runs before every query: role switch, pinned
//!    `search_path`, timeouts, memory clamps, and `transaction_read_only = on`
//!    as an independent write-protection layer under the AST gate.
//! 4. **Role DDL** — the database-side floor: a minimally-privileged role and
//!    function-execution revocations, so a gap in every software layer above
//!    still hits locked doors.
//!
//! No single layer is trusted. Each is small enough to audit on its own.
//!
//! The gates read a plain tree ([`tree`]) that [`reader`] makes of what the
//! parser hands back; [`sql`] holds what is believed of the parser.

pub mod aggregates;
pub mod alias_laws;
pub mod bounds;
pub mod calls;
pub mod complaint_laws;
pub mod error_laws;
pub mod gates;
pub mod join_laws;
pub mod joins;
pub mod laws;
pub mod limit_laws;
pub mod list_laws;
pub mod model_laws;
pub mod nesting_laws;
pub mod parse_error;
pub mod policy;
pub mod read_laws;
pub mod reader;
pub mod reader_laws;
pub mod refusal;
pub mod relations;
pub mod session;
pub mod session_laws;
pub mod shape;
pub mod shape_laws;
pub mod sql;
pub mod statement_laws;
pub mod text;
pub mod text_laws;
pub mod token_laws;
pub mod tokens;
pub mod tree;
pub mod validate;

pub use aggregates::{validate_aggregate_aliases, AGGREGATE_ALIAS_ERROR};
pub use parse_error::{humanize_parse_error, ParserError};
pub use policy::{Policy, DEFAULT_MAX_LIMIT};
pub use shape::query_shape_hash;
