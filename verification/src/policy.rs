//! The validation policy: hard limits, block lists, and the deployment's own
//! bounded vocabulary.

use vstd::prelude::*;

use crate::text::{copy_texts, texts};

verus! {

/// Default maximum allowed LIMIT value for queries.
pub const DEFAULT_MAX_LIMIT: u64 = 10_000;

/// Schema qualifiers refused by default.
pub const BLOCKED_SCHEMA_QUALIFIERS: [&'static str; 2] = ["information_schema", "pg_catalog"];

/// Identifier prefixes refused by default.
pub const BLOCKED_IDENTIFIER_PREFIXES: [&'static str; 4] = [
    "binary_upgrade_",
    "dblink",
    "lo_",
    "pg_",
];

/// Bare words refused by default.
pub const BLOCKED_BARE_IDENTIFIERS: [&'static str; 1] = ["user"];

/// Function names refused by default.
pub const BLOCKED_FUNCTION_IDENTIFIERS: [&'static str; 1] = ["version"];

/// Identifiers refused by default wherever they stand.
pub const BLOCKED_IDENTIFIERS: [&'static str; 130] = [
    "aclexplode",
    "col_description",
    "current_catalog",
    "current_database",
    "current_query",
    "current_role",
    "current_schema",
    "current_schemas",
    "current_setting",
    "current_user",
    "cursor_to_xml",
    "cursor_to_xmlschema",
    "database_to_xml",
    "database_to_xml_and_xmlschema",
    "database_to_xmlschema",
    "dblink",
    "dblink_build_sql_delete",
    "dblink_build_sql_insert",
    "dblink_build_sql_update",
    "dblink_cancel_query",
    "dblink_close",
    "dblink_connect",
    "dblink_connect_u",
    "dblink_current_query",
    "dblink_disconnect",
    "dblink_error_message",
    "dblink_exec",
    "dblink_fetch",
    "dblink_get_connections",
    "dblink_get_notify",
    "dblink_get_pkey",
    "dblink_get_result",
    "dblink_is_busy",
    "dblink_open",
    "dblink_send_query",
    "format_type",
    "getpgusername",
    "has_any_column_privilege",
    "has_column_privilege",
    "has_database_privilege",
    "has_foreign_data_wrapper_privilege",
    "has_function_privilege",
    "has_language_privilege",
    "has_largeobject_privilege",
    "has_parameter_privilege",
    "has_schema_privilege",
    "has_sequence_privilege",
    "has_server_privilege",
    "has_table_privilege",
    "has_tablespace_privilege",
    "has_type_privilege",
    "inet_server_addr",
    "inet_server_port",
    "lastval",
    "lo_close",
    "lo_creat",
    "lo_create",
    "lo_export",
    "lo_from_bytea",
    "lo_get",
    "lo_import",
    "lo_lseek",
    "lo_lseek64",
    "lo_open",
    "lo_put",
    "lo_tell",
    "lo_tell64",
    "lo_truncate",
    "lo_truncate64",
    "lo_unlink",
    "loread",
    "lowrite",
    "nextval",
    "obj_description",
    "pg_advisory_lock",
    "pg_advisory_lock_shared",
    "pg_advisory_unlock",
    "pg_advisory_unlock_all",
    "pg_advisory_unlock_shared",
    "pg_advisory_xact_lock",
    "pg_advisory_xact_lock_shared",
    "pg_backend_pid",
    "pg_extension",
    "pg_roles",
    "pg_shadow",
    "pg_stat_activity",
    "pg_stat_database",
    "pg_stat_user_indexes",
    "pg_stat_user_tables",
    "pg_try_advisory_lock",
    "pg_try_advisory_lock_shared",
    "pg_try_advisory_xact_lock",
    "pg_try_advisory_xact_lock_shared",
    "pg_user",
    "pg_views",
    "repeat",
    "query_to_xml",
    "query_to_xml_and_xmlschema",
    "query_to_xmlschema",
    "regclass",
    "regcollation",
    "regconfig",
    "regdictionary",
    "regnamespace",
    "regoper",
    "regoperator",
    "regproc",
    "regprocedure",
    "regrole",
    "regtype",
    "row_security_active",
    "schema_to_xml",
    "schema_to_xml_and_xmlschema",
    "schema_to_xmlschema",
    "session_user",
    "set_config",
    "setval",
    "shobj_description",
    "system_user",
    "table_to_xml",
    "table_to_xml_and_xmlschema",
    "table_to_xmlschema",
    "to_regclass",
    "ts_rewrite",
    "ts_stat",
    "to_regnamespace",
    "to_regoper",
    "to_regoperator",
    "to_regproc",
    "to_regprocedure",
];

/// The validation policy: hard limits, block lists, and the deployment's own
/// bounded vocabulary.
///
/// [`Policy::default`] is the strictest useful posture: generic PostgreSQL
/// block lists, no table-valued functions admitted, aggregate aliases
/// required. Grow the allowlists deliberately; every entry is attack surface.
#[derive(Debug)]
pub struct Policy {
    /// Maximum allowed LIMIT and OFFSET value.
    pub max_limit: u64,
    /// Schema qualifiers refused when followed by `.` (e.g. `pg_catalog`).
    pub blocked_schema_qualifiers: Vec<String>,
    /// Identifiers refused anywhere they appear.
    pub blocked_identifiers: Vec<String>,
    /// Identifier prefixes refused anywhere they appear (e.g. `pg_`).
    pub blocked_identifier_prefixes: Vec<String>,
    /// Identifiers refused only as bare words (e.g. `user`).
    pub blocked_bare_identifiers: Vec<String>,
    /// Identifiers refused only when called as functions (e.g. `version`).
    pub blocked_function_identifiers: Vec<String>,
    /// Fully-qualified, lowercase, dotted names of table-valued functions that
    /// are internally row-capped and therefore admissible in FROM (e.g.
    /// `"myschema.search"`). Only exempt functions whose own SQL hard-caps
    /// their result cardinality: this is a security control, not a
    /// convenience feature.
    pub bounded_table_functions: Vec<String>,
    /// Qualified names additionally permitted as LATERAL function join
    /// factors (`regexp_split_to_table` is always permitted there).
    pub safe_lateral_functions: Vec<String>,
    /// Additional set-returning function names to refuse inside expressions,
    /// beyond the built-in PostgreSQL list.
    pub set_returning_functions: Vec<String>,
    /// Require aggregate-shaped output columns to carry an alias.
    pub require_aggregate_aliases: bool,
}

/// What a policy says, over mathematical sequences.
pub struct PolicyModel {
    pub max_limit: u64,
    pub blocked_schema_qualifiers: Seq<Seq<char>>,
    pub blocked_identifiers: Seq<Seq<char>>,
    pub blocked_identifier_prefixes: Seq<Seq<char>>,
    pub blocked_bare_identifiers: Seq<Seq<char>>,
    pub blocked_function_identifiers: Seq<Seq<char>>,
    pub bounded_table_functions: Seq<Seq<char>>,
    pub safe_lateral_functions: Seq<Seq<char>>,
    pub set_returning_functions: Seq<Seq<char>>,
    pub require_aggregate_aliases: bool,
}

impl View for Policy {
    type V = PolicyModel;

    open spec fn view(&self) -> PolicyModel {
        PolicyModel {
            max_limit: self.max_limit,
            blocked_schema_qualifiers: texts(self.blocked_schema_qualifiers@),
            blocked_identifiers: texts(self.blocked_identifiers@),
            blocked_identifier_prefixes: texts(self.blocked_identifier_prefixes@),
            blocked_bare_identifiers: texts(self.blocked_bare_identifiers@),
            blocked_function_identifiers: texts(self.blocked_function_identifiers@),
            bounded_table_functions: texts(self.bounded_table_functions@),
            safe_lateral_functions: texts(self.safe_lateral_functions@),
            set_returning_functions: texts(self.set_returning_functions@),
            require_aggregate_aliases: self.require_aggregate_aliases,
        }
    }
}

impl Clone for Policy {
    fn clone(&self) -> (r: Self)
        ensures
            r@ == self@,
    {
        Policy {
            max_limit: self.max_limit,
            blocked_schema_qualifiers: copy_texts(&self.blocked_schema_qualifiers),
            blocked_identifiers: copy_texts(&self.blocked_identifiers),
            blocked_identifier_prefixes: copy_texts(&self.blocked_identifier_prefixes),
            blocked_bare_identifiers: copy_texts(&self.blocked_bare_identifiers),
            blocked_function_identifiers: copy_texts(&self.blocked_function_identifiers),
            bounded_table_functions: copy_texts(&self.bounded_table_functions),
            safe_lateral_functions: copy_texts(&self.safe_lateral_functions),
            set_returning_functions: copy_texts(&self.set_returning_functions),
            require_aggregate_aliases: self.require_aggregate_aliases,
        }
    }
}

/// The characters of each listed literal.
pub open spec fn listed(list: Seq<&str>) -> Seq<Seq<char>> {
    list.map_values(|s: &str| s@)
}

/// The policy that [`Policy::default`] gives.
pub open spec fn default_policy() -> PolicyModel {
    PolicyModel {
        max_limit: DEFAULT_MAX_LIMIT,
        blocked_schema_qualifiers: listed(BLOCKED_SCHEMA_QUALIFIERS@),
        blocked_identifiers: listed(BLOCKED_IDENTIFIERS@),
        blocked_identifier_prefixes: listed(BLOCKED_IDENTIFIER_PREFIXES@),
        blocked_bare_identifiers: listed(BLOCKED_BARE_IDENTIFIERS@),
        blocked_function_identifiers: listed(BLOCKED_FUNCTION_IDENTIFIERS@),
        bounded_table_functions: Seq::empty(),
        safe_lateral_functions: Seq::empty(),
        set_returning_functions: Seq::empty(),
        require_aggregate_aliases: true,
    }
}

/// Owned copies of the listed literals.
fn owned(list: &[&str]) -> (r: Vec<String>)
    ensures
        texts(r@) == listed(list@),
{
    let mut out: Vec<String> = Vec::new();
    let mut i: usize = 0;
    while i < list.len()
        invariant
            i <= list.len(),
            out.len() == i,
            forall|j: int| 0 <= j < i ==> (#[trigger] out@[j])@ == list@[j]@,
        decreases list.len() - i,
    {
        out.push(list[i].to_string());
        i += 1;
    }
    assert(texts(out@) =~= listed(list@));
    out
}

/// Whether one of the listed literals is `wanted`.
pub fn names(list: &[&str], wanted: &str) -> (r: bool)
    ensures
        r == listed(list@).contains(wanted@),
{
    let mut i: usize = 0;
    while i < list.len()
        invariant
            i <= list.len(),
            forall|j: int| 0 <= j < i ==> (#[trigger] list@[j])@ != wanted@,
        decreases list.len() - i,
    {
        if list[i].eq(wanted) {
            assert(listed(list@)[i as int] == wanted@);
            return true;
        }
        i += 1;
    }
    false
}

impl Default for Policy {
    fn default() -> (r: Self)
        ensures
            r@ == default_policy(),
    {
        let r = Policy {
            max_limit: DEFAULT_MAX_LIMIT,
            blocked_schema_qualifiers: owned(&BLOCKED_SCHEMA_QUALIFIERS),
            blocked_identifiers: owned(&BLOCKED_IDENTIFIERS),
            blocked_identifier_prefixes: owned(&BLOCKED_IDENTIFIER_PREFIXES),
            blocked_bare_identifiers: owned(&BLOCKED_BARE_IDENTIFIERS),
            blocked_function_identifiers: owned(&BLOCKED_FUNCTION_IDENTIFIERS),
            bounded_table_functions: Vec::new(),
            safe_lateral_functions: Vec::new(),
            set_returning_functions: Vec::new(),
            require_aggregate_aliases: true,
        };
        assert(r@.bounded_table_functions =~= Seq::empty());
        assert(r@.safe_lateral_functions =~= Seq::empty());
        assert(r@.set_returning_functions =~= Seq::empty());
        r
    }
}

} // verus!
