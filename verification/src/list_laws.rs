//! Laws on the default policy: which words it refuses, and what it admits.

use vstd::prelude::*;

use crate::policy::{
    default_policy, listed, BLOCKED_BARE_IDENTIFIERS, BLOCKED_FUNCTION_IDENTIFIERS,
    BLOCKED_IDENTIFIERS, BLOCKED_IDENTIFIER_PREFIXES, BLOCKED_SCHEMA_QUALIFIERS, DEFAULT_MAX_LIMIT,
};

verus! {

/// A listed literal is known by its characters.
pub proof fn law_listed_literals(list: Seq<&str>, i: int)
    ensures
        listed(list).len() == list.len(),
        0 <= i < list.len() ==> listed(list)[i] == list[i]@,
{
}

/// Words that tell who is connected, where to, and with which settings.
pub open spec fn shows_who_and_where(w: Seq<char>) -> bool {
    ||| w == "current_catalog"@
    ||| w == "current_database"@
    ||| w == "current_query"@
    ||| w == "current_role"@
    ||| w == "current_schema"@
    ||| w == "current_schemas"@
    ||| w == "current_setting"@
    ||| w == "current_user"@
    ||| w == "getpgusername"@
    ||| w == "inet_server_addr"@
    ||| w == "inet_server_port"@
    ||| w == "row_security_active"@
    ||| w == "session_user"@
    ||| w == "set_config"@
    ||| w == "system_user"@
}

/// Words that reach another server.
pub open spec fn reaches_another_server(w: Seq<char>) -> bool {
    ||| w == "dblink"@
    ||| w == "dblink_build_sql_delete"@
    ||| w == "dblink_build_sql_insert"@
    ||| w == "dblink_build_sql_update"@
    ||| w == "dblink_cancel_query"@
    ||| w == "dblink_close"@
    ||| w == "dblink_connect"@
    ||| w == "dblink_connect_u"@
    ||| w == "dblink_current_query"@
    ||| w == "dblink_disconnect"@
    ||| w == "dblink_error_message"@
    ||| w == "dblink_exec"@
    ||| w == "dblink_fetch"@
    ||| w == "dblink_get_connections"@
    ||| w == "dblink_get_notify"@
    ||| w == "dblink_get_pkey"@
    ||| w == "dblink_get_result"@
    ||| w == "dblink_is_busy"@
    ||| w == "dblink_open"@
    ||| w == "dblink_send_query"@
}

/// Words that read and write large objects.
pub open spec fn handles_large_objects(w: Seq<char>) -> bool {
    ||| w == "lo_close"@
    ||| w == "lo_creat"@
    ||| w == "lo_create"@
    ||| w == "lo_export"@
    ||| w == "lo_from_bytea"@
    ||| w == "lo_get"@
    ||| w == "lo_import"@
    ||| w == "lo_lseek"@
    ||| w == "lo_lseek64"@
    ||| w == "lo_open"@
    ||| w == "lo_put"@
    ||| w == "lo_tell"@
    ||| w == "lo_tell64"@
    ||| w == "lo_truncate"@
    ||| w == "lo_truncate64"@
    ||| w == "lo_unlink"@
    ||| w == "loread"@
    ||| w == "lowrite"@
}

/// Words that tell privileges.
pub open spec fn tells_privileges(w: Seq<char>) -> bool {
    ||| w == "aclexplode"@
    ||| w == "has_any_column_privilege"@
    ||| w == "has_column_privilege"@
    ||| w == "has_database_privilege"@
    ||| w == "has_foreign_data_wrapper_privilege"@
    ||| w == "has_function_privilege"@
    ||| w == "has_language_privilege"@
    ||| w == "has_largeobject_privilege"@
    ||| w == "has_parameter_privilege"@
    ||| w == "has_schema_privilege"@
    ||| w == "has_sequence_privilege"@
    ||| w == "has_server_privilege"@
    ||| w == "has_table_privilege"@
    ||| w == "has_tablespace_privilege"@
    ||| w == "has_type_privilege"@
}

/// Words that run or dump whole relations as XML.
pub open spec fn dumps_as_xml(w: Seq<char>) -> bool {
    ||| w == "cursor_to_xml"@
    ||| w == "cursor_to_xmlschema"@
    ||| w == "database_to_xml"@
    ||| w == "database_to_xml_and_xmlschema"@
    ||| w == "database_to_xmlschema"@
    ||| w == "query_to_xml"@
    ||| w == "query_to_xml_and_xmlschema"@
    ||| w == "query_to_xmlschema"@
    ||| w == "schema_to_xml"@
    ||| w == "schema_to_xml_and_xmlschema"@
    ||| w == "schema_to_xmlschema"@
    ||| w == "table_to_xml"@
    ||| w == "table_to_xml_and_xmlschema"@
    ||| w == "table_to_xmlschema"@
}

/// Words that move or read a sequence.
pub open spec fn moves_a_sequence(w: Seq<char>) -> bool {
    ||| w == "lastval"@
    ||| w == "nextval"@
    ||| w == "setval"@
}

/// Words of the server itself.
pub open spec fn is_of_the_server(w: Seq<char>) -> bool {
    ||| w == "pg_advisory_lock"@
    ||| w == "pg_advisory_lock_shared"@
    ||| w == "pg_advisory_unlock"@
    ||| w == "pg_advisory_unlock_all"@
    ||| w == "pg_advisory_unlock_shared"@
    ||| w == "pg_advisory_xact_lock"@
    ||| w == "pg_advisory_xact_lock_shared"@
    ||| w == "pg_backend_pid"@
    ||| w == "pg_extension"@
    ||| w == "pg_roles"@
    ||| w == "pg_shadow"@
    ||| w == "pg_stat_activity"@
    ||| w == "pg_stat_database"@
    ||| w == "pg_stat_user_indexes"@
    ||| w == "pg_stat_user_tables"@
    ||| w == "pg_try_advisory_lock"@
    ||| w == "pg_try_advisory_lock_shared"@
    ||| w == "pg_try_advisory_xact_lock"@
    ||| w == "pg_try_advisory_xact_lock_shared"@
    ||| w == "pg_user"@
    ||| w == "pg_views"@
}

/// Words that resolve names of objects.
pub open spec fn resolves_names(w: Seq<char>) -> bool {
    ||| w == "regclass"@
    ||| w == "regcollation"@
    ||| w == "regconfig"@
    ||| w == "regdictionary"@
    ||| w == "regnamespace"@
    ||| w == "regoper"@
    ||| w == "regoperator"@
    ||| w == "regproc"@
    ||| w == "regprocedure"@
    ||| w == "regrole"@
    ||| w == "regtype"@
    ||| w == "to_regclass"@
    ||| w == "to_regnamespace"@
    ||| w == "to_regoper"@
    ||| w == "to_regoperator"@
    ||| w == "to_regproc"@
    ||| w == "to_regprocedure"@
}

/// Words that describe objects, or make much of little.
pub open spec fn describes_or_amplifies(w: Seq<char>) -> bool {
    ||| w == "col_description"@
    ||| w == "format_type"@
    ||| w == "obj_description"@
    ||| w == "repeat"@
    ||| w == "shobj_description"@
    ||| w == "ts_rewrite"@
    ||| w == "ts_stat"@
}

/// The default policy refuses these words wherever they stand, and no other.
pub open spec fn is_refused_by_default(w: Seq<char>) -> bool {
    ||| shows_who_and_where(w)
    ||| reaches_another_server(w)
    ||| handles_large_objects(w)
    ||| tells_privileges(w)
    ||| dumps_as_xml(w)
    ||| moves_a_sequence(w)
    ||| is_of_the_server(w)
    ||| resolves_names(w)
    ||| describes_or_amplifies(w)
}

/// Each of these words is on the list.
proof fn lemma_shows_who_and_where(w: Seq<char>)
    requires
        shows_who_and_where(w),
    ensures
        listed(BLOCKED_IDENTIFIERS@).contains(w),
{
    let list = listed(BLOCKED_IDENTIFIERS@);
    assert(list[2] == "current_catalog"@);
    assert(list[3] == "current_database"@);
    assert(list[4] == "current_query"@);
    assert(list[5] == "current_role"@);
    assert(list[6] == "current_schema"@);
    assert(list[7] == "current_schemas"@);
    assert(list[8] == "current_setting"@);
    assert(list[9] == "current_user"@);
    assert(list[36] == "getpgusername"@);
    assert(list[51] == "inet_server_addr"@);
    assert(list[52] == "inet_server_port"@);
    assert(list[110] == "row_security_active"@);
    assert(list[114] == "session_user"@);
    assert(list[115] == "set_config"@);
    assert(list[118] == "system_user"@);
}

/// Each of these words is on the list.
proof fn lemma_reaches_another_server(w: Seq<char>)
    requires
        reaches_another_server(w),
    ensures
        listed(BLOCKED_IDENTIFIERS@).contains(w),
{
    let list = listed(BLOCKED_IDENTIFIERS@);
    assert(list[15] == "dblink"@);
    assert(list[16] == "dblink_build_sql_delete"@);
    assert(list[17] == "dblink_build_sql_insert"@);
    assert(list[18] == "dblink_build_sql_update"@);
    assert(list[19] == "dblink_cancel_query"@);
    assert(list[20] == "dblink_close"@);
    assert(list[21] == "dblink_connect"@);
    assert(list[22] == "dblink_connect_u"@);
    assert(list[23] == "dblink_current_query"@);
    assert(list[24] == "dblink_disconnect"@);
    assert(list[25] == "dblink_error_message"@);
    assert(list[26] == "dblink_exec"@);
    assert(list[27] == "dblink_fetch"@);
    assert(list[28] == "dblink_get_connections"@);
    assert(list[29] == "dblink_get_notify"@);
    assert(list[30] == "dblink_get_pkey"@);
    assert(list[31] == "dblink_get_result"@);
    assert(list[32] == "dblink_is_busy"@);
    assert(list[33] == "dblink_open"@);
    assert(list[34] == "dblink_send_query"@);
}

/// Each of these words is on the list.
proof fn lemma_handles_large_objects(w: Seq<char>)
    requires
        handles_large_objects(w),
    ensures
        listed(BLOCKED_IDENTIFIERS@).contains(w),
{
    let list = listed(BLOCKED_IDENTIFIERS@);
    assert(list[54] == "lo_close"@);
    assert(list[55] == "lo_creat"@);
    assert(list[56] == "lo_create"@);
    assert(list[57] == "lo_export"@);
    assert(list[58] == "lo_from_bytea"@);
    assert(list[59] == "lo_get"@);
    assert(list[60] == "lo_import"@);
    assert(list[61] == "lo_lseek"@);
    assert(list[62] == "lo_lseek64"@);
    assert(list[63] == "lo_open"@);
    assert(list[64] == "lo_put"@);
    assert(list[65] == "lo_tell"@);
    assert(list[66] == "lo_tell64"@);
    assert(list[67] == "lo_truncate"@);
    assert(list[68] == "lo_truncate64"@);
    assert(list[69] == "lo_unlink"@);
    assert(list[70] == "loread"@);
    assert(list[71] == "lowrite"@);
}

/// Each of these words is on the list.
proof fn lemma_tells_privileges(w: Seq<char>)
    requires
        tells_privileges(w),
    ensures
        listed(BLOCKED_IDENTIFIERS@).contains(w),
{
    let list = listed(BLOCKED_IDENTIFIERS@);
    assert(list[0] == "aclexplode"@);
    assert(list[37] == "has_any_column_privilege"@);
    assert(list[38] == "has_column_privilege"@);
    assert(list[39] == "has_database_privilege"@);
    assert(list[40] == "has_foreign_data_wrapper_privilege"@);
    assert(list[41] == "has_function_privilege"@);
    assert(list[42] == "has_language_privilege"@);
    assert(list[43] == "has_largeobject_privilege"@);
    assert(list[44] == "has_parameter_privilege"@);
    assert(list[45] == "has_schema_privilege"@);
    assert(list[46] == "has_sequence_privilege"@);
    assert(list[47] == "has_server_privilege"@);
    assert(list[48] == "has_table_privilege"@);
    assert(list[49] == "has_tablespace_privilege"@);
    assert(list[50] == "has_type_privilege"@);
}

/// Each of these words is on the list.
proof fn lemma_dumps_as_xml(w: Seq<char>)
    requires
        dumps_as_xml(w),
    ensures
        listed(BLOCKED_IDENTIFIERS@).contains(w),
{
    let list = listed(BLOCKED_IDENTIFIERS@);
    assert(list[10] == "cursor_to_xml"@);
    assert(list[11] == "cursor_to_xmlschema"@);
    assert(list[12] == "database_to_xml"@);
    assert(list[13] == "database_to_xml_and_xmlschema"@);
    assert(list[14] == "database_to_xmlschema"@);
    assert(list[96] == "query_to_xml"@);
    assert(list[97] == "query_to_xml_and_xmlschema"@);
    assert(list[98] == "query_to_xmlschema"@);
    assert(list[111] == "schema_to_xml"@);
    assert(list[112] == "schema_to_xml_and_xmlschema"@);
    assert(list[113] == "schema_to_xmlschema"@);
    assert(list[119] == "table_to_xml"@);
    assert(list[120] == "table_to_xml_and_xmlschema"@);
    assert(list[121] == "table_to_xmlschema"@);
}

/// Each of these words is on the list.
proof fn lemma_moves_a_sequence(w: Seq<char>)
    requires
        moves_a_sequence(w),
    ensures
        listed(BLOCKED_IDENTIFIERS@).contains(w),
{
    let list = listed(BLOCKED_IDENTIFIERS@);
    assert(list[53] == "lastval"@);
    assert(list[72] == "nextval"@);
    assert(list[116] == "setval"@);
}

/// Each of these words is on the list.
proof fn lemma_is_of_the_server(w: Seq<char>)
    requires
        is_of_the_server(w),
    ensures
        listed(BLOCKED_IDENTIFIERS@).contains(w),
{
    let list = listed(BLOCKED_IDENTIFIERS@);
    assert(list[74] == "pg_advisory_lock"@);
    assert(list[75] == "pg_advisory_lock_shared"@);
    assert(list[76] == "pg_advisory_unlock"@);
    assert(list[77] == "pg_advisory_unlock_all"@);
    assert(list[78] == "pg_advisory_unlock_shared"@);
    assert(list[79] == "pg_advisory_xact_lock"@);
    assert(list[80] == "pg_advisory_xact_lock_shared"@);
    assert(list[81] == "pg_backend_pid"@);
    assert(list[82] == "pg_extension"@);
    assert(list[83] == "pg_roles"@);
    assert(list[84] == "pg_shadow"@);
    assert(list[85] == "pg_stat_activity"@);
    assert(list[86] == "pg_stat_database"@);
    assert(list[87] == "pg_stat_user_indexes"@);
    assert(list[88] == "pg_stat_user_tables"@);
    assert(list[89] == "pg_try_advisory_lock"@);
    assert(list[90] == "pg_try_advisory_lock_shared"@);
    assert(list[91] == "pg_try_advisory_xact_lock"@);
    assert(list[92] == "pg_try_advisory_xact_lock_shared"@);
    assert(list[93] == "pg_user"@);
    assert(list[94] == "pg_views"@);
}

/// Each of these words is on the list.
proof fn lemma_resolves_names(w: Seq<char>)
    requires
        resolves_names(w),
    ensures
        listed(BLOCKED_IDENTIFIERS@).contains(w),
{
    let list = listed(BLOCKED_IDENTIFIERS@);
    assert(list[99] == "regclass"@);
    assert(list[100] == "regcollation"@);
    assert(list[101] == "regconfig"@);
    assert(list[102] == "regdictionary"@);
    assert(list[103] == "regnamespace"@);
    assert(list[104] == "regoper"@);
    assert(list[105] == "regoperator"@);
    assert(list[106] == "regproc"@);
    assert(list[107] == "regprocedure"@);
    assert(list[108] == "regrole"@);
    assert(list[109] == "regtype"@);
    assert(list[122] == "to_regclass"@);
    assert(list[125] == "to_regnamespace"@);
    assert(list[126] == "to_regoper"@);
    assert(list[127] == "to_regoperator"@);
    assert(list[128] == "to_regproc"@);
    assert(list[129] == "to_regprocedure"@);
}

/// Each of these words is on the list.
proof fn lemma_describes_or_amplifies(w: Seq<char>)
    requires
        describes_or_amplifies(w),
    ensures
        listed(BLOCKED_IDENTIFIERS@).contains(w),
{
    let list = listed(BLOCKED_IDENTIFIERS@);
    assert(list[1] == "col_description"@);
    assert(list[35] == "format_type"@);
    assert(list[73] == "obj_description"@);
    assert(list[95] == "repeat"@);
    assert(list[117] == "shobj_description"@);
    assert(list[123] == "ts_rewrite"@);
    assert(list[124] == "ts_stat"@);
}

/// Each word of the list is one of them.
proof fn lemma_listed_from_0(i: int)
    requires
        0 <= i < 26,
    ensures
        is_refused_by_default(listed(BLOCKED_IDENTIFIERS@)[i]),
{
    let list = listed(BLOCKED_IDENTIFIERS@);
    assert(list[0] == "aclexplode"@);
    assert(list[1] == "col_description"@);
    assert(list[2] == "current_catalog"@);
    assert(list[3] == "current_database"@);
    assert(list[4] == "current_query"@);
    assert(list[5] == "current_role"@);
    assert(list[6] == "current_schema"@);
    assert(list[7] == "current_schemas"@);
    assert(list[8] == "current_setting"@);
    assert(list[9] == "current_user"@);
    assert(list[10] == "cursor_to_xml"@);
    assert(list[11] == "cursor_to_xmlschema"@);
    assert(list[12] == "database_to_xml"@);
    assert(list[13] == "database_to_xml_and_xmlschema"@);
    assert(list[14] == "database_to_xmlschema"@);
    assert(list[15] == "dblink"@);
    assert(list[16] == "dblink_build_sql_delete"@);
    assert(list[17] == "dblink_build_sql_insert"@);
    assert(list[18] == "dblink_build_sql_update"@);
    assert(list[19] == "dblink_cancel_query"@);
    assert(list[20] == "dblink_close"@);
    assert(list[21] == "dblink_connect"@);
    assert(list[22] == "dblink_connect_u"@);
    assert(list[23] == "dblink_current_query"@);
    assert(list[24] == "dblink_disconnect"@);
    assert(list[25] == "dblink_error_message"@);
}

/// Each word of the list is one of them.
proof fn lemma_listed_from_26(i: int)
    requires
        26 <= i < 52,
    ensures
        is_refused_by_default(listed(BLOCKED_IDENTIFIERS@)[i]),
{
    let list = listed(BLOCKED_IDENTIFIERS@);
    assert(list[26] == "dblink_exec"@);
    assert(list[27] == "dblink_fetch"@);
    assert(list[28] == "dblink_get_connections"@);
    assert(list[29] == "dblink_get_notify"@);
    assert(list[30] == "dblink_get_pkey"@);
    assert(list[31] == "dblink_get_result"@);
    assert(list[32] == "dblink_is_busy"@);
    assert(list[33] == "dblink_open"@);
    assert(list[34] == "dblink_send_query"@);
    assert(list[35] == "format_type"@);
    assert(list[36] == "getpgusername"@);
    assert(list[37] == "has_any_column_privilege"@);
    assert(list[38] == "has_column_privilege"@);
    assert(list[39] == "has_database_privilege"@);
    assert(list[40] == "has_foreign_data_wrapper_privilege"@);
    assert(list[41] == "has_function_privilege"@);
    assert(list[42] == "has_language_privilege"@);
    assert(list[43] == "has_largeobject_privilege"@);
    assert(list[44] == "has_parameter_privilege"@);
    assert(list[45] == "has_schema_privilege"@);
    assert(list[46] == "has_sequence_privilege"@);
    assert(list[47] == "has_server_privilege"@);
    assert(list[48] == "has_table_privilege"@);
    assert(list[49] == "has_tablespace_privilege"@);
    assert(list[50] == "has_type_privilege"@);
    assert(list[51] == "inet_server_addr"@);
}

/// Each word of the list is one of them.
proof fn lemma_listed_from_52(i: int)
    requires
        52 <= i < 78,
    ensures
        is_refused_by_default(listed(BLOCKED_IDENTIFIERS@)[i]),
{
    let list = listed(BLOCKED_IDENTIFIERS@);
    assert(list[52] == "inet_server_port"@);
    assert(list[53] == "lastval"@);
    assert(list[54] == "lo_close"@);
    assert(list[55] == "lo_creat"@);
    assert(list[56] == "lo_create"@);
    assert(list[57] == "lo_export"@);
    assert(list[58] == "lo_from_bytea"@);
    assert(list[59] == "lo_get"@);
    assert(list[60] == "lo_import"@);
    assert(list[61] == "lo_lseek"@);
    assert(list[62] == "lo_lseek64"@);
    assert(list[63] == "lo_open"@);
    assert(list[64] == "lo_put"@);
    assert(list[65] == "lo_tell"@);
    assert(list[66] == "lo_tell64"@);
    assert(list[67] == "lo_truncate"@);
    assert(list[68] == "lo_truncate64"@);
    assert(list[69] == "lo_unlink"@);
    assert(list[70] == "loread"@);
    assert(list[71] == "lowrite"@);
    assert(list[72] == "nextval"@);
    assert(list[73] == "obj_description"@);
    assert(list[74] == "pg_advisory_lock"@);
    assert(list[75] == "pg_advisory_lock_shared"@);
    assert(list[76] == "pg_advisory_unlock"@);
    assert(list[77] == "pg_advisory_unlock_all"@);
}

/// Each word of the list is one of them.
proof fn lemma_listed_from_78(i: int)
    requires
        78 <= i < 104,
    ensures
        is_refused_by_default(listed(BLOCKED_IDENTIFIERS@)[i]),
{
    let list = listed(BLOCKED_IDENTIFIERS@);
    assert(list[78] == "pg_advisory_unlock_shared"@);
    assert(list[79] == "pg_advisory_xact_lock"@);
    assert(list[80] == "pg_advisory_xact_lock_shared"@);
    assert(list[81] == "pg_backend_pid"@);
    assert(list[82] == "pg_extension"@);
    assert(list[83] == "pg_roles"@);
    assert(list[84] == "pg_shadow"@);
    assert(list[85] == "pg_stat_activity"@);
    assert(list[86] == "pg_stat_database"@);
    assert(list[87] == "pg_stat_user_indexes"@);
    assert(list[88] == "pg_stat_user_tables"@);
    assert(list[89] == "pg_try_advisory_lock"@);
    assert(list[90] == "pg_try_advisory_lock_shared"@);
    assert(list[91] == "pg_try_advisory_xact_lock"@);
    assert(list[92] == "pg_try_advisory_xact_lock_shared"@);
    assert(list[93] == "pg_user"@);
    assert(list[94] == "pg_views"@);
    assert(list[95] == "repeat"@);
    assert(list[96] == "query_to_xml"@);
    assert(list[97] == "query_to_xml_and_xmlschema"@);
    assert(list[98] == "query_to_xmlschema"@);
    assert(list[99] == "regclass"@);
    assert(list[100] == "regcollation"@);
    assert(list[101] == "regconfig"@);
    assert(list[102] == "regdictionary"@);
    assert(list[103] == "regnamespace"@);
}

/// Each word of the list is one of them.
proof fn lemma_listed_from_104(i: int)
    requires
        104 <= i < 130,
    ensures
        is_refused_by_default(listed(BLOCKED_IDENTIFIERS@)[i]),
{
    let list = listed(BLOCKED_IDENTIFIERS@);
    assert(list[104] == "regoper"@);
    assert(list[105] == "regoperator"@);
    assert(list[106] == "regproc"@);
    assert(list[107] == "regprocedure"@);
    assert(list[108] == "regrole"@);
    assert(list[109] == "regtype"@);
    assert(list[110] == "row_security_active"@);
    assert(list[111] == "schema_to_xml"@);
    assert(list[112] == "schema_to_xml_and_xmlschema"@);
    assert(list[113] == "schema_to_xmlschema"@);
    assert(list[114] == "session_user"@);
    assert(list[115] == "set_config"@);
    assert(list[116] == "setval"@);
    assert(list[117] == "shobj_description"@);
    assert(list[118] == "system_user"@);
    assert(list[119] == "table_to_xml"@);
    assert(list[120] == "table_to_xml_and_xmlschema"@);
    assert(list[121] == "table_to_xmlschema"@);
    assert(list[122] == "to_regclass"@);
    assert(list[123] == "ts_rewrite"@);
    assert(list[124] == "ts_stat"@);
    assert(list[125] == "to_regnamespace"@);
    assert(list[126] == "to_regoper"@);
    assert(list[127] == "to_regoperator"@);
    assert(list[128] == "to_regproc"@);
    assert(list[129] == "to_regprocedure"@);
}

/// The default policy refuses the words that it lists, and lists no other.
pub proof fn law_words_refused_by_default(w: Seq<char>)
    ensures
        default_policy().blocked_identifiers.contains(w) <==> is_refused_by_default(w),
{
    let list = listed(BLOCKED_IDENTIFIERS@);
    if list.contains(w) {
        let i = choose|i: int| 0 <= i < list.len() && list[i] == w;
        assert(list.len() == 130);
        if 0 <= i < 26 {
            lemma_listed_from_0(i);
        }
        if 26 <= i < 52 {
            lemma_listed_from_26(i);
        }
        if 52 <= i < 78 {
            lemma_listed_from_52(i);
        }
        if 78 <= i < 104 {
            lemma_listed_from_78(i);
        }
        if 104 <= i < 130 {
            lemma_listed_from_104(i);
        }
    }
    if shows_who_and_where(w) {
        lemma_shows_who_and_where(w);
    }
    if reaches_another_server(w) {
        lemma_reaches_another_server(w);
    }
    if handles_large_objects(w) {
        lemma_handles_large_objects(w);
    }
    if tells_privileges(w) {
        lemma_tells_privileges(w);
    }
    if dumps_as_xml(w) {
        lemma_dumps_as_xml(w);
    }
    if moves_a_sequence(w) {
        lemma_moves_a_sequence(w);
    }
    if is_of_the_server(w) {
        lemma_is_of_the_server(w);
    }
    if resolves_names(w) {
        lemma_resolves_names(w);
    }
    if describes_or_amplifies(w) {
        lemma_describes_or_amplifies(w);
    }
}

/// The other lists of the default policy, and what it admits: nothing beyond
/// ten thousand rows, no function in FROM, no aggregate without an alias.
pub proof fn law_default_policy(w: Seq<char>)
    ensures
        default_policy().max_limit == 10_000,
        DEFAULT_MAX_LIMIT == 10_000,
        default_policy().blocked_schema_qualifiers.contains(w) <==> w == "information_schema"@ || w
            == "pg_catalog"@,
        default_policy().blocked_identifier_prefixes.contains(w) <==> w == "binary_upgrade_"@ || w
            == "dblink"@ || w == "lo_"@ || w == "pg_"@,
        default_policy().blocked_bare_identifiers.contains(w) <==> w == "user"@,
        default_policy().blocked_function_identifiers.contains(w) <==> w == "version"@,
        !default_policy().bounded_table_functions.contains(w),
        !default_policy().safe_lateral_functions.contains(w),
        !default_policy().set_returning_functions.contains(w),
        default_policy().bounded_table_functions.len() == 0,
        default_policy().safe_lateral_functions.len() == 0,
        default_policy().set_returning_functions.len() == 0,
        default_policy().require_aggregate_aliases,
{
    let schemas = listed(BLOCKED_SCHEMA_QUALIFIERS@);
    assert(schemas.len() == 2);
    assert(schemas[0] == "information_schema"@);
    assert(schemas[1] == "pg_catalog"@);
    let prefixes = listed(BLOCKED_IDENTIFIER_PREFIXES@);
    assert(prefixes.len() == 4);
    assert(prefixes[0] == "binary_upgrade_"@);
    assert(prefixes[1] == "dblink"@);
    assert(prefixes[2] == "lo_"@);
    assert(prefixes[3] == "pg_"@);
    let bare = listed(BLOCKED_BARE_IDENTIFIERS@);
    assert(bare.len() == 1);
    assert(bare[0] == "user"@);
    let called = listed(BLOCKED_FUNCTION_IDENTIFIERS@);
    assert(called.len() == 1);
    assert(called[0] == "version"@);
}

} // verus!
