//! SQL built-in function table: each function with its signature, doc, example and docs page.

use vstd::prelude::*;
use crate::knowledge::entry::{function, function_at, Kind, EntryV, function_v, function_at_v};
use crate::knowledge::table::Table;

verus! {

/// The table of all function entries. No label is listed twice.
pub fn build() -> (t: Table)
    ensures
        t.wf(),
        t.table_kind() == Kind::Function,
        t.contents() == function_map(),
{
    let mut t = Table::new(Kind::Function);
    part_0(&mut t);
    part_1(&mut t);
    part_2(&mut t);
    part_3(&mut t);
    part_4(&mut t);
    part_5(&mut t);
    part_6(&mut t);
    part_7(&mut t);
    part_8(&mut t);
    part_9(&mut t);
    part_10(&mut t);
    t
}

fn part_0(t: &mut Table)
    requires
        old(t).wf(),
        old(t).table_kind() == Kind::Function,
    ensures
        final(t).wf(),
        final(t).table_kind() == Kind::Function,
        final(t).contents() == function_part_0(old(t).contents()),
{
    t.insert(function("coalesce", "coalesce(a, b, ...) -> any", "Return the first non-null argument.", "SELECT coalesce(nickname, name, 'anonymous') FROM users;", "functions-conditional.html"));
    t.insert(function("nullif", "nullif(a, b) -> any", "Return NULL when a = b, else a.", "SELECT nullif(value, '') FROM t;", "functions-conditional.html"));
    t.insert(function("greatest", "greatest(a, b, ...) -> any", "Largest non-null argument.", "SELECT greatest(a, b, c) FROM t;", "functions-conditional.html"));
    t.insert(function("least", "least(a, b, ...) -> any", "Smallest non-null argument.", "SELECT least(a, b, c) FROM t;", "functions-conditional.html"));
    t.insert(function("substring", "substring(text FROM start [FOR len]) -> text", "Slice a string. 1-based.", "SELECT substring(email FROM 1 FOR 3) FROM users;", "functions-string.html"));
    t.insert(function("now", "now() -> timestamptz", "Current statement timestamp.", "INSERT INTO events (at) VALUES (now());", "functions-datetime.html#FUNCTIONS-DATETIME-CURRENT"));
    t.insert(function("chr", "chr(int) -> text", "Character for a Unicode code point.", "SELECT chr(65);", "functions-string.html"));
    t.insert(function("exp", "exp(numeric) -> numeric", "e raised to argument.", "SELECT exp(1);", "functions-math.html"));
    t.insert(function("ln", "ln(numeric) -> numeric", "Natural log.", "SELECT ln(2.718);", "functions-math.html"));
    t.insert(function("pi", "pi() -> double", "3.14159...", "SELECT pi();", "functions-math.html"));
    t.insert(function("sha1", "sha1(bytea) -> bytea", "SHA-1 binary (pgcrypto).", "SELECT encode(sha1('hi'), 'hex');", "pgcrypto.html"));
    t.insert(function("obj_description", "obj_description(object_oid [, catalog_name text]) -> text", "Comment attached to a database object (table, function, ...).", "SELECT obj_description('users'::regclass);", "functions-info.html#FUNCTIONS-INFO-COMMENT"));
    t.insert(function("col_description", "col_description(table_oid, column_number) -> text", "Comment on a specific column.", "SELECT col_description('users'::regclass, 1);", "functions-info.html#FUNCTIONS-INFO-COMMENT"));
    t.insert(function("shobj_description", "shobj_description(object_oid, shared_catalog_name text) -> text", "Comment on a shared (cluster-wide) object such as a role or database.", "SELECT shobj_description(d.oid, 'pg_database') FROM pg_database d;", "functions-info.html#FUNCTIONS-INFO-COMMENT"));
    t.insert(function("gen_random_bytes", "gen_random_bytes(n int) -> bytea (pgcrypto)", "Cryptographically strong random bytes. Requires the pgcrypto extension.", "SELECT gen_random_bytes(16);", "pgcrypto.html"));
    t.insert(function("normalize", "normalize(text [, form NFC|NFD|NFKC|NFKD]) -> text", "Unicode normalization (PG 13+). Default form is NFC.", "SELECT normalize('café', NFC);", "functions-string.html#FUNCTIONS-STRING-OTHER"));
    t.insert(function("current_user", "current_user -> name", "Current SQL session user.", "SELECT current_user;", "functions-info.html"));
    t.insert(function("session_user", "session_user -> name", "Original session user (before SET ROLE).", "SELECT session_user;", "functions-info.html"));
    t.insert(function("current_database", "current_database() -> name", "Active database name.", "SELECT current_database();", "functions-info.html"));
    t.insert(function("current_schema", "current_schema() -> name", "First entry in search_path.", "SELECT current_schema();", "functions-info.html"));
    t.insert(function("version", "version() -> text", "Postgres server version banner.", "SELECT version();", "functions-info.html"));
    t.insert(function("to_json", "to_json(anyelement) -> json", "Same as to_jsonb but produces json (not binary).", "SELECT to_json(ARRAY[1,2,3]);", "functions-json.html"));
    t.insert(function("jsonb_array_elements", "jsonb_array_elements(jsonb) -> setof jsonb", "Expand a jsonb array to a set of jsonb values.", "SELECT * FROM jsonb_array_elements('[1,2,3]'::jsonb);", "functions-json.html"));
    t.insert(function("int4multirange", "int4multirange(VARIADIC int4range) -> int4multirange", "Constructor for int4multirange from explicit int4range pieces (PG 14+).", "SELECT int4multirange(int4range(1,4), int4range(10,12));", "rangetypes.html#RANGETYPES-BUILTIN"));
    t.insert(function("strpos", "strpos(haystack text, needle text) -> integer", "1-based index of needle in haystack, 0 if not found.", "SELECT strpos('hello world','world');", "functions-string.html"));
    t.insert(function("trim_array", "trim_array(anyarray, n int) -> anyarray", "Return all but the last n elements.", "SELECT trim_array(ARRAY[1,2,3,4], 1);", "functions-array.html"));
    t.insert(function("current_time", "current_time [(p int)] -> time with time zone", "Current TIME WITH TIME ZONE (optional precision).", "SELECT current_time(3);", "functions-datetime.html"));
    t.insert(function("current_timestamp", "current_timestamp [(p int)] -> timestamp with time zone", "Current TIMESTAMPTZ (optional precision).", "SELECT current_timestamp(0);", "functions-datetime.html"));
    t.insert(function("current_date", "current_date -> date", "Current DATE (no parens).", "SELECT current_date;", "functions-datetime.html"));
    t.insert(function("md5", "md5(text|bytea) -> text", "MD5 hash hex digest.", "SELECT md5('hello');", "functions-string.html"));
    t.insert(function("cbrt", "cbrt(double) -> double precision", "Cube root.", "SELECT cbrt(27);", "functions-math.html"));
    t.insert(function("gcd", "gcd(int, int) -> integer", "Greatest common divisor.", "SELECT gcd(12, 18);", "functions-math.html"));
    t.insert(function("lcm", "lcm(int, int) -> integer", "Least common multiple.", "SELECT lcm(4, 6);", "functions-math.html"));
    t.insert(function("array_to_json", "array_to_json(anyarray [, pretty bool]) -> json", "Convert an array to a JSON array.", "SELECT array_to_json(ARRAY[1,2,3]);", "functions-json.html"));
    t.insert(function("strip", "strip(tsvector) -> tsvector", "Strip positions/weights from a tsvector.", "SELECT strip(to_tsvector('hello world'));", "functions-textsearch.html"));
    t.insert(function("sin", "sin(double precision) -> double precision", "Sine, radians.", "SELECT sin(0);", "functions-math.html"));
    t.insert(function("setweight", "setweight(tsvector, weight char) -> tsvector", "Tag every lexeme with a weight letter (A/B/C/D).", "SELECT setweight(to_tsvector('title'), 'A');", "textsearch-features.html#TEXTSEARCH-MANIPULATE-TSVECTOR"));
    t.insert(function("jsonb_array_elements_text", "jsonb_array_elements_text(jsonb) -> setof text", "Expand jsonb array into rows of text.", "SELECT * FROM jsonb_array_elements_text('[\"a\",\"b\"]');", "functions-json.html"));
    t.insert(function("json_array_elements_text", "json_array_elements_text(json) -> setof text", "Expand json array as text rows.", "SELECT * FROM json_array_elements_text('[\"a\"]');", "functions-json.html"));
    t.insert(function("jsonb_object", "jsonb_object(text[] [, text[]]) -> jsonb", "Build a jsonb object from a key array (+ optional value array).", "SELECT jsonb_object('{a,b}', '{1,2}');", "functions-json.html"));
    t.insert(function("uuid_generate_v3", "uuid_generate_v3(namespace uuid, name text) -> uuid", "Name-based UUID (v3) using MD5.", "SELECT uuid_generate_v3(uuid_ns_dns(), 'example.com');", "uuid-ossp.html"));
    t.insert(function("uuid_nil", "uuid_nil() -> uuid", "All-zero UUID.", "SELECT uuid_nil();", "uuid-ossp.html"));
    t.insert(function("uuid_ns_dns", "uuid_ns_dns() -> uuid", "DNS namespace UUID.", "SELECT uuid_ns_dns();", "uuid-ossp.html"));
    t.insert(function("uuid_ns_url", "uuid_ns_url() -> uuid", "URL namespace UUID.", "SELECT uuid_ns_url();", "uuid-ossp.html"));
    t.insert(function("ceil", "ceil(numeric) -> numeric", "Round up to integer.", "SELECT ceil(3.2);", "functions-math.html"));
    t.insert(function("cast", "CAST(expr AS type) -- explicit type conversion. Operator alias: `expr::type`.", "Convert between types.", "SELECT CAST('42' AS int);", "sql-expressions.html#SQL-SYNTAX-TYPE-CASTS"));
    t.insert(function("user", "user -> name", "Current SQL role (alias for current_user).", "SELECT user;", "functions-info.html"));
    t.insert(function("pg_version", "version() -> text", "Server version string (PG canonical name is `version`).", "SELECT version();", "functions-info.html"));
    t.insert(function("localtimestamp", "localtimestamp -> timestamp", "Current timestamp WITHOUT time zone, fixed for the transaction.", "SELECT localtimestamp;", "functions-datetime.html"));
    t.insert(function("localtime", "localtime -> time", "Current time of day WITHOUT time zone, fixed for the transaction.", "SELECT localtime;", "functions-datetime.html"));
    t.insert(function("jsonb_extract_path", "jsonb_extract_path(jsonb, VARIADIC text) -> jsonb", "Extract sub-object at the given key path (alias for `#>`).", "SELECT jsonb_extract_path(data, 'addr','city') FROM t;", "functions-json.html"));
    t.insert(function("jsonb_extract_path_text", "jsonb_extract_path_text(jsonb, VARIADIC text) -> text", "Same as jsonb_extract_path, but coerce final value to text (alias for `#>>`).", "SELECT jsonb_extract_path_text(data,'addr','city');", "functions-json.html"));
    t.insert(function("json_array_elements", "json_array_elements(json) -> setof json", "Expand a JSON array into a set of JSON elements.", "SELECT * FROM json_array_elements('[1,2,3]'::json);", "functions-json.html"));
    t.insert(function("pow", "pow(a numeric, b numeric) -> numeric", "Alias for `power(a, b)`.", "SELECT pow(2, 10);", "functions-math.html"));
    t.insert(function("log10", "log10(numeric) -> numeric", "Base-10 logarithm. PG canonical: `log(x)` (which is base-10).", "SELECT log10(1000);", "functions-math.html"));
    t.insert(function("abbrev", "abbrev(...) -> ...", "Network address function (inet / cidr).", "SELECT abbrev(...);", "functions-net.html"));
    t.insert(function("acosd", "acosd(numeric) -> double precision", "Trigonometric function operating in degrees.", "SELECT acosd(...);", "functions-math.html"));
    t.insert(function("acosh", "acosh(double precision) -> double precision", "Hyperbolic / inverse-hyperbolic trig.", "SELECT acosh(...);", "functions-math.html"));
    t.insert(function("asind", "asind(numeric) -> double precision", "Trigonometric function operating in degrees.", "SELECT asind(...);", "functions-math.html"));
    t.insert(function("asinh", "asinh(double precision) -> double precision", "Hyperbolic / inverse-hyperbolic trig.", "SELECT asinh(...);", "functions-math.html"));
    t.insert(function("atan2d", "atan2d(numeric) -> double precision", "Trigonometric function operating in degrees.", "SELECT atan2d(...);", "functions-math.html"));
    t.insert(function("atand", "atand(numeric) -> double precision", "Trigonometric function operating in degrees.", "SELECT atand(...);", "functions-math.html"));
    t.insert(function("atanh", "atanh(double precision) -> double precision", "Hyperbolic / inverse-hyperbolic trig.", "SELECT atanh(...);", "functions-math.html"));
    t.insert(function("broadcast", "broadcast(...) -> ...", "Network address function (inet / cidr).", "SELECT broadcast(...);", "functions-net.html"));
    t.insert(function("cosd", "cosd(numeric) -> double precision", "Trigonometric function operating in degrees.", "SELECT cosd(...);", "functions-math.html"));
    t.insert(function("cosh", "cosh(double precision) -> double precision", "Hyperbolic / inverse-hyperbolic trig.", "SELECT cosh(...);", "functions-math.html"));
    t.insert(function("factorial", "factorial(bigint) -> numeric", "Factorial. Deprecated -- use `numeric_fac()` or `n!` operator.", "SELECT factorial(10);", "functions-math.html"));
    t.insert(function("family", "family(...) -> ...", "Network address function (inet / cidr).", "SELECT family(...);", "functions-net.html"));
    t.insert(function("hostmask", "hostmask(...) -> ...", "Network address function (inet / cidr).", "SELECT hostmask(...);", "functions-net.html"));
    t.insert(function("inet_client_addr", "inet_client_addr(...) -> ...", "Network address function (inet / cidr).", "SELECT inet_client_addr(...);", "functions-net.html"));
    t.insert(function("inet_merge", "inet_merge(...) -> ...", "Network address function (inet / cidr).", "SELECT inet_merge(...);", "functions-net.html"));
    t.insert(function("inet_same_family", "inet_same_family(...) -> ...", "Network address function (inet / cidr).", "SELECT inet_same_family(...);", "functions-net.html"));
    t.insert(function("inet_server_addr", "inet_server_addr(...) -> ...", "Network address function (inet / cidr).", "SELECT inet_server_addr(...);", "functions-net.html"));
    t.insert(function("masklen", "masklen(...) -> ...", "Network address function (inet / cidr).", "SELECT masklen(...);", "functions-net.html"));
    t.insert(function("overlaps", "(t1, t2) OVERLAPS (t3, t4) -> boolean", "(start1, end1) OVERLAPS (start2, end2) -- range overlap predicate.", "SELECT (DATE 2024-01-01, DATE 2024-12-31) OVERLAPS (DATE 2024-06-01, DATE 2025-06-01);", "functions-datetime.html"));
}

fn part_1(t: &mut Table)
    requires
        old(t).wf(),
        old(t).table_kind() == Kind::Function,
    ensures
        final(t).wf(),
        final(t).table_kind() == Kind::Function,
        final(t).contents() == function_part_1(old(t).contents()),
{
    t.insert(function("pgp_pub_decrypt", "pgp_pub_decrypt(...) -> ...", "pgcrypto PGP cipher function -- requires pgcrypto extension.", "SELECT pgp_pub_decrypt(...);", "pgcrypto.html"));
    t.insert(function("pgp_pub_encrypt", "pgp_pub_encrypt(...) -> ...", "pgcrypto PGP cipher function -- requires pgcrypto extension.", "SELECT pgp_pub_encrypt(...);", "pgcrypto.html"));
    t.insert(function("pgp_sym_decrypt", "pgp_sym_decrypt(...) -> ...", "pgcrypto PGP cipher function -- requires pgcrypto extension.", "SELECT pgp_sym_decrypt(...);", "pgcrypto.html"));
    t.insert(function("pgp_sym_encrypt", "pgp_sym_encrypt(...) -> ...", "pgcrypto PGP cipher function -- requires pgcrypto extension.", "SELECT pgp_sym_encrypt(...);", "pgcrypto.html"));
    t.insert(function("sind", "sind(numeric) -> double precision", "Trigonometric function operating in degrees.", "SELECT sind(...);", "functions-math.html"));
    t.insert(function("sinh", "sinh(double precision) -> double precision", "Hyperbolic / inverse-hyperbolic trig.", "SELECT sinh(...);", "functions-math.html"));
    t.insert(function("tand", "tand(numeric) -> double precision", "Trigonometric function operating in degrees.", "SELECT tand(...);", "functions-math.html"));
    t.insert(function("tanh", "tanh(double precision) -> double precision", "Hyperbolic / inverse-hyperbolic trig.", "SELECT tanh(...);", "functions-math.html"));
    t.insert(function("text", "text(inet) -> text", "Convert internet address to text representation.", "SELECT text(...);", "functions-formatting.html"));
    t.insert(function("to_ascii", "to_ascii(text [, encoding]) -> text", "Transliterate to 7-bit ASCII.", "SELECT to_ascii(Karel);", "functions-string.html"));
    t.insert(function("xmlagg", "xmlagg(xml) -> xml", "Aggregate: concatenate per-row XML values into one XML forest (use `ORDER BY` for deterministic order).", "SELECT xmlagg(XMLELEMENT(NAME item, name) ORDER BY name) FROM products;", "functions-aggregate.html#FUNCTIONS-AGGREGATE-TABLE"));
    t.insert(function("range_intersect", "range_intersect(anyrange, anyrange) -> anyrange", "Intersection of two ranges.", "SELECT int4range(1,10) * int4range(5,15);", "rangetypes.html"));
    t.insert(function("range_union", "range_union(anyrange, anyrange) -> anyrange", "Union of two ranges (must overlap or abut).", "SELECT int4range(1,5) + int4range(4,10);", "rangetypes.html"));
    t.insert(function("range_minus", "range_minus(anyrange, anyrange) -> anyrange", "Difference of two ranges.", "SELECT int4range(1,10) - int4range(5,8);", "rangetypes.html"));
    t.insert(function("lower_inf", "lower_inf(anyrange) -> boolean", "True when the range has no lower bound.", "SELECT lower_inf('(,5)'::int4range);", "rangetypes.html"));
    t.insert(function("upper_inf", "upper_inf(anyrange) -> boolean", "True when the range has no upper bound.", "SELECT upper_inf('[1,)'::int4range);", "rangetypes.html"));
    t.insert(function("pg_notify", "pg_notify(channel text, payload text) -> void", "Send a NOTIFY without requiring a literal channel name.", "SELECT pg_notify('chan', 'payload');", "functions-admin.html"));
    t.insert(function("pg_listening_channels", "pg_listening_channels() -> setof text", "Names of all channels the session is listening on.", "SELECT pg_listening_channels();", "functions-info.html"));
    t.insert(function("pg_current_xact_id_if_assigned", "pg_current_xact_id_if_assigned() -> xid8", "Current xid or NULL (does not assign one).", "SELECT pg_current_xact_id_if_assigned();", "functions-info.html"));
    t.insert(function("txid_current", "txid_current() -> bigint", "Deprecated -- use pg_current_xact_id() instead.", "SELECT txid_current();", "functions-info.html"));
    t.insert(function("pg_export_snapshot", "pg_export_snapshot() -> text", "Export the current snapshot id for parallel transactions.", "SELECT pg_export_snapshot();", "functions-admin.html"));
    t.insert(function("pg_tablespace_size", "pg_tablespace_size(oid|text) -> bigint", "Disk space used by a tablespace.", "SELECT pg_size_pretty(pg_tablespace_size('pg_default'));", "functions-admin.html"));
    t.insert(function("pg_size_bytes", "pg_size_bytes(text) -> bigint", "Parse a human-readable size string back into bytes.", "SELECT pg_size_bytes('64 MB');", "functions-admin.html"));
    t.insert(function("pg_column_size", "pg_column_size(any) -> int", "Bytes used to store a particular value (incl. TOAST overhead).", "SELECT pg_column_size(payload) FROM t;", "functions-admin.html"));
    t.insert(function("pg_relation_filenode", "pg_relation_filenode(regclass) -> oid", "On-disk filenode for a relation.", "SELECT pg_relation_filenode('users');", "functions-admin.html"));
    t.insert(function("pg_blocking_pids", "pg_blocking_pids(pid int) -> int[]", "PIDs of sessions whose locks block the given PID.", "SELECT pid, pg_blocking_pids(pid) FROM pg_stat_activity;", "functions-info.html"));
    t.insert(function("pg_backend_pid", "pg_backend_pid() -> int", "PID of the server process attached to the current session.", "SELECT pg_backend_pid();", "functions-info.html"));
    t.insert(function("pg_my_temp_schema", "pg_my_temp_schema() -> oid", "OID of the session's TEMP schema, or 0 if none.", "SELECT pg_my_temp_schema();", "functions-info.html"));
    t.insert(function("pg_xact_commit_timestamp", "pg_xact_commit_timestamp(xid) -> timestamptz", "Commit time of a transaction (requires track_commit_timestamp).", "SELECT pg_xact_commit_timestamp(xmin) FROM t;", "functions-info.html"));
    t.insert(function("pg_last_committed_xact", "pg_last_committed_xact() -> (xid, timestamptz, repl_origin_oid)", "Most recently committed transaction.", "SELECT * FROM pg_last_committed_xact();", "functions-info.html"));
    t.insert(function("pg_last_xact_replay_timestamp", "pg_last_xact_replay_timestamp() -> timestamptz", "Standby: when the last replayed transaction committed on primary.", "SELECT pg_last_xact_replay_timestamp();", "functions-admin.html"));
    t.insert(function("pg_is_in_recovery", "pg_is_in_recovery() -> boolean", "True when the server is in recovery / standby mode.", "SELECT pg_is_in_recovery();", "functions-admin.html"));
    t.insert(function("pg_promote", "pg_promote(wait boolean, wait_seconds int) -> boolean", "Promote a standby to primary.", "SELECT pg_promote();", "functions-admin.html"));
    t.insert(function("pg_postmaster_start_time", "pg_postmaster_start_time() -> timestamptz", "When the server started.", "SELECT pg_postmaster_start_time();", "functions-info.html"));
    t.insert(function("pg_conf_load_time", "pg_conf_load_time() -> timestamptz", "When the server last reloaded postgresql.conf.", "SELECT pg_conf_load_time();", "functions-info.html"));
    t.insert(function("pg_reload_conf", "pg_reload_conf() -> boolean", "Send SIGHUP so the server reloads its config.", "SELECT pg_reload_conf();", "functions-admin.html"));
    t.insert(function("pg_rotate_logfile", "pg_rotate_logfile() -> boolean", "Rotate the server's log file.", "SELECT pg_rotate_logfile();", "functions-admin.html"));
    t.insert(function("pg_get_keywords", "pg_get_keywords() -> setof (word, catcode, catdesc)", "All known PG keywords + their category.", "SELECT * FROM pg_get_keywords();", "functions-info.html"));
    t.insert(function("pg_create_logical_replication_slot", "pg_create_logical_replication_slot(slot_name name, plugin name [, temporary boolean] [, twophase boolean]) -> (slot_name, lsn)", "Create a logical replication slot bound to a plugin.", "SELECT pg_create_logical_replication_slot('s1', 'pgoutput');", "functions-admin.html"));
    t.insert(function("pg_create_physical_replication_slot", "pg_create_physical_replication_slot(slot_name name [, immediately_reserve boolean] [, temporary boolean]) -> (slot_name, lsn)", "Create a physical replication slot.", "SELECT pg_create_physical_replication_slot('standby1');", "functions-admin.html"));
    t.insert(function("pg_drop_replication_slot", "pg_drop_replication_slot(slot_name name) -> void", "Drop a replication slot.", "SELECT pg_drop_replication_slot('s1');", "functions-admin.html"));
    t.insert(function("pg_replication_slot_advance", "pg_replication_slot_advance(slot_name name, upto_lsn pg_lsn) -> (slot_name, end_lsn)", "Advance a slot's confirmed_flush_lsn.", "SELECT pg_replication_slot_advance('s1', '0/0');", "functions-admin.html"));
    t.insert(function("pg_logical_slot_get_changes", "pg_logical_slot_get_changes(slot_name name, upto_lsn pg_lsn, upto_nchanges int, VARIADIC options text[]) -> setof (lsn, xid, data)", "Stream decoded changes from a slot.", "SELECT * FROM pg_logical_slot_get_changes('s1', NULL, NULL);", "functions-admin.html"));
    t.insert(function("pg_logical_emit_message", "pg_logical_emit_message(transactional boolean, prefix text, content text) -> pg_lsn", "Inject a custom message into the WAL stream.", "SELECT pg_logical_emit_message(true, 'app', 'payload');", "functions-admin.html"));
    t.insert(function("pg_wal_lsn_diff", "pg_wal_lsn_diff(lsn1 pg_lsn, lsn2 pg_lsn) -> numeric", "Bytes between two WAL positions.", "SELECT pg_wal_lsn_diff('0/2', '0/0');", "functions-admin.html"));
    t.insert(function("pg_current_wal_lsn", "pg_current_wal_lsn() -> pg_lsn", "Current WAL write position (primary only).", "SELECT pg_current_wal_lsn();", "functions-admin.html"));
    t.insert(function("pg_current_wal_insert_lsn", "pg_current_wal_insert_lsn() -> pg_lsn", "Current WAL insertion position.", "SELECT pg_current_wal_insert_lsn();", "functions-admin.html"));
    t.insert(function("pg_current_wal_flush_lsn", "pg_current_wal_flush_lsn() -> pg_lsn", "Current WAL flush position.", "SELECT pg_current_wal_flush_lsn();", "functions-admin.html"));
    t.insert(function("pg_last_wal_receive_lsn", "pg_last_wal_receive_lsn() -> pg_lsn", "Standby: last WAL position received.", "SELECT pg_last_wal_receive_lsn();", "functions-admin.html"));
    t.insert(function("pg_last_wal_replay_lsn", "pg_last_wal_replay_lsn() -> pg_lsn", "Standby: last WAL position replayed.", "SELECT pg_last_wal_replay_lsn();", "functions-admin.html"));
    t.insert(function("pg_switch_wal", "pg_switch_wal() -> pg_lsn", "Force a WAL switch -- start a new segment.", "SELECT pg_switch_wal();", "functions-admin.html"));
    t.insert(function("pg_backup_start", "pg_backup_start(label text, fast boolean) -> pg_lsn", "PG15+: start a non-exclusive base backup.", "SELECT pg_backup_start('weekly', false);", "functions-admin.html"));
    t.insert(function("pg_backup_stop", "pg_backup_stop(wait_for_archive boolean) -> (lsn, labelfile, spcmapfile)", "PG15+: stop a base backup, return backup info.", "SELECT * FROM pg_backup_stop(true);", "functions-admin.html"));
    t.insert(function("pg_walfile_name", "pg_walfile_name(lsn pg_lsn) -> text", "WAL segment file name containing this LSN.", "SELECT pg_walfile_name(pg_current_wal_lsn());", "functions-admin.html"));
    t.insert(function("pg_walfile_name_offset", "pg_walfile_name_offset(lsn pg_lsn) -> (file_name, file_offset)", "WAL segment file name + byte offset for an LSN.", "SELECT * FROM pg_walfile_name_offset(pg_current_wal_lsn());", "functions-admin.html"));
    t.insert(function("string_to_table", "string_to_table(text, delim text [, null_string text]) -> setof text", "Like string_to_array but returns a row set.", "SELECT * FROM string_to_table('a,b,c', ',');", "functions-string.html"));
    t.insert(function("jsonb_set_lax", "jsonb_set_lax(jsonb, path text[], new_value jsonb [, create_missing boolean] [, null_value_treatment text]) -> jsonb", "Like jsonb_set but adds 'null_value_treatment' option (PG13+).", "SELECT jsonb_set_lax(data, '{x}', 'null'::jsonb, true, 'delete_key');", "functions-json.html"));
    t.insert(function("current_role", "current_role -> name", "Same as current_user.", "SELECT current_role;", "functions-info.html"));
    t.insert(function("current_query", "current_query() -> text", "Text of the currently executing query.", "SELECT current_query();", "functions-info.html"));
    t.insert(function("current_catalog", "current_catalog -> name", "SQL standard alias for current_database.", "SELECT current_catalog;", "functions-info.html"));
    t.insert(function("pg_current_logfile", "pg_current_logfile([format text]) -> text", "Path of the current server log file.", "SELECT pg_current_logfile();", "functions-info.html"));
    t.insert(function("inet_client_port", "inet_client_port() -> int", "Client port; NULL when over Unix socket.", "SELECT inet_client_port();", "functions-info.html"));
    t.insert(function("inet_server_port", "inet_server_port() -> int", "Server port the connection landed on.", "SELECT inet_server_port();", "functions-info.html"));
    t.insert(function("has_table_privilege", "has_table_privilege([user,] table, privilege text) -> boolean", "Does the role have the privilege on the table?", "SELECT has_table_privilege('alice', 'users', 'SELECT');", "functions-info.html"));
    t.insert(function("has_schema_privilege", "has_schema_privilege([user,] schema, privilege text) -> boolean", "Schema-level privilege check.", "SELECT has_schema_privilege('public', 'USAGE');", "functions-info.html"));
    t.insert(function("has_database_privilege", "has_database_privilege([user,] database, privilege text) -> boolean", "Database-level privilege check.", "SELECT has_database_privilege(current_user, current_database(), 'CONNECT');", "functions-info.html"));
    t.insert(function("has_column_privilege", "has_column_privilege([user,] table, column, privilege text) -> boolean", "Column-level privilege check.", "SELECT has_column_privilege('alice', 'users', 'email', 'UPDATE');", "functions-info.html"));
    t.insert(function("has_function_privilege", "has_function_privilege([user,] function, privilege text) -> boolean", "Function execution privilege.", "SELECT has_function_privilege('alice', 'now()', 'EXECUTE');", "functions-info.html"));
    t.insert(function("has_any_column_privilege", "has_any_column_privilege([user,] table, privilege text) -> boolean", "Does the role have privilege on ANY column?", "SELECT has_any_column_privilege('alice', 'users', 'SELECT');", "functions-info.html"));
    t.insert(function("has_sequence_privilege", "has_sequence_privilege([user,] sequence, privilege text) -> boolean", "Sequence privilege check.", "SELECT has_sequence_privilege('s', 'USAGE');", "functions-info.html"));
    t.insert(function("has_tablespace_privilege", "has_tablespace_privilege([user,] tablespace, privilege text) -> boolean", "Tablespace privilege check.", "SELECT has_tablespace_privilege('pg_default', 'CREATE');", "functions-info.html"));
    t.insert(function("has_foreign_data_wrapper_privilege", "has_foreign_data_wrapper_privilege([user,] fdw, privilege text) -> boolean", "FDW privilege check.", "SELECT has_foreign_data_wrapper_privilege('postgres_fdw', 'USAGE');", "functions-info.html"));
    t.insert(function("has_language_privilege", "has_language_privilege([user,] lang, privilege text) -> boolean", "Procedural language privilege.", "SELECT has_language_privilege('plpgsql', 'USAGE');", "functions-info.html"));
    t.insert(function("has_server_privilege", "has_server_privilege([user,] server, privilege text) -> boolean", "Foreign server privilege check.", "SELECT has_server_privilege('srv1', 'USAGE');", "functions-info.html"));
    t.insert(function("has_type_privilege", "has_type_privilege([user,] type, privilege text) -> boolean", "Type privilege check.", "SELECT has_type_privilege('point', 'USAGE');", "functions-info.html"));
}

fn part_2(t: &mut Table)
    requires
        old(t).wf(),
        old(t).table_kind() == Kind::Function,
    ensures
        final(t).wf(),
        final(t).table_kind() == Kind::Function,
        final(t).contents() == function_part_2(old(t).contents()),
{
    t.insert(function("pg_has_role", "pg_has_role([user,] role, privilege text) -> boolean", "Is `user` a member of `role` with the requested membership?", "SELECT pg_has_role('alice', 'admins', 'MEMBER');", "functions-info.html"));
    t.insert(function("row_security_active", "row_security_active(table) -> boolean", "True when RLS would be enforced on the table for the current role.", "SELECT row_security_active('users');", "functions-info.html"));
    t.insert(function("pg_get_partkeydef", "pg_get_partkeydef(regclass) -> text", "Definition of the PARTITION BY key for a partitioned table.", "SELECT pg_get_partkeydef('orders');", "functions-info.html"));
    t.insert(function("pg_get_publication_tables", "pg_get_publication_tables(pubname text) -> setof oid", "OIDs of tables included in a publication.", "SELECT * FROM pg_get_publication_tables('pub1');", "functions-info.html"));
    t.insert(function("pg_relation_is_publishable", "pg_relation_is_publishable(regclass) -> boolean", "True if the relation can be added to a publication.", "SELECT pg_relation_is_publishable('users');", "functions-info.html"));
    t.insert(function("pg_get_replica_identity_index", "pg_get_replica_identity_index(regclass) -> regclass", "Index used as REPLICA IDENTITY for the table, or NULL.", "SELECT pg_get_replica_identity_index('users');", "functions-info.html"));
    t.insert(function("pg_get_object_address", "pg_get_object_address(type text, name text[], args text[]) -> (classid, objid, objsubid)", "Canonical address record for an object.", "SELECT * FROM pg_get_object_address('table', '{public,users}', '{}');", "functions-info.html"));
    t.insert(function("pg_identify_object", "pg_identify_object(classid oid, objid oid, objsubid int) -> (type, schema, name, identity)", "Identify an object by its catalog address.", "SELECT * FROM pg_identify_object('pg_class'::regclass, 'users'::regclass, 0);", "functions-info.html"));
    t.insert(function("pg_identify_object_as_address", "pg_identify_object_as_address(classid oid, objid oid, objsubid int) -> (type text, object_names text[], object_args text[])", "Identify an object as a usable address.", "SELECT * FROM pg_identify_object_as_address('pg_class'::regclass, 'users'::regclass, 0);", "functions-info.html"));
    t.insert(function("pg_describe_object", "pg_describe_object(classid oid, objid oid, objsubid int) -> text", "Human-readable description of an object.", "SELECT pg_describe_object('pg_class'::regclass, 'users'::regclass, 0);", "functions-info.html"));
    t.insert(function("pg_locks", "pg_locks -> view", "View exposing every active lock; useful for blocking diagnostics.", "SELECT * FROM pg_locks WHERE granted = false;", "view-pg-locks.html"));
    t.insert(function("pg_stat_get_backend_idset", "pg_stat_get_backend_idset() -> setof int", "Internal: enumerate backend ids for pg_stat_get_backend_*.", "SELECT pg_stat_get_backend_idset();", "monitoring-stats.html"));
    t.insert(function("pg_get_ruledef", "pg_get_ruledef(rule_oid oid [, pretty boolean]) -> text", "Reconstruct a CREATE RULE statement.", "SELECT pg_get_ruledef(oid) FROM pg_rewrite;", "functions-info.html"));
    t.insert(function("pg_get_function_identity_arguments", "pg_get_function_identity_arguments(funcid oid) -> text", "Function arg signature used in DROP/COMMENT/etc statements.", "SELECT pg_get_function_identity_arguments(oid) FROM pg_proc;", "functions-info.html"));
    t.insert(function("regexp_instr", "regexp_instr(string text, pattern text [, position int] [, occurrence int] [, return_opt int] [, flags text]) -> int", "Position of a regexp match (PG15+).", "SELECT regexp_instr('foo123bar', '[0-9]+');", "functions-matching.html"));
    t.insert(function("regexp_like", "regexp_like(string text, pattern text [, flags text]) -> boolean", "Boolean regexp match (PG15+).", "WHERE regexp_like(email, '^.+@.+\\..+$', 'i')", "functions-matching.html"));
    t.insert(function("similar_to_escape", "similar_to_escape(pattern text [, escape text]) -> text", "Convert a SIMILAR TO pattern to a regular expression.", "SELECT similar_to_escape('he%lo', '#');", "functions-matching.html"));
    t.insert(function("unistr", "unistr(text [, escape text]) -> text", "Decode Unicode escape sequences in a string (PG16+).", "SELECT unistr('\\u0041\\u0042');", "functions-string.html"));
    t.insert(function("date_add", "date_add(timestamptz, interval [, timezone text]) -> timestamptz", "Add an interval to a timestamptz with zone-aware semantics (PG16+).", "SELECT date_add(now(), interval '1 month', 'UTC');", "functions-datetime.html"));
    t.insert(function("date_subtract", "date_subtract(timestamptz, interval [, timezone text]) -> timestamptz", "Subtract an interval from a timestamptz with zone-aware semantics (PG16+).", "SELECT date_subtract(now(), interval '1 month', 'UTC');", "functions-datetime.html"));
    t.insert(function("interval_eq", "interval_eq(a interval, b interval) -> boolean", "Internal comparison: a = b. Use the `=` operator instead in user code.", "SELECT interval_eq('1 day', '24 hours');", "functions-datetime.html"));
    t.insert(function("jsonb_to_record", "jsonb_to_record(jsonb) -> record", "Cast a jsonb object into a record. Used in `AS (col type, ...)` syntax.", "SELECT * FROM jsonb_to_record(payload) AS x(id int, name text);", "functions-json.html"));
    t.insert(function("json_to_record", "json_to_record(json) -> record", "Cast a json object into a record. Used in `AS (col type, ...)` syntax.", "SELECT * FROM json_to_record(my_json) AS x(id int);", "functions-json.html"));
    t.insert(function("jsonb_to_recordset", "jsonb_to_recordset(jsonb) -> setof record", "Cast a jsonb array of objects into a row set.", "SELECT * FROM jsonb_to_recordset(payload) AS x(id int, name text);", "functions-json.html"));
    t.insert(function("json_to_recordset", "json_to_recordset(json) -> setof record", "Cast a json array of objects into a row set.", "SELECT * FROM json_to_recordset(my_json) AS x(id int);", "functions-json.html"));
    t.insert(function("jsonb_populate_record", "jsonb_populate_record(base anyelement, jsonb) -> anyelement", "Cast jsonb into a row type; base is a row prototype.", "SELECT (jsonb_populate_record(NULL::users, payload)).*;", "functions-json.html"));
    t.insert(function("json_populate_record", "json_populate_record(base anyelement, json) -> anyelement", "Cast json into a row type; base is a row prototype.", "SELECT (json_populate_record(NULL::users, my_json)).*;", "functions-json.html"));
    t.insert(function("jsonb_populate_recordset", "jsonb_populate_recordset(base anyelement, jsonb) -> setof anyelement", "Cast jsonb array of objects into a row set of `base`.", "SELECT * FROM jsonb_populate_recordset(NULL::users, payload);", "functions-json.html"));
    t.insert(function("jsonb_concat", "jsonb_concat(jsonb, jsonb) -> jsonb", "Internal name for the `||` operator on jsonb. Prefer the operator.", "SELECT a || b;", "functions-json.html"));
    t.insert(function("jsonb_delete_path", "jsonb_delete_path(jsonb, path text[]) -> jsonb", "Internal name for the `#-` operator. Prefer the operator.", "SELECT data #- '{addr,city}'::text[];", "functions-json.html"));
    t.insert(function("json_array_element", "json_array_element(json, int) -> json", "Internal name for `json -> int`. Use the operator.", "SELECT my_json -> 0;", "functions-json.html"));
    t.insert(function("json_array_element_text", "json_array_element_text(json, int) -> text", "Internal name for `json ->> int`. Use the operator.", "SELECT my_json ->> 0;", "functions-json.html"));
    t.insert(function("jsonb_array_element", "jsonb_array_element(jsonb, int) -> jsonb", "Internal name for `jsonb -> int`. Use the operator.", "SELECT data -> 0;", "functions-json.html"));
    t.insert(function("jsonb_array_element_text", "jsonb_array_element_text(jsonb, int) -> text", "Internal name for `jsonb ->> int`. Use the operator.", "SELECT data ->> 0;", "functions-json.html"));
    t.insert(function("json_object_field", "json_object_field(json, text) -> json", "Internal name for `json -> text`. Use the operator.", "SELECT my_json -> 'addr';", "functions-json.html"));
    t.insert(function("json_object_field_text", "json_object_field_text(json, text) -> text", "Internal name for `json ->> text`. Use the operator.", "SELECT my_json ->> 'name';", "functions-json.html"));
    t.insert(function("jsonb_object_field", "jsonb_object_field(jsonb, text) -> jsonb", "Internal name for `jsonb -> text`. Use the operator.", "SELECT data -> 'addr';", "functions-json.html"));
    t.insert(function("jsonb_object_field_text", "jsonb_object_field_text(jsonb, text) -> text", "Internal name for `jsonb ->> text`. Use the operator.", "SELECT data ->> 'name';", "functions-json.html"));
    t.insert(function("query_to_xml", "query_to_xml(query text, nulls boolean, tableforest boolean, targetns text) -> xml", "Map a query result into XML.", "SELECT query_to_xml('SELECT 1 AS a', true, false, '');", "functions-xml.html"));
    t.insert(function("schema_to_xml", "schema_to_xml(schema name, nulls boolean, tableforest boolean, targetns text) -> xml", "Map every table in a schema into XML.", "SELECT schema_to_xml('public', true, false, '');", "functions-xml.html"));
    t.insert(function("table_to_xml", "table_to_xml(tbl regclass, nulls boolean, tableforest boolean, targetns text) -> xml", "Map a table into XML.", "SELECT table_to_xml('users', true, false, '');", "functions-xml.html"));
    t.insert(function("cursor_to_xml", "cursor_to_xml(cursor refcursor, count int, nulls boolean, tableforest boolean, targetns text) -> xml", "Drain a cursor into XML.", "SELECT cursor_to_xml('c1', 100, true, false, '');", "functions-xml.html"));
    t.insert(function("database_to_xml", "database_to_xml(nulls boolean, tableforest boolean, targetns text) -> xml", "Whole-database XML dump.", "SELECT database_to_xml(true, false, '');", "functions-xml.html"));
    t.insert(function("xpath", "xpath(xpath text, xml xml [, nsarray text[]]) -> xml[]", "Apply an XPath expression to an XML document.", "SELECT xpath('//book/title', payload);", "functions-xml.html"));
    t.insert(function("xpath_exists", "xpath_exists(xpath text, xml xml [, nsarray text[]]) -> boolean", "True when XPath matches anything in the document.", "WHERE xpath_exists('//flag', payload)", "functions-xml.html"));
    t.insert(function("xmltable", "XMLTABLE(<xpath> PASSING <doc> COLUMNS (...) ) -> setof record", "Project XML into rows (SQL/XML).", "SELECT * FROM XMLTABLE('/r/it' PASSING xmldoc COLUMNS id int PATH '@id');", "functions-xml.html"));
    t.insert(function("xmlcomment", "xmlcomment(text) -> xml", "Wrap text in <!-- ... -->.", "SELECT xmlcomment('section');", "functions-xml.html"));
    t.insert(function("xmlconcat", "xmlconcat(xml[]) -> xml", "Concatenate XML fragments.", "SELECT xmlconcat(a, b);", "functions-xml.html"));
    t.insert(function("xmlelement", "XMLELEMENT(NAME name [, XMLATTRIBUTES (...)], <content>) -> xml", "Build an XML element from SQL.", "SELECT xmlelement(name 'r', xmlattributes('1' as id), 'body');", "functions-xml.html"));
    t.insert(function("xmlexists", "xmlexists(xpath text PASSING xml [, ns]) -> boolean", "XPath existence test.", "WHERE xmlexists('/x' PASSING xmldoc)", "functions-xml.html"));
    t.insert(function("xmlforest", "xmlforest(<expr> AS <name>[, ...]) -> xml", "Build a sequence of XML elements.", "SELECT xmlforest(id AS pk, name);", "functions-xml.html"));
    t.insert(function("xmlroot", "xmlroot(xml, VERSION ver text [, STANDALONE yn]) -> xml", "Replace or set the XML root declaration.", "SELECT xmlroot(payload, VERSION '1.0', STANDALONE YES);", "functions-xml.html"));
    t.insert(function("xmlserialize", "XMLSERIALIZE({DOCUMENT|CONTENT} <xml> AS <text_type>) -> text", "Serialise XML into TEXT/VARCHAR/CHARACTER.", "SELECT xmlserialize(document payload as text);", "functions-xml.html"));
    t.insert(function("xmlpi", "xmlpi(NAME name [, content text]) -> xml", "Build a processing instruction.", "SELECT xmlpi(name 'xml-stylesheet', 'href=...');", "functions-xml.html"));
    t.insert(function("xmltext", "xmltext(text) -> xml", "Wrap a text value as XML text node.", "SELECT xmltext('hello');", "functions-xml.html"));
    t.insert(function("range_contains", "range_contains(anyrange, anyrange) -> boolean", "Internal name for the `@>` operator on ranges.", "SELECT '[1,10)'::int4range @> '[3,5)'::int4range;", "rangetypes.html"));
    t.insert(function("range_overlaps", "range_overlaps(anyrange, anyrange) -> boolean", "Internal name for the `&&` operator on ranges.", "SELECT '[1,10)'::int4range && '[5,15)'::int4range;", "rangetypes.html"));
    t.insert(function("range_eq", "range_eq(anyrange, anyrange) -> boolean", "Internal name for `=` on ranges.", "SELECT a = b FROM t;", "rangetypes.html"));
    t.insert(function("range_lt", "range_lt(anyrange, anyrange) -> boolean", "Internal name for `<` on ranges.", "SELECT a < b FROM t;", "rangetypes.html"));
    t.insert(function("range_le", "range_le(anyrange, anyrange) -> boolean", "Internal name for `<=` on ranges.", "SELECT a <= b FROM t;", "rangetypes.html"));
    t.insert(function("range_gt", "range_gt(anyrange, anyrange) -> boolean", "Internal name for `>` on ranges.", "SELECT a > b FROM t;", "rangetypes.html"));
    t.insert(function("range_ge", "range_ge(anyrange, anyrange) -> boolean", "Internal name for `>=` on ranges.", "SELECT a >= b FROM t;", "rangetypes.html"));
    t.insert(function("range_after", "range_after(anyrange, anyrange) -> boolean", "Internal name for the `>>` operator -- strictly after.", "SELECT a >> b FROM t;", "rangetypes.html"));
    t.insert(function("range_before", "range_before(anyrange, anyrange) -> boolean", "Internal name for the `<<` operator -- strictly before.", "SELECT a << b FROM t;", "rangetypes.html"));
    t.insert(function("range_adjacent", "range_adjacent(anyrange, anyrange) -> boolean", "Internal name for the `-|-` operator -- adjacent ranges.", "SELECT a -|- b FROM t;", "rangetypes.html"));
    t.insert(function("unnest_multirange", "unnest(anymultirange) -> setof anyrange", "Expand a multirange into its constituent ranges. Alias of `unnest`.", "SELECT * FROM unnest('{[1,5), [10,15)}'::int4multirange);", "rangetypes.html"));
    t.insert(function("ts_filter", "ts_filter(tsvector, char[]) -> tsvector", "Keep only lexemes with the given weights.", "SELECT ts_filter(to_tsvector('a b c'), '{A,B}');", "textsearch-functions.html"));
    t.insert(function("ts_delete", "ts_delete(tsvector, text|text[]) -> tsvector", "Remove lexemes from a tsvector.", "SELECT ts_delete(vec, 'noise');", "textsearch-functions.html"));
    t.insert(function("ts_rewrite", "ts_rewrite(query tsquery, target tsquery, substitute tsquery) -> tsquery", "Rewrite occurrences of `target` in `query` with `substitute`.", "SELECT ts_rewrite('cat'::tsquery, 'cat'::tsquery, 'feline'::tsquery);", "textsearch-functions.html"));
    t.insert(function("area", "area(box|polygon|circle) -> double precision", "Area of a geometric object.", "SELECT area(box '(0,0),(1,1)');", "functions-geometry.html"));
    t.insert(function("diameter", "diameter(circle) -> double precision", "Diameter of a circle.", "SELECT diameter(circle '<(0,0),5>');", "functions-geometry.html"));
    t.insert(function("height", "height(box) -> double precision", "Vertical span of a box.", "SELECT height(box '(0,0),(3,4)');", "functions-geometry.html"));
    t.insert(function("width", "width(box) -> double precision", "Horizontal span of a box.", "SELECT width(box '(0,0),(3,4)');", "functions-geometry.html"));
    t.insert(function("slope", "slope(point, point) -> double precision", "Slope of the line through two points.", "SELECT slope(point '(0,0)', point '(1,1)');", "functions-geometry.html"));
    t.insert(function("center", "center(box|circle) -> point", "Centroid of a geometric object.", "SELECT center(box '(0,0),(2,2)');", "functions-geometry.html"));
}

fn part_3(t: &mut Table)
    requires
        old(t).wf(),
        old(t).table_kind() == Kind::Function,
    ensures
        final(t).wf(),
        final(t).table_kind() == Kind::Function,
        final(t).contents() == function_part_3(old(t).contents()),
{
    t.insert(function("distance", "<obj> <-> <obj> -- distance operator alias.", "Distance between two geometric objects.", "SELECT point '(0,0)' <-> point '(3,4)';", "functions-geometry.html"));
    t.insert(function("isclosed", "isclosed(path) -> boolean", "True when the path is closed.", "SELECT isclosed(path '((0,0),(1,1))');", "functions-geometry.html"));
    t.insert(function("isopen", "isopen(path) -> boolean", "True when the path is open.", "SELECT isopen(path '[(0,0),(1,1)]');", "functions-geometry.html"));
    t.insert(function("npoints", "npoints(path|polygon) -> int", "Number of vertices in a path or polygon.", "SELECT npoints(polygon '((0,0),(1,0),(1,1))');", "functions-geometry.html"));
    t.insert(function("pclose", "pclose(path) -> path", "Convert a path to a closed path.", "SELECT pclose(path '[(0,0),(1,1)]');", "functions-geometry.html"));
    t.insert(function("popen", "popen(path) -> path", "Convert a path to an open path.", "SELECT popen(path '((0,0),(1,1))');", "functions-geometry.html"));
    t.insert(function("radius", "radius(circle) -> double precision", "Radius of a circle.", "SELECT radius(circle '<(0,0),5>');", "functions-geometry.html"));
    t.insert(function("age", "age(timestamp [, timestamp]) -> interval", "Time elapsed between two timestamps (defaults to now()::date if second arg omitted).", "SELECT age(now(), birth) FROM users;", "functions-datetime.html#FUNCTIONS-DATETIME-CURRENT"));
    t.insert(function("date_part", "date_part(text, timestamp|interval) -> double precision", "Extract sub-field. SQL-standard form: `EXTRACT(<field> FROM ...)`.", "SELECT date_part('year', now());", "functions-datetime.html#FUNCTIONS-DATETIME-EXTRACT"));
    t.insert(function("date_trunc", "date_trunc(text, timestamp [, text]) -> timestamp", "Round timestamp down to a unit (hour/day/week/month/year/...). Optional third arg = time zone.", "SELECT date_trunc('day', now()), date_trunc('day', now(), 'UTC');", "functions-datetime.html#FUNCTIONS-DATETIME-TRUNC"));
    t.insert(function("to_char", "to_char(value, format) -> text", "Format a number/date/timestamp/interval to text using a pattern (`YYYY-MM-DD`, `FM999.99`, etc).", "SELECT to_char(now(), 'YYYY-MM-DD HH24:MI:SS');", "functions-formatting.html"));
    t.insert(function("to_date", "to_date(text, text) -> date", "Parse text to date using a pattern.", "SELECT to_date('2026-05-30', 'YYYY-MM-DD');", "functions-formatting.html"));
    t.insert(function("to_number", "to_number(text, text) -> numeric", "Parse text to numeric using a pattern.", "SELECT to_number('$1,234.50', 'L9,999.99');", "functions-formatting.html"));
    t.insert(function("to_timestamp", "to_timestamp(text, text) -> timestamptz | to_timestamp(double) -> timestamptz", "Two forms: pattern-parse text, or convert Unix epoch seconds to timestamptz.", "SELECT to_timestamp('2026-05-30','YYYY-MM-DD'), to_timestamp(1717000000);", "functions-formatting.html"));
    t.insert(function("justify_days", "justify_days(interval) -> interval", "Roll 30-day blocks into months.", "SELECT justify_days(interval '90 days');", "functions-datetime.html"));
    t.insert(function("justify_hours", "justify_hours(interval) -> interval", "Roll 24-hour blocks into days.", "SELECT justify_hours(interval '49 hours');", "functions-datetime.html"));
    t.insert(function("justify_interval", "justify_interval(interval) -> interval", "Apply both day and hour justifications.", "SELECT justify_interval(interval '1 month 100 days 2 hours');", "functions-datetime.html"));
    t.insert(function("make_date", "make_date(year int, month int, day int) -> date", "Build a date from components.", "SELECT make_date(2026, 5, 30);", "functions-datetime.html"));
    t.insert(function("make_time", "make_time(hour int, min int, sec double precision) -> time", "Build a time-of-day from components.", "SELECT make_time(14, 30, 0);", "functions-datetime.html"));
    t.insert(function("make_timestamp", "make_timestamp(year, month, day, hour, min, sec) -> timestamp", "Build a timestamp (no zone) from components.", "SELECT make_timestamp(2026, 5, 30, 14, 30, 0);", "functions-datetime.html"));
    t.insert(function("make_timestamptz", "make_timestamptz(year, month, day, hour, min, sec [, tz]) -> timestamptz", "Build a timestamptz from components; optional time zone.", "SELECT make_timestamptz(2026, 5, 30, 14, 30, 0, 'UTC');", "functions-datetime.html"));
    t.insert(function("make_interval", "make_interval([years=][, months=][, weeks=][, days=][, hours=][, mins=][, secs=]) -> interval", "Build an interval from named components.", "SELECT make_interval(days => 7, hours => 12);", "functions-datetime.html"));
    t.insert(function("to_regclass", "to_regclass(text) -> regclass", "Look up table OID by name. Returns NULL when not found (vs `::regclass` which errors).", "SELECT to_regclass('public.users') IS NOT NULL;", "functions-info.html#FUNCTIONS-INFO-CATALOG"));
    t.insert(function("to_regtype", "to_regtype(text) -> regtype", "Look up type OID by name; NULL when missing.", "SELECT to_regtype('int4') IS NOT NULL;", "functions-info.html#FUNCTIONS-INFO-CATALOG"));
    t.insert(function("to_regproc", "to_regproc(text) -> regproc", "Look up function OID by simple name; NULL when missing.", "SELECT to_regproc('now') IS NOT NULL;", "functions-info.html#FUNCTIONS-INFO-CATALOG"));
    t.insert(function("to_regprocedure", "to_regprocedure(text) -> regprocedure", "Look up function OID by signature `name(arg_types)`; NULL when missing.", "SELECT to_regprocedure('pg_size_pretty(bigint)') IS NOT NULL;", "functions-info.html#FUNCTIONS-INFO-CATALOG"));
    t.insert(function("jsonb_set", "jsonb_set(target jsonb, path text[], new_value jsonb [, create_missing boolean]) -> jsonb", "Set or replace a nested value at `path`. `create_missing` (default true) inserts missing keys.", "SELECT jsonb_set('{\"a\":1}'::jsonb, '{b,c}', '42'::jsonb, true);", "functions-json.html#FUNCTIONS-JSON-PROCESSING-TABLE"));
    t.insert(function("jsonb_strip_nulls", "jsonb_strip_nulls(jsonb) -> jsonb", "Recursively remove all keys with NULL values.", "SELECT jsonb_strip_nulls('{\"a\":1,\"b\":null}'::jsonb);", "functions-json.html#FUNCTIONS-JSON-PROCESSING-TABLE"));
    t.insert(function("jsonb_pretty", "jsonb_pretty(jsonb) -> text", "Pretty-print jsonb with indentation.", "SELECT jsonb_pretty('{\"a\":[1,2]}'::jsonb);", "functions-json.html#FUNCTIONS-JSON-PROCESSING-TABLE"));
    t.insert(function("pg_size_pretty", "pg_size_pretty(bigint) -> text", "Format a byte count as human-readable string (kB / MB / GB / TB).", "SELECT pg_size_pretty(pg_database_size(current_database()));", "functions-admin.html#FUNCTIONS-ADMIN-DBSIZE"));
    t.insert(function("pg_database_size", "pg_database_size(name|oid) -> bigint", "Total disk usage of a database in bytes.", "SELECT pg_database_size(current_database());", "functions-admin.html#FUNCTIONS-ADMIN-DBSIZE"));
    t.insert(function("pg_table_size", "pg_table_size(regclass) -> bigint", "Bytes used by table's main fork + FSM/VM (excludes indexes/TOAST).", "SELECT pg_table_size('users');", "functions-admin.html#FUNCTIONS-ADMIN-DBSIZE"));
    t.insert(function("pg_indexes_size", "pg_indexes_size(regclass) -> bigint", "Total bytes used by all indexes on a table.", "SELECT pg_indexes_size('users');", "functions-admin.html#FUNCTIONS-ADMIN-DBSIZE"));
    t.insert(function("pg_relation_size", "pg_relation_size(regclass [, text]) -> bigint", "Bytes of a specific fork (main/fsm/vm/init); default main.", "SELECT pg_relation_size('users', 'main');", "functions-admin.html#FUNCTIONS-ADMIN-DBSIZE"));
    t.insert(function("pg_total_relation_size", "pg_total_relation_size(regclass) -> bigint", "Table + TOAST + every index, in bytes.", "SELECT pg_total_relation_size('users');", "functions-admin.html#FUNCTIONS-ADMIN-DBSIZE"));
    t.insert(function("lower", "lower(text) -> text", "Lowercase text using collation rules.", "SELECT lower('HELLO');", "functions-string.html#FUNCTIONS-STRING-SQL"));
    t.insert(function("upper", "upper(text) -> text", "Uppercase text using collation rules.", "SELECT upper('hello');", "functions-string.html#FUNCTIONS-STRING-SQL"));
    t.insert(function("initcap", "initcap(text) -> text", "Capitalize the first letter of each word.", "SELECT initcap('hello world');", "functions-string.html#FUNCTIONS-STRING-OTHER"));
    t.insert(function("left", "left(text, int) -> text", "First n characters; negative n drops the last |n| chars.", "SELECT left('postgres', 4);", "functions-string.html#FUNCTIONS-STRING-OTHER"));
    t.insert(function("right", "right(text, int) -> text", "Last n characters; negative n drops the first |n| chars.", "SELECT right('postgres', 3);", "functions-string.html#FUNCTIONS-STRING-OTHER"));
    t.insert(function("substr", "substr(text, from int [, count int]) -> text", "PG alias of `SUBSTRING`. 1-based.", "SELECT substr('postgres', 5, 3);", "functions-string.html#FUNCTIONS-STRING-OTHER"));
    t.insert(function("trim", "trim([LEADING|TRAILING|BOTH] [chars] FROM text) -> text", "Strip leading/trailing chars (default whitespace).", "SELECT trim(BOTH '\"' FROM '\"hi\"');", "functions-string.html#FUNCTIONS-STRING-SQL"));
    t.insert(function("translate", "translate(text, from text, to text) -> text", "Per-char map: replace each char in `from` with the same-index char in `to`; chars without a mapping are deleted.", "SELECT translate('12345', '143', 'ax');", "functions-string.html#FUNCTIONS-STRING-OTHER"));
    t.insert(function("replace", "replace(text, from text, to text) -> text", "Replace every literal occurrence of `from` with `to`.", "SELECT replace('foo bar foo', 'foo', 'baz');", "functions-string.html#FUNCTIONS-STRING-OTHER"));
    t.insert(function("overlay", "overlay(text PLACING text FROM int [FOR int]) -> text", "Substring replacement starting at 1-based position.", "SELECT overlay('Postgres' PLACING 'SQL' FROM 5);", "functions-string.html#FUNCTIONS-STRING-SQL"));
    t.insert(function("position", "position(needle IN haystack) -> int", "1-based index of needle in haystack; 0 when not found.", "SELECT position('@' IN 'a@b.com');", "functions-string.html#FUNCTIONS-STRING-SQL"));
    t.insert(function("octet_length", "octet_length(text|bytea) -> int", "Length in bytes (not characters).", "SELECT octet_length('café');", "functions-string.html#FUNCTIONS-STRING-SQL"));
    t.insert(function("bit_length", "bit_length(text|bytea) -> int", "Length in bits.", "SELECT bit_length('a');", "functions-string.html#FUNCTIONS-STRING-SQL"));
    t.insert(function("char_length", "char_length(text) -> int", "Length in characters. Alias `character_length`, `length`.", "SELECT char_length('café');", "functions-string.html#FUNCTIONS-STRING-SQL"));
    t.insert(function("character_length", "character_length(text) -> int", "SQL-standard alias of `char_length`.", "SELECT character_length('café');", "functions-string.html#FUNCTIONS-STRING-SQL"));
    t.insert(function("length", "length(text|bytea) -> int", "Characters for text; bytes for bytea.", "SELECT length('café'), length('café'::bytea);", "functions-string.html#FUNCTIONS-STRING-SQL"));
    t.insert(function("encode", "encode(bytea, format text) -> text", "Encode bytes as text: 'base64', 'hex', 'escape'.", "SELECT encode(sha256('x'::bytea), 'hex');", "functions-binarystring.html"));
    t.insert(function("decode", "decode(text, format text) -> bytea", "Decode text into bytes using a format ('base64', 'hex', 'escape').", "SELECT decode('48656c6c6f', 'hex');", "functions-binarystring.html"));
    t.insert(function("ascii", "ascii(text) -> int", "Unicode codepoint of the first character.", "SELECT ascii('A');", "functions-string.html#FUNCTIONS-STRING-OTHER"));
    t.insert(function("lpad", "lpad(text, length int [, fill text]) -> text", "Left-pad to length with `fill` (default space); truncates when text longer than length.", "SELECT lpad('42', 5, '0');", "functions-string.html#FUNCTIONS-STRING-OTHER"));
    t.insert(function("rpad", "rpad(text, length int [, fill text]) -> text", "Right-pad to length with `fill` (default space).", "SELECT rpad('x', 5, '-');", "functions-string.html#FUNCTIONS-STRING-OTHER"));
    t.insert(function("btrim", "btrim(text [, chars text]) -> text", "Trim chars from BOTH sides (default whitespace).", "SELECT btrim(' hello ');", "functions-string.html#FUNCTIONS-STRING-OTHER"));
    t.insert(function("ltrim", "ltrim(text [, chars text]) -> text", "Trim chars from LEADING side.", "SELECT ltrim('00042', '0');", "functions-string.html#FUNCTIONS-STRING-OTHER"));
    t.insert(function("rtrim", "rtrim(text [, chars text]) -> text", "Trim chars from TRAILING side.", "SELECT rtrim('hello   ');", "functions-string.html#FUNCTIONS-STRING-OTHER"));
    t.insert(function("repeat", "repeat(text, int) -> text", "Concatenate text n times.", "SELECT repeat('-', 30);", "functions-string.html#FUNCTIONS-STRING-OTHER"));
    t.insert(function("reverse", "reverse(text) -> text", "Reverse characters (UTF-8 safe).", "SELECT reverse('abc');", "functions-string.html#FUNCTIONS-STRING-OTHER"));
    t.insert(function("split_part", "split_part(text, delim text, field int) -> text", "Return the nth field after splitting by delim (1-based; negative counts from end since PG14).", "SELECT split_part('a,b,c', ',', 2);", "functions-string.html#FUNCTIONS-STRING-OTHER"));
    t.insert(function("starts_with", "starts_with(text, prefix text) -> boolean", "True when text begins with prefix. PG14+; SQL-portable equivalent: `text LIKE prefix || '%'`.", "SELECT starts_with('postgres', 'post');", "functions-string.html#FUNCTIONS-STRING-OTHER"));
    t.insert(function("concat", "concat(any [, ...]) -> text", "Concatenate args as text; NULL args become empty (unlike `||`).", "SELECT concat('a', NULL, 'b');", "functions-string.html#FUNCTIONS-STRING-OTHER"));
    t.insert(function("concat_ws", "concat_ws(sep text, any [, ...]) -> text", "Concatenate with separator; NULLs skipped.", "SELECT concat_ws(',', 1, NULL, 'x');", "functions-string.html#FUNCTIONS-STRING-OTHER"));
    t.insert(function("format", "format(fmt text, args any ...) -> text", "printf-style: %s, %I (identifier-quote), %L (literal-quote). Safer than ad-hoc concat for dynamic SQL.", "SELECT format('SELECT * FROM %I WHERE id = %L', 'users', 42);", "functions-string.html#FUNCTIONS-STRING-OTHER"));
    t.insert(function("quote_ident", "quote_ident(text) -> text", "Double-quote text if needed to use as an SQL identifier. Use for safe dynamic SQL.", "SELECT quote_ident('users with spaces');", "functions-string.html#FUNCTIONS-STRING-OTHER"));
    t.insert(function("quote_literal", "quote_literal(text) -> text", "Single-quote text into an SQL string literal. NULL in -> empty string; use `quote_nullable` to preserve NULL.", "SELECT quote_literal('O''Reilly');", "functions-string.html#FUNCTIONS-STRING-OTHER"));
    t.insert(function("quote_nullable", "quote_nullable(any) -> text", "Like `quote_literal` but returns the unquoted text `NULL` for NULL input.", "SELECT quote_nullable(NULL::text);", "functions-string.html#FUNCTIONS-STRING-OTHER"));
    t.insert(function("string_to_array", "string_to_array(text, delim text [, null_string text]) -> text[]", "Split text by delim into an array. Optional `null_string` makes matching tokens NULL.", "SELECT string_to_array('a,,c', ',', '');", "functions-array.html"));
    t.insert(function("array_to_string", "array_to_string(anyarray, delim text [, null_string text]) -> text", "Join array elements with delim; NULL elements use `null_string` (or are skipped if omitted).", "SELECT array_to_string(ARRAY[1,2,3], ',');", "functions-array.html"));
    t.insert(function("string_agg", "string_agg(text, delim text [ORDER BY ...]) -> text", "Aggregate: concat per-group strings with delim. Use ORDER BY for deterministic output.", "SELECT string_agg(name, ', ' ORDER BY name) FROM users GROUP BY org_id;", "functions-aggregate.html#FUNCTIONS-AGGREGATE-TABLE"));
    t.insert(function("array_agg", "array_agg(any [ORDER BY ...]) -> anyarray", "Aggregate: collect rows into an array.", "SELECT array_agg(id ORDER BY created_at) FROM events;", "functions-aggregate.html#FUNCTIONS-AGGREGATE-TABLE"));
    t.insert(function("array_append", "array_append(anyarray, any) -> anyarray", "Append an element. Same as `arr || elem`.", "SELECT array_append(ARRAY[1,2], 3);", "functions-array.html"));
    t.insert(function("array_prepend", "array_prepend(any, anyarray) -> anyarray", "Prepend an element. Same as `elem || arr`.", "SELECT array_prepend(0, ARRAY[1,2]);", "functions-array.html"));
}

fn part_4(t: &mut Table)
    requires
        old(t).wf(),
        old(t).table_kind() == Kind::Function,
    ensures
        final(t).wf(),
        final(t).table_kind() == Kind::Function,
        final(t).contents() == function_part_4(old(t).contents()),
{
    t.insert(function("array_cat", "array_cat(anyarray, anyarray) -> anyarray", "Concatenate two arrays. Same as `a || b`.", "SELECT array_cat(ARRAY[1,2], ARRAY[3,4]);", "functions-array.html"));
    t.insert(function("array_remove", "array_remove(anyarray, any) -> anyarray", "Remove every occurrence of a value from a 1-D array.", "SELECT array_remove(ARRAY[1,2,3,2], 2);", "functions-array.html"));
    t.insert(function("array_replace", "array_replace(anyarray, from any, to any) -> anyarray", "Replace every occurrence of `from` with `to`.", "SELECT array_replace(ARRAY[1,2,3], 2, 20);", "functions-array.html"));
    t.insert(function("array_position", "array_position(anyarray, any [, start int]) -> int", "1-based index of first occurrence; NULL when absent.", "SELECT array_position(ARRAY['a','b','c'], 'b');", "functions-array.html"));
    t.insert(function("array_positions", "array_positions(anyarray, any) -> int[]", "All 1-based indexes of a value.", "SELECT array_positions(ARRAY[1,2,3,2,1], 2);", "functions-array.html"));
    t.insert(function("array_length", "array_length(anyarray, dim int) -> int", "Length along dimension `dim`.", "SELECT array_length(ARRAY[1,2,3], 1);", "functions-array.html"));
    t.insert(function("array_lower", "array_lower(anyarray, dim int) -> int", "Lower bound (default 1) of dimension.", "SELECT array_lower(ARRAY[1,2,3], 1);", "functions-array.html"));
    t.insert(function("array_upper", "array_upper(anyarray, dim int) -> int", "Upper bound of dimension.", "SELECT array_upper(ARRAY[1,2,3], 1);", "functions-array.html"));
    t.insert(function("array_ndims", "array_ndims(anyarray) -> int", "Number of dimensions.", "SELECT array_ndims(ARRAY[[1,2],[3,4]]);", "functions-array.html"));
    t.insert(function("array_dims", "array_dims(anyarray) -> text", "Text representation of dimensions, e.g. `[1:3]`.", "SELECT array_dims(ARRAY[[1,2],[3,4]]);", "functions-array.html"));
    t.insert(function("cardinality", "cardinality(anyarray) -> int", "Total element count across all dimensions.", "SELECT cardinality(ARRAY[[1,2],[3,4]]);", "functions-array.html"));
    t.insert(function("unnest", "unnest(anyarray [, anyarray ...]) -> setof element", "Expand array(s) into rows. Multi-arg form pads shorter arrays with NULL.", "SELECT * FROM unnest(ARRAY[1,2,3]) AS t(v);", "functions-array.html"));
    t.insert(function("array_fill", "array_fill(elem any, dims int[] [, lowers int[]]) -> anyarray", "Fill an array of given dimensions with `elem`.", "SELECT array_fill(0, ARRAY[3,3]);", "functions-array.html"));
    t.insert(function("generate_subscripts", "generate_subscripts(anyarray, dim int [, reverse boolean]) -> setof int", "Set of valid subscripts along a dimension.", "SELECT i, a[i] FROM (SELECT ARRAY['a','b','c'] AS a) s, generate_subscripts(a, 1) AS i;", "functions-array.html"));
    t.insert(function("jsonb_path_query", "jsonb_path_query(jsonb, jsonpath [, vars jsonb [, silent boolean]]) -> setof jsonb", "JSONPath query returning each match as a row.", "SELECT jsonb_path_query('{\"a\":[1,2,3]}'::jsonb, '$.a[*]');", "functions-json.html#FUNCTIONS-SQLJSON-PATH"));
    t.insert(function("jsonb_path_query_array", "jsonb_path_query_array(jsonb, jsonpath [, ...]) -> jsonb", "JSONPath query returning all matches as a JSON array.", "SELECT jsonb_path_query_array(j, '$.tags[*]');", "functions-json.html#FUNCTIONS-SQLJSON-PATH"));
    t.insert(function("jsonb_path_query_first", "jsonb_path_query_first(jsonb, jsonpath [, ...]) -> jsonb", "Return only the first JSONPath match.", "SELECT jsonb_path_query_first(j, '$.name');", "functions-json.html#FUNCTIONS-SQLJSON-PATH"));
    t.insert(function("jsonb_path_exists", "jsonb_path_exists(jsonb, jsonpath [, ...]) -> boolean", "True when JSONPath matches at least one value.", "SELECT jsonb_path_exists(j, '$.id');", "functions-json.html#FUNCTIONS-SQLJSON-PATH"));
    t.insert(function("jsonb_path_match", "jsonb_path_match(jsonb, jsonpath [, ...]) -> boolean", "Evaluate a JSONPath that yields a single boolean.", "SELECT jsonb_path_match(j, '$.age > 18');", "functions-json.html#FUNCTIONS-SQLJSON-PATH"));
    t.insert(function("jsonb_array_length", "jsonb_array_length(jsonb) -> int", "Length of a JSON array; errors on non-array.", "SELECT jsonb_array_length('[1,2,3]'::jsonb);", "functions-json.html#FUNCTIONS-JSON-PROCESSING-TABLE"));
    t.insert(function("jsonb_object_keys", "jsonb_object_keys(jsonb) -> setof text", "Top-level keys of a JSON object.", "SELECT jsonb_object_keys('{\"a\":1,\"b\":2}'::jsonb);", "functions-json.html#FUNCTIONS-JSON-PROCESSING-TABLE"));
    t.insert(function("jsonb_each", "jsonb_each(jsonb) -> setof (key text, value jsonb)", "Iterate object's (key, value) pairs.", "SELECT * FROM jsonb_each('{\"a\":1,\"b\":2}'::jsonb);", "functions-json.html#FUNCTIONS-JSON-PROCESSING-TABLE"));
    t.insert(function("jsonb_each_text", "jsonb_each_text(jsonb) -> setof (key text, value text)", "Same as `jsonb_each` but values cast to text.", "SELECT * FROM jsonb_each_text('{\"a\":1}'::jsonb);", "functions-json.html#FUNCTIONS-JSON-PROCESSING-TABLE"));
    t.insert(function("jsonb_typeof", "jsonb_typeof(jsonb) -> text", "JSON type: 'object', 'array', 'string', 'number', 'boolean', 'null'.", "SELECT jsonb_typeof('[1,2,3]'::jsonb);", "functions-json.html#FUNCTIONS-JSON-PROCESSING-TABLE"));
    t.insert(function("json_object_agg", "json_object_agg(key, value) -> json", "Aggregate: build a JSON object from key/value pairs.", "SELECT json_object_agg(name, value) FROM kv;", "functions-aggregate.html#FUNCTIONS-AGGREGATE-TABLE"));
    t.insert(function("jsonb_object_agg", "jsonb_object_agg(key, value) -> jsonb", "Aggregate: build a jsonb object from key/value pairs.", "SELECT jsonb_object_agg(name, value) FROM kv;", "functions-aggregate.html#FUNCTIONS-AGGREGATE-TABLE"));
    t.insert(function("json_agg", "json_agg(any [ORDER BY ...]) -> json", "Aggregate: collect rows as a JSON array.", "SELECT json_agg(row(id, name) ORDER BY id) FROM users;", "functions-aggregate.html#FUNCTIONS-AGGREGATE-TABLE"));
    t.insert(function("jsonb_agg", "jsonb_agg(any [ORDER BY ...]) -> jsonb", "Aggregate: collect rows as a jsonb array.", "SELECT jsonb_agg(t ORDER BY id) FROM (SELECT id, name FROM users) t;", "functions-aggregate.html#FUNCTIONS-AGGREGATE-TABLE"));
    t.insert(function("row_to_json", "row_to_json(record [, pretty boolean]) -> json", "Serialize a row/composite to JSON.", "SELECT row_to_json(u) FROM users u LIMIT 1;", "functions-json.html#FUNCTIONS-JSON-CREATION-TABLE"));
    t.insert(function("json_build_object", "json_build_object(any ...) -> json", "Alternating key/value args, JSON object out.", "SELECT json_build_object('id', 1, 'name', 'a');", "functions-json.html#FUNCTIONS-JSON-CREATION-TABLE"));
    t.insert(function("jsonb_build_object", "jsonb_build_object(any ...) -> jsonb", "Same as `json_build_object` but jsonb.", "SELECT jsonb_build_object('id', 1, 'name', 'a');", "functions-json.html#FUNCTIONS-JSON-CREATION-TABLE"));
    t.insert(function("json_build_array", "json_build_array(any ...) -> json", "Variadic args to a JSON array.", "SELECT json_build_array(1, 'x', true);", "functions-json.html#FUNCTIONS-JSON-CREATION-TABLE"));
    t.insert(function("jsonb_build_array", "jsonb_build_array(any ...) -> jsonb", "Variadic args to a jsonb array.", "SELECT jsonb_build_array(1, 'x', true);", "functions-json.html#FUNCTIONS-JSON-CREATION-TABLE"));
    t.insert(function("abs", "abs(numeric|int|...) -> same", "Absolute value.", "SELECT abs(-12);", "functions-math.html"));
    t.insert(function("ceiling", "ceiling(numeric) -> numeric", "Smallest integer >= argument (alias of `ceil`).", "SELECT ceiling(1.2);", "functions-math.html"));
    t.insert(function("floor", "floor(numeric) -> numeric", "Largest integer <= argument.", "SELECT floor(1.9);", "functions-math.html"));
    t.insert(function("round", "round(numeric [, int]) -> numeric", "Round half-away-from-zero to N decimals (default 0).", "SELECT round(2.567, 2);", "functions-math.html"));
    t.insert(function("trunc", "trunc(numeric [, int]) -> numeric", "Truncate toward zero to N decimals.", "SELECT trunc(2.567, 1);", "functions-math.html"));
    t.insert(function("div", "div(numerator, denominator) -> numeric", "Integer division (truncated toward zero).", "SELECT div(7, 2);", "functions-math.html"));
    t.insert(function("mod", "mod(a, b) -> same", "Remainder of `a / b`. Sign follows the dividend.", "SELECT mod(10, 3);", "functions-math.html"));
    t.insert(function("power", "power(base, exp) -> double precision|numeric", "Exponentiation; alias of `^`.", "SELECT power(2, 10);", "functions-math.html"));
    t.insert(function("log", "log(b numeric, x numeric) -> numeric | log(numeric) -> numeric", "Two-arg: log of x in base b. One-arg: base 10.", "SELECT log(2.0, 8.0), log(100);", "functions-math.html"));
    t.insert(function("sqrt", "sqrt(numeric|double precision) -> same", "Square root.", "SELECT sqrt(144);", "functions-math.html"));
    t.insert(function("sign", "sign(numeric) -> numeric", "-1, 0, or 1.", "SELECT sign(-3), sign(0), sign(5);", "functions-math.html"));
    t.insert(function("cos", "cos(double precision) -> double precision", "Cosine (radians).", "SELECT cos(0);", "functions-math.html"));
    t.insert(function("tan", "tan(double precision) -> double precision", "Tangent (radians).", "SELECT tan(pi()/4);", "functions-math.html"));
    t.insert(function("asin", "asin(double precision) -> double precision", "Inverse sine; result in radians.", "SELECT asin(1);", "functions-math.html"));
    t.insert(function("acos", "acos(double precision) -> double precision", "Inverse cosine; result in radians.", "SELECT acos(0);", "functions-math.html"));
    t.insert(function("atan", "atan(double precision) -> double precision", "Inverse tangent; result in radians.", "SELECT atan(1);", "functions-math.html"));
    t.insert(function("atan2", "atan2(y double precision, x double precision) -> double precision", "Two-arg arctan; quadrant-aware.", "SELECT atan2(1, 1);", "functions-math.html"));
    t.insert(function("degrees", "degrees(double precision) -> double precision", "Radians -> degrees.", "SELECT degrees(pi());", "functions-math.html"));
    t.insert(function("radians", "radians(double precision) -> double precision", "Degrees -> radians.", "SELECT radians(180);", "functions-math.html"));
    t.insert(function("random", "random() -> double precision", "Uniform [0,1). NOT cryptographically secure -- use `gen_random_uuid()`/`pgcrypto` for tokens.", "SELECT random();", "functions-math.html"));
    t.insert(function("setseed", "setseed(double precision) -> void", "Seed `random()` with a value in [-1,1] for reproducibility within the session.", "SELECT setseed(0.42); SELECT random();", "functions-math.html"));
    t.insert(function("scale", "scale(numeric) -> int", "Display scale (digits after decimal point).", "SELECT scale(1.23000);", "functions-math.html"));
    t.insert(function("min_scale", "min_scale(numeric) -> int", "Minimum scale needed to represent the value exactly (no trailing zeros).", "SELECT min_scale(1.23000);", "functions-math.html"));
    t.insert(function("trim_scale", "trim_scale(numeric) -> numeric", "Strip trailing zeros from the fractional part.", "SELECT trim_scale(1.23000);", "functions-math.html"));
    t.insert(function("regexp_match", "regexp_match(text, pattern [, flags]) -> text[]", "Return the first match's capture groups as an array; NULL when no match.", "SELECT regexp_match('foo123bar', '([a-z]+)(\\d+)');", "functions-matching.html#FUNCTIONS-POSIX-REGEXP"));
    t.insert(function("regexp_matches", "regexp_matches(text, pattern [, flags]) -> setof text[]", "All matches as rows. Flag `g` returns every match (else just the first).", "SELECT regexp_matches('aabbcc', '([a-z])\\1', 'g');", "functions-matching.html#FUNCTIONS-POSIX-REGEXP"));
    t.insert(function("regexp_replace", "regexp_replace(text, pattern, replacement [, flags]) -> text", "Replace matches. Use `g` flag for global, `i` for case-insensitive.", "SELECT regexp_replace('Hello world', 'world', 'PG', 'gi');", "functions-matching.html#FUNCTIONS-POSIX-REGEXP"));
    t.insert(function("regexp_split_to_array", "regexp_split_to_array(text, pattern [, flags]) -> text[]", "Split text on regex matches into an array.", "SELECT regexp_split_to_array('a, b ,c', '\\s*,\\s*');", "functions-matching.html#FUNCTIONS-POSIX-REGEXP"));
    t.insert(function("regexp_split_to_table", "regexp_split_to_table(text, pattern [, flags]) -> setof text", "Split text on regex matches into rows.", "SELECT regexp_split_to_table('a;b;c', ';');", "functions-matching.html#FUNCTIONS-POSIX-REGEXP"));
    t.insert(function("regexp_count", "regexp_count(text, pattern [, start int [, flags text]]) -> int", "Count matches (PG15+).", "SELECT regexp_count('abcabc', 'b');", "functions-matching.html#FUNCTIONS-POSIX-REGEXP"));
    t.insert(function("regexp_substr", "regexp_substr(text, pattern [, start int [, n int [, flags text [, subexpr int]]]]) -> text", "Return the nth match (PG15+).", "SELECT regexp_substr('a1 b2 c3', '[a-z]\\d');", "functions-matching.html#FUNCTIONS-POSIX-REGEXP"));
    t.insert(function("to_tsvector", "to_tsvector([config regconfig,] text) -> tsvector", "Tokenize + normalize text into a tsvector (default config: `default_text_search_config`).", "SELECT to_tsvector('english', 'The quick brown fox');", "functions-textsearch.html"));
    t.insert(function("to_tsquery", "to_tsquery([config,] text) -> tsquery", "Parse `& | ! <-> ()`-style query into tsquery. Errors on operator chars in raw user input -- prefer `websearch_to_tsquery` for that.", "SELECT to_tsquery('english', 'fox & jump:*');", "functions-textsearch.html"));
    t.insert(function("plainto_tsquery", "plainto_tsquery([config,] text) -> tsquery", "Treat input as plain words AND-joined; ignores operators.", "SELECT plainto_tsquery('english', 'quick fox');", "functions-textsearch.html"));
    t.insert(function("phraseto_tsquery", "phraseto_tsquery([config,] text) -> tsquery", "Like `plainto_tsquery` but words joined with phrase distance operator `<->`.", "SELECT phraseto_tsquery('english', 'quick brown fox');", "functions-textsearch.html"));
    t.insert(function("websearch_to_tsquery", "websearch_to_tsquery([config,] text) -> tsquery", "Google-style: \"quoted phrases\", -minus, OR. Safe for raw user input.", "SELECT websearch_to_tsquery('english', '\"quick fox\" OR -dog');", "functions-textsearch.html"));
    t.insert(function("ts_rank", "ts_rank([weights,] tsvector, tsquery [, normalization int]) -> real", "Rank by term frequency. Default weights {0.1, 0.2, 0.4, 1.0} for D,C,B,A.", "SELECT ts_rank(doc, q) FROM articles, websearch_to_tsquery('postgres') q WHERE doc @@ q ORDER BY 1 DESC;", "functions-textsearch.html"));
    t.insert(function("ts_rank_cd", "ts_rank_cd([weights,] tsvector, tsquery [, normalization int]) -> real", "Cover-density rank (rewards lexeme proximity).", "SELECT ts_rank_cd(doc, q) FROM articles, q;", "functions-textsearch.html"));
    t.insert(function("ts_headline", "ts_headline([config,] text|tsvector, tsquery [, options text]) -> text", "Highlight matching lexemes in text snippet.", "SELECT ts_headline('english', body, q, 'MaxFragments=3') FROM articles, websearch_to_tsquery('pg') q;", "functions-textsearch.html"));
    t.insert(function("numnode", "numnode(tsquery) -> int", "Number of nodes in a tsquery (for query-complexity checks).", "SELECT numnode('a & b'::tsquery);", "functions-textsearch.html"));
    t.insert(function("queries_to_xml", "queries_to_xml(tableset_query text [, ...]) -> xml", "Run query and return result-set as XML. Companion of `query_to_xml`.", "SELECT queries_to_xml('SELECT * FROM t;', true, false, '');", "functions-xml.html#FUNCTIONS-XML-MAPPING"));
    t.insert(function("isempty", "isempty(anyrange|anymultirange) -> boolean", "True when range/multirange covers zero elements.", "SELECT isempty('[5,5)'::int4range);", "functions-range.html"));
}

fn part_5(t: &mut Table)
    requires
        old(t).wf(),
        old(t).table_kind() == Kind::Function,
    ensures
        final(t).wf(),
        final(t).table_kind() == Kind::Function,
        final(t).contents() == function_part_5(old(t).contents()),
{
    t.insert(function("lower_inc", "lower_inc(anyrange|anymultirange) -> boolean", "True when the lower bound is inclusive (e.g. `[1,5)` -> true).", "SELECT lower_inc('[1,5)'::int4range);", "functions-range.html"));
    t.insert(function("upper_inc", "upper_inc(anyrange|anymultirange) -> boolean", "True when the upper bound is inclusive.", "SELECT upper_inc('[1,5]'::int4range);", "functions-range.html"));
    t.insert(function("range_merge", "range_merge(anyrange, anyrange) -> anyrange | range_merge(anymultirange) -> anyrange", "Smallest range covering all inputs.", "SELECT range_merge('[1,5)'::int4range, '[10,20)'::int4range);", "functions-range.html"));
    t.insert(function("int4range", "int4range(lower int [, upper int [, bounds text]]) -> int4range", "Construct int4range; `bounds` like '[)' (default) / '(]' / '[]' / '()'.", "SELECT int4range(1, 10, '[]');", "rangetypes.html"));
    t.insert(function("int8range", "int8range(lower bigint, upper bigint [, bounds text]) -> int8range", "Construct int8range.", "SELECT int8range(1, 10);", "rangetypes.html"));
    t.insert(function("numrange", "numrange(lower numeric, upper numeric [, bounds text]) -> numrange", "Construct numeric range.", "SELECT numrange(0.0, 1.0);", "rangetypes.html"));
    t.insert(function("tsrange", "tsrange(lower timestamp, upper timestamp [, bounds]) -> tsrange", "Construct timestamp range.", "SELECT tsrange('2026-01-01', '2027-01-01');", "rangetypes.html"));
    t.insert(function("tstzrange", "tstzrange(lower timestamptz, upper timestamptz [, bounds]) -> tstzrange", "Construct timestamptz range.", "SELECT tstzrange(now(), now() + interval '1 day');", "rangetypes.html"));
    t.insert(function("daterange", "daterange(lower date, upper date [, bounds]) -> daterange", "Construct date range.", "SELECT daterange('2026-01-01', '2027-01-01');", "rangetypes.html"));
    t.insert(function("multirange", "multirange(VARIADIC anyrange[]) -> anymultirange", "Construct multirange from ranges (PG14+).", "SELECT multirange('[1,5)'::int4range, '[10,20)'::int4range);", "rangetypes.html"));
    t.insert(function("range_agg", "range_agg(anyrange) -> anymultirange", "Aggregate ranges into a multirange (PG14+).", "SELECT range_agg(period) FROM bookings WHERE room_id = 1;", "functions-aggregate.html#FUNCTIONS-AGGREGATE-TABLE"));
    t.insert(function("sum", "sum(numeric|interval|...) -> same", "Aggregate sum; NULL ignored. Result type widens (int->bigint, bigint->numeric).", "SELECT sum(amount) FROM orders;", "functions-aggregate.html#FUNCTIONS-AGGREGATE-TABLE"));
    t.insert(function("avg", "avg(numeric|...) -> numeric|double precision|interval", "Arithmetic mean.", "SELECT avg(price) FROM products;", "functions-aggregate.html#FUNCTIONS-AGGREGATE-TABLE"));
    t.insert(function("count", "count(* | expr) -> bigint", "Row count (`count(*)`) or non-NULL value count (`count(expr)`).", "SELECT count(*), count(email) FROM users;", "functions-aggregate.html#FUNCTIONS-AGGREGATE-TABLE"));
    t.insert(function("min", "min(any) -> same", "Smallest non-NULL value.", "SELECT min(created_at) FROM events;", "functions-aggregate.html#FUNCTIONS-AGGREGATE-TABLE"));
    t.insert(function("max", "max(any) -> same", "Largest non-NULL value.", "SELECT max(price) FROM products;", "functions-aggregate.html#FUNCTIONS-AGGREGATE-TABLE"));
    t.insert(function("bool_and", "bool_and(boolean) -> boolean", "True when every non-NULL row is true.", "SELECT bool_and(active) FROM users;", "functions-aggregate.html#FUNCTIONS-AGGREGATE-TABLE"));
    t.insert(function("bool_or", "bool_or(boolean) -> boolean", "True when any row is true.", "SELECT bool_or(error) FROM logs;", "functions-aggregate.html#FUNCTIONS-AGGREGATE-TABLE"));
    t.insert(function("every", "every(boolean) -> boolean", "SQL-standard alias of `bool_and`.", "SELECT every(active) FROM users;", "functions-aggregate.html#FUNCTIONS-AGGREGATE-TABLE"));
    t.insert(function("bit_and", "bit_and(int|bit) -> same", "Bitwise AND across rows.", "SELECT bit_and(flags) FROM perms;", "functions-aggregate.html#FUNCTIONS-AGGREGATE-TABLE"));
    t.insert(function("bit_or", "bit_or(int|bit) -> same", "Bitwise OR across rows.", "SELECT bit_or(flags) FROM perms;", "functions-aggregate.html#FUNCTIONS-AGGREGATE-TABLE"));
    t.insert(function("stddev", "stddev(numeric) -> numeric|double precision", "Sample standard deviation (alias of `stddev_samp`).", "SELECT stddev(latency) FROM probes;", "functions-aggregate.html#FUNCTIONS-AGGREGATE-STATISTICS-TABLE"));
    t.insert(function("stddev_pop", "stddev_pop(numeric) -> numeric|double precision", "Population standard deviation.", "SELECT stddev_pop(latency) FROM probes;", "functions-aggregate.html#FUNCTIONS-AGGREGATE-STATISTICS-TABLE"));
    t.insert(function("stddev_samp", "stddev_samp(numeric) -> numeric|double precision", "Sample standard deviation (Bessel-corrected).", "SELECT stddev_samp(latency) FROM probes;", "functions-aggregate.html#FUNCTIONS-AGGREGATE-STATISTICS-TABLE"));
    t.insert(function("variance", "variance(numeric) -> numeric|double precision", "Sample variance (alias of `var_samp`).", "SELECT variance(latency) FROM probes;", "functions-aggregate.html#FUNCTIONS-AGGREGATE-STATISTICS-TABLE"));
    t.insert(function("var_pop", "var_pop(numeric) -> numeric|double precision", "Population variance.", "SELECT var_pop(latency) FROM probes;", "functions-aggregate.html#FUNCTIONS-AGGREGATE-STATISTICS-TABLE"));
    t.insert(function("var_samp", "var_samp(numeric) -> numeric|double precision", "Sample variance.", "SELECT var_samp(latency) FROM probes;", "functions-aggregate.html#FUNCTIONS-AGGREGATE-STATISTICS-TABLE"));
    t.insert(function("covar_pop", "covar_pop(y, x) -> double precision", "Population covariance.", "SELECT covar_pop(y, x) FROM xy;", "functions-aggregate.html#FUNCTIONS-AGGREGATE-STATISTICS-TABLE"));
    t.insert(function("covar_samp", "covar_samp(y, x) -> double precision", "Sample covariance.", "SELECT covar_samp(y, x) FROM xy;", "functions-aggregate.html#FUNCTIONS-AGGREGATE-STATISTICS-TABLE"));
    t.insert(function("corr", "corr(y, x) -> double precision", "Pearson correlation coefficient.", "SELECT corr(y, x) FROM xy;", "functions-aggregate.html#FUNCTIONS-AGGREGATE-STATISTICS-TABLE"));
    t.insert(function("regr_slope", "regr_slope(y, x) -> double precision", "Slope of least-squares-fit linear regression.", "SELECT regr_slope(rev, day) FROM daily;", "functions-aggregate.html#FUNCTIONS-AGGREGATE-STATISTICS-TABLE"));
    t.insert(function("regr_intercept", "regr_intercept(y, x) -> double precision", "Intercept of linear regression.", "SELECT regr_intercept(rev, day) FROM daily;", "functions-aggregate.html#FUNCTIONS-AGGREGATE-STATISTICS-TABLE"));
    t.insert(function("regr_r2", "regr_r2(y, x) -> double precision", "Coefficient of determination.", "SELECT regr_r2(rev, day) FROM daily;", "functions-aggregate.html#FUNCTIONS-AGGREGATE-STATISTICS-TABLE"));
    t.insert(function("regr_count", "regr_count(y, x) -> bigint", "Rows with non-NULL y AND x.", "SELECT regr_count(y, x) FROM xy;", "functions-aggregate.html#FUNCTIONS-AGGREGATE-STATISTICS-TABLE"));
    t.insert(function("regr_avgx", "regr_avgx(y, x) -> double precision", "Average of x for rows where both y and x are non-NULL.", "SELECT regr_avgx(y, x) FROM xy;", "functions-aggregate.html#FUNCTIONS-AGGREGATE-STATISTICS-TABLE"));
    t.insert(function("regr_avgy", "regr_avgy(y, x) -> double precision", "Average of y for rows where both y and x are non-NULL.", "SELECT regr_avgy(y, x) FROM xy;", "functions-aggregate.html#FUNCTIONS-AGGREGATE-STATISTICS-TABLE"));
    t.insert(function("regr_sxx", "regr_sxx(y, x) -> double precision", "Sum of squares of x.", "SELECT regr_sxx(y, x) FROM xy;", "functions-aggregate.html#FUNCTIONS-AGGREGATE-STATISTICS-TABLE"));
    t.insert(function("regr_syy", "regr_syy(y, x) -> double precision", "Sum of squares of y.", "SELECT regr_syy(y, x) FROM xy;", "functions-aggregate.html#FUNCTIONS-AGGREGATE-STATISTICS-TABLE"));
    t.insert(function("regr_sxy", "regr_sxy(y, x) -> double precision", "Sum of products (x_i * y_i).", "SELECT regr_sxy(y, x) FROM xy;", "functions-aggregate.html#FUNCTIONS-AGGREGATE-STATISTICS-TABLE"));
    t.insert(function("mode", "mode() WITHIN GROUP (ORDER BY <expr>) -> same", "Ordered-set aggregate: most common value.", "SELECT mode() WITHIN GROUP (ORDER BY status) FROM tickets;", "functions-aggregate.html#FUNCTIONS-ORDEREDSET-TABLE"));
    t.insert(function("percentile_cont", "percentile_cont(fraction) WITHIN GROUP (ORDER BY expr) -> double precision|interval", "Continuous percentile (linear interp). Common: median = percentile_cont(0.5).", "SELECT percentile_cont(0.5) WITHIN GROUP (ORDER BY salary) FROM employees;", "functions-aggregate.html#FUNCTIONS-ORDEREDSET-TABLE"));
    t.insert(function("percentile_disc", "percentile_disc(fraction) WITHIN GROUP (ORDER BY expr) -> same", "Discrete percentile (picks an actual row value).", "SELECT percentile_disc(0.95) WITHIN GROUP (ORDER BY latency) FROM probes;", "functions-aggregate.html#FUNCTIONS-ORDEREDSET-TABLE"));
    t.insert(function("rank", "rank() OVER (...) -> bigint", "Window: 1-based rank with gaps for ties.", "SELECT rank() OVER (PARTITION BY org ORDER BY score DESC) FROM scores;", "functions-window.html"));
    t.insert(function("dense_rank", "dense_rank() OVER (...) -> bigint", "Window: rank without gaps.", "SELECT dense_rank() OVER (ORDER BY score DESC) FROM scores;", "functions-window.html"));
    t.insert(function("percent_rank", "percent_rank() OVER (...) -> double precision", "Window: (rank - 1) / (n - 1).", "SELECT percent_rank() OVER (ORDER BY score) FROM scores;", "functions-window.html"));
    t.insert(function("cume_dist", "cume_dist() OVER (...) -> double precision", "Window: cumulative distribution = rows preceding-or-peer / total rows.", "SELECT cume_dist() OVER (ORDER BY score) FROM scores;", "functions-window.html"));
    t.insert(function("row_number", "row_number() OVER (...) -> bigint", "Window: monotonically increasing row counter per partition.", "SELECT row_number() OVER (PARTITION BY user_id ORDER BY ts) FROM events;", "functions-window.html"));
    t.insert(function("ntile", "ntile(n int) OVER (...) -> int", "Window: assign rows to N equal-sized buckets.", "SELECT ntile(4) OVER (ORDER BY score) FROM scores;", "functions-window.html"));
    t.insert(function("lag", "lag(expr [, offset int [, default any]]) OVER (...) -> same", "Window: value from row offset rows BEFORE the current one (default 1).", "SELECT ts, lag(ts) OVER (PARTITION BY uid ORDER BY ts) FROM events;", "functions-window.html"));
    t.insert(function("lead", "lead(expr [, offset int [, default any]]) OVER (...) -> same", "Window: value from row offset rows AFTER the current one.", "SELECT ts, lead(ts) OVER (PARTITION BY uid ORDER BY ts) FROM events;", "functions-window.html"));
    t.insert(function("first_value", "first_value(expr) OVER (...) -> same", "Window: value at the first row of the window frame.", "SELECT first_value(price) OVER (PARTITION BY sku ORDER BY ts) FROM prices;", "functions-window.html"));
    t.insert(function("last_value", "last_value(expr) OVER (...) -> same", "Window: value at the last row of the window frame. NB: default frame ends at CURRENT ROW -- use `ROWS BETWEEN UNBOUNDED PRECEDING AND UNBOUNDED FOLLOWING` for partition-wide.", "SELECT last_value(price) OVER (PARTITION BY sku ORDER BY ts ROWS BETWEEN UNBOUNDED PRECEDING AND UNBOUNDED FOLLOWING) FROM prices;", "functions-window.html"));
    t.insert(function("nth_value", "nth_value(expr, n int) OVER (...) -> same", "Window: value at nth row of the frame (1-based).", "SELECT nth_value(price, 2) OVER (PARTITION BY sku ORDER BY ts) FROM prices;", "functions-window.html"));
    t.insert(function("int4", "int4(any) -> int4", "Cast to int4 (alias `int`/`integer`).", "SELECT int4(1.7);", "datatype-numeric.html"));
    t.insert(function("int8", "int8(any) -> int8", "Cast to int8 (alias `bigint`).", "SELECT int8('12345');", "datatype-numeric.html"));
    t.insert(function("int2", "int2(any) -> int2", "Cast to int2 (alias `smallint`).", "SELECT int2(42);", "datatype-numeric.html"));
    t.insert(function("float4", "float4(any) -> float4", "Cast to float4 (alias `real`).", "SELECT float4('3.14');", "datatype-numeric.html"));
    t.insert(function("float8", "float8(any) -> float8", "Cast to float8 (alias `double precision`).", "SELECT float8('3.14');", "datatype-numeric.html"));
    t.insert(function("get_bit", "get_bit(bytea|bit, int) -> int", "Read bit at 0-based offset.", "SELECT get_bit('\\xff'::bytea, 0);", "functions-binarystring.html"));
    t.insert(function("set_bit", "set_bit(bytea|bit, int, int) -> same", "Write bit at offset.", "SELECT set_bit('\\x00'::bytea, 7, 1);", "functions-binarystring.html"));
    t.insert(function("get_byte", "get_byte(bytea, int) -> int", "Read byte at 0-based offset (0..255).", "SELECT get_byte('\\xdeadbeef'::bytea, 1);", "functions-binarystring.html"));
    t.insert(function("set_byte", "set_byte(bytea, int, int) -> bytea", "Write byte at offset.", "SELECT set_byte('\\x00000000'::bytea, 2, 255);", "functions-binarystring.html"));
    t.insert(function("host", "host(inet|cidr) -> text", "Address only, no netmask.", "SELECT host('192.168.1.5/24'::inet);", "functions-net.html"));
    t.insert(function("netmask", "netmask(inet) -> inet", "Netmask of an inet value.", "SELECT netmask('192.168.1.0/24');", "functions-net.html"));
    t.insert(function("network", "network(inet) -> cidr", "Network portion as cidr.", "SELECT network('192.168.1.5/24');", "functions-net.html"));
    t.insert(function("set_masklen", "set_masklen(inet|cidr, int) -> same", "Set the netmask length without changing the address.", "SELECT set_masklen('192.168.1.5'::inet, 16);", "functions-net.html"));
    t.insert(function("inet", "inet(text) -> inet", "Cast text to inet (also via `::inet`).", "SELECT inet('10.0.0.1');", "functions-net.html"));
    t.insert(function("gen_random_uuid", "gen_random_uuid() -> uuid", "Cryptographically-strong random UUID (v4). Built-in since PG13 (no extension needed).", "SELECT gen_random_uuid();", "functions-uuid.html"));
    t.insert(function("uuid_generate_v1", "uuid_generate_v1() -> uuid", "Time-based UUID v1. Requires `uuid-ossp` extension.", "CREATE EXTENSION IF NOT EXISTS \"uuid-ossp\"; SELECT uuid_generate_v1();", "uuid-ossp.html"));
    t.insert(function("uuid_generate_v4", "uuid_generate_v4() -> uuid", "Random UUID v4 (uuid-ossp). PG13+ has built-in `gen_random_uuid()` -- prefer that.", "SELECT uuid_generate_v4();", "uuid-ossp.html"));
    t.insert(function("uuid_generate_v5", "uuid_generate_v5(namespace uuid, name text) -> uuid", "Name-based UUID using SHA-1.", "SELECT uuid_generate_v5(uuid_ns_url(), 'https://example.com');", "uuid-ossp.html"));
    t.insert(function("sha224", "sha224(bytea) -> bytea", "SHA-224 hash.", "SELECT sha224('abc'::bytea);", "functions-binarystring.html"));
    t.insert(function("sha256", "sha256(bytea) -> bytea", "SHA-256 hash.", "SELECT encode(sha256('abc'::bytea), 'hex');", "functions-binarystring.html"));
    t.insert(function("sha384", "sha384(bytea) -> bytea", "SHA-384 hash.", "SELECT sha384('abc'::bytea);", "functions-binarystring.html"));
    t.insert(function("sha512", "sha512(bytea) -> bytea", "SHA-512 hash.", "SELECT sha512('abc'::bytea);", "functions-binarystring.html"));
}

fn part_6(t: &mut Table)
    requires
        old(t).wf(),
        old(t).table_kind() == Kind::Function,
    ensures
        final(t).wf(),
        final(t).table_kind() == Kind::Function,
        final(t).contents() == function_part_6(old(t).contents()),
{
    t.insert(function("hashtext", "hashtext(text) -> int", "Internal fast hash of text (not cryptographic).", "SELECT hashtext('abc');", "functions-binarystring.html"));
    t.insert(function("crypt", "crypt(password text, salt text) -> text", "pgcrypto: hash password using crypt() schemes (bf, md5, ...). Use `gen_salt('bf')` for salt.", "SELECT crypt('secret', gen_salt('bf'));", "pgcrypto.html"));
    t.insert(function("gen_salt", "gen_salt(algorithm text [, iter_count int]) -> text", "pgcrypto: generate a salt for `crypt()`. Algos: 'bf', 'md5', 'des', 'xdes'.", "SELECT gen_salt('bf', 12);", "pgcrypto.html"));
    t.insert(function("encrypt", "encrypt(data bytea, key bytea, type text) -> bytea", "pgcrypto: symmetric encrypt. `type` like 'aes' or 'aes-cbc/pad:pkcs'.", "SELECT encrypt('secret'::bytea, 'key'::bytea, 'aes');", "pgcrypto.html"));
    t.insert(function("decrypt", "decrypt(data bytea, key bytea, type text) -> bytea", "pgcrypto: symmetric decrypt counterpart of `encrypt`.", "SELECT decrypt(ciphertext, 'key', 'aes');", "pgcrypto.html"));
    t.insert(function("hmac", "hmac(data bytea|text, key bytea|text, type text) -> bytea", "pgcrypto: HMAC. `type` like 'sha256'.", "SELECT encode(hmac('msg', 'key', 'sha256'), 'hex');", "pgcrypto.html"));
    t.insert(function("digest", "digest(data bytea|text, type text) -> bytea", "pgcrypto: arbitrary digest. `type` like 'sha256', 'sha512', 'md5'.", "SELECT encode(digest('abc', 'sha256'), 'hex');", "pgcrypto.html"));
    t.insert(function("nextval", "nextval(regclass) -> bigint", "Advance sequence and return the new value. Caches per session per `CACHE` setting.", "SELECT nextval('users_id_seq');", "functions-sequence.html"));
    t.insert(function("currval", "currval(regclass) -> bigint", "Value most recently returned by `nextval` in this session. Errors if no `nextval` has run yet.", "SELECT currval('users_id_seq');", "functions-sequence.html"));
    t.insert(function("lastval", "lastval() -> bigint", "Value most recently returned by `nextval` for ANY sequence in this session.", "SELECT lastval();", "functions-sequence.html"));
    t.insert(function("setval", "setval(regclass, bigint [, is_called boolean]) -> bigint", "Reset sequence. With `is_called`=false the next `nextval` returns the same value.", "SELECT setval('users_id_seq', 1000, true);", "functions-sequence.html"));
    t.insert(function("pg_advisory_lock", "pg_advisory_lock(key bigint) -> void | pg_advisory_lock(key1 int, key2 int)", "Session-level exclusive advisory lock. Blocks until acquired; must `pg_advisory_unlock`.", "SELECT pg_advisory_lock(hashtext('user_42'));", "functions-admin.html#FUNCTIONS-ADVISORY-LOCKS"));
    t.insert(function("pg_advisory_lock_shared", "pg_advisory_lock_shared(key bigint) -> void", "Session-level SHARED advisory lock -- multiple holders OK.", "SELECT pg_advisory_lock_shared(42);", "functions-admin.html#FUNCTIONS-ADVISORY-LOCKS"));
    t.insert(function("pg_advisory_unlock", "pg_advisory_unlock(key bigint) -> boolean", "Release one stack-frame of a session advisory lock. True if a frame was released.", "SELECT pg_advisory_unlock(42);", "functions-admin.html#FUNCTIONS-ADVISORY-LOCKS"));
    t.insert(function("pg_advisory_unlock_shared", "pg_advisory_unlock_shared(key bigint) -> boolean", "Release a shared advisory lock.", "SELECT pg_advisory_unlock_shared(42);", "functions-admin.html#FUNCTIONS-ADVISORY-LOCKS"));
    t.insert(function("pg_advisory_unlock_all", "pg_advisory_unlock_all() -> void", "Release every session-level advisory lock held by this session.", "SELECT pg_advisory_unlock_all();", "functions-admin.html#FUNCTIONS-ADVISORY-LOCKS"));
    t.insert(function("pg_advisory_xact_lock", "pg_advisory_xact_lock(key bigint) -> void", "Transaction-scoped exclusive advisory lock -- auto-released at COMMIT/ROLLBACK.", "BEGIN; SELECT pg_advisory_xact_lock(42); ...; COMMIT;", "functions-admin.html#FUNCTIONS-ADVISORY-LOCKS"));
    t.insert(function("pg_advisory_xact_lock_shared", "pg_advisory_xact_lock_shared(key bigint) -> void", "Transaction-scoped SHARED advisory lock.", "SELECT pg_advisory_xact_lock_shared(42);", "functions-admin.html#FUNCTIONS-ADVISORY-LOCKS"));
    t.insert(function("pg_try_advisory_lock", "pg_try_advisory_lock(key bigint) -> boolean", "Non-blocking acquire of session advisory lock. False when busy.", "SELECT pg_try_advisory_lock(42);", "functions-admin.html#FUNCTIONS-ADVISORY-LOCKS"));
    t.insert(function("pg_try_advisory_lock_shared", "pg_try_advisory_lock_shared(key bigint) -> boolean", "Non-blocking shared advisory lock acquire.", "SELECT pg_try_advisory_lock_shared(42);", "functions-admin.html#FUNCTIONS-ADVISORY-LOCKS"));
    t.insert(function("pg_try_advisory_xact_lock", "pg_try_advisory_xact_lock(key bigint) -> boolean", "Non-blocking transaction-scoped exclusive advisory lock.", "SELECT pg_try_advisory_xact_lock(42);", "functions-admin.html#FUNCTIONS-ADVISORY-LOCKS"));
    t.insert(function("pg_try_advisory_xact_lock_shared", "pg_try_advisory_xact_lock_shared(key bigint) -> boolean", "Non-blocking transaction-scoped shared advisory lock.", "SELECT pg_try_advisory_xact_lock_shared(42);", "functions-admin.html#FUNCTIONS-ADVISORY-LOCKS"));
    t.insert(function("generate_series", "generate_series(start, stop [, step]) -> setof int|bigint|numeric|timestamp", "Inclusive series. Step defaults to 1 (or `1 day` for timestamps). Negative step iterates downward.", "SELECT * FROM generate_series(1, 10);\nSELECT * FROM generate_series(date '2026-01-01', date '2026-12-31', interval '1 month');", "functions-srf.html"));
    t.insert(function("pg_sleep", "pg_sleep(seconds double precision) -> void", "Sleep server-side for N seconds.", "SELECT pg_sleep(0.5);", "functions-datetime.html#FUNCTIONS-DATETIME-DELAY"));
    t.insert(function("pg_sleep_for", "pg_sleep_for(interval) -> void", "Sleep server-side for an interval.", "SELECT pg_sleep_for('2 seconds');", "functions-datetime.html#FUNCTIONS-DATETIME-DELAY"));
    t.insert(function("pg_sleep_until", "pg_sleep_until(timestamptz) -> void", "Sleep until a timestamp.", "SELECT pg_sleep_until(now() + interval '1 minute');", "functions-datetime.html#FUNCTIONS-DATETIME-DELAY"));
    t.insert(function("pg_cancel_backend", "pg_cancel_backend(pid int) -> boolean", "Signal cancel (like Ctrl-C) to a backend pid. Caller must be superuser or the same role.", "SELECT pg_cancel_backend(12345);", "functions-admin.html#FUNCTIONS-ADMIN-SIGNAL"));
    t.insert(function("pg_terminate_backend", "pg_terminate_backend(pid int [, timeout int]) -> boolean", "Send SIGTERM to a backend pid. Stronger than cancel; closes the connection. Optional timeout (PG14+) waits for confirmation.", "SELECT pg_terminate_backend(12345);", "functions-admin.html#FUNCTIONS-ADMIN-SIGNAL"));
    t.insert(function("pg_stat_reset", "pg_stat_reset() -> void", "Reset every cumulative stats counter in the current DB.", "SELECT pg_stat_reset();", "monitoring-stats.html#MONITORING-STATS-FUNCTIONS"));
    t.insert(function("pg_stat_reset_shared", "pg_stat_reset_shared(target text) -> void", "Reset a specific cluster-wide stats target ('bgwriter', 'archiver', 'wal', ...).", "SELECT pg_stat_reset_shared('bgwriter');", "monitoring-stats.html#MONITORING-STATS-FUNCTIONS"));
    t.insert(function("pg_stat_reset_single_table_counters", "pg_stat_reset_single_table_counters(regclass) -> void", "Reset stats for one table only.", "SELECT pg_stat_reset_single_table_counters('users'::regclass);", "monitoring-stats.html#MONITORING-STATS-FUNCTIONS"));
    t.insert(function("pg_stat_reset_single_function_counters", "pg_stat_reset_single_function_counters(regprocedure) -> void", "Reset stats for one function only.", "SELECT pg_stat_reset_single_function_counters('now()'::regprocedure);", "monitoring-stats.html#MONITORING-STATS-FUNCTIONS"));
    t.insert(function("pg_is_other_temp_schema", "pg_is_other_temp_schema(oid) -> boolean", "True when the schema is a temp schema belonging to another session.", "SELECT pg_is_other_temp_schema(nspid) FROM pg_namespace;", "functions-info.html#FUNCTIONS-INFO-CATALOG"));
    t.insert(function("pg_get_viewdef", "pg_get_viewdef(view_oid|view_name regclass [, pretty boolean | wrap_column int]) -> text", "Return the underlying SELECT for a view.", "SELECT pg_get_viewdef('public.v_user_summary', true);", "functions-info.html#FUNCTIONS-INFO-CATALOG"));
    t.insert(function("pg_get_indexdef", "pg_get_indexdef(index_oid regclass [, column int, pretty boolean]) -> text", "Reconstruct `CREATE INDEX` DDL.", "SELECT pg_get_indexdef('users_email_idx'::regclass);", "functions-info.html#FUNCTIONS-INFO-CATALOG"));
    t.insert(function("pg_get_constraintdef", "pg_get_constraintdef(constraint_oid [, pretty boolean]) -> text", "Reconstruct the constraint definition (USING / CHECK / FK clauses).", "SELECT conname, pg_get_constraintdef(oid) FROM pg_constraint WHERE conrelid = 'users'::regclass;", "functions-info.html#FUNCTIONS-INFO-CATALOG"));
    t.insert(function("pg_get_functiondef", "pg_get_functiondef(function_oid regprocedure) -> text", "Reconstruct full `CREATE OR REPLACE FUNCTION` DDL.", "SELECT pg_get_functiondef('my_fn(int)'::regprocedure);", "functions-info.html#FUNCTIONS-INFO-CATALOG"));
    t.insert(function("pg_get_triggerdef", "pg_get_triggerdef(trigger_oid [, pretty boolean]) -> text", "Reconstruct `CREATE TRIGGER` DDL.", "SELECT pg_get_triggerdef(oid) FROM pg_trigger WHERE NOT tgisinternal;", "functions-info.html#FUNCTIONS-INFO-CATALOG"));
    t.insert(function("pg_get_userbyid", "pg_get_userbyid(role_oid) -> name", "Resolve a role OID to its name. Useful when joining catalog tables exposing OIDs.", "SELECT pg_get_userbyid(relowner) FROM pg_class WHERE relname = 'users';", "functions-info.html#FUNCTIONS-INFO-CATALOG"));
    t.insert(function("pg_get_serial_sequence", "pg_get_serial_sequence(table_name text, column_name text) -> text", "Sequence backing a `serial`/`identity` column, fully qualified.", "SELECT pg_get_serial_sequence('users', 'id');", "functions-info.html#FUNCTIONS-INFO-CATALOG"));
    t.insert(function("pg_get_expr", "pg_get_expr(node_tree pg_node_tree, relation regclass [, pretty boolean]) -> text", "Render a stored expression tree (e.g. column default, partition bound).", "SELECT attname, pg_get_expr(adbin, adrelid) FROM pg_attrdef JOIN pg_attribute USING (adrelid, adnum);", "functions-info.html#FUNCTIONS-INFO-CATALOG"));
    t.insert(function("pg_get_statisticsobjdef", "pg_get_statisticsobjdef(statistic_oid) -> text", "Reconstruct `CREATE STATISTICS` DDL.", "SELECT pg_get_statisticsobjdef(oid) FROM pg_statistic_ext;", "functions-info.html#FUNCTIONS-INFO-CATALOG"));
    t.insert(function("pg_relation_filepath", "pg_relation_filepath(regclass) -> text", "Filesystem path (relative to data dir) of a relation's main fork.", "SELECT pg_relation_filepath('users');", "functions-admin.html#FUNCTIONS-ADMIN-DBLOCATION"));
    t.insert(function("pg_filenode_relation", "pg_filenode_relation(tablespace_oid oid, filenode oid) -> regclass", "Inverse of `pg_relation_filenode`.", "SELECT pg_filenode_relation(1663, 16384);", "functions-admin.html#FUNCTIONS-ADMIN-DBLOCATION"));
    t.insert(function("pg_log_backend_memory_contexts", "pg_log_backend_memory_contexts(pid int) -> boolean", "Write target backend's memory contexts to the server log (PG14+).", "SELECT pg_log_backend_memory_contexts(12345);", "functions-admin.html#FUNCTIONS-ADMIN-SERVER-SIGNALING"));
    t.insert(function("pg_typeof", "pg_typeof(\"any\") -> regtype", "Return the type of the expression as a regtype.", "SELECT pg_typeof(NULL::int);", "functions-info.html#FUNCTIONS-INFO-CATALOG"));
    t.insert(function("pg_column_compression", "pg_column_compression(\"any\") -> text", "Compression method used on a TOASTed value ('pglz', 'lz4', etc).", "SELECT pg_column_compression(body) FROM articles LIMIT 1;", "functions-info.html#FUNCTIONS-INFO-CATALOG"));
    t.insert(function("pg_tablespace_databases", "pg_tablespace_databases(oid) -> setof oid", "Databases that have at least one object in the tablespace.", "SELECT * FROM pg_tablespace_databases(1663);", "functions-admin.html"));
    t.insert(function("pg_tablespace_location", "pg_tablespace_location(oid) -> text", "Filesystem path of a tablespace (empty for pg_default / pg_global).", "SELECT pg_tablespace_location(oid) FROM pg_tablespace;", "functions-admin.html"));
    t.insert(function("pg_options_to_table", "pg_options_to_table(options_array text[]) -> setof (option_name text, option_value text)", "Expand a `name=value` array (as stored in pg_foreign_server etc) to rows.", "SELECT * FROM pg_options_to_table(srvoptions) FROM pg_foreign_server;", "functions-info.html#FUNCTIONS-INFO-CATALOG"));
    t.insert(function("pg_safe_snapshot_blocking_pids", "pg_safe_snapshot_blocking_pids(pid int) -> int[]", "Pids holding the SERIALIZABLE snapshot a given pid is waiting for.", "SELECT pg_safe_snapshot_blocking_pids(pg_backend_pid());", "functions-info.html#FUNCTIONS-INFO-SESSION"));
    t.insert(function("pg_isolation_test_session_is_blocked", "pg_isolation_test_session_is_blocked(pid int, interesting_pids int[]) -> boolean", "Internal helper used by `isolationtester`. Mostly for PG dev/test.", "SELECT pg_isolation_test_session_is_blocked(pid, ARRAY[other_pid]);", "functions-info.html"));
    t.insert(function("pg_collation_actual_version", "pg_collation_actual_version(collation_oid) -> text", "OS-reported version of an ICU/libc collation -- compare with `pg_collation.collversion` to detect upgrades that break sort order.", "SELECT collname, pg_collation_actual_version(oid) FROM pg_collation WHERE collprovider IN ('i','d');", "collation.html"));
    t.insert(function("pg_collation_for", "pg_collation_for(\"any\") -> text", "Collation of an expression as a quoted identifier.", "SELECT pg_collation_for('hello'::text);", "functions-info.html#FUNCTIONS-INFO-CATALOG"));
    t.insert(function("pg_encoding_to_char", "pg_encoding_to_char(encoding int) -> name", "Encoding id (pg_database.encoding) to its name.", "SELECT pg_encoding_to_char(encoding) FROM pg_database;", "functions-info.html"));
    t.insert(function("pg_char_to_encoding", "pg_char_to_encoding(text) -> int", "Encoding name to id.", "SELECT pg_char_to_encoding('UTF8');", "functions-info.html"));
    t.insert(function("pg_client_encoding", "pg_client_encoding() -> name", "Client encoding for the current session.", "SELECT pg_client_encoding();", "functions-info.html"));
    t.insert(function("format_type", "format_type(type_oid oid, typmod int) -> text", "Pretty-print a type with its typmod (e.g. `numeric(12,2)`).", "SELECT format_type(atttypid, atttypmod) FROM pg_attribute WHERE attrelid = 'users'::regclass;", "functions-info.html#FUNCTIONS-INFO-CATALOG"));
    t.insert(function("pg_type_is_visible", "pg_type_is_visible(type_oid) -> boolean", "True when the type is reachable without schema-qualification under the current search_path.", "SELECT pg_type_is_visible(oid) FROM pg_type WHERE typname = 'myenum';", "functions-info.html#FUNCTIONS-INFO-CATALOG"));
    t.insert(function("pg_table_is_visible", "pg_table_is_visible(table_oid) -> boolean", "True when the table/view/sequence is reachable without schema-qualification.", "SELECT pg_table_is_visible('users'::regclass);", "functions-info.html#FUNCTIONS-INFO-CATALOG"));
    t.insert(function("pg_function_is_visible", "pg_function_is_visible(function_oid) -> boolean", "True when the function is reachable without schema-qualification.", "SELECT pg_function_is_visible('now()'::regprocedure);", "functions-info.html#FUNCTIONS-INFO-CATALOG"));
    t.insert(function("pg_event_trigger_ddl_commands", "pg_event_trigger_ddl_commands() -> setof record", "From inside an event trigger: rows describing the DDL command(s) running.", "-- inside event trigger body\nFOR r IN SELECT * FROM pg_event_trigger_ddl_commands() LOOP ... END LOOP;", "functions-event-triggers.html"));
    t.insert(function("pg_event_trigger_dropped_objects", "pg_event_trigger_dropped_objects() -> setof record", "From inside an `sql_drop` event trigger: rows for each dropped object.", "FOR r IN SELECT * FROM pg_event_trigger_dropped_objects() LOOP ... END LOOP;", "functions-event-triggers.html"));
    t.insert(function("pg_event_trigger_table_rewrite_oid", "pg_event_trigger_table_rewrite_oid() -> oid", "Inside a `table_rewrite` event trigger: OID of the table being rewritten.", "SELECT pg_event_trigger_table_rewrite_oid();", "functions-event-triggers.html"));
    t.insert(function("pg_event_trigger_table_rewrite_reason", "pg_event_trigger_table_rewrite_reason() -> int", "Bitmask describing why the table is being rewritten.", "SELECT pg_event_trigger_table_rewrite_reason();", "functions-event-triggers.html"));
    t.insert(function("json_table", "JSON_TABLE(<json> '<jsonpath>' [PASSING ...] COLUMNS (...)) -- shred JSON to a relational result set (SQL:2023 / PG17+).", "Like XMLTABLE for JSON.", "SELECT * FROM JSON_TABLE(j, '$.items[*]' COLUMNS (id INT PATH '$.id', name TEXT PATH '$.name'));", "functions-json.html#FUNCTIONS-SQLJSON-TABLE"));
    t.insert(function("jsonb_to_tsvector", "jsonb_to_tsvector([config,] jsonb, filter jsonb) -> tsvector", "Build a tsvector from JSON, filtered by element-type list ('[\"string\",\"numeric\"]' etc).", "SELECT jsonb_to_tsvector('english', j, '[\"string\"]');", "functions-textsearch.html#TEXTSEARCH-FUNCTIONS-TABLE"));
    t.insert(function("json_to_tsvector", "json_to_tsvector([config,] json, filter jsonb) -> tsvector", "Same as `jsonb_to_tsvector` for `json`.", "SELECT json_to_tsvector('english', j, '[\"all\"]');", "functions-textsearch.html#TEXTSEARCH-FUNCTIONS-TABLE"));
    t.insert(function("json_query", "JSON_QUERY(<json>, '<jsonpath>' [RETURNING <type>] [WRAPPER ...] [{ERROR|NULL|EMPTY ARRAY|EMPTY OBJECT|DEFAULT <e>} ON EMPTY|ON ERROR])", "SQL:2023 JSON_QUERY (PG17+) -- return JSON value(s) matching jsonpath; configurable behavior on empty/error.", "SELECT JSON_QUERY(j, '$.tags' RETURNING jsonb NULL ON EMPTY);", "functions-json.html#FUNCTIONS-SQLJSON-QUERY"));
    t.insert(function("json_value", "JSON_VALUE(<json>, '<jsonpath>' [RETURNING <type>] [{ERROR|NULL|DEFAULT <e>} ON EMPTY|ON ERROR])", "SQL:2023 JSON_VALUE (PG17+) -- extract a single SQL scalar value.", "SELECT JSON_VALUE(j, '$.user.id' RETURNING bigint DEFAULT 0 ON ERROR);", "functions-json.html#FUNCTIONS-SQLJSON-QUERY"));
    t.insert(function("json_exists", "JSON_EXISTS(<json>, '<jsonpath>' [{TRUE|FALSE|UNKNOWN|ERROR} ON ERROR])", "SQL:2023 JSON_EXISTS (PG17+) -- boolean does-it-match.", "SELECT JSON_EXISTS(j, '$.user.email');", "functions-json.html#FUNCTIONS-SQLJSON-QUERY"));
    t.insert(function("pg_input_is_valid", "pg_input_is_valid(input text, type text) -> boolean", "PG16+: would casting `input` to `type` succeed (without throwing)?", "SELECT pg_input_is_valid('42x', 'integer');", "functions-info.html#FUNCTIONS-INFO-CATALOG"));
    t.insert(function("pg_input_error_info", "pg_input_error_info(input text, type text) -> setof (message text, detail text, hint text, sql_error_code text)", "PG16+: detail rows for why a cast would fail; empty when valid.", "SELECT * FROM pg_input_error_info('42x', 'integer');", "functions-info.html#FUNCTIONS-INFO-CATALOG"));
    t.insert(function("ts_lexize", "ts_lexize(dictionary regdictionary, token text) -> text[]", "Run a single token through an FTS dictionary; useful for debugging.", "SELECT ts_lexize('english_stem', 'running');", "functions-textsearch.html#TEXTSEARCH-FUNCTIONS-TABLE"));
    t.insert(function("ts_token_type", "ts_token_type([parser regconfig|name]) -> setof (tokid int, alias text, description text)", "Token types a parser can emit.", "SELECT * FROM ts_token_type('default');", "functions-textsearch.html#TEXTSEARCH-FUNCTIONS-TABLE"));
}

fn part_7(t: &mut Table)
    requires
        old(t).wf(),
        old(t).table_kind() == Kind::Function,
    ensures
        final(t).wf(),
        final(t).table_kind() == Kind::Function,
        final(t).contents() == function_part_7(old(t).contents()),
{
    t.insert(function("ts_parse", "ts_parse(parser_name|oid, text) -> setof (tokid int, token text)", "Run a parser over text; useful for FTS debugging.", "SELECT * FROM ts_parse('default', 'The quick brown fox');", "functions-textsearch.html#TEXTSEARCH-FUNCTIONS-TABLE"));
    t.insert(function("ts_debug", "ts_debug([config,] text) -> setof record", "Shows each token, its dictionaries, and lexemes -- the FTS debugging Swiss knife.", "SELECT * FROM ts_debug('english', 'The quick brown fox');", "textsearch-debugging.html"));
    t.insert(function("pg_replication_origin_create", "pg_replication_origin_create(node_name text) -> oid", "Create a replication origin identifier (logical replication / pglogical-style apply tracking).", "SELECT pg_replication_origin_create('upstream_1');", "functions-admin.html#FUNCTIONS-REPLICATION"));
    t.insert(function("pg_replication_origin_drop", "pg_replication_origin_drop(node_name text) -> void", "Delete a replication origin.", "SELECT pg_replication_origin_drop('upstream_1');", "functions-admin.html#FUNCTIONS-REPLICATION"));
    t.insert(function("pg_replication_origin_session_setup", "pg_replication_origin_session_setup(node_name text) -> void", "Mark current session as applying changes from `node_name`. Pair with `_session_reset` at exit.", "SELECT pg_replication_origin_session_setup('upstream_1');", "functions-admin.html#FUNCTIONS-REPLICATION"));
    t.insert(function("pg_replication_origin_session_reset", "pg_replication_origin_session_reset() -> void", "Clear the origin association on the current session.", "SELECT pg_replication_origin_session_reset();", "functions-admin.html#FUNCTIONS-REPLICATION"));
    t.insert(function("pg_logical_slot_peek_changes", "pg_logical_slot_peek_changes(slot_name name, upto_lsn pg_lsn, upto_nchanges int, VARIADIC options text[]) -> setof (lsn pg_lsn, xid xid, data text)", "Like `pg_logical_slot_get_changes` but does NOT advance the slot -- repeatable reads.", "SELECT * FROM pg_logical_slot_peek_changes('my_slot', NULL, NULL);", "functions-admin.html#FUNCTIONS-REPLICATION"));
    t.insert(function("pg_logical_slot_get_binary_changes", "pg_logical_slot_get_binary_changes(slot_name name, upto_lsn pg_lsn, upto_nchanges int, VARIADIC options text[]) -> setof (lsn pg_lsn, xid xid, data bytea)", "Drain a binary-output logical replication slot; consumes changes.", "SELECT * FROM pg_logical_slot_get_binary_changes('my_slot', NULL, NULL);", "functions-admin.html#FUNCTIONS-REPLICATION"));
    t.insert(function("pg_logical_slot_peek_binary_changes", "pg_logical_slot_peek_binary_changes(slot_name name, upto_lsn pg_lsn, upto_nchanges int, VARIADIC options text[]) -> setof (lsn pg_lsn, xid xid, data bytea)", "Peek at binary changes without advancing the slot.", "SELECT * FROM pg_logical_slot_peek_binary_changes('my_slot', NULL, NULL);", "functions-admin.html#FUNCTIONS-REPLICATION"));
    t.insert(function("pg_replication_origin_oid", "pg_replication_origin_oid(node_name text) -> oid", "OID of a named replication origin.", "SELECT pg_replication_origin_oid('upstream_1');", "functions-admin.html#FUNCTIONS-REPLICATION"));
    t.insert(function("pg_replication_origin_session_progress", "pg_replication_origin_session_progress(flush boolean) -> pg_lsn", "Last applied LSN tracked for the session's origin.", "SELECT pg_replication_origin_session_progress(true);", "functions-admin.html#FUNCTIONS-REPLICATION"));
    t.insert(function("pg_show_replication_origin_status", "pg_show_replication_origin_status() -> setof (local_id oid, external_id text, remote_lsn pg_lsn, local_lsn pg_lsn)", "Snapshot of every replication origin's progress.", "SELECT * FROM pg_show_replication_origin_status();", "functions-admin.html#FUNCTIONS-REPLICATION"));
    t.insert(function("pg_get_wal_resource_managers", "pg_get_wal_resource_managers() -> setof (rm_id int, rm_name text, rm_builtin boolean)", "PG15+: WAL resource managers known to the server (Heap, Btree, custom RMGRs).", "SELECT * FROM pg_get_wal_resource_managers();", "functions-admin.html#FUNCTIONS-CONTROLDATA"));
    t.insert(function("pg_get_wal_replay_pause_state", "pg_get_wal_replay_pause_state() -> text", "Standby-only: 'not paused' / 'pause requested' / 'paused'.", "SELECT pg_get_wal_replay_pause_state();", "functions-admin.html#FUNCTIONS-RECOVERY-CONTROL"));
    t.insert(function("pg_is_wal_replay_paused", "pg_is_wal_replay_paused() -> boolean", "Standby-only: WAL replay currently paused?", "SELECT pg_is_wal_replay_paused();", "functions-admin.html#FUNCTIONS-RECOVERY-CONTROL"));
    t.insert(function("pg_wal_replay_pause", "pg_wal_replay_pause() -> void", "Standby-only: pause WAL replay.", "SELECT pg_wal_replay_pause();", "functions-admin.html#FUNCTIONS-RECOVERY-CONTROL"));
    t.insert(function("pg_wal_replay_resume", "pg_wal_replay_resume() -> void", "Standby-only: resume WAL replay.", "SELECT pg_wal_replay_resume();", "functions-admin.html#FUNCTIONS-RECOVERY-CONTROL"));
    t.insert(function("pg_notification_queue_usage", "pg_notification_queue_usage() -> double precision", "Fraction (0..1) of the global async-notify queue currently used. >0.5 = pageable.", "SELECT pg_notification_queue_usage();", "functions-info.html#FUNCTIONS-INFO-SESSION"));
    t.insert(function("lo_create", "lo_create(loid oid) -> oid", "Create a large object with the given OID (0 = pick free OID).", "SELECT lo_create(0);", "lo-funcs.html"));
    t.insert(function("lo_unlink", "lo_unlink(loid oid) -> int", "Delete a large object.", "SELECT lo_unlink(16385);", "lo-funcs.html"));
    t.insert(function("lo_open", "lo_open(loid oid, mode int) -> int", "Open a large object; modes: INV_READ=0x40000, INV_WRITE=0x20000.", "SELECT lo_open(16385, 0x40000);", "lo-funcs.html"));
    t.insert(function("lo_close", "lo_close(fd int) -> int", "Close a large-object file descriptor.", "SELECT lo_close(fd);", "lo-funcs.html"));
    t.insert(function("lo_read", "lo_read(fd int, len int) -> bytea", "Read up to len bytes from a large-object fd.", "SELECT lo_read(fd, 8192);", "lo-funcs.html"));
    t.insert(function("lo_write", "lo_write(fd int, data bytea) -> int", "Write bytes to a large-object fd.", "SELECT lo_write(fd, data);", "lo-funcs.html"));
    t.insert(function("lo_lseek", "lo_lseek(fd int, offset int, whence int) -> int", "32-bit seek inside a large object. Whence: 0=SET, 1=CUR, 2=END.", "SELECT lo_lseek(fd, 0, 0);", "lo-funcs.html"));
    t.insert(function("lo_lseek64", "lo_lseek64(fd int, offset bigint, whence int) -> bigint", "64-bit seek for large objects > 2 GB.", "SELECT lo_lseek64(fd, 3000000000, 0);", "lo-funcs.html"));
    t.insert(function("lo_tell", "lo_tell(fd int) -> int", "Current offset (32-bit).", "SELECT lo_tell(fd);", "lo-funcs.html"));
    t.insert(function("lo_tell64", "lo_tell64(fd int) -> bigint", "Current offset (64-bit).", "SELECT lo_tell64(fd);", "lo-funcs.html"));
    t.insert(function("lo_truncate", "lo_truncate(fd int, len int) -> int", "Truncate (32-bit).", "SELECT lo_truncate(fd, 0);", "lo-funcs.html"));
    t.insert(function("lo_truncate64", "lo_truncate64(fd int, len bigint) -> int", "Truncate (64-bit).", "SELECT lo_truncate64(fd, 0);", "lo-funcs.html"));
    t.insert(function("lo_put", "lo_put(loid oid, offset bigint, data bytea) -> void", "Overwrite bytes at offset -- whole-object form, no fd dance.", "SELECT lo_put(16385, 0, '\\xdeadbeef');", "lo-funcs.html"));
    t.insert(function("lo_get", "lo_get(loid oid [, offset bigint, length int]) -> bytea", "Read part (or all) of a large object as bytea.", "SELECT lo_get(16385, 0, 1024);", "lo-funcs.html"));
    t.insert(function("lo_from_bytea", "lo_from_bytea(loid oid, data bytea) -> oid", "Create a large object from bytea.", "SELECT lo_from_bytea(0, '\\xdeadbeef');", "lo-funcs.html"));
    t.insert(function("lo_export", "lo_export(loid oid, file text) -> int", "Write a large object to a server-side file (superuser).", "SELECT lo_export(16385, '/tmp/blob.bin');", "lo-funcs.html"));
    t.insert(function("lo_import", "lo_import(file text [, loid oid]) -> oid", "Load a server-side file into a large object (superuser).", "SELECT lo_import('/tmp/blob.bin');", "lo-funcs.html"));
    t.insert(function("pg_ls_dir", "pg_ls_dir(dir text [, missing_ok boolean, include_dot_dirs boolean]) -> setof text", "List entries in a server-side directory (superuser or pg_read_server_files).", "SELECT pg_ls_dir('base');", "functions-admin.html#FUNCTIONS-ADMIN-GENFILE"));
    t.insert(function("pg_ls_logdir", "pg_ls_logdir() -> setof (name text, size bigint, modification timestamptz)", "List the server log directory contents.", "SELECT * FROM pg_ls_logdir();", "functions-admin.html#FUNCTIONS-ADMIN-GENFILE"));
    t.insert(function("pg_ls_waldir", "pg_ls_waldir() -> setof (name text, size bigint, modification timestamptz)", "List pg_wal/.", "SELECT * FROM pg_ls_waldir();", "functions-admin.html#FUNCTIONS-ADMIN-GENFILE"));
    t.insert(function("pg_ls_tmpdir", "pg_ls_tmpdir([tablespace oid]) -> setof (name text, size bigint, modification timestamptz)", "List the temp directory of a tablespace.", "SELECT * FROM pg_ls_tmpdir();", "functions-admin.html#FUNCTIONS-ADMIN-GENFILE"));
    t.insert(function("pg_ls_archive_statusdir", "pg_ls_archive_statusdir() -> setof (name text, size bigint, modification timestamptz)", "List pg_wal/archive_status/.", "SELECT * FROM pg_ls_archive_statusdir();", "functions-admin.html#FUNCTIONS-ADMIN-GENFILE"));
    t.insert(function("pg_read_file", "pg_read_file(filename text [, offset bigint, length bigint [, missing_ok boolean]]) -> text", "Read a server-side file as text (superuser or pg_read_server_files).", "SELECT pg_read_file('postgresql.conf', 0, 4096);", "functions-admin.html#FUNCTIONS-ADMIN-GENFILE"));
    t.insert(function("pg_read_binary_file", "pg_read_binary_file(filename text [, offset bigint, length bigint [, missing_ok boolean]]) -> bytea", "Binary counterpart of `pg_read_file`.", "SELECT length(pg_read_binary_file('PG_VERSION'));", "functions-admin.html#FUNCTIONS-ADMIN-GENFILE"));
    t.insert(function("pg_stat_file", "pg_stat_file(filename text [, missing_ok boolean]) -> record", "Server-side `stat()` info: size, modification, change, access, creation, isdir.", "SELECT * FROM pg_stat_file('postgresql.conf');", "functions-admin.html#FUNCTIONS-ADMIN-GENFILE"));
    t.insert(function("dblink", "dblink(connstr text, sql text) -> setof record", "Execute a query on a remote PG via dblink and return rows. Caller supplies the AS (col types) list.", "SELECT * FROM dblink('host=remote dbname=app', 'SELECT id, name FROM t') AS r(id int, name text);", "dblink.html"));
    t.insert(function("dblink_exec", "dblink_exec(connstr text, sql text) -> text", "Execute a non-returning SQL on a remote server.", "SELECT dblink_exec('myconn', 'INSERT INTO t VALUES (1)');", "dblink.html"));
    t.insert(function("dblink_connect", "dblink_connect(name text, connstr text) -> text", "Open a named persistent dblink connection.", "SELECT dblink_connect('myconn', 'host=remote dbname=app');", "dblink.html"));
    t.insert(function("dblink_disconnect", "dblink_disconnect(name text) -> text", "Close a named dblink connection.", "SELECT dblink_disconnect('myconn');", "dblink.html"));
    t.insert(function("dblink_get_connections", "dblink_get_connections() -> text[]", "Names of all open dblink connections in this session.", "SELECT dblink_get_connections();", "dblink.html"));
    t.insert(function("num_nonnulls", "num_nonnulls(VARIADIC \"any\") -> int", "Count non-NULL args (PG10+).", "SELECT num_nonnulls(a, b, c) FROM t;", "functions-comparison.html#FUNCTIONS-COMPARISON-FUNC-TABLE"));
    t.insert(function("num_nulls", "num_nulls(VARIADIC \"any\") -> int", "Count NULL args.", "SELECT num_nulls(a, b, c) FROM t;", "functions-comparison.html#FUNCTIONS-COMPARISON-FUNC-TABLE"));
    t.insert(function("suppress_redundant_updates_trigger", "suppress_redundant_updates_trigger() -> trigger", "BEFORE UPDATE trigger that skips the row update when nothing changed -- cheaper than recomputing in app code.", "CREATE TRIGGER skip_noop BEFORE UPDATE ON t FOR EACH ROW EXECUTE FUNCTION suppress_redundant_updates_trigger();", "functions-trigger.html"));
    t.insert(function("tsmatchsel", "tsmatchsel(internal, oid, internal, int) -> double precision", "Selectivity-estimator for the `@@` FTS match operator. Internal -- referenced by `CREATE OPERATOR ... RESTRICT = tsmatchsel`.", "-- internal", "internals/index-functions.html"));
    t.insert(function("tsmatchjoinsel", "tsmatchjoinsel(internal, oid, internal, smallint, internal) -> double precision", "Join-selectivity estimator counterpart of `tsmatchsel`.", "-- internal", "internals/index-functions.html"));
    t.insert(function("width_bucket", "width_bucket(value, low, high, count int) -> int | width_bucket(value, array) -> int", "Map value into one of N equiwidth buckets between low/high, or into a sorted-array bucket. Useful for histograms.", "SELECT width_bucket(score, 0, 100, 10) AS bucket, count(*) FROM scores GROUP BY 1 ORDER BY 1;", "functions-math.html"));
    t.insert(function("bound_box", "bound_box(box, box) -> box", "Smallest box containing both input boxes.", "SELECT bound_box(box '(0,0),(1,1)', box '(2,2),(3,3)');", "functions-geometry.html"));
    t.insert(function("convert", "convert(bytea, src_encoding text, dst_encoding text) -> bytea", "Convert bytes between encodings. Companion of `convert_from` / `convert_to`.", "SELECT convert('\\xc3a9'::bytea, 'UTF8', 'LATIN1');", "functions-string.html#FUNCTIONS-STRING-OTHER"));
    t.insert(function("convert_from", "convert_from(bytea, src_encoding text) -> text", "Decode bytes from a given encoding into a text value (using the server encoding).", "SELECT convert_from('\\xc3a9'::bytea, 'UTF8');", "functions-string.html#FUNCTIONS-STRING-OTHER"));
    t.insert(function("convert_to", "convert_to(text, dst_encoding text) -> bytea", "Encode text into a target encoding's byte representation.", "SELECT convert_to('café', 'LATIN1');", "functions-string.html#FUNCTIONS-STRING-OTHER"));
    t.insert(function("set_config", "set_config(setting_name text, new_value text, is_local boolean) -> text", "Equivalent of `SET`/`SET LOCAL`. Returns the new value as text.", "SELECT set_config('statement_timeout', '5s', false);", "functions-admin.html#FUNCTIONS-ADMIN-SET"));
    t.insert(function("current_setting", "current_setting(setting_name text [, missing_ok boolean]) -> text", "Equivalent of `SHOW`. Returns the current GUC value as text. `missing_ok` true returns NULL when unknown.", "SELECT current_setting('search_path');", "functions-admin.html#FUNCTIONS-ADMIN-SET"));
    t.insert(function("cluster_name", "cluster_name -> text", "Server-wide cluster_name GUC (set in postgresql.conf or via ALTER SYSTEM).", "SELECT cluster_name;", "functions-info.html"));
    t.insert(function("pg_jit_available", "pg_jit_available() -> boolean", "True when the server has a JIT provider compiled in and `jit` GUC enabled.", "SELECT pg_jit_available();", "functions-info.html"));
    t.insert(function("pg_index_column_has_property", "pg_index_column_has_property(index_oid regclass, column_no int, property text) -> boolean", "Test per-column index capabilities (e.g. 'asc', 'desc', 'orderable', 'nulls_first').", "SELECT pg_index_column_has_property('users_email_idx'::regclass, 1, 'orderable');", "functions-info.html#FUNCTIONS-INFO-INDEX-COLUMN-PROPS"));
    t.insert(function("pg_index_has_property", "pg_index_has_property(index_oid regclass, property text) -> boolean", "Test whole-index capabilities (e.g. 'returnable', 'distance_orderable').", "SELECT pg_index_has_property('users_email_idx'::regclass, 'distance_orderable');", "functions-info.html"));
    t.insert(function("pg_indexam_has_property", "pg_indexam_has_property(am_oid oid, property text) -> boolean", "Test access-method-level capabilities (e.g. 'can_order', 'can_unique', 'can_multi_col').", "SELECT pg_indexam_has_property('btree'::regam, 'can_unique');", "functions-info.html"));
    t.insert(function("to_jsonb", "to_jsonb(any) -> jsonb", "Convert any value to its JSONB representation.", "SELECT to_jsonb(ARRAY[1,2,3]);", "functions-json.html#FUNCTIONS-JSON-CREATION-TABLE"));
    t.insert(function("json_strip_nulls", "json_strip_nulls(json) -> json", "Recursively drop keys with NULL values from a JSON object.", "SELECT json_strip_nulls('{\"a\":1,\"b\":null}'::json);", "functions-json.html#FUNCTIONS-JSON-PROCESSING-TABLE"));
    t.insert(function("json_array_length", "json_array_length(json) -> int", "Length of a JSON array.", "SELECT json_array_length('[1,2,3]'::json);", "functions-json.html#FUNCTIONS-JSON-PROCESSING-TABLE"));
    t.insert(function("json_typeof", "json_typeof(json) -> text", "JSON type label: 'object'/'array'/'string'/'number'/'boolean'/'null'.", "SELECT json_typeof('[1,2,3]'::json);", "functions-json.html#FUNCTIONS-JSON-PROCESSING-TABLE"));
    t.insert(function("json_extract_path", "json_extract_path(json, variadic text[]) -> json", "Walk a JSON path (key-by-key) and return the matching JSON.", "SELECT json_extract_path('{\"a\":{\"b\":1}}'::json, 'a', 'b');", "functions-json.html#FUNCTIONS-JSON-PROCESSING-TABLE"));
    t.insert(function("json_extract_path_text", "json_extract_path_text(json, variadic text[]) -> text", "Same as `json_extract_path` but coerces the result to text.", "SELECT json_extract_path_text('{\"a\":1}'::json, 'a');", "functions-json.html#FUNCTIONS-JSON-PROCESSING-TABLE"));
    t.insert(function("json_each", "json_each(json) -> setof (key text, value json)", "Iterate object's (key, value) pairs.", "SELECT * FROM json_each('{\"a\":1,\"b\":2}'::json);", "functions-json.html#FUNCTIONS-JSON-PROCESSING-TABLE"));
    t.insert(function("json_each_text", "json_each_text(json) -> setof (key text, value text)", "Same as `json_each` but values cast to text.", "SELECT * FROM json_each_text('{\"a\":1}'::json);", "functions-json.html#FUNCTIONS-JSON-PROCESSING-TABLE"));
    t.insert(function("json_object_keys", "json_object_keys(json) -> setof text", "Top-level keys of a JSON object.", "SELECT json_object_keys('{\"a\":1,\"b\":2}'::json);", "functions-json.html#FUNCTIONS-JSON-PROCESSING-TABLE"));
    t.insert(function("json_populate_recordset", "json_populate_recordset(base anyelement, json) -> setof anyelement", "Materialise an array of JSON objects as rows of a target composite type.", "SELECT * FROM json_populate_recordset(null::users, '[{\"id\":1},{\"id\":2}]'::json);", "functions-json.html#FUNCTIONS-JSON-PROCESSING-TABLE"));
}

fn part_8(t: &mut Table)
    requires
        old(t).wf(),
        old(t).table_kind() == Kind::Function,
    ensures
        final(t).wf(),
        final(t).table_kind() == Kind::Function,
        final(t).contents() == function_part_8(old(t).contents()),
{
    t.insert(function("to_regnamespace", "to_regnamespace(text) -> regnamespace", "Look up schema OID by name; NULL when missing.", "SELECT to_regnamespace('public') IS NOT NULL;", "functions-info.html#FUNCTIONS-INFO-CATALOG"));
    t.insert(function("to_regrole", "to_regrole(text) -> regrole", "Look up role OID by name; NULL when missing.", "SELECT to_regrole('postgres') IS NOT NULL;", "functions-info.html#FUNCTIONS-INFO-CATALOG"));
    t.insert(function("to_regoperator", "to_regoperator(text) -> regoperator", "Look up operator OID by signature 'op(lt,rt)'; NULL when missing.", "SELECT to_regoperator('+(int,int)') IS NOT NULL;", "functions-info.html#FUNCTIONS-INFO-CATALOG"));
    t.insert(function("hashtextextended", "hashtextextended(text, seed bigint) -> bigint", "64-bit seeded hash of text. PG13+; used by hash partitioning and parallel ops.", "SELECT hashtextextended('abc', 0);", "functions-binarystring.html"));
    t.insert(function("hashbpchar", "hashbpchar(bpchar) -> int", "Internal hash of a fixed-length character. Referenced by hash index/AM definitions.", "-- internal", "functions-binarystring.html"));
    t.insert(function("tsvector_to_array", "tsvector_to_array(tsvector) -> text[]", "Project lexemes of a tsvector into a text[] (positions/weights dropped).", "SELECT tsvector_to_array(to_tsvector('a b c'));", "functions-textsearch.html#TEXTSEARCH-FUNCTIONS-TABLE"));
    t.insert(function("array_to_tsvector", "array_to_tsvector(text[]) -> tsvector", "Build a tsvector from an array of lexemes (no normalization).", "SELECT array_to_tsvector(ARRAY['a','b','c']);", "functions-textsearch.html#TEXTSEARCH-FUNCTIONS-TABLE"));
    t.insert(function("ts_strip", "ts_strip(tsvector) -> tsvector", "Strip positions and weights from a tsvector.", "SELECT ts_strip(to_tsvector('a:1A b:2'));", "functions-textsearch.html#TEXTSEARCH-FUNCTIONS-TABLE"));
    t.insert(function("ts_setweight", "setweight(tsvector, weight char [, lexemes text[]]) -> tsvector", "Re-weight an entire tsvector (or only given lexemes) with A/B/C/D.", "SELECT setweight(to_tsvector('quick fox'), 'A');", "functions-textsearch.html#TEXTSEARCH-FUNCTIONS-TABLE"));
    t.insert(function("ts_length", "length(tsvector) -> int", "Number of distinct lexemes in a tsvector.", "SELECT length(to_tsvector('a a b'));", "functions-textsearch.html#TEXTSEARCH-FUNCTIONS-TABLE"));
    t.insert(function("similarity", "similarity(text, text) -> real", "pg_trgm: trigram similarity in [0, 1]. 0 = no overlap, 1 = identical.", "SELECT similarity('postgres', 'postgresql');", "pgtrgm.html"));
    t.insert(function("word_similarity", "word_similarity(text, text) -> real", "pg_trgm: best similarity of left-side phrase within right text.", "SELECT word_similarity('post', 'postgres rocks');", "pgtrgm.html"));
    t.insert(function("strict_word_similarity", "strict_word_similarity(text, text) -> real", "Stricter `word_similarity` that requires word boundaries on the right side.", "SELECT strict_word_similarity('post', 'postgres rocks');", "pgtrgm.html"));
    t.insert(function("show_trgm", "show_trgm(text) -> text[]", "pg_trgm: trigrams the text decomposes into.", "SELECT show_trgm('Postgres');", "pgtrgm.html"));
    t.insert(function("show_limit", "show_limit() -> real", "pg_trgm: current similarity threshold for `%` operator.", "SELECT show_limit();", "pgtrgm.html"));
    t.insert(function("set_limit", "set_limit(real) -> real", "pg_trgm: set the similarity threshold for `%`.", "SELECT set_limit(0.4);", "pgtrgm.html"));
    t.insert(function("box", "box(text|point,point|polygon|circle) -> box", "Construct or convert to a box.", "SELECT box(point '(0,0)', point '(1,1)');", "functions-geometry.html"));
    t.insert(function("circle", "circle(text|point, radius|box|polygon) -> circle", "Construct or convert to a circle.", "SELECT circle(point '(0,0)', 5);", "functions-geometry.html"));
    t.insert(function("line", "line(point, point) -> line", "Construct an infinite line through two points.", "SELECT line(point '(0,0)', point '(1,1)');", "functions-geometry.html"));
    t.insert(function("lseg", "lseg(point, point) -> lseg", "Construct a line segment between two points.", "SELECT lseg(point '(0,0)', point '(1,1)');", "functions-geometry.html"));
    t.insert(function("path", "path(text|polygon) -> path", "Convert text/polygon into a path.", "SELECT path(polygon '((0,0),(1,0),(1,1))');", "functions-geometry.html"));
    t.insert(function("point", "point(double precision, double precision) -> point", "Construct a point. Alias `(x, y)::point`.", "SELECT point(1.0, 2.0);", "functions-geometry.html"));
    t.insert(function("polygon", "polygon(text|box|path|circle) -> polygon", "Construct or convert to a polygon.", "SELECT polygon(box '(0,0),(1,1)');", "functions-geometry.html"));
    t.insert(function("circle_in", "circle_in(cstring) -> circle", "Type-input function for `circle`. Called by the parser, rarely by users.", "-- internal", "functions-geometry.html"));
    t.insert(function("box_in", "box_in(cstring) -> box", "Type-input function for `box`. Internal.", "-- internal", "functions-geometry.html"));
    t.insert(function("extract", "EXTRACT(<field> FROM <timestamp|interval>) -> double precision", "Pull a sub-field (year, month, day, dow, doy, epoch, ...) from a timestamp/interval.", "SELECT EXTRACT(EPOCH FROM (now() - birth)) FROM users;", "functions-datetime.html#FUNCTIONS-DATETIME-EXTRACT"));
    t.insert(function("isfinite", "isfinite(date|timestamp|interval) -> boolean", "True when the value is not `-infinity`/`infinity`.", "SELECT isfinite(now());", "functions-datetime.html"));
    t.insert(function("timezone", "timezone(text, timestamp|timestamptz|time|timetz) -> ...", "Equivalent of `AT TIME ZONE`. Convert between zones.", "SELECT timezone('UTC', now());", "functions-datetime.html#FUNCTIONS-DATETIME-ZONECONVERT"));
    t.insert(function("timeofday", "timeofday() -> text", "Current wall-clock time as a human-readable string. Cheap debug helper.", "SELECT timeofday();", "functions-datetime.html#FUNCTIONS-DATETIME-CURRENT"));
    t.insert(function("clock_timestamp", "clock_timestamp() -> timestamptz", "Real-time clock (changes within a statement). Compare with `now()` (transaction-time).", "SELECT clock_timestamp();", "functions-datetime.html#FUNCTIONS-DATETIME-CURRENT"));
    t.insert(function("transaction_timestamp", "transaction_timestamp() -> timestamptz", "Alias of `now()` -- transaction start time.", "SELECT transaction_timestamp();", "functions-datetime.html#FUNCTIONS-DATETIME-CURRENT"));
    t.insert(function("statement_timestamp", "statement_timestamp() -> timestamptz", "Current statement start time (constant within one statement).", "SELECT statement_timestamp();", "functions-datetime.html#FUNCTIONS-DATETIME-CURRENT"));
    t.insert(function("date_bin", "date_bin(stride interval, source timestamp, origin timestamp) -> timestamp", "Snap a timestamp to the nearest stride-sized bin starting at `origin`. PG14+. Useful for time-series bucketing.", "SELECT date_bin('15 minutes', now(), TIMESTAMP '2000-01-01');", "functions-datetime.html#FUNCTIONS-DATETIME-BIN"));
    t.insert(function("date_diff", "date_diff(field text, a timestamp, b timestamp) -> bigint", "PG17+ helper: signed difference between two timestamps in whole units of `field` ('year','month','day','hour','minute','second',...).", "SELECT date_diff('day', '2026-01-01'::timestamp, now()::timestamp);", "functions-datetime.html"));
    t.insert(function("pg_get_function_arguments", "pg_get_function_arguments(function_oid regprocedure) -> text", "Re-render a function's argument signature, including modes / defaults.", "SELECT pg_get_function_arguments('my_fn(int)'::regprocedure);", "functions-info.html#FUNCTIONS-INFO-CATALOG"));
    t.insert(function("pg_get_function_result", "pg_get_function_result(function_oid regprocedure) -> text", "Re-render a function's RETURNS clause.", "SELECT pg_get_function_result('my_fn(int)'::regprocedure);", "functions-info.html#FUNCTIONS-INFO-CATALOG"));
    t.insert(function("ord", "ord(text) -> int", "Unicode codepoint of the first character. PG17+; for older PGs use `ascii(left(s,1))`.", "SELECT ord('A');", "functions-string.html#FUNCTIONS-STRING-OTHER"));
    t.insert(function("to_hex", "to_hex(int|bigint) -> text", "Lowercase hex representation (no `0x` prefix).", "SELECT to_hex(255);", "functions-string.html#FUNCTIONS-STRING-OTHER"));
    t.insert(function("array_subscript", "array_subscript_handler -- internal type-specific subscript routing", "Internal type-support function plugged into custom-type subscript handlers (PG14+ subscriptable types).", "-- internal", "functions-array.html"));
    t.insert(function("hash_array", "hash_array(anyarray) -> int", "Internal hash of an array. Referenced by hash index/joins.", "-- internal", "functions-array.html"));
    t.insert(function("bit_count", "bit_count(bytea|bit) -> bigint", "Number of set bits (population count). PG14+.", "SELECT bit_count('\\xff'::bytea);", "functions-binarystring.html"));
    t.insert(function("array_sample", "array_sample(array anyarray, n int) -> anyarray", "Return n elements sampled without replacement (PG16+).", "SELECT array_sample(ARRAY[1,2,3,4,5], 2);", "functions-array.html#FUNCTIONS-ARRAY-TABLE"));
    t.insert(function("array_shuffle", "array_shuffle(anyarray) -> anyarray", "Return the array elements in random order (PG16+).", "SELECT array_shuffle(ARRAY[1,2,3,4,5]);", "functions-array.html#FUNCTIONS-ARRAY-TABLE"));
    t.insert(function("range_intersect_agg", "range_intersect_agg(anyrange) -> anyrange", "Aggregate the intersection of a set of ranges. PG14+.", "SELECT range_intersect_agg(period) FROM availability WHERE resource_id = 1;", "functions-aggregate.html#FUNCTIONS-AGGREGATE-TABLE"));
    t.insert(function("pg_get_catalog_foreign_keys", "pg_get_catalog_foreign_keys() -> setof record(fktable, fkcols, pktable, pkcols, is_array, is_opt)", "Hard-coded FK relationships between pg_catalog tables (PG14+).", "SELECT * FROM pg_get_catalog_foreign_keys();", "functions-info.html#FUNCTIONS-INFO-CATALOG"));
    t.insert(function("pg_get_partition_constraintdef", "pg_get_partition_constraintdef(oid) -> text", "Reconstruct the CHECK constraint implied by a partition's bounds.", "SELECT pg_get_partition_constraintdef('events_2025'::regclass::oid);", "functions-info.html#FUNCTIONS-INFO-CATALOG"));
    t.insert(function("pg_partition_root", "pg_partition_root(regclass) -> regclass", "Return the topmost parent of a partitioned-table tree.", "SELECT pg_partition_root('events_2025'::regclass);", "functions-info.html#FUNCTIONS-INFO-CATALOG"));
    t.insert(function("pg_partition_ancestors", "pg_partition_ancestors(regclass) -> setof regclass", "Each ancestor in the partitioning tree, root last.", "SELECT * FROM pg_partition_ancestors('events_2025'::regclass);", "functions-info.html#FUNCTIONS-INFO-CATALOG"));
    t.insert(function("pg_partition_tree", "pg_partition_tree(regclass) -> setof record(relid, parentid, isleaf, level)", "Walk a partitioned table top-down.", "SELECT * FROM pg_partition_tree('events'::regclass);", "functions-info.html#FUNCTIONS-INFO-CATALOG"));
    t.insert(function("levenshtein", "levenshtein(s1 text, s2 text [, ins_cost int, del_cost int, sub_cost int]) -> int", "Edit distance with optional per-op costs. Requires `CREATE EXTENSION fuzzystrmatch`.", "SELECT levenshtein('kitten', 'sitting');", "fuzzystrmatch.html#FUZZYSTRMATCH-LEVENSHTEIN"));
    t.insert(function("levenshtein_less_equal", "levenshtein_less_equal(s1, s2, max int) -> int", "Like levenshtein() but bails out early when distance would exceed `max`. Faster on similar inputs.", "SELECT levenshtein_less_equal('foo', 'fooz', 2);", "fuzzystrmatch.html#FUZZYSTRMATCH-LEVENSHTEIN"));
    t.insert(function("metaphone", "metaphone(text, max_output_length int) -> text", "Metaphone phonetic key for English words. Extension fuzzystrmatch.", "SELECT metaphone('Pittsburgh', 6);", "fuzzystrmatch.html#FUZZYSTRMATCH-METAPHONE"));
    t.insert(function("dmetaphone", "dmetaphone(text) -> text", "Double-Metaphone primary code (improved Metaphone). Extension fuzzystrmatch.", "SELECT dmetaphone('Pittsburgh');", "fuzzystrmatch.html#FUZZYSTRMATCH-DOUBLE-METAPHONE"));
    t.insert(function("dmetaphone_alt", "dmetaphone_alt(text) -> text", "Double-Metaphone alternate code (for ambiguous pronunciation). Extension fuzzystrmatch.", "SELECT dmetaphone_alt('Pittsburgh');", "fuzzystrmatch.html#FUZZYSTRMATCH-DOUBLE-METAPHONE"));
    t.insert(function("soundex", "soundex(text) -> text", "Soundex code (legacy phonetic). Extension fuzzystrmatch.", "SELECT soundex('Smith') = soundex('Smyth');", "fuzzystrmatch.html#FUZZYSTRMATCH-SOUNDEX"));
    t.insert(function("difference", "difference(a text, b text) -> int", "Soundex distance: 0..4. Extension fuzzystrmatch.", "SELECT difference('Smith', 'Smyth');", "fuzzystrmatch.html#FUZZYSTRMATCH-SOUNDEX"));
    t.insert(function("unaccent", "unaccent([dict regdictionary,] text) -> text", "Strip accents using a tsearch dictionary (default `unaccent`). Extension unaccent.", "SELECT unaccent('café');", "unaccent.html"));
    t.insert(function("ll_to_earth", "ll_to_earth(lat double, lon double) -> earth", "Convert a lat/lon to the cube-based `earth` type. Requires `cube` + `earthdistance`.", "SELECT ll_to_earth(40.7, -74.0);", "earthdistance.html"));
    t.insert(function("earth_distance", "earth_distance(a earth, b earth) -> double precision", "Great-circle distance in meters. Requires cube + earthdistance.", "SELECT earth_distance(ll_to_earth(40.7,-74.0), ll_to_earth(34.0,-118.0));", "earthdistance.html"));
    t.insert(function("crypt_check", "crypt(password, hash) -> text", "Verify by comparing a freshly-crypted password to a stored hash (constant-time-friendly). Pair with gen_salt.", "SELECT (hash = crypt('plaintext', hash)) AS ok FROM users WHERE id = 1;", "pgcrypto.html#PGCRYPTO-PASSWORD-HASHING"));
    t.insert(function("random_normal", "random_normal([mean double, stddev double]) -> double precision", "Normally-distributed random number (PG17+). Default mean 0, stddev 1.", "SELECT random_normal(0.0, 1.0);", "functions-math.html"));
    proof {
        reveal_strlit("https://github.com/pgvector/pgvector");
    }
    t.insert(function_at("cosine_distance", "cosine_distance(vector, vector) -> double precision", "1 - cosine similarity. Range [0, 2]. Requires `CREATE EXTENSION vector` (pgvector). Same as `<=>` operator.", "SELECT cosine_distance(embedding, '[0.1, 0.2, 0.3]') FROM docs ORDER BY 1 LIMIT 5;", "https://github.com/pgvector/pgvector"));
    proof {
        reveal_strlit("https://github.com/pgvector/pgvector");
    }
    t.insert(function_at("l2_distance", "l2_distance(vector, vector) -> double precision", "Euclidean distance. Same as `<->` operator. pgvector.", "SELECT l2_distance(embedding, query) FROM docs ORDER BY 1 LIMIT 5;", "https://github.com/pgvector/pgvector"));
    proof {
        reveal_strlit("https://github.com/pgvector/pgvector");
    }
    t.insert(function_at("inner_product", "inner_product(vector, vector) -> double precision", "Dot product. Negated form (`<#>`) sorts low->high for KNN. pgvector.", "SELECT inner_product(a, b) FROM vecs;", "https://github.com/pgvector/pgvector"));
    proof {
        reveal_strlit("https://github.com/pgvector/pgvector");
    }
    t.insert(function_at("l1_distance", "l1_distance(vector, vector) -> double precision", "Taxicab (Manhattan) distance. pgvector 0.5+.", "SELECT l1_distance(a, b) FROM vecs;", "https://github.com/pgvector/pgvector"));
    proof {
        reveal_strlit("https://github.com/pgvector/pgvector");
    }
    t.insert(function_at("vector_dims", "vector_dims(vector) -> int", "Dimensionality of the vector.", "SELECT vector_dims(embedding) FROM docs LIMIT 1;", "https://github.com/pgvector/pgvector"));
    proof {
        reveal_strlit("https://github.com/pgvector/pgvector");
    }
    t.insert(function_at("vector_norm", "vector_norm(vector) -> double precision", "L2 norm (magnitude). Use to normalize.", "SELECT embedding / vector_norm(embedding) FROM docs;", "https://github.com/pgvector/pgvector"));
    proof {
        reveal_strlit("https://github.com/pgvector/pgvector");
    }
    t.insert(function_at("hamming_distance", "hamming_distance(bit, bit) -> int", "Bit-wise hamming distance. pgvector also exposes a vector variant.", "SELECT hamming_distance('1010', '1100');", "https://github.com/pgvector/pgvector"));
    proof {
        reveal_strlit("https://github.com/pgvector/pgvector");
    }
    t.insert(function_at("jaccard_distance", "jaccard_distance(bit, bit) -> double precision", "1 - Jaccard similarity. pgvector for binary vectors.", "SELECT jaccard_distance('1010', '1100');", "https://github.com/pgvector/pgvector"));
    t.insert(function("akeys", "akeys(hstore) -> text[]", "Return all keys as a text array (sorted by storage order).", "SELECT akeys('a=>1,b=>2'::hstore);", "hstore.html"));
    t.insert(function("avals", "avals(hstore) -> text[]", "Return all values as a text array.", "SELECT avals('a=>1,b=>2'::hstore);", "hstore.html"));
    t.insert(function("skeys", "skeys(hstore) -> setof text", "Return keys as a row set.", "SELECT * FROM skeys('a=>1,b=>2'::hstore);", "hstore.html"));
    t.insert(function("svals", "svals(hstore) -> setof text", "Return values as a row set.", "SELECT * FROM svals('a=>1,b=>2'::hstore);", "hstore.html"));
    t.insert(function("hstore_to_json", "hstore_to_json(hstore) -> json", "Convert hstore to JSON.", "SELECT hstore_to_json('a=>1'::hstore);", "hstore.html"));
    t.insert(function("hstore_to_jsonb", "hstore_to_jsonb(hstore) -> jsonb", "Convert hstore to JSONB (faster for storage/queries).", "SELECT hstore_to_jsonb('a=>1'::hstore);", "hstore.html"));
}

fn part_9(t: &mut Table)
    requires
        old(t).wf(),
        old(t).table_kind() == Kind::Function,
    ensures
        final(t).wf(),
        final(t).table_kind() == Kind::Function,
        final(t).contents() == function_part_9(old(t).contents()),
{
    t.insert(function("hstore_to_array", "hstore_to_array(hstore) -> text[]", "Flatten hstore to {k1, v1, k2, v2, ...} text array.", "SELECT hstore_to_array('a=>1,b=>2'::hstore);", "hstore.html"));
    t.insert(function("hstore_to_matrix", "hstore_to_matrix(hstore) -> text[][]", "Convert hstore to a 2-dim array {{k,v},{k,v}}.", "SELECT hstore_to_matrix('a=>1,b=>2'::hstore);", "hstore.html"));
    t.insert(function("populate_record", "populate_record(base anyelement, hstore) -> anyelement", "Cast hstore into a record/row type, using `base` for shape.", "SELECT populate_record(NULL::users, 'id=>1,name=>x'::hstore);", "hstore.html"));
    t.insert(function("each_hstore", "each(hstore) -> setof record(key text, value text)", "Decompose hstore into (key, value) rows.", "SELECT * FROM each('a=>1,b=>2'::hstore);", "hstore.html"));
    t.insert(function("exist", "exist(hstore, key text) -> boolean", "True when the hstore has the given key. Same as `?` operator.", "SELECT exist(meta, 'priority') FROM jobs;", "hstore.html"));
    t.insert(function("defined", "defined(hstore, key text) -> boolean", "True when key exists AND its value is not NULL.", "SELECT defined(meta, 'tag') FROM jobs;", "hstore.html"));
    t.insert(function("pg_stat_statements", "pg_stat_statements [(showtext boolean)] -> setof record(queryid, userid, dbid, calls, total_exec_time, mean_exec_time, rows, ...)", "Per-statement execution stats. Requires `CREATE EXTENSION pg_stat_statements` and `shared_preload_libraries`.", "SELECT queryid, calls, mean_exec_time FROM pg_stat_statements ORDER BY mean_exec_time DESC LIMIT 10;", "pgstatstatements.html"));
    t.insert(function("pg_stat_statements_reset", "pg_stat_statements_reset([userid oid, dbid oid, queryid bigint]) -> setof bigint", "Reset stats for all entries, or just matching subset (PG14+).", "SELECT pg_stat_statements_reset();", "pgstatstatements.html"));
    t.insert(function("pg_stat_statements_info", "pg_stat_statements_info() -> record(dealloc bigint, stats_reset timestamptz)", "Sidecar stats for pg_stat_statements itself (PG14+).", "SELECT * FROM pg_stat_statements_info();", "pgstatstatements.html"));
    proof {
        reveal_strlit("https://postgis.net/docs/ST_GeomFromText.html");
    }
    t.insert(function_at("st_geomfromtext", "ST_GeomFromText(wkt text [, srid int]) -> geometry", "Build a geometry from Well-Known Text. PostGIS.", "SELECT ST_GeomFromText('POINT(-71.064544 42.28787)', 4326);", "https://postgis.net/docs/ST_GeomFromText.html"));
    proof {
        reveal_strlit("https://postgis.net/docs/ST_GeomFromEWKT.html");
    }
    t.insert(function_at("st_geomfromewkt", "ST_GeomFromEWKT(text) -> geometry", "EWKT variant that includes the SRID inline. PostGIS.", "SELECT ST_GeomFromEWKT('SRID=4326;POINT(-71 42)');", "https://postgis.net/docs/ST_GeomFromEWKT.html"));
    proof {
        reveal_strlit("https://postgis.net/docs/ST_GeomFromWKB.html");
    }
    t.insert(function_at("st_geomfromwkb", "ST_GeomFromWKB(bytea [, srid int]) -> geometry", "Build a geometry from Well-Known Binary. PostGIS.", "SELECT ST_GeomFromWKB(decode('...', 'hex'), 4326);", "https://postgis.net/docs/ST_GeomFromWKB.html"));
    proof {
        reveal_strlit("https://postgis.net/docs/ST_Point.html");
    }
    t.insert(function_at("st_point", "ST_Point(x double, y double [, srid int]) -> geometry", "Build a point. PostGIS 3.2+ adds the srid form; older versions need ST_SetSRID.", "SELECT ST_Point(-71.0, 42.0, 4326);", "https://postgis.net/docs/ST_Point.html"));
    proof {
        reveal_strlit("https://postgis.net/docs/ST_MakePoint.html");
    }
    t.insert(function_at("st_makepoint", "ST_MakePoint(x double, y double [, z, m]) -> geometry", "Same as ST_Point pre-3.2.", "SELECT ST_MakePoint(-71.0, 42.0);", "https://postgis.net/docs/ST_MakePoint.html"));
    proof {
        reveal_strlit("https://postgis.net/docs/ST_SetSRID.html");
    }
    t.insert(function_at("st_setsrid", "ST_SetSRID(geom geometry, srid int) -> geometry", "Stamp an SRID onto a geometry (no reprojection). PostGIS.", "SELECT ST_SetSRID(ST_MakePoint(-71, 42), 4326);", "https://postgis.net/docs/ST_SetSRID.html"));
    proof {
        reveal_strlit("https://postgis.net/docs/ST_Transform.html");
    }
    t.insert(function_at("st_transform", "ST_Transform(geom geometry, to_srid int) -> geometry", "Reproject between coordinate systems. PostGIS.", "SELECT ST_Transform(geom, 3857) FROM places;", "https://postgis.net/docs/ST_Transform.html"));
    proof {
        reveal_strlit("https://postgis.net/docs/ST_AsText.html");
    }
    t.insert(function_at("st_astext", "ST_AsText(geom geometry [, maxdecimals int]) -> text", "Format geometry as WKT. PostGIS.", "SELECT ST_AsText(geom) FROM places LIMIT 1;", "https://postgis.net/docs/ST_AsText.html"));
    proof {
        reveal_strlit("https://postgis.net/docs/ST_AsEWKT.html");
    }
    t.insert(function_at("st_asewkt", "ST_AsEWKT(geom geometry) -> text", "WKT with SRID prefix. PostGIS.", "SELECT ST_AsEWKT(geom) FROM places LIMIT 1;", "https://postgis.net/docs/ST_AsEWKT.html"));
    proof {
        reveal_strlit("https://postgis.net/docs/ST_AsGeoJSON.html");
    }
    t.insert(function_at("st_asgeojson", "ST_AsGeoJSON(geom geometry [, maxdecimals int, options int]) -> text", "Format as GeoJSON. PostGIS.", "SELECT ST_AsGeoJSON(geom, 6) FROM places;", "https://postgis.net/docs/ST_AsGeoJSON.html"));
    proof {
        reveal_strlit("https://postgis.net/docs/ST_SRID.html");
    }
    t.insert(function_at("st_srid", "ST_SRID(geom geometry) -> int", "Spatial reference system id. 0 means unspecified.", "SELECT ST_SRID(geom) FROM places LIMIT 1;", "https://postgis.net/docs/ST_SRID.html"));
    proof {
        reveal_strlit("https://postgis.net/docs/ST_GeometryType.html");
    }
    t.insert(function_at("st_geometrytype", "ST_GeometryType(geom geometry) -> text", "'ST_Point', 'ST_LineString', etc. Prefixed.", "SELECT ST_GeometryType(geom) FROM places;", "https://postgis.net/docs/ST_GeometryType.html"));
    proof {
        reveal_strlit("https://postgis.net/docs/ST_Within.html");
    }
    t.insert(function_at("st_within", "ST_Within(a geometry, b geometry) -> boolean", "True when a is completely inside b. PostGIS. Indexed by GiST when the args have spatial indexes.", "SELECT * FROM places p WHERE ST_Within(p.geom, ST_GeomFromText('POLYGON(...)', 4326));", "https://postgis.net/docs/ST_Within.html"));
    proof {
        reveal_strlit("https://postgis.net/docs/ST_Contains.html");
    }
    t.insert(function_at("st_contains", "ST_Contains(a, b geometry) -> boolean", "Mirror of ST_Within. PostGIS.", "SELECT ST_Contains(poly, point) FROM ...;", "https://postgis.net/docs/ST_Contains.html"));
    proof {
        reveal_strlit("https://postgis.net/docs/ST_Intersects.html");
    }
    t.insert(function_at("st_intersects", "ST_Intersects(a, b geometry) -> boolean", "True when geometries share at least one point. PostGIS.", "SELECT * FROM roads WHERE ST_Intersects(geom, ST_Buffer(town_geom, 100));", "https://postgis.net/docs/ST_Intersects.html"));
    proof {
        reveal_strlit("https://postgis.net/docs/ST_Disjoint.html");
    }
    t.insert(function_at("st_disjoint", "ST_Disjoint(a, b geometry) -> boolean", "Mirror of ST_Intersects.", "SELECT ST_Disjoint(a, b) FROM ...;", "https://postgis.net/docs/ST_Disjoint.html"));
    proof {
        reveal_strlit("https://postgis.net/docs/ST_DWithin.html");
    }
    t.insert(function_at("st_dwithin", "ST_DWithin(a, b geometry, distance double precision [, use_spheroid boolean]) -> boolean", "True when geometries are within `distance` meters. Crucial for KNN/radius queries. PostGIS.", "SELECT * FROM places WHERE ST_DWithin(geom::geography, ST_MakePoint(lon, lat)::geography, 1000);", "https://postgis.net/docs/ST_DWithin.html"));
    proof {
        reveal_strlit("https://postgis.net/docs/ST_Distance.html");
    }
    t.insert(function_at("st_distance", "ST_Distance(a, b geometry) -> double precision | ST_Distance(a, b geography [, use_spheroid]) -> double precision (meters)", "Shortest distance between geometries.", "SELECT ST_Distance(a, b) FROM pairs;", "https://postgis.net/docs/ST_Distance.html"));
    proof {
        reveal_strlit("https://postgis.net/docs/ST_Area.html");
    }
    t.insert(function_at("st_area", "ST_Area(geom geometry) -> double precision | ST_Area(geog geography) -> double precision (m²)", "Surface area. Casting to geography gives accurate metric results.", "SELECT ST_Area(geom::geography) FROM polygons;", "https://postgis.net/docs/ST_Area.html"));
    proof {
        reveal_strlit("https://postgis.net/docs/ST_Length.html");
    }
    t.insert(function_at("st_length", "ST_Length(geom geometry) -> double precision | (geography) -> meters", "Total length of linestrings.", "SELECT ST_Length(geom::geography) FROM roads;", "https://postgis.net/docs/ST_Length.html"));
    proof {
        reveal_strlit("https://postgis.net/docs/ST_Buffer.html");
    }
    t.insert(function_at("st_buffer", "ST_Buffer(geom geometry, distance double [, quad_segs int | options text]) -> geometry", "Expand geometry by `distance` (in units of SRID, or meters when cast to geography).", "SELECT ST_Buffer(point::geography, 1000) FROM places;", "https://postgis.net/docs/ST_Buffer.html"));
    proof {
        reveal_strlit("https://postgis.net/docs/ST_Centroid.html");
    }
    t.insert(function_at("st_centroid", "ST_Centroid(geom geometry) -> geometry", "Geometric centroid (center of mass).", "SELECT ST_Centroid(geom) FROM polygons;", "https://postgis.net/docs/ST_Centroid.html"));
    proof {
        reveal_strlit("https://postgis.net/docs/ST_MakeEnvelope.html");
    }
    t.insert(function_at("st_makeenvelope", "ST_MakeEnvelope(xmin double, ymin double, xmax double, ymax double [, srid int]) -> geometry", "Build a rectangular polygon (bounding box).", "SELECT ST_MakeEnvelope(-180, -90, 180, 90, 4326);", "https://postgis.net/docs/ST_MakeEnvelope.html"));
    proof {
        reveal_strlit("https://github.com/pgpartman/pg_partman");
    }
    t.insert(function_at("create_parent", "partman.create_parent(p_parent_table text, p_control text, p_type text, p_interval text, ...) -> boolean", "Bootstrap a partition set + its background trigger. pg_partman.", "SELECT partman.create_parent('public.events', 'created_at', 'native', 'monthly');", "https://github.com/pgpartman/pg_partman"));
    proof {
        reveal_strlit("https://github.com/pgpartman/pg_partman");
    }
    t.insert(function_at("run_maintenance", "partman.run_maintenance([p_parent_table text]) -> void", "Create new partitions ahead of time, drop old ones. Called by cron. pg_partman.", "SELECT partman.run_maintenance('public.events');", "https://github.com/pgpartman/pg_partman"));
    proof {
        reveal_strlit("https://github.com/pgpartman/pg_partman");
    }
    t.insert(function_at("partition_data_time", "partman.partition_data_time(p_parent_table text, p_batch_count int, ...) -> bigint", "Move rows from a default partition into the right child. pg_partman.", "SELECT partman.partition_data_time('public.events');", "https://github.com/pgpartman/pg_partman"));
    proof {
        reveal_strlit("https://github.com/citusdata/pg_cron");
    }
    t.insert(function_at("cron_schedule", "cron.schedule(job_name text, schedule text, command text) -> bigint", "Schedule a SQL command on a 5-field cron string. Returns the new job id. pg_cron.", "SELECT cron.schedule('clean-old-events', '0 3 * * *', $$ DELETE FROM events WHERE ts < now() - INTERVAL '90 days' $$);", "https://github.com/citusdata/pg_cron"));
    proof {
        reveal_strlit("https://github.com/citusdata/pg_cron");
    }
    t.insert(function_at("cron_unschedule", "cron.unschedule(jobid bigint | job_name text) -> boolean", "Cancel a scheduled job. pg_cron.", "SELECT cron.unschedule('clean-old-events');", "https://github.com/citusdata/pg_cron"));
    proof {
        reveal_strlit("https://github.com/citusdata/pg_cron");
    }
    t.insert(function_at("cron_schedule_in_database", "cron.schedule_in_database(job_name text, schedule text, command text, database text, [user text, active boolean]) -> bigint", "Schedule a job that runs against a specific database. pg_cron.", "SELECT cron.schedule_in_database('analytics-refresh', '0 * * * *', 'REFRESH MATERIALIZED VIEW mv', 'analytics');", "https://github.com/citusdata/pg_cron"));
    proof {
        reveal_strlit("https://docs.timescale.com/api/latest/hypertable/create_hypertable/");
    }
    t.insert(function_at("create_hypertable", "create_hypertable(relation regclass, time_column_name name [, chunk_time_interval interval, ...]) -> record", "Convert a regular table into a TimescaleDB hypertable; partitions on time. Many optional knobs (space partitioning, migrate_data).", "SELECT create_hypertable('events', 'ts', chunk_time_interval => INTERVAL '1 day');", "https://docs.timescale.com/api/latest/hypertable/create_hypertable/"));
    proof {
        reveal_strlit("https://docs.timescale.com/api/latest/hypertable/add_dimension/");
    }
    t.insert(function_at("add_dimension", "add_dimension(hypertable regclass, column_name name [, number_partitions int | chunk_time_interval interval]) -> record", "Add an additional partitioning dimension (e.g. space partition).", "SELECT add_dimension('events', 'region_id', number_partitions => 4);", "https://docs.timescale.com/api/latest/hypertable/add_dimension/"));
    proof {
        reveal_strlit("https://docs.timescale.com/api/latest/compression/add_compression_policy/");
    }
    t.insert(function_at("add_compression_policy", "add_compression_policy(hypertable regclass, compress_after interval, [if_not_exists boolean]) -> int", "Auto-compress chunks older than `compress_after`. TimescaleDB.", "SELECT add_compression_policy('events', INTERVAL '30 days');", "https://docs.timescale.com/api/latest/compression/add_compression_policy/"));
    proof {
        reveal_strlit("https://docs.timescale.com/api/latest/data_retention/add_retention_policy/");
    }
    t.insert(function_at("add_retention_policy", "add_retention_policy(hypertable regclass, drop_after interval, [if_not_exists boolean]) -> int", "Auto-drop chunks older than `drop_after`. TimescaleDB.", "SELECT add_retention_policy('events', INTERVAL '1 year');", "https://docs.timescale.com/api/latest/data_retention/add_retention_policy/"));
    proof {
        reveal_strlit("https://docs.timescale.com/api/latest/continuous-aggregates/add_continuous_aggregate_policy/");
    }
    t.insert(function_at("add_continuous_aggregate_policy", "add_continuous_aggregate_policy(cagg regclass, start_offset interval, end_offset interval, schedule_interval interval) -> int", "Schedule incremental refresh of a continuous aggregate (materialized view of time bucket aggregates).", "SELECT add_continuous_aggregate_policy('events_5m', INTERVAL '1 month', INTERVAL '5 minutes', INTERVAL '5 minutes');", "https://docs.timescale.com/api/latest/continuous-aggregates/add_continuous_aggregate_policy/"));
    proof {
        reveal_strlit("https://docs.timescale.com/api/latest/hyperfunctions/time_bucket/");
    }
    t.insert(function_at("time_bucket", "time_bucket(bucket_width interval, ts timestamp [, origin timestamp]) -> timestamp", "Snap timestamp to the nearest bucket. TimescaleDB.", "SELECT time_bucket('5 minutes', ts), avg(value) FROM metrics GROUP BY 1;", "https://docs.timescale.com/api/latest/hyperfunctions/time_bucket/"));
    proof {
        reveal_strlit("https://docs.timescale.com/api/latest/hyperfunctions/gapfilling/time_bucket_gapfill/");
    }
    t.insert(function_at("time_bucket_gapfill", "time_bucket_gapfill(bucket_width interval, ts timestamp, start timestamp, finish timestamp) -> timestamp", "time_bucket + gap-fill missing buckets in [start, finish] range. TimescaleDB.", "SELECT time_bucket_gapfill('5 minutes', ts, now() - INTERVAL '1 hour', now()), locf(avg(value)) FROM metrics GROUP BY 1;", "https://docs.timescale.com/api/latest/hyperfunctions/gapfilling/time_bucket_gapfill/"));
    proof {
        reveal_strlit("https://docs.timescale.com/api/latest/hypertable/show_chunks/");
    }
    t.insert(function_at("show_chunks", "show_chunks(hypertable regclass [, older_than interval, newer_than interval]) -> setof regclass", "List chunk OIDs of a hypertable.", "SELECT show_chunks('events', older_than => INTERVAL '7 days');", "https://docs.timescale.com/api/latest/hypertable/show_chunks/"));
    proof {
        reveal_strlit("https://docs.timescale.com/api/latest/data_retention/drop_chunks/");
    }
    t.insert(function_at("drop_chunks", "drop_chunks(hypertable regclass, older_than interval) -> setof text", "Drop chunks older than the cutoff. TimescaleDB.", "SELECT drop_chunks('events', INTERVAL '1 year');", "https://docs.timescale.com/api/latest/data_retention/drop_chunks/"));
    proof {
        reveal_strlit("https://docs.timescale.com/api/latest/hyperfunctions/gapfilling/locf/");
    }
    t.insert(function_at("locf", "locf(value anyelement) -> anyelement", "Last-Observation-Carried-Forward fill; pair with time_bucket_gapfill. TimescaleDB.", "SELECT time_bucket_gapfill('5m', ts, ...), locf(avg(value)) FROM metrics GROUP BY 1;", "https://docs.timescale.com/api/latest/hyperfunctions/gapfilling/locf/"));
    proof {
        reveal_strlit("https://docs.timescale.com/api/latest/hyperfunctions/gapfilling/interpolate/");
    }
    t.insert(function_at("interpolate", "interpolate(value anyelement) -> double precision", "Linear interpolation of gap values. TimescaleDB.", "SELECT time_bucket_gapfill('5m', ts, ...), interpolate(avg(value)) FROM metrics GROUP BY 1;", "https://docs.timescale.com/api/latest/hyperfunctions/gapfilling/interpolate/"));
    proof {
        reveal_strlit("https://docs.timescale.com/api/latest/hyperfunctions/first/");
    }
    t.insert(function_at("first", "first(value anyelement, time timestamp) -> anyelement", "Return `value` from the row with the smallest `time`. TimescaleDB.", "SELECT first(metric, ts) FROM events;", "https://docs.timescale.com/api/latest/hyperfunctions/first/"));
    proof {
        reveal_strlit("https://docs.timescale.com/api/latest/hyperfunctions/last/");
    }
    t.insert(function_at("last", "last(value anyelement, time timestamp) -> anyelement", "Return `value` from the row with the largest `time`. TimescaleDB.", "SELECT last(metric, ts) FROM events;", "https://docs.timescale.com/api/latest/hyperfunctions/last/"));
    proof {
        reveal_strlit("https://docs.citusdata.com/en/stable/develop/api_udf.html#create-distributed-table");
    }
    t.insert(function_at("create_distributed_table", "create_distributed_table(table_name regclass, distribution_column text [, distribution_type text, colocate_with text]) -> void", "Shard a table by the chosen column. Citus.", "SELECT create_distributed_table('events', 'user_id');", "https://docs.citusdata.com/en/stable/develop/api_udf.html#create-distributed-table"));
    proof {
        reveal_strlit("https://docs.citusdata.com/en/stable/develop/api_udf.html#create-reference-table");
    }
    t.insert(function_at("create_reference_table", "create_reference_table(table_name regclass) -> void", "Replicate a small reference table to every worker. Citus.", "SELECT create_reference_table('countries');", "https://docs.citusdata.com/en/stable/develop/api_udf.html#create-reference-table"));
    proof {
        reveal_strlit("https://docs.citusdata.com/en/stable/admin_guide/cluster_management.html");
    }
    t.insert(function_at("citus_add_node", "citus_add_node(node_name text, node_port int [, node_group int, ...]) -> int", "Register a new Citus worker.", "SELECT citus_add_node('worker-3', 5432);", "https://docs.citusdata.com/en/stable/admin_guide/cluster_management.html"));
    proof {
        reveal_strlit("https://docs.citusdata.com/en/stable/admin_guide/cluster_management.html");
    }
    t.insert(function_at("citus_remove_node", "citus_remove_node(node_name text, node_port int) -> void", "Deregister a worker. Drains shards first.", "SELECT citus_remove_node('worker-3', 5432);", "https://docs.citusdata.com/en/stable/admin_guide/cluster_management.html"));
    proof {
        reveal_strlit("https://docs.citusdata.com/en/stable/admin_guide/cluster_management.html");
    }
    t.insert(function_at("citus_shards", "citus_shards -- view exposing shard placement / size.", "SELECT * FROM citus_shards ORDER BY shard_size DESC LIMIT 5;", "SELECT * FROM citus_shards LIMIT 5;", "https://docs.citusdata.com/en/stable/admin_guide/cluster_management.html"));
    proof {
        reveal_strlit("https://docs.citusdata.com/en/stable/admin_guide/cluster_management.html");
    }
    t.insert(function_at("citus_rebalance_start", "citus_rebalance_start([rebalance_strategy text, drain_only boolean, shard_transfer_mode text]) -> bigint", "Kick off background rebalance. Citus.", "SELECT citus_rebalance_start();", "https://docs.citusdata.com/en/stable/admin_guide/cluster_management.html"));
    proof {
        reveal_strlit("https://postgresml.org/docs");
    }
    t.insert(function_at("pgml_predict", "pgml.predict(project text, features ...) -> double precision | anyarray", "Run inference using a registered model. PostgresML.", "SELECT pgml.predict('churn_model', user_features) FROM users;", "https://postgresml.org/docs"));
    proof {
        reveal_strlit("https://postgresml.org/docs");
    }
    t.insert(function_at("pgml_embed", "pgml.embed(transformer text, text text [, kwargs jsonb]) -> real[]", "Compute a text embedding using a HuggingFace model. PostgresML.", "SELECT pgml.embed('intfloat/e5-small', 'hello world');", "https://postgresml.org/docs"));
    proof {
        reveal_strlit("https://postgresml.org/docs");
    }
    t.insert(function_at("pgml_chat", "pgml.transform(task jsonb | text, inputs text[]) -> jsonb", "Run a HuggingFace pipeline (chat, summarization, classification). PostgresML.", "SELECT pgml.transform('summarization', ARRAY['<long text>']);", "https://postgresml.org/docs"));
    t.insert(function("bit_xor", "bit_xor(int|bigint|bit) -> same", "Aggregate: bitwise XOR across rows. PG14+.", "SELECT bit_xor(flags) FROM events;", "functions-aggregate.html#FUNCTIONS-AGGREGATE-TABLE"));
    t.insert(function("enum_first", "enum_first(anyenum) -> anyenum", "First label of an enum type. Pass `NULL::<enum_t>` to specify type.", "SELECT enum_first(NULL::mood);", "functions-enum.html"));
    t.insert(function("enum_last", "enum_last(anyenum) -> anyenum", "Last label of an enum type.", "SELECT enum_last(NULL::mood);", "functions-enum.html"));
    t.insert(function("enum_range", "enum_range([from anyenum,] [to anyenum]) -> anyenum[]", "All labels of an enum (with optional inclusive bounds).", "SELECT enum_range('sad'::mood, 'happy'::mood);", "functions-enum.html"));
    t.insert(function("json_array", "JSON_ARRAY(<expr>[, ...]) -> json", "SQL:2023 array constructor (PG16+).", "SELECT JSON_ARRAY(1, 'two', true);", "functions-json.html#FUNCTIONS-SQLJSON-CREATION"));
    t.insert(function("json_object", "JSON_OBJECT(<key>: <val>[, ...] [ABSENT|NULL ON NULL] [UNIQUE]) -> json", "SQL:2023 object constructor (PG16+).", "SELECT JSON_OBJECT('id': 1, 'name': 'a');", "functions-json.html#FUNCTIONS-SQLJSON-CREATION"));
    t.insert(function("json_scalar", "JSON_SCALAR(<expr>) -> json", "SQL:2023 scalar constructor; promotes value to JSON.", "SELECT JSON_SCALAR(42);", "functions-json.html#FUNCTIONS-SQLJSON-CREATION"));
    t.insert(function("json_serialize", "JSON_SERIALIZE(<json> [RETURNING <type>] [PRETTY]) -> text|bytea", "SQL:2023 JSON_SERIALIZE -- render a jsonb back to text.", "SELECT JSON_SERIALIZE('{\"a\":1}'::jsonb RETURNING text PRETTY);", "functions-json.html#FUNCTIONS-SQLJSON-PROCESSING"));
    t.insert(function("jsonb_insert", "jsonb_insert(target jsonb, path text[], new_value jsonb [, insert_after boolean]) -> jsonb", "Insert into nested location at `path`. `insert_after` (default false) controls order around an existing array index.", "SELECT jsonb_insert('[1,2,3]'::jsonb, '{1}', '99'::jsonb, false);", "functions-json.html#FUNCTIONS-JSON-PROCESSING-TABLE"));
    t.insert(function("pg_xact_status", "pg_xact_status(xid8) -> text", "Status of a transaction id: 'in progress' / 'committed' / 'aborted'. PG10+.", "SELECT pg_xact_status(pg_current_xact_id());", "functions-info.html#FUNCTIONS-INFO-SNAPSHOT"));
    t.insert(function("pg_current_xact_id", "pg_current_xact_id() -> xid8", "Current transaction id (8-byte). Assigns one if none yet.", "SELECT pg_current_xact_id();", "functions-info.html#FUNCTIONS-INFO-SNAPSHOT"));
    t.insert(function("pg_log_standby_snapshot", "pg_log_standby_snapshot() -> pg_lsn", "Trigger a standby snapshot WAL record; used to let logical replication slots advance on a quiet system. PG14+.", "SELECT pg_log_standby_snapshot();", "functions-admin.html#FUNCTIONS-ADMIN-SIGNALING"));
    t.insert(function("pg_trigger_depth", "pg_trigger_depth() -> int", "Current nesting depth of trigger invocations (0 outside triggers, 1 inside the outermost).", "SELECT pg_trigger_depth();", "functions-info.html#FUNCTIONS-INFO-SESSION"));
    t.insert(function("pg_log_query_plan", "pg_log_query_plan(pid int) -> boolean", "Ask another backend to log its currently-executing query plan. PG16+.", "SELECT pg_log_query_plan(12345);", "functions-admin.html#FUNCTIONS-ADMIN-SIGNALING"));
    t.insert(function("pg_stat_have_stats", "pg_stat_have_stats(stat_kind text, objoid oid, subobjoid int) -> boolean", "Ask whether a stats entry exists for a given object. PG15+.", "SELECT pg_stat_have_stats('relation', 'users'::regclass::oid, 0);", "monitoring-stats.html#MONITORING-STATS-FUNCTIONS"));
}

fn part_10(t: &mut Table)
    requires
        old(t).wf(),
        old(t).table_kind() == Kind::Function,
    ensures
        final(t).wf(),
        final(t).table_kind() == Kind::Function,
        final(t).contents() == function_part_10(old(t).contents()),
{
    t.insert(function("pg_stat_reset_subscription_stats", "pg_stat_reset_subscription_stats(subid oid) -> void", "Reset cumulative subscription stats counters. PG15+.", "SELECT pg_stat_reset_subscription_stats(NULL); -- all subscriptions", "monitoring-stats.html#MONITORING-STATS-FUNCTIONS"));
    t.insert(function("pg_stat_reset_slru", "pg_stat_reset_slru(target text) -> void", "Reset SLRU cache stats counters (CommitTs, MultiXactMember, ...). PG13+.", "SELECT pg_stat_reset_slru(NULL); -- all SLRUs", "monitoring-stats.html#MONITORING-STATS-FUNCTIONS"));
    t.insert(function("pg_settings_get_flags", "pg_settings_get_flags(guc_name text) -> text[]", "Introspect categorical flags on a GUC (NO_SHOW_ALL, NO_RESET_ALL, NOT_IN_SAMPLE, ...). PG15+.", "SELECT pg_settings_get_flags('work_mem');", "functions-admin.html#FUNCTIONS-ADMIN-SET"));
    t.insert(function("pg_split_walfile_name", "pg_split_walfile_name(name text) -> record", "Decompose a WAL filename into (segment_number, timeline_id). PG17+.", "SELECT * FROM pg_split_walfile_name('000000010000000000000001');", "functions-admin.html#FUNCTIONS-ADMIN-BACKUP-TABLE"));
    t.insert(function("pg_get_acl", "pg_get_acl(classid oid, objid oid, objsubid int) -> aclitem[]", "Return the ACL of any cataloged object as the raw aclitem array. PG17+.", "SELECT pg_get_acl('pg_class'::regclass::oid, 'users'::regclass::oid, 0);", "functions-info.html#FUNCTIONS-INFO-CATALOG"));
    t.insert(function("pg_get_loaded_modules", "pg_get_loaded_modules() -> setof record", "List of currently loaded shared libraries (name, version, modules). PG17+.", "SELECT * FROM pg_get_loaded_modules();", "functions-admin.html#FUNCTIONS-ADMIN-DBOBJECT"));
    t.insert(function("pg_basetype", "pg_basetype(regtype) -> regtype", "Strip domain wrappers and return the underlying base type. PG17+.", "SELECT pg_basetype('positive_int'::regtype);", "functions-info.html#FUNCTIONS-INFO-CATALOG"));
    t.insert(function("pg_input_error_message", "pg_input_error_message(input text, type text) -> text", "Like `pg_input_is_valid` but returns the error text on failure (NULL on success). PG16+.", "SELECT pg_input_error_message('foo', 'int');", "functions-info.html#FUNCTIONS-INFO-VALIDITY"));
    t.insert(function("pg_signal_backend", "pg_signal_backend(pid int, sig text) -> boolean", "Lower-level cousin of `pg_cancel_backend`/`pg_terminate_backend`. Restricted by pg_signal_backend role.", "SELECT pg_signal_backend(12345, 'SIGINT');", "functions-admin.html#FUNCTIONS-ADMIN-SIGNALING"));
    t.insert(function("pg_xlog_replay_pause", "pg_xlog_replay_pause() -> void", "Legacy alias of `pg_wal_replay_pause` (PG9.x). Removed in newer versions; use `pg_wal_replay_pause`.", "SELECT pg_wal_replay_pause();", "functions-admin.html#FUNCTIONS-RECOVERY-CONTROL"));
    t.insert(function("pg_xlogfile_name", "pg_xlogfile_name(lsn pg_lsn) -> text", "Legacy alias of `pg_walfile_name`. Use `pg_walfile_name`.", "SELECT pg_walfile_name(pg_current_wal_lsn());", "functions-admin.html#FUNCTIONS-ADMIN-BACKUP-TABLE"));
    t.insert(function("inet_send", "inet_send(inet) -> bytea", "Type-output (binary) function for `inet`. Internal -- emitted by binary COPY/wire format.", "-- internal", "functions-net.html"));
}

/// What the function table holds: every function entry listed in this file.
pub closed spec fn function_map() -> Map<Seq<char>, EntryV> {
    function_part_10(function_part_9(function_part_8(function_part_7(function_part_6(function_part_5(function_part_4(function_part_3(function_part_2(function_part_1(function_part_0(Map::<Seq<char>, EntryV>::empty())))))))))))
}

spec fn function_part_0(m: Map<Seq<char>, EntryV>) -> Map<Seq<char>, EntryV> {
    m
        .insert("coalesce"@, function_v("coalesce"@, "coalesce(a, b, ...) -> any"@, "Return the first non-null argument."@, "SELECT coalesce(nickname, name, 'anonymous') FROM users;"@, "functions-conditional.html"@))
        .insert("nullif"@, function_v("nullif"@, "nullif(a, b) -> any"@, "Return NULL when a = b, else a."@, "SELECT nullif(value, '') FROM t;"@, "functions-conditional.html"@))
        .insert("greatest"@, function_v("greatest"@, "greatest(a, b, ...) -> any"@, "Largest non-null argument."@, "SELECT greatest(a, b, c) FROM t;"@, "functions-conditional.html"@))
        .insert("least"@, function_v("least"@, "least(a, b, ...) -> any"@, "Smallest non-null argument."@, "SELECT least(a, b, c) FROM t;"@, "functions-conditional.html"@))
        .insert("substring"@, function_v("substring"@, "substring(text FROM start [FOR len]) -> text"@, "Slice a string. 1-based."@, "SELECT substring(email FROM 1 FOR 3) FROM users;"@, "functions-string.html"@))
        .insert("now"@, function_v("now"@, "now() -> timestamptz"@, "Current statement timestamp."@, "INSERT INTO events (at) VALUES (now());"@, "functions-datetime.html#FUNCTIONS-DATETIME-CURRENT"@))
        .insert("chr"@, function_v("chr"@, "chr(int) -> text"@, "Character for a Unicode code point."@, "SELECT chr(65);"@, "functions-string.html"@))
        .insert("exp"@, function_v("exp"@, "exp(numeric) -> numeric"@, "e raised to argument."@, "SELECT exp(1);"@, "functions-math.html"@))
        .insert("ln"@, function_v("ln"@, "ln(numeric) -> numeric"@, "Natural log."@, "SELECT ln(2.718);"@, "functions-math.html"@))
        .insert("pi"@, function_v("pi"@, "pi() -> double"@, "3.14159..."@, "SELECT pi();"@, "functions-math.html"@))
        .insert("sha1"@, function_v("sha1"@, "sha1(bytea) -> bytea"@, "SHA-1 binary (pgcrypto)."@, "SELECT encode(sha1('hi'), 'hex');"@, "pgcrypto.html"@))
        .insert("obj_description"@, function_v("obj_description"@, "obj_description(object_oid [, catalog_name text]) -> text"@, "Comment attached to a database object (table, function, ...)."@, "SELECT obj_description('users'::regclass);"@, "functions-info.html#FUNCTIONS-INFO-COMMENT"@))
        .insert("col_description"@, function_v("col_description"@, "col_description(table_oid, column_number) -> text"@, "Comment on a specific column."@, "SELECT col_description('users'::regclass, 1);"@, "functions-info.html#FUNCTIONS-INFO-COMMENT"@))
        .insert("shobj_description"@, function_v("shobj_description"@, "shobj_description(object_oid, shared_catalog_name text) -> text"@, "Comment on a shared (cluster-wide) object such as a role or database."@, "SELECT shobj_description(d.oid, 'pg_database') FROM pg_database d;"@, "functions-info.html#FUNCTIONS-INFO-COMMENT"@))
        .insert("gen_random_bytes"@, function_v("gen_random_bytes"@, "gen_random_bytes(n int) -> bytea (pgcrypto)"@, "Cryptographically strong random bytes. Requires the pgcrypto extension."@, "SELECT gen_random_bytes(16);"@, "pgcrypto.html"@))
        .insert("normalize"@, function_v("normalize"@, "normalize(text [, form NFC|NFD|NFKC|NFKD]) -> text"@, "Unicode normalization (PG 13+). Default form is NFC."@, "SELECT normalize('café', NFC);"@, "functions-string.html#FUNCTIONS-STRING-OTHER"@))
        .insert("current_user"@, function_v("current_user"@, "current_user -> name"@, "Current SQL session user."@, "SELECT current_user;"@, "functions-info.html"@))
        .insert("session_user"@, function_v("session_user"@, "session_user -> name"@, "Original session user (before SET ROLE)."@, "SELECT session_user;"@, "functions-info.html"@))
        .insert("current_database"@, function_v("current_database"@, "current_database() -> name"@, "Active database name."@, "SELECT current_database();"@, "functions-info.html"@))
        .insert("current_schema"@, function_v("current_schema"@, "current_schema() -> name"@, "First entry in search_path."@, "SELECT current_schema();"@, "functions-info.html"@))
        .insert("version"@, function_v("version"@, "version() -> text"@, "Postgres server version banner."@, "SELECT version();"@, "functions-info.html"@))
        .insert("to_json"@, function_v("to_json"@, "to_json(anyelement) -> json"@, "Same as to_jsonb but produces json (not binary)."@, "SELECT to_json(ARRAY[1,2,3]);"@, "functions-json.html"@))
        .insert("jsonb_array_elements"@, function_v("jsonb_array_elements"@, "jsonb_array_elements(jsonb) -> setof jsonb"@, "Expand a jsonb array to a set of jsonb values."@, "SELECT * FROM jsonb_array_elements('[1,2,3]'::jsonb);"@, "functions-json.html"@))
        .insert("int4multirange"@, function_v("int4multirange"@, "int4multirange(VARIADIC int4range) -> int4multirange"@, "Constructor for int4multirange from explicit int4range pieces (PG 14+)."@, "SELECT int4multirange(int4range(1,4), int4range(10,12));"@, "rangetypes.html#RANGETYPES-BUILTIN"@))
        .insert("strpos"@, function_v("strpos"@, "strpos(haystack text, needle text) -> integer"@, "1-based index of needle in haystack, 0 if not found."@, "SELECT strpos('hello world','world');"@, "functions-string.html"@))
        .insert("trim_array"@, function_v("trim_array"@, "trim_array(anyarray, n int) -> anyarray"@, "Return all but the last n elements."@, "SELECT trim_array(ARRAY[1,2,3,4], 1);"@, "functions-array.html"@))
        .insert("current_time"@, function_v("current_time"@, "current_time [(p int)] -> time with time zone"@, "Current TIME WITH TIME ZONE (optional precision)."@, "SELECT current_time(3);"@, "functions-datetime.html"@))
        .insert("current_timestamp"@, function_v("current_timestamp"@, "current_timestamp [(p int)] -> timestamp with time zone"@, "Current TIMESTAMPTZ (optional precision)."@, "SELECT current_timestamp(0);"@, "functions-datetime.html"@))
        .insert("current_date"@, function_v("current_date"@, "current_date -> date"@, "Current DATE (no parens)."@, "SELECT current_date;"@, "functions-datetime.html"@))
        .insert("md5"@, function_v("md5"@, "md5(text|bytea) -> text"@, "MD5 hash hex digest."@, "SELECT md5('hello');"@, "functions-string.html"@))
        .insert("cbrt"@, function_v("cbrt"@, "cbrt(double) -> double precision"@, "Cube root."@, "SELECT cbrt(27);"@, "functions-math.html"@))
        .insert("gcd"@, function_v("gcd"@, "gcd(int, int) -> integer"@, "Greatest common divisor."@, "SELECT gcd(12, 18);"@, "functions-math.html"@))
        .insert("lcm"@, function_v("lcm"@, "lcm(int, int) -> integer"@, "Least common multiple."@, "SELECT lcm(4, 6);"@, "functions-math.html"@))
        .insert("array_to_json"@, function_v("array_to_json"@, "array_to_json(anyarray [, pretty bool]) -> json"@, "Convert an array to a JSON array."@, "SELECT array_to_json(ARRAY[1,2,3]);"@, "functions-json.html"@))
        .insert("strip"@, function_v("strip"@, "strip(tsvector) -> tsvector"@, "Strip positions/weights from a tsvector."@, "SELECT strip(to_tsvector('hello world'));"@, "functions-textsearch.html"@))
        .insert("sin"@, function_v("sin"@, "sin(double precision) -> double precision"@, "Sine, radians."@, "SELECT sin(0);"@, "functions-math.html"@))
        .insert("setweight"@, function_v("setweight"@, "setweight(tsvector, weight char) -> tsvector"@, "Tag every lexeme with a weight letter (A/B/C/D)."@, "SELECT setweight(to_tsvector('title'), 'A');"@, "textsearch-features.html#TEXTSEARCH-MANIPULATE-TSVECTOR"@))
        .insert("jsonb_array_elements_text"@, function_v("jsonb_array_elements_text"@, "jsonb_array_elements_text(jsonb) -> setof text"@, "Expand jsonb array into rows of text."@, "SELECT * FROM jsonb_array_elements_text('[\"a\",\"b\"]');"@, "functions-json.html"@))
        .insert("json_array_elements_text"@, function_v("json_array_elements_text"@, "json_array_elements_text(json) -> setof text"@, "Expand json array as text rows."@, "SELECT * FROM json_array_elements_text('[\"a\"]');"@, "functions-json.html"@))
        .insert("jsonb_object"@, function_v("jsonb_object"@, "jsonb_object(text[] [, text[]]) -> jsonb"@, "Build a jsonb object from a key array (+ optional value array)."@, "SELECT jsonb_object('{a,b}', '{1,2}');"@, "functions-json.html"@))
        .insert("uuid_generate_v3"@, function_v("uuid_generate_v3"@, "uuid_generate_v3(namespace uuid, name text) -> uuid"@, "Name-based UUID (v3) using MD5."@, "SELECT uuid_generate_v3(uuid_ns_dns(), 'example.com');"@, "uuid-ossp.html"@))
        .insert("uuid_nil"@, function_v("uuid_nil"@, "uuid_nil() -> uuid"@, "All-zero UUID."@, "SELECT uuid_nil();"@, "uuid-ossp.html"@))
        .insert("uuid_ns_dns"@, function_v("uuid_ns_dns"@, "uuid_ns_dns() -> uuid"@, "DNS namespace UUID."@, "SELECT uuid_ns_dns();"@, "uuid-ossp.html"@))
        .insert("uuid_ns_url"@, function_v("uuid_ns_url"@, "uuid_ns_url() -> uuid"@, "URL namespace UUID."@, "SELECT uuid_ns_url();"@, "uuid-ossp.html"@))
        .insert("ceil"@, function_v("ceil"@, "ceil(numeric) -> numeric"@, "Round up to integer."@, "SELECT ceil(3.2);"@, "functions-math.html"@))
        .insert("cast"@, function_v("cast"@, "CAST(expr AS type) -- explicit type conversion. Operator alias: `expr::type`."@, "Convert between types."@, "SELECT CAST('42' AS int);"@, "sql-expressions.html#SQL-SYNTAX-TYPE-CASTS"@))
        .insert("user"@, function_v("user"@, "user -> name"@, "Current SQL role (alias for current_user)."@, "SELECT user;"@, "functions-info.html"@))
        .insert("pg_version"@, function_v("pg_version"@, "version() -> text"@, "Server version string (PG canonical name is `version`)."@, "SELECT version();"@, "functions-info.html"@))
        .insert("localtimestamp"@, function_v("localtimestamp"@, "localtimestamp -> timestamp"@, "Current timestamp WITHOUT time zone, fixed for the transaction."@, "SELECT localtimestamp;"@, "functions-datetime.html"@))
        .insert("localtime"@, function_v("localtime"@, "localtime -> time"@, "Current time of day WITHOUT time zone, fixed for the transaction."@, "SELECT localtime;"@, "functions-datetime.html"@))
        .insert("jsonb_extract_path"@, function_v("jsonb_extract_path"@, "jsonb_extract_path(jsonb, VARIADIC text) -> jsonb"@, "Extract sub-object at the given key path (alias for `#>`)."@, "SELECT jsonb_extract_path(data, 'addr','city') FROM t;"@, "functions-json.html"@))
        .insert("jsonb_extract_path_text"@, function_v("jsonb_extract_path_text"@, "jsonb_extract_path_text(jsonb, VARIADIC text) -> text"@, "Same as jsonb_extract_path, but coerce final value to text (alias for `#>>`)."@, "SELECT jsonb_extract_path_text(data,'addr','city');"@, "functions-json.html"@))
        .insert("json_array_elements"@, function_v("json_array_elements"@, "json_array_elements(json) -> setof json"@, "Expand a JSON array into a set of JSON elements."@, "SELECT * FROM json_array_elements('[1,2,3]'::json);"@, "functions-json.html"@))
        .insert("pow"@, function_v("pow"@, "pow(a numeric, b numeric) -> numeric"@, "Alias for `power(a, b)`."@, "SELECT pow(2, 10);"@, "functions-math.html"@))
        .insert("log10"@, function_v("log10"@, "log10(numeric) -> numeric"@, "Base-10 logarithm. PG canonical: `log(x)` (which is base-10)."@, "SELECT log10(1000);"@, "functions-math.html"@))
        .insert("abbrev"@, function_v("abbrev"@, "abbrev(...) -> ..."@, "Network address function (inet / cidr)."@, "SELECT abbrev(...);"@, "functions-net.html"@))
        .insert("acosd"@, function_v("acosd"@, "acosd(numeric) -> double precision"@, "Trigonometric function operating in degrees."@, "SELECT acosd(...);"@, "functions-math.html"@))
        .insert("acosh"@, function_v("acosh"@, "acosh(double precision) -> double precision"@, "Hyperbolic / inverse-hyperbolic trig."@, "SELECT acosh(...);"@, "functions-math.html"@))
        .insert("asind"@, function_v("asind"@, "asind(numeric) -> double precision"@, "Trigonometric function operating in degrees."@, "SELECT asind(...);"@, "functions-math.html"@))
        .insert("asinh"@, function_v("asinh"@, "asinh(double precision) -> double precision"@, "Hyperbolic / inverse-hyperbolic trig."@, "SELECT asinh(...);"@, "functions-math.html"@))
        .insert("atan2d"@, function_v("atan2d"@, "atan2d(numeric) -> double precision"@, "Trigonometric function operating in degrees."@, "SELECT atan2d(...);"@, "functions-math.html"@))
        .insert("atand"@, function_v("atand"@, "atand(numeric) -> double precision"@, "Trigonometric function operating in degrees."@, "SELECT atand(...);"@, "functions-math.html"@))
        .insert("atanh"@, function_v("atanh"@, "atanh(double precision) -> double precision"@, "Hyperbolic / inverse-hyperbolic trig."@, "SELECT atanh(...);"@, "functions-math.html"@))
        .insert("broadcast"@, function_v("broadcast"@, "broadcast(...) -> ..."@, "Network address function (inet / cidr)."@, "SELECT broadcast(...);"@, "functions-net.html"@))
        .insert("cosd"@, function_v("cosd"@, "cosd(numeric) -> double precision"@, "Trigonometric function operating in degrees."@, "SELECT cosd(...);"@, "functions-math.html"@))
        .insert("cosh"@, function_v("cosh"@, "cosh(double precision) -> double precision"@, "Hyperbolic / inverse-hyperbolic trig."@, "SELECT cosh(...);"@, "functions-math.html"@))
        .insert("factorial"@, function_v("factorial"@, "factorial(bigint) -> numeric"@, "Factorial. Deprecated -- use `numeric_fac()` or `n!` operator."@, "SELECT factorial(10);"@, "functions-math.html"@))
        .insert("family"@, function_v("family"@, "family(...) -> ..."@, "Network address function (inet / cidr)."@, "SELECT family(...);"@, "functions-net.html"@))
        .insert("hostmask"@, function_v("hostmask"@, "hostmask(...) -> ..."@, "Network address function (inet / cidr)."@, "SELECT hostmask(...);"@, "functions-net.html"@))
        .insert("inet_client_addr"@, function_v("inet_client_addr"@, "inet_client_addr(...) -> ..."@, "Network address function (inet / cidr)."@, "SELECT inet_client_addr(...);"@, "functions-net.html"@))
        .insert("inet_merge"@, function_v("inet_merge"@, "inet_merge(...) -> ..."@, "Network address function (inet / cidr)."@, "SELECT inet_merge(...);"@, "functions-net.html"@))
        .insert("inet_same_family"@, function_v("inet_same_family"@, "inet_same_family(...) -> ..."@, "Network address function (inet / cidr)."@, "SELECT inet_same_family(...);"@, "functions-net.html"@))
        .insert("inet_server_addr"@, function_v("inet_server_addr"@, "inet_server_addr(...) -> ..."@, "Network address function (inet / cidr)."@, "SELECT inet_server_addr(...);"@, "functions-net.html"@))
        .insert("masklen"@, function_v("masklen"@, "masklen(...) -> ..."@, "Network address function (inet / cidr)."@, "SELECT masklen(...);"@, "functions-net.html"@))
        .insert("overlaps"@, function_v("overlaps"@, "(t1, t2) OVERLAPS (t3, t4) -> boolean"@, "(start1, end1) OVERLAPS (start2, end2) -- range overlap predicate."@, "SELECT (DATE 2024-01-01, DATE 2024-12-31) OVERLAPS (DATE 2024-06-01, DATE 2025-06-01);"@, "functions-datetime.html"@))
}

spec fn function_part_1(m: Map<Seq<char>, EntryV>) -> Map<Seq<char>, EntryV> {
    m
        .insert("pgp_pub_decrypt"@, function_v("pgp_pub_decrypt"@, "pgp_pub_decrypt(...) -> ..."@, "pgcrypto PGP cipher function -- requires pgcrypto extension."@, "SELECT pgp_pub_decrypt(...);"@, "pgcrypto.html"@))
        .insert("pgp_pub_encrypt"@, function_v("pgp_pub_encrypt"@, "pgp_pub_encrypt(...) -> ..."@, "pgcrypto PGP cipher function -- requires pgcrypto extension."@, "SELECT pgp_pub_encrypt(...);"@, "pgcrypto.html"@))
        .insert("pgp_sym_decrypt"@, function_v("pgp_sym_decrypt"@, "pgp_sym_decrypt(...) -> ..."@, "pgcrypto PGP cipher function -- requires pgcrypto extension."@, "SELECT pgp_sym_decrypt(...);"@, "pgcrypto.html"@))
        .insert("pgp_sym_encrypt"@, function_v("pgp_sym_encrypt"@, "pgp_sym_encrypt(...) -> ..."@, "pgcrypto PGP cipher function -- requires pgcrypto extension."@, "SELECT pgp_sym_encrypt(...);"@, "pgcrypto.html"@))
        .insert("sind"@, function_v("sind"@, "sind(numeric) -> double precision"@, "Trigonometric function operating in degrees."@, "SELECT sind(...);"@, "functions-math.html"@))
        .insert("sinh"@, function_v("sinh"@, "sinh(double precision) -> double precision"@, "Hyperbolic / inverse-hyperbolic trig."@, "SELECT sinh(...);"@, "functions-math.html"@))
        .insert("tand"@, function_v("tand"@, "tand(numeric) -> double precision"@, "Trigonometric function operating in degrees."@, "SELECT tand(...);"@, "functions-math.html"@))
        .insert("tanh"@, function_v("tanh"@, "tanh(double precision) -> double precision"@, "Hyperbolic / inverse-hyperbolic trig."@, "SELECT tanh(...);"@, "functions-math.html"@))
        .insert("text"@, function_v("text"@, "text(inet) -> text"@, "Convert internet address to text representation."@, "SELECT text(...);"@, "functions-formatting.html"@))
        .insert("to_ascii"@, function_v("to_ascii"@, "to_ascii(text [, encoding]) -> text"@, "Transliterate to 7-bit ASCII."@, "SELECT to_ascii(Karel);"@, "functions-string.html"@))
        .insert("xmlagg"@, function_v("xmlagg"@, "xmlagg(xml) -> xml"@, "Aggregate: concatenate per-row XML values into one XML forest (use `ORDER BY` for deterministic order)."@, "SELECT xmlagg(XMLELEMENT(NAME item, name) ORDER BY name) FROM products;"@, "functions-aggregate.html#FUNCTIONS-AGGREGATE-TABLE"@))
        .insert("range_intersect"@, function_v("range_intersect"@, "range_intersect(anyrange, anyrange) -> anyrange"@, "Intersection of two ranges."@, "SELECT int4range(1,10) * int4range(5,15);"@, "rangetypes.html"@))
        .insert("range_union"@, function_v("range_union"@, "range_union(anyrange, anyrange) -> anyrange"@, "Union of two ranges (must overlap or abut)."@, "SELECT int4range(1,5) + int4range(4,10);"@, "rangetypes.html"@))
        .insert("range_minus"@, function_v("range_minus"@, "range_minus(anyrange, anyrange) -> anyrange"@, "Difference of two ranges."@, "SELECT int4range(1,10) - int4range(5,8);"@, "rangetypes.html"@))
        .insert("lower_inf"@, function_v("lower_inf"@, "lower_inf(anyrange) -> boolean"@, "True when the range has no lower bound."@, "SELECT lower_inf('(,5)'::int4range);"@, "rangetypes.html"@))
        .insert("upper_inf"@, function_v("upper_inf"@, "upper_inf(anyrange) -> boolean"@, "True when the range has no upper bound."@, "SELECT upper_inf('[1,)'::int4range);"@, "rangetypes.html"@))
        .insert("pg_notify"@, function_v("pg_notify"@, "pg_notify(channel text, payload text) -> void"@, "Send a NOTIFY without requiring a literal channel name."@, "SELECT pg_notify('chan', 'payload');"@, "functions-admin.html"@))
        .insert("pg_listening_channels"@, function_v("pg_listening_channels"@, "pg_listening_channels() -> setof text"@, "Names of all channels the session is listening on."@, "SELECT pg_listening_channels();"@, "functions-info.html"@))
        .insert("pg_current_xact_id_if_assigned"@, function_v("pg_current_xact_id_if_assigned"@, "pg_current_xact_id_if_assigned() -> xid8"@, "Current xid or NULL (does not assign one)."@, "SELECT pg_current_xact_id_if_assigned();"@, "functions-info.html"@))
        .insert("txid_current"@, function_v("txid_current"@, "txid_current() -> bigint"@, "Deprecated -- use pg_current_xact_id() instead."@, "SELECT txid_current();"@, "functions-info.html"@))
        .insert("pg_export_snapshot"@, function_v("pg_export_snapshot"@, "pg_export_snapshot() -> text"@, "Export the current snapshot id for parallel transactions."@, "SELECT pg_export_snapshot();"@, "functions-admin.html"@))
        .insert("pg_tablespace_size"@, function_v("pg_tablespace_size"@, "pg_tablespace_size(oid|text) -> bigint"@, "Disk space used by a tablespace."@, "SELECT pg_size_pretty(pg_tablespace_size('pg_default'));"@, "functions-admin.html"@))
        .insert("pg_size_bytes"@, function_v("pg_size_bytes"@, "pg_size_bytes(text) -> bigint"@, "Parse a human-readable size string back into bytes."@, "SELECT pg_size_bytes('64 MB');"@, "functions-admin.html"@))
        .insert("pg_column_size"@, function_v("pg_column_size"@, "pg_column_size(any) -> int"@, "Bytes used to store a particular value (incl. TOAST overhead)."@, "SELECT pg_column_size(payload) FROM t;"@, "functions-admin.html"@))
        .insert("pg_relation_filenode"@, function_v("pg_relation_filenode"@, "pg_relation_filenode(regclass) -> oid"@, "On-disk filenode for a relation."@, "SELECT pg_relation_filenode('users');"@, "functions-admin.html"@))
        .insert("pg_blocking_pids"@, function_v("pg_blocking_pids"@, "pg_blocking_pids(pid int) -> int[]"@, "PIDs of sessions whose locks block the given PID."@, "SELECT pid, pg_blocking_pids(pid) FROM pg_stat_activity;"@, "functions-info.html"@))
        .insert("pg_backend_pid"@, function_v("pg_backend_pid"@, "pg_backend_pid() -> int"@, "PID of the server process attached to the current session."@, "SELECT pg_backend_pid();"@, "functions-info.html"@))
        .insert("pg_my_temp_schema"@, function_v("pg_my_temp_schema"@, "pg_my_temp_schema() -> oid"@, "OID of the session's TEMP schema, or 0 if none."@, "SELECT pg_my_temp_schema();"@, "functions-info.html"@))
        .insert("pg_xact_commit_timestamp"@, function_v("pg_xact_commit_timestamp"@, "pg_xact_commit_timestamp(xid) -> timestamptz"@, "Commit time of a transaction (requires track_commit_timestamp)."@, "SELECT pg_xact_commit_timestamp(xmin) FROM t;"@, "functions-info.html"@))
        .insert("pg_last_committed_xact"@, function_v("pg_last_committed_xact"@, "pg_last_committed_xact() -> (xid, timestamptz, repl_origin_oid)"@, "Most recently committed transaction."@, "SELECT * FROM pg_last_committed_xact();"@, "functions-info.html"@))
        .insert("pg_last_xact_replay_timestamp"@, function_v("pg_last_xact_replay_timestamp"@, "pg_last_xact_replay_timestamp() -> timestamptz"@, "Standby: when the last replayed transaction committed on primary."@, "SELECT pg_last_xact_replay_timestamp();"@, "functions-admin.html"@))
        .insert("pg_is_in_recovery"@, function_v("pg_is_in_recovery"@, "pg_is_in_recovery() -> boolean"@, "True when the server is in recovery / standby mode."@, "SELECT pg_is_in_recovery();"@, "functions-admin.html"@))
        .insert("pg_promote"@, function_v("pg_promote"@, "pg_promote(wait boolean, wait_seconds int) -> boolean"@, "Promote a standby to primary."@, "SELECT pg_promote();"@, "functions-admin.html"@))
        .insert("pg_postmaster_start_time"@, function_v("pg_postmaster_start_time"@, "pg_postmaster_start_time() -> timestamptz"@, "When the server started."@, "SELECT pg_postmaster_start_time();"@, "functions-info.html"@))
        .insert("pg_conf_load_time"@, function_v("pg_conf_load_time"@, "pg_conf_load_time() -> timestamptz"@, "When the server last reloaded postgresql.conf."@, "SELECT pg_conf_load_time();"@, "functions-info.html"@))
        .insert("pg_reload_conf"@, function_v("pg_reload_conf"@, "pg_reload_conf() -> boolean"@, "Send SIGHUP so the server reloads its config."@, "SELECT pg_reload_conf();"@, "functions-admin.html"@))
        .insert("pg_rotate_logfile"@, function_v("pg_rotate_logfile"@, "pg_rotate_logfile() -> boolean"@, "Rotate the server's log file."@, "SELECT pg_rotate_logfile();"@, "functions-admin.html"@))
        .insert("pg_get_keywords"@, function_v("pg_get_keywords"@, "pg_get_keywords() -> setof (word, catcode, catdesc)"@, "All known PG keywords + their category."@, "SELECT * FROM pg_get_keywords();"@, "functions-info.html"@))
        .insert("pg_create_logical_replication_slot"@, function_v("pg_create_logical_replication_slot"@, "pg_create_logical_replication_slot(slot_name name, plugin name [, temporary boolean] [, twophase boolean]) -> (slot_name, lsn)"@, "Create a logical replication slot bound to a plugin."@, "SELECT pg_create_logical_replication_slot('s1', 'pgoutput');"@, "functions-admin.html"@))
        .insert("pg_create_physical_replication_slot"@, function_v("pg_create_physical_replication_slot"@, "pg_create_physical_replication_slot(slot_name name [, immediately_reserve boolean] [, temporary boolean]) -> (slot_name, lsn)"@, "Create a physical replication slot."@, "SELECT pg_create_physical_replication_slot('standby1');"@, "functions-admin.html"@))
        .insert("pg_drop_replication_slot"@, function_v("pg_drop_replication_slot"@, "pg_drop_replication_slot(slot_name name) -> void"@, "Drop a replication slot."@, "SELECT pg_drop_replication_slot('s1');"@, "functions-admin.html"@))
        .insert("pg_replication_slot_advance"@, function_v("pg_replication_slot_advance"@, "pg_replication_slot_advance(slot_name name, upto_lsn pg_lsn) -> (slot_name, end_lsn)"@, "Advance a slot's confirmed_flush_lsn."@, "SELECT pg_replication_slot_advance('s1', '0/0');"@, "functions-admin.html"@))
        .insert("pg_logical_slot_get_changes"@, function_v("pg_logical_slot_get_changes"@, "pg_logical_slot_get_changes(slot_name name, upto_lsn pg_lsn, upto_nchanges int, VARIADIC options text[]) -> setof (lsn, xid, data)"@, "Stream decoded changes from a slot."@, "SELECT * FROM pg_logical_slot_get_changes('s1', NULL, NULL);"@, "functions-admin.html"@))
        .insert("pg_logical_emit_message"@, function_v("pg_logical_emit_message"@, "pg_logical_emit_message(transactional boolean, prefix text, content text) -> pg_lsn"@, "Inject a custom message into the WAL stream."@, "SELECT pg_logical_emit_message(true, 'app', 'payload');"@, "functions-admin.html"@))
        .insert("pg_wal_lsn_diff"@, function_v("pg_wal_lsn_diff"@, "pg_wal_lsn_diff(lsn1 pg_lsn, lsn2 pg_lsn) -> numeric"@, "Bytes between two WAL positions."@, "SELECT pg_wal_lsn_diff('0/2', '0/0');"@, "functions-admin.html"@))
        .insert("pg_current_wal_lsn"@, function_v("pg_current_wal_lsn"@, "pg_current_wal_lsn() -> pg_lsn"@, "Current WAL write position (primary only)."@, "SELECT pg_current_wal_lsn();"@, "functions-admin.html"@))
        .insert("pg_current_wal_insert_lsn"@, function_v("pg_current_wal_insert_lsn"@, "pg_current_wal_insert_lsn() -> pg_lsn"@, "Current WAL insertion position."@, "SELECT pg_current_wal_insert_lsn();"@, "functions-admin.html"@))
        .insert("pg_current_wal_flush_lsn"@, function_v("pg_current_wal_flush_lsn"@, "pg_current_wal_flush_lsn() -> pg_lsn"@, "Current WAL flush position."@, "SELECT pg_current_wal_flush_lsn();"@, "functions-admin.html"@))
        .insert("pg_last_wal_receive_lsn"@, function_v("pg_last_wal_receive_lsn"@, "pg_last_wal_receive_lsn() -> pg_lsn"@, "Standby: last WAL position received."@, "SELECT pg_last_wal_receive_lsn();"@, "functions-admin.html"@))
        .insert("pg_last_wal_replay_lsn"@, function_v("pg_last_wal_replay_lsn"@, "pg_last_wal_replay_lsn() -> pg_lsn"@, "Standby: last WAL position replayed."@, "SELECT pg_last_wal_replay_lsn();"@, "functions-admin.html"@))
        .insert("pg_switch_wal"@, function_v("pg_switch_wal"@, "pg_switch_wal() -> pg_lsn"@, "Force a WAL switch -- start a new segment."@, "SELECT pg_switch_wal();"@, "functions-admin.html"@))
        .insert("pg_backup_start"@, function_v("pg_backup_start"@, "pg_backup_start(label text, fast boolean) -> pg_lsn"@, "PG15+: start a non-exclusive base backup."@, "SELECT pg_backup_start('weekly', false);"@, "functions-admin.html"@))
        .insert("pg_backup_stop"@, function_v("pg_backup_stop"@, "pg_backup_stop(wait_for_archive boolean) -> (lsn, labelfile, spcmapfile)"@, "PG15+: stop a base backup, return backup info."@, "SELECT * FROM pg_backup_stop(true);"@, "functions-admin.html"@))
        .insert("pg_walfile_name"@, function_v("pg_walfile_name"@, "pg_walfile_name(lsn pg_lsn) -> text"@, "WAL segment file name containing this LSN."@, "SELECT pg_walfile_name(pg_current_wal_lsn());"@, "functions-admin.html"@))
        .insert("pg_walfile_name_offset"@, function_v("pg_walfile_name_offset"@, "pg_walfile_name_offset(lsn pg_lsn) -> (file_name, file_offset)"@, "WAL segment file name + byte offset for an LSN."@, "SELECT * FROM pg_walfile_name_offset(pg_current_wal_lsn());"@, "functions-admin.html"@))
        .insert("string_to_table"@, function_v("string_to_table"@, "string_to_table(text, delim text [, null_string text]) -> setof text"@, "Like string_to_array but returns a row set."@, "SELECT * FROM string_to_table('a,b,c', ',');"@, "functions-string.html"@))
        .insert("jsonb_set_lax"@, function_v("jsonb_set_lax"@, "jsonb_set_lax(jsonb, path text[], new_value jsonb [, create_missing boolean] [, null_value_treatment text]) -> jsonb"@, "Like jsonb_set but adds 'null_value_treatment' option (PG13+)."@, "SELECT jsonb_set_lax(data, '{x}', 'null'::jsonb, true, 'delete_key');"@, "functions-json.html"@))
        .insert("current_role"@, function_v("current_role"@, "current_role -> name"@, "Same as current_user."@, "SELECT current_role;"@, "functions-info.html"@))
        .insert("current_query"@, function_v("current_query"@, "current_query() -> text"@, "Text of the currently executing query."@, "SELECT current_query();"@, "functions-info.html"@))
        .insert("current_catalog"@, function_v("current_catalog"@, "current_catalog -> name"@, "SQL standard alias for current_database."@, "SELECT current_catalog;"@, "functions-info.html"@))
        .insert("pg_current_logfile"@, function_v("pg_current_logfile"@, "pg_current_logfile([format text]) -> text"@, "Path of the current server log file."@, "SELECT pg_current_logfile();"@, "functions-info.html"@))
        .insert("inet_client_port"@, function_v("inet_client_port"@, "inet_client_port() -> int"@, "Client port; NULL when over Unix socket."@, "SELECT inet_client_port();"@, "functions-info.html"@))
        .insert("inet_server_port"@, function_v("inet_server_port"@, "inet_server_port() -> int"@, "Server port the connection landed on."@, "SELECT inet_server_port();"@, "functions-info.html"@))
        .insert("has_table_privilege"@, function_v("has_table_privilege"@, "has_table_privilege([user,] table, privilege text) -> boolean"@, "Does the role have the privilege on the table?"@, "SELECT has_table_privilege('alice', 'users', 'SELECT');"@, "functions-info.html"@))
        .insert("has_schema_privilege"@, function_v("has_schema_privilege"@, "has_schema_privilege([user,] schema, privilege text) -> boolean"@, "Schema-level privilege check."@, "SELECT has_schema_privilege('public', 'USAGE');"@, "functions-info.html"@))
        .insert("has_database_privilege"@, function_v("has_database_privilege"@, "has_database_privilege([user,] database, privilege text) -> boolean"@, "Database-level privilege check."@, "SELECT has_database_privilege(current_user, current_database(), 'CONNECT');"@, "functions-info.html"@))
        .insert("has_column_privilege"@, function_v("has_column_privilege"@, "has_column_privilege([user,] table, column, privilege text) -> boolean"@, "Column-level privilege check."@, "SELECT has_column_privilege('alice', 'users', 'email', 'UPDATE');"@, "functions-info.html"@))
        .insert("has_function_privilege"@, function_v("has_function_privilege"@, "has_function_privilege([user,] function, privilege text) -> boolean"@, "Function execution privilege."@, "SELECT has_function_privilege('alice', 'now()', 'EXECUTE');"@, "functions-info.html"@))
        .insert("has_any_column_privilege"@, function_v("has_any_column_privilege"@, "has_any_column_privilege([user,] table, privilege text) -> boolean"@, "Does the role have privilege on ANY column?"@, "SELECT has_any_column_privilege('alice', 'users', 'SELECT');"@, "functions-info.html"@))
        .insert("has_sequence_privilege"@, function_v("has_sequence_privilege"@, "has_sequence_privilege([user,] sequence, privilege text) -> boolean"@, "Sequence privilege check."@, "SELECT has_sequence_privilege('s', 'USAGE');"@, "functions-info.html"@))
        .insert("has_tablespace_privilege"@, function_v("has_tablespace_privilege"@, "has_tablespace_privilege([user,] tablespace, privilege text) -> boolean"@, "Tablespace privilege check."@, "SELECT has_tablespace_privilege('pg_default', 'CREATE');"@, "functions-info.html"@))
        .insert("has_foreign_data_wrapper_privilege"@, function_v("has_foreign_data_wrapper_privilege"@, "has_foreign_data_wrapper_privilege([user,] fdw, privilege text) -> boolean"@, "FDW privilege check."@, "SELECT has_foreign_data_wrapper_privilege('postgres_fdw', 'USAGE');"@, "functions-info.html"@))
        .insert("has_language_privilege"@, function_v("has_language_privilege"@, "has_language_privilege([user,] lang, privilege text) -> boolean"@, "Procedural language privilege."@, "SELECT has_language_privilege('plpgsql', 'USAGE');"@, "functions-info.html"@))
        .insert("has_server_privilege"@, function_v("has_server_privilege"@, "has_server_privilege([user,] server, privilege text) -> boolean"@, "Foreign server privilege check."@, "SELECT has_server_privilege('srv1', 'USAGE');"@, "functions-info.html"@))
        .insert("has_type_privilege"@, function_v("has_type_privilege"@, "has_type_privilege([user,] type, privilege text) -> boolean"@, "Type privilege check."@, "SELECT has_type_privilege('point', 'USAGE');"@, "functions-info.html"@))
}

spec fn function_part_2(m: Map<Seq<char>, EntryV>) -> Map<Seq<char>, EntryV> {
    m
        .insert("pg_has_role"@, function_v("pg_has_role"@, "pg_has_role([user,] role, privilege text) -> boolean"@, "Is `user` a member of `role` with the requested membership?"@, "SELECT pg_has_role('alice', 'admins', 'MEMBER');"@, "functions-info.html"@))
        .insert("row_security_active"@, function_v("row_security_active"@, "row_security_active(table) -> boolean"@, "True when RLS would be enforced on the table for the current role."@, "SELECT row_security_active('users');"@, "functions-info.html"@))
        .insert("pg_get_partkeydef"@, function_v("pg_get_partkeydef"@, "pg_get_partkeydef(regclass) -> text"@, "Definition of the PARTITION BY key for a partitioned table."@, "SELECT pg_get_partkeydef('orders');"@, "functions-info.html"@))
        .insert("pg_get_publication_tables"@, function_v("pg_get_publication_tables"@, "pg_get_publication_tables(pubname text) -> setof oid"@, "OIDs of tables included in a publication."@, "SELECT * FROM pg_get_publication_tables('pub1');"@, "functions-info.html"@))
        .insert("pg_relation_is_publishable"@, function_v("pg_relation_is_publishable"@, "pg_relation_is_publishable(regclass) -> boolean"@, "True if the relation can be added to a publication."@, "SELECT pg_relation_is_publishable('users');"@, "functions-info.html"@))
        .insert("pg_get_replica_identity_index"@, function_v("pg_get_replica_identity_index"@, "pg_get_replica_identity_index(regclass) -> regclass"@, "Index used as REPLICA IDENTITY for the table, or NULL."@, "SELECT pg_get_replica_identity_index('users');"@, "functions-info.html"@))
        .insert("pg_get_object_address"@, function_v("pg_get_object_address"@, "pg_get_object_address(type text, name text[], args text[]) -> (classid, objid, objsubid)"@, "Canonical address record for an object."@, "SELECT * FROM pg_get_object_address('table', '{public,users}', '{}');"@, "functions-info.html"@))
        .insert("pg_identify_object"@, function_v("pg_identify_object"@, "pg_identify_object(classid oid, objid oid, objsubid int) -> (type, schema, name, identity)"@, "Identify an object by its catalog address."@, "SELECT * FROM pg_identify_object('pg_class'::regclass, 'users'::regclass, 0);"@, "functions-info.html"@))
        .insert("pg_identify_object_as_address"@, function_v("pg_identify_object_as_address"@, "pg_identify_object_as_address(classid oid, objid oid, objsubid int) -> (type text, object_names text[], object_args text[])"@, "Identify an object as a usable address."@, "SELECT * FROM pg_identify_object_as_address('pg_class'::regclass, 'users'::regclass, 0);"@, "functions-info.html"@))
        .insert("pg_describe_object"@, function_v("pg_describe_object"@, "pg_describe_object(classid oid, objid oid, objsubid int) -> text"@, "Human-readable description of an object."@, "SELECT pg_describe_object('pg_class'::regclass, 'users'::regclass, 0);"@, "functions-info.html"@))
        .insert("pg_locks"@, function_v("pg_locks"@, "pg_locks -> view"@, "View exposing every active lock; useful for blocking diagnostics."@, "SELECT * FROM pg_locks WHERE granted = false;"@, "view-pg-locks.html"@))
        .insert("pg_stat_get_backend_idset"@, function_v("pg_stat_get_backend_idset"@, "pg_stat_get_backend_idset() -> setof int"@, "Internal: enumerate backend ids for pg_stat_get_backend_*."@, "SELECT pg_stat_get_backend_idset();"@, "monitoring-stats.html"@))
        .insert("pg_get_ruledef"@, function_v("pg_get_ruledef"@, "pg_get_ruledef(rule_oid oid [, pretty boolean]) -> text"@, "Reconstruct a CREATE RULE statement."@, "SELECT pg_get_ruledef(oid) FROM pg_rewrite;"@, "functions-info.html"@))
        .insert("pg_get_function_identity_arguments"@, function_v("pg_get_function_identity_arguments"@, "pg_get_function_identity_arguments(funcid oid) -> text"@, "Function arg signature used in DROP/COMMENT/etc statements."@, "SELECT pg_get_function_identity_arguments(oid) FROM pg_proc;"@, "functions-info.html"@))
        .insert("regexp_instr"@, function_v("regexp_instr"@, "regexp_instr(string text, pattern text [, position int] [, occurrence int] [, return_opt int] [, flags text]) -> int"@, "Position of a regexp match (PG15+)."@, "SELECT regexp_instr('foo123bar', '[0-9]+');"@, "functions-matching.html"@))
        .insert("regexp_like"@, function_v("regexp_like"@, "regexp_like(string text, pattern text [, flags text]) -> boolean"@, "Boolean regexp match (PG15+)."@, "WHERE regexp_like(email, '^.+@.+\\..+$', 'i')"@, "functions-matching.html"@))
        .insert("similar_to_escape"@, function_v("similar_to_escape"@, "similar_to_escape(pattern text [, escape text]) -> text"@, "Convert a SIMILAR TO pattern to a regular expression."@, "SELECT similar_to_escape('he%lo', '#');"@, "functions-matching.html"@))
        .insert("unistr"@, function_v("unistr"@, "unistr(text [, escape text]) -> text"@, "Decode Unicode escape sequences in a string (PG16+)."@, "SELECT unistr('\\u0041\\u0042');"@, "functions-string.html"@))
        .insert("date_add"@, function_v("date_add"@, "date_add(timestamptz, interval [, timezone text]) -> timestamptz"@, "Add an interval to a timestamptz with zone-aware semantics (PG16+)."@, "SELECT date_add(now(), interval '1 month', 'UTC');"@, "functions-datetime.html"@))
        .insert("date_subtract"@, function_v("date_subtract"@, "date_subtract(timestamptz, interval [, timezone text]) -> timestamptz"@, "Subtract an interval from a timestamptz with zone-aware semantics (PG16+)."@, "SELECT date_subtract(now(), interval '1 month', 'UTC');"@, "functions-datetime.html"@))
        .insert("interval_eq"@, function_v("interval_eq"@, "interval_eq(a interval, b interval) -> boolean"@, "Internal comparison: a = b. Use the `=` operator instead in user code."@, "SELECT interval_eq('1 day', '24 hours');"@, "functions-datetime.html"@))
        .insert("jsonb_to_record"@, function_v("jsonb_to_record"@, "jsonb_to_record(jsonb) -> record"@, "Cast a jsonb object into a record. Used in `AS (col type, ...)` syntax."@, "SELECT * FROM jsonb_to_record(payload) AS x(id int, name text);"@, "functions-json.html"@))
        .insert("json_to_record"@, function_v("json_to_record"@, "json_to_record(json) -> record"@, "Cast a json object into a record. Used in `AS (col type, ...)` syntax."@, "SELECT * FROM json_to_record(my_json) AS x(id int);"@, "functions-json.html"@))
        .insert("jsonb_to_recordset"@, function_v("jsonb_to_recordset"@, "jsonb_to_recordset(jsonb) -> setof record"@, "Cast a jsonb array of objects into a row set."@, "SELECT * FROM jsonb_to_recordset(payload) AS x(id int, name text);"@, "functions-json.html"@))
        .insert("json_to_recordset"@, function_v("json_to_recordset"@, "json_to_recordset(json) -> setof record"@, "Cast a json array of objects into a row set."@, "SELECT * FROM json_to_recordset(my_json) AS x(id int);"@, "functions-json.html"@))
        .insert("jsonb_populate_record"@, function_v("jsonb_populate_record"@, "jsonb_populate_record(base anyelement, jsonb) -> anyelement"@, "Cast jsonb into a row type; base is a row prototype."@, "SELECT (jsonb_populate_record(NULL::users, payload)).*;"@, "functions-json.html"@))
        .insert("json_populate_record"@, function_v("json_populate_record"@, "json_populate_record(base anyelement, json) -> anyelement"@, "Cast json into a row type; base is a row prototype."@, "SELECT (json_populate_record(NULL::users, my_json)).*;"@, "functions-json.html"@))
        .insert("jsonb_populate_recordset"@, function_v("jsonb_populate_recordset"@, "jsonb_populate_recordset(base anyelement, jsonb) -> setof anyelement"@, "Cast jsonb array of objects into a row set of `base`."@, "SELECT * FROM jsonb_populate_recordset(NULL::users, payload);"@, "functions-json.html"@))
        .insert("jsonb_concat"@, function_v("jsonb_concat"@, "jsonb_concat(jsonb, jsonb) -> jsonb"@, "Internal name for the `||` operator on jsonb. Prefer the operator."@, "SELECT a || b;"@, "functions-json.html"@))
        .insert("jsonb_delete_path"@, function_v("jsonb_delete_path"@, "jsonb_delete_path(jsonb, path text[]) -> jsonb"@, "Internal name for the `#-` operator. Prefer the operator."@, "SELECT data #- '{addr,city}'::text[];"@, "functions-json.html"@))
        .insert("json_array_element"@, function_v("json_array_element"@, "json_array_element(json, int) -> json"@, "Internal name for `json -> int`. Use the operator."@, "SELECT my_json -> 0;"@, "functions-json.html"@))
        .insert("json_array_element_text"@, function_v("json_array_element_text"@, "json_array_element_text(json, int) -> text"@, "Internal name for `json ->> int`. Use the operator."@, "SELECT my_json ->> 0;"@, "functions-json.html"@))
        .insert("jsonb_array_element"@, function_v("jsonb_array_element"@, "jsonb_array_element(jsonb, int) -> jsonb"@, "Internal name for `jsonb -> int`. Use the operator."@, "SELECT data -> 0;"@, "functions-json.html"@))
        .insert("jsonb_array_element_text"@, function_v("jsonb_array_element_text"@, "jsonb_array_element_text(jsonb, int) -> text"@, "Internal name for `jsonb ->> int`. Use the operator."@, "SELECT data ->> 0;"@, "functions-json.html"@))
        .insert("json_object_field"@, function_v("json_object_field"@, "json_object_field(json, text) -> json"@, "Internal name for `json -> text`. Use the operator."@, "SELECT my_json -> 'addr';"@, "functions-json.html"@))
        .insert("json_object_field_text"@, function_v("json_object_field_text"@, "json_object_field_text(json, text) -> text"@, "Internal name for `json ->> text`. Use the operator."@, "SELECT my_json ->> 'name';"@, "functions-json.html"@))
        .insert("jsonb_object_field"@, function_v("jsonb_object_field"@, "jsonb_object_field(jsonb, text) -> jsonb"@, "Internal name for `jsonb -> text`. Use the operator."@, "SELECT data -> 'addr';"@, "functions-json.html"@))
        .insert("jsonb_object_field_text"@, function_v("jsonb_object_field_text"@, "jsonb_object_field_text(jsonb, text) -> text"@, "Internal name for `jsonb ->> text`. Use the operator."@, "SELECT data ->> 'name';"@, "functions-json.html"@))
        .insert("query_to_xml"@, function_v("query_to_xml"@, "query_to_xml(query text, nulls boolean, tableforest boolean, targetns text) -> xml"@, "Map a query result into XML."@, "SELECT query_to_xml('SELECT 1 AS a', true, false, '');"@, "functions-xml.html"@))
        .insert("schema_to_xml"@, function_v("schema_to_xml"@, "schema_to_xml(schema name, nulls boolean, tableforest boolean, targetns text) -> xml"@, "Map every table in a schema into XML."@, "SELECT schema_to_xml('public', true, false, '');"@, "functions-xml.html"@))
        .insert("table_to_xml"@, function_v("table_to_xml"@, "table_to_xml(tbl regclass, nulls boolean, tableforest boolean, targetns text) -> xml"@, "Map a table into XML."@, "SELECT table_to_xml('users', true, false, '');"@, "functions-xml.html"@))
        .insert("cursor_to_xml"@, function_v("cursor_to_xml"@, "cursor_to_xml(cursor refcursor, count int, nulls boolean, tableforest boolean, targetns text) -> xml"@, "Drain a cursor into XML."@, "SELECT cursor_to_xml('c1', 100, true, false, '');"@, "functions-xml.html"@))
        .insert("database_to_xml"@, function_v("database_to_xml"@, "database_to_xml(nulls boolean, tableforest boolean, targetns text) -> xml"@, "Whole-database XML dump."@, "SELECT database_to_xml(true, false, '');"@, "functions-xml.html"@))
        .insert("xpath"@, function_v("xpath"@, "xpath(xpath text, xml xml [, nsarray text[]]) -> xml[]"@, "Apply an XPath expression to an XML document."@, "SELECT xpath('//book/title', payload);"@, "functions-xml.html"@))
        .insert("xpath_exists"@, function_v("xpath_exists"@, "xpath_exists(xpath text, xml xml [, nsarray text[]]) -> boolean"@, "True when XPath matches anything in the document."@, "WHERE xpath_exists('//flag', payload)"@, "functions-xml.html"@))
        .insert("xmltable"@, function_v("xmltable"@, "XMLTABLE(<xpath> PASSING <doc> COLUMNS (...) ) -> setof record"@, "Project XML into rows (SQL/XML)."@, "SELECT * FROM XMLTABLE('/r/it' PASSING xmldoc COLUMNS id int PATH '@id');"@, "functions-xml.html"@))
        .insert("xmlcomment"@, function_v("xmlcomment"@, "xmlcomment(text) -> xml"@, "Wrap text in <!-- ... -->."@, "SELECT xmlcomment('section');"@, "functions-xml.html"@))
        .insert("xmlconcat"@, function_v("xmlconcat"@, "xmlconcat(xml[]) -> xml"@, "Concatenate XML fragments."@, "SELECT xmlconcat(a, b);"@, "functions-xml.html"@))
        .insert("xmlelement"@, function_v("xmlelement"@, "XMLELEMENT(NAME name [, XMLATTRIBUTES (...)], <content>) -> xml"@, "Build an XML element from SQL."@, "SELECT xmlelement(name 'r', xmlattributes('1' as id), 'body');"@, "functions-xml.html"@))
        .insert("xmlexists"@, function_v("xmlexists"@, "xmlexists(xpath text PASSING xml [, ns]) -> boolean"@, "XPath existence test."@, "WHERE xmlexists('/x' PASSING xmldoc)"@, "functions-xml.html"@))
        .insert("xmlforest"@, function_v("xmlforest"@, "xmlforest(<expr> AS <name>[, ...]) -> xml"@, "Build a sequence of XML elements."@, "SELECT xmlforest(id AS pk, name);"@, "functions-xml.html"@))
        .insert("xmlroot"@, function_v("xmlroot"@, "xmlroot(xml, VERSION ver text [, STANDALONE yn]) -> xml"@, "Replace or set the XML root declaration."@, "SELECT xmlroot(payload, VERSION '1.0', STANDALONE YES);"@, "functions-xml.html"@))
        .insert("xmlserialize"@, function_v("xmlserialize"@, "XMLSERIALIZE({DOCUMENT|CONTENT} <xml> AS <text_type>) -> text"@, "Serialise XML into TEXT/VARCHAR/CHARACTER."@, "SELECT xmlserialize(document payload as text);"@, "functions-xml.html"@))
        .insert("xmlpi"@, function_v("xmlpi"@, "xmlpi(NAME name [, content text]) -> xml"@, "Build a processing instruction."@, "SELECT xmlpi(name 'xml-stylesheet', 'href=...');"@, "functions-xml.html"@))
        .insert("xmltext"@, function_v("xmltext"@, "xmltext(text) -> xml"@, "Wrap a text value as XML text node."@, "SELECT xmltext('hello');"@, "functions-xml.html"@))
        .insert("range_contains"@, function_v("range_contains"@, "range_contains(anyrange, anyrange) -> boolean"@, "Internal name for the `@>` operator on ranges."@, "SELECT '[1,10)'::int4range @> '[3,5)'::int4range;"@, "rangetypes.html"@))
        .insert("range_overlaps"@, function_v("range_overlaps"@, "range_overlaps(anyrange, anyrange) -> boolean"@, "Internal name for the `&&` operator on ranges."@, "SELECT '[1,10)'::int4range && '[5,15)'::int4range;"@, "rangetypes.html"@))
        .insert("range_eq"@, function_v("range_eq"@, "range_eq(anyrange, anyrange) -> boolean"@, "Internal name for `=` on ranges."@, "SELECT a = b FROM t;"@, "rangetypes.html"@))
        .insert("range_lt"@, function_v("range_lt"@, "range_lt(anyrange, anyrange) -> boolean"@, "Internal name for `<` on ranges."@, "SELECT a < b FROM t;"@, "rangetypes.html"@))
        .insert("range_le"@, function_v("range_le"@, "range_le(anyrange, anyrange) -> boolean"@, "Internal name for `<=` on ranges."@, "SELECT a <= b FROM t;"@, "rangetypes.html"@))
        .insert("range_gt"@, function_v("range_gt"@, "range_gt(anyrange, anyrange) -> boolean"@, "Internal name for `>` on ranges."@, "SELECT a > b FROM t;"@, "rangetypes.html"@))
        .insert("range_ge"@, function_v("range_ge"@, "range_ge(anyrange, anyrange) -> boolean"@, "Internal name for `>=` on ranges."@, "SELECT a >= b FROM t;"@, "rangetypes.html"@))
        .insert("range_after"@, function_v("range_after"@, "range_after(anyrange, anyrange) -> boolean"@, "Internal name for the `>>` operator -- strictly after."@, "SELECT a >> b FROM t;"@, "rangetypes.html"@))
        .insert("range_before"@, function_v("range_before"@, "range_before(anyrange, anyrange) -> boolean"@, "Internal name for the `<<` operator -- strictly before."@, "SELECT a << b FROM t;"@, "rangetypes.html"@))
        .insert("range_adjacent"@, function_v("range_adjacent"@, "range_adjacent(anyrange, anyrange) -> boolean"@, "Internal name for the `-|-` operator -- adjacent ranges."@, "SELECT a -|- b FROM t;"@, "rangetypes.html"@))
        .insert("unnest_multirange"@, function_v("unnest_multirange"@, "unnest(anymultirange) -> setof anyrange"@, "Expand a multirange into its constituent ranges. Alias of `unnest`."@, "SELECT * FROM unnest('{[1,5), [10,15)}'::int4multirange);"@, "rangetypes.html"@))
        .insert("ts_filter"@, function_v("ts_filter"@, "ts_filter(tsvector, char[]) -> tsvector"@, "Keep only lexemes with the given weights."@, "SELECT ts_filter(to_tsvector('a b c'), '{A,B}');"@, "textsearch-functions.html"@))
        .insert("ts_delete"@, function_v("ts_delete"@, "ts_delete(tsvector, text|text[]) -> tsvector"@, "Remove lexemes from a tsvector."@, "SELECT ts_delete(vec, 'noise');"@, "textsearch-functions.html"@))
        .insert("ts_rewrite"@, function_v("ts_rewrite"@, "ts_rewrite(query tsquery, target tsquery, substitute tsquery) -> tsquery"@, "Rewrite occurrences of `target` in `query` with `substitute`."@, "SELECT ts_rewrite('cat'::tsquery, 'cat'::tsquery, 'feline'::tsquery);"@, "textsearch-functions.html"@))
        .insert("area"@, function_v("area"@, "area(box|polygon|circle) -> double precision"@, "Area of a geometric object."@, "SELECT area(box '(0,0),(1,1)');"@, "functions-geometry.html"@))
        .insert("diameter"@, function_v("diameter"@, "diameter(circle) -> double precision"@, "Diameter of a circle."@, "SELECT diameter(circle '<(0,0),5>');"@, "functions-geometry.html"@))
        .insert("height"@, function_v("height"@, "height(box) -> double precision"@, "Vertical span of a box."@, "SELECT height(box '(0,0),(3,4)');"@, "functions-geometry.html"@))
        .insert("width"@, function_v("width"@, "width(box) -> double precision"@, "Horizontal span of a box."@, "SELECT width(box '(0,0),(3,4)');"@, "functions-geometry.html"@))
        .insert("slope"@, function_v("slope"@, "slope(point, point) -> double precision"@, "Slope of the line through two points."@, "SELECT slope(point '(0,0)', point '(1,1)');"@, "functions-geometry.html"@))
        .insert("center"@, function_v("center"@, "center(box|circle) -> point"@, "Centroid of a geometric object."@, "SELECT center(box '(0,0),(2,2)');"@, "functions-geometry.html"@))
}

spec fn function_part_3(m: Map<Seq<char>, EntryV>) -> Map<Seq<char>, EntryV> {
    m
        .insert("distance"@, function_v("distance"@, "<obj> <-> <obj> -- distance operator alias."@, "Distance between two geometric objects."@, "SELECT point '(0,0)' <-> point '(3,4)';"@, "functions-geometry.html"@))
        .insert("isclosed"@, function_v("isclosed"@, "isclosed(path) -> boolean"@, "True when the path is closed."@, "SELECT isclosed(path '((0,0),(1,1))');"@, "functions-geometry.html"@))
        .insert("isopen"@, function_v("isopen"@, "isopen(path) -> boolean"@, "True when the path is open."@, "SELECT isopen(path '[(0,0),(1,1)]');"@, "functions-geometry.html"@))
        .insert("npoints"@, function_v("npoints"@, "npoints(path|polygon) -> int"@, "Number of vertices in a path or polygon."@, "SELECT npoints(polygon '((0,0),(1,0),(1,1))');"@, "functions-geometry.html"@))
        .insert("pclose"@, function_v("pclose"@, "pclose(path) -> path"@, "Convert a path to a closed path."@, "SELECT pclose(path '[(0,0),(1,1)]');"@, "functions-geometry.html"@))
        .insert("popen"@, function_v("popen"@, "popen(path) -> path"@, "Convert a path to an open path."@, "SELECT popen(path '((0,0),(1,1))');"@, "functions-geometry.html"@))
        .insert("radius"@, function_v("radius"@, "radius(circle) -> double precision"@, "Radius of a circle."@, "SELECT radius(circle '<(0,0),5>');"@, "functions-geometry.html"@))
        .insert("age"@, function_v("age"@, "age(timestamp [, timestamp]) -> interval"@, "Time elapsed between two timestamps (defaults to now()::date if second arg omitted)."@, "SELECT age(now(), birth) FROM users;"@, "functions-datetime.html#FUNCTIONS-DATETIME-CURRENT"@))
        .insert("date_part"@, function_v("date_part"@, "date_part(text, timestamp|interval) -> double precision"@, "Extract sub-field. SQL-standard form: `EXTRACT(<field> FROM ...)`."@, "SELECT date_part('year', now());"@, "functions-datetime.html#FUNCTIONS-DATETIME-EXTRACT"@))
        .insert("date_trunc"@, function_v("date_trunc"@, "date_trunc(text, timestamp [, text]) -> timestamp"@, "Round timestamp down to a unit (hour/day/week/month/year/...). Optional third arg = time zone."@, "SELECT date_trunc('day', now()), date_trunc('day', now(), 'UTC');"@, "functions-datetime.html#FUNCTIONS-DATETIME-TRUNC"@))
        .insert("to_char"@, function_v("to_char"@, "to_char(value, format) -> text"@, "Format a number/date/timestamp/interval to text using a pattern (`YYYY-MM-DD`, `FM999.99`, etc)."@, "SELECT to_char(now(), 'YYYY-MM-DD HH24:MI:SS');"@, "functions-formatting.html"@))
        .insert("to_date"@, function_v("to_date"@, "to_date(text, text) -> date"@, "Parse text to date using a pattern."@, "SELECT to_date('2026-05-30', 'YYYY-MM-DD');"@, "functions-formatting.html"@))
        .insert("to_number"@, function_v("to_number"@, "to_number(text, text) -> numeric"@, "Parse text to numeric using a pattern."@, "SELECT to_number('$1,234.50', 'L9,999.99');"@, "functions-formatting.html"@))
        .insert("to_timestamp"@, function_v("to_timestamp"@, "to_timestamp(text, text) -> timestamptz | to_timestamp(double) -> timestamptz"@, "Two forms: pattern-parse text, or convert Unix epoch seconds to timestamptz."@, "SELECT to_timestamp('2026-05-30','YYYY-MM-DD'), to_timestamp(1717000000);"@, "functions-formatting.html"@))
        .insert("justify_days"@, function_v("justify_days"@, "justify_days(interval) -> interval"@, "Roll 30-day blocks into months."@, "SELECT justify_days(interval '90 days');"@, "functions-datetime.html"@))
        .insert("justify_hours"@, function_v("justify_hours"@, "justify_hours(interval) -> interval"@, "Roll 24-hour blocks into days."@, "SELECT justify_hours(interval '49 hours');"@, "functions-datetime.html"@))
        .insert("justify_interval"@, function_v("justify_interval"@, "justify_interval(interval) -> interval"@, "Apply both day and hour justifications."@, "SELECT justify_interval(interval '1 month 100 days 2 hours');"@, "functions-datetime.html"@))
        .insert("make_date"@, function_v("make_date"@, "make_date(year int, month int, day int) -> date"@, "Build a date from components."@, "SELECT make_date(2026, 5, 30);"@, "functions-datetime.html"@))
        .insert("make_time"@, function_v("make_time"@, "make_time(hour int, min int, sec double precision) -> time"@, "Build a time-of-day from components."@, "SELECT make_time(14, 30, 0);"@, "functions-datetime.html"@))
        .insert("make_timestamp"@, function_v("make_timestamp"@, "make_timestamp(year, month, day, hour, min, sec) -> timestamp"@, "Build a timestamp (no zone) from components."@, "SELECT make_timestamp(2026, 5, 30, 14, 30, 0);"@, "functions-datetime.html"@))
        .insert("make_timestamptz"@, function_v("make_timestamptz"@, "make_timestamptz(year, month, day, hour, min, sec [, tz]) -> timestamptz"@, "Build a timestamptz from components; optional time zone."@, "SELECT make_timestamptz(2026, 5, 30, 14, 30, 0, 'UTC');"@, "functions-datetime.html"@))
        .insert("make_interval"@, function_v("make_interval"@, "make_interval([years=][, months=][, weeks=][, days=][, hours=][, mins=][, secs=]) -> interval"@, "Build an interval from named components."@, "SELECT make_interval(days => 7, hours => 12);"@, "functions-datetime.html"@))
        .insert("to_regclass"@, function_v("to_regclass"@, "to_regclass(text) -> regclass"@, "Look up table OID by name. Returns NULL when not found (vs `::regclass` which errors)."@, "SELECT to_regclass('public.users') IS NOT NULL;"@, "functions-info.html#FUNCTIONS-INFO-CATALOG"@))
        .insert("to_regtype"@, function_v("to_regtype"@, "to_regtype(text) -> regtype"@, "Look up type OID by name; NULL when missing."@, "SELECT to_regtype('int4') IS NOT NULL;"@, "functions-info.html#FUNCTIONS-INFO-CATALOG"@))
        .insert("to_regproc"@, function_v("to_regproc"@, "to_regproc(text) -> regproc"@, "Look up function OID by simple name; NULL when missing."@, "SELECT to_regproc('now') IS NOT NULL;"@, "functions-info.html#FUNCTIONS-INFO-CATALOG"@))
        .insert("to_regprocedure"@, function_v("to_regprocedure"@, "to_regprocedure(text) -> regprocedure"@, "Look up function OID by signature `name(arg_types)`; NULL when missing."@, "SELECT to_regprocedure('pg_size_pretty(bigint)') IS NOT NULL;"@, "functions-info.html#FUNCTIONS-INFO-CATALOG"@))
        .insert("jsonb_set"@, function_v("jsonb_set"@, "jsonb_set(target jsonb, path text[], new_value jsonb [, create_missing boolean]) -> jsonb"@, "Set or replace a nested value at `path`. `create_missing` (default true) inserts missing keys."@, "SELECT jsonb_set('{\"a\":1}'::jsonb, '{b,c}', '42'::jsonb, true);"@, "functions-json.html#FUNCTIONS-JSON-PROCESSING-TABLE"@))
        .insert("jsonb_strip_nulls"@, function_v("jsonb_strip_nulls"@, "jsonb_strip_nulls(jsonb) -> jsonb"@, "Recursively remove all keys with NULL values."@, "SELECT jsonb_strip_nulls('{\"a\":1,\"b\":null}'::jsonb);"@, "functions-json.html#FUNCTIONS-JSON-PROCESSING-TABLE"@))
        .insert("jsonb_pretty"@, function_v("jsonb_pretty"@, "jsonb_pretty(jsonb) -> text"@, "Pretty-print jsonb with indentation."@, "SELECT jsonb_pretty('{\"a\":[1,2]}'::jsonb);"@, "functions-json.html#FUNCTIONS-JSON-PROCESSING-TABLE"@))
        .insert("pg_size_pretty"@, function_v("pg_size_pretty"@, "pg_size_pretty(bigint) -> text"@, "Format a byte count as human-readable string (kB / MB / GB / TB)."@, "SELECT pg_size_pretty(pg_database_size(current_database()));"@, "functions-admin.html#FUNCTIONS-ADMIN-DBSIZE"@))
        .insert("pg_database_size"@, function_v("pg_database_size"@, "pg_database_size(name|oid) -> bigint"@, "Total disk usage of a database in bytes."@, "SELECT pg_database_size(current_database());"@, "functions-admin.html#FUNCTIONS-ADMIN-DBSIZE"@))
        .insert("pg_table_size"@, function_v("pg_table_size"@, "pg_table_size(regclass) -> bigint"@, "Bytes used by table's main fork + FSM/VM (excludes indexes/TOAST)."@, "SELECT pg_table_size('users');"@, "functions-admin.html#FUNCTIONS-ADMIN-DBSIZE"@))
        .insert("pg_indexes_size"@, function_v("pg_indexes_size"@, "pg_indexes_size(regclass) -> bigint"@, "Total bytes used by all indexes on a table."@, "SELECT pg_indexes_size('users');"@, "functions-admin.html#FUNCTIONS-ADMIN-DBSIZE"@))
        .insert("pg_relation_size"@, function_v("pg_relation_size"@, "pg_relation_size(regclass [, text]) -> bigint"@, "Bytes of a specific fork (main/fsm/vm/init); default main."@, "SELECT pg_relation_size('users', 'main');"@, "functions-admin.html#FUNCTIONS-ADMIN-DBSIZE"@))
        .insert("pg_total_relation_size"@, function_v("pg_total_relation_size"@, "pg_total_relation_size(regclass) -> bigint"@, "Table + TOAST + every index, in bytes."@, "SELECT pg_total_relation_size('users');"@, "functions-admin.html#FUNCTIONS-ADMIN-DBSIZE"@))
        .insert("lower"@, function_v("lower"@, "lower(text) -> text"@, "Lowercase text using collation rules."@, "SELECT lower('HELLO');"@, "functions-string.html#FUNCTIONS-STRING-SQL"@))
        .insert("upper"@, function_v("upper"@, "upper(text) -> text"@, "Uppercase text using collation rules."@, "SELECT upper('hello');"@, "functions-string.html#FUNCTIONS-STRING-SQL"@))
        .insert("initcap"@, function_v("initcap"@, "initcap(text) -> text"@, "Capitalize the first letter of each word."@, "SELECT initcap('hello world');"@, "functions-string.html#FUNCTIONS-STRING-OTHER"@))
        .insert("left"@, function_v("left"@, "left(text, int) -> text"@, "First n characters; negative n drops the last |n| chars."@, "SELECT left('postgres', 4);"@, "functions-string.html#FUNCTIONS-STRING-OTHER"@))
        .insert("right"@, function_v("right"@, "right(text, int) -> text"@, "Last n characters; negative n drops the first |n| chars."@, "SELECT right('postgres', 3);"@, "functions-string.html#FUNCTIONS-STRING-OTHER"@))
        .insert("substr"@, function_v("substr"@, "substr(text, from int [, count int]) -> text"@, "PG alias of `SUBSTRING`. 1-based."@, "SELECT substr('postgres', 5, 3);"@, "functions-string.html#FUNCTIONS-STRING-OTHER"@))
        .insert("trim"@, function_v("trim"@, "trim([LEADING|TRAILING|BOTH] [chars] FROM text) -> text"@, "Strip leading/trailing chars (default whitespace)."@, "SELECT trim(BOTH '\"' FROM '\"hi\"');"@, "functions-string.html#FUNCTIONS-STRING-SQL"@))
        .insert("translate"@, function_v("translate"@, "translate(text, from text, to text) -> text"@, "Per-char map: replace each char in `from` with the same-index char in `to`; chars without a mapping are deleted."@, "SELECT translate('12345', '143', 'ax');"@, "functions-string.html#FUNCTIONS-STRING-OTHER"@))
        .insert("replace"@, function_v("replace"@, "replace(text, from text, to text) -> text"@, "Replace every literal occurrence of `from` with `to`."@, "SELECT replace('foo bar foo', 'foo', 'baz');"@, "functions-string.html#FUNCTIONS-STRING-OTHER"@))
        .insert("overlay"@, function_v("overlay"@, "overlay(text PLACING text FROM int [FOR int]) -> text"@, "Substring replacement starting at 1-based position."@, "SELECT overlay('Postgres' PLACING 'SQL' FROM 5);"@, "functions-string.html#FUNCTIONS-STRING-SQL"@))
        .insert("position"@, function_v("position"@, "position(needle IN haystack) -> int"@, "1-based index of needle in haystack; 0 when not found."@, "SELECT position('@' IN 'a@b.com');"@, "functions-string.html#FUNCTIONS-STRING-SQL"@))
        .insert("octet_length"@, function_v("octet_length"@, "octet_length(text|bytea) -> int"@, "Length in bytes (not characters)."@, "SELECT octet_length('café');"@, "functions-string.html#FUNCTIONS-STRING-SQL"@))
        .insert("bit_length"@, function_v("bit_length"@, "bit_length(text|bytea) -> int"@, "Length in bits."@, "SELECT bit_length('a');"@, "functions-string.html#FUNCTIONS-STRING-SQL"@))
        .insert("char_length"@, function_v("char_length"@, "char_length(text) -> int"@, "Length in characters. Alias `character_length`, `length`."@, "SELECT char_length('café');"@, "functions-string.html#FUNCTIONS-STRING-SQL"@))
        .insert("character_length"@, function_v("character_length"@, "character_length(text) -> int"@, "SQL-standard alias of `char_length`."@, "SELECT character_length('café');"@, "functions-string.html#FUNCTIONS-STRING-SQL"@))
        .insert("length"@, function_v("length"@, "length(text|bytea) -> int"@, "Characters for text; bytes for bytea."@, "SELECT length('café'), length('café'::bytea);"@, "functions-string.html#FUNCTIONS-STRING-SQL"@))
        .insert("encode"@, function_v("encode"@, "encode(bytea, format text) -> text"@, "Encode bytes as text: 'base64', 'hex', 'escape'."@, "SELECT encode(sha256('x'::bytea), 'hex');"@, "functions-binarystring.html"@))
        .insert("decode"@, function_v("decode"@, "decode(text, format text) -> bytea"@, "Decode text into bytes using a format ('base64', 'hex', 'escape')."@, "SELECT decode('48656c6c6f', 'hex');"@, "functions-binarystring.html"@))
        .insert("ascii"@, function_v("ascii"@, "ascii(text) -> int"@, "Unicode codepoint of the first character."@, "SELECT ascii('A');"@, "functions-string.html#FUNCTIONS-STRING-OTHER"@))
        .insert("lpad"@, function_v("lpad"@, "lpad(text, length int [, fill text]) -> text"@, "Left-pad to length with `fill` (default space); truncates when text longer than length."@, "SELECT lpad('42', 5, '0');"@, "functions-string.html#FUNCTIONS-STRING-OTHER"@))
        .insert("rpad"@, function_v("rpad"@, "rpad(text, length int [, fill text]) -> text"@, "Right-pad to length with `fill` (default space)."@, "SELECT rpad('x', 5, '-');"@, "functions-string.html#FUNCTIONS-STRING-OTHER"@))
        .insert("btrim"@, function_v("btrim"@, "btrim(text [, chars text]) -> text"@, "Trim chars from BOTH sides (default whitespace)."@, "SELECT btrim(' hello ');"@, "functions-string.html#FUNCTIONS-STRING-OTHER"@))
        .insert("ltrim"@, function_v("ltrim"@, "ltrim(text [, chars text]) -> text"@, "Trim chars from LEADING side."@, "SELECT ltrim('00042', '0');"@, "functions-string.html#FUNCTIONS-STRING-OTHER"@))
        .insert("rtrim"@, function_v("rtrim"@, "rtrim(text [, chars text]) -> text"@, "Trim chars from TRAILING side."@, "SELECT rtrim('hello   ');"@, "functions-string.html#FUNCTIONS-STRING-OTHER"@))
        .insert("repeat"@, function_v("repeat"@, "repeat(text, int) -> text"@, "Concatenate text n times."@, "SELECT repeat('-', 30);"@, "functions-string.html#FUNCTIONS-STRING-OTHER"@))
        .insert("reverse"@, function_v("reverse"@, "reverse(text) -> text"@, "Reverse characters (UTF-8 safe)."@, "SELECT reverse('abc');"@, "functions-string.html#FUNCTIONS-STRING-OTHER"@))
        .insert("split_part"@, function_v("split_part"@, "split_part(text, delim text, field int) -> text"@, "Return the nth field after splitting by delim (1-based; negative counts from end since PG14)."@, "SELECT split_part('a,b,c', ',', 2);"@, "functions-string.html#FUNCTIONS-STRING-OTHER"@))
        .insert("starts_with"@, function_v("starts_with"@, "starts_with(text, prefix text) -> boolean"@, "True when text begins with prefix. PG14+; SQL-portable equivalent: `text LIKE prefix || '%'`."@, "SELECT starts_with('postgres', 'post');"@, "functions-string.html#FUNCTIONS-STRING-OTHER"@))
        .insert("concat"@, function_v("concat"@, "concat(any [, ...]) -> text"@, "Concatenate args as text; NULL args become empty (unlike `||`)."@, "SELECT concat('a', NULL, 'b');"@, "functions-string.html#FUNCTIONS-STRING-OTHER"@))
        .insert("concat_ws"@, function_v("concat_ws"@, "concat_ws(sep text, any [, ...]) -> text"@, "Concatenate with separator; NULLs skipped."@, "SELECT concat_ws(',', 1, NULL, 'x');"@, "functions-string.html#FUNCTIONS-STRING-OTHER"@))
        .insert("format"@, function_v("format"@, "format(fmt text, args any ...) -> text"@, "printf-style: %s, %I (identifier-quote), %L (literal-quote). Safer than ad-hoc concat for dynamic SQL."@, "SELECT format('SELECT * FROM %I WHERE id = %L', 'users', 42);"@, "functions-string.html#FUNCTIONS-STRING-OTHER"@))
        .insert("quote_ident"@, function_v("quote_ident"@, "quote_ident(text) -> text"@, "Double-quote text if needed to use as an SQL identifier. Use for safe dynamic SQL."@, "SELECT quote_ident('users with spaces');"@, "functions-string.html#FUNCTIONS-STRING-OTHER"@))
        .insert("quote_literal"@, function_v("quote_literal"@, "quote_literal(text) -> text"@, "Single-quote text into an SQL string literal. NULL in -> empty string; use `quote_nullable` to preserve NULL."@, "SELECT quote_literal('O''Reilly');"@, "functions-string.html#FUNCTIONS-STRING-OTHER"@))
        .insert("quote_nullable"@, function_v("quote_nullable"@, "quote_nullable(any) -> text"@, "Like `quote_literal` but returns the unquoted text `NULL` for NULL input."@, "SELECT quote_nullable(NULL::text);"@, "functions-string.html#FUNCTIONS-STRING-OTHER"@))
        .insert("string_to_array"@, function_v("string_to_array"@, "string_to_array(text, delim text [, null_string text]) -> text[]"@, "Split text by delim into an array. Optional `null_string` makes matching tokens NULL."@, "SELECT string_to_array('a,,c', ',', '');"@, "functions-array.html"@))
        .insert("array_to_string"@, function_v("array_to_string"@, "array_to_string(anyarray, delim text [, null_string text]) -> text"@, "Join array elements with delim; NULL elements use `null_string` (or are skipped if omitted)."@, "SELECT array_to_string(ARRAY[1,2,3], ',');"@, "functions-array.html"@))
        .insert("string_agg"@, function_v("string_agg"@, "string_agg(text, delim text [ORDER BY ...]) -> text"@, "Aggregate: concat per-group strings with delim. Use ORDER BY for deterministic output."@, "SELECT string_agg(name, ', ' ORDER BY name) FROM users GROUP BY org_id;"@, "functions-aggregate.html#FUNCTIONS-AGGREGATE-TABLE"@))
        .insert("array_agg"@, function_v("array_agg"@, "array_agg(any [ORDER BY ...]) -> anyarray"@, "Aggregate: collect rows into an array."@, "SELECT array_agg(id ORDER BY created_at) FROM events;"@, "functions-aggregate.html#FUNCTIONS-AGGREGATE-TABLE"@))
        .insert("array_append"@, function_v("array_append"@, "array_append(anyarray, any) -> anyarray"@, "Append an element. Same as `arr || elem`."@, "SELECT array_append(ARRAY[1,2], 3);"@, "functions-array.html"@))
        .insert("array_prepend"@, function_v("array_prepend"@, "array_prepend(any, anyarray) -> anyarray"@, "Prepend an element. Same as `elem || arr`."@, "SELECT array_prepend(0, ARRAY[1,2]);"@, "functions-array.html"@))
}

spec fn function_part_4(m: Map<Seq<char>, EntryV>) -> Map<Seq<char>, EntryV> {
    m
        .insert("array_cat"@, function_v("array_cat"@, "array_cat(anyarray, anyarray) -> anyarray"@, "Concatenate two arrays. Same as `a || b`."@, "SELECT array_cat(ARRAY[1,2], ARRAY[3,4]);"@, "functions-array.html"@))
        .insert("array_remove"@, function_v("array_remove"@, "array_remove(anyarray, any) -> anyarray"@, "Remove every occurrence of a value from a 1-D array."@, "SELECT array_remove(ARRAY[1,2,3,2], 2);"@, "functions-array.html"@))
        .insert("array_replace"@, function_v("array_replace"@, "array_replace(anyarray, from any, to any) -> anyarray"@, "Replace every occurrence of `from` with `to`."@, "SELECT array_replace(ARRAY[1,2,3], 2, 20);"@, "functions-array.html"@))
        .insert("array_position"@, function_v("array_position"@, "array_position(anyarray, any [, start int]) -> int"@, "1-based index of first occurrence; NULL when absent."@, "SELECT array_position(ARRAY['a','b','c'], 'b');"@, "functions-array.html"@))
        .insert("array_positions"@, function_v("array_positions"@, "array_positions(anyarray, any) -> int[]"@, "All 1-based indexes of a value."@, "SELECT array_positions(ARRAY[1,2,3,2,1], 2);"@, "functions-array.html"@))
        .insert("array_length"@, function_v("array_length"@, "array_length(anyarray, dim int) -> int"@, "Length along dimension `dim`."@, "SELECT array_length(ARRAY[1,2,3], 1);"@, "functions-array.html"@))
        .insert("array_lower"@, function_v("array_lower"@, "array_lower(anyarray, dim int) -> int"@, "Lower bound (default 1) of dimension."@, "SELECT array_lower(ARRAY[1,2,3], 1);"@, "functions-array.html"@))
        .insert("array_upper"@, function_v("array_upper"@, "array_upper(anyarray, dim int) -> int"@, "Upper bound of dimension."@, "SELECT array_upper(ARRAY[1,2,3], 1);"@, "functions-array.html"@))
        .insert("array_ndims"@, function_v("array_ndims"@, "array_ndims(anyarray) -> int"@, "Number of dimensions."@, "SELECT array_ndims(ARRAY[[1,2],[3,4]]);"@, "functions-array.html"@))
        .insert("array_dims"@, function_v("array_dims"@, "array_dims(anyarray) -> text"@, "Text representation of dimensions, e.g. `[1:3]`."@, "SELECT array_dims(ARRAY[[1,2],[3,4]]);"@, "functions-array.html"@))
        .insert("cardinality"@, function_v("cardinality"@, "cardinality(anyarray) -> int"@, "Total element count across all dimensions."@, "SELECT cardinality(ARRAY[[1,2],[3,4]]);"@, "functions-array.html"@))
        .insert("unnest"@, function_v("unnest"@, "unnest(anyarray [, anyarray ...]) -> setof element"@, "Expand array(s) into rows. Multi-arg form pads shorter arrays with NULL."@, "SELECT * FROM unnest(ARRAY[1,2,3]) AS t(v);"@, "functions-array.html"@))
        .insert("array_fill"@, function_v("array_fill"@, "array_fill(elem any, dims int[] [, lowers int[]]) -> anyarray"@, "Fill an array of given dimensions with `elem`."@, "SELECT array_fill(0, ARRAY[3,3]);"@, "functions-array.html"@))
        .insert("generate_subscripts"@, function_v("generate_subscripts"@, "generate_subscripts(anyarray, dim int [, reverse boolean]) -> setof int"@, "Set of valid subscripts along a dimension."@, "SELECT i, a[i] FROM (SELECT ARRAY['a','b','c'] AS a) s, generate_subscripts(a, 1) AS i;"@, "functions-array.html"@))
        .insert("jsonb_path_query"@, function_v("jsonb_path_query"@, "jsonb_path_query(jsonb, jsonpath [, vars jsonb [, silent boolean]]) -> setof jsonb"@, "JSONPath query returning each match as a row."@, "SELECT jsonb_path_query('{\"a\":[1,2,3]}'::jsonb, '$.a[*]');"@, "functions-json.html#FUNCTIONS-SQLJSON-PATH"@))
        .insert("jsonb_path_query_array"@, function_v("jsonb_path_query_array"@, "jsonb_path_query_array(jsonb, jsonpath [, ...]) -> jsonb"@, "JSONPath query returning all matches as a JSON array."@, "SELECT jsonb_path_query_array(j, '$.tags[*]');"@, "functions-json.html#FUNCTIONS-SQLJSON-PATH"@))
        .insert("jsonb_path_query_first"@, function_v("jsonb_path_query_first"@, "jsonb_path_query_first(jsonb, jsonpath [, ...]) -> jsonb"@, "Return only the first JSONPath match."@, "SELECT jsonb_path_query_first(j, '$.name');"@, "functions-json.html#FUNCTIONS-SQLJSON-PATH"@))
        .insert("jsonb_path_exists"@, function_v("jsonb_path_exists"@, "jsonb_path_exists(jsonb, jsonpath [, ...]) -> boolean"@, "True when JSONPath matches at least one value."@, "SELECT jsonb_path_exists(j, '$.id');"@, "functions-json.html#FUNCTIONS-SQLJSON-PATH"@))
        .insert("jsonb_path_match"@, function_v("jsonb_path_match"@, "jsonb_path_match(jsonb, jsonpath [, ...]) -> boolean"@, "Evaluate a JSONPath that yields a single boolean."@, "SELECT jsonb_path_match(j, '$.age > 18');"@, "functions-json.html#FUNCTIONS-SQLJSON-PATH"@))
        .insert("jsonb_array_length"@, function_v("jsonb_array_length"@, "jsonb_array_length(jsonb) -> int"@, "Length of a JSON array; errors on non-array."@, "SELECT jsonb_array_length('[1,2,3]'::jsonb);"@, "functions-json.html#FUNCTIONS-JSON-PROCESSING-TABLE"@))
        .insert("jsonb_object_keys"@, function_v("jsonb_object_keys"@, "jsonb_object_keys(jsonb) -> setof text"@, "Top-level keys of a JSON object."@, "SELECT jsonb_object_keys('{\"a\":1,\"b\":2}'::jsonb);"@, "functions-json.html#FUNCTIONS-JSON-PROCESSING-TABLE"@))
        .insert("jsonb_each"@, function_v("jsonb_each"@, "jsonb_each(jsonb) -> setof (key text, value jsonb)"@, "Iterate object's (key, value) pairs."@, "SELECT * FROM jsonb_each('{\"a\":1,\"b\":2}'::jsonb);"@, "functions-json.html#FUNCTIONS-JSON-PROCESSING-TABLE"@))
        .insert("jsonb_each_text"@, function_v("jsonb_each_text"@, "jsonb_each_text(jsonb) -> setof (key text, value text)"@, "Same as `jsonb_each` but values cast to text."@, "SELECT * FROM jsonb_each_text('{\"a\":1}'::jsonb);"@, "functions-json.html#FUNCTIONS-JSON-PROCESSING-TABLE"@))
        .insert("jsonb_typeof"@, function_v("jsonb_typeof"@, "jsonb_typeof(jsonb) -> text"@, "JSON type: 'object', 'array', 'string', 'number', 'boolean', 'null'."@, "SELECT jsonb_typeof('[1,2,3]'::jsonb);"@, "functions-json.html#FUNCTIONS-JSON-PROCESSING-TABLE"@))
        .insert("json_object_agg"@, function_v("json_object_agg"@, "json_object_agg(key, value) -> json"@, "Aggregate: build a JSON object from key/value pairs."@, "SELECT json_object_agg(name, value) FROM kv;"@, "functions-aggregate.html#FUNCTIONS-AGGREGATE-TABLE"@))
        .insert("jsonb_object_agg"@, function_v("jsonb_object_agg"@, "jsonb_object_agg(key, value) -> jsonb"@, "Aggregate: build a jsonb object from key/value pairs."@, "SELECT jsonb_object_agg(name, value) FROM kv;"@, "functions-aggregate.html#FUNCTIONS-AGGREGATE-TABLE"@))
        .insert("json_agg"@, function_v("json_agg"@, "json_agg(any [ORDER BY ...]) -> json"@, "Aggregate: collect rows as a JSON array."@, "SELECT json_agg(row(id, name) ORDER BY id) FROM users;"@, "functions-aggregate.html#FUNCTIONS-AGGREGATE-TABLE"@))
        .insert("jsonb_agg"@, function_v("jsonb_agg"@, "jsonb_agg(any [ORDER BY ...]) -> jsonb"@, "Aggregate: collect rows as a jsonb array."@, "SELECT jsonb_agg(t ORDER BY id) FROM (SELECT id, name FROM users) t;"@, "functions-aggregate.html#FUNCTIONS-AGGREGATE-TABLE"@))
        .insert("row_to_json"@, function_v("row_to_json"@, "row_to_json(record [, pretty boolean]) -> json"@, "Serialize a row/composite to JSON."@, "SELECT row_to_json(u) FROM users u LIMIT 1;"@, "functions-json.html#FUNCTIONS-JSON-CREATION-TABLE"@))
        .insert("json_build_object"@, function_v("json_build_object"@, "json_build_object(any ...) -> json"@, "Alternating key/value args, JSON object out."@, "SELECT json_build_object('id', 1, 'name', 'a');"@, "functions-json.html#FUNCTIONS-JSON-CREATION-TABLE"@))
        .insert("jsonb_build_object"@, function_v("jsonb_build_object"@, "jsonb_build_object(any ...) -> jsonb"@, "Same as `json_build_object` but jsonb."@, "SELECT jsonb_build_object('id', 1, 'name', 'a');"@, "functions-json.html#FUNCTIONS-JSON-CREATION-TABLE"@))
        .insert("json_build_array"@, function_v("json_build_array"@, "json_build_array(any ...) -> json"@, "Variadic args to a JSON array."@, "SELECT json_build_array(1, 'x', true);"@, "functions-json.html#FUNCTIONS-JSON-CREATION-TABLE"@))
        .insert("jsonb_build_array"@, function_v("jsonb_build_array"@, "jsonb_build_array(any ...) -> jsonb"@, "Variadic args to a jsonb array."@, "SELECT jsonb_build_array(1, 'x', true);"@, "functions-json.html#FUNCTIONS-JSON-CREATION-TABLE"@))
        .insert("abs"@, function_v("abs"@, "abs(numeric|int|...) -> same"@, "Absolute value."@, "SELECT abs(-12);"@, "functions-math.html"@))
        .insert("ceiling"@, function_v("ceiling"@, "ceiling(numeric) -> numeric"@, "Smallest integer >= argument (alias of `ceil`)."@, "SELECT ceiling(1.2);"@, "functions-math.html"@))
        .insert("floor"@, function_v("floor"@, "floor(numeric) -> numeric"@, "Largest integer <= argument."@, "SELECT floor(1.9);"@, "functions-math.html"@))
        .insert("round"@, function_v("round"@, "round(numeric [, int]) -> numeric"@, "Round half-away-from-zero to N decimals (default 0)."@, "SELECT round(2.567, 2);"@, "functions-math.html"@))
        .insert("trunc"@, function_v("trunc"@, "trunc(numeric [, int]) -> numeric"@, "Truncate toward zero to N decimals."@, "SELECT trunc(2.567, 1);"@, "functions-math.html"@))
        .insert("div"@, function_v("div"@, "div(numerator, denominator) -> numeric"@, "Integer division (truncated toward zero)."@, "SELECT div(7, 2);"@, "functions-math.html"@))
        .insert("mod"@, function_v("mod"@, "mod(a, b) -> same"@, "Remainder of `a / b`. Sign follows the dividend."@, "SELECT mod(10, 3);"@, "functions-math.html"@))
        .insert("power"@, function_v("power"@, "power(base, exp) -> double precision|numeric"@, "Exponentiation; alias of `^`."@, "SELECT power(2, 10);"@, "functions-math.html"@))
        .insert("log"@, function_v("log"@, "log(b numeric, x numeric) -> numeric | log(numeric) -> numeric"@, "Two-arg: log of x in base b. One-arg: base 10."@, "SELECT log(2.0, 8.0), log(100);"@, "functions-math.html"@))
        .insert("sqrt"@, function_v("sqrt"@, "sqrt(numeric|double precision) -> same"@, "Square root."@, "SELECT sqrt(144);"@, "functions-math.html"@))
        .insert("sign"@, function_v("sign"@, "sign(numeric) -> numeric"@, "-1, 0, or 1."@, "SELECT sign(-3), sign(0), sign(5);"@, "functions-math.html"@))
        .insert("cos"@, function_v("cos"@, "cos(double precision) -> double precision"@, "Cosine (radians)."@, "SELECT cos(0);"@, "functions-math.html"@))
        .insert("tan"@, function_v("tan"@, "tan(double precision) -> double precision"@, "Tangent (radians)."@, "SELECT tan(pi()/4);"@, "functions-math.html"@))
        .insert("asin"@, function_v("asin"@, "asin(double precision) -> double precision"@, "Inverse sine; result in radians."@, "SELECT asin(1);"@, "functions-math.html"@))
        .insert("acos"@, function_v("acos"@, "acos(double precision) -> double precision"@, "Inverse cosine; result in radians."@, "SELECT acos(0);"@, "functions-math.html"@))
        .insert("atan"@, function_v("atan"@, "atan(double precision) -> double precision"@, "Inverse tangent; result in radians."@, "SELECT atan(1);"@, "functions-math.html"@))
        .insert("atan2"@, function_v("atan2"@, "atan2(y double precision, x double precision) -> double precision"@, "Two-arg arctan; quadrant-aware."@, "SELECT atan2(1, 1);"@, "functions-math.html"@))
        .insert("degrees"@, function_v("degrees"@, "degrees(double precision) -> double precision"@, "Radians -> degrees."@, "SELECT degrees(pi());"@, "functions-math.html"@))
        .insert("radians"@, function_v("radians"@, "radians(double precision) -> double precision"@, "Degrees -> radians."@, "SELECT radians(180);"@, "functions-math.html"@))
        .insert("random"@, function_v("random"@, "random() -> double precision"@, "Uniform [0,1). NOT cryptographically secure -- use `gen_random_uuid()`/`pgcrypto` for tokens."@, "SELECT random();"@, "functions-math.html"@))
        .insert("setseed"@, function_v("setseed"@, "setseed(double precision) -> void"@, "Seed `random()` with a value in [-1,1] for reproducibility within the session."@, "SELECT setseed(0.42); SELECT random();"@, "functions-math.html"@))
        .insert("scale"@, function_v("scale"@, "scale(numeric) -> int"@, "Display scale (digits after decimal point)."@, "SELECT scale(1.23000);"@, "functions-math.html"@))
        .insert("min_scale"@, function_v("min_scale"@, "min_scale(numeric) -> int"@, "Minimum scale needed to represent the value exactly (no trailing zeros)."@, "SELECT min_scale(1.23000);"@, "functions-math.html"@))
        .insert("trim_scale"@, function_v("trim_scale"@, "trim_scale(numeric) -> numeric"@, "Strip trailing zeros from the fractional part."@, "SELECT trim_scale(1.23000);"@, "functions-math.html"@))
        .insert("regexp_match"@, function_v("regexp_match"@, "regexp_match(text, pattern [, flags]) -> text[]"@, "Return the first match's capture groups as an array; NULL when no match."@, "SELECT regexp_match('foo123bar', '([a-z]+)(\\d+)');"@, "functions-matching.html#FUNCTIONS-POSIX-REGEXP"@))
        .insert("regexp_matches"@, function_v("regexp_matches"@, "regexp_matches(text, pattern [, flags]) -> setof text[]"@, "All matches as rows. Flag `g` returns every match (else just the first)."@, "SELECT regexp_matches('aabbcc', '([a-z])\\1', 'g');"@, "functions-matching.html#FUNCTIONS-POSIX-REGEXP"@))
        .insert("regexp_replace"@, function_v("regexp_replace"@, "regexp_replace(text, pattern, replacement [, flags]) -> text"@, "Replace matches. Use `g` flag for global, `i` for case-insensitive."@, "SELECT regexp_replace('Hello world', 'world', 'PG', 'gi');"@, "functions-matching.html#FUNCTIONS-POSIX-REGEXP"@))
        .insert("regexp_split_to_array"@, function_v("regexp_split_to_array"@, "regexp_split_to_array(text, pattern [, flags]) -> text[]"@, "Split text on regex matches into an array."@, "SELECT regexp_split_to_array('a, b ,c', '\\s*,\\s*');"@, "functions-matching.html#FUNCTIONS-POSIX-REGEXP"@))
        .insert("regexp_split_to_table"@, function_v("regexp_split_to_table"@, "regexp_split_to_table(text, pattern [, flags]) -> setof text"@, "Split text on regex matches into rows."@, "SELECT regexp_split_to_table('a;b;c', ';');"@, "functions-matching.html#FUNCTIONS-POSIX-REGEXP"@))
        .insert("regexp_count"@, function_v("regexp_count"@, "regexp_count(text, pattern [, start int [, flags text]]) -> int"@, "Count matches (PG15+)."@, "SELECT regexp_count('abcabc', 'b');"@, "functions-matching.html#FUNCTIONS-POSIX-REGEXP"@))
        .insert("regexp_substr"@, function_v("regexp_substr"@, "regexp_substr(text, pattern [, start int [, n int [, flags text [, subexpr int]]]]) -> text"@, "Return the nth match (PG15+)."@, "SELECT regexp_substr('a1 b2 c3', '[a-z]\\d');"@, "functions-matching.html#FUNCTIONS-POSIX-REGEXP"@))
        .insert("to_tsvector"@, function_v("to_tsvector"@, "to_tsvector([config regconfig,] text) -> tsvector"@, "Tokenize + normalize text into a tsvector (default config: `default_text_search_config`)."@, "SELECT to_tsvector('english', 'The quick brown fox');"@, "functions-textsearch.html"@))
        .insert("to_tsquery"@, function_v("to_tsquery"@, "to_tsquery([config,] text) -> tsquery"@, "Parse `& | ! <-> ()`-style query into tsquery. Errors on operator chars in raw user input -- prefer `websearch_to_tsquery` for that."@, "SELECT to_tsquery('english', 'fox & jump:*');"@, "functions-textsearch.html"@))
        .insert("plainto_tsquery"@, function_v("plainto_tsquery"@, "plainto_tsquery([config,] text) -> tsquery"@, "Treat input as plain words AND-joined; ignores operators."@, "SELECT plainto_tsquery('english', 'quick fox');"@, "functions-textsearch.html"@))
        .insert("phraseto_tsquery"@, function_v("phraseto_tsquery"@, "phraseto_tsquery([config,] text) -> tsquery"@, "Like `plainto_tsquery` but words joined with phrase distance operator `<->`."@, "SELECT phraseto_tsquery('english', 'quick brown fox');"@, "functions-textsearch.html"@))
        .insert("websearch_to_tsquery"@, function_v("websearch_to_tsquery"@, "websearch_to_tsquery([config,] text) -> tsquery"@, "Google-style: \"quoted phrases\", -minus, OR. Safe for raw user input."@, "SELECT websearch_to_tsquery('english', '\"quick fox\" OR -dog');"@, "functions-textsearch.html"@))
        .insert("ts_rank"@, function_v("ts_rank"@, "ts_rank([weights,] tsvector, tsquery [, normalization int]) -> real"@, "Rank by term frequency. Default weights {0.1, 0.2, 0.4, 1.0} for D,C,B,A."@, "SELECT ts_rank(doc, q) FROM articles, websearch_to_tsquery('postgres') q WHERE doc @@ q ORDER BY 1 DESC;"@, "functions-textsearch.html"@))
        .insert("ts_rank_cd"@, function_v("ts_rank_cd"@, "ts_rank_cd([weights,] tsvector, tsquery [, normalization int]) -> real"@, "Cover-density rank (rewards lexeme proximity)."@, "SELECT ts_rank_cd(doc, q) FROM articles, q;"@, "functions-textsearch.html"@))
        .insert("ts_headline"@, function_v("ts_headline"@, "ts_headline([config,] text|tsvector, tsquery [, options text]) -> text"@, "Highlight matching lexemes in text snippet."@, "SELECT ts_headline('english', body, q, 'MaxFragments=3') FROM articles, websearch_to_tsquery('pg') q;"@, "functions-textsearch.html"@))
        .insert("numnode"@, function_v("numnode"@, "numnode(tsquery) -> int"@, "Number of nodes in a tsquery (for query-complexity checks)."@, "SELECT numnode('a & b'::tsquery);"@, "functions-textsearch.html"@))
        .insert("queries_to_xml"@, function_v("queries_to_xml"@, "queries_to_xml(tableset_query text [, ...]) -> xml"@, "Run query and return result-set as XML. Companion of `query_to_xml`."@, "SELECT queries_to_xml('SELECT * FROM t;', true, false, '');"@, "functions-xml.html#FUNCTIONS-XML-MAPPING"@))
        .insert("isempty"@, function_v("isempty"@, "isempty(anyrange|anymultirange) -> boolean"@, "True when range/multirange covers zero elements."@, "SELECT isempty('[5,5)'::int4range);"@, "functions-range.html"@))
}

spec fn function_part_5(m: Map<Seq<char>, EntryV>) -> Map<Seq<char>, EntryV> {
    m
        .insert("lower_inc"@, function_v("lower_inc"@, "lower_inc(anyrange|anymultirange) -> boolean"@, "True when the lower bound is inclusive (e.g. `[1,5)` -> true)."@, "SELECT lower_inc('[1,5)'::int4range);"@, "functions-range.html"@))
        .insert("upper_inc"@, function_v("upper_inc"@, "upper_inc(anyrange|anymultirange) -> boolean"@, "True when the upper bound is inclusive."@, "SELECT upper_inc('[1,5]'::int4range);"@, "functions-range.html"@))
        .insert("range_merge"@, function_v("range_merge"@, "range_merge(anyrange, anyrange) -> anyrange | range_merge(anymultirange) -> anyrange"@, "Smallest range covering all inputs."@, "SELECT range_merge('[1,5)'::int4range, '[10,20)'::int4range);"@, "functions-range.html"@))
        .insert("int4range"@, function_v("int4range"@, "int4range(lower int [, upper int [, bounds text]]) -> int4range"@, "Construct int4range; `bounds` like '[)' (default) / '(]' / '[]' / '()'."@, "SELECT int4range(1, 10, '[]');"@, "rangetypes.html"@))
        .insert("int8range"@, function_v("int8range"@, "int8range(lower bigint, upper bigint [, bounds text]) -> int8range"@, "Construct int8range."@, "SELECT int8range(1, 10);"@, "rangetypes.html"@))
        .insert("numrange"@, function_v("numrange"@, "numrange(lower numeric, upper numeric [, bounds text]) -> numrange"@, "Construct numeric range."@, "SELECT numrange(0.0, 1.0);"@, "rangetypes.html"@))
        .insert("tsrange"@, function_v("tsrange"@, "tsrange(lower timestamp, upper timestamp [, bounds]) -> tsrange"@, "Construct timestamp range."@, "SELECT tsrange('2026-01-01', '2027-01-01');"@, "rangetypes.html"@))
        .insert("tstzrange"@, function_v("tstzrange"@, "tstzrange(lower timestamptz, upper timestamptz [, bounds]) -> tstzrange"@, "Construct timestamptz range."@, "SELECT tstzrange(now(), now() + interval '1 day');"@, "rangetypes.html"@))
        .insert("daterange"@, function_v("daterange"@, "daterange(lower date, upper date [, bounds]) -> daterange"@, "Construct date range."@, "SELECT daterange('2026-01-01', '2027-01-01');"@, "rangetypes.html"@))
        .insert("multirange"@, function_v("multirange"@, "multirange(VARIADIC anyrange[]) -> anymultirange"@, "Construct multirange from ranges (PG14+)."@, "SELECT multirange('[1,5)'::int4range, '[10,20)'::int4range);"@, "rangetypes.html"@))
        .insert("range_agg"@, function_v("range_agg"@, "range_agg(anyrange) -> anymultirange"@, "Aggregate ranges into a multirange (PG14+)."@, "SELECT range_agg(period) FROM bookings WHERE room_id = 1;"@, "functions-aggregate.html#FUNCTIONS-AGGREGATE-TABLE"@))
        .insert("sum"@, function_v("sum"@, "sum(numeric|interval|...) -> same"@, "Aggregate sum; NULL ignored. Result type widens (int->bigint, bigint->numeric)."@, "SELECT sum(amount) FROM orders;"@, "functions-aggregate.html#FUNCTIONS-AGGREGATE-TABLE"@))
        .insert("avg"@, function_v("avg"@, "avg(numeric|...) -> numeric|double precision|interval"@, "Arithmetic mean."@, "SELECT avg(price) FROM products;"@, "functions-aggregate.html#FUNCTIONS-AGGREGATE-TABLE"@))
        .insert("count"@, function_v("count"@, "count(* | expr) -> bigint"@, "Row count (`count(*)`) or non-NULL value count (`count(expr)`)."@, "SELECT count(*), count(email) FROM users;"@, "functions-aggregate.html#FUNCTIONS-AGGREGATE-TABLE"@))
        .insert("min"@, function_v("min"@, "min(any) -> same"@, "Smallest non-NULL value."@, "SELECT min(created_at) FROM events;"@, "functions-aggregate.html#FUNCTIONS-AGGREGATE-TABLE"@))
        .insert("max"@, function_v("max"@, "max(any) -> same"@, "Largest non-NULL value."@, "SELECT max(price) FROM products;"@, "functions-aggregate.html#FUNCTIONS-AGGREGATE-TABLE"@))
        .insert("bool_and"@, function_v("bool_and"@, "bool_and(boolean) -> boolean"@, "True when every non-NULL row is true."@, "SELECT bool_and(active) FROM users;"@, "functions-aggregate.html#FUNCTIONS-AGGREGATE-TABLE"@))
        .insert("bool_or"@, function_v("bool_or"@, "bool_or(boolean) -> boolean"@, "True when any row is true."@, "SELECT bool_or(error) FROM logs;"@, "functions-aggregate.html#FUNCTIONS-AGGREGATE-TABLE"@))
        .insert("every"@, function_v("every"@, "every(boolean) -> boolean"@, "SQL-standard alias of `bool_and`."@, "SELECT every(active) FROM users;"@, "functions-aggregate.html#FUNCTIONS-AGGREGATE-TABLE"@))
        .insert("bit_and"@, function_v("bit_and"@, "bit_and(int|bit) -> same"@, "Bitwise AND across rows."@, "SELECT bit_and(flags) FROM perms;"@, "functions-aggregate.html#FUNCTIONS-AGGREGATE-TABLE"@))
        .insert("bit_or"@, function_v("bit_or"@, "bit_or(int|bit) -> same"@, "Bitwise OR across rows."@, "SELECT bit_or(flags) FROM perms;"@, "functions-aggregate.html#FUNCTIONS-AGGREGATE-TABLE"@))
        .insert("stddev"@, function_v("stddev"@, "stddev(numeric) -> numeric|double precision"@, "Sample standard deviation (alias of `stddev_samp`)."@, "SELECT stddev(latency) FROM probes;"@, "functions-aggregate.html#FUNCTIONS-AGGREGATE-STATISTICS-TABLE"@))
        .insert("stddev_pop"@, function_v("stddev_pop"@, "stddev_pop(numeric) -> numeric|double precision"@, "Population standard deviation."@, "SELECT stddev_pop(latency) FROM probes;"@, "functions-aggregate.html#FUNCTIONS-AGGREGATE-STATISTICS-TABLE"@))
        .insert("stddev_samp"@, function_v("stddev_samp"@, "stddev_samp(numeric) -> numeric|double precision"@, "Sample standard deviation (Bessel-corrected)."@, "SELECT stddev_samp(latency) FROM probes;"@, "functions-aggregate.html#FUNCTIONS-AGGREGATE-STATISTICS-TABLE"@))
        .insert("variance"@, function_v("variance"@, "variance(numeric) -> numeric|double precision"@, "Sample variance (alias of `var_samp`)."@, "SELECT variance(latency) FROM probes;"@, "functions-aggregate.html#FUNCTIONS-AGGREGATE-STATISTICS-TABLE"@))
        .insert("var_pop"@, function_v("var_pop"@, "var_pop(numeric) -> numeric|double precision"@, "Population variance."@, "SELECT var_pop(latency) FROM probes;"@, "functions-aggregate.html#FUNCTIONS-AGGREGATE-STATISTICS-TABLE"@))
        .insert("var_samp"@, function_v("var_samp"@, "var_samp(numeric) -> numeric|double precision"@, "Sample variance."@, "SELECT var_samp(latency) FROM probes;"@, "functions-aggregate.html#FUNCTIONS-AGGREGATE-STATISTICS-TABLE"@))
        .insert("covar_pop"@, function_v("covar_pop"@, "covar_pop(y, x) -> double precision"@, "Population covariance."@, "SELECT covar_pop(y, x) FROM xy;"@, "functions-aggregate.html#FUNCTIONS-AGGREGATE-STATISTICS-TABLE"@))
        .insert("covar_samp"@, function_v("covar_samp"@, "covar_samp(y, x) -> double precision"@, "Sample covariance."@, "SELECT covar_samp(y, x) FROM xy;"@, "functions-aggregate.html#FUNCTIONS-AGGREGATE-STATISTICS-TABLE"@))
        .insert("corr"@, function_v("corr"@, "corr(y, x) -> double precision"@, "Pearson correlation coefficient."@, "SELECT corr(y, x) FROM xy;"@, "functions-aggregate.html#FUNCTIONS-AGGREGATE-STATISTICS-TABLE"@))
        .insert("regr_slope"@, function_v("regr_slope"@, "regr_slope(y, x) -> double precision"@, "Slope of least-squares-fit linear regression."@, "SELECT regr_slope(rev, day) FROM daily;"@, "functions-aggregate.html#FUNCTIONS-AGGREGATE-STATISTICS-TABLE"@))
        .insert("regr_intercept"@, function_v("regr_intercept"@, "regr_intercept(y, x) -> double precision"@, "Intercept of linear regression."@, "SELECT regr_intercept(rev, day) FROM daily;"@, "functions-aggregate.html#FUNCTIONS-AGGREGATE-STATISTICS-TABLE"@))
        .insert("regr_r2"@, function_v("regr_r2"@, "regr_r2(y, x) -> double precision"@, "Coefficient of determination."@, "SELECT regr_r2(rev, day) FROM daily;"@, "functions-aggregate.html#FUNCTIONS-AGGREGATE-STATISTICS-TABLE"@))
        .insert("regr_count"@, function_v("regr_count"@, "regr_count(y, x) -> bigint"@, "Rows with non-NULL y AND x."@, "SELECT regr_count(y, x) FROM xy;"@, "functions-aggregate.html#FUNCTIONS-AGGREGATE-STATISTICS-TABLE"@))
        .insert("regr_avgx"@, function_v("regr_avgx"@, "regr_avgx(y, x) -> double precision"@, "Average of x for rows where both y and x are non-NULL."@, "SELECT regr_avgx(y, x) FROM xy;"@, "functions-aggregate.html#FUNCTIONS-AGGREGATE-STATISTICS-TABLE"@))
        .insert("regr_avgy"@, function_v("regr_avgy"@, "regr_avgy(y, x) -> double precision"@, "Average of y for rows where both y and x are non-NULL."@, "SELECT regr_avgy(y, x) FROM xy;"@, "functions-aggregate.html#FUNCTIONS-AGGREGATE-STATISTICS-TABLE"@))
        .insert("regr_sxx"@, function_v("regr_sxx"@, "regr_sxx(y, x) -> double precision"@, "Sum of squares of x."@, "SELECT regr_sxx(y, x) FROM xy;"@, "functions-aggregate.html#FUNCTIONS-AGGREGATE-STATISTICS-TABLE"@))
        .insert("regr_syy"@, function_v("regr_syy"@, "regr_syy(y, x) -> double precision"@, "Sum of squares of y."@, "SELECT regr_syy(y, x) FROM xy;"@, "functions-aggregate.html#FUNCTIONS-AGGREGATE-STATISTICS-TABLE"@))
        .insert("regr_sxy"@, function_v("regr_sxy"@, "regr_sxy(y, x) -> double precision"@, "Sum of products (x_i * y_i)."@, "SELECT regr_sxy(y, x) FROM xy;"@, "functions-aggregate.html#FUNCTIONS-AGGREGATE-STATISTICS-TABLE"@))
        .insert("mode"@, function_v("mode"@, "mode() WITHIN GROUP (ORDER BY <expr>) -> same"@, "Ordered-set aggregate: most common value."@, "SELECT mode() WITHIN GROUP (ORDER BY status) FROM tickets;"@, "functions-aggregate.html#FUNCTIONS-ORDEREDSET-TABLE"@))
        .insert("percentile_cont"@, function_v("percentile_cont"@, "percentile_cont(fraction) WITHIN GROUP (ORDER BY expr) -> double precision|interval"@, "Continuous percentile (linear interp). Common: median = percentile_cont(0.5)."@, "SELECT percentile_cont(0.5) WITHIN GROUP (ORDER BY salary) FROM employees;"@, "functions-aggregate.html#FUNCTIONS-ORDEREDSET-TABLE"@))
        .insert("percentile_disc"@, function_v("percentile_disc"@, "percentile_disc(fraction) WITHIN GROUP (ORDER BY expr) -> same"@, "Discrete percentile (picks an actual row value)."@, "SELECT percentile_disc(0.95) WITHIN GROUP (ORDER BY latency) FROM probes;"@, "functions-aggregate.html#FUNCTIONS-ORDEREDSET-TABLE"@))
        .insert("rank"@, function_v("rank"@, "rank() OVER (...) -> bigint"@, "Window: 1-based rank with gaps for ties."@, "SELECT rank() OVER (PARTITION BY org ORDER BY score DESC) FROM scores;"@, "functions-window.html"@))
        .insert("dense_rank"@, function_v("dense_rank"@, "dense_rank() OVER (...) -> bigint"@, "Window: rank without gaps."@, "SELECT dense_rank() OVER (ORDER BY score DESC) FROM scores;"@, "functions-window.html"@))
        .insert("percent_rank"@, function_v("percent_rank"@, "percent_rank() OVER (...) -> double precision"@, "Window: (rank - 1) / (n - 1)."@, "SELECT percent_rank() OVER (ORDER BY score) FROM scores;"@, "functions-window.html"@))
        .insert("cume_dist"@, function_v("cume_dist"@, "cume_dist() OVER (...) -> double precision"@, "Window: cumulative distribution = rows preceding-or-peer / total rows."@, "SELECT cume_dist() OVER (ORDER BY score) FROM scores;"@, "functions-window.html"@))
        .insert("row_number"@, function_v("row_number"@, "row_number() OVER (...) -> bigint"@, "Window: monotonically increasing row counter per partition."@, "SELECT row_number() OVER (PARTITION BY user_id ORDER BY ts) FROM events;"@, "functions-window.html"@))
        .insert("ntile"@, function_v("ntile"@, "ntile(n int) OVER (...) -> int"@, "Window: assign rows to N equal-sized buckets."@, "SELECT ntile(4) OVER (ORDER BY score) FROM scores;"@, "functions-window.html"@))
        .insert("lag"@, function_v("lag"@, "lag(expr [, offset int [, default any]]) OVER (...) -> same"@, "Window: value from row offset rows BEFORE the current one (default 1)."@, "SELECT ts, lag(ts) OVER (PARTITION BY uid ORDER BY ts) FROM events;"@, "functions-window.html"@))
        .insert("lead"@, function_v("lead"@, "lead(expr [, offset int [, default any]]) OVER (...) -> same"@, "Window: value from row offset rows AFTER the current one."@, "SELECT ts, lead(ts) OVER (PARTITION BY uid ORDER BY ts) FROM events;"@, "functions-window.html"@))
        .insert("first_value"@, function_v("first_value"@, "first_value(expr) OVER (...) -> same"@, "Window: value at the first row of the window frame."@, "SELECT first_value(price) OVER (PARTITION BY sku ORDER BY ts) FROM prices;"@, "functions-window.html"@))
        .insert("last_value"@, function_v("last_value"@, "last_value(expr) OVER (...) -> same"@, "Window: value at the last row of the window frame. NB: default frame ends at CURRENT ROW -- use `ROWS BETWEEN UNBOUNDED PRECEDING AND UNBOUNDED FOLLOWING` for partition-wide."@, "SELECT last_value(price) OVER (PARTITION BY sku ORDER BY ts ROWS BETWEEN UNBOUNDED PRECEDING AND UNBOUNDED FOLLOWING) FROM prices;"@, "functions-window.html"@))
        .insert("nth_value"@, function_v("nth_value"@, "nth_value(expr, n int) OVER (...) -> same"@, "Window: value at nth row of the frame (1-based)."@, "SELECT nth_value(price, 2) OVER (PARTITION BY sku ORDER BY ts) FROM prices;"@, "functions-window.html"@))
        .insert("int4"@, function_v("int4"@, "int4(any) -> int4"@, "Cast to int4 (alias `int`/`integer`)."@, "SELECT int4(1.7);"@, "datatype-numeric.html"@))
        .insert("int8"@, function_v("int8"@, "int8(any) -> int8"@, "Cast to int8 (alias `bigint`)."@, "SELECT int8('12345');"@, "datatype-numeric.html"@))
        .insert("int2"@, function_v("int2"@, "int2(any) -> int2"@, "Cast to int2 (alias `smallint`)."@, "SELECT int2(42);"@, "datatype-numeric.html"@))
        .insert("float4"@, function_v("float4"@, "float4(any) -> float4"@, "Cast to float4 (alias `real`)."@, "SELECT float4('3.14');"@, "datatype-numeric.html"@))
        .insert("float8"@, function_v("float8"@, "float8(any) -> float8"@, "Cast to float8 (alias `double precision`)."@, "SELECT float8('3.14');"@, "datatype-numeric.html"@))
        .insert("get_bit"@, function_v("get_bit"@, "get_bit(bytea|bit, int) -> int"@, "Read bit at 0-based offset."@, "SELECT get_bit('\\xff'::bytea, 0);"@, "functions-binarystring.html"@))
        .insert("set_bit"@, function_v("set_bit"@, "set_bit(bytea|bit, int, int) -> same"@, "Write bit at offset."@, "SELECT set_bit('\\x00'::bytea, 7, 1);"@, "functions-binarystring.html"@))
        .insert("get_byte"@, function_v("get_byte"@, "get_byte(bytea, int) -> int"@, "Read byte at 0-based offset (0..255)."@, "SELECT get_byte('\\xdeadbeef'::bytea, 1);"@, "functions-binarystring.html"@))
        .insert("set_byte"@, function_v("set_byte"@, "set_byte(bytea, int, int) -> bytea"@, "Write byte at offset."@, "SELECT set_byte('\\x00000000'::bytea, 2, 255);"@, "functions-binarystring.html"@))
        .insert("host"@, function_v("host"@, "host(inet|cidr) -> text"@, "Address only, no netmask."@, "SELECT host('192.168.1.5/24'::inet);"@, "functions-net.html"@))
        .insert("netmask"@, function_v("netmask"@, "netmask(inet) -> inet"@, "Netmask of an inet value."@, "SELECT netmask('192.168.1.0/24');"@, "functions-net.html"@))
        .insert("network"@, function_v("network"@, "network(inet) -> cidr"@, "Network portion as cidr."@, "SELECT network('192.168.1.5/24');"@, "functions-net.html"@))
        .insert("set_masklen"@, function_v("set_masklen"@, "set_masklen(inet|cidr, int) -> same"@, "Set the netmask length without changing the address."@, "SELECT set_masklen('192.168.1.5'::inet, 16);"@, "functions-net.html"@))
        .insert("inet"@, function_v("inet"@, "inet(text) -> inet"@, "Cast text to inet (also via `::inet`)."@, "SELECT inet('10.0.0.1');"@, "functions-net.html"@))
        .insert("gen_random_uuid"@, function_v("gen_random_uuid"@, "gen_random_uuid() -> uuid"@, "Cryptographically-strong random UUID (v4). Built-in since PG13 (no extension needed)."@, "SELECT gen_random_uuid();"@, "functions-uuid.html"@))
        .insert("uuid_generate_v1"@, function_v("uuid_generate_v1"@, "uuid_generate_v1() -> uuid"@, "Time-based UUID v1. Requires `uuid-ossp` extension."@, "CREATE EXTENSION IF NOT EXISTS \"uuid-ossp\"; SELECT uuid_generate_v1();"@, "uuid-ossp.html"@))
        .insert("uuid_generate_v4"@, function_v("uuid_generate_v4"@, "uuid_generate_v4() -> uuid"@, "Random UUID v4 (uuid-ossp). PG13+ has built-in `gen_random_uuid()` -- prefer that."@, "SELECT uuid_generate_v4();"@, "uuid-ossp.html"@))
        .insert("uuid_generate_v5"@, function_v("uuid_generate_v5"@, "uuid_generate_v5(namespace uuid, name text) -> uuid"@, "Name-based UUID using SHA-1."@, "SELECT uuid_generate_v5(uuid_ns_url(), 'https://example.com');"@, "uuid-ossp.html"@))
        .insert("sha224"@, function_v("sha224"@, "sha224(bytea) -> bytea"@, "SHA-224 hash."@, "SELECT sha224('abc'::bytea);"@, "functions-binarystring.html"@))
        .insert("sha256"@, function_v("sha256"@, "sha256(bytea) -> bytea"@, "SHA-256 hash."@, "SELECT encode(sha256('abc'::bytea), 'hex');"@, "functions-binarystring.html"@))
        .insert("sha384"@, function_v("sha384"@, "sha384(bytea) -> bytea"@, "SHA-384 hash."@, "SELECT sha384('abc'::bytea);"@, "functions-binarystring.html"@))
        .insert("sha512"@, function_v("sha512"@, "sha512(bytea) -> bytea"@, "SHA-512 hash."@, "SELECT sha512('abc'::bytea);"@, "functions-binarystring.html"@))
}

spec fn function_part_6(m: Map<Seq<char>, EntryV>) -> Map<Seq<char>, EntryV> {
    m
        .insert("hashtext"@, function_v("hashtext"@, "hashtext(text) -> int"@, "Internal fast hash of text (not cryptographic)."@, "SELECT hashtext('abc');"@, "functions-binarystring.html"@))
        .insert("crypt"@, function_v("crypt"@, "crypt(password text, salt text) -> text"@, "pgcrypto: hash password using crypt() schemes (bf, md5, ...). Use `gen_salt('bf')` for salt."@, "SELECT crypt('secret', gen_salt('bf'));"@, "pgcrypto.html"@))
        .insert("gen_salt"@, function_v("gen_salt"@, "gen_salt(algorithm text [, iter_count int]) -> text"@, "pgcrypto: generate a salt for `crypt()`. Algos: 'bf', 'md5', 'des', 'xdes'."@, "SELECT gen_salt('bf', 12);"@, "pgcrypto.html"@))
        .insert("encrypt"@, function_v("encrypt"@, "encrypt(data bytea, key bytea, type text) -> bytea"@, "pgcrypto: symmetric encrypt. `type` like 'aes' or 'aes-cbc/pad:pkcs'."@, "SELECT encrypt('secret'::bytea, 'key'::bytea, 'aes');"@, "pgcrypto.html"@))
        .insert("decrypt"@, function_v("decrypt"@, "decrypt(data bytea, key bytea, type text) -> bytea"@, "pgcrypto: symmetric decrypt counterpart of `encrypt`."@, "SELECT decrypt(ciphertext, 'key', 'aes');"@, "pgcrypto.html"@))
        .insert("hmac"@, function_v("hmac"@, "hmac(data bytea|text, key bytea|text, type text) -> bytea"@, "pgcrypto: HMAC. `type` like 'sha256'."@, "SELECT encode(hmac('msg', 'key', 'sha256'), 'hex');"@, "pgcrypto.html"@))
        .insert("digest"@, function_v("digest"@, "digest(data bytea|text, type text) -> bytea"@, "pgcrypto: arbitrary digest. `type` like 'sha256', 'sha512', 'md5'."@, "SELECT encode(digest('abc', 'sha256'), 'hex');"@, "pgcrypto.html"@))
        .insert("nextval"@, function_v("nextval"@, "nextval(regclass) -> bigint"@, "Advance sequence and return the new value. Caches per session per `CACHE` setting."@, "SELECT nextval('users_id_seq');"@, "functions-sequence.html"@))
        .insert("currval"@, function_v("currval"@, "currval(regclass) -> bigint"@, "Value most recently returned by `nextval` in this session. Errors if no `nextval` has run yet."@, "SELECT currval('users_id_seq');"@, "functions-sequence.html"@))
        .insert("lastval"@, function_v("lastval"@, "lastval() -> bigint"@, "Value most recently returned by `nextval` for ANY sequence in this session."@, "SELECT lastval();"@, "functions-sequence.html"@))
        .insert("setval"@, function_v("setval"@, "setval(regclass, bigint [, is_called boolean]) -> bigint"@, "Reset sequence. With `is_called`=false the next `nextval` returns the same value."@, "SELECT setval('users_id_seq', 1000, true);"@, "functions-sequence.html"@))
        .insert("pg_advisory_lock"@, function_v("pg_advisory_lock"@, "pg_advisory_lock(key bigint) -> void | pg_advisory_lock(key1 int, key2 int)"@, "Session-level exclusive advisory lock. Blocks until acquired; must `pg_advisory_unlock`."@, "SELECT pg_advisory_lock(hashtext('user_42'));"@, "functions-admin.html#FUNCTIONS-ADVISORY-LOCKS"@))
        .insert("pg_advisory_lock_shared"@, function_v("pg_advisory_lock_shared"@, "pg_advisory_lock_shared(key bigint) -> void"@, "Session-level SHARED advisory lock -- multiple holders OK."@, "SELECT pg_advisory_lock_shared(42);"@, "functions-admin.html#FUNCTIONS-ADVISORY-LOCKS"@))
        .insert("pg_advisory_unlock"@, function_v("pg_advisory_unlock"@, "pg_advisory_unlock(key bigint) -> boolean"@, "Release one stack-frame of a session advisory lock. True if a frame was released."@, "SELECT pg_advisory_unlock(42);"@, "functions-admin.html#FUNCTIONS-ADVISORY-LOCKS"@))
        .insert("pg_advisory_unlock_shared"@, function_v("pg_advisory_unlock_shared"@, "pg_advisory_unlock_shared(key bigint) -> boolean"@, "Release a shared advisory lock."@, "SELECT pg_advisory_unlock_shared(42);"@, "functions-admin.html#FUNCTIONS-ADVISORY-LOCKS"@))
        .insert("pg_advisory_unlock_all"@, function_v("pg_advisory_unlock_all"@, "pg_advisory_unlock_all() -> void"@, "Release every session-level advisory lock held by this session."@, "SELECT pg_advisory_unlock_all();"@, "functions-admin.html#FUNCTIONS-ADVISORY-LOCKS"@))
        .insert("pg_advisory_xact_lock"@, function_v("pg_advisory_xact_lock"@, "pg_advisory_xact_lock(key bigint) -> void"@, "Transaction-scoped exclusive advisory lock -- auto-released at COMMIT/ROLLBACK."@, "BEGIN; SELECT pg_advisory_xact_lock(42); ...; COMMIT;"@, "functions-admin.html#FUNCTIONS-ADVISORY-LOCKS"@))
        .insert("pg_advisory_xact_lock_shared"@, function_v("pg_advisory_xact_lock_shared"@, "pg_advisory_xact_lock_shared(key bigint) -> void"@, "Transaction-scoped SHARED advisory lock."@, "SELECT pg_advisory_xact_lock_shared(42);"@, "functions-admin.html#FUNCTIONS-ADVISORY-LOCKS"@))
        .insert("pg_try_advisory_lock"@, function_v("pg_try_advisory_lock"@, "pg_try_advisory_lock(key bigint) -> boolean"@, "Non-blocking acquire of session advisory lock. False when busy."@, "SELECT pg_try_advisory_lock(42);"@, "functions-admin.html#FUNCTIONS-ADVISORY-LOCKS"@))
        .insert("pg_try_advisory_lock_shared"@, function_v("pg_try_advisory_lock_shared"@, "pg_try_advisory_lock_shared(key bigint) -> boolean"@, "Non-blocking shared advisory lock acquire."@, "SELECT pg_try_advisory_lock_shared(42);"@, "functions-admin.html#FUNCTIONS-ADVISORY-LOCKS"@))
        .insert("pg_try_advisory_xact_lock"@, function_v("pg_try_advisory_xact_lock"@, "pg_try_advisory_xact_lock(key bigint) -> boolean"@, "Non-blocking transaction-scoped exclusive advisory lock."@, "SELECT pg_try_advisory_xact_lock(42);"@, "functions-admin.html#FUNCTIONS-ADVISORY-LOCKS"@))
        .insert("pg_try_advisory_xact_lock_shared"@, function_v("pg_try_advisory_xact_lock_shared"@, "pg_try_advisory_xact_lock_shared(key bigint) -> boolean"@, "Non-blocking transaction-scoped shared advisory lock."@, "SELECT pg_try_advisory_xact_lock_shared(42);"@, "functions-admin.html#FUNCTIONS-ADVISORY-LOCKS"@))
        .insert("generate_series"@, function_v("generate_series"@, "generate_series(start, stop [, step]) -> setof int|bigint|numeric|timestamp"@, "Inclusive series. Step defaults to 1 (or `1 day` for timestamps). Negative step iterates downward."@, "SELECT * FROM generate_series(1, 10);\nSELECT * FROM generate_series(date '2026-01-01', date '2026-12-31', interval '1 month');"@, "functions-srf.html"@))
        .insert("pg_sleep"@, function_v("pg_sleep"@, "pg_sleep(seconds double precision) -> void"@, "Sleep server-side for N seconds."@, "SELECT pg_sleep(0.5);"@, "functions-datetime.html#FUNCTIONS-DATETIME-DELAY"@))
        .insert("pg_sleep_for"@, function_v("pg_sleep_for"@, "pg_sleep_for(interval) -> void"@, "Sleep server-side for an interval."@, "SELECT pg_sleep_for('2 seconds');"@, "functions-datetime.html#FUNCTIONS-DATETIME-DELAY"@))
        .insert("pg_sleep_until"@, function_v("pg_sleep_until"@, "pg_sleep_until(timestamptz) -> void"@, "Sleep until a timestamp."@, "SELECT pg_sleep_until(now() + interval '1 minute');"@, "functions-datetime.html#FUNCTIONS-DATETIME-DELAY"@))
        .insert("pg_cancel_backend"@, function_v("pg_cancel_backend"@, "pg_cancel_backend(pid int) -> boolean"@, "Signal cancel (like Ctrl-C) to a backend pid. Caller must be superuser or the same role."@, "SELECT pg_cancel_backend(12345);"@, "functions-admin.html#FUNCTIONS-ADMIN-SIGNAL"@))
        .insert("pg_terminate_backend"@, function_v("pg_terminate_backend"@, "pg_terminate_backend(pid int [, timeout int]) -> boolean"@, "Send SIGTERM to a backend pid. Stronger than cancel; closes the connection. Optional timeout (PG14+) waits for confirmation."@, "SELECT pg_terminate_backend(12345);"@, "functions-admin.html#FUNCTIONS-ADMIN-SIGNAL"@))
        .insert("pg_stat_reset"@, function_v("pg_stat_reset"@, "pg_stat_reset() -> void"@, "Reset every cumulative stats counter in the current DB."@, "SELECT pg_stat_reset();"@, "monitoring-stats.html#MONITORING-STATS-FUNCTIONS"@))
        .insert("pg_stat_reset_shared"@, function_v("pg_stat_reset_shared"@, "pg_stat_reset_shared(target text) -> void"@, "Reset a specific cluster-wide stats target ('bgwriter', 'archiver', 'wal', ...)."@, "SELECT pg_stat_reset_shared('bgwriter');"@, "monitoring-stats.html#MONITORING-STATS-FUNCTIONS"@))
        .insert("pg_stat_reset_single_table_counters"@, function_v("pg_stat_reset_single_table_counters"@, "pg_stat_reset_single_table_counters(regclass) -> void"@, "Reset stats for one table only."@, "SELECT pg_stat_reset_single_table_counters('users'::regclass);"@, "monitoring-stats.html#MONITORING-STATS-FUNCTIONS"@))
        .insert("pg_stat_reset_single_function_counters"@, function_v("pg_stat_reset_single_function_counters"@, "pg_stat_reset_single_function_counters(regprocedure) -> void"@, "Reset stats for one function only."@, "SELECT pg_stat_reset_single_function_counters('now()'::regprocedure);"@, "monitoring-stats.html#MONITORING-STATS-FUNCTIONS"@))
        .insert("pg_is_other_temp_schema"@, function_v("pg_is_other_temp_schema"@, "pg_is_other_temp_schema(oid) -> boolean"@, "True when the schema is a temp schema belonging to another session."@, "SELECT pg_is_other_temp_schema(nspid) FROM pg_namespace;"@, "functions-info.html#FUNCTIONS-INFO-CATALOG"@))
        .insert("pg_get_viewdef"@, function_v("pg_get_viewdef"@, "pg_get_viewdef(view_oid|view_name regclass [, pretty boolean | wrap_column int]) -> text"@, "Return the underlying SELECT for a view."@, "SELECT pg_get_viewdef('public.v_user_summary', true);"@, "functions-info.html#FUNCTIONS-INFO-CATALOG"@))
        .insert("pg_get_indexdef"@, function_v("pg_get_indexdef"@, "pg_get_indexdef(index_oid regclass [, column int, pretty boolean]) -> text"@, "Reconstruct `CREATE INDEX` DDL."@, "SELECT pg_get_indexdef('users_email_idx'::regclass);"@, "functions-info.html#FUNCTIONS-INFO-CATALOG"@))
        .insert("pg_get_constraintdef"@, function_v("pg_get_constraintdef"@, "pg_get_constraintdef(constraint_oid [, pretty boolean]) -> text"@, "Reconstruct the constraint definition (USING / CHECK / FK clauses)."@, "SELECT conname, pg_get_constraintdef(oid) FROM pg_constraint WHERE conrelid = 'users'::regclass;"@, "functions-info.html#FUNCTIONS-INFO-CATALOG"@))
        .insert("pg_get_functiondef"@, function_v("pg_get_functiondef"@, "pg_get_functiondef(function_oid regprocedure) -> text"@, "Reconstruct full `CREATE OR REPLACE FUNCTION` DDL."@, "SELECT pg_get_functiondef('my_fn(int)'::regprocedure);"@, "functions-info.html#FUNCTIONS-INFO-CATALOG"@))
        .insert("pg_get_triggerdef"@, function_v("pg_get_triggerdef"@, "pg_get_triggerdef(trigger_oid [, pretty boolean]) -> text"@, "Reconstruct `CREATE TRIGGER` DDL."@, "SELECT pg_get_triggerdef(oid) FROM pg_trigger WHERE NOT tgisinternal;"@, "functions-info.html#FUNCTIONS-INFO-CATALOG"@))
        .insert("pg_get_userbyid"@, function_v("pg_get_userbyid"@, "pg_get_userbyid(role_oid) -> name"@, "Resolve a role OID to its name. Useful when joining catalog tables exposing OIDs."@, "SELECT pg_get_userbyid(relowner) FROM pg_class WHERE relname = 'users';"@, "functions-info.html#FUNCTIONS-INFO-CATALOG"@))
        .insert("pg_get_serial_sequence"@, function_v("pg_get_serial_sequence"@, "pg_get_serial_sequence(table_name text, column_name text) -> text"@, "Sequence backing a `serial`/`identity` column, fully qualified."@, "SELECT pg_get_serial_sequence('users', 'id');"@, "functions-info.html#FUNCTIONS-INFO-CATALOG"@))
        .insert("pg_get_expr"@, function_v("pg_get_expr"@, "pg_get_expr(node_tree pg_node_tree, relation regclass [, pretty boolean]) -> text"@, "Render a stored expression tree (e.g. column default, partition bound)."@, "SELECT attname, pg_get_expr(adbin, adrelid) FROM pg_attrdef JOIN pg_attribute USING (adrelid, adnum);"@, "functions-info.html#FUNCTIONS-INFO-CATALOG"@))
        .insert("pg_get_statisticsobjdef"@, function_v("pg_get_statisticsobjdef"@, "pg_get_statisticsobjdef(statistic_oid) -> text"@, "Reconstruct `CREATE STATISTICS` DDL."@, "SELECT pg_get_statisticsobjdef(oid) FROM pg_statistic_ext;"@, "functions-info.html#FUNCTIONS-INFO-CATALOG"@))
        .insert("pg_relation_filepath"@, function_v("pg_relation_filepath"@, "pg_relation_filepath(regclass) -> text"@, "Filesystem path (relative to data dir) of a relation's main fork."@, "SELECT pg_relation_filepath('users');"@, "functions-admin.html#FUNCTIONS-ADMIN-DBLOCATION"@))
        .insert("pg_filenode_relation"@, function_v("pg_filenode_relation"@, "pg_filenode_relation(tablespace_oid oid, filenode oid) -> regclass"@, "Inverse of `pg_relation_filenode`."@, "SELECT pg_filenode_relation(1663, 16384);"@, "functions-admin.html#FUNCTIONS-ADMIN-DBLOCATION"@))
        .insert("pg_log_backend_memory_contexts"@, function_v("pg_log_backend_memory_contexts"@, "pg_log_backend_memory_contexts(pid int) -> boolean"@, "Write target backend's memory contexts to the server log (PG14+)."@, "SELECT pg_log_backend_memory_contexts(12345);"@, "functions-admin.html#FUNCTIONS-ADMIN-SERVER-SIGNALING"@))
        .insert("pg_typeof"@, function_v("pg_typeof"@, "pg_typeof(\"any\") -> regtype"@, "Return the type of the expression as a regtype."@, "SELECT pg_typeof(NULL::int);"@, "functions-info.html#FUNCTIONS-INFO-CATALOG"@))
        .insert("pg_column_compression"@, function_v("pg_column_compression"@, "pg_column_compression(\"any\") -> text"@, "Compression method used on a TOASTed value ('pglz', 'lz4', etc)."@, "SELECT pg_column_compression(body) FROM articles LIMIT 1;"@, "functions-info.html#FUNCTIONS-INFO-CATALOG"@))
        .insert("pg_tablespace_databases"@, function_v("pg_tablespace_databases"@, "pg_tablespace_databases(oid) -> setof oid"@, "Databases that have at least one object in the tablespace."@, "SELECT * FROM pg_tablespace_databases(1663);"@, "functions-admin.html"@))
        .insert("pg_tablespace_location"@, function_v("pg_tablespace_location"@, "pg_tablespace_location(oid) -> text"@, "Filesystem path of a tablespace (empty for pg_default / pg_global)."@, "SELECT pg_tablespace_location(oid) FROM pg_tablespace;"@, "functions-admin.html"@))
        .insert("pg_options_to_table"@, function_v("pg_options_to_table"@, "pg_options_to_table(options_array text[]) -> setof (option_name text, option_value text)"@, "Expand a `name=value` array (as stored in pg_foreign_server etc) to rows."@, "SELECT * FROM pg_options_to_table(srvoptions) FROM pg_foreign_server;"@, "functions-info.html#FUNCTIONS-INFO-CATALOG"@))
        .insert("pg_safe_snapshot_blocking_pids"@, function_v("pg_safe_snapshot_blocking_pids"@, "pg_safe_snapshot_blocking_pids(pid int) -> int[]"@, "Pids holding the SERIALIZABLE snapshot a given pid is waiting for."@, "SELECT pg_safe_snapshot_blocking_pids(pg_backend_pid());"@, "functions-info.html#FUNCTIONS-INFO-SESSION"@))
        .insert("pg_isolation_test_session_is_blocked"@, function_v("pg_isolation_test_session_is_blocked"@, "pg_isolation_test_session_is_blocked(pid int, interesting_pids int[]) -> boolean"@, "Internal helper used by `isolationtester`. Mostly for PG dev/test."@, "SELECT pg_isolation_test_session_is_blocked(pid, ARRAY[other_pid]);"@, "functions-info.html"@))
        .insert("pg_collation_actual_version"@, function_v("pg_collation_actual_version"@, "pg_collation_actual_version(collation_oid) -> text"@, "OS-reported version of an ICU/libc collation -- compare with `pg_collation.collversion` to detect upgrades that break sort order."@, "SELECT collname, pg_collation_actual_version(oid) FROM pg_collation WHERE collprovider IN ('i','d');"@, "collation.html"@))
        .insert("pg_collation_for"@, function_v("pg_collation_for"@, "pg_collation_for(\"any\") -> text"@, "Collation of an expression as a quoted identifier."@, "SELECT pg_collation_for('hello'::text);"@, "functions-info.html#FUNCTIONS-INFO-CATALOG"@))
        .insert("pg_encoding_to_char"@, function_v("pg_encoding_to_char"@, "pg_encoding_to_char(encoding int) -> name"@, "Encoding id (pg_database.encoding) to its name."@, "SELECT pg_encoding_to_char(encoding) FROM pg_database;"@, "functions-info.html"@))
        .insert("pg_char_to_encoding"@, function_v("pg_char_to_encoding"@, "pg_char_to_encoding(text) -> int"@, "Encoding name to id."@, "SELECT pg_char_to_encoding('UTF8');"@, "functions-info.html"@))
        .insert("pg_client_encoding"@, function_v("pg_client_encoding"@, "pg_client_encoding() -> name"@, "Client encoding for the current session."@, "SELECT pg_client_encoding();"@, "functions-info.html"@))
        .insert("format_type"@, function_v("format_type"@, "format_type(type_oid oid, typmod int) -> text"@, "Pretty-print a type with its typmod (e.g. `numeric(12,2)`)."@, "SELECT format_type(atttypid, atttypmod) FROM pg_attribute WHERE attrelid = 'users'::regclass;"@, "functions-info.html#FUNCTIONS-INFO-CATALOG"@))
        .insert("pg_type_is_visible"@, function_v("pg_type_is_visible"@, "pg_type_is_visible(type_oid) -> boolean"@, "True when the type is reachable without schema-qualification under the current search_path."@, "SELECT pg_type_is_visible(oid) FROM pg_type WHERE typname = 'myenum';"@, "functions-info.html#FUNCTIONS-INFO-CATALOG"@))
        .insert("pg_table_is_visible"@, function_v("pg_table_is_visible"@, "pg_table_is_visible(table_oid) -> boolean"@, "True when the table/view/sequence is reachable without schema-qualification."@, "SELECT pg_table_is_visible('users'::regclass);"@, "functions-info.html#FUNCTIONS-INFO-CATALOG"@))
        .insert("pg_function_is_visible"@, function_v("pg_function_is_visible"@, "pg_function_is_visible(function_oid) -> boolean"@, "True when the function is reachable without schema-qualification."@, "SELECT pg_function_is_visible('now()'::regprocedure);"@, "functions-info.html#FUNCTIONS-INFO-CATALOG"@))
        .insert("pg_event_trigger_ddl_commands"@, function_v("pg_event_trigger_ddl_commands"@, "pg_event_trigger_ddl_commands() -> setof record"@, "From inside an event trigger: rows describing the DDL command(s) running."@, "-- inside event trigger body\nFOR r IN SELECT * FROM pg_event_trigger_ddl_commands() LOOP ... END LOOP;"@, "functions-event-triggers.html"@))
        .insert("pg_event_trigger_dropped_objects"@, function_v("pg_event_trigger_dropped_objects"@, "pg_event_trigger_dropped_objects() -> setof record"@, "From inside an `sql_drop` event trigger: rows for each dropped object."@, "FOR r IN SELECT * FROM pg_event_trigger_dropped_objects() LOOP ... END LOOP;"@, "functions-event-triggers.html"@))
        .insert("pg_event_trigger_table_rewrite_oid"@, function_v("pg_event_trigger_table_rewrite_oid"@, "pg_event_trigger_table_rewrite_oid() -> oid"@, "Inside a `table_rewrite` event trigger: OID of the table being rewritten."@, "SELECT pg_event_trigger_table_rewrite_oid();"@, "functions-event-triggers.html"@))
        .insert("pg_event_trigger_table_rewrite_reason"@, function_v("pg_event_trigger_table_rewrite_reason"@, "pg_event_trigger_table_rewrite_reason() -> int"@, "Bitmask describing why the table is being rewritten."@, "SELECT pg_event_trigger_table_rewrite_reason();"@, "functions-event-triggers.html"@))
        .insert("json_table"@, function_v("json_table"@, "JSON_TABLE(<json> '<jsonpath>' [PASSING ...] COLUMNS (...)) -- shred JSON to a relational result set (SQL:2023 / PG17+)."@, "Like XMLTABLE for JSON."@, "SELECT * FROM JSON_TABLE(j, '$.items[*]' COLUMNS (id INT PATH '$.id', name TEXT PATH '$.name'));"@, "functions-json.html#FUNCTIONS-SQLJSON-TABLE"@))
        .insert("jsonb_to_tsvector"@, function_v("jsonb_to_tsvector"@, "jsonb_to_tsvector([config,] jsonb, filter jsonb) -> tsvector"@, "Build a tsvector from JSON, filtered by element-type list ('[\"string\",\"numeric\"]' etc)."@, "SELECT jsonb_to_tsvector('english', j, '[\"string\"]');"@, "functions-textsearch.html#TEXTSEARCH-FUNCTIONS-TABLE"@))
        .insert("json_to_tsvector"@, function_v("json_to_tsvector"@, "json_to_tsvector([config,] json, filter jsonb) -> tsvector"@, "Same as `jsonb_to_tsvector` for `json`."@, "SELECT json_to_tsvector('english', j, '[\"all\"]');"@, "functions-textsearch.html#TEXTSEARCH-FUNCTIONS-TABLE"@))
        .insert("json_query"@, function_v("json_query"@, "JSON_QUERY(<json>, '<jsonpath>' [RETURNING <type>] [WRAPPER ...] [{ERROR|NULL|EMPTY ARRAY|EMPTY OBJECT|DEFAULT <e>} ON EMPTY|ON ERROR])"@, "SQL:2023 JSON_QUERY (PG17+) -- return JSON value(s) matching jsonpath; configurable behavior on empty/error."@, "SELECT JSON_QUERY(j, '$.tags' RETURNING jsonb NULL ON EMPTY);"@, "functions-json.html#FUNCTIONS-SQLJSON-QUERY"@))
        .insert("json_value"@, function_v("json_value"@, "JSON_VALUE(<json>, '<jsonpath>' [RETURNING <type>] [{ERROR|NULL|DEFAULT <e>} ON EMPTY|ON ERROR])"@, "SQL:2023 JSON_VALUE (PG17+) -- extract a single SQL scalar value."@, "SELECT JSON_VALUE(j, '$.user.id' RETURNING bigint DEFAULT 0 ON ERROR);"@, "functions-json.html#FUNCTIONS-SQLJSON-QUERY"@))
        .insert("json_exists"@, function_v("json_exists"@, "JSON_EXISTS(<json>, '<jsonpath>' [{TRUE|FALSE|UNKNOWN|ERROR} ON ERROR])"@, "SQL:2023 JSON_EXISTS (PG17+) -- boolean does-it-match."@, "SELECT JSON_EXISTS(j, '$.user.email');"@, "functions-json.html#FUNCTIONS-SQLJSON-QUERY"@))
        .insert("pg_input_is_valid"@, function_v("pg_input_is_valid"@, "pg_input_is_valid(input text, type text) -> boolean"@, "PG16+: would casting `input` to `type` succeed (without throwing)?"@, "SELECT pg_input_is_valid('42x', 'integer');"@, "functions-info.html#FUNCTIONS-INFO-CATALOG"@))
        .insert("pg_input_error_info"@, function_v("pg_input_error_info"@, "pg_input_error_info(input text, type text) -> setof (message text, detail text, hint text, sql_error_code text)"@, "PG16+: detail rows for why a cast would fail; empty when valid."@, "SELECT * FROM pg_input_error_info('42x', 'integer');"@, "functions-info.html#FUNCTIONS-INFO-CATALOG"@))
        .insert("ts_lexize"@, function_v("ts_lexize"@, "ts_lexize(dictionary regdictionary, token text) -> text[]"@, "Run a single token through an FTS dictionary; useful for debugging."@, "SELECT ts_lexize('english_stem', 'running');"@, "functions-textsearch.html#TEXTSEARCH-FUNCTIONS-TABLE"@))
        .insert("ts_token_type"@, function_v("ts_token_type"@, "ts_token_type([parser regconfig|name]) -> setof (tokid int, alias text, description text)"@, "Token types a parser can emit."@, "SELECT * FROM ts_token_type('default');"@, "functions-textsearch.html#TEXTSEARCH-FUNCTIONS-TABLE"@))
}

spec fn function_part_7(m: Map<Seq<char>, EntryV>) -> Map<Seq<char>, EntryV> {
    m
        .insert("ts_parse"@, function_v("ts_parse"@, "ts_parse(parser_name|oid, text) -> setof (tokid int, token text)"@, "Run a parser over text; useful for FTS debugging."@, "SELECT * FROM ts_parse('default', 'The quick brown fox');"@, "functions-textsearch.html#TEXTSEARCH-FUNCTIONS-TABLE"@))
        .insert("ts_debug"@, function_v("ts_debug"@, "ts_debug([config,] text) -> setof record"@, "Shows each token, its dictionaries, and lexemes -- the FTS debugging Swiss knife."@, "SELECT * FROM ts_debug('english', 'The quick brown fox');"@, "textsearch-debugging.html"@))
        .insert("pg_replication_origin_create"@, function_v("pg_replication_origin_create"@, "pg_replication_origin_create(node_name text) -> oid"@, "Create a replication origin identifier (logical replication / pglogical-style apply tracking)."@, "SELECT pg_replication_origin_create('upstream_1');"@, "functions-admin.html#FUNCTIONS-REPLICATION"@))
        .insert("pg_replication_origin_drop"@, function_v("pg_replication_origin_drop"@, "pg_replication_origin_drop(node_name text) -> void"@, "Delete a replication origin."@, "SELECT pg_replication_origin_drop('upstream_1');"@, "functions-admin.html#FUNCTIONS-REPLICATION"@))
        .insert("pg_replication_origin_session_setup"@, function_v("pg_replication_origin_session_setup"@, "pg_replication_origin_session_setup(node_name text) -> void"@, "Mark current session as applying changes from `node_name`. Pair with `_session_reset` at exit."@, "SELECT pg_replication_origin_session_setup('upstream_1');"@, "functions-admin.html#FUNCTIONS-REPLICATION"@))
        .insert("pg_replication_origin_session_reset"@, function_v("pg_replication_origin_session_reset"@, "pg_replication_origin_session_reset() -> void"@, "Clear the origin association on the current session."@, "SELECT pg_replication_origin_session_reset();"@, "functions-admin.html#FUNCTIONS-REPLICATION"@))
        .insert("pg_logical_slot_peek_changes"@, function_v("pg_logical_slot_peek_changes"@, "pg_logical_slot_peek_changes(slot_name name, upto_lsn pg_lsn, upto_nchanges int, VARIADIC options text[]) -> setof (lsn pg_lsn, xid xid, data text)"@, "Like `pg_logical_slot_get_changes` but does NOT advance the slot -- repeatable reads."@, "SELECT * FROM pg_logical_slot_peek_changes('my_slot', NULL, NULL);"@, "functions-admin.html#FUNCTIONS-REPLICATION"@))
        .insert("pg_logical_slot_get_binary_changes"@, function_v("pg_logical_slot_get_binary_changes"@, "pg_logical_slot_get_binary_changes(slot_name name, upto_lsn pg_lsn, upto_nchanges int, VARIADIC options text[]) -> setof (lsn pg_lsn, xid xid, data bytea)"@, "Drain a binary-output logical replication slot; consumes changes."@, "SELECT * FROM pg_logical_slot_get_binary_changes('my_slot', NULL, NULL);"@, "functions-admin.html#FUNCTIONS-REPLICATION"@))
        .insert("pg_logical_slot_peek_binary_changes"@, function_v("pg_logical_slot_peek_binary_changes"@, "pg_logical_slot_peek_binary_changes(slot_name name, upto_lsn pg_lsn, upto_nchanges int, VARIADIC options text[]) -> setof (lsn pg_lsn, xid xid, data bytea)"@, "Peek at binary changes without advancing the slot."@, "SELECT * FROM pg_logical_slot_peek_binary_changes('my_slot', NULL, NULL);"@, "functions-admin.html#FUNCTIONS-REPLICATION"@))
        .insert("pg_replication_origin_oid"@, function_v("pg_replication_origin_oid"@, "pg_replication_origin_oid(node_name text) -> oid"@, "OID of a named replication origin."@, "SELECT pg_replication_origin_oid('upstream_1');"@, "functions-admin.html#FUNCTIONS-REPLICATION"@))
        .insert("pg_replication_origin_session_progress"@, function_v("pg_replication_origin_session_progress"@, "pg_replication_origin_session_progress(flush boolean) -> pg_lsn"@, "Last applied LSN tracked for the session's origin."@, "SELECT pg_replication_origin_session_progress(true);"@, "functions-admin.html#FUNCTIONS-REPLICATION"@))
        .insert("pg_show_replication_origin_status"@, function_v("pg_show_replication_origin_status"@, "pg_show_replication_origin_status() -> setof (local_id oid, external_id text, remote_lsn pg_lsn, local_lsn pg_lsn)"@, "Snapshot of every replication origin's progress."@, "SELECT * FROM pg_show_replication_origin_status();"@, "functions-admin.html#FUNCTIONS-REPLICATION"@))
        .insert("pg_get_wal_resource_managers"@, function_v("pg_get_wal_resource_managers"@, "pg_get_wal_resource_managers() -> setof (rm_id int, rm_name text, rm_builtin boolean)"@, "PG15+: WAL resource managers known to the server (Heap, Btree, custom RMGRs)."@, "SELECT * FROM pg_get_wal_resource_managers();"@, "functions-admin.html#FUNCTIONS-CONTROLDATA"@))
        .insert("pg_get_wal_replay_pause_state"@, function_v("pg_get_wal_replay_pause_state"@, "pg_get_wal_replay_pause_state() -> text"@, "Standby-only: 'not paused' / 'pause requested' / 'paused'."@, "SELECT pg_get_wal_replay_pause_state();"@, "functions-admin.html#FUNCTIONS-RECOVERY-CONTROL"@))
        .insert("pg_is_wal_replay_paused"@, function_v("pg_is_wal_replay_paused"@, "pg_is_wal_replay_paused() -> boolean"@, "Standby-only: WAL replay currently paused?"@, "SELECT pg_is_wal_replay_paused();"@, "functions-admin.html#FUNCTIONS-RECOVERY-CONTROL"@))
        .insert("pg_wal_replay_pause"@, function_v("pg_wal_replay_pause"@, "pg_wal_replay_pause() -> void"@, "Standby-only: pause WAL replay."@, "SELECT pg_wal_replay_pause();"@, "functions-admin.html#FUNCTIONS-RECOVERY-CONTROL"@))
        .insert("pg_wal_replay_resume"@, function_v("pg_wal_replay_resume"@, "pg_wal_replay_resume() -> void"@, "Standby-only: resume WAL replay."@, "SELECT pg_wal_replay_resume();"@, "functions-admin.html#FUNCTIONS-RECOVERY-CONTROL"@))
        .insert("pg_notification_queue_usage"@, function_v("pg_notification_queue_usage"@, "pg_notification_queue_usage() -> double precision"@, "Fraction (0..1) of the global async-notify queue currently used. >0.5 = pageable."@, "SELECT pg_notification_queue_usage();"@, "functions-info.html#FUNCTIONS-INFO-SESSION"@))
        .insert("lo_create"@, function_v("lo_create"@, "lo_create(loid oid) -> oid"@, "Create a large object with the given OID (0 = pick free OID)."@, "SELECT lo_create(0);"@, "lo-funcs.html"@))
        .insert("lo_unlink"@, function_v("lo_unlink"@, "lo_unlink(loid oid) -> int"@, "Delete a large object."@, "SELECT lo_unlink(16385);"@, "lo-funcs.html"@))
        .insert("lo_open"@, function_v("lo_open"@, "lo_open(loid oid, mode int) -> int"@, "Open a large object; modes: INV_READ=0x40000, INV_WRITE=0x20000."@, "SELECT lo_open(16385, 0x40000);"@, "lo-funcs.html"@))
        .insert("lo_close"@, function_v("lo_close"@, "lo_close(fd int) -> int"@, "Close a large-object file descriptor."@, "SELECT lo_close(fd);"@, "lo-funcs.html"@))
        .insert("lo_read"@, function_v("lo_read"@, "lo_read(fd int, len int) -> bytea"@, "Read up to len bytes from a large-object fd."@, "SELECT lo_read(fd, 8192);"@, "lo-funcs.html"@))
        .insert("lo_write"@, function_v("lo_write"@, "lo_write(fd int, data bytea) -> int"@, "Write bytes to a large-object fd."@, "SELECT lo_write(fd, data);"@, "lo-funcs.html"@))
        .insert("lo_lseek"@, function_v("lo_lseek"@, "lo_lseek(fd int, offset int, whence int) -> int"@, "32-bit seek inside a large object. Whence: 0=SET, 1=CUR, 2=END."@, "SELECT lo_lseek(fd, 0, 0);"@, "lo-funcs.html"@))
        .insert("lo_lseek64"@, function_v("lo_lseek64"@, "lo_lseek64(fd int, offset bigint, whence int) -> bigint"@, "64-bit seek for large objects > 2 GB."@, "SELECT lo_lseek64(fd, 3000000000, 0);"@, "lo-funcs.html"@))
        .insert("lo_tell"@, function_v("lo_tell"@, "lo_tell(fd int) -> int"@, "Current offset (32-bit)."@, "SELECT lo_tell(fd);"@, "lo-funcs.html"@))
        .insert("lo_tell64"@, function_v("lo_tell64"@, "lo_tell64(fd int) -> bigint"@, "Current offset (64-bit)."@, "SELECT lo_tell64(fd);"@, "lo-funcs.html"@))
        .insert("lo_truncate"@, function_v("lo_truncate"@, "lo_truncate(fd int, len int) -> int"@, "Truncate (32-bit)."@, "SELECT lo_truncate(fd, 0);"@, "lo-funcs.html"@))
        .insert("lo_truncate64"@, function_v("lo_truncate64"@, "lo_truncate64(fd int, len bigint) -> int"@, "Truncate (64-bit)."@, "SELECT lo_truncate64(fd, 0);"@, "lo-funcs.html"@))
        .insert("lo_put"@, function_v("lo_put"@, "lo_put(loid oid, offset bigint, data bytea) -> void"@, "Overwrite bytes at offset -- whole-object form, no fd dance."@, "SELECT lo_put(16385, 0, '\\xdeadbeef');"@, "lo-funcs.html"@))
        .insert("lo_get"@, function_v("lo_get"@, "lo_get(loid oid [, offset bigint, length int]) -> bytea"@, "Read part (or all) of a large object as bytea."@, "SELECT lo_get(16385, 0, 1024);"@, "lo-funcs.html"@))
        .insert("lo_from_bytea"@, function_v("lo_from_bytea"@, "lo_from_bytea(loid oid, data bytea) -> oid"@, "Create a large object from bytea."@, "SELECT lo_from_bytea(0, '\\xdeadbeef');"@, "lo-funcs.html"@))
        .insert("lo_export"@, function_v("lo_export"@, "lo_export(loid oid, file text) -> int"@, "Write a large object to a server-side file (superuser)."@, "SELECT lo_export(16385, '/tmp/blob.bin');"@, "lo-funcs.html"@))
        .insert("lo_import"@, function_v("lo_import"@, "lo_import(file text [, loid oid]) -> oid"@, "Load a server-side file into a large object (superuser)."@, "SELECT lo_import('/tmp/blob.bin');"@, "lo-funcs.html"@))
        .insert("pg_ls_dir"@, function_v("pg_ls_dir"@, "pg_ls_dir(dir text [, missing_ok boolean, include_dot_dirs boolean]) -> setof text"@, "List entries in a server-side directory (superuser or pg_read_server_files)."@, "SELECT pg_ls_dir('base');"@, "functions-admin.html#FUNCTIONS-ADMIN-GENFILE"@))
        .insert("pg_ls_logdir"@, function_v("pg_ls_logdir"@, "pg_ls_logdir() -> setof (name text, size bigint, modification timestamptz)"@, "List the server log directory contents."@, "SELECT * FROM pg_ls_logdir();"@, "functions-admin.html#FUNCTIONS-ADMIN-GENFILE"@))
        .insert("pg_ls_waldir"@, function_v("pg_ls_waldir"@, "pg_ls_waldir() -> setof (name text, size bigint, modification timestamptz)"@, "List pg_wal/."@, "SELECT * FROM pg_ls_waldir();"@, "functions-admin.html#FUNCTIONS-ADMIN-GENFILE"@))
        .insert("pg_ls_tmpdir"@, function_v("pg_ls_tmpdir"@, "pg_ls_tmpdir([tablespace oid]) -> setof (name text, size bigint, modification timestamptz)"@, "List the temp directory of a tablespace."@, "SELECT * FROM pg_ls_tmpdir();"@, "functions-admin.html#FUNCTIONS-ADMIN-GENFILE"@))
        .insert("pg_ls_archive_statusdir"@, function_v("pg_ls_archive_statusdir"@, "pg_ls_archive_statusdir() -> setof (name text, size bigint, modification timestamptz)"@, "List pg_wal/archive_status/."@, "SELECT * FROM pg_ls_archive_statusdir();"@, "functions-admin.html#FUNCTIONS-ADMIN-GENFILE"@))
        .insert("pg_read_file"@, function_v("pg_read_file"@, "pg_read_file(filename text [, offset bigint, length bigint [, missing_ok boolean]]) -> text"@, "Read a server-side file as text (superuser or pg_read_server_files)."@, "SELECT pg_read_file('postgresql.conf', 0, 4096);"@, "functions-admin.html#FUNCTIONS-ADMIN-GENFILE"@))
        .insert("pg_read_binary_file"@, function_v("pg_read_binary_file"@, "pg_read_binary_file(filename text [, offset bigint, length bigint [, missing_ok boolean]]) -> bytea"@, "Binary counterpart of `pg_read_file`."@, "SELECT length(pg_read_binary_file('PG_VERSION'));"@, "functions-admin.html#FUNCTIONS-ADMIN-GENFILE"@))
        .insert("pg_stat_file"@, function_v("pg_stat_file"@, "pg_stat_file(filename text [, missing_ok boolean]) -> record"@, "Server-side `stat()` info: size, modification, change, access, creation, isdir."@, "SELECT * FROM pg_stat_file('postgresql.conf');"@, "functions-admin.html#FUNCTIONS-ADMIN-GENFILE"@))
        .insert("dblink"@, function_v("dblink"@, "dblink(connstr text, sql text) -> setof record"@, "Execute a query on a remote PG via dblink and return rows. Caller supplies the AS (col types) list."@, "SELECT * FROM dblink('host=remote dbname=app', 'SELECT id, name FROM t') AS r(id int, name text);"@, "dblink.html"@))
        .insert("dblink_exec"@, function_v("dblink_exec"@, "dblink_exec(connstr text, sql text) -> text"@, "Execute a non-returning SQL on a remote server."@, "SELECT dblink_exec('myconn', 'INSERT INTO t VALUES (1)');"@, "dblink.html"@))
        .insert("dblink_connect"@, function_v("dblink_connect"@, "dblink_connect(name text, connstr text) -> text"@, "Open a named persistent dblink connection."@, "SELECT dblink_connect('myconn', 'host=remote dbname=app');"@, "dblink.html"@))
        .insert("dblink_disconnect"@, function_v("dblink_disconnect"@, "dblink_disconnect(name text) -> text"@, "Close a named dblink connection."@, "SELECT dblink_disconnect('myconn');"@, "dblink.html"@))
        .insert("dblink_get_connections"@, function_v("dblink_get_connections"@, "dblink_get_connections() -> text[]"@, "Names of all open dblink connections in this session."@, "SELECT dblink_get_connections();"@, "dblink.html"@))
        .insert("num_nonnulls"@, function_v("num_nonnulls"@, "num_nonnulls(VARIADIC \"any\") -> int"@, "Count non-NULL args (PG10+)."@, "SELECT num_nonnulls(a, b, c) FROM t;"@, "functions-comparison.html#FUNCTIONS-COMPARISON-FUNC-TABLE"@))
        .insert("num_nulls"@, function_v("num_nulls"@, "num_nulls(VARIADIC \"any\") -> int"@, "Count NULL args."@, "SELECT num_nulls(a, b, c) FROM t;"@, "functions-comparison.html#FUNCTIONS-COMPARISON-FUNC-TABLE"@))
        .insert("suppress_redundant_updates_trigger"@, function_v("suppress_redundant_updates_trigger"@, "suppress_redundant_updates_trigger() -> trigger"@, "BEFORE UPDATE trigger that skips the row update when nothing changed -- cheaper than recomputing in app code."@, "CREATE TRIGGER skip_noop BEFORE UPDATE ON t FOR EACH ROW EXECUTE FUNCTION suppress_redundant_updates_trigger();"@, "functions-trigger.html"@))
        .insert("tsmatchsel"@, function_v("tsmatchsel"@, "tsmatchsel(internal, oid, internal, int) -> double precision"@, "Selectivity-estimator for the `@@` FTS match operator. Internal -- referenced by `CREATE OPERATOR ... RESTRICT = tsmatchsel`."@, "-- internal"@, "internals/index-functions.html"@))
        .insert("tsmatchjoinsel"@, function_v("tsmatchjoinsel"@, "tsmatchjoinsel(internal, oid, internal, smallint, internal) -> double precision"@, "Join-selectivity estimator counterpart of `tsmatchsel`."@, "-- internal"@, "internals/index-functions.html"@))
        .insert("width_bucket"@, function_v("width_bucket"@, "width_bucket(value, low, high, count int) -> int | width_bucket(value, array) -> int"@, "Map value into one of N equiwidth buckets between low/high, or into a sorted-array bucket. Useful for histograms."@, "SELECT width_bucket(score, 0, 100, 10) AS bucket, count(*) FROM scores GROUP BY 1 ORDER BY 1;"@, "functions-math.html"@))
        .insert("bound_box"@, function_v("bound_box"@, "bound_box(box, box) -> box"@, "Smallest box containing both input boxes."@, "SELECT bound_box(box '(0,0),(1,1)', box '(2,2),(3,3)');"@, "functions-geometry.html"@))
        .insert("convert"@, function_v("convert"@, "convert(bytea, src_encoding text, dst_encoding text) -> bytea"@, "Convert bytes between encodings. Companion of `convert_from` / `convert_to`."@, "SELECT convert('\\xc3a9'::bytea, 'UTF8', 'LATIN1');"@, "functions-string.html#FUNCTIONS-STRING-OTHER"@))
        .insert("convert_from"@, function_v("convert_from"@, "convert_from(bytea, src_encoding text) -> text"@, "Decode bytes from a given encoding into a text value (using the server encoding)."@, "SELECT convert_from('\\xc3a9'::bytea, 'UTF8');"@, "functions-string.html#FUNCTIONS-STRING-OTHER"@))
        .insert("convert_to"@, function_v("convert_to"@, "convert_to(text, dst_encoding text) -> bytea"@, "Encode text into a target encoding's byte representation."@, "SELECT convert_to('café', 'LATIN1');"@, "functions-string.html#FUNCTIONS-STRING-OTHER"@))
        .insert("set_config"@, function_v("set_config"@, "set_config(setting_name text, new_value text, is_local boolean) -> text"@, "Equivalent of `SET`/`SET LOCAL`. Returns the new value as text."@, "SELECT set_config('statement_timeout', '5s', false);"@, "functions-admin.html#FUNCTIONS-ADMIN-SET"@))
        .insert("current_setting"@, function_v("current_setting"@, "current_setting(setting_name text [, missing_ok boolean]) -> text"@, "Equivalent of `SHOW`. Returns the current GUC value as text. `missing_ok` true returns NULL when unknown."@, "SELECT current_setting('search_path');"@, "functions-admin.html#FUNCTIONS-ADMIN-SET"@))
        .insert("cluster_name"@, function_v("cluster_name"@, "cluster_name -> text"@, "Server-wide cluster_name GUC (set in postgresql.conf or via ALTER SYSTEM)."@, "SELECT cluster_name;"@, "functions-info.html"@))
        .insert("pg_jit_available"@, function_v("pg_jit_available"@, "pg_jit_available() -> boolean"@, "True when the server has a JIT provider compiled in and `jit` GUC enabled."@, "SELECT pg_jit_available();"@, "functions-info.html"@))
        .insert("pg_index_column_has_property"@, function_v("pg_index_column_has_property"@, "pg_index_column_has_property(index_oid regclass, column_no int, property text) -> boolean"@, "Test per-column index capabilities (e.g. 'asc', 'desc', 'orderable', 'nulls_first')."@, "SELECT pg_index_column_has_property('users_email_idx'::regclass, 1, 'orderable');"@, "functions-info.html#FUNCTIONS-INFO-INDEX-COLUMN-PROPS"@))
        .insert("pg_index_has_property"@, function_v("pg_index_has_property"@, "pg_index_has_property(index_oid regclass, property text) -> boolean"@, "Test whole-index capabilities (e.g. 'returnable', 'distance_orderable')."@, "SELECT pg_index_has_property('users_email_idx'::regclass, 'distance_orderable');"@, "functions-info.html"@))
        .insert("pg_indexam_has_property"@, function_v("pg_indexam_has_property"@, "pg_indexam_has_property(am_oid oid, property text) -> boolean"@, "Test access-method-level capabilities (e.g. 'can_order', 'can_unique', 'can_multi_col')."@, "SELECT pg_indexam_has_property('btree'::regam, 'can_unique');"@, "functions-info.html"@))
        .insert("to_jsonb"@, function_v("to_jsonb"@, "to_jsonb(any) -> jsonb"@, "Convert any value to its JSONB representation."@, "SELECT to_jsonb(ARRAY[1,2,3]);"@, "functions-json.html#FUNCTIONS-JSON-CREATION-TABLE"@))
        .insert("json_strip_nulls"@, function_v("json_strip_nulls"@, "json_strip_nulls(json) -> json"@, "Recursively drop keys with NULL values from a JSON object."@, "SELECT json_strip_nulls('{\"a\":1,\"b\":null}'::json);"@, "functions-json.html#FUNCTIONS-JSON-PROCESSING-TABLE"@))
        .insert("json_array_length"@, function_v("json_array_length"@, "json_array_length(json) -> int"@, "Length of a JSON array."@, "SELECT json_array_length('[1,2,3]'::json);"@, "functions-json.html#FUNCTIONS-JSON-PROCESSING-TABLE"@))
        .insert("json_typeof"@, function_v("json_typeof"@, "json_typeof(json) -> text"@, "JSON type label: 'object'/'array'/'string'/'number'/'boolean'/'null'."@, "SELECT json_typeof('[1,2,3]'::json);"@, "functions-json.html#FUNCTIONS-JSON-PROCESSING-TABLE"@))
        .insert("json_extract_path"@, function_v("json_extract_path"@, "json_extract_path(json, variadic text[]) -> json"@, "Walk a JSON path (key-by-key) and return the matching JSON."@, "SELECT json_extract_path('{\"a\":{\"b\":1}}'::json, 'a', 'b');"@, "functions-json.html#FUNCTIONS-JSON-PROCESSING-TABLE"@))
        .insert("json_extract_path_text"@, function_v("json_extract_path_text"@, "json_extract_path_text(json, variadic text[]) -> text"@, "Same as `json_extract_path` but coerces the result to text."@, "SELECT json_extract_path_text('{\"a\":1}'::json, 'a');"@, "functions-json.html#FUNCTIONS-JSON-PROCESSING-TABLE"@))
        .insert("json_each"@, function_v("json_each"@, "json_each(json) -> setof (key text, value json)"@, "Iterate object's (key, value) pairs."@, "SELECT * FROM json_each('{\"a\":1,\"b\":2}'::json);"@, "functions-json.html#FUNCTIONS-JSON-PROCESSING-TABLE"@))
        .insert("json_each_text"@, function_v("json_each_text"@, "json_each_text(json) -> setof (key text, value text)"@, "Same as `json_each` but values cast to text."@, "SELECT * FROM json_each_text('{\"a\":1}'::json);"@, "functions-json.html#FUNCTIONS-JSON-PROCESSING-TABLE"@))
        .insert("json_object_keys"@, function_v("json_object_keys"@, "json_object_keys(json) -> setof text"@, "Top-level keys of a JSON object."@, "SELECT json_object_keys('{\"a\":1,\"b\":2}'::json);"@, "functions-json.html#FUNCTIONS-JSON-PROCESSING-TABLE"@))
        .insert("json_populate_recordset"@, function_v("json_populate_recordset"@, "json_populate_recordset(base anyelement, json) -> setof anyelement"@, "Materialise an array of JSON objects as rows of a target composite type."@, "SELECT * FROM json_populate_recordset(null::users, '[{\"id\":1},{\"id\":2}]'::json);"@, "functions-json.html#FUNCTIONS-JSON-PROCESSING-TABLE"@))
}

spec fn function_part_8(m: Map<Seq<char>, EntryV>) -> Map<Seq<char>, EntryV> {
    m
        .insert("to_regnamespace"@, function_v("to_regnamespace"@, "to_regnamespace(text) -> regnamespace"@, "Look up schema OID by name; NULL when missing."@, "SELECT to_regnamespace('public') IS NOT NULL;"@, "functions-info.html#FUNCTIONS-INFO-CATALOG"@))
        .insert("to_regrole"@, function_v("to_regrole"@, "to_regrole(text) -> regrole"@, "Look up role OID by name; NULL when missing."@, "SELECT to_regrole('postgres') IS NOT NULL;"@, "functions-info.html#FUNCTIONS-INFO-CATALOG"@))
        .insert("to_regoperator"@, function_v("to_regoperator"@, "to_regoperator(text) -> regoperator"@, "Look up operator OID by signature 'op(lt,rt)'; NULL when missing."@, "SELECT to_regoperator('+(int,int)') IS NOT NULL;"@, "functions-info.html#FUNCTIONS-INFO-CATALOG"@))
        .insert("hashtextextended"@, function_v("hashtextextended"@, "hashtextextended(text, seed bigint) -> bigint"@, "64-bit seeded hash of text. PG13+; used by hash partitioning and parallel ops."@, "SELECT hashtextextended('abc', 0);"@, "functions-binarystring.html"@))
        .insert("hashbpchar"@, function_v("hashbpchar"@, "hashbpchar(bpchar) -> int"@, "Internal hash of a fixed-length character. Referenced by hash index/AM definitions."@, "-- internal"@, "functions-binarystring.html"@))
        .insert("tsvector_to_array"@, function_v("tsvector_to_array"@, "tsvector_to_array(tsvector) -> text[]"@, "Project lexemes of a tsvector into a text[] (positions/weights dropped)."@, "SELECT tsvector_to_array(to_tsvector('a b c'));"@, "functions-textsearch.html#TEXTSEARCH-FUNCTIONS-TABLE"@))
        .insert("array_to_tsvector"@, function_v("array_to_tsvector"@, "array_to_tsvector(text[]) -> tsvector"@, "Build a tsvector from an array of lexemes (no normalization)."@, "SELECT array_to_tsvector(ARRAY['a','b','c']);"@, "functions-textsearch.html#TEXTSEARCH-FUNCTIONS-TABLE"@))
        .insert("ts_strip"@, function_v("ts_strip"@, "ts_strip(tsvector) -> tsvector"@, "Strip positions and weights from a tsvector."@, "SELECT ts_strip(to_tsvector('a:1A b:2'));"@, "functions-textsearch.html#TEXTSEARCH-FUNCTIONS-TABLE"@))
        .insert("ts_setweight"@, function_v("ts_setweight"@, "setweight(tsvector, weight char [, lexemes text[]]) -> tsvector"@, "Re-weight an entire tsvector (or only given lexemes) with A/B/C/D."@, "SELECT setweight(to_tsvector('quick fox'), 'A');"@, "functions-textsearch.html#TEXTSEARCH-FUNCTIONS-TABLE"@))
        .insert("ts_length"@, function_v("ts_length"@, "length(tsvector) -> int"@, "Number of distinct lexemes in a tsvector."@, "SELECT length(to_tsvector('a a b'));"@, "functions-textsearch.html#TEXTSEARCH-FUNCTIONS-TABLE"@))
        .insert("similarity"@, function_v("similarity"@, "similarity(text, text) -> real"@, "pg_trgm: trigram similarity in [0, 1]. 0 = no overlap, 1 = identical."@, "SELECT similarity('postgres', 'postgresql');"@, "pgtrgm.html"@))
        .insert("word_similarity"@, function_v("word_similarity"@, "word_similarity(text, text) -> real"@, "pg_trgm: best similarity of left-side phrase within right text."@, "SELECT word_similarity('post', 'postgres rocks');"@, "pgtrgm.html"@))
        .insert("strict_word_similarity"@, function_v("strict_word_similarity"@, "strict_word_similarity(text, text) -> real"@, "Stricter `word_similarity` that requires word boundaries on the right side."@, "SELECT strict_word_similarity('post', 'postgres rocks');"@, "pgtrgm.html"@))
        .insert("show_trgm"@, function_v("show_trgm"@, "show_trgm(text) -> text[]"@, "pg_trgm: trigrams the text decomposes into."@, "SELECT show_trgm('Postgres');"@, "pgtrgm.html"@))
        .insert("show_limit"@, function_v("show_limit"@, "show_limit() -> real"@, "pg_trgm: current similarity threshold for `%` operator."@, "SELECT show_limit();"@, "pgtrgm.html"@))
        .insert("set_limit"@, function_v("set_limit"@, "set_limit(real) -> real"@, "pg_trgm: set the similarity threshold for `%`."@, "SELECT set_limit(0.4);"@, "pgtrgm.html"@))
        .insert("box"@, function_v("box"@, "box(text|point,point|polygon|circle) -> box"@, "Construct or convert to a box."@, "SELECT box(point '(0,0)', point '(1,1)');"@, "functions-geometry.html"@))
        .insert("circle"@, function_v("circle"@, "circle(text|point, radius|box|polygon) -> circle"@, "Construct or convert to a circle."@, "SELECT circle(point '(0,0)', 5);"@, "functions-geometry.html"@))
        .insert("line"@, function_v("line"@, "line(point, point) -> line"@, "Construct an infinite line through two points."@, "SELECT line(point '(0,0)', point '(1,1)');"@, "functions-geometry.html"@))
        .insert("lseg"@, function_v("lseg"@, "lseg(point, point) -> lseg"@, "Construct a line segment between two points."@, "SELECT lseg(point '(0,0)', point '(1,1)');"@, "functions-geometry.html"@))
        .insert("path"@, function_v("path"@, "path(text|polygon) -> path"@, "Convert text/polygon into a path."@, "SELECT path(polygon '((0,0),(1,0),(1,1))');"@, "functions-geometry.html"@))
        .insert("point"@, function_v("point"@, "point(double precision, double precision) -> point"@, "Construct a point. Alias `(x, y)::point`."@, "SELECT point(1.0, 2.0);"@, "functions-geometry.html"@))
        .insert("polygon"@, function_v("polygon"@, "polygon(text|box|path|circle) -> polygon"@, "Construct or convert to a polygon."@, "SELECT polygon(box '(0,0),(1,1)');"@, "functions-geometry.html"@))
        .insert("circle_in"@, function_v("circle_in"@, "circle_in(cstring) -> circle"@, "Type-input function for `circle`. Called by the parser, rarely by users."@, "-- internal"@, "functions-geometry.html"@))
        .insert("box_in"@, function_v("box_in"@, "box_in(cstring) -> box"@, "Type-input function for `box`. Internal."@, "-- internal"@, "functions-geometry.html"@))
        .insert("extract"@, function_v("extract"@, "EXTRACT(<field> FROM <timestamp|interval>) -> double precision"@, "Pull a sub-field (year, month, day, dow, doy, epoch, ...) from a timestamp/interval."@, "SELECT EXTRACT(EPOCH FROM (now() - birth)) FROM users;"@, "functions-datetime.html#FUNCTIONS-DATETIME-EXTRACT"@))
        .insert("isfinite"@, function_v("isfinite"@, "isfinite(date|timestamp|interval) -> boolean"@, "True when the value is not `-infinity`/`infinity`."@, "SELECT isfinite(now());"@, "functions-datetime.html"@))
        .insert("timezone"@, function_v("timezone"@, "timezone(text, timestamp|timestamptz|time|timetz) -> ..."@, "Equivalent of `AT TIME ZONE`. Convert between zones."@, "SELECT timezone('UTC', now());"@, "functions-datetime.html#FUNCTIONS-DATETIME-ZONECONVERT"@))
        .insert("timeofday"@, function_v("timeofday"@, "timeofday() -> text"@, "Current wall-clock time as a human-readable string. Cheap debug helper."@, "SELECT timeofday();"@, "functions-datetime.html#FUNCTIONS-DATETIME-CURRENT"@))
        .insert("clock_timestamp"@, function_v("clock_timestamp"@, "clock_timestamp() -> timestamptz"@, "Real-time clock (changes within a statement). Compare with `now()` (transaction-time)."@, "SELECT clock_timestamp();"@, "functions-datetime.html#FUNCTIONS-DATETIME-CURRENT"@))
        .insert("transaction_timestamp"@, function_v("transaction_timestamp"@, "transaction_timestamp() -> timestamptz"@, "Alias of `now()` -- transaction start time."@, "SELECT transaction_timestamp();"@, "functions-datetime.html#FUNCTIONS-DATETIME-CURRENT"@))
        .insert("statement_timestamp"@, function_v("statement_timestamp"@, "statement_timestamp() -> timestamptz"@, "Current statement start time (constant within one statement)."@, "SELECT statement_timestamp();"@, "functions-datetime.html#FUNCTIONS-DATETIME-CURRENT"@))
        .insert("date_bin"@, function_v("date_bin"@, "date_bin(stride interval, source timestamp, origin timestamp) -> timestamp"@, "Snap a timestamp to the nearest stride-sized bin starting at `origin`. PG14+. Useful for time-series bucketing."@, "SELECT date_bin('15 minutes', now(), TIMESTAMP '2000-01-01');"@, "functions-datetime.html#FUNCTIONS-DATETIME-BIN"@))
        .insert("date_diff"@, function_v("date_diff"@, "date_diff(field text, a timestamp, b timestamp) -> bigint"@, "PG17+ helper: signed difference between two timestamps in whole units of `field` ('year','month','day','hour','minute','second',...)."@, "SELECT date_diff('day', '2026-01-01'::timestamp, now()::timestamp);"@, "functions-datetime.html"@))
        .insert("pg_get_function_arguments"@, function_v("pg_get_function_arguments"@, "pg_get_function_arguments(function_oid regprocedure) -> text"@, "Re-render a function's argument signature, including modes / defaults."@, "SELECT pg_get_function_arguments('my_fn(int)'::regprocedure);"@, "functions-info.html#FUNCTIONS-INFO-CATALOG"@))
        .insert("pg_get_function_result"@, function_v("pg_get_function_result"@, "pg_get_function_result(function_oid regprocedure) -> text"@, "Re-render a function's RETURNS clause."@, "SELECT pg_get_function_result('my_fn(int)'::regprocedure);"@, "functions-info.html#FUNCTIONS-INFO-CATALOG"@))
        .insert("ord"@, function_v("ord"@, "ord(text) -> int"@, "Unicode codepoint of the first character. PG17+; for older PGs use `ascii(left(s,1))`."@, "SELECT ord('A');"@, "functions-string.html#FUNCTIONS-STRING-OTHER"@))
        .insert("to_hex"@, function_v("to_hex"@, "to_hex(int|bigint) -> text"@, "Lowercase hex representation (no `0x` prefix)."@, "SELECT to_hex(255);"@, "functions-string.html#FUNCTIONS-STRING-OTHER"@))
        .insert("array_subscript"@, function_v("array_subscript"@, "array_subscript_handler -- internal type-specific subscript routing"@, "Internal type-support function plugged into custom-type subscript handlers (PG14+ subscriptable types)."@, "-- internal"@, "functions-array.html"@))
        .insert("hash_array"@, function_v("hash_array"@, "hash_array(anyarray) -> int"@, "Internal hash of an array. Referenced by hash index/joins."@, "-- internal"@, "functions-array.html"@))
        .insert("bit_count"@, function_v("bit_count"@, "bit_count(bytea|bit) -> bigint"@, "Number of set bits (population count). PG14+."@, "SELECT bit_count('\\xff'::bytea);"@, "functions-binarystring.html"@))
        .insert("array_sample"@, function_v("array_sample"@, "array_sample(array anyarray, n int) -> anyarray"@, "Return n elements sampled without replacement (PG16+)."@, "SELECT array_sample(ARRAY[1,2,3,4,5], 2);"@, "functions-array.html#FUNCTIONS-ARRAY-TABLE"@))
        .insert("array_shuffle"@, function_v("array_shuffle"@, "array_shuffle(anyarray) -> anyarray"@, "Return the array elements in random order (PG16+)."@, "SELECT array_shuffle(ARRAY[1,2,3,4,5]);"@, "functions-array.html#FUNCTIONS-ARRAY-TABLE"@))
        .insert("range_intersect_agg"@, function_v("range_intersect_agg"@, "range_intersect_agg(anyrange) -> anyrange"@, "Aggregate the intersection of a set of ranges. PG14+."@, "SELECT range_intersect_agg(period) FROM availability WHERE resource_id = 1;"@, "functions-aggregate.html#FUNCTIONS-AGGREGATE-TABLE"@))
        .insert("pg_get_catalog_foreign_keys"@, function_v("pg_get_catalog_foreign_keys"@, "pg_get_catalog_foreign_keys() -> setof record(fktable, fkcols, pktable, pkcols, is_array, is_opt)"@, "Hard-coded FK relationships between pg_catalog tables (PG14+)."@, "SELECT * FROM pg_get_catalog_foreign_keys();"@, "functions-info.html#FUNCTIONS-INFO-CATALOG"@))
        .insert("pg_get_partition_constraintdef"@, function_v("pg_get_partition_constraintdef"@, "pg_get_partition_constraintdef(oid) -> text"@, "Reconstruct the CHECK constraint implied by a partition's bounds."@, "SELECT pg_get_partition_constraintdef('events_2025'::regclass::oid);"@, "functions-info.html#FUNCTIONS-INFO-CATALOG"@))
        .insert("pg_partition_root"@, function_v("pg_partition_root"@, "pg_partition_root(regclass) -> regclass"@, "Return the topmost parent of a partitioned-table tree."@, "SELECT pg_partition_root('events_2025'::regclass);"@, "functions-info.html#FUNCTIONS-INFO-CATALOG"@))
        .insert("pg_partition_ancestors"@, function_v("pg_partition_ancestors"@, "pg_partition_ancestors(regclass) -> setof regclass"@, "Each ancestor in the partitioning tree, root last."@, "SELECT * FROM pg_partition_ancestors('events_2025'::regclass);"@, "functions-info.html#FUNCTIONS-INFO-CATALOG"@))
        .insert("pg_partition_tree"@, function_v("pg_partition_tree"@, "pg_partition_tree(regclass) -> setof record(relid, parentid, isleaf, level)"@, "Walk a partitioned table top-down."@, "SELECT * FROM pg_partition_tree('events'::regclass);"@, "functions-info.html#FUNCTIONS-INFO-CATALOG"@))
        .insert("levenshtein"@, function_v("levenshtein"@, "levenshtein(s1 text, s2 text [, ins_cost int, del_cost int, sub_cost int]) -> int"@, "Edit distance with optional per-op costs. Requires `CREATE EXTENSION fuzzystrmatch`."@, "SELECT levenshtein('kitten', 'sitting');"@, "fuzzystrmatch.html#FUZZYSTRMATCH-LEVENSHTEIN"@))
        .insert("levenshtein_less_equal"@, function_v("levenshtein_less_equal"@, "levenshtein_less_equal(s1, s2, max int) -> int"@, "Like levenshtein() but bails out early when distance would exceed `max`. Faster on similar inputs."@, "SELECT levenshtein_less_equal('foo', 'fooz', 2);"@, "fuzzystrmatch.html#FUZZYSTRMATCH-LEVENSHTEIN"@))
        .insert("metaphone"@, function_v("metaphone"@, "metaphone(text, max_output_length int) -> text"@, "Metaphone phonetic key for English words. Extension fuzzystrmatch."@, "SELECT metaphone('Pittsburgh', 6);"@, "fuzzystrmatch.html#FUZZYSTRMATCH-METAPHONE"@))
        .insert("dmetaphone"@, function_v("dmetaphone"@, "dmetaphone(text) -> text"@, "Double-Metaphone primary code (improved Metaphone). Extension fuzzystrmatch."@, "SELECT dmetaphone('Pittsburgh');"@, "fuzzystrmatch.html#FUZZYSTRMATCH-DOUBLE-METAPHONE"@))
        .insert("dmetaphone_alt"@, function_v("dmetaphone_alt"@, "dmetaphone_alt(text) -> text"@, "Double-Metaphone alternate code (for ambiguous pronunciation). Extension fuzzystrmatch."@, "SELECT dmetaphone_alt('Pittsburgh');"@, "fuzzystrmatch.html#FUZZYSTRMATCH-DOUBLE-METAPHONE"@))
        .insert("soundex"@, function_v("soundex"@, "soundex(text) -> text"@, "Soundex code (legacy phonetic). Extension fuzzystrmatch."@, "SELECT soundex('Smith') = soundex('Smyth');"@, "fuzzystrmatch.html#FUZZYSTRMATCH-SOUNDEX"@))
        .insert("difference"@, function_v("difference"@, "difference(a text, b text) -> int"@, "Soundex distance: 0..4. Extension fuzzystrmatch."@, "SELECT difference('Smith', 'Smyth');"@, "fuzzystrmatch.html#FUZZYSTRMATCH-SOUNDEX"@))
        .insert("unaccent"@, function_v("unaccent"@, "unaccent([dict regdictionary,] text) -> text"@, "Strip accents using a tsearch dictionary (default `unaccent`). Extension unaccent."@, "SELECT unaccent('café');"@, "unaccent.html"@))
        .insert("ll_to_earth"@, function_v("ll_to_earth"@, "ll_to_earth(lat double, lon double) -> earth"@, "Convert a lat/lon to the cube-based `earth` type. Requires `cube` + `earthdistance`."@, "SELECT ll_to_earth(40.7, -74.0);"@, "earthdistance.html"@))
        .insert("earth_distance"@, function_v("earth_distance"@, "earth_distance(a earth, b earth) -> double precision"@, "Great-circle distance in meters. Requires cube + earthdistance."@, "SELECT earth_distance(ll_to_earth(40.7,-74.0), ll_to_earth(34.0,-118.0));"@, "earthdistance.html"@))
        .insert("crypt_check"@, function_v("crypt_check"@, "crypt(password, hash) -> text"@, "Verify by comparing a freshly-crypted password to a stored hash (constant-time-friendly). Pair with gen_salt."@, "SELECT (hash = crypt('plaintext', hash)) AS ok FROM users WHERE id = 1;"@, "pgcrypto.html#PGCRYPTO-PASSWORD-HASHING"@))
        .insert("random_normal"@, function_v("random_normal"@, "random_normal([mean double, stddev double]) -> double precision"@, "Normally-distributed random number (PG17+). Default mean 0, stddev 1."@, "SELECT random_normal(0.0, 1.0);"@, "functions-math.html"@))
        .insert("cosine_distance"@, function_at_v("cosine_distance"@, "cosine_distance(vector, vector) -> double precision"@, "1 - cosine similarity. Range [0, 2]. Requires `CREATE EXTENSION vector` (pgvector). Same as `<=>` operator."@, "SELECT cosine_distance(embedding, '[0.1, 0.2, 0.3]') FROM docs ORDER BY 1 LIMIT 5;"@, "https://github.com/pgvector/pgvector"@))
        .insert("l2_distance"@, function_at_v("l2_distance"@, "l2_distance(vector, vector) -> double precision"@, "Euclidean distance. Same as `<->` operator. pgvector."@, "SELECT l2_distance(embedding, query) FROM docs ORDER BY 1 LIMIT 5;"@, "https://github.com/pgvector/pgvector"@))
        .insert("inner_product"@, function_at_v("inner_product"@, "inner_product(vector, vector) -> double precision"@, "Dot product. Negated form (`<#>`) sorts low->high for KNN. pgvector."@, "SELECT inner_product(a, b) FROM vecs;"@, "https://github.com/pgvector/pgvector"@))
        .insert("l1_distance"@, function_at_v("l1_distance"@, "l1_distance(vector, vector) -> double precision"@, "Taxicab (Manhattan) distance. pgvector 0.5+."@, "SELECT l1_distance(a, b) FROM vecs;"@, "https://github.com/pgvector/pgvector"@))
        .insert("vector_dims"@, function_at_v("vector_dims"@, "vector_dims(vector) -> int"@, "Dimensionality of the vector."@, "SELECT vector_dims(embedding) FROM docs LIMIT 1;"@, "https://github.com/pgvector/pgvector"@))
        .insert("vector_norm"@, function_at_v("vector_norm"@, "vector_norm(vector) -> double precision"@, "L2 norm (magnitude). Use to normalize."@, "SELECT embedding / vector_norm(embedding) FROM docs;"@, "https://github.com/pgvector/pgvector"@))
        .insert("hamming_distance"@, function_at_v("hamming_distance"@, "hamming_distance(bit, bit) -> int"@, "Bit-wise hamming distance. pgvector also exposes a vector variant."@, "SELECT hamming_distance('1010', '1100');"@, "https://github.com/pgvector/pgvector"@))
        .insert("jaccard_distance"@, function_at_v("jaccard_distance"@, "jaccard_distance(bit, bit) -> double precision"@, "1 - Jaccard similarity. pgvector for binary vectors."@, "SELECT jaccard_distance('1010', '1100');"@, "https://github.com/pgvector/pgvector"@))
        .insert("akeys"@, function_v("akeys"@, "akeys(hstore) -> text[]"@, "Return all keys as a text array (sorted by storage order)."@, "SELECT akeys('a=>1,b=>2'::hstore);"@, "hstore.html"@))
        .insert("avals"@, function_v("avals"@, "avals(hstore) -> text[]"@, "Return all values as a text array."@, "SELECT avals('a=>1,b=>2'::hstore);"@, "hstore.html"@))
        .insert("skeys"@, function_v("skeys"@, "skeys(hstore) -> setof text"@, "Return keys as a row set."@, "SELECT * FROM skeys('a=>1,b=>2'::hstore);"@, "hstore.html"@))
        .insert("svals"@, function_v("svals"@, "svals(hstore) -> setof text"@, "Return values as a row set."@, "SELECT * FROM svals('a=>1,b=>2'::hstore);"@, "hstore.html"@))
        .insert("hstore_to_json"@, function_v("hstore_to_json"@, "hstore_to_json(hstore) -> json"@, "Convert hstore to JSON."@, "SELECT hstore_to_json('a=>1'::hstore);"@, "hstore.html"@))
        .insert("hstore_to_jsonb"@, function_v("hstore_to_jsonb"@, "hstore_to_jsonb(hstore) -> jsonb"@, "Convert hstore to JSONB (faster for storage/queries)."@, "SELECT hstore_to_jsonb('a=>1'::hstore);"@, "hstore.html"@))
}

spec fn function_part_9(m: Map<Seq<char>, EntryV>) -> Map<Seq<char>, EntryV> {
    m
        .insert("hstore_to_array"@, function_v("hstore_to_array"@, "hstore_to_array(hstore) -> text[]"@, "Flatten hstore to {k1, v1, k2, v2, ...} text array."@, "SELECT hstore_to_array('a=>1,b=>2'::hstore);"@, "hstore.html"@))
        .insert("hstore_to_matrix"@, function_v("hstore_to_matrix"@, "hstore_to_matrix(hstore) -> text[][]"@, "Convert hstore to a 2-dim array {{k,v},{k,v}}."@, "SELECT hstore_to_matrix('a=>1,b=>2'::hstore);"@, "hstore.html"@))
        .insert("populate_record"@, function_v("populate_record"@, "populate_record(base anyelement, hstore) -> anyelement"@, "Cast hstore into a record/row type, using `base` for shape."@, "SELECT populate_record(NULL::users, 'id=>1,name=>x'::hstore);"@, "hstore.html"@))
        .insert("each_hstore"@, function_v("each_hstore"@, "each(hstore) -> setof record(key text, value text)"@, "Decompose hstore into (key, value) rows."@, "SELECT * FROM each('a=>1,b=>2'::hstore);"@, "hstore.html"@))
        .insert("exist"@, function_v("exist"@, "exist(hstore, key text) -> boolean"@, "True when the hstore has the given key. Same as `?` operator."@, "SELECT exist(meta, 'priority') FROM jobs;"@, "hstore.html"@))
        .insert("defined"@, function_v("defined"@, "defined(hstore, key text) -> boolean"@, "True when key exists AND its value is not NULL."@, "SELECT defined(meta, 'tag') FROM jobs;"@, "hstore.html"@))
        .insert("pg_stat_statements"@, function_v("pg_stat_statements"@, "pg_stat_statements [(showtext boolean)] -> setof record(queryid, userid, dbid, calls, total_exec_time, mean_exec_time, rows, ...)"@, "Per-statement execution stats. Requires `CREATE EXTENSION pg_stat_statements` and `shared_preload_libraries`."@, "SELECT queryid, calls, mean_exec_time FROM pg_stat_statements ORDER BY mean_exec_time DESC LIMIT 10;"@, "pgstatstatements.html"@))
        .insert("pg_stat_statements_reset"@, function_v("pg_stat_statements_reset"@, "pg_stat_statements_reset([userid oid, dbid oid, queryid bigint]) -> setof bigint"@, "Reset stats for all entries, or just matching subset (PG14+)."@, "SELECT pg_stat_statements_reset();"@, "pgstatstatements.html"@))
        .insert("pg_stat_statements_info"@, function_v("pg_stat_statements_info"@, "pg_stat_statements_info() -> record(dealloc bigint, stats_reset timestamptz)"@, "Sidecar stats for pg_stat_statements itself (PG14+)."@, "SELECT * FROM pg_stat_statements_info();"@, "pgstatstatements.html"@))
        .insert("st_geomfromtext"@, function_at_v("st_geomfromtext"@, "ST_GeomFromText(wkt text [, srid int]) -> geometry"@, "Build a geometry from Well-Known Text. PostGIS."@, "SELECT ST_GeomFromText('POINT(-71.064544 42.28787)', 4326);"@, "https://postgis.net/docs/ST_GeomFromText.html"@))
        .insert("st_geomfromewkt"@, function_at_v("st_geomfromewkt"@, "ST_GeomFromEWKT(text) -> geometry"@, "EWKT variant that includes the SRID inline. PostGIS."@, "SELECT ST_GeomFromEWKT('SRID=4326;POINT(-71 42)');"@, "https://postgis.net/docs/ST_GeomFromEWKT.html"@))
        .insert("st_geomfromwkb"@, function_at_v("st_geomfromwkb"@, "ST_GeomFromWKB(bytea [, srid int]) -> geometry"@, "Build a geometry from Well-Known Binary. PostGIS."@, "SELECT ST_GeomFromWKB(decode('...', 'hex'), 4326);"@, "https://postgis.net/docs/ST_GeomFromWKB.html"@))
        .insert("st_point"@, function_at_v("st_point"@, "ST_Point(x double, y double [, srid int]) -> geometry"@, "Build a point. PostGIS 3.2+ adds the srid form; older versions need ST_SetSRID."@, "SELECT ST_Point(-71.0, 42.0, 4326);"@, "https://postgis.net/docs/ST_Point.html"@))
        .insert("st_makepoint"@, function_at_v("st_makepoint"@, "ST_MakePoint(x double, y double [, z, m]) -> geometry"@, "Same as ST_Point pre-3.2."@, "SELECT ST_MakePoint(-71.0, 42.0);"@, "https://postgis.net/docs/ST_MakePoint.html"@))
        .insert("st_setsrid"@, function_at_v("st_setsrid"@, "ST_SetSRID(geom geometry, srid int) -> geometry"@, "Stamp an SRID onto a geometry (no reprojection). PostGIS."@, "SELECT ST_SetSRID(ST_MakePoint(-71, 42), 4326);"@, "https://postgis.net/docs/ST_SetSRID.html"@))
        .insert("st_transform"@, function_at_v("st_transform"@, "ST_Transform(geom geometry, to_srid int) -> geometry"@, "Reproject between coordinate systems. PostGIS."@, "SELECT ST_Transform(geom, 3857) FROM places;"@, "https://postgis.net/docs/ST_Transform.html"@))
        .insert("st_astext"@, function_at_v("st_astext"@, "ST_AsText(geom geometry [, maxdecimals int]) -> text"@, "Format geometry as WKT. PostGIS."@, "SELECT ST_AsText(geom) FROM places LIMIT 1;"@, "https://postgis.net/docs/ST_AsText.html"@))
        .insert("st_asewkt"@, function_at_v("st_asewkt"@, "ST_AsEWKT(geom geometry) -> text"@, "WKT with SRID prefix. PostGIS."@, "SELECT ST_AsEWKT(geom) FROM places LIMIT 1;"@, "https://postgis.net/docs/ST_AsEWKT.html"@))
        .insert("st_asgeojson"@, function_at_v("st_asgeojson"@, "ST_AsGeoJSON(geom geometry [, maxdecimals int, options int]) -> text"@, "Format as GeoJSON. PostGIS."@, "SELECT ST_AsGeoJSON(geom, 6) FROM places;"@, "https://postgis.net/docs/ST_AsGeoJSON.html"@))
        .insert("st_srid"@, function_at_v("st_srid"@, "ST_SRID(geom geometry) -> int"@, "Spatial reference system id. 0 means unspecified."@, "SELECT ST_SRID(geom) FROM places LIMIT 1;"@, "https://postgis.net/docs/ST_SRID.html"@))
        .insert("st_geometrytype"@, function_at_v("st_geometrytype"@, "ST_GeometryType(geom geometry) -> text"@, "'ST_Point', 'ST_LineString', etc. Prefixed."@, "SELECT ST_GeometryType(geom) FROM places;"@, "https://postgis.net/docs/ST_GeometryType.html"@))
        .insert("st_within"@, function_at_v("st_within"@, "ST_Within(a geometry, b geometry) -> boolean"@, "True when a is completely inside b. PostGIS. Indexed by GiST when the args have spatial indexes."@, "SELECT * FROM places p WHERE ST_Within(p.geom, ST_GeomFromText('POLYGON(...)', 4326));"@, "https://postgis.net/docs/ST_Within.html"@))
        .insert("st_contains"@, function_at_v("st_contains"@, "ST_Contains(a, b geometry) -> boolean"@, "Mirror of ST_Within. PostGIS."@, "SELECT ST_Contains(poly, point) FROM ...;"@, "https://postgis.net/docs/ST_Contains.html"@))
        .insert("st_intersects"@, function_at_v("st_intersects"@, "ST_Intersects(a, b geometry) -> boolean"@, "True when geometries share at least one point. PostGIS."@, "SELECT * FROM roads WHERE ST_Intersects(geom, ST_Buffer(town_geom, 100));"@, "https://postgis.net/docs/ST_Intersects.html"@))
        .insert("st_disjoint"@, function_at_v("st_disjoint"@, "ST_Disjoint(a, b geometry) -> boolean"@, "Mirror of ST_Intersects."@, "SELECT ST_Disjoint(a, b) FROM ...;"@, "https://postgis.net/docs/ST_Disjoint.html"@))
        .insert("st_dwithin"@, function_at_v("st_dwithin"@, "ST_DWithin(a, b geometry, distance double precision [, use_spheroid boolean]) -> boolean"@, "True when geometries are within `distance` meters. Crucial for KNN/radius queries. PostGIS."@, "SELECT * FROM places WHERE ST_DWithin(geom::geography, ST_MakePoint(lon, lat)::geography, 1000);"@, "https://postgis.net/docs/ST_DWithin.html"@))
        .insert("st_distance"@, function_at_v("st_distance"@, "ST_Distance(a, b geometry) -> double precision | ST_Distance(a, b geography [, use_spheroid]) -> double precision (meters)"@, "Shortest distance between geometries."@, "SELECT ST_Distance(a, b) FROM pairs;"@, "https://postgis.net/docs/ST_Distance.html"@))
        .insert("st_area"@, function_at_v("st_area"@, "ST_Area(geom geometry) -> double precision | ST_Area(geog geography) -> double precision (m²)"@, "Surface area. Casting to geography gives accurate metric results."@, "SELECT ST_Area(geom::geography) FROM polygons;"@, "https://postgis.net/docs/ST_Area.html"@))
        .insert("st_length"@, function_at_v("st_length"@, "ST_Length(geom geometry) -> double precision | (geography) -> meters"@, "Total length of linestrings."@, "SELECT ST_Length(geom::geography) FROM roads;"@, "https://postgis.net/docs/ST_Length.html"@))
        .insert("st_buffer"@, function_at_v("st_buffer"@, "ST_Buffer(geom geometry, distance double [, quad_segs int | options text]) -> geometry"@, "Expand geometry by `distance` (in units of SRID, or meters when cast to geography)."@, "SELECT ST_Buffer(point::geography, 1000) FROM places;"@, "https://postgis.net/docs/ST_Buffer.html"@))
        .insert("st_centroid"@, function_at_v("st_centroid"@, "ST_Centroid(geom geometry) -> geometry"@, "Geometric centroid (center of mass)."@, "SELECT ST_Centroid(geom) FROM polygons;"@, "https://postgis.net/docs/ST_Centroid.html"@))
        .insert("st_makeenvelope"@, function_at_v("st_makeenvelope"@, "ST_MakeEnvelope(xmin double, ymin double, xmax double, ymax double [, srid int]) -> geometry"@, "Build a rectangular polygon (bounding box)."@, "SELECT ST_MakeEnvelope(-180, -90, 180, 90, 4326);"@, "https://postgis.net/docs/ST_MakeEnvelope.html"@))
        .insert("create_parent"@, function_at_v("create_parent"@, "partman.create_parent(p_parent_table text, p_control text, p_type text, p_interval text, ...) -> boolean"@, "Bootstrap a partition set + its background trigger. pg_partman."@, "SELECT partman.create_parent('public.events', 'created_at', 'native', 'monthly');"@, "https://github.com/pgpartman/pg_partman"@))
        .insert("run_maintenance"@, function_at_v("run_maintenance"@, "partman.run_maintenance([p_parent_table text]) -> void"@, "Create new partitions ahead of time, drop old ones. Called by cron. pg_partman."@, "SELECT partman.run_maintenance('public.events');"@, "https://github.com/pgpartman/pg_partman"@))
        .insert("partition_data_time"@, function_at_v("partition_data_time"@, "partman.partition_data_time(p_parent_table text, p_batch_count int, ...) -> bigint"@, "Move rows from a default partition into the right child. pg_partman."@, "SELECT partman.partition_data_time('public.events');"@, "https://github.com/pgpartman/pg_partman"@))
        .insert("cron_schedule"@, function_at_v("cron_schedule"@, "cron.schedule(job_name text, schedule text, command text) -> bigint"@, "Schedule a SQL command on a 5-field cron string. Returns the new job id. pg_cron."@, "SELECT cron.schedule('clean-old-events', '0 3 * * *', $$ DELETE FROM events WHERE ts < now() - INTERVAL '90 days' $$);"@, "https://github.com/citusdata/pg_cron"@))
        .insert("cron_unschedule"@, function_at_v("cron_unschedule"@, "cron.unschedule(jobid bigint | job_name text) -> boolean"@, "Cancel a scheduled job. pg_cron."@, "SELECT cron.unschedule('clean-old-events');"@, "https://github.com/citusdata/pg_cron"@))
        .insert("cron_schedule_in_database"@, function_at_v("cron_schedule_in_database"@, "cron.schedule_in_database(job_name text, schedule text, command text, database text, [user text, active boolean]) -> bigint"@, "Schedule a job that runs against a specific database. pg_cron."@, "SELECT cron.schedule_in_database('analytics-refresh', '0 * * * *', 'REFRESH MATERIALIZED VIEW mv', 'analytics');"@, "https://github.com/citusdata/pg_cron"@))
        .insert("create_hypertable"@, function_at_v("create_hypertable"@, "create_hypertable(relation regclass, time_column_name name [, chunk_time_interval interval, ...]) -> record"@, "Convert a regular table into a TimescaleDB hypertable; partitions on time. Many optional knobs (space partitioning, migrate_data)."@, "SELECT create_hypertable('events', 'ts', chunk_time_interval => INTERVAL '1 day');"@, "https://docs.timescale.com/api/latest/hypertable/create_hypertable/"@))
        .insert("add_dimension"@, function_at_v("add_dimension"@, "add_dimension(hypertable regclass, column_name name [, number_partitions int | chunk_time_interval interval]) -> record"@, "Add an additional partitioning dimension (e.g. space partition)."@, "SELECT add_dimension('events', 'region_id', number_partitions => 4);"@, "https://docs.timescale.com/api/latest/hypertable/add_dimension/"@))
        .insert("add_compression_policy"@, function_at_v("add_compression_policy"@, "add_compression_policy(hypertable regclass, compress_after interval, [if_not_exists boolean]) -> int"@, "Auto-compress chunks older than `compress_after`. TimescaleDB."@, "SELECT add_compression_policy('events', INTERVAL '30 days');"@, "https://docs.timescale.com/api/latest/compression/add_compression_policy/"@))
        .insert("add_retention_policy"@, function_at_v("add_retention_policy"@, "add_retention_policy(hypertable regclass, drop_after interval, [if_not_exists boolean]) -> int"@, "Auto-drop chunks older than `drop_after`. TimescaleDB."@, "SELECT add_retention_policy('events', INTERVAL '1 year');"@, "https://docs.timescale.com/api/latest/data_retention/add_retention_policy/"@))
        .insert("add_continuous_aggregate_policy"@, function_at_v("add_continuous_aggregate_policy"@, "add_continuous_aggregate_policy(cagg regclass, start_offset interval, end_offset interval, schedule_interval interval) -> int"@, "Schedule incremental refresh of a continuous aggregate (materialized view of time bucket aggregates)."@, "SELECT add_continuous_aggregate_policy('events_5m', INTERVAL '1 month', INTERVAL '5 minutes', INTERVAL '5 minutes');"@, "https://docs.timescale.com/api/latest/continuous-aggregates/add_continuous_aggregate_policy/"@))
        .insert("time_bucket"@, function_at_v("time_bucket"@, "time_bucket(bucket_width interval, ts timestamp [, origin timestamp]) -> timestamp"@, "Snap timestamp to the nearest bucket. TimescaleDB."@, "SELECT time_bucket('5 minutes', ts), avg(value) FROM metrics GROUP BY 1;"@, "https://docs.timescale.com/api/latest/hyperfunctions/time_bucket/"@))
        .insert("time_bucket_gapfill"@, function_at_v("time_bucket_gapfill"@, "time_bucket_gapfill(bucket_width interval, ts timestamp, start timestamp, finish timestamp) -> timestamp"@, "time_bucket + gap-fill missing buckets in [start, finish] range. TimescaleDB."@, "SELECT time_bucket_gapfill('5 minutes', ts, now() - INTERVAL '1 hour', now()), locf(avg(value)) FROM metrics GROUP BY 1;"@, "https://docs.timescale.com/api/latest/hyperfunctions/gapfilling/time_bucket_gapfill/"@))
        .insert("show_chunks"@, function_at_v("show_chunks"@, "show_chunks(hypertable regclass [, older_than interval, newer_than interval]) -> setof regclass"@, "List chunk OIDs of a hypertable."@, "SELECT show_chunks('events', older_than => INTERVAL '7 days');"@, "https://docs.timescale.com/api/latest/hypertable/show_chunks/"@))
        .insert("drop_chunks"@, function_at_v("drop_chunks"@, "drop_chunks(hypertable regclass, older_than interval) -> setof text"@, "Drop chunks older than the cutoff. TimescaleDB."@, "SELECT drop_chunks('events', INTERVAL '1 year');"@, "https://docs.timescale.com/api/latest/data_retention/drop_chunks/"@))
        .insert("locf"@, function_at_v("locf"@, "locf(value anyelement) -> anyelement"@, "Last-Observation-Carried-Forward fill; pair with time_bucket_gapfill. TimescaleDB."@, "SELECT time_bucket_gapfill('5m', ts, ...), locf(avg(value)) FROM metrics GROUP BY 1;"@, "https://docs.timescale.com/api/latest/hyperfunctions/gapfilling/locf/"@))
        .insert("interpolate"@, function_at_v("interpolate"@, "interpolate(value anyelement) -> double precision"@, "Linear interpolation of gap values. TimescaleDB."@, "SELECT time_bucket_gapfill('5m', ts, ...), interpolate(avg(value)) FROM metrics GROUP BY 1;"@, "https://docs.timescale.com/api/latest/hyperfunctions/gapfilling/interpolate/"@))
        .insert("first"@, function_at_v("first"@, "first(value anyelement, time timestamp) -> anyelement"@, "Return `value` from the row with the smallest `time`. TimescaleDB."@, "SELECT first(metric, ts) FROM events;"@, "https://docs.timescale.com/api/latest/hyperfunctions/first/"@))
        .insert("last"@, function_at_v("last"@, "last(value anyelement, time timestamp) -> anyelement"@, "Return `value` from the row with the largest `time`. TimescaleDB."@, "SELECT last(metric, ts) FROM events;"@, "https://docs.timescale.com/api/latest/hyperfunctions/last/"@))
        .insert("create_distributed_table"@, function_at_v("create_distributed_table"@, "create_distributed_table(table_name regclass, distribution_column text [, distribution_type text, colocate_with text]) -> void"@, "Shard a table by the chosen column. Citus."@, "SELECT create_distributed_table('events', 'user_id');"@, "https://docs.citusdata.com/en/stable/develop/api_udf.html#create-distributed-table"@))
        .insert("create_reference_table"@, function_at_v("create_reference_table"@, "create_reference_table(table_name regclass) -> void"@, "Replicate a small reference table to every worker. Citus."@, "SELECT create_reference_table('countries');"@, "https://docs.citusdata.com/en/stable/develop/api_udf.html#create-reference-table"@))
        .insert("citus_add_node"@, function_at_v("citus_add_node"@, "citus_add_node(node_name text, node_port int [, node_group int, ...]) -> int"@, "Register a new Citus worker."@, "SELECT citus_add_node('worker-3', 5432);"@, "https://docs.citusdata.com/en/stable/admin_guide/cluster_management.html"@))
        .insert("citus_remove_node"@, function_at_v("citus_remove_node"@, "citus_remove_node(node_name text, node_port int) -> void"@, "Deregister a worker. Drains shards first."@, "SELECT citus_remove_node('worker-3', 5432);"@, "https://docs.citusdata.com/en/stable/admin_guide/cluster_management.html"@))
        .insert("citus_shards"@, function_at_v("citus_shards"@, "citus_shards -- view exposing shard placement / size."@, "SELECT * FROM citus_shards ORDER BY shard_size DESC LIMIT 5;"@, "SELECT * FROM citus_shards LIMIT 5;"@, "https://docs.citusdata.com/en/stable/admin_guide/cluster_management.html"@))
        .insert("citus_rebalance_start"@, function_at_v("citus_rebalance_start"@, "citus_rebalance_start([rebalance_strategy text, drain_only boolean, shard_transfer_mode text]) -> bigint"@, "Kick off background rebalance. Citus."@, "SELECT citus_rebalance_start();"@, "https://docs.citusdata.com/en/stable/admin_guide/cluster_management.html"@))
        .insert("pgml_predict"@, function_at_v("pgml_predict"@, "pgml.predict(project text, features ...) -> double precision | anyarray"@, "Run inference using a registered model. PostgresML."@, "SELECT pgml.predict('churn_model', user_features) FROM users;"@, "https://postgresml.org/docs"@))
        .insert("pgml_embed"@, function_at_v("pgml_embed"@, "pgml.embed(transformer text, text text [, kwargs jsonb]) -> real[]"@, "Compute a text embedding using a HuggingFace model. PostgresML."@, "SELECT pgml.embed('intfloat/e5-small', 'hello world');"@, "https://postgresml.org/docs"@))
        .insert("pgml_chat"@, function_at_v("pgml_chat"@, "pgml.transform(task jsonb | text, inputs text[]) -> jsonb"@, "Run a HuggingFace pipeline (chat, summarization, classification). PostgresML."@, "SELECT pgml.transform('summarization', ARRAY['<long text>']);"@, "https://postgresml.org/docs"@))
        .insert("bit_xor"@, function_v("bit_xor"@, "bit_xor(int|bigint|bit) -> same"@, "Aggregate: bitwise XOR across rows. PG14+."@, "SELECT bit_xor(flags) FROM events;"@, "functions-aggregate.html#FUNCTIONS-AGGREGATE-TABLE"@))
        .insert("enum_first"@, function_v("enum_first"@, "enum_first(anyenum) -> anyenum"@, "First label of an enum type. Pass `NULL::<enum_t>` to specify type."@, "SELECT enum_first(NULL::mood);"@, "functions-enum.html"@))
        .insert("enum_last"@, function_v("enum_last"@, "enum_last(anyenum) -> anyenum"@, "Last label of an enum type."@, "SELECT enum_last(NULL::mood);"@, "functions-enum.html"@))
        .insert("enum_range"@, function_v("enum_range"@, "enum_range([from anyenum,] [to anyenum]) -> anyenum[]"@, "All labels of an enum (with optional inclusive bounds)."@, "SELECT enum_range('sad'::mood, 'happy'::mood);"@, "functions-enum.html"@))
        .insert("json_array"@, function_v("json_array"@, "JSON_ARRAY(<expr>[, ...]) -> json"@, "SQL:2023 array constructor (PG16+)."@, "SELECT JSON_ARRAY(1, 'two', true);"@, "functions-json.html#FUNCTIONS-SQLJSON-CREATION"@))
        .insert("json_object"@, function_v("json_object"@, "JSON_OBJECT(<key>: <val>[, ...] [ABSENT|NULL ON NULL] [UNIQUE]) -> json"@, "SQL:2023 object constructor (PG16+)."@, "SELECT JSON_OBJECT('id': 1, 'name': 'a');"@, "functions-json.html#FUNCTIONS-SQLJSON-CREATION"@))
        .insert("json_scalar"@, function_v("json_scalar"@, "JSON_SCALAR(<expr>) -> json"@, "SQL:2023 scalar constructor; promotes value to JSON."@, "SELECT JSON_SCALAR(42);"@, "functions-json.html#FUNCTIONS-SQLJSON-CREATION"@))
        .insert("json_serialize"@, function_v("json_serialize"@, "JSON_SERIALIZE(<json> [RETURNING <type>] [PRETTY]) -> text|bytea"@, "SQL:2023 JSON_SERIALIZE -- render a jsonb back to text."@, "SELECT JSON_SERIALIZE('{\"a\":1}'::jsonb RETURNING text PRETTY);"@, "functions-json.html#FUNCTIONS-SQLJSON-PROCESSING"@))
        .insert("jsonb_insert"@, function_v("jsonb_insert"@, "jsonb_insert(target jsonb, path text[], new_value jsonb [, insert_after boolean]) -> jsonb"@, "Insert into nested location at `path`. `insert_after` (default false) controls order around an existing array index."@, "SELECT jsonb_insert('[1,2,3]'::jsonb, '{1}', '99'::jsonb, false);"@, "functions-json.html#FUNCTIONS-JSON-PROCESSING-TABLE"@))
        .insert("pg_xact_status"@, function_v("pg_xact_status"@, "pg_xact_status(xid8) -> text"@, "Status of a transaction id: 'in progress' / 'committed' / 'aborted'. PG10+."@, "SELECT pg_xact_status(pg_current_xact_id());"@, "functions-info.html#FUNCTIONS-INFO-SNAPSHOT"@))
        .insert("pg_current_xact_id"@, function_v("pg_current_xact_id"@, "pg_current_xact_id() -> xid8"@, "Current transaction id (8-byte). Assigns one if none yet."@, "SELECT pg_current_xact_id();"@, "functions-info.html#FUNCTIONS-INFO-SNAPSHOT"@))
        .insert("pg_log_standby_snapshot"@, function_v("pg_log_standby_snapshot"@, "pg_log_standby_snapshot() -> pg_lsn"@, "Trigger a standby snapshot WAL record; used to let logical replication slots advance on a quiet system. PG14+."@, "SELECT pg_log_standby_snapshot();"@, "functions-admin.html#FUNCTIONS-ADMIN-SIGNALING"@))
        .insert("pg_trigger_depth"@, function_v("pg_trigger_depth"@, "pg_trigger_depth() -> int"@, "Current nesting depth of trigger invocations (0 outside triggers, 1 inside the outermost)."@, "SELECT pg_trigger_depth();"@, "functions-info.html#FUNCTIONS-INFO-SESSION"@))
        .insert("pg_log_query_plan"@, function_v("pg_log_query_plan"@, "pg_log_query_plan(pid int) -> boolean"@, "Ask another backend to log its currently-executing query plan. PG16+."@, "SELECT pg_log_query_plan(12345);"@, "functions-admin.html#FUNCTIONS-ADMIN-SIGNALING"@))
        .insert("pg_stat_have_stats"@, function_v("pg_stat_have_stats"@, "pg_stat_have_stats(stat_kind text, objoid oid, subobjoid int) -> boolean"@, "Ask whether a stats entry exists for a given object. PG15+."@, "SELECT pg_stat_have_stats('relation', 'users'::regclass::oid, 0);"@, "monitoring-stats.html#MONITORING-STATS-FUNCTIONS"@))
}

spec fn function_part_10(m: Map<Seq<char>, EntryV>) -> Map<Seq<char>, EntryV> {
    m
        .insert("pg_stat_reset_subscription_stats"@, function_v("pg_stat_reset_subscription_stats"@, "pg_stat_reset_subscription_stats(subid oid) -> void"@, "Reset cumulative subscription stats counters. PG15+."@, "SELECT pg_stat_reset_subscription_stats(NULL); -- all subscriptions"@, "monitoring-stats.html#MONITORING-STATS-FUNCTIONS"@))
        .insert("pg_stat_reset_slru"@, function_v("pg_stat_reset_slru"@, "pg_stat_reset_slru(target text) -> void"@, "Reset SLRU cache stats counters (CommitTs, MultiXactMember, ...). PG13+."@, "SELECT pg_stat_reset_slru(NULL); -- all SLRUs"@, "monitoring-stats.html#MONITORING-STATS-FUNCTIONS"@))
        .insert("pg_settings_get_flags"@, function_v("pg_settings_get_flags"@, "pg_settings_get_flags(guc_name text) -> text[]"@, "Introspect categorical flags on a GUC (NO_SHOW_ALL, NO_RESET_ALL, NOT_IN_SAMPLE, ...). PG15+."@, "SELECT pg_settings_get_flags('work_mem');"@, "functions-admin.html#FUNCTIONS-ADMIN-SET"@))
        .insert("pg_split_walfile_name"@, function_v("pg_split_walfile_name"@, "pg_split_walfile_name(name text) -> record"@, "Decompose a WAL filename into (segment_number, timeline_id). PG17+."@, "SELECT * FROM pg_split_walfile_name('000000010000000000000001');"@, "functions-admin.html#FUNCTIONS-ADMIN-BACKUP-TABLE"@))
        .insert("pg_get_acl"@, function_v("pg_get_acl"@, "pg_get_acl(classid oid, objid oid, objsubid int) -> aclitem[]"@, "Return the ACL of any cataloged object as the raw aclitem array. PG17+."@, "SELECT pg_get_acl('pg_class'::regclass::oid, 'users'::regclass::oid, 0);"@, "functions-info.html#FUNCTIONS-INFO-CATALOG"@))
        .insert("pg_get_loaded_modules"@, function_v("pg_get_loaded_modules"@, "pg_get_loaded_modules() -> setof record"@, "List of currently loaded shared libraries (name, version, modules). PG17+."@, "SELECT * FROM pg_get_loaded_modules();"@, "functions-admin.html#FUNCTIONS-ADMIN-DBOBJECT"@))
        .insert("pg_basetype"@, function_v("pg_basetype"@, "pg_basetype(regtype) -> regtype"@, "Strip domain wrappers and return the underlying base type. PG17+."@, "SELECT pg_basetype('positive_int'::regtype);"@, "functions-info.html#FUNCTIONS-INFO-CATALOG"@))
        .insert("pg_input_error_message"@, function_v("pg_input_error_message"@, "pg_input_error_message(input text, type text) -> text"@, "Like `pg_input_is_valid` but returns the error text on failure (NULL on success). PG16+."@, "SELECT pg_input_error_message('foo', 'int');"@, "functions-info.html#FUNCTIONS-INFO-VALIDITY"@))
        .insert("pg_signal_backend"@, function_v("pg_signal_backend"@, "pg_signal_backend(pid int, sig text) -> boolean"@, "Lower-level cousin of `pg_cancel_backend`/`pg_terminate_backend`. Restricted by pg_signal_backend role."@, "SELECT pg_signal_backend(12345, 'SIGINT');"@, "functions-admin.html#FUNCTIONS-ADMIN-SIGNALING"@))
        .insert("pg_xlog_replay_pause"@, function_v("pg_xlog_replay_pause"@, "pg_xlog_replay_pause() -> void"@, "Legacy alias of `pg_wal_replay_pause` (PG9.x). Removed in newer versions; use `pg_wal_replay_pause`."@, "SELECT pg_wal_replay_pause();"@, "functions-admin.html#FUNCTIONS-RECOVERY-CONTROL"@))
        .insert("pg_xlogfile_name"@, function_v("pg_xlogfile_name"@, "pg_xlogfile_name(lsn pg_lsn) -> text"@, "Legacy alias of `pg_walfile_name`. Use `pg_walfile_name`."@, "SELECT pg_walfile_name(pg_current_wal_lsn());"@, "functions-admin.html#FUNCTIONS-ADMIN-BACKUP-TABLE"@))
        .insert("inet_send"@, function_v("inet_send"@, "inet_send(inet) -> bytea"@, "Type-output (binary) function for `inet`. Internal -- emitted by binary COPY/wire format."@, "-- internal"@, "functions-net.html"@))
}

} // verus!
