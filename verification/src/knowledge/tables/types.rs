//! SQL data type table: each type with its doc, example and docs page.

use vstd::prelude::*;
use crate::knowledge::entry::{data_type, data_type_at, Kind, EntryV, data_type_v, data_type_at_v};
use crate::knowledge::table::Table;

verus! {

/// The table of all type entries. No label is listed twice.
pub fn build() -> (t: Table)
    ensures
        t.wf(),
        t.table_kind() == Kind::Type,
        t.contents() == type_map(),
{
    let mut t = Table::new(Kind::Type);
    part_0(&mut t);
    part_1(&mut t);
    t
}

fn part_0(t: &mut Table)
    requires
        old(t).wf(),
        old(t).table_kind() == Kind::Type,
    ensures
        final(t).wf(),
        final(t).table_kind() == Kind::Type,
        final(t).contents() == type_part_0(old(t).contents()),
{
    t.insert(data_type("BOOLEAN", "true / false / NULL.", "is_active BOOLEAN NOT NULL DEFAULT false", "datatype-boolean.html"));
    t.insert(data_type("SMALLINT", "2-byte signed integer.", "qty SMALLINT", "datatype-numeric.html"));
    t.insert(data_type("INTEGER", "4-byte signed integer. Alias INT.", "count INTEGER NOT NULL", "datatype-numeric.html"));
    t.insert(data_type("INT", "4-byte signed integer (alias for INTEGER).", "count INT NOT NULL", "datatype-numeric.html"));
    t.insert(data_type("INT2", "Postgres-internal name for SMALLINT (2-byte signed).", "qty INT2", "datatype-numeric.html"));
    t.insert(data_type("INT4", "Postgres-internal name for INTEGER (4-byte signed).", "count INT4", "datatype-numeric.html"));
    t.insert(data_type("INT8", "Postgres-internal name for BIGINT (8-byte signed).", "id INT8", "datatype-numeric.html"));
    t.insert(data_type("FLOAT4", "Postgres-internal name for REAL (4-byte IEEE float).", "weight FLOAT4", "datatype-numeric.html#DATATYPE-FLOAT"));
    t.insert(data_type("FLOAT8", "Postgres-internal name for DOUBLE PRECISION (8-byte float).", "ratio FLOAT8", "datatype-numeric.html#DATATYPE-FLOAT"));
    t.insert(data_type("DECIMAL", "Exact decimal. Synonym for NUMERIC.", "price DECIMAL(10, 2)", "datatype-numeric.html#DATATYPE-NUMERIC-DECIMAL"));
    t.insert(data_type("MONEY", "Currency amount. Locale-formatted. Prefer NUMERIC for portability.", "amount MONEY", "datatype-money.html"));
    t.insert(data_type("BOOL", "Alias for BOOLEAN.", "active BOOL NOT NULL DEFAULT false", "datatype-boolean.html"));
    t.insert(data_type("TIMETZ", "TIME WITH TIME ZONE -- rarely useful, see datatype docs for caveats.", "open_at TIMETZ", "datatype-datetime.html"));
    t.insert(data_type("CIDR", "IPv4 / IPv6 network. Stricter than INET (no host bits).", "subnet CIDR", "datatype-net-types.html"));
    t.insert(data_type("MACADDR", "6-byte MAC address.", "mac MACADDR", "datatype-net-types.html"));
    t.insert(data_type("MACADDR8", "8-byte EUI-64 MAC address.", "mac8 MACADDR8", "datatype-net-types.html"));
    t.insert(data_type("OID", "Object identifier. Internal Postgres reference type.", "ref OID", "datatype-oid.html"));
    t.insert(data_type("XML", "XML document. Stored as text; needs libxml support.", "payload XML", "datatype-xml.html"));
    t.insert(data_type("TSVECTOR", "Tokenised full-text search vector.", "search_doc TSVECTOR", "datatype-textsearch.html"));
    t.insert(data_type("TSQUERY", "Full-text search query.", "q TSQUERY", "datatype-textsearch.html"));
    t.insert(data_type("POINT", "Geometric point (x, y).", "p POINT", "datatype-geometric.html"));
    t.insert(data_type("LINE", "Geometric infinite line.", "l LINE", "datatype-geometric.html"));
    t.insert(data_type("BOX", "Geometric rectangular box.", "b BOX", "datatype-geometric.html"));
    t.insert(data_type("POLYGON", "Closed geometric polygon.", "shape POLYGON", "datatype-geometric.html"));
    t.insert(data_type("CIRCLE", "Geometric circle (center + radius).", "c CIRCLE", "datatype-geometric.html"));
    t.insert(data_type("BIGINT", "8-byte signed integer.", "id BIGINT", "datatype-numeric.html"));
    t.insert(data_type("NUMERIC", "Exact decimal with up to 1000 digits. `NUMERIC(precision, scale)` -- e.g. NUMERIC(10,2) \
        means 8 digits before the decimal and 2 after. Without (precision, scale) it stores any \
        scale up to system limits. Default text format omits trailing zeros; use `to_char(n, '999G999D00')` \
        for fixed formatting. Aliases: DECIMAL.", "price NUMERIC(10, 2) NOT NULL", "datatype-numeric.html#DATATYPE-NUMERIC-DECIMAL"));
    t.insert(data_type("REAL", "4-byte IEEE float.", "weight REAL", "datatype-numeric.html#DATATYPE-FLOAT"));
    t.insert(data_type("DOUBLE PRECISION", "8-byte IEEE float.", "ratio DOUBLE PRECISION", "datatype-numeric.html#DATATYPE-FLOAT"));
    t.insert(data_type("SERIAL", "Auto-incrementing INTEGER backed by a sequence.", "id SERIAL PRIMARY KEY", "datatype-numeric.html#DATATYPE-SERIAL"));
    t.insert(data_type("BIGSERIAL", "BIGINT auto-increment.", "id BIGSERIAL PRIMARY KEY", "datatype-numeric.html#DATATYPE-SERIAL"));
    t.insert(data_type("VARCHAR", "Variable-length character with optional length cap.", "name VARCHAR(255) NOT NULL", "datatype-character.html"));
    t.insert(data_type("TEXT", "Variable-length character with no cap. Default choice in Postgres.", "body TEXT NOT NULL", "datatype-character.html"));
    t.insert(data_type("CHAR", "Fixed-length, blank-padded.", "code CHAR(3)", "datatype-character.html"));
    t.insert(data_type("BYTEA", "Binary blob.", "avatar BYTEA", "datatype-binary.html"));
    t.insert(data_type("DATE", "Calendar date, no time, no zone. Default output is ISO 8601 `YYYY-MM-DD`. \
        Accepted inputs: `'2026-01-15'` (ISO), `'15-Jan-2026'`, `'20260115'`, `current_date`, \
        plus `DATE 'YYYY-MM-DD'` literals.", "birth_date DATE DEFAULT current_date", "datatype-datetime.html"));
    t.insert(data_type("TIME", "Time of day without time zone. Default output `HH24:MI:SS[.ffffff]`. \
        Accepted inputs: `'14:30'`, `'14:30:00'`, `'14:30:00.123456'`. \
        Use `TIME WITH TIME ZONE` (TIMETZ) for zone-aware values (rarely useful).", "open_at TIME DEFAULT '09:00'", "datatype-datetime.html"));
    t.insert(data_type("TIMESTAMP", "Date + time WITHOUT time zone. Default output `YYYY-MM-DD HH24:MI:SS[.ffffff]`. \
        Avoid for application data: use TIMESTAMPTZ instead so daylight-saving and \
        cross-region inserts stay correct. Accepted inputs: `'2026-01-15 14:30'`, \
        `'2026-01-15T14:30:00'`, `current_timestamp`.", "ts TIMESTAMP", "datatype-datetime.html"));
    t.insert(data_type("TIMESTAMPTZ", "Date + time WITH time zone. Storage is always UTC; the session `TimeZone` \
        decides input parsing and display. Default output `YYYY-MM-DD HH24:MI:SS+00`. \
        Accepted inputs: `'2026-01-15 14:30Z'`, `'2026-01-15 14:30+02'`, \
        `'2026-01-15 14:30:00 Europe/Berlin'`, `now()`, `current_timestamp`. \
        Formatting helpers: `to_char(ts, 'YYYY-MM-DD HH24:MI:SS TZ')`, \
        `to_char(ts, 'Day, DD Mon YYYY')`, `to_char(ts, 'IYYY-IW')` (ISO week).", "created_at TIMESTAMPTZ NOT NULL DEFAULT now()", "datatype-datetime.html"));
    t.insert(data_type("INTERVAL", "Time span. Accepted inputs: `INTERVAL '1 day 2 hours 3 minutes'`, \
        `INTERVAL '90 seconds'`, `INTERVAL '1-2'` (years-months), `INTERVAL 'P1DT2H'` (ISO 8601). \
        Field selectors: `INTERVAL '1' YEAR / MONTH / DAY / HOUR / MINUTE / SECOND`.", "deleted_after INTERVAL DEFAULT '30 days'", "datatype-datetime.html#DATATYPE-INTERVAL-INPUT"));
    t.insert(data_type("UUID", "128-bit identifier. Canonical text form: `'xxxxxxxx-xxxx-xxxx-xxxx-xxxxxxxxxxxx'`. \
        Generators: `gen_random_uuid()` (v4, Postgres 13+), `uuid_generate_v4()` (uuid-ossp). \
        Accepts hex with or without dashes; output is always dashed lowercase.", "id UUID PRIMARY KEY DEFAULT gen_random_uuid()", "datatype-uuid.html"));
    t.insert(data_type("JSON", "JSON stored verbatim. Whitespace and key order preserved. Slower for queries than JSONB. \
        Operators: `->` (key as json), `->>` (key as text), `#>` (path), `#>>` (path as text). \
        Validation happens on input.", "metadata JSON DEFAULT '{}'::json", "datatype-json.html"));
    t.insert(data_type("JSONB", "Binary JSON. Indexable, fast, the right default for application data. \
        Operators add `@>` (contains), `<@` (contained), `?` (key exists), `?|` (any), `?&` (all). \
        Build with `jsonb_build_object('k', v, ...)`; mutate with `jsonb_set(j, path, value)`.", "metadata JSONB NOT NULL DEFAULT '{}'::jsonb", "datatype-json.html"));
    t.insert(data_type("INET", "IPv4 / IPv6 host or network.", "client_ip INET", "datatype-net-types.html"));
    t.insert(data_type("INT4RANGE", "Range of integer. `'[1,10)'::int4range`. Use `@>` for containment, `&&` for overlap.", "valid_ids INT4RANGE", "rangetypes.html"));
    t.insert(data_type("INT8RANGE", "Range of bigint.", "id_window INT8RANGE", "rangetypes.html"));
    t.insert(data_type("NUMRANGE", "Range of numeric.", "price_band NUMRANGE", "rangetypes.html"));
    t.insert(data_type("TSRANGE", "Range of timestamp without time zone.", "valid TSRANGE", "rangetypes.html"));
    t.insert(data_type("TSTZRANGE", "Range of timestamp with time zone. The right default for time-bounded data.", "active TSTZRANGE NOT NULL", "rangetypes.html"));
    t.insert(data_type("DATERANGE", "Range of date.", "booking DATERANGE", "rangetypes.html"));
    t.insert(data_type("INT4MULTIRANGE", "Multirange of integer (PG 14+). Set of disjoint int4ranges.", "windows INT4MULTIRANGE", "rangetypes.html"));
    t.insert(data_type("INT8MULTIRANGE", "Multirange of bigint (PG 14+).", "windows INT8MULTIRANGE", "rangetypes.html"));
    t.insert(data_type("NUMMULTIRANGE", "Multirange of numeric (PG 14+).", "bands NUMMULTIRANGE", "rangetypes.html"));
    t.insert(data_type("TSMULTIRANGE", "Multirange of timestamp (PG 14+).", "windows TSMULTIRANGE", "rangetypes.html"));
    t.insert(data_type("TSTZMULTIRANGE", "Multirange of timestamp with time zone (PG 14+).", "active TSTZMULTIRANGE", "rangetypes.html"));
    t.insert(data_type("DATEMULTIRANGE", "Multirange of date (PG 14+).", "blackout DATEMULTIRANGE", "rangetypes.html"));
    t.insert(data_type("BIT", "Fixed-width bit string. BIT(n).", "flags BIT(8)", "datatype-bit.html"));
    t.insert(data_type("VARBIT", "Variable-width bit string. BIT VARYING(n).", "mask VARBIT(64)", "datatype-bit.html"));
    t.insert(data_type("SMALLSERIAL", "Auto-increment INT2. Sugar for INT2 + sequence + NOT NULL.", "id SMALLSERIAL PRIMARY KEY", "datatype-numeric.html#DATATYPE-SERIAL"));
    t.insert(data_type("PG_LSN", "Postgres log sequence number (8 bytes). Used for WAL positions.", "lsn PG_LSN", "datatype-pg-lsn.html"));
    t.insert(data_type("LSEG", "Geometric line segment.", "edge LSEG", "datatype-geometric.html"));
    t.insert(data_type("PATH", "Geometric path (closed or open).", "trail PATH", "datatype-geometric.html"));
    t.insert(data_type("REGCLASS", "OID alias for tables / sequences / views. Validates the name at parse.", "tbl REGCLASS", "datatype-oid.html"));
    t.insert(data_type("REGPROC", "OID alias for functions (no argument types).", "fn REGPROC", "datatype-oid.html"));
    t.insert(data_type("REGTYPE", "OID alias for types.", "ty REGTYPE", "datatype-oid.html"));
    t.insert(data_type("REGROLE", "OID alias for roles.", "r REGROLE", "datatype-oid.html"));
    t.insert(data_type("REGNAMESPACE", "OID alias for schemas.", "ns REGNAMESPACE", "datatype-oid.html"));
    t.insert(data_type("ANY", "Polymorphic pseudo-type accepted by functions; bound to a concrete type at call time.", "x ANY", "extend-type-system.html#EXTEND-TYPES-POLYMORPHIC"));
    t.insert(data_type("ANYARRAY", "Polymorphic pseudo-type accepted by functions; bound to a concrete type at call time.", "x ANYARRAY", "extend-type-system.html#EXTEND-TYPES-POLYMORPHIC"));
    t.insert(data_type("ANYCOMPATIBLE", "Polymorphic pseudo-type accepted by functions; bound to a concrete type at call time.", "x ANYCOMPATIBLE", "extend-type-system.html#EXTEND-TYPES-POLYMORPHIC"));
    t.insert(data_type("ANYCOMPATIBLEARRAY", "Polymorphic pseudo-type accepted by functions; bound to a concrete type at call time.", "x ANYCOMPATIBLEARRAY", "extend-type-system.html#EXTEND-TYPES-POLYMORPHIC"));
    t.insert(data_type("ANYCOMPATIBLEMULTIRANGE", "Polymorphic pseudo-type accepted by functions; bound to a concrete type at call time.", "x ANYCOMPATIBLEMULTIRANGE", "extend-type-system.html#EXTEND-TYPES-POLYMORPHIC"));
    t.insert(data_type("ANYCOMPATIBLENONARRAY", "Polymorphic pseudo-type accepted by functions; bound to a concrete type at call time.", "x ANYCOMPATIBLENONARRAY", "extend-type-system.html#EXTEND-TYPES-POLYMORPHIC"));
    t.insert(data_type("ANYCOMPATIBLERANGE", "Polymorphic pseudo-type accepted by functions; bound to a concrete type at call time.", "x ANYCOMPATIBLERANGE", "extend-type-system.html#EXTEND-TYPES-POLYMORPHIC"));
    t.insert(data_type("ANYELEMENT", "Polymorphic pseudo-type accepted by functions; bound to a concrete type at call time.", "x ANYELEMENT", "extend-type-system.html#EXTEND-TYPES-POLYMORPHIC"));
}

fn part_1(t: &mut Table)
    requires
        old(t).wf(),
        old(t).table_kind() == Kind::Type,
    ensures
        final(t).wf(),
        final(t).table_kind() == Kind::Type,
        final(t).contents() == type_part_1(old(t).contents()),
{
    t.insert(data_type("ANYENUM", "Polymorphic pseudo-type accepted by functions; bound to a concrete type at call time.", "x ANYENUM", "extend-type-system.html#EXTEND-TYPES-POLYMORPHIC"));
    t.insert(data_type("ANYMULTIRANGE", "Polymorphic pseudo-type accepted by functions; bound to a concrete type at call time.", "x ANYMULTIRANGE", "extend-type-system.html#EXTEND-TYPES-POLYMORPHIC"));
    t.insert(data_type("ANYNONARRAY", "Polymorphic pseudo-type accepted by functions; bound to a concrete type at call time.", "x ANYNONARRAY", "extend-type-system.html#EXTEND-TYPES-POLYMORPHIC"));
    t.insert(data_type("ANYRANGE", "Polymorphic pseudo-type accepted by functions; bound to a concrete type at call time.", "x ANYRANGE", "extend-type-system.html#EXTEND-TYPES-POLYMORPHIC"));
    t.insert(data_type("CSTRING", "Pseudo-type internal to PG -- not usable in user table columns.", "x CSTRING", "datatype-pseudo.html"));
    t.insert(data_type("DEC", "SQL standard alias for NUMERIC / DECIMAL.", "price DEC(10,2)", "datatype-numeric.html"));
    t.insert(data_type("EVENT_TRIGGER", "Pseudo-type internal to PG -- not usable in user table columns.", "x EVENT_TRIGGER", "datatype-pseudo.html"));
    t.insert(data_type("FDW_HANDLER", "Pseudo-type for the entry point of a feature handler. Cannot appear in user SQL.", "x FDW_HANDLER", "extend-type-system.html"));
    t.insert(data_type("INDEX_AM_HANDLER", "Pseudo-type for the entry point of a feature handler. Cannot appear in user SQL.", "x INDEX_AM_HANDLER", "extend-type-system.html"));
    t.insert(data_type("INTERNAL", "Pseudo-type internal to PG -- not usable in user table columns.", "x INTERNAL", "datatype-pseudo.html"));
    t.insert(data_type("JSONPATH", "JSONPath expression value -- used by jsonb_path_* functions.", "p JSONPATH", "datatype-json.html#DATATYPE-JSONPATH"));
    t.insert(data_type("LANGUAGE_HANDLER", "Pseudo-type for the entry point of a feature handler. Cannot appear in user SQL.", "x LANGUAGE_HANDLER", "extend-type-system.html"));
    t.insert(data_type("NAME", "63-byte identifier -- internal PG type used in pg_catalog rows.", "-- pg_catalog only", "datatype-character.html"));
    t.insert(data_type("NATIONAL CHAR", "SQL standard alias for CHARACTER (NCHAR = national char). PG treats them as plain text.", "c NATIONAL CHAR(20)", "datatype-character.html"));
    t.insert(data_type("NATIONAL CHARACTER", "SQL standard alias for CHARACTER (NCHAR = national char). PG treats them as plain text.", "c NATIONAL CHARACTER(20)", "datatype-character.html"));
    t.insert(data_type("NCHAR", "SQL standard alias for CHARACTER (NCHAR = national char). PG treats them as plain text.", "c NCHAR(20)", "datatype-character.html"));
    t.insert(data_type("OPAQUE", "Pseudo-type internal to PG -- not usable in user table columns.", "x OPAQUE", "datatype-pseudo.html"));
    t.insert(data_type("PG_DDL_COMMAND", "Pseudo-type internal to PG -- not usable in user table columns.", "x PG_DDL_COMMAND", "datatype-pseudo.html"));
    t.insert(data_type("PG_SNAPSHOT", "Visibility snapshot -- replaces deprecated txid_snapshot.", "snap PG_SNAPSHOT", "datatype-pg-lsn.html"));
    t.insert(data_type("RECORD", "Pseudo-type internal to PG -- not usable in user table columns.", "x RECORD", "datatype-pseudo.html"));
    t.insert(data_type("REGCOLLATION", "Object-identifier alias type -- accepts a name + resolves to OID. Useful in queries against pg_catalog.", "t REGCOLLATION", "datatype-oid.html"));
    t.insert(data_type("REGCONFIG", "Object-identifier alias type -- accepts a name + resolves to OID. Useful in queries against pg_catalog.", "t REGCONFIG", "datatype-oid.html"));
    t.insert(data_type("REGDICTIONARY", "Object-identifier alias type -- accepts a name + resolves to OID. Useful in queries against pg_catalog.", "t REGDICTIONARY", "datatype-oid.html"));
    t.insert(data_type("REGOPER", "Object-identifier alias type -- accepts a name + resolves to OID. Useful in queries against pg_catalog.", "t REGOPER", "datatype-oid.html"));
    t.insert(data_type("REGOPERATOR", "Object-identifier alias type -- accepts a name + resolves to OID. Useful in queries against pg_catalog.", "t REGOPERATOR", "datatype-oid.html"));
    t.insert(data_type("REGPROCEDURE", "Object-identifier alias type -- accepts a name + resolves to OID. Useful in queries against pg_catalog.", "t REGPROCEDURE", "datatype-oid.html"));
    t.insert(data_type("TABLE_AM_HANDLER", "Pseudo-type for the entry point of a feature handler. Cannot appear in user SQL.", "x TABLE_AM_HANDLER", "extend-type-system.html"));
    t.insert(data_type("TIMESTAMP WITHOUT TIME ZONE", "SQL standard spelling for the time/timestamp variants (with/without time zone).", "x TIMESTAMP WITHOUT TIME ZONE", "datatype-datetime.html"));
    t.insert(data_type("TIMESTAMP WITH TIME ZONE", "SQL standard spelling for the time/timestamp variants (with/without time zone).", "x TIMESTAMP WITH TIME ZONE", "datatype-datetime.html"));
    t.insert(data_type("TIME WITHOUT TIME ZONE", "SQL standard spelling for the time/timestamp variants (with/without time zone).", "x TIME WITHOUT TIME ZONE", "datatype-datetime.html"));
    t.insert(data_type("TIME WITH TIME ZONE", "SQL standard spelling for the time/timestamp variants (with/without time zone).", "x TIME WITH TIME ZONE", "datatype-datetime.html"));
    t.insert(data_type("TRIGGER", "Pseudo-type internal to PG -- not usable in user table columns.", "x TRIGGER", "datatype-pseudo.html"));
    t.insert(data_type("TSM_HANDLER", "Pseudo-type for the entry point of a feature handler. Cannot appear in user SQL.", "x TSM_HANDLER", "extend-type-system.html"));
    t.insert(data_type("TXID_SNAPSHOT", "Deprecated -- use PG_SNAPSHOT in PG13+.", "snap TXID_SNAPSHOT", "datatype-pg-lsn.html"));
    t.insert(data_type("UNKNOWN", "Pseudo-type internal to PG -- not usable in user table columns.", "x UNKNOWN", "datatype-pseudo.html"));
    t.insert(data_type("VOID", "Pseudo-type internal to PG -- not usable in user table columns.", "x VOID", "datatype-pseudo.html"));
    t.insert(data_type("XID", "4-byte transaction id. Wraps around -- compare with `txid_*` fns or convert to `xid8` (PG13+) for full ordering.", "id XID", "datatype-oid.html"));
    t.insert(data_type("XID8", "8-byte transaction id (PG13+) -- no wraparound concerns. Pair with `pg_snapshot`.", "id XID8", "datatype-oid.html"));
    t.insert(data_type("ACLITEM", "Single ACL entry stored inside an aclitem[] (used by pg_class.relacl etc). Read via `aclexplode()` / `pg_get_userbyid()`.", "x ACLITEM", "ddl-priv.html"));
    proof {
        reveal_strlit("https://www.postgresql.org/docs/current/hstore.html");
    }
    t.insert(data_type_at("HSTORE", "Key/value text map (hstore extension). Use jsonb instead in new code.", "tags HSTORE", "https://www.postgresql.org/docs/current/hstore.html"));
    proof {
        reveal_strlit("https://github.com/pgvector/pgvector");
    }
    t.insert(data_type_at("VECTOR", "Dense float vector (pgvector extension). Specify dimensions: VECTOR(1536).", "embedding VECTOR(1536)", "https://github.com/pgvector/pgvector"));
    proof {
        reveal_strlit("https://github.com/pgvector/pgvector");
    }
    t.insert(data_type_at("HALFVEC", "Half-precision (float2) vector (pgvector 0.7+). Half the storage of VECTOR.", "embedding HALFVEC(1536)", "https://github.com/pgvector/pgvector"));
    proof {
        reveal_strlit("https://github.com/pgvector/pgvector");
    }
    t.insert(data_type_at("BIT_VEC", "Binary vector (pgvector 0.7+). Bit-packed for hamming/jaccard distance.", "fp BIT_VEC(64)", "https://github.com/pgvector/pgvector"));
    proof {
        reveal_strlit("https://github.com/pgvector/pgvector");
    }
    t.insert(data_type_at("SPARSEVEC", "Sparse vector (pgvector 0.7+). Only stores nonzero indices.", "v SPARSEVEC(10000)", "https://github.com/pgvector/pgvector"));
    proof {
        reveal_strlit("https://www.postgresql.org/docs/current/ltree.html");
    }
    t.insert(data_type_at("LTREE", "Hierarchical label tree (ltree extension). Use ~ and @> for ancestor queries.", "path LTREE", "https://www.postgresql.org/docs/current/ltree.html"));
    proof {
        reveal_strlit("https://www.postgresql.org/docs/current/ltree.html");
    }
    t.insert(data_type_at("LQUERY", "ltree label path query.", "q LQUERY", "https://www.postgresql.org/docs/current/ltree.html"));
    proof {
        reveal_strlit("https://www.postgresql.org/docs/current/ltree.html");
    }
    t.insert(data_type_at("LTXTQUERY", "ltree full-text query.", "q LTXTQUERY", "https://www.postgresql.org/docs/current/ltree.html"));
    proof {
        reveal_strlit("https://www.postgresql.org/docs/current/citext.html");
    }
    t.insert(data_type_at("CITEXT", "Case-insensitive text (citext extension). UNIQUE/= compare folded.", "email CITEXT", "https://www.postgresql.org/docs/current/citext.html"));
    proof {
        reveal_strlit("https://www.postgresql.org/docs/current/isn.html");
    }
    t.insert(data_type_at("ISBN", "ISBN identifier (isn extension).", "x ISBN", "https://www.postgresql.org/docs/current/isn.html"));
    proof {
        reveal_strlit("https://www.postgresql.org/docs/current/isn.html");
    }
    t.insert(data_type_at("ISSN", "ISSN identifier (isn extension).", "x ISSN", "https://www.postgresql.org/docs/current/isn.html"));
    proof {
        reveal_strlit("https://www.postgresql.org/docs/current/cube.html");
    }
    t.insert(data_type_at("CUBE", "Multi-dim cube (cube extension). Used by earthdistance.", "c CUBE", "https://www.postgresql.org/docs/current/cube.html"));
    proof {
        reveal_strlit("https://www.postgresql.org/docs/current/earthdistance.html");
    }
    t.insert(data_type_at("EARTH", "earth-distance type (earthdistance extension).", "e EARTH", "https://www.postgresql.org/docs/current/earthdistance.html"));
    proof {
        reveal_strlit("https://www.postgresql.org/docs/current/seg.html");
    }
    t.insert(data_type_at("SEG", "Floating point intervals (seg extension).", "x SEG", "https://www.postgresql.org/docs/current/seg.html"));
    proof {
        reveal_strlit("https://postgis.net/docs/geometry.html");
    }
    t.insert(data_type_at("GEOMETRY", "PostGIS geometry. Specify subtype/SRID: GEOMETRY(Point, 4326).", "geom GEOMETRY(Point, 4326)", "https://postgis.net/docs/geometry.html"));
    proof {
        reveal_strlit("https://postgis.net/docs/geography.html");
    }
    t.insert(data_type_at("GEOGRAPHY", "PostGIS geography (spherical, computations in meters).", "loc GEOGRAPHY(Point, 4326)", "https://postgis.net/docs/geography.html"));
    proof {
        reveal_strlit("https://postgis.net/docs/raster.html");
    }
    t.insert(data_type_at("RASTER", "PostGIS raster type.", "tile RASTER", "https://postgis.net/docs/raster.html"));
    proof {
        reveal_strlit("https://docs.timescale.com/");
    }
    t.insert(data_type_at("HYPERTABLE", "TimescaleDB virtual table -- not a real column type; created via create_hypertable().", "-- see create_hypertable()", "https://docs.timescale.com/"));
}

/// What the data type table holds: every data type entry listed in this file.
pub closed spec fn type_map() -> Map<Seq<char>, EntryV> {
    type_part_1(type_part_0(Map::<Seq<char>, EntryV>::empty()))
}

spec fn type_part_0(m: Map<Seq<char>, EntryV>) -> Map<Seq<char>, EntryV> {
    m
        .insert("BOOLEAN"@, data_type_v("BOOLEAN"@, "true / false / NULL."@, "is_active BOOLEAN NOT NULL DEFAULT false"@, "datatype-boolean.html"@))
        .insert("SMALLINT"@, data_type_v("SMALLINT"@, "2-byte signed integer."@, "qty SMALLINT"@, "datatype-numeric.html"@))
        .insert("INTEGER"@, data_type_v("INTEGER"@, "4-byte signed integer. Alias INT."@, "count INTEGER NOT NULL"@, "datatype-numeric.html"@))
        .insert("INT"@, data_type_v("INT"@, "4-byte signed integer (alias for INTEGER)."@, "count INT NOT NULL"@, "datatype-numeric.html"@))
        .insert("INT2"@, data_type_v("INT2"@, "Postgres-internal name for SMALLINT (2-byte signed)."@, "qty INT2"@, "datatype-numeric.html"@))
        .insert("INT4"@, data_type_v("INT4"@, "Postgres-internal name for INTEGER (4-byte signed)."@, "count INT4"@, "datatype-numeric.html"@))
        .insert("INT8"@, data_type_v("INT8"@, "Postgres-internal name for BIGINT (8-byte signed)."@, "id INT8"@, "datatype-numeric.html"@))
        .insert("FLOAT4"@, data_type_v("FLOAT4"@, "Postgres-internal name for REAL (4-byte IEEE float)."@, "weight FLOAT4"@, "datatype-numeric.html#DATATYPE-FLOAT"@))
        .insert("FLOAT8"@, data_type_v("FLOAT8"@, "Postgres-internal name for DOUBLE PRECISION (8-byte float)."@, "ratio FLOAT8"@, "datatype-numeric.html#DATATYPE-FLOAT"@))
        .insert("DECIMAL"@, data_type_v("DECIMAL"@, "Exact decimal. Synonym for NUMERIC."@, "price DECIMAL(10, 2)"@, "datatype-numeric.html#DATATYPE-NUMERIC-DECIMAL"@))
        .insert("MONEY"@, data_type_v("MONEY"@, "Currency amount. Locale-formatted. Prefer NUMERIC for portability."@, "amount MONEY"@, "datatype-money.html"@))
        .insert("BOOL"@, data_type_v("BOOL"@, "Alias for BOOLEAN."@, "active BOOL NOT NULL DEFAULT false"@, "datatype-boolean.html"@))
        .insert("TIMETZ"@, data_type_v("TIMETZ"@, "TIME WITH TIME ZONE -- rarely useful, see datatype docs for caveats."@, "open_at TIMETZ"@, "datatype-datetime.html"@))
        .insert("CIDR"@, data_type_v("CIDR"@, "IPv4 / IPv6 network. Stricter than INET (no host bits)."@, "subnet CIDR"@, "datatype-net-types.html"@))
        .insert("MACADDR"@, data_type_v("MACADDR"@, "6-byte MAC address."@, "mac MACADDR"@, "datatype-net-types.html"@))
        .insert("MACADDR8"@, data_type_v("MACADDR8"@, "8-byte EUI-64 MAC address."@, "mac8 MACADDR8"@, "datatype-net-types.html"@))
        .insert("OID"@, data_type_v("OID"@, "Object identifier. Internal Postgres reference type."@, "ref OID"@, "datatype-oid.html"@))
        .insert("XML"@, data_type_v("XML"@, "XML document. Stored as text; needs libxml support."@, "payload XML"@, "datatype-xml.html"@))
        .insert("TSVECTOR"@, data_type_v("TSVECTOR"@, "Tokenised full-text search vector."@, "search_doc TSVECTOR"@, "datatype-textsearch.html"@))
        .insert("TSQUERY"@, data_type_v("TSQUERY"@, "Full-text search query."@, "q TSQUERY"@, "datatype-textsearch.html"@))
        .insert("POINT"@, data_type_v("POINT"@, "Geometric point (x, y)."@, "p POINT"@, "datatype-geometric.html"@))
        .insert("LINE"@, data_type_v("LINE"@, "Geometric infinite line."@, "l LINE"@, "datatype-geometric.html"@))
        .insert("BOX"@, data_type_v("BOX"@, "Geometric rectangular box."@, "b BOX"@, "datatype-geometric.html"@))
        .insert("POLYGON"@, data_type_v("POLYGON"@, "Closed geometric polygon."@, "shape POLYGON"@, "datatype-geometric.html"@))
        .insert("CIRCLE"@, data_type_v("CIRCLE"@, "Geometric circle (center + radius)."@, "c CIRCLE"@, "datatype-geometric.html"@))
        .insert("BIGINT"@, data_type_v("BIGINT"@, "8-byte signed integer."@, "id BIGINT"@, "datatype-numeric.html"@))
        .insert("NUMERIC"@, data_type_v("NUMERIC"@, "Exact decimal with up to 1000 digits. `NUMERIC(precision, scale)` -- e.g. NUMERIC(10,2) \
        means 8 digits before the decimal and 2 after. Without (precision, scale) it stores any \
        scale up to system limits. Default text format omits trailing zeros; use `to_char(n, '999G999D00')` \
        for fixed formatting. Aliases: DECIMAL."@, "price NUMERIC(10, 2) NOT NULL"@, "datatype-numeric.html#DATATYPE-NUMERIC-DECIMAL"@))
        .insert("REAL"@, data_type_v("REAL"@, "4-byte IEEE float."@, "weight REAL"@, "datatype-numeric.html#DATATYPE-FLOAT"@))
        .insert("DOUBLE PRECISION"@, data_type_v("DOUBLE PRECISION"@, "8-byte IEEE float."@, "ratio DOUBLE PRECISION"@, "datatype-numeric.html#DATATYPE-FLOAT"@))
        .insert("SERIAL"@, data_type_v("SERIAL"@, "Auto-incrementing INTEGER backed by a sequence."@, "id SERIAL PRIMARY KEY"@, "datatype-numeric.html#DATATYPE-SERIAL"@))
        .insert("BIGSERIAL"@, data_type_v("BIGSERIAL"@, "BIGINT auto-increment."@, "id BIGSERIAL PRIMARY KEY"@, "datatype-numeric.html#DATATYPE-SERIAL"@))
        .insert("VARCHAR"@, data_type_v("VARCHAR"@, "Variable-length character with optional length cap."@, "name VARCHAR(255) NOT NULL"@, "datatype-character.html"@))
        .insert("TEXT"@, data_type_v("TEXT"@, "Variable-length character with no cap. Default choice in Postgres."@, "body TEXT NOT NULL"@, "datatype-character.html"@))
        .insert("CHAR"@, data_type_v("CHAR"@, "Fixed-length, blank-padded."@, "code CHAR(3)"@, "datatype-character.html"@))
        .insert("BYTEA"@, data_type_v("BYTEA"@, "Binary blob."@, "avatar BYTEA"@, "datatype-binary.html"@))
        .insert("DATE"@, data_type_v("DATE"@, "Calendar date, no time, no zone. Default output is ISO 8601 `YYYY-MM-DD`. \
        Accepted inputs: `'2026-01-15'` (ISO), `'15-Jan-2026'`, `'20260115'`, `current_date`, \
        plus `DATE 'YYYY-MM-DD'` literals."@, "birth_date DATE DEFAULT current_date"@, "datatype-datetime.html"@))
        .insert("TIME"@, data_type_v("TIME"@, "Time of day without time zone. Default output `HH24:MI:SS[.ffffff]`. \
        Accepted inputs: `'14:30'`, `'14:30:00'`, `'14:30:00.123456'`. \
        Use `TIME WITH TIME ZONE` (TIMETZ) for zone-aware values (rarely useful)."@, "open_at TIME DEFAULT '09:00'"@, "datatype-datetime.html"@))
        .insert("TIMESTAMP"@, data_type_v("TIMESTAMP"@, "Date + time WITHOUT time zone. Default output `YYYY-MM-DD HH24:MI:SS[.ffffff]`. \
        Avoid for application data: use TIMESTAMPTZ instead so daylight-saving and \
        cross-region inserts stay correct. Accepted inputs: `'2026-01-15 14:30'`, \
        `'2026-01-15T14:30:00'`, `current_timestamp`."@, "ts TIMESTAMP"@, "datatype-datetime.html"@))
        .insert("TIMESTAMPTZ"@, data_type_v("TIMESTAMPTZ"@, "Date + time WITH time zone. Storage is always UTC; the session `TimeZone` \
        decides input parsing and display. Default output `YYYY-MM-DD HH24:MI:SS+00`. \
        Accepted inputs: `'2026-01-15 14:30Z'`, `'2026-01-15 14:30+02'`, \
        `'2026-01-15 14:30:00 Europe/Berlin'`, `now()`, `current_timestamp`. \
        Formatting helpers: `to_char(ts, 'YYYY-MM-DD HH24:MI:SS TZ')`, \
        `to_char(ts, 'Day, DD Mon YYYY')`, `to_char(ts, 'IYYY-IW')` (ISO week)."@, "created_at TIMESTAMPTZ NOT NULL DEFAULT now()"@, "datatype-datetime.html"@))
        .insert("INTERVAL"@, data_type_v("INTERVAL"@, "Time span. Accepted inputs: `INTERVAL '1 day 2 hours 3 minutes'`, \
        `INTERVAL '90 seconds'`, `INTERVAL '1-2'` (years-months), `INTERVAL 'P1DT2H'` (ISO 8601). \
        Field selectors: `INTERVAL '1' YEAR / MONTH / DAY / HOUR / MINUTE / SECOND`."@, "deleted_after INTERVAL DEFAULT '30 days'"@, "datatype-datetime.html#DATATYPE-INTERVAL-INPUT"@))
        .insert("UUID"@, data_type_v("UUID"@, "128-bit identifier. Canonical text form: `'xxxxxxxx-xxxx-xxxx-xxxx-xxxxxxxxxxxx'`. \
        Generators: `gen_random_uuid()` (v4, Postgres 13+), `uuid_generate_v4()` (uuid-ossp). \
        Accepts hex with or without dashes; output is always dashed lowercase."@, "id UUID PRIMARY KEY DEFAULT gen_random_uuid()"@, "datatype-uuid.html"@))
        .insert("JSON"@, data_type_v("JSON"@, "JSON stored verbatim. Whitespace and key order preserved. Slower for queries than JSONB. \
        Operators: `->` (key as json), `->>` (key as text), `#>` (path), `#>>` (path as text). \
        Validation happens on input."@, "metadata JSON DEFAULT '{}'::json"@, "datatype-json.html"@))
        .insert("JSONB"@, data_type_v("JSONB"@, "Binary JSON. Indexable, fast, the right default for application data. \
        Operators add `@>` (contains), `<@` (contained), `?` (key exists), `?|` (any), `?&` (all). \
        Build with `jsonb_build_object('k', v, ...)`; mutate with `jsonb_set(j, path, value)`."@, "metadata JSONB NOT NULL DEFAULT '{}'::jsonb"@, "datatype-json.html"@))
        .insert("INET"@, data_type_v("INET"@, "IPv4 / IPv6 host or network."@, "client_ip INET"@, "datatype-net-types.html"@))
        .insert("INT4RANGE"@, data_type_v("INT4RANGE"@, "Range of integer. `'[1,10)'::int4range`. Use `@>` for containment, `&&` for overlap."@, "valid_ids INT4RANGE"@, "rangetypes.html"@))
        .insert("INT8RANGE"@, data_type_v("INT8RANGE"@, "Range of bigint."@, "id_window INT8RANGE"@, "rangetypes.html"@))
        .insert("NUMRANGE"@, data_type_v("NUMRANGE"@, "Range of numeric."@, "price_band NUMRANGE"@, "rangetypes.html"@))
        .insert("TSRANGE"@, data_type_v("TSRANGE"@, "Range of timestamp without time zone."@, "valid TSRANGE"@, "rangetypes.html"@))
        .insert("TSTZRANGE"@, data_type_v("TSTZRANGE"@, "Range of timestamp with time zone. The right default for time-bounded data."@, "active TSTZRANGE NOT NULL"@, "rangetypes.html"@))
        .insert("DATERANGE"@, data_type_v("DATERANGE"@, "Range of date."@, "booking DATERANGE"@, "rangetypes.html"@))
        .insert("INT4MULTIRANGE"@, data_type_v("INT4MULTIRANGE"@, "Multirange of integer (PG 14+). Set of disjoint int4ranges."@, "windows INT4MULTIRANGE"@, "rangetypes.html"@))
        .insert("INT8MULTIRANGE"@, data_type_v("INT8MULTIRANGE"@, "Multirange of bigint (PG 14+)."@, "windows INT8MULTIRANGE"@, "rangetypes.html"@))
        .insert("NUMMULTIRANGE"@, data_type_v("NUMMULTIRANGE"@, "Multirange of numeric (PG 14+)."@, "bands NUMMULTIRANGE"@, "rangetypes.html"@))
        .insert("TSMULTIRANGE"@, data_type_v("TSMULTIRANGE"@, "Multirange of timestamp (PG 14+)."@, "windows TSMULTIRANGE"@, "rangetypes.html"@))
        .insert("TSTZMULTIRANGE"@, data_type_v("TSTZMULTIRANGE"@, "Multirange of timestamp with time zone (PG 14+)."@, "active TSTZMULTIRANGE"@, "rangetypes.html"@))
        .insert("DATEMULTIRANGE"@, data_type_v("DATEMULTIRANGE"@, "Multirange of date (PG 14+)."@, "blackout DATEMULTIRANGE"@, "rangetypes.html"@))
        .insert("BIT"@, data_type_v("BIT"@, "Fixed-width bit string. BIT(n)."@, "flags BIT(8)"@, "datatype-bit.html"@))
        .insert("VARBIT"@, data_type_v("VARBIT"@, "Variable-width bit string. BIT VARYING(n)."@, "mask VARBIT(64)"@, "datatype-bit.html"@))
        .insert("SMALLSERIAL"@, data_type_v("SMALLSERIAL"@, "Auto-increment INT2. Sugar for INT2 + sequence + NOT NULL."@, "id SMALLSERIAL PRIMARY KEY"@, "datatype-numeric.html#DATATYPE-SERIAL"@))
        .insert("PG_LSN"@, data_type_v("PG_LSN"@, "Postgres log sequence number (8 bytes). Used for WAL positions."@, "lsn PG_LSN"@, "datatype-pg-lsn.html"@))
        .insert("LSEG"@, data_type_v("LSEG"@, "Geometric line segment."@, "edge LSEG"@, "datatype-geometric.html"@))
        .insert("PATH"@, data_type_v("PATH"@, "Geometric path (closed or open)."@, "trail PATH"@, "datatype-geometric.html"@))
        .insert("REGCLASS"@, data_type_v("REGCLASS"@, "OID alias for tables / sequences / views. Validates the name at parse."@, "tbl REGCLASS"@, "datatype-oid.html"@))
        .insert("REGPROC"@, data_type_v("REGPROC"@, "OID alias for functions (no argument types)."@, "fn REGPROC"@, "datatype-oid.html"@))
        .insert("REGTYPE"@, data_type_v("REGTYPE"@, "OID alias for types."@, "ty REGTYPE"@, "datatype-oid.html"@))
        .insert("REGROLE"@, data_type_v("REGROLE"@, "OID alias for roles."@, "r REGROLE"@, "datatype-oid.html"@))
        .insert("REGNAMESPACE"@, data_type_v("REGNAMESPACE"@, "OID alias for schemas."@, "ns REGNAMESPACE"@, "datatype-oid.html"@))
        .insert("ANY"@, data_type_v("ANY"@, "Polymorphic pseudo-type accepted by functions; bound to a concrete type at call time."@, "x ANY"@, "extend-type-system.html#EXTEND-TYPES-POLYMORPHIC"@))
        .insert("ANYARRAY"@, data_type_v("ANYARRAY"@, "Polymorphic pseudo-type accepted by functions; bound to a concrete type at call time."@, "x ANYARRAY"@, "extend-type-system.html#EXTEND-TYPES-POLYMORPHIC"@))
        .insert("ANYCOMPATIBLE"@, data_type_v("ANYCOMPATIBLE"@, "Polymorphic pseudo-type accepted by functions; bound to a concrete type at call time."@, "x ANYCOMPATIBLE"@, "extend-type-system.html#EXTEND-TYPES-POLYMORPHIC"@))
        .insert("ANYCOMPATIBLEARRAY"@, data_type_v("ANYCOMPATIBLEARRAY"@, "Polymorphic pseudo-type accepted by functions; bound to a concrete type at call time."@, "x ANYCOMPATIBLEARRAY"@, "extend-type-system.html#EXTEND-TYPES-POLYMORPHIC"@))
        .insert("ANYCOMPATIBLEMULTIRANGE"@, data_type_v("ANYCOMPATIBLEMULTIRANGE"@, "Polymorphic pseudo-type accepted by functions; bound to a concrete type at call time."@, "x ANYCOMPATIBLEMULTIRANGE"@, "extend-type-system.html#EXTEND-TYPES-POLYMORPHIC"@))
        .insert("ANYCOMPATIBLENONARRAY"@, data_type_v("ANYCOMPATIBLENONARRAY"@, "Polymorphic pseudo-type accepted by functions; bound to a concrete type at call time."@, "x ANYCOMPATIBLENONARRAY"@, "extend-type-system.html#EXTEND-TYPES-POLYMORPHIC"@))
        .insert("ANYCOMPATIBLERANGE"@, data_type_v("ANYCOMPATIBLERANGE"@, "Polymorphic pseudo-type accepted by functions; bound to a concrete type at call time."@, "x ANYCOMPATIBLERANGE"@, "extend-type-system.html#EXTEND-TYPES-POLYMORPHIC"@))
        .insert("ANYELEMENT"@, data_type_v("ANYELEMENT"@, "Polymorphic pseudo-type accepted by functions; bound to a concrete type at call time."@, "x ANYELEMENT"@, "extend-type-system.html#EXTEND-TYPES-POLYMORPHIC"@))
}

spec fn type_part_1(m: Map<Seq<char>, EntryV>) -> Map<Seq<char>, EntryV> {
    m
        .insert("ANYENUM"@, data_type_v("ANYENUM"@, "Polymorphic pseudo-type accepted by functions; bound to a concrete type at call time."@, "x ANYENUM"@, "extend-type-system.html#EXTEND-TYPES-POLYMORPHIC"@))
        .insert("ANYMULTIRANGE"@, data_type_v("ANYMULTIRANGE"@, "Polymorphic pseudo-type accepted by functions; bound to a concrete type at call time."@, "x ANYMULTIRANGE"@, "extend-type-system.html#EXTEND-TYPES-POLYMORPHIC"@))
        .insert("ANYNONARRAY"@, data_type_v("ANYNONARRAY"@, "Polymorphic pseudo-type accepted by functions; bound to a concrete type at call time."@, "x ANYNONARRAY"@, "extend-type-system.html#EXTEND-TYPES-POLYMORPHIC"@))
        .insert("ANYRANGE"@, data_type_v("ANYRANGE"@, "Polymorphic pseudo-type accepted by functions; bound to a concrete type at call time."@, "x ANYRANGE"@, "extend-type-system.html#EXTEND-TYPES-POLYMORPHIC"@))
        .insert("CSTRING"@, data_type_v("CSTRING"@, "Pseudo-type internal to PG -- not usable in user table columns."@, "x CSTRING"@, "datatype-pseudo.html"@))
        .insert("DEC"@, data_type_v("DEC"@, "SQL standard alias for NUMERIC / DECIMAL."@, "price DEC(10,2)"@, "datatype-numeric.html"@))
        .insert("EVENT_TRIGGER"@, data_type_v("EVENT_TRIGGER"@, "Pseudo-type internal to PG -- not usable in user table columns."@, "x EVENT_TRIGGER"@, "datatype-pseudo.html"@))
        .insert("FDW_HANDLER"@, data_type_v("FDW_HANDLER"@, "Pseudo-type for the entry point of a feature handler. Cannot appear in user SQL."@, "x FDW_HANDLER"@, "extend-type-system.html"@))
        .insert("INDEX_AM_HANDLER"@, data_type_v("INDEX_AM_HANDLER"@, "Pseudo-type for the entry point of a feature handler. Cannot appear in user SQL."@, "x INDEX_AM_HANDLER"@, "extend-type-system.html"@))
        .insert("INTERNAL"@, data_type_v("INTERNAL"@, "Pseudo-type internal to PG -- not usable in user table columns."@, "x INTERNAL"@, "datatype-pseudo.html"@))
        .insert("JSONPATH"@, data_type_v("JSONPATH"@, "JSONPath expression value -- used by jsonb_path_* functions."@, "p JSONPATH"@, "datatype-json.html#DATATYPE-JSONPATH"@))
        .insert("LANGUAGE_HANDLER"@, data_type_v("LANGUAGE_HANDLER"@, "Pseudo-type for the entry point of a feature handler. Cannot appear in user SQL."@, "x LANGUAGE_HANDLER"@, "extend-type-system.html"@))
        .insert("NAME"@, data_type_v("NAME"@, "63-byte identifier -- internal PG type used in pg_catalog rows."@, "-- pg_catalog only"@, "datatype-character.html"@))
        .insert("NATIONAL CHAR"@, data_type_v("NATIONAL CHAR"@, "SQL standard alias for CHARACTER (NCHAR = national char). PG treats them as plain text."@, "c NATIONAL CHAR(20)"@, "datatype-character.html"@))
        .insert("NATIONAL CHARACTER"@, data_type_v("NATIONAL CHARACTER"@, "SQL standard alias for CHARACTER (NCHAR = national char). PG treats them as plain text."@, "c NATIONAL CHARACTER(20)"@, "datatype-character.html"@))
        .insert("NCHAR"@, data_type_v("NCHAR"@, "SQL standard alias for CHARACTER (NCHAR = national char). PG treats them as plain text."@, "c NCHAR(20)"@, "datatype-character.html"@))
        .insert("OPAQUE"@, data_type_v("OPAQUE"@, "Pseudo-type internal to PG -- not usable in user table columns."@, "x OPAQUE"@, "datatype-pseudo.html"@))
        .insert("PG_DDL_COMMAND"@, data_type_v("PG_DDL_COMMAND"@, "Pseudo-type internal to PG -- not usable in user table columns."@, "x PG_DDL_COMMAND"@, "datatype-pseudo.html"@))
        .insert("PG_SNAPSHOT"@, data_type_v("PG_SNAPSHOT"@, "Visibility snapshot -- replaces deprecated txid_snapshot."@, "snap PG_SNAPSHOT"@, "datatype-pg-lsn.html"@))
        .insert("RECORD"@, data_type_v("RECORD"@, "Pseudo-type internal to PG -- not usable in user table columns."@, "x RECORD"@, "datatype-pseudo.html"@))
        .insert("REGCOLLATION"@, data_type_v("REGCOLLATION"@, "Object-identifier alias type -- accepts a name + resolves to OID. Useful in queries against pg_catalog."@, "t REGCOLLATION"@, "datatype-oid.html"@))
        .insert("REGCONFIG"@, data_type_v("REGCONFIG"@, "Object-identifier alias type -- accepts a name + resolves to OID. Useful in queries against pg_catalog."@, "t REGCONFIG"@, "datatype-oid.html"@))
        .insert("REGDICTIONARY"@, data_type_v("REGDICTIONARY"@, "Object-identifier alias type -- accepts a name + resolves to OID. Useful in queries against pg_catalog."@, "t REGDICTIONARY"@, "datatype-oid.html"@))
        .insert("REGOPER"@, data_type_v("REGOPER"@, "Object-identifier alias type -- accepts a name + resolves to OID. Useful in queries against pg_catalog."@, "t REGOPER"@, "datatype-oid.html"@))
        .insert("REGOPERATOR"@, data_type_v("REGOPERATOR"@, "Object-identifier alias type -- accepts a name + resolves to OID. Useful in queries against pg_catalog."@, "t REGOPERATOR"@, "datatype-oid.html"@))
        .insert("REGPROCEDURE"@, data_type_v("REGPROCEDURE"@, "Object-identifier alias type -- accepts a name + resolves to OID. Useful in queries against pg_catalog."@, "t REGPROCEDURE"@, "datatype-oid.html"@))
        .insert("TABLE_AM_HANDLER"@, data_type_v("TABLE_AM_HANDLER"@, "Pseudo-type for the entry point of a feature handler. Cannot appear in user SQL."@, "x TABLE_AM_HANDLER"@, "extend-type-system.html"@))
        .insert("TIMESTAMP WITHOUT TIME ZONE"@, data_type_v("TIMESTAMP WITHOUT TIME ZONE"@, "SQL standard spelling for the time/timestamp variants (with/without time zone)."@, "x TIMESTAMP WITHOUT TIME ZONE"@, "datatype-datetime.html"@))
        .insert("TIMESTAMP WITH TIME ZONE"@, data_type_v("TIMESTAMP WITH TIME ZONE"@, "SQL standard spelling for the time/timestamp variants (with/without time zone)."@, "x TIMESTAMP WITH TIME ZONE"@, "datatype-datetime.html"@))
        .insert("TIME WITHOUT TIME ZONE"@, data_type_v("TIME WITHOUT TIME ZONE"@, "SQL standard spelling for the time/timestamp variants (with/without time zone)."@, "x TIME WITHOUT TIME ZONE"@, "datatype-datetime.html"@))
        .insert("TIME WITH TIME ZONE"@, data_type_v("TIME WITH TIME ZONE"@, "SQL standard spelling for the time/timestamp variants (with/without time zone)."@, "x TIME WITH TIME ZONE"@, "datatype-datetime.html"@))
        .insert("TRIGGER"@, data_type_v("TRIGGER"@, "Pseudo-type internal to PG -- not usable in user table columns."@, "x TRIGGER"@, "datatype-pseudo.html"@))
        .insert("TSM_HANDLER"@, data_type_v("TSM_HANDLER"@, "Pseudo-type for the entry point of a feature handler. Cannot appear in user SQL."@, "x TSM_HANDLER"@, "extend-type-system.html"@))
        .insert("TXID_SNAPSHOT"@, data_type_v("TXID_SNAPSHOT"@, "Deprecated -- use PG_SNAPSHOT in PG13+."@, "snap TXID_SNAPSHOT"@, "datatype-pg-lsn.html"@))
        .insert("UNKNOWN"@, data_type_v("UNKNOWN"@, "Pseudo-type internal to PG -- not usable in user table columns."@, "x UNKNOWN"@, "datatype-pseudo.html"@))
        .insert("VOID"@, data_type_v("VOID"@, "Pseudo-type internal to PG -- not usable in user table columns."@, "x VOID"@, "datatype-pseudo.html"@))
        .insert("XID"@, data_type_v("XID"@, "4-byte transaction id. Wraps around -- compare with `txid_*` fns or convert to `xid8` (PG13+) for full ordering."@, "id XID"@, "datatype-oid.html"@))
        .insert("XID8"@, data_type_v("XID8"@, "8-byte transaction id (PG13+) -- no wraparound concerns. Pair with `pg_snapshot`."@, "id XID8"@, "datatype-oid.html"@))
        .insert("ACLITEM"@, data_type_v("ACLITEM"@, "Single ACL entry stored inside an aclitem[] (used by pg_class.relacl etc). Read via `aclexplode()` / `pg_get_userbyid()`."@, "x ACLITEM"@, "ddl-priv.html"@))
        .insert("HSTORE"@, data_type_at_v("HSTORE"@, "Key/value text map (hstore extension). Use jsonb instead in new code."@, "tags HSTORE"@, "https://www.postgresql.org/docs/current/hstore.html"@))
        .insert("VECTOR"@, data_type_at_v("VECTOR"@, "Dense float vector (pgvector extension). Specify dimensions: VECTOR(1536)."@, "embedding VECTOR(1536)"@, "https://github.com/pgvector/pgvector"@))
        .insert("HALFVEC"@, data_type_at_v("HALFVEC"@, "Half-precision (float2) vector (pgvector 0.7+). Half the storage of VECTOR."@, "embedding HALFVEC(1536)"@, "https://github.com/pgvector/pgvector"@))
        .insert("BIT_VEC"@, data_type_at_v("BIT_VEC"@, "Binary vector (pgvector 0.7+). Bit-packed for hamming/jaccard distance."@, "fp BIT_VEC(64)"@, "https://github.com/pgvector/pgvector"@))
        .insert("SPARSEVEC"@, data_type_at_v("SPARSEVEC"@, "Sparse vector (pgvector 0.7+). Only stores nonzero indices."@, "v SPARSEVEC(10000)"@, "https://github.com/pgvector/pgvector"@))
        .insert("LTREE"@, data_type_at_v("LTREE"@, "Hierarchical label tree (ltree extension). Use ~ and @> for ancestor queries."@, "path LTREE"@, "https://www.postgresql.org/docs/current/ltree.html"@))
        .insert("LQUERY"@, data_type_at_v("LQUERY"@, "ltree label path query."@, "q LQUERY"@, "https://www.postgresql.org/docs/current/ltree.html"@))
        .insert("LTXTQUERY"@, data_type_at_v("LTXTQUERY"@, "ltree full-text query."@, "q LTXTQUERY"@, "https://www.postgresql.org/docs/current/ltree.html"@))
        .insert("CITEXT"@, data_type_at_v("CITEXT"@, "Case-insensitive text (citext extension). UNIQUE/= compare folded."@, "email CITEXT"@, "https://www.postgresql.org/docs/current/citext.html"@))
        .insert("ISBN"@, data_type_at_v("ISBN"@, "ISBN identifier (isn extension)."@, "x ISBN"@, "https://www.postgresql.org/docs/current/isn.html"@))
        .insert("ISSN"@, data_type_at_v("ISSN"@, "ISSN identifier (isn extension)."@, "x ISSN"@, "https://www.postgresql.org/docs/current/isn.html"@))
        .insert("CUBE"@, data_type_at_v("CUBE"@, "Multi-dim cube (cube extension). Used by earthdistance."@, "c CUBE"@, "https://www.postgresql.org/docs/current/cube.html"@))
        .insert("EARTH"@, data_type_at_v("EARTH"@, "earth-distance type (earthdistance extension)."@, "e EARTH"@, "https://www.postgresql.org/docs/current/earthdistance.html"@))
        .insert("SEG"@, data_type_at_v("SEG"@, "Floating point intervals (seg extension)."@, "x SEG"@, "https://www.postgresql.org/docs/current/seg.html"@))
        .insert("GEOMETRY"@, data_type_at_v("GEOMETRY"@, "PostGIS geometry. Specify subtype/SRID: GEOMETRY(Point, 4326)."@, "geom GEOMETRY(Point, 4326)"@, "https://postgis.net/docs/geometry.html"@))
        .insert("GEOGRAPHY"@, data_type_at_v("GEOGRAPHY"@, "PostGIS geography (spherical, computations in meters)."@, "loc GEOGRAPHY(Point, 4326)"@, "https://postgis.net/docs/geography.html"@))
        .insert("RASTER"@, data_type_at_v("RASTER"@, "PostGIS raster type."@, "tile RASTER"@, "https://postgis.net/docs/raster.html"@))
        .insert("HYPERTABLE"@, data_type_at_v("HYPERTABLE"@, "TimescaleDB virtual table -- not a real column type; created via create_hypertable()."@, "-- see create_hypertable()"@, "https://docs.timescale.com/"@))
}

} // verus!
