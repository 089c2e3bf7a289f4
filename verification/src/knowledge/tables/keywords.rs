//! SQL keyword table: each keyword with its doc, example and Postgres docs page.

use vstd::prelude::*;
use crate::knowledge::entry::{keyword, Kind, EntryV, keyword_v};
use crate::knowledge::table::Table;

verus! {

/// The table of all keyword entries. No label is listed twice.
pub fn build() -> (t: Table)
    ensures
        t.wf(),
        t.table_kind() == Kind::Keyword,
        t.contents() == keyword_map(),
{
    let mut t = Table::new(Kind::Keyword);
    part_0(&mut t);
    part_1(&mut t);
    part_2(&mut t);
    part_3(&mut t);
    part_4(&mut t);
    part_5(&mut t);
    part_6(&mut t);
    part_7(&mut t);
    part_8(&mut t);
    part_9(&mut t);
    part_10(&mut t);
    part_11(&mut t);
    part_12(&mut t);
    part_13(&mut t);
    part_14(&mut t);
    part_15(&mut t);
    part_16(&mut t);
    part_17(&mut t);
    part_18(&mut t);
    part_19(&mut t);
    t
}

fn part_0(t: &mut Table)
    requires
        old(t).wf(),
        old(t).table_kind() == Kind::Keyword,
    ensures
        final(t).wf(),
        final(t).table_kind() == Kind::Keyword,
        final(t).contents() == keyword_part_0(old(t).contents()),
{
    t.insert(keyword("SELECT", "Retrieve rows from one or more tables, views, or subqueries.", "SELECT id, name FROM users WHERE active = true;", "sql-select.html"));
    t.insert(keyword("FROM", "List the tables, views, or subqueries the SELECT reads from.", "SELECT * FROM users u JOIN orders o ON o.user_id = u.id;", "sql-select.html#SQL-FROM"));
    t.insert(keyword("WHERE", "Filter rows by a boolean expression. Applied before GROUP BY.", "SELECT * FROM users WHERE created_at > now() - interval '7 days';", "sql-select.html#SQL-WHERE"));
    t.insert(keyword("GROUP BY", "Group rows that share values in the listed columns.", "SELECT user_id, count(*) FROM orders GROUP BY user_id;", "sql-select.html#SQL-GROUPBY"));
    t.insert(keyword("HAVING", "Filter groups produced by GROUP BY. Like WHERE but on aggregates.", "SELECT user_id, count(*) FROM orders GROUP BY user_id HAVING count(*) > 5;", "sql-select.html#SQL-HAVING"));
    t.insert(keyword("ORDER BY", "Sort the result set. ASC or DESC per key.", "SELECT * FROM users ORDER BY created_at DESC NULLS LAST;", "sql-select.html#SQL-ORDERBY"));
    t.insert(keyword("LIMIT", "Restrict the number of returned rows.", "SELECT * FROM users ORDER BY id LIMIT 50 OFFSET 100;", "sql-select.html#SQL-LIMIT"));
    t.insert(keyword("OFFSET", "Skip the first N rows. Combine with LIMIT for pagination.", "SELECT * FROM users ORDER BY id LIMIT 50 OFFSET 100;", "sql-select.html#SQL-LIMIT"));
    t.insert(keyword("DISTINCT", "Eliminate duplicate rows.", "SELECT DISTINCT country FROM users;", "sql-select.html#SQL-DISTINCT"));
    t.insert(keyword("UNION", "Combine result sets, removing duplicates. UNION ALL is faster.", "SELECT id FROM a UNION ALL SELECT id FROM b;", "queries-union.html"));
    t.insert(keyword("WITH", "Common Table Expression (CTE). Define a named temporary result set.", "WITH recent AS (SELECT * FROM users WHERE active) SELECT count(*) FROM recent;", "queries-with.html"));
    t.insert(keyword("INNER JOIN", "Return rows where the ON predicate matches in both tables.", "SELECT u.name, o.total FROM users u INNER JOIN orders o ON o.user_id = u.id;", "queries-table-expressions.html#QUERIES-JOIN"));
    t.insert(keyword("LEFT JOIN", "Keep every row from the left table. Unmatched right side is NULL.", "SELECT u.id, o.id FROM users u LEFT JOIN orders o ON o.user_id = u.id;", "queries-table-expressions.html#QUERIES-JOIN"));
    t.insert(keyword("RIGHT JOIN", "Keep every row from the right table. Unmatched left side is NULL.", "SELECT u.id, o.id FROM users u RIGHT JOIN orders o ON o.user_id = u.id;", "queries-table-expressions.html#QUERIES-JOIN"));
    t.insert(keyword("FULL OUTER JOIN", "Keep every row from both sides. Unmatched columns become NULL.", "SELECT * FROM a FULL OUTER JOIN b ON a.id = b.a_id;", "queries-table-expressions.html#QUERIES-JOIN"));
    t.insert(keyword("CROSS JOIN", "Cartesian product. Every row of left paired with every row of right.", "SELECT * FROM colors CROSS JOIN sizes;", "queries-table-expressions.html#QUERIES-JOIN"));
    t.insert(keyword("LATERAL", "Allow a subquery in FROM to reference columns from earlier FROM items.", "SELECT u.id FROM users u, LATERAL (SELECT title FROM posts WHERE user_id = u.id LIMIT 1) p;", "queries-table-expressions.html#QUERIES-LATERAL"));
    t.insert(keyword("ON", "JOIN predicate. Boolean expression evaluated per row pair.", "JOIN orders o ON o.user_id = u.id", "queries-table-expressions.html#QUERIES-JOIN"));
    t.insert(keyword("AS", "Alias a column, expression, table, or CTE.", "SELECT count(*) AS n FROM users AS u;", "sql-select.html"));
    t.insert(keyword("INSERT INTO", "Insert new rows. Combine with RETURNING to get generated columns back.", "INSERT INTO users (name) VALUES ('alice') RETURNING id;", "sql-insert.html"));
    t.insert(keyword("VALUES", "List of literal row tuples to insert.", "INSERT INTO users (name) VALUES ('a'), ('b');", "sql-insert.html"));
    t.insert(keyword("UPDATE", "Modify existing rows. Skipping WHERE updates every row.", "UPDATE users SET active = false WHERE last_seen < now() - interval '1 year';", "sql-update.html"));
    t.insert(keyword("SET", "List column = expression pairs for UPDATE.", "UPDATE users SET name = 'bob' WHERE id = $1;", "sql-update.html"));
    t.insert(keyword("DELETE FROM", "Remove rows. RETURNING shows what was deleted.", "DELETE FROM sessions WHERE expires_at < now();", "sql-delete.html"));
    t.insert(keyword("RETURNING", "Get column values from INSERT / UPDATE / DELETE.", "INSERT INTO users (name) VALUES ('alice') RETURNING id, created_at;", "sql-insert.html#SQL-ON-CONFLICT"));
    t.insert(keyword("ON CONFLICT", "Upsert. Specify what to do when a unique constraint would be violated.", "INSERT INTO users (email) VALUES ('a') ON CONFLICT (email) DO UPDATE SET name = EXCLUDED.name;", "sql-insert.html#SQL-ON-CONFLICT"));
    t.insert(keyword("CREATE TABLE", "Create a new table. Add IF NOT EXISTS to make idempotent.", "CREATE TABLE IF NOT EXISTS users (id UUID PRIMARY KEY DEFAULT gen_random_uuid());", "sql-createtable.html"));
    t.insert(keyword("CREATE INDEX", "Create a B-tree index by default.", "CREATE INDEX idx_users_email ON users (email);", "sql-createindex.html"));
    t.insert(keyword("CREATE VIEW", "Define a virtual table backed by a SELECT.", "CREATE VIEW active_users AS SELECT * FROM users WHERE deleted_at IS NULL;", "sql-createview.html"));
    t.insert(keyword("ALTER TABLE", "Modify a table: add/drop columns, rename, change types.", "ALTER TABLE users ADD COLUMN role TEXT NOT NULL DEFAULT 'user';", "sql-altertable.html"));
    t.insert(keyword("DROP TABLE", "Remove a table. CASCADE removes dependent objects.", "DROP TABLE IF EXISTS users CASCADE;", "sql-droptable.html"));
    t.insert(keyword("REFERENCES", "Short form of FOREIGN KEY when used inline on a column.", "user_id UUID NOT NULL REFERENCES users(id) ON DELETE CASCADE", "ddl-constraints.html#DDL-CONSTRAINTS-FK"));
    t.insert(keyword("UNIQUE", "No two rows share the same value in the listed column(s).", "email TEXT UNIQUE NOT NULL", "ddl-constraints.html#DDL-CONSTRAINTS-UNIQUE-CONSTRAINTS"));
    t.insert(keyword("CHECK", "Row-level constraint expressed as a boolean expression.", "CONSTRAINT ch_email CHECK (lower(email) = email)", "ddl-constraints.html#DDL-CONSTRAINTS-CHECK-CONSTRAINTS"));
    t.insert(keyword("NOT NULL", "Column may never be NULL.", "name TEXT NOT NULL", "ddl-constraints.html#id-1.5.4.6.6"));
    t.insert(keyword("CASCADE", "ON DELETE / ON UPDATE action: also delete / update referencing rows.", "REFERENCES users(id) ON DELETE CASCADE", "ddl-constraints.html#DDL-CONSTRAINTS-FK"));
    t.insert(keyword("AND", "Logical AND. Short-circuits.", "WHERE active AND email IS NOT NULL", "functions-logical.html"));
    t.insert(keyword("OR", "Logical OR. Short-circuits.", "WHERE role = 'admin' OR is_staff", "functions-logical.html"));
    t.insert(keyword("NOT", "Logical NOT. Negates a boolean.", "WHERE NOT (deleted_at IS NULL)", "functions-logical.html"));
    t.insert(keyword("IS NULL", "True when expression is NULL.", "WHERE deleted_at IS NULL", "functions-comparison.html"));
    t.insert(keyword("IS NOT NULL", "True when expression is not NULL.", "WHERE email IS NOT NULL", "functions-comparison.html"));
    t.insert(keyword("IN", "True if value equals any in the list / subquery result.", "WHERE role IN ('admin', 'staff')", "functions-comparisons.html"));
    t.insert(keyword("EXISTS", "True if subquery returns at least one row.", "WHERE EXISTS (SELECT 1 FROM orders WHERE user_id = u.id)", "functions-subquery.html"));
    t.insert(keyword("BETWEEN", "Shorthand for value >= low AND value <= high.", "WHERE age BETWEEN 18 AND 65", "functions-comparison.html"));
    t.insert(keyword("LIKE", "Case-sensitive pattern match. % matches any string, _ matches one char.", "WHERE email LIKE '%@example.com'", "functions-matching.html#FUNCTIONS-LIKE"));
    t.insert(keyword("ILIKE", "Case-insensitive LIKE (Postgres extension).", "WHERE name ILIKE '%john%'", "functions-matching.html#FUNCTIONS-LIKE"));
    t.insert(keyword("CASE", "Conditional expression. SQL's if/else.", "SELECT CASE WHEN role = 'admin' THEN 1 ELSE 0 END FROM users;", "functions-conditional.html#FUNCTIONS-CASE"));
    t.insert(keyword("OVER", "Window specification for a window function.", "row_number() OVER (PARTITION BY user_id ORDER BY created_at DESC)", "tutorial-window.html"));
    t.insert(keyword("PARTITION BY", "Split rows into groups within a window function.", "rank() OVER (PARTITION BY country ORDER BY score DESC)", "tutorial-window.html"));
    t.insert(keyword("BEGIN", "Start an explicit transaction.", "BEGIN; ... COMMIT;", "sql-begin.html"));
    t.insert(keyword("COMMIT", "Persist the current transaction.", "COMMIT;", "sql-commit.html"));
    t.insert(keyword("ROLLBACK", "Discard the current transaction.", "ROLLBACK;", "sql-rollback.html"));
    t.insert(keyword("EXPLAIN", "Show the planner's execution plan without running.", "EXPLAIN SELECT * FROM users WHERE id = $1;", "sql-explain.html"));
    t.insert(keyword("EXPLAIN ANALYZE", "Run the query and show the actual plan with timings.", "EXPLAIN ANALYZE SELECT * FROM users WHERE id = $1;", "sql-explain.html"));
    t.insert(keyword("JOIN", "Combine rows from two tables. Prefix with INNER / LEFT / RIGHT / FULL / CROSS to control behaviour.", "SELECT u.name, o.total FROM users u JOIN orders o ON o.user_id = u.id;", "queries-table-expressions.html#QUERIES-JOIN"));
    t.insert(keyword("INNER", "Inner join modifier. INNER JOIN returns only matching rows.", "INNER JOIN orders o ON o.user_id = u.id", "queries-table-expressions.html#QUERIES-JOIN"));
    t.insert(keyword("LEFT", "Left join modifier. LEFT JOIN keeps every row from the left side.", "LEFT JOIN orders o ON o.user_id = u.id", "queries-table-expressions.html#QUERIES-JOIN"));
    t.insert(keyword("RIGHT", "Right join modifier. RIGHT JOIN keeps every row from the right side.", "RIGHT JOIN orders o ON o.user_id = u.id", "queries-table-expressions.html#QUERIES-JOIN"));
    t.insert(keyword("FULL", "Full join modifier. FULL OUTER JOIN keeps every row from both sides.", "FULL OUTER JOIN b ON a.id = b.a_id", "queries-table-expressions.html#QUERIES-JOIN"));
    t.insert(keyword("OUTER", "Outer-join modifier. LEFT / RIGHT / FULL OUTER JOIN keep unmatched rows.", "LEFT OUTER JOIN orders o ON o.user_id = u.id", "queries-table-expressions.html#QUERIES-JOIN"));
    t.insert(keyword("CROSS", "CROSS JOIN produces the Cartesian product of two tables.", "SELECT * FROM colors CROSS JOIN sizes;", "queries-table-expressions.html#QUERIES-JOIN"));
    t.insert(keyword("USING", "JOIN shorthand when the join columns share a name. The joined column appears once.", "SELECT * FROM users JOIN orders USING (user_id);", "queries-table-expressions.html#QUERIES-JOIN"));
    t.insert(keyword("INTO", "Destination keyword in INSERT INTO and SELECT INTO.", "INSERT INTO users (name) VALUES ('a')", "sql-insert.html"));
    t.insert(keyword("BY", "Modifier used after GROUP, ORDER, PARTITION. Specifies the keys.", "ORDER BY created_at DESC", "sql-select.html#SQL-ORDERBY"));
    t.insert(keyword("IS", "Predicate for IS NULL / IS NOT NULL / IS TRUE / IS DISTINCT FROM.", "WHERE deleted_at IS NULL", "functions-comparison.html"));
    t.insert(keyword("ALL", "Quantifier. UNION ALL keeps duplicates; ALL with comparisons matches every row of subquery.", "SELECT id FROM a UNION ALL SELECT id FROM b;", "queries-union.html"));
    t.insert(keyword("ANY", "Quantifier. x = ANY (SELECT ...) matches at least one row.", "WHERE id = ANY (SELECT user_id FROM admins)", "functions-comparisons.html"));
    t.insert(keyword("SOME", "Synonym for ANY.", "WHERE id = SOME (SELECT user_id FROM admins)", "functions-comparisons.html"));
    t.insert(keyword("DO", "Action verb after ON CONFLICT. DO UPDATE or DO NOTHING.", "ON CONFLICT (id) DO NOTHING", "sql-insert.html#SQL-ON-CONFLICT"));
    t.insert(keyword("DO UPDATE", "Upsert action: merge values. Use EXCLUDED.<col> for the failed insert row.", "ON CONFLICT (email) DO UPDATE SET name = EXCLUDED.name", "sql-insert.html#SQL-ON-CONFLICT"));
    t.insert(keyword("DO NOTHING", "Upsert action: silently skip the row.", "ON CONFLICT DO NOTHING", "sql-insert.html#SQL-ON-CONFLICT"));
    t.insert(keyword("EXCLUDED", "Synthetic alias in DO UPDATE referencing the row that would have been inserted.", "ON CONFLICT (id) DO UPDATE SET name = EXCLUDED.name", "sql-insert.html#SQL-ON-CONFLICT"));
    t.insert(keyword("CREATE", "Define a new database object: table, index, view, sequence, schema, function.", "CREATE TABLE ...", "sql-createtable.html"));
    t.insert(keyword("TABLE", "The TABLE keyword. Used by CREATE / ALTER / DROP / TRUNCATE.", "CREATE TABLE users (...)", "sql-createtable.html"));
    t.insert(keyword("INDEX", "The INDEX keyword. Used by CREATE / DROP / REINDEX.", "CREATE INDEX idx_users_email ON users (email);", "sql-createindex.html"));
}

fn part_1(t: &mut Table)
    requires
        old(t).wf(),
        old(t).table_kind() == Kind::Keyword,
    ensures
        final(t).wf(),
        final(t).table_kind() == Kind::Keyword,
        final(t).contents() == keyword_part_1(old(t).contents()),
{
    t.insert(keyword("VIEW", "The VIEW keyword. Used by CREATE / ALTER / DROP.", "CREATE VIEW active_users AS SELECT * FROM users;", "sql-createview.html"));
    t.insert(keyword("SCHEMA", "Namespace for tables, views, functions.", "CREATE SCHEMA app;", "sql-createschema.html"));
    t.insert(keyword("SEQUENCE", "Number generator for serial columns.", "CREATE SEQUENCE users_id_seq START 1000;", "sql-createsequence.html"));
    t.insert(keyword("ALTER", "Modify an existing database object.", "ALTER TABLE users ADD COLUMN role TEXT NOT NULL DEFAULT 'user';", "sql-altertable.html"));
    t.insert(keyword("DROP", "Remove a database object. Add IF EXISTS to suppress missing-object errors.", "DROP TABLE IF EXISTS users CASCADE;", "sql-droptable.html"));
    t.insert(keyword("RENAME", "Rename a table or column inside ALTER TABLE.", "ALTER TABLE users RENAME COLUMN nick TO nickname;", "sql-altertable.html"));
    t.insert(keyword("ADD", "Add a column or constraint inside ALTER TABLE.", "ALTER TABLE users ADD COLUMN role TEXT;", "sql-altertable.html"));
    t.insert(keyword("COLUMN", "The COLUMN keyword. Used inside ALTER TABLE ADD/DROP/RENAME COLUMN.", "ALTER TABLE users DROP COLUMN old_field;", "sql-altertable.html"));
    t.insert(keyword("TRUNCATE", "Remove every row from a table fast (no row-by-row scan).", "TRUNCATE TABLE sessions;", "sql-truncate.html"));
    t.insert(keyword("IF", "Modifier in IF NOT EXISTS / IF EXISTS.", "CREATE TABLE IF NOT EXISTS ...", "sql-createtable.html"));
    t.insert(keyword("IF NOT EXISTS", "Idempotent modifier on CREATE statements.", "CREATE TABLE IF NOT EXISTS users (...);", "sql-createtable.html"));
    t.insert(keyword("IF EXISTS", "Idempotent modifier on DROP / ALTER statements.", "DROP TABLE IF EXISTS users;", "sql-droptable.html"));
    t.insert(keyword("CONSTRAINT", "Name a table / column constraint. Required for FOREIGN KEY clauses.", "CONSTRAINT pk_users PRIMARY KEY (id)", "ddl-constraints.html"));
    t.insert(keyword("KEY", "Constraint qualifier. PRIMARY KEY / FOREIGN KEY.", "PRIMARY KEY (id)", "ddl-constraints.html"));
    t.insert(keyword("PRIMARY", "Identifies the row. Implies UNIQUE + NOT NULL.", "id UUID PRIMARY KEY", "ddl-constraints.html#DDL-CONSTRAINTS-PRIMARY-KEYS"));
    t.insert(keyword("FOREIGN", "FOREIGN KEY references another table's primary key.", "FOREIGN KEY (user_id) REFERENCES users (id)", "ddl-constraints.html#DDL-CONSTRAINTS-FK"));
    t.insert(keyword("RESTRICT", "ON DELETE/UPDATE action: forbid the operation if referencing rows exist.", "REFERENCES users(id) ON DELETE RESTRICT", "ddl-constraints.html#DDL-CONSTRAINTS-FK"));
    t.insert(keyword("SET NULL", "ON DELETE action: NULL the referencing column.", "REFERENCES users(id) ON DELETE SET NULL", "ddl-constraints.html#DDL-CONSTRAINTS-FK"));
    t.insert(keyword("SET DEFAULT", "ON DELETE action: reset the referencing column to its DEFAULT.", "REFERENCES users(id) ON DELETE SET DEFAULT", "ddl-constraints.html#DDL-CONSTRAINTS-FK"));
    t.insert(keyword("NO ACTION", "ON DELETE/UPDATE action: defer constraint check; default behaviour.", "REFERENCES users(id) ON DELETE NO ACTION", "ddl-constraints.html#DDL-CONSTRAINTS-FK"));
    t.insert(keyword("TRANSACTION", "Synonym block for BEGIN / COMMIT / ROLLBACK.", "BEGIN TRANSACTION; ... COMMIT;", "sql-begin.html"));
    t.insert(keyword("INTERSECT", "Set operator: rows present in both result sets, deduplicated.", "SELECT user_id FROM orders INTERSECT SELECT id FROM users;", "queries-union.html"));
    t.insert(keyword("EXCEPT", "Set operator: rows in the first result set that aren't in the second.", "SELECT id FROM users EXCEPT SELECT user_id FROM orders;", "queries-union.html"));
    t.insert(keyword("RECURSIVE", "Make a WITH clause recursive. Used for tree / graph traversal.", "WITH RECURSIVE tree AS (...)", "queries-with.html#QUERIES-WITH-RECURSIVE"));
    t.insert(keyword("ANALYZE", "Refresh planner statistics. Distinct from EXPLAIN ANALYZE.", "ANALYZE users;", "sql-analyze.html"));
    t.insert(keyword("VACUUM", "Reclaim storage. VACUUM FULL rewrites the table.", "VACUUM ANALYZE users;", "sql-vacuum.html"));
    t.insert(keyword("NULLS", "Sort modifier. NULLS FIRST / NULLS LAST controls where NULLs land.", "ORDER BY deleted_at NULLS LAST", "sql-select.html#SQL-ORDERBY"));
    t.insert(keyword("FIRST", "Modifier for NULLS FIRST in ORDER BY.", "ORDER BY x NULLS FIRST", "sql-select.html#SQL-ORDERBY"));
    t.insert(keyword("LAST", "Modifier for NULLS LAST in ORDER BY.", "ORDER BY x NULLS LAST", "sql-select.html#SQL-ORDERBY"));
    t.insert(keyword("*", "Star: select all columns of the row source. Avoid in production code; prefer explicit columns.", "SELECT * FROM users LIMIT 10;", "sql-select.html#SQL-SELECT-LIST"));
    t.insert(keyword("NULL", "SQL NULL: missing / unknown value. Use IS NULL / IS NOT NULL to test; `=` against NULL always yields NULL.", "WHERE deleted_at IS NULL", "functions-comparison.html"));
    t.insert(keyword("INSERT", "Insert new rows. Combine with RETURNING to get generated columns back.", "INSERT INTO users (name) VALUES ('alice');", "sql-insert.html"));
    t.insert(keyword("DELETE", "Remove rows. RETURNING shows what was deleted.", "DELETE FROM users WHERE id = $1;", "sql-delete.html"));
    t.insert(keyword("ORDER", "Sort modifier. ORDER BY <col> [ASC|DESC].", "ORDER BY created_at DESC", "sql-select.html#SQL-ORDERBY"));
    t.insert(keyword("GROUP", "Group rows. GROUP BY <cols>.", "GROUP BY user_id", "sql-select.html#SQL-GROUPBY"));
    t.insert(keyword("FUNCTION", "Stored function. CREATE FUNCTION ... LANGUAGE plpgsql / sql.", "CREATE OR REPLACE FUNCTION fn() RETURNS void AS $$ ... $$ LANGUAGE plpgsql;", "sql-createfunction.html"));
    t.insert(keyword("PROCEDURE", "Stored procedure (no return value). Call with CALL.", "CREATE PROCEDURE p() LANGUAGE plpgsql AS $$ ... $$;", "sql-createprocedure.html"));
    t.insert(keyword("TRIGGER", "Stored callback that fires on INSERT / UPDATE / DELETE / TRUNCATE.", "CREATE TRIGGER t BEFORE INSERT ON users FOR EACH ROW EXECUTE FUNCTION fn();", "sql-createtrigger.html"));
    t.insert(keyword("RETURNS", "Return-type clause in CREATE FUNCTION.", "CREATE FUNCTION fn() RETURNS uuid", "sql-createfunction.html"));
    t.insert(keyword("RETURN", "Return a value from a PL/pgSQL function.", "RETURN result;", "plpgsql-control-structures.html"));
    t.insert(keyword("LANGUAGE", "Procedural language for CREATE FUNCTION. Common: plpgsql, sql.", "$$ ... $$ LANGUAGE plpgsql", "sql-createfunction.html"));
    t.insert(keyword("PLPGSQL", "Default Postgres procedural language. Block-structured with DECLARE / BEGIN / END.", "LANGUAGE plpgsql", "plpgsql.html"));
    t.insert(keyword("STABLE", "Volatility marker: same arguments return the same result within a single statement.", "CREATE FUNCTION fn() RETURNS uuid STABLE AS $$ ... $$;", "xfunc-volatility.html"));
    t.insert(keyword("VOLATILE", "Volatility marker (default): result can change at any time.", "CREATE FUNCTION rnd() RETURNS double VOLATILE AS $$ ... $$;", "xfunc-volatility.html"));
    t.insert(keyword("IMMUTABLE", "Volatility marker: pure, no DB or side-effect access.", "CREATE FUNCTION square(int) RETURNS int IMMUTABLE AS $$ ... $$;", "xfunc-volatility.html"));
    t.insert(keyword("STORED", "STORED generated columns: value persisted in the table on each write.", "amount NUMERIC GENERATED ALWAYS AS (qty * price) STORED", "ddl-generated-columns.html"));
    t.insert(keyword("GENERATED", "Generated column. ALWAYS / BY DEFAULT.", "id BIGINT GENERATED ALWAYS AS IDENTITY", "ddl-generated-columns.html"));
    t.insert(keyword("ALWAYS", "Generated-column qualifier: always evaluate the expression.", "GENERATED ALWAYS AS IDENTITY", "ddl-generated-columns.html"));
    t.insert(keyword("IDENTITY", "Auto-assign primary key from a sequence. Preferred over SERIAL.", "id BIGINT GENERATED ALWAYS AS IDENTITY PRIMARY KEY", "ddl-identity-columns.html"));
    t.insert(keyword("DECLARE", "Variable declarations at the top of a PL/pgSQL block.", "DECLARE n INT := 0; BEGIN ... END;", "plpgsql-declarations.html"));
    t.insert(keyword("FOR", "PL/pgSQL loop. FOR i IN 1..10 / FOR r IN SELECT ...", "FOR r IN SELECT * FROM users LOOP RAISE NOTICE '%', r.id; END LOOP;", "plpgsql-control-structures.html#PLPGSQL-CONTROL-STRUCTURES-LOOPS-FOR"));
    t.insert(keyword("WHILE", "Loop while a condition is true.", "WHILE n < 10 LOOP n := n + 1; END LOOP;", "plpgsql-control-structures.html#PLPGSQL-CONTROL-STRUCTURES-LOOPS"));
    t.insert(keyword("ELSIF", "PL/pgSQL else-if branch.", "IF a THEN ... ELSIF b THEN ... END IF;", "plpgsql-control-structures.html#PLPGSQL-CONDITIONALS"));
    t.insert(keyword("RAISE", "Throw a PL/pgSQL notice / exception.", "RAISE NOTICE 'value is %', v;", "plpgsql-errors-and-messages.html"));
    t.insert(keyword("NOTICE", "RAISE level: log message; query continues.", "RAISE NOTICE 'value is %', v;", "plpgsql-errors-and-messages.html"));
    t.insert(keyword("WARNING", "RAISE level above NOTICE.", "RAISE WARNING 'careful';", "plpgsql-errors-and-messages.html"));
    t.insert(keyword("EXCEPTION", "RAISE EXCEPTION aborts the transaction. Also block-level handler.", "RAISE EXCEPTION 'bad input: %', x;", "plpgsql-errors-and-messages.html"));
    t.insert(keyword("NEW", "Trigger row variable: the row being inserted / updated.", "BEGIN NEW.updated_at := now(); RETURN NEW; END;", "plpgsql-trigger.html"));
    t.insert(keyword("OLD", "Trigger row variable: the row before UPDATE / DELETE.", "IF OLD.role <> NEW.role THEN RAISE NOTICE 'role changed'; END IF;", "plpgsql-trigger.html"));
    t.insert(keyword("BEFORE", "Trigger timing: fire before the row change.", "CREATE TRIGGER t BEFORE INSERT ON users ...", "sql-createtrigger.html"));
    t.insert(keyword("AFTER", "Trigger timing: fire after the row change.", "CREATE TRIGGER t AFTER UPDATE ON users ...", "sql-createtrigger.html"));
    t.insert(keyword("INSTEAD", "Trigger timing for views: replace the operation entirely.", "CREATE TRIGGER t INSTEAD OF INSERT ON v ...", "sql-createtrigger.html"));
    t.insert(keyword("EACH", "Trigger row-vs-statement modifier. FOR EACH ROW / FOR EACH STATEMENT.", "FOR EACH ROW EXECUTE FUNCTION fn();", "sql-createtrigger.html"));
    t.insert(keyword("ROW", "Trigger granularity: per row.", "FOR EACH ROW", "sql-createtrigger.html"));
    t.insert(keyword("STATEMENT", "Trigger granularity: per statement (default).", "FOR EACH STATEMENT", "sql-createtrigger.html"));
    t.insert(keyword("EXECUTE", "Run a function or dynamic SQL.", "EXECUTE FUNCTION audit_change();", "sql-createtrigger.html"));
    t.insert(keyword("GRANT", "Grant privileges to a role.", "GRANT SELECT ON users TO readonly;", "sql-grant.html"));
    t.insert(keyword("REVOKE", "Revoke privileges from a role.", "REVOKE SELECT ON users FROM readonly;", "sql-revoke.html"));
    t.insert(keyword("ROLE", "Database role (a user or group).", "CREATE ROLE readonly LOGIN PASSWORD '...';", "user-manag.html"));
    t.insert(keyword("USER", "Synonym for ROLE with LOGIN.", "CREATE USER alice PASSWORD '...';", "sql-createuser.html"));
    t.insert(keyword("OWNER", "Object owner. ALTER ... OWNER TO sets it.", "ALTER TABLE users OWNER TO alice;", "sql-alterowner.html"));
    t.insert(keyword("PASSWORD", "ROLE password attribute.", "ALTER ROLE alice PASSWORD '...';", "sql-alterrole.html"));
    t.insert(keyword("SHOW", "Display a run-time parameter.", "SHOW search_path;", "sql-show.html"));
    t.insert(keyword("COMMENT", "Attach a comment to a database object.", "COMMENT ON TABLE users IS 'app users';", "sql-comment.html"));
    t.insert(keyword("COPY", "Bulk-load / bulk-export a table.", "COPY users FROM '/tmp/users.csv' CSV HEADER;", "sql-copy.html"));
}

fn part_2(t: &mut Table)
    requires
        old(t).wf(),
        old(t).table_kind() == Kind::Keyword,
    ensures
        final(t).wf(),
        final(t).table_kind() == Kind::Keyword,
        final(t).contents() == keyword_part_2(old(t).contents()),
{
    t.insert(keyword("MERGE", "Conditional upsert. Postgres 15+.", "MERGE INTO target t USING source s ON t.id = s.id WHEN MATCHED THEN UPDATE SET ...;", "sql-merge.html"));
    t.insert(keyword("REFRESH", "Refresh a materialised view.", "REFRESH MATERIALIZED VIEW user_counts;", "sql-refreshmaterializedview.html"));
    t.insert(keyword("REINDEX", "Rebuild an index.", "REINDEX TABLE users;", "sql-reindex.html"));
    t.insert(keyword("TO", "Target keyword in GRANT / REVOKE / ALTER ... OWNER TO / RENAME ... TO / SET ... TO.", "ALTER TABLE users OWNER TO alice;", "sql-grant.html"));
    t.insert(keyword("CALL", "Invoke a stored PROCEDURE.", "CALL refresh_counts();", "sql-call.html"));
    t.insert(keyword("REPLACE", "Used in CREATE OR REPLACE to redefine functions / views without dropping them.", "CREATE OR REPLACE FUNCTION fn() ...", "sql-createfunction.html"));
    t.insert(keyword("OF", "Modifier in INSTEAD OF / TYPE OF / FOR EACH ROW OF.", "CREATE TRIGGER t INSTEAD OF INSERT ON v ...", "sql-createtrigger.html"));
    t.insert(keyword("CAST", "Explicit type conversion. SQL-standard form of the `::` operator.", "CAST(id AS text)", "sql-expressions.html#SQL-SYNTAX-TYPE-CASTS"));
    t.insert(keyword("CONFLICT", "Used in ON CONFLICT clauses for UPSERT.", "INSERT INTO t ... ON CONFLICT (id) DO UPDATE ...", "sql-insert.html#SQL-ON-CONFLICT"));
    t.insert(keyword("MATCHED", "Used in MERGE WHEN MATCHED / NOT MATCHED branches.", "WHEN MATCHED THEN UPDATE SET ...", "sql-merge.html"));
    t.insert(keyword("NOTHING", "ON CONFLICT DO NOTHING action.", "ON CONFLICT DO NOTHING", "sql-insert.html#SQL-ON-CONFLICT"));
    t.insert(keyword("WHEN", "CASE branch test. Pairs with THEN.", "CASE WHEN x > 0 THEN 'pos' WHEN x < 0 THEN 'neg' ELSE 'zero' END", "functions-conditional.html#FUNCTIONS-CASE"));
    t.insert(keyword("THEN", "CASE branch result. Follows WHEN.", "CASE WHEN x > 0 THEN 'positive' END", "functions-conditional.html#FUNCTIONS-CASE"));
    t.insert(keyword("ELSE", "CASE fallback branch.", "CASE WHEN x > 0 THEN 1 ELSE 0 END", "functions-conditional.html#FUNCTIONS-CASE"));
    t.insert(keyword("END", "CASE terminator. Also closes a PL/pgSQL block (END LOOP / END IF).", "CASE WHEN x > 0 THEN 1 ELSE 0 END", "functions-conditional.html#FUNCTIONS-CASE"));
    t.insert(keyword("ASC", "Ascending order. The default for ORDER BY.", "ORDER BY created_at ASC", "sql-select.html#SQL-ORDERBY"));
    t.insert(keyword("DESC", "Descending order.", "ORDER BY created_at DESC", "sql-select.html#SQL-ORDERBY"));
    t.insert(keyword("TRUE", "Boolean true.", "WHERE is_active = TRUE", "datatype-boolean.html"));
    t.insert(keyword("FALSE", "Boolean false.", "WHERE deleted = FALSE", "datatype-boolean.html"));
    t.insert(keyword("ARRAY", "Array type / constructor. ARRAY[1,2,3] builds an int[] literal.", "ids INT[] DEFAULT ARRAY[1,2,3]", "arrays.html"));
    t.insert(keyword("WITHIN", "Used by ordered-set aggregates: agg() WITHIN GROUP (ORDER BY ...).", "SELECT percentile_cont(0.5) WITHIN GROUP (ORDER BY age) FROM users;", "functions-aggregate.html#FUNCTIONS-ORDEREDSET-TABLE"));
    t.insert(keyword("SIMILAR", "SIMILAR TO: SQL-standard regex-like pattern matching.", "WHERE name SIMILAR TO '%(foo|bar)%'", "functions-matching.html#FUNCTIONS-SIMILARTO-REGEXP"));
    t.insert(keyword("INTERVAL", "Interval literal. INTERVAL '1 day'.", "now() - INTERVAL '7 days'", "datatype-datetime.html#DATATYPE-INTERVAL-INPUT"));
    t.insert(keyword("OVERLAPS", "Tuple-of-pairs predicate: (a,b) OVERLAPS (c,d).", "(start1, end1) OVERLAPS (start2, end2)", "functions-datetime.html#FUNCTIONS-DATETIME-OVERLAPS"));
    t.insert(keyword("CONCURRENTLY", "Create / drop indexes without holding a write lock.", "CREATE INDEX CONCURRENTLY idx_users_email ON users (email);", "sql-createindex.html"));
    t.insert(keyword("ONLY", "Restrict UPDATE / DELETE / SELECT to a parent table without inheriting children.", "DELETE FROM ONLY parent WHERE id = $1;", "ddl-inherit.html"));
    t.insert(keyword("FETCH", "SQL-standard alternative to LIMIT. FETCH FIRST n ROWS ONLY.", "SELECT * FROM users ORDER BY id FETCH FIRST 50 ROWS ONLY;", "sql-select.html#SQL-LIMIT"));
    t.insert(keyword("ROWS", "FETCH FIRST n ROWS ONLY / ROWS BETWEEN window framing.", "FETCH FIRST 50 ROWS ONLY", "sql-select.html#SQL-LIMIT"));
    t.insert(keyword("RANGE", "Window frame mode: RANGE between value-relative bounds.", "OVER (ORDER BY ts RANGE BETWEEN INTERVAL '1 day' PRECEDING AND CURRENT ROW)", "sql-expressions.html#SYNTAX-WINDOW-FUNCTIONS"));
    t.insert(keyword("CURRENT", "Window frame anchor.", "OVER (ORDER BY ts ROWS BETWEEN UNBOUNDED PRECEDING AND CURRENT ROW)", "sql-expressions.html#SYNTAX-WINDOW-FUNCTIONS"));
    t.insert(keyword("UNBOUNDED", "Window frame bound: UNBOUNDED PRECEDING / UNBOUNDED FOLLOWING.", "OVER (ROWS BETWEEN UNBOUNDED PRECEDING AND UNBOUNDED FOLLOWING)", "sql-expressions.html#SYNTAX-WINDOW-FUNCTIONS"));
    t.insert(keyword("PRECEDING", "Window frame bound. UNBOUNDED PRECEDING / N PRECEDING.", "OVER (ROWS BETWEEN 3 PRECEDING AND CURRENT ROW)", "sql-expressions.html#SYNTAX-WINDOW-FUNCTIONS"));
    t.insert(keyword("FOLLOWING", "Window frame bound. UNBOUNDED FOLLOWING / N FOLLOWING.", "OVER (ROWS BETWEEN CURRENT ROW AND 3 FOLLOWING)", "sql-expressions.html#SYNTAX-WINDOW-FUNCTIONS"));
    t.insert(keyword("WINDOW", "Named window clause -- declare a reusable window spec for window functions.", "SELECT rank() OVER w FROM t WINDOW w AS (PARTITION BY id ORDER BY ts)", "sql-select.html#SQL-WINDOW"));
    t.insert(keyword("BETWEEN AND", "BETWEEN range predicate uses AND to separate the bounds.", "WHERE age BETWEEN 18 AND 65", "functions-comparison.html"));
    t.insert(keyword("MATERIALIZED", "Use MATERIALIZED VIEW for a stored-query that survives across sessions; refresh with REFRESH.", "CREATE MATERIALIZED VIEW daily_sales AS SELECT day, sum(amount) FROM orders GROUP BY day;", "sql-creatematerializedview.html"));
    t.insert(keyword("MATERIALIZED VIEW", "A view whose result is physically stored. Run REFRESH MATERIALIZED VIEW to recompute.", "CREATE MATERIALIZED VIEW daily_sales AS ...", "rules-materializedviews.html"));
    t.insert(keyword("CREATE MATERIALIZED VIEW", "Define a stored, refreshable view.", "CREATE MATERIALIZED VIEW daily_sales AS SELECT ...", "sql-creatematerializedview.html"));
    t.insert(keyword("REFRESH MATERIALIZED VIEW", "Recompute a materialized view. CONCURRENTLY allows reads during refresh.", "REFRESH MATERIALIZED VIEW CONCURRENTLY daily_sales;", "sql-refreshmaterializedview.html"));
    t.insert(keyword("TEMP", "Shorthand for TEMPORARY.", "CREATE TEMP TABLE staging (...);", "sql-createtable.html"));
    t.insert(keyword("TEMPORARY", "Drops at session end; resides in pg_temp schema.", "CREATE TEMPORARY TABLE staging (...);", "sql-createtable.html"));
    t.insert(keyword("UNLOGGED", "Skips WAL writes -- faster but data lost on crash. Good for cache tables.", "CREATE UNLOGGED TABLE cache_blob (...);", "sql-createtable.html"));
    t.insert(keyword("TABLESPACE", "Place the relation on a non-default tablespace.", "CREATE TABLE big (...) TABLESPACE fast_ssd;", "manage-ag-tablespaces.html"));
    t.insert(keyword("PARTITION BY RANGE", "Range-partitioned table on one or more columns.", "CREATE TABLE m (...) PARTITION BY RANGE (created_at);", "ddl-partitioning.html"));
    t.insert(keyword("PARTITION BY LIST", "List partitioning -- one partition per discrete value set.", "CREATE TABLE m (...) PARTITION BY LIST (country);", "ddl-partitioning.html"));
    t.insert(keyword("PARTITION BY HASH", "Hash partitioning -- modulo on a column.", "CREATE TABLE m (...) PARTITION BY HASH (id);", "ddl-partitioning.html"));
    t.insert(keyword("PARTITION OF", "Declare a child partition of an existing table.", "CREATE TABLE m_2026 PARTITION OF m FOR VALUES FROM ('2026-01-01') TO ('2027-01-01');", "ddl-partitioning.html"));
    t.insert(keyword("FOR VALUES", "Bound spec for a partition.", "PARTITION OF m FOR VALUES FROM ('a') TO ('m')", "ddl-partitioning.html"));
    t.insert(keyword("DEFAULT", "Used in PARTITION OF DEFAULT or column DEFAULT clause.", "PARTITION OF m DEFAULT", "ddl-partitioning.html"));
    t.insert(keyword("FOR UPDATE", "Lock selected rows against concurrent UPDATE/DELETE.", "SELECT * FROM accounts WHERE id = $1 FOR UPDATE;", "sql-select.html#SQL-FOR-UPDATE-SHARE"));
    t.insert(keyword("FOR SHARE", "Share lock -- multiple readers, blocks writers.", "SELECT * FROM accounts FOR SHARE;", "sql-select.html#SQL-FOR-UPDATE-SHARE"));
    t.insert(keyword("NULLS FIRST", "Place NULLs at the start of an ORDER BY.", "ORDER BY rank NULLS FIRST", "queries-order.html"));
    t.insert(keyword("NULLS LAST", "Place NULLs at the end of an ORDER BY (default for ASC).", "ORDER BY rank NULLS LAST", "queries-order.html"));
    t.insert(keyword("INITIALLY DEFERRED", "Default mode of a DEFERRABLE constraint -- check at commit.", "DEFERRABLE INITIALLY DEFERRED", "sql-set-constraints.html"));
    t.insert(keyword("INITIALLY IMMEDIATE", "Constraint checked per statement (default for non-deferrable).", "DEFERRABLE INITIALLY IMMEDIATE", "sql-set-constraints.html"));
    t.insert(keyword("LISTEN", "Subscribe to NOTIFY events on a channel.", "LISTEN job_inserted;", "sql-listen.html"));
    t.insert(keyword("NOTIFY", "Send an asynchronous notification on a channel.", "NOTIFY job_inserted, 'payload';", "sql-notify.html"));
    t.insert(keyword("UNLISTEN", "Stop receiving NOTIFY events.", "UNLISTEN job_inserted;", "sql-unlisten.html"));
    t.insert(keyword("CHECKPOINT", "Force a WAL checkpoint -- diagnostic / maintenance use.", "CHECKPOINT;", "sql-checkpoint.html"));
    t.insert(keyword("LOCK TABLE", "Acquire an explicit table-level lock.", "LOCK TABLE accounts IN SHARE ROW EXCLUSIVE MODE;", "sql-lock.html"));
    t.insert(keyword("PREPARE", "Server-side prepared statement -- $1, $2 placeholders, planned once.", "PREPARE upsert_user(text) AS INSERT INTO users(email) VALUES ($1);", "sql-prepare.html"));
    t.insert(keyword("DEALLOCATE", "Release a server-side prepared statement.", "DEALLOCATE upsert_user;", "sql-deallocate.html"));
    t.insert(keyword("EXIT", "Leave the enclosing loop. EXIT WHEN <cond> is the idiomatic form.", "EXIT WHEN i > 10;", "plpgsql-control-structures.html"));
    t.insert(keyword("CONTINUE", "Skip to next iteration of the enclosing loop.", "CONTINUE WHEN should_skip(row);", "plpgsql-control-structures.html"));
    t.insert(keyword("FOUND", "Boolean set after the most recent SQL command (UPDATE/INSERT/SELECT INTO etc.).", "IF NOT FOUND THEN RAISE EXCEPTION 'no row'; END IF;", "plpgsql-statements.html#PLPGSQL-STATEMENTS-DIAGNOSTICS"));
    t.insert(keyword("STRICT", "SELECT INTO STRICT -- raise if 0 or >1 rows. Also a function volatility marker.", "SELECT id INTO STRICT v_id FROM users WHERE email = $1;", "plpgsql-statements.html#PLPGSQL-STATEMENTS-SQL-ONEROW"));
    t.insert(keyword("INTO STRICT", "PL/pgSQL: assign exactly one row or raise.", "SELECT * INTO STRICT v_row FROM users WHERE id = $1;", "plpgsql-statements.html#PLPGSQL-STATEMENTS-SQL-ONEROW"));
    t.insert(keyword("ENABLE TRIGGER", "Re-enable a trigger that was disabled.", "ALTER TABLE users ENABLE TRIGGER audit_users;", "sql-altertable.html"));
    t.insert(keyword("DISABLE TRIGGER", "Temporarily turn off a trigger.", "ALTER TABLE users DISABLE TRIGGER audit_users;", "sql-altertable.html"));
    t.insert(keyword("SET DATA TYPE", "Change a column's type, optionally with USING <expr>.", "ALTER TABLE t ALTER COLUMN c SET DATA TYPE bigint USING c::bigint;", "sql-altertable.html"));
    t.insert(keyword("DROP NOT NULL", "Make a NOT NULL column nullable again.", "ALTER TABLE t ALTER COLUMN c DROP NOT NULL;", "sql-altertable.html"));
    t.insert(keyword("SET NOT NULL", "Forbid NULL in a column. Postgres scans the table to verify.", "ALTER TABLE t ALTER COLUMN c SET NOT NULL;", "sql-altertable.html"));
    t.insert(keyword("NEXT", "FETCH NEXT clause -- equivalent to LIMIT in SQL standard syntax.", "SELECT * FROM t FETCH NEXT 10 ROWS ONLY;", "sql-select.html"));
    t.insert(keyword("NATURAL", "NATURAL JOIN -- automatic equi-join on common column names. Brittle; prefer explicit ON/USING.", "SELECT * FROM a NATURAL JOIN b;", "queries-table-expressions.html"));
    t.insert(keyword("PARTITION", "Window-frame partitioning OR table partitioning (PARTITION BY RANGE/LIST/HASH).", "OVER (PARTITION BY dept)", "ddl-partitioning.html"));
}

fn part_3(t: &mut Table)
    requires
        old(t).wf(),
        old(t).table_kind() == Kind::Keyword,
    ensures
        final(t).wf(),
        final(t).table_kind() == Kind::Keyword,
        final(t).contents() == keyword_part_3(old(t).contents()),
{
    t.insert(keyword("GROUPS", "Window-frame mode counting peer groups (vs ROWS / RANGE).", "OVER (ORDER BY x GROUPS BETWEEN 1 PRECEDING AND CURRENT ROW)", "sql-expressions.html#SYNTAX-WINDOW-FUNCTIONS"));
    t.insert(keyword("ISOLATION", "Transaction isolation level.", "SET TRANSACTION ISOLATION LEVEL REPEATABLE READ;", "transaction-iso.html"));
    t.insert(keyword("LEVEL", "Used with ISOLATION LEVEL.", "BEGIN ISOLATION LEVEL SERIALIZABLE;", "transaction-iso.html"));
    t.insert(keyword("IMMEDIATE", "SET CONSTRAINTS ... IMMEDIATE -- check immediately at statement end.", "SET CONSTRAINTS ALL IMMEDIATE;", "sql-set-constraints.html"));
    t.insert(keyword("DEFERRED", "SET CONSTRAINTS ... DEFERRED -- defer check until commit. Constraint must be DEFERRABLE.", "SET CONSTRAINTS fk_x DEFERRED;", "sql-set-constraints.html"));
    t.insert(keyword("TYPE", "CREATE TYPE / ALTER TYPE -- composite, enum, range, base types.", "CREATE TYPE status AS ENUM ('open','closed');", "sql-createtype.html"));
    t.insert(keyword("DOMAIN", "CREATE DOMAIN -- named NOT NULL/CHECK shorthand over a base type.", "CREATE DOMAIN email_t AS TEXT CHECK (VALUE ~ '@');", "sql-createdomain.html"));
    t.insert(keyword("DATABASE", "CREATE/ALTER/DROP DATABASE.", "CREATE DATABASE mydb OWNER alice;", "sql-createdatabase.html"));
    t.insert(keyword("PUBLIC", "Special pseudo-role granted access to everyone.", "GRANT SELECT ON t TO PUBLIC;", "sql-grant.html"));
    t.insert(keyword("PRIVILEGES", "Used with GRANT/REVOKE ALL PRIVILEGES.", "GRANT ALL PRIVILEGES ON t TO bob;", "sql-grant.html"));
    t.insert(keyword("SECURITY", "SECURITY DEFINER / INVOKER on functions; controls whose privileges run the body.", "CREATE FUNCTION f() ... SECURITY DEFINER;", "sql-createfunction.html"));
    t.insert(keyword("DEFINER", "Function runs with the privileges of the role that defined it.", "SECURITY DEFINER", "sql-createfunction.html"));
    t.insert(keyword("INVOKER", "Function runs with the privileges of the calling role (default).", "SECURITY INVOKER", "sql-createfunction.html"));
    t.insert(keyword("OWNED", "ALTER X OWNED BY ... -- transfer all objects owned by a role.", "ALTER SCHEMA s OWNER TO alice;", "sql-alterrole.html"));
    t.insert(keyword("EXCLUDE", "Exclusion constraint -- generalised UNIQUE using operators.", "EXCLUDE USING gist (room WITH =, span WITH &&)", "sql-createtable.html"));
    t.insert(keyword("GIST", "Generalised Search Tree -- index method for geometric / range / fts data.", "CREATE INDEX ... USING gist (col);", "gist.html"));
    t.insert(keyword("GIN", "Generalised Inverted Index -- arrays, jsonb, full-text.", "CREATE INDEX ... USING gin (col);", "gin.html"));
    t.insert(keyword("BRIN", "Block Range INdex -- small index for large, naturally sorted tables.", "CREATE INDEX ... USING brin (ts);", "brin.html"));
    t.insert(keyword("BTREE", "B-tree -- default index method.", "CREATE INDEX ... USING btree (col);", "btree.html"));
    t.insert(keyword("HASH", "Hash index -- equality only; WAL-logged since PG10.", "CREATE INDEX ... USING hash (col);", "hash-index.html"));
    t.insert(keyword("LOCK", "Acquire a table-level lock.", "LOCK TABLE t IN ACCESS EXCLUSIVE MODE;", "sql-lock.html"));
    t.insert(keyword("SHARE", "Lock mode allowing other readers (ROW SHARE / SHARE / SHARE UPDATE EXCLUSIVE / SHARE ROW EXCLUSIVE).", "LOCK t IN SHARE MODE;", "explicit-locking.html"));
    t.insert(keyword("ACCESS", "ACCESS SHARE / ACCESS EXCLUSIVE lock modes.", "LOCK t IN ACCESS EXCLUSIVE MODE;", "explicit-locking.html"));
    t.insert(keyword("EXCLUSIVE", "EXCLUSIVE / ACCESS EXCLUSIVE / SHARE ROW EXCLUSIVE lock mode.", "LOCK t IN EXCLUSIVE MODE;", "explicit-locking.html"));
    t.insert(keyword("MODE", "Lock-mode keyword in LOCK statements.", "LOCK t IN SHARE MODE;", "sql-lock.html"));
    t.insert(keyword("NO", "NO ACTION / NO INHERIT / NO CYCLE / WITH NO DATA.", "ON DELETE NO ACTION", "sql-createtable.html"));
    t.insert(keyword("SKIP", "SKIP LOCKED -- skip rows already locked by another transaction.", "SELECT ... FOR UPDATE SKIP LOCKED;", "sql-select.html"));
    t.insert(keyword("LOCKED", "Used with SKIP LOCKED.", "FOR UPDATE SKIP LOCKED", "sql-select.html"));
    t.insert(keyword("WAIT", "NOWAIT / WAIT -- alternative to SKIP LOCKED in SELECT FOR locking.", "SELECT ... FOR UPDATE NOWAIT;", "sql-select.html"));
    t.insert(keyword("ABORT", "Synonym for ROLLBACK.", "ABORT;", "sql-abort.html"));
    t.insert(keyword("CLUSTER", "CLUSTER TABLE -- physically reorder by an index.", "CLUSTER t USING idx;", "sql-cluster.html"));
    t.insert(keyword("CSV", "COPY ... FORMAT CSV.", "COPY t FROM '/p.csv' CSV HEADER;", "sql-copy.html"));
    t.insert(keyword("PROGRAM", "COPY ... FROM/TO PROGRAM 'cmd'.", "COPY t FROM PROGRAM 'gunzip -c f.gz' CSV;", "sql-copy.html"));
    t.insert(keyword("DELIMITER", "COPY DELIMITER ','.", "COPY t FROM '/p.csv' DELIMITER ',';", "sql-copy.html"));
    t.insert(keyword("HEADER", "COPY ... CSV HEADER -- skip first row.", "COPY t FROM 'p.csv' CSV HEADER;", "sql-copy.html"));
    t.insert(keyword("QUOTE", "COPY ... CSV QUOTE '\"'.", "COPY t TO 'p.csv' CSV QUOTE '\\'';", "sql-copy.html"));
    t.insert(keyword("FORCE", "COPY ... FORCE QUOTE / FORCE NOT NULL.", "COPY t TO 'p.csv' CSV FORCE QUOTE *;", "sql-copy.html"));
    t.insert(keyword("VERBOSE", "EXPLAIN VERBOSE / VACUUM VERBOSE.", "EXPLAIN VERBOSE SELECT ...;", "sql-explain.html"));
    t.insert(keyword("FORMAT", "EXPLAIN (FORMAT JSON|TEXT|YAML|XML).", "EXPLAIN (FORMAT JSON) SELECT ...;", "sql-explain.html"));
    t.insert(keyword("TIMING", "EXPLAIN (TIMING true|false) -- per-node timing.", "EXPLAIN (ANALYZE, TIMING true) SELECT ...;", "sql-explain.html"));
    t.insert(keyword("SETTINGS", "EXPLAIN (SETTINGS true) -- list non-default GUCs.", "EXPLAIN (SETTINGS true) SELECT ...;", "sql-explain.html"));
    t.insert(keyword("ENABLE", "ALTER TABLE ENABLE TRIGGER / RULE / ROW LEVEL SECURITY / REPLICA.", "ALTER TABLE t ENABLE ROW LEVEL SECURITY;", "sql-altertable.html"));
    t.insert(keyword("DISABLE", "ALTER TABLE DISABLE TRIGGER / RULE / RLS.", "ALTER TABLE t DISABLE TRIGGER ALL;", "sql-altertable.html"));
    t.insert(keyword("REPLICA", "ALTER TABLE REPLICA IDENTITY -- pick what gets logged for logical replication.", "ALTER TABLE t REPLICA IDENTITY FULL;", "sql-altertable.html"));
    t.insert(keyword("RULE", "CREATE RULE -- query rewriter (mostly used internally by views).", "CREATE RULE ... AS ON SELECT TO ... DO INSTEAD ...;", "sql-createrule.html"));
    t.insert(keyword("ABSOLUTE", "FETCH ABSOLUTE <n> FROM <cursor> -- jump to row <n> (1-based) without sequential scan.", "FETCH ABSOLUTE 100 FROM c;", "sql-fetch.html"));
    t.insert(keyword("ACTION", "FK referential action: NO ACTION (default), CASCADE, SET NULL, SET DEFAULT, RESTRICT.", "FOREIGN KEY (uid) REFERENCES users(id) ON DELETE NO ACTION", "sql-createtable.html#SQL-CREATETABLE-REFERENCES"));
    t.insert(keyword("ADMIN", "GRANT <role> TO <member> WITH ADMIN OPTION -- recipient can grant <role> to others.", "GRANT app_admin TO alice WITH ADMIN OPTION;", "sql-grant.html"));
    t.insert(keyword("AGGREGATE", "CREATE/ALTER/DROP AGGREGATE -- user-defined aggregate function with state transition + final fn.", "CREATE AGGREGATE sum_squares(int) (SFUNC = int4pl, STYPE = int);", "sql-createaggregate.html"));
    t.insert(keyword("ALSO", "CREATE RULE ... DO ALSO <action> -- rule runs ALONGSIDE the original DML (vs DO INSTEAD).", "CREATE RULE log_ins AS ON INSERT TO t DO ALSO INSERT INTO audit VALUES (NEW.id);", "sql-createrule.html"));
    t.insert(keyword("ANALYSE", "British spelling of ANALYZE; same behavior.", "EXPLAIN (ANALYSE) SELECT * FROM t;", "sql-analyze.html"));
    t.insert(keyword("ASENSITIVE", "DECLARE <c> ASENSITIVE CURSOR ... -- SQL-standard noise word (default in PG). Cursor's visibility of concurrent updates is implementation-defined.", "DECLARE c ASENSITIVE CURSOR FOR SELECT * FROM t;", "sql-declare.html"));
    t.insert(keyword("ASSERTION", "SQL-standard `CREATE ASSERTION <name> CHECK (...)` -- reserved in PG, not implemented.", "-- reserved", "appendix-keywords.html"));
    t.insert(keyword("ASSIGNMENT", "CREATE CAST ... AS ASSIGNMENT -- cast injected during `INSERT`/`UPDATE` column-value assignment, not in general expressions.", "CREATE CAST (text AS my_t) WITH FUNCTION my_t_in(text) AS ASSIGNMENT;", "sql-createcast.html"));
    t.insert(keyword("ASYMMETRIC", "BETWEEN [ASYMMETRIC] -- default; requires lower <= upper. Compare with SYMMETRIC.", "WHERE x BETWEEN ASYMMETRIC 1 AND 10", "functions-comparison.html"));
    t.insert(keyword("AT", "<timestamptz> AT TIME ZONE '<tz>' -- convert between zones; AT LOCAL (PG17+) for session zone.", "SELECT now() AT TIME ZONE 'UTC';", "functions-datetime.html#FUNCTIONS-DATETIME-ZONECONVERT"));
    t.insert(keyword("ATTACH", "ALTER TABLE <parent> ATTACH PARTITION <child> FOR VALUES ... -- promote regular table to a partition.", "ALTER TABLE events ATTACH PARTITION events_2026 FOR VALUES FROM ('2026-01-01') TO ('2027-01-01');", "sql-altertable.html"));
    t.insert(keyword("ATTRIBUTE", "ALTER TYPE <composite> { ADD | DROP | ALTER } ATTRIBUTE <a> ... -- modify composite type's columns.", "ALTER TYPE point3d ADD ATTRIBUTE z double precision;", "sql-altertype.html"));
    t.insert(keyword("AUTHORIZATION", "CREATE SCHEMA <s> AUTHORIZATION <role> -- create schema owned by <role>.", "CREATE SCHEMA app AUTHORIZATION app_owner;", "sql-createschema.html"));
    t.insert(keyword("BACKWARD", "FETCH BACKWARD <n> FROM <cursor> -- step <n> rows toward start. Requires SCROLL cursor.", "FETCH BACKWARD 10 FROM c;", "sql-fetch.html"));
    t.insert(keyword("BIGINT", "Signed 8-byte integer, range -9223372036854775808..+9223372036854775807. Alias `int8`.", "CREATE TABLE counters (id BIGSERIAL PRIMARY KEY, hits BIGINT NOT NULL DEFAULT 0);", "datatype-numeric.html#DATATYPE-INT"));
    t.insert(keyword("BINARY", "COPY ... WITH (FORMAT binary) -- machine-readable wire format (no header line). Older syntax: `COPY ... BINARY`.", "COPY t TO '/tmp/d.bin' WITH (FORMAT binary);", "sql-copy.html"));
    t.insert(keyword("BIT", "Fixed-length bit string. `BIT(n)` -- exactly n bits. Variable form: `BIT VARYING(n)` / `VARBIT(n)`.", "flags BIT(8)", "datatype-bit.html"));
    t.insert(keyword("BOOLEAN", "Three-valued logic: TRUE / FALSE / NULL. 1 byte storage. Alias `bool`.", "CREATE TABLE flags (k text PRIMARY KEY, v BOOLEAN NOT NULL DEFAULT false);", "datatype-boolean.html"));
    t.insert(keyword("BOTH", "TRIM([BOTH] <chars> FROM <s>) -- strip <chars> from both ends. Default direction.", "SELECT TRIM(BOTH ' ' FROM '  hello  ');", "functions-string.html#FUNCTIONS-STRING-OTHER"));
    t.insert(keyword("BREADTH", "WITH RECURSIVE ... SEARCH BREADTH FIRST BY <cols> SET <out> -- BFS traversal annotation for recursive CTEs (PG14+).", "WITH RECURSIVE t AS (...) SEARCH BREADTH FIRST BY id SET ord SELECT * FROM t ORDER BY ord;", "queries-with.html#QUERIES-WITH-SEARCH"));
    t.insert(keyword("CACHE", "CREATE SEQUENCE ... CACHE <n> -- preallocate `<n>` values per backend; reduces locking but wastes IDs on crash.", "CREATE SEQUENCE s CACHE 50;", "sql-createsequence.html"));
    t.insert(keyword("CALLED", "CREATE FUNCTION ... CALLED ON NULL INPUT -- default; fn body runs even when an arg is NULL. Opposite of `STRICT` / `RETURNS NULL ON NULL INPUT`.", "CREATE FUNCTION f(int) RETURNS int LANGUAGE sql CALLED ON NULL INPUT AS $$ SELECT 1 $$;", "sql-createfunction.html"));
    t.insert(keyword("CASCADED", "CREATE VIEW ... WITH CASCADED CHECK OPTION -- updated rows must satisfy this view's predicate AND all underlying views'.", "CREATE VIEW v WITH CASCADED CHECK OPTION AS SELECT * FROM t WHERE active;", "sql-createview.html"));
    t.insert(keyword("CATALOG", "SQL-standard alias for database (synonymous with `CURRENT_CATALOG`). Mostly reserved noise in PG.", "SELECT CURRENT_CATALOG;", "functions-info.html"));
    t.insert(keyword("CHAIN", "COMMIT AND CHAIN / ROLLBACK AND CHAIN -- end the current transaction and immediately start a new one with the same options.", "COMMIT AND CHAIN;", "sql-commit.html"));
    t.insert(keyword("CHAR", "Fixed-length blank-padded string. `CHAR(n)` = `CHARACTER(n)`. Prefer TEXT unless padding is required.", "code CHAR(3)", "datatype-character.html"));
    t.insert(keyword("CHARACTER", "Fixed-length blank-padded string. `CHARACTER(n)` = `CHAR(n)`. Prefer TEXT unless you really need padding.", "name CHARACTER(10)", "datatype-character.html"));
    t.insert(keyword("CHARACTERISTICS", "SET SESSION CHARACTERISTICS AS TRANSACTION ... -- set default transaction options for the session.", "SET SESSION CHARACTERISTICS AS TRANSACTION ISOLATION LEVEL SERIALIZABLE READ ONLY;", "sql-set-transaction.html"));
    t.insert(keyword("CLASS", "CREATE/DROP OPERATOR CLASS -- set of operators + support functions an index AM uses for a specific type.", "CREATE OPERATOR CLASS my_int_ops DEFAULT FOR TYPE int USING btree AS OPERATOR 1 < ...;", "sql-createopclass.html"));
}

fn part_4(t: &mut Table)
    requires
        old(t).wf(),
        old(t).table_kind() == Kind::Keyword,
    ensures
        final(t).wf(),
        final(t).table_kind() == Kind::Keyword,
        final(t).contents() == keyword_part_4(old(t).contents()),
{
    t.insert(keyword("CLOSE", "CLOSE <cursor> | CLOSE ALL -- release cursor and its resources.", "CLOSE c;", "sql-close.html"));
    t.insert(keyword("COALESCE", "Returns the first non-NULL argument; short-circuits.", "SELECT COALESCE(nickname, name, 'anon') FROM users;", "functions-conditional.html#FUNCTIONS-COALESCE-NVL-IFNULL"));
    t.insert(keyword("COLLATION", "Column/expression collation -- locale rules for ordering/comparison of strings.", "name TEXT COLLATE \"en_US.utf8\"", "sql-createcollation.html"));
    t.insert(keyword("COLUMNS", "JSON_TABLE(... COLUMNS (<col_specs>)) -- declare projected output columns of a JSON_TABLE expression.", "SELECT * FROM JSON_TABLE(j, '$[*]' COLUMNS (id INT PATH '$.id', name TEXT PATH '$.n'));", "functions-json.html#FUNCTIONS-SQLJSON-TABLE"));
    t.insert(keyword("COMMENTS", "CREATE TABLE ... LIKE parent INCLUDING COMMENTS -- carry COMMENT ON COLUMN annotations over from parent.", "CREATE TABLE child (LIKE parent INCLUDING COMMENTS);", "sql-createtable.html"));
    t.insert(keyword("COMMITTED", "SET TRANSACTION ISOLATION LEVEL READ COMMITTED -- default isolation; sees rows committed before each statement starts.", "BEGIN ISOLATION LEVEL READ COMMITTED;", "transaction-iso.html#XACT-READ-COMMITTED"));
    t.insert(keyword("COMPRESSION", "ALTER COLUMN ... SET COMPRESSION { pglz | lz4 | default } -- per-column TOAST compression (PG14+).", "ALTER TABLE t ALTER COLUMN body SET COMPRESSION lz4;", "sql-altertable.html"));
    t.insert(keyword("CONFIGURATION", "CREATE/ALTER/DROP TEXT SEARCH CONFIGURATION -- token-to-dictionary map for full-text search.", "CREATE TEXT SEARCH CONFIGURATION my (COPY = simple);", "sql-createtsconfig.html"));
    t.insert(keyword("CONNECTION", "CREATE/ALTER/DROP PUBLICATION ... / SUBSCRIPTION ... CONNECTION '...' -- connection string of the publisher cluster.", "CREATE SUBSCRIPTION s CONNECTION 'host=pub user=repl' PUBLICATION p;", "sql-createsubscription.html"));
    t.insert(keyword("CONSTRAINTS", "SET CONSTRAINTS { ALL | <names> } { DEFERRED | IMMEDIATE } -- defer FK/UNIQUE checks until COMMIT, or force re-check now.", "SET CONSTRAINTS ALL DEFERRED;", "sql-set-constraints.html"));
    t.insert(keyword("CONTENT", "xmlparse(CONTENT '<x/>') / xmlserialize(CONTENT ...) -- XML content (fragment), no DOCUMENT prologue required.", "SELECT xmlparse(CONTENT '<a/>');", "functions-xml.html#FUNCTIONS-PRODUCING-XML"));
    t.insert(keyword("CONVERSION", "CREATE/DROP CONVERSION -- character-set conversion between two encodings.", "CREATE CONVERSION my_conv FOR 'LATIN1' TO 'UTF8' FROM iso8859_1_to_utf8;", "sql-createconversion.html"));
    t.insert(keyword("COST", "CREATE FUNCTION ... COST <c> -- planner hint: per-row execution cost (default 100; 1 for built-ins, 10 for SQL fns).", "CREATE FUNCTION f() RETURNS int LANGUAGE sql COST 10 AS $$ SELECT 1 $$;", "sql-createfunction.html"));
    t.insert(keyword("CURRENT_CATALOG", "Returns the current database name (SQL standard synonym of `current_database()`).", "SELECT CURRENT_CATALOG;", "functions-info.html"));
    t.insert(keyword("CURRENT_DATE", "Returns today's date in the session time zone.", "SELECT CURRENT_DATE;", "functions-datetime.html#FUNCTIONS-DATETIME-CURRENT"));
    t.insert(keyword("CURRENT_ROLE", "Returns the active role name (synonym of `CURRENT_USER`).", "SELECT CURRENT_ROLE;", "functions-info.html"));
    t.insert(keyword("CURRENT_SCHEMA", "Returns the first non-implicit schema in `search_path`.", "SELECT CURRENT_SCHEMA;", "functions-info.html"));
    t.insert(keyword("CURRENT_TIME", "Returns the wall-clock time-with-time-zone for the current transaction.", "SELECT CURRENT_TIME;", "functions-datetime.html#FUNCTIONS-DATETIME-CURRENT"));
    t.insert(keyword("CURRENT_TIMESTAMP", "Returns transaction start timestamptz (same value within one transaction).", "SELECT CURRENT_TIMESTAMP;", "functions-datetime.html#FUNCTIONS-DATETIME-CURRENT"));
    t.insert(keyword("CURRENT_USER", "Returns the active SQL user name (effective role for permission checks).", "SELECT CURRENT_USER;", "functions-info.html"));
    t.insert(keyword("CURSOR", "DECLARE <name> CURSOR FOR <query> -- server-side iterator over query results.", "DECLARE c CURSOR FOR SELECT * FROM big;", "sql-declare.html"));
    t.insert(keyword("CYCLE", "CREATE SEQUENCE ... CYCLE -- wrap to MINVALUE/MAXVALUE instead of raising error when exhausted.", "CREATE SEQUENCE s CYCLE;", "sql-createsequence.html"));
    t.insert(keyword("DATA", "Two uses: `CREATE TABLE AS ... WITH [NO] DATA` (copy rows or not), and `CREATE FOREIGN DATA WRAPPER`.", "CREATE TABLE snap AS SELECT * FROM t WITH NO DATA;", "sql-createtableas.html"));
    t.insert(keyword("DAY", "EXTRACT(DAY FROM <ts|interval>) -- day-of-month for timestamps; total days for intervals.", "SELECT EXTRACT(DAY FROM now());", "functions-datetime.html#FUNCTIONS-DATETIME-EXTRACT"));
    t.insert(keyword("DEC", "SQL-standard short form of DECIMAL. Same precision/scale rules.", "amount DEC(12,2)", "datatype-numeric.html#DATATYPE-NUMERIC-DECIMAL"));
    t.insert(keyword("DECIMAL", "Exact arbitrary-precision number. Alias `NUMERIC`. Use for money/measurements; never `float`.", "price DECIMAL(12,2) NOT NULL CHECK (price >= 0)", "datatype-numeric.html#DATATYPE-NUMERIC-DECIMAL"));
    t.insert(keyword("DELIMITERS", "Legacy keyword for delimiter list in `CREATE OPERATOR` AST -- in modern PG superseded by `COPY DELIMITER '<c>'`.", "COPY t FROM '/tmp/d.csv' WITH (DELIMITER ',');", "sql-copy.html"));
    t.insert(keyword("DEPENDS", "ALTER ... DEPENDS ON EXTENSION <name> -- mark object as dependent on extension; DROP EXTENSION cascades.", "ALTER FUNCTION my_fn() DEPENDS ON EXTENSION my_ext;", "sql-alterfunction.html"));
    t.insert(keyword("DEPTH", "WITH RECURSIVE ... SEARCH DEPTH FIRST BY <cols> SET <out> -- DFS traversal annotation for recursive CTEs (PG14+).", "WITH RECURSIVE t AS (...) SEARCH DEPTH FIRST BY id SET ord SELECT * FROM t ORDER BY ord;", "queries-with.html#QUERIES-WITH-SEARCH"));
    t.insert(keyword("DETACH", "ALTER TABLE <parent> DETACH PARTITION <child> [CONCURRENTLY | FINALIZE] -- remove partition from a partitioned table; CONCURRENTLY avoids AccessExclusive lock (PG14+).", "ALTER TABLE events DETACH PARTITION events_2019 CONCURRENTLY;", "sql-altertable.html"));
    t.insert(keyword("DICTIONARY", "CREATE/ALTER/DROP TEXT SEARCH DICTIONARY -- normalizer (stem/synonym/stopword) used by FTS configs.", "CREATE TEXT SEARCH DICTIONARY english_stem (TEMPLATE = snowball, LANGUAGE = 'english');", "sql-createtsdictionary.html"));
    t.insert(keyword("DISCARD", "DISCARD { ALL | PLANS | SEQUENCES | TEMP | TEMPORARY } -- reset session state. `DISCARD ALL` is what connection poolers run between hand-offs.", "DISCARD ALL;", "sql-discard.html"));
    t.insert(keyword("DOCUMENT", "xmlparse(DOCUMENT '<x/>') / IS DOCUMENT predicate -- requires a complete XML document (single root, prologue allowed).", "SELECT x IS DOCUMENT FROM xml_t;", "functions-xml.html"));
    t.insert(keyword("DOUBLE", "Part of `DOUBLE PRECISION` (8-byte IEEE-754). Standalone DOUBLE is not a PG type.", "ratio DOUBLE PRECISION", "datatype-numeric.html#DATATYPE-FLOAT"));
    t.insert(keyword("ENCODING", "COPY ... ENCODING '<charset>' / CREATE DATABASE ... ENCODING <charset> -- declare character set.", "COPY t FROM '/tmp/d.csv' WITH (FORMAT csv, ENCODING 'UTF8');", "sql-copy.html"));
    t.insert(keyword("ENCRYPTED", "CREATE/ALTER ROLE ... [ENCRYPTED] PASSWORD '<pw>' -- store password hashed (now always true; raw text retained for syntax compat).", "ALTER ROLE alice ENCRYPTED PASSWORD 'secret';", "sql-createrole.html"));
    t.insert(keyword("ENUM", "CREATE TYPE <t> AS ENUM ('a','b',...) -- fixed list of string values stored compactly. Add new labels with `ALTER TYPE ... ADD VALUE`.", "CREATE TYPE mood AS ENUM ('sad','ok','happy');", "datatype-enum.html"));
    t.insert(keyword("EVENT", "CREATE/ALTER/DROP EVENT TRIGGER -- fires on DDL events (ddl_command_start, ddl_command_end, table_rewrite, sql_drop).", "CREATE EVENT TRIGGER no_drops ON sql_drop EXECUTE FUNCTION block_drops();", "sql-createeventtrigger.html"));
    t.insert(keyword("EXPRESSION", "ALTER TABLE ... ALTER COLUMN <c> { SET | DROP } EXPRESSION -- swap or remove the generated-column expression (PG16+).", "ALTER TABLE t ALTER COLUMN full_name SET EXPRESSION AS (first || ' ' || last);", "sql-altertable.html"));
    t.insert(keyword("EXTENSION", "CREATE / ALTER / DROP EXTENSION <name> -- packaged set of objects (tables, fns, ops) installed/upgraded as a unit.", "CREATE EXTENSION IF NOT EXISTS pg_trgm;", "sql-createextension.html"));
    t.insert(keyword("EXTERNAL", "ALTER TABLE ... ALTER COLUMN <c> SET STORAGE EXTERNAL -- TOAST out-of-line but uncompressed.", "ALTER TABLE t ALTER COLUMN body SET STORAGE EXTERNAL;", "sql-altertable.html"));
    t.insert(keyword("EXTRACT", "EXTRACT(<field> FROM <timestamp|interval>) -- pull a sub-component (year, month, dow, epoch, ...).", "SELECT EXTRACT(YEAR FROM ts), EXTRACT(EPOCH FROM age(now(), birth)) FROM users;", "functions-datetime.html#FUNCTIONS-DATETIME-EXTRACT"));
    t.insert(keyword("FAMILY", "CREATE / ALTER / DROP OPERATOR FAMILY -- groups of operator classes sharing input types for index AMs.", "CREATE OPERATOR FAMILY int_ops USING btree;", "sql-createopfamily.html"));
    t.insert(keyword("FINALIZE", "ALTER TABLE ... DETACH PARTITION <child> FINALIZE -- complete a previously-interrupted DETACH CONCURRENTLY.", "ALTER TABLE events DETACH PARTITION events_2019 FINALIZE;", "sql-altertable.html"));
    t.insert(keyword("FLOAT", "Inexact IEEE-754 number. `FLOAT(n)` maps to REAL (n<=24) or DOUBLE PRECISION (n>=25).", "weight FLOAT(24)", "datatype-numeric.html#DATATYPE-FLOAT"));
    t.insert(keyword("FORWARD", "FETCH FORWARD <n> FROM <cursor> -- fetch next <n> rows (default direction).", "FETCH FORWARD 100 FROM c;", "sql-fetch.html"));
    t.insert(keyword("FREEZE", "COPY ... WITH (FREEZE) -- mark rows as frozen so they skip VACUUM FREEZE later. Only valid when loading into a just-created table in the same xact.", "COPY t FROM '/tmp/d.csv' WITH (FORMAT csv, FREEZE);", "sql-copy.html"));
    t.insert(keyword("FUNCTIONS", "GRANT/REVOKE ... ON ALL FUNCTIONS IN SCHEMA / ALTER DEFAULT PRIVILEGES ... ON FUNCTIONS -- bulk privilege ops on functions.", "GRANT EXECUTE ON ALL FUNCTIONS IN SCHEMA app TO svc;", "sql-grant.html"));
    t.insert(keyword("GLOBAL", "Accepted for SQL-standard compat in `CREATE [GLOBAL] TEMPORARY TABLE`. PG ignores GLOBAL -- all temp tables are session-local.", "CREATE GLOBAL TEMPORARY TABLE t (id int);", "sql-createtable.html"));
    t.insert(keyword("GRANTED", "REVOKE ... GRANTED BY <role> -- drop only the grant made by <role>. Required to clean privileges installed by an extension.", "REVOKE SELECT ON t FROM alice GRANTED BY ext_owner;", "sql-revoke.html"));
    t.insert(keyword("GREATEST", "Returns the largest of the listed values (NULLs ignored unless all are NULL).", "SELECT GREATEST(a, b, c) FROM t;", "functions-conditional.html#FUNCTIONS-GREATEST-LEAST"));
    t.insert(keyword("GROUPING", "GROUPING(<col>[,...]) -- bitmask telling which columns of a GROUPING SETS / ROLLUP / CUBE row are NULL because the group rolled them up.", "SELECT region, GROUPING(region) AS gr FROM s GROUP BY ROLLUP (region);", "functions-aggregate.html#FUNCTIONS-GROUPING-TABLE"));
    t.insert(keyword("HANDLER", "CREATE LANGUAGE / CREATE FOREIGN DATA WRAPPER ... HANDLER <fn> -- C function implementing the PL or FDW.", "CREATE FOREIGN DATA WRAPPER fdw HANDLER my_fdw_handler;", "sql-createforeigndatawrapper.html"));
    t.insert(keyword("HOLD", "DECLARE ... WITH HOLD CURSOR -- cursor survives COMMIT (vs WITHOUT HOLD, default).", "DECLARE c CURSOR WITH HOLD FOR SELECT id FROM t;", "sql-declare.html"));
    t.insert(keyword("HOUR", "EXTRACT(HOUR FROM <ts|interval>) -- hour-of-day 0..23; interval hour part.", "SELECT EXTRACT(HOUR FROM now());", "functions-datetime.html#FUNCTIONS-DATETIME-EXTRACT"));
    t.insert(keyword("IMPLICIT", "CREATE CAST ... AS IMPLICIT -- planner may inject the cast silently. Use sparingly -- breeds ambiguous overload resolution.", "CREATE CAST (text AS my_t) WITH FUNCTION my_t_in(text) AS IMPLICIT;", "sql-createcast.html"));
    t.insert(keyword("IMPORT", "IMPORT FOREIGN SCHEMA <s> FROM SERVER <srv> INTO <local_s> -- bulk-create foreign tables for every remote table.", "IMPORT FOREIGN SCHEMA public FROM SERVER remote INTO ext_pub;", "sql-importforeignschema.html"));
    t.insert(keyword("INCLUDE", "CREATE INDEX ... INCLUDE (<cols>) -- non-key columns stored in leaf pages; enables index-only scans without affecting uniqueness.", "CREATE INDEX ix_users_email ON users (email) INCLUDE (id, name);", "sql-createindex.html"));
    t.insert(keyword("INCREMENT", "CREATE SEQUENCE ... INCREMENT [BY] <n> -- step between successive `nextval()` results.", "CREATE SEQUENCE s INCREMENT BY 10;", "sql-createsequence.html"));
    t.insert(keyword("INDEXES", "CREATE TABLE ... LIKE parent INCLUDING INDEXES -- copy parent's PK/UNIQUE/EXCLUDE constraints + corresponding indexes.", "CREATE TABLE child (LIKE parent INCLUDING INDEXES);", "sql-createtable.html"));
    t.insert(keyword("INHERIT", "CREATE/ALTER ROLE ... [NO]INHERIT -- whether the role automatically uses the privileges of granted roles.", "ALTER ROLE alice INHERIT;", "sql-createrole.html"));
    t.insert(keyword("INITIALLY", "Constraint timing: DEFERRABLE INITIALLY { DEFERRED | IMMEDIATE } -- per-transaction default check mode for deferrable constraints.", "FOREIGN KEY (uid) REFERENCES users(id) DEFERRABLE INITIALLY DEFERRED", "sql-createtable.html"));
    t.insert(keyword("INLINE", "CREATE LANGUAGE ... INLINE <fn> -- C function that executes anonymous DO blocks. Internal.", "CREATE LANGUAGE plpgsql HANDLER plpgsql_call_handler INLINE plpgsql_inline_handler;", "sql-createlanguage.html"));
    t.insert(keyword("INOUT", "Function/procedure parameter mode: combines IN + OUT -- caller passes a value, callee returns one.", "CREATE PROCEDURE p(INOUT counter int) LANGUAGE plpgsql AS $$ BEGIN counter := counter + 1; END $$;", "sql-createfunction.html"));
    t.insert(keyword("INPUT", "CREATE TYPE ... INPUT = <fn> -- C function parsing text input form. Pair with `OUTPUT`.", "CREATE TYPE complex (INPUT = complex_in, OUTPUT = complex_out, INTERNALLENGTH = 16);", "sql-createtype.html"));
    t.insert(keyword("INSENSITIVE", "DECLARE <c> INSENSITIVE CURSOR ... -- SQL-standard noise word in PG (every cursor sees a snapshot). Kept for compat.", "DECLARE c INSENSITIVE CURSOR FOR SELECT * FROM t;", "sql-declare.html"));
    t.insert(keyword("INT", "Signed 4-byte integer, range -2147483648..+2147483647. Alias `INTEGER` / `int4`.", "qty INT NOT NULL DEFAULT 0", "datatype-numeric.html#DATATYPE-INT"));
    t.insert(keyword("INTEGER", "Signed 4-byte integer, range -2147483648..+2147483647. Alias `INT` / `int4`.", "age INTEGER CHECK (age >= 0)", "datatype-numeric.html#DATATYPE-INT"));
    t.insert(keyword("LABEL", "SECURITY LABEL FOR <provider> ON ... IS '<label>' / ALTER TYPE ... ADD VALUE -- attach security label, or add enum label.", "ALTER TYPE mood ADD VALUE 'meh' AFTER 'ok';", "sql-security-label.html"));
    t.insert(keyword("LARGE", "CREATE/DROP CAST ... ON LARGE OBJECT, lo_* fns -- LARGE OBJECT family (bytea-style server-side blobs).", "SELECT lo_create(0);", "largeobjects.html"));
    t.insert(keyword("LEADING", "TRIM(LEADING <chars> FROM <s>) -- strip <chars> from the left.", "SELECT TRIM(LEADING '0' FROM '00042');", "functions-string.html#FUNCTIONS-STRING-OTHER"));
    t.insert(keyword("LEAKPROOF", "CREATE FUNCTION ... LEAKPROOF -- promise that function reveals no info about args beyond return value. Required for use in RLS-protected views.", "CREATE FUNCTION pure_eq(a int, b int) RETURNS boolean LANGUAGE sql LEAKPROOF AS $$ SELECT a = b $$;", "sql-createfunction.html"));
    t.insert(keyword("LEAST", "Returns the smallest of the listed values (NULLs ignored unless all are NULL).", "SELECT LEAST(a, b, c) FROM t;", "functions-conditional.html#FUNCTIONS-GREATEST-LEAST"));
    t.insert(keyword("LOAD", "LOAD '<shared_library>' -- explicitly load a shared library into the backend (superuser-only for non-default paths).", "LOAD 'auto_explain';", "sql-load.html"));
    t.insert(keyword("LOCAL", "SET LOCAL <param> = <value> -- only affects the current transaction (vs SET, which lasts the session).", "BEGIN; SET LOCAL statement_timeout = '5s'; ...; COMMIT;", "sql-set.html"));
}

fn part_5(t: &mut Table)
    requires
        old(t).wf(),
        old(t).table_kind() == Kind::Keyword,
    ensures
        final(t).wf(),
        final(t).table_kind() == Kind::Keyword,
        final(t).contents() == keyword_part_5(old(t).contents()),
{
    t.insert(keyword("LOCALTIME", "Returns the current time-without-time-zone in the session zone.", "SELECT LOCALTIME;", "functions-datetime.html#FUNCTIONS-DATETIME-CURRENT"));
    t.insert(keyword("LOCALTIMESTAMP", "Returns the current timestamp-without-time-zone (transaction start).", "SELECT LOCALTIMESTAMP;", "functions-datetime.html#FUNCTIONS-DATETIME-CURRENT"));
    t.insert(keyword("LOCATION", "CREATE TABLESPACE <ts> LOCATION '<path>' / CREATE DATABASE ... TABLESPACE -- filesystem directory where data lives.", "CREATE TABLESPACE fast LOCATION '/mnt/nvme/pg';", "sql-createtablespace.html"));
    t.insert(keyword("LOGGED", "ALTER TABLE ... SET { LOGGED | UNLOGGED } -- switch between WAL-logged (crash-safe) and unlogged (faster, lost on crash).", "ALTER TABLE staging SET LOGGED;", "sql-altertable.html"));
    t.insert(keyword("MAPPING", "CREATE/ALTER/DROP USER MAPPING FOR <role> SERVER <srv> -- per-user credentials for a foreign server.", "CREATE USER MAPPING FOR alice SERVER remote OPTIONS (user 'alice', password 's');", "sql-createusermapping.html"));
    t.insert(keyword("MATCH", "FOREIGN KEY ... MATCH { FULL | PARTIAL | SIMPLE } -- how composite FK handles NULLs. SIMPLE (default) lets any NULL pass.", "FOREIGN KEY (a,b) REFERENCES p(a,b) MATCH FULL", "sql-createtable.html#SQL-CREATETABLE-PARMS-REFERENCES"));
    t.insert(keyword("MAXVALUE", "CREATE SEQUENCE ... MAXVALUE <n> | NO MAXVALUE -- ceiling for ascending sequences.", "CREATE SEQUENCE s MAXVALUE 100000;", "sql-createsequence.html"));
    t.insert(keyword("METHOD", "CREATE INDEX ... USING <method> / ALTER TABLE ... SET ACCESS METHOD <am> -- pick index/table access method (btree, hash, gin, gist, brin, heap, ...).", "ALTER TABLE big SET ACCESS METHOD heap;", "sql-altertable.html"));
    t.insert(keyword("MINUTE", "EXTRACT(MINUTE FROM <ts|interval>) -- minute 0..59; interval minute part.", "SELECT EXTRACT(MINUTE FROM now());", "functions-datetime.html#FUNCTIONS-DATETIME-EXTRACT"));
    t.insert(keyword("MINVALUE", "CREATE SEQUENCE ... MINVALUE <n> | NO MINVALUE -- floor for descending sequences.", "CREATE SEQUENCE s INCREMENT -1 MINVALUE 0 START WITH 100;", "sql-createsequence.html"));
    t.insert(keyword("MONTH", "EXTRACT(MONTH FROM <ts|interval>) -- 1..12 for timestamps; remaining months in interval after years.", "SELECT EXTRACT(MONTH FROM now());", "functions-datetime.html#FUNCTIONS-DATETIME-EXTRACT"));
    t.insert(keyword("MOVE", "MOVE <direction> <n> FROM <cursor> -- reposition cursor without returning rows.", "MOVE FORWARD 100 FROM c;", "sql-move.html"));
    t.insert(keyword("NAME", "Internal PG type for identifiers (NAMEDATALEN-1 bytes, default 63). Used by system catalogs.", "SELECT relname::name FROM pg_class LIMIT 5;", "datatype-character.html"));
    t.insert(keyword("NAMES", "SET NAMES '<charset>' -- client encoding alias. PG-compat form of `SET client_encoding`.", "SET NAMES 'UTF8';", "multibyte.html"));
    t.insert(keyword("NATIONAL", "`NATIONAL CHARACTER [VARYING](n)` -- SQL-standard alias of CHAR(n)/VARCHAR(n). PG treats national chars same as CHAR.", "name NATIONAL CHARACTER VARYING(64)", "datatype-character.html"));
    t.insert(keyword("NCHAR", "Alias of CHAR. PG-compat for SQL-standard `NATIONAL CHARACTER`.", "code NCHAR(3)", "datatype-character.html"));
    t.insert(keyword("NFC", "Unicode Normalization Form C (composed). Argument to `normalize()`/IS NORMALIZED.", "SELECT normalize('café', NFC);", "functions-string.html#FUNCTIONS-STRING-NORMALIZATION"));
    t.insert(keyword("NFD", "Unicode Normalization Form D (decomposed).", "SELECT normalize('café', NFD);", "functions-string.html#FUNCTIONS-STRING-NORMALIZATION"));
    t.insert(keyword("NFKC", "Unicode Normalization Form KC (compatibility composed).", "SELECT normalize('fi', NFKC);", "functions-string.html#FUNCTIONS-STRING-NORMALIZATION"));
    t.insert(keyword("NFKD", "Unicode Normalization Form KD (compatibility decomposed).", "SELECT normalize('fi', NFKD);", "functions-string.html#FUNCTIONS-STRING-NORMALIZATION"));
    t.insert(keyword("NONE", "Placeholder type for `CREATE OPERATOR` when a side has no argument (prefix/postfix op).", "CREATE OPERATOR -@ (RIGHTARG = numeric, FUNCTION = neg);", "sql-createoperator.html"));
    t.insert(keyword("NORMALIZE", "normalize(<text> [, NFC|NFD|NFKC|NFKD]) -- Unicode normalization (PG13+). Default NFC.", "SELECT normalize('café', NFC);", "functions-string.html#FUNCTIONS-STRING-NORMALIZATION"));
    t.insert(keyword("NORMALIZED", "<text> IS [NOT] [<form>] NORMALIZED -- predicate testing Unicode normalization (PG13+).", "SELECT 'café' IS NORMALIZED NFC;", "functions-string.html#FUNCTIONS-STRING-NORMALIZATION"));
    t.insert(keyword("NOTNULL", "PG-specific shortcut: `<expr> NOTNULL` -- equivalent to `<expr> IS NOT NULL`. Compare with ISNULL.", "WHERE deleted_at NOTNULL", "functions-comparison.html"));
    t.insert(keyword("NULLIF", "Returns NULL when arg1 = arg2, otherwise arg1 -- inverse of COALESCE.", "SELECT NULLIF(score, 0) FROM rows;", "functions-conditional.html#FUNCTIONS-NULLIF"));
    t.insert(keyword("NUMERIC", "Exact arbitrary-precision number; safe for money. `NUMERIC(p,s)` -- p total digits, s after decimal point.", "balance NUMERIC(15,4) NOT NULL DEFAULT 0", "datatype-numeric.html#DATATYPE-NUMERIC-DECIMAL"));
    t.insert(keyword("OBJECT", "SECURITY LABEL FOR <provider> ON <object_type> <name> IS '<label>' -- attach a security label to a database object.", "SECURITY LABEL FOR selinux ON TABLE t IS 'system_u:object_r:sepgsql_table_t:s0';", "sql-security-label.html"));
    t.insert(keyword("OFF", "GUC boolean false. `SET <param> = off`. Equivalent to `false` / `0` / `no`.", "SET enable_seqscan = off;", "config-setting.html"));
    t.insert(keyword("OIDS", "Legacy CREATE TABLE ... WITH OIDS -- removed in PG12. Only kept as a parse-stage relic.", "-- removed: every row had a system OID column", "sql-createtable.html"));
    t.insert(keyword("OPERATOR", "CREATE/ALTER/DROP OPERATOR -- user-defined infix/prefix operator backed by a function.", "CREATE OPERATOR === (LEFTARG = int, RIGHTARG = int, FUNCTION = my_eq);", "sql-createoperator.html"));
    t.insert(keyword("OPTION", "GRANT ... WITH GRANT/ADMIN OPTION / CREATE VIEW ... WITH CHECK OPTION -- grant-forwarding or update-check predicate.", "GRANT SELECT ON t TO svc WITH GRANT OPTION;", "sql-grant.html"));
    t.insert(keyword("OPTIONS", "ALTER FOREIGN TABLE / SERVER / USER MAPPING ... OPTIONS (ADD|SET|DROP <key> '<val>', ...) -- FDW-specific key/value bag.", "ALTER FOREIGN TABLE r OPTIONS (SET schema_name 'public', SET table_name 'remote_t');", "sql-alterforeigntable.html"));
    t.insert(keyword("ORDINALITY", "FROM <set_returning_fn>(...) WITH ORDINALITY -- append a `ordinality` bigint column numbering output rows 1..N.", "SELECT * FROM unnest(ARRAY['a','b','c']) WITH ORDINALITY AS u(v, idx);", "queries-table-expressions.html#QUERIES-TABLEFUNCTIONS"));
    t.insert(keyword("OTHERS", "WINDOW frame exclusion: `EXCLUDE NO OTHERS` (default) -- keep every row in the frame.", "ROWS BETWEEN UNBOUNDED PRECEDING AND CURRENT ROW EXCLUDE NO OTHERS", "sql-expressions.html#SYNTAX-WINDOW-FUNCTIONS"));
    t.insert(keyword("OUT", "Function/procedure parameter mode: OUT -- returned to caller, not provided by call site.", "CREATE FUNCTION counts(OUT live int, OUT dead int) AS $$ ... $$ LANGUAGE plpgsql;", "sql-createfunction.html"));
    t.insert(keyword("OVERLAY", "OVERLAY(<s> PLACING <r> FROM <pos> [FOR <len>]) -- substring replacement starting at 1-based <pos>.", "SELECT OVERLAY('Postgres' PLACING 'SQL' FROM 5);", "functions-string.html#FUNCTIONS-STRING-OTHER"));
    t.insert(keyword("OVERRIDING", "INSERT INTO <t> OVERRIDING { SYSTEM | USER } VALUE -- bypass `GENERATED ALWAYS` (system) or use a system value over a USER-generated default.", "INSERT INTO t (id, name) OVERRIDING SYSTEM VALUE VALUES (42, 'a');", "sql-insert.html"));
    t.insert(keyword("PARALLEL", "CREATE FUNCTION ... PARALLEL { UNSAFE | RESTRICTED | SAFE } -- declares safety in parallel workers. Default UNSAFE.", "CREATE FUNCTION add(int,int) RETURNS int LANGUAGE sql PARALLEL SAFE AS $$ SELECT $1 + $2 $$;", "sql-createfunction.html"));
    t.insert(keyword("PARAMETER", "Reserved word for function parameter declarations. Appears in CREATE FUNCTION ... PARAMETER STYLE -- mostly SQL-standard noise in PG.", "-- reserved by spec", "appendix-keywords.html"));
    t.insert(keyword("PARSER", "CREATE/ALTER/DROP TEXT SEARCH PARSER -- tokenizer used by FTS configs.", "CREATE TEXT SEARCH PARSER my_parser (START = ..., GETTOKEN = ..., END = ..., HEADLINE = ..., LEXTYPES = ...);", "sql-createtsparser.html"));
    t.insert(keyword("PARTIAL", "FOREIGN KEY ... MATCH PARTIAL -- composite FK; some columns NULL, others present. Reserved in PG -- not implemented.", "FOREIGN KEY (a,b) REFERENCES p(a,b) MATCH PARTIAL", "sql-createtable.html"));
    t.insert(keyword("PASSING", "XMLTABLE / JSON_TABLE ... PASSING <expr> [AS <name>] -- bind values usable inside the XPath / JSONPath expression.", "SELECT * FROM XMLTABLE('/r' PASSING x COLUMNS id INT PATH '@id') AS t;", "functions-xml.html#FUNCTIONS-XML-PROCESSING-XMLTABLE"));
    t.insert(keyword("PLACING", "Part of `OVERLAY(<s> PLACING <r> FROM <pos> ...)` substring-replacement syntax.", "SELECT OVERLAY('Postgres' PLACING 'SQL' FROM 5);", "functions-string.html#FUNCTIONS-STRING-OTHER"));
    t.insert(keyword("PLANS", "DISCARD PLANS -- evict every cached prepared-statement plan in the current session.", "DISCARD PLANS;", "sql-discard.html"));
    t.insert(keyword("POLICY", "CREATE/ALTER/DROP POLICY <name> ON <table> -- Row-Level Security predicate scoped to a role and DML class.", "CREATE POLICY tenant_isolation ON orders FOR ALL TO app USING (tenant_id = current_setting('app.tenant')::int);", "sql-createpolicy.html"));
    t.insert(keyword("POSITION", "POSITION(<needle> IN <haystack>) -- 1-based index, 0 when not found. SQL-standard form of `strpos()`.", "SELECT POSITION('@' IN email) FROM users;", "functions-string.html#FUNCTIONS-STRING-SQL"));
    t.insert(keyword("PRECISION", "Part of `DOUBLE PRECISION` (8-byte IEEE-754) and `TIMESTAMP(p) WITH TIME ZONE` (fractional-second digits).", "ratio DOUBLE PRECISION", "datatype-numeric.html#DATATYPE-FLOAT"));
    t.insert(keyword("PREPARED", "COMMIT/ROLLBACK PREPARED '<gxid>' -- second phase of a two-phase commit (after `PREPARE TRANSACTION '<gxid>'`).", "COMMIT PREPARED 'xact_42';", "sql-commit-prepared.html"));
    t.insert(keyword("PRESERVE", "CREATE TEMPORARY TABLE ... ON COMMIT PRESERVE ROWS -- default; keep rows across COMMIT (vs DELETE ROWS / DROP).", "CREATE TEMP TABLE scratch (id int) ON COMMIT PRESERVE ROWS;", "sql-createtable.html"));
    t.insert(keyword("PRIOR", "FETCH PRIOR FROM <cursor> -- step one row back. Requires SCROLL cursor.", "FETCH PRIOR FROM c;", "sql-fetch.html"));
    t.insert(keyword("PROCEDURAL", "Legacy `CREATE [PROCEDURAL] LANGUAGE` -- equivalent to plain `CREATE LANGUAGE`. Kept for compat.", "CREATE PROCEDURAL LANGUAGE plpgsql;", "sql-createlanguage.html"));
    t.insert(keyword("PROCEDURES", "GRANT/REVOKE ... ON ALL PROCEDURES IN SCHEMA / ALTER DEFAULT PRIVILEGES ... ON PROCEDURES -- bulk-privilege ops on procedures.", "GRANT EXECUTE ON ALL PROCEDURES IN SCHEMA app TO svc;", "sql-grant.html"));
    t.insert(keyword("PUBLICATION", "CREATE/ALTER/DROP PUBLICATION -- logical-replication source: set of tables whose DML is shipped to subscribers.", "CREATE PUBLICATION pub_orders FOR TABLE orders, order_lines;", "sql-createpublication.html"));
    t.insert(keyword("READ", "SET TRANSACTION READ { ONLY | WRITE } -- forbid/allow writes for the current xact.", "BEGIN READ ONLY;", "sql-set-transaction.html"));
    t.insert(keyword("REAL", "Inexact 4-byte IEEE-754 float. Alias `float4`. ~6 decimal digits of precision.", "ratio REAL NOT NULL DEFAULT 0", "datatype-numeric.html#DATATYPE-FLOAT"));
    t.insert(keyword("REASSIGN", "REASSIGN OWNED BY <old_role> TO <new_role> -- transfer ownership of every object in current DB.", "REASSIGN OWNED BY leaving_user TO new_owner;", "sql-reassign-owned.html"));
    t.insert(keyword("RECHECK", "Legacy CREATE OPERATOR CLASS ... RECHECK -- told planner the index gave approximate match. Removed in PG8.4; AM controls it now.", "-- removed in modern PG", "sql-createopclass.html"));
    t.insert(keyword("REF", "Reserved word for SQL-standard reference types. Not implemented in PG; reserved for parse-stage compat.", "-- reserved", "appendix-keywords.html"));
    t.insert(keyword("REFERENCING", "CREATE TRIGGER ... REFERENCING { OLD | NEW } TABLE AS <name> -- expose transition tables to a statement-level trigger.", "CREATE TRIGGER trg AFTER UPDATE ON t REFERENCING NEW TABLE AS new_rows FOR EACH STATEMENT EXECUTE FUNCTION audit();", "sql-createtrigger.html"));
    t.insert(keyword("RELATIVE", "FETCH RELATIVE <n> FROM <cursor> -- skip <n> rows (negative = backwards).", "FETCH RELATIVE -5 FROM c;", "sql-fetch.html"));
    t.insert(keyword("RELEASE", "RELEASE SAVEPOINT <name> -- discard a savepoint and merge its work into the parent. Cannot be undone after RELEASE.", "RELEASE SAVEPOINT sp1;", "sql-release-savepoint.html"));
    t.insert(keyword("REPEATABLE", "SET TRANSACTION ISOLATION LEVEL REPEATABLE READ -- snapshot taken at xact start; no non-repeatable reads. PG implements via Snapshot Isolation.", "BEGIN ISOLATION LEVEL REPEATABLE READ;", "transaction-iso.html#XACT-REPEATABLE-READ"));
    t.insert(keyword("RESET", "RESET <param> | RESET ALL -- restore a GUC to its default (postgresql.conf / startup) value.", "RESET statement_timeout;", "sql-reset.html"));
    t.insert(keyword("RESTART", "ALTER SEQUENCE ... RESTART [WITH <n>] -- reset sequence counter; `TRUNCATE ... RESTART IDENTITY` also valid.", "ALTER SEQUENCE s RESTART WITH 1;", "sql-altersequence.html"));
    t.insert(keyword("ROUTINE", "ALTER ROUTINE / DROP ROUTINE -- umbrella DDL covering functions AND procedures (PG11+).", "ALTER ROUTINE f(int) RENAME TO g;", "sql-alterroutine.html"));
    t.insert(keyword("ROUTINES", "GRANT/REVOKE ... ON ALL ROUTINES IN SCHEMA / ALTER DEFAULT PRIVILEGES ... ON ROUTINES -- bulk-privilege ops on fns + procs.", "GRANT EXECUTE ON ALL ROUTINES IN SCHEMA app TO svc;", "sql-grant.html"));
    t.insert(keyword("SCHEMAS", "ALTER DEFAULT PRIVILEGES ... IN SCHEMAS <s>[, ...] -- scope default ACL changes to specific schemas.", "ALTER DEFAULT PRIVILEGES IN SCHEMAS app, billing GRANT SELECT ON TABLES TO readonly;", "sql-alterdefaultprivileges.html"));
    t.insert(keyword("SCROLL", "DECLARE <c> [SCROLL|NO SCROLL] CURSOR ... -- SCROLL cursor supports FETCH BACKWARD/ABSOLUTE/RELATIVE. NO SCROLL forbids them.", "DECLARE c SCROLL CURSOR FOR SELECT id FROM t;", "sql-declare.html"));
    t.insert(keyword("SEARCH", "WITH RECURSIVE ... SEARCH { DEPTH | BREADTH } FIRST BY <cols> SET <out> -- annotate recursive CTE output rows with traversal order (SQL:1999 / PG14+).", "WITH RECURSIVE t AS (...) SEARCH DEPTH FIRST BY id SET ord SELECT * FROM t ORDER BY ord;", "queries-with.html#QUERIES-WITH-SEARCH"));
    t.insert(keyword("SECOND", "EXTRACT(SECOND FROM <ts|interval>) -- seconds with fractional part (0..59.999999).", "SELECT EXTRACT(SECOND FROM now());", "functions-datetime.html#FUNCTIONS-DATETIME-EXTRACT"));
    t.insert(keyword("SEQUENCES", "GRANT/REVOKE ... ON ALL SEQUENCES IN SCHEMA / ALTER DEFAULT PRIVILEGES ... ON SEQUENCES / DISCARD SEQUENCES -- bulk-privilege/state ops on sequences.", "DISCARD SEQUENCES;", "sql-grant.html"));
    t.insert(keyword("SERIALIZABLE", "SET TRANSACTION ISOLATION LEVEL SERIALIZABLE -- strongest isolation; PG uses Serializable Snapshot Isolation (SSI) which can throw `40001 serialization_failure` -- retry from the client.", "BEGIN ISOLATION LEVEL SERIALIZABLE;", "transaction-iso.html#XACT-SERIALIZABLE"));
    t.insert(keyword("SERVER", "CREATE/ALTER/DROP SERVER -- foreign server, an FDW endpoint targetable by foreign tables / user mappings.", "CREATE SERVER remote FOREIGN DATA WRAPPER postgres_fdw OPTIONS (host 'db', port '5432', dbname 'app');", "sql-createserver.html"));
    t.insert(keyword("SESSION", "SET SESSION <param> = <val> -- session-scoped setting (default; vs `SET LOCAL` xact-scope). Also `SET SESSION AUTHORIZATION <role>` and `SET SESSION CHARACTERISTICS`.", "SET SESSION timezone TO 'UTC';", "sql-set.html"));
    t.insert(keyword("SESSION_USER", "Returns the session user name (login role, unaffected by SET ROLE).", "SELECT SESSION_USER;", "functions-info.html"));
}

fn part_6(t: &mut Table)
    requires
        old(t).wf(),
        old(t).table_kind() == Kind::Keyword,
    ensures
        final(t).wf(),
        final(t).table_kind() == Kind::Keyword,
        final(t).contents() == keyword_part_6(old(t).contents()),
{
    t.insert(keyword("SYSTEM_USER", "Returns the auth-method-prefixed external identity used to authenticate the session (PG16+, e.g. `scram-sha-256:alice`).", "SELECT SYSTEM_USER;", "functions-info.html"));
    t.insert(keyword("SETOF", "Function return type: SETOF <type> -- returns a row set, callable in FROM as a table.", "CREATE FUNCTION ids() RETURNS SETOF int LANGUAGE sql AS $$ SELECT generate_series(1,3) $$;", "sql-createfunction.html"));
    t.insert(keyword("SETS", "GROUPING SETS ((a), (b), (a,b)) -- list of grouping subsets evaluated in one pass; complements ROLLUP/CUBE.", "SELECT a, b, sum(x) FROM t GROUP BY GROUPING SETS ((a), (b), ());", "queries-table-expressions.html#QUERIES-GROUPING-SETS"));
    t.insert(keyword("SIMPLE", "FOREIGN KEY ... MATCH SIMPLE -- default; FK passes if any column in the multi-column key is NULL.", "FOREIGN KEY (a,b) REFERENCES p(a,b) MATCH SIMPLE", "sql-createtable.html#SQL-CREATETABLE-PARMS-REFERENCES"));
    t.insert(keyword("SMALLINT", "Signed 2-byte integer, range -32768..+32767. Alias `int2`.", "year SMALLINT CHECK (year BETWEEN 1900 AND 2100)", "datatype-numeric.html#DATATYPE-INT"));
    t.insert(keyword("SNAPSHOT", "SET TRANSACTION SNAPSHOT '<id>' -- import an existing snapshot (from pg_export_snapshot()); used for consistent parallel dumps.", "BEGIN; SET TRANSACTION SNAPSHOT '00000004-00000004-1';", "sql-set-transaction.html"));
    t.insert(keyword("SQL", "CREATE FUNCTION ... LANGUAGE sql -- pure-SQL body. PG14+ supports atomic standard form `BEGIN ATOMIC ... END;`.", "CREATE FUNCTION add(int,int) RETURNS int LANGUAGE sql AS $$ SELECT $1+$2 $$;", "xfunc-sql.html"));
    t.insert(keyword("STANDALONE", "xmlroot(..., STANDALONE { YES | NO | NO VALUE }) -- toggle the `standalone` attribute on the XML prolog.", "SELECT xmlroot(x, VERSION '1.0', STANDALONE YES);", "functions-xml.html#FUNCTIONS-PRODUCING-XML"));
    t.insert(keyword("START", "Two uses: `START TRANSACTION` (synonym of BEGIN), and `CREATE SEQUENCE ... START [WITH] <n>` (initial value).", "START TRANSACTION ISOLATION LEVEL SERIALIZABLE;", "sql-start-transaction.html"));
    t.insert(keyword("STATISTICS", "ALTER TABLE ... ALTER COLUMN <c> SET STATISTICS <n> / CREATE STATISTICS -- per-column ANALYZE target, or multivariate stats object.", "ALTER TABLE t ALTER COLUMN tags SET STATISTICS 500;", "sql-altertable.html"));
    t.insert(keyword("STDIN", "COPY <t> FROM STDIN -- stream rows from client connection. Terminate with `\\.` in psql.", "COPY t FROM STDIN WITH (FORMAT csv);", "sql-copy.html"));
    t.insert(keyword("STDOUT", "COPY <t> TO STDOUT -- stream rows back to client connection (no server-side file needed).", "COPY (SELECT * FROM t) TO STDOUT WITH (FORMAT csv);", "sql-copy.html"));
    t.insert(keyword("STORAGE", "ALTER TABLE ... ALTER COLUMN <c> SET STORAGE { PLAIN | EXTERNAL | EXTENDED | MAIN } -- TOAST strategy for variable-length values.", "ALTER TABLE t ALTER COLUMN body SET STORAGE EXTENDED;", "sql-altertable.html"));
    t.insert(keyword("STRIP", "xmlserialize(... STRIP WHITESPACE) -- collapse insignificant whitespace in the serialized output.", "SELECT xmlserialize(DOCUMENT x AS text STRIP WHITESPACE);", "functions-xml.html"));
    t.insert(keyword("SUBSCRIPTION", "CREATE/ALTER/DROP SUBSCRIPTION -- logical-replication sink that reads from a publisher's PUBLICATION.", "CREATE SUBSCRIPTION sub_orders CONNECTION 'host=pub user=repl dbname=app' PUBLICATION pub_orders;", "sql-createsubscription.html"));
    t.insert(keyword("SUBSTRING", "SUBSTRING(<s> FROM <pos> [FOR <len>]) | SUBSTRING(<s> FROM <pattern>) -- SQL-standard substring or POSIX-regex extract.", "SELECT SUBSTRING('Postgres' FROM 5 FOR 3), SUBSTRING('abc123', '[0-9]+');", "functions-string.html#FUNCTIONS-STRING-SQL"));
    t.insert(keyword("SUPPORT", "CREATE FUNCTION ... SUPPORT <fn> -- planner support function: gives row estimates / index info to the planner (PG12+, C only).", "CREATE FUNCTION my_fn(int) RETURNS int LANGUAGE c SUPPORT my_fn_support AS 'libfn', 'my_fn';", "sql-createfunction.html"));
    t.insert(keyword("SYMMETRIC", "BETWEEN SYMMETRIC <a> AND <b> -- swap operands if a > b, so the test always picks min..max.", "WHERE x BETWEEN SYMMETRIC 10 AND 1", "functions-comparison.html"));
    t.insert(keyword("SYSTEM", "ALTER SYSTEM SET <param> = <val> -- writes to postgresql.auto.conf; takes effect after `SELECT pg_reload_conf()` (or restart for some params).", "ALTER SYSTEM SET shared_buffers = '4GB';", "sql-altersystem.html"));
    t.insert(keyword("TABLES", "GRANT/REVOKE ... ON ALL TABLES IN SCHEMA / ALTER DEFAULT PRIVILEGES ... ON TABLES -- bulk privilege ops on tables (also covers views).", "GRANT SELECT ON ALL TABLES IN SCHEMA app TO readonly;", "sql-grant.html"));
    t.insert(keyword("TABLESAMPLE", "FROM <t> TABLESAMPLE <method> (<pct>) -- statistical sampling. Built-ins: BERNOULLI (per-row coin flip), SYSTEM (block-level, cheaper).", "SELECT * FROM big TABLESAMPLE BERNOULLI (1);", "sql-select.html#SQL-FROM"));
    t.insert(keyword("TEMPLATE", "CREATE DATABASE <new> TEMPLATE <existing> -- clone an existing DB. Also `CREATE TEXT SEARCH TEMPLATE` for FTS.", "CREATE DATABASE staging TEMPLATE template_app;", "sql-createdatabase.html"));
    t.insert(keyword("TEXT", "Variable-length string of unlimited length. Same performance as `VARCHAR` -- prefer TEXT.", "body TEXT NOT NULL", "datatype-character.html"));
    t.insert(keyword("TIES", "FETCH FIRST <n> ROWS WITH TIES -- include peer rows tied with row <n> per the ORDER BY (SQL:2008 / PG13+).", "SELECT * FROM scores ORDER BY pts DESC FETCH FIRST 3 ROWS WITH TIES;", "sql-select.html#SQL-LIMIT"));
    t.insert(keyword("TIME", "Time-of-day data type. `TIME [(p)]` (no zone) or `TIME [(p)] WITH TIME ZONE` (timetz). Almost always prefer `timestamptz` over `timetz`.", "start_at TIME(3)", "datatype-datetime.html"));
    t.insert(keyword("TIMESTAMP", "Datetime data type. `TIMESTAMP [(p)]` (timestamp) or `TIMESTAMP [(p)] WITH TIME ZONE` (timestamptz). Prefer timestamptz; PG stores both as UTC.", "created_at TIMESTAMP(3) WITH TIME ZONE NOT NULL DEFAULT now()", "datatype-datetime.html"));
    t.insert(keyword("TRAILING", "TRIM(TRAILING <chars> FROM <s>) -- strip <chars> from the right.", "SELECT TRIM(TRAILING '/' FROM '/a/b/');", "functions-string.html#FUNCTIONS-STRING-OTHER"));
    t.insert(keyword("TRANSFORM", "CREATE TRANSFORM FOR <type> LANGUAGE <pl> (FROM SQL WITH FUNCTION ..., TO SQL WITH FUNCTION ...) -- PL-side codec for a PG type (e.g. hstore <-> Perl hash).", "CREATE TRANSFORM FOR hstore LANGUAGE plperl (FROM SQL WITH FUNCTION hstore_to_plperl(internal), TO SQL WITH FUNCTION plperl_to_hstore(internal));", "sql-createtransform.html"));
    t.insert(keyword("TREAT", "TREAT(<expr> AS <type>) -- SQL-standard subtype assertion. Reserved in PG; no current effect (treated as cast).", "SELECT TREAT(x AS text);", "appendix-keywords.html"));
    t.insert(keyword("TRIM", "TRIM([LEADING|TRAILING|BOTH] [<chars>] FROM <s>) -- strip <chars> (default ' ') from one or both ends.", "SELECT TRIM(BOTH '\"' FROM '\"hello\"');", "functions-string.html#FUNCTIONS-STRING-SQL"));
    t.insert(keyword("TRUSTED", "CREATE [TRUSTED] LANGUAGE / EXTENSION -- TRUSTED PL can be created by ordinary users; trusted extensions installable by table owners (PG13+).", "CREATE TRUSTED LANGUAGE plperl;", "sql-createlanguage.html"));
    t.insert(keyword("TYPES", "ALTER DEFAULT PRIVILEGES ... ON TYPES -- ALTER DEFAULT PRIVILEGES target covering CREATE/USAGE on types.", "ALTER DEFAULT PRIVILEGES IN SCHEMA app GRANT USAGE ON TYPES TO svc;", "sql-alterdefaultprivileges.html"));
    t.insert(keyword("UESCAPE", "U&'<text>' UESCAPE '<c>' -- Unicode string literal with custom backslash. Same for identifiers: U&\"...\" UESCAPE '<c>'.", "SELECT U&'d\\0061t\\0061' UESCAPE '\\\\';", "sql-syntax-lexical.html#SQL-SYNTAX-STRINGS-UESCAPE"));
    t.insert(keyword("UNCOMMITTED", "SET TRANSACTION ISOLATION LEVEL READ UNCOMMITTED -- accepted for compat; PG silently upgrades to READ COMMITTED (no dirty reads).", "BEGIN ISOLATION LEVEL READ UNCOMMITTED;", "transaction-iso.html"));
    t.insert(keyword("UNKNOWN", "Three-valued-logic third value (NULL in boolean context). `<bool> IS UNKNOWN` true when expression is NULL.", "WHERE active IS UNKNOWN", "functions-comparison.html"));
    t.insert(keyword("UNTIL", "CREATE/ALTER ROLE ... VALID UNTIL '<ts>' -- role password expiry; after that, login is refused.", "ALTER ROLE alice VALID UNTIL '2027-01-01';", "sql-createrole.html"));
    t.insert(keyword("USAGE", "GRANT USAGE ON { SCHEMA | SEQUENCE | DOMAIN | FDW | SERVER | TYPE | LANGUAGE } -- needed in addition to per-object privileges.", "GRANT USAGE ON SCHEMA app TO svc;", "sql-grant.html"));
    t.insert(keyword("VALID", "CREATE/ALTER ROLE ... VALID UNTIL '<ts>' / Constraints become VALID after `ALTER TABLE ... VALIDATE CONSTRAINT`.", "ALTER ROLE alice VALID UNTIL 'infinity';", "sql-createrole.html"));
    t.insert(keyword("VALIDATE", "ALTER TABLE ... VALIDATE CONSTRAINT <name> -- re-check existing rows against a constraint added with NOT VALID; converts it to VALID.", "ALTER TABLE t VALIDATE CONSTRAINT fk_t_user;", "sql-altertable.html"));
    t.insert(keyword("VALIDATOR", "CREATE LANGUAGE ... VALIDATOR <fn> / CREATE FOREIGN DATA WRAPPER ... VALIDATOR <fn> -- C function that validates options at create time.", "CREATE FOREIGN DATA WRAPPER w VALIDATOR my_fdw_validator;", "sql-createforeigndatawrapper.html"));
    t.insert(keyword("VALUE", "ALTER TYPE <enum> ADD VALUE [IF NOT EXISTS] '<lab>' [BEFORE|AFTER '<other>'] -- append/insert enum label.", "ALTER TYPE mood ADD VALUE IF NOT EXISTS 'meh' AFTER 'ok';", "sql-altertype.html"));
    t.insert(keyword("VARCHAR", "Variable-length string with optional limit. `VARCHAR(n)` = `CHARACTER VARYING(n)`. Functionally identical to TEXT -- prefer TEXT + CHECK if you need a length cap.", "name VARCHAR(64) NOT NULL", "datatype-character.html"));
    t.insert(keyword("VARIADIC", "Function: last parameter `VARIADIC <type>[]` accepts a variable number of args; call site can use `VARIADIC <arr>` to pass an array as that vararg.", "CREATE FUNCTION fmt(VARIADIC vals text[]) RETURNS text LANGUAGE sql AS $$ SELECT array_to_string(vals, ',') $$;", "xfunc-sql.html#XFUNC-SQL-VARIADIC-FUNCTIONS"));
    t.insert(keyword("VARYING", "Modifier for variable-length strings/bits. `CHARACTER VARYING(n)` = `VARCHAR(n)`; `BIT VARYING(n)` = `VARBIT(n)`.", "name CHARACTER VARYING(64)", "datatype-character.html"));
    t.insert(keyword("VERSION", "xmlroot(<x>, VERSION '<v>') -- set/replace XML prolog version. Also `CREATE EXTENSION ... VERSION '<v>'` and `ALTER EXTENSION ... UPDATE TO '<v>'`.", "SELECT xmlroot(x, VERSION '1.0', STANDALONE NO);", "functions-xml.html"));
    t.insert(keyword("VIEWS", "ALTER DEFAULT PRIVILEGES ... ON VIEWS -- bulk-default privileges for views (treated separately from tables since PG14).", "ALTER DEFAULT PRIVILEGES IN SCHEMA app GRANT SELECT ON TABLES TO readonly;", "sql-alterdefaultprivileges.html"));
    t.insert(keyword("WHITESPACE", "xmlserialize(... [PRESERVE | STRIP] WHITESPACE) -- whether the serializer keeps insignificant whitespace (PG16+).", "SELECT xmlserialize(DOCUMENT x AS text PRESERVE WHITESPACE);", "functions-xml.html"));
    t.insert(keyword("WITHOUT", "Part of `TIMESTAMP/TIME WITHOUT TIME ZONE` and `WITHOUT OVERLAPS` (period FKs, PG17+).", "ts TIMESTAMP WITHOUT TIME ZONE", "datatype-datetime.html"));
    t.insert(keyword("WORK", "Noise word in `COMMIT [WORK]` / `ROLLBACK [WORK]` / `BEGIN [WORK]` -- SQL-standard, no effect.", "COMMIT WORK;", "sql-commit.html"));
    t.insert(keyword("WRITE", "SET TRANSACTION READ WRITE -- default; allow writes for the current xact. Inverse of READ ONLY.", "BEGIN READ WRITE;", "sql-set-transaction.html"));
    t.insert(keyword("XML", "PG XML data type. Stores well-formed XML documents or content fragments; query with `XMLEXISTS`, `XMLTABLE`, `xpath()`.", "doc XML NOT NULL CHECK (xpath_exists('/root', doc))", "datatype-xml.html"));
    t.insert(keyword("XMLATTRIBUTES", "Part of `XMLELEMENT(NAME tag, XMLATTRIBUTES(<expr> AS <name>, ...), <content>)` -- build element attribute list.", "SELECT XMLELEMENT(NAME a, XMLATTRIBUTES(id, ts AS created), body);", "functions-xml.html#FUNCTIONS-PRODUCING-XML"));
    t.insert(keyword("XMLCONCAT", "XMLCONCAT(<x1>, <x2>, ...) -- concatenate XML fragments into a single forest.", "SELECT XMLCONCAT('<a/>'::xml, '<b/>'::xml);", "functions-xml.html#FUNCTIONS-PRODUCING-XML"));
    t.insert(keyword("XMLELEMENT", "XMLELEMENT(NAME <tag>[, XMLATTRIBUTES(...)][, <content>...]) -- construct an XML element.", "SELECT XMLELEMENT(NAME user, XMLATTRIBUTES(id), name) FROM users;", "functions-xml.html#FUNCTIONS-PRODUCING-XML"));
    t.insert(keyword("XMLEXISTS", "XMLEXISTS(<xpath> PASSING <x>) -- boolean: does the XPath match anything?", "SELECT * FROM docs WHERE XMLEXISTS('//author' PASSING doc);", "functions-xml.html#FUNCTIONS-XML-PREDICATES"));
    t.insert(keyword("XMLFOREST", "XMLFOREST(<expr> AS <name>, ...) -- build a forest (sibling elements) one per expression.", "SELECT XMLFOREST(id, name AS user_name) FROM users;", "functions-xml.html#FUNCTIONS-PRODUCING-XML"));
    t.insert(keyword("XMLNAMESPACES", "XMLTABLE(XMLNAMESPACES('uri' AS <prefix>, ...), <xpath> PASSING <x> COLUMNS ...) -- bind XPath namespaces inside XMLTABLE.", "SELECT * FROM XMLTABLE(XMLNAMESPACES('http://x' AS x), '/x:root/x:item' PASSING d COLUMNS id INT PATH '@id');", "functions-xml.html#FUNCTIONS-XML-PROCESSING-XMLTABLE"));
    t.insert(keyword("XMLPARSE", "XMLPARSE({DOCUMENT|CONTENT} <text>) -- parse text into xml. DOCUMENT requires a complete document; CONTENT accepts fragments.", "SELECT XMLPARSE(CONTENT '<a/>');", "functions-xml.html#FUNCTIONS-PRODUCING-XML"));
    t.insert(keyword("XMLPI", "XMLPI(NAME <target>[, <content>]) -- XML processing instruction.", "SELECT XMLPI(NAME php, 'echo 1;');", "functions-xml.html#FUNCTIONS-PRODUCING-XML"));
    t.insert(keyword("XMLROOT", "XMLROOT(<x>, VERSION '<v>' | NO VALUE[, STANDALONE {YES|NO|NO VALUE}]) -- set/replace the XML prolog.", "SELECT XMLROOT(x, VERSION '1.0', STANDALONE NO);", "functions-xml.html#FUNCTIONS-PRODUCING-XML"));
    t.insert(keyword("XMLSERIALIZE", "XMLSERIALIZE({DOCUMENT|CONTENT} <x> AS <type> [INDENT] [{PRESERVE|STRIP} WHITESPACE]) -- serialize xml to text/bytea.", "SELECT XMLSERIALIZE(DOCUMENT x AS text INDENT);", "functions-xml.html#FUNCTIONS-PRODUCING-XML"));
    t.insert(keyword("XMLTABLE", "XMLTABLE([XMLNAMESPACES(...),] <row_xpath> PASSING <x> COLUMNS <col_specs>) -- shred XML into a relational result set.", "SELECT * FROM XMLTABLE('/r/item' PASSING d COLUMNS id INT PATH '@id', name TEXT PATH 'name');", "functions-xml.html#FUNCTIONS-XML-PROCESSING-XMLTABLE"));
    t.insert(keyword("YEAR", "EXTRACT(YEAR FROM <ts|interval>) -- AD year for timestamps; year portion of interval.", "SELECT EXTRACT(YEAR FROM now());", "functions-datetime.html#FUNCTIONS-DATETIME-EXTRACT"));
    t.insert(keyword("YES", "xmlroot(..., STANDALONE YES) -- mark XML document as standalone.", "SELECT xmlroot(x, VERSION '1.0', STANDALONE YES);", "functions-xml.html#FUNCTIONS-PRODUCING-XML"));
    t.insert(keyword("ZONE", "Part of `[WITH|WITHOUT] TIME ZONE` (datetime types) and `AT TIME ZONE` (conversion expression).", "ts TIMESTAMP WITH TIME ZONE; SELECT ts AT TIME ZONE 'UTC' FROM e;", "datatype-datetime.html"));
    t.insert(keyword("JSON_TABLE", "JSON_TABLE(<doc>, <jsonpath> COLUMNS (...)) -- relational projection of JSON (PG17+).", "SELECT * FROM JSON_TABLE(j, '$.items[*]' COLUMNS (id int PATH '$.id'));", "functions-json.html"));
    t.insert(keyword("JSON_VALUE", "JSON_VALUE(<doc>, <jsonpath> RETURNING <type>) -- scalar extraction.", "SELECT JSON_VALUE(payload, '$.user.id' RETURNING int);", "functions-json.html"));
    t.insert(keyword("JSON_QUERY", "JSON_QUERY(<doc>, <jsonpath>) -- returns jsonb fragment.", "SELECT JSON_QUERY(payload, '$.items');", "functions-json.html"));
    t.insert(keyword("JSON_EXISTS", "JSON_EXISTS(<doc>, <jsonpath>) -- boolean test.", "WHERE JSON_EXISTS(payload, '$.flag')", "functions-json.html"));
    t.insert(keyword("JSON_OBJECT", "JSON_OBJECT(<key>: <value>[, ...]) -- SQL-standard constructor.", "SELECT JSON_OBJECT('id': id, 'name': name) FROM t;", "functions-json.html"));
    t.insert(keyword("JSON_OBJECTAGG", "JSON_OBJECTAGG(<k>: <v>) -- aggregate JSON object constructor.", "SELECT JSON_OBJECTAGG(id: name) FROM users;", "functions-json.html"));
    t.insert(keyword("JSON_ARRAY", "JSON_ARRAY(<v>[, ...]) -- SQL-standard JSON array constructor.", "SELECT JSON_ARRAY(1, 'a', null);", "functions-json.html"));
    t.insert(keyword("JSON_ARRAYAGG", "JSON_ARRAYAGG(<v>) -- aggregate JSON array constructor.", "SELECT JSON_ARRAYAGG(id) FROM users;", "functions-json.html"));
    t.insert(keyword("JSON_SCALAR", "JSON_SCALAR(<value>) -- wrap a value as JSON scalar.", "SELECT JSON_SCALAR(42);", "functions-json.html"));
    t.insert(keyword("JSON_SERIALIZE", "JSON_SERIALIZE(<jsonb>) -- canonical text serialisation.", "SELECT JSON_SERIALIZE(payload);", "functions-json.html"));
}

fn part_7(t: &mut Table)
    requires
        old(t).wf(),
        old(t).table_kind() == Kind::Keyword,
    ensures
        final(t).wf(),
        final(t).table_kind() == Kind::Keyword,
        final(t).contents() == keyword_part_7(old(t).contents()),
{
    t.insert(keyword("IS JSON", "IS [NOT] JSON [{VALUE|SCALAR|ARRAY|OBJECT}] -- SQL/JSON predicate (PG16+).", "WHERE col IS JSON ARRAY", "functions-json.html"));
    t.insert(keyword("IS JSON VALUE", "IS [NOT] JSON VALUE -- the input is *any* JSON value (default if no shape token).", "WHERE payload::jsonb IS JSON VALUE", "functions-json.html#FUNCTIONS-SQLJSON-IS-JSON"));
    t.insert(keyword("IS JSON SCALAR", "IS [NOT] JSON SCALAR -- the input is a JSON number / string / boolean / null.", "WHERE payload IS JSON SCALAR", "functions-json.html#FUNCTIONS-SQLJSON-IS-JSON"));
    t.insert(keyword("IS JSON ARRAY", "IS [NOT] JSON ARRAY -- the input is a JSON array.", "WHERE payload IS JSON ARRAY", "functions-json.html#FUNCTIONS-SQLJSON-IS-JSON"));
    t.insert(keyword("IS JSON OBJECT", "IS [NOT] JSON OBJECT -- the input is a JSON object.", "WHERE payload IS JSON OBJECT", "functions-json.html#FUNCTIONS-SQLJSON-IS-JSON"));
    t.insert(keyword("IS NOT JSON", "IS NOT JSON [{VALUE|SCALAR|ARRAY|OBJECT}] -- negated SQL/JSON predicate.", "WHERE payload IS NOT JSON OBJECT", "functions-json.html#FUNCTIONS-SQLJSON-IS-JSON"));
    t.insert(keyword("WITH UNIQUE KEYS", "IS [NOT] JSON OBJECT WITH UNIQUE KEYS -- additionally require no duplicate keys at any level (PG16+).", "WHERE payload IS JSON OBJECT WITH UNIQUE KEYS", "functions-json.html#FUNCTIONS-SQLJSON-IS-JSON"));
    t.insert(keyword("WITHOUT UNIQUE KEYS", "IS [NOT] JSON OBJECT WITHOUT UNIQUE KEYS -- explicit opt-out (default).", "WHERE payload IS JSON OBJECT WITHOUT UNIQUE KEYS", "functions-json.html#FUNCTIONS-SQLJSON-IS-JSON"));
    t.insert(keyword("NESTED PATH", "JSON_TABLE COLUMNS (... NESTED PATH '<jsonpath>' [AS <name>] COLUMNS (...)) -- shred a nested array/object into additional rows.", "COLUMNS (id INT PATH '$.id', NESTED PATH '$.items[*]' COLUMNS (qty INT PATH '$.qty'))", "functions-json.html#FUNCTIONS-SQLJSON-TABLE"));
    t.insert(keyword("NESTED", "JSON_TABLE NESTED PATH '<jsonpath>' -- prefix of NESTED PATH.", "NESTED PATH '$.items[*]'", "functions-json.html#FUNCTIONS-SQLJSON-TABLE"));
    t.insert(keyword("PATH", "JSON_TABLE / JSON_QUERY / JSON_VALUE PATH '<jsonpath>' -- jsonpath spec for a column or top-level expression.", "id INT PATH '$.id'", "functions-json.html#FUNCTIONS-SQLJSON-TABLE"));
    t.insert(keyword("PLAN DEFAULT", "JSON_TABLE ... PLAN DEFAULT (INNER | OUTER, CROSS | UNION) -- choose the default sibling join / parent-child join semantics.", "PLAN DEFAULT (OUTER, UNION)", "functions-json.html#FUNCTIONS-SQLJSON-TABLE"));
    t.insert(keyword("PLAN", "JSON_TABLE PLAN <name> { CROSS | UNION } <name> -- explicit nested-path join plan.", "PLAN (root OUTER (items CROSS tags))", "functions-json.html#FUNCTIONS-SQLJSON-TABLE"));
    t.insert(keyword("ON EMPTY", "JSON_VALUE / JSON_QUERY / JSON_TABLE ... { ERROR | NULL | EMPTY ARRAY | EMPTY OBJECT | DEFAULT <expr> } ON EMPTY -- behavior when the jsonpath matches no value.", "DEFAULT '[]'::jsonb ON EMPTY", "functions-json.html#FUNCTIONS-SQLJSON-QUERY"));
    t.insert(keyword("ON ERROR", "JSON_VALUE / JSON_QUERY / JSON_TABLE ... { ERROR | NULL | EMPTY ARRAY | EMPTY OBJECT | DEFAULT <expr> } ON ERROR -- behavior when jsonpath evaluation raises.", "NULL ON ERROR", "functions-json.html#FUNCTIONS-SQLJSON-QUERY"));
    t.insert(keyword("EMPTY ARRAY", "ON EMPTY/ON ERROR clause: substitute `[]` (or `{}` for OBJECT) when the jsonpath returns nothing / errors.", "EMPTY ARRAY ON EMPTY", "functions-json.html#FUNCTIONS-SQLJSON-QUERY"));
    t.insert(keyword("EMPTY OBJECT", "ON EMPTY/ON ERROR clause: substitute `{}` when the jsonpath returns nothing / errors.", "EMPTY OBJECT ON EMPTY", "functions-json.html#FUNCTIONS-SQLJSON-QUERY"));
    t.insert(keyword("WRAPPER", "JSON_QUERY ... WITH { CONDITIONAL | UNCONDITIONAL } WRAPPER / WITHOUT WRAPPER -- choose how to wrap a non-array result.", "JSON_QUERY(j, '$.items' WITH UNCONDITIONAL WRAPPER)", "functions-json.html#FUNCTIONS-SQLJSON-QUERY"));
    t.insert(keyword("WITH WRAPPER", "JSON_QUERY ... WITH WRAPPER -- alias for WITH UNCONDITIONAL WRAPPER.", "JSON_QUERY(j, '$.items' WITH WRAPPER)", "functions-json.html#FUNCTIONS-SQLJSON-QUERY"));
    t.insert(keyword("WITHOUT WRAPPER", "JSON_QUERY ... WITHOUT WRAPPER (default).", "JSON_QUERY(j, '$.item' WITHOUT WRAPPER)", "functions-json.html#FUNCTIONS-SQLJSON-QUERY"));
    t.insert(keyword("BEGIN ATOMIC", "PG14+ CREATE FUNCTION ... LANGUAGE sql BEGIN ATOMIC ... END -- SQL-standard inline body; references are resolved at create time, so renames cascade.", "CREATE FUNCTION add(a int, b int) RETURNS int LANGUAGE sql BEGIN ATOMIC RETURN a + b; END;", "sql-createfunction.html"));
    t.insert(keyword("ATOMIC", "BEGIN ATOMIC ... END marker -- parsed and resolved at CREATE time (unlike the legacy `$$ ... $$` body).", "BEGIN ATOMIC RETURN 1; END", "sql-createfunction.html"));
    t.insert(keyword("SUBSTRING SIMILAR", "SUBSTRING(<src> SIMILAR '<pattern>' ESCAPE '<char>') -- SQL-standard regex extraction.", "SELECT SUBSTRING('foo123bar' SIMILAR '%#\"[0-9]+#\"%' ESCAPE '#');", "functions-string.html#FUNCTIONS-STRING-OTHER"));
    t.insert(keyword("SIMILAR TO ESCAPE", "WHERE <expr> SIMILAR TO '<pattern>' ESCAPE '<char>' -- pick a custom escape character.", "WHERE name SIMILAR TO 'a#%b' ESCAPE '#'", "functions-matching.html#FUNCTIONS-SIMILARTO-REGEXP"));
    t.insert(keyword("LIKE ESCAPE", "<expr> LIKE '<pattern>' ESCAPE '<char>' -- escape `%` / `_` with a custom character (default `\\\\`).", "WHERE name LIKE 'a/%' ESCAPE '/'", "functions-matching.html#FUNCTIONS-LIKE"));
    t.insert(keyword("ILIKE ESCAPE", "<expr> ILIKE '<pattern>' ESCAPE '<char>' -- case-insensitive LIKE with custom escape.", "WHERE name ILIKE 'A/_' ESCAPE '/'", "functions-matching.html#FUNCTIONS-LIKE"));
    t.insert(keyword("ESCAPE", "Escape-char clause: LIKE / ILIKE / SIMILAR TO ... ESCAPE '<char>'. Default is the single backslash.", "name LIKE 'a\\%b' ESCAPE '\\\\'", "functions-matching.html#FUNCTIONS-LIKE"));
    t.insert(keyword("OVERLAY FROM", "Trailing part of OVERLAY(... FROM <pos>) -- start position is 1-based.", "OVERLAY('abc' PLACING 'X' FROM 2)", "functions-string.html#FUNCTIONS-STRING-OTHER"));
    t.insert(keyword("OVERLAY FOR", "Optional length: OVERLAY(... FROM <pos> FOR <len>).", "OVERLAY('abcdef' PLACING 'XY' FROM 2 FOR 3)", "functions-string.html#FUNCTIONS-STRING-OTHER"));
    t.insert(keyword("YEAR TO MONTH", "INTERVAL '<n>' YEAR TO MONTH -- SQL-standard year-month interval qualifier; constrains the precision.", "SELECT INTERVAL '1-6' YEAR TO MONTH;", "datatype-datetime.html#DATATYPE-INTERVAL-INPUT"));
    t.insert(keyword("DAY TO HOUR", "INTERVAL '<n>' DAY TO HOUR -- restrict to day+hour precision.", "INTERVAL '2 3' DAY TO HOUR", "datatype-datetime.html#DATATYPE-INTERVAL-INPUT"));
    t.insert(keyword("DAY TO MINUTE", "INTERVAL '<n>' DAY TO MINUTE -- day/hour/minute precision.", "INTERVAL '2 3:15' DAY TO MINUTE", "datatype-datetime.html#DATATYPE-INTERVAL-INPUT"));
    t.insert(keyword("DAY TO SECOND", "INTERVAL '<n>' DAY TO SECOND -- full sub-day precision.", "INTERVAL '2 3:15:30' DAY TO SECOND", "datatype-datetime.html#DATATYPE-INTERVAL-INPUT"));
    t.insert(keyword("HOUR TO MINUTE", "INTERVAL '<n>' HOUR TO MINUTE -- hour+minute precision.", "INTERVAL '3:15' HOUR TO MINUTE", "datatype-datetime.html#DATATYPE-INTERVAL-INPUT"));
    t.insert(keyword("HOUR TO SECOND", "INTERVAL '<n>' HOUR TO SECOND -- sub-hour precision.", "INTERVAL '3:15:30' HOUR TO SECOND", "datatype-datetime.html#DATATYPE-INTERVAL-INPUT"));
    t.insert(keyword("MINUTE TO SECOND", "INTERVAL '<n>' MINUTE TO SECOND -- minute+second precision.", "INTERVAL '15:30' MINUTE TO SECOND", "datatype-datetime.html#DATATYPE-INTERVAL-INPUT"));
    t.insert(keyword("INTERVAL YEAR", "INTERVAL '<n>' YEAR -- year-only precision; truncates sub-year fields.", "INTERVAL '5' YEAR", "datatype-datetime.html#DATATYPE-INTERVAL-INPUT"));
    t.insert(keyword("INTERVAL MONTH", "INTERVAL '<n>' MONTH -- month-only precision.", "INTERVAL '18' MONTH", "datatype-datetime.html#DATATYPE-INTERVAL-INPUT"));
    t.insert(keyword("INTERVAL DAY", "INTERVAL '<n>' DAY -- day-only precision.", "INTERVAL '45' DAY", "datatype-datetime.html#DATATYPE-INTERVAL-INPUT"));
    t.insert(keyword("INTERVAL HOUR", "INTERVAL '<n>' HOUR -- hour-only precision.", "INTERVAL '36' HOUR", "datatype-datetime.html#DATATYPE-INTERVAL-INPUT"));
    t.insert(keyword("INTERVAL MINUTE", "INTERVAL '<n>' MINUTE -- minute-only precision.", "INTERVAL '120' MINUTE", "datatype-datetime.html#DATATYPE-INTERVAL-INPUT"));
    t.insert(keyword("INTERVAL SECOND", "INTERVAL '<n>' SECOND [(p)] -- second-only precision; (p) is fractional digits.", "INTERVAL '90.5' SECOND(1)", "datatype-datetime.html#DATATYPE-INTERVAL-INPUT"));
    t.insert(keyword("CHARACTER LARGE OBJECT", "CHARACTER LARGE OBJECT -- SQL-standard alias for TEXT (PG stores as text).", "body CHARACTER LARGE OBJECT", "datatype-character.html"));
    t.insert(keyword("BINARY LARGE OBJECT", "BINARY LARGE OBJECT -- SQL-standard alias for BYTEA (PG stores as bytea).", "blob BINARY LARGE OBJECT", "datatype-binary.html"));
    t.insert(keyword("CLOB", "CLOB -- shorthand for CHARACTER LARGE OBJECT; PG maps to TEXT.", "body CLOB", "datatype-character.html"));
    t.insert(keyword("BLOB", "BLOB -- shorthand for BINARY LARGE OBJECT; PG maps to BYTEA.", "blob BLOB", "datatype-binary.html"));
    t.insert(keyword("NCHAR VARYING", "NCHAR VARYING(<n>) -- SQL-standard alias of VARCHAR(n) (national character set).", "name NCHAR VARYING(64)", "datatype-character.html"));
    t.insert(keyword("NATIONAL CHAR", "NATIONAL CHAR(<n>) -- SQL-standard alias of CHAR(n).", "code NATIONAL CHAR(3)", "datatype-character.html"));
    t.insert(keyword("NATIONAL CHARACTER", "NATIONAL CHARACTER [VARYING](<n>) -- SQL-standard char/varchar variant.", "name NATIONAL CHARACTER VARYING(64)", "datatype-character.html"));
    t.insert(keyword("NATIONAL CHARACTER VARYING", "NATIONAL CHARACTER VARYING(<n>) -- SQL-standard alias of VARCHAR(n).", "name NATIONAL CHARACTER VARYING(64)", "datatype-character.html"));
    t.insert(keyword("CHARACTER SET", "CHARACTER SET <name> -- SQL-standard; PG accepts the syntax but ignores it (encoding is per-database).", "name VARCHAR(64) CHARACTER SET utf8", "datatype-character.html"));
    t.insert(keyword("AS SMALLINT", "CAST(... AS SMALLINT) -- 2-byte signed integer.", "SELECT CAST(x AS SMALLINT);", "sql-expressions.html#SQL-SYNTAX-TYPE-CASTS"));
    t.insert(keyword("AS INTEGER", "CAST(... AS INTEGER) -- 4-byte signed integer.", "SELECT CAST(x AS INTEGER);", "sql-expressions.html#SQL-SYNTAX-TYPE-CASTS"));
    t.insert(keyword("AS REAL", "CAST(... AS REAL) -- 4-byte float.", "SELECT CAST(x AS REAL);", "sql-expressions.html#SQL-SYNTAX-TYPE-CASTS"));
    t.insert(keyword("AS DOUBLE PRECISION", "CAST(... AS DOUBLE PRECISION) -- 8-byte float.", "SELECT CAST(x AS DOUBLE PRECISION);", "sql-expressions.html#SQL-SYNTAX-TYPE-CASTS"));
    t.insert(keyword("COLLATE", "ORDER BY <col> COLLATE \"<collation>\" -- pick a non-default collation for ordering / comparisons.", "ORDER BY name COLLATE \"de-DE-x-icu\"", "collation.html"));
    t.insert(keyword("FILTER", "<agg>(...) FILTER (WHERE <pred>) -- conditionally include rows in the aggregate.", "SELECT count(*) FILTER (WHERE flag) FROM t;", "sql-expressions.html#SYNTAX-AGGREGATES"));
    t.insert(keyword("FILTER (WHERE", "Same as FILTER WHERE -- aggregate-only WHERE predicate.", "count(*) FILTER (WHERE active)", "sql-expressions.html#SYNTAX-AGGREGATES"));
    t.insert(keyword("IGNORE NULLS", "Window function modifier (SQL standard): skip NULLs in LAG/LEAD/FIRST_VALUE/LAST_VALUE/NTH_VALUE. PG accepts the syntax in PG16+ via the standard-conformant parser.", "lag(v) IGNORE NULLS OVER (ORDER BY t)", "functions-window.html"));
    t.insert(keyword("RESPECT NULLS", "Window function modifier (SQL standard, default): keep NULLs in LAG/LEAD/FIRST_VALUE/etc.", "lag(v) RESPECT NULLS OVER (ORDER BY t)", "functions-window.html"));
    t.insert(keyword("FROM FIRST", "NTH_VALUE(<expr>, <n>) FROM FIRST -- pick the nth row from the start of the window frame (default).", "nth_value(v, 1) FROM FIRST OVER (ORDER BY t)", "functions-window.html"));
    t.insert(keyword("FROM LAST", "NTH_VALUE(<expr>, <n>) FROM LAST -- pick the nth row counting backwards from the end of the frame.", "nth_value(v, 1) FROM LAST OVER (ORDER BY t)", "functions-window.html"));
    t.insert(keyword("AGG ORDER BY", "<agg>(<expr> ORDER BY <key> [ASC|DESC]) -- intra-aggregate ordering (e.g. for string_agg / array_agg / json_agg).", "SELECT string_agg(name, ',' ORDER BY id) FROM t;", "sql-expressions.html#SYNTAX-AGGREGATES"));
    t.insert(keyword("XMLEXISTS PASSING", "XMLEXISTS('<xpath>' PASSING [BY {REF|VALUE}] <xml> [AS <name>]) -- bind XML/values reachable inside the XPath.", "XMLEXISTS('/r/i' PASSING BY VALUE doc AS doc)", "functions-xml.html#FUNCTIONS-XML-PREDICATES"));
    t.insert(keyword("PASSING BY VALUE", "XMLEXISTS / XMLTABLE ... PASSING BY VALUE <expr> -- pass argument by value (the only mode PG supports; BY REF is parsed and ignored).", "XMLEXISTS('/r' PASSING BY VALUE x)", "functions-xml.html#FUNCTIONS-XML-PREDICATES"));
    t.insert(keyword("PASSING BY REF", "XMLEXISTS / XMLTABLE ... PASSING BY REF <expr> -- SQL-standard mode; PG accepts but treats as BY VALUE.", "XMLEXISTS('/r' PASSING BY REF x)", "functions-xml.html#FUNCTIONS-XML-PREDICATES"));
    t.insert(keyword("XMLPARSE DOCUMENT", "XMLPARSE(DOCUMENT <text>) -- parse a complete XML document; requires a single root element.", "XMLPARSE(DOCUMENT '<root/>')", "functions-xml.html#FUNCTIONS-PRODUCING-XML"));
    t.insert(keyword("XMLPARSE CONTENT", "XMLPARSE(CONTENT <text>) -- parse an XML fragment (no root requirement).", "XMLPARSE(CONTENT '<a/><b/>')", "functions-xml.html#FUNCTIONS-PRODUCING-XML"));
    t.insert(keyword("GROUPING SETS", "GROUP BY GROUPING SETS ((<cols>), (<cols>), ()) -- enumerate the exact grouping combinations; () is grand total.", "SELECT a, b, count(*) FROM t GROUP BY GROUPING SETS ((a, b), (a), ());", "queries-table-expressions.html#QUERIES-GROUPING-SETS"));
    t.insert(keyword("ROLLUP", "GROUP BY ROLLUP (a, b, c) -- expands to a hierarchy of grouping sets: (a,b,c), (a,b), (a), ().", "GROUP BY ROLLUP (region, sub_region, store)", "queries-table-expressions.html#QUERIES-GROUPING-SETS"));
    t.insert(keyword("CUBE", "GROUP BY CUBE (a, b) -- every subset of the columns: (a,b), (a), (b), ().", "GROUP BY CUBE (region, channel)", "queries-table-expressions.html#QUERIES-GROUPING-SETS"));
    t.insert(keyword("ROLLUP COLUMN GROUP", "GROUP BY ROLLUP ((a, b), c) -- ROLLUP with composite column groups; the (a,b) pair is treated as one level.", "GROUP BY ROLLUP ((country, city), product)", "queries-table-expressions.html#QUERIES-GROUPING-SETS"));
    t.insert(keyword("CUBE COLUMN GROUP", "GROUP BY CUBE ((a, b), c) -- CUBE with composite column groups; (a,b) is treated as a single grouping dimension.", "GROUP BY CUBE ((year, quarter), region)", "queries-table-expressions.html#QUERIES-GROUPING-SETS"));
    t.insert(keyword("TABLE (FUNCTION", "FROM TABLE(<set_returning_function>(...)) -- SQL-standard spelling of the implicit `FROM <srf>(...)` form. PG accepts it too.", "SELECT * FROM TABLE(generate_series(1, 10))", "queries-table-expressions.html"));
    t.insert(keyword("CYCLE USING", "WITH RECURSIVE ... CYCLE <cols> SET <flag> USING <path> -- PG14+ cycle detection; the USING column is the path array used for the test.", "CYCLE id SET is_cycle USING path", "queries-with.html#QUERIES-WITH-CYCLE"));
}

fn part_8(t: &mut Table)
    requires
        old(t).wf(),
        old(t).table_kind() == Kind::Keyword,
    ensures
        final(t).wf(),
        final(t).table_kind() == Kind::Keyword,
        final(t).contents() == keyword_part_8(old(t).contents()),
{
    t.insert(keyword("CYCLE SET", "WITH RECURSIVE ... CYCLE <cols> SET <flag_col> [TO <true_val>] [DEFAULT <false_val>] -- flag column appended to the recursive result.", "CYCLE id SET is_cycle TO 't' DEFAULT 'f' USING path", "queries-with.html#QUERIES-WITH-CYCLE"));
    t.insert(keyword("WEIGHT A", "setweight(tsvector, 'A') -- highest tsearch weight (usually used for titles).", "SELECT setweight(to_tsvector(title), 'A');", "textsearch-controls.html#TEXTSEARCH-MANIPULATE-TSVECTOR"));
    t.insert(keyword("WEIGHT B", "setweight(tsvector, 'B') -- second-highest tsearch weight (often subtitles / leading paragraphs).", "SELECT setweight(to_tsvector(body), 'B');", "textsearch-controls.html#TEXTSEARCH-MANIPULATE-TSVECTOR"));
    t.insert(keyword("WEIGHT C", "setweight(tsvector, 'C') -- third tsearch weight (often section text).", "setweight(to_tsvector(section), 'C')", "textsearch-controls.html#TEXTSEARCH-MANIPULATE-TSVECTOR"));
    t.insert(keyword("WEIGHT D", "setweight(tsvector, 'D') -- lowest tsearch weight (default for plain body text).", "setweight(to_tsvector(body), 'D')", "textsearch-controls.html#TEXTSEARCH-MANIPULATE-TSVECTOR"));
    t.insert(keyword("MULTISET", "SQL:2003 MULTISET / MULTISET UNION / MULTISET INTERSECT -- collection of unordered values with duplicates. PG does NOT implement MULTISET (use arrays).", "-- not supported by PG; use ARRAY[...] || ARRAY[...] for union", "datatype.html"));
    t.insert(keyword("EXISTS PATH", "JSON_TABLE COLUMNS (<name> [type] EXISTS PATH '<jsonpath>') -- boolean column: true when jsonpath matches.", "COLUMNS (has_tags boolean EXISTS PATH '$.tags')", "functions-json.html#FUNCTIONS-SQLJSON-TABLE"));
    t.insert(keyword("DEFAULT ON EMPTY", "ON EMPTY clause variant: ... DEFAULT <expr> ON EMPTY -- substitute <expr> when jsonpath returns no value.", "DEFAULT 0 ON EMPTY", "functions-json.html#FUNCTIONS-SQLJSON-QUERY"));
    t.insert(keyword("DEFAULT ON ERROR", "ON ERROR clause variant: ... DEFAULT <expr> ON ERROR -- substitute <expr> when jsonpath evaluation errors.", "DEFAULT '{}'::jsonb ON ERROR", "functions-json.html#FUNCTIONS-SQLJSON-QUERY"));
    t.insert(keyword("NULL ON ERROR", "JSON_VALUE / JSON_QUERY ... NULL ON ERROR -- return SQL NULL on path-evaluation errors (default for JSON_VALUE).", "JSON_VALUE(j, '$.id' NULL ON ERROR)", "functions-json.html#FUNCTIONS-SQLJSON-QUERY"));
    t.insert(keyword("ERROR ON ERROR", "JSON_VALUE / JSON_QUERY ... ERROR ON ERROR -- raise an exception on path-evaluation errors.", "JSON_VALUE(j, '$.id' ERROR ON ERROR)", "functions-json.html#FUNCTIONS-SQLJSON-QUERY"));
    t.insert(keyword("NULL ON EMPTY", "JSON_VALUE / JSON_QUERY ... NULL ON EMPTY -- return SQL NULL when jsonpath matches no value (default).", "JSON_VALUE(j, '$.id' NULL ON EMPTY)", "functions-json.html#FUNCTIONS-SQLJSON-QUERY"));
    t.insert(keyword("ERROR ON EMPTY", "JSON_VALUE / JSON_QUERY ... ERROR ON EMPTY -- raise an exception when jsonpath matches nothing.", "JSON_VALUE(j, '$.id' ERROR ON EMPTY)", "functions-json.html#FUNCTIONS-SQLJSON-QUERY"));
    t.insert(keyword("ABSENT ON NULL", "JSON_OBJECT / JSON_OBJECTAGG / JSON_ARRAY / JSON_ARRAYAGG ... ABSENT ON NULL -- omit entries / elements whose value is NULL.", "JSON_OBJECT('id' VALUE id, 'mid' VALUE middle_name ABSENT ON NULL)", "functions-json.html#FUNCTIONS-SQLJSON-OBJECT"));
    t.insert(keyword("NULL ON NULL", "JSON_OBJECT / JSON_OBJECTAGG ... NULL ON NULL -- keep `null` entries (default for JSON_ARRAY).", "JSON_OBJECT('id' VALUE id, 'tag' VALUE tag NULL ON NULL)", "functions-json.html#FUNCTIONS-SQLJSON-OBJECT"));
    t.insert(keyword("KEY VALUE", "JSON_OBJECT(KEY <key_expr> VALUE <val_expr>) -- SQL-standard pair syntax; PG also accepts the shorthand `<k> : <v>`.", "JSON_OBJECT(KEY 'id' VALUE id)", "functions-json.html#FUNCTIONS-SQLJSON-OBJECT"));
    t.insert(keyword("RETURNING JSON", "JSON_OBJECT / JSON_ARRAY / JSON_QUERY ... RETURNING JSON -- choose json output type.", "JSON_OBJECT('id' VALUE id RETURNING json)", "functions-json.html"));
    t.insert(keyword("RETURNING JSONB", "JSON_OBJECT / JSON_ARRAY / JSON_QUERY ... RETURNING JSONB -- choose jsonb output type (more efficient for storage / indexing).", "JSON_OBJECT('id' VALUE id RETURNING jsonb)", "functions-json.html"));
    t.insert(keyword("RETURNING TEXT", "JSON_QUERY / JSON_VALUE ... RETURNING text -- return the result coerced to text.", "JSON_VALUE(j, '$.name' RETURNING text)", "functions-json.html"));
    t.insert(keyword("FORMAT JSON", "JSON_OBJECT(... FORMAT JSON) / JSON_QUERY(... FORMAT JSON) -- treat the value as already-encoded JSON (don't re-quote strings).", "JSON_OBJECT('payload' VALUE col FORMAT JSON)", "functions-json.html"));
    t.insert(keyword("FORMAT JSONB", "Variant of FORMAT JSON -- treat the value as binary jsonb.", "JSON_OBJECT('payload' VALUE col FORMAT JSONB)", "functions-json.html"));
    t.insert(keyword("WITH QUOTES", "JSON_QUERY(... WITH QUOTES) -- keep surrounding `\"...\"` when the result is a scalar string (default).", "JSON_QUERY(j, '$.name' WITH QUOTES)", "functions-json.html#FUNCTIONS-SQLJSON-QUERY"));
    t.insert(keyword("OMIT QUOTES", "JSON_QUERY(... OMIT QUOTES) -- strip the surrounding `\"...\"` when the result is a scalar string.", "JSON_QUERY(j, '$.name' OMIT QUOTES)", "functions-json.html#FUNCTIONS-SQLJSON-QUERY"));
    t.insert(keyword("DOMAIN CHECK", "CREATE DOMAIN <name> AS <type> [NOT NULL] [DEFAULT ...] [CONSTRAINT <c>] CHECK (<expr>) -- domain-wide invariant evaluated on every assignment.", "CREATE DOMAIN positive_int AS int CHECK (VALUE > 0);", "sql-createdomain.html"));
    t.insert(keyword("DOMAIN VALUE", "Inside DOMAIN ... CHECK (<expr>) the literal `VALUE` refers to the value being checked.", "CHECK (VALUE > 0 AND VALUE < 100)", "sql-createdomain.html"));
    t.insert(keyword("CONSTRAINT CHECK", "Named CHECK constraint: CONSTRAINT <name> CHECK (<expr>) -- gives the predicate a stable name for ALTER ... VALIDATE.", "CONSTRAINT positive CHECK (qty > 0)", "sql-createtable.html"));
    t.insert(keyword("ADD CONSTRAINT CHECK", "ALTER TABLE/DOMAIN ADD CONSTRAINT <name> CHECK (<expr>) [NOT VALID] -- add a CHECK without rewriting (use NOT VALID then VALIDATE later).", "ALTER TABLE t ADD CONSTRAINT positive CHECK (qty > 0) NOT VALID;", "sql-altertable.html"));
    t.insert(keyword("LOCALE_PROVIDER", "CREATE DATABASE / CREATE COLLATION ... LOCALE_PROVIDER { libc | icu | builtin } -- selects which locale backend resolves comparisons.", "CREATE COLLATION fr (LOCALE_PROVIDER = icu, LOCALE = 'fr-FR');", "collation.html#COLLATION-MANAGING-CREATE"));
    t.insert(keyword("PROVIDER LIBC", "CREATE COLLATION ... (PROVIDER = libc) -- POSIX libc locales; behaviour depends on the OS install.", "CREATE COLLATION c (PROVIDER = libc, LOCALE = 'fr_FR.UTF-8');", "collation.html"));
    t.insert(keyword("PROVIDER ICU", "CREATE COLLATION ... (PROVIDER = icu) -- stable, version-tracked ICU collations (recommended for portability).", "CREATE COLLATION fr (PROVIDER = icu, LOCALE = 'fr-FR-x-icu');", "collation.html"));
    t.insert(keyword("PROVIDER BUILTIN", "CREATE COLLATION ... (PROVIDER = builtin) -- PG17+ built-in C.UTF-8 / C locale provider; no external libraries needed.", "CREATE COLLATION c_utf8 (PROVIDER = builtin, LOCALE = 'C.UTF-8');", "collation.html"));
    t.insert(keyword("DETERMINISTIC", "CREATE COLLATION ... (DETERMINISTIC = false) -- non-deterministic collation; allows case/accent-insensitive equality.", "CREATE COLLATION ci (PROVIDER = icu, LOCALE = 'und-u-ks-level2', DETERMINISTIC = false);", "collation.html"));
    t.insert(keyword("COLLATION VERSION", "CREATE COLLATION ... (VERSION = '<v>') -- pin a specific collation version so ALTER COLLATION REFRESH VERSION can detect drift.", "CREATE COLLATION fr (PROVIDER = icu, LOCALE = 'fr-FR', VERSION = '153.14');", "collation.html"));
    t.insert(keyword("TEXT SEARCH PARSER", "CREATE TEXT SEARCH PARSER <name> (...) -- defines how raw text is split into tokens.", "CREATE TEXT SEARCH PARSER my_parser (START = prsd_start, GETTOKEN = prsd_nexttoken, END = prsd_end, LEXTYPES = prsd_lextype);", "sql-createtsparser.html"));
    t.insert(keyword("TEXT SEARCH DICTIONARY", "CREATE TEXT SEARCH DICTIONARY <name> (TEMPLATE = <tmpl>[, ...]) -- maps tokens to lexemes / discards stopwords.", "CREATE TEXT SEARCH DICTIONARY english_stem (TEMPLATE = snowball, LANGUAGE = english);", "sql-createtsdictionary.html"));
    t.insert(keyword("TEXT SEARCH TEMPLATE", "CREATE TEXT SEARCH TEMPLATE <name> (LEXIZE = <fn>[, INIT = <fn>]) -- low-level building block reused by dictionaries.", "CREATE TEXT SEARCH TEMPLATE my_tmpl (INIT = my_init, LEXIZE = my_lexize);", "sql-createtstemplate.html"));
    t.insert(keyword("TEXT SEARCH CONFIGURATION", "CREATE TEXT SEARCH CONFIGURATION <name> (PARSER = <parser> | COPY = <other>) -- bundles a parser plus token-type -> dictionary mappings.", "CREATE TEXT SEARCH CONFIGURATION en (COPY = english);", "sql-createtsconfig.html"));
    t.insert(keyword("MAPPING FOR", "ALTER TEXT SEARCH CONFIGURATION <c> ADD MAPPING FOR <token_types> WITH <dicts> -- bind token classes to dictionaries.", "ALTER TEXT SEARCH CONFIGURATION en ADD MAPPING FOR asciiword, word WITH english_stem;", "sql-altertsconfig.html"));
    t.insert(keyword("MAPPING REPLACE", "ALTER TEXT SEARCH CONFIGURATION <c> ALTER MAPPING REPLACE <old_dict> WITH <new_dict> -- swap a dictionary without re-listing token types.", "ALTER TEXT SEARCH CONFIGURATION en ALTER MAPPING REPLACE simple WITH english_stem;", "sql-altertsconfig.html"));
    t.insert(keyword("RULE INSTEAD", "CREATE RULE <name> AS ON <event> TO <rel> DO INSTEAD <action> -- replace the original DML with the rule's action.", "CREATE RULE no_delete AS ON DELETE TO t DO INSTEAD NOTHING;", "sql-createrule.html"));
    t.insert(keyword("GENERATED ALWAYS AS STORED", "PG12+ stored generated column: computed expression materialised on disk (only STORED was supported pre-PG18; VIRTUAL added in PG18).", "amount_with_tax NUMERIC GENERATED ALWAYS AS (amount * 1.2) STORED", "ddl-generated-columns.html"));
    t.insert(keyword("GENERATED ALWAYS AS", "Generic prefix used by both identity (`AS IDENTITY`) and computed (`AS (<expr>) STORED|VIRTUAL`) generated columns.", "GENERATED ALWAYS AS (amount * 1.2) STORED", "ddl-generated-columns.html"));
    t.insert(keyword("GENERATED BY DEFAULT AS", "Identity-only prefix: GENERATED BY DEFAULT AS IDENTITY -- user can override; only valid with IDENTITY (not computed expressions).", "id int GENERATED BY DEFAULT AS IDENTITY", "sql-createtable.html"));
    t.insert(keyword("IDENTITY (", "AS IDENTITY ( <sequence_options> ) -- supply optional sequence parameters (INCREMENT/MINVALUE/MAXVALUE/CACHE/CYCLE).", "AS IDENTITY (INCREMENT 5 START 100 CACHE 20)", "sql-createtable.html"));
    t.insert(keyword("INHERITS", "CREATE TABLE child () INHERITS (<parent>[, ...]) -- multiple-inheritance table; rows of children visible from parent unless ONLY is used.", "CREATE TABLE cars () INHERITS (vehicles);", "ddl-inherit.html"));
    t.insert(keyword("CREATE TABLE OF", "CREATE TABLE <name> OF <composite_type> -- typed table whose columns mirror the composite type.", "CREATE TABLE my_t OF address_t;", "sql-createtable.html"));
    t.insert(keyword("OF TYPE", "Generic spelling of `OF <composite_type>` -- table inherits its column shape from a composite type.", "CREATE TABLE t OF address_t (PRIMARY KEY (id));", "sql-createtable.html"));
    t.insert(keyword("NOT OF", "ALTER TABLE <name> NOT OF -- detach a typed table from its composite type (PG13+).", "ALTER TABLE my_t NOT OF;", "sql-altertable.html"));
    t.insert(keyword("OPERATOR CLASS", "CREATE INDEX ix ON t USING gin (<col> <opclass>) -- choose the operator class explicitly; needed for non-default ops (e.g. jsonb_path_ops, gin_trgm_ops).", "CREATE INDEX ix_doc ON docs USING gin (data jsonb_path_ops);", "sql-createopclass.html"));
    t.insert(keyword("jsonb_path_ops", "GIN opclass for jsonb that indexes only path -> value pairs. Faster + smaller than jsonb_ops but loses the `?` `?|` `?&` ops.", "USING gin (data jsonb_path_ops)", "datatype-json.html#JSON-INDEXING"));
    t.insert(keyword("jsonb_ops", "Default GIN opclass for jsonb -- supports `@>`, `?`, `?|`, `?&` and key/value path operators.", "USING gin (data jsonb_ops)", "datatype-json.html#JSON-INDEXING"));
    t.insert(keyword("gin_trgm_ops", "pg_trgm GIN opclass -- enables `%`, `<%`, `<<%` similarity ops + LIKE/ILIKE acceleration.", "CREATE INDEX ON users USING gin (name gin_trgm_ops);", "pgtrgm.html#PGTRGM-INDEX"));
    t.insert(keyword("gist_trgm_ops", "pg_trgm GiST opclass -- KNN-friendly variant (supports `<->`).", "CREATE INDEX ON users USING gist (name gist_trgm_ops);", "pgtrgm.html#PGTRGM-INDEX"));
    t.insert(keyword("text_pattern_ops", "BTREE opclass that compares strictly byte-by-byte, ignoring the column's collation -- needed for LIKE 'foo%' to use a btree index under a non-C collation.", "CREATE INDEX ON t (name text_pattern_ops);", "indexes-opclass.html"));
    t.insert(keyword("varchar_pattern_ops", "Like text_pattern_ops but for varchar.", "CREATE INDEX ON t (code varchar_pattern_ops);", "indexes-opclass.html"));
    t.insert(keyword("bpchar_pattern_ops", "Like text_pattern_ops but for char(n) / bpchar.", "CREATE INDEX ON t (code bpchar_pattern_ops);", "indexes-opclass.html"));
    t.insert(keyword("INDEX INCLUDE", "INDEX ON t (<keys>) INCLUDE (<extras>) -- extras are not part of uniqueness but are stored in the leaf, enabling more index-only scans.", "CREATE UNIQUE INDEX ON t (id) INCLUDE (name, updated_at);", "sql-createindex.html"));
    t.insert(keyword("fillfactor", "Storage reloption: leave free space in each page for HOT updates (heap) or splits (btree). Default 100 (heap) / 90 (btree).", "ALTER TABLE t SET (fillfactor = 80);", "sql-createtable.html#SQL-CREATETABLE-STORAGE-PARAMETERS"));
    t.insert(keyword("autovacuum_enabled", "Storage reloption: per-table override for autovacuum.", "ALTER TABLE big SET (autovacuum_enabled = false);", "sql-createtable.html#SQL-CREATETABLE-STORAGE-PARAMETERS"));
    t.insert(keyword("autovacuum_vacuum_threshold", "Per-table autovacuum threshold (rows). Lower for hotter tables.", "ALTER TABLE t SET (autovacuum_vacuum_threshold = 1000);", "sql-createtable.html#SQL-CREATETABLE-STORAGE-PARAMETERS"));
    t.insert(keyword("autovacuum_vacuum_scale_factor", "Per-table autovacuum scale factor.", "ALTER TABLE t SET (autovacuum_vacuum_scale_factor = 0.05);", "sql-createtable.html#SQL-CREATETABLE-STORAGE-PARAMETERS"));
    t.insert(keyword("autovacuum_analyze_threshold", "Per-table autoanalyze threshold (rows).", "ALTER TABLE t SET (autovacuum_analyze_threshold = 500);", "sql-createtable.html#SQL-CREATETABLE-STORAGE-PARAMETERS"));
    t.insert(keyword("autovacuum_analyze_scale_factor", "Per-table autoanalyze scale factor.", "ALTER TABLE t SET (autovacuum_analyze_scale_factor = 0.02);", "sql-createtable.html#SQL-CREATETABLE-STORAGE-PARAMETERS"));
    t.insert(keyword("autovacuum_vacuum_cost_delay", "Per-table autovacuum cost delay (ms).", "ALTER TABLE t SET (autovacuum_vacuum_cost_delay = 5);", "sql-createtable.html#SQL-CREATETABLE-STORAGE-PARAMETERS"));
    t.insert(keyword("autovacuum_vacuum_insert_threshold", "Per-table threshold for insert-only autovacuum (PG13+).", "ALTER TABLE log SET (autovacuum_vacuum_insert_threshold = 10000);", "sql-createtable.html#SQL-CREATETABLE-STORAGE-PARAMETERS"));
    t.insert(keyword("parallel_workers", "Per-table cap on parallel workers used for sequential scans.", "ALTER TABLE big SET (parallel_workers = 4);", "sql-createtable.html#SQL-CREATETABLE-STORAGE-PARAMETERS"));
    t.insert(keyword("user_catalog_table", "Mark a regular table as a 'catalog' for logical decoding -- INSERT/UPDATE/DELETE still emit WAL even on the standby. Extensions use this.", "ALTER TABLE meta SET (user_catalog_table = true);", "sql-createtable.html#SQL-CREATETABLE-STORAGE-PARAMETERS"));
    t.insert(keyword("deduplicate_items", "BTree-only reloption (PG13+): enable leaf-page dedup.", "ALTER INDEX ix SET (deduplicate_items = on);", "sql-createindex.html#SQL-CREATEINDEX-STORAGE-PARAMETERS"));
    t.insert(keyword("toast.autovacuum_enabled", "Per-table TOAST autovacuum toggle.", "ALTER TABLE t SET (toast.autovacuum_enabled = true);", "sql-createtable.html#SQL-CREATETABLE-STORAGE-PARAMETERS"));
    t.insert(keyword("toast.autovacuum_vacuum_threshold", "Per-table TOAST autovacuum threshold (rows).", "ALTER TABLE t SET (toast.autovacuum_vacuum_threshold = 50000);", "sql-createtable.html#SQL-CREATETABLE-STORAGE-PARAMETERS"));
    t.insert(keyword("toast_tuple_target", "Per-table reloption: target inline TOAST tuple size before TOAST-out kicks in (default 2032 bytes).", "ALTER TABLE wide SET (toast_tuple_target = 4080);", "sql-createtable.html#SQL-CREATETABLE-STORAGE-PARAMETERS"));
    t.insert(keyword("NOT ENFORCED", "PG18+ constraint modifier: declare the constraint but skip runtime checks. Useful for hand-validated data or replication scenarios.", "ALTER TABLE t ADD CHECK (qty > 0) NOT ENFORCED;", "sql-altertable.html"));
    t.insert(keyword("ENFORCED", "Default for constraints: rows must satisfy the predicate. Counterpart of NOT ENFORCED.", "ALTER TABLE t ALTER CONSTRAINT positive ENFORCED;", "sql-altertable.html"));
    t.insert(keyword("pg_truncate_visibility_map", "pg_truncate_visibility_map(regclass) -> void -- discard the VM file for a relation; forces a re-build at next VACUUM. PG13+.", "SELECT pg_truncate_visibility_map('users'::regclass);", "functions-admin.html#FUNCTIONS-ADMIN-INDEX-TABLE"));
    t.insert(keyword("SECURITY LABEL FOR", "SECURITY LABEL FOR <provider> ON <obj> IS '<label>' -- attach a label managed by a specific label provider (selinux/anon/...).", "SECURITY LABEL FOR selinux ON TABLE secret IS 'system_u:object_r:sepgsql_table_t:s0';", "sql-security-label.html"));
}

fn part_9(t: &mut Table)
    requires
        old(t).wf(),
        old(t).table_kind() == Kind::Keyword,
    ensures
        final(t).wf(),
        final(t).table_kind() == Kind::Keyword,
        final(t).contents() == keyword_part_9(old(t).contents()),
{
    t.insert(keyword("LABEL FOR", "Trailing portion of SECURITY LABEL: ... FOR <provider> -- pick which loaded label provider stores the label.", "SECURITY LABEL FOR selinux ON ...", "sql-security-label.html"));
    t.insert(keyword("EVENT TRIGGER WHEN", "CREATE EVENT TRIGGER <name> ON <event> WHEN TAG IN ('<tag>', ...) EXECUTE FUNCTION <fn>() -- restrict to specific command tags.", "CREATE EVENT TRIGGER t ON ddl_command_start WHEN TAG IN ('CREATE TABLE') EXECUTE FUNCTION fn();", "sql-createeventtrigger.html"));
    t.insert(keyword("WHEN TAG IN", "Event-trigger filter: WHEN TAG IN ('CREATE TABLE', 'CREATE INDEX', ...) -- match by command-tag string.", "WHEN TAG IN ('CREATE TABLE', 'CREATE INDEX')", "sql-createeventtrigger.html"));
    t.insert(keyword("EVENT TRIGGER LOGIN", "PG17+ event-trigger event: fires once when a user logs in. Trigger fn cannot reject the login but can audit / configure session.", "CREATE EVENT TRIGGER t ON login EXECUTE FUNCTION audit_login();", "event-trigger-overview.html"));
    t.insert(keyword("COMMENT ON LARGE OBJECT", "COMMENT ON LARGE OBJECT <oid> IS '<text>' -- attach a comment to a large object by oid.", "COMMENT ON LARGE OBJECT 12345 IS 'invoice scan';", "sql-comment.html"));
    t.insert(keyword("COMMENT ON SUBSCRIPTION", "COMMENT ON SUBSCRIPTION <name> IS '<text>'.", "COMMENT ON SUBSCRIPTION sub IS 'primary -> reporting';", "sql-comment.html"));
    t.insert(keyword("COMMENT ON PUBLICATION", "COMMENT ON PUBLICATION <name> IS '<text>'.", "COMMENT ON PUBLICATION pub IS 'tables for read replica';", "sql-comment.html"));
    t.insert(keyword("COMMENT ON EVENT TRIGGER", "COMMENT ON EVENT TRIGGER <name> IS '<text>'.", "COMMENT ON EVENT TRIGGER audit_ddl IS 'logs every DDL';", "sql-comment.html"));
    t.insert(keyword("COMMENT ON ACCESS METHOD", "COMMENT ON ACCESS METHOD <name> IS '<text>'.", "COMMENT ON ACCESS METHOD bloom IS 'lossy filter index';", "sql-comment.html"));
    t.insert(keyword("COMMENT ON FOREIGN TABLE", "COMMENT ON FOREIGN TABLE <name> IS '<text>'.", "COMMENT ON FOREIGN TABLE remote_users IS 'pulled from upstream';", "sql-comment.html"));
    t.insert(keyword("COMMENT ON FOREIGN DATA WRAPPER", "COMMENT ON FOREIGN DATA WRAPPER <name> IS '<text>'.", "COMMENT ON FOREIGN DATA WRAPPER postgres_fdw IS 'cross-cluster federation';", "sql-comment.html"));
    t.insert(keyword("COMMENT ON SERVER", "COMMENT ON SERVER <name> IS '<text>'.", "COMMENT ON SERVER reporting_pg IS 'BI replica';", "sql-comment.html"));
    t.insert(keyword("COMMENT ON USER MAPPING", "COMMENT ON USER MAPPING FOR <role> SERVER <name> IS '<text>'.", "COMMENT ON USER MAPPING FOR app_user SERVER reporting_pg IS 'read-only';", "sql-comment.html"));
    t.insert(keyword("COMMENT ON COLLATION", "COMMENT ON COLLATION <name> IS '<text>'.", "COMMENT ON COLLATION fr IS 'French locale';", "sql-comment.html"));
    t.insert(keyword("COMMENT ON CONVERSION", "COMMENT ON CONVERSION <name> IS '<text>'.", "COMMENT ON CONVERSION utf8_to_latin1 IS '';", "sql-comment.html"));
    t.insert(keyword("COMMENT ON STATISTICS", "COMMENT ON STATISTICS <name> IS '<text>'.", "COMMENT ON STATISTICS stat_zip IS 'multi-col selectivity';", "sql-comment.html"));
    t.insert(keyword("LISTEN channel", "LISTEN <channel> -- subscribe to NOTIFY messages for <channel>; valid identifiers only, no quoting.", "LISTEN order_events;", "sql-listen.html"));
    t.insert(keyword("NOTIFY channel", "NOTIFY <channel> [, '<payload>'] -- send an asynchronous message; payload is text (1 KB cap by default).", "NOTIFY order_events, 'shipped:42';", "sql-notify.html"));
    t.insert(keyword("UNLISTEN ALL", "UNLISTEN * -- cancel all this session's LISTEN subscriptions.", "UNLISTEN *;", "sql-unlisten.html"));
    t.insert(keyword("VALID UNTIL", "CREATE/ALTER ROLE ... VALID UNTIL '<timestamptz>' -- password expiration.", "ALTER ROLE bob VALID UNTIL '2026-12-31';", "sql-createrole.html"));
    t.insert(keyword("CONNECTION LIMIT", "CREATE/ALTER ROLE ... CONNECTION LIMIT <n> -- cap concurrent sessions per role (-1 = unlimited, default).", "ALTER ROLE bob CONNECTION LIMIT 5;", "sql-createrole.html"));
    t.insert(keyword("ENCRYPTED PASSWORD", "CREATE/ALTER ROLE ... ENCRYPTED PASSWORD '<plaintext>' -- SCRAM-hash on the way in (default behavior).", "CREATE ROLE bob LOGIN ENCRYPTED PASSWORD 'secret';", "sql-createrole.html"));
    t.insert(keyword("UNENCRYPTED", "CREATE/ALTER ROLE ... UNENCRYPTED PASSWORD '...' -- deprecated; PG13+ rejects this form.", "-- avoid: ALTER ROLE bob UNENCRYPTED PASSWORD '...'", "sql-createrole.html"));
    t.insert(keyword("INHERIT ROLE", "CREATE/ALTER ROLE ... INHERIT -- automatically gain privileges of granted roles (default).", "ALTER ROLE bob INHERIT;", "sql-createrole.html"));
    t.insert(keyword("NOINHERIT", "CREATE/ALTER ROLE ... NOINHERIT -- require explicit SET ROLE to use granted role's privileges.", "ALTER ROLE app NOINHERIT;", "sql-createrole.html"));
    t.insert(keyword("IN ROLE", "CREATE ROLE ... IN ROLE <existing>[, ...] -- add the new role as a member of these.", "CREATE ROLE alice LOGIN IN ROLE app_users;", "sql-createrole.html"));
    t.insert(keyword("IN GROUP", "Legacy synonym of IN ROLE.", "CREATE ROLE alice LOGIN IN GROUP app_users;", "sql-createrole.html"));
    t.insert(keyword("ROLE ADMIN", "CREATE ROLE ... ROLE <other> ADMIN <admin_role> -- grant ADMIN OPTION on memberships.", "CREATE ROLE alice ROLE app_users ADMIN app_admin;", "sql-createrole.html"));
    t.insert(keyword("SYSID", "Legacy SYSID <oid> -- accepted but ignored. PG assigns its own oid.", "CREATE ROLE alice SYSID 12345;", "sql-createrole.html"));
    t.insert(keyword("HOLD WITHOUT", "DECLARE <c> CURSOR HOLD WITHOUT HOLD -- not legal; HOLD or WITHOUT HOLD pick one.", "DECLARE c CURSOR WITHOUT HOLD FOR SELECT 1;", "sql-declare.html"));
    t.insert(keyword("TIMETZ", "Postgres-internal name for TIME WITH TIME ZONE.", "open_at TIMETZ", "datatype-datetime.html"));
    t.insert(keyword("TIMESTAMPTZ", "Postgres-internal name for TIMESTAMP WITH TIME ZONE (8-byte, recommended over TIMESTAMP for absolute moments).", "ts TIMESTAMPTZ NOT NULL", "datatype-datetime.html"));
    t.insert(keyword("ALTER DEFAULT PRIVILEGES", "ALTER DEFAULT PRIVILEGES [FOR ROLE <r>] [IN SCHEMA <s>] {GRANT|REVOKE} <priv> ON <class> TO <role>; -- pre-set privileges for future objects.", "ALTER DEFAULT PRIVILEGES FOR ROLE app IN SCHEMA public GRANT SELECT ON TABLES TO ro;", "sql-alterdefaultprivileges.html"));
    t.insert(keyword("DEFAULT PRIVILEGES FOR ROLE", "ALTER DEFAULT PRIVILEGES FOR ROLE <r> ... -- only apply when <r> creates objects.", "ALTER DEFAULT PRIVILEGES FOR ROLE app IN SCHEMA public GRANT SELECT ON TABLES TO ro;", "sql-alterdefaultprivileges.html"));
    t.insert(keyword("DEFAULT PRIVILEGES IN SCHEMA", "ALTER DEFAULT PRIVILEGES IN SCHEMA <s> ... -- scope to schema instead of every DB schema.", "ALTER DEFAULT PRIVILEGES IN SCHEMA app GRANT SELECT ON TABLES TO ro;", "sql-alterdefaultprivileges.html"));
    t.insert(keyword("ON TABLES", "ALTER DEFAULT PRIVILEGES ... GRANT/REVOKE ... ON TABLES -- future tables + views + matviews.", "ON TABLES TO ro_role", "sql-alterdefaultprivileges.html"));
    t.insert(keyword("ON SEQUENCES", "ALTER DEFAULT PRIVILEGES ... ON SEQUENCES -- future sequences.", "ON SEQUENCES TO svc_role", "sql-alterdefaultprivileges.html"));
    t.insert(keyword("ON FUNCTIONS", "ALTER DEFAULT PRIVILEGES ... ON FUNCTIONS -- future fns (covers procs too).", "ON FUNCTIONS TO svc_role", "sql-alterdefaultprivileges.html"));
    t.insert(keyword("ON ROUTINES", "ALTER DEFAULT PRIVILEGES ... ON ROUTINES -- PG11+ umbrella for fns + procs.", "ON ROUTINES TO svc_role", "sql-alterdefaultprivileges.html"));
    t.insert(keyword("ON TYPES", "ALTER DEFAULT PRIVILEGES ... ON TYPES -- future user-defined types.", "ON TYPES TO devs", "sql-alterdefaultprivileges.html"));
    t.insert(keyword("ON SCHEMAS", "ALTER DEFAULT PRIVILEGES ... ON SCHEMAS -- future schemas (PG10+).", "ON SCHEMAS TO devs", "sql-alterdefaultprivileges.html"));
    t.insert(keyword("COMMENT ON TABLESPACE", "COMMENT ON TABLESPACE <name> IS '<text>'.", "COMMENT ON TABLESPACE fastdisk IS 'NVMe pool';", "sql-comment.html"));
    t.insert(keyword("COMMENT ON ROUTINE", "COMMENT ON ROUTINE <name>(args) IS '<text>' -- works for both fns AND procs (PG11+).", "COMMENT ON ROUTINE up() IS 'startup';", "sql-comment.html"));
    t.insert(keyword("COMMENT ON OPERATOR", "COMMENT ON OPERATOR <op>(left_type, right_type) IS '<text>'.", "COMMENT ON OPERATOR ===(int, int) IS 'strict equality';", "sql-comment.html"));
    t.insert(keyword("COMMENT ON OPERATOR CLASS", "COMMENT ON OPERATOR CLASS <name> USING <am> IS '<text>'.", "COMMENT ON OPERATOR CLASS oc USING btree IS '';", "sql-comment.html"));
    t.insert(keyword("COMMENT ON OPERATOR FAMILY", "COMMENT ON OPERATOR FAMILY <name> USING <am> IS '<text>'.", "COMMENT ON OPERATOR FAMILY of USING btree IS '';", "sql-comment.html"));
    t.insert(keyword("COMMENT ON AGGREGATE", "COMMENT ON AGGREGATE <name>(args) IS '<text>'.", "COMMENT ON AGGREGATE my_sum(int) IS 'sum impl';", "sql-comment.html"));
    t.insert(keyword("COMMENT ON RULE", "COMMENT ON RULE <name> ON <table> IS '<text>'.", "COMMENT ON RULE r ON t IS 'redirect insert';", "sql-comment.html"));
    t.insert(keyword("COMMENT ON CAST", "COMMENT ON CAST (<src_type> AS <tgt_type>) IS '<text>'.", "COMMENT ON CAST (text AS int) IS 'implicit';", "sql-comment.html"));
    t.insert(keyword("COMMENT ON TEXT SEARCH CONFIGURATION", "COMMENT ON TEXT SEARCH CONFIGURATION <name> IS '<text>'.", "COMMENT ON TEXT SEARCH CONFIGURATION en IS 'english';", "sql-comment.html"));
    t.insert(keyword("COMMENT ON TEXT SEARCH DICTIONARY", "COMMENT ON TEXT SEARCH DICTIONARY <name> IS '<text>'.", "COMMENT ON TEXT SEARCH DICTIONARY english_stem IS 'snowball';", "sql-comment.html"));
    t.insert(keyword("COMMENT ON TEXT SEARCH PARSER", "COMMENT ON TEXT SEARCH PARSER <name> IS '<text>'.", "COMMENT ON TEXT SEARCH PARSER my_parser IS '';", "sql-comment.html"));
    t.insert(keyword("COMMENT ON TEXT SEARCH TEMPLATE", "COMMENT ON TEXT SEARCH TEMPLATE <name> IS '<text>'.", "COMMENT ON TEXT SEARCH TEMPLATE my_tmpl IS '';", "sql-comment.html"));
    t.insert(keyword("COMMENT ON TRANSFORM", "COMMENT ON TRANSFORM FOR <type> LANGUAGE <lang> IS '<text>'.", "COMMENT ON TRANSFORM FOR hstore LANGUAGE plperl IS 'hstore<->perl hash';", "sql-comment.html"));
    t.insert(keyword("SET LOCAL ROLE", "SET LOCAL ROLE <role> -- transaction-scoped role switch (reverts at COMMIT/ROLLBACK).", "BEGIN; SET LOCAL ROLE readonly; SELECT 1; COMMIT;", "sql-set-role.html"));
    t.insert(keyword("SET SESSION ROLE", "SET SESSION ROLE <role> -- session-scoped role switch (default for SET ROLE without LOCAL/SESSION).", "SET SESSION ROLE app_user;", "sql-set-role.html"));
    t.insert(keyword("SET ROLE NONE", "SET ROLE NONE -- shortcut for RESET ROLE; revert to the session's outer role.", "SET ROLE NONE;", "sql-set-role.html"));
    t.insert(keyword("RESET SESSION AUTHORIZATION", "RESET SESSION AUTHORIZATION -- revert masquerade back to the connection's authenticated role.", "RESET SESSION AUTHORIZATION;", "sql-reset.html"));
    t.insert(keyword("SET SESSION AUTHORIZATION DEFAULT", "SET SESSION AUTHORIZATION DEFAULT -- equivalent to RESET SESSION AUTHORIZATION.", "SET SESSION AUTHORIZATION DEFAULT;", "sql-set-session-authorization.html"));
    t.insert(keyword("SKIP LOCKED", "SELECT ... FOR UPDATE/SHARE SKIP LOCKED -- skip rows held by another tx instead of blocking; ideal for worker queues.", "SELECT id FROM jobs WHERE done = false FOR UPDATE SKIP LOCKED LIMIT 1;", "sql-select.html#SQL-FOR-UPDATE-SHARE"));
    t.insert(keyword("FOR UPDATE OF", "SELECT ... FOR UPDATE OF <alias>[, ...] -- lock only the named rels (when JOIN'd).", "SELECT * FROM users u JOIN orders o ON u.id = o.user_id FOR UPDATE OF u;", "sql-select.html"));
    t.insert(keyword("FOR NO KEY UPDATE", "SELECT ... FOR NO KEY UPDATE -- weaker than FOR UPDATE; doesn't block parallel FK checks.", "SELECT * FROM users WHERE id = 1 FOR NO KEY UPDATE;", "sql-select.html"));
    t.insert(keyword("FOR KEY SHARE", "SELECT ... FOR KEY SHARE -- weakest row lock; blocks deletes but not non-key updates. Used by FK checks.", "SELECT id FROM users WHERE id = 1 FOR KEY SHARE;", "sql-select.html"));
    t.insert(keyword("pg_advisory_lock", "pg_advisory_lock(key bigint) / pg_advisory_lock(key1 int, key2 int) -> void -- session-level advisory lock; blocks until acquired.", "SELECT pg_advisory_lock(42);", "functions-admin.html#FUNCTIONS-ADVISORY-LOCKS"));
    t.insert(keyword("pg_try_advisory_lock", "pg_try_advisory_lock(...) -> boolean -- non-blocking variant; returns false if held by another session.", "SELECT pg_try_advisory_lock(42);", "functions-admin.html#FUNCTIONS-ADVISORY-LOCKS"));
    t.insert(keyword("pg_advisory_xact_lock", "pg_advisory_xact_lock(...) -> void -- transaction-scoped (auto-releases at COMMIT/ROLLBACK).", "BEGIN; SELECT pg_advisory_xact_lock(42); -- ... COMMIT;", "functions-admin.html#FUNCTIONS-ADVISORY-LOCKS"));
    t.insert(keyword("pg_try_advisory_xact_lock", "Non-blocking + xact-scoped advisory lock.", "SELECT pg_try_advisory_xact_lock(42);", "functions-admin.html#FUNCTIONS-ADVISORY-LOCKS"));
    t.insert(keyword("pg_advisory_lock_shared", "Shared (read) variant; multiple sessions can hold concurrently.", "SELECT pg_advisory_lock_shared(42);", "functions-admin.html#FUNCTIONS-ADVISORY-LOCKS"));
    t.insert(keyword("pg_try_advisory_lock_shared", "Non-blocking shared advisory lock.", "SELECT pg_try_advisory_lock_shared(42);", "functions-admin.html#FUNCTIONS-ADVISORY-LOCKS"));
    t.insert(keyword("pg_advisory_xact_lock_shared", "Shared + xact-scoped advisory lock.", "BEGIN; SELECT pg_advisory_xact_lock_shared(42); COMMIT;", "functions-admin.html#FUNCTIONS-ADVISORY-LOCKS"));
    t.insert(keyword("pg_advisory_unlock", "pg_advisory_unlock(key bigint) -> boolean -- release one session-level lock. Returns false if not held.", "SELECT pg_advisory_unlock(42);", "functions-admin.html#FUNCTIONS-ADVISORY-LOCKS"));
    t.insert(keyword("pg_advisory_unlock_all", "pg_advisory_unlock_all() -> void -- release every session-level advisory lock at once.", "SELECT pg_advisory_unlock_all();", "functions-admin.html#FUNCTIONS-ADVISORY-LOCKS"));
    t.insert(keyword("pg_advisory_unlock_shared", "Release a shared session-level lock.", "SELECT pg_advisory_unlock_shared(42);", "functions-admin.html#FUNCTIONS-ADVISORY-LOCKS"));
    t.insert(keyword("LISTEN identifier rules", "LISTEN <channel> -- channel must be a SQL identifier (alphanumeric + `_`, case-folded unless quoted). Max length matches identifier limit (typically 63 bytes).", "LISTEN order_events;", "sql-listen.html"));
    t.insert(keyword("NOTIFY identifier rules", "NOTIFY <channel> [, '<payload>'] -- channel same rules as LISTEN. Payload is text <= 8000 bytes (NAMEDATALEN-1).", "NOTIFY order_events, 'shipped:42';", "sql-notify.html"));
}

fn part_10(t: &mut Table)
    requires
        old(t).wf(),
        old(t).table_kind() == Kind::Keyword,
    ensures
        final(t).wf(),
        final(t).table_kind() == Kind::Keyword,
        final(t).contents() == keyword_part_10(old(t).contents()),
{
    t.insert(keyword("RETURN QUERY", "PL/pgSQL RETURN QUERY <select_stmt> -- append the SELECT's rows to a set-returning function's result set.", "RETURN QUERY SELECT * FROM users WHERE active;", "plpgsql-control-structures.html#PLPGSQL-STATEMENTS-RETURNING"));
    t.insert(keyword("RETURN NEXT", "PL/pgSQL RETURN NEXT <expr> -- append one row to a set-returning function's result.", "FOR r IN SELECT * FROM users LOOP RETURN NEXT r; END LOOP;", "plpgsql-control-structures.html#PLPGSQL-STATEMENTS-RETURNING"));
    t.insert(keyword("RETURN QUERY EXECUTE", "PL/pgSQL RETURN QUERY EXECUTE <text> [USING <params>] -- append a dynamic SQL query's result.", "RETURN QUERY EXECUTE 'SELECT * FROM ' || quote_ident(t) USING id;", "plpgsql-control-structures.html#PLPGSQL-STATEMENTS-RETURNING"));
    t.insert(keyword("FOREACH IN SLICE", "PL/pgSQL FOREACH <var> SLICE <n> IN ARRAY <arr> LOOP -- iterate by sub-array slices (n>0 means n-dim slices).", "FOREACH row SLICE 1 IN ARRAY two_d_arr LOOP ... END LOOP;", "plpgsql-control-structures.html#PLPGSQL-FOREACH-ARRAY"));
    t.insert(keyword("OPEN FOR", "PL/pgSQL OPEN <cursor> FOR <select> -- bind a query to a refcursor variable.", "OPEN c FOR SELECT * FROM users WHERE id = uid;", "plpgsql-cursors.html#PLPGSQL-CURSOR-OPENING"));
    t.insert(keyword("OPEN FOR EXECUTE", "PL/pgSQL OPEN <cursor> FOR EXECUTE <sql_text> [USING <params>] -- bind dynamic SQL to a refcursor.", "OPEN c FOR EXECUTE 'SELECT * FROM ' || quote_ident(t);", "plpgsql-cursors.html#PLPGSQL-CURSOR-OPENING"));
    t.insert(keyword("REFCURSOR", "PL/pgSQL refcursor variable -- bind via OPEN, FETCH from later; pass between functions or to the client.", "DECLARE c refcursor; BEGIN OPEN c FOR SELECT 1; ...", "plpgsql-cursors.html"));
    t.insert(keyword("GENERATED COLUMN INHERITANCE", "Generated columns CANNOT be overridden by child tables in inheritance. Stored expressions are recomputed per row.", "-- VIRTUAL re-evaluates per read; STORED writes once at INSERT/UPDATE", "ddl-generated-columns.html"));
    t.insert(keyword("ALWAYS AS GENERATED", "Misnomer alias seen in some DBs -- in PG the correct order is `GENERATED ALWAYS AS (<expr>) {STORED|VIRTUAL}`.", "GENERATED ALWAYS AS (a*2) STORED", "ddl-generated-columns.html"));
    t.insert(keyword("ACCESS SHARE", "LOCK TABLE t IN ACCESS SHARE MODE -- weakest mode; only conflicts with ACCESS EXCLUSIVE. Acquired by every SELECT.", "LOCK TABLE t IN ACCESS SHARE MODE;", "explicit-locking.html#LOCKING-TABLES"));
    t.insert(keyword("ROW SHARE", "LOCK TABLE t IN ROW SHARE MODE -- acquired by SELECT FOR UPDATE / FOR SHARE.", "LOCK TABLE t IN ROW SHARE MODE;", "explicit-locking.html#LOCKING-TABLES"));
    t.insert(keyword("ROW EXCLUSIVE", "LOCK TABLE t IN ROW EXCLUSIVE MODE -- acquired by INSERT/UPDATE/DELETE/MERGE.", "LOCK TABLE t IN ROW EXCLUSIVE MODE;", "explicit-locking.html#LOCKING-TABLES"));
    t.insert(keyword("SHARE UPDATE EXCLUSIVE", "LOCK TABLE t IN SHARE UPDATE EXCLUSIVE MODE -- VACUUM/ANALYZE/CREATE INDEX CONCURRENTLY/ALTER TABLE VALIDATE.", "LOCK TABLE t IN SHARE UPDATE EXCLUSIVE MODE;", "explicit-locking.html#LOCKING-TABLES"));
    t.insert(keyword("SHARE ROW EXCLUSIVE", "LOCK TABLE t IN SHARE ROW EXCLUSIVE MODE -- blocks concurrent writers AND blocks SHARE-mode readers from acquiring it.", "LOCK TABLE t IN SHARE ROW EXCLUSIVE MODE;", "explicit-locking.html#LOCKING-TABLES"));
    t.insert(keyword("ACCESS EXCLUSIVE", "LOCK TABLE t IN ACCESS EXCLUSIVE MODE -- strongest; conflicts with every other mode. Acquired by ALTER/DROP/TRUNCATE/REINDEX (non-concurrent), VACUUM FULL, CLUSTER.", "LOCK TABLE t IN ACCESS EXCLUSIVE MODE;", "explicit-locking.html#LOCKING-TABLES"));
    t.insert(keyword("LOCK TABLE IN", "LOCK TABLE <t> IN <mode> MODE [NOWAIT] -- acquire an explicit relation lock.", "LOCK TABLE big IN ACCESS EXCLUSIVE MODE NOWAIT;", "sql-lock.html"));
    t.insert(keyword("NOWAIT", "Lock acquisition modifier: don't block; raise 55P03 if the lock isn't immediately available.", "LOCK TABLE t IN ACCESS EXCLUSIVE MODE NOWAIT;", "sql-lock.html"));
    t.insert(keyword("READ COMMITTED", "Default PG isolation: each statement sees a fresh snapshot. No phantom protection across statements.", "BEGIN ISOLATION LEVEL READ COMMITTED;", "transaction-iso.html#XACT-READ-COMMITTED"));
    t.insert(keyword("REPEATABLE READ", "PG isolation: each transaction sees a single snapshot at start; rejects concurrent updates with 40001.", "BEGIN ISOLATION LEVEL REPEATABLE READ;", "transaction-iso.html#XACT-REPEATABLE-READ"));
    t.insert(keyword("READ UNCOMMITTED", "Accepted spelling, treated as READ COMMITTED in PG -- there are no dirty reads.", "BEGIN ISOLATION LEVEL READ UNCOMMITTED;", "transaction-iso.html"));
    t.insert(keyword("DEFERRABLE", "Transaction mode: DEFERRABLE -- valid only with ISOLATION LEVEL SERIALIZABLE READ ONLY; the txn may wait at start instead of failing with 40001.", "BEGIN ISOLATION LEVEL SERIALIZABLE READ ONLY DEFERRABLE;", "sql-set-transaction.html"));
    t.insert(keyword("ONLY_DATABASE_STATS", "VACUUM (ONLY_DATABASE_STATS) -- skip the per-relation pass and only refresh per-DB stats (PG17+).", "VACUUM (ONLY_DATABASE_STATS);", "sql-vacuum.html"));
    t.insert(keyword("SKIP_DATABASE_STATS", "VACUUM (SKIP_DATABASE_STATS) -- skip the per-DB stats refresh (PG17+); useful from cron loops.", "VACUUM (SKIP_DATABASE_STATS);", "sql-vacuum.html"));
    t.insert(keyword("INDEX_CLEANUP", "VACUUM (INDEX_CLEANUP { AUTO | ON | OFF }) -- override index cleanup heuristic.", "VACUUM (INDEX_CLEANUP off) big;", "sql-vacuum.html"));
    t.insert(keyword("DISABLE_PAGE_SKIPPING", "VACUUM (DISABLE_PAGE_SKIPPING) -- visit every page even when the visibility map says skip.", "VACUUM (DISABLE_PAGE_SKIPPING) t;", "sql-vacuum.html"));
    t.insert(keyword("NO SCROLL", "DECLARE <c> NO SCROLL CURSOR ... -- forbid backwards / random fetches; planner can pick streaming-only plans.", "DECLARE c NO SCROLL CURSOR FOR SELECT id FROM big;", "sql-declare.html"));
    t.insert(keyword("WITHOUT HOLD", "DECLARE <c> CURSOR WITHOUT HOLD -- closes at COMMIT (default).", "DECLARE c CURSOR WITHOUT HOLD FOR SELECT 1;", "sql-declare.html"));
    t.insert(keyword("BINARY CURSOR", "DECLARE <c> BINARY CURSOR ... -- returns rows in PG binary wire format; faster for protocol clients that decode it.", "DECLARE c BINARY CURSOR FOR SELECT 1;", "sql-declare.html"));
    t.insert(keyword("DECLARE BINARY", "Prefix used in `DECLARE <c> BINARY CURSOR FOR ...`.", "DECLARE c BINARY CURSOR FOR SELECT id FROM t;", "sql-declare.html"));
    t.insert(keyword("FETCH FORWARD", "FETCH FORWARD [<n> | ALL] FROM <c> -- read forwards (default direction).", "FETCH FORWARD 100 FROM c;", "sql-fetch.html"));
    t.insert(keyword("FETCH BACKWARD", "FETCH BACKWARD [<n> | ALL] FROM <c> -- read backwards; requires a SCROLL cursor.", "FETCH BACKWARD 50 FROM c;", "sql-fetch.html"));
    t.insert(keyword("FETCH ABSOLUTE", "FETCH ABSOLUTE <n> FROM <c> -- position the cursor at row <n> (1-based; negative counts from end). SCROLL only.", "FETCH ABSOLUTE 1 FROM c;", "sql-fetch.html"));
    t.insert(keyword("FETCH RELATIVE", "FETCH RELATIVE <n> FROM <c> -- move <n> rows from current. SCROLL only.", "FETCH RELATIVE -3 FROM c;", "sql-fetch.html"));
    t.insert(keyword("FETCH FIRST FROM", "FETCH FIRST FROM <c> -- position at the first row and fetch it.", "FETCH FIRST FROM c;", "sql-fetch.html"));
    t.insert(keyword("FETCH LAST FROM", "FETCH LAST FROM <c> -- position at the last row and fetch it.", "FETCH LAST FROM c;", "sql-fetch.html"));
    t.insert(keyword("FETCH PRIOR", "FETCH PRIOR FROM <c> -- move one row back and return it.", "FETCH PRIOR FROM c;", "sql-fetch.html"));
    t.insert(keyword("FETCH ALL", "FETCH ALL FROM <c> -- return every remaining row.", "FETCH ALL FROM c;", "sql-fetch.html"));
    t.insert(keyword("MOVE FORWARD", "MOVE FORWARD [<n> | ALL] IN <c> -- advance without returning rows.", "MOVE FORWARD 100 IN c;", "sql-move.html"));
    t.insert(keyword("MOVE BACKWARD", "MOVE BACKWARD [<n> | ALL] IN <c> -- step back without returning rows. SCROLL only.", "MOVE BACKWARD 10 IN c;", "sql-move.html"));
    t.insert(keyword("MOVE ABSOLUTE", "MOVE ABSOLUTE <n> IN <c> -- seek to row <n> without returning.", "MOVE ABSOLUTE 0 IN c;", "sql-move.html"));
    t.insert(keyword("MOVE RELATIVE", "MOVE RELATIVE <n> IN <c> -- seek <n> rows from current without returning.", "MOVE RELATIVE 5 IN c;", "sql-move.html"));
    t.insert(keyword("MOVE FIRST", "MOVE FIRST IN <c> -- seek to the first row.", "MOVE FIRST IN c;", "sql-move.html"));
    t.insert(keyword("MOVE LAST", "MOVE LAST IN <c> -- seek past the last row.", "MOVE LAST IN c;", "sql-move.html"));
    t.insert(keyword("MOVE NEXT", "MOVE NEXT IN <c> -- step forward one row.", "MOVE NEXT IN c;", "sql-move.html"));
    t.insert(keyword("MOVE PRIOR", "MOVE PRIOR IN <c> -- step backward one row.", "MOVE PRIOR IN c;", "sql-move.html"));
    t.insert(keyword("MOVE ALL", "MOVE ALL IN <c> -- seek to one past the last row (equivalent to MOVE FORWARD ALL).", "MOVE ALL IN c;", "sql-move.html"));
    t.insert(keyword("COPY FROM STDIN", "COPY <t> [(cols)] FROM STDIN [WITH (...)] -- stream client data into the table.", "COPY users (id, email) FROM STDIN WITH (FORMAT csv, HEADER);", "sql-copy.html"));
    t.insert(keyword("COPY TO STDOUT", "COPY <t-or-query> TO STDOUT [WITH (...)] -- stream rows out to the client.", "COPY (SELECT id FROM users) TO STDOUT;", "sql-copy.html"));
    t.insert(keyword("COPY FROM PROGRAM", "COPY <t> FROM PROGRAM '<shell>' [WITH (...)] -- pipe a shell command's stdout. Super-user only (security risk).", "COPY users FROM PROGRAM 'gunzip -c /tmp/users.csv.gz' WITH (FORMAT csv);", "sql-copy.html"));
    t.insert(keyword("COPY TO PROGRAM", "COPY <t-or-query> TO PROGRAM '<shell>' [WITH (...)] -- pipe rows to a shell command. Super-user only.", "COPY (SELECT id FROM users) TO PROGRAM 'gzip > /tmp/ids.gz';", "sql-copy.html"));
    t.insert(keyword("\\d", "psql meta-command (not server SQL): describe an object. Variants: \\dt (tables), \\di (indexes), \\dv (views), \\df (functions), \\dn (schemas), \\du (roles), \\l (databases), \\dx (extensions).", "\\dt+ public.*", "app-psql.html"));
    t.insert(keyword("\\copy", "psql meta-command (client-side COPY) -- does NOT need superuser; reads/writes a file local to the psql process.", "\\copy users (id, email) FROM 'users.csv' WITH (FORMAT csv, HEADER);", "app-psql.html"));
    t.insert(keyword("FOREACH", "PL/pgSQL FOREACH <var> [SLICE <n>] IN ARRAY <arr> LOOP ... END LOOP -- iterate over array elements (or sub-slices).", "FOREACH x IN ARRAY ids LOOP RAISE NOTICE '%', x; END LOOP;", "plpgsql-control-structures.html#PLPGSQL-FOREACH-ARRAY"));
    t.insert(keyword("EXIT WHEN", "PL/pgSQL EXIT WHEN <pred> -- break out of the innermost loop when pred is true.", "EXIT WHEN cnt > 100;", "plpgsql-control-structures.html#PLPGSQL-CONTROL-STRUCTURES-LOOPS"));
    t.insert(keyword("EXIT LOOP", "PL/pgSQL EXIT [<label>] -- break out of a labelled or innermost loop.", "<<outer>> LOOP EXIT outer; END LOOP outer;", "plpgsql-control-structures.html#PLPGSQL-CONTROL-STRUCTURES-LOOPS"));
    t.insert(keyword("CONTINUE WHEN", "PL/pgSQL CONTINUE WHEN <pred> -- skip to next iteration when pred is true.", "CONTINUE WHEN id IS NULL;", "plpgsql-control-structures.html#PLPGSQL-CONTROL-STRUCTURES-LOOPS"));
    t.insert(keyword("CONTINUE LOOP", "PL/pgSQL CONTINUE [<label>] -- jump to next iteration of a labelled or innermost loop.", "CONTINUE outer;", "plpgsql-control-structures.html#PLPGSQL-CONTROL-STRUCTURES-LOOPS"));
    t.insert(keyword("ASSERT", "PL/pgSQL ASSERT <pred> [, <msg>] -- raise an assertion-failure exception if pred is false. Honoured only when plpgsql.check_asserts = on.", "ASSERT cnt >= 0, 'cnt must be non-negative';", "plpgsql-errors-and-messages.html#PLPGSQL-STATEMENTS-ASSERT"));
    t.insert(keyword("GET DIAGNOSTICS", "PL/pgSQL GET [CURRENT] DIAGNOSTICS <var> = ROW_COUNT, <var> = PG_CONTEXT, ... -- pull stats about the last command.", "GET DIAGNOSTICS n = ROW_COUNT;", "plpgsql-statements.html#PLPGSQL-STATEMENTS-DIAGNOSTICS"));
    t.insert(keyword("GET STACKED DIAGNOSTICS", "PL/pgSQL GET STACKED DIAGNOSTICS <var> = MESSAGE_TEXT, ... -- read fields from the active exception (only inside an EXCEPTION block).", "GET STACKED DIAGNOSTICS msg = MESSAGE_TEXT;", "plpgsql-control-structures.html#PLPGSQL-EXCEPTION-DIAGNOSTICS"));
    t.insert(keyword("EXCEPTION WHEN", "PL/pgSQL block EXCEPTION WHEN <condition> [OR <c>...] THEN ... -- catch matching SQLSTATE / named errors.", "EXCEPTION WHEN unique_violation THEN RAISE NOTICE 'dup'; END;", "plpgsql-control-structures.html#PLPGSQL-ERROR-TRAPPING"));
    t.insert(keyword("WHEN OTHERS", "PL/pgSQL exception handler that matches any non-already-matched error. Use sparingly -- masks programmer errors.", "EXCEPTION WHEN OTHERS THEN RAISE; END;", "plpgsql-control-structures.html#PLPGSQL-ERROR-TRAPPING"));
    t.insert(keyword("RAISE USING", "PL/pgSQL RAISE [level] '<msg>' USING ERRCODE = '<state>', DETAIL = '...', HINT = '...', ... -- attach structured exception fields.", "RAISE EXCEPTION 'bad row %', id USING ERRCODE = 'P0001', HINT = 'reload config';", "plpgsql-errors-and-messages.html"));
    t.insert(keyword("PERFORM", "PL/pgSQL PERFORM <query> -- run a query and discard its result; required when a SELECT is used for side effects only.", "PERFORM pg_notify('chan', 'hi');", "plpgsql-statements.html#PLPGSQL-STATEMENTS-SQL-NORESULT"));
    t.insert(keyword("SAVEPOINT", "SAVEPOINT <name> -- mark a sub-transaction point; later commands can be undone with ROLLBACK TO SAVEPOINT <name>.", "SAVEPOINT before_risk; -- ... -- ROLLBACK TO SAVEPOINT before_risk;", "sql-savepoint.html"));
    t.insert(keyword("PREPARE TRANSACTION", "PREPARE TRANSACTION '<gid>' -- 2PC step 1: persist the transaction so it can be committed/rolled back by gid later. Requires max_prepared_transactions > 0.", "PREPARE TRANSACTION 'tx-42';", "sql-prepare-transaction.html"));
    t.insert(keyword("COMMIT PREPARED", "COMMIT PREPARED '<gid>' -- 2PC step 2: commit a previously PREPARE'd transaction.", "COMMIT PREPARED 'tx-42';", "sql-commit-prepared.html"));
    t.insert(keyword("ROLLBACK PREPARED", "ROLLBACK PREPARED '<gid>' -- 2PC abort: discard a previously PREPARE'd transaction without committing.", "ROLLBACK PREPARED 'tx-42';", "sql-rollback-prepared.html"));
    t.insert(keyword("LOOP", "PL/pgSQL LOOP ... END LOOP -- unconditional loop; exit with EXIT [WHEN <pred>].", "LOOP EXIT WHEN cnt = 0; cnt := cnt - 1; END LOOP;", "plpgsql-control-structures.html#PLPGSQL-CONTROL-STRUCTURES-LOOPS"));
    t.insert(keyword("WHILE LOOP", "PL/pgSQL WHILE <pred> LOOP ... END LOOP.", "WHILE cnt > 0 LOOP cnt := cnt - 1; END LOOP;", "plpgsql-control-structures.html#PLPGSQL-CONTROL-STRUCTURES-LOOPS"));
    t.insert(keyword("FOR IN REVERSE", "PL/pgSQL FOR <var> IN REVERSE <lo>..<hi> LOOP ... END LOOP -- iterate in descending order.", "FOR i IN REVERSE 10..1 LOOP ... END LOOP;", "plpgsql-control-structures.html#PLPGSQL-INTEGER-FOR"));
    t.insert(keyword("FOR IN", "PL/pgSQL FOR <var> IN <query> LOOP ... END LOOP -- iterate over a query result; <var> is a record / row variable.", "FOR r IN SELECT * FROM t LOOP RAISE NOTICE '%', r.id; END LOOP;", "plpgsql-control-structures.html#PLPGSQL-RECORDS-ITERATING"));
    t.insert(keyword("unique_violation", "SQLSTATE 23505 -- raised when a UNIQUE or PRIMARY KEY constraint is violated. Catch in PL/pgSQL: `EXCEPTION WHEN unique_violation THEN ...`.", "EXCEPTION WHEN unique_violation THEN ...", "errcodes-appendix.html"));
    t.insert(keyword("foreign_key_violation", "SQLSTATE 23503 -- raised when a FOREIGN KEY constraint is violated (parent row missing / dependent row exists).", "EXCEPTION WHEN foreign_key_violation THEN ...", "errcodes-appendix.html"));
    t.insert(keyword("not_null_violation", "SQLSTATE 23502 -- raised when a NOT NULL column gets NULL.", "EXCEPTION WHEN not_null_violation THEN ...", "errcodes-appendix.html"));
}

fn part_11(t: &mut Table)
    requires
        old(t).wf(),
        old(t).table_kind() == Kind::Keyword,
    ensures
        final(t).wf(),
        final(t).table_kind() == Kind::Keyword,
        final(t).contents() == keyword_part_11(old(t).contents()),
{
    t.insert(keyword("check_violation", "SQLSTATE 23514 -- raised when a CHECK constraint fails.", "EXCEPTION WHEN check_violation THEN ...", "errcodes-appendix.html"));
    t.insert(keyword("exclusion_violation", "SQLSTATE 23P01 -- raised when an EXCLUDE constraint matches.", "EXCEPTION WHEN exclusion_violation THEN ...", "errcodes-appendix.html"));
    t.insert(keyword("restrict_violation", "SQLSTATE 23001 -- raised by RESTRICT actions in foreign-key delete/update.", "EXCEPTION WHEN restrict_violation THEN ...", "errcodes-appendix.html"));
    t.insert(keyword("integrity_constraint_violation", "SQLSTATE 23000 -- generic parent for all 23xxx integrity violations; catches every named child.", "EXCEPTION WHEN integrity_constraint_violation THEN ...", "errcodes-appendix.html"));
    t.insert(keyword("deadlock_detected", "SQLSTATE 40P01 -- raised when the deadlock detector aborts this txn.", "EXCEPTION WHEN deadlock_detected THEN ...", "errcodes-appendix.html"));
    t.insert(keyword("serialization_failure", "SQLSTATE 40001 -- SSI/REPEATABLE READ conflict. Always retry from the application.", "EXCEPTION WHEN serialization_failure THEN ...", "errcodes-appendix.html"));
    t.insert(keyword("lock_not_available", "SQLSTATE 55P03 -- raised when NOWAIT couldn't acquire a lock.", "EXCEPTION WHEN lock_not_available THEN ...", "errcodes-appendix.html"));
    t.insert(keyword("no_data_found", "SQLSTATE P0002 -- raised by SELECT INTO STRICT when no row matches.", "EXCEPTION WHEN no_data_found THEN ...", "errcodes-appendix.html"));
    t.insert(keyword("too_many_rows", "SQLSTATE P0003 -- raised by SELECT INTO STRICT when more than one row matches.", "EXCEPTION WHEN too_many_rows THEN ...", "errcodes-appendix.html"));
    t.insert(keyword("query_canceled", "SQLSTATE 57014 -- raised when the query is cancelled (statement_timeout, pg_cancel_backend, client interrupt).", "EXCEPTION WHEN query_canceled THEN ...", "errcodes-appendix.html"));
    t.insert(keyword("admin_shutdown", "SQLSTATE 57P01 -- raised when the cluster shuts down while the session is connected.", "EXCEPTION WHEN admin_shutdown THEN ...", "errcodes-appendix.html"));
    t.insert(keyword("idle_in_transaction_session_timeout", "SQLSTATE 25P03 -- raised when idle_in_transaction_session_timeout fires.", "EXCEPTION WHEN idle_in_transaction_session_timeout THEN ...", "errcodes-appendix.html"));
    t.insert(keyword("invalid_text_representation", "SQLSTATE 22P02 -- value couldn't be parsed for its target type (e.g. 'abc' for int).", "EXCEPTION WHEN invalid_text_representation THEN ...", "errcodes-appendix.html"));
    t.insert(keyword("division_by_zero", "SQLSTATE 22012 -- arithmetic division by zero.", "EXCEPTION WHEN division_by_zero THEN ...", "errcodes-appendix.html"));
    t.insert(keyword("numeric_value_out_of_range", "SQLSTATE 22003 -- value won't fit the target numeric type (overflow).", "EXCEPTION WHEN numeric_value_out_of_range THEN ...", "errcodes-appendix.html"));
    t.insert(keyword("string_data_right_truncation", "SQLSTATE 22001 -- VARCHAR(n) / CHAR(n) overflow.", "EXCEPTION WHEN string_data_right_truncation THEN ...", "errcodes-appendix.html"));
    t.insert(keyword("invalid_authorization_specification", "SQLSTATE 28000 -- generic auth failure (wrong role/password).", "EXCEPTION WHEN invalid_authorization_specification THEN ...", "errcodes-appendix.html"));
    t.insert(keyword("insufficient_privilege", "SQLSTATE 42501 -- the role lacks the required privilege.", "EXCEPTION WHEN insufficient_privilege THEN ...", "errcodes-appendix.html"));
    t.insert(keyword("undefined_table", "SQLSTATE 42P01 -- table or view does not exist.", "EXCEPTION WHEN undefined_table THEN ...", "errcodes-appendix.html"));
    t.insert(keyword("undefined_column", "SQLSTATE 42703 -- referenced column does not exist.", "EXCEPTION WHEN undefined_column THEN ...", "errcodes-appendix.html"));
    t.insert(keyword("undefined_function", "SQLSTATE 42883 -- function with the given signature does not exist.", "EXCEPTION WHEN undefined_function THEN ...", "errcodes-appendix.html"));
    t.insert(keyword("duplicate_table", "SQLSTATE 42P07 -- CREATE TABLE / SELECT INTO target already exists.", "EXCEPTION WHEN duplicate_table THEN ...", "errcodes-appendix.html"));
    t.insert(keyword("connection_failure", "SQLSTATE 08006 -- generic connection-related error.", "EXCEPTION WHEN connection_failure THEN ...", "errcodes-appendix.html"));
    t.insert(keyword("disk_full", "SQLSTATE 53100 -- out of disk space.", "EXCEPTION WHEN disk_full THEN ...", "errcodes-appendix.html"));
    t.insert(keyword("data_exception", "SQLSTATE 22000 -- generic parent for 22xxx data-format errors.", "EXCEPTION WHEN data_exception THEN ...", "errcodes-appendix.html"));
    t.insert(keyword("syntax_error", "SQLSTATE 42601 -- generic SQL syntax error (rarely caught -- usually the goal is to never see it).", "EXCEPTION WHEN syntax_error THEN ...", "errcodes-appendix.html"));
    t.insert(keyword("plpgsql_error", "SQLSTATE P0001 -- raised by `RAISE` with no explicit ERRCODE; the default class for user RAISE.", "EXCEPTION WHEN plpgsql_error THEN ...", "errcodes-appendix.html"));
    t.insert(keyword("raise_exception", "SQLSTATE P0001 alias used by some clients -- same as plpgsql_error class.", "EXCEPTION WHEN raise_exception THEN ...", "errcodes-appendix.html"));
    t.insert(keyword("SQLSTATE", "PL/pgSQL EXCEPTION WHEN SQLSTATE '<5-char>' THEN ... -- match a raw SQLSTATE instead of a named condition.", "EXCEPTION WHEN SQLSTATE '40001' THEN PERFORM pg_sleep(0.1);", "plpgsql-control-structures.html#PLPGSQL-ERROR-TRAPPING"));
    t.insert(keyword("NULLS NOT DISTINCT", "NULLS NOT DISTINCT -- UNIQUE / index option treating NULLs as equal (PG15+).", "CREATE UNIQUE INDEX ... NULLS NOT DISTINCT", "sql-createindex.html"));
    t.insert(keyword("DEFAULTS", "INCLUDING DEFAULTS / EXCLUDING DEFAULTS -- LIKE table option.", "CREATE TABLE c (LIKE p INCLUDING DEFAULTS);", "sql-createtable.html"));
    t.insert(keyword("INCLUDING", "INCLUDING { ALL | DEFAULTS | CONSTRAINTS | INDEXES | STORAGE | COMMENTS | COMPRESSION | STATISTICS | IDENTITY | GENERATED } -- LIKE inheritance.", "LIKE parent INCLUDING ALL", "sql-createtable.html"));
    t.insert(keyword("EXCLUDING", "EXCLUDING { DEFAULTS | CONSTRAINTS | INDEXES | STORAGE | COMMENTS | COMPRESSION | STATISTICS | IDENTITY | GENERATED } -- LIKE inheritance.", "LIKE parent EXCLUDING INDEXES", "sql-createtable.html"));
    t.insert(keyword("ON_ERROR", "COPY (... ON_ERROR { STOP | IGNORE }) -- per-row error handling (PG17+).", "COPY t FROM 'p.csv' (ON_ERROR IGNORE);", "sql-copy.html"));
    t.insert(keyword("LOG_VERBOSITY", "COPY (... LOG_VERBOSITY { DEFAULT | VERBOSE }) -- error log detail (PG17+).", "COPY t FROM 'p.csv' (LOG_VERBOSITY VERBOSE);", "sql-copy.html"));
    t.insert(keyword("BUFFER_USAGE_LIMIT", "VACUUM/ANALYZE BUFFER_USAGE_LIMIT '<size>' (PG16+).", "VACUUM (BUFFER_USAGE_LIMIT '64 MB') t;", "sql-vacuum.html"));
    t.insert(keyword("PROCESS_TOAST", "VACUUM PROCESS_TOAST {true|false} (PG14+).", "VACUUM (PROCESS_TOAST false) t;", "sql-vacuum.html"));
    t.insert(keyword("PROCESS_MAIN", "VACUUM PROCESS_MAIN {true|false} (PG16+).", "VACUUM (PROCESS_MAIN false) t;", "sql-vacuum.html"));
    t.insert(keyword("DISTINCT FROM", "DISTINCT FROM <expr> -- NULL-aware inequality predicate.", "WHERE a IS DISTINCT FROM b", "functions-comparison.html"));
    t.insert(keyword("IS DISTINCT FROM", "<a> IS DISTINCT FROM <b> -- true when a != b, treating NULL as a value.", "WHERE old.x IS DISTINCT FROM new.x", "functions-comparison.html"));
    t.insert(keyword("IS NOT DISTINCT FROM", "<a> IS NOT DISTINCT FROM <b> -- NULL-aware equality.", "WHERE OLD.x IS NOT DISTINCT FROM NEW.x", "functions-comparison.html"));
    t.insert(keyword("GENERATED ALWAYS", "GENERATED ALWAYS AS (<expr>) STORED -- computed column.", "amount_cents int GENERATED ALWAYS AS (amount * 100) STORED", "ddl-generated-columns.html"));
    t.insert(keyword("GENERATED BY DEFAULT", "GENERATED BY DEFAULT AS IDENTITY -- identity column, user value allowed.", "id int GENERATED BY DEFAULT AS IDENTITY PRIMARY KEY", "sql-createtable.html"));
    t.insert(keyword("OVERRIDING SYSTEM VALUE", "INSERT ... OVERRIDING SYSTEM VALUE -- replace identity column value.", "INSERT INTO t OVERRIDING SYSTEM VALUE VALUES (...);", "sql-insert.html"));
    t.insert(keyword("OVERRIDING USER VALUE", "INSERT ... OVERRIDING USER VALUE -- accept user value for identity.", "INSERT INTO t OVERRIDING USER VALUE VALUES (...);", "sql-insert.html"));
    t.insert(keyword("ON UPDATE", "FK ON UPDATE { NO ACTION | CASCADE | SET NULL | SET DEFAULT | RESTRICT }.", "REFERENCES users(id) ON UPDATE CASCADE", "sql-createtable.html"));
    t.insert(keyword("ON DELETE", "FK ON DELETE { NO ACTION | CASCADE | SET NULL | SET DEFAULT | RESTRICT }.", "REFERENCES users(id) ON DELETE SET NULL", "sql-createtable.html"));
    t.insert(keyword("FORCE NOT NULL", "COPY ... FORCE NOT NULL (cols) -- treat empty as text, not NULL.", "COPY t FROM '...' CSV FORCE NOT NULL (col1, col2);", "sql-copy.html"));
    t.insert(keyword("FORCE QUOTE", "COPY ... FORCE QUOTE { * | (cols) } -- always quote these columns.", "COPY t TO '...' CSV FORCE QUOTE *;", "sql-copy.html"));
    t.insert(keyword("WITHIN GROUP", "WITHIN GROUP (ORDER BY <key>) -- ordered-set aggregates (e.g. percentile_cont).", "SELECT percentile_cont(0.5) WITHIN GROUP (ORDER BY salary) FROM emp;", "functions-aggregate.html#FUNCTIONS-ORDEREDSET-TABLE"));
    t.insert(keyword("DROP DEFAULT", "ALTER COLUMN ... DROP DEFAULT -- remove a column's default expression.", "ALTER TABLE t ALTER COLUMN c DROP DEFAULT;", "sql-altertable.html"));
    t.insert(keyword("ADD COLUMN", "ALTER TABLE ... ADD COLUMN <name> <type> [constraints].", "ALTER TABLE t ADD COLUMN email text NOT NULL;", "sql-altertable.html"));
    t.insert(keyword("DROP COLUMN", "ALTER TABLE ... DROP COLUMN <name> [CASCADE|RESTRICT].", "ALTER TABLE t DROP COLUMN deleted_at;", "sql-altertable.html"));
    t.insert(keyword("RENAME COLUMN", "ALTER TABLE ... RENAME COLUMN <old> TO <new>.", "ALTER TABLE t RENAME COLUMN c TO created_at;", "sql-altertable.html"));
    t.insert(keyword("RENAME TO", "ALTER <object> ... RENAME TO <new_name> -- works on tables, indexes, sequences, views, schemas, roles, etc.", "ALTER TABLE users RENAME TO accounts;", "sql-altertable.html"));
    t.insert(keyword("ALTER COLUMN", "ALTER TABLE ... ALTER COLUMN <name> { TYPE ... | SET DEFAULT ... | DROP DEFAULT | SET NOT NULL | DROP NOT NULL | SET STATISTICS ... | SET STORAGE ... | RESET (...) }.", "ALTER TABLE t ALTER COLUMN c TYPE text USING c::text;", "sql-altertable.html"));
    t.insert(keyword("SET TABLESPACE", "ALTER TABLE/INDEX ... SET TABLESPACE <name> -- physical move.", "ALTER TABLE big SET TABLESPACE archive;", "sql-altertable.html"));
    t.insert(keyword("FOR EACH ROW", "CREATE TRIGGER ... FOR EACH ROW -- per-row firing.", "CREATE TRIGGER trg BEFORE UPDATE ON t FOR EACH ROW EXECUTE FUNCTION upd();", "sql-createtrigger.html"));
    t.insert(keyword("FOR EACH STATEMENT", "CREATE TRIGGER ... FOR EACH STATEMENT -- one fire per statement (default).", "CREATE TRIGGER trg AFTER TRUNCATE ON t FOR EACH STATEMENT EXECUTE FUNCTION log();", "sql-createtrigger.html"));
    t.insert(keyword("EXECUTE FUNCTION", "TRIGGER body: EXECUTE FUNCTION <fn>(<args>) -- preferred over EXECUTE PROCEDURE (PG11+).", "EXECUTE FUNCTION set_updated_at()", "sql-createtrigger.html"));
    t.insert(keyword("EXECUTE PROCEDURE", "TRIGGER body: EXECUTE PROCEDURE <fn>(<args>) -- legacy spelling.", "EXECUTE PROCEDURE set_updated_at()", "sql-createtrigger.html"));
    t.insert(keyword("NULLS DISTINCT", "UNIQUE / INDEX option: NULLS DISTINCT -- multiple NULLs do not conflict (default).", "CREATE UNIQUE INDEX ix ON t(col) NULLS DISTINCT;", "sql-createindex.html"));
    t.insert(keyword("FETCH FIRST", "SELECT ... FETCH FIRST <n> ROWS { ONLY | WITH TIES } -- SQL-standard limit.", "SELECT * FROM t ORDER BY id FETCH FIRST 10 ROWS ONLY;", "sql-select.html"));
    t.insert(keyword("FETCH NEXT", "Synonym of FETCH FIRST in SELECT.", "SELECT * FROM t ORDER BY id FETCH NEXT 10 ROWS ONLY;", "sql-select.html"));
    t.insert(keyword("NO INHERIT", "ALTER TABLE ... NO INHERIT <parent> -- remove inheritance link.", "ALTER TABLE child NO INHERIT parent;", "sql-altertable.html"));
    t.insert(keyword("ON COMMIT", "CREATE TEMP TABLE ... ON COMMIT { PRESERVE ROWS | DELETE ROWS | DROP } -- temp-table lifetime.", "CREATE TEMP TABLE staging (...) ON COMMIT DROP;", "sql-createtable.html"));
    t.insert(keyword("ROWS FROM", "FROM ROWS FROM (fn1(...), fn2(...)) -- multi-function FROM (PG9.4+).", "SELECT * FROM ROWS FROM (unnest(a), unnest(b));", "queries-table-expressions.html"));
    t.insert(keyword("WITH HOLD", "DECLARE ... CURSOR WITH HOLD -- cursor survives COMMIT.", "DECLARE c CURSOR WITH HOLD FOR SELECT 1;", "sql-declare.html"));
    t.insert(keyword("WITH GRANT OPTION", "GRANT ... TO <role> WITH GRANT OPTION -- grantee can re-grant.", "GRANT SELECT ON t TO alice WITH GRANT OPTION;", "sql-grant.html"));
    t.insert(keyword("WITH ADMIN OPTION", "GRANT <role> TO <member> WITH ADMIN OPTION -- can add other members.", "GRANT admins TO alice WITH ADMIN OPTION;", "sql-grant.html"));
    t.insert(keyword("TIME ZONE", "AT TIME ZONE <name> -- shift between zoned/unzoned timestamp.", "SELECT ts AT TIME ZONE 'UTC' AT TIME ZONE 'Europe/Berlin';", "functions-datetime.html"));
    t.insert(keyword("DEFAULT VALUES", "INSERT INTO t DEFAULT VALUES -- every column takes its default.", "INSERT INTO audit DEFAULT VALUES;", "sql-insert.html"));
    t.insert(keyword("WITH DATA", "CREATE TABLE AS ... WITH DATA / CREATE MATERIALIZED VIEW ... WITH DATA -- populate immediately (default).", "CREATE MATERIALIZED VIEW m AS SELECT 1 WITH DATA;", "sql-creatematerializedview.html"));
    t.insert(keyword("WITH NO DATA", "CREATE TABLE AS ... WITH NO DATA -- create empty, populate later.", "CREATE TABLE snap AS SELECT * FROM users WITH NO DATA;", "sql-createtableas.html"));
    t.insert(keyword("USING INDEX", "ADD CONSTRAINT ... USING INDEX <existing_index> -- back a PK/UNIQUE with an existing index.", "ALTER TABLE t ADD CONSTRAINT pk_t PRIMARY KEY USING INDEX ix_t_id;", "sql-altertable.html"));
}

fn part_12(t: &mut Table)
    requires
        old(t).wf(),
        old(t).table_kind() == Kind::Keyword,
    ensures
        final(t).wf(),
        final(t).table_kind() == Kind::Keyword,
        final(t).contents() == keyword_part_12(old(t).contents()),
{
    t.insert(keyword("USING INDEX TABLESPACE", "ADD CONSTRAINT ... USING INDEX TABLESPACE <space> -- create the backing index in a specific tablespace.", "ADD CONSTRAINT u UNIQUE (col) USING INDEX TABLESPACE archive", "sql-createtable.html"));
    t.insert(keyword("TABLES IN SCHEMA", "FOR / ADD / SET / DROP TABLES IN SCHEMA <name>[, ...] -- whole-schema publication target (PG15+).", "CREATE PUBLICATION p FOR TABLES IN SCHEMA public;", "sql-createpublication.html"));
    t.insert(keyword("ON DELETE CASCADE", "FK ON DELETE CASCADE -- delete child rows when parent goes.", "REFERENCES users(id) ON DELETE CASCADE", "ddl-constraints.html#DDL-CONSTRAINTS-FK"));
    t.insert(keyword("ON DELETE SET NULL", "FK ON DELETE SET NULL -- null the child's FK column.", "REFERENCES users(id) ON DELETE SET NULL", "ddl-constraints.html#DDL-CONSTRAINTS-FK"));
    t.insert(keyword("ON DELETE SET DEFAULT", "FK ON DELETE SET DEFAULT -- set the FK column to its DEFAULT.", "REFERENCES users(id) ON DELETE SET DEFAULT", "ddl-constraints.html"));
    t.insert(keyword("ON DELETE RESTRICT", "FK ON DELETE RESTRICT -- refuse the parent delete (immediate).", "REFERENCES users(id) ON DELETE RESTRICT", "ddl-constraints.html"));
    t.insert(keyword("ON DELETE NO ACTION", "FK ON DELETE NO ACTION -- refuse at constraint check time (default).", "REFERENCES users(id) ON DELETE NO ACTION", "ddl-constraints.html"));
    t.insert(keyword("ON UPDATE CASCADE", "FK ON UPDATE CASCADE -- propagate PK updates to child rows.", "REFERENCES users(id) ON UPDATE CASCADE", "ddl-constraints.html"));
    t.insert(keyword("ON UPDATE SET NULL", "FK ON UPDATE SET NULL -- null the child column when parent PK changes.", "REFERENCES users(id) ON UPDATE SET NULL", "ddl-constraints.html"));
    t.insert(keyword("ON UPDATE RESTRICT", "FK ON UPDATE RESTRICT -- refuse the parent PK update.", "REFERENCES users(id) ON UPDATE RESTRICT", "ddl-constraints.html"));
    t.insert(keyword("ON UPDATE NO ACTION", "FK ON UPDATE NO ACTION -- refuse at check time (default).", "REFERENCES users(id) ON UPDATE NO ACTION", "ddl-constraints.html"));
    t.insert(keyword("RAISE EXCEPTION", "PL/pgSQL RAISE EXCEPTION 'msg' -- abort the transaction.", "RAISE EXCEPTION 'invalid: %', val;", "plpgsql-errors-and-messages.html"));
    t.insert(keyword("RAISE NOTICE", "PL/pgSQL RAISE NOTICE 'msg' -- log to client at NOTICE level.", "RAISE NOTICE 'rows: %', cnt;", "plpgsql-errors-and-messages.html"));
    t.insert(keyword("RAISE WARNING", "PL/pgSQL RAISE WARNING 'msg' -- log to client at WARNING level.", "RAISE WARNING 'deprecated path';", "plpgsql-errors-and-messages.html"));
    t.insert(keyword("RAISE INFO", "PL/pgSQL RAISE INFO 'msg' -- log to client at INFO level.", "RAISE INFO 'reached step 2';", "plpgsql-errors-and-messages.html"));
    t.insert(keyword("RAISE LOG", "PL/pgSQL RAISE LOG 'msg' -- write to server log only.", "RAISE LOG 'background task complete';", "plpgsql-errors-and-messages.html"));
    t.insert(keyword("RAISE DEBUG", "PL/pgSQL RAISE DEBUG 'msg' -- developer-visible diagnostic.", "RAISE DEBUG 'cache hit % / %', hit, total;", "plpgsql-errors-and-messages.html"));
    t.insert(keyword("MATCH FULL", "FK MATCH FULL -- all FK columns must be NULL or all not NULL.", "FOREIGN KEY (a, b) REFERENCES t(a, b) MATCH FULL", "sql-createtable.html"));
    t.insert(keyword("MATCH PARTIAL", "FK MATCH PARTIAL -- partial NULL allowed but other cols must match.", "MATCH PARTIAL", "sql-createtable.html"));
    t.insert(keyword("MATCH SIMPLE", "FK MATCH SIMPLE -- any FK column may be NULL (default).", "MATCH SIMPLE", "sql-createtable.html"));
    t.insert(keyword("REPLICA IDENTITY", "ALTER TABLE ... REPLICA IDENTITY { DEFAULT | FULL | NOTHING | USING INDEX <ix> }.", "ALTER TABLE t REPLICA IDENTITY FULL;", "sql-altertable.html"));
    t.insert(keyword("REPLICA IDENTITY FULL", "REPLICA IDENTITY FULL -- log every column on UPDATE/DELETE (heavy).", "ALTER TABLE t REPLICA IDENTITY FULL;", "sql-altertable.html"));
    t.insert(keyword("REPLICA IDENTITY NOTHING", "REPLICA IDENTITY NOTHING -- emit no old-tuple info (UPDATE/DELETE then carry only the new tuple).", "ALTER TABLE t REPLICA IDENTITY NOTHING;", "sql-altertable.html"));
    t.insert(keyword("REPLICA IDENTITY USING INDEX", "REPLICA IDENTITY USING INDEX <ix> -- use a NON-PK unique non-partial index.", "ALTER TABLE t REPLICA IDENTITY USING INDEX ux_email;", "sql-altertable.html"));
    t.insert(keyword("REPLICA IDENTITY DEFAULT", "REPLICA IDENTITY DEFAULT -- PK-based identity (default).", "ALTER TABLE t REPLICA IDENTITY DEFAULT;", "sql-altertable.html"));
    t.insert(keyword("CURRENT ROW", "WINDOW frame bound: CURRENT ROW -- include the current row only.", "RANGE BETWEEN UNBOUNDED PRECEDING AND CURRENT ROW", "sql-expressions.html#SYNTAX-WINDOW-FUNCTIONS"));
    t.insert(keyword("UNBOUNDED PRECEDING", "WINDOW frame bound: UNBOUNDED PRECEDING -- start of the partition.", "ROWS BETWEEN UNBOUNDED PRECEDING AND CURRENT ROW", "sql-expressions.html#SYNTAX-WINDOW-FUNCTIONS"));
    t.insert(keyword("UNBOUNDED FOLLOWING", "WINDOW frame bound: UNBOUNDED FOLLOWING -- end of the partition.", "ROWS BETWEEN CURRENT ROW AND UNBOUNDED FOLLOWING", "sql-expressions.html#SYNTAX-WINDOW-FUNCTIONS"));
    t.insert(keyword("EXCLUDE CURRENT ROW", "WINDOW frame exclusion: omit the current row from the frame.", "EXCLUDE CURRENT ROW", "sql-expressions.html#SYNTAX-WINDOW-FUNCTIONS"));
    t.insert(keyword("EXCLUDE GROUP", "WINDOW frame exclusion: omit the current row + peers.", "EXCLUDE GROUP", "sql-expressions.html#SYNTAX-WINDOW-FUNCTIONS"));
    t.insert(keyword("EXCLUDE TIES", "WINDOW frame exclusion: omit the peers (keep current row).", "EXCLUDE TIES", "sql-expressions.html#SYNTAX-WINDOW-FUNCTIONS"));
    t.insert(keyword("EXCLUDE NO OTHERS", "WINDOW frame exclusion: keep everything (default).", "EXCLUDE NO OTHERS", "sql-expressions.html#SYNTAX-WINDOW-FUNCTIONS"));
    t.insert(keyword("RANGE BETWEEN", "RANGE BETWEEN <a> AND <b> -- value-based frame.", "RANGE BETWEEN 1 PRECEDING AND CURRENT ROW", "sql-expressions.html#SYNTAX-WINDOW-FUNCTIONS"));
    t.insert(keyword("ROWS BETWEEN", "ROWS BETWEEN <a> AND <b> -- physical-offset frame.", "ROWS BETWEEN 3 PRECEDING AND CURRENT ROW", "sql-expressions.html#SYNTAX-WINDOW-FUNCTIONS"));
    t.insert(keyword("GROUPS BETWEEN", "GROUPS BETWEEN <a> AND <b> -- peer-group frame.", "GROUPS BETWEEN 1 PRECEDING AND CURRENT ROW", "sql-expressions.html#SYNTAX-WINDOW-FUNCTIONS"));
    t.insert(keyword("SELECT INTO", "PL/pgSQL `SELECT <cols> INTO <vars> FROM ...`.", "SELECT id INTO v_id FROM t WHERE ...;", "plpgsql-statements.html"));
    t.insert(keyword("INSTEAD OF", "CREATE TRIGGER ... INSTEAD OF <event> ON <view> -- DML on a view.", "CREATE TRIGGER trg INSTEAD OF INSERT ON v FOR EACH ROW EXECUTE FUNCTION ins();", "sql-createtrigger.html"));
    t.insert(keyword("BEFORE UPDATE", "CREATE TRIGGER ... BEFORE UPDATE ON <table>.", "CREATE TRIGGER trg BEFORE UPDATE ON users FOR EACH ROW EXECUTE FUNCTION upd();", "sql-createtrigger.html"));
    t.insert(keyword("AFTER INSERT", "CREATE TRIGGER ... AFTER INSERT ON <table>.", "CREATE TRIGGER trg AFTER INSERT ON users FOR EACH ROW EXECUTE FUNCTION post();", "sql-createtrigger.html"));
    t.insert(keyword("AFTER UPDATE", "CREATE TRIGGER ... AFTER UPDATE ON <table>.", "CREATE TRIGGER trg AFTER UPDATE ON users FOR EACH ROW EXECUTE FUNCTION post();", "sql-createtrigger.html"));
    t.insert(keyword("AFTER DELETE", "CREATE TRIGGER ... AFTER DELETE ON <table>.", "CREATE TRIGGER trg AFTER DELETE ON users FOR EACH ROW EXECUTE FUNCTION post();", "sql-createtrigger.html"));
    t.insert(keyword("BEFORE INSERT", "CREATE TRIGGER ... BEFORE INSERT ON <table>.", "CREATE TRIGGER trg BEFORE INSERT ON users FOR EACH ROW EXECUTE FUNCTION ins();", "sql-createtrigger.html"));
    t.insert(keyword("BEFORE DELETE", "CREATE TRIGGER ... BEFORE DELETE ON <table>.", "CREATE TRIGGER trg BEFORE DELETE ON users FOR EACH ROW EXECUTE FUNCTION del();", "sql-createtrigger.html"));
    t.insert(keyword("BEFORE TRUNCATE", "CREATE TRIGGER ... BEFORE TRUNCATE ON <table> (statement-level only).", "CREATE TRIGGER trg BEFORE TRUNCATE ON users FOR EACH STATEMENT EXECUTE FUNCTION before_trunc();", "sql-createtrigger.html"));
    t.insert(keyword("AFTER TRUNCATE", "CREATE TRIGGER ... AFTER TRUNCATE ON <table> (statement-level only).", "CREATE TRIGGER trg AFTER TRUNCATE ON users FOR EACH STATEMENT EXECUTE FUNCTION after_trunc();", "sql-createtrigger.html"));
    t.insert(keyword("DEFAULT PRIVILEGES", "ALTER DEFAULT PRIVILEGES [FOR ROLE <r>] [IN SCHEMA <s>] {GRANT|REVOKE} ... -- post-creation default ACLs.", "ALTER DEFAULT PRIVILEGES IN SCHEMA public GRANT SELECT ON TABLES TO readonly;", "sql-alterdefaultprivileges.html"));
    t.insert(keyword("SET CONSTRAINTS", "SET CONSTRAINTS { ALL | <name>[, ...] } { DEFERRED | IMMEDIATE } -- transaction-local constraint timing.", "SET CONSTRAINTS ALL DEFERRED;", "sql-set-constraints.html"));
    t.insert(keyword("SET ROLE", "SET [LOCAL | SESSION] ROLE <role> -- switch to another role's privileges.", "SET LOCAL ROLE readonly;", "sql-set-role.html"));
    t.insert(keyword("SET SESSION AUTHORIZATION", "SET SESSION AUTHORIZATION <role> -- masquerade as another role for the session (superuser only).", "SET SESSION AUTHORIZATION alice;", "sql-set-session-authorization.html"));
    t.insert(keyword("SET LOCAL", "SET LOCAL <param> = <value> -- transaction-scoped GUC change.", "SET LOCAL statement_timeout = '5s';", "sql-set.html"));
    t.insert(keyword("SET SESSION", "SET SESSION <param> = <value> -- session-scoped GUC change (default).", "SET SESSION work_mem = '64MB';", "sql-set.html"));
    t.insert(keyword("COMMIT AND CHAIN", "COMMIT AND CHAIN -- commit and immediately start a new transaction.", "COMMIT AND CHAIN;", "sql-commit.html"));
    t.insert(keyword("ROLLBACK AND CHAIN", "ROLLBACK AND CHAIN -- rollback and immediately start a new transaction.", "ROLLBACK AND CHAIN;", "sql-rollback.html"));
    t.insert(keyword("COMMIT AND NO CHAIN", "COMMIT AND NO CHAIN -- default; commit and stay outside a transaction.", "COMMIT AND NO CHAIN;", "sql-commit.html"));
    t.insert(keyword("ROLLBACK AND NO CHAIN", "ROLLBACK AND NO CHAIN -- default; rollback and stay outside a transaction.", "ROLLBACK AND NO CHAIN;", "sql-rollback.html"));
    t.insert(keyword("ROLLBACK TO SAVEPOINT", "ROLLBACK TO [SAVEPOINT] <name> -- undo back to a savepoint, keep the rest of the txn.", "ROLLBACK TO SAVEPOINT sp1;", "sql-rollback-to.html"));
    t.insert(keyword("RELEASE SAVEPOINT", "RELEASE [SAVEPOINT] <name> -- destroy a savepoint without rollback.", "RELEASE SAVEPOINT sp1;", "sql-release-savepoint.html"));
    t.insert(keyword("BEGIN TRANSACTION", "BEGIN TRANSACTION -- explicit SQL standard form of BEGIN.", "BEGIN TRANSACTION ISOLATION LEVEL REPEATABLE READ;", "sql-begin.html"));
    t.insert(keyword("START TRANSACTION", "START TRANSACTION -- SQL standard form of BEGIN.", "START TRANSACTION READ ONLY;", "sql-start-transaction.html"));
    t.insert(keyword("ISOLATION LEVEL", "ISOLATION LEVEL { READ UNCOMMITTED | READ COMMITTED | REPEATABLE READ | SERIALIZABLE }.", "BEGIN ISOLATION LEVEL SERIALIZABLE;", "transaction-iso.html"));
    t.insert(keyword("READ ONLY", "Transaction mode: READ ONLY -- forbid writes.", "BEGIN READ ONLY;", "sql-set-transaction.html"));
    t.insert(keyword("READ WRITE", "Transaction mode: READ WRITE (default).", "BEGIN READ WRITE;", "sql-set-transaction.html"));
    t.insert(keyword("ALL TABLES", "ALTER DEFAULT PRIVILEGES ... ON ALL TABLES / GRANT ... ON ALL TABLES IN SCHEMA -- bulk privilege target.", "GRANT SELECT ON ALL TABLES IN SCHEMA public TO readonly;", "sql-grant.html"));
    t.insert(keyword("ALL FUNCTIONS", "GRANT ... ON ALL FUNCTIONS IN SCHEMA <s> -- bulk privilege target.", "GRANT EXECUTE ON ALL FUNCTIONS IN SCHEMA public TO app;", "sql-grant.html"));
    t.insert(keyword("ALL PROCEDURES", "GRANT ... ON ALL PROCEDURES IN SCHEMA <s>.", "GRANT EXECUTE ON ALL PROCEDURES IN SCHEMA public TO app;", "sql-grant.html"));
    t.insert(keyword("ALL SEQUENCES", "GRANT ... ON ALL SEQUENCES IN SCHEMA <s>.", "GRANT USAGE ON ALL SEQUENCES IN SCHEMA public TO app;", "sql-grant.html"));
    t.insert(keyword("ALL ROUTINES", "GRANT ... ON ALL ROUTINES IN SCHEMA <s> -- both functions and procedures (PG11+).", "GRANT EXECUTE ON ALL ROUTINES IN SCHEMA public TO app;", "sql-grant.html"));
    t.insert(keyword("ALL TYPES", "GRANT ... ON ALL TYPES IN SCHEMA <s>.", "GRANT USAGE ON ALL TYPES IN SCHEMA public TO app;", "sql-grant.html"));
    t.insert(keyword("ALL TABLESPACES", "GRANT ... ON ALL TABLESPACES (only valid for CREATE).", "GRANT CREATE ON TABLESPACE archive TO writer;", "sql-grant.html"));
    t.insert(keyword("ALL SCHEMAS", "ALTER DEFAULT PRIVILEGES ... ON SCHEMAS -- privilege over future schemas.", "ALTER DEFAULT PRIVILEGES GRANT USAGE ON SCHEMAS TO readonly;", "sql-alterdefaultprivileges.html"));
    t.insert(keyword("LOGIN", "Role attribute: can authenticate.", "CREATE ROLE alice LOGIN PASSWORD '...';", "sql-createrole.html"));
    t.insert(keyword("NOLOGIN", "Role attribute: cannot authenticate (group role).", "CREATE ROLE admins NOLOGIN;", "sql-createrole.html"));
    t.insert(keyword("SUPERUSER", "Role attribute: bypass every permission check.", "CREATE ROLE root SUPERUSER;", "sql-createrole.html"));
    t.insert(keyword("NOSUPERUSER", "Role attribute: not a superuser (default).", "ALTER ROLE alice NOSUPERUSER;", "sql-createrole.html"));
    t.insert(keyword("CREATEDB", "Role attribute: may CREATE DATABASE.", "ALTER ROLE alice CREATEDB;", "sql-createrole.html"));
}

fn part_13(t: &mut Table)
    requires
        old(t).wf(),
        old(t).table_kind() == Kind::Keyword,
    ensures
        final(t).wf(),
        final(t).table_kind() == Kind::Keyword,
        final(t).contents() == keyword_part_13(old(t).contents()),
{
    t.insert(keyword("NOCREATEDB", "Role attribute: cannot CREATE DATABASE (default).", "ALTER ROLE alice NOCREATEDB;", "sql-createrole.html"));
    t.insert(keyword("CREATEROLE", "Role attribute: can create / manage other roles.", "ALTER ROLE alice CREATEROLE;", "sql-createrole.html"));
    t.insert(keyword("NOCREATEROLE", "Role attribute: cannot create other roles (default).", "ALTER ROLE alice NOCREATEROLE;", "sql-createrole.html"));
    t.insert(keyword("REPLICATION", "Role attribute: may initiate streaming replication.", "ALTER ROLE repl REPLICATION;", "sql-createrole.html"));
    t.insert(keyword("NOREPLICATION", "Role attribute: cannot initiate replication (default).", "ALTER ROLE repl NOREPLICATION;", "sql-createrole.html"));
    t.insert(keyword("BYPASSRLS", "Role attribute: bypass row-level security policies.", "ALTER ROLE alice BYPASSRLS;", "sql-createrole.html"));
    t.insert(keyword("NOBYPASSRLS", "Role attribute: subject to row-level security (default).", "ALTER ROLE alice NOBYPASSRLS;", "sql-createrole.html"));
    t.insert(keyword("DISCARD ALL", "DISCARD ALL -- session reset (drops temp tables, prepared stmts, plans, cursors, etc.).", "DISCARD ALL;", "sql-discard.html"));
    t.insert(keyword("DISCARD PLANS", "DISCARD PLANS -- forget cached query plans.", "DISCARD PLANS;", "sql-discard.html"));
    t.insert(keyword("DISCARD SEQUENCES", "DISCARD SEQUENCES -- forget session sequence state.", "DISCARD SEQUENCES;", "sql-discard.html"));
    t.insert(keyword("DISCARD TEMP", "DISCARD TEMP -- drop session-local temporary tables.", "DISCARD TEMP;", "sql-discard.html"));
    t.insert(keyword("DISCARD TEMPORARY", "DISCARD TEMPORARY -- same as DISCARD TEMP.", "DISCARD TEMPORARY;", "sql-discard.html"));
    t.insert(keyword("RESET ALL", "RESET ALL -- restore every session GUC to its default.", "RESET ALL;", "sql-reset.html"));
    t.insert(keyword("RESET ROLE", "RESET ROLE -- undo a SET ROLE.", "RESET ROLE;", "sql-reset.html"));
    t.insert(keyword("FILLFACTOR", "Storage parameter: leaf-page fill percentage (10-100). Lower leaves room for HOT updates.", "CREATE INDEX ... WITH (fillfactor = 80);", "sql-createindex.html#SQL-CREATEINDEX-STORAGE-PARAMETERS"));
    t.insert(keyword("FOREIGN DATA WRAPPER", "CREATE/ALTER/DROP FOREIGN DATA WRAPPER <name> -- FDW plugin.", "CREATE SERVER s FOREIGN DATA WRAPPER postgres_fdw OPTIONS (...);", "sql-createforeigndatawrapper.html"));
    t.insert(keyword("EVENT TRIGGER", "CREATE EVENT TRIGGER -- DDL-level trigger.", "CREATE EVENT TRIGGER trg ON ddl_command_end EXECUTE FUNCTION fn();", "sql-createeventtrigger.html"));
    t.insert(keyword("ACCESS METHOD", "CREATE/DROP ACCESS METHOD <name> TYPE INDEX HANDLER <fn>.", "CREATE ACCESS METHOD heap_v2 TYPE TABLE HANDLER heap_v2_handler;", "sql-create-access-method.html"));
    t.insert(keyword("USER MAPPING", "CREATE/DROP USER MAPPING FOR <role> SERVER <srv> OPTIONS (...).", "CREATE USER MAPPING FOR alice SERVER s OPTIONS (user 'a');", "sql-createusermapping.html"));
    t.insert(keyword("FOREIGN TABLE", "CREATE/DROP FOREIGN TABLE <name> SERVER <srv> -- FDW-backed relation.", "CREATE FOREIGN TABLE ext (...) SERVER s OPTIONS (table_name 'remote');", "sql-createforeigntable.html"));
    t.insert(keyword("TEXT SEARCH", "CREATE/DROP TEXT SEARCH { CONFIGURATION | DICTIONARY | PARSER | TEMPLATE }.", "CREATE TEXT SEARCH CONFIGURATION my (PARSER = default);", "sql-createtextsearchconfiguration.html"));
    t.insert(keyword("OWNED BY", "CREATE/ALTER SEQUENCE ... OWNED BY <tbl>.<col> | NONE -- tie sequence to a column.", "ALTER SEQUENCE s OWNED BY users.id;", "sql-altersequence.html"));
    t.insert(keyword("ROW LEVEL SECURITY", "ENABLE / DISABLE / FORCE / NO FORCE ROW LEVEL SECURITY.", "ALTER TABLE t ENABLE ROW LEVEL SECURITY;", "ddl-rowsecurity.html"));
    t.insert(keyword("SET STORAGE", "ALTER COLUMN ... SET STORAGE { PLAIN | EXTERNAL | EXTENDED | MAIN }.", "ALTER TABLE t ALTER COLUMN c SET STORAGE EXTERNAL;", "sql-altertable.html"));
    t.insert(keyword("SET STATISTICS", "ALTER COLUMN ... SET STATISTICS <n> -- per-column ANALYZE sample size.", "ALTER TABLE t ALTER COLUMN c SET STATISTICS 1000;", "sql-altertable.html"));
    t.insert(keyword("ADD GENERATED", "ALTER COLUMN ... ADD GENERATED { ALWAYS | BY DEFAULT } AS IDENTITY -- promote column to identity.", "ALTER TABLE t ALTER COLUMN id ADD GENERATED ALWAYS AS IDENTITY;", "sql-altertable.html"));
    t.insert(keyword("DROP IDENTITY", "ALTER COLUMN ... DROP IDENTITY [IF EXISTS] -- demote identity to plain column.", "ALTER TABLE t ALTER COLUMN id DROP IDENTITY;", "sql-altertable.html"));
    t.insert(keyword("RESTART IDENTITY", "TRUNCATE ... RESTART IDENTITY -- reset owned sequences.", "TRUNCATE t RESTART IDENTITY;", "sql-truncate.html"));
    t.insert(keyword("CONTINUE IDENTITY", "TRUNCATE ... CONTINUE IDENTITY -- keep current sequence values (default).", "TRUNCATE t CONTINUE IDENTITY;", "sql-truncate.html"));
    t.insert(keyword("AS IDENTITY", "<col> <type> GENERATED { ALWAYS | BY DEFAULT } AS IDENTITY.", "id int GENERATED ALWAYS AS IDENTITY PRIMARY KEY", "sql-createtable.html"));
    t.insert(keyword("BY IDENTITY", "ALTER COLUMN ... SET GENERATED { ALWAYS | BY DEFAULT } -- the BY token used in this clause.", "ALTER TABLE t ALTER COLUMN id SET GENERATED BY DEFAULT;", "sql-altertable.html"));
    t.insert(keyword("FROM CURRENT", "ALTER ROLE / DATABASE ... SET <param> FROM CURRENT -- snapshot current GUC value.", "ALTER ROLE alice SET work_mem FROM CURRENT;", "sql-alterrole.html"));
    t.insert(keyword("USING METHOD", "CREATE INDEX ... USING <method> -- pick the index access method.", "CREATE INDEX ix ON t USING gin (data);", "sql-createindex.html"));
    t.insert(keyword("RETURNS TABLE", "CREATE FUNCTION ... RETURNS TABLE(<col> <type>, ...) -- set-returning function with named columns.", "CREATE FUNCTION top_users() RETURNS TABLE(id int, score int) AS $$ ... $$ LANGUAGE sql;", "sql-createfunction.html"));
    t.insert(keyword("RETURNS TRIGGER", "CREATE FUNCTION ... RETURNS TRIGGER -- trigger function shape.", "CREATE FUNCTION upd() RETURNS TRIGGER AS $$ BEGIN RETURN NEW; END; $$ LANGUAGE plpgsql;", "sql-createfunction.html"));
    t.insert(keyword("RETURNS SETOF", "CREATE FUNCTION ... RETURNS SETOF <type> -- multi-row return.", "CREATE FUNCTION fives() RETURNS SETOF int AS $$ SELECT generate_series(1,5) $$ LANGUAGE sql;", "sql-createfunction.html"));
    t.insert(keyword("LANGUAGE SQL", "CREATE FUNCTION ... LANGUAGE SQL -- pure SQL function body.", "CREATE FUNCTION add(int, int) RETURNS int AS $$ SELECT $1 + $2 $$ LANGUAGE SQL;", "sql-createfunction.html"));
    t.insert(keyword("LANGUAGE PLPGSQL", "CREATE FUNCTION ... LANGUAGE plpgsql -- procedural Postgres body.", "CREATE FUNCTION up() RETURNS void AS $$ BEGIN ... END; $$ LANGUAGE plpgsql;", "sql-createfunction.html"));
    t.insert(keyword("RESTRICT VERSION", "CREATE EXTENSION ... RESTRICT VERSION '<v>' -- pin to a specific version (rare).", "CREATE EXTENSION my_ext WITH VERSION '1.2.3';", "sql-createextension.html"));
    t.insert(keyword("GLOBAL TEMPORARY", "CREATE GLOBAL TEMPORARY TABLE ... -- SQL standard alias for TEMPORARY.", "CREATE GLOBAL TEMPORARY TABLE staging (...);", "sql-createtable.html"));
    t.insert(keyword("LOCAL TEMPORARY", "CREATE LOCAL TEMPORARY TABLE ... -- SQL standard alias for TEMPORARY.", "CREATE LOCAL TEMPORARY TABLE staging (...);", "sql-createtable.html"));
    t.insert(keyword("GLOBAL TEMP", "Same as GLOBAL TEMPORARY.", "CREATE GLOBAL TEMP TABLE staging (...);", "sql-createtable.html"));
    t.insert(keyword("LOCAL TEMP", "Same as LOCAL TEMPORARY.", "CREATE LOCAL TEMP TABLE staging (...);", "sql-createtable.html"));
    t.insert(keyword("WITH RECURSIVE", "WITH RECURSIVE <cte_name> (cols) AS (anchor UNION ALL recursive) ... -- recursive CTE.", "WITH RECURSIVE t(n) AS (SELECT 1 UNION ALL SELECT n+1 FROM t WHERE n<10) SELECT * FROM t;", "queries-with.html"));
    t.insert(keyword("OR REPLACE", "CREATE OR REPLACE FUNCTION / VIEW / TRIGGER / etc -- replace existing object.", "CREATE OR REPLACE VIEW v AS SELECT * FROM t;", "sql-createfunction.html"));
    t.insert(keyword("NOT VALID", "ALTER TABLE ... ADD CONSTRAINT ... NOT VALID -- skip the up-front scan; validate later.", "ALTER TABLE t ADD CONSTRAINT fk_x FOREIGN KEY (a) REFERENCES p(a) NOT VALID;", "sql-altertable.html"));
    t.insert(keyword("CONNECT BY", "Oracle hierarchical query syntax (NOT supported by PG).", "-- Oracle CONNECT BY ...", "appendix-keywords.html"));
    t.insert(keyword("START WITH", "Oracle hierarchical-query START WITH (NOT supported by PG).", "-- Oracle START WITH ...", "appendix-keywords.html"));
    t.insert(keyword("ON CONSTRAINT", "ON CONFLICT ON CONSTRAINT <name> -- target a specific named constraint.", "INSERT INTO t VALUES (...) ON CONFLICT ON CONSTRAINT uq_email DO UPDATE SET ...;", "sql-insert.html"));
    t.insert(keyword("SECURITY DEFINER", "CREATE FUNCTION ... SECURITY DEFINER -- run with the privileges of the function owner.", "CREATE FUNCTION priv_op() RETURNS void ... SECURITY DEFINER;", "sql-createfunction.html"));
    t.insert(keyword("SECURITY INVOKER", "CREATE FUNCTION ... SECURITY INVOKER (default) -- run with caller privileges.", "CREATE FUNCTION pub_op() RETURNS void ... SECURITY INVOKER;", "sql-createfunction.html"));
    t.insert(keyword("PARALLEL SAFE", "CREATE FUNCTION ... PARALLEL SAFE -- safe to run in parallel workers.", "CREATE FUNCTION add(int, int) RETURNS int ... PARALLEL SAFE;", "sql-createfunction.html"));
    t.insert(keyword("PARALLEL RESTRICTED", "CREATE FUNCTION ... PARALLEL RESTRICTED -- safe to run in leader but not workers.", "CREATE FUNCTION up() RETURNS int ... PARALLEL RESTRICTED;", "sql-createfunction.html"));
    t.insert(keyword("PARALLEL UNSAFE", "CREATE FUNCTION ... PARALLEL UNSAFE (default) -- forbid parallel execution.", "CREATE FUNCTION up() RETURNS int ... PARALLEL UNSAFE;", "sql-createfunction.html"));
    t.insert(keyword("RETURNS NULL ON NULL INPUT", "Synonym of STRICT in CREATE FUNCTION.", "CREATE FUNCTION ... RETURNS NULL ON NULL INPUT;", "sql-createfunction.html"));
    t.insert(keyword("CALLED ON NULL INPUT", "Default for CREATE FUNCTION -- run the body even when an argument is NULL.", "CREATE FUNCTION ... CALLED ON NULL INPUT;", "sql-createfunction.html"));
    t.insert(keyword("AS RESTRICT", "CREATE CAST ... AS [ASSIGNMENT | IMPLICIT] -- omit for explicit-only (default).", "CREATE CAST (text AS my_t) WITH FUNCTION my_in;", "sql-createcast.html"));
    t.insert(keyword("AS ASSIGNMENT", "CREATE CAST ... AS ASSIGNMENT -- automatic in assignments.", "CREATE CAST (text AS my_t) WITH FUNCTION my_in AS ASSIGNMENT;", "sql-createcast.html"));
    t.insert(keyword("AS IMPLICIT", "CREATE CAST ... AS IMPLICIT -- automatic everywhere.", "CREATE CAST (text AS my_t) WITH FUNCTION my_in AS IMPLICIT;", "sql-createcast.html"));
    t.insert(keyword("AS ENUM", "CREATE TYPE <name> AS ENUM ('a', 'b', ...).", "CREATE TYPE status AS ENUM ('open','closed');", "sql-createtype.html"));
    t.insert(keyword("AS RANGE", "CREATE TYPE <name> AS RANGE (SUBTYPE = ..., ...).", "CREATE TYPE int_with_step AS RANGE (SUBTYPE = int4, SUBTYPE_OPCLASS = int4_ops);", "sql-createtype.html"));
    t.insert(keyword("WITH FUNCTION", "CREATE CAST ... WITH FUNCTION <fn>(args) -- use this function.", "CREATE CAST (text AS my_t) WITH FUNCTION my_in;", "sql-createcast.html"));
    t.insert(keyword("WITHOUT FUNCTION", "CREATE CAST ... WITHOUT FUNCTION -- binary-compatible cast.", "CREATE CAST (a AS b) WITHOUT FUNCTION;", "sql-createcast.html"));
    t.insert(keyword("WITH INOUT", "CREATE CAST ... WITH INOUT -- use type IO conversion.", "CREATE CAST (text AS my_t) WITH INOUT;", "sql-createcast.html"));
    t.insert(keyword("WITH OPTIONS", "ALTER FOREIGN TABLE ... ALTER COLUMN <c> OPTIONS (...) -- per-column FDW options.", "ALTER FOREIGN TABLE ext ALTER COLUMN c OPTIONS (column_name 'src');", "sql-alterforeigntable.html"));
    t.insert(keyword("WITH SCHEMA", "CREATE EXTENSION ... WITH SCHEMA <s> -- install objects into a specific schema.", "CREATE EXTENSION pgcrypto WITH SCHEMA crypto;", "sql-createextension.html"));
    t.insert(keyword("WITH VERSION", "CREATE EXTENSION ... WITH VERSION '<v>' -- pick a specific version.", "CREATE EXTENSION pgcrypto WITH VERSION '1.3';", "sql-createextension.html"));
    t.insert(keyword("WITH CASCADE", "CREATE EXTENSION ... WITH CASCADE -- auto-install required extensions.", "CREATE EXTENSION postgis CASCADE;", "sql-createextension.html"));
    t.insert(keyword("TO PUBLIC", "GRANT ... TO PUBLIC -- every role.", "GRANT SELECT ON t TO PUBLIC;", "sql-grant.html"));
    t.insert(keyword("ON ALL TABLES IN SCHEMA", "GRANT/REVOKE ... ON ALL TABLES IN SCHEMA <s> -- bulk-affect every existing table in the schema (does NOT apply to future tables; use ALTER DEFAULT PRIVILEGES for that).", "GRANT SELECT ON ALL TABLES IN SCHEMA app TO readonly;", "sql-grant.html"));
    t.insert(keyword("ON ALL FUNCTIONS IN SCHEMA", "GRANT/REVOKE ... ON ALL FUNCTIONS IN SCHEMA <s> -- bulk-affect every existing fn in the schema.", "GRANT EXECUTE ON ALL FUNCTIONS IN SCHEMA app TO svc;", "sql-grant.html"));
    t.insert(keyword("ON ALL SEQUENCES IN SCHEMA", "GRANT/REVOKE ... ON ALL SEQUENCES IN SCHEMA <s> -- bulk-affect every existing sequence in the schema.", "GRANT USAGE ON ALL SEQUENCES IN SCHEMA app TO svc;", "sql-grant.html"));
    t.insert(keyword("ON ALL ROUTINES IN SCHEMA", "GRANT/REVOKE ... ON ALL ROUTINES IN SCHEMA <s> -- bulk-affect every fn AND procedure (PG11+).", "GRANT EXECUTE ON ALL ROUTINES IN SCHEMA app TO svc;", "sql-grant.html"));
    t.insert(keyword("ON ALL PROCEDURES IN SCHEMA", "GRANT/REVOKE ... ON ALL PROCEDURES IN SCHEMA <s> -- bulk-affect every existing procedure in the schema.", "GRANT EXECUTE ON ALL PROCEDURES IN SCHEMA app TO svc;", "sql-grant.html"));
    t.insert(keyword("TO CURRENT_USER", "GRANT ... TO CURRENT_USER -- the role that issued the statement.", "GRANT EXECUTE ON FUNCTION f() TO CURRENT_USER;", "sql-grant.html"));
}

fn part_14(t: &mut Table)
    requires
        old(t).wf(),
        old(t).table_kind() == Kind::Keyword,
    ensures
        final(t).wf(),
        final(t).table_kind() == Kind::Keyword,
        final(t).contents() == keyword_part_14(old(t).contents()),
{
    t.insert(keyword("TO SESSION_USER", "GRANT ... TO SESSION_USER -- the role the session authenticated as.", "GRANT EXECUTE ON FUNCTION f() TO SESSION_USER;", "sql-grant.html"));
    t.insert(keyword("DEPENDS ON EXTENSION", "ALTER ... DEPENDS ON EXTENSION <ext> -- mark object as auto-dropped with the extension.", "ALTER FUNCTION fn() DEPENDS ON EXTENSION pgcrypto;", "sql-altertable.html"));
    t.insert(keyword("DROP EXPRESSION", "ALTER TABLE ... ALTER COLUMN <c> DROP EXPRESSION [IF EXISTS] -- demote generated column.", "ALTER TABLE t ALTER COLUMN total DROP EXPRESSION;", "sql-altertable.html"));
    t.insert(keyword("ADD EXPRESSION", "(reserved; emerged in some discussions) -- ALTER COLUMN ADD EXPRESSION not currently supported by PG.", "-- not supported", "sql-altertable.html"));
    t.insert(keyword("VALIDATE CONSTRAINT", "ALTER TABLE ... VALIDATE CONSTRAINT <name> -- validate a previously NOT VALID constraint.", "ALTER TABLE t VALIDATE CONSTRAINT fk_x;", "sql-altertable.html"));
    t.insert(keyword("DEFERRABLE INITIALLY DEFERRED", "Constraint timing: DEFERRABLE INITIALLY DEFERRED.", "ADD CONSTRAINT fk_x ... DEFERRABLE INITIALLY DEFERRED", "sql-createtable.html"));
    t.insert(keyword("DEFERRABLE INITIALLY IMMEDIATE", "Constraint timing: DEFERRABLE INITIALLY IMMEDIATE.", "ADD CONSTRAINT fk_x ... DEFERRABLE INITIALLY IMMEDIATE", "sql-createtable.html"));
    t.insert(keyword("NOT DEFERRABLE", "Constraint timing: NOT DEFERRABLE (default).", "ADD CONSTRAINT fk_x ... NOT DEFERRABLE", "sql-createtable.html"));
    t.insert(keyword("PRESERVE ROWS", "ON COMMIT PRESERVE ROWS -- keep temporary-table rows past COMMIT (default).", "CREATE TEMP TABLE staging (...) ON COMMIT PRESERVE ROWS;", "sql-createtable.html"));
    t.insert(keyword("DELETE ROWS", "ON COMMIT DELETE ROWS -- truncate temporary-table rows at COMMIT.", "CREATE TEMP TABLE staging (...) ON COMMIT DELETE ROWS;", "sql-createtable.html"));
    t.insert(keyword("OLD TABLE", "REFERENCING OLD TABLE AS <alias> -- statement-level trigger transition relation.", "REFERENCING OLD TABLE AS old_rows", "sql-createtrigger.html"));
    t.insert(keyword("NEW TABLE", "REFERENCING NEW TABLE AS <alias> -- statement-level trigger transition relation.", "REFERENCING NEW TABLE AS new_rows", "sql-createtrigger.html"));
    t.insert(keyword("OLD AS", "REFERENCING OLD AS <alias> -- row-level trigger old row alias.", "REFERENCING OLD AS o NEW AS n", "sql-createtrigger.html"));
    t.insert(keyword("NEW AS", "REFERENCING NEW AS <alias> -- row-level trigger new row alias.", "REFERENCING OLD AS o NEW AS n", "sql-createtrigger.html"));
    t.insert(keyword("OLD ROW", "PL/pgSQL implicit row alias OLD -- represents the row BEFORE the event.", "IF OLD.status <> NEW.status THEN ...", "plpgsql-trigger.html"));
    t.insert(keyword("NEW ROW", "PL/pgSQL implicit row alias NEW -- represents the row AFTER the event.", "IF OLD.status <> NEW.status THEN ...", "plpgsql-trigger.html"));
    t.insert(keyword("TRANSITION", "CREATE TRIGGER ... REFERENCING { OLD | NEW } TABLE AS <alias> -- statement-level transition tables.", "REFERENCING OLD TABLE AS old_rows NEW TABLE AS new_rows", "sql-createtrigger.html"));
    t.insert(keyword("UPDATE OF", "CREATE TRIGGER ... UPDATE OF <col>[, ...] -- column-list-scoped UPDATE event.", "CREATE TRIGGER trg AFTER UPDATE OF status ON orders ...", "sql-createtrigger.html"));
    t.insert(keyword("INSERT OR UPDATE", "CREATE TRIGGER ... INSERT OR UPDATE -- multi-event chain.", "CREATE TRIGGER trg AFTER INSERT OR UPDATE ON t ...", "sql-createtrigger.html"));
    t.insert(keyword("ALTER COLUMN TYPE", "ALTER TABLE ... ALTER COLUMN <c> TYPE <new_type> [USING <expr>] -- change column type.", "ALTER TABLE t ALTER COLUMN price TYPE numeric USING price::numeric;", "sql-altertable.html"));
    t.insert(keyword("DROP CONSTRAINT", "ALTER TABLE ... DROP CONSTRAINT [IF EXISTS] <name> [CASCADE|RESTRICT].", "ALTER TABLE t DROP CONSTRAINT fk_x;", "sql-altertable.html"));
    t.insert(keyword("RENAME CONSTRAINT", "ALTER TABLE ... RENAME CONSTRAINT <old> TO <new>.", "ALTER TABLE t RENAME CONSTRAINT fk_x TO fk_users_org;", "sql-altertable.html"));
    t.insert(keyword("WHERE CURRENT OF", "UPDATE/DELETE ... WHERE CURRENT OF <cursor> -- positioned update/delete (PG cursors).", "UPDATE t SET c = c + 1 WHERE CURRENT OF c1;", "sql-update.html"));
    t.insert(keyword("CURRENT OF", "Used in WHERE CURRENT OF <cursor>; identifies the row the cursor is positioned at.", "WHERE CURRENT OF c1", "sql-update.html"));
    t.insert(keyword("CHECK OPTION", "CREATE VIEW ... WITH CHECK OPTION -- forbid INSERT/UPDATE that wouldn't satisfy the view's WHERE.", "CREATE VIEW v AS SELECT * FROM t WHERE active WITH CHECK OPTION;", "sql-createview.html"));
    t.insert(keyword("WITH CHECK OPTION", "VIEW WITH CHECK OPTION -- same as CASCADED variant (default).", "WITH CHECK OPTION", "sql-createview.html"));
    t.insert(keyword("WITH LOCAL CHECK OPTION", "VIEW WITH LOCAL CHECK OPTION -- only check this view's predicate; ignore parent views.", "WITH LOCAL CHECK OPTION", "sql-createview.html"));
    t.insert(keyword("WITH CASCADED CHECK OPTION", "VIEW WITH CASCADED CHECK OPTION -- enforce predicates of this AND parent views (default).", "WITH CASCADED CHECK OPTION", "sql-createview.html"));
    t.insert(keyword("INSTEAD OF INSERT", "CREATE TRIGGER ... INSTEAD OF INSERT ON <view> -- view writability.", "CREATE TRIGGER trg INSTEAD OF INSERT ON v FOR EACH ROW EXECUTE FUNCTION ins();", "sql-createtrigger.html"));
    t.insert(keyword("INSTEAD OF UPDATE", "CREATE TRIGGER ... INSTEAD OF UPDATE ON <view>.", "CREATE TRIGGER trg INSTEAD OF UPDATE ON v FOR EACH ROW EXECUTE FUNCTION upd();", "sql-createtrigger.html"));
    t.insert(keyword("INSTEAD OF DELETE", "CREATE TRIGGER ... INSTEAD OF DELETE ON <view>.", "CREATE TRIGGER trg INSTEAD OF DELETE ON v FOR EACH ROW EXECUTE FUNCTION del();", "sql-createtrigger.html"));
    t.insert(keyword("FOR ALL", "CREATE POLICY ... FOR ALL -- policy applies to every DML.", "CREATE POLICY p ON t FOR ALL TO public USING (...);", "sql-createpolicy.html"));
    t.insert(keyword("FOR ROLE", "ALTER DEFAULT PRIVILEGES FOR ROLE <r> -- scope default ACL changes.", "ALTER DEFAULT PRIVILEGES FOR ROLE owner GRANT SELECT ON TABLES TO readonly;", "sql-alterdefaultprivileges.html"));
    t.insert(keyword("FOR USER", "ALTER DEFAULT PRIVILEGES FOR USER <r> -- same as FOR ROLE.", "ALTER DEFAULT PRIVILEGES FOR USER alice GRANT ...", "sql-alterdefaultprivileges.html"));
    t.insert(keyword("FOR PARTITION", "ALTER INDEX ... ATTACH PARTITION <partition_index> FOR PARTITION <child_index>. (Internal partitioning glue.)", "ALTER INDEX p_idx ATTACH PARTITION ch_idx;", "sql-alterindex.html"));
    t.insert(keyword("FOR EACH", "CREATE TRIGGER ... FOR EACH { ROW | STATEMENT }.", "FOR EACH ROW EXECUTE FUNCTION upd();", "sql-createtrigger.html"));
    t.insert(keyword("FORCE TYPE", "CREATE FUNCTION ... ARGTYPES + FORCE_TYPE -- not a standalone PG keyword (here for completeness).", "-- internal", "appendix-keywords.html"));
    t.insert(keyword("FORCE ROW LEVEL SECURITY", "ALTER TABLE ... FORCE ROW LEVEL SECURITY -- apply RLS even to the table owner.", "ALTER TABLE t FORCE ROW LEVEL SECURITY;", "sql-altertable.html"));
    t.insert(keyword("NO FORCE ROW LEVEL SECURITY", "ALTER TABLE ... NO FORCE ROW LEVEL SECURITY -- revert FORCE (default).", "ALTER TABLE t NO FORCE ROW LEVEL SECURITY;", "sql-altertable.html"));
    t.insert(keyword("ENABLE ROW LEVEL SECURITY", "ALTER TABLE ... ENABLE ROW LEVEL SECURITY -- enforce row-level security policies on the table.", "ALTER TABLE t ENABLE ROW LEVEL SECURITY;", "sql-altertable.html"));
    t.insert(keyword("DISABLE ROW LEVEL SECURITY", "ALTER TABLE ... DISABLE ROW LEVEL SECURITY -- stop enforcing RLS policies (default).", "ALTER TABLE t DISABLE ROW LEVEL SECURITY;", "sql-altertable.html"));
    t.insert(keyword("WITH CHECK", "CREATE POLICY ... WITH CHECK (<expr>) -- new/updated rows must satisfy <expr> for INSERT/UPDATE.", "CREATE POLICY p ON t FOR ALL USING (true) WITH CHECK (owner = current_user);", "sql-createpolicy.html"));
    t.insert(keyword("SET CONSTRAINTS DEFERRED", "SET CONSTRAINTS ALL DEFERRED -- defer checks until commit.", "SET CONSTRAINTS ALL DEFERRED;", "sql-set-constraints.html"));
    t.insert(keyword("SET CONSTRAINTS IMMEDIATE", "SET CONSTRAINTS ALL IMMEDIATE -- check at statement end.", "SET CONSTRAINTS ALL IMMEDIATE;", "sql-set-constraints.html"));
    t.insert(keyword("SET CONSTRAINTS ALL", "SET CONSTRAINTS ALL { DEFERRED | IMMEDIATE } -- affect every deferrable constraint.", "SET CONSTRAINTS ALL DEFERRED;", "sql-set-constraints.html"));
    t.insert(keyword("AT LOCAL", "<timestamptz> AT LOCAL -- convert to local time zone (PG17+).", "SELECT now() AT LOCAL;", "functions-datetime.html"));
    t.insert(keyword("INTERSECT ALL", "Set op: INTERSECT ALL -- keep duplicates.", "SELECT id FROM a INTERSECT ALL SELECT id FROM b;", "queries-union.html"));
    t.insert(keyword("EXCEPT ALL", "Set op: EXCEPT ALL -- keep duplicates.", "SELECT id FROM a EXCEPT ALL SELECT id FROM b;", "queries-union.html"));
    t.insert(keyword("UNION ALL", "Set op: UNION ALL -- keep duplicates (faster than UNION).", "SELECT id FROM a UNION ALL SELECT id FROM b;", "queries-union.html"));
    t.insert(keyword("INTERSECT DISTINCT", "Set op: INTERSECT [DISTINCT] -- explicit form of plain INTERSECT.", "a INTERSECT DISTINCT b", "queries-union.html"));
    t.insert(keyword("EXCEPT DISTINCT", "Set op: EXCEPT [DISTINCT] -- explicit form of plain EXCEPT.", "a EXCEPT DISTINCT b", "queries-union.html"));
    t.insert(keyword("UNION DISTINCT", "Set op: UNION [DISTINCT] -- explicit form of plain UNION.", "a UNION DISTINCT b", "queries-union.html"));
    t.insert(keyword("GROUP BY ALL", "GROUP BY ALL -- shorthand for grouping by every non-aggregate output column (NOT supported by PG; common in Snowflake/MySQL 8.0+).", "-- unsupported in PG", "appendix-keywords.html"));
    t.insert(keyword("GROUP BY DISTINCT", "GROUP BY DISTINCT (a, b, GROUPING SETS (...)) -- drop duplicate grouping sets (PG14+).", "GROUP BY DISTINCT GROUPING SETS ((a), (a,b))", "queries-table-expressions.html#QUERIES-GROUPING-SETS"));
    t.insert(keyword("SELECT DISTINCT", "SELECT DISTINCT <cols> ... -- dedupe entire rows.", "SELECT DISTINCT id FROM t;", "sql-select.html"));
    t.insert(keyword("SELECT DISTINCT ON", "SELECT DISTINCT ON (<expr>[, ...]) ... -- keep first row per distinct ON expression.", "SELECT DISTINCT ON (user_id) * FROM events ORDER BY user_id, created_at DESC;", "sql-select.html#SQL-DISTINCT"));
    t.insert(keyword("CREATE OR REPLACE FUNCTION", "CREATE OR REPLACE FUNCTION <name>(args) RETURNS ... -- replace existing fn.", "CREATE OR REPLACE FUNCTION up() RETURNS void ...;", "sql-createfunction.html"));
    t.insert(keyword("CREATE OR REPLACE PROCEDURE", "CREATE OR REPLACE PROCEDURE <name>(args) -- replace existing procedure.", "CREATE OR REPLACE PROCEDURE up() ...;", "sql-createprocedure.html"));
    t.insert(keyword("CREATE OR REPLACE VIEW", "CREATE OR REPLACE VIEW <name> AS SELECT ...; replace if columns/types match.", "CREATE OR REPLACE VIEW v AS SELECT * FROM t;", "sql-createview.html"));
    t.insert(keyword("CREATE OR REPLACE TRIGGER", "CREATE OR REPLACE TRIGGER <name> ... -- replace existing trigger (PG14+).", "CREATE OR REPLACE TRIGGER trg ...;", "sql-createtrigger.html"));
    t.insert(keyword("CREATE OR REPLACE RULE", "CREATE OR REPLACE RULE <name> AS ON <event> TO <table> DO ...;", "CREATE OR REPLACE RULE r AS ON SELECT TO v DO INSTEAD SELECT 1;", "sql-createrule.html"));
    t.insert(keyword("CREATE INDEX CONCURRENTLY", "CREATE INDEX CONCURRENTLY <name> ON <table>(...) -- non-blocking index build.", "CREATE INDEX CONCURRENTLY ix_email ON users(email);", "sql-createindex.html"));
    t.insert(keyword("CREATE UNIQUE INDEX", "CREATE UNIQUE INDEX <name> ON <table>(...) -- enforce uniqueness.", "CREATE UNIQUE INDEX ux_email ON users(email);", "sql-createindex.html"));
    t.insert(keyword("CREATE UNIQUE INDEX CONCURRENTLY", "CREATE UNIQUE INDEX CONCURRENTLY <name> ... -- non-blocking unique index build.", "CREATE UNIQUE INDEX CONCURRENTLY ux_email ON users(email);", "sql-createindex.html"));
    t.insert(keyword("CREATE TEMP TABLE", "CREATE TEMP TABLE <name> (...) -- session-local table.", "CREATE TEMP TABLE staging (id int);", "sql-createtable.html"));
    t.insert(keyword("CREATE TEMPORARY TABLE", "CREATE TEMPORARY TABLE <name> (...) -- same as TEMP.", "CREATE TEMPORARY TABLE staging (id int);", "sql-createtable.html"));
    t.insert(keyword("CREATE UNLOGGED TABLE", "CREATE UNLOGGED TABLE <name> (...) -- skipped from WAL; lost on crash.", "CREATE UNLOGGED TABLE cache (k text PRIMARY KEY, v text);", "sql-createtable.html"));
    t.insert(keyword("CREATE FOREIGN TABLE", "CREATE FOREIGN TABLE <name> (...) SERVER <srv> OPTIONS (...).", "CREATE FOREIGN TABLE remote (id int) SERVER s OPTIONS (table_name 'remote');", "sql-createforeigntable.html"));
    t.insert(keyword("CREATE EVENT TRIGGER", "CREATE EVENT TRIGGER <name> ON <event> EXECUTE FUNCTION <fn>().", "CREATE EVENT TRIGGER trg ON ddl_command_end EXECUTE FUNCTION dispatch();", "sql-createeventtrigger.html"));
    t.insert(keyword("DROP INDEX CONCURRENTLY", "DROP INDEX CONCURRENTLY [IF EXISTS] <name> -- non-blocking drop.", "DROP INDEX CONCURRENTLY ix_old;", "sql-dropindex.html"));
    t.insert(keyword("DROP CONSTRAINT IF EXISTS", "ALTER TABLE ... DROP CONSTRAINT IF EXISTS <name>.", "ALTER TABLE t DROP CONSTRAINT IF EXISTS fk_x;", "sql-altertable.html"));
    t.insert(keyword("DROP TABLE IF EXISTS", "DROP TABLE IF EXISTS <name>[, ...] [CASCADE|RESTRICT].", "DROP TABLE IF EXISTS staging;", "sql-droptable.html"));
    t.insert(keyword("DROP INDEX IF EXISTS", "DROP INDEX [CONCURRENTLY] IF EXISTS <name>.", "DROP INDEX IF EXISTS ix_old;", "sql-dropindex.html"));
    t.insert(keyword("DROP MATERIALIZED VIEW", "DROP MATERIALIZED VIEW [IF EXISTS] <name> [CASCADE].", "DROP MATERIALIZED VIEW IF EXISTS mv;", "sql-dropmaterializedview.html"));
    t.insert(keyword("DROP FOREIGN TABLE", "DROP FOREIGN TABLE [IF EXISTS] <name>.", "DROP FOREIGN TABLE IF EXISTS ext;", "sql-dropforeigntable.html"));
}

fn part_15(t: &mut Table)
    requires
        old(t).wf(),
        old(t).table_kind() == Kind::Keyword,
    ensures
        final(t).wf(),
        final(t).table_kind() == Kind::Keyword,
        final(t).contents() == keyword_part_15(old(t).contents()),
{
    t.insert(keyword("DROP EVENT TRIGGER", "DROP EVENT TRIGGER [IF EXISTS] <name>.", "DROP EVENT TRIGGER trg;", "sql-dropeventtrigger.html"));
    t.insert(keyword("DROP ACCESS METHOD", "DROP ACCESS METHOD [IF EXISTS] <name>.", "DROP ACCESS METHOD heap_v2;", "sql-drop-access-method.html"));
    t.insert(keyword("ALTER TABLE IF EXISTS", "ALTER TABLE IF EXISTS <name> ... -- skip silently if missing.", "ALTER TABLE IF EXISTS t ADD COLUMN x int;", "sql-altertable.html"));
    t.insert(keyword("ALTER TABLE ONLY", "ALTER TABLE ONLY <name> ... -- skip child tables in inheritance.", "ALTER TABLE ONLY parent ADD COLUMN x int;", "sql-altertable.html"));
    t.insert(keyword("ALTER MATERIALIZED VIEW", "ALTER MATERIALIZED VIEW <name> ...", "ALTER MATERIALIZED VIEW mv RENAME TO mv2;", "sql-altermaterializedview.html"));
    t.insert(keyword("ALTER EVENT TRIGGER", "ALTER EVENT TRIGGER <name> ...", "ALTER EVENT TRIGGER trg ENABLE REPLICA;", "sql-altereventtrigger.html"));
    t.insert(keyword("ALTER ACCESS METHOD", "ALTER ACCESS METHOD <name> RENAME TO <new>.", "ALTER ACCESS METHOD am RENAME TO am2;", "sql-alter-access-method.html"));
    t.insert(keyword("ALTER OPERATOR FAMILY", "ALTER OPERATOR FAMILY <name> USING <am> ADD/DROP ...", "ALTER OPERATOR FAMILY fam USING btree ADD OPERATOR 1 < (int, int);", "sql-alteroperatorfamily.html"));
    t.insert(keyword("ALTER OPERATOR CLASS", "ALTER OPERATOR CLASS <name> USING <am> RENAME TO <new>.", "ALTER OPERATOR CLASS oc USING btree RENAME TO oc2;", "sql-alteroperatorclass.html"));
    t.insert(keyword("ALTER FOREIGN TABLE", "ALTER FOREIGN TABLE <name> ...", "ALTER FOREIGN TABLE ext ALTER COLUMN c OPTIONS (column_name 'src');", "sql-alterforeigntable.html"));
    t.insert(keyword("ALTER FOREIGN DATA WRAPPER", "ALTER FOREIGN DATA WRAPPER <name> ...", "ALTER FOREIGN DATA WRAPPER pg_fdw HANDLER fn;", "sql-alterforeigndatawrapper.html"));
    t.insert(keyword("ALTER PUBLICATION", "ALTER PUBLICATION <name> ...", "ALTER PUBLICATION p ADD TABLE t;", "sql-alterpublication.html"));
    t.insert(keyword("ALTER SUBSCRIPTION", "ALTER SUBSCRIPTION <name> ...", "ALTER SUBSCRIPTION s REFRESH PUBLICATION;", "sql-altersubscription.html"));
    t.insert(keyword("ALTER POLICY", "ALTER POLICY <name> ON <table> ...", "ALTER POLICY p ON t USING (...) WITH CHECK (...);", "sql-alterpolicy.html"));
    t.insert(keyword("ALTER STATISTICS", "ALTER STATISTICS <name> ...", "ALTER STATISTICS s SET STATISTICS 1000;", "sql-alterstatistics.html"));
    t.insert(keyword("ALTER LANGUAGE", "ALTER LANGUAGE <name> RENAME TO <new>.", "ALTER LANGUAGE plpgsql RENAME TO ppl;", "sql-alterlanguage.html"));
    t.insert(keyword("ALTER CONVERSION", "ALTER CONVERSION <name> RENAME TO <new>.", "ALTER CONVERSION c RENAME TO c2;", "sql-alterconversion.html"));
    t.insert(keyword("ALTER COLLATION", "ALTER COLLATION <name> ...", "ALTER COLLATION fr_FR REFRESH VERSION;", "sql-altercollation.html"));
    t.insert(keyword("ALTER AGGREGATE", "ALTER AGGREGATE <name>(arg_types) ...", "ALTER AGGREGATE my_sum(bigint) OWNER TO admins;", "sql-alteraggregate.html"));
    t.insert(keyword("ALTER OPERATOR", "ALTER OPERATOR <op>(left_type, right_type) ...", "ALTER OPERATOR === (int, int) OWNER TO admins;", "sql-alteroperator.html"));
    t.insert(keyword("ALTER CAST", "ALTER CAST (src AS dst) ...", "ALTER CAST (text AS my_t) OWNER TO admins;", "sql-altercast.html"));
    t.insert(keyword("ALTER TYPE", "ALTER TYPE <name> ...", "ALTER TYPE status ADD VALUE 'archived';", "sql-altertype.html"));
    t.insert(keyword("ALTER DOMAIN", "ALTER DOMAIN <name> ...", "ALTER DOMAIN email_t SET DEFAULT NULL;", "sql-alterdomain.html"));
    t.insert(keyword("ALTER USER MAPPING", "ALTER USER MAPPING FOR <role> SERVER <srv> OPTIONS (...).", "ALTER USER MAPPING FOR alice SERVER s OPTIONS (SET user 'a');", "sql-alterusermapping.html"));
    t.insert(keyword("ALTER SEQUENCE IF EXISTS", "ALTER SEQUENCE IF EXISTS <name> ...", "ALTER SEQUENCE IF EXISTS s RESTART;", "sql-altersequence.html"));
    t.insert(keyword("ALTER VIEW IF EXISTS", "ALTER VIEW IF EXISTS <name> ...", "ALTER VIEW IF EXISTS v RENAME TO v2;", "sql-alterview.html"));
    t.insert(keyword("COMMENT ON TABLE", "COMMENT ON TABLE <name> IS '...' -- attach a comment.", "COMMENT ON TABLE users IS 'authn users';", "sql-comment.html"));
    t.insert(keyword("COMMENT ON COLUMN", "COMMENT ON COLUMN <tbl>.<col> IS '...'.", "COMMENT ON COLUMN users.email IS 'primary email';", "sql-comment.html"));
    t.insert(keyword("COMMENT ON SCHEMA", "COMMENT ON SCHEMA <name> IS '...'.", "COMMENT ON SCHEMA app IS 'application objects';", "sql-comment.html"));
    t.insert(keyword("COMMENT ON DATABASE", "COMMENT ON DATABASE <name> IS '...'.", "COMMENT ON DATABASE mydb IS 'prod db';", "sql-comment.html"));
    t.insert(keyword("COMMENT ON FUNCTION", "COMMENT ON FUNCTION <name>(args) IS '...'.", "COMMENT ON FUNCTION add(int, int) IS 'sums args';", "sql-comment.html"));
    t.insert(keyword("COMMENT ON PROCEDURE", "COMMENT ON PROCEDURE <name>(args) IS '...'.", "COMMENT ON PROCEDURE up() IS 'startup';", "sql-comment.html"));
    t.insert(keyword("COMMENT ON INDEX", "COMMENT ON INDEX <name> IS '...'.", "COMMENT ON INDEX ix_email IS 'lookup index';", "sql-comment.html"));
    t.insert(keyword("COMMENT ON VIEW", "COMMENT ON VIEW <name> IS '...'.", "COMMENT ON VIEW recent_logs IS '24h subset';", "sql-comment.html"));
    t.insert(keyword("COMMENT ON MATERIALIZED VIEW", "COMMENT ON MATERIALIZED VIEW <name> IS '...'.", "COMMENT ON MATERIALIZED VIEW mv IS 'precomputed';", "sql-comment.html"));
    t.insert(keyword("COMMENT ON SEQUENCE", "COMMENT ON SEQUENCE <name> IS '...'.", "COMMENT ON SEQUENCE order_id_seq IS 'order PK';", "sql-comment.html"));
    t.insert(keyword("COMMENT ON TYPE", "COMMENT ON TYPE <name> IS '...'.", "COMMENT ON TYPE status IS 'order lifecycle';", "sql-comment.html"));
    t.insert(keyword("COMMENT ON DOMAIN", "COMMENT ON DOMAIN <name> IS '...'.", "COMMENT ON DOMAIN email_t IS 'RFC5322 email';", "sql-comment.html"));
    t.insert(keyword("COMMENT ON EXTENSION", "COMMENT ON EXTENSION <name> IS '...'.", "COMMENT ON EXTENSION pgcrypto IS 'hash + cipher';", "sql-comment.html"));
    t.insert(keyword("COMMENT ON ROLE", "COMMENT ON ROLE <name> IS '...'.", "COMMENT ON ROLE admins IS 'sysadmins';", "sql-comment.html"));
    t.insert(keyword("COMMENT ON TRIGGER", "COMMENT ON TRIGGER <name> ON <table> IS '...'.", "COMMENT ON TRIGGER trg ON users IS 'updates set';", "sql-comment.html"));
    t.insert(keyword("COMMENT ON CONSTRAINT", "COMMENT ON CONSTRAINT <name> ON <table> IS '...'.", "COMMENT ON CONSTRAINT fk_x ON t IS 'links to users';", "sql-comment.html"));
    t.insert(keyword("COMMENT ON POLICY", "COMMENT ON POLICY <name> ON <table> IS '...'.", "COMMENT ON POLICY p ON users IS 'tenant filter';", "sql-comment.html"));
    t.insert(keyword("DROP DATABASE", "DROP DATABASE [IF EXISTS] <name> -- destroy a database.", "DROP DATABASE staging;", "sql-dropdatabase.html"));
    t.insert(keyword("DROP SCHEMA", "DROP SCHEMA [IF EXISTS] <name>[, ...] [CASCADE|RESTRICT].", "DROP SCHEMA temp CASCADE;", "sql-dropschema.html"));
    t.insert(keyword("DROP ROLE", "DROP ROLE [IF EXISTS] <name>[, ...].", "DROP ROLE bob;", "sql-droprole.html"));
    t.insert(keyword("DROP USER", "DROP USER [IF EXISTS] <name>[, ...] -- alias for DROP ROLE.", "DROP USER bob;", "sql-dropuser.html"));
    t.insert(keyword("DROP GROUP", "DROP GROUP [IF EXISTS] <name>[, ...] -- alias for DROP ROLE.", "DROP GROUP admins;", "sql-dropgroup.html"));
    t.insert(keyword("DROP TABLESPACE", "DROP TABLESPACE [IF EXISTS] <name>.", "DROP TABLESPACE archive;", "sql-droptablespace.html"));
    t.insert(keyword("DROP EXTENSION", "DROP EXTENSION [IF EXISTS] <name>[, ...] [CASCADE].", "DROP EXTENSION pgcrypto;", "sql-dropextension.html"));
    t.insert(keyword("DROP PUBLICATION", "DROP PUBLICATION [IF EXISTS] <name>.", "DROP PUBLICATION pub1;", "sql-droppublication.html"));
    t.insert(keyword("DROP SUBSCRIPTION", "DROP SUBSCRIPTION [IF EXISTS] <name>.", "DROP SUBSCRIPTION sub1;", "sql-dropsubscription.html"));
    t.insert(keyword("DROP SERVER", "DROP SERVER [IF EXISTS] <name> [CASCADE].", "DROP SERVER myserv;", "sql-dropserver.html"));
    t.insert(keyword("DROP TRIGGER", "DROP TRIGGER [IF EXISTS] <name> ON <table> [CASCADE].", "DROP TRIGGER trg ON users;", "sql-droptrigger.html"));
    t.insert(keyword("DROP TYPE", "DROP TYPE [IF EXISTS] <name>[, ...] [CASCADE].", "DROP TYPE status;", "sql-droptype.html"));
    t.insert(keyword("DROP DOMAIN", "DROP DOMAIN [IF EXISTS] <name>[, ...] [CASCADE].", "DROP DOMAIN email_t;", "sql-dropdomain.html"));
    t.insert(keyword("DROP POLICY", "DROP POLICY [IF EXISTS] <name> ON <table>.", "DROP POLICY p ON users;", "sql-droppolicy.html"));
    t.insert(keyword("CREATE DATABASE", "CREATE DATABASE <name> [OWNER <r>] [TEMPLATE <t>] [ENCODING '<enc>'] [LOCALE '<loc>'] [TABLESPACE <ts>] [CONNECTION LIMIT <n>] [...].", "CREATE DATABASE mydb OWNER alice;", "sql-createdatabase.html"));
    t.insert(keyword("CREATE SCHEMA", "CREATE SCHEMA [IF NOT EXISTS] <name> [AUTHORIZATION <role>] [<schema_element> ...].", "CREATE SCHEMA app AUTHORIZATION admins;", "sql-createschema.html"));
    t.insert(keyword("CREATE ROLE", "CREATE ROLE <name> [WITH <attr> ...] -- new role.", "CREATE ROLE alice LOGIN PASSWORD '...';", "sql-createrole.html"));
    t.insert(keyword("CREATE USER", "CREATE USER <name> [WITH <attr> ...] -- alias for CREATE ROLE ... LOGIN.", "CREATE USER alice PASSWORD '...';", "sql-createuser.html"));
    t.insert(keyword("CREATE GROUP", "CREATE GROUP <name> [WITH <attr> ...] -- alias for CREATE ROLE ... NOLOGIN.", "CREATE GROUP admins;", "sql-creategroup.html"));
    t.insert(keyword("CREATE TABLESPACE", "CREATE TABLESPACE <name> [OWNER <role>] LOCATION '<dir>' [WITH (...)].", "CREATE TABLESPACE archive LOCATION '/mnt/cold';", "sql-createtablespace.html"));
    t.insert(keyword("CREATE EXTENSION", "CREATE EXTENSION [IF NOT EXISTS] <name> [WITH] [SCHEMA <s>] [VERSION '<v>'] [CASCADE].", "CREATE EXTENSION pgcrypto;", "sql-createextension.html"));
    t.insert(keyword("CREATE PUBLICATION", "CREATE PUBLICATION <name> [FOR ALL TABLES | FOR TABLE <t>[, ...] | FOR TABLES IN SCHEMA <s>] [WITH (publish = '...')].", "CREATE PUBLICATION p FOR ALL TABLES;", "sql-createpublication.html"));
    t.insert(keyword("CREATE SUBSCRIPTION", "CREATE SUBSCRIPTION <name> CONNECTION '<conn>' PUBLICATION <pub>[, ...] [WITH (...)].", "CREATE SUBSCRIPTION s CONNECTION 'host=... dbname=...' PUBLICATION p;", "sql-createsubscription.html"));
    t.insert(keyword("CREATE SERVER", "CREATE SERVER [IF NOT EXISTS] <name> [TYPE '<t>'] [VERSION '<v>'] FOREIGN DATA WRAPPER <fdw> OPTIONS (...).", "CREATE SERVER s FOREIGN DATA WRAPPER postgres_fdw OPTIONS (host 'h');", "sql-createserver.html"));
    t.insert(keyword("CREATE TRIGGER", "CREATE TRIGGER <name> {BEFORE|AFTER|INSTEAD OF} <event> ON <table> [FOR EACH {ROW|STATEMENT}] EXECUTE FUNCTION <fn>().", "CREATE TRIGGER trg BEFORE UPDATE ON users FOR EACH ROW EXECUTE FUNCTION upd();", "sql-createtrigger.html"));
    t.insert(keyword("CREATE TYPE", "CREATE TYPE <name> AS (...) | AS ENUM (...) | AS RANGE (...) | (INPUT = ..., OUTPUT = ...).", "CREATE TYPE status AS ENUM ('open','closed');", "sql-createtype.html"));
    t.insert(keyword("CREATE DOMAIN", "CREATE DOMAIN <name> [AS] <base_type> [DEFAULT <expr>] [<constraint>...].", "CREATE DOMAIN email_t AS TEXT CHECK (VALUE ~ '@');", "sql-createdomain.html"));
    t.insert(keyword("CREATE POLICY", "CREATE POLICY <name> ON <table> [FOR <cmd>] [TO <role>] [USING (...)] [WITH CHECK (...)].", "CREATE POLICY p ON t FOR SELECT TO public USING (user_id = current_user_id());", "sql-createpolicy.html"));
    t.insert(keyword("CREATE FUNCTION", "CREATE FUNCTION <name>(<args>) RETURNS <rettype> AS $$ ... $$ LANGUAGE ...;", "CREATE FUNCTION add(int, int) RETURNS int AS $$ SELECT $1+$2 $$ LANGUAGE SQL;", "sql-createfunction.html"));
    t.insert(keyword("CREATE PROCEDURE", "CREATE PROCEDURE <name>(<args>) AS $$ ... $$ LANGUAGE plpgsql;", "CREATE PROCEDURE up() AS $$ BEGIN ... END; $$ LANGUAGE plpgsql;", "sql-createprocedure.html"));
    t.insert(keyword("CREATE SEQUENCE", "CREATE SEQUENCE [IF NOT EXISTS] <name> [AS smallint|integer|bigint] [INCREMENT BY <n>] [MINVALUE <n>] [MAXVALUE <n>] [START WITH <n>] [CACHE <n>] [CYCLE|NO CYCLE] [OWNED BY <tbl>.<col>|NONE].", "CREATE SEQUENCE s START 100;", "sql-createsequence.html"));
    t.insert(keyword("CREATE RULE", "CREATE [OR REPLACE] RULE <name> AS ON <event> TO <table> [WHERE <expr>] DO {ALSO|INSTEAD} {NOTHING|<cmd>}.", "CREATE RULE r AS ON SELECT TO v DO INSTEAD SELECT 1;", "sql-createrule.html"));
}

fn part_16(t: &mut Table)
    requires
        old(t).wf(),
        old(t).table_kind() == Kind::Keyword,
    ensures
        final(t).wf(),
        final(t).table_kind() == Kind::Keyword,
        final(t).contents() == keyword_part_16(old(t).contents()),
{
    t.insert(keyword("CREATE CAST", "CREATE CAST (src AS dst) {WITH FUNCTION <fn>(args) | WITHOUT FUNCTION | WITH INOUT} [AS ASSIGNMENT | AS IMPLICIT].", "CREATE CAST (text AS my_t) WITH FUNCTION my_in;", "sql-createcast.html"));
    t.insert(keyword("CREATE LANGUAGE", "CREATE [OR REPLACE] [TRUSTED] [PROCEDURAL] LANGUAGE <name> HANDLER <fn> [INLINE <fn>] [VALIDATOR <fn>].", "CREATE LANGUAGE plpython3u;", "sql-createlanguage.html"));
    t.insert(keyword("CREATE OPERATOR", "CREATE OPERATOR <op> (FUNCTION = <fn>, LEFTARG = <type>, RIGHTARG = <type>, ...).", "CREATE OPERATOR === (FUNCTION = my_eq, LEFTARG = my_t, RIGHTARG = my_t);", "sql-createoperator.html"));
    t.insert(keyword("CREATE AGGREGATE", "CREATE AGGREGATE <name>(<arg_types>) (SFUNC = ..., STYPE = ..., ...).", "CREATE AGGREGATE sum_ints(int) (SFUNC = int4pl, STYPE = int);", "sql-createaggregate.html"));
    t.insert(keyword("CREATE CONVERSION", "CREATE [DEFAULT] CONVERSION <name> FOR '<src>' TO '<dst>' FROM <fn>.", "CREATE CONVERSION my_conv FOR 'UTF8' TO 'LATIN1' FROM utf8_to_latin1;", "sql-createconversion.html"));
    t.insert(keyword("CREATE COLLATION", "CREATE COLLATION [IF NOT EXISTS] <name> (LOCALE = '<loc>' | LC_COLLATE = '<lc>', LC_CTYPE = '<lc>', ...).", "CREATE COLLATION fr_FR (LOCALE = 'fr_FR.UTF-8');", "sql-createcollation.html"));
    t.insert(keyword("CREATE TRANSFORM", "CREATE TRANSFORM FOR <type> LANGUAGE <lang> (FROM SQL WITH FUNCTION <fn>, TO SQL WITH FUNCTION <fn>).", "CREATE TRANSFORM FOR hstore LANGUAGE plpython3u (...);", "sql-createtransform.html"));
    t.insert(keyword("CREATE STATISTICS", "CREATE STATISTICS [IF NOT EXISTS] <name> [(<kind>[, ...])] ON <col>[, ...] FROM <table>.", "CREATE STATISTICS s (dependencies) ON a, b FROM t;", "sql-createstatistics.html"));
    t.insert(keyword("CREATE FOREIGN DATA WRAPPER", "CREATE FOREIGN DATA WRAPPER <name> [HANDLER <fn>] [VALIDATOR <fn>] [OPTIONS (...)].", "CREATE FOREIGN DATA WRAPPER pg_fdw HANDLER pg_fdw_handler;", "sql-createforeigndatawrapper.html"));
    t.insert(keyword("CREATE USER MAPPING", "CREATE USER MAPPING [IF NOT EXISTS] FOR <role> SERVER <srv> OPTIONS (...).", "CREATE USER MAPPING FOR alice SERVER s OPTIONS (user 'a');", "sql-createusermapping.html"));
    t.insert(keyword("CREATE TEXT SEARCH CONFIGURATION", "CREATE TEXT SEARCH CONFIGURATION <name> (PARSER = <parser>) -- or COPY = <existing>.", "CREATE TEXT SEARCH CONFIGURATION my (PARSER = default);", "sql-createtextsearchconfiguration.html"));
    t.insert(keyword("CREATE TEXT SEARCH DICTIONARY", "CREATE TEXT SEARCH DICTIONARY <name> (TEMPLATE = <template>, ...).", "CREATE TEXT SEARCH DICTIONARY simple_d (TEMPLATE = simple);", "sql-createtextsearchdictionary.html"));
    t.insert(keyword("CREATE TEXT SEARCH PARSER", "CREATE TEXT SEARCH PARSER <name> (START = <fn>, GETTOKEN = <fn>, END = <fn>, LEXTYPES = <fn>).", "CREATE TEXT SEARCH PARSER my_p (...);", "sql-createtextsearchparser.html"));
    t.insert(keyword("CREATE TEXT SEARCH TEMPLATE", "CREATE TEXT SEARCH TEMPLATE <name> (INIT = <fn>, LEXIZE = <fn>).", "CREATE TEXT SEARCH TEMPLATE my_t (INIT = ..., LEXIZE = ...);", "sql-createtextsearchtemplate.html"));
    t.insert(keyword("ALTER FUNCTION", "ALTER FUNCTION <name>(args) ... -- rename / owner / schema / cost / rows / volatility / strict / parallel / leakproof / depends.", "ALTER FUNCTION fn(int) RENAME TO new_fn;", "sql-alterfunction.html"));
    t.insert(keyword("ALTER PROCEDURE", "ALTER PROCEDURE <name>(args) ... -- rename / owner / schema / strict.", "ALTER PROCEDURE up() OWNER TO admins;", "sql-alterprocedure.html"));
    t.insert(keyword("ALTER ROUTINE", "ALTER ROUTINE <name>(args) ... -- works for both FUNCTION and PROCEDURE.", "ALTER ROUTINE fn(int) RENAME TO new_fn;", "sql-alterroutine.html"));
    t.insert(keyword("ALTER INDEX", "ALTER INDEX <name> ... -- rename / owner / set tablespace / attach partition / set (...) / reset (...).", "ALTER INDEX ix RENAME TO ix2;", "sql-alterindex.html"));
    t.insert(keyword("ALTER VIEW", "ALTER VIEW <name> ... -- rename / owner / set schema / alter column.", "ALTER VIEW v RENAME TO v2;", "sql-alterview.html"));
    t.insert(keyword("ALTER SEQUENCE", "ALTER SEQUENCE <name> ... -- restart / minvalue / maxvalue / owned by / owner / schema.", "ALTER SEQUENCE s RESTART WITH 100;", "sql-altersequence.html"));
    t.insert(keyword("ALTER ROLE", "ALTER ROLE <name> ... -- attributes / RENAME / OWNER / SET <param>.", "ALTER ROLE alice CREATEDB;", "sql-alterrole.html"));
    t.insert(keyword("ALTER USER", "ALTER USER <name> ... -- alias for ALTER ROLE.", "ALTER USER alice WITH PASSWORD '...';", "sql-alteruser.html"));
    t.insert(keyword("ALTER GROUP", "ALTER GROUP <name> ... -- alias for ALTER ROLE for group operations.", "ALTER GROUP admins ADD USER alice;", "sql-altergroup.html"));
    t.insert(keyword("ALTER DATABASE", "ALTER DATABASE <name> ... -- rename / owner / set <param> / set tablespace.", "ALTER DATABASE mydb SET search_path = 'public';", "sql-alterdatabase.html"));
    t.insert(keyword("ALTER SCHEMA", "ALTER SCHEMA <name> ... -- rename / owner.", "ALTER SCHEMA app RENAME TO app2;", "sql-alterschema.html"));
    t.insert(keyword("ALTER EXTENSION", "ALTER EXTENSION <name> ... -- update [TO version] / set schema / add <member> / drop <member>.", "ALTER EXTENSION pgcrypto UPDATE;", "sql-alterextension.html"));
    t.insert(keyword("ALTER TRIGGER", "ALTER TRIGGER <name> ON <table> ... -- RENAME / DEPENDS ON EXTENSION.", "ALTER TRIGGER trg ON t RENAME TO trg2;", "sql-altertrigger.html"));
    t.insert(keyword("ALTER FUNCTION IF EXISTS", "ALTER FUNCTION IF EXISTS <name>(args) ... -- skip silently if missing.", "ALTER FUNCTION IF EXISTS fn(int) OWNER TO admins;", "sql-alterfunction.html"));
    t.insert(keyword("ALTER PROCEDURE IF EXISTS", "ALTER PROCEDURE IF EXISTS <name>(args) ...", "ALTER PROCEDURE IF EXISTS up() OWNER TO admins;", "sql-alterprocedure.html"));
    t.insert(keyword("ALTER INDEX IF EXISTS", "ALTER INDEX IF EXISTS <name> ...", "ALTER INDEX IF EXISTS ix RENAME TO ix2;", "sql-alterindex.html"));
    t.insert(keyword("ALTER MATERIALIZED VIEW IF EXISTS", "ALTER MATERIALIZED VIEW IF EXISTS <name> ...", "ALTER MATERIALIZED VIEW IF EXISTS mv RENAME TO mv2;", "sql-altermaterializedview.html"));
    t.insert(keyword("ALTER FOREIGN TABLE IF EXISTS", "ALTER FOREIGN TABLE IF EXISTS <name> ...", "ALTER FOREIGN TABLE IF EXISTS ext OPTIONS (ADD foo 'bar');", "sql-alterforeigntable.html"));
    t.insert(keyword("ALTER TYPE IF EXISTS", "ALTER TYPE IF EXISTS <name> ...", "ALTER TYPE IF EXISTS status ADD VALUE 'archived';", "sql-altertype.html"));
    t.insert(keyword("ALTER DOMAIN IF EXISTS", "ALTER DOMAIN IF EXISTS <name> ...", "ALTER DOMAIN IF EXISTS email_t SET DEFAULT NULL;", "sql-alterdomain.html"));
    t.insert(keyword("GRANT ALL", "GRANT ALL [PRIVILEGES] ON <target> TO <role> -- shorthand for all relevant privileges.", "GRANT ALL ON TABLE users TO admins;", "sql-grant.html"));
    t.insert(keyword("GRANT ALL PRIVILEGES", "GRANT ALL PRIVILEGES ON <target> TO <role> -- explicit form of GRANT ALL.", "GRANT ALL PRIVILEGES ON TABLE users TO admins;", "sql-grant.html"));
    t.insert(keyword("GRANT SELECT", "GRANT SELECT ON <table>[, ...] | <view> | <sequence> TO <role>.", "GRANT SELECT ON users TO readonly;", "sql-grant.html"));
    t.insert(keyword("GRANT INSERT", "GRANT INSERT ON <table>[, ...] TO <role>.", "GRANT INSERT ON users TO app;", "sql-grant.html"));
    t.insert(keyword("GRANT UPDATE", "GRANT UPDATE [(col[, ...])] ON <table> TO <role>.", "GRANT UPDATE (email) ON users TO app;", "sql-grant.html"));
    t.insert(keyword("GRANT DELETE", "GRANT DELETE ON <table>[, ...] TO <role>.", "GRANT DELETE ON staging TO app;", "sql-grant.html"));
    t.insert(keyword("GRANT TRUNCATE", "GRANT TRUNCATE ON <table>[, ...] TO <role>.", "GRANT TRUNCATE ON staging TO app;", "sql-grant.html"));
    t.insert(keyword("GRANT REFERENCES", "GRANT REFERENCES [(col[, ...])] ON <table> TO <role> -- allow FK creation.", "GRANT REFERENCES ON users TO app;", "sql-grant.html"));
    t.insert(keyword("GRANT TRIGGER", "GRANT TRIGGER ON <table>[, ...] TO <role> -- allow CREATE TRIGGER on the table.", "GRANT TRIGGER ON users TO app;", "sql-grant.html"));
    t.insert(keyword("GRANT USAGE", "GRANT USAGE ON SCHEMA / SEQUENCE / LANGUAGE / TYPE TO <role>.", "GRANT USAGE ON SCHEMA public TO app;", "sql-grant.html"));
    t.insert(keyword("GRANT EXECUTE", "GRANT EXECUTE ON FUNCTION / PROCEDURE / ROUTINE TO <role>.", "GRANT EXECUTE ON FUNCTION add(int, int) TO app;", "sql-grant.html"));
    t.insert(keyword("GRANT CONNECT", "GRANT CONNECT ON DATABASE <name> TO <role>.", "GRANT CONNECT ON DATABASE mydb TO app;", "sql-grant.html"));
    t.insert(keyword("GRANT TEMPORARY", "GRANT TEMPORARY ON DATABASE <name> TO <role> -- allow creating temp tables.", "GRANT TEMPORARY ON DATABASE mydb TO app;", "sql-grant.html"));
    t.insert(keyword("GRANT CREATE", "GRANT CREATE ON DATABASE / SCHEMA / TABLESPACE TO <role>.", "GRANT CREATE ON DATABASE mydb TO app;", "sql-grant.html"));
    t.insert(keyword("GRANT MAINTAIN", "GRANT MAINTAIN ON <table> TO <role> -- run VACUUM/ANALYZE/CLUSTER/REINDEX/LOCK (PG17+).", "GRANT MAINTAIN ON ALL TABLES IN SCHEMA public TO admins;", "sql-grant.html"));
    t.insert(keyword("REVOKE ALL", "REVOKE ALL [PRIVILEGES] ON <target> FROM <role>.", "REVOKE ALL ON TABLE users FROM bob;", "sql-revoke.html"));
    t.insert(keyword("REVOKE ALL PRIVILEGES", "REVOKE ALL PRIVILEGES ON <target> FROM <role>.", "REVOKE ALL PRIVILEGES ON TABLE users FROM bob;", "sql-revoke.html"));
    t.insert(keyword("REVOKE SELECT", "REVOKE SELECT ON <target> FROM <role>.", "REVOKE SELECT ON users FROM bob;", "sql-revoke.html"));
    t.insert(keyword("REVOKE INSERT", "REVOKE INSERT ON <target> FROM <role>.", "REVOKE INSERT ON users FROM bob;", "sql-revoke.html"));
    t.insert(keyword("REVOKE UPDATE", "REVOKE UPDATE [(col[, ...])] ON <target> FROM <role>.", "REVOKE UPDATE (email) ON users FROM bob;", "sql-revoke.html"));
    t.insert(keyword("REVOKE DELETE", "REVOKE DELETE ON <target> FROM <role>.", "REVOKE DELETE ON users FROM bob;", "sql-revoke.html"));
    t.insert(keyword("REVOKE USAGE", "REVOKE USAGE ON <target> FROM <role>.", "REVOKE USAGE ON SCHEMA public FROM bob;", "sql-revoke.html"));
    t.insert(keyword("REVOKE EXECUTE", "REVOKE EXECUTE ON FUNCTION / PROCEDURE FROM <role>.", "REVOKE EXECUTE ON FUNCTION add(int, int) FROM bob;", "sql-revoke.html"));
    t.insert(keyword("REVOKE GRANT OPTION FOR", "REVOKE GRANT OPTION FOR <priv> ON <target> FROM <role> -- revoke ability to re-grant.", "REVOKE GRANT OPTION FOR SELECT ON users FROM bob;", "sql-revoke.html"));
    t.insert(keyword("REVOKE ADMIN OPTION FOR", "REVOKE ADMIN OPTION FOR <role> FROM <member> -- revoke ability to add members.", "REVOKE ADMIN OPTION FOR admins FROM alice;", "sql-revoke.html"));
    t.insert(keyword("FROM ONLY", "SELECT/UPDATE/DELETE ... FROM ONLY <parent> -- skip inherited child tables.", "DELETE FROM ONLY parent WHERE id = 1;", "ddl-inherit.html"));
    t.insert(keyword("FULL JOIN", "FULL JOIN <table> ON <pred> -- FULL OUTER JOIN.", "SELECT * FROM a FULL JOIN b ON a.id = b.id;", "queries-table-expressions.html#QUERIES-FROM"));
    t.insert(keyword("LEFT OUTER JOIN", "Same as LEFT JOIN -- explicit OUTER form.", "SELECT * FROM a LEFT OUTER JOIN b ON a.id = b.id;", "queries-table-expressions.html"));
    t.insert(keyword("RIGHT OUTER JOIN", "Same as RIGHT JOIN -- explicit OUTER form.", "SELECT * FROM a RIGHT OUTER JOIN b ON a.id = b.id;", "queries-table-expressions.html"));
    t.insert(keyword("NATURAL JOIN", "NATURAL [INNER|LEFT|RIGHT|FULL] JOIN <table> -- auto-join on common column names. Brittle.", "SELECT * FROM a NATURAL JOIN b;", "queries-table-expressions.html"));
    t.insert(keyword("NATURAL INNER JOIN", "NATURAL INNER JOIN <table> -- explicit form of NATURAL JOIN.", "SELECT * FROM a NATURAL INNER JOIN b;", "queries-table-expressions.html"));
    t.insert(keyword("JOIN LATERAL", "JOIN LATERAL (subq) ON true -- per-row correlated subquery.", "SELECT * FROM users u JOIN LATERAL (SELECT * FROM orders WHERE user_id = u.id LIMIT 5) o ON true;", "queries-table-expressions.html#QUERIES-LATERAL"));
    t.insert(keyword("LEFT JOIN LATERAL", "LEFT JOIN LATERAL (subq) ON true -- correlated subquery without filtering null rows.", "SELECT * FROM users u LEFT JOIN LATERAL (SELECT * FROM orders WHERE user_id = u.id LIMIT 1) o ON true;", "queries-table-expressions.html#QUERIES-LATERAL"));
    t.insert(keyword("INNER JOIN LATERAL", "INNER JOIN LATERAL (subq) ON true -- correlated subquery, inner-join filter on rows.", "FROM users u INNER JOIN LATERAL fn(u.id) ON true", "queries-table-expressions.html#QUERIES-LATERAL"));
    t.insert(keyword("CROSS JOIN LATERAL", "FROM ... CROSS JOIN LATERAL (subq) -- per-row correlated subquery without ON.", "FROM users u CROSS JOIN LATERAL fn(u.id)", "queries-table-expressions.html#QUERIES-LATERAL"));
    t.insert(keyword("JOIN ON", "JOIN ... ON <pred> -- explicit join condition.", "SELECT * FROM a JOIN b ON a.id = b.id;", "queries-table-expressions.html"));
    t.insert(keyword("JOIN USING", "JOIN ... USING (col[, ...]) -- common column equality.", "SELECT * FROM a JOIN b USING (id);", "queries-table-expressions.html"));
    t.insert(keyword("LEFT JOIN ON", "LEFT JOIN ... ON <pred>.", "SELECT * FROM a LEFT JOIN b ON a.id = b.id;", "queries-table-expressions.html"));
    t.insert(keyword("INNER JOIN ON", "INNER JOIN ... ON <pred>.", "SELECT * FROM a INNER JOIN b ON a.id = b.id;", "queries-table-expressions.html"));
    t.insert(keyword("LEFT JOIN USING", "LEFT JOIN ... USING (col[, ...]).", "SELECT * FROM a LEFT JOIN b USING (id);", "queries-table-expressions.html"));
    t.insert(keyword("INNER JOIN USING", "INNER JOIN ... USING (col[, ...]).", "SELECT * FROM a INNER JOIN b USING (id);", "queries-table-expressions.html"));
}

fn part_17(t: &mut Table)
    requires
        old(t).wf(),
        old(t).table_kind() == Kind::Keyword,
    ensures
        final(t).wf(),
        final(t).table_kind() == Kind::Keyword,
        final(t).contents() == keyword_part_17(old(t).contents()),
{
    t.insert(keyword("DELETE FROM ONLY", "DELETE FROM ONLY <parent> -- skip child tables in inheritance.", "DELETE FROM ONLY parent WHERE id = 1;", "sql-delete.html"));
    t.insert(keyword("UPDATE ONLY", "UPDATE ONLY <parent> SET ... -- skip child tables.", "UPDATE ONLY parent SET x = 1 WHERE id = 1;", "sql-update.html"));
    t.insert(keyword("TRUNCATE ONLY", "TRUNCATE ONLY <parent> -- skip child tables.", "TRUNCATE ONLY parent;", "sql-truncate.html"));
    t.insert(keyword("MERGE INTO", "MERGE INTO <target> USING <source> ON <pred> WHEN ... THEN ... -- SQL standard upsert.", "MERGE INTO users u USING staging s ON s.id = u.id WHEN MATCHED THEN UPDATE SET email = s.email;", "sql-merge.html"));
    t.insert(keyword("USING TABLE", "MERGE INTO ... USING <table> ON ... -- source is a table.", "MERGE INTO users USING staging ON staging.id = users.id ...", "sql-merge.html"));
    t.insert(keyword("USING SELECT", "MERGE INTO ... USING (SELECT ...) <alias> ON ... -- source is a subquery.", "MERGE INTO t USING (SELECT * FROM s) src ON src.id = t.id ...", "sql-merge.html"));
    t.insert(keyword("WHEN MATCHED", "MERGE ... WHEN MATCHED [AND <expr>] THEN { UPDATE SET ... | DELETE | DO NOTHING }.", "WHEN MATCHED THEN UPDATE SET ...", "sql-merge.html"));
    t.insert(keyword("WHEN NOT MATCHED", "MERGE ... WHEN NOT MATCHED [AND <expr>] THEN { INSERT ... | DO NOTHING }.", "WHEN NOT MATCHED THEN INSERT (id) VALUES (s.id);", "sql-merge.html"));
    t.insert(keyword("WHEN MATCHED THEN", "Same as WHEN MATCHED -- THEN introduces the action.", "WHEN MATCHED THEN UPDATE SET ...", "sql-merge.html"));
    t.insert(keyword("WHEN NOT MATCHED THEN", "Same as WHEN NOT MATCHED -- THEN introduces the action.", "WHEN NOT MATCHED THEN INSERT ...", "sql-merge.html"));
    t.insert(keyword("WHEN MATCHED AND", "WHEN MATCHED AND <pred> THEN <action> -- conditional MERGE branch.", "WHEN MATCHED AND s.deleted_at IS NOT NULL THEN DELETE", "sql-merge.html"));
    t.insert(keyword("WHEN NOT MATCHED AND", "WHEN NOT MATCHED AND <pred> THEN <action> -- conditional MERGE branch.", "WHEN NOT MATCHED AND s.is_active THEN INSERT (id) VALUES (s.id)", "sql-merge.html"));
    t.insert(keyword("DO UPDATE SET", "ON CONFLICT ... DO UPDATE SET <col> = <val>[, ...].", "ON CONFLICT (email) DO UPDATE SET updated_at = excluded.updated_at;", "sql-insert.html"));
    t.insert(keyword("ON CONFLICT DO NOTHING", "INSERT ... ON CONFLICT DO NOTHING -- skip conflicting rows.", "INSERT INTO t VALUES (...) ON CONFLICT DO NOTHING;", "sql-insert.html"));
    t.insert(keyword("ON CONFLICT DO UPDATE", "INSERT ... ON CONFLICT [...] DO UPDATE SET ... -- classic upsert.", "INSERT INTO t (id, name) VALUES (1, 'a') ON CONFLICT (id) DO UPDATE SET name = excluded.name;", "sql-insert.html"));
    t.insert(keyword("ON CONFLICT DO UPDATE SET", "Same as ON CONFLICT DO UPDATE -- SET introduces assignments.", "ON CONFLICT (id) DO UPDATE SET name = excluded.name;", "sql-insert.html"));
    t.insert(keyword("WHEN NOT MATCHED BY SOURCE", "MERGE ... WHEN NOT MATCHED BY SOURCE -- PG17+: target rows without a source match.", "WHEN NOT MATCHED BY SOURCE THEN DELETE", "sql-merge.html"));
    t.insert(keyword("WHEN NOT MATCHED BY TARGET", "MERGE ... WHEN NOT MATCHED BY TARGET (alias for default WHEN NOT MATCHED).", "WHEN NOT MATCHED BY TARGET THEN INSERT (id) VALUES (s.id)", "sql-merge.html"));
    t.insert(keyword("ON CONFLICT ON CONSTRAINT", "INSERT ... ON CONFLICT ON CONSTRAINT <name> DO ... -- target a specific named constraint.", "ON CONFLICT ON CONSTRAINT uq_email DO UPDATE SET ...", "sql-insert.html"));
    t.insert(keyword("RETURNING ALL", "INSERT/UPDATE/DELETE/MERGE ... RETURNING * -- conventional shorthand for all cols.", "INSERT INTO t VALUES (...) RETURNING *;", "sql-insert.html"));
    t.insert(keyword("RETURNING OLD", "PG18+ RETURNING OLD.<col> / NEW.<col>: see pre- and post-image of the row touched by UPDATE/DELETE/MERGE. The OLD/NEW aliases must be qualified.", "UPDATE t SET v = v + 1 WHERE id = 1 RETURNING OLD.v, NEW.v;", "sql-update.html"));
    t.insert(keyword("RETURNING NEW", "PG18+ RETURNING NEW.<col>: the post-image of the row. Combine with RETURNING OLD to see the diff.", "UPDATE t SET v = v + 1 RETURNING NEW.v AS new_v, OLD.v AS old_v;", "sql-update.html"));
    t.insert(keyword("OLD.", "RETURNING OLD.<col>: row image before the UPDATE/DELETE/MERGE action (PG18+).", "UPDATE t SET v = v + 1 RETURNING OLD.v;", "sql-update.html"));
    t.insert(keyword("NEW.", "RETURNING NEW.<col>: row image after the UPDATE/INSERT/MERGE action (PG18+).", "UPDATE t SET v = v + 1 RETURNING NEW.v;", "sql-update.html"));
    t.insert(keyword("GENERATED ALWAYS AS VIRTUAL", "PG18+ virtual generated column -- computed on read, no storage. Default for GENERATED ALWAYS AS unless STORED is specified.", "CREATE TABLE t (a int, b int GENERATED ALWAYS AS (a * 2) VIRTUAL);", "ddl-generated-columns.html"));
    t.insert(keyword("VIRTUAL", "PG18+ generated-column storage class: computed on read, no disk footprint. Counterpart of STORED.", "GENERATED ALWAYS AS (...) VIRTUAL", "ddl-generated-columns.html"));
    t.insert(keyword("MAINTAIN", "PG17+ table privilege granting VACUUM/ANALYZE/REINDEX/REFRESH MATERIALIZED VIEW/CLUSTER/LOCK TABLE without ownership. Useful for monitoring/cron roles.", "GRANT MAINTAIN ON TABLE users TO monitor_role;", "ddl-priv.html"));
    t.insert(keyword("EXPLAIN SERIALIZE", "PG17+ EXPLAIN (ANALYZE, SERIALIZE) -- measure cost of serializing the result to the wire format (binary or text).", "EXPLAIN (ANALYZE, SERIALIZE) SELECT * FROM big_table;", "sql-explain.html"));
    t.insert(keyword("SERIALIZE binary", "EXPLAIN (SERIALIZE binary) -- account for serialization to BINARY wire format.", "EXPLAIN (ANALYZE, SERIALIZE binary) SELECT ...;", "sql-explain.html"));
    t.insert(keyword("SERIALIZE text", "EXPLAIN (SERIALIZE text) -- account for serialization to TEXT wire format.", "EXPLAIN (ANALYZE, SERIALIZE text) SELECT ...;", "sql-explain.html"));
    t.insert(keyword("EXPLAIN MEMORY", "PG17+ EXPLAIN (MEMORY) -- report planner / executor memory usage.", "EXPLAIN (ANALYZE, MEMORY) SELECT ...;", "sql-explain.html"));
    t.insert(keyword("LARGE OBJECTS IN SCHEMA", "GRANT ... ON ALL LARGE OBJECTS IN SCHEMA <schema> -- batch grant across all LOs in a schema (PG17+).", "GRANT SELECT ON ALL LARGE OBJECTS IN SCHEMA public TO ro_role;", "sql-grant.html"));
    t.insert(keyword("ALL LARGE OBJECTS", "GRANT/REVOKE ON ALL LARGE OBJECTS -- bulk LO privilege change.", "GRANT SELECT ON ALL LARGE OBJECTS TO ro;", "sql-grant.html"));
    t.insert(keyword("CAST AS", "CAST(<expr> AS <type>) -- explicit type conversion.", "SELECT CAST(price AS numeric(10,2)) FROM t;", "sql-expressions.html#SQL-SYNTAX-TYPE-CASTS"));
    t.insert(keyword("AS DECIMAL", "CAST(... AS DECIMAL(p, s)) -- alias of NUMERIC.", "SELECT CAST(x AS DECIMAL(10,2));", "datatype-numeric.html"));
    t.insert(keyword("AS TEXT", "CAST(... AS TEXT) -- to TEXT.", "SELECT CAST(id AS TEXT);", "datatype-character.html"));
    t.insert(keyword("AS NUMERIC", "CAST(... AS NUMERIC(p, s)) -- exact decimal.", "SELECT CAST(x AS NUMERIC(10,2));", "datatype-numeric.html"));
    t.insert(keyword("AS INT", "CAST(... AS INT) -- alias of INTEGER.", "SELECT CAST(price AS INT);", "datatype-numeric.html"));
    t.insert(keyword("AS BIGINT", "CAST(... AS BIGINT) -- 8-byte signed integer.", "SELECT CAST(price AS BIGINT);", "datatype-numeric.html"));
    t.insert(keyword("AS BOOLEAN", "CAST(... AS BOOLEAN) -- truthiness conversion.", "SELECT CAST(flag AS BOOLEAN);", "datatype-boolean.html"));
    t.insert(keyword("AS JSONB", "CAST(... AS JSONB) -- to binary JSON.", "SELECT CAST(payload AS JSONB);", "datatype-json.html"));
    t.insert(keyword("AS JSON", "CAST(... AS JSON) -- to text JSON (rarely needed; prefer JSONB).", "SELECT CAST(payload AS JSON);", "datatype-json.html"));
    t.insert(keyword("AS DATE", "CAST(... AS DATE) -- strip time component.", "SELECT CAST(ts AS DATE);", "datatype-datetime.html"));
    t.insert(keyword("AS TIME", "CAST(... AS TIME) -- time of day.", "SELECT CAST(ts AS TIME);", "datatype-datetime.html"));
    t.insert(keyword("AS TIMESTAMP", "CAST(... AS TIMESTAMP) -- timestamp WITHOUT time zone.", "SELECT CAST(ts AS TIMESTAMP);", "datatype-datetime.html"));
    t.insert(keyword("AS TIMESTAMPTZ", "CAST(... AS TIMESTAMPTZ) -- timestamp WITH time zone.", "SELECT CAST(ts AS TIMESTAMPTZ);", "datatype-datetime.html"));
    t.insert(keyword("GENERATED ALWAYS AS IDENTITY", "<col> <type> GENERATED ALWAYS AS IDENTITY -- system-generated identity, OVERRIDING SYSTEM VALUE required to override.", "id int GENERATED ALWAYS AS IDENTITY PRIMARY KEY", "sql-createtable.html"));
    t.insert(keyword("GENERATED BY DEFAULT AS IDENTITY", "<col> <type> GENERATED BY DEFAULT AS IDENTITY -- system-generated identity, user value accepted.", "id int GENERATED BY DEFAULT AS IDENTITY PRIMARY KEY", "sql-createtable.html"));
    t.insert(keyword("ASC NULLS FIRST", "ORDER BY <col> ASC NULLS FIRST -- ascending with NULLs first.", "SELECT * FROM t ORDER BY id ASC NULLS FIRST;", "sql-select.html"));
    t.insert(keyword("ASC NULLS LAST", "ORDER BY <col> ASC NULLS LAST -- ascending with NULLs last (default for ASC).", "SELECT * FROM t ORDER BY id ASC NULLS LAST;", "sql-select.html"));
    t.insert(keyword("DESC NULLS FIRST", "ORDER BY <col> DESC NULLS FIRST -- descending with NULLs first (default for DESC).", "SELECT * FROM t ORDER BY id DESC NULLS FIRST;", "sql-select.html"));
    t.insert(keyword("DESC NULLS LAST", "ORDER BY <col> DESC NULLS LAST -- descending with NULLs last.", "SELECT * FROM t ORDER BY id DESC NULLS LAST;", "sql-select.html"));
    t.insert(keyword("ORDER BY ALL", "ORDER BY ALL -- non-PG extension (Snowflake/MySQL): order by every output column.", "-- unsupported in PG", "sql-select.html"));
    t.insert(keyword("BETWEEN SYMMETRIC", "<expr> BETWEEN SYMMETRIC <a> AND <b> -- swap a/b if a > b before checking.", "WHERE age BETWEEN SYMMETRIC 18 AND 65", "functions-comparison.html"));
    t.insert(keyword("BETWEEN ASYMMETRIC", "<expr> BETWEEN ASYMMETRIC <a> AND <b> -- default; refuse if a > b.", "WHERE age BETWEEN ASYMMETRIC 18 AND 65", "functions-comparison.html"));
    t.insert(keyword("NOT BETWEEN", "<expr> NOT BETWEEN <a> AND <b>.", "WHERE age NOT BETWEEN 18 AND 65", "functions-comparison.html"));
    t.insert(keyword("NOT BETWEEN SYMMETRIC", "<expr> NOT BETWEEN SYMMETRIC <a> AND <b>.", "WHERE age NOT BETWEEN SYMMETRIC 18 AND 65", "functions-comparison.html"));
    t.insert(keyword("NOT LIKE", "<expr> NOT LIKE '<pattern>' -- negated LIKE.", "WHERE email NOT LIKE '%@example.com'", "functions-matching.html"));
    t.insert(keyword("NOT ILIKE", "<expr> NOT ILIKE '<pattern>' -- negated case-insensitive LIKE.", "WHERE email NOT ILIKE '%@example.com'", "functions-matching.html"));
    t.insert(keyword("NOT SIMILAR TO", "<expr> NOT SIMILAR TO '<regex>' -- negated SIMILAR TO.", "WHERE name NOT SIMILAR TO '%(foo|bar)%'", "functions-matching.html"));
    t.insert(keyword("NOT IN", "<expr> NOT IN (<list> | <subq>) -- negated IN.", "WHERE id NOT IN (1, 2, 3)", "functions-comparison.html"));
    t.insert(keyword("NOT EXISTS", "NOT EXISTS (<subquery>) -- negated EXISTS.", "WHERE NOT EXISTS (SELECT 1 FROM t WHERE t.id = x.id)", "functions-comparison.html"));
    t.insert(keyword("ANY ARRAY", "<expr> = ANY (<array>) -- match any element.", "WHERE id = ANY ('{1,2,3}'::int[])", "functions-comparisons.html"));
    t.insert(keyword("ALL ARRAY", "<expr> <> ALL (<array>) -- distinct from every element.", "WHERE id <> ALL ('{1,2,3}'::int[])", "functions-comparisons.html"));
    t.insert(keyword("OFFSET ROWS", "OFFSET <n> ROWS -- SQL standard form of OFFSET.", "SELECT * FROM t OFFSET 20 ROWS;", "sql-select.html"));
    t.insert(keyword("OFFSET ROW", "OFFSET <n> ROW -- SQL standard form of OFFSET (singular form).", "SELECT * FROM t OFFSET 1 ROW;", "sql-select.html"));
    t.insert(keyword("FIRST ROWS", "FETCH FIRST <n> ROWS -- SQL standard limit clause.", "SELECT * FROM t FETCH FIRST 10 ROWS ONLY;", "sql-select.html"));
    t.insert(keyword("FIRST ROW", "FETCH FIRST <n> ROW -- SQL standard limit clause (singular form).", "SELECT * FROM t FETCH FIRST 1 ROW ONLY;", "sql-select.html"));
    t.insert(keyword("NEXT ROWS", "FETCH NEXT <n> ROWS -- SQL standard limit clause.", "SELECT * FROM t FETCH NEXT 10 ROWS ONLY;", "sql-select.html"));
    t.insert(keyword("NEXT ROW", "FETCH NEXT <n> ROW -- SQL standard limit clause (singular form).", "SELECT * FROM t FETCH NEXT 1 ROW ONLY;", "sql-select.html"));
    t.insert(keyword("IS TRUE", "<expr> IS TRUE -- handles NULL as NOT TRUE.", "WHERE flag IS TRUE", "functions-comparison.html"));
    t.insert(keyword("IS NOT TRUE", "<expr> IS NOT TRUE -- true when NULL or false.", "WHERE flag IS NOT TRUE", "functions-comparison.html"));
    t.insert(keyword("IS FALSE", "<expr> IS FALSE.", "WHERE flag IS FALSE", "functions-comparison.html"));
    t.insert(keyword("IS NOT FALSE", "<expr> IS NOT FALSE -- true when NULL or true.", "WHERE flag IS NOT FALSE", "functions-comparison.html"));
    t.insert(keyword("IS UNKNOWN", "<expr> IS UNKNOWN -- same as IS NULL for boolean expressions.", "WHERE flag IS UNKNOWN", "functions-comparison.html"));
}

fn part_18(t: &mut Table)
    requires
        old(t).wf(),
        old(t).table_kind() == Kind::Keyword,
    ensures
        final(t).wf(),
        final(t).table_kind() == Kind::Keyword,
        final(t).contents() == keyword_part_18(old(t).contents()),
{
    t.insert(keyword("IS NOT UNKNOWN", "<expr> IS NOT UNKNOWN -- same as IS NOT NULL for boolean expressions.", "WHERE flag IS NOT UNKNOWN", "functions-comparison.html"));
    t.insert(keyword("IS DOCUMENT", "<xml> IS DOCUMENT -- true when value is a well-formed XML document.", "WHERE col IS DOCUMENT", "functions-xml.html"));
    t.insert(keyword("IS NOT DOCUMENT", "<xml> IS NOT DOCUMENT.", "WHERE col IS NOT DOCUMENT", "functions-xml.html"));
    t.insert(keyword("IS NORMALIZED", "<text> IS [NFC|NFD|NFKC|NFKD] NORMALIZED -- Unicode normalization test (PG13+).", "WHERE col IS NFC NORMALIZED", "functions-string.html"));
    t.insert(keyword("IS NOT NORMALIZED", "<text> IS NOT [NFC|NFD|NFKC|NFKD] NORMALIZED.", "WHERE col IS NOT NORMALIZED", "functions-string.html"));
    t.insert(keyword("IS OF", "<expr> IS OF (type[, ...]) -- type membership check (rarely used).", "WHERE x IS OF (text, varchar)", "functions-comparison.html"));
    t.insert(keyword("IS NOT OF", "<expr> IS NOT OF (type[, ...]).", "WHERE x IS NOT OF (text)", "functions-comparison.html"));
    t.insert(keyword("EXTRACT FROM", "EXTRACT(<field> FROM <source>) -- extract date/time field.", "SELECT EXTRACT(YEAR FROM now());", "functions-datetime.html#FUNCTIONS-DATETIME-EXTRACT"));
    t.insert(keyword("OVERLAY PLACING", "OVERLAY(<src> PLACING <new> FROM <start> [FOR <count>]) -- splice.", "SELECT OVERLAY('Txxxxas' PLACING 'hom' FROM 2 FOR 4);", "functions-string.html"));
    t.insert(keyword("POSITION IN", "POSITION(<needle> IN <haystack>) -- alias of strpos.", "SELECT POSITION('o' IN 'foo');", "functions-string.html"));
    t.insert(keyword("SUBSTRING FROM", "SUBSTRING(<src> FROM <start>) -- alias of substr.", "SELECT SUBSTRING('foobar' FROM 4);", "functions-string.html"));
    t.insert(keyword("SUBSTRING FOR", "SUBSTRING(<src> FOR <count>) -- alias of left.", "SELECT SUBSTRING('foobar' FOR 3);", "functions-string.html"));
    t.insert(keyword("TRIM FROM", "TRIM([BOTH|LEADING|TRAILING] [<chars>] FROM <text>).", "SELECT TRIM(BOTH 'x' FROM 'xxhellxx');", "functions-string.html"));
    t.insert(keyword("TRIM LEADING", "TRIM(LEADING [<chars>] FROM <text>).", "SELECT TRIM(LEADING ' ' FROM '  hello');", "functions-string.html"));
    t.insert(keyword("TRIM TRAILING", "TRIM(TRAILING [<chars>] FROM <text>).", "SELECT TRIM(TRAILING ' ' FROM 'hello  ');", "functions-string.html"));
    t.insert(keyword("TRIM BOTH", "TRIM(BOTH [<chars>] FROM <text>) -- same as default TRIM.", "SELECT TRIM(BOTH ' ' FROM '  hello  ');", "functions-string.html"));
    t.insert(keyword("COLLATION FOR", "COLLATION FOR (<expr>) -> text -- collation name derived from expression.", "SELECT COLLATION FOR ('hi'::text);", "functions-info.html"));
    t.insert(keyword("TYPE COERCION", "PG type coercion -- documented in the type-cast grammar; not a standalone keyword phrase.", "-- see CAST / ::", "typeconv.html"));
    t.insert(keyword("XML PARSE", "XMLPARSE({DOCUMENT|CONTENT} <text>) -- parse text as XML.", "SELECT XMLPARSE(DOCUMENT '<r/>');", "functions-xml.html"));
    t.insert(keyword("XML SERIALIZE", "XMLSERIALIZE({DOCUMENT|CONTENT} <xml> AS <text_type>).", "SELECT XMLSERIALIZE(DOCUMENT payload AS text);", "functions-xml.html"));
    t.insert(keyword("WITHIN GROUP ORDER BY", "<agg>(...) WITHIN GROUP (ORDER BY <key>) -- ordered-set aggregate.", "SELECT percentile_cont(0.5) WITHIN GROUP (ORDER BY salary) FROM emp;", "functions-aggregate.html"));
    t.insert(keyword("FILTER WHERE", "<agg>(...) FILTER (WHERE <pred>) -- selectively count.", "SELECT count(*) FILTER (WHERE flag) FROM t;", "sql-expressions.html#SYNTAX-AGGREGATES"));
    t.insert(keyword("OVER WINDOW", "<win_fn>(...) OVER <window_name> -- reference a named WINDOW clause.", "SELECT id, row_number() OVER w FROM t WINDOW w AS (PARTITION BY uid ORDER BY ts);", "sql-expressions.html#SYNTAX-WINDOW-FUNCTIONS"));
    t.insert(keyword("OVER PARTITION", "<win_fn>(...) OVER (PARTITION BY ...) -- inline window definition.", "SELECT row_number() OVER (PARTITION BY uid ORDER BY ts) FROM t;", "sql-expressions.html#SYNTAX-WINDOW-FUNCTIONS"));
    t.insert(keyword("LIMIT ALL", "LIMIT ALL -- explicit no-limit.", "SELECT * FROM t LIMIT ALL;", "sql-select.html"));
    t.insert(keyword("LIMIT NULL", "LIMIT NULL -- same as LIMIT ALL (no limit).", "SELECT * FROM t LIMIT NULL;", "sql-select.html"));
    t.insert(keyword("FETCH FIRST ROW ONLY", "FETCH FIRST 1 ROW ONLY -- singular form.", "SELECT * FROM t FETCH FIRST 1 ROW ONLY;", "sql-select.html"));
    t.insert(keyword("FETCH NEXT ROW ONLY", "FETCH NEXT 1 ROW ONLY.", "SELECT * FROM t FETCH NEXT 1 ROW ONLY;", "sql-select.html"));
    t.insert(keyword("FETCH FIRST ROWS ONLY", "FETCH FIRST <n> ROWS ONLY.", "SELECT * FROM t FETCH FIRST 10 ROWS ONLY;", "sql-select.html"));
    t.insert(keyword("FETCH NEXT ROWS ONLY", "FETCH NEXT <n> ROWS ONLY.", "SELECT * FROM t FETCH NEXT 10 ROWS ONLY;", "sql-select.html"));
    t.insert(keyword("WITH OIDS", "CREATE TABLE ... WITH OIDS -- removed in PG12+. Modern code uses ctid.", "-- legacy: CREATE TABLE t (...) WITH OIDS;", "sql-createtable.html"));
    t.insert(keyword("WITHOUT OIDS", "CREATE TABLE ... WITHOUT OIDS -- default since PG12+ (the WITH OIDS option is gone).", "CREATE TABLE t (...) WITHOUT OIDS;", "sql-createtable.html"));
    t.insert(keyword("WITH OWNER", "CREATE DATABASE ... [WITH] OWNER <role>.", "CREATE DATABASE mydb OWNER alice;", "sql-createdatabase.html"));
    t.insert(keyword("OWNED BY NONE", "ALTER SEQUENCE ... OWNED BY NONE -- detach the sequence from any column.", "ALTER SEQUENCE s OWNED BY NONE;", "sql-altersequence.html"));
    t.insert(keyword("AS ON", "CREATE RULE ... AS ON <event> -- AS introduces the ON event in CREATE RULE.", "CREATE RULE r AS ON SELECT TO v DO INSTEAD SELECT 1;", "sql-createrule.html"));
    t.insert(keyword("DO INSTEAD", "CREATE RULE ... DO INSTEAD { NOTHING | <command> } -- replace original DML with this action.", "DO INSTEAD NOTHING", "sql-createrule.html"));
    t.insert(keyword("DO INSTEAD NOTHING", "CREATE RULE ... DO INSTEAD NOTHING -- swallow the original DML.", "CREATE RULE r AS ON INSERT TO v DO INSTEAD NOTHING;", "sql-createrule.html"));
    t.insert(keyword("DO ALSO", "CREATE RULE ... DO ALSO <command> -- run an extra action alongside the DML.", "CREATE RULE r AS ON INSERT TO v DO ALSO INSERT INTO audit ...;", "sql-createrule.html"));
    t.insert(keyword("ON SELECT", "CREATE RULE / VIEW ... ON SELECT -- VIEW-implementing rule.", "CREATE RULE _RETURN AS ON SELECT TO v DO INSTEAD SELECT ...;", "sql-createrule.html"));
    t.insert(keyword("ON INSERT", "CREATE RULE ... ON INSERT TO <table> DO ... -- INSERT-event rule.", "CREATE RULE r AS ON INSERT TO v DO ALSO log_insert();", "sql-createrule.html"));
    t.insert(keyword("EVENT TRIGGER DDL_COMMAND_START", "Event trigger event firing before a DDL.", "CREATE EVENT TRIGGER trg ON ddl_command_start EXECUTE FUNCTION fn();", "event-trigger-overview.html"));
    t.insert(keyword("EVENT TRIGGER DDL_COMMAND_END", "Event trigger event firing after a DDL.", "CREATE EVENT TRIGGER trg ON ddl_command_end EXECUTE FUNCTION fn();", "event-trigger-overview.html"));
    t.insert(keyword("EVENT TRIGGER SQL_DROP", "Event trigger event firing after a DROP.", "CREATE EVENT TRIGGER trg ON sql_drop EXECUTE FUNCTION audit_drop();", "event-trigger-overview.html"));
    t.insert(keyword("EVENT TRIGGER TABLE_REWRITE", "Event trigger event firing when a DDL rewrites a table.", "CREATE EVENT TRIGGER trg ON table_rewrite EXECUTE FUNCTION audit_rewrite();", "event-trigger-overview.html"));
    t.insert(keyword("DEFAULT NULL", "<col> <type> DEFAULT NULL -- explicit null default.", "deleted_at timestamptz DEFAULT NULL", "sql-createtable.html"));
    t.insert(keyword("DEFAULT TRUE", "<col> boolean DEFAULT TRUE.", "active boolean DEFAULT TRUE", "sql-createtable.html"));
    t.insert(keyword("DEFAULT FALSE", "<col> boolean DEFAULT FALSE.", "deleted boolean DEFAULT FALSE", "sql-createtable.html"));
    t.insert(keyword("CHECK NOT VALID", "ADD CONSTRAINT ... CHECK (...) NOT VALID -- skip the up-front scan.", "ALTER TABLE t ADD CONSTRAINT ck_age CHECK (age >= 0) NOT VALID;", "sql-altertable.html"));
    t.insert(keyword("ADD CHECK", "ALTER TABLE ... ADD CHECK (<expr>) -- unnamed check constraint.", "ALTER TABLE t ADD CHECK (price > 0);", "sql-altertable.html"));
    t.insert(keyword("ADD UNIQUE", "ALTER TABLE ... ADD UNIQUE (<cols>) -- unnamed unique constraint.", "ALTER TABLE t ADD UNIQUE (email);", "sql-altertable.html"));
    t.insert(keyword("ADD PRIMARY KEY", "ALTER TABLE ... ADD PRIMARY KEY (<cols>) -- unnamed primary key.", "ALTER TABLE t ADD PRIMARY KEY (id);", "sql-altertable.html"));
    t.insert(keyword("ADD FOREIGN KEY", "ALTER TABLE ... ADD FOREIGN KEY (<cols>) REFERENCES <other>(<cols>) -- unnamed FK.", "ALTER TABLE child ADD FOREIGN KEY (parent_id) REFERENCES parent(id);", "sql-altertable.html"));
    t.insert(keyword("ADD EXCLUDE", "ALTER TABLE ... ADD EXCLUDE USING <method> (<col> WITH <op>, ...) -- exclusion constraint.", "ALTER TABLE bookings ADD EXCLUDE USING gist (room WITH =, during WITH &&);", "sql-createtable.html"));
    t.insert(keyword("BIT VARYING", "BIT VARYING(<n>) -- SQL-standard spelling of VARBIT.", "v BIT VARYING(8)", "datatype-bit.html"));
    t.insert(keyword("CHARACTER VARYING", "CHARACTER VARYING(<n>) -- SQL-standard spelling of VARCHAR.", "name CHARACTER VARYING(255)", "datatype-character.html"));
    t.insert(keyword("DOUBLE PRECISION", "DOUBLE PRECISION -- 8-byte IEEE float (alias FLOAT8).", "ratio DOUBLE PRECISION", "datatype-numeric.html"));
    t.insert(keyword("WITH TIME ZONE", "TIME / TIMESTAMP WITH TIME ZONE -- store + retrieve with zone awareness.", "ts TIMESTAMP WITH TIME ZONE", "datatype-datetime.html"));
    t.insert(keyword("WITHOUT TIME ZONE", "TIME / TIMESTAMP WITHOUT TIME ZONE -- store the raw value (default).", "ts TIMESTAMP WITHOUT TIME ZONE", "datatype-datetime.html"));
    t.insert(keyword("TIME WITH TIME ZONE", "Standard spelling of TIMETZ.", "open_at TIME WITH TIME ZONE", "datatype-datetime.html"));
    t.insert(keyword("TIME WITHOUT TIME ZONE", "Standard spelling of TIME.", "open_at TIME WITHOUT TIME ZONE", "datatype-datetime.html"));
    t.insert(keyword("TIMESTAMP WITH TIME ZONE", "Standard spelling of TIMESTAMPTZ.", "ts TIMESTAMP WITH TIME ZONE", "datatype-datetime.html"));
    t.insert(keyword("TIMESTAMP WITHOUT TIME ZONE", "Standard spelling of TIMESTAMP.", "ts TIMESTAMP WITHOUT TIME ZONE", "datatype-datetime.html"));
    t.insert(keyword("REFERENCES OLD", "Trigger REFERENCING OLD AS <alias> / OLD TABLE AS <alias>.", "REFERENCING OLD TABLE AS old_rows", "sql-createtrigger.html"));
    t.insert(keyword("REFERENCES NEW", "Trigger REFERENCING NEW AS <alias> / NEW TABLE AS <alias>.", "REFERENCING NEW TABLE AS new_rows", "sql-createtrigger.html"));
    t.insert(keyword("USING JOIN", "FROM ... [type] JOIN <other> USING (col[, ...]) -- common-column join.", "SELECT * FROM a JOIN b USING (id);", "queries-table-expressions.html"));
    t.insert(keyword("AS QUERY", "PREPARE / CREATE PROCEDURE / CREATE VIEW ... AS <query> -- introduces the prepared statement or body.", "PREPARE plan AS SELECT * FROM t;", "sql-prepare.html"));
    t.insert(keyword("DEFAULT EXPRESSION", "<col> <type> DEFAULT <expr> -- column default expression.", "id uuid DEFAULT gen_random_uuid()", "sql-createtable.html"));
    t.insert(keyword("STORED EXPRESSION", "<col> <type> GENERATED ALWAYS AS (<expr>) STORED -- materialised computed column.", "total numeric GENERATED ALWAYS AS (qty * price) STORED", "ddl-generated-columns.html"));
    t.insert(keyword("PRIMARY KEY", "PRIMARY KEY [(<cols>)] -- column/table constraint; implies NOT NULL + UNIQUE, builds a btree.", "id uuid PRIMARY KEY DEFAULT gen_random_uuid()", "ddl-constraints.html#DDL-CONSTRAINTS-PRIMARY-KEYS"));
    t.insert(keyword("FOREIGN KEY", "FOREIGN KEY (<col>[, ...]) REFERENCES <ref_table>[(<ref_col>[, ...])] [ON DELETE ...] [ON UPDATE ...] [MATCH ...].", "FOREIGN KEY (uid) REFERENCES users(id) ON DELETE CASCADE", "ddl-constraints.html#DDL-CONSTRAINTS-FK"));
    t.insert(keyword("EXCLUDE USING", "EXCLUDE USING <method> (<col> WITH <op>[, ...]) -- index-backed exclusion constraint.", "EXCLUDE USING gist (room WITH =, period WITH &&)", "ddl-constraints.html#DDL-CONSTRAINTS-EXCLUSION"));
    t.insert(keyword("UNIQUE NULLS NOT DISTINCT", "PG15+: UNIQUE NULLS NOT DISTINCT -- treat NULL == NULL for uniqueness check.", "CREATE UNIQUE INDEX i ON t (x) NULLS NOT DISTINCT", "sql-createtable.html#SQL-CREATETABLE-UNIQUE"));
    t.insert(keyword("AT TIME ZONE", "<timestamptz> AT TIME ZONE '<tz>' -- convert between zones (or rotate a timestamp into a zone).", "SELECT now() AT TIME ZONE 'UTC';", "functions-datetime.html#FUNCTIONS-DATETIME-ZONECONVERT"));
    t.insert(keyword("WITH ORDINALITY", "FROM <srf>(...) WITH ORDINALITY -- append a `ordinality` bigint column numbering output rows 1..N.", "SELECT * FROM unnest(ARRAY['a','b']) WITH ORDINALITY AS u(v, idx);", "queries-table-expressions.html#QUERIES-TABLEFUNCTIONS"));
    t.insert(keyword("AS MATERIALIZED", "WITH cte AS MATERIALIZED (<body>) ... -- force the CTE to materialise (default for recursive / multiple uses).", "WITH big AS MATERIALIZED (SELECT * FROM heavy_query) SELECT * FROM big WHERE active;", "queries-with.html#QUERIES-WITH-MATERIALIZATION"));
}

fn part_19(t: &mut Table)
    requires
        old(t).wf(),
        old(t).table_kind() == Kind::Keyword,
    ensures
        final(t).wf(),
        final(t).table_kind() == Kind::Keyword,
        final(t).contents() == keyword_part_19(old(t).contents()),
{
    t.insert(keyword("AS NOT MATERIALIZED", "WITH cte AS NOT MATERIALIZED (<body>) ... -- planner may inline the CTE body into the main query.", "WITH cheap AS NOT MATERIALIZED (SELECT id FROM t WHERE active) SELECT * FROM cheap;", "queries-with.html#QUERIES-WITH-MATERIALIZATION"));
    t.insert(keyword("FORCE NULL", "COPY ... WITH (FORCE_NULL (<col>[, ...])) -- treat the quoted form of NULL as NULL for these CSV columns.", "COPY t FROM '/tmp/d.csv' WITH (FORMAT csv, FORCE_NULL (notes));", "sql-copy.html"));
}

/// What the keyword table holds: every keyword entry listed in this file.
pub closed spec fn keyword_map() -> Map<Seq<char>, EntryV> {
    keyword_part_19(keyword_part_18(keyword_part_17(keyword_part_16(keyword_part_15(keyword_part_14(keyword_part_13(keyword_part_12(keyword_part_11(keyword_part_10(keyword_part_9(keyword_part_8(keyword_part_7(keyword_part_6(keyword_part_5(keyword_part_4(keyword_part_3(keyword_part_2(keyword_part_1(keyword_part_0(Map::<Seq<char>, EntryV>::empty()))))))))))))))))))))
}

spec fn keyword_part_0(m: Map<Seq<char>, EntryV>) -> Map<Seq<char>, EntryV> {
    m
        .insert("SELECT"@, keyword_v("SELECT"@, "Retrieve rows from one or more tables, views, or subqueries."@, "SELECT id, name FROM users WHERE active = true;"@, "sql-select.html"@))
        .insert("FROM"@, keyword_v("FROM"@, "List the tables, views, or subqueries the SELECT reads from."@, "SELECT * FROM users u JOIN orders o ON o.user_id = u.id;"@, "sql-select.html#SQL-FROM"@))
        .insert("WHERE"@, keyword_v("WHERE"@, "Filter rows by a boolean expression. Applied before GROUP BY."@, "SELECT * FROM users WHERE created_at > now() - interval '7 days';"@, "sql-select.html#SQL-WHERE"@))
        .insert("GROUP BY"@, keyword_v("GROUP BY"@, "Group rows that share values in the listed columns."@, "SELECT user_id, count(*) FROM orders GROUP BY user_id;"@, "sql-select.html#SQL-GROUPBY"@))
        .insert("HAVING"@, keyword_v("HAVING"@, "Filter groups produced by GROUP BY. Like WHERE but on aggregates."@, "SELECT user_id, count(*) FROM orders GROUP BY user_id HAVING count(*) > 5;"@, "sql-select.html#SQL-HAVING"@))
        .insert("ORDER BY"@, keyword_v("ORDER BY"@, "Sort the result set. ASC or DESC per key."@, "SELECT * FROM users ORDER BY created_at DESC NULLS LAST;"@, "sql-select.html#SQL-ORDERBY"@))
        .insert("LIMIT"@, keyword_v("LIMIT"@, "Restrict the number of returned rows."@, "SELECT * FROM users ORDER BY id LIMIT 50 OFFSET 100;"@, "sql-select.html#SQL-LIMIT"@))
        .insert("OFFSET"@, keyword_v("OFFSET"@, "Skip the first N rows. Combine with LIMIT for pagination."@, "SELECT * FROM users ORDER BY id LIMIT 50 OFFSET 100;"@, "sql-select.html#SQL-LIMIT"@))
        .insert("DISTINCT"@, keyword_v("DISTINCT"@, "Eliminate duplicate rows."@, "SELECT DISTINCT country FROM users;"@, "sql-select.html#SQL-DISTINCT"@))
        .insert("UNION"@, keyword_v("UNION"@, "Combine result sets, removing duplicates. UNION ALL is faster."@, "SELECT id FROM a UNION ALL SELECT id FROM b;"@, "queries-union.html"@))
        .insert("WITH"@, keyword_v("WITH"@, "Common Table Expression (CTE). Define a named temporary result set."@, "WITH recent AS (SELECT * FROM users WHERE active) SELECT count(*) FROM recent;"@, "queries-with.html"@))
        .insert("INNER JOIN"@, keyword_v("INNER JOIN"@, "Return rows where the ON predicate matches in both tables."@, "SELECT u.name, o.total FROM users u INNER JOIN orders o ON o.user_id = u.id;"@, "queries-table-expressions.html#QUERIES-JOIN"@))
        .insert("LEFT JOIN"@, keyword_v("LEFT JOIN"@, "Keep every row from the left table. Unmatched right side is NULL."@, "SELECT u.id, o.id FROM users u LEFT JOIN orders o ON o.user_id = u.id;"@, "queries-table-expressions.html#QUERIES-JOIN"@))
        .insert("RIGHT JOIN"@, keyword_v("RIGHT JOIN"@, "Keep every row from the right table. Unmatched left side is NULL."@, "SELECT u.id, o.id FROM users u RIGHT JOIN orders o ON o.user_id = u.id;"@, "queries-table-expressions.html#QUERIES-JOIN"@))
        .insert("FULL OUTER JOIN"@, keyword_v("FULL OUTER JOIN"@, "Keep every row from both sides. Unmatched columns become NULL."@, "SELECT * FROM a FULL OUTER JOIN b ON a.id = b.a_id;"@, "queries-table-expressions.html#QUERIES-JOIN"@))
        .insert("CROSS JOIN"@, keyword_v("CROSS JOIN"@, "Cartesian product. Every row of left paired with every row of right."@, "SELECT * FROM colors CROSS JOIN sizes;"@, "queries-table-expressions.html#QUERIES-JOIN"@))
        .insert("LATERAL"@, keyword_v("LATERAL"@, "Allow a subquery in FROM to reference columns from earlier FROM items."@, "SELECT u.id FROM users u, LATERAL (SELECT title FROM posts WHERE user_id = u.id LIMIT 1) p;"@, "queries-table-expressions.html#QUERIES-LATERAL"@))
        .insert("ON"@, keyword_v("ON"@, "JOIN predicate. Boolean expression evaluated per row pair."@, "JOIN orders o ON o.user_id = u.id"@, "queries-table-expressions.html#QUERIES-JOIN"@))
        .insert("AS"@, keyword_v("AS"@, "Alias a column, expression, table, or CTE."@, "SELECT count(*) AS n FROM users AS u;"@, "sql-select.html"@))
        .insert("INSERT INTO"@, keyword_v("INSERT INTO"@, "Insert new rows. Combine with RETURNING to get generated columns back."@, "INSERT INTO users (name) VALUES ('alice') RETURNING id;"@, "sql-insert.html"@))
        .insert("VALUES"@, keyword_v("VALUES"@, "List of literal row tuples to insert."@, "INSERT INTO users (name) VALUES ('a'), ('b');"@, "sql-insert.html"@))
        .insert("UPDATE"@, keyword_v("UPDATE"@, "Modify existing rows. Skipping WHERE updates every row."@, "UPDATE users SET active = false WHERE last_seen < now() - interval '1 year';"@, "sql-update.html"@))
        .insert("SET"@, keyword_v("SET"@, "List column = expression pairs for UPDATE."@, "UPDATE users SET name = 'bob' WHERE id = $1;"@, "sql-update.html"@))
        .insert("DELETE FROM"@, keyword_v("DELETE FROM"@, "Remove rows. RETURNING shows what was deleted."@, "DELETE FROM sessions WHERE expires_at < now();"@, "sql-delete.html"@))
        .insert("RETURNING"@, keyword_v("RETURNING"@, "Get column values from INSERT / UPDATE / DELETE."@, "INSERT INTO users (name) VALUES ('alice') RETURNING id, created_at;"@, "sql-insert.html#SQL-ON-CONFLICT"@))
        .insert("ON CONFLICT"@, keyword_v("ON CONFLICT"@, "Upsert. Specify what to do when a unique constraint would be violated."@, "INSERT INTO users (email) VALUES ('a') ON CONFLICT (email) DO UPDATE SET name = EXCLUDED.name;"@, "sql-insert.html#SQL-ON-CONFLICT"@))
        .insert("CREATE TABLE"@, keyword_v("CREATE TABLE"@, "Create a new table. Add IF NOT EXISTS to make idempotent."@, "CREATE TABLE IF NOT EXISTS users (id UUID PRIMARY KEY DEFAULT gen_random_uuid());"@, "sql-createtable.html"@))
        .insert("CREATE INDEX"@, keyword_v("CREATE INDEX"@, "Create a B-tree index by default."@, "CREATE INDEX idx_users_email ON users (email);"@, "sql-createindex.html"@))
        .insert("CREATE VIEW"@, keyword_v("CREATE VIEW"@, "Define a virtual table backed by a SELECT."@, "CREATE VIEW active_users AS SELECT * FROM users WHERE deleted_at IS NULL;"@, "sql-createview.html"@))
        .insert("ALTER TABLE"@, keyword_v("ALTER TABLE"@, "Modify a table: add/drop columns, rename, change types."@, "ALTER TABLE users ADD COLUMN role TEXT NOT NULL DEFAULT 'user';"@, "sql-altertable.html"@))
        .insert("DROP TABLE"@, keyword_v("DROP TABLE"@, "Remove a table. CASCADE removes dependent objects."@, "DROP TABLE IF EXISTS users CASCADE;"@, "sql-droptable.html"@))
        .insert("REFERENCES"@, keyword_v("REFERENCES"@, "Short form of FOREIGN KEY when used inline on a column."@, "user_id UUID NOT NULL REFERENCES users(id) ON DELETE CASCADE"@, "ddl-constraints.html#DDL-CONSTRAINTS-FK"@))
        .insert("UNIQUE"@, keyword_v("UNIQUE"@, "No two rows share the same value in the listed column(s)."@, "email TEXT UNIQUE NOT NULL"@, "ddl-constraints.html#DDL-CONSTRAINTS-UNIQUE-CONSTRAINTS"@))
        .insert("CHECK"@, keyword_v("CHECK"@, "Row-level constraint expressed as a boolean expression."@, "CONSTRAINT ch_email CHECK (lower(email) = email)"@, "ddl-constraints.html#DDL-CONSTRAINTS-CHECK-CONSTRAINTS"@))
        .insert("NOT NULL"@, keyword_v("NOT NULL"@, "Column may never be NULL."@, "name TEXT NOT NULL"@, "ddl-constraints.html#id-1.5.4.6.6"@))
        .insert("CASCADE"@, keyword_v("CASCADE"@, "ON DELETE / ON UPDATE action: also delete / update referencing rows."@, "REFERENCES users(id) ON DELETE CASCADE"@, "ddl-constraints.html#DDL-CONSTRAINTS-FK"@))
        .insert("AND"@, keyword_v("AND"@, "Logical AND. Short-circuits."@, "WHERE active AND email IS NOT NULL"@, "functions-logical.html"@))
        .insert("OR"@, keyword_v("OR"@, "Logical OR. Short-circuits."@, "WHERE role = 'admin' OR is_staff"@, "functions-logical.html"@))
        .insert("NOT"@, keyword_v("NOT"@, "Logical NOT. Negates a boolean."@, "WHERE NOT (deleted_at IS NULL)"@, "functions-logical.html"@))
        .insert("IS NULL"@, keyword_v("IS NULL"@, "True when expression is NULL."@, "WHERE deleted_at IS NULL"@, "functions-comparison.html"@))
        .insert("IS NOT NULL"@, keyword_v("IS NOT NULL"@, "True when expression is not NULL."@, "WHERE email IS NOT NULL"@, "functions-comparison.html"@))
        .insert("IN"@, keyword_v("IN"@, "True if value equals any in the list / subquery result."@, "WHERE role IN ('admin', 'staff')"@, "functions-comparisons.html"@))
        .insert("EXISTS"@, keyword_v("EXISTS"@, "True if subquery returns at least one row."@, "WHERE EXISTS (SELECT 1 FROM orders WHERE user_id = u.id)"@, "functions-subquery.html"@))
        .insert("BETWEEN"@, keyword_v("BETWEEN"@, "Shorthand for value >= low AND value <= high."@, "WHERE age BETWEEN 18 AND 65"@, "functions-comparison.html"@))
        .insert("LIKE"@, keyword_v("LIKE"@, "Case-sensitive pattern match. % matches any string, _ matches one char."@, "WHERE email LIKE '%@example.com'"@, "functions-matching.html#FUNCTIONS-LIKE"@))
        .insert("ILIKE"@, keyword_v("ILIKE"@, "Case-insensitive LIKE (Postgres extension)."@, "WHERE name ILIKE '%john%'"@, "functions-matching.html#FUNCTIONS-LIKE"@))
        .insert("CASE"@, keyword_v("CASE"@, "Conditional expression. SQL's if/else."@, "SELECT CASE WHEN role = 'admin' THEN 1 ELSE 0 END FROM users;"@, "functions-conditional.html#FUNCTIONS-CASE"@))
        .insert("OVER"@, keyword_v("OVER"@, "Window specification for a window function."@, "row_number() OVER (PARTITION BY user_id ORDER BY created_at DESC)"@, "tutorial-window.html"@))
        .insert("PARTITION BY"@, keyword_v("PARTITION BY"@, "Split rows into groups within a window function."@, "rank() OVER (PARTITION BY country ORDER BY score DESC)"@, "tutorial-window.html"@))
        .insert("BEGIN"@, keyword_v("BEGIN"@, "Start an explicit transaction."@, "BEGIN; ... COMMIT;"@, "sql-begin.html"@))
        .insert("COMMIT"@, keyword_v("COMMIT"@, "Persist the current transaction."@, "COMMIT;"@, "sql-commit.html"@))
        .insert("ROLLBACK"@, keyword_v("ROLLBACK"@, "Discard the current transaction."@, "ROLLBACK;"@, "sql-rollback.html"@))
        .insert("EXPLAIN"@, keyword_v("EXPLAIN"@, "Show the planner's execution plan without running."@, "EXPLAIN SELECT * FROM users WHERE id = $1;"@, "sql-explain.html"@))
        .insert("EXPLAIN ANALYZE"@, keyword_v("EXPLAIN ANALYZE"@, "Run the query and show the actual plan with timings."@, "EXPLAIN ANALYZE SELECT * FROM users WHERE id = $1;"@, "sql-explain.html"@))
        .insert("JOIN"@, keyword_v("JOIN"@, "Combine rows from two tables. Prefix with INNER / LEFT / RIGHT / FULL / CROSS to control behaviour."@, "SELECT u.name, o.total FROM users u JOIN orders o ON o.user_id = u.id;"@, "queries-table-expressions.html#QUERIES-JOIN"@))
        .insert("INNER"@, keyword_v("INNER"@, "Inner join modifier. INNER JOIN returns only matching rows."@, "INNER JOIN orders o ON o.user_id = u.id"@, "queries-table-expressions.html#QUERIES-JOIN"@))
        .insert("LEFT"@, keyword_v("LEFT"@, "Left join modifier. LEFT JOIN keeps every row from the left side."@, "LEFT JOIN orders o ON o.user_id = u.id"@, "queries-table-expressions.html#QUERIES-JOIN"@))
        .insert("RIGHT"@, keyword_v("RIGHT"@, "Right join modifier. RIGHT JOIN keeps every row from the right side."@, "RIGHT JOIN orders o ON o.user_id = u.id"@, "queries-table-expressions.html#QUERIES-JOIN"@))
        .insert("FULL"@, keyword_v("FULL"@, "Full join modifier. FULL OUTER JOIN keeps every row from both sides."@, "FULL OUTER JOIN b ON a.id = b.a_id"@, "queries-table-expressions.html#QUERIES-JOIN"@))
        .insert("OUTER"@, keyword_v("OUTER"@, "Outer-join modifier. LEFT / RIGHT / FULL OUTER JOIN keep unmatched rows."@, "LEFT OUTER JOIN orders o ON o.user_id = u.id"@, "queries-table-expressions.html#QUERIES-JOIN"@))
        .insert("CROSS"@, keyword_v("CROSS"@, "CROSS JOIN produces the Cartesian product of two tables."@, "SELECT * FROM colors CROSS JOIN sizes;"@, "queries-table-expressions.html#QUERIES-JOIN"@))
        .insert("USING"@, keyword_v("USING"@, "JOIN shorthand when the join columns share a name. The joined column appears once."@, "SELECT * FROM users JOIN orders USING (user_id);"@, "queries-table-expressions.html#QUERIES-JOIN"@))
        .insert("INTO"@, keyword_v("INTO"@, "Destination keyword in INSERT INTO and SELECT INTO."@, "INSERT INTO users (name) VALUES ('a')"@, "sql-insert.html"@))
        .insert("BY"@, keyword_v("BY"@, "Modifier used after GROUP, ORDER, PARTITION. Specifies the keys."@, "ORDER BY created_at DESC"@, "sql-select.html#SQL-ORDERBY"@))
        .insert("IS"@, keyword_v("IS"@, "Predicate for IS NULL / IS NOT NULL / IS TRUE / IS DISTINCT FROM."@, "WHERE deleted_at IS NULL"@, "functions-comparison.html"@))
        .insert("ALL"@, keyword_v("ALL"@, "Quantifier. UNION ALL keeps duplicates; ALL with comparisons matches every row of subquery."@, "SELECT id FROM a UNION ALL SELECT id FROM b;"@, "queries-union.html"@))
        .insert("ANY"@, keyword_v("ANY"@, "Quantifier. x = ANY (SELECT ...) matches at least one row."@, "WHERE id = ANY (SELECT user_id FROM admins)"@, "functions-comparisons.html"@))
        .insert("SOME"@, keyword_v("SOME"@, "Synonym for ANY."@, "WHERE id = SOME (SELECT user_id FROM admins)"@, "functions-comparisons.html"@))
        .insert("DO"@, keyword_v("DO"@, "Action verb after ON CONFLICT. DO UPDATE or DO NOTHING."@, "ON CONFLICT (id) DO NOTHING"@, "sql-insert.html#SQL-ON-CONFLICT"@))
        .insert("DO UPDATE"@, keyword_v("DO UPDATE"@, "Upsert action: merge values. Use EXCLUDED.<col> for the failed insert row."@, "ON CONFLICT (email) DO UPDATE SET name = EXCLUDED.name"@, "sql-insert.html#SQL-ON-CONFLICT"@))
        .insert("DO NOTHING"@, keyword_v("DO NOTHING"@, "Upsert action: silently skip the row."@, "ON CONFLICT DO NOTHING"@, "sql-insert.html#SQL-ON-CONFLICT"@))
        .insert("EXCLUDED"@, keyword_v("EXCLUDED"@, "Synthetic alias in DO UPDATE referencing the row that would have been inserted."@, "ON CONFLICT (id) DO UPDATE SET name = EXCLUDED.name"@, "sql-insert.html#SQL-ON-CONFLICT"@))
        .insert("CREATE"@, keyword_v("CREATE"@, "Define a new database object: table, index, view, sequence, schema, function."@, "CREATE TABLE ..."@, "sql-createtable.html"@))
        .insert("TABLE"@, keyword_v("TABLE"@, "The TABLE keyword. Used by CREATE / ALTER / DROP / TRUNCATE."@, "CREATE TABLE users (...)"@, "sql-createtable.html"@))
        .insert("INDEX"@, keyword_v("INDEX"@, "The INDEX keyword. Used by CREATE / DROP / REINDEX."@, "CREATE INDEX idx_users_email ON users (email);"@, "sql-createindex.html"@))
}

spec fn keyword_part_1(m: Map<Seq<char>, EntryV>) -> Map<Seq<char>, EntryV> {
    m
        .insert("VIEW"@, keyword_v("VIEW"@, "The VIEW keyword. Used by CREATE / ALTER / DROP."@, "CREATE VIEW active_users AS SELECT * FROM users;"@, "sql-createview.html"@))
        .insert("SCHEMA"@, keyword_v("SCHEMA"@, "Namespace for tables, views, functions."@, "CREATE SCHEMA app;"@, "sql-createschema.html"@))
        .insert("SEQUENCE"@, keyword_v("SEQUENCE"@, "Number generator for serial columns."@, "CREATE SEQUENCE users_id_seq START 1000;"@, "sql-createsequence.html"@))
        .insert("ALTER"@, keyword_v("ALTER"@, "Modify an existing database object."@, "ALTER TABLE users ADD COLUMN role TEXT NOT NULL DEFAULT 'user';"@, "sql-altertable.html"@))
        .insert("DROP"@, keyword_v("DROP"@, "Remove a database object. Add IF EXISTS to suppress missing-object errors."@, "DROP TABLE IF EXISTS users CASCADE;"@, "sql-droptable.html"@))
        .insert("RENAME"@, keyword_v("RENAME"@, "Rename a table or column inside ALTER TABLE."@, "ALTER TABLE users RENAME COLUMN nick TO nickname;"@, "sql-altertable.html"@))
        .insert("ADD"@, keyword_v("ADD"@, "Add a column or constraint inside ALTER TABLE."@, "ALTER TABLE users ADD COLUMN role TEXT;"@, "sql-altertable.html"@))
        .insert("COLUMN"@, keyword_v("COLUMN"@, "The COLUMN keyword. Used inside ALTER TABLE ADD/DROP/RENAME COLUMN."@, "ALTER TABLE users DROP COLUMN old_field;"@, "sql-altertable.html"@))
        .insert("TRUNCATE"@, keyword_v("TRUNCATE"@, "Remove every row from a table fast (no row-by-row scan)."@, "TRUNCATE TABLE sessions;"@, "sql-truncate.html"@))
        .insert("IF"@, keyword_v("IF"@, "Modifier in IF NOT EXISTS / IF EXISTS."@, "CREATE TABLE IF NOT EXISTS ..."@, "sql-createtable.html"@))
        .insert("IF NOT EXISTS"@, keyword_v("IF NOT EXISTS"@, "Idempotent modifier on CREATE statements."@, "CREATE TABLE IF NOT EXISTS users (...);"@, "sql-createtable.html"@))
        .insert("IF EXISTS"@, keyword_v("IF EXISTS"@, "Idempotent modifier on DROP / ALTER statements."@, "DROP TABLE IF EXISTS users;"@, "sql-droptable.html"@))
        .insert("CONSTRAINT"@, keyword_v("CONSTRAINT"@, "Name a table / column constraint. Required for FOREIGN KEY clauses."@, "CONSTRAINT pk_users PRIMARY KEY (id)"@, "ddl-constraints.html"@))
        .insert("KEY"@, keyword_v("KEY"@, "Constraint qualifier. PRIMARY KEY / FOREIGN KEY."@, "PRIMARY KEY (id)"@, "ddl-constraints.html"@))
        .insert("PRIMARY"@, keyword_v("PRIMARY"@, "Identifies the row. Implies UNIQUE + NOT NULL."@, "id UUID PRIMARY KEY"@, "ddl-constraints.html#DDL-CONSTRAINTS-PRIMARY-KEYS"@))
        .insert("FOREIGN"@, keyword_v("FOREIGN"@, "FOREIGN KEY references another table's primary key."@, "FOREIGN KEY (user_id) REFERENCES users (id)"@, "ddl-constraints.html#DDL-CONSTRAINTS-FK"@))
        .insert("RESTRICT"@, keyword_v("RESTRICT"@, "ON DELETE/UPDATE action: forbid the operation if referencing rows exist."@, "REFERENCES users(id) ON DELETE RESTRICT"@, "ddl-constraints.html#DDL-CONSTRAINTS-FK"@))
        .insert("SET NULL"@, keyword_v("SET NULL"@, "ON DELETE action: NULL the referencing column."@, "REFERENCES users(id) ON DELETE SET NULL"@, "ddl-constraints.html#DDL-CONSTRAINTS-FK"@))
        .insert("SET DEFAULT"@, keyword_v("SET DEFAULT"@, "ON DELETE action: reset the referencing column to its DEFAULT."@, "REFERENCES users(id) ON DELETE SET DEFAULT"@, "ddl-constraints.html#DDL-CONSTRAINTS-FK"@))
        .insert("NO ACTION"@, keyword_v("NO ACTION"@, "ON DELETE/UPDATE action: defer constraint check; default behaviour."@, "REFERENCES users(id) ON DELETE NO ACTION"@, "ddl-constraints.html#DDL-CONSTRAINTS-FK"@))
        .insert("TRANSACTION"@, keyword_v("TRANSACTION"@, "Synonym block for BEGIN / COMMIT / ROLLBACK."@, "BEGIN TRANSACTION; ... COMMIT;"@, "sql-begin.html"@))
        .insert("INTERSECT"@, keyword_v("INTERSECT"@, "Set operator: rows present in both result sets, deduplicated."@, "SELECT user_id FROM orders INTERSECT SELECT id FROM users;"@, "queries-union.html"@))
        .insert("EXCEPT"@, keyword_v("EXCEPT"@, "Set operator: rows in the first result set that aren't in the second."@, "SELECT id FROM users EXCEPT SELECT user_id FROM orders;"@, "queries-union.html"@))
        .insert("RECURSIVE"@, keyword_v("RECURSIVE"@, "Make a WITH clause recursive. Used for tree / graph traversal."@, "WITH RECURSIVE tree AS (...)"@, "queries-with.html#QUERIES-WITH-RECURSIVE"@))
        .insert("ANALYZE"@, keyword_v("ANALYZE"@, "Refresh planner statistics. Distinct from EXPLAIN ANALYZE."@, "ANALYZE users;"@, "sql-analyze.html"@))
        .insert("VACUUM"@, keyword_v("VACUUM"@, "Reclaim storage. VACUUM FULL rewrites the table."@, "VACUUM ANALYZE users;"@, "sql-vacuum.html"@))
        .insert("NULLS"@, keyword_v("NULLS"@, "Sort modifier. NULLS FIRST / NULLS LAST controls where NULLs land."@, "ORDER BY deleted_at NULLS LAST"@, "sql-select.html#SQL-ORDERBY"@))
        .insert("FIRST"@, keyword_v("FIRST"@, "Modifier for NULLS FIRST in ORDER BY."@, "ORDER BY x NULLS FIRST"@, "sql-select.html#SQL-ORDERBY"@))
        .insert("LAST"@, keyword_v("LAST"@, "Modifier for NULLS LAST in ORDER BY."@, "ORDER BY x NULLS LAST"@, "sql-select.html#SQL-ORDERBY"@))
        .insert("*"@, keyword_v("*"@, "Star: select all columns of the row source. Avoid in production code; prefer explicit columns."@, "SELECT * FROM users LIMIT 10;"@, "sql-select.html#SQL-SELECT-LIST"@))
        .insert("NULL"@, keyword_v("NULL"@, "SQL NULL: missing / unknown value. Use IS NULL / IS NOT NULL to test; `=` against NULL always yields NULL."@, "WHERE deleted_at IS NULL"@, "functions-comparison.html"@))
        .insert("INSERT"@, keyword_v("INSERT"@, "Insert new rows. Combine with RETURNING to get generated columns back."@, "INSERT INTO users (name) VALUES ('alice');"@, "sql-insert.html"@))
        .insert("DELETE"@, keyword_v("DELETE"@, "Remove rows. RETURNING shows what was deleted."@, "DELETE FROM users WHERE id = $1;"@, "sql-delete.html"@))
        .insert("ORDER"@, keyword_v("ORDER"@, "Sort modifier. ORDER BY <col> [ASC|DESC]."@, "ORDER BY created_at DESC"@, "sql-select.html#SQL-ORDERBY"@))
        .insert("GROUP"@, keyword_v("GROUP"@, "Group rows. GROUP BY <cols>."@, "GROUP BY user_id"@, "sql-select.html#SQL-GROUPBY"@))
        .insert("FUNCTION"@, keyword_v("FUNCTION"@, "Stored function. CREATE FUNCTION ... LANGUAGE plpgsql / sql."@, "CREATE OR REPLACE FUNCTION fn() RETURNS void AS $$ ... $$ LANGUAGE plpgsql;"@, "sql-createfunction.html"@))
        .insert("PROCEDURE"@, keyword_v("PROCEDURE"@, "Stored procedure (no return value). Call with CALL."@, "CREATE PROCEDURE p() LANGUAGE plpgsql AS $$ ... $$;"@, "sql-createprocedure.html"@))
        .insert("TRIGGER"@, keyword_v("TRIGGER"@, "Stored callback that fires on INSERT / UPDATE / DELETE / TRUNCATE."@, "CREATE TRIGGER t BEFORE INSERT ON users FOR EACH ROW EXECUTE FUNCTION fn();"@, "sql-createtrigger.html"@))
        .insert("RETURNS"@, keyword_v("RETURNS"@, "Return-type clause in CREATE FUNCTION."@, "CREATE FUNCTION fn() RETURNS uuid"@, "sql-createfunction.html"@))
        .insert("RETURN"@, keyword_v("RETURN"@, "Return a value from a PL/pgSQL function."@, "RETURN result;"@, "plpgsql-control-structures.html"@))
        .insert("LANGUAGE"@, keyword_v("LANGUAGE"@, "Procedural language for CREATE FUNCTION. Common: plpgsql, sql."@, "$$ ... $$ LANGUAGE plpgsql"@, "sql-createfunction.html"@))
        .insert("PLPGSQL"@, keyword_v("PLPGSQL"@, "Default Postgres procedural language. Block-structured with DECLARE / BEGIN / END."@, "LANGUAGE plpgsql"@, "plpgsql.html"@))
        .insert("STABLE"@, keyword_v("STABLE"@, "Volatility marker: same arguments return the same result within a single statement."@, "CREATE FUNCTION fn() RETURNS uuid STABLE AS $$ ... $$;"@, "xfunc-volatility.html"@))
        .insert("VOLATILE"@, keyword_v("VOLATILE"@, "Volatility marker (default): result can change at any time."@, "CREATE FUNCTION rnd() RETURNS double VOLATILE AS $$ ... $$;"@, "xfunc-volatility.html"@))
        .insert("IMMUTABLE"@, keyword_v("IMMUTABLE"@, "Volatility marker: pure, no DB or side-effect access."@, "CREATE FUNCTION square(int) RETURNS int IMMUTABLE AS $$ ... $$;"@, "xfunc-volatility.html"@))
        .insert("STORED"@, keyword_v("STORED"@, "STORED generated columns: value persisted in the table on each write."@, "amount NUMERIC GENERATED ALWAYS AS (qty * price) STORED"@, "ddl-generated-columns.html"@))
        .insert("GENERATED"@, keyword_v("GENERATED"@, "Generated column. ALWAYS / BY DEFAULT."@, "id BIGINT GENERATED ALWAYS AS IDENTITY"@, "ddl-generated-columns.html"@))
        .insert("ALWAYS"@, keyword_v("ALWAYS"@, "Generated-column qualifier: always evaluate the expression."@, "GENERATED ALWAYS AS IDENTITY"@, "ddl-generated-columns.html"@))
        .insert("IDENTITY"@, keyword_v("IDENTITY"@, "Auto-assign primary key from a sequence. Preferred over SERIAL."@, "id BIGINT GENERATED ALWAYS AS IDENTITY PRIMARY KEY"@, "ddl-identity-columns.html"@))
        .insert("DECLARE"@, keyword_v("DECLARE"@, "Variable declarations at the top of a PL/pgSQL block."@, "DECLARE n INT := 0; BEGIN ... END;"@, "plpgsql-declarations.html"@))
        .insert("FOR"@, keyword_v("FOR"@, "PL/pgSQL loop. FOR i IN 1..10 / FOR r IN SELECT ..."@, "FOR r IN SELECT * FROM users LOOP RAISE NOTICE '%', r.id; END LOOP;"@, "plpgsql-control-structures.html#PLPGSQL-CONTROL-STRUCTURES-LOOPS-FOR"@))
        .insert("WHILE"@, keyword_v("WHILE"@, "Loop while a condition is true."@, "WHILE n < 10 LOOP n := n + 1; END LOOP;"@, "plpgsql-control-structures.html#PLPGSQL-CONTROL-STRUCTURES-LOOPS"@))
        .insert("ELSIF"@, keyword_v("ELSIF"@, "PL/pgSQL else-if branch."@, "IF a THEN ... ELSIF b THEN ... END IF;"@, "plpgsql-control-structures.html#PLPGSQL-CONDITIONALS"@))
        .insert("RAISE"@, keyword_v("RAISE"@, "Throw a PL/pgSQL notice / exception."@, "RAISE NOTICE 'value is %', v;"@, "plpgsql-errors-and-messages.html"@))
        .insert("NOTICE"@, keyword_v("NOTICE"@, "RAISE level: log message; query continues."@, "RAISE NOTICE 'value is %', v;"@, "plpgsql-errors-and-messages.html"@))
        .insert("WARNING"@, keyword_v("WARNING"@, "RAISE level above NOTICE."@, "RAISE WARNING 'careful';"@, "plpgsql-errors-and-messages.html"@))
        .insert("EXCEPTION"@, keyword_v("EXCEPTION"@, "RAISE EXCEPTION aborts the transaction. Also block-level handler."@, "RAISE EXCEPTION 'bad input: %', x;"@, "plpgsql-errors-and-messages.html"@))
        .insert("NEW"@, keyword_v("NEW"@, "Trigger row variable: the row being inserted / updated."@, "BEGIN NEW.updated_at := now(); RETURN NEW; END;"@, "plpgsql-trigger.html"@))
        .insert("OLD"@, keyword_v("OLD"@, "Trigger row variable: the row before UPDATE / DELETE."@, "IF OLD.role <> NEW.role THEN RAISE NOTICE 'role changed'; END IF;"@, "plpgsql-trigger.html"@))
        .insert("BEFORE"@, keyword_v("BEFORE"@, "Trigger timing: fire before the row change."@, "CREATE TRIGGER t BEFORE INSERT ON users ..."@, "sql-createtrigger.html"@))
        .insert("AFTER"@, keyword_v("AFTER"@, "Trigger timing: fire after the row change."@, "CREATE TRIGGER t AFTER UPDATE ON users ..."@, "sql-createtrigger.html"@))
        .insert("INSTEAD"@, keyword_v("INSTEAD"@, "Trigger timing for views: replace the operation entirely."@, "CREATE TRIGGER t INSTEAD OF INSERT ON v ..."@, "sql-createtrigger.html"@))
        .insert("EACH"@, keyword_v("EACH"@, "Trigger row-vs-statement modifier. FOR EACH ROW / FOR EACH STATEMENT."@, "FOR EACH ROW EXECUTE FUNCTION fn();"@, "sql-createtrigger.html"@))
        .insert("ROW"@, keyword_v("ROW"@, "Trigger granularity: per row."@, "FOR EACH ROW"@, "sql-createtrigger.html"@))
        .insert("STATEMENT"@, keyword_v("STATEMENT"@, "Trigger granularity: per statement (default)."@, "FOR EACH STATEMENT"@, "sql-createtrigger.html"@))
        .insert("EXECUTE"@, keyword_v("EXECUTE"@, "Run a function or dynamic SQL."@, "EXECUTE FUNCTION audit_change();"@, "sql-createtrigger.html"@))
        .insert("GRANT"@, keyword_v("GRANT"@, "Grant privileges to a role."@, "GRANT SELECT ON users TO readonly;"@, "sql-grant.html"@))
        .insert("REVOKE"@, keyword_v("REVOKE"@, "Revoke privileges from a role."@, "REVOKE SELECT ON users FROM readonly;"@, "sql-revoke.html"@))
        .insert("ROLE"@, keyword_v("ROLE"@, "Database role (a user or group)."@, "CREATE ROLE readonly LOGIN PASSWORD '...';"@, "user-manag.html"@))
        .insert("USER"@, keyword_v("USER"@, "Synonym for ROLE with LOGIN."@, "CREATE USER alice PASSWORD '...';"@, "sql-createuser.html"@))
        .insert("OWNER"@, keyword_v("OWNER"@, "Object owner. ALTER ... OWNER TO sets it."@, "ALTER TABLE users OWNER TO alice;"@, "sql-alterowner.html"@))
        .insert("PASSWORD"@, keyword_v("PASSWORD"@, "ROLE password attribute."@, "ALTER ROLE alice PASSWORD '...';"@, "sql-alterrole.html"@))
        .insert("SHOW"@, keyword_v("SHOW"@, "Display a run-time parameter."@, "SHOW search_path;"@, "sql-show.html"@))
        .insert("COMMENT"@, keyword_v("COMMENT"@, "Attach a comment to a database object."@, "COMMENT ON TABLE users IS 'app users';"@, "sql-comment.html"@))
        .insert("COPY"@, keyword_v("COPY"@, "Bulk-load / bulk-export a table."@, "COPY users FROM '/tmp/users.csv' CSV HEADER;"@, "sql-copy.html"@))
}

spec fn keyword_part_2(m: Map<Seq<char>, EntryV>) -> Map<Seq<char>, EntryV> {
    m
        .insert("MERGE"@, keyword_v("MERGE"@, "Conditional upsert. Postgres 15+."@, "MERGE INTO target t USING source s ON t.id = s.id WHEN MATCHED THEN UPDATE SET ...;"@, "sql-merge.html"@))
        .insert("REFRESH"@, keyword_v("REFRESH"@, "Refresh a materialised view."@, "REFRESH MATERIALIZED VIEW user_counts;"@, "sql-refreshmaterializedview.html"@))
        .insert("REINDEX"@, keyword_v("REINDEX"@, "Rebuild an index."@, "REINDEX TABLE users;"@, "sql-reindex.html"@))
        .insert("TO"@, keyword_v("TO"@, "Target keyword in GRANT / REVOKE / ALTER ... OWNER TO / RENAME ... TO / SET ... TO."@, "ALTER TABLE users OWNER TO alice;"@, "sql-grant.html"@))
        .insert("CALL"@, keyword_v("CALL"@, "Invoke a stored PROCEDURE."@, "CALL refresh_counts();"@, "sql-call.html"@))
        .insert("REPLACE"@, keyword_v("REPLACE"@, "Used in CREATE OR REPLACE to redefine functions / views without dropping them."@, "CREATE OR REPLACE FUNCTION fn() ..."@, "sql-createfunction.html"@))
        .insert("OF"@, keyword_v("OF"@, "Modifier in INSTEAD OF / TYPE OF / FOR EACH ROW OF."@, "CREATE TRIGGER t INSTEAD OF INSERT ON v ..."@, "sql-createtrigger.html"@))
        .insert("CAST"@, keyword_v("CAST"@, "Explicit type conversion. SQL-standard form of the `::` operator."@, "CAST(id AS text)"@, "sql-expressions.html#SQL-SYNTAX-TYPE-CASTS"@))
        .insert("CONFLICT"@, keyword_v("CONFLICT"@, "Used in ON CONFLICT clauses for UPSERT."@, "INSERT INTO t ... ON CONFLICT (id) DO UPDATE ..."@, "sql-insert.html#SQL-ON-CONFLICT"@))
        .insert("MATCHED"@, keyword_v("MATCHED"@, "Used in MERGE WHEN MATCHED / NOT MATCHED branches."@, "WHEN MATCHED THEN UPDATE SET ..."@, "sql-merge.html"@))
        .insert("NOTHING"@, keyword_v("NOTHING"@, "ON CONFLICT DO NOTHING action."@, "ON CONFLICT DO NOTHING"@, "sql-insert.html#SQL-ON-CONFLICT"@))
        .insert("WHEN"@, keyword_v("WHEN"@, "CASE branch test. Pairs with THEN."@, "CASE WHEN x > 0 THEN 'pos' WHEN x < 0 THEN 'neg' ELSE 'zero' END"@, "functions-conditional.html#FUNCTIONS-CASE"@))
        .insert("THEN"@, keyword_v("THEN"@, "CASE branch result. Follows WHEN."@, "CASE WHEN x > 0 THEN 'positive' END"@, "functions-conditional.html#FUNCTIONS-CASE"@))
        .insert("ELSE"@, keyword_v("ELSE"@, "CASE fallback branch."@, "CASE WHEN x > 0 THEN 1 ELSE 0 END"@, "functions-conditional.html#FUNCTIONS-CASE"@))
        .insert("END"@, keyword_v("END"@, "CASE terminator. Also closes a PL/pgSQL block (END LOOP / END IF)."@, "CASE WHEN x > 0 THEN 1 ELSE 0 END"@, "functions-conditional.html#FUNCTIONS-CASE"@))
        .insert("ASC"@, keyword_v("ASC"@, "Ascending order. The default for ORDER BY."@, "ORDER BY created_at ASC"@, "sql-select.html#SQL-ORDERBY"@))
        .insert("DESC"@, keyword_v("DESC"@, "Descending order."@, "ORDER BY created_at DESC"@, "sql-select.html#SQL-ORDERBY"@))
        .insert("TRUE"@, keyword_v("TRUE"@, "Boolean true."@, "WHERE is_active = TRUE"@, "datatype-boolean.html"@))
        .insert("FALSE"@, keyword_v("FALSE"@, "Boolean false."@, "WHERE deleted = FALSE"@, "datatype-boolean.html"@))
        .insert("ARRAY"@, keyword_v("ARRAY"@, "Array type / constructor. ARRAY[1,2,3] builds an int[] literal."@, "ids INT[] DEFAULT ARRAY[1,2,3]"@, "arrays.html"@))
        .insert("WITHIN"@, keyword_v("WITHIN"@, "Used by ordered-set aggregates: agg() WITHIN GROUP (ORDER BY ...)."@, "SELECT percentile_cont(0.5) WITHIN GROUP (ORDER BY age) FROM users;"@, "functions-aggregate.html#FUNCTIONS-ORDEREDSET-TABLE"@))
        .insert("SIMILAR"@, keyword_v("SIMILAR"@, "SIMILAR TO: SQL-standard regex-like pattern matching."@, "WHERE name SIMILAR TO '%(foo|bar)%'"@, "functions-matching.html#FUNCTIONS-SIMILARTO-REGEXP"@))
        .insert("INTERVAL"@, keyword_v("INTERVAL"@, "Interval literal. INTERVAL '1 day'."@, "now() - INTERVAL '7 days'"@, "datatype-datetime.html#DATATYPE-INTERVAL-INPUT"@))
        .insert("OVERLAPS"@, keyword_v("OVERLAPS"@, "Tuple-of-pairs predicate: (a,b) OVERLAPS (c,d)."@, "(start1, end1) OVERLAPS (start2, end2)"@, "functions-datetime.html#FUNCTIONS-DATETIME-OVERLAPS"@))
        .insert("CONCURRENTLY"@, keyword_v("CONCURRENTLY"@, "Create / drop indexes without holding a write lock."@, "CREATE INDEX CONCURRENTLY idx_users_email ON users (email);"@, "sql-createindex.html"@))
        .insert("ONLY"@, keyword_v("ONLY"@, "Restrict UPDATE / DELETE / SELECT to a parent table without inheriting children."@, "DELETE FROM ONLY parent WHERE id = $1;"@, "ddl-inherit.html"@))
        .insert("FETCH"@, keyword_v("FETCH"@, "SQL-standard alternative to LIMIT. FETCH FIRST n ROWS ONLY."@, "SELECT * FROM users ORDER BY id FETCH FIRST 50 ROWS ONLY;"@, "sql-select.html#SQL-LIMIT"@))
        .insert("ROWS"@, keyword_v("ROWS"@, "FETCH FIRST n ROWS ONLY / ROWS BETWEEN window framing."@, "FETCH FIRST 50 ROWS ONLY"@, "sql-select.html#SQL-LIMIT"@))
        .insert("RANGE"@, keyword_v("RANGE"@, "Window frame mode: RANGE between value-relative bounds."@, "OVER (ORDER BY ts RANGE BETWEEN INTERVAL '1 day' PRECEDING AND CURRENT ROW)"@, "sql-expressions.html#SYNTAX-WINDOW-FUNCTIONS"@))
        .insert("CURRENT"@, keyword_v("CURRENT"@, "Window frame anchor."@, "OVER (ORDER BY ts ROWS BETWEEN UNBOUNDED PRECEDING AND CURRENT ROW)"@, "sql-expressions.html#SYNTAX-WINDOW-FUNCTIONS"@))
        .insert("UNBOUNDED"@, keyword_v("UNBOUNDED"@, "Window frame bound: UNBOUNDED PRECEDING / UNBOUNDED FOLLOWING."@, "OVER (ROWS BETWEEN UNBOUNDED PRECEDING AND UNBOUNDED FOLLOWING)"@, "sql-expressions.html#SYNTAX-WINDOW-FUNCTIONS"@))
        .insert("PRECEDING"@, keyword_v("PRECEDING"@, "Window frame bound. UNBOUNDED PRECEDING / N PRECEDING."@, "OVER (ROWS BETWEEN 3 PRECEDING AND CURRENT ROW)"@, "sql-expressions.html#SYNTAX-WINDOW-FUNCTIONS"@))
        .insert("FOLLOWING"@, keyword_v("FOLLOWING"@, "Window frame bound. UNBOUNDED FOLLOWING / N FOLLOWING."@, "OVER (ROWS BETWEEN CURRENT ROW AND 3 FOLLOWING)"@, "sql-expressions.html#SYNTAX-WINDOW-FUNCTIONS"@))
        .insert("WINDOW"@, keyword_v("WINDOW"@, "Named window clause -- declare a reusable window spec for window functions."@, "SELECT rank() OVER w FROM t WINDOW w AS (PARTITION BY id ORDER BY ts)"@, "sql-select.html#SQL-WINDOW"@))
        .insert("BETWEEN AND"@, keyword_v("BETWEEN AND"@, "BETWEEN range predicate uses AND to separate the bounds."@, "WHERE age BETWEEN 18 AND 65"@, "functions-comparison.html"@))
        .insert("MATERIALIZED"@, keyword_v("MATERIALIZED"@, "Use MATERIALIZED VIEW for a stored-query that survives across sessions; refresh with REFRESH."@, "CREATE MATERIALIZED VIEW daily_sales AS SELECT day, sum(amount) FROM orders GROUP BY day;"@, "sql-creatematerializedview.html"@))
        .insert("MATERIALIZED VIEW"@, keyword_v("MATERIALIZED VIEW"@, "A view whose result is physically stored. Run REFRESH MATERIALIZED VIEW to recompute."@, "CREATE MATERIALIZED VIEW daily_sales AS ..."@, "rules-materializedviews.html"@))
        .insert("CREATE MATERIALIZED VIEW"@, keyword_v("CREATE MATERIALIZED VIEW"@, "Define a stored, refreshable view."@, "CREATE MATERIALIZED VIEW daily_sales AS SELECT ..."@, "sql-creatematerializedview.html"@))
        .insert("REFRESH MATERIALIZED VIEW"@, keyword_v("REFRESH MATERIALIZED VIEW"@, "Recompute a materialized view. CONCURRENTLY allows reads during refresh."@, "REFRESH MATERIALIZED VIEW CONCURRENTLY daily_sales;"@, "sql-refreshmaterializedview.html"@))
        .insert("TEMP"@, keyword_v("TEMP"@, "Shorthand for TEMPORARY."@, "CREATE TEMP TABLE staging (...);"@, "sql-createtable.html"@))
        .insert("TEMPORARY"@, keyword_v("TEMPORARY"@, "Drops at session end; resides in pg_temp schema."@, "CREATE TEMPORARY TABLE staging (...);"@, "sql-createtable.html"@))
        .insert("UNLOGGED"@, keyword_v("UNLOGGED"@, "Skips WAL writes -- faster but data lost on crash. Good for cache tables."@, "CREATE UNLOGGED TABLE cache_blob (...);"@, "sql-createtable.html"@))
        .insert("TABLESPACE"@, keyword_v("TABLESPACE"@, "Place the relation on a non-default tablespace."@, "CREATE TABLE big (...) TABLESPACE fast_ssd;"@, "manage-ag-tablespaces.html"@))
        .insert("PARTITION BY RANGE"@, keyword_v("PARTITION BY RANGE"@, "Range-partitioned table on one or more columns."@, "CREATE TABLE m (...) PARTITION BY RANGE (created_at);"@, "ddl-partitioning.html"@))
        .insert("PARTITION BY LIST"@, keyword_v("PARTITION BY LIST"@, "List partitioning -- one partition per discrete value set."@, "CREATE TABLE m (...) PARTITION BY LIST (country);"@, "ddl-partitioning.html"@))
        .insert("PARTITION BY HASH"@, keyword_v("PARTITION BY HASH"@, "Hash partitioning -- modulo on a column."@, "CREATE TABLE m (...) PARTITION BY HASH (id);"@, "ddl-partitioning.html"@))
        .insert("PARTITION OF"@, keyword_v("PARTITION OF"@, "Declare a child partition of an existing table."@, "CREATE TABLE m_2026 PARTITION OF m FOR VALUES FROM ('2026-01-01') TO ('2027-01-01');"@, "ddl-partitioning.html"@))
        .insert("FOR VALUES"@, keyword_v("FOR VALUES"@, "Bound spec for a partition."@, "PARTITION OF m FOR VALUES FROM ('a') TO ('m')"@, "ddl-partitioning.html"@))
        .insert("DEFAULT"@, keyword_v("DEFAULT"@, "Used in PARTITION OF DEFAULT or column DEFAULT clause."@, "PARTITION OF m DEFAULT"@, "ddl-partitioning.html"@))
        .insert("FOR UPDATE"@, keyword_v("FOR UPDATE"@, "Lock selected rows against concurrent UPDATE/DELETE."@, "SELECT * FROM accounts WHERE id = $1 FOR UPDATE;"@, "sql-select.html#SQL-FOR-UPDATE-SHARE"@))
        .insert("FOR SHARE"@, keyword_v("FOR SHARE"@, "Share lock -- multiple readers, blocks writers."@, "SELECT * FROM accounts FOR SHARE;"@, "sql-select.html#SQL-FOR-UPDATE-SHARE"@))
        .insert("NULLS FIRST"@, keyword_v("NULLS FIRST"@, "Place NULLs at the start of an ORDER BY."@, "ORDER BY rank NULLS FIRST"@, "queries-order.html"@))
        .insert("NULLS LAST"@, keyword_v("NULLS LAST"@, "Place NULLs at the end of an ORDER BY (default for ASC)."@, "ORDER BY rank NULLS LAST"@, "queries-order.html"@))
        .insert("INITIALLY DEFERRED"@, keyword_v("INITIALLY DEFERRED"@, "Default mode of a DEFERRABLE constraint -- check at commit."@, "DEFERRABLE INITIALLY DEFERRED"@, "sql-set-constraints.html"@))
        .insert("INITIALLY IMMEDIATE"@, keyword_v("INITIALLY IMMEDIATE"@, "Constraint checked per statement (default for non-deferrable)."@, "DEFERRABLE INITIALLY IMMEDIATE"@, "sql-set-constraints.html"@))
        .insert("LISTEN"@, keyword_v("LISTEN"@, "Subscribe to NOTIFY events on a channel."@, "LISTEN job_inserted;"@, "sql-listen.html"@))
        .insert("NOTIFY"@, keyword_v("NOTIFY"@, "Send an asynchronous notification on a channel."@, "NOTIFY job_inserted, 'payload';"@, "sql-notify.html"@))
        .insert("UNLISTEN"@, keyword_v("UNLISTEN"@, "Stop receiving NOTIFY events."@, "UNLISTEN job_inserted;"@, "sql-unlisten.html"@))
        .insert("CHECKPOINT"@, keyword_v("CHECKPOINT"@, "Force a WAL checkpoint -- diagnostic / maintenance use."@, "CHECKPOINT;"@, "sql-checkpoint.html"@))
        .insert("LOCK TABLE"@, keyword_v("LOCK TABLE"@, "Acquire an explicit table-level lock."@, "LOCK TABLE accounts IN SHARE ROW EXCLUSIVE MODE;"@, "sql-lock.html"@))
        .insert("PREPARE"@, keyword_v("PREPARE"@, "Server-side prepared statement -- $1, $2 placeholders, planned once."@, "PREPARE upsert_user(text) AS INSERT INTO users(email) VALUES ($1);"@, "sql-prepare.html"@))
        .insert("DEALLOCATE"@, keyword_v("DEALLOCATE"@, "Release a server-side prepared statement."@, "DEALLOCATE upsert_user;"@, "sql-deallocate.html"@))
        .insert("EXIT"@, keyword_v("EXIT"@, "Leave the enclosing loop. EXIT WHEN <cond> is the idiomatic form."@, "EXIT WHEN i > 10;"@, "plpgsql-control-structures.html"@))
        .insert("CONTINUE"@, keyword_v("CONTINUE"@, "Skip to next iteration of the enclosing loop."@, "CONTINUE WHEN should_skip(row);"@, "plpgsql-control-structures.html"@))
        .insert("FOUND"@, keyword_v("FOUND"@, "Boolean set after the most recent SQL command (UPDATE/INSERT/SELECT INTO etc.)."@, "IF NOT FOUND THEN RAISE EXCEPTION 'no row'; END IF;"@, "plpgsql-statements.html#PLPGSQL-STATEMENTS-DIAGNOSTICS"@))
        .insert("STRICT"@, keyword_v("STRICT"@, "SELECT INTO STRICT -- raise if 0 or >1 rows. Also a function volatility marker."@, "SELECT id INTO STRICT v_id FROM users WHERE email = $1;"@, "plpgsql-statements.html#PLPGSQL-STATEMENTS-SQL-ONEROW"@))
        .insert("INTO STRICT"@, keyword_v("INTO STRICT"@, "PL/pgSQL: assign exactly one row or raise."@, "SELECT * INTO STRICT v_row FROM users WHERE id = $1;"@, "plpgsql-statements.html#PLPGSQL-STATEMENTS-SQL-ONEROW"@))
        .insert("ENABLE TRIGGER"@, keyword_v("ENABLE TRIGGER"@, "Re-enable a trigger that was disabled."@, "ALTER TABLE users ENABLE TRIGGER audit_users;"@, "sql-altertable.html"@))
        .insert("DISABLE TRIGGER"@, keyword_v("DISABLE TRIGGER"@, "Temporarily turn off a trigger."@, "ALTER TABLE users DISABLE TRIGGER audit_users;"@, "sql-altertable.html"@))
        .insert("SET DATA TYPE"@, keyword_v("SET DATA TYPE"@, "Change a column's type, optionally with USING <expr>."@, "ALTER TABLE t ALTER COLUMN c SET DATA TYPE bigint USING c::bigint;"@, "sql-altertable.html"@))
        .insert("DROP NOT NULL"@, keyword_v("DROP NOT NULL"@, "Make a NOT NULL column nullable again."@, "ALTER TABLE t ALTER COLUMN c DROP NOT NULL;"@, "sql-altertable.html"@))
        .insert("SET NOT NULL"@, keyword_v("SET NOT NULL"@, "Forbid NULL in a column. Postgres scans the table to verify."@, "ALTER TABLE t ALTER COLUMN c SET NOT NULL;"@, "sql-altertable.html"@))
        .insert("NEXT"@, keyword_v("NEXT"@, "FETCH NEXT clause -- equivalent to LIMIT in SQL standard syntax."@, "SELECT * FROM t FETCH NEXT 10 ROWS ONLY;"@, "sql-select.html"@))
        .insert("NATURAL"@, keyword_v("NATURAL"@, "NATURAL JOIN -- automatic equi-join on common column names. Brittle; prefer explicit ON/USING."@, "SELECT * FROM a NATURAL JOIN b;"@, "queries-table-expressions.html"@))
        .insert("PARTITION"@, keyword_v("PARTITION"@, "Window-frame partitioning OR table partitioning (PARTITION BY RANGE/LIST/HASH)."@, "OVER (PARTITION BY dept)"@, "ddl-partitioning.html"@))
}

spec fn keyword_part_3(m: Map<Seq<char>, EntryV>) -> Map<Seq<char>, EntryV> {
    m
        .insert("GROUPS"@, keyword_v("GROUPS"@, "Window-frame mode counting peer groups (vs ROWS / RANGE)."@, "OVER (ORDER BY x GROUPS BETWEEN 1 PRECEDING AND CURRENT ROW)"@, "sql-expressions.html#SYNTAX-WINDOW-FUNCTIONS"@))
        .insert("ISOLATION"@, keyword_v("ISOLATION"@, "Transaction isolation level."@, "SET TRANSACTION ISOLATION LEVEL REPEATABLE READ;"@, "transaction-iso.html"@))
        .insert("LEVEL"@, keyword_v("LEVEL"@, "Used with ISOLATION LEVEL."@, "BEGIN ISOLATION LEVEL SERIALIZABLE;"@, "transaction-iso.html"@))
        .insert("IMMEDIATE"@, keyword_v("IMMEDIATE"@, "SET CONSTRAINTS ... IMMEDIATE -- check immediately at statement end."@, "SET CONSTRAINTS ALL IMMEDIATE;"@, "sql-set-constraints.html"@))
        .insert("DEFERRED"@, keyword_v("DEFERRED"@, "SET CONSTRAINTS ... DEFERRED -- defer check until commit. Constraint must be DEFERRABLE."@, "SET CONSTRAINTS fk_x DEFERRED;"@, "sql-set-constraints.html"@))
        .insert("TYPE"@, keyword_v("TYPE"@, "CREATE TYPE / ALTER TYPE -- composite, enum, range, base types."@, "CREATE TYPE status AS ENUM ('open','closed');"@, "sql-createtype.html"@))
        .insert("DOMAIN"@, keyword_v("DOMAIN"@, "CREATE DOMAIN -- named NOT NULL/CHECK shorthand over a base type."@, "CREATE DOMAIN email_t AS TEXT CHECK (VALUE ~ '@');"@, "sql-createdomain.html"@))
        .insert("DATABASE"@, keyword_v("DATABASE"@, "CREATE/ALTER/DROP DATABASE."@, "CREATE DATABASE mydb OWNER alice;"@, "sql-createdatabase.html"@))
        .insert("PUBLIC"@, keyword_v("PUBLIC"@, "Special pseudo-role granted access to everyone."@, "GRANT SELECT ON t TO PUBLIC;"@, "sql-grant.html"@))
        .insert("PRIVILEGES"@, keyword_v("PRIVILEGES"@, "Used with GRANT/REVOKE ALL PRIVILEGES."@, "GRANT ALL PRIVILEGES ON t TO bob;"@, "sql-grant.html"@))
        .insert("SECURITY"@, keyword_v("SECURITY"@, "SECURITY DEFINER / INVOKER on functions; controls whose privileges run the body."@, "CREATE FUNCTION f() ... SECURITY DEFINER;"@, "sql-createfunction.html"@))
        .insert("DEFINER"@, keyword_v("DEFINER"@, "Function runs with the privileges of the role that defined it."@, "SECURITY DEFINER"@, "sql-createfunction.html"@))
        .insert("INVOKER"@, keyword_v("INVOKER"@, "Function runs with the privileges of the calling role (default)."@, "SECURITY INVOKER"@, "sql-createfunction.html"@))
        .insert("OWNED"@, keyword_v("OWNED"@, "ALTER X OWNED BY ... -- transfer all objects owned by a role."@, "ALTER SCHEMA s OWNER TO alice;"@, "sql-alterrole.html"@))
        .insert("EXCLUDE"@, keyword_v("EXCLUDE"@, "Exclusion constraint -- generalised UNIQUE using operators."@, "EXCLUDE USING gist (room WITH =, span WITH &&)"@, "sql-createtable.html"@))
        .insert("GIST"@, keyword_v("GIST"@, "Generalised Search Tree -- index method for geometric / range / fts data."@, "CREATE INDEX ... USING gist (col);"@, "gist.html"@))
        .insert("GIN"@, keyword_v("GIN"@, "Generalised Inverted Index -- arrays, jsonb, full-text."@, "CREATE INDEX ... USING gin (col);"@, "gin.html"@))
        .insert("BRIN"@, keyword_v("BRIN"@, "Block Range INdex -- small index for large, naturally sorted tables."@, "CREATE INDEX ... USING brin (ts);"@, "brin.html"@))
        .insert("BTREE"@, keyword_v("BTREE"@, "B-tree -- default index method."@, "CREATE INDEX ... USING btree (col);"@, "btree.html"@))
        .insert("HASH"@, keyword_v("HASH"@, "Hash index -- equality only; WAL-logged since PG10."@, "CREATE INDEX ... USING hash (col);"@, "hash-index.html"@))
        .insert("LOCK"@, keyword_v("LOCK"@, "Acquire a table-level lock."@, "LOCK TABLE t IN ACCESS EXCLUSIVE MODE;"@, "sql-lock.html"@))
        .insert("SHARE"@, keyword_v("SHARE"@, "Lock mode allowing other readers (ROW SHARE / SHARE / SHARE UPDATE EXCLUSIVE / SHARE ROW EXCLUSIVE)."@, "LOCK t IN SHARE MODE;"@, "explicit-locking.html"@))
        .insert("ACCESS"@, keyword_v("ACCESS"@, "ACCESS SHARE / ACCESS EXCLUSIVE lock modes."@, "LOCK t IN ACCESS EXCLUSIVE MODE;"@, "explicit-locking.html"@))
        .insert("EXCLUSIVE"@, keyword_v("EXCLUSIVE"@, "EXCLUSIVE / ACCESS EXCLUSIVE / SHARE ROW EXCLUSIVE lock mode."@, "LOCK t IN EXCLUSIVE MODE;"@, "explicit-locking.html"@))
        .insert("MODE"@, keyword_v("MODE"@, "Lock-mode keyword in LOCK statements."@, "LOCK t IN SHARE MODE;"@, "sql-lock.html"@))
        .insert("NO"@, keyword_v("NO"@, "NO ACTION / NO INHERIT / NO CYCLE / WITH NO DATA."@, "ON DELETE NO ACTION"@, "sql-createtable.html"@))
        .insert("SKIP"@, keyword_v("SKIP"@, "SKIP LOCKED -- skip rows already locked by another transaction."@, "SELECT ... FOR UPDATE SKIP LOCKED;"@, "sql-select.html"@))
        .insert("LOCKED"@, keyword_v("LOCKED"@, "Used with SKIP LOCKED."@, "FOR UPDATE SKIP LOCKED"@, "sql-select.html"@))
        .insert("WAIT"@, keyword_v("WAIT"@, "NOWAIT / WAIT -- alternative to SKIP LOCKED in SELECT FOR locking."@, "SELECT ... FOR UPDATE NOWAIT;"@, "sql-select.html"@))
        .insert("ABORT"@, keyword_v("ABORT"@, "Synonym for ROLLBACK."@, "ABORT;"@, "sql-abort.html"@))
        .insert("CLUSTER"@, keyword_v("CLUSTER"@, "CLUSTER TABLE -- physically reorder by an index."@, "CLUSTER t USING idx;"@, "sql-cluster.html"@))
        .insert("CSV"@, keyword_v("CSV"@, "COPY ... FORMAT CSV."@, "COPY t FROM '/p.csv' CSV HEADER;"@, "sql-copy.html"@))
        .insert("PROGRAM"@, keyword_v("PROGRAM"@, "COPY ... FROM/TO PROGRAM 'cmd'."@, "COPY t FROM PROGRAM 'gunzip -c f.gz' CSV;"@, "sql-copy.html"@))
        .insert("DELIMITER"@, keyword_v("DELIMITER"@, "COPY DELIMITER ','."@, "COPY t FROM '/p.csv' DELIMITER ',';"@, "sql-copy.html"@))
        .insert("HEADER"@, keyword_v("HEADER"@, "COPY ... CSV HEADER -- skip first row."@, "COPY t FROM 'p.csv' CSV HEADER;"@, "sql-copy.html"@))
        .insert("QUOTE"@, keyword_v("QUOTE"@, "COPY ... CSV QUOTE '\"'."@, "COPY t TO 'p.csv' CSV QUOTE '\\'';"@, "sql-copy.html"@))
        .insert("FORCE"@, keyword_v("FORCE"@, "COPY ... FORCE QUOTE / FORCE NOT NULL."@, "COPY t TO 'p.csv' CSV FORCE QUOTE *;"@, "sql-copy.html"@))
        .insert("VERBOSE"@, keyword_v("VERBOSE"@, "EXPLAIN VERBOSE / VACUUM VERBOSE."@, "EXPLAIN VERBOSE SELECT ...;"@, "sql-explain.html"@))
        .insert("FORMAT"@, keyword_v("FORMAT"@, "EXPLAIN (FORMAT JSON|TEXT|YAML|XML)."@, "EXPLAIN (FORMAT JSON) SELECT ...;"@, "sql-explain.html"@))
        .insert("TIMING"@, keyword_v("TIMING"@, "EXPLAIN (TIMING true|false) -- per-node timing."@, "EXPLAIN (ANALYZE, TIMING true) SELECT ...;"@, "sql-explain.html"@))
        .insert("SETTINGS"@, keyword_v("SETTINGS"@, "EXPLAIN (SETTINGS true) -- list non-default GUCs."@, "EXPLAIN (SETTINGS true) SELECT ...;"@, "sql-explain.html"@))
        .insert("ENABLE"@, keyword_v("ENABLE"@, "ALTER TABLE ENABLE TRIGGER / RULE / ROW LEVEL SECURITY / REPLICA."@, "ALTER TABLE t ENABLE ROW LEVEL SECURITY;"@, "sql-altertable.html"@))
        .insert("DISABLE"@, keyword_v("DISABLE"@, "ALTER TABLE DISABLE TRIGGER / RULE / RLS."@, "ALTER TABLE t DISABLE TRIGGER ALL;"@, "sql-altertable.html"@))
        .insert("REPLICA"@, keyword_v("REPLICA"@, "ALTER TABLE REPLICA IDENTITY -- pick what gets logged for logical replication."@, "ALTER TABLE t REPLICA IDENTITY FULL;"@, "sql-altertable.html"@))
        .insert("RULE"@, keyword_v("RULE"@, "CREATE RULE -- query rewriter (mostly used internally by views)."@, "CREATE RULE ... AS ON SELECT TO ... DO INSTEAD ...;"@, "sql-createrule.html"@))
        .insert("ABSOLUTE"@, keyword_v("ABSOLUTE"@, "FETCH ABSOLUTE <n> FROM <cursor> -- jump to row <n> (1-based) without sequential scan."@, "FETCH ABSOLUTE 100 FROM c;"@, "sql-fetch.html"@))
        .insert("ACTION"@, keyword_v("ACTION"@, "FK referential action: NO ACTION (default), CASCADE, SET NULL, SET DEFAULT, RESTRICT."@, "FOREIGN KEY (uid) REFERENCES users(id) ON DELETE NO ACTION"@, "sql-createtable.html#SQL-CREATETABLE-REFERENCES"@))
        .insert("ADMIN"@, keyword_v("ADMIN"@, "GRANT <role> TO <member> WITH ADMIN OPTION -- recipient can grant <role> to others."@, "GRANT app_admin TO alice WITH ADMIN OPTION;"@, "sql-grant.html"@))
        .insert("AGGREGATE"@, keyword_v("AGGREGATE"@, "CREATE/ALTER/DROP AGGREGATE -- user-defined aggregate function with state transition + final fn."@, "CREATE AGGREGATE sum_squares(int) (SFUNC = int4pl, STYPE = int);"@, "sql-createaggregate.html"@))
        .insert("ALSO"@, keyword_v("ALSO"@, "CREATE RULE ... DO ALSO <action> -- rule runs ALONGSIDE the original DML (vs DO INSTEAD)."@, "CREATE RULE log_ins AS ON INSERT TO t DO ALSO INSERT INTO audit VALUES (NEW.id);"@, "sql-createrule.html"@))
        .insert("ANALYSE"@, keyword_v("ANALYSE"@, "British spelling of ANALYZE; same behavior."@, "EXPLAIN (ANALYSE) SELECT * FROM t;"@, "sql-analyze.html"@))
        .insert("ASENSITIVE"@, keyword_v("ASENSITIVE"@, "DECLARE <c> ASENSITIVE CURSOR ... -- SQL-standard noise word (default in PG). Cursor's visibility of concurrent updates is implementation-defined."@, "DECLARE c ASENSITIVE CURSOR FOR SELECT * FROM t;"@, "sql-declare.html"@))
        .insert("ASSERTION"@, keyword_v("ASSERTION"@, "SQL-standard `CREATE ASSERTION <name> CHECK (...)` -- reserved in PG, not implemented."@, "-- reserved"@, "appendix-keywords.html"@))
        .insert("ASSIGNMENT"@, keyword_v("ASSIGNMENT"@, "CREATE CAST ... AS ASSIGNMENT -- cast injected during `INSERT`/`UPDATE` column-value assignment, not in general expressions."@, "CREATE CAST (text AS my_t) WITH FUNCTION my_t_in(text) AS ASSIGNMENT;"@, "sql-createcast.html"@))
        .insert("ASYMMETRIC"@, keyword_v("ASYMMETRIC"@, "BETWEEN [ASYMMETRIC] -- default; requires lower <= upper. Compare with SYMMETRIC."@, "WHERE x BETWEEN ASYMMETRIC 1 AND 10"@, "functions-comparison.html"@))
        .insert("AT"@, keyword_v("AT"@, "<timestamptz> AT TIME ZONE '<tz>' -- convert between zones; AT LOCAL (PG17+) for session zone."@, "SELECT now() AT TIME ZONE 'UTC';"@, "functions-datetime.html#FUNCTIONS-DATETIME-ZONECONVERT"@))
        .insert("ATTACH"@, keyword_v("ATTACH"@, "ALTER TABLE <parent> ATTACH PARTITION <child> FOR VALUES ... -- promote regular table to a partition."@, "ALTER TABLE events ATTACH PARTITION events_2026 FOR VALUES FROM ('2026-01-01') TO ('2027-01-01');"@, "sql-altertable.html"@))
        .insert("ATTRIBUTE"@, keyword_v("ATTRIBUTE"@, "ALTER TYPE <composite> { ADD | DROP | ALTER } ATTRIBUTE <a> ... -- modify composite type's columns."@, "ALTER TYPE point3d ADD ATTRIBUTE z double precision;"@, "sql-altertype.html"@))
        .insert("AUTHORIZATION"@, keyword_v("AUTHORIZATION"@, "CREATE SCHEMA <s> AUTHORIZATION <role> -- create schema owned by <role>."@, "CREATE SCHEMA app AUTHORIZATION app_owner;"@, "sql-createschema.html"@))
        .insert("BACKWARD"@, keyword_v("BACKWARD"@, "FETCH BACKWARD <n> FROM <cursor> -- step <n> rows toward start. Requires SCROLL cursor."@, "FETCH BACKWARD 10 FROM c;"@, "sql-fetch.html"@))
        .insert("BIGINT"@, keyword_v("BIGINT"@, "Signed 8-byte integer, range -9223372036854775808..+9223372036854775807. Alias `int8`."@, "CREATE TABLE counters (id BIGSERIAL PRIMARY KEY, hits BIGINT NOT NULL DEFAULT 0);"@, "datatype-numeric.html#DATATYPE-INT"@))
        .insert("BINARY"@, keyword_v("BINARY"@, "COPY ... WITH (FORMAT binary) -- machine-readable wire format (no header line). Older syntax: `COPY ... BINARY`."@, "COPY t TO '/tmp/d.bin' WITH (FORMAT binary);"@, "sql-copy.html"@))
        .insert("BIT"@, keyword_v("BIT"@, "Fixed-length bit string. `BIT(n)` -- exactly n bits. Variable form: `BIT VARYING(n)` / `VARBIT(n)`."@, "flags BIT(8)"@, "datatype-bit.html"@))
        .insert("BOOLEAN"@, keyword_v("BOOLEAN"@, "Three-valued logic: TRUE / FALSE / NULL. 1 byte storage. Alias `bool`."@, "CREATE TABLE flags (k text PRIMARY KEY, v BOOLEAN NOT NULL DEFAULT false);"@, "datatype-boolean.html"@))
        .insert("BOTH"@, keyword_v("BOTH"@, "TRIM([BOTH] <chars> FROM <s>) -- strip <chars> from both ends. Default direction."@, "SELECT TRIM(BOTH ' ' FROM '  hello  ');"@, "functions-string.html#FUNCTIONS-STRING-OTHER"@))
        .insert("BREADTH"@, keyword_v("BREADTH"@, "WITH RECURSIVE ... SEARCH BREADTH FIRST BY <cols> SET <out> -- BFS traversal annotation for recursive CTEs (PG14+)."@, "WITH RECURSIVE t AS (...) SEARCH BREADTH FIRST BY id SET ord SELECT * FROM t ORDER BY ord;"@, "queries-with.html#QUERIES-WITH-SEARCH"@))
        .insert("CACHE"@, keyword_v("CACHE"@, "CREATE SEQUENCE ... CACHE <n> -- preallocate `<n>` values per backend; reduces locking but wastes IDs on crash."@, "CREATE SEQUENCE s CACHE 50;"@, "sql-createsequence.html"@))
        .insert("CALLED"@, keyword_v("CALLED"@, "CREATE FUNCTION ... CALLED ON NULL INPUT -- default; fn body runs even when an arg is NULL. Opposite of `STRICT` / `RETURNS NULL ON NULL INPUT`."@, "CREATE FUNCTION f(int) RETURNS int LANGUAGE sql CALLED ON NULL INPUT AS $$ SELECT 1 $$;"@, "sql-createfunction.html"@))
        .insert("CASCADED"@, keyword_v("CASCADED"@, "CREATE VIEW ... WITH CASCADED CHECK OPTION -- updated rows must satisfy this view's predicate AND all underlying views'."@, "CREATE VIEW v WITH CASCADED CHECK OPTION AS SELECT * FROM t WHERE active;"@, "sql-createview.html"@))
        .insert("CATALOG"@, keyword_v("CATALOG"@, "SQL-standard alias for database (synonymous with `CURRENT_CATALOG`). Mostly reserved noise in PG."@, "SELECT CURRENT_CATALOG;"@, "functions-info.html"@))
        .insert("CHAIN"@, keyword_v("CHAIN"@, "COMMIT AND CHAIN / ROLLBACK AND CHAIN -- end the current transaction and immediately start a new one with the same options."@, "COMMIT AND CHAIN;"@, "sql-commit.html"@))
        .insert("CHAR"@, keyword_v("CHAR"@, "Fixed-length blank-padded string. `CHAR(n)` = `CHARACTER(n)`. Prefer TEXT unless padding is required."@, "code CHAR(3)"@, "datatype-character.html"@))
        .insert("CHARACTER"@, keyword_v("CHARACTER"@, "Fixed-length blank-padded string. `CHARACTER(n)` = `CHAR(n)`. Prefer TEXT unless you really need padding."@, "name CHARACTER(10)"@, "datatype-character.html"@))
        .insert("CHARACTERISTICS"@, keyword_v("CHARACTERISTICS"@, "SET SESSION CHARACTERISTICS AS TRANSACTION ... -- set default transaction options for the session."@, "SET SESSION CHARACTERISTICS AS TRANSACTION ISOLATION LEVEL SERIALIZABLE READ ONLY;"@, "sql-set-transaction.html"@))
        .insert("CLASS"@, keyword_v("CLASS"@, "CREATE/DROP OPERATOR CLASS -- set of operators + support functions an index AM uses for a specific type."@, "CREATE OPERATOR CLASS my_int_ops DEFAULT FOR TYPE int USING btree AS OPERATOR 1 < ...;"@, "sql-createopclass.html"@))
}

spec fn keyword_part_4(m: Map<Seq<char>, EntryV>) -> Map<Seq<char>, EntryV> {
    m
        .insert("CLOSE"@, keyword_v("CLOSE"@, "CLOSE <cursor> | CLOSE ALL -- release cursor and its resources."@, "CLOSE c;"@, "sql-close.html"@))
        .insert("COALESCE"@, keyword_v("COALESCE"@, "Returns the first non-NULL argument; short-circuits."@, "SELECT COALESCE(nickname, name, 'anon') FROM users;"@, "functions-conditional.html#FUNCTIONS-COALESCE-NVL-IFNULL"@))
        .insert("COLLATION"@, keyword_v("COLLATION"@, "Column/expression collation -- locale rules for ordering/comparison of strings."@, "name TEXT COLLATE \"en_US.utf8\""@, "sql-createcollation.html"@))
        .insert("COLUMNS"@, keyword_v("COLUMNS"@, "JSON_TABLE(... COLUMNS (<col_specs>)) -- declare projected output columns of a JSON_TABLE expression."@, "SELECT * FROM JSON_TABLE(j, '$[*]' COLUMNS (id INT PATH '$.id', name TEXT PATH '$.n'));"@, "functions-json.html#FUNCTIONS-SQLJSON-TABLE"@))
        .insert("COMMENTS"@, keyword_v("COMMENTS"@, "CREATE TABLE ... LIKE parent INCLUDING COMMENTS -- carry COMMENT ON COLUMN annotations over from parent."@, "CREATE TABLE child (LIKE parent INCLUDING COMMENTS);"@, "sql-createtable.html"@))
        .insert("COMMITTED"@, keyword_v("COMMITTED"@, "SET TRANSACTION ISOLATION LEVEL READ COMMITTED -- default isolation; sees rows committed before each statement starts."@, "BEGIN ISOLATION LEVEL READ COMMITTED;"@, "transaction-iso.html#XACT-READ-COMMITTED"@))
        .insert("COMPRESSION"@, keyword_v("COMPRESSION"@, "ALTER COLUMN ... SET COMPRESSION { pglz | lz4 | default } -- per-column TOAST compression (PG14+)."@, "ALTER TABLE t ALTER COLUMN body SET COMPRESSION lz4;"@, "sql-altertable.html"@))
        .insert("CONFIGURATION"@, keyword_v("CONFIGURATION"@, "CREATE/ALTER/DROP TEXT SEARCH CONFIGURATION -- token-to-dictionary map for full-text search."@, "CREATE TEXT SEARCH CONFIGURATION my (COPY = simple);"@, "sql-createtsconfig.html"@))
        .insert("CONNECTION"@, keyword_v("CONNECTION"@, "CREATE/ALTER/DROP PUBLICATION ... / SUBSCRIPTION ... CONNECTION '...' -- connection string of the publisher cluster."@, "CREATE SUBSCRIPTION s CONNECTION 'host=pub user=repl' PUBLICATION p;"@, "sql-createsubscription.html"@))
        .insert("CONSTRAINTS"@, keyword_v("CONSTRAINTS"@, "SET CONSTRAINTS { ALL | <names> } { DEFERRED | IMMEDIATE } -- defer FK/UNIQUE checks until COMMIT, or force re-check now."@, "SET CONSTRAINTS ALL DEFERRED;"@, "sql-set-constraints.html"@))
        .insert("CONTENT"@, keyword_v("CONTENT"@, "xmlparse(CONTENT '<x/>') / xmlserialize(CONTENT ...) -- XML content (fragment), no DOCUMENT prologue required."@, "SELECT xmlparse(CONTENT '<a/>');"@, "functions-xml.html#FUNCTIONS-PRODUCING-XML"@))
        .insert("CONVERSION"@, keyword_v("CONVERSION"@, "CREATE/DROP CONVERSION -- character-set conversion between two encodings."@, "CREATE CONVERSION my_conv FOR 'LATIN1' TO 'UTF8' FROM iso8859_1_to_utf8;"@, "sql-createconversion.html"@))
        .insert("COST"@, keyword_v("COST"@, "CREATE FUNCTION ... COST <c> -- planner hint: per-row execution cost (default 100; 1 for built-ins, 10 for SQL fns)."@, "CREATE FUNCTION f() RETURNS int LANGUAGE sql COST 10 AS $$ SELECT 1 $$;"@, "sql-createfunction.html"@))
        .insert("CURRENT_CATALOG"@, keyword_v("CURRENT_CATALOG"@, "Returns the current database name (SQL standard synonym of `current_database()`)."@, "SELECT CURRENT_CATALOG;"@, "functions-info.html"@))
        .insert("CURRENT_DATE"@, keyword_v("CURRENT_DATE"@, "Returns today's date in the session time zone."@, "SELECT CURRENT_DATE;"@, "functions-datetime.html#FUNCTIONS-DATETIME-CURRENT"@))
        .insert("CURRENT_ROLE"@, keyword_v("CURRENT_ROLE"@, "Returns the active role name (synonym of `CURRENT_USER`)."@, "SELECT CURRENT_ROLE;"@, "functions-info.html"@))
        .insert("CURRENT_SCHEMA"@, keyword_v("CURRENT_SCHEMA"@, "Returns the first non-implicit schema in `search_path`."@, "SELECT CURRENT_SCHEMA;"@, "functions-info.html"@))
        .insert("CURRENT_TIME"@, keyword_v("CURRENT_TIME"@, "Returns the wall-clock time-with-time-zone for the current transaction."@, "SELECT CURRENT_TIME;"@, "functions-datetime.html#FUNCTIONS-DATETIME-CURRENT"@))
        .insert("CURRENT_TIMESTAMP"@, keyword_v("CURRENT_TIMESTAMP"@, "Returns transaction start timestamptz (same value within one transaction)."@, "SELECT CURRENT_TIMESTAMP;"@, "functions-datetime.html#FUNCTIONS-DATETIME-CURRENT"@))
        .insert("CURRENT_USER"@, keyword_v("CURRENT_USER"@, "Returns the active SQL user name (effective role for permission checks)."@, "SELECT CURRENT_USER;"@, "functions-info.html"@))
        .insert("CURSOR"@, keyword_v("CURSOR"@, "DECLARE <name> CURSOR FOR <query> -- server-side iterator over query results."@, "DECLARE c CURSOR FOR SELECT * FROM big;"@, "sql-declare.html"@))
        .insert("CYCLE"@, keyword_v("CYCLE"@, "CREATE SEQUENCE ... CYCLE -- wrap to MINVALUE/MAXVALUE instead of raising error when exhausted."@, "CREATE SEQUENCE s CYCLE;"@, "sql-createsequence.html"@))
        .insert("DATA"@, keyword_v("DATA"@, "Two uses: `CREATE TABLE AS ... WITH [NO] DATA` (copy rows or not), and `CREATE FOREIGN DATA WRAPPER`."@, "CREATE TABLE snap AS SELECT * FROM t WITH NO DATA;"@, "sql-createtableas.html"@))
        .insert("DAY"@, keyword_v("DAY"@, "EXTRACT(DAY FROM <ts|interval>) -- day-of-month for timestamps; total days for intervals."@, "SELECT EXTRACT(DAY FROM now());"@, "functions-datetime.html#FUNCTIONS-DATETIME-EXTRACT"@))
        .insert("DEC"@, keyword_v("DEC"@, "SQL-standard short form of DECIMAL. Same precision/scale rules."@, "amount DEC(12,2)"@, "datatype-numeric.html#DATATYPE-NUMERIC-DECIMAL"@))
        .insert("DECIMAL"@, keyword_v("DECIMAL"@, "Exact arbitrary-precision number. Alias `NUMERIC`. Use for money/measurements; never `float`."@, "price DECIMAL(12,2) NOT NULL CHECK (price >= 0)"@, "datatype-numeric.html#DATATYPE-NUMERIC-DECIMAL"@))
        .insert("DELIMITERS"@, keyword_v("DELIMITERS"@, "Legacy keyword for delimiter list in `CREATE OPERATOR` AST -- in modern PG superseded by `COPY DELIMITER '<c>'`."@, "COPY t FROM '/tmp/d.csv' WITH (DELIMITER ',');"@, "sql-copy.html"@))
        .insert("DEPENDS"@, keyword_v("DEPENDS"@, "ALTER ... DEPENDS ON EXTENSION <name> -- mark object as dependent on extension; DROP EXTENSION cascades."@, "ALTER FUNCTION my_fn() DEPENDS ON EXTENSION my_ext;"@, "sql-alterfunction.html"@))
        .insert("DEPTH"@, keyword_v("DEPTH"@, "WITH RECURSIVE ... SEARCH DEPTH FIRST BY <cols> SET <out> -- DFS traversal annotation for recursive CTEs (PG14+)."@, "WITH RECURSIVE t AS (...) SEARCH DEPTH FIRST BY id SET ord SELECT * FROM t ORDER BY ord;"@, "queries-with.html#QUERIES-WITH-SEARCH"@))
        .insert("DETACH"@, keyword_v("DETACH"@, "ALTER TABLE <parent> DETACH PARTITION <child> [CONCURRENTLY | FINALIZE] -- remove partition from a partitioned table; CONCURRENTLY avoids AccessExclusive lock (PG14+)."@, "ALTER TABLE events DETACH PARTITION events_2019 CONCURRENTLY;"@, "sql-altertable.html"@))
        .insert("DICTIONARY"@, keyword_v("DICTIONARY"@, "CREATE/ALTER/DROP TEXT SEARCH DICTIONARY -- normalizer (stem/synonym/stopword) used by FTS configs."@, "CREATE TEXT SEARCH DICTIONARY english_stem (TEMPLATE = snowball, LANGUAGE = 'english');"@, "sql-createtsdictionary.html"@))
        .insert("DISCARD"@, keyword_v("DISCARD"@, "DISCARD { ALL | PLANS | SEQUENCES | TEMP | TEMPORARY } -- reset session state. `DISCARD ALL` is what connection poolers run between hand-offs."@, "DISCARD ALL;"@, "sql-discard.html"@))
        .insert("DOCUMENT"@, keyword_v("DOCUMENT"@, "xmlparse(DOCUMENT '<x/>') / IS DOCUMENT predicate -- requires a complete XML document (single root, prologue allowed)."@, "SELECT x IS DOCUMENT FROM xml_t;"@, "functions-xml.html"@))
        .insert("DOUBLE"@, keyword_v("DOUBLE"@, "Part of `DOUBLE PRECISION` (8-byte IEEE-754). Standalone DOUBLE is not a PG type."@, "ratio DOUBLE PRECISION"@, "datatype-numeric.html#DATATYPE-FLOAT"@))
        .insert("ENCODING"@, keyword_v("ENCODING"@, "COPY ... ENCODING '<charset>' / CREATE DATABASE ... ENCODING <charset> -- declare character set."@, "COPY t FROM '/tmp/d.csv' WITH (FORMAT csv, ENCODING 'UTF8');"@, "sql-copy.html"@))
        .insert("ENCRYPTED"@, keyword_v("ENCRYPTED"@, "CREATE/ALTER ROLE ... [ENCRYPTED] PASSWORD '<pw>' -- store password hashed (now always true; raw text retained for syntax compat)."@, "ALTER ROLE alice ENCRYPTED PASSWORD 'secret';"@, "sql-createrole.html"@))
        .insert("ENUM"@, keyword_v("ENUM"@, "CREATE TYPE <t> AS ENUM ('a','b',...) -- fixed list of string values stored compactly. Add new labels with `ALTER TYPE ... ADD VALUE`."@, "CREATE TYPE mood AS ENUM ('sad','ok','happy');"@, "datatype-enum.html"@))
        .insert("EVENT"@, keyword_v("EVENT"@, "CREATE/ALTER/DROP EVENT TRIGGER -- fires on DDL events (ddl_command_start, ddl_command_end, table_rewrite, sql_drop)."@, "CREATE EVENT TRIGGER no_drops ON sql_drop EXECUTE FUNCTION block_drops();"@, "sql-createeventtrigger.html"@))
        .insert("EXPRESSION"@, keyword_v("EXPRESSION"@, "ALTER TABLE ... ALTER COLUMN <c> { SET | DROP } EXPRESSION -- swap or remove the generated-column expression (PG16+)."@, "ALTER TABLE t ALTER COLUMN full_name SET EXPRESSION AS (first || ' ' || last);"@, "sql-altertable.html"@))
        .insert("EXTENSION"@, keyword_v("EXTENSION"@, "CREATE / ALTER / DROP EXTENSION <name> -- packaged set of objects (tables, fns, ops) installed/upgraded as a unit."@, "CREATE EXTENSION IF NOT EXISTS pg_trgm;"@, "sql-createextension.html"@))
        .insert("EXTERNAL"@, keyword_v("EXTERNAL"@, "ALTER TABLE ... ALTER COLUMN <c> SET STORAGE EXTERNAL -- TOAST out-of-line but uncompressed."@, "ALTER TABLE t ALTER COLUMN body SET STORAGE EXTERNAL;"@, "sql-altertable.html"@))
        .insert("EXTRACT"@, keyword_v("EXTRACT"@, "EXTRACT(<field> FROM <timestamp|interval>) -- pull a sub-component (year, month, dow, epoch, ...)."@, "SELECT EXTRACT(YEAR FROM ts), EXTRACT(EPOCH FROM age(now(), birth)) FROM users;"@, "functions-datetime.html#FUNCTIONS-DATETIME-EXTRACT"@))
        .insert("FAMILY"@, keyword_v("FAMILY"@, "CREATE / ALTER / DROP OPERATOR FAMILY -- groups of operator classes sharing input types for index AMs."@, "CREATE OPERATOR FAMILY int_ops USING btree;"@, "sql-createopfamily.html"@))
        .insert("FINALIZE"@, keyword_v("FINALIZE"@, "ALTER TABLE ... DETACH PARTITION <child> FINALIZE -- complete a previously-interrupted DETACH CONCURRENTLY."@, "ALTER TABLE events DETACH PARTITION events_2019 FINALIZE;"@, "sql-altertable.html"@))
        .insert("FLOAT"@, keyword_v("FLOAT"@, "Inexact IEEE-754 number. `FLOAT(n)` maps to REAL (n<=24) or DOUBLE PRECISION (n>=25)."@, "weight FLOAT(24)"@, "datatype-numeric.html#DATATYPE-FLOAT"@))
        .insert("FORWARD"@, keyword_v("FORWARD"@, "FETCH FORWARD <n> FROM <cursor> -- fetch next <n> rows (default direction)."@, "FETCH FORWARD 100 FROM c;"@, "sql-fetch.html"@))
        .insert("FREEZE"@, keyword_v("FREEZE"@, "COPY ... WITH (FREEZE) -- mark rows as frozen so they skip VACUUM FREEZE later. Only valid when loading into a just-created table in the same xact."@, "COPY t FROM '/tmp/d.csv' WITH (FORMAT csv, FREEZE);"@, "sql-copy.html"@))
        .insert("FUNCTIONS"@, keyword_v("FUNCTIONS"@, "GRANT/REVOKE ... ON ALL FUNCTIONS IN SCHEMA / ALTER DEFAULT PRIVILEGES ... ON FUNCTIONS -- bulk privilege ops on functions."@, "GRANT EXECUTE ON ALL FUNCTIONS IN SCHEMA app TO svc;"@, "sql-grant.html"@))
        .insert("GLOBAL"@, keyword_v("GLOBAL"@, "Accepted for SQL-standard compat in `CREATE [GLOBAL] TEMPORARY TABLE`. PG ignores GLOBAL -- all temp tables are session-local."@, "CREATE GLOBAL TEMPORARY TABLE t (id int);"@, "sql-createtable.html"@))
        .insert("GRANTED"@, keyword_v("GRANTED"@, "REVOKE ... GRANTED BY <role> -- drop only the grant made by <role>. Required to clean privileges installed by an extension."@, "REVOKE SELECT ON t FROM alice GRANTED BY ext_owner;"@, "sql-revoke.html"@))
        .insert("GREATEST"@, keyword_v("GREATEST"@, "Returns the largest of the listed values (NULLs ignored unless all are NULL)."@, "SELECT GREATEST(a, b, c) FROM t;"@, "functions-conditional.html#FUNCTIONS-GREATEST-LEAST"@))
        .insert("GROUPING"@, keyword_v("GROUPING"@, "GROUPING(<col>[,...]) -- bitmask telling which columns of a GROUPING SETS / ROLLUP / CUBE row are NULL because the group rolled them up."@, "SELECT region, GROUPING(region) AS gr FROM s GROUP BY ROLLUP (region);"@, "functions-aggregate.html#FUNCTIONS-GROUPING-TABLE"@))
        .insert("HANDLER"@, keyword_v("HANDLER"@, "CREATE LANGUAGE / CREATE FOREIGN DATA WRAPPER ... HANDLER <fn> -- C function implementing the PL or FDW."@, "CREATE FOREIGN DATA WRAPPER fdw HANDLER my_fdw_handler;"@, "sql-createforeigndatawrapper.html"@))
        .insert("HOLD"@, keyword_v("HOLD"@, "DECLARE ... WITH HOLD CURSOR -- cursor survives COMMIT (vs WITHOUT HOLD, default)."@, "DECLARE c CURSOR WITH HOLD FOR SELECT id FROM t;"@, "sql-declare.html"@))
        .insert("HOUR"@, keyword_v("HOUR"@, "EXTRACT(HOUR FROM <ts|interval>) -- hour-of-day 0..23; interval hour part."@, "SELECT EXTRACT(HOUR FROM now());"@, "functions-datetime.html#FUNCTIONS-DATETIME-EXTRACT"@))
        .insert("IMPLICIT"@, keyword_v("IMPLICIT"@, "CREATE CAST ... AS IMPLICIT -- planner may inject the cast silently. Use sparingly -- breeds ambiguous overload resolution."@, "CREATE CAST (text AS my_t) WITH FUNCTION my_t_in(text) AS IMPLICIT;"@, "sql-createcast.html"@))
        .insert("IMPORT"@, keyword_v("IMPORT"@, "IMPORT FOREIGN SCHEMA <s> FROM SERVER <srv> INTO <local_s> -- bulk-create foreign tables for every remote table."@, "IMPORT FOREIGN SCHEMA public FROM SERVER remote INTO ext_pub;"@, "sql-importforeignschema.html"@))
        .insert("INCLUDE"@, keyword_v("INCLUDE"@, "CREATE INDEX ... INCLUDE (<cols>) -- non-key columns stored in leaf pages; enables index-only scans without affecting uniqueness."@, "CREATE INDEX ix_users_email ON users (email) INCLUDE (id, name);"@, "sql-createindex.html"@))
        .insert("INCREMENT"@, keyword_v("INCREMENT"@, "CREATE SEQUENCE ... INCREMENT [BY] <n> -- step between successive `nextval()` results."@, "CREATE SEQUENCE s INCREMENT BY 10;"@, "sql-createsequence.html"@))
        .insert("INDEXES"@, keyword_v("INDEXES"@, "CREATE TABLE ... LIKE parent INCLUDING INDEXES -- copy parent's PK/UNIQUE/EXCLUDE constraints + corresponding indexes."@, "CREATE TABLE child (LIKE parent INCLUDING INDEXES);"@, "sql-createtable.html"@))
        .insert("INHERIT"@, keyword_v("INHERIT"@, "CREATE/ALTER ROLE ... [NO]INHERIT -- whether the role automatically uses the privileges of granted roles."@, "ALTER ROLE alice INHERIT;"@, "sql-createrole.html"@))
        .insert("INITIALLY"@, keyword_v("INITIALLY"@, "Constraint timing: DEFERRABLE INITIALLY { DEFERRED | IMMEDIATE } -- per-transaction default check mode for deferrable constraints."@, "FOREIGN KEY (uid) REFERENCES users(id) DEFERRABLE INITIALLY DEFERRED"@, "sql-createtable.html"@))
        .insert("INLINE"@, keyword_v("INLINE"@, "CREATE LANGUAGE ... INLINE <fn> -- C function that executes anonymous DO blocks. Internal."@, "CREATE LANGUAGE plpgsql HANDLER plpgsql_call_handler INLINE plpgsql_inline_handler;"@, "sql-createlanguage.html"@))
        .insert("INOUT"@, keyword_v("INOUT"@, "Function/procedure parameter mode: combines IN + OUT -- caller passes a value, callee returns one."@, "CREATE PROCEDURE p(INOUT counter int) LANGUAGE plpgsql AS $$ BEGIN counter := counter + 1; END $$;"@, "sql-createfunction.html"@))
        .insert("INPUT"@, keyword_v("INPUT"@, "CREATE TYPE ... INPUT = <fn> -- C function parsing text input form. Pair with `OUTPUT`."@, "CREATE TYPE complex (INPUT = complex_in, OUTPUT = complex_out, INTERNALLENGTH = 16);"@, "sql-createtype.html"@))
        .insert("INSENSITIVE"@, keyword_v("INSENSITIVE"@, "DECLARE <c> INSENSITIVE CURSOR ... -- SQL-standard noise word in PG (every cursor sees a snapshot). Kept for compat."@, "DECLARE c INSENSITIVE CURSOR FOR SELECT * FROM t;"@, "sql-declare.html"@))
        .insert("INT"@, keyword_v("INT"@, "Signed 4-byte integer, range -2147483648..+2147483647. Alias `INTEGER` / `int4`."@, "qty INT NOT NULL DEFAULT 0"@, "datatype-numeric.html#DATATYPE-INT"@))
        .insert("INTEGER"@, keyword_v("INTEGER"@, "Signed 4-byte integer, range -2147483648..+2147483647. Alias `INT` / `int4`."@, "age INTEGER CHECK (age >= 0)"@, "datatype-numeric.html#DATATYPE-INT"@))
        .insert("LABEL"@, keyword_v("LABEL"@, "SECURITY LABEL FOR <provider> ON ... IS '<label>' / ALTER TYPE ... ADD VALUE -- attach security label, or add enum label."@, "ALTER TYPE mood ADD VALUE 'meh' AFTER 'ok';"@, "sql-security-label.html"@))
        .insert("LARGE"@, keyword_v("LARGE"@, "CREATE/DROP CAST ... ON LARGE OBJECT, lo_* fns -- LARGE OBJECT family (bytea-style server-side blobs)."@, "SELECT lo_create(0);"@, "largeobjects.html"@))
        .insert("LEADING"@, keyword_v("LEADING"@, "TRIM(LEADING <chars> FROM <s>) -- strip <chars> from the left."@, "SELECT TRIM(LEADING '0' FROM '00042');"@, "functions-string.html#FUNCTIONS-STRING-OTHER"@))
        .insert("LEAKPROOF"@, keyword_v("LEAKPROOF"@, "CREATE FUNCTION ... LEAKPROOF -- promise that function reveals no info about args beyond return value. Required for use in RLS-protected views."@, "CREATE FUNCTION pure_eq(a int, b int) RETURNS boolean LANGUAGE sql LEAKPROOF AS $$ SELECT a = b $$;"@, "sql-createfunction.html"@))
        .insert("LEAST"@, keyword_v("LEAST"@, "Returns the smallest of the listed values (NULLs ignored unless all are NULL)."@, "SELECT LEAST(a, b, c) FROM t;"@, "functions-conditional.html#FUNCTIONS-GREATEST-LEAST"@))
        .insert("LOAD"@, keyword_v("LOAD"@, "LOAD '<shared_library>' -- explicitly load a shared library into the backend (superuser-only for non-default paths)."@, "LOAD 'auto_explain';"@, "sql-load.html"@))
        .insert("LOCAL"@, keyword_v("LOCAL"@, "SET LOCAL <param> = <value> -- only affects the current transaction (vs SET, which lasts the session)."@, "BEGIN; SET LOCAL statement_timeout = '5s'; ...; COMMIT;"@, "sql-set.html"@))
}

spec fn keyword_part_5(m: Map<Seq<char>, EntryV>) -> Map<Seq<char>, EntryV> {
    m
        .insert("LOCALTIME"@, keyword_v("LOCALTIME"@, "Returns the current time-without-time-zone in the session zone."@, "SELECT LOCALTIME;"@, "functions-datetime.html#FUNCTIONS-DATETIME-CURRENT"@))
        .insert("LOCALTIMESTAMP"@, keyword_v("LOCALTIMESTAMP"@, "Returns the current timestamp-without-time-zone (transaction start)."@, "SELECT LOCALTIMESTAMP;"@, "functions-datetime.html#FUNCTIONS-DATETIME-CURRENT"@))
        .insert("LOCATION"@, keyword_v("LOCATION"@, "CREATE TABLESPACE <ts> LOCATION '<path>' / CREATE DATABASE ... TABLESPACE -- filesystem directory where data lives."@, "CREATE TABLESPACE fast LOCATION '/mnt/nvme/pg';"@, "sql-createtablespace.html"@))
        .insert("LOGGED"@, keyword_v("LOGGED"@, "ALTER TABLE ... SET { LOGGED | UNLOGGED } -- switch between WAL-logged (crash-safe) and unlogged (faster, lost on crash)."@, "ALTER TABLE staging SET LOGGED;"@, "sql-altertable.html"@))
        .insert("MAPPING"@, keyword_v("MAPPING"@, "CREATE/ALTER/DROP USER MAPPING FOR <role> SERVER <srv> -- per-user credentials for a foreign server."@, "CREATE USER MAPPING FOR alice SERVER remote OPTIONS (user 'alice', password 's');"@, "sql-createusermapping.html"@))
        .insert("MATCH"@, keyword_v("MATCH"@, "FOREIGN KEY ... MATCH { FULL | PARTIAL | SIMPLE } -- how composite FK handles NULLs. SIMPLE (default) lets any NULL pass."@, "FOREIGN KEY (a,b) REFERENCES p(a,b) MATCH FULL"@, "sql-createtable.html#SQL-CREATETABLE-PARMS-REFERENCES"@))
        .insert("MAXVALUE"@, keyword_v("MAXVALUE"@, "CREATE SEQUENCE ... MAXVALUE <n> | NO MAXVALUE -- ceiling for ascending sequences."@, "CREATE SEQUENCE s MAXVALUE 100000;"@, "sql-createsequence.html"@))
        .insert("METHOD"@, keyword_v("METHOD"@, "CREATE INDEX ... USING <method> / ALTER TABLE ... SET ACCESS METHOD <am> -- pick index/table access method (btree, hash, gin, gist, brin, heap, ...)."@, "ALTER TABLE big SET ACCESS METHOD heap;"@, "sql-altertable.html"@))
        .insert("MINUTE"@, keyword_v("MINUTE"@, "EXTRACT(MINUTE FROM <ts|interval>) -- minute 0..59; interval minute part."@, "SELECT EXTRACT(MINUTE FROM now());"@, "functions-datetime.html#FUNCTIONS-DATETIME-EXTRACT"@))
        .insert("MINVALUE"@, keyword_v("MINVALUE"@, "CREATE SEQUENCE ... MINVALUE <n> | NO MINVALUE -- floor for descending sequences."@, "CREATE SEQUENCE s INCREMENT -1 MINVALUE 0 START WITH 100;"@, "sql-createsequence.html"@))
        .insert("MONTH"@, keyword_v("MONTH"@, "EXTRACT(MONTH FROM <ts|interval>) -- 1..12 for timestamps; remaining months in interval after years."@, "SELECT EXTRACT(MONTH FROM now());"@, "functions-datetime.html#FUNCTIONS-DATETIME-EXTRACT"@))
        .insert("MOVE"@, keyword_v("MOVE"@, "MOVE <direction> <n> FROM <cursor> -- reposition cursor without returning rows."@, "MOVE FORWARD 100 FROM c;"@, "sql-move.html"@))
        .insert("NAME"@, keyword_v("NAME"@, "Internal PG type for identifiers (NAMEDATALEN-1 bytes, default 63). Used by system catalogs."@, "SELECT relname::name FROM pg_class LIMIT 5;"@, "datatype-character.html"@))
        .insert("NAMES"@, keyword_v("NAMES"@, "SET NAMES '<charset>' -- client encoding alias. PG-compat form of `SET client_encoding`."@, "SET NAMES 'UTF8';"@, "multibyte.html"@))
        .insert("NATIONAL"@, keyword_v("NATIONAL"@, "`NATIONAL CHARACTER [VARYING](n)` -- SQL-standard alias of CHAR(n)/VARCHAR(n). PG treats national chars same as CHAR."@, "name NATIONAL CHARACTER VARYING(64)"@, "datatype-character.html"@))
        .insert("NCHAR"@, keyword_v("NCHAR"@, "Alias of CHAR. PG-compat for SQL-standard `NATIONAL CHARACTER`."@, "code NCHAR(3)"@, "datatype-character.html"@))
        .insert("NFC"@, keyword_v("NFC"@, "Unicode Normalization Form C (composed). Argument to `normalize()`/IS NORMALIZED."@, "SELECT normalize('café', NFC);"@, "functions-string.html#FUNCTIONS-STRING-NORMALIZATION"@))
        .insert("NFD"@, keyword_v("NFD"@, "Unicode Normalization Form D (decomposed)."@, "SELECT normalize('café', NFD);"@, "functions-string.html#FUNCTIONS-STRING-NORMALIZATION"@))
        .insert("NFKC"@, keyword_v("NFKC"@, "Unicode Normalization Form KC (compatibility composed)."@, "SELECT normalize('fi', NFKC);"@, "functions-string.html#FUNCTIONS-STRING-NORMALIZATION"@))
        .insert("NFKD"@, keyword_v("NFKD"@, "Unicode Normalization Form KD (compatibility decomposed)."@, "SELECT normalize('fi', NFKD);"@, "functions-string.html#FUNCTIONS-STRING-NORMALIZATION"@))
        .insert("NONE"@, keyword_v("NONE"@, "Placeholder type for `CREATE OPERATOR` when a side has no argument (prefix/postfix op)."@, "CREATE OPERATOR -@ (RIGHTARG = numeric, FUNCTION = neg);"@, "sql-createoperator.html"@))
        .insert("NORMALIZE"@, keyword_v("NORMALIZE"@, "normalize(<text> [, NFC|NFD|NFKC|NFKD]) -- Unicode normalization (PG13+). Default NFC."@, "SELECT normalize('café', NFC);"@, "functions-string.html#FUNCTIONS-STRING-NORMALIZATION"@))
        .insert("NORMALIZED"@, keyword_v("NORMALIZED"@, "<text> IS [NOT] [<form>] NORMALIZED -- predicate testing Unicode normalization (PG13+)."@, "SELECT 'café' IS NORMALIZED NFC;"@, "functions-string.html#FUNCTIONS-STRING-NORMALIZATION"@))
        .insert("NOTNULL"@, keyword_v("NOTNULL"@, "PG-specific shortcut: `<expr> NOTNULL` -- equivalent to `<expr> IS NOT NULL`. Compare with ISNULL."@, "WHERE deleted_at NOTNULL"@, "functions-comparison.html"@))
        .insert("NULLIF"@, keyword_v("NULLIF"@, "Returns NULL when arg1 = arg2, otherwise arg1 -- inverse of COALESCE."@, "SELECT NULLIF(score, 0) FROM rows;"@, "functions-conditional.html#FUNCTIONS-NULLIF"@))
        .insert("NUMERIC"@, keyword_v("NUMERIC"@, "Exact arbitrary-precision number; safe for money. `NUMERIC(p,s)` -- p total digits, s after decimal point."@, "balance NUMERIC(15,4) NOT NULL DEFAULT 0"@, "datatype-numeric.html#DATATYPE-NUMERIC-DECIMAL"@))
        .insert("OBJECT"@, keyword_v("OBJECT"@, "SECURITY LABEL FOR <provider> ON <object_type> <name> IS '<label>' -- attach a security label to a database object."@, "SECURITY LABEL FOR selinux ON TABLE t IS 'system_u:object_r:sepgsql_table_t:s0';"@, "sql-security-label.html"@))
        .insert("OFF"@, keyword_v("OFF"@, "GUC boolean false. `SET <param> = off`. Equivalent to `false` / `0` / `no`."@, "SET enable_seqscan = off;"@, "config-setting.html"@))
        .insert("OIDS"@, keyword_v("OIDS"@, "Legacy CREATE TABLE ... WITH OIDS -- removed in PG12. Only kept as a parse-stage relic."@, "-- removed: every row had a system OID column"@, "sql-createtable.html"@))
        .insert("OPERATOR"@, keyword_v("OPERATOR"@, "CREATE/ALTER/DROP OPERATOR -- user-defined infix/prefix operator backed by a function."@, "CREATE OPERATOR === (LEFTARG = int, RIGHTARG = int, FUNCTION = my_eq);"@, "sql-createoperator.html"@))
        .insert("OPTION"@, keyword_v("OPTION"@, "GRANT ... WITH GRANT/ADMIN OPTION / CREATE VIEW ... WITH CHECK OPTION -- grant-forwarding or update-check predicate."@, "GRANT SELECT ON t TO svc WITH GRANT OPTION;"@, "sql-grant.html"@))
        .insert("OPTIONS"@, keyword_v("OPTIONS"@, "ALTER FOREIGN TABLE / SERVER / USER MAPPING ... OPTIONS (ADD|SET|DROP <key> '<val>', ...) -- FDW-specific key/value bag."@, "ALTER FOREIGN TABLE r OPTIONS (SET schema_name 'public', SET table_name 'remote_t');"@, "sql-alterforeigntable.html"@))
        .insert("ORDINALITY"@, keyword_v("ORDINALITY"@, "FROM <set_returning_fn>(...) WITH ORDINALITY -- append a `ordinality` bigint column numbering output rows 1..N."@, "SELECT * FROM unnest(ARRAY['a','b','c']) WITH ORDINALITY AS u(v, idx);"@, "queries-table-expressions.html#QUERIES-TABLEFUNCTIONS"@))
        .insert("OTHERS"@, keyword_v("OTHERS"@, "WINDOW frame exclusion: `EXCLUDE NO OTHERS` (default) -- keep every row in the frame."@, "ROWS BETWEEN UNBOUNDED PRECEDING AND CURRENT ROW EXCLUDE NO OTHERS"@, "sql-expressions.html#SYNTAX-WINDOW-FUNCTIONS"@))
        .insert("OUT"@, keyword_v("OUT"@, "Function/procedure parameter mode: OUT -- returned to caller, not provided by call site."@, "CREATE FUNCTION counts(OUT live int, OUT dead int) AS $$ ... $$ LANGUAGE plpgsql;"@, "sql-createfunction.html"@))
        .insert("OVERLAY"@, keyword_v("OVERLAY"@, "OVERLAY(<s> PLACING <r> FROM <pos> [FOR <len>]) -- substring replacement starting at 1-based <pos>."@, "SELECT OVERLAY('Postgres' PLACING 'SQL' FROM 5);"@, "functions-string.html#FUNCTIONS-STRING-OTHER"@))
        .insert("OVERRIDING"@, keyword_v("OVERRIDING"@, "INSERT INTO <t> OVERRIDING { SYSTEM | USER } VALUE -- bypass `GENERATED ALWAYS` (system) or use a system value over a USER-generated default."@, "INSERT INTO t (id, name) OVERRIDING SYSTEM VALUE VALUES (42, 'a');"@, "sql-insert.html"@))
        .insert("PARALLEL"@, keyword_v("PARALLEL"@, "CREATE FUNCTION ... PARALLEL { UNSAFE | RESTRICTED | SAFE } -- declares safety in parallel workers. Default UNSAFE."@, "CREATE FUNCTION add(int,int) RETURNS int LANGUAGE sql PARALLEL SAFE AS $$ SELECT $1 + $2 $$;"@, "sql-createfunction.html"@))
        .insert("PARAMETER"@, keyword_v("PARAMETER"@, "Reserved word for function parameter declarations. Appears in CREATE FUNCTION ... PARAMETER STYLE -- mostly SQL-standard noise in PG."@, "-- reserved by spec"@, "appendix-keywords.html"@))
        .insert("PARSER"@, keyword_v("PARSER"@, "CREATE/ALTER/DROP TEXT SEARCH PARSER -- tokenizer used by FTS configs."@, "CREATE TEXT SEARCH PARSER my_parser (START = ..., GETTOKEN = ..., END = ..., HEADLINE = ..., LEXTYPES = ...);"@, "sql-createtsparser.html"@))
        .insert("PARTIAL"@, keyword_v("PARTIAL"@, "FOREIGN KEY ... MATCH PARTIAL -- composite FK; some columns NULL, others present. Reserved in PG -- not implemented."@, "FOREIGN KEY (a,b) REFERENCES p(a,b) MATCH PARTIAL"@, "sql-createtable.html"@))
        .insert("PASSING"@, keyword_v("PASSING"@, "XMLTABLE / JSON_TABLE ... PASSING <expr> [AS <name>] -- bind values usable inside the XPath / JSONPath expression."@, "SELECT * FROM XMLTABLE('/r' PASSING x COLUMNS id INT PATH '@id') AS t;"@, "functions-xml.html#FUNCTIONS-XML-PROCESSING-XMLTABLE"@))
        .insert("PLACING"@, keyword_v("PLACING"@, "Part of `OVERLAY(<s> PLACING <r> FROM <pos> ...)` substring-replacement syntax."@, "SELECT OVERLAY('Postgres' PLACING 'SQL' FROM 5);"@, "functions-string.html#FUNCTIONS-STRING-OTHER"@))
        .insert("PLANS"@, keyword_v("PLANS"@, "DISCARD PLANS -- evict every cached prepared-statement plan in the current session."@, "DISCARD PLANS;"@, "sql-discard.html"@))
        .insert("POLICY"@, keyword_v("POLICY"@, "CREATE/ALTER/DROP POLICY <name> ON <table> -- Row-Level Security predicate scoped to a role and DML class."@, "CREATE POLICY tenant_isolation ON orders FOR ALL TO app USING (tenant_id = current_setting('app.tenant')::int);"@, "sql-createpolicy.html"@))
        .insert("POSITION"@, keyword_v("POSITION"@, "POSITION(<needle> IN <haystack>) -- 1-based index, 0 when not found. SQL-standard form of `strpos()`."@, "SELECT POSITION('@' IN email) FROM users;"@, "functions-string.html#FUNCTIONS-STRING-SQL"@))
        .insert("PRECISION"@, keyword_v("PRECISION"@, "Part of `DOUBLE PRECISION` (8-byte IEEE-754) and `TIMESTAMP(p) WITH TIME ZONE` (fractional-second digits)."@, "ratio DOUBLE PRECISION"@, "datatype-numeric.html#DATATYPE-FLOAT"@))
        .insert("PREPARED"@, keyword_v("PREPARED"@, "COMMIT/ROLLBACK PREPARED '<gxid>' -- second phase of a two-phase commit (after `PREPARE TRANSACTION '<gxid>'`)."@, "COMMIT PREPARED 'xact_42';"@, "sql-commit-prepared.html"@))
        .insert("PRESERVE"@, keyword_v("PRESERVE"@, "CREATE TEMPORARY TABLE ... ON COMMIT PRESERVE ROWS -- default; keep rows across COMMIT (vs DELETE ROWS / DROP)."@, "CREATE TEMP TABLE scratch (id int) ON COMMIT PRESERVE ROWS;"@, "sql-createtable.html"@))
        .insert("PRIOR"@, keyword_v("PRIOR"@, "FETCH PRIOR FROM <cursor> -- step one row back. Requires SCROLL cursor."@, "FETCH PRIOR FROM c;"@, "sql-fetch.html"@))
        .insert("PROCEDURAL"@, keyword_v("PROCEDURAL"@, "Legacy `CREATE [PROCEDURAL] LANGUAGE` -- equivalent to plain `CREATE LANGUAGE`. Kept for compat."@, "CREATE PROCEDURAL LANGUAGE plpgsql;"@, "sql-createlanguage.html"@))
        .insert("PROCEDURES"@, keyword_v("PROCEDURES"@, "GRANT/REVOKE ... ON ALL PROCEDURES IN SCHEMA / ALTER DEFAULT PRIVILEGES ... ON PROCEDURES -- bulk-privilege ops on procedures."@, "GRANT EXECUTE ON ALL PROCEDURES IN SCHEMA app TO svc;"@, "sql-grant.html"@))
        .insert("PUBLICATION"@, keyword_v("PUBLICATION"@, "CREATE/ALTER/DROP PUBLICATION -- logical-replication source: set of tables whose DML is shipped to subscribers."@, "CREATE PUBLICATION pub_orders FOR TABLE orders, order_lines;"@, "sql-createpublication.html"@))
        .insert("READ"@, keyword_v("READ"@, "SET TRANSACTION READ { ONLY | WRITE } -- forbid/allow writes for the current xact."@, "BEGIN READ ONLY;"@, "sql-set-transaction.html"@))
        .insert("REAL"@, keyword_v("REAL"@, "Inexact 4-byte IEEE-754 float. Alias `float4`. ~6 decimal digits of precision."@, "ratio REAL NOT NULL DEFAULT 0"@, "datatype-numeric.html#DATATYPE-FLOAT"@))
        .insert("REASSIGN"@, keyword_v("REASSIGN"@, "REASSIGN OWNED BY <old_role> TO <new_role> -- transfer ownership of every object in current DB."@, "REASSIGN OWNED BY leaving_user TO new_owner;"@, "sql-reassign-owned.html"@))
        .insert("RECHECK"@, keyword_v("RECHECK"@, "Legacy CREATE OPERATOR CLASS ... RECHECK -- told planner the index gave approximate match. Removed in PG8.4; AM controls it now."@, "-- removed in modern PG"@, "sql-createopclass.html"@))
        .insert("REF"@, keyword_v("REF"@, "Reserved word for SQL-standard reference types. Not implemented in PG; reserved for parse-stage compat."@, "-- reserved"@, "appendix-keywords.html"@))
        .insert("REFERENCING"@, keyword_v("REFERENCING"@, "CREATE TRIGGER ... REFERENCING { OLD | NEW } TABLE AS <name> -- expose transition tables to a statement-level trigger."@, "CREATE TRIGGER trg AFTER UPDATE ON t REFERENCING NEW TABLE AS new_rows FOR EACH STATEMENT EXECUTE FUNCTION audit();"@, "sql-createtrigger.html"@))
        .insert("RELATIVE"@, keyword_v("RELATIVE"@, "FETCH RELATIVE <n> FROM <cursor> -- skip <n> rows (negative = backwards)."@, "FETCH RELATIVE -5 FROM c;"@, "sql-fetch.html"@))
        .insert("RELEASE"@, keyword_v("RELEASE"@, "RELEASE SAVEPOINT <name> -- discard a savepoint and merge its work into the parent. Cannot be undone after RELEASE."@, "RELEASE SAVEPOINT sp1;"@, "sql-release-savepoint.html"@))
        .insert("REPEATABLE"@, keyword_v("REPEATABLE"@, "SET TRANSACTION ISOLATION LEVEL REPEATABLE READ -- snapshot taken at xact start; no non-repeatable reads. PG implements via Snapshot Isolation."@, "BEGIN ISOLATION LEVEL REPEATABLE READ;"@, "transaction-iso.html#XACT-REPEATABLE-READ"@))
        .insert("RESET"@, keyword_v("RESET"@, "RESET <param> | RESET ALL -- restore a GUC to its default (postgresql.conf / startup) value."@, "RESET statement_timeout;"@, "sql-reset.html"@))
        .insert("RESTART"@, keyword_v("RESTART"@, "ALTER SEQUENCE ... RESTART [WITH <n>] -- reset sequence counter; `TRUNCATE ... RESTART IDENTITY` also valid."@, "ALTER SEQUENCE s RESTART WITH 1;"@, "sql-altersequence.html"@))
        .insert("ROUTINE"@, keyword_v("ROUTINE"@, "ALTER ROUTINE / DROP ROUTINE -- umbrella DDL covering functions AND procedures (PG11+)."@, "ALTER ROUTINE f(int) RENAME TO g;"@, "sql-alterroutine.html"@))
        .insert("ROUTINES"@, keyword_v("ROUTINES"@, "GRANT/REVOKE ... ON ALL ROUTINES IN SCHEMA / ALTER DEFAULT PRIVILEGES ... ON ROUTINES -- bulk-privilege ops on fns + procs."@, "GRANT EXECUTE ON ALL ROUTINES IN SCHEMA app TO svc;"@, "sql-grant.html"@))
        .insert("SCHEMAS"@, keyword_v("SCHEMAS"@, "ALTER DEFAULT PRIVILEGES ... IN SCHEMAS <s>[, ...] -- scope default ACL changes to specific schemas."@, "ALTER DEFAULT PRIVILEGES IN SCHEMAS app, billing GRANT SELECT ON TABLES TO readonly;"@, "sql-alterdefaultprivileges.html"@))
        .insert("SCROLL"@, keyword_v("SCROLL"@, "DECLARE <c> [SCROLL|NO SCROLL] CURSOR ... -- SCROLL cursor supports FETCH BACKWARD/ABSOLUTE/RELATIVE. NO SCROLL forbids them."@, "DECLARE c SCROLL CURSOR FOR SELECT id FROM t;"@, "sql-declare.html"@))
        .insert("SEARCH"@, keyword_v("SEARCH"@, "WITH RECURSIVE ... SEARCH { DEPTH | BREADTH } FIRST BY <cols> SET <out> -- annotate recursive CTE output rows with traversal order (SQL:1999 / PG14+)."@, "WITH RECURSIVE t AS (...) SEARCH DEPTH FIRST BY id SET ord SELECT * FROM t ORDER BY ord;"@, "queries-with.html#QUERIES-WITH-SEARCH"@))
        .insert("SECOND"@, keyword_v("SECOND"@, "EXTRACT(SECOND FROM <ts|interval>) -- seconds with fractional part (0..59.999999)."@, "SELECT EXTRACT(SECOND FROM now());"@, "functions-datetime.html#FUNCTIONS-DATETIME-EXTRACT"@))
        .insert("SEQUENCES"@, keyword_v("SEQUENCES"@, "GRANT/REVOKE ... ON ALL SEQUENCES IN SCHEMA / ALTER DEFAULT PRIVILEGES ... ON SEQUENCES / DISCARD SEQUENCES -- bulk-privilege/state ops on sequences."@, "DISCARD SEQUENCES;"@, "sql-grant.html"@))
        .insert("SERIALIZABLE"@, keyword_v("SERIALIZABLE"@, "SET TRANSACTION ISOLATION LEVEL SERIALIZABLE -- strongest isolation; PG uses Serializable Snapshot Isolation (SSI) which can throw `40001 serialization_failure` -- retry from the client."@, "BEGIN ISOLATION LEVEL SERIALIZABLE;"@, "transaction-iso.html#XACT-SERIALIZABLE"@))
        .insert("SERVER"@, keyword_v("SERVER"@, "CREATE/ALTER/DROP SERVER -- foreign server, an FDW endpoint targetable by foreign tables / user mappings."@, "CREATE SERVER remote FOREIGN DATA WRAPPER postgres_fdw OPTIONS (host 'db', port '5432', dbname 'app');"@, "sql-createserver.html"@))
        .insert("SESSION"@, keyword_v("SESSION"@, "SET SESSION <param> = <val> -- session-scoped setting (default; vs `SET LOCAL` xact-scope). Also `SET SESSION AUTHORIZATION <role>` and `SET SESSION CHARACTERISTICS`."@, "SET SESSION timezone TO 'UTC';"@, "sql-set.html"@))
        .insert("SESSION_USER"@, keyword_v("SESSION_USER"@, "Returns the session user name (login role, unaffected by SET ROLE)."@, "SELECT SESSION_USER;"@, "functions-info.html"@))
}

spec fn keyword_part_6(m: Map<Seq<char>, EntryV>) -> Map<Seq<char>, EntryV> {
    m
        .insert("SYSTEM_USER"@, keyword_v("SYSTEM_USER"@, "Returns the auth-method-prefixed external identity used to authenticate the session (PG16+, e.g. `scram-sha-256:alice`)."@, "SELECT SYSTEM_USER;"@, "functions-info.html"@))
        .insert("SETOF"@, keyword_v("SETOF"@, "Function return type: SETOF <type> -- returns a row set, callable in FROM as a table."@, "CREATE FUNCTION ids() RETURNS SETOF int LANGUAGE sql AS $$ SELECT generate_series(1,3) $$;"@, "sql-createfunction.html"@))
        .insert("SETS"@, keyword_v("SETS"@, "GROUPING SETS ((a), (b), (a,b)) -- list of grouping subsets evaluated in one pass; complements ROLLUP/CUBE."@, "SELECT a, b, sum(x) FROM t GROUP BY GROUPING SETS ((a), (b), ());"@, "queries-table-expressions.html#QUERIES-GROUPING-SETS"@))
        .insert("SIMPLE"@, keyword_v("SIMPLE"@, "FOREIGN KEY ... MATCH SIMPLE -- default; FK passes if any column in the multi-column key is NULL."@, "FOREIGN KEY (a,b) REFERENCES p(a,b) MATCH SIMPLE"@, "sql-createtable.html#SQL-CREATETABLE-PARMS-REFERENCES"@))
        .insert("SMALLINT"@, keyword_v("SMALLINT"@, "Signed 2-byte integer, range -32768..+32767. Alias `int2`."@, "year SMALLINT CHECK (year BETWEEN 1900 AND 2100)"@, "datatype-numeric.html#DATATYPE-INT"@))
        .insert("SNAPSHOT"@, keyword_v("SNAPSHOT"@, "SET TRANSACTION SNAPSHOT '<id>' -- import an existing snapshot (from pg_export_snapshot()); used for consistent parallel dumps."@, "BEGIN; SET TRANSACTION SNAPSHOT '00000004-00000004-1';"@, "sql-set-transaction.html"@))
        .insert("SQL"@, keyword_v("SQL"@, "CREATE FUNCTION ... LANGUAGE sql -- pure-SQL body. PG14+ supports atomic standard form `BEGIN ATOMIC ... END;`."@, "CREATE FUNCTION add(int,int) RETURNS int LANGUAGE sql AS $$ SELECT $1+$2 $$;"@, "xfunc-sql.html"@))
        .insert("STANDALONE"@, keyword_v("STANDALONE"@, "xmlroot(..., STANDALONE { YES | NO | NO VALUE }) -- toggle the `standalone` attribute on the XML prolog."@, "SELECT xmlroot(x, VERSION '1.0', STANDALONE YES);"@, "functions-xml.html#FUNCTIONS-PRODUCING-XML"@))
        .insert("START"@, keyword_v("START"@, "Two uses: `START TRANSACTION` (synonym of BEGIN), and `CREATE SEQUENCE ... START [WITH] <n>` (initial value)."@, "START TRANSACTION ISOLATION LEVEL SERIALIZABLE;"@, "sql-start-transaction.html"@))
        .insert("STATISTICS"@, keyword_v("STATISTICS"@, "ALTER TABLE ... ALTER COLUMN <c> SET STATISTICS <n> / CREATE STATISTICS -- per-column ANALYZE target, or multivariate stats object."@, "ALTER TABLE t ALTER COLUMN tags SET STATISTICS 500;"@, "sql-altertable.html"@))
        .insert("STDIN"@, keyword_v("STDIN"@, "COPY <t> FROM STDIN -- stream rows from client connection. Terminate with `\\.` in psql."@, "COPY t FROM STDIN WITH (FORMAT csv);"@, "sql-copy.html"@))
        .insert("STDOUT"@, keyword_v("STDOUT"@, "COPY <t> TO STDOUT -- stream rows back to client connection (no server-side file needed)."@, "COPY (SELECT * FROM t) TO STDOUT WITH (FORMAT csv);"@, "sql-copy.html"@))
        .insert("STORAGE"@, keyword_v("STORAGE"@, "ALTER TABLE ... ALTER COLUMN <c> SET STORAGE { PLAIN | EXTERNAL | EXTENDED | MAIN } -- TOAST strategy for variable-length values."@, "ALTER TABLE t ALTER COLUMN body SET STORAGE EXTENDED;"@, "sql-altertable.html"@))
        .insert("STRIP"@, keyword_v("STRIP"@, "xmlserialize(... STRIP WHITESPACE) -- collapse insignificant whitespace in the serialized output."@, "SELECT xmlserialize(DOCUMENT x AS text STRIP WHITESPACE);"@, "functions-xml.html"@))
        .insert("SUBSCRIPTION"@, keyword_v("SUBSCRIPTION"@, "CREATE/ALTER/DROP SUBSCRIPTION -- logical-replication sink that reads from a publisher's PUBLICATION."@, "CREATE SUBSCRIPTION sub_orders CONNECTION 'host=pub user=repl dbname=app' PUBLICATION pub_orders;"@, "sql-createsubscription.html"@))
        .insert("SUBSTRING"@, keyword_v("SUBSTRING"@, "SUBSTRING(<s> FROM <pos> [FOR <len>]) | SUBSTRING(<s> FROM <pattern>) -- SQL-standard substring or POSIX-regex extract."@, "SELECT SUBSTRING('Postgres' FROM 5 FOR 3), SUBSTRING('abc123', '[0-9]+');"@, "functions-string.html#FUNCTIONS-STRING-SQL"@))
        .insert("SUPPORT"@, keyword_v("SUPPORT"@, "CREATE FUNCTION ... SUPPORT <fn> -- planner support function: gives row estimates / index info to the planner (PG12+, C only)."@, "CREATE FUNCTION my_fn(int) RETURNS int LANGUAGE c SUPPORT my_fn_support AS 'libfn', 'my_fn';"@, "sql-createfunction.html"@))
        .insert("SYMMETRIC"@, keyword_v("SYMMETRIC"@, "BETWEEN SYMMETRIC <a> AND <b> -- swap operands if a > b, so the test always picks min..max."@, "WHERE x BETWEEN SYMMETRIC 10 AND 1"@, "functions-comparison.html"@))
        .insert("SYSTEM"@, keyword_v("SYSTEM"@, "ALTER SYSTEM SET <param> = <val> -- writes to postgresql.auto.conf; takes effect after `SELECT pg_reload_conf()` (or restart for some params)."@, "ALTER SYSTEM SET shared_buffers = '4GB';"@, "sql-altersystem.html"@))
        .insert("TABLES"@, keyword_v("TABLES"@, "GRANT/REVOKE ... ON ALL TABLES IN SCHEMA / ALTER DEFAULT PRIVILEGES ... ON TABLES -- bulk privilege ops on tables (also covers views)."@, "GRANT SELECT ON ALL TABLES IN SCHEMA app TO readonly;"@, "sql-grant.html"@))
        .insert("TABLESAMPLE"@, keyword_v("TABLESAMPLE"@, "FROM <t> TABLESAMPLE <method> (<pct>) -- statistical sampling. Built-ins: BERNOULLI (per-row coin flip), SYSTEM (block-level, cheaper)."@, "SELECT * FROM big TABLESAMPLE BERNOULLI (1);"@, "sql-select.html#SQL-FROM"@))
        .insert("TEMPLATE"@, keyword_v("TEMPLATE"@, "CREATE DATABASE <new> TEMPLATE <existing> -- clone an existing DB. Also `CREATE TEXT SEARCH TEMPLATE` for FTS."@, "CREATE DATABASE staging TEMPLATE template_app;"@, "sql-createdatabase.html"@))
        .insert("TEXT"@, keyword_v("TEXT"@, "Variable-length string of unlimited length. Same performance as `VARCHAR` -- prefer TEXT."@, "body TEXT NOT NULL"@, "datatype-character.html"@))
        .insert("TIES"@, keyword_v("TIES"@, "FETCH FIRST <n> ROWS WITH TIES -- include peer rows tied with row <n> per the ORDER BY (SQL:2008 / PG13+)."@, "SELECT * FROM scores ORDER BY pts DESC FETCH FIRST 3 ROWS WITH TIES;"@, "sql-select.html#SQL-LIMIT"@))
        .insert("TIME"@, keyword_v("TIME"@, "Time-of-day data type. `TIME [(p)]` (no zone) or `TIME [(p)] WITH TIME ZONE` (timetz). Almost always prefer `timestamptz` over `timetz`."@, "start_at TIME(3)"@, "datatype-datetime.html"@))
        .insert("TIMESTAMP"@, keyword_v("TIMESTAMP"@, "Datetime data type. `TIMESTAMP [(p)]` (timestamp) or `TIMESTAMP [(p)] WITH TIME ZONE` (timestamptz). Prefer timestamptz; PG stores both as UTC."@, "created_at TIMESTAMP(3) WITH TIME ZONE NOT NULL DEFAULT now()"@, "datatype-datetime.html"@))
        .insert("TRAILING"@, keyword_v("TRAILING"@, "TRIM(TRAILING <chars> FROM <s>) -- strip <chars> from the right."@, "SELECT TRIM(TRAILING '/' FROM '/a/b/');"@, "functions-string.html#FUNCTIONS-STRING-OTHER"@))
        .insert("TRANSFORM"@, keyword_v("TRANSFORM"@, "CREATE TRANSFORM FOR <type> LANGUAGE <pl> (FROM SQL WITH FUNCTION ..., TO SQL WITH FUNCTION ...) -- PL-side codec for a PG type (e.g. hstore <-> Perl hash)."@, "CREATE TRANSFORM FOR hstore LANGUAGE plperl (FROM SQL WITH FUNCTION hstore_to_plperl(internal), TO SQL WITH FUNCTION plperl_to_hstore(internal));"@, "sql-createtransform.html"@))
        .insert("TREAT"@, keyword_v("TREAT"@, "TREAT(<expr> AS <type>) -- SQL-standard subtype assertion. Reserved in PG; no current effect (treated as cast)."@, "SELECT TREAT(x AS text);"@, "appendix-keywords.html"@))
        .insert("TRIM"@, keyword_v("TRIM"@, "TRIM([LEADING|TRAILING|BOTH] [<chars>] FROM <s>) -- strip <chars> (default ' ') from one or both ends."@, "SELECT TRIM(BOTH '\"' FROM '\"hello\"');"@, "functions-string.html#FUNCTIONS-STRING-SQL"@))
        .insert("TRUSTED"@, keyword_v("TRUSTED"@, "CREATE [TRUSTED] LANGUAGE / EXTENSION -- TRUSTED PL can be created by ordinary users; trusted extensions installable by table owners (PG13+)."@, "CREATE TRUSTED LANGUAGE plperl;"@, "sql-createlanguage.html"@))
        .insert("TYPES"@, keyword_v("TYPES"@, "ALTER DEFAULT PRIVILEGES ... ON TYPES -- ALTER DEFAULT PRIVILEGES target covering CREATE/USAGE on types."@, "ALTER DEFAULT PRIVILEGES IN SCHEMA app GRANT USAGE ON TYPES TO svc;"@, "sql-alterdefaultprivileges.html"@))
        .insert("UESCAPE"@, keyword_v("UESCAPE"@, "U&'<text>' UESCAPE '<c>' -- Unicode string literal with custom backslash. Same for identifiers: U&\"...\" UESCAPE '<c>'."@, "SELECT U&'d\\0061t\\0061' UESCAPE '\\\\';"@, "sql-syntax-lexical.html#SQL-SYNTAX-STRINGS-UESCAPE"@))
        .insert("UNCOMMITTED"@, keyword_v("UNCOMMITTED"@, "SET TRANSACTION ISOLATION LEVEL READ UNCOMMITTED -- accepted for compat; PG silently upgrades to READ COMMITTED (no dirty reads)."@, "BEGIN ISOLATION LEVEL READ UNCOMMITTED;"@, "transaction-iso.html"@))
        .insert("UNKNOWN"@, keyword_v("UNKNOWN"@, "Three-valued-logic third value (NULL in boolean context). `<bool> IS UNKNOWN` true when expression is NULL."@, "WHERE active IS UNKNOWN"@, "functions-comparison.html"@))
        .insert("UNTIL"@, keyword_v("UNTIL"@, "CREATE/ALTER ROLE ... VALID UNTIL '<ts>' -- role password expiry; after that, login is refused."@, "ALTER ROLE alice VALID UNTIL '2027-01-01';"@, "sql-createrole.html"@))
        .insert("USAGE"@, keyword_v("USAGE"@, "GRANT USAGE ON { SCHEMA | SEQUENCE | DOMAIN | FDW | SERVER | TYPE | LANGUAGE } -- needed in addition to per-object privileges."@, "GRANT USAGE ON SCHEMA app TO svc;"@, "sql-grant.html"@))
        .insert("VALID"@, keyword_v("VALID"@, "CREATE/ALTER ROLE ... VALID UNTIL '<ts>' / Constraints become VALID after `ALTER TABLE ... VALIDATE CONSTRAINT`."@, "ALTER ROLE alice VALID UNTIL 'infinity';"@, "sql-createrole.html"@))
        .insert("VALIDATE"@, keyword_v("VALIDATE"@, "ALTER TABLE ... VALIDATE CONSTRAINT <name> -- re-check existing rows against a constraint added with NOT VALID; converts it to VALID."@, "ALTER TABLE t VALIDATE CONSTRAINT fk_t_user;"@, "sql-altertable.html"@))
        .insert("VALIDATOR"@, keyword_v("VALIDATOR"@, "CREATE LANGUAGE ... VALIDATOR <fn> / CREATE FOREIGN DATA WRAPPER ... VALIDATOR <fn> -- C function that validates options at create time."@, "CREATE FOREIGN DATA WRAPPER w VALIDATOR my_fdw_validator;"@, "sql-createforeigndatawrapper.html"@))
        .insert("VALUE"@, keyword_v("VALUE"@, "ALTER TYPE <enum> ADD VALUE [IF NOT EXISTS] '<lab>' [BEFORE|AFTER '<other>'] -- append/insert enum label."@, "ALTER TYPE mood ADD VALUE IF NOT EXISTS 'meh' AFTER 'ok';"@, "sql-altertype.html"@))
        .insert("VARCHAR"@, keyword_v("VARCHAR"@, "Variable-length string with optional limit. `VARCHAR(n)` = `CHARACTER VARYING(n)`. Functionally identical to TEXT -- prefer TEXT + CHECK if you need a length cap."@, "name VARCHAR(64) NOT NULL"@, "datatype-character.html"@))
        .insert("VARIADIC"@, keyword_v("VARIADIC"@, "Function: last parameter `VARIADIC <type>[]` accepts a variable number of args; call site can use `VARIADIC <arr>` to pass an array as that vararg."@, "CREATE FUNCTION fmt(VARIADIC vals text[]) RETURNS text LANGUAGE sql AS $$ SELECT array_to_string(vals, ',') $$;"@, "xfunc-sql.html#XFUNC-SQL-VARIADIC-FUNCTIONS"@))
        .insert("VARYING"@, keyword_v("VARYING"@, "Modifier for variable-length strings/bits. `CHARACTER VARYING(n)` = `VARCHAR(n)`; `BIT VARYING(n)` = `VARBIT(n)`."@, "name CHARACTER VARYING(64)"@, "datatype-character.html"@))
        .insert("VERSION"@, keyword_v("VERSION"@, "xmlroot(<x>, VERSION '<v>') -- set/replace XML prolog version. Also `CREATE EXTENSION ... VERSION '<v>'` and `ALTER EXTENSION ... UPDATE TO '<v>'`."@, "SELECT xmlroot(x, VERSION '1.0', STANDALONE NO);"@, "functions-xml.html"@))
        .insert("VIEWS"@, keyword_v("VIEWS"@, "ALTER DEFAULT PRIVILEGES ... ON VIEWS -- bulk-default privileges for views (treated separately from tables since PG14)."@, "ALTER DEFAULT PRIVILEGES IN SCHEMA app GRANT SELECT ON TABLES TO readonly;"@, "sql-alterdefaultprivileges.html"@))
        .insert("WHITESPACE"@, keyword_v("WHITESPACE"@, "xmlserialize(... [PRESERVE | STRIP] WHITESPACE) -- whether the serializer keeps insignificant whitespace (PG16+)."@, "SELECT xmlserialize(DOCUMENT x AS text PRESERVE WHITESPACE);"@, "functions-xml.html"@))
        .insert("WITHOUT"@, keyword_v("WITHOUT"@, "Part of `TIMESTAMP/TIME WITHOUT TIME ZONE` and `WITHOUT OVERLAPS` (period FKs, PG17+)."@, "ts TIMESTAMP WITHOUT TIME ZONE"@, "datatype-datetime.html"@))
        .insert("WORK"@, keyword_v("WORK"@, "Noise word in `COMMIT [WORK]` / `ROLLBACK [WORK]` / `BEGIN [WORK]` -- SQL-standard, no effect."@, "COMMIT WORK;"@, "sql-commit.html"@))
        .insert("WRITE"@, keyword_v("WRITE"@, "SET TRANSACTION READ WRITE -- default; allow writes for the current xact. Inverse of READ ONLY."@, "BEGIN READ WRITE;"@, "sql-set-transaction.html"@))
        .insert("XML"@, keyword_v("XML"@, "PG XML data type. Stores well-formed XML documents or content fragments; query with `XMLEXISTS`, `XMLTABLE`, `xpath()`."@, "doc XML NOT NULL CHECK (xpath_exists('/root', doc))"@, "datatype-xml.html"@))
        .insert("XMLATTRIBUTES"@, keyword_v("XMLATTRIBUTES"@, "Part of `XMLELEMENT(NAME tag, XMLATTRIBUTES(<expr> AS <name>, ...), <content>)` -- build element attribute list."@, "SELECT XMLELEMENT(NAME a, XMLATTRIBUTES(id, ts AS created), body);"@, "functions-xml.html#FUNCTIONS-PRODUCING-XML"@))
        .insert("XMLCONCAT"@, keyword_v("XMLCONCAT"@, "XMLCONCAT(<x1>, <x2>, ...) -- concatenate XML fragments into a single forest."@, "SELECT XMLCONCAT('<a/>'::xml, '<b/>'::xml);"@, "functions-xml.html#FUNCTIONS-PRODUCING-XML"@))
        .insert("XMLELEMENT"@, keyword_v("XMLELEMENT"@, "XMLELEMENT(NAME <tag>[, XMLATTRIBUTES(...)][, <content>...]) -- construct an XML element."@, "SELECT XMLELEMENT(NAME user, XMLATTRIBUTES(id), name) FROM users;"@, "functions-xml.html#FUNCTIONS-PRODUCING-XML"@))
        .insert("XMLEXISTS"@, keyword_v("XMLEXISTS"@, "XMLEXISTS(<xpath> PASSING <x>) -- boolean: does the XPath match anything?"@, "SELECT * FROM docs WHERE XMLEXISTS('//author' PASSING doc);"@, "functions-xml.html#FUNCTIONS-XML-PREDICATES"@))
        .insert("XMLFOREST"@, keyword_v("XMLFOREST"@, "XMLFOREST(<expr> AS <name>, ...) -- build a forest (sibling elements) one per expression."@, "SELECT XMLFOREST(id, name AS user_name) FROM users;"@, "functions-xml.html#FUNCTIONS-PRODUCING-XML"@))
        .insert("XMLNAMESPACES"@, keyword_v("XMLNAMESPACES"@, "XMLTABLE(XMLNAMESPACES('uri' AS <prefix>, ...), <xpath> PASSING <x> COLUMNS ...) -- bind XPath namespaces inside XMLTABLE."@, "SELECT * FROM XMLTABLE(XMLNAMESPACES('http://x' AS x), '/x:root/x:item' PASSING d COLUMNS id INT PATH '@id');"@, "functions-xml.html#FUNCTIONS-XML-PROCESSING-XMLTABLE"@))
        .insert("XMLPARSE"@, keyword_v("XMLPARSE"@, "XMLPARSE({DOCUMENT|CONTENT} <text>) -- parse text into xml. DOCUMENT requires a complete document; CONTENT accepts fragments."@, "SELECT XMLPARSE(CONTENT '<a/>');"@, "functions-xml.html#FUNCTIONS-PRODUCING-XML"@))
        .insert("XMLPI"@, keyword_v("XMLPI"@, "XMLPI(NAME <target>[, <content>]) -- XML processing instruction."@, "SELECT XMLPI(NAME php, 'echo 1;');"@, "functions-xml.html#FUNCTIONS-PRODUCING-XML"@))
        .insert("XMLROOT"@, keyword_v("XMLROOT"@, "XMLROOT(<x>, VERSION '<v>' | NO VALUE[, STANDALONE {YES|NO|NO VALUE}]) -- set/replace the XML prolog."@, "SELECT XMLROOT(x, VERSION '1.0', STANDALONE NO);"@, "functions-xml.html#FUNCTIONS-PRODUCING-XML"@))
        .insert("XMLSERIALIZE"@, keyword_v("XMLSERIALIZE"@, "XMLSERIALIZE({DOCUMENT|CONTENT} <x> AS <type> [INDENT] [{PRESERVE|STRIP} WHITESPACE]) -- serialize xml to text/bytea."@, "SELECT XMLSERIALIZE(DOCUMENT x AS text INDENT);"@, "functions-xml.html#FUNCTIONS-PRODUCING-XML"@))
        .insert("XMLTABLE"@, keyword_v("XMLTABLE"@, "XMLTABLE([XMLNAMESPACES(...),] <row_xpath> PASSING <x> COLUMNS <col_specs>) -- shred XML into a relational result set."@, "SELECT * FROM XMLTABLE('/r/item' PASSING d COLUMNS id INT PATH '@id', name TEXT PATH 'name');"@, "functions-xml.html#FUNCTIONS-XML-PROCESSING-XMLTABLE"@))
        .insert("YEAR"@, keyword_v("YEAR"@, "EXTRACT(YEAR FROM <ts|interval>) -- AD year for timestamps; year portion of interval."@, "SELECT EXTRACT(YEAR FROM now());"@, "functions-datetime.html#FUNCTIONS-DATETIME-EXTRACT"@))
        .insert("YES"@, keyword_v("YES"@, "xmlroot(..., STANDALONE YES) -- mark XML document as standalone."@, "SELECT xmlroot(x, VERSION '1.0', STANDALONE YES);"@, "functions-xml.html#FUNCTIONS-PRODUCING-XML"@))
        .insert("ZONE"@, keyword_v("ZONE"@, "Part of `[WITH|WITHOUT] TIME ZONE` (datetime types) and `AT TIME ZONE` (conversion expression)."@, "ts TIMESTAMP WITH TIME ZONE; SELECT ts AT TIME ZONE 'UTC' FROM e;"@, "datatype-datetime.html"@))
        .insert("JSON_TABLE"@, keyword_v("JSON_TABLE"@, "JSON_TABLE(<doc>, <jsonpath> COLUMNS (...)) -- relational projection of JSON (PG17+)."@, "SELECT * FROM JSON_TABLE(j, '$.items[*]' COLUMNS (id int PATH '$.id'));"@, "functions-json.html"@))
        .insert("JSON_VALUE"@, keyword_v("JSON_VALUE"@, "JSON_VALUE(<doc>, <jsonpath> RETURNING <type>) -- scalar extraction."@, "SELECT JSON_VALUE(payload, '$.user.id' RETURNING int);"@, "functions-json.html"@))
        .insert("JSON_QUERY"@, keyword_v("JSON_QUERY"@, "JSON_QUERY(<doc>, <jsonpath>) -- returns jsonb fragment."@, "SELECT JSON_QUERY(payload, '$.items');"@, "functions-json.html"@))
        .insert("JSON_EXISTS"@, keyword_v("JSON_EXISTS"@, "JSON_EXISTS(<doc>, <jsonpath>) -- boolean test."@, "WHERE JSON_EXISTS(payload, '$.flag')"@, "functions-json.html"@))
        .insert("JSON_OBJECT"@, keyword_v("JSON_OBJECT"@, "JSON_OBJECT(<key>: <value>[, ...]) -- SQL-standard constructor."@, "SELECT JSON_OBJECT('id': id, 'name': name) FROM t;"@, "functions-json.html"@))
        .insert("JSON_OBJECTAGG"@, keyword_v("JSON_OBJECTAGG"@, "JSON_OBJECTAGG(<k>: <v>) -- aggregate JSON object constructor."@, "SELECT JSON_OBJECTAGG(id: name) FROM users;"@, "functions-json.html"@))
        .insert("JSON_ARRAY"@, keyword_v("JSON_ARRAY"@, "JSON_ARRAY(<v>[, ...]) -- SQL-standard JSON array constructor."@, "SELECT JSON_ARRAY(1, 'a', null);"@, "functions-json.html"@))
        .insert("JSON_ARRAYAGG"@, keyword_v("JSON_ARRAYAGG"@, "JSON_ARRAYAGG(<v>) -- aggregate JSON array constructor."@, "SELECT JSON_ARRAYAGG(id) FROM users;"@, "functions-json.html"@))
        .insert("JSON_SCALAR"@, keyword_v("JSON_SCALAR"@, "JSON_SCALAR(<value>) -- wrap a value as JSON scalar."@, "SELECT JSON_SCALAR(42);"@, "functions-json.html"@))
        .insert("JSON_SERIALIZE"@, keyword_v("JSON_SERIALIZE"@, "JSON_SERIALIZE(<jsonb>) -- canonical text serialisation."@, "SELECT JSON_SERIALIZE(payload);"@, "functions-json.html"@))
}

spec fn keyword_part_7(m: Map<Seq<char>, EntryV>) -> Map<Seq<char>, EntryV> {
    m
        .insert("IS JSON"@, keyword_v("IS JSON"@, "IS [NOT] JSON [{VALUE|SCALAR|ARRAY|OBJECT}] -- SQL/JSON predicate (PG16+)."@, "WHERE col IS JSON ARRAY"@, "functions-json.html"@))
        .insert("IS JSON VALUE"@, keyword_v("IS JSON VALUE"@, "IS [NOT] JSON VALUE -- the input is *any* JSON value (default if no shape token)."@, "WHERE payload::jsonb IS JSON VALUE"@, "functions-json.html#FUNCTIONS-SQLJSON-IS-JSON"@))
        .insert("IS JSON SCALAR"@, keyword_v("IS JSON SCALAR"@, "IS [NOT] JSON SCALAR -- the input is a JSON number / string / boolean / null."@, "WHERE payload IS JSON SCALAR"@, "functions-json.html#FUNCTIONS-SQLJSON-IS-JSON"@))
        .insert("IS JSON ARRAY"@, keyword_v("IS JSON ARRAY"@, "IS [NOT] JSON ARRAY -- the input is a JSON array."@, "WHERE payload IS JSON ARRAY"@, "functions-json.html#FUNCTIONS-SQLJSON-IS-JSON"@))
        .insert("IS JSON OBJECT"@, keyword_v("IS JSON OBJECT"@, "IS [NOT] JSON OBJECT -- the input is a JSON object."@, "WHERE payload IS JSON OBJECT"@, "functions-json.html#FUNCTIONS-SQLJSON-IS-JSON"@))
        .insert("IS NOT JSON"@, keyword_v("IS NOT JSON"@, "IS NOT JSON [{VALUE|SCALAR|ARRAY|OBJECT}] -- negated SQL/JSON predicate."@, "WHERE payload IS NOT JSON OBJECT"@, "functions-json.html#FUNCTIONS-SQLJSON-IS-JSON"@))
        .insert("WITH UNIQUE KEYS"@, keyword_v("WITH UNIQUE KEYS"@, "IS [NOT] JSON OBJECT WITH UNIQUE KEYS -- additionally require no duplicate keys at any level (PG16+)."@, "WHERE payload IS JSON OBJECT WITH UNIQUE KEYS"@, "functions-json.html#FUNCTIONS-SQLJSON-IS-JSON"@))
        .insert("WITHOUT UNIQUE KEYS"@, keyword_v("WITHOUT UNIQUE KEYS"@, "IS [NOT] JSON OBJECT WITHOUT UNIQUE KEYS -- explicit opt-out (default)."@, "WHERE payload IS JSON OBJECT WITHOUT UNIQUE KEYS"@, "functions-json.html#FUNCTIONS-SQLJSON-IS-JSON"@))
        .insert("NESTED PATH"@, keyword_v("NESTED PATH"@, "JSON_TABLE COLUMNS (... NESTED PATH '<jsonpath>' [AS <name>] COLUMNS (...)) -- shred a nested array/object into additional rows."@, "COLUMNS (id INT PATH '$.id', NESTED PATH '$.items[*]' COLUMNS (qty INT PATH '$.qty'))"@, "functions-json.html#FUNCTIONS-SQLJSON-TABLE"@))
        .insert("NESTED"@, keyword_v("NESTED"@, "JSON_TABLE NESTED PATH '<jsonpath>' -- prefix of NESTED PATH."@, "NESTED PATH '$.items[*]'"@, "functions-json.html#FUNCTIONS-SQLJSON-TABLE"@))
        .insert("PATH"@, keyword_v("PATH"@, "JSON_TABLE / JSON_QUERY / JSON_VALUE PATH '<jsonpath>' -- jsonpath spec for a column or top-level expression."@, "id INT PATH '$.id'"@, "functions-json.html#FUNCTIONS-SQLJSON-TABLE"@))
        .insert("PLAN DEFAULT"@, keyword_v("PLAN DEFAULT"@, "JSON_TABLE ... PLAN DEFAULT (INNER | OUTER, CROSS | UNION) -- choose the default sibling join / parent-child join semantics."@, "PLAN DEFAULT (OUTER, UNION)"@, "functions-json.html#FUNCTIONS-SQLJSON-TABLE"@))
        .insert("PLAN"@, keyword_v("PLAN"@, "JSON_TABLE PLAN <name> { CROSS | UNION } <name> -- explicit nested-path join plan."@, "PLAN (root OUTER (items CROSS tags))"@, "functions-json.html#FUNCTIONS-SQLJSON-TABLE"@))
        .insert("ON EMPTY"@, keyword_v("ON EMPTY"@, "JSON_VALUE / JSON_QUERY / JSON_TABLE ... { ERROR | NULL | EMPTY ARRAY | EMPTY OBJECT | DEFAULT <expr> } ON EMPTY -- behavior when the jsonpath matches no value."@, "DEFAULT '[]'::jsonb ON EMPTY"@, "functions-json.html#FUNCTIONS-SQLJSON-QUERY"@))
        .insert("ON ERROR"@, keyword_v("ON ERROR"@, "JSON_VALUE / JSON_QUERY / JSON_TABLE ... { ERROR | NULL | EMPTY ARRAY | EMPTY OBJECT | DEFAULT <expr> } ON ERROR -- behavior when jsonpath evaluation raises."@, "NULL ON ERROR"@, "functions-json.html#FUNCTIONS-SQLJSON-QUERY"@))
        .insert("EMPTY ARRAY"@, keyword_v("EMPTY ARRAY"@, "ON EMPTY/ON ERROR clause: substitute `[]` (or `{}` for OBJECT) when the jsonpath returns nothing / errors."@, "EMPTY ARRAY ON EMPTY"@, "functions-json.html#FUNCTIONS-SQLJSON-QUERY"@))
        .insert("EMPTY OBJECT"@, keyword_v("EMPTY OBJECT"@, "ON EMPTY/ON ERROR clause: substitute `{}` when the jsonpath returns nothing / errors."@, "EMPTY OBJECT ON EMPTY"@, "functions-json.html#FUNCTIONS-SQLJSON-QUERY"@))
        .insert("WRAPPER"@, keyword_v("WRAPPER"@, "JSON_QUERY ... WITH { CONDITIONAL | UNCONDITIONAL } WRAPPER / WITHOUT WRAPPER -- choose how to wrap a non-array result."@, "JSON_QUERY(j, '$.items' WITH UNCONDITIONAL WRAPPER)"@, "functions-json.html#FUNCTIONS-SQLJSON-QUERY"@))
        .insert("WITH WRAPPER"@, keyword_v("WITH WRAPPER"@, "JSON_QUERY ... WITH WRAPPER -- alias for WITH UNCONDITIONAL WRAPPER."@, "JSON_QUERY(j, '$.items' WITH WRAPPER)"@, "functions-json.html#FUNCTIONS-SQLJSON-QUERY"@))
        .insert("WITHOUT WRAPPER"@, keyword_v("WITHOUT WRAPPER"@, "JSON_QUERY ... WITHOUT WRAPPER (default)."@, "JSON_QUERY(j, '$.item' WITHOUT WRAPPER)"@, "functions-json.html#FUNCTIONS-SQLJSON-QUERY"@))
        .insert("BEGIN ATOMIC"@, keyword_v("BEGIN ATOMIC"@, "PG14+ CREATE FUNCTION ... LANGUAGE sql BEGIN ATOMIC ... END -- SQL-standard inline body; references are resolved at create time, so renames cascade."@, "CREATE FUNCTION add(a int, b int) RETURNS int LANGUAGE sql BEGIN ATOMIC RETURN a + b; END;"@, "sql-createfunction.html"@))
        .insert("ATOMIC"@, keyword_v("ATOMIC"@, "BEGIN ATOMIC ... END marker -- parsed and resolved at CREATE time (unlike the legacy `$$ ... $$` body)."@, "BEGIN ATOMIC RETURN 1; END"@, "sql-createfunction.html"@))
        .insert("SUBSTRING SIMILAR"@, keyword_v("SUBSTRING SIMILAR"@, "SUBSTRING(<src> SIMILAR '<pattern>' ESCAPE '<char>') -- SQL-standard regex extraction."@, "SELECT SUBSTRING('foo123bar' SIMILAR '%#\"[0-9]+#\"%' ESCAPE '#');"@, "functions-string.html#FUNCTIONS-STRING-OTHER"@))
        .insert("SIMILAR TO ESCAPE"@, keyword_v("SIMILAR TO ESCAPE"@, "WHERE <expr> SIMILAR TO '<pattern>' ESCAPE '<char>' -- pick a custom escape character."@, "WHERE name SIMILAR TO 'a#%b' ESCAPE '#'"@, "functions-matching.html#FUNCTIONS-SIMILARTO-REGEXP"@))
        .insert("LIKE ESCAPE"@, keyword_v("LIKE ESCAPE"@, "<expr> LIKE '<pattern>' ESCAPE '<char>' -- escape `%` / `_` with a custom character (default `\\\\`)."@, "WHERE name LIKE 'a/%' ESCAPE '/'"@, "functions-matching.html#FUNCTIONS-LIKE"@))
        .insert("ILIKE ESCAPE"@, keyword_v("ILIKE ESCAPE"@, "<expr> ILIKE '<pattern>' ESCAPE '<char>' -- case-insensitive LIKE with custom escape."@, "WHERE name ILIKE 'A/_' ESCAPE '/'"@, "functions-matching.html#FUNCTIONS-LIKE"@))
        .insert("ESCAPE"@, keyword_v("ESCAPE"@, "Escape-char clause: LIKE / ILIKE / SIMILAR TO ... ESCAPE '<char>'. Default is the single backslash."@, "name LIKE 'a\\%b' ESCAPE '\\\\'"@, "functions-matching.html#FUNCTIONS-LIKE"@))
        .insert("OVERLAY FROM"@, keyword_v("OVERLAY FROM"@, "Trailing part of OVERLAY(... FROM <pos>) -- start position is 1-based."@, "OVERLAY('abc' PLACING 'X' FROM 2)"@, "functions-string.html#FUNCTIONS-STRING-OTHER"@))
        .insert("OVERLAY FOR"@, keyword_v("OVERLAY FOR"@, "Optional length: OVERLAY(... FROM <pos> FOR <len>)."@, "OVERLAY('abcdef' PLACING 'XY' FROM 2 FOR 3)"@, "functions-string.html#FUNCTIONS-STRING-OTHER"@))
        .insert("YEAR TO MONTH"@, keyword_v("YEAR TO MONTH"@, "INTERVAL '<n>' YEAR TO MONTH -- SQL-standard year-month interval qualifier; constrains the precision."@, "SELECT INTERVAL '1-6' YEAR TO MONTH;"@, "datatype-datetime.html#DATATYPE-INTERVAL-INPUT"@))
        .insert("DAY TO HOUR"@, keyword_v("DAY TO HOUR"@, "INTERVAL '<n>' DAY TO HOUR -- restrict to day+hour precision."@, "INTERVAL '2 3' DAY TO HOUR"@, "datatype-datetime.html#DATATYPE-INTERVAL-INPUT"@))
        .insert("DAY TO MINUTE"@, keyword_v("DAY TO MINUTE"@, "INTERVAL '<n>' DAY TO MINUTE -- day/hour/minute precision."@, "INTERVAL '2 3:15' DAY TO MINUTE"@, "datatype-datetime.html#DATATYPE-INTERVAL-INPUT"@))
        .insert("DAY TO SECOND"@, keyword_v("DAY TO SECOND"@, "INTERVAL '<n>' DAY TO SECOND -- full sub-day precision."@, "INTERVAL '2 3:15:30' DAY TO SECOND"@, "datatype-datetime.html#DATATYPE-INTERVAL-INPUT"@))
        .insert("HOUR TO MINUTE"@, keyword_v("HOUR TO MINUTE"@, "INTERVAL '<n>' HOUR TO MINUTE -- hour+minute precision."@, "INTERVAL '3:15' HOUR TO MINUTE"@, "datatype-datetime.html#DATATYPE-INTERVAL-INPUT"@))
        .insert("HOUR TO SECOND"@, keyword_v("HOUR TO SECOND"@, "INTERVAL '<n>' HOUR TO SECOND -- sub-hour precision."@, "INTERVAL '3:15:30' HOUR TO SECOND"@, "datatype-datetime.html#DATATYPE-INTERVAL-INPUT"@))
        .insert("MINUTE TO SECOND"@, keyword_v("MINUTE TO SECOND"@, "INTERVAL '<n>' MINUTE TO SECOND -- minute+second precision."@, "INTERVAL '15:30' MINUTE TO SECOND"@, "datatype-datetime.html#DATATYPE-INTERVAL-INPUT"@))
        .insert("INTERVAL YEAR"@, keyword_v("INTERVAL YEAR"@, "INTERVAL '<n>' YEAR -- year-only precision; truncates sub-year fields."@, "INTERVAL '5' YEAR"@, "datatype-datetime.html#DATATYPE-INTERVAL-INPUT"@))
        .insert("INTERVAL MONTH"@, keyword_v("INTERVAL MONTH"@, "INTERVAL '<n>' MONTH -- month-only precision."@, "INTERVAL '18' MONTH"@, "datatype-datetime.html#DATATYPE-INTERVAL-INPUT"@))
        .insert("INTERVAL DAY"@, keyword_v("INTERVAL DAY"@, "INTERVAL '<n>' DAY -- day-only precision."@, "INTERVAL '45' DAY"@, "datatype-datetime.html#DATATYPE-INTERVAL-INPUT"@))
        .insert("INTERVAL HOUR"@, keyword_v("INTERVAL HOUR"@, "INTERVAL '<n>' HOUR -- hour-only precision."@, "INTERVAL '36' HOUR"@, "datatype-datetime.html#DATATYPE-INTERVAL-INPUT"@))
        .insert("INTERVAL MINUTE"@, keyword_v("INTERVAL MINUTE"@, "INTERVAL '<n>' MINUTE -- minute-only precision."@, "INTERVAL '120' MINUTE"@, "datatype-datetime.html#DATATYPE-INTERVAL-INPUT"@))
        .insert("INTERVAL SECOND"@, keyword_v("INTERVAL SECOND"@, "INTERVAL '<n>' SECOND [(p)] -- second-only precision; (p) is fractional digits."@, "INTERVAL '90.5' SECOND(1)"@, "datatype-datetime.html#DATATYPE-INTERVAL-INPUT"@))
        .insert("CHARACTER LARGE OBJECT"@, keyword_v("CHARACTER LARGE OBJECT"@, "CHARACTER LARGE OBJECT -- SQL-standard alias for TEXT (PG stores as text)."@, "body CHARACTER LARGE OBJECT"@, "datatype-character.html"@))
        .insert("BINARY LARGE OBJECT"@, keyword_v("BINARY LARGE OBJECT"@, "BINARY LARGE OBJECT -- SQL-standard alias for BYTEA (PG stores as bytea)."@, "blob BINARY LARGE OBJECT"@, "datatype-binary.html"@))
        .insert("CLOB"@, keyword_v("CLOB"@, "CLOB -- shorthand for CHARACTER LARGE OBJECT; PG maps to TEXT."@, "body CLOB"@, "datatype-character.html"@))
        .insert("BLOB"@, keyword_v("BLOB"@, "BLOB -- shorthand for BINARY LARGE OBJECT; PG maps to BYTEA."@, "blob BLOB"@, "datatype-binary.html"@))
        .insert("NCHAR VARYING"@, keyword_v("NCHAR VARYING"@, "NCHAR VARYING(<n>) -- SQL-standard alias of VARCHAR(n) (national character set)."@, "name NCHAR VARYING(64)"@, "datatype-character.html"@))
        .insert("NATIONAL CHAR"@, keyword_v("NATIONAL CHAR"@, "NATIONAL CHAR(<n>) -- SQL-standard alias of CHAR(n)."@, "code NATIONAL CHAR(3)"@, "datatype-character.html"@))
        .insert("NATIONAL CHARACTER"@, keyword_v("NATIONAL CHARACTER"@, "NATIONAL CHARACTER [VARYING](<n>) -- SQL-standard char/varchar variant."@, "name NATIONAL CHARACTER VARYING(64)"@, "datatype-character.html"@))
        .insert("NATIONAL CHARACTER VARYING"@, keyword_v("NATIONAL CHARACTER VARYING"@, "NATIONAL CHARACTER VARYING(<n>) -- SQL-standard alias of VARCHAR(n)."@, "name NATIONAL CHARACTER VARYING(64)"@, "datatype-character.html"@))
        .insert("CHARACTER SET"@, keyword_v("CHARACTER SET"@, "CHARACTER SET <name> -- SQL-standard; PG accepts the syntax but ignores it (encoding is per-database)."@, "name VARCHAR(64) CHARACTER SET utf8"@, "datatype-character.html"@))
        .insert("AS SMALLINT"@, keyword_v("AS SMALLINT"@, "CAST(... AS SMALLINT) -- 2-byte signed integer."@, "SELECT CAST(x AS SMALLINT);"@, "sql-expressions.html#SQL-SYNTAX-TYPE-CASTS"@))
        .insert("AS INTEGER"@, keyword_v("AS INTEGER"@, "CAST(... AS INTEGER) -- 4-byte signed integer."@, "SELECT CAST(x AS INTEGER);"@, "sql-expressions.html#SQL-SYNTAX-TYPE-CASTS"@))
        .insert("AS REAL"@, keyword_v("AS REAL"@, "CAST(... AS REAL) -- 4-byte float."@, "SELECT CAST(x AS REAL);"@, "sql-expressions.html#SQL-SYNTAX-TYPE-CASTS"@))
        .insert("AS DOUBLE PRECISION"@, keyword_v("AS DOUBLE PRECISION"@, "CAST(... AS DOUBLE PRECISION) -- 8-byte float."@, "SELECT CAST(x AS DOUBLE PRECISION);"@, "sql-expressions.html#SQL-SYNTAX-TYPE-CASTS"@))
        .insert("COLLATE"@, keyword_v("COLLATE"@, "ORDER BY <col> COLLATE \"<collation>\" -- pick a non-default collation for ordering / comparisons."@, "ORDER BY name COLLATE \"de-DE-x-icu\""@, "collation.html"@))
        .insert("FILTER"@, keyword_v("FILTER"@, "<agg>(...) FILTER (WHERE <pred>) -- conditionally include rows in the aggregate."@, "SELECT count(*) FILTER (WHERE flag) FROM t;"@, "sql-expressions.html#SYNTAX-AGGREGATES"@))
        .insert("FILTER (WHERE"@, keyword_v("FILTER (WHERE"@, "Same as FILTER WHERE -- aggregate-only WHERE predicate."@, "count(*) FILTER (WHERE active)"@, "sql-expressions.html#SYNTAX-AGGREGATES"@))
        .insert("IGNORE NULLS"@, keyword_v("IGNORE NULLS"@, "Window function modifier (SQL standard): skip NULLs in LAG/LEAD/FIRST_VALUE/LAST_VALUE/NTH_VALUE. PG accepts the syntax in PG16+ via the standard-conformant parser."@, "lag(v) IGNORE NULLS OVER (ORDER BY t)"@, "functions-window.html"@))
        .insert("RESPECT NULLS"@, keyword_v("RESPECT NULLS"@, "Window function modifier (SQL standard, default): keep NULLs in LAG/LEAD/FIRST_VALUE/etc."@, "lag(v) RESPECT NULLS OVER (ORDER BY t)"@, "functions-window.html"@))
        .insert("FROM FIRST"@, keyword_v("FROM FIRST"@, "NTH_VALUE(<expr>, <n>) FROM FIRST -- pick the nth row from the start of the window frame (default)."@, "nth_value(v, 1) FROM FIRST OVER (ORDER BY t)"@, "functions-window.html"@))
        .insert("FROM LAST"@, keyword_v("FROM LAST"@, "NTH_VALUE(<expr>, <n>) FROM LAST -- pick the nth row counting backwards from the end of the frame."@, "nth_value(v, 1) FROM LAST OVER (ORDER BY t)"@, "functions-window.html"@))
        .insert("AGG ORDER BY"@, keyword_v("AGG ORDER BY"@, "<agg>(<expr> ORDER BY <key> [ASC|DESC]) -- intra-aggregate ordering (e.g. for string_agg / array_agg / json_agg)."@, "SELECT string_agg(name, ',' ORDER BY id) FROM t;"@, "sql-expressions.html#SYNTAX-AGGREGATES"@))
        .insert("XMLEXISTS PASSING"@, keyword_v("XMLEXISTS PASSING"@, "XMLEXISTS('<xpath>' PASSING [BY {REF|VALUE}] <xml> [AS <name>]) -- bind XML/values reachable inside the XPath."@, "XMLEXISTS('/r/i' PASSING BY VALUE doc AS doc)"@, "functions-xml.html#FUNCTIONS-XML-PREDICATES"@))
        .insert("PASSING BY VALUE"@, keyword_v("PASSING BY VALUE"@, "XMLEXISTS / XMLTABLE ... PASSING BY VALUE <expr> -- pass argument by value (the only mode PG supports; BY REF is parsed and ignored)."@, "XMLEXISTS('/r' PASSING BY VALUE x)"@, "functions-xml.html#FUNCTIONS-XML-PREDICATES"@))
        .insert("PASSING BY REF"@, keyword_v("PASSING BY REF"@, "XMLEXISTS / XMLTABLE ... PASSING BY REF <expr> -- SQL-standard mode; PG accepts but treats as BY VALUE."@, "XMLEXISTS('/r' PASSING BY REF x)"@, "functions-xml.html#FUNCTIONS-XML-PREDICATES"@))
        .insert("XMLPARSE DOCUMENT"@, keyword_v("XMLPARSE DOCUMENT"@, "XMLPARSE(DOCUMENT <text>) -- parse a complete XML document; requires a single root element."@, "XMLPARSE(DOCUMENT '<root/>')"@, "functions-xml.html#FUNCTIONS-PRODUCING-XML"@))
        .insert("XMLPARSE CONTENT"@, keyword_v("XMLPARSE CONTENT"@, "XMLPARSE(CONTENT <text>) -- parse an XML fragment (no root requirement)."@, "XMLPARSE(CONTENT '<a/><b/>')"@, "functions-xml.html#FUNCTIONS-PRODUCING-XML"@))
        .insert("GROUPING SETS"@, keyword_v("GROUPING SETS"@, "GROUP BY GROUPING SETS ((<cols>), (<cols>), ()) -- enumerate the exact grouping combinations; () is grand total."@, "SELECT a, b, count(*) FROM t GROUP BY GROUPING SETS ((a, b), (a), ());"@, "queries-table-expressions.html#QUERIES-GROUPING-SETS"@))
        .insert("ROLLUP"@, keyword_v("ROLLUP"@, "GROUP BY ROLLUP (a, b, c) -- expands to a hierarchy of grouping sets: (a,b,c), (a,b), (a), ()."@, "GROUP BY ROLLUP (region, sub_region, store)"@, "queries-table-expressions.html#QUERIES-GROUPING-SETS"@))
        .insert("CUBE"@, keyword_v("CUBE"@, "GROUP BY CUBE (a, b) -- every subset of the columns: (a,b), (a), (b), ()."@, "GROUP BY CUBE (region, channel)"@, "queries-table-expressions.html#QUERIES-GROUPING-SETS"@))
        .insert("ROLLUP COLUMN GROUP"@, keyword_v("ROLLUP COLUMN GROUP"@, "GROUP BY ROLLUP ((a, b), c) -- ROLLUP with composite column groups; the (a,b) pair is treated as one level."@, "GROUP BY ROLLUP ((country, city), product)"@, "queries-table-expressions.html#QUERIES-GROUPING-SETS"@))
        .insert("CUBE COLUMN GROUP"@, keyword_v("CUBE COLUMN GROUP"@, "GROUP BY CUBE ((a, b), c) -- CUBE with composite column groups; (a,b) is treated as a single grouping dimension."@, "GROUP BY CUBE ((year, quarter), region)"@, "queries-table-expressions.html#QUERIES-GROUPING-SETS"@))
        .insert("TABLE (FUNCTION"@, keyword_v("TABLE (FUNCTION"@, "FROM TABLE(<set_returning_function>(...)) -- SQL-standard spelling of the implicit `FROM <srf>(...)` form. PG accepts it too."@, "SELECT * FROM TABLE(generate_series(1, 10))"@, "queries-table-expressions.html"@))
        .insert("CYCLE USING"@, keyword_v("CYCLE USING"@, "WITH RECURSIVE ... CYCLE <cols> SET <flag> USING <path> -- PG14+ cycle detection; the USING column is the path array used for the test."@, "CYCLE id SET is_cycle USING path"@, "queries-with.html#QUERIES-WITH-CYCLE"@))
}

spec fn keyword_part_8(m: Map<Seq<char>, EntryV>) -> Map<Seq<char>, EntryV> {
    m
        .insert("CYCLE SET"@, keyword_v("CYCLE SET"@, "WITH RECURSIVE ... CYCLE <cols> SET <flag_col> [TO <true_val>] [DEFAULT <false_val>] -- flag column appended to the recursive result."@, "CYCLE id SET is_cycle TO 't' DEFAULT 'f' USING path"@, "queries-with.html#QUERIES-WITH-CYCLE"@))
        .insert("WEIGHT A"@, keyword_v("WEIGHT A"@, "setweight(tsvector, 'A') -- highest tsearch weight (usually used for titles)."@, "SELECT setweight(to_tsvector(title), 'A');"@, "textsearch-controls.html#TEXTSEARCH-MANIPULATE-TSVECTOR"@))
        .insert("WEIGHT B"@, keyword_v("WEIGHT B"@, "setweight(tsvector, 'B') -- second-highest tsearch weight (often subtitles / leading paragraphs)."@, "SELECT setweight(to_tsvector(body), 'B');"@, "textsearch-controls.html#TEXTSEARCH-MANIPULATE-TSVECTOR"@))
        .insert("WEIGHT C"@, keyword_v("WEIGHT C"@, "setweight(tsvector, 'C') -- third tsearch weight (often section text)."@, "setweight(to_tsvector(section), 'C')"@, "textsearch-controls.html#TEXTSEARCH-MANIPULATE-TSVECTOR"@))
        .insert("WEIGHT D"@, keyword_v("WEIGHT D"@, "setweight(tsvector, 'D') -- lowest tsearch weight (default for plain body text)."@, "setweight(to_tsvector(body), 'D')"@, "textsearch-controls.html#TEXTSEARCH-MANIPULATE-TSVECTOR"@))
        .insert("MULTISET"@, keyword_v("MULTISET"@, "SQL:2003 MULTISET / MULTISET UNION / MULTISET INTERSECT -- collection of unordered values with duplicates. PG does NOT implement MULTISET (use arrays)."@, "-- not supported by PG; use ARRAY[...] || ARRAY[...] for union"@, "datatype.html"@))
        .insert("EXISTS PATH"@, keyword_v("EXISTS PATH"@, "JSON_TABLE COLUMNS (<name> [type] EXISTS PATH '<jsonpath>') -- boolean column: true when jsonpath matches."@, "COLUMNS (has_tags boolean EXISTS PATH '$.tags')"@, "functions-json.html#FUNCTIONS-SQLJSON-TABLE"@))
        .insert("DEFAULT ON EMPTY"@, keyword_v("DEFAULT ON EMPTY"@, "ON EMPTY clause variant: ... DEFAULT <expr> ON EMPTY -- substitute <expr> when jsonpath returns no value."@, "DEFAULT 0 ON EMPTY"@, "functions-json.html#FUNCTIONS-SQLJSON-QUERY"@))
        .insert("DEFAULT ON ERROR"@, keyword_v("DEFAULT ON ERROR"@, "ON ERROR clause variant: ... DEFAULT <expr> ON ERROR -- substitute <expr> when jsonpath evaluation errors."@, "DEFAULT '{}'::jsonb ON ERROR"@, "functions-json.html#FUNCTIONS-SQLJSON-QUERY"@))
        .insert("NULL ON ERROR"@, keyword_v("NULL ON ERROR"@, "JSON_VALUE / JSON_QUERY ... NULL ON ERROR -- return SQL NULL on path-evaluation errors (default for JSON_VALUE)."@, "JSON_VALUE(j, '$.id' NULL ON ERROR)"@, "functions-json.html#FUNCTIONS-SQLJSON-QUERY"@))
        .insert("ERROR ON ERROR"@, keyword_v("ERROR ON ERROR"@, "JSON_VALUE / JSON_QUERY ... ERROR ON ERROR -- raise an exception on path-evaluation errors."@, "JSON_VALUE(j, '$.id' ERROR ON ERROR)"@, "functions-json.html#FUNCTIONS-SQLJSON-QUERY"@))
        .insert("NULL ON EMPTY"@, keyword_v("NULL ON EMPTY"@, "JSON_VALUE / JSON_QUERY ... NULL ON EMPTY -- return SQL NULL when jsonpath matches no value (default)."@, "JSON_VALUE(j, '$.id' NULL ON EMPTY)"@, "functions-json.html#FUNCTIONS-SQLJSON-QUERY"@))
        .insert("ERROR ON EMPTY"@, keyword_v("ERROR ON EMPTY"@, "JSON_VALUE / JSON_QUERY ... ERROR ON EMPTY -- raise an exception when jsonpath matches nothing."@, "JSON_VALUE(j, '$.id' ERROR ON EMPTY)"@, "functions-json.html#FUNCTIONS-SQLJSON-QUERY"@))
        .insert("ABSENT ON NULL"@, keyword_v("ABSENT ON NULL"@, "JSON_OBJECT / JSON_OBJECTAGG / JSON_ARRAY / JSON_ARRAYAGG ... ABSENT ON NULL -- omit entries / elements whose value is NULL."@, "JSON_OBJECT('id' VALUE id, 'mid' VALUE middle_name ABSENT ON NULL)"@, "functions-json.html#FUNCTIONS-SQLJSON-OBJECT"@))
        .insert("NULL ON NULL"@, keyword_v("NULL ON NULL"@, "JSON_OBJECT / JSON_OBJECTAGG ... NULL ON NULL -- keep `null` entries (default for JSON_ARRAY)."@, "JSON_OBJECT('id' VALUE id, 'tag' VALUE tag NULL ON NULL)"@, "functions-json.html#FUNCTIONS-SQLJSON-OBJECT"@))
        .insert("KEY VALUE"@, keyword_v("KEY VALUE"@, "JSON_OBJECT(KEY <key_expr> VALUE <val_expr>) -- SQL-standard pair syntax; PG also accepts the shorthand `<k> : <v>`."@, "JSON_OBJECT(KEY 'id' VALUE id)"@, "functions-json.html#FUNCTIONS-SQLJSON-OBJECT"@))
        .insert("RETURNING JSON"@, keyword_v("RETURNING JSON"@, "JSON_OBJECT / JSON_ARRAY / JSON_QUERY ... RETURNING JSON -- choose json output type."@, "JSON_OBJECT('id' VALUE id RETURNING json)"@, "functions-json.html"@))
        .insert("RETURNING JSONB"@, keyword_v("RETURNING JSONB"@, "JSON_OBJECT / JSON_ARRAY / JSON_QUERY ... RETURNING JSONB -- choose jsonb output type (more efficient for storage / indexing)."@, "JSON_OBJECT('id' VALUE id RETURNING jsonb)"@, "functions-json.html"@))
        .insert("RETURNING TEXT"@, keyword_v("RETURNING TEXT"@, "JSON_QUERY / JSON_VALUE ... RETURNING text -- return the result coerced to text."@, "JSON_VALUE(j, '$.name' RETURNING text)"@, "functions-json.html"@))
        .insert("FORMAT JSON"@, keyword_v("FORMAT JSON"@, "JSON_OBJECT(... FORMAT JSON) / JSON_QUERY(... FORMAT JSON) -- treat the value as already-encoded JSON (don't re-quote strings)."@, "JSON_OBJECT('payload' VALUE col FORMAT JSON)"@, "functions-json.html"@))
        .insert("FORMAT JSONB"@, keyword_v("FORMAT JSONB"@, "Variant of FORMAT JSON -- treat the value as binary jsonb."@, "JSON_OBJECT('payload' VALUE col FORMAT JSONB)"@, "functions-json.html"@))
        .insert("WITH QUOTES"@, keyword_v("WITH QUOTES"@, "JSON_QUERY(... WITH QUOTES) -- keep surrounding `\"...\"` when the result is a scalar string (default)."@, "JSON_QUERY(j, '$.name' WITH QUOTES)"@, "functions-json.html#FUNCTIONS-SQLJSON-QUERY"@))
        .insert("OMIT QUOTES"@, keyword_v("OMIT QUOTES"@, "JSON_QUERY(... OMIT QUOTES) -- strip the surrounding `\"...\"` when the result is a scalar string."@, "JSON_QUERY(j, '$.name' OMIT QUOTES)"@, "functions-json.html#FUNCTIONS-SQLJSON-QUERY"@))
        .insert("DOMAIN CHECK"@, keyword_v("DOMAIN CHECK"@, "CREATE DOMAIN <name> AS <type> [NOT NULL] [DEFAULT ...] [CONSTRAINT <c>] CHECK (<expr>) -- domain-wide invariant evaluated on every assignment."@, "CREATE DOMAIN positive_int AS int CHECK (VALUE > 0);"@, "sql-createdomain.html"@))
        .insert("DOMAIN VALUE"@, keyword_v("DOMAIN VALUE"@, "Inside DOMAIN ... CHECK (<expr>) the literal `VALUE` refers to the value being checked."@, "CHECK (VALUE > 0 AND VALUE < 100)"@, "sql-createdomain.html"@))
        .insert("CONSTRAINT CHECK"@, keyword_v("CONSTRAINT CHECK"@, "Named CHECK constraint: CONSTRAINT <name> CHECK (<expr>) -- gives the predicate a stable name for ALTER ... VALIDATE."@, "CONSTRAINT positive CHECK (qty > 0)"@, "sql-createtable.html"@))
        .insert("ADD CONSTRAINT CHECK"@, keyword_v("ADD CONSTRAINT CHECK"@, "ALTER TABLE/DOMAIN ADD CONSTRAINT <name> CHECK (<expr>) [NOT VALID] -- add a CHECK without rewriting (use NOT VALID then VALIDATE later)."@, "ALTER TABLE t ADD CONSTRAINT positive CHECK (qty > 0) NOT VALID;"@, "sql-altertable.html"@))
        .insert("LOCALE_PROVIDER"@, keyword_v("LOCALE_PROVIDER"@, "CREATE DATABASE / CREATE COLLATION ... LOCALE_PROVIDER { libc | icu | builtin } -- selects which locale backend resolves comparisons."@, "CREATE COLLATION fr (LOCALE_PROVIDER = icu, LOCALE = 'fr-FR');"@, "collation.html#COLLATION-MANAGING-CREATE"@))
        .insert("PROVIDER LIBC"@, keyword_v("PROVIDER LIBC"@, "CREATE COLLATION ... (PROVIDER = libc) -- POSIX libc locales; behaviour depends on the OS install."@, "CREATE COLLATION c (PROVIDER = libc, LOCALE = 'fr_FR.UTF-8');"@, "collation.html"@))
        .insert("PROVIDER ICU"@, keyword_v("PROVIDER ICU"@, "CREATE COLLATION ... (PROVIDER = icu) -- stable, version-tracked ICU collations (recommended for portability)."@, "CREATE COLLATION fr (PROVIDER = icu, LOCALE = 'fr-FR-x-icu');"@, "collation.html"@))
        .insert("PROVIDER BUILTIN"@, keyword_v("PROVIDER BUILTIN"@, "CREATE COLLATION ... (PROVIDER = builtin) -- PG17+ built-in C.UTF-8 / C locale provider; no external libraries needed."@, "CREATE COLLATION c_utf8 (PROVIDER = builtin, LOCALE = 'C.UTF-8');"@, "collation.html"@))
        .insert("DETERMINISTIC"@, keyword_v("DETERMINISTIC"@, "CREATE COLLATION ... (DETERMINISTIC = false) -- non-deterministic collation; allows case/accent-insensitive equality."@, "CREATE COLLATION ci (PROVIDER = icu, LOCALE = 'und-u-ks-level2', DETERMINISTIC = false);"@, "collation.html"@))
        .insert("COLLATION VERSION"@, keyword_v("COLLATION VERSION"@, "CREATE COLLATION ... (VERSION = '<v>') -- pin a specific collation version so ALTER COLLATION REFRESH VERSION can detect drift."@, "CREATE COLLATION fr (PROVIDER = icu, LOCALE = 'fr-FR', VERSION = '153.14');"@, "collation.html"@))
        .insert("TEXT SEARCH PARSER"@, keyword_v("TEXT SEARCH PARSER"@, "CREATE TEXT SEARCH PARSER <name> (...) -- defines how raw text is split into tokens."@, "CREATE TEXT SEARCH PARSER my_parser (START = prsd_start, GETTOKEN = prsd_nexttoken, END = prsd_end, LEXTYPES = prsd_lextype);"@, "sql-createtsparser.html"@))
        .insert("TEXT SEARCH DICTIONARY"@, keyword_v("TEXT SEARCH DICTIONARY"@, "CREATE TEXT SEARCH DICTIONARY <name> (TEMPLATE = <tmpl>[, ...]) -- maps tokens to lexemes / discards stopwords."@, "CREATE TEXT SEARCH DICTIONARY english_stem (TEMPLATE = snowball, LANGUAGE = english);"@, "sql-createtsdictionary.html"@))
        .insert("TEXT SEARCH TEMPLATE"@, keyword_v("TEXT SEARCH TEMPLATE"@, "CREATE TEXT SEARCH TEMPLATE <name> (LEXIZE = <fn>[, INIT = <fn>]) -- low-level building block reused by dictionaries."@, "CREATE TEXT SEARCH TEMPLATE my_tmpl (INIT = my_init, LEXIZE = my_lexize);"@, "sql-createtstemplate.html"@))
        .insert("TEXT SEARCH CONFIGURATION"@, keyword_v("TEXT SEARCH CONFIGURATION"@, "CREATE TEXT SEARCH CONFIGURATION <name> (PARSER = <parser> | COPY = <other>) -- bundles a parser plus token-type -> dictionary mappings."@, "CREATE TEXT SEARCH CONFIGURATION en (COPY = english);"@, "sql-createtsconfig.html"@))
        .insert("MAPPING FOR"@, keyword_v("MAPPING FOR"@, "ALTER TEXT SEARCH CONFIGURATION <c> ADD MAPPING FOR <token_types> WITH <dicts> -- bind token classes to dictionaries."@, "ALTER TEXT SEARCH CONFIGURATION en ADD MAPPING FOR asciiword, word WITH english_stem;"@, "sql-altertsconfig.html"@))
        .insert("MAPPING REPLACE"@, keyword_v("MAPPING REPLACE"@, "ALTER TEXT SEARCH CONFIGURATION <c> ALTER MAPPING REPLACE <old_dict> WITH <new_dict> -- swap a dictionary without re-listing token types."@, "ALTER TEXT SEARCH CONFIGURATION en ALTER MAPPING REPLACE simple WITH english_stem;"@, "sql-altertsconfig.html"@))
        .insert("RULE INSTEAD"@, keyword_v("RULE INSTEAD"@, "CREATE RULE <name> AS ON <event> TO <rel> DO INSTEAD <action> -- replace the original DML with the rule's action."@, "CREATE RULE no_delete AS ON DELETE TO t DO INSTEAD NOTHING;"@, "sql-createrule.html"@))
        .insert("GENERATED ALWAYS AS STORED"@, keyword_v("GENERATED ALWAYS AS STORED"@, "PG12+ stored generated column: computed expression materialised on disk (only STORED was supported pre-PG18; VIRTUAL added in PG18)."@, "amount_with_tax NUMERIC GENERATED ALWAYS AS (amount * 1.2) STORED"@, "ddl-generated-columns.html"@))
        .insert("GENERATED ALWAYS AS"@, keyword_v("GENERATED ALWAYS AS"@, "Generic prefix used by both identity (`AS IDENTITY`) and computed (`AS (<expr>) STORED|VIRTUAL`) generated columns."@, "GENERATED ALWAYS AS (amount * 1.2) STORED"@, "ddl-generated-columns.html"@))
        .insert("GENERATED BY DEFAULT AS"@, keyword_v("GENERATED BY DEFAULT AS"@, "Identity-only prefix: GENERATED BY DEFAULT AS IDENTITY -- user can override; only valid with IDENTITY (not computed expressions)."@, "id int GENERATED BY DEFAULT AS IDENTITY"@, "sql-createtable.html"@))
        .insert("IDENTITY ("@, keyword_v("IDENTITY ("@, "AS IDENTITY ( <sequence_options> ) -- supply optional sequence parameters (INCREMENT/MINVALUE/MAXVALUE/CACHE/CYCLE)."@, "AS IDENTITY (INCREMENT 5 START 100 CACHE 20)"@, "sql-createtable.html"@))
        .insert("INHERITS"@, keyword_v("INHERITS"@, "CREATE TABLE child () INHERITS (<parent>[, ...]) -- multiple-inheritance table; rows of children visible from parent unless ONLY is used."@, "CREATE TABLE cars () INHERITS (vehicles);"@, "ddl-inherit.html"@))
        .insert("CREATE TABLE OF"@, keyword_v("CREATE TABLE OF"@, "CREATE TABLE <name> OF <composite_type> -- typed table whose columns mirror the composite type."@, "CREATE TABLE my_t OF address_t;"@, "sql-createtable.html"@))
        .insert("OF TYPE"@, keyword_v("OF TYPE"@, "Generic spelling of `OF <composite_type>` -- table inherits its column shape from a composite type."@, "CREATE TABLE t OF address_t (PRIMARY KEY (id));"@, "sql-createtable.html"@))
        .insert("NOT OF"@, keyword_v("NOT OF"@, "ALTER TABLE <name> NOT OF -- detach a typed table from its composite type (PG13+)."@, "ALTER TABLE my_t NOT OF;"@, "sql-altertable.html"@))
        .insert("OPERATOR CLASS"@, keyword_v("OPERATOR CLASS"@, "CREATE INDEX ix ON t USING gin (<col> <opclass>) -- choose the operator class explicitly; needed for non-default ops (e.g. jsonb_path_ops, gin_trgm_ops)."@, "CREATE INDEX ix_doc ON docs USING gin (data jsonb_path_ops);"@, "sql-createopclass.html"@))
        .insert("jsonb_path_ops"@, keyword_v("jsonb_path_ops"@, "GIN opclass for jsonb that indexes only path -> value pairs. Faster + smaller than jsonb_ops but loses the `?` `?|` `?&` ops."@, "USING gin (data jsonb_path_ops)"@, "datatype-json.html#JSON-INDEXING"@))
        .insert("jsonb_ops"@, keyword_v("jsonb_ops"@, "Default GIN opclass for jsonb -- supports `@>`, `?`, `?|`, `?&` and key/value path operators."@, "USING gin (data jsonb_ops)"@, "datatype-json.html#JSON-INDEXING"@))
        .insert("gin_trgm_ops"@, keyword_v("gin_trgm_ops"@, "pg_trgm GIN opclass -- enables `%`, `<%`, `<<%` similarity ops + LIKE/ILIKE acceleration."@, "CREATE INDEX ON users USING gin (name gin_trgm_ops);"@, "pgtrgm.html#PGTRGM-INDEX"@))
        .insert("gist_trgm_ops"@, keyword_v("gist_trgm_ops"@, "pg_trgm GiST opclass -- KNN-friendly variant (supports `<->`)."@, "CREATE INDEX ON users USING gist (name gist_trgm_ops);"@, "pgtrgm.html#PGTRGM-INDEX"@))
        .insert("text_pattern_ops"@, keyword_v("text_pattern_ops"@, "BTREE opclass that compares strictly byte-by-byte, ignoring the column's collation -- needed for LIKE 'foo%' to use a btree index under a non-C collation."@, "CREATE INDEX ON t (name text_pattern_ops);"@, "indexes-opclass.html"@))
        .insert("varchar_pattern_ops"@, keyword_v("varchar_pattern_ops"@, "Like text_pattern_ops but for varchar."@, "CREATE INDEX ON t (code varchar_pattern_ops);"@, "indexes-opclass.html"@))
        .insert("bpchar_pattern_ops"@, keyword_v("bpchar_pattern_ops"@, "Like text_pattern_ops but for char(n) / bpchar."@, "CREATE INDEX ON t (code bpchar_pattern_ops);"@, "indexes-opclass.html"@))
        .insert("INDEX INCLUDE"@, keyword_v("INDEX INCLUDE"@, "INDEX ON t (<keys>) INCLUDE (<extras>) -- extras are not part of uniqueness but are stored in the leaf, enabling more index-only scans."@, "CREATE UNIQUE INDEX ON t (id) INCLUDE (name, updated_at);"@, "sql-createindex.html"@))
        .insert("fillfactor"@, keyword_v("fillfactor"@, "Storage reloption: leave free space in each page for HOT updates (heap) or splits (btree). Default 100 (heap) / 90 (btree)."@, "ALTER TABLE t SET (fillfactor = 80);"@, "sql-createtable.html#SQL-CREATETABLE-STORAGE-PARAMETERS"@))
        .insert("autovacuum_enabled"@, keyword_v("autovacuum_enabled"@, "Storage reloption: per-table override for autovacuum."@, "ALTER TABLE big SET (autovacuum_enabled = false);"@, "sql-createtable.html#SQL-CREATETABLE-STORAGE-PARAMETERS"@))
        .insert("autovacuum_vacuum_threshold"@, keyword_v("autovacuum_vacuum_threshold"@, "Per-table autovacuum threshold (rows). Lower for hotter tables."@, "ALTER TABLE t SET (autovacuum_vacuum_threshold = 1000);"@, "sql-createtable.html#SQL-CREATETABLE-STORAGE-PARAMETERS"@))
        .insert("autovacuum_vacuum_scale_factor"@, keyword_v("autovacuum_vacuum_scale_factor"@, "Per-table autovacuum scale factor."@, "ALTER TABLE t SET (autovacuum_vacuum_scale_factor = 0.05);"@, "sql-createtable.html#SQL-CREATETABLE-STORAGE-PARAMETERS"@))
        .insert("autovacuum_analyze_threshold"@, keyword_v("autovacuum_analyze_threshold"@, "Per-table autoanalyze threshold (rows)."@, "ALTER TABLE t SET (autovacuum_analyze_threshold = 500);"@, "sql-createtable.html#SQL-CREATETABLE-STORAGE-PARAMETERS"@))
        .insert("autovacuum_analyze_scale_factor"@, keyword_v("autovacuum_analyze_scale_factor"@, "Per-table autoanalyze scale factor."@, "ALTER TABLE t SET (autovacuum_analyze_scale_factor = 0.02);"@, "sql-createtable.html#SQL-CREATETABLE-STORAGE-PARAMETERS"@))
        .insert("autovacuum_vacuum_cost_delay"@, keyword_v("autovacuum_vacuum_cost_delay"@, "Per-table autovacuum cost delay (ms)."@, "ALTER TABLE t SET (autovacuum_vacuum_cost_delay = 5);"@, "sql-createtable.html#SQL-CREATETABLE-STORAGE-PARAMETERS"@))
        .insert("autovacuum_vacuum_insert_threshold"@, keyword_v("autovacuum_vacuum_insert_threshold"@, "Per-table threshold for insert-only autovacuum (PG13+)."@, "ALTER TABLE log SET (autovacuum_vacuum_insert_threshold = 10000);"@, "sql-createtable.html#SQL-CREATETABLE-STORAGE-PARAMETERS"@))
        .insert("parallel_workers"@, keyword_v("parallel_workers"@, "Per-table cap on parallel workers used for sequential scans."@, "ALTER TABLE big SET (parallel_workers = 4);"@, "sql-createtable.html#SQL-CREATETABLE-STORAGE-PARAMETERS"@))
        .insert("user_catalog_table"@, keyword_v("user_catalog_table"@, "Mark a regular table as a 'catalog' for logical decoding -- INSERT/UPDATE/DELETE still emit WAL even on the standby. Extensions use this."@, "ALTER TABLE meta SET (user_catalog_table = true);"@, "sql-createtable.html#SQL-CREATETABLE-STORAGE-PARAMETERS"@))
        .insert("deduplicate_items"@, keyword_v("deduplicate_items"@, "BTree-only reloption (PG13+): enable leaf-page dedup."@, "ALTER INDEX ix SET (deduplicate_items = on);"@, "sql-createindex.html#SQL-CREATEINDEX-STORAGE-PARAMETERS"@))
        .insert("toast.autovacuum_enabled"@, keyword_v("toast.autovacuum_enabled"@, "Per-table TOAST autovacuum toggle."@, "ALTER TABLE t SET (toast.autovacuum_enabled = true);"@, "sql-createtable.html#SQL-CREATETABLE-STORAGE-PARAMETERS"@))
        .insert("toast.autovacuum_vacuum_threshold"@, keyword_v("toast.autovacuum_vacuum_threshold"@, "Per-table TOAST autovacuum threshold (rows)."@, "ALTER TABLE t SET (toast.autovacuum_vacuum_threshold = 50000);"@, "sql-createtable.html#SQL-CREATETABLE-STORAGE-PARAMETERS"@))
        .insert("toast_tuple_target"@, keyword_v("toast_tuple_target"@, "Per-table reloption: target inline TOAST tuple size before TOAST-out kicks in (default 2032 bytes)."@, "ALTER TABLE wide SET (toast_tuple_target = 4080);"@, "sql-createtable.html#SQL-CREATETABLE-STORAGE-PARAMETERS"@))
        .insert("NOT ENFORCED"@, keyword_v("NOT ENFORCED"@, "PG18+ constraint modifier: declare the constraint but skip runtime checks. Useful for hand-validated data or replication scenarios."@, "ALTER TABLE t ADD CHECK (qty > 0) NOT ENFORCED;"@, "sql-altertable.html"@))
        .insert("ENFORCED"@, keyword_v("ENFORCED"@, "Default for constraints: rows must satisfy the predicate. Counterpart of NOT ENFORCED."@, "ALTER TABLE t ALTER CONSTRAINT positive ENFORCED;"@, "sql-altertable.html"@))
        .insert("pg_truncate_visibility_map"@, keyword_v("pg_truncate_visibility_map"@, "pg_truncate_visibility_map(regclass) -> void -- discard the VM file for a relation; forces a re-build at next VACUUM. PG13+."@, "SELECT pg_truncate_visibility_map('users'::regclass);"@, "functions-admin.html#FUNCTIONS-ADMIN-INDEX-TABLE"@))
        .insert("SECURITY LABEL FOR"@, keyword_v("SECURITY LABEL FOR"@, "SECURITY LABEL FOR <provider> ON <obj> IS '<label>' -- attach a label managed by a specific label provider (selinux/anon/...)."@, "SECURITY LABEL FOR selinux ON TABLE secret IS 'system_u:object_r:sepgsql_table_t:s0';"@, "sql-security-label.html"@))
}

spec fn keyword_part_9(m: Map<Seq<char>, EntryV>) -> Map<Seq<char>, EntryV> {
    m
        .insert("LABEL FOR"@, keyword_v("LABEL FOR"@, "Trailing portion of SECURITY LABEL: ... FOR <provider> -- pick which loaded label provider stores the label."@, "SECURITY LABEL FOR selinux ON ..."@, "sql-security-label.html"@))
        .insert("EVENT TRIGGER WHEN"@, keyword_v("EVENT TRIGGER WHEN"@, "CREATE EVENT TRIGGER <name> ON <event> WHEN TAG IN ('<tag>', ...) EXECUTE FUNCTION <fn>() -- restrict to specific command tags."@, "CREATE EVENT TRIGGER t ON ddl_command_start WHEN TAG IN ('CREATE TABLE') EXECUTE FUNCTION fn();"@, "sql-createeventtrigger.html"@))
        .insert("WHEN TAG IN"@, keyword_v("WHEN TAG IN"@, "Event-trigger filter: WHEN TAG IN ('CREATE TABLE', 'CREATE INDEX', ...) -- match by command-tag string."@, "WHEN TAG IN ('CREATE TABLE', 'CREATE INDEX')"@, "sql-createeventtrigger.html"@))
        .insert("EVENT TRIGGER LOGIN"@, keyword_v("EVENT TRIGGER LOGIN"@, "PG17+ event-trigger event: fires once when a user logs in. Trigger fn cannot reject the login but can audit / configure session."@, "CREATE EVENT TRIGGER t ON login EXECUTE FUNCTION audit_login();"@, "event-trigger-overview.html"@))
        .insert("COMMENT ON LARGE OBJECT"@, keyword_v("COMMENT ON LARGE OBJECT"@, "COMMENT ON LARGE OBJECT <oid> IS '<text>' -- attach a comment to a large object by oid."@, "COMMENT ON LARGE OBJECT 12345 IS 'invoice scan';"@, "sql-comment.html"@))
        .insert("COMMENT ON SUBSCRIPTION"@, keyword_v("COMMENT ON SUBSCRIPTION"@, "COMMENT ON SUBSCRIPTION <name> IS '<text>'."@, "COMMENT ON SUBSCRIPTION sub IS 'primary -> reporting';"@, "sql-comment.html"@))
        .insert("COMMENT ON PUBLICATION"@, keyword_v("COMMENT ON PUBLICATION"@, "COMMENT ON PUBLICATION <name> IS '<text>'."@, "COMMENT ON PUBLICATION pub IS 'tables for read replica';"@, "sql-comment.html"@))
        .insert("COMMENT ON EVENT TRIGGER"@, keyword_v("COMMENT ON EVENT TRIGGER"@, "COMMENT ON EVENT TRIGGER <name> IS '<text>'."@, "COMMENT ON EVENT TRIGGER audit_ddl IS 'logs every DDL';"@, "sql-comment.html"@))
        .insert("COMMENT ON ACCESS METHOD"@, keyword_v("COMMENT ON ACCESS METHOD"@, "COMMENT ON ACCESS METHOD <name> IS '<text>'."@, "COMMENT ON ACCESS METHOD bloom IS 'lossy filter index';"@, "sql-comment.html"@))
        .insert("COMMENT ON FOREIGN TABLE"@, keyword_v("COMMENT ON FOREIGN TABLE"@, "COMMENT ON FOREIGN TABLE <name> IS '<text>'."@, "COMMENT ON FOREIGN TABLE remote_users IS 'pulled from upstream';"@, "sql-comment.html"@))
        .insert("COMMENT ON FOREIGN DATA WRAPPER"@, keyword_v("COMMENT ON FOREIGN DATA WRAPPER"@, "COMMENT ON FOREIGN DATA WRAPPER <name> IS '<text>'."@, "COMMENT ON FOREIGN DATA WRAPPER postgres_fdw IS 'cross-cluster federation';"@, "sql-comment.html"@))
        .insert("COMMENT ON SERVER"@, keyword_v("COMMENT ON SERVER"@, "COMMENT ON SERVER <name> IS '<text>'."@, "COMMENT ON SERVER reporting_pg IS 'BI replica';"@, "sql-comment.html"@))
        .insert("COMMENT ON USER MAPPING"@, keyword_v("COMMENT ON USER MAPPING"@, "COMMENT ON USER MAPPING FOR <role> SERVER <name> IS '<text>'."@, "COMMENT ON USER MAPPING FOR app_user SERVER reporting_pg IS 'read-only';"@, "sql-comment.html"@))
        .insert("COMMENT ON COLLATION"@, keyword_v("COMMENT ON COLLATION"@, "COMMENT ON COLLATION <name> IS '<text>'."@, "COMMENT ON COLLATION fr IS 'French locale';"@, "sql-comment.html"@))
        .insert("COMMENT ON CONVERSION"@, keyword_v("COMMENT ON CONVERSION"@, "COMMENT ON CONVERSION <name> IS '<text>'."@, "COMMENT ON CONVERSION utf8_to_latin1 IS '';"@, "sql-comment.html"@))
        .insert("COMMENT ON STATISTICS"@, keyword_v("COMMENT ON STATISTICS"@, "COMMENT ON STATISTICS <name> IS '<text>'."@, "COMMENT ON STATISTICS stat_zip IS 'multi-col selectivity';"@, "sql-comment.html"@))
        .insert("LISTEN channel"@, keyword_v("LISTEN channel"@, "LISTEN <channel> -- subscribe to NOTIFY messages for <channel>; valid identifiers only, no quoting."@, "LISTEN order_events;"@, "sql-listen.html"@))
        .insert("NOTIFY channel"@, keyword_v("NOTIFY channel"@, "NOTIFY <channel> [, '<payload>'] -- send an asynchronous message; payload is text (1 KB cap by default)."@, "NOTIFY order_events, 'shipped:42';"@, "sql-notify.html"@))
        .insert("UNLISTEN ALL"@, keyword_v("UNLISTEN ALL"@, "UNLISTEN * -- cancel all this session's LISTEN subscriptions."@, "UNLISTEN *;"@, "sql-unlisten.html"@))
        .insert("VALID UNTIL"@, keyword_v("VALID UNTIL"@, "CREATE/ALTER ROLE ... VALID UNTIL '<timestamptz>' -- password expiration."@, "ALTER ROLE bob VALID UNTIL '2026-12-31';"@, "sql-createrole.html"@))
        .insert("CONNECTION LIMIT"@, keyword_v("CONNECTION LIMIT"@, "CREATE/ALTER ROLE ... CONNECTION LIMIT <n> -- cap concurrent sessions per role (-1 = unlimited, default)."@, "ALTER ROLE bob CONNECTION LIMIT 5;"@, "sql-createrole.html"@))
        .insert("ENCRYPTED PASSWORD"@, keyword_v("ENCRYPTED PASSWORD"@, "CREATE/ALTER ROLE ... ENCRYPTED PASSWORD '<plaintext>' -- SCRAM-hash on the way in (default behavior)."@, "CREATE ROLE bob LOGIN ENCRYPTED PASSWORD 'secret';"@, "sql-createrole.html"@))
        .insert("UNENCRYPTED"@, keyword_v("UNENCRYPTED"@, "CREATE/ALTER ROLE ... UNENCRYPTED PASSWORD '...' -- deprecated; PG13+ rejects this form."@, "-- avoid: ALTER ROLE bob UNENCRYPTED PASSWORD '...'"@, "sql-createrole.html"@))
        .insert("INHERIT ROLE"@, keyword_v("INHERIT ROLE"@, "CREATE/ALTER ROLE ... INHERIT -- automatically gain privileges of granted roles (default)."@, "ALTER ROLE bob INHERIT;"@, "sql-createrole.html"@))
        .insert("NOINHERIT"@, keyword_v("NOINHERIT"@, "CREATE/ALTER ROLE ... NOINHERIT -- require explicit SET ROLE to use granted role's privileges."@, "ALTER ROLE app NOINHERIT;"@, "sql-createrole.html"@))
        .insert("IN ROLE"@, keyword_v("IN ROLE"@, "CREATE ROLE ... IN ROLE <existing>[, ...] -- add the new role as a member of these."@, "CREATE ROLE alice LOGIN IN ROLE app_users;"@, "sql-createrole.html"@))
        .insert("IN GROUP"@, keyword_v("IN GROUP"@, "Legacy synonym of IN ROLE."@, "CREATE ROLE alice LOGIN IN GROUP app_users;"@, "sql-createrole.html"@))
        .insert("ROLE ADMIN"@, keyword_v("ROLE ADMIN"@, "CREATE ROLE ... ROLE <other> ADMIN <admin_role> -- grant ADMIN OPTION on memberships."@, "CREATE ROLE alice ROLE app_users ADMIN app_admin;"@, "sql-createrole.html"@))
        .insert("SYSID"@, keyword_v("SYSID"@, "Legacy SYSID <oid> -- accepted but ignored. PG assigns its own oid."@, "CREATE ROLE alice SYSID 12345;"@, "sql-createrole.html"@))
        .insert("HOLD WITHOUT"@, keyword_v("HOLD WITHOUT"@, "DECLARE <c> CURSOR HOLD WITHOUT HOLD -- not legal; HOLD or WITHOUT HOLD pick one."@, "DECLARE c CURSOR WITHOUT HOLD FOR SELECT 1;"@, "sql-declare.html"@))
        .insert("TIMETZ"@, keyword_v("TIMETZ"@, "Postgres-internal name for TIME WITH TIME ZONE."@, "open_at TIMETZ"@, "datatype-datetime.html"@))
        .insert("TIMESTAMPTZ"@, keyword_v("TIMESTAMPTZ"@, "Postgres-internal name for TIMESTAMP WITH TIME ZONE (8-byte, recommended over TIMESTAMP for absolute moments)."@, "ts TIMESTAMPTZ NOT NULL"@, "datatype-datetime.html"@))
        .insert("ALTER DEFAULT PRIVILEGES"@, keyword_v("ALTER DEFAULT PRIVILEGES"@, "ALTER DEFAULT PRIVILEGES [FOR ROLE <r>] [IN SCHEMA <s>] {GRANT|REVOKE} <priv> ON <class> TO <role>; -- pre-set privileges for future objects."@, "ALTER DEFAULT PRIVILEGES FOR ROLE app IN SCHEMA public GRANT SELECT ON TABLES TO ro;"@, "sql-alterdefaultprivileges.html"@))
        .insert("DEFAULT PRIVILEGES FOR ROLE"@, keyword_v("DEFAULT PRIVILEGES FOR ROLE"@, "ALTER DEFAULT PRIVILEGES FOR ROLE <r> ... -- only apply when <r> creates objects."@, "ALTER DEFAULT PRIVILEGES FOR ROLE app IN SCHEMA public GRANT SELECT ON TABLES TO ro;"@, "sql-alterdefaultprivileges.html"@))
        .insert("DEFAULT PRIVILEGES IN SCHEMA"@, keyword_v("DEFAULT PRIVILEGES IN SCHEMA"@, "ALTER DEFAULT PRIVILEGES IN SCHEMA <s> ... -- scope to schema instead of every DB schema."@, "ALTER DEFAULT PRIVILEGES IN SCHEMA app GRANT SELECT ON TABLES TO ro;"@, "sql-alterdefaultprivileges.html"@))
        .insert("ON TABLES"@, keyword_v("ON TABLES"@, "ALTER DEFAULT PRIVILEGES ... GRANT/REVOKE ... ON TABLES -- future tables + views + matviews."@, "ON TABLES TO ro_role"@, "sql-alterdefaultprivileges.html"@))
        .insert("ON SEQUENCES"@, keyword_v("ON SEQUENCES"@, "ALTER DEFAULT PRIVILEGES ... ON SEQUENCES -- future sequences."@, "ON SEQUENCES TO svc_role"@, "sql-alterdefaultprivileges.html"@))
        .insert("ON FUNCTIONS"@, keyword_v("ON FUNCTIONS"@, "ALTER DEFAULT PRIVILEGES ... ON FUNCTIONS -- future fns (covers procs too)."@, "ON FUNCTIONS TO svc_role"@, "sql-alterdefaultprivileges.html"@))
        .insert("ON ROUTINES"@, keyword_v("ON ROUTINES"@, "ALTER DEFAULT PRIVILEGES ... ON ROUTINES -- PG11+ umbrella for fns + procs."@, "ON ROUTINES TO svc_role"@, "sql-alterdefaultprivileges.html"@))
        .insert("ON TYPES"@, keyword_v("ON TYPES"@, "ALTER DEFAULT PRIVILEGES ... ON TYPES -- future user-defined types."@, "ON TYPES TO devs"@, "sql-alterdefaultprivileges.html"@))
        .insert("ON SCHEMAS"@, keyword_v("ON SCHEMAS"@, "ALTER DEFAULT PRIVILEGES ... ON SCHEMAS -- future schemas (PG10+)."@, "ON SCHEMAS TO devs"@, "sql-alterdefaultprivileges.html"@))
        .insert("COMMENT ON TABLESPACE"@, keyword_v("COMMENT ON TABLESPACE"@, "COMMENT ON TABLESPACE <name> IS '<text>'."@, "COMMENT ON TABLESPACE fastdisk IS 'NVMe pool';"@, "sql-comment.html"@))
        .insert("COMMENT ON ROUTINE"@, keyword_v("COMMENT ON ROUTINE"@, "COMMENT ON ROUTINE <name>(args) IS '<text>' -- works for both fns AND procs (PG11+)."@, "COMMENT ON ROUTINE up() IS 'startup';"@, "sql-comment.html"@))
        .insert("COMMENT ON OPERATOR"@, keyword_v("COMMENT ON OPERATOR"@, "COMMENT ON OPERATOR <op>(left_type, right_type) IS '<text>'."@, "COMMENT ON OPERATOR ===(int, int) IS 'strict equality';"@, "sql-comment.html"@))
        .insert("COMMENT ON OPERATOR CLASS"@, keyword_v("COMMENT ON OPERATOR CLASS"@, "COMMENT ON OPERATOR CLASS <name> USING <am> IS '<text>'."@, "COMMENT ON OPERATOR CLASS oc USING btree IS '';"@, "sql-comment.html"@))
        .insert("COMMENT ON OPERATOR FAMILY"@, keyword_v("COMMENT ON OPERATOR FAMILY"@, "COMMENT ON OPERATOR FAMILY <name> USING <am> IS '<text>'."@, "COMMENT ON OPERATOR FAMILY of USING btree IS '';"@, "sql-comment.html"@))
        .insert("COMMENT ON AGGREGATE"@, keyword_v("COMMENT ON AGGREGATE"@, "COMMENT ON AGGREGATE <name>(args) IS '<text>'."@, "COMMENT ON AGGREGATE my_sum(int) IS 'sum impl';"@, "sql-comment.html"@))
        .insert("COMMENT ON RULE"@, keyword_v("COMMENT ON RULE"@, "COMMENT ON RULE <name> ON <table> IS '<text>'."@, "COMMENT ON RULE r ON t IS 'redirect insert';"@, "sql-comment.html"@))
        .insert("COMMENT ON CAST"@, keyword_v("COMMENT ON CAST"@, "COMMENT ON CAST (<src_type> AS <tgt_type>) IS '<text>'."@, "COMMENT ON CAST (text AS int) IS 'implicit';"@, "sql-comment.html"@))
        .insert("COMMENT ON TEXT SEARCH CONFIGURATION"@, keyword_v("COMMENT ON TEXT SEARCH CONFIGURATION"@, "COMMENT ON TEXT SEARCH CONFIGURATION <name> IS '<text>'."@, "COMMENT ON TEXT SEARCH CONFIGURATION en IS 'english';"@, "sql-comment.html"@))
        .insert("COMMENT ON TEXT SEARCH DICTIONARY"@, keyword_v("COMMENT ON TEXT SEARCH DICTIONARY"@, "COMMENT ON TEXT SEARCH DICTIONARY <name> IS '<text>'."@, "COMMENT ON TEXT SEARCH DICTIONARY english_stem IS 'snowball';"@, "sql-comment.html"@))
        .insert("COMMENT ON TEXT SEARCH PARSER"@, keyword_v("COMMENT ON TEXT SEARCH PARSER"@, "COMMENT ON TEXT SEARCH PARSER <name> IS '<text>'."@, "COMMENT ON TEXT SEARCH PARSER my_parser IS '';"@, "sql-comment.html"@))
        .insert("COMMENT ON TEXT SEARCH TEMPLATE"@, keyword_v("COMMENT ON TEXT SEARCH TEMPLATE"@, "COMMENT ON TEXT SEARCH TEMPLATE <name> IS '<text>'."@, "COMMENT ON TEXT SEARCH TEMPLATE my_tmpl IS '';"@, "sql-comment.html"@))
        .insert("COMMENT ON TRANSFORM"@, keyword_v("COMMENT ON TRANSFORM"@, "COMMENT ON TRANSFORM FOR <type> LANGUAGE <lang> IS '<text>'."@, "COMMENT ON TRANSFORM FOR hstore LANGUAGE plperl IS 'hstore<->perl hash';"@, "sql-comment.html"@))
        .insert("SET LOCAL ROLE"@, keyword_v("SET LOCAL ROLE"@, "SET LOCAL ROLE <role> -- transaction-scoped role switch (reverts at COMMIT/ROLLBACK)."@, "BEGIN; SET LOCAL ROLE readonly; SELECT 1; COMMIT;"@, "sql-set-role.html"@))
        .insert("SET SESSION ROLE"@, keyword_v("SET SESSION ROLE"@, "SET SESSION ROLE <role> -- session-scoped role switch (default for SET ROLE without LOCAL/SESSION)."@, "SET SESSION ROLE app_user;"@, "sql-set-role.html"@))
        .insert("SET ROLE NONE"@, keyword_v("SET ROLE NONE"@, "SET ROLE NONE -- shortcut for RESET ROLE; revert to the session's outer role."@, "SET ROLE NONE;"@, "sql-set-role.html"@))
        .insert("RESET SESSION AUTHORIZATION"@, keyword_v("RESET SESSION AUTHORIZATION"@, "RESET SESSION AUTHORIZATION -- revert masquerade back to the connection's authenticated role."@, "RESET SESSION AUTHORIZATION;"@, "sql-reset.html"@))
        .insert("SET SESSION AUTHORIZATION DEFAULT"@, keyword_v("SET SESSION AUTHORIZATION DEFAULT"@, "SET SESSION AUTHORIZATION DEFAULT -- equivalent to RESET SESSION AUTHORIZATION."@, "SET SESSION AUTHORIZATION DEFAULT;"@, "sql-set-session-authorization.html"@))
        .insert("SKIP LOCKED"@, keyword_v("SKIP LOCKED"@, "SELECT ... FOR UPDATE/SHARE SKIP LOCKED -- skip rows held by another tx instead of blocking; ideal for worker queues."@, "SELECT id FROM jobs WHERE done = false FOR UPDATE SKIP LOCKED LIMIT 1;"@, "sql-select.html#SQL-FOR-UPDATE-SHARE"@))
        .insert("FOR UPDATE OF"@, keyword_v("FOR UPDATE OF"@, "SELECT ... FOR UPDATE OF <alias>[, ...] -- lock only the named rels (when JOIN'd)."@, "SELECT * FROM users u JOIN orders o ON u.id = o.user_id FOR UPDATE OF u;"@, "sql-select.html"@))
        .insert("FOR NO KEY UPDATE"@, keyword_v("FOR NO KEY UPDATE"@, "SELECT ... FOR NO KEY UPDATE -- weaker than FOR UPDATE; doesn't block parallel FK checks."@, "SELECT * FROM users WHERE id = 1 FOR NO KEY UPDATE;"@, "sql-select.html"@))
        .insert("FOR KEY SHARE"@, keyword_v("FOR KEY SHARE"@, "SELECT ... FOR KEY SHARE -- weakest row lock; blocks deletes but not non-key updates. Used by FK checks."@, "SELECT id FROM users WHERE id = 1 FOR KEY SHARE;"@, "sql-select.html"@))
        .insert("pg_advisory_lock"@, keyword_v("pg_advisory_lock"@, "pg_advisory_lock(key bigint) / pg_advisory_lock(key1 int, key2 int) -> void -- session-level advisory lock; blocks until acquired."@, "SELECT pg_advisory_lock(42);"@, "functions-admin.html#FUNCTIONS-ADVISORY-LOCKS"@))
        .insert("pg_try_advisory_lock"@, keyword_v("pg_try_advisory_lock"@, "pg_try_advisory_lock(...) -> boolean -- non-blocking variant; returns false if held by another session."@, "SELECT pg_try_advisory_lock(42);"@, "functions-admin.html#FUNCTIONS-ADVISORY-LOCKS"@))
        .insert("pg_advisory_xact_lock"@, keyword_v("pg_advisory_xact_lock"@, "pg_advisory_xact_lock(...) -> void -- transaction-scoped (auto-releases at COMMIT/ROLLBACK)."@, "BEGIN; SELECT pg_advisory_xact_lock(42); -- ... COMMIT;"@, "functions-admin.html#FUNCTIONS-ADVISORY-LOCKS"@))
        .insert("pg_try_advisory_xact_lock"@, keyword_v("pg_try_advisory_xact_lock"@, "Non-blocking + xact-scoped advisory lock."@, "SELECT pg_try_advisory_xact_lock(42);"@, "functions-admin.html#FUNCTIONS-ADVISORY-LOCKS"@))
        .insert("pg_advisory_lock_shared"@, keyword_v("pg_advisory_lock_shared"@, "Shared (read) variant; multiple sessions can hold concurrently."@, "SELECT pg_advisory_lock_shared(42);"@, "functions-admin.html#FUNCTIONS-ADVISORY-LOCKS"@))
        .insert("pg_try_advisory_lock_shared"@, keyword_v("pg_try_advisory_lock_shared"@, "Non-blocking shared advisory lock."@, "SELECT pg_try_advisory_lock_shared(42);"@, "functions-admin.html#FUNCTIONS-ADVISORY-LOCKS"@))
        .insert("pg_advisory_xact_lock_shared"@, keyword_v("pg_advisory_xact_lock_shared"@, "Shared + xact-scoped advisory lock."@, "BEGIN; SELECT pg_advisory_xact_lock_shared(42); COMMIT;"@, "functions-admin.html#FUNCTIONS-ADVISORY-LOCKS"@))
        .insert("pg_advisory_unlock"@, keyword_v("pg_advisory_unlock"@, "pg_advisory_unlock(key bigint) -> boolean -- release one session-level lock. Returns false if not held."@, "SELECT pg_advisory_unlock(42);"@, "functions-admin.html#FUNCTIONS-ADVISORY-LOCKS"@))
        .insert("pg_advisory_unlock_all"@, keyword_v("pg_advisory_unlock_all"@, "pg_advisory_unlock_all() -> void -- release every session-level advisory lock at once."@, "SELECT pg_advisory_unlock_all();"@, "functions-admin.html#FUNCTIONS-ADVISORY-LOCKS"@))
        .insert("pg_advisory_unlock_shared"@, keyword_v("pg_advisory_unlock_shared"@, "Release a shared session-level lock."@, "SELECT pg_advisory_unlock_shared(42);"@, "functions-admin.html#FUNCTIONS-ADVISORY-LOCKS"@))
        .insert("LISTEN identifier rules"@, keyword_v("LISTEN identifier rules"@, "LISTEN <channel> -- channel must be a SQL identifier (alphanumeric + `_`, case-folded unless quoted). Max length matches identifier limit (typically 63 bytes)."@, "LISTEN order_events;"@, "sql-listen.html"@))
        .insert("NOTIFY identifier rules"@, keyword_v("NOTIFY identifier rules"@, "NOTIFY <channel> [, '<payload>'] -- channel same rules as LISTEN. Payload is text <= 8000 bytes (NAMEDATALEN-1)."@, "NOTIFY order_events, 'shipped:42';"@, "sql-notify.html"@))
}

spec fn keyword_part_10(m: Map<Seq<char>, EntryV>) -> Map<Seq<char>, EntryV> {
    m
        .insert("RETURN QUERY"@, keyword_v("RETURN QUERY"@, "PL/pgSQL RETURN QUERY <select_stmt> -- append the SELECT's rows to a set-returning function's result set."@, "RETURN QUERY SELECT * FROM users WHERE active;"@, "plpgsql-control-structures.html#PLPGSQL-STATEMENTS-RETURNING"@))
        .insert("RETURN NEXT"@, keyword_v("RETURN NEXT"@, "PL/pgSQL RETURN NEXT <expr> -- append one row to a set-returning function's result."@, "FOR r IN SELECT * FROM users LOOP RETURN NEXT r; END LOOP;"@, "plpgsql-control-structures.html#PLPGSQL-STATEMENTS-RETURNING"@))
        .insert("RETURN QUERY EXECUTE"@, keyword_v("RETURN QUERY EXECUTE"@, "PL/pgSQL RETURN QUERY EXECUTE <text> [USING <params>] -- append a dynamic SQL query's result."@, "RETURN QUERY EXECUTE 'SELECT * FROM ' || quote_ident(t) USING id;"@, "plpgsql-control-structures.html#PLPGSQL-STATEMENTS-RETURNING"@))
        .insert("FOREACH IN SLICE"@, keyword_v("FOREACH IN SLICE"@, "PL/pgSQL FOREACH <var> SLICE <n> IN ARRAY <arr> LOOP -- iterate by sub-array slices (n>0 means n-dim slices)."@, "FOREACH row SLICE 1 IN ARRAY two_d_arr LOOP ... END LOOP;"@, "plpgsql-control-structures.html#PLPGSQL-FOREACH-ARRAY"@))
        .insert("OPEN FOR"@, keyword_v("OPEN FOR"@, "PL/pgSQL OPEN <cursor> FOR <select> -- bind a query to a refcursor variable."@, "OPEN c FOR SELECT * FROM users WHERE id = uid;"@, "plpgsql-cursors.html#PLPGSQL-CURSOR-OPENING"@))
        .insert("OPEN FOR EXECUTE"@, keyword_v("OPEN FOR EXECUTE"@, "PL/pgSQL OPEN <cursor> FOR EXECUTE <sql_text> [USING <params>] -- bind dynamic SQL to a refcursor."@, "OPEN c FOR EXECUTE 'SELECT * FROM ' || quote_ident(t);"@, "plpgsql-cursors.html#PLPGSQL-CURSOR-OPENING"@))
        .insert("REFCURSOR"@, keyword_v("REFCURSOR"@, "PL/pgSQL refcursor variable -- bind via OPEN, FETCH from later; pass between functions or to the client."@, "DECLARE c refcursor; BEGIN OPEN c FOR SELECT 1; ..."@, "plpgsql-cursors.html"@))
        .insert("GENERATED COLUMN INHERITANCE"@, keyword_v("GENERATED COLUMN INHERITANCE"@, "Generated columns CANNOT be overridden by child tables in inheritance. Stored expressions are recomputed per row."@, "-- VIRTUAL re-evaluates per read; STORED writes once at INSERT/UPDATE"@, "ddl-generated-columns.html"@))
        .insert("ALWAYS AS GENERATED"@, keyword_v("ALWAYS AS GENERATED"@, "Misnomer alias seen in some DBs -- in PG the correct order is `GENERATED ALWAYS AS (<expr>) {STORED|VIRTUAL}`."@, "GENERATED ALWAYS AS (a*2) STORED"@, "ddl-generated-columns.html"@))
        .insert("ACCESS SHARE"@, keyword_v("ACCESS SHARE"@, "LOCK TABLE t IN ACCESS SHARE MODE -- weakest mode; only conflicts with ACCESS EXCLUSIVE. Acquired by every SELECT."@, "LOCK TABLE t IN ACCESS SHARE MODE;"@, "explicit-locking.html#LOCKING-TABLES"@))
        .insert("ROW SHARE"@, keyword_v("ROW SHARE"@, "LOCK TABLE t IN ROW SHARE MODE -- acquired by SELECT FOR UPDATE / FOR SHARE."@, "LOCK TABLE t IN ROW SHARE MODE;"@, "explicit-locking.html#LOCKING-TABLES"@))
        .insert("ROW EXCLUSIVE"@, keyword_v("ROW EXCLUSIVE"@, "LOCK TABLE t IN ROW EXCLUSIVE MODE -- acquired by INSERT/UPDATE/DELETE/MERGE."@, "LOCK TABLE t IN ROW EXCLUSIVE MODE;"@, "explicit-locking.html#LOCKING-TABLES"@))
        .insert("SHARE UPDATE EXCLUSIVE"@, keyword_v("SHARE UPDATE EXCLUSIVE"@, "LOCK TABLE t IN SHARE UPDATE EXCLUSIVE MODE -- VACUUM/ANALYZE/CREATE INDEX CONCURRENTLY/ALTER TABLE VALIDATE."@, "LOCK TABLE t IN SHARE UPDATE EXCLUSIVE MODE;"@, "explicit-locking.html#LOCKING-TABLES"@))
        .insert("SHARE ROW EXCLUSIVE"@, keyword_v("SHARE ROW EXCLUSIVE"@, "LOCK TABLE t IN SHARE ROW EXCLUSIVE MODE -- blocks concurrent writers AND blocks SHARE-mode readers from acquiring it."@, "LOCK TABLE t IN SHARE ROW EXCLUSIVE MODE;"@, "explicit-locking.html#LOCKING-TABLES"@))
        .insert("ACCESS EXCLUSIVE"@, keyword_v("ACCESS EXCLUSIVE"@, "LOCK TABLE t IN ACCESS EXCLUSIVE MODE -- strongest; conflicts with every other mode. Acquired by ALTER/DROP/TRUNCATE/REINDEX (non-concurrent), VACUUM FULL, CLUSTER."@, "LOCK TABLE t IN ACCESS EXCLUSIVE MODE;"@, "explicit-locking.html#LOCKING-TABLES"@))
        .insert("LOCK TABLE IN"@, keyword_v("LOCK TABLE IN"@, "LOCK TABLE <t> IN <mode> MODE [NOWAIT] -- acquire an explicit relation lock."@, "LOCK TABLE big IN ACCESS EXCLUSIVE MODE NOWAIT;"@, "sql-lock.html"@))
        .insert("NOWAIT"@, keyword_v("NOWAIT"@, "Lock acquisition modifier: don't block; raise 55P03 if the lock isn't immediately available."@, "LOCK TABLE t IN ACCESS EXCLUSIVE MODE NOWAIT;"@, "sql-lock.html"@))
        .insert("READ COMMITTED"@, keyword_v("READ COMMITTED"@, "Default PG isolation: each statement sees a fresh snapshot. No phantom protection across statements."@, "BEGIN ISOLATION LEVEL READ COMMITTED;"@, "transaction-iso.html#XACT-READ-COMMITTED"@))
        .insert("REPEATABLE READ"@, keyword_v("REPEATABLE READ"@, "PG isolation: each transaction sees a single snapshot at start; rejects concurrent updates with 40001."@, "BEGIN ISOLATION LEVEL REPEATABLE READ;"@, "transaction-iso.html#XACT-REPEATABLE-READ"@))
        .insert("READ UNCOMMITTED"@, keyword_v("READ UNCOMMITTED"@, "Accepted spelling, treated as READ COMMITTED in PG -- there are no dirty reads."@, "BEGIN ISOLATION LEVEL READ UNCOMMITTED;"@, "transaction-iso.html"@))
        .insert("DEFERRABLE"@, keyword_v("DEFERRABLE"@, "Transaction mode: DEFERRABLE -- valid only with ISOLATION LEVEL SERIALIZABLE READ ONLY; the txn may wait at start instead of failing with 40001."@, "BEGIN ISOLATION LEVEL SERIALIZABLE READ ONLY DEFERRABLE;"@, "sql-set-transaction.html"@))
        .insert("ONLY_DATABASE_STATS"@, keyword_v("ONLY_DATABASE_STATS"@, "VACUUM (ONLY_DATABASE_STATS) -- skip the per-relation pass and only refresh per-DB stats (PG17+)."@, "VACUUM (ONLY_DATABASE_STATS);"@, "sql-vacuum.html"@))
        .insert("SKIP_DATABASE_STATS"@, keyword_v("SKIP_DATABASE_STATS"@, "VACUUM (SKIP_DATABASE_STATS) -- skip the per-DB stats refresh (PG17+); useful from cron loops."@, "VACUUM (SKIP_DATABASE_STATS);"@, "sql-vacuum.html"@))
        .insert("INDEX_CLEANUP"@, keyword_v("INDEX_CLEANUP"@, "VACUUM (INDEX_CLEANUP { AUTO | ON | OFF }) -- override index cleanup heuristic."@, "VACUUM (INDEX_CLEANUP off) big;"@, "sql-vacuum.html"@))
        .insert("DISABLE_PAGE_SKIPPING"@, keyword_v("DISABLE_PAGE_SKIPPING"@, "VACUUM (DISABLE_PAGE_SKIPPING) -- visit every page even when the visibility map says skip."@, "VACUUM (DISABLE_PAGE_SKIPPING) t;"@, "sql-vacuum.html"@))
        .insert("NO SCROLL"@, keyword_v("NO SCROLL"@, "DECLARE <c> NO SCROLL CURSOR ... -- forbid backwards / random fetches; planner can pick streaming-only plans."@, "DECLARE c NO SCROLL CURSOR FOR SELECT id FROM big;"@, "sql-declare.html"@))
        .insert("WITHOUT HOLD"@, keyword_v("WITHOUT HOLD"@, "DECLARE <c> CURSOR WITHOUT HOLD -- closes at COMMIT (default)."@, "DECLARE c CURSOR WITHOUT HOLD FOR SELECT 1;"@, "sql-declare.html"@))
        .insert("BINARY CURSOR"@, keyword_v("BINARY CURSOR"@, "DECLARE <c> BINARY CURSOR ... -- returns rows in PG binary wire format; faster for protocol clients that decode it."@, "DECLARE c BINARY CURSOR FOR SELECT 1;"@, "sql-declare.html"@))
        .insert("DECLARE BINARY"@, keyword_v("DECLARE BINARY"@, "Prefix used in `DECLARE <c> BINARY CURSOR FOR ...`."@, "DECLARE c BINARY CURSOR FOR SELECT id FROM t;"@, "sql-declare.html"@))
        .insert("FETCH FORWARD"@, keyword_v("FETCH FORWARD"@, "FETCH FORWARD [<n> | ALL] FROM <c> -- read forwards (default direction)."@, "FETCH FORWARD 100 FROM c;"@, "sql-fetch.html"@))
        .insert("FETCH BACKWARD"@, keyword_v("FETCH BACKWARD"@, "FETCH BACKWARD [<n> | ALL] FROM <c> -- read backwards; requires a SCROLL cursor."@, "FETCH BACKWARD 50 FROM c;"@, "sql-fetch.html"@))
        .insert("FETCH ABSOLUTE"@, keyword_v("FETCH ABSOLUTE"@, "FETCH ABSOLUTE <n> FROM <c> -- position the cursor at row <n> (1-based; negative counts from end). SCROLL only."@, "FETCH ABSOLUTE 1 FROM c;"@, "sql-fetch.html"@))
        .insert("FETCH RELATIVE"@, keyword_v("FETCH RELATIVE"@, "FETCH RELATIVE <n> FROM <c> -- move <n> rows from current. SCROLL only."@, "FETCH RELATIVE -3 FROM c;"@, "sql-fetch.html"@))
        .insert("FETCH FIRST FROM"@, keyword_v("FETCH FIRST FROM"@, "FETCH FIRST FROM <c> -- position at the first row and fetch it."@, "FETCH FIRST FROM c;"@, "sql-fetch.html"@))
        .insert("FETCH LAST FROM"@, keyword_v("FETCH LAST FROM"@, "FETCH LAST FROM <c> -- position at the last row and fetch it."@, "FETCH LAST FROM c;"@, "sql-fetch.html"@))
        .insert("FETCH PRIOR"@, keyword_v("FETCH PRIOR"@, "FETCH PRIOR FROM <c> -- move one row back and return it."@, "FETCH PRIOR FROM c;"@, "sql-fetch.html"@))
        .insert("FETCH ALL"@, keyword_v("FETCH ALL"@, "FETCH ALL FROM <c> -- return every remaining row."@, "FETCH ALL FROM c;"@, "sql-fetch.html"@))
        .insert("MOVE FORWARD"@, keyword_v("MOVE FORWARD"@, "MOVE FORWARD [<n> | ALL] IN <c> -- advance without returning rows."@, "MOVE FORWARD 100 IN c;"@, "sql-move.html"@))
        .insert("MOVE BACKWARD"@, keyword_v("MOVE BACKWARD"@, "MOVE BACKWARD [<n> | ALL] IN <c> -- step back without returning rows. SCROLL only."@, "MOVE BACKWARD 10 IN c;"@, "sql-move.html"@))
        .insert("MOVE ABSOLUTE"@, keyword_v("MOVE ABSOLUTE"@, "MOVE ABSOLUTE <n> IN <c> -- seek to row <n> without returning."@, "MOVE ABSOLUTE 0 IN c;"@, "sql-move.html"@))
        .insert("MOVE RELATIVE"@, keyword_v("MOVE RELATIVE"@, "MOVE RELATIVE <n> IN <c> -- seek <n> rows from current without returning."@, "MOVE RELATIVE 5 IN c;"@, "sql-move.html"@))
        .insert("MOVE FIRST"@, keyword_v("MOVE FIRST"@, "MOVE FIRST IN <c> -- seek to the first row."@, "MOVE FIRST IN c;"@, "sql-move.html"@))
        .insert("MOVE LAST"@, keyword_v("MOVE LAST"@, "MOVE LAST IN <c> -- seek past the last row."@, "MOVE LAST IN c;"@, "sql-move.html"@))
        .insert("MOVE NEXT"@, keyword_v("MOVE NEXT"@, "MOVE NEXT IN <c> -- step forward one row."@, "MOVE NEXT IN c;"@, "sql-move.html"@))
        .insert("MOVE PRIOR"@, keyword_v("MOVE PRIOR"@, "MOVE PRIOR IN <c> -- step backward one row."@, "MOVE PRIOR IN c;"@, "sql-move.html"@))
        .insert("MOVE ALL"@, keyword_v("MOVE ALL"@, "MOVE ALL IN <c> -- seek to one past the last row (equivalent to MOVE FORWARD ALL)."@, "MOVE ALL IN c;"@, "sql-move.html"@))
        .insert("COPY FROM STDIN"@, keyword_v("COPY FROM STDIN"@, "COPY <t> [(cols)] FROM STDIN [WITH (...)] -- stream client data into the table."@, "COPY users (id, email) FROM STDIN WITH (FORMAT csv, HEADER);"@, "sql-copy.html"@))
        .insert("COPY TO STDOUT"@, keyword_v("COPY TO STDOUT"@, "COPY <t-or-query> TO STDOUT [WITH (...)] -- stream rows out to the client."@, "COPY (SELECT id FROM users) TO STDOUT;"@, "sql-copy.html"@))
        .insert("COPY FROM PROGRAM"@, keyword_v("COPY FROM PROGRAM"@, "COPY <t> FROM PROGRAM '<shell>' [WITH (...)] -- pipe a shell command's stdout. Super-user only (security risk)."@, "COPY users FROM PROGRAM 'gunzip -c /tmp/users.csv.gz' WITH (FORMAT csv);"@, "sql-copy.html"@))
        .insert("COPY TO PROGRAM"@, keyword_v("COPY TO PROGRAM"@, "COPY <t-or-query> TO PROGRAM '<shell>' [WITH (...)] -- pipe rows to a shell command. Super-user only."@, "COPY (SELECT id FROM users) TO PROGRAM 'gzip > /tmp/ids.gz';"@, "sql-copy.html"@))
        .insert("\\d"@, keyword_v("\\d"@, "psql meta-command (not server SQL): describe an object. Variants: \\dt (tables), \\di (indexes), \\dv (views), \\df (functions), \\dn (schemas), \\du (roles), \\l (databases), \\dx (extensions)."@, "\\dt+ public.*"@, "app-psql.html"@))
        .insert("\\copy"@, keyword_v("\\copy"@, "psql meta-command (client-side COPY) -- does NOT need superuser; reads/writes a file local to the psql process."@, "\\copy users (id, email) FROM 'users.csv' WITH (FORMAT csv, HEADER);"@, "app-psql.html"@))
        .insert("FOREACH"@, keyword_v("FOREACH"@, "PL/pgSQL FOREACH <var> [SLICE <n>] IN ARRAY <arr> LOOP ... END LOOP -- iterate over array elements (or sub-slices)."@, "FOREACH x IN ARRAY ids LOOP RAISE NOTICE '%', x; END LOOP;"@, "plpgsql-control-structures.html#PLPGSQL-FOREACH-ARRAY"@))
        .insert("EXIT WHEN"@, keyword_v("EXIT WHEN"@, "PL/pgSQL EXIT WHEN <pred> -- break out of the innermost loop when pred is true."@, "EXIT WHEN cnt > 100;"@, "plpgsql-control-structures.html#PLPGSQL-CONTROL-STRUCTURES-LOOPS"@))
        .insert("EXIT LOOP"@, keyword_v("EXIT LOOP"@, "PL/pgSQL EXIT [<label>] -- break out of a labelled or innermost loop."@, "<<outer>> LOOP EXIT outer; END LOOP outer;"@, "plpgsql-control-structures.html#PLPGSQL-CONTROL-STRUCTURES-LOOPS"@))
        .insert("CONTINUE WHEN"@, keyword_v("CONTINUE WHEN"@, "PL/pgSQL CONTINUE WHEN <pred> -- skip to next iteration when pred is true."@, "CONTINUE WHEN id IS NULL;"@, "plpgsql-control-structures.html#PLPGSQL-CONTROL-STRUCTURES-LOOPS"@))
        .insert("CONTINUE LOOP"@, keyword_v("CONTINUE LOOP"@, "PL/pgSQL CONTINUE [<label>] -- jump to next iteration of a labelled or innermost loop."@, "CONTINUE outer;"@, "plpgsql-control-structures.html#PLPGSQL-CONTROL-STRUCTURES-LOOPS"@))
        .insert("ASSERT"@, keyword_v("ASSERT"@, "PL/pgSQL ASSERT <pred> [, <msg>] -- raise an assertion-failure exception if pred is false. Honoured only when plpgsql.check_asserts = on."@, "ASSERT cnt >= 0, 'cnt must be non-negative';"@, "plpgsql-errors-and-messages.html#PLPGSQL-STATEMENTS-ASSERT"@))
        .insert("GET DIAGNOSTICS"@, keyword_v("GET DIAGNOSTICS"@, "PL/pgSQL GET [CURRENT] DIAGNOSTICS <var> = ROW_COUNT, <var> = PG_CONTEXT, ... -- pull stats about the last command."@, "GET DIAGNOSTICS n = ROW_COUNT;"@, "plpgsql-statements.html#PLPGSQL-STATEMENTS-DIAGNOSTICS"@))
        .insert("GET STACKED DIAGNOSTICS"@, keyword_v("GET STACKED DIAGNOSTICS"@, "PL/pgSQL GET STACKED DIAGNOSTICS <var> = MESSAGE_TEXT, ... -- read fields from the active exception (only inside an EXCEPTION block)."@, "GET STACKED DIAGNOSTICS msg = MESSAGE_TEXT;"@, "plpgsql-control-structures.html#PLPGSQL-EXCEPTION-DIAGNOSTICS"@))
        .insert("EXCEPTION WHEN"@, keyword_v("EXCEPTION WHEN"@, "PL/pgSQL block EXCEPTION WHEN <condition> [OR <c>...] THEN ... -- catch matching SQLSTATE / named errors."@, "EXCEPTION WHEN unique_violation THEN RAISE NOTICE 'dup'; END;"@, "plpgsql-control-structures.html#PLPGSQL-ERROR-TRAPPING"@))
        .insert("WHEN OTHERS"@, keyword_v("WHEN OTHERS"@, "PL/pgSQL exception handler that matches any non-already-matched error. Use sparingly -- masks programmer errors."@, "EXCEPTION WHEN OTHERS THEN RAISE; END;"@, "plpgsql-control-structures.html#PLPGSQL-ERROR-TRAPPING"@))
        .insert("RAISE USING"@, keyword_v("RAISE USING"@, "PL/pgSQL RAISE [level] '<msg>' USING ERRCODE = '<state>', DETAIL = '...', HINT = '...', ... -- attach structured exception fields."@, "RAISE EXCEPTION 'bad row %', id USING ERRCODE = 'P0001', HINT = 'reload config';"@, "plpgsql-errors-and-messages.html"@))
        .insert("PERFORM"@, keyword_v("PERFORM"@, "PL/pgSQL PERFORM <query> -- run a query and discard its result; required when a SELECT is used for side effects only."@, "PERFORM pg_notify('chan', 'hi');"@, "plpgsql-statements.html#PLPGSQL-STATEMENTS-SQL-NORESULT"@))
        .insert("SAVEPOINT"@, keyword_v("SAVEPOINT"@, "SAVEPOINT <name> -- mark a sub-transaction point; later commands can be undone with ROLLBACK TO SAVEPOINT <name>."@, "SAVEPOINT before_risk; -- ... -- ROLLBACK TO SAVEPOINT before_risk;"@, "sql-savepoint.html"@))
        .insert("PREPARE TRANSACTION"@, keyword_v("PREPARE TRANSACTION"@, "PREPARE TRANSACTION '<gid>' -- 2PC step 1: persist the transaction so it can be committed/rolled back by gid later. Requires max_prepared_transactions > 0."@, "PREPARE TRANSACTION 'tx-42';"@, "sql-prepare-transaction.html"@))
        .insert("COMMIT PREPARED"@, keyword_v("COMMIT PREPARED"@, "COMMIT PREPARED '<gid>' -- 2PC step 2: commit a previously PREPARE'd transaction."@, "COMMIT PREPARED 'tx-42';"@, "sql-commit-prepared.html"@))
        .insert("ROLLBACK PREPARED"@, keyword_v("ROLLBACK PREPARED"@, "ROLLBACK PREPARED '<gid>' -- 2PC abort: discard a previously PREPARE'd transaction without committing."@, "ROLLBACK PREPARED 'tx-42';"@, "sql-rollback-prepared.html"@))
        .insert("LOOP"@, keyword_v("LOOP"@, "PL/pgSQL LOOP ... END LOOP -- unconditional loop; exit with EXIT [WHEN <pred>]."@, "LOOP EXIT WHEN cnt = 0; cnt := cnt - 1; END LOOP;"@, "plpgsql-control-structures.html#PLPGSQL-CONTROL-STRUCTURES-LOOPS"@))
        .insert("WHILE LOOP"@, keyword_v("WHILE LOOP"@, "PL/pgSQL WHILE <pred> LOOP ... END LOOP."@, "WHILE cnt > 0 LOOP cnt := cnt - 1; END LOOP;"@, "plpgsql-control-structures.html#PLPGSQL-CONTROL-STRUCTURES-LOOPS"@))
        .insert("FOR IN REVERSE"@, keyword_v("FOR IN REVERSE"@, "PL/pgSQL FOR <var> IN REVERSE <lo>..<hi> LOOP ... END LOOP -- iterate in descending order."@, "FOR i IN REVERSE 10..1 LOOP ... END LOOP;"@, "plpgsql-control-structures.html#PLPGSQL-INTEGER-FOR"@))
        .insert("FOR IN"@, keyword_v("FOR IN"@, "PL/pgSQL FOR <var> IN <query> LOOP ... END LOOP -- iterate over a query result; <var> is a record / row variable."@, "FOR r IN SELECT * FROM t LOOP RAISE NOTICE '%', r.id; END LOOP;"@, "plpgsql-control-structures.html#PLPGSQL-RECORDS-ITERATING"@))
        .insert("unique_violation"@, keyword_v("unique_violation"@, "SQLSTATE 23505 -- raised when a UNIQUE or PRIMARY KEY constraint is violated. Catch in PL/pgSQL: `EXCEPTION WHEN unique_violation THEN ...`."@, "EXCEPTION WHEN unique_violation THEN ..."@, "errcodes-appendix.html"@))
        .insert("foreign_key_violation"@, keyword_v("foreign_key_violation"@, "SQLSTATE 23503 -- raised when a FOREIGN KEY constraint is violated (parent row missing / dependent row exists)."@, "EXCEPTION WHEN foreign_key_violation THEN ..."@, "errcodes-appendix.html"@))
        .insert("not_null_violation"@, keyword_v("not_null_violation"@, "SQLSTATE 23502 -- raised when a NOT NULL column gets NULL."@, "EXCEPTION WHEN not_null_violation THEN ..."@, "errcodes-appendix.html"@))
}

spec fn keyword_part_11(m: Map<Seq<char>, EntryV>) -> Map<Seq<char>, EntryV> {
    m
        .insert("check_violation"@, keyword_v("check_violation"@, "SQLSTATE 23514 -- raised when a CHECK constraint fails."@, "EXCEPTION WHEN check_violation THEN ..."@, "errcodes-appendix.html"@))
        .insert("exclusion_violation"@, keyword_v("exclusion_violation"@, "SQLSTATE 23P01 -- raised when an EXCLUDE constraint matches."@, "EXCEPTION WHEN exclusion_violation THEN ..."@, "errcodes-appendix.html"@))
        .insert("restrict_violation"@, keyword_v("restrict_violation"@, "SQLSTATE 23001 -- raised by RESTRICT actions in foreign-key delete/update."@, "EXCEPTION WHEN restrict_violation THEN ..."@, "errcodes-appendix.html"@))
        .insert("integrity_constraint_violation"@, keyword_v("integrity_constraint_violation"@, "SQLSTATE 23000 -- generic parent for all 23xxx integrity violations; catches every named child."@, "EXCEPTION WHEN integrity_constraint_violation THEN ..."@, "errcodes-appendix.html"@))
        .insert("deadlock_detected"@, keyword_v("deadlock_detected"@, "SQLSTATE 40P01 -- raised when the deadlock detector aborts this txn."@, "EXCEPTION WHEN deadlock_detected THEN ..."@, "errcodes-appendix.html"@))
        .insert("serialization_failure"@, keyword_v("serialization_failure"@, "SQLSTATE 40001 -- SSI/REPEATABLE READ conflict. Always retry from the application."@, "EXCEPTION WHEN serialization_failure THEN ..."@, "errcodes-appendix.html"@))
        .insert("lock_not_available"@, keyword_v("lock_not_available"@, "SQLSTATE 55P03 -- raised when NOWAIT couldn't acquire a lock."@, "EXCEPTION WHEN lock_not_available THEN ..."@, "errcodes-appendix.html"@))
        .insert("no_data_found"@, keyword_v("no_data_found"@, "SQLSTATE P0002 -- raised by SELECT INTO STRICT when no row matches."@, "EXCEPTION WHEN no_data_found THEN ..."@, "errcodes-appendix.html"@))
        .insert("too_many_rows"@, keyword_v("too_many_rows"@, "SQLSTATE P0003 -- raised by SELECT INTO STRICT when more than one row matches."@, "EXCEPTION WHEN too_many_rows THEN ..."@, "errcodes-appendix.html"@))
        .insert("query_canceled"@, keyword_v("query_canceled"@, "SQLSTATE 57014 -- raised when the query is cancelled (statement_timeout, pg_cancel_backend, client interrupt)."@, "EXCEPTION WHEN query_canceled THEN ..."@, "errcodes-appendix.html"@))
        .insert("admin_shutdown"@, keyword_v("admin_shutdown"@, "SQLSTATE 57P01 -- raised when the cluster shuts down while the session is connected."@, "EXCEPTION WHEN admin_shutdown THEN ..."@, "errcodes-appendix.html"@))
        .insert("idle_in_transaction_session_timeout"@, keyword_v("idle_in_transaction_session_timeout"@, "SQLSTATE 25P03 -- raised when idle_in_transaction_session_timeout fires."@, "EXCEPTION WHEN idle_in_transaction_session_timeout THEN ..."@, "errcodes-appendix.html"@))
        .insert("invalid_text_representation"@, keyword_v("invalid_text_representation"@, "SQLSTATE 22P02 -- value couldn't be parsed for its target type (e.g. 'abc' for int)."@, "EXCEPTION WHEN invalid_text_representation THEN ..."@, "errcodes-appendix.html"@))
        .insert("division_by_zero"@, keyword_v("division_by_zero"@, "SQLSTATE 22012 -- arithmetic division by zero."@, "EXCEPTION WHEN division_by_zero THEN ..."@, "errcodes-appendix.html"@))
        .insert("numeric_value_out_of_range"@, keyword_v("numeric_value_out_of_range"@, "SQLSTATE 22003 -- value won't fit the target numeric type (overflow)."@, "EXCEPTION WHEN numeric_value_out_of_range THEN ..."@, "errcodes-appendix.html"@))
        .insert("string_data_right_truncation"@, keyword_v("string_data_right_truncation"@, "SQLSTATE 22001 -- VARCHAR(n) / CHAR(n) overflow."@, "EXCEPTION WHEN string_data_right_truncation THEN ..."@, "errcodes-appendix.html"@))
        .insert("invalid_authorization_specification"@, keyword_v("invalid_authorization_specification"@, "SQLSTATE 28000 -- generic auth failure (wrong role/password)."@, "EXCEPTION WHEN invalid_authorization_specification THEN ..."@, "errcodes-appendix.html"@))
        .insert("insufficient_privilege"@, keyword_v("insufficient_privilege"@, "SQLSTATE 42501 -- the role lacks the required privilege."@, "EXCEPTION WHEN insufficient_privilege THEN ..."@, "errcodes-appendix.html"@))
        .insert("undefined_table"@, keyword_v("undefined_table"@, "SQLSTATE 42P01 -- table or view does not exist."@, "EXCEPTION WHEN undefined_table THEN ..."@, "errcodes-appendix.html"@))
        .insert("undefined_column"@, keyword_v("undefined_column"@, "SQLSTATE 42703 -- referenced column does not exist."@, "EXCEPTION WHEN undefined_column THEN ..."@, "errcodes-appendix.html"@))
        .insert("undefined_function"@, keyword_v("undefined_function"@, "SQLSTATE 42883 -- function with the given signature does not exist."@, "EXCEPTION WHEN undefined_function THEN ..."@, "errcodes-appendix.html"@))
        .insert("duplicate_table"@, keyword_v("duplicate_table"@, "SQLSTATE 42P07 -- CREATE TABLE / SELECT INTO target already exists."@, "EXCEPTION WHEN duplicate_table THEN ..."@, "errcodes-appendix.html"@))
        .insert("connection_failure"@, keyword_v("connection_failure"@, "SQLSTATE 08006 -- generic connection-related error."@, "EXCEPTION WHEN connection_failure THEN ..."@, "errcodes-appendix.html"@))
        .insert("disk_full"@, keyword_v("disk_full"@, "SQLSTATE 53100 -- out of disk space."@, "EXCEPTION WHEN disk_full THEN ..."@, "errcodes-appendix.html"@))
        .insert("data_exception"@, keyword_v("data_exception"@, "SQLSTATE 22000 -- generic parent for 22xxx data-format errors."@, "EXCEPTION WHEN data_exception THEN ..."@, "errcodes-appendix.html"@))
        .insert("syntax_error"@, keyword_v("syntax_error"@, "SQLSTATE 42601 -- generic SQL syntax error (rarely caught -- usually the goal is to never see it)."@, "EXCEPTION WHEN syntax_error THEN ..."@, "errcodes-appendix.html"@))
        .insert("plpgsql_error"@, keyword_v("plpgsql_error"@, "SQLSTATE P0001 -- raised by `RAISE` with no explicit ERRCODE; the default class for user RAISE."@, "EXCEPTION WHEN plpgsql_error THEN ..."@, "errcodes-appendix.html"@))
        .insert("raise_exception"@, keyword_v("raise_exception"@, "SQLSTATE P0001 alias used by some clients -- same as plpgsql_error class."@, "EXCEPTION WHEN raise_exception THEN ..."@, "errcodes-appendix.html"@))
        .insert("SQLSTATE"@, keyword_v("SQLSTATE"@, "PL/pgSQL EXCEPTION WHEN SQLSTATE '<5-char>' THEN ... -- match a raw SQLSTATE instead of a named condition."@, "EXCEPTION WHEN SQLSTATE '40001' THEN PERFORM pg_sleep(0.1);"@, "plpgsql-control-structures.html#PLPGSQL-ERROR-TRAPPING"@))
        .insert("NULLS NOT DISTINCT"@, keyword_v("NULLS NOT DISTINCT"@, "NULLS NOT DISTINCT -- UNIQUE / index option treating NULLs as equal (PG15+)."@, "CREATE UNIQUE INDEX ... NULLS NOT DISTINCT"@, "sql-createindex.html"@))
        .insert("DEFAULTS"@, keyword_v("DEFAULTS"@, "INCLUDING DEFAULTS / EXCLUDING DEFAULTS -- LIKE table option."@, "CREATE TABLE c (LIKE p INCLUDING DEFAULTS);"@, "sql-createtable.html"@))
        .insert("INCLUDING"@, keyword_v("INCLUDING"@, "INCLUDING { ALL | DEFAULTS | CONSTRAINTS | INDEXES | STORAGE | COMMENTS | COMPRESSION | STATISTICS | IDENTITY | GENERATED } -- LIKE inheritance."@, "LIKE parent INCLUDING ALL"@, "sql-createtable.html"@))
        .insert("EXCLUDING"@, keyword_v("EXCLUDING"@, "EXCLUDING { DEFAULTS | CONSTRAINTS | INDEXES | STORAGE | COMMENTS | COMPRESSION | STATISTICS | IDENTITY | GENERATED } -- LIKE inheritance."@, "LIKE parent EXCLUDING INDEXES"@, "sql-createtable.html"@))
        .insert("ON_ERROR"@, keyword_v("ON_ERROR"@, "COPY (... ON_ERROR { STOP | IGNORE }) -- per-row error handling (PG17+)."@, "COPY t FROM 'p.csv' (ON_ERROR IGNORE);"@, "sql-copy.html"@))
        .insert("LOG_VERBOSITY"@, keyword_v("LOG_VERBOSITY"@, "COPY (... LOG_VERBOSITY { DEFAULT | VERBOSE }) -- error log detail (PG17+)."@, "COPY t FROM 'p.csv' (LOG_VERBOSITY VERBOSE);"@, "sql-copy.html"@))
        .insert("BUFFER_USAGE_LIMIT"@, keyword_v("BUFFER_USAGE_LIMIT"@, "VACUUM/ANALYZE BUFFER_USAGE_LIMIT '<size>' (PG16+)."@, "VACUUM (BUFFER_USAGE_LIMIT '64 MB') t;"@, "sql-vacuum.html"@))
        .insert("PROCESS_TOAST"@, keyword_v("PROCESS_TOAST"@, "VACUUM PROCESS_TOAST {true|false} (PG14+)."@, "VACUUM (PROCESS_TOAST false) t;"@, "sql-vacuum.html"@))
        .insert("PROCESS_MAIN"@, keyword_v("PROCESS_MAIN"@, "VACUUM PROCESS_MAIN {true|false} (PG16+)."@, "VACUUM (PROCESS_MAIN false) t;"@, "sql-vacuum.html"@))
        .insert("DISTINCT FROM"@, keyword_v("DISTINCT FROM"@, "DISTINCT FROM <expr> -- NULL-aware inequality predicate."@, "WHERE a IS DISTINCT FROM b"@, "functions-comparison.html"@))
        .insert("IS DISTINCT FROM"@, keyword_v("IS DISTINCT FROM"@, "<a> IS DISTINCT FROM <b> -- true when a != b, treating NULL as a value."@, "WHERE old.x IS DISTINCT FROM new.x"@, "functions-comparison.html"@))
        .insert("IS NOT DISTINCT FROM"@, keyword_v("IS NOT DISTINCT FROM"@, "<a> IS NOT DISTINCT FROM <b> -- NULL-aware equality."@, "WHERE OLD.x IS NOT DISTINCT FROM NEW.x"@, "functions-comparison.html"@))
        .insert("GENERATED ALWAYS"@, keyword_v("GENERATED ALWAYS"@, "GENERATED ALWAYS AS (<expr>) STORED -- computed column."@, "amount_cents int GENERATED ALWAYS AS (amount * 100) STORED"@, "ddl-generated-columns.html"@))
        .insert("GENERATED BY DEFAULT"@, keyword_v("GENERATED BY DEFAULT"@, "GENERATED BY DEFAULT AS IDENTITY -- identity column, user value allowed."@, "id int GENERATED BY DEFAULT AS IDENTITY PRIMARY KEY"@, "sql-createtable.html"@))
        .insert("OVERRIDING SYSTEM VALUE"@, keyword_v("OVERRIDING SYSTEM VALUE"@, "INSERT ... OVERRIDING SYSTEM VALUE -- replace identity column value."@, "INSERT INTO t OVERRIDING SYSTEM VALUE VALUES (...);"@, "sql-insert.html"@))
        .insert("OVERRIDING USER VALUE"@, keyword_v("OVERRIDING USER VALUE"@, "INSERT ... OVERRIDING USER VALUE -- accept user value for identity."@, "INSERT INTO t OVERRIDING USER VALUE VALUES (...);"@, "sql-insert.html"@))
        .insert("ON UPDATE"@, keyword_v("ON UPDATE"@, "FK ON UPDATE { NO ACTION | CASCADE | SET NULL | SET DEFAULT | RESTRICT }."@, "REFERENCES users(id) ON UPDATE CASCADE"@, "sql-createtable.html"@))
        .insert("ON DELETE"@, keyword_v("ON DELETE"@, "FK ON DELETE { NO ACTION | CASCADE | SET NULL | SET DEFAULT | RESTRICT }."@, "REFERENCES users(id) ON DELETE SET NULL"@, "sql-createtable.html"@))
        .insert("FORCE NOT NULL"@, keyword_v("FORCE NOT NULL"@, "COPY ... FORCE NOT NULL (cols) -- treat empty as text, not NULL."@, "COPY t FROM '...' CSV FORCE NOT NULL (col1, col2);"@, "sql-copy.html"@))
        .insert("FORCE QUOTE"@, keyword_v("FORCE QUOTE"@, "COPY ... FORCE QUOTE { * | (cols) } -- always quote these columns."@, "COPY t TO '...' CSV FORCE QUOTE *;"@, "sql-copy.html"@))
        .insert("WITHIN GROUP"@, keyword_v("WITHIN GROUP"@, "WITHIN GROUP (ORDER BY <key>) -- ordered-set aggregates (e.g. percentile_cont)."@, "SELECT percentile_cont(0.5) WITHIN GROUP (ORDER BY salary) FROM emp;"@, "functions-aggregate.html#FUNCTIONS-ORDEREDSET-TABLE"@))
        .insert("DROP DEFAULT"@, keyword_v("DROP DEFAULT"@, "ALTER COLUMN ... DROP DEFAULT -- remove a column's default expression."@, "ALTER TABLE t ALTER COLUMN c DROP DEFAULT;"@, "sql-altertable.html"@))
        .insert("ADD COLUMN"@, keyword_v("ADD COLUMN"@, "ALTER TABLE ... ADD COLUMN <name> <type> [constraints]."@, "ALTER TABLE t ADD COLUMN email text NOT NULL;"@, "sql-altertable.html"@))
        .insert("DROP COLUMN"@, keyword_v("DROP COLUMN"@, "ALTER TABLE ... DROP COLUMN <name> [CASCADE|RESTRICT]."@, "ALTER TABLE t DROP COLUMN deleted_at;"@, "sql-altertable.html"@))
        .insert("RENAME COLUMN"@, keyword_v("RENAME COLUMN"@, "ALTER TABLE ... RENAME COLUMN <old> TO <new>."@, "ALTER TABLE t RENAME COLUMN c TO created_at;"@, "sql-altertable.html"@))
        .insert("RENAME TO"@, keyword_v("RENAME TO"@, "ALTER <object> ... RENAME TO <new_name> -- works on tables, indexes, sequences, views, schemas, roles, etc."@, "ALTER TABLE users RENAME TO accounts;"@, "sql-altertable.html"@))
        .insert("ALTER COLUMN"@, keyword_v("ALTER COLUMN"@, "ALTER TABLE ... ALTER COLUMN <name> { TYPE ... | SET DEFAULT ... | DROP DEFAULT | SET NOT NULL | DROP NOT NULL | SET STATISTICS ... | SET STORAGE ... | RESET (...) }."@, "ALTER TABLE t ALTER COLUMN c TYPE text USING c::text;"@, "sql-altertable.html"@))
        .insert("SET TABLESPACE"@, keyword_v("SET TABLESPACE"@, "ALTER TABLE/INDEX ... SET TABLESPACE <name> -- physical move."@, "ALTER TABLE big SET TABLESPACE archive;"@, "sql-altertable.html"@))
        .insert("FOR EACH ROW"@, keyword_v("FOR EACH ROW"@, "CREATE TRIGGER ... FOR EACH ROW -- per-row firing."@, "CREATE TRIGGER trg BEFORE UPDATE ON t FOR EACH ROW EXECUTE FUNCTION upd();"@, "sql-createtrigger.html"@))
        .insert("FOR EACH STATEMENT"@, keyword_v("FOR EACH STATEMENT"@, "CREATE TRIGGER ... FOR EACH STATEMENT -- one fire per statement (default)."@, "CREATE TRIGGER trg AFTER TRUNCATE ON t FOR EACH STATEMENT EXECUTE FUNCTION log();"@, "sql-createtrigger.html"@))
        .insert("EXECUTE FUNCTION"@, keyword_v("EXECUTE FUNCTION"@, "TRIGGER body: EXECUTE FUNCTION <fn>(<args>) -- preferred over EXECUTE PROCEDURE (PG11+)."@, "EXECUTE FUNCTION set_updated_at()"@, "sql-createtrigger.html"@))
        .insert("EXECUTE PROCEDURE"@, keyword_v("EXECUTE PROCEDURE"@, "TRIGGER body: EXECUTE PROCEDURE <fn>(<args>) -- legacy spelling."@, "EXECUTE PROCEDURE set_updated_at()"@, "sql-createtrigger.html"@))
        .insert("NULLS DISTINCT"@, keyword_v("NULLS DISTINCT"@, "UNIQUE / INDEX option: NULLS DISTINCT -- multiple NULLs do not conflict (default)."@, "CREATE UNIQUE INDEX ix ON t(col) NULLS DISTINCT;"@, "sql-createindex.html"@))
        .insert("FETCH FIRST"@, keyword_v("FETCH FIRST"@, "SELECT ... FETCH FIRST <n> ROWS { ONLY | WITH TIES } -- SQL-standard limit."@, "SELECT * FROM t ORDER BY id FETCH FIRST 10 ROWS ONLY;"@, "sql-select.html"@))
        .insert("FETCH NEXT"@, keyword_v("FETCH NEXT"@, "Synonym of FETCH FIRST in SELECT."@, "SELECT * FROM t ORDER BY id FETCH NEXT 10 ROWS ONLY;"@, "sql-select.html"@))
        .insert("NO INHERIT"@, keyword_v("NO INHERIT"@, "ALTER TABLE ... NO INHERIT <parent> -- remove inheritance link."@, "ALTER TABLE child NO INHERIT parent;"@, "sql-altertable.html"@))
        .insert("ON COMMIT"@, keyword_v("ON COMMIT"@, "CREATE TEMP TABLE ... ON COMMIT { PRESERVE ROWS | DELETE ROWS | DROP } -- temp-table lifetime."@, "CREATE TEMP TABLE staging (...) ON COMMIT DROP;"@, "sql-createtable.html"@))
        .insert("ROWS FROM"@, keyword_v("ROWS FROM"@, "FROM ROWS FROM (fn1(...), fn2(...)) -- multi-function FROM (PG9.4+)."@, "SELECT * FROM ROWS FROM (unnest(a), unnest(b));"@, "queries-table-expressions.html"@))
        .insert("WITH HOLD"@, keyword_v("WITH HOLD"@, "DECLARE ... CURSOR WITH HOLD -- cursor survives COMMIT."@, "DECLARE c CURSOR WITH HOLD FOR SELECT 1;"@, "sql-declare.html"@))
        .insert("WITH GRANT OPTION"@, keyword_v("WITH GRANT OPTION"@, "GRANT ... TO <role> WITH GRANT OPTION -- grantee can re-grant."@, "GRANT SELECT ON t TO alice WITH GRANT OPTION;"@, "sql-grant.html"@))
        .insert("WITH ADMIN OPTION"@, keyword_v("WITH ADMIN OPTION"@, "GRANT <role> TO <member> WITH ADMIN OPTION -- can add other members."@, "GRANT admins TO alice WITH ADMIN OPTION;"@, "sql-grant.html"@))
        .insert("TIME ZONE"@, keyword_v("TIME ZONE"@, "AT TIME ZONE <name> -- shift between zoned/unzoned timestamp."@, "SELECT ts AT TIME ZONE 'UTC' AT TIME ZONE 'Europe/Berlin';"@, "functions-datetime.html"@))
        .insert("DEFAULT VALUES"@, keyword_v("DEFAULT VALUES"@, "INSERT INTO t DEFAULT VALUES -- every column takes its default."@, "INSERT INTO audit DEFAULT VALUES;"@, "sql-insert.html"@))
        .insert("WITH DATA"@, keyword_v("WITH DATA"@, "CREATE TABLE AS ... WITH DATA / CREATE MATERIALIZED VIEW ... WITH DATA -- populate immediately (default)."@, "CREATE MATERIALIZED VIEW m AS SELECT 1 WITH DATA;"@, "sql-creatematerializedview.html"@))
        .insert("WITH NO DATA"@, keyword_v("WITH NO DATA"@, "CREATE TABLE AS ... WITH NO DATA -- create empty, populate later."@, "CREATE TABLE snap AS SELECT * FROM users WITH NO DATA;"@, "sql-createtableas.html"@))
        .insert("USING INDEX"@, keyword_v("USING INDEX"@, "ADD CONSTRAINT ... USING INDEX <existing_index> -- back a PK/UNIQUE with an existing index."@, "ALTER TABLE t ADD CONSTRAINT pk_t PRIMARY KEY USING INDEX ix_t_id;"@, "sql-altertable.html"@))
}

spec fn keyword_part_12(m: Map<Seq<char>, EntryV>) -> Map<Seq<char>, EntryV> {
    m
        .insert("USING INDEX TABLESPACE"@, keyword_v("USING INDEX TABLESPACE"@, "ADD CONSTRAINT ... USING INDEX TABLESPACE <space> -- create the backing index in a specific tablespace."@, "ADD CONSTRAINT u UNIQUE (col) USING INDEX TABLESPACE archive"@, "sql-createtable.html"@))
        .insert("TABLES IN SCHEMA"@, keyword_v("TABLES IN SCHEMA"@, "FOR / ADD / SET / DROP TABLES IN SCHEMA <name>[, ...] -- whole-schema publication target (PG15+)."@, "CREATE PUBLICATION p FOR TABLES IN SCHEMA public;"@, "sql-createpublication.html"@))
        .insert("ON DELETE CASCADE"@, keyword_v("ON DELETE CASCADE"@, "FK ON DELETE CASCADE -- delete child rows when parent goes."@, "REFERENCES users(id) ON DELETE CASCADE"@, "ddl-constraints.html#DDL-CONSTRAINTS-FK"@))
        .insert("ON DELETE SET NULL"@, keyword_v("ON DELETE SET NULL"@, "FK ON DELETE SET NULL -- null the child's FK column."@, "REFERENCES users(id) ON DELETE SET NULL"@, "ddl-constraints.html#DDL-CONSTRAINTS-FK"@))
        .insert("ON DELETE SET DEFAULT"@, keyword_v("ON DELETE SET DEFAULT"@, "FK ON DELETE SET DEFAULT -- set the FK column to its DEFAULT."@, "REFERENCES users(id) ON DELETE SET DEFAULT"@, "ddl-constraints.html"@))
        .insert("ON DELETE RESTRICT"@, keyword_v("ON DELETE RESTRICT"@, "FK ON DELETE RESTRICT -- refuse the parent delete (immediate)."@, "REFERENCES users(id) ON DELETE RESTRICT"@, "ddl-constraints.html"@))
        .insert("ON DELETE NO ACTION"@, keyword_v("ON DELETE NO ACTION"@, "FK ON DELETE NO ACTION -- refuse at constraint check time (default)."@, "REFERENCES users(id) ON DELETE NO ACTION"@, "ddl-constraints.html"@))
        .insert("ON UPDATE CASCADE"@, keyword_v("ON UPDATE CASCADE"@, "FK ON UPDATE CASCADE -- propagate PK updates to child rows."@, "REFERENCES users(id) ON UPDATE CASCADE"@, "ddl-constraints.html"@))
        .insert("ON UPDATE SET NULL"@, keyword_v("ON UPDATE SET NULL"@, "FK ON UPDATE SET NULL -- null the child column when parent PK changes."@, "REFERENCES users(id) ON UPDATE SET NULL"@, "ddl-constraints.html"@))
        .insert("ON UPDATE RESTRICT"@, keyword_v("ON UPDATE RESTRICT"@, "FK ON UPDATE RESTRICT -- refuse the parent PK update."@, "REFERENCES users(id) ON UPDATE RESTRICT"@, "ddl-constraints.html"@))
        .insert("ON UPDATE NO ACTION"@, keyword_v("ON UPDATE NO ACTION"@, "FK ON UPDATE NO ACTION -- refuse at check time (default)."@, "REFERENCES users(id) ON UPDATE NO ACTION"@, "ddl-constraints.html"@))
        .insert("RAISE EXCEPTION"@, keyword_v("RAISE EXCEPTION"@, "PL/pgSQL RAISE EXCEPTION 'msg' -- abort the transaction."@, "RAISE EXCEPTION 'invalid: %', val;"@, "plpgsql-errors-and-messages.html"@))
        .insert("RAISE NOTICE"@, keyword_v("RAISE NOTICE"@, "PL/pgSQL RAISE NOTICE 'msg' -- log to client at NOTICE level."@, "RAISE NOTICE 'rows: %', cnt;"@, "plpgsql-errors-and-messages.html"@))
        .insert("RAISE WARNING"@, keyword_v("RAISE WARNING"@, "PL/pgSQL RAISE WARNING 'msg' -- log to client at WARNING level."@, "RAISE WARNING 'deprecated path';"@, "plpgsql-errors-and-messages.html"@))
        .insert("RAISE INFO"@, keyword_v("RAISE INFO"@, "PL/pgSQL RAISE INFO 'msg' -- log to client at INFO level."@, "RAISE INFO 'reached step 2';"@, "plpgsql-errors-and-messages.html"@))
        .insert("RAISE LOG"@, keyword_v("RAISE LOG"@, "PL/pgSQL RAISE LOG 'msg' -- write to server log only."@, "RAISE LOG 'background task complete';"@, "plpgsql-errors-and-messages.html"@))
        .insert("RAISE DEBUG"@, keyword_v("RAISE DEBUG"@, "PL/pgSQL RAISE DEBUG 'msg' -- developer-visible diagnostic."@, "RAISE DEBUG 'cache hit % / %', hit, total;"@, "plpgsql-errors-and-messages.html"@))
        .insert("MATCH FULL"@, keyword_v("MATCH FULL"@, "FK MATCH FULL -- all FK columns must be NULL or all not NULL."@, "FOREIGN KEY (a, b) REFERENCES t(a, b) MATCH FULL"@, "sql-createtable.html"@))
        .insert("MATCH PARTIAL"@, keyword_v("MATCH PARTIAL"@, "FK MATCH PARTIAL -- partial NULL allowed but other cols must match."@, "MATCH PARTIAL"@, "sql-createtable.html"@))
        .insert("MATCH SIMPLE"@, keyword_v("MATCH SIMPLE"@, "FK MATCH SIMPLE -- any FK column may be NULL (default)."@, "MATCH SIMPLE"@, "sql-createtable.html"@))
        .insert("REPLICA IDENTITY"@, keyword_v("REPLICA IDENTITY"@, "ALTER TABLE ... REPLICA IDENTITY { DEFAULT | FULL | NOTHING | USING INDEX <ix> }."@, "ALTER TABLE t REPLICA IDENTITY FULL;"@, "sql-altertable.html"@))
        .insert("REPLICA IDENTITY FULL"@, keyword_v("REPLICA IDENTITY FULL"@, "REPLICA IDENTITY FULL -- log every column on UPDATE/DELETE (heavy)."@, "ALTER TABLE t REPLICA IDENTITY FULL;"@, "sql-altertable.html"@))
        .insert("REPLICA IDENTITY NOTHING"@, keyword_v("REPLICA IDENTITY NOTHING"@, "REPLICA IDENTITY NOTHING -- emit no old-tuple info (UPDATE/DELETE then carry only the new tuple)."@, "ALTER TABLE t REPLICA IDENTITY NOTHING;"@, "sql-altertable.html"@))
        .insert("REPLICA IDENTITY USING INDEX"@, keyword_v("REPLICA IDENTITY USING INDEX"@, "REPLICA IDENTITY USING INDEX <ix> -- use a NON-PK unique non-partial index."@, "ALTER TABLE t REPLICA IDENTITY USING INDEX ux_email;"@, "sql-altertable.html"@))
        .insert("REPLICA IDENTITY DEFAULT"@, keyword_v("REPLICA IDENTITY DEFAULT"@, "REPLICA IDENTITY DEFAULT -- PK-based identity (default)."@, "ALTER TABLE t REPLICA IDENTITY DEFAULT;"@, "sql-altertable.html"@))
        .insert("CURRENT ROW"@, keyword_v("CURRENT ROW"@, "WINDOW frame bound: CURRENT ROW -- include the current row only."@, "RANGE BETWEEN UNBOUNDED PRECEDING AND CURRENT ROW"@, "sql-expressions.html#SYNTAX-WINDOW-FUNCTIONS"@))
        .insert("UNBOUNDED PRECEDING"@, keyword_v("UNBOUNDED PRECEDING"@, "WINDOW frame bound: UNBOUNDED PRECEDING -- start of the partition."@, "ROWS BETWEEN UNBOUNDED PRECEDING AND CURRENT ROW"@, "sql-expressions.html#SYNTAX-WINDOW-FUNCTIONS"@))
        .insert("UNBOUNDED FOLLOWING"@, keyword_v("UNBOUNDED FOLLOWING"@, "WINDOW frame bound: UNBOUNDED FOLLOWING -- end of the partition."@, "ROWS BETWEEN CURRENT ROW AND UNBOUNDED FOLLOWING"@, "sql-expressions.html#SYNTAX-WINDOW-FUNCTIONS"@))
        .insert("EXCLUDE CURRENT ROW"@, keyword_v("EXCLUDE CURRENT ROW"@, "WINDOW frame exclusion: omit the current row from the frame."@, "EXCLUDE CURRENT ROW"@, "sql-expressions.html#SYNTAX-WINDOW-FUNCTIONS"@))
        .insert("EXCLUDE GROUP"@, keyword_v("EXCLUDE GROUP"@, "WINDOW frame exclusion: omit the current row + peers."@, "EXCLUDE GROUP"@, "sql-expressions.html#SYNTAX-WINDOW-FUNCTIONS"@))
        .insert("EXCLUDE TIES"@, keyword_v("EXCLUDE TIES"@, "WINDOW frame exclusion: omit the peers (keep current row)."@, "EXCLUDE TIES"@, "sql-expressions.html#SYNTAX-WINDOW-FUNCTIONS"@))
        .insert("EXCLUDE NO OTHERS"@, keyword_v("EXCLUDE NO OTHERS"@, "WINDOW frame exclusion: keep everything (default)."@, "EXCLUDE NO OTHERS"@, "sql-expressions.html#SYNTAX-WINDOW-FUNCTIONS"@))
        .insert("RANGE BETWEEN"@, keyword_v("RANGE BETWEEN"@, "RANGE BETWEEN <a> AND <b> -- value-based frame."@, "RANGE BETWEEN 1 PRECEDING AND CURRENT ROW"@, "sql-expressions.html#SYNTAX-WINDOW-FUNCTIONS"@))
        .insert("ROWS BETWEEN"@, keyword_v("ROWS BETWEEN"@, "ROWS BETWEEN <a> AND <b> -- physical-offset frame."@, "ROWS BETWEEN 3 PRECEDING AND CURRENT ROW"@, "sql-expressions.html#SYNTAX-WINDOW-FUNCTIONS"@))
        .insert("GROUPS BETWEEN"@, keyword_v("GROUPS BETWEEN"@, "GROUPS BETWEEN <a> AND <b> -- peer-group frame."@, "GROUPS BETWEEN 1 PRECEDING AND CURRENT ROW"@, "sql-expressions.html#SYNTAX-WINDOW-FUNCTIONS"@))
        .insert("SELECT INTO"@, keyword_v("SELECT INTO"@, "PL/pgSQL `SELECT <cols> INTO <vars> FROM ...`."@, "SELECT id INTO v_id FROM t WHERE ...;"@, "plpgsql-statements.html"@))
        .insert("INSTEAD OF"@, keyword_v("INSTEAD OF"@, "CREATE TRIGGER ... INSTEAD OF <event> ON <view> -- DML on a view."@, "CREATE TRIGGER trg INSTEAD OF INSERT ON v FOR EACH ROW EXECUTE FUNCTION ins();"@, "sql-createtrigger.html"@))
        .insert("BEFORE UPDATE"@, keyword_v("BEFORE UPDATE"@, "CREATE TRIGGER ... BEFORE UPDATE ON <table>."@, "CREATE TRIGGER trg BEFORE UPDATE ON users FOR EACH ROW EXECUTE FUNCTION upd();"@, "sql-createtrigger.html"@))
        .insert("AFTER INSERT"@, keyword_v("AFTER INSERT"@, "CREATE TRIGGER ... AFTER INSERT ON <table>."@, "CREATE TRIGGER trg AFTER INSERT ON users FOR EACH ROW EXECUTE FUNCTION post();"@, "sql-createtrigger.html"@))
        .insert("AFTER UPDATE"@, keyword_v("AFTER UPDATE"@, "CREATE TRIGGER ... AFTER UPDATE ON <table>."@, "CREATE TRIGGER trg AFTER UPDATE ON users FOR EACH ROW EXECUTE FUNCTION post();"@, "sql-createtrigger.html"@))
        .insert("AFTER DELETE"@, keyword_v("AFTER DELETE"@, "CREATE TRIGGER ... AFTER DELETE ON <table>."@, "CREATE TRIGGER trg AFTER DELETE ON users FOR EACH ROW EXECUTE FUNCTION post();"@, "sql-createtrigger.html"@))
        .insert("BEFORE INSERT"@, keyword_v("BEFORE INSERT"@, "CREATE TRIGGER ... BEFORE INSERT ON <table>."@, "CREATE TRIGGER trg BEFORE INSERT ON users FOR EACH ROW EXECUTE FUNCTION ins();"@, "sql-createtrigger.html"@))
        .insert("BEFORE DELETE"@, keyword_v("BEFORE DELETE"@, "CREATE TRIGGER ... BEFORE DELETE ON <table>."@, "CREATE TRIGGER trg BEFORE DELETE ON users FOR EACH ROW EXECUTE FUNCTION del();"@, "sql-createtrigger.html"@))
        .insert("BEFORE TRUNCATE"@, keyword_v("BEFORE TRUNCATE"@, "CREATE TRIGGER ... BEFORE TRUNCATE ON <table> (statement-level only)."@, "CREATE TRIGGER trg BEFORE TRUNCATE ON users FOR EACH STATEMENT EXECUTE FUNCTION before_trunc();"@, "sql-createtrigger.html"@))
        .insert("AFTER TRUNCATE"@, keyword_v("AFTER TRUNCATE"@, "CREATE TRIGGER ... AFTER TRUNCATE ON <table> (statement-level only)."@, "CREATE TRIGGER trg AFTER TRUNCATE ON users FOR EACH STATEMENT EXECUTE FUNCTION after_trunc();"@, "sql-createtrigger.html"@))
        .insert("DEFAULT PRIVILEGES"@, keyword_v("DEFAULT PRIVILEGES"@, "ALTER DEFAULT PRIVILEGES [FOR ROLE <r>] [IN SCHEMA <s>] {GRANT|REVOKE} ... -- post-creation default ACLs."@, "ALTER DEFAULT PRIVILEGES IN SCHEMA public GRANT SELECT ON TABLES TO readonly;"@, "sql-alterdefaultprivileges.html"@))
        .insert("SET CONSTRAINTS"@, keyword_v("SET CONSTRAINTS"@, "SET CONSTRAINTS { ALL | <name>[, ...] } { DEFERRED | IMMEDIATE } -- transaction-local constraint timing."@, "SET CONSTRAINTS ALL DEFERRED;"@, "sql-set-constraints.html"@))
        .insert("SET ROLE"@, keyword_v("SET ROLE"@, "SET [LOCAL | SESSION] ROLE <role> -- switch to another role's privileges."@, "SET LOCAL ROLE readonly;"@, "sql-set-role.html"@))
        .insert("SET SESSION AUTHORIZATION"@, keyword_v("SET SESSION AUTHORIZATION"@, "SET SESSION AUTHORIZATION <role> -- masquerade as another role for the session (superuser only)."@, "SET SESSION AUTHORIZATION alice;"@, "sql-set-session-authorization.html"@))
        .insert("SET LOCAL"@, keyword_v("SET LOCAL"@, "SET LOCAL <param> = <value> -- transaction-scoped GUC change."@, "SET LOCAL statement_timeout = '5s';"@, "sql-set.html"@))
        .insert("SET SESSION"@, keyword_v("SET SESSION"@, "SET SESSION <param> = <value> -- session-scoped GUC change (default)."@, "SET SESSION work_mem = '64MB';"@, "sql-set.html"@))
        .insert("COMMIT AND CHAIN"@, keyword_v("COMMIT AND CHAIN"@, "COMMIT AND CHAIN -- commit and immediately start a new transaction."@, "COMMIT AND CHAIN;"@, "sql-commit.html"@))
        .insert("ROLLBACK AND CHAIN"@, keyword_v("ROLLBACK AND CHAIN"@, "ROLLBACK AND CHAIN -- rollback and immediately start a new transaction."@, "ROLLBACK AND CHAIN;"@, "sql-rollback.html"@))
        .insert("COMMIT AND NO CHAIN"@, keyword_v("COMMIT AND NO CHAIN"@, "COMMIT AND NO CHAIN -- default; commit and stay outside a transaction."@, "COMMIT AND NO CHAIN;"@, "sql-commit.html"@))
        .insert("ROLLBACK AND NO CHAIN"@, keyword_v("ROLLBACK AND NO CHAIN"@, "ROLLBACK AND NO CHAIN -- default; rollback and stay outside a transaction."@, "ROLLBACK AND NO CHAIN;"@, "sql-rollback.html"@))
        .insert("ROLLBACK TO SAVEPOINT"@, keyword_v("ROLLBACK TO SAVEPOINT"@, "ROLLBACK TO [SAVEPOINT] <name> -- undo back to a savepoint, keep the rest of the txn."@, "ROLLBACK TO SAVEPOINT sp1;"@, "sql-rollback-to.html"@))
        .insert("RELEASE SAVEPOINT"@, keyword_v("RELEASE SAVEPOINT"@, "RELEASE [SAVEPOINT] <name> -- destroy a savepoint without rollback."@, "RELEASE SAVEPOINT sp1;"@, "sql-release-savepoint.html"@))
        .insert("BEGIN TRANSACTION"@, keyword_v("BEGIN TRANSACTION"@, "BEGIN TRANSACTION -- explicit SQL standard form of BEGIN."@, "BEGIN TRANSACTION ISOLATION LEVEL REPEATABLE READ;"@, "sql-begin.html"@))
        .insert("START TRANSACTION"@, keyword_v("START TRANSACTION"@, "START TRANSACTION -- SQL standard form of BEGIN."@, "START TRANSACTION READ ONLY;"@, "sql-start-transaction.html"@))
        .insert("ISOLATION LEVEL"@, keyword_v("ISOLATION LEVEL"@, "ISOLATION LEVEL { READ UNCOMMITTED | READ COMMITTED | REPEATABLE READ | SERIALIZABLE }."@, "BEGIN ISOLATION LEVEL SERIALIZABLE;"@, "transaction-iso.html"@))
        .insert("READ ONLY"@, keyword_v("READ ONLY"@, "Transaction mode: READ ONLY -- forbid writes."@, "BEGIN READ ONLY;"@, "sql-set-transaction.html"@))
        .insert("READ WRITE"@, keyword_v("READ WRITE"@, "Transaction mode: READ WRITE (default)."@, "BEGIN READ WRITE;"@, "sql-set-transaction.html"@))
        .insert("ALL TABLES"@, keyword_v("ALL TABLES"@, "ALTER DEFAULT PRIVILEGES ... ON ALL TABLES / GRANT ... ON ALL TABLES IN SCHEMA -- bulk privilege target."@, "GRANT SELECT ON ALL TABLES IN SCHEMA public TO readonly;"@, "sql-grant.html"@))
        .insert("ALL FUNCTIONS"@, keyword_v("ALL FUNCTIONS"@, "GRANT ... ON ALL FUNCTIONS IN SCHEMA <s> -- bulk privilege target."@, "GRANT EXECUTE ON ALL FUNCTIONS IN SCHEMA public TO app;"@, "sql-grant.html"@))
        .insert("ALL PROCEDURES"@, keyword_v("ALL PROCEDURES"@, "GRANT ... ON ALL PROCEDURES IN SCHEMA <s>."@, "GRANT EXECUTE ON ALL PROCEDURES IN SCHEMA public TO app;"@, "sql-grant.html"@))
        .insert("ALL SEQUENCES"@, keyword_v("ALL SEQUENCES"@, "GRANT ... ON ALL SEQUENCES IN SCHEMA <s>."@, "GRANT USAGE ON ALL SEQUENCES IN SCHEMA public TO app;"@, "sql-grant.html"@))
        .insert("ALL ROUTINES"@, keyword_v("ALL ROUTINES"@, "GRANT ... ON ALL ROUTINES IN SCHEMA <s> -- both functions and procedures (PG11+)."@, "GRANT EXECUTE ON ALL ROUTINES IN SCHEMA public TO app;"@, "sql-grant.html"@))
        .insert("ALL TYPES"@, keyword_v("ALL TYPES"@, "GRANT ... ON ALL TYPES IN SCHEMA <s>."@, "GRANT USAGE ON ALL TYPES IN SCHEMA public TO app;"@, "sql-grant.html"@))
        .insert("ALL TABLESPACES"@, keyword_v("ALL TABLESPACES"@, "GRANT ... ON ALL TABLESPACES (only valid for CREATE)."@, "GRANT CREATE ON TABLESPACE archive TO writer;"@, "sql-grant.html"@))
        .insert("ALL SCHEMAS"@, keyword_v("ALL SCHEMAS"@, "ALTER DEFAULT PRIVILEGES ... ON SCHEMAS -- privilege over future schemas."@, "ALTER DEFAULT PRIVILEGES GRANT USAGE ON SCHEMAS TO readonly;"@, "sql-alterdefaultprivileges.html"@))
        .insert("LOGIN"@, keyword_v("LOGIN"@, "Role attribute: can authenticate."@, "CREATE ROLE alice LOGIN PASSWORD '...';"@, "sql-createrole.html"@))
        .insert("NOLOGIN"@, keyword_v("NOLOGIN"@, "Role attribute: cannot authenticate (group role)."@, "CREATE ROLE admins NOLOGIN;"@, "sql-createrole.html"@))
        .insert("SUPERUSER"@, keyword_v("SUPERUSER"@, "Role attribute: bypass every permission check."@, "CREATE ROLE root SUPERUSER;"@, "sql-createrole.html"@))
        .insert("NOSUPERUSER"@, keyword_v("NOSUPERUSER"@, "Role attribute: not a superuser (default)."@, "ALTER ROLE alice NOSUPERUSER;"@, "sql-createrole.html"@))
        .insert("CREATEDB"@, keyword_v("CREATEDB"@, "Role attribute: may CREATE DATABASE."@, "ALTER ROLE alice CREATEDB;"@, "sql-createrole.html"@))
}

spec fn keyword_part_13(m: Map<Seq<char>, EntryV>) -> Map<Seq<char>, EntryV> {
    m
        .insert("NOCREATEDB"@, keyword_v("NOCREATEDB"@, "Role attribute: cannot CREATE DATABASE (default)."@, "ALTER ROLE alice NOCREATEDB;"@, "sql-createrole.html"@))
        .insert("CREATEROLE"@, keyword_v("CREATEROLE"@, "Role attribute: can create / manage other roles."@, "ALTER ROLE alice CREATEROLE;"@, "sql-createrole.html"@))
        .insert("NOCREATEROLE"@, keyword_v("NOCREATEROLE"@, "Role attribute: cannot create other roles (default)."@, "ALTER ROLE alice NOCREATEROLE;"@, "sql-createrole.html"@))
        .insert("REPLICATION"@, keyword_v("REPLICATION"@, "Role attribute: may initiate streaming replication."@, "ALTER ROLE repl REPLICATION;"@, "sql-createrole.html"@))
        .insert("NOREPLICATION"@, keyword_v("NOREPLICATION"@, "Role attribute: cannot initiate replication (default)."@, "ALTER ROLE repl NOREPLICATION;"@, "sql-createrole.html"@))
        .insert("BYPASSRLS"@, keyword_v("BYPASSRLS"@, "Role attribute: bypass row-level security policies."@, "ALTER ROLE alice BYPASSRLS;"@, "sql-createrole.html"@))
        .insert("NOBYPASSRLS"@, keyword_v("NOBYPASSRLS"@, "Role attribute: subject to row-level security (default)."@, "ALTER ROLE alice NOBYPASSRLS;"@, "sql-createrole.html"@))
        .insert("DISCARD ALL"@, keyword_v("DISCARD ALL"@, "DISCARD ALL -- session reset (drops temp tables, prepared stmts, plans, cursors, etc.)."@, "DISCARD ALL;"@, "sql-discard.html"@))
        .insert("DISCARD PLANS"@, keyword_v("DISCARD PLANS"@, "DISCARD PLANS -- forget cached query plans."@, "DISCARD PLANS;"@, "sql-discard.html"@))
        .insert("DISCARD SEQUENCES"@, keyword_v("DISCARD SEQUENCES"@, "DISCARD SEQUENCES -- forget session sequence state."@, "DISCARD SEQUENCES;"@, "sql-discard.html"@))
        .insert("DISCARD TEMP"@, keyword_v("DISCARD TEMP"@, "DISCARD TEMP -- drop session-local temporary tables."@, "DISCARD TEMP;"@, "sql-discard.html"@))
        .insert("DISCARD TEMPORARY"@, keyword_v("DISCARD TEMPORARY"@, "DISCARD TEMPORARY -- same as DISCARD TEMP."@, "DISCARD TEMPORARY;"@, "sql-discard.html"@))
        .insert("RESET ALL"@, keyword_v("RESET ALL"@, "RESET ALL -- restore every session GUC to its default."@, "RESET ALL;"@, "sql-reset.html"@))
        .insert("RESET ROLE"@, keyword_v("RESET ROLE"@, "RESET ROLE -- undo a SET ROLE."@, "RESET ROLE;"@, "sql-reset.html"@))
        .insert("FILLFACTOR"@, keyword_v("FILLFACTOR"@, "Storage parameter: leaf-page fill percentage (10-100). Lower leaves room for HOT updates."@, "CREATE INDEX ... WITH (fillfactor = 80);"@, "sql-createindex.html#SQL-CREATEINDEX-STORAGE-PARAMETERS"@))
        .insert("FOREIGN DATA WRAPPER"@, keyword_v("FOREIGN DATA WRAPPER"@, "CREATE/ALTER/DROP FOREIGN DATA WRAPPER <name> -- FDW plugin."@, "CREATE SERVER s FOREIGN DATA WRAPPER postgres_fdw OPTIONS (...);"@, "sql-createforeigndatawrapper.html"@))
        .insert("EVENT TRIGGER"@, keyword_v("EVENT TRIGGER"@, "CREATE EVENT TRIGGER -- DDL-level trigger."@, "CREATE EVENT TRIGGER trg ON ddl_command_end EXECUTE FUNCTION fn();"@, "sql-createeventtrigger.html"@))
        .insert("ACCESS METHOD"@, keyword_v("ACCESS METHOD"@, "CREATE/DROP ACCESS METHOD <name> TYPE INDEX HANDLER <fn>."@, "CREATE ACCESS METHOD heap_v2 TYPE TABLE HANDLER heap_v2_handler;"@, "sql-create-access-method.html"@))
        .insert("USER MAPPING"@, keyword_v("USER MAPPING"@, "CREATE/DROP USER MAPPING FOR <role> SERVER <srv> OPTIONS (...)."@, "CREATE USER MAPPING FOR alice SERVER s OPTIONS (user 'a');"@, "sql-createusermapping.html"@))
        .insert("FOREIGN TABLE"@, keyword_v("FOREIGN TABLE"@, "CREATE/DROP FOREIGN TABLE <name> SERVER <srv> -- FDW-backed relation."@, "CREATE FOREIGN TABLE ext (...) SERVER s OPTIONS (table_name 'remote');"@, "sql-createforeigntable.html"@))
        .insert("TEXT SEARCH"@, keyword_v("TEXT SEARCH"@, "CREATE/DROP TEXT SEARCH { CONFIGURATION | DICTIONARY | PARSER | TEMPLATE }."@, "CREATE TEXT SEARCH CONFIGURATION my (PARSER = default);"@, "sql-createtextsearchconfiguration.html"@))
        .insert("OWNED BY"@, keyword_v("OWNED BY"@, "CREATE/ALTER SEQUENCE ... OWNED BY <tbl>.<col> | NONE -- tie sequence to a column."@, "ALTER SEQUENCE s OWNED BY users.id;"@, "sql-altersequence.html"@))
        .insert("ROW LEVEL SECURITY"@, keyword_v("ROW LEVEL SECURITY"@, "ENABLE / DISABLE / FORCE / NO FORCE ROW LEVEL SECURITY."@, "ALTER TABLE t ENABLE ROW LEVEL SECURITY;"@, "ddl-rowsecurity.html"@))
        .insert("SET STORAGE"@, keyword_v("SET STORAGE"@, "ALTER COLUMN ... SET STORAGE { PLAIN | EXTERNAL | EXTENDED | MAIN }."@, "ALTER TABLE t ALTER COLUMN c SET STORAGE EXTERNAL;"@, "sql-altertable.html"@))
        .insert("SET STATISTICS"@, keyword_v("SET STATISTICS"@, "ALTER COLUMN ... SET STATISTICS <n> -- per-column ANALYZE sample size."@, "ALTER TABLE t ALTER COLUMN c SET STATISTICS 1000;"@, "sql-altertable.html"@))
        .insert("ADD GENERATED"@, keyword_v("ADD GENERATED"@, "ALTER COLUMN ... ADD GENERATED { ALWAYS | BY DEFAULT } AS IDENTITY -- promote column to identity."@, "ALTER TABLE t ALTER COLUMN id ADD GENERATED ALWAYS AS IDENTITY;"@, "sql-altertable.html"@))
        .insert("DROP IDENTITY"@, keyword_v("DROP IDENTITY"@, "ALTER COLUMN ... DROP IDENTITY [IF EXISTS] -- demote identity to plain column."@, "ALTER TABLE t ALTER COLUMN id DROP IDENTITY;"@, "sql-altertable.html"@))
        .insert("RESTART IDENTITY"@, keyword_v("RESTART IDENTITY"@, "TRUNCATE ... RESTART IDENTITY -- reset owned sequences."@, "TRUNCATE t RESTART IDENTITY;"@, "sql-truncate.html"@))
        .insert("CONTINUE IDENTITY"@, keyword_v("CONTINUE IDENTITY"@, "TRUNCATE ... CONTINUE IDENTITY -- keep current sequence values (default)."@, "TRUNCATE t CONTINUE IDENTITY;"@, "sql-truncate.html"@))
        .insert("AS IDENTITY"@, keyword_v("AS IDENTITY"@, "<col> <type> GENERATED { ALWAYS | BY DEFAULT } AS IDENTITY."@, "id int GENERATED ALWAYS AS IDENTITY PRIMARY KEY"@, "sql-createtable.html"@))
        .insert("BY IDENTITY"@, keyword_v("BY IDENTITY"@, "ALTER COLUMN ... SET GENERATED { ALWAYS | BY DEFAULT } -- the BY token used in this clause."@, "ALTER TABLE t ALTER COLUMN id SET GENERATED BY DEFAULT;"@, "sql-altertable.html"@))
        .insert("FROM CURRENT"@, keyword_v("FROM CURRENT"@, "ALTER ROLE / DATABASE ... SET <param> FROM CURRENT -- snapshot current GUC value."@, "ALTER ROLE alice SET work_mem FROM CURRENT;"@, "sql-alterrole.html"@))
        .insert("USING METHOD"@, keyword_v("USING METHOD"@, "CREATE INDEX ... USING <method> -- pick the index access method."@, "CREATE INDEX ix ON t USING gin (data);"@, "sql-createindex.html"@))
        .insert("RETURNS TABLE"@, keyword_v("RETURNS TABLE"@, "CREATE FUNCTION ... RETURNS TABLE(<col> <type>, ...) -- set-returning function with named columns."@, "CREATE FUNCTION top_users() RETURNS TABLE(id int, score int) AS $$ ... $$ LANGUAGE sql;"@, "sql-createfunction.html"@))
        .insert("RETURNS TRIGGER"@, keyword_v("RETURNS TRIGGER"@, "CREATE FUNCTION ... RETURNS TRIGGER -- trigger function shape."@, "CREATE FUNCTION upd() RETURNS TRIGGER AS $$ BEGIN RETURN NEW; END; $$ LANGUAGE plpgsql;"@, "sql-createfunction.html"@))
        .insert("RETURNS SETOF"@, keyword_v("RETURNS SETOF"@, "CREATE FUNCTION ... RETURNS SETOF <type> -- multi-row return."@, "CREATE FUNCTION fives() RETURNS SETOF int AS $$ SELECT generate_series(1,5) $$ LANGUAGE sql;"@, "sql-createfunction.html"@))
        .insert("LANGUAGE SQL"@, keyword_v("LANGUAGE SQL"@, "CREATE FUNCTION ... LANGUAGE SQL -- pure SQL function body."@, "CREATE FUNCTION add(int, int) RETURNS int AS $$ SELECT $1 + $2 $$ LANGUAGE SQL;"@, "sql-createfunction.html"@))
        .insert("LANGUAGE PLPGSQL"@, keyword_v("LANGUAGE PLPGSQL"@, "CREATE FUNCTION ... LANGUAGE plpgsql -- procedural Postgres body."@, "CREATE FUNCTION up() RETURNS void AS $$ BEGIN ... END; $$ LANGUAGE plpgsql;"@, "sql-createfunction.html"@))
        .insert("RESTRICT VERSION"@, keyword_v("RESTRICT VERSION"@, "CREATE EXTENSION ... RESTRICT VERSION '<v>' -- pin to a specific version (rare)."@, "CREATE EXTENSION my_ext WITH VERSION '1.2.3';"@, "sql-createextension.html"@))
        .insert("GLOBAL TEMPORARY"@, keyword_v("GLOBAL TEMPORARY"@, "CREATE GLOBAL TEMPORARY TABLE ... -- SQL standard alias for TEMPORARY."@, "CREATE GLOBAL TEMPORARY TABLE staging (...);"@, "sql-createtable.html"@))
        .insert("LOCAL TEMPORARY"@, keyword_v("LOCAL TEMPORARY"@, "CREATE LOCAL TEMPORARY TABLE ... -- SQL standard alias for TEMPORARY."@, "CREATE LOCAL TEMPORARY TABLE staging (...);"@, "sql-createtable.html"@))
        .insert("GLOBAL TEMP"@, keyword_v("GLOBAL TEMP"@, "Same as GLOBAL TEMPORARY."@, "CREATE GLOBAL TEMP TABLE staging (...);"@, "sql-createtable.html"@))
        .insert("LOCAL TEMP"@, keyword_v("LOCAL TEMP"@, "Same as LOCAL TEMPORARY."@, "CREATE LOCAL TEMP TABLE staging (...);"@, "sql-createtable.html"@))
        .insert("WITH RECURSIVE"@, keyword_v("WITH RECURSIVE"@, "WITH RECURSIVE <cte_name> (cols) AS (anchor UNION ALL recursive) ... -- recursive CTE."@, "WITH RECURSIVE t(n) AS (SELECT 1 UNION ALL SELECT n+1 FROM t WHERE n<10) SELECT * FROM t;"@, "queries-with.html"@))
        .insert("OR REPLACE"@, keyword_v("OR REPLACE"@, "CREATE OR REPLACE FUNCTION / VIEW / TRIGGER / etc -- replace existing object."@, "CREATE OR REPLACE VIEW v AS SELECT * FROM t;"@, "sql-createfunction.html"@))
        .insert("NOT VALID"@, keyword_v("NOT VALID"@, "ALTER TABLE ... ADD CONSTRAINT ... NOT VALID -- skip the up-front scan; validate later."@, "ALTER TABLE t ADD CONSTRAINT fk_x FOREIGN KEY (a) REFERENCES p(a) NOT VALID;"@, "sql-altertable.html"@))
        .insert("CONNECT BY"@, keyword_v("CONNECT BY"@, "Oracle hierarchical query syntax (NOT supported by PG)."@, "-- Oracle CONNECT BY ..."@, "appendix-keywords.html"@))
        .insert("START WITH"@, keyword_v("START WITH"@, "Oracle hierarchical-query START WITH (NOT supported by PG)."@, "-- Oracle START WITH ..."@, "appendix-keywords.html"@))
        .insert("ON CONSTRAINT"@, keyword_v("ON CONSTRAINT"@, "ON CONFLICT ON CONSTRAINT <name> -- target a specific named constraint."@, "INSERT INTO t VALUES (...) ON CONFLICT ON CONSTRAINT uq_email DO UPDATE SET ...;"@, "sql-insert.html"@))
        .insert("SECURITY DEFINER"@, keyword_v("SECURITY DEFINER"@, "CREATE FUNCTION ... SECURITY DEFINER -- run with the privileges of the function owner."@, "CREATE FUNCTION priv_op() RETURNS void ... SECURITY DEFINER;"@, "sql-createfunction.html"@))
        .insert("SECURITY INVOKER"@, keyword_v("SECURITY INVOKER"@, "CREATE FUNCTION ... SECURITY INVOKER (default) -- run with caller privileges."@, "CREATE FUNCTION pub_op() RETURNS void ... SECURITY INVOKER;"@, "sql-createfunction.html"@))
        .insert("PARALLEL SAFE"@, keyword_v("PARALLEL SAFE"@, "CREATE FUNCTION ... PARALLEL SAFE -- safe to run in parallel workers."@, "CREATE FUNCTION add(int, int) RETURNS int ... PARALLEL SAFE;"@, "sql-createfunction.html"@))
        .insert("PARALLEL RESTRICTED"@, keyword_v("PARALLEL RESTRICTED"@, "CREATE FUNCTION ... PARALLEL RESTRICTED -- safe to run in leader but not workers."@, "CREATE FUNCTION up() RETURNS int ... PARALLEL RESTRICTED;"@, "sql-createfunction.html"@))
        .insert("PARALLEL UNSAFE"@, keyword_v("PARALLEL UNSAFE"@, "CREATE FUNCTION ... PARALLEL UNSAFE (default) -- forbid parallel execution."@, "CREATE FUNCTION up() RETURNS int ... PARALLEL UNSAFE;"@, "sql-createfunction.html"@))
        .insert("RETURNS NULL ON NULL INPUT"@, keyword_v("RETURNS NULL ON NULL INPUT"@, "Synonym of STRICT in CREATE FUNCTION."@, "CREATE FUNCTION ... RETURNS NULL ON NULL INPUT;"@, "sql-createfunction.html"@))
        .insert("CALLED ON NULL INPUT"@, keyword_v("CALLED ON NULL INPUT"@, "Default for CREATE FUNCTION -- run the body even when an argument is NULL."@, "CREATE FUNCTION ... CALLED ON NULL INPUT;"@, "sql-createfunction.html"@))
        .insert("AS RESTRICT"@, keyword_v("AS RESTRICT"@, "CREATE CAST ... AS [ASSIGNMENT | IMPLICIT] -- omit for explicit-only (default)."@, "CREATE CAST (text AS my_t) WITH FUNCTION my_in;"@, "sql-createcast.html"@))
        .insert("AS ASSIGNMENT"@, keyword_v("AS ASSIGNMENT"@, "CREATE CAST ... AS ASSIGNMENT -- automatic in assignments."@, "CREATE CAST (text AS my_t) WITH FUNCTION my_in AS ASSIGNMENT;"@, "sql-createcast.html"@))
        .insert("AS IMPLICIT"@, keyword_v("AS IMPLICIT"@, "CREATE CAST ... AS IMPLICIT -- automatic everywhere."@, "CREATE CAST (text AS my_t) WITH FUNCTION my_in AS IMPLICIT;"@, "sql-createcast.html"@))
        .insert("AS ENUM"@, keyword_v("AS ENUM"@, "CREATE TYPE <name> AS ENUM ('a', 'b', ...)."@, "CREATE TYPE status AS ENUM ('open','closed');"@, "sql-createtype.html"@))
        .insert("AS RANGE"@, keyword_v("AS RANGE"@, "CREATE TYPE <name> AS RANGE (SUBTYPE = ..., ...)."@, "CREATE TYPE int_with_step AS RANGE (SUBTYPE = int4, SUBTYPE_OPCLASS = int4_ops);"@, "sql-createtype.html"@))
        .insert("WITH FUNCTION"@, keyword_v("WITH FUNCTION"@, "CREATE CAST ... WITH FUNCTION <fn>(args) -- use this function."@, "CREATE CAST (text AS my_t) WITH FUNCTION my_in;"@, "sql-createcast.html"@))
        .insert("WITHOUT FUNCTION"@, keyword_v("WITHOUT FUNCTION"@, "CREATE CAST ... WITHOUT FUNCTION -- binary-compatible cast."@, "CREATE CAST (a AS b) WITHOUT FUNCTION;"@, "sql-createcast.html"@))
        .insert("WITH INOUT"@, keyword_v("WITH INOUT"@, "CREATE CAST ... WITH INOUT -- use type IO conversion."@, "CREATE CAST (text AS my_t) WITH INOUT;"@, "sql-createcast.html"@))
        .insert("WITH OPTIONS"@, keyword_v("WITH OPTIONS"@, "ALTER FOREIGN TABLE ... ALTER COLUMN <c> OPTIONS (...) -- per-column FDW options."@, "ALTER FOREIGN TABLE ext ALTER COLUMN c OPTIONS (column_name 'src');"@, "sql-alterforeigntable.html"@))
        .insert("WITH SCHEMA"@, keyword_v("WITH SCHEMA"@, "CREATE EXTENSION ... WITH SCHEMA <s> -- install objects into a specific schema."@, "CREATE EXTENSION pgcrypto WITH SCHEMA crypto;"@, "sql-createextension.html"@))
        .insert("WITH VERSION"@, keyword_v("WITH VERSION"@, "CREATE EXTENSION ... WITH VERSION '<v>' -- pick a specific version."@, "CREATE EXTENSION pgcrypto WITH VERSION '1.3';"@, "sql-createextension.html"@))
        .insert("WITH CASCADE"@, keyword_v("WITH CASCADE"@, "CREATE EXTENSION ... WITH CASCADE -- auto-install required extensions."@, "CREATE EXTENSION postgis CASCADE;"@, "sql-createextension.html"@))
        .insert("TO PUBLIC"@, keyword_v("TO PUBLIC"@, "GRANT ... TO PUBLIC -- every role."@, "GRANT SELECT ON t TO PUBLIC;"@, "sql-grant.html"@))
        .insert("ON ALL TABLES IN SCHEMA"@, keyword_v("ON ALL TABLES IN SCHEMA"@, "GRANT/REVOKE ... ON ALL TABLES IN SCHEMA <s> -- bulk-affect every existing table in the schema (does NOT apply to future tables; use ALTER DEFAULT PRIVILEGES for that)."@, "GRANT SELECT ON ALL TABLES IN SCHEMA app TO readonly;"@, "sql-grant.html"@))
        .insert("ON ALL FUNCTIONS IN SCHEMA"@, keyword_v("ON ALL FUNCTIONS IN SCHEMA"@, "GRANT/REVOKE ... ON ALL FUNCTIONS IN SCHEMA <s> -- bulk-affect every existing fn in the schema."@, "GRANT EXECUTE ON ALL FUNCTIONS IN SCHEMA app TO svc;"@, "sql-grant.html"@))
        .insert("ON ALL SEQUENCES IN SCHEMA"@, keyword_v("ON ALL SEQUENCES IN SCHEMA"@, "GRANT/REVOKE ... ON ALL SEQUENCES IN SCHEMA <s> -- bulk-affect every existing sequence in the schema."@, "GRANT USAGE ON ALL SEQUENCES IN SCHEMA app TO svc;"@, "sql-grant.html"@))
        .insert("ON ALL ROUTINES IN SCHEMA"@, keyword_v("ON ALL ROUTINES IN SCHEMA"@, "GRANT/REVOKE ... ON ALL ROUTINES IN SCHEMA <s> -- bulk-affect every fn AND procedure (PG11+)."@, "GRANT EXECUTE ON ALL ROUTINES IN SCHEMA app TO svc;"@, "sql-grant.html"@))
        .insert("ON ALL PROCEDURES IN SCHEMA"@, keyword_v("ON ALL PROCEDURES IN SCHEMA"@, "GRANT/REVOKE ... ON ALL PROCEDURES IN SCHEMA <s> -- bulk-affect every existing procedure in the schema."@, "GRANT EXECUTE ON ALL PROCEDURES IN SCHEMA app TO svc;"@, "sql-grant.html"@))
        .insert("TO CURRENT_USER"@, keyword_v("TO CURRENT_USER"@, "GRANT ... TO CURRENT_USER -- the role that issued the statement."@, "GRANT EXECUTE ON FUNCTION f() TO CURRENT_USER;"@, "sql-grant.html"@))
}

spec fn keyword_part_14(m: Map<Seq<char>, EntryV>) -> Map<Seq<char>, EntryV> {
    m
        .insert("TO SESSION_USER"@, keyword_v("TO SESSION_USER"@, "GRANT ... TO SESSION_USER -- the role the session authenticated as."@, "GRANT EXECUTE ON FUNCTION f() TO SESSION_USER;"@, "sql-grant.html"@))
        .insert("DEPENDS ON EXTENSION"@, keyword_v("DEPENDS ON EXTENSION"@, "ALTER ... DEPENDS ON EXTENSION <ext> -- mark object as auto-dropped with the extension."@, "ALTER FUNCTION fn() DEPENDS ON EXTENSION pgcrypto;"@, "sql-altertable.html"@))
        .insert("DROP EXPRESSION"@, keyword_v("DROP EXPRESSION"@, "ALTER TABLE ... ALTER COLUMN <c> DROP EXPRESSION [IF EXISTS] -- demote generated column."@, "ALTER TABLE t ALTER COLUMN total DROP EXPRESSION;"@, "sql-altertable.html"@))
        .insert("ADD EXPRESSION"@, keyword_v("ADD EXPRESSION"@, "(reserved; emerged in some discussions) -- ALTER COLUMN ADD EXPRESSION not currently supported by PG."@, "-- not supported"@, "sql-altertable.html"@))
        .insert("VALIDATE CONSTRAINT"@, keyword_v("VALIDATE CONSTRAINT"@, "ALTER TABLE ... VALIDATE CONSTRAINT <name> -- validate a previously NOT VALID constraint."@, "ALTER TABLE t VALIDATE CONSTRAINT fk_x;"@, "sql-altertable.html"@))
        .insert("DEFERRABLE INITIALLY DEFERRED"@, keyword_v("DEFERRABLE INITIALLY DEFERRED"@, "Constraint timing: DEFERRABLE INITIALLY DEFERRED."@, "ADD CONSTRAINT fk_x ... DEFERRABLE INITIALLY DEFERRED"@, "sql-createtable.html"@))
        .insert("DEFERRABLE INITIALLY IMMEDIATE"@, keyword_v("DEFERRABLE INITIALLY IMMEDIATE"@, "Constraint timing: DEFERRABLE INITIALLY IMMEDIATE."@, "ADD CONSTRAINT fk_x ... DEFERRABLE INITIALLY IMMEDIATE"@, "sql-createtable.html"@))
        .insert("NOT DEFERRABLE"@, keyword_v("NOT DEFERRABLE"@, "Constraint timing: NOT DEFERRABLE (default)."@, "ADD CONSTRAINT fk_x ... NOT DEFERRABLE"@, "sql-createtable.html"@))
        .insert("PRESERVE ROWS"@, keyword_v("PRESERVE ROWS"@, "ON COMMIT PRESERVE ROWS -- keep temporary-table rows past COMMIT (default)."@, "CREATE TEMP TABLE staging (...) ON COMMIT PRESERVE ROWS;"@, "sql-createtable.html"@))
        .insert("DELETE ROWS"@, keyword_v("DELETE ROWS"@, "ON COMMIT DELETE ROWS -- truncate temporary-table rows at COMMIT."@, "CREATE TEMP TABLE staging (...) ON COMMIT DELETE ROWS;"@, "sql-createtable.html"@))
        .insert("OLD TABLE"@, keyword_v("OLD TABLE"@, "REFERENCING OLD TABLE AS <alias> -- statement-level trigger transition relation."@, "REFERENCING OLD TABLE AS old_rows"@, "sql-createtrigger.html"@))
        .insert("NEW TABLE"@, keyword_v("NEW TABLE"@, "REFERENCING NEW TABLE AS <alias> -- statement-level trigger transition relation."@, "REFERENCING NEW TABLE AS new_rows"@, "sql-createtrigger.html"@))
        .insert("OLD AS"@, keyword_v("OLD AS"@, "REFERENCING OLD AS <alias> -- row-level trigger old row alias."@, "REFERENCING OLD AS o NEW AS n"@, "sql-createtrigger.html"@))
        .insert("NEW AS"@, keyword_v("NEW AS"@, "REFERENCING NEW AS <alias> -- row-level trigger new row alias."@, "REFERENCING OLD AS o NEW AS n"@, "sql-createtrigger.html"@))
        .insert("OLD ROW"@, keyword_v("OLD ROW"@, "PL/pgSQL implicit row alias OLD -- represents the row BEFORE the event."@, "IF OLD.status <> NEW.status THEN ..."@, "plpgsql-trigger.html"@))
        .insert("NEW ROW"@, keyword_v("NEW ROW"@, "PL/pgSQL implicit row alias NEW -- represents the row AFTER the event."@, "IF OLD.status <> NEW.status THEN ..."@, "plpgsql-trigger.html"@))
        .insert("TRANSITION"@, keyword_v("TRANSITION"@, "CREATE TRIGGER ... REFERENCING { OLD | NEW } TABLE AS <alias> -- statement-level transition tables."@, "REFERENCING OLD TABLE AS old_rows NEW TABLE AS new_rows"@, "sql-createtrigger.html"@))
        .insert("UPDATE OF"@, keyword_v("UPDATE OF"@, "CREATE TRIGGER ... UPDATE OF <col>[, ...] -- column-list-scoped UPDATE event."@, "CREATE TRIGGER trg AFTER UPDATE OF status ON orders ..."@, "sql-createtrigger.html"@))
        .insert("INSERT OR UPDATE"@, keyword_v("INSERT OR UPDATE"@, "CREATE TRIGGER ... INSERT OR UPDATE -- multi-event chain."@, "CREATE TRIGGER trg AFTER INSERT OR UPDATE ON t ..."@, "sql-createtrigger.html"@))
        .insert("ALTER COLUMN TYPE"@, keyword_v("ALTER COLUMN TYPE"@, "ALTER TABLE ... ALTER COLUMN <c> TYPE <new_type> [USING <expr>] -- change column type."@, "ALTER TABLE t ALTER COLUMN price TYPE numeric USING price::numeric;"@, "sql-altertable.html"@))
        .insert("DROP CONSTRAINT"@, keyword_v("DROP CONSTRAINT"@, "ALTER TABLE ... DROP CONSTRAINT [IF EXISTS] <name> [CASCADE|RESTRICT]."@, "ALTER TABLE t DROP CONSTRAINT fk_x;"@, "sql-altertable.html"@))
        .insert("RENAME CONSTRAINT"@, keyword_v("RENAME CONSTRAINT"@, "ALTER TABLE ... RENAME CONSTRAINT <old> TO <new>."@, "ALTER TABLE t RENAME CONSTRAINT fk_x TO fk_users_org;"@, "sql-altertable.html"@))
        .insert("WHERE CURRENT OF"@, keyword_v("WHERE CURRENT OF"@, "UPDATE/DELETE ... WHERE CURRENT OF <cursor> -- positioned update/delete (PG cursors)."@, "UPDATE t SET c = c + 1 WHERE CURRENT OF c1;"@, "sql-update.html"@))
        .insert("CURRENT OF"@, keyword_v("CURRENT OF"@, "Used in WHERE CURRENT OF <cursor>; identifies the row the cursor is positioned at."@, "WHERE CURRENT OF c1"@, "sql-update.html"@))
        .insert("CHECK OPTION"@, keyword_v("CHECK OPTION"@, "CREATE VIEW ... WITH CHECK OPTION -- forbid INSERT/UPDATE that wouldn't satisfy the view's WHERE."@, "CREATE VIEW v AS SELECT * FROM t WHERE active WITH CHECK OPTION;"@, "sql-createview.html"@))
        .insert("WITH CHECK OPTION"@, keyword_v("WITH CHECK OPTION"@, "VIEW WITH CHECK OPTION -- same as CASCADED variant (default)."@, "WITH CHECK OPTION"@, "sql-createview.html"@))
        .insert("WITH LOCAL CHECK OPTION"@, keyword_v("WITH LOCAL CHECK OPTION"@, "VIEW WITH LOCAL CHECK OPTION -- only check this view's predicate; ignore parent views."@, "WITH LOCAL CHECK OPTION"@, "sql-createview.html"@))
        .insert("WITH CASCADED CHECK OPTION"@, keyword_v("WITH CASCADED CHECK OPTION"@, "VIEW WITH CASCADED CHECK OPTION -- enforce predicates of this AND parent views (default)."@, "WITH CASCADED CHECK OPTION"@, "sql-createview.html"@))
        .insert("INSTEAD OF INSERT"@, keyword_v("INSTEAD OF INSERT"@, "CREATE TRIGGER ... INSTEAD OF INSERT ON <view> -- view writability."@, "CREATE TRIGGER trg INSTEAD OF INSERT ON v FOR EACH ROW EXECUTE FUNCTION ins();"@, "sql-createtrigger.html"@))
        .insert("INSTEAD OF UPDATE"@, keyword_v("INSTEAD OF UPDATE"@, "CREATE TRIGGER ... INSTEAD OF UPDATE ON <view>."@, "CREATE TRIGGER trg INSTEAD OF UPDATE ON v FOR EACH ROW EXECUTE FUNCTION upd();"@, "sql-createtrigger.html"@))
        .insert("INSTEAD OF DELETE"@, keyword_v("INSTEAD OF DELETE"@, "CREATE TRIGGER ... INSTEAD OF DELETE ON <view>."@, "CREATE TRIGGER trg INSTEAD OF DELETE ON v FOR EACH ROW EXECUTE FUNCTION del();"@, "sql-createtrigger.html"@))
        .insert("FOR ALL"@, keyword_v("FOR ALL"@, "CREATE POLICY ... FOR ALL -- policy applies to every DML."@, "CREATE POLICY p ON t FOR ALL TO public USING (...);"@, "sql-createpolicy.html"@))
        .insert("FOR ROLE"@, keyword_v("FOR ROLE"@, "ALTER DEFAULT PRIVILEGES FOR ROLE <r> -- scope default ACL changes."@, "ALTER DEFAULT PRIVILEGES FOR ROLE owner GRANT SELECT ON TABLES TO readonly;"@, "sql-alterdefaultprivileges.html"@))
        .insert("FOR USER"@, keyword_v("FOR USER"@, "ALTER DEFAULT PRIVILEGES FOR USER <r> -- same as FOR ROLE."@, "ALTER DEFAULT PRIVILEGES FOR USER alice GRANT ..."@, "sql-alterdefaultprivileges.html"@))
        .insert("FOR PARTITION"@, keyword_v("FOR PARTITION"@, "ALTER INDEX ... ATTACH PARTITION <partition_index> FOR PARTITION <child_index>. (Internal partitioning glue.)"@, "ALTER INDEX p_idx ATTACH PARTITION ch_idx;"@, "sql-alterindex.html"@))
        .insert("FOR EACH"@, keyword_v("FOR EACH"@, "CREATE TRIGGER ... FOR EACH { ROW | STATEMENT }."@, "FOR EACH ROW EXECUTE FUNCTION upd();"@, "sql-createtrigger.html"@))
        .insert("FORCE TYPE"@, keyword_v("FORCE TYPE"@, "CREATE FUNCTION ... ARGTYPES + FORCE_TYPE -- not a standalone PG keyword (here for completeness)."@, "-- internal"@, "appendix-keywords.html"@))
        .insert("FORCE ROW LEVEL SECURITY"@, keyword_v("FORCE ROW LEVEL SECURITY"@, "ALTER TABLE ... FORCE ROW LEVEL SECURITY -- apply RLS even to the table owner."@, "ALTER TABLE t FORCE ROW LEVEL SECURITY;"@, "sql-altertable.html"@))
        .insert("NO FORCE ROW LEVEL SECURITY"@, keyword_v("NO FORCE ROW LEVEL SECURITY"@, "ALTER TABLE ... NO FORCE ROW LEVEL SECURITY -- revert FORCE (default)."@, "ALTER TABLE t NO FORCE ROW LEVEL SECURITY;"@, "sql-altertable.html"@))
        .insert("ENABLE ROW LEVEL SECURITY"@, keyword_v("ENABLE ROW LEVEL SECURITY"@, "ALTER TABLE ... ENABLE ROW LEVEL SECURITY -- enforce row-level security policies on the table."@, "ALTER TABLE t ENABLE ROW LEVEL SECURITY;"@, "sql-altertable.html"@))
        .insert("DISABLE ROW LEVEL SECURITY"@, keyword_v("DISABLE ROW LEVEL SECURITY"@, "ALTER TABLE ... DISABLE ROW LEVEL SECURITY -- stop enforcing RLS policies (default)."@, "ALTER TABLE t DISABLE ROW LEVEL SECURITY;"@, "sql-altertable.html"@))
        .insert("WITH CHECK"@, keyword_v("WITH CHECK"@, "CREATE POLICY ... WITH CHECK (<expr>) -- new/updated rows must satisfy <expr> for INSERT/UPDATE."@, "CREATE POLICY p ON t FOR ALL USING (true) WITH CHECK (owner = current_user);"@, "sql-createpolicy.html"@))
        .insert("SET CONSTRAINTS DEFERRED"@, keyword_v("SET CONSTRAINTS DEFERRED"@, "SET CONSTRAINTS ALL DEFERRED -- defer checks until commit."@, "SET CONSTRAINTS ALL DEFERRED;"@, "sql-set-constraints.html"@))
        .insert("SET CONSTRAINTS IMMEDIATE"@, keyword_v("SET CONSTRAINTS IMMEDIATE"@, "SET CONSTRAINTS ALL IMMEDIATE -- check at statement end."@, "SET CONSTRAINTS ALL IMMEDIATE;"@, "sql-set-constraints.html"@))
        .insert("SET CONSTRAINTS ALL"@, keyword_v("SET CONSTRAINTS ALL"@, "SET CONSTRAINTS ALL { DEFERRED | IMMEDIATE } -- affect every deferrable constraint."@, "SET CONSTRAINTS ALL DEFERRED;"@, "sql-set-constraints.html"@))
        .insert("AT LOCAL"@, keyword_v("AT LOCAL"@, "<timestamptz> AT LOCAL -- convert to local time zone (PG17+)."@, "SELECT now() AT LOCAL;"@, "functions-datetime.html"@))
        .insert("INTERSECT ALL"@, keyword_v("INTERSECT ALL"@, "Set op: INTERSECT ALL -- keep duplicates."@, "SELECT id FROM a INTERSECT ALL SELECT id FROM b;"@, "queries-union.html"@))
        .insert("EXCEPT ALL"@, keyword_v("EXCEPT ALL"@, "Set op: EXCEPT ALL -- keep duplicates."@, "SELECT id FROM a EXCEPT ALL SELECT id FROM b;"@, "queries-union.html"@))
        .insert("UNION ALL"@, keyword_v("UNION ALL"@, "Set op: UNION ALL -- keep duplicates (faster than UNION)."@, "SELECT id FROM a UNION ALL SELECT id FROM b;"@, "queries-union.html"@))
        .insert("INTERSECT DISTINCT"@, keyword_v("INTERSECT DISTINCT"@, "Set op: INTERSECT [DISTINCT] -- explicit form of plain INTERSECT."@, "a INTERSECT DISTINCT b"@, "queries-union.html"@))
        .insert("EXCEPT DISTINCT"@, keyword_v("EXCEPT DISTINCT"@, "Set op: EXCEPT [DISTINCT] -- explicit form of plain EXCEPT."@, "a EXCEPT DISTINCT b"@, "queries-union.html"@))
        .insert("UNION DISTINCT"@, keyword_v("UNION DISTINCT"@, "Set op: UNION [DISTINCT] -- explicit form of plain UNION."@, "a UNION DISTINCT b"@, "queries-union.html"@))
        .insert("GROUP BY ALL"@, keyword_v("GROUP BY ALL"@, "GROUP BY ALL -- shorthand for grouping by every non-aggregate output column (NOT supported by PG; common in Snowflake/MySQL 8.0+)."@, "-- unsupported in PG"@, "appendix-keywords.html"@))
        .insert("GROUP BY DISTINCT"@, keyword_v("GROUP BY DISTINCT"@, "GROUP BY DISTINCT (a, b, GROUPING SETS (...)) -- drop duplicate grouping sets (PG14+)."@, "GROUP BY DISTINCT GROUPING SETS ((a), (a,b))"@, "queries-table-expressions.html#QUERIES-GROUPING-SETS"@))
        .insert("SELECT DISTINCT"@, keyword_v("SELECT DISTINCT"@, "SELECT DISTINCT <cols> ... -- dedupe entire rows."@, "SELECT DISTINCT id FROM t;"@, "sql-select.html"@))
        .insert("SELECT DISTINCT ON"@, keyword_v("SELECT DISTINCT ON"@, "SELECT DISTINCT ON (<expr>[, ...]) ... -- keep first row per distinct ON expression."@, "SELECT DISTINCT ON (user_id) * FROM events ORDER BY user_id, created_at DESC;"@, "sql-select.html#SQL-DISTINCT"@))
        .insert("CREATE OR REPLACE FUNCTION"@, keyword_v("CREATE OR REPLACE FUNCTION"@, "CREATE OR REPLACE FUNCTION <name>(args) RETURNS ... -- replace existing fn."@, "CREATE OR REPLACE FUNCTION up() RETURNS void ...;"@, "sql-createfunction.html"@))
        .insert("CREATE OR REPLACE PROCEDURE"@, keyword_v("CREATE OR REPLACE PROCEDURE"@, "CREATE OR REPLACE PROCEDURE <name>(args) -- replace existing procedure."@, "CREATE OR REPLACE PROCEDURE up() ...;"@, "sql-createprocedure.html"@))
        .insert("CREATE OR REPLACE VIEW"@, keyword_v("CREATE OR REPLACE VIEW"@, "CREATE OR REPLACE VIEW <name> AS SELECT ...; replace if columns/types match."@, "CREATE OR REPLACE VIEW v AS SELECT * FROM t;"@, "sql-createview.html"@))
        .insert("CREATE OR REPLACE TRIGGER"@, keyword_v("CREATE OR REPLACE TRIGGER"@, "CREATE OR REPLACE TRIGGER <name> ... -- replace existing trigger (PG14+)."@, "CREATE OR REPLACE TRIGGER trg ...;"@, "sql-createtrigger.html"@))
        .insert("CREATE OR REPLACE RULE"@, keyword_v("CREATE OR REPLACE RULE"@, "CREATE OR REPLACE RULE <name> AS ON <event> TO <table> DO ...;"@, "CREATE OR REPLACE RULE r AS ON SELECT TO v DO INSTEAD SELECT 1;"@, "sql-createrule.html"@))
        .insert("CREATE INDEX CONCURRENTLY"@, keyword_v("CREATE INDEX CONCURRENTLY"@, "CREATE INDEX CONCURRENTLY <name> ON <table>(...) -- non-blocking index build."@, "CREATE INDEX CONCURRENTLY ix_email ON users(email);"@, "sql-createindex.html"@))
        .insert("CREATE UNIQUE INDEX"@, keyword_v("CREATE UNIQUE INDEX"@, "CREATE UNIQUE INDEX <name> ON <table>(...) -- enforce uniqueness."@, "CREATE UNIQUE INDEX ux_email ON users(email);"@, "sql-createindex.html"@))
        .insert("CREATE UNIQUE INDEX CONCURRENTLY"@, keyword_v("CREATE UNIQUE INDEX CONCURRENTLY"@, "CREATE UNIQUE INDEX CONCURRENTLY <name> ... -- non-blocking unique index build."@, "CREATE UNIQUE INDEX CONCURRENTLY ux_email ON users(email);"@, "sql-createindex.html"@))
        .insert("CREATE TEMP TABLE"@, keyword_v("CREATE TEMP TABLE"@, "CREATE TEMP TABLE <name> (...) -- session-local table."@, "CREATE TEMP TABLE staging (id int);"@, "sql-createtable.html"@))
        .insert("CREATE TEMPORARY TABLE"@, keyword_v("CREATE TEMPORARY TABLE"@, "CREATE TEMPORARY TABLE <name> (...) -- same as TEMP."@, "CREATE TEMPORARY TABLE staging (id int);"@, "sql-createtable.html"@))
        .insert("CREATE UNLOGGED TABLE"@, keyword_v("CREATE UNLOGGED TABLE"@, "CREATE UNLOGGED TABLE <name> (...) -- skipped from WAL; lost on crash."@, "CREATE UNLOGGED TABLE cache (k text PRIMARY KEY, v text);"@, "sql-createtable.html"@))
        .insert("CREATE FOREIGN TABLE"@, keyword_v("CREATE FOREIGN TABLE"@, "CREATE FOREIGN TABLE <name> (...) SERVER <srv> OPTIONS (...)."@, "CREATE FOREIGN TABLE remote (id int) SERVER s OPTIONS (table_name 'remote');"@, "sql-createforeigntable.html"@))
        .insert("CREATE EVENT TRIGGER"@, keyword_v("CREATE EVENT TRIGGER"@, "CREATE EVENT TRIGGER <name> ON <event> EXECUTE FUNCTION <fn>()."@, "CREATE EVENT TRIGGER trg ON ddl_command_end EXECUTE FUNCTION dispatch();"@, "sql-createeventtrigger.html"@))
        .insert("DROP INDEX CONCURRENTLY"@, keyword_v("DROP INDEX CONCURRENTLY"@, "DROP INDEX CONCURRENTLY [IF EXISTS] <name> -- non-blocking drop."@, "DROP INDEX CONCURRENTLY ix_old;"@, "sql-dropindex.html"@))
        .insert("DROP CONSTRAINT IF EXISTS"@, keyword_v("DROP CONSTRAINT IF EXISTS"@, "ALTER TABLE ... DROP CONSTRAINT IF EXISTS <name>."@, "ALTER TABLE t DROP CONSTRAINT IF EXISTS fk_x;"@, "sql-altertable.html"@))
        .insert("DROP TABLE IF EXISTS"@, keyword_v("DROP TABLE IF EXISTS"@, "DROP TABLE IF EXISTS <name>[, ...] [CASCADE|RESTRICT]."@, "DROP TABLE IF EXISTS staging;"@, "sql-droptable.html"@))
        .insert("DROP INDEX IF EXISTS"@, keyword_v("DROP INDEX IF EXISTS"@, "DROP INDEX [CONCURRENTLY] IF EXISTS <name>."@, "DROP INDEX IF EXISTS ix_old;"@, "sql-dropindex.html"@))
        .insert("DROP MATERIALIZED VIEW"@, keyword_v("DROP MATERIALIZED VIEW"@, "DROP MATERIALIZED VIEW [IF EXISTS] <name> [CASCADE]."@, "DROP MATERIALIZED VIEW IF EXISTS mv;"@, "sql-dropmaterializedview.html"@))
        .insert("DROP FOREIGN TABLE"@, keyword_v("DROP FOREIGN TABLE"@, "DROP FOREIGN TABLE [IF EXISTS] <name>."@, "DROP FOREIGN TABLE IF EXISTS ext;"@, "sql-dropforeigntable.html"@))
}

spec fn keyword_part_15(m: Map<Seq<char>, EntryV>) -> Map<Seq<char>, EntryV> {
    m
        .insert("DROP EVENT TRIGGER"@, keyword_v("DROP EVENT TRIGGER"@, "DROP EVENT TRIGGER [IF EXISTS] <name>."@, "DROP EVENT TRIGGER trg;"@, "sql-dropeventtrigger.html"@))
        .insert("DROP ACCESS METHOD"@, keyword_v("DROP ACCESS METHOD"@, "DROP ACCESS METHOD [IF EXISTS] <name>."@, "DROP ACCESS METHOD heap_v2;"@, "sql-drop-access-method.html"@))
        .insert("ALTER TABLE IF EXISTS"@, keyword_v("ALTER TABLE IF EXISTS"@, "ALTER TABLE IF EXISTS <name> ... -- skip silently if missing."@, "ALTER TABLE IF EXISTS t ADD COLUMN x int;"@, "sql-altertable.html"@))
        .insert("ALTER TABLE ONLY"@, keyword_v("ALTER TABLE ONLY"@, "ALTER TABLE ONLY <name> ... -- skip child tables in inheritance."@, "ALTER TABLE ONLY parent ADD COLUMN x int;"@, "sql-altertable.html"@))
        .insert("ALTER MATERIALIZED VIEW"@, keyword_v("ALTER MATERIALIZED VIEW"@, "ALTER MATERIALIZED VIEW <name> ..."@, "ALTER MATERIALIZED VIEW mv RENAME TO mv2;"@, "sql-altermaterializedview.html"@))
        .insert("ALTER EVENT TRIGGER"@, keyword_v("ALTER EVENT TRIGGER"@, "ALTER EVENT TRIGGER <name> ..."@, "ALTER EVENT TRIGGER trg ENABLE REPLICA;"@, "sql-altereventtrigger.html"@))
        .insert("ALTER ACCESS METHOD"@, keyword_v("ALTER ACCESS METHOD"@, "ALTER ACCESS METHOD <name> RENAME TO <new>."@, "ALTER ACCESS METHOD am RENAME TO am2;"@, "sql-alter-access-method.html"@))
        .insert("ALTER OPERATOR FAMILY"@, keyword_v("ALTER OPERATOR FAMILY"@, "ALTER OPERATOR FAMILY <name> USING <am> ADD/DROP ..."@, "ALTER OPERATOR FAMILY fam USING btree ADD OPERATOR 1 < (int, int);"@, "sql-alteroperatorfamily.html"@))
        .insert("ALTER OPERATOR CLASS"@, keyword_v("ALTER OPERATOR CLASS"@, "ALTER OPERATOR CLASS <name> USING <am> RENAME TO <new>."@, "ALTER OPERATOR CLASS oc USING btree RENAME TO oc2;"@, "sql-alteroperatorclass.html"@))
        .insert("ALTER FOREIGN TABLE"@, keyword_v("ALTER FOREIGN TABLE"@, "ALTER FOREIGN TABLE <name> ..."@, "ALTER FOREIGN TABLE ext ALTER COLUMN c OPTIONS (column_name 'src');"@, "sql-alterforeigntable.html"@))
        .insert("ALTER FOREIGN DATA WRAPPER"@, keyword_v("ALTER FOREIGN DATA WRAPPER"@, "ALTER FOREIGN DATA WRAPPER <name> ..."@, "ALTER FOREIGN DATA WRAPPER pg_fdw HANDLER fn;"@, "sql-alterforeigndatawrapper.html"@))
        .insert("ALTER PUBLICATION"@, keyword_v("ALTER PUBLICATION"@, "ALTER PUBLICATION <name> ..."@, "ALTER PUBLICATION p ADD TABLE t;"@, "sql-alterpublication.html"@))
        .insert("ALTER SUBSCRIPTION"@, keyword_v("ALTER SUBSCRIPTION"@, "ALTER SUBSCRIPTION <name> ..."@, "ALTER SUBSCRIPTION s REFRESH PUBLICATION;"@, "sql-altersubscription.html"@))
        .insert("ALTER POLICY"@, keyword_v("ALTER POLICY"@, "ALTER POLICY <name> ON <table> ..."@, "ALTER POLICY p ON t USING (...) WITH CHECK (...);"@, "sql-alterpolicy.html"@))
        .insert("ALTER STATISTICS"@, keyword_v("ALTER STATISTICS"@, "ALTER STATISTICS <name> ..."@, "ALTER STATISTICS s SET STATISTICS 1000;"@, "sql-alterstatistics.html"@))
        .insert("ALTER LANGUAGE"@, keyword_v("ALTER LANGUAGE"@, "ALTER LANGUAGE <name> RENAME TO <new>."@, "ALTER LANGUAGE plpgsql RENAME TO ppl;"@, "sql-alterlanguage.html"@))
        .insert("ALTER CONVERSION"@, keyword_v("ALTER CONVERSION"@, "ALTER CONVERSION <name> RENAME TO <new>."@, "ALTER CONVERSION c RENAME TO c2;"@, "sql-alterconversion.html"@))
        .insert("ALTER COLLATION"@, keyword_v("ALTER COLLATION"@, "ALTER COLLATION <name> ..."@, "ALTER COLLATION fr_FR REFRESH VERSION;"@, "sql-altercollation.html"@))
        .insert("ALTER AGGREGATE"@, keyword_v("ALTER AGGREGATE"@, "ALTER AGGREGATE <name>(arg_types) ..."@, "ALTER AGGREGATE my_sum(bigint) OWNER TO admins;"@, "sql-alteraggregate.html"@))
        .insert("ALTER OPERATOR"@, keyword_v("ALTER OPERATOR"@, "ALTER OPERATOR <op>(left_type, right_type) ..."@, "ALTER OPERATOR === (int, int) OWNER TO admins;"@, "sql-alteroperator.html"@))
        .insert("ALTER CAST"@, keyword_v("ALTER CAST"@, "ALTER CAST (src AS dst) ..."@, "ALTER CAST (text AS my_t) OWNER TO admins;"@, "sql-altercast.html"@))
        .insert("ALTER TYPE"@, keyword_v("ALTER TYPE"@, "ALTER TYPE <name> ..."@, "ALTER TYPE status ADD VALUE 'archived';"@, "sql-altertype.html"@))
        .insert("ALTER DOMAIN"@, keyword_v("ALTER DOMAIN"@, "ALTER DOMAIN <name> ..."@, "ALTER DOMAIN email_t SET DEFAULT NULL;"@, "sql-alterdomain.html"@))
        .insert("ALTER USER MAPPING"@, keyword_v("ALTER USER MAPPING"@, "ALTER USER MAPPING FOR <role> SERVER <srv> OPTIONS (...)."@, "ALTER USER MAPPING FOR alice SERVER s OPTIONS (SET user 'a');"@, "sql-alterusermapping.html"@))
        .insert("ALTER SEQUENCE IF EXISTS"@, keyword_v("ALTER SEQUENCE IF EXISTS"@, "ALTER SEQUENCE IF EXISTS <name> ..."@, "ALTER SEQUENCE IF EXISTS s RESTART;"@, "sql-altersequence.html"@))
        .insert("ALTER VIEW IF EXISTS"@, keyword_v("ALTER VIEW IF EXISTS"@, "ALTER VIEW IF EXISTS <name> ..."@, "ALTER VIEW IF EXISTS v RENAME TO v2;"@, "sql-alterview.html"@))
        .insert("COMMENT ON TABLE"@, keyword_v("COMMENT ON TABLE"@, "COMMENT ON TABLE <name> IS '...' -- attach a comment."@, "COMMENT ON TABLE users IS 'authn users';"@, "sql-comment.html"@))
        .insert("COMMENT ON COLUMN"@, keyword_v("COMMENT ON COLUMN"@, "COMMENT ON COLUMN <tbl>.<col> IS '...'."@, "COMMENT ON COLUMN users.email IS 'primary email';"@, "sql-comment.html"@))
        .insert("COMMENT ON SCHEMA"@, keyword_v("COMMENT ON SCHEMA"@, "COMMENT ON SCHEMA <name> IS '...'."@, "COMMENT ON SCHEMA app IS 'application objects';"@, "sql-comment.html"@))
        .insert("COMMENT ON DATABASE"@, keyword_v("COMMENT ON DATABASE"@, "COMMENT ON DATABASE <name> IS '...'."@, "COMMENT ON DATABASE mydb IS 'prod db';"@, "sql-comment.html"@))
        .insert("COMMENT ON FUNCTION"@, keyword_v("COMMENT ON FUNCTION"@, "COMMENT ON FUNCTION <name>(args) IS '...'."@, "COMMENT ON FUNCTION add(int, int) IS 'sums args';"@, "sql-comment.html"@))
        .insert("COMMENT ON PROCEDURE"@, keyword_v("COMMENT ON PROCEDURE"@, "COMMENT ON PROCEDURE <name>(args) IS '...'."@, "COMMENT ON PROCEDURE up() IS 'startup';"@, "sql-comment.html"@))
        .insert("COMMENT ON INDEX"@, keyword_v("COMMENT ON INDEX"@, "COMMENT ON INDEX <name> IS '...'."@, "COMMENT ON INDEX ix_email IS 'lookup index';"@, "sql-comment.html"@))
        .insert("COMMENT ON VIEW"@, keyword_v("COMMENT ON VIEW"@, "COMMENT ON VIEW <name> IS '...'."@, "COMMENT ON VIEW recent_logs IS '24h subset';"@, "sql-comment.html"@))
        .insert("COMMENT ON MATERIALIZED VIEW"@, keyword_v("COMMENT ON MATERIALIZED VIEW"@, "COMMENT ON MATERIALIZED VIEW <name> IS '...'."@, "COMMENT ON MATERIALIZED VIEW mv IS 'precomputed';"@, "sql-comment.html"@))
        .insert("COMMENT ON SEQUENCE"@, keyword_v("COMMENT ON SEQUENCE"@, "COMMENT ON SEQUENCE <name> IS '...'."@, "COMMENT ON SEQUENCE order_id_seq IS 'order PK';"@, "sql-comment.html"@))
        .insert("COMMENT ON TYPE"@, keyword_v("COMMENT ON TYPE"@, "COMMENT ON TYPE <name> IS '...'."@, "COMMENT ON TYPE status IS 'order lifecycle';"@, "sql-comment.html"@))
        .insert("COMMENT ON DOMAIN"@, keyword_v("COMMENT ON DOMAIN"@, "COMMENT ON DOMAIN <name> IS '...'."@, "COMMENT ON DOMAIN email_t IS 'RFC5322 email';"@, "sql-comment.html"@))
        .insert("COMMENT ON EXTENSION"@, keyword_v("COMMENT ON EXTENSION"@, "COMMENT ON EXTENSION <name> IS '...'."@, "COMMENT ON EXTENSION pgcrypto IS 'hash + cipher';"@, "sql-comment.html"@))
        .insert("COMMENT ON ROLE"@, keyword_v("COMMENT ON ROLE"@, "COMMENT ON ROLE <name> IS '...'."@, "COMMENT ON ROLE admins IS 'sysadmins';"@, "sql-comment.html"@))
        .insert("COMMENT ON TRIGGER"@, keyword_v("COMMENT ON TRIGGER"@, "COMMENT ON TRIGGER <name> ON <table> IS '...'."@, "COMMENT ON TRIGGER trg ON users IS 'updates set';"@, "sql-comment.html"@))
        .insert("COMMENT ON CONSTRAINT"@, keyword_v("COMMENT ON CONSTRAINT"@, "COMMENT ON CONSTRAINT <name> ON <table> IS '...'."@, "COMMENT ON CONSTRAINT fk_x ON t IS 'links to users';"@, "sql-comment.html"@))
        .insert("COMMENT ON POLICY"@, keyword_v("COMMENT ON POLICY"@, "COMMENT ON POLICY <name> ON <table> IS '...'."@, "COMMENT ON POLICY p ON users IS 'tenant filter';"@, "sql-comment.html"@))
        .insert("DROP DATABASE"@, keyword_v("DROP DATABASE"@, "DROP DATABASE [IF EXISTS] <name> -- destroy a database."@, "DROP DATABASE staging;"@, "sql-dropdatabase.html"@))
        .insert("DROP SCHEMA"@, keyword_v("DROP SCHEMA"@, "DROP SCHEMA [IF EXISTS] <name>[, ...] [CASCADE|RESTRICT]."@, "DROP SCHEMA temp CASCADE;"@, "sql-dropschema.html"@))
        .insert("DROP ROLE"@, keyword_v("DROP ROLE"@, "DROP ROLE [IF EXISTS] <name>[, ...]."@, "DROP ROLE bob;"@, "sql-droprole.html"@))
        .insert("DROP USER"@, keyword_v("DROP USER"@, "DROP USER [IF EXISTS] <name>[, ...] -- alias for DROP ROLE."@, "DROP USER bob;"@, "sql-dropuser.html"@))
        .insert("DROP GROUP"@, keyword_v("DROP GROUP"@, "DROP GROUP [IF EXISTS] <name>[, ...] -- alias for DROP ROLE."@, "DROP GROUP admins;"@, "sql-dropgroup.html"@))
        .insert("DROP TABLESPACE"@, keyword_v("DROP TABLESPACE"@, "DROP TABLESPACE [IF EXISTS] <name>."@, "DROP TABLESPACE archive;"@, "sql-droptablespace.html"@))
        .insert("DROP EXTENSION"@, keyword_v("DROP EXTENSION"@, "DROP EXTENSION [IF EXISTS] <name>[, ...] [CASCADE]."@, "DROP EXTENSION pgcrypto;"@, "sql-dropextension.html"@))
        .insert("DROP PUBLICATION"@, keyword_v("DROP PUBLICATION"@, "DROP PUBLICATION [IF EXISTS] <name>."@, "DROP PUBLICATION pub1;"@, "sql-droppublication.html"@))
        .insert("DROP SUBSCRIPTION"@, keyword_v("DROP SUBSCRIPTION"@, "DROP SUBSCRIPTION [IF EXISTS] <name>."@, "DROP SUBSCRIPTION sub1;"@, "sql-dropsubscription.html"@))
        .insert("DROP SERVER"@, keyword_v("DROP SERVER"@, "DROP SERVER [IF EXISTS] <name> [CASCADE]."@, "DROP SERVER myserv;"@, "sql-dropserver.html"@))
        .insert("DROP TRIGGER"@, keyword_v("DROP TRIGGER"@, "DROP TRIGGER [IF EXISTS] <name> ON <table> [CASCADE]."@, "DROP TRIGGER trg ON users;"@, "sql-droptrigger.html"@))
        .insert("DROP TYPE"@, keyword_v("DROP TYPE"@, "DROP TYPE [IF EXISTS] <name>[, ...] [CASCADE]."@, "DROP TYPE status;"@, "sql-droptype.html"@))
        .insert("DROP DOMAIN"@, keyword_v("DROP DOMAIN"@, "DROP DOMAIN [IF EXISTS] <name>[, ...] [CASCADE]."@, "DROP DOMAIN email_t;"@, "sql-dropdomain.html"@))
        .insert("DROP POLICY"@, keyword_v("DROP POLICY"@, "DROP POLICY [IF EXISTS] <name> ON <table>."@, "DROP POLICY p ON users;"@, "sql-droppolicy.html"@))
        .insert("CREATE DATABASE"@, keyword_v("CREATE DATABASE"@, "CREATE DATABASE <name> [OWNER <r>] [TEMPLATE <t>] [ENCODING '<enc>'] [LOCALE '<loc>'] [TABLESPACE <ts>] [CONNECTION LIMIT <n>] [...]."@, "CREATE DATABASE mydb OWNER alice;"@, "sql-createdatabase.html"@))
        .insert("CREATE SCHEMA"@, keyword_v("CREATE SCHEMA"@, "CREATE SCHEMA [IF NOT EXISTS] <name> [AUTHORIZATION <role>] [<schema_element> ...]."@, "CREATE SCHEMA app AUTHORIZATION admins;"@, "sql-createschema.html"@))
        .insert("CREATE ROLE"@, keyword_v("CREATE ROLE"@, "CREATE ROLE <name> [WITH <attr> ...] -- new role."@, "CREATE ROLE alice LOGIN PASSWORD '...';"@, "sql-createrole.html"@))
        .insert("CREATE USER"@, keyword_v("CREATE USER"@, "CREATE USER <name> [WITH <attr> ...] -- alias for CREATE ROLE ... LOGIN."@, "CREATE USER alice PASSWORD '...';"@, "sql-createuser.html"@))
        .insert("CREATE GROUP"@, keyword_v("CREATE GROUP"@, "CREATE GROUP <name> [WITH <attr> ...] -- alias for CREATE ROLE ... NOLOGIN."@, "CREATE GROUP admins;"@, "sql-creategroup.html"@))
        .insert("CREATE TABLESPACE"@, keyword_v("CREATE TABLESPACE"@, "CREATE TABLESPACE <name> [OWNER <role>] LOCATION '<dir>' [WITH (...)]."@, "CREATE TABLESPACE archive LOCATION '/mnt/cold';"@, "sql-createtablespace.html"@))
        .insert("CREATE EXTENSION"@, keyword_v("CREATE EXTENSION"@, "CREATE EXTENSION [IF NOT EXISTS] <name> [WITH] [SCHEMA <s>] [VERSION '<v>'] [CASCADE]."@, "CREATE EXTENSION pgcrypto;"@, "sql-createextension.html"@))
        .insert("CREATE PUBLICATION"@, keyword_v("CREATE PUBLICATION"@, "CREATE PUBLICATION <name> [FOR ALL TABLES | FOR TABLE <t>[, ...] | FOR TABLES IN SCHEMA <s>] [WITH (publish = '...')]."@, "CREATE PUBLICATION p FOR ALL TABLES;"@, "sql-createpublication.html"@))
        .insert("CREATE SUBSCRIPTION"@, keyword_v("CREATE SUBSCRIPTION"@, "CREATE SUBSCRIPTION <name> CONNECTION '<conn>' PUBLICATION <pub>[, ...] [WITH (...)]."@, "CREATE SUBSCRIPTION s CONNECTION 'host=... dbname=...' PUBLICATION p;"@, "sql-createsubscription.html"@))
        .insert("CREATE SERVER"@, keyword_v("CREATE SERVER"@, "CREATE SERVER [IF NOT EXISTS] <name> [TYPE '<t>'] [VERSION '<v>'] FOREIGN DATA WRAPPER <fdw> OPTIONS (...)."@, "CREATE SERVER s FOREIGN DATA WRAPPER postgres_fdw OPTIONS (host 'h');"@, "sql-createserver.html"@))
        .insert("CREATE TRIGGER"@, keyword_v("CREATE TRIGGER"@, "CREATE TRIGGER <name> {BEFORE|AFTER|INSTEAD OF} <event> ON <table> [FOR EACH {ROW|STATEMENT}] EXECUTE FUNCTION <fn>()."@, "CREATE TRIGGER trg BEFORE UPDATE ON users FOR EACH ROW EXECUTE FUNCTION upd();"@, "sql-createtrigger.html"@))
        .insert("CREATE TYPE"@, keyword_v("CREATE TYPE"@, "CREATE TYPE <name> AS (...) | AS ENUM (...) | AS RANGE (...) | (INPUT = ..., OUTPUT = ...)."@, "CREATE TYPE status AS ENUM ('open','closed');"@, "sql-createtype.html"@))
        .insert("CREATE DOMAIN"@, keyword_v("CREATE DOMAIN"@, "CREATE DOMAIN <name> [AS] <base_type> [DEFAULT <expr>] [<constraint>...]."@, "CREATE DOMAIN email_t AS TEXT CHECK (VALUE ~ '@');"@, "sql-createdomain.html"@))
        .insert("CREATE POLICY"@, keyword_v("CREATE POLICY"@, "CREATE POLICY <name> ON <table> [FOR <cmd>] [TO <role>] [USING (...)] [WITH CHECK (...)]."@, "CREATE POLICY p ON t FOR SELECT TO public USING (user_id = current_user_id());"@, "sql-createpolicy.html"@))
        .insert("CREATE FUNCTION"@, keyword_v("CREATE FUNCTION"@, "CREATE FUNCTION <name>(<args>) RETURNS <rettype> AS $$ ... $$ LANGUAGE ...;"@, "CREATE FUNCTION add(int, int) RETURNS int AS $$ SELECT $1+$2 $$ LANGUAGE SQL;"@, "sql-createfunction.html"@))
        .insert("CREATE PROCEDURE"@, keyword_v("CREATE PROCEDURE"@, "CREATE PROCEDURE <name>(<args>) AS $$ ... $$ LANGUAGE plpgsql;"@, "CREATE PROCEDURE up() AS $$ BEGIN ... END; $$ LANGUAGE plpgsql;"@, "sql-createprocedure.html"@))
        .insert("CREATE SEQUENCE"@, keyword_v("CREATE SEQUENCE"@, "CREATE SEQUENCE [IF NOT EXISTS] <name> [AS smallint|integer|bigint] [INCREMENT BY <n>] [MINVALUE <n>] [MAXVALUE <n>] [START WITH <n>] [CACHE <n>] [CYCLE|NO CYCLE] [OWNED BY <tbl>.<col>|NONE]."@, "CREATE SEQUENCE s START 100;"@, "sql-createsequence.html"@))
        .insert("CREATE RULE"@, keyword_v("CREATE RULE"@, "CREATE [OR REPLACE] RULE <name> AS ON <event> TO <table> [WHERE <expr>] DO {ALSO|INSTEAD} {NOTHING|<cmd>}."@, "CREATE RULE r AS ON SELECT TO v DO INSTEAD SELECT 1;"@, "sql-createrule.html"@))
}

spec fn keyword_part_16(m: Map<Seq<char>, EntryV>) -> Map<Seq<char>, EntryV> {
    m
        .insert("CREATE CAST"@, keyword_v("CREATE CAST"@, "CREATE CAST (src AS dst) {WITH FUNCTION <fn>(args) | WITHOUT FUNCTION | WITH INOUT} [AS ASSIGNMENT | AS IMPLICIT]."@, "CREATE CAST (text AS my_t) WITH FUNCTION my_in;"@, "sql-createcast.html"@))
        .insert("CREATE LANGUAGE"@, keyword_v("CREATE LANGUAGE"@, "CREATE [OR REPLACE] [TRUSTED] [PROCEDURAL] LANGUAGE <name> HANDLER <fn> [INLINE <fn>] [VALIDATOR <fn>]."@, "CREATE LANGUAGE plpython3u;"@, "sql-createlanguage.html"@))
        .insert("CREATE OPERATOR"@, keyword_v("CREATE OPERATOR"@, "CREATE OPERATOR <op> (FUNCTION = <fn>, LEFTARG = <type>, RIGHTARG = <type>, ...)."@, "CREATE OPERATOR === (FUNCTION = my_eq, LEFTARG = my_t, RIGHTARG = my_t);"@, "sql-createoperator.html"@))
        .insert("CREATE AGGREGATE"@, keyword_v("CREATE AGGREGATE"@, "CREATE AGGREGATE <name>(<arg_types>) (SFUNC = ..., STYPE = ..., ...)."@, "CREATE AGGREGATE sum_ints(int) (SFUNC = int4pl, STYPE = int);"@, "sql-createaggregate.html"@))
        .insert("CREATE CONVERSION"@, keyword_v("CREATE CONVERSION"@, "CREATE [DEFAULT] CONVERSION <name> FOR '<src>' TO '<dst>' FROM <fn>."@, "CREATE CONVERSION my_conv FOR 'UTF8' TO 'LATIN1' FROM utf8_to_latin1;"@, "sql-createconversion.html"@))
        .insert("CREATE COLLATION"@, keyword_v("CREATE COLLATION"@, "CREATE COLLATION [IF NOT EXISTS] <name> (LOCALE = '<loc>' | LC_COLLATE = '<lc>', LC_CTYPE = '<lc>', ...)."@, "CREATE COLLATION fr_FR (LOCALE = 'fr_FR.UTF-8');"@, "sql-createcollation.html"@))
        .insert("CREATE TRANSFORM"@, keyword_v("CREATE TRANSFORM"@, "CREATE TRANSFORM FOR <type> LANGUAGE <lang> (FROM SQL WITH FUNCTION <fn>, TO SQL WITH FUNCTION <fn>)."@, "CREATE TRANSFORM FOR hstore LANGUAGE plpython3u (...);"@, "sql-createtransform.html"@))
        .insert("CREATE STATISTICS"@, keyword_v("CREATE STATISTICS"@, "CREATE STATISTICS [IF NOT EXISTS] <name> [(<kind>[, ...])] ON <col>[, ...] FROM <table>."@, "CREATE STATISTICS s (dependencies) ON a, b FROM t;"@, "sql-createstatistics.html"@))
        .insert("CREATE FOREIGN DATA WRAPPER"@, keyword_v("CREATE FOREIGN DATA WRAPPER"@, "CREATE FOREIGN DATA WRAPPER <name> [HANDLER <fn>] [VALIDATOR <fn>] [OPTIONS (...)]."@, "CREATE FOREIGN DATA WRAPPER pg_fdw HANDLER pg_fdw_handler;"@, "sql-createforeigndatawrapper.html"@))
        .insert("CREATE USER MAPPING"@, keyword_v("CREATE USER MAPPING"@, "CREATE USER MAPPING [IF NOT EXISTS] FOR <role> SERVER <srv> OPTIONS (...)."@, "CREATE USER MAPPING FOR alice SERVER s OPTIONS (user 'a');"@, "sql-createusermapping.html"@))
        .insert("CREATE TEXT SEARCH CONFIGURATION"@, keyword_v("CREATE TEXT SEARCH CONFIGURATION"@, "CREATE TEXT SEARCH CONFIGURATION <name> (PARSER = <parser>) -- or COPY = <existing>."@, "CREATE TEXT SEARCH CONFIGURATION my (PARSER = default);"@, "sql-createtextsearchconfiguration.html"@))
        .insert("CREATE TEXT SEARCH DICTIONARY"@, keyword_v("CREATE TEXT SEARCH DICTIONARY"@, "CREATE TEXT SEARCH DICTIONARY <name> (TEMPLATE = <template>, ...)."@, "CREATE TEXT SEARCH DICTIONARY simple_d (TEMPLATE = simple);"@, "sql-createtextsearchdictionary.html"@))
        .insert("CREATE TEXT SEARCH PARSER"@, keyword_v("CREATE TEXT SEARCH PARSER"@, "CREATE TEXT SEARCH PARSER <name> (START = <fn>, GETTOKEN = <fn>, END = <fn>, LEXTYPES = <fn>)."@, "CREATE TEXT SEARCH PARSER my_p (...);"@, "sql-createtextsearchparser.html"@))
        .insert("CREATE TEXT SEARCH TEMPLATE"@, keyword_v("CREATE TEXT SEARCH TEMPLATE"@, "CREATE TEXT SEARCH TEMPLATE <name> (INIT = <fn>, LEXIZE = <fn>)."@, "CREATE TEXT SEARCH TEMPLATE my_t (INIT = ..., LEXIZE = ...);"@, "sql-createtextsearchtemplate.html"@))
        .insert("ALTER FUNCTION"@, keyword_v("ALTER FUNCTION"@, "ALTER FUNCTION <name>(args) ... -- rename / owner / schema / cost / rows / volatility / strict / parallel / leakproof / depends."@, "ALTER FUNCTION fn(int) RENAME TO new_fn;"@, "sql-alterfunction.html"@))
        .insert("ALTER PROCEDURE"@, keyword_v("ALTER PROCEDURE"@, "ALTER PROCEDURE <name>(args) ... -- rename / owner / schema / strict."@, "ALTER PROCEDURE up() OWNER TO admins;"@, "sql-alterprocedure.html"@))
        .insert("ALTER ROUTINE"@, keyword_v("ALTER ROUTINE"@, "ALTER ROUTINE <name>(args) ... -- works for both FUNCTION and PROCEDURE."@, "ALTER ROUTINE fn(int) RENAME TO new_fn;"@, "sql-alterroutine.html"@))
        .insert("ALTER INDEX"@, keyword_v("ALTER INDEX"@, "ALTER INDEX <name> ... -- rename / owner / set tablespace / attach partition / set (...) / reset (...)."@, "ALTER INDEX ix RENAME TO ix2;"@, "sql-alterindex.html"@))
        .insert("ALTER VIEW"@, keyword_v("ALTER VIEW"@, "ALTER VIEW <name> ... -- rename / owner / set schema / alter column."@, "ALTER VIEW v RENAME TO v2;"@, "sql-alterview.html"@))
        .insert("ALTER SEQUENCE"@, keyword_v("ALTER SEQUENCE"@, "ALTER SEQUENCE <name> ... -- restart / minvalue / maxvalue / owned by / owner / schema."@, "ALTER SEQUENCE s RESTART WITH 100;"@, "sql-altersequence.html"@))
        .insert("ALTER ROLE"@, keyword_v("ALTER ROLE"@, "ALTER ROLE <name> ... -- attributes / RENAME / OWNER / SET <param>."@, "ALTER ROLE alice CREATEDB;"@, "sql-alterrole.html"@))
        .insert("ALTER USER"@, keyword_v("ALTER USER"@, "ALTER USER <name> ... -- alias for ALTER ROLE."@, "ALTER USER alice WITH PASSWORD '...';"@, "sql-alteruser.html"@))
        .insert("ALTER GROUP"@, keyword_v("ALTER GROUP"@, "ALTER GROUP <name> ... -- alias for ALTER ROLE for group operations."@, "ALTER GROUP admins ADD USER alice;"@, "sql-altergroup.html"@))
        .insert("ALTER DATABASE"@, keyword_v("ALTER DATABASE"@, "ALTER DATABASE <name> ... -- rename / owner / set <param> / set tablespace."@, "ALTER DATABASE mydb SET search_path = 'public';"@, "sql-alterdatabase.html"@))
        .insert("ALTER SCHEMA"@, keyword_v("ALTER SCHEMA"@, "ALTER SCHEMA <name> ... -- rename / owner."@, "ALTER SCHEMA app RENAME TO app2;"@, "sql-alterschema.html"@))
        .insert("ALTER EXTENSION"@, keyword_v("ALTER EXTENSION"@, "ALTER EXTENSION <name> ... -- update [TO version] / set schema / add <member> / drop <member>."@, "ALTER EXTENSION pgcrypto UPDATE;"@, "sql-alterextension.html"@))
        .insert("ALTER TRIGGER"@, keyword_v("ALTER TRIGGER"@, "ALTER TRIGGER <name> ON <table> ... -- RENAME / DEPENDS ON EXTENSION."@, "ALTER TRIGGER trg ON t RENAME TO trg2;"@, "sql-altertrigger.html"@))
        .insert("ALTER FUNCTION IF EXISTS"@, keyword_v("ALTER FUNCTION IF EXISTS"@, "ALTER FUNCTION IF EXISTS <name>(args) ... -- skip silently if missing."@, "ALTER FUNCTION IF EXISTS fn(int) OWNER TO admins;"@, "sql-alterfunction.html"@))
        .insert("ALTER PROCEDURE IF EXISTS"@, keyword_v("ALTER PROCEDURE IF EXISTS"@, "ALTER PROCEDURE IF EXISTS <name>(args) ..."@, "ALTER PROCEDURE IF EXISTS up() OWNER TO admins;"@, "sql-alterprocedure.html"@))
        .insert("ALTER INDEX IF EXISTS"@, keyword_v("ALTER INDEX IF EXISTS"@, "ALTER INDEX IF EXISTS <name> ..."@, "ALTER INDEX IF EXISTS ix RENAME TO ix2;"@, "sql-alterindex.html"@))
        .insert("ALTER MATERIALIZED VIEW IF EXISTS"@, keyword_v("ALTER MATERIALIZED VIEW IF EXISTS"@, "ALTER MATERIALIZED VIEW IF EXISTS <name> ..."@, "ALTER MATERIALIZED VIEW IF EXISTS mv RENAME TO mv2;"@, "sql-altermaterializedview.html"@))
        .insert("ALTER FOREIGN TABLE IF EXISTS"@, keyword_v("ALTER FOREIGN TABLE IF EXISTS"@, "ALTER FOREIGN TABLE IF EXISTS <name> ..."@, "ALTER FOREIGN TABLE IF EXISTS ext OPTIONS (ADD foo 'bar');"@, "sql-alterforeigntable.html"@))
        .insert("ALTER TYPE IF EXISTS"@, keyword_v("ALTER TYPE IF EXISTS"@, "ALTER TYPE IF EXISTS <name> ..."@, "ALTER TYPE IF EXISTS status ADD VALUE 'archived';"@, "sql-altertype.html"@))
        .insert("ALTER DOMAIN IF EXISTS"@, keyword_v("ALTER DOMAIN IF EXISTS"@, "ALTER DOMAIN IF EXISTS <name> ..."@, "ALTER DOMAIN IF EXISTS email_t SET DEFAULT NULL;"@, "sql-alterdomain.html"@))
        .insert("GRANT ALL"@, keyword_v("GRANT ALL"@, "GRANT ALL [PRIVILEGES] ON <target> TO <role> -- shorthand for all relevant privileges."@, "GRANT ALL ON TABLE users TO admins;"@, "sql-grant.html"@))
        .insert("GRANT ALL PRIVILEGES"@, keyword_v("GRANT ALL PRIVILEGES"@, "GRANT ALL PRIVILEGES ON <target> TO <role> -- explicit form of GRANT ALL."@, "GRANT ALL PRIVILEGES ON TABLE users TO admins;"@, "sql-grant.html"@))
        .insert("GRANT SELECT"@, keyword_v("GRANT SELECT"@, "GRANT SELECT ON <table>[, ...] | <view> | <sequence> TO <role>."@, "GRANT SELECT ON users TO readonly;"@, "sql-grant.html"@))
        .insert("GRANT INSERT"@, keyword_v("GRANT INSERT"@, "GRANT INSERT ON <table>[, ...] TO <role>."@, "GRANT INSERT ON users TO app;"@, "sql-grant.html"@))
        .insert("GRANT UPDATE"@, keyword_v("GRANT UPDATE"@, "GRANT UPDATE [(col[, ...])] ON <table> TO <role>."@, "GRANT UPDATE (email) ON users TO app;"@, "sql-grant.html"@))
        .insert("GRANT DELETE"@, keyword_v("GRANT DELETE"@, "GRANT DELETE ON <table>[, ...] TO <role>."@, "GRANT DELETE ON staging TO app;"@, "sql-grant.html"@))
        .insert("GRANT TRUNCATE"@, keyword_v("GRANT TRUNCATE"@, "GRANT TRUNCATE ON <table>[, ...] TO <role>."@, "GRANT TRUNCATE ON staging TO app;"@, "sql-grant.html"@))
        .insert("GRANT REFERENCES"@, keyword_v("GRANT REFERENCES"@, "GRANT REFERENCES [(col[, ...])] ON <table> TO <role> -- allow FK creation."@, "GRANT REFERENCES ON users TO app;"@, "sql-grant.html"@))
        .insert("GRANT TRIGGER"@, keyword_v("GRANT TRIGGER"@, "GRANT TRIGGER ON <table>[, ...] TO <role> -- allow CREATE TRIGGER on the table."@, "GRANT TRIGGER ON users TO app;"@, "sql-grant.html"@))
        .insert("GRANT USAGE"@, keyword_v("GRANT USAGE"@, "GRANT USAGE ON SCHEMA / SEQUENCE / LANGUAGE / TYPE TO <role>."@, "GRANT USAGE ON SCHEMA public TO app;"@, "sql-grant.html"@))
        .insert("GRANT EXECUTE"@, keyword_v("GRANT EXECUTE"@, "GRANT EXECUTE ON FUNCTION / PROCEDURE / ROUTINE TO <role>."@, "GRANT EXECUTE ON FUNCTION add(int, int) TO app;"@, "sql-grant.html"@))
        .insert("GRANT CONNECT"@, keyword_v("GRANT CONNECT"@, "GRANT CONNECT ON DATABASE <name> TO <role>."@, "GRANT CONNECT ON DATABASE mydb TO app;"@, "sql-grant.html"@))
        .insert("GRANT TEMPORARY"@, keyword_v("GRANT TEMPORARY"@, "GRANT TEMPORARY ON DATABASE <name> TO <role> -- allow creating temp tables."@, "GRANT TEMPORARY ON DATABASE mydb TO app;"@, "sql-grant.html"@))
        .insert("GRANT CREATE"@, keyword_v("GRANT CREATE"@, "GRANT CREATE ON DATABASE / SCHEMA / TABLESPACE TO <role>."@, "GRANT CREATE ON DATABASE mydb TO app;"@, "sql-grant.html"@))
        .insert("GRANT MAINTAIN"@, keyword_v("GRANT MAINTAIN"@, "GRANT MAINTAIN ON <table> TO <role> -- run VACUUM/ANALYZE/CLUSTER/REINDEX/LOCK (PG17+)."@, "GRANT MAINTAIN ON ALL TABLES IN SCHEMA public TO admins;"@, "sql-grant.html"@))
        .insert("REVOKE ALL"@, keyword_v("REVOKE ALL"@, "REVOKE ALL [PRIVILEGES] ON <target> FROM <role>."@, "REVOKE ALL ON TABLE users FROM bob;"@, "sql-revoke.html"@))
        .insert("REVOKE ALL PRIVILEGES"@, keyword_v("REVOKE ALL PRIVILEGES"@, "REVOKE ALL PRIVILEGES ON <target> FROM <role>."@, "REVOKE ALL PRIVILEGES ON TABLE users FROM bob;"@, "sql-revoke.html"@))
        .insert("REVOKE SELECT"@, keyword_v("REVOKE SELECT"@, "REVOKE SELECT ON <target> FROM <role>."@, "REVOKE SELECT ON users FROM bob;"@, "sql-revoke.html"@))
        .insert("REVOKE INSERT"@, keyword_v("REVOKE INSERT"@, "REVOKE INSERT ON <target> FROM <role>."@, "REVOKE INSERT ON users FROM bob;"@, "sql-revoke.html"@))
        .insert("REVOKE UPDATE"@, keyword_v("REVOKE UPDATE"@, "REVOKE UPDATE [(col[, ...])] ON <target> FROM <role>."@, "REVOKE UPDATE (email) ON users FROM bob;"@, "sql-revoke.html"@))
        .insert("REVOKE DELETE"@, keyword_v("REVOKE DELETE"@, "REVOKE DELETE ON <target> FROM <role>."@, "REVOKE DELETE ON users FROM bob;"@, "sql-revoke.html"@))
        .insert("REVOKE USAGE"@, keyword_v("REVOKE USAGE"@, "REVOKE USAGE ON <target> FROM <role>."@, "REVOKE USAGE ON SCHEMA public FROM bob;"@, "sql-revoke.html"@))
        .insert("REVOKE EXECUTE"@, keyword_v("REVOKE EXECUTE"@, "REVOKE EXECUTE ON FUNCTION / PROCEDURE FROM <role>."@, "REVOKE EXECUTE ON FUNCTION add(int, int) FROM bob;"@, "sql-revoke.html"@))
        .insert("REVOKE GRANT OPTION FOR"@, keyword_v("REVOKE GRANT OPTION FOR"@, "REVOKE GRANT OPTION FOR <priv> ON <target> FROM <role> -- revoke ability to re-grant."@, "REVOKE GRANT OPTION FOR SELECT ON users FROM bob;"@, "sql-revoke.html"@))
        .insert("REVOKE ADMIN OPTION FOR"@, keyword_v("REVOKE ADMIN OPTION FOR"@, "REVOKE ADMIN OPTION FOR <role> FROM <member> -- revoke ability to add members."@, "REVOKE ADMIN OPTION FOR admins FROM alice;"@, "sql-revoke.html"@))
        .insert("FROM ONLY"@, keyword_v("FROM ONLY"@, "SELECT/UPDATE/DELETE ... FROM ONLY <parent> -- skip inherited child tables."@, "DELETE FROM ONLY parent WHERE id = 1;"@, "ddl-inherit.html"@))
        .insert("FULL JOIN"@, keyword_v("FULL JOIN"@, "FULL JOIN <table> ON <pred> -- FULL OUTER JOIN."@, "SELECT * FROM a FULL JOIN b ON a.id = b.id;"@, "queries-table-expressions.html#QUERIES-FROM"@))
        .insert("LEFT OUTER JOIN"@, keyword_v("LEFT OUTER JOIN"@, "Same as LEFT JOIN -- explicit OUTER form."@, "SELECT * FROM a LEFT OUTER JOIN b ON a.id = b.id;"@, "queries-table-expressions.html"@))
        .insert("RIGHT OUTER JOIN"@, keyword_v("RIGHT OUTER JOIN"@, "Same as RIGHT JOIN -- explicit OUTER form."@, "SELECT * FROM a RIGHT OUTER JOIN b ON a.id = b.id;"@, "queries-table-expressions.html"@))
        .insert("NATURAL JOIN"@, keyword_v("NATURAL JOIN"@, "NATURAL [INNER|LEFT|RIGHT|FULL] JOIN <table> -- auto-join on common column names. Brittle."@, "SELECT * FROM a NATURAL JOIN b;"@, "queries-table-expressions.html"@))
        .insert("NATURAL INNER JOIN"@, keyword_v("NATURAL INNER JOIN"@, "NATURAL INNER JOIN <table> -- explicit form of NATURAL JOIN."@, "SELECT * FROM a NATURAL INNER JOIN b;"@, "queries-table-expressions.html"@))
        .insert("JOIN LATERAL"@, keyword_v("JOIN LATERAL"@, "JOIN LATERAL (subq) ON true -- per-row correlated subquery."@, "SELECT * FROM users u JOIN LATERAL (SELECT * FROM orders WHERE user_id = u.id LIMIT 5) o ON true;"@, "queries-table-expressions.html#QUERIES-LATERAL"@))
        .insert("LEFT JOIN LATERAL"@, keyword_v("LEFT JOIN LATERAL"@, "LEFT JOIN LATERAL (subq) ON true -- correlated subquery without filtering null rows."@, "SELECT * FROM users u LEFT JOIN LATERAL (SELECT * FROM orders WHERE user_id = u.id LIMIT 1) o ON true;"@, "queries-table-expressions.html#QUERIES-LATERAL"@))
        .insert("INNER JOIN LATERAL"@, keyword_v("INNER JOIN LATERAL"@, "INNER JOIN LATERAL (subq) ON true -- correlated subquery, inner-join filter on rows."@, "FROM users u INNER JOIN LATERAL fn(u.id) ON true"@, "queries-table-expressions.html#QUERIES-LATERAL"@))
        .insert("CROSS JOIN LATERAL"@, keyword_v("CROSS JOIN LATERAL"@, "FROM ... CROSS JOIN LATERAL (subq) -- per-row correlated subquery without ON."@, "FROM users u CROSS JOIN LATERAL fn(u.id)"@, "queries-table-expressions.html#QUERIES-LATERAL"@))
        .insert("JOIN ON"@, keyword_v("JOIN ON"@, "JOIN ... ON <pred> -- explicit join condition."@, "SELECT * FROM a JOIN b ON a.id = b.id;"@, "queries-table-expressions.html"@))
        .insert("JOIN USING"@, keyword_v("JOIN USING"@, "JOIN ... USING (col[, ...]) -- common column equality."@, "SELECT * FROM a JOIN b USING (id);"@, "queries-table-expressions.html"@))
        .insert("LEFT JOIN ON"@, keyword_v("LEFT JOIN ON"@, "LEFT JOIN ... ON <pred>."@, "SELECT * FROM a LEFT JOIN b ON a.id = b.id;"@, "queries-table-expressions.html"@))
        .insert("INNER JOIN ON"@, keyword_v("INNER JOIN ON"@, "INNER JOIN ... ON <pred>."@, "SELECT * FROM a INNER JOIN b ON a.id = b.id;"@, "queries-table-expressions.html"@))
        .insert("LEFT JOIN USING"@, keyword_v("LEFT JOIN USING"@, "LEFT JOIN ... USING (col[, ...])."@, "SELECT * FROM a LEFT JOIN b USING (id);"@, "queries-table-expressions.html"@))
        .insert("INNER JOIN USING"@, keyword_v("INNER JOIN USING"@, "INNER JOIN ... USING (col[, ...])."@, "SELECT * FROM a INNER JOIN b USING (id);"@, "queries-table-expressions.html"@))
}

spec fn keyword_part_17(m: Map<Seq<char>, EntryV>) -> Map<Seq<char>, EntryV> {
    m
        .insert("DELETE FROM ONLY"@, keyword_v("DELETE FROM ONLY"@, "DELETE FROM ONLY <parent> -- skip child tables in inheritance."@, "DELETE FROM ONLY parent WHERE id = 1;"@, "sql-delete.html"@))
        .insert("UPDATE ONLY"@, keyword_v("UPDATE ONLY"@, "UPDATE ONLY <parent> SET ... -- skip child tables."@, "UPDATE ONLY parent SET x = 1 WHERE id = 1;"@, "sql-update.html"@))
        .insert("TRUNCATE ONLY"@, keyword_v("TRUNCATE ONLY"@, "TRUNCATE ONLY <parent> -- skip child tables."@, "TRUNCATE ONLY parent;"@, "sql-truncate.html"@))
        .insert("MERGE INTO"@, keyword_v("MERGE INTO"@, "MERGE INTO <target> USING <source> ON <pred> WHEN ... THEN ... -- SQL standard upsert."@, "MERGE INTO users u USING staging s ON s.id = u.id WHEN MATCHED THEN UPDATE SET email = s.email;"@, "sql-merge.html"@))
        .insert("USING TABLE"@, keyword_v("USING TABLE"@, "MERGE INTO ... USING <table> ON ... -- source is a table."@, "MERGE INTO users USING staging ON staging.id = users.id ..."@, "sql-merge.html"@))
        .insert("USING SELECT"@, keyword_v("USING SELECT"@, "MERGE INTO ... USING (SELECT ...) <alias> ON ... -- source is a subquery."@, "MERGE INTO t USING (SELECT * FROM s) src ON src.id = t.id ..."@, "sql-merge.html"@))
        .insert("WHEN MATCHED"@, keyword_v("WHEN MATCHED"@, "MERGE ... WHEN MATCHED [AND <expr>] THEN { UPDATE SET ... | DELETE | DO NOTHING }."@, "WHEN MATCHED THEN UPDATE SET ..."@, "sql-merge.html"@))
        .insert("WHEN NOT MATCHED"@, keyword_v("WHEN NOT MATCHED"@, "MERGE ... WHEN NOT MATCHED [AND <expr>] THEN { INSERT ... | DO NOTHING }."@, "WHEN NOT MATCHED THEN INSERT (id) VALUES (s.id);"@, "sql-merge.html"@))
        .insert("WHEN MATCHED THEN"@, keyword_v("WHEN MATCHED THEN"@, "Same as WHEN MATCHED -- THEN introduces the action."@, "WHEN MATCHED THEN UPDATE SET ..."@, "sql-merge.html"@))
        .insert("WHEN NOT MATCHED THEN"@, keyword_v("WHEN NOT MATCHED THEN"@, "Same as WHEN NOT MATCHED -- THEN introduces the action."@, "WHEN NOT MATCHED THEN INSERT ..."@, "sql-merge.html"@))
        .insert("WHEN MATCHED AND"@, keyword_v("WHEN MATCHED AND"@, "WHEN MATCHED AND <pred> THEN <action> -- conditional MERGE branch."@, "WHEN MATCHED AND s.deleted_at IS NOT NULL THEN DELETE"@, "sql-merge.html"@))
        .insert("WHEN NOT MATCHED AND"@, keyword_v("WHEN NOT MATCHED AND"@, "WHEN NOT MATCHED AND <pred> THEN <action> -- conditional MERGE branch."@, "WHEN NOT MATCHED AND s.is_active THEN INSERT (id) VALUES (s.id)"@, "sql-merge.html"@))
        .insert("DO UPDATE SET"@, keyword_v("DO UPDATE SET"@, "ON CONFLICT ... DO UPDATE SET <col> = <val>[, ...]."@, "ON CONFLICT (email) DO UPDATE SET updated_at = excluded.updated_at;"@, "sql-insert.html"@))
        .insert("ON CONFLICT DO NOTHING"@, keyword_v("ON CONFLICT DO NOTHING"@, "INSERT ... ON CONFLICT DO NOTHING -- skip conflicting rows."@, "INSERT INTO t VALUES (...) ON CONFLICT DO NOTHING;"@, "sql-insert.html"@))
        .insert("ON CONFLICT DO UPDATE"@, keyword_v("ON CONFLICT DO UPDATE"@, "INSERT ... ON CONFLICT [...] DO UPDATE SET ... -- classic upsert."@, "INSERT INTO t (id, name) VALUES (1, 'a') ON CONFLICT (id) DO UPDATE SET name = excluded.name;"@, "sql-insert.html"@))
        .insert("ON CONFLICT DO UPDATE SET"@, keyword_v("ON CONFLICT DO UPDATE SET"@, "Same as ON CONFLICT DO UPDATE -- SET introduces assignments."@, "ON CONFLICT (id) DO UPDATE SET name = excluded.name;"@, "sql-insert.html"@))
        .insert("WHEN NOT MATCHED BY SOURCE"@, keyword_v("WHEN NOT MATCHED BY SOURCE"@, "MERGE ... WHEN NOT MATCHED BY SOURCE -- PG17+: target rows without a source match."@, "WHEN NOT MATCHED BY SOURCE THEN DELETE"@, "sql-merge.html"@))
        .insert("WHEN NOT MATCHED BY TARGET"@, keyword_v("WHEN NOT MATCHED BY TARGET"@, "MERGE ... WHEN NOT MATCHED BY TARGET (alias for default WHEN NOT MATCHED)."@, "WHEN NOT MATCHED BY TARGET THEN INSERT (id) VALUES (s.id)"@, "sql-merge.html"@))
        .insert("ON CONFLICT ON CONSTRAINT"@, keyword_v("ON CONFLICT ON CONSTRAINT"@, "INSERT ... ON CONFLICT ON CONSTRAINT <name> DO ... -- target a specific named constraint."@, "ON CONFLICT ON CONSTRAINT uq_email DO UPDATE SET ..."@, "sql-insert.html"@))
        .insert("RETURNING ALL"@, keyword_v("RETURNING ALL"@, "INSERT/UPDATE/DELETE/MERGE ... RETURNING * -- conventional shorthand for all cols."@, "INSERT INTO t VALUES (...) RETURNING *;"@, "sql-insert.html"@))
        .insert("RETURNING OLD"@, keyword_v("RETURNING OLD"@, "PG18+ RETURNING OLD.<col> / NEW.<col>: see pre- and post-image of the row touched by UPDATE/DELETE/MERGE. The OLD/NEW aliases must be qualified."@, "UPDATE t SET v = v + 1 WHERE id = 1 RETURNING OLD.v, NEW.v;"@, "sql-update.html"@))
        .insert("RETURNING NEW"@, keyword_v("RETURNING NEW"@, "PG18+ RETURNING NEW.<col>: the post-image of the row. Combine with RETURNING OLD to see the diff."@, "UPDATE t SET v = v + 1 RETURNING NEW.v AS new_v, OLD.v AS old_v;"@, "sql-update.html"@))
        .insert("OLD."@, keyword_v("OLD."@, "RETURNING OLD.<col>: row image before the UPDATE/DELETE/MERGE action (PG18+)."@, "UPDATE t SET v = v + 1 RETURNING OLD.v;"@, "sql-update.html"@))
        .insert("NEW."@, keyword_v("NEW."@, "RETURNING NEW.<col>: row image after the UPDATE/INSERT/MERGE action (PG18+)."@, "UPDATE t SET v = v + 1 RETURNING NEW.v;"@, "sql-update.html"@))
        .insert("GENERATED ALWAYS AS VIRTUAL"@, keyword_v("GENERATED ALWAYS AS VIRTUAL"@, "PG18+ virtual generated column -- computed on read, no storage. Default for GENERATED ALWAYS AS unless STORED is specified."@, "CREATE TABLE t (a int, b int GENERATED ALWAYS AS (a * 2) VIRTUAL);"@, "ddl-generated-columns.html"@))
        .insert("VIRTUAL"@, keyword_v("VIRTUAL"@, "PG18+ generated-column storage class: computed on read, no disk footprint. Counterpart of STORED."@, "GENERATED ALWAYS AS (...) VIRTUAL"@, "ddl-generated-columns.html"@))
        .insert("MAINTAIN"@, keyword_v("MAINTAIN"@, "PG17+ table privilege granting VACUUM/ANALYZE/REINDEX/REFRESH MATERIALIZED VIEW/CLUSTER/LOCK TABLE without ownership. Useful for monitoring/cron roles."@, "GRANT MAINTAIN ON TABLE users TO monitor_role;"@, "ddl-priv.html"@))
        .insert("EXPLAIN SERIALIZE"@, keyword_v("EXPLAIN SERIALIZE"@, "PG17+ EXPLAIN (ANALYZE, SERIALIZE) -- measure cost of serializing the result to the wire format (binary or text)."@, "EXPLAIN (ANALYZE, SERIALIZE) SELECT * FROM big_table;"@, "sql-explain.html"@))
        .insert("SERIALIZE binary"@, keyword_v("SERIALIZE binary"@, "EXPLAIN (SERIALIZE binary) -- account for serialization to BINARY wire format."@, "EXPLAIN (ANALYZE, SERIALIZE binary) SELECT ...;"@, "sql-explain.html"@))
        .insert("SERIALIZE text"@, keyword_v("SERIALIZE text"@, "EXPLAIN (SERIALIZE text) -- account for serialization to TEXT wire format."@, "EXPLAIN (ANALYZE, SERIALIZE text) SELECT ...;"@, "sql-explain.html"@))
        .insert("EXPLAIN MEMORY"@, keyword_v("EXPLAIN MEMORY"@, "PG17+ EXPLAIN (MEMORY) -- report planner / executor memory usage."@, "EXPLAIN (ANALYZE, MEMORY) SELECT ...;"@, "sql-explain.html"@))
        .insert("LARGE OBJECTS IN SCHEMA"@, keyword_v("LARGE OBJECTS IN SCHEMA"@, "GRANT ... ON ALL LARGE OBJECTS IN SCHEMA <schema> -- batch grant across all LOs in a schema (PG17+)."@, "GRANT SELECT ON ALL LARGE OBJECTS IN SCHEMA public TO ro_role;"@, "sql-grant.html"@))
        .insert("ALL LARGE OBJECTS"@, keyword_v("ALL LARGE OBJECTS"@, "GRANT/REVOKE ON ALL LARGE OBJECTS -- bulk LO privilege change."@, "GRANT SELECT ON ALL LARGE OBJECTS TO ro;"@, "sql-grant.html"@))
        .insert("CAST AS"@, keyword_v("CAST AS"@, "CAST(<expr> AS <type>) -- explicit type conversion."@, "SELECT CAST(price AS numeric(10,2)) FROM t;"@, "sql-expressions.html#SQL-SYNTAX-TYPE-CASTS"@))
        .insert("AS DECIMAL"@, keyword_v("AS DECIMAL"@, "CAST(... AS DECIMAL(p, s)) -- alias of NUMERIC."@, "SELECT CAST(x AS DECIMAL(10,2));"@, "datatype-numeric.html"@))
        .insert("AS TEXT"@, keyword_v("AS TEXT"@, "CAST(... AS TEXT) -- to TEXT."@, "SELECT CAST(id AS TEXT);"@, "datatype-character.html"@))
        .insert("AS NUMERIC"@, keyword_v("AS NUMERIC"@, "CAST(... AS NUMERIC(p, s)) -- exact decimal."@, "SELECT CAST(x AS NUMERIC(10,2));"@, "datatype-numeric.html"@))
        .insert("AS INT"@, keyword_v("AS INT"@, "CAST(... AS INT) -- alias of INTEGER."@, "SELECT CAST(price AS INT);"@, "datatype-numeric.html"@))
        .insert("AS BIGINT"@, keyword_v("AS BIGINT"@, "CAST(... AS BIGINT) -- 8-byte signed integer."@, "SELECT CAST(price AS BIGINT);"@, "datatype-numeric.html"@))
        .insert("AS BOOLEAN"@, keyword_v("AS BOOLEAN"@, "CAST(... AS BOOLEAN) -- truthiness conversion."@, "SELECT CAST(flag AS BOOLEAN);"@, "datatype-boolean.html"@))
        .insert("AS JSONB"@, keyword_v("AS JSONB"@, "CAST(... AS JSONB) -- to binary JSON."@, "SELECT CAST(payload AS JSONB);"@, "datatype-json.html"@))
        .insert("AS JSON"@, keyword_v("AS JSON"@, "CAST(... AS JSON) -- to text JSON (rarely needed; prefer JSONB)."@, "SELECT CAST(payload AS JSON);"@, "datatype-json.html"@))
        .insert("AS DATE"@, keyword_v("AS DATE"@, "CAST(... AS DATE) -- strip time component."@, "SELECT CAST(ts AS DATE);"@, "datatype-datetime.html"@))
        .insert("AS TIME"@, keyword_v("AS TIME"@, "CAST(... AS TIME) -- time of day."@, "SELECT CAST(ts AS TIME);"@, "datatype-datetime.html"@))
        .insert("AS TIMESTAMP"@, keyword_v("AS TIMESTAMP"@, "CAST(... AS TIMESTAMP) -- timestamp WITHOUT time zone."@, "SELECT CAST(ts AS TIMESTAMP);"@, "datatype-datetime.html"@))
        .insert("AS TIMESTAMPTZ"@, keyword_v("AS TIMESTAMPTZ"@, "CAST(... AS TIMESTAMPTZ) -- timestamp WITH time zone."@, "SELECT CAST(ts AS TIMESTAMPTZ);"@, "datatype-datetime.html"@))
        .insert("GENERATED ALWAYS AS IDENTITY"@, keyword_v("GENERATED ALWAYS AS IDENTITY"@, "<col> <type> GENERATED ALWAYS AS IDENTITY -- system-generated identity, OVERRIDING SYSTEM VALUE required to override."@, "id int GENERATED ALWAYS AS IDENTITY PRIMARY KEY"@, "sql-createtable.html"@))
        .insert("GENERATED BY DEFAULT AS IDENTITY"@, keyword_v("GENERATED BY DEFAULT AS IDENTITY"@, "<col> <type> GENERATED BY DEFAULT AS IDENTITY -- system-generated identity, user value accepted."@, "id int GENERATED BY DEFAULT AS IDENTITY PRIMARY KEY"@, "sql-createtable.html"@))
        .insert("ASC NULLS FIRST"@, keyword_v("ASC NULLS FIRST"@, "ORDER BY <col> ASC NULLS FIRST -- ascending with NULLs first."@, "SELECT * FROM t ORDER BY id ASC NULLS FIRST;"@, "sql-select.html"@))
        .insert("ASC NULLS LAST"@, keyword_v("ASC NULLS LAST"@, "ORDER BY <col> ASC NULLS LAST -- ascending with NULLs last (default for ASC)."@, "SELECT * FROM t ORDER BY id ASC NULLS LAST;"@, "sql-select.html"@))
        .insert("DESC NULLS FIRST"@, keyword_v("DESC NULLS FIRST"@, "ORDER BY <col> DESC NULLS FIRST -- descending with NULLs first (default for DESC)."@, "SELECT * FROM t ORDER BY id DESC NULLS FIRST;"@, "sql-select.html"@))
        .insert("DESC NULLS LAST"@, keyword_v("DESC NULLS LAST"@, "ORDER BY <col> DESC NULLS LAST -- descending with NULLs last."@, "SELECT * FROM t ORDER BY id DESC NULLS LAST;"@, "sql-select.html"@))
        .insert("ORDER BY ALL"@, keyword_v("ORDER BY ALL"@, "ORDER BY ALL -- non-PG extension (Snowflake/MySQL): order by every output column."@, "-- unsupported in PG"@, "sql-select.html"@))
        .insert("BETWEEN SYMMETRIC"@, keyword_v("BETWEEN SYMMETRIC"@, "<expr> BETWEEN SYMMETRIC <a> AND <b> -- swap a/b if a > b before checking."@, "WHERE age BETWEEN SYMMETRIC 18 AND 65"@, "functions-comparison.html"@))
        .insert("BETWEEN ASYMMETRIC"@, keyword_v("BETWEEN ASYMMETRIC"@, "<expr> BETWEEN ASYMMETRIC <a> AND <b> -- default; refuse if a > b."@, "WHERE age BETWEEN ASYMMETRIC 18 AND 65"@, "functions-comparison.html"@))
        .insert("NOT BETWEEN"@, keyword_v("NOT BETWEEN"@, "<expr> NOT BETWEEN <a> AND <b>."@, "WHERE age NOT BETWEEN 18 AND 65"@, "functions-comparison.html"@))
        .insert("NOT BETWEEN SYMMETRIC"@, keyword_v("NOT BETWEEN SYMMETRIC"@, "<expr> NOT BETWEEN SYMMETRIC <a> AND <b>."@, "WHERE age NOT BETWEEN SYMMETRIC 18 AND 65"@, "functions-comparison.html"@))
        .insert("NOT LIKE"@, keyword_v("NOT LIKE"@, "<expr> NOT LIKE '<pattern>' -- negated LIKE."@, "WHERE email NOT LIKE '%@example.com'"@, "functions-matching.html"@))
        .insert("NOT ILIKE"@, keyword_v("NOT ILIKE"@, "<expr> NOT ILIKE '<pattern>' -- negated case-insensitive LIKE."@, "WHERE email NOT ILIKE '%@example.com'"@, "functions-matching.html"@))
        .insert("NOT SIMILAR TO"@, keyword_v("NOT SIMILAR TO"@, "<expr> NOT SIMILAR TO '<regex>' -- negated SIMILAR TO."@, "WHERE name NOT SIMILAR TO '%(foo|bar)%'"@, "functions-matching.html"@))
        .insert("NOT IN"@, keyword_v("NOT IN"@, "<expr> NOT IN (<list> | <subq>) -- negated IN."@, "WHERE id NOT IN (1, 2, 3)"@, "functions-comparison.html"@))
        .insert("NOT EXISTS"@, keyword_v("NOT EXISTS"@, "NOT EXISTS (<subquery>) -- negated EXISTS."@, "WHERE NOT EXISTS (SELECT 1 FROM t WHERE t.id = x.id)"@, "functions-comparison.html"@))
        .insert("ANY ARRAY"@, keyword_v("ANY ARRAY"@, "<expr> = ANY (<array>) -- match any element."@, "WHERE id = ANY ('{1,2,3}'::int[])"@, "functions-comparisons.html"@))
        .insert("ALL ARRAY"@, keyword_v("ALL ARRAY"@, "<expr> <> ALL (<array>) -- distinct from every element."@, "WHERE id <> ALL ('{1,2,3}'::int[])"@, "functions-comparisons.html"@))
        .insert("OFFSET ROWS"@, keyword_v("OFFSET ROWS"@, "OFFSET <n> ROWS -- SQL standard form of OFFSET."@, "SELECT * FROM t OFFSET 20 ROWS;"@, "sql-select.html"@))
        .insert("OFFSET ROW"@, keyword_v("OFFSET ROW"@, "OFFSET <n> ROW -- SQL standard form of OFFSET (singular form)."@, "SELECT * FROM t OFFSET 1 ROW;"@, "sql-select.html"@))
        .insert("FIRST ROWS"@, keyword_v("FIRST ROWS"@, "FETCH FIRST <n> ROWS -- SQL standard limit clause."@, "SELECT * FROM t FETCH FIRST 10 ROWS ONLY;"@, "sql-select.html"@))
        .insert("FIRST ROW"@, keyword_v("FIRST ROW"@, "FETCH FIRST <n> ROW -- SQL standard limit clause (singular form)."@, "SELECT * FROM t FETCH FIRST 1 ROW ONLY;"@, "sql-select.html"@))
        .insert("NEXT ROWS"@, keyword_v("NEXT ROWS"@, "FETCH NEXT <n> ROWS -- SQL standard limit clause."@, "SELECT * FROM t FETCH NEXT 10 ROWS ONLY;"@, "sql-select.html"@))
        .insert("NEXT ROW"@, keyword_v("NEXT ROW"@, "FETCH NEXT <n> ROW -- SQL standard limit clause (singular form)."@, "SELECT * FROM t FETCH NEXT 1 ROW ONLY;"@, "sql-select.html"@))
        .insert("IS TRUE"@, keyword_v("IS TRUE"@, "<expr> IS TRUE -- handles NULL as NOT TRUE."@, "WHERE flag IS TRUE"@, "functions-comparison.html"@))
        .insert("IS NOT TRUE"@, keyword_v("IS NOT TRUE"@, "<expr> IS NOT TRUE -- true when NULL or false."@, "WHERE flag IS NOT TRUE"@, "functions-comparison.html"@))
        .insert("IS FALSE"@, keyword_v("IS FALSE"@, "<expr> IS FALSE."@, "WHERE flag IS FALSE"@, "functions-comparison.html"@))
        .insert("IS NOT FALSE"@, keyword_v("IS NOT FALSE"@, "<expr> IS NOT FALSE -- true when NULL or true."@, "WHERE flag IS NOT FALSE"@, "functions-comparison.html"@))
        .insert("IS UNKNOWN"@, keyword_v("IS UNKNOWN"@, "<expr> IS UNKNOWN -- same as IS NULL for boolean expressions."@, "WHERE flag IS UNKNOWN"@, "functions-comparison.html"@))
}

spec fn keyword_part_18(m: Map<Seq<char>, EntryV>) -> Map<Seq<char>, EntryV> {
    m
        .insert("IS NOT UNKNOWN"@, keyword_v("IS NOT UNKNOWN"@, "<expr> IS NOT UNKNOWN -- same as IS NOT NULL for boolean expressions."@, "WHERE flag IS NOT UNKNOWN"@, "functions-comparison.html"@))
        .insert("IS DOCUMENT"@, keyword_v("IS DOCUMENT"@, "<xml> IS DOCUMENT -- true when value is a well-formed XML document."@, "WHERE col IS DOCUMENT"@, "functions-xml.html"@))
        .insert("IS NOT DOCUMENT"@, keyword_v("IS NOT DOCUMENT"@, "<xml> IS NOT DOCUMENT."@, "WHERE col IS NOT DOCUMENT"@, "functions-xml.html"@))
        .insert("IS NORMALIZED"@, keyword_v("IS NORMALIZED"@, "<text> IS [NFC|NFD|NFKC|NFKD] NORMALIZED -- Unicode normalization test (PG13+)."@, "WHERE col IS NFC NORMALIZED"@, "functions-string.html"@))
        .insert("IS NOT NORMALIZED"@, keyword_v("IS NOT NORMALIZED"@, "<text> IS NOT [NFC|NFD|NFKC|NFKD] NORMALIZED."@, "WHERE col IS NOT NORMALIZED"@, "functions-string.html"@))
        .insert("IS OF"@, keyword_v("IS OF"@, "<expr> IS OF (type[, ...]) -- type membership check (rarely used)."@, "WHERE x IS OF (text, varchar)"@, "functions-comparison.html"@))
        .insert("IS NOT OF"@, keyword_v("IS NOT OF"@, "<expr> IS NOT OF (type[, ...])."@, "WHERE x IS NOT OF (text)"@, "functions-comparison.html"@))
        .insert("EXTRACT FROM"@, keyword_v("EXTRACT FROM"@, "EXTRACT(<field> FROM <source>) -- extract date/time field."@, "SELECT EXTRACT(YEAR FROM now());"@, "functions-datetime.html#FUNCTIONS-DATETIME-EXTRACT"@))
        .insert("OVERLAY PLACING"@, keyword_v("OVERLAY PLACING"@, "OVERLAY(<src> PLACING <new> FROM <start> [FOR <count>]) -- splice."@, "SELECT OVERLAY('Txxxxas' PLACING 'hom' FROM 2 FOR 4);"@, "functions-string.html"@))
        .insert("POSITION IN"@, keyword_v("POSITION IN"@, "POSITION(<needle> IN <haystack>) -- alias of strpos."@, "SELECT POSITION('o' IN 'foo');"@, "functions-string.html"@))
        .insert("SUBSTRING FROM"@, keyword_v("SUBSTRING FROM"@, "SUBSTRING(<src> FROM <start>) -- alias of substr."@, "SELECT SUBSTRING('foobar' FROM 4);"@, "functions-string.html"@))
        .insert("SUBSTRING FOR"@, keyword_v("SUBSTRING FOR"@, "SUBSTRING(<src> FOR <count>) -- alias of left."@, "SELECT SUBSTRING('foobar' FOR 3);"@, "functions-string.html"@))
        .insert("TRIM FROM"@, keyword_v("TRIM FROM"@, "TRIM([BOTH|LEADING|TRAILING] [<chars>] FROM <text>)."@, "SELECT TRIM(BOTH 'x' FROM 'xxhellxx');"@, "functions-string.html"@))
        .insert("TRIM LEADING"@, keyword_v("TRIM LEADING"@, "TRIM(LEADING [<chars>] FROM <text>)."@, "SELECT TRIM(LEADING ' ' FROM '  hello');"@, "functions-string.html"@))
        .insert("TRIM TRAILING"@, keyword_v("TRIM TRAILING"@, "TRIM(TRAILING [<chars>] FROM <text>)."@, "SELECT TRIM(TRAILING ' ' FROM 'hello  ');"@, "functions-string.html"@))
        .insert("TRIM BOTH"@, keyword_v("TRIM BOTH"@, "TRIM(BOTH [<chars>] FROM <text>) -- same as default TRIM."@, "SELECT TRIM(BOTH ' ' FROM '  hello  ');"@, "functions-string.html"@))
        .insert("COLLATION FOR"@, keyword_v("COLLATION FOR"@, "COLLATION FOR (<expr>) -> text -- collation name derived from expression."@, "SELECT COLLATION FOR ('hi'::text);"@, "functions-info.html"@))
        .insert("TYPE COERCION"@, keyword_v("TYPE COERCION"@, "PG type coercion -- documented in the type-cast grammar; not a standalone keyword phrase."@, "-- see CAST / ::"@, "typeconv.html"@))
        .insert("XML PARSE"@, keyword_v("XML PARSE"@, "XMLPARSE({DOCUMENT|CONTENT} <text>) -- parse text as XML."@, "SELECT XMLPARSE(DOCUMENT '<r/>');"@, "functions-xml.html"@))
        .insert("XML SERIALIZE"@, keyword_v("XML SERIALIZE"@, "XMLSERIALIZE({DOCUMENT|CONTENT} <xml> AS <text_type>)."@, "SELECT XMLSERIALIZE(DOCUMENT payload AS text);"@, "functions-xml.html"@))
        .insert("WITHIN GROUP ORDER BY"@, keyword_v("WITHIN GROUP ORDER BY"@, "<agg>(...) WITHIN GROUP (ORDER BY <key>) -- ordered-set aggregate."@, "SELECT percentile_cont(0.5) WITHIN GROUP (ORDER BY salary) FROM emp;"@, "functions-aggregate.html"@))
        .insert("FILTER WHERE"@, keyword_v("FILTER WHERE"@, "<agg>(...) FILTER (WHERE <pred>) -- selectively count."@, "SELECT count(*) FILTER (WHERE flag) FROM t;"@, "sql-expressions.html#SYNTAX-AGGREGATES"@))
        .insert("OVER WINDOW"@, keyword_v("OVER WINDOW"@, "<win_fn>(...) OVER <window_name> -- reference a named WINDOW clause."@, "SELECT id, row_number() OVER w FROM t WINDOW w AS (PARTITION BY uid ORDER BY ts);"@, "sql-expressions.html#SYNTAX-WINDOW-FUNCTIONS"@))
        .insert("OVER PARTITION"@, keyword_v("OVER PARTITION"@, "<win_fn>(...) OVER (PARTITION BY ...) -- inline window definition."@, "SELECT row_number() OVER (PARTITION BY uid ORDER BY ts) FROM t;"@, "sql-expressions.html#SYNTAX-WINDOW-FUNCTIONS"@))
        .insert("LIMIT ALL"@, keyword_v("LIMIT ALL"@, "LIMIT ALL -- explicit no-limit."@, "SELECT * FROM t LIMIT ALL;"@, "sql-select.html"@))
        .insert("LIMIT NULL"@, keyword_v("LIMIT NULL"@, "LIMIT NULL -- same as LIMIT ALL (no limit)."@, "SELECT * FROM t LIMIT NULL;"@, "sql-select.html"@))
        .insert("FETCH FIRST ROW ONLY"@, keyword_v("FETCH FIRST ROW ONLY"@, "FETCH FIRST 1 ROW ONLY -- singular form."@, "SELECT * FROM t FETCH FIRST 1 ROW ONLY;"@, "sql-select.html"@))
        .insert("FETCH NEXT ROW ONLY"@, keyword_v("FETCH NEXT ROW ONLY"@, "FETCH NEXT 1 ROW ONLY."@, "SELECT * FROM t FETCH NEXT 1 ROW ONLY;"@, "sql-select.html"@))
        .insert("FETCH FIRST ROWS ONLY"@, keyword_v("FETCH FIRST ROWS ONLY"@, "FETCH FIRST <n> ROWS ONLY."@, "SELECT * FROM t FETCH FIRST 10 ROWS ONLY;"@, "sql-select.html"@))
        .insert("FETCH NEXT ROWS ONLY"@, keyword_v("FETCH NEXT ROWS ONLY"@, "FETCH NEXT <n> ROWS ONLY."@, "SELECT * FROM t FETCH NEXT 10 ROWS ONLY;"@, "sql-select.html"@))
        .insert("WITH OIDS"@, keyword_v("WITH OIDS"@, "CREATE TABLE ... WITH OIDS -- removed in PG12+. Modern code uses ctid."@, "-- legacy: CREATE TABLE t (...) WITH OIDS;"@, "sql-createtable.html"@))
        .insert("WITHOUT OIDS"@, keyword_v("WITHOUT OIDS"@, "CREATE TABLE ... WITHOUT OIDS -- default since PG12+ (the WITH OIDS option is gone)."@, "CREATE TABLE t (...) WITHOUT OIDS;"@, "sql-createtable.html"@))
        .insert("WITH OWNER"@, keyword_v("WITH OWNER"@, "CREATE DATABASE ... [WITH] OWNER <role>."@, "CREATE DATABASE mydb OWNER alice;"@, "sql-createdatabase.html"@))
        .insert("OWNED BY NONE"@, keyword_v("OWNED BY NONE"@, "ALTER SEQUENCE ... OWNED BY NONE -- detach the sequence from any column."@, "ALTER SEQUENCE s OWNED BY NONE;"@, "sql-altersequence.html"@))
        .insert("AS ON"@, keyword_v("AS ON"@, "CREATE RULE ... AS ON <event> -- AS introduces the ON event in CREATE RULE."@, "CREATE RULE r AS ON SELECT TO v DO INSTEAD SELECT 1;"@, "sql-createrule.html"@))
        .insert("DO INSTEAD"@, keyword_v("DO INSTEAD"@, "CREATE RULE ... DO INSTEAD { NOTHING | <command> } -- replace original DML with this action."@, "DO INSTEAD NOTHING"@, "sql-createrule.html"@))
        .insert("DO INSTEAD NOTHING"@, keyword_v("DO INSTEAD NOTHING"@, "CREATE RULE ... DO INSTEAD NOTHING -- swallow the original DML."@, "CREATE RULE r AS ON INSERT TO v DO INSTEAD NOTHING;"@, "sql-createrule.html"@))
        .insert("DO ALSO"@, keyword_v("DO ALSO"@, "CREATE RULE ... DO ALSO <command> -- run an extra action alongside the DML."@, "CREATE RULE r AS ON INSERT TO v DO ALSO INSERT INTO audit ...;"@, "sql-createrule.html"@))
        .insert("ON SELECT"@, keyword_v("ON SELECT"@, "CREATE RULE / VIEW ... ON SELECT -- VIEW-implementing rule."@, "CREATE RULE _RETURN AS ON SELECT TO v DO INSTEAD SELECT ...;"@, "sql-createrule.html"@))
        .insert("ON INSERT"@, keyword_v("ON INSERT"@, "CREATE RULE ... ON INSERT TO <table> DO ... -- INSERT-event rule."@, "CREATE RULE r AS ON INSERT TO v DO ALSO log_insert();"@, "sql-createrule.html"@))
        .insert("EVENT TRIGGER DDL_COMMAND_START"@, keyword_v("EVENT TRIGGER DDL_COMMAND_START"@, "Event trigger event firing before a DDL."@, "CREATE EVENT TRIGGER trg ON ddl_command_start EXECUTE FUNCTION fn();"@, "event-trigger-overview.html"@))
        .insert("EVENT TRIGGER DDL_COMMAND_END"@, keyword_v("EVENT TRIGGER DDL_COMMAND_END"@, "Event trigger event firing after a DDL."@, "CREATE EVENT TRIGGER trg ON ddl_command_end EXECUTE FUNCTION fn();"@, "event-trigger-overview.html"@))
        .insert("EVENT TRIGGER SQL_DROP"@, keyword_v("EVENT TRIGGER SQL_DROP"@, "Event trigger event firing after a DROP."@, "CREATE EVENT TRIGGER trg ON sql_drop EXECUTE FUNCTION audit_drop();"@, "event-trigger-overview.html"@))
        .insert("EVENT TRIGGER TABLE_REWRITE"@, keyword_v("EVENT TRIGGER TABLE_REWRITE"@, "Event trigger event firing when a DDL rewrites a table."@, "CREATE EVENT TRIGGER trg ON table_rewrite EXECUTE FUNCTION audit_rewrite();"@, "event-trigger-overview.html"@))
        .insert("DEFAULT NULL"@, keyword_v("DEFAULT NULL"@, "<col> <type> DEFAULT NULL -- explicit null default."@, "deleted_at timestamptz DEFAULT NULL"@, "sql-createtable.html"@))
        .insert("DEFAULT TRUE"@, keyword_v("DEFAULT TRUE"@, "<col> boolean DEFAULT TRUE."@, "active boolean DEFAULT TRUE"@, "sql-createtable.html"@))
        .insert("DEFAULT FALSE"@, keyword_v("DEFAULT FALSE"@, "<col> boolean DEFAULT FALSE."@, "deleted boolean DEFAULT FALSE"@, "sql-createtable.html"@))
        .insert("CHECK NOT VALID"@, keyword_v("CHECK NOT VALID"@, "ADD CONSTRAINT ... CHECK (...) NOT VALID -- skip the up-front scan."@, "ALTER TABLE t ADD CONSTRAINT ck_age CHECK (age >= 0) NOT VALID;"@, "sql-altertable.html"@))
        .insert("ADD CHECK"@, keyword_v("ADD CHECK"@, "ALTER TABLE ... ADD CHECK (<expr>) -- unnamed check constraint."@, "ALTER TABLE t ADD CHECK (price > 0);"@, "sql-altertable.html"@))
        .insert("ADD UNIQUE"@, keyword_v("ADD UNIQUE"@, "ALTER TABLE ... ADD UNIQUE (<cols>) -- unnamed unique constraint."@, "ALTER TABLE t ADD UNIQUE (email);"@, "sql-altertable.html"@))
        .insert("ADD PRIMARY KEY"@, keyword_v("ADD PRIMARY KEY"@, "ALTER TABLE ... ADD PRIMARY KEY (<cols>) -- unnamed primary key."@, "ALTER TABLE t ADD PRIMARY KEY (id);"@, "sql-altertable.html"@))
        .insert("ADD FOREIGN KEY"@, keyword_v("ADD FOREIGN KEY"@, "ALTER TABLE ... ADD FOREIGN KEY (<cols>) REFERENCES <other>(<cols>) -- unnamed FK."@, "ALTER TABLE child ADD FOREIGN KEY (parent_id) REFERENCES parent(id);"@, "sql-altertable.html"@))
        .insert("ADD EXCLUDE"@, keyword_v("ADD EXCLUDE"@, "ALTER TABLE ... ADD EXCLUDE USING <method> (<col> WITH <op>, ...) -- exclusion constraint."@, "ALTER TABLE bookings ADD EXCLUDE USING gist (room WITH =, during WITH &&);"@, "sql-createtable.html"@))
        .insert("BIT VARYING"@, keyword_v("BIT VARYING"@, "BIT VARYING(<n>) -- SQL-standard spelling of VARBIT."@, "v BIT VARYING(8)"@, "datatype-bit.html"@))
        .insert("CHARACTER VARYING"@, keyword_v("CHARACTER VARYING"@, "CHARACTER VARYING(<n>) -- SQL-standard spelling of VARCHAR."@, "name CHARACTER VARYING(255)"@, "datatype-character.html"@))
        .insert("DOUBLE PRECISION"@, keyword_v("DOUBLE PRECISION"@, "DOUBLE PRECISION -- 8-byte IEEE float (alias FLOAT8)."@, "ratio DOUBLE PRECISION"@, "datatype-numeric.html"@))
        .insert("WITH TIME ZONE"@, keyword_v("WITH TIME ZONE"@, "TIME / TIMESTAMP WITH TIME ZONE -- store + retrieve with zone awareness."@, "ts TIMESTAMP WITH TIME ZONE"@, "datatype-datetime.html"@))
        .insert("WITHOUT TIME ZONE"@, keyword_v("WITHOUT TIME ZONE"@, "TIME / TIMESTAMP WITHOUT TIME ZONE -- store the raw value (default)."@, "ts TIMESTAMP WITHOUT TIME ZONE"@, "datatype-datetime.html"@))
        .insert("TIME WITH TIME ZONE"@, keyword_v("TIME WITH TIME ZONE"@, "Standard spelling of TIMETZ."@, "open_at TIME WITH TIME ZONE"@, "datatype-datetime.html"@))
        .insert("TIME WITHOUT TIME ZONE"@, keyword_v("TIME WITHOUT TIME ZONE"@, "Standard spelling of TIME."@, "open_at TIME WITHOUT TIME ZONE"@, "datatype-datetime.html"@))
        .insert("TIMESTAMP WITH TIME ZONE"@, keyword_v("TIMESTAMP WITH TIME ZONE"@, "Standard spelling of TIMESTAMPTZ."@, "ts TIMESTAMP WITH TIME ZONE"@, "datatype-datetime.html"@))
        .insert("TIMESTAMP WITHOUT TIME ZONE"@, keyword_v("TIMESTAMP WITHOUT TIME ZONE"@, "Standard spelling of TIMESTAMP."@, "ts TIMESTAMP WITHOUT TIME ZONE"@, "datatype-datetime.html"@))
        .insert("REFERENCES OLD"@, keyword_v("REFERENCES OLD"@, "Trigger REFERENCING OLD AS <alias> / OLD TABLE AS <alias>."@, "REFERENCING OLD TABLE AS old_rows"@, "sql-createtrigger.html"@))
        .insert("REFERENCES NEW"@, keyword_v("REFERENCES NEW"@, "Trigger REFERENCING NEW AS <alias> / NEW TABLE AS <alias>."@, "REFERENCING NEW TABLE AS new_rows"@, "sql-createtrigger.html"@))
        .insert("USING JOIN"@, keyword_v("USING JOIN"@, "FROM ... [type] JOIN <other> USING (col[, ...]) -- common-column join."@, "SELECT * FROM a JOIN b USING (id);"@, "queries-table-expressions.html"@))
        .insert("AS QUERY"@, keyword_v("AS QUERY"@, "PREPARE / CREATE PROCEDURE / CREATE VIEW ... AS <query> -- introduces the prepared statement or body."@, "PREPARE plan AS SELECT * FROM t;"@, "sql-prepare.html"@))
        .insert("DEFAULT EXPRESSION"@, keyword_v("DEFAULT EXPRESSION"@, "<col> <type> DEFAULT <expr> -- column default expression."@, "id uuid DEFAULT gen_random_uuid()"@, "sql-createtable.html"@))
        .insert("STORED EXPRESSION"@, keyword_v("STORED EXPRESSION"@, "<col> <type> GENERATED ALWAYS AS (<expr>) STORED -- materialised computed column."@, "total numeric GENERATED ALWAYS AS (qty * price) STORED"@, "ddl-generated-columns.html"@))
        .insert("PRIMARY KEY"@, keyword_v("PRIMARY KEY"@, "PRIMARY KEY [(<cols>)] -- column/table constraint; implies NOT NULL + UNIQUE, builds a btree."@, "id uuid PRIMARY KEY DEFAULT gen_random_uuid()"@, "ddl-constraints.html#DDL-CONSTRAINTS-PRIMARY-KEYS"@))
        .insert("FOREIGN KEY"@, keyword_v("FOREIGN KEY"@, "FOREIGN KEY (<col>[, ...]) REFERENCES <ref_table>[(<ref_col>[, ...])] [ON DELETE ...] [ON UPDATE ...] [MATCH ...]."@, "FOREIGN KEY (uid) REFERENCES users(id) ON DELETE CASCADE"@, "ddl-constraints.html#DDL-CONSTRAINTS-FK"@))
        .insert("EXCLUDE USING"@, keyword_v("EXCLUDE USING"@, "EXCLUDE USING <method> (<col> WITH <op>[, ...]) -- index-backed exclusion constraint."@, "EXCLUDE USING gist (room WITH =, period WITH &&)"@, "ddl-constraints.html#DDL-CONSTRAINTS-EXCLUSION"@))
        .insert("UNIQUE NULLS NOT DISTINCT"@, keyword_v("UNIQUE NULLS NOT DISTINCT"@, "PG15+: UNIQUE NULLS NOT DISTINCT -- treat NULL == NULL for uniqueness check."@, "CREATE UNIQUE INDEX i ON t (x) NULLS NOT DISTINCT"@, "sql-createtable.html#SQL-CREATETABLE-UNIQUE"@))
        .insert("AT TIME ZONE"@, keyword_v("AT TIME ZONE"@, "<timestamptz> AT TIME ZONE '<tz>' -- convert between zones (or rotate a timestamp into a zone)."@, "SELECT now() AT TIME ZONE 'UTC';"@, "functions-datetime.html#FUNCTIONS-DATETIME-ZONECONVERT"@))
        .insert("WITH ORDINALITY"@, keyword_v("WITH ORDINALITY"@, "FROM <srf>(...) WITH ORDINALITY -- append a `ordinality` bigint column numbering output rows 1..N."@, "SELECT * FROM unnest(ARRAY['a','b']) WITH ORDINALITY AS u(v, idx);"@, "queries-table-expressions.html#QUERIES-TABLEFUNCTIONS"@))
        .insert("AS MATERIALIZED"@, keyword_v("AS MATERIALIZED"@, "WITH cte AS MATERIALIZED (<body>) ... -- force the CTE to materialise (default for recursive / multiple uses)."@, "WITH big AS MATERIALIZED (SELECT * FROM heavy_query) SELECT * FROM big WHERE active;"@, "queries-with.html#QUERIES-WITH-MATERIALIZATION"@))
}

spec fn keyword_part_19(m: Map<Seq<char>, EntryV>) -> Map<Seq<char>, EntryV> {
    m
        .insert("AS NOT MATERIALIZED"@, keyword_v("AS NOT MATERIALIZED"@, "WITH cte AS NOT MATERIALIZED (<body>) ... -- planner may inline the CTE body into the main query."@, "WITH cheap AS NOT MATERIALIZED (SELECT id FROM t WHERE active) SELECT * FROM cheap;"@, "queries-with.html#QUERIES-WITH-MATERIALIZATION"@))
        .insert("FORCE NULL"@, keyword_v("FORCE NULL"@, "COPY ... WITH (FORCE_NULL (<col>[, ...])) -- treat the quoted form of NULL as NULL for these CSV columns."@, "COPY t FROM '/tmp/d.csv' WITH (FORMAT csv, FORCE_NULL (notes));"@, "sql-copy.html"@))
}

} // verus!
