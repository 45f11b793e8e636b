//! Canonical SQL text rendering: separator joins, `field=$i` filter lists,
//! positional placeholder lists, aliased column lists and statement shells.

use vstd::prelude::*;
use vstd::string::StringExecFns;

use crate::catalog::FieldSpec;
use crate::catalog::FieldSpecView;
use crate::strutil::dec_digits;
use crate::strutil::lower_chars;
use crate::strutil::lower_string;
use crate::strutil::num_string;

verus! {

/// `parts` joined with `sep` between consecutive parts.
pub open spec fn join(parts: Seq<Seq<char>>, sep: Seq<char>) -> Seq<char>
    decreases parts.len(),
{
    if parts.len() == 0 {
        Seq::empty()
    } else if parts.len() == 1 {
        parts[0]
    } else {
        parts[0] + sep + join(parts.drop_first(), sep)
    }
}

/// Joining one more part appends a separator and the part, except to an
/// empty list.
pub proof fn lemma_join_snoc(parts: Seq<Seq<char>>, x: Seq<char>, sep: Seq<char>)
    ensures
        join(parts.push(x), sep) == if parts.len() == 0 {
            x
        } else {
            join(parts, sep) + sep + x
        },
    decreases parts.len(),
{
    if parts.len() == 0 {
        assert(parts.push(x)[0] == x);
    } else if parts.len() == 1 {
        assert(parts.push(x)[0] == parts[0]);
        assert(parts.push(x).drop_first() =~= seq![x]);
        assert(join(seq![x], sep) == x);
        assert(join(parts.push(x), sep) == parts[0] + sep + x);
    } else {
        assert(parts.push(x)[0] == parts[0]);
        assert(parts.push(x).drop_first() =~= parts.drop_first().push(x));
        lemma_join_snoc(parts.drop_first(), x, sep);
        assert(join(parts.push(x), sep) == parts[0] + sep + (join(parts.drop_first(), sep) + sep
            + x));
        assert(parts[0] + sep + (join(parts.drop_first(), sep) + sep + x) =~= (parts[0] + sep
            + join(parts.drop_first(), sep)) + sep + x);
    }
}

/// The text `name=$num` of one filter or assignment.
pub open spec fn eq_param(name: Seq<char>, num: nat) -> Seq<char> {
    name + "=$"@ + dec_digits(num)
}

/// The rendered pieces `name=$i` for the given names, numbered from
/// `start` in order.
pub open spec fn numbered_parts(names: Seq<Seq<char>>, start: int) -> Seq<Seq<char>> {
    Seq::new(names.len(), |i: int| eq_param(names[i], (start + i) as nat))
}

/// `names` rendered `name=$i`, numbered consecutively from `start`, joined
/// with `sep`.
pub open spec fn numbered_join(names: Seq<Seq<char>>, start: int, sep: Seq<char>) -> Seq<char> {
    join(numbered_parts(names, start), sep)
}

/// Renders `names` as `name=$i` pieces numbered consecutively from
/// `start`, joined with `sep`.
#[verifier::loop_isolation(false)]
pub fn render_numbered(names: &Vec<String>, start: usize, sep: &str) -> (r: String)
    requires
        start as int + names@.len() as int - 1 <= usize::MAX as int,
    ensures
        r@ == numbered_join(names.deep_view(), start as int, sep@),
{
    let ghost parts = numbered_parts(names.deep_view(), start as int);
    let mut acc = String::new();
    let n = names.len();
    let mut i: usize = 0;
    while i < n
        invariant
            i <= n,
            acc@ == join(parts.take(i as int), sep@),
        decreases n - i,
    {
        if i > 0 {
            acc.append(sep);
        }
        acc.append(names[i].as_str());
        acc.append("=$");
        let num = num_string(start + i);
        acc.append(num.as_str());
        proof {
            lemma_join_snoc(parts.take(i as int), parts[i as int], sep@);
            assert(parts.take(i as int).push(parts[i as int]) =~= parts.take(i + 1));
            assert(acc@ =~= join(parts.take(i + 1), sep@));
        }
        i += 1;
    }
    proof {
        assert(parts.take(n as int) =~= parts);
    }
    acc
}

/// The text `$num` of one positional placeholder.
pub open spec fn dollar(num: nat) -> Seq<char> {
    "$"@ + dec_digits(num)
}

/// The placeholder list `$1,...,$n`.
pub open spec fn placeholder_parts(n: int) -> Seq<Seq<char>> {
    Seq::new(n as nat, |i: int| dollar((i + 1) as nat))
}

/// The placeholder list `$1,...,$n` joined with commas.
pub open spec fn placeholders_sql(n: int) -> Seq<char> {
    join(placeholder_parts(n), ","@)
}

/// Renders `$1,...,$n`.
#[verifier::loop_isolation(false)]
pub fn render_placeholders(n: usize) -> (r: String)
    ensures
        r@ == placeholders_sql(n as int),
{
    let ghost parts = placeholder_parts(n as int);
    let mut acc = String::new();
    let mut i: usize = 0;
    while i < n
        invariant
            i <= n,
            acc@ == join(parts.take(i as int), ","@),
        decreases n - i,
    {
        if i > 0 {
            acc.append(",");
        }
        acc.append("$");
        let num = num_string(i + 1);
        acc.append(num.as_str());
        proof {
            lemma_join_snoc(parts.take(i as int), parts[i as int], ","@);
            assert(parts.take(i as int).push(parts[i as int]) =~= parts.take(i + 1));
            assert(acc@ =~= join(parts.take(i + 1), ","@));
        }
        i += 1;
    }
    proof {
        assert(parts.take(n as int) =~= parts);
    }
    acc
}

/// The column text of one catalog entry: the plain field name, or
/// `name AS "alias"` when an alias is attached.
pub open spec fn column_text(f: FieldSpecView) -> Seq<char> {
    match f.alias {
        Some(a) => f.name + " AS \""@ + a + "\""@,
        None => f.name,
    }
}

/// The rendered column texts of the whole catalog, in declaration order.
pub open spec fn column_parts(c: Seq<FieldSpecView>) -> Seq<Seq<char>> {
    Seq::new(c.len(), |i: int| column_text(c[i]))
}

/// The catalog's SELECT/INSERT column list.
pub open spec fn columns_sql(c: Seq<FieldSpecView>) -> Seq<char> {
    join(column_parts(c), ", "@)
}

/// Renders the column text of one catalog entry.
pub fn render_column(f: &FieldSpec) -> (r: String)
    ensures
        r@ == column_text(f.deep_view()),
{
    match &f.alias {
        Some(a) => {
            let mut s = String::from_str(f.name.as_str());
            s.append(" AS \"");
            s.append(a.as_str());
            s.append("\"");
            proof {
                assert(s@ =~= column_text(f.deep_view()));
            }
            s
        },
        None => f.name.clone(),
    }
}

/// Renders the catalog's column list.
#[verifier::loop_isolation(false)]
pub fn render_columns(c: &Vec<FieldSpec>) -> (r: String)
    ensures
        r@ == columns_sql(c.deep_view()),
{
    let ghost parts = column_parts(c.deep_view());
    let mut acc = String::new();
    let n = c.len();
    let mut i: usize = 0;
    while i < n
        invariant
            i <= n,
            acc@ == join(parts.take(i as int), ", "@),
        decreases n - i,
    {
        if i > 0 {
            acc.append(", ");
        }
        let piece = render_column(&c[i]);
        acc.append(piece.as_str());
        proof {
            lemma_join_snoc(parts.take(i as int), parts[i as int], ", "@);
            assert(parts.take(i as int).push(parts[i as int]) =~= parts.take(i + 1));
            assert(acc@ =~= join(parts.take(i + 1), ", "@));
        }
        i += 1;
    }
    proof {
        assert(parts.take(n as int) =~= parts);
    }
    acc
}

/// The text of a single-row or multi-row select statement.
pub open spec fn select_stmt(cols: Seq<char>, table: Seq<char>, filt: Seq<char>) -> Seq<char> {
    "SELECT "@ + cols + " FROM "@ + table + " WHERE "@ + filt
}

/// The text of the full-table select statement.
pub open spec fn select_all_stmt(cols: Seq<char>, table: Seq<char>) -> Seq<char> {
    "SELECT "@ + cols + " FROM "@ + table
}

/// The text of an insert statement over `n` fields.
pub open spec fn insert_stmt(table: Seq<char>, cols: Seq<char>, n: int) -> Seq<char> {
    "INSERT INTO "@ + table + " ("@ + cols + ") VALUES ("@ + placeholders_sql(n) + ")"@
}

/// The text of an update statement.
pub open spec fn update_stmt(table: Seq<char>, set_text: Seq<char>, where_text: Seq<char>) -> Seq<
    char,
> {
    "UPDATE "@ + table + " SET "@ + set_text + " WHERE "@ + where_text
}

/// The text of a delete statement.
pub open spec fn delete_stmt(table: Seq<char>, filt: Seq<char>) -> Seq<char> {
    "DELETE FROM "@ + table + " WHERE "@ + filt
}

/// The RETURNING clause appended to inserts and updates that decode a
/// row: the overriding column list, or `*`.
pub open spec fn returning_clause(fields: Option<Seq<char>>) -> Seq<char> {
    " RETURNING "@ + (match fields {
        Some(f) => f,
        None => "*"@,
    })
}

/// Renders a single-row or multi-row select statement.
pub fn stmt_select(cols: &str, table: &str, filt: &str) -> (r: String)
    ensures
        r@ == select_stmt(cols@, table@, filt@),
{
    let mut s = String::from_str("SELECT ");
    s.append(cols);
    s.append(" FROM ");
    s.append(table);
    s.append(" WHERE ");
    s.append(filt);
    proof {
        assert(s@ =~= select_stmt(cols@, table@, filt@));
    }
    s
}

/// Renders the full-table select statement.
pub fn stmt_select_all(cols: &str, table: &str) -> (r: String)
    ensures
        r@ == select_all_stmt(cols@, table@),
{
    let mut s = String::from_str("SELECT ");
    s.append(cols);
    s.append(" FROM ");
    s.append(table);
    proof {
        assert(s@ =~= select_all_stmt(cols@, table@));
    }
    s
}

/// Renders an insert statement over `n` fields.
pub fn stmt_insert(table: &str, cols: &str, n: usize) -> (r: String)
    ensures
        r@ == insert_stmt(table@, cols@, n as int),
{
    let mut s = String::from_str("INSERT INTO ");
    s.append(table);
    s.append(" (");
    s.append(cols);
    s.append(") VALUES (");
    let ph = render_placeholders(n);
    s.append(ph.as_str());
    s.append(")");
    proof {
        assert(s@ =~= insert_stmt(table@, cols@, n as int));
    }
    s
}

/// Renders an update statement.
pub fn stmt_update(table: &str, set_text: &str, where_text: &str) -> (r: String)
    ensures
        r@ == update_stmt(table@, set_text@, where_text@),
{
    let mut s = String::from_str("UPDATE ");
    s.append(table);
    s.append(" SET ");
    s.append(set_text);
    s.append(" WHERE ");
    s.append(where_text);
    proof {
        assert(s@ =~= update_stmt(table@, set_text@, where_text@));
    }
    s
}

/// Renders a delete statement.
pub fn stmt_delete(table: &str, filt: &str) -> (r: String)
    ensures
        r@ == delete_stmt(table@, filt@),
{
    let mut s = String::from_str("DELETE FROM ");
    s.append(table);
    s.append(" WHERE ");
    s.append(filt);
    proof {
        assert(s@ =~= delete_stmt(table@, filt@));
    }
    s
}

/// Appends the RETURNING clause to a statement.
pub fn append_returning(stmt: &mut String, fields: &Option<String>)
    ensures
        final(stmt)@ == old(stmt)@ + returning_clause(fields.deep_view()),
{
    let ghost prior = stmt@;
    stmt.append(" RETURNING ");
    match fields {
        Some(f) => stmt.append(f.as_str()),
        None => stmt.append("*"),
    }
    proof {
        assert(stmt@ =~= prior + returning_clause(fields.deep_view()));
    }
}

/// The resolved table name: the explicit directive, or the lower-cased,
/// pluralized type name.
pub open spec fn table_name_of(explicit: Option<Seq<char>>, rec_name: Seq<char>) -> Seq<char> {
    match explicit {
        Some(n) => n,
        None => lower_chars(rec_name) + "s"@,
    }
}

/// Resolves the table name from the `name` directive or the type name.
pub fn render_table_name(explicit: &Option<String>, rec_name: &str) -> (r: String)
    ensures
        r@ == table_name_of(explicit.deep_view(), rec_name@),
{
    match explicit {
        Some(n) => n.clone(),
        None => {
            let mut s = lower_string(rec_name);
            s.append("s");
            s
        },
    }
}

} // verus!
