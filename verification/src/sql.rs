//! Pieces of the text of SQL statements.

use crate::text::{decimal_text, push_decimal};
use vstd::prelude::*;
use vstd::string::StringExecFns;

verus! {

/// The placeholders `$1` to `$max`, separated by commas.
pub open spec fn dollar_text(max: nat) -> Seq<char>
    decreases max,
{
    if max == 0 {
        Seq::empty()
    } else if max == 1 {
        seq!['$'] + decimal_text(1)
    } else {
        dollar_text((max - 1) as nat) + seq![','] + seq!['$'] + decimal_text(max)
    }
}

/// The placeholders for the values of a statement with `max` values: `$1,$2` and so on up
/// to `$max`.
pub fn dollar_values(max: usize) -> (r: String)
    ensures
        r@ == dollar_text(max as nat),
{
    let mut out = String::new();
    let mut i: usize = 0;
    proof {
        reveal_strlit("$");
        reveal_strlit(",");
    }
    while i < max
        invariant
            i <= max,
            out@ == dollar_text(i as nat),
            "$"@ == seq!['$'],
            ","@ == seq![','],
        decreases max - i,
    {
        if i > 0 {
            out.append(",");
        }
        out.append("$");
        i += 1;
        push_decimal(&mut out, i as u64);
        assert(out@ =~= dollar_text(i as nat));
    }
    out
}


/// The names of the first `k` columns, separated by commas.
pub open spec fn column_text(columns: Seq<String>, k: nat) -> Seq<char>
    decreases k,
{
    if k == 0 {
        Seq::empty()
    } else if k == 1 {
        columns[0]@
    } else {
        column_text(columns, (k - 1) as nat) + seq![','] + columns[k - 1]@
    }
}

/// The statement that inserts one row into a table, with a placeholder for each column.
pub open spec fn insert_text(table: Seq<char>, columns: Seq<String>) -> Seq<char> {
    "INSERT INTO "@ + table + " ( "@ + column_text(columns, columns.len()) + " ) VALUES ( "@
        + dollar_text(columns.len()) + " )"@
}

/// The statement that inserts one row into `table`, naming every column and giving each a
/// placeholder for its value, in the order of the columns.
pub fn insert_statement(table: &str, columns: &Vec<String>) -> (r: String)
    ensures
        r@ == insert_text(table@, columns@),
{
    let mut out = String::new();
    out.append("INSERT INTO ");
    out.append(table);
    out.append(" ( ");
    let ghost head = out@;
    let mut i: usize = 0;
    proof {
        reveal_strlit(",");
        assert(out@ =~= head + column_text(columns@, 0));
    }
    while i < columns.len()
        invariant
            i <= columns@.len(),
            out@ == head + column_text(columns@, i as nat),
            ","@ == seq![','],
        decreases columns@.len() - i,
    {
        if i > 0 {
            out.append(",");
        }
        out.append(columns[i].as_str());
        i += 1;
        assert(out@ =~= head + column_text(columns@, i as nat));
    }
    out.append(" ) VALUES ( ");
    let dollars = dollar_values(columns.len());
    out.append(dollars.as_str());
    out.append(" )");
    assert(out@ =~= insert_text(table@, columns@));
    out
}

} // verus!
