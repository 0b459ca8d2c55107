//! Request bodies that render their own statements.

pub mod area;
pub mod task;

use vstd::prelude::*;
use crate::models::db::{parameter_values, placeholder_texts, range_placeholders};
use crate::text::{decimal, joined, push_decimal, push_joined, views};
use crate::values::{AsSqlParam, SqlParam};

verus! {

/// A comparison flag: `EQUAL`, `BEFORE`, `ON_BEFORE`, `AFTER`, `ON_AFTER`
/// or `NOT_EQUAL`, held as its bits.
#[derive(Clone, Copy, PartialEq, Eq, Structural, Debug)]
pub struct CmpFlag(pub u8);

impl CmpFlag {
    // The bits of the named flags.
    pub const EQUAL: u8 = 0b001;
    pub const BEFORE: u8 = 0b010;
    pub const ON_BEFORE: u8 = 0b011;
    pub const AFTER: u8 = 0b100;
    pub const ON_AFTER: u8 = 0b101;
    pub const NOT_EQUAL: u8 = 0b110;

    /// Whether the bits are one of the six named flags.
    pub open spec fn is_named(self) -> bool {
        1 <= self.0 <= 6
    }

    /// The SQL operator of a named flag.
    pub open spec fn sql_text(self) -> Seq<char> {
        if self.0 == 1 {
            "="@
        } else if self.0 == 2 {
            "<"@
        } else if self.0 == 4 {
            ">"@
        } else if self.0 == 3 {
            "<="@
        } else if self.0 == 5 {
            ">="@
        } else {
            "!="@
        }
    }

    /// Whether the bits are one of the six named flags.
    pub fn named(&self) -> (r: bool)
        ensures
            r == self.is_named(),
    {
        1 <= self.0 && self.0 <= 6
    }

    /// The SQL operator of the flag.
    pub fn to_sql_cmp(&self) -> (r: &str)
        requires
            self.is_named(),
        ensures
            r@ == self.sql_text(),
    {
        if self.0 == 0b001 {
            return "=";
        } else if self.0 == 0b010 {
            return "<";
        } else if self.0 == 0b100 {
            return ">";
        } else if self.0 == 0b011 {
            return "<=";
        } else if self.0 == 0b101 {
            return ">=";
        }
        "!="
    }
}

/// A change to one field: clear it or set it to a value.
pub enum UpdateMethod<T> {
    Remove,
    Change(T),
}

/// The assignment an update renders for `column`, its value taken as parameter `n`.
pub open spec fn update_text<T>(u: UpdateMethod<T>, column: Seq<char>, n: nat) -> Seq<char> {
    match u {
        UpdateMethod::Remove => column + "=NULL"@,
        UpdateMethod::Change(_) => column + "=$"@ + decimal(n),
    }
}

/// Whether the update binds a value.
pub open spec fn update_binds<T>(u: UpdateMethod<T>) -> bool {
    u is Change
}

impl<T> UpdateMethod<T> {
    /// The assignment for `column` and the next free parameter number.
    pub fn update_string(&self, column_name: &str, n: usize) -> (r: (String, usize))
        requires
            n < usize::MAX,
        ensures
            r.0@ == update_text(*self, column_name@, n as nat),
            r.1 == if update_binds(*self) { n + 1 } else { n as int },
    {
        let mut s = String::new();
        s.append(column_name);
        match self {
            UpdateMethod::Remove => {
                s.append("=NULL");
                (s, n)
            },
            UpdateMethod::Change(_) => {
                s.append("=$");
                push_decimal(&mut s, n);
                (s, n + 1)
            },
        }
    }

    /// The value the update sets, if any.
    pub fn get_param(&self) -> (r: Option<&T>)
        ensures
            r == match *self {
                UpdateMethod::Remove => None,
                UpdateMethod::Change(o) => Some(&o),
            },
    {
        match self {
            UpdateMethod::Remove => None,
            UpdateMethod::Change(o) => Some(o),
        }
    }
}

impl<T> From<UpdateMethod<T>> for Option<T> {
    /// The new value of the field: `None` when the update clears it.
    fn from(value: UpdateMethod<T>) -> (r: Option<T>) {
        match value {
            UpdateMethod::Change(o) => Some(o),
            UpdateMethod::Remove => None,
        }
    }
}

impl<T> vstd::std_specs::convert::FromSpecImpl<UpdateMethod<T>> for Option<T> {
    open spec fn obeys_from_spec() -> bool {
        true
    }

    open spec fn from_spec(value: UpdateMethod<T>) -> Option<T> {
        match value {
            UpdateMethod::Change(o) => Some(o),
            UpdateMethod::Remove => None,
        }
    }
}

/// A filter on one field: present or absent, equal to a value, or compared with one.
pub enum QueryMethod<T> {
    NotNull(bool),
    Match(T),
    Compare(T, CmpFlag),
}

/// Whether the filter binds a value.
pub open spec fn filter_binds<T>(q: QueryMethod<T>) -> bool {
    !(q is NotNull)
}

/// Whether the filter can be rendered: a comparison needs a named flag.
pub open spec fn filter_renders<T>(q: QueryMethod<T>) -> bool {
    match q {
        QueryMethod::Compare(_, flag) => flag.is_named(),
        _ => true,
    }
}

/// The condition a filter renders for `column`, its value taken as parameter `n`.
pub open spec fn filter_text<T>(q: QueryMethod<T>, column: Seq<char>, n: nat) -> Seq<char> {
    match q {
        QueryMethod::NotNull(b) => if b {
            column + " IS NOT NULL"@
        } else {
            column + " IS NULL"@
        },
        QueryMethod::Match(_) => column + "=$"@ + decimal(n),
        QueryMethod::Compare(_, flag) => column + flag.sql_text() + "$"@ + decimal(n),
    }
}

fn flag_text(flag: &CmpFlag) -> (r: &str)
    requires
        flag.is_named(),
    ensures
        r@ == flag.sql_text(),
{
    flag.to_sql_cmp()
}

impl<T> QueryMethod<T> {
    /// The condition for `column` and the next free parameter number.
    pub fn condition_string(&self, column_name: &str, n: usize) -> (r: (String, usize))
        requires
            n < usize::MAX,
            filter_renders(*self),
        ensures
            r.0@ == filter_text(*self, column_name@, n as nat),
            r.1 == if filter_binds(*self) { n + 1 } else { n as int },
    {
        let mut s = String::new();
        s.append(column_name);
        match self {
            QueryMethod::NotNull(b) => {
                if *b {
                    s.append(" IS NOT NULL");
                } else {
                    s.append(" IS NULL");
                }
                (s, n)
            },
            QueryMethod::Match(_) => {
                s.append("=$");
                push_decimal(&mut s, n);
                (s, n + 1)
            },
            QueryMethod::Compare(_, flag) => {
                s.append(flag_text(flag));
                s.append("$");
                push_decimal(&mut s, n);
                (s, n + 1)
            },
        }
    }

    /// Whether the filter can be rendered.
    pub fn renders(&self) -> (r: bool)
        ensures
            r == filter_renders(*self),
    {
        match self {
            QueryMethod::Compare(_, flag) => flag.named(),
            _ => true,
        }
    }

    /// The value the filter compares with, if any.
    pub fn get_param(&self) -> (r: Option<&T>)
        ensures
            r == match *self {
                QueryMethod::NotNull(_) => None,
                QueryMethod::Match(o) => Some(&o),
                QueryMethod::Compare(o, _) => Some(&o),
            },
    {
        match self {
            QueryMethod::NotNull(..) => None,
            QueryMethod::Match(o) | QueryMethod::Compare(o, _) => Some(o),
        }
    }
}

/// What a request has put together so far: the pieces of a list (columns,
/// assignments or conditions), the parameters, and the next parameter number.
#[verifier::ext_equal]
pub struct Assembly<'a> {
    pub pieces: Seq<Seq<char>>,
    pub params: Seq<SqlParam<'a>>,
    pub next: nat,
}

/// The assembly held by a list of pieces, a list of parameters and a number.
pub open spec fn assembly_of<'a>(pieces: Seq<String>, params: Seq<SqlParam<'a>>, next: usize) -> Assembly<'a> {
    Assembly { pieces: views(pieces), params, next: next as nat }
}

/// After an optional column of an insert: the column and its value, when present.
pub open spec fn with_present<'a>(a: Assembly<'a>, column: Seq<char>, value: Option<SqlParam<'a>>) -> Assembly<'a> {
    match value {
        Some(p) => Assembly { pieces: a.pieces.push(column), params: a.params.push(p), next: a.next },
        None => a,
    }
}

/// An optional column of an insert keeps the columns and the parameters
/// paired: either both grow by one or neither changes.
pub proof fn law_present_keeps_pairs<'a>(a: Assembly<'a>, column: Seq<char>, value: Option<SqlParam<'a>>)
    requires
        a.pieces.len() == a.params.len(),
    ensures
        with_present(a, column, value).pieces.len() == with_present(a, column, value).params.len(),
{
}

/// After an optional update: `Some(None)` clears the column, `Some(Some(p))` sets it to `p`.
pub open spec fn with_update<'a>(a: Assembly<'a>, column: Seq<char>, update: Option<Option<SqlParam<'a>>>) -> Assembly<'a> {
    match update {
        None => a,
        Some(None) => Assembly { pieces: a.pieces.push(column + "=NULL"@), params: a.params, next: a.next },
        Some(Some(p)) => Assembly {
            pieces: a.pieces.push(column + "=$"@ + decimal(a.next)),
            params: a.params.push(p),
            next: a.next + 1,
        },
    }
}

/// After an optional filter; `pushes` tells whether the request adds the
/// filter's value to the parameters.
pub open spec fn with_filter<'a>(
    a: Assembly<'a>,
    column: Seq<char>,
    filter: Option<QueryMethod<SqlParam<'a>>>,
    pushes: bool,
) -> Assembly<'a> {
    match filter {
        None => a,
        Some(q) => Assembly {
            pieces: a.pieces.push(filter_text(q, column, a.next)),
            params: if pushes && filter_binds(q) {
                a.params.push(filter_value(q))
            } else {
                a.params
            },
            next: if filter_binds(q) { a.next + 1 } else { a.next },
        },
    }
}

/// The value a binding filter compares with.
pub open spec fn filter_value<'a>(q: QueryMethod<SqlParam<'a>>) -> SqlParam<'a> {
    match q {
        QueryMethod::Match(p) => p,
        QueryMethod::Compare(p, _) => p,
        QueryMethod::NotNull(_) => SqlParam::Null,
    }
}

/// The parameter of an optional value.
pub open spec fn present_param<T: AsSqlParam>(value: &Option<T>) -> Option<SqlParam<'_>> {
    match value {
        Some(v) => Some(v.param_of()),
        None => None,
    }
}

/// An optional update taken by its parameter.
pub open spec fn update_of<T: AsSqlParam>(value: &Option<UpdateMethod<T>>) -> Option<Option<SqlParam<'_>>> {
    match value {
        None => None,
        Some(UpdateMethod::Remove) => Some(None),
        Some(UpdateMethod::Change(v)) => Some(Some(v.param_of())),
    }
}

/// An optional filter taken by its parameter.
pub open spec fn filter_of<T: AsSqlParam>(value: &Option<QueryMethod<T>>) -> Option<QueryMethod<SqlParam<'_>>> {
    match value {
        None => None,
        Some(QueryMethod::NotNull(b)) => Some(QueryMethod::NotNull(*b)),
        Some(QueryMethod::Match(v)) => Some(QueryMethod::Match(v.param_of())),
        Some(QueryMethod::Compare(v, f)) => Some(QueryMethod::Compare(v.param_of(), *f)),
    }
}

/// An optional filter on a flag, whose value is never bound.
pub open spec fn flag_filter_of<'a>(value: &Option<QueryMethod<bool>>) -> Option<QueryMethod<SqlParam<'a>>> {
    match value {
        None => None,
        Some(QueryMethod::NotNull(b)) => Some(QueryMethod::NotNull(*b)),
        Some(QueryMethod::Match(_)) => Some(QueryMethod::Match(SqlParam::Null)),
        Some(QueryMethod::Compare(_, f)) => Some(QueryMethod::Compare(SqlParam::Null, *f)),
    }
}

/// Whether an optional filter can be rendered.
pub open spec fn optional_filter_renders<T>(value: Option<QueryMethod<T>>) -> bool {
    match value {
        Some(q) => filter_renders(q),
        None => true,
    }
}

/// Whether an optional filter can be rendered.
pub fn optional_renders<T>(value: &Option<QueryMethod<T>>) -> (r: bool)
    ensures
        r == optional_filter_renders(*value),
{
    match value {
        Some(q) => q.renders(),
        None => true,
    }
}

/// Adds an optional column of an insert.
pub fn push_present<'a, T: AsSqlParam>(
    columns: &mut Vec<String>,
    params: &mut Vec<SqlParam<'a>>,
    column: &str,
    value: &'a Option<T>,
)
    ensures
        assembly_of(final(columns)@, final(params)@, 0) == with_present(
            assembly_of(old(columns)@, old(params)@, 0),
            column@,
            present_param(value),
        ),
{
    if let Some(v) = value {
        columns.push(column.to_owned());
        params.push(v.as_sql_param());
    }
    assert(views(columns@) =~= with_present(assembly_of(old(columns)@, old(params)@, 0), column@, present_param(value)).pieces);
}

/// Adds an optional update and returns the next parameter number.
pub fn push_update<'a, T: AsSqlParam>(
    updates: &mut Vec<String>,
    params: &mut Vec<SqlParam<'a>>,
    column: &str,
    value: &'a Option<UpdateMethod<T>>,
    n: usize,
) -> (next: usize)
    requires
        n < usize::MAX,
    ensures
        next <= n + 1,
        assembly_of(final(updates)@, final(params)@, next) == with_update(
            assembly_of(old(updates)@, old(params)@, n),
            column@,
            update_of(value),
        ),
{
    let mut next = n;
    if let Some(u) = value {
        let (update, k) = u.update_string(column, n);
        updates.push(update);
        next = k;
        if let Some(v) = u.get_param() {
            params.push(v.as_sql_param());
        }
    }
    assert(views(updates@) =~= with_update(assembly_of(old(updates)@, old(params)@, n), column@, update_of(value)).pieces);
    next
}

/// Adds an optional filter and returns the next parameter number; `pushes`
/// tells whether the filter's value goes to the parameters.
pub fn push_filter<'a, T: AsSqlParam>(
    conditions: &mut Vec<String>,
    params: &mut Vec<SqlParam<'a>>,
    column: &str,
    value: &'a Option<QueryMethod<T>>,
    n: usize,
    pushes: bool,
) -> (next: usize)
    requires
        n < usize::MAX,
        optional_filter_renders(*value),
    ensures
        next <= n + 1,
        assembly_of(final(conditions)@, final(params)@, next) == with_filter(
            assembly_of(old(conditions)@, old(params)@, n),
            column@,
            filter_of(value),
            pushes,
        ),
{
    let mut next = n;
    if let Some(q) = value {
        let (condition, k) = q.condition_string(column, n);
        conditions.push(condition);
        next = k;
        if pushes {
            if let Some(v) = q.get_param() {
                params.push(v.as_sql_param());
            }
        }
    }
    assert(views(conditions@) =~= with_filter(assembly_of(old(conditions)@, old(params)@, n), column@, filter_of(value), pushes).pieces);
    next
}

/// Adds an optional filter on a flag and returns the next parameter number;
/// the filter's value is never bound.
pub fn push_flag_filter<'a>(
    conditions: &mut Vec<String>,
    params: &Vec<SqlParam<'a>>,
    column: &str,
    value: &Option<QueryMethod<bool>>,
    n: usize,
) -> (next: usize)
    requires
        n < usize::MAX,
        optional_filter_renders(*value),
    ensures
        next <= n + 1,
        assembly_of(final(conditions)@, params@, next) == with_filter(
            assembly_of(old(conditions)@, params@, n),
            column@,
            flag_filter_of(value),
            false,
        ),
{
    let mut next = n;
    if let Some(q) = value {
        let (condition, k) = q.condition_string(column, n);
        conditions.push(condition);
        next = k;
    }
    assert(views(conditions@) =~= with_filter(assembly_of(old(conditions)@, params@, n), column@, flag_filter_of(value), false).pieces);
    next
}

/// After an optional update listed by column: the column, and its value when it sets one.
pub open spec fn with_listed_update<'a>(
    a: Assembly<'a>,
    column: Seq<char>,
    update: Option<Option<SqlParam<'a>>>,
) -> Assembly<'a> {
    match update {
        None => a,
        Some(None) => Assembly { pieces: a.pieces.push(column), params: a.params, next: a.next },
        Some(Some(p)) => Assembly { pieces: a.pieces.push(column), params: a.params.push(p), next: a.next },
    }
}

/// After an optional flag listed by column: the column, and `stamp` when
/// the flag is set or `NULL` when it is cleared.
pub open spec fn with_listed_flag<'a>(
    a: Assembly<'a>,
    column: Seq<char>,
    flag: Option<bool>,
    stamp: SqlParam<'a>,
) -> Assembly<'a> {
    match flag {
        None => a,
        Some(b) => Assembly {
            pieces: a.pieces.push(column),
            params: a.params.push(if b { stamp } else { SqlParam::Null }),
            next: a.next,
        },
    }
}

/// Adds an optional update listed by column.
pub fn push_listed_update<'a, T: AsSqlParam>(
    columns: &mut Vec<String>,
    params: &mut Vec<SqlParam<'a>>,
    column: &str,
    value: &'a Option<UpdateMethod<T>>,
)
    ensures
        final(columns)@.len() <= old(columns)@.len() + 1,
        assembly_of(final(columns)@, final(params)@, 0) == with_listed_update(
            assembly_of(old(columns)@, old(params)@, 0),
            column@,
            update_of(value),
        ),
{
    if let Some(u) = value {
        columns.push(column.to_owned());
        if let Some(v) = u.get_param() {
            params.push(v.as_sql_param());
        }
    }
    assert(views(columns@) =~= with_listed_update(assembly_of(old(columns)@, old(params)@, 0), column@, update_of(value)).pieces);
}

/// Adds an optional flag listed by column.
pub fn push_listed_flag<'a>(
    columns: &mut Vec<String>,
    params: &mut Vec<SqlParam<'a>>,
    column: &str,
    flag: Option<bool>,
    stamp: SqlParam<'a>,
)
    ensures
        final(columns)@.len() <= old(columns)@.len() + 1,
        assembly_of(final(columns)@, final(params)@, 0) == with_listed_flag(
            assembly_of(old(columns)@, old(params)@, 0),
            column@,
            flag,
            stamp,
        ),
{
    if let Some(b) = flag {
        columns.push(column.to_owned());
        if b {
            params.push(stamp);
        } else {
            params.push(SqlParam::Null);
        }
    }
    assert(views(columns@) =~= with_listed_flag(assembly_of(old(columns)@, old(params)@, 0), column@, flag, stamp).pieces);
}

/// `UPDATE table SET (columns)=($3,...,$(count+2)) WHERE id=$1 AND user=$2 RETURNING *`.
pub open spec fn update_listed_text(
    table: Seq<char>,
    columns: Seq<Seq<char>>,
    count: nat,
    id: Seq<char>,
    user: Seq<char>,
) -> Seq<char> {
    "UPDATE "@ + table + " SET ("@ + joined(columns, ","@) + ")=("@ + joined(placeholder_texts(3, count), ","@)
        + ") WHERE "@ + id + "=$1 AND "@ + user + "=$2 RETURNING *"@
}

/// Renders an update of the row with the given identifier and owner that
/// lists the columns and then `count` placeholders from `$3` on.
pub fn update_listed(table: &str, columns: &Vec<String>, count: usize, id: &str, user: &str) -> (r: String)
    requires
        count + 2 <= usize::MAX,
    ensures
        r@ == update_listed_text(table@, views(columns@), count as nat, id@, user@),
{
    let mut s = String::new();
    s.append("UPDATE ");
    s.append(table);
    s.append(" SET (");
    push_joined(&mut s, columns, ",");
    s.append(")=(");
    let range = 3..=count + 2;
    assert(range_placeholders(range) =~= placeholder_texts(3, count as nat));
    let values = parameter_values(range);
    push_joined(&mut s, &values, ",");
    s.append(") WHERE ");
    s.append(id);
    s.append("=$1 AND ");
    s.append(user);
    s.append("=$2 RETURNING *");
    s
}

/// `INSERT INTO table (columns) VALUES ($1,...,$count) RETURNING id AS id`.
pub open spec fn insert_returning_text(table: Seq<char>, columns: Seq<Seq<char>>, count: nat, id: Seq<char>) -> Seq<char> {
    "INSERT INTO "@ + table + " ("@ + joined(columns, ","@) + ") VALUES ("@ + joined(
        placeholder_texts(1, count),
        ","@,
    ) + ") RETURNING "@ + id + " AS id"@
}

/// Renders an insert that returns the new row's identifier as `id`.
pub fn insert_returning(table: &str, columns: &Vec<String>, count: usize, id: &str) -> (r: String)
    ensures
        r@ == insert_returning_text(table@, views(columns@), count as nat, id@),
{
    let mut s = String::new();
    s.append("INSERT INTO ");
    s.append(table);
    s.append(" (");
    push_joined(&mut s, columns, ",");
    s.append(") VALUES (");
    let range = 1..=count;
    assert(range_placeholders(range) =~= placeholder_texts(1, count as nat));
    let values = parameter_values(range);
    push_joined(&mut s, &values, ",");
    s.append(") RETURNING ");
    s.append(id);
    s.append(" AS id");
    s
}

/// `prefix table WHERE id=$1 AND user=$2`.
pub open spec fn by_ids_text(prefix: Seq<char>, table: Seq<char>, id: Seq<char>, user: Seq<char>) -> Seq<char> {
    prefix + table + " WHERE "@ + id + "=$1 AND "@ + user + "=$2"@
}

/// Renders a statement on the row with the given identifier and owner.
pub fn by_ids(prefix: &str, table: &str, id: &str, user: &str) -> (r: String)
    ensures
        r@ == by_ids_text(prefix@, table@, id@, user@),
{
    let mut s = String::new();
    s.append(prefix);
    s.append(table);
    s.append(" WHERE ");
    s.append(id);
    s.append("=$1 AND ");
    s.append(user);
    s.append("=$2");
    s
}

/// `UPDATE table SET pieces WHERE id=$1 AND user=$2 RETURNING *`.
pub open spec fn update_returning_text(table: Seq<char>, pieces: Seq<Seq<char>>, id: Seq<char>, user: Seq<char>) -> Seq<char> {
    "UPDATE "@ + table + " SET "@ + joined(pieces, ","@) + " WHERE "@ + id + "=$1 AND "@ + user
        + "=$2 RETURNING *"@
}

/// Renders an update of the row with the given identifier and owner.
pub fn update_returning(table: &str, pieces: &Vec<String>, id: &str, user: &str) -> (r: String)
    ensures
        r@ == update_returning_text(table@, views(pieces@), id@, user@),
{
    let mut s = String::new();
    s.append("UPDATE ");
    s.append(table);
    s.append(" SET ");
    push_joined(&mut s, pieces, ",");
    s.append(" WHERE ");
    s.append(id);
    s.append("=$1 AND ");
    s.append(user);
    s.append("=$2 RETURNING *");
    s
}

/// `SELECT * FROM table WHERE conditions` with the conditions joined by `AND`.
pub open spec fn select_where_text(table: Seq<char>, conditions: Seq<Seq<char>>) -> Seq<char> {
    "SELECT * FROM "@ + table + " WHERE "@ + joined(conditions, " AND "@)
}

/// Renders a search with the given conditions.
pub fn select_where(table: &str, conditions: &Vec<String>) -> (r: String)
    ensures
        r@ == select_where_text(table@, views(conditions@)),
{
    let mut s = String::new();
    s.append("SELECT * FROM ");
    s.append(table);
    s.append(" WHERE ");
    push_joined(&mut s, conditions, " AND ");
    s
}

/// `%query%`: the pattern that matches any text holding the query.
pub fn like_pattern(query: &String) -> (r: String)
    ensures
        r@ == "%"@ + query@ + "%"@,
{
    let mut s = String::new();
    s.append("%");
    s.append(query.as_str());
    s.append("%");
    s
}

/// `column=$n`.
pub fn assignment(column: &str, n: usize) -> (r: String)
    ensures
        r@ == column@ + "=$"@ + decimal(n as nat),
{
    let mut s = String::new();
    s.append(column);
    s.append("=$");
    push_decimal(&mut s, n);
    s
}

/// `column LIKE $n`.
pub fn like_condition(column: &str, n: usize) -> (r: String)
    ensures
        r@ == column@ + " LIKE $"@ + decimal(n as nat),
{
    let mut s = String::new();
    s.append(column);
    s.append(" LIKE $");
    push_decimal(&mut s, n);
    s
}

/// The named flags render six different operators: no two of them can be
/// mistaken for each other in a statement.
pub proof fn law_named_flags_render_apart(first: CmpFlag, second: CmpFlag)
    requires
        first.is_named(),
        second.is_named(),
        first.sql_text() == second.sql_text(),
    ensures
        first == second,
{
    reveal_strlit("=");
    reveal_strlit("<");
    reveal_strlit(">");
    reveal_strlit("<=");
    reveal_strlit(">=");
    reveal_strlit("!=");
    assert("="@ =~= seq!['=']);
    assert("<"@ =~= seq!['<']);
    assert(">"@ =~= seq!['>']);
    assert("<="@ =~= seq!['<', '=']);
    assert(">="@ =~= seq!['>', '=']);
    assert("!="@ =~= seq!['!', '=']);
    let a = first.sql_text();
    let b = second.sql_text();
    assert(a.len() == b.len());
    assert(a[0] == b[0]);
}

/// Whether the piece begins with the name of the column.
pub open spec fn on_column(piece: Seq<char>, column: Seq<char>) -> bool {
    &&& column.len() <= piece.len()
    &&& forall|k: int| 0 <= k < column.len() ==> #[trigger] piece[k] == column[k]
}

/// Whether some piece of the list begins with the name of the column.
pub open spec fn names_column(pieces: Seq<Seq<char>>, column: Seq<char>) -> bool {
    exists|i: int| 0 <= i < pieces.len() && on_column(#[trigger] pieces[i], column)
}

/// A piece that begins with a column's name still does with more after it.
pub proof fn lemma_on_column_extends(piece: Seq<char>, column: Seq<char>, tail: Seq<char>)
    requires
        on_column(piece, column),
    ensures
        on_column(piece + tail, column),
{
    assert forall|k: int| 0 <= k < column.len() implies #[trigger] (piece + tail)[k] == column[k] by {
        assert(piece[k] == column[k]);
    }
}

/// A column's name begins with itself.
pub proof fn lemma_on_own_column(column: Seq<char>)
    ensures
        on_column(column, column),
{
}

/// Adding a piece keeps every column named before, and names the piece's.
pub proof fn lemma_names_after_push(pieces: Seq<Seq<char>>, x: Seq<char>, column: Seq<char>)
    ensures
        forall|c: Seq<char>| names_column(pieces, c) ==> #[trigger] names_column(pieces.push(x), c),
        on_column(x, column) ==> names_column(pieces.push(x), column),
{
    assert forall|c: Seq<char>| names_column(pieces, c) implies #[trigger] names_column(pieces.push(x), c) by {
        let i = choose|i: int| 0 <= i < pieces.len() && on_column(#[trigger] pieces[i], c);
        assert(pieces.push(x)[i] == pieces[i]);
    }
    if on_column(x, column) {
        assert(pieces.push(x)[pieces.len() as int] == x);
    }
}

/// The condition a filter renders begins with its column's name.
pub proof fn lemma_filter_on_column<T>(q: QueryMethod<T>, column: Seq<char>, n: nat)
    ensures
        on_column(filter_text(q, column, n), column),
{
    lemma_on_own_column(column);
    match q {
        QueryMethod::NotNull(b) => {
            if b {
                lemma_on_column_extends(column, column, " IS NOT NULL"@);
            } else {
                lemma_on_column_extends(column, column, " IS NULL"@);
            }
        },
        QueryMethod::Match(_) => {
            lemma_on_column_extends(column, column, "=$"@);
            lemma_on_column_extends(column + "=$"@, column, decimal(n));
        },
        QueryMethod::Compare(_, flag) => {
            lemma_on_column_extends(column, column, flag.sql_text());
            lemma_on_column_extends(column + flag.sql_text(), column, "$"@);
            lemma_on_column_extends(column + flag.sql_text() + "$"@, column, decimal(n));
        },
    }
}

/// An optional filter keeps the columns named before, names its own when
/// present, and adds one condition exactly when present.
pub proof fn lemma_filter_names<'a>(
    a: Assembly<'a>,
    column: Seq<char>,
    filter: Option<QueryMethod<SqlParam<'a>>>,
    pushes: bool,
)
    ensures
        forall|c: Seq<char>|
            names_column(a.pieces, c) ==> #[trigger] names_column(with_filter(a, column, filter, pushes).pieces, c),
        filter is Some ==> names_column(with_filter(a, column, filter, pushes).pieces, column),
        with_filter(a, column, filter, pushes).pieces.len() == a.pieces.len() + if filter is Some {
            1int
        } else {
            0
        },
        forall|x: SqlParam<'a>|
            a.params.contains(x) ==> #[trigger] with_filter(a, column, filter, pushes).params.contains(x),
        filter is Some && pushes && filter_binds(filter.unwrap()) ==> with_filter(
            a,
            column,
            filter,
            pushes,
        ).params.contains(filter_value(filter.unwrap())),
{
    let r = with_filter(a, column, filter, pushes);
    assert forall|x: SqlParam<'a>| a.params.contains(x) implies #[trigger] r.params.contains(x) by {
        let i = choose|i: int| 0 <= i < a.params.len() && a.params[i] == x;
        assert(r.params[i] == a.params[i]);
    }
    if let Some(q) = filter {
        if pushes && filter_binds(q) {
            assert(r.params[a.params.len() as int] == filter_value(q));
        }
    }
    if let Some(q) = filter {
        lemma_filter_on_column(q, column, a.next);
        lemma_names_after_push(a.pieces, filter_text(q, column, a.next), column);
    }
}

/// An optional update keeps the columns named before, names its own when
/// present, and adds one assignment exactly when present; a new value is
/// bound at the number its assignment gives, when the parameters so far
/// fill the numbers below the next one.
pub proof fn lemma_update_names<'a>(a: Assembly<'a>, column: Seq<char>, update: Option<Option<SqlParam<'a>>>)
    ensures
        forall|c: Seq<char>|
            names_column(a.pieces, c) ==> #[trigger] names_column(with_update(a, column, update).pieces, c),
        update is Some ==> names_column(with_update(a, column, update).pieces, column),
        with_update(a, column, update).pieces.len() == a.pieces.len() + if update is Some { 1int } else { 0 },
        a.params.len() + 1 == a.next ==> with_update(a, column, update).params.len() + 1 == with_update(
            a,
            column,
            update,
        ).next,
        forall|c: Seq<char>, p: SqlParam<'a>|
            binds_at(a, c, p) ==> #[trigger] binds_at(with_update(a, column, update), c, p),
        a.params.len() + 1 == a.next && update is Some && update.unwrap() is Some ==> binds_at(
            with_update(a, column, update),
            column,
            update.unwrap().unwrap(),
        ),
{
    lemma_on_own_column(column);
    let r = with_update(a, column, update);
    assert forall|c: Seq<char>, p: SqlParam<'a>| binds_at(a, c, p) implies #[trigger] binds_at(r, c, p) by {
        let k = choose|k: nat| 1 <= k <= a.params.len() && a.pieces.contains(#[trigger] (c + "=$"@ + decimal(k)))
            && a.params[k - 1] == p;
        let i = choose|i: int| 0 <= i < a.pieces.len() && a.pieces[i] == c + "=$"@ + decimal(k);
        match update {
            Some(None) => {
                assert(r.pieces[i] == a.pieces[i]);
            },
            Some(Some(v)) => {
                assert(r.pieces[i] == a.pieces[i]);
                assert(r.params[k - 1] == a.params[k - 1]);
            },
            None => {},
        }
    }
    match update {
        Some(None) => {
            lemma_on_column_extends(column, column, "=NULL"@);
            lemma_names_after_push(a.pieces, column + "=NULL"@, column);
        },
        Some(Some(v)) => {
            lemma_on_column_extends(column, column, "=$"@);
            lemma_on_column_extends(column + "=$"@, column, decimal(a.next));
            lemma_names_after_push(a.pieces, column + "=$"@ + decimal(a.next), column);
            if a.params.len() + 1 == a.next {
                assert(r.pieces[a.pieces.len() as int] == column + "=$"@ + decimal(a.next));
                assert(r.params[a.next - 1] == v);
            }
        },
        None => {},
    }
}

/// Whether the assembly assigns `column` from a parameter whose value is
/// `p`: some assignment `column=$k` with `p` as parameter `k`.
pub open spec fn binds_at<'a>(a: Assembly<'a>, column: Seq<char>, p: SqlParam<'a>) -> bool {
    exists|k: nat|
        1 <= k <= a.params.len() && a.pieces.contains(#[trigger] (column + "=$"@ + decimal(k))) && a.params[k - 1]
            == p
}

/// How many times `x` occurs in the list.
pub open spec fn occurrences<A>(s: Seq<A>, x: A) -> nat
    decreases s.len(),
{
    if s.len() == 0 {
        0
    } else {
        occurrences(s.drop_last(), x) + if s.last() == x {
            1nat
        } else {
            0nat
        }
    }
}

/// Adding an item adds one occurrence of it and leaves the others.
pub proof fn lemma_occurrences_push<A>(s: Seq<A>, y: A)
    ensures
        forall|x: A| #[trigger] occurrences(s.push(y), x) == occurrences(s, x) + if y == x { 1nat } else { 0nat },
{
    assert(s.push(y).drop_last() =~= s);
}

/// Whether the value is the time of a request or `NULL`: what a listed
/// flag binds.
pub open spec fn flag_value(p: SqlParam<'_>) -> bool {
    p is Timestamp || p is Null
}

/// An optional update listed by column keeps the columns listed before,
/// lists its own when present, and adds one column exactly when present; a
/// new value that is neither a time nor `NULL` leaves the count of every
/// time and of `NULL` among the parameters as it was.
pub proof fn lemma_listed_update_lists<'a>(a: Assembly<'a>, column: Seq<char>, update: Option<Option<SqlParam<'a>>>)
    requires
        update matches Some(Some(p)) ==> !flag_value(p),
    ensures
        forall|c: Seq<char>|
            a.pieces.contains(c) ==> #[trigger] with_listed_update(a, column, update).pieces.contains(c),
        update is Some ==> with_listed_update(a, column, update).pieces.contains(column),
        with_listed_update(a, column, update).pieces.len() == a.pieces.len() + if update is Some {
            1int
        } else {
            0
        },
        forall|x: SqlParam<'a>|
            flag_value(x) ==> #[trigger] occurrences(with_listed_update(a, column, update).params, x) == occurrences(
                a.params,
                x,
            ),
        forall|x: SqlParam<'a>|
            a.params.contains(x) ==> #[trigger] with_listed_update(a, column, update).params.contains(x),
        update matches Some(Some(p)) ==> with_listed_update(a, column, update).params.contains(p),
{
    let r = with_listed_update(a, column, update);
    assert forall|x: SqlParam<'a>| a.params.contains(x) implies #[trigger] r.params.contains(x) by {
        let i = choose|i: int| 0 <= i < a.params.len() && a.params[i] == x;
        assert(r.params[i] == a.params[i]);
    }
    if let Some(Some(p)) = update {
        assert(r.params[a.params.len() as int] == p);
    }
    if update is Some {
        assert forall|c: Seq<char>| a.pieces.contains(c) implies #[trigger] r.pieces.contains(c) by {
            let i = choose|i: int| 0 <= i < a.pieces.len() && a.pieces[i] == c;
            assert(r.pieces[i] == a.pieces[i]);
        }
        assert(r.pieces[a.pieces.len() as int] == column);
    }
    if let Some(Some(p)) = update {
        lemma_occurrences_push(a.params, p);
    }
}

/// An optional flag listed by column keeps the columns listed before, lists
/// its own when present, adds one column exactly when present, and binds
/// `stamp` when set or `NULL` when cleared.
pub proof fn lemma_listed_flag_lists<'a>(a: Assembly<'a>, column: Seq<char>, flag: Option<bool>, stamp: SqlParam<'a>)
    ensures
        forall|c: Seq<char>|
            a.pieces.contains(c) ==> #[trigger] with_listed_flag(a, column, flag, stamp).pieces.contains(c),
        flag is Some ==> with_listed_flag(a, column, flag, stamp).pieces.contains(column),
        with_listed_flag(a, column, flag, stamp).pieces.len() == a.pieces.len() + if flag is Some {
            1int
        } else {
            0
        },
        forall|x: SqlParam<'a>|
            #[trigger] occurrences(with_listed_flag(a, column, flag, stamp).params, x) == occurrences(a.params, x)
                + if flag == Some(true) && x == stamp {
                1nat
            } else if flag == Some(false) && x == SqlParam::<'a>::Null {
                1nat
            } else {
                0nat
            },
        forall|x: SqlParam<'a>|
            a.params.contains(x) ==> #[trigger] with_listed_flag(a, column, flag, stamp).params.contains(x),
{
    let r = with_listed_flag(a, column, flag, stamp);
    assert forall|x: SqlParam<'a>| a.params.contains(x) implies #[trigger] r.params.contains(x) by {
        let i = choose|i: int| 0 <= i < a.params.len() && a.params[i] == x;
        assert(r.params[i] == a.params[i]);
    }
    if let Some(b) = flag {
        assert forall|c: Seq<char>| a.pieces.contains(c) implies #[trigger] r.pieces.contains(c) by {
            let i = choose|i: int| 0 <= i < a.pieces.len() && a.pieces[i] == c;
            assert(r.pieces[i] == a.pieces[i]);
        }
        assert(r.pieces[a.pieces.len() as int] == column);
        lemma_occurrences_push(a.params, if b { stamp } else { SqlParam::Null });
    }
}

/// Whether the column is listed with `p` as its value: at the same place
/// in the columns and in the parameters.
pub open spec fn pairs<'a>(a: Assembly<'a>, column: Seq<char>, p: SqlParam<'a>) -> bool {
    exists|i: int| 0 <= i < a.pieces.len() && i < a.params.len() && #[trigger] a.pieces[i] == column && a.params[i] == p
}

/// An optional column of an insert keeps the pairs made before, pairs its
/// own column with its value when present, and adds one column exactly when
/// present.
pub proof fn lemma_present_pairs<'a>(a: Assembly<'a>, column: Seq<char>, value: Option<SqlParam<'a>>)
    requires
        a.pieces.len() == a.params.len(),
    ensures
        forall|c: Seq<char>, p: SqlParam<'a>| pairs(a, c, p) ==> #[trigger] pairs(with_present(a, column, value), c, p),
        value matches Some(p) ==> pairs(with_present(a, column, value), column, p),
        with_present(a, column, value).pieces.len() == a.pieces.len() + if value is Some { 1int } else { 0 },
        with_present(a, column, value).pieces.len() == with_present(a, column, value).params.len(),
{
    let r = with_present(a, column, value);
    if let Some(p) = value {
        assert forall|c: Seq<char>, q: SqlParam<'a>| pairs(a, c, q) implies #[trigger] pairs(r, c, q) by {
            let i = choose|i: int| 0 <= i < a.pieces.len() && i < a.params.len() && #[trigger] a.pieces[i] == c && a.params[i] == q;
            assert(r.pieces[i] == a.pieces[i]);
            assert(r.params[i] == a.params[i]);
        }
        assert(r.pieces[a.pieces.len() as int] == column);
        assert(r.params[a.pieces.len() as int] == p);
    }
}

} // verus!
