//! A builder for PostgreSQL statements with numbered parameters.
//!
//! The builder records a table, joins, column values, conditions, grouping,
//! a limit, an offset and returned columns, and renders them into a
//! `SELECT`, `INSERT`, `UPDATE` or `DELETE` statement together with the
//! values that the statement's `$n` placeholders refer to, in order.

use vstd::prelude::*;
use crate::text::{decimal, joined, views, str_views, push_decimal, push_joined};
use crate::values::SqlParam;

pub use crate::schema::AddToQuery;

verus! {

broadcast use vstd::string::group_string_axioms;

/// The value given with conditions that bind none.
pub const NULL: SqlParam<'static> = SqlParam::Null;

/// Comparison operators understood by the builder.
pub enum PostgresCmp {
    Equal,
    NotEqual,
    Less,
    LessEq,
    Greater,
    GreaterEq,
    IsNull,
    NotNull,
    Like,
    ILike,
    In,
    NotIn,
}

impl PostgresCmp {
    /// Whether the operator is one of the six binary comparisons.
    pub open spec fn is_basic(self) -> bool {
        ||| self is Equal
        ||| self is NotEqual
        ||| self is Less
        ||| self is LessEq
        ||| self is Greater
        ||| self is GreaterEq
    }

    /// Whether a condition with this operator binds a parameter value.
    pub open spec fn binds(self) -> bool {
        !(self is IsNull || self is NotNull)
    }

    /// The SQL text of a binary comparison operator.
    pub open spec fn sql_text(self) -> Seq<char> {
        match self {
            PostgresCmp::Equal => "="@,
            PostgresCmp::NotEqual => "<>"@,
            PostgresCmp::Less => "<"@,
            PostgresCmp::LessEq => "<="@,
            PostgresCmp::Greater => ">"@,
            PostgresCmp::GreaterEq => ">="@,
            _ => Seq::empty(),
        }
    }

    /// The SQL operator of a binary comparison.
    pub fn as_sql_cmp(&self) -> (r: &str)
        requires
            self.is_basic(),
        ensures
            r@ == self.sql_text(),
    {
        match self {
            PostgresCmp::Equal => "=",
            PostgresCmp::NotEqual => "<>",
            PostgresCmp::Less => "<",
            PostgresCmp::LessEq => "<=",
            PostgresCmp::Greater => ">",
            PostgresCmp::GreaterEq => ">=",
            _ => "",
        }
    }
}

/// Conversion of a request's comparison into a builder operator.
pub trait ToPostgresCmp {
    fn to_postgres_cmp(&self) -> PostgresCmp;
}

/// Postgres joins
pub enum Join {
    Inner,
    Left,
    Right,
    Full,
}

impl Join {
    /// The SQL keyword of the join.
    pub open spec fn sql_text(self) -> Seq<char> {
        match self {
            Join::Inner => " INNER JOIN"@,
            Join::Left => " LEFT JOIN"@,
            Join::Right => " RIGHT JOIN"@,
            Join::Full => " FULL JOIN"@,
        }
    }
}

/// What a builder holds, with every name taken as its text.
pub struct QueryParts<V> {
    pub table: Seq<char>,
    pub joins: Seq<(Join, Seq<char>, Seq<char>)>,
    pub columns: Seq<(Seq<char>, V)>,
    pub conditions: Seq<(Seq<char>, PostgresCmp, V)>,
    pub group_by: Seq<Seq<char>>,
    pub having: Seq<(Seq<char>, PostgresCmp, V)>,
    pub limit: Option<usize>,
    pub offset: Option<usize>,
    pub return_columns: Seq<Seq<char>>,
}

/// SQL Query Builder
pub struct SQLQueryBuilder<V> {
    table: String,
    join_tables: Vec<(Join, String, String)>,
    columns: Vec<(String, V)>,
    conditions: Vec<(String, PostgresCmp, V)>,
    group_by: Vec<String>,
    having: Vec<(String, PostgresCmp, V)>,
    limit: Option<usize>,
    offset: Option<usize>,
    return_columns: Vec<String>,
}

pub open spec fn join_views(js: Seq<(Join, String, String)>) -> Seq<(Join, Seq<char>, Seq<char>)> {
    js.map_values(|j: (Join, String, String)| (j.0, j.1@, j.2@))
}

pub open spec fn column_views<V>(cs: Seq<(String, V)>) -> Seq<(Seq<char>, V)> {
    cs.map_values(|c: (String, V)| (c.0@, c.1))
}

pub open spec fn condition_views<V>(cs: Seq<(String, PostgresCmp, V)>) -> Seq<(Seq<char>, PostgresCmp, V)> {
    cs.map_values(|c: (String, PostgresCmp, V)| (c.0@, c.1, c.2))
}

impl<V> QueryParts<V> {
    /// Nothing recorded but the table.
    pub open spec fn empty(table: Seq<char>) -> QueryParts<V> {
        QueryParts {
            table,
            joins: Seq::empty(),
            columns: Seq::empty(),
            conditions: Seq::empty(),
            group_by: Seq::empty(),
            having: Seq::empty(),
            limit: None,
            offset: None,
            return_columns: Seq::empty(),
        }
    }
}

impl<V> View for SQLQueryBuilder<V> {
    type V = QueryParts<V>;

    closed spec fn view(&self) -> QueryParts<V> {
        QueryParts {
            table: self.table@,
            joins: join_views(self.join_tables@),
            columns: column_views(self.columns@),
            conditions: condition_views(self.conditions@),
            group_by: views(self.group_by@),
            having: condition_views(self.having@),
            limit: self.limit,
            offset: self.offset,
            return_columns: views(self.return_columns@),
        }
    }
}


/// The number of conditions whose operator binds a value.
pub open spec fn bound_count<V>(cs: Seq<(Seq<char>, PostgresCmp, V)>) -> nat
    decreases cs.len(),
{
    if cs.len() == 0 {
        0
    } else {
        bound_count(cs.drop_last()) + if cs.last().1.binds() { 1nat } else { 0nat }
    }
}

/// The values of the conditions whose operator binds a value, in order.
pub open spec fn bound_values<V>(cs: Seq<(Seq<char>, PostgresCmp, V)>) -> Seq<V>
    decreases cs.len(),
{
    if cs.len() == 0 {
        Seq::empty()
    } else if cs.last().1.binds() {
        bound_values(cs.drop_last()).push(cs.last().2)
    } else {
        bound_values(cs.drop_last())
    }
}

/// One condition, its value (if it binds one) taken as parameter `n`.
pub open spec fn condition_sql(col: Seq<char>, op: PostgresCmp, n: nat) -> Seq<char> {
    match op {
        PostgresCmp::IsNull => col + " IS NULL"@,
        PostgresCmp::NotNull => col + " NOTNULL"@,
        PostgresCmp::Like => col + " LIKE '%' || $"@ + decimal(n) + " || '%'"@,
        PostgresCmp::ILike => col + " ILIKE '%' || $"@ + decimal(n) + " || '%'"@,
        PostgresCmp::In => col + " = ANY($"@ + decimal(n) + ")"@,
        PostgresCmp::NotIn => col + " != ALL($"@ + decimal(n) + ")"@,
        _ => col + " "@ + op.sql_text() + " $"@ + decimal(n),
    }
}

/// The separator written before item `i` of a list.
pub open spec fn sep_before(i: int, sep: Seq<char>) -> Seq<char> {
    if i > 0 {
        sep
    } else {
        Seq::empty()
    }
}

/// The conditions joined by `AND`, bound values numbered from `start`.
pub open spec fn conditions_sql<V>(cs: Seq<(Seq<char>, PostgresCmp, V)>, start: nat) -> Seq<char>
    decreases cs.len(),
{
    if cs.len() == 0 {
        Seq::empty()
    } else {
        let init = cs.drop_last();
        conditions_sql(init, start) + sep_before(init.len() as int, " AND "@) + condition_sql(
            cs.last().0,
            cs.last().1,
            start + bound_count(init),
        )
    }
}

/// The `WHERE` clause, empty without conditions.
pub open spec fn where_sql<V>(cs: Seq<(Seq<char>, PostgresCmp, V)>, start: nat) -> Seq<char> {
    if cs.len() == 0 {
        Seq::empty()
    } else {
        " WHERE "@ + conditions_sql(cs, start)
    }
}

/// One `HAVING` item with its value as parameter `n`.
pub open spec fn having_item_sql(item: Seq<char>, op: PostgresCmp, n: nat) -> Seq<char> {
    item + " "@ + op.sql_text() + " $"@ + decimal(n)
}

/// The `HAVING` items joined by `AND`, values numbered from `start`.
pub open spec fn havings_sql<V>(hs: Seq<(Seq<char>, PostgresCmp, V)>, start: nat) -> Seq<char>
    decreases hs.len(),
{
    if hs.len() == 0 {
        Seq::empty()
    } else {
        let init = hs.drop_last();
        havings_sql(init, start) + sep_before(init.len() as int, " AND "@) + having_item_sql(
            hs.last().0,
            hs.last().1,
            start + init.len(),
        )
    }
}

/// The `HAVING` clause, empty without items.
pub open spec fn having_sql<V>(hs: Seq<(Seq<char>, PostgresCmp, V)>, start: nat) -> Seq<char> {
    if hs.len() == 0 {
        Seq::empty()
    } else {
        " HAVING "@ + havings_sql(hs, start)
    }
}

/// The values of the `HAVING` items, in order.
pub open spec fn having_values<V>(hs: Seq<(Seq<char>, PostgresCmp, V)>) -> Seq<V> {
    hs.map_values(|h: (Seq<char>, PostgresCmp, V)| h.2)
}

/// The join clauses, in order.
pub open spec fn joins_sql(js: Seq<(Join, Seq<char>, Seq<char>)>) -> Seq<char>
    decreases js.len(),
{
    if js.len() == 0 {
        Seq::empty()
    } else {
        joins_sql(js.drop_last()) + js.last().0.sql_text() + " "@ + js.last().1 + " USING ("@
            + js.last().2 + ")"@
    }
}

/// The `GROUP BY` clause, empty without columns.
pub open spec fn group_by_sql(gs: Seq<Seq<char>>) -> Seq<char> {
    if gs.len() == 0 {
        Seq::empty()
    } else {
        " GROUP BY "@ + joined(gs, ", "@)
    }
}

/// The `LIMIT` clause, empty when no limit is set.
pub open spec fn limit_sql(limit: Option<usize>) -> Seq<char> {
    match limit {
        Some(n) => " LIMIT "@ + decimal(n as nat),
        None => Seq::empty(),
    }
}

/// The `OFFSET` clause, empty when no offset is set.
pub open spec fn offset_sql(offset: Option<usize>) -> Seq<char> {
    match offset {
        Some(n) => " OFFSET "@ + decimal(n as nat),
        None => Seq::empty(),
    }
}

/// Whether the returned columns start with the wildcard `*`.
pub open spec fn returns_all(rs: Seq<Seq<char>>) -> bool {
    rs.len() > 0 && rs[0] == seq!['*']
}

/// The selected columns: `*` when none are given or the first is `*`.
pub open spec fn select_columns_sql(rs: Seq<Seq<char>>) -> Seq<char> {
    if rs.len() == 0 || returns_all(rs) {
        " *"@
    } else {
        " "@ + joined(rs, ", "@)
    }
}

/// The `RETURNING` clause, empty when no columns are given.
pub open spec fn returning_sql(rs: Seq<Seq<char>>) -> Seq<char> {
    if rs.len() == 0 {
        Seq::empty()
    } else if returns_all(rs) {
        " RETURNING *"@
    } else {
        " RETURNING "@ + joined(rs, ", "@)
    }
}

/// The names of the columns, in order.
pub open spec fn column_names<V>(cs: Seq<(Seq<char>, V)>) -> Seq<Seq<char>> {
    cs.map_values(|c: (Seq<char>, V)| c.0)
}

/// The values of the columns, in order.
pub open spec fn column_values<V>(cs: Seq<(Seq<char>, V)>) -> Seq<V> {
    cs.map_values(|c: (Seq<char>, V)| c.1)
}

/// `k` placeholders separated by commas, numbered from `start`.
pub open spec fn placeholders_sql(k: nat, start: nat) -> Seq<char>
    decreases k,
{
    if k == 0 {
        Seq::empty()
    } else {
        placeholders_sql((k - 1) as nat, start) + sep_before(k - 1, ", "@) + "$"@ + decimal(
            (start + k - 1) as nat,
        )
    }
}

/// The assignments of an `UPDATE`, values numbered from `start`.
pub open spec fn assignments_sql<V>(cs: Seq<(Seq<char>, V)>, start: nat) -> Seq<char>
    decreases cs.len(),
{
    if cs.len() == 0 {
        Seq::empty()
    } else {
        let init = cs.drop_last();
        assignments_sql(init, start) + sep_before(init.len() as int, ", "@) + cs.last().0 + "=$"@
            + decimal(start + init.len())
    }
}

impl<V> QueryParts<V> {
    /// The parameter counters of every statement fit in a `usize`.
    pub open spec fn counts_fit(self) -> bool {
        self.columns.len() + self.conditions.len() + self.having.len() + 1 < usize::MAX
    }

    /// Every `HAVING` item uses a binary comparison.
    pub open spec fn having_is_basic(self) -> bool {
        forall|i: int| 0 <= i < self.having.len() ==> (#[trigger] self.having[i]).1.is_basic()
    }

    /// The `SELECT` statement.
    pub open spec fn select_sql(self) -> Seq<char> {
        "SELECT"@ + select_columns_sql(self.return_columns) + " FROM "@ + self.table + joins_sql(
            self.joins,
        ) + where_sql(self.conditions, 1) + group_by_sql(self.group_by) + having_sql(
            self.having,
            1 + bound_count(self.conditions),
        ) + limit_sql(self.limit) + offset_sql(self.offset)
    }

    /// The parameters of the `SELECT` statement.
    pub open spec fn select_params(self) -> Seq<V> {
        bound_values(self.conditions) + having_values(self.having)
    }

    /// The `INSERT` statement.
    pub open spec fn insert_sql(self) -> Seq<char> {
        "INSERT"@ + " INTO "@ + self.table + " ("@ + joined(column_names(self.columns), ", "@)
            + ") VALUES ("@ + placeholders_sql(self.columns.len(), 1) + ")"@ + returning_sql(
            self.return_columns,
        )
    }

    /// The `UPDATE` statement.
    pub open spec fn update_sql(self) -> Seq<char> {
        "UPDATE"@ + " "@ + self.table + " SET "@ + assignments_sql(self.columns, 1) + where_sql(
            self.conditions,
            1 + self.columns.len(),
        ) + returning_sql(self.return_columns)
    }

    /// The parameters of the `UPDATE` statement.
    pub open spec fn update_params(self) -> Seq<V> {
        column_values(self.columns) + bound_values(self.conditions)
    }

    /// The `DELETE` statement.
    pub open spec fn delete_sql(self) -> Seq<char> {
        "DELETE"@ + " FROM "@ + self.table + where_sql(self.conditions, 1) + returning_sql(
            self.return_columns,
        )
    }
}

proof fn lemma_bound_count_le<V>(cs: Seq<(Seq<char>, PostgresCmp, V)>)
    ensures
        bound_count(cs) <= cs.len(),
        bound_values(cs).len() == bound_count(cs),
    decreases cs.len(),
{
    if cs.len() > 0 {
        lemma_bound_count_le(cs.drop_last());
    }
}

/// A condition whose operator binds no value (`IS NULL`, `NOTNULL`) leaves
/// its value out: whatever value is given, the statement and its parameters
/// are those without it.
pub proof fn law_unbound_condition_ignores_value<V>(
    parts: QueryParts<V>,
    column: Seq<char>,
    op: PostgresCmp,
    first: V,
    second: V,
)
    requires
        !op.binds(),
    ensures
        parts.with_condition(column, op, first).select_sql() == parts.with_condition(column, op, second).select_sql(),
        parts.with_condition(column, op, first).select_params() == parts.select_params(),
        parts.with_condition(column, op, first).update_sql() == parts.with_condition(column, op, second).update_sql(),
        parts.with_condition(column, op, first).update_params() == parts.update_params(),
        parts.with_condition(column, op, first).delete_sql() == parts.with_condition(column, op, second).delete_sql(),
{
    let a = parts.conditions.push((column, op, first));
    let b = parts.conditions.push((column, op, second));
    assert(a.drop_last() =~= parts.conditions);
    assert(b.drop_last() =~= parts.conditions);
    assert(bound_values(a) == bound_values(parts.conditions));
    assert(bound_count(a) == bound_count(b));
    assert(conditions_sql(a, 1) == conditions_sql(b, 1));
    assert(conditions_sql(a, 1 + parts.columns.len()) == conditions_sql(b, 1 + parts.columns.len()));
}

/// A condition whose operator binds a value adds that value after the values
/// of the conditions before it.
pub proof fn law_bound_condition_appends_value<V>(
    parts: QueryParts<V>,
    column: Seq<char>,
    op: PostgresCmp,
    value: V,
)
    requires
        op.binds(),
    ensures
        parts.with_condition(column, op, value).select_params() == bound_values(parts.conditions).push(value)
            + having_values(parts.having),
        parts.with_condition(column, op, value).update_params() == column_values(parts.columns)
            + bound_values(parts.conditions).push(value),
{
    let a = parts.conditions.push((column, op, value));
    assert(a.drop_last() =~= parts.conditions);
}

/// Asking a `SELECT` for every column changes nothing: without returned
/// columns it selects every column already.
pub proof fn law_return_all_is_select_default<V>(parts: QueryParts<V>)
    ensures
        parts.with_return(seq![seq!['*']]).select_sql() == parts.with_return(Seq::empty()).select_sql(),
{
}

/// Each statement carries one parameter for each placeholder it numbers:
/// the bound conditions and the `HAVING` items for a `SELECT`, the columns
/// for an `INSERT`, the columns and the bound conditions for an `UPDATE`.
pub proof fn law_parameter_counts<V>(parts: QueryParts<V>)
    ensures
        parts.select_params().len() == bound_count(parts.conditions) + parts.having.len(),
        column_values(parts.columns).len() == parts.columns.len(),
        parts.update_params().len() == parts.columns.len() + bound_count(parts.conditions),
        bound_values(parts.conditions).len() == bound_count(parts.conditions),
{
    lemma_bound_count_le(parts.conditions);
}

/// Condition `i` of a list as written: its separator, and its value (if it
/// binds one) taken as parameter `start` plus the number of binding
/// conditions before it.
pub open spec fn condition_piece<V>(cs: Seq<(Seq<char>, PostgresCmp, V)>, i: int, start: nat) -> Seq<char> {
    sep_before(i, " AND "@) + condition_sql(cs[i].0, cs[i].1, start + bound_count(cs.take(i)))
}

/// Whether some binding condition is written with the number that follows
/// `k` binding conditions.
pub open spec fn numbers_condition<V>(cs: Seq<(Seq<char>, PostgresCmp, V)>, k: nat) -> bool {
    exists|i: int| 0 <= i < cs.len() && cs[i].1.binds() && #[trigger] bound_count(cs.take(i)) == k
}

proof fn lemma_take_step<V>(cs: Seq<(Seq<char>, PostgresCmp, V)>, i: int, start: nat)
    requires
        0 <= i < cs.len(),
    ensures
        bound_count(cs.take(i + 1)) == bound_count(cs.take(i)) + if cs[i].1.binds() {
            1nat
        } else {
            0nat
        },
        bound_values(cs.take(i + 1)) == if cs[i].1.binds() {
            bound_values(cs.take(i)).push(cs[i].2)
        } else {
            bound_values(cs.take(i))
        },
        conditions_sql(cs.take(i + 1), start) == conditions_sql(cs.take(i), start) + condition_piece(cs, i, start),
{
    assert(cs.take(i + 1).drop_last() =~= cs.take(i));
    assert(cs.take(i + 1).last() == cs[i]);
}

proof fn lemma_bound_count_grows<V>(cs: Seq<(Seq<char>, PostgresCmp, V)>, i: int, j: int)
    requires
        0 <= i <= j <= cs.len(),
    ensures
        bound_count(cs.take(i)) <= bound_count(cs.take(j)),
        i < j && cs[i].1.binds() ==> bound_count(cs.take(i)) < bound_count(cs.take(j)),
    decreases j - i,
{
    if i < j {
        lemma_bound_count_grows(cs, i + 1, j);
        lemma_take_step(cs, i, 0);
    }
}

proof fn lemma_bound_value_at<V>(cs: Seq<(Seq<char>, PostgresCmp, V)>, i: int, j: int)
    requires
        0 <= i < j <= cs.len(),
        cs[i].1.binds(),
    ensures
        bound_count(cs.take(i)) < bound_values(cs.take(j)).len(),
        bound_values(cs.take(j))[bound_count(cs.take(i)) as int] == cs[i].2,
    decreases j - i,
{
    lemma_bound_count_le(cs.take(i));
    lemma_bound_count_le(cs.take(j));
    lemma_take_step(cs, j - 1, 0);
    if j == i + 1 {
    } else {
        lemma_bound_value_at(cs, i, j - 1);
    }
}

proof fn lemma_bound_number_used<V>(cs: Seq<(Seq<char>, PostgresCmp, V)>, j: int, k: nat)
    requires
        0 <= j <= cs.len(),
        k < bound_count(cs.take(j)),
    ensures
        exists|i: int| 0 <= i < j && cs[i].1.binds() && #[trigger] bound_count(cs.take(i)) == k,
    decreases j,
{
    if j == 0 {
        assert(cs.take(0) =~= Seq::empty());
    } else {
        lemma_take_step(cs, j - 1, 0);
        if k < bound_count(cs.take(j - 1)) {
            lemma_bound_number_used(cs, j - 1, k);
            let i = choose|i: int| 0 <= i < j - 1 && cs[i].1.binds() && #[trigger] bound_count(cs.take(i)) == k;
            assert(0 <= i < j && cs[i].1.binds() && bound_count(cs.take(i)) == k);
        } else {
            assert(cs[j - 1].1.binds() && bound_count(cs.take(j - 1)) == k);
        }
    }
}

/// The `SELECT` numbers its placeholders `$1`, `$2`, ... in order, one for
/// each parameter: the conditions are written one after the other, each with
/// the number that follows the binding conditions before it; a condition
/// that binds nothing takes no number; binding conditions get increasing
/// numbers that use up `1..=n` for the `n` of them, and number `k + 1` is
/// bound to parameter `k`; the `HAVING` items take the numbers after those,
/// in their order, and are bound to the parameters after those.
pub proof fn law_select_placeholders_in_order<V>(parts: QueryParts<V>)
    ensures
        conditions_sql(parts.conditions.take(parts.conditions.len() as int), 1) == conditions_sql(parts.conditions, 1),
        forall|i: int|
            0 <= i < parts.conditions.len() ==> conditions_sql(parts.conditions.take(i + 1), 1) == conditions_sql(
                parts.conditions.take(i),
                1,
            ) + #[trigger] condition_piece(parts.conditions, i, 1),
        forall|i: int, n: nat|
            0 <= i < parts.conditions.len() && !parts.conditions[i].1.binds() ==> #[trigger] condition_sql(
                parts.conditions[i].0,
                parts.conditions[i].1,
                n,
            ) == condition_sql(parts.conditions[i].0, parts.conditions[i].1, 0),
        forall|i: int, j: int|
            0 <= i < j < parts.conditions.len() && parts.conditions[i].1.binds() ==> #[trigger] bound_count(
                parts.conditions.take(i),
            ) < #[trigger] bound_count(parts.conditions.take(j)),
        forall|k: nat| k < bound_count(parts.conditions) ==> #[trigger] numbers_condition(parts.conditions, k),
        forall|i: int|
            0 <= i < parts.conditions.len() && parts.conditions[i].1.binds() ==> #[trigger] bound_count(
                parts.conditions.take(i),
            ) < parts.select_params().len() && parts.select_params()[bound_count(parts.conditions.take(i)) as int]
                == parts.conditions[i].2,
        parts.select_params().len() == bound_count(parts.conditions) + parts.having.len(),
        forall|h: int|
            0 <= h < parts.having.len() ==> #[trigger] havings_sql(parts.having.take(h + 1), 1 + bound_count(parts.conditions))
                == havings_sql(parts.having.take(h), 1 + bound_count(parts.conditions)) + sep_before(h, " AND "@)
                + having_item_sql(parts.having[h].0, parts.having[h].1, 1 + bound_count(parts.conditions) + h as nat),
        forall|h: int|
            0 <= h < parts.having.len() ==> parts.select_params()[bound_count(parts.conditions) + h]
                == (#[trigger] parts.having[h]).2,
{
    let cs = parts.conditions;
    let hs = parts.having;
    let start = 1 + bound_count(cs);
    assert(cs.take(cs.len() as int) =~= cs);
    lemma_bound_count_le(cs);
    assert forall|i: int| 0 <= i < cs.len() implies conditions_sql(cs.take(i + 1), 1) == conditions_sql(cs.take(i), 1)
        + #[trigger] condition_piece(cs, i, 1) by {
        lemma_take_step(cs, i, 1);
    }
    assert forall|i: int, j: int| 0 <= i < j < cs.len() && cs[i].1.binds() implies #[trigger] bound_count(cs.take(i))
        < #[trigger] bound_count(cs.take(j)) by {
        lemma_bound_count_grows(cs, i, j);
    }
    assert forall|k: nat| k < bound_count(cs) implies #[trigger] numbers_condition(cs, k) by {
        lemma_bound_number_used(cs, cs.len() as int, k);
    }
    assert forall|i: int| 0 <= i < cs.len() && cs[i].1.binds() implies #[trigger] bound_count(cs.take(i))
        < parts.select_params().len() && parts.select_params()[bound_count(cs.take(i)) as int] == cs[i].2 by {
        lemma_bound_value_at(cs, i, cs.len() as int);
    }
    assert forall|h: int| 0 <= h < hs.len() implies #[trigger] havings_sql(hs.take(h + 1), start) == havings_sql(
        hs.take(h),
        start,
    ) + sep_before(h, " AND "@) + having_item_sql(hs[h].0, hs[h].1, start + h as nat) by {
        assert(hs.take(h + 1).drop_last() =~= hs.take(h));
        assert(hs.take(h + 1).last() == hs[h]);
    }
}

impl<V> QueryParts<V> {
    pub open spec fn with_table(self, table: Seq<char>) -> QueryParts<V> {
        QueryParts { table, ..self }
    }

    pub open spec fn with_join(self, join: Join, table: Seq<char>, column: Seq<char>) -> QueryParts<V> {
        QueryParts { joins: self.joins.push((join, table, column)), ..self }
    }

    pub open spec fn with_column(self, column: Seq<char>, value: V) -> QueryParts<V> {
        QueryParts { columns: self.columns.push((column, value)), ..self }
    }

    pub open spec fn with_condition(self, column: Seq<char>, op: PostgresCmp, value: V) -> QueryParts<V> {
        QueryParts { conditions: self.conditions.push((column, op, value)), ..self }
    }

    pub open spec fn with_group_by(self, columns: Seq<Seq<char>>) -> QueryParts<V> {
        QueryParts { group_by: columns, ..self }
    }

    pub open spec fn with_having(self, item: Seq<char>, op: PostgresCmp, value: V) -> QueryParts<V> {
        QueryParts { having: self.having.push((item, op, value)), ..self }
    }

    pub open spec fn with_limit(self, limit: usize) -> QueryParts<V> {
        QueryParts { limit: Some(limit), ..self }
    }

    pub open spec fn with_offset(self, offset: usize) -> QueryParts<V> {
        QueryParts { offset: Some(offset), ..self }
    }

    pub open spec fn with_return(self, columns: Seq<Seq<char>>) -> QueryParts<V> {
        QueryParts { return_columns: columns, ..self }
    }
}

impl<V: Copy> SQLQueryBuilder<V> {
    /// A builder for statements on the given table, with nothing else set.
    pub fn new(table_name: &str) -> (r: Self)
        ensures
            r@ == QueryParts::<V>::empty(table_name@),
    {
        let r = SQLQueryBuilder {
            table: table_name.to_owned(),
            join_tables: Vec::new(),
            columns: Vec::new(),
            conditions: Vec::new(),
            group_by: Vec::new(),
            having: Vec::new(),
            limit: None,
            offset: None,
            return_columns: Vec::new(),
        };
        proof {
            assert(r@.joins =~= Seq::empty());
            assert(r@.columns =~= Seq::empty());
            assert(r@.conditions =~= Seq::empty());
            assert(r@.group_by =~= Seq::empty());
            assert(r@.having =~= Seq::empty());
            assert(r@.return_columns =~= Seq::empty());
        }
        r
    }

    /// Set the table that statements refer to
    pub fn set_table(&mut self, table_name: &str) -> (r: &mut Self)
        ensures
            r@ == old(self)@.with_table(table_name@),
            final(self)@ == final(r)@,
    {
        self.table = table_name.to_owned();
        self
    }

    /// Get element at a given index in columns
    pub fn get_column(&self, index: usize) -> (r: Option<V>)
        ensures
            index < self@.columns.len() ==> r == Some(self@.columns[index as int].1),
            index >= self@.columns.len() ==> r is None,
    {
        if index < self.columns.len() {
            Some(self.columns[index].1)
        } else {
            None
        }
    }

    /// Add tables to join
    pub fn add_join(&mut self, join_type: Join, table_name: &str, join_column: &str) -> (r: &mut Self)
        ensures
            r@ == old(self)@.with_join(join_type, table_name@, join_column@),
            final(self)@ == final(r)@,
    {
        let ghost j = join_type;
        self.join_tables.push((join_type, table_name.to_owned(), join_column.to_owned()));
        proof {
            assert(join_views(self.join_tables@) =~= join_views(old(self).join_tables@).push((j, table_name@, join_column@)));
        }
        self
    }

    /// Add value for a given column
    pub fn add_column(&mut self, column: &str, value: V) -> (r: &mut Self)
        ensures
            r@ == old(self)@.with_column(column@, value),
            final(self)@ == final(r)@,
    {
        self.columns.push((column.to_owned(), value));
        proof {
            assert(column_views(self.columns@) =~= column_views(old(self).columns@).push((column@, value)));
        }
        self
    }

    /// Adds a condition to query
    ///
    /// If op is an operator that does not require a value, then the value is ignored.
    /// However, a value must be included.
    pub fn add_condition(&mut self, column: &str, op: PostgresCmp, value: V) -> (r: &mut Self)
        ensures
            r@ == old(self)@.with_condition(column@, op, value),
            final(self)@ == final(r)@,
    {
        let ghost c = op;
        self.conditions.push((column.to_owned(), op, value));
        proof {
            assert(condition_views(self.conditions@) =~= condition_views(old(self).conditions@).push((column@, c, value)));
        }
        self
    }

    /// Replace the columns to group by
    pub fn set_group_by(&mut self, columns: Vec<&str>) -> (r: &mut Self)
        ensures
            r@ == old(self)@.with_group_by(str_views(columns@)),
            final(self)@ == final(r)@,
    {
        self.group_by = to_strings(&columns);
        self
    }

    /// Add an item to the `HAVING` clause
    pub fn set_having(&mut self, item: &str, op: PostgresCmp, value: V) -> (r: &mut Self)
        ensures
            r@ == old(self)@.with_having(item@, op, value),
            final(self)@ == final(r)@,
    {
        let ghost c = op;
        self.having.push((item.to_owned(), op, value));
        proof {
            assert(condition_views(self.having@) =~= condition_views(old(self).having@).push((item@, c, value)));
        }
        self
    }

    /// Set limit for query
    pub fn set_limit(&mut self, limit: usize) -> (r: &mut Self)
        ensures
            r@ == old(self)@.with_limit(limit),
            final(self)@ == final(r)@,
    {
        self.limit = Some(limit);
        self
    }

    /// Set offset for query
    pub fn set_offset(&mut self, offset: usize) -> (r: &mut Self)
        ensures
            r@ == old(self)@.with_offset(offset),
            final(self)@ == final(r)@,
    {
        self.offset = Some(offset);
        self
    }

    /// Set query to return columns given
    pub fn set_return(&mut self, columns: Vec<&str>) -> (r: &mut Self)
        ensures
            r@ == old(self)@.with_return(str_views(columns@)),
            final(self)@ == final(r)@,
    {
        self.return_columns = to_strings(&columns);
        self
    }

    /// Sets query to return all columns
    ///
    /// It is not necessary to call this on `SELECT` however, it doesn't change query response
    pub fn set_return_all(&mut self) -> (r: &mut Self)
        ensures
            r@ == old(self)@.with_return(seq![seq!['*']]),
            final(self)@ == final(r)@,
    {
        let mut cols: Vec<String> = Vec::new();
        proof { reveal_strlit("*"); }
        let star = "*".to_owned();
        assert(star@ == seq!['*']);
        cols.push(star);
        assert(cols@[0]@ == seq!['*']);
        self.return_columns = cols;
        proof {
            assert(views(self.return_columns@) =~= seq![seq!['*']]);
        }
        self
    }
}

fn to_strings(items: &Vec<&str>) -> (r: Vec<String>)
    ensures
        views(r@) == str_views(items@),
{
    let mut r: Vec<String> = Vec::new();
    let mut i: usize = 0;
    while i < items.len()
        invariant
            i <= items.len(),
            r.len() == i,
            views(r@) == str_views(items@).take(i as int),
        decreases items.len() - i,
    {
        let item: &str = items[i];
        let owned = item.to_owned();
        assert(owned@ == item@);
        assert(item@ == str_views(items@)[i as int]);
        r.push(owned);
        assert(r@[i as int]@ == item@);
        assert(views(r@).len() == i + 1);
        assert(views(r@)[i as int] == item@);
        assert(views(r@) =~= str_views(items@).take(i + 1));
        i = i + 1;
    }
    assert(str_views(items@).take(items.len() as int) =~= str_views(items@));
    r
}


fn operator_text(op: &PostgresCmp) -> (r: &str)
    requires
        op.is_basic(),
    ensures
        r@ == op.sql_text(),
{
    op.as_sql_cmp()
}

fn push_condition(query: &mut String, col: &str, op: &PostgresCmp, n: usize)
    ensures
        final(query)@ == old(query)@ + condition_sql(col@, *op, n as nat),
{
    let ghost q0 = query@;
    query.append(col);
    match op {
        PostgresCmp::IsNull => {
            query.append(" IS NULL");
        },
        PostgresCmp::NotNull => {
            query.append(" NOTNULL");
        },
        PostgresCmp::Like => {
            query.append(" LIKE '%' || $");
            push_decimal(query, n);
            query.append(" || '%'");
        },
        PostgresCmp::ILike => {
            query.append(" ILIKE '%' || $");
            push_decimal(query, n);
            query.append(" || '%'");
        },
        PostgresCmp::In => {
            query.append(" = ANY($");
            push_decimal(query, n);
            query.append(")");
        },
        PostgresCmp::NotIn => {
            query.append(" != ALL($");
            push_decimal(query, n);
            query.append(")");
        },
        _ => {
            query.append(" ");
            query.append(operator_text(op));
            query.append(" $");
            push_decimal(query, n);
        },
    }
    assert(query@ =~= q0 + condition_sql(col@, *op, n as nat));
}

fn push_conditions<V: Copy>(
    query: &mut String,
    params: &mut Vec<V>,
    conds: &Vec<(String, PostgresCmp, V)>,
    start: usize,
)
    requires
        start + conds.len() < usize::MAX,
    ensures
        final(query)@ == old(query)@ + conditions_sql(condition_views(conds@), start as nat),
        final(params)@ == old(params)@ + bound_values(condition_views(conds@)),
{
    let ghost q0 = query@;
    let ghost p0 = params@;
    let ghost cv = condition_views(conds@);
    let mut param_n = start;
    let mut i: usize = 0;
    while i < conds.len()
        invariant
            i <= conds.len(),
            cv == condition_views(conds@),
            start + conds.len() < usize::MAX,
            param_n == start + bound_count(cv.take(i as int)),
            bound_count(cv.take(i as int)) <= i,
            query@ == q0 + conditions_sql(cv.take(i as int), start as nat),
            params@ == p0 + bound_values(cv.take(i as int)),
        decreases conds.len() - i,
    {
        let ghost qi = query@;
        let ghost pi = params@;
        proof {
            assert(cv.take(i + 1).drop_last() =~= cv.take(i as int));
            assert(cv.take(i + 1).last() == cv[i as int]);
        }
        if i > 0 {
            query.append(" AND ");
        }
        let cond = &conds[i];
        push_condition(query, cond.0.as_str(), &cond.1, param_n);
        if !matches!(cond.1, PostgresCmp::IsNull | PostgresCmp::NotNull) {
            params.push(cond.2);
            param_n = param_n + 1;
        }
        proof {
            assert(query@ =~= q0 + conditions_sql(cv.take(i + 1), start as nat));
            assert(params@ =~= p0 + bound_values(cv.take(i + 1)));
        }
        i = i + 1;
    }
    proof {
        assert(cv.take(conds.len() as int) =~= cv);
    }
}

fn push_having<V: Copy>(
    query: &mut String,
    params: &mut Vec<V>,
    having: &Vec<(String, PostgresCmp, V)>,
    start: usize,
)
    requires
        start + having.len() < usize::MAX,
        forall|i: int| 0 <= i < having.len() ==> (#[trigger] having@[i]).1.is_basic(),
    ensures
        final(query)@ == old(query)@ + havings_sql(condition_views(having@), start as nat),
        final(params)@ == old(params)@ + having_values(condition_views(having@)),
{
    let ghost q0 = query@;
    let ghost p0 = params@;
    let ghost hv = condition_views(having@);
    let mut i: usize = 0;
    while i < having.len()
        invariant
            i <= having.len(),
            hv == condition_views(having@),
            start + having.len() < usize::MAX,
            forall|i: int| 0 <= i < having.len() ==> (#[trigger] having@[i]).1.is_basic(),
            query@ == q0 + havings_sql(hv.take(i as int), start as nat),
            params@ == p0 + having_values(hv.take(i as int)),
        decreases having.len() - i,
    {
        proof {
            assert(hv.take(i + 1).drop_last() =~= hv.take(i as int));
            assert(hv.take(i + 1).last() == hv[i as int]);
        }
        if i > 0 {
            query.append(" AND ");
        }
        let item = &having[i];
        query.append(item.0.as_str());
        query.append(" ");
        query.append(operator_text(&item.1));
        query.append(" $");
        push_decimal(query, start + i);
        params.push(item.2);
        proof {
            assert(query@ =~= q0 + havings_sql(hv.take(i + 1), start as nat));
            assert(params@ =~= p0 + having_values(hv.take(i + 1)));
        }
        i = i + 1;
    }
    proof {
        assert(hv.take(having.len() as int) =~= hv);
    }
}

fn push_joins(query: &mut String, joins: &Vec<(Join, String, String)>)
    ensures
        final(query)@ == old(query)@ + joins_sql(join_views(joins@)),
{
    let ghost q0 = query@;
    let ghost jv = join_views(joins@);
    let mut i: usize = 0;
    while i < joins.len()
        invariant
            i <= joins.len(),
            jv == join_views(joins@),
            query@ == q0 + joins_sql(jv.take(i as int)),
        decreases joins.len() - i,
    {
        proof {
            assert(jv.take(i + 1).drop_last() =~= jv.take(i as int));
            assert(jv.take(i + 1).last() == jv[i as int]);
        }
        let j = &joins[i];
        match j.0 {
            Join::Inner => query.append(" INNER JOIN"),
            Join::Left => query.append(" LEFT JOIN"),
            Join::Right => query.append(" RIGHT JOIN"),
            Join::Full => query.append(" FULL JOIN"),
        }
        query.append(" ");
        query.append(j.1.as_str());
        query.append(" USING (");
        query.append(j.2.as_str());
        query.append(")");
        proof {
            assert(query@ =~= q0 + joins_sql(jv.take(i + 1)));
        }
        i = i + 1;
    }
    proof {
        assert(jv.take(joins.len() as int) =~= jv);
    }
}

fn push_select_columns(query: &mut String, columns: &Vec<String>)
    ensures
        final(query)@ == old(query)@ + select_columns_sql(views(columns@)),
{
    let ghost q0 = query@;
    if columns.len() == 0 || is_wildcard(&columns[0]) {
        query.append(" *");
    } else {
        query.append(" ");
        push_joined(query, columns, ", ");
    }
    assert(query@ =~= q0 + select_columns_sql(views(columns@)));
}

fn push_where<V: Copy>(
    query: &mut String,
    params: &mut Vec<V>,
    conds: &Vec<(String, PostgresCmp, V)>,
    start: usize,
)
    requires
        start + conds.len() < usize::MAX,
    ensures
        final(query)@ == old(query)@ + where_sql(condition_views(conds@), start as nat),
        final(params)@ == old(params)@ + bound_values(condition_views(conds@)),
{
    let ghost q0 = query@;
    if conds.len() > 0 {
        query.append(" WHERE ");
        push_conditions(query, params, conds, start);
    } else {
        assert(bound_values(condition_views(conds@)) =~= Seq::<V>::empty());
        assert(params@ =~= old(params)@ + bound_values(condition_views(conds@)));
    }
    assert(query@ =~= q0 + where_sql(condition_views(conds@), start as nat));
}

fn push_group_by(query: &mut String, columns: &Vec<String>)
    ensures
        final(query)@ == old(query)@ + group_by_sql(views(columns@)),
{
    let ghost q0 = query@;
    if columns.len() > 0 {
        query.append(" GROUP BY ");
        push_joined(query, columns, ", ");
    }
    assert(query@ =~= q0 + group_by_sql(views(columns@)));
}

fn push_having_clause<V: Copy>(
    query: &mut String,
    params: &mut Vec<V>,
    having: &Vec<(String, PostgresCmp, V)>,
    start: usize,
)
    requires
        start + having.len() < usize::MAX,
        forall|i: int| 0 <= i < having.len() ==> (#[trigger] having@[i]).1.is_basic(),
    ensures
        final(query)@ == old(query)@ + having_sql(condition_views(having@), start as nat),
        final(params)@ == old(params)@ + having_values(condition_views(having@)),
{
    let ghost q0 = query@;
    if having.len() > 0 {
        query.append(" HAVING ");
        push_having(query, params, having, start);
    } else {
        assert(having_values(condition_views(having@)) =~= Seq::<V>::empty());
        assert(params@ =~= old(params)@ + having_values(condition_views(having@)));
    }
    assert(query@ =~= q0 + having_sql(condition_views(having@), start as nat));
}

fn push_limit(query: &mut String, keyword: &str, value: Option<usize>)
    ensures
        final(query)@ == old(query)@ + match value {
            Some(n) => keyword@ + decimal(n as nat),
            None => Seq::empty(),
        },
{
    let ghost q0 = query@;
    if let Some(n) = value {
        query.append(keyword);
        push_decimal(query, n);
    }
    assert(query@ =~= q0 + match value {
        Some(n) => keyword@ + decimal(n as nat),
        None => Seq::empty(),
    });
}

fn is_wildcard(s: &String) -> (r: bool)
    ensures
        r == (s@ == seq!['*']),
{
    let t = s.as_str();
    if t.unicode_len() == 1 {
        let c = t.get_char(0);
        if c == '*' {
            assert(t@ =~= seq!['*']);
            true
        } else {
            false
        }
    } else {
        false
    }
}

fn push_returning(query: &mut String, columns: &Vec<String>)
    ensures
        final(query)@ == old(query)@ + returning_sql(views(columns@)),
{
    let ghost q0 = query@;
    if columns.len() > 0 {
        if is_wildcard(&columns[0]) {
            query.append(" RETURNING *");
        } else {
            query.append(" RETURNING ");
            push_joined(query, columns, ", ");
        }
    }
    assert(query@ =~= q0 + returning_sql(views(columns@)));
}

fn push_placeholders(query: &mut String, k: usize, start: usize)
    requires
        start + k < usize::MAX,
    ensures
        final(query)@ == old(query)@ + placeholders_sql(k as nat, start as nat),
{
    let ghost q0 = query@;
    let mut i: usize = 0;
    while i < k
        invariant
            i <= k,
            start + k < usize::MAX,
            query@ == q0 + placeholders_sql(i as nat, start as nat),
        decreases k - i,
    {
        if i > 0 {
            query.append(", ");
        }
        query.append("$");
        push_decimal(query, start + i);
        assert(query@ =~= q0 + placeholders_sql((i + 1) as nat, start as nat));
        i = i + 1;
    }
}

fn push_assignments<V: Copy>(
    query: &mut String,
    params: &mut Vec<V>,
    columns: &Vec<(String, V)>,
    start: usize,
)
    requires
        start + columns.len() < usize::MAX,
    ensures
        final(query)@ == old(query)@ + assignments_sql(column_views(columns@), start as nat),
        final(params)@ == old(params)@ + column_values(column_views(columns@)),
{
    let ghost q0 = query@;
    let ghost p0 = params@;
    let ghost cv = column_views(columns@);
    let mut i: usize = 0;
    while i < columns.len()
        invariant
            i <= columns.len(),
            cv == column_views(columns@),
            start + columns.len() < usize::MAX,
            query@ == q0 + assignments_sql(cv.take(i as int), start as nat),
            params@ == p0 + column_values(cv.take(i as int)),
        decreases columns.len() - i,
    {
        proof {
            assert(cv.take(i + 1).drop_last() =~= cv.take(i as int));
            assert(cv.take(i + 1).last() == cv[i as int]);
        }
        if i > 0 {
            query.append(", ");
        }
        let c = &columns[i];
        query.append(c.0.as_str());
        query.append("=$");
        push_decimal(query, start + i);
        params.push(c.1);
        proof {
            assert(query@ =~= q0 + assignments_sql(cv.take(i + 1), start as nat));
            assert(params@ =~= p0 + column_values(cv.take(i + 1)));
        }
        i = i + 1;
    }
    proof {
        assert(cv.take(columns.len() as int) =~= cv);
    }
}

fn column_name_list<V>(columns: &Vec<(String, V)>) -> (r: Vec<String>)
    ensures
        views(r@) == column_names(column_views(columns@)),
{
    let mut r: Vec<String> = Vec::new();
    let mut i: usize = 0;
    while i < columns.len()
        invariant
            i <= columns.len(),
            r.len() == i,
            views(r@) == column_names(column_views(columns@)).take(i as int),
        decreases columns.len() - i,
    {
        r.push(columns[i].0.clone());
        assert(views(r@) =~= column_names(column_views(columns@)).take(i + 1));
        i = i + 1;
    }
    assert(column_names(column_views(columns@)).take(columns.len() as int) =~= column_names(
        column_views(columns@),
    ));
    r
}

impl<V> SQLQueryBuilder<V> {
    proof fn lemma_lengths(&self)
        ensures
            self@.columns.len() == self.columns.len(),
            self@.conditions.len() == self.conditions.len(),
            self@.having.len() == self.having.len(),
            self@.return_columns.len() == self.return_columns.len(),
            self@.group_by.len() == self.group_by.len(),
            self@.joins.len() == self.join_tables.len(),
            self@.table == self.table@,
            self@.having_is_basic() ==> forall|i: int|
                0 <= i < self.having.len() ==> (#[trigger] self.having@[i]).1.is_basic(),
    {
        if self@.having_is_basic() {
            assert forall|i: int| 0 <= i < self.having.len() implies (#[trigger] self.having@[i]).1.is_basic() by {
                assert(self@.having[i].1 == self.having@[i].1);
            }
        }
    }
}

impl<V: Copy> SQLQueryBuilder<V> {
    /// Builds an SQL SELECT query
    ///
    /// Consumes query builder after use
    pub fn build_select(self) -> (res: (String, Vec<V>))
        requires
            self@.table.len() > 0,
            self@.having_is_basic(),
            self@.counts_fit(),
        ensures
            res.0@ == self@.select_sql(),
            res.1@ == self@.select_params(),
    {
        let ghost q = self@;
        proof {
            self.lemma_lengths();
        }
        let mut query = String::new();
        let mut params: Vec<V> = Vec::new();
        query.append("SELECT");

        // Add columns to retrieve
        push_select_columns(&mut query, &self.return_columns);

        // Add table to retrieve from
        query.append(" FROM ");
        query.append(self.table.as_str());

        // Add any joins
        push_joins(&mut query, &self.join_tables);

        // Add any conditions to select
        push_where(&mut query, &mut params, &self.conditions, 1);
        proof {
            lemma_bound_count_le(q.conditions);
        }

        // Add group by
        push_group_by(&mut query, &self.group_by);

        // Add having
        let having_start = 1 + params.len();
        push_having_clause(&mut query, &mut params, &self.having, having_start);

        // Add limit
        push_limit(&mut query, " LIMIT ", self.limit);

        // Add offset
        push_limit(&mut query, " OFFSET ", self.offset);
        proof {
            assert(params@ =~= q.select_params());
        }
        (query, params)
    }

    /// Builds an SQL INSERT query
    ///
    /// Consumes query builder after use
    pub fn build_insert(self) -> (res: (String, Vec<V>))
        requires
            self@.table.len() > 0,
            self@.columns.len() > 0,
            self@.counts_fit(),
        ensures
            res.0@ == self@.insert_sql(),
            res.1@ == column_values(self@.columns),
    {
        let ghost q = self@;
        proof {
            self.lemma_lengths();
        }
        let mut query = String::new();
        let mut params: Vec<V> = Vec::new();
        query.append("INSERT");

        // Add table to insert into
        query.append(" INTO ");
        query.append(self.table.as_str());

        // Add columns to get from
        let names = column_name_list(&self.columns);
        query.append(" (");
        push_joined(&mut query, &names, ", ");
        query.append(") VALUES (");
        push_placeholders(&mut query, self.columns.len(), 1);
        query.append(")");
        let mut i: usize = 0;
        while i < self.columns.len()
            invariant
                i <= self.columns.len(),
                q == self@,
                params@ == column_values(q.columns).take(i as int),
            decreases self.columns.len() - i,
        {
            params.push(self.columns[i].1);
            assert(params@ =~= column_values(q.columns).take(i + 1));
            i = i + 1;
        }

        // Add returning columns
        push_returning(&mut query, &self.return_columns);
        proof {
            assert(column_values(q.columns).take(q.columns.len() as int) =~= column_values(q.columns));
            assert(query@ =~= q.insert_sql());
        }
        (query, params)
    }

    /// Builds an SQL UPDATE query
    ///
    /// Consumes query builder after use
    pub fn build_update(self) -> (res: (String, Vec<V>))
        requires
            self@.table.len() > 0,
            self@.columns.len() > 0,
            self@.counts_fit(),
        ensures
            res.0@ == self@.update_sql(),
            res.1@ == self@.update_params(),
    {
        let ghost q = self@;
        proof {
            self.lemma_lengths();
        }
        let mut query = String::new();
        let mut params: Vec<V> = Vec::new();
        query.append("UPDATE");

        // Add table to update
        query.append(" ");
        query.append(self.table.as_str());

        // Add columns to update to
        query.append(" SET ");
        push_assignments(&mut query, &mut params, &self.columns, 1);

        // Add conditions
        push_where(&mut query, &mut params, &self.conditions, 1 + self.columns.len());

        // Add returning columns
        push_returning(&mut query, &self.return_columns);
        proof {
            assert(params@ =~= q.update_params());
            assert(query@ =~= q.update_sql());
        }
        (query, params)
    }

    /// Builds an SQL DELETE query
    ///
    /// Consumes query builder after use
    pub fn build_delete(self) -> (res: (String, Vec<V>))
        requires
            self@.table.len() > 0,
            self@.counts_fit(),
        ensures
            res.0@ == self@.delete_sql(),
            res.1@ == bound_values(self@.conditions),
    {
        let ghost q = self@;
        proof {
            self.lemma_lengths();
        }
        let mut query = String::new();
        let mut params: Vec<V> = Vec::new();
        query.append("DELETE");

        // Add table to delete from
        query.append(" FROM ");
        query.append(self.table.as_str());

        // Add conditions
        push_where(&mut query, &mut params, &self.conditions, 1);

        // Add returning columns
        push_returning(&mut query, &self.return_columns);
        proof {
            assert(params@ =~= bound_values(q.conditions));
            assert(query@ =~= q.delete_sql());
        }
        (query, params)
    }
}

} // verus!
