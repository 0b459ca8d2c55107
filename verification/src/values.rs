//! Plain values that statements bind as parameters.

use vstd::prelude::*;

verus! {

/// A universally unique identifier, held as its 128 bits.
#[derive(Clone, Copy, PartialEq, Eq, Structural, Debug)]
pub struct Uuid(pub u128);

/// A calendar date, held as its day count from the first day of the common era.
#[derive(Clone, Copy, PartialEq, Eq, Structural, Debug)]
pub struct Date {
    pub days_from_ce: i32,
}

/// A time of day, held as whole seconds from midnight and nanoseconds.
#[derive(Clone, Copy, PartialEq, Eq, Structural, Debug)]
pub struct Time {
    pub secs_from_midnight: u32,
    pub nanos: u32,
}

/// An instant, held as microseconds since the Unix epoch.
#[derive(Clone, Copy, PartialEq, Eq, Structural, Debug)]
pub struct Timestamp {
    pub micros: i64,
}

/// A value bound to a statement parameter.
#[derive(Clone, Copy)]
pub enum SqlParam<'a> {
    Null,
    Text(&'a String),
    Date(&'a Date),
    Time(&'a Time),
    Timestamp(&'a Timestamp),
    Id(&'a Uuid),
    Ids(&'a Vec<Uuid>),
    BigInt(i64),
    Int(i32),
}

/// A value that can be bound to a statement parameter.
pub trait AsSqlParam {
    /// The parameter that the value binds as.
    spec fn param_of(&self) -> SqlParam<'_>;

    fn as_sql_param(&self) -> (r: SqlParam<'_>)
        ensures
            r == self.param_of(),
    ;
}

impl AsSqlParam for String {
    open spec fn param_of(&self) -> SqlParam<'_> {
        SqlParam::Text(self)
    }

    fn as_sql_param(&self) -> (r: SqlParam<'_>) {
        SqlParam::Text(self)
    }
}

impl AsSqlParam for Date {
    open spec fn param_of(&self) -> SqlParam<'_> {
        SqlParam::Date(self)
    }

    fn as_sql_param(&self) -> (r: SqlParam<'_>) {
        SqlParam::Date(self)
    }
}

impl AsSqlParam for Time {
    open spec fn param_of(&self) -> SqlParam<'_> {
        SqlParam::Time(self)
    }

    fn as_sql_param(&self) -> (r: SqlParam<'_>) {
        SqlParam::Time(self)
    }
}

impl AsSqlParam for Uuid {
    open spec fn param_of(&self) -> SqlParam<'_> {
        SqlParam::Id(self)
    }

    fn as_sql_param(&self) -> (r: SqlParam<'_>) {
        SqlParam::Id(self)
    }
}

impl AsSqlParam for Timestamp {
    open spec fn param_of(&self) -> SqlParam<'_> {
        SqlParam::Timestamp(self)
    }

    fn as_sql_param(&self) -> (r: SqlParam<'_>) {
        SqlParam::Timestamp(self)
    }
}

} // verus!
