//! Queries over memories: conditions, their combination, aggregation and
//! windows of time.

use crate::clock::{Timestamp, SECONDS_PER_DAY};
use crate::text::{join, joined, views};
use vstd::prelude::*;
use vstd::string::StringExecFns;

verus! {

/// How a field is compared with a value.
#[derive(Debug, Clone, Copy, PartialEq, Eq, Structural)]
pub enum FilterOperator {
    Eq,
    Ne,
    Gt,
    Gte,
    Lt,
    Lte,
    Contains,
    In,
    NotIn,
    Exists,
    Between,
}

impl FilterOperator {
    /// The operator's sign as a spec value.
    pub open spec fn symbol_text(self) -> Seq<char> {
        match self {
            FilterOperator::Eq => "=="@,
            FilterOperator::Ne => "!="@,
            FilterOperator::Gt => ">"@,
            FilterOperator::Gte => ">="@,
            FilterOperator::Lt => "<"@,
            FilterOperator::Lte => "<="@,
            FilterOperator::Contains => "contains"@,
            FilterOperator::In => "in"@,
            FilterOperator::NotIn => "not_in"@,
            FilterOperator::Exists => "exists"@,
            FilterOperator::Between => "between"@,
        }
    }

    /// The operator's sign.
    pub fn symbol(&self) -> (sign: &'static str)
        ensures
            sign@ == self.symbol_text(),
    {
        match self {
            FilterOperator::Eq => "==",
            FilterOperator::Ne => "!=",
            FilterOperator::Gt => ">",
            FilterOperator::Gte => ">=",
            FilterOperator::Lt => "<",
            FilterOperator::Lte => "<=",
            FilterOperator::Contains => "contains",
            FilterOperator::In => "in",
            FilterOperator::NotIn => "not_in",
            FilterOperator::Exists => "exists",
            FilterOperator::Between => "between",
        }
    }
}

/// A value that a field is compared with. A number is held as its decimal
/// text and a date as its RFC 3339 text, as they are to be written.
#[derive(Debug)]
pub enum FilterValue {
    String(String),
    Number(String),
    Bool(bool),
    List(Vec<FilterValue>),
    Date(String),
}

/// The text of a value: a string in double quotes, a number and a date as
/// they stand, a boolean as `true` or `false`, a list in square brackets
/// with a comma and a blank between its members.
pub open spec fn value_text(value: FilterValue) -> Seq<char>
    decreases value, 1int,
{
    match value {
        FilterValue::String(s) => "\""@ + s@ + "\""@,
        FilterValue::Number(n) => n@,
        FilterValue::Bool(b) => if b {
            "true"@
        } else {
            "false"@
        },
        FilterValue::List(items) => "["@ + joined(value_texts(items@), ", "@) + "]"@,
        FilterValue::Date(d) => d@,
    }
}

/// The text of each value of a list.
pub open spec fn value_texts(values: Seq<FilterValue>) -> Seq<Seq<char>>
    decreases values, 0int,
{
    if values.len() == 0 {
        Seq::empty()
    } else {
        value_texts(values.drop_last()).push(value_text(values.last()))
    }
}

impl FilterValue {
    /// The value for a time, written as RFC 3339; `None` where the calendar
    /// cannot hold the time.
    pub fn date(time: Timestamp) -> (value: Option<Self>)
        ensures
            match value {
                Some(v) => v matches FilterValue::Date(text) && Some(text@)
                    == crate::clock::rfc3339_text(time.secs, time.nanos),
                None => crate::clock::rfc3339_text(time.secs, time.nanos) is None,
            },
    {
        match time.to_rfc3339() {
            Some(text) => Some(FilterValue::Date(text)),
            None => None,
        }
    }

    /// Write the value.
    pub fn format(&self) -> (text: String)
        ensures
            text@ == value_text(*self),
        decreases *self,
    {
        match self {
            FilterValue::String(s) => String::from_str("\"").concat(s.as_str()).concat("\""),
            FilterValue::Number(n) => n.clone(),
            FilterValue::Bool(b) => if *b {
                "true".to_string()
            } else {
                "false".to_string()
            },
            FilterValue::List(items) => {
                let mut formatted: Vec<String> = Vec::new();
                let mut i: usize = 0;
                proof {
                    assert(items@.take(0) =~= Seq::<FilterValue>::empty());
                    assert(views(formatted@) =~= Seq::<Seq<char>>::empty());
                }
                while i < items.len()
                    invariant
                        0 <= i <= items@.len(),
                        *self == FilterValue::List(*items),
                        views(formatted@) == value_texts(items@.take(i as int)),
                    decreases items@.len() - i,
                {
                    let ghost shown = views(formatted@);
                    proof {
                        assert(items@.take(i + 1).drop_last() =~= items@.take(i as int));
                        assert(items@.take(i + 1).last() == items@[i as int]);
                    }
                    proof {
                        assert(self->List_0 == *items);
                        assert(decreases_to!(*self => self->List_0));
                        assert(decreases_to!(*items => items@));
                        assert(decreases_to!(items@ => items@[i as int]));
                    }
                    let one = items[i].format();
                    formatted.push(one);
                    proof {
                        assert(views(formatted@) =~= shown.push(one@));
                    }
                    i += 1;
                }
                proof {
                    assert(items@.take(i as int) =~= items@);
                }
                String::from_str("[").concat(join(&formatted, ", ").as_str()).concat("]")
            },
            FilterValue::Date(d) => d.clone(),
        }
    }
}

/// One condition: a field, an operator, a value.
#[derive(Debug)]
pub struct FilterCondition {
    pub field: String,
    pub operator: FilterOperator,
    pub value: FilterValue,
}

/// The text of a condition: field, sign and value with a blank between.
pub open spec fn condition_text(condition: FilterCondition) -> Seq<char> {
    condition.field@ + " "@ + condition.operator.symbol_text() + " "@ + value_text(condition.value)
}

impl FilterCondition {
    /// The condition that `field` equals `value`.
    pub fn eq(field: String, value: FilterValue) -> (condition: Self)
        ensures
            condition == (FilterCondition { field, operator: FilterOperator::Eq, value }),
    {
        FilterCondition { field, operator: FilterOperator::Eq, value }
    }

    /// The condition that `field` contains the text `value`.
    pub fn contains(field: String, value: String) -> (condition: Self)
        ensures
            condition == (FilterCondition {
                field,
                operator: FilterOperator::Contains,
                value: FilterValue::String(value),
            }),
    {
        FilterCondition {
            field,
            operator: FilterOperator::Contains,
            value: FilterValue::String(value),
        }
    }

    /// The condition that `field` lies between two numbers, each given as
    /// its decimal text.
    pub fn between(field: String, min: String, max: String) -> (condition: Self)
        ensures
            condition.field == field,
            condition.operator == FilterOperator::Between,
            condition.value matches FilterValue::List(bounds) && bounds@ == seq![
                FilterValue::Number(min),
                FilterValue::Number(max),
            ],
    {
        let mut bounds: Vec<FilterValue> = Vec::new();
        bounds.push(FilterValue::Number(min));
        bounds.push(FilterValue::Number(max));
        proof {
            assert(bounds@ =~= seq![FilterValue::Number(min), FilterValue::Number(max)]);
        }
        FilterCondition { field, operator: FilterOperator::Between, value: FilterValue::List(bounds) }
    }

    /// The condition that `field` is there.
    pub fn field_exists(field: String) -> (condition: Self)
        ensures
            condition == (FilterCondition {
                field,
                operator: FilterOperator::Exists,
                value: FilterValue::Bool(true),
            }),
    {
        FilterCondition { field, operator: FilterOperator::Exists, value: FilterValue::Bool(true) }
    }

    /// Write the condition.
    pub fn format(&self) -> (text: String)
        ensures
            text@ == condition_text(*self),
    {
        let value = self.value.format();
        self.field.clone().concat(" ").concat(self.operator.symbol()).concat(" ").concat(
            value.as_str(),
        )
    }
}

/// How the parts of a query are combined.
#[derive(Debug, Clone, Copy, PartialEq, Eq, Structural)]
pub enum LogicalOperator {
    And,
    Or,
    Not,
}

impl LogicalOperator {
    /// The word that stands between the parts, with a blank on each side.
    pub open spec fn separator(self) -> Seq<char> {
        match self {
            LogicalOperator::And => " AND "@,
            LogicalOperator::Or => " OR "@,
            LogicalOperator::Not => " NOT "@,
        }
    }
}

/// A query: conditions and nested queries under one logical operator.
#[derive(Debug)]
pub struct FilterQuery {
    pub conditions: Vec<FilterCondition>,
    pub logical_op: LogicalOperator,
    pub nested: Vec<FilterQuery>,
}

/// The text of each condition of a list.
pub open spec fn condition_texts(conditions: Seq<FilterCondition>) -> Seq<Seq<char>> {
    Seq::new(conditions.len(), |i: int| condition_text(conditions[i]))
}

/// The text of a query: its conditions, then its nested queries each in
/// round brackets, with the operator's word between them.
pub open spec fn query_text(query: FilterQuery) -> Seq<char>
    decreases query, 1int,
{
    joined(
        condition_texts(query.conditions@) + nested_texts(query.nested@),
        query.logical_op.separator(),
    )
}

/// The text of each nested query, in round brackets.
pub open spec fn nested_texts(nested: Seq<FilterQuery>) -> Seq<Seq<char>>
    decreases nested, 0int,
{
    if nested.len() == 0 {
        Seq::empty()
    } else {
        nested_texts(nested.drop_last()).push("("@ + query_text(nested.last()) + ")"@)
    }
}

impl FilterQuery {
    /// A query without parts.
    pub fn new(logical_op: LogicalOperator) -> (query: Self)
        ensures
            query.logical_op == logical_op,
            query.conditions@.len() == 0,
            query.nested@.len() == 0,
    {
        FilterQuery { conditions: Vec::new(), logical_op, nested: Vec::new() }
    }

    /// The same query with one more condition.
    pub fn add_condition(self, condition: FilterCondition) -> (query: Self)
        ensures
            query.conditions@ == self.conditions@.push(condition),
            query.logical_op == self.logical_op,
            query.nested == self.nested,
    {
        let mut query = self;
        query.conditions.push(condition);
        query
    }

    /// The same query with one more nested query.
    pub fn add_nested(self, nested: FilterQuery) -> (query: Self)
        ensures
            query.nested@ == self.nested@.push(nested),
            query.logical_op == self.logical_op,
            query.conditions == self.conditions,
    {
        let mut query = self;
        query.nested.push(nested);
        query
    }

    /// Write the query.
    pub fn to_string(&self) -> (text: String)
        ensures
            text@ == query_text(*self),
        decreases *self,
    {
        let mut parts: Vec<String> = Vec::new();
        let mut i: usize = 0;
        proof {
            assert(views(parts@) =~= condition_texts(self.conditions@.take(0)));
        }
        while i < self.conditions.len()
            invariant
                0 <= i <= self.conditions@.len(),
                views(parts@) == condition_texts(self.conditions@.take(i as int)),
            decreases self.conditions@.len() - i,
        {
            let one = self.conditions[i].format();
            let ghost shown = views(parts@);
            parts.push(one);
            i += 1;
            proof {
                assert(views(parts@) =~= shown.push(one@));
                assert(views(parts@) =~= condition_texts(self.conditions@.take(i as int)));
            }
        }
        let ghost first = condition_texts(self.conditions@);
        proof {
            assert(self.conditions@.take(i as int) =~= self.conditions@);
            assert(self.nested@.take(0) =~= Seq::<FilterQuery>::empty());
            assert(views(parts@) =~= first + nested_texts(self.nested@.take(0)));
        }
        let mut k: usize = 0;
        while k < self.nested.len()
            invariant
                0 <= k <= self.nested@.len(),
                first == condition_texts(self.conditions@),
                views(parts@) == first + nested_texts(self.nested@.take(k as int)),
            decreases self.nested@.len() - k,
        {
            proof {
                assert(self.nested@.take(k + 1).drop_last() =~= self.nested@.take(k as int));
                assert(self.nested@.take(k + 1).last() == self.nested@[k as int]);
            }
            let inner = self.nested[k].to_string();
            let one = String::from_str("(").concat(inner.as_str()).concat(")");
            let ghost shown = views(parts@);
            parts.push(one);
            k += 1;
            proof {
                assert(views(parts@) =~= shown.push(one@));
                assert(views(parts@) =~= first + nested_texts(self.nested@.take(k as int)));
            }
        }
        proof {
            assert(self.nested@.take(k as int) =~= self.nested@);
        }
        let op_str = match self.logical_op {
            LogicalOperator::And => " AND ",
            LogicalOperator::Or => " OR ",
            LogicalOperator::Not => " NOT ",
        };
        join(&parts, op_str)
    }

    /// Write one value as it stands in the text of a query.
    pub fn format_value(&self, value: &FilterValue) -> (text: String)
        ensures
            text@ == value_text(*value),
    {
        value.format()
    }
}

/// How the values of a field are summed up.
#[derive(Debug, Clone, Copy, PartialEq, Eq, Structural)]
pub enum AggregationFunction {
    Count,
    Sum,
    Avg,
    Min,
    Max,
    Distinct,
}

impl AggregationFunction {
    /// The function's name in lower case.
    pub fn name(&self) -> (name: &'static str)
        ensures
            name@ == match self {
                AggregationFunction::Count => "count"@,
                AggregationFunction::Sum => "sum"@,
                AggregationFunction::Avg => "avg"@,
                AggregationFunction::Min => "min"@,
                AggregationFunction::Max => "max"@,
                AggregationFunction::Distinct => "distinct"@,
            },
    {
        match self {
            AggregationFunction::Count => "count",
            AggregationFunction::Sum => "sum",
            AggregationFunction::Avg => "avg",
            AggregationFunction::Min => "min",
            AggregationFunction::Max => "max",
            AggregationFunction::Distinct => "distinct",
        }
    }
}

/// An aggregation over a field.
#[derive(Debug)]
pub struct AggregationQuery {
    /// What to compute.
    pub function: AggregationFunction,
    /// Over which field.
    pub field: String,
    /// Grouped by which field, if any.
    pub group_by: Option<String>,
    /// Over the memories that pass which query, if any.
    pub filter: Option<FilterQuery>,
}

impl AggregationQuery {
    /// The aggregation of `field` by `function`, ungrouped and unfiltered.
    pub fn new(function: AggregationFunction, field: String) -> (query: Self)
        ensures
            query.function == function,
            query.field == field,
            query.group_by is None,
            query.filter is None,
    {
        AggregationQuery { function, field, group_by: None, filter: None }
    }

    /// The same aggregation grouped by `field`.
    pub fn group_by(self, field: String) -> (query: Self)
        ensures
            query.group_by == Some(field),
            query.function == self.function,
            query.field == self.field,
            query.filter == self.filter,
    {
        let mut query = self;
        query.group_by = Some(field);
        query
    }

    /// The same aggregation over what passes `filter`.
    pub fn with_filter(self, filter: FilterQuery) -> (query: Self)
        ensures
            query.filter == Some(filter),
            query.function == self.function,
            query.field == self.field,
            query.group_by == self.group_by,
    {
        let mut query = self;
        query.filter = Some(filter);
        query
    }
}

/// A window of time on a field.
#[derive(Debug, Clone)]
pub struct TimeFilter {
    /// Where the window starts.
    pub start: Timestamp,
    /// Where it ends.
    pub end: Timestamp,
    /// The field that holds the time.
    pub field: String,
}

impl TimeFilter {
    /// The window from `start` to `end` on `field`.
    pub fn new(field: String, start: Timestamp, end: Timestamp) -> (window: Self)
        ensures
            window == (TimeFilter { start, end, field }),
    {
        TimeFilter { start, end, field }
    }

    /// The window of the day that `now` lies in: from midnight to one
    /// second before the next midnight.
    pub open spec fn day_window(field: String, now: Timestamp) -> TimeFilter {
        TimeFilter {
            start: Timestamp { secs: now.day_start() as i64, nanos: 0 },
            end: Timestamp { secs: (now.day_start() + SECONDS_PER_DAY - 1) as i64, nanos: 0 },
            field,
        }
    }

    /// The window of the `days` days that end at `now`, where the seconds
    /// of a timestamp can hold its start.
    pub open spec fn window_before(field: String, days: i64, now: Timestamp) -> Option<TimeFilter> {
        if i64::MIN <= now.secs - days * SECONDS_PER_DAY <= i64::MAX {
            Some(
                TimeFilter {
                    start: Timestamp {
                        secs: (now.secs - days * SECONDS_PER_DAY) as i64,
                        nanos: now.nanos,
                    },
                    end: now,
                    field,
                },
            )
        } else {
            None
        }
    }

    /// The window of the current day: the day window of a time that the
    /// clock gave. It starts at a midnight and ends one second before the
    /// next.
    pub fn today(field: String) -> (window: Self)
        ensures
            exists|now: Timestamp|
                now.from_clock() && window == #[trigger] TimeFilter::day_window(field, now),
            window.field == field,
            window.start.nanos == 0,
            window.end.nanos == 0,
            (window.start.secs as int) % (SECONDS_PER_DAY as int) == 0,
            window.end.secs == window.start.secs + SECONDS_PER_DAY - 1,
    {
        let now = Timestamp::now();
        Self::day_of(field, now)
    }

    /// The window of the day that `now` lies in: from midnight to one
    /// second before the next.
    pub fn day_of(field: String, now: Timestamp) -> (window: Self)
        requires
            i64::MIN + SECONDS_PER_DAY <= now.secs <= i64::MAX - SECONDS_PER_DAY,
        ensures
            window == TimeFilter::day_window(field, now),
            window.start.secs <= now.secs <= window.end.secs,
            (window.start.secs as int) % (SECONDS_PER_DAY as int) == 0,
    {
        let start = now.start_of_day();
        let end = Timestamp { secs: start.secs + (SECONDS_PER_DAY - 1), nanos: 0 };
        TimeFilter { start, end, field }
    }

    /// The window of the last `days` days up to now: the window of `days`
    /// days before a time that the clock gave. It is always given for up to
    /// `MAX_WINDOW_DAYS` days either way; beyond that it is `None` where the
    /// seconds of a timestamp cannot hold its start.
    pub fn last_n_days(field: String, days: i64) -> (window: Option<Self>)
        ensures
            exists|now: Timestamp|
                now.from_clock() && window == #[trigger] TimeFilter::window_before(
                    field,
                    days,
                    now,
                ),
            -MAX_WINDOW_DAYS <= days <= MAX_WINDOW_DAYS ==> window is Some,
            match window {
                Some(w) => w.field == field && w.start.nanos == w.end.nanos && w.start.secs
                    == w.end.secs - days * SECONDS_PER_DAY,
                None => true,
            },
    {
        let now = Timestamp::now();
        Self::days_before(field, days, now)
    }

    /// The window of the `days` days that end at `now`; `None` where its
    /// start cannot be held in the seconds of a timestamp.
    pub fn days_before(field: String, days: i64, now: Timestamp) -> (window: Option<Self>)
        ensures
            window == TimeFilter::window_before(field, days, now),
    {
        let wide: i128 = (now.secs as i128) - (days as i128) * (SECONDS_PER_DAY as i128);
        if wide >= i64::MIN as i128 && wide <= i64::MAX as i128 {
            Some(
                TimeFilter {
                    start: Timestamp { secs: wide as i64, nanos: now.nanos },
                    end: now,
                    field,
                },
            )
        } else {
            None
        }
    }
}

/// The number of days for which a window before or after the current time
/// can always be held: the seconds of so many days, added to any seconds of
/// the calendar, fit a timestamp.
pub const MAX_WINDOW_DAYS: i64 = 100_000_000_000_000;

/// A query in the making.
#[derive(Debug)]
pub struct QueryBuilder {
    filters: Vec<FilterQuery>,
    aggregations: Vec<AggregationQuery>,
    time_filters: Vec<TimeFilter>,
    limit: Option<usize>,
    offset: Option<usize>,
}

/// A finished query.
#[derive(Debug)]
pub struct Query {
    /// The filters, in the order in which they were added.
    pub filters: Vec<FilterQuery>,
    /// The aggregations, in the order in which they were added.
    pub aggregations: Vec<AggregationQuery>,
    /// The windows of time, in the order in which they were added.
    pub time_filters: Vec<TimeFilter>,
    /// The largest number of results, if bounded.
    pub limit: Option<usize>,
    /// The number of results to pass over, if any.
    pub offset: Option<usize>,
}

impl QueryBuilder {
    /// The query that `build` would give now.
    pub closed spec fn so_far(&self) -> Query {
        Query {
            filters: self.filters,
            aggregations: self.aggregations,
            time_filters: self.time_filters,
            limit: self.limit,
            offset: self.offset,
        }
    }

    /// A builder with nothing added.
    pub fn new() -> (builder: Self)
        ensures
            builder.so_far().filters@.len() == 0,
            builder.so_far().aggregations@.len() == 0,
            builder.so_far().time_filters@.len() == 0,
            builder.so_far().limit is None,
            builder.so_far().offset is None,
    {
        QueryBuilder {
            filters: Vec::new(),
            aggregations: Vec::new(),
            time_filters: Vec::new(),
            limit: None,
            offset: None,
        }
    }

    /// Add a filter.
    pub fn filter(self, filter: FilterQuery) -> (builder: Self)
        ensures
            builder.so_far().filters@ == self.so_far().filters@.push(filter),
            builder.so_far().aggregations == self.so_far().aggregations,
            builder.so_far().time_filters == self.so_far().time_filters,
            builder.so_far().limit == self.so_far().limit,
            builder.so_far().offset == self.so_far().offset,
    {
        let mut builder = self;
        builder.filters.push(filter);
        builder
    }

    /// Add an aggregation.
    pub fn aggregate(self, agg: AggregationQuery) -> (builder: Self)
        ensures
            builder.so_far().aggregations@ == self.so_far().aggregations@.push(agg),
            builder.so_far().filters == self.so_far().filters,
            builder.so_far().time_filters == self.so_far().time_filters,
            builder.so_far().limit == self.so_far().limit,
            builder.so_far().offset == self.so_far().offset,
    {
        let mut builder = self;
        builder.aggregations.push(agg);
        builder
    }

    /// Add a window of time.
    pub fn time_filter(self, filter: TimeFilter) -> (builder: Self)
        ensures
            builder.so_far().time_filters@ == self.so_far().time_filters@.push(filter),
            builder.so_far().filters == self.so_far().filters,
            builder.so_far().aggregations == self.so_far().aggregations,
            builder.so_far().limit == self.so_far().limit,
            builder.so_far().offset == self.so_far().offset,
    {
        let mut builder = self;
        builder.time_filters.push(filter);
        builder
    }

    /// Bound the number of results.
    pub fn limit(self, limit: usize) -> (builder: Self)
        ensures
            builder.so_far() == (Query { limit: Some(limit), ..self.so_far() }),
    {
        let mut builder = self;
        builder.limit = Some(limit);
        builder
    }

    /// Pass over the first `offset` results.
    pub fn offset(self, offset: usize) -> (builder: Self)
        ensures
            builder.so_far() == (Query { offset: Some(offset), ..self.so_far() }),
    {
        let mut builder = self;
        builder.offset = Some(offset);
        builder
    }

    /// The finished query.
    pub fn build(self) -> (query: Query)
        ensures
            query == self.so_far(),
    {
        Query {
            filters: self.filters,
            aggregations: self.aggregations,
            time_filters: self.time_filters,
            limit: self.limit,
            offset: self.offset,
        }
    }
}

impl Default for QueryBuilder {
    /// A builder with nothing added.
    fn default() -> (builder: Self)
        ensures
            builder.so_far().filters@.len() == 0,
            builder.so_far().aggregations@.len() == 0,
            builder.so_far().time_filters@.len() == 0,
            builder.so_far().limit is None,
            builder.so_far().offset is None,
    {
        QueryBuilder::new()
    }
}

} // verus!
