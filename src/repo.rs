//! The repository facade: one operation set over the two backends, and the
//! error kinds every operation reports.
use crate::builder::{arg_values, placeholders, BuildError, SqlArg, SqlValue};
use crate::filters::{alert_filters, values, AlertQueryOptions};
use crate::filters::{decimal_i64, element_filters, parse_i64, QueryElement};
use crate::listing::{
    agg_query, agg_sql, event_by_id_query, event_by_id_sql, event_filters, events_query,
    events_sql, EventQueryParams,
};
use crate::builder::valid_path;
use crate::queries::{group_by_alert_query, streaming_alert_query};
use crate::updates::{
    comment_sql, comment_update, event_update, event_update_sql, group_update, group_update_sql, AlertGroupSpec, EventAction,
    Statement,
};
use vstd::prelude::*;

verus! {

/// Failure kinds of every repository operation, whatever the backend.
pub enum DatastoreError {
    /// The active backend does not support the operation.
    Unimplemented,
    /// The referenced event or alert group does not exist.
    EventNotFound,
    /// The storage engine failed; its message.
    BackendQuery(String),
    /// A stored or incoming document is not valid JSON; the parser's message.
    Serialization(String),
    /// A stored or filter timestamp could not be parsed; the parser's message.
    TimeParse(String),
    /// A statement's placeholders and arguments disagreed.
    ArgumentEncoding(BuildError),
}

impl DatastoreError {
    pub fn from_build(e: BuildError) -> (r: Self)
        ensures
            r == DatastoreError::ArgumentEncoding(e),
    {
        DatastoreError::ArgumentEncoding(e)
    }

    /// Whether this is the unsupported-operation kind.
    pub fn is_unimplemented(&self) -> (r: bool)
        ensures
            r == (*self is Unimplemented),
    {
        match self {
            DatastoreError::Unimplemented => true,
            _ => false,
        }
    }
}

/// How alerts are aggregated: exactly, by one grouped statement, or by
/// streaming rows under a time budget.
#[derive(Debug, PartialEq, Eq, Structural, Clone, Copy)]
pub enum AlertStrategy {
    Exact,
    Streaming,
}

/// Settings of the relational backend, fixed at construction.
#[derive(Debug, PartialEq, Eq, Structural, Clone, Copy)]
pub struct SqliteConfig {
    /// Whether the indexed JSON columns are available.
    pub fts: bool,
    pub strategy: AlertStrategy,
    /// Time budget of the streaming strategy, in nanoseconds.
    pub budget_nanos: u64,
}

/// The relational backend.
pub struct SqliteEventRepo {
    pub config: SqliteConfig,
}

/// The search-engine backend.
pub struct ElasticEventRepo {
    /// Index name prefix.
    pub index: String,
    /// Whether events are stored in ECS layout, which this console does not
    /// import into.
    pub ecs: bool,
}

pub enum EventRepo {
    Elastic(ElasticEventRepo),
    SQLite(SqliteEventRepo),
}

/// Where imported events go.
pub enum EventSink {
    /// The search engine, under this index prefix.
    Elastic(String),
    SQLite,
}

/// What the relational backend runs for an alert query.
pub enum AlertPlan {
    /// One grouped statement; each result row is one group.
    Exact { sql: String, args: Vec<SqlArg> },
    /// Rows newest first, folded into groups until the budget is spent.
    Streaming { sql: String, args: Vec<SqlArg>, budget_nanos: u64 },
}

/// `r` applies `a` to the event whose rowid `event_id` spells, on the
/// relational backend; an id that is not a decimal integer names no event.
pub open spec fn event_action_result(
    repo: EventRepo,
    a: EventAction,
    event_id: Seq<char>,
    r: Result<Statement, DatastoreError>,
) -> bool {
    match repo {
        EventRepo::Elastic(_) => r matches Err(DatastoreError::Unimplemented),
        EventRepo::SQLite(_) => match decimal_i64(event_id) {
            Some(id) => r matches Ok(st) && st.sql@ == event_update_sql(a) && arg_values(st.args@)
                == seq![SqlValue::Int(id as int)],
            None => r matches Err(DatastoreError::EventNotFound),
        },
    }
}

/// `r` applies `a` to every event of group `g` on the relational backend.
pub open spec fn group_action_result(
    repo: EventRepo,
    a: EventAction,
    g: AlertGroupSpec,
    r: Result<Statement, DatastoreError>,
) -> bool {
    match repo {
        EventRepo::Elastic(_) => r matches Err(DatastoreError::Unimplemented),
        EventRepo::SQLite(_) => r matches Ok(st) && st.sql@ == group_update_sql(a) && arg_values(
            st.args@,
        ) == seq![
            SqlValue::Int(g.signature_id as int),
            SqlValue::Text(g.src_ip@),
            SqlValue::Text(g.dest_ip@),
            SqlValue::Int(g.min_timestamp as int),
            SqlValue::Int(g.max_timestamp as int),
        ],
    }
}

impl EventRepo {
    fn event_action(&self, a: EventAction, event_id: &str) -> (r: Result<Statement, DatastoreError>)
        ensures
            event_action_result(*self, a, event_id@, r),
    {
        match self {
            EventRepo::Elastic(_) => Err(DatastoreError::Unimplemented),
            EventRepo::SQLite(_) => match parse_i64(event_id) {
                Some(id) => Ok(event_update(a, id)),
                None => Err(DatastoreError::EventNotFound),
            },
        }
    }

    fn group_action(&self, a: EventAction, g: &AlertGroupSpec) -> (r: Result<Statement, DatastoreError>)
        ensures
            group_action_result(*self, a, *g, r),
    {
        match self {
            EventRepo::Elastic(_) => Err(DatastoreError::Unimplemented),
            EventRepo::SQLite(_) => Ok(group_update(a, g)),
        }
    }

    /// The statement fetching one event; `None` where the id is not a
    /// decimal integer, so names no event.
    pub fn get_event_by_id(&self, event_id: &str) -> (r: Result<Option<Statement>, DatastoreError>)
        ensures
            self is Elastic ==> r matches Err(DatastoreError::Unimplemented),
            self is SQLite ==> match decimal_i64(event_id@) {
                Some(id) => r matches Ok(Some(st)) && st.sql@ == event_by_id_sql() && arg_values(
                    st.args@,
                ) == seq![SqlValue::Int(id as int)],
                None => r matches Ok(None),
            },
    {
        match self {
            EventRepo::Elastic(_) => Err(DatastoreError::Unimplemented),
            EventRepo::SQLite(_) => match parse_i64(event_id) {
                Some(id) => {
                    let (sql, args) = event_by_id_query(id);
                    Ok(Some(Statement { sql, args }))
                },
                None => Ok(None),
            },
        }
    }

    /// The statement listing the events that `p` selects.
    pub fn events(&self, p: &EventQueryParams) -> (r: Result<Statement, DatastoreError>)
        ensures
            match self {
                EventRepo::Elastic(_) => r matches Err(DatastoreError::Unimplemented),
                EventRepo::SQLite(ds) => r matches Ok(st) && st.sql@ == events_sql(
                    ds.config.fts,
                    *p,
                ) && arg_values(st.args@) == values(event_filters(ds.config.fts, *p))
                    && placeholders(st.sql@) == st.args@.len(),
            },
    {
        match self {
            EventRepo::Elastic(_) => Err(DatastoreError::Unimplemented),
            EventRepo::SQLite(ds) => {
                let (sql, args) = events_query(ds.config.fts, p);
                Ok(Statement { sql, args })
            },
        }
    }

    /// The statement ranking the values of `field` among the events that
    /// `query` selects; a field that is no valid JSON path is refused.
    pub fn agg(
        &self,
        field: &str,
        size: u64,
        order: &Option<String>,
        query: &Vec<QueryElement>,
    ) -> (r: Result<Statement, DatastoreError>)
        ensures
            match self {
                EventRepo::Elastic(_) => r matches Err(DatastoreError::Unimplemented),
                EventRepo::SQLite(ds) => if valid_path(field@) {
                    r matches Ok(st) && st.sql@ == agg_sql(
                        ds.config.fts,
                        field@,
                        size,
                        *order,
                        query@,
                    ) && arg_values(st.args@) == values(element_filters(ds.config.fts, query@))
                        && placeholders(st.sql@) == st.args@.len()
                } else {
                    r matches Err(DatastoreError::ArgumentEncoding(BuildError::InvalidPath))
                },
            },
    {
        match self {
            EventRepo::Elastic(_) => Err(DatastoreError::Unimplemented),
            EventRepo::SQLite(ds) => match agg_query(ds.config.fts, field, size, order, query) {
                Ok((sql, args)) => Ok(Statement { sql, args }),
                Err(e) => Err(DatastoreError::from_build(e)),
            },
        }
    }

    /// The statement adding the history entry `entry`, a JSON document
    /// holding the comment and the acting user, to one event.
    pub fn comment_event_by_id(&self, event_id: &str, entry: String) -> (r: Result<
        Statement,
        DatastoreError,
    >)
        ensures
            self is Elastic ==> r matches Err(DatastoreError::Unimplemented),
            self is SQLite ==> match decimal_i64(event_id@) {
                Some(id) => r matches Ok(st) && st.sql@ == comment_sql() && arg_values(st.args@)
                    == seq![SqlValue::Text(entry@), SqlValue::Int(id as int)],
                None => r matches Err(DatastoreError::EventNotFound),
            },
    {
        match self {
            EventRepo::Elastic(_) => Err(DatastoreError::Unimplemented),
            EventRepo::SQLite(_) => match parse_i64(event_id) {
                Some(id) => Ok(comment_update(id, entry)),
                None => Err(DatastoreError::EventNotFound),
            },
        }
    }

    /// The statement archiving one event.
    pub fn archive_event_by_id(&self, event_id: &str) -> (r: Result<Statement, DatastoreError>)
        ensures
            event_action_result(*self, EventAction::Archive, event_id@, r),
    {
        self.event_action(EventAction::Archive, event_id)
    }

    /// The statement escalating one event.
    pub fn escalate_event_by_id(&self, event_id: &str) -> (r: Result<Statement, DatastoreError>)
        ensures
            event_action_result(*self, EventAction::Escalate, event_id@, r),
    {
        self.event_action(EventAction::Escalate, event_id)
    }

    /// The statement de-escalating one event.
    pub fn deescalate_event_by_id(&self, event_id: &str) -> (r: Result<Statement, DatastoreError>)
        ensures
            event_action_result(*self, EventAction::Deescalate, event_id@, r),
    {
        self.event_action(EventAction::Deescalate, event_id)
    }

    /// The statement archiving every event of an alert group.
    pub fn archive_by_alert_group(&self, g: &AlertGroupSpec) -> (r: Result<Statement, DatastoreError>)
        ensures
            group_action_result(*self, EventAction::Archive, *g, r),
    {
        self.group_action(EventAction::Archive, g)
    }

    /// The statement escalating every event of an alert group.
    pub fn escalate_by_alert_group(&self, g: &AlertGroupSpec) -> (r: Result<Statement, DatastoreError>)
        ensures
            group_action_result(*self, EventAction::Escalate, *g, r),
    {
        self.group_action(EventAction::Escalate, g)
    }

    /// The statement de-escalating every event of an alert group.
    pub fn deescalate_by_alert_group(&self, g: &AlertGroupSpec) -> (r: Result<Statement, DatastoreError>)
        ensures
            group_action_result(*self, EventAction::Deescalate, *g, r),
    {
        self.group_action(EventAction::Deescalate, g)
    }

    /// The sink that imports into this repository, if it takes imports.
    pub fn get_importer(&self) -> (r: Option<EventSink>)
        ensures
            match self {
                EventRepo::Elastic(ds) => if ds.ecs {
                    r is None
                } else {
                    r matches Some(EventSink::Elastic(ix)) && ix@ == ds.index@
                },
                EventRepo::SQLite(_) => r matches Some(EventSink::SQLite),
            },
    {
        match self {
            EventRepo::Elastic(ds) => if ds.ecs {
                None
            } else {
                Some(EventSink::Elastic(ds.index.clone()))
            },
            EventRepo::SQLite(_) => Some(EventSink::SQLite),
        }
    }

    /// The statement that answers an alert query on the relational backend;
    /// the search-engine backend's aggregation is not part of this library
    /// and reports `Unimplemented`.
    pub fn alert_plan(&self, o: &AlertQueryOptions) -> (r: Result<AlertPlan, DatastoreError>)
        ensures
            self is Elastic ==> r matches Err(DatastoreError::Unimplemented),
            match self {
                EventRepo::SQLite(ds) => r matches Ok(p) && SqliteEventRepo::plan_for(
                    ds.config,
                    *o,
                    p,
                ),
                EventRepo::Elastic(_) => true,
            },
    {
        match self {
            EventRepo::Elastic(_) => Err(DatastoreError::Unimplemented),
            EventRepo::SQLite(ds) => Ok(ds.alert_plan(o)),
        }
    }
}

impl SqliteEventRepo {
    /// `p` answers `o` under `c`: the configured strategy's statement, with
    /// the filters' arguments in order and as many placeholders as
    /// arguments.
    pub open spec fn plan_for(c: SqliteConfig, o: AlertQueryOptions, p: AlertPlan) -> bool {
        match p {
            AlertPlan::Exact { sql, args } => {
                &&& c.strategy == AlertStrategy::Exact
                &&& sql@ == crate::queries::group_by_head() + crate::builder::join(
                    crate::filters::fragments(alert_filters(false, o)),
                    " AND "@,
                ) + crate::queries::group_by_middle() + crate::builder::join(
                    crate::filters::fragments(alert_filters(false, o)),
                    " AND "@,
                ) + crate::queries::group_by_tail()
                &&& arg_values(args@) == values(alert_filters(false, o)) + values(
                    alert_filters(false, o),
                )
                &&& placeholders(sql@) == args@.len()
            },
            AlertPlan::Streaming { sql, args, budget_nanos } => {
                &&& c.strategy == AlertStrategy::Streaming
                &&& budget_nanos == c.budget_nanos
                &&& sql@ == crate::queries::streaming_sql(c.fts, o)
                &&& arg_values(args@) == values(alert_filters(c.fts, o))
                &&& placeholders(sql@) == args@.len()
            },
        }
    }

    pub fn new(config: SqliteConfig) -> (r: Self)
        ensures
            r.config == config,
    {
        SqliteEventRepo { config }
    }

    /// The statement that answers `o` under the configured strategy.
    pub fn alert_plan(&self, o: &AlertQueryOptions) -> (r: AlertPlan)
        ensures
            Self::plan_for(self.config, *o, r),
    {
        match self.config.strategy {
            AlertStrategy::Exact => {
                let (sql, args) = group_by_alert_query(o);
                AlertPlan::Exact { sql, args }
            },
            AlertStrategy::Streaming => {
                let (sql, args) = streaming_alert_query(self.config.fts, o);
                AlertPlan::Streaming { sql, args, budget_nanos: self.config.budget_nanos }
            },
        }
    }
}

/// A console user, as the configuration store lists it.
pub struct User {
    pub uuid: String,
    pub username: String,
}

} // verus!
