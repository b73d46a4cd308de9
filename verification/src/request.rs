//! The immutable request describing one trace run.

use vstd::prelude::*;

verus! {

/// Everything a run needs, constructed once from the command line and
/// read-only thereafter. Absent `host` means the local service manager;
/// absent `database_matcher` means all databases; absent `include_filter`
/// omits the include-filter directive.
pub struct TraceRequest {
    pub host: Option<String>,
    pub user: String,
    pub pass: String,
    pub max_sql: usize,
    pub database_matcher: Option<String>,
    pub include_filter: Option<String>,
    pub events: Vec<String>,
}

/// The mathematical content of a request: every field as a plain value.
pub ghost struct TraceRequestView {
    pub host: Option<Seq<char>>,
    pub user: Seq<char>,
    pub pass: Seq<char>,
    pub max_sql: nat,
    pub database_matcher: Option<Seq<char>>,
    pub include_filter: Option<Seq<char>>,
    pub events: Seq<Seq<char>>,
}

impl View for TraceRequest {
    type V = TraceRequestView;

    open spec fn view(&self) -> TraceRequestView {
        TraceRequestView {
            host: self.host.deep_view(),
            user: self.user@,
            pass: self.pass@,
            max_sql: self.max_sql as nat,
            database_matcher: self.database_matcher.deep_view(),
            include_filter: self.include_filter.deep_view(),
            events: self.events.deep_view(),
        }
    }
}

} // verus!
