//! The bookkeeping of one subgraph request: which retry budget applies, how often it was
//! sent, how the cache answered, what the response status was, and what is recorded for it
//! when the request is finalized.

use vstd::prelude::*;
use crate::lexical::text_eq;

verus! {

#[verifier::external_type_specification]
#[verifier::external_body]
pub struct ExStatusCode(http::StatusCode);

/// The outcome of a well-formed GraphQL response.
#[derive(Debug, Clone, Copy, PartialEq, Eq, Structural)]
pub enum GraphqlResponseStatus {
    Success,
    FieldError { count: u64, data_is_null: bool },
    RequestError { count: u64 },
    RefusedRequest,
}

/// The outcome of a subgraph request, as telemetry records it.
#[derive(Debug, Clone, Copy, PartialEq, Eq, Structural)]
pub enum SubgraphResponseStatus {
    HookError,
    HttpError,
    InvalidGraphqlResponseError,
    WellFormedGraphqlResponse(GraphqlResponseStatus),
}

/// How the entity cache answered for the request.
#[derive(Debug, Clone, Copy, PartialEq, Eq, Structural)]
pub enum CacheStatus {
    Hit,
    PartialHit,
    Miss,
}

/// The retry budget a request draws from: mutations have their own.
#[derive(Debug, Clone, Copy, PartialEq, Eq, Structural)]
pub enum RetryBudgetKind {
    Mutation,
    NonMutation,
}

/// What the request-duration metric is recorded with.
#[derive(Debug, Clone, Copy, PartialEq, Eq)]
pub struct DurationAttributes {
    pub status: SubgraphResponseStatus,
    pub http_status_code: Option<http::StatusCode>,
}

/// The HTTP method of subgraph requests.
pub const SUBGRAPH_REQUEST_METHOD: &'static str = "POST";

/// The record of an executed subgraph request, handed to the on-subgraph-response hook.
#[derive(Debug)]
pub struct ExecutedSubgraphRequest<K> {
    pub subgraph_name: String,
    pub method: &'static str,
    pub url: String,
    pub cache_status: Option<CacheStatus>,
    pub graphql_response_status: Option<GraphqlResponseStatus>,
    pub executions: Vec<K>,
    pub duration: core::time::Duration,
}

/// The bookkeeping of one subgraph request; `K` is the kind of each recorded execution.
#[derive(Debug)]
pub struct SubgraphContext<K> {
    pub subgraph_name: String,
    /// The URL of the subgraph's endpoint.
    pub url: String,
    pub retry_budget: RetryBudgetKind,
    pub status: Option<SubgraphResponseStatus>,
    pub http_status_code: Option<http::StatusCode>,
    pub send_count: usize,
    pub cache_status: Option<CacheStatus>,
    pub graphql_response_status: Option<GraphqlResponseStatus>,
    pub executions: Vec<K>,
}

/// The retry budget for an operation of the given type.
pub open spec fn budget_for(operation_type: Seq<char>) -> RetryBudgetKind {
    if operation_type == "mutation"@ {
        RetryBudgetKind::Mutation
    } else {
        RetryBudgetKind::NonMutation
    }
}

/// The retry budget for an operation of the given type.
pub fn retry_budget_for(operation_type: &str) -> (r: RetryBudgetKind)
    ensures
        r == budget_for(operation_type@),
{
    if text_eq(operation_type, "mutation") {
        RetryBudgetKind::Mutation
    } else {
        RetryBudgetKind::NonMutation
    }
}

impl<K> SubgraphContext<K> {
    /// A fresh context for a request to the subgraph `subgraph_name` at `url`, made for an
    /// operation of type `operation_type`.
    pub fn new(subgraph_name: String, url: String, operation_type: &str) -> (r: SubgraphContext<K>)
        ensures
            r.subgraph_name == subgraph_name,
            r.url == url,
            r.retry_budget == budget_for(operation_type@),
            r.status is None,
            r.http_status_code is None,
            r.send_count == 0,
            r.cache_status is None,
            r.graphql_response_status is None,
            r.executions@.len() == 0,
    {
        SubgraphContext {
            subgraph_name,
            url,
            retry_budget: retry_budget_for(operation_type),
            status: None,
            http_status_code: None,
            send_count: 0,
            cache_status: None,
            graphql_response_status: None,
            executions: Vec::new(),
        }
    }

    /// Counts one more sending of the request.
    pub fn increment_inflight_requests(&mut self)
        requires
            old(self).send_count < usize::MAX,
        ensures
            final(self).send_count == old(self).send_count + 1,
            final(self).status == old(self).status,
            final(self).http_status_code == old(self).http_status_code,
            final(self).cache_status == old(self).cache_status,
            final(self).graphql_response_status == old(self).graphql_response_status,
            final(self).executions@ == old(self).executions@,
            final(self).retry_budget == old(self).retry_budget,
            final(self).subgraph_name == old(self).subgraph_name,
            final(self).url == old(self).url,
    {
        self.send_count = self.send_count + 1;
    }

    /// Records the cache status.
    fn set_cache_status(&mut self, cache_status: CacheStatus)
        ensures
            final(self).cache_status == Some(cache_status),
            final(self).send_count == old(self).send_count,
            final(self).status == old(self).status,
            final(self).http_status_code == old(self).http_status_code,
            final(self).graphql_response_status == old(self).graphql_response_status,
            final(self).executions@ == old(self).executions@,
            final(self).retry_budget == old(self).retry_budget,
            final(self).subgraph_name == old(self).subgraph_name,
            final(self).url == old(self).url,
    {
        self.cache_status = Some(cache_status);
    }

    /// Records that the cache answered the whole request.
    pub fn record_cache_hit(&mut self)
        ensures
            final(self).cache_status == Some(CacheStatus::Hit),
            final(self).send_count == old(self).send_count,
            final(self).status == old(self).status,
            final(self).http_status_code == old(self).http_status_code,
            final(self).graphql_response_status == old(self).graphql_response_status,
            final(self).executions@ == old(self).executions@,
            final(self).retry_budget == old(self).retry_budget,
            final(self).subgraph_name == old(self).subgraph_name,
            final(self).url == old(self).url,
    {
        self.set_cache_status(CacheStatus::Hit);
    }

    /// Records that the cache answered part of the request.
    pub fn record_cache_partial_hit(&mut self)
        ensures
            final(self).cache_status == Some(CacheStatus::PartialHit),
            final(self).send_count == old(self).send_count,
            final(self).status == old(self).status,
            final(self).http_status_code == old(self).http_status_code,
            final(self).graphql_response_status == old(self).graphql_response_status,
            final(self).executions@ == old(self).executions@,
            final(self).retry_budget == old(self).retry_budget,
            final(self).subgraph_name == old(self).subgraph_name,
            final(self).url == old(self).url,
    {
        self.set_cache_status(CacheStatus::PartialHit);
    }

    /// Records that the cache did not answer the request.
    pub fn record_cache_miss(&mut self)
        ensures
            final(self).cache_status == Some(CacheStatus::Miss),
            final(self).send_count == old(self).send_count,
            final(self).status == old(self).status,
            final(self).http_status_code == old(self).http_status_code,
            final(self).graphql_response_status == old(self).graphql_response_status,
            final(self).executions@ == old(self).executions@,
            final(self).retry_budget == old(self).retry_budget,
            final(self).subgraph_name == old(self).subgraph_name,
            final(self).url == old(self).url,
    {
        self.set_cache_status(CacheStatus::Miss);
    }

    /// Records one execution of the request.
    pub fn push_request_execution(&mut self, kind: K)
        ensures
            final(self).executions@ == old(self).executions@.push(kind),
            final(self).cache_status == old(self).cache_status,
            final(self).send_count == old(self).send_count,
            final(self).status == old(self).status,
            final(self).http_status_code == old(self).http_status_code,
            final(self).graphql_response_status == old(self).graphql_response_status,
            final(self).retry_budget == old(self).retry_budget,
            final(self).subgraph_name == old(self).subgraph_name,
            final(self).url == old(self).url,
    {
        self.executions.push(kind);
    }

    /// Records the HTTP status of the subgraph's response.
    pub fn record_http_response(&mut self, status_code: http::StatusCode)
        ensures
            final(self).http_status_code == Some(status_code),
            final(self).executions@ == old(self).executions@,
            final(self).cache_status == old(self).cache_status,
            final(self).send_count == old(self).send_count,
            final(self).status == old(self).status,
            final(self).graphql_response_status == old(self).graphql_response_status,
            final(self).retry_budget == old(self).retry_budget,
            final(self).subgraph_name == old(self).subgraph_name,
            final(self).url == old(self).url,
    {
        self.http_status_code = Some(status_code);
    }

    /// Records the response status.
    fn set_status(&mut self, status: SubgraphResponseStatus)
        ensures
            final(self).status == Some(status),
            final(self).http_status_code == old(self).http_status_code,
            final(self).executions@ == old(self).executions@,
            final(self).cache_status == old(self).cache_status,
            final(self).send_count == old(self).send_count,
            final(self).graphql_response_status == old(self).graphql_response_status,
            final(self).retry_budget == old(self).retry_budget,
            final(self).subgraph_name == old(self).subgraph_name,
            final(self).url == old(self).url,
    {
        self.status = Some(status);
    }

    /// Records that a hook failed the request.
    pub fn set_as_hook_error(&mut self)
        ensures
            final(self).status == Some(SubgraphResponseStatus::HookError),
            final(self).http_status_code == old(self).http_status_code,
            final(self).executions@ == old(self).executions@,
            final(self).cache_status == old(self).cache_status,
            final(self).send_count == old(self).send_count,
            final(self).graphql_response_status == old(self).graphql_response_status,
            final(self).retry_budget == old(self).retry_budget,
            final(self).subgraph_name == old(self).subgraph_name,
            final(self).url == old(self).url,
    {
        self.set_status(SubgraphResponseStatus::HookError);
    }

    /// Records an HTTP failure, with its status code when there is one; without one, the
    /// status code recorded before stays.
    pub fn set_as_http_error(&mut self, status_code: Option<http::StatusCode>)
        ensures
            final(self).status == Some(SubgraphResponseStatus::HttpError),
            final(self).http_status_code == match status_code {
                Some(c) => Some(c),
                None => old(self).http_status_code,
            },
            final(self).executions@ == old(self).executions@,
            final(self).cache_status == old(self).cache_status,
            final(self).send_count == old(self).send_count,
            final(self).graphql_response_status == old(self).graphql_response_status,
            final(self).retry_budget == old(self).retry_budget,
            final(self).subgraph_name == old(self).subgraph_name,
            final(self).url == old(self).url,
    {
        if let Some(status_code) = status_code {
            self.http_status_code = Some(status_code);
        }
        self.set_status(SubgraphResponseStatus::HttpError);
    }

    /// Records that the response was not a valid GraphQL response.
    pub fn set_as_invalid_response(&mut self)
        ensures
            final(self).status == Some(SubgraphResponseStatus::InvalidGraphqlResponseError),
            final(self).http_status_code == old(self).http_status_code,
            final(self).executions@ == old(self).executions@,
            final(self).cache_status == old(self).cache_status,
            final(self).send_count == old(self).send_count,
            final(self).graphql_response_status == old(self).graphql_response_status,
            final(self).retry_budget == old(self).retry_budget,
            final(self).subgraph_name == old(self).subgraph_name,
            final(self).url == old(self).url,
    {
        self.set_status(SubgraphResponseStatus::InvalidGraphqlResponseError);
    }

    /// Records the status of a well-formed GraphQL response.
    pub fn set_graphql_response_status(&mut self, status: GraphqlResponseStatus)
        ensures
            final(self).status == Some(SubgraphResponseStatus::WellFormedGraphqlResponse(status)),
            final(self).graphql_response_status == Some(status),
            final(self).http_status_code == old(self).http_status_code,
            final(self).executions@ == old(self).executions@,
            final(self).cache_status == old(self).cache_status,
            final(self).send_count == old(self).send_count,
            final(self).retry_budget == old(self).retry_budget,
            final(self).subgraph_name == old(self).subgraph_name,
            final(self).url == old(self).url,
    {
        self.set_status(SubgraphResponseStatus::WellFormedGraphqlResponse(status));
        self.graphql_response_status = Some(status);
    }

    /// The record of the executed request when it is finalized after `duration`: the
    /// subgraph's name, the method `POST`, the endpoint's URL, the cache status, the
    /// executions in the order they were pushed, and the GraphQL response status.
    pub fn into_executed_request(self, duration: core::time::Duration) -> (r: ExecutedSubgraphRequest<K>)
        ensures
            r.subgraph_name == self.subgraph_name,
            r.method@ == SUBGRAPH_REQUEST_METHOD@,
            r.url == self.url,
            r.cache_status == self.cache_status,
            r.graphql_response_status == self.graphql_response_status,
            r.executions@ == self.executions@,
            r.duration == duration,
    {
        ExecutedSubgraphRequest {
            subgraph_name: self.subgraph_name,
            method: SUBGRAPH_REQUEST_METHOD,
            url: self.url,
            cache_status: self.cache_status,
            graphql_response_status: self.graphql_response_status,
            executions: self.executions,
            duration,
        }
    }

    /// What the request-duration metric is recorded with when the request is finalized:
    /// nothing is recorded unless a response status was set.
    pub fn duration_attributes(&self) -> (r: Option<DurationAttributes>)
        ensures
            match self.status {
                Some(status) => r == Some(
                    DurationAttributes { status, http_status_code: self.http_status_code },
                ),
                None => r is None,
            },
    {
        match self.status {
            Some(status) => Some(DurationAttributes { status, http_status_code: self.http_status_code }),
            None => None,
        }
    }
}

} // verus!
