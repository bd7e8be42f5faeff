use grafbase_core::subgraph_context::{
    retry_budget_for, CacheStatus, SUBGRAPH_REQUEST_METHOD, DurationAttributes, GraphqlResponseStatus, RetryBudgetKind, SubgraphContext,
    SubgraphResponseStatus,
};
use http::StatusCode;
use std::time::Duration;

#[test]
fn mutations_have_their_own_budget() {
    assert_eq!(retry_budget_for("mutation"), RetryBudgetKind::Mutation);
    assert_eq!(retry_budget_for("query"), RetryBudgetKind::NonMutation);
    assert_eq!(retry_budget_for("subscription"), RetryBudgetKind::NonMutation);
    assert_eq!(retry_budget_for("Mutation"), RetryBudgetKind::NonMutation);
}

#[test]
fn fresh_context() {
    let ctx: SubgraphContext<u8> = SubgraphContext::new("accounts".to_string(), "http://accounts:4000/graphql".to_string(), "mutation");
    assert_eq!(ctx.subgraph_name, "accounts");
    assert_eq!(ctx.url, "http://accounts:4000/graphql");
    assert_eq!(ctx.retry_budget, RetryBudgetKind::Mutation);
    assert_eq!(ctx.send_count, 0);
    assert_eq!(ctx.status, None);
    assert_eq!(ctx.duration_attributes(), None);
}

#[test]
fn bookkeeping() {
    let mut ctx: SubgraphContext<&str> = SubgraphContext::new("accounts".to_string(), "http://accounts:4000/graphql".to_string(), "query");
    ctx.increment_inflight_requests();
    ctx.increment_inflight_requests();
    assert_eq!(ctx.send_count, 2);
    ctx.record_cache_partial_hit();
    assert_eq!(ctx.cache_status, Some(CacheStatus::PartialHit));
    ctx.record_cache_miss();
    assert_eq!(ctx.cache_status, Some(CacheStatus::Miss));
    ctx.record_cache_hit();
    assert_eq!(ctx.cache_status, Some(CacheStatus::Hit));
    ctx.push_request_execution("first");
    ctx.push_request_execution("second");
    assert_eq!(ctx.executions, vec!["first", "second"]);
}

#[test]
fn http_errors_keep_the_last_known_status_code() {
    let mut ctx: SubgraphContext<u8> = SubgraphContext::new("a".to_string(), "http://a/graphql".to_string(), "query");
    ctx.record_http_response(StatusCode::BAD_GATEWAY);
    ctx.set_as_http_error(None);
    assert_eq!(ctx.status, Some(SubgraphResponseStatus::HttpError));
    assert_eq!(ctx.http_status_code, Some(StatusCode::BAD_GATEWAY));
    ctx.set_as_http_error(Some(StatusCode::SERVICE_UNAVAILABLE));
    assert_eq!(ctx.http_status_code, Some(StatusCode::SERVICE_UNAVAILABLE));
    assert_eq!(
        ctx.duration_attributes(),
        Some(DurationAttributes {
            status: SubgraphResponseStatus::HttpError,
            http_status_code: Some(StatusCode::SERVICE_UNAVAILABLE)
        })
    );
}

#[test]
fn response_statuses() {
    let mut ctx: SubgraphContext<u8> = SubgraphContext::new("a".to_string(), "http://a/graphql".to_string(), "query");
    ctx.set_as_hook_error();
    assert_eq!(ctx.status, Some(SubgraphResponseStatus::HookError));
    ctx.set_as_invalid_response();
    assert_eq!(ctx.status, Some(SubgraphResponseStatus::InvalidGraphqlResponseError));
    let st = GraphqlResponseStatus::FieldError { count: 2, data_is_null: false };
    ctx.set_graphql_response_status(st);
    assert_eq!(ctx.status, Some(SubgraphResponseStatus::WellFormedGraphqlResponse(st)));
    assert_eq!(ctx.graphql_response_status, Some(st));
    assert_eq!(
        ctx.duration_attributes(),
        Some(DurationAttributes { status: SubgraphResponseStatus::WellFormedGraphqlResponse(st), http_status_code: None })
    );
}

#[test]
fn executed_request_record() {
    let mut ctx: SubgraphContext<&str> =
        SubgraphContext::new("products".to_string(), "http://products/graphql".to_string(), "query");
    ctx.record_cache_miss();
    ctx.push_request_execution("sent");
    ctx.push_request_execution("retried");
    ctx.set_graphql_response_status(GraphqlResponseStatus::Success);
    let record = ctx.into_executed_request(Duration::from_millis(42));
    assert_eq!(record.subgraph_name, "products");
    assert_eq!(record.method, "POST");
    assert_eq!(SUBGRAPH_REQUEST_METHOD, "POST");
    assert_eq!(record.url, "http://products/graphql");
    assert_eq!(record.cache_status, Some(CacheStatus::Miss));
    assert_eq!(record.graphql_response_status, Some(GraphqlResponseStatus::Success));
    assert_eq!(record.executions, vec!["sent", "retried"]);
    assert_eq!(record.duration, Duration::from_millis(42));
}
