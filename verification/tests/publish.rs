use grafbase_core::publish::{
    publish_report, schema_source, MissingArgument, PublishOutcome, PublishReport, SchemaSource,
    FAILED_PUBLISH_STATUS,
};

#[test]
fn schema_comes_from_path_or_piped_stdin() {
    assert_eq!(schema_source(Some("schema.graphql".to_string()), true), Ok(SchemaSource::File("schema.graphql".to_string())));
    assert_eq!(schema_source(Some("s.graphql".to_string()), false), Ok(SchemaSource::File("s.graphql".to_string())));
    assert_eq!(schema_source(None, false), Ok(SchemaSource::Stdin));
    assert_eq!(
        schema_source(None, true),
        Err(MissingArgument("--schema or a schema piped through stdin"))
    );
}

#[test]
fn reports_for_outcomes() {
    let ok: PublishOutcome<String> = PublishOutcome::Success { composition_errors: Vec::new() };
    assert_eq!(publish_report(&ok), PublishReport::Published);
    let failed: PublishOutcome<String> = PublishOutcome::Success { composition_errors: vec!["conflict".to_string()] };
    assert_eq!(publish_report(&failed), PublishReport::CompositionFailure);
    let same: PublishOutcome<String> = PublishOutcome::NoChange;
    assert_eq!(publish_report(&same), PublishReport::NoChange);
    let missing: PublishOutcome<String> =
        PublishOutcome::GraphDoesNotExist { account_slug: "acme".to_string(), graph_slug: "shop".to_string() };
    assert_eq!(publish_report(&missing), PublishReport::GraphDoesNotExist);
}

#[test]
fn only_a_missing_graph_exits() {
    assert_eq!(PublishReport::GraphDoesNotExist.exit_status(), Some(FAILED_PUBLISH_STATUS));
    assert_eq!(FAILED_PUBLISH_STATUS, 1);
    assert_eq!(PublishReport::Published.exit_status(), None);
    assert_eq!(PublishReport::CompositionFailure.exit_status(), None);
    assert_eq!(PublishReport::NoChange.exit_status(), None);
}
