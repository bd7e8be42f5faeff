use grafbase_core::hooks::{
    authorization_output, response_hook_output, HookFlags, HookImplementation, HooksComponentInstance, ALL_HOOK_BITS,
    INIT_HOOKS_FUNCTION,
};

const ALL: [HookImplementation; 10] = [
    HookImplementation::AuthorizeEdgePreExecution,
    HookImplementation::AuthorizeNodePreExecution,
    HookImplementation::AuthorizeParentEdgePostExecution,
    HookImplementation::AuthorizeEdgeNodePostExecution,
    HookImplementation::AuthorizeEdgePostExecution,
    HookImplementation::OnGatewayRequest,
    HookImplementation::OnSubgraphResponse,
    HookImplementation::OnOperationResponse,
    HookImplementation::OnHttpResponse,
    HookImplementation::OnSubgraphRequest,
];

#[test]
fn names_of_hooks() {
    assert_eq!(HookImplementation::AuthorizeEdgePreExecution.name(), "authorize-edge-pre-execution");
    assert_eq!(HookImplementation::OnGatewayRequest.name(), "on-gateway-request");
    assert_eq!(HookImplementation::OnSubgraphRequest.name(), "on-subgraph-request");
    assert_eq!(HookImplementation::OnHttpResponse.name(), "on-http-response");
    assert_eq!(INIT_HOOKS_FUNCTION, "init-hooks");
}

#[test]
fn every_hook_round_trips_through_its_name() {
    for h in ALL {
        assert_eq!(HookImplementation::from_name(h.name()), Ok(h));
        assert_eq!(h.name().parse::<HookImplementation>(), Ok(h));
    }
    for (i, a) in ALL.iter().enumerate() {
        for b in &ALL[i + 1..] {
            assert_ne!(a.name(), b.name());
            assert_ne!(a.bit(), b.bit());
        }
    }
}

#[test]
fn unknown_hook_name_is_an_error() {
    let err = HookImplementation::from_name("on-gateway").unwrap_err();
    assert_eq!(err.name, "on-gateway");
    assert_eq!(err.message(), "Unknown hook function: on-gateway");
    assert!("init-hooks".parse::<HookImplementation>().is_err());
    assert!("".parse::<HookImplementation>().is_err());
}

#[test]
fn hook_bits() {
    assert_eq!(HookImplementation::AuthorizeEdgePreExecution.bit(), 1);
    assert_eq!(HookImplementation::OnGatewayRequest.bit(), 1 << 5);
    assert_eq!(HookImplementation::OnSubgraphRequest.bit(), 1 << 9);
    let total: u32 = ALL.iter().map(|h| h.bit()).sum();
    assert_eq!(total, ALL_HOOK_BITS);
}

#[test]
fn flags_from_bits() {
    let flags = HookFlags::from_bits(0b10_0010_0001).unwrap();
    assert!(flags.contains(HookImplementation::AuthorizeEdgePreExecution));
    assert!(flags.contains(HookImplementation::OnGatewayRequest));
    assert!(flags.contains(HookImplementation::OnSubgraphRequest));
    assert!(!flags.contains(HookImplementation::OnHttpResponse));
    assert_eq!(flags.bits(), 0b10_0010_0001);
    assert!(HookFlags::from_bits(1 << 10).is_none());
    assert!(HookFlags::from_bits(ALL_HOOK_BITS).is_some());
    assert!(HookFlags::from_init_result(-1).is_none());
    assert_eq!(HookFlags::from_init_result((1i64 << 32) | 3).unwrap().bits(), 3);
}

#[test]
fn instance_calls_only_implemented_hooks() {
    let flags = HookFlags::from_bits(HookImplementation::OnHttpResponse.bit()).unwrap();
    let instance = HooksComponentInstance::new(flags);
    assert_eq!(instance.hooks_implemented(), flags);
    assert_eq!(instance.get_hook(HookImplementation::OnHttpResponse), Some("on-http-response"));
    assert_eq!(instance.get_hook(HookImplementation::OnGatewayRequest), None);
}

#[test]
fn trapped_call_poisons_instance() {
    let mut instance = HooksComponentInstance::new(HookFlags::from_bits(0).unwrap());
    assert!(instance.recycle().is_ok());
    assert!(instance.record_call(false));
    assert!(instance.recycle().is_ok());
    assert!(!instance.record_call(true));
    let err = instance.recycle().unwrap_err();
    assert_eq!(err.message(), "this instance is poisoned");
    assert!(instance.record_call(false));
    assert!(instance.recycle().is_err());
}

#[test]
fn missing_authorization_hook_errors() {
    assert_eq!(authorization_output(HookImplementation::AuthorizeEdgePostExecution, Some(7)), Ok(7));
    let err = authorization_output::<()>(HookImplementation::AuthorizeEdgePostExecution, None).unwrap_err();
    assert_eq!(
        err.message,
        "authorize-edge-post-execution hook must be defined if using the @authorized directive"
    );
    let err = authorization_output::<()>(HookImplementation::AuthorizeNodePreExecution, None).unwrap_err();
    assert_eq!(
        err.message,
        "authorize-edge-pre-execution hook must be defined if using the @authorized directive"
    );
    let err = authorization_output::<()>(HookImplementation::AuthorizeParentEdgePostExecution, None).unwrap_err();
    assert_eq!(
        err.message,
        "authorize-parent-edge-post-execution hook must be defined if using the @authorized directive"
    );
}

#[test]
fn response_hooks_default_to_no_bytes() {
    assert_eq!(response_hook_output(Some(vec![1, 2, 3])), vec![1, 2, 3]);
    assert_eq!(response_hook_output(None), Vec::<u8>::new());
}
