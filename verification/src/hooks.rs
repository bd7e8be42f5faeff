//! The hooks that a gateway hooks component may implement: their exported function
//! names, the set of hooks a component declares, and the decisions around calling them.

use vstd::prelude::*;
use crate::lexical::text_eq;

verus! {

pub const INIT_HOOKS_FUNCTION: &'static str = "init-hooks";
pub const GATEWAY_HOOK_FUNCTION: &'static str = "on-gateway-request";
pub const ON_SUBGRAGH_REQUEST_HOOK_FUNCTION: &'static str = "on-subgraph-request";
pub const AUTHORIZE_EDGE_PRE_EXECUTION_HOOK_FUNCTION: &'static str = "authorize-edge-pre-execution";
pub const AUTHORIZE_NODE_PRE_EXECUTION_HOOK_FUNCTION: &'static str = "authorize-node-pre-execution";
pub const AUTHORIZE_PARENT_EDGE_POST_EXECUTION_HOOK_FUNCTION: &'static str =
    "authorize-parent-edge-post-execution";
pub const AUTHORIZE_EDGE_NODE_POST_EXECUTION_HOOK_FUNCTION: &'static str =
    "authorize-edge-node-post-execution";
pub const AUTHORIZE_EDGE_POST_EXECUTION_HOOK_FUNCTION: &'static str = "authorize-edge-post-execution";
pub const ON_SUBGRAPH_RESPONSE_FUNCTION: &'static str = "on-subgraph-response";
pub const ON_OPERATION_RESPONSE_FUNCTION: &'static str = "on-operation-response";
pub const ON_HTTP_RESPONSE_FUNCTION: &'static str = "on-http-response";

/// An enum representing the different hook implementations that can be called by the guest.
#[derive(Debug, Copy, Clone, PartialEq, Eq, Structural)]
pub enum HookImplementation {
    /// The `authorize_edge_pre_execution` hook implementation.
    AuthorizeEdgePreExecution,
    /// The `authorize_node_pre_execution` hook implementation.
    AuthorizeNodePreExecution,
    /// The `authorize_parent_edge_post_execution` hook implementation.
    AuthorizeParentEdgePostExecution,
    /// The `authorize_edge_node_post_execution` hook implementation.
    AuthorizeEdgeNodePostExecution,
    /// The `authorize_edge_post_execution` hook implementation.
    AuthorizeEdgePostExecution,
    /// The `on_gateway_request` hook implementation.
    OnGatewayRequest,
    /// The `on_subgraph_response` hook implementation.
    OnSubgraphResponse,
    /// The `on_operation_response` hook implementation.
    OnOperationResponse,
    /// The `on_http_response` hook implementation.
    OnHttpResponse,
    /// The `on_subgraph_request` hook implementation.
    OnSubgraphRequest,
}

/// The exported function name of each hook.
pub open spec fn hook_name(h: HookImplementation) -> &'static str {
    match h {
        HookImplementation::AuthorizeEdgePreExecution => AUTHORIZE_EDGE_PRE_EXECUTION_HOOK_FUNCTION,
        HookImplementation::AuthorizeNodePreExecution => AUTHORIZE_NODE_PRE_EXECUTION_HOOK_FUNCTION,
        HookImplementation::AuthorizeParentEdgePostExecution =>
            AUTHORIZE_PARENT_EDGE_POST_EXECUTION_HOOK_FUNCTION,
        HookImplementation::AuthorizeEdgeNodePostExecution =>
            AUTHORIZE_EDGE_NODE_POST_EXECUTION_HOOK_FUNCTION,
        HookImplementation::AuthorizeEdgePostExecution => AUTHORIZE_EDGE_POST_EXECUTION_HOOK_FUNCTION,
        HookImplementation::OnGatewayRequest => GATEWAY_HOOK_FUNCTION,
        HookImplementation::OnSubgraphResponse => ON_SUBGRAPH_RESPONSE_FUNCTION,
        HookImplementation::OnOperationResponse => ON_OPERATION_RESPONSE_FUNCTION,
        HookImplementation::OnHttpResponse => ON_HTTP_RESPONSE_FUNCTION,
        HookImplementation::OnSubgraphRequest => ON_SUBGRAGH_REQUEST_HOOK_FUNCTION,
    }
}

/// The flag bit of each hook in the set a component declares.
pub open spec fn hook_bit(h: HookImplementation) -> u32 {
    match h {
        HookImplementation::AuthorizeEdgePreExecution => 1,
        HookImplementation::AuthorizeNodePreExecution => 2,
        HookImplementation::AuthorizeParentEdgePostExecution => 4,
        HookImplementation::AuthorizeEdgeNodePostExecution => 8,
        HookImplementation::AuthorizeEdgePostExecution => 16,
        HookImplementation::OnGatewayRequest => 32,
        HookImplementation::OnSubgraphResponse => 64,
        HookImplementation::OnOperationResponse => 128,
        HookImplementation::OnHttpResponse => 256,
        HookImplementation::OnSubgraphRequest => 512,
    }
}

/// The hook whose exported function is named `s`, if any.
pub open spec fn hook_named(s: Seq<char>) -> Option<HookImplementation> {
    if s == AUTHORIZE_EDGE_PRE_EXECUTION_HOOK_FUNCTION@ {
        Some(HookImplementation::AuthorizeEdgePreExecution)
    } else if s == AUTHORIZE_NODE_PRE_EXECUTION_HOOK_FUNCTION@ {
        Some(HookImplementation::AuthorizeNodePreExecution)
    } else if s == AUTHORIZE_PARENT_EDGE_POST_EXECUTION_HOOK_FUNCTION@ {
        Some(HookImplementation::AuthorizeParentEdgePostExecution)
    } else if s == AUTHORIZE_EDGE_NODE_POST_EXECUTION_HOOK_FUNCTION@ {
        Some(HookImplementation::AuthorizeEdgeNodePostExecution)
    } else if s == AUTHORIZE_EDGE_POST_EXECUTION_HOOK_FUNCTION@ {
        Some(HookImplementation::AuthorizeEdgePostExecution)
    } else if s == GATEWAY_HOOK_FUNCTION@ {
        Some(HookImplementation::OnGatewayRequest)
    } else if s == ON_SUBGRAPH_RESPONSE_FUNCTION@ {
        Some(HookImplementation::OnSubgraphResponse)
    } else if s == ON_OPERATION_RESPONSE_FUNCTION@ {
        Some(HookImplementation::OnOperationResponse)
    } else if s == ON_HTTP_RESPONSE_FUNCTION@ {
        Some(HookImplementation::OnHttpResponse)
    } else if s == ON_SUBGRAGH_REQUEST_HOOK_FUNCTION@ {
        Some(HookImplementation::OnSubgraphRequest)
    } else {
        None
    }
}

/// A name that no hook exports.
#[derive(Debug, Clone, PartialEq, Eq)]
pub struct UnknownHookFunction {
    pub name: String,
}

impl UnknownHookFunction {
    /// The error message.
    pub fn message(&self) -> (r: String)
        ensures
            r@ == "Unknown hook function: "@ + self.name@,
    {
        let mut out = String::from_str("Unknown hook function: ");
        out.append(self.name.as_str());
        out
    }
}

impl HookImplementation {
    /// The name of the hook function.
    pub fn name(&self) -> (r: &'static str)
        ensures
            r@ == hook_name(*self)@,
    {
        match self {
            HookImplementation::AuthorizeEdgePreExecution => AUTHORIZE_EDGE_PRE_EXECUTION_HOOK_FUNCTION,
            HookImplementation::AuthorizeNodePreExecution => AUTHORIZE_NODE_PRE_EXECUTION_HOOK_FUNCTION,
            HookImplementation::AuthorizeParentEdgePostExecution =>
                AUTHORIZE_PARENT_EDGE_POST_EXECUTION_HOOK_FUNCTION,
            HookImplementation::AuthorizeEdgeNodePostExecution =>
                AUTHORIZE_EDGE_NODE_POST_EXECUTION_HOOK_FUNCTION,
            HookImplementation::AuthorizeEdgePostExecution => AUTHORIZE_EDGE_POST_EXECUTION_HOOK_FUNCTION,
            HookImplementation::OnGatewayRequest => GATEWAY_HOOK_FUNCTION,
            HookImplementation::OnSubgraphResponse => ON_SUBGRAPH_RESPONSE_FUNCTION,
            HookImplementation::OnOperationResponse => ON_OPERATION_RESPONSE_FUNCTION,
            HookImplementation::OnHttpResponse => ON_HTTP_RESPONSE_FUNCTION,
            HookImplementation::OnSubgraphRequest => ON_SUBGRAGH_REQUEST_HOOK_FUNCTION,
        }
    }

    /// The flag bit of the hook.
    pub fn bit(&self) -> (r: u32)
        ensures
            r == hook_bit(*self),
    {
        match self {
            HookImplementation::AuthorizeEdgePreExecution => 1,
            HookImplementation::AuthorizeNodePreExecution => 2,
            HookImplementation::AuthorizeParentEdgePostExecution => 4,
            HookImplementation::AuthorizeEdgeNodePostExecution => 8,
            HookImplementation::AuthorizeEdgePostExecution => 16,
            HookImplementation::OnGatewayRequest => 32,
            HookImplementation::OnSubgraphResponse => 64,
            HookImplementation::OnOperationResponse => 128,
            HookImplementation::OnHttpResponse => 256,
            HookImplementation::OnSubgraphRequest => 512,
        }
    }

    /// The hook whose function is named `s`; an error for any other name.
    pub fn from_name(s: &str) -> (r: Result<HookImplementation, UnknownHookFunction>)
        ensures
            match hook_named(s@) {
                Some(h) => r == Ok::<HookImplementation, UnknownHookFunction>(h),
                None => r matches Err(e) && e.name@ == s@,
            },
    {
        if text_eq(s, AUTHORIZE_EDGE_PRE_EXECUTION_HOOK_FUNCTION) {
            Ok(HookImplementation::AuthorizeEdgePreExecution)
        } else if text_eq(s, AUTHORIZE_NODE_PRE_EXECUTION_HOOK_FUNCTION) {
            Ok(HookImplementation::AuthorizeNodePreExecution)
        } else if text_eq(s, AUTHORIZE_PARENT_EDGE_POST_EXECUTION_HOOK_FUNCTION) {
            Ok(HookImplementation::AuthorizeParentEdgePostExecution)
        } else if text_eq(s, AUTHORIZE_EDGE_NODE_POST_EXECUTION_HOOK_FUNCTION) {
            Ok(HookImplementation::AuthorizeEdgeNodePostExecution)
        } else if text_eq(s, AUTHORIZE_EDGE_POST_EXECUTION_HOOK_FUNCTION) {
            Ok(HookImplementation::AuthorizeEdgePostExecution)
        } else if text_eq(s, GATEWAY_HOOK_FUNCTION) {
            Ok(HookImplementation::OnGatewayRequest)
        } else if text_eq(s, ON_SUBGRAPH_RESPONSE_FUNCTION) {
            Ok(HookImplementation::OnSubgraphResponse)
        } else if text_eq(s, ON_OPERATION_RESPONSE_FUNCTION) {
            Ok(HookImplementation::OnOperationResponse)
        } else if text_eq(s, ON_HTTP_RESPONSE_FUNCTION) {
            Ok(HookImplementation::OnHttpResponse)
        } else if text_eq(s, ON_SUBGRAGH_REQUEST_HOOK_FUNCTION) {
            Ok(HookImplementation::OnSubgraphRequest)
        } else {
            Err(UnknownHookFunction { name: String::from_str(s) })
        }
    }
}

impl std::str::FromStr for HookImplementation {
    type Err = UnknownHookFunction;

    fn from_str(s: &str) -> (r: Result<HookImplementation, UnknownHookFunction>)
        ensures
            match hook_named(s@) {
                Some(h) => r == Ok::<HookImplementation, UnknownHookFunction>(h),
                None => r matches Err(e) && e.name@ == s@,
            },
    {
        HookImplementation::from_name(s)
    }
}

/// Each hook exports the function named for it, and that name is parsed back to the hook:
/// the authorization hooks are `authorize-…`, the others `on-…`, as listed.
pub proof fn lemma_hook_names()
    ensures
        hook_name(HookImplementation::AuthorizeEdgePreExecution)@ == "authorize-edge-pre-execution"@,
        hook_named("authorize-edge-pre-execution"@) == Some(HookImplementation::AuthorizeEdgePreExecution),
        hook_name(HookImplementation::AuthorizeNodePreExecution)@ == "authorize-node-pre-execution"@,
        hook_named("authorize-node-pre-execution"@) == Some(HookImplementation::AuthorizeNodePreExecution),
        hook_name(HookImplementation::AuthorizeParentEdgePostExecution)@ == "authorize-parent-edge-post-execution"@,
        hook_named("authorize-parent-edge-post-execution"@) == Some(HookImplementation::AuthorizeParentEdgePostExecution),
        hook_name(HookImplementation::AuthorizeEdgeNodePostExecution)@ == "authorize-edge-node-post-execution"@,
        hook_named("authorize-edge-node-post-execution"@) == Some(HookImplementation::AuthorizeEdgeNodePostExecution),
        hook_name(HookImplementation::AuthorizeEdgePostExecution)@ == "authorize-edge-post-execution"@,
        hook_named("authorize-edge-post-execution"@) == Some(HookImplementation::AuthorizeEdgePostExecution),
        hook_name(HookImplementation::OnGatewayRequest)@ == "on-gateway-request"@,
        hook_named("on-gateway-request"@) == Some(HookImplementation::OnGatewayRequest),
        hook_name(HookImplementation::OnSubgraphResponse)@ == "on-subgraph-response"@,
        hook_named("on-subgraph-response"@) == Some(HookImplementation::OnSubgraphResponse),
        hook_name(HookImplementation::OnOperationResponse)@ == "on-operation-response"@,
        hook_named("on-operation-response"@) == Some(HookImplementation::OnOperationResponse),
        hook_name(HookImplementation::OnHttpResponse)@ == "on-http-response"@,
        hook_named("on-http-response"@) == Some(HookImplementation::OnHttpResponse),
        hook_name(HookImplementation::OnSubgraphRequest)@ == "on-subgraph-request"@,
        hook_named("on-subgraph-request"@) == Some(HookImplementation::OnSubgraphRequest),
{
    reveal_strlit("authorize-edge-pre-execution");
    reveal_strlit("authorize-node-pre-execution");
    reveal_strlit("authorize-parent-edge-post-execution");
    reveal_strlit("authorize-edge-node-post-execution");
    reveal_strlit("authorize-edge-post-execution");
    reveal_strlit("on-gateway-request");
    reveal_strlit("on-subgraph-response");
    reveal_strlit("on-operation-response");
    reveal_strlit("on-http-response");
    reveal_strlit("on-subgraph-request");
    assert("authorize-edge-pre-execution"@.len() == 28);
    assert("authorize-node-pre-execution"@.len() == 28);
    assert("authorize-parent-edge-post-execution"@.len() == 36);
    assert("authorize-edge-node-post-execution"@.len() == 34);
    assert("authorize-edge-post-execution"@.len() == 29);
    assert("on-gateway-request"@.len() == 18);
    assert("on-subgraph-response"@.len() == 20);
    assert("on-operation-response"@.len() == 21);
    assert("on-http-response"@.len() == 16);
    assert("on-subgraph-request"@.len() == 19);
    assert("authorize-edge-pre-execution"@[10] != "authorize-node-pre-execution"@[10]);
}

/// Each hook's flag is the bit at its position in the declaration order: the first hook is
/// bit 0, the last bit 9.
pub proof fn lemma_hook_bits()
    ensures
        hook_bit(HookImplementation::AuthorizeEdgePreExecution) == 1u32 << 0u32,
        hook_bit(HookImplementation::AuthorizeNodePreExecution) == 1u32 << 1u32,
        hook_bit(HookImplementation::AuthorizeParentEdgePostExecution) == 1u32 << 2u32,
        hook_bit(HookImplementation::AuthorizeEdgeNodePostExecution) == 1u32 << 3u32,
        hook_bit(HookImplementation::AuthorizeEdgePostExecution) == 1u32 << 4u32,
        hook_bit(HookImplementation::OnGatewayRequest) == 1u32 << 5u32,
        hook_bit(HookImplementation::OnSubgraphResponse) == 1u32 << 6u32,
        hook_bit(HookImplementation::OnOperationResponse) == 1u32 << 7u32,
        hook_bit(HookImplementation::OnHttpResponse) == 1u32 << 8u32,
        hook_bit(HookImplementation::OnSubgraphRequest) == 1u32 << 9u32,
{
    assert(1u32 << 0u32 == 1u32) by (bit_vector);
    assert(1u32 << 1u32 == 2u32) by (bit_vector);
    assert(1u32 << 2u32 == 4u32) by (bit_vector);
    assert(1u32 << 3u32 == 8u32) by (bit_vector);
    assert(1u32 << 4u32 == 16u32) by (bit_vector);
    assert(1u32 << 5u32 == 32u32) by (bit_vector);
    assert(1u32 << 6u32 == 64u32) by (bit_vector);
    assert(1u32 << 7u32 == 128u32) by (bit_vector);
    assert(1u32 << 8u32 == 256u32) by (bit_vector);
    assert(1u32 << 9u32 == 512u32) by (bit_vector);
}

/// Every hook is found again by its own name, and a name finds only the hook that has it.
pub proof fn lemma_hook_names_round_trip(h: HookImplementation, s: Seq<char>)
    ensures
        hook_named(hook_name(h)@) == Some(h),
        hook_named(s) == Some(h) ==> s == hook_name(h)@,
{
    reveal_strlit("authorize-edge-pre-execution");
    reveal_strlit("authorize-node-pre-execution");
    reveal_strlit("authorize-parent-edge-post-execution");
    reveal_strlit("authorize-edge-node-post-execution");
    reveal_strlit("authorize-edge-post-execution");
    reveal_strlit("on-gateway-request");
    reveal_strlit("on-subgraph-response");
    reveal_strlit("on-operation-response");
    reveal_strlit("on-http-response");
    reveal_strlit("on-subgraph-request");
    assert(AUTHORIZE_EDGE_PRE_EXECUTION_HOOK_FUNCTION@.len() == 28);
    assert(AUTHORIZE_NODE_PRE_EXECUTION_HOOK_FUNCTION@.len() == 28);
    assert(AUTHORIZE_PARENT_EDGE_POST_EXECUTION_HOOK_FUNCTION@.len() == 36);
    assert(AUTHORIZE_EDGE_NODE_POST_EXECUTION_HOOK_FUNCTION@.len() == 34);
    assert(AUTHORIZE_EDGE_POST_EXECUTION_HOOK_FUNCTION@.len() == 29);
    assert(GATEWAY_HOOK_FUNCTION@.len() == 18);
    assert(ON_SUBGRAPH_RESPONSE_FUNCTION@.len() == 20);
    assert(ON_OPERATION_RESPONSE_FUNCTION@.len() == 21);
    assert(ON_HTTP_RESPONSE_FUNCTION@.len() == 16);
    assert(ON_SUBGRAGH_REQUEST_HOOK_FUNCTION@.len() == 19);
    assert(AUTHORIZE_EDGE_PRE_EXECUTION_HOOK_FUNCTION@[10] != AUTHORIZE_NODE_PRE_EXECUTION_HOOK_FUNCTION@[10]);
}

/// The bits of all hooks together.
pub const ALL_HOOK_BITS: u32 = 0x3ff;

/// The set of hooks a component implements, as the flag bits it reports.
#[derive(Debug, Copy, Clone, PartialEq, Eq, Structural)]
pub struct HookFlags {
    bits: u32,
}

impl HookFlags {
    /// Only bits of known hooks are set.
    #[verifier::type_invariant]
    spec fn known_bits(&self) -> bool {
        self.bits <= ALL_HOOK_BITS
    }

    pub closed spec fn spec_bits(&self) -> u32 {
        self.bits
    }

    /// Whether the set holds `h`.
    pub open spec fn has(&self, h: HookImplementation) -> bool {
        self.spec_bits() & hook_bit(h) == hook_bit(h)
    }

    /// The set of the given bits; `None` when a bit of no hook is set.
    pub fn from_bits(bits: u32) -> (r: Option<HookFlags>)
        ensures
            r is Some <==> bits <= ALL_HOOK_BITS,
            r matches Some(f) ==> f.spec_bits() == bits,
    {
        if bits <= ALL_HOOK_BITS {
            Some(HookFlags { bits })
        } else {
            None
        }
    }

    /// The set a component reports from its init function, as a signed integer whose
    /// low 32 bits are the flags; `None` when a bit of no hook is set there.
    pub fn from_init_result(bits: i64) -> (r: Option<HookFlags>)
        ensures
            r is Some <==> (bits as u32) <= ALL_HOOK_BITS,
            r matches Some(f) ==> f.spec_bits() == bits as u32,
    {
        HookFlags::from_bits(bits as u32)
    }

    /// The flag bits.
    pub fn bits(&self) -> (r: u32)
        ensures
            r == self.spec_bits(),
            r <= ALL_HOOK_BITS,
    {
        proof {
            use_type_invariant(self);
        }
        self.bits
    }

    /// Whether the set holds `hook`.
    pub fn contains(&self, hook: HookImplementation) -> (r: bool)
        ensures
            r == self.has(hook),
    {
        let b = hook.bit();
        self.bits & b == b
    }
}

/// The error that a recycled instance gives once a hook call trapped in it.
#[derive(Debug, Clone, Copy, PartialEq, Eq, Structural)]
pub struct InstancePoisoned;

impl InstancePoisoned {
    /// The error message.
    pub fn message(&self) -> (r: &'static str)
        ensures
            r@ == "this instance is poisoned"@,
    {
        "this instance is poisoned"
    }
}

/// The error given when an authorization hook that a directive needs is not implemented.
#[derive(Debug, Clone, PartialEq, Eq)]
pub struct MissingHookError {
    pub message: String,
}

/// The hook name that the missing-hook error names for each authorization hook: the
/// node pre-execution hook reports the edge pre-execution hook's name.
pub open spec fn reported_hook_name(hook: HookImplementation) -> &'static str {
    match hook {
        HookImplementation::AuthorizeNodePreExecution => AUTHORIZE_EDGE_PRE_EXECUTION_HOOK_FUNCTION,
        _ => hook_name(hook),
    }
}

/// The text of the missing-hook error for `hook`.
pub open spec fn missing_hook_text(hook: HookImplementation) -> Seq<char> {
    reported_hook_name(hook)@ + " hook must be defined if using the @authorized directive"@
}

/// The output of an authorization hook call: what the hook returned, or the missing-hook
/// error when the component does not implement it.
pub fn authorization_output<R>(hook: HookImplementation, output: Option<R>) -> (r: Result<
    R,
    MissingHookError,
>)
    ensures
        match output {
            Some(v) => r == Ok::<R, MissingHookError>(v),
            None => r matches Err(e) && e.message@ == missing_hook_text(hook),
        },
{
    match output {
        Some(v) => Ok(v),
        None => {
            let name = match hook {
                HookImplementation::AuthorizeNodePreExecution => AUTHORIZE_EDGE_PRE_EXECUTION_HOOK_FUNCTION,
                _ => hook.name(),
            };
            let mut message = String::from_str(name);
            message.append(" hook must be defined if using the @authorized directive");
            Err(MissingHookError { message })
        },
    }
}

/// The bytes a response hook hands back: its output, or nothing when the component does
/// not implement the hook.
pub fn response_hook_output(output: Option<Vec<u8>>) -> (r: Vec<u8>)
    ensures
        r@ == match output {
            Some(v) => v@,
            None => Seq::<u8>::empty(),
        },
{
    match output {
        Some(v) => v,
        None => Vec::new(),
    }
}

/// The bookkeeping of a hooks component instance: the hooks it implements, and whether a
/// hook call has trapped in it.
#[derive(Debug)]
pub struct HooksComponentInstance {
    hooks: HookFlags,
    poisoned: bool,
}

impl HooksComponentInstance {
    pub closed spec fn spec_hooks(&self) -> HookFlags {
        self.hooks
    }

    pub closed spec fn is_poisoned(&self) -> bool {
        self.poisoned
    }

    /// A fresh instance implementing `hooks`.
    pub fn new(hooks: HookFlags) -> (r: HooksComponentInstance)
        ensures
            r.spec_hooks() == hooks,
            !r.is_poisoned(),
    {
        HooksComponentInstance { hooks, poisoned: false }
    }

    /// Returns the info on implemented hooks.
    pub fn hooks_implemented(&self) -> (r: HookFlags)
        ensures
            r == self.spec_hooks(),
    {
        self.hooks
    }

    /// The function to look up for `hook`: its name when the instance implements it,
    /// `None` otherwise (the call is then skipped).
    pub fn get_hook(&self, hook: HookImplementation) -> (r: Option<&'static str>)
        ensures
            self.spec_hooks().has(hook) ==> (r matches Some(name) && name@ == hook_name(hook)@),
            !self.spec_hooks().has(hook) ==> r is None,
    {
        if !self.hooks.contains(hook) {
            return None;
        }
        Some(hook.name())
    }

    /// Records how a hook call ended. A trapped call poisons the instance; the result says
    /// whether the call must be followed by its post-return step (it must when it did not trap).
    pub fn record_call(&mut self, trapped: bool) -> (post_return: bool)
        ensures
            post_return == !trapped,
            final(self).is_poisoned() == (old(self).is_poisoned() || trapped),
            final(self).spec_hooks() == old(self).spec_hooks(),
    {
        if trapped {
            self.poisoned = true;
        }
        !trapped
    }

    /// Checks if the instance can be recycled: an error once it is poisoned.
    pub fn recycle(&self) -> (r: Result<(), InstancePoisoned>)
        ensures
            r is Err <==> self.is_poisoned(),
    {
        if self.poisoned {
            return Err(InstancePoisoned);
        }
        Ok(())
    }
}

} // verus!
