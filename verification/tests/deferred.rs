use rig_tasks::deferred::{
    DeferredExecutionPolicy, DeferredResolverError, DeferredToolDescriptor, DeferredToolDriver,
    DeferredToolHandle, DeferredToolResolver, DeferredToolResolverRegistry, DeferredToolState,
    ToolExecution,
};
use rig_tasks::duration::Duration;
use rig_tasks::error::ToolErrorKind;
use rig_tasks::json::Json;
use rig_tasks::output::ToolOutput;
use rig_tasks::result::{ToolContext, ToolResult};

struct FixtureResolver;

impl DeferredToolResolver for FixtureResolver {
    fn backend_type(&self) -> &str {
        "fixture"
    }
}

#[test]
fn duplicate_backend_registration_is_rejected() {
    let mut registry = DeferredToolResolverRegistry::new();
    registry.register(FixtureResolver).expect("first resolver");
    assert!(matches!(
        registry.register(FixtureResolver),
        Err(DeferredResolverError::AlreadyRegistered(backend)) if backend == "fixture"
    ));
}

struct CompletedDriver;

impl DeferredToolDriver for CompletedDriver {
    fn publish_result_context(&self, _context: &mut ToolContext) {}
}

#[test]
fn registered_resolvers_are_found() {
    let descriptor = DeferredToolDescriptor::new(
        "fixture".to_owned(),
        "opaque-123".to_owned(),
        Json::parse("{\"region\": \"test\"}").expect("payload"),
    );
    let mut registry = DeferredToolResolverRegistry::new();
    registry
        .register(FixtureResolver)
        .expect("register resolver");
    let resolver = registry.resolve(&descriptor).expect("resolve descriptor");
    assert_eq!(resolver.backend_type(), "fixture");
    let handle = DeferredToolHandle::new(descriptor.clone(), CompletedDriver);
    assert_eq!(handle.descriptor().execution_id(), "opaque-123");
    assert_eq!(handle.descriptor().payload().text, "{\"region\":\"test\"}");
    let mut context = ToolContext::new();
    handle.publish_result_context(&mut context);
    assert!(context.meta.is_none());
}

#[test]
fn unusable_descriptors_are_refused() {
    let mut registry = DeferredToolResolverRegistry::new();
    registry
        .register_arc(std::sync::Arc::new(FixtureResolver))
        .expect("register resolver");
    let refuse = |version: u16, backend: &str, id: &str| {
        let descriptor = DeferredToolDescriptor::from_parts(
            version,
            backend.to_owned(),
            id.to_owned(),
            Json::empty_object(),
        );
        registry.resolve(&descriptor).err().expect("refused")
    };
    let version = refuse(2, "fixture", "x");
    assert_eq!(version.kind(), ToolErrorKind::InvalidArgs);
    assert_eq!(
        version.message(),
        "unsupported deferred tool descriptor version 2"
    );
    assert_eq!(
        refuse(1, " \t", "x").message(),
        "deferred tool descriptor has an empty backend type"
    );
    assert_eq!(
        refuse(1, "fixture", "\u{a0}").message(),
        "deferred tool descriptor has an empty execution ID"
    );
    let missing = refuse(1, "other", "x");
    assert_eq!(missing.kind(), ToolErrorKind::NotFound);
    assert_eq!(
        missing.message(),
        "no deferred tool resolver is registered for `other`"
    );
    assert_eq!(
        DeferredResolverError::AlreadyRegistered("a".to_owned()).to_string(),
        "a deferred tool resolver is already registered for `a`"
    );
    assert_eq!(
        DeferredResolverError::RegistryPoisoned.to_string(),
        "deferred tool resolver registry lock is poisoned"
    );
}

#[test]
fn execution_policies_have_defaults() {
    let policy = DeferredExecutionPolicy::default();
    assert_eq!(policy.timeout, Duration::from_secs(24 * 60 * 60));
    assert_eq!(policy.working_poll_interval, Duration::from_millis(100));
    assert_eq!(policy.max_state_reads, 10_000);
    let done = ToolExecution::complete(ToolResult::success(ToolOutput::text("done".to_owned())));
    assert!(matches!(done, ToolExecution::Complete(_)));
    assert!(DeferredToolState::Cancelled.is_terminal());
    assert!(!DeferredToolState::Working.is_terminal());
}
