use near_primitives::version::{
    protocol_version, FeatureRegistry, ProtocolFeature, ProtocolVersionRange, Version,
    NIGHTLY_PROTOCOL_VERSION, STABLE_PROTOCOL_VERSION,
};

#[test]
fn test_version_range_bounded() {
    let range = ProtocolVersionRange::new(5, Some(10));
    assert!(!range.contains(0));
    assert!(!range.contains(4));
    assert!(range.contains(5));
    assert!(range.contains(7));
    assert!(range.contains(9));
    assert!(!range.contains(10));
    assert!(!range.contains(11));
    assert!(!range.contains(u32::MAX));
}

#[test]
fn test_version_range_unbounded() {
    let range = ProtocolVersionRange::new(5, None);
    assert!(!range.contains(0));
    assert!(!range.contains(4));
    assert!(range.contains(5));
    assert!(range.contains(1_000_000));
    assert!(range.contains(u32::MAX));
}

#[test]
fn test_protocol_version_constants() {
    assert_eq!(protocol_version(false), STABLE_PROTOCOL_VERSION);
    assert_eq!(protocol_version(true), NIGHTLY_PROTOCOL_VERSION);
    assert_eq!(STABLE_PROTOCOL_VERSION, 41);
    assert_eq!(NIGHTLY_PROTOCOL_VERSION, 42);
}

#[test]
fn test_stable_registry_has_no_gated_features() {
    let registry = FeatureRegistry::new(false);
    assert_eq!(registry.activation_version(ProtocolFeature::ForwardChunkParts), None);
    // A feature outside the build's registry is inactive at every version.
    assert!(!registry.feature_active(ProtocolFeature::ForwardChunkParts, 0));
    assert!(!registry.feature_active(ProtocolFeature::ForwardChunkParts, STABLE_PROTOCOL_VERSION));
    assert!(!registry.feature_active(ProtocolFeature::ForwardChunkParts, u32::MAX));
}

#[test]
fn test_nightly_registry_gates_by_version() {
    let registry = FeatureRegistry::new(true);
    assert_eq!(
        registry.activation_version(ProtocolFeature::ForwardChunkParts),
        Some(NIGHTLY_PROTOCOL_VERSION)
    );
    assert!(!registry.feature_active(
        ProtocolFeature::ForwardChunkParts,
        NIGHTLY_PROTOCOL_VERSION - 1
    ));
    assert!(registry.feature_active(ProtocolFeature::ForwardChunkParts, NIGHTLY_PROTOCOL_VERSION));
    assert!(registry.feature_active(ProtocolFeature::ForwardChunkParts, u32::MAX));
}

#[test]
fn test_feature_gate_is_deterministic() {
    let registry = FeatureRegistry::new(true);
    let first = registry.feature_active(ProtocolFeature::ForwardChunkParts, 42);
    let second = registry.feature_active(ProtocolFeature::ForwardChunkParts, 42);
    assert_eq!(first, second);
}

#[test]
fn test_version_default_is_empty() {
    let version = Version::default();
    assert_eq!(version.version, "");
    assert_eq!(version.build, "");
}
