use splinter::config::{ConfigSource, EnvVarConfig};
use splinter::rest_api::{CircuitRouteError, ProposalRouteError};
use splinter::store::CircuitStoreError;

#[test]
fn environment_values_flow_into_the_partial_config() {
    // With neither directory set, the built block carries no value.
    let unset_config = EnvVarConfig::new(None, None).build();
    assert_eq!(unset_config.source(), ConfigSource::Environment);
    assert_eq!(unset_config.state_dir(), &None::<String>);
    assert_eq!(unset_config.cert_dir(), &None::<String>);

    // With both directories set, the built block carries both values.
    let set_config = EnvVarConfig::new(
        Some("state/test/config".to_string()),
        Some("cert/test/config".to_string()),
    )
    .build();
    assert_eq!(set_config.source(), ConfigSource::Environment);
    assert_eq!(set_config.state_dir(), &Some("state/test/config".to_string()));
    assert_eq!(set_config.cert_dir(), &Some("cert/test/config".to_string()));
}

#[test]
fn wrapping_a_store_error_preserves_the_cause() {
    let store_error = CircuitStoreError::new("circuit not found in store".to_string());
    let wrapped = CircuitRouteError::from(store_error.clone());
    assert_eq!(wrapped, CircuitRouteError::CircuitStoreError(store_error.clone()));
    assert_eq!(wrapped.cause(), Some(&store_error));
    assert_eq!(
        wrapped.display_message(),
        "circuit not found in store".to_string()
    );
}

#[test]
fn circuit_not_found_has_no_cause() {
    let err = CircuitRouteError::NotFound("circuit-9".to_string());
    assert_eq!(err.cause(), None);
    assert_eq!(err.display_message(), "Circuit not found: circuit-9".to_string());
}

#[test]
fn proposal_route_errors_render_and_carry_no_cause() {
    let not_found = ProposalRouteError::NotFound("proposal-3".to_string());
    assert_eq!(not_found.cause(), None);
    assert_eq!(
        not_found.display_message(),
        "Proposal not found: proposal-3".to_string()
    );

    let internal = ProposalRouteError::InternalError("store offline".to_string());
    assert_eq!(internal.cause(), None);
    assert_eq!(
        internal.display_message(),
        "Ran into internal error: store offline".to_string()
    );
}
