use osrm::algorithm::Algorithm;
use osrm::config::EngineConfig;
use osrm::errors::OsrmError;
use osrm::scalar::Scalar;

#[test]
fn default_configuration() {
    let c = EngineConfig::default();
    assert_eq!(c.algorithm, Some("CH".to_string()));
    assert!(c.shared_memory);
    assert!(!c.mmap_memory);
    assert!(c.path.is_none() && c.dataset_name.is_none());
    assert_eq!(c.max_radius_map_matching, Some(Scalar::from_bits(5.0f64.to_bits())));
    assert_eq!(c.max_alternatives, Some(3));
    assert!(c.default_radius.is_none());
}

#[test]
fn feature_mask_of_disabled_datasets() {
    let mut c = EngineConfig::default();
    assert_eq!(c.disable_feature_flags(), 0);
    c.disable_feature_dataset = vec!["ROUTE_STEPS".to_string()];
    assert_eq!(c.disable_feature_flags(), 1);
    c.disable_feature_dataset = vec!["ROUTE_GEOMETRY".to_string()];
    assert_eq!(c.disable_feature_flags(), 2);
    c.disable_feature_dataset = vec![
        "ROUTE_GEOMETRY".to_string(),
        "OTHER".to_string(),
        "ROUTE_STEPS".to_string(),
        "ROUTE_STEPS".to_string(),
    ];
    assert_eq!(c.disable_feature_flags(), 3);
    c.disable_feature_dataset = vec!["route_steps".to_string()];
    assert_eq!(c.disable_feature_flags(), 0);
}

#[test]
fn flat_configuration_fills_absent_caps_with_zero() {
    let mut c = EngineConfig::default();
    c.path = Some("/data/luxembourg.osrm".to_string());
    c.max_locations_trip = Some(100);
    c.disable_feature_dataset = vec!["ROUTE_STEPS".to_string()];
    let o = c.to_osrm_config().unwrap();
    assert_eq!(o.algorithm, Some("CH".to_string()));
    assert_eq!(o.path, Some("/data/luxembourg.osrm".to_string()));
    assert_eq!(o.disable_feature_dataset_flags, 1);
    assert_eq!(o.max_locations_trip, 100);
    assert_eq!(o.max_locations_viaroute, 0);
    assert_eq!(o.max_results_nearest, 0);
    assert_eq!(o.max_alternatives, 3);
    assert_eq!(o.max_radius_map_matching.to_bits(), 5.0f64.to_bits());
    assert_eq!(o.default_radius.to_bits(), 0.0f64.to_bits());
    assert!(o.shared_memory && !o.mmap_memory);
}

#[test]
fn text_with_nul_fails_creation() {
    let mut c = EngineConfig::default();
    c.path = Some("/data/\0".to_string());
    assert_eq!(c.to_osrm_config().unwrap_err(), OsrmError::Initialization);
    let mut c = EngineConfig::default();
    c.dataset_name = Some("a\0b".to_string());
    assert_eq!(c.to_osrm_config().unwrap_err(), OsrmError::Initialization);
}

#[test]
fn algorithm_names() {
    assert_eq!(Algorithm::CH.as_str(), "CH");
    assert_eq!(Algorithm::MLD.as_str(), "MLD");
}
