//! Engine configuration and its flat form at the native boundary.
use crate::codec::{boundary_safe, is_boundary_safe, or_sentinel};
use crate::errors::OsrmError;
use crate::scalar::{Scalar, FIVE_BITS, ZERO_BITS};
use vstd::prelude::*;

verus! {

/// Bit of the feature mask that leaves out route steps.
pub const ROUTE_STEPS_FLAG: i32 = 1;

/// Bit of the feature mask that leaves out route geometry.
pub const ROUTE_GEOMETRY_FLAG: i32 = 2;

/// Options for creating an engine.
#[derive(Clone, Debug)]
pub struct EngineConfig {
    /// `"CH"` or `"MLD"`.
    pub algorithm: Option<String>,
    /// Connect to the persistent shared-memory datastore.
    pub shared_memory: bool,
    /// Dataset name in the shared-memory datastore.
    pub dataset_name: Option<String>,
    /// Map the on-disk files into memory.
    pub mmap_memory: bool,
    /// Path of the dataset files.
    pub path: Option<String>,
    /// Feature datasets to leave out: `"ROUTE_STEPS"`, `"ROUTE_GEOMETRY"`.
    pub disable_feature_dataset: Vec<String>,
    pub max_locations_trip: Option<i32>,
    pub max_locations_viaroute: Option<i32>,
    pub max_locations_distance_table: Option<i32>,
    pub max_locations_map_matching: Option<i32>,
    pub max_radius_map_matching: Option<Scalar>,
    pub max_results_nearest: Option<i32>,
    pub max_alternatives: Option<i32>,
    pub default_radius: Option<Scalar>,
}

/// The configuration as the native constructor takes it: absent caps are
/// `0`, and the disabled features are a bit mask.
#[derive(Clone, Debug)]
pub struct OsrmConfig {
    pub algorithm: Option<String>,
    pub shared_memory: bool,
    pub dataset_name: Option<String>,
    pub mmap_memory: bool,
    pub path: Option<String>,
    pub disable_feature_dataset_flags: i32,
    pub max_locations_trip: i32,
    pub max_locations_viaroute: i32,
    pub max_locations_distance_table: i32,
    pub max_locations_map_matching: i32,
    pub max_radius_map_matching: Scalar,
    pub max_results_nearest: i32,
    pub max_alternatives: i32,
    pub default_radius: Scalar,
}

/// The list names the feature.
pub open spec fn names_feature(features: Seq<String>, name: Seq<char>) -> bool {
    exists|i: int| 0 <= i < features.len() && (#[trigger] features[i])@ == name
}

/// The feature mask of a list of feature names; names other than
/// `ROUTE_STEPS` and `ROUTE_GEOMETRY` are ignored.
pub open spec fn feature_mask(features: Seq<String>) -> i32 {
    ((if names_feature(features, "ROUTE_STEPS"@) { ROUTE_STEPS_FLAG as int } else { 0int }) + (
    if names_feature(features, "ROUTE_GEOMETRY"@) {
        ROUTE_GEOMETRY_FLAG as int
    } else {
        0int
    })) as i32
}

/// The text is absent, or can be handed over as a NUL-terminated buffer.
pub open spec fn safe_or_absent(s: Option<String>) -> bool {
    match s {
        Some(s) => boundary_safe(s@),
        None => true,
    }
}

/// The texts of the configuration can all cross the boundary.
pub open spec fn config_texts_ok(c: EngineConfig) -> bool {
    safe_or_absent(c.algorithm) && safe_or_absent(c.dataset_name) && safe_or_absent(c.path)
}

/// The two optional texts hold the same text.
pub open spec fn same_text(a: Option<String>, b: Option<String>) -> bool {
    match (a, b) {
        (Some(x), Some(y)) => x@ == y@,
        (None, None) => true,
        _ => false,
    }
}

/// `o` is the flat form of `c`.
pub open spec fn flat_config_of(c: EngineConfig, o: OsrmConfig) -> bool {
    let zero = Scalar { bits: ZERO_BITS };
    &&& same_text(o.algorithm, c.algorithm)
    &&& o.shared_memory == c.shared_memory
    &&& same_text(o.dataset_name, c.dataset_name)
    &&& o.mmap_memory == c.mmap_memory
    &&& same_text(o.path, c.path)
    &&& o.disable_feature_dataset_flags == feature_mask(c.disable_feature_dataset@)
    &&& o.max_locations_trip == or_sentinel(c.max_locations_trip, 0i32)
    &&& o.max_locations_viaroute == or_sentinel(c.max_locations_viaroute, 0i32)
    &&& o.max_locations_distance_table == or_sentinel(c.max_locations_distance_table, 0i32)
    &&& o.max_locations_map_matching == or_sentinel(c.max_locations_map_matching, 0i32)
    &&& o.max_radius_map_matching == or_sentinel(c.max_radius_map_matching, zero)
    &&& o.max_results_nearest == or_sentinel(c.max_results_nearest, 0i32)
    &&& o.max_alternatives == or_sentinel(c.max_alternatives, 0i32)
    &&& o.default_radius == or_sentinel(c.default_radius, zero)
}

/// The configuration that `EngineConfig::default` returns.
pub open spec fn is_default_config(c: EngineConfig) -> bool {
    &&& c.algorithm is Some && c.algorithm->0@ == "CH"@
    &&& c.shared_memory
    &&& c.dataset_name is None
    &&& !c.mmap_memory
    &&& c.path is None
    &&& c.disable_feature_dataset@.len() == 0
    &&& c.max_locations_trip is None && c.max_locations_viaroute is None
    &&& c.max_locations_distance_table is None && c.max_locations_map_matching is None
    &&& c.max_radius_map_matching == Some(Scalar { bits: FIVE_BITS })
    &&& c.max_results_nearest is None
    &&& c.max_alternatives == Some(3i32)
    &&& c.default_radius is None
}

impl Default for EngineConfig {
    fn default() -> (r: Self)
        ensures
            is_default_config(r),
    {
        Self {
            algorithm: Some("CH".to_owned()),
            shared_memory: true,
            dataset_name: None,
            mmap_memory: false,
            path: None,
            disable_feature_dataset: Vec::new(),
            max_locations_trip: None,
            max_locations_viaroute: None,
            max_locations_distance_table: None,
            max_locations_map_matching: None,
            max_radius_map_matching: Some(Scalar::from_bits(FIVE_BITS)),
            max_results_nearest: None,
            max_alternatives: Some(3),
            default_radius: None,
        }
    }
}

fn copy_text(s: &Option<String>) -> (r: Option<String>)
    ensures
        same_text(r, *s),
{
    match s {
        Some(s) => Some(s.clone()),
        None => None,
    }
}

fn safe_text(s: &Option<String>) -> (r: bool)
    ensures
        r == safe_or_absent(*s),
{
    match s {
        Some(s) => is_boundary_safe(s),
        None => true,
    }
}

fn cap_or_zero(v: Option<i32>) -> (r: i32)
    ensures
        r == or_sentinel(v, 0i32),
{
    match v {
        Some(n) => n,
        None => 0,
    }
}

fn scalar_or_zero(v: Option<Scalar>) -> (r: Scalar)
    ensures
        r == or_sentinel(v, Scalar { bits: ZERO_BITS }),
{
    match v {
        Some(s) => s,
        None => Scalar::zero(),
    }
}

impl EngineConfig {
    /// The bit mask of the feature datasets to leave out.
    pub fn disable_feature_flags(&self) -> (r: i32)
        ensures
            r == feature_mask(self.disable_feature_dataset@),
    {
        let steps = "ROUTE_STEPS".to_owned();
        let geometry = "ROUTE_GEOMETRY".to_owned();
        let features = &self.disable_feature_dataset;
        let mut has_steps = false;
        let mut has_geometry = false;
        let mut i: usize = 0;
        while i < features.len()
            invariant
                i <= features@.len(),
                steps@ == "ROUTE_STEPS"@,
                geometry@ == "ROUTE_GEOMETRY"@,
                has_steps == names_feature(features@.subrange(0, i as int), "ROUTE_STEPS"@),
                has_geometry == names_feature(features@.subrange(0, i as int), "ROUTE_GEOMETRY"@),
            decreases features@.len() - i,
        {
            let ghost before = features@.subrange(0, i as int);
            let ghost after = features@.subrange(0, i + 1);
            if features[i] == steps {
                has_steps = true;
            }
            if features[i] == geometry {
                has_geometry = true;
            }
            proof {
                assert forall|name: Seq<char>| names_feature(after, name) == (names_feature(before, name)
                    || features@[i as int]@ == name) by {
                    if names_feature(after, name) {
                        let k = choose|k: int| 0 <= k < after.len() && (#[trigger] after[k])@ == name;
                        if k < i {
                            assert(before[k] == after[k]);
                        }
                    }
                    if names_feature(before, name) {
                        let k = choose|k: int| 0 <= k < before.len() && (#[trigger] before[k])@ == name;
                        assert(before[k] == after[k]);
                    }
                    if features@[i as int]@ == name {
                        assert(after[i as int] == features@[i as int]);
                    }
                }
            }
            i = i + 1;
        }
        assert(features@.subrange(0, features@.len() as int) =~= features@);
        let mut flags: i32 = 0;
        if has_steps {
            flags = flags + ROUTE_STEPS_FLAG;
        }
        if has_geometry {
            flags = flags + ROUTE_GEOMETRY_FLAG;
        }
        flags
    }

    /// The flat form of the configuration that the native constructor takes.
    /// A text that cannot be NUL-terminated makes creation fail.
    pub fn to_osrm_config(&self) -> (r: Result<OsrmConfig, OsrmError>)
        ensures
            match r {
                Ok(o) => config_texts_ok(*self) && flat_config_of(*self, o),
                Err(e) => !config_texts_ok(*self) && e == OsrmError::Initialization,
            },
    {
        if !safe_text(&self.algorithm) || !safe_text(&self.dataset_name) || !safe_text(&self.path) {
            return Err(OsrmError::Initialization);
        }
        Ok(OsrmConfig {
            algorithm: copy_text(&self.algorithm),
            shared_memory: self.shared_memory,
            dataset_name: copy_text(&self.dataset_name),
            mmap_memory: self.mmap_memory,
            path: copy_text(&self.path),
            disable_feature_dataset_flags: self.disable_feature_flags(),
            max_locations_trip: cap_or_zero(self.max_locations_trip),
            max_locations_viaroute: cap_or_zero(self.max_locations_viaroute),
            max_locations_distance_table: cap_or_zero(self.max_locations_distance_table),
            max_locations_map_matching: cap_or_zero(self.max_locations_map_matching),
            max_radius_map_matching: scalar_or_zero(self.max_radius_map_matching),
            max_results_nearest: cap_or_zero(self.max_results_nearest),
            max_alternatives: cap_or_zero(self.max_alternatives),
            default_radius: scalar_or_zero(self.default_radius),
        })
    }
}

} // verus!
