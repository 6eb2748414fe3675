//! The FPS unlocker enhancement's configuration.

use vstd::prelude::*;
use vstd::string::StringExecFns;
use crate::json::ConfigValue;

verus! {

/// Where the FPS unlocker is installed and whether it runs.
#[derive(Debug, Clone, PartialEq, Eq)]
pub struct FpsUnlocker {
    /// Installation directory
    pub path: String,
    /// Whether the unlocker is enabled
    pub enabled: bool,
}

impl FpsUnlocker {
    /// The stock configuration: an `fps-unlocker` directory under the
    /// launcher's own directory, disabled.
    pub fn defaults(launcher_dir: &str) -> (r: FpsUnlocker)
        ensures
            r.path@ == launcher_dir@ + "/fps-unlocker"@,
            !r.enabled,
    {
        let mut path = launcher_dir.to_owned();
        path.append("/fps-unlocker");
        FpsUnlocker { path, enabled: false }
    }

    /// `self` with every field a configuration object names, and gives a
    /// usable value for, replaced by that value.
    pub open spec fn spec_merged(self, v: ConfigValue) -> FpsUnlocker {
        FpsUnlocker {
            path: match v.spec_get("path"@) {
                Some(node) => match node.spec_as_str() {
                    Some(s) => s,
                    None => self.path,
                },
                None => self.path,
            },
            enabled: match v.spec_get("enabled"@) {
                Some(node) => match node.spec_as_bool() {
                    Some(b) => b,
                    None => self.enabled,
                },
                None => self.enabled,
            },
        }
    }

    /// Overwrite this configuration with the values a configuration
    /// object gives.
    pub fn merged_with(&self, value: &ConfigValue) -> (r: FpsUnlocker)
        ensures
            r == self.spec_merged(*value),
    {
        let path: String = match value.get("path") {
            Some(node) => match node.as_str() {
                Some(s) => s.clone(),
                None => self.path.clone(),
            },
            None => self.path.clone(),
        };
        let enabled: bool = match value.get("enabled") {
            Some(node) => match node.as_bool() {
                Some(b) => b,
                None => self.enabled,
            },
            None => self.enabled,
        };
        FpsUnlocker { path, enabled }
    }
}

} // verus!
