//! Plugin manifests: what a plugin declares about itself, its dependencies
//! and permissions, and the check that its version texts are well formed.

use vstd::prelude::*;

use crate::compat::{accepts_semver_req, parse_semver, semver_core, semver_req_accepts};
use crate::plugin::PluginId;
use crate::plugin_error::{text2, PluginError};
use crate::text::{owned, string_equals_str, strings_equal};

verus! {

/// A plugin that another plugin needs.
#[derive(Debug, Clone)]
pub struct PluginDependency {
    /// Dependency plugin ID.
    pub plugin_id: PluginId,
    /// Required version (semver range).
    pub version: String,
    /// Whether the dependency is optional.
    pub optional: bool,
}

impl PluginDependency {
    /// A dependency that must be present.
    pub fn required(id: &str, version: &str) -> (d: PluginDependency)
        ensures
            d.plugin_id@ == id@,
            d.version@ == version@,
            !d.optional,
    {
        PluginDependency { plugin_id: PluginId::new(id), version: owned(version), optional: false }
    }

    /// A dependency that may be missing.
    pub fn optional(id: &str, version: &str) -> (d: PluginDependency)
        ensures
            d.plugin_id@ == id@,
            d.version@ == version@,
            d.optional,
    {
        PluginDependency { plugin_id: PluginId::new(id), version: owned(version), optional: true }
    }
}

/// A permission a plugin asks for.
#[derive(Debug, Clone)]
pub struct PluginPermission {
    /// Permission name.
    pub name: String,
    /// Permission reason (shown to user).
    pub reason: Option<String>,
    /// Permission is required (vs optional).
    pub required: bool,
}

impl PluginPermission {
    /// A required permission without a reason.
    pub fn new(name: &str) -> (p: PluginPermission)
        ensures
            p.name@ == name@,
            p.reason is None,
            p.required,
    {
        PluginPermission { name: owned(name), reason: None, required: true }
    }

    /// The same permission with a reason shown to the user.
    pub fn with_reason(self, reason: &str) -> (p: PluginPermission)
        ensures
            p.name == self.name,
            p.required == self.required,
            p.reason matches Some(r) && r@ == reason@,
    {
        let mut s = self;
        s.reason = Some(owned(reason));
        s
    }

    /// The same permission, no longer required.
    pub fn optional(self) -> (p: PluginPermission)
        ensures
            p.name == self.name,
            p.reason == self.reason,
            !p.required,
    {
        let mut s = self;
        s.required = false;
        s
    }
}

/// Types of configuration properties.
#[derive(Debug, Clone, Copy, PartialEq, Eq, Structural)]
pub enum ConfigType {
    String,
    Number,
    Integer,
    Boolean,
    Array,
    Object,
}

/// Platforms a plugin can run on.
#[derive(Debug, Clone, Copy, PartialEq, Eq, Structural)]
pub enum Platform {
    Windows,
    MacOS,
    Linux,
    Android,
    IOS,
    Web,
}

/// What a plugin needs from the machine.
#[derive(Debug, Clone)]
pub struct RuntimeRequirements {
    /// Minimum memory required in MB.
    pub min_memory_mb: Option<u32>,
    /// Minimum CPU cores.
    pub min_cpu_cores: Option<u32>,
    /// Required GPU features.
    pub gpu_features: Vec<String>,
    /// Required system libraries.
    pub system_libraries: Vec<String>,
}

/// Everything a plugin declares about itself.
#[derive(Debug, Clone)]
pub struct PluginManifest {
    /// Unique plugin identifier.
    pub id: PluginId,
    /// Human-readable plugin name.
    pub name: String,
    /// Plugin version (semver).
    pub version: String,
    /// Plugin description.
    pub description: String,
    /// Plugin author.
    pub author: String,
    /// Plugin homepage URL.
    pub homepage: Option<String>,
    /// Plugin repository URL.
    pub repository: Option<String>,
    /// Plugin license (SPDX identifier).
    pub license: String,
    /// Minimum host version required.
    pub min_host_version: String,
    /// Plugin entry point (relative path to library).
    pub entry: String,
    /// Plugin dependencies.
    pub dependencies: Vec<PluginDependency>,
    /// Plugin permissions.
    pub permissions: Vec<PluginPermission>,
    /// Plugin keywords/tags.
    pub keywords: Vec<String>,
    /// Plugin categories.
    pub categories: Vec<String>,
    /// Target platforms; empty means every platform.
    pub platforms: Vec<Platform>,
    /// Runtime requirements.
    pub requirements: Option<RuntimeRequirements>,
}

/// The fields a new manifest starts with, but its identifier and name.
pub open spec fn has_default_fields(m: PluginManifest) -> bool {
    &&& m.version@ == "1.0.0"@
    &&& m.description@.len() == 0
    &&& m.author@.len() == 0
    &&& m.homepage is None
    &&& m.repository is None
    &&& m.license@ == "MIT"@
    &&& m.min_host_version@ == "1.0.0"@
    &&& m.entry@ == "plugin.so"@
    &&& m.dependencies@.len() == 0
    &&& m.permissions@.len() == 0
    &&& m.keywords@.len() == 0
    &&& m.categories@.len() == 0
    &&& m.platforms@.len() == 0
    &&& m.requirements is None
}

/// Whether a dependency's version requirement is accepted by semver.
pub open spec fn dependency_accepted(d: PluginDependency) -> bool {
    semver_req_accepts(d.version@)
}

/// What validation says of a manifest: `None` when it is valid, else the
/// text of the first problem found (version, then minimum host version, then
/// the dependencies in order).
pub open spec fn validation_problem(m: PluginManifest) -> Option<Seq<char>> {
    if semver_core(m.version@) is None {
        Some("Invalid version format: "@ + m.version@)
    } else if semver_core(m.min_host_version@) is None {
        Some("Invalid min_host_version format: "@ + m.min_host_version@)
    } else if exists|i: int| 0 <= i < m.dependencies@.len() && !dependency_accepted(#[trigger] m.dependencies@[i]) {
        let i = choose|i: int| 0 <= i < m.dependencies@.len() && !dependency_accepted(#[trigger] m.dependencies@[i])
            && forall|j: int| 0 <= j < i ==> dependency_accepted(#[trigger] m.dependencies@[j]);
        Some("Invalid dependency version format: "@ + m.dependencies@[i].version@)
    } else {
        None
    }
}

impl PluginManifest {
    /// A manifest with the given identifier and name and default fields.
    pub fn new(id: &str, name: &str) -> (m: PluginManifest)
        ensures
            m.id@ == id@,
            m.name@ == name@,
            has_default_fields(m),
    {
        PluginManifest {
            id: PluginId::new(id),
            name: owned(name),
            version: owned("1.0.0"),
            description: String::new(),
            author: String::new(),
            homepage: None,
            repository: None,
            license: owned("MIT"),
            min_host_version: owned("1.0.0"),
            entry: owned("plugin.so"),
            dependencies: Vec::new(),
            permissions: Vec::new(),
            keywords: Vec::new(),
            categories: Vec::new(),
            platforms: Vec::new(),
            requirements: None,
        }
    }

    /// The same manifest with another version.
    pub fn with_version(self, version: &str) -> (m: PluginManifest)
        ensures
            m == (PluginManifest { version: m.version, ..self }),
            m.version@ == version@,
    {
        let mut s = self;
        s.version = owned(version);
        s
    }

    /// The same manifest with another description.
    pub fn with_description(self, description: &str) -> (m: PluginManifest)
        ensures
            m == (PluginManifest { description: m.description, ..self }),
            m.description@ == description@,
    {
        let mut s = self;
        s.description = owned(description);
        s
    }

    /// The same manifest with another author.
    pub fn with_author(self, author: &str) -> (m: PluginManifest)
        ensures
            m == (PluginManifest { author: m.author, ..self }),
            m.author@ == author@,
    {
        let mut s = self;
        s.author = owned(author);
        s
    }

    /// The same manifest with one more dependency at the end.
    pub fn with_dependency(self, dep: PluginDependency) -> (m: PluginManifest)
        ensures
            m == (PluginManifest { dependencies: m.dependencies, ..self }),
            m.dependencies@ == self.dependencies@.push(dep),
    {
        let mut s = self;
        s.dependencies.push(dep);
        s
    }

    /// The same manifest with one more permission at the end.
    pub fn with_permission(self, perm: PluginPermission) -> (m: PluginManifest)
        ensures
            m == (PluginManifest { permissions: m.permissions, ..self }),
            m.permissions@ == self.permissions@.push(perm),
    {
        let mut s = self;
        s.permissions.push(perm);
        s
    }

    /// Whether a permission of the given name is declared.
    pub fn has_permission(&self, name: &str) -> (r: bool)
        ensures
            r == exists|i: int| 0 <= i < self.permissions@.len() && (#[trigger] self.permissions@[i]).name@ == name@,
    {
        let mut i: usize = 0;
        while i < self.permissions.len()
            invariant
                i <= self.permissions@.len(),
                forall|j: int| 0 <= j < i ==> (#[trigger] self.permissions@[j]).name@ != name@,
            decreases self.permissions@.len() - i,
        {
            if string_equals_str(&self.permissions[i].name, name) {
                return true;
            }
            i = i + 1;
        }
        false
    }

    /// Whether a dependency on the given plugin is declared.
    pub fn has_dependency(&self, id: &PluginId) -> (r: bool)
        ensures
            r == exists|i: int| 0 <= i < self.dependencies@.len() && (#[trigger] self.dependencies@[i]).plugin_id@ == id@,
    {
        let mut i: usize = 0;
        while i < self.dependencies.len()
            invariant
                i <= self.dependencies@.len(),
                forall|j: int| 0 <= j < i ==> (#[trigger] self.dependencies@[j]).plugin_id@ != id@,
            decreases self.dependencies@.len() - i,
        {
            if strings_equal(&self.dependencies[i].plugin_id.0, &id.0) {
                return true;
            }
            i = i + 1;
        }
        false
    }

    /// Whether the plugin runs on `platform`: it does when no platform is
    /// listed, or when `platform` is among those listed.
    pub fn supports_platform(&self, platform: Platform) -> (r: bool)
        ensures
            r == (self.platforms@.len() == 0 || self.platforms@.contains(platform)),
    {
        if self.platforms.len() == 0 {
            return true;
        }
        let mut i: usize = 0;
        while i < self.platforms.len()
            invariant
                i <= self.platforms@.len(),
                self.platforms@.len() > 0,
                forall|j: int| 0 <= j < i ==> self.platforms@[j] != platform,
            decreases self.platforms@.len() - i,
        {
            if self.platforms[i] == platform {
                return true;
            }
            i = i + 1;
        }
        false
    }

    /// Checks that the version, the minimum host version and every
    /// dependency's version requirement are well formed. The error names the
    /// first problem found.
    pub fn validate(&self) -> (r: Result<(), PluginError>)
        ensures
            r is Ok <==> validation_problem(*self) is None,
            r matches Err(e) ==> (e matches PluginError::InvalidManifest(s)
                && validation_problem(*self) == Some(s@)),
    {
        if parse_semver(self.version.as_str()).is_none() {
            return Err(PluginError::InvalidManifest(text2("Invalid version format: ", self.version.as_str())));
        }
        if parse_semver(self.min_host_version.as_str()).is_none() {
            return Err(PluginError::InvalidManifest(
                text2("Invalid min_host_version format: ", self.min_host_version.as_str()),
            ));
        }
        let mut i: usize = 0;
        while i < self.dependencies.len()
            invariant
                i <= self.dependencies@.len(),
                semver_core(self.version@) is Some,
                semver_core(self.min_host_version@) is Some,
                forall|j: int| 0 <= j < i ==> dependency_accepted(#[trigger] self.dependencies@[j]),
            decreases self.dependencies@.len() - i,
        {
            if !accepts_semver_req(self.dependencies[i].version.as_str()) {
                let ghost k = i as int;
                proof {
                    assert(0 <= k < self.dependencies@.len() && !dependency_accepted(self.dependencies@[k]));
                    let c = choose|c: int| 0 <= c < self.dependencies@.len() && !dependency_accepted(#[trigger] self.dependencies@[c])
                        && forall|j: int| 0 <= j < c ==> dependency_accepted(#[trigger] self.dependencies@[j]);
                    if c < k {
                    } else if c > k {
                        assert(dependency_accepted(self.dependencies@[k]));
                    }
                    assert(c == k);
                }
                return Err(PluginError::InvalidManifest(
                    text2("Invalid dependency version format: ", self.dependencies[i].version.as_str()),
                ));
            }
            i = i + 1;
        }
        Ok(())
    }
}

impl Default for PluginManifest {
    fn default() -> (m: PluginManifest)
        ensures
            m.id@ == "com.example.plugin"@,
            m.name@ == "Example Plugin"@,
            has_default_fields(m),
    {
        PluginManifest::new("com.example.plugin", "Example Plugin")
    }
}

} // verus!
