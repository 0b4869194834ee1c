//! Plugin metadata as a plugin declares it in its `cauldron` table.
//!
//! Tables of the metadata format are held as vectors of (key, value) pairs in
//! the order in which they were read; a table never repeats a key
//! (`keys_unique`, checked by `PluginMetadataV0::has_unique_keys`).
use vstd::prelude::*;
use crate::text::str_equals;

verus! {

/// A single string or a list of strings.
#[derive(Debug, Clone)]
pub enum StringOrStringVec {
    String(String),
    Vec(Vec<String>),
}

/// The contributors of a plugin: plain names, or names with their roles.
#[derive(Debug, Clone)]
pub enum ContributorsList {
    Plain(Vec<String>),
    WithRoles(Vec<(String, StringOrStringVec)>),
}

/// Metadata of schema version 0.
#[derive(Debug, Clone)]
pub struct PluginMetadataV0 {
    pub schema_version: u32,
    pub cauldron: PluginMetadataCauldron,
    /// Every other top-level key of the metadata file, with its value
    /// written as TOML; kept for the plugin, not read by the loader.
    pub extra: Vec<(String, String)>,
}

/// The `cauldron` table: identity, version and dependencies of a plugin.
#[derive(Debug, Clone)]
pub struct PluginMetadataCauldron {
    pub id: String,
    pub version: String,
    pub metadata: Option<PluginMetadataCauldronMetadata>,
    pub dependencies: Option<Vec<(String, PluginMetadataDependency)>>,
}

/// Human-readable description of a plugin.
#[derive(Debug, Clone)]
pub struct PluginMetadataCauldronMetadata {
    pub name: Option<String>,
    pub description: Option<String>,
    pub contributors: Option<ContributorsList>,
}

/// A dependency: a bare version requirement, or a detailed one.
#[derive(Debug, Clone)]
pub enum PluginMetadataDependency {
    Plain(String),
    Detailed(PluginMetadataDetailedDependency),
}

/// A dependency with its requirement, an optional reason and whether it may be absent.
#[derive(Debug, Clone)]
pub struct PluginMetadataDetailedDependency {
    pub version: String,
    pub reason: Option<String>,
    pub optional: bool,
}

/// Only the schema version, read before the rest of the metadata.
#[derive(Debug, Clone, Copy)]
pub struct PluginMetadataSchemaVersionOnly {
    pub schema_version: u32,
}

/// The requirement text of a dependency.
pub open spec fn dependency_requirement(dep: PluginMetadataDependency) -> Seq<char> {
    match dep {
        PluginMetadataDependency::Plain(v) => v@,
        PluginMetadataDependency::Detailed(d) => d.version@,
    }
}

/// Whether a dependency may be absent.
pub open spec fn dependency_is_optional(dep: PluginMetadataDependency) -> bool {
    match dep {
        PluginMetadataDependency::Plain(_) => false,
        PluginMetadataDependency::Detailed(d) => d.optional,
    }
}

/// The schema versions whose full metadata this loader reads.
pub open spec fn schema_supported(schema_version: u32) -> bool {
    schema_version == 0
}

impl PluginMetadataSchemaVersionOnly {
    /// Whether metadata of this schema version can be read in full.
    pub fn is_supported(&self) -> (r: bool)
        ensures
            r == schema_supported(self.schema_version),
    {
        self.schema_version == 0
    }
}

/// Whether no key occurs twice among the entries of a table.
pub open spec fn keys_unique<V>(e: Seq<(String, V)>) -> bool {
    forall|i: int, j: int| 0 <= i < j < e.len() ==> (#[trigger] e[i]).0@ != (#[trigger] e[j]).0@
}

/// Whether every table of the metadata is free of repeated keys, as every
/// table read from a file is.
pub open spec fn metadata_keys_unique(m: PluginMetadataV0) -> bool {
    &&& keys_unique(m.extra@)
    &&& (m.cauldron.dependencies matches Some(d) ==> keys_unique(d@))
    &&& (m.cauldron.metadata matches Some(meta) ==> (meta.contributors matches Some(
        ContributorsList::WithRoles(c),
    ) ==> keys_unique(c@)))
}

fn keys_unique_exec<V>(e: &Vec<(String, V)>) -> (r: bool)
    ensures
        r == keys_unique(e@),
{
    let n = e.len();
    let mut j: usize = 0;
    while j < n
        invariant
            n == e.len(),
            j <= n,
            forall|a: int, b: int| 0 <= a < b < j ==> (#[trigger] e@[a]).0@ != (#[trigger] e@[b]).0@,
        decreases n - j,
    {
        let mut i: usize = 0;
        while i < j
            invariant
                n == e.len(),
                i <= j < n,
                forall|a: int, b: int| 0 <= a < b < j ==> (#[trigger] e@[a]).0@ != (#[trigger] e@[b]).0@,
                forall|a: int| 0 <= a < i ==> (#[trigger] e@[a]).0@ != e@[j as int].0@,
            decreases j - i,
        {
            if str_equals(e[i].0.as_str(), e[j].0.as_str()) {
                return false;
            }
            i = i + 1;
        }
        j = j + 1;
    }
    true
}

impl PluginMetadataV0 {
    /// Whether no table of the metadata repeats a key (see `metadata_keys_unique`).
    pub fn has_unique_keys(&self) -> (r: bool)
        ensures
            r == metadata_keys_unique(*self),
    {
        if !keys_unique_exec(&self.extra) {
            return false;
        }
        match &self.cauldron.dependencies {
            Some(d) => {
                if !keys_unique_exec(d) {
                    return false;
                }
            },
            None => {},
        }
        match &self.cauldron.metadata {
            Some(meta) => match &meta.contributors {
                Some(ContributorsList::WithRoles(c)) => keys_unique_exec(c),
                _ => true,
            },
            None => true,
        }
    }
}

} // verus!
