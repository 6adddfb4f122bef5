//! Protocol versioning: the version constants of the client, a half-open
//! version-range predicate, and the registry that maps gated protocol
//! features to the protocol version that activates them.

use vstd::prelude::*;

verus! {

/// Data structure for a semver version and a build tag or commit.
#[derive(Debug)]
pub struct Version {
    pub version: String,
    pub build: String,
}

impl Clone for Version {
    /// An exact copy.
    fn clone(&self) -> (r: Self)
        ensures
            r == *self,
    {
        Version { version: self.version.clone(), build: self.build.clone() }
    }
}

impl Default for Version {
    /// The default version: both fields empty.
    fn default() -> (r: Self)
        ensures
            r.version@.len() == 0,
            r.build@.len() == 0,
    {
        Version { version: String::new(), build: String::new() }
    }
}

/// Database version.
pub type DbVersion = u32;

/// Current version of the database.
pub const DB_VERSION: DbVersion = 16;

/// Protocol version type.
pub type ProtocolVersion = u32;

/// Oldest supported version by this client.
pub const OLDEST_BACKWARD_COMPATIBLE_PROTOCOL_VERSION: ProtocolVersion = 34;

/// Protocol version that introduces the minimum gas price rule.
pub const MIN_PROTOCOL_VERSION_NEP_92: ProtocolVersion = 31;

/// Protocol version that fixes the minimum gas price rule.
pub const MIN_PROTOCOL_VERSION_NEP_92_FIX: ProtocolVersion = 32;

/// Protocol version that corrects the random value computation.
pub const CORRECT_RANDOM_VALUE_PROTOCOL_VERSION: ProtocolVersion = 33;

/// Protocol version that enables implicit account creation.
pub const IMPLICIT_ACCOUNT_CREATION_PROTOCOL_VERSION: ProtocolVersion = 35;

/// The protocol version that enables reward on mainnet.
pub const ENABLE_INFLATION_PROTOCOL_VERSION: ProtocolVersion = 36;

/// Fix upgrade to use the latest voted protocol version instead of the
/// current epoch protocol version when there is no new change in protocol
/// version.
pub const UPGRADABILITY_FIX_PROTOCOL_VERSION: ProtocolVersion = 37;

/// Updates the way receipt ID, data ID and random seeds are constructed.
pub const CREATE_HASH_PROTOCOL_VERSION: ProtocolVersion = 38;

/// Fix the storage usage of the delete key action.
pub const DELETE_KEY_STORAGE_USAGE_PROTOCOL_VERSION: ProtocolVersion = 40;

/// Protocol version that upgrades the shard chunk header.
pub const SHARD_CHUNK_HEADER_UPGRADE_VERSION: ProtocolVersion = 41;

/// Current latest stable version of the protocol.
pub const STABLE_PROTOCOL_VERSION: ProtocolVersion = 41;

/// Current latest nightly version of the protocol.
pub const NIGHTLY_PROTOCOL_VERSION: ProtocolVersion = 42;

/// The protocol version a build implements: the nightly version for a
/// nightly build configuration, the stable version otherwise.
pub fn protocol_version(nightly: bool) -> (v: ProtocolVersion)
    ensures
        v == if nightly { NIGHTLY_PROTOCOL_VERSION } else { STABLE_PROTOCOL_VERSION },
{
    if nightly { NIGHTLY_PROTOCOL_VERSION } else { STABLE_PROTOCOL_VERSION }
}

/// A half-open range of protocol versions: a lower bound (inclusive) and an
/// optional upper bound (exclusive).
pub struct ProtocolVersionRange {
    lower: ProtocolVersion,
    upper: Option<ProtocolVersion>,
}

impl ProtocolVersionRange {
    /// The lower (inclusive) bound.
    pub closed spec fn spec_lower(self) -> ProtocolVersion {
        self.lower
    }

    /// The upper (exclusive) bound, if any.
    pub closed spec fn spec_upper(self) -> Option<ProtocolVersion> {
        self.upper
    }

    /// Membership in the range: at or above the lower bound, and below the
    /// upper bound where one is present.
    pub open spec fn spec_contains(self, version: ProtocolVersion) -> bool {
        self.spec_lower() <= version && match self.spec_upper() {
            Option::None => true,
            Option::Some(upper) => version < upper,
        }
    }

    pub fn new(lower: ProtocolVersion, upper: Option<ProtocolVersion>) -> (r: Self)
        ensures
            r.spec_lower() == lower,
            r.spec_upper() == upper,
    {
        Self { lower, upper }
    }

    pub fn contains(&self, version: ProtocolVersion) -> (r: bool)
        ensures
            r == self.spec_contains(version),
    {
        self.lower <= version && match self.upper {
            Option::None => true,
            Option::Some(upper) => version < upper,
        }
    }
}

/// Law: a range built from `lower` and `upper` contains exactly the versions
/// `v` with `lower <= v`, further bounded by `v < upper` when an upper bound
/// is present; with no upper bound it contains every version from `lower` on.
pub proof fn lemma_version_range_contains(r: ProtocolVersionRange, v: ProtocolVersion)
    ensures
        r.spec_contains(v) <==> (r.spec_lower() <= v && (r.spec_upper() matches Some(u) ==> v < u)),
        r.spec_upper() is None ==> (r.spec_contains(v) <==> r.spec_lower() <= v),
{
}

/// New protocol features go here, one variant per gated feature; a build
/// configuration compiles a feature's registry entry in only when the
/// feature belongs to that configuration.
#[derive(Clone, Copy, PartialEq, Eq, Structural, Hash, Debug)]
pub enum ProtocolFeature {
    ForwardChunkParts,
}

/// The features gated in the stable protocol and their activation versions:
/// none at present.
pub open spec fn stable_feature_versions() -> Map<ProtocolFeature, ProtocolVersion> {
    Map::empty()
}

/// The features gated in the nightly protocol and their activation versions.
pub open spec fn nightly_feature_versions() -> Map<ProtocolFeature, ProtocolVersion> {
    map![ProtocolFeature::ForwardChunkParts => NIGHTLY_PROTOCOL_VERSION]
}

/// A feature is active at `current` when the mapping knows the feature and
/// its activation version is at or below `current`.
pub open spec fn spec_feature_active(
    m: Map<ProtocolFeature, ProtocolVersion>,
    feature: ProtocolFeature,
    current: ProtocolVersion,
) -> bool {
    m.contains_key(feature) && m[feature] <= current
}

/// Law: the feature gate is a pure predicate of the mapping, the feature and
/// the version — evaluating it twice over the same mapping gives the same
/// answer — and a feature absent from the mapping is inactive at every
/// version.
pub proof fn lemma_feature_gate(
    m: Map<ProtocolFeature, ProtocolVersion>,
    feature: ProtocolFeature,
    current: ProtocolVersion,
)
    ensures
        spec_feature_active(m, feature, current) == (m.contains_key(feature) && m[feature]
            <= current),
        !m.contains_key(feature) ==> !spec_feature_active(m, feature, current),
{
}

/// The mapping a sequence of `(feature, version)` entries spells out, later
/// entries taking precedence.
pub open spec fn entries_map(s: Seq<(ProtocolFeature, ProtocolVersion)>) -> Map<
    ProtocolFeature,
    ProtocolVersion,
>
    decreases s.len(),
{
    if s.len() == 0 {
        Map::empty()
    } else {
        entries_map(s.drop_last()).insert(s.last().0, s.last().1)
    }
}

/// Map of feature to the minimal protocol version that introduces the
/// feature: whether to apply a feature at some network protocol version is
/// decided by comparing that version to the feature's entry here. Built once
/// per build configuration and read-only afterwards.
pub struct FeatureRegistry {
    entries: Vec<(ProtocolFeature, ProtocolVersion)>,
}

impl View for FeatureRegistry {
    type V = Map<ProtocolFeature, ProtocolVersion>;

    closed spec fn view(&self) -> Map<ProtocolFeature, ProtocolVersion> {
        entries_map(self.entries@)
    }
}

impl FeatureRegistry {
    /// Well-formedness: no feature appears in two entries.
    pub closed spec fn inv(&self) -> bool {
        forall|j: int, k: int|
            0 <= j < k < self.entries@.len() ==> self.entries@[j].0 != self.entries@[k].0
    }

    /// Build the registry of the given build configuration. The registry of
    /// a nightly build never maps a stable feature below its stable
    /// activation version, so a nightly build cannot silently regress a
    /// released feature.
    pub fn new(nightly: bool) -> (r: Self)
        ensures
            r.inv(),
            r@ == if nightly {
                nightly_feature_versions()
            } else {
                stable_feature_versions()
            },
            forall|f: ProtocolFeature|
                stable_feature_versions().contains_key(f) ==> r@.contains_key(f)
                    && stable_feature_versions()[f] <= r@[f],
    {
        let mut entries: Vec<(ProtocolFeature, ProtocolVersion)> = Vec::new();
        if nightly {
            entries.push((ProtocolFeature::ForwardChunkParts, NIGHTLY_PROTOCOL_VERSION));
            proof {
                assert(entries@.drop_last() =~= Seq::<(ProtocolFeature, ProtocolVersion)>::empty());
                assert(entries_map(entries@) =~= nightly_feature_versions());
            }
        } else {
            proof {
                assert(entries_map(entries@) =~= stable_feature_versions());
            }
        }
        Self { entries }
    }

    /// The version that activates `feature`, or `None` when the feature is
    /// not part of this build's registry.
    pub fn activation_version(&self, feature: ProtocolFeature) -> (r: Option<ProtocolVersion>)
        requires
            self.inv(),
        ensures
            r == if self@.contains_key(feature) {
                Some(self@[feature])
            } else {
                Option::<ProtocolVersion>::None
            },
    {
        proof {
            lemma_entries_map_lookup(self.entries@, feature);
        }
        let mut i: usize = 0;
        while i < self.entries.len()
            invariant
                self.inv(),
                i <= self.entries@.len(),
                forall|j: int| 0 <= j < i ==> self.entries@[j].0 != feature,
                self@ == entries_map(self.entries@),
            decreases self.entries@.len() - i,
        {
            if self.entries[i].0 == feature {
                proof {
                    lemma_entries_map_lookup(self.entries@, feature);
                }
                return Some(self.entries[i].1);
            }
            i += 1;
        }
        proof {
            lemma_entries_map_lookup(self.entries@, feature);
        }
        None
    }

    /// Whether `feature` is active at protocol version `current`: a feature
    /// outside this build's registry is inactive at every version.
    pub fn feature_active(&self, feature: ProtocolFeature, current: ProtocolVersion) -> (r: bool)
        requires
            self.inv(),
        ensures
            r == spec_feature_active(self@, feature, current),
    {
        match self.activation_version(feature) {
            Option::Some(activation) => activation <= current,
            Option::None => false,
        }
    }
}

/// In a sequence of entries with pairwise distinct features, the mapping the
/// entries spell out knows exactly the features that occur, each at the
/// version of its entry.
proof fn lemma_entries_map_lookup(s: Seq<(ProtocolFeature, ProtocolVersion)>, f: ProtocolFeature)
    requires
        forall|j: int, k: int| 0 <= j < k < s.len() ==> s[j].0 != s[k].0,
    ensures
        entries_map(s).contains_key(f) <==> exists|j: int| 0 <= j < s.len() && s[j].0 == f,
        forall|j: int| 0 <= j < s.len() && s[j].0 == f ==> entries_map(s)[f] == s[j].1,
    decreases s.len(),
{
    if s.len() > 0 {
        lemma_entries_map_lookup(s.drop_last(), f);
        assert forall|j: int| 0 <= j < s.len() && s[j].0 == f implies entries_map(s)[f]
            == s[j].1 by {
            if j < s.len() - 1 {
                assert(s.drop_last()[j] == s[j]);
                assert(s[j].0 != s.last().0);
            }
        }
        if entries_map(s).contains_key(f) && s.last().0 != f {
            assert(exists|j: int| 0 <= j < s.len() - 1 && s.drop_last()[j].0 == f);
            let j = choose|j: int| 0 <= j < s.len() - 1 && s.drop_last()[j].0 == f;
            assert(s[j].0 == f);
        }
        if exists|j: int| 0 <= j < s.len() && s[j].0 == f {
            let j = choose|j: int| 0 <= j < s.len() && s[j].0 == f;
            if j < s.len() - 1 {
                assert(s.drop_last()[j].0 == f);
            }
        }
    }
}

} // verus!
