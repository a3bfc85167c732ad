//! A builder for the driver.

use crate::version::{parse_version, AdbcVersion};
use vstd::prelude::*;

verus! {

/// What the driver is loaded with.
///
/// A field left at `None` is no error: it is filled in with a default only
/// when the driver is loaded, by [`Builder::try_load`].
#[derive(Debug)]
#[non_exhaustive]
pub struct Builder {
    /// The ADBC revision of the driver.
    pub adbc_version: Option<AdbcVersion>,
}

impl Clone for Builder {
    fn clone(&self) -> (builder: Builder)
        ensures
            builder == *self,
    {
        Builder { adbc_version: self.adbc_version }
    }
}

impl Default for Builder {
    fn default() -> (builder: Builder)
        ensures
            builder == Builder::empty(),
    {
        Builder { adbc_version: None }
    }
}

impl Builder {
    /// See [`Self::adbc_version`].
    pub const ADBC_VERSION_ENV: &'static str = "ADBC_SNOWFLAKE_ADBC_VERSION";

    /// The builder in which nothing is configured.
    pub open spec fn empty() -> Builder {
        Builder { adbc_version: None }
    }

    /// The builder seeded from what the environment holds under
    /// [`Self::ADBC_VERSION_ENV`], `None` standing for an unset variable.
    /// Text that names no revision leaves the revision unset.
    pub open spec fn seeded_from(value: Option<Seq<char>>) -> Builder {
        Builder {
            adbc_version: match value {
                Some(text) => AdbcVersion::named_by(text),
                None => None,
            },
        }
    }

    /// This builder with its revision replaced by `version`.
    pub open spec fn overridden(self, version: AdbcVersion) -> Builder {
        Builder { adbc_version: Some(version), ..self }
    }

    /// The revision that the driver is loaded with: the configured one,
    /// else the latest.
    pub open spec fn resolved_version(self) -> AdbcVersion {
        match self.adbc_version {
            Some(version) => version,
            None => AdbcVersion::latest(),
        }
    }

    /// Construct a builder from the value of the configuration environment
    /// variable, as the caller read it.
    pub fn from_env_value(value: Option<&str>) -> (builder: Builder)
        ensures
            builder == Builder::seeded_from(value.deep_view()),
    {
        let adbc_version = match value {
            Some(text) => parse_version(text),
            None => None,
        };
        Builder { adbc_version }
    }

    /// Construct a builder, setting values based on values of the
    /// configuration environment variables. `lookup` stands for the
    /// environment: it is asked once, for [`Self::ADBC_VERSION_ENV`].
    pub fn from_env<F: FnOnce(&str) -> Option<String>>(lookup: F) -> (builder: Builder)
        requires
            lookup.requires((Self::ADBC_VERSION_ENV,)),
        ensures
            exists|value: Option<String>|
                lookup.ensures((Self::ADBC_VERSION_ENV,), value) && builder == Builder::seeded_from(
                    value.deep_view(),
                ),
    {
        let value = lookup(Self::ADBC_VERSION_ENV);
        let builder = match &value {
            Some(text) => Builder::from_env_value(Some(text.as_str())),
            None => Builder::from_env_value(None),
        };
        assert(builder == Builder::seeded_from(value.deep_view()));
        builder
    }

    /// Use the provided [`AdbcVersion`] when loading the driver.
    pub fn with_adbc_version(self, version: AdbcVersion) -> (builder: Builder)
        ensures
            builder == self.overridden(version),
            builder.adbc_version == Some(version),
    {
        let mut builder = self;
        builder.adbc_version = Some(version);
        builder
    }

    /// The revision that [`Self::try_load`] hands to the driver's
    /// constructor.
    pub fn resolve_version(&self) -> (version: AdbcVersion)
        ensures
            version == self.resolved_version(),
    {
        self.adbc_version.unwrap_or_default()
    }

    /// Try to load the driver using the values provided to this builder.
    /// `construct` is the driver's constructor: it is called once, with the
    /// resolved revision, and what it returns is returned as it is.
    pub fn try_load<D, E, F: FnOnce(AdbcVersion) -> Result<D, E>>(self, construct: F) -> (loaded:
        Result<D, E>)
        requires
            construct.requires((self.resolved_version(),)),
        ensures
            construct.ensures((self.resolved_version(),), loaded),
    {
        construct(self.resolve_version())
    }
}

/// An override is unconditional: whatever the builder held before, it then
/// holds the given revision and resolves to it, and of two overrides the
/// later one stands.
pub proof fn lemma_override_is_unconditional(
    builder: Builder,
    earlier: AdbcVersion,
    version: AdbcVersion,
)
    ensures
        builder.overridden(version).adbc_version == Some(version),
        builder.overridden(version).resolved_version() == version,
        builder.overridden(earlier).overridden(version) == builder.overridden(version),
{
}

/// An explicit revision beats the environment: a builder that was seeded
/// from any value of the variable and then overridden resolves to the
/// override.
pub proof fn lemma_explicit_beats_environment(value: Option<Seq<char>>, version: AdbcVersion)
    ensures
        Builder::seeded_from(value).overridden(version).resolved_version() == version,
{
}

/// Text that names a revision seeds that revision, and the builder resolves
/// to it.
pub proof fn lemma_recognized_text_is_taken(text: Seq<char>, version: AdbcVersion)
    requires
        AdbcVersion::named_by(text) == Some(version),
    ensures
        Builder::seeded_from(Some(text)).adbc_version == Some(version),
        Builder::seeded_from(Some(text)).resolved_version() == version,
{
}

/// An unset variable and text that names no revision both seed nothing: the
/// builder is the empty one, and it resolves to the latest revision.
pub proof fn lemma_unrecognized_text_is_unset(value: Option<Seq<char>>)
    requires
        value matches Some(text) ==> AdbcVersion::named_by(text) is None,
    ensures
        Builder::seeded_from(value) == Builder::empty(),
        Builder::seeded_from(value).resolved_version() == AdbcVersion::latest(),
{
}

} // verus!
