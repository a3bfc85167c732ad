//! The ADBC revisions a driver can be loaded with.

use std::str::FromStr;
use vstd::prelude::*;

verus! {

/// A revision of the ADBC standard.
///
/// It has the variants of `adbc_core::options::AdbcVersion`, one for one, as
/// a type whose values contracts can tell apart.
#[derive(Clone, Copy, Debug, PartialEq, Eq, Structural)]
pub enum AdbcVersion {
    /// Revision 1.0.0.
    V100,
    /// Revision 1.1.0.
    V110,
}

impl AdbcVersion {
    /// The revision chosen where none is configured: the latest one.
    pub open spec fn latest() -> AdbcVersion {
        AdbcVersion::V110
    }

    /// The revision that `text` names, if it names one. Each revision is
    /// written in three ways: dotted, with underscores, and as bare digits.
    pub open spec fn named_by(text: Seq<char>) -> Option<AdbcVersion> {
        if text == "1.0.0"@ || text == "1_0_0"@ || text == "100"@ {
            Some(AdbcVersion::V100)
        } else if text == "1.1.0"@ || text == "1_1_0"@ || text == "110"@ {
            Some(AdbcVersion::V110)
        } else {
            None
        }
    }
}

/// Calls `adbc_core::options::AdbcVersion::default` and gives the result as
/// this crate's type.
///
/// Trusted: adbc_core derives `Default` with `V110` marked as the default
/// variant, so the call yields revision 1.1.0.
#[verifier::external_body]
fn latest_version() -> (version: AdbcVersion)
    ensures
        version == AdbcVersion::latest(),
{
    match adbc_core::options::AdbcVersion::default() {
        adbc_core::options::AdbcVersion::V100 => AdbcVersion::V100,
        _ => AdbcVersion::V110,
    }
}

/// Calls `adbc_core::options::AdbcVersion::from_str` and gives the result as
/// this crate's type, an error as `None`.
///
/// Trusted: adbc_core compares the whole text with six spellings, three for
/// each revision, and returns an error for any other text.
/// [`AdbcVersion::named_by`] lists the same six.
#[verifier::external_body]
pub(crate) fn parse_version(text: &str) -> (version: Option<AdbcVersion>)
    ensures
        version == AdbcVersion::named_by(text@),
{
    match adbc_core::options::AdbcVersion::from_str(text) {
        Ok(adbc_core::options::AdbcVersion::V100) => Some(AdbcVersion::V100),
        Ok(adbc_core::options::AdbcVersion::V110) => Some(AdbcVersion::V110),
        _ => None,
    }
}

impl Default for AdbcVersion {
    fn default() -> (version: AdbcVersion)
        ensures
            version == AdbcVersion::latest(),
    {
        latest_version()
    }
}

/// A revision is named by its own three spellings and by no other text: a
/// spelling of one revision is never taken for the other, and text that is
/// none of the six names nothing.
pub proof fn lemma_names_are_exact(text: Seq<char>)
    ensures
        AdbcVersion::named_by(text) == Some(AdbcVersion::V100) <==> (
            text == "1.0.0"@ || text == "1_0_0"@ || text == "100"@
        ),
        AdbcVersion::named_by(text) == Some(AdbcVersion::V110) <==> (
            text == "1.1.0"@ || text == "1_1_0"@ || text == "110"@
        ),
        AdbcVersion::named_by(text) is None <==> (
            text != "1.0.0"@ && text != "1_0_0"@ && text != "100"@
            && text != "1.1.0"@ && text != "1_1_0"@ && text != "110"@
        ),
{
    reveal_strlit("1.0.0");
    reveal_strlit("1_0_0");
    reveal_strlit("100");
    reveal_strlit("1.1.0");
    reveal_strlit("1_1_0");
    reveal_strlit("110");
    // In every spelling the two revisions differ in the second digit.
    assert("1.0.0"@[2] == '0' && "1_0_0"@[2] == '0' && "100"@[1] == '0');
    assert("1.1.0"@[2] == '1' && "1_1_0"@[2] == '1' && "110"@[1] == '1');
}

} // verus!
