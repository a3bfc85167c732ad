//! Configuration for loading the Snowflake ADBC driver.
//!
//! A [`Builder`] gathers what the driver is loaded with: today the ADBC
//! revision it presents. A value is seeded from the text of an environment
//! variable, overridden by the caller, and resolved to a concrete revision
//! when the driver's constructor is called.

pub mod builder;
pub mod version;

pub use builder::Builder;
pub use version::AdbcVersion;
