//! Configuration for AWS RDS IAM authentication.
//!
//! Only the decision-relevant data lives here: the region and the token
//! lifetime, plus the manager-level switch that turns IAM authentication
//! on.  Building the actual request signer, and fetching a token with it,
//! is backend work done by the embedding; the [`crate::auth`] module keeps
//! the verified bookkeeping of when a fetched token expires.

use vstd::prelude::*;

verus! {

/// Default expiration time in milliseconds for AWS RDS IAM authentication
/// tokens; a token lifetime between 5 and 15 minutes is the recommended
/// range.
pub const DEFAULT_EXPIRES_IN_MS: u64 = 900_000;

/// Configuration for AWS RDS IAM authentication: the AWS region and the
/// token expiration duration.
#[derive(Clone, Debug)]
pub struct AwsRdsSignerConfig {
    region: Option<String>,
    expires_in_ms: u64,
}

impl AwsRdsSignerConfig {
    /// Starts building a configuration with custom settings.
    pub fn builder() -> (r: AwsRdsSignerConfigBuilder)
        ensures
            r.spec_region() is None,
            r.spec_expires_in() is None,
    {
        AwsRdsSignerConfigBuilder { region: None, expires_in_ms: None }
    }

    /// The configured AWS region, when one was set.
    pub fn region(&self) -> (r: &Option<String>)
        ensures
            *r == self.spec_region(),
    {
        &self.region
    }

    /// How long generated tokens stay valid, in milliseconds.
    pub fn expires_in(&self) -> (r: u64)
        ensures
            r == self.spec_expires_in(),
    {
        self.expires_in_ms
    }

    /// The configured AWS region.
    pub closed spec fn spec_region(&self) -> Option<String> {
        self.region
    }

    /// The configured token lifetime in milliseconds.
    pub closed spec fn spec_expires_in(&self) -> u64 {
        self.expires_in_ms
    }
}

impl Default for AwsRdsSignerConfig {
    /// An empty configuration: no region, zero token lifetime.  A zero
    /// lifetime means a fetched token is never considered fresh; the
    /// builder's default of 15 minutes applies only to built
    /// configurations.
    fn default() -> (r: Self)
        ensures
            r.spec_region() is None,
            r.spec_expires_in() == 0,
    {
        AwsRdsSignerConfig { region: None, expires_in_ms: 0 }
    }
}

/// Builder for an [`AwsRdsSignerConfig`].
#[derive(Debug)]
pub struct AwsRdsSignerConfigBuilder {
    region: Option<String>,
    expires_in_ms: Option<u64>,
}

impl AwsRdsSignerConfigBuilder {
    /// Sets the AWS region where the RDS instance is located; an empty
    /// string clears it.
    pub fn region(self, region: String) -> (r: Self)
        ensures
            r.spec_region() == if region@.len() == 0 {
                Option::<String>::None
            } else {
                Some(region)
            },
            r.spec_expires_in() == self.spec_expires_in(),
    {
        if region.as_str().is_empty() {
            AwsRdsSignerConfigBuilder { region: None, ..self }
        } else {
            AwsRdsSignerConfigBuilder { region: Some(region), ..self }
        }
    }

    /// Sets the expiration duration of generated tokens, in milliseconds.
    pub fn expires_in(self, duration_ms: u64) -> (r: Self)
        ensures
            r.spec_expires_in() == Some(duration_ms),
            r.spec_region() == self.spec_region(),
    {
        AwsRdsSignerConfigBuilder { expires_in_ms: Some(duration_ms), ..self }
    }

    /// Builds the configuration.  An unset expiration falls back to the
    /// default of 15 minutes; the region stays unset when never given.
    pub fn build(self) -> (r: AwsRdsSignerConfig)
        ensures
            r.spec_region() == self.spec_region(),
            r.spec_expires_in() == match self.spec_expires_in() {
                Some(d) => d,
                None => DEFAULT_EXPIRES_IN_MS,
            },
    {
        let expires_in_ms = match self.expires_in_ms {
            Some(d) => d,
            None => DEFAULT_EXPIRES_IN_MS,
        };
        AwsRdsSignerConfig { region: self.region, expires_in_ms }
    }

    /// The region set so far.
    pub closed spec fn spec_region(&self) -> Option<String> {
        self.region
    }

    /// The token lifetime set so far.
    pub closed spec fn spec_expires_in(&self) -> Option<u64> {
        self.expires_in_ms
    }
}

/// Manager-level authentication configuration: IAM authentication is on
/// exactly when a signer configuration is present.
#[derive(Clone, Debug)]
pub struct ManagerConfig {
    /// The AWS RDS signer configuration, when IAM authentication is
    /// wanted.
    pub aws_rds_signer_config: Option<AwsRdsSignerConfig>,
}

impl Default for ManagerConfig {
    /// IAM authentication off.
    fn default() -> (r: Self)
        ensures
            r.aws_rds_signer_config is None,
    {
        ManagerConfig { aws_rds_signer_config: None }
    }
}

impl ManagerConfig {
    /// Whether AWS RDS IAM authentication is configured and enabled.
    pub fn is_rds_signer_enabled(&self) -> (r: bool)
        ensures
            r == (self.aws_rds_signer_config is Some),
    {
        self.aws_rds_signer_config.is_some()
    }
}

} // verus!
