use vstd::prelude::*;
use vstd::string::*;

use crate::hashing::{
    argon2_params_valid, params_ok, ArgonParams, HashAlgorithm, HashEngine, HashVersion,
};

verus! {

/// Everything the service is configured with.
#[derive(Clone)]
pub struct MasterConfig {
    pub port: u16,
    pub mongodb: MongoConfig,
    pub argon2: Argon2Config,
}

/// Where the backing store is and how to log in to it.
#[derive(Clone)]
pub struct MongoConfig {
    pub address: String,
    pub username: String,
    pub password: String,
    pub auth_db: String,
    pub pw_db: String,
}

/// The password hash as configured: algorithm by name, version by number, costs, pepper.
#[derive(Clone)]
pub struct Argon2Config {
    pub pepper: String,
    pub algorithm: String,
    pub version: u8,
    pub m_cost: u32,
    pub t_cost: u32,
    pub p_cost: u32,
    pub output_len: usize,
}

/// Why a hashing configuration was refused.
#[derive(Clone, Copy, Debug, PartialEq, Eq, Structural)]
pub enum ConfigError {
    UnknownAlgorithm,
    UnknownVersion,
    InvalidParams,
}

/// The algorithm a configured name stands for.
pub open spec fn algorithm_named(name: Seq<char>) -> Option<HashAlgorithm> {
    if name == "Argon2d"@ {
        Some(HashAlgorithm::Argon2d)
    } else if name == "Argon2i"@ {
        Some(HashAlgorithm::Argon2i)
    } else if name == "Argon2id"@ {
        Some(HashAlgorithm::Argon2id)
    } else {
        None
    }
}

/// The revision a configured number stands for: 16 is 0x10, 19 is 0x13.
pub open spec fn version_numbered(v: u8) -> Option<HashVersion> {
    if v == 16 {
        Some(HashVersion::V0x10)
    } else if v == 19 {
        Some(HashVersion::V0x13)
    } else {
        None
    }
}

/// The parameters and pepper a configuration yields, or why it is refused; the algorithm
/// is judged first, then the version, then the costs and output length (argon2's bounds,
/// and 10 to 64 bytes, what a password hash holds).
pub open spec fn settings_of(c: Argon2Config) -> Result<(ArgonParams, Seq<char>), ConfigError> {
    match algorithm_named(c.algorithm@) {
        None => Err(ConfigError::UnknownAlgorithm),
        Some(algorithm) => match version_numbered(c.version) {
            None => Err(ConfigError::UnknownVersion),
            Some(version) => if !params_ok(c.m_cost, c.t_cost, c.p_cost, c.output_len) || !(10
                <= c.output_len <= 64) {
                Err(ConfigError::InvalidParams)
            } else {
                Ok(
                    (
                        ArgonParams {
                            algorithm,
                            version,
                            m_cost: c.m_cost,
                            t_cost: c.t_cost,
                            p_cost: c.p_cost,
                            output_len: c.output_len,
                        },
                        c.pepper@,
                    ),
                )
            },
        },
    }
}

/// The error `validate` reports: none where the configuration yields settings.
pub open spec fn config_check(c: Argon2Config) -> Result<(), ConfigError> {
    match settings_of(c) {
        Ok(_) => Ok(()),
        Err(e) => Err(e),
    }
}

impl Argon2Config {
    fn algorithm_of(&self) -> (r: Option<HashAlgorithm>)
        ensures
            r == algorithm_named(self.algorithm@),
    {
        if self.algorithm == String::from_str("Argon2d") {
            Some(HashAlgorithm::Argon2d)
        } else if self.algorithm == String::from_str("Argon2i") {
            Some(HashAlgorithm::Argon2i)
        } else if self.algorithm == String::from_str("Argon2id") {
            Some(HashAlgorithm::Argon2id)
        } else {
            None
        }
    }

    fn version_of(&self) -> (r: Option<HashVersion>)
        ensures
            r == version_numbered(self.version),
    {
        if self.version == 16 {
            Some(HashVersion::V0x10)
        } else if self.version == 19 {
            Some(HashVersion::V0x13)
        } else {
            None
        }
    }

    /// Checks the configuration: an unknown algorithm name, an unknown version, or costs
    /// and output length out of range each make it unusable, and the service must not start.
    pub fn validate(&self) -> (r: Result<(), ConfigError>)
        ensures
            r == config_check(*self),
    {
        if self.algorithm_of().is_none() {
            return Err(ConfigError::UnknownAlgorithm);
        }
        if self.version_of().is_none() {
            return Err(ConfigError::UnknownVersion);
        }
        if !argon2_params_valid(self.m_cost, self.t_cost, self.p_cost, self.output_len)
            || self.output_len < 10 || self.output_len > 64 {
            return Err(ConfigError::InvalidParams);
        }
        Ok(())
    }

    /// Builds the hashing context from a configuration that `validate` accepts.
    pub fn to_argon2(&self) -> (r: HashEngine)
        requires
            settings_of(*self) is Ok,
        ensures
            settings_of(*self) == Ok::<(ArgonParams, Seq<char>), ConfigError>(
                (r.argon(), r.secret()),
            ),
    {
        let algorithm = match self.algorithm_of() {
            Some(a) => a,
            None => HashAlgorithm::Argon2id,
        };
        let version = match self.version_of() {
            Some(v) => v,
            None => HashVersion::V0x13,
        };
        let params = ArgonParams {
            algorithm,
            version,
            m_cost: self.m_cost,
            t_cost: self.t_cost,
            p_cost: self.p_cost,
            output_len: self.output_len,
        };
        HashEngine::new(params, self.pepper.clone())
    }
}

} // verus!
