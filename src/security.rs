//! The security settings of a server and the authenticator and validator
//! made from them.

use vstd::prelude::*;
use crate::auth::{AuthConfig, Authenticator};
use crate::validation::{InputValidator, ValidationConfig};

verus! {

/// Security settings. `api_keys` is a set.
#[derive(Debug, Clone)]
pub struct SecurityConfig {
    pub enable_auth: bool,
    pub api_keys: Vec<String>,
    pub jwt_secret: Option<String>,
    pub max_expression_length: usize,
    pub max_expression_depth: usize,
    pub max_resource_size: usize,
    pub enable_request_logging: bool,
}

impl Default for SecurityConfig {
    fn default() -> (r: SecurityConfig)
        ensures
            r.enable_auth,
            r.api_keys@.len() == 0,
            r.jwt_secret is None,
            r.max_expression_length == 1000,
            r.max_expression_depth == 10,
            r.max_resource_size == 1024 * 1024,
            r.enable_request_logging,
    {
        SecurityConfig {
            enable_auth: true,
            api_keys: Vec::new(),
            jwt_secret: None,
            max_expression_length: 1000,
            max_expression_depth: 10,
            max_resource_size: 1024 * 1024,
            enable_request_logging: true,
        }
    }
}

pub struct SecurityProvider {
    authenticator: Authenticator,
    validator: InputValidator,
}

impl SecurityProvider {
    pub closed spec fn spec_authenticator(&self) -> Authenticator {
        self.authenticator
    }

    pub closed spec fn spec_validator(&self) -> InputValidator {
        self.validator
    }

    /// An authenticator with the settings' keys, secret and switches, and a
    /// validator with the settings' limits and the default blacklist.
    pub fn new(config: SecurityConfig) -> (r: SecurityProvider)
        ensures
            r.spec_authenticator().config().enable_auth == config.enable_auth,
            r.spec_authenticator().config().api_keys == config.api_keys,
            r.spec_authenticator().config().jwt_secret == config.jwt_secret,
            r.spec_authenticator().config().enable_request_logging == config.enable_request_logging,
            r.spec_validator().config().max_expression_length == config.max_expression_length,
            r.spec_validator().config().max_expression_depth == config.max_expression_depth,
            r.spec_validator().config().max_resource_size == config.max_resource_size,
            r.spec_validator().config().enable_expression_blacklist,
            r.spec_validator().config().blacklisted_functions@.len() == 4,
            r.spec_validator().config().blacklisted_functions@[0]@ == "eval"@,
            r.spec_validator().config().blacklisted_functions@[1]@ == "system"@,
            r.spec_validator().config().blacklisted_functions@[2]@ == "exec"@,
            r.spec_validator().config().blacklisted_functions@[3]@ == "shell"@,
    {
        let auth_config = AuthConfig {
            enable_auth: config.enable_auth,
            api_keys: config.api_keys,
            jwt_secret: config.jwt_secret,
            enable_request_logging: config.enable_request_logging,
        };
        let defaults = ValidationConfig::default();
        let validation_config = ValidationConfig {
            max_expression_length: config.max_expression_length,
            max_expression_depth: config.max_expression_depth,
            max_resource_size: config.max_resource_size,
            enable_expression_blacklist: defaults.enable_expression_blacklist,
            blacklisted_functions: defaults.blacklisted_functions,
        };
        SecurityProvider {
            authenticator: Authenticator::new(auth_config),
            validator: InputValidator::new(validation_config),
        }
    }

    pub fn authenticator(&self) -> (r: &Authenticator)
        ensures
            *r == self.spec_authenticator(),
    {
        &self.authenticator
    }

    pub fn validator(&self) -> (r: &InputValidator)
        ensures
            *r == self.spec_validator(),
    {
        &self.validator
    }
}

} // verus!
