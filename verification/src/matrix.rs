//! The chat channel's service: holds the configuration and checks it. The
//! authenticated session is a process-wide resource owned by the
//! application, initialized once and reused; planning and rendering for
//! this channel live in `dispatch` and `render`.

use vstd::prelude::*;
use crate::config::{ConfigError, MatrixConfig, spec_validate_matrix, validate_matrix_config};

verus! {

/// The chat channel's service.
pub struct MatrixService {
    pub config: MatrixConfig,
}

impl MatrixService {
    /// A service over the given configuration; no session is opened.
    pub fn new(config: MatrixConfig) -> (r: Self)
        ensures
            r.config == config,
    {
        MatrixService { config }
    }

    /// The configuration.
    pub fn config(&self) -> (r: &MatrixConfig)
        ensures
            *r == self.config,
    {
        &self.config
    }

    /// The configuration, for changing.
    pub fn config_mut(&mut self) -> (r: &mut MatrixConfig)
        ensures
            *r == old(self).config,
            final(self).config == *final(r),
    {
        &mut self.config
    }

    /// Checks the configuration for completeness and well-formed room
    /// identifiers; fails fast with the first violated invariant.
    pub fn validate_config(&self) -> (r: Result<(), ConfigError>)
        ensures
            match r {
                Ok(()) => spec_validate_matrix(self.config) is None,
                Err(e) => spec_validate_matrix(self.config) == Some(e),
            },
    {
        validate_matrix_config(&self.config)
    }
}

} // verus!
