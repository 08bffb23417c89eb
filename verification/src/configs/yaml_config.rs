//! The configuration of allowed origins.

use vstd::prelude::*;

verus! {

/// The origins that may open a session.
#[derive(Debug, Clone, PartialEq, Eq)]
pub struct CorsConfig {
    pub origins: Vec<String>,
}

/// The configuration as its file gives it.
#[derive(Debug, Clone, PartialEq, Eq)]
pub struct YamlConfig {
    pub cors: CorsConfig,
}

impl YamlConfig {
    /// The origins to allow: those of the configuration, or the default
    /// origin alone where there is no configuration.
    pub fn origins_or(config: Option<YamlConfig>, default_origin: String) -> (r: Vec<String>)
        ensures
            r@ == match config {
                Some(c) => c.cors.origins@,
                None => seq![default_origin],
            },
    {
        match config {
            Some(c) => c.cors.origins,
            None => {
                let mut origins: Vec<String> = Vec::new();
                origins.push(default_origin);
                origins
            },
        }
    }
}

} // verus!
