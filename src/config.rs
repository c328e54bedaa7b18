//! Server settings and the placeholder providers of caches and resources.

use vstd::prelude::*;
use crate::text::owned;

verus! {

/// Settings of the server process.
#[derive(Debug, Clone, PartialEq)]
pub struct ServerConfig {
    pub host: String,
    pub port: u16,
    pub log_level: String,
    pub http_transport: bool,
    pub stdio_transport: bool,
    pub fhir_version: String,
    pub additional_packages: Vec<String>,
}

impl Default for ServerConfig {
    fn default() -> (r: ServerConfig)
        ensures
            r.host@ == "localhost"@,
            r.port == 3000,
            r.log_level@ == "info"@,
            r.http_transport,
            r.stdio_transport,
            r.fhir_version@ == "R4"@,
            r.additional_packages@.len() == 0,
    {
        ServerConfig {
            host: owned("localhost"),
            port: 3000,
            log_level: owned("info"),
            http_transport: true,
            stdio_transport: true,
            fhir_version: owned("R4"),
            additional_packages: Vec::new(),
        }
    }
}

/// Settings of the operation engine.
#[derive(Debug, Clone, PartialEq)]
pub struct FhirEngineConfig {
    pub fhir_version: String,
    pub additional_packages: Vec<String>,
}

impl Default for FhirEngineConfig {
    fn default() -> (r: FhirEngineConfig)
        ensures
            r.fhir_version@ == "R4"@,
            r.additional_packages@.len() == 0,
    {
        FhirEngineConfig { fhir_version: owned("R4"), additional_packages: Vec::new() }
    }
}

/// What is known of the engine in use.
#[derive(Debug, Clone, PartialEq)]
pub struct EngineInfo {
    pub initialized: bool,
    pub schema_provider: String,
    pub version: String,
}

/// Why the shared engine could not be handed out or set.
#[derive(Debug, Clone, Copy, PartialEq, Eq, Structural)]
pub enum EngineError {
    NotInitialized,
    AlreadyInitialized,
}

/// The engine shared by all requests: set once, then handed out; asking
/// before it is set is an error, not a panic.
pub struct SharedEngine<T> {
    engine: Option<T>,
}

impl<T> SharedEngine<T> {
    pub closed spec fn spec_engine(&self) -> Option<T> {
        self.engine
    }

    pub fn new() -> (r: SharedEngine<T>)
        ensures
            r.spec_engine() is None,
    {
        SharedEngine { engine: None }
    }

    /// Sets the engine; the first setting stays.
    pub fn init(&mut self, engine: T) -> (r: Result<(), EngineError>)
        ensures
            old(self).spec_engine() is None ==> r is Ok && final(self).spec_engine() == Some(engine),
            old(self).spec_engine() is Some ==> r == Err::<(), EngineError>(EngineError::AlreadyInitialized)
                && final(self).spec_engine() == old(self).spec_engine(),
    {
        if self.engine.is_some() {
            Err(EngineError::AlreadyInitialized)
        } else {
            self.engine = Some(engine);
            Ok(())
        }
    }

    /// The engine, once it is set.
    pub fn get(&self) -> (r: Result<&T, EngineError>)
        ensures
            match self.spec_engine() {
                Some(e) => r matches Ok(x) && *x == e,
                None => r == Err::<&T, EngineError>(EngineError::NotInitialized),
            },
    {
        match &self.engine {
            Some(e) => Ok(e),
            None => Err(EngineError::NotInitialized),
        }
    }
}

/// Cache provider; it holds nothing yet.
#[derive(Debug, Clone, Copy, PartialEq, Eq)]
pub struct CacheProvider;

impl CacheProvider {
    pub fn new() -> (r: CacheProvider) {
        CacheProvider
    }
}

/// Provider of example resources; it holds nothing yet.
#[derive(Debug, Clone, Copy, PartialEq, Eq)]
pub struct ExampleProvider;

impl ExampleProvider {
    pub fn new() -> (r: ExampleProvider) {
        ExampleProvider
    }
}

/// Provider of schemas; it holds nothing yet.
#[derive(Debug, Clone, Copy, PartialEq, Eq)]
pub struct SchemaProvider;

impl SchemaProvider {
    pub fn new() -> (r: SchemaProvider) {
        SchemaProvider
    }
}

} // verus!
