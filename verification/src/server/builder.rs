//! Settings of a service before it is started.

use vstd::prelude::*;
use vstd::string::StringExecFns;

verus! {

/// The port a service listens on where none is set.
pub const DEFAULT_PORT: &'static str = "8000";

/// The environment a service runs in where none is set.
pub const DEFAULT_RUN_ENV: &'static str = "dev";

/// The environment in which a service hides its API description.
pub const PROD_ENV: &'static str = "prod";

/// The address on which a service listens on every interface.
pub const ANY_ADDRESS: &'static str = "0.0.0.0:";

/// Settings of a service.
pub struct Serwus<'a> {
    app_port: &'a str,
    run_env: &'a str,
    json_errors: bool,
}

impl Default for Serwus<'_> {
    /// Port 8000, environment `dev`, errors as the framework writes them.
    fn default() -> (settings: Self)
        ensures
            settings.spec_app_port() == DEFAULT_PORT@,
            settings.spec_run_env() == DEFAULT_RUN_ENV@,
            !settings.spec_json_errors(),
    {
        Serwus { app_port: DEFAULT_PORT, run_env: DEFAULT_RUN_ENV, json_errors: false }
    }
}

impl<'a> Serwus<'a> {
    /// The port to listen on.
    pub closed spec fn spec_app_port(&self) -> Seq<char> {
        self.app_port@
    }

    /// The environment the service runs in.
    pub closed spec fn spec_run_env(&self) -> Seq<char> {
        self.run_env@
    }

    /// Whether plain errors are rewritten as JSON.
    pub closed spec fn spec_json_errors(&self) -> bool {
        self.json_errors
    }

    /// Sets the port to listen on.
    pub fn set_app_port(self, app_port: &'a str) -> (settings: Self)
        ensures
            settings.spec_app_port() == app_port@,
            settings.spec_run_env() == self.spec_run_env(),
            settings.spec_json_errors() == self.spec_json_errors(),
    {
        let mut settings = self;
        settings.app_port = app_port;
        settings
    }

    /// Sets the environment the service runs in.
    pub fn set_run_env(self, run_env: &'a str) -> (settings: Self)
        ensures
            settings.spec_run_env() == run_env@,
            settings.spec_app_port() == self.spec_app_port(),
            settings.spec_json_errors() == self.spec_json_errors(),
    {
        let mut settings = self;
        settings.run_env = run_env;
        settings
    }

    /// Has every error that is not JSON already rewritten as JSON.
    pub fn json_errors(self) -> (settings: Self)
        ensures
            settings.spec_json_errors(),
            settings.spec_app_port() == self.spec_app_port(),
            settings.spec_run_env() == self.spec_run_env(),
    {
        let mut settings = self;
        settings.json_errors = true;
        settings
    }

    /// The port to listen on.
    pub fn app_port(&self) -> (port: &'a str)
        ensures
            port@ == self.spec_app_port(),
    {
        self.app_port
    }

    /// Whether plain errors are rewritten as JSON.
    pub fn rewrites_errors(&self) -> (r: bool)
        ensures
            r == self.spec_json_errors(),
    {
        self.json_errors
    }

    /// Whether the service runs in production.
    pub fn prod_env(&self) -> (r: bool)
        ensures
            r == (self.spec_run_env() == PROD_ENV@),
    {
        *self.run_env == *PROD_ENV
    }

    /// The address to bind: every interface, on the port that was set.
    pub fn bind_address(&self) -> (address: String)
        ensures
            address@ == ANY_ADDRESS@ + self.spec_app_port(),
    {
        let mut address = String::from_str(ANY_ADDRESS);
        address.append(self.app_port);
        address
    }
}

} // verus!
