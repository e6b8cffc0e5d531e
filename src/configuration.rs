//! Application settings and the deployment environment.
use vstd::prelude::*;
use vstd::string::StringExecFns;

verus! {

/// Where the HTTP server listens and the base URL it is reached under.
pub struct AppSettings {
    pub host: String,
    pub port: String,
    pub base_url: String,
}

impl AppSettings {
    /// The `host:port` address to listen on.
    pub fn listen_address(&self) -> (r: String)
        ensures
            r@ == self.host@ + ":"@ + self.port@,
    {
        let mut r = String::from_str(self.host.as_str());
        r.append(":");
        r.append(self.port.as_str());
        r
    }
}

/// The deployment environment, which selects a configuration file.
#[derive(Clone, Copy, Debug, PartialEq, Eq, Structural)]
pub enum RunType {
    Dev,
    Prod,
}

/// The name of an environment.
pub open spec fn run_type_name(r: RunType) -> Seq<char> {
    match r {
        RunType::Dev => "dev"@,
        RunType::Prod => "prod"@,
    }
}

impl RunType {
    /// The environment's name.
    pub fn as_str(&self) -> (r: &'static str)
        ensures
            r@ == run_type_name(*self),
    {
        match self {
            RunType::Dev => "dev",
            RunType::Prod => "prod",
        }
    }

    /// Parses an environment's name; any other string is refused.
    pub fn try_from(val: String) -> (r: Result<RunType, &'static str>)
        ensures
            r matches Ok(t) ==> run_type_name(t) == val@,
            r is Err ==> val@ != "dev"@ && val@ != "prod"@,
            r matches Err(e) ==> e@ == "Failed to parse run type"@,
    {
        if val == String::from_str("dev") {
            Ok(RunType::Dev)
        } else if val == String::from_str("prod") {
            Ok(RunType::Prod)
        } else {
            Err("Failed to parse run type")
        }
    }

    /// The configuration file of the environment: `config/{name}.yaml`.
    pub fn config_file(&self) -> (r: String)
        ensures
            r@ == "config/"@ + run_type_name(*self) + ".yaml"@,
    {
        let mut r = String::from_str("config/");
        r.append(self.as_str());
        r.append(".yaml");
        r
    }
}

/// The base URL confirmation links are built under.
pub struct AppBaseUrl(pub String);

} // verus!
