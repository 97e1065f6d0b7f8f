//! The options of one deployment, as the operator gives them, and what they
//! resolve to.
use vstd::prelude::*;
use crate::cargo_toml::CargoToml;
use crate::connection::{choose_auth, clone_opt, opt_view, ConnectionParameters, ParameterError};
use crate::deploy::DeploymentPlan;
use crate::remote::{join2, join3};

verus! {

/// The options of one deployment.
pub struct PWPArgs {
    /// The starting directory.
    pub input: String,
    /// Host name or address of the server.
    pub host: String,
    /// User name on the server.
    pub username: String,
    /// Port of the remote-shell service.
    pub port: u16,
    /// Private key file to authenticate with.
    pub auth_file: Option<String>,
    /// Password to authenticate with, or passphrase of the key file.
    pub password: Option<String>,
    /// Name of the executable to deploy; the package name where absent.
    pub binary_name: Option<String>,
    /// Name of the service that runs the executable.
    pub service_name: Option<String>,
    /// Whether to build before deploying.
    pub build: bool,
    /// Whether to install the service's unit file.
    pub install_service: bool,
    /// Working directory of the service.
    pub working_directory: Option<String>,
    /// Command that builds the project.
    pub build_command: String,
    /// Whether to advance the package version.
    pub increment_version: bool,
    /// Whether to tag the package version.
    pub create_tag: bool,
}

/// The executable's name: the one given, else the package's.
pub open spec fn binary_of(a: PWPArgs, package: CargoToml) -> Seq<char> {
    match a.binary_name {
        Some(b) => b@,
        None => package.name@,
    }
}

/// The remote directory that receives the executable.
pub open spec fn remote_dir_of(a: PWPArgs) -> Seq<char> {
    "/home/"@ + a.username@ + "/.local/bin/"@
}

impl PWPArgs {
    /// The connection parameters: the host, port and user, and the key file
    /// (with the password as its passphrase) where one is given, else the
    /// password. Without either there are none.
    pub fn connection_parameters(&self) -> (r: Result<ConnectionParameters, ParameterError>)
        ensures
            r is Ok <==> (self.auth_file is Some || self.password is Some),
            r matches Ok(c) ==> c.host@ == self.host@ && c.port == self.port && c.username@
                == self.username@ && match c.auth {
                crate::connection::AuthMethod::KeyFile { path, passphrase } => self.auth_file
                    == Some(path) && passphrase == self.password,
                crate::connection::AuthMethod::Password(p) => self.auth_file is None
                    && self.password == Some(p),
            },
    {
        match choose_auth(&self.auth_file, &self.password) {
            Ok(auth) => Ok(
                ConnectionParameters {
                    host: self.host.clone(),
                    port: self.port,
                    username: self.username.clone(),
                    auth,
                },
            ),
            Err(e) => Err(e),
        }
    }

    /// The plan of the run: the executable is taken from the release build
    /// directory and sent to `~/.local/bin/` of the remote user; the service
    /// works in the given directory, else in `~/.local/<binary>`, and is
    /// described by the package description, else by its own name.
    pub fn deployment_plan(&self, package: &CargoToml) -> (r: DeploymentPlan)
        ensures
            r.binary_name@ == binary_of(*self, *package),
            r.local_path@ == "./target/release/"@ + binary_of(*self, *package),
            r.remote_dir@ == remote_dir_of(*self),
            r.remote_path@ == remote_dir_of(*self) + binary_of(*self, *package),
            opt_view(r.service_name) == opt_view(self.service_name),
            r.install_service == self.install_service,
            r.working_directory@ == match self.working_directory {
                Some(w) => w@,
                None => "/home/"@ + self.username@ + "/.local/"@ + binary_of(*self, *package),
            },
            r.description@ == match package.description {
                Some(d) => d@,
                None => match self.service_name {
                    Some(s) => s@,
                    None => Seq::empty(),
                },
            },
    {
        let binary = match &self.binary_name {
            Some(b) => b.clone(),
            None => package.name.clone(),
        };
        let local_path = join2("./target/release/", binary.as_str());
        let remote_dir = join3("/home/", self.username.as_str(), "/.local/bin/");
        let remote_path = join2(remote_dir.as_str(), binary.as_str());
        let working_directory = match &self.working_directory {
            Some(w) => w.clone(),
            None => {
                let home = join3("/home/", self.username.as_str(), "/.local/");
                join2(home.as_str(), binary.as_str())
            },
        };
        let description = match &package.description {
            Some(d) => d.clone(),
            None => match &self.service_name {
                Some(s) => s.clone(),
                None => String::new(),
            },
        };
        DeploymentPlan {
            binary_name: binary,
            local_path,
            remote_dir,
            remote_path,
            service_name: clone_opt(&self.service_name),
            install_service: self.install_service,
            working_directory,
            description,
        }
    }
}

} // verus!
