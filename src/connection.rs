//! The parameters of the remote-shell connection and the single way it
//! authenticates.
use vstd::prelude::*;

verus! {

/// How the connection authenticates: exactly one method.
#[derive(Debug, Clone, PartialEq, Eq)]
pub enum AuthMethod {
    /// A private key file, with the passphrase that unlocks it, if any.
    KeyFile { path: String, passphrase: Option<String> },
    /// A plain password.
    Password(String),
}

/// Where to connect, as whom, and how to prove it.
pub struct ConnectionParameters {
    pub host: String,
    pub port: u16,
    pub username: String,
    pub auth: AuthMethod,
}

/// Why no connection parameters could be formed.
#[derive(PartialEq, Eq, Structural, Clone, Copy, Debug)]
pub enum ParameterError {
    /// Neither a key file nor a password was given.
    NoAuthMethod,
}

/// The characters of an optional text.
pub open spec fn opt_view(o: Option<String>) -> Option<Seq<char>> {
    match o {
        Some(s) => Some(s@),
        None => None,
    }
}

pub fn clone_opt(o: &Option<String>) -> (r: Option<String>)
    ensures
        r == *o,
{
    match o {
        Some(s) => Some(s.clone()),
        None => None,
    }
}

/// Chooses the authentication method: a key file where one is given, with the
/// password as its passphrase; else the password; else none.
pub fn choose_auth(key_file: &Option<String>, password: &Option<String>) -> (r: Result<
    AuthMethod,
    ParameterError,
>)
    ensures
        match r {
            Ok(AuthMethod::KeyFile { path, passphrase }) => key_file == &Some(path) && passphrase
                == *password,
            Ok(AuthMethod::Password(p)) => key_file is None && password == &Some(p),
            Err(e) => e == ParameterError::NoAuthMethod && key_file is None && password is None,
        },
        r is Ok <==> (key_file is Some || password is Some),
{
    match key_file {
        Some(path) => Ok(AuthMethod::KeyFile { path: path.clone(), passphrase: clone_opt(password) }),
        None => match password {
            Some(p) => Ok(AuthMethod::Password(p.clone())),
            None => Err(ParameterError::NoAuthMethod),
        },
    }
}

} // verus!
