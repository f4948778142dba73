//! How the host starts: over TLS where it can, over plain HTTP where it cannot.

use vstd::prelude::*;

verus! {

/// The port for HTTPS.
pub const HTTPS_PORT: u16 = 8443;

/// The port for plain HTTP.
pub const HTTP_PORT: u16 = 3000;

/// Where the certificate and its key are kept.
pub struct TlsFiles {
    pub cert: String,
    pub key: String,
}

/// Where the certificate and its key are kept: where the settings say, else in
/// the working directory.
pub fn tls_files(cert: Option<String>, key: Option<String>) -> (r: TlsFiles)
    ensures
        r.cert@ == (match cert {
            Some(path) => path@,
            None => "./cert.pem"@,
        }),
        r.key@ == (match key {
            Some(path) => path@,
            None => "./key.pem"@,
        }),
{
    let cert: String = match cert {
        Some(path) => path,
        None => "./cert.pem".to_string(),
    };
    let key: String = match key {
        Some(path) => path,
        None => "./key.pem".to_string(),
    };
    TlsFiles { cert, key }
}

/// What was found out while starting: whether the certificate and the key are
/// files, then whether they could be loaded.
#[derive(Clone, Copy, Debug, PartialEq, Eq, Structural)]
pub enum StartEvent {
    Probed { cert_is_file: bool, key_is_file: bool },
    Loaded { ok: bool },
}

/// What to do next while starting.
#[derive(Clone, Copy, Debug, PartialEq, Eq, Structural)]
pub enum StartAction {
    LoadTls,
    ServeHttps { port: u16 },
    ServeHttp { port: u16 },
}

/// Decides what to do next while starting.
pub fn next_action(event: StartEvent) -> (r: StartAction)
    ensures
        r == (match event {
            StartEvent::Probed { cert_is_file, key_is_file } => if cert_is_file && key_is_file {
                StartAction::LoadTls
            } else {
                StartAction::ServeHttp { port: 3000 }
            },
            StartEvent::Loaded { ok } => if ok {
                StartAction::ServeHttps { port: 8443 }
            } else {
                StartAction::ServeHttp { port: 3000 }
            },
        }),
{
    match event {
        StartEvent::Probed { cert_is_file, key_is_file } => {
            if cert_is_file && key_is_file {
                StartAction::LoadTls
            } else {
                StartAction::ServeHttp { port: HTTP_PORT }
            }
        },
        StartEvent::Loaded { ok } => {
            if ok {
                StartAction::ServeHttps { port: HTTPS_PORT }
            } else {
                StartAction::ServeHttp { port: HTTP_PORT }
            }
        },
    }
}

} // verus!
