//! The configuration record the core reads and writes back: its validity
//! rules, its default values, and the decision of what a load attempt
//! resolves to. Reading the file from disk and decoding it are the embedding
//! program's work; it hands the outcome in as plain values.

use vstd::prelude::*;
use vstd::string::*;

verus! {

/// The persisted configuration record.
#[derive(Debug)]
pub struct AppConfig {
    pub audio_endpoint: String,
    pub audio_encoding: String,
    pub server_ip: String,
    pub server_port: u16,
    pub minimize_on_exit: bool,
    pub auto_start_server: bool,
    pub keep_last_state: bool,
    pub last_server_state: bool,
    pub notification_error: bool,
    pub notification_device_connect: bool,
    pub notification_device_disconnect: bool,
}

impl Clone for AppConfig {
    fn clone(&self) -> (r: Self)
        ensures
            r.audio_endpoint@ == self.audio_endpoint@,
            r.audio_encoding@ == self.audio_encoding@,
            r.server_ip@ == self.server_ip@,
            r.server_port == self.server_port,
            r.minimize_on_exit == self.minimize_on_exit,
            r.auto_start_server == self.auto_start_server,
            r.keep_last_state == self.keep_last_state,
            r.last_server_state == self.last_server_state,
            r.notification_error == self.notification_error,
            r.notification_device_connect == self.notification_device_connect,
            r.notification_device_disconnect == self.notification_device_disconnect,
    {
        AppConfig {
            audio_endpoint: self.audio_endpoint.clone(),
            audio_encoding: self.audio_encoding.clone(),
            server_ip: self.server_ip.clone(),
            server_port: self.server_port,
            minimize_on_exit: self.minimize_on_exit,
            auto_start_server: self.auto_start_server,
            keep_last_state: self.keep_last_state,
            last_server_state: self.last_server_state,
            notification_error: self.notification_error,
            notification_device_connect: self.notification_device_connect,
            notification_device_disconnect: self.notification_device_disconnect,
        }
    }
}

impl AppConfig {
    /// A record is valid when the server address, endpoint and encoding are
    /// non-empty and the port is non-zero.
    pub open spec fn is_valid(&self) -> bool {
        &&& self.server_ip@.len() > 0
        &&& self.server_port != 0
        &&& self.audio_endpoint@.len() > 0
        &&& self.audio_encoding@.len() > 0
    }

    /// Checks the record, reporting the first rule it breaks, in the fixed
    /// order: server address, port, endpoint, encoding.
    pub fn validate(&self) -> (r: Result<(), String>)
        ensures
            r is Ok <==> self.is_valid(),
            match r {
                Result::Ok(_) => true,
                Result::Err(msg) => if self.server_ip@.len() == 0 {
                    msg@ == "server_ip cannot be empty"@
                } else if self.server_port == 0 {
                    msg@ == "server_port must be between 1 and 65535"@
                } else if self.audio_endpoint@.len() == 0 {
                    msg@ == "audio_endpoint cannot be empty"@
                } else {
                    msg@ == "audio_encoding cannot be empty"@
                },
            },
    {
        if self.server_ip.as_str().is_empty() {
            return Err(String::from_str("server_ip cannot be empty"));
        }
        if self.server_port == 0 {
            return Err(String::from_str("server_port must be between 1 and 65535"));
        }
        if self.audio_endpoint.as_str().is_empty() {
            return Err(String::from_str("audio_endpoint cannot be empty"));
        }
        if self.audio_encoding.as_str().is_empty() {
            return Err(String::from_str("audio_encoding cannot be empty"));
        }
        Ok(())
    }

    /// The default record: probed address and default endpoint/encoding as
    /// handed in, port 65530, notifications on for errors and connects only,
    /// every behavioral flag off.
    pub fn with_defaults(server_ip: String, audio_endpoint: String, audio_encoding: String) -> (r:
        AppConfig)
        ensures
            r.server_ip@ == server_ip@,
            r.audio_endpoint@ == audio_endpoint@,
            r.audio_encoding@ == audio_encoding@,
            r.server_port == 65530,
            !r.minimize_on_exit,
            !r.auto_start_server,
            !r.keep_last_state,
            !r.last_server_state,
            r.notification_error,
            r.notification_device_connect,
            !r.notification_device_disconnect,
    {
        AppConfig {
            audio_endpoint,
            audio_encoding,
            server_ip,
            server_port: 65530,
            minimize_on_exit: false,
            auto_start_server: false,
            keep_last_state: false,
            last_server_state: false,
            notification_error: true,
            notification_device_connect: true,
            notification_device_disconnect: false,
        }
    }
}

/// Resolves a configuration load. A record that was read, decoded and found
/// valid is kept; a missing file, an undecodable one, or an invalid record
/// all fall back to the defaults. The second component says whether the
/// defaults must be written out as a fresh file, which is owed exactly when
/// no file existed.
pub fn load_or_create_config(file_existed: bool, parsed: Option<AppConfig>, defaults: AppConfig)
    -> (r: (AppConfig, bool))
    ensures
        r.1 == !file_existed,
        match parsed {
            Option::Some(cfg) => if file_existed && cfg.is_valid() {
                r.0 == cfg
            } else {
                r.0 == defaults
            },
            Option::None => r.0 == defaults,
        },
{
    if file_existed {
        match parsed {
            Some(cfg) => {
                if cfg.validate().is_ok() {
                    (cfg, false)
                } else {
                    (defaults, false)
                }
            },
            None => (defaults, false),
        }
    } else {
        (defaults, true)
    }
}

} // verus!
