use vstd::prelude::*;
use crate::shell::{ShellKind, is_uuid_text, new_token, is_lower_hex};
use crate::text::{same_text, trim_text, trimmed, trim_start, trim_end, is_ws};

verus! {

/// Folder of the per-user application-data directory that holds the agent.
pub const APP_FOLDER_NAME: &'static str = "RemoteController";

/// File of the data directory that holds the configuration.
pub const CONFIG_FILE: &'static str = "config.json";

/// File of the data directory that holds the client identifier.
pub const UUID_FILE: &'static str = "client_id.txt";

/// Server address used when none is configured.
pub const DEFAULT_SERVER_URL: &'static str = "http://127.0.0.1:5000";

/// Shell used when none is configured.
pub const DEFAULT_SHELL: &'static str = "powershell";

/// The persisted configuration of the agent.
#[derive(Clone, Debug)]
pub struct ClientConfig {
    pub server_url: String,
    pub shell: Option<String>,
}

/// What a configuration holds, as text.
pub type ConfigView = (Seq<char>, Option<Seq<char>>);

impl View for ClientConfig {
    type V = ConfigView;

    open spec fn view(&self) -> ConfigView {
        (
            self.server_url@,
            match self.shell {
                Some(s) => Some(s@),
                None => None,
            },
        )
    }
}

/// The configuration written when none exists.
pub open spec fn default_config() -> ConfigView {
    (DEFAULT_SERVER_URL@, Some(DEFAULT_SHELL@))
}

impl Default for ClientConfig {
    fn default() -> (r: ClientConfig)
        ensures
            r@ == default_config(),
    {
        ClientConfig {
            server_url: String::from_str(DEFAULT_SERVER_URL),
            shell: Some(String::from_str(DEFAULT_SHELL)),
        }
    }
}

/// The shell kind a configured shell name selects: `cmd` selects the
/// command shell, anything else (or nothing) PowerShell.
pub open spec fn shell_kind_for(shell: Option<Seq<char>>) -> ShellKind {
    match shell {
        Some(s) => if s == "cmd"@ {
            ShellKind::Cmd
        } else {
            ShellKind::PowerShell
        },
        None => ShellKind::PowerShell,
    }
}

impl ClientConfig {
    /// The shell kind this configuration selects.
    pub fn shell_kind(&self) -> (r: ShellKind)
        ensures
            r == shell_kind_for(self@.1),
    {
        match &self.shell {
            Some(s) => if same_text(s.as_str(), "cmd") {
                ShellKind::Cmd
            } else {
                ShellKind::PowerShell
            },
            None => ShellKind::PowerShell,
        }
    }

    /// The server address to use: the override when one is given, the
    /// configured address otherwise.
    pub fn effective_server_url(&self, override_url: Option<String>) -> (r: String)
        ensures
            r@ == match override_url {
                Some(u) => u@,
                None => self.server_url@,
            },
    {
        match override_url {
            Some(u) => u,
            None => self.server_url.clone(),
        }
    }
}

/// The configuration in effect after loading: the stored one, or the
/// default when there is none.
pub open spec fn loaded_config(stored: Option<ConfigView>) -> ConfigView {
    match stored {
        Some(c) => c,
        None => default_config(),
    }
}

/// A configuration to use, and whether it must be written out.
pub struct ConfigLoad {
    pub config: ClientConfig,
    pub write_default: bool,
}

/// Decides the configuration from what the data directory holds: a stored
/// configuration is used as it is; without one the default is used and
/// must be written.
pub fn read_or_create_config(stored: Option<ClientConfig>) -> (r: ConfigLoad)
    ensures
        r.config@ == loaded_config(
            match stored {
                Some(c) => Some(c@),
                None => None,
            },
        ),
        r.write_default <==> stored is None,
{
    match stored {
        Some(c) => ConfigLoad { config: c, write_default: false },
        None => ConfigLoad { config: ClientConfig::default(), write_default: true },
    }
}

/// Loading from an empty data directory gives the default configuration,
/// and loading again what was written then gives the same configuration.
pub proof fn lemma_config_defaulting()
    ensures
        loaded_config(None) == (DEFAULT_SERVER_URL@, Some(DEFAULT_SHELL@)),
        loaded_config(Some(loaded_config(None))) == loaded_config(None),
{
}

/// The identifier in effect given the stored file's contents.
pub open spec fn stored_identifier(contents: Seq<char>) -> Seq<char> {
    trimmed(contents)
}

/// An identifier to use, and whether it must be written out.
pub struct IdentifierChoice {
    pub token: String,
    pub write: bool,
}

/// Decides the client identifier from the identifier file's contents: a
/// stored identifier is used with surrounding white space removed and is
/// never regenerated; without one a fresh random token is made and must be
/// written.
pub fn read_or_create_uuid(stored: Option<&str>) -> (r: IdentifierChoice)
    ensures
        match stored {
            Some(c) => r.token@ == stored_identifier(c@) && !r.write,
            None => r.write && is_uuid_text(r.token@),
        },
{
    match stored {
        Some(c) => IdentifierChoice { token: trim_text(c), write: false },
        None => IdentifierChoice { token: new_token(), write: true },
    }
}

/// A freshly made identifier reads back unchanged, so every later load
/// returns the token the first load created.
pub proof fn lemma_identifier_stable(token: Seq<char>)
    requires
        is_uuid_text(token),
    ensures
        stored_identifier(token) == token,
        stored_identifier(stored_identifier(token)) == token,
{
    assert(is_lower_hex(token[0]));
    assert(!is_ws(token[0]));
    assert(trim_start(token) == token);
    assert(is_lower_hex(token[35]));
    assert(token.last() == token[35]);
    assert(trim_end(token) == token);
}

} // verus!
