//! Credentials and connection settings: what is kept in the secret store and
//! the settings file, and what the two together amount to.

use vstd::prelude::*;

verus! {

/// Name under which the application keeps its secrets.
pub const APP_SERVICE_NAME: &'static str = "io.github.rars.smart_energy_explorer";

/// The login of the data provider's account.
#[derive(Debug)]
pub struct GlowmarktCredentials {
    pub username: String,
    pub password: String,
}

/// The login of the broker of the live meter feed.
#[derive(Debug)]
pub struct MqttCredentials {
    pub username: String,
    pub password: String,
}

/// Broker address, topic and credentials of the live meter feed.
#[derive(Debug)]
pub struct MqttSettings {
    pub hostname: String,
    pub topic: String,
    pub username: String,
    pub password: String,
}

/// The provider login as the user interface gets it; empty where none is
/// stored.
#[derive(Debug)]
pub struct GlowmarktCredentialsResponse {
    pub username: String,
    pub password: String,
}

/// Whether a provider could be reached with the stored login.
#[derive(Clone, Copy, Debug, PartialEq, Eq, Structural)]
pub struct ConnectionTestResponse {
    pub active: bool,
}

/// What the assistant answers.
#[derive(Debug)]
pub struct AssistantResponse {
    pub answer: String,
}

/// What the rest of the application tells the listener of the live feed.
#[derive(Clone, Copy, Debug, PartialEq, Eq, Structural)]
pub enum MqttMessage {
    /// The settings have changed; a connection made with the old ones is to
    /// be given up.
    SettingsUpdated,
}

/// What looking for a login in the secret store comes to.
#[derive(Debug)]
pub enum StoredLogin {
    /// The login is stored in one entry, as it should be.
    Current { username: String, password: String },
    /// The login is stored the old way, name and password apart: it is to be
    /// stored in one entry, and the two old entries are to be deleted.
    Legacy { username: String, password: String },
    /// No login is stored.
    Absent,
}

/// The setting, or nothing where it is not set.
pub open spec fn or_empty(setting: Option<String>) -> Seq<char> {
    match setting {
        Some(text) => text@,
        None => Seq::empty(),
    }
}

fn text_or_empty(setting: Option<String>) -> (text: String)
    ensures
        text@ == or_empty(setting),
{
    match setting {
        Some(text) => text,
        None => String::new(),
    }
}

impl MqttSettings {
    /// Whether every field is filled in.
    pub open spec fn complete(&self) -> bool {
        &&& self.hostname@.len() > 0
        &&& self.topic@.len() > 0
        &&& self.username@.len() > 0
        &&& self.password@.len() > 0
    }

    /// A listener can only be started from settings with no empty field.
    pub fn is_complete(&self) -> (complete: bool)
        ensures
            complete == self.complete(),
    {
        !self.hostname.as_str().is_empty() && !self.topic.as_str().is_empty()
            && !self.username.as_str().is_empty() && !self.password.as_str().is_empty()
    }

    /// Settings with every field empty, as shown where nothing is set.
    pub fn empty() -> (settings: MqttSettings)
        ensures
            settings.hostname@.len() == 0,
            settings.topic@.len() == 0,
            settings.username@.len() == 0,
            settings.password@.len() == 0,
            !settings.complete(),
    {
        MqttSettings {
            hostname: String::new(),
            topic: String::new(),
            username: String::new(),
            password: String::new(),
        }
    }
}

/// The settings of the live feed, put together from the settings file and
/// the secret store. There are settings as soon as a login is stored or one
/// of host name and topic is set; what is not set is empty.
pub fn get_mqtt_settings_opt(
    hostname: Option<String>,
    topic: Option<String>,
    credentials: Option<MqttCredentials>,
) -> (settings: Option<MqttSettings>)
    ensures
        settings is None <==> credentials is None && hostname is None && topic is None,
        settings matches Some(found) ==> {
            &&& found.hostname@ == or_empty(hostname)
            &&& found.topic@ == or_empty(topic)
            &&& match credentials {
                Some(login) => found.username == login.username && found.password
                    == login.password,
                None => found.username@.len() == 0 && found.password@.len() == 0,
            }
        },
{
    match credentials {
        Some(login) => Some(
            MqttSettings {
                hostname: text_or_empty(hostname),
                topic: text_or_empty(topic),
                username: login.username,
                password: login.password,
            },
        ),
        None => {
            if hostname.is_none() && topic.is_none() {
                None
            } else {
                Some(
                    MqttSettings {
                        hostname: text_or_empty(hostname),
                        topic: text_or_empty(topic),
                        username: String::new(),
                        password: String::new(),
                    },
                )
            }
        },
    }
}

/// What the secret store holds of a login. The single entry counts where it
/// is there; the two old entries count only without it, and only together.
pub fn stored_login(
    combined: Option<(String, String)>,
    legacy_username: Option<String>,
    legacy_password: Option<String>,
) -> (login: StoredLogin)
    ensures
        login == (match combined {
            Some((username, password)) => StoredLogin::Current { username, password },
            None => match (legacy_username, legacy_password) {
                (Some(username), Some(password)) => StoredLogin::Legacy { username, password },
                _ => StoredLogin::Absent,
            },
        }),
{
    match combined {
        Some((username, password)) => StoredLogin::Current { username, password },
        None => match (legacy_username, legacy_password) {
            (Some(username), Some(password)) => StoredLogin::Legacy { username, password },
            _ => StoredLogin::Absent,
        },
    }
}

impl StoredLogin {
    /// Whether the old entries are to be replaced by a single one.
    pub fn needs_migration(&self) -> (needed: bool)
        ensures
            needed == (self is Legacy),
    {
        match self {
            StoredLogin::Legacy { .. } => true,
            _ => false,
        }
    }

    /// The login as the provider's credentials, if there is one.
    pub fn into_glowmarkt(self) -> (credentials: Option<GlowmarktCredentials>)
        ensures
            credentials == (match self {
                StoredLogin::Current { username, password } => Some(
                    GlowmarktCredentials { username, password },
                ),
                StoredLogin::Legacy { username, password } => Some(
                    GlowmarktCredentials { username, password },
                ),
                StoredLogin::Absent => None,
            }),
    {
        match self {
            StoredLogin::Current { username, password } => Some(
                GlowmarktCredentials { username, password },
            ),
            StoredLogin::Legacy { username, password } => Some(
                GlowmarktCredentials { username, password },
            ),
            StoredLogin::Absent => None,
        }
    }

    /// The login as the broker's credentials, if there is one.
    pub fn into_mqtt(self) -> (credentials: Option<MqttCredentials>)
        ensures
            credentials == (match self {
                StoredLogin::Current { username, password } => Some(
                    MqttCredentials { username, password },
                ),
                StoredLogin::Legacy { username, password } => Some(
                    MqttCredentials { username, password },
                ),
                StoredLogin::Absent => None,
            }),
    {
        match self {
            StoredLogin::Current { username, password } => Some(
                MqttCredentials { username, password },
            ),
            StoredLogin::Legacy { username, password } => Some(
                MqttCredentials { username, password },
            ),
            StoredLogin::Absent => None,
        }
    }
}

/// The provider login for the user interface: what is stored, or two empty
/// fields.
pub fn get_glowmarkt_credentials(stored: Option<GlowmarktCredentials>) -> (shown:
    GlowmarktCredentialsResponse)
    ensures
        match stored {
            Some(login) => shown.username == login.username && shown.password == login.password,
            None => shown.username@.len() == 0 && shown.password@.len() == 0,
        },
{
    match stored {
        Some(login) => GlowmarktCredentialsResponse {
            username: login.username,
            password: login.password,
        },
        None => GlowmarktCredentialsResponse { username: String::new(), password: String::new() },
    }
}

} // verus!
