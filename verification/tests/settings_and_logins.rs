use smart_energy_explorer::settings::get_glowmarkt_credentials;
use smart_energy_explorer::settings::get_mqtt_settings_opt;
use smart_energy_explorer::settings::stored_login;
use smart_energy_explorer::settings::AssistantResponse;
use smart_energy_explorer::settings::ConnectionTestResponse;
use smart_energy_explorer::settings::GlowmarktCredentials;
use smart_energy_explorer::settings::MqttCredentials;
use smart_energy_explorer::settings::MqttMessage;
use smart_energy_explorer::settings::MqttSettings;
use smart_energy_explorer::settings::StoredLogin;
use smart_energy_explorer::settings::APP_SERVICE_NAME;

fn feed(hostname: &str, topic: &str, username: &str, password: &str) -> MqttSettings {
    MqttSettings {
        hostname: hostname.to_string(),
        topic: topic.to_string(),
        username: username.to_string(),
        password: password.to_string(),
    }
}

fn text(value: &str) -> Option<String> {
    Some(value.to_string())
}

#[test]
fn settings_are_complete_only_with_every_field() {
    assert!(feed("tcp://broker:1883", "glow/#", "me", "secret").is_complete());
    assert!(!feed("", "glow/#", "me", "secret").is_complete());
    assert!(!feed("tcp://broker:1883", "", "me", "secret").is_complete());
    assert!(!feed("tcp://broker:1883", "glow/#", "", "secret").is_complete());
    assert!(!feed("tcp://broker:1883", "glow/#", "me", "").is_complete());
    assert!(feed(" ", " ", " ", " ").is_complete());
    assert!(!MqttSettings::empty().is_complete());
    assert_eq!(MqttSettings::empty().hostname, "");
}

#[test]
fn stored_login_makes_settings_even_without_host_and_topic() {
    let login = || Some(MqttCredentials { username: "me".to_string(), password: "secret".to_string() });
    let settings = get_mqtt_settings_opt(None, None, login()).unwrap();
    assert_eq!(
        (settings.hostname.as_str(), settings.topic.as_str()),
        ("", "")
    );
    assert_eq!((settings.username.as_str(), settings.password.as_str()), ("me", "secret"));
    let settings = get_mqtt_settings_opt(text("tcp://broker"), text("glow/#"), login()).unwrap();
    assert_eq!(settings.hostname, "tcp://broker");
    assert_eq!(settings.topic, "glow/#");
    assert!(settings.is_complete());
}

#[test]
fn host_or_topic_alone_makes_settings_without_login() {
    let settings = get_mqtt_settings_opt(text("tcp://broker"), None, None).unwrap();
    assert_eq!(settings.hostname, "tcp://broker");
    assert_eq!(settings.topic, "");
    assert_eq!(settings.username, "");
    assert_eq!(settings.password, "");
    let settings = get_mqtt_settings_opt(None, text("glow/#"), None).unwrap();
    assert_eq!(settings.hostname, "");
    assert_eq!(settings.topic, "glow/#");
    assert!(get_mqtt_settings_opt(None, None, None).is_none());
    assert!(get_mqtt_settings_opt(text(""), None, None).is_some());
}

#[test]
fn single_entry_counts_before_the_old_ones() {
    let login = stored_login(Some(("new".to_string(), "pw".to_string())), text("old"), text("old pw"));
    assert!(!login.needs_migration());
    assert!(matches!(
        login,
        StoredLogin::Current { ref username, ref password } if username == "new" && password == "pw"
    ));
    let credentials = login.into_glowmarkt().unwrap();
    assert_eq!((credentials.username.as_str(), credentials.password.as_str()), ("new", "pw"));
}

#[test]
fn old_entries_count_only_together() {
    let login = stored_login(None, text("old"), text("old pw"));
    assert!(login.needs_migration());
    let credentials = login.into_mqtt().unwrap();
    assert_eq!((credentials.username.as_str(), credentials.password.as_str()), ("old", "old pw"));
    assert!(matches!(stored_login(None, text("old"), None), StoredLogin::Absent));
    assert!(matches!(stored_login(None, None, text("old pw")), StoredLogin::Absent));
    assert!(matches!(stored_login(None, None, None), StoredLogin::Absent));
    assert!(!stored_login(None, None, None).needs_migration());
    assert!(stored_login(None, None, None).into_glowmarkt().is_none());
    assert!(stored_login(None, text("old"), None).into_mqtt().is_none());
}

#[test]
fn provider_login_is_shown_empty_where_none_is_stored() {
    let shown = get_glowmarkt_credentials(Some(GlowmarktCredentials {
        username: "me@example.org".to_string(),
        password: "secret".to_string(),
    }));
    assert_eq!((shown.username.as_str(), shown.password.as_str()), ("me@example.org", "secret"));
    let shown = get_glowmarkt_credentials(None);
    assert_eq!((shown.username.as_str(), shown.password.as_str()), ("", ""));
}

#[test]
fn plain_answers_hold_what_they_are_given() {
    assert_eq!(APP_SERVICE_NAME, "io.github.rars.smart_energy_explorer");
    assert!(ConnectionTestResponse { active: true }.active);
    assert_eq!(AssistantResponse { answer: "42".to_string() }.answer, "42");
    assert_eq!(MqttMessage::SettingsUpdated, MqttMessage::SettingsUpdated);
}
