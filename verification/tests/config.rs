//! Connection configuration handling and the rendering style of
//! completed tasks.

use console::Style;
use yesser_todo::dispatch::process_cloud_config;
use yesser_todo::errors::CommandError;
use yesser_todo::errors::DatabaseError;
use yesser_todo::remote::connect_config;
use yesser_todo::remote::handle_connect;
use yesser_todo::remote::handle_disconnect;
use yesser_todo::remote::ConfigRemoval;
use yesser_todo::requests::CloudCommand;
use yesser_todo::CloudConfig;
use yesser_todo::DEFAULT_PORT;

#[test]
fn connect_uses_given_port() {
    let cfg = connect_config(&CloudCommand {
        host: "example.com".to_string(),
        port: Some("8080".to_string()),
    });
    assert_eq!(cfg.host, "example.com");
    assert_eq!(cfg.port, "8080");
}

#[test]
fn connect_falls_back_to_default_port() {
    let cfg = connect_config(&CloudCommand {
        host: "example.com".to_string(),
        port: None,
    });
    assert_eq!(cfg.host, "example.com");
    assert_eq!(cfg.port, DEFAULT_PORT);
    assert_eq!(cfg.port, "6982");
}

#[test]
fn connect_reports_save_failures() {
    assert!(handle_connect(Ok(())).is_ok());
    let r = handle_connect(Err(DatabaseError::UserDirsError));
    match r {
        Err(e) => assert_eq!(
            e.message(),
            "Unable to save server configuration: Could not get user config directory location!"
        ),
        other => panic!("expected an error, got {:?}", other),
    }
}

#[test]
fn disconnect_without_link_is_an_error() {
    let r = handle_disconnect(ConfigRemoval::NoConfig);
    match r {
        Err(CommandError::UnlinkedError) => {}
        other => panic!("expected the unlinked error, got {:?}", other),
    }
    assert_eq!(r.unwrap_err().message(), "You're already unlinked!");
}

#[test]
fn disconnect_with_link_succeeds() {
    assert!(handle_disconnect(ConfigRemoval::Removed).is_ok());
    let r = handle_disconnect(ConfigRemoval::Failed(DatabaseError::IOError(
        "disk full".to_string(),
    )));
    match r {
        Err(CommandError::DataError { what, .. }) => assert_eq!(what, "configuration"),
        other => panic!("expected a data error, got {:?}", other),
    }
}

#[test]
fn cloud_config_new_copies_both_fields() {
    let cfg = CloudConfig::new(&"h".to_string(), &"1".to_string());
    assert_eq!(cfg.host, "h");
    assert_eq!(cfg.port, "1");
}

#[test]
fn test_process_cloud_config_returns_option() {
    let result = process_cloud_config(Ok(None));
    assert!(result.is_some() || result.is_none());
}

#[test]
fn test_process_cloud_config_tuple_structure() {
    let loaded = Ok(Some(CloudConfig {
        host: "example.com".to_string(),
        port: "6982".to_string(),
    }));
    if let Some(cfg) = process_cloud_config(loaded) {
        assert!(!cfg.host.is_empty() || cfg.host.is_empty());
        assert!(!cfg.port.is_empty() || cfg.port.is_empty());
    }
}

#[test]
fn unreadable_config_selects_local_mode() {
    let loaded = Err(DatabaseError::JsonError("trailing characters".to_string()));
    assert!(process_cloud_config(loaded).is_none());
}

#[test]
fn test_done_style_exists() {
    let style = Style::new().strikethrough().green();
    let styled = style.apply_to("test");
    let styled_str = format!("{}", styled);
    assert!(styled_str.contains("test"));
}

#[test]
fn test_done_style_properties() {
    let style = Style::new().strikethrough().green();
    let test_text = "completed task";
    let styled = style.apply_to(test_text);
    let output = format!("{}", styled);
    assert!(output.len() >= test_text.len());
}
