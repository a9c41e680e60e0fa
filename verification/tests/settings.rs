use image_resize::command::{parse_command, AppCommand, UnknownCommand};
use image_resize::config::{app_addr_text, required_var, resolve_settings, EnvValues};

fn full_env() -> EnvValues {
    EnvValues {
        r2_endpoint: Some("https://example-account.r2.cloudflarestorage.com".to_owned()),
        r2_bucket: Some("example-bucket".to_owned()),
        r2_access_key_id: Some("example-access-key".to_owned()),
        r2_secret_access_key: Some("example-secret-key".to_owned()),
        ..EnvValues::default()
    }
}

#[test]
fn optional_variables_have_defaults() {
    let settings = resolve_settings(full_env()).unwrap();
    assert_eq!(settings.public_base_url, "http://127.0.0.1:3000");
    assert_eq!(settings.sqlite_path, "data/image_upload.db");
    assert_eq!(settings.static_dir, "static");
    assert_eq!(settings.r2.region, "auto");
    assert_eq!(settings.r2.bucket, "example-bucket");
    assert_eq!(app_addr_text(None), "127.0.0.1:3000");
    assert_eq!(app_addr_text(Some("0.0.0.0:8080".to_owned())), "0.0.0.0:8080");
}

#[test]
fn given_optional_values_are_kept() {
    let env = EnvValues {
        public_base_url: Some("https://img.example.com".to_owned()),
        r2_region: Some("weur".to_owned()),
        ..full_env()
    };
    let settings = resolve_settings(env).unwrap();
    assert_eq!(settings.public_base_url, "https://img.example.com");
    assert_eq!(settings.r2.region, "weur");
}

#[test]
fn blank_required_variable_counts_as_missing() {
    let err = required_var("R2_BUCKET", Some(" \t\n".to_owned())).unwrap_err();
    assert_eq!(err.key, "R2_BUCKET");
    assert_eq!(err.message(), "missing required environment variable R2_BUCKET");
    assert_eq!(required_var("R2_BUCKET", Some(" b ".to_owned())).unwrap(), " b ");
    assert_eq!(required_var("R2_BUCKET", None).unwrap_err().key, "R2_BUCKET");
}

#[test]
fn first_missing_required_variable_is_reported() {
    let env = EnvValues {
        r2_bucket: None,
        r2_secret_access_key: Some(String::new()),
        ..full_env()
    };
    assert_eq!(resolve_settings(env).unwrap_err().key, "R2_BUCKET");
    let env = EnvValues {
        r2_secret_access_key: Some(String::new()),
        ..full_env()
    };
    assert_eq!(resolve_settings(env).unwrap_err().key, "R2_SECRET_ACCESS_KEY");
}

#[test]
fn commands_are_recognised() {
    assert_eq!(parse_command(&vec![]), Ok(AppCommand::Serve));
    assert_eq!(parse_command(&vec!["cleanup".to_owned()]), Ok(AppCommand::Cleanup));
    let err = parse_command(&vec!["serve".to_owned()]).unwrap_err();
    assert_eq!(
        err,
        UnknownCommand {
            command: "serve".to_owned()
        }
    );
    assert_eq!(
        err.message(),
        "unknown command `serve`; supported commands are `cleanup` or no command"
    );
    let err = parse_command(&vec!["cleanup".to_owned(), "now".to_owned()]).unwrap_err();
    assert_eq!(err.command, "cleanup");
}

#[test]
fn blank_means_what_char_is_whitespace_says() {
    for u in 0u32..=0x10FFFF {
        if let Some(c) = char::from_u32(u) {
            assert_eq!(
                image_resize::text::is_white_space(c),
                c.is_whitespace(),
                "U+{u:04X}"
            );
        }
    }
}
