use cgp_patterns::component::{CanUseComponent, HasField};
use cgp_patterns::contexts::{App, AppConfig, CanUseApp};
use cgp_patterns::failure::{Cause, Failure, FailureKind};
use cgp_patterns::schema::{FromJson, SchemaMismatch, ToJson};
use cgp_patterns::text::ToText;
use cgp_patterns::traits::{
    CanLoadConfig, CanRaiseError, CanWrapError, ConfigLoaderComponent, ConfigPath,
    ErrLoadJsonConfig, ErrorWrapperComponent, FileError, LoadJsonConfigAction,
};
use cgp_patterns::{FormatAsJsonString, StringFormatter};
use serde_json::Value;
use std::marker::PhantomData;

fn app() -> App {
    App { config_path: String::from("config.json") }
}

fn parser_line(raw: &[u8]) -> String {
    serde_json::from_slice::<Value>(raw).unwrap_err().to_string()
}

fn wired<Context: CanUseApp>() {}

fn uses<Context: CanUseComponent<Component, Params>, Component, Params>() {}

#[test]
fn the_registry_of_the_app_is_wired() {
    wired::<App>();
    uses::<App, ConfigLoaderComponent, ()>();
    uses::<App, ErrorWrapperComponent, ErrLoadJsonConfig>();
}

#[test]
fn a_config_is_loaded_from_the_bytes_of_the_file() {
    let bytes = b"{\"secret\": \"hunter2\"}".to_vec();
    assert_eq!(app().load_config(Ok(bytes)), Ok(AppConfig { secret: String::from("hunter2") }));
}

#[test]
fn a_config_that_was_written_loads_as_it_was() {
    let configs = [
        AppConfig { secret: String::from("hunter2") },
        AppConfig { secret: String::new() },
        AppConfig { secret: String::from("with \"quotes\", \\ and \n newline, and ключ") },
    ];
    for config in configs {
        let written = <FormatAsJsonString as StringFormatter<AppConfig>>::format_to_string(&config).unwrap();
        assert_eq!(app().load_config(Ok(written.into_bytes())), Ok(config));
    }
}

#[test]
fn a_config_is_written_as_a_json_object() {
    let config = AppConfig { secret: String::from("hunter2") };
    assert_eq!(
        <FormatAsJsonString as StringFormatter<AppConfig>>::format_to_string(&config).unwrap(),
        "{\"secret\":\"hunter2\"}"
    );
    assert_eq!(AppConfig::from_json(&config.to_json()), Ok(config));
}

#[test]
fn a_file_that_cannot_be_read_is_a_transport_failure_with_the_path() {
    let read = Err(FileError { message: String::from("No such file or directory (os error 2)") });
    let failure = app().load_config(read).unwrap_err();
    assert_eq!(failure.kind(), FailureKind::Transport);
    assert_eq!(
        failure.cause(),
        &Cause::Io { message: String::from("No such file or directory (os error 2)") }
    );
    assert_eq!(
        failure.chain(),
        vec![
            String::from("error when reading config file at path config.json"),
            String::from("No such file or directory (os error 2)"),
        ]
    );
}

#[test]
fn a_file_of_malformed_json_is_a_format_failure_with_the_path() {
    for raw in [&b"{\"secret\": "[..], &b"not json"[..], &b""[..], &b"{\"secret\": \"a\"} x"[..], &b"\xff\xfe"[..]] {
        let failure = app().load_config(Ok(raw.to_vec())).unwrap_err();
        assert_eq!(failure.kind(), FailureKind::Format);
        assert_eq!(failure.cause(), &Cause::Json { message: parser_line(raw) });
        assert_eq!(
            failure.chain(),
            vec![
                String::from("error when parsing JSON config file at path config.json"),
                parser_line(raw),
            ]
        );
    }
}

#[test]
fn the_line_of_the_parser_is_kept_under_the_path() {
    let failure = app().load_config(Ok(b"{".to_vec())).unwrap_err();
    assert_eq!(
        failure.chain(),
        vec![
            String::from("error when parsing JSON config file at path config.json"),
            String::from("EOF while parsing an object at line 1 column 1"),
        ]
    );
}

#[test]
fn json_of_another_shape_is_a_format_failure_with_the_path() {
    for raw in [&b"{}"[..], &b"{\"secret\": 5}"[..], &b"[]"[..], &b"\"secret\""[..], &b"{\"Secret\": \"a\"}"[..]] {
        let failure = app().load_config(Ok(raw.to_vec())).unwrap_err();
        assert_eq!(failure.kind(), FailureKind::Format);
        assert_eq!(failure.cause(), &Cause::Schema { field: String::from("secret") });
        assert_eq!(
            failure.chain(),
            vec![
                String::from("error when parsing JSON config file at path config.json"),
                String::from("missing or invalid field `secret`"),
            ]
        );
    }
}

#[test]
fn the_path_in_the_annotation_is_that_of_the_app() {
    let app = App { config_path: String::from("/etc/app/settings.json") };
    let failure = app.load_config(Err(FileError { message: String::from("denied") })).unwrap_err();
    assert_eq!(
        failure.annotation(0),
        Some(&String::from("error when reading config file at path /etc/app/settings.json"))
    );
    assert_eq!(app.get_field(PhantomData::<ConfigPath>), "/etc/app/settings.json");
}

#[test]
fn the_detail_of_loading_says_what_was_being_done() {
    let reading = ErrLoadJsonConfig {
        config_path: String::from("a.json"),
        action: LoadJsonConfigAction::ReadFile,
    };
    let parsing = ErrLoadJsonConfig {
        config_path: String::from("a.json"),
        action: LoadJsonConfigAction::ParseFile,
    };
    assert_eq!(reading.to_text(), "error when reading config file at path a.json");
    assert_eq!(parsing.to_text(), "error when parsing JSON config file at path a.json");
}

#[test]
fn the_app_raises_and_wraps_by_type() {
    let raised = <App as CanRaiseError<FileError>>::raise_error(FileError { message: String::from("m") });
    assert_eq!(raised, Failure::raise(Cause::Io { message: String::from("m") }));
    let raised = <App as CanRaiseError<SchemaMismatch>>::raise_error(SchemaMismatch { field: String::from("f") });
    assert_eq!(raised, Failure::raise(Cause::Schema { field: String::from("f") }));
    let error = serde_json::from_str::<Value>("[").unwrap_err();
    let line = error.to_string();
    let raised = <App as CanRaiseError<serde_json::Error>>::raise_error(error);
    assert_eq!(raised, Failure::raise(Cause::Json { message: line }));
    let detail = ErrLoadJsonConfig {
        config_path: String::from("a.json"),
        action: LoadJsonConfigAction::ParseFile,
    };
    let wrapped = <App as CanWrapError<ErrLoadJsonConfig>>::wrap_error(raised.clone(), detail);
    assert_eq!(
        wrapped,
        raised.wrap(String::from("error when parsing JSON config file at path a.json"))
    );
}
