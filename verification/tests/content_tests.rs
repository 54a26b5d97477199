use momitroll::config::{build_connection_uri, Config, ConfigFile, CredEnvVars, DbConfig,
    MigrationConfig};
use momitroll::content::{parse_content, DocValue, ParseError};
use momitroll::ds::MigrationStatus;
use momitroll::engine::{
    build_name, check_file, collection_listed, down_file_path, ensure_initialized,
    execution_result, unit_dir_path, unit_file_template, up_file_path, u64_to_string,
    MigrationError,
};
use momitroll::schema::create_collection_command;

fn obj(entries: Vec<(&str, DocValue)>) -> DocValue {
    DocValue::Obj(
        entries
            .into_iter()
            .map(|(k, v)| (k.to_string(), v))
            .collect(),
    )
}

fn text(s: &str) -> DocValue {
    DocValue::Text(s.to_string())
}

#[test]
fn parse_accepts_valid_content() {
    let command = obj(vec![("insert", text("users"))]);
    let doc = obj(vec![
        ("description", text("creates the users collection")),
        ("commands", DocValue::Arr(vec![command])),
    ]);
    let content = parse_content(doc).expect("structurally valid");
    assert_eq!(content.description, "creates the users collection");
    assert_eq!(content.commands.len(), 1);
    assert_eq!(
        content.commands[0],
        obj(vec![("insert", text("users"))])
    );
}

#[test]
fn parse_accepts_empty_command_sequence() {
    let doc = obj(vec![
        ("description", text("does nothing yet")),
        ("commands", DocValue::Arr(Vec::new())),
    ]);
    let content = parse_content(doc).expect("structurally valid");
    assert_eq!(content.description, "does nothing yet");
    assert!(content.commands.is_empty());
}

#[test]
fn parse_rejects_non_object_document() {
    assert_eq!(parse_content(DocValue::Int(3)), Err(ParseError::NotObject));
}

#[test]
fn parse_rejects_missing_description() {
    let doc = obj(vec![("commands", DocValue::Arr(Vec::new()))]);
    assert_eq!(parse_content(doc), Err(ParseError::MissingDescription));
}

#[test]
fn parse_rejects_non_string_description() {
    let doc = obj(vec![
        ("description", DocValue::Int(1)),
        ("commands", DocValue::Arr(Vec::new())),
    ]);
    assert_eq!(parse_content(doc), Err(ParseError::DescriptionNotText));
}

#[test]
fn parse_rejects_missing_commands() {
    let doc = obj(vec![("description", text("x"))]);
    assert_eq!(parse_content(doc), Err(ParseError::MissingCommands));
}

#[test]
fn string_commands_field_fails_before_any_command_runs() {
    // A commands field that is a string, not a sequence: `up` must fail
    // in the decoder, before a single command reaches the database, and
    // the record's status stays what it was.
    let doc = obj(vec![
        ("description", text("broken file")),
        ("commands", text("db.dropDatabase()")),
    ]);
    let record = momitroll::ds::Migration::new("1700000000_broken".to_string());
    let status_before = record.status;
    let parsed = parse_content(doc);
    assert_eq!(parsed, Err(ParseError::CommandsNotArray));
    // No command sequence ever came back, so nothing executed, and the
    // record was never updated.
    assert_eq!(record.status, status_before);
    assert_eq!(record.status, MigrationStatus::Pending);
}

#[test]
fn parse_rejects_non_object_command() {
    let doc = obj(vec![
        ("description", text("x")),
        ("commands", DocValue::Arr(vec![text("not an object")])),
    ]);
    assert_eq!(parse_content(doc), Err(ParseError::CommandNotObject));
}

#[test]
fn decimal_rendering_is_exact() {
    assert_eq!(u64_to_string(0), "0");
    assert_eq!(u64_to_string(7), "7");
    assert_eq!(u64_to_string(10), "10");
    assert_eq!(u64_to_string(1700000000), "1700000000");
    assert_eq!(u64_to_string(u64::MAX), "18446744073709551615");
}

#[test]
fn unit_name_and_paths_are_exact() {
    let name = build_name(1700000000, "add_users");
    assert_eq!(name, "1700000000_add_users");
    assert_eq!(unit_dir_path("migrations", &name), "migrations/1700000000_add_users");
    assert_eq!(
        up_file_path("migrations", &name),
        "migrations/1700000000_add_users/1700000000_add_users_up.json"
    );
    assert_eq!(
        down_file_path("migrations", &name),
        "migrations/1700000000_add_users/1700000000_add_users_down.json"
    );
}

#[test]
fn connection_uri_is_exact() {
    assert_eq!(
        build_connection_uri("root", "pw", "localhost", 27017),
        "mongodb://root:pw@localhost:27017/?authSource=admin"
    );
}

#[test]
fn template_is_valid_content_with_empty_commands() {
    let raw = unit_file_template();
    let value: serde_json::Value = serde_json::from_str(&raw).expect("the template is json");
    let map = value.as_object().expect("an object");
    assert!(map.get("description").expect("a description").is_string());
    assert_eq!(
        map.get("commands").expect("commands").as_array().expect("a sequence").len(),
        0
    );
}

#[test]
fn collection_name_gets_the_underscore_prefix() {
    let config = Config {
        migration: MigrationConfig {
            dir: "migrations".to_string(),
            changelog_coll_name: "changelog".to_string(),
        },
        db: DbConfig {
            host: "localhost".to_string(),
            port: 27017,
            name: "app".to_string(),
        },
        creds_env_vars: CredEnvVars {
            username: "MONGO_USER".to_string(),
            password: "MONGO_PASS".to_string(),
        },
    };
    assert_eq!(config.migration.coll_name(), "_changelog");
}

#[test]
fn config_file_extensions() {
    assert!(ConfigFile::is_valid_extension("toml"));
    assert!(ConfigFile::is_valid_extension("json"));
    assert!(!ConfigFile::is_valid_extension("yaml"));
    assert_eq!(
        ConfigFile::classify("a/b.toml".to_string(), "toml"),
        Some(ConfigFile::TOML("a/b.toml".to_string()))
    );
    assert_eq!(
        ConfigFile::classify("a/b.json".to_string(), "json"),
        Some(ConfigFile::JSON("a/b.json".to_string()))
    );
    assert_eq!(ConfigFile::classify("a/b.yaml".to_string(), "yaml"), None);
}

#[test]
fn status_string_forms() {
    assert_eq!(MigrationStatus::Pending.as_str(), "pending");
    assert_eq!(MigrationStatus::Applied.as_str(), "applied");
}

#[test]
fn initialization_gate() {
    assert!(ensure_initialized(true).is_ok());
    assert_eq!(ensure_initialized(false), Err(MigrationError::NotInitialized));
}

#[test]
fn collection_listing_check() {
    let names = vec!["users".to_string(), "_changelog".to_string()];
    assert!(collection_listed(&names, "_changelog"));
    assert!(!collection_listed(&names, "changelog"));
    let none: Vec<String> = Vec::new();
    assert!(!collection_listed(&none, "_changelog"));
}

#[test]
fn executor_stops_at_first_failure() {
    assert_eq!(execution_result(&vec![true, true, true]), Ok(()));
    assert_eq!(execution_result(&Vec::new()), Ok(()));
    assert_eq!(execution_result(&vec![true, false, true]), Err(1));
    assert_eq!(execution_result(&vec![false, false]), Err(0));
}

#[test]
fn missing_file_is_reported_with_its_path() {
    let path = "migrations/1700000000_gone/1700000000_gone_up.json";
    match check_file(path) {
        Err(MigrationError::MissingFile(p)) => assert_eq!(p, path),
        other => panic!("expected a missing-file error, got {:?}", other),
    }
}

#[test]
fn schema_command_names_the_collection() {
    let cmd = create_collection_command("_changelog");
    match cmd {
        DocValue::Obj(entries) => {
            assert_eq!(entries.len(), 2);
            assert_eq!(entries[0].0, "create");
            assert_eq!(entries[0].1, text("_changelog"));
            assert_eq!(entries[1].0, "validator");
            match &entries[1].1 {
                DocValue::Obj(v) => {
                    assert_eq!(v.len(), 1);
                    assert_eq!(v[0].0, "$jsonSchema");
                },
                other => panic!("expected an object validator, got {:?}", other),
            }
        },
        other => panic!("expected an object command, got {:?}", other),
    }
}
