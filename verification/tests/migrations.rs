use catnip::database::Handle;
use catnip::migration::parse_version_prefix;
use catnip::migration::MigrationError;
use catnip::migration::MigrationScript;

fn script(name: &str, sql: &str) -> MigrationScript {
    MigrationScript { name: String::from(name), sql: String::from(sql) }
}

fn base_script() -> MigrationScript {
    script(
        "001_init.sql",
        "CREATE TABLE Guilds(DiscordGuildId INTEGER PRIMARY KEY);
         CREATE TABLE Users(DiscordUserId INTEGER PRIMARY KEY, Title TEXT NULL);
         CREATE TABLE Members(
             DiscordGuildId INTEGER,
             DiscordUserId INTEGER,
             LastStreamNotifyTimestamp INTEGER,
             PRIMARY KEY(DiscordGuildId, DiscordUserId));
         PRAGMA user_version = 1;",
    )
}

#[test]
fn prefix_parsing_reads_three_zero_padded_digits() {
    assert_eq!(parse_version_prefix("001_init.sql"), Some(1));
    assert_eq!(parse_version_prefix("042_add_title.sql"), Some(42));
    assert_eq!(parse_version_prefix("999"), Some(999));
    assert_eq!(parse_version_prefix("01"), None);
    assert_eq!(parse_version_prefix("01x_oops.sql"), None);
    assert_eq!(parse_version_prefix("init_001.sql"), None);
    assert_eq!(parse_version_prefix(""), None);
}

#[test]
fn fresh_store_reaches_latest_version() {
    let mut handle = Handle::new(":memory:").unwrap();
    let scripts = vec![
        base_script(),
        script(
            "002_add_counter.sql",
            "INSERT INTO Members(DiscordGuildId, DiscordUserId, LastStreamNotifyTimestamp)
             VALUES(7, 9, 0);
             PRAGMA user_version = 2;",
        ),
        script(
            "003_bump_counter.sql",
            "UPDATE Members SET LastStreamNotifyTimestamp = LastStreamNotifyTimestamp + 1
             WHERE DiscordGuildId = 7 AND DiscordUserId = 9;
             PRAGMA user_version = 3;",
        ),
    ];
    assert_eq!(handle.schema_version().unwrap(), 0);
    handle.update_schema(&scripts).unwrap();
    assert_eq!(handle.schema_version().unwrap(), 3);
    assert_eq!(handle.member(7, 9).unwrap().last_stream_notify_timestamp, 1);
}

#[test]
fn second_run_is_a_no_op() {
    let mut handle = Handle::new(":memory:").unwrap();
    let scripts = vec![
        base_script(),
        script(
            "002_seed.sql",
            "INSERT INTO Members(DiscordGuildId, DiscordUserId, LastStreamNotifyTimestamp)
             VALUES(1, 2, 0);
             PRAGMA user_version = 2;",
        ),
        script(
            "003_bump.sql",
            "UPDATE Members SET LastStreamNotifyTimestamp = LastStreamNotifyTimestamp + 1;
             PRAGMA user_version = 3;",
        ),
    ];
    handle.update_schema(&scripts).unwrap();
    handle.update_schema(&scripts).unwrap();
    // Version is 3, and the bump script ran exactly once.
    assert_eq!(handle.schema_version().unwrap(), 3);
    assert_eq!(handle.member(1, 2).unwrap().last_stream_notify_timestamp, 1);
}

#[test]
fn version_gap_stops_the_run_without_error() {
    let mut handle = Handle::new(":memory:").unwrap();
    let scripts = vec![
        base_script(),
        script(
            "003_unreachable.sql",
            "CREATE TABLE Extra(X INTEGER);
             PRAGMA user_version = 3;",
        ),
    ];
    handle.update_schema(&scripts).unwrap();
    // 001 applied, no 002 found: the runner stops at version 1, no error.
    assert_eq!(handle.schema_version().unwrap(), 1);
}

#[test]
fn script_order_in_the_listing_does_not_matter() {
    let mut handle = Handle::new(":memory:").unwrap();
    let scripts = vec![
        script(
            "002_extra.sql",
            "CREATE TABLE Extra(X INTEGER);
             PRAGMA user_version = 2;",
        ),
        base_script(),
    ];
    handle.update_schema(&scripts).unwrap();
    assert_eq!(handle.schema_version().unwrap(), 2);
}

#[test]
fn no_scripts_is_a_fatal_error() {
    let mut handle = Handle::new(":memory:").unwrap();
    let scripts: Vec<MigrationScript> = vec![];
    assert_eq!(handle.update_schema(&scripts), Err(MigrationError::NoScripts));
}

#[test]
fn failing_script_aborts_the_run() {
    let mut handle = Handle::new(":memory:").unwrap();
    let scripts = vec![script("001_broken.sql", "THIS IS NOT SQL;")];
    assert_eq!(handle.update_schema(&scripts), Err(MigrationError::ScriptFailed));
    assert_eq!(handle.schema_version().unwrap(), 0);
}

#[test]
fn script_that_forgets_the_version_cell_is_reported() {
    let mut handle = Handle::new(":memory:").unwrap();
    let scripts = vec![script("001_no_pragma.sql", "CREATE TABLE Lone(X INTEGER);")];
    assert_eq!(
        handle.update_schema(&scripts),
        Err(MigrationError::VersionNotAdvanced)
    );
}

#[test]
fn names_without_a_version_prefix_are_never_applied() {
    let mut handle = Handle::new(":memory:").unwrap();
    let scripts = vec![
        base_script(),
        script(
            "notes.txt",
            "CREATE TABLE Bogus(X INTEGER);
             PRAGMA user_version = 2;",
        ),
    ];
    handle.update_schema(&scripts).unwrap();
    assert_eq!(handle.schema_version().unwrap(), 1);
}
