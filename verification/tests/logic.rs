use storage::config::{
    DEFAULT_CONNECTION_TIMEOUT_SECS, DEFAULT_MAX_SIZE, MAX_CONNECTION_TIMEOUT_SECS, MAX_POOL_SIZE,
};
use storage::{
    database_path, fatal_on_failure, get_db_pool_with, recover_on_failure, schema_statement,
    DatabaseError, PoolConfig, StartupError, StartupStage,
};

#[test]
fn standard_limits_are_ten_connections_and_thirty_seconds() {
    let config = PoolConfig::standard();
    assert_eq!(config.max_size, 10);
    assert_eq!(config.connection_timeout_secs, 30);
    assert_eq!(DEFAULT_MAX_SIZE, 10);
    assert_eq!(DEFAULT_CONNECTION_TIMEOUT_SECS, 30);
    assert!(config.validate());
}

#[test]
fn limits_are_valid_only_when_both_are_positive() {
    assert!(PoolConfig { max_size: 1, connection_timeout_secs: 1 }.validate());
    assert!(!PoolConfig { max_size: 0, connection_timeout_secs: 1 }.validate());
    assert!(!PoolConfig { max_size: 1, connection_timeout_secs: 0 }.validate());
    assert!(!PoolConfig { max_size: 0, connection_timeout_secs: 0 }.validate());
}

#[test]
fn limits_are_valid_only_up_to_their_maxima() {
    assert_eq!(MAX_POOL_SIZE, 1024);
    assert_eq!(MAX_CONNECTION_TIMEOUT_SECS, 86_400);
    assert!(PoolConfig { max_size: 1024, connection_timeout_secs: 86_400 }.validate());
    assert!(!PoolConfig { max_size: 1025, connection_timeout_secs: 86_400 }.validate());
    assert!(!PoolConfig { max_size: 1024, connection_timeout_secs: 86_401 }.validate());
    assert!(!PoolConfig { max_size: u32::MAX, connection_timeout_secs: 30 }.validate());
    assert!(!PoolConfig { max_size: 10, connection_timeout_secs: u64::MAX }.validate());
}

#[test]
fn store_path_is_fixed() {
    assert_eq!(database_path(), "messages.db");
    assert_eq!(database_path(), database_path());
}

#[test]
fn schema_statement_is_the_guarded_create() {
    let sql = schema_statement();
    assert_eq!(
        sql,
        "CREATE TABLE IF NOT EXISTS messages (id INTEGER PRIMARY KEY, text TEXT)"
    );
    assert_eq!(&sql[..35], "CREATE TABLE IF NOT EXISTS messages");
}

#[test]
fn unavailable_error_frames_the_cause() {
    let error = DatabaseError::unavailable("boom");
    assert_eq!(
        error.diagnostic,
        "Couldn't get database connection from pool due to error: boom."
    );
    assert_eq!(error.message(), error.diagnostic.as_str());
}

#[test]
fn unavailable_error_with_empty_cause() {
    let error = DatabaseError::unavailable("");
    assert_eq!(
        error.message(),
        "Couldn't get database connection from pool due to error: ."
    );
}

#[test]
fn fatal_message_names_the_stage_then_the_cause() {
    let pool = StartupError { stage: StartupStage::PoolConstruction, cause: "Error(None)".to_string() };
    assert_eq!(pool.fatal_message(), "Couldn't create database connection pool.: Error(None)");
    let schema = StartupError { stage: StartupStage::SchemaCreation, cause: "locked".to_string() };
    assert_eq!(schema.fatal_message(), "Couldn't create messages table.: locked");
    let limits = StartupError { stage: StartupStage::Configuration, cause: String::new() };
    assert_eq!(limits.fatal_message(), "Invalid pool configuration.: ");
}

#[test]
fn startup_tier_passes_a_value_through() {
    let res = fatal_on_failure::<u32>(StartupStage::PoolConstruction, Ok(7));
    assert!(matches!(res, Ok(7)));
}

#[test]
fn startup_tier_turns_a_failure_fatal() {
    let res = fatal_on_failure::<u32>(StartupStage::SchemaCreation, Err("disk full".to_string()));
    match res {
        Ok(_) => panic!("a failure passed as a value"),
        Err(e) => {
            assert_eq!(e.stage, StartupStage::SchemaCreation);
            assert_eq!(e.cause, "disk full");
        }
    }
    let res = fatal_on_failure::<()>(StartupStage::PoolConstruction, Err("x".to_string()));
    match res {
        Ok(()) => panic!("a failure passed as a value"),
        Err(e) => assert_eq!(e.stage, StartupStage::PoolConstruction),
    }
}

#[test]
fn request_tier_passes_a_connection_through() {
    let res = recover_on_failure::<&str>(Ok("lease"));
    assert!(matches!(res, Ok("lease")));
}

#[test]
fn request_tier_turns_a_failure_into_the_recoverable_error() {
    let res = recover_on_failure::<u8>(Err("Error(None)".to_string()));
    match res {
        Ok(_) => panic!("a failure passed as a connection"),
        Err(e) => assert_eq!(
            e.diagnostic,
            "Couldn't get database connection from pool due to error: Error(None)."
        ),
    }
}

#[test]
fn limits_that_admit_no_pool_are_refused() {
    let zero_size = PoolConfig { max_size: 0, connection_timeout_secs: 1 };
    match get_db_pool_with("/tmp/storage_never_opened.db", &zero_size) {
        Ok(_) => panic!("a pool of no connections was built"),
        Err(e) => {
            assert_eq!(e.stage, StartupStage::Configuration);
            assert_eq!(
                e.cause,
                "max_size must be from 1 to 1024, connection_timeout_secs from 1 to 86400"
            );
            assert_eq!(
                e.fatal_message(),
                "Invalid pool configuration.: max_size must be from 1 to 1024, connection_timeout_secs from 1 to 86400"
            );
        }
    }
    let zero_wait = PoolConfig { max_size: 1, connection_timeout_secs: 0 };
    match get_db_pool_with("/tmp/storage_never_opened.db", &zero_wait) {
        Ok(_) => panic!("a pool that waits for nothing was built"),
        Err(e) => assert_eq!(e.stage, StartupStage::Configuration),
    }
    let too_large = PoolConfig { max_size: u32::MAX, connection_timeout_secs: 1 };
    match get_db_pool_with("/tmp/storage_never_opened.db", &too_large) {
        Ok(_) => panic!("a pool beyond the largest size was built"),
        Err(e) => assert_eq!(e.stage, StartupStage::Configuration),
    }
    let too_long = PoolConfig { max_size: 1, connection_timeout_secs: u64::MAX };
    match get_db_pool_with("/tmp/storage_never_opened.db", &too_long) {
        Ok(_) => panic!("a pool that waits beyond a day was built"),
        Err(e) => assert_eq!(e.stage, StartupStage::Configuration),
    }
}

#[test]
fn diagnostics_of_different_causes_differ() {
    let first = DatabaseError::unavailable("Error(None)");
    let second = DatabaseError::unavailable("Error(None).");
    assert_ne!(first.diagnostic, second.diagnostic);
    let third = DatabaseError::unavailable("Error(None)");
    assert_eq!(first.diagnostic, third.diagnostic);
}

#[test]
fn fatal_messages_of_different_causes_differ() {
    let first = StartupError { stage: StartupStage::SchemaCreation, cause: "a".to_string() };
    let second = StartupError { stage: StartupStage::SchemaCreation, cause: "b".to_string() };
    assert_ne!(first.fatal_message(), second.fatal_message());
}
