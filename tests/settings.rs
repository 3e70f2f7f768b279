use axum_kit::error::Error;
use axum_kit::logger::LogWriter;
use axum_kit::pool::ResourcePool;
use axum_kit::postgres::{
    pg_session_timezone, session_timezone, set_time_zone_statement, PoolConfigError, PostgresConfig,
};

fn pg(max: u32, min: u32) -> PostgresConfig {
    PostgresConfig {
        url: "postgres://localhost/app".to_string(),
        max_connections: max,
        min_connections: min,
        acquire_timeout: 3,
        idle_timeout: 600,
        max_lifetime: 1800,
    }
}

#[test]
fn pool_bounds_are_checked() {
    assert_eq!(pg(10, 2).check(), Ok(()));
    assert_eq!(pg(1, 1).check(), Ok(()));
    assert_eq!(pg(0, 0).check(), Ok(()));
    assert_eq!(pg(1, 2).check(), Err(PoolConfigError::MinAboveMax));
}

#[test]
fn session_timezone_falls_back_to_utc() {
    assert_eq!(session_timezone(Ok("Europe/Paris".to_string())), "Europe/Paris");
    assert_eq!(session_timezone(Err(iana_time_zone::GetTimezoneError::OsError)), "UTC");
}

#[test]
fn time_zone_statement() {
    assert_eq!(set_time_zone_statement("Asia/Tokyo"), "SET TIME ZONE 'Asia/Tokyo';");
    assert_eq!(set_time_zone_statement("UTC"), "SET TIME ZONE 'UTC';");
}

#[test]
fn published_timezone_is_read_back() {
    let mut slot: ResourcePool<String> = ResourcePool::new();
    slot.publish("UTC".to_string()).unwrap();
    assert_eq!(pg_session_timezone(&slot), "UTC");
}

#[test]
fn ansi_only_on_stdout() {
    assert!(LogWriter::Stdout.ansi());
    assert!(!LogWriter::File.ansi());
}

#[test]
fn error_responses() {
    assert_eq!(Error::Unauthorized.response(), (401, "Unauthorized".to_string()));
    assert_eq!(Error::Forbidden.response(), (403, "Forbidden".to_string()));
    assert_eq!(Error::NotFound.response(), (404, "Not Found".to_string()));
    assert_eq!(
        Error::JsonExtractorRejection { status: 415, body_text: "bad type".to_string() }.response(),
        (415, "bad type".to_string())
    );
    assert_eq!(
        Error::ValidationError("username: Can not be empty".to_string()).response(),
        (422, "username: Can not be empty".to_string())
    );
    for e in [
        Error::Redis("down".to_string()),
        Error::Sqlx("gone".to_string()),
        Error::Anyhow("oops".to_string()),
    ] {
        assert!(e.is_internal());
        assert_eq!(e.response(), (500, "Internal Server Error".to_string()));
    }
    assert!(!Error::NotFound.is_internal());
    assert_eq!(Error::Custom(418, "teapot".to_string()).response(), (418, "teapot".to_string()));
}
