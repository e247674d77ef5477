use chrono::NaiveDate;
use smart_energy_explorer::error::ApiError;
use smart_energy_explorer::error::AppError;
use smart_energy_explorer::error::GlowmarktDataProviderError;
use smart_energy_explorer::error::RepositoryError;

#[test]
fn provider_errors_say_what_failed() {
    let network = GlowmarktDataProviderError::GlowmarktApiError("timed out".to_string());
    assert_eq!(network.message(), "Failed request to Glowmarkt API: timed out");
    assert!(network.is_retryable());
    let range = GlowmarktDataProviderError::TimeComponentRangeError("day out of range".to_string());
    assert_eq!(range.message(), "Time component range error: day out of range");
    assert!(!range.is_retryable());
    let missing = GlowmarktDataProviderError::MissingResource("gas cost".to_string());
    assert_eq!(missing.message(), "Missing resource: gas cost");
    assert!(!missing.is_retryable());
}

#[test]
fn repository_errors_say_what_failed() {
    assert_eq!(
        RepositoryError::DieselError("UNIQUE constraint failed".to_string()).message(),
        "Database error: UNIQUE constraint failed"
    );
    assert_eq!(
        RepositoryError::SqliteConnectionMutexPoisonedError().message(),
        "Mutex guarding SQLite connection is poisoned"
    );
    assert_eq!(
        RepositoryError::SqliteQueryExecutionError("no such table".to_string()).message(),
        "SQLite query execution error: no such table"
    );
    assert_eq!(RepositoryError::NotFound.message(), "Database error: Record not found");
}

#[test]
fn app_errors_say_what_failed() {
    assert_eq!(AppError::CustomError("boom".to_string()).message(), "Error: boom");
    assert_eq!(
        AppError::MutexPoisonedError { name: "app_settings".to_string() }.message(),
        "Mutex 'app_settings' is poisoned"
    );
    assert_eq!(
        AppError::GlowmarktApiError(GlowmarktDataProviderError::MissingResource(
            "electricity cost".to_string()
        ))
        .message(),
        "Failed interaction with Glowmarkt API: Missing resource: electricity cost"
    );
}

#[test]
fn api_errors_say_what_failed() {
    assert_eq!(ApiError::Custom("Database query failed".to_string()).message(), "Error: Database query failed");
    assert_eq!(ApiError::DatabaseError("locked".to_string()).message(), "Database error: locked");
    assert_eq!(
        ApiError::RepositoryError(RepositoryError::NotFound).message(),
        "Repository error: Database error: Record not found"
    );
    assert_eq!(
        ApiError::GlowmarktApiError(GlowmarktDataProviderError::GlowmarktApiError("401".to_string()))
            .message(),
        "Failed interaction with Glowmarkt API: Failed request to Glowmarkt API: 401"
    );
    assert_eq!(
        ApiError::MutexPoisonedError { name: "db".to_string() }.message(),
        "Mutex 'db' is poisoned"
    );
}

#[test]
fn date_error_carries_the_text_of_chrono() {
    let cause = NaiveDate::parse_from_str("not a date", "%Y-%m-%d").unwrap_err();
    let text = ApiError::ChronoParseError(cause).message();
    assert_eq!(text, format!("Date parse error: {}", cause));
    assert!(text.len() > "Date parse error: ".len());
}
