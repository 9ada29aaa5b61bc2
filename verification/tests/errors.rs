use pgrag::errors::{ExpectPgErrExt, PgError, UnwrapPgErrExt};

#[test]
fn unwrap_or_pg_err_gives_the_value() {
    let value: Result<i32, PgError> = Some(7).unwrap_or_pg_err("No PID received");
    assert_eq!(value.unwrap(), 7);
}

#[test]
fn unwrap_or_pg_err_reports_what_is_missing() {
    let missing: Option<i32> = None;
    let error = missing.unwrap_or_pg_err("No PID received").unwrap_err();
    assert_eq!(error.message, "[neon_ai] No PID received");
}

#[test]
fn unwrap_or_pg_err_with_empty_message() {
    let missing: Option<String> = None;
    let error = missing.unwrap_or_pg_err("").unwrap_err();
    assert_eq!(error.message, "[neon_ai] ");
}

#[test]
fn expect_or_pg_err_gives_the_value() {
    let fine: Result<&str, String> = Ok("model");
    assert_eq!(fine.expect_or_pg_err("Couldn't load model").unwrap(), "model");
}

#[test]
fn expect_or_pg_err_reports_the_cause() {
    let failed: Result<u8, String> = Err("file not found".to_string());
    let error = failed.expect_or_pg_err("Couldn't load model").unwrap_err();
    assert_eq!(error.message, "[neon_ai] Couldn't load model: file not found");
}

#[test]
fn errors_made_directly() {
    assert_eq!(PgError::missing("No PID received").message, "[neon_ai] No PID received");
    assert_eq!(
        PgError::failed("Couldn't build thread pool", "out of threads").message,
        "[neon_ai] Couldn't build thread pool: out of threads"
    );
}
