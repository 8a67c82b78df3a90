use better_duck_core::appender::Appender;
use better_duck_core::connection::{Connection, RawConnection, RawDatabase};
use better_duck_core::error::{error_from_duckdb_code, result_from_state, Error, STATE_ERROR, STATE_SUCCESS};
use better_duck_core::statement::Statement;

#[test]
fn second_fetch_is_already_executed() {
    let mut stmt = Statement::new();
    assert!(stmt.fetch().is_ok());
    assert!(matches!(stmt.fetch(), Err(Error::AlreadyExecuted)));
    stmt.reset_result();
    assert!(stmt.fetch().is_ok());
}

#[test]
fn failed_execution_can_be_fetched_again() {
    let mut stmt = Statement::new();
    assert!(stmt.fetch().is_ok());
    stmt.execution_failed();
    assert!(!stmt.is_executed());
    assert!(stmt.fetch().is_ok());
}

#[test]
fn bind_claims_positions_in_order() {
    let mut stmt = Statement::new();
    assert_eq!(stmt.bind(), Some(0));
    assert_eq!(stmt.bind(), Some(1));
    assert_eq!(stmt.bound(), 2);
}

#[test]
fn closing_twice_disconnects_once() {
    let mut db = RawDatabase::new();
    let mut con = RawConnection::connect(&mut db).unwrap();
    assert!(con.is_open());
    assert!(con.close());
    assert!(!con.close());
    assert!(!con.is_open());
    assert!(db.release());
    assert!(db.closed());
}

#[test]
fn duplicate_survives_closing_the_original() {
    let mut db = RawDatabase::new();
    let mut original = RawConnection::connect(&mut db).unwrap();
    let duplicate = original.try_clone(&mut db).unwrap();
    assert_eq!(db.holder_count(), 2);
    assert!(original.close());
    assert!(!db.release());
    assert!(duplicate.is_open());
    assert!(!db.closed());
    assert!(db.release());
    assert!(db.closed());
}

#[test]
fn appender_failed_row_ends_it() {
    let mut app = Appender::new();
    assert!(app.append(STATE_SUCCESS, None).is_ok());
    assert_eq!(app.rows(), 1);
    let e = app.append(STATE_ERROR, Some("mismatch".to_string()));
    match e {
        Err(Error::EngineFailure { code, message }) => {
            assert_eq!(code, STATE_ERROR);
            assert_eq!(message.as_deref(), Some("mismatch"));
        },
        other => panic!("unexpected {:?}", other),
    }
    assert!(!app.live());
}

#[test]
fn appender_save_flushes_and_ends() {
    let mut app = Appender::new();
    assert!(app.save(STATE_SUCCESS, None).is_ok());
    assert!(!app.live());
    let mut app = Appender::new();
    assert!(matches!(app.save(STATE_ERROR, None), Err(Error::EngineFailure { .. })));
}

#[test]
fn states_map_to_results() {
    assert!(result_from_state(STATE_SUCCESS, None).is_ok());
    match error_from_duckdb_code(3, Some("boom".to_string())) {
        Err(Error::EngineFailure { code: 3, message: Some(m) }) => assert_eq!(m, "boom"),
        other => panic!("unexpected {:?}", other),
    }
    assert!(matches!(result_from_state(1, None), Err(Error::EngineFailure { code: 1, message: None })));
}

#[test]
fn connection_close_is_idempotent() {
    let mut db = RawDatabase::new();
    let mut conn = Connection::new(RawConnection::connect(&mut db).unwrap());
    assert!(conn.is_open());
    assert!(conn.close());
    assert!(!conn.is_open());
    assert!(!conn.close());
    assert!(!conn.db().is_open());
}

#[test]
fn appender_holds_its_own_connection() {
    let mut db = RawDatabase::new();
    let con = RawConnection::connect(&mut db).unwrap();
    let (own, app) = con.appender(&mut db).unwrap();
    assert!(own.is_open());
    assert!(app.live());
    assert_eq!(app.rows(), 0);
    assert_eq!(db.holder_count(), 2);
}
