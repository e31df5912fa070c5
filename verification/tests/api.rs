//! The two endpoints of the top-level table, each against a store in memory.

use koun::routes::{Handler, Method};
use koun::statement::Statement;
use koun::users::{prepare_create_user, INSERT_USER};
use koun::{app, create_user, root, CreateUser, User};
use sqlx::sqlite::SqlitePoolOptions;
use sqlx::SqlitePool;

fn block_on<F: std::future::Future>(future: F) -> F::Output {
    tokio::runtime::Builder::new_current_thread()
        .enable_all()
        .build()
        .unwrap()
        .block_on(future)
}

async fn setup_store() -> SqlitePool {
    // In-memory DB for testing
    let db = SqlitePoolOptions::new().connect(":memory:").await.unwrap();
    for statement in koun::schema::initialize() {
        sqlx::query(statement.sql).execute(&db).await.unwrap();
    }
    db
}

async fn insert_user(db: &SqlitePool, statement: &Statement) -> Result<User, String> {
    let mut query = sqlx::query_as::<_, (i64, String)>(statement.sql);
    for value in &statement.params {
        query = query.bind(value.clone());
    }
    match query.fetch_one(db).await {
        Ok((id, username)) => Ok(User { id, username }),
        Err(error) => Err(error.to_string()),
    }
}

#[test]
fn test_root_returns_hello() {
    block_on(async {
        let _db = setup_store().await;

        let table = app();
        let route = table
            .iter()
            .find(|route| route.method == Method::Get && route.path == "/")
            .unwrap();
        assert_eq!(route.handler, Handler::Root);

        let (status, body) = root();
        assert_eq!(status.code(), 200);
        assert_eq!(body, "Hello, World!");
    });
}

#[test]
fn test_create_user() {
    block_on(async {
        let db = setup_store().await;

        let table = app();
        let route = table
            .iter()
            .find(|route| route.method == Method::Post && route.path == "/users")
            .unwrap();
        assert_eq!(route.handler, Handler::CreateUser);

        let payload = CreateUser { username: "tester".to_string() };
        let statement = prepare_create_user(Ok(payload)).unwrap();
        assert_eq!(statement.sql, INSERT_USER);

        let outcome = insert_user(&db, &statement).await;
        let (status, user) = create_user(outcome).unwrap();
        assert_eq!(status.code(), 201);

        assert_eq!(user.username, "tester");
        assert!(user.id > 0);
    });
}

#[test]
fn fresh_usernames_get_fresh_positive_ids() {
    block_on(async {
        let db = setup_store().await;
        let mut seen: Vec<i64> = Vec::new();
        for name in ["ada", "grace", "", "Ada", "a b", "名前"] {
            let payload = CreateUser { username: name.to_string() };
            let statement = prepare_create_user(Ok(payload)).unwrap();
            assert_eq!(statement.params, vec![name.to_string()]);
            let outcome = insert_user(&db, &statement).await;
            let (status, user) = create_user(outcome).unwrap();
            assert_eq!(status.code(), 201);
            assert_eq!(user.username, name);
            assert!(user.id > 0);
            assert!(!seen.contains(&user.id));
            seen.push(user.id);
        }
    });
}

#[test]
fn a_stored_username_is_not_created_again() {
    block_on(async {
        let db = setup_store().await;

        let first = prepare_create_user(Ok(CreateUser { username: "tester".to_string() })).unwrap();
        let outcome = insert_user(&db, &first).await;
        assert_eq!(create_user(outcome).unwrap().0.code(), 201);

        let second = prepare_create_user(Ok(CreateUser { username: "tester".to_string() })).unwrap();
        let outcome = insert_user(&db, &second).await;
        let cause = outcome.clone().unwrap_err();
        let (status, message) = create_user(outcome).unwrap_err();
        assert_ne!(status.code(), 201);
        assert_eq!(status.code(), 500);
        assert_eq!(message, cause);
        assert!(message.contains("UNIQUE constraint failed"));

        let stored: Vec<(i64, String)> = sqlx::query_as("SELECT id, username FROM users")
            .fetch_all(&db)
            .await
            .unwrap();
        assert_eq!(stored.len(), 1);
    });
}

#[test]
fn a_malformed_body_is_rejected_and_nothing_is_inserted() {
    block_on(async {
        let db = setup_store().await;

        let complaint = "missing field `username` at line 1 column 2".to_string();
        let (status, message) = prepare_create_user(Err(complaint.clone())).unwrap_err();
        assert_eq!(status.code(), 400);
        assert_ne!(status.code(), 500);
        assert_eq!(message, complaint);

        let stored: Vec<(i64, String)> = sqlx::query_as("SELECT id, username FROM users")
            .fetch_all(&db)
            .await
            .unwrap();
        assert!(stored.is_empty());
    });
}
