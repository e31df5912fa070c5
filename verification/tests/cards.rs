//! The listing of cards, against a store in memory.

use koun::routes::cards::{get_all_cards, routes, select_cards, Card, DATABASE_ERROR, SELECT_CARDS};
use koun::routes::{Handler, Method};
use koun::statement::Statement;
use koun::status::Status;
use sqlx::sqlite::SqlitePoolOptions;
use sqlx::SqlitePool;

fn block_on<F: std::future::Future>(future: F) -> F::Output {
    tokio::runtime::Builder::new_current_thread()
        .enable_all()
        .build()
        .unwrap()
        .block_on(future)
}

async fn setup_store() -> SqlitePool {
    let db = SqlitePoolOptions::new().connect(":memory:").await.unwrap();
    for statement in koun::schema::initialize() {
        sqlx::query(statement.sql).execute(&db).await.unwrap();
    }
    db
}

async fn list_cards(db: &SqlitePool, statement: &Statement) -> Result<Vec<Card>, String> {
    let mut query = sqlx::query_as::<_, (String, String)>(statement.sql);
    for value in &statement.params {
        query = query.bind(value.clone());
    }
    match query.fetch_all(db).await {
        Ok(rows) => Ok(rows.into_iter().map(|(front, back)| Card { front, back }).collect()),
        Err(error) => Err(error.to_string()),
    }
}

#[test]
fn test_get_all_cards_empty() {
    block_on(async {
        let db = setup_store().await;

        let table = routes();
        assert_eq!(table.len(), 1);
        assert_eq!(table[0].method, Method::Get);
        assert_eq!(table[0].path, "/");
        assert_eq!(table[0].handler, Handler::GetAllCards);

        let outcome = list_cards(&db, &select_cards()).await;
        let (status, cards) = get_all_cards(outcome).unwrap();

        assert_eq!(status.code(), 200);

        assert_eq!(cards.len(), 0);
    });
}

#[test]
fn test_get_all_cards_after_adding_one() {
    block_on(async {
        let db = setup_store().await;

        // Insert a test card manually
        sqlx::query("INSERT INTO cards (front, back) VALUES (?, ?)")
            .bind("Bonjour")
            .bind("Hello")
            .execute(&db)
            .await
            .unwrap();

        let outcome = list_cards(&db, &select_cards()).await;
        let (status, cards) = get_all_cards(outcome).unwrap();

        assert_eq!(status.code(), 200);

        // Assert the inserted card is returned
        assert_eq!(cards.len(), 1);
        assert_eq!(cards[0].front, "Bonjour");
        assert_eq!(cards[0].back, "Hello");
    });
}

#[test]
fn cards_come_back_in_the_order_of_the_rows() {
    let rows = vec![
        Card { front: "un".to_string(), back: "one".to_string() },
        Card { front: "deux".to_string(), back: "two".to_string() },
        Card { front: "un".to_string(), back: "one".to_string() },
    ];
    let expected = vec![
        Card { front: "un".to_string(), back: "one".to_string() },
        Card { front: "deux".to_string(), back: "two".to_string() },
        Card { front: "un".to_string(), back: "one".to_string() },
    ];
    let (status, cards) = get_all_cards(Ok(rows)).unwrap();
    assert_eq!(status, Status::Okay);
    assert_eq!(cards, expected);
}

#[test]
fn a_failed_listing_is_an_internal_error_with_the_cause() {
    let (status, message) = get_all_cards(Err("no such table: cards".to_string())).unwrap_err();
    assert_eq!(status, Status::InternalServerError);
    assert_eq!(status.code(), 500);
    assert_eq!(message, "Database error: no such table: cards");

    let (_, message) = get_all_cards(Err(String::new())).unwrap_err();
    assert_eq!(message, DATABASE_ERROR);
}

#[test]
fn a_listing_without_the_table_fails_in_the_store() {
    block_on(async {
        let db = SqlitePoolOptions::new().connect(":memory:").await.unwrap();
        let outcome = list_cards(&db, &select_cards()).await;
        let cause = outcome.clone().unwrap_err();
        let (status, message) = get_all_cards(outcome).unwrap_err();
        assert_eq!(status.code(), 500);
        assert_eq!(message, format!("Database error: {}", cause));
        assert!(message.contains("no such table"));
    });
}

#[test]
fn the_listing_statement_binds_nothing() {
    let statement = select_cards();
    assert_eq!(statement.sql, SELECT_CARDS);
    assert_eq!(statement.sql, "SELECT front, back FROM cards");
    assert!(statement.params.is_empty());
}
