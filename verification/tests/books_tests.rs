use bookbase::books::{
    books_from_rows, books_query_sql, cover_rel_path, reading_progress_query_sql, Book, BookGroup,
};
use bookbase::cache::CacheKey;
use bookbase::store::{Row, Scalar};

fn text(s: &str) -> Scalar {
    Scalar::Text(s.to_string())
}

fn full_book_row() -> Row {
    Row {
        columns: vec![
            ("id".to_string(), Scalar::Int(1)),
            ("book_group".to_string(), Scalar::Int(2)),
            ("product_code".to_string(), text("test-code")),
            ("title".to_string(), text("Test Book")),
            ("author".to_string(), text("Author Name")),
            ("product_type".to_string(), text("Student's Book")),
            ("cover".to_string(), text("cover.jpg")),
            ("sort_num".to_string(), Scalar::Int(10)),
        ],
    }
}

#[test]
fn test_book_group_conversions() {
    assert_eq!(BookGroup::from(1), BookGroup::Vocabulary);
    assert_eq!(BookGroup::from(2), BookGroup::Grammar);
    assert_eq!(BookGroup::from(99), BookGroup::Vocabulary); // Default case

    let v: i32 = BookGroup::Grammar.into();
    assert_eq!(v, 2);
}

#[test]
fn test_book_from_json() {
    let book = Book::from_json(&full_book_row()).unwrap();
    assert_eq!(book.id, 1);
    assert_eq!(book.book_group, BookGroup::Grammar);
    assert_eq!(book.product_code, "test-code");
    assert_eq!(book.author, Some("Author Name".to_string()));
}

#[test]
fn test_book_from_json_minimal() {
    let row = Row {
        columns: vec![
            ("id".to_string(), Scalar::Int(1)),
            ("book_group".to_string(), Scalar::Int(1)),
            ("product_code".to_string(), text("code")),
            ("title".to_string(), text("Title")),
            ("product_type".to_string(), text("Type")),
            ("sort_num".to_string(), Scalar::Int(0)),
        ],
    };
    let book = Book::from_json(&row).unwrap();
    assert_eq!(book.author, None);
    assert_eq!(book.cover, None);
}

#[test]
fn book_from_row_rejects_missing_columns() {
    let row = Row { columns: vec![("id".to_string(), Scalar::Int(1))] };
    assert!(Book::from_json(&row).is_none());
    let row = Row {
        columns: vec![
            ("id".to_string(), text("one")),
            ("book_group".to_string(), Scalar::Int(1)),
            ("product_code".to_string(), text("code")),
            ("title".to_string(), text("Title")),
            ("product_type".to_string(), text("Type")),
            ("sort_num".to_string(), Scalar::Int(0)),
        ],
    };
    assert!(Book::from_json(&row).is_none());
}

#[test]
fn books_from_rows_keeps_order_and_drops_bad_rows() {
    let bad = Row { columns: vec![("id".to_string(), Scalar::Null)] };
    let rows = vec![full_book_row(), bad, full_book_row()];
    let books = books_from_rows(&rows);
    assert_eq!(books.len(), 2);
    assert_eq!(books[0].title, "Test Book");
    assert_eq!(books[1].id, 1);
}

#[test]
fn book_list_queries_are_fixed() {
    assert_eq!(books_query_sql(None), "SELECT * FROM books ORDER BY book_group, sort_num ASC");
    assert_eq!(
        books_query_sql(Some(BookGroup::Vocabulary)),
        "SELECT * FROM books WHERE book_group = 1 ORDER BY book_group, sort_num ASC"
    );
    assert_eq!(
        books_query_sql(Some(BookGroup::Grammar)),
        "SELECT * FROM books WHERE book_group = 2 ORDER BY book_group, sort_num ASC"
    );
    assert_eq!(
        reading_progress_query_sql("abc"),
        "SELECT rp.* FROM reading_progress rp JOIN books b ON rp.book_id = b.id \
         WHERE b.product_code = 'abc'"
    );
}

#[test]
fn cover_paths_are_fixed() {
    assert_eq!(cover_rel_path("essgiuebk", "cover.jpg"), "/books/essgiuebk/assets/cover.jpg");
}

#[test]
fn test_book_list_cache_key() {
    assert_eq!(CacheKey::book_list(None), "book_list:all");
    assert_eq!(CacheKey::book_list(Some(BookGroup::Vocabulary)), "book_list:Vocabulary");
    assert_eq!(CacheKey::book_list(Some(BookGroup::Grammar)), "book_list:Grammar");
}
