//! The book model: the shelf groups, the `Book` record, and how a book is
//! read out of a result row.  The queries the shell sends for the book list
//! are fixed here too, so no other component assembles that text.

use vstd::prelude::*;
use vstd::string::StrSliceExecFns;
use vstd::string::StringExecFns;

use crate::store::Row;
use crate::store::Scalar;

verus! {

/// The two shelves of the library.
#[derive(Debug, Clone, Copy, PartialEq, Eq, Structural)]
pub enum BookGroup {
    Vocabulary,
    Grammar,
}

/// The numeric code a shelf is stored under.
pub open spec fn spec_group_code(g: BookGroup) -> i32 {
    match g {
        BookGroup::Vocabulary => 1,
        BookGroup::Grammar => 2,
    }
}

/// The shelf a numeric code names; unknown codes fall back to the first
/// shelf.
pub open spec fn spec_group_of_code(v: i32) -> BookGroup {
    if v == 2 {
        BookGroup::Grammar
    } else {
        BookGroup::Vocabulary
    }
}

impl From<i32> for BookGroup {
    fn from(v: i32) -> (r: BookGroup) {
        match v {
            2 => BookGroup::Grammar,
            _ => BookGroup::Vocabulary,
        }
    }
}

impl vstd::std_specs::convert::FromSpecImpl<i32> for BookGroup {
    open spec fn obeys_from_spec() -> bool {
        true
    }

    open spec fn from_spec(v: i32) -> BookGroup {
        spec_group_of_code(v)
    }
}

impl From<BookGroup> for i32 {
    fn from(g: BookGroup) -> (r: i32) {
        match g {
            BookGroup::Vocabulary => 1,
            BookGroup::Grammar => 2,
        }
    }
}

impl vstd::std_specs::convert::FromSpecImpl<BookGroup> for i32 {
    open spec fn obeys_from_spec() -> bool {
        true
    }

    open spec fn from_spec(g: BookGroup) -> i32 {
        spec_group_code(g)
    }
}

/// One book of the shelf.
#[derive(Debug, PartialEq)]
pub struct Book {
    pub id: i32,
    pub book_group: BookGroup,
    pub product_code: String,
    pub title: String,
    pub author: Option<String>,
    pub product_type: String,
    pub cover: Option<String>,
    pub sort_num: i32,
}

/// The ghost image of a book.
#[verifier::ext_equal]
pub struct BookModel {
    pub id: i32,
    pub book_group: BookGroup,
    pub product_code: Seq<char>,
    pub title: Seq<char>,
    pub author: Option<Seq<char>>,
    pub product_type: Seq<char>,
    pub cover: Option<Seq<char>>,
    pub sort_num: i32,
}

impl View for Book {
    type V = BookModel;

    open spec fn view(&self) -> BookModel {
        BookModel {
            id: self.id,
            book_group: self.book_group,
            product_code: self.product_code@,
            title: self.title@,
            author: match self.author {
                Some(a) => Some(a@),
                None => None,
            },
            product_type: self.product_type@,
            cover: match self.cover {
                Some(c) => Some(c@),
                None => None,
            },
            sort_num: self.sort_num,
        }
    }
}

impl Clone for Book {
    fn clone(&self) -> (r: Book)
        ensures
            r == *self,
    {
        Book {
            id: self.id,
            book_group: self.book_group,
            product_code: self.product_code.clone(),
            title: self.title.clone(),
            author: match &self.author {
                Some(a) => Some(a.clone()),
                None => None,
            },
            product_type: self.product_type.clone(),
            cover: match &self.cover {
                Some(c) => Some(c.clone()),
                None => None,
            },
            sort_num: self.sort_num,
        }
    }
}

/// The integer a row holds under `name`, where it holds one that fits in an
/// `i32`.
pub open spec fn spec_row_i32(row: Row, name: Seq<char>) -> Option<i32> {
    match row.spec_get(name) {
        Some(Scalar::Int(v)) => if i32::MIN <= v <= i32::MAX {
            Some(v as i32)
        } else {
            None
        },
        _ => None,
    }
}

/// The text a row holds under `name`, where it holds text.
pub open spec fn spec_row_text(row: Row, name: Seq<char>) -> Option<Seq<char>> {
    match row.spec_get(name) {
        Some(Scalar::Text(t)) => Some(t@),
        _ => None,
    }
}

/// The book a row describes, or nothing where a required column is absent,
/// of the wrong type, or out of range.
pub open spec fn spec_book_from_row(row: Row) -> Option<BookModel> {
    match (
        spec_row_i32(row, "id"@),
        spec_row_i32(row, "book_group"@),
        spec_row_text(row, "product_code"@),
        spec_row_text(row, "title"@),
        spec_row_text(row, "product_type"@),
        spec_row_i32(row, "sort_num"@),
    ) {
        (Some(id), Some(group), Some(code), Some(title), Some(ptype), Some(sort)) => Some(
            BookModel {
                id: id,
                book_group: spec_group_of_code(group),
                product_code: code,
                title: title,
                author: spec_row_text(row, "author"@),
                product_type: ptype,
                cover: spec_row_text(row, "cover"@),
                sort_num: sort,
            },
        ),
        _ => None,
    }
}

/// Reads an `i32` column.
fn row_i32(row: &Row, name: &str) -> (r: Option<i32>)
    ensures
        r == spec_row_i32(*row, name@),
{
    match row.get(name) {
        Some(Scalar::Int(v)) => {
            let v = *v;
            if i32::MIN as i64 <= v && v <= i32::MAX as i64 {
                Some(v as i32)
            } else {
                None
            }
        },
        _ => None,
    }
}

/// Reads a text column into an owned string.
fn row_text(row: &Row, name: &str) -> (r: Option<String>)
    ensures
        match r {
            Some(t) => spec_row_text(*row, name@) == Some(t@),
            None => spec_row_text(*row, name@) is None,
        },
{
    match row.get(name) {
        Some(Scalar::Text(t)) => Some(t.clone()),
        _ => None,
    }
}

impl Book {
    /// Reads a book out of one result row, exactly as `spec_book_from_row`
    /// describes: the required columns must be present with the right
    /// types, the optional author and cover may be absent.
    pub fn from_json(row: &Row) -> (r: Option<Book>)
        ensures
            match r {
                Some(b) => spec_book_from_row(*row) == Some(b@),
                None => spec_book_from_row(*row) is None,
            },
    {
        let id = match row_i32(row, "id") {
            Some(v) => v,
            None => {
                return None;
            },
        };
        let group = match row_i32(row, "book_group") {
            Some(v) => v,
            None => {
                return None;
            },
        };
        let product_code = match row_text(row, "product_code") {
            Some(v) => v,
            None => {
                return None;
            },
        };
        let title = match row_text(row, "title") {
            Some(v) => v,
            None => {
                return None;
            },
        };
        let product_type = match row_text(row, "product_type") {
            Some(v) => v,
            None => {
                return None;
            },
        };
        let sort_num = match row_i32(row, "sort_num") {
            Some(v) => v,
            None => {
                return None;
            },
        };
        let author = row_text(row, "author");
        let cover = row_text(row, "cover");
        let b = Book {
            id,
            book_group: BookGroup::from(group),
            product_code,
            title,
            author,
            product_type,
            cover,
            sort_num,
        };
        proof {
            assert(spec_book_from_row(*row) matches Some(m) && m =~= b@);
        }
        Some(b)
    }
}

/// The books of a row list, in row order, rows that do not describe a book
/// left out.
pub open spec fn spec_books_from_rows(rows: Seq<Row>) -> Seq<BookModel>
    decreases rows.len(),
{
    if rows.len() == 0 {
        Seq::empty()
    } else {
        (match spec_book_from_row(rows[0]) {
            Some(b) => seq![b],
            None => Seq::empty(),
        }) + spec_books_from_rows(rows.drop_first())
    }
}

/// Turns the rows of the book-list query into books, keeping row order and
/// dropping rows that do not describe a book.
pub fn books_from_rows(rows: &Vec<Row>) -> (r: Vec<Book>)
    ensures
        r@.map_values(|b: Book| b@) == spec_books_from_rows(rows@),
{
    let n = rows.len();
    let mut out: Vec<Book> = Vec::new();
    let mut i: usize = 0;
    proof {
        assert(rows@.subrange(0, n as int) =~= rows@);
        assert(out@.map_values(|b: Book| b@) + spec_books_from_rows(rows@.subrange(0, n as int))
            =~= spec_books_from_rows(rows@));
    }
    while i < n
        invariant
            n == rows@.len(),
            0 <= i <= n,
            spec_books_from_rows(rows@) == out@.map_values(|b: Book| b@)
                + spec_books_from_rows(rows@.subrange(i as int, n as int)),
        decreases n - i,
    {
        let ghost before = out@.map_values(|b: Book| b@);
        proof {
            assert(rows@.subrange(i as int, n as int)[0] == rows@[i as int]);
            assert(rows@.subrange(i as int, n as int).drop_first() =~= rows@.subrange(
                i as int + 1,
                n as int,
            ));
        }
        match Book::from_json(&rows[i]) {
            Some(b) => {
                out.push(b);
                proof {
                    assert(out@.map_values(|b: Book| b@) =~= before + seq![
                        spec_book_from_row(rows@[i as int])->0,
                    ]);
                }
            },
            None => {},
        }
        proof {
            assert(spec_books_from_rows(rows@) =~~= out@.map_values(|b: Book| b@)
                + spec_books_from_rows(rows@.subrange(i as int + 1, n as int)));
        }
        i = i + 1;
    }
    proof {
        assert(rows@.subrange(n as int, n as int) =~= Seq::<Row>::empty());
        assert(spec_books_from_rows(rows@) =~~= out@.map_values(|b: Book| b@));
    }
    out
}

/// The book-list query for a shelf, or for the whole library.
pub fn books_query_sql(group: Option<BookGroup>) -> (r: String)
    ensures
        group is None ==> r@ == "SELECT * FROM books ORDER BY book_group, sort_num ASC"@,
        group == Some(BookGroup::Vocabulary) ==> r@
            == "SELECT * FROM books WHERE book_group = 1 ORDER BY book_group, sort_num ASC"@,
        group == Some(BookGroup::Grammar) ==> r@
            == "SELECT * FROM books WHERE book_group = 2 ORDER BY book_group, sort_num ASC"@,
{
    match group {
        None => String::from_str("SELECT * FROM books ORDER BY book_group, sort_num ASC"),
        Some(BookGroup::Vocabulary) => String::from_str(
            "SELECT * FROM books WHERE book_group = 1 ORDER BY book_group, sort_num ASC",
        ),
        Some(BookGroup::Grammar) => String::from_str(
            "SELECT * FROM books WHERE book_group = 2 ORDER BY book_group, sort_num ASC",
        ),
    }
}

/// The query for one book's reading progress, by product code.
pub fn reading_progress_query_sql(product_code: &str) -> (r: String)
    ensures
        r@ == "SELECT rp.* FROM reading_progress rp JOIN books b ON rp.book_id = b.id WHERE b.product_code = '"@
            + product_code@ + "'"@,
{
    let mut s = String::from_str(
        "SELECT rp.* FROM reading_progress rp JOIN books b ON rp.book_id = b.id WHERE b.product_code = '",
    );
    s.append(product_code);
    s.append("'");
    s
}

/// The bucket key (and local relative path) of a book's cover image.
pub fn cover_rel_path(product_code: &str, cover: &str) -> (r: String)
    ensures
        r@ == "/books/"@ + product_code@ + "/assets/"@ + cover@,
{
    let mut s = String::from_str("/books/");
    s.append(product_code);
    s.append("/assets/");
    s.append(cover);
    s
}

} // verus!
