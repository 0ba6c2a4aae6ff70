//! Cache keys for the in-process book-list cache.  The key text is fixed
//! here so every reader and writer of the cache derives it the same way.

use vstd::prelude::*;
use vstd::string::StringExecFns;

use crate::books::BookGroup;

verus! {

/// The naming scheme of the book-list cache.
pub struct CacheKey;

impl CacheKey {
    /// The key under which a shelf's book list is cached: the shelf's name,
    /// or "all" for the whole library.
    pub fn book_list(group: Option<BookGroup>) -> (r: String)
        ensures
            group is None ==> r@ == "book_list:all"@,
            group == Some(BookGroup::Vocabulary) ==> r@ == "book_list:Vocabulary"@,
            group == Some(BookGroup::Grammar) ==> r@ == "book_list:Grammar"@,
    {
        match group {
            None => String::from_str("book_list:all"),
            Some(BookGroup::Vocabulary) => String::from_str("book_list:Vocabulary"),
            Some(BookGroup::Grammar) => String::from_str("book_list:Grammar"),
        }
    }
}

} // verus!
