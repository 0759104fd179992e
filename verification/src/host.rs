//! Small host rules around the application's runtime: panics, constant
//! strings, and the layout agreement checked at start-up.
use vstd::prelude::*;
use vstd::string::StringExecFns;

verus! {

/// A trait object as the application lays it out: the address of its data
/// and the address of its vtable.
#[derive(Clone, Copy, Debug, PartialEq, Eq)]
pub struct TraitObject {
    pub data: usize,
    pub vtable: usize,
}

/// Panic tag of a panic raised by the application's own code.
pub const PANIC_TAG_USER: u32 = 0;

/// Length from which a `RocStr` lives on the heap; shorter ones are stored
/// inline and carry no refcount.
pub const SMALL_STR_LIMIT: usize = 24;

/// The refcount of a uniquely owned heap string.
pub const REFCOUNT_UNIQUE: i64 = i64::MIN;

/// The refcount that marks a heap string as never to be freed.
pub const REFCOUNT_CONSTANT: i64 = 0;

/// The message the host prints when the application panics.
pub open spec fn panic_text(message: Seq<char>) -> Seq<char> {
    "Roc hit a panic: "@ + message
}

/// The refcount conventions of the application's runtime: strings of 24
/// bytes or more live on the heap, a uniquely owned one has refcount
/// `i64::MIN`, and refcount 0 marks one that is never freed.
pub proof fn lemma_refcount_conventions()
    ensures
        SMALL_STR_LIMIT == 24,
        REFCOUNT_UNIQUE == i64::MIN,
        REFCOUNT_CONSTANT == 0,
        PANIC_TAG_USER == 0,
{
}

/// The host's panic message is the fixed prefix followed by the whole
/// message of the application, nothing cut and nothing added.
pub proof fn lemma_panic_text_keeps_message(message: Seq<char>)
    ensures
        panic_text(message) == "Roc hit a panic: "@ + message,
        panic_text(message).len() == "Roc hit a panic: "@.len() + message.len(),
        panic_text(message).subrange(
            "Roc hit a panic: "@.len() as int,
            panic_text(message).len() as int,
        ) == message,
{
    assert(("Roc hit a panic: "@ + message).subrange(
        "Roc hit a panic: "@.len() as int,
        ("Roc hit a panic: "@ + message).len() as int,
    ) =~= message);
}

/// The report for a panic of the application: a message for a panic of the
/// application's code, `None` for a kind of panic that the host does not handle.
pub fn panic_report(tag_id: u32, message: &str) -> (report: Option<String>)
    ensures
        tag_id == PANIC_TAG_USER ==> report is Some && report->0@ == "Roc hit a panic: "@ + message@,
        tag_id != PANIC_TAG_USER ==> report is None,
{
    if tag_id == PANIC_TAG_USER {
        let prefix = String::from_str("Roc hit a panic: ");
        Some(prefix.concat(message))
    } else {
        None
    }
}

/// The refcount that a string shared by every request gets: a heap string,
/// which must be uniquely owned, is marked constant; an inline string has no
/// refcount and is left as it is (`None`).
pub fn constant_refcount(len: usize, refcount: i64) -> (pinned: Option<i64>)
    requires
        len >= SMALL_STR_LIMIT ==> refcount == REFCOUNT_UNIQUE,
    ensures
        pinned == (if len >= SMALL_STR_LIMIT { Some(REFCOUNT_CONSTANT) } else { None::<i64> }),
{
    if len >= SMALL_STR_LIMIT {
        Some(REFCOUNT_CONSTANT)
    } else {
        None
    }
}

/// A result size of the application that does not fit what the host expects.
#[derive(Clone, Copy, Debug, PartialEq, Eq)]
pub enum LayoutMismatch {
    /// The continuation result is not exactly one pointer wide.
    Continuation,
    /// The statement continuation's result is wider than a pointer.
    DbExecute,
    /// The multi-row continuation's result is wider than a pointer.
    DbFetchAll,
    /// The single-row continuation's result is wider than a pointer.
    DbFetchOne,
    /// The body continuation's result is wider than a pointer.
    LoadBody,
}

/// Checks the application's result sizes against the pointer width, in the
/// order the host checks them, and reports the first that does not fit.
pub fn check_result_sizes(
    pointer: usize,
    continuation: usize,
    db_execute: usize,
    db_fetch_all: usize,
    db_fetch_one: usize,
    load_body: usize,
) -> (r: Result<(), LayoutMismatch>)
    ensures
        r == (if continuation != pointer {
            Err(LayoutMismatch::Continuation)
        } else if db_execute > pointer {
            Err(LayoutMismatch::DbExecute)
        } else if db_fetch_all > pointer {
            Err(LayoutMismatch::DbFetchAll)
        } else if db_fetch_one > pointer {
            Err(LayoutMismatch::DbFetchOne)
        } else if load_body > pointer {
            Err(LayoutMismatch::LoadBody)
        } else {
            Ok(())
        }),
{
    if continuation != pointer {
        Err(LayoutMismatch::Continuation)
    } else if db_execute > pointer {
        Err(LayoutMismatch::DbExecute)
    } else if db_fetch_all > pointer {
        Err(LayoutMismatch::DbFetchAll)
    } else if db_fetch_one > pointer {
        Err(LayoutMismatch::DbFetchOne)
    } else if load_body > pointer {
        Err(LayoutMismatch::LoadBody)
    } else {
        Ok(())
    }
}

} // verus!
