//! The host's side of the continuation protocol with the Roc application.
//!
//! After each step the application hands back a tagged pointer to its next
//! continuation.  The tag says which effect it asks for; the untagged address
//! points at the effect's arguments, followed by the closure data that the
//! continuation resumes with.  `next_effect` decides, from the pointer alone,
//! what the host does next; `app/` performs the effect and calls back.
use vstd::prelude::*;

use crate::tag::{get_tag, remove_tag, tag_of, untagged};

verus! {

/// Size in bytes of a `RocStr` (three machine words on a 64-bit target).
pub const ROC_STR_SIZE: usize = 24;

/// Size in bytes of a `RocList` of any element type (three machine words).
pub const ROC_LIST_SIZE: usize = 24;

/// Size in bytes of the refcount word stored just before a heap allocation.
pub const REFCOUNT_SIZE: usize = 8;

/// Continuation tag: run a statement and report the execution result.
pub const TAG_DB_EXECUTE: u8 = 0;
/// Continuation tag: run a query and report every row.
pub const TAG_DB_FETCH_ALL: u8 = 1;
/// Continuation tag: run a query and report its first row.
pub const TAG_DB_FETCH_ONE: u8 = 2;
/// Continuation tag: read the request body.
pub const TAG_LOAD_BODY: u8 = 3;
/// Continuation tag: the application's final response.
pub const TAG_RESPONSE: u8 = 4;

/// What the host does for one continuation.
#[derive(Clone, Copy, Debug, PartialEq, Eq)]
pub enum Effect {
    /// Execute the statement whose `RocStr` is at `query`, binding the
    /// `RocList<SqlData>` at `params`; resume with the closure data at `resume`.
    DbExecute { query: usize, params: usize, resume: usize },
    /// Fetch all rows of the query at `query` with the parameters at `params`.
    DbFetchAll { query: usize, params: usize, resume: usize },
    /// Fetch the first row of the query at `query` with the parameters at `params`.
    DbFetchOne { query: usize, params: usize, resume: usize },
    /// Take the request body; resume with the closure data at `resume`.
    LoadBody { resume: usize },
    /// Send the `RocResponse` stored at `response`; the exchange ends.
    Respond { response: usize },
    /// The tag is unknown: answer 500 Internal Server Error; the exchange ends.
    Fail,
}

/// The arguments of a database continuation fit below the top of the address
/// space: the query string, the parameter list and the closure data behind them.
pub open spec fn db_args_fit(cont_ptr: usize) -> bool {
    cont_ptr + ROC_STR_SIZE + ROC_LIST_SIZE <= usize::MAX
}

/// The effect that a continuation pointer asks for.
pub open spec fn effect_of(cont_ptr: usize) -> Effect {
    let base = untagged(cont_ptr);
    let query = base;
    let params = (base + ROC_STR_SIZE) as usize;
    let db_resume = untagged((cont_ptr + ROC_STR_SIZE + ROC_LIST_SIZE) as usize);
    let t = tag_of(cont_ptr);
    if t == TAG_DB_EXECUTE {
        Effect::DbExecute { query, params, resume: db_resume }
    } else if t == TAG_DB_FETCH_ALL {
        Effect::DbFetchAll { query, params, resume: db_resume }
    } else if t == TAG_DB_FETCH_ONE {
        Effect::DbFetchOne { query, params, resume: db_resume }
    } else if t == TAG_LOAD_BODY {
        Effect::LoadBody { resume: base }
    } else if t == TAG_RESPONSE {
        Effect::Respond { response: base }
    } else {
        Effect::Fail
    }
}

/// Whether an effect ends the exchange with the application.
pub open spec fn is_final(effect: Effect) -> bool {
    effect is Respond || effect is Fail
}

/// Decides what the host does for the continuation `cont_ptr`.
pub fn next_effect(cont_ptr: usize) -> (effect: Effect)
    requires
        tag_of(cont_ptr) <= TAG_DB_FETCH_ONE ==> db_args_fit(cont_ptr),
    ensures
        effect == effect_of(cont_ptr),
{
    let tag = get_tag(cont_ptr);
    let base = remove_tag(cont_ptr);
    if tag <= TAG_DB_FETCH_ONE {
        let query = base;
        let params = base + ROC_STR_SIZE;
        let resume = remove_tag(cont_ptr + ROC_STR_SIZE + ROC_LIST_SIZE);
        if tag == TAG_DB_EXECUTE {
            Effect::DbExecute { query, params, resume }
        } else if tag == TAG_DB_FETCH_ALL {
            Effect::DbFetchAll { query, params, resume }
        } else {
            Effect::DbFetchOne { query, params, resume }
        }
    } else if tag == TAG_LOAD_BODY {
        Effect::LoadBody { resume: base }
    } else if tag == TAG_RESPONSE {
        Effect::Respond { response: base }
    } else {
        Effect::Fail
    }
}

/// Address of the refcount word of the allocation that a tagged pointer
/// points into: eight bytes before the untagged address.  The host frees that
/// address once it is done with a continuation.
pub fn refcount_address(ptr: usize) -> (addr: usize)
    requires
        untagged(ptr) >= REFCOUNT_SIZE,
    ensures
        addr == untagged(ptr) - REFCOUNT_SIZE,
{
    remove_tag(ptr) - REFCOUNT_SIZE
}

/// The application's continuation layout: tags 0 to 4 for statement,
/// multi-row query, single-row query, body and response; strings and lists
/// three 8-byte words each; an 8-byte refcount word.
pub proof fn lemma_layout_constants()
    ensures
        TAG_DB_EXECUTE == 0,
        TAG_DB_FETCH_ALL == 1,
        TAG_DB_FETCH_ONE == 2,
        TAG_LOAD_BODY == 3,
        TAG_RESPONSE == 4,
        ROC_STR_SIZE == 24,
        ROC_LIST_SIZE == 24,
        REFCOUNT_SIZE == 8,
{
}

/// Every tag names exactly one effect: the five known tags their own effect,
/// all others failure; an exchange ends exactly on a response or a failure.
pub proof fn lemma_effect_by_tag(cont_ptr: usize)
    ensures
        (effect_of(cont_ptr) is DbExecute) <==> tag_of(cont_ptr) == TAG_DB_EXECUTE,
        (effect_of(cont_ptr) is DbFetchAll) <==> tag_of(cont_ptr) == TAG_DB_FETCH_ALL,
        (effect_of(cont_ptr) is DbFetchOne) <==> tag_of(cont_ptr) == TAG_DB_FETCH_ONE,
        (effect_of(cont_ptr) is LoadBody) <==> tag_of(cont_ptr) == TAG_LOAD_BODY,
        (effect_of(cont_ptr) is Respond) <==> tag_of(cont_ptr) == TAG_RESPONSE,
        (effect_of(cont_ptr) is Fail) <==> tag_of(cont_ptr) > TAG_RESPONSE,
        is_final(effect_of(cont_ptr)) <==> tag_of(cont_ptr) >= TAG_RESPONSE,
{
}

/// The arguments of a database effect lie one after the other from the
/// untagged address on: the query, then the parameter list one `RocStr`
/// further, then the closure data the continuation resumes with.
pub proof fn lemma_db_layout(cont_ptr: usize)
    requires
        tag_of(cont_ptr) <= TAG_DB_FETCH_ONE,
        db_args_fit(cont_ptr),
    ensures
        ({
            let (query, params, resume) = match effect_of(cont_ptr) {
                Effect::DbExecute { query, params, resume } => (query, params, resume),
                Effect::DbFetchAll { query, params, resume } => (query, params, resume),
                Effect::DbFetchOne { query, params, resume } => (query, params, resume),
                _ => (0usize, 0usize, 0usize),
            };
            &&& query == untagged(cont_ptr)
            &&& params == query + ROC_STR_SIZE
            &&& resume == params + ROC_LIST_SIZE
            &&& resume % 8 == 0
        }),
{
    assert((cont_ptr + 48) % 8 == (cont_ptr % 8 + 48) % 8);
}

/// The body and response continuations point straight at their data: the
/// address is the pointer with its tag taken off, so it plus the tag is the
/// pointer again.
pub proof fn lemma_untagged_layout(cont_ptr: usize)
    ensures
        tag_of(cont_ptr) == TAG_LOAD_BODY ==> effect_of(cont_ptr) == (Effect::LoadBody {
            resume: (cont_ptr - cont_ptr % 8) as usize,
        }),
        tag_of(cont_ptr) == TAG_RESPONSE ==> effect_of(cont_ptr) == (Effect::Respond {
            response: (cont_ptr - cont_ptr % 8) as usize,
        }),
        effect_of(cont_ptr) is Respond ==> effect_of(cont_ptr)->response + 4 == cont_ptr,
        effect_of(cont_ptr) is LoadBody ==> effect_of(cont_ptr)->LoadBody_resume + 3 == cont_ptr,
{
}

} // verus!
