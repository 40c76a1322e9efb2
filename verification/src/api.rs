//! The request-handling rules: which store operation each route performs
//! and which response it answers with.
//!
//! Transport concerns (parsing a path id, parsing a JSON body) are settled
//! before these functions run: a malformed path id arrives as `None`, an
//! unparsable body arrives as `None`. Every routing decision after that
//! point is stated and verified here.

use vstd::prelude::*;
use crate::movie::{Movie, MovieView};
use crate::store::{Store, views_of, contains_id, idx_of};

verus! {

/// The fields a request body supplies for a create or an update. A
/// client may supply an id; the server assigns ids itself, so a supplied
/// id never reaches a record — a create even refuses a drawn id equal to
/// it, and an update takes its id from the path alone.
pub struct MovieInput {
    pub id: Option<u128>,
    pub title: String,
    pub director: String,
}

/// A handler's decision: the status the response carries and the records
/// its body shows.
pub enum ApiResponse {
    /// 200: one record.
    OkMovie(Movie),
    /// 200: all records, insertion order preserved.
    OkList(Vec<Movie>),
    /// 201: the record just created.
    Created(Movie),
    /// 204: empty body, after a removal.
    NoContent,
    /// 400: the request body did not parse.
    BadRequest,
    /// 404: no record carries the id, or the path id was malformed.
    NotFound,
}

impl ApiResponse {
    /// The HTTP status each decision is carried with.
    pub open spec fn status_spec(&self) -> u16 {
        match self {
            ApiResponse::OkMovie(_) => 200,
            ApiResponse::OkList(_) => 200,
            ApiResponse::Created(_) => 201,
            ApiResponse::NoContent => 204,
            ApiResponse::BadRequest => 400,
            ApiResponse::NotFound => 404,
        }
    }

    /// The HTTP status code of this response.
    pub fn status_code(&self) -> (c: u16)
        ensures
            c == self.status_spec(),
    {
        match self {
            ApiResponse::OkMovie(_) => 200,
            ApiResponse::OkList(_) => 200,
            ApiResponse::Created(_) => 201,
            ApiResponse::NoContent => 204,
            ApiResponse::BadRequest => 400,
            ApiResponse::NotFound => 404,
        }
    }
}

/// GET over the whole collection: answers 200 with a snapshot of all
/// records, insertion order preserved.
pub fn handle_list(store: &Store) -> (r: ApiResponse)
    ensures
        r matches ApiResponse::OkList(ms) && views_of(ms@) == store@,
{
    ApiResponse::OkList(store.list())
}

/// GET over one record: answers 200 with the record carrying the id, and
/// 404 when the path id was malformed or no record carries it.
pub fn handle_get(store: &Store, id: Option<u128>) -> (r: ApiResponse)
    requires
        store.wf(),
    ensures
        id is None ==> r == ApiResponse::NotFound,
        id matches Some(i) && !contains_id(store@, i) ==> r == ApiResponse::NotFound,
        id matches Some(i) ==> (contains_id(store@, i) ==> (r matches ApiResponse::OkMovie(m)
            && m@ == store@[idx_of(store@, i)])),
{
    match id {
        None => ApiResponse::NotFound,
        Some(i) => match store.get(i) {
            Some(m) => ApiResponse::OkMovie(m),
            None => ApiResponse::NotFound,
        },
    }
}

/// POST: answers 400 when the body did not parse, else creates a record
/// with a server-assigned id and answers 201 with it. The assigned id is
/// fresh: it carries no record already held, it was never issued before
/// in this process, and it is never the id the client supplied in the
/// body. The id generator draws at random, so a refused draw cannot be
/// ruled out: `None` reports one, and the store is then unchanged. Where
/// no draw can be refused — a store that has held no record and issued no
/// id, and a body supplying no id — a response is owed.
pub fn handle_create(store: &mut Store, body: Option<MovieInput>) -> (r: Option<ApiResponse>)
    requires
        old(store).wf(),
    ensures
        final(store).wf(),
        body is None ==> r == Some(ApiResponse::BadRequest) && final(store)@ == old(store)@
            && final(store).issued() == old(store).issued(),
        r is None ==> final(store)@ == old(store)@ && final(store).issued() == old(
            store,
        ).issued(),
        r is None ==> (old(store)@.len() > 0 || old(store).issued().len() > 0 || (body matches Some(
            b,
        ) && b.id is Some)),
        body matches Some(b) ==> (r matches Some(resp) ==> (resp matches ApiResponse::Created(m)
            && !contains_id(old(store)@, m@.id)
            && !old(store).issued().contains(m@.id)
            && (b.id matches Some(c) ==> m@.id != c)
            && m@.title == b.title@
            && m@.director == b.director@
            && final(store)@ == old(store)@.push(m@)
            && final(store).issued() == old(store).issued().push(m@.id))),
{
    match body {
        None => Some(ApiResponse::BadRequest),
        Some(b) => match store.create_avoiding(b.title, b.director, b.id) {
            Some(m) => Some(ApiResponse::Created(m)),
            None => None,
        },
    }
}

/// PUT over one record: answers 400 when the body did not parse, 404 when
/// the path id was malformed or no record carries it, else overwrites
/// title and director in place and answers 200 with the rewritten record.
/// The path alone names the record: a client-supplied id in the body is
/// ignored, and the record keeps the id it was created with.
pub fn handle_update(store: &mut Store, id: Option<u128>, body: Option<MovieInput>) -> (r:
    ApiResponse)
    requires
        old(store).wf(),
    ensures
        final(store).wf(),
        final(store).issued() == old(store).issued(),
        body is None ==> r == ApiResponse::BadRequest && final(store)@ == old(store)@,
        body is Some && id is None ==> r == ApiResponse::NotFound && final(store)@ == old(store)@,
        body matches Some(b) && id matches Some(i) && !contains_id(old(store)@, i)
            ==> r == ApiResponse::NotFound && final(store)@ == old(store)@,
        body matches Some(b) ==> (id matches Some(i) ==> (contains_id(old(store)@, i)
            ==> (r matches ApiResponse::OkMovie(m)
            && m@ == (MovieView { id: i, title: b.title@, director: b.director@ })
            && final(store)@ == old(store)@.update(idx_of(old(store)@, i), m@)))),
{
    match body {
        None => ApiResponse::BadRequest,
        Some(b) => match id {
            None => ApiResponse::NotFound,
            Some(i) => match store.update(i, b.title, b.director) {
                Some(m) => ApiResponse::OkMovie(m),
                None => ApiResponse::NotFound,
            },
        },
    }
}

/// DELETE over one record: answers 404 when the path id was malformed or
/// no record carries it, else removes that one record and answers 204.
pub fn handle_delete(store: &mut Store, id: Option<u128>) -> (r: ApiResponse)
    requires
        old(store).wf(),
    ensures
        final(store).wf(),
        final(store).issued() == old(store).issued(),
        id is None ==> r == ApiResponse::NotFound && final(store)@ == old(store)@,
        id matches Some(i) && !contains_id(old(store)@, i) ==> r == ApiResponse::NotFound
            && final(store)@ == old(store)@,
        id matches Some(i) ==> (contains_id(old(store)@, i) ==> r == ApiResponse::NoContent
            && final(store)@ == old(store)@.remove(idx_of(old(store)@, i))
            && final(store)@.len() == old(store)@.len() - 1
            && !contains_id(final(store)@, i)),
{
    match id {
        None => ApiResponse::NotFound,
        Some(i) => {
            if store.delete(i) {
                ApiResponse::NoContent
            } else {
                ApiResponse::NotFound
            }
        },
    }
}

} // verus!
