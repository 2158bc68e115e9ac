//! Fetching entity listings: the URL of a request and the pagination step
//! that walks a cursor-paged listing.

use vstd::prelude::*;

use vstd::string::StringExecFns;

verus! {

/// The paging block of a listing answer.
pub struct Paging {
    pub current: String,
    pub offset: i64,
    pub limit: i64,
    pub total: i64,
    pub first: String,
    pub prev: String,
    pub next: Option<String>,
    pub last: String,
}

/// One page of a listing answer: its records and its paging block.
pub struct ListSlice<T> {
    pub data: Vec<T>,
    pub paging: Paging,
}

/// The URL of an entity request: the base URL and the route, with the
/// service id as a query parameter when one is given.
pub open spec fn spec_fetch_url(base: Seq<char>, route: Seq<char>, sid: Option<Seq<char>>) -> Seq<
    char,
> {
    let u = base + "/"@ + route;
    match sid {
        Some(s) => u + "?service_id="@ + s,
        None => u,
    }
}

/// Builds the URL of an entity request.
pub fn fetch_url(base: &str, route: &str, service_id: Option<&str>) -> (r: String)
    ensures
        r@ == spec_fetch_url(base@, route@, service_id.deep_view()),
{
    let u = base.to_owned().concat("/").concat(route);
    match service_id {
        Some(sid) => u.concat("?service_id=").concat(sid),
        None => u,
    }
}

/// One pagination round: takes the page's records into the accumulator, in
/// page order, and answers the URL of the next page, or `None` when the
/// listing is complete.
pub fn page_step<T>(entities: &mut Vec<T>, base_url: &str, slice: ListSlice<T>) -> (r: Option<
    String,
>)
    ensures
        final(entities)@ == old(entities)@ + slice.data@,
        r matches Some(u) ==> slice.paging.next matches Some(n) && u@ == base_url@ + n@,
        r is None <==> slice.paging.next is None,
{
    let ListSlice { mut data, paging } = slice;
    entities.append(&mut data);
    match paging.next {
        Some(n) => Some(base_url.to_owned().concat(n.as_str())),
        None => None,
    }
}

} // verus!
