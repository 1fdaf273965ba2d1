//! What the customer endpoints answer, given what the database gave back.
use vstd::prelude::*;
use vstd::string::*;
use crate::manajemen_pelanggan::model::pelanggan::Pelanggan;
use crate::manajemen_pelanggan::service::pelanggan::{filtered_as, sorts_to, PelangganService};

verus! {

/// The body of an answer that carries only a message.
#[derive(Debug)]
pub struct Response {
    pub message: String,
}

/// A status code with a message body.
pub open spec fn answers(r: (u16, Response), status: u16, msg: Seq<char>) -> bool {
    r.0 == status && r.1.message@ == msg
}

fn respond(status: u16, message: &str) -> (r: (u16, Response))
    ensures
        answers(r, status, message@),
{
    (status, Response { message: String::from_str(message) })
}

/// The answer to a customer listing: the customers fetched, sorted and
/// narrowed as the query asks; a server error where the fetch failed.
pub fn list_pelanggan_response(
    fetched: Option<Vec<Pelanggan>>,
    sort: Option<String>,
    filter: Option<String>,
    keyword: Option<String>,
) -> (r: Result<Vec<Pelanggan>, (u16, Response)>)
    ensures
        fetched is None ==> (r matches Err(e) && answers(e, 500, "Failed to fetch pelanggan"@)),
        fetched matches Some(all) ==> (r matches Ok(v) && exists|sorted: Seq<Pelanggan>| {
            &&& #[trigger] sorts_to(sort, all@, sorted)
            &&& match (filter, keyword) {
                (Some(f), Some(k)) => v@ == filtered_as(f@, sorted, k@),
                _ => v@ == sorted,
            }
        }),
{
    match fetched {
        None => Err(respond(500, "Failed to fetch pelanggan")),
        Some(all) => Ok(PelangganService::sort_and_filter(all, sort, filter, keyword)),
    }
}

/// The answer to registering a customer, given whether it was stored.
pub fn create_pelanggan_response(stored: bool) -> (r: Result<Response, (u16, Response)>)
    ensures
        stored ==> (r matches Ok(b) && b.message@ == "Pelanggan created successfully"@),
        !stored ==> (r matches Err(e) && answers(e, 500, "Failed to create pelanggan"@)),
{
    if stored {
        Ok(Response { message: String::from_str("Pelanggan created successfully") })
    } else {
        Err(respond(500, "Failed to create pelanggan"))
    }
}

/// The answer to a request for one customer: it, or not found (404).
pub fn get_pelanggan_response(found: Option<Pelanggan>) -> (r: Result<Pelanggan, u16>)
    ensures
        match found {
            Some(p) => r == Ok::<Pelanggan, u16>(p),
            None => r == Err::<Pelanggan, u16>(404),
        },
{
    match found {
        Some(p) => Ok(p),
        None => Err(404),
    }
}

/// An update is refused (400) where the body names another customer than
/// the path.
pub fn check_update_target(path_id: i32, body: &Pelanggan) -> (r: Option<(u16, Response)>)
    ensures
        body.id == path_id ==> r is None,
        body.id != path_id ==> (r matches Some(e) && answers(e, 400, "Invalid data"@)),
{
    if body.id != path_id {
        Some(respond(400, "Invalid data"))
    } else {
        None
    }
}

/// The answer to an update, given whether it was stored.
pub fn update_pelanggan_response(stored: bool) -> (r: (u16, Response))
    ensures
        stored ==> answers(r, 200, "Pelanggan updated successfully"@),
        !stored ==> answers(r, 500, "Try again later"@),
{
    if stored {
        respond(200, "Pelanggan updated successfully")
    } else {
        respond(500, "Try again later")
    }
}

/// The answer to a deletion, given whether it went through.
pub fn delete_pelanggan_response(deleted: bool) -> (r: (u16, Response))
    ensures
        deleted ==> answers(r, 200, "Pelanggan deleted successfully"@),
        !deleted ==> answers(r, 500, "Failed to delete pelanggan"@),
{
    if deleted {
        respond(200, "Pelanggan deleted successfully")
    } else {
        respond(500, "Failed to delete pelanggan")
    }
}

} // verus!
