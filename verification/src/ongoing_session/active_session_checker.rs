//! Whether the located session can still be used: the service must not
//! have seen it claimed.

use vstd::prelude::*;
use crate::api_client::session_status_entity::CatchSessionStatusResponse;
use crate::api_client::{CatchApiError, CatchApiResponse};
use crate::ongoing_session::{
    get_session_folders, is_session_folder_name, names_of, session_folder_names,
    session_folders_are_the_marked_names,
};
use crate::text::texts;

pub use crate::ongoing_session::{handle_sessions, CatchSessionError};

verus! {

/// What the answer of the status endpoint says of the session. It is valid
/// when the answer has a body whose three fields are all absent, and
/// claimed when any of them is there. An answer without content breaks the
/// endpoint's protocol, and a failed call stays the failure that it was.
pub open spec fn session_validity(
    response: Result<CatchApiResponse<CatchSessionStatusResponse>, CatchApiError>,
) -> Result<bool, CatchApiError> {
    match response {
        Ok(CatchApiResponse::Success(status)) => Ok(status.process.unclaimed()),
        Ok(CatchApiResponse::NoContent) => Err(CatchApiError::InvalidResponse),
        Err(error) => Err(error),
    }
}

/// Judges the answer of the status endpoint for the located session. On
/// `Ok(false)` the session is claimed already: the caller removes the
/// folders that `markers_to_purge` names and tells the user to start anew.
pub fn is_session_valid(
    response: Result<CatchApiResponse<CatchSessionStatusResponse>, CatchApiError>,
) -> (out: Result<bool, CatchApiError>)
    ensures
        out == session_validity(response),
{
    match response {
        Ok(CatchApiResponse::Success(status)) => Ok(status.process.is_unclaimed()),
        Ok(CatchApiResponse::NoContent) => Err(CatchApiError::InvalidResponse),
        Err(error) => Err(error),
    }
}

/// The folders that are removed after the validity check: none for a
/// valid session, and for a claimed one every session folder of the
/// listing, so that the next run starts clean.
pub open spec fn markers_after_check(valid: bool, names: Seq<Seq<char>>) -> Seq<Seq<char>> {
    if valid {
        Seq::empty()
    } else {
        session_folder_names(names)
    }
}

/// Names the folders to remove after the validity check.
pub fn markers_to_purge(valid: bool, entry_names: &Vec<String>) -> (names: Vec<String>)
    ensures
        texts(names@) == markers_after_check(valid, texts(entry_names@)),
{
    if valid {
        let names: Vec<String> = Vec::new();
        assert(texts(names@) =~= Seq::<Seq<char>>::empty());
        names
    } else {
        names_of(get_session_folders(entry_names))
    }
}

/// An answer with a body decides the validity: no field, valid; any
/// field, claimed, and then every marker of the device is removed and
/// nothing but markers. A failed call is never taken for either.
pub proof fn validity_follows_the_answer(
    response: Result<CatchApiResponse<CatchSessionStatusResponse>, CatchApiError>,
    names: Seq<Seq<char>>,
    name: Seq<char>,
)
    ensures
        response matches Ok(CatchApiResponse::Success(status)) ==> session_validity(response)
            == Ok::<bool, CatchApiError>(
            status.process.id is None && status.process.status is None && status.process.output
                is None,
        ),
        response matches Err(error) ==> session_validity(response) == Err::<bool, CatchApiError>(
            error,
        ),
        !(response matches Ok(CatchApiResponse::Success(_))) ==> session_validity(response) is Err,
        markers_after_check(true, names).len() == 0,
        markers_after_check(false, names).contains(name) <==> names.contains(name)
            && is_session_folder_name(name),
{
    session_folders_are_the_marked_names(names, name);
}

/// Whether the failure is the service saying that it knows no such
/// session (status 404). This serves the log only: every failure of the
/// status call ends the run alike.
pub fn is_not_found(error: &CatchApiError) -> (r: bool)
    ensures
        r == (*error == CatchApiError::RequestFailed(Some(404u16))),
{
    match error {
        CatchApiError::RequestFailed(Some(status)) => *status == 404,
        _ => false,
    }
}

} // verus!
