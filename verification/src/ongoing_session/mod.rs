//! Discovery of the session that is in progress on this device. A session
//! is marked by a folder whose name holds its id; exactly one such folder
//! may exist at a time.

use vstd::prelude::*;
use vstd::string::*;
use crate::text::{starts_with, texts};

pub mod active_session_checker;
pub mod session_connector;

verus! {

/// What the names of session folders begin with.
pub const SESSION_FOLDER_PREFIX: &'static str = "catch_session_";

/// The pattern of a session folder's name. Its one group captures the id.
pub const SESSION_FOLDER_PATTERN: &'static str = "^catch_session_(.+)$";

/// The error of a local file operation, carried through as it came.
#[verifier::external_type_specification]
#[verifier::external_body]
pub struct ExIoError(std::io::Error);

/// Why no session can be used.
#[derive(Debug)]
pub enum CatchSessionError {
    NoSessionFound,
    MultipleSessionsFound,
    IoError(std::io::Error),
}

/// A marker folder and the session that it stands for.
#[derive(Debug)]
pub struct SessionFolder {
    pub session_id: String,
    pub folder_name: String,
}

/// The name marks a session: the prefix, then an id of at least one
/// character, with no line feed anywhere.
pub open spec fn is_session_folder_name(name: Seq<char>) -> bool {
    &&& starts_with(name, SESSION_FOLDER_PREFIX@)
    &&& name.len() > SESSION_FOLDER_PREFIX@.len()
    &&& !name.contains('\n')
}

/// The id in a session folder's name: what follows the prefix.
pub open spec fn session_id_of(name: Seq<char>) -> Seq<char> {
    name.skip(SESSION_FOLDER_PREFIX@.len() as int)
}

/// Those of the names that mark a session, in their order.
pub open spec fn session_folder_names(names: Seq<Seq<char>>) -> Seq<Seq<char>> {
    names.filter(|name: Seq<char>| is_session_folder_name(name))
}

/// The texts of a list of session folders: their names.
pub open spec fn folder_names(folders: Seq<SessionFolder>) -> Seq<Seq<char>> {
    folders.map_values(|f: SessionFolder| f.folder_name@)
}

/// Every folder's id is the one that its name holds.
pub open spec fn ids_match_names(folders: Seq<SessionFolder>) -> bool {
    forall|i: int|
        0 <= i < folders.len() ==> (#[trigger] folders[i]).session_id@ == session_id_of(
            folders[i].folder_name@,
        )
}

/// Matches `text` against the session folder pattern with
/// `regex::Regex::new` and `Regex::captures`, and gives the text of the
/// first group. The contract holds for that one pattern only and states what
/// the pattern means in the syntax of the regex crate: anchored at both
/// ends of the text, the literal prefix, then one or more characters of
/// which none is a line feed, all of them captured.
#[verifier::external_body]
fn first_capture(pattern: &str, text: &str) -> (id: Option<String>)
    requires
        pattern@ == SESSION_FOLDER_PATTERN@,
    ensures
        match id {
            Some(id) => is_session_folder_name(text@) && id@ == session_id_of(text@),
            None => !is_session_folder_name(text@),
        },
{
    let regex = regex::Regex::new(pattern).ok()?;
    let captures = regex.captures(text)?;
    captures.get(1).map(|group| group.as_str().to_string())
}

/// The session that a folder of this name marks, if it marks one.
pub fn is_session_folder(name: &str) -> (found: Option<SessionFolder>)
    ensures
        match found {
            Some(folder) => is_session_folder_name(name@) && folder.folder_name@ == name@
                && folder.session_id@ == session_id_of(name@),
            None => !is_session_folder_name(name@),
        },
{
    match first_capture(SESSION_FOLDER_PATTERN, name) {
        Some(id) => Some(SessionFolder { session_id: id, folder_name: String::from_str(name) }),
        None => None,
    }
}

/// The session folders among the entries of a directory, in the order of
/// the listing. Entries of other names are passed over.
pub fn get_session_folders(entry_names: &Vec<String>) -> (folders: Vec<SessionFolder>)
    ensures
        folder_names(folders@) == session_folder_names(texts(entry_names@)),
        ids_match_names(folders@),
{
    let mut folders: Vec<SessionFolder> = Vec::new();
    let mut i: usize = 0;
    proof {
        reveal(Seq::filter);
        assert(texts(entry_names@).take(0) =~= Seq::<Seq<char>>::empty());
        assert(folder_names(folders@) =~= Seq::<Seq<char>>::empty());
    }
    while i < entry_names.len()
        invariant
            i <= entry_names.len(),
            folder_names(folders@) == session_folder_names(texts(entry_names@).take(i as int)),
            ids_match_names(folders@),
        decreases entry_names.len() - i,
    {
        let ghost before = folders@;
        let found = is_session_folder(entry_names[i].as_str());
        proof {
            let all = texts(entry_names@);
            assert(all.take(i + 1) =~= all.take(i as int).push(all[i as int]));
            all.take(i as int).lemma_filter_push(
                all[i as int],
                |name: Seq<char>| is_session_folder_name(name),
            );
        }
        match found {
            Some(folder) => {
                folders.push(folder);
                assert(folder_names(folders@) =~= folder_names(before).push(folder.folder_name@));
            },
            None => {},
        }
        i += 1;
    }
    assert(texts(entry_names@).take(entry_names.len() as int) =~= texts(entry_names@));
    folders
}

/// What a directory listing says of the session in progress.
pub open spec fn session_decision(names: Seq<Seq<char>>, out: Result<String, CatchSessionError>) -> bool {
    let marked = session_folder_names(names);
    if marked.len() == 0 {
        out matches Err(CatchSessionError::NoSessionFound)
    } else if marked.len() == 1 {
        out matches Ok(id) && id@ == session_id_of(marked[0])
    } else {
        out matches Err(CatchSessionError::MultipleSessionsFound)
    }
}

/// The folders that are removed when the listing is handled: every session
/// folder where there are two or more, none otherwise.
pub open spec fn purged_names(names: Seq<Seq<char>>) -> Seq<Seq<char>> {
    if session_folder_names(names).len() >= 2 {
        session_folder_names(names)
    } else {
        Seq::empty()
    }
}

/// Finds the one session in progress from the names of the entries of the
/// device's temporary directory. No session folder is an error; one gives
/// its id; two or more are an error, and `folders_to_purge` then names all
/// of them for removal.
pub fn handle_sessions(entry_names: &Vec<String>) -> (out: Result<String, CatchSessionError>)
    ensures
        session_decision(texts(entry_names@), out),
{
    let mut sessions = get_session_folders(entry_names);
    assert(folder_names(sessions@).len() == sessions@.len());
    if sessions.len() == 0 {
        Err(CatchSessionError::NoSessionFound)
    } else if sessions.len() == 1 {
        let only = sessions.remove(0);
        assert(folder_names(sessions@.insert(0, only))[0] == only.folder_name@);
        Ok(only.session_id)
    } else {
        Err(CatchSessionError::MultipleSessionsFound)
    }
}

/// The names of the folders that handling the listing removes, each with
/// all that it holds. A folder whose name marks no session is never named.
pub fn folders_to_purge(entry_names: &Vec<String>) -> (names: Vec<String>)
    ensures
        texts(names@) == purged_names(texts(entry_names@)),
{
    let sessions = get_session_folders(entry_names);
    assert(folder_names(sessions@).len() == sessions@.len());
    if sessions.len() >= 2 {
        names_of(sessions)
    } else {
        let names: Vec<String> = Vec::new();
        assert(texts(names@) =~= Seq::<Seq<char>>::empty());
        names
    }
}

/// The names of a list of session folders.
pub fn names_of(folders: Vec<SessionFolder>) -> (names: Vec<String>)
    ensures
        texts(names@) == folder_names(folders@),
{
    let mut names: Vec<String> = Vec::new();
    let mut i: usize = 0;
    while i < folders.len()
        invariant
            i <= folders.len(),
            texts(names@) == folder_names(folders@).take(i as int),
        decreases folders.len() - i,
    {
        let ghost before = names@;
        let name = folders[i].folder_name.clone();
        names.push(name);
        i += 1;
        assert(texts(names@) =~= texts(before).push(name@));
        assert(folder_names(folders@).take(i as int) =~= folder_names(folders@).take(i - 1).push(
            folders@[i - 1].folder_name@,
        ));
    }
    assert(folder_names(folders@).take(folders.len() as int) =~= folder_names(folders@));
    names
}

/// The session folders of a listing are the names of the listing that
/// mark a session, all of them and no other name.
pub proof fn session_folders_are_the_marked_names(names: Seq<Seq<char>>, name: Seq<char>)
    ensures
        session_folder_names(names).contains(name) <==> names.contains(name)
            && is_session_folder_name(name),
{
    let marks = |n: Seq<char>| is_session_folder_name(n);
    let marked = session_folder_names(names);
    if marked.contains(name) {
        let i = choose|i: int| 0 <= i < marked.len() && marked[i] == name;
        names.lemma_filter_pred(marks, i);
        names.lemma_filter_contains_rev(marks, name);
    }
    if names.contains(name) && is_session_folder_name(name) {
        let i = choose|i: int| 0 <= i < names.len() && names[i] == name;
        names.lemma_filter_contains(marks, i);
    }
}

/// Handling a listing removes session folders of that listing and nothing
/// else, and where it finds two or more, it removes every one of them.
pub proof fn purge_removes_exactly_the_session_folders(names: Seq<Seq<char>>, name: Seq<char>)
    ensures
        purged_names(names).contains(name) ==> names.contains(name) && is_session_folder_name(
            name,
        ),
        session_folder_names(names).len() >= 2 && names.contains(name) && is_session_folder_name(
            name,
        ) ==> purged_names(names).contains(name),
        session_folder_names(names).len() < 2 ==> purged_names(names).len() == 0,
{
    session_folders_are_the_marked_names(names, name);
}

/// A listing in which no name marks a session has no session: the filter
/// keeps nothing, so handling it reports that none was found.
pub proof fn no_marker_means_no_session(names: Seq<Seq<char>>)
    requires
        forall|i: int| 0 <= i < names.len() ==> !is_session_folder_name(#[trigger] names[i]),
    ensures
        session_folder_names(names).len() == 0,
{
    let marks = |n: Seq<char>| is_session_folder_name(n);
    if session_folder_names(names).len() > 0 {
        names.lemma_filter_pred(marks, 0);
        names.lemma_filter_contains_rev(marks, session_folder_names(names)[0]);
    }
}

impl From<std::io::Error> for CatchSessionError {
    /// The error that ends session handling when a folder could not be
    /// listed or removed.
    fn from(error: std::io::Error) -> (out: Self) {
        CatchSessionError::IoError(error)
    }
}

impl vstd::std_specs::convert::FromSpecImpl<std::io::Error> for CatchSessionError {
    open spec fn obeys_from_spec() -> bool {
        true
    }

    open spec fn from_spec(error: std::io::Error) -> Self {
        CatchSessionError::IoError(error)
    }
}

} // verus!
