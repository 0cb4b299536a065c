//! The organisation and the repository that the project belongs to, as
//! far as its git configuration tells.

use vstd::prelude::*;
use vstd::string::*;
use unicode_segmentation::UnicodeSegmentation;
use crate::text::{
    chars_of, drop_trailing_spaces, find_char, index_of_first, index_of_first_is_first,
    skip_spaces, starts_with, texts, trimmed, window_ends_with, window_starts_with,
    without_prefix, without_suffix,
};

verus! {

/// The address without the key that a line of the configuration puts
/// before it, and without white space around it.
pub open spec fn without_url_key(url: Seq<char>) -> Seq<char> {
    let line = trimmed(url);
    if starts_with(line, "url = "@) {
        trimmed(line.skip("url = "@.len() as int))
    } else {
        line
    }
}

/// The address without the scheme and host of GitHub, in the first of the
/// three forms that fits.
pub open spec fn without_host(address: Seq<char>) -> Seq<char> {
    if starts_with(address, "git@github.com:"@) {
        address.skip("git@github.com:"@.len() as int)
    } else if starts_with(address, "https://github.com/"@) {
        address.skip("https://github.com/"@.len() as int)
    } else {
        without_prefix(address, "git://github.com/"@)
    }
}

/// What is left of a remote address to name the repository: the owner, a
/// slash, the repository.
pub open spec fn repo_locator(url: Seq<char>) -> Seq<char> {
    without_suffix(without_host(without_url_key(url)), ".git"@)
}

/// The owner and the repository that a remote address names: what stands
/// before the first slash of its locator, and what stands between that
/// slash and the next, or the end. An address without a slash names none.
pub open spec fn parsed_repo(url: Seq<char>) -> Option<(Seq<char>, Seq<char>)> {
    let locator = repo_locator(url);
    let slash = index_of_first(locator, '/');
    if slash >= locator.len() {
        None
    } else {
        let rest = locator.skip(slash + 1);
        Some((locator.take(slash), rest.take(index_of_first(rest, '/'))))
    }
}

/// Neither name that an address gives holds a slash: the owner ends at the
/// first and the repository at the second.
pub proof fn parsed_names_hold_no_slash(url: Seq<char>)
    ensures
        parsed_repo(url) matches Some((owner, repo)) ==> !owner.contains('/') && !repo.contains(
            '/',
        ),
{
    let locator = repo_locator(url);
    let slash = index_of_first(locator, '/');
    index_of_first_is_first(locator, '/');
    if slash < locator.len() {
        let rest = locator.skip(slash + 1);
        index_of_first_is_first(rest, '/');
        let owner = locator.take(slash);
        let repo = rest.take(index_of_first(rest, '/'));
        assert forall|k: int| 0 <= k < owner.len() implies owner[k] != '/' by {
            assert(owner[k] == locator[k]);
        }
        assert forall|k: int| 0 <= k < repo.len() implies repo[k] != '/' by {
            assert(repo[k] == rest[k]);
        }
    }
}

/// The bounds of the address in a line: the line without white space
/// around it and without the key before it.
fn address_bounds(chars: &Vec<char>) -> (bounds: (usize, usize))
    ensures
        bounds.0 <= bounds.1 <= chars.len(),
        chars@.subrange(bounds.0 as int, bounds.1 as int) == without_url_key(chars@),
{
    let end: usize = chars.len();
    let lo: usize = skip_spaces(chars, 0, end);
    let hi: usize = drop_trailing_spaces(chars, lo, end);
    assert(chars@.subrange(0, end as int) =~= chars@);
    let key = chars_of("url = ");
    if window_starts_with(chars, lo, hi, &key) {
        assert(chars@.subrange(lo as int, hi as int).skip(key@.len() as int) =~= chars@.subrange(
            lo + key@.len(),
            hi as int,
        ));
        let after_key: usize = lo + key.len();
        let start: usize = skip_spaces(chars, after_key, hi);
        let stop: usize = drop_trailing_spaces(chars, start, hi);
        (start, stop)
    } else {
        (lo, hi)
    }
}

/// Where the address between `lo` and `hi` begins behind scheme and host.
fn skip_host(chars: &Vec<char>, lo: usize, hi: usize) -> (start: usize)
    requires
        lo <= hi <= chars.len(),
    ensures
        lo <= start <= hi,
        chars@.subrange(start as int, hi as int) == without_host(
            chars@.subrange(lo as int, hi as int),
        ),
{
    let ghost address = chars@.subrange(lo as int, hi as int);
    let ssh = chars_of("git@github.com:");
    if window_starts_with(chars, lo, hi, &ssh) {
        assert(address.skip(ssh@.len() as int) =~= chars@.subrange(lo + ssh@.len(), hi as int));
        return lo + ssh.len();
    }
    let https = chars_of("https://github.com/");
    if window_starts_with(chars, lo, hi, &https) {
        assert(address.skip(https@.len() as int) =~= chars@.subrange(lo + https@.len(), hi as int));
        return lo + https.len();
    }
    let git = chars_of("git://github.com/");
    if window_starts_with(chars, lo, hi, &git) {
        assert(address.skip(git@.len() as int) =~= chars@.subrange(lo + git@.len(), hi as int));
        return lo + git.len();
    }
    lo
}

/// Where the address between `lo` and `hi` ends before the ending `.git`.
fn drop_git_ending(chars: &Vec<char>, lo: usize, hi: usize) -> (stop: usize)
    requires
        lo <= hi <= chars.len(),
    ensures
        lo <= stop <= hi,
        chars@.subrange(lo as int, stop as int) == without_suffix(
            chars@.subrange(lo as int, hi as int),
            ".git"@,
        ),
{
    let ghost address = chars@.subrange(lo as int, hi as int);
    let ending = chars_of(".git");
    if window_ends_with(chars, lo, hi, &ending) {
        assert(address.take(address.len() - ending@.len()) =~= chars@.subrange(
            lo as int,
            hi - ending@.len(),
        ));
        hi - ending.len()
    } else {
        hi
    }
}

/// Reads the owner and the repository from the address of a git remote.
/// The address may be a line of the configuration (`url = ...`), and may
/// name GitHub over ssh, https or the git protocol, with or without the
/// ending `.git`. An address without a slash is refused, with a message
/// that shows what was left of it.
pub fn parse_github_url(url: &str) -> (out: Result<(String, String), String>)
    ensures
        match out {
            Ok((owner, repo)) => parsed_repo(url@) == Some((owner@, repo@)),
            Err(message) => parsed_repo(url@) is None && message@
                == "Unable to parse GitHub URL: "@ + repo_locator(url@),
        },
{
    let chars = chars_of(url);
    let (start, end) = address_bounds(&chars);
    let lo: usize = skip_host(&chars, start, end);
    let hi: usize = drop_git_ending(&chars, lo, end);
    let ghost locator = chars@.subrange(lo as int, hi as int);
    assert(locator == repo_locator(url@));
    let slash: usize = find_char(&chars, '/', lo, hi);
    if slash == hi {
        let rest = url.substring_char(lo, hi);
        Err(String::from_str("Unable to parse GitHub URL: ").concat(rest))
    } else {
        let next: usize = find_char(&chars, '/', slash + 1, hi);
        let owner = String::from_str(url.substring_char(lo, slash));
        let repo = String::from_str(url.substring_char(slash + 1, next));
        proof {
            assert(locator.skip(slash - lo + 1) =~= chars@.subrange(slash + 1, hi as int));
            assert(locator.take(slash - lo) =~= chars@.subrange(lo as int, slash as int));
            assert(chars@.subrange(slash + 1, hi as int).take(next - (slash + 1))
                =~= chars@.subrange(slash + 1, next as int));
        }
        Ok((owner, repo))
    }
}

/// The line that opens the section of the remote named `origin`.
pub const ORIGIN_SECTION: &'static str = "[remote \"origin\"]";

/// Why the project's repository is not known.
#[derive(Debug, Clone, PartialEq, Eq)]
pub enum GitInfoError {
    /// The configuration names no address for the remote `origin`.
    RemoteUrlNotFound,
    /// The address names no owner and repository; the message says what was
    /// left of it.
    UnparsableUrl(String),
}

/// `s` without any of the copies of `p` that it begins with.
pub open spec fn without_repeated_prefix(s: Seq<char>, p: Seq<char>) -> Seq<char>
    decreases s.len(),
{
    if p.len() > 0 && starts_with(s, p) {
        without_repeated_prefix(s.skip(p.len() as int), p)
    } else {
        s
    }
}

/// The line opens the section of the remote `origin`.
pub open spec fn opens_origin(line: Seq<char>) -> bool {
    trimmed(line) == ORIGIN_SECTION@
}

/// The index of the first line that opens the section of `origin`, or the
/// number of lines where none does.
pub open spec fn origin_line(lines: Seq<Seq<char>>) -> int
    decreases lines.len(),
{
    if lines.len() == 0 {
        0
    } else if opens_origin(lines[0]) {
        0
    } else {
        1 + origin_line(lines.drop_first())
    }
}

/// The address that a section gives, read from the lines that follow its
/// opening: the first line that sets `url`, unless another section opens
/// before it. Of that line the white space around it and the key are left
/// out.
pub open spec fn url_in_section(lines: Seq<Seq<char>>) -> Option<Seq<char>>
    decreases lines.len(),
{
    if lines.len() == 0 {
        None
    } else if starts_with(trimmed(lines[0]), "["@) {
        None
    } else if starts_with(trimmed(lines[0]), "url = "@) {
        Some(without_repeated_prefix(trimmed(lines[0]), "url = "@))
    } else {
        url_in_section(lines.drop_first())
    }
}

/// The address of the remote `origin` in the lines of a configuration.
pub open spec fn remote_url(lines: Seq<Seq<char>>) -> Option<Seq<char>> {
    let origin = origin_line(lines);
    if origin >= lines.len() {
        None
    } else {
        url_in_section(lines.skip(origin + 1))
    }
}

/// Whether the line, without white space around it, begins with `p`.
fn trimmed_starts_with(chars: &Vec<char>, p: &Vec<char>) -> (r: bool)
    ensures
        r == starts_with(trimmed(chars@), p@),
{
    let end: usize = chars.len();
    let lo: usize = skip_spaces(chars, 0, end);
    let hi: usize = drop_trailing_spaces(chars, lo, end);
    assert(chars@.subrange(0, end as int) =~= chars@);
    window_starts_with(chars, lo, hi, p)
}

/// Whether the line, without white space around it, is `p`.
fn trimmed_is(chars: &Vec<char>, p: &Vec<char>) -> (r: bool)
    ensures
        r == (trimmed(chars@) == p@),
{
    let end: usize = chars.len();
    let lo: usize = skip_spaces(chars, 0, end);
    let hi: usize = drop_trailing_spaces(chars, lo, end);
    assert(chars@.subrange(0, end as int) =~= chars@);
    let ghost line = chars@.subrange(lo as int, hi as int);
    if hi - lo != p.len() {
        return false;
    }
    assert(line.subrange(0, p.len() as int) =~= line);
    window_starts_with(chars, lo, hi, p)
}

/// Where the part of the line from `lo` to `hi` begins behind every copy
/// of `p` that it begins with.
fn skip_repeated_prefix(chars: &Vec<char>, lo: usize, hi: usize, p: &Vec<char>) -> (start: usize)
    requires
        lo <= hi <= chars.len(),
    ensures
        lo <= start <= hi,
        chars@.subrange(start as int, hi as int) == without_repeated_prefix(
            chars@.subrange(lo as int, hi as int),
            p@,
        ),
{
    let mut start: usize = lo;
    if p.len() == 0 {
        return lo;
    }
    while window_starts_with(chars, start, hi, p)
        invariant
            lo <= start <= hi <= chars.len(),
            p.len() > 0,
            without_repeated_prefix(chars@.subrange(lo as int, hi as int), p@)
                == without_repeated_prefix(chars@.subrange(start as int, hi as int), p@),
        decreases hi - start,
    {
        proof {
            assert(chars@.subrange(start as int, hi as int).skip(p.len() as int)
                =~= chars@.subrange(start + p.len(), hi as int));
        }
        start = start + p.len();
    }
    start
}

/// The bounds of the line without white space around it.
fn trimmed_bounds(chars: &Vec<char>) -> (bounds: (usize, usize))
    ensures
        bounds.0 <= bounds.1 <= chars.len(),
        chars@.subrange(bounds.0 as int, bounds.1 as int) == trimmed(chars@),
{
    let end: usize = chars.len();
    let lo: usize = skip_spaces(chars, 0, end);
    let hi: usize = drop_trailing_spaces(chars, lo, end);
    assert(chars@.subrange(0, end as int) =~= chars@);
    (lo, hi)
}

/// Finds the first line that opens the section of `origin`.
fn find_origin(lines: &Vec<String>) -> (at: usize)
    ensures
        at <= lines.len(),
        at == origin_line(texts(lines@)),
{
    let header = chars_of(ORIGIN_SECTION);
    let mut i: usize = 0;
    assert(texts(lines@).skip(0) =~= texts(lines@));
    while i < lines.len()
        invariant
            i <= lines.len(),
            header@ == ORIGIN_SECTION@,
            origin_line(texts(lines@)) == i + origin_line(texts(lines@).skip(i as int)),
        decreases lines.len() - i,
    {
        let line = chars_of(lines[i].as_str());
        proof {
            let rest = texts(lines@).skip(i as int);
            assert(rest[0] == lines@[i as int]@);
            assert(rest.drop_first() =~= texts(lines@).skip(i + 1));
        }
        if trimmed_is(&line, &header) {
            return i;
        }
        i += 1;
    }
    i
}

/// Reads the address of the remote `origin` from the lines of the
/// project's git configuration.
pub fn get_git_remote_url(lines: &Vec<String>) -> (out: Result<String, GitInfoError>)
    ensures
        match out {
            Ok(url) => remote_url(texts(lines@)) == Some(url@),
            Err(error) => remote_url(texts(lines@)) is None && error is RemoteUrlNotFound,
        },
{
    let origin: usize = find_origin(lines);
    if origin >= lines.len() {
        return Err(GitInfoError::RemoteUrlNotFound);
    }
    let bracket = chars_of("[");
    let key = chars_of("url = ");
    let mut i: usize = origin + 1;
    assert(texts(lines@).len() == lines@.len());
    assert(remote_url(texts(lines@)) == url_in_section(texts(lines@).skip(origin + 1)));
    while i < lines.len()
        invariant
            origin < i <= lines.len(),
            remote_url(texts(lines@)) == url_in_section(texts(lines@).skip(origin + 1)),
            bracket@ == "["@,
            key@ == "url = "@,
            url_in_section(texts(lines@).skip(origin + 1)) == url_in_section(
                texts(lines@).skip(i as int),
            ),
        decreases lines.len() - i,
    {
        let line = chars_of(lines[i].as_str());
        let ghost rest = texts(lines@).skip(i as int);
        proof {
            assert(rest.len() > 0);
            assert(rest[0] == line@);
            assert(rest.drop_first() =~= texts(lines@).skip(i + 1));
            assert(url_in_section(rest) == if starts_with(trimmed(line@), "["@) {
                None
            } else if starts_with(trimmed(line@), "url = "@) {
                Some(without_repeated_prefix(trimmed(line@), "url = "@))
            } else {
                url_in_section(rest.drop_first())
            });
        }
        if trimmed_starts_with(&line, &bracket) {
            return Err(GitInfoError::RemoteUrlNotFound);
        }
        if trimmed_starts_with(&line, &key) {
            let (lo, hi) = trimmed_bounds(&line);
            let start: usize = skip_repeated_prefix(&line, lo, hi, &key);
            let url = lines[i].as_str().substring_char(start, hi);
            return Ok(String::from_str(url));
        }
        i += 1;
    }
    Err(GitInfoError::RemoteUrlNotFound)
}

/// What the form starts from, given the lines of the configuration where
/// the project has one that can be read.
pub open spec fn repo_defaults(lines: Option<Seq<Seq<char>>>) -> Option<(Seq<char>, Seq<char>)> {
    match lines {
        None => Some((Seq::empty(), Seq::empty())),
        Some(lines) => match remote_url(lines) {
            None => Some((Seq::empty(), Seq::empty())),
            Some(url) => parsed_repo(url),
        },
    }
}

/// The owner and the repository with which the form opens. A project
/// without a git configuration, or without an `origin`, starts from empty
/// fields; an `origin` whose address cannot be read is an error.
pub fn get_repo_info(config_lines: Option<&Vec<String>>) -> (out: Result<
    (String, String),
    GitInfoError,
>)
    ensures
        match out {
            Ok((owner, repo)) => repo_defaults(
                match config_lines {
                    Some(lines) => Some(texts(lines@)),
                    None => None,
                },
            ) == Some((owner@, repo@)),
            Err(error) => repo_defaults(
                match config_lines {
                    Some(lines) => Some(texts(lines@)),
                    None => None,
                },
            ) is None && error is UnparsableUrl,
        },
{
    let lines = match config_lines {
        Some(lines) => lines,
        None => {
            return Ok((String::new(), String::new()));
        },
    };
    match get_git_remote_url(lines) {
        Ok(url) => match parse_github_url(url.as_str()) {
            Ok(names) => Ok(names),
            Err(message) => Err(GitInfoError::UnparsableUrl(message)),
        },
        Err(_) => Ok((String::new(), String::new())),
    }
}

/// The number of extended grapheme clusters of a text, as
/// `unicode_segmentation` counts them.
pub uninterp spec fn grapheme_clusters(text: Seq<char>) -> nat;

/// Calls `UnicodeSegmentation::graphemes` for extended clusters and counts
/// what it yields. The count is named.
#[verifier::external_body]
fn count_graphemes(text: &str) -> (count: usize)
    ensures
        count == grapheme_clusters(text@),
{
    text.graphemes(true).count()
}

/// Fewest characters, as the user sees them, of a name in the form.
pub const MIN_NAME_GRAPHEMES: usize = 2;

/// Whether a count of characters is enough for a name.
pub fn is_long_enough(graphemes: usize) -> (r: bool)
    ensures
        r == (graphemes >= MIN_NAME_GRAPHEMES),
{
    graphemes >= MIN_NAME_GRAPHEMES
}

/// Whether the form accepts the text as a name: it must have at least two
/// characters as the user sees them.
pub fn validate(text: &str) -> (r: bool)
    ensures
        r == (grapheme_clusters(text@) >= MIN_NAME_GRAPHEMES),
{
    is_long_enough(count_graphemes(text))
}

} // verus!
