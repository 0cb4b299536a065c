//! The file scanner's rules: which file names are read, and the record
//! that is kept of each file.

use vstd::prelude::*;
use vstd::string::*;
use crate::cryptography::{max_content_len, seal, sealed_text};
use crate::sequence::{filter_positions, keeps_in_order};
use crate::text::{chars_of, ends_with, has_suffix, same_chars, texts};

verus! {

/// One scanned file: its path relative to the scanned root, and its content,
/// encrypted under the run's key and encoded for transport.
#[derive(Debug, Clone)]
pub struct CatchCLICodeFile {
    pub path: String,
    pub encrypted_file_content: String,
}

/// What a scanned file holds: two texts.
pub struct CodeFileView {
    pub path: Seq<char>,
    pub encrypted_file_content: Seq<char>,
}

impl View for CatchCLICodeFile {
    type V = CodeFileView;

    open spec fn view(&self) -> CodeFileView {
        CodeFileView {
            path: self.path@,
            encrypted_file_content: self.encrypted_file_content@,
        }
    }
}

/// What a list of scanned files holds, in order.
pub open spec fn file_views(files: Seq<CatchCLICodeFile>) -> Seq<CodeFileView> {
    files.map_values(|f: CatchCLICodeFile| f@)
}

/// A regular file as the walk of the project tree found it: the names on
/// the way from the scanned root down to the file, the file's own name
/// last, and what the file holds.
#[derive(Debug)]
pub struct SourceFile {
    pub components: Vec<String>,
    pub content: String,
}

/// What a file of the walk holds.
pub struct SourceFileView {
    pub components: Seq<Seq<char>>,
    pub content: Seq<char>,
}

impl View for SourceFile {
    type V = SourceFileView;

    open spec fn view(&self) -> SourceFileView {
        SourceFileView { components: texts(self.components@), content: self.content@ }
    }
}

/// What the files of a walk hold, in order.
pub open spec fn source_views(files: Seq<SourceFile>) -> Seq<SourceFileView> {
    files.map_values(|f: SourceFile| f@)
}

/// The name patterns of the files that are read. A pattern that begins with
/// `*` stands for every name that ends with the rest of it; any other
/// pattern stands for itself.
pub open spec fn whitelist() -> Seq<Seq<char>> {
    seq![
        "*.js"@,
        "*.ts"@,
        "*.py"@,
        "*.java"@,
        "*.kt"@,
        "*.swift"@,
        "*.m"@,
        "*.mm"@,
        "*.gradle"@,
        "*.kts"@,
        "*.toml"@,
        "AndroidManifest.xml"@,
        "Podfile"@,
        "*.entitlements"@,
        "*.plist"@,
        "*.xcprivacy"@,
    ]
}

/// A file name meets one pattern.
pub open spec fn pattern_matches(pattern: Seq<char>, name: Seq<char>) -> bool {
    if pattern.len() > 0 && pattern[0] == '*' {
        ends_with(name, pattern.subrange(1, pattern.len() as int))
    } else {
        name == pattern
    }
}

/// A file name meets some pattern of the whitelist.
pub open spec fn whitelisted(name: Seq<char>) -> bool {
    exists|i: int| 0 <= i < whitelist().len() && pattern_matches(#[trigger] whitelist()[i], name)
}

/// Whether `name` meets `pattern`.
pub fn meets_pattern(pattern: &Vec<char>, name: &Vec<char>) -> (r: bool)
    ensures
        r == pattern_matches(pattern@, name@),
{
    if pattern.len() > 0 && pattern[0] == '*' {
        let mut rest: Vec<char> = Vec::new();
        let mut i: usize = 1;
        while i < pattern.len()
            invariant
                1 <= i <= pattern.len(),
                rest@ == pattern@.subrange(1, i as int),
            decreases pattern.len() - i,
        {
            rest.push(pattern[i]);
            i += 1;
            assert(rest@ =~= pattern@.subrange(1, i as int));
        }
        has_suffix(name, &rest)
    } else {
        same_chars(name, pattern)
    }
}

/// Whether a file of this name is read by the scanner. The comparison is by
/// character, case-sensitive, on the file name alone.
pub fn is_whitelisted(file_name: &str) -> (r: bool)
    ensures
        r == whitelisted(file_name@),
{
    let patterns: [&str; 16] = [
        "*.js",
        "*.ts",
        "*.py",
        "*.java",
        "*.kt",
        "*.swift",
        "*.m",
        "*.mm",
        "*.gradle",
        "*.kts",
        "*.toml",
        "AndroidManifest.xml",
        "Podfile",
        "*.entitlements",
        "*.plist",
        "*.xcprivacy",
    ];
    let name = chars_of(file_name);
    let mut i: usize = 0;
    while i < 16
        invariant
            i <= 16,
            name@ == file_name@,
            patterns@.len() == 16,
            forall|k: int| 0 <= k < 16 ==> (#[trigger] patterns@[k])@ == whitelist()[k],
            forall|k: int| 0 <= k < i ==> !pattern_matches(#[trigger] whitelist()[k], name@),
        decreases 16 - i,
    {
        let pattern = chars_of(patterns[i]);
        if meets_pattern(&pattern, &name) {
            return true;
        }
        i += 1;
    }
    false
}

/// The path that the names spell, with `/` between them, on every platform.
pub open spec fn posix_path(components: Seq<Seq<char>>) -> Seq<char>
    decreases components.len(),
{
    if components.len() == 0 {
        Seq::empty()
    } else if components.len() == 1 {
        components[0]
    } else {
        posix_path(components.drop_last()) + seq!['/'] + components.last()
    }
}

/// Joins the names of a relative path with `/`.
pub fn relative_path(components: &Vec<String>) -> (path: String)
    ensures
        path@ == posix_path(texts(components@)),
{
    let mut path = String::new();
    let mut i: usize = 0;
    proof {
        reveal_strlit("/");
        assert("/"@ =~= seq!['/']);
        assert(texts(components@).take(0) =~= Seq::<Seq<char>>::empty());
    }
    while i < components.len()
        invariant
            i <= components.len(),
            "/"@ == seq!['/'],
            path@ == posix_path(texts(components@).take(i as int)),
        decreases components.len() - i,
    {
        proof {
            let all = texts(components@);
            assert(all.take(i + 1).drop_last() =~= all.take(i as int));
            assert(all.take(i + 1).last() == components@[i as int]@);
            if i == 0 {
                assert(path@ + components@[0]@ =~= components@[0]@);
            }
        }
        if i > 0 {
            path.append("/");
        }
        path.append(components[i].as_str());
        i += 1;
    }
    assert(texts(components@).take(components.len() as int) =~= texts(components@));
    path
}

/// The scanner reads the file: it has a name, and the name is whitelisted.
/// The directories above it play no part.
pub open spec fn is_wanted(file: SourceFileView) -> bool {
    file.components.len() > 0 && whitelisted(file.components.last())
}

/// The record that the scanner keeps of a file that it reads.
pub open spec fn code_file_of(file: SourceFileView, key: Seq<u8>, iv: Seq<u8>) -> CodeFileView {
    CodeFileView {
        path: posix_path(file.components),
        encrypted_file_content: sealed_text(key, iv, file.content),
    }
}

/// What a scan of these files returns: a record for each file that is
/// wanted, in the order of the walk, and nothing for any other file.
pub open spec fn scanned(files: Seq<SourceFileView>, key: Seq<u8>, iv: Seq<u8>) -> Seq<CodeFileView> {
    files.filter(|f: SourceFileView| is_wanted(f)).map_values(
        |f: SourceFileView| code_file_of(f, key, iv),
    )
}

/// Why a scan gave no files.
#[derive(Debug, Clone, Copy, PartialEq, Eq, Structural)]
pub enum ScanError {
    /// A file that is to be read is too large to be encrypted on this
    /// machine.
    ContentTooLarge,
}

/// The content of every wanted file is small enough to be encrypted on
/// this machine.
pub open spec fn contents_fit(files: Seq<SourceFile>) -> bool {
    forall|i: int|
        0 <= i < files.len() && is_wanted((#[trigger] files[i])@) ==> vstd::utf8::encode_utf8(
            files[i].content@,
        ).len() <= max_content_len()
}

/// Whether the scanner reads a file with these path names.
pub fn wants(components: &Vec<String>) -> (r: bool)
    ensures
        r == (components@.len() > 0 && whitelisted(texts(components@).last())),
{
    if components.len() == 0 {
        false
    } else {
        is_whitelisted(components[components.len() - 1].as_str())
    }
}

/// The record of one file: its relative path, and its content encrypted
/// under the run's key and encoded for transport.
pub fn read_file(file: &SourceFile, encryption_key: &[u8; 32], encryption_iv: &[u8; 16]) -> (out:
    CatchCLICodeFile)
    requires
        vstd::utf8::encode_utf8(file.content@).len() <= max_content_len(),
    ensures
        out@ == code_file_of(file@, encryption_key@, encryption_iv@),
{
    CatchCLICodeFile {
        path: relative_path(&file.components),
        encrypted_file_content: seal(encryption_key, encryption_iv, file.content.as_str()),
    }
}

/// Scans the files of a project tree: keeps exactly those whose name is
/// whitelisted, at whatever depth they lie, in the order of the walk, each
/// with its path relative to the root and its encrypted content. All files
/// are encrypted under the same key and initialisation vector. One file
/// that cannot be encrypted fails the whole scan: there is no partial
/// result.
pub fn find_and_read_files(
    files: &Vec<SourceFile>,
    encryption_key: &[u8; 32],
    encryption_iv: &[u8; 16],
) -> (result: Result<Vec<CatchCLICodeFile>, ScanError>)
    ensures
        match result {
            Ok(found) => contents_fit(files@) && file_views(found@) == scanned(
                source_views(files@),
                encryption_key@,
                encryption_iv@,
            ),
            Err(error) => !contents_fit(files@) && error == ScanError::ContentTooLarge,
        },
{
    let mut result: Vec<CatchCLICodeFile> = Vec::new();
    let mut i: usize = 0;
    let ghost wanted = |f: SourceFileView| is_wanted(f);
    let ghost record = |f: SourceFileView| code_file_of(f, encryption_key@, encryption_iv@);
    proof {
        reveal(Seq::filter);
        assert(source_views(files@).take(0) =~= Seq::<SourceFileView>::empty());
        assert(file_views(result@) =~= Seq::<SourceFileView>::empty().filter(wanted).map_values(
            record,
        ));
    }
    while i < files.len()
        invariant
            i <= files.len(),
            forall|k: int|
                0 <= k < i && is_wanted((#[trigger] files@[k])@) ==> vstd::utf8::encode_utf8(
                    files@[k].content@,
                ).len() <= max_content_len(),
            wanted == |f: SourceFileView| is_wanted(f),
            record == |f: SourceFileView| code_file_of(f, encryption_key@, encryption_iv@),
            file_views(result@) == source_views(files@).take(i as int).filter(wanted).map_values(
                record,
            ),
        decreases files.len() - i,
    {
        let ghost before = result@;
        let file = &files[i];
        proof {
            let all = source_views(files@);
            assert(all.take(i + 1) =~= all.take(i as int).push(file@));
            all.take(i as int).lemma_filter_push(file@, wanted);
        }
        if wants(&file.components) {
            if file.content.as_str().as_bytes().len() > usize::MAX / 2 {
                return Err(ScanError::ContentTooLarge);
            }
            let kept = read_file(file, encryption_key, encryption_iv);
            result.push(kept);
            proof {
                let kept_before = source_views(files@).take(i as int).filter(wanted);
                assert(file_views(result@) =~= file_views(before).push(kept@));
                assert(kept_before.push(file@).map_values(record) =~= kept_before.map_values(
                    record,
                ).push(record(file@)));
            }
        }
        i += 1;
    }
    assert(source_views(files@).take(files.len() as int) =~= source_views(files@));
    Ok(result)
}

/// A scan returns one record for each wanted file, in the order of the
/// walk, and nothing else: no wanted file is left out, no other file has a
/// record (`notes.txt` has none, whatever directory it lies in), and no
/// file has two. `positions` gives, for each record, which file of the walk
/// it is the record of.
pub proof fn scan_keeps_exactly_the_whitelisted(
    files: Seq<SourceFileView>,
    key: Seq<u8>,
    iv: Seq<u8>,
) -> (positions: Seq<int>)
    ensures
        positions.len() == scanned(files, key, iv).len(),
        forall|k: int|
            0 <= k < positions.len() ==> 0 <= #[trigger] positions[k] < files.len() && is_wanted(
                files[positions[k]],
            ) && scanned(files, key, iv)[k] == code_file_of(files[positions[k]], key, iv),
        forall|k: int, l: int| 0 <= k < l < positions.len() ==> positions[k] < positions[l],
        forall|i: int| 0 <= i < files.len() && is_wanted(#[trigger] files[i]) ==> positions.contains(i),
{
    let wanted = |f: SourceFileView| is_wanted(f);
    let positions = filter_positions(files, wanted);
    assert(keeps_in_order(files, wanted, files.filter(wanted), positions));
    positions
}

} // verus!
