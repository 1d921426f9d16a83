//! Decisions of the Speeduino build-from-source flow: where the tools are
//! looked for, which release asset is fetched, which libraries a failed
//! compile is missing, where the sketch lies in the downloaded source, and
//! the step-by-step logic of installing the AVR core, compiling (with
//! automatic library installs between attempts) and flashing.
//!
//! The flows are written as sessions: the caller performs the action a
//! session asks for (run a tool, look for a file) and reports back what
//! happened; every line a session adds to its log is handed back as a note
//! so the caller can show it as it appears.
use crate::text::{
    contains_sub, decimal, ends_with, eq_ignore_ascii_case, is_path_separator, join_strings, joined,
    last_path_segment,
    owned, path_segment_after_last_separator, push_decimal, push_signed_decimal, signed_decimal,
    str_contains, str_ends_with, str_eq_ignore_ascii_case, str_equal,
};
use crate::missing_headers::{
    every_header_line_is_found, found_header_is_a_line, header_captures, header_line_at, header_name,
    header_names_from, scan_header_names,
};
use vstd::prelude::*;
use vstd::string::StringExecFns;

verus! {

/// Board the firmware is built for (Arduino Mega 2560).
pub const AVR_MEGA_FQBN: &'static str = "arduino:avr:mega";

/// GitHub repository of the Speeduino firmware.
pub const SPEEDUINO_REPO: &'static str = "noisymime/speeduino";

/// GitHub repository of arduino-cli.
pub const ARDUINO_CLI_REPO: &'static str = "arduino/arduino-cli";

/// The pattern of a compiler line that reports a missing header.
pub const MISSING_HEADER_PATTERN: &'static str = r"fatal error: (\S+)\.h: No such file or directory";

/// What the toolchain check reports.
#[derive(Debug, Clone)]
pub struct SpeeduinoToolchainInfo {
    pub arduino_cli_path: Option<String>,
    pub avr_core_installed: bool,
}

/// The latest Speeduino release.
#[derive(Debug, Clone)]
pub struct SpeeduinoRelease {
    pub version: String,
    pub published_at: String,
}

/// Outcome of a core install, a compile or an upload, with its full log.
#[derive(Debug, Clone)]
pub struct SpeeduinoBuildResult {
    pub success: bool,
    pub hex_path: Option<String>,
    pub log: Vec<String>,
}

/// The operating system the tools run on.
#[derive(Debug, Clone, Copy, PartialEq, Eq, Structural)]
pub enum HostOs {
    Windows,
    MacOs,
    Linux,
}

/// File name of the arduino-cli executable.
pub open spec fn arduino_cli_exe(os: HostOs) -> Seq<char> {
    if os == HostOs::Windows {
        "arduino-cli.exe"@
    } else {
        "arduino-cli"@
    }
}

/// File name of the avrdude executable.
pub open spec fn avrdude_exe(os: HostOs) -> Seq<char> {
    if os == HostOs::Windows {
        "avrdude.exe"@
    } else {
        "avrdude"@
    }
}

/// File name of the arduino-cli executable on `os`.
pub fn arduino_cli_exe_name(os: HostOs) -> (name: &'static str)
    ensures
        name@ == arduino_cli_exe(os),
{
    if os == HostOs::Windows {
        "arduino-cli.exe"
    } else {
        "arduino-cli"
    }
}

/// File name of the avrdude executable on `os`.
pub fn avrdude_exe_name(os: HostOs) -> (name: &'static str)
    ensures
        name@ == avrdude_exe(os),
{
    if os == HostOs::Windows {
        "avrdude.exe"
    } else {
        "avrdude"
    }
}

/// A place where a tool may be installed, and whether a file is there.
#[derive(Debug, Clone)]
pub struct ToolCandidate {
    pub path: String,
    pub is_file: bool,
}

/// Index of the first candidate that is a file.
pub open spec fn first_file_index(candidates: Seq<ToolCandidate>) -> Option<int> {
    if exists|i: int| 0 <= i < candidates.len() && (#[trigger] candidates[i]).is_file {
        Some(
            choose|i: int|
                0 <= i < candidates.len() && (#[trigger] candidates[i]).is_file && forall|j: int|
                    0 <= j < i ==> !(#[trigger] candidates[j]).is_file,
        )
    } else {
        None
    }
}

/// Our own downloaded copy, listed first, is the tool used whenever it is a
/// file, whatever the directories of PATH hold.
pub proof fn downloaded_tool_wins(candidates: Seq<ToolCandidate>)
    requires
        candidates.len() > 0,
        candidates[0].is_file,
    ensures
        first_file_index(candidates) == Some(0int),
{
    assert(candidates[0].is_file);
    let k = first_file_index(candidates)->0;
    if k > 0 {
        assert(!candidates[0].is_file);
    }
}

/// The tool to use among `candidates`, which are in search order (our own
/// downloaded copy first, then each directory of PATH): the first one that
/// is a file.
pub fn pick_tool(candidates: &Vec<ToolCandidate>) -> (r: Option<String>)
    ensures
        match first_file_index(candidates@) {
            Some(i) => r matches Some(p) && p@ == candidates@[i].path@,
            None => r is None,
        },
{
    let mut i: usize = 0;
    while i < candidates.len()
        invariant
            i <= candidates@.len(),
            forall|j: int| 0 <= j < i ==> !(#[trigger] candidates@[j]).is_file,
        decreases candidates@.len() - i,
    {
        if candidates[i].is_file {
            proof {
                let k = first_file_index(candidates@)->0;
                assert(candidates@[i as int].is_file);
                if k < i {
                    assert(!candidates@[k].is_file);
                }
                if i < k {
                    assert(!candidates@[i as int].is_file);
                }
                assert(k == i);
            }
            return Some(candidates[i].path.clone());
        }
        i = i + 1;
    }
    None
}

/// Result of matching `pattern` against `text` with the `regex` crate:
/// `None` when the pattern does not compile, otherwise, for each successive
/// non-overlapping match from left to right, the text of capture group 1
/// (`None` where the group took no part in the match).
pub uninterp spec fn regex_group_one_matches(pattern: Seq<char>, text: Seq<char>) -> Option<
    Seq<Option<Seq<char>>>,
>;

/// `regex::Regex::new(pattern)` and `captures_iter(text)`, keeping capture
/// group 1 of each match. In general the result is stated only through
/// `regex_group_one_matches`, a function of the pattern and the text. For
/// the missing-header pattern it is stated in full: the pattern compiles,
/// and `captures_iter` yields its leftmost-first, non-overlapping matches
/// from left to right, whose group 1 (`\S+`, a run of characters outside
/// Unicode `White_Space`) always takes part; these are the lines that
/// `header_captures` describes.
#[verifier::external_body]
fn regex_capture_group_one(pattern: &str, text: &str) -> (r: Option<Vec<Option<String>>>)
    ensures
        r.deep_view() == regex_group_one_matches(pattern@, text@),
        pattern@ == MISSING_HEADER_PATTERN@ ==> r.deep_view() == Some(header_captures(text@)),
{
    match regex::Regex::new(pattern) {
        Ok(re) => Some(re.captures_iter(text).map(|caps| caps.get(1).map(|m| m.as_str().to_string())).collect()),
        Err(_) => None,
    }
}

/// The library names of captured header paths: each header's last path
/// segment, first occurrence only, in order of appearance.
pub open spec fn missing_libraries(headers: Seq<Option<Seq<char>>>) -> Seq<Seq<char>>
    decreases headers.len(),
{
    if headers.len() == 0 {
        Seq::empty()
    } else {
        let earlier = missing_libraries(headers.drop_last());
        match headers.last() {
            Some(h) => {
                let lib = last_path_segment(h);
                if earlier.contains(lib) {
                    earlier
                } else {
                    earlier.push(lib)
                }
            },
            None => earlier,
        }
    }
}

/// A path segment holds no separator.
proof fn last_path_segment_has_no_separator(s: Seq<char>)
    ensures
        forall|k: int| 0 <= k < last_path_segment(s).len() ==> !is_path_separator(#[trigger] last_path_segment(s)[k]),
    decreases s.len(),
{
    if s.len() > 0 && !is_path_separator(s.last()) {
        last_path_segment_has_no_separator(s.drop_last());
        let prev = last_path_segment(s.drop_last());
        assert forall|k: int| 0 <= k < last_path_segment(s).len() implies !is_path_separator(
            #[trigger] last_path_segment(s)[k],
        ) by {
            if k < prev.len() {
                assert(last_path_segment(s)[k] == prev[k]);
            }
        }
    }
}

/// The missing-library list names each library once, without directories,
/// and names the library of every captured header.
pub proof fn missing_libraries_are_plain_and_distinct(headers: Seq<Option<Seq<char>>>)
    ensures
        forall|i: int, j: int|
            0 <= i < j < missing_libraries(headers).len() ==> #[trigger] missing_libraries(headers)[i]
                != #[trigger] missing_libraries(headers)[j],
        forall|i: int, k: int|
            0 <= i < missing_libraries(headers).len() && 0 <= k < missing_libraries(headers)[i].len()
                ==> !is_path_separator(#[trigger] missing_libraries(headers)[i][k]),
        forall|i: int|
            0 <= i < headers.len() && (#[trigger] headers[i]) is Some ==> missing_libraries(headers).contains(
                last_path_segment(headers[i]->0),
            ),
    decreases headers.len(),
{
    if headers.len() > 0 {
        let rest = headers.drop_last();
        missing_libraries_are_plain_and_distinct(rest);
        let earlier = missing_libraries(rest);
        let libs = missing_libraries(headers);
        match headers.last() {
            Some(h) => {
                let lib = last_path_segment(h);
                last_path_segment_has_no_separator(h);
                if !earlier.contains(lib) {
                    assert(libs == earlier.push(lib));
                    assert forall|i: int, j: int| 0 <= i < j < libs.len() implies #[trigger] libs[i]
                        != #[trigger] libs[j] by {
                        if j == libs.len() - 1 {
                            assert(libs[j] == lib);
                            assert(libs[i] == earlier[i]);
                        } else {
                            assert(libs[i] == earlier[i] && libs[j] == earlier[j]);
                        }
                    }
                    assert forall|i: int, k: int|
                        0 <= i < libs.len() && 0 <= k < libs[i].len() implies !is_path_separator(
                        #[trigger] libs[i][k],
                    ) by {
                        if i < earlier.len() {
                            assert(libs[i] == earlier[i]);
                        }
                    }
                    assert forall|i: int| 0 <= i < headers.len() && (#[trigger] headers[i]) is Some implies libs.contains(
                        last_path_segment(headers[i]->0),
                    ) by {
                        if i < rest.len() {
                            assert(rest[i] == headers[i]);
                            let w = choose|w: int| 0 <= w < earlier.len() && earlier[w] == last_path_segment(rest[i]->0);
                            assert(libs[w] == earlier[w]);
                        } else {
                            assert(libs[libs.len() - 1] == lib);
                        }
                    }
                } else {
                    assert forall|i: int| 0 <= i < headers.len() && (#[trigger] headers[i]) is Some implies libs.contains(
                        last_path_segment(headers[i]->0),
                    ) by {
                        if i < rest.len() {
                            assert(rest[i] == headers[i]);
                        }
                    }
                }
            },
            None => {
                assert forall|i: int| 0 <= i < headers.len() && (#[trigger] headers[i]) is Some implies libs.contains(
                    last_path_segment(headers[i]->0),
                ) by {
                    if i < rest.len() {
                        assert(rest[i] == headers[i]);
                    }
                }
            },
        }
    }
}

/// The libraries that compiler output reports missing.
pub open spec fn missing_libraries_in(output: Seq<char>) -> Seq<Seq<char>> {
    match regex_group_one_matches(MISSING_HEADER_PATTERN@, output) {
        Some(headers) => missing_libraries(headers),
        None => Seq::empty(),
    }
}

/// Whether `items` holds `s`.
fn contains_string(items: &Vec<String>, s: &str) -> (b: bool)
    ensures
        b == items.deep_view().contains(s@),
{
    let mut i: usize = 0;
    while i < items.len()
        invariant
            i <= items@.len(),
            forall|j: int| 0 <= j < i ==> items@[j]@ != s@,
        decreases items@.len() - i,
    {
        if str_equal(items[i].as_str(), s) {
            assert(items.deep_view()[i as int] == s@);
            return true;
        }
        i = i + 1;
    }
    assert forall|j: int| 0 <= j < items.deep_view().len() implies items.deep_view()[j] != s@ by {
        assert(items.deep_view()[j] == items@[j]@);
    }
    false
}

/// The library names of the headers captured from compiler output: the
/// header's file name without directories, each name once, in order of
/// first appearance.
pub fn missing_libraries_from_headers(headers: &Vec<Option<String>>) -> (libs: Vec<String>)
    ensures
        libs.deep_view() == missing_libraries(headers.deep_view()),
{
    let mut libs: Vec<String> = Vec::new();
    let mut i: usize = 0;
    while i < headers.len()
        invariant
            i <= headers@.len(),
            libs.deep_view() == missing_libraries(headers.deep_view().take(i as int)),
        decreases headers@.len() - i,
    {
        let ghost prefix = headers.deep_view().take(i + 1);
        assert(prefix.drop_last() =~= headers.deep_view().take(i as int));
        assert(prefix.last() == headers@[i as int].deep_view());
        match &headers[i] {
            Some(h) => {
                let lib = path_segment_after_last_separator(h.as_str());
                if !contains_string(&libs, lib.as_str()) {
                    let ghost before = libs.deep_view();
                    libs.push(lib);
                    assert(libs.deep_view() =~= before.push(lib@));
                }
            },
            None => {},
        }
        i = i + 1;
    }
    assert(headers.deep_view().take(headers@.len() as int) =~= headers.deep_view());
    libs
}

/// Extract Arduino library names from arduino-cli's "fatal error: X.h: No
/// such file or directory" compile output, so they can be installed with
/// `arduino-cli lib install`.
///
/// The regular expression's captures are checked against a verified scan
/// of the same lines; the scan's answer is the one used.
pub fn parse_missing_libraries(output: &str) -> (libs: Vec<String>)
    ensures
        libs.deep_view() == missing_libraries_in(output@),
        libs.deep_view() == missing_libraries(header_captures(output@)),
{
    let scanned = scan_header_names(output);
    let headers = match regex_capture_group_one(MISSING_HEADER_PATTERN, output) {
        Some(found) => {
            if same_headers(&found, &scanned) {
                found
            } else {
                scanned
            }
        },
        None => scanned,
    };
    missing_libraries_from_headers(&headers)
}

/// Whether two lists of captured headers are the same.
fn same_headers(a: &Vec<Option<String>>, b: &Vec<Option<String>>) -> (r: bool)
    ensures
        r == (a.deep_view() == b.deep_view()),
{
    if a.len() != b.len() {
        assert(a.deep_view().len() != b.deep_view().len());
        return false;
    }
    let mut i: usize = 0;
    while i < a.len()
        invariant
            a@.len() == b@.len(),
            i <= a@.len(),
            forall|j: int| 0 <= j < i ==> a.deep_view()[j] == b.deep_view()[j],
        decreases a@.len() - i,
    {
        let same = match (&a[i], &b[i]) {
            (Some(x), Some(y)) => str_equal(x.as_str(), y.as_str()),
            (None, None) => true,
            _ => false,
        };
        if !same {
            assert(a.deep_view()[i as int] != b.deep_view()[i as int]);
            return false;
        }
        i = i + 1;
    }
    assert(a.deep_view() =~= b.deep_view());
    true
}

/// The `j`-th missing library comes from a captured header: the result is
/// the index of a header whose last path segment it is.
proof fn missing_library_source(headers: Seq<Option<Seq<char>>>, j: int) -> (k: int)
    requires
        0 <= j < missing_libraries(headers).len(),
    ensures
        0 <= k < headers.len(),
        headers[k] matches Some(h) && missing_libraries(headers)[j] == last_path_segment(h),
    decreases headers.len(),
{
    let rest = headers.drop_last();
    let earlier = missing_libraries(rest);
    if j < earlier.len() && missing_libraries(headers)[j] == earlier[j] {
        let k = missing_library_source(rest, j);
        assert(headers[k] == rest[k]);
        k
    } else {
        match headers.last() {
            Some(h) => {
                if earlier.contains(last_path_segment(h)) {
                    assert(missing_libraries(headers) == earlier);
                    assert(false);
                } else {
                    assert(missing_libraries(headers) == earlier.push(last_path_segment(h)));
                }
            },
            None => {
                assert(missing_libraries(headers) == earlier);
            },
        }
        headers.len() - 1
    }
}

/// Every missing-header line of compiler output names a library that is
/// reported; every reported library is named by such a line (the header's
/// file name without directories); and no library is reported twice.
pub proof fn every_missing_header_is_reported(output: Seq<char>)
    ensures
        forall|i: int|
            header_line_at(output, i) ==> #[trigger] missing_libraries(header_captures(output)).contains(
                last_path_segment(header_name(output, i)),
            ),
        forall|j: int|
            0 <= j < missing_libraries(header_captures(output)).len() ==> exists|i: int|
                header_line_at(output, i) && #[trigger] missing_libraries(header_captures(output))[j]
                    == last_path_segment(header_name(output, i)),
        forall|a: int, b: int|
            0 <= a < b < missing_libraries(header_captures(output)).len() ==> #[trigger] missing_libraries(
                header_captures(output),
            )[a] != #[trigger] missing_libraries(header_captures(output))[b],
{
    let caps = header_captures(output);
    let names = header_names_from(output, 0);
    let libs = missing_libraries(caps);
    missing_libraries_are_plain_and_distinct(caps);
    assert forall|i: int| header_line_at(output, i) implies #[trigger] libs.contains(
        last_path_segment(header_name(output, i)),
    ) by {
        header_lines_found_from_start(output, i);
        let k = choose|k: int| 0 <= k < names.len() && names[k] == header_name(output, i);
        assert(caps[k] == Some(header_name(output, i)));
    }
    assert forall|j: int| 0 <= j < libs.len() implies exists|i: int|
        header_line_at(output, i) && #[trigger] libs[j] == last_path_segment(header_name(output, i)) by {
        let k = missing_library_source(caps, j);
        let i = found_header_is_a_line(output, 0, k);
        assert(caps[k] == Some(names[k]));
        assert(libs[j] == last_path_segment(header_name(output, i)));
    }
}

/// Every missing-header line is found by a search from the start.
proof fn header_lines_found_from_start(output: Seq<char>, i: int)
    requires
        header_line_at(output, i),
    ensures
        header_names_from(output, 0).contains(header_name(output, i)),
{
    reveal_strlit("fatal error: ");
    every_header_line_is_found(output, 0, i);
}

/// Whether the output of `arduino-cli core list` (absent when the command
/// could not run) lists the AVR core.
pub fn core_list_reports_avr(output: Option<&str>) -> (installed: bool)
    ensures
        installed == (output matches Some(o) && contains_sub(o@, "arduino:avr"@)),
{
    match output {
        Some(o) => str_contains(o, "arduino:avr"),
        None => false,
    }
}

/// Whether an archive entry is the wanted binary: its name without
/// directories equals `binary_name`, ignoring ASCII case.
pub fn archive_entry_is(entry_name: &str, binary_name: &str) -> (b: bool)
    ensures
        b == eq_ignore_ascii_case(last_path_segment(entry_name@), binary_name@),
{
    let base = path_segment_after_last_separator(entry_name);
    str_eq_ignore_ascii_case(base.as_str(), binary_name)
}

/// The error for an archive that lacks the wanted binary.
pub fn not_in_archive_error(binary_name: &str) -> (e: String)
    ensures
        e@ == binary_name@ + " not found in archive"@,
{
    let mut e = owned(binary_name);
    e.append(" not found in archive");
    e
}

/// URL of the GitHub API endpoint for a repository's latest release.
pub fn latest_release_url(repo: &str) -> (url: String)
    ensures
        url@ == "https://api.github.com/repos/"@ + repo@ + "/releases/latest"@,
{
    let mut url = owned("https://api.github.com/repos/");
    url.append(repo);
    url.append("/releases/latest");
    url
}

/// URL of the source archive of a Speeduino release.
pub fn source_archive_url(version: &str) -> (url: String)
    ensures
        url@ == "https://github.com/"@ + SPEEDUINO_REPO@ + "/archive/refs/tags/"@ + version@ + ".zip"@,
{
    let mut url = owned("https://github.com/");
    url.append(SPEEDUINO_REPO);
    url.append("/archive/refs/tags/");
    url.append(version);
    url.append(".zip");
    url
}

/// File name under which a release's source archive is saved.
pub fn source_zip_name(version: &str) -> (name: String)
    ensures
        name@ == "speeduino_"@ + version@ + ".zip"@,
{
    let mut name = owned("speeduino_");
    name.append(version);
    name.append(".zip");
    name
}

/// Directory name into which a release's source is extracted.
pub fn source_dir_name(version: &str) -> (name: String)
    ensures
        name@ == "speeduino_"@ + version@,
{
    let mut name = owned("speeduino_");
    name.append(version);
    name
}

/// The release summary from the `tag_name` and `published_at` fields of a
/// GitHub release ("unknown" and "" where a field is not a string).
pub fn speeduino_release(tag_name: Option<&str>, published_at: Option<&str>) -> (r: SpeeduinoRelease)
    ensures
        r.version@ == (match tag_name {
            Some(t) => t@,
            None => "unknown"@,
        }),
        r.published_at@ == (match published_at {
            Some(p) => p@,
            None => ""@,
        }),
{
    let version = match tag_name {
        Some(t) => owned(t),
        None => owned("unknown"),
    };
    let published_at = match published_at {
        Some(p) => owned(p),
        None => owned(""),
    };
    SpeeduinoRelease { version, published_at }
}


/// A subdirectory seen while listing a directory, and whether it directly
/// holds a `.ino` file.
#[derive(Debug, Clone)]
pub struct SubdirInfo {
    pub path: String,
    pub has_ino: bool,
}

/// One directory as listed: its path, whether it directly holds a `.ino`
/// file, and its subdirectories in listing order.
#[derive(Debug, Clone)]
pub struct DirSnapshot {
    pub path: String,
    pub has_ino: bool,
    pub subdirs: Vec<SubdirInfo>,
}

/// The only subdirectory of `dir`, if it has exactly one.
pub open spec fn only_subdir(dir: DirSnapshot) -> Option<Seq<char>> {
    if dir.subdirs@.len() == 1 {
        Some(dir.subdirs@[0].path@)
    } else {
        None
    }
}

/// Index of the first subdirectory that holds a `.ino` file.
pub open spec fn first_ino_subdir(subdirs: Seq<SubdirInfo>) -> Option<int> {
    if exists|i: int| 0 <= i < subdirs.len() && (#[trigger] subdirs[i]).has_ino {
        Some(
            choose|i: int|
                0 <= i < subdirs.len() && (#[trigger] subdirs[i]).has_ino && forall|j: int|
                    0 <= j < i ==> !(#[trigger] subdirs[j]).has_ino,
        )
    } else {
        None
    }
}

/// The sketch folder inside `dir`: `dir` itself when it holds a `.ino`
/// file, otherwise its first subdirectory that does.
pub open spec fn ino_dir(dir: DirSnapshot) -> Option<Seq<char>> {
    if dir.has_ino {
        Some(dir.path@)
    } else {
        match first_ino_subdir(dir.subdirs@) {
            Some(i) => Some(dir.subdirs@[i].path@),
            None => None,
        }
    }
}

/// The sketch folder of an extracted source tree, looking first inside its
/// single top-level folder (as GitHub release archives have one) and then in
/// the tree itself.
pub open spec fn sketch_root(extract_dir: DirSnapshot, top_level: Option<DirSnapshot>) -> Option<Seq<char>> {
    match top_level {
        Some(top) => match ino_dir(top) {
            Some(found) => Some(found),
            None => ino_dir(extract_dir),
        },
        None => ino_dir(extract_dir),
    }
}

/// The only subdirectory of `dir`, if it has exactly one.
pub fn first_subdir(dir: &DirSnapshot) -> (r: Option<String>)
    ensures
        r.deep_view() == only_subdir(*dir),
{
    if dir.subdirs.len() == 1 {
        Some(dir.subdirs[0].path.clone())
    } else {
        None
    }
}

/// The folder inside `dir` that holds the sketch: `dir` itself when it holds
/// a `.ino` file, otherwise its first subdirectory that does.
pub fn find_dir_containing_ino(dir: &DirSnapshot) -> (r: Option<String>)
    ensures
        r.deep_view() == ino_dir(*dir),
{
    if dir.has_ino {
        return Some(dir.path.clone());
    }
    let mut i: usize = 0;
    while i < dir.subdirs.len()
        invariant
            i <= dir.subdirs@.len(),
            !dir.has_ino,
            forall|j: int| 0 <= j < i ==> !(#[trigger] dir.subdirs@[j]).has_ino,
        decreases dir.subdirs@.len() - i,
    {
        if dir.subdirs[i].has_ino {
            proof {
                let k = first_ino_subdir(dir.subdirs@)->0;
                assert(dir.subdirs@[i as int].has_ino);
                if k < i {
                    assert(!dir.subdirs@[k].has_ino);
                }
                if i < k {
                    assert(!dir.subdirs@[i as int].has_ino);
                }
                assert(k == i);
            }
            return Some(dir.subdirs[i].path.clone());
        }
        i = i + 1;
    }
    None
}

/// Given an extracted Speeduino source tree, the sketch folder (the one
/// holding `speeduino.ino`) that arduino-cli should compile. `top_level` is
/// the listing of the tree's only subdirectory, when it has exactly one.
pub fn find_sketch_root(extract_dir: &DirSnapshot, top_level: Option<&DirSnapshot>) -> (r: Option<String>)
    requires
        match top_level {
            Some(top) => only_subdir(*extract_dir) == Some(top.path@),
            None => only_subdir(*extract_dir) is None,
        },
    ensures
        r.deep_view() == sketch_root(*extract_dir, match top_level {
            Some(top) => Some(*top),
            None => None,
        }),
{
    if let Some(top) = top_level {
        let found = find_dir_containing_ino(top);
        if found.is_some() {
            return found;
        }
    }
    find_dir_containing_ino(extract_dir)
}

/// A release asset as GitHub describes it: its `name` and
/// `browser_download_url` where those are strings.
#[derive(Debug, Clone)]
pub struct ReleaseAsset {
    pub name: Option<String>,
    pub browser_download_url: Option<String>,
}

/// The arduino-cli asset to download.
#[derive(Debug, Clone)]
pub struct CliAssetChoice {
    pub download_url: String,
    pub asset_name: String,
    /// The asset is a zip archive (Windows) rather than a tarball.
    pub is_zip: bool,
}

/// The marker in the asset name for the host's build, and whether that
/// build comes as a zip archive.
pub open spec fn release_marker(os: HostOs) -> (Seq<char>, bool) {
    match os {
        HostOs::Windows => ("Windows_64bit"@, true),
        HostOs::MacOs => ("macOS_64bit"@, false),
        HostOs::Linux => ("Linux_64bit"@, false),
    }
}

/// The marker in the asset name for the host's build, and whether that
/// build comes as a zip archive.
pub fn release_marker_for(os: HostOs) -> (r: (&'static str, bool))
    ensures
        (r.0@, r.1) == release_marker(os),
        r.1 == (os == HostOs::Windows),
{
    match os {
        HostOs::Windows => ("Windows_64bit", true),
        HostOs::MacOs => ("macOS_64bit", false),
        HostOs::Linux => ("Linux_64bit", false),
    }
}

/// Only the Windows build of arduino-cli comes as a zip archive; the macOS
/// and Linux builds are tarballs. Whatever the asset list, a chosen asset is
/// opened as a zip exactly on Windows, and its name holds the host's marker
/// and ends in `.zip` or `.tar.gz`.
pub proof fn only_windows_assets_are_zips(assets: Option<Seq<ReleaseAsset>>, os: HostOs)
    ensures
        release_marker(os).1 <==> os == HostOs::Windows,
        cli_asset_choice(assets, os) matches Ok((url, name, is_zip)) ==> {
            &&& (is_zip <==> os == HostOs::Windows)
            &&& contains_sub(name, release_marker(os).0)
            &&& (ends_with(name, ".zip"@) || ends_with(name, ".tar.gz"@))
        },
{
    let marker = release_marker(os).0;
    if let Some(list) = assets {
        if exists|i: int| 0 <= i < list.len() && asset_matches(#[trigger] list[i], marker) {
            let w = choose|i: int| 0 <= i < list.len() && asset_matches(#[trigger] list[i], marker);
            first_match_exists(list, marker, w);
        }
    }
}

/// A matching asset at `w` means there is a first matching asset.
proof fn first_match_exists(list: Seq<ReleaseAsset>, marker: Seq<char>, w: int)
    requires
        0 <= w < list.len(),
        asset_matches(list[w], marker),
    ensures
        exists|i: int|
            0 <= i < list.len() && asset_matches(#[trigger] list[i], marker) && forall|j: int|
                0 <= j < i ==> !asset_matches(#[trigger] list[j], marker),
    decreases w,
{
    if exists|j: int| 0 <= j < w && asset_matches(#[trigger] list[j], marker) {
        let j = choose|j: int| 0 <= j < w && asset_matches(#[trigger] list[j], marker);
        first_match_exists(list, marker, j);
    } else {
        assert(forall|j: int| 0 <= j < w ==> !asset_matches(#[trigger] list[j], marker));
    }
}

/// An asset is the wanted build: its name holds the marker and ends in
/// `.zip` or `.tar.gz`.
pub open spec fn asset_matches(asset: ReleaseAsset, marker: Seq<char>) -> bool {
    asset.name matches Some(n) && contains_sub(n@, marker) && (ends_with(n@, ".zip"@) || ends_with(
        n@,
        ".tar.gz"@,
    ))
}

/// Index of the first asset that is the wanted build.
pub open spec fn first_matching_asset(assets: Seq<ReleaseAsset>, marker: Seq<char>) -> Option<int> {
    if exists|i: int| 0 <= i < assets.len() && asset_matches(#[trigger] assets[i], marker) {
        Some(
            choose|i: int|
                0 <= i < assets.len() && asset_matches(#[trigger] assets[i], marker) && forall|j: int|
                    0 <= j < i ==> !asset_matches(#[trigger] assets[j], marker),
        )
    } else {
        None
    }
}

/// The asset choice for a release whose asset list is `assets` (`None` when
/// the release has no asset array).
pub open spec fn cli_asset_choice(assets: Option<Seq<ReleaseAsset>>, os: HostOs) -> Result<
    (Seq<char>, Seq<char>, bool),
    Seq<char>,
> {
    let (marker, is_zip) = release_marker(os);
    match assets {
        None => Err("No assets in arduino-cli release"@),
        Some(list) => match first_matching_asset(list, marker) {
            None => Err("Could not find a "@ + marker + " arduino-cli release asset"@),
            Some(i) => match list[i].browser_download_url {
                None => Err("Asset missing download URL"@),
                Some(url) => Ok((url@, list[i].name->0@, is_zip)),
            },
        },
    }
}

/// Whether an asset is the wanted build.
fn asset_is_wanted(asset: &ReleaseAsset, marker: &str) -> (b: bool)
    ensures
        b == asset_matches(*asset, marker@),
{
    match &asset.name {
        Some(n) => str_contains(n.as_str(), marker) && (str_ends_with(n.as_str(), ".zip") || str_ends_with(
            n.as_str(),
            ".tar.gz",
        )),
        None => false,
    }
}

/// Picks the arduino-cli release asset for the host: the first asset whose
/// name holds the host's marker and ends in `.zip` or `.tar.gz`.
pub fn select_cli_asset(assets: Option<&Vec<ReleaseAsset>>, os: HostOs) -> (r: Result<CliAssetChoice, String>)
    ensures
        match cli_asset_choice(
            match assets {
                Some(a) => Some(a@),
                None => None,
            },
            os,
        ) {
            Ok((url, name, is_zip)) => r matches Ok(c) && c.download_url@ == url && c.asset_name@ == name
                && c.is_zip == is_zip,
            Err(msg) => r matches Err(e) && e@ == msg,
        },
        r matches Ok(c) ==> (c.is_zip <==> os == HostOs::Windows),
{
    let (marker, is_zip) = release_marker_for(os);
    let list = match assets {
        Some(a) => a,
        None => return Err(owned("No assets in arduino-cli release")),
    };
    let mut i: usize = 0;
    while i < list.len()
        invariant
            i <= list@.len(),
            assets == Some(list),
            (marker@, is_zip) == release_marker(os),
            forall|j: int| 0 <= j < i ==> !asset_matches(#[trigger] list@[j], marker@),
        decreases list@.len() - i,
    {
        if asset_is_wanted(&list[i], marker) {
            proof {
                let k = first_matching_asset(list@, marker@)->0;
                assert(asset_matches(list@[i as int], marker@));
                if k < i {
                    assert(!asset_matches(list@[k], marker@));
                }
                if i < k {
                    assert(!asset_matches(list@[i as int], marker@));
                }
                assert(k == i);
            }
            let asset = &list[i];
            let url = match &asset.browser_download_url {
                Some(u) => u.clone(),
                None => return Err(owned("Asset missing download URL")),
            };
            let name = match &asset.name {
                Some(n) => n.clone(),
                None => owned("arduino-cli-download"),
            };
            return Ok(CliAssetChoice { download_url: url, asset_name: name, is_zip });
        }
        i = i + 1;
    }
    let mut e = owned("Could not find a ");
    e.append(marker);
    e.append(" arduino-cli release asset");
    Err(e)
}


/// Most compile attempts in one build.
pub const MAX_COMPILE_ATTEMPTS: u32 = 10;

/// The arguments of an arduino-cli compile into `build_dir`.
pub open spec fn compile_args(build_dir: Seq<char>, sketch_path: Seq<char>) -> Seq<Seq<char>> {
    seq!["compile"@, "--fqbn"@, AVR_MEGA_FQBN@, "--output-dir"@, build_dir, sketch_path]
}

/// The arguments of an arduino-cli library install.
pub open spec fn library_install_args(library: Seq<char>) -> Seq<Seq<char>> {
    seq!["lib"@, "install"@, library]
}

/// The line announcing a compile attempt.
pub open spec fn compile_banner(attempt: nat) -> Seq<char> {
    if attempt == 1 {
        "Compiling for Arduino Mega 2560..."@
    } else {
        "Retrying compile (attempt "@ + decimal(attempt) + ")..."@
    }
}

/// The line for a failed compile that names no missing library.
pub open spec fn no_missing_libraries_note() -> Seq<char> {
    "Compile failed — no missing libraries detected. See output above."@
}

/// The line announcing the install of a missing library.
pub open spec fn missing_library_note(library: Seq<char>) -> Seq<char> {
    "Missing library detected: "@ + library + ".h -> installing '"@ + library + "'..."@
}

/// The line warning that a library could not be installed.
pub open spec fn install_warning_note(library: Seq<char>) -> Seq<char> {
    "  Warning: could not auto-install '"@ + library + "' — you may need to install it manually."@
}

/// The line reporting the compiled firmware image.
pub open spec fn compiled_note(hex_path: Seq<char>) -> Seq<char> {
    "Compiled: "@ + hex_path
}

/// All strings of `v` but the first.
fn strings_after_first(v: &Vec<String>) -> (r: Vec<String>)
    requires
        v@.len() > 0,
    ensures
        r.deep_view() == v.deep_view().drop_first(),
{
    let mut r: Vec<String> = Vec::new();
    let mut i: usize = 1;
    while i < v.len()
        invariant
            1 <= i <= v@.len(),
            r.deep_view() == v.deep_view().subrange(1, i as int),
        decreases v@.len() - i,
    {
        let ghost before = r.deep_view();
        let item = v[i].clone();
        assert(item@ == v.deep_view()[i as int]);
        r.push(item);
        assert(r.deep_view() =~= before.push(item@));
        assert(r.deep_view() =~= v.deep_view().subrange(1, i + 1));
        i = i + 1;
    }
    assert(v.deep_view().subrange(1, v@.len() as int) =~= v.deep_view().drop_first());
    r
}

/// What a compile session asks its caller to do next.
#[derive(Debug)]
pub enum CompileAction {
    /// Run arduino-cli with these arguments: one compile attempt.
    RunCompile { args: Vec<String> },
    /// Run arduino-cli with these arguments: install one missing library.
    InstallLibrary { args: Vec<String> },
    /// Nothing more to run; the session's result can be taken.
    Finish,
}

/// The action runs a compile of `sketch_path` into `build_dir`.
pub open spec fn runs_compile(a: CompileAction, build_dir: Seq<char>, sketch_path: Seq<char>) -> bool {
    a matches CompileAction::RunCompile { args } && args.deep_view() == compile_args(build_dir, sketch_path)
}

/// The action installs `library`.
pub open spec fn installs_library(a: CompileAction, library: Seq<char>) -> bool {
    a matches CompileAction::InstallLibrary { args } && args.deep_view() == library_install_args(library)
}

/// A step of a session: the lines it just added to its log (to be shown
/// now) and what to do next.
#[derive(Debug)]
pub struct CompileStep {
    pub notes: Vec<String>,
    pub action: CompileAction,
}

/// Where a compile session stands.
#[derive(Debug, Clone, Copy, PartialEq, Eq, Structural)]
pub enum CompilePhase {
    /// A compile attempt is running.
    AwaitingCompile,
    /// A library install is running.
    AwaitingLibrary,
    /// No more attempts.
    Finished,
}

/// The compile of a sketch for the Arduino Mega 2560. When a compile fails
/// on missing headers, each missing library is installed and the compile is
/// retried, for at most ten attempts in all.
#[derive(Debug)]
pub struct CompileSession {
    build_dir: String,
    sketch_path: String,
    attempt: u32,
    exit_code: i32,
    pending: Vec<String>,
    log: Vec<String>,
    phase: CompilePhase,
}

impl CompileSession {
    #[verifier::type_invariant]
    closed spec fn wf(self) -> bool {
        &&& 1 <= self.attempt <= MAX_COMPILE_ATTEMPTS
        &&& self.phase == CompilePhase::AwaitingLibrary ==> self.pending@.len() > 0
    }

    /// The number of the current (or last) compile attempt.
    pub closed spec fn attempt(&self) -> nat {
        self.attempt as nat
    }

    /// Exit code of the last compile run (-1 before any finished).
    pub closed spec fn last_exit(&self) -> i32 {
        self.exit_code
    }

    /// Libraries still to install, the one being installed first.
    pub closed spec fn pending(&self) -> Seq<Seq<char>> {
        self.pending.deep_view()
    }

    /// Every line logged so far, in order.
    pub closed spec fn log(&self) -> Seq<Seq<char>> {
        self.log.deep_view()
    }

    pub closed spec fn phase(&self) -> CompilePhase {
        self.phase
    }

    pub closed spec fn build_dir(&self) -> Seq<char> {
        self.build_dir@
    }

    pub closed spec fn sketch_path(&self) -> Seq<char> {
        self.sketch_path@
    }

    /// Appends `line` to the log and to `notes`.
    fn note(&mut self, notes: &mut Vec<String>, line: String)
        ensures
            final(self).log() == old(self).log().push(line@),
            final(notes).deep_view() == old(notes).deep_view().push(line@),
            final(self).attempt() == old(self).attempt(),
            final(self).last_exit() == old(self).last_exit(),
            final(self).pending() == old(self).pending(),
            final(self).phase() == old(self).phase(),
            final(self).build_dir() == old(self).build_dir(),
            final(self).sketch_path() == old(self).sketch_path(),
    {
        proof {
            use_type_invariant(&*self);
        }
        let ghost log0 = self.log.deep_view();
        let ghost notes0 = notes.deep_view();
        notes.push(line.clone());
        let mut log = Vec::new();
        std::mem::swap(&mut log, &mut self.log);
        log.push(line);
        self.log = log;
        assert(self.log.deep_view() =~= log0.push(line@));
        assert(notes.deep_view() =~= notes0.push(line@));
    }

    /// Appends a tool's output lines to the log.
    fn take_output(&mut self, output: Vec<String>)
        ensures
            final(self).log() == old(self).log() + output.deep_view(),
            final(self).attempt() == old(self).attempt(),
            final(self).last_exit() == old(self).last_exit(),
            final(self).pending() == old(self).pending(),
            final(self).phase() == old(self).phase(),
            final(self).build_dir() == old(self).build_dir(),
            final(self).sketch_path() == old(self).sketch_path(),
    {
        proof {
            use_type_invariant(&*self);
        }
        let ghost log0 = self.log.deep_view();
        let mut output = output;
        let ghost out = output.deep_view();
        let mut log = Vec::new();
        std::mem::swap(&mut log, &mut self.log);
        log.append(&mut output);
        self.log = log;
        assert(self.log.deep_view() =~= log0 + out);
    }

    fn run_compile(&self) -> (a: CompileAction)
        ensures
            runs_compile(a, self.build_dir(), self.sketch_path()),
    {
        let mut args: Vec<String> = Vec::new();
        args.push(owned("compile"));
        args.push(owned("--fqbn"));
        args.push(owned(AVR_MEGA_FQBN));
        args.push(owned("--output-dir"));
        args.push(self.build_dir.clone());
        args.push(self.sketch_path.clone());
        assert(args.deep_view() =~= compile_args(self.build_dir(), self.sketch_path()));
        CompileAction::RunCompile { args }
    }

    fn banner(attempt: u32) -> (line: String)
        ensures
            line@ == compile_banner(attempt as nat),
    {
        if attempt == 1 {
            owned("Compiling for Arduino Mega 2560...")
        } else {
            let mut line = owned("Retrying compile (attempt ");
            push_decimal(&mut line, attempt as u64);
            line.append(")...");
            line
        }
    }

    /// Starts a compile of `sketch_path` into `build_dir`: the first attempt
    /// is announced and run.
    pub fn start(build_dir: &str, sketch_path: &str) -> (r: (CompileSession, CompileStep))
        ensures
            r.0.attempt() == 1,
            r.0.last_exit() == -1,
            r.0.phase() == CompilePhase::AwaitingCompile,
            r.0.build_dir() == build_dir@,
            r.0.sketch_path() == sketch_path@,
            r.1.notes.deep_view() == seq![compile_banner(1)],
            r.0.log() == r.1.notes.deep_view(),
            runs_compile(r.1.action, build_dir@, sketch_path@),
    {
        let mut session = CompileSession {
            build_dir: owned(build_dir),
            sketch_path: owned(sketch_path),
            attempt: 1,
            exit_code: -1,
            pending: Vec::new(),
            log: Vec::new(),
            phase: CompilePhase::AwaitingCompile,
        };
        let mut notes: Vec<String> = Vec::new();
        session.note(&mut notes, CompileSession::banner(1));
        assert(session.log() =~= seq![compile_banner(1)]);
        assert(notes.deep_view() =~= seq![compile_banner(1)]);
        let action = session.run_compile();
        (session, CompileStep { notes, action })
    }

    /// Reports the end of a compile attempt with its output lines and exit
    /// code. A success ends the session; a failure that names missing headers
    /// installs those libraries, one at a time, in order of first mention;
    /// any other failure ends the session.
    pub fn compile_finished(&mut self, output: Vec<String>, exit_code: i32) -> (step: CompileStep)
        requires
            old(self).phase() == CompilePhase::AwaitingCompile,
        ensures
            final(self).last_exit() == exit_code,
            final(self).attempt() == old(self).attempt(),
            1 <= final(self).attempt() <= MAX_COMPILE_ATTEMPTS,
            final(self).build_dir() == old(self).build_dir(),
            final(self).sketch_path() == old(self).sketch_path(),
            final(self).log() == old(self).log() + output.deep_view() + step.notes.deep_view(),
            ({
                let missing = missing_libraries_in(joined(output.deep_view(), "\n"@));
                if exit_code == 0 {
                    &&& final(self).phase() == CompilePhase::Finished
                    &&& step.notes.deep_view() == Seq::<Seq<char>>::empty()
                    &&& step.action is Finish
                } else if missing.len() == 0 {
                    &&& final(self).phase() == CompilePhase::Finished
                    &&& step.notes.deep_view() == seq![no_missing_libraries_note()]
                    &&& step.action is Finish
                } else {
                    &&& final(self).phase() == CompilePhase::AwaitingLibrary
                    &&& final(self).pending() == missing
                    &&& step.notes.deep_view() == seq![missing_library_note(missing[0])]
                    &&& installs_library(step.action, missing[0])
                }
            }),
    {
        proof {
            use_type_invariant(&*self);
        }
        let ghost log0 = self.log();
        let ghost out = output.deep_view();
        let text = join_strings(&output, "\n");
        let missing = parse_missing_libraries(text.as_str());
        self.take_output(output);
        self.exit_code = exit_code;
        let mut notes: Vec<String> = Vec::new();
        if exit_code == 0 {
            self.phase = CompilePhase::Finished;
            assert(self.log() =~= log0 + out + notes.deep_view());
            return CompileStep { notes, action: CompileAction::Finish };
        }
        if missing.len() == 0 {
            self.phase = CompilePhase::Finished;
            self.note(&mut notes, owned("Compile failed — no missing libraries detected. See output above."));
            assert(notes.deep_view() =~= seq![no_missing_libraries_note()]);
            assert(self.log() =~= log0 + out + notes.deep_view());
            return CompileStep { notes, action: CompileAction::Finish };
        }
        let first = missing[0].clone();
        self.pending = missing;
        self.phase = CompilePhase::AwaitingLibrary;
        self.note(&mut notes, CompileSession::missing_note(first.as_str()));
        assert(notes.deep_view() =~= seq![missing_library_note(first@)]);
        assert(self.log() =~= log0 + out + notes.deep_view());
        let action = CompileSession::install(first.as_str());
        CompileStep { notes, action }
    }

    fn missing_note(library: &str) -> (line: String)
        ensures
            line@ == missing_library_note(library@),
    {
        let mut line = owned("Missing library detected: ");
        line.append(library);
        line.append(".h -> installing '");
        line.append(library);
        line.append("'...");
        line
    }

    fn warning_note(library: &str) -> (line: String)
        ensures
            line@ == install_warning_note(library@),
    {
        let mut line = owned("  Warning: could not auto-install '");
        line.append(library);
        line.append("' — you may need to install it manually.");
        line
    }

    fn install(library: &str) -> (a: CompileAction)
        ensures
            installs_library(a, library@),
    {
        let mut args: Vec<String> = Vec::new();
        args.push(owned("lib"));
        args.push(owned("install"));
        args.push(owned(library));
        assert(args.deep_view() =~= library_install_args(library@));
        CompileAction::InstallLibrary { args }
    }

    /// Reports the end of a library install with its output lines and exit
    /// code. A failed install is warned about. The next pending library is
    /// installed; when none is left the compile is retried, unless this was
    /// the tenth attempt.
    pub fn library_installed(&mut self, output: Vec<String>, exit_code: i32) -> (step: CompileStep)
        requires
            old(self).phase() == CompilePhase::AwaitingLibrary,
        ensures
            final(self).last_exit() == old(self).last_exit(),
            1 <= final(self).attempt() <= MAX_COMPILE_ATTEMPTS,
            final(self).build_dir() == old(self).build_dir(),
            final(self).sketch_path() == old(self).sketch_path(),
            final(self).log() == old(self).log() + output.deep_view() + step.notes.deep_view(),
            ({
                let library = old(self).pending()[0];
                let warned = if exit_code != 0 {
                    seq![install_warning_note(library)]
                } else {
                    Seq::<Seq<char>>::empty()
                };
                let rest = old(self).pending().drop_first();
                if rest.len() > 0 {
                    &&& final(self).phase() == CompilePhase::AwaitingLibrary
                    &&& final(self).attempt() == old(self).attempt()
                    &&& final(self).pending() == rest
                    &&& step.notes.deep_view() == warned.push(missing_library_note(rest[0]))
                    &&& installs_library(step.action, rest[0])
                } else if old(self).attempt() < MAX_COMPILE_ATTEMPTS {
                    &&& final(self).phase() == CompilePhase::AwaitingCompile
                    &&& final(self).attempt() == old(self).attempt() + 1
                    &&& step.notes.deep_view() == warned.push(compile_banner(old(self).attempt() + 1))
                    &&& runs_compile(step.action, old(self).build_dir(), old(self).sketch_path())
                } else {
                    &&& final(self).phase() == CompilePhase::Finished
                    &&& final(self).attempt() == old(self).attempt()
                    &&& step.notes.deep_view() == warned
                    &&& step.action is Finish
                }
            }),
    {
        proof {
            use_type_invariant(&*self);
        }
        let ghost log0 = self.log();
        let ghost out = output.deep_view();
        let ghost pending0 = self.pending();
        let library = self.pending[0].clone();
        assert(pending0[0] == library@);
        self.take_output(output);
        let mut notes: Vec<String> = Vec::new();
        if exit_code != 0 {
            self.note(&mut notes, CompileSession::warning_note(library.as_str()));
        }
        let ghost warned = notes.deep_view();
        assert(warned =~= (if exit_code != 0 {
            seq![install_warning_note(pending0[0])]
        } else {
            Seq::<Seq<char>>::empty()
        }));
        if self.pending.len() > 1 {
            let pending = strings_after_first(&self.pending);
            assert(pending.deep_view() =~= pending0.drop_first());
            let next = pending[0].clone();
            self.pending = pending;
            self.note(&mut notes, CompileSession::missing_note(next.as_str()));
            assert(self.log() =~= log0 + out + notes.deep_view());
            let action = CompileSession::install(next.as_str());
            return CompileStep { notes, action };
        }
        assert(pending0.drop_first().len() == 0);
        if self.attempt < MAX_COMPILE_ATTEMPTS {
            self.attempt = self.attempt + 1;
            self.phase = CompilePhase::AwaitingCompile;
            self.pending = Vec::new();
            self.note(&mut notes, CompileSession::banner(self.attempt));
            assert(self.log() =~= log0 + out + notes.deep_view());
            let action = self.run_compile();
            return CompileStep { notes, action };
        }
        self.phase = CompilePhase::Finished;
        self.pending = Vec::new();
        assert(self.log() =~= log0 + out + notes.deep_view());
        CompileStep { notes, action: CompileAction::Finish }
    }

    /// The result of a finished compile, given where the firmware image is
    /// expected and whether it is a file there: success needs the last
    /// compile to have exited with 0 and the image to exist, and is noted in
    /// the log. Also returns the lines added to the log.
    pub fn into_result(self, hex_path: &str, hex_is_file: bool) -> (r: (SpeeduinoBuildResult, Vec<String>))
        requires
            self.phase() == CompilePhase::Finished,
        ensures
            r.0.success == (self.last_exit() == 0 && hex_is_file),
            r.0.success ==> (r.0.hex_path matches Some(h) && h@ == hex_path@),
            !r.0.success ==> r.0.hex_path is None,
            r.1.deep_view() == (if r.0.success {
                seq![compiled_note(hex_path@)]
            } else {
                Seq::<Seq<char>>::empty()
            }),
            r.0.log.deep_view() == self.log() + r.1.deep_view(),
    {
        let mut session = self;
        proof {
            use_type_invariant(&session);
        }
        let success = session.exit_code == 0 && hex_is_file;
        let mut notes: Vec<String> = Vec::new();
        let ghost log0 = session.log();
        if success {
            let mut line = owned("Compiled: ");
            line.append(hex_path);
            session.note(&mut notes, line);
            assert(notes.deep_view() =~= seq![compiled_note(hex_path@)]);
        }
        assert(session.log() =~= log0 + notes.deep_view());
        let hex = if success {
            Some(owned(hex_path))
        } else {
            None
        };
        let mut log = Vec::new();
        std::mem::swap(&mut log, &mut session.log);
        (SpeeduinoBuildResult { success, hex_path: hex, log }, notes)
    }
}


/// File name of the firmware image arduino-cli writes for a sketch
/// (`<sketch>.ino.hex`, with "speeduino" when the sketch path has no usable
/// file name).
pub fn hex_file_name(sketch_name: Option<&str>) -> (name: String)
    ensures
        name@ == (match sketch_name {
            Some(n) => n@,
            None => "speeduino"@,
        }) + ".ino.hex"@,
{
    let mut name = match sketch_name {
        Some(n) => owned(n),
        None => owned("speeduino"),
    };
    name.append(".ino.hex");
    name
}

/// Where the compiled image is taken from: the expected file when it
/// exists, otherwise the first `.hex` file found in the build directory,
/// otherwise still the expected path.
pub fn choose_hex_path(expected: String, expected_is_file: bool, first_hex_in_dir: Option<String>) -> (p: String)
    ensures
        p@ == (if expected_is_file {
            expected@
        } else {
            match first_hex_in_dir {
                Some(h) => h@,
                None => expected@,
            }
        }),
{
    if expected_is_file {
        return expected;
    }
    match first_hex_in_dir {
        Some(h) => h,
        None => expected,
    }
}

/// The arduino-cli executable, or the error that asks for it to be
/// downloaded first.
pub fn require_arduino_cli(cli: Option<String>) -> (r: Result<String, String>)
    ensures
        match cli {
            Some(c) => r matches Ok(p) && p@ == c@,
            None => r matches Err(e) && e@ == "arduino-cli not found — download it first"@,
        },
{
    match cli {
        Some(c) => Ok(c),
        None => Err(owned("arduino-cli not found — download it first")),
    }
}

/// What the toolchain check reports: the arduino-cli found, and whether its
/// `core list` output (absent when it could not run) lists the AVR core.
pub fn toolchain_info(cli_path: Option<String>, core_list_output: Option<&str>) -> (info: SpeeduinoToolchainInfo)
    ensures
        info.arduino_cli_path.deep_view() == cli_path.deep_view(),
        info.avr_core_installed == (cli_path is Some && (core_list_output matches Some(o) && contains_sub(
            o@,
            "arduino:avr"@,
        ))),
{
    let installed = match &cli_path {
        Some(_) => core_list_reports_avr(core_list_output),
        None => false,
    };
    SpeeduinoToolchainInfo { arduino_cli_path: cli_path, avr_core_installed: installed }
}

/// The line logged when the AVR core is already installed.
pub open spec fn core_present_note() -> Seq<char> {
    "arduino:avr core already installed."@
}

/// The line logged before installing the AVR core.
pub open spec fn core_install_note() -> Seq<char> {
    "Installing arduino:avr core (this may take a minute)..."@
}

/// The arguments of the arduino-cli AVR core install.
pub open spec fn core_install_args() -> Seq<Seq<char>> {
    seq!["core"@, "install"@, "arduino:avr"@]
}

/// The result when the AVR core is already installed.
pub fn avr_core_present_result() -> (r: SpeeduinoBuildResult)
    ensures
        r.success,
        r.hex_path is None,
        r.log.deep_view() == seq![core_present_note()],
{
    let mut log: Vec<String> = Vec::new();
    log.push(owned("arduino:avr core already installed."));
    assert(log.deep_view() =~= seq![core_present_note()]);
    SpeeduinoBuildResult { success: true, hex_path: None, log }
}

/// The line to log and the arduino-cli arguments for installing the AVR
/// core.
pub fn avr_core_install_plan() -> (r: (String, Vec<String>))
    ensures
        r.0@ == core_install_note(),
        r.1.deep_view() == core_install_args(),
{
    let mut args: Vec<String> = Vec::new();
    args.push(owned("core"));
    args.push(owned("install"));
    args.push(owned("arduino:avr"));
    assert(args.deep_view() =~= core_install_args());
    (owned("Installing arduino:avr core (this may take a minute)..."), args)
}

/// The result of installing the AVR core: the announcement, then the
/// install's output; success when the install exited with 0.
pub fn avr_core_install_result(notice: String, output: Vec<String>, exit_code: i32) -> (r: SpeeduinoBuildResult)
    ensures
        r.success == (exit_code == 0),
        r.hex_path is None,
        r.log.deep_view() == seq![notice@] + output.deep_view(),
{
    let mut log: Vec<String> = Vec::new();
    let ghost out = output.deep_view();
    log.push(notice);
    let mut output = output;
    log.append(&mut output);
    assert(log.deep_view() =~= seq![notice@] + out);
    SpeeduinoBuildResult { success: exit_code == 0, hex_path: None, log }
}

/// The arguments of an arduino-cli upload of the build to `port`.
pub open spec fn upload_args(port: Seq<char>, build_dir: Seq<char>, sketch_path: Seq<char>) -> Seq<Seq<char>> {
    seq!["upload"@, "--fqbn"@, AVR_MEGA_FQBN@, "-p"@, port, "--input-dir"@, build_dir, sketch_path]
}

/// The arguments of an avrdude flash of `hex` to an ATmega2560 on `port`,
/// with the configuration file first when there is one.
pub open spec fn avrdude_args(conf: Option<Seq<char>>, port: Seq<char>, hex: Seq<char>) -> Seq<Seq<char>> {
    let prefix = match conf {
        Some(c) => seq!["-C"@, c],
        None => Seq::<Seq<char>>::empty(),
    };
    prefix + seq![
        "-p"@,
        "atmega2560"@,
        "-c"@,
        "wiring"@,
        "-P"@,
        port,
        "-b"@,
        "115200"@,
        "-D"@,
        "-U"@,
        "flash:w:"@ + hex + ":i"@,
        "-v"@,
    ]
}

/// avrdude always flashes the chosen port: whatever the configuration file,
/// its arguments hold "-P" directly followed by the port, write the image
/// to flash, and with a configuration file they differ only by a leading
/// "-C", file pair.
pub proof fn avrdude_flashes_chosen_port(conf: Option<Seq<char>>, port: Seq<char>, hex: Seq<char>)
    ensures
        avrdude_args(conf, port, hex) == (match conf {
            Some(c) => seq!["-C"@, c],
            None => Seq::<Seq<char>>::empty(),
        }) + avrdude_args(None, port, hex),
        exists|k: int|
            0 <= k && k + 1 < avrdude_args(conf, port, hex).len() && #[trigger] avrdude_args(conf, port, hex)[k] == "-P"@
                && avrdude_args(conf, port, hex)[k + 1] == port,
        avrdude_args(conf, port, hex).contains("flash:w:"@ + hex + ":i"@),
        avrdude_args(conf, port, hex).contains("atmega2560"@),
{
    let args = avrdude_args(conf, port, hex);
    let base = avrdude_args(None, port, hex);
    assert(Seq::<Seq<char>>::empty() + base =~= base);
    let off: int = match conf {
        Some(_) => 2,
        None => 0,
    };
    assert(args[off + 4] == "-P"@);
    assert(args[off + 5] == port);
    assert(args[off + 10] == "flash:w:"@ + hex + ":i"@);
    assert(args[off + 1] == "atmega2560"@);
}

pub open spec fn uploading_note(port: Seq<char>) -> Seq<char> {
    "Uploading to "@ + port + " via arduino-cli..."@
}

pub open spec fn upload_done_note() -> Seq<char> {
    "Upload successful."@
}

pub open spec fn upload_failed_note(exit_code: i32) -> Seq<char> {
    "arduino-cli upload failed (exit "@ + signed_decimal(exit_code as int) + ") — trying avrdude directly."@
}

pub open spec fn no_cli_note() -> Seq<char> {
    "arduino-cli not found — trying avrdude directly."@
}

pub open spec fn no_uploader_error() -> Seq<char> {
    "Neither arduino-cli nor avrdude is available. Download arduino-cli first."@
}

pub open spec fn no_hex_error() -> Seq<char> {
    "No compiled .hex found in the build directory"@
}

pub open spec fn running_note(args: Seq<Seq<char>>) -> Seq<char> {
    "Running: avrdude "@ + joined(args, " "@)
}

pub open spec fn flash_note(exit_code: i32) -> Seq<char> {
    if exit_code == 0 {
        "Flash successful."@
    } else {
        "Flash failed (exit "@ + signed_decimal(exit_code as int) + ")."@
    }
}

/// What an upload session asks its caller to do next.
#[derive(Debug)]
pub enum UploadAction {
    /// Run arduino-cli with these arguments.
    RunUpload { args: Vec<String> },
    /// Look for avrdude (our tools directory, then PATH) and report it.
    LocateAvrdude,
    /// Look for the first `.hex` file in the build directory and for an
    /// `avrdude.conf` beside avrdude, and report them.
    LocateHex,
    /// Run avrdude, in its own directory, with these arguments.
    RunAvrdude { args: Vec<String> },
    /// The upload cannot go on; fail with this message.
    Fail { message: String },
    /// Nothing more to run; the session's result can be taken.
    Finish,
}

/// The action runs arduino-cli with the arguments `expected`.
pub open spec fn upload_runs(a: UploadAction, expected: Seq<Seq<char>>) -> bool {
    a matches UploadAction::RunUpload { args } && args.deep_view() == expected
}

/// The action runs avrdude with the arguments `expected`.
pub open spec fn avrdude_runs(a: UploadAction, expected: Seq<Seq<char>>) -> bool {
    a matches UploadAction::RunAvrdude { args } && args.deep_view() == expected
}

/// The action ends the upload with the error `msg`.
pub open spec fn fails_with(a: UploadAction, msg: Seq<char>) -> bool {
    a matches UploadAction::Fail { message } && message@ == msg
}

/// A step of an upload session: the lines it just logged and what to do
/// next.
#[derive(Debug)]
pub struct UploadStep {
    pub notes: Vec<String>,
    pub action: UploadAction,
}

/// Where an upload session stands.
#[derive(Debug, Clone, Copy, PartialEq, Eq, Structural)]
pub enum UploadPhase {
    AwaitingUpload,
    AwaitingAvrdude,
    AwaitingHex,
    AwaitingFlash,
    Failed,
    Finished,
}

/// The flash of a compiled build to an Arduino Mega 2560: through
/// arduino-cli when it is available, and with avrdude directly when it is
/// not or when its upload fails.
#[derive(Debug)]
pub struct UploadSession {
    port: String,
    build_dir: String,
    sketch_path: String,
    log: Vec<String>,
    phase: UploadPhase,
    success: bool,
    hex: Option<String>,
}

impl UploadSession {
    pub closed spec fn port(&self) -> Seq<char> {
        self.port@
    }

    pub closed spec fn build_dir(&self) -> Seq<char> {
        self.build_dir@
    }

    pub closed spec fn sketch_path(&self) -> Seq<char> {
        self.sketch_path@
    }

    /// Every line logged so far, in order.
    pub closed spec fn log(&self) -> Seq<Seq<char>> {
        self.log.deep_view()
    }

    pub closed spec fn phase(&self) -> UploadPhase {
        self.phase
    }

    /// Whether the flash succeeded (meaningful once finished).
    pub closed spec fn succeeded(&self) -> bool {
        self.success
    }

    /// The image being flashed with avrdude, once found.
    pub closed spec fn hex(&self) -> Option<Seq<char>> {
        self.hex.deep_view()
    }

    /// Appends `line` to the log and to `notes`.
    fn note(&mut self, notes: &mut Vec<String>, line: String)
        ensures
            final(self).log() == old(self).log().push(line@),
            final(notes).deep_view() == old(notes).deep_view().push(line@),
            final(self).port() == old(self).port(),
            final(self).build_dir() == old(self).build_dir(),
            final(self).sketch_path() == old(self).sketch_path(),
            final(self).phase() == old(self).phase(),
            final(self).succeeded() == old(self).succeeded(),
            final(self).hex() == old(self).hex(),
    {
        let ghost log0 = self.log.deep_view();
        let ghost notes0 = notes.deep_view();
        notes.push(line.clone());
        self.log.push(line);
        assert(self.log.deep_view() =~= log0.push(line@));
        assert(notes.deep_view() =~= notes0.push(line@));
    }

    /// Appends a tool's output lines to the log.
    fn take_output(&mut self, output: Vec<String>)
        ensures
            final(self).log() == old(self).log() + output.deep_view(),
            final(self).port() == old(self).port(),
            final(self).build_dir() == old(self).build_dir(),
            final(self).sketch_path() == old(self).sketch_path(),
            final(self).phase() == old(self).phase(),
            final(self).succeeded() == old(self).succeeded(),
            final(self).hex() == old(self).hex(),
    {
        let ghost log0 = self.log.deep_view();
        let mut output = output;
        let ghost out = output.deep_view();
        self.log.append(&mut output);
        assert(self.log.deep_view() =~= log0 + out);
    }

    /// Starts an upload of the build in `build_dir` to `port`; `cli_found`
    /// tells whether arduino-cli is available.
    pub fn start(port: &str, build_dir: &str, sketch_path: &str, cli_found: bool) -> (r: (UploadSession, UploadStep))
        ensures
            r.0.port() == port@,
            r.0.build_dir() == build_dir@,
            r.0.sketch_path() == sketch_path@,
            r.0.log() == r.1.notes.deep_view(),
            r.0.hex() is None,
            cli_found ==> {
                &&& r.0.phase() == UploadPhase::AwaitingUpload
                &&& r.1.notes.deep_view() == seq![uploading_note(port@)]
                &&& upload_runs(r.1.action, upload_args(port@, build_dir@, sketch_path@))
            },
            !cli_found ==> {
                &&& r.0.phase() == UploadPhase::AwaitingAvrdude
                &&& r.1.notes.deep_view() == seq![no_cli_note()]
                &&& r.1.action is LocateAvrdude
            },
    {
        let mut session = UploadSession {
            port: owned(port),
            build_dir: owned(build_dir),
            sketch_path: owned(sketch_path),
            log: Vec::new(),
            phase: UploadPhase::AwaitingUpload,
            success: false,
            hex: None,
        };
        let mut notes: Vec<String> = Vec::new();
        if cli_found {
            let mut line = owned("Uploading to ");
            line.append(port);
            line.append(" via arduino-cli...");
            session.note(&mut notes, line);
            let mut args: Vec<String> = Vec::new();
            args.push(owned("upload"));
            args.push(owned("--fqbn"));
            args.push(owned(AVR_MEGA_FQBN));
            args.push(owned("-p"));
            args.push(owned(port));
            args.push(owned("--input-dir"));
            args.push(owned(build_dir));
            args.push(owned(sketch_path));
            assert(args.deep_view() =~= upload_args(port@, build_dir@, sketch_path@));
            assert(notes.deep_view() =~= seq![uploading_note(port@)]);
            assert(session.log() =~= notes.deep_view());
            (session, UploadStep { notes, action: UploadAction::RunUpload { args } })
        } else {
            session.phase = UploadPhase::AwaitingAvrdude;
            session.note(&mut notes, owned("arduino-cli not found — trying avrdude directly."));
            assert(notes.deep_view() =~= seq![no_cli_note()]);
            assert(session.log() =~= notes.deep_view());
            (session, UploadStep { notes, action: UploadAction::LocateAvrdude })
        }
    }

    /// Reports the end of the arduino-cli upload: on success the session is
    /// done; otherwise avrdude is tried.
    pub fn upload_finished(&mut self, output: Vec<String>, exit_code: i32) -> (step: UploadStep)
        requires
            old(self).phase() == UploadPhase::AwaitingUpload,
        ensures
            final(self).port() == old(self).port(),
            final(self).build_dir() == old(self).build_dir(),
            final(self).sketch_path() == old(self).sketch_path(),
            final(self).hex() == old(self).hex(),
            final(self).log() == old(self).log() + output.deep_view() + step.notes.deep_view(),
            exit_code == 0 ==> {
                &&& final(self).phase() == UploadPhase::Finished
                &&& final(self).succeeded()
                &&& step.notes.deep_view() == seq![upload_done_note()]
                &&& step.action is Finish
            },
            exit_code != 0 ==> {
                &&& final(self).phase() == UploadPhase::AwaitingAvrdude
                &&& step.notes.deep_view() == seq![upload_failed_note(exit_code)]
                &&& step.action is LocateAvrdude
            },
    {
        let ghost log0 = self.log();
        let ghost out = output.deep_view();
        self.take_output(output);
        let mut notes: Vec<String> = Vec::new();
        if exit_code == 0 {
            self.phase = UploadPhase::Finished;
            self.success = true;
            self.note(&mut notes, owned("Upload successful."));
            assert(notes.deep_view() =~= seq![upload_done_note()]);
            assert(self.log() =~= log0 + out + notes.deep_view());
            return UploadStep { notes, action: UploadAction::Finish };
        }
        self.phase = UploadPhase::AwaitingAvrdude;
        let mut line = owned("arduino-cli upload failed (exit ");
        push_signed_decimal(&mut line, exit_code);
        line.append(") — trying avrdude directly.");
        self.note(&mut notes, line);
        assert(notes.deep_view() =~= seq![upload_failed_note(exit_code)]);
        assert(self.log() =~= log0 + out + notes.deep_view());
        UploadStep { notes, action: UploadAction::LocateAvrdude }
    }

    /// Reports whether avrdude was found; without it the upload fails.
    pub fn avrdude_located(&mut self, found: bool) -> (step: UploadStep)
        requires
            old(self).phase() == UploadPhase::AwaitingAvrdude,
        ensures
            final(self).port() == old(self).port(),
            final(self).build_dir() == old(self).build_dir(),
            final(self).sketch_path() == old(self).sketch_path(),
            final(self).hex() == old(self).hex(),
            final(self).log() == old(self).log(),
            step.notes.deep_view() == Seq::<Seq<char>>::empty(),
            found ==> final(self).phase() == UploadPhase::AwaitingHex && step.action is LocateHex,
            !found ==> final(self).phase() == UploadPhase::Failed && fails_with(step.action, no_uploader_error()),
    {
        let notes: Vec<String> = Vec::new();
        assert(notes.deep_view() =~= Seq::<Seq<char>>::empty());
        if found {
            self.phase = UploadPhase::AwaitingHex;
            UploadStep { notes, action: UploadAction::LocateHex }
        } else {
            self.phase = UploadPhase::Failed;
            UploadStep {
                notes,
                action: UploadAction::Fail {
                    message: owned("Neither arduino-cli nor avrdude is available. Download arduino-cli first."),
                },
            }
        }
    }

    /// Reports the image found in the build directory (if any) and the
    /// avrdude configuration file beside avrdude (if any); with an image,
    /// avrdude is run on it.
    pub fn hex_located(&mut self, hex: Option<&str>, conf: Option<&str>) -> (step: UploadStep)
        requires
            old(self).phase() == UploadPhase::AwaitingHex,
        ensures
            final(self).port() == old(self).port(),
            final(self).build_dir() == old(self).build_dir(),
            final(self).sketch_path() == old(self).sketch_path(),
            final(self).log() == old(self).log() + step.notes.deep_view(),
            match hex {
                None => {
                    &&& final(self).phase() == UploadPhase::Failed
                    &&& step.notes.deep_view() == Seq::<Seq<char>>::empty()
                    &&& fails_with(step.action, no_hex_error())
                },
                Some(h) => {
                    let args = avrdude_args(
                        match conf {
                            Some(c) => Some(c@),
                            None => None,
                        },
                        old(self).port(),
                        h@,
                    );
                    &&& final(self).phase() == UploadPhase::AwaitingFlash
                    &&& final(self).hex() == Some(h@)
                    &&& step.notes.deep_view() == seq![running_note(args)]
                    &&& avrdude_runs(step.action, args)
                },
            },
    {
        let mut notes: Vec<String> = Vec::new();
        let ghost log0 = self.log();
        let h = match hex {
            None => {
                self.phase = UploadPhase::Failed;
                assert(notes.deep_view() =~= Seq::<Seq<char>>::empty());
                assert(self.log() =~= log0 + notes.deep_view());
                return UploadStep {
                    notes,
                    action: UploadAction::Fail { message: owned("No compiled .hex found in the build directory") },
                };
            },
            Some(h) => h,
        };
        let ghost conf_view = match conf {
            Some(c) => Some(c@),
            None => None,
        };
        let mut args: Vec<String> = Vec::new();
        if let Some(c) = conf {
            args.push(owned("-C"));
            args.push(owned(c));
        }
        let ghost prefix = args.deep_view();
        args.push(owned("-p"));
        args.push(owned("atmega2560"));
        args.push(owned("-c"));
        args.push(owned("wiring"));
        args.push(owned("-P"));
        args.push(self.port.clone());
        args.push(owned("-b"));
        args.push(owned("115200"));
        args.push(owned("-D"));
        args.push(owned("-U"));
        let mut flash = owned("flash:w:");
        flash.append(h);
        flash.append(":i");
        args.push(flash);
        args.push(owned("-v"));
        proof {
            let expected = avrdude_args(conf_view, self.port(), h@);
            let pre = match conf_view {
                Some(c) => seq!["-C"@, c],
                None => Seq::<Seq<char>>::empty(),
            };
            assert(prefix =~= pre);
            assert(args.deep_view() =~= expected);
        }
        let mut line = owned("Running: avrdude ");
        let rendered = join_strings(&args, " ");
        line.append(rendered.as_str());
        self.note(&mut notes, line);
        self.hex = Some(owned(h));
        self.phase = UploadPhase::AwaitingFlash;
        assert(self.log() =~= log0 + notes.deep_view());
        assert(notes.deep_view() =~= seq![running_note(args.deep_view())]);
        UploadStep { notes, action: UploadAction::RunAvrdude { args } }
    }

    /// Reports the end of the avrdude run; the session is then done.
    pub fn flash_finished(&mut self, output: Vec<String>, exit_code: i32) -> (step: UploadStep)
        requires
            old(self).phase() == UploadPhase::AwaitingFlash,
        ensures
            final(self).port() == old(self).port(),
            final(self).build_dir() == old(self).build_dir(),
            final(self).sketch_path() == old(self).sketch_path(),
            final(self).hex() == old(self).hex(),
            final(self).phase() == UploadPhase::Finished,
            final(self).succeeded() == (exit_code == 0),
            step.notes.deep_view() == seq![flash_note(exit_code)],
            step.action is Finish,
            final(self).log() == old(self).log() + output.deep_view() + step.notes.deep_view(),
    {
        let ghost log0 = self.log();
        let ghost out = output.deep_view();
        self.take_output(output);
        let mut notes: Vec<String> = Vec::new();
        let line = if exit_code == 0 {
            owned("Flash successful.")
        } else {
            let mut line = owned("Flash failed (exit ");
            push_signed_decimal(&mut line, exit_code);
            line.append(").");
            line
        };
        self.note(&mut notes, line);
        self.success = exit_code == 0;
        self.phase = UploadPhase::Finished;
        assert(notes.deep_view() =~= seq![flash_note(exit_code)]);
        assert(self.log() =~= log0 + out + notes.deep_view());
        UploadStep { notes, action: UploadAction::Finish }
    }

    /// The result of a finished upload: whether it succeeded, the image
    /// flashed with avrdude (none when arduino-cli did the upload), and the
    /// full log.
    pub fn into_result(self) -> (r: SpeeduinoBuildResult)
        requires
            self.phase() == UploadPhase::Finished,
        ensures
            r.success == self.succeeded(),
            r.hex_path.deep_view() == self.hex(),
            r.log.deep_view() == self.log(),
    {
        SpeeduinoBuildResult { success: self.success, hex_path: self.hex, log: self.log }
    }
}

} // verus!
