//! Build-time location of the host application's installation directory.
//!
//! The build resolves the directory in a fixed priority order: an explicit
//! override environment variable, then the first trimmed line of a
//! per-platform "last run" marker file the host leaves behind, then a
//! per-platform default install path. When the override is unset and the
//! home (or roaming app-data) environment variable is missing, or when the
//! Windows default is needed but the program-files variable is missing,
//! resolution fails and the build aborts.

use vstd::prelude::*;
use vstd::string::*;

verus! {

/// The platforms the plugin builds on.
#[derive(Clone, Copy, PartialEq, Eq, Structural, Debug)]
pub enum HostPlatform {
    Linux,
    MacOs,
    Windows,
}

/// Why no installation directory could be resolved. The build treats either
/// case as fatal.
#[derive(Clone, Copy, PartialEq, Eq, Structural, Debug)]
pub enum LocateError {
    /// The home (roaming app-data on Windows) environment variable is unset.
    MissingHomeVariable,
    /// The Windows default path is needed, but the program-files environment
    /// variable is unset.
    MissingProgramFiles,
}

/// White space as `str::trim` understands it: the Unicode white-space
/// characters.
pub open spec fn is_space(c: char) -> bool {
    c == ' ' || c == '\t' || c == '\n' || c == '\u{000B}' || c == '\u{000C}' || c == '\r'
        || c == '\u{0085}' || c == '\u{00A0}' || c == '\u{1680}' || c == '\u{2000}'
        || c == '\u{2001}' || c == '\u{2002}' || c == '\u{2003}' || c == '\u{2004}'
        || c == '\u{2005}' || c == '\u{2006}' || c == '\u{2007}' || c == '\u{2008}'
        || c == '\u{2009}' || c == '\u{200A}' || c == '\u{2028}' || c == '\u{2029}'
        || c == '\u{202F}' || c == '\u{205F}' || c == '\u{3000}'
}

/// Executable counterpart of [`is_space`].
pub fn is_space_char(c: char) -> (r: bool)
    ensures
        r == is_space(c),
{
    c == ' ' || c == '\t' || c == '\n' || c == '\u{000B}' || c == '\u{000C}' || c == '\r'
        || c == '\u{0085}' || c == '\u{00A0}' || c == '\u{1680}' || c == '\u{2000}'
        || c == '\u{2001}' || c == '\u{2002}' || c == '\u{2003}' || c == '\u{2004}'
        || c == '\u{2005}' || c == '\u{2006}' || c == '\u{2007}' || c == '\u{2008}'
        || c == '\u{2009}' || c == '\u{200A}' || c == '\u{2028}' || c == '\u{2029}'
        || c == '\u{202F}' || c == '\u{205F}' || c == '\u{3000}'
}

/// Number of characters before the first newline of `s` (all of `s` when it
/// has none).
pub open spec fn spec_line_len(s: Seq<char>) -> int
    decreases s.len(),
{
    if s.len() == 0 {
        0
    } else if s[0] == '\n' {
        0
    } else {
        1 + spec_line_len(s.skip(1))
    }
}

/// The first line of `s`: everything before the first newline.
pub open spec fn spec_first_line(s: Seq<char>) -> Seq<char> {
    s.take(spec_line_len(s))
}

/// `spec_line_len` is the position of the first newline: everything before
/// it is not a newline, and it is within bounds.
proof fn lemma_line_len_is(s: Seq<char>, i: int)
    requires
        0 <= i <= s.len(),
        forall|j: int| 0 <= j < i ==> s[j] != '\n',
        i < s.len() ==> s[i] == '\n',
    ensures
        spec_line_len(s) == i,
    decreases i,
{
    if i == 0 {
    } else {
        assert(s[0] != '\n');
        assert forall|j: int| 0 <= j < i - 1 implies s.skip(1)[j] != '\n' by {
            assert(s.skip(1)[j] == s[j + 1]);
        }
        if i - 1 < s.skip(1).len() {
            assert(s.skip(1)[i - 1] == s[i]);
        }
        lemma_line_len_is(s.skip(1), i - 1);
    }
}

/// The first line of `s`, as a borrowed substring.
pub fn first_line<'a>(s: &'a str) -> (r: &'a str)
    ensures
        r@ == spec_first_line(s@),
{
    let n: usize = s.unicode_len();
    let mut i: usize = 0;
    while i < n
        invariant
            i <= n,
            n == s@.len(),
            forall|j: int| 0 <= j < i ==> s@[j] != '\n',
        decreases n - i,
    {
        if s.get_char(i) == '\n' {
            proof {
                lemma_line_len_is(s@, i as int);
                assert(s@.take(i as int) =~= s@.subrange(0, i as int));
            }
            return s.substring_char(0, i);
        }
        i += 1;
    }
    proof {
        lemma_line_len_is(s@, n as int);
        assert(s@.take(n as int) =~= s@.subrange(0, n as int));
    }
    s.substring_char(0, n)
}

/// Number of white-space characters at the start of `s`.
pub open spec fn spec_leading_spaces(s: Seq<char>) -> int
    decreases s.len(),
{
    if s.len() == 0 {
        0
    } else if is_space(s[0]) {
        1 + spec_leading_spaces(s.skip(1))
    } else {
        0
    }
}

/// Index just past the last character of `s` that is not white space (0 when
/// `s` is all white space).
pub open spec fn spec_trailing_keep(s: Seq<char>) -> int
    decreases s.len(),
{
    if s.len() == 0 {
        0
    } else if is_space(s[s.len() - 1]) {
        spec_trailing_keep(s.drop_last())
    } else {
        s.len() as int
    }
}

/// `s` with leading and trailing white space removed, as `str::trim` leaves
/// it.
pub open spec fn spec_trim(s: Seq<char>) -> Seq<char> {
    if spec_leading_spaces(s) == s.len() {
        Seq::empty()
    } else {
        s.subrange(spec_leading_spaces(s), spec_trailing_keep(s))
    }
}

/// `spec_leading_spaces` is the position of the first non-space character:
/// everything before it is white space.
proof fn lemma_leading_spaces_is(s: Seq<char>, a: int)
    requires
        0 <= a <= s.len(),
        forall|j: int| 0 <= j < a ==> is_space(s[j]),
        a < s.len() ==> !is_space(s[a]),
    ensures
        spec_leading_spaces(s) == a,
    decreases a,
{
    if a == 0 {
    } else {
        assert(is_space(s[0]));
        assert forall|j: int| 0 <= j < a - 1 implies is_space(s.skip(1)[j]) by {
            assert(s.skip(1)[j] == s[j + 1]);
        }
        if a - 1 < s.skip(1).len() {
            assert(s.skip(1)[a - 1] == s[a]);
        }
        lemma_leading_spaces_is(s.skip(1), a - 1);
    }
}

/// `spec_trailing_keep` is the index just past the last non-space character:
/// everything from it on is white space.
proof fn lemma_trailing_keep_is(s: Seq<char>, b: int)
    requires
        0 <= b <= s.len(),
        forall|j: int| b <= j < s.len() ==> is_space(s[j]),
        b > 0 ==> !is_space(s[b - 1]),
    ensures
        spec_trailing_keep(s) == b,
    decreases s.len(),
{
    if b == s.len() {
        if s.len() > 0 {
            assert(!is_space(s[s.len() - 1]));
        }
    } else {
        assert(is_space(s[s.len() - 1]));
        assert forall|j: int| b <= j < s.drop_last().len() implies is_space(s.drop_last()[j]) by {
            assert(s.drop_last()[j] == s[j]);
        }
        if b > 0 {
            assert(s.drop_last()[b - 1] == s[b - 1]);
        }
        lemma_trailing_keep_is(s.drop_last(), b);
    }
}

/// The number of leading white-space characters of `s`.
fn leading_spaces(s: &str) -> (a: usize)
    ensures
        a as int == spec_leading_spaces(s@),
        a <= s@.len(),
        a < s@.len() ==> !is_space(s@[a as int]),
{
    let n: usize = s.unicode_len();
    let mut a: usize = 0;
    while a < n
        invariant
            a <= n,
            n == s@.len(),
            forall|j: int| 0 <= j < a ==> is_space(s@[j]),
        decreases n - a,
    {
        if !is_space_char(s.get_char(a)) {
            proof {
                lemma_leading_spaces_is(s@, a as int);
            }
            return a;
        }
        a += 1;
    }
    proof {
        lemma_leading_spaces_is(s@, n as int);
    }
    a
}

/// The index just past the last non-space character of `s`.
fn trailing_keep(s: &str) -> (b: usize)
    ensures
        b as int == spec_trailing_keep(s@),
        b <= s@.len(),
        forall|j: int| b <= j < s@.len() ==> is_space(s@[j]),
{
    let n: usize = s.unicode_len();
    let mut b: usize = n;
    while b > 0
        invariant
            b <= n,
            n == s@.len(),
            forall|j: int| b <= j < n ==> is_space(s@[j]),
        decreases b,
    {
        if !is_space_char(s.get_char(b - 1)) {
            proof {
                lemma_trailing_keep_is(s@, b as int);
            }
            return b;
        }
        b -= 1;
    }
    proof {
        lemma_trailing_keep_is(s@, 0);
    }
    0
}

/// `s` without leading and trailing white space, as `str::trim` returns it.
pub fn trim_spaces<'a>(s: &'a str) -> (r: &'a str)
    ensures
        r@ == spec_trim(s@),
{
    let n: usize = s.unicode_len();
    let a = leading_spaces(s);
    if a == n {
        let empty = "";
        proof {
            reveal_strlit("");
            assert(empty@ =~= spec_trim(s@));
        }
        empty
    } else {
        let b = trailing_keep(s);
        proof {
            if b <= a {
                assert(is_space(s@[a as int]));
                assert(false);
            }
        }
        s.substring_char(a, b)
    }
}

impl HostPlatform {
    /// Name of the environment variable that holds the user's home directory
    /// (the roaming app-data directory on Windows).
    pub open spec fn spec_home_variable(self) -> Seq<char> {
        match self {
            HostPlatform::Windows => "APPDATA"@,
            _ => "HOME"@,
        }
    }

    /// Executable counterpart of [`Self::spec_home_variable`].
    pub fn home_variable(self) -> (r: &'static str)
        ensures
            r@ == self.spec_home_variable(),
    {
        match self {
            HostPlatform::Windows => "APPDATA",
            _ => "HOME",
        }
    }

    /// The platform's path separator.
    pub open spec fn spec_path_separator(self) -> Seq<char> {
        match self {
            HostPlatform::Windows => "\\"@,
            _ => "/"@,
        }
    }

    /// Executable counterpart of [`Self::spec_path_separator`].
    pub fn path_separator(self) -> (r: &'static str)
        ensures
            r@ == self.spec_path_separator(),
    {
        match self {
            HostPlatform::Windows => "\\",
            _ => "/",
        }
    }

    /// Where the host's "last run" marker file lives, relative to the home
    /// directory.
    pub open spec fn spec_marker_relative_path(self) -> Seq<char> {
        match self {
            HostPlatform::Linux => ".binaryninja/lastrun"@,
            HostPlatform::MacOs => "Library/Application Support/Binary Ninja/lastrun"@,
            HostPlatform::Windows => "Binary Ninja\\lastrun"@,
        }
    }

    /// Executable counterpart of [`Self::spec_marker_relative_path`].
    pub fn marker_relative_path(self) -> (r: &'static str)
        ensures
            r@ == self.spec_marker_relative_path(),
    {
        match self {
            HostPlatform::Linux => ".binaryninja/lastrun",
            HostPlatform::MacOs => "Library/Application Support/Binary Ninja/lastrun",
            HostPlatform::Windows => "Binary Ninja\\lastrun",
        }
    }
}

/// `base`, then `sep`, then `child`.
pub open spec fn spec_join(base: Seq<char>, sep: Seq<char>, child: Seq<char>) -> Seq<char> {
    base + sep + child
}

/// `child` appended to `base` with the platform's path separator between
/// them.
pub fn join_path(platform: HostPlatform, base: &str, child: &str) -> (r: String)
    ensures
        r@ == spec_join(base@, platform.spec_path_separator(), child@),
{
    let mut r = base.to_owned();
    r.append(platform.path_separator());
    r.append(child);
    r
}

/// The absolute path of the platform's "last run" marker file, given the
/// home directory.
pub open spec fn spec_marker_file_path(platform: HostPlatform, home: Seq<char>) -> Seq<char> {
    spec_join(home, platform.spec_path_separator(), platform.spec_marker_relative_path())
}

/// Executable counterpart of [`spec_marker_file_path`].
pub fn marker_file_path(platform: HostPlatform, home: &str) -> (r: String)
    ensures
        r@ == spec_marker_file_path(platform, home@),
{
    join_path(platform, home, platform.marker_relative_path())
}

/// The installation directory a marker file names: the first line of its
/// contents, trimmed.
pub open spec fn spec_marker_install_dir(contents: Seq<char>) -> Seq<char> {
    spec_trim(spec_first_line(contents))
}

/// Executable counterpart of [`spec_marker_install_dir`].
pub fn marker_install_dir(contents: &str) -> (r: String)
    ensures
        r@ == spec_marker_install_dir(contents@),
{
    trim_spaces(first_line(contents)).to_owned()
}

/// The platform's default installation directory. `home` is used on Linux
/// and `program_files` on Windows; macOS has a fixed default.
pub open spec fn spec_default_install_dir(
    platform: HostPlatform,
    home: Seq<char>,
    program_files: Seq<char>,
) -> Seq<char> {
    match platform {
        HostPlatform::Linux => spec_join(home, "/"@, "binaryninja"@),
        HostPlatform::MacOs => "/Applications/Binary Ninja.app/Contents/MacOS"@,
        HostPlatform::Windows => spec_join(program_files, "\\"@, "Vector35\\BinaryNinja\\"@),
    }
}

/// Executable counterpart of [`spec_default_install_dir`].
pub fn default_install_dir(platform: HostPlatform, home: &str, program_files: &str) -> (r: String)
    ensures
        r@ == spec_default_install_dir(platform, home@, program_files@),
{
    match platform {
        HostPlatform::Linux => join_path(platform, home, "binaryninja"),
        HostPlatform::MacOs => "/Applications/Binary Ninja.app/Contents/MacOS".to_owned(),
        HostPlatform::Windows => join_path(platform, program_files, "Vector35\\BinaryNinja\\"),
    }
}

/// The views of an optional owned string.
pub open spec fn opt_chars(o: Option<String>) -> Option<Seq<char>> {
    match o {
        Option::Some(s) => Option::Some(s@),
        Option::None => Option::None,
    }
}

/// What [`resolve_install_dir`] returns, over views: the override wins, then
/// the marker file's first trimmed line, then the platform default; a
/// missing home (or, on the Windows default path, a missing program-files)
/// variable is an error.
pub open spec fn spec_resolve_install_dir(
    platform: HostPlatform,
    override_dir: Option<Seq<char>>,
    home: Option<Seq<char>>,
    marker_contents: Option<Seq<char>>,
    program_files: Option<Seq<char>>,
) -> Result<Seq<char>, LocateError> {
    match override_dir {
        Option::Some(dir) => Result::Ok(dir),
        Option::None => match home {
            Option::None => Result::Err(LocateError::MissingHomeVariable),
            Option::Some(home_dir) => match marker_contents {
                Option::Some(contents) => Result::Ok(spec_marker_install_dir(contents)),
                Option::None => match platform {
                    HostPlatform::Windows => match program_files {
                        Option::None => Result::Err(LocateError::MissingProgramFiles),
                        Option::Some(pf) => Result::Ok(
                            spec_default_install_dir(platform, home_dir, pf),
                        ),
                    },
                    _ => Result::Ok(spec_default_install_dir(platform, home_dir, Seq::empty())),
                },
            },
        },
    }
}

/// `r` carries the same outcome as `expected`, up to the view of the owned
/// string.
pub open spec fn dir_result_matches(
    r: Result<String, LocateError>,
    expected: Result<Seq<char>, LocateError>,
) -> bool {
    match (r, expected) {
        (Result::Ok(dir), Result::Ok(e)) => dir@ == e,
        (Result::Err(a), Result::Err(b)) => a == b,
        _ => false,
    }
}

/// Resolve the host's installation directory from the build environment.
///
/// `override_dir`, `home` and `program_files` are the values of the
/// respective environment variables, where set; `marker_contents` is the
/// contents of the platform's marker file, where it was readable. The
/// priority order and the two failure cases are stated exactly: the override
/// wins whenever it is set; otherwise the marker file's first trimmed line;
/// otherwise the platform default.
pub fn resolve_install_dir(
    platform: HostPlatform,
    override_dir: Option<String>,
    home: Option<String>,
    marker_contents: Option<String>,
    program_files: Option<String>,
) -> (r: Result<String, LocateError>)
    ensures
        dir_result_matches(
            r,
            spec_resolve_install_dir(
                platform,
                opt_chars(override_dir),
                opt_chars(home),
                opt_chars(marker_contents),
                opt_chars(program_files),
            ),
        ),
        override_dir is Some ==> r is Ok && r->Ok_0@ == override_dir->0@,
        override_dir is None && home is Some && marker_contents is Some ==> r is Ok
            && r->Ok_0@ == spec_marker_install_dir(marker_contents->0@),
        override_dir is None && home is Some && marker_contents is None && platform
            != HostPlatform::Windows ==> r is Ok && r->Ok_0@ == spec_default_install_dir(
            platform,
            home->0@,
            Seq::empty(),
        ),
        override_dir is None && home is Some && marker_contents is None && platform
            == HostPlatform::Windows && program_files is Some ==> r is Ok && r->Ok_0@
            == spec_default_install_dir(platform, home->0@, program_files->0@),
        override_dir is None && home is None ==> r == Result::<String, LocateError>::Err(
            LocateError::MissingHomeVariable,
        ),
        override_dir is None && home is Some && marker_contents is None && platform
            == HostPlatform::Windows && program_files is None ==> r == Result::<
            String,
            LocateError,
        >::Err(LocateError::MissingProgramFiles),
{
    match override_dir {
        Option::Some(dir) => Result::Ok(dir),
        Option::None => match home {
            Option::None => Result::Err(LocateError::MissingHomeVariable),
            Option::Some(home_dir) => match marker_contents {
                Option::Some(contents) => Result::Ok(marker_install_dir(contents.as_str())),
                Option::None => match platform {
                    HostPlatform::Windows => match program_files {
                        Option::None => Result::Err(LocateError::MissingProgramFiles),
                        Option::Some(pf) => Result::Ok(
                            default_install_dir(platform, home_dir.as_str(), pf.as_str()),
                        ),
                    },
                    _ => Result::Ok(default_install_dir(platform, home_dir.as_str(), "")),
                },
            },
        },
    }
}

} // verus!
