//! Opening a database by a URI.

use vstd::prelude::*;
use vstd::string::*;

use crate::error::LimboError;
use crate::percent;
use crate::text;

verus! {

/// How a database is opened.
#[derive(Clone, Copy, Debug, PartialEq, Eq, Structural)]
pub enum Mode {
    ReadOnly,
    ReadWrite,
    Memory,
    ReadWriteCreate,
}

/// Whether the page cache is shared.
#[derive(Clone, Copy, Debug, PartialEq, Eq, Structural)]
pub enum CacheMode {
    Private,
    Shared,
}

/// How a file is opened.
#[derive(Clone, Copy, Debug, PartialEq, Eq, Structural)]
pub enum OpenFlags {
    Empty,
    Create,
}

/// What a URI says of the database to open.
#[derive(Debug, PartialEq)]
pub struct OpenOptions<'a> {
    pub authority: Option<&'a str>,
    pub path: String,
    pub fragment: Option<String>,
    pub vfs: Option<String>,
    pub mode: Mode,
    pub modeof: Option<String>,
    pub cache: Option<CacheMode>,
    pub immutable: Option<bool>,
}

/// What a URI says of the database to open, as contracts speak of it.
#[verifier::ext_equal]
pub struct Options {
    pub authority: Option<Seq<char>>,
    pub path: Seq<char>,
    pub fragment: Option<Seq<char>>,
    pub vfs: Option<Seq<char>>,
    pub mode: Mode,
    pub modeof: Option<Seq<char>>,
    pub cache: Option<CacheMode>,
    pub immutable: Option<bool>,
}

/// The text of an optional string.
pub open spec fn opt_text(s: Option<String>) -> Option<Seq<char>> {
    match s {
        Some(x) => Some(x@),
        None => None,
    }
}

impl<'a> View for OpenOptions<'a> {
    type V = Options;

    open spec fn view(&self) -> Options {
        Options {
            authority: match self.authority {
                Some(x) => Some(x@),
                None => None,
            },
            path: self.path@,
            fragment: opt_text(self.fragment),
            vfs: opt_text(self.vfs),
            mode: self.mode,
            modeof: opt_text(self.modeof),
            cache: self.cache,
            immutable: self.immutable,
        }
    }
}

/// The options of a database of which nothing is said but its path.
pub open spec fn only_path(path: Seq<char>) -> Options {
    Options {
        authority: None,
        path,
        fragment: None,
        vfs: None,
        mode: Mode::ReadWriteCreate,
        modeof: None,
        cache: None,
        immutable: None,
    }
}

impl Default for Mode {
    fn default() -> (res: Self)
        ensures
            res == Mode::ReadWriteCreate,
    {
        Mode::ReadWriteCreate
    }
}

impl<'a> Default for OpenOptions<'a> {
    fn default() -> (res: Self)
        ensures
            res@ == only_path(Seq::empty()),
    {
        OpenOptions {
            authority: None,
            path: String::new(),
            fragment: None,
            vfs: None,
            mode: Mode::default(),
            modeof: None,
            cache: None,
            immutable: None,
        }
    }
}

/// The cache mode of a name: shared if the name says so.
pub open spec fn cache_mode(s: Seq<char>) -> CacheMode {
    if s == "shared"@ {
        CacheMode::Shared
    } else {
        CacheMode::Private
    }
}

impl From<&str> for CacheMode {
    fn from(s: &str) -> (res: Self) {
        if text::same_text(s, "shared") {
            CacheMode::Shared
        } else {
            CacheMode::Private
        }
    }
}

impl vstd::std_specs::convert::FromSpecImpl<&str> for CacheMode {
    open spec fn obeys_from_spec() -> bool {
        true
    }

    open spec fn from_spec(s: &str) -> Self {
        cache_mode(s@)
    }
}

/// The mode of a name in lower case.
pub open spec fn mode_named(s: Seq<char>) -> Option<Mode> {
    if s == "ro"@ {
        Some(Mode::ReadOnly)
    } else if s == "rw"@ {
        Some(Mode::ReadWrite)
    } else if s == "memory"@ {
        Some(Mode::Memory)
    } else if s == "rwc"@ {
        Some(Mode::ReadWriteCreate)
    } else {
        None
    }
}

/// The mode that a text means; white space around it and its case do not matter.
pub open spec fn mode_of(s: Seq<char>) -> Option<Mode> {
    mode_named(text::lowered(text::trimmed(s)))
}

/// What is said of a text that means no mode.
pub open spec fn mode_complaint(s: Seq<char>) -> Seq<char> {
    "Invalid mode: '"@ + s + "'. Expected one of 'ro', 'rw', 'memory', 'rwc'"@
}

impl Mode {
    /// The mode of a name in lower case, if it names one.
    pub fn from_lowercase(s: &str) -> (res: Option<Self>)
        ensures
            res == mode_named(s@),
    {
        if text::same_text(s, "ro") {
            Some(Mode::ReadOnly)
        } else if text::same_text(s, "rw") {
            Some(Mode::ReadWrite)
        } else if text::same_text(s, "memory") {
            Some(Mode::Memory)
        } else if text::same_text(s, "rwc") {
            Some(Mode::ReadWriteCreate)
        } else {
            None
        }
    }

    /// The mode that a text means.
    pub fn from_str(s: &str) -> (res: Result<Self, LimboError>)
        ensures
            match mode_of(s@) {
                Some(mode) => res == Ok::<Mode, LimboError>(mode),
                None => res matches Err(LimboError::InvalidArgument(m)) && m@ == mode_complaint(s@),
            },
    {
        match Mode::from_lowercase(&text::to_lowercase(text::trim(s))) {
            Some(mode) => Ok(mode),
            None => Err(
                LimboError::InvalidArgument(
                    "Invalid mode: '".to_owned().concat(s).concat(
                        "'. Expected one of 'ro', 'rw', 'memory', 'rwc'",
                    ),
                ),
            ),
        }
    }

    /// How the file is opened: created where the mode says so.
    pub fn get_flags(&self) -> (res: OpenFlags)
        ensures
            res == if *self == Mode::ReadWriteCreate {
                OpenFlags::Create
            } else {
                OpenFlags::Empty
            },
    {
        match self {
            Mode::ReadWriteCreate => OpenFlags::Create,
            _ => OpenFlags::Empty,
        }
    }
}

/// The options with what one query parameter says; what is said of it where
/// it is wrong. A parameter without a value, or of an unknown name, says nothing.
pub open spec fn with_param(o: Options, param: Seq<char>) -> Result<Options, Seq<char>> {
    match text::split_at_first(param, '=') {
        None => Ok(o),
        Some((key, value)) => {
            if key == "mode"@ {
                match mode_of(value) {
                    Some(mode) => Ok(Options { mode, ..o }),
                    None => Err(mode_complaint(value)),
                }
            } else if key == "modeof"@ {
                Ok(Options { modeof: Some(percent::decoded(value)), ..o })
            } else if key == "cache"@ {
                Ok(Options { cache: Some(cache_mode(percent::decoded(value))), ..o })
            } else if key == "immutable"@ {
                Ok(Options { immutable: Some(percent::decoded(value) == "1"@), ..o })
            } else if key == "vfs"@ {
                Ok(Options { vfs: Some(percent::decoded(value)), ..o })
            } else {
                Ok(o)
            }
        },
    }
}

/// The options with what some query parameters say, one after the other up to
/// the first that is wrong, and what is said of that one.
pub open spec fn with_params(o: Options, params: Seq<Seq<char>>) -> (Options, Option<Seq<char>>)
    decreases params.len(),
{
    if params.len() == 0 {
        (o, None)
    } else {
        let (p, complaint) = with_params(o, params.drop_last());
        if complaint is Some {
            (p, complaint)
        } else {
            match with_param(p, params.last()) {
                Ok(q) => (q, None),
                Err(c) => (p, Some(c)),
            }
        }
    }
}

/// What is said of an authority that is not allowed.
pub open spec fn authority_complaint(s: Seq<char>) -> Seq<char> {
    "Invalid authority '"@ + s + "'. Only '' or 'localhost' allowed."@
}

/// The options with what the authority and the path of a URI say.
pub open spec fn with_location(o: Options, s: Seq<char>) -> Result<Options, Seq<char>> {
    if text::begins_with(s, "//"@) {
        let location = s.skip("//"@.len() as int);
        let authority = text::before(location, '/');
        let path = text::after(location, '/');
        if authority.len() > 0 && authority != "localhost"@ {
            Err(authority_complaint(authority))
        } else {
            Ok(
                Options {
                    authority: if authority.len() == 0 {
                        None
                    } else {
                        Some(authority)
                    },
                    path: if path.len() == 0 {
                        path
                    } else {
                        "/"@ + percent::decoded(path)
                    },
                    ..o
                },
            )
        }
    } else {
        Ok(Options { path: percent::decoded(s), ..o })
    }
}

/// What a URI says of the database to open, or what is said of the URI where
/// it is wrong. A text that does not begin with `file:` is a path.
pub open spec fn options_of(uri: Seq<char>) -> Result<Options, Seq<char>> {
    if !text::begins_with(uri, "file:"@) {
        Ok(only_path(uri))
    } else {
        let without_scheme = uri.skip("file:"@.len() as int);
        let without_fragment = text::before(without_scheme, '#');
        let fragment = text::after(without_scheme, '#');
        let location = text::before(without_fragment, '?');
        let query = text::after(without_fragment, '?');
        let o = Options {
            fragment: if fragment.len() == 0 {
                None
            } else {
                Some(percent::decoded(fragment))
            },
            ..only_path(Seq::empty())
        };
        match with_params(o, text::parts(query, '&')) {
            (_, Some(complaint)) => Err(complaint),
            (p, None) => with_location(p, location),
        }
    }
}

/// The path begins with a drive letter: `C:/`.
pub open spec fn begins_with_drive(path: Seq<char>) -> bool {
    path.len() >= 3 && path[1] == ':' && path[2] == '/'
}

/// Tells whether a path begins with a drive letter.
pub fn is_windows_path(path: &str) -> (res: bool)
    ensures
        res == begins_with_drive(path@),
{
    path.unicode_len() >= 3 && path.get_char(1) == ':' && path.get_char(2) == '/'
}

/// Takes over what one query parameter says.
fn parse_query_param(param: &str, opts: &mut OpenOptions) -> (res: Result<(), LimboError>)
    ensures
        match with_param(old(opts)@, param@) {
            Ok(o) => res is Ok && final(opts)@ == o,
            Err(c) => {
                &&& res matches Err(LimboError::InvalidArgument(m)) && m@ == c
                &&& final(opts)@ == old(opts)@
            },
        },
{
    if let Some((key, value)) = text::split_once(param, '=') {
        let decoded_value = percent::decode_percent(value);
        if text::same_text(key, "mode") {
            match Mode::from_str(value) {
                Ok(mode) => {
                    opts.mode = mode;
                },
                Err(e) => {
                    return Err(e);
                },
            }
        } else if text::same_text(key, "modeof") {
            opts.modeof = Some(decoded_value);
        } else if text::same_text(key, "cache") {
            opts.cache = Some(CacheMode::from(decoded_value.as_str()));
        } else if text::same_text(key, "immutable") {
            opts.immutable = Some(text::same_text(&decoded_value, "1"));
        } else if text::same_text(key, "vfs") {
            opts.vfs = Some(decoded_value);
        }
    }
    Ok(())
}

/// Takes over what the query parameters say, up to the first that is wrong.
pub fn parse_query_params(query: &str, opts: &mut OpenOptions) -> (res: Result<(), LimboError>)
    ensures
        final(opts)@ == with_params(old(opts)@, text::parts(query@, '&')).0,
        match with_params(old(opts)@, text::parts(query@, '&')).1 {
            None => res is Ok,
            Some(c) => res matches Err(LimboError::InvalidArgument(m)) && m@ == c,
        },
{
    let ghost all = text::parts(query@, '&');
    let ghost first = opts@;
    let ghost mut done: Seq<Seq<char>> = Seq::empty();
    let mut rest = query;
    proof {
        assert(done + text::parts(rest@, '&') =~= all);
    }
    loop
        invariant
            all == done + text::parts(rest@, '&'),
            with_params(first, done) == (opts@, None::<Seq<char>>),
            all == text::parts(query@, '&'),
            first == old(opts)@,
        decreases rest@.len(),
    {
        let split = text::split_once(rest, '&');
        let param = match split {
            Some((param, _)) => param,
            None => rest,
        };
        proof {
            text::lemma_parts(rest@, '&');
            assert(text::parts(rest@, '&')[0] == param@);
            assert(done.push(param@).drop_last() =~= done);
            assert(all.take(done.len() as int + 1) =~= done.push(param@));
        }
        match parse_query_param(param, opts) {
            Ok(()) => {},
            Err(e) => {
                proof {
                    lemma_first_complaint(first, all, done.len() as int + 1);
                }
                return Err(e);
            },
        }
        match split {
            Some((_, tail)) => {
                proof {
                    assert(all =~= done.push(param@) + text::parts(tail@, '&'));
                    done = done.push(param@);
                }
                rest = tail;
            },
            None => {
                proof {
                    assert(all =~= done.push(param@));
                }
                return Ok(());
            },
        }
    }
}

/// The first parameter that is wrong decides.
proof fn lemma_first_complaint(o: Options, params: Seq<Seq<char>>, n: int)
    requires
        0 <= n <= params.len(),
        with_params(o, params.take(n)).1 is Some,
    ensures
        with_params(o, params) == with_params(o, params.take(n)),
    decreases params.len() - n,
{
    if n == params.len() {
        assert(params.take(n) =~= params);
    } else {
        assert(params.take(n + 1).drop_last() =~= params.take(n));
        lemma_first_complaint(o, params, n + 1);
    }
}

/// Parses a SQLite URI, handling Windows and Unix paths separately.
pub fn parse_sqlite_uri<'a>(uri: &'a str) -> (res: Result<OpenOptions<'a>, LimboError>)
    ensures
        match options_of(uri@) {
            Ok(o) => res matches Ok(opts) && opts@ == o,
            Err(c) => res matches Err(LimboError::InvalidArgument(m)) && m@ == c,
        },
{
    let mut opts = OpenOptions::default();
    let without_scheme = match text::strip_prefix(uri, "file:") {
        Some(rest) => rest,
        None => {
            opts.path = uri.to_owned();
            return Ok(opts);
        },
    };

    let (without_fragment, fragment) = match text::split_once(without_scheme, '#') {
        Some(halves) => halves,
        None => (without_scheme, ""),
    };
    proof {
        reveal_strlit("");
        assert(""@ =~= Seq::empty());
    }
    if !fragment.is_empty() {
        opts.fragment = Some(percent::decode_percent(fragment));
    }
    let (without_query, query) = match text::split_once(without_fragment, '?') {
        Some(halves) => halves,
        None => (without_fragment, ""),
    };
    match parse_query_params(query, &mut opts) {
        Ok(()) => {},
        Err(e) => {
            return Err(e);
        },
    }

    // Handle authority + path separately
    if let Some(after_slashes) = text::strip_prefix(without_query, "//") {
        let (authority, path) = match text::split_once(after_slashes, '/') {
            Some(halves) => halves,
            None => (after_slashes, ""),
        };

        // SQLite allows only `localhost` or empty authority.
        if !(authority.is_empty() || text::same_text(authority, "localhost")) {
            return Err(
                LimboError::InvalidArgument(
                    "Invalid authority '".to_owned().concat(authority).concat(
                        "'. Only '' or 'localhost' allowed.",
                    ),
                ),
            );
        }
        opts.authority = if authority.is_empty() {
            None
        } else {
            Some(authority)
        };

        if is_windows_path(path) {
            // Ensure `/C:/` format
            opts.path = "/".to_owned().concat(&percent::decode_percent(path));
        } else if !path.is_empty() {
            opts.path = "/".to_owned().concat(&percent::decode_percent(path));
        } else {
            opts.path = String::new();
        }
    } else {
        // no authority, must be a normal absolute or relative path.
        opts.path = percent::decode_percent(without_query);
    }
    Ok(opts)
}

} // verus!
