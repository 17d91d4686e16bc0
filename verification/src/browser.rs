//! Launching a browser: the options a launch takes and the command line
//! they give.

use vstd::prelude::*;
use crate::context::opt_view;
use crate::process::{ProcessBuilder, ProcessBuilderView, ProcessStdio};
use crate::text::{cat, split_words, strs, words_of};

verus! {

#[verifier::external_type_specification]
#[verifier::external_body]
pub struct ExIoError(std::io::Error);

/// An error in operating a browser.
pub enum BrowserError {
    /// An I/O error.
    Io(std::io::Error),
    /// No browser was found.
    BrowserNotFound,
}

/// The kind of browser to launch.
#[derive(Debug, Clone)]
pub enum BrowserType {
    Chromium,
}

/// Where the browser keeps its user data.
pub enum UserDataDir {
    /// A directory made for this launch.
    Generated(String),
    /// A directory given by the user.
    Specified(String),
    /// The browser's default directory.
    Default,
}

/// The model of a user data directory choice.
pub enum UserDataDirView {
    Generated(Seq<char>),
    Specified(Seq<char>),
    Default,
}

impl View for UserDataDir {
    type V = UserDataDirView;

    open spec fn view(&self) -> UserDataDirView {
        match self {
            UserDataDir::Generated(p) => UserDataDirView::Generated(p@),
            UserDataDir::Specified(p) => UserDataDirView::Specified(p@),
            UserDataDir::Default => UserDataDirView::Default,
        }
    }
}

/// The model of a launcher: the options set so far.
pub struct LauncherView {
    pub browser_type: Option<BrowserType>,
    pub user_data_dir: Option<UserDataDirView>,
    pub headless: Option<bool>,
    pub output: Option<bool>,
}

/// Options for launching a browser.
pub struct Launcher {
    browser_type: Option<BrowserType>,
    user_data_dir: Option<UserDataDir>,
    headless: Option<bool>,
    output: Option<bool>,
}

impl View for Launcher {
    type V = LauncherView;

    closed spec fn view(&self) -> LauncherView {
        LauncherView {
            browser_type: self.browser_type,
            user_data_dir: match self.user_data_dir {
                Some(d) => Some(d@),
                None => None,
            },
            headless: self.headless,
            output: self.output,
        }
    }
}

impl Default for Launcher {
    fn default() -> (r: Self)
        ensures
            r@ == (LauncherView { browser_type: None, user_data_dir: None, headless: None, output: None }),
    {
        Launcher { browser_type: None, user_data_dir: None, headless: None, output: None }
    }
}

/// The flags every launch passes, after the ones the options decide.
pub const DEFAULT_ARGS: &'static str = "
--disable-background-networking
--enable-features=NetworkService,NetworkServiceInProcess
--disable-background-timer-throttling
--disable-backgrounding-occluded-windows
--disable-breakpad
--disable-client-side-phishing-detection
--disable-component-extensions-with-background-pages
--disable-default-apps
--disable-dev-shm-usage
--disable-extensions
--disable-features=Translate
--disable-hang-monitor
--disable-ipc-flooding-protection
--disable-popup-blocking
--disable-prompt-on-repost
--disable-renderer-backgrounding
--disable-sync
--force-color-profile=srgb
--metrics-recording-only
--no-first-run
--enable-automation
--password-store=basic
--use-mock-keychain
";

/// The flag that points the browser at a user data directory.
pub open spec fn user_data_dir_arg(p: Seq<char>) -> Seq<Seq<char>> {
    seq!["--user-data-dir="@ + p]
}

/// The user data directory a launch uses: the one chosen, else the generated
/// one, if any.
pub open spec fn effective_dir(l: LauncherView, generated: Option<Seq<char>>) -> Option<UserDataDirView> {
    match l.user_data_dir {
        Some(d) => Some(d),
        None => match generated {
            Some(g) => Some(UserDataDirView::Generated(g)),
            None => None,
        },
    }
}

/// The arguments of a launch: the pipe transport, headless mode unless
/// disabled, the user data directory unless the default is asked for, and
/// the fixed flags.
pub open spec fn launch_args(l: LauncherView, generated: Option<Seq<char>>) -> Seq<Seq<char>> {
    seq!["--remote-debugging-pipe"@] + (if l.headless != Some(false) {
        seq!["--headless"@, "--disable-gpu"@]
    } else {
        seq![]
    }) + match effective_dir(l, generated) {
        Some(UserDataDirView::Generated(p)) => user_data_dir_arg(p),
        Some(UserDataDirView::Specified(p)) => user_data_dir_arg(p),
        _ => seq![],
    } + words_of(DEFAULT_ARGS@)
}

/// The process a launch starts: `bin` with the launch arguments, standard
/// input closed, output shown only when asked for.
pub open spec fn launch_process(l: LauncherView, bin: Seq<char>, generated: Option<Seq<char>>) -> ProcessBuilderView {
    let shown = if l.output == Some(true) {
        ProcessStdio::Inherit
    } else {
        ProcessStdio::Null
    };
    ProcessBuilderView {
        program: bin,
        stdin: ProcessStdio::Null,
        stdout: shown,
        stderr: shown,
        args: launch_args(l, generated),
    }
}

/// The view of an optional string.
pub open spec fn opt_str(s: Option<&str>) -> Option<Seq<char>> {
    match s {
        Some(v) => Some(v@),
        None => None,
    }
}

impl Launcher {
    /// Chooses the kind of browser (Chromium unless chosen).
    pub fn browser_type(&mut self, value: BrowserType) -> (r: &mut Self)
        ensures
            (*r)@ == (LauncherView { browser_type: Some(value), ..old(self)@ }),
            *final(self) == *final(r),
    {
        self.browser_type = Some(value);
        self
    }

    /// Chooses the user data directory (a generated one unless chosen).
    pub fn user_data_dir(&mut self, path: &str) -> (r: &mut Self)
        ensures
            (*r)@ == (LauncherView {
                user_data_dir: Some(UserDataDirView::Specified(path@)),
                ..old(self)@
            }),
            *final(self) == *final(r),
    {
        self.user_data_dir = Some(UserDataDir::Specified(String::from_str(path)));
        self
    }

    /// Chooses the browser's default user data directory.
    pub fn user_data_dir_default(&mut self) -> (r: &mut Self)
        ensures
            (*r)@ == (LauncherView { user_data_dir: Some(UserDataDirView::Default), ..old(self)@ }),
            *final(self) == *final(r),
    {
        self.user_data_dir = Some(UserDataDir::Default);
        self
    }

    /// Chooses headless mode or not (headless unless chosen).
    pub fn headless(&mut self, value: bool) -> (r: &mut Self)
        ensures
            (*r)@ == (LauncherView { headless: Some(value), ..old(self)@ }),
            *final(self) == *final(r),
    {
        self.headless = Some(value);
        self
    }

    /// Chooses whether the browser's output is shown (not unless chosen).
    pub fn output(&mut self, value: bool) -> (r: &mut Self)
        ensures
            (*r)@ == (LauncherView { output: Some(value), ..old(self)@ }),
            *final(self) == *final(r),
    {
        self.output = Some(value);
        self
    }

    /// Whether a launch needs a user data directory made for it.
    pub fn needs_generated_dir(&self) -> (r: bool)
        ensures
            r == (self@.user_data_dir is None),
    {
        self.user_data_dir.is_none()
    }

    /// The kind of browser a launch starts: the one chosen, else Chromium
    /// (the only kind there is).
    pub fn launched_type(&self) -> (r: BrowserType)
        ensures
            r == BrowserType::Chromium,
    {
        match &self.browser_type {
            Some(t) => t.clone(),
            None => BrowserType::Chromium,
        }
    }

    /// The process a launch starts, given the browser binary found (if any)
    /// and the user data directory made for it (if any).
    pub fn launch_command(&self, bin: Option<&str>, generated: Option<&str>) -> (r: Result<
        ProcessBuilder,
        BrowserError,
    >)
        ensures
            bin is None ==> r matches Err(BrowserError::BrowserNotFound),
            bin matches Some(b) ==> r matches Ok(p) && p@ == launch_process(self@, b@, opt_str(generated)),
    {
        let b = match bin {
            Some(b) => b,
            None => {
                return Err(BrowserError::BrowserNotFound);
            },
        };
        let mut command = ProcessBuilder::new(b);
        command.stdin(ProcessStdio::null());
        let shown = match self.output {
            Some(v) => v,
            None => false,
        };
        if shown {
            command.stdout(ProcessStdio::inherit());
            command.stderr(ProcessStdio::inherit());
        } else {
            command.stdout(ProcessStdio::null());
            command.stderr(ProcessStdio::null());
        }
        let ghost before = command@.args;
        command.arg("--remote-debugging-pipe");
        let headless = match self.headless {
            Some(v) => v,
            None => true,
        };
        let ghost a1 = command@.args;
        if headless {
            command.arg("--headless");
            command.arg("--disable-gpu");
        }
        let ghost a2 = command@.args;
        match &self.user_data_dir {
            Some(UserDataDir::Default) => {},
            Some(UserDataDir::Generated(p)) => {
                let a = cat("--user-data-dir=", p.as_str());
                command.arg(a.as_str());
            },
            Some(UserDataDir::Specified(p)) => {
                let a = cat("--user-data-dir=", p.as_str());
                command.arg(a.as_str());
            },
            None => match generated {
                Some(g) => {
                    let a = cat("--user-data-dir=", g);
                    command.arg(a.as_str());
                },
                None => {},
            },
        }
        let ghost a3 = command@.args;
        let flags = split_words(DEFAULT_ARGS);
        let mut i: usize = 0;
        while i < flags.len()
            invariant
                i <= flags@.len(),
                strs(flags@) == words_of(DEFAULT_ARGS@),
                command@.program == b@,
                command@.stdin == ProcessStdio::Null,
                command@.stdout == launch_process(self@, b@, opt_str(generated)).stdout,
                command@.stderr == launch_process(self@, b@, opt_str(generated)).stderr,
                command@.args == a3 + strs(flags@).take(i as int),
            decreases flags@.len() - i,
        {
            command.arg(flags[i].as_str());
            assert(strs(flags@).take(i + 1) =~= strs(flags@).take(i as int).push(flags@[i as int]@));
            i = i + 1;
        }
        assert(strs(flags@).take(i as int) =~= strs(flags@));
        assert(before =~= Seq::<Seq<char>>::empty());
        assert(command@.args =~= launch_args(self@, opt_str(generated)));
        Ok(command)
    }
}


/// With no option chosen, a launch starts headless Chromium with its output
/// hidden and a generated user data directory.
pub proof fn law_launch_defaults(bin: Seq<char>, generated: Seq<char>)
    ensures
        ({
            let p = launch_process(
                LauncherView { browser_type: None, user_data_dir: None, headless: None, output: None },
                bin,
                Some(generated),
            );
            &&& p.program == bin
            &&& p.stdin == ProcessStdio::Null
            &&& p.stdout == ProcessStdio::Null
            &&& p.stderr == ProcessStdio::Null
            &&& p.args == seq![
                "--remote-debugging-pipe"@,
                "--headless"@,
                "--disable-gpu"@,
                "--user-data-dir="@ + generated,
            ] + words_of(DEFAULT_ARGS@)
        }),
{
    let l = LauncherView { browser_type: None, user_data_dir: None, headless: None, output: None };
    assert(seq!["--remote-debugging-pipe"@] + seq!["--headless"@, "--disable-gpu"@] + user_data_dir_arg(generated)
        =~= seq!["--remote-debugging-pipe"@, "--headless"@, "--disable-gpu"@, "--user-data-dir="@ + generated]);
}

/// Asking for the browser's default user data directory passes no
/// `--user-data-dir` flag, whatever directory was generated.
pub proof fn law_default_dir_passes_no_flag(l: LauncherView, bin: Seq<char>, generated: Option<Seq<char>>)
    requires
        l.user_data_dir == Some(UserDataDirView::Default),
    ensures
        launch_process(l, bin, generated).args == seq!["--remote-debugging-pipe"@] + (if l.headless != Some(false) {
            seq!["--headless"@, "--disable-gpu"@]
        } else {
            seq![]
        }) + words_of(DEFAULT_ARGS@),
{
    let h = if l.headless != Some(false) {
        seq!["--headless"@, "--disable-gpu"@]
    } else {
        seq![]
    };
    assert(seq!["--remote-debugging-pipe"@] + h + Seq::<Seq<char>>::empty() =~= seq!["--remote-debugging-pipe"@] + h);
}

/// Launching twice with the same options and the same browser binary starts
/// the same process, whatever directory each launch generated, as long as
/// the user data directory was chosen (a generated one is passed to the
/// browser, so it differs from launch to launch).
pub proof fn law_relaunch_same_command(
    l: LauncherView,
    bin: Seq<char>,
    g1: Option<Seq<char>>,
    g2: Option<Seq<char>>,
)
    requires
        l.user_data_dir is Some,
    ensures
        launch_process(l, bin, g1) == launch_process(l, bin, g2),
{
}

/// The browser to start: the one the environment names, if it names one
/// (found or not), else the one found in the usual places.
pub open spec fn chosen_browser(from_env: Option<Option<Seq<char>>>, found: Option<Seq<char>>) -> Option<Seq<char>> {
    match from_env {
        Some(lookup) => lookup,
        None => found,
    }
}

/// The view of a lookup that the environment may have asked for.
pub open spec fn env_lookup_view(from_env: Option<Option<String>>) -> Option<Option<Seq<char>>> {
    match from_env {
        Some(l) => Some(opt_view(l)),
        None => None,
    }
}

/// Chooses the browser binary: `from_env` is the lookup of the binary the
/// environment names (if it names one), `found` the one found in the usual
/// places.
pub fn choose_browser(from_env: Option<Option<String>>, found: Option<String>) -> (r: Option<String>)
    ensures
        opt_view(r) == chosen_browser(env_lookup_view(from_env), opt_view(found)),
{
    match from_env {
        Some(lookup) => lookup,
        None => found,
    }
}

/// What precedes the address in the line that a browser started with a
/// remote-debugging port prints on its error output.
pub const DEVTOOLS_BANNER: &'static str = "DevTools listening on ";

/// Whether `p` begins `s`.
pub open spec fn starts_with(s: Seq<char>, p: Seq<char>) -> bool {
    p.len() <= s.len() && s.subrange(0, p.len() as int) == p
}

/// The rest of `s` after `p`, where `s` begins with `p`.
pub fn strip_prefix(s: &str, p: &str) -> (r: Option<String>)
    ensures
        match r {
            Some(rest) => starts_with(s@, p@) && rest@ == s@.skip(p@.len() as int),
            None => !starts_with(s@, p@),
        },
{
    let n = p.unicode_len();
    let m = s.unicode_len();
    if n > m {
        return None;
    }
    let mut i: usize = 0;
    while i < n
        invariant
            n == p@.len(),
            m == s@.len(),
            n <= m,
            i <= n,
            forall|j: int| 0 <= j < i ==> s@[j] == p@[j],
        decreases n - i,
    {
        if s.get_char(i) != p.get_char(i) {
            assert(s@.subrange(0, n as int)[i as int] != p@[i as int]);
            return None;
        }
        i = i + 1;
    }
    assert(s@.subrange(0, n as int) =~= p@);
    let rest = s.substring_char(n, m);
    assert(rest@ =~= s@.skip(n as int));
    Some(String::from_str(rest))
}

/// The address that a line of the browser's error output announces: what
/// follows the banner, where the line begins with it.
pub fn devtools_address(line: &str) -> (r: Option<String>)
    ensures
        match r {
            Some(a) => starts_with(line@, DEVTOOLS_BANNER@) && a@ == line@.skip(
                DEVTOOLS_BANNER@.len() as int,
            ),
            None => !starts_with(line@, DEVTOOLS_BANNER@),
        },
{
    strip_prefix(line, DEVTOOLS_BANNER)
}

/// Name for the serialization of the URL that the url crate's `Url::parse`
/// makes of a text (`None` where the text is no absolute URL).
pub uninterp spec fn url_parse_of(s: Seq<char>) -> Option<Seq<char>>;

/// Name for the serialization of URL `u` (parsed by `Url::parse`) after the
/// url crate's `Url::set_scheme` with `scheme` (`None` where `u` does not
/// parse or the scheme cannot be set).
pub uninterp spec fn url_with_scheme_of(u: Seq<char>, scheme: Seq<char>) -> Option<Seq<char>>;

/// Name for the serialization of URL `u` (parsed by `Url::parse`) after the
/// url crate's `Url::set_path` with `path` (`None` where `u` does not parse).
pub uninterp spec fn url_with_path_of(u: Seq<char>, path: Seq<char>) -> Option<Seq<char>>;

/// Calls the url crate's `Url::parse` and gives the URL's serialization.
/// The contract claims only that the result is a function of the text,
/// `None` exactly where parsing fails; the URL grammar is not restated.
#[verifier::external_body]
fn url_parse(s: &str) -> (r: Option<String>)
    ensures
        opt_view(r) == url_parse_of(s@),
{
    url::Url::parse(s).ok().map(String::from)
}

/// Parses `u` with the url crate's `Url::parse`, calls `Url::set_scheme`
/// with `scheme`, and gives the serialization. The contract claims only that
/// the result is a function of the two texts, `None` where `u` does not parse
/// or `set_scheme` refuses the scheme. The URL must fit the crate's `u32`
/// offsets (its source unwraps that conversion and shifts offsets by the new
/// scheme's length), which `scheme_fits` guarantees.
#[verifier::external_body]
fn url_with_scheme(u: &str, scheme: &str) -> (r: Option<String>)
    requires
        scheme_fits(u@, scheme@),
    ensures
        opt_view(r) == url_with_scheme_of(u@, scheme@),
{
    let mut url = url::Url::parse(u).ok()?;
    url.set_scheme(scheme).ok()?;
    Some(String::from(url))
}

/// Whether setting `scheme` on URL `u` keeps its offsets within the url
/// crate's `u32` offsets (at most four bytes a character).
pub open spec fn scheme_fits(u: Seq<char>, scheme: Seq<char>) -> bool {
    4 * u.len() + 4 * scheme.len() <= u32::MAX
}

/// Whether setting `path` on URL `u` keeps the serialization within the url
/// crate's `u32` offsets: at most four bytes a character, and a path
/// character percent-encoded to at most three times its bytes.
pub open spec fn path_fits(u: Seq<char>, path: Seq<char>) -> bool {
    4 * u.len() + 12 * path.len() <= u32::MAX
}

/// Parses `u` with the url crate's `Url::parse`, calls `Url::set_path` with
/// `path`, and gives the serialization. The contract claims only that the
/// result is a function of the two texts, `None` where `u` does not parse;
/// how the path is normalised and percent-encoded is not restated. The
/// result must fit the crate's `u32` offsets (its source unwraps that
/// conversion), which `path_fits` guarantees.
#[verifier::external_body]
fn url_with_path(u: &str, path: &str) -> (r: Option<String>)
    requires
        path_fits(u@, path@),
    ensures
        opt_view(r) == url_with_path_of(u@, path@),
{
    let mut url = url::Url::parse(u).ok()?;
    url.set_path(path);
    Some(String::from(url))
}

/// The address of the protocol description served by a browser that
/// announced address `addr`: the address parsed as a URL, with scheme
/// `http` and path `/json/protocol`; `None` where the address does not
/// parse, the scheme cannot be set, or the URL is too long for the url
/// crate to set the scheme or the path.
pub open spec fn protocol_url_of(addr: Seq<char>) -> Option<Seq<char>> {
    match url_parse_of(addr) {
        None => None,
        Some(u) => if !scheme_fits(u, "http"@) {
            None
        } else {
            match url_with_scheme_of(u, "http"@) {
                None => None,
                Some(v) => if path_fits(v, "/json/protocol"@) {
                    url_with_path_of(v, "/json/protocol"@)
                } else {
                    None
                },
            }
        },
    }
}

/// The address of the protocol description, from a line of the browser's
/// error output: `None` where the line does not announce an address, else
/// what `protocol_url_of` gives for the address it announces.
pub fn protocol_url(line: &str) -> (r: Option<Option<String>>)
    ensures
        r is None <==> !starts_with(line@, DEVTOOLS_BANNER@),
        r matches Some(u) ==> opt_view(u) == protocol_url_of(line@.skip(DEVTOOLS_BANNER@.len() as int)),
{
    let addr = match devtools_address(line) {
        Some(a) => a,
        None => {
            return None;
        },
    };
    let u = match url_parse(addr.as_str()) {
        Some(u) => u,
        None => {
            return Some(None);
        },
    };
    proof {
        reveal_strlit("http");
        reveal_strlit("/json/protocol");
    }
    let k = u.unicode_len() as u128;
    let h = "http".unicode_len() as u128;
    if 4 * k + 4 * h > 0xffff_ffff {
        return Some(None);
    }
    let v = match url_with_scheme(u.as_str(), "http") {
        Some(v) => v,
        None => {
            return Some(None);
        },
    };
    let n = v.unicode_len() as u128;
    let m = "/json/protocol".unicode_len() as u128;
    if 4 * n + 12 * m <= 0xffff_ffff {
        Some(url_with_path(v.as_str(), "/json/protocol"))
    } else {
        Some(None)
    }
}

} // verus!
