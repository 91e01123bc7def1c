//! The login window: where its theme is found, how its keys act, and what a login starts.
use vstd::prelude::*;
use crate::standalone::constants::{
    KEYVAL_ENTER, THEME_BACKGROUND_EXT, THEME_BACKGROUND_NAME, THEME_BASE_PATH,
    THEME_MAIN_FILE_EXT, THEME_MAIN_FILE_NAME, THEME_NAME_DEFAULT,
};
use crate::daemon::server::opt_view;
use crate::support::paths::{path_push, path_pushed};

verus! {

/// The directory of the theme named `theme_name`: the name pushed onto the theme base path.
pub open spec fn theme_dir(theme_name: Seq<char>) -> Seq<char> {
    path_pushed(path_pushed(Seq::empty(), THEME_BASE_PATH@), theme_name)
}

/// `Path::is_dir`: whether a directory exists at `path`. The answer depends on the file
/// system, so nothing is stated of it.
#[verifier::external_body]
fn path_is_dir(path: &str) -> (b: bool) {
    std::path::Path::new(path).is_dir()
}

/// Where the theme `theme_name` lives. A missing theme falls back to the default one; when
/// the default theme is missing too, there is none (`None`).
///
/// Which directories exist is up to the file system; the result is what
/// [`resolve_theme_path`] gives for the answers it got.
pub fn get_theme_path(theme_name: &str, default: bool) -> (p: Option<String>)
    ensures
        exists|theme_is_dir: bool, default_is_dir: bool|
            #[trigger] spec_theme_path(theme_name@, default, theme_is_dir, default_is_dir)
                == opt_view(p),
        p matches Some(path) ==> {
            ||| path@ == theme_dir(theme_name@)
            ||| !default && path@ == theme_dir(THEME_NAME_DEFAULT@)
        },
{
    let theme_path = theme_path_of(theme_name);
    let found = path_is_dir(theme_path.as_str());
    if found || default {
        let p = resolve_theme_path(theme_name, default, found, false);
        assert(spec_theme_path(theme_name@, default, found, false) == opt_view(p));
        return p;
    }
    let default_path = theme_path_of(THEME_NAME_DEFAULT);
    let default_found = path_is_dir(default_path.as_str());
    let p = resolve_theme_path(theme_name, default, found, default_found);
    assert(spec_theme_path(theme_name@, default, found, default_found) == opt_view(p));
    p
}

/// The theme directory that a lookup of `theme_name` settles on, given whether its directory
/// exists and whether the default theme's does.
pub open spec fn spec_theme_path(
    theme_name: Seq<char>,
    default: bool,
    theme_is_dir: bool,
    default_is_dir: bool,
) -> Option<Seq<char>> {
    if theme_is_dir {
        Some(theme_dir(theme_name))
    } else if !default && default_is_dir {
        Some(theme_dir(THEME_NAME_DEFAULT@))
    } else {
        None
    }
}

/// A theme lookup keeps the requested theme whenever its directory exists; it settles on
/// the default theme only when the requested directory is missing, the lookup may fall back,
/// and the default directory exists; it finds nothing only when neither is available.
pub proof fn lemma_theme_lookup_prefers_requested(
    theme_name: Seq<char>,
    default: bool,
    theme_is_dir: bool,
    default_is_dir: bool,
)
    ensures
        theme_is_dir ==> spec_theme_path(theme_name, default, theme_is_dir, default_is_dir)
            == Some(theme_dir(theme_name)),
        spec_theme_path(theme_name, default, theme_is_dir, default_is_dir) == Some(
            theme_dir(THEME_NAME_DEFAULT@),
        ) && theme_dir(theme_name) != theme_dir(THEME_NAME_DEFAULT@) ==> !theme_is_dir
            && !default && default_is_dir,
        spec_theme_path(theme_name, default, theme_is_dir, default_is_dir) is None <==> (
        !theme_is_dir && (default || !default_is_dir)),
        spec_theme_path(theme_name, default, theme_is_dir, default_is_dir) matches Some(p) ==> (p
            == theme_dir(theme_name) || p == theme_dir(THEME_NAME_DEFAULT@)),
{
}

/// Settles a theme lookup from the answers about the directories: the theme's own directory
/// if it exists, otherwise (unless this already is the default lookup) the default theme's
/// directory if that exists, otherwise none.
pub fn resolve_theme_path(
    theme_name: &str,
    default: bool,
    theme_is_dir: bool,
    default_is_dir: bool,
) -> (p: Option<String>)
    ensures
        opt_view(p) == spec_theme_path(theme_name@, default, theme_is_dir, default_is_dir),
        theme_is_dir ==> opt_view(p) == Some(theme_dir(theme_name@)),
        !theme_is_dir && !default && default_is_dir ==> opt_view(p) == Some(
            theme_dir(THEME_NAME_DEFAULT@),
        ),
        p is None <==> !theme_is_dir && (default || !default_is_dir),
{
    match theme_lookup_step(theme_path_of(theme_name), theme_is_dir, default) {
        ThemeLookup::Found(path) => Some(path),
        ThemeLookup::TryDefault => {
            match theme_lookup_step(theme_path_of(THEME_NAME_DEFAULT), default_is_dir, true) {
                ThemeLookup::Found(path) => Some(path),
                _ => None,
            }
        },
        ThemeLookup::Missing => None,
    }
}

/// The next step of looking up a theme whose directory would be `theme_path`.
pub enum ThemeLookup {
    /// The directory exists.
    Found(String),
    /// Look for the default theme instead.
    TryDefault,
    /// Not even the default theme exists.
    Missing,
}

/// Decides the lookup of a theme from whether its directory exists: found when it does,
/// otherwise the default theme, unless this already was the default one.
pub fn theme_lookup_step(theme_path: String, is_dir: bool, default: bool) -> (s: ThemeLookup)
    ensures
        is_dir ==> (s matches ThemeLookup::Found(p) && p@ == theme_path@),
        !is_dir && !default ==> s is TryDefault,
        !is_dir && default ==> s is Missing,
{
    if is_dir {
        ThemeLookup::Found(theme_path)
    } else if !default {
        ThemeLookup::TryDefault
    } else {
        ThemeLookup::Missing
    }
}

/// The directory of the theme `theme_name`.
pub fn theme_path_of(theme_name: &str) -> (p: String)
    ensures
        p@ == theme_dir(theme_name@),
{
    let mut theme_path = String::new();
    path_push(&mut theme_path, THEME_BASE_PATH);
    path_push(&mut theme_path, theme_name);
    theme_path
}

/// The path of a file named `name` with extension `ext` inside `dir`.
pub open spec fn file_in(dir: Seq<char>, name: Seq<char>, ext: Seq<char>) -> Seq<char> {
    path_pushed(dir, name) + seq!['.'] + ext
}

/// The theme description file of the theme in `theme_path`: `rdm.theme` inside it.
pub fn theme_file(theme_path: &str) -> (f: String)
    ensures
        f@ == file_in(theme_path@, THEME_MAIN_FILE_NAME@, THEME_MAIN_FILE_EXT@),
{
    let mut f = theme_path.to_owned();
    path_push(&mut f, THEME_MAIN_FILE_NAME);
    f.append(".");
    proof {
        reveal_strlit(".");
    }
    f.append(THEME_MAIN_FILE_EXT);
    f
}

/// The background image of the theme in `theme_path`: `background.png` inside it.
pub fn background_file(theme_path: &str) -> (f: String)
    ensures
        f@ == file_in(theme_path@, THEME_BACKGROUND_NAME@, THEME_BACKGROUND_EXT@),
{
    let mut f = theme_path.to_owned();
    path_push(&mut f, THEME_BACKGROUND_NAME);
    f.append(".");
    proof {
        reveal_strlit(".");
    }
    f.append(THEME_BACKGROUND_EXT);
    f
}

/// Whether a key released in the user entry moves the focus to the secret entry: it does
/// for Enter.
pub fn user_key_moves_focus(keyval: u32) -> (b: bool)
    ensures
        b == (keyval == KEYVAL_ENTER),
{
    keyval == KEYVAL_ENTER
}

/// Whether a key released in the secret entry submits the login: it does for Enter.
pub fn secret_key_submits(keyval: u32) -> (b: bool)
    ensures
        b == (keyval == KEYVAL_ENTER),
{
    keyval == KEYVAL_ENTER
}

/// What follows the authentication of submitted credentials.
#[derive(Debug, PartialEq, Eq, Structural)]
pub enum AuthStep {
    /// Open the user's session.
    OpenSession,
    /// Report the failure and clear the secret entry; no session is opened.
    ClearSecret,
}

/// Decides what follows authentication: a session is opened only for credentials that
/// authenticated.
pub fn after_authentication(authenticated: bool) -> (s: AuthStep)
    ensures
        s == (if authenticated {
            AuthStep::OpenSession
        } else {
            AuthStep::ClearSecret
        }),
{
    if authenticated {
        AuthStep::OpenSession
    } else {
        AuthStep::ClearSecret
    }
}

/// What follows a submitted login.
#[derive(Debug, PartialEq, Eq, Structural)]
pub enum LoginOutcome {
    /// Start the user's session and leave the login window.
    StartSession,
    /// Report the failure and clear the secret entry.
    ClearSecret,
}

/// Decides the outcome of a login from the results of authenticating and of opening the
/// session: both must succeed.
pub fn login_outcome(authenticated: bool, session_opened: bool) -> (o: LoginOutcome)
    ensures
        o == (if authenticated && session_opened {
            LoginOutcome::StartSession
        } else {
            LoginOutcome::ClearSecret
        }),
{
    if authenticated && session_opened {
        LoginOutcome::StartSession
    } else {
        LoginOutcome::ClearSecret
    }
}

/// The command that the user's login shell runs to start the session.
pub fn xinit_command(shell: &str) -> (cmd: String)
    ensures
        cmd@ == "exec "@ + shell@ + " --login .xinitrc"@,
{
    let mut cmd = "exec ".to_owned();
    cmd.append(shell);
    cmd.append(" --login .xinitrc");
    cmd
}

} // verus!
