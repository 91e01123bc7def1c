//! The X server that the daemon runs: its authorization cookie and file, the commands that
//! start it, and the decisions of starting and stopping it.
//!
//! The process itself is run by the caller, who performs each plan returned here.
use vstd::prelude::*;
use crate::daemon::constants::{
    DEFAULT_RUN_DIR, TESTING, X_ARG_DISPLAY_FD, X_DEFAULT_ARGS, X_DEFAULT_VT,
};
use crate::support::entropy::{
    is_random_uuid, new_v4_bytes, uuid_hyphenated, uuid_hyphenated_chars, uuid_simple,
    uuid_simple_chars,
};
use crate::support::paths::{path_push, path_pushed};
use crate::support::text::{
    decimal, decimal_value, lemma_decimal_value, hex_bytes, i32_to_string, is_lower_hex, lemma_hex_bytes, str_trim_end,
    trimmed_end,
};

verus! {

/// The view of an optional string.
pub open spec fn opt_view(o: Option<String>) -> Option<Seq<char>> {
    match o {
        Some(s) => Some(s@),
        None => None,
    }
}

/// The views of a list of strings.
pub open spec fn strings_view(v: Seq<String>) -> Seq<Seq<char>> {
    v.map_values(|s: String| s@)
}

/// An X server with its authorization cookie and file.
pub struct Xserver {
    auth_cookie: String,
    auth_file: Option<String>,
    running: bool,
    display: Option<String>,
}

/// What starting the server asks of the caller.
#[derive(Debug, PartialEq, Eq, Structural)]
pub enum StartPlan {
    /// Nothing: the server runs already, or servers are not started at all.
    Skip,
    /// Write the cookie with `xauth` (see [`Xserver::xauth_args`] and
    /// [`Xserver::xauth_input`]), then launch X with [`x_server_args`] and report its display
    /// with [`Xserver::x_started`].
    Launch,
}

/// What stopping the server asks of the caller.
#[derive(Debug)]
pub struct StopPlan {
    /// Kill the X process and wait for it.
    pub kill_x: bool,
    /// Delete this authorization file.
    pub remove_auth_file: Option<String>,
}

impl Xserver {
    /// The authorization cookie.
    pub closed spec fn cookie(&self) -> Seq<char> {
        self.auth_cookie@
    }

    /// The authorization file, while there is one.
    pub closed spec fn auth_file_view(&self) -> Option<Seq<char>> {
        opt_view(self.auth_file)
    }

    /// Whether an X process has been started and not stopped.
    pub closed spec fn is_running(&self) -> bool {
        self.running
    }

    /// The display that the X process reported.
    pub closed spec fn display_view(&self) -> Option<Seq<char>> {
        opt_view(self.display)
    }

    /// Whether the server can be asked to start: X is not started without an authorization
    /// file.
    pub open spec fn can_start(&self) -> bool {
        TESTING || self.is_running() || self.auth_file_view() is Some
    }

    /// The state that stopping leads from `before` to `after`, with the plan it hands out.
    pub open spec fn stop_transition(before: Xserver, after: Xserver, plan: StopPlan) -> bool {
        &&& plan.kill_x == before.is_running()
        &&& opt_view(plan.remove_auth_file) == before.auth_file_view()
        &&& !after.is_running()
        &&& after.auth_file_view() is None
        &&& after.cookie() == before.cookie()
        &&& after.display_view() == before.display_view()
    }

    /// A stopped server with a fresh cookie (a random UUID in lower-case hex) and a fresh
    /// authorization file name in the run directory. The caller creates the file.
    pub fn new() -> (x: Xserver)
        ensures
            is_uuid_cookie(x.cookie()),
            x.auth_file_view() matches Some(f) && is_auth_file_name(f),
            !x.is_running(),
            x.display_view() is None,
    {
        Xserver::with_cookie(generate_cookie())
    }

    /// A stopped server with the given cookie and a fresh authorization file name in the run
    /// directory. The caller creates the file.
    pub fn with_cookie(auth_cookie: String) -> (x: Xserver)
        ensures
            x.cookie() == auth_cookie@,
            x.auth_file_view() matches Some(f) && is_auth_file_name(f),
            !x.is_running(),
            x.display_view() is None,
    {
        let auth_file = new_auth_file_path();
        Xserver { auth_cookie, auth_file: Some(auth_file), running: false, display: None }
    }

    /// The authorization file, while there is one.
    pub fn auth_file(&self) -> (f: Option<String>)
        ensures
            opt_view(f) == self.auth_file_view(),
    {
        match &self.auth_file {
            Some(f) => Some(f.clone()),
            None => None,
        }
    }

    /// Decides whether X has to be launched; a running server is left alone.
    pub fn start(&mut self) -> (plan: StartPlan)
        requires
            old(self).can_start(),
        ensures
            final(self).cookie() == old(self).cookie(),
            final(self).auth_file_view() == old(self).auth_file_view(),
            final(self).is_running() == old(self).is_running(),
            final(self).display_view() == old(self).display_view(),
            plan == (if TESTING || old(self).is_running() {
                StartPlan::Skip
            } else {
                StartPlan::Launch
            }),
    {
        if TESTING {
            return StartPlan::Skip;
        }
        if self.running {
            return StartPlan::Skip;
        }
        StartPlan::Launch
    }

    /// The arguments of the `xauth` call that stores the cookie in the authorization file.
    pub fn xauth_args(&self) -> (args: Vec<String>)
        requires
            self.auth_file_view() is Some,
        ensures
            strings_view(args@) == seq!["-f"@, self.auth_file_view()->0, "-q"@],
    {
        let file = match &self.auth_file {
            Some(f) => f,
            None => {
                assert(false);
                return Vec::new();
            },
        };
        let mut args: Vec<String> = Vec::new();
        args.push("-f".to_owned());
        args.push(file.clone());
        args.push("-q".to_owned());
        assert(strings_view(args@) =~= seq!["-f"@, self.auth_file_view()->0, "-q"@]);
        args
    }

    /// The commands fed to `xauth`: forget display `:0`, add the cookie for it, and exit.
    pub fn xauth_input(&self) -> (input: String)
        ensures
            input@ == "remove :0\n"@ + "add :0 . "@ + self.cookie() + "\n"@ + "exit\n"@,
    {
        let mut input = "remove :0\n".to_owned();
        input.append("add :0 . ");
        input.append(self.auth_cookie.as_str());
        input.append("\n");
        input.append("exit\n");
        input
    }

    /// Records that X was launched and reported `x_output` on its display pipe; gives back the
    /// display name to export as `DISPLAY`.
    pub fn x_started(&mut self, x_output: &str) -> (display: String)
        ensures
            display@ == display_name(x_output@),
            final(self).is_running(),
            final(self).display_view() == Some(display@),
            final(self).cookie() == old(self).cookie(),
            final(self).auth_file_view() == old(self).auth_file_view(),
    {
        let display = display_from_x_output(x_output);
        self.running = true;
        self.display = Some(display.clone());
        display
    }

    /// Stops the server: the X process is to be killed if it runs and the authorization file
    /// deleted if there is one; afterwards neither is left.
    pub fn stop(&mut self) -> (plan: StopPlan)
        ensures
            Self::stop_transition(*old(self), *final(self), plan),
    {
        let kill_x = self.running;
        self.running = false;
        let remove_auth_file = self.auth_file.take();
        StopPlan { kill_x, remove_auth_file }
    }
}

/// The display name that X reports on its pipe, after a `:`.
pub open spec fn display_name(x_output: Seq<char>) -> Seq<char> {
    seq![':'] + trimmed_end(x_output)
}

/// The display name from what X wrote on its display pipe: `:` and the text without
/// trailing whitespace.
pub fn display_from_x_output(x_output: &str) -> (display: String)
    ensures
        display@ == display_name(x_output@),
{
    let mut display = ":".to_owned();
    proof {
        reveal_strlit(":");
    }
    display.append(str_trim_end(x_output));
    display
}

/// The arguments with which X is launched, writing its display number to `display_fd`.
pub open spec fn x_server_args_view(display_fd: i32) -> Seq<Seq<char>> {
    X_DEFAULT_ARGS@.map_values(|a: &str| a@) + seq![X_ARG_DISPLAY_FD@, decimal(display_fd as int), X_DEFAULT_VT@]
}

/// Builds the X command line for a server that reports its display on `display_fd`.
pub fn x_server_args(display_fd: i32) -> (args: Vec<String>)
    ensures
        strings_view(args@) == x_server_args_view(display_fd),
        args@.len() == 8,
        args@[5]@ == X_ARG_DISPLAY_FD@,
        decimal_value(args@[6]@) == display_fd,
        args@[7]@ == X_DEFAULT_VT@,
{
    proof {
        lemma_display_fd_argument(display_fd);
    }
    let mut args: Vec<String> = Vec::new();
    let mut i: usize = 0;
    while i < 5
        invariant
            i <= 5,
            args@.len() == i,
            strings_view(args@) == X_DEFAULT_ARGS@.map_values(|a: &str| a@).take(i as int),
        decreases 5 - i,
    {
        let a: &str = X_DEFAULT_ARGS[i];
        let ghost before = args@;
        args.push(a.to_owned());
        assert(args@ == before.push(args@[i as int]));
        assert(args@[i as int]@ == X_DEFAULT_ARGS@[i as int]@);
        assert(strings_view(args@) =~= X_DEFAULT_ARGS@.map_values(|a: &str| a@).take(
            (i + 1) as int,
        ));
        i = i + 1;
    }
    assert(X_DEFAULT_ARGS@.map_values(|a: &str| a@).take(5) =~= X_DEFAULT_ARGS@.map_values(
        |a: &str| a@,
    ));
    args.push(X_ARG_DISPLAY_FD.to_owned());
    args.push(i32_to_string(display_fd));
    args.push(X_DEFAULT_VT.to_owned());
    assert(strings_view(args@) =~= x_server_args_view(display_fd));
    args
}

/// X is told to write its display to `display_fd` itself: the command line ends with
/// `-displayfd`, a numeral that reads back as `display_fd`, and the virtual terminal, after
/// the default arguments.
pub proof fn lemma_display_fd_argument(display_fd: i32)
    ensures
        x_server_args_view(display_fd).len() == 8,
        x_server_args_view(display_fd).take(5) == X_DEFAULT_ARGS@.map_values(|a: &str| a@),
        x_server_args_view(display_fd)[5] == X_ARG_DISPLAY_FD@,
        decimal_value(x_server_args_view(display_fd)[6]) == display_fd,
        x_server_args_view(display_fd)[7] == X_DEFAULT_VT@,
{
    lemma_decimal_value(display_fd as int);
    assert(x_server_args_view(display_fd).take(5) =~= X_DEFAULT_ARGS@.map_values(|a: &str| a@));
}

/// Generates an authorization cookie: a random UUID as 32 lower-case hex digits.
pub fn generate_cookie() -> (cookie: String)
    ensures
        exists|b: Seq<u8>| is_random_uuid(b) && cookie@ == uuid_simple_chars(b),
        cookie@.len() == 32,
        forall|i: int| 0 <= i < cookie@.len() ==> is_lower_hex(#[trigger] cookie@[i]),
        is_uuid_cookie(cookie@),
{
    let b: [u8; 16] = new_v4_bytes();
    let cookie = uuid_simple(b);
    proof {
        lemma_hex_bytes(b@);
    }
    cookie
}

/// Whether `c` is a cookie made from a random UUID: its 32 lower-case hex digits.
pub open spec fn is_uuid_cookie(c: Seq<char>) -> bool {
    &&& exists|b: Seq<u8>| is_random_uuid(b) && c == uuid_simple_chars(b)
    &&& c.len() == 32
    &&& forall|i: int| 0 <= i < c.len() ==> is_lower_hex(#[trigger] c[i])
}

/// Whether `f` names an authorization file: the run directory, `/`, and a random UUID in
/// its 36-character hyphenated form.
pub open spec fn is_auth_file_name(f: Seq<char>) -> bool {
    exists|b: Seq<u8>|
        is_random_uuid(b) && f == DEFAULT_RUN_DIR@ + seq!['/'] + uuid_hyphenated_chars(b)
            && #[trigger] uuid_hyphenated_chars(b).len() == 36
}

/// The hyphenated form of 16 bytes has 36 characters and does not start with `/`.
proof fn lemma_hyphenated_shape(b: Seq<u8>)
    requires
        b.len() == 16,
    ensures
        uuid_hyphenated_chars(b).len() == 36,
        uuid_hyphenated_chars(b)[0] != '/',
{
    lemma_hex_bytes(b.subrange(0, 4));
    lemma_hex_bytes(b.subrange(4, 6));
    lemma_hex_bytes(b.subrange(6, 8));
    lemma_hex_bytes(b.subrange(8, 10));
    lemma_hex_bytes(b.subrange(10, 16));
    assert(uuid_hyphenated_chars(b)[0] == hex_bytes(b.subrange(0, 4))[0]);
}

/// The authorization file named after the UUID with bytes `uuid` in the run directory.
pub fn auth_file_path(uuid: [u8; 16]) -> (path: String)
    ensures
        path@ == path_pushed(DEFAULT_RUN_DIR@, uuid_hyphenated_chars(uuid@)),
        path@ == DEFAULT_RUN_DIR@ + seq!['/'] + uuid_hyphenated_chars(uuid@),
        uuid_hyphenated_chars(uuid@).len() == 36,
{
    let mut path = DEFAULT_RUN_DIR.to_owned();
    let name = uuid_hyphenated(uuid);
    proof {
        lemma_hyphenated_shape(uuid@);
        reveal_strlit("/var/run/rdm");
    }
    path_push(&mut path, name.as_str());
    path
}

/// A fresh authorization file name in the run directory, after a random UUID. The caller
/// creates the file.
pub fn new_auth_file_path() -> (path: String)
    ensures
        exists|b: Seq<u8>| is_random_uuid(b) && path@ == path_pushed(DEFAULT_RUN_DIR@, uuid_hyphenated_chars(b)),
        is_auth_file_name(path@),
{
    let uuid: [u8; 16] = new_v4_bytes();
    auth_file_path(uuid)
}

/// Stopping twice is stopping once: the second stop has nothing left to kill or delete and
/// changes nothing.
pub proof fn lemma_stop_idempotent(a: Xserver, b: Xserver, c: Xserver, p1: StopPlan, p2: StopPlan)
    requires
        Xserver::stop_transition(a, b, p1),
        Xserver::stop_transition(b, c, p2),
    ensures
        !p2.kill_x,
        p2.remove_auth_file is None,
        c.cookie() == b.cookie(),
        c.auth_file_view() == b.auth_file_view(),
        c.is_running() == b.is_running(),
        c.display_view() == b.display_view(),
{
    if let Some(f) = p2.remove_auth_file {
        assert(opt_view(p2.remove_auth_file) is Some);
    }
}

/// A stopped server has lost its authorization file, so it cannot be started again.
pub proof fn lemma_no_start_after_stop(a: Xserver, b: Xserver, p: StopPlan)
    requires
        Xserver::stop_transition(a, b, p),
    ensures
        !b.can_start(),
{
}

} // verus!
