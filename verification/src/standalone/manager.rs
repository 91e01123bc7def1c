//! The D-Bus service of the single-process display manager: a `Hello` method on its root
//! object, and the handling of each incoming bus item.
use vstd::prelude::*;
use crate::standalone::constants::DBUS_ROOT_PATH;
use crate::support::text::str_equal;

verus! {

/// The service's state.
pub struct Manager {
    running: bool,
}

/// An item read from the bus connection.
#[derive(Debug, PartialEq, Eq, Structural)]
pub enum BusItem {
    /// A method call; `handled` tells whether the registered object path took it.
    MethodCall { handled: bool },
    /// A signal, a reply or anything else.
    Other,
}

/// What to do with a bus item.
#[derive(Debug)]
pub enum BusAction {
    /// Answer the call with this D-Bus error.
    ReplyError { name: String, message: String },
    /// The call was answered by its handler.
    Handled,
    /// Nothing to do.
    Ignore,
}

impl Manager {
    /// Whether the service loop runs.
    pub closed spec fn is_running(&self) -> bool {
        self.running
    }

    /// A service that does not run yet.
    pub fn new() -> (m: Manager)
        ensures
            !m.is_running(),
    {
        Manager { running: false }
    }

    /// Decides what to do with an item from the bus: a method call that no object path took
    /// is answered with the error `org.freedesktop.DBus.Error.Failed`.
    pub fn action_for(&self, item: BusItem) -> (a: BusAction)
        ensures
            match item {
                BusItem::MethodCall { handled: false } => a matches BusAction::ReplyError {
                    name,
                    message,
                } && name@ == "org.freedesktop.DBus.Error.Failed"@ && message@
                    == "Object path not found"@,
                BusItem::MethodCall { handled: true } => a is Handled,
                BusItem::Other => a is Ignore,
            },
    {
        match item {
            BusItem::MethodCall { handled } => {
                if !handled {
                    BusAction::ReplyError {
                        name: "org.freedesktop.DBus.Error.Failed".to_owned(),
                        message: "Object path not found".to_owned(),
                    }
                } else {
                    BusAction::Handled
                }
            },
            BusItem::Other => BusAction::Ignore,
        }
    }
}

/// Whether a method call is the service's `Hello` method: on the root object `/`, in the
/// interface named [`DBUS_ROOT_PATH`], with the member `Hello`.
pub open spec fn spec_is_hello(
    path: Option<Seq<char>>,
    interface: Option<Seq<char>>,
    member: Option<Seq<char>>,
) -> bool {
    &&& path == Some("/"@)
    &&& interface == Some(DBUS_ROOT_PATH@)
    &&& member == Some("Hello"@)
}

/// The view of an optional string slice.
pub open spec fn opt_str_view(o: Option<&str>) -> Option<Seq<char>> {
    match o {
        Some(s) => Some(s@),
        None => None,
    }
}

/// Whether a method call with this object path, interface and member is the `Hello`
/// method that the service answers.
pub fn is_hello_call(path: Option<&str>, interface: Option<&str>, member: Option<&str>) -> (b: bool)
    ensures
        b == spec_is_hello(opt_str_view(path), opt_str_view(interface), opt_str_view(member)),
{
    let p = match path {
        Some(p) => p,
        None => return false,
    };
    let i = match interface {
        Some(i) => i,
        None => return false,
    };
    let m = match member {
        Some(m) => m,
        None => return false,
    };
    str_equal(p, "/") && str_equal(i, DBUS_ROOT_PATH) && str_equal(m, "Hello")
}

/// The answer of the `Hello` method to the caller with bus name `sender`.
pub fn hello_reply(sender: &str) -> (reply: String)
    ensures
        reply@ == "Hello "@ + sender@ + "!"@,
{
    let mut reply = "Hello ".to_owned();
    reply.append(sender);
    reply.append("!");
    reply
}

} // verus!
