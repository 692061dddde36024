//! The addresses of the sockets on which applications listen.
//!
//! An application that shares one listener among all its windows has the
//! socket `thcon/<app>.sock` below the directory for sockets.  One that
//! runs a listener in every process has the directory `thcon/<app>`
//! there, with one socket for each process, named by the process's
//! number.

use vstd::prelude::*;

use crate::dirs::temp;
use crate::plan::text_view;

verus! {

/// A decimal digit as text.
pub open spec fn digit(value: nat) -> Seq<char> {
    if value == 0 {
        "0"@
    } else if value == 1 {
        "1"@
    } else if value == 2 {
        "2"@
    } else if value == 3 {
        "3"@
    } else if value == 4 {
        "4"@
    } else if value == 5 {
        "5"@
    } else if value == 6 {
        "6"@
    } else if value == 7 {
        "7"@
    } else if value == 8 {
        "8"@
    } else {
        "9"@
    }
}

/// A number in decimal notation, without leading zeros.
pub open spec fn decimal(value: nat) -> Seq<char>
    decreases value,
{
    if value < 10 {
        digit(value)
    } else {
        decimal(value / 10) + digit(value % 10)
    }
}

fn digit_of(value: u32) -> (text: &'static str)
    requires
        value < 10,
    ensures
        text@ == digit(value as nat),
{
    if value == 0 {
        "0"
    } else if value == 1 {
        "1"
    } else if value == 2 {
        "2"
    } else if value == 3 {
        "3"
    } else if value == 4 {
        "4"
    } else if value == 5 {
        "5"
    } else if value == 6 {
        "6"
    } else if value == 7 {
        "7"
    } else if value == 8 {
        "8"
    } else {
        "9"
    }
}

/// Writes a number in decimal notation.
pub fn decimal_of(value: u32) -> (text: String)
    ensures
        text@ == decimal(value as nat),
    decreases value,
{
    if value < 10 {
        String::from_str(digit_of(value))
    } else {
        let mut text = decimal_of(value / 10);
        text.append(digit_of(value % 10));
        text
    }
}

/// The address of a socket: the parts of a path, and the extension that
/// the path's last part is to get in place of any it has.
#[derive(Debug, Clone, PartialEq, Eq)]
pub struct SocketAddr {
    /// The parts of the path.
    pub parts: Vec<String>,
    /// The extension to set, if any.
    pub extension: Option<String>,
}

/// The model of a [`SocketAddr`].
pub struct SocketAddrView {
    pub parts: Seq<Seq<char>>,
    pub extension: Option<Seq<char>>,
}

impl View for SocketAddr {
    type V = SocketAddrView;

    open spec fn view(&self) -> SocketAddrView {
        SocketAddrView { parts: self.parts.deep_view(), extension: text_view(self.extension) }
    }
}

/// The address of an application's socket.
pub open spec fn address(app_name: Seq<char>, include_pid: bool, pid: u32) -> SocketAddrView {
    if include_pid {
        SocketAddrView {
            parts: seq!["/tmp"@, "thcon"@, app_name, decimal(pid as nat) + ".sock"@],
            extension: None,
        }
    } else {
        SocketAddrView { parts: seq!["/tmp"@, "thcon"@, app_name], extension: Some("sock"@) }
    }
}

/// Returns the address of an application's socket; with `include_pid`,
/// that of the socket of the process numbered `pid`, for applications that
/// need a socket for each process.
pub fn socket_addr(app_name: &str, include_pid: bool, pid: u32) -> (addr: SocketAddr)
    ensures
        addr@ == address(app_name@, include_pid, pid),
{
    let mut parts: Vec<String> = Vec::new();
    parts.push(String::from_str(temp()));
    parts.push(String::from_str("thcon"));
    parts.push(String::from_str(app_name));
    if include_pid {
        let mut file = decimal_of(pid);
        file.append(".sock");
        parts.push(file);
        proof {
            assert(parts.deep_view() =~= seq![
                "/tmp"@,
                "thcon"@,
                app_name@,
                decimal(pid as nat) + ".sock"@,
            ]);
        }
        SocketAddr { parts, extension: None }
    } else {
        proof {
            assert(parts.deep_view() =~= seq!["/tmp"@, "thcon"@, app_name@]);
        }
        SocketAddr { parts, extension: Some(String::from_str("sock")) }
    }
}

} // verus!
