//! Addresses to listen on and to connect to.
use crate::error::{new_report, report_messages, wrap_report};
use color_eyre::eyre::Report;
use vstd::prelude::*;
use vstd::string::*;

verus! {

/// The address of a socket.
#[derive(Debug, Clone, Copy, PartialEq, Eq)]
pub enum SocketAddr {
    V4 { ip: [u8; 4], port: u16 },
    V6 { ip6: [u8; 16], port: u16, flowinfo: u32, scope_id: u32 },
}

/// The kinds of sockets.
#[derive(Debug, Clone, Copy, PartialEq, Eq, Structural)]
pub enum SocketKind {
    V4,
    V6,
}

/// The kind of socket that an address needs.
pub fn create_socket(addr: &SocketAddr) -> (kind: SocketKind)
    ensures
        kind == if addr is V4 {
            SocketKind::V4
        } else {
            SocketKind::V6
        },
{
    match addr {
        SocketAddr::V4 { .. } => SocketKind::V4,
        SocketAddr::V6 { .. } => SocketKind::V6,
    }
}

/// A text between two others, the last of which is a single quote.
fn quoted(before: &str, text: &str) -> (whole: String)
    ensures
        whole@ == before@ + text@ + "`"@,
{
    let mut whole: String = before.to_owned();
    whole.append(text);
    whole.append("`");
    whole
}

/// An address as the user wrote it, and the addresses of sockets that it stands for, of which
/// there is at least one.
#[derive(Debug, Clone, PartialEq, Eq)]
pub struct SocketAddrs {
    original_addr: String,
    addrs: Vec<SocketAddr>,
}

/// What the user is told of an address that stands for nothing.
pub open spec fn lookup_failure(original_addr: Seq<char>) -> Seq<char> {
    "failed to lookup address information for `"@ + original_addr + "`"@
}

impl SocketAddrs {
    /// The address as the user wrote it.
    pub closed spec fn original(&self) -> Seq<char> {
        self.original_addr@
    }

    /// The addresses that it stands for.
    pub closed spec fn addresses(&self) -> Seq<SocketAddr> {
        self.addrs@
    }

    /// There is at least one of them.
    pub open spec fn wf(&self) -> bool {
        self.addresses().len() > 0
    }

    /// Takes what came of looking an address up.
    pub fn new(original_addr: String, looked_up: Result<Vec<SocketAddr>, Report>) -> (res: Result<
        Self,
        Report,
    >)
        ensures
            match looked_up {
                Ok(addrs) => if addrs@.len() > 0 {
                    res matches Ok(this) && this.wf() && this.original() == original_addr@
                        && this.addresses() == addrs@
                } else {
                    res matches Err(err) && report_messages(err) == seq![
                        lookup_failure(original_addr@),
                    ]
                },
                Err(cause) => res matches Err(err) && report_messages(err) == seq![
                    lookup_failure(original_addr@),
                ] + report_messages(cause),
            },
            res matches Err(err) ==> report_messages(err).len() > 0 && report_messages(err)[0]
                == "failed to lookup address information for `"@ + original_addr@ + "`"@,
    {
        match looked_up {
            Ok(addrs) => {
                if addrs.len() > 0 {
                    Ok(SocketAddrs { original_addr, addrs })
                } else {
                    Err(
                        new_report(
                            quoted(
                                "failed to lookup address information for `",
                                original_addr.as_str(),
                            ),
                        ),
                    )
                }
            },
            Err(cause) => Err(
                wrap_report(
                    cause,
                    quoted(
                        "failed to lookup address information for `",
                        original_addr.as_str(),
                    ),
                ),
            ),
        }
    }

    /// The address as the user wrote it.
    pub fn text(&self) -> (text: String)
        ensures
            text@ == self.original(),
    {
        self.original_addr.clone()
    }

    /// The address to listen on after so many were tried in vain, or the error when all were.
    pub fn listen(&self, failed: usize) -> (res: Result<SocketAddr, Report>)
        ensures
            if failed < self.addresses().len() {
                res == Ok::<SocketAddr, Report>(self.addresses()[failed as int])
            } else {
                res matches Err(err) && report_messages(err) == seq![
                    "failed to listen on the address `"@ + self.original() + "`"@,
                ]
            },
    {
        if failed < self.addrs.len() {
            Ok(self.addrs[failed])
        } else {
            Err(
                new_report(
                    quoted("failed to listen on the address `", self.original_addr.as_str()),
                ),
            )
        }
    }

    /// The address to connect to after so many were tried in vain, or the error when all were.
    pub fn connect(&self, failed: usize) -> (res: Result<SocketAddr, Report>)
        ensures
            if failed < self.addresses().len() {
                res == Ok::<SocketAddr, Report>(self.addresses()[failed as int])
            } else {
                res matches Err(err) && report_messages(err) == seq![
                    "failed to connect to the address `"@ + self.original() + "`"@,
                ]
            },
    {
        if failed < self.addrs.len() {
            Ok(self.addrs[failed])
        } else {
            Err(
                new_report(
                    quoted("failed to connect to the address `", self.original_addr.as_str()),
                ),
            )
        }
    }
}

} // verus!
