//! What a script may reach: the network, but no file, no VSOCK socket and
//! no high-resolution time.

use vstd::prelude::*;
use vstd::string::*;

verus! {

/// The text of a path as `{:?}` prints it: in double quotes, with what
/// cannot be shown as it is written as an escape.
pub uninterp spec fn debug_quoted(path: Seq<char>) -> Seq<char>;

/// `format!` with `{:?}` on a `str`: the text in quotes and escaped.
#[verifier::external_body]
fn debug_text(path: &str) -> (text: String)
    ensures
        text@ == debug_quoted(path@),
{
    format!("{:?}", path)
}

/// A refusal: what was asked for, and the name of the permission that
/// would have allowed it.
#[derive(Debug)]
pub struct PermissionDenied {
    pub access: String,
    pub name: &'static str,
}

/// The permissions of a worker. They hold no state: every worker has the
/// same.
#[derive(Debug, Clone, Copy, PartialEq, Eq, Structural)]
pub struct Permissions {}

impl Permissions {
    /// High-resolution time is never allowed.
    pub fn allow_hrtime(&mut self) -> (allowed: bool)
        ensures
            !allowed,
            *final(self) == *old(self),
    {
        false
    }

    /// Reaching a host and port over the network is allowed.
    pub fn check_net(&mut self, host: &str, port: u16, api_name: &str) -> (r: Result<
        (),
        PermissionDenied,
    >)
        ensures
            r is Ok,
            *final(self) == *old(self),
    {
        Ok(())
    }

    /// Reaching a URL over the network is allowed.
    pub fn check_net_url(&mut self, url: &str, api_name: &str) -> (r: Result<(), PermissionDenied>)
        ensures
            r is Ok,
            *final(self) == *old(self),
    {
        Ok(())
    }

    /// Opening a file is never allowed.
    pub fn check_open(&mut self, path: &str, api_name: &str) -> (r: Result<(), PermissionDenied>)
        ensures
            r matches Err(denied) && denied.name@ == "read"@ && denied.access@
                == "File access not allowed: "@ + debug_quoted(path@),
            *final(self) == *old(self),
    {
        let quoted = debug_text(path);
        let access = String::from_str("File access not allowed: ").concat(quoted.as_str());
        Err(PermissionDenied { access, name: "read" })
    }

    /// Reaching a VSOCK socket is never allowed.
    pub fn check_net_vsock(&mut self, cid: u32, port: u32, api_name: &str) -> (r: Result<
        (),
        PermissionDenied,
    >)
        ensures
            r matches Err(denied) && denied.name@ == "net"@ && denied.access@
                == "VSOCK access not allowed"@,
            *final(self) == *old(self),
    {
        Err(PermissionDenied { access: String::from_str("VSOCK access not allowed"), name: "net" })
    }
}

} // verus!
