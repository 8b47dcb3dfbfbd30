//! The text of the SSH path to a robot's shell: the lines sent to the shell
//! and the `scp` sink protocol used to upload a file.
//!
//! The session itself is held by the caller, which sends and receives what
//! these functions describe.

use vstd::prelude::*;
use vstd::string::{StringExecFns, StringSliceAdditionalSpecFns};
use crate::text::{decimal, decimal_text, octal, octal_text, strip_spaces, without_spaces};

verus! {

#[derive(Clone, Copy, Debug, PartialEq, Eq, Structural)]
pub enum Error {
    /// The server could not be reached.
    ConnectionFailure,
    /// The server refused the login.
    LoginFailure,
    /// No channel could be opened.
    ChannelFailure,
    /// Communication with the server failed.
    IoFailure,
}

/// A robot reached over SSH.
#[derive(Clone, Copy, Debug, PartialEq, Eq, Structural)]
pub struct Device {
    pub addr: u32,
}

impl Device {
    /// The line that runs `command` in the shell.
    pub fn command_line(command: &str) -> (r: String)
        ensures
            r@ == command@ + "\n"@,
    {
        command.to_owned().concat("\n")
    }

    /// The host name in the shell's reply to `hostname`: the reply with all
    /// its white space removed.
    pub fn hostname_of(reply: &str) -> (r: String)
        ensures
            r@ == without_spaces(reply@),
    {
        strip_spaces(reply)
    }

    /// The command that receives a file into `directory`.
    pub fn scp_command(directory: &str) -> (r: String)
        ensures
            r@ == "scp -t "@ + directory@,
    {
        "scp -t ".to_owned().concat(directory)
    }

    /// The header that announces a file of `len` bytes named `file_name`
    /// with the given permission bits.
    pub fn scp_header(permissions: u64, len: u64, file_name: &str) -> (r: String)
        ensures
            r@ == "C0"@ + octal(permissions as nat) + " "@ + decimal(len as nat) + " "@ + file_name@
                + "\n"@,
    {
        let p = octal_text(permissions);
        let l = decimal_text(len);
        "C0".to_owned().concat(p.as_str()).concat(" ").concat(l.as_str()).concat(" ").concat(
            file_name,
        ).concat("\n")
    }

    /// What is sent on the channel to upload `data`: the header, the data,
    /// and the final zero byte that confirms the transfer.
    pub fn scp_payload(header: &str, data: &Vec<u8>) -> (r: Vec<u8>)
        ensures
            r@ == header.spec_bytes() + data@ + seq![0u8],
    {
        let mut out: Vec<u8> = Vec::new();
        let h = header.as_bytes();
        let mut i: usize = 0;
        while i < h.len()
            invariant
                i <= h@.len(),
                h@ == header.spec_bytes(),
                out@ == h@.subrange(0, i as int),
            decreases h@.len() - i,
        {
            out.push(h[i]);
            i = i + 1;
            assert(out@ =~= h@.subrange(0, i as int));
        }
        let mut j: usize = 0;
        while j < data.len()
            invariant
                j <= data@.len(),
                h@ == header.spec_bytes(),
                out@ == h@ + data@.subrange(0, j as int),
            decreases data@.len() - j,
        {
            out.push(data[j]);
            j = j + 1;
            assert(out@ =~= h@ + data@.subrange(0, j as int));
        }
        out.push(0u8);
        assert(data@.subrange(0, data@.len() as int) =~= data@);
        assert(h@.subrange(0, h@.len() as int) =~= h@);
        out
    }
}

} // verus!
