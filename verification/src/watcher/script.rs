//! The script watcher: it runs a configured executable on each address
//! change, appending the substituted value as the last argument when the
//! metadata carries one. The process itself runs outside; the argument list
//! and the verdict on its exit are built here.

use crate::bytes::views;
use crate::client::MappedAddress;
use crate::config::Metadata;
use vstd::prelude::*;
use vstd::string::StringSliceAdditionalSpecFns;

verus! {

/// A script or program run on each address change.
pub struct Script {
    /// Instance name.
    pub name: Vec<u8>,
    /// Path to the executable.
    pub path: Vec<u8>,
    /// Arguments to pass; a non-empty metadata value is appended as the
    /// last argument after substitution.
    pub args: Vec<Vec<u8>>,
}

/// Why a script run counts as failed.
#[derive(Debug, PartialEq, Eq)]
pub enum ScriptError {
    /// The process failed and wrote this to its standard error.
    Stderr(Vec<u8>),
    /// The process failed silently; its exit status is the only witness.
    ExitStatus,
}

impl Script {
    /// A script watcher.
    pub fn new(name: Vec<u8>, path: Vec<u8>, args: Vec<Vec<u8>>) -> (r: Script)
        ensures
            r.name == name,
            r.path == path,
            r.args == args,
    {
        Script { name, path, args }
    }

    /// The watcher's kind tag.
    pub fn kind(&self) -> (r: Vec<u8>)
        ensures
            r@ == "script".spec_bytes(),
    {
        proof {
            reveal_strlit("script");
        }
        crate::bytes::lit("script")
    }

    /// The arguments one update runs the program with: the configured ones,
    /// then the substituted value when the metadata carries a non-empty one.
    pub fn command_args(&self, md: &Metadata, addr: &MappedAddress) -> (r: Vec<Vec<u8>>)
        ensures
            views(r@) == views(self.args@) + (if md.value@.len() > 0 {
                seq![crate::watcher::formatted(md.value@, *addr)]
            } else {
                Seq::<Seq<u8>>::empty()
            }),
    {
        let mut out: Vec<Vec<u8>> = Vec::new();
        let mut i: usize = 0;
        while i < self.args.len()
            invariant
                i <= self.args@.len(),
                views(out@) =~~= views(self.args@).take(i as int),
            decreases self.args.len() - i,
        {
            let ghost before = out@;
            out.push(crate::bytes::clone_bytes(self.args[i].as_slice()));
            proof {
                assert(views(out@) =~~= views(before).push(self.args@[i as int]@));
                assert(views(before).push(self.args@[i as int]@) =~~= views(self.args@).take(
                    i + 1,
                ));
            }
            i = i + 1;
        }
        proof {
            assert(views(self.args@).take(self.args@.len() as int) =~~= views(self.args@));
        }
        if md.value.len() > 0 {
            out.push(crate::watcher::format_value(&md.value, addr));
            proof {
                assert(views(out@) =~~= views(self.args@) + seq![
                    crate::watcher::formatted(md.value@, *addr),
                ]);
            }
        } else {
            proof {
                assert(views(out@) =~~= views(self.args@) + Seq::<Seq<u8>>::empty());
            }
        }
        out
    }

    /// Every metadata is acceptable to a script.
    pub fn validate(&self, _md: &Metadata) -> (r: Result<(), crate::watcher::dns::ValidateError>)
        ensures
            r is Ok,
    {
        Ok(())
    }
}

/// The verdict on a finished process: success passes; a failure carries the
/// standard error text when there is any, and only the exit status
/// otherwise.
pub fn script_outcome(success: bool, stderr: Vec<u8>) -> (r: Result<(), ScriptError>)
    ensures
        r is Ok <==> success,
        !success && stderr@.len() > 0 ==> (r matches Err(e) && e matches ScriptError::Stderr(s)
            && s@ == stderr@),
        !success && stderr@.len() == 0 ==> (r matches Err(e) && e is ExitStatus),
{
    if success {
        Ok(())
    } else if stderr.len() > 0 {
        Err(ScriptError::Stderr(stderr))
    } else {
        Err(ScriptError::ExitStatus)
    }
}

} // verus!
