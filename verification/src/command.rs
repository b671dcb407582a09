//! A command to execute in a child process: the program path plus gathered
//! argument and environment parameters, each validated into its C-style
//! image. The fork-and-exec itself is performed by the surrounding program
//! on the buffers this type hands out.

use vstd::prelude::*;
use vstd::string::StringSliceAdditionalSpecFns;

use crate::error::CommandError;
use crate::params::c_string_ok;
use crate::params::command_str;
use crate::params::has_nul;
use crate::params::spec_byte_images;
use crate::params::spec_gather;
use crate::params::spec_gather_one;
use crate::params::OsParams;

verus! {

/// A command under construction: program path, arguments, environment.
#[derive(Clone, Debug)]
pub struct Command {
    path: String,
    args: OsParams,
    env: OsParams,
}

impl Command {
    /// The program path the command was created with.
    pub closed spec fn spec_path(self) -> Seq<char> {
        self.path@
    }

    /// The UTF-8 image of the program path.
    pub open spec fn spec_path_bytes(self) -> Seq<u8> {
        vstd::utf8::encode_utf8(self.spec_path())
    }

    /// The gathered argument parameters.
    pub closed spec fn spec_args(self) -> OsParams {
        self.args
    }

    /// The gathered environment parameters.
    pub closed spec fn spec_env(self) -> OsParams {
        self.env
    }

    pub open spec fn wf(self) -> bool {
        self.spec_args().wf() && self.spec_env().wf()
    }

    /// Creates a new command referencing the program stored at `path`.
    pub fn new(path: String) -> (r: Command)
        ensures
            r.spec_path() == path@,
            r.spec_args().params()@ == Seq::<Seq<u8>>::empty(),
            r.spec_args().first_err() is None,
            r.spec_env().params()@ == Seq::<Seq<u8>>::empty(),
            r.spec_env().first_err() is None,
            r.wf(),
    {
        Command { path, args: OsParams::new(), env: OsParams::new() }
    }

    /// Appends the argument to the set of arguments to pass to the command.
    pub fn arg(&mut self, arg: &str)
        requires
            old(self).wf(),
        ensures
            final(self).wf(),
            final(self).spec_path() == old(self).spec_path(),
            final(self).spec_env() == old(self).spec_env(),
            (final(self).spec_args().params()@, final(self).spec_args().first_err())
                == spec_gather_one(
                old(self).spec_args().params()@,
                old(self).spec_args().first_err(),
                arg.spec_bytes(),
            ),
    {
        self.args.arg(arg);
    }

    /// Appends each argument of the list in order, remembering the first
    /// conversion failure across the whole list.
    pub fn args(&mut self, args: &Vec<String>)
        requires
            old(self).wf(),
        ensures
            final(self).wf(),
            final(self).spec_path() == old(self).spec_path(),
            final(self).spec_env() == old(self).spec_env(),
            (final(self).spec_args().params()@, final(self).spec_args().first_err())
                == spec_gather(
                old(self).spec_args().params()@,
                old(self).spec_args().first_err(),
                spec_byte_images(args@),
            ),
    {
        self.args.args(args);
    }

    /// Adds the environment entry (`KEY=value`) to the command.
    pub fn env(&mut self, env: &str)
        requires
            old(self).wf(),
        ensures
            final(self).wf(),
            final(self).spec_path() == old(self).spec_path(),
            final(self).spec_args() == old(self).spec_args(),
            (final(self).spec_env().params()@, final(self).spec_env().first_err())
                == spec_gather_one(
                old(self).spec_env().params()@,
                old(self).spec_env().first_err(),
                env.spec_bytes(),
            ),
    {
        self.env.arg(env);
    }

    /// Adds the environment entries to the command, in order.
    pub fn envs(&mut self, envs: &Vec<String>)
        requires
            old(self).wf(),
        ensures
            final(self).wf(),
            final(self).spec_path() == old(self).spec_path(),
            final(self).spec_args() == old(self).spec_args(),
            (final(self).spec_env().params()@, final(self).spec_env().first_err())
                == spec_gather(
                old(self).spec_env().params()@,
                old(self).spec_env().first_err(),
                spec_byte_images(envs@),
            ),
    {
        self.env.args(envs);
    }

    /// Validates the whole command for the exec call: the path's C-style
    /// image, then the argument buffers, then the environment buffers. The
    /// first conversion failure anywhere is the result, exactly as it would
    /// surface when the parameters reach the OS.
    pub fn spawn_args(&self) -> (r: Result<(Vec<u8>, &Vec<Vec<u8>>, &Vec<Vec<u8>>), CommandError>)
        ensures
            match r {
                Ok((path, args, env)) => {
                    &&& !has_nul(self.spec_path_bytes())
                    &&& path@ == self.spec_path_bytes().push(0u8)
                    &&& c_string_ok(path@)
                    &&& self.spec_args().first_err() is None
                    &&& self.spec_env().first_err() is None
                    &&& args@.map(|i: int, b: Vec<u8>| b@) == self.spec_args().params()@
                    &&& env@.map(|i: int, b: Vec<u8>| b@) == self.spec_env().params()@
                },
                Err(e) => {
                    if has_nul(self.spec_path_bytes()) {
                        e == CommandError::NulByte(
                            crate::params::spec_first_nul(self.spec_path_bytes()) as usize,
                        )
                    } else if self.spec_args().first_err() is Some {
                        self.spec_args().first_err() == Some(e)
                    } else {
                        self.spec_env().first_err() == Some(e)
                    }
                },
            },
    {
        let path = match command_str(self.path.as_str()) {
            Ok(b) => b,
            Err(e) => {
                return Err(e);
            },
        };
        let args = match self.args.materialize() {
            Ok(bufs) => bufs,
            Err(e) => {
                return Err(e);
            },
        };
        let env = match self.env.materialize() {
            Ok(bufs) => bufs,
            Err(e) => {
                return Err(e);
            },
        };
        Ok((path, args, env))
    }
}

} // verus!
