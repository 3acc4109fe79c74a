//! The programs that endpoints are run with.
use vstd::prelude::*;
use vstd::string::*;

use crate::endpoint::{Endpoint, EndpointView};
use crate::error::{EndpointError, EndpointErrorView};
use crate::outside::{parse_u32, u32_error_text};
use crate::path::{root_path, ChildPath, ChildPathView};
use crate::text::{decimal, law_numeral_reads_back, numeral_u32};

verus! {

/// An argument of a command.
#[derive(Debug, PartialEq, Eq)]
pub enum CommandArg {
    Text(String),
    Path(ChildPath),
}

/// What a [`CommandArg`] denotes.
#[verifier::ext_equal]
pub enum CommandArgView {
    Text(Seq<char>),
    Path(ChildPathView),
}

impl DeepView for CommandArg {
    type V = CommandArgView;

    open spec fn deep_view(&self) -> CommandArgView {
        match self {
            CommandArg::Text(text) => CommandArgView::Text(text@),
            CommandArg::Path(path) => CommandArgView::Path(path@),
        }
    }
}

/// A program and how to run it.
#[derive(Debug, PartialEq, Eq)]
pub struct CommandLine {
    pub program: ChildPath,
    pub args: Vec<CommandArg>,
    /// Whether the program sees nothing of the environment variables of its parent.
    pub env_clear: bool,
    /// Environment variables that are set for the program.
    pub envs: Vec<(String, String)>,
}

/// What a [`CommandLine`] denotes.
#[verifier::ext_equal]
pub struct CommandLineView {
    pub program: ChildPathView,
    pub args: Seq<CommandArgView>,
    pub env_clear: bool,
    pub envs: Seq<(Seq<char>, Seq<char>)>,
}

impl View for CommandLine {
    type V = CommandLineView;

    open spec fn view(&self) -> CommandLineView {
        CommandLineView {
            program: self.program@,
            args: self.args.deep_view(),
            env_clear: self.env_clear,
            envs: self.envs.deep_view(),
        }
    }
}

/// An argument that is plain text.
pub open spec fn text_arg(text: Seq<char>) -> CommandArgView {
    CommandArgView::Text(text)
}

/// An argument that is a path.
pub open spec fn path_arg(path: ChildPathView) -> CommandArgView {
    CommandArgView::Path(path)
}

impl CommandLine {
    /// A program without arguments, in the environment of its parent.
    pub fn new(program: ChildPath) -> (r: CommandLine)
        ensures
            r@ == (CommandLineView {
                program: program@,
                args: Seq::empty(),
                env_clear: false,
                envs: Seq::empty(),
            }),
    {
        let r = CommandLine { program, args: Vec::new(), env_clear: false, envs: Vec::new() };
        assert(r@.args =~= Seq::<CommandArgView>::empty());
        assert(r@.envs =~= Seq::<(Seq<char>, Seq<char>)>::empty());
        r
    }

    /// Adds an argument.
    pub fn arg(&mut self, text: &str)
        ensures
            final(self)@ == (CommandLineView {
                args: old(self)@.args.push(text_arg(text@)),
                ..old(self)@
            }),
    {
        self.args.push(CommandArg::Text(text.to_owned()));
        assert(self@.args =~= old(self)@.args.push(text_arg(text@)));
    }

    /// Adds a path as an argument.
    pub fn path(&mut self, path: ChildPath)
        ensures
            final(self)@ == (CommandLineView {
                args: old(self)@.args.push(path_arg(path@)),
                ..old(self)@
            }),
    {
        self.args.push(CommandArg::Path(path));
        assert(self@.args =~= old(self)@.args.push(path_arg(path@)));
    }

    /// Sets an environment variable.
    pub fn env(&mut self, name: &str, value: &str)
        ensures
            final(self)@ == (CommandLineView {
                envs: old(self)@.envs.push((name@, value@)),
                ..old(self)@
            }),
    {
        self.envs.push((name.to_owned(), value.to_owned()));
        assert(self@.envs =~= old(self)@.envs.push((name@, value@)));
    }
}

/// Arguments that are all plain text.
pub open spec fn text_args(args: Seq<Seq<char>>) -> Seq<CommandArgView> {
    args.map_values(|text: Seq<char>| text_arg(text))
}

/// How `pg_ctl` is run for an endpoint: on its data directory, waiting until it has done what was
/// asked. Nothing of the parent's environment is passed on but the library path, and the token
/// for pageservers and safekeepers where there is one.
pub open spec fn pg_ctl_command(
    ep: EndpointView,
    args: Seq<Seq<char>>,
    auth_token: Option<Seq<char>>,
    pg_bin_dir: Seq<char>,
    pg_lib_dir: Seq<char>,
) -> CommandLineView {
    CommandLineView {
        program: root_path(pg_bin_dir).join("pg_ctl"@),
        args: seq![text_arg("-D"@), path_arg(ep.pgdata()), text_arg("-w"@)] + text_args(args),
        env_clear: true,
        envs: seq![("LD_LIBRARY_PATH"@, pg_lib_dir), ("DYLD_LIBRARY_PATH"@, pg_lib_dir)]
            + match auth_token {
            Some(token) => seq![("NEON_AUTH_TOKEN"@, token)],
            None => seq![],
        },
    }
}

/// A 32-bit pattern read as a signed number.
pub open spec fn as_signed(n: u32) -> int {
    if n <= i32::MAX {
        n as int
    } else {
        n - 0x1_0000_0000
    }
}

/// The process id that a pid file holds.
pub open spec fn pid_of(text: Seq<char>) -> Result<int, EndpointErrorView> {
    match numeral_u32(text) {
        Some(pid) => Ok(as_signed(pid)),
        None => Err(EndpointErrorView::InvalidPid { cause: u32_error_text(text) }),
    }
}

/// Reads a 32-bit pattern as a signed number, as the system calls know process ids.
pub fn signed_pid(pid: u32) -> (r: i32)
    ensures
        r == as_signed(pid),
{
    if pid <= i32::MAX as u32 {
        pid as i32
    } else {
        -((u32::MAX - pid) as i32) - 1
    }
}

/// Reads the process id that a pid file holds.
pub fn parse_pid(text: &str) -> (r: Result<i32, EndpointError>)
    ensures
        match r {
            Ok(pid) => pid_of(text@) == Ok::<_, EndpointErrorView>(pid as int),
            Err(error) => pid_of(text@) == Err::<int, _>(error@),
        },
{
    match parse_u32(text) {
        Ok(pid) => Ok(signed_pid(pid)),
        Err(cause) => Err(EndpointError::InvalidPid { cause }),
    }
}

/// The pid file of a process reads back as that process, wherever its id is one that the system
/// calls take: they know it as a signed number.
pub proof fn law_pid_reads_back(pid: u32)
    ensures
        pid_of(decimal(pid as nat)) == Ok::<_, EndpointErrorView>(as_signed(pid)),
        pid <= i32::MAX ==> as_signed(pid) == pid,
{
    law_numeral_reads_back(pid);
}

impl Endpoint {
    /// How `pg_ctl` is run for this endpoint, with the directories of the programs and of the
    /// libraries of its Postgres version.
    pub fn pg_ctl(
        &self,
        args: &Vec<String>,
        auth_token: &Option<String>,
        pg_bin_dir: &str,
        pg_lib_dir: &str,
    ) -> (r: CommandLine)
        ensures
            r@ == pg_ctl_command(
                self@,
                args.deep_view(),
                auth_token.deep_view(),
                pg_bin_dir@,
                pg_lib_dir@,
            ),
    {
        let mut cmd = CommandLine::new(ChildPath::root(pg_bin_dir).join("pg_ctl"));
        cmd.arg("-D");
        cmd.path(self.pgdata());
        cmd.arg("-w");
        let ghost fixed = cmd@.args;
        let ghost all = args.deep_view();
        assert(fixed + text_args(all.take(0)) =~= fixed);
        let mut i: usize = 0;
        while i < args.len()
            invariant
                i <= args@.len(),
                all == args.deep_view(),
                cmd@ == (CommandLineView {
                    program: root_path(pg_bin_dir@).join("pg_ctl"@),
                    args: fixed + text_args(all.take(i as int)),
                    env_clear: false,
                    envs: Seq::empty(),
                }),
            decreases args@.len() - i,
        {
            cmd.arg(args[i].as_str());
            proof {
                assert(text_args(all.take(i + 1)) =~= text_args(all.take(i as int)).push(
                    text_arg(all[i as int]),
                ));
                assert(cmd@.args =~= fixed + text_args(all.take(i + 1)));
            }
            i = i + 1;
        }
        assert(all.take(all.len() as int) =~= all);
        cmd.env_clear = true;
        cmd.env("LD_LIBRARY_PATH", pg_lib_dir);
        cmd.env("DYLD_LIBRARY_PATH", pg_lib_dir);
        if let Some(token) = auth_token {
            cmd.env("NEON_AUTH_TOKEN", token.as_str());
        }
        let ghost wanted = pg_ctl_command(
            self@,
            args.deep_view(),
            auth_token.deep_view(),
            pg_bin_dir@,
            pg_lib_dir@,
        );
        assert(fixed =~= seq![
            text_arg("-D"@),
            path_arg(self@.pgdata()),
            text_arg("-w"@),
        ]);
        assert(cmd@.envs =~= wanted.envs);
        cmd
    }
}

} // verus!
