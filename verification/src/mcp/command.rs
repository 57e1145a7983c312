//! The shell invocation that starts a server.
//!
//! A server runs inside a login shell, `<shell> -l -c '<exports><command>'`,
//! so that it sees the environment of the user's interactive sessions.

use vstd::prelude::*;
use vstd::string::StringExecFns;
use crate::mcp::config::{EnvVars, McpServerConfig, McpServerConfigView};
use crate::text::{join_with, joined};

verus! {

/// Shell used when the environment names none.
pub const DEFAULT_SHELL: &'static str = "/bin/zsh";

/// The shell statement that exports `name` with `value`.
pub open spec fn export_clause(name: Seq<char>, value: Seq<char>) -> Seq<char> {
    "export "@ + name + "=\""@ + value + "\""@
}

/// One export statement for each variable, in the variables' order.
pub open spec fn export_clauses(vars: Seq<(Seq<char>, Seq<char>)>) -> Seq<Seq<char>> {
    Seq::new(vars.len(), |i: int| export_clause(vars[i].0, vars[i].1))
}

/// What precedes the command: nothing when no variables are given, else the
/// export statements separated by `"; "` and closed by one more `"; "`.
pub open spec fn env_exports(env: Option<Seq<(Seq<char>, Seq<char>)>>) -> Seq<char> {
    match env {
        None => Seq::empty(),
        Some(vars) => joined(export_clauses(vars), "; "@) + "; "@,
    }
}

/// The command followed by its arguments, separated by single spaces.
pub open spec fn invocation(command: Seq<char>, args: Seq<Seq<char>>) -> Seq<char> {
    joined(seq![command] + args, " "@)
}

/// The whole text handed to the shell after `-c`.
pub open spec fn shell_command(config: McpServerConfigView) -> Seq<char> {
    env_exports(config.env) + invocation(config.command, config.args)
}

/// The program to run: the configured shell, or `DEFAULT_SHELL`.
pub open spec fn shell_program(configured: Option<Seq<char>>) -> Seq<char> {
    match configured {
        Some(shell) => shell,
        None => DEFAULT_SHELL@,
    }
}

/// The arguments of the shell: login mode, then the command text.
pub open spec fn shell_arguments(config: McpServerConfigView) -> Seq<Seq<char>> {
    seq!["-l"@, "-c"@, shell_command(config)]
}

/// A process to start: the program and its arguments.
#[derive(Debug, Clone)]
pub struct LaunchPlan {
    pub program: String,
    pub args: Vec<String>,
}

impl EnvVars {
    /// One export statement for each variable.
    pub fn export_clauses(&self) -> (r: Vec<String>)
        ensures
            r.deep_view() == export_clauses(self@),
    {
        let mut clauses: Vec<String> = Vec::new();
        let n: usize = self.len();
        let mut i: usize = 0;
        while i < n
            invariant
                n == self@.len(),
                i <= n,
                clauses.len() == i,
                forall|k: int| 0 <= k < i ==> clauses[k]@ == export_clauses(self@)[k],
            decreases n - i,
        {
            let mut clause = String::from_str("export ");
            clause.append(self.name_at(i).as_str());
            clause.append("=\"");
            clause.append(self.value_at(i).as_str());
            clause.append("\"");
            clauses.push(clause);
            i = i + 1;
        }
        assert(clauses.deep_view() =~= export_clauses(self@));
        clauses
    }
}

impl McpServerConfig {
    /// The export statements that precede the command.
    pub fn env_exports(&self) -> (r: String)
        ensures
            r@ == env_exports(self@.env),
    {
        match &self.env {
            None => String::new(),
            Some(vars) => {
                let clauses = vars.export_clauses();
                let mut out = join_with(&clauses, "; ");
                out.append("; ");
                out
            },
        }
    }

    /// The command followed by its arguments.
    pub fn invocation(&self) -> (r: String)
        ensures
            r@ == invocation(self@.command, self@.args),
    {
        let mut words: Vec<String> = Vec::new();
        words.push(self.command.clone());
        let mut i: usize = 0;
        while i < self.args.len()
            invariant
                i <= self.args.len(),
                words.len() == i + 1,
                words[0]@ == self.command@,
                forall|k: int| 0 <= k < i ==> words[k + 1]@ == self.args[k]@,
            decreases self.args.len() - i,
        {
            words.push(self.args[i].clone());
            i = i + 1;
        }
        assert(words.deep_view() =~= seq![self@.command] + self@.args);
        join_with(&words, " ")
    }

    /// The text handed to the shell after `-c`.
    pub fn shell_command(&self) -> (r: String)
        ensures
            r@ == shell_command(self@),
    {
        let mut out = self.env_exports();
        out.append(self.invocation().as_str());
        out
    }

    /// The process that runs this server. `shell` is the user's shell as
    /// the environment names it, if it names one.
    pub fn launch_plan(&self, shell: Option<String>) -> (r: LaunchPlan)
        ensures
            r.program@ == shell_program(
                match shell {
                    Some(s) => Some(s@),
                    None => None,
                },
            ),
            r.args.deep_view() == shell_arguments(self@),
    {
        let program = match shell {
            Some(s) => s,
            None => String::from_str(DEFAULT_SHELL),
        };
        let mut args: Vec<String> = Vec::new();
        args.push(String::from_str("-l"));
        args.push(String::from_str("-c"));
        args.push(self.shell_command());
        assert(args.deep_view() =~= shell_arguments(self@));
        LaunchPlan { program, args }
    }
}

} // verus!
