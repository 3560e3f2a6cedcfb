//! Commands and command batches for remote execution.

use vstd::prelude::*;
use crate::text::{
    chars_of, has_char_exec, join, join_exec, owned, replace_char, replace_char_exec, texts,
};
use crate::ids::new_id;

verus! {

/// A shell-quoted form of `s`: single quotes, or double quotes with `\` and
/// `"` escaped when `s` itself holds a single quote.
pub open spec fn escaped(s: Seq<char>) -> Seq<char> {
    if s.contains('\'') {
        "\""@ + replace_char(replace_char(s, '\\', "\\\\"@), '"', "\\\""@) + "\""@
    } else {
        "'"@ + s + "'"@
    }
}

/// Escape a string for shell usage.
pub fn shell_escape(s: &str) -> (r: String)
    ensures
        r@ == escaped(s@),
{
    let v = chars_of(s);
    if has_char_exec(&v, '\'') {
        let a = replace_char_exec(&v, '\\', "\\\\");
        let av = chars_of(a.as_str());
        let b = replace_char_exec(&av, '"', "\\\"");
        let mut r = owned("\"");
        r.append(b.as_str());
        r.append("\"");
        r
    } else {
        let mut r = owned("'");
        r.append(s);
        r.append("'");
        r
    }
}

/// The `export` statement that sets `k` to `v`.
pub open spec fn export_text(k: Seq<char>, v: Seq<char>) -> Seq<char> {
    "export "@ + k + "="@ + escaped(v)
}

/// A command to execute on a remote server.
pub struct Command {
    /// Unique identifier for this command
    pub id: u128,
    /// The command to execute
    pub command: String,
    /// Whether to run with sudo
    pub sudo: bool,
    /// Working directory (cd before running)
    pub working_dir: Option<String>,
    /// Environment variables to set
    pub env: Vec<(String, String)>,
    /// Timeout in seconds (0 = no timeout)
    pub timeout_secs: u64,
    /// Whether this command can be retried on failure
    pub retryable: bool,
}

impl Command {
    /// The statements that make up the command line: one `export` per
    /// environment variable, a `cd` when a working directory is set, then
    /// the command itself (behind `sudo -n` when asked).
    pub open spec fn parts(&self) -> Seq<Seq<char>> {
        let env = self.env@.map_values(|p: (String, String)| export_text(p.0@, p.1@));
        let cd = match self.working_dir {
            Some(d) => seq!["cd "@ + escaped(d@)],
            None => Seq::<Seq<char>>::empty(),
        };
        let main = if self.sudo {
            "sudo -n "@ + self.command@
        } else {
            self.command@
        };
        env + cd + seq![main]
    }

    /// The full command line.
    pub open spec fn line(&self) -> Seq<char> {
        join(self.parts(), " && "@)
    }

    /// Create a new command.
    pub fn new(command: &str) -> (r: Self)
        ensures
            r.command@ == command@,
            !r.sudo,
            r.working_dir is None,
            r.env@.len() == 0,
            r.timeout_secs == 0,
            !r.retryable,
    {
        Command {
            id: new_id(),
            command: owned(command),
            sudo: false,
            working_dir: None,
            env: Vec::new(),
            timeout_secs: 0,
            retryable: false,
        }
    }

    /// Set sudo flag
    pub fn sudo(self) -> (r: Self)
        ensures
            r == (Command { sudo: true, ..self }),
    {
        Command { sudo: true, ..self }
    }

    /// Set working directory
    pub fn working_dir(self, dir: &str) -> (r: Self)
        ensures
            r.working_dir matches Some(d) && d@ == dir@,
            r.id == self.id && r.command == self.command && r.sudo == self.sudo && r.env
                == self.env && r.timeout_secs == self.timeout_secs && r.retryable
                == self.retryable,
    {
        Command { working_dir: Some(owned(dir)), ..self }
    }

    /// Add environment variable
    pub fn env(self, key: &str, value: &str) -> (r: Self)
        ensures
            r.env@.len() == self.env@.len() + 1,
            r.env@.take(self.env@.len() as int) == self.env@,
            r.env@.last().0@ == key@,
            r.env@.last().1@ == value@,
            r.id == self.id && r.command == self.command && r.sudo == self.sudo
                && r.working_dir == self.working_dir && r.timeout_secs == self.timeout_secs
                && r.retryable == self.retryable,
    {
        let mut s = self;
        s.env.push((owned(key), owned(value)));
        assert(s.env@.take(self.env@.len() as int) =~= self.env@);
        s
    }

    /// Set timeout
    pub fn timeout(self, secs: u64) -> (r: Self)
        ensures
            r == (Command { timeout_secs: secs, ..self }),
    {
        Command { timeout_secs: secs, ..self }
    }

    /// Mark as retryable
    pub fn retryable(self) -> (r: Self)
        ensures
            r == (Command { retryable: true, ..self }),
    {
        Command { retryable: true, ..self }
    }

    /// Build the full command string with environment and cd
    pub fn build(&self) -> (r: String)
        ensures
            r@ == self.line(),
    {
        let mut parts: Vec<String> = Vec::new();
        let mut i: usize = 0;
        while i < self.env.len()
            invariant
                i <= self.env.len(),
                texts(parts@) == self.env@.take(i as int).map_values(
                    |p: (String, String)| export_text(p.0@, p.1@),
                ),
            decreases self.env.len() - i,
        {
            let mut line = owned("export ");
            line.append(self.env[i].0.as_str());
            line.append("=");
            let esc = shell_escape(self.env[i].1.as_str());
            line.append(esc.as_str());
            let ghost old_parts = parts@;
            parts.push(line);
            assert(texts(parts@) =~= texts(old_parts).push(line@));
            assert(self.env@.take(i + 1).map_values(|p: (String, String)| export_text(p.0@, p.1@))
                =~= self.env@.take(i as int).map_values(
                |p: (String, String)| export_text(p.0@, p.1@),
            ).push(export_text(self.env@[i as int].0@, self.env@[i as int].1@)));
            i = i + 1;
        }
        assert(self.env@.take(self.env@.len() as int) =~= self.env@);
        let ghost env_parts = texts(parts@);
        match &self.working_dir {
            Some(dir) => {
                let mut line = owned("cd ");
                let esc = shell_escape(dir.as_str());
                line.append(esc.as_str());
                parts.push(line);
            },
            None => {},
        }
        let main = if self.sudo {
            let mut m = owned("sudo -n ");
            m.append(self.command.as_str());
            m
        } else {
            self.command.clone()
        };
        parts.push(main);
        assert(texts(parts@) =~= self.parts());
        join_exec(&parts, " && ")
    }
}

/// How to separate commands in a batch
#[derive(Clone, Copy, Debug, PartialEq, Eq, Structural)]
pub enum BatchSeparator {
    /// Use && (stop on error)
    And,
    /// Use ; (continue on error)
    Semicolon,
    /// Use || (run next only on error)
    Or,
}

/// The text placed between two commands of a batch.
pub open spec fn separator_text(sep: BatchSeparator) -> Seq<char> {
    match sep {
        BatchSeparator::And => " && "@,
        BatchSeparator::Semicolon => "; "@,
        BatchSeparator::Or => " || "@,
    }
}

/// Law: the three separators print as three different texts, ` && `,
/// `; ` and ` || `, each showing its own shell operator and none of the
/// others': `&&` (run the next only on success) for `And`, `||` (only on
/// failure) for `Or`, `;` (always) for `Semicolon`.
pub proof fn law_separators_differ(a: BatchSeparator, b: BatchSeparator)
    ensures
        separator_text(BatchSeparator::And) == " && "@,
        separator_text(BatchSeparator::Semicolon) == "; "@,
        separator_text(BatchSeparator::Or) == " || "@,
        a != b ==> separator_text(a) != separator_text(b),
        separator_text(BatchSeparator::And).contains('&') && !separator_text(
            BatchSeparator::And,
        ).contains('|') && !separator_text(BatchSeparator::And).contains(';'),
        separator_text(BatchSeparator::Or).contains('|') && !separator_text(
            BatchSeparator::Or,
        ).contains('&') && !separator_text(BatchSeparator::Or).contains(';'),
        separator_text(BatchSeparator::Semicolon).contains(';') && !separator_text(
            BatchSeparator::Semicolon,
        ).contains('&') && !separator_text(BatchSeparator::Semicolon).contains('|'),
{
    reveal_strlit(" && ");
    reveal_strlit(" || ");
    reveal_strlit("; ");
    let and = " && "@;
    let or = " || "@;
    let semi = "; "@;
    assert(and[1] == '&');
    assert(or[1] == '|');
    assert(semi[0] == ';');
    assert(and[1] != or[1]);
    assert(and.len() != semi.len());
    assert(or.len() != semi.len());
}

impl BatchSeparator {
    /// The text placed between two commands (the `Display` form).
    pub fn to_text(&self) -> (r: String)
        ensures
            r@ == separator_text(*self),
    {
        match self {
            BatchSeparator::And => owned(" && "),
            BatchSeparator::Semicolon => owned("; "),
            BatchSeparator::Or => owned(" || "),
        }
    }
}

/// A batch of commands to execute together
pub struct CommandBatch {
    /// Batch identifier
    pub id: u128,
    /// Commands in this batch
    commands: Vec<Command>,
    /// Whether to stop on first error
    stop_on_error: bool,
    /// Separator between commands
    separator: BatchSeparator,
}

impl CommandBatch {
    /// The commands of the batch, in order.
    pub closed spec fn commands(&self) -> Seq<Command> {
        self.commands@
    }

    /// The batch identifier.
    pub closed spec fn ident(&self) -> u128 {
        self.id
    }

    /// Whether the batch stops at the first error.
    pub closed spec fn stops_on_error(&self) -> bool {
        self.stop_on_error
    }

    /// The separator placed between commands.
    pub closed spec fn sep(&self) -> BatchSeparator {
        self.separator
    }

    /// The combined command line: each command's line, joined by the separator.
    pub open spec fn line(&self) -> Seq<char> {
        join(self.commands().map_values(|c: Command| c.line()), separator_text(self.sep()))
    }

    /// Law: a batch of two commands runs the first, then the separator's
    /// operator, then the second; so the line of an `Or` batch shows ` || `
    /// right after the first command and never ` && ` there.
    pub proof fn law_two_command_line(&self)
        requires
            self.commands().len() == 2,
        ensures
            self.line() == self.commands()[0].line() + separator_text(self.sep())
                + self.commands()[1].line(),
            self.sep() == BatchSeparator::Or ==> self.line().subrange(
                self.commands()[0].line().len() as int,
                self.commands()[0].line().len() + 4int,
            ) == " || "@,
            self.sep() == BatchSeparator::Or ==> self.line().subrange(
                self.commands()[0].line().len() as int,
                self.commands()[0].line().len() + 4int,
            ) != " && "@,
    {
        reveal_strlit(" || ");
        reveal_strlit(" && ");
        let parts = self.commands().map_values(|c: Command| c.line());
        let sep = separator_text(self.sep());
        assert(parts.drop_last().len() == 1);
        assert(parts.drop_last()[0] == parts[0]);
        assert(join(parts.drop_last(), sep) == parts[0]);
        assert(self.line() == parts[0] + sep + parts[1]);
        let a = self.commands()[0].line();
        let b = self.commands()[1].line();
        if self.sep() == BatchSeparator::Or {
            assert((a + " || "@ + b).subrange(a.len() as int, a.len() + 4int) =~= " || "@);
            assert(" || "@[1] != " && "@[1]);
        }
    }

    /// Create a new command batch
    pub fn new() -> (r: Self)
        ensures
            r.commands().len() == 0,
            r.stops_on_error(),
            r.sep() == BatchSeparator::And,
    {
        CommandBatch {
            id: new_id(),
            commands: Vec::new(),
            stop_on_error: true,
            separator: BatchSeparator::And,
        }
    }

    /// Add a command to the batch
    pub fn add(self, command: Command) -> (r: Self)
        ensures
            r.commands() == self.commands().push(command),
            r.stops_on_error() == self.stops_on_error(),
            r.sep() == self.sep(),
            r.ident() == self.ident(),
    {
        let mut s = self;
        s.commands.push(command);
        s
    }

    /// Add a simple command string
    pub fn cmd(self, command: &str) -> (r: Self)
        ensures
            r.commands().len() == self.commands().len() + 1,
            r.commands().take(self.commands().len() as int) == self.commands(),
            r.commands().last().command@ == command@,
            !r.commands().last().sudo,
            r.commands().last().working_dir is None,
            r.commands().last().env@.len() == 0,
            r.stops_on_error() == self.stops_on_error(),
            r.sep() == self.sep(),
            r.ident() == self.ident(),
    {
        let r = self.add(Command::new(command));
        assert(r.commands().take(self.commands().len() as int) =~= self.commands());
        r
    }

    /// Set whether to stop on first error; turning it off separates the
    /// commands with `;`.
    pub fn stop_on_error(self, stop: bool) -> (r: Self)
        ensures
            r.commands() == self.commands(),
            r.stops_on_error() == stop,
            r.sep() == if stop { self.sep() } else { BatchSeparator::Semicolon },
            r.ident() == self.ident(),
    {
        let mut s = self;
        s.stop_on_error = stop;
        if !stop {
            s.separator = BatchSeparator::Semicolon;
        }
        s
    }

    /// Set the separator between commands
    pub fn separator(self, sep: BatchSeparator) -> (r: Self)
        ensures
            r.commands() == self.commands(),
            r.stops_on_error() == self.stops_on_error(),
            r.sep() == sep,
            r.ident() == self.ident(),
    {
        CommandBatch { separator: sep, ..self }
    }

    /// Build the combined command string
    pub fn build(&self) -> (r: String)
        ensures
            r@ == self.line(),
    {
        let mut lines: Vec<String> = Vec::new();
        let mut i: usize = 0;
        while i < self.commands.len()
            invariant
                i <= self.commands.len(),
                texts(lines@) == self.commands@.take(i as int).map_values(|c: Command| c.line()),
            decreases self.commands.len() - i,
        {
            let l = self.commands[i].build();
            let ghost old_lines = lines@;
            lines.push(l);
            assert(texts(lines@) =~= texts(old_lines).push(l@));
            assert(self.commands@.take(i + 1).map_values(|c: Command| c.line()) =~= self.commands@.take(
                i as int,
            ).map_values(|c: Command| c.line()).push(self.commands@[i as int].line()));
            i = i + 1;
        }
        assert(self.commands@.take(self.commands@.len() as int) =~= self.commands@);
        let sep = self.separator.to_text();
        join_exec(&lines, sep.as_str())
    }

    /// Get the number of commands
    pub fn len(&self) -> (n: usize)
        ensures
            n == self.commands().len(),
    {
        self.commands.len()
    }

    /// Check if the batch is empty
    pub fn is_empty(&self) -> (b: bool)
        ensures
            b == (self.commands().len() == 0),
    {
        self.commands.len() == 0
    }
}

} // verus!
