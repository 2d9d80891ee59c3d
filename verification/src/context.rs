//! The seam through which probes reach the host: reading files, running
//! commands, looking up environment variables, and asking for the host name
//! and the kernel identity. A probe sees the host only through a
//! [`SystemContext`]; [`MockSystemContext`] answers from fixtures held in
//! memory.

use vstd::prelude::*;
use crate::text::{from_chars, to_chars, trim_class, trim_of, CharClass};
use crate::tokens::{chars_eq, opt_str_view};

verus! {

/// Why a system-access operation failed.
#[derive(Debug, Clone, PartialEq, Eq)]
pub struct IoFailure {
    /// Text that describes the failure.
    pub message: String,
}

/// What a command left behind when it ended.
#[derive(Debug, Clone, PartialEq, Eq)]
pub struct CommandOutput {
    pub stdout: Vec<u8>,
    pub stderr: Vec<u8>,
    pub success: bool,
}

/// The mathematical value of a [`CommandOutput`].
pub struct CommandOutputView {
    pub stdout: Seq<u8>,
    pub stderr: Seq<u8>,
    pub success: bool,
}

impl View for CommandOutput {
    type V = CommandOutputView;

    open spec fn view(&self) -> CommandOutputView {
        CommandOutputView { stdout: self.stdout@, stderr: self.stderr@, success: self.success }
    }
}

/// The text that a lossy reading of `bytes` as UTF-8 gives: the text that
/// the bytes encode, with U+FFFD in place of what is not valid UTF-8.
pub uninterp spec fn utf8_lossy_of(bytes: Seq<u8>) -> Seq<char>;

/// `String::from_utf8_lossy`: the text that `bytes` encode, read lossily.
/// The result is [`utf8_lossy_of`] of the bytes; nothing more is claimed.
#[verifier::external_body]
fn lossy_text(bytes: &Vec<u8>) -> (text: String)
    ensures
        text@ == utf8_lossy_of(bytes@),
{
    String::from_utf8_lossy(bytes).into_owned()
}

/// What a command printed, read lossily and trimmed of white space, if the
/// command succeeded.
pub open spec fn trimmed_stdout(o: CommandOutputView) -> Option<Seq<char>> {
    if o.success {
        Some(trim_of(utf8_lossy_of(o.stdout), CharClass::Space))
    } else {
        None
    }
}

/// What a command printed, read lossily, if the command succeeded.
pub open spec fn stdout_of(o: CommandOutputView) -> Option<Seq<char>> {
    if o.success {
        Some(utf8_lossy_of(o.stdout))
    } else {
        None
    }
}

impl CommandOutput {
    /// What the command printed, read lossily, if it succeeded.
    pub fn stdout_text(&self) -> (text: Option<String>)
        ensures
            opt_str_view(text) == stdout_of(self@),
    {
        if self.success {
            Some(lossy_text(&self.stdout))
        } else {
            None
        }
    }

    /// What the command printed, read lossily and trimmed of white space,
    /// if it succeeded.
    pub fn trimmed_text(&self) -> (text: Option<String>)
        ensures
            opt_str_view(text) == trimmed_stdout(self@),
    {
        match self.stdout_text() {
            Some(raw) => Some(trim_text(raw.as_str())),
            None => None,
        }
    }
}

/// `text` without the white space at its two ends.
pub fn trim_text(text: &str) -> (out: String)
    ensures
        out@ == trim_of(text@, CharClass::Space),
{
    let chars = to_chars(text);
    let trimmed = trim_class(&chars, CharClass::Space);
    from_chars(&trimmed)
}

/// The identity of the running kernel.
#[derive(Debug, Clone, PartialEq, Eq)]
pub struct UtsName {
    pub sysname: String,
    pub nodename: String,
    pub release: String,
    pub version: String,
    pub machine: String,
}

/// The mathematical value of a [`UtsName`].
pub struct UtsNameView {
    pub sysname: Seq<char>,
    pub nodename: Seq<char>,
    pub release: Seq<char>,
    pub version: Seq<char>,
    pub machine: Seq<char>,
}

impl View for UtsName {
    type V = UtsNameView;

    open spec fn view(&self) -> UtsNameView {
        UtsNameView {
            sysname: self.sysname@,
            nodename: self.nodename@,
            release: self.release@,
            version: self.version@,
            machine: self.machine@,
        }
    }
}

/// The value of an answer that is a text or a failure.
pub open spec fn text_answer(r: Result<String, IoFailure>) -> Result<Seq<char>, Seq<char>> {
    match r {
        Ok(s) => Ok(s@),
        Err(e) => Err(e.message@),
    }
}

/// The value of an answer that is a command's output or a failure.
pub open spec fn command_answer(r: Result<CommandOutput, IoFailure>) -> Result<
    CommandOutputView,
    Seq<char>,
> {
    match r {
        Ok(o) => Ok(o@),
        Err(e) => Err(e.message@),
    }
}

/// The value of an answer that is a kernel identity or a failure.
pub open spec fn uname_answer(r: Result<UtsName, IoFailure>) -> Result<UtsNameView, Seq<char>> {
    match r {
        Ok(u) => Ok(u@),
        Err(e) => Err(e.message@),
    }
}

/// The values of the arguments handed to a command.
pub open spec fn args_view(args: &[&str]) -> Seq<Seq<char>> {
    Seq::new(args@.len(), |i: int| args@[i]@)
}

/// Read-only access to the host. Each operation may fail on its own, and
/// none changes the host.
///
/// For each operation a `may_` relation says which answers the context can
/// give to a question. A context that reads the live host admits every
/// answer, which is what the relations say unless an implementation states
/// more; one that answers from fixtures admits exactly one.
pub trait SystemContext {
    /// Whether `out` can be the answer to reading the file at `path`.
    open spec fn may_read_file(&self, path: Seq<char>, out: Result<Seq<char>, Seq<char>>) -> bool {
        true
    }

    /// Whether `out` can be the answer to running `program` with `args`.
    open spec fn may_execute(
        &self,
        program: Seq<char>,
        args: Seq<Seq<char>>,
        out: Result<CommandOutputView, Seq<char>>,
    ) -> bool {
        true
    }

    /// Whether `out` can be the answer to looking up the variable `key`.
    open spec fn may_get_env(&self, key: Seq<char>, out: Option<Seq<char>>) -> bool {
        true
    }

    /// Whether `out` can be the answer to asking for the host name.
    open spec fn may_get_hostname(&self, out: Result<Seq<char>, Seq<char>>) -> bool {
        true
    }

    /// Whether `out` can be the answer to asking for the kernel identity.
    open spec fn may_uname(&self, out: Result<UtsNameView, Seq<char>>) -> bool {
        true
    }

    /// Reads the whole file at `path` as text.
    fn read_file(&self, path: &str) -> (out: Result<String, IoFailure>)
        ensures
            self.may_read_file(path@, text_answer(out)),
    ;

    /// Runs `program` with `args` and waits for it to end.
    fn execute_command(&self, program: &str, args: &[&str]) -> (out: Result<
        CommandOutput,
        IoFailure,
    >)
        ensures
            self.may_execute(program@, args_view(args), command_answer(out)),
    ;

    /// Looks up the environment variable `key`; absence is no failure.
    fn get_env(&self, key: &str) -> (out: Option<String>)
        ensures
            self.may_get_env(key@, opt_str_view(out)),
    ;

    /// Asks for the host name.
    fn get_hostname(&self) -> (out: Result<String, IoFailure>)
        ensures
            self.may_get_hostname(text_answer(out)),
    ;

    /// Asks for the kernel identity.
    fn uname(&self) -> (out: Result<UtsName, IoFailure>)
        ensures
            self.may_uname(uname_answer(out)),
    ;
}

/// Fixtures looked up by a textual key. A later entry for a key replaces
/// an earlier one.
#[derive(Debug, Clone, PartialEq, Eq)]
pub struct FixtureMap<V> {
    entries: Vec<(String, V)>,
}

/// The map that a list of entries stands for: the last entry of a key wins.
pub open spec fn entries_map<V>(entries: Seq<(String, V)>) -> Map<Seq<char>, V>
    decreases entries.len(),
{
    if entries.len() == 0 {
        Map::empty()
    } else {
        entries_map(entries.drop_last()).insert(entries.last().0@, entries.last().1)
    }
}

impl<V> View for FixtureMap<V> {
    type V = Map<Seq<char>, V>;

    closed spec fn view(&self) -> Map<Seq<char>, V> {
        entries_map(self.entries@)
    }
}

impl<V> FixtureMap<V> {
    /// A map without fixtures.
    pub fn new() -> (m: Self)
        ensures
            m@ == Map::<Seq<char>, V>::empty(),
    {
        FixtureMap { entries: Vec::new() }
    }

    /// Sets the fixture of `key` to `value`.
    pub fn insert(&mut self, key: String, value: V)
        ensures
            final(self)@ == old(self)@.insert(key@, value),
    {
        self.entries.push((key, value));
        proof {
            assert(self.entries@.drop_last() == old(self).entries@);
        }
    }

    /// The fixture of `key`, if there is one.
    pub fn get(&self, key: &str) -> (out: Option<&V>)
        ensures
            match out {
                Some(v) => self@.contains_key(key@) && *v == self@[key@],
                None => !self@.contains_key(key@),
            },
    {
        let k = to_chars(key);
        let mut found: Option<usize> = None;
        let mut i: usize = 0;
        while i < self.entries.len()
            invariant
                i <= self.entries.len(),
                k@ == key@,
                match found {
                    Some(j) => j < i && entries_map(self.entries@.take(i as int)).contains_key(
                        key@,
                    ) && entries_map(self.entries@.take(i as int))[key@] == self.entries@[j as int].1,
                    None => !entries_map(self.entries@.take(i as int)).contains_key(key@),
                },
            decreases self.entries.len() - i,
        {
            proof {
                assert(self.entries@.take(i + 1).drop_last() == self.entries@.take(i as int));
            }
            if chars_eq(&k, self.entries[i].0.as_str()) {
                found = Some(i);
            }
            i += 1;
        }
        proof {
            assert(self.entries@.take(i as int) == self.entries@);
        }
        match found {
            Some(j) => Some(&self.entries[j].1),
            None => None,
        }
    }
}

/// A copy of `o`.
pub fn copy_output(o: &CommandOutput) -> (out: CommandOutput)
    ensures
        out@ == o@,
{
    let stdout = o.stdout.clone();
    let stderr = o.stderr.clone();
    proof {
        assert(stdout@ =~= o.stdout@);
        assert(stderr@ =~= o.stderr@);
    }
    CommandOutput { stdout, stderr, success: o.success }
}

/// A copy of `u`.
pub fn copy_uts(u: &UtsName) -> (out: UtsName)
    ensures
        out@ == u@,
{
    UtsName {
        sysname: u.sysname.clone(),
        nodename: u.nodename.clone(),
        release: u.release.clone(),
        version: u.version.clone(),
        machine: u.machine.clone(),
    }
}

/// A context that answers from fixtures held in memory and touches nothing
/// else. A question without a fixture fails, or, for an environment
/// variable, finds nothing.
#[derive(Debug, Clone)]
pub struct MockSystemContext {
    /// File contents by path.
    pub files: FixtureMap<String>,
    /// Command outputs by program name; the arguments are not looked at.
    pub commands: FixtureMap<CommandOutput>,
    /// Environment variables by name.
    pub env_vars: FixtureMap<String>,
    /// The host name, if one is configured.
    pub hostname: Option<String>,
    /// The kernel identity, if one is configured.
    pub uname_result: Option<UtsName>,
}

impl MockSystemContext {
    /// The one answer to reading the file at `path`.
    pub open spec fn file_answer(&self, path: Seq<char>) -> Result<Seq<char>, Seq<char>> {
        if self.files@.contains_key(path) {
            Ok(self.files@[path]@)
        } else {
            Err("File not found"@)
        }
    }

    /// The one answer to running `program`.
    pub open spec fn command_answer(&self, program: Seq<char>) -> Result<
        CommandOutputView,
        Seq<char>,
    > {
        if self.commands@.contains_key(program) {
            Ok(self.commands@[program]@)
        } else {
            Err("Command not found"@)
        }
    }

    /// The one answer to looking up the variable `key`.
    pub open spec fn env_answer(&self, key: Seq<char>) -> Option<Seq<char>> {
        if self.env_vars@.contains_key(key) {
            Some(self.env_vars@[key]@)
        } else {
            None
        }
    }

    /// The one answer to asking for the host name.
    pub open spec fn hostname_answer(&self) -> Result<Seq<char>, Seq<char>> {
        match self.hostname {
            Some(h) => Ok(h@),
            None => Err("Hostname not set"@),
        }
    }

    /// The one answer to asking for the kernel identity.
    pub open spec fn uname_answer(&self) -> Result<UtsNameView, Seq<char>> {
        match self.uname_result {
            Some(u) => Ok(u@),
            None => Err("Uname not set"@),
        }
    }

    /// Whether the context holds no fixture at all.
    pub open spec fn is_empty(&self) -> bool {
        &&& self.files@ == Map::<Seq<char>, String>::empty()
        &&& self.commands@ == Map::<Seq<char>, CommandOutput>::empty()
        &&& self.env_vars@ == Map::<Seq<char>, String>::empty()
        &&& self.hostname is None
        &&& self.uname_result is None
    }
}

impl Default for MockSystemContext {
    /// A context without fixtures.
    fn default() -> (ctx: Self)
        ensures
            ctx.is_empty(),
    {
        MockSystemContext {
            files: FixtureMap::new(),
            commands: FixtureMap::new(),
            env_vars: FixtureMap::new(),
            hostname: None,
            uname_result: None,
        }
    }
}

impl SystemContext for MockSystemContext {
    open spec fn may_read_file(&self, path: Seq<char>, out: Result<Seq<char>, Seq<char>>) -> bool {
        out == self.file_answer(path)
    }

    open spec fn may_execute(
        &self,
        program: Seq<char>,
        args: Seq<Seq<char>>,
        out: Result<CommandOutputView, Seq<char>>,
    ) -> bool {
        out == self.command_answer(program)
    }

    open spec fn may_get_env(&self, key: Seq<char>, out: Option<Seq<char>>) -> bool {
        out == self.env_answer(key)
    }

    open spec fn may_get_hostname(&self, out: Result<Seq<char>, Seq<char>>) -> bool {
        out == self.hostname_answer()
    }

    open spec fn may_uname(&self, out: Result<UtsNameView, Seq<char>>) -> bool {
        out == self.uname_answer()
    }

    fn read_file(&self, path: &str) -> (out: Result<String, IoFailure>) {
        match self.files.get(path) {
            Some(content) => Ok(content.clone()),
            None => Err(IoFailure { message: "File not found".to_owned() }),
        }
    }

    fn execute_command(&self, program: &str, args: &[&str]) -> (out: Result<
        CommandOutput,
        IoFailure,
    >) {
        match self.commands.get(program) {
            Some(output) => Ok(copy_output(output)),
            None => Err(IoFailure { message: "Command not found".to_owned() }),
        }
    }

    fn get_env(&self, key: &str) -> (out: Option<String>) {
        match self.env_vars.get(key) {
            Some(value) => Some(value.clone()),
            None => None,
        }
    }

    fn get_hostname(&self) -> (out: Result<String, IoFailure>) {
        match &self.hostname {
            Some(name) => Ok(name.clone()),
            None => Err(IoFailure { message: "Hostname not set".to_owned() }),
        }
    }

    fn uname(&self) -> (out: Result<UtsName, IoFailure>) {
        match &self.uname_result {
            Some(identity) => Ok(copy_uts(identity)),
            None => Err(IoFailure { message: "Uname not set".to_owned() }),
        }
    }
}

} // verus!
