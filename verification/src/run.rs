use vstd::prelude::*;
use vstd::slice::*;
use vstd::string::*;
use crate::text::same_text;

verus! {

/// Where the script to run comes from.
#[derive(Clone, Debug, PartialEq, Eq)]
pub enum ScriptSource {
    /// The script is read from standard input.
    Stdin,
    /// The script is the file that this name or path leads to.
    File(String),
}

/// Runs a script.
#[derive(Clone, Debug)]
pub struct RunCommand {
    /// Script name or full path to the file to run; a single dash stands for
    /// standard input.
    pub script_path: String,
    /// Arguments to pass to the script.
    pub script_args: Vec<String>,
}

/// Everything about a run that is decided before the script is read.
#[derive(Clone, Debug)]
pub struct RunPlan {
    /// Where the script's text is read from.
    pub source: ScriptSource,
    /// The arguments that the script is given.
    pub script_args: Vec<String>,
    /// Whether the script runs with the just-in-time compiler.
    pub jit_enabled: bool,
}

/// The name under which a script read from standard input shows up in stack
/// traces.
pub open spec fn stdin_display_name() -> Seq<char> {
    "stdin"@
}

/// A value of the JIT setting that switches the compiler off.
pub open spec fn switches_jit_off(setting: Seq<char>) -> bool {
    setting == "0"@ || setting == "false"@ || setting == "off"@
}

/// The compiler is on unless the setting is present and switches it off.
pub open spec fn jit_disabled_by(setting: Option<Seq<char>>) -> bool {
    match setting {
        Some(text) => switches_jit_off(text),
        None => false,
    }
}

/// The JIT setting as a mathematical value.
pub open spec fn setting_view(setting: Option<&str>) -> Option<Seq<char>> {
    match setting {
        Some(text) => Some(text@),
        None => None,
    }
}

/// Whether the user switched the just-in-time compiler off. `setting` is the
/// value of the JIT setting in the environment, if it is set.
pub fn jit_disabled(setting: Option<&str>) -> (disabled: bool)
    ensures
        disabled == jit_disabled_by(setting_view(setting)),
{
    match setting {
        Some(text) => same_text(text, "0") || same_text(text, "false") || same_text(text, "off"),
        None => false,
    }
}

/// The process exit code that stands for a failed run.
pub const EXIT_FAILURE: u8 = 1;

/// The exit code of a run: the status that the script returned, or the failure
/// code if the script ended with an error.
pub fn exit_code<E>(outcome: &Result<u8, E>) -> (code: u8)
    ensures
        code == match *outcome {
            Ok(status) => status,
            Err(_) => EXIT_FAILURE,
        },
{
    match outcome {
        Ok(status) => *status,
        Err(_) => EXIT_FAILURE,
    }
}

impl RunCommand {
    /// The script is to be read from standard input: its path is a single dash.
    pub open spec fn from_stdin(&self) -> bool {
        self.script_path@ == "-"@
    }

    /// Whether the script is read from standard input.
    pub fn reads_stdin(&self) -> (b: bool)
        ensures
            b == self.from_stdin(),
    {
        same_text(self.script_path.as_str(), "-")
    }

    /// Where the script comes from.
    pub fn source(&self) -> (source: ScriptSource)
        ensures
            source == if self.from_stdin() {
                ScriptSource::Stdin
            } else {
                ScriptSource::File(self.script_path)
            },
    {
        if self.reads_stdin() {
            ScriptSource::Stdin
        } else {
            ScriptSource::File(self.script_path.clone())
        }
    }

    /// Decides how the script is run. `jit_setting` is the value of the JIT
    /// setting in the environment, if it is set.
    pub fn plan(self, jit_setting: Option<&str>) -> (plan: RunPlan)
        ensures
            plan.source == if self.from_stdin() {
                ScriptSource::Stdin
            } else {
                ScriptSource::File(self.script_path)
            },
            plan.script_args == self.script_args,
            plan.jit_enabled == !jit_disabled_by(setting_view(jit_setting)),
    {
        let source = self.source();
        RunPlan { source, script_args: self.script_args, jit_enabled: !jit_disabled(jit_setting) }
    }
}

impl ScriptSource {
    /// The name under which the script shows up in stack traces, for a source
    /// that needs no look at the file system to name it.
    pub fn display_name(&self) -> (name: Option<String>)
        ensures
            match *self {
                ScriptSource::Stdin => name matches Some(text) && text@ == stdin_display_name(),
                ScriptSource::File(_) => name is None,
            },
    {
        match self {
            ScriptSource::Stdin => Some("stdin".to_owned()),
            ScriptSource::File(_) => None,
        }
    }
}

/// The text starts with the two characters `#!` of an interpreter line.
pub open spec fn has_shebang(contents: Seq<u8>) -> bool {
    contents.len() >= 2 && contents[0] == 0x23 && contents[1] == 0x21
}

/// The first line feed of `contents` is at `at`.
pub open spec fn first_newline(contents: Seq<u8>, at: int) -> bool {
    &&& 0 <= at < contents.len()
    &&& contents[at] == 0x0a
    &&& forall|j: int| 0 <= j < at ==> contents[j] != 0x0a
}

/// What is left of a script when its interpreter line is taken away: the text
/// from the first line feed on. The line feed stays, so that every line of
/// the script keeps its number.
pub open spec fn without_shebang(contents: Seq<u8>) -> Seq<u8> {
    if has_shebang(contents) && exists|at: int| first_newline(contents, at) {
        let at = choose|at: int| first_newline(contents, at);
        contents.subrange(at, contents.len() as int)
    } else {
        contents
    }
}

/// Where the first line feed of `contents` is, if it has one.
pub fn find_newline(contents: &Vec<u8>) -> (at: Option<usize>)
    ensures
        match at {
            Some(i) => first_newline(contents@, i as int),
            None => forall|j: int| 0 <= j < contents@.len() ==> contents@[j] != 0x0a,
        },
{
    let mut i: usize = 0;
    while i < contents.len()
        invariant
            i <= contents@.len(),
            forall|j: int| 0 <= j < i ==> contents@[j] != 0x0a,
        decreases contents@.len() - i,
    {
        if contents[i] == 0x0a {
            return Some(i);
        }
        i += 1;
    }
    None
}

/// Takes the interpreter line off a script that starts with one. A script
/// without one, and one that is nothing but that line without a line feed, is
/// returned as it is.
pub fn strip_shebang(contents: Vec<u8>) -> (script: Vec<u8>)
    ensures
        script@ == without_shebang(contents@),
{
    if contents.len() >= 2 && contents[0] == 0x23 && contents[1] == 0x21 {
        match find_newline(&contents) {
            Some(at) => {
                proof {
                    let chosen = choose|i: int| first_newline(contents@, i);
                    assert(first_newline(contents@, at as int));
                    assert(chosen == at);
                }
                slice_to_vec(slice_subrange(contents.as_slice(), at, contents.len()))
            },
            None => {
                assert(forall|i: int| !first_newline(contents@, i));
                contents
            },
        }
    } else {
        contents
    }
}

} // verus!
