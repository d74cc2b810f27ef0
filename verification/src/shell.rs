use vstd::prelude::*;
use vstd::string::*;
use crate::error::Error;

verus! {

/// The interactive shell that runs the commands of a session.
#[derive(Debug)]
pub struct Shell {
    shell: String,
}

/// What a finished process left on its two output streams.
#[derive(Debug)]
pub struct Captured {
    pub stdout: Vec<u8>,
    pub stderr: Vec<u8>,
}

/// The text that lossy UTF-8 decoding makes of a sequence of bytes.
pub uninterp spec fn utf8_lossy(bytes: Seq<u8>) -> Seq<char>;

/// Calls `String::from_utf8_lossy` of std and owns what it returns. The
/// contract only gives that text a name: it is a function of the bytes alone.
#[verifier::external_body]
fn decode_lossy(bytes: &Vec<u8>) -> (text: String)
    ensures
        text@ == utf8_lossy(bytes@),
{
    String::from_utf8_lossy(bytes).into_owned()
}

/// The text of one output stream: nothing for an empty stream, else its
/// lossy decoding.
pub open spec fn stream_text(bytes: Seq<u8>) -> Seq<char> {
    if bytes.len() == 0 {
        Seq::empty()
    } else {
        utf8_lossy(bytes)
    }
}

/// The text of a run: standard output first, standard error behind it.
pub open spec fn captured_text(stdout: Seq<u8>, stderr: Seq<u8>) -> Seq<char> {
    stream_text(stdout) + stream_text(stderr)
}

/// The words that start a command under a shell: the shell itself, the flag
/// that makes it read a command from its arguments, and the command.
pub open spec fn invocation_spec(shell: Seq<char>, cmd: Seq<char>) -> Seq<Seq<char>> {
    seq![shell, "-c"@, cmd]
}

/// The views of a list of strings, in order.
pub open spec fn string_views(words: Seq<String>) -> Seq<Seq<char>> {
    Seq::new(words.len(), |i: int| words[i]@)
}

/// Joins the decoded texts of the two streams of a run.
pub fn combine_output(stdout_text: String, stderr_text: String) -> (text: String)
    ensures
        text@ == stdout_text@ + stderr_text@,
{
    stdout_text.concat(stderr_text.as_str())
}

/// Decodes one output stream.
fn decode_stream(bytes: &Vec<u8>) -> (text: String)
    ensures
        text@ == stream_text(bytes@),
{
    if bytes.len() != 0 {
        decode_lossy(bytes)
    } else {
        String::new()
    }
}

impl View for Shell {
    type V = Seq<char>;

    closed spec fn view(&self) -> Seq<char> {
        self.shell@
    }
}

impl Shell {
    /// Makes the shell from the value of the environment's shell variable:
    /// without a value there is no shell.
    pub fn new(value: Option<String>) -> (result: Result<Shell, Error>)
        ensures
            value.is_none() ==> result matches Err(Error::ShellNotFound),
            value.is_some() ==> result.is_ok() && result.unwrap()@ == value.unwrap()@,
    {
        match value {
            Some(shell) => Ok(Shell { shell }),
            None => Err(Error::ShellNotFound),
        }
    }

    /// The path or name of the shell.
    pub fn get_shell(&self) -> (shell: String)
        ensures
            shell@ == self@,
    {
        self.shell.clone()
    }

    /// The program and arguments that run `cmd` under this shell.
    pub fn invocation(&self, cmd: String) -> (words: Vec<String>)
        ensures
            string_views(words@) == invocation_spec(self@, cmd@),
    {
        let mut words: Vec<String> = Vec::new();
        words.push(self.shell.clone());
        words.push(String::from_str("-c"));
        words.push(cmd);
        assert(string_views(words@) =~= invocation_spec(self@, cmd@));
        words
    }

    /// Turns the end of a run into its text. A process that could not be
    /// started, or whose output could not be captured, is an execution
    /// error; else the text is what both streams held. The shell does not
    /// change.
    pub fn execute(&mut self, captured: Option<Captured>) -> (result: Result<String, Error>)
        ensures
            *final(self) == *old(self),
            captured.is_none() ==> result matches Err(Error::ExecutionError),
            captured.is_some() ==> result.is_ok() && result.unwrap()@ == captured_text(
                captured.unwrap().stdout@,
                captured.unwrap().stderr@,
            ),
    {
        match captured {
            None => Err(Error::ExecutionError),
            Some(output) => {
                let stdout_text = decode_stream(&output.stdout);
                let stderr_text = decode_stream(&output.stderr);
                Ok(combine_output(stdout_text, stderr_text))
            },
        }
    }
}

/// The text of a run, with a failed run counted as one that printed nothing.
pub fn run_shell_command(shell: &mut Shell, captured: Option<Captured>) -> (text: String)
    ensures
        *final(shell) == *old(shell),
        text@ == match captured {
            Some(output) => captured_text(output.stdout@, output.stderr@),
            None => Seq::<char>::empty(),
        },
{
    match shell.execute(captured) {
        Ok(text) => text,
        Err(_) => String::new(),
    }
}

} // verus!
