use vstd::prelude::*;
use vstd::string::*;
use crate::text::texts;

verus! {

/// What a finished command left behind: whether it ended with success, and
/// what it wrote to its two streams.
#[derive(Debug)]
pub struct CommandOutput {
    pub success: bool,
    pub stdout: Vec<u8>,
    pub stderr: Vec<u8>,
}

/// The text that `String::from_utf8_lossy` makes of `bytes`.
pub uninterp spec fn lossy_text(bytes: Seq<u8>) -> Seq<char>;

/// Calls `String::from_utf8_lossy` and takes the text as a `String`. The
/// contract claims only that the text is a function of the bytes.
#[verifier::external_body]
fn lossy(bytes: &[u8]) -> (r: String)
    ensures
        r@ == lossy_text(bytes@),
{
    String::from_utf8_lossy(bytes).into_owned()
}

/// The words to start so that the shell runs `command`: `sh -c <command>`.
pub fn shell_command(command: &str) -> (r: Vec<String>)
    ensures
        texts(r@) == seq!["sh"@, "-c"@, command@],
{
    let mut words: Vec<String> = Vec::new();
    words.push(String::from_str("sh"));
    words.push(String::from_str("-c"));
    words.push(String::from_str(command));
    words
}

/// What a command is taken to have said: what it wrote to standard output
/// where it succeeded, and as an error what it wrote to standard error where
/// it did not.
pub fn command_result(success: bool, stdout: String, stderr: String) -> (r: Result<String, String>)
    ensures
        success ==> r == Ok::<String, String>(stdout),
        !success ==> r == Err::<String, String>(stderr),
{
    if success {
        Ok(stdout)
    } else {
        Err(stderr)
    }
}

/// Reads the outcome of a command that the shell has run: the text of its
/// standard output where it succeeded, else the text of its standard error, as
/// an error. Bytes that are no UTF-8 are replaced as `String::from_utf8_lossy`
/// replaces them.
pub fn run_command(output: &CommandOutput) -> (r: Result<String, String>)
    ensures
        match r {
            Ok(text) => output.success && text@ == lossy_text(output.stdout@),
            Err(text) => !output.success && text@ == lossy_text(output.stderr@),
        },
{
    command_result(output.success, lossy(output.stdout.as_slice()), lossy(output.stderr.as_slice()))
}

} // verus!
