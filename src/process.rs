//! How one run of the denoising engine is invoked and what its ending means.
use vstd::prelude::*;

verus! {

/// `r` with both sides seen as character sequences.
pub open spec fn text_result(r: Result<String, String>) -> Result<Seq<char>, Seq<char>> {
    match r {
        Ok(s) => Ok(s@),
        Err(e) => Err(e@),
    }
}

/// The message given where the engine exits unsuccessfully.
pub open spec fn engine_failed_message() -> Seq<char> {
    "DeepFilterNet failed to process the file"@
}

/// The message given where the engine could not be started, for the
/// system's reason `reason`.
pub open spec fn spawn_failed_message(reason: Seq<char>) -> Seq<char> {
    "Failed to run AI engine: "@ + reason
}

/// What a run of the engine comes to: the output path where it exited
/// successfully (`Ok(true)`), a failure where it exited otherwise
/// (`Ok(false)`), and the reason it could not be started (`Err`).
pub open spec fn processing_outcome(output_path: Seq<char>, exit: Result<bool, Seq<char>>) -> Result<
    Seq<char>,
    Seq<char>,
> {
    match exit {
        Ok(true) => Ok(output_path),
        Ok(false) => Err(engine_failed_message()),
        Err(reason) => Err(spawn_failed_message(reason)),
    }
}

/// The arguments the engine is started with: the input file, then `-o` and
/// the directory to write into.
pub fn engine_arguments(input: &str, output_dir: &str) -> (r: Vec<String>)
    ensures
        r@.len() == 3,
        r@[0]@ == input@,
        r@[1]@ == "-o"@,
        r@[2]@ == output_dir@,
{
    let mut args: Vec<String> = Vec::new();
    args.push(String::from_str(input));
    args.push(String::from_str("-o"));
    args.push(String::from_str(output_dir));
    args
}

/// Maps how the engine ended to the result shown to the user.
pub fn processing_result(output_path: String, exit: Result<bool, String>) -> (r: Result<
    String,
    String,
>)
    ensures
        text_result(r) == processing_outcome(
            output_path@,
            match exit {
                Ok(b) => Ok(b),
                Err(e) => Err(e@),
            },
        ),
{
    match exit {
        Ok(true) => Ok(output_path),
        Ok(false) => Err(String::from_str("DeepFilterNet failed to process the file")),
        Err(reason) => Err(String::from_str("Failed to run AI engine: ").concat(reason.as_str())),
    }
}

} // verus!
