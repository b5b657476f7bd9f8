//! What becomes of the driver's answer to the request for an instance.

use vstd::prelude::*;
use vstd::string::StringExecFns;

verus! {

/// The diagnostic the program stops with when no instance could be
/// created: a fixed text, then what the driver said.
pub open spec fn instance_failure(error: Seq<char>) -> Seq<char> {
    "Could not create an Instance.: "@ + error
}

/// Decides what follows the one request for an instance. An instance is
/// handed on as it came. A refusal is final: it becomes the diagnostic to
/// stop with, and nothing is asked of the driver again.
pub fn instance_or_diagnostic<I>(answer: Result<I, String>) -> (outcome: Result<I, String>)
    ensures
        outcome is Ok <==> answer is Ok,
        match answer {
            Ok(i) => outcome == Ok::<I, String>(i),
            Err(e) => outcome is Err && outcome->Err_0@ == instance_failure(e@),
        },
{
    match answer {
        Ok(instance) => Ok(instance),
        Err(error) => {
            let mut text = String::from_str("Could not create an Instance.: ");
            text.append(error.as_str());
            Err(text)
        },
    }
}

/// The diagnostic holds the driver's error whole: what follows the fixed
/// text is the error, character for character.
pub proof fn lemma_failure_keeps_error(error: Seq<char>)
    ensures
        instance_failure(error).len() == "Could not create an Instance.: "@.len() + error.len(),
        instance_failure(error).subrange(
            "Could not create an Instance.: "@.len() as int,
            instance_failure(error).len() as int,
        ) == error,
{
    let head = "Could not create an Instance.: "@;
    assert(instance_failure(error).subrange(
        head.len() as int,
        instance_failure(error).len() as int,
    ) =~= error);
}

} // verus!
