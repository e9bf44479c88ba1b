//! Per-request identifiers and the temporary paths derived from them.

use vstd::prelude::*;
use vstd::string::StringExecFns;

verus! {

/// Relies on uuid::Uuid::new_v4 and its default hyphenated text form: a
/// fresh random identifier rendered as 36 characters. Nothing is assumed
/// about which identifier comes back.
#[verifier::external_body]
fn fresh_request_id() -> (r: String)
    ensures
        r@.len() == 36,
{
    uuid::Uuid::new_v4().to_string()
}

/// The temporary input and output files a resize works through, named by one
/// request identifier.
pub fn temp_paths(id: &str) -> (r: (String, String))
    ensures
        r.0@ == "/tmp/input_"@ + id@ + ".mp4"@,
        r.1@ == "/tmp/output_"@ + id@ + ".mp4"@,
{
    let mut input = String::from_str("/tmp/input_");
    input.append(id);
    input.append(".mp4");
    let mut output = String::from_str("/tmp/output_");
    output.append(id);
    output.append(".mp4");
    (input, output)
}

/// Fresh temporary input and output paths for one resize request, named by a
/// random 36-character identifier shared by both.
pub fn fresh_temp_paths() -> (r: (String, String))
    ensures
        exists|id: Seq<char>|
            #![auto]
            id.len() == 36 && r.0@ == "/tmp/input_"@ + id + ".mp4"@ && r.1@ == "/tmp/output_"@
                + id + ".mp4"@,
{
    let id = fresh_request_id();
    let paths = temp_paths(id.as_str());
    proof {
        assert(id@.len() == 36 && paths.0@ == "/tmp/input_"@ + id@ + ".mp4"@ && paths.1@
            == "/tmp/output_"@ + id@ + ".mp4"@);
    }
    paths
}

} // verus!
