use vstd::prelude::*;

use crate::format::same_text;

verus! {

/// Relies on `std::path::Path::exists`; what it answers depends on the file
/// system at the time of the call.
#[verifier::external_body]
fn path_exists(path: &str) -> (r: bool) {
    std::path::Path::new(path).exists()
}

/// Accepts `-` (standard input) or a name that `present` says is a path, and
/// gives it back; refuses any other name.
pub fn accept_input(filename: &str, present: bool) -> (r: Result<String, &'static str>)
    ensures
        (filename@ == "-"@ || present) <==> r is Ok,
        r matches Ok(s) ==> s@ == filename@,
        r matches Err(m) ==> m@ == "Input file does not exist"@,
{
    let name = filename.to_owned();
    if same_text(&name, "-") || present {
        Ok(name)
    } else {
        Err("Input file does not exist")
    }
}

/// Accepts `-` (standard input) or the name of a path that exists, and gives
/// it back; refuses any other name. Whether a path exists is asked of the file
/// system only for a name other than `-`.
pub fn verify_input_file(filename: &str) -> (r: Result<String, &'static str>)
    ensures
        filename@ == "-"@ ==> r is Ok,
        r matches Ok(s) ==> s@ == filename@,
        r matches Err(m) ==> filename@ != "-"@ && m@ == "Input file does not exist"@,
{
    let name = filename.to_owned();
    let present = !same_text(&name, "-") && path_exists(filename);
    accept_input(filename, present)
}

} // verus!
