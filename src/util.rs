//! General purpose utilities.
use vstd::prelude::*;
use vstd::string::StringExecFns;

verus! {

/// The scratch directory where intermediate results are written.
pub fn temp_dir() -> (r: String)
    ensures
        r@ == "/tmp/medo"@,
{
    String::from_str("/tmp/medo")
}

} // verus!
