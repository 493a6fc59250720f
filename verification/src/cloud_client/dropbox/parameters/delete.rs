use vstd::prelude::*;

verus! {

use crate::utilities::json::{json_string, json_string_exec};

/// The structured metadata a delete call sends: the remote path to remove.
pub struct DeleteParameters {
    pub path: String,
}

impl DeleteParameters {
    /// The serialized form of these parameters.
    pub open spec fn spec_json(&self) -> Seq<char> {
        "{\"path\":"@ + json_string(self.path@) + "}"@
    }

    pub fn new(path: String) -> (r: Self)
        ensures
            r.path == path,
    {
        DeleteParameters { path }
    }

    /// Serializes the parameters for the request body.
    pub fn to_json(&self) -> (r: String)
        ensures
            r@ == self.spec_json(),
    {
        let r = String::from_str("{\"path\":").concat(
            json_string_exec(self.path.as_str()).as_str(),
        ).concat("}");
        proof {
            assert(r@ =~= self.spec_json());
        }
        r
    }
}

} // verus!
