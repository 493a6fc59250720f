use vstd::prelude::*;

verus! {

use crate::utilities::json::{json_string, json_string_exec};

/// The structured metadata a download call sends: the remote path to fetch.
pub struct DownloadParameters {
    pub path: String,
}

impl DownloadParameters {
    /// The serialized form of these parameters.
    pub open spec fn spec_json(&self) -> Seq<char> {
        "{\"path\":"@ + json_string(self.path@) + "}"@
    }

    pub fn new(path: String) -> (r: Self)
        ensures
            r.path == path,
    {
        DownloadParameters { path }
    }

    /// Serializes the parameters for the request header.
    pub fn to_json(&self) -> (r: String)
        ensures
            r@ == self.spec_json(),
    {
        let r = String::from_str("{\"path\":").concat(
            json_string_exec(self.path.as_str()).as_str(),
        ).concat("}");
        proof {
            assert(r@ =~= self.spec_json());
        }
        r
    }
}

} // verus!
