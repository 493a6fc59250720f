use vstd::prelude::*;

verus! {

use crate::utilities::json::{json_string, json_string_exec};
use crate::utilities::strings::{i32_dec, spec_idec};

/// The structured metadata a listing call sends: the remote folder, and a
/// bound on how many entries one page may hold.
pub struct ListFolderParameters {
    pub path: String,
    pub limit: Option<i32>,
}

impl ListFolderParameters {
    /// The serialized form of these parameters; the bound is left out when
    /// absent.
    pub open spec fn spec_json(&self) -> Seq<char> {
        match self.limit {
            Option::None => "{\"path\":"@ + json_string(self.path@) + "}"@,
            Option::Some(l) => "{\"path\":"@ + json_string(self.path@) + ",\"limit\":"@
                + spec_idec(l as int) + "}"@,
        }
    }

    pub fn new(path: String, limit: Option<i32>) -> (r: Self)
        ensures
            r.path == path,
            r.limit == limit,
    {
        ListFolderParameters { path, limit }
    }

    /// Serializes the parameters for the request body.
    pub fn to_json(&self) -> (r: String)
        ensures
            r@ == self.spec_json(),
    {
        let mut r = String::from_str("{\"path\":").concat(
            json_string_exec(self.path.as_str()).as_str(),
        );
        if let Option::Some(l) = self.limit {
            r = r.concat(",\"limit\":").concat(i32_dec(l).as_str());
        }
        let r = r.concat("}");
        proof {
            assert(r@ =~= self.spec_json());
        }
        r
    }
}

} // verus!
