use vstd::prelude::*;

verus! {

use crate::utilities::json::{json_string, json_string_exec};

/// How the remote side resolves an upload onto an existing path.
#[derive(Clone, Copy, PartialEq, Eq, Structural, Debug)]
pub enum UploadMode {
    Add,
    Overwrite,
    Update,
}

/// The name an upload mode is serialized under.
pub open spec fn spec_mode_name(m: UploadMode) -> Seq<char> {
    match m {
        UploadMode::Add => "Add"@,
        UploadMode::Overwrite => "Overwrite"@,
        UploadMode::Update => "Update"@,
    }
}

/// The structured metadata an upload call sends: the remote path, and the
/// optional conflict mode and rename choice.
pub struct UploadParameters {
    pub path: String,
    pub mode: Option<UploadMode>,
    pub auto_rename: Option<bool>,
}

impl UploadParameters {
    /// The serialized form of the optional conflict mode.
    pub open spec fn spec_mode_part(&self) -> Seq<char> {
        match self.mode {
            Option::None => Seq::empty(),
            Option::Some(m) => ",\"mode\":\""@ + spec_mode_name(m) + "\""@,
        }
    }

    /// The serialized form of the optional rename choice.
    pub open spec fn spec_auto_rename_part(&self) -> Seq<char> {
        match self.auto_rename {
            Option::None => Seq::empty(),
            Option::Some(true) => ",\"auto_rename\":true"@,
            Option::Some(false) => ",\"auto_rename\":false"@,
        }
    }

    /// The serialized form of these parameters; absent fields are left out.
    pub open spec fn spec_json(&self) -> Seq<char> {
        "{\"path\":"@ + json_string(self.path@) + self.spec_mode_part()
            + self.spec_auto_rename_part() + "}"@
    }

    pub fn new(path: String, mode: Option<UploadMode>, auto_rename: Option<bool>) -> (r: Self)
        ensures
            r.path == path,
            r.mode == mode,
            r.auto_rename == auto_rename,
    {
        UploadParameters { path, mode, auto_rename }
    }

    /// Serializes the parameters for the request header.
    pub fn to_json(&self) -> (r: String)
        ensures
            r@ == self.spec_json(),
    {
        let mut r = String::from_str("{\"path\":").concat(
            json_string_exec(self.path.as_str()).as_str(),
        );
        match self.mode {
            Option::None => {},
            Option::Some(UploadMode::Add) => {
                r = r.concat(",\"mode\":\"").concat("Add").concat("\"");
            },
            Option::Some(UploadMode::Overwrite) => {
                r = r.concat(",\"mode\":\"").concat("Overwrite").concat("\"");
            },
            Option::Some(UploadMode::Update) => {
                r = r.concat(",\"mode\":\"").concat("Update").concat("\"");
            },
        }
        proof {
            assert(r@ =~= "{\"path\":"@ + json_string(self.path@) + self.spec_mode_part());
        }
        match self.auto_rename {
            Option::None => {},
            Option::Some(true) => {
                r = r.concat(",\"auto_rename\":true");
            },
            Option::Some(false) => {
                r = r.concat(",\"auto_rename\":false");
            },
        }
        let r = r.concat("}");
        proof {
            assert(r@ =~= self.spec_json());
        }
        r
    }
}

} // verus!
