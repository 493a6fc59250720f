use vstd::prelude::*;

verus! {

/// The fixed endpoint each capability call posts to.
pub enum ApiUrl {
    Download,
    Upload,
    Delete,
    ListFolder,
}

impl ApiUrl {
    /// The endpoint address as a character sequence.
    pub open spec fn spec_url(&self) -> Seq<char> {
        match self {
            ApiUrl::Download => "https://content.dropboxapi.com/2/files/download"@,
            ApiUrl::Upload => "https://content.dropboxapi.com/2/files/upload"@,
            ApiUrl::Delete => "https://api.dropboxapi.com/2/files/delete_v2"@,
            ApiUrl::ListFolder => "https://api.dropboxapi.com/2/files/list_folder"@,
        }
    }

    /// The endpoint address of this operation.
    pub fn as_url(&self) -> (r: &'static str)
        ensures
            r@ == self.spec_url(),
    {
        match self {
            ApiUrl::Download => "https://content.dropboxapi.com/2/files/download",
            ApiUrl::Upload => "https://content.dropboxapi.com/2/files/upload",
            ApiUrl::Delete => "https://api.dropboxapi.com/2/files/delete_v2",
            ApiUrl::ListFolder => "https://api.dropboxapi.com/2/files/list_folder",
        }
    }
}

} // verus!
