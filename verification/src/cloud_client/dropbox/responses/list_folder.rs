use vstd::prelude::*;

verus! {

use crate::cloud_client::dropbox::entities::metadata::{
    decode_metadata,
    spec_decode_metadata,
    Metadata,
    MetadataModel,
    RawEntry,
    RawEntryModel,
    Tag,
};

/// One listing page as the payload spells it: the raw entries, the
/// continuation cursor, and whether more pages exist.
pub struct RawListing {
    pub entries: Vec<RawEntry>,
    pub cursor: String,
    pub has_more: bool,
}

/// The mathematical shape of a raw listing page.
pub struct RawListingModel {
    pub entries: Seq<RawEntryModel>,
    pub cursor: Seq<char>,
    pub has_more: bool,
}

impl View for RawListing {
    type V = RawListingModel;

    open spec fn view(&self) -> RawListingModel {
        RawListingModel {
            entries: self.entries.deep_view(),
            cursor: self.cursor@,
            has_more: self.has_more,
        }
    }
}

/// What a listing payload text spells: the raw page, where the text is a
/// JSON object with an `"entries"` array of objects (each with string fields
/// `".tag"` and `"name"`), a string `"cursor"` and a boolean `"has_more"`;
/// nothing, where the text is not shaped so. Other fields are ignored. The
/// result depends on the text alone.
pub uninterp spec fn spec_listing_payload(s: Seq<char>) -> Option<RawListingModel>;

/// Relies on serde_json — `from_str::<Value>`, `Value::get`, `Value::as_array`,
/// `Value::as_str`, `Value::as_bool` — to read a listing payload: the
/// `"entries"` array with each element's `".tag"` and `"name"` strings, the
/// `"cursor"` string and the `"has_more"` boolean. The result is a function
/// of the text alone, named by `spec_listing_payload`.
#[verifier::external_body]
fn parse_listing_payload(s: &str) -> (r: Option<RawListing>)
    ensures
        match r {
            Some(l) => spec_listing_payload(s@) == Some(l@),
            None => spec_listing_payload(s@) is None,
        },
{
    let v: serde_json::Value = serde_json::from_str(s).ok()?;
    let mut entries = Vec::new();
    for e in v.get("entries")?.as_array()? {
        entries.push(RawEntry {
            tag_word: e.get(".tag")?.as_str()?.to_owned(),
            name: e.get("name")?.as_str()?.to_owned(),
        });
    }
    Some(RawListing {
        entries,
        cursor: v.get("cursor")?.as_str()?.to_owned(),
        has_more: v.get("has_more")?.as_bool()?,
    })
}

/// One page of a remote folder listing: the decoded entries, the continuation
/// cursor, and whether more pages exist. Only this first page is ever
/// materialized; the cursor is not followed.
pub struct ListFolderResult {
    pub entries: Vec<Metadata>,
    pub cursor: String,
    pub has_more: bool,
}

/// What a sequence of raw entries decodes to: every entry must decode, in
/// order; one unknown tag word spoils the whole sequence.
pub open spec fn spec_decode_entries(es: Seq<RawEntryModel>) -> Option<Seq<MetadataModel>>
    decreases es.len(),
{
    if es.len() == 0 {
        Option::Some(Seq::empty())
    } else {
        match spec_decode_entries(es.drop_last()) {
            Option::Some(ms) => match spec_decode_metadata(es.last()) {
                Option::Some(m) => Option::Some(ms.push(m)),
                Option::None => Option::None,
            },
            Option::None => Option::None,
        }
    }
}

proof fn lemma_decode_entries_some(es: Seq<RawEntryModel>)
    requires
        spec_decode_entries(es) is Some,
    ensures
        forall|i: int| 0 <= i < es.len() ==> spec_decode_metadata(#[trigger] es[i]) is Some,
    decreases es.len(),
{
    if es.len() > 0 {
        lemma_decode_entries_some(es.drop_last());
        assert forall|i: int| 0 <= i < es.len() implies spec_decode_metadata(
            #[trigger] es[i],
        ) is Some by {
            if i < es.len() - 1 {
                assert(es.drop_last()[i] == es[i]);
            }
        }
    }
}

/// Decodes one raw listing page: every raw entry must decode; the cursor and
/// the has-more flag are carried over.
pub fn decode_list_folder(raw: &RawListing) -> (r: Option<ListFolderResult>)
    ensures
        match r {
            Some(l) => spec_decode_entries(raw@.entries) == Some(l.entries.deep_view())
                && l.cursor == raw.cursor && l.has_more == raw.has_more,
            None => spec_decode_entries(raw@.entries) is None,
        },
{
    let mut entries: Vec<Metadata> = Vec::new();
    let n = raw.entries.len();
    let mut i: usize = 0;
    while i < n
        invariant
            i <= n,
            n == raw.entries@.len(),
            spec_decode_entries(raw.entries.deep_view().take(i as int)) == Some(
                entries.deep_view(),
            ),
        decreases n - i,
    {
        let ghost prev = entries.deep_view();
        let m = match decode_metadata(&raw.entries[i]) {
            Option::Some(m) => m,
            Option::None => {
                proof {
                    if spec_decode_entries(raw.entries.deep_view()) is Some {
                        lemma_decode_entries_some(raw.entries.deep_view());
                        assert(spec_decode_metadata(raw.entries.deep_view()[i as int]) is Some);
                        assert(false);
                    }
                }
                return Option::None;
            },
        };
        let ghost gm = m@;
        entries.push(m);
        i = i + 1;
        proof {
            let t = raw.entries.deep_view().take(i as int);
            assert(t.drop_last() =~= raw.entries.deep_view().take(i as int - 1));
            assert(t.last() == raw.entries@[i as int - 1].deep_view());
            assert(entries.deep_view() =~= prev.push(gm));
            assert(spec_decode_entries(t) == Some(entries.deep_view()));
        }
    }
    proof {
        assert(raw.entries.deep_view().take(n as int) =~= raw.entries.deep_view());
    }
    Option::Some(
        ListFolderResult { entries, cursor: raw.cursor.clone(), has_more: raw.has_more },
    )
}

/// The names a listing materializes: entries tagged `Deleted` are left out,
/// and a `Folder` entry's name carries a trailing separator.
pub open spec fn spec_simple_list(es: Seq<MetadataModel>) -> Seq<Seq<char>>
    decreases es.len(),
{
    if es.len() == 0 {
        Seq::empty()
    } else {
        let rest = spec_simple_list(es.drop_last());
        let e = es.last();
        match e.tag {
            Tag::Deleted => rest,
            Tag::Folder => rest.push(e.name + seq!['/']),
            Tag::File => rest.push(e.name),
        }
    }
}

/// What a listing payload text materializes to: its raw page decoded, then
/// filtered and formatted; nothing, where the text is not a well-shaped page
/// or one of its tag words is unknown.
pub open spec fn spec_listing_names(s: Seq<char>) -> Option<Seq<Seq<char>>> {
    match spec_listing_payload(s) {
        Option::Some(raw) => match spec_decode_entries(raw.entries) {
            Option::Some(ms) => Option::Some(spec_simple_list(ms)),
            Option::None => Option::None,
        },
        Option::None => Option::None,
    }
}

/// Decodes a listing payload text into its materialized page, if the text is
/// well-shaped.
pub fn decode_listing_text(body: &str) -> (r: Option<ListFolderResult>)
    ensures
        match r {
            Some(l) => spec_listing_payload(body@) matches Some(raw) && spec_decode_entries(
                raw.entries,
            ) == Some(l.entries.deep_view()) && l.cursor@ == raw.cursor && l.has_more
                == raw.has_more,
            None => spec_listing_names(body@) is None,
        },
{
    let raw = match parse_listing_payload(body) {
        Option::Some(raw) => raw,
        Option::None => {
            return Option::None;
        },
    };
    decode_list_folder(&raw)
}

impl ListFolderResult {
    /// Materializes the listing: deleted entries are excluded and folder
    /// names get a trailing separator, in entry order.
    pub fn get_simple_list(&self) -> (r: Vec<String>)
        ensures
            r.deep_view() == spec_simple_list(self.entries.deep_view()),
    {
        let mut out: Vec<String> = Vec::new();
        let n = self.entries.len();
        let mut i: usize = 0;
        while i < n
            invariant
                i <= n,
                n == self.entries@.len(),
                out.deep_view() == spec_simple_list(self.entries.deep_view().take(i as int)),
            decreases n - i,
        {
            let ghost prev = out.deep_view();
            let e = &self.entries[i];
            match e.tag {
                Tag::Deleted => {},
                Tag::Folder => {
                    out.push(e.name.clone().concat("/"));
                },
                Tag::File => {
                    out.push(e.name.clone());
                },
            }
            i = i + 1;
            proof {
                let t = self.entries.deep_view().take(i as int);
                assert(t.drop_last() =~= self.entries.deep_view().take(i as int - 1));
                assert(t.last() == self.entries@[i as int - 1]@);
                reveal_strlit("/");
                assert("/"@ =~= seq!['/']);
                assert(out.deep_view() =~= spec_simple_list(t));
            }
        }
        proof {
            assert(self.entries.deep_view().take(n as int) =~= self.entries.deep_view());
        }
        out
    }
}

} // verus!
