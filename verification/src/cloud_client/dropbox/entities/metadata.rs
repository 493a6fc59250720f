use vstd::prelude::*;

verus! {

/// The kind tag a remote directory entry carries.
#[derive(Clone, Copy, PartialEq, Eq, Structural, Debug)]
pub enum Tag {
    File,
    Folder,
    Deleted,
}

/// One remote directory entry: its kind tag and its bare name, before any
/// filtering or formatting.
pub struct Metadata {
    pub tag: Tag,
    pub name: String,
}

/// The mathematical shape of an entry: the tag and the name's characters.
pub struct MetadataModel {
    pub tag: Tag,
    pub name: Seq<char>,
}

impl View for Metadata {
    type V = MetadataModel;

    open spec fn view(&self) -> MetadataModel {
        MetadataModel { tag: self.tag, name: self.name@ }
    }
}

impl DeepView for Metadata {
    type V = MetadataModel;

    open spec fn deep_view(&self) -> MetadataModel {
        self.view()
    }
}

/// One directory entry as the payload spells it: the raw tag word and the
/// entry name, before the tag word is interpreted.
pub struct RawEntry {
    pub tag_word: String,
    pub name: String,
}

/// The mathematical shape of a raw entry.
pub struct RawEntryModel {
    pub tag_word: Seq<char>,
    pub name: Seq<char>,
}

impl View for RawEntry {
    type V = RawEntryModel;

    open spec fn view(&self) -> RawEntryModel {
        RawEntryModel { tag_word: self.tag_word@, name: self.name@ }
    }
}

impl DeepView for RawEntry {
    type V = RawEntryModel;

    open spec fn deep_view(&self) -> RawEntryModel {
        self.view()
    }
}

/// The tag a payload spells with the given word, if any.
pub open spec fn spec_tag_of(s: Seq<char>) -> Option<Tag> {
    if s == "file"@ {
        Option::Some(Tag::File)
    } else if s == "folder"@ {
        Option::Some(Tag::Folder)
    } else if s == "deleted"@ {
        Option::Some(Tag::Deleted)
    } else {
        Option::None
    }
}

/// What one raw entry decodes to: its tag word must spell a known tag, and
/// the name is carried over verbatim; an unknown tag word decodes to nothing.
pub open spec fn spec_decode_metadata(e: RawEntryModel) -> Option<MetadataModel> {
    match spec_tag_of(e.tag_word) {
        Option::Some(t) => Option::Some(MetadataModel { tag: t, name: e.name }),
        Option::None => Option::None,
    }
}

/// Reads a tag from the word a payload spells it with.
pub fn tag_from_str(s: &String) -> (r: Option<Tag>)
    ensures
        r == spec_tag_of(s@),
{
    if *s == String::from_str("file") {
        Option::Some(Tag::File)
    } else if *s == String::from_str("folder") {
        Option::Some(Tag::Folder)
    } else if *s == String::from_str("deleted") {
        Option::Some(Tag::Deleted)
    } else {
        Option::None
    }
}

/// Decodes one raw directory entry.
pub fn decode_metadata(e: &RawEntry) -> (r: Option<Metadata>)
    ensures
        match r {
            Some(m) => spec_decode_metadata(e@) == Some(m@),
            None => spec_decode_metadata(e@) is None,
        },
{
    match tag_from_str(&e.tag_word) {
        Option::Some(tag) => Option::Some(Metadata { tag, name: e.name.clone() }),
        Option::None => Option::None,
    }
}

} // verus!
