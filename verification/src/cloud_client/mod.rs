pub mod dropbox;
pub mod memory;

use vstd::prelude::*;

verus! {

use crate::errors::AppError;

/// A well-formed entry name: non-empty and free of the path separator.
pub open spec fn wf_name(name: Seq<char>) -> bool {
    name.len() > 0 && (forall|i: int| 0 <= i < name.len() ==> name[i] != '/')
}

/// The full path of the entry `name` directly under `parent`.
pub open spec fn join_path(parent: Seq<char>, name: Seq<char>) -> Seq<char> {
    parent + seq!['/'] + name
}

/// Whether `path` lies directly under `parent`.
pub open spec fn is_child(parent: Seq<char>, path: Seq<char>) -> bool {
    path.len() > parent.len() + 1 && path.take(parent.len() as int) == parent && path[parent.len() as int]
        == '/' && (forall|i: int| parent.len() + 1 <= i < path.len() ==> path[i] != '/')
}

/// The entry name of a direct child `path` of `parent`.
pub open spec fn child_name(parent: Seq<char>, path: Seq<char>) -> Seq<char> {
    path.skip(parent.len() as int + 1)
}

/// What a correct listing of `parent` holds: a well-formed name for a stored
/// direct child each, every direct child named, and no name twice. The order
/// is the store's to choose.
pub open spec fn listing_matches(
    store: Map<Seq<char>, Seq<u8>>,
    parent: Seq<char>,
    names: Seq<Seq<char>>,
) -> bool {
    &&& (forall|i: int|
        0 <= i < names.len() ==> wf_name(#[trigger] names[i]) && store.contains_key(
            join_path(parent, names[i]),
        ))
    &&& (forall|p: Seq<char>|
        #[trigger] store.contains_key(p) && is_child(parent, p) ==> names.contains(
            child_name(parent, p),
        ))
    &&& (forall|i: int, j: int| 0 <= i < j < names.len() ==> names[i] != names[j])
}

/// The remote store after an upload of local content at `from` to `to`.
pub open spec fn upload_effect(
    cloud: Map<Seq<char>, Seq<u8>>,
    local: Map<Seq<char>, Seq<u8>>,
    from: Seq<char>,
    to: Seq<char>,
) -> Map<Seq<char>, Seq<u8>> {
    cloud.insert(to, local[from])
}

/// The local files after a download of remote content at `from` to `to`.
pub open spec fn download_effect(
    cloud: Map<Seq<char>, Seq<u8>>,
    local: Map<Seq<char>, Seq<u8>>,
    from: Seq<char>,
    to: Seq<char>,
) -> Map<Seq<char>, Seq<u8>> {
    local.insert(to, cloud[from])
}

/// The storage capability every backend adapter offers the executor. Each
/// operation is synchronous and answers with a result or a typed error.
///
/// An adapter models the remote store and the local files it touches as two
/// path-to-content maps; each contract states the operation's whole effect on
/// them, and nothing promises that an operation succeeds, since the remote
/// side has its say.
pub trait CloudClient: Sized {
    /// The remote store as this adapter sees it. An adapter that keeps no
    /// model (the live transport) leaves the default, about which nothing is
    /// ever proved.
    open spec fn cloud(&self) -> Map<Seq<char>, Seq<u8>> {
        Map::empty()
    }

    /// The local files as this adapter sees them.
    open spec fn local(&self) -> Map<Seq<char>, Seq<u8>> {
        Map::empty()
    }

    /// Fetches remote content and writes it to the local path, overwriting
    /// whatever was there.
    fn download(&mut self, from_path: &String, to_path: &String) -> (r: Result<(), AppError>)
        ensures
            final(self).cloud() == old(self).cloud(),
            r is Ok ==> old(self).cloud().contains_key(from_path@) && final(self).local()
                == download_effect(old(self).cloud(), old(self).local(), from_path@, to_path@),
            r is Err ==> final(self).local() == old(self).local(),
    ;

    /// Reads the local content in full and transmits it to the remote path.
    fn upload(&mut self, from_path: &String, to_path: &String) -> (r: Result<(), AppError>)
        ensures
            final(self).local() == old(self).local(),
            r is Ok ==> old(self).local().contains_key(from_path@) && final(self).cloud()
                == upload_effect(old(self).cloud(), old(self).local(), from_path@, to_path@),
            r is Err ==> final(self).cloud() == old(self).cloud(),
    ;

    /// Removes the remote path from the store.
    fn delete(&mut self, path: &String) -> (r: Result<(), AppError>)
        ensures
            final(self).local() == old(self).local(),
            r is Ok ==> final(self).cloud() == old(self).cloud().remove(path@),
            r is Err ==> final(self).cloud() == old(self).cloud(),
    ;

    /// Lists the direct children of the remote path: one entry name each,
    /// folders suffixed with a separator, tombstoned entries excluded.
    fn list_entries(&mut self, path: &String) -> (r: Result<Vec<String>, AppError>)
        ensures
            final(self).cloud() == old(self).cloud(),
            final(self).local() == old(self).local(),
            r matches Ok(v) ==> listing_matches(final(self).cloud(), path@, v.deep_view()),
    ;
}

/// Joining a parent with the name of one of its direct children gives back
/// the child, and that name is well-formed.
pub proof fn lemma_join_child_name(parent: Seq<char>, path: Seq<char>)
    requires
        is_child(parent, path),
    ensures
        join_path(parent, child_name(parent, path)) == path,
        wf_name(child_name(parent, path)),
{
    assert(join_path(parent, child_name(parent, path)) =~= path);
    assert forall|i: int| 0 <= i < child_name(parent, path).len() implies child_name(
        parent,
        path,
    )[i] != '/' by {
        assert(child_name(parent, path)[i] == path[parent.len() + 1 + i]);
    }
}

/// Uploading known content to a remote path and then downloading that path
/// hands back the identical byte sequence.
pub proof fn lemma_upload_download_round_trip(
    cloud: Map<Seq<char>, Seq<u8>>,
    local: Map<Seq<char>, Seq<u8>>,
    from: Seq<char>,
    remote: Seq<char>,
    to: Seq<char>,
)
    requires
        local.contains_key(from),
    ensures
        ({
            let cloud_after = upload_effect(cloud, local, from, remote);
            download_effect(cloud_after, local, remote, to)[to] == local[from]
        }),
{
}

/// After a delete of a direct child succeeds, a listing of its parent no
/// longer holds the child's name.
pub proof fn lemma_delete_removes_from_listing(
    cloud: Map<Seq<char>, Seq<u8>>,
    parent: Seq<char>,
    path: Seq<char>,
    names: Seq<Seq<char>>,
)
    requires
        is_child(parent, path),
        listing_matches(cloud.remove(path), parent, names),
    ensures
        !names.contains(child_name(parent, path)),
{
    if names.contains(child_name(parent, path)) {
        let i = choose|i: int| 0 <= i < names.len() && names[i] == child_name(parent, path);
        lemma_join_child_name(parent, path);
        assert(cloud.remove(path).contains_key(join_path(parent, names[i])));
        assert(false);
    }
}

} // verus!
