use vstd::prelude::*;

verus! {

use crate::cloud_client::{
    child_name,
    is_child,
    join_path,
    listing_matches,
    CloudClient,
};
use crate::errors::AppError;

/// The map a sequence of path/content pairs stands for; a later pair wins.
pub open spec fn assoc_map(s: Seq<(String, Vec<u8>)>) -> Map<Seq<char>, Seq<u8>>
    decreases s.len(),
{
    if s.len() == 0 {
        Map::empty()
    } else {
        assoc_map(s.drop_last()).insert(s.last().0@, s.last().1@)
    }
}

/// No path occurs twice in the backing store.
pub open spec fn distinct_keys(s: Seq<(String, Vec<u8>)>) -> bool {
    forall|i: int, j: int| 0 <= i < j < s.len() ==> s[i].0@ != s[j].0@
}

proof fn lemma_assoc_contains(s: Seq<(String, Vec<u8>)>, k: Seq<char>)
    ensures
        assoc_map(s).contains_key(k) <==> exists|i: int| 0 <= i < s.len() && s[i].0@ == k,
    decreases s.len(),
{
    if s.len() > 0 {
        let t = s.drop_last();
        lemma_assoc_contains(t, k);
        if assoc_map(s).contains_key(k) {
            if s.last().0@ == k {
                assert(s[s.len() - 1].0@ == k);
            } else {
                let i = choose|i: int| 0 <= i < t.len() && t[i].0@ == k;
                assert(s[i].0@ == k);
            }
        }
        if exists|i: int| 0 <= i < s.len() && s[i].0@ == k {
            let i = choose|i: int| 0 <= i < s.len() && s[i].0@ == k;
            if i < s.len() - 1 {
                assert(t[i].0@ == k);
            }
        }
    }
}

proof fn lemma_assoc_index(s: Seq<(String, Vec<u8>)>, i: int)
    requires
        distinct_keys(s),
        0 <= i < s.len(),
    ensures
        assoc_map(s).contains_key(s[i].0@),
        assoc_map(s)[s[i].0@] == s[i].1@,
    decreases s.len(),
{
    if i < s.len() - 1 {
        let t = s.drop_last();
        lemma_assoc_index(t, i);
        assert(s.last().0@ != s[i].0@);
    }
}

proof fn lemma_assoc_update(s: Seq<(String, Vec<u8>)>, i: int, p: (String, Vec<u8>))
    requires
        distinct_keys(s),
        0 <= i < s.len(),
        s[i].0@ == p.0@,
    ensures
        assoc_map(s.update(i, p)) == assoc_map(s).insert(p.0@, p.1@),
        distinct_keys(s.update(i, p)),
    decreases s.len(),
{
    let t = s.drop_last();
    if i == s.len() - 1 {
        assert(s.update(i, p).drop_last() =~= t);
        assert(s.update(i, p).last() == p);
        assert(assoc_map(s.update(i, p)) =~= assoc_map(s).insert(p.0@, p.1@));
    } else {
        lemma_assoc_update(t, i, p);
        assert(s.update(i, p).drop_last() =~= t.update(i, p));
        assert(s.update(i, p).last() == s.last());
        assert(s.last().0@ != p.0@);
        assert(assoc_map(s.update(i, p)) =~= assoc_map(s).insert(p.0@, p.1@));
    }
}

proof fn lemma_assoc_remove(s: Seq<(String, Vec<u8>)>, i: int)
    requires
        distinct_keys(s),
        0 <= i < s.len(),
    ensures
        assoc_map(s.remove(i)) == assoc_map(s).remove(s[i].0@),
        distinct_keys(s.remove(i)),
    decreases s.len(),
{
    let t = s.drop_last();
    let k = s[i].0@;
    if i == s.len() - 1 {
        assert(s.remove(i) =~= t);
        lemma_assoc_contains(t, k);
        assert(assoc_map(s.remove(i)) =~= assoc_map(s).remove(k));
    } else {
        lemma_assoc_remove(t, i);
        assert(s.remove(i).drop_last() =~= t.remove(i));
        assert(s.remove(i).last() == s.last());
        assert(s.last().0@ != k);
        assert(assoc_map(s.remove(i)) =~= assoc_map(s).remove(k));
    }
}

fn find_index(files: &Vec<(String, Vec<u8>)>, path: &String) -> (r: Option<usize>)
    ensures
        match r {
            Option::Some(i) => i < files@.len() && files@[i as int].0@ == path@,
            Option::None => forall|i: int| 0 <= i < files@.len() ==> files@[i].0@ != path@,
        },
{
    let n = files.len();
    let mut i: usize = 0;
    while i < n
        invariant
            i <= n,
            n == files@.len(),
            forall|j: int| 0 <= j < i ==> files@[j].0@ != path@,
        decreases n - i,
    {
        if files[i].0 == *path {
            return Option::Some(i);
        }
        i = i + 1;
    }
    Option::None
}

fn store_get<'a>(files: &'a Vec<(String, Vec<u8>)>, path: &String) -> (r: Option<&'a Vec<u8>>)
    requires
        distinct_keys(files@),
    ensures
        r is Some <==> assoc_map(files@).contains_key(path@),
        r matches Some(b) ==> assoc_map(files@)[path@] == b@,
{
    proof {
        lemma_assoc_contains(files@, path@);
    }
    match find_index(files, path) {
        Option::Some(i) => {
            proof {
                lemma_assoc_index(files@, i as int);
            }
            Option::Some(&files[i].1)
        },
        Option::None => Option::None,
    }
}

fn store_put(files: &mut Vec<(String, Vec<u8>)>, path: String, content: Vec<u8>)
    requires
        distinct_keys(old(files)@),
    ensures
        distinct_keys(final(files)@),
        assoc_map(final(files)@) == assoc_map(old(files)@).insert(path@, content@),
{
    match find_index(files, &path) {
        Option::Some(i) => {
            let ghost s = files@;
            files[i] = (path, content);
            proof {
                lemma_assoc_update(s, i as int, final(files)@[i as int]);
                assert(final(files)@ =~= s.update(i as int, final(files)@[i as int]));
            }
        },
        Option::None => {
            let ghost s = files@;
            proof {
                lemma_assoc_contains(s, path@);
            }
            files.push((path, content));
            proof {
                assert(files@.drop_last() =~= s);
                assert(assoc_map(files@) =~= assoc_map(s).insert(
                    files@.last().0@,
                    files@.last().1@,
                ));
            }
        },
    }
}

fn store_remove(files: &mut Vec<(String, Vec<u8>)>, path: &String) -> (r: bool)
    requires
        distinct_keys(old(files)@),
    ensures
        distinct_keys(final(files)@),
        r <==> assoc_map(old(files)@).contains_key(path@),
        r ==> assoc_map(final(files)@) == assoc_map(old(files)@).remove(path@),
        !r ==> final(files)@ == old(files)@,
{
    proof {
        lemma_assoc_contains(files@, path@);
    }
    match find_index(files, path) {
        Option::Some(i) => {
            proof {
                lemma_assoc_remove(files@, i as int);
            }
            files.remove(i);
            true
        },
        Option::None => false,
    }
}

fn is_child_exec(parent: &str, path: &str) -> (b: bool)
    ensures
        b == is_child(parent@, path@),
{
    let plen = parent.unicode_len();
    let klen = path.unicode_len();
    if klen <= plen {
        return false;
    }
    if klen - plen < 2 {
        return false;
    }
    let mut i: usize = 0;
    while i < plen
        invariant
            i <= plen,
            plen == parent@.len(),
            klen == path@.len(),
            klen > plen + 1,
            forall|j: int| 0 <= j < i ==> path@[j] == parent@[j],
        decreases plen - i,
    {
        if path.get_char(i) != parent.get_char(i) {
            proof {
                assert(path@.take(plen as int)[i as int] != parent@[i as int]);
            }
            return false;
        }
        i = i + 1;
    }
    proof {
        assert(path@.take(plen as int) =~= parent@);
    }
    if path.get_char(plen) != '/' {
        return false;
    }
    let mut i: usize = plen + 1;
    while i < klen
        invariant
            plen + 1 <= i <= klen,
            plen == parent@.len(),
            klen == path@.len(),
            klen > plen + 1,
            path@.take(plen as int) == parent@,
            path@[plen as int] == '/',
            forall|j: int| plen + 1 <= j < i ==> path@[j] != '/',
        decreases klen - i,
    {
        if path.get_char(i) == '/' {
            return false;
        }
        i = i + 1;
    }
    true
}

/// One listed name's source: some store entry below `bound` whose path is a
/// direct child of `parent` carrying that name.
pub open spec fn name_sourced(
    files: Seq<(String, Vec<u8>)>,
    parent: Seq<char>,
    name: Seq<char>,
    bound: int,
) -> bool {
    exists|j: int|
        0 <= j < bound && is_child(parent, #[trigger] files[j].0@) && name == child_name(
            parent,
            files[j].0@,
        )
}

proof fn lemma_name_sourced_mono(
    files: Seq<(String, Vec<u8>)>,
    parent: Seq<char>,
    name: Seq<char>,
    b1: int,
    b2: int,
)
    requires
        name_sourced(files, parent, name, b1),
        b1 <= b2,
    ensures
        name_sourced(files, parent, name, b2),
{
    let j = choose|j: int|
        0 <= j < b1 && is_child(parent, #[trigger] files[j].0@) && name == child_name(
            parent,
            files[j].0@,
        );
    assert(0 <= j < b2 && is_child(parent, files[j].0@) && name == child_name(
        parent,
        files[j].0@,
    ));
}

fn list_children(files: &Vec<(String, Vec<u8>)>, parent: &String) -> (r: Vec<String>)
    requires
        distinct_keys(files@),
    ensures
        listing_matches(assoc_map(files@), parent@, r.deep_view()),
{
    let mut out: Vec<String> = Vec::new();
    let n = files.len();
    let mut i: usize = 0;
    while i < n
        invariant
            i <= n,
            n == files@.len(),
            distinct_keys(files@),
            forall|a: int|
                0 <= a < out.deep_view().len() ==> name_sourced(
                    files@,
                    parent@,
                    #[trigger] out.deep_view()[a],
                    i as int,
                ),
            forall|j: int|
                0 <= j < i && is_child(parent@, #[trigger] files@[j].0@) ==> out.deep_view()
                    .contains(child_name(parent@, files@[j].0@)),
            forall|a: int, b: int|
                0 <= a < b < out.deep_view().len() ==> out.deep_view()[a] != out.deep_view()[b],
        decreases n - i,
    {
        let ghost prev = out.deep_view();
        let key = &files[i].0;
        let is_ch = is_child_exec(parent.as_str(), key.as_str());
        if is_ch {
            let plen = parent.unicode_len();
            let klen = key.unicode_len();
            let name = key.as_str().substring_char(plen + 1, klen).to_owned();
            proof {
                assert(name@ == child_name(parent@, key@));
                crate::cloud_client::lemma_join_child_name(parent@, key@);
                if exists|a: int| 0 <= a < prev.len() && prev[a] == name@ {
                    let a = choose|a: int| 0 <= a < prev.len() && prev[a] == name@;
                    assert(name_sourced(files@, parent@, prev[a], i as int));
                    let j = choose|j: int|
                        0 <= j < i && is_child(parent@, #[trigger] files@[j].0@) && prev[a]
                            == child_name(parent@, files@[j].0@);
                    crate::cloud_client::lemma_join_child_name(parent@, files@[j].0@);
                    assert(files@[j].0@ == files@[i as int].0@);
                    assert(false);
                }
            }
            out.push(name);
        }
        i = i + 1;
        proof {
            let li = i as int - 1;
            if is_ch {
                assert(out.deep_view() =~= prev.push(child_name(parent@, files@[li].0@)));
                assert(name_sourced(
                    files@,
                    parent@,
                    out.deep_view()[prev.len() as int],
                    i as int,
                )) by {
                    assert(0 <= li < i as int && is_child(parent@, files@[li].0@)
                        && out.deep_view()[prev.len() as int] == child_name(
                        parent@,
                        files@[li].0@,
                    ));
                }
            }
            assert forall|a: int| 0 <= a < out.deep_view().len() implies name_sourced(
                files@,
                parent@,
                #[trigger] out.deep_view()[a],
                i as int,
            ) by {
                if a < prev.len() {
                    assert(out.deep_view()[a] == prev[a]);
                    lemma_name_sourced_mono(files@, parent@, prev[a], li, i as int);
                } else {
                    assert(a == prev.len());
                }
            }
            assert forall|j: int|
                0 <= j < i && is_child(parent@, #[trigger] files@[j].0@) implies out.deep_view()
                .contains(child_name(parent@, files@[j].0@)) by {
                if j < li {
                    assert(prev.contains(child_name(parent@, files@[j].0@)));
                    let a = choose|a: int|
                        0 <= a < prev.len() && prev[a] == child_name(parent@, files@[j].0@);
                    assert(out.deep_view()[a] == child_name(parent@, files@[j].0@));
                    assert(out.deep_view().contains(child_name(parent@, files@[j].0@)));
                } else {
                    assert(is_ch);
                    assert(out.deep_view()[prev.len() as int] == child_name(
                        parent@,
                        files@[j].0@,
                    ));
                    assert(out.deep_view().contains(child_name(parent@, files@[j].0@)));
                }
            }
            assert forall|a: int, b: int|
                0 <= a < b < out.deep_view().len() implies out.deep_view()[a] != out.deep_view()[b]
                by {
                if b < prev.len() {
                    assert(out.deep_view()[a] == prev[a] && out.deep_view()[b] == prev[b]);
                } else {
                    assert(is_ch);
                    assert(out.deep_view()[a] == prev[a]);
                    assert(out.deep_view()[b] == child_name(parent@, files@[li].0@));
                }
            }
        }
    }
    proof {
        assert forall|a: int| 0 <= a < out.deep_view().len() implies crate::cloud_client::wf_name(
            #[trigger] out.deep_view()[a],
        ) && assoc_map(files@).contains_key(join_path(parent@, out.deep_view()[a])) by {
            assert(name_sourced(files@, parent@, out.deep_view()[a], n as int));
            let j = choose|j: int|
                0 <= j < n && is_child(parent@, #[trigger] files@[j].0@) && out.deep_view()[a]
                    == child_name(parent@, files@[j].0@);
            lemma_assoc_index(files@, j);
            crate::cloud_client::lemma_join_child_name(parent@, files@[j].0@);
        }
        assert forall|p: Seq<char>|
            #[trigger] assoc_map(files@).contains_key(p) && is_child(parent@, p) implies out
            .deep_view().contains(child_name(parent@, p)) by {
            lemma_assoc_contains(files@, p);
            let j = choose|j: int| 0 <= j < files@.len() && files@[j].0@ == p;
            assert(is_child(parent@, files@[j].0@));
        }
    }
    out
}

/// An in-memory storage adapter: the capability contract realized on two
/// plain path-to-content stores. It stands in wherever the executor wants a
/// backend that needs no network: proofs and tests inject it in place of the
/// HTTP-backed adapter.
pub struct InMemoryClient {
    cloud_files: Vec<(String, Vec<u8>)>,
    local_files: Vec<(String, Vec<u8>)>,
}

impl InMemoryClient {
    #[verifier::type_invariant]
    spec fn wf(&self) -> bool {
        distinct_keys(self.cloud_files@) && distinct_keys(self.local_files@)
    }

    /// A client with empty stores on both sides.
    pub fn new() -> (r: InMemoryClient)
        ensures
            r.cloud() == Map::<Seq<char>, Seq<u8>>::empty(),
            r.local() == Map::<Seq<char>, Seq<u8>>::empty(),
    {
        InMemoryClient { cloud_files: Vec::new(), local_files: Vec::new() }
    }

    /// Seeds or overwrites one local file.
    pub fn put_local(&mut self, path: String, content: Vec<u8>)
        ensures
            final(self).local() == old(self).local().insert(path@, content@),
            final(self).cloud() == old(self).cloud(),
    {
        proof {
            use_type_invariant(&*self);
        }
        let mut files: Vec<(String, Vec<u8>)> = Vec::new();
        core::mem::swap(&mut files, &mut self.local_files);
        store_put(&mut files, path, content);
        core::mem::swap(&mut files, &mut self.local_files);
    }

    /// Seeds or overwrites one remote file.
    pub fn put_cloud(&mut self, path: String, content: Vec<u8>)
        ensures
            final(self).cloud() == old(self).cloud().insert(path@, content@),
            final(self).local() == old(self).local(),
    {
        proof {
            use_type_invariant(&*self);
        }
        let mut files: Vec<(String, Vec<u8>)> = Vec::new();
        core::mem::swap(&mut files, &mut self.cloud_files);
        store_put(&mut files, path, content);
        core::mem::swap(&mut files, &mut self.cloud_files);
    }

    /// Reads one local file back.
    pub fn get_local(&self, path: &String) -> (r: Option<&Vec<u8>>)
        ensures
            r is Some <==> self.local().contains_key(path@),
            r matches Some(b) ==> b@ == self.local()[path@],
    {
        proof {
            use_type_invariant(&*self);
        }
        store_get(&self.local_files, path)
    }

    /// Reads one remote file back.
    pub fn get_cloud(&self, path: &String) -> (r: Option<&Vec<u8>>)
        ensures
            r is Some <==> self.cloud().contains_key(path@),
            r matches Some(b) ==> b@ == self.cloud()[path@],
    {
        proof {
            use_type_invariant(&*self);
        }
        store_get(&self.cloud_files, path)
    }
}

impl CloudClient for InMemoryClient {
    closed spec fn cloud(&self) -> Map<Seq<char>, Seq<u8>> {
        assoc_map(self.cloud_files@)
    }

    closed spec fn local(&self) -> Map<Seq<char>, Seq<u8>> {
        assoc_map(self.local_files@)
    }

    fn download(&mut self, from_path: &String, to_path: &String) -> (r: Result<(), AppError>)
        ensures
            r is Ok <==> old(self).cloud().contains_key(from_path@),
    {
        proof {
            use_type_invariant(&*self);
        }
        let content = match store_get(&self.cloud_files, from_path) {
            Option::Some(b) => b.clone(),
            Option::None => {
                return Result::Err(AppError::Request(String::from_str("check your input paths")));
            },
        };
        let mut files: Vec<(String, Vec<u8>)> = Vec::new();
        core::mem::swap(&mut files, &mut self.local_files);
        store_put(&mut files, to_path.clone(), content);
        core::mem::swap(&mut files, &mut self.local_files);
        Result::Ok(())
    }

    fn upload(&mut self, from_path: &String, to_path: &String) -> (r: Result<(), AppError>)
        ensures
            r is Ok <==> old(self).local().contains_key(from_path@),
    {
        proof {
            use_type_invariant(&*self);
        }
        let content = match store_get(&self.local_files, from_path) {
            Option::Some(b) => b.clone(),
            Option::None => {
                return Result::Err(AppError::Io(String::from_str("local file is absent")));
            },
        };
        let mut files: Vec<(String, Vec<u8>)> = Vec::new();
        core::mem::swap(&mut files, &mut self.cloud_files);
        store_put(&mut files, to_path.clone(), content);
        core::mem::swap(&mut files, &mut self.cloud_files);
        Result::Ok(())
    }

    fn delete(&mut self, path: &String) -> (r: Result<(), AppError>)
        ensures
            r is Ok <==> old(self).cloud().contains_key(path@),
    {
        proof {
            use_type_invariant(&*self);
        }
        let mut files: Vec<(String, Vec<u8>)> = Vec::new();
        core::mem::swap(&mut files, &mut self.cloud_files);
        let removed = store_remove(&mut files, path);
        core::mem::swap(&mut files, &mut self.cloud_files);
        if removed {
            Result::Ok(())
        } else {
            Result::Err(AppError::Request(String::from_str("something went wrong")))
        }
    }

    fn list_entries(&mut self, path: &String) -> (r: Result<Vec<String>, AppError>)
        ensures
            r is Ok,
    {
        proof {
            use_type_invariant(&*self);
        }
        Result::Ok(list_children(&self.cloud_files, path))
    }
}

} // verus!
