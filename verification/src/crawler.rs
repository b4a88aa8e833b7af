use vstd::prelude::*;
use crate::text::str_eq;

verus! {

/// Where a game file is found: on disk, or in the archive with this index
/// in the list of archives.
#[derive(Debug, Clone, Copy, PartialEq, Eq, Structural)]
pub enum FileLocation {
    Local,
    Archive(u16),
}

/// What is known of a game file: where it is, and its path as written there.
#[derive(Debug)]
pub struct FileInfo {
    pub location: FileLocation,
    pub original_path: String,
}

/// An entry of an archive: its path in the conventional form that files are
/// looked up by, and its name as the archive writes it.
#[derive(Debug)]
pub struct ArchiveEntry {
    pub path: String,
    pub original_path: String,
}

pub type FileInfoView = (FileLocation, Seq<char>);

/// The path map as pairs of a conventional path and what is known of the file.
pub open spec fn pairs_view(pairs: Seq<(String, FileInfo)>) -> Seq<(Seq<char>, FileInfoView)> {
    pairs.map_values(|p: (String, FileInfo)| (p.0@, (p.1.location, p.1.original_path@)))
}

/// The entries of one archive, each with the archive's index.
pub open spec fn archive_pairs(index: int, entries: Seq<ArchiveEntry>) -> Seq<(Seq<char>, FileInfoView)> {
    entries.map_values(|e: ArchiveEntry| (e.path@, (FileLocation::Archive(index as u16), e.original_path@)))
}

/// The entries of all archives, in the order of the archives and, within
/// one archive, in the archive's order.
pub open spec fn all_pairs(archives: Seq<Vec<ArchiveEntry>>) -> Seq<(Seq<char>, FileInfoView)>
    decreases archives.len(),
{
    if archives.len() == 0 {
        Seq::empty()
    } else {
        all_pairs(archives.drop_last()) + archive_pairs(archives.len() - 1, archives.last()@)
    }
}

/// What the last of the pairs with this path says of its file: a later
/// entry for a path replaces an earlier one, as an insert into a map does.
pub open spec fn last_info(pairs: Seq<(Seq<char>, FileInfoView)>, path: Seq<char>) -> Option<FileInfoView>
    decreases pairs.len(),
{
    if pairs.len() == 0 {
        None
    } else if pairs.last().0 == path {
        Some(pairs.last().1)
    } else {
        last_info(pairs.drop_last(), path)
    }
}

/// No path occurs twice.
pub open spec fn paths_distinct(pairs: Seq<(Seq<char>, FileInfoView)>) -> bool {
    forall|i: int, j: int| 0 <= i < j < pairs.len() ==> pairs[i].0 != pairs[j].0
}

/// In a list without repeated paths, replacing the pair of a path changes
/// what is known of that path alone.
proof fn lemma_last_info_update(
    pairs: Seq<(Seq<char>, FileInfoView)>,
    i: int,
    info: FileInfoView,
    path: Seq<char>,
)
    requires
        paths_distinct(pairs),
        0 <= i < pairs.len(),
    ensures
        last_info(pairs.update(i, (pairs[i].0, info)), path) == if path == pairs[i].0 {
            Some(info)
        } else {
            last_info(pairs, path)
        },
    decreases pairs.len(),
{
    let key = pairs[i].0;
    let updated = pairs.update(i, (key, info));
    if i == pairs.len() - 1 {
        assert(updated.drop_last() == pairs.drop_last());
        if path != key {
            assert(updated.last().0 == key);
        }
    } else {
        let shorter = pairs.drop_last();
        assert(updated.drop_last() == shorter.update(i, (key, info)));
        assert(updated.last() == pairs.last());
        lemma_last_info_update(shorter, i, info, path);
        if path == key {
            assert(pairs.last().0 != key);
        }
    }
}

/// The path map of a game's archives: for each conventional path, the last
/// entry that has it, in the order of the archives, as extending a map with
/// each archive's entries in turn gives. Each path occurs once.
pub fn gather_paths(archives: &Vec<Vec<ArchiveEntry>>) -> (r: Vec<(String, FileInfo)>)
    requires
        archives@.len() <= u16::MAX,
    ensures
        paths_distinct(pairs_view(r@)),
        forall|path: Seq<char>| #[trigger] last_info(pairs_view(r@), path) == last_info(all_pairs(archives@), path),
{
    let mut r: Vec<(String, FileInfo)> = Vec::new();
    let mut a: usize = 0;
    while a < archives.len()
        invariant
            a <= archives@.len() <= u16::MAX,
            paths_distinct(pairs_view(r@)),
            forall|path: Seq<char>| #[trigger] last_info(pairs_view(r@), path) == last_info(all_pairs(archives@.take(a as int)), path),
        decreases archives@.len() - a,
    {
        let entries = &archives[a];
        let ghost before = all_pairs(archives@.take(a as int));
        assert(archives@.take(a + 1).drop_last() == archives@.take(a as int));
        assert(all_pairs(archives@.take(a + 1)) == before + archive_pairs(a as int, entries@));
        let mut e: usize = 0;
        while e < entries.len()
            invariant
                a < archives@.len() <= u16::MAX,
                entries == &archives@[a as int],
                e <= entries@.len(),
                paths_distinct(pairs_view(r@)),
                forall|path: Seq<char>| #[trigger] last_info(pairs_view(r@), path) == last_info(
                    before + archive_pairs(a as int, entries@).take(e as int),
                    path,
                ),
            decreases entries@.len() - e,
        {
            let entry = &entries[e];
            let info = FileInfo { location: FileLocation::Archive(a as u16), original_path: entry.original_path.clone() };
            let ghost done = before + archive_pairs(a as int, entries@).take(e as int);
            let ghost next = before + archive_pairs(a as int, entries@).take(e + 1);
            assert(next.drop_last() == done);
            assert(next.last() == (entry.path@, (info.location, info.original_path@)));
            let ghost old_view = pairs_view(r@);
            let mut i: usize = 0;
            let mut found = false;
            while !found && i < r.len()
                invariant
                    i <= r@.len(),
                    found ==> i < r@.len() && r@[i as int].0@ == entry.path@,
                    forall|k: int| 0 <= k < i ==> r@[k].0@ != entry.path@,
                decreases r@.len() - i + if found { 0int } else { 1int },
            {
                if str_eq(r[i].0.as_str(), entry.path.as_str()) {
                    found = true;
                } else {
                    i = i + 1;
                }
            }
            if found {
                let key = r[i].0.clone();
                r.set(i, (key, info));
                proof {
                    assert(pairs_view(r@) == old_view.update(i as int, (old_view[i as int].0, (info.location, info.original_path@))));
                    assert forall|x: int, y: int| 0 <= x < y < pairs_view(r@).len() implies pairs_view(r@)[x].0 != pairs_view(r@)[y].0 by {
                        assert(pairs_view(r@)[x].0 == old_view[x].0);
                        assert(pairs_view(r@)[y].0 == old_view[y].0);
                    }
                    assert forall|path: Seq<char>| #[trigger] last_info(pairs_view(r@), path) == last_info(next, path) by {
                        lemma_last_info_update(old_view, i as int, (info.location, info.original_path@), path);
                        assert(last_info(old_view, path) == last_info(done, path));
                    }
                }
            } else {
                let key = entry.path.clone();
                r.push((key, info));
                proof {
                    assert(pairs_view(r@) == old_view.push((entry.path@, (info.location, info.original_path@))));
                    assert(pairs_view(r@).drop_last() == old_view);
                    assert forall|x: int, y: int| 0 <= x < y < pairs_view(r@).len() implies pairs_view(r@)[x].0 != pairs_view(r@)[y].0 by {
                        assert(pairs_view(r@)[x] == old_view[x] || x == old_view.len());
                        if y == old_view.len() {
                            assert(old_view[x].0 == r@[x].0@);
                        }
                    }
                    assert forall|path: Seq<char>| #[trigger] last_info(pairs_view(r@), path) == last_info(next, path) by {
                        assert(last_info(old_view, path) == last_info(done, path));
                    }
                }
            }
            e = e + 1;
        }
        assert(archive_pairs(a as int, entries@).take(entries@.len() as int) == archive_pairs(a as int, entries@));
        a = a + 1;
    }
    assert(archives@.take(archives@.len() as int) == archives@);
    r
}

} // verus!
