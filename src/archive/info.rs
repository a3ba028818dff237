use crate::registry::id::ascii_lower;
use crate::registry::model::same_str;
use vstd::prelude::*;

verus! {

/// The views of a sequence of strings.
pub open spec fn views(s: Seq<String>) -> Seq<Seq<char>> {
    s.map_values(|x: String| x@)
}

/// The extensions of a count table, in order.
pub open spec fn ext_keys(c: Seq<(String, usize)>) -> Seq<Seq<char>> {
    c.map_values(|e: (String, usize)| e.0@)
}

/// How many files the count table records under extension `k`.
pub open spec fn ext_count(c: Seq<(String, usize)>, k: Seq<char>) -> nat
    decreases c.len(),
{
    if c.len() == 0 {
        0
    } else {
        (if c.last().0@ == k {
            c.last().1 as nat
        } else {
            0
        }) + ext_count(c.drop_last(), k)
    }
}

proof fn lemma_ext_count_absent(c: Seq<(String, usize)>, k: Seq<char>)
    requires
        !ext_keys(c).contains(k),
    ensures
        ext_count(c, k) == 0,
    decreases c.len(),
{
    if c.len() > 0 {
        assert(ext_keys(c)[c.len() - 1] == c.last().0@);
        assert(ext_keys(c.drop_last()) =~= ext_keys(c).drop_last());
        lemma_ext_count_absent(c.drop_last(), k);
    }
}

proof fn lemma_ext_count_at(c: Seq<(String, usize)>, i: int)
    requires
        ext_keys(c).no_duplicates(),
        0 <= i < c.len(),
    ensures
        ext_count(c, c[i].0@) == c[i].1,
    decreases c.len(),
{
    let k = c[i].0@;
    assert(ext_keys(c.drop_last()) =~= ext_keys(c).drop_last());
    if i == c.len() - 1 {
        assert forall|j: int| 0 <= j < c.len() - 1 implies ext_keys(c.drop_last())[j] != k by {
            assert(ext_keys(c)[j] != ext_keys(c)[i]);
        }
        lemma_ext_count_absent(c.drop_last(), k);
    } else {
        assert(ext_keys(c)[c.len() - 1] != ext_keys(c)[i]);
        lemma_ext_count_at(c.drop_last(), i);
    }
}

proof fn lemma_ext_count_bump(c: Seq<(String, usize)>, i: int, e: (String, usize), k: Seq<char>)
    requires
        0 <= i < c.len(),
        e.0@ == c[i].0@,
        e.1 == c[i].1 + 1,
    ensures
        ext_count(c.update(i, e), k) == ext_count(c, k) + (if k == c[i].0@ {
            1nat
        } else {
            0nat
        }),
    decreases c.len(),
{
    let u = c.update(i, e);
    if i == c.len() - 1 {
        assert(u.drop_last() =~= c.drop_last());
    } else {
        assert(u.drop_last() =~= c.drop_last().update(i, e));
        lemma_ext_count_bump(c.drop_last(), i, e, k);
    }
}

/// Summary of an archive's entries.
#[derive(Debug, Default)]
pub struct ArchiveInfo {
    /// Paths of the file entries, in archive order.
    pub files: Vec<String>,
    /// Distinct first path components of all entries.
    pub top_level_dirs: Vec<String>,
    /// Number of files per lowercase extension; each extension appears once.
    pub file_counts_by_extension: Vec<(String, usize)>,
    /// Number of file (non-directory) entries.
    pub total_files: usize,
}

/// Relies on `str::to_ascii_lowercase`: maps `A`-`Z` to `a`-`z` and keeps
/// every other character.
#[verifier::external_body]
fn to_ascii_lowercase(s: &str) -> (r: String)
    ensures
        r@ == ascii_lower(s@),
{
    s.to_ascii_lowercase()
}

fn position_of_string(v: &Vec<String>, s: &str) -> (r: Option<usize>)
    ensures
        r matches Some(i) ==> i < v@.len() && v@[i as int]@ == s@,
        r is None ==> !views(v@).contains(s@),
{
    let mut i: usize = 0;
    while i < v.len()
        invariant
            i <= v@.len(),
            forall|k: int| 0 <= k < i ==> (#[trigger] v@[k])@ != s@,
        decreases v@.len() - i,
    {
        if same_str(v[i].as_str(), s) {
            return Some(i);
        }
        i += 1;
    }
    assert forall|k: int| 0 <= k < v@.len() implies #[trigger] views(v@)[k] != s@ by {
        assert(views(v@)[k] == v@[k]@);
    }
    None
}

fn position_of_ext(c: &Vec<(String, usize)>, k: &str) -> (r: Option<usize>)
    ensures
        r matches Some(i) ==> i < c@.len() && c@[i as int].0@ == k@,
        r is None ==> !ext_keys(c@).contains(k@),
{
    let mut i: usize = 0;
    while i < c.len()
        invariant
            i <= c@.len(),
            forall|j: int| 0 <= j < i ==> (#[trigger] c@[j]).0@ != k@,
        decreases c@.len() - i,
    {
        if same_str(c[i].0.as_str(), k) {
            return Some(i);
        }
        i += 1;
    }
    assert forall|j: int| 0 <= j < c@.len() implies #[trigger] ext_keys(c@)[j] != k@ by {
        assert(ext_keys(c@)[j] == c@[j].0@);
    }
    None
}

impl ArchiveInfo {
    /// Directories are distinct, extensions are distinct, every count is
    /// bounded by the number of files, and `total_files` counts the files.
    pub open spec fn wf(&self) -> bool {
        &&& views(self.top_level_dirs@).no_duplicates()
        &&& ext_keys(self.file_counts_by_extension@).no_duplicates()
        &&& forall|i: int|
            0 <= i < self.file_counts_by_extension@.len()
                ==> #[trigger] self.file_counts_by_extension@[i].1 <= self.files@.len()
        &&& self.total_files == self.files@.len()
    }

    /// The number of files whose extension, compared case-insensitively in
    /// ASCII, is `ext`.
    pub fn count_ext(&self, ext: &str) -> (r: usize)
        requires
            self.wf(),
        ensures
            r == ext_count(self.file_counts_by_extension@, ascii_lower(ext@)),
    {
        let key = to_ascii_lowercase(ext);
        match position_of_ext(&self.file_counts_by_extension, key.as_str()) {
            Some(i) => {
                proof {
                    lemma_ext_count_at(self.file_counts_by_extension@, i as int);
                }
                self.file_counts_by_extension[i].1
            },
            None => {
                proof {
                    lemma_ext_count_absent(self.file_counts_by_extension@, key@);
                }
                0
            },
        }
    }

    /// The archive's single top-level directory, if it has exactly one.
    pub fn single_top_level_dir(&self) -> (r: Option<String>)
        ensures
            self.top_level_dirs@.len() == 1 ==> (r matches Some(d) && d@
                == self.top_level_dirs@[0]@),
            self.top_level_dirs@.len() != 1 ==> r is None,
    {
        if self.top_level_dirs.len() == 1 {
            Some(self.top_level_dirs[0].clone())
        } else {
            None
        }
    }

    /// Records one archive entry: its path, its first path component, whether
    /// it is a directory, and its extension. Directories only contribute
    /// their first component.
    pub fn add_entry(
        &mut self,
        path: String,
        top_level: Option<String>,
        is_dir: bool,
        extension: Option<String>,
    )
        requires
            old(self).wf(),
            old(self).files@.len() < usize::MAX,
        ensures
            final(self).wf(),
            match top_level {
                Some(d) => views(final(self).top_level_dirs@) == if views(
                    old(self).top_level_dirs@,
                ).contains(d@) {
                    views(old(self).top_level_dirs@)
                } else {
                    views(old(self).top_level_dirs@).push(d@)
                },
                None => final(self).top_level_dirs@ == old(self).top_level_dirs@,
            },
            is_dir ==> final(self).files@ == old(self).files@,
            !is_dir ==> final(self).files@ == old(self).files@.push(path),
            forall|k: Seq<char>|
                #[trigger] ext_count(final(self).file_counts_by_extension@, k) == ext_count(
                    old(self).file_counts_by_extension@,
                    k,
                ) + (if !is_dir && extension is Some && k == ascii_lower(extension->0@) {
                    1nat
                } else {
                    0nat
                }),
    {
        if let Some(d) = top_level {
            if position_of_string(&self.top_level_dirs, d.as_str()).is_none() {
                let ghost old_dirs = self.top_level_dirs@;
                let ghost dv = d@;
                self.top_level_dirs.push(d);
                proof {
                    assert(views(self.top_level_dirs@) =~= views(old_dirs).push(dv));
                    assert forall|i: int, j: int|
                        0 <= i < self.top_level_dirs@.len() && 0 <= j < self.top_level_dirs@.len()
                            && i != j implies views(self.top_level_dirs@)[i] != views(
                        self.top_level_dirs@,
                    )[j] by {
                        if i < old_dirs.len() && j < old_dirs.len() {
                            assert(views(old_dirs)[i] != views(old_dirs)[j]);
                        } else if i < old_dirs.len() {
                            assert(views(old_dirs)[i] == views(self.top_level_dirs@)[i]);
                        } else {
                            assert(views(old_dirs)[j] == views(self.top_level_dirs@)[j]);
                        }
                    }
                }
            } else {
                proof {
                    let i = choose|i: int|
                        0 <= i < self.top_level_dirs@.len() && self.top_level_dirs@[i]@ == d@;
                    assert(views(self.top_level_dirs@)[i] == d@);
                }
            }
        }
        if is_dir {
            return;
        }
        if let Some(e) = extension {
            let key = to_ascii_lowercase(e.as_str());
            let ghost old_counts = self.file_counts_by_extension@;
            match position_of_ext(&self.file_counts_by_extension, key.as_str()) {
                Some(i) => {
                    let n = self.file_counts_by_extension[i].1;
                    let entry = (key, n + 1);
                    proof {
                        assert forall|k: Seq<char>| #[trigger]
                            ext_count(old_counts.update(i as int, entry), k) == ext_count(old_counts, k) + (
                            if k == old_counts[i as int].0@ {
                                1nat
                            } else {
                                0nat
                            }) by {
                            lemma_ext_count_bump(old_counts, i as int, entry, k);
                        }
                    }
                    self.file_counts_by_extension.set(i, entry);
                    proof {
                        assert(ext_keys(self.file_counts_by_extension@) =~= ext_keys(old_counts));
                    }
                },
                None => {
                    let ghost kv = key@;
                    self.file_counts_by_extension.push((key, 1));
                    proof {
                        let c = self.file_counts_by_extension@;
                        assert(c.drop_last() =~= old_counts);
                        assert(ext_keys(c) =~= ext_keys(old_counts).push(kv));
                        assert forall|i: int, j: int|
                            0 <= i < c.len() && 0 <= j < c.len() && i != j implies ext_keys(c)[i]
                            != ext_keys(c)[j] by {
                            if i < old_counts.len() && j < old_counts.len() {
                                assert(ext_keys(old_counts)[i] != ext_keys(old_counts)[j]);
                            } else if i < old_counts.len() {
                                assert(ext_keys(old_counts)[i] == ext_keys(c)[i]);
                            } else {
                                assert(ext_keys(old_counts)[j] == ext_keys(c)[j]);
                            }
                        }
                    }
                },
            }
        }
        self.files.push(path);
        self.total_files = self.files.len();
    }
}

} // verus!
