//! Recent-files list: a bounded most-recently-used list of paths.  Adding
//! a path moves it to the front; the list keeps at most ten entries.
//! Whether a listed file still exists on disk is the application's
//! knowledge; it hands a presence mask in and this module does the
//! filtering.

use vstd::prelude::*;

verus! {

use crate::text::str_eq;

/// Upper bound on how many recent files are remembered.
pub const MAX_RECENT_FILES: usize = 10;

/// The persisted shape of the list.
pub struct RecentFilesData {
    pub files: Vec<String>,
}

/// The listed paths screened by a presence mask: `files[i]` is kept
/// exactly when `present[i]`, order kept, over the first `n` entries.
pub open spec fn present_only(files: Seq<Seq<char>>, present: Seq<bool>, n: int) -> Seq<Seq<char>>
    decreases n,
{
    if n <= 0 {
        Seq::empty()
    } else {
        present_only(files, present, n - 1) + (if present[n - 1] {
            seq![files[n - 1]]
        } else {
            Seq::empty()
        })
    }
}

/// The list after `path` is added: any earlier occurrence is removed, the
/// path goes to the front, and the tail is capped.
pub open spec fn mru_insert(files: Seq<Seq<char>>, path: Seq<char>) -> Seq<Seq<char>> {
    let cleaned = seq![path] + files.filter(|f: Seq<char>| f != path);
    if cleaned.len() <= MAX_RECENT_FILES {
        cleaned
    } else {
        cleaned.take(MAX_RECENT_FILES as int)
    }
}

/// Holds the recent-files list between loads and saves.
pub struct RecentFilesManager {
    data: RecentFilesData,
}

impl RecentFilesManager {
    /// The remembered paths, most recent first.
    pub closed spec fn files_view(&self) -> Seq<Seq<char>> {
        self.data.files.deep_view()
    }

    /// Built from whatever the list file yielded (`None` when it was
    /// absent, unreadable or unparsable): an empty list fills the gap.
    pub fn new(loaded: Option<RecentFilesData>) -> (r: Self)
        ensures
            (match loaded {
                Some(d) => r.files_view() == d.files.deep_view(),
                None => r.files_view().len() == 0,
            }),
    {
        match loaded {
            Some(d) => RecentFilesManager { data: d },
            None => RecentFilesManager { data: RecentFilesData { files: Vec::new() } },
        }
    }

    /// The raw remembered paths, for the caller to probe for existence.
    pub fn all_files(&self) -> (r: &Vec<String>)
        ensures
            r.deep_view() == self.files_view(),
    {
        &self.data.files
    }

    /// The remembered paths that still exist, most recent first:
    /// `present[i]` says whether the i-th path's file was found.
    pub fn get_files(&self, present: &Vec<bool>) -> (r: Vec<String>)
        requires
            present@.len() == self.files_view().len(),
        ensures
            r.deep_view() == present_only(self.files_view(), present@, self.files_view().len() as int),
    {
        let mut out: Vec<String> = Vec::new();
        let n = self.data.files.len();
        let mut i: usize = 0;
        while i < n
            invariant
                i <= n,
                n == self.data.files.len(),
                present@.len() == self.files_view().len(),
                out.deep_view() =~= present_only(self.files_view(), present@, i as int),
            decreases n - i,
        {
            let ghost od = out.deep_view();
            if present[i] {
                out.push(self.data.files[i].clone());
                proof {
                    assert(out.deep_view() =~= od.push(self.files_view()[i as int]));
                    assert(od.push(self.files_view()[i as int]) =~= od + seq![
                        self.files_view()[i as int],
                    ]);
                }
            }
            i = i + 1;
        }
        out
    }

    /// Moves `path` to the front of the list, removing any earlier
    /// occurrence and trimming the list to its cap.
    pub fn add_file(&mut self, path: &str)
        ensures
            final(self).files_view() == mru_insert(old(self).files_view(), path@),
    {
        let ghost pred = |f: Seq<char>| f != path@;
        let mut kept: Vec<String> = Vec::new();
        let n = self.data.files.len();
        let mut i: usize = 0;
        while i < n
            invariant
                i <= n,
                n == self.data.files.len(),
                kept.deep_view() =~= self.files_view().take(i as int).filter(pred),
                pred == (|f: Seq<char>| f != path@),
            decreases n - i,
        {
            let f = &self.data.files[i];
            let ghost prefix = self.files_view().take(i as int);
            let ghost cur = self.files_view()[i as int];
            let ghost kd = kept.deep_view();
            proof {
                assert(self.files_view().take(i as int + 1) =~= prefix.push(cur));
                prefix.lemma_filter_push(cur, pred);
            }
            if !str_eq(f.as_str(), path) {
                kept.push(f.clone());
                proof {
                    assert(kept.deep_view() =~= kd.push(cur));
                }
            }
            i = i + 1;
        }
        proof {
            assert(self.files_view().take(n as int) =~= self.files_view());
        }
        kept.insert(0, path.to_owned());
        proof {
            assert(kept.deep_view() =~= seq![path@] + old(self).files_view().filter(pred));
        }
        if kept.len() > MAX_RECENT_FILES {
            kept.truncate(MAX_RECENT_FILES);
            proof {
                assert(kept.deep_view() =~= (seq![path@] + old(self).files_view().filter(
                    pred,
                )).take(MAX_RECENT_FILES as int));
            }
        }
        self.data.files = kept;
    }

    /// Forgets every remembered path.
    pub fn clear(&mut self)
        ensures
            final(self).files_view().len() == 0,
    {
        self.data.files.clear();
    }
}

} // verus!
