//! Document version history: a content-addressed, append-biased archive of
//! prior document states, keyed per document.
//!
//! The manifest ledger is the single source of truth for what versions
//! exist, their order (newest first) and their metadata.  The functions
//! here compute every decision of the four operations — create, list,
//! restore, delete — over plain values; the surrounding application reads
//! and writes the actual files and hands the results in.

use vstd::prelude::*;

verus! {

use vstd::string::StringExecFns;
use crate::hashing::fingerprint_of;
use crate::hashing::content_hash;
use crate::hashing::document_hash;
use crate::codec::gunzip_of;
use crate::codec::gzip_compress;
use crate::codec::gzip_decompress;
use crate::stamp::fresh_uuid;
use crate::stamp::now_rfc3339;
use crate::text::whitespace_char;
use crate::text::str_eq;

/// Upper bound on how many versions a manifest retains after a create.
pub const MAX_VERSIONS: usize = 100;

/// Ghost image of a version entry: every field as a mathematical value.
#[verifier::ext_equal]
pub struct VersionEntryView {
    pub id: Seq<char>,
    pub document_path: Seq<char>,
    pub timestamp: Seq<char>,
    pub comment: Option<Seq<char>>,
    pub word_count: u32,
    pub file_size_bytes: u64,
    pub content_hash: Seq<char>,
}

/// One durable record of a document snapshot.
#[derive(Debug)]
pub struct VersionEntry {
    /// Globally unique identifier, immutable, assigned at creation; the
    /// blob file on disk is named after it.
    pub id: String,
    /// Logical path of the owning document.
    pub document_path: String,
    /// Creation time, ISO-8601 with timezone.
    pub timestamp: String,
    /// Optional user-supplied annotation.
    pub comment: Option<String>,
    /// Whitespace-delimited token count of the content at creation time.
    pub word_count: u32,
    /// Size of the compressed blob.
    pub file_size_bytes: u64,
    /// Truncated fingerprint of the uncompressed content; a lossy dedup
    /// key, never a storage key.
    pub content_hash: String,
}

impl View for VersionEntry {
    type V = VersionEntryView;

    open spec fn view(&self) -> VersionEntryView {
        VersionEntryView {
            id: self.id@,
            document_path: self.document_path@,
            timestamp: self.timestamp@,
            comment: (match self.comment {
                Some(c) => Some(c@),
                None => None,
            }),
            word_count: self.word_count,
            file_size_bytes: self.file_size_bytes,
            content_hash: self.content_hash@,
        }
    }
}

impl DeepView for VersionEntry {
    type V = VersionEntryView;

    open spec fn deep_view(&self) -> VersionEntryView {
        self.view()
    }
}

impl Clone for VersionEntry {
    fn clone(&self) -> (r: Self)
        ensures
            r@ == self@,
    {
        VersionEntry {
            id: self.id.clone(),
            document_path: self.document_path.clone(),
            timestamp: self.timestamp.clone(),
            comment: (match &self.comment {
                Some(c) => Some(c.clone()),
                None => None,
            }),
            word_count: self.word_count,
            file_size_bytes: self.file_size_bytes,
            content_hash: self.content_hash.clone(),
        }
    }
}

/// Per-document ledger: the ordered list of version entries, newest first.
pub struct VersionManifest {
    pub versions: Vec<VersionEntry>,
}

impl VersionManifest {
    /// The ledger as a sequence of mathematical entries, newest first.
    pub open spec fn entries(&self) -> Seq<VersionEntryView> {
        self.versions.deep_view()
    }
}

/// Errors of the restore path.
#[derive(Clone, Copy, Debug, PartialEq, Eq, Structural)]
pub enum VersionError {
    /// The blob file for the requested id does not exist.
    NotFound,
    /// The blob exists but is not a valid compressed stream, or does not
    /// decompress to UTF-8 text.
    Decompress,
}

// ---------------------------------------------------------------------------
// Word counting
// ---------------------------------------------------------------------------

/// Number of words begun within the first `n` characters of `s`: a word
/// begins at a non-whitespace character at the start or after whitespace.
pub open spec fn word_starts(s: Seq<char>, n: int) -> nat
    decreases n,
{
    if n <= 0 {
        0
    } else {
        word_starts(s, n - 1) + (if !whitespace_char(s[n - 1]) && (n == 1 || whitespace_char(
            s[n - 2],
        )) {
            1nat
        } else {
            0nat
        })
    }
}

/// Whitespace-delimited token count of a character sequence.
pub open spec fn word_count_of(s: Seq<char>) -> nat {
    word_starts(s, s.len() as int)
}

/// Counts whitespace-delimited words, wrapping around at 2^32 as the cast
/// to the stored 32-bit field does.
pub fn count_words(content: &str) -> (r: u32)
    ensures
        r as int == word_count_of(content@) as int % 0x1_0000_0000,
{
    proof {
        broadcast use vstd::string::axiom_spec_iter;

    }
    let mut count: u32 = 0;
    let mut prev_ws: bool = true;
    for c in it: content.chars()
        invariant
            it.seq() == content@,
            count as int == word_starts(content@, it.index()) as int % 0x1_0000_0000,
            prev_ws == (it.index() == 0 || whitespace_char(content@[it.index() - 1])),
    {
        if !c.is_whitespace() {
            if prev_ws {
                proof {
                    lemma_wrap_increment(word_starts(content@, it.index()), count);
                }
                count = if count == u32::MAX {
                    0
                } else {
                    count + 1
                };
            }
            prev_ws = false;
        } else {
            prev_ws = true;
        }
    }
    count
}

proof fn lemma_wrap_increment(w: nat, count: u32)
    requires
        count as int == w as int % 0x1_0000_0000,
    ensures
        (if count == u32::MAX {
            0int
        } else {
            count as int + 1
        }) == (w + 1) as int % 0x1_0000_0000,
{
    let m: int = 0x1_0000_0000;
    vstd::arithmetic::div_mod::lemma_add_mod_noop(w as int, 1int, m);
    vstd::arithmetic::div_mod::lemma_small_mod(1nat, m as nat);
    if count == u32::MAX {
        vstd::arithmetic::div_mod::lemma_mod_self_0(m);
    } else {
        vstd::arithmetic::div_mod::lemma_small_mod((count + 1) as nat, m as nat);
    }
}

// ---------------------------------------------------------------------------
// Directory resolution
// ---------------------------------------------------------------------------

/// The path segment under which all version directories live.
pub open spec fn versions_segment() -> Seq<char> {
    "/versions/"@
}

/// Storage directory for a document's versions: a stable,
/// collision-resistant name under the application data root, independent
/// of the document path's length or characters.  Pure; the caller creates
/// the directory.  Segments are joined with '/'.
pub fn versions_dir(app_data_dir: &str, document_path: &str) -> (r: String)
    ensures
        r@ == app_data_dir@ + versions_segment() + fingerprint_of(document_path@),
{
    let hash = document_hash(document_path);
    let mut dir = app_data_dir.to_owned();
    dir.append("/versions/");
    dir.append(hash.as_str());
    dir
}

// ---------------------------------------------------------------------------
// The create decision
// ---------------------------------------------------------------------------

/// Whether a create with content fingerprint `h` is suppressed: only the
/// newest entry is consulted, never the rest of the history.
pub open spec fn dedup_hit(entries: Seq<VersionEntryView>, h: Seq<char>) -> bool {
    entries.len() > 0 && entries[0].content_hash == h
}

/// What the ledger retains of `full` (a candidate history, newest first):
/// everything up to the retention cap.
pub open spec fn retained(full: Seq<VersionEntryView>) -> Seq<VersionEntryView> {
    if full.len() <= MAX_VERSIONS {
        full
    } else {
        full.take(MAX_VERSIONS as int)
    }
}

/// The ids evicted from `full` by the retention cap, oldest last.
pub open spec fn evicted_ids(full: Seq<VersionEntryView>) -> Seq<Seq<char>> {
    if full.len() <= MAX_VERSIONS {
        Seq::empty()
    } else {
        full.skip(MAX_VERSIONS as int).map_values(|v: VersionEntryView| v.id)
    }
}

/// Result of a create: either the newest entry was returned unchanged (a
/// dedup hit: nothing to write), or a new entry was made, with the
/// compressed blob to store and the ids whose blobs the retention cap
/// evicted (their deletion is best-effort).
pub enum CreateOutcome {
    Unchanged(VersionEntry),
    Created { entry: VersionEntry, blob: Vec<u8>, evicted: Vec<String> },
}

/// Creates a version of `content` for a document: if the newest entry has
/// the same content fingerprint the create is a no-op returning that
/// entry; otherwise a fresh entry is prepended and everything beyond the
/// retention cap drops off the tail.  The caller persists the returned
/// blob under the entry's id and the updated manifest, and removes the
/// evicted blobs.
pub fn create_version(
    manifest: &mut VersionManifest,
    document_path: &str,
    content: &str,
    comment: Option<String>,
) -> (r: CreateOutcome)
    ensures
        dedup_hit(old(manifest).entries(), fingerprint_of(content@)) ==> ({
            &&& r matches CreateOutcome::Unchanged(e) && e@ == old(manifest).entries()[0]
            &&& final(manifest).entries() == old(manifest).entries()
        }),
        !dedup_hit(old(manifest).entries(), fingerprint_of(content@)) ==> (r matches CreateOutcome::Created { entry, blob, evicted } && {
            &&& entry@.document_path == document_path@
            &&& entry@.comment == comment.deep_view()
            &&& entry@.content_hash == fingerprint_of(content@)
            &&& entry@.word_count as int == word_count_of(content@) as int % 0x1_0000_0000
            &&& entry@.file_size_bytes == blob@.len()
            &&& entry@.id.len() == 36
            &&& gunzip_of(blob@) == Some(content@)
            &&& final(manifest).entries() == retained(seq![entry@] + old(manifest).entries())
            &&& evicted.deep_view() == evicted_ids(seq![entry@] + old(manifest).entries())
        }),
{
    let hash = content_hash(content);
    if manifest.versions.len() > 0 {
        let head = &manifest.versions[0];
        if str_eq(head.content_hash.as_str(), hash.as_str()) {
            return CreateOutcome::Unchanged(head.clone());
        }
    }
    let blob = gzip_compress(content);
    let entry = VersionEntry {
        id: fresh_uuid(),
        document_path: document_path.to_owned(),
        timestamp: now_rfc3339(),
        comment,
        word_count: count_words(content),
        file_size_bytes: blob.len() as u64,
        content_hash: hash,
    };
    let ghost before = manifest.entries();
    manifest.versions.insert(0, entry.clone());
    proof {
        assert(manifest.entries() =~= seq![entry@] + before);
    }
    let mut evicted: Vec<String> = Vec::new();
    if manifest.versions.len() > MAX_VERSIONS {
        let removed = manifest.versions.split_off(MAX_VERSIONS);
        proof {
            assert(manifest.entries() =~= (seq![entry@] + before).take(MAX_VERSIONS as int));
            assert(removed.deep_view() =~= (seq![entry@] + before).skip(MAX_VERSIONS as int));
        }
        let ghost ids = removed.deep_view().map_values(|v: VersionEntryView| v.id);
        let mut j: usize = 0;
        while j < removed.len()
            invariant
                j <= removed.len(),
                ids == removed.deep_view().map_values(|v: VersionEntryView| v.id),
                evicted.deep_view() =~= ids.take(j as int),
            decreases removed.len() - j,
        {
            let ghost ev = evicted.deep_view();
            evicted.push(removed[j].id.clone());
            proof {
                assert(evicted.deep_view() =~= ev.push(removed.deep_view()[j as int].id));
                assert(ids.take(j + 1 as int) =~= ids.take(j as int).push(ids[j as int]));
            }
            j = j + 1;
        }
        proof {
            assert(evicted.deep_view() =~= evicted_ids(seq![entry@] + before));
        }
    }
    CreateOutcome::Created { entry, blob, evicted }
}

// ---------------------------------------------------------------------------
// Reading, restoring, deleting
// ---------------------------------------------------------------------------

/// Best-effort read policy of the ledger: a manifest that was absent,
/// unreadable or unparsable (`None`) degrades to empty history, never to
/// an error.
pub fn manifest_or_empty(read: Option<VersionManifest>) -> (r: VersionManifest)
    ensures
        (match read {
            Some(m) => r.entries() == m.entries(),
            None => r.entries().len() == 0,
        }),
{
    match read {
        Some(m) => m,
        None => VersionManifest { versions: Vec::new() },
    }
}

/// All versions of a document, newest first; anything that kept the
/// ledger from being read counts as empty history.
pub fn list_versions(read: Option<VersionManifest>) -> (r: Vec<VersionEntry>)
    ensures
        (match read {
            Some(m) => r.deep_view() == m.entries(),
            None => r.deep_view().len() == 0,
        }),
{
    manifest_or_empty(read).versions
}

/// What restoring from a blob read yields: the decompressed text, or the
/// error that says why not.
pub open spec fn restore_result(blob: Option<Seq<u8>>) -> Result<Seq<char>, VersionError> {
    match blob {
        None => Err(VersionError::NotFound),
        Some(b) => match gunzip_of(b) {
            Some(s) => Ok(s),
            None => Err(VersionError::Decompress),
        },
    }
}

/// Restores a version's content from its blob file (`None` when the file
/// does not exist).  The manifest is never consulted: restore works even
/// when the entry was separately lost, as long as the blob remains.
pub fn restore_version(blob: Option<Vec<u8>>) -> (r: Result<String, VersionError>)
    ensures
        (match r {
            Ok(s) => restore_result(blob.deep_view()) == Ok::<Seq<char>, VersionError>(s@),
            Err(e) => restore_result(blob.deep_view()) == Err::<Seq<char>, VersionError>(e),
        }),
{
    match &blob {
        None => Err(VersionError::NotFound),
        Some(b) => {
            proof {
                assert(blob.deep_view() == Some(b@));
            }
            match gzip_decompress(b.as_slice()) {
                Some(s) => Ok(s),
                None => Err(VersionError::Decompress),
            }
        },
    }
}

/// The history without every entry of the given id, order kept.
pub open spec fn without_id(entries: Seq<VersionEntryView>, id: Seq<char>) -> Seq<
    VersionEntryView,
> {
    entries.filter(|e: VersionEntryView| e.id != id)
}

/// Drops the entry with the given id from the ledger.  An id that matches
/// nothing is silently tolerated: the manifest is simply unchanged.  The
/// caller removes the blob file itself.
pub fn delete_version(manifest: &mut VersionManifest, version_id: &str)
    ensures
        final(manifest).entries() == without_id(old(manifest).entries(), version_id@),
{
    let ghost pred = |e: VersionEntryView| e.id != version_id@;
    let mut kept: Vec<VersionEntry> = Vec::new();
    let n = manifest.versions.len();
    let mut i: usize = 0;
    while i < n
        invariant
            i <= n,
            n == manifest.versions.len(),
            kept.deep_view() =~= manifest.entries().take(i as int).filter(pred),
            pred == (|e: VersionEntryView| e.id != version_id@),
        decreases n - i,
    {
        let e = &manifest.versions[i];
        let ghost prefix = manifest.entries().take(i as int);
        let ghost cur = manifest.entries()[i as int];
        let ghost kd = kept.deep_view();
        proof {
            assert(manifest.entries().take(i as int + 1) =~= prefix.push(cur));
            prefix.lemma_filter_push(cur, pred);
        }
        if !str_eq(e.id.as_str(), version_id) {
            kept.push(e.clone());
            proof {
                assert(kept.deep_view() =~= kd.push(cur));
            }
        }
        i = i + 1;
    }
    proof {
        assert(manifest.entries().take(n as int) =~= manifest.entries());
    }
    manifest.versions = kept;
}

// ---------------------------------------------------------------------------
// Laws of the history
// ---------------------------------------------------------------------------

/// Law: creating right after a successful create of `e`, with content of
/// the same fingerprint, is a dedup hit that returns `e` itself — the
/// history is unchanged and no new blob is written.
pub proof fn lemma_create_then_create_dedups(entries: Seq<VersionEntryView>, e: VersionEntryView)
    ensures
        retained(seq![e] + entries).len() > 0,
        retained(seq![e] + entries)[0] == e,
        dedup_hit(retained(seq![e] + entries), e.content_hash),
{
}

/// Law: a successful create prepends the new entry and keeps every
/// retained older entry in its order, so the history stays newest-first,
/// matching creation order.
pub proof fn lemma_create_preserves_order(entries: Seq<VersionEntryView>, e: VersionEntryView)
    ensures
        retained(seq![e] + entries).len() == vstd::math::min(
            entries.len() as int + 1,
            MAX_VERSIONS as int,
        ),
        retained(seq![e] + entries)[0] == e,
        forall|i: int|
            1 <= i < retained(seq![e] + entries).len() ==> retained(seq![e] + entries)[i]
                == entries[i - 1],
{
}

/// Law: whatever candidate history a create builds, what the ledger
/// retains of it is everything up to the cap: at most MAX_VERSIONS
/// entries persist after any successful create.
pub proof fn lemma_retained_bounded(full: Seq<VersionEntryView>)
    ensures
        retained(full).len() == vstd::math::min(full.len() as int, MAX_VERSIONS as int),
        retained(full).len() <= MAX_VERSIONS,
{
}

/// Law: a create onto a full history retains exactly the cap and evicts
/// exactly the oldest entry's id.
pub proof fn lemma_retention(entries: Seq<VersionEntryView>, e: VersionEntryView)
    requires
        entries.len() == MAX_VERSIONS,
    ensures
        retained(seq![e] + entries).len() == MAX_VERSIONS,
        evicted_ids(seq![e] + entries) == seq![entries.last().id],
{
    let full = seq![e] + entries;
    assert(full.skip(MAX_VERSIONS as int) =~= seq![entries.last()]);
    assert(full.skip(MAX_VERSIONS as int).map_values(|v: VersionEntryView| v.id) =~= seq![
        entries.last().id,
    ]);
}

/// Law: restoring a blob that decompresses to `content` — which
/// create_version ensures of every blob it hands out — yields exactly
/// `content`.
pub proof fn lemma_restore_round_trip(blob: Seq<u8>, content: Seq<char>)
    ensures
        gunzip_of(blob) == Some(content) ==> restore_result(Some(blob)) == Ok::<
            Seq<char>,
            VersionError,
        >(content),
{
}

/// Law: dedup consults only the head.  Content whose fingerprint matches
/// an older entry — but not the newest — still produces a new entry.
pub proof fn lemma_dedup_is_head_only(entries: Seq<VersionEntryView>, h: Seq<char>, i: int)
    ensures
        entries.len() > 0 && entries[0].content_hash != h ==> !dedup_hit(entries, h),
        entries.len() > 0 && entries[0].content_hash != h && 0 <= i < entries.len()
            && entries[i].content_hash == h ==> !dedup_hit(entries, h),
{
}

/// Law: after a delete of `id`, no entry of the resulting history carries
/// that id; and a restore whose blob read finds nothing yields the
/// not-found error.
pub proof fn lemma_delete_removes_id(entries: Seq<VersionEntryView>, id: Seq<char>)
    ensures
        forall|i: int|
            0 <= i < without_id(entries, id).len() ==> (#[trigger] without_id(entries, id)[i]).id
                != id,
        restore_result(None) == Err::<Seq<char>, VersionError>(VersionError::NotFound),
{
    let pred = |e: VersionEntryView| e.id != id;
    assert forall|i: int| 0 <= i < without_id(entries, id).len() implies (#[trigger] without_id(
        entries,
        id,
    )[i]).id != id by {
        entries.lemma_filter_pred(pred, i);
    }
}

/// Law: documents whose path fingerprints differ get different version
/// directories under the same data root, whatever prefix or suffix their
/// paths share.  (Fingerprints are truncated digests, so two paths with
/// the same 8-byte digest prefix would share a directory; the fingerprint
/// inequality is exactly the guard.)
pub proof fn lemma_directory_isolation(root: Seq<char>, p1: Seq<char>, p2: Seq<char>)
    ensures
        fingerprint_of(p1) != fingerprint_of(p2) ==> root + versions_segment() + fingerprint_of(p1)
            != root + versions_segment() + fingerprint_of(p2),
{
    let a = root + versions_segment();
    let f1 = fingerprint_of(p1);
    let f2 = fingerprint_of(p2);
    if f1 != f2 && a + f1 == a + f2 {
        assert((a + f1).len() == a.len() + f1.len());
        assert((a + f2).len() == a.len() + f2.len());
        assert(f1.len() == f2.len());
        assert forall|i: int| 0 <= i < f1.len() implies f1[i] == f2[i] by {
            assert((a + f1)[a.len() + i] == f1[i]);
            assert((a + f2)[a.len() + i] == f2[i]);
        }
        assert(f1 =~= f2);
    }
}

} // verus!
