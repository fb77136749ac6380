//! Pruning of the thumbnail cache.
//!
//! The cache holds only transient search thumbnails. When the files in it
//! exceed a count or a total size, all of them are removed; otherwise it is
//! left alone. Subdirectories are never touched.

use vstd::prelude::*;

verus! {

/// Default bound on the number of cached files.
pub const MAX_FILES: usize = 1000;

/// Default bound on the total size of cached files: 500 MiB.
pub const MAX_SIZE_BYTES: u64 = 524288000;

/// One entry of the cache directory as the caller found it.
#[derive(Debug, Clone)]
pub struct CacheEntry {
    pub path: String,
    pub is_file: bool,
    pub size: u64,
}

/// How many of `entries` are files.
pub open spec fn file_count(entries: Seq<CacheEntry>) -> nat
    decreases entries.len(),
{
    if entries.len() == 0 {
        0
    } else {
        file_count(entries.drop_last()) + if entries.last().is_file {
            1nat
        } else {
            0nat
        }
    }
}

/// The total size of the files among `entries`.
pub open spec fn total_size(entries: Seq<CacheEntry>) -> nat
    decreases entries.len(),
{
    if entries.len() == 0 {
        0
    } else {
        total_size(entries.drop_last()) + if entries.last().is_file {
            entries.last().size as nat
        } else {
            0nat
        }
    }
}

/// The paths of the files among `entries`, in order.
pub open spec fn file_paths(entries: Seq<CacheEntry>) -> Seq<Seq<char>>
    decreases entries.len(),
{
    if entries.len() == 0 {
        Seq::empty()
    } else {
        file_paths(entries.drop_last()) + if entries.last().is_file {
            seq![entries.last().path@]
        } else {
            Seq::empty()
        }
    }
}

/// Whether the files among `entries` exceed `max_files` in number or
/// `max_total_bytes` in total size.
pub open spec fn exceeds(entries: Seq<CacheEntry>, max_files: usize, max_total_bytes: u64) -> bool {
    file_count(entries) > max_files || total_size(entries) > max_total_bytes
}

/// The total size of a prefix is at most the total size of the whole.
proof fn lemma_total_size_prefix(entries: Seq<CacheEntry>, j: int)
    requires
        0 <= j <= entries.len(),
    ensures
        total_size(entries.subrange(0, j)) <= total_size(entries),
    decreases entries.len(),
{
    if j < entries.len() {
        lemma_total_size_prefix(entries.drop_last(), j);
        assert(entries.drop_last().subrange(0, j) =~= entries.subrange(0, j));
    } else {
        assert(entries.subrange(0, j) =~= entries);
    }
}

/// Whether the cache is over either bound: more than `max_files` files, or
/// files of more than `max_total_bytes` bytes in total. A cache exactly at
/// both bounds is not over them.
pub fn should_prune(entries: &Vec<CacheEntry>, max_files: usize, max_total_bytes: u64) -> (r: bool)
    ensures
        r == exceeds(entries@, max_files, max_total_bytes),
{
    let n = entries.len();
    let mut count: usize = 0;
    let mut total: u64 = 0;
    let mut i: usize = 0;
    while i < n
        invariant
            n == entries@.len(),
            i <= n,
            count as nat == file_count(entries@.subrange(0, i as int)),
            count <= i,
            total as nat == total_size(entries@.subrange(0, i as int)),
            total <= max_total_bytes,
        decreases n - i,
    {
        let e = &entries[i];
        assert(entries@.subrange(0, i + 1).drop_last() =~= entries@.subrange(0, i as int));
        if e.is_file {
            if e.size > max_total_bytes - total {
                proof {
                    lemma_total_size_prefix(entries@, i + 1);
                }
                return true;
            }
            count = count + 1;
            total = total + e.size;
        }
        i = i + 1;
    }
    assert(entries@.subrange(0, n as int) =~= entries@);
    count > max_files
}

/// The files to remove from the cache: the path of every file entry, in
/// order, when the cache is over a bound, and none otherwise.
pub fn prune_plan(entries: &Vec<CacheEntry>, max_files: usize, max_total_bytes: u64) -> (r: Vec<
    String,
>)
    ensures
        r@.map_values(|p: String| p@) == if exceeds(entries@, max_files, max_total_bytes) {
            file_paths(entries@)
        } else {
            Seq::empty()
        },
{
    let mut out: Vec<String> = Vec::new();
    if !should_prune(entries, max_files, max_total_bytes) {
        assert(out@.map_values(|p: String| p@) =~= Seq::<Seq<char>>::empty());
        return out;
    }
    let n = entries.len();
    let mut i: usize = 0;
    while i < n
        invariant
            n == entries@.len(),
            i <= n,
            out@.map_values(|p: String| p@) == file_paths(entries@.subrange(0, i as int)),
        decreases n - i,
    {
        let e = &entries[i];
        assert(entries@.subrange(0, i + 1).drop_last() =~= entries@.subrange(0, i as int));
        if e.is_file {
            let ghost before = out@;
            let p = e.path.clone();
            out.push(p);
            assert(out@.map_values(|p: String| p@) =~= before.map_values(|p: String| p@) + seq![
                e.path@,
            ]);
        } else {
            assert(file_paths(entries@.subrange(0, i + 1)) =~= file_paths(
                entries@.subrange(0, i as int),
            ));
        }
        i = i + 1;
    }
    assert(entries@.subrange(0, n as int) =~= entries@);
    out
}

} // verus!
