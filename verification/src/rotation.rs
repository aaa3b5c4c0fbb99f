//! The decision rules behind log-file rotation: when to rotate, what to
//! call the rotated file, and which old files to clean up. The file-system
//! work itself lives with the caller; these functions only decide.

use vstd::prelude::*;
use vstd::string::StringSliceAdditionalSpecFns;
use vstd::utf8::encode_utf8;

use crate::encoding::{dec_bytes, push_bytes, push_dec_u64};

verus! {

/// Whether a log file is due for rotation: its size has reached the
/// configured maximum, or the configured interval has passed since the
/// last rotation. An absent bound never triggers.
pub open spec fn rotation_due_spec(
    current_size: nat,
    max_size: Option<usize>,
    now_secs: nat,
    last_rotate_secs: nat,
    interval_secs: Option<u64>,
) -> bool {
    (max_size matches Some(m) && current_size >= m) || (interval_secs matches Some(i) && now_secs
        - last_rotate_secs >= i)
}

/// Decide whether the log file is due for rotation.
pub fn rotation_due(
    current_size: usize,
    max_size: Option<usize>,
    now_secs: u64,
    last_rotate_secs: u64,
    interval_secs: Option<u64>,
) -> (r: bool)
    requires
        last_rotate_secs <= now_secs,
    ensures
        r == rotation_due_spec(
            current_size as nat,
            max_size,
            now_secs as nat,
            last_rotate_secs as nat,
            interval_secs,
        ),
{
    let by_size = match max_size {
        Some(m) => current_size >= m,
        None => false,
    };
    let by_age = match interval_secs {
        Some(i) => now_secs - last_rotate_secs >= i,
        None => false,
    };
    by_size || by_age
}

/// The name of a rotated file: the original path, a dot, and the rotation
/// timestamp in seconds.
pub open spec fn rotated_name_bytes(path: Seq<char>, timestamp_secs: nat) -> Seq<u8> {
    encode_utf8(path) + encode_utf8("."@) + dec_bytes(timestamp_secs)
}

/// Build the name a rotated file is given, as UTF-8 bytes.
pub fn rotated_name(path: &str, timestamp_secs: u64) -> (r: Vec<u8>)
    ensures
        r@ == rotated_name_bytes(path@, timestamp_secs as nat),
{
    let mut out: Vec<u8> = Vec::new();
    push_bytes(&mut out, path.as_bytes());
    push_bytes(&mut out, ".".as_bytes());
    push_dec_u64(&mut out, timestamp_secs);
    proof {
        assert(out@ =~= rotated_name_bytes(path@, timestamp_secs as nat));
    }
    out
}

/// How many entries sort strictly before entry `i` when the files are
/// ordered newest first — greater modification time first, and among equal
/// times the earlier entry first. Only the first `k` entries are counted.
pub open spec fn newer_count_upto(mtimes: Seq<u64>, i: int, k: int) -> nat
    decreases k,
{
    if k <= 0 {
        0
    } else {
        newer_count_upto(mtimes, i, k - 1) + (if mtimes[k - 1] > mtimes[i] || (mtimes[k - 1]
            == mtimes[i] && k - 1 < i) {
            1nat
        } else {
            0nat
        })
    }
}

/// The rank of entry `i` in newest-first order: how many entries come
/// before it.
pub open spec fn newness_rank(mtimes: Seq<u64>, i: int) -> nat {
    newer_count_upto(mtimes, i, mtimes.len() as int)
}

/// Which entries to delete when at most `keep` files are retained: exactly
/// those whose newest-first rank is `keep` or more. The result lists their
/// indices in increasing order.
pub fn files_to_delete(mtimes: &Vec<u64>, keep: usize) -> (r: Vec<usize>)
    ensures
        forall|m: int|
            0 <= m < r@.len() ==> r@[m] < mtimes@.len() && newness_rank(mtimes@, r@[m] as int)
                >= keep,
        forall|i: int|
            0 <= i < mtimes@.len() && newness_rank(mtimes@, i) >= keep ==> r@.contains(i as usize),
        forall|m: int, n: int| 0 <= m < n < r@.len() ==> r@[m] < r@[n],
{
    let ghost s = mtimes@;
    let n = mtimes.len();
    let mut out: Vec<usize> = Vec::new();
    let mut i: usize = 0;
    while i < n
        invariant
            n == s.len(),
            s == mtimes@,
            i <= n,
            forall|m: int|
                0 <= m < out@.len() ==> out@[m] < i && newness_rank(s, out@[m] as int) >= keep,
            forall|j: int| 0 <= j < i && newness_rank(s, j) >= keep ==> out@.contains(j as usize),
            forall|m: int, q: int| 0 <= m < q < out@.len() ==> out@[m] < out@[q],
        decreases n - i,
    {
        let mut rank: usize = 0;
        let mut k: usize = 0;
        while k < n
            invariant
                n == s.len(),
                s == mtimes@,
                i < n,
                k <= n,
                rank == newer_count_upto(s, i as int, k as int),
                rank <= k,
            decreases n - k,
        {
            if mtimes[k] > mtimes[i] || (mtimes[k] == mtimes[i] && k < i) {
                rank = rank + 1;
            }
            k = k + 1;
        }
        if rank >= keep {
            let ghost before = out@;
            out.push(i);
            proof {
                assert forall|j: int|
                    0 <= j <= i as int && newness_rank(s, j) >= keep implies out@.contains(
                    j as usize,
                ) by {
                    if j == i as int {
                        assert(out@[out@.len() - 1] == i);
                    } else {
                        assert(before.contains(j as usize));
                        let m = choose|m: int| 0 <= m < before.len() && before[m] == j as usize;
                        assert(out@[m] == j as usize);
                    }
                }
            }
        }
        i = i + 1;
    }
    out
}

} // verus!
