//! Space accounting for a mounted volume, computed from the cluster and
//! sector counts the native filesystem reports.
//!
//! The native free-space query hands back four counters; everything else is
//! arithmetic, done here, with overflow and consistency checked so that a
//! returned `Info` always satisfies `free_bytes <= total_bytes`.

use vstd::arithmetic::div_mod::lemma_mod_multiples_basic;
use vstd::arithmetic::mul::{lemma_mul_inequality, lemma_mul_is_commutative};
use vstd::prelude::*;

verus! {

/// Space usage of a mounted volume, in bytes.
#[derive(Clone, Copy, Debug, PartialEq, Eq, Structural)]
pub struct Info {
    pub total_bytes: usize,
    pub free_bytes: usize,
}

/// The counters the native filesystem reports are usable: the FAT has its
/// two reserved entries, no more clusters are free than exist, and the byte
/// totals fit the machine word.
pub open spec fn fat_counts_usable(
    csize: usize,
    ssize: usize,
    n_fatent: usize,
    free_clst: usize,
) -> bool {
    &&& n_fatent >= 2
    &&& free_clst <= n_fatent - 2
    &&& csize * ssize <= usize::MAX
    &&& csize * ssize * (n_fatent - 2) <= usize::MAX
}

impl Info {
    /// Computes the volume's space usage from the filesystem's cluster size
    /// (in sectors), sector size (in bytes), FAT entry count and free cluster
    /// count. The first two FAT entries do not address data clusters, so the
    /// volume holds `n_fatent - 2` clusters in all. Returns `None`, rather
    /// than panicking, whenever the counters are inconsistent or the byte
    /// totals would overflow.
    pub fn from_fat_counts(
        csize: usize,
        ssize: usize,
        n_fatent: usize,
        free_clst: usize,
    ) -> (r: Option<Info>)
        ensures
            r is Some <==> fat_counts_usable(csize, ssize, n_fatent, free_clst),
            r is Some ==> r->0 == (Info {
                total_bytes: (csize * ssize * (n_fatent - 2)) as usize,
                free_bytes: (csize * ssize * free_clst) as usize,
            }),
            r is Some ==> r->0.free_bytes <= r->0.total_bytes,
            r is Some && csize * ssize > 0 ==> r->0.total_bytes as int % (csize * ssize) == 0
                && r->0.free_bytes as int % (csize * ssize) == 0,
    {
        if n_fatent < 2 {
            return None;
        }
        let data_clusters = n_fatent - 2;
        if free_clst > data_clusters {
            return None;
        }
        let unit = match csize.checked_mul(ssize) {
            Some(u) => u,
            None => {
                return None;
            },
        };
        let total = match unit.checked_mul(data_clusters) {
            Some(t) => t,
            None => {
                return None;
            },
        };
        proof {
            lemma_mul_inequality(free_clst as int, data_clusters as int, unit as int);
            lemma_mul_is_commutative(free_clst as int, unit as int);
            lemma_mul_is_commutative(data_clusters as int, unit as int);
            if unit > 0 {
                lemma_mod_multiples_basic(data_clusters as int, unit as int);
                lemma_mod_multiples_basic(free_clst as int, unit as int);
            }
        }
        let free = unit * free_clst;
        Some(Info { total_bytes: total, free_bytes: free })
    }
}

} // verus!
