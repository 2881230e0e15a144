//! The disk unit: picking the block device that backs a partition name, and
//! reading the read/write sector counters; the throughput smoothing is the
//! event loop's.
use vstd::prelude::*;
use vstd::string::StringExecFns;
use crate::strutil::{all_digits, bytes_to_string, is_prefix, spec_chars_of, spec_digits_val,
    trim_str, trim_ws};
use crate::units::cpu::{spec_nums, spec_tokens, split_tokens};

verus! {

/// The disk unit's configuration: the partition or device name watched.
#[derive(Debug)]
pub struct DiskConfig {
    pub disk: String,
}

impl Clone for DiskConfig {
    /// The clone denotes the same device name.
    fn clone(&self) -> (r: Self)
        ensures
            r.disk@ == self.disk@,
    {
        DiskConfig { disk: self.disk.clone() }
    }
}

/// The block root that backs a partition: the longest listed name that
/// prefixes it; among equal lengths, the latest listed wins.
pub open spec fn spec_select_root(entries: Seq<Seq<char>>, disk: Seq<char>) -> Option<Seq<char>>
    decreases entries.len(),
{
    if entries.len() == 0 {
        None
    } else {
        let rest = spec_select_root(entries.drop_last(), disk);
        let e = entries.last();
        if is_prefix(e, disk) && (rest is None || e.len() >= rest.unwrap().len()) {
            Some(e)
        } else {
            rest
        }
    }
}

/// Picks, among the listed block devices, the one that backs `disk`.
pub fn select_root(entries: &Vec<String>, disk: &str) -> (r: Option<String>)
    ensures
        match r {
            Some(v) => spec_select_root(entries.deep_view(), disk@) == Some(v@),
            None => spec_select_root(entries.deep_view(), disk@) is None,
        },
{
    let ghost all = entries.deep_view();
    let n = entries.len();
    let mut best: Option<String> = None;
    let mut i: usize = 0;
    proof {
        assert(all.take(0).len() == 0);
    }
    while i < n
        invariant
            i <= n,
            n == entries@.len(),
            all == entries.deep_view(),
            match best {
                Some(b) => spec_select_root(all.take(i as int), disk@) == Some(b@),
                None => spec_select_root(all.take(i as int), disk@) is None,
            },
        decreases n - i,
    {
        let ghost pre = all.take(i as int);
        let e = entries[i].as_str();
        assert(e@ == all[i as int]);
        let is_pref = match crate::strutil::strip_prefix_str(disk, e) {
            Some(_) => true,
            None => false,
        };
        let better = if is_pref {
            match &best {
                Some(b) => e.unicode_len() >= b.as_str().unicode_len(),
                None => true,
            }
        } else {
            false
        };
        if better {
            let mut v = String::new();
            v.append(e);
            best = Some(v);
        }
        proof {
            let cur = all.take(i + 1 as int);
            assert(cur.drop_last() =~= pre);
            assert(cur.last() == all[i as int]);
        }
        i = i + 1;
    }
    proof {
        assert(all.take(n as int) =~= all);
    }
    best
}

/// The sector size the kernel reports: the file's trimmed text as a number.
pub open spec fn spec_sector_size(s: Seq<char>) -> Option<int> {
    let t = trim_ws(s);
    if all_digits(t) && spec_digits_val(t) <= u64::MAX {
        Some(spec_digits_val(t))
    } else {
        None
    }
}

/// Parses the kernel's sector-size file.
pub fn parse_sector_size(bytes: &Vec<u8>) -> (r: Option<u64>)
    ensures
        match r {
            Some(v) => spec_sector_size(spec_chars_of(bytes@)) == Some(v as int),
            None => spec_sector_size(spec_chars_of(bytes@)) is None,
        },
{
    let s = bytes_to_string(bytes);
    let t = trim_str(s.as_str());
    crate::strutil::parse_u64(t.as_str())
}

/// What the block stat file denotes at a given sector size: the read and
/// written byte totals, taken from the third and seventh numeric fields.
pub open spec fn spec_disk_rw(s: Seq<char>, sector_size: int) -> Option<(int, int)> {
    let nums = spec_nums(spec_tokens(s));
    if nums.len() < 7 {
        None
    } else {
        Some((nums[2] * sector_size, nums[6] * sector_size))
    }
}

/// Reads the read/written byte totals from the block stat file; counters
/// that no longer fit the machine word read as nothing.
pub fn parse_disk_rw(bytes: &Vec<u8>, sector_size: u64) -> (r: Option<(u64, u64)>)
    ensures
        match r {
            Some((rd, wr)) => spec_disk_rw(spec_chars_of(bytes@), sector_size as int) == Some(
                (rd as int, wr as int),
            ),
            None => spec_disk_rw(spec_chars_of(bytes@), sector_size as int) matches Some(v)
                ==> (v.0 > u64::MAX || v.1 > u64::MAX),
        },
{
    let s = bytes_to_string(bytes);
    let toks = split_tokens(s.as_str());
    let ghost all_toks = toks.deep_view();
    let m = toks.len();
    let mut nums: Vec<u64> = Vec::new();
    let mut i: usize = 0;
    proof {
        assert(all_toks.take(0).len() == 0);
        assert(spec_nums(all_toks.take(0)) =~= Seq::<int>::empty());
        assert(nums@.map_values(|v: u64| v as int) =~= spec_nums(all_toks.take(0)));
    }
    while i < m
        invariant
            i <= m,
            m == toks@.len(),
            toks.deep_view() == all_toks,
            nums@.map_values(|v: u64| v as int) == spec_nums(all_toks.take(i as int)),
        decreases m - i,
    {
        let ghost pre = all_toks.take(i as int);
        match crate::strutil::parse_u64(toks[i].as_str()) {
            Some(v) => {
                nums.push(v);
            },
            None => {},
        }
        proof {
            let cur = all_toks.take(i + 1 as int);
            assert(cur.drop_last() =~= pre);
            assert(cur.last() == all_toks[i as int]);
            assert(toks@[i as int]@ == all_toks[i as int]);
            assert(nums@.map_values(|v: u64| v as int) =~= spec_nums(cur));
        }
        i = i + 1;
    }
    proof {
        assert(all_toks.take(m as int) =~= all_toks);
    }
    if nums.len() < 7 {
        proof {
            assert(spec_disk_rw(spec_chars_of(bytes@), sector_size as int) is None);
        }
        return None;
    }
    let rd = nums[2];
    let wr = nums[6];
    proof {
        vstd::arithmetic::mul::lemma_mul_upper_bound(
            rd as int,
            u64::MAX as int,
            sector_size as int,
            u64::MAX as int,
        );
        vstd::arithmetic::mul::lemma_mul_upper_bound(
            wr as int,
            u64::MAX as int,
            sector_size as int,
            u64::MAX as int,
        );
    }
    let rd_b: u128 = (rd as u128) * (sector_size as u128);
    let wr_b: u128 = (wr as u128) * (sector_size as u128);
    if rd_b > u64::MAX as u128 || wr_b > u64::MAX as u128 {
        return None;
    }
    Some((rd_b as u64, wr_b as u64))
}

} // verus!
