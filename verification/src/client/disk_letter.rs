//! Names for the disks of a machine: `vda`, `vdb`, and so on, lowest free first.

use crate::text::{chars_of, same_chars, starts_with_text, string_of};
use crate::xml::domain::Disk;
use vstd::prelude::*;

verus! {

/// The `n`-th lower-case letter, counted from zero.
pub open spec fn letter(n: int) -> char {
    (97 + n) as char
}

/// The `n`-th suffix in the order a, b, ..., z, aa, ab, ..., az, ba, ...
pub open spec fn suffix(n: nat) -> Seq<char>
    decreases n,
{
    if n < 26 {
        seq![letter(n as int)]
    } else {
        suffix((n / 26 - 1) as nat).push(letter((n % 26) as int))
    }
}

/// The place of a suffix in that order.
pub open spec fn rank(s: Seq<char>) -> nat
    decreases s.len(),
{
    if s.len() == 0 {
        0
    } else if s.len() == 1 {
        (s[0] as int - 97) as nat
    } else {
        ((rank(s.drop_last()) + 1) * 26 + (s.last() as int - 97)) as nat
    }
}

/// The suffix that a disk's target name uses up, if it is named `vd...`.
pub open spec fn disk_suffix(disk: Disk) -> Option<Seq<char>> {
    match disk.target {
        Some(target) => if starts_with_text(target.dev@, seq!['v', 'd']) {
            Some(target.dev@.skip(2))
        } else {
            None
        },
        None => None,
    }
}

/// The suffixes that the disks of a descriptor use up.
pub open spec fn used_suffixes(disks: Seq<Disk>) -> Set<Seq<char>> {
    Set::new(|s: Seq<char>| exists|i: int| 0 <= i < disks.len() && disk_suffix(disks[i]) == Some(s))
}

/// Whether the `n`-th suffix is free and every suffix before it is used.
pub open spec fn first_free(used: Set<Seq<char>>, n: nat) -> bool {
    &&& !used.contains(suffix(n))
    &&& forall|k: nat| k < n ==> used.contains(#[trigger] suffix(k))
}

/// The name of the next disk: `vd` and the first suffix that no disk uses.
pub open spec fn next_vd(disks: Seq<Disk>, name: Seq<char>) -> bool {
    exists|n: nat| first_free(used_suffixes(disks), n) && name == seq!['v', 'd'] + suffix(n)
}

/// Every suffix has at least one letter, and its rank is its place in the order.
pub proof fn lemma_rank_of_suffix(n: nat)
    ensures
        suffix(n).len() >= 1,
        rank(suffix(n)) == n,
    decreases n,
{
    if n >= 26 {
        let q = (n / 26 - 1) as nat;
        lemma_rank_of_suffix(q);
        let s = suffix(n);
        assert(s.drop_last() == suffix(q));
        assert(s.last() == letter((n % 26) as int));
    }
}

/// Two places with the same suffix are the same place.
pub proof fn lemma_suffix_injective(a: nat, b: nat)
    ensures
        suffix(a) == suffix(b) ==> a == b,
{
    lemma_rank_of_suffix(a);
    lemma_rank_of_suffix(b);
}

/// At most one name is the next one.
pub proof fn law_next_vd_unique(disks: Seq<Disk>, a: Seq<char>, b: Seq<char>)
    requires
        next_vd(disks, a),
        next_vd(disks, b),
    ensures
        a == b,
{
    let used = used_suffixes(disks);
    let n = choose|n: nat| first_free(used, n) && a == seq!['v', 'd'] + suffix(n);
    let m = choose|m: nat| first_free(used, m) && b == seq!['v', 'd'] + suffix(m);
    if n < m {
        assert(used.contains(suffix(n)));
    } else if m < n {
        assert(used.contains(suffix(m)));
    }
}

/// The next name is the name of no disk there is.
pub proof fn law_next_vd_is_free(disks: Seq<Disk>, name: Seq<char>, i: int)
    requires
        next_vd(disks, name),
        0 <= i < disks.len(),
    ensures
        !(disks[i].target matches Some(target) && target.dev@ == name),
{
    let used = used_suffixes(disks);
    let n = choose|n: nat| first_free(used, n) && name == seq!['v', 'd'] + suffix(n);
    if disks[i].target matches Some(target) && target.dev@ == name {
        let dev = disks[i].target->0.dev@;
        assert(dev.subrange(0, 2) == seq!['v', 'd']);
        assert(dev.skip(2) == suffix(n));
        assert(disk_suffix(disks[i]) == Some(suffix(n)));
        assert(used.contains(suffix(n)));
    }
}

/// The characters of the `n`-th suffix.
pub fn suffix_of(n: usize) -> (s: Vec<char>)
    ensures
        s@ == suffix(n as nat),
    decreases n,
{
    if n < 26 {
        let c: char = (97u8 + n as u8) as char;
        let mut s: Vec<char> = Vec::new();
        s.push(c);
        s
    } else {
        let mut s = suffix_of(n / 26 - 1);
        let c: char = (97u8 + (n % 26) as u8) as char;
        s.push(c);
        s
    }
}

/// Where in `seen` the run of characters `wanted` stands first.
fn position(seen: &Vec<Vec<char>>, wanted: &Vec<char>) -> (at: Option<usize>)
    ensures
        match at {
            Some(j) => j < seen.len() && seen[j as int]@ == wanted@,
            None => forall|j: int| 0 <= j < seen.len() ==> seen[j]@ != wanted@,
        },
{
    let mut j: usize = 0;
    while j < seen.len()
        invariant
            j <= seen.len(),
            forall|k: int| 0 <= k < j ==> seen[k]@ != wanted@,
        decreases seen.len() - j,
    {
        if same_chars(&seen[j], wanted) {
            return Some(j);
        }
        j += 1;
    }
    None
}

/// The suffixes of the target names that begin with `vd`, in the order of the disks.
fn collect_suffixes(disks: &[Disk]) -> (seen: Vec<Vec<char>>)
    ensures
        forall|j: int| 0 <= j < seen.len() ==> used_suffixes(disks@).contains(#[trigger] seen[j]@),
        forall|s: Seq<char>|
            used_suffixes(disks@).contains(s) ==> exists|j: int|
                0 <= j < seen.len() && #[trigger] seen[j]@ == s,
{
    let mut seen: Vec<Vec<char>> = Vec::new();
    let mut i: usize = 0;
    while i < disks.len()
        invariant
            i <= disks.len(),
            forall|j: int|
                0 <= j < seen.len() ==> used_suffixes(disks@).contains(#[trigger] seen[j]@),
            forall|k: int, s: Seq<char>|
                0 <= k < i && disk_suffix(disks@[k]) == Some(s) ==> exists|j: int|
                    0 <= j < seen.len() && #[trigger] seen[j]@ == s,
        decreases disks.len() - i,
    {
        if let Some(target) = &disks[i].target {
            let mut chars = chars_of(target.dev.as_str());
            if chars.len() >= 2 && chars[0] == 'v' && chars[1] == 'd' {
                let rest = chars.split_off(2);
                assert(chars@ == seq!['v', 'd']);
                assert(target.dev@.subrange(0, 2) == seq!['v', 'd']);
                assert(rest@ == target.dev@.skip(2));
                assert(disk_suffix(disks@[i as int]) == Some(rest@));
                let ghost before = seen@;
                seen.push(rest);
                assert(forall|j: int| 0 <= j < before.len() ==> seen[j] == before[j]);
                assert(seen[before.len() as int]@ == rest@);
            } else {
                assert(disk_suffix(disks@[i as int]) is None) by {
                    if chars.len() >= 2 {
                        assert(target.dev@.subrange(0, 2)[0] == chars[0]);
                        assert(target.dev@.subrange(0, 2)[1] == chars[1]);
                    }
                }
            }
        }
        i += 1;
    }
    seen
}

/// The target name for the next disk of a machine: `vd` and the first suffix, in
/// the order a, b, ..., z, aa, ab, ..., that no disk of the machine uses.
pub fn calculate_next_vd(disks: &[Disk]) -> (name: String)
    ensures
        next_vd(disks@, name@),
{
    let mut work = collect_suffixes(disks);
    let ghost used = used_suffixes(disks@);
    let ghost total = work.len();
    let mut n: usize = 0;
    let mut candidate = suffix_of(0);
    loop
        invariant
            n + work.len() == total,
            total <= usize::MAX,
            candidate@ == suffix(n as nat),
            used == used_suffixes(disks@),
            forall|k: nat| k < n ==> used.contains(#[trigger] suffix(k)),
            forall|j: int| 0 <= j < work.len() ==> used.contains(#[trigger] work[j]@),
            forall|s: Seq<char>|
                used.contains(s) ==> (exists|j: int| 0 <= j < work.len() && #[trigger] work[j]@ == s)
                    || (exists|k: nat| k < n && #[trigger] suffix(k) == s),
        ensures
            candidate@ == suffix(n as nat),
            first_free(used, n as nat),
        decreases work.len(),
    {
        match position(&work, &candidate) {
            Some(j) => {
                let ghost before = work@;
                let taken = work.remove(j);
                assert(forall|i: int| 0 <= i < j ==> work[i] == before[i]);
                assert(forall|i: int| j <= i < work.len() ==> work[i] == before[i + 1]);
                assert forall|s: Seq<char>| used.contains(s) implies (exists|i: int|
                    0 <= i < work.len() && #[trigger] work[i]@ == s) || (exists|k: nat|
                    k < n + 1 && #[trigger] suffix(k) == s) by {
                    if exists|k: nat| k < n && #[trigger] suffix(k) == s {
                    } else {
                        let i = choose|i: int| 0 <= i < before.len() && #[trigger] before[i]@ == s;
                        if i < j {
                            assert(work[i]@ == s);
                        } else if i == j {
                            assert(suffix(n as nat) == s);
                        } else {
                            assert(work[i - 1]@ == s);
                        }
                    }
                }
                n += 1;
                candidate = suffix_of(n);
            },
            None => {
                proof {
                    if used.contains(suffix(n as nat)) {
                        let s = suffix(n as nat);
                        if exists|j: int| 0 <= j < work.len() && #[trigger] work[j]@ == s {
                        } else {
                            let k = choose|k: nat| k < n && #[trigger] suffix(k) == s;
                            lemma_suffix_injective(k, n as nat);
                        }
                    }
                }
                break ;
            },
        }
    }
    let mut chars: Vec<char> = Vec::new();
    chars.push('v');
    chars.push('d');
    chars.append(&mut candidate);
    assert(chars@ == seq!['v', 'd'] + suffix(n as nat));
    string_of(&chars)
}

} // verus!
