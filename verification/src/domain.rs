//! Domain records, their run states, and the recovery of disk source
//! paths from a domain description document.

use crate::strutil::spec_views;
use vstd::prelude::*;

verus! {

/// The run state of a hypervisor domain as the inventory reports it.
#[derive(Debug, PartialEq, Eq, Structural, Clone, Copy)]
pub enum DomainState {
    Running,
    Paused,
    Shutdown,
    Shutoff,
    Crashed,
    Unknown,
}

impl DomainState {
    /// The human-readable label of this state.
    pub open spec fn spec_label(self) -> Seq<char> {
        match self {
            DomainState::Running => "running"@,
            DomainState::Paused => "paused"@,
            DomainState::Shutdown => "shutdown"@,
            DomainState::Shutoff => "shut off"@,
            DomainState::Crashed => "crashed"@,
            DomainState::Unknown => "unknown"@,
        }
    }

    /// The human-readable label of this state.
    pub fn label(&self) -> (r: &'static str)
        ensures
            r@ == self.spec_label(),
    {
        match self {
            DomainState::Running => "running",
            DomainState::Paused => "paused",
            DomainState::Shutdown => "shutdown",
            DomainState::Shutoff => "shut off",
            DomainState::Crashed => "crashed",
            DomainState::Unknown => "unknown",
        }
    }
}

/// One domain as the inventory reports it: its name, its run state,
/// and, only while it is active, the numeric id the hypervisor gave it.
#[derive(Debug)]
pub struct DomainInfo {
    pub id: Option<u32>,
    pub name: String,
    pub state: DomainState,
}

/// The token that introduces a disk source path in a domain
/// description document.
pub open spec fn spec_source_marker() -> Seq<char> {
    "<source file="@
}

/// Whether a disk source attribute, quoted either way, starts at
/// position `i` of the document.
pub open spec fn spec_marker_at(s: Seq<char>, i: int) -> bool {
    &&& 0 <= i
    &&& i + 14 <= s.len()
    &&& s.subrange(i, i + 13) == spec_source_marker()
    &&& (s[i + 13] == '\'' || s[i + 13] == '"')
}

/// The first position at or after `j` holding the character `q`, or
/// `-1` when there is none.
pub open spec fn spec_find_char(s: Seq<char>, q: char, j: int) -> int
    decreases s.len() - j,
{
    if j < 0 || j >= s.len() {
        -1
    } else if s[j] == q {
        j
    } else {
        spec_find_char(s, q, j + 1)
    }
}

/// A found position lies between the start of the search and the end
/// of the document.
proof fn lemma_find_char_range(s: Seq<char>, q: char, j: int)
    requires
        0 <= j <= s.len(),
    ensures
        spec_find_char(s, q, j) == -1 || (j <= spec_find_char(s, q, j) < s.len() && s[
            spec_find_char(s, q, j)
        ] == q),
    decreases s.len() - j,
{
    if j < s.len() && s[j] != q {
        lemma_find_char_range(s, q, j + 1);
    }
}

/// A position before which the character does not occur, and which
/// either holds it or is the end, settles the search.
proof fn lemma_find_char_first(s: Seq<char>, q: char, j: int, r: int)
    requires
        0 <= j <= r <= s.len(),
        forall|k: int| j <= k < r ==> s[k] != q,
    ensures
        r < s.len() && s[r] == q ==> spec_find_char(s, q, j) == r,
        r == s.len() ==> spec_find_char(s, q, j) == -1,
    decreases r - j,
{
    if j < r {
        lemma_find_char_first(s, q, j + 1, r);
    }
}

/// The disk source paths of the document from position `i` on: at each
/// marker, the characters between its opening quote and the next
/// matching quote, in document order. An unterminated quote ends the
/// scan.
pub open spec fn spec_extract_from(s: Seq<char>, i: int) -> Seq<Seq<char>>
    decreases s.len() - i when 0 <= i <= s.len() via spec_extract_from_dec
{
    if i >= s.len() {
        Seq::empty()
    } else if spec_marker_at(s, i) {
        let j = spec_find_char(s, s[i + 13], i + 14);
        if j >= 0 {
            seq![s.subrange(i + 14, j)] + spec_extract_from(s, j + 1)
        } else {
            Seq::empty()
        }
    } else {
        spec_extract_from(s, i + 1)
    }
}

#[via_fn]
proof fn spec_extract_from_dec(s: Seq<char>, i: int) {
    if 0 <= i && i < s.len() && spec_marker_at(s, i) {
        lemma_find_char_range(s, s[i + 13], i + 14);
    }
}

/// Every disk source path of the document, in document order.
pub open spec fn spec_extract_disk_paths(s: Seq<char>) -> Seq<Seq<char>> {
    spec_extract_from(s, 0)
}

/// Whether a disk source attribute starts at position `i`.
fn marker_at_exec(xml: &str, i: usize) -> (b: bool)
    requires
        xml@.len() <= usize::MAX,
        i + 14 <= xml@.len(),
    ensures
        b == spec_marker_at(xml@, i as int),
{
    proof {
        reveal_strlit("<source file=");
    }
    let marker = "<source file=";
    let mlen = marker.unicode_len();
    let mut k: usize = 0;
    while k < mlen
        invariant
            k <= mlen,
            mlen == 13,
            marker@ == spec_source_marker(),
            marker@.len() == 13,
            xml@.len() <= usize::MAX,
            i + 14 <= xml@.len(),
            forall|t: int| 0 <= t < k ==> xml@[i + t] == spec_source_marker()[t],
        decreases mlen - k,
    {
        if xml.get_char(i + k) != marker.get_char(k) {
            proof {
                assert(xml@.subrange(i as int, i as int + 13)[k as int]
                    != spec_source_marker()[k as int]);
            }
            return false;
        }
        k = k + 1;
    }
    proof {
        assert(xml@.subrange(i as int, i as int + 13) =~= spec_source_marker());
    }
    let q = xml.get_char(i + 13);
    q == '\'' || q == '"'
}

/// Collects every disk source path of a domain description document,
/// in document order, exactly as `spec_extract_disk_paths` states it.
///
/// The paths must be captured from the description before the domain
/// is undefined; this is the query the teardown flow uses.
pub fn extract_disk_paths_from_xml(xml: &str) -> (r: Vec<String>)
    ensures
        spec_views(r@) == spec_extract_disk_paths(xml@),
{
    let ghost s = xml@;
    let n = xml.unicode_len();
    let mut paths: Vec<String> = Vec::new();
    let mut i: usize = 0;
    proof {
        assert(spec_views(paths@) =~= Seq::<Seq<char>>::empty());
        assert(spec_views(paths@) + spec_extract_from(s, 0) =~= spec_extract_from(s, 0));
    }
    while i < n
        invariant
            i <= n,
            n == s.len(),
            xml@ == s,
            spec_views(paths@) + spec_extract_from(s, i as int) == spec_extract_from(s, 0),
        decreases n - i,
    {
        if n - i >= 14 && marker_at_exec(xml, i) {
            let q = xml.get_char(i + 13);
            let mut j: usize = i + 14;
            while j < n && xml.get_char(j) != q
                invariant
                    i + 14 <= j <= n,
                    n == s.len(),
                    xml@ == s,
                    q == s[i + 13],
                    forall|t: int| i + 14 <= t < j ==> s[t] != q,
                decreases n - j,
            {
                j = j + 1;
            }
            if j < n {
                proof {
                    lemma_find_char_first(s, q, i + 14, j as int);
                    assert(spec_extract_from(s, i as int) == seq![s.subrange(i + 14, j as int)]
                        + spec_extract_from(s, j + 1));
                }
                let p = String::from_str(xml.substring_char(i + 14, j));
                proof {
                    assert(spec_views(paths@.push(p)) =~= spec_views(paths@).push(p@));
                    assert(spec_views(paths@).push(p@) + spec_extract_from(s, j + 1)
                        =~= spec_views(paths@) + (seq![p@] + spec_extract_from(s, j + 1)));
                }
                paths.push(p);
                i = j + 1;
            } else {
                proof {
                    lemma_find_char_first(s, q, i + 14, j as int);
                    assert(spec_extract_from(s, i as int) =~= Seq::<Seq<char>>::empty());
                    assert(spec_views(paths@) + spec_extract_from(s, n as int) =~= spec_views(
                        paths@,
                    ));
                    assert(spec_extract_from(s, n as int) =~= Seq::<Seq<char>>::empty());
                }
                i = n;
            }
        } else {
            proof {
                assert(!spec_marker_at(s, i as int));
                assert(spec_extract_from(s, i as int) == spec_extract_from(s, i + 1));
            }
            i = i + 1;
        }
    }
    proof {
        assert(spec_extract_from(s, n as int) =~= Seq::<Seq<char>>::empty());
        assert(spec_views(paths@) + spec_extract_from(s, n as int) =~= spec_views(paths@));
    }
    paths
}

} // verus!
