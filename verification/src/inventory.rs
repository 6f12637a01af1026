//! The inventory: classifies the domains the control plane reports,
//! orders them by name, and filters them for display.

use crate::domain::DomainInfo;
use crate::domain::DomainState;
use vstd::multiset::Multiset;
use vstd::prelude::*;
use vstd::seq_lib::group_to_multiset_ensures;
use vstd::seq_lib::lemma_multiset_commutative;

verus! {

broadcast use group_to_multiset_ensures;

/// The control plane's code for a running domain.
pub const STATE_CODE_RUNNING: u32 = 1;

/// The control plane's code for a paused domain.
pub const STATE_CODE_PAUSED: u32 = 3;

/// The control plane's code for a domain that is shutting down.
pub const STATE_CODE_SHUTDOWN: u32 = 4;

/// The control plane's code for a shut-off domain.
pub const STATE_CODE_SHUTOFF: u32 = 5;

/// The control plane's code for a crashed domain.
pub const STATE_CODE_CRASHED: u32 = 6;

/// The domain state a control-plane state code maps onto; codes
/// outside the known enumeration reduce to `Unknown`, never to an
/// error.
pub open spec fn spec_map_domain_state(code: u32) -> DomainState {
    if code == STATE_CODE_RUNNING {
        DomainState::Running
    } else if code == STATE_CODE_PAUSED {
        DomainState::Paused
    } else if code == STATE_CODE_SHUTDOWN {
        DomainState::Shutdown
    } else if code == STATE_CODE_SHUTOFF {
        DomainState::Shutoff
    } else if code == STATE_CODE_CRASHED {
        DomainState::Crashed
    } else {
        DomainState::Unknown
    }
}

/// Maps a control-plane state code onto the domain state set.
pub fn map_domain_state(code: u32) -> (s: DomainState)
    ensures
        s == spec_map_domain_state(code),
{
    if code == STATE_CODE_RUNNING {
        DomainState::Running
    } else if code == STATE_CODE_PAUSED {
        DomainState::Paused
    } else if code == STATE_CODE_SHUTDOWN {
        DomainState::Shutdown
    } else if code == STATE_CODE_SHUTOFF {
        DomainState::Shutoff
    } else if code == STATE_CODE_CRASHED {
        DomainState::Crashed
    } else {
        DomainState::Unknown
    }
}

/// One active domain as the control plane reports it: its name, the
/// id it carries while active, and its raw state code.
#[derive(Debug)]
pub struct ActiveDomainRecord {
    pub name: String,
    pub id: Option<u32>,
    pub state_code: u32,
}

/// The inventory record of one active domain: its state code mapped
/// onto the state set, and the reported id — except that a record
/// classified shut off is never assigned an id.
pub open spec fn spec_active_record(a: ActiveDomainRecord) -> DomainInfo {
    DomainInfo {
        id: if spec_map_domain_state(a.state_code) == DomainState::Shutoff {
            None
        } else {
            a.id
        },
        name: a.name,
        state: spec_map_domain_state(a.state_code),
    }
}

/// The inventory record of one inactive domain: no id, shut off.
pub open spec fn spec_inactive_record(name: String) -> DomainInfo {
    DomainInfo { id: None, name, state: DomainState::Shutoff }
}

/// Every record of one inventory query, actives first, before
/// ordering.
pub open spec fn spec_inventory(active: Seq<ActiveDomainRecord>, inactive: Seq<String>) -> Seq<
    DomainInfo,
> {
    active.map_values(|a: ActiveDomainRecord| spec_active_record(a)) + inactive.map_values(
        |n: String| spec_inactive_record(n),
    )
}

/// No inventory record with a shut-off state carries an id.
pub open spec fn spec_wf_record(d: DomainInfo) -> bool {
    d.state == DomainState::Shutoff ==> d.id is None
}

/// Law: classification never assigns an id to a record it reports
/// shut off, and hands a record it reports running exactly the id the
/// control plane gave the active domain.
pub proof fn lemma_inventory_ids(a: ActiveDomainRecord)
    ensures
        spec_wf_record(spec_active_record(a)),
        spec_active_record(a).state == DomainState::Running ==> spec_active_record(a).id == a.id,
        spec_wf_record(spec_inactive_record(a.name)),
{
}

/// Lexicographic order on text, by scalar value.
pub open spec fn spec_str_le(a: Seq<char>, b: Seq<char>) -> bool
    decreases a.len(),
{
    if a.len() == 0 {
        true
    } else if b.len() == 0 {
        false
    } else if (a[0] as int) < (b[0] as int) {
        true
    } else if (a[0] as int) > (b[0] as int) {
        false
    } else {
        spec_str_le(a.drop_first(), b.drop_first())
    }
}

/// The order is total: of any two texts, one precedes the other.
proof fn lemma_str_le_total(a: Seq<char>, b: Seq<char>)
    ensures
        spec_str_le(a, b) || spec_str_le(b, a),
    decreases a.len(),
{
    if a.len() > 0 && b.len() > 0 && a[0] == b[0] {
        lemma_str_le_total(a.drop_first(), b.drop_first());
    }
}

/// The order is transitive.
proof fn lemma_str_le_trans(a: Seq<char>, b: Seq<char>, c: Seq<char>)
    requires
        spec_str_le(a, b),
        spec_str_le(b, c),
    ensures
        spec_str_le(a, c),
    decreases a.len(),
{
    if a.len() > 0 && b.len() > 0 && c.len() > 0 && a[0] == b[0] && b[0] == c[0] {
        lemma_str_le_trans(a.drop_first(), b.drop_first(), c.drop_first());
    }
}

/// Compares two names in the lexicographic order.
pub fn str_le(a: &str, b: &str) -> (r: bool)
    ensures
        r == spec_str_le(a@, b@),
{
    let na = a.unicode_len();
    let nb = b.unicode_len();
    let mut i: usize = 0;
    proof {
        assert(a@.skip(0) =~= a@);
        assert(b@.skip(0) =~= b@);
    }
    while i < na && i < nb
        invariant
            i <= na,
            i <= nb,
            na == a@.len(),
            nb == b@.len(),
            spec_str_le(a@, b@) == spec_str_le(a@.skip(i as int), b@.skip(i as int)),
        decreases na - i,
    {
        let ca = a.get_char(i);
        let cb = b.get_char(i);
        proof {
            assert(a@.skip(i as int)[0] == a@[i as int]);
            assert(b@.skip(i as int)[0] == b@[i as int]);
            assert(a@.skip(i as int).drop_first() =~= a@.skip(i + 1));
            assert(b@.skip(i as int).drop_first() =~= b@.skip(i + 1));
        }
        if (ca as u32) < (cb as u32) {
            return true;
        }
        if (cb as u32) < (ca as u32) {
            return false;
        }
        i = i + 1;
    }
    proof {
        if i >= na {
            assert(a@.skip(i as int).len() == 0);
        } else {
            assert(b@.skip(i as int).len() == 0);
            assert(a@.skip(i as int).len() > 0);
        }
    }
    i >= na
}

/// Whether an inventory is ordered by name.
pub open spec fn spec_sorted_by_name(s: Seq<DomainInfo>) -> bool {
    forall|i: int, j: int|
        0 <= i < j < s.len() ==> spec_str_le(s[i].name@, s[j].name@)
}

/// Inserting an element at a position bounded by its neighbors keeps
/// an inventory ordered.
proof fn lemma_sorted_insert(s: Seq<DomainInfo>, j: int, x: DomainInfo)
    requires
        spec_sorted_by_name(s),
        0 <= j <= s.len(),
        forall|k: int| 0 <= k < j ==> spec_str_le(s[k].name@, x.name@),
        j < s.len() ==> spec_str_le(x.name@, s[j].name@),
    ensures
        spec_sorted_by_name(s.insert(j, x)),
{
    let t = s.insert(j, x);
    s.insert_ensures(j, x);
    assert forall|p: int, q: int| 0 <= p < q < t.len() implies spec_str_le(t[p].name@, t[q].name@) by {
        if p < j && q < j {
        } else if p < j && q == j {
        } else if p < j && q > j {
        } else if p == j && q > j {
            if q - 1 > j {
                lemma_str_le_trans(x.name@, s[j].name@, s[q - 1].name@);
            }
        } else {
        }
    }
}

/// Inserting into a sequence inserts into its multiset.
proof fn lemma_insert_to_multiset(s: Seq<DomainInfo>, j: int, x: DomainInfo)
    requires
        0 <= j <= s.len(),
    ensures
        s.insert(j, x).to_multiset() =~= s.to_multiset().insert(x),
{
    let left = s.subrange(0, j);
    let right = s.subrange(j, s.len() as int);
    assert(s.insert(j, x) =~= left + (seq![x] + right));
    lemma_multiset_commutative(left, seq![x] + right);
    lemma_multiset_commutative(seq![x], right);
    assert(s =~= left + right);
    lemma_multiset_commutative(left, right);
    assert(seq![x] =~= Seq::<DomainInfo>::empty().push(x));
    assert(Seq::<DomainInfo>::empty().push(x).to_multiset() =~= Seq::<
        DomainInfo,
    >::empty().to_multiset().insert(x));
    assert(Seq::<DomainInfo>::empty().to_multiset() =~= Multiset::<DomainInfo>::empty());
}

/// Orders an inventory by name; the records are exactly the given
/// ones.
pub fn sort_by_name(v: Vec<DomainInfo>) -> (r: Vec<DomainInfo>)
    ensures
        r@.to_multiset() == v@.to_multiset(),
        spec_sorted_by_name(r@),
{
    let ghost total = v@.to_multiset();
    let mut pending = v;
    let mut r: Vec<DomainInfo> = Vec::new();
    proof {
        assert(r@.to_multiset() =~= Multiset::<DomainInfo>::empty());
        assert(r@.to_multiset().add(pending@.to_multiset()) =~= total);
    }
    while pending.len() > 0
        invariant
            r@.to_multiset().add(pending@.to_multiset()) == total,
            spec_sorted_by_name(r@),
        decreases pending.len(),
    {
        let ghost pending0 = pending@;
        let x = pending.remove(0);
        proof {
            assert(pending0[0] == x);
            assert(pending@ == pending0.remove(0));
            assert(pending0.remove(0).to_multiset() =~= pending0.to_multiset().remove(x));
        }
        let mut j: usize = 0;
        while j < r.len() && str_le(r[j].name.as_str(), x.name.as_str())
            invariant
                j <= r@.len(),
                forall|k: int| 0 <= k < j ==> spec_str_le(r@[k].name@, x.name@),
            decreases r@.len() - j,
        {
            j = j + 1;
        }
        proof {
            if j < r@.len() {
                lemma_str_le_total(r@[j as int].name@, x.name@);
            }
            lemma_sorted_insert(r@, j as int, x);
            lemma_insert_to_multiset(r@, j as int, x);
            assert(r@.insert(j as int, x).to_multiset().add(pending@.to_multiset()) =~= total);
        }
        r.insert(j, x);
    }
    proof {
        assert(pending@.to_multiset() =~= Multiset::<DomainInfo>::empty());
        assert(r@.to_multiset() =~= total);
    }
    r
}

/// A property of every record of a sequence carries over to any
/// rearrangement of it.
proof fn lemma_multiset_all(a: Seq<DomainInfo>, b: Seq<DomainInfo>, pred: spec_fn(DomainInfo) -> bool)
    requires
        a.to_multiset() == b.to_multiset(),
        forall|i: int| 0 <= i < a.len() ==> pred(a[i]),
    ensures
        forall|i: int| 0 <= i < b.len() ==> pred(b[i]),
{
    assert forall|i: int| 0 <= i < b.len() implies pred(b[i]) by {
        assert(b.contains(b[i]));
        assert(b.to_multiset().count(b[i]) > 0);
        assert(a.contains(b[i]));
        let j = choose|j: int| 0 <= j < a.len() && a[j] == b[i];
        assert(pred(a[j]));
    }
}

/// Lists and classifies domains.
pub struct Inventory;

impl Inventory {
    /// Builds the inventory of one query: every active domain mapped
    /// onto the state set, every inactive domain shut off and without
    /// an id, the whole ordered by name. No record reported shut off
    /// carries an id; and when the control plane gave every active
    /// domain an id — as it does while they run — every record
    /// reported running carries one.
    pub fn list(active: Vec<ActiveDomainRecord>, inactive: Vec<String>) -> (r: Vec<DomainInfo>)
        ensures
            r@.to_multiset() == spec_inventory(active@, inactive@).to_multiset(),
            spec_sorted_by_name(r@),
            forall|k: int| 0 <= k < r@.len() ==> spec_wf_record(#[trigger] r@[k]),
            (forall|k: int| 0 <= k < active@.len() ==> (#[trigger] active@[k].id) is Some)
                ==> forall|k: int|
                0 <= k < r@.len() && (#[trigger] r@[k].state) == DomainState::Running
                    ==> r@[k].id is Some,
    {
        let ghost a0 = active@;
        let ghost in0 = inactive@;
        let ghost spec_all = spec_inventory(a0, in0);
        let mut records: Vec<DomainInfo> = Vec::new();
        let mut pending_active = active;
        proof {
            assert(records@ =~= a0.take(0).map_values(
                |a: ActiveDomainRecord| spec_active_record(a),
            ));
            assert(pending_active@ =~= a0.skip(0));
        }
        while pending_active.len() > 0
            invariant
                records@.len() <= a0.len(),
                records@ == a0.take(records@.len() as int).map_values(
                    |a: ActiveDomainRecord| spec_active_record(a),
                ),
                pending_active@ == a0.skip(records@.len() as int),
            decreases pending_active.len(),
        {
            let ghost i = records@.len() as int;
            let a = pending_active.remove(0);
            proof {
                assert(a == a0.skip(i)[0]);
                assert(a == a0[i]);
                assert(a0.skip(i).remove(0) =~= a0.skip(i + 1));
            }
            let state = map_domain_state(a.state_code);
            let id = if matches!(state, DomainState::Shutoff) {
                None
            } else {
                a.id
            };
            let rec = DomainInfo { id, name: a.name, state };
            proof {
                assert(rec == spec_active_record(a0[i]));
                assert(a0.take(i + 1).map_values(|a: ActiveDomainRecord| spec_active_record(a))
                    =~= a0.take(i).map_values(
                    |a: ActiveDomainRecord| spec_active_record(a),
                ).push(spec_active_record(a0[i])));
            }
            records.push(rec);
        }
        proof {
            assert(a0.take(records@.len() as int) =~= a0);
        }
        let ghost base = a0.map_values(|a: ActiveDomainRecord| spec_active_record(a));
        let ghost n_active = a0.len() as int;
        let mut pending_inactive = inactive;
        proof {
            assert(records@ =~= base + in0.take(0).map_values(
                |n: String| spec_inactive_record(n),
            ));
            assert(pending_inactive@ =~= in0.skip(0));
        }
        while pending_inactive.len() > 0
            invariant
                n_active <= records@.len() <= n_active + in0.len(),
                n_active == base.len(),
                records@ == base + in0.take(records@.len() - n_active).map_values(
                    |n: String| spec_inactive_record(n),
                ),
                pending_inactive@ == in0.skip(records@.len() - n_active),
            decreases pending_inactive.len(),
        {
            let ghost j = records@.len() - n_active;
            let name = pending_inactive.remove(0);
            proof {
                assert(name == in0.skip(j)[0]);
                assert(name == in0[j]);
                assert(in0.skip(j).remove(0) =~= in0.skip(j + 1));
            }
            let rec = DomainInfo { id: None, name, state: DomainState::Shutoff };
            proof {
                assert(rec == spec_inactive_record(in0[j]));
                assert(in0.take(j + 1).map_values(|n: String| spec_inactive_record(n)) =~= in0.take(
                    j,
                ).map_values(|n: String| spec_inactive_record(n)).push(spec_inactive_record(
                    in0[j],
                )));
                assert(base + in0.take(j).map_values(|n: String| spec_inactive_record(n)).push(
                    spec_inactive_record(in0[j]),
                ) =~= (base + in0.take(j).map_values(|n: String| spec_inactive_record(n))).push(
                    spec_inactive_record(in0[j]),
                ));
            }
            records.push(rec);
        }
        proof {
            assert(in0.take(records@.len() - n_active) =~= in0);
            assert(records@ =~= spec_all);
        }
        let r = sort_by_name(records);
        proof {
            let wf_pred = |d: DomainInfo| spec_wf_record(d);
            assert forall|k: int| 0 <= k < spec_all.len() implies wf_pred(spec_all[k]) by {
                if k < n_active {
                    assert(spec_all[k] == spec_active_record(a0[k]));
                } else {
                    assert(spec_all[k] == spec_inactive_record(in0[k - n_active]));
                }
            }
            lemma_multiset_all(spec_all, r@, wf_pred);
            assert(forall|k: int| 0 <= k < r@.len() ==> spec_wf_record(#[trigger] r@[k]));
            if forall|k: int| 0 <= k < a0.len() ==> (#[trigger] a0[k].id) is Some {
                let run_pred = |d: DomainInfo| d.state == DomainState::Running ==> d.id is Some;
                assert forall|k: int| 0 <= k < spec_all.len() implies run_pred(spec_all[k]) by {
                    if k < n_active {
                        assert(spec_all[k] == spec_active_record(a0[k]));
                        assert(a0[k].id is Some);
                    } else {
                        assert(spec_all[k] == spec_inactive_record(in0[k - n_active]));
                    }
                }
                lemma_multiset_all(spec_all, r@, run_pred);
                assert(forall|k: int|
                    0 <= k < r@.len() && (#[trigger] r@[k].state) == DomainState::Running
                        ==> r@[k].id is Some);
            }
        }
        r
    }

    /// Selects the records to display: everything under "show all",
    /// the running ones under "show running", the shut-off ones under
    /// "show inactive"; a pure predicate over the listed records.
    pub fn select_domains(
        domains: Vec<DomainInfo>,
        show_all: bool,
        show_running: bool,
        show_inactive: bool,
    ) -> (r: Vec<DomainInfo>)
        ensures
            r@ == spec_selection(domains@, show_all, show_running, show_inactive),
    {
        let ghost d0 = domains@;
        let mut pending = domains;
        let mut r: Vec<DomainInfo> = Vec::new();
        let ghost mut i: int = 0;
        proof {
            lemma_selection_take(d0, show_all, show_running, show_inactive, 0);
            assert(r@ =~= spec_selection(d0.take(0), show_all, show_running, show_inactive));
            assert(pending@ =~= d0.skip(0));
        }
        while pending.len() > 0
            invariant
                0 <= i <= d0.len(),
                r@ == spec_selection(d0.take(i), show_all, show_running, show_inactive),
                pending@ == d0.skip(i),
            decreases pending.len(),
        {
            let d = pending.remove(0);
            proof {
                assert(d == d0.skip(i)[0]);
                assert(d == d0[i]);
                assert(d0.skip(i).remove(0) =~= d0.skip(i + 1));
            }
            let keep = show_all || (show_running && matches!(d.state, DomainState::Running)) || (
            show_inactive && matches!(d.state, DomainState::Shutoff));
            proof {
                assert(keep == spec_selected(d0[i], show_all, show_running, show_inactive));
                lemma_selection_take(d0, show_all, show_running, show_inactive, i + 1);
            }
            if keep {
                r.push(d);
            }
            proof {
                i = i + 1;
            }
        }
        proof {
            assert(d0.take(i) =~= d0);
        }
        r
    }
}

/// Whether one record is displayed under the given flags.
pub open spec fn spec_selected(
    d: DomainInfo,
    show_all: bool,
    show_running: bool,
    show_inactive: bool,
) -> bool {
    show_all || (show_running && d.state == DomainState::Running) || (show_inactive && d.state
        == DomainState::Shutoff)
}

/// The displayed part of an inventory, in its order.
pub open spec fn spec_selection(
    s: Seq<DomainInfo>,
    show_all: bool,
    show_running: bool,
    show_inactive: bool,
) -> Seq<DomainInfo> {
    s.filter(|d: DomainInfo| spec_selected(d, show_all, show_running, show_inactive))
}

/// One step of the selection: taking one more record keeps it exactly
/// when the predicate holds of it.
proof fn lemma_selection_take(
    s: Seq<DomainInfo>,
    show_all: bool,
    show_running: bool,
    show_inactive: bool,
    i: int,
)
    requires
        0 <= i <= s.len(),
    ensures
        i == 0 ==> spec_selection(s.take(0), show_all, show_running, show_inactive) == Seq::<
            DomainInfo,
        >::empty(),
        i > 0 && spec_selected(s[i - 1], show_all, show_running, show_inactive)
            ==> spec_selection(s.take(i), show_all, show_running, show_inactive) == spec_selection(
            s.take(i - 1),
            show_all,
            show_running,
            show_inactive,
        ).push(s[i - 1]),
        i > 0 && !spec_selected(s[i - 1], show_all, show_running, show_inactive)
            ==> spec_selection(s.take(i), show_all, show_running, show_inactive) == spec_selection(
            s.take(i - 1),
            show_all,
            show_running,
            show_inactive,
        ),
{
    if i == 0 {
        assert(s.take(0) =~= Seq::<DomainInfo>::empty());
        assert(spec_selection(s.take(0), show_all, show_running, show_inactive) =~= Seq::<
            DomainInfo,
        >::empty());
    } else {
        let t = s.take(i);
        reveal_with_fuel(Seq::<DomainInfo>::filter, 2);
        assert(t.len() == i > 0);
        assert(t.drop_last() =~= s.take(i - 1));
        assert(t.last() == s[i - 1]);
    }
}

} // verus!
