//! Role synchronization engine and permission validator.
//!
//! `compute_sync_plan` turns a member's current roles and a menu selection
//! into the additions and removals to apply; `validate_role_manageable`
//! enforces the platform hierarchy rules before any grant or revoke; the
//! remaining functions record per-role outcomes, so that one failing role
//! never aborts the rest of a batch.
use vstd::prelude::*;
use vstd::seq_lib::group_filter_ensures;

use crate::error::AppError;
use crate::model::PanelRole;
use crate::text::dec_str;
use crate::text::u64_to_string;

verus! {

/// Snapshot of a guild role as the platform reports it: its id, its rank in
/// the role hierarchy, and whether an integration owns it.
#[derive(Debug, Clone, Copy, PartialEq, Eq, Structural)]
pub struct RoleInfo {
    pub id: u64,
    pub position: i64,
    pub managed: bool,
}

/// One successfully applied role change: the role and the label it carries
/// on the panel.
#[derive(Debug, Clone)]
pub struct AppliedChange {
    pub role_id: u64,
    pub label: String,
}

/// What one synchronization run actually changed, per direction.
#[derive(Debug, Clone)]
pub struct RoleSyncResult {
    pub added: Vec<AppliedChange>,
    pub removed: Vec<AppliedChange>,
}

/// The diff a synchronization run will apply.
#[derive(Debug, Clone)]
pub struct SyncPlan {
    /// The member's current roles restricted to the panel's roles.
    pub current: Vec<u64>,
    /// Selected roles the member does not hold yet, in selection order.
    pub to_add: Vec<u64>,
    /// Held panel roles missing from the selection, in membership order.
    pub to_remove: Vec<u64>,
}

/// Membership predicate used by the diff filters.
pub open spec fn in_pred(tbl: Seq<u64>) -> spec_fn(u64) -> bool {
    |r: u64| tbl.contains(r)
}

pub open spec fn not_in_pred(tbl: Seq<u64>) -> spec_fn(u64) -> bool {
    |r: u64| !tbl.contains(r)
}

/// The member's current panel-scoped roles.
pub open spec fn current_spec(panel: Seq<u64>, member: Seq<u64>) -> Seq<u64> {
    member.filter(in_pred(panel))
}

/// What the diff adds: the selection minus the current roles.
pub open spec fn to_add_spec(current: Seq<u64>, selected: Seq<u64>) -> Seq<u64> {
    selected.filter(not_in_pred(current))
}

/// What the diff removes: the current roles missing from the selection.
pub open spec fn to_remove_spec(current: Seq<u64>, selected: Seq<u64>) -> Seq<u64> {
    current.filter(not_in_pred(selected))
}

/// Set form of the additions.
pub open spec fn sync_to_add_set(current: Set<u64>, selected: Set<u64>) -> Set<u64> {
    selected.difference(current)
}

/// Set form of the removals.
pub open spec fn sync_to_remove_set(current: Set<u64>, selected: Set<u64>) -> Set<u64> {
    current.difference(selected)
}

/// Whether `v` holds `x`.
pub fn contains_u64(v: &Vec<u64>, x: u64) -> (b: bool)
    ensures
        b == v@.contains(x),
{
    let mut i: usize = 0;
    while i < v.len()
        invariant
            i <= v@.len(),
            forall|j: int| 0 <= j < i ==> v@[j] != x,
        decreases v@.len() - i,
    {
        if v[i] == x {
            return true;
        }
        i = i + 1;
    }
    false
}

fn retain_in(src: &Vec<u64>, tbl: &Vec<u64>) -> (out: Vec<u64>)
    ensures
        out@ == src@.filter(in_pred(tbl@)),
{
    let mut out: Vec<u64> = Vec::new();
    let mut i: usize = 0;
    proof {
        assert(src@.subrange(0, 0).filter(in_pred(tbl@)) =~= Seq::<u64>::empty());
    }
    while i < src.len()
        invariant
            i <= src@.len(),
            out@ == src@.subrange(0, i as int).filter(in_pred(tbl@)),
        decreases src@.len() - i,
    {
        let x = src[i];
        proof {
            assert(src@.subrange(0, i as int).push(x) =~= src@.subrange(0, i + 1));
            src@.subrange(0, i as int).lemma_filter_push(x, in_pred(tbl@));
        }
        if contains_u64(tbl, x) {
            out.push(x);
        }
        i = i + 1;
    }
    proof {
        assert(src@.subrange(0, src@.len() as int) =~= src@);
    }
    out
}

fn retain_not_in(src: &Vec<u64>, tbl: &Vec<u64>) -> (out: Vec<u64>)
    ensures
        out@ == src@.filter(not_in_pred(tbl@)),
{
    let mut out: Vec<u64> = Vec::new();
    let mut i: usize = 0;
    proof {
        assert(src@.subrange(0, 0).filter(not_in_pred(tbl@)) =~= Seq::<u64>::empty());
    }
    while i < src.len()
        invariant
            i <= src@.len(),
            out@ == src@.subrange(0, i as int).filter(not_in_pred(tbl@)),
        decreases src@.len() - i,
    {
        let x = src[i];
        proof {
            assert(src@.subrange(0, i as int).push(x) =~= src@.subrange(0, i + 1));
            src@.subrange(0, i as int).lemma_filter_push(x, not_in_pred(tbl@));
        }
        if !contains_u64(tbl, x) {
            out.push(x);
        }
        i = i + 1;
    }
    proof {
        assert(src@.subrange(0, src@.len() as int) =~= src@);
    }
    out
}

/// Computes the diff between a member's current panel-scoped roles and the
/// selection: additions first, then removals, each in input order.
pub fn compute_sync_plan(
    panel_role_ids: &Vec<u64>,
    member_role_ids: &Vec<u64>,
    selected_role_ids: &Vec<u64>,
) -> (p: SyncPlan)
    ensures
        p.current@ == current_spec(panel_role_ids@, member_role_ids@),
        p.to_add@ == to_add_spec(p.current@, selected_role_ids@),
        p.to_remove@ == to_remove_spec(p.current@, selected_role_ids@),
        p.current@.to_set() == member_role_ids@.to_set().intersect(panel_role_ids@.to_set()),
        p.to_add@.to_set() == sync_to_add_set(p.current@.to_set(), selected_role_ids@.to_set()),
        p.to_remove@.to_set() == sync_to_remove_set(p.current@.to_set(), selected_role_ids@.to_set()),
{
    let current = retain_in(member_role_ids, panel_role_ids);
    let to_add = retain_not_in(selected_role_ids, &current);
    let to_remove = retain_not_in(&current, selected_role_ids);
    proof {
        lemma_filter_in_to_set(member_role_ids@, panel_role_ids@);
        lemma_filter_not_in_to_set(selected_role_ids@, current@);
        lemma_filter_not_in_to_set(current@, selected_role_ids@);
    }
    SyncPlan { current, to_add, to_remove }
}

/// Filtering by membership computes exactly the set intersection.
proof fn lemma_filter_in_to_set(src: Seq<u64>, tbl: Seq<u64>)
    ensures
        src.filter(in_pred(tbl)).to_set() == src.to_set().intersect(tbl.to_set()),
{
    broadcast use group_filter_ensures;
    broadcast use Seq::lemma_filter_contains_rev;

    assert(src.filter(in_pred(tbl)).to_set() =~= src.to_set().intersect(tbl.to_set())) by {
        assert forall|x: u64| src.to_set().intersect(tbl.to_set()).contains(x) implies src.filter(
            in_pred(tbl),
        ).to_set().contains(x) by {
            let i = choose|i: int| 0 <= i < src.len() && src[i] == x;
            assert(src.filter(in_pred(tbl)).contains(src[i]));
        }
    }
}

/// Filtering by non-membership computes exactly the set difference.
proof fn lemma_filter_not_in_to_set(src: Seq<u64>, tbl: Seq<u64>)
    ensures
        src.filter(not_in_pred(tbl)).to_set() == src.to_set().difference(tbl.to_set()),
{
    broadcast use group_filter_ensures;
    broadcast use Seq::lemma_filter_contains_rev;

    assert(src.filter(not_in_pred(tbl)).to_set() =~= src.to_set().difference(tbl.to_set())) by {
        assert forall|x: u64| src.to_set().difference(tbl.to_set()).contains(x) implies src.filter(
            not_in_pred(tbl),
        ).to_set().contains(x) by {
            let i = choose|i: int| 0 <= i < src.len() && src[i] == x;
            assert(src.filter(not_in_pred(tbl)).contains(src[i]));
        }
    }
}

/// Partition law: the computed additions and removals are disjoint, and
/// together with the current roles they reconstruct exactly the union of
/// the current roles and the selection.
pub proof fn lemma_sync_partition(current: Set<u64>, selected: Set<u64>)
    ensures
        sync_to_add_set(current, selected).intersect(sync_to_remove_set(current, selected))
            == Set::<u64>::empty(),
        sync_to_add_set(current, selected).union(current).union(
            sync_to_remove_set(current, selected),
        ) == current.union(selected),
{
    assert(sync_to_add_set(current, selected).intersect(sync_to_remove_set(current, selected))
        =~= Set::<u64>::empty());
    assert(sync_to_add_set(current, selected).union(current).union(
        sync_to_remove_set(current, selected),
    ) =~= current.union(selected));
}

/// Partition law for the computed plan itself: the additions and removals
/// are disjoint, and together with the current roles they reconstruct
/// exactly the union of the current roles and the selection.
pub proof fn lemma_plan_partition(panel: Seq<u64>, member: Seq<u64>, selected: Seq<u64>)
    ensures
        ({
            let current = current_spec(panel, member);
            let to_add = to_add_spec(current, selected);
            let to_remove = to_remove_spec(current, selected);
            to_add.to_set().intersect(to_remove.to_set()) == Set::<u64>::empty() && to_add.to_set()
                .union(current.to_set()).union(to_remove.to_set()) == current.to_set().union(
                selected.to_set(),
            )
        }),
{
    let current = current_spec(panel, member);
    lemma_filter_not_in_to_set(selected, current);
    lemma_filter_not_in_to_set(current, selected);
    lemma_sync_partition(current.to_set(), selected.to_set());
    assert(sync_to_add_set(current.to_set(), selected.to_set()).union(current.to_set()).union(
        sync_to_remove_set(current.to_set(), selected.to_set()),
    ) == current.to_set().union(selected.to_set()));
}

/// Idempotence law: applying the diff and immediately recomputing it on the
/// resulting membership yields no further additions or removals.  The
/// selection is drawn from the panel's menu, so it only offers panel roles.
pub proof fn lemma_sync_idempotent(panel: Set<u64>, member: Set<u64>, selected: Set<u64>)
    requires
        selected.subset_of(panel),
    ensures
        ({
            let current = member.intersect(panel);
            let member_after = member.union(sync_to_add_set(current, selected)).difference(
                sync_to_remove_set(current, selected),
            );
            let current_after = member_after.intersect(panel);
            sync_to_add_set(current_after, selected) == Set::<u64>::empty()
                && sync_to_remove_set(current_after, selected) == Set::<u64>::empty()
        }),
{
    let current = member.intersect(panel);
    let member_after = member.union(sync_to_add_set(current, selected)).difference(
        sync_to_remove_set(current, selected),
    );
    let current_after = member_after.intersect(panel);
    assert(current_after =~= selected);
    assert(sync_to_add_set(current_after, selected) =~= Set::<u64>::empty());
    assert(sync_to_remove_set(current_after, selected) =~= Set::<u64>::empty());
}

/// A sequence with an empty element set is empty.
proof fn lemma_to_set_empty(s: Seq<u64>)
    requires
        s.to_set() == Set::<u64>::empty(),
    ensures
        s.len() == 0,
{
    if s.len() > 0 {
        assert(s.contains(s[0]));
        assert(s.to_set().contains(s[0]));
    }
}

/// Idempotence of the full engine: once a computed plan has been applied
/// in full, recomputing the plan for the same selection computes an empty
/// diff.  The selection is drawn from the panel's menu, so it only offers
/// panel roles.
pub proof fn lemma_resync_is_empty(
    panel: Seq<u64>,
    member: Seq<u64>,
    selected: Seq<u64>,
    member_after: Seq<u64>,
)
    requires
        selected.to_set().subset_of(panel.to_set()),
        member_after.to_set() == member.to_set().union(
            to_add_spec(current_spec(panel, member), selected).to_set(),
        ).difference(to_remove_spec(current_spec(panel, member), selected).to_set()),
    ensures
        to_add_spec(current_spec(panel, member_after), selected).len() == 0,
        to_remove_spec(current_spec(panel, member_after), selected).len() == 0,
{
    let cur0 = current_spec(panel, member);
    lemma_filter_in_to_set(member, panel);
    lemma_filter_not_in_to_set(selected, cur0);
    lemma_filter_not_in_to_set(cur0, selected);
    lemma_sync_idempotent(panel.to_set(), member.to_set(), selected.to_set());
    let cur1 = current_spec(panel, member_after);
    lemma_filter_in_to_set(member_after, panel);
    lemma_filter_not_in_to_set(selected, cur1);
    lemma_filter_not_in_to_set(cur1, selected);
    lemma_to_set_empty(to_add_spec(cur1, selected));
    lemma_to_set_empty(to_remove_spec(cur1, selected));
}

/// The elements of `s` whose outcome flag is set, in order.
pub open spec fn mask_seq<A>(s: Seq<A>, ok: Seq<bool>) -> Seq<A>
    recommends
        s.len() == ok.len(),
    decreases s.len(),
{
    if s.len() == 0 {
        Seq::empty()
    } else if ok.len() == 0 {
        // unreachable under the recommendation; keeps the definition total
        Seq::empty()
    } else if ok.last() {
        mask_seq(s.drop_last(), ok.drop_last()).push(s.last())
    } else {
        mask_seq(s.drop_last(), ok.drop_last())
    }
}

/// The role ids of a list of applied changes.
pub open spec fn applied_role_ids(s: Seq<AppliedChange>) -> Seq<u64> {
    s.map_values(|c: AppliedChange| c.role_id)
}

/// The labels of a list of applied changes.
pub open spec fn applied_labels(s: Seq<AppliedChange>) -> Seq<Seq<char>> {
    s.map_values(|c: AppliedChange| c.label@)
}

/// Collects the changes whose platform call succeeded: candidate `i` is
/// recorded exactly when `ok[i]` holds, so one failed candidate never
/// drops those after it.
pub fn collect_applied(ids: &Vec<u64>, labels: &Vec<String>, ok: &Vec<bool>) -> (out: Vec<
    AppliedChange,
>)
    requires
        ids@.len() == labels@.len(),
        ids@.len() == ok@.len(),
    ensures
        applied_role_ids(out@) == mask_seq(ids@, ok@),
        applied_labels(out@) == mask_seq(labels.deep_view(), ok@),
{
    let mut out: Vec<AppliedChange> = Vec::new();
    let mut i: usize = 0;
    proof {
        assert(applied_role_ids(out@) =~= mask_seq(ids@.subrange(0, 0), ok@.subrange(0, 0)));
        assert(applied_labels(out@) =~= mask_seq(
            labels.deep_view().subrange(0, 0),
            ok@.subrange(0, 0),
        ));
    }
    while i < ids.len()
        invariant
            ids@.len() == labels@.len(),
            ids@.len() == ok@.len(),
            i <= ids@.len(),
            applied_role_ids(out@) == mask_seq(ids@.subrange(0, i as int), ok@.subrange(0, i as int)),
            applied_labels(out@) == mask_seq(
                labels.deep_view().subrange(0, i as int),
                ok@.subrange(0, i as int),
            ),
        decreases ids@.len() - i,
    {
        proof {
            assert(ids@.subrange(0, i + 1).drop_last() =~= ids@.subrange(0, i as int));
            assert(ok@.subrange(0, i + 1).drop_last() =~= ok@.subrange(0, i as int));
            assert(labels.deep_view().subrange(0, i + 1).drop_last() =~= labels.deep_view().subrange(
                0,
                i as int,
            ));
            assert(labels.deep_view().subrange(0, i + 1).last() == labels@[i as int]@);
        }
        if ok[i] {
            let change = AppliedChange { role_id: ids[i], label: labels[i].clone() };
            let ghost prev = out@;
            out.push(change);
            proof {
                assert(applied_role_ids(out@) =~= applied_role_ids(prev).push(ids@[i as int]));
                assert(applied_labels(out@) =~= applied_labels(prev).push(labels@[i as int]@));
            }
        }
        i = i + 1;
    }
    proof {
        assert(ids@.subrange(0, ids@.len() as int) =~= ids@);
        assert(ok@.subrange(0, ok@.len() as int) =~= ok@);
        assert(labels.deep_view().subrange(0, labels@.len() as int) =~= labels.deep_view());
    }
    out
}

/// Skip law: a candidate whose validation or platform call failed is left
/// out of the applied list, while every candidate that succeeded is still
/// in it — processing never aborts on a failure.
pub proof fn lemma_failed_candidate_skipped(ids: Seq<u64>, ok: Seq<bool>, i: int)
    requires
        ids.len() == ok.len(),
        0 <= i < ids.len(),
        ids.no_duplicates(),
    ensures
        !ok[i] ==> !mask_seq(ids, ok).contains(ids[i]),
        ok[i] ==> mask_seq(ids, ok).contains(ids[i]),
    decreases ids.len(),
{
    lemma_mask_seq_contains(ids, ok, i);
}

proof fn lemma_mask_seq_contains(ids: Seq<u64>, ok: Seq<bool>, i: int)
    requires
        ids.len() == ok.len(),
        0 <= i < ids.len(),
        ids.no_duplicates(),
    ensures
        mask_seq(ids, ok).contains(ids[i]) <==> ok[i],
    decreases ids.len(),
{
    let n = ids.len() as int;
    if i == n - 1 {
        if ok[i] {
            assert(mask_seq(ids, ok).last() == ids[i]);
        } else {
            lemma_mask_seq_subset(ids.drop_last(), ok.drop_last());
            if mask_seq(ids, ok).contains(ids[i]) {
                assert(ids.drop_last().contains(ids[i]));
                let j = choose|j: int| 0 <= j < ids.drop_last().len() && ids.drop_last()[j] == ids[i];
                assert(ids[j] == ids[i] && j != i);
            }
        }
    } else {
        assert(ids.drop_last().no_duplicates());
        lemma_mask_seq_contains(ids.drop_last(), ok.drop_last(), i);
        assert(ids.drop_last()[i] == ids[i]);
        if ok.last() {
            if !ok[i] {
                if mask_seq(ids, ok).contains(ids[i]) {
                    let m = mask_seq(ids.drop_last(), ok.drop_last());
                    assert(mask_seq(ids, ok) == m.push(ids.last()));
                    if ids.last() == ids[i] {
                        assert(ids[n - 1] == ids[i] && n - 1 != i);
                    } else {
                        let k = choose|k: int|
                            0 <= k < mask_seq(ids, ok).len() && mask_seq(ids, ok)[k] == ids[i];
                        assert(m[k] == ids[i]);
                        assert(m.contains(ids[i]));
                    }
                }
            } else {
                let m = mask_seq(ids.drop_last(), ok.drop_last());
                let k = choose|k: int| 0 <= k < m.len() && m[k] == ids[i];
                assert(mask_seq(ids, ok)[k] == ids[i]);
            }
        } else {
            assert(mask_seq(ids, ok) == mask_seq(ids.drop_last(), ok.drop_last()));
        }
    }
}

/// Everything the mask keeps comes from the input sequence.
proof fn lemma_mask_seq_subset(ids: Seq<u64>, ok: Seq<bool>)
    requires
        ids.len() == ok.len(),
    ensures
        forall|x: u64| #[trigger] mask_seq(ids, ok).contains(x) ==> ids.contains(x),
    decreases ids.len(),
{
    if ids.len() > 0 {
        lemma_mask_seq_subset(ids.drop_last(), ok.drop_last());
        assert forall|x: u64| #[trigger] mask_seq(ids, ok).contains(x) implies ids.contains(x) by {
            let m = mask_seq(ids.drop_last(), ok.drop_last());
            if ok.last() {
                assert(mask_seq(ids, ok) == m.push(ids.last()));
                let k = choose|k: int| 0 <= k < mask_seq(ids, ok).len() && mask_seq(ids, ok)[k] == x;
                if k == m.len() {
                    assert(ids.last() == x);
                    assert(ids[ids.len() - 1] == x);
                } else {
                    assert(m[k] == x);
                    assert(m.contains(x));
                    assert(ids.drop_last().contains(x));
                    let j = choose|j: int| 0 <= j < ids.drop_last().len() && ids.drop_last()[j] == x;
                    assert(ids[j] == x);
                }
            } else {
                assert(mask_seq(ids, ok) == m);
                assert(ids.drop_last().contains(x));
                let j = choose|j: int| 0 <= j < ids.drop_last().len() && ids.drop_last()[j] == x;
                assert(ids[j] == x);
            }
        }
    }
}

/// The label the panel shows for a role, if the role belongs to the panel.
pub open spec fn find_label_spec(roles: Seq<PanelRole>, role_id: u64) -> Option<Seq<char>>
    decreases roles.len(),
{
    if roles.len() == 0 {
        None
    } else if roles.first().role_id == role_id as i64 {
        Some(roles.first().label@)
    } else {
        find_label_spec(roles.drop_first(), role_id)
    }
}

/// The label recorded for a change: the panel's label for the role, or the
/// role id rendered in decimal when the panel does not know the role.
pub fn resolve_label(roles: &Vec<PanelRole>, role_id: u64) -> (r: String)
    ensures
        r@ == match find_label_spec(roles@, role_id) {
            Some(label) => label,
            None => dec_str(role_id as nat),
        },
{
    let mut i: usize = 0;
    proof {
        assert(roles@.subrange(0, roles@.len() as int) =~= roles@);
    }
    while i < roles.len()
        invariant
            i <= roles@.len(),
            find_label_spec(roles@, role_id) == find_label_spec(
                roles@.subrange(i as int, roles@.len() as int),
                role_id,
            ),
        decreases roles@.len() - i,
    {
        let ghost rest = roles@.subrange(i as int, roles@.len() as int);
        assert(rest.first() == roles@[i as int]);
        if roles[i].role_id == role_id as i64 {
            return roles[i].label.clone();
        }
        proof {
            assert(rest.drop_first() =~= roles@.subrange(i + 1, roles@.len() as int));
        }
        i = i + 1;
    }
    u64_to_string(role_id)
}

/// The single-role toggle decision: fails when the role is not part of the
/// panel, otherwise flips membership and reports the direction taken.
pub fn plan_toggle(roles: &Vec<PanelRole>, role_id: u64, member_has_role: bool) -> (r: Result<
    (bool, String),
    AppError,
>)
    ensures
        match find_label_spec(roles@, role_id) {
            Some(label) => r matches Ok(t) && t.0 == !member_has_role && t.1@ == label,
            None => r matches Err(e) && e matches AppError::NotFound(res) && res@ == "Role"@,
        },
{
    let mut i: usize = 0;
    proof {
        assert(roles@.subrange(0, roles@.len() as int) =~= roles@);
    }
    while i < roles.len()
        invariant
            i <= roles@.len(),
            find_label_spec(roles@, role_id) == find_label_spec(
                roles@.subrange(i as int, roles@.len() as int),
                role_id,
            ),
        decreases roles@.len() - i,
    {
        let ghost rest = roles@.subrange(i as int, roles@.len() as int);
        assert(rest.first() == roles@[i as int]);
        if roles[i].role_id == role_id as i64 {
            return Ok((!member_has_role, roles[i].label.clone()));
        }
        proof {
            assert(rest.drop_first() =~= roles@.subrange(i + 1, roles@.len() as int));
        }
        i = i + 1;
    }
    Err(AppError::NotFound("Role"))
}

/// The first role in the platform's list with the given id.
pub open spec fn find_role_spec(roles: Seq<RoleInfo>, role_id: u64) -> Option<RoleInfo>
    decreases roles.len(),
{
    if roles.len() == 0 {
        None
    } else if roles.first().id == role_id {
        Some(roles.first())
    } else {
        find_role_spec(roles.drop_first(), role_id)
    }
}

/// The highest position among the acting bot's own roles, if it has any.
pub open spec fn bot_highest_opt(roles: Seq<RoleInfo>, bot_roles: Seq<u64>) -> Option<int>
    decreases roles.len(),
{
    if roles.len() == 0 {
        None
    } else {
        let rest = bot_highest_opt(roles.drop_last(), bot_roles);
        if bot_roles.contains(roles.last().id) {
            match rest {
                Some(m) => if roles.last().position > m {
                    Some(roles.last().position as int)
                } else {
                    Some(m)
                },
                None => Some(roles.last().position as int),
            }
        } else {
            rest
        }
    }
}

/// The bot's highest role position, or 0 when it holds no role.
pub open spec fn bot_highest_spec(roles: Seq<RoleInfo>, bot_roles: Seq<u64>) -> int {
    match bot_highest_opt(roles, bot_roles) {
        Some(m) => m,
        None => 0,
    }
}

fn find_role(roles: &Vec<RoleInfo>, role_id: u64) -> (r: Option<RoleInfo>)
    ensures
        r == find_role_spec(roles@, role_id),
{
    let mut i: usize = 0;
    proof {
        assert(roles@.subrange(0, roles@.len() as int) =~= roles@);
    }
    while i < roles.len()
        invariant
            i <= roles@.len(),
            find_role_spec(roles@, role_id) == find_role_spec(
                roles@.subrange(i as int, roles@.len() as int),
                role_id,
            ),
        decreases roles@.len() - i,
    {
        let ghost rest = roles@.subrange(i as int, roles@.len() as int);
        assert(rest.first() == roles@[i as int]);
        if roles[i].id == role_id {
            return Some(roles[i]);
        }
        proof {
            assert(rest.drop_first() =~= roles@.subrange(i + 1, roles@.len() as int));
        }
        i = i + 1;
    }
    None
}

fn bot_highest_position(roles: &Vec<RoleInfo>, bot_role_ids: &Vec<u64>) -> (r: i64)
    ensures
        r == bot_highest_spec(roles@, bot_role_ids@),
{
    let mut best: Option<i64> = None;
    let mut i: usize = 0;
    proof {
        assert(roles@.subrange(0, 0) =~= Seq::<RoleInfo>::empty());
    }
    while i < roles.len()
        invariant
            i <= roles@.len(),
            match best {
                Some(b) => bot_highest_opt(roles@.subrange(0, i as int), bot_role_ids@) == Some(
                    b as int,
                ),
                None => bot_highest_opt(roles@.subrange(0, i as int), bot_role_ids@) is None,
            },
        decreases roles@.len() - i,
    {
        proof {
            assert(roles@.subrange(0, i + 1).drop_last() =~= roles@.subrange(0, i as int));
            assert(roles@.subrange(0, i + 1).last() == roles@[i as int]);
        }
        if contains_u64(bot_role_ids, roles[i].id) {
            best = match best {
                Some(b) => if roles[i].position > b {
                    Some(roles[i].position)
                } else {
                    Some(b)
                },
                None => Some(roles[i].position),
            };
        }
        i = i + 1;
    }
    proof {
        assert(roles@.subrange(0, roles@.len() as int) =~= roles@);
    }
    match best {
        Some(b) => b,
        None => 0,
    }
}

/// Hierarchy validation before a grant or revoke.  Fails when the role no
/// longer exists, is integration-managed, is the guild's implicit everyone
/// role (its id equals the guild id), or ranks at or above the bot's own
/// highest role; succeeds otherwise.  Checked fresh on every call.
pub fn validate_role_manageable(
    roles: &Vec<RoleInfo>,
    role_id: u64,
    guild_id: u64,
    bot_role_ids: &Vec<u64>,
) -> (r: Result<(), AppError>)
    ensures
        match find_role_spec(roles@, role_id) {
            None => r matches Err(e) && e matches AppError::NotFound(res) && res@ == "Role"@,
            Some(role) => {
                if role.managed {
                    r matches Err(e) && e matches AppError::Permission(m) && m@
                        == "Cannot assign managed role."@
                } else if role.id == guild_id {
                    r matches Err(e) && e matches AppError::Permission(m) && m@
                        == "Cannot assign @everyone role."@
                } else if role.position >= bot_highest_spec(roles@, bot_role_ids@) {
                    r matches Err(e) && e matches AppError::Permission(m) && m@
                        == "Role is higher than or equal to bot's highest role."@
                } else {
                    r is Ok
                }
            },
        },
{
    let role = match find_role(roles, role_id) {
        Some(role) => role,
        None => {
            return Err(AppError::NotFound("Role"));
        },
    };
    if role.managed {
        return Err(AppError::Permission(String::from_str("Cannot assign managed role.")));
    }
    if role.id == guild_id {
        return Err(AppError::Permission(String::from_str("Cannot assign @everyone role.")));
    }
    let bot_highest = bot_highest_position(roles, bot_role_ids);
    if role.position >= bot_highest {
        return Err(
            AppError::Permission(
                String::from_str("Role is higher than or equal to bot's highest role."),
            ),
        );
    }
    Ok(())
}

} // verus!
