//! What saving, deleting, and selecting owe and show.

use vstd::prelude::*;

use crate::actor_model::{
    saved_names_of, without_group, ActorView, AnnounceView, CommitOutcome, CommitView, EffectView,
    ReconcileCause,
};
use crate::batch_model::{group_refusal, CommandInputs, FollowView, RunView};
use crate::capture::CaptureControl;
use crate::command::BackendCommand;
use crate::idmap::{ascending_list, law_finite_sets_are_listed, IdSet};
use crate::ids::ReceiverId;
use crate::model::{member_views, GroupView, RunIntent, SavedGroupId, SavedGroupMember};
use crate::persistence::{
    document_problem, group_valid, law_validation_accepts_exactly_valid_preferences,
    repeats_within, same_state, PersistedView,
};
use crate::settings_laws::{
    carried_out, ended, lemma_proposal, lemma_recorded_last, lemma_without_group,
    lemma_without_keeps_validity, lemma_without_positions, selects,
};
use crate::text::{
    law_listing_sorts, law_trimming_is_idempotent, listed, lowercase_text, trimmed,
};

verus! {

/// Whether no two groups share a name once case is folded away.
pub open spec fn names_differ(groups: Seq<GroupView>) -> bool {
    forall|i: int, j: int|
        0 <= i < j < groups.len() ==> lowercase_text((#[trigger] groups[i]).name)
            != lowercase_text((#[trigger] groups[j]).name)
}

proof fn lemma_reordering_keeps_names_apart(groups: Seq<GroupView>, order: Seq<GroupView>)
    requires
        names_differ(groups),
        groups.to_multiset() == order.to_multiset(),
    ensures
        names_differ(order),
{
    groups.to_multiset_ensures();
    order.to_multiset_ensures();
    assert forall|j: int, k: int| 0 <= j < k < order.len() implies lowercase_text(
        (#[trigger] order[j]).name,
    ) != lowercase_text((#[trigger] order[k]).name) by {
        let x = order[j];
        let y = order[k];
        assert(order.contains(x) && order.contains(y));
        assert(groups.to_multiset().count(x) > 0 && groups.to_multiset().count(y) > 0);
        assert(groups.contains(x) && groups.contains(y));
        let p = groups.index_of(x);
        let q = groups.index_of(y);
        if x == y {
            let short = order.remove(k);
            short.to_multiset_ensures();
            assert(short[j] == x);
            assert(short.contains(x));
            assert(short.to_multiset() == order.to_multiset().remove(y));
            assert(short.to_multiset().count(x) > 0);
            assert(order.to_multiset().count(x) > 0);
            assert(order.to_multiset().remove(y).count(x) == order.to_multiset().count(x) - 1);
            assert(order.to_multiset().count(x) >= 2);
            let others = groups.remove(p);
            others.to_multiset_ensures();
            assert(others.to_multiset() == groups.to_multiset().remove(x));
            assert(others.to_multiset().count(x) >= 1);
            assert(others.contains(x));
            let r = others.index_of(x);
            let s = if r < p { r } else { r + 1 };
            assert(others[r] == groups[s]);
            assert(s != p);
            if s < p {
                assert(lowercase_text(groups[s].name) != lowercase_text(groups[p].name));
            } else {
                assert(lowercase_text(groups[p].name) != lowercase_text(groups[s].name));
            }
        } else {
            assert(p != q);
            if p < q {
                assert(lowercase_text(groups[p].name) != lowercase_text(groups[q].name));
            } else {
                assert(lowercase_text(groups[q].name) != lowercase_text(groups[p].name));
            }
        }
    }
}

/// The stored groups after one was saved.
spec fn with_group(groups: Seq<GroupView>, group: GroupView) -> Seq<GroupView> {
    listed(without_group(groups, group.id).push(group))
}

proof fn lemma_saved_groups_are_valid(state: PersistedView, group: GroupView)
    requires
        document_problem(state, 1) is None,
        group_valid(group),
        forall|i: int|
            0 <= i < state.saved_groups.len() && (#[trigger] state.saved_groups[i]).id != group.id
                ==> lowercase_text(state.saved_groups[i].name) != lowercase_text(group.name),
    ensures
        document_problem(
            PersistedView { saved_groups: with_group(state.saved_groups, group), ..state },
            1,
        ) is None,
{
    let groups = state.saved_groups;
    let kept = without_group(groups, group.id);
    let all = kept.push(group);
    let listing = with_group(groups, group);
    lemma_without_keeps_validity(state, group.id);
    law_validation_accepts_exactly_valid_preferences(state.latency_preset, kept);
    law_validation_accepts_exactly_valid_preferences(state.latency_preset, listing);
    let at = lemma_without_positions(groups, group.id);
    lemma_without_group(groups, group.id, group);
    law_listing_sorts(all);
    all.to_multiset_ensures();
    listing.to_multiset_ensures();
    assert(names_differ(all)) by {
        assert forall|i: int, j: int| 0 <= i < j < all.len() implies lowercase_text(
            (#[trigger] all[i]).name,
        ) != lowercase_text((#[trigger] all[j]).name) by {
            if j == kept.len() {
                assert(kept[i] == groups[at[i]]);
                assert(kept[i].id != group.id);
            } else {
                assert(all[i] == kept[i] && all[j] == kept[j]);
            }
        }
    }
    lemma_reordering_keeps_names_apart(all, listing);
    assert forall|i: int| 0 <= i < listing.len() implies group_valid(#[trigger] listing[i]) by {
        assert(listing.contains(listing[i]));
        assert(all.to_multiset().count(listing[i]) > 0);
        assert(all.contains(listing[i]));
        let k = all.index_of(listing[i]);
        if k < kept.len() {
            assert(all[k] == kept[k]);
        }
    }
}

/// A group that is refused for none of the stated reasons, and whose name no
/// other group has under any case, is saved once its write succeeds. The names
/// of its receivers are remembered from then on.
pub proof fn law_an_acceptable_group_is_saved<R>(
    a: ActorView,
    run: RunView<R>,
    id: u64,
    edited: Option<SavedGroupId>,
    name: String,
    members: Vec<SavedGroupMember>,
    inputs: CommandInputs,
)
    requires
        document_problem(a.persisted, 1) is None,
        group_refusal(a.persisted.saved_groups, edited, name@, member_views(members@)) is None,
        forall|i: int|
            0 <= i < a.persisted.saved_groups.len() && (#[trigger] a.persisted.saved_groups[i]).id
                != (match edited {
                Some(held) => held,
                None => inputs.fresh_group,
            }) ==> lowercase_text(a.persisted.saved_groups[i].name) != lowercase_text(
                trimmed(name@),
            ),
    ensures
        ({
            let b = carried_out(
                a,
                run,
                id,
                BackendCommand::SaveGroup { id: edited, name, members },
                inputs,
                true,
            ).0;
            &&& ended(b, id, None)
            &&& b.persisted != a.persisted ==> b.saved_names == saved_names_of(
                b.persisted.saved_groups,
            )
        }),
{
    let views = member_views(members@);
    let group = GroupView {
        id: match edited {
            Some(held) => held,
            None => inputs.fresh_group,
        },
        name: trimmed(name@),
        members: views,
    };
    law_trimming_is_idempotent(name@);
    assert forall|i: int, j: int| 0 <= i < j < views.len() implies (#[trigger] views[i]).receiver != (
    #[trigger] views[j]).receiver by {
        assert(!repeats_within(views, views.len() as int));
    }
    lemma_saved_groups_are_valid(a.persisted, group);
    let commit = CommitView {
        id,
        candidate: PersistedView {
            saved_groups: with_group(a.persisted.saved_groups, group),
            ..a.persisted
        },
        announce: AnnounceView::GroupSaved(group),
        refresh_rows: false,
        sync_names: true,
    };
    lemma_group_commit(a, run, commit);
}

proof fn lemma_group_commit<R>(a: ActorView, run: RunView<R>, commit: CommitView)
    requires
        document_problem(commit.candidate, 1) is None,
        commit.sync_names,
        !commit.refresh_rows,
    ensures
        ({
            let (begun, left, step) = a.proposed(run, commit, FollowView::Nothing);
            let b = match step {
                crate::batch_model::StepView::Save(c, f) => begun.save_answered(left, c, f, true).0,
                _ => begun,
            };
            &&& ended(b, commit.id, None)
            &&& b.persisted != a.persisted ==> b.saved_names == saved_names_of(
                b.persisted.saved_groups,
            )
        }),
{
    lemma_proposal(a, run, commit, FollowView::Nothing);
    lemma_recorded_last(a.snapshot.command_outcomes, commit.id, None);
    reveal(ActorView::settled);
    reveal(ActorView::committed);
    reveal(ActorView::change_stored);
    reveal(ActorView::published);
}

/// Deleting a group forgets the names only it knew.
pub proof fn law_deleting_a_group_forgets_its_names<R>(
    a: ActorView,
    run: RunView<R>,
    id: u64,
    group: SavedGroupId,
    inputs: CommandInputs,
)
    requires
        document_problem(a.persisted, 1) is None,
    ensures
        ({
            let b = carried_out(a, run, id, BackendCommand::DeleteGroup(group), inputs, true).0;
            b.persisted != a.persisted ==> b.saved_names == saved_names_of(
                b.persisted.saved_groups,
            )
        }),
{
    lemma_without_keeps_validity(a.persisted, group);
    let commit = CommitView {
        id,
        candidate: PersistedView {
            saved_groups: without_group(a.persisted.saved_groups, group),
            ..a.persisted
        },
        announce: AnnounceView::GroupDeleted(group),
        refresh_rows: false,
        sync_names: true,
    };
    lemma_group_commit(a, run, commit);
}

/// What a change still owes once it is stored: a selection or a preset a
/// rebuild, a volume its forwarding, a device a scan and a reopened capture,
/// and an activated group a rebuild, and a start if it asked for one. A change
/// that was not stored owes nothing of this.
pub proof fn law_a_stored_change_owes_its_follow_up<R>(
    a: ActorView,
    run: RunView<R>,
    follow: FollowView,
    outcome: CommitOutcome,
)
    ensures
        ({
            let (b, r) = a.settled(run, follow, outcome);
            let stored = outcome == CommitOutcome::Applied;
            &&& r == (RunView {
                reconcile: r.reconcile,
                volumes_changed: r.volumes_changed,
                ..run
            })
            &&& follow is Nothing ==> b == a && r == run
            &&& follow is Membership ==> b == a && r.reconcile == if stored {
                Some(ReconcileCause::Membership)
            } else {
                run.reconcile
            }
            &&& follow is Latency ==> b == a && r.reconcile == if stored {
                Some(ReconcileCause::LatencyPreset)
            } else {
                run.reconcile
            }
            &&& follow is Volumes ==> b == a && r.volumes_changed == (run.volumes_changed || stored)
            &&& !(follow is Volumes) ==> r.volumes_changed == run.volumes_changed
            &&& follow matches FollowView::Endpoint(preference) ==> {
                &&& r == run
                &&& !stored ==> b == a
                &&& stored ==> b == (ActorView { effects: b.effects, ..a }) && b.effects
                    == a.effects.push(EffectView::ScanEndpoints).push(
                    EffectView::CapturePreference(preference),
                ).push(EffectView::Capture(CaptureControl::RequestEndpointChange))
            }
            &&& follow matches FollowView::Activation { start } ==> {
                let accepted = stored || outcome == CommitOutcome::Unchanged;
                let starts = start && accepted && a.snapshot.run_intent != RunIntent::Running;
                &&& b.snapshot.run_intent == if starts {
                    RunIntent::Running
                } else {
                    a.snapshot.run_intent
                }
                &&& b.startup_auto_connect_until == if accepted && !start {
                    None
                } else {
                    a.startup_auto_connect_until
                }
                &&& r.reconcile == if run.reconcile is None && (starts || stored) {
                    Some(ReconcileCause::SavedGroup)
                } else {
                    run.reconcile
                }
            }
        }),
{
    reveal(ActorView::settled);
    reveal(ActorView::published);
}

/// A stored selection shows at once: every selected receiver has its row,
/// known or not.
pub proof fn law_a_stored_selection_shows_its_receivers<R>(
    a: ActorView,
    run: RunView<R>,
    id: u64,
    members: IdSet,
    command: BackendCommand,
    inputs: CommandInputs,
    selected: ReceiverId,
)
    requires
        document_problem(a.persisted, 1) is None,
        selects(command, members),
        members@ != a.persisted.last_desired_members,
        members@.finite(),
        a.inventory.dom().finite(),
        members@.contains(selected),
    ensures
        ({
            let b = carried_out(a, run, id, command, inputs, true).0;
            &&& b.snapshot.desired_members == members@
            &&& exists|i: int|
                0 <= i < b.snapshot.receivers.len() && (#[trigger] b.snapshot.receivers[i]).id
                    == selected
        }),
{
    let commit = CommitView {
        id,
        candidate: PersistedView { last_desired_members: members@, ..a.persisted },
        announce: AnnounceView::Members { members: members@, counts: true },
        refresh_rows: true,
        sync_names: false,
    };
    lemma_proposal(a, run, commit, FollowView::Membership);
    assert(!same_state(commit.candidate, a.persisted));
    lemma_stored_rows(a, commit, selected);
    reveal(ActorView::settled);
}

proof fn lemma_stored_rows(a: ActorView, commit: CommitView, id: ReceiverId)
    requires
        commit.refresh_rows,
        !commit.sync_names,
        commit.announce matches AnnounceView::Members { members, .. } && members.finite()
            && members.contains(id),
        a.inventory.dom().finite(),
    ensures
        ({
            let b = a.committed(commit, true);
            &&& b.snapshot.desired_members == commit.announce->Members_members
            &&& exists|i: int|
                0 <= i < b.snapshot.receivers.len() && (#[trigger] b.snapshot.receivers[i]).id == id
        }),
{
    reveal(ActorView::committed);
    reveal(ActorView::change_stored);
    reveal(ActorView::rows_rebuilt);
    reveal(ActorView::published);
    let stored = a.change_stored(commit.candidate, commit.announce);
    let aligned = stored.realigned();
    assert(aligned.inventory.dom().subset_of(a.inventory.dom()));
    vstd::set_lib::lemma_set_subset_finite(a.inventory.dom(), aligned.inventory.dom());
    let scope = aligned.scope();
    law_finite_sets_are_listed(scope);
    let ids = ascending_list(scope);
    assert(scope.contains(id));
    assert(ids.to_set().contains(id));
    let k = ids.index_of(id);
    let rows = aligned.rows(ids);
    assert(rows[k] == aligned.row(id));
    assert(rows.contains(rows[k]));
    let shown = a.committed(commit, true).snapshot.receivers;
    assert(shown == listed(rows));
    law_listing_sorts(rows);
    rows.to_multiset_ensures();
    shown.to_multiset_ensures();
    assert(shown.to_multiset().count(rows[k]) > 0);
    assert(shown.contains(rows[k]));
    let i = shown.index_of(rows[k]);
    assert(shown[i].id == id);
}

} // verus!
