//! Coalescing of one drained command batch.

use vstd::prelude::*;

use crate::command::{is_edge_command, BackendCommand, CommandEnvelope};
use crate::idmap::IdMap;
use crate::ids::ReceiverId;
use crate::model::RunIntent;

verus! {

/// Latest-wins scalar slots drained between awaited command receives.
///
/// Scalar commands overwrite their slot so only the newest value survives one
/// drain cycle; receiver levels coalesce independently per identity; edge
/// commands queue in strict arrival order.
#[derive(Debug)]
pub struct PendingBatch<R> {
    /// Newest desired membership.
    pub desired_members: Option<CommandEnvelope<R>>,
    /// Newest run intent.
    pub run_intent: Option<CommandEnvelope<R>>,
    /// Newest master volume.
    pub master_volume: Option<CommandEnvelope<R>>,
    /// Receipt of the newest confirmed master-volume command.
    pub master_receipt: Option<R>,
    /// Newest mute flag.
    pub muted: Option<CommandEnvelope<R>>,
    /// Newest endpoint preference.
    pub endpoint: Option<CommandEnvelope<R>>,
    /// Newest latency preset.
    pub latency_preset: Option<CommandEnvelope<R>>,
    /// Newest auto-connect policy.
    pub auto_connect: Option<CommandEnvelope<R>>,
    /// Newest level of each receiver.
    pub levels: IdMap<CommandEnvelope<R>>,
    /// Edges in arrival order.
    pub edges: Vec<CommandEnvelope<R>>,
    /// Commands drained into this batch.
    pub drained_total: u32,
}

/// What a batch holds.
pub struct BatchView<R> {
    /// Newest desired membership.
    pub desired_members: Option<CommandEnvelope<R>>,
    /// Newest run intent.
    pub run_intent: Option<CommandEnvelope<R>>,
    /// Newest master volume.
    pub master_volume: Option<CommandEnvelope<R>>,
    /// Receipt of the newest confirmed master-volume command.
    pub master_receipt: Option<R>,
    /// Newest mute flag.
    pub muted: Option<CommandEnvelope<R>>,
    /// Newest endpoint preference.
    pub endpoint: Option<CommandEnvelope<R>>,
    /// Newest latency preset.
    pub latency_preset: Option<CommandEnvelope<R>>,
    /// Newest auto-connect policy.
    pub auto_connect: Option<CommandEnvelope<R>>,
    /// Newest level of each receiver.
    pub levels: Map<ReceiverId, CommandEnvelope<R>>,
    /// Edges in arrival order.
    pub edges: Seq<CommandEnvelope<R>>,
    /// Commands drained into this batch.
    pub drained_total: u32,
}

impl<R> View for PendingBatch<R> {
    type V = BatchView<R>;

    open spec fn view(&self) -> BatchView<R> {
        BatchView {
            desired_members: self.desired_members,
            run_intent: self.run_intent,
            master_volume: self.master_volume,
            master_receipt: self.master_receipt,
            muted: self.muted,
            endpoint: self.endpoint,
            latency_preset: self.latency_preset,
            auto_connect: self.auto_connect,
            levels: self.levels@,
            edges: self.edges@,
            drained_total: self.drained_total,
        }
    }
}

/// An edge without its start side effect.
pub open spec fn unstarted<R>(edge: CommandEnvelope<R>) -> CommandEnvelope<R> {
    match edge.command {
        BackendCommand::ActivateSavedGroup { id, .. } => CommandEnvelope {
            command: BackendCommand::ActivateSavedGroup { id, start: false },
            ..edge
        },
        _ => edge,
    }
}

/// Every edge without its start side effect.
pub open spec fn all_unstarted<R>(edges: Seq<CommandEnvelope<R>>) -> Seq<CommandEnvelope<R>> {
    Seq::new(edges.len(), |i: int| unstarted(edges[i]))
}

/// The receipt a batch keeps after a master-volume command: an unconfirmed
/// command leaves the receipt of the drag it supersedes pending.
pub open spec fn kept_receipt<R>(held: Option<R>, arriving: Option<R>) -> Option<R> {
    if arriving is Some { arriving } else { held }
}

/// The batch after one more command.
pub open spec fn inserted<R>(batch: BatchView<R>, envelope: CommandEnvelope<R>) -> BatchView<R> {
    let counted = BatchView { drained_total: (batch.drained_total + 1) as u32, ..batch };
    match envelope.command {
        BackendCommand::SetDesiredMembers { .. } =>
            BatchView { desired_members: Some(envelope), ..counted },
        BackendCommand::SetRunIntent(intent) => BatchView {
            run_intent: Some(envelope),
            edges: if intent == RunIntent::Stopped {
                all_unstarted(batch.edges)
            } else {
                batch.edges
            },
            ..counted
        },
        BackendCommand::SetMasterVolume(_) => BatchView {
            master_volume: Some(CommandEnvelope { confirmation: None, ..envelope }),
            master_receipt: kept_receipt(batch.master_receipt, envelope.confirmation),
            ..counted
        },
        BackendCommand::SetMuted(_) => BatchView { muted: Some(envelope), ..counted },
        BackendCommand::SetReceiverLevel { receiver, .. } =>
            BatchView { levels: batch.levels.insert(receiver, envelope), ..counted },
        BackendCommand::SetAudioEndpoint(_) => BatchView { endpoint: Some(envelope), ..counted },
        BackendCommand::SetLatencyPreset(_) =>
            BatchView { latency_preset: Some(envelope), ..counted },
        BackendCommand::SetAutoConnect(_) => BatchView { auto_connect: Some(envelope), ..counted },
        _ => BatchView { edges: batch.edges.push(envelope), ..counted },
    }
}

/// One for a filled slot.
pub open spec fn filled<T>(slot: Option<T>) -> int {
    if slot is Some { 1 } else { 0 }
}

/// Commands of a batch that survive as distinct work items.
pub open spec fn winners<R>(batch: BatchView<R>) -> int {
    filled(batch.desired_members) + filled(batch.run_intent) + filled(batch.master_volume)
        + filled(batch.muted) + filled(batch.endpoint) + filled(batch.latency_preset)
        + filled(batch.auto_connect) + batch.levels.dom().len() + batch.edges.len()
}

/// Whether every slot holds only its own command, levels sit under their own
/// receiver, and no more work survived than was drained.
pub open spec fn batch_sound<R>(batch: BatchView<R>) -> bool {
    &&& batch.desired_members matches Some(e) ==> e.command is SetDesiredMembers
    &&& batch.run_intent matches Some(e) ==> e.command is SetRunIntent
    &&& batch.master_volume matches Some(e) ==> e.command is SetMasterVolume && e.confirmation is None
    &&& batch.muted matches Some(e) ==> e.command is SetMuted
    &&& batch.endpoint matches Some(e) ==> e.command is SetAudioEndpoint
    &&& batch.latency_preset matches Some(e) ==> e.command is SetLatencyPreset
    &&& batch.auto_connect matches Some(e) ==> e.command is SetAutoConnect
    &&& forall|id: ReceiverId| #[trigger] batch.levels.contains_key(id) ==> level_slot_sound(batch.levels[id], id)
    &&& forall|i: int| 0 <= i < batch.edges.len() ==> is_edge_command((#[trigger] batch.edges[i]).command)
    &&& batch.levels.dom().finite()
    &&& winners(batch) <= batch.drained_total
}

/// Whether an envelope sets the level of `id`.
pub open spec fn level_slot_sound<R>(envelope: CommandEnvelope<R>, id: ReceiverId) -> bool {
    envelope.command matches BackendCommand::SetReceiverLevel { receiver, .. } && receiver == id
}

/// The batch nothing has been drained into.
pub open spec fn empty_batch<R>() -> BatchView<R> {
    BatchView {
        desired_members: None,
        run_intent: None,
        master_volume: None,
        master_receipt: None,
        muted: None,
        endpoint: None,
        latency_preset: None,
        auto_connect: None,
        levels: Map::empty(),
        edges: Seq::empty(),
        drained_total: 0,
    }
}

impl<R> PendingBatch<R> {
    /// An empty batch.
    pub fn new() -> (r: Self)
        ensures
            r@ == empty_batch::<R>(),
            batch_sound(r@),
    {
        let r = PendingBatch {
            desired_members: None,
            run_intent: None,
            master_volume: None,
            master_receipt: None,
            muted: None,
            endpoint: None,
            latency_preset: None,
            auto_connect: None,
            levels: IdMap::new(),
            edges: Vec::new(),
            drained_total: 0,
        };
        assert(r@.edges =~= Seq::empty());
        r
    }

    /// Adds one command to the batch.
    ///
    /// Scalars run before edges, so a later Stop cancels the start side effect
    /// of earlier group edges in this batch while retaining their ordered
    /// durable selection changes.
    pub fn insert(&mut self, envelope: CommandEnvelope<R>)
        requires
            old(self).drained_total < u32::MAX,
            batch_sound(old(self)@),
        ensures
            final(self)@ == inserted(old(self)@, envelope),
            batch_sound(final(self)@),
    {
        proof {
            law_insertion_keeps_batches_sound(self@, envelope);
        }
        self.drained_total = self.drained_total + 1;
        match &envelope.command {
            BackendCommand::SetDesiredMembers { .. } => {
                self.desired_members = Some(envelope);
            },
            BackendCommand::SetRunIntent(intent) => {
                if *intent == RunIntent::Stopped {
                    self.cancel_group_starts();
                }
                self.run_intent = Some(envelope);
            },
            BackendCommand::SetMasterVolume(_) => {
                let CommandEnvelope { id, command, confirmation } = envelope;
                if let Some(receipt) = confirmation {
                    self.master_receipt = Some(receipt);
                }
                self.master_volume = Some(CommandEnvelope { id, command, confirmation: None });
            },
            BackendCommand::SetMuted(_) => {
                self.muted = Some(envelope);
            },
            BackendCommand::SetReceiverLevel { receiver, .. } => {
                let target: ReceiverId = *receiver;
                self.levels.insert(target, envelope);
            },
            BackendCommand::SetAudioEndpoint(_) => {
                self.endpoint = Some(envelope);
            },
            BackendCommand::SetLatencyPreset(_) => {
                self.latency_preset = Some(envelope);
            },
            BackendCommand::SetAutoConnect(_) => {
                self.auto_connect = Some(envelope);
            },
            _ => {
                self.edges.push(envelope);
            },
        }
    }

    /// Drops the start side effect of every queued group activation.
    fn cancel_group_starts(&mut self)
        ensures
            *final(self) == (PendingBatch { edges: final(self).edges, ..*old(self) }),
            final(self).edges@ == all_unstarted(old(self).edges@),
    {
        let ghost edges = self.edges@;
        let mut kept: Vec<CommandEnvelope<R>> = Vec::new();
        let ghost mut taken: int = 0;
        assert(edges.skip(0) =~= edges);
        assert(all_unstarted(edges.take(0)) =~= kept@);
        let ghost before = *self;
        while self.edges.len() > 0
            invariant
                0 <= taken <= edges.len(),
                self.edges@ == edges.skip(taken),
                *self == (PendingBatch { edges: self.edges, ..before }),
                kept@ == all_unstarted(edges.take(taken)),
            decreases self.edges@.len(),
        {
            let CommandEnvelope { id, command, confirmation } = self.edges.remove(0);
            let command: BackendCommand = match command {
                BackendCommand::ActivateSavedGroup { id: group, .. } =>
                    BackendCommand::ActivateSavedGroup { id: group, start: false },
                other => other,
            };
            kept.push(CommandEnvelope { id, command, confirmation });
            proof {
                assert(edges.skip(taken + 1) =~= self.edges@);
                assert(kept@ =~= all_unstarted(edges.take(taken + 1)));
                taken = taken + 1;
            }
        }
        proof {
            assert(edges.take(edges.len() as int) =~= edges);
        }
        self.edges = kept;
    }

    /// Number of envelopes that survive the drain as distinct work items.
    pub fn winner_count(&self) -> (r: u32)
        requires
            batch_sound(self@),
        ensures
            r == winners(self@),
            r <= self.drained_total,
    {
        let scalars: u32 = one_if(self.desired_members.is_some())
            + one_if(self.run_intent.is_some()) + one_if(self.master_volume.is_some())
            + one_if(self.muted.is_some()) + one_if(self.endpoint.is_some())
            + one_if(self.latency_preset.is_some()) + one_if(self.auto_connect.is_some());
        let levels: usize = self.levels.len();
        let edges: usize = self.edges.len();
        scalars + levels as u32 + edges as u32
    }

    /// Number of commands that were superseded inside the batch.
    pub fn superseded(&self) -> (r: u32)
        requires
            batch_sound(self@),
        ensures
            r == self.drained_total - winners(self@),
    {
        self.drained_total - self.winner_count()
    }
}

fn one_if(held: bool) -> (r: u32)
    ensures
        r == if held { 1u32 } else { 0u32 },
{
    if held { 1 } else { 0 }
}

/// Inserting a command keeps every slot, level, and edge where it belongs,
/// and never creates work out of nothing.
pub proof fn law_insertion_keeps_batches_sound<R>(batch: BatchView<R>, envelope: CommandEnvelope<R>)
    requires
        batch_sound(batch),
        batch.drained_total < u32::MAX,
    ensures
        batch_sound(inserted(batch, envelope)),
{
    let after = inserted(batch, envelope);
    if let BackendCommand::SetReceiverLevel { receiver, .. } = envelope.command {
        assert(after.levels.dom() =~= batch.levels.dom().insert(receiver));
        assert forall|id: ReceiverId| #[trigger] after.levels.contains_key(id) implies
            level_slot_sound(after.levels[id], id) by {
            if id != receiver {
                assert(batch.levels.contains_key(id));
            }
        }
    }
    assert forall|i: int| 0 <= i < after.edges.len() implies
        is_edge_command((#[trigger] after.edges[i]).command) by {
        if i < batch.edges.len() {
            assert(is_edge_command(batch.edges[i].command));
        }
    }
}

/// Edges keep their arrival order and identity whatever else is inserted; a
/// Stop only withdraws the start of earlier group activations.
pub proof fn law_edges_keep_their_order<R>(batch: BatchView<R>, envelope: CommandEnvelope<R>, i: int)
    requires
        0 <= i < batch.edges.len(),
    ensures
        i < inserted(batch, envelope).edges.len(),
        inserted(batch, envelope).edges[i].id == batch.edges[i].id,
        inserted(batch, envelope).edges[i].confirmation == batch.edges[i].confirmation,
        inserted(batch, envelope).edges[i] == batch.edges[i]
            || inserted(batch, envelope).edges[i] == unstarted(batch.edges[i]),
        !(envelope.command matches BackendCommand::SetRunIntent(intent) && intent == RunIntent::Stopped)
            ==> inserted(batch, envelope).edges[i] == batch.edges[i],
{
}

/// A Stop leaves no earlier group activation that would start playback.
pub proof fn law_stop_cancels_earlier_group_starts<R>(
    batch: BatchView<R>,
    envelope: CommandEnvelope<R>,
    i: int,
)
    requires
        envelope.command == BackendCommand::SetRunIntent(RunIntent::Stopped),
        0 <= i < batch.edges.len(),
    ensures
        !(inserted(batch, envelope).edges[i].command matches BackendCommand::ActivateSavedGroup {
            start,
            ..
        } && start),
{
}

/// The newest scalar wins its slot, and levels coalesce per receiver.
pub proof fn law_newest_scalar_wins<R>(
    batch: BatchView<R>,
    envelope: CommandEnvelope<R>,
    other: ReceiverId,
)
    ensures
        envelope.command is SetDesiredMembers ==> inserted(batch, envelope).desired_members == Some(envelope),
        envelope.command is SetRunIntent ==> inserted(batch, envelope).run_intent == Some(envelope),
        envelope.command is SetMuted ==> inserted(batch, envelope).muted == Some(envelope),
        envelope.command is SetAudioEndpoint ==> inserted(batch, envelope).endpoint == Some(envelope),
        envelope.command is SetLatencyPreset ==> inserted(batch, envelope).latency_preset == Some(
            envelope,
        ),
        envelope.command is SetAutoConnect ==> inserted(batch, envelope).auto_connect == Some(
            envelope,
        ),
        envelope.command is SetMasterVolume ==> (inserted(batch, envelope).master_volume matches Some(e)
            && e.id == envelope.id && e.command == envelope.command),
        envelope.command is SetMasterVolume ==> inserted(batch, envelope).master_receipt
            == kept_receipt(batch.master_receipt, envelope.confirmation),
        envelope.command matches BackendCommand::SetReceiverLevel { receiver, .. } ==> {
            &&& inserted(batch, envelope).levels[receiver] == envelope
            &&& other != receiver && batch.levels.contains_key(other)
                ==> inserted(batch, envelope).levels[other] == batch.levels[other]
        },
{
}

/// The batch a whole list of commands is drained into.
pub open spec fn drained<R>(envelopes: Seq<CommandEnvelope<R>>) -> BatchView<R>
    decreases envelopes.len(),
{
    if envelopes.len() == 0 {
        empty_batch()
    } else {
        inserted(drained(envelopes.drop_last()), envelopes.last())
    }
}

/// The newest of a list of commands that `picks` accepts.
pub open spec fn newest<R>(
    envelopes: Seq<CommandEnvelope<R>>,
    picks: spec_fn(CommandEnvelope<R>) -> bool,
) -> Option<CommandEnvelope<R>>
    decreases envelopes.len(),
{
    if envelopes.len() == 0 {
        None
    } else if picks(envelopes.last()) {
        Some(envelopes.last())
    } else {
        newest(envelopes.drop_last(), picks)
    }
}

/// Whether a slot holds the newest command of its kind, without its receipt.
pub open spec fn holds_stripped<R>(
    slot: Option<CommandEnvelope<R>>,
    command: Option<CommandEnvelope<R>>,
) -> bool {
    match command {
        Some(envelope) => slot == Some(CommandEnvelope { confirmation: None, ..envelope }),
        None => slot is None,
    }
}

/// After a whole batch every scalar slot holds the newest command of its own
/// kind, whatever else was drained, every receiver's level is the newest one
/// sent for it, and the master receipt is that of the newest confirmed
/// master-volume command.
pub proof fn law_whole_batch_keeps_the_newest_scalars<R>(
    envelopes: Seq<CommandEnvelope<R>>,
    id: ReceiverId,
)
    ensures
        ({
            let batch = drained(envelopes);
            let level = newest(envelopes, |e: CommandEnvelope<R>| level_slot_sound(e, id));
            let confirmed = newest(
                envelopes,
                |e: CommandEnvelope<R>| e.command is SetMasterVolume && e.confirmation is Some,
            );
            &&& batch.desired_members == newest(
                envelopes,
                |e: CommandEnvelope<R>| e.command is SetDesiredMembers,
            )
            &&& batch.run_intent == newest(
                envelopes,
                |e: CommandEnvelope<R>| e.command is SetRunIntent,
            )
            &&& holds_stripped(
                batch.master_volume,
                newest(envelopes, |e: CommandEnvelope<R>| e.command is SetMasterVolume),
            )
            &&& batch.master_receipt == match confirmed {
                Some(envelope) => envelope.confirmation,
                None => None,
            }
            &&& batch.muted == newest(envelopes, |e: CommandEnvelope<R>| e.command is SetMuted)
            &&& batch.endpoint == newest(
                envelopes,
                |e: CommandEnvelope<R>| e.command is SetAudioEndpoint,
            )
            &&& batch.latency_preset == newest(
                envelopes,
                |e: CommandEnvelope<R>| e.command is SetLatencyPreset,
            )
            &&& batch.auto_connect == newest(
                envelopes,
                |e: CommandEnvelope<R>| e.command is SetAutoConnect,
            )
            &&& batch.levels.contains_key(id) <==> level is Some
            &&& level matches Some(envelope) ==> batch.levels[id] == envelope
        }),
    decreases envelopes.len(),
{
    if envelopes.len() > 0 {
        law_whole_batch_keeps_the_newest_scalars(envelopes.drop_last(), id);
    }
}

/// The newest command found is one of the list, and none after it is of its
/// kind.
pub proof fn law_newest_is_the_last_of_its_kind<R>(
    envelopes: Seq<CommandEnvelope<R>>,
    picks: spec_fn(CommandEnvelope<R>) -> bool,
)
    ensures
        match newest(envelopes, picks) {
            Some(envelope) => exists|i: int|
                0 <= i < envelopes.len() && #[trigger] envelopes[i] == envelope && picks(envelope)
                    && forall|k: int| i < k < envelopes.len() ==> !picks(#[trigger] envelopes[k]),
            None => forall|k: int| 0 <= k < envelopes.len() ==> !picks(#[trigger] envelopes[k]),
        },
    decreases envelopes.len(),
{
    if envelopes.len() > 0 {
        let front = envelopes.drop_last();
        let last = envelopes.len() - 1;
        law_newest_is_the_last_of_its_kind(front, picks);
        if picks(envelopes.last()) {
            assert(envelopes[last] == envelopes.last());
        } else {
            match newest(front, picks) {
                Some(envelope) => {
                    let i = choose|i: int|
                        0 <= i < front.len() && #[trigger] front[i] == envelope && picks(envelope)
                            && forall|k: int| i < k < front.len() ==> !picks(#[trigger] front[k]);
                    assert(envelopes[i] == envelope);
                    assert forall|k: int| i < k < envelopes.len() implies !picks(
                        #[trigger] envelopes[k],
                    ) by {
                        if k < last {
                            assert(front[k] == envelopes[k]);
                        }
                    }
                },
                None => {
                    assert forall|k: int| 0 <= k < envelopes.len() implies !picks(
                        #[trigger] envelopes[k],
                    ) by {
                        if k < last {
                            assert(front[k] == envelopes[k]);
                        }
                    }
                },
            }
        }
    }
}

/// Positions of the edge commands of a list, in arrival order.
pub open spec fn edge_positions<R>(envelopes: Seq<CommandEnvelope<R>>) -> Seq<int>
    decreases envelopes.len(),
{
    if envelopes.len() == 0 {
        Seq::empty()
    } else {
        let rest = edge_positions(envelopes.drop_last());
        if is_edge_command(envelopes.last().command) { rest.push(envelopes.len() - 1) } else { rest }
    }
}

/// Whether a Stop arrived after position `from`.
pub open spec fn stopped_after<R>(envelopes: Seq<CommandEnvelope<R>>, from: int) -> bool {
    exists|k: int|
        from < k < envelopes.len() && (#[trigger] envelopes[k]).command
            == BackendCommand::SetRunIntent(RunIntent::Stopped)
}

/// After a whole batch every edge that was drained stands once, in arrival
/// order, as it was sent; only a group activation that a later Stop followed
/// has lost its start.
pub proof fn law_whole_batch_keeps_every_edge_in_order<R>(
    envelopes: Seq<CommandEnvelope<R>>,
    i: int,
)
    ensures
        drained(envelopes).edges.len() == edge_positions(envelopes).len(),
        0 <= i < edge_positions(envelopes).len() ==> {
            let at = edge_positions(envelopes)[i];
            &&& 0 <= at < envelopes.len()
            &&& is_edge_command(envelopes[at].command)
            &&& drained(envelopes).edges[i] == if stopped_after(envelopes, at) {
                unstarted(envelopes[at])
            } else {
                envelopes[at]
            }
            &&& i > 0 ==> edge_positions(envelopes)[i - 1] < at
        },
    decreases envelopes.len(),
{
    if envelopes.len() > 0 {
        let front = envelopes.drop_last();
        let last = envelopes.len() - 1;
        law_whole_batch_keeps_every_edge_in_order(front, i);
        law_whole_batch_keeps_every_edge_in_order(front, i - 1);
        if 0 <= i < edge_positions(front).len() {
            let at = edge_positions(front)[i];
            assert(front[at] == envelopes[at]);
            if stopped_after(front, at) {
                let k = choose|k: int|
                    at < k < front.len() && (#[trigger] front[k]).command
                        == BackendCommand::SetRunIntent(RunIntent::Stopped);
                assert(envelopes[k] == front[k]);
            }
            if stopped_after(envelopes, at) {
                let k = choose|k: int|
                    at < k < envelopes.len() && (#[trigger] envelopes[k]).command
                        == BackendCommand::SetRunIntent(RunIntent::Stopped);
                if k < last {
                    assert(front[k] == envelopes[k]);
                }
            }
            if envelopes.last().command == BackendCommand::SetRunIntent(RunIntent::Stopped) {
                assert(envelopes[last].command == BackendCommand::SetRunIntent(RunIntent::Stopped));
                assert(stopped_after(envelopes, at));
            }
        }
    }
}

/// A position is listed exactly where an edge arrived.
pub proof fn law_every_edge_is_listed<R>(envelopes: Seq<CommandEnvelope<R>>, k: int)
    requires
        0 <= k < envelopes.len(),
    ensures
        is_edge_command(envelopes[k].command) <==> edge_positions(envelopes).contains(k),
    decreases envelopes.len(),
{
    let front = envelopes.drop_last();
    let last = envelopes.len() - 1;
    let rest = edge_positions(front);
    let all = edge_positions(envelopes);
    if k < last {
        law_every_edge_is_listed(front, k);
        assert(front[k] == envelopes[k]);
        if rest.contains(k) {
            let i = choose|i: int| 0 <= i < rest.len() && rest[i] == k;
            assert(all[i] == k);
        }
        if all.contains(k) {
            let i = choose|i: int| 0 <= i < all.len() && all[i] == k;
            assert(rest[i] == k);
        }
    } else {
        if is_edge_command(envelopes.last().command) {
            assert(all[all.len() - 1] == k);
        } else if all.contains(k) {
            let i = choose|i: int| 0 <= i < all.len() && all[i] == k;
            law_whole_batch_keeps_every_edge_in_order(front, i);
        }
    }
}

/// A whole batch counts every command drained into it, and what its slots,
/// levels, and edges do not hold was superseded.
pub proof fn law_whole_batch_counts_every_command<R>(envelopes: Seq<CommandEnvelope<R>>)
    requires
        envelopes.len() <= u32::MAX,
    ensures
        batch_sound(drained(envelopes)),
        drained(envelopes).drained_total == envelopes.len(),
    decreases envelopes.len(),
{
    if envelopes.len() > 0 {
        law_whole_batch_counts_every_command(envelopes.drop_last());
        law_insertion_keeps_batches_sound(drained(envelopes.drop_last()), envelopes.last());
    }
}

} // verus!
