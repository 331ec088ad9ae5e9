//! Which batches are accepted, and what their updates have to state.

use vstd::prelude::*;

use super::apply::ProjectionApplyRequestView;
use super::batch::{
    all_used, batch_outcome, observe, observe_all, replay, replay_all, replay_row, replay_rows,
    LedgerRow, ObservationProgress, ReplayProgress, MAX_PROJECTION_BATCH_MEMBERS,
};
use super::control::ProjectionControlView;
use super::sizes::control_size;
use super::snapshot::ObservationView;
use super::state::ProjectionRowPrior;
use crate::bytes::bytes_before;
use crate::ids::FrontierPosition;
use crate::keys::ProjectionGroupKeyView;
use crate::limits::{
    MAX_PROJECTION_APPLY_SNAPSHOT_BYTES, MAX_PROJECTION_ROW_UPDATES, MAX_PROJECTION_WRITE_SET_BYTES,
};
use crate::value_error::StorageValueError;

verus! {

/// The key of an observed row.
pub open spec fn observed_key(observation: ObservationView) -> ProjectionGroupKeyView {
    match observation {
        ObservationView::Absent(key) => key,
        ObservationView::Present(row) => row.key,
    }
}

/// What an update of a row states that nothing has changed since it was observed: that it
/// is absent, or when it was last changed.
pub open spec fn observed_evidence(observation: ObservationView) -> ProjectionRowPrior {
    match observation {
        ObservationView::Absent(_) => ProjectionRowPrior::Absent,
        ObservationView::Present(row) => ProjectionRowPrior::Present(row.last_changed_sequence),
    }
}

/// What an observed row is charged once: its framed key where it is absent, and the row
/// without the two leading bytes of its key, with its framed measures, its sequence and a
/// hash, where it is present. A row that changed after the frontier has no charge.
pub open spec fn observed_bytes(observation: ObservationView, frontier: FrontierPosition) -> Option<
    nat,
> {
    match (observation, frontier) {
        (ObservationView::Absent(key), _) => Some(5 + key.bytes.len()),
        (ObservationView::Present(row), FrontierPosition::AppliedThrough(last)) =>
            if row.key.bytes.len()
            >= 2 && row.last_changed_sequence.value <= last.value {
            Some((1 + row.key.bytes.len() - 2 + 4 + row.measures.encoded.len() + 8 + 32) as nat)
        } else {
            None
        },
        (ObservationView::Present(_), FrontierPosition::BeforeFirst) => None,
    }
}

/// What the first of some observed rows are charged: twice each, for the evidence and for
/// what is laid over it.
pub open spec fn evidence_bytes(
    observations: Seq<ObservationView>,
    frontier: FrontierPosition,
    count: nat,
) -> nat
    decreases count,
{
    if count == 0 || count > observations.len() {
        0
    } else {
        evidence_bytes(observations, frontier, (count - 1) as nat) + 2 * observed_bytes(
            observations[count - 1],
            frontier,
        ).unwrap_or(0)
    }
}

/// What the first of some members are charged: their payloads and what they write.
pub open spec fn member_bytes(members: Seq<ProjectionApplyRequestView>, count: nat) -> nat
    decreases count,
{
    if count == 0 || count > members.len() {
        0
    } else {
        member_bytes(members, (count - 1) as nat) + members[count - 1].semantic_bytes as nat
            + members[count - 1].write_set_semantic_bytes as nat
    }
}

/// How many rows the first of some members update.
pub open spec fn update_count(members: Seq<ProjectionApplyRequestView>, count: nat) -> nat
    decreases count,
{
    if count == 0 || count > members.len() {
        0
    } else {
        update_count(members, (count - 1) as nat) + members[count - 1].rows.len()
    }
}

/// The member that updated a key last, before a place among the updates of all members in
/// order: a member, and how many of its own updates come before.
pub open spec fn last_writer(
    members: Seq<ProjectionApplyRequestView>,
    member: int,
    update: int,
    key: Seq<u8>,
) -> Option<int>
    decreases member, update,
{
    if member < 0 || update < 0 {
        None
    } else if update > 0 {
        if members[member].rows[update - 1].key.bytes == key {
            Some(member)
        } else {
            last_writer(members, member, update - 1, key)
        }
    } else if member > 0 {
        last_writer(members, member - 1, members[member - 1].rows.len() as int, key)
    } else {
        None
    }
}

/// Whether an update states the latest evidence of an observed row: the sequence of the
/// member that updated it last within the batch, or what was observed where none did.
pub open spec fn states_latest_evidence(
    members: Seq<ProjectionApplyRequestView>,
    observations: Seq<ObservationView>,
    member: int,
    update: int,
) -> bool {
    let stated = members[member].rows[update];
    exists|o: int|
        0 <= o < observations.len() && observed_key(#[trigger] observations[o]).bytes
            == stated.key.bytes && stated.prior == match last_writer(
            members,
            member,
            update,
            stated.key.bytes,
        ) {
            Some(writer) => ProjectionRowPrior::Present(members[writer].sequence),
            None => observed_evidence(observations[o]),
        }
}

/// Whether an observation is one for a batch: beyond the one before it, under the schema
/// and the generation of the first member, and not changed after its frontier.
pub open spec fn observation_fits(
    first: ProjectionApplyRequestView,
    observations: Seq<ObservationView>,
    place: int,
) -> bool {
    let observation = observations[place];
    let key = observed_key(observation);
    &&& place > 0 ==> bytes_before(observed_key(observations[place - 1]).bytes, key.bytes)
    &&& first.schema.admits_complete(key.components)
    &&& key.generation == first.generation
    &&& observation matches ObservationView::Present(row) ==> first.schema.measure_refusal(
        row.measures,
    ) is None
    &&& observed_bytes(observation, first.expected_frontier) is Some
}

/// Whether a member goes on where the one before it ended, under the schema and the
/// generation of the first one.
pub open spec fn member_goes_on(members: Seq<ProjectionApplyRequestView>, member: int) -> bool {
    &&& members[member].schema == members[0].schema
    &&& members[member].generation == members[0].generation
    &&& member > 0 ==> members[member].expected_frontier == FrontierPosition::AppliedThrough(
        members[member - 1].sequence,
    )
}

/// Whether some member updates a key.
pub open spec fn key_is_updated(
    members: Seq<ProjectionApplyRequestView>,
    key: Seq<u8>,
) -> bool {
    exists|member: int, update: int|
        #![trigger members[member].rows[update]]
        0 <= member < members.len() && 0 <= update < members[member].rows.len()
            && members[member].rows[update].key.bytes == key
}

/// Whether every observed row is updated by a member.
pub open spec fn every_row_is_updated(
    members: Seq<ProjectionApplyRequestView>,
    observations: Seq<ObservationView>,
) -> bool {
    forall|o: int|
        0 <= o < observations.len() ==> key_is_updated(
            members,
            observed_key(#[trigger] observations[o]).bytes,
        )
}

/// Whether every update of every member states the latest evidence of its row.
pub open spec fn all_state_latest_evidence(
    members: Seq<ProjectionApplyRequestView>,
    observations: Seq<ObservationView>,
) -> bool {
    forall|member: int, update: int|
        #![trigger members[member].rows[update]]
        0 <= member < members.len() && 0 <= update < members[member].rows.len()
            ==> states_latest_evidence(members, observations, member, update)
}

/// Whether the charge of the first observations stays within an apply snapshot.
spec fn evidence_bounded(
    first: ProjectionApplyRequestView,
    reserve: usize,
    observations: Seq<ObservationView>,
    count: int,
) -> bool {
    count > 0 ==> reserve + evidence_bytes(observations, first.expected_frontier, count as nat)
        <= MAX_PROJECTION_APPLY_SNAPSHOT_BYTES
}

proof fn evidence_grows(
    observations: Seq<ObservationView>,
    frontier: FrontierPosition,
    a: nat,
    b: nat,
)
    requires
        a <= b <= observations.len(),
    ensures
        evidence_bytes(observations, frontier, a) <= evidence_bytes(observations, frontier, b),
    decreases b,
{
    if a < b {
        evidence_grows(observations, frontier, a, (b - 1) as nat);
    }
}

/// Whether a ledger is that of the first observations, before any update.
spec fn observed_ledger(
    observations: Seq<ObservationView>,
    count: int,
    rows: Map<Seq<u8>, LedgerRow>,
) -> bool {
    &&& forall|key: Seq<u8>| #[trigger]
        rows.contains_key(key) <==> exists|o: int|
            0 <= o < count && observed_key(#[trigger] observations[o]).bytes == key
    &&& forall|o: int|
        0 <= o < count ==> rows[observed_key(#[trigger] observations[o]).bytes] == (LedgerRow {
            prior: observed_evidence(observations[o]),
            used: false,
        })
}

proof fn fitting_keys_rise(
    first: ProjectionApplyRequestView,
    observations: Seq<ObservationView>,
    i: int,
    j: int,
)
    requires
        0 <= i < j < observations.len(),
        forall|k: int| 0 <= k <= j ==> observation_fits(first, observations, k),
    ensures
        bytes_before(observed_key(observations[i]).bytes, observed_key(observations[j]).bytes),
        observed_key(observations[i]).bytes != observed_key(observations[j]).bytes,
    decreases j - i,
{
    assert(observation_fits(first, observations, j));
    if i + 1 < j {
        fitting_keys_rise(first, observations, i, j - 1);
        crate::bytes::bytes_before_transitive(
            observed_key(observations[i]).bytes,
            observed_key(observations[j - 1]).bytes,
            observed_key(observations[j]).bytes,
        );
    }
    crate::bytes::bytes_before_irreflexive(observed_key(observations[i]).bytes);
}

proof fn observed_so_far(
    first: ProjectionApplyRequestView,
    reserve: usize,
    observations: Seq<ObservationView>,
    count: int,
) -> (progress: ObservationProgress)
    requires
        0 <= count <= observations.len(),
        forall|k: int| 0 <= k < count ==> observation_fits(first, observations, k),
        evidence_bounded(first, reserve, observations, count),
    ensures
        ({
            let start = ObservationProgress { charge: reserve, previous: None, rows: Map::empty() };
            observe_all(first, start, observations) == observe_all(
                first,
                progress,
                observations.skip(count),
            )
        }),
        progress.charge == reserve + evidence_bytes(
            observations,
            first.expected_frontier,
            count as nat,
        ),
        progress.previous == if count == 0 {
            None
        } else {
            Some(observed_key(observations[count - 1]).bytes)
        },
        observed_ledger(observations, count, progress.rows),
    decreases count,
{
    let start = ObservationProgress { charge: reserve, previous: None, rows: Map::empty() };
    if count == 0 {
        assert(observations.skip(0) =~= observations);
        start
    } else {
        let last = count - 1;
        evidence_grows(observations, first.expected_frontier, last as nat, count as nat);
        let before = observed_so_far(first, reserve, observations, last);
        assert(observation_fits(first, observations, last));
        let rest = observations.skip(last);
        assert(rest[0] == observations[last]);
        assert(rest.skip(1) =~= observations.skip(count));
        let next = observe(first, before, observations[last])->Ok_0;
        assert(observe(first, before, observations[last]) is Ok);
        let key = observed_key(observations[last]).bytes;
        assert forall|k: Seq<u8>| #[trigger] next.rows.contains_key(k) <==> exists|o: int|
            0 <= o < count && observed_key(#[trigger] observations[o]).bytes == k by {
            if next.rows.contains_key(k) {
                if k == key {
                    assert(observed_key(observations[last]).bytes == k);
                } else {
                    assert(before.rows.contains_key(k));
                }
            } else {
                assert(!before.rows.contains_key(k));
            }
        }
        assert forall|o: int| 0 <= o < count implies next.rows[observed_key(
            #[trigger] observations[o],
        ).bytes] == (LedgerRow { prior: observed_evidence(observations[o]), used: false }) by {
            if o < last {
                fitting_keys_rise(first, observations, o, last);
            }
        }
        next
    }
}

proof fn accepted_observations_fit(
    first: ProjectionApplyRequestView,
    reserve: usize,
    observations: Seq<ObservationView>,
    count: int,
)
    requires
        0 <= count <= observations.len(),
        ({
            let start = ObservationProgress { charge: reserve, previous: None, rows: Map::empty() };
            observe_all(first, start, observations) is Ok
        }),
    ensures
        forall|k: int| 0 <= k < count ==> observation_fits(first, observations, k),
        evidence_bounded(first, reserve, observations, count),
    decreases count,
{
    if count > 0 {
        let last = count - 1;
        accepted_observations_fit(first, reserve, observations, last);
        let before = observed_so_far(first, reserve, observations, last);
        let rest = observations.skip(last);
        assert(rest[0] == observations[last]);
        assert(observe(first, before, observations[last]) is Ok);
    }
}

/// Whether a ledger is that of a place among the updates of all members: of every observed
/// row and of no other, the latest evidence, and whether it was updated.
spec fn ledger_at(
    members: Seq<ProjectionApplyRequestView>,
    observations: Seq<ObservationView>,
    member: int,
    update: int,
    rows: Map<Seq<u8>, LedgerRow>,
) -> bool {
    &&& forall|key: Seq<u8>| #[trigger]
        rows.contains_key(key) <==> exists|o: int|
            0 <= o < observations.len() && observed_key(#[trigger] observations[o]).bytes == key
    &&& forall|o: int|
        0 <= o < observations.len() ==> rows[observed_key(#[trigger] observations[o]).bytes]
            == latest_row(members, observations[o], member, update)
}

spec fn latest_row(
    members: Seq<ProjectionApplyRequestView>,
    observation: ObservationView,
    member: int,
    update: int,
) -> LedgerRow {
    match last_writer(members, member, update, observed_key(observation).bytes) {
        Some(writer) => LedgerRow {
            prior: ProjectionRowPrior::Present(members[writer].sequence),
            used: true,
        },
        None => LedgerRow { prior: observed_evidence(observation), used: false },
    }
}

spec fn keys_differ(observations: Seq<ObservationView>) -> bool {
    forall|i: int, j: int|
        0 <= i < j < observations.len() ==> observed_key(#[trigger] observations[i]).bytes
            != observed_key(#[trigger] observations[j]).bytes
}

proof fn one_row_replays(
    members: Seq<ProjectionApplyRequestView>,
    observations: Seq<ObservationView>,
    member: int,
    update: int,
    rows: Map<Seq<u8>, LedgerRow>,
)
    requires
        0 <= member < members.len(),
        0 <= update < members[member].rows.len(),
        keys_differ(observations),
        ledger_at(members, observations, member, update, rows),
    ensures
        ({
            let next = replay_row(rows, members[member].sequence, members[member].rows[update]);
            &&& next is Some <==> states_latest_evidence(members, observations, member, update)
            &&& next is Some ==> ledger_at(
                members,
                observations,
                member,
                update + 1,
                next->Some_0,
            )
        }),
{
    let stated = members[member].rows[update];
    let key = stated.key.bytes;
    let sequence = members[member].sequence;
    let next = replay_row(rows, sequence, stated);
    if rows.contains_key(key) {
        let o = choose|o: int|
            0 <= o < observations.len() && observed_key(#[trigger] observations[o]).bytes == key;
        assert(rows[key] == latest_row(members, observations[o], member, update));
        assert forall|other: int|
            0 <= other < observations.len() && observed_key(#[trigger] observations[other]).bytes
                == key implies other == o by {
            if other < o {
                assert(observed_key(observations[other]).bytes != observed_key(
                    observations[o],
                ).bytes);
            } else if o < other {
                assert(observed_key(observations[o]).bytes != observed_key(
                    observations[other],
                ).bytes);
            }
        }
        assert(next is Some <==> states_latest_evidence(members, observations, member, update));
        if next is Some {
            let after = next->Some_0;
            assert forall|k: Seq<u8>| #[trigger] after.contains_key(k) <==> exists|q: int|
                0 <= q < observations.len() && observed_key(#[trigger] observations[q]).bytes
                    == k by {
                assert(after.contains_key(k) <==> rows.contains_key(k));
            }
            assert forall|q: int| 0 <= q < observations.len() implies after[observed_key(
                #[trigger] observations[q],
            ).bytes] == latest_row(members, observations[q], member, update + 1) by {
                let held = observed_key(observations[q]).bytes;
                if held != key {
                    assert(rows[held] == latest_row(members, observations[q], member, update));
                }
            }
        }
    } else {
        assert(next is None);
    }
}

proof fn rows_replayed_so_far(
    members: Seq<ProjectionApplyRequestView>,
    observations: Seq<ObservationView>,
    member: int,
    update: int,
    rows: Map<Seq<u8>, LedgerRow>,
) -> (current: Map<Seq<u8>, LedgerRow>)
    requires
        0 <= member < members.len(),
        0 <= update <= members[member].rows.len(),
        keys_differ(observations),
        ledger_at(members, observations, member, 0, rows),
        forall|k: int|
            0 <= k < update ==> #[trigger] states_latest_evidence(members, observations, member, k),
    ensures
        replay_rows(rows, members[member].sequence, members[member].rows) == replay_rows(
            current,
            members[member].sequence,
            members[member].rows.skip(update),
        ),
        ledger_at(members, observations, member, update, current),
    decreases update,
{
    let updates = members[member].rows;
    if update == 0 {
        assert(updates.skip(0) =~= updates);
        rows
    } else {
        let last = update - 1;
        let before = rows_replayed_so_far(members, observations, member, last, rows);
        one_row_replays(members, observations, member, last, before);
        assert(states_latest_evidence(members, observations, member, last));
        assert(updates.skip(last)[0] == updates[last]);
        assert(updates.skip(last).skip(1) =~= updates.skip(update));
        replay_row(before, members[member].sequence, updates[last])->Some_0
    }
}

proof fn replayed_rows_state_evidence(
    members: Seq<ProjectionApplyRequestView>,
    observations: Seq<ObservationView>,
    member: int,
    update: int,
    rows: Map<Seq<u8>, LedgerRow>,
)
    requires
        0 <= member < members.len(),
        0 <= update <= members[member].rows.len(),
        keys_differ(observations),
        ledger_at(members, observations, member, 0, rows),
        replay_rows(rows, members[member].sequence, members[member].rows) is Some,
    ensures
        forall|k: int|
            0 <= k < update ==> #[trigger] states_latest_evidence(members, observations, member, k),
    decreases update,
{
    let updates = members[member].rows;
    if update > 0 {
        let last = update - 1;
        replayed_rows_state_evidence(members, observations, member, last, rows);
        let before = rows_replayed_so_far(members, observations, member, last, rows);
        one_row_replays(members, observations, member, last, before);
        assert(updates.skip(last)[0] == updates[last]);
        assert(states_latest_evidence(members, observations, member, last));
    }
}

/// Whether a member can be replayed after the ones before it, from a first charge.
spec fn member_replays(
    members: Seq<ProjectionApplyRequestView>,
    observations: Seq<ObservationView>,
    charge: nat,
    member: int,
) -> bool {
    &&& member_goes_on(members, member)
    &&& update_count(members, (member + 1) as nat) <= MAX_PROJECTION_ROW_UPDATES
    &&& charge + member_bytes(members, (member + 1) as nat) <= MAX_PROJECTION_WRITE_SET_BYTES
    &&& forall|k: int|
        0 <= k < members[member].rows.len() ==> #[trigger] states_latest_evidence(
            members,
            observations,
            member,
            k,
        )
}

spec fn replay_start(
    members: Seq<ProjectionApplyRequestView>,
    charge: usize,
    rows: Map<Seq<u8>, LedgerRow>,
) -> ReplayProgress {
    ReplayProgress { frontier: members[0].expected_frontier, updates: 0, charge, rows }
}

proof fn one_member_replays(
    members: Seq<ProjectionApplyRequestView>,
    observations: Seq<ObservationView>,
    charge: usize,
    member: int,
    progress: ReplayProgress,
)
    requires
        0 <= member < members.len(),
        keys_differ(observations),
        replayed_to(members, observations, charge, member, progress),
    ensures
        ({
            let next = replay(members[0], progress, members[member]);
            &&& next is Ok <==> member_replays(members, observations, charge as nat, member)
            &&& next is Ok ==> replayed_to(
                members,
                observations,
                charge,
                member + 1,
                next->Ok_0,
            )
        }),
{
    let updates = members[member].rows;
    let sequence = members[member].sequence;
    let replayed = replay_rows(progress.rows, sequence, updates);
    if replayed is Some {
        replayed_rows_state_evidence(
            members,
            observations,
            member,
            updates.len() as int,
            progress.rows,
        );
    }
    if forall|k: int|
        0 <= k < updates.len() ==> #[trigger] states_latest_evidence(
            members,
            observations,
            member,
            k,
        ) {
        let done = rows_replayed_so_far(
            members,
            observations,
            member,
            updates.len() as int,
            progress.rows,
        );
        assert(updates.skip(updates.len() as int).len() == 0);
        assert(replayed == Some(done));
        assert forall|o: int| 0 <= o < observations.len() implies done[observed_key(
            #[trigger] observations[o],
        ).bytes] == latest_row(members, observations[o], member + 1, 0) by {
            assert(latest_row(members, observations[o], member, updates.len() as int)
                == latest_row(members, observations[o], member + 1, 0));
        }
        assert(ledger_at(members, observations, member + 1, 0, done));
    }
}

/// Whether members were replayed up to one of them.
spec fn replayed_to(
    members: Seq<ProjectionApplyRequestView>,
    observations: Seq<ObservationView>,
    charge: usize,
    member: int,
    progress: ReplayProgress,
) -> bool {
    &&& progress.frontier == if member == 0 {
        members[0].expected_frontier
    } else {
        FrontierPosition::AppliedThrough(members[member - 1].sequence)
    }
    &&& progress.updates == update_count(members, member as nat)
    &&& progress.charge == charge + member_bytes(members, member as nat)
    &&& ledger_at(members, observations, member, 0, progress.rows)
}

proof fn members_replayed_so_far(
    members: Seq<ProjectionApplyRequestView>,
    observations: Seq<ObservationView>,
    charge: usize,
    rows: Map<Seq<u8>, LedgerRow>,
    member: int,
) -> (progress: ReplayProgress)
    requires
        0 <= member <= members.len(),
        members.len() > 0,
        keys_differ(observations),
        ledger_at(members, observations, 0, 0, rows),
        forall|k: int|
            0 <= k < member ==> #[trigger] member_replays(members, observations, charge as nat, k),
    ensures
        replay_all(members[0], replay_start(members, charge, rows), members) == replay_all(
            members[0],
            progress,
            members.skip(member),
        ),
        replayed_to(members, observations, charge, member, progress),
    decreases member,
{
    if member == 0 {
        assert(members.skip(0) =~= members);
        replay_start(members, charge, rows)
    } else {
        let last = member - 1;
        let before = members_replayed_so_far(members, observations, charge, rows, last);
        one_member_replays(members, observations, charge, last, before);
        assert(member_replays(members, observations, charge as nat, last));
        assert(members.skip(last)[0] == members[last]);
        assert(members.skip(last).skip(1) =~= members.skip(member));
        replay(members[0], before, members[last])->Ok_0
    }
}

proof fn accepted_members_replay(
    members: Seq<ProjectionApplyRequestView>,
    observations: Seq<ObservationView>,
    charge: usize,
    rows: Map<Seq<u8>, LedgerRow>,
    member: int,
)
    requires
        0 <= member <= members.len(),
        members.len() > 0,
        keys_differ(observations),
        ledger_at(members, observations, 0, 0, rows),
        replay_all(members[0], replay_start(members, charge, rows), members) is Ok,
    ensures
        forall|k: int|
            0 <= k < member ==> #[trigger] member_replays(members, observations, charge as nat, k),
    decreases member,
{
    if member > 0 {
        let last = member - 1;
        accepted_members_replay(members, observations, charge, rows, last);
        let before = members_replayed_so_far(members, observations, charge, rows, last);
        one_member_replays(members, observations, charge, last, before);
        assert(members.skip(last)[0] == members[last]);
        assert(member_replays(members, observations, charge as nat, last));
    }
}

proof fn member_charges_grow(members: Seq<ProjectionApplyRequestView>, a: nat, b: nat)
    requires
        a <= b <= members.len(),
    ensures
        update_count(members, a) <= update_count(members, b),
        member_bytes(members, a) <= member_bytes(members, b),
    decreases b,
{
    if a < b {
        member_charges_grow(members, a, (b - 1) as nat);
    }
}

/// The last writer of a key is a member that updates it, and every update before the place
/// has one.
pub proof fn last_writers_are_writers(
    members: Seq<ProjectionApplyRequestView>,
    member: int,
    update: int,
    key: Seq<u8>,
)
    requires
        0 <= member <= members.len(),
        0 <= update,
        member == members.len() ==> update == 0,
        member < members.len() ==> update <= members[member].rows.len(),
    ensures
        match last_writer(members, member, update, key) {
            Some(writer) => 0 <= writer <= member && writer < members.len() && exists|u: int|
                0 <= u < members[writer].rows.len() && (writer == member ==> u < update) && (
                #[trigger] members[writer].rows[u]).key.bytes == key && forall|m: int, v: int|
                    #![trigger members[m].rows[v]]
                    0 <= m < members.len() && 0 <= v < members[m].rows.len() && (m < member || (m
                        == member && v < update)) && (m > writer || (m == writer && v > u))
                        ==> members[m].rows[v].key.bytes != key,
            None => forall|m: int, v: int|
                #![trigger members[m].rows[v]]
                0 <= m < members.len() && 0 <= v < members[m].rows.len() && (m < member || (m
                    == member && v < update)) ==> members[m].rows[v].key.bytes != key,
        },
    decreases member, update,
{
    if update > 0 {
        if members[member].rows[update - 1].key.bytes != key {
            last_writers_are_writers(members, member, update - 1, key);
        }
    } else if member > 0 {
        last_writers_are_writers(members, member - 1, members[member - 1].rows.len() as int, key);
    }
}

/// Which batches are accepted, and at what charge. There are at most 64 members, and the
/// control record permits the generation of the first one at its frontier. The observed rows
/// fit, and the members go on from one another. Every update states the latest evidence of
/// an observed row, every observed row is updated, and the bounds of rows and bytes are
/// kept. The charge is that of a control record, of the observed rows twice and of the
/// members.
pub proof fn accepted_batches_state_their_evidence(
    expected: ProjectionControlView,
    members: Seq<ProjectionApplyRequestView>,
    observations: Seq<ObservationView>,
)
    ensures
        ({
            let first = members[0];
            let reserve = control_size(first.schema.identity);
            let evidence = evidence_bytes(
                observations,
                first.expected_frontier,
                observations.len(),
            );
            let charge = reserve + evidence + member_bytes(members, members.len());
            let outcome = batch_outcome(expected, members, observations);
            &&& outcome is Ok <==> {
                &&& 1 <= members.len() <= 64
                &&& observations.len() <= MAX_PROJECTION_ROW_UPDATES
                &&& expected.identity == first.schema.identity
                &&& expected.permits(first.generation)
                &&& expected.frontier_of(first.generation) == Some(first.expected_frontier)
                &&& forall|o: int|
                    0 <= o < observations.len() ==> #[trigger] observation_fits(
                        first,
                        observations,
                        o,
                    )
                &&& observations.len() > 0 ==> reserve + evidence
                    <= MAX_PROJECTION_APPLY_SNAPSHOT_BYTES
                &&& forall|m: int| 0 <= m < members.len() ==> #[trigger] member_goes_on(members, m)
                &&& update_count(members, members.len()) <= MAX_PROJECTION_ROW_UPDATES
                &&& charge <= MAX_PROJECTION_WRITE_SET_BYTES
                &&& all_state_latest_evidence(members, observations)
                &&& every_row_is_updated(members, observations)
            }
            &&& outcome is Ok ==> outcome == Ok::<usize, StorageValueError>(charge as usize)
        }),
{
    let first = members[0];
    let count = observations.len() as int;
    let outcome = batch_outcome(expected, members, observations);
    if 1 <= members.len() <= MAX_PROJECTION_BATCH_MEMBERS && count <= MAX_PROJECTION_ROW_UPDATES
        && expected.identity == first.schema.identity && expected.permits(first.generation)
        && expected.frontier_of(first.generation) == Some(first.expected_frontier) {
        if control_size(first.schema.identity) <= usize::MAX {
            let reserve = control_size(first.schema.identity) as usize;
            let start = ObservationProgress { charge: reserve, previous: None, rows: Map::empty() };
            let observed = observe_all(first, start, observations);
            if observed is Ok {
                accepted_observations_fit(first, reserve, observations, count);
            }
            if (forall|o: int|
                0 <= o < observations.len() ==> #[trigger] observation_fits(
                    first,
                    observations,
                    o,
                )) && evidence_bounded(first, reserve, observations, count) {
                let seen = observed_so_far(first, reserve, observations, count);
                assert(observations.skip(count).len() == 0);
                assert(observed == Ok::<ObservationProgress, StorageValueError>(seen));
                assert forall|i: int, j: int| 0 <= i < j < observations.len() implies observed_key(
                    #[trigger] observations[i],
                ).bytes != observed_key(#[trigger] observations[j]).bytes by {
                    fitting_keys_rise(first, observations, i, j);
                }
                assert(ledger_at(members, observations, 0, 0, seen.rows));
                members_decide(members, observations, seen.charge, seen.rows);
            }
        } else {
            assert(outcome is Err);
        }
    }
}

proof fn members_decide(
    members: Seq<ProjectionApplyRequestView>,
    observations: Seq<ObservationView>,
    charge: usize,
    rows: Map<Seq<u8>, LedgerRow>,
)
    requires
        members.len() > 0,
        keys_differ(observations),
        ledger_at(members, observations, 0, 0, rows),
    ensures
        ({
            let done = replay_all(members[0], replay_start(members, charge, rows), members);
            let accepted = {
                &&& forall|m: int| 0 <= m < members.len() ==> #[trigger] member_goes_on(members, m)
                &&& update_count(members, members.len()) <= MAX_PROJECTION_ROW_UPDATES
                &&& charge + member_bytes(members, members.len()) <= MAX_PROJECTION_WRITE_SET_BYTES
                &&& all_state_latest_evidence(members, observations)
            };
            &&& done is Ok <==> accepted
            &&& done is Ok ==> done->Ok_0.charge == charge + member_bytes(members, members.len())
            &&& done is Ok ==> (all_used(done->Ok_0.rows) <==> every_row_is_updated(
                members,
                observations,
            ))
        }),
{
    let count = members.len() as int;
    let done = replay_all(members[0], replay_start(members, charge, rows), members);
    let accepted = {
        &&& forall|m: int| 0 <= m < members.len() ==> #[trigger] member_goes_on(members, m)
        &&& update_count(members, members.len()) <= MAX_PROJECTION_ROW_UPDATES
        &&& charge + member_bytes(members, members.len()) <= MAX_PROJECTION_WRITE_SET_BYTES
        &&& all_state_latest_evidence(members, observations)
    };
    if done is Ok {
        accepted_members_replay(members, observations, charge, rows, count);
        assert forall|m: int| 0 <= m < members.len() implies #[trigger] member_goes_on(
            members,
            m,
        ) by {
            assert(member_replays(members, observations, charge as nat, m));
        }
        assert(member_replays(members, observations, charge as nat, count - 1));
        assert forall|member: int, update: int|
            #![trigger members[member].rows[update]]
            0 <= member < members.len() && 0 <= update
                < members[member].rows.len() implies states_latest_evidence(
            members,
            observations,
            member,
            update,
        ) by {
            assert(member_replays(members, observations, charge as nat, member));
        }
        assert(accepted);
    }
    if accepted {
        assert forall|k: int| 0 <= k < count implies #[trigger] member_replays(
            members,
            observations,
            charge as nat,
            k,
        ) by {
            member_charges_grow(members, (k + 1) as nat, members.len());
            assert(member_goes_on(members, k));
            assert forall|u: int|
                0 <= u < members[k].rows.len() implies #[trigger] states_latest_evidence(
                members,
                observations,
                k,
                u,
            ) by {
                let stated = members[k].rows[u];
            }
        }
        let end = members_replayed_so_far(members, observations, charge, rows, count);
        assert(members.skip(count).len() == 0);
        assert(done == Ok::<ReplayProgress, StorageValueError>(end));
        rows_are_used_where_updated(members, observations, end.rows);
    }
}

proof fn rows_are_used_where_updated(
    members: Seq<ProjectionApplyRequestView>,
    observations: Seq<ObservationView>,
    rows: Map<Seq<u8>, LedgerRow>,
)
    requires
        ledger_at(members, observations, members.len() as int, 0, rows),
    ensures
        all_used(rows) <==> every_row_is_updated(members, observations),
{
    let count = members.len() as int;
    if all_used(rows) {
        assert forall|o: int| 0 <= o < observations.len() implies key_is_updated(
            members,
            observed_key(#[trigger] observations[o]).bytes,
        ) by {
            let key = observed_key(observations[o]).bytes;
            last_writers_are_writers(members, count, 0, key);
            assert(rows[key] == latest_row(members, observations[o], count, 0));
            assert(rows.contains_key(key));
            assert(rows[key].used);
        }
    }
    if every_row_is_updated(members, observations) {
        assert forall|key: Seq<u8>| rows.contains_key(key) implies (#[trigger] rows[key]).used by {
            let o = choose|o: int|
                0 <= o < observations.len() && observed_key(#[trigger] observations[o]).bytes
                    == key;
            assert(rows[key] == latest_row(members, observations[o], count, 0));
            last_writers_are_writers(members, count, 0, key);
            assert(key_is_updated(members, observed_key(observations[o]).bytes));
        }
    }
}

/// What is looked at first: that there are members, that there are not too many of them or
/// of the observed rows, and that the control record is of their projection and permits the
/// first one where it stands.
pub proof fn batches_are_refused_for_their_base_first(
    expected: ProjectionControlView,
    members: Seq<ProjectionApplyRequestView>,
    observations: Seq<ObservationView>,
)
    ensures
        members.len() == 0 ==> batch_outcome(expected, members, observations) == Err::<usize, _>(
            StorageValueError::InvalidShape,
        ),
        members.len() > 64 || (members.len() > 0 && observations.len()
            > MAX_PROJECTION_ROW_UPDATES) ==> batch_outcome(expected, members, observations)
            == Err::<usize, _>(StorageValueError::LimitExceeded),
        1 <= members.len() <= 64 && observations.len() <= MAX_PROJECTION_ROW_UPDATES && (
        expected.identity != members[0].schema.identity || !expected.permits(members[0].generation)
            || expected.frontier_of(members[0].generation) != Some(members[0].expected_frontier))
            ==> batch_outcome(expected, members, observations) == Err::<usize, _>(
            StorageValueError::IdentityMismatch,
        ),
{
}

/// Whether the base of a batch is sound: its size, and its control record.
pub open spec fn base_is_sound(
    expected: ProjectionControlView,
    members: Seq<ProjectionApplyRequestView>,
    observations: Seq<ObservationView>,
) -> bool {
    &&& 1 <= members.len() <= 64
    &&& observations.len() <= MAX_PROJECTION_ROW_UPDATES
    &&& expected.identity == members[0].schema.identity
    &&& expected.permits(members[0].generation)
    &&& expected.frontier_of(members[0].generation) == Some(members[0].expected_frontier)
    &&& control_size(members[0].schema.identity) <= usize::MAX
}

/// The first observation that does not fit decides why the batch is refused: a key that does
/// not come after the one before is out of order, one of another shape or a row that changed
/// too late is misshapen, one of another generation is mistaken, measures are refused as the
/// schema refuses them, and a row beyond the bound of bytes exceeds the limit.
pub proof fn the_first_unfit_observation_decides(
    expected: ProjectionControlView,
    members: Seq<ProjectionApplyRequestView>,
    observations: Seq<ObservationView>,
    place: int,
)
    requires
        base_is_sound(expected, members, observations),
        0 <= place < observations.len(),
        forall|o: int|
            0 <= o < place ==> #[trigger] observation_fits(members[0], observations, o),
        place > 0 ==> control_size(members[0].schema.identity) + evidence_bytes(
            observations,
            members[0].expected_frontier,
            place as nat,
        ) <= MAX_PROJECTION_APPLY_SNAPSHOT_BYTES,
    ensures
        ({
            let first = members[0];
            let observation = observations[place];
            let key = observed_key(observation);
            let outcome = batch_outcome(expected, members, observations);
            let total = control_size(first.schema.identity) + evidence_bytes(
                observations,
                first.expected_frontier,
                (place + 1) as nat,
            );
            if place > 0 && !bytes_before(observed_key(observations[place - 1]).bytes, key.bytes) {
                outcome == Err::<usize, _>(StorageValueError::NonCanonicalOrder)
            } else if !first.schema.admits_complete(key.components) {
                outcome == Err::<usize, _>(StorageValueError::InvalidShape)
            } else if key.generation != first.generation {
                outcome == Err::<usize, _>(StorageValueError::IdentityMismatch)
            } else if observation matches ObservationView::Present(row)
                && first.schema.measure_refusal(row.measures) is Some {
                outcome == Err::<usize, _>(
                    first.schema.measure_refusal(observation->Present_0.measures)->Some_0,
                )
            } else if observed_bytes(observation, first.expected_frontier) is None {
                outcome == Err::<usize, _>(StorageValueError::InvalidShape)
            } else if total > usize::MAX {
                outcome == Err::<usize, _>(StorageValueError::SizeOverflow)
            } else if total > MAX_PROJECTION_APPLY_SNAPSHOT_BYTES {
                outcome == Err::<usize, _>(StorageValueError::LimitExceeded)
            } else {
                true
            }
        }),
{
    let first = members[0];
    let reserve = control_size(first.schema.identity) as usize;
    let before = observed_so_far(first, reserve, observations, place);
    assert(observations.skip(place)[0] == observations[place]);
    assert(observe_all(first, before, observations.skip(place)) == match observe(
        first,
        before,
        observations[place],
    ) {
        Err(error) => Err(error),
        Ok(next) => observe_all(first, next, observations.skip(place).skip(1)),
    });
}

/// After the observations, the first member that cannot be replayed decides: one that does
/// not go on from the one before is mistaken, one beyond the bounds of updates or bytes
/// exceeds the limit, and one that does not state the latest evidence is misshapen. So is a
/// batch whose members are all replayed and leave an observed row alone.
pub proof fn the_first_unfit_member_decides(
    expected: ProjectionControlView,
    members: Seq<ProjectionApplyRequestView>,
    observations: Seq<ObservationView>,
    member: int,
)
    requires
        base_is_sound(expected, members, observations),
        forall|o: int|
            0 <= o < observations.len() ==> #[trigger] observation_fits(
                members[0],
                observations,
                o,
            ),
        observations.len() > 0 ==> control_size(members[0].schema.identity) + evidence_bytes(
            observations,
            members[0].expected_frontier,
            observations.len(),
        ) <= MAX_PROJECTION_APPLY_SNAPSHOT_BYTES,
        0 <= member <= members.len(),
        forall|m: int| 0 <= m < member ==> #[trigger] member_goes_on(members, m),
        forall|m: int, u: int|
            #![trigger members[m].rows[u]]
            0 <= m < member && 0 <= u < members[m].rows.len() ==> states_latest_evidence(
                members,
                observations,
                m,
                u,
            ),
        update_count(members, member as nat) <= MAX_PROJECTION_ROW_UPDATES,
        member > 0 ==> control_size(members[0].schema.identity) + evidence_bytes(
            observations,
            members[0].expected_frontier,
            observations.len(),
        ) + member_bytes(members, member as nat) <= MAX_PROJECTION_WRITE_SET_BYTES,
    ensures
        ({
            let outcome = batch_outcome(expected, members, observations);
            let total = control_size(members[0].schema.identity) + evidence_bytes(
                observations,
                members[0].expected_frontier,
                observations.len(),
            ) + member_bytes(members, (member + 1) as nat);
            if member == members.len() {
                every_row_is_updated(members, observations) || outcome == Err::<usize, _>(
                    StorageValueError::InvalidShape,
                )
            } else if !member_goes_on(members, member) {
                outcome == Err::<usize, _>(StorageValueError::IdentityMismatch)
            } else if update_count(members, (member + 1) as nat) > usize::MAX {
                outcome == Err::<usize, _>(StorageValueError::SizeOverflow)
            } else if update_count(members, (member + 1) as nat) > MAX_PROJECTION_ROW_UPDATES {
                outcome == Err::<usize, _>(StorageValueError::LimitExceeded)
            } else if total > usize::MAX {
                outcome == Err::<usize, _>(StorageValueError::SizeOverflow)
            } else if total > MAX_PROJECTION_WRITE_SET_BYTES {
                outcome == Err::<usize, _>(StorageValueError::LimitExceeded)
            } else {
                (exists|u: int|
                    0 <= u < members[member].rows.len() && !states_latest_evidence(
                        members,
                        observations,
                        member,
                        u,
                    )) ==> outcome == Err::<usize, _>(StorageValueError::InvalidShape)
            }
        }),
{
    let first = members[0];
    let count = observations.len() as int;
    let reserve = control_size(first.schema.identity) as usize;
    let seen = observed_so_far(first, reserve, observations, count);
    assert(observations.skip(count).len() == 0);
    assert forall|i: int, j: int| 0 <= i < j < observations.len() implies observed_key(
        #[trigger] observations[i],
    ).bytes != observed_key(#[trigger] observations[j]).bytes by {
        fitting_keys_rise(first, observations, i, j);
    }
    assert(ledger_at(members, observations, 0, 0, seen.rows));
    assert forall|k: int| 0 <= k < member implies #[trigger] member_replays(
        members,
        observations,
        seen.charge as nat,
        k,
    ) by {
        member_charges_grow(members, (k + 1) as nat, member as nat);
        assert(member_goes_on(members, k));
        assert forall|u: int|
            0 <= u < members[k].rows.len() implies #[trigger] states_latest_evidence(
            members,
            observations,
            k,
            u,
        ) by {
            let stated = members[k].rows[u];
        }
    }
    let before = members_replayed_so_far(members, observations, seen.charge, seen.rows, member);
    if member == members.len() {
        assert(members.skip(member).len() == 0);
        rows_are_used_where_updated(members, observations, before.rows);
    } else {
        assert(members.skip(member)[0] == members[member]);
        one_member_replays(members, observations, seen.charge, member, before);
        let updates = members[member].rows;
        if replay_rows(before.rows, members[member].sequence, updates) is Some {
            replayed_rows_state_evidence(
                members,
                observations,
                member,
                updates.len() as int,
                before.rows,
            );
        }
        assert(replay_all(first, before, members.skip(member)) == match replay(
            first,
            before,
            members[member],
        ) {
            Err(error) => Err(error),
            Ok(next) => replay_all(first, next, members.skip(member).skip(1)),
        });
    }
}

} // verus!
