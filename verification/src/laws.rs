//! What holds of every run of the registry and of the sessions on it.

use crate::device::{updated, DeviceInfo, LocalStatus, RemoteStatus};
use crate::device_list::{
    distinct_ids, knows, lemma_recorded_distinct, recorded, recorded_all,
};
use crate::events::{done_text, no_adapter_text, scanning_text, Error, Signal};
use crate::session::{
    discover_registry, discover_result, discover_trace, on_init_finished, on_received, on_start,
    Action, SessionState, Transition,
};
use vstd::prelude::*;

verus! {

/// One step of some session on the shared registry, with what the outside
/// work produced for it.
pub enum Input {
    /// A session starts.
    Start,
    /// A session's enumeration ends: with the devices found, or with `None`
    /// where the transport was unavailable.
    InitFinished(Option<Seq<DeviceInfo>>),
    /// A session's scan yields an item: an update, or `None` at its end.
    Received(Option<DeviceInfo>),
}

/// The transition that `input` makes on `registry`.
pub open spec fn applied(registry: Option<Seq<DeviceInfo>>, input: Input) -> Transition {
    match input {
        Input::Start => on_start(registry),
        Input::InitFinished(outcome) => on_init_finished(registry, outcome),
        Input::Received(item) => on_received(registry, item),
    }
}

/// The registry after the steps of `inputs`, taken by any sessions in this
/// order.
pub open spec fn after(registry: Option<Seq<DeviceInfo>>, inputs: Seq<Input>) -> Option<
    Seq<DeviceInfo>,
>
    decreases inputs.len(),
{
    if inputs.len() == 0 {
        registry
    } else {
        applied(after(registry, inputs.drop_last()), inputs.last()).registry
    }
}

/// Whether `input` on `registry` commits a list: it ends an enumeration and
/// leaves its session ready.
pub open spec fn is_commit(registry: Option<Seq<DeviceInfo>>, input: Input) -> bool {
    input is InitFinished && applied(registry, input).state == SessionState::Ready
}

/// How many of the steps of `inputs` commit a list.
pub open spec fn commits(registry: Option<Seq<DeviceInfo>>, inputs: Seq<Input>) -> nat
    decreases inputs.len(),
{
    if inputs.len() == 0 {
        0
    } else {
        let won: nat = if is_commit(after(registry, inputs.drop_last()), inputs.last()) {
            1
        } else {
            0
        };
        commits(registry, inputs.drop_last()) + won
    }
}

/// On a filled registry no step commits a list, and the registry stays
/// filled, whatever the sessions do and in whatever order.
pub proof fn lemma_filled_registry_takes_no_commit(entries: Seq<DeviceInfo>, inputs: Seq<Input>)
    ensures
        after(Some(entries), inputs) is Some,
        commits(Some(entries), inputs) == 0,
    decreases inputs.len(),
{
    if inputs.len() > 0 {
        lemma_filled_registry_takes_no_commit(entries, inputs.drop_last());
    }
}

/// On a registry that is empty at first, whatever any number of sessions do
/// and in whatever order, at most one list is ever committed; one is exactly
/// when the registry is filled at the end.
pub proof fn lemma_at_most_one_commit(inputs: Seq<Input>)
    ensures
        commits(None, inputs) <= 1,
        commits(None, inputs) == 1 <==> after(None, inputs) is Some,
    decreases inputs.len(),
{
    if inputs.len() > 0 {
        lemma_at_most_one_commit(inputs.drop_last());
    }
}

/// A registry that is filled after some steps is filled after any more.
pub proof fn lemma_filled_for_good(
    registry: Option<Seq<DeviceInfo>>,
    inputs: Seq<Input>,
    n: int,
    m: int,
)
    requires
        0 <= n <= m <= inputs.len(),
        after(registry, inputs.take(n)) is Some,
    ensures
        after(registry, inputs.take(m)) is Some,
    decreases m,
{
    if n < m {
        lemma_filled_for_good(registry, inputs, n, m - 1);
        assert(inputs.take(m).drop_last() =~= inputs.take(m - 1));
    }
}

/// The end of a successful enumeration, after any steps on a registry that
/// was empty at first. If the registry is still empty, the session commits
/// what it enumerated and is ready. If it has been filled, the session fails
/// with `DuplicateInit`, emits nothing and leaves the registry as it is.
pub proof fn lemma_commit_or_abort(inputs: Seq<Input>, found: Seq<DeviceInfo>)
    ensures
        ({
            let before = after(None, inputs);
            let next = on_init_finished(before, Some(found));
            if before is None {
                &&& next.state == SessionState::Ready
                &&& next.action == Action::Proceed
                &&& next.registry == Some(recorded_all(Seq::empty(), found))
            } else {
                &&& next.state == SessionState::DuplicateAborted
                &&& next.action == Action::Fail(Error::DuplicateInit)
                &&& next.emitted == Seq::<Signal>::empty()
                &&& next.registry == before
            }
        }),
{
}

/// Once one session has committed its list, every enumeration that ends
/// later, however many steps later, is turned away with `DuplicateInit`.
pub proof fn lemma_later_commits_abort(inputs: Seq<Input>, winner: int, later: int)
    requires
        0 <= winner < later < inputs.len(),
        is_commit(after(None, inputs.take(winner)), inputs[winner]),
        inputs[later] is InitFinished,
        inputs[later]->InitFinished_0 is Some,
    ensures
        !is_commit(after(None, inputs.take(later)), inputs[later]),
        applied(after(None, inputs.take(later)), inputs[later]).state
            == SessionState::DuplicateAborted,
        applied(after(None, inputs.take(later)), inputs[later]).action == Action::Fail(
            Error::DuplicateInit,
        ),
{
    assert(inputs.take(winner + 1).drop_last() =~= inputs.take(winner));
    assert(inputs.take(winner + 1).last() == inputs[winner]);
    lemma_filled_for_good(None, inputs, winner + 1, later);
}

/// A filled registry is never emptied and never given another list: a
/// session that starts on it reuses it and asks for no enumeration, the end
/// of an enumeration leaves it as it is, and an item of a scan changes it
/// only by recording the update.
pub proof fn lemma_filled_registry_stays(
    entries: Seq<DeviceInfo>,
    outcome: Option<Seq<DeviceInfo>>,
    item: Option<DeviceInfo>,
)
    ensures
        on_start(Some(entries)).registry == Some(entries),
        on_start(Some(entries)).state == SessionState::Ready,
        on_start(Some(entries)).action == Action::Proceed,
        on_init_finished(Some(entries), outcome).registry == Some(entries),
        on_init_finished(Some(entries), outcome).state != SessionState::Ready,
        on_received(Some(entries), item).registry == match item {
            Some(info) => Some(recorded(entries, info)),
            None => Some(entries),
        },
{
}

/// A sighting removes no device: every identifier that was known stays
/// known, the one sighted is known, and the map does not shrink.
pub proof fn lemma_recorded_keeps_devices(entries: Seq<DeviceInfo>, info: DeviceInfo, id: u64)
    requires
        distinct_ids(entries),
    ensures
        knows(entries, id) ==> knows(recorded(entries, info), id),
        knows(recorded(entries, info), info.id),
        recorded(entries, info).len() >= entries.len(),
        recorded(entries, info).len() == entries.len() <==> knows(entries, info.id),
{
    let later = recorded(entries, info);
    if knows(entries, id) {
        let i = choose|i: int| 0 <= i < entries.len() && (#[trigger] entries[i]).id == id;
        assert(later[i].id == id);
    }
    lemma_recorded_distinct(entries, info);
}

/// Any run of sightings keeps the identifiers distinct.
pub proof fn lemma_recorded_all_distinct(entries: Seq<DeviceInfo>, items: Seq<DeviceInfo>)
    requires
        distinct_ids(entries),
    ensures
        distinct_ids(recorded_all(entries, items)),
    decreases items.len(),
{
    if items.len() > 0 {
        lemma_recorded_all_distinct(entries, items.drop_last());
        lemma_recorded_distinct(recorded_all(entries, items.drop_last()), items.last());
    }
}

/// A discovery that succeeded has filled the registry. A discovery after it
/// enumerates nothing: whatever its transport would have enumerated, and even
/// where it is unavailable, it succeeds, reuses the list, emits a snapshot of
/// each device in it and then the scan, and only records the scan's updates.
pub proof fn lemma_second_discover_reuses(
    registry: Option<Seq<DeviceInfo>>,
    first_reachable: Option<Seq<DeviceInfo>>,
    first_updates: Seq<DeviceInfo>,
    second_reachable: Option<Seq<DeviceInfo>>,
    second_updates: Seq<DeviceInfo>,
)
    requires
        discover_result(registry, first_reachable) is Ok,
    ensures
        discover_registry(registry, first_reachable, first_updates) is Some,
        ({
            let list = discover_registry(registry, first_reachable, first_updates);
            &&& on_start(list).action == Action::Proceed
            &&& discover_result(list, second_reachable) is Ok
            &&& discover_registry(list, second_reachable, second_updates) == Some(
                recorded_all(list->0, second_updates),
            )
            &&& discover_trace(list, second_reachable, second_updates) == discover_trace(
                list,
                None,
                second_updates,
            )
        }),
{
}

/// On a registry that holds `entries`, a discovery emits one snapshot for
/// each entry, in the entries' order, and right after them the text that
/// announces the scan.
pub proof fn lemma_catch_up_complete(
    entries: Seq<DeviceInfo>,
    reachable: Option<Seq<DeviceInfo>>,
    updates: Seq<DeviceInfo>,
)
    ensures
        ({
            let events = discover_trace(Some(entries), reachable, updates);
            &&& events.len() == entries.len() + updates.len() + 2
            &&& forall|i: int|
                0 <= i < entries.len() ==> #[trigger] events[i] == Signal::Device(entries[i])
            &&& events[entries.len() as int] == Signal::Status(scanning_text())
        }),
{
}

/// The number of snapshots that a discovery emits before it announces the
/// scan: one for each device of a filled registry, none on an empty one.
pub open spec fn caught_up(registry: Option<Seq<DeviceInfo>>) -> int {
    match registry {
        Some(entries) => entries.len() as int,
        None => 0,
    }
}

/// A discovery that succeeds emits, between the text that announces the scan
/// and the closing text, exactly the scan's updates in the order of their
/// arrival, and nothing after the closing text.
pub proof fn lemma_scan_keeps_order(
    registry: Option<Seq<DeviceInfo>>,
    reachable: Option<Seq<DeviceInfo>>,
    updates: Seq<DeviceInfo>,
)
    requires
        discover_result(registry, reachable) is Ok,
    ensures
        ({
            let events = discover_trace(registry, reachable, updates);
            let at = caught_up(registry);
            &&& events.len() == at + updates.len() + 2
            &&& events[at] == Signal::Status(scanning_text())
            &&& forall|i: int|
                0 <= i < updates.len() ==> #[trigger] events[at + 1 + i] == Signal::Device(
                    updates[i],
                )
            &&& events[at + 1 + updates.len()] == Signal::Status(done_text())
        }),
{
}

/// A discovery whose transport is unavailable on an empty registry emits the
/// one text that says so, leaves the registry empty and fails.
pub proof fn lemma_unavailable_transport(updates: Seq<DeviceInfo>)
    ensures
        discover_trace(None, None, updates) == seq![Signal::Status(no_adapter_text())],
        discover_registry(None, None, updates) is None,
        discover_result(None, None) == Err::<(), Error>(Error::TransportUnavailable),
{
}

/// The snapshot `info` after the updates of `updates`, taken in order.
pub open spec fn updated_all(
    info: DeviceInfo,
    updates: Seq<(Option<LocalStatus>, Option<RemoteStatus>)>,
) -> DeviceInfo
    decreases updates.len(),
{
    if updates.len() == 0 {
        info
    } else {
        updated(updated_all(info, updates.drop_last()), updates.last().0, updates.last().1)
    }
}

/// After any run of updates that each carry both statuses, the two statuses
/// of a device are those of the last update: never one of an earlier update
/// beside one of a later.
pub proof fn lemma_status_pair_of_one_update(
    info: DeviceInfo,
    updates: Seq<(Option<LocalStatus>, Option<RemoteStatus>)>,
)
    requires
        updates.len() > 0,
        forall|i: int| 0 <= i < updates.len() ==> (#[trigger] updates[i]).0 is Some && updates[i].1 is Some,
    ensures
        updated_all(info, updates).id == info.id,
        updated_all(info, updates).local_status == updates.last().0->0,
        updated_all(info, updates).remote_status == updates.last().1->0,
{
    lemma_updates_keep_id(info, updates.drop_last());
}

/// No update changes a device's identifier.
pub proof fn lemma_updates_keep_id(
    info: DeviceInfo,
    updates: Seq<(Option<LocalStatus>, Option<RemoteStatus>)>,
)
    ensures
        updated_all(info, updates).id == info.id,
    decreases updates.len(),
{
    if updates.len() > 0 {
        lemma_updates_keep_id(info, updates.drop_last());
    }
}

} // verus!
