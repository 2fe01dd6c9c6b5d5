//! Manifests, which say what an item is made of.
use vstd::prelude::*;

use crate::dom::Dom;
use crate::logic::channel::PollError;
use crate::logic::func::Double;
use crate::logic::proxy::{LogicInst, LogicInstEvent};
use crate::logic::runtime::{LogicInputEvent, LogicOutputEvent};
use crate::logic::time::Timestamp;

verus! {

/// A part of a manifest that can be brought to life.
pub trait ManifestSection {
    type LiveInstance;

    /// Whether the section has all that it needs to be spawned.
    spec fn ready(&self) -> bool;

    /// Whether `live` is what the section spawns.
    spec fn lives_as(&self, live: Self::LiveInstance) -> bool;

    fn spawn(&self) -> (live: Self::LiveInstance)
        requires
            self.ready(),
        ensures
            self.lives_as(live),
    ;
}

/// What an item is made of. `L` is the form of its logic section.
#[derive(Debug)]
pub struct Manifest<L> {
    pub dom: Option<Dom>,
    pub logic: Option<L>,
}

impl<L: ManifestSection> Manifest<L> {
    /// Whether the manifest can be spawned.
    pub open spec fn ready(self) -> bool {
        self.logic matches Some(logic) ==> logic.ready()
    }

    /// The live form of the logic section, for the item to carry. A manifest
    /// without one adds nothing to its item.
    pub fn spawn(&self) -> (live: Option<L::LiveInstance>)
        requires
            self.ready(),
        ensures
            live is Some <==> self.logic is Some,
            live is Some ==> self.logic->Some_0.lives_as(live->Some_0),
    {
        match &self.logic {
            Some(logic) => Some(logic.spawn()),
            None => None,
        }
    }
}

/// The wish that an item be made from a manifest.
#[derive(Debug)]
pub struct ManifestSpawnEvent<L> {
    pub manifest: Manifest<L>,
    /// The number of the item.
    pub entity: u64,
}

/// A live section and the item that is to carry it.
#[derive(Debug)]
pub struct Insertion<Live> {
    pub entity: u64,
    pub live: Live,
}

/// The events, by their position, that add a section to their item: those of
/// items that are alive and of manifests with a logic section.
pub open spec fn effective<L>(events: Seq<&ManifestSpawnEvent<L>>, alive: Seq<bool>) -> Seq<int>
    decreases events.len(),
{
    if events.len() == 0 {
        Seq::empty()
    } else {
        let before = effective(events.drop_last(), alive);
        let last = events.len() - 1;
        if alive[last] && events[last].manifest.logic is Some {
            before.push(last)
        } else {
            before
        }
    }
}

/// Spawns the manifests of all events whose items are alive, in the order of
/// the events. `alive` tells this of each event.
pub fn manifest_spawner<L: ManifestSection>(
    events: &Vec<&ManifestSpawnEvent<L>>,
    alive: &Vec<bool>,
) -> (insertions: Vec<Insertion<L::LiveInstance>>)
    requires
        events@.len() == alive@.len(),
        forall|i: int|
            0 <= i < events@.len() && alive@[i] ==> (#[trigger] events@[i]).manifest.ready(),
    ensures
        insertions@.len() == effective(events@, alive@).len(),
        forall|j: int|
            0 <= j < insertions@.len() ==> {
                let event = events@[effective(events@, alive@)[j]];
                &&& (#[trigger] insertions@[j]).entity == event.entity
                &&& event.manifest.logic->Some_0.lives_as(insertions@[j].live)
            },
{
    let mut insertions: Vec<Insertion<L::LiveInstance>> = Vec::new();
    let mut i: usize = 0;
    while i < events.len()
        invariant
            events@.len() == alive@.len(),
            forall|k: int|
                0 <= k < events@.len() && alive@[k] ==> (#[trigger] events@[k]).manifest.ready(),
            i <= events@.len(),
            insertions@.len() == effective(events@.take(i as int), alive@).len(),
            forall|j: int|
                0 <= j < insertions@.len() ==> {
                    let event = events@[effective(events@.take(i as int), alive@)[j]];
                    &&& (#[trigger] insertions@[j]).entity == event.entity
                    &&& event.manifest.logic->Some_0.lives_as(insertions@[j].live)
                },
        decreases events@.len() - i,
    {
        assert(events@.take(i + 1).drop_last() =~= events@.take(i as int));
        if alive[i] {
            if let Some(live) = events[i].manifest.spawn() {
                insertions.push(Insertion { entity: events[i].entity, live });
            }
        }
        i = i + 1;
    }
    assert(events@.take(i as int) =~= events@);
    insertions
}

/// Lets an item carry a running script.
#[derive(Debug)]
pub struct LogicComponent {
    pub inst: LogicInst,
}

/// Tells an item's script that a frame has passed. A script that has ended is
/// passed over.
pub fn update_dt(logic: &mut LogicComponent, delta_t: Double, now: Timestamp)
    ensures
        final(logic).inst.offered() == old(logic).inst.offered().push(
            LogicInstEvent { input: LogicInputEvent::Update(delta_t), send_time: now },
        ),
        final(logic).inst.sent() == old(logic).inst.sent() || final(logic).inst.sent() == old(
            logic,
        ).inst.sent().push(
            LogicInstEvent { input: LogicInputEvent::Update(delta_t), send_time: now },
        ),
        final(logic).inst.received() == old(logic).inst.received(),
        final(logic).inst.answers() == old(logic).inst.answers(),
        final(logic).inst.line_in() == old(logic).inst.line_in(),
        final(logic).inst.line_out() == old(logic).inst.line_out(),
        old(logic).inst.in_line() ==> final(logic).inst.in_line(),
{
    let _ = logic.inst.send(LogicInputEvent::Update(delta_t), now);
}

/// The looks for a message that gave the given messages, one each.
pub open spec fn looks_for(messages: Seq<LogicOutputEvent>) -> Seq<
    Result<LogicOutputEvent, PollError>,
> {
    messages.map_values(|message: LogicOutputEvent| Ok(message))
}

/// All messages that an item's script has sent and that were not read yet, in
/// the order in which they were sent: it goes on until a look for a message gives
/// none, or until no vector could hold more.
pub fn read_messages(logic: &mut LogicComponent) -> (messages: Vec<LogicOutputEvent>)
    ensures
        messages@.len() < usize::MAX ==> {
            &&& final(logic).inst.answers() == old(logic).inst.answers() + looks_for(
                messages@,
            ).push(final(logic).inst.answers().last())
            &&& final(logic).inst.answers().last() is Err
        },
        messages@.len() == usize::MAX ==> final(logic).inst.answers() == old(
            logic,
        ).inst.answers() + looks_for(messages@),
        final(logic).inst.answers().len() >= old(logic).inst.answers().len() + messages@.len(),
        forall|i: int|
            0 <= i < messages@.len() ==> final(logic).inst.answers()[old(logic).inst.answers().len()
                + i] == Ok::<LogicOutputEvent, PollError>(#[trigger] messages@[i]),
        final(logic).inst.received() == old(logic).inst.received() + messages@,
        final(logic).inst.sent() == old(logic).inst.sent(),
        final(logic).inst.offered() == old(logic).inst.offered(),
        final(logic).inst.line_in() == old(logic).inst.line_in(),
        final(logic).inst.line_out() == old(logic).inst.line_out(),
        old(logic).inst.in_line() ==> final(logic).inst.in_line(),
{
    let mut messages: Vec<LogicOutputEvent> = Vec::new();
    let ghost before = logic.inst.received();
    let ghost asked = logic.inst.answers();
    assert(before =~= before + messages@);
    assert(asked =~= asked + looks_for(messages@));
    while messages.len() < usize::MAX
        invariant
            before == old(logic).inst.received(),
            logic.inst.received() == before + messages@,
            asked == old(logic).inst.answers(),
            logic.inst.answers() == asked + looks_for(messages@),
            logic.inst.sent() == old(logic).inst.sent(),
            logic.inst.offered() == old(logic).inst.offered(),
            logic.inst.line_in() == old(logic).inst.line_in(),
            logic.inst.line_out() == old(logic).inst.line_out(),
            old(logic).inst.in_line() ==> logic.inst.in_line(),
        decreases usize::MAX - messages@.len(),
    {
        match logic.inst.try_recv() {
            Some(message) => {
                messages.push(message);
                assert(logic.inst.received() =~= before + messages@);
                assert(logic.inst.answers() =~= asked + looks_for(messages@));
            },
            None => {
                assert(logic.inst.answers() =~= asked + looks_for(messages@).push(
                    logic.inst.answers().last(),
                ));
                return messages;
            },
        }
    }
    messages
}

/// Each event adds to its item at most once, the events do so in their order,
/// and those that do are the ones of items that are alive and of manifests with
/// a logic section.
pub proof fn effective_events_act_once_in_order<L>(
    events: Seq<&ManifestSpawnEvent<L>>,
    alive: Seq<bool>,
)
    ensures
        forall|j: int, k: int|
            0 <= j < k < effective(events, alive).len() ==> (#[trigger] effective(events, alive)[j])
                < (#[trigger] effective(events, alive)[k]),
        forall|j: int|
            0 <= j < effective(events, alive).len() ==> {
                let i = #[trigger] effective(events, alive)[j];
                0 <= i < events.len() && alive[i] && events[i].manifest.logic is Some
            },
        forall|i: int|
            0 <= i < events.len() && alive[i] && (#[trigger] events[i]).manifest.logic is Some
                ==> effective(events, alive).contains(i),
    decreases events.len(),
{
    if events.len() > 0 {
        let rest = events.drop_last();
        let before = effective(rest, alive);
        let last = events.len() - 1;
        effective_events_act_once_in_order(rest, alive);
        assert forall|i: int|
            0 <= i < events.len() && alive[i] && (
            #[trigger] events[i]).manifest.logic is Some implies effective(events, alive).contains(
            i,
        ) by {
            if i < last {
                assert(rest[i] == events[i]);
                let j = choose|j: int| 0 <= j < before.len() && before[j] == i;
                assert(effective(events, alive)[j] == i);
            } else {
                assert(effective(events, alive)[before.len() as int] == i);
            }
        }
        assert forall|j: int| 0 <= j < effective(events, alive).len() implies {
            let i = #[trigger] effective(events, alive)[j];
            0 <= i < events.len() && alive[i] && events[i].manifest.logic is Some
        } by {
            if j < before.len() {
                assert(before[j] == effective(events, alive)[j]);
                assert(rest[before[j]] == events[before[j]]);
            }
        }
        assert forall|j: int, k: int| 0 <= j < k < effective(events, alive).len() implies (
        #[trigger] effective(events, alive)[j]) < (#[trigger] effective(events, alive)[k]) by {
            assert(before[j] == effective(events, alive)[j]);
            if k < before.len() {
                assert(before[k] == effective(events, alive)[k]);
            }
        }
    }
}

/// A manifest can be spawned exactly when its logic section can, and one without
/// a logic section always can.
pub proof fn a_manifest_is_ready_with_its_section<L: ManifestSection>(manifest: Manifest<L>)
    ensures
        manifest.logic is None ==> manifest.ready(),
        manifest.logic is Some ==> (manifest.ready() <==> manifest.logic->Some_0.ready()),
{
}

/// Each message that was read stands for one look that gave it.
pub proof fn each_message_is_looked_for_once(messages: Seq<LogicOutputEvent>)
    ensures
        looks_for(messages).len() == messages.len(),
        forall|i: int|
            0 <= i < messages.len() ==> #[trigger] looks_for(messages)[i] == Ok::<
                LogicOutputEvent,
                PollError,
            >(messages[i]),
{
}

} // verus!
