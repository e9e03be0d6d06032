use crate::tracking::ledger::{
    index_supplies, lemma_indexed_ids, lemma_ledger_ids_are_listed, next_ledger, reports,
    supplies_by_id, AcceptanceCosts, DateMap, SupplyUpdateAcceptanceCosts, Updates,
};
use crate::wbseller::client::{costs_by_id, lemma_batch_covers_index, Client};
use crate::wbseller::models::cost::AcceptanceCostsResponse;
use crate::wbseller::models::supply::{ListSuppliesResponse, Supply};
use vstd::prelude::*;

verus! {

broadcast use vstd::std_specs::hash::group_hash_axioms;

/// The status of the supplies that are watched: not yet planned.
pub const NOT_PLANNED: i8 = -1;

/// What subscribers are told after a poll: `Ok(None)` when nothing changed,
/// `Ok(Some(updates))` when something did, `Err(())` when the stream has ended.
pub type UpdateMessage = Result<Option<Updates>, ()>;

/// A message as a mathematical value.
pub type Notice = Result<Option<Map<i64, SupplyUpdateAcceptanceCosts>>, ()>;

/// The mathematical value of a message.
pub open spec fn notice_of(message: UpdateMessage) -> Notice {
    match message {
        Ok(Some(updates)) => Ok(Some(updates@)),
        Ok(None) => Ok(None),
        Err(_) => Err(()),
    }
}

/// When the engine polls and when it refreshes its identity.
#[derive(Clone, Copy, Debug, PartialEq, Eq, Structural)]
pub struct Schedule {
    /// The pause between two polls, in milliseconds.
    pub update_interval_millis: u64,
    /// The time after which the identity is derived anew, in milliseconds.
    pub refresh_interval_millis: u64,
    /// The number of days, from today on, for which costs are fetched.
    pub days: u8,
}

impl Default for Schedule {
    fn default() -> (schedule: Schedule)
        ensures
            schedule.update_interval_millis == 5_000,
            schedule.refresh_interval_millis == 3_600_000,
            schedule.days == 14,
    {
        Schedule { update_interval_millis: 5_000, refresh_interval_millis: 3_600_000, days: 14 }
    }
}

/// Whether the polls since the last refresh have taken longer than the refresh
/// interval, counting each poll as one pause.
pub open spec fn refresh_due(schedule: Schedule, ticks: u32) -> bool {
    schedule.update_interval_millis * ticks > schedule.refresh_interval_millis
}

/// What the engine waits for.
#[derive(Clone, Copy, Debug, PartialEq, Eq, Structural)]
pub enum Phase {
    /// The pause between two polls to be over.
    Waiting,
    /// A new identity.
    Refreshing,
    /// The list of supplies.
    Listing,
    /// The costs of the listed supplies.
    Costing,
    /// Word of whether its message went out.
    Publishing,
    /// Nothing: the stream has ended.
    Ended,
}

/// What the engine asks its driver to do next.
#[derive(Clone, Copy, Debug, PartialEq, Eq, Structural)]
pub enum Action {
    /// Derive a new identity and report it with `refreshed`.
    RefreshCredentials,
    /// Fetch the supplies of the given status and report them with `listed`.
    ListSupplies { status_id: i8 },
    /// Look up the costs of each pending supply for the given number of days
    /// and report them with `costed`.
    FetchCosts { days: u8 },
    /// Send the message of the channel to the subscribers and report with
    /// `published` whether anybody took it.
    Publish,
    /// Pause, then report with `woke`.
    Sleep { millis: u64 },
    /// Stop for good; where the channel holds the end-of-stream message, send
    /// it first.
    Finish,
    /// Nothing: the report did not fit what the engine was waiting for.
    Nothing,
}

/// The engine as a mathematical value.
pub struct EngineState {
    pub schedule: Schedule,
    pub client: Client,
    pub ledger: Map<i64, DateMap>,
    pub ticks: u32,
    pub phase: Phase,
    pub pending: Seq<Supply>,
    pub channel: Notice,
    pub closed: bool,
}

impl EngineState {
    /// Whether the engine still takes reports: it is neither closed nor ended.
    pub open spec fn running(self) -> bool {
        !self.closed && self.phase != Phase::Ended
    }

    /// Whether the engine takes reports and waits for the given kind.
    pub open spec fn awaits(self, phase: Phase) -> bool {
        self.running() && self.phase == phase
    }

    /// The engine as it starts the poll proper: one more tick counted, waiting
    /// for the list.
    pub open spec fn polling(self) -> EngineState {
        EngineState { ticks: (self.ticks + 1) as u32, phase: Phase::Listing, ..self }
    }

    /// The engine as it gives up on a poll: waiting for the pause to be over,
    /// with no supplies pending.
    pub open spec fn resting(self) -> EngineState {
        EngineState { phase: Phase::Waiting, pending: Seq::empty(), ..self }
    }
}

/// The action that answers a report which the engine cannot use.
pub open spec fn idle_action(state: EngineState) -> Action {
    if state.running() {
        Action::Nothing
    } else {
        Action::Finish
    }
}

/// The action that gives up a poll: a pause of one update interval.
pub open spec fn pause(state: EngineState) -> Action {
    Action::Sleep { millis: state.schedule.update_interval_millis }
}

impl EngineState {
    /// The engine after `close`.
    pub open spec fn after_close(self) -> EngineState {
        EngineState { closed: true, ..self }
    }

    /// The answer of `close`: whether the call is the first.
    pub open spec fn on_close(self) -> bool {
        !self.closed
    }

    /// The engine after `woke`.
    pub open spec fn after_woke(self) -> EngineState {
        if !self.awaits(Phase::Waiting) {
            self
        } else if refresh_due(self.schedule, self.ticks) {
            EngineState { phase: Phase::Refreshing, ..self }
        } else {
            self.polling()
        }
    }

    /// The answer of `woke`.
    pub open spec fn on_woke(self) -> Action {
        if !self.awaits(Phase::Waiting) {
            idle_action(self)
        } else if refresh_due(self.schedule, self.ticks) {
            Action::RefreshCredentials
        } else {
            Action::ListSupplies { status_id: NOT_PLANNED }
        }
    }

    /// The engine after `refreshed`.
    pub open spec fn after_refreshed(self, outcome: Option<Client>) -> EngineState {
        if !self.awaits(Phase::Refreshing) {
            self
        } else {
            match outcome {
                Some(client) => (EngineState { client, ticks: 0, ..self }).polling(),
                None => self.polling(),
            }
        }
    }

    /// The answer of `refreshed`.
    pub open spec fn on_refreshed(self) -> Action {
        if !self.awaits(Phase::Refreshing) {
            idle_action(self)
        } else {
            Action::ListSupplies { status_id: NOT_PLANNED }
        }
    }

    /// The engine after `listed`.
    pub open spec fn after_listed(self, answer: Option<ListSuppliesResponse>) -> EngineState {
        if !self.awaits(Phase::Listing) {
            self
        } else {
            match answer {
                Some(list) if list.result.data@.len() > 0 => EngineState {
                    phase: Phase::Costing,
                    pending: list.result.data@,
                    ..self
                },
                _ => self.resting(),
            }
        }
    }

    /// The answer of `listed`.
    pub open spec fn on_listed(self, answer: Option<ListSuppliesResponse>) -> Action {
        if !self.awaits(Phase::Listing) {
            idle_action(self)
        } else {
            match answer {
                Some(list) if list.result.data@.len() > 0 => Action::FetchCosts {
                    days: self.schedule.days,
                },
                _ => pause(self),
            }
        }
    }

    /// The engine after `published`.
    pub open spec fn after_published(self, delivered: bool) -> EngineState {
        if !self.awaits(Phase::Publishing) {
            self
        } else if delivered {
            EngineState { phase: Phase::Waiting, ..self }
        } else {
            EngineState { phase: Phase::Ended, channel: Err(()), ..self }
        }
    }

    /// The answer of `published`.
    pub open spec fn on_published(self, delivered: bool) -> Action {
        if !self.awaits(Phase::Publishing) {
            idle_action(self)
        } else if delivered {
            pause(self)
        } else {
            Action::Finish
        }
    }
}

/// After a poll that came as far as the costs, the ledger knows a supply
/// exactly if the list of that poll carries its id: nothing stale stays, and
/// no failed lookup keeps a listed supply out.
pub proof fn lemma_poll_leaves_the_listed_ids(
    ledger: Map<i64, DateMap>,
    pending: Seq<Supply>,
    answers: Seq<Option<AcceptanceCostsResponse>>,
    k: i64,
)
    ensures
        next_ledger(
            ledger,
            supplies_by_id(pending).dom(),
            costs_by_id(pending, answers),
        ).contains_key(k) <==> exists|i: int|
            0 <= i < pending.len() && (#[trigger] pending[i]).preorder_id == Some(k),
{
    lemma_batch_covers_index(pending, answers);
    lemma_indexed_ids(pending, k);
    lemma_ledger_ids_are_listed(
        ledger,
        supplies_by_id(pending).dom(),
        costs_by_id(pending, answers),
    );
}

/// Of any number of calls of `close` exactly one is the first: a second call
/// says that it is not and leaves the engine as the first call left it.
pub proof fn lemma_close_takes_effect_once(state: EngineState)
    ensures
        state.on_close() == !state.closed,
        state.after_close().closed,
        !state.after_close().on_close(),
        state.after_close().after_close() == state.after_close(),
        !state.after_close().running(),
{
}

/// A closed engine takes no report: whatever the driver still reports, the
/// engine stays as it is and answers that the driver is to finish.
pub proof fn lemma_closed_engine_stands_still(
    state: EngineState,
    outcome: Option<Client>,
    answer: Option<ListSuppliesResponse>,
    delivered: bool,
)
    requires
        state.closed,
    ensures
        state.after_woke() == state && state.on_woke() == Action::Finish,
        state.after_refreshed(outcome) == state && state.on_refreshed() == Action::Finish,
        state.after_listed(answer) == state && state.on_listed(answer) == Action::Finish,
        state.after_published(delivered) == state && state.on_published(delivered) == Action::Finish,
{
}

/// A refresh that fails does not stop the poll and does not start the tick
/// count again: the engine goes on to ask for the list under the identity it
/// had, with one more tick counted, so that the refresh is due again at the
/// next poll.
pub proof fn lemma_failed_refresh_keeps_the_poll(state: EngineState)
    requires
        state.awaits(Phase::Refreshing),
        state.ticks < u32::MAX,
    ensures
        state.on_refreshed() == (Action::ListSupplies { status_id: NOT_PLANNED }),
        state.after_refreshed(None).phase == Phase::Listing,
        state.after_refreshed(None).client == state.client,
        state.after_refreshed(None).ticks == state.ticks + 1,
        state.after_refreshed(None).ledger == state.ledger,
        state.after_refreshed(None).channel == state.channel,
        refresh_due(state.schedule, state.ticks) ==> refresh_due(
            state.after_refreshed(None).schedule,
            state.after_refreshed(None).ticks,
        ),
{
    let interval = state.schedule.update_interval_millis;
    let ticks = state.ticks;
    assert(interval * ticks <= interval * (ticks + 1)) by (nonlinear_arith)
        requires
            interval >= 0,
    ;
}

/// A refresh that succeeds swaps the identity and starts the tick count
/// again.
pub proof fn lemma_refresh_starts_the_count_again(state: EngineState, client: Client)
    requires
        state.awaits(Phase::Refreshing),
    ensures
        state.after_refreshed(Some(client)).client == client,
        state.after_refreshed(Some(client)).ticks == 1,
        state.after_refreshed(Some(client)).phase == Phase::Listing,
{
}

/// Subscribers see the last message until the next one: no report but the
/// costs of a poll, or word that nobody took a message, changes the channel.
pub proof fn lemma_channel_keeps_last_message(
    state: EngineState,
    outcome: Option<Client>,
    answer: Option<ListSuppliesResponse>,
)
    ensures
        state.after_close().channel == state.channel,
        state.after_woke().channel == state.channel,
        state.after_refreshed(outcome).channel == state.channel,
        state.after_listed(answer).channel == state.channel,
        state.after_published(true).channel == state.channel,
        state.awaits(Phase::Publishing) ==> state.after_published(false).channel == Err::<
            Option<Map<i64, SupplyUpdateAcceptanceCosts>>,
            (),
        >(()),
{
}

/// A poll that is given up leaves the ledger as it was: neither a failed list
/// request nor an empty list forgets a supply.
pub proof fn lemma_given_up_poll_keeps_ledger(state: EngineState, answer: Option<ListSuppliesResponse>)
    ensures
        state.after_listed(answer).ledger == state.ledger,
{
}

/// The poll-and-diff engine: its identity, its ledger of last known costs, the
/// message that subscribers see, and where in a poll it stands.
///
/// The engine decides and its driver acts: each report of the driver moves the
/// engine on and is answered with the next action to take.
#[derive(Debug)]
pub struct TrackingSupplies {
    schedule: Schedule,
    client: Client,
    acceptance_costs: AcceptanceCosts,
    ticks: u32,
    phase: Phase,
    pending: Vec<Supply>,
    channel: UpdateMessage,
    is_closed: bool,
}

impl View for TrackingSupplies {
    type V = EngineState;

    closed spec fn view(&self) -> EngineState {
        EngineState {
            schedule: self.schedule,
            client: self.client,
            ledger: self.acceptance_costs@,
            ticks: self.ticks,
            phase: self.phase,
            pending: self.pending@,
            channel: notice_of(self.channel),
            closed: self.is_closed,
        }
    }
}

impl TrackingSupplies {
    /// The ledger is well formed.
    pub closed spec fn wf(self) -> bool {
        self.acceptance_costs.wf()
    }

    /// An engine that is about to make its first poll: it knows no supply, has
    /// counted no tick, and tells subscribers that nothing has changed.
    pub fn watch(client: Client, schedule: Schedule) -> (engine: Self)
        ensures
            engine.wf(),
            engine@ == (EngineState {
                schedule,
                client,
                ledger: Map::empty(),
                ticks: 0,
                phase: Phase::Waiting,
                pending: Seq::empty(),
                channel: Ok(None),
                closed: false,
            }),
    {
        TrackingSupplies {
            schedule,
            client,
            acceptance_costs: AcceptanceCosts::new(),
            ticks: 0,
            phase: Phase::Waiting,
            pending: Vec::new(),
            channel: Ok(None),
            is_closed: false,
        }
    }

    /// The identity under which the remote API is called.
    pub fn client(&self) -> (client: &Client)
        ensures
            *client == self@.client,
    {
        &self.client
    }

    /// The schedule that the engine keeps.
    pub fn schedule(&self) -> (schedule: Schedule)
        ensures
            schedule == self@.schedule,
    {
        self.schedule
    }

    /// The number of polls begun since the identity was last derived.
    pub fn ticks(&self) -> (ticks: u32)
        ensures
            ticks == self@.ticks,
    {
        self.ticks
    }

    /// What the engine waits for.
    pub fn phase(&self) -> (phase: Phase)
        ensures
            phase == self@.phase,
    {
        self.phase
    }

    /// Whether the engine has been closed.
    pub fn is_closed(&self) -> (closed: bool)
        ensures
            closed == self@.closed,
    {
        self.is_closed
    }

    /// The supplies of the poll in progress, whose costs are to be looked up.
    pub fn pending(&self) -> (supplies: &Vec<Supply>)
        ensures
            supplies@ == self@.pending,
    {
        &self.pending
    }

    /// Whether the identity is due for a refresh.
    pub fn refresh_due(&self) -> (due: bool)
        ensures
            due == refresh_due(self@.schedule, self@.ticks),
    {
        let interval = self.schedule.update_interval_millis;
        let ticks = self.ticks;
        assert(interval * ticks <= u64::MAX * u32::MAX) by (nonlinear_arith)
            requires
                interval <= u64::MAX,
                ticks <= u32::MAX,
        ;
        let elapsed: u128 = (interval as u128) * (ticks as u128);
        elapsed > self.schedule.refresh_interval_millis as u128
    }

    /// The message that a new subscriber sees first: the last one published.
    pub fn subscribe_channel(&self) -> (message: &UpdateMessage)
        ensures
            notice_of(*message) == self@.channel,
    {
        &self.channel
    }

    /// A copy of the ledger as it stands.
    pub fn read_acceptance_costs(&self) -> (ledger: AcceptanceCosts)
        requires
            self.wf(),
        ensures
            ledger.wf(),
            ledger@ == self@.ledger,
    {
        self.acceptance_costs.snapshot()
    }

    /// Closes the engine. The first call says `true`: its caller stops the
    /// browser and cancels the driver. Every later call says `false` and
    /// changes nothing.
    pub fn close(&mut self) -> (first: bool)
        ensures
            first == old(self)@.on_close(),
            final(self)@ == old(self)@.after_close(),
            final(self).wf() == old(self).wf(),
    {
        if self.is_closed {
            return false;
        }
        self.is_closed = true;
        true
    }

    /// The pause is over, or the driver has just started: a poll begins. If
    /// the identity is due for a refresh, that comes first; otherwise the tick
    /// is counted and the list is asked for.
    pub fn woke(&mut self) -> (action: Action)
        requires
            old(self)@.ticks < u32::MAX,
        ensures
            final(self)@ == old(self)@.after_woke(),
            action == old(self)@.on_woke(),
            final(self).wf() == old(self).wf(),
    {
        if self.is_closed || self.phase == Phase::Ended {
            return Action::Finish;
        }
        if self.phase != Phase::Waiting {
            return Action::Nothing;
        }
        if self.refresh_due() {
            self.phase = Phase::Refreshing;
            Action::RefreshCredentials
        } else {
            self.ticks = self.ticks + 1;
            self.phase = Phase::Listing;
            Action::ListSupplies { status_id: NOT_PLANNED }
        }
    }

    /// The attempt to derive a new identity is over. A new identity takes the
    /// place of the old one and the tick count starts again; after a failure
    /// both stay as they are, so that the next poll tries again. Either way
    /// the poll goes on: the tick is counted and the list is asked for.
    pub fn refreshed(&mut self, outcome: Option<Client>) -> (action: Action)
        requires
            old(self)@.ticks < u32::MAX,
        ensures
            final(self)@ == old(self)@.after_refreshed(outcome),
            action == old(self)@.on_refreshed(),
            final(self).wf() == old(self).wf(),
    {
        if self.is_closed || self.phase == Phase::Ended {
            return Action::Finish;
        }
        if self.phase != Phase::Refreshing {
            return Action::Nothing;
        }
        match outcome {
            Some(client) => {
                self.client = client;
                self.ticks = 0;
            },
            None => {},
        }
        self.ticks = self.ticks + 1;
        self.phase = Phase::Listing;
        Action::ListSupplies { status_id: NOT_PLANNED }
    }

    /// The list request is over. After a failure, or with an empty list, the
    /// poll is given up and the engine pauses; the ledger stays as it is.
    /// Otherwise the supplies are kept and their costs are asked for.
    pub fn listed(&mut self, answer: Option<ListSuppliesResponse>) -> (action: Action)
        ensures
            final(self)@ == old(self)@.after_listed(answer),
            action == old(self)@.on_listed(answer),
            final(self).wf() == old(self).wf(),
    {
        if self.is_closed || self.phase == Phase::Ended {
            return Action::Finish;
        }
        if self.phase != Phase::Listing {
            return Action::Nothing;
        }
        match answer {
            Some(list) => {
                if list.result.data.len() > 0 {
                    self.pending = list.result.data;
                    self.phase = Phase::Costing;
                    return Action::FetchCosts { days: self.schedule.days };
                }
            },
            None => {},
        }
        self.pending = Vec::new();
        self.phase = Phase::Waiting;
        Action::Sleep { millis: self.schedule.update_interval_millis }
    }

    /// The cost lookups are over: `answers[i]` is what the lookup for the
    /// pending supply `i` brought, `None` where it failed or was not made.
    ///
    /// If no pending supply has an id there is nothing to compare: the poll is
    /// given up and the ledger stays as it is. Otherwise the ledger is brought
    /// up to the poll, so that it knows exactly the listed supplies, and the
    /// channel gets the message to publish: the updates if anything became
    /// available, and word that nothing changed if not.
    pub fn costed(&mut self, answers: Vec<Option<AcceptanceCostsResponse>>) -> (action: Action)
        requires
            old(self).wf(),
        ensures
            final(self).wf(),
            !old(self)@.awaits(Phase::Costing) ==> final(self)@ == old(self)@ && action == idle_action(
                old(self)@,
            ),
            old(self)@.awaits(Phase::Costing) && supplies_by_id(old(self)@.pending).dom().is_empty() ==> {
                &&& final(self)@ == old(self)@.resting()
                &&& action == pause(old(self)@)
            },
            old(self)@.awaits(Phase::Costing) && !supplies_by_id(old(self)@.pending).dom().is_empty() ==> {
                let listed = supplies_by_id(old(self)@.pending);
                let fetched = costs_by_id(old(self)@.pending, answers@);
                &&& action == Action::Publish
                &&& final(self)@ == (EngineState {
                    ledger: next_ledger(old(self)@.ledger, listed.dom(), fetched),
                    channel: final(self)@.channel,
                    phase: Phase::Publishing,
                    pending: Seq::empty(),
                    ..old(self)@
                })
                &&& final(self)@.ledger.dom() == listed.dom()
                &&& match final(self)@.channel {
                    Ok(Some(updates)) => updates.dom().len() > 0 && reports(
                        updates,
                        old(self)@.ledger.restrict(listed.dom()),
                        listed,
                        fetched,
                    ),
                    Ok(None) => reports(
                        Map::empty(),
                        old(self)@.ledger.restrict(listed.dom()),
                        listed,
                        fetched,
                    ),
                    Err(_) => false,
                }
            },
    {
        if self.is_closed || self.phase == Phase::Ended {
            return Action::Finish;
        }
        if self.phase != Phase::Costing {
            return Action::Nothing;
        }
        let data = Client::acceptance_costs_from_supplies(&self.pending, &answers);
        proof {
            lemma_batch_covers_index(self.pending@, answers@);
        }
        let ghost listed = supplies_by_id(self.pending@);
        let ghost fetched = costs_by_id(self.pending@, answers@);
        if data.is_empty() {
            proof {
                assert(listed.dom() =~= Set::empty());
            }
            self.pending = Vec::new();
            self.phase = Phase::Waiting;
            return Action::Sleep { millis: self.schedule.update_interval_millis };
        }
        proof {
            if listed.dom().is_empty() {
                assert(data@ =~= Map::empty());
            }
        }
        let index = index_supplies(&self.pending);
        let updates = self.acceptance_costs.apply(&index, &data);
        proof {
            assert(self.acceptance_costs@.dom() =~= listed.dom());
        }
        if updates.is_empty() {
            self.channel = Ok(None);
        } else {
            self.channel = Ok(Some(updates));
        }
        self.pending = Vec::new();
        self.phase = Phase::Publishing;
        Action::Publish
    }

    /// The driver has tried to send the message of the channel. If somebody
    /// took it the engine pauses before the next poll. If nobody did, the
    /// channel gets the end-of-stream message and the engine ends for good.
    pub fn published(&mut self, delivered: bool) -> (action: Action)
        ensures
            final(self)@ == old(self)@.after_published(delivered),
            action == old(self)@.on_published(delivered),
            old(self).wf() ==> final(self).wf(),
    {
        if self.is_closed || self.phase == Phase::Ended {
            return Action::Finish;
        }
        if self.phase != Phase::Publishing {
            return Action::Nothing;
        }
        if delivered {
            self.phase = Phase::Waiting;
            Action::Sleep { millis: self.schedule.update_interval_millis }
        } else {
            self.channel = Err(());
            self.phase = Phase::Ended;
            Action::Finish
        }
    }
}

} // verus!
