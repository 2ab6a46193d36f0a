use vstd::prelude::*;

use crate::catalog::{CatalogError, LambdaUser, LambdaUserList};
use crate::embed::{embed_of, lookup_key_of, EnrichError, PlayerEmbedData, Profile};
use crate::text::text_equals;

verus! {

/// The exact text of the command that starts a run.
pub open spec fn trigger_text() -> Seq<char> {
    seq!['!', 't', 'e', 's', 't']
}

/// Whether an inbound message is the trigger command: exact and case-sensitive.
pub fn is_trigger(text: &str) -> (r: bool)
    ensures
        r == (text@ == trigger_text()),
{
    let command = "!test";
    proof {
        reveal_strlit("!test");
    }
    assert(command@ =~= trigger_text());
    text_equals(text, command)
}

/// Why a run stopped early; reported back to the channel as one reply.
#[derive(Clone, Debug, PartialEq, Eq)]
pub enum RunError {
    Catalog(CatalogError),
    Enrich(EnrichError),
}

/// Where a run stands.
#[derive(Clone, Debug, PartialEq, Eq)]
pub enum Phase {
    /// Waiting for the trigger command.
    Idle,
    /// The catalog has been asked for.
    Fetching,
    /// The profile of this record's player has been asked for.
    LookingUp(LambdaUser),
    /// A reply has been handed out for sending.
    Replying,
    /// Nothing more will be asked for.
    Finished,
}

/// What the outside world reports to a run.
#[derive(Clone, Debug, PartialEq, Eq)]
pub enum Event {
    /// A chat message arrived with this text.
    Message(String),
    /// The catalog was fetched and decoded.
    CatalogFetched(LambdaUserList),
    /// The catalog could not be had.
    CatalogFailed(CatalogError),
    /// The profile service answered.
    ProfileFound(Profile),
    /// The profile service failed.
    ProfileFailed,
    /// The last reply was delivered.
    ReplySent,
    /// The last reply could not be delivered.
    ReplyFailed,
}

/// What a run asks the outside world to do next.
#[derive(Clone, Debug, PartialEq, Eq)]
pub enum Action {
    /// Nothing: wait for the next event, or stop.
    Nothing,
    /// Fetch the catalog.
    FetchCatalog,
    /// Look up the profile of the player with this id.
    LookupProfile(String),
    /// Post one reply showing this player.
    SendEmbed(PlayerEmbedData),
    /// Post one reply reporting this failure.
    SendError(RunError),
}

/// The state of a run: its phase, and the records not yet started, in
/// catalog order.
pub struct Pipeline {
    phase: Phase,
    queue: Vec<LambdaUser>,
}

impl View for Pipeline {
    type V = (Phase, Seq<LambdaUser>);

    closed spec fn view(&self) -> (Phase, Seq<LambdaUser>) {
        (self.phase, self.queue@)
    }
}

/// Starting the next record of `queue`: its player is looked up, or, when it
/// lists no cape, the run stops with an error before any lookup; with no
/// record left the run is finished.
pub open spec fn begin_spec(queue: Seq<LambdaUser>) -> ((Phase, Seq<LambdaUser>), Action) {
    if queue.len() == 0 {
        ((Phase::Finished, queue), Action::Nothing)
    } else {
        match lookup_key_of(queue[0]) {
            Err(e) => ((Phase::Finished, queue.drop_first()), Action::SendError(RunError::Enrich(e))),
            Ok(key) => ((Phase::LookingUp(queue[0]), queue.drop_first()), Action::LookupProfile(key)),
        }
    }
}

/// One step of a run: the next state and the action, from the state and the
/// event. An event that the phase does not expect changes nothing.
pub open spec fn step_spec(s: (Phase, Seq<LambdaUser>), e: Event) -> ((Phase, Seq<LambdaUser>), Action) {
    let unchanged = (s, Action::Nothing);
    match s.0 {
        Phase::Idle => match e {
            Event::Message(text) => if text@ == trigger_text() {
                ((Phase::Fetching, Seq::empty()), Action::FetchCatalog)
            } else {
                unchanged
            },
            _ => unchanged,
        },
        Phase::Fetching => match e {
            Event::CatalogFetched(list) => begin_spec(list@),
            Event::CatalogFailed(err) => ((Phase::Finished, s.1), Action::SendError(RunError::Catalog(err))),
            _ => unchanged,
        },
        Phase::LookingUp(u) => match e {
            Event::ProfileFound(p) => match embed_of(u, p) {
                Ok(d) => ((Phase::Replying, s.1), Action::SendEmbed(d)),
                Err(err) => ((Phase::Finished, s.1), Action::SendError(RunError::Enrich(err))),
            },
            Event::ProfileFailed => (
                (Phase::Finished, s.1),
                Action::SendError(RunError::Enrich(EnrichError::LookupFailed)),
            ),
            _ => unchanged,
        },
        Phase::Replying => match e {
            Event::ReplySent => begin_spec(s.1),
            Event::ReplyFailed => begin_spec(s.1),
            _ => unchanged,
        },
        Phase::Finished => unchanged,
    }
}

/// The actions of a run that takes `events` in order, starting from state `s`.
pub open spec fn run_actions(s: (Phase, Seq<LambdaUser>), events: Seq<Event>) -> Seq<Action>
    decreases events.len(),
{
    if events.len() == 0 {
        Seq::empty()
    } else {
        let (next, a) = step_spec(s, events[0]);
        seq![a] + run_actions(next, events.drop_first())
    }
}

/// The replies among `actions`, in order: the actions that post a message.
pub open spec fn replies(actions: Seq<Action>) -> Seq<Action>
    decreases actions.len(),
{
    if actions.len() == 0 {
        Seq::empty()
    } else {
        let rest = replies(actions.drop_first());
        match actions[0] {
            Action::SendEmbed(_) => seq![actions[0]] + rest,
            Action::SendError(_) => seq![actions[0]] + rest,
            _ => rest,
        }
    }
}

/// The reply owed to record `u` once its player's profile `p` is known.
pub open spec fn reply_for(u: LambdaUser, p: Profile) -> Action {
    match embed_of(u, p) {
        Ok(d) => Action::SendEmbed(d),
        Err(e) => Action::SendError(RunError::Enrich(e)),
    }
}

/// The events of a run past its catalog in which the i-th lookup answers with
/// `profiles[i]` and the i-th reply is delivered when `delivered[i]` holds.
pub open spec fn lookup_and_send_events(profiles: Seq<Profile>, delivered: Seq<bool>) -> Seq<Event>
    decreases profiles.len(),
{
    if profiles.len() == 0 || delivered.len() == 0 {
        Seq::empty()
    } else {
        seq![
            Event::ProfileFound(profiles[0]),
            if delivered[0] { Event::ReplySent } else { Event::ReplyFailed },
        ] + lookup_and_send_events(profiles.drop_first(), delivered.drop_first())
    }
}

/// Law: a chat message other than the trigger command leaves a run as it is
/// and asks for nothing, whatever the phase: no fetch, no lookup, no reply.
pub proof fn lemma_other_text_asks_nothing(s: (Phase, Seq<LambdaUser>), text: String)
    requires
        text@ != trigger_text(),
    ensures
        step_spec(s, Event::Message(text)) == (s, Action::Nothing),
{
}

/// Law: a record that lists no cape stops the run with `EmptyCapes` before
/// any profile lookup is asked for.
pub proof fn lemma_empty_capes_rejected_before_lookup(queue: Seq<LambdaUser>)
    requires
        queue.len() > 0,
        queue[0].capes@.len() == 0,
    ensures
        begin_spec(queue) == (
            (Phase::Finished, queue.drop_first()),
            Action::SendError(RunError::Enrich(EnrichError::EmptyCapes)),
        ),
{
}

/// Law: a reply that could not be delivered moves the run on exactly as a
/// delivered one does: the next record is still started.
pub proof fn lemma_failed_delivery_moves_on(queue: Seq<LambdaUser>)
    ensures
        step_spec((Phase::Replying, queue), Event::ReplyFailed) == step_spec(
            (Phase::Replying, queue),
            Event::ReplySent,
        ),
        step_spec((Phase::Replying, queue), Event::ReplyFailed) == begin_spec(queue),
{
}

proof fn lemma_replies_prepend(a: Action, rest: Seq<Action>)
    ensures
        replies(seq![a] + rest) == match a {
            Action::SendEmbed(_) => seq![a] + replies(rest),
            Action::SendError(_) => seq![a] + replies(rest),
            _ => replies(rest),
        },
{
    assert((seq![a] + rest).drop_first() =~= rest);
}

proof fn lemma_run_prepend(s: (Phase, Seq<LambdaUser>), e: Event, rest: Seq<Event>)
    ensures
        run_actions(s, seq![e] + rest) == seq![step_spec(s, e).1] + run_actions(step_spec(s, e).0, rest),
{
    assert((seq![e] + rest).drop_first() =~= rest);
}

proof fn lemma_replies_from_queue(queue: Seq<LambdaUser>, profiles: Seq<Profile>, delivered: Seq<bool>)
    requires
        queue.len() == profiles.len(),
        queue.len() == delivered.len(),
        forall|i: int| 0 <= i < queue.len() ==> (#[trigger] queue[i]).capes@.len() > 0,
        forall|i: int| 0 <= i < profiles.len() ==> (#[trigger] profiles[i]).skin_url is Some,
    ensures
        ({
            let rs = replies(
                seq![begin_spec(queue).1] + run_actions(
                    begin_spec(queue).0,
                    lookup_and_send_events(profiles, delivered),
                ),
            );
            &&& rs.len() == queue.len()
            &&& forall|i: int| 0 <= i < rs.len() ==> rs[i] == reply_for(queue[i], profiles[i])
        }),
    decreases queue.len(),
{
    let events = lookup_and_send_events(profiles, delivered);
    if queue.len() == 0 {
        lemma_replies_prepend(Action::Nothing, Seq::empty());
        assert(replies(Seq::<Action>::empty()) =~= Seq::<Action>::empty());
    } else {
        let rest = queue.drop_first();
        let p_rest = profiles.drop_first();
        let d_rest = delivered.drop_first();
        let tail = lookup_and_send_events(p_rest, d_rest);
        let sent = if delivered[0] { Event::ReplySent } else { Event::ReplyFailed };
        assert(events =~= seq![Event::ProfileFound(profiles[0])] + (seq![sent] + tail));
        assert(queue[0].capes@.len() > 0);
        assert(profiles[0].skin_url is Some);
        let key = queue[0].capes@[0].player_uuid;
        let looking = (Phase::LookingUp(queue[0]), rest);
        assert(begin_spec(queue) == (looking, Action::LookupProfile(key)));
        let d = embed_of(queue[0], profiles[0])->Ok_0;
        lemma_run_prepend(looking, Event::ProfileFound(profiles[0]), seq![sent] + tail);
        lemma_run_prepend((Phase::Replying, rest), sent, tail);
        let later = seq![begin_spec(rest).1] + run_actions(begin_spec(rest).0, tail);
        assert(run_actions(looking, events) == seq![Action::SendEmbed(d)] + later);
        lemma_replies_prepend(Action::LookupProfile(key), seq![Action::SendEmbed(d)] + later);
        assert(seq![Action::LookupProfile(key)] + (seq![Action::SendEmbed(d)] + later)
            == seq![begin_spec(queue).1] + run_actions(begin_spec(queue).0, events));
        lemma_replies_prepend(Action::SendEmbed(d), later);
        lemma_replies_from_queue(rest, p_rest, d_rest);
        let rs = replies(seq![Action::SendEmbed(d)] + later);
        assert forall|i: int| 0 <= i < rs.len() implies rs[i] == reply_for(queue[i], profiles[i]) by {
            if i > 0 {
                assert(rest[i - 1] == queue[i]);
                assert(p_rest[i - 1] == profiles[i]);
            }
        }
    }
}

/// Law: a run started by the trigger command on a catalog whose records all
/// name a player, with every lookup answered by a profile that has a skin,
/// posts exactly one reply per record, in catalog order, each showing that
/// record's player; this holds whichever of the replies fail to be delivered.
pub proof fn lemma_one_reply_per_record_in_order(
    text: String,
    catalog: LambdaUserList,
    profiles: Seq<Profile>,
    delivered: Seq<bool>,
)
    requires
        text@ == trigger_text(),
        catalog@.len() == profiles.len(),
        catalog@.len() == delivered.len(),
        forall|i: int| 0 <= i < catalog@.len() ==> (#[trigger] catalog@[i]).capes@.len() > 0,
        forall|i: int| 0 <= i < profiles.len() ==> (#[trigger] profiles[i]).skin_url is Some,
    ensures
        ({
            let events = seq![Event::Message(text), Event::CatalogFetched(catalog)]
                + lookup_and_send_events(profiles, delivered);
            let rs = replies(run_actions((Phase::Idle, Seq::empty()), events));
            &&& rs.len() == catalog@.len()
            &&& forall|i: int|
                0 <= i < rs.len() ==> rs[i] == reply_for(catalog@[i], profiles[i])
                    && rs[i] is SendEmbed
        }),
{
    let tail = lookup_and_send_events(profiles, delivered);
    let start = (Phase::Idle, Seq::<LambdaUser>::empty());
    let fetching = (Phase::Fetching, Seq::<LambdaUser>::empty());
    let events = seq![Event::Message(text), Event::CatalogFetched(catalog)] + tail;
    assert(events =~= seq![Event::Message(text)] + (seq![Event::CatalogFetched(catalog)] + tail));
    lemma_run_prepend(start, Event::Message(text), seq![Event::CatalogFetched(catalog)] + tail);
    lemma_run_prepend(fetching, Event::CatalogFetched(catalog), tail);
    let from_catalog = seq![begin_spec(catalog@).1] + run_actions(begin_spec(catalog@).0, tail);
    lemma_replies_prepend(Action::FetchCatalog, from_catalog);
    lemma_replies_from_queue(catalog@, profiles, delivered);
    let rs = replies(run_actions(start, events));
    assert forall|i: int| 0 <= i < rs.len() implies rs[i] is SendEmbed by {
        assert(catalog@[i].capes@.len() > 0);
        assert(profiles[i].skin_url is Some);
    }
}

impl Pipeline {
    /// A run waiting for the trigger command.
    pub fn new() -> (r: Pipeline)
        ensures
            r@ == (Phase::Idle, Seq::<LambdaUser>::empty()),
    {
        Pipeline { phase: Phase::Idle, queue: Vec::new() }
    }

    /// The phase the run is in.
    pub fn phase(&self) -> (r: &Phase)
        ensures
            *r == self@.0,
    {
        &self.phase
    }

    fn begin(&mut self) -> (r: Action)
        ensures
            (final(self)@, r) == begin_spec(old(self)@.1),
    {
        if self.queue.len() == 0 {
            self.phase = Phase::Finished;
            return Action::Nothing;
        }
        let u = self.queue.remove(0);
        assert(self.queue@ =~= old(self)@.1.drop_first());
        match u.lookup_key() {
            Err(e) => {
                self.phase = Phase::Finished;
                Action::SendError(RunError::Enrich(e))
            },
            Ok(key) => {
                self.phase = Phase::LookingUp(u);
                Action::LookupProfile(key)
            },
        }
    }

    /// Takes one event and says what to do next.
    pub fn step(&mut self, event: Event) -> (r: Action)
        ensures
            (final(self)@, r) == step_spec(old(self)@, event),
    {
        let mut phase = Phase::Finished;
        std::mem::swap(&mut phase, &mut self.phase);
        match phase {
            Phase::Idle => match event {
                Event::Message(text) => {
                    if is_trigger(text.as_str()) {
                        self.phase = Phase::Fetching;
                        self.queue = Vec::new();
                        Action::FetchCatalog
                    } else {
                        self.phase = Phase::Idle;
                        Action::Nothing
                    }
                },
                _ => {
                    self.phase = Phase::Idle;
                    Action::Nothing
                },
            },
            Phase::Fetching => match event {
                Event::CatalogFetched(list) => {
                    self.queue = list;
                    self.begin()
                },
                Event::CatalogFailed(err) => {
                    self.phase = Phase::Finished;
                    Action::SendError(RunError::Catalog(err))
                },
                _ => {
                    self.phase = Phase::Fetching;
                    Action::Nothing
                },
            },
            Phase::LookingUp(u) => match event {
                Event::ProfileFound(p) => match PlayerEmbedData::new(u, p) {
                    Ok(d) => {
                        self.phase = Phase::Replying;
                        Action::SendEmbed(d)
                    },
                    Err(err) => {
                        self.phase = Phase::Finished;
                        Action::SendError(RunError::Enrich(err))
                    },
                },
                Event::ProfileFailed => {
                    self.phase = Phase::Finished;
                    Action::SendError(RunError::Enrich(EnrichError::LookupFailed))
                },
                _ => {
                    self.phase = Phase::LookingUp(u);
                    Action::Nothing
                },
            },
            Phase::Replying => match event {
                Event::ReplySent => self.begin(),
                Event::ReplyFailed => self.begin(),
                _ => {
                    self.phase = Phase::Replying;
                    Action::Nothing
                },
            },
            Phase::Finished => Action::Nothing,
        }
    }
}

} // verus!
