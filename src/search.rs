//! The guild search as a state machine: it decides, from the answer to each
//! request, what the caller does next (create, delete, wait, stop).
use vstd::prelude::*;
use vstd::utf8::encode_utf8;
use vstd::string::StringSliceAdditionalSpecFns;
use crate::api::{ApiRequest, RequestView, STATUS_CREATED, STATUS_NO_CONTENT, STATUS_UNAUTHORIZED, STATUS_TOO_MANY_REQUESTS};
use crate::bucket::{bucket_for, bucket_spec, accepted, is_accepted, hash_key_fits, key_fits};

verus! {

/// Seconds to wait after a rejected guild was deleted, before the next attempt.
pub const DELAY_SECS: u64 = 60;

/// Why a search stopped without a result.
#[derive(PartialEq, Eq, Structural, Clone, Copy, Debug)]
pub enum Fault {
    /// A request could not be sent or its answer could not be read.
    Transport,
    /// The API refused the bot token.
    Unauthorized,
    /// The API rate-limited the bot.
    RateLimited,
    /// Guild creation was answered with another status.
    UnexpectedStatus { status: u16 },
    /// Guild creation succeeded but its answer held no guild id.
    MalformedResponse,
    /// The label and the guild id together are too long to hash.
    KeyTooLong,
    /// A rejected guild could not be deleted.
    DeleteFailed { status: u16 },
    /// An event came that the current phase does not wait for.
    OutOfOrder,
}

/// Where a search stands.
#[derive(Debug)]
pub enum Phase {
    /// No guild is alive; the next tick creates one.
    Idle,
    /// A create request is out.
    Creating,
    /// The guild was rejected and a delete request for it is out.
    Deleting { guild_id: String },
    /// The guild landed in the target range (terminal).
    Found { guild_id: String },
    /// The search stopped on a fault (terminal).
    Failed { fault: Fault },
}

/// A phase as the contracts see it.
pub enum PhaseView {
    Idle,
    Creating,
    Deleting { guild_id: Seq<char> },
    Found { guild_id: Seq<char> },
    Failed { fault: Fault },
}

impl View for Phase {
    type V = PhaseView;

    open spec fn view(&self) -> PhaseView {
        match self {
            Phase::Idle => PhaseView::Idle,
            Phase::Creating => PhaseView::Creating,
            Phase::Deleting { guild_id } => PhaseView::Deleting { guild_id: guild_id@ },
            Phase::Found { guild_id } => PhaseView::Found { guild_id: guild_id@ },
            Phase::Failed { fault } => PhaseView::Failed { fault: *fault },
        }
    }
}

/// What the caller observed since the last action.
#[derive(Debug)]
pub enum Event {
    /// Start, or the wait after a deletion is over.
    Tick,
    /// The answer to a create request; `guild_id` is the id read from its
    /// body, when there was one.
    CreateAnswered { status: u16, guild_id: Option<String> },
    /// The answer to a delete request.
    DeleteAnswered { status: u16 },
    /// The last request could not be sent or answered.
    TransportFailed,
}

/// An event as the contracts see it.
pub enum EventView {
    Tick,
    CreateAnswered { status: u16, guild_id: Option<Seq<char>> },
    DeleteAnswered { status: u16 },
    TransportFailed,
}

impl View for Event {
    type V = EventView;

    open spec fn view(&self) -> EventView {
        match self {
            Event::Tick => EventView::Tick,
            Event::CreateAnswered { status, guild_id } => EventView::CreateAnswered {
                status: *status,
                guild_id: match guild_id {
                    Some(g) => Some(g@),
                    None => None,
                },
            },
            Event::DeleteAnswered { status } => EventView::DeleteAnswered { status: *status },
            Event::TransportFailed => EventView::TransportFailed,
        }
    }
}

/// What the caller does next.
#[derive(Debug)]
pub enum Action {
    /// Send this request and report its answer.
    Send { request: ApiRequest },
    /// Wait this many seconds, then report a tick.
    Sleep { secs: u64 },
    /// The search is over: this guild is kept and gets an invite.
    Found { guild_id: String },
    /// The search is over without a result.
    Abort { fault: Fault },
}

/// An action as the contracts see it.
pub enum ActionView {
    Send { request: RequestView },
    Sleep { secs: u64 },
    Found { guild_id: Seq<char> },
    Abort { fault: Fault },
}

impl View for Action {
    type V = ActionView;

    open spec fn view(&self) -> ActionView {
        match self {
            Action::Send { request } => ActionView::Send { request: request@ },
            Action::Sleep { secs } => ActionView::Sleep { secs: *secs },
            Action::Found { guild_id } => ActionView::Found { guild_id: guild_id@ },
            Action::Abort { fault } => ActionView::Abort { fault: *fault },
        }
    }
}

/// A search for one experiment label.
#[derive(Debug)]
pub struct Search {
    label: String,
    tries: u64,
    phase: Phase,
}

/// A search as the contracts see it.
pub struct SearchView {
    pub label: Seq<char>,
    pub tries: u64,
    pub phase: PhaseView,
}

impl View for Search {
    type V = SearchView;

    closed spec fn view(&self) -> SearchView {
        SearchView { label: self.label@, tries: self.tries, phase: self.phase@ }
    }
}

/// The attempt counter after one more rejected guild; it stops at its maximum.
pub open spec fn next_tries(t: u64) -> u64 {
    if t < u64::MAX {
        (t + 1) as u64
    } else {
        t
    }
}

/// The bucket of a label and a guild id, given as characters.
pub open spec fn guild_bucket(label: Seq<char>, guild_id: Seq<char>) -> u32 {
    bucket_spec(encode_utf8(label), encode_utf8(guild_id))
}

/// Whether a label and a guild id, given as characters, can be hashed.
pub open spec fn guild_key_fits(label: Seq<char>, guild_id: Seq<char>) -> bool {
    key_fits(encode_utf8(label), encode_utf8(guild_id))
}

/// What follows once a created guild's bucket is known: keep an accepted
/// guild, delete a rejected one.
pub open spec fn after_bucket(s: SearchView, guild_id: Seq<char>, bucket: u32) -> (
    SearchView,
    ActionView,
) {
    if accepted(bucket) {
        (
            SearchView { phase: PhaseView::Found { guild_id }, ..s },
            ActionView::Found { guild_id },
        )
    } else {
        (
            SearchView { tries: next_tries(s.tries), phase: PhaseView::Deleting { guild_id }, ..s },
            ActionView::Send { request: RequestView::DeleteGuild { guild_id } },
        )
    }
}

/// Stop on a fault.
pub open spec fn fail(s: SearchView, fault: Fault) -> (SearchView, ActionView) {
    (SearchView { phase: PhaseView::Failed { fault }, ..s }, ActionView::Abort { fault })
}

/// The fault for a create answer that brought no usable guild.
pub open spec fn create_fault(status: u16) -> Fault {
    if status == STATUS_UNAUTHORIZED {
        Fault::Unauthorized
    } else if status == STATUS_TOO_MANY_REQUESTS {
        Fault::RateLimited
    } else if status == STATUS_CREATED {
        Fault::MalformedResponse
    } else {
        Fault::UnexpectedStatus { status }
    }
}

/// One transition of the search.
pub open spec fn step_spec(s: SearchView, e: EventView) -> (SearchView, ActionView) {
    match s.phase {
        PhaseView::Found { guild_id } => (s, ActionView::Found { guild_id }),
        PhaseView::Failed { fault } => (s, ActionView::Abort { fault }),
        PhaseView::Idle => match e {
            EventView::Tick => (
                SearchView { phase: PhaseView::Creating, ..s },
                ActionView::Send { request: RequestView::CreateGuild { name: s.label } },
            ),
            EventView::TransportFailed => fail(s, Fault::Transport),
            _ => fail(s, Fault::OutOfOrder),
        },
        PhaseView::Creating => match e {
            EventView::CreateAnswered { status, guild_id } => {
                if status == STATUS_CREATED && guild_id is Some {
                    let g = guild_id->Some_0;
                    if guild_key_fits(s.label, g) {
                        after_bucket(s, g, guild_bucket(s.label, g))
                    } else {
                        fail(s, Fault::KeyTooLong)
                    }
                } else {
                    fail(s, create_fault(status))
                }
            },
            EventView::TransportFailed => fail(s, Fault::Transport),
            _ => fail(s, Fault::OutOfOrder),
        },
        PhaseView::Deleting { .. } => match e {
            EventView::DeleteAnswered { status } => {
                if status == STATUS_NO_CONTENT {
                    (SearchView { phase: PhaseView::Idle, ..s }, ActionView::Sleep { secs: DELAY_SECS })
                } else {
                    fail(s, Fault::DeleteFailed { status })
                }
            },
            EventView::TransportFailed => fail(s, Fault::Transport),
            _ => fail(s, Fault::OutOfOrder),
        },
    }
}

impl Search {
    /// A search for `label` that has not started: the first tick creates a guild.
    pub fn new(label: &str) -> (s: Search)
        ensures
            s@ == (SearchView { label: label@, tries: 0, phase: PhaseView::Idle }),
    {
        Search { label: label.to_owned(), tries: 0, phase: Phase::Idle }
    }

    /// The experiment label.
    pub fn label(&self) -> (r: &str)
        ensures
            r@ == self@.label,
    {
        self.label.as_str()
    }

    /// How many guilds were rejected so far.
    pub fn tries(&self) -> (r: u64)
        ensures
            r == self@.tries,
    {
        self.tries
    }

    /// Where the search stands.
    pub fn phase(&self) -> (r: &Phase)
        ensures
            r@ == self@.phase,
    {
        &self.phase
    }

    fn fail(&mut self, fault: Fault) -> (a: Action)
        ensures
            (final(self)@, a@) == fail(old(self)@, fault),
    {
        self.phase = Phase::Failed { fault };
        Action::Abort { fault }
    }

    /// Goes on from a created guild whose bucket is known: an accepted guild is
    /// kept and ends the search, a rejected one is counted and deleted.
    pub fn on_bucket(&mut self, guild_id: String, bucket: u32) -> (a: Action)
        ensures
            (final(self)@, a@) == after_bucket(old(self)@, guild_id@, bucket),
    {
        if is_accepted(bucket) {
            self.phase = Phase::Found { guild_id: guild_id.clone() };
            Action::Found { guild_id }
        } else {
            if self.tries < u64::MAX {
                self.tries = self.tries + 1;
            }
            self.phase = Phase::Deleting { guild_id: guild_id.clone() };
            Action::Send { request: ApiRequest::DeleteGuild { guild_id } }
        }
    }

    /// Takes in what the caller observed and says what to do next.
    pub fn step(&mut self, e: Event) -> (a: Action)
        ensures
            (final(self)@, a@) == step_spec(old(self)@, e@),
            final(self)@.label == old(self)@.label,
            old(self)@.tries <= final(self)@.tries,
    {
        match &self.phase {
            Phase::Found { guild_id } => {
                return Action::Found { guild_id: guild_id.clone() };
            },
            Phase::Failed { fault } => {
                return Action::Abort { fault: *fault };
            },
            Phase::Idle => {
                match e {
                    Event::Tick => {
                        self.phase = Phase::Creating;
                        Action::Send { request: ApiRequest::CreateGuild { name: self.label.clone() } }
                    },
                    Event::TransportFailed => self.fail(Fault::Transport),
                    _ => self.fail(Fault::OutOfOrder),
                }
            },
            Phase::Creating => {
                match e {
                    Event::CreateAnswered { status, guild_id } => {
                        if status == STATUS_CREATED && guild_id.is_some() {
                            let g = guild_id.unwrap();
                            if hash_key_fits(self.label.as_str(), g.as_str()) {
                                let b = bucket_for(self.label.as_str(), g.as_str());
                                self.on_bucket(g, b)
                            } else {
                                self.fail(Fault::KeyTooLong)
                            }
                        } else if status == STATUS_UNAUTHORIZED {
                            self.fail(Fault::Unauthorized)
                        } else if status == STATUS_TOO_MANY_REQUESTS {
                            self.fail(Fault::RateLimited)
                        } else if status == STATUS_CREATED {
                            self.fail(Fault::MalformedResponse)
                        } else {
                            self.fail(Fault::UnexpectedStatus { status })
                        }
                    },
                    Event::TransportFailed => self.fail(Fault::Transport),
                    _ => self.fail(Fault::OutOfOrder),
                }
            },
            Phase::Deleting { .. } => {
                match e {
                    Event::DeleteAnswered { status } => {
                        if status == STATUS_NO_CONTENT {
                            self.phase = Phase::Idle;
                            Action::Sleep { secs: DELAY_SECS }
                        } else {
                            self.fail(Fault::DeleteFailed { status })
                        }
                    },
                    Event::TransportFailed => self.fail(Fault::Transport),
                    _ => self.fail(Fault::OutOfOrder),
                }
            },
        }
    }
}

} // verus!
