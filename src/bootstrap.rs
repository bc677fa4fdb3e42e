use vstd::prelude::*;

verus! {

/// Where the service stands while it starts.
#[derive(PartialEq, Eq, Structural, Clone, Copy, Debug)]
pub enum Phase {
    /// Waiting for the pool of store connections.
    Connecting,
    /// The pool is ready; the schema migrations are to run.
    Migrating,
    /// The migrations have run; requests may be accepted.
    Serving,
    /// Start-up failed; no request is accepted.
    Aborted,
}

/// What start-up learns from outside.
pub enum Event {
    /// Whether the pool of store connections could be had.
    Pool(bool),
    /// The schema migrations succeeded.
    Migrated,
    /// The schema migrations failed, with the error text.
    MigrationFailed(String),
}

/// The phase after `e`. Serving and aborting are final; an event that does
/// not fit the phase aborts start-up.
pub open spec fn next(p: Phase, e: Event) -> Phase {
    match p {
        Phase::Connecting => match e {
            Event::Pool(true) => Phase::Migrating,
            _ => Phase::Aborted,
        },
        Phase::Migrating => match e {
            Event::Migrated => Phase::Serving,
            _ => Phase::Aborted,
        },
        _ => p,
    }
}

/// The phase after the events, from the start.
pub open spec fn run(events: Seq<Event>) -> Phase
    decreases events.len(),
{
    if events.len() == 0 {
        Phase::Connecting
    } else {
        next(run(events.drop_last()), events.last())
    }
}

impl Phase {
    pub fn start() -> (p: Phase)
        ensures
            p == run(Seq::empty()),
    {
        Phase::Connecting
    }

    pub fn step(self, e: Event) -> (p: Phase)
        ensures
            p == next(self, e),
    {
        match self {
            Phase::Connecting => match e {
                Event::Pool(true) => Phase::Migrating,
                _ => Phase::Aborted,
            },
            Phase::Migrating => match e {
                Event::Migrated => Phase::Serving,
                _ => Phase::Aborted,
            },
            _ => self,
        }
    }

    /// Whether requests may be accepted.
    pub fn accepts_traffic(&self) -> (r: bool)
        ensures
            r == (*self == Phase::Serving),
    {
        match self {
            Phase::Serving => true,
            _ => false,
        }
    }
}

/// The service accepts requests only once the pool was ready and, after that,
/// the migrations succeeded.
pub proof fn lemma_serving_follows_migrations(events: Seq<Event>)
    ensures
        run(events) == Phase::Serving ==> exists|i: int, j: int|
            0 <= i < j < events.len() && #[trigger] events[i] == Event::Pool(true)
                && #[trigger] events[j] == Event::Migrated,
    decreases events.len(),
{
    if events.len() > 0 && run(events) == Phase::Serving {
        let prefix = events.drop_last();
        if run(prefix) == Phase::Serving {
            lemma_serving_follows_migrations(prefix);
            let (i, j) = choose|i: int, j: int|
                0 <= i < j < prefix.len() && #[trigger] prefix[i] == Event::Pool(true)
                    && #[trigger] prefix[j] == Event::Migrated;
            assert(events[i] == prefix[i] && events[j] == prefix[j]);
        } else {
            let j = events.len() - 1;
            assert(run(prefix) == Phase::Migrating);
            assert(prefix.len() > 0);
            lemma_migrating_follows_pool(prefix);
            let i = choose|i: int| 0 <= i < prefix.len() && #[trigger] prefix[i] == Event::Pool(true);
            assert(events[i] == prefix[i]);
            assert(events[j] == Event::Migrated);
        }
    }
}

proof fn lemma_migrating_follows_pool(events: Seq<Event>)
    ensures
        run(events) == Phase::Migrating ==> exists|i: int|
            0 <= i < events.len() && #[trigger] events[i] == Event::Pool(true),
    decreases events.len(),
{
    if events.len() > 0 && run(events) == Phase::Migrating {
        let prefix = events.drop_last();
        assert(run(prefix) == Phase::Connecting);
        assert(events[events.len() - 1] == Event::Pool(true));
    }
}

} // verus!
