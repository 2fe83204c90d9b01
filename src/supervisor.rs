use vstd::prelude::*;

use crate::message::JetstreamMessage;
use crate::models::Topic;

verus! {

/// How often, in messages read, throughput is reported.
pub const REPORT_EVERY: u64 = 1000;

/// Where the outer lifecycle stands.
pub enum Phase {
    Connecting,
    LoadingTopics,
    Streaming,
}

/// What the runner observed.
pub enum SupervisorEvent {
    Connected,
    ConnectFailed,
    TopicsFetched(Vec<Topic>),
    TopicsFailed,
    Message(JetstreamMessage),
    ReadFailed,
    StreamEnded,
    Tick,
}

/// What the runner does next.
pub enum SupervisorAction {
    /// Construct a transport now.
    Connect,
    /// Sleep this many seconds, then construct a transport.
    RetryAfter(u64),
    /// Fetch a fresh topic snapshot.
    FetchTopics,
    /// Hand the event, with the current snapshot, to a processing task and
    /// keep reading. `report` asks for a throughput log line.
    Dispatch(JetstreamMessage, bool),
    /// Keep reading frames and ticks.
    Continue,
}

/// Owns the connect / stream / reconnect cycle and the topic snapshot.
pub struct Supervisor {
    pub phase: Phase,
    pub reconnect_interval: u64,
    pub topics: Vec<Topic>,
    pub messages: u64,
}

impl Supervisor {
    /// A supervisor about to make its first connection.
    pub fn new(reconnect_interval: u64) -> (r: (Supervisor, SupervisorAction))
        ensures
            r.0.phase is Connecting,
            r.0.reconnect_interval == reconnect_interval,
            r.0.topics@.len() == 0,
            r.0.messages == 0,
            r.1 is Connect,
    {
        (
            Supervisor { phase: Phase::Connecting, reconnect_interval, topics: Vec::new(), messages: 0 },
            SupervisorAction::Connect,
        )
    }

    /// Takes in one observation and says what to do next.
    pub fn on_event(&mut self, event: SupervisorEvent) -> (r: SupervisorAction)
        ensures
            final(self).reconnect_interval == old(self).reconnect_interval,
            match (old(self).phase, event) {
                (Phase::Connecting, SupervisorEvent::Connected) => {
                    &&& final(self).phase is LoadingTopics
                    &&& r is FetchTopics
                    &&& final(self).topics == old(self).topics
                },
                (Phase::Connecting, SupervisorEvent::ConnectFailed) => {
                    &&& final(self).phase is Connecting
                    &&& r == SupervisorAction::RetryAfter(old(self).reconnect_interval)
                    &&& final(self).topics == old(self).topics
                },
                (Phase::LoadingTopics, SupervisorEvent::TopicsFetched(t)) => {
                    &&& final(self).phase is Streaming
                    &&& final(self).topics == t
                    &&& r is Continue
                },
                (Phase::LoadingTopics, SupervisorEvent::TopicsFailed) => {
                    &&& final(self).phase is Streaming
                    &&& final(self).topics == old(self).topics
                    &&& r is Continue
                },
                (Phase::Streaming, SupervisorEvent::Message(m)) => {
                    &&& final(self).phase is Streaming
                    &&& final(self).topics == old(self).topics
                    &&& final(self).messages == (if old(self).messages == u64::MAX {
                        0
                    } else {
                        old(self).messages + 1
                    })
                    &&& r == SupervisorAction::Dispatch(
                        m,
                        final(self).messages % REPORT_EVERY == 0,
                    )
                },
                (Phase::Streaming, SupervisorEvent::Tick) => {
                    &&& final(self).phase is Streaming
                    &&& final(self).topics == old(self).topics
                    &&& r is FetchTopics
                },
                (Phase::Streaming, SupervisorEvent::TopicsFetched(t)) => {
                    &&& final(self).phase is Streaming
                    &&& final(self).topics == t
                    &&& r is Continue
                },
                (Phase::Streaming, SupervisorEvent::TopicsFailed) => {
                    &&& final(self).phase is Streaming
                    &&& final(self).topics == old(self).topics
                    &&& r is Continue
                },
                (Phase::Streaming, SupervisorEvent::ReadFailed) => {
                    &&& final(self).phase is Connecting
                    &&& final(self).topics == old(self).topics
                    &&& r is Connect
                },
                (Phase::Streaming, SupervisorEvent::StreamEnded) => {
                    &&& final(self).phase is Connecting
                    &&& final(self).topics == old(self).topics
                    &&& r is Connect
                },
                _ => {
                    &&& final(self).phase == old(self).phase
                    &&& final(self).topics == old(self).topics
                    &&& r is Continue
                },
            },
    {
        match self.phase {
            Phase::Connecting => match event {
                SupervisorEvent::Connected => {
                    self.phase = Phase::LoadingTopics;
                    SupervisorAction::FetchTopics
                },
                SupervisorEvent::ConnectFailed => SupervisorAction::RetryAfter(
                    self.reconnect_interval,
                ),
                _ => SupervisorAction::Continue,
            },
            Phase::LoadingTopics => match event {
                SupervisorEvent::TopicsFetched(t) => {
                    self.topics = t;
                    self.phase = Phase::Streaming;
                    SupervisorAction::Continue
                },
                SupervisorEvent::TopicsFailed => {
                    self.phase = Phase::Streaming;
                    SupervisorAction::Continue
                },
                _ => SupervisorAction::Continue,
            },
            Phase::Streaming => match event {
                SupervisorEvent::Message(m) => {
                    self.messages = if self.messages == u64::MAX {
                        0
                    } else {
                        self.messages + 1
                    };
                    SupervisorAction::Dispatch(m, self.messages % REPORT_EVERY == 0)
                },
                SupervisorEvent::Tick => SupervisorAction::FetchTopics,
                SupervisorEvent::TopicsFetched(t) => {
                    self.topics = t;
                    SupervisorAction::Continue
                },
                SupervisorEvent::ReadFailed | SupervisorEvent::StreamEnded => {
                    self.phase = Phase::Connecting;
                    SupervisorAction::Connect
                },
                _ => SupervisorAction::Continue,
            },
        }
    }
}

} // verus!
