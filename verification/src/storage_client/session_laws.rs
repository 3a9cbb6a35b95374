//! What holds of every connection of this node to the backend, and of its registration.

use crate::json;
use crate::network::{Incoming, Outgoing, SessionEvent};
use crate::storage_client::network;
use crate::storage_client::network::{AuthReply, Network, SessionError, SessionReply, SessionStage};
use vstd::prelude::*;

verus! {

/// The texts that came in, in order.
pub open spec fn texts_received(replies: Seq<SessionReply>) -> Seq<String>
    decreases replies.len(),
{
    if replies.len() == 0 {
        Seq::empty()
    } else {
        let before = texts_received(replies.drop_last());
        match replies.last() {
            SessionReply::Event(SessionEvent::Received(Incoming::Text(text))) => before.push(text),
            _ => before,
        }
    }
}

/// The texts that were handed on as commands, in order.
pub open spec fn texts_dispatched(stages: Seq<SessionStage>) -> Seq<String>
    decreases stages.len(),
{
    if stages.len() == 0 {
        Seq::empty()
    } else {
        let before = texts_dispatched(stages.drop_last());
        match stages.last() {
            SessionStage::Dispatch { command } => before.push(command),
            _ => before,
        }
    }
}

/// The data of the pings that came in, in order.
pub open spec fn pings_received(replies: Seq<SessionReply>) -> Seq<Vec<u8>>
    decreases replies.len(),
{
    if replies.len() == 0 {
        Seq::empty()
    } else {
        let before = pings_received(replies.drop_last());
        match replies.last() {
            SessionReply::Event(SessionEvent::Received(Incoming::Ping(data))) => before.push(data),
            _ => before,
        }
    }
}

/// The data that pings were answered with, in order.
pub open spec fn pings_answered(stages: Seq<SessionStage>) -> Seq<Vec<u8>>
    decreases stages.len(),
{
    if stages.len() == 0 {
        Seq::empty()
    } else {
        let before = pings_answered(stages.drop_last());
        match stages.last() {
            SessionStage::SendPong { data } => before.push(data),
            _ => before,
        }
    }
}

/// The messages the node had to send, in order.
pub open spec fn messages_to_send(replies: Seq<SessionReply>) -> Seq<Outgoing>
    decreases replies.len(),
{
    if replies.len() == 0 {
        Seq::empty()
    } else {
        let before = messages_to_send(replies.drop_last());
        match replies.last() {
            SessionReply::Event(SessionEvent::ToSend(message)) => before.push(message),
            _ => before,
        }
    }
}

/// The messages that were sent, in order.
pub open spec fn messages_sent(stages: Seq<SessionStage>) -> Seq<Outgoing>
    decreases stages.len(),
{
    if stages.len() == 0 {
        Seq::empty()
    } else {
        let before = messages_sent(stages.drop_last());
        match stages.last() {
            SessionStage::Send { message } => before.push(message),
            _ => before,
        }
    }
}

/// Nothing is lost and nothing is made up: every text that comes in while a connection is served is
/// handed on as it came, every ping is answered with its own data, every message the node has to
/// send is sent, each once and in order, and nothing else is.
pub proof fn what_comes_in_is_served(network: Network, stages: Seq<SessionStage>, replies: Seq<SessionReply>)
    requires
        network::is_session(network, stages, replies),
    ensures
        texts_dispatched(stages) == texts_received(replies),
        pings_answered(stages) == pings_received(replies),
        messages_sent(stages) == messages_to_send(replies),
    decreases replies.len(),
{
    reveal_with_fuel(texts_dispatched, 2);
    reveal_with_fuel(pings_answered, 2);
    reveal_with_fuel(messages_sent, 2);
    if replies.len() > 0 {
        let earlier = stages.drop_last();
        let answers = replies.drop_last();
        assert forall|i: int| 0 <= i < answers.len() implies #[trigger] earlier[i].expects(answers[i])
            && earlier[i].leads_to(network, answers[i], earlier[i + 1]) by {
            assert(stages[i].expects(replies[i]));
        }
        what_comes_in_is_served(network, earlier, answers);
        let last = replies.len() - 1;
        assert(stages[last].expects(replies[last]));
        assert(stages.last() == stages[last + 1]);
    } else {
        assert(stages.drop_last() =~= Seq::<SessionStage>::empty());
    }
}

/// A connection that is served goes on: it waits for the next event after whatever it has done, and
/// it ends only when the backend closes it, when it fails, or when nothing more can come.
pub proof fn served_connection_goes_on(
    network: Network,
    stages: Seq<SessionStage>,
    replies: Seq<SessionReply>,
    i: int,
)
    requires
        network::is_session(network, stages, replies),
        0 <= i < replies.len(),
        stages[i] is AwaitEvent || stages[i] is Dispatch || stages[i] is SendPong || stages[i] is Send,
    ensures
        match replies[i] {
            SessionReply::Event(SessionEvent::Received(Incoming::Close)) => {
                stages[i + 1] matches SessionStage::Finished(Ok(_))
            },
            SessionReply::Event(SessionEvent::Ended) => stages[i + 1] matches SessionStage::Finished(Ok(_)),
            SessionReply::Event(SessionEvent::ReceiveFailed { reason }) => stages[i + 1] == SessionStage::Finished(
                Err(SessionError::Receive { reason }),
            ),
            SessionReply::Event(SessionEvent::Received(Incoming::Other)) => stages[i + 1] is AwaitEvent,
            SessionReply::Event(_) => !(stages[i + 1] is Finished) && !(stages[i + 1] is AwaitEvent),
            SessionReply::Sent(Err(reason)) => stages[i + 1] == SessionStage::Finished(
                Err(SessionError::Send { reason }),
            ),
            _ => stages[i + 1] is AwaitEvent,
        },
{
    assert(stages[i].expects(replies[i]));
}

/// The node is let in exactly when the answer to its authentication is JSON whose member `type` is
/// `AUTH_SUCCESS`; only then is the connection served, and it is served at once.
pub proof fn node_is_let_in_by_success_alone(
    network: Network,
    stages: Seq<SessionStage>,
    replies: Seq<SessionReply>,
    i: int,
    answer: AuthReply,
)
    requires
        network::is_session(network, stages, replies),
        0 <= i < replies.len(),
        replies[i] == SessionReply::Auth(answer),
    ensures
        stages[i] is AwaitAuth,
        stages[i + 1] is AwaitEvent <==> (answer matches AuthReply::Text(t) && json::parsed_members(t@) matches Some(
            members,
        ) && members.contains_key("type"@) && members["type"@] == "AUTH_SUCCESS"@),
        !(stages[i + 1] is AwaitEvent) ==> stages[i + 1] matches SessionStage::Finished(Err(_)),
        match answer {
            AuthReply::Text(t) => match json::parsed_members(t@) {
                None => stages[i + 1] matches SessionStage::Finished(Err(SessionError::AuthNotJson)),
                Some(_) => stages[i + 1] is AwaitEvent || (stages[i + 1] matches SessionStage::Finished(
                    Err(SessionError::AuthFailed { shown }),
                ) && shown@ == json::shown_json(t@)),
            },
            AuthReply::Other { shown } => stages[i + 1] == SessionStage::Finished(
                Err(SessionError::AuthOtherMessage { shown }),
            ),
            AuthReply::Failed => stages[i + 1] matches SessionStage::Finished(Err(SessionError::AuthReceive)),
            AuthReply::Closed => stages[i + 1] matches SessionStage::Finished(Err(SessionError::AuthClosed)),
            AuthReply::TimedOut => stages[i + 1] matches SessionStage::Finished(Err(SessionError::AuthTimedOut)),
        },
{
    assert(stages[i].expects(replies[i]));
}

/// The first thing a connection does when it is made is to authenticate the node with its own
/// identifier and token, and it waits for the answer before anything else.
pub proof fn node_authenticates_first(network: Network, stages: Seq<SessionStage>, replies: Seq<SessionReply>)
    requires
        network::is_session(network, stages, replies),
        replies.len() > 0,
        replies[0] == SessionReply::Connected(true),
    ensures
        stages[1] matches SessionStage::SendAuth { request } && request@ == json::object_text(
            seq![("type"@, "AUTH"@), ("node_id"@, network.node_id@), ("token"@, network.auth_token@)],
        ),
        replies.len() > 1 && (replies[1] matches SessionReply::Sent(Ok(_))) ==> stages[2] is AwaitAuth,
{
    assert(stages[0].expects(replies[0]));
    if replies.len() > 1 {
        assert(stages[1].expects(replies[1]));
    }
}

/// A connection that is not made, or whose authentication is not sent, ends with that failure.
pub proof fn failed_connection_is_told(network: Network, stages: Seq<SessionStage>, replies: Seq<SessionReply>)
    requires
        network::is_session(network, stages, replies),
    ensures
        replies.len() > 0 && replies[0] == SessionReply::Connected(false) ==> stages[1] == SessionStage::Finished(
            Err(SessionError::Connect { backend_ws_url: network.backend_ws_url }),
        ),
        replies.len() > 1 && (replies[1] matches SessionReply::Sent(Err(_))) ==> stages[2] == SessionStage::Finished(
            Err(SessionError::SendAuth),
        ),
{
    if replies.len() > 0 {
        assert(stages[0].expects(replies[0]));
    }
    if replies.len() > 1 {
        assert(stages[1].expects(replies[1]));
    }
}

} // verus!
