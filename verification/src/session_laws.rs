//! What holds of every connection to the backend.

use crate::json;
use crate::network;
use crate::network::{
    AuthReply, ConnectReply, Incoming, Network, Outgoing, SessionError, SessionEvent, SessionReply, SessionStage,
};
use vstd::arithmetic::power2::*;
use vstd::prelude::*;
use vstd::string::*;

verus! {

/// The texts that came in, in order.
pub open spec fn texts_received(replies: Seq<SessionReply>) -> Seq<String>
    decreases replies.len(),
{
    if replies.len() == 0 {
        Seq::empty()
    } else {
        let before = texts_received(replies.drop_last());
        match replies.last() {
            SessionReply::Event(SessionEvent::Received(Incoming::Text(text))) => before.push(text),
            _ => before,
        }
    }
}

/// The texts that were handed on as commands, in order.
pub open spec fn texts_dispatched(stages: Seq<SessionStage>) -> Seq<String>
    decreases stages.len(),
{
    if stages.len() == 0 {
        Seq::empty()
    } else {
        let before = texts_dispatched(stages.drop_last());
        match stages.last() {
            SessionStage::Dispatch { command } => before.push(command),
            _ => before,
        }
    }
}

/// The data of the pings that came in, in order.
pub open spec fn pings_received(replies: Seq<SessionReply>) -> Seq<Vec<u8>>
    decreases replies.len(),
{
    if replies.len() == 0 {
        Seq::empty()
    } else {
        let before = pings_received(replies.drop_last());
        match replies.last() {
            SessionReply::Event(SessionEvent::Received(Incoming::Ping(data))) => before.push(data),
            _ => before,
        }
    }
}

/// The data that pings were answered with, in order.
pub open spec fn pings_answered(stages: Seq<SessionStage>) -> Seq<Vec<u8>>
    decreases stages.len(),
{
    if stages.len() == 0 {
        Seq::empty()
    } else {
        let before = pings_answered(stages.drop_last());
        match stages.last() {
            SessionStage::SendPong { data } => before.push(data),
            _ => before,
        }
    }
}

/// The messages the node had to send, in order.
pub open spec fn messages_to_send(replies: Seq<SessionReply>) -> Seq<Outgoing>
    decreases replies.len(),
{
    if replies.len() == 0 {
        Seq::empty()
    } else {
        let before = messages_to_send(replies.drop_last());
        match replies.last() {
            SessionReply::Event(SessionEvent::ToSend(message)) => before.push(message),
            _ => before,
        }
    }
}

/// The messages that were sent, in order.
pub open spec fn messages_sent(stages: Seq<SessionStage>) -> Seq<Outgoing>
    decreases stages.len(),
{
    if stages.len() == 0 {
        Seq::empty()
    } else {
        let before = messages_sent(stages.drop_last());
        match stages.last() {
            SessionStage::Send { message } => before.push(message),
            _ => before,
        }
    }
}

/// Nothing is lost and nothing is made up: every text that comes in while a connection is served is
/// handed on as it came, every ping is answered with its own data, every message the node has to
/// send is sent, each once and in order, and nothing else is.
pub proof fn what_comes_in_is_served(network: Network, stages: Seq<SessionStage>, replies: Seq<SessionReply>)
    requires
        network::is_session(network, stages, replies),
    ensures
        texts_dispatched(stages) == texts_received(replies),
        pings_answered(stages) == pings_received(replies),
        messages_sent(stages) == messages_to_send(replies),
    decreases replies.len(),
{
    reveal_with_fuel(texts_dispatched, 2);
    reveal_with_fuel(pings_answered, 2);
    reveal_with_fuel(messages_sent, 2);
    if replies.len() > 0 {
        let earlier = stages.drop_last();
        let answers = replies.drop_last();
        assert forall|i: int| 0 <= i < answers.len() implies #[trigger] earlier[i].expects(answers[i])
            && earlier[i].leads_to(network, answers[i], earlier[i + 1]) by {
            assert(stages[i].expects(replies[i]));
        }
        what_comes_in_is_served(network, earlier, answers);
        let last = replies.len() - 1;
        assert(stages[last].expects(replies[last]));
        assert(stages.last() == stages[last + 1]);
    } else {
        assert(stages.drop_last() =~= Seq::<SessionStage>::empty());
    }
}

/// A connection that is served goes on: it waits for the next event after whatever it has done, and
/// it ends only when the backend closes it, when it fails, or when nothing more can come.
pub proof fn served_connection_goes_on(
    network: Network,
    stages: Seq<SessionStage>,
    replies: Seq<SessionReply>,
    i: int,
)
    requires
        network::is_session(network, stages, replies),
        0 <= i < replies.len(),
        stages[i] is AwaitEvent || stages[i] is Dispatch || stages[i] is SendPong || stages[i] is Send,
    ensures
        match replies[i] {
            SessionReply::Event(SessionEvent::Received(Incoming::Close)) => {
                stages[i + 1] matches SessionStage::Finished(Ok(_))
            },
            SessionReply::Event(SessionEvent::Ended) => stages[i + 1] matches SessionStage::Finished(Ok(_)),
            SessionReply::Event(SessionEvent::ReceiveFailed { reason }) => stages[i + 1] == SessionStage::Finished(
                Err(SessionError::Receive { reason }),
            ),
            SessionReply::Event(SessionEvent::Received(Incoming::Other)) => stages[i + 1] is AwaitEvent,
            SessionReply::Event(_) => !(stages[i + 1] is Finished) && !(stages[i + 1] is AwaitEvent),
            SessionReply::Sent(Err(reason)) => stages[i + 1] == SessionStage::Finished(
                Err(SessionError::Send { reason }),
            ),
            _ => stages[i + 1] is AwaitEvent,
        },
{
    assert(stages[i].expects(replies[i]));
}

/// The node is let in exactly when the answer to its authentication is JSON whose member `type` is
/// `AUTH_SUCCESS`; only then is the connection served, and it is served at once.
pub proof fn node_is_let_in_by_success_alone(
    network: Network,
    stages: Seq<SessionStage>,
    replies: Seq<SessionReply>,
    i: int,
    answer: AuthReply,
)
    requires
        network::is_session(network, stages, replies),
        0 <= i < replies.len(),
        replies[i] == SessionReply::Auth(answer),
    ensures
        stages[i] is AwaitAuth,
        stages[i + 1] is AwaitEvent <==> (answer matches AuthReply::Text(t) && json::parsed_members(t@) matches Some(
            members,
        ) && members.contains_key("type"@) && members["type"@] == "AUTH_SUCCESS"@),
        !(stages[i + 1] is AwaitEvent) ==> stages[i + 1] matches SessionStage::Finished(Err(_)),
        match answer {
            AuthReply::Text(t) => match json::parsed_members(t@) {
                None => stages[i + 1] matches SessionStage::Finished(Err(SessionError::AuthNotJson)),
                Some(members) => if members.contains_key("type"@) && members["type"@] == "AUTH_FAILED"@ {
                    &&& stages[i + 1] matches SessionStage::Finished(Err(SessionError::AuthFailed { reason }))
                    &&& members.contains_key("reason"@) ==> reason@ == members["reason"@]
                    &&& !members.contains_key("reason"@) ==> reason@ == "Unknown reason"@
                } else {
                    stages[i + 1] is AwaitEvent || (stages[i + 1] matches SessionStage::Finished(
                        Err(SessionError::AuthUnexpected { reply }),
                    ) && reply@ == t@)
                },
            },
            AuthReply::Other { shown } => stages[i + 1] == SessionStage::Finished(
                Err(SessionError::AuthOtherMessage { shown }),
            ),
            AuthReply::Closed => stages[i + 1] matches SessionStage::Finished(Err(SessionError::AuthClosed)),
            AuthReply::TimedOut => stages[i + 1] matches SessionStage::Finished(Err(SessionError::AuthTimedOut)),
        },
{
    assert(stages[i].expects(replies[i]));
    reveal_strlit("AUTH_SUCCESS");
    reveal_strlit("AUTH_FAILED");
    assert("AUTH_SUCCESS"@.len() != "AUTH_FAILED"@.len());
}

/// The first thing a connection does when it is made is to authenticate the node with its own
/// identifier and token, and it waits for the answer before anything else.
pub proof fn node_authenticates_first(network: Network, stages: Seq<SessionStage>, replies: Seq<SessionReply>)
    requires
        network::is_session(network, stages, replies),
        replies.len() > 0,
        replies[0] == SessionReply::Connect(ConnectReply::Connected),
    ensures
        stages[1] matches SessionStage::SendAuth { request } && request@ == json::object_text(
            seq![("type"@, "AUTH"@), ("node_id"@, network.node_id@), ("token"@, network.auth_token@)],
        ),
        replies.len() > 1 && (replies[1] matches SessionReply::Sent(Ok(_))) ==> stages[2] is AwaitAuth,
{
    assert(stages[0].expects(replies[0]));
    if replies.len() > 1 {
        assert(stages[1].expects(replies[1]));
    }
}

/// A connection that is not made, or whose authentication is not sent, ends with that failure; and it
/// is made encrypted exactly when its address begins with `wss://`.
pub proof fn failed_connection_is_told(network: Network, stages: Seq<SessionStage>, replies: Seq<SessionReply>)
    requires
        network::is_session(network, stages, replies),
    ensures
        stages[0] matches SessionStage::Connect { encrypted } && encrypted == (network.ws_url@.len() >= 6
            && network.ws_url@.take(6) == "wss://"@),
        replies.len() > 0 && replies[0] == SessionReply::Connect(ConnectReply::Failed) ==> stages[1]
            == SessionStage::Finished(Err(SessionError::Connect { ws_url: network.ws_url })),
        replies.len() > 0 && replies[0] == SessionReply::Connect(ConnectReply::NoTls) ==> stages[1]
            == SessionStage::Finished(Err(SessionError::NoTls)),
        replies.len() > 1 && (replies[1] matches SessionReply::Sent(Err(_))) ==> stages[2] == SessionStage::Finished(
            Err(SessionError::SendAuth),
        ),
{
    reveal_strlit("wss://");
    if network.ws_url@.len() >= 6 {
        assert(network.ws_url@.take(6) =~= network.ws_url@.subrange(0, 6));
    }
    if replies.len() > 0 {
        assert(stages[0].expects(replies[0]));
    }
    if replies.len() > 1 {
        assert(stages[1].expects(replies[1]));
    }
}

/// The delay before a new attempt is one second after a connection that ended well and after the
/// first failure, and doubles with every further failure until it would pass one minute.
pub proof fn delay_doubles_up_to_a_minute(failures: nat)
    ensures
        network::retry_delay(0) == 1000,
        network::retry_delay(1) == 1000,
        failures >= 1 ==> network::retry_delay(failures + 1) == if 2 * network::retry_delay(failures) <= 60000 {
            2 * network::retry_delay(failures)
        } else {
            60000
        },
{
    lemma2_to64();
    if failures >= 1 {
        lemma_pow2_unfold(failures);
    }
}

/// A failure is one more in the row, and a connection that ended well begins a new row.
pub proof fn failures_are_counted_in_a_row(failures: u64)
    ensures
        network::failures_after(failures, false) == failures + 1,
        network::failures_after(failures, true) == 0,
{
}

/// The address a node connects to is the one it was given, with the encrypted scheme in front where
/// it had none.
pub proof fn address_is_kept(url: Seq<char>)
    ensures
        url.len() >= 6 && url.take(6) == "wss://"@ ==> network::with_scheme(url) == url,
        url.len() >= 5 && url.take(5) == "ws://"@ ==> network::with_scheme(url) == url,
        !(url.len() >= 6 && url.take(6) == "wss://"@) && !(url.len() >= 5 && url.take(5) == "ws://"@)
            ==> network::with_scheme(url) == "wss://"@ + url,
{
    reveal_strlit("wss://");
    reveal_strlit("ws://");
    if url.len() >= 6 {
        assert(url.take(6) =~= url.subrange(0, 6));
    }
    if url.len() >= 5 {
        assert(url.take(5) =~= url.subrange(0, 5));
    }
}

} // verus!
