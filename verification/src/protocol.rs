use vstd::prelude::*;

use crate::model::{command_matches, initial_echo_prompt, update_spec, Command, ModelView, Msg};
use crate::service::echo_answer;

verus! {

/// What is echoed comes back: on a connected page, after the text is set to
/// `v`, an echo request carries exactly `v`; when the server's answer to that
/// request comes back as an `UpdateEchoResult`, the page shows `v` as the
/// echo result, and the text to echo is still `v`.
pub proof fn law_echo_round_trip(m: ModelView, v: String, c: Command, reply: String)
    requires
        m.connected,
        command_matches(update_spec(m, Msg::UpdateEcho(v)), Msg::Echo, c),
        c matches Command::Echo(t) && reply@ == echo_answer(t@),
    ensures
        c matches Command::Echo(t) && t@ == v@,
        update_spec(
            update_spec(update_spec(m, Msg::UpdateEcho(v)), Msg::Echo),
            Msg::UpdateEchoResult(reply),
        ).echo_result == v@,
        update_spec(
            update_spec(update_spec(m, Msg::UpdateEcho(v)), Msg::Echo),
            Msg::UpdateEchoResult(reply),
        ).echo_value == v@,
{
}

/// Nothing reaches the server before the connection is up: on a page that is
/// not connected, every message but `Connect` starts no request.
pub proof fn law_no_request_before_connected(m: ModelView, msg: Msg, c: Command)
    requires
        !m.connected,
        !(msg is Connect),
        command_matches(m, msg, c),
    ensures
        c is Nothing,
{
}

/// Once connected, a page stays connected whatever message comes next.
pub proof fn law_connected_is_kept(m: ModelView, msg: Msg)
    requires
        m.connected,
    ensures
        update_spec(m, msg).connected,
{
}

/// After the connection comes up, a ping reaches the server.
pub proof fn law_ping_after_connected(m: ModelView, c: Command)
    requires
        command_matches(update_spec(m, Msg::Connected), Msg::Ping, c),
    ensures
        c is Ping,
{
}

/// The page after a run of messages.
pub open spec fn update_all(m: ModelView, msgs: Seq<Msg>) -> ModelView
    decreases msgs.len(),
{
    if msgs.len() == 0 {
        m
    } else {
        update_spec(update_all(m, msgs.drop_last()), msgs.last())
    }
}

/// How many `AddOne` messages a run holds.
pub open spec fn count_add_one(msgs: Seq<Msg>) -> nat
    decreases msgs.len(),
{
    if msgs.len() == 0 {
        0
    } else {
        count_add_one(msgs.drop_last()) + if msgs.last() is AddOne {
            1nat
        } else {
            0nat
        }
    }
}

/// Whether a run holds a `Connected` message.
pub open spec fn has_connected(msgs: Seq<Msg>) -> bool {
    exists|i: int| 0 <= i < msgs.len() && #[trigger] msgs[i] is Connected
}

/// Over any run of messages the counter grows by exactly the number of
/// `AddOne` messages, and the page is connected exactly when it was before
/// or the run holds a `Connected` message.
pub proof fn law_counter_counts(m: ModelView, msgs: Seq<Msg>)
    ensures
        update_all(m, msgs).value == m.value + count_add_one(msgs),
        update_all(m, msgs).connected == (m.connected || has_connected(msgs)),
    decreases msgs.len(),
{
    if msgs.len() != 0 {
        let p = msgs.drop_last();
        law_counter_counts(m, p);
        if has_connected(p) {
            let i = choose|i: int| 0 <= i < p.len() && #[trigger] p[i] is Connected;
            assert(msgs[i] is Connected);
        }
        if has_connected(msgs) && !(msgs.last() is Connected) {
            let i = choose|i: int| 0 <= i < msgs.len() && #[trigger] msgs[i] is Connected;
            assert(p[i] is Connected);
        }
        if msgs.last() is Connected {
            assert(msgs[msgs.len() - 1] is Connected);
        }
    }
}

/// On a page just made, the counter shows the number of `AddOne` messages
/// received, and the page is connected exactly when a `Connected` message
/// came.
pub proof fn law_fresh_page_counts(msgs: Seq<Msg>)
    ensures
        ({
            let m0 = ModelView {
                value: 0,
                echo_value: Seq::empty(),
                echo_result: initial_echo_prompt(),
                connected: false,
            };
            &&& update_all(m0, msgs).value == count_add_one(msgs)
            &&& update_all(m0, msgs).connected == has_connected(msgs)
        }),
{
    let m0 = ModelView {
        value: 0,
        echo_value: Seq::empty(),
        echo_result: initial_echo_prompt(),
        connected: false,
    };
    law_counter_counts(m0, msgs);
}


/// Each message changes only what it names, whether or not the page is
/// connected: `UpdateEcho` sets the text to echo, `UpdateEchoResult` the echo
/// result, `AddOne` adds one to the counter, `Connected` marks the page
/// connected, and `Connect`, `Ping`, `Echo` and `Redraw` leave the page as
/// it is.
pub proof fn law_update_changes_only_its_field(m: ModelView, v: String, r: String)
    ensures
        update_spec(m, Msg::UpdateEcho(v)).echo_value == v@,
        update_spec(m, Msg::UpdateEcho(v)).echo_result == m.echo_result,
        update_spec(m, Msg::UpdateEcho(v)).value == m.value,
        update_spec(m, Msg::UpdateEcho(v)).connected == m.connected,
        update_spec(m, Msg::UpdateEchoResult(r)).echo_result == r@,
        update_spec(m, Msg::UpdateEchoResult(r)).echo_value == m.echo_value,
        update_spec(m, Msg::UpdateEchoResult(r)).value == m.value,
        update_spec(m, Msg::UpdateEchoResult(r)).connected == m.connected,
        update_spec(m, Msg::AddOne).value == m.value + 1,
        update_spec(m, Msg::AddOne).echo_value == m.echo_value,
        update_spec(m, Msg::AddOne).echo_result == m.echo_result,
        update_spec(m, Msg::AddOne).connected == m.connected,
        update_spec(m, Msg::Connected).connected,
        update_spec(m, Msg::Connected).value == m.value,
        update_spec(m, Msg::Connected).echo_value == m.echo_value,
        update_spec(m, Msg::Connected).echo_result == m.echo_result,
        update_spec(m, Msg::Connect) == m,
        update_spec(m, Msg::Ping) == m,
        update_spec(m, Msg::Echo) == m,
        update_spec(m, Msg::Redraw) == m,
{
}

/// Text typed before the connection comes up is kept: on any page, after
/// the text is set to `v` and the connection comes up, an echo request
/// carries exactly `v`.
pub proof fn law_text_typed_before_connecting(m: ModelView, v: String, c: Command)
    requires
        command_matches(
            update_spec(update_spec(m, Msg::UpdateEcho(v)), Msg::Connected),
            Msg::Echo,
            c,
        ),
    ensures
        c matches Command::Echo(t) && t@ == v@,
{
}

} // verus!
