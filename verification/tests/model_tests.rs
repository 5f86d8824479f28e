use wsrpc::model::{connect_reply, echo_reply, Command, Model, Msg};
use wsrpc::service::{RPCService, RPCServiceImpl};

#[test]
fn create_gives_initial_page() {
    let m = Model::create();
    assert_eq!(m.value(), 0);
    assert_eq!(m.echo_value(), "");
    assert_eq!(m.echo_result(), "Type string in input and press Echo");
    assert!(!m.connected());
    assert_eq!(m.connected_label(), "False");
}

#[test]
fn add_one_increments() {
    let mut m = Model::create();
    let (render, cmd) = m.update(Msg::AddOne);
    assert!(render);
    assert!(matches!(cmd, Command::Nothing));
    m.update(Msg::AddOne);
    assert_eq!(m.value(), 2);
}

#[test]
fn connect_always_starts() {
    let mut m = Model::create();
    let (render, cmd) = m.update(Msg::Connect);
    assert!(render);
    assert!(matches!(cmd, Command::Connect));
    assert!(!m.connected());
}

#[test]
fn ping_and_echo_need_connection() {
    let mut m = Model::create();
    m.update(Msg::UpdateEcho("hi".to_string()));
    assert!(matches!(m.update(Msg::Ping).1, Command::Nothing));
    assert!(matches!(m.update(Msg::Echo).1, Command::Nothing));
    assert!(matches!(m.update(Msg::Redraw).1, Command::Nothing));
}

#[test]
fn connected_enables_requests() {
    let mut m = Model::create();
    let (render, cmd) = m.update(Msg::Connected);
    assert!(render);
    assert!(matches!(cmd, Command::Nothing));
    assert!(m.connected());
    assert_eq!(m.connected_label(), "True");
    assert!(matches!(m.update(Msg::Ping).1, Command::Ping));
}

#[test]
fn echo_round_trip() {
    let mut m = Model::create();
    m.update(Msg::Connected);
    m.update(Msg::UpdateEcho("hello".to_string()));
    let text = match m.update(Msg::Echo).1 {
        Command::Echo(t) => t,
        _ => panic!("expected an echo request"),
    };
    assert_eq!(text, "hello");
    let answer = RPCServiceImpl {}.echo(text);
    let reply = echo_reply(answer).expect("an echo reply");
    m.update(reply);
    assert_eq!(m.echo_result(), "hello");
    assert_eq!(m.echo_value(), "hello");
}

#[test]
fn echo_error_reply_is_dropped() {
    assert!(echo_reply(Err("down".to_string())).is_none());
}

#[test]
fn update_echo_result_sets_result() {
    let mut m = Model::create();
    m.update(Msg::UpdateEchoResult("abc".to_string()));
    assert_eq!(m.echo_result(), "abc");
}

#[test]
fn direct_helpers() {
    let mut m = Model::create();
    assert!(matches!(m.connect(), Command::Connect));
    assert!(matches!(m.ping(), Command::Nothing));
    assert!(matches!(m.echo("x".to_string()), Command::Nothing));
    m.update(Msg::Connected);
    match m.echo("x".to_string()) {
        Command::Echo(t) => assert_eq!(t, "x"),
        _ => panic!("expected an echo request"),
    }
}

#[test]
fn service_answers() {
    let s = RPCServiceImpl {};
    assert_eq!(s.ping(), Ok("Pong".to_string()));
    assert_eq!(s.echo("value".to_string()), Ok("value".to_string()));
    assert_eq!(s.clone().echo(String::new()), Ok(String::new()));
}

#[test]
fn change_never_redraws() {
    let mut m = Model::create();
    m.update(Msg::AddOne);
    assert!(!m.change());
    assert_eq!(m.value(), 1);
}

#[test]
fn connect_reply_gives_connected_only_on_success() {
    assert!(matches!(connect_reply(true), Some(Msg::Connected)));
    assert!(connect_reply(false).is_none());
}

#[test]
fn counter_counts_add_ones_over_a_run() {
    let mut m = Model::create();
    let run = vec![Msg::AddOne, Msg::Redraw, Msg::AddOne, Msg::Ping, Msg::UpdateEcho("x".to_string()), Msg::AddOne];
    for msg in run {
        m.update(msg);
    }
    assert_eq!(m.value(), 3);
    assert!(!m.connected());
    m.update(Msg::Connected);
    m.update(Msg::Redraw);
    assert!(m.connected());
}
