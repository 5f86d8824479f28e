use vstd::prelude::*;

verus! {

/// What the user or a finished request tells the page.
pub enum Msg {
    /// Add one to the counter.
    AddOne,
    /// Open the connection to the server.
    Connect,
    /// The connection to the server is up.
    Connected,
    /// Ping the server.
    Ping,
    /// The text to echo was edited.
    UpdateEcho(String),
    /// The server echoed this text back.
    UpdateEchoResult(String),
    /// Ask the server to echo the current text.
    Echo,
    /// Draw the page again.
    Redraw,
}

/// The request that a message asks the page to start.
pub enum Command {
    /// Nothing to start.
    Nothing,
    /// Open the connection to the server.
    Connect,
    /// Send a ping.
    Ping,
    /// Send an echo request with this text.
    Echo(String),
}

/// The abstract state of the page.
pub struct ModelView {
    pub value: int,
    pub echo_value: Seq<char>,
    pub echo_result: Seq<char>,
    pub connected: bool,
}

/// The prompt that the echo result shows before any echo came back.
pub open spec fn initial_echo_prompt() -> Seq<char> {
    "Type string in input and press Echo"@
}

/// Where a message may be given to `update`: adding one must not overflow
/// the counter.
pub open spec fn update_allowed(m: ModelView, msg: Msg) -> bool {
    msg is AddOne ==> m.value < i64::MAX
}

/// The page after a message.
pub open spec fn update_spec(m: ModelView, msg: Msg) -> ModelView {
    match msg {
        Msg::AddOne => ModelView { value: m.value + 1, ..m },
        Msg::UpdateEcho(v) => ModelView { echo_value: v@, ..m },
        Msg::UpdateEchoResult(r) => ModelView { echo_result: r@, ..m },
        Msg::Connected => ModelView { connected: true, ..m },
        _ => m,
    }
}

/// Whether `c` is the request that a message asks for on page `m`:
/// `Connect` always opens the connection; `Ping` pings and `Echo` echoes the
/// current text only while connected; no other message starts anything.
pub open spec fn command_matches(m: ModelView, msg: Msg, c: Command) -> bool {
    match msg {
        Msg::Connect => c is Connect,
        Msg::Ping => if m.connected {
            c is Ping
        } else {
            c is Nothing
        },
        Msg::Echo => if m.connected {
            c matches Command::Echo(v) && v@ == m.echo_value
        } else {
            c is Nothing
        },
        _ => c is Nothing,
    }
}

/// The state of the page: a counter, the text to echo, the last echo that
/// came back and whether the connection is up.
pub struct Model {
    value: i64,
    echo_value: String,
    echo_result: String,
    connected: bool,
}

impl View for Model {
    type V = ModelView;

    closed spec fn view(&self) -> ModelView {
        ModelView {
            value: self.value as int,
            echo_value: self.echo_value@,
            echo_result: self.echo_result@,
            connected: self.connected,
        }
    }
}

impl Model {
    /// A fresh page: counter at 0, nothing to echo, the echo prompt shown,
    /// not connected.
    pub fn create() -> (m: Self)
        ensures
            m@.value == 0,
            m@.echo_value == Seq::<char>::empty(),
            m@.echo_result == initial_echo_prompt(),
            !m@.connected,
    {
        proof {
            reveal_strlit("");
        }
        Model {
            value: 0,
            echo_value: String::from_str(""),
            echo_result: String::from_str("Type string in input and press Echo"),
            connected: false,
        }
    }

    /// The counter.
    pub fn value(&self) -> (v: i64)
        ensures
            v as int == self@.value,
    {
        self.value
    }

    /// The text to echo.
    pub fn echo_value(&self) -> (s: &str)
        ensures
            s@ == self@.echo_value,
    {
        self.echo_value.as_str()
    }

    /// The last echo that came back, or the prompt.
    pub fn echo_result(&self) -> (s: &str)
        ensures
            s@ == self@.echo_result,
    {
        self.echo_result.as_str()
    }

    /// Whether the connection is up.
    pub fn connected(&self) -> (b: bool)
        ensures
            b == self@.connected,
    {
        self.connected
    }

    /// How the page shows the connection: "True" or "False".
    pub fn connected_label(&self) -> (s: &'static str)
        ensures
            s@ == (if self@.connected {
                "True"@
            } else {
                "False"@
            }),
    {
        if self.connected {
            "True"
        } else {
            "False"
        }
    }

    /// New properties never make the page draw again: the page has none.
    pub fn change(&mut self) -> (render: bool)
        ensures
            !render,
            final(self)@ == old(self)@,
    {
        false
    }

    /// Opening the connection is always started.
    pub fn connect(&mut self) -> (c: Command)
        ensures
            c is Connect,
            final(self)@ == old(self)@,
    {
        Command::Connect
    }

    /// A ping is sent only while connected.
    pub fn ping(&self) -> (c: Command)
        ensures
            self@.connected ==> c is Ping,
            !self@.connected ==> c is Nothing,
    {
        if self.connected {
            Command::Ping
        } else {
            Command::Nothing
        }
    }

    /// An echo of `value` is sent only while connected.
    pub fn echo(&self, value: String) -> (c: Command)
        ensures
            self@.connected ==> (c matches Command::Echo(v) && v@ == value@),
            !self@.connected ==> c is Nothing,
    {
        if self.connected {
            Command::Echo(value)
        } else {
            Command::Nothing
        }
    }

    /// Applies a message to the page. Returns whether to draw the page again,
    /// which is always, and the request the message starts.
    pub fn update(&mut self, msg: Msg) -> (r: (bool, Command))
        requires
            update_allowed(old(self)@, msg),
        ensures
            r.0,
            final(self)@ == update_spec(old(self)@, msg),
            command_matches(old(self)@, msg, r.1),
    {
        let cmd = match msg {
            Msg::AddOne => {
                self.value = self.value + 1;
                Command::Nothing
            },
            Msg::Connect => self.connect(),
            Msg::Ping => self.ping(),
            Msg::UpdateEcho(value) => {
                self.echo_value = value;
                Command::Nothing
            },
            Msg::Echo => self.echo(self.echo_value.clone()),
            Msg::Redraw => Command::Nothing,
            Msg::UpdateEchoResult(result) => {
                self.echo_result = result;
                Command::Nothing
            },
            Msg::Connected => {
                self.connected = true;
                Command::Nothing
            },
        };
        (true, cmd)
    }
}

/// The message that an echo reply brings: the echoed text where the server
/// answered `Ok`, none where it answered with an error.
pub fn echo_reply(result: Result<String, String>) -> (m: Option<Msg>)
    ensures
        result matches Ok(v) ==> (m matches Some(Msg::UpdateEchoResult(r)) && r@ == v@),
        result is Err ==> m is None,
{
    match result {
        Ok(msg) => Some(Msg::UpdateEchoResult(msg)),
        Err(_) => None,
    }
}

/// The message that opening the connection brings: `Connected` where a
/// transport came up, none where it failed.
pub fn connect_reply(connected: bool) -> (m: Option<Msg>)
    ensures
        connected ==> (m matches Some(msg) && msg is Connected),
        !connected ==> m is None,
{
    if connected {
        Some(Msg::Connected)
    } else {
        None
    }
}

} // verus!
