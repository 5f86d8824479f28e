use vstd::prelude::*;

verus! {

/// What the server answers to a ping.
pub open spec fn ping_answer() -> Seq<char> {
    "Pong"@
}

/// What the server answers to an echo request for `value`: the same text.
pub open spec fn echo_answer(value: Seq<char>) -> Seq<char> {
    value
}

/// The requests the server answers.
pub trait RPCService {
    /// Answers a ping.
    fn ping(&self) -> Result<String, String>;

    /// Answers an echo request for `value`.
    fn echo(&self, value: String) -> Result<String, String>;
}

/// The server's answers: a ping is answered "Pong", an echo with the text it
/// was sent.
#[derive(Clone)]
pub struct RPCServiceImpl {}

impl RPCService for RPCServiceImpl {
    fn ping(&self) -> (r: Result<String, String>)
        ensures
            r matches Ok(s) && s@ == ping_answer(),
    {
        proof {
            reveal_strlit("Pong");
        }
        Ok(String::from_str("Pong"))
    }

    fn echo(&self, value: String) -> (r: Result<String, String>)
        ensures
            r matches Ok(s) && s@ == echo_answer(value@),
    {
        Ok(value)
    }
}

} // verus!
