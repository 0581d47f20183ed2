use vstd::prelude::*;

verus! {

/// A message as the echo endpoint receives and returns it.
#[derive(Clone, Debug, PartialEq, Eq)]
pub struct Message {
    pub author: Option<String>,
    pub contents: String,
}

/// The status of an echo request whose body is not a message.
pub const STATUS_UNDECODABLE: u16 = 400;

/// The echo endpoint's answer to a request body: the decoded message itself,
/// unchanged, or a client error when the body could not be decoded.
pub fn echo(decoded: Option<Message>) -> (r: Result<Message, u16>)
    ensures
        decoded is Some ==> r == Ok::<Message, u16>(decoded.unwrap()),
        decoded is None ==> r == Err::<Message, u16>(STATUS_UNDECODABLE),
        r is Err ==> 400 <= r->Err_0 < 500,
{
    match decoded {
        Some(m) => Ok(m),
        None => Err(STATUS_UNDECODABLE),
    }
}

} // verus!
