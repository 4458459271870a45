//! The texts of the TCP demo programs: what the clients send and report, and
//! how the echo server answers.
use crate::message::{padded_payload, payload_from_bytes, Message};
use crate::text::{decimal, with_number};
use vstd::prelude::*;
use vstd::string::StringSliceAdditionalSpecFns;
use vstd::utf8::{decode_utf8, valid_utf8};

verus! {

broadcast use vstd::utf8::encode_utf8_decode_utf8;

/// Code of the report that the simulated client sends for each of its messages.
pub const CLIENT_REPORT_CODE: u32 = 1023412;

/// Source address written in the simulated client's reports.
pub const CLIENT_REPORT_SOURCE: u32 = 94;

/// Destination address written in the simulated client's reports.
pub const CLIENT_REPORT_DESTINATION: u32 = 223;

/// Number of messages that the simulated client sends.
pub const CLIENT_MESSAGES: u32 = 9;

/// Number of messages that the report client sends.
pub const REPORT_CLIENT_MESSAGES: u32 = 3;

/// The `count`-th message of the simulated client.
pub open spec fn client_text(count: u32) -> Seq<char> {
    "shadow simulator mensagem num "@ + decimal(count as nat)
}

/// Writes the `count`-th message of the simulated client.
pub fn client_message(count: u32) -> (text: String)
    ensures
        text@ == client_text(count),
{
    with_number("shadow simulator mensagem num ", count)
}

/// The `count`-th message of the report client.
pub open spec fn report_client_text(count: u32) -> Seq<char> {
    "mensagem "@ + decimal(count as nat)
}

/// Writes the `count`-th message of the report client.
pub fn report_client_message(count: u32) -> (text: String)
    ensures
        text@ == report_client_text(count),
{
    with_number("mensagem ", count)
}

/// The report that the simulated client sends to the monitor along with a message:
/// the payload holds the start of the message's UTF-8 bytes.
pub fn client_report(text: &str) -> (message: Message)
    ensures
        message.code == CLIENT_REPORT_CODE,
        message.ip_src == CLIENT_REPORT_SOURCE,
        message.ip_dest == CLIENT_REPORT_DESTINATION,
        message.msg@ == padded_payload(text.spec_bytes()),
        !message.return_status,
{
    Message {
        code: CLIENT_REPORT_CODE,
        ip_src: CLIENT_REPORT_SOURCE,
        ip_dest: CLIENT_REPORT_DESTINATION,
        msg: payload_from_bytes(text.as_bytes()),
        return_status: false,
    }
}

/// What std's `str::to_uppercase` gives for a text: its Unicode upper-case mapping.
pub uninterp spec fn uppercase(text: Seq<char>) -> Seq<char>;

/// Trusted: `str::to_uppercase`; its result is taken to be a function of the
/// text alone, named `uppercase`. Nothing more of the Unicode mapping is stated.
#[verifier::external_body]
fn to_uppercase(text: &str) -> (upper: String)
    ensures
        upper@ == uppercase(text@),
{
    text.to_uppercase()
}

/// Trusted: `std::str::from_utf8`; it accepts exactly the valid UTF-8 byte
/// sequences, and the text it returns has those bytes.
#[verifier::external_body]
fn text_from_utf8(bytes: &[u8]) -> (text: Option<&str>)
    ensures
        text is Some <==> valid_utf8(bytes@),
        text matches Some(t) ==> t.spec_bytes() == bytes@,
{
    std::str::from_utf8(bytes).ok()
}

/// What the echo server does with a chunk of text it read.
#[derive(Debug)]
pub enum EchoStep {
    /// The peer closed the connection (nothing was read).
    Close,
    /// Send this text back.
    Reply(String),
}

/// Decides the echo server's answer to a chunk of UTF-8 text: close on an empty
/// chunk, send back the upper-cased text otherwise. A chunk that is not UTF-8
/// text is not accepted.
pub fn echo_step(chunk: &[u8]) -> (step: EchoStep)
    requires
        valid_utf8(chunk@),
    ensures
        chunk@.len() == 0 ==> step is Close,
        chunk@.len() > 0 ==> (step matches EchoStep::Reply(reply) && reply@ == uppercase(
            decode_utf8(chunk@),
        )),
{
    let text = text_from_utf8(chunk).unwrap();
    if chunk.len() == 0 {
        EchoStep::Close
    } else {
        EchoStep::Reply(to_uppercase(text))
    }
}

} // verus!
