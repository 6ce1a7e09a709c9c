//! The strings that the relay builds: the answer to a message, the search
//! query, the way a message is named in a fetch request, and the text of a
//! message body.

use crate::error::RelayError;
use vstd::prelude::*;
use vstd::string::*;
use vstd::utf8::*;

verus! {

/// The decimal digit for a value below ten.
pub open spec fn digit_char(d: nat) -> char {
    if d == 0 {
        '0'
    } else if d == 1 {
        '1'
    } else if d == 2 {
        '2'
    } else if d == 3 {
        '3'
    } else if d == 4 {
        '4'
    } else if d == 5 {
        '5'
    } else if d == 6 {
        '6'
    } else if d == 7 {
        '7'
    } else if d == 8 {
        '8'
    } else {
        '9'
    }
}

/// A number written in base ten, without sign and without leading zeros.
pub open spec fn decimal(n: nat) -> Seq<char>
    decreases n,
{
    if n < 10 {
        seq![digit_char(n)]
    } else {
        decimal(n / 10).push(digit_char(n % 10))
    }
}

/// The search that finds the unseen messages of one sender.
pub open spec fn query_for(sender: Seq<char>) -> Seq<char> {
    "(UNSEEN FROM "@ + sender + ")"@
}

/// What [`callback_fn`] answers to a text.
pub open spec fn processed(email_text: Seq<char>) -> Seq<char> {
    "Processed: "@ + email_text
}

/// The answer to a message. It is the message's text behind a fixed prefix.
pub fn callback_fn(email_text: &str) -> (response: String)
    ensures
        response@ == processed(email_text@),
{
    String::from_str("Processed: ").concat(email_text)
}

/// The query handed to the mailbox server: unseen messages whose sender is
/// `sender`. The address is put into the query as it stands.
pub fn search_query(sender: &str) -> (query: String)
    ensures
        query@ == query_for(sender@),
{
    String::from_str("(UNSEEN FROM ").concat(sender).concat(")")
}

fn digit_text(d: u32) -> (text: &'static str)
    requires
        d < 10,
    ensures
        text@ == seq![digit_char(d as nat)],
{
    proof {
        reveal_strlit("0");
        reveal_strlit("1");
        reveal_strlit("2");
        reveal_strlit("3");
        reveal_strlit("4");
        reveal_strlit("5");
        reveal_strlit("6");
        reveal_strlit("7");
        reveal_strlit("8");
        reveal_strlit("9");
    }
    let text: &'static str = if d == 0 {
        "0"
    } else if d == 1 {
        "1"
    } else if d == 2 {
        "2"
    } else if d == 3 {
        "3"
    } else if d == 4 {
        "4"
    } else if d == 5 {
        "5"
    } else if d == 6 {
        "6"
    } else if d == 7 {
        "7"
    } else if d == 8 {
        "8"
    } else {
        "9"
    };
    assert(text@ =~= seq![digit_char(d as nat)]);
    text
}

/// How one message is named in a fetch request: its identifier in base ten.
pub fn sequence_set(id: u32) -> (text: String)
    ensures
        text@ == decimal(id as nat),
    decreases id,
{
    if id < 10 {
        String::from_str(digit_text(id))
    } else {
        let mut text = sequence_set(id / 10);
        text.append(digit_text(id % 10));
        text
    }
}

/// `std::str::from_utf8`: the bytes as a string slice where they are valid
/// UTF-8, and nothing where they are not. The slice holds the characters that
/// the bytes encode.
#[verifier::external_body]
fn utf8_str(bytes: &[u8]) -> (text: Option<&str>)
    ensures
        text is Some <==> valid_utf8(bytes@),
        text matches Some(s) ==> s@ == decode_utf8(bytes@),
{
    std::str::from_utf8(bytes).ok()
}

/// The text of a message body. A body that is not valid UTF-8 has none.
pub fn decode_body(body: &[u8]) -> (decoded: Result<String, RelayError>)
    ensures
        match decoded {
            Ok(text) => valid_utf8(body@) && text@ == decode_utf8(body@),
            Err(e) => !valid_utf8(body@) && e == RelayError::EncodingError,
        },
{
    match utf8_str(body) {
        Some(text) => Ok(String::from_str(text)),
        None => Err(RelayError::EncodingError),
    }
}

} // verus!
