//! The request decoder: the fields of a form are gathered into an `Invocation`.
//!
//! The form arrives here as the list of its decoded name and value pairs, in the order of the
//! body. A field counts only if its name occurs exactly once.

use crate::address::{parse_url, parsed_url, text_of};
use crate::error::Error;
use vstd::prelude::*;
use vstd::string::*;

verus! {

// The names of the form's fields.

pub const CHANNEL_ID: &'static str = "channel_id";

pub const CHANNEL_NAME: &'static str = "channel_name";

pub const COMMAND: &'static str = "command";

pub const RESPONSE_URL: &'static str = "response_url";

pub const TEAM_DOMAIN: &'static str = "team_domain";

pub const TEAM_ID: &'static str = "team_id";

pub const TEXT: &'static str = "text";

pub const TOKEN: &'static str = "token";

pub const TRIGGER_ID: &'static str = "trigger_id";

pub const USER_ID: &'static str = "user_id";

pub const USER_NAME: &'static str = "user_name";

/// One invocation of the slash command, as the chat platform reports it.
#[derive(Debug, PartialEq, Eq)]
pub struct Invocation {
    pub channel_id: String,
    pub channel_name: String,
    /// The name under which the command was invoked.
    pub command: String,
    /// The callback URL: where the deferred reply is delivered.
    pub response_url: String,
    pub team_domain: String,
    pub team_id: String,
    /// The free text behind the command.
    pub text: String,
    pub token: String,
    pub trigger_id: String,
    pub user_id: String,
    pub user_name: String,
}

/// An `Invocation` as plain values.
pub struct InvocationView {
    pub channel_id: Seq<char>,
    pub channel_name: Seq<char>,
    pub command: Seq<char>,
    pub response_url: Seq<char>,
    pub team_domain: Seq<char>,
    pub team_id: Seq<char>,
    pub text: Seq<char>,
    pub token: Seq<char>,
    pub trigger_id: Seq<char>,
    pub user_id: Seq<char>,
    pub user_name: Seq<char>,
}

impl View for Invocation {
    type V = InvocationView;

    open spec fn view(&self) -> InvocationView {
        InvocationView {
            channel_id: self.channel_id@,
            channel_name: self.channel_name@,
            command: self.command@,
            response_url: self.response_url@,
            team_domain: self.team_domain@,
            team_id: self.team_id@,
            text: self.text@,
            token: self.token@,
            trigger_id: self.trigger_id@,
            user_id: self.user_id@,
            user_name: self.user_name@,
        }
    }
}

/// The values that `fields` gives under the name `name`, in their order.
pub open spec fn values_of(fields: Seq<(String, String)>, name: Seq<char>) -> Seq<Seq<char>>
    decreases fields.len(),
{
    if fields.len() == 0 {
        Seq::empty()
    } else if fields.last().0@ == name {
        values_of(fields.drop_last(), name).push(fields.last().1@)
    } else {
        values_of(fields.drop_last(), name)
    }
}

/// The value of the field `name`: the one value that `fields` gives under that name. A name
/// that is absent or repeated has no value.
pub open spec fn field(fields: Seq<(String, String)>, name: Seq<char>) -> Option<Seq<char>> {
    if values_of(fields, name).len() == 1 {
        Some(values_of(fields, name)[0])
    } else {
        None
    }
}

/// Whether `fields` gives every field of an invocation.
pub open spec fn complete(fields: Seq<(String, String)>) -> bool {
    &&& field(fields, CHANNEL_ID@) is Some
    &&& field(fields, CHANNEL_NAME@) is Some
    &&& field(fields, COMMAND@) is Some
    &&& field(fields, RESPONSE_URL@) is Some
    &&& field(fields, TEAM_DOMAIN@) is Some
    &&& field(fields, TEAM_ID@) is Some
    &&& field(fields, TEXT@) is Some
    &&& field(fields, TOKEN@) is Some
    &&& field(fields, TRIGGER_ID@) is Some
    &&& field(fields, USER_ID@) is Some
    &&& field(fields, USER_NAME@) is Some
}

/// The invocation that `fields` describes, its callback URL as the form gives it.
pub open spec fn gathered(fields: Seq<(String, String)>) -> InvocationView {
    InvocationView {
        channel_id: field(fields, CHANNEL_ID@).unwrap(),
        channel_name: field(fields, CHANNEL_NAME@).unwrap(),
        command: field(fields, COMMAND@).unwrap(),
        response_url: field(fields, RESPONSE_URL@).unwrap(),
        team_domain: field(fields, TEAM_DOMAIN@).unwrap(),
        team_id: field(fields, TEAM_ID@).unwrap(),
        text: field(fields, TEXT@).unwrap(),
        token: field(fields, TOKEN@).unwrap(),
        trigger_id: field(fields, TRIGGER_ID@).unwrap(),
        user_id: field(fields, USER_ID@).unwrap(),
        user_name: field(fields, USER_NAME@).unwrap(),
    }
}

/// `raw` with `address` as its callback URL.
pub open spec fn addressed(raw: InvocationView, address: Seq<char>) -> InvocationView {
    InvocationView { response_url: address, ..raw }
}

/// The invocation that `fields` decodes to, if any: every field is there, and the callback URL
/// is an absolute URL, which is kept as the `url` crate writes it.
pub open spec fn decoded(fields: Seq<(String, String)>) -> Option<InvocationView> {
    if complete(fields) && parsed_url(gathered(fields).response_url) is Some {
        Some(addressed(gathered(fields), parsed_url(gathered(fields).response_url).unwrap()))
    } else {
        None
    }
}

/// Looks up the value of the field `name`.
pub fn lookup(fields: &Vec<(String, String)>, name: &str) -> (value: Option<String>)
    ensures
        text_of(value) == field(fields@, name@),
{
    let wanted = String::from_str(name);
    let mut value: Option<String> = None;
    let mut count: usize = 0;
    let mut i: usize = 0;
    while i < fields.len()
        invariant
            i <= fields.len(),
            wanted@ == name@,
            count == values_of(fields@.take(i as int), name@).len(),
            count <= i,
            count == 1 ==> text_of(value) == Some(values_of(fields@.take(i as int), name@)[0]),
        decreases fields.len() - i,
    {
        assert(fields@.take(i + 1).drop_last() == fields@.take(i as int));
        if fields[i].0 == wanted {
            if count == 0 {
                value = Some(fields[i].1.clone());
            }
            count += 1;
        }
        i += 1;
    }
    assert(fields@.take(i as int) == fields@);
    if count == 1 {
        value
    } else {
        None
    }
}

/// Gathers the fields of an invocation from a form. The callback URL is taken as it stands.
pub fn gather(fields: &Vec<(String, String)>) -> (r: Result<Invocation, Error>)
    ensures
        match r {
            Ok(invocation) => complete(fields@) && invocation@ == gathered(fields@),
            Err(e) => e == Error::DecodeError && !complete(fields@),
        },
{
    let channel_id = match lookup(fields, CHANNEL_ID) {
        Some(value) => value,
        None => return Err(Error::DecodeError),
    };
    let channel_name = match lookup(fields, CHANNEL_NAME) {
        Some(value) => value,
        None => return Err(Error::DecodeError),
    };
    let command = match lookup(fields, COMMAND) {
        Some(value) => value,
        None => return Err(Error::DecodeError),
    };
    let response_url = match lookup(fields, RESPONSE_URL) {
        Some(value) => value,
        None => return Err(Error::DecodeError),
    };
    let team_domain = match lookup(fields, TEAM_DOMAIN) {
        Some(value) => value,
        None => return Err(Error::DecodeError),
    };
    let team_id = match lookup(fields, TEAM_ID) {
        Some(value) => value,
        None => return Err(Error::DecodeError),
    };
    let text = match lookup(fields, TEXT) {
        Some(value) => value,
        None => return Err(Error::DecodeError),
    };
    let token = match lookup(fields, TOKEN) {
        Some(value) => value,
        None => return Err(Error::DecodeError),
    };
    let trigger_id = match lookup(fields, TRIGGER_ID) {
        Some(value) => value,
        None => return Err(Error::DecodeError),
    };
    let user_id = match lookup(fields, USER_ID) {
        Some(value) => value,
        None => return Err(Error::DecodeError),
    };
    let user_name = match lookup(fields, USER_NAME) {
        Some(value) => value,
        None => return Err(Error::DecodeError),
    };
    Ok(
        Invocation {
            channel_id,
            channel_name,
            command,
            response_url,
            team_domain,
            team_id,
            text,
            token,
            trigger_id,
            user_id,
            user_name,
        },
    )
}

/// Gives the invocation `raw` its callback URL as it was parsed: `address` is what the `url`
/// crate made of the URL in `raw`. Without an address there is no invocation.
pub fn with_address(raw: Invocation, address: Option<String>) -> (r: Result<Invocation, Error>)
    ensures
        match r {
            Ok(invocation) => address is Some && invocation@ == addressed(
                raw@,
                address.unwrap()@,
            ),
            Err(e) => e == Error::DecodeError && address is None,
        },
{
    match address {
        Some(response_url) => Ok(
            Invocation {
                channel_id: raw.channel_id,
                channel_name: raw.channel_name,
                command: raw.command,
                response_url,
                team_domain: raw.team_domain,
                team_id: raw.team_id,
                text: raw.text,
                token: raw.token,
                trigger_id: raw.trigger_id,
                user_id: raw.user_id,
                user_name: raw.user_name,
            },
        ),
        None => Err(Error::DecodeError),
    }
}

/// Decodes a form into an invocation.
///
/// Every field must be there, once, and the callback URL must be an absolute URL. Fields of
/// other names are passed over.
pub fn decode(fields: &Vec<(String, String)>) -> (r: Result<Invocation, Error>)
    ensures
        match r {
            Ok(invocation) => decoded(fields@) == Some(invocation@),
            Err(e) => e == Error::DecodeError && decoded(fields@) is None,
        },
{
    match gather(fields) {
        Ok(raw) => {
            let address = parse_url(raw.response_url.as_str());
            with_address(raw, address)
        },
        Err(e) => Err(e),
    }
}

} // verus!
