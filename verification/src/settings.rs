//! The relay's configuration, and how it is read from a settings store.
//!
//! The store is a [`config::Config`] that the caller has built; its section
//! `email` holds the seven fields. Reading them is the only use this crate
//! makes of the store.

use crate::error::RelayError;
use vstd::prelude::*;

verus! {

/// What the relay is configured with. It is read once and never changed.
#[derive(Clone, Debug, PartialEq, Eq)]
pub struct EmailConfig {
    /// The account's name, which is also the address that replies come from.
    pub username: String,
    /// The account's password.
    pub password: String,
    /// The sender whose messages are answered; replies go to this address.
    pub sender_email: String,
    /// Host of the mailbox server.
    pub imap_server: String,
    /// Port of the mailbox server.
    pub imap_port: u16,
    /// Host of the submission server.
    pub smtp_server: String,
    /// Port of the submission server. It is required but the relay never asks
    /// for it: the transport is bound to the host alone.
    pub smtp_port: u16,
}

/// An [`EmailConfig`] as a mathematical value.
pub struct EmailConfigView {
    pub username: Seq<char>,
    pub password: Seq<char>,
    pub sender_email: Seq<char>,
    pub imap_server: Seq<char>,
    pub imap_port: u16,
    pub smtp_server: Seq<char>,
    pub smtp_port: u16,
}

impl View for EmailConfig {
    type V = EmailConfigView;

    open spec fn view(&self) -> EmailConfigView {
        EmailConfigView {
            username: self.username@,
            password: self.password@,
            sender_email: self.sender_email@,
            imap_server: self.imap_server@,
            imap_port: self.imap_port,
            smtp_server: self.smtp_server@,
            smtp_port: self.smtp_port,
        }
    }
}

#[verifier::external_type_specification]
#[verifier::external_body]
pub struct ExConfig(config::Config);

/// The entries of a settings store that can be read as a string, by key.
pub uninterp spec fn text_entries(settings: config::Config) -> Map<Seq<char>, Seq<char>>;

/// The entries of a settings store that can be read as a 16-bit unsigned
/// number, by key.
pub uninterp spec fn port_entries(settings: config::Config) -> Map<Seq<char>, u16>;

/// `config::Config::get::<String>`: the string under `key`, or nothing where
/// the store has no such key or its value does not convert to a string. The
/// store is not changed, so the same key always gives the same answer. Keys
/// with a subscript are left out: the lookup may overflow on a negative one.
#[verifier::external_body]
fn text_entry(settings: &config::Config, key: &str) -> (value: Option<String>)
    requires
        !key@.contains('['),
    ensures
        match value {
            Some(text) => text_entries(*settings).contains_key(key@) && text_entries(
                *settings,
            )[key@] == text@,
            None => !text_entries(*settings).contains_key(key@),
        },
{
    settings.get::<String>(key).ok()
}

/// `config::Config::get::<u16>`: the number under `key`, or nothing where the
/// store has no such key or its value does not convert to an unsigned number.
/// Which number a value converts to is the store's matter; this contract
/// only says that the same key always gives the same answer. Keys with a
/// subscript are left out: the lookup may overflow on a negative one.
#[verifier::external_body]
fn port_entry(settings: &config::Config, key: &str) -> (value: Option<u16>)
    requires
        !key@.contains('['),
    ensures
        match value {
            Some(port) => port_entries(*settings).contains_key(key@) && port_entries(
                *settings,
            )[key@] == port,
            None => !port_entries(*settings).contains_key(key@),
        },
{
    settings.get::<u16>(key).ok()
}

/// Whether a store holds every field of the configuration.
pub open spec fn complete(settings: config::Config) -> bool {
    &&& text_entries(settings).contains_key("email.username"@)
    &&& text_entries(settings).contains_key("email.password"@)
    &&& text_entries(settings).contains_key("email.sender_email"@)
    &&& text_entries(settings).contains_key("email.imap_server"@)
    &&& port_entries(settings).contains_key("email.imap_port"@)
    &&& text_entries(settings).contains_key("email.smtp_server"@)
    &&& port_entries(settings).contains_key("email.smtp_port"@)
}

/// The configuration that a complete store holds.
pub open spec fn configured(settings: config::Config) -> EmailConfigView {
    EmailConfigView {
        username: text_entries(settings)["email.username"@],
        password: text_entries(settings)["email.password"@],
        sender_email: text_entries(settings)["email.sender_email"@],
        imap_server: text_entries(settings)["email.imap_server"@],
        imap_port: port_entries(settings)["email.imap_port"@],
        smtp_server: text_entries(settings)["email.smtp_server"@],
        smtp_port: port_entries(settings)["email.smtp_port"@],
    }
}

/// The configuration made of seven fields, each of which may be missing.
pub open spec fn assembled(
    username: Option<Seq<char>>,
    password: Option<Seq<char>>,
    sender_email: Option<Seq<char>>,
    imap_server: Option<Seq<char>>,
    imap_port: Option<u16>,
    smtp_server: Option<Seq<char>>,
    smtp_port: Option<u16>,
) -> Result<EmailConfigView, RelayError> {
    if username is Some && password is Some && sender_email is Some && imap_server is Some
        && imap_port is Some && smtp_server is Some && smtp_port is Some {
        Ok(
            EmailConfigView {
                username: username->0,
                password: password->0,
                sender_email: sender_email->0,
                imap_server: imap_server->0,
                imap_port: imap_port->0,
                smtp_server: smtp_server->0,
                smtp_port: smtp_port->0,
            },
        )
    } else {
        Err(RelayError::ConfigError)
    }
}

/// A string that may be missing, as a mathematical value.
pub open spec fn text_view(text: Option<String>) -> Option<Seq<char>> {
    match text {
        Some(t) => Some(t@),
        None => None,
    }
}

impl EmailConfig {
    /// Puts a configuration together from its fields as they were found.
    /// Every field is required: one that is missing makes the whole a
    /// `ConfigError`.
    pub fn assemble(
        username: Option<String>,
        password: Option<String>,
        sender_email: Option<String>,
        imap_server: Option<String>,
        imap_port: Option<u16>,
        smtp_server: Option<String>,
        smtp_port: Option<u16>,
    ) -> (loaded: Result<EmailConfig, RelayError>)
        ensures
            match loaded {
                Ok(config) => assembled(
                    text_view(username),
                    text_view(password),
                    text_view(sender_email),
                    text_view(imap_server),
                    imap_port,
                    text_view(smtp_server),
                    smtp_port,
                ) == Ok::<EmailConfigView, RelayError>(config@),
                Err(e) => assembled(
                    text_view(username),
                    text_view(password),
                    text_view(sender_email),
                    text_view(imap_server),
                    imap_port,
                    text_view(smtp_server),
                    smtp_port,
                ) == Err::<EmailConfigView, RelayError>(e),
            },
    {
        match (username, password, sender_email, imap_server, imap_port, smtp_server, smtp_port) {
            (
                Some(username),
                Some(password),
                Some(sender_email),
                Some(imap_server),
                Some(imap_port),
                Some(smtp_server),
                Some(smtp_port),
            ) => Ok(
                EmailConfig {
                    username,
                    password,
                    sender_email,
                    imap_server,
                    imap_port,
                    smtp_server,
                    smtp_port,
                },
            ),
            _ => Err(RelayError::ConfigError),
        }
    }

    /// Reads the configuration from the section `email` of a settings store.
    /// It is there exactly when the store is [`complete`]; otherwise the
    /// result is a `ConfigError`.
    pub fn load(settings: &config::Config) -> (loaded: Result<EmailConfig, RelayError>)
        ensures
            match loaded {
                Ok(config) => complete(*settings) && config@ == configured(*settings),
                Err(e) => !complete(*settings) && e == RelayError::ConfigError,
            },
    {
        proof {
            reveal_strlit("email.username");
            reveal_strlit("email.password");
            reveal_strlit("email.sender_email");
            reveal_strlit("email.imap_server");
            reveal_strlit("email.imap_port");
            reveal_strlit("email.smtp_server");
            reveal_strlit("email.smtp_port");
        }
        let username = text_entry(settings, "email.username");
        let password = text_entry(settings, "email.password");
        let sender_email = text_entry(settings, "email.sender_email");
        let imap_server = text_entry(settings, "email.imap_server");
        let imap_port = port_entry(settings, "email.imap_port");
        let smtp_server = text_entry(settings, "email.smtp_server");
        let smtp_port = port_entry(settings, "email.smtp_port");
        EmailConfig::assemble(
            username,
            password,
            sender_email,
            imap_server,
            imap_port,
            smtp_server,
            smtp_port,
        )
    }
}

} // verus!
