//! The text-message gateway: who may send commands, how the verifier key is
//! provisioned, and which command a message carries.
//!
//! Two gates stand before every command. The sender's number must be on the
//! allowlist, and the message must be a signed token that has not expired.
//! Until a key is installed the only message with any effect is the one that
//! installs it.

use crate::schema::{command_of_claim, Command, DoorControllerCommand, EngineCommand};
use crate::text::{has_prefix, same_text, strip_prefix, trim, trimmed};
use crate::token::{
    derive_key_document, document_is_usable, key_document_of, outcome_view, token_claims,
    usable_document, verify_token, ClaimsView, RawClaims, TokenFault,
};
use vstd::prelude::*;

verus! {

/// An inbound text message.
#[derive(Debug, Clone, PartialEq, Eq, PartialOrd, Ord)]
pub struct Sms {
    /// The sender's phone number as the platform reports it.
    pub number: String,
    /// The message body.
    pub message: String,
}

impl Sms {
    /// A message with the given sender and body.
    pub fn new(number: String, message: String) -> (sms: Sms)
        ensures
            sms.number@ == number@,
            sms.message@ == message@,
    {
        Sms { number, message }
    }
}

/// The allowlist that a list of contact numbers gives: each entry without its
/// leading and trailing whitespace.
pub open spec fn allowlist_of(contacts: Seq<String>) -> Set<Seq<char>> {
    Set::new(
        |number: Seq<char>|
            exists|i: int| 0 <= i < contacts.len() && trimmed(#[trigger] contacts[i]@) == number,
    )
}

/// The phone numbers that may issue commands.
pub struct AuthorizedNumbers {
    numbers: Vec<String>,
}

impl View for AuthorizedNumbers {
    type V = Set<Seq<char>>;

    closed spec fn view(&self) -> Set<Seq<char>> {
        Set::new(
            |number: Seq<char>|
                exists|i: int| 0 <= i < self.numbers.len() && (#[trigger] self.numbers[i])@ == number,
        )
    }
}

impl AuthorizedNumbers {
    /// The allowlist of the given contact numbers, each taken as it is but
    /// for leading and trailing whitespace.
    pub fn new(contacts: Vec<String>) -> (list: AuthorizedNumbers)
        ensures
            list@ == allowlist_of(contacts@),
    {
        let mut numbers: Vec<String> = Vec::new();
        let mut i: usize = 0;
        while i < contacts.len()
            invariant
                i <= contacts.len(),
                numbers.len() == i,
                forall|j: int| 0 <= j < i ==> (#[trigger] numbers[j])@ == trimmed(contacts[j]@),
            decreases contacts.len() - i,
        {
            numbers.push(trim(contacts[i].as_str()).to_owned());
            i = i + 1;
        }
        let list = AuthorizedNumbers { numbers };
        proof {
            assert forall|number: Seq<char>| list@.contains(number) == allowlist_of(
                contacts@,
            ).contains(number) by {
                if list@.contains(number) {
                    let j = choose|j: int| 0 <= j < list.numbers.len() && (#[trigger] list.numbers[j])@
                        == number;
                    assert(trimmed(contacts@[j]@) == number);
                }
                if allowlist_of(contacts@).contains(number) {
                    let j = choose|j: int|
                        0 <= j < contacts@.len() && trimmed(#[trigger] contacts@[j]@) == number;
                    assert(list.numbers[j]@ == number);
                }
            }
            assert(list@ =~= allowlist_of(contacts@));
        }
        list
    }

    /// Whether `number`, taken exactly as given, is on the allowlist.
    pub fn contains(&self, number: &str) -> (res: bool)
        ensures
            res == self@.contains(number@),
    {
        let mut i: usize = 0;
        while i < self.numbers.len()
            invariant
                i <= self.numbers.len(),
                forall|j: int| 0 <= j < i ==> (#[trigger] self.numbers[j])@ != number@,
            decreases self.numbers.len() - i,
        {
            if same_text(self.numbers[i].as_str(), number) {
                return true;
            }
            i = i + 1;
        }
        false
    }
}

/// Why a key could not be installed.
#[derive(Debug, Clone, Copy, PartialEq, Eq, Structural)]
pub enum KeyError {
    /// The secret gives no signing key, or none that can be stored and read
    /// back.
    InvalidSecret,
    /// The stored document is no key that can verify commands.
    UnusableDocument,
}

/// The symmetric key that command signatures are checked against, held as
/// the key document that is also what is persisted. Every key holds a
/// document that reads as a usable key.
pub struct VerifierKey {
    document: Vec<u8>,
}

impl View for VerifierKey {
    type V = Seq<u8>;

    closed spec fn view(&self) -> Seq<u8> {
        self.document@
    }
}

/// The document of the key that the secret `secret` installs: the one derived
/// from it, provided it reads back as a usable key.
pub open spec fn installed_document(secret: Seq<char>) -> Option<Seq<u8>> {
    match key_document_of(secret) {
        Some(document) => if usable_document(document) {
            Some(document)
        } else {
            None
        },
        None => None,
    }
}

/// The document of the key that the stored bytes `document` restore.
pub open spec fn restored_document(document: Seq<u8>) -> Option<Seq<u8>> {
    if usable_document(document) {
        Some(document)
    } else {
        None
    }
}

/// The document of a key, or nothing where there is no key.
pub open spec fn key_view(key: Result<VerifierKey, KeyError>) -> Option<Seq<u8>> {
    match key {
        Ok(key) => Some(key@),
        Err(_) => None,
    }
}

impl VerifierKey {
    #[verifier::type_invariant]
    spec fn usable(&self) -> bool {
        usable_document(self.document@)
    }

    /// Makes a key from the secret of a provisioning message. The document
    /// that will be stored is derived first and then read back, so a key is
    /// only ever installed if a restart can restore it.
    pub fn install(secret: &str) -> (res: Result<VerifierKey, KeyError>)
        ensures
            key_view(res) == installed_document(secret@),
            res matches Err(error) ==> error == KeyError::InvalidSecret,
    {
        match derive_key_document(secret) {
            Some(document) => {
                if document_is_usable(document.as_slice()) {
                    Ok(VerifierKey { document })
                } else {
                    Err(KeyError::InvalidSecret)
                }
            },
            None => Err(KeyError::InvalidSecret),
        }
    }

    /// Restores a key from its stored document.
    pub fn restore(document: Vec<u8>) -> (res: Result<VerifierKey, KeyError>)
        ensures
            key_view(res) == restored_document(document@),
            res matches Err(error) ==> error == KeyError::UnusableDocument,
    {
        if document_is_usable(document.as_slice()) {
            Ok(VerifierKey { document })
        } else {
            Err(KeyError::UnusableDocument)
        }
    }

    /// The document to persist for this key. It is one that
    /// [`VerifierKey::restore`] takes back.
    pub fn document(&self) -> (document: Vec<u8>)
        ensures
            document@ == self@,
            restored_document(document@) == Some(self@),
    {
        proof {
            use_type_invariant(self);
        }
        let mut copy: Vec<u8> = Vec::new();
        let mut i: usize = 0;
        while i < self.document.len()
            invariant
                i <= self.document.len(),
                copy@ == self.document@.take(i as int),
            decreases self.document.len() - i,
        {
            copy.push(self.document[i]);
            proof {
                assert(self.document@.take(i + 1) == self.document@.take(i as int).push(
                    self.document@[i as int],
                ));
            }
            i = i + 1;
        }
        proof {
            assert(self.document@.take(self.document.len() as int) == self.document@);
        }
        copy
    }

    /// Checks the signed token `token` against this key and hands out its
    /// claims, whatever the clock says. The key is never what is at fault.
    pub fn claims(&self, token: &str) -> (res: Result<RawClaims, TokenFault>)
        ensures
            outcome_view(res) == token_claims(self@, token@, command_claim()),
            !(res is Err && res->Err_0 == TokenFault::KeyUnusable),
    {
        proof {
            use_type_invariant(self);
            reveal_strlit("cmd");
            assert("cmd"@ == command_claim());
        }
        verify_token(self.document.as_slice(), token, "cmd")
    }
}

/// The name of the claim that carries the command.
pub open spec fn command_claim() -> Seq<char> {
    seq!['c', 'm', 'd']
}

/// The prefix that marks a provisioning message.
pub open spec fn setup_prefix() -> Seq<char> {
    seq!['s', 'e', 't', 'u', 'p', ':']
}

/// Whether `message`, whitespace around it aside, begins with the
/// provisioning prefix.
pub open spec fn is_setup(message: Seq<char>) -> bool {
    has_prefix(trimmed(message), setup_prefix())
}

/// The secret of a provisioning message: what follows the prefix, without
/// the whitespace around it.
pub open spec fn setup_secret(message: Seq<char>) -> Option<Seq<char>> {
    if is_setup(message) {
        Some(trimmed(trimmed(message).skip(setup_prefix().len() as int)))
    } else {
        None
    }
}

/// Why a message was dropped.
#[derive(Debug, Clone, Copy, PartialEq, Eq, Structural)]
pub enum Rejection {
    /// The sender is not on the allowlist, or there is no allowlist yet.
    Unauthorized,
    /// No key is installed, and the message does not install one.
    NotProvisioned,
    /// The provisioning message carries no usable secret.
    InvalidKey,
    /// A key is installed already; it is not replaced by message.
    AlreadyProvisioned,
    /// The message is no signed token that names a command.
    Malformed,
    /// The signature does not match the installed key.
    BadSignature,
    /// The token has no expiration, or the time is at or past it.
    Expired,
    /// The key document does not read as a key. A gateway never drops a
    /// message for this: every key it holds was read as one.
    KeyUnusable,
}

/// What the caller is to do for a message.
#[derive(Debug, Clone, PartialEq, Eq)]
pub enum GatewayAction {
    /// Nothing: the message was dropped.
    Drop(Rejection),
    /// A key was installed: write its document to stable storage.
    Persist(Vec<u8>),
    /// Put this engine command on the command bus.
    Push(EngineCommand),
    /// Hand this door operation to the sequencer.
    Sequence(DoorControllerCommand),
}

/// The mathematical value of a [`GatewayAction`].
pub enum ActionView {
    Drop(Rejection),
    Persist(Seq<u8>),
    Push(EngineCommand),
    Sequence(DoorControllerCommand),
}

impl View for GatewayAction {
    type V = ActionView;

    open spec fn view(&self) -> ActionView {
        match self {
            GatewayAction::Drop(rejection) => ActionView::Drop(*rejection),
            GatewayAction::Persist(document) => ActionView::Persist(document@),
            GatewayAction::Push(engine) => ActionView::Push(*engine),
            GatewayAction::Sequence(door) => ActionView::Sequence(*door),
        }
    }
}

/// The command that a checked token admits at time `now`, or why it is
/// rejected. A token is admitted only if its signature matched, it names a
/// command, and its expiration lies strictly after `now`.
pub open spec fn verdict(outcome: Result<ClaimsView, TokenFault>, now: u64) -> Result<
    Command,
    Rejection,
> {
    match outcome {
        Err(TokenFault::KeyUnusable) => Err(Rejection::KeyUnusable),
        Err(TokenFault::Malformed) => Err(Rejection::Malformed),
        Err(TokenFault::BadSignature) => Err(Rejection::BadSignature),
        Ok(claims) => match claims.command {
            None => Err(Rejection::Malformed),
            Some(claim) => match command_of_claim(claim) {
                None => Err(Rejection::Malformed),
                Some(command) => match claims.expiration {
                    None => Err(Rejection::Expired),
                    Some(expiration) => if expiration > now {
                        Ok(command)
                    } else {
                        Err(Rejection::Expired)
                    },
                },
            },
        },
    }
}

/// Where an admitted command goes: an engine command onto the bus, a door
/// operation to the sequencer.
pub open spec fn routed(verdict: Result<Command, Rejection>) -> ActionView {
    match verdict {
        Ok(Command::Engine(engine)) => ActionView::Push(engine),
        Ok(Command::DoorController(door)) => ActionView::Sequence(door),
        Err(rejection) => ActionView::Drop(rejection),
    }
}

/// Decides on a checked token at time `now` (seconds since the epoch).
pub fn judge(outcome: Result<RawClaims, TokenFault>, now: u64) -> (res: Result<Command, Rejection>)
    ensures
        res == verdict(outcome_view(outcome), now),
{
    match outcome {
        Err(TokenFault::KeyUnusable) => Err(Rejection::KeyUnusable),
        Err(TokenFault::Malformed) => Err(Rejection::Malformed),
        Err(TokenFault::BadSignature) => Err(Rejection::BadSignature),
        Ok(claims) => match &claims.command {
            None => Err(Rejection::Malformed),
            Some(claim) => match Command::from_claim(claim.as_str()) {
                None => Err(Rejection::Malformed),
                Some(command) => match claims.expiration {
                    None => Err(Rejection::Expired),
                    Some(expiration) => if expiration > now {
                        Ok(command)
                    } else {
                        Err(Rejection::Expired)
                    },
                },
            },
        },
    }
}

/// Turns a verdict into what the caller is to do.
pub fn route(verdict: Result<Command, Rejection>) -> (action: GatewayAction)
    ensures
        action@ == routed(verdict),
{
    match verdict {
        Ok(Command::Engine(engine)) => GatewayAction::Push(engine),
        Ok(Command::DoorController(door)) => GatewayAction::Sequence(door),
        Err(rejection) => GatewayAction::Drop(rejection),
    }
}

/// The gateway's state: the allowlist, once it was supplied, and the verifier
/// key, once it was installed.
pub struct Gateway {
    authorized: Option<AuthorizedNumbers>,
    key: Option<VerifierKey>,
}

/// The mathematical value of a [`Gateway`].
pub struct GatewayView {
    /// The allowlist, if one was supplied.
    pub authorized: Option<Set<Seq<char>>>,
    /// The document of the installed key, if there is one.
    pub key: Option<Seq<u8>>,
}

impl GatewayView {
    /// Whether a message from `number` passes the authorization gate.
    pub open spec fn authorizes(self, number: Seq<char>) -> bool {
        match self.authorized {
            Some(allowlist) => allowlist.contains(trimmed(number)),
            None => false,
        }
    }

    /// The state after a message from `number` with body `message` at time
    /// `now`, and what the caller is to do.
    pub open spec fn handle(self, number: Seq<char>, message: Seq<char>, now: u64) -> (
        GatewayView,
        ActionView,
    ) {
        if !self.authorizes(number) {
            (self, ActionView::Drop(Rejection::Unauthorized))
        } else {
            match self.key {
                None => match setup_secret(message) {
                    None => (self, ActionView::Drop(Rejection::NotProvisioned)),
                    Some(secret) => match installed_document(secret) {
                        None => (self, ActionView::Drop(Rejection::InvalidKey)),
                        Some(document) => (
                            GatewayView { authorized: self.authorized, key: Some(document) },
                            ActionView::Persist(document),
                        ),
                    },
                },
                Some(document) => if is_setup(message) {
                    (self, ActionView::Drop(Rejection::AlreadyProvisioned))
                } else {
                    (
                        self,
                        routed(
                            verdict(token_claims(document, trimmed(message), command_claim()), now),
                        ),
                    )
                },
            }
        }
    }
}

impl View for Gateway {
    type V = GatewayView;

    closed spec fn view(&self) -> GatewayView {
        GatewayView {
            authorized: match self.authorized {
                Some(list) => Some(list@),
                None => None,
            },
            key: match self.key {
                Some(key) => Some(key@),
                None => None,
            },
        }
    }
}

impl Gateway {
    /// A gateway with no allowlist and no key: it drops every message.
    pub fn new() -> (gateway: Gateway)
        ensures
            gateway@.authorized is None,
            gateway@.key is None,
    {
        Gateway { authorized: None, key: None }
    }

    /// Supplies the allowlist. It is set once: a later call changes nothing
    /// and returns `false`.
    pub fn provide_authorized_numbers(&mut self, contacts: Vec<String>) -> (accepted: bool)
        ensures
            accepted == (old(self)@.authorized is None),
            final(self)@.key == old(self)@.key,
            final(self)@.authorized == if accepted {
                Some(allowlist_of(contacts@))
            } else {
                old(self)@.authorized
            },
    {
        if self.authorized.is_some() {
            false
        } else {
            self.authorized = Some(AuthorizedNumbers::new(contacts));
            true
        }
    }

    /// Installs the key read from stable storage at start-up, in place of
    /// any key there was. A document that is no usable key is refused and
    /// changes nothing.
    pub fn restore_key(&mut self, document: Vec<u8>) -> (res: Result<(), KeyError>)
        ensures
            final(self)@.authorized == old(self)@.authorized,
            res is Ok <==> usable_document(document@),
            res is Ok ==> final(self)@.key == Some(document@),
            res matches Err(error) ==> error == KeyError::UnusableDocument && final(self)@.key == old(
                self,
            )@.key,
    {
        match VerifierKey::restore(document) {
            Ok(key) => {
                self.key = Some(key);
                Ok(())
            },
            Err(error) => Err(error),
        }
    }

    /// Whether a verifier key is installed.
    pub fn is_provisioned(&self) -> (res: bool)
        ensures
            res == (self@.key is Some),
    {
        self.key.is_some()
    }

    /// Whether a message from `number` passes the authorization gate: the
    /// number, without the whitespace around it, is on the allowlist.
    pub fn authorizes(&self, number: &str) -> (res: bool)
        ensures
            res == self@.authorizes(number@),
    {
        match &self.authorized {
            Some(list) => list.contains(trim(number)),
            None => false,
        }
    }

    /// Handles one inbound message at time `now` (seconds since the epoch).
    ///
    /// The sender is checked first. Without a key only a provisioning
    /// message does anything; with one, a provisioning message is refused and
    /// every other message is checked as a signed token.
    pub fn handle(&mut self, sms: &Sms, now: u64) -> (action: GatewayAction)
        ensures
            (final(self)@, action@) == old(self)@.handle(sms.number@, sms.message@, now),
            !old(self)@.authorizes(sms.number@) ==> action@ == ActionView::Drop(
                Rejection::Unauthorized,
            ) && final(self)@ == old(self)@,
            !(action@ is Persist) ==> final(self)@ == old(self)@,
            action@ != ActionView::Drop(Rejection::KeyUnusable),
    {
        if !self.authorizes(sms.number.as_str()) {
            return GatewayAction::Drop(Rejection::Unauthorized);
        }
        let message = trim(sms.message.as_str());
        proof {
            reveal_strlit("setup:");
            assert("setup:"@ == setup_prefix());
        }
        let setup = strip_prefix(message, "setup:");
        match &self.key {
            Some(key) => {
                if setup.is_some() {
                    GatewayAction::Drop(Rejection::AlreadyProvisioned)
                } else {
                    route(judge(key.claims(message), now))
                }
            },
            None => match setup {
                None => GatewayAction::Drop(Rejection::NotProvisioned),
                Some(rest) => match VerifierKey::install(trim(rest)) {
                    Err(_) => GatewayAction::Drop(Rejection::InvalidKey),
                    Ok(key) => {
                        let document = key.document();
                        self.key = Some(key);
                        GatewayAction::Persist(document)
                    },
                },
            },
        }
    }
}

/// A checked token is admitted if and only if its signature matched, it
/// names a command, and its expiration lies strictly after `now`. A token that
/// expires exactly at `now`, or that carries no expiration, is rejected.
pub proof fn lemma_admitted_iff_verified_and_unexpired(
    outcome: Result<ClaimsView, TokenFault>,
    now: u64,
)
    ensures
        verdict(outcome, now) is Ok <==> ({
            &&& outcome matches Ok(claims)
            &&& claims.command matches Some(claim)
            &&& command_of_claim(claim) is Some
            &&& claims.expiration matches Some(expiration)
            &&& expiration > now
        }),
        verdict(outcome, now) matches Ok(command) ==> ({
            &&& outcome matches Ok(claims)
            &&& claims.command matches Some(claim)
            &&& command_of_claim(claim) == Some(command)
        }),
        outcome matches Ok(claims) && claims.expiration == Some(now) ==> verdict(outcome, now)
            is Err,
        outcome matches Ok(claims) && claims.expiration is None ==> verdict(outcome, now) is Err,
        outcome matches Err(TokenFault::BadSignature) ==> verdict(outcome, now) == Err::<
            Command,
            Rejection,
        >(Rejection::BadSignature),
{
}

/// A message leads to a command if and only if its sender is authorized, a
/// key is installed, and the message is a token that this key verifies, that
/// names a command and that has not expired. No message changes an installed
/// key.
pub proof fn lemma_command_iff_authorized_and_verified(
    state: GatewayView,
    number: Seq<char>,
    message: Seq<char>,
    now: u64,
)
    ensures
        ({
            let action = state.handle(number, message, now).1;
            (action is Push || action is Sequence) <==> ({
                &&& state.authorizes(number)
                &&& state.key matches Some(document)
                &&& !is_setup(message)
                &&& verdict(token_claims(document, trimmed(message), command_claim()), now) is Ok
            })
        }),
        state.key is Some ==> state.handle(number, message, now).0 == state,
{
}

/// A message from a number that is not on the allowlist is dropped as
/// unauthorized whatever it says and whenever it comes, and changes nothing:
/// its body is never looked at.
pub proof fn lemma_unauthorized_never_verified(
    state: GatewayView,
    number: Seq<char>,
    message: Seq<char>,
    other_message: Seq<char>,
    now: u64,
    other_now: u64,
)
    requires
        !state.authorizes(number),
    ensures
        state.handle(number, message, now) == (state, ActionView::Drop(Rejection::Unauthorized)),
        state.handle(number, message, now) == state.handle(number, other_message, other_now),
{
}

/// Before a key is installed no message leads to a command, and a message
/// has an effect only if it comes from an authorized number and is a
/// provisioning message; the effect is then that a key is installed and its
/// document handed out to be stored.
pub proof fn lemma_inert_until_provisioned(
    state: GatewayView,
    number: Seq<char>,
    message: Seq<char>,
    now: u64,
)
    requires
        state.key is None,
    ensures
        ({
            let (after, action) = state.handle(number, message, now);
            &&& !(action is Push) && !(action is Sequence)
            &&& !(state.authorizes(number) && setup_secret(message) is Some) ==> after == state
                && action is Drop
            &&& action is Drop ==> after == state
            &&& action matches ActionView::Persist(document) ==> after.key == Some(document)
                && after.authorized == state.authorized && usable_document(document)
        }),
{
}

/// The document handed out when a key is installed restores that same key:
/// a gateway that starts again from the stored document is in the state the
/// first one was left in, and so decides every later message alike.
pub proof fn lemma_key_survives_restart(
    state: GatewayView,
    number: Seq<char>,
    setup_message: Seq<char>,
    now: u64,
    later_number: Seq<char>,
    later_message: Seq<char>,
    later_now: u64,
)
    requires
        state.handle(number, setup_message, now).1 is Persist,
    ensures
        ({
            let (after, action) = state.handle(number, setup_message, now);
            let restarted = GatewayView {
                authorized: state.authorized,
                key: restored_document(action->Persist_0),
            };
            &&& restored_document(action->Persist_0) == Some(action->Persist_0)
            &&& restarted == after
            &&& restarted.handle(later_number, later_message, later_now) == after.handle(
                later_number,
                later_message,
                later_now,
            )
        }),
{
}

} // verus!
