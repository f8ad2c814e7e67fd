//! The relay client: messages, the registration handshake, and what the
//! background task does with each thing that happens on the socket.
//!
//! Nothing here touches a socket. Whoever owns the socket turns frames into
//! [`RelayCommand`]s and back, tells this module what arrived, and does what
//! it is told.

use crate::backoff::BackoffPolicy;
use crate::encoding::{base64_encode, base64_len, base64_standard};
use crate::error::RelayError;
use crate::manager::ResourceManager;
use crate::model::ManagerState;
use vstd::prelude::*;

verus! {

/// The keepalive interval: 60 seconds, in nanoseconds.
pub const PING_INTERVAL: u128 = 60_000_000_000;

/// The longest delay between two attempts to reach the relay, in seconds.
pub const RELAY_MAX_DELAY_SECS: u64 = 30;

/// The credentials that the relay assigns to a registered provider.
#[derive(Debug, PartialEq, Eq)]
pub struct RelayState {
    /// The registration code.
    pub code: String,
    /// The secret that goes with the code.
    pub secret: String,
}

impl Clone for RelayState {
    fn clone(&self) -> (copy: Self)
        ensures
            copy == *self,
    {
        RelayState { code: self.code.clone(), secret: self.secret.clone() }
    }
}

/// What a provider reports about the device it runs on.
#[derive(Debug, PartialEq, Eq)]
pub struct RelayVersions {
    /// The hardware model.
    pub hardware_version: String,
    /// The name of the operating system.
    pub software_name: String,
    /// The version of the operating system.
    pub software_version: String,
    /// The build of the operating system.
    pub software_build_id: String,
    /// The unique identifier of the device.
    pub unique_device_id: String,
    /// The serial number of the device.
    pub serial_number: String,
}

/// A property of the device that the identity store is asked for.
#[derive(Clone, Copy, Debug, PartialEq, Eq, Structural)]
pub enum IdentityProperty {
    /// The version of the operating system.
    ProductVersion,
    /// The build of the operating system.
    BuildVersion,
    /// The unique identifier of the device.
    UniqueDeviceID,
    /// The serial number of the device.
    SerialNumber,
}

impl IdentityProperty {
    /// The name under which the identity store knows the property.
    pub open spec fn spec_name(self) -> Seq<char> {
        match self {
            IdentityProperty::ProductVersion => "ProductVersion"@,
            IdentityProperty::BuildVersion => "BuildVersion"@,
            IdentityProperty::UniqueDeviceID => "UniqueDeviceID"@,
            IdentityProperty::SerialNumber => "SerialNumber"@,
        }
    }

    /// The name under which the identity store knows the property.
    pub fn name(self) -> (name: &'static str)
        ensures
            name@ == self.spec_name(),
    {
        match self {
            IdentityProperty::ProductVersion => "ProductVersion",
            IdentityProperty::BuildVersion => "BuildVersion",
            IdentityProperty::UniqueDeviceID => "UniqueDeviceID",
            IdentityProperty::SerialNumber => "SerialNumber",
        }
    }
}

impl RelayVersions {
    /// Puts together the report: the hardware model as the system names it,
    /// the four properties as the identity store answered, and the fixed
    /// name of the operating system.
    pub fn new(
        hardware_version: String,
        software_version: String,
        software_build_id: String,
        unique_device_id: String,
        serial_number: String,
    ) -> (versions: RelayVersions)
        ensures
            versions.hardware_version == hardware_version,
            versions.software_name@ == "iPhone OS"@,
            versions.software_version == software_version,
            versions.software_build_id == software_build_id,
            versions.unique_device_id == unique_device_id,
            versions.serial_number == serial_number,
    {
        RelayVersions {
            hardware_version,
            software_name: "iPhone OS".to_owned(),
            software_version,
            software_build_id,
            unique_device_id,
            serial_number,
        }
    }
}

/// The payload of a message.
#[derive(Debug, PartialEq, Eq)]
pub enum CommandData {
    /// Registration credentials.
    Code {
        /// The credentials.
        code: RelayState,
    },
    /// A device report.
    Versions {
        /// The report.
        versions: RelayVersions,
    },
    /// Validation data as base64 text.
    ValidationData {
        /// The text.
        data: String,
    },
    /// An object without fields.
    Empty {  },
}

/// One message of the relay protocol.
#[derive(Debug, PartialEq, Eq)]
pub struct RelayCommand {
    /// What the message asks for or answers.
    pub command: String,
    /// The number that ties an answer to its request.
    pub id: Option<u64>,
    /// The payload, if there is one.
    pub data: Option<CommandData>,
}

impl RelayCommand {
    /// Whether this is the answer to `request` that carries `data`.
    pub open spec fn answers(self, request: RelayCommand, data: CommandData) -> bool {
        &&& self.command@ == "response"@
        &&& self.id == request.id
        &&& self.data == Some(data)
    }

    /// Whether this is a registration request made with the credentials
    /// known so far.
    pub open spec fn registers(self, known: Option<RelayState>) -> bool {
        &&& self.command@ == "register"@
        &&& self.id is None
        &&& self.data == Some(
            match known {
                Some(code) => CommandData::Code { code },
                None => CommandData::Empty {  },
            },
        )
    }

    /// Whether this is a keepalive ping.
    pub open spec fn is_ping(self) -> bool {
        &&& self.command@ == "ping"@
        &&& self.id is None
        &&& self.data is None
    }

    /// The answer to this request, carrying `data` and the request's id.
    pub fn respond(&self, data: CommandData) -> (answer: RelayCommand)
        requires
            self.id is Some,
        ensures
            answer.answers(*self, data),
    {
        RelayCommand { command: "response".to_owned(), id: self.id, data: Some(data) }
    }

    /// The answer to this request if it has an id to answer to, and `None`
    /// if it has not: such a request cannot be answered, and the background
    /// task that received it ends in a fault.
    pub fn try_respond(&self, data: CommandData) -> (answer: Option<RelayCommand>)
        ensures
            match answer {
                Some(sent) => self.id is Some && sent.answers(*self, data),
                None => self.id is None,
            },
    {
        if self.id.is_some() {
            Some(self.respond(data))
        } else {
            None
        }
    }

    /// The keepalive ping.
    pub fn ping() -> (command: RelayCommand)
        ensures
            command.is_ping(),
    {
        RelayCommand { command: "ping".to_owned(), id: None, data: None }
    }

    /// The answer to a request for the device report.
    pub fn versions_reply(&self, versions: RelayVersions) -> (answer: Option<RelayCommand>)
        ensures
            match answer {
                Some(sent) => self.id is Some && sent.answers(
                    *self,
                    CommandData::Versions { versions },
                ),
                None => self.id is None,
            },
    {
        self.try_respond(CommandData::Versions { versions })
    }

    /// The answer to a request for validation data, given the data as
    /// base64 text.
    pub fn encoded_validation_reply(&self, data: String) -> (answer: Option<RelayCommand>)
        ensures
            match answer {
                Some(sent) => self.id is Some && sent.answers(
                    *self,
                    CommandData::ValidationData { data },
                ),
                None => self.id is None,
            },
    {
        self.try_respond(CommandData::ValidationData { data })
    }

    /// The answer to a request for validation data, given the bytes that the
    /// validation service produced: they travel as standard base64 text.
    pub fn validation_reply(&self, data: &[u8]) -> (answer: Option<RelayCommand>)
        requires
            base64_len(data@.len()) <= usize::MAX,
        ensures
            match answer {
                Some(sent) => {
                    &&& self.id is Some
                    &&& sent.command@ == "response"@
                    &&& sent.id == self.id
                    &&& sent.data matches Some(CommandData::ValidationData { data: text })
                    &&& text@ == base64_standard(data@)
                },
                None => self.id is None,
            },
    {
        self.encoded_validation_reply(base64_encode(data))
    }
}

/// What came off the socket.
#[derive(Debug, PartialEq, Eq)]
pub enum Inbound {
    /// The socket had nothing to give.
    Nothing,
    /// A text frame that holds a message.
    Command(RelayCommand),
    /// A text frame that holds no message.
    Malformed,
    /// A frame that is not text, or a failure of the socket.
    Unusable,
}

/// A request that the relay makes of a provider.
#[derive(Clone, Copy, Debug, PartialEq, Eq, Structural)]
pub enum Request {
    /// Report the device and its system.
    VersionInfo,
    /// Produce validation data.
    ValidationData,
}

/// What the background task does next.
#[derive(Clone, Copy, Debug, PartialEq, Eq, Structural)]
pub enum PollAction {
    /// Go on listening.
    Continue,
    /// Serve the request, and send the answer if there is one to send.
    Serve(Request),
    /// Leave the loop; the task ends in good order.
    Finish,
    /// The task cannot go on and ends in a fault.
    Fault,
}

/// What the command named `name` asks of the background task.
pub open spec fn dispatch(name: Seq<char>) -> PollAction {
    if name == "get-version-info"@ {
        PollAction::Serve(Request::VersionInfo)
    } else if name == "get-validation-data"@ {
        PollAction::Serve(Request::ValidationData)
    } else if name == "pong"@ {
        PollAction::Continue
    } else {
        PollAction::Fault
    }
}

/// What the background task does about something that came off the socket.
pub open spec fn reaction(inbound: Inbound) -> PollAction {
    match inbound {
        Inbound::Nothing => PollAction::Continue,
        Inbound::Command(command) => dispatch(command.command@),
        Inbound::Malformed => PollAction::Fault,
        Inbound::Unusable => PollAction::Finish,
    }
}

/// Decides what the background task does about something that came off the
/// socket. A message is told by its command name: the two requests are
/// served, a keepalive acknowledgment needs nothing, and anything else is a
/// fault. Text that holds no message is a fault too; a frame that is no text
/// ends the task in good order.
pub fn on_inbound(inbound: &Inbound) -> (action: PollAction)
    ensures
        action == reaction(*inbound),
{
    match inbound {
        Inbound::Nothing => PollAction::Continue,
        Inbound::Command(command) => {
            if command.command == "get-version-info".to_owned() {
                PollAction::Serve(Request::VersionInfo)
            } else if command.command == "get-validation-data".to_owned() {
                PollAction::Serve(Request::ValidationData)
            } else if command.command == "pong".to_owned() {
                PollAction::Continue
            } else {
                PollAction::Fault
            }
        },
        Inbound::Malformed => PollAction::Fault,
        Inbound::Unusable => PollAction::Finish,
    }
}

/// The keepalive timer of one background task.
#[derive(Clone, Copy, Debug, PartialEq, Eq)]
pub struct Keepalive {
    /// When the task started or last sent a ping, in nanoseconds on a clock
    /// that never goes back.
    pub last_ping: u128,
}

impl Keepalive {
    /// When the next ping is due.
    pub open spec fn due_at(self) -> nat {
        self.last_ping as nat + PING_INTERVAL as nat
    }

    /// A timer that starts counting at `now`.
    pub fn start(now: u128) -> (timer: Keepalive)
        ensures
            timer.last_ping == now,
    {
        Keepalive { last_ping: now }
    }

    /// When the next ping is due, as far as the clock can tell it.
    pub fn deadline(&self) -> (at: u128)
        ensures
            at == if self.due_at() <= u128::MAX {
                self.due_at() as u128
            } else {
                u128::MAX
            },
    {
        if self.last_ping <= u128::MAX - PING_INTERVAL {
            self.last_ping + PING_INTERVAL
        } else {
            u128::MAX
        }
    }

    /// Looks at the clock: once a whole interval has passed since the last
    /// ping, a ping is to be sent and the interval starts anew at `now`.
    /// Before that nothing is to be sent and nothing changes.
    pub fn tick(&mut self, now: u128) -> (ping: Option<RelayCommand>)
        ensures
            match ping {
                Some(command) => {
                    &&& now >= old(self).due_at()
                    &&& command.is_ping()
                    &&& final(self).last_ping == now
                },
                None => now < old(self).due_at() && *final(self) == *old(self),
            },
    {
        if now >= self.last_ping && now - self.last_ping >= PING_INTERVAL {
            self.last_ping = now;
            Some(RelayCommand::ping())
        } else {
            None
        }
    }
}

/// The relay connection as a resource: where to connect, and the credentials
/// held so far.
#[derive(Debug, PartialEq, Eq)]
pub struct RelayResource {
    /// The address of the relay.
    pub url: String,
    /// The credentials that the relay assigned, once it has.
    pub state: Option<RelayState>,
}

/// A supervised relay connection.
pub type Relay<W> = ResourceManager<RelayResource, W>;

impl RelayResource {
    /// The retry policy of the relay connection: delays double from one
    /// second up to half a minute, and retrying never gives up.
    pub open spec fn policy() -> BackoffPolicy {
        BackoffPolicy { max_delay_secs: RELAY_MAX_DELAY_SECS, max_times: usize::MAX }
    }

    /// The retry policy of the relay connection.
    pub fn backoff() -> (policy: BackoffPolicy)
        ensures
            policy == Self::policy(),
    {
        BackoffPolicy { max_delay_secs: RELAY_MAX_DELAY_SECS, max_times: usize::MAX }
    }

    /// A supervised relay connection that has yet to be made.
    pub fn new<W>(url: String, state: Option<RelayState>) -> (relay: Relay<W>)
        ensures
            relay.wf(),
            relay@ == ManagerState::<W>::initial(Self::policy(), false),
            relay.held() == (RelayResource { url, state }),
    {
        ResourceManager::new(RelayResource { url, state }, Self::backoff(), false)
    }

    /// The message that opens the handshake: a registration request with the
    /// credentials known so far, or with an empty object to ask for new ones.
    pub fn registration(&self) -> (request: RelayCommand)
        ensures
            request.registers(self.state),
    {
        let data = match &self.state {
            Some(code) => CommandData::Code { code: code.clone() },
            None => CommandData::Empty {  },
        };
        RelayCommand { command: "register".to_owned(), id: None, data: Some(data) }
    }

    /// The credentials that a reply to the registration request assigns, if
    /// it assigns any.
    pub open spec fn assigned(reply: RelayCommand) -> Option<RelayState> {
        match reply.data {
            Some(CommandData::Code { code }) => Some(code),
            _ => None,
        }
    }

    /// Takes in the reply to the registration request. A reply that carries
    /// credentials completes the handshake: they become the credentials held.
    /// Any other reply is a fault of this attempt, and nothing changes.
    pub fn accept_registration(&mut self, reply: RelayCommand) -> (result: Result<(), RelayError>)
        ensures
            final(self).url == old(self).url,
            match Self::assigned(reply) {
                Some(code) => result is Ok && final(self).state == Some(code),
                None => {
                    &&& result matches Err(RelayError::ResourcePanic(text))
                    &&& text@ == "bad response!"@
                    &&& final(self).state == old(self).state
                },
            },
    {
        match reply.data {
            Some(CommandData::Code { code }) => {
                self.state = Some(code);
                Ok(())
            },
            _ => Err(RelayError::ResourcePanic("bad response!".to_owned())),
        }
    }
}

} // verus!
