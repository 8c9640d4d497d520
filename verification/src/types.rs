//! The chat's data model: how a peer was found, the direction of a friend
//! request, the delivery state of a message, names, contacts and messages.
use vstd::prelude::*;

verus! {

/// The address of the HTTP tracker that maps usernames to peer ids.
pub const HTTP_TRACKER: &'static str = "127.0.0.1:8000";

/// A one-byte code that names no variant of the enum it was read as.
#[derive(Debug, Clone, Copy, PartialEq, Eq, Structural)]
pub struct UnknownDiscriminant {
    pub number: u8,
}

/// How a contact became known.
#[derive(Debug, Clone, Copy, PartialEq, Eq, Structural)]
pub enum DiscoveryType {
    Mdns,
    Tracker,
    You,
}

/// Whether a friend request was received or sent.
#[derive(Debug, Clone, Copy, PartialEq, Eq, Structural)]
pub enum FriendRequestType {
    Incoming,
    Outgoing,
}

/// The delivery and reading state of a message.
#[derive(Debug, Clone, Copy, PartialEq, Eq, Structural)]
pub enum MessageStatus {
    ReceivedNotRead,
    ReceivedRead,
    SentOffNotRead,
    SentOffRead,
}

/// Which of a contact's two names is meant: the one registered with the
/// tracker, or the one the peer itself provided.
#[derive(Debug, Clone, Copy, PartialEq, Eq, Structural)]
pub enum NameType {
    Central,
    Provided,
}

pub open spec fn discovery_type_code(d: DiscoveryType) -> u8 {
    match d {
        DiscoveryType::Mdns => 0,
        DiscoveryType::Tracker => 1,
        DiscoveryType::You => 2,
    }
}

pub open spec fn discovery_type_from_code(n: u8) -> Result<DiscoveryType, UnknownDiscriminant> {
    if n == 0 {
        Ok(DiscoveryType::Mdns)
    } else if n == 1 {
        Ok(DiscoveryType::Tracker)
    } else if n == 2 {
        Ok(DiscoveryType::You)
    } else {
        Err(UnknownDiscriminant { number: n })
    }
}

pub open spec fn friend_request_type_code(t: FriendRequestType) -> u8 {
    match t {
        FriendRequestType::Incoming => 0,
        FriendRequestType::Outgoing => 1,
    }
}

pub open spec fn friend_request_type_from_code(n: u8) -> Result<FriendRequestType, UnknownDiscriminant> {
    if n == 0 {
        Ok(FriendRequestType::Incoming)
    } else if n == 1 {
        Ok(FriendRequestType::Outgoing)
    } else {
        Err(UnknownDiscriminant { number: n })
    }
}

pub open spec fn message_status_code(s: MessageStatus) -> u8 {
    match s {
        MessageStatus::ReceivedNotRead => 0,
        MessageStatus::ReceivedRead => 1,
        MessageStatus::SentOffNotRead => 2,
        MessageStatus::SentOffRead => 3,
    }
}

pub open spec fn message_status_from_code(n: u8) -> Result<MessageStatus, UnknownDiscriminant> {
    if n == 0 {
        Ok(MessageStatus::ReceivedNotRead)
    } else if n == 1 {
        Ok(MessageStatus::ReceivedRead)
    } else if n == 2 {
        Ok(MessageStatus::SentOffNotRead)
    } else if n == 3 {
        Ok(MessageStatus::SentOffRead)
    } else {
        Err(UnknownDiscriminant { number: n })
    }
}

pub open spec fn name_type_code(t: NameType) -> u8 {
    match t {
        NameType::Central => 0,
        NameType::Provided => 1,
    }
}

pub open spec fn name_type_from_code(n: u8) -> Result<NameType, UnknownDiscriminant> {
    if n == 0 {
        Ok(NameType::Central)
    } else if n == 1 {
        Ok(NameType::Provided)
    } else {
        Err(UnknownDiscriminant { number: n })
    }
}

impl DiscoveryType {
    /// The code under which the variant is stored.
    pub fn to_u8(&self) -> (r: u8)
        ensures
            r == discovery_type_code(*self),
    {
        match self {
            DiscoveryType::Mdns => 0,
            DiscoveryType::Tracker => 1,
            DiscoveryType::You => 2,
        }
    }

    /// The variant stored under `number`.
    pub fn try_from_primitive(number: u8) -> (r: Result<Self, UnknownDiscriminant>)
        ensures
            r == discovery_type_from_code(number),
    {
        if number == 0 {
            Ok(DiscoveryType::Mdns)
        } else if number == 1 {
            Ok(DiscoveryType::Tracker)
        } else if number == 2 {
            Ok(DiscoveryType::You)
        } else {
            Err(UnknownDiscriminant { number })
        }
    }
}

impl FriendRequestType {
    /// The code under which the variant is stored.
    pub fn to_u8(&self) -> (r: u8)
        ensures
            r == friend_request_type_code(*self),
    {
        match self {
            FriendRequestType::Incoming => 0,
            FriendRequestType::Outgoing => 1,
        }
    }

    /// The variant stored under `number`.
    pub fn try_from_primitive(number: u8) -> (r: Result<Self, UnknownDiscriminant>)
        ensures
            r == friend_request_type_from_code(number),
    {
        if number == 0 {
            Ok(FriendRequestType::Incoming)
        } else if number == 1 {
            Ok(FriendRequestType::Outgoing)
        } else {
            Err(UnknownDiscriminant { number })
        }
    }
}

impl MessageStatus {
    /// The code under which the variant is stored.
    pub fn to_u8(&self) -> (r: u8)
        ensures
            r == message_status_code(*self),
    {
        match self {
            MessageStatus::ReceivedNotRead => 0,
            MessageStatus::ReceivedRead => 1,
            MessageStatus::SentOffNotRead => 2,
            MessageStatus::SentOffRead => 3,
        }
    }

    /// The variant stored under `number`.
    pub fn try_from_primitive(number: u8) -> (r: Result<Self, UnknownDiscriminant>)
        ensures
            r == message_status_from_code(number),
    {
        if number == 0 {
            Ok(MessageStatus::ReceivedNotRead)
        } else if number == 1 {
            Ok(MessageStatus::ReceivedRead)
        } else if number == 2 {
            Ok(MessageStatus::SentOffNotRead)
        } else if number == 3 {
            Ok(MessageStatus::SentOffRead)
        } else {
            Err(UnknownDiscriminant { number })
        }
    }
}

impl NameType {
    /// The code under which the variant is stored.
    pub fn to_u8(&self) -> (r: u8)
        ensures
            r == name_type_code(*self),
    {
        match self {
            NameType::Central => 0,
            NameType::Provided => 1,
        }
    }

    /// The variant stored under `number`.
    pub fn try_from_primitive(number: u8) -> (r: Result<Self, UnknownDiscriminant>)
        ensures
            r == name_type_from_code(number),
    {
        if number == 0 {
            Ok(NameType::Central)
        } else if number == 1 {
            Ok(NameType::Provided)
        } else {
            Err(UnknownDiscriminant { number })
        }
    }
}

/// Reading back the code of a variant gives the variant, for each of the
/// four stored enums.
pub proof fn law_codes_roundtrip(
    d: DiscoveryType,
    f: FriendRequestType,
    m: MessageStatus,
    t: NameType,
)
    ensures
        discovery_type_from_code(discovery_type_code(d)) == Ok::<DiscoveryType, UnknownDiscriminant>(d),
        friend_request_type_from_code(friend_request_type_code(f)) == Ok::<FriendRequestType, UnknownDiscriminant>(f),
        message_status_from_code(message_status_code(m)) == Ok::<MessageStatus, UnknownDiscriminant>(m),
        name_type_from_code(name_type_code(t)) == Ok::<NameType, UnknownDiscriminant>(t),
{
}

/// A code that is read as a variant is that variant's code, and the codes in
/// use are exactly the first few numbers.
pub proof fn law_codes_exact(n: u8)
    ensures
        discovery_type_from_code(n) is Ok <==> n < 3,
        friend_request_type_from_code(n) is Ok <==> n < 2,
        message_status_from_code(n) is Ok <==> n < 4,
        name_type_from_code(n) is Ok <==> n < 2,
        discovery_type_from_code(n) matches Ok(d) ==> discovery_type_code(d) == n,
        friend_request_type_from_code(n) matches Ok(f) ==> friend_request_type_code(f) == n,
        message_status_from_code(n) matches Ok(m) ==> message_status_code(m) == n,
        name_type_from_code(n) matches Ok(t) ==> name_type_code(t) == n,
{
}

/// A name together with the time until which it is considered current, in
/// seconds since the Unix epoch.
#[derive(Debug, Clone, PartialEq, Eq)]
pub struct Name {
    pub content: String,
    pub ttl: i64,
}

/// A peer known to this node, with the names known for it and the channel of
/// its private conversation.
#[derive(Debug, Clone, PartialEq, Eq)]
pub struct Contact {
    pub peer_id: String,
    pub central_name: Option<Name>,
    pub provided_name: Option<Name>,
    pub channel_id: i64,
}

/// A chat message: its text, its 128-bit identifier, who sent it and when it
/// was created, in seconds since the Unix epoch.
#[derive(Debug, Clone, PartialEq, Eq)]
pub struct Message {
    pub content: String,
    pub id: u128,
    pub sender: Contact,
    pub created_at: i64,
}

/// What the tracker answers to a search: a peer id and its username.
#[derive(Debug, Clone, PartialEq, Eq)]
pub struct PeerSearchResponse {
    pub peer_id: String,
    pub username: String,
}

/// The signed payload of a username registration.
#[derive(Debug, Clone, PartialEq, Eq)]
pub struct UsernamePayload {
    pub username: String,
}

/// What the tracker answers to a registration.
#[derive(Debug, Clone, PartialEq, Eq)]
pub struct RegisterResponse {
    pub peer_id: String,
    pub username: String,
}

/// The text of an optional string.
pub open spec fn opt_string_view(o: Option<String>) -> Option<Seq<char>> {
    match o {
        Some(s) => Some(s@),
        None => None,
    }
}

/// The name under which a contact is shown: the tracker-registered name when
/// there is one, otherwise the name the peer provided.
pub open spec fn contact_display_name_spec(c: Contact) -> Option<Seq<char>> {
    match c.central_name {
        Some(n) => Some(n.content@),
        None => match c.provided_name {
            Some(n) => Some(n.content@),
            None => None,
        },
    }
}

impl Contact {
    /// The name under which the contact is shown, if any name is known.
    pub fn display_name(&self) -> (r: Option<String>)
        ensures
            opt_string_view(r) == contact_display_name_spec(*self),
    {
        match &self.central_name {
            Some(n) => Some(n.content.clone()),
            None => match &self.provided_name {
                Some(n) => Some(n.content.clone()),
                None => None,
            },
        }
    }
}

} // verus!
