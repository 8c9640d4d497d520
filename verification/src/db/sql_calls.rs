//! The statements of the local database, and the reading of its rows.
use vstd::prelude::*;
use crate::bridge::{naive_datetime_seconds, parse_datetime_seconds, parse_uuid, uuid_hyphenated, uuid_text, uuid_text_value};
use crate::network::chat;
use crate::network::events::DbOp;
use crate::types::{Contact, FriendRequestType, Message, Name, NameType, friend_request_type_code};

verus! {

/// How the database writes dates and times.
pub const SQLITE_DATETIME_FMT: &'static str = "%Y-%m-%d %H:%M:%S";

/// The seconds since the Unix epoch of a date and time as the database writes
/// it, if `s` is one.
pub fn parse_sqlite_datetime(s: &str) -> (r: Option<i64>)
    ensures
        r == naive_datetime_seconds(s@, SQLITE_DATETIME_FMT@),
{
    parse_datetime_seconds(s, SQLITE_DATETIME_FMT)
}

/// The column of the contacts table that points at a name of this kind.
pub open spec fn name_column_spec(t: NameType) -> Seq<char> {
    match t {
        NameType::Central => "central_name_id"@,
        NameType::Provided => "provided_name_id"@,
    }
}

impl NameType {
    /// The column of the contacts table that points at a name of this kind.
    pub fn column(&self) -> (r: &'static str)
        ensures
            r@ == name_column_spec(*self),
    {
        match self {
            NameType::Central => "central_name_id",
            NameType::Provided => "provided_name_id",
        }
    }
}

/// The statement that points a contact's name of kind `t` at a stored name.
pub fn set_name_statement(t: NameType) -> (r: String)
    ensures
        r@ == "UPDATE contacts SET "@ + name_column_spec(t) + " = ? WHERE peer_id = ?"@,
{
    String::from_str("UPDATE contacts SET ").concat(t.column()).concat(" = ? WHERE peer_id = ?")
}

/// The query that reads contacts together with both their names.
pub const CONTACT_SELECT: &'static str = "SELECT c.peer_id, c.private_channel_id, cn.content, cn.ttl, pn.content, pn.ttl FROM contacts AS c LEFT JOIN names AS cn ON c.central_name_id = cn.id LEFT JOIN names AS pn ON c.provided_name_id = pn.id";

/// The contact query restricted by `clause`.
pub fn contacts_query(clause: &str) -> (r: String)
    ensures
        r@ == CONTACT_SELECT@ + " "@ + clause@,
{
    String::from_str(CONTACT_SELECT).concat(" ").concat(clause)
}

/// The clause that keeps the friends.
pub const FRIENDS_CLAUSE: &'static str = "INNER JOIN friends AS f ON c.peer_id = f.peer_id";

/// The clause that keeps the contacts with a pending friend request of a given
/// direction.
pub const FRIEND_REQUESTS_CLAUSE: &'static str = "INNER JOIN pending_friend_requests AS p ON c.peer_id = p.peer_id WHERE p.request_type = ?";

/// The clause that picks one contact by peer id.
pub const CONTACT_BY_PEER_CLAUSE: &'static str = "WHERE c.peer_id = ?";

/// The value stored for a friend request of the given direction.
pub fn friend_request_param(t: FriendRequestType) -> (r: u8)
    ensures
        r == friend_request_type_code(t),
{
    t.to_u8()
}

/// The statement that stores a message: its id, its content, its channel.
pub const INSERT_MESSAGE: &'static str = "INSERT INTO messages (id, content, channel_id) VALUES (?, ?, ?)";

/// The statement that stores a message sent to a contact: its id, its
/// content, and the contact's channel, looked up by the contact's peer id.
pub const INSERT_SENT_MESSAGE: &'static str =
    "INSERT INTO messages (id, content, channel_id) SELECT ?, ?, private_channel_id FROM contacts WHERE peer_id = ?";

/// The values that store message `m` in channel `channel_id`: the id as the
/// text that reads back as the id, the content, the channel.
pub fn message_insert_values(m: chat::Message, channel_id: i64) -> (r: (String, String, i64))
    ensures
        r.0@ == uuid_hyphenated(m.id),
        uuid_text_value(r.0@) == Some(m.id),
        r.1 == m.content,
        r.2 == channel_id,
{
    (uuid_text(m.id), m.content, channel_id)
}

/// A row of the contact query.
#[derive(Debug, Clone, PartialEq, Eq)]
pub struct ContactRow {
    pub peer_id: String,
    pub channel_id: i64,
    pub central_content: Option<String>,
    pub central_ttl: Option<String>,
    pub provided_content: Option<String>,
    pub provided_ttl: Option<String>,
}

/// The name that a content column and a ttl column give: none unless both are
/// present, and nothing at all (`None` outside) when the ttl is not a date.
pub open spec fn name_from_columns_spec(content: Option<String>, ttl: Option<String>) -> Option<Option<Name>> {
    match (content, ttl) {
        (Some(c), Some(t)) => match naive_datetime_seconds(t@, SQLITE_DATETIME_FMT@) {
            Some(secs) => Some(Some(Name { content: c, ttl: secs })),
            None => None,
        },
        _ => Some(None),
    }
}

fn name_from_columns(content: Option<String>, ttl: Option<String>) -> (r: Option<Option<Name>>)
    ensures
        r == name_from_columns_spec(content, ttl),
{
    match (content, ttl) {
        (Some(c), Some(t)) => match parse_sqlite_datetime(t.as_str()) {
            Some(secs) => Some(Some(Name { content: c, ttl: secs })),
            None => None,
        },
        _ => Some(None),
    }
}

/// The contact that a row of the contact query describes; `None` when a name
/// is present with a ttl that is not a date.
pub fn parse_contact_row(row: ContactRow) -> (r: Option<Contact>)
    ensures
        match (
            name_from_columns_spec(row.central_content, row.central_ttl),
            name_from_columns_spec(row.provided_content, row.provided_ttl),
        ) {
            (Some(central), Some(provided)) => r == Some(
                Contact { peer_id: row.peer_id, central_name: central, provided_name: provided, channel_id: row.channel_id },
            ),
            _ => r is None,
        },
{
    let central = name_from_columns(row.central_content, row.central_ttl);
    let provided = name_from_columns(row.provided_content, row.provided_ttl);
    match (central, provided) {
        (Some(central_name), Some(provided_name)) => Some(
            Contact { peer_id: row.peer_id, central_name, provided_name, channel_id: row.channel_id },
        ),
        _ => None,
    }
}

/// A row of the chat-log query.
#[derive(Debug, Clone, PartialEq, Eq)]
pub struct MessageRow {
    pub id: String,
    pub content: String,
    pub created_at: String,
}

/// The message that a row of the chat log of channel `channel_id` describes:
/// its sender is known by the channel alone. `None` when the id is not a UUID
/// or the creation time is not a date.
pub fn parse_message_row(row: MessageRow, channel_id: i64) -> (r: Option<Message>)
    ensures
        match (uuid_text_value(row.id@), naive_datetime_seconds(row.created_at@, SQLITE_DATETIME_FMT@)) {
            (Some(id), Some(created_at)) => r matches Some(m) && m.id == id && m.content == row.content
                && m.created_at == created_at && m.sender.peer_id@.len() == 0 && m.sender.central_name is None
                && m.sender.provided_name is None && m.sender.channel_id == channel_id,
            _ => r is None,
        },
{
    let id = parse_uuid(row.id.as_str());
    let created_at = parse_sqlite_datetime(row.created_at.as_str());
    match (id, created_at) {
        (Some(id), Some(created_at)) => Some(
            Message {
                id,
                content: row.content,
                sender: Contact { peer_id: String::new(), central_name: None, provided_name: None, channel_id },
                created_at,
            },
        ),
        _ => None,
    }
}

/// A value bound to a statement's parameter.
#[derive(Debug, Clone, PartialEq, Eq)]
pub enum SqlParam {
    Text(String),
    Int(i64),
    /// The row id that the statement before this one inserted.
    LastRowId,
}

/// A parameter by its value.
pub ghost enum SqlParamView {
    Text(Seq<char>),
    Int(i64),
    LastRowId,
}

impl View for SqlParam {
    type V = SqlParamView;

    open spec fn view(&self) -> SqlParamView {
        match self {
            SqlParam::Text(t) => SqlParamView::Text(t@),
            SqlParam::Int(n) => SqlParamView::Int(*n),
            SqlParam::LastRowId => SqlParamView::LastRowId,
        }
    }
}

/// A statement and the values bound to its parameters.
#[derive(Debug, Clone, PartialEq, Eq)]
pub struct Statement {
    pub sql: String,
    pub params: Vec<SqlParam>,
}

/// A statement by its text and the values of its parameters.
pub open spec fn statement_view(s: Statement) -> (Seq<char>, Seq<SqlParamView>) {
    (s.sql@, s.params@.map_values(|p: SqlParam| p@))
}

/// The statements that carry out change `op`, to be run in order.
pub open spec fn statements_spec(op: DbOp) -> Seq<(Seq<char>, Seq<SqlParamView>)> {
    match op {
        DbOp::InsertContact { peer_id } => seq![
            ("INSERT INTO channels (name) VALUES (NULL)"@, seq![]),
            (
                "INSERT INTO contacts (peer_id, private_channel_id) VALUES (?, ?)"@,
                seq![SqlParamView::Text(peer_id@), SqlParamView::LastRowId],
            ),
        ],
        DbOp::InsertName { peer_id, name_type, content } => seq![
            ("INSERT INTO names (content) VALUES (?)"@, seq![SqlParamView::Text(content@)]),
            (
                "UPDATE contacts SET "@ + name_column_spec(name_type) + " = ? WHERE peer_id = ?"@,
                seq![SqlParamView::LastRowId, SqlParamView::Text(peer_id@)],
            ),
        ],
        DbOp::InsertMessage { message, channel_id } => seq![
            (
                INSERT_MESSAGE@,
                seq![
                    SqlParamView::Text(uuid_hyphenated(message.id)),
                    SqlParamView::Text(message.content@),
                    SqlParamView::Int(channel_id),
                ],
            ),
        ],
        DbOp::InsertSentMessage { message, receiver } => seq![
            (
                INSERT_SENT_MESSAGE@,
                seq![
                    SqlParamView::Text(uuid_hyphenated(message.id)),
                    SqlParamView::Text(message.content@),
                    SqlParamView::Text(receiver@),
                ],
            ),
        ],
        DbOp::InsertFriend { peer_id } => seq![
            ("INSERT INTO friends (peer_id) VALUES (?)"@, seq![SqlParamView::Text(peer_id@)]),
        ],
        DbOp::DeleteFriend { peer_id } => seq![
            ("DELETE FROM friends WHERE peer_id = ?"@, seq![SqlParamView::Text(peer_id@)]),
        ],
        DbOp::DeleteFriendRequest { peer_id } => seq![
            ("DELETE FROM pending_friend_requests WHERE peer_id = ?"@, seq![SqlParamView::Text(peer_id@)]),
        ],
        DbOp::InsertFriendRequest { request_type, peer_id } => seq![
            (
                "INSERT INTO pending_friend_requests (request_type, peer_id) VALUES (?, ?)"@,
                seq![SqlParamView::Int(friend_request_type_code(request_type) as i64), SqlParamView::Text(peer_id@)],
            ),
        ],
    }
}

/// The statement `sql` with the parameters `params`.
fn statement(sql: String, params: Vec<SqlParam>) -> (r: Statement)
    ensures
        r.sql == sql,
        r.params == params,
{
    Statement { sql, params }
}

/// The statements that carry out change `op`, to be run in order: a contact
/// gets a channel of its own, a name is stored and then pointed at from the
/// contact, and the other changes take one statement each.
pub fn statements_for(op: DbOp) -> (r: Vec<Statement>)
    ensures
        r@.map_values(|s: Statement| statement_view(s)) == statements_spec(op),
{
    let ghost g = op;
    let mut r: Vec<Statement> = Vec::new();
    match op {
        DbOp::InsertContact { peer_id } => {
            r.push(statement(String::from_str("INSERT INTO channels (name) VALUES (NULL)"), Vec::new()));
            let mut ps: Vec<SqlParam> = Vec::new();
            ps.push(SqlParam::Text(peer_id));
            ps.push(SqlParam::LastRowId);
            r.push(statement(String::from_str("INSERT INTO contacts (peer_id, private_channel_id) VALUES (?, ?)"), ps));
        },
        DbOp::InsertName { peer_id, name_type, content } => {
            let mut first: Vec<SqlParam> = Vec::new();
            first.push(SqlParam::Text(content));
            r.push(statement(String::from_str("INSERT INTO names (content) VALUES (?)"), first));
            let mut second: Vec<SqlParam> = Vec::new();
            second.push(SqlParam::LastRowId);
            second.push(SqlParam::Text(peer_id));
            r.push(statement(set_name_statement(name_type), second));
        },
        DbOp::InsertMessage { message, channel_id } => {
            let (id, content, channel) = message_insert_values(message, channel_id);
            let mut ps: Vec<SqlParam> = Vec::new();
            ps.push(SqlParam::Text(id));
            ps.push(SqlParam::Text(content));
            ps.push(SqlParam::Int(channel));
            r.push(statement(String::from_str(INSERT_MESSAGE), ps));
        },
        DbOp::InsertSentMessage { message, receiver } => {
            let mut ps: Vec<SqlParam> = Vec::new();
            ps.push(SqlParam::Text(uuid_text(message.id)));
            ps.push(SqlParam::Text(message.content));
            ps.push(SqlParam::Text(receiver));
            r.push(statement(String::from_str(INSERT_SENT_MESSAGE), ps));
        },
        DbOp::InsertFriend { peer_id } => {
            let mut ps: Vec<SqlParam> = Vec::new();
            ps.push(SqlParam::Text(peer_id));
            r.push(statement(String::from_str("INSERT INTO friends (peer_id) VALUES (?)"), ps));
        },
        DbOp::DeleteFriend { peer_id } => {
            let mut ps: Vec<SqlParam> = Vec::new();
            ps.push(SqlParam::Text(peer_id));
            r.push(statement(String::from_str("DELETE FROM friends WHERE peer_id = ?"), ps));
        },
        DbOp::DeleteFriendRequest { peer_id } => {
            let mut ps: Vec<SqlParam> = Vec::new();
            ps.push(SqlParam::Text(peer_id));
            r.push(statement(String::from_str("DELETE FROM pending_friend_requests WHERE peer_id = ?"), ps));
        },
        DbOp::InsertFriendRequest { request_type, peer_id } => {
            let mut ps: Vec<SqlParam> = Vec::new();
            ps.push(SqlParam::Int(friend_request_param(request_type) as i64));
            ps.push(SqlParam::Text(peer_id));
            r.push(
                statement(String::from_str("INSERT INTO pending_friend_requests (request_type, peer_id) VALUES (?, ?)"), ps),
            );
        },
    }
    proof {
        let v = r@.map_values(|s: Statement| statement_view(s));
        let e = statements_spec(g);
        assert(v.len() == e.len());
        assert forall|i: int| 0 <= i < v.len() implies v[i] == e[i] by {
            assert(v[i].1 =~= e[i].1);
        }
        assert(v =~= e);
    }
    r
}

} // verus!
