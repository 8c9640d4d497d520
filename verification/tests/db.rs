use p2pchat::db::sql_calls::{
    contacts_query, friend_request_param, parse_contact_row, parse_message_row, parse_sqlite_datetime,
    set_name_statement, ContactRow, MessageRow, CONTACT_BY_PEER_CLAUSE, CONTACT_SELECT, FRIENDS_CLAUSE,
    SQLITE_DATETIME_FMT,
};
use p2pchat::db::sql_calls::{
    message_insert_values, statements_for, SqlParam, Statement, INSERT_MESSAGE, INSERT_SENT_MESSAGE,
};
use p2pchat::network::events::DbOp;
use p2pchat::network::chat::Message as PeerMessage;
use p2pchat::types::{Contact, FriendRequestType, Name, NameType};

#[test]
fn sqlite_dates() {
    assert_eq!(SQLITE_DATETIME_FMT, "%Y-%m-%d %H:%M:%S");
    assert_eq!(parse_sqlite_datetime("1970-01-02 00:00:00"), Some(86_400));
    assert_eq!(parse_sqlite_datetime("2024-02-29 12:30:15"), Some(1_709_209_815));
    assert_eq!(parse_sqlite_datetime("2024-02-30 00:00:00"), None);
    assert_eq!(parse_sqlite_datetime(""), None);
}

#[test]
fn statements() {
    assert_eq!(set_name_statement(NameType::Central), "UPDATE contacts SET central_name_id = ? WHERE peer_id = ?");
    assert_eq!(set_name_statement(NameType::Provided), "UPDATE contacts SET provided_name_id = ? WHERE peer_id = ?");
    assert_eq!(contacts_query(FRIENDS_CLAUSE), format!("{} {}", CONTACT_SELECT, FRIENDS_CLAUSE));
    assert!(contacts_query(CONTACT_BY_PEER_CLAUSE).ends_with("WHERE c.peer_id = ?"));
    assert_eq!(friend_request_param(FriendRequestType::Outgoing), 1);
    assert_eq!(friend_request_param(FriendRequestType::Incoming), 0);
}

fn row() -> ContactRow {
    ContactRow {
        peer_id: "p".to_string(),
        channel_id: 4,
        central_content: None,
        central_ttl: None,
        provided_content: Some("pat".to_string()),
        provided_ttl: Some("1970-01-01 00:00:10".to_string()),
    }
}

#[test]
fn contact_rows() {
    assert_eq!(
        parse_contact_row(row()),
        Some(Contact {
            peer_id: "p".to_string(),
            central_name: None,
            provided_name: Some(Name { content: "pat".to_string(), ttl: 10 }),
            channel_id: 4
        })
    );
    let half = ContactRow { provided_ttl: None, ..row() };
    assert_eq!(parse_contact_row(half).unwrap().provided_name, None);
    let bad = ContactRow { provided_ttl: Some("later".to_string()), ..row() };
    assert_eq!(parse_contact_row(bad), None);
}

#[test]
fn message_rows() {
    let r = MessageRow {
        id: "00000000-0000-0000-0000-0000000000ff".to_string(),
        content: "hi".to_string(),
        created_at: "1970-01-01 00:01:00".to_string(),
    };
    let m = parse_message_row(r.clone(), 3).unwrap();
    assert_eq!(m.id, 255);
    assert_eq!(m.content, "hi");
    assert_eq!(m.created_at, 60);
    assert_eq!(m.sender.channel_id, 3);
    assert_eq!(m.sender.peer_id, "");
    assert_eq!(parse_message_row(MessageRow { id: "x".to_string(), ..r.clone() }, 3), None);
    assert_eq!(parse_message_row(MessageRow { created_at: "x".to_string(), ..r }, 3), None);
}

#[test]
fn stored_message_reads_back() {
    let m = PeerMessage { content: "hello".to_string(), id: 0x1234_5678_9abc_def0_1122_3344_5566_7788 };
    let (id, content, channel) = message_insert_values(m.clone(), 7);
    assert_eq!(id, "12345678-9abc-def0-1122-334455667788");
    assert_eq!(content, "hello");
    assert_eq!(channel, 7);
    assert!(INSERT_MESSAGE.starts_with("INSERT INTO messages"));
    let row = MessageRow { id, content, created_at: "2000-01-01 00:00:00".to_string() };
    let back = parse_message_row(row, channel).unwrap();
    assert_eq!(back.id, m.id);
    assert_eq!(back.content, m.content);
    assert_eq!(back.sender.channel_id, 7);
}

fn st(sql: &str, params: Vec<SqlParam>) -> Statement {
    Statement { sql: sql.to_string(), params }
}

#[test]
fn statements_for_changes() {
    assert_eq!(
        statements_for(DbOp::InsertContact { peer_id: "p".to_string() }),
        vec![
            st("INSERT INTO channels (name) VALUES (NULL)", vec![]),
            st(
                "INSERT INTO contacts (peer_id, private_channel_id) VALUES (?, ?)",
                vec![SqlParam::Text("p".to_string()), SqlParam::LastRowId]
            ),
        ]
    );
    assert_eq!(
        statements_for(DbOp::InsertName { peer_id: "p".to_string(), name_type: NameType::Central, content: "Al".to_string() }),
        vec![
            st("INSERT INTO names (content) VALUES (?)", vec![SqlParam::Text("Al".to_string())]),
            st(
                "UPDATE contacts SET central_name_id = ? WHERE peer_id = ?",
                vec![SqlParam::LastRowId, SqlParam::Text("p".to_string())]
            ),
        ]
    );
    assert_eq!(
        statements_for(DbOp::InsertMessage { message: PeerMessage { content: "c".to_string(), id: 1 }, channel_id: 3 }),
        vec![st(
            INSERT_MESSAGE,
            vec![
                SqlParam::Text("00000000-0000-0000-0000-000000000001".to_string()),
                SqlParam::Text("c".to_string()),
                SqlParam::Int(3)
            ]
        )]
    );
    assert_eq!(
        statements_for(DbOp::DeleteFriend { peer_id: "f".to_string() }),
        vec![st("DELETE FROM friends WHERE peer_id = ?", vec![SqlParam::Text("f".to_string())])]
    );
    assert_eq!(
        INSERT_SENT_MESSAGE,
        "INSERT INTO messages (id, content, channel_id) SELECT ?, ?, private_channel_id FROM contacts WHERE peer_id = ?"
    );
    assert_eq!(
        statements_for(DbOp::InsertSentMessage {
            message: PeerMessage { content: "hi".to_string(), id: 2 },
            receiver: "r".to_string(),
        }),
        vec![st(
            INSERT_SENT_MESSAGE,
            vec![
                SqlParam::Text("00000000-0000-0000-0000-000000000002".to_string()),
                SqlParam::Text("hi".to_string()),
                SqlParam::Text("r".to_string())
            ]
        )]
    );
    assert_eq!(
        statements_for(DbOp::InsertFriendRequest { request_type: FriendRequestType::Incoming, peer_id: "q".to_string() }),
        vec![st(
            "INSERT INTO pending_friend_requests (request_type, peer_id) VALUES (?, ?)",
            vec![SqlParam::Int(0), SqlParam::Text("q".to_string())]
        )]
    );
    assert_eq!(
        statements_for(DbOp::InsertFriend { peer_id: "f".to_string() }),
        vec![st("INSERT INTO friends (peer_id) VALUES (?)", vec![SqlParam::Text("f".to_string())])]
    );
    assert_eq!(
        statements_for(DbOp::DeleteFriendRequest { peer_id: "f".to_string() }),
        vec![st("DELETE FROM pending_friend_requests WHERE peer_id = ?", vec![SqlParam::Text("f".to_string())])]
    );
}
