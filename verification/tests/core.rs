use office_chat::directory::initialize_chat_data;
use office_chat::session::ChatState;
use office_chat::types::{
    ChatConfig, ChatMessage, ChatSession, ChatStatus, Employee, NewsItem,
};

#[test]
fn test_initialize_chat_data() {
    let chat_state = initialize_chat_data();

    // Offices and salespeople are seeded, the session table starts empty.
    assert_eq!(chat_state.offices.len(), 5);
    assert_eq!(chat_state.salespeople.len(), 7);
    assert!(chat_state.sessions.is_empty());

    let scranton_office = chat_state
        .offices
        .iter()
        .find(|o| o.id == "scranton")
        .expect("Scranton office should exist");
    assert_eq!(scranton_office.name, "Scranton");
    assert_eq!(scranton_office.location, "Scranton, PA");
    assert_eq!(scranton_office.available_salespeople.len(), 3);

    let michael = chat_state
        .salespeople
        .iter()
        .find(|s| s.id == "michael_scott")
        .expect("Michael Scott should exist");
    assert_eq!(michael.name, "Michael Scott");
    assert_eq!(michael.title, "Regional Manager");
    assert_eq!(michael.office_id, "scranton");
    assert_eq!(michael.is_available, true);
    assert_eq!(michael.quote, "That's what she said!");
}

#[test]
fn test_chat_status_enum() {
    let statuses = vec![
        ChatStatus::Pending,
        ChatStatus::Connected,
        ChatStatus::Waiting,
        ChatStatus::Ended,
        ChatStatus::Failed,
    ];

    assert_eq!(statuses.len(), 5);
}

#[test]
fn test_employee_creation() {
    let employee = Employee {
        name: "Test Employee".to_string(),
        title: "Test Title".to_string(),
        department: "Test Department".to_string(),
        years_service: 5,
        photo: "/test/photo.jpg".to_string(),
        quote: "Test quote".to_string(),
    };

    assert_eq!(employee.name, "Test Employee");
    assert_eq!(employee.years_service, 5);
}

#[test]
fn test_news_item_creation() {
    let news = NewsItem {
        title: "Test News".to_string(),
        content: "Test content".to_string(),
        date: "2024-01-01".to_string(),
        author: "Test Author".to_string(),
    };

    assert_eq!(news.title, "Test News");
    assert_eq!(news.author, "Test Author");
}

#[test]
fn test_chat_session_creation() {
    let session_id = uuid::Uuid::new_v4().as_u128();
    let now = chrono::Utc::now().timestamp_millis();

    let session = ChatSession {
        id: session_id,
        customer_id: Some("test_customer".to_string()),
        office_id: "scranton".to_string(),
        salesperson_id: Some("michael_scott".to_string()),
        status: ChatStatus::Connected,
        started_at: now,
        ended_at: None,
        messages: vec![],
    };

    assert_eq!(session.id, session_id);
    assert_eq!(session.customer_id, Some("test_customer".to_string()));
    assert_eq!(session.office_id, "scranton");
    assert!(session.ended_at.is_none());
    assert!(session.messages.is_empty());
}

#[test]
fn test_chat_message_creation() {
    let message_id = uuid::Uuid::new_v4().as_u128();
    let timestamp = chrono::Utc::now().timestamp_millis();

    let message = ChatMessage {
        id: message_id,
        sender: "customer".to_string(),
        content: "Hello, I need help with paper ordering".to_string(),
        timestamp,
    };

    assert_eq!(message.id, message_id);
    assert_eq!(message.sender, "customer");
    assert_eq!(message.content, "Hello, I need help with paper ordering");
}

#[test]
fn test_chat_config() {
    let config = ChatConfig {
        feature_enabled: true,
        admin_mode: false,
    };

    assert_eq!(config.feature_enabled, true);
    assert_eq!(config.admin_mode, false);

    let cloned_config = config.clone();
    assert_eq!(cloned_config.feature_enabled, config.feature_enabled);
    assert_eq!(cloned_config.admin_mode, config.admin_mode);
}

#[test]
fn test_chat_state_default() {
    let chat_state = ChatState::default();

    assert!(chat_state.sessions.is_empty());
    assert!(chat_state.offices.is_empty());
    assert!(chat_state.salespeople.is_empty());
}

#[test]
fn test_available_salespeople_by_office() {
    let chat_state = initialize_chat_data();

    let scranton_available = chat_state
        .salespeople
        .iter()
        .filter(|s| s.office_id == "scranton" && s.is_available)
        .count();
    assert_eq!(scranton_available, 3);

    let stamford_available = chat_state
        .salespeople
        .iter()
        .filter(|s| s.office_id == "stamford" && s.is_available)
        .count();
    assert_eq!(stamford_available, 1);

    let buffalo_available = chat_state
        .salespeople
        .iter()
        .filter(|s| s.office_id == "buffalo" && s.is_available)
        .count();
    assert_eq!(buffalo_available, 0);
}

#[test]
fn test_office_exists() {
    let chat_state = initialize_chat_data();

    assert!(chat_state.offices.iter().any(|o| o.id == "scranton"));
    assert!(chat_state.offices.iter().any(|o| o.id == "stamford"));
    assert!(chat_state.offices.iter().any(|o| o.id == "utica"));
    assert!(chat_state.offices.iter().any(|o| o.id == "nashua"));
    assert!(chat_state.offices.iter().any(|o| o.id == "buffalo"));

    assert!(!chat_state.offices.iter().any(|o| o.id == "nonexistent"));
}

#[test]
fn test_salesperson_exists() {
    let chat_state = initialize_chat_data();

    assert!(chat_state.salespeople.iter().any(|s| s.id == "michael_scott"));
    assert!(chat_state.salespeople.iter().any(|s| s.id == "jim_halpert"));
    assert!(chat_state.salespeople.iter().any(|s| s.id == "dwight_schrute"));

    assert!(!chat_state.salespeople.iter().any(|s| s.id == "nonexistent"));
}
