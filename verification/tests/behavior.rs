use office_chat::chat::{end_chat, end_chat_at, get_offices, start_chat, start_chat_at};
use office_chat::directory::initialize_chat_data;
use office_chat::event_log::EventLog;
use office_chat::homepage::{homepage_employees, homepage_news, homepage_offices};
use office_chat::session::ChatState;
use office_chat::types::{ChatConfig, ChatError, ChatStartRequest, ChatStatus};

fn setup() -> (ChatState, EventLog, ChatConfig) {
    let state = initialize_chat_data();
    let log = EventLog::new();
    let config = ChatConfig {
        feature_enabled: true,
        admin_mode: false,
    };
    (state, log, config)
}

fn request(office_id: &str, customer_name: Option<&str>) -> ChatStartRequest {
    ChatStartRequest {
        office_id: office_id.to_string(),
        customer_name: customer_name.map(|c| c.to_string()),
    }
}

#[test]
fn test_get_offices_endpoint() {
    let (state, _log, config) = setup();

    let offices = get_offices(&state, &config).expect("get_offices should succeed");
    assert_eq!(offices.len(), 5);
    assert!(offices.iter().any(|o| o.id == "scranton"));
}

#[test]
fn test_start_chat_endpoint() {
    let (mut state, mut log, config) = setup();

    let response = start_chat(
        &mut state,
        &mut log,
        &config,
        request("scranton", Some("Test Customer")),
    )
    .expect("start_chat should succeed");

    assert_eq!(response.status, "connected");
    assert!(response.salesperson.is_some());
}

#[test]
fn test_start_chat_invalid_office() {
    let (mut state, mut log, config) = setup();

    let response = start_chat(
        &mut state,
        &mut log,
        &config,
        request("nonexistent", Some("Test Customer")),
    );

    assert!(matches!(response, Err(ChatError::UnknownOffice)));
}

#[test]
fn test_end_chat_endpoint() {
    let (mut state, mut log, config) = setup();

    let response = start_chat(
        &mut state,
        &mut log,
        &config,
        request("scranton", Some("Test Customer")),
    )
    .expect("start_chat should succeed");
    let session_id = response.session_id;

    let message =
        end_chat(&mut state, &mut log, &config, session_id).expect("end_chat should succeed");
    assert_eq!(message, "Chat ended successfully");
}

#[test]
fn test_end_chat_nonexistent_session() {
    let (mut state, mut log, config) = setup();

    let fake_session_id = uuid::Uuid::new_v4().as_u128();
    let response = end_chat(&mut state, &mut log, &config, fake_session_id);

    assert!(matches!(response, Err(ChatError::SessionNotFound)));
}

#[test]
fn test_feature_disabled() {
    let (state, _log, _config) = setup();
    let config = ChatConfig {
        feature_enabled: false,
        admin_mode: false,
    };

    let offices = get_offices(&state, &config);
    assert!(matches!(offices, Err(ChatError::FeatureDisabled)));
}

#[test]
fn test_feature_disabled_all_operations() {
    let (mut state, mut log, _config) = setup();
    let config = ChatConfig {
        feature_enabled: false,
        admin_mode: false,
    };

    assert!(matches!(
        get_offices(&state, &config),
        Err(ChatError::FeatureDisabled)
    ));
    assert!(matches!(
        start_chat(
            &mut state,
            &mut log,
            &config,
            request("scranton", Some("Test Customer")),
        ),
        Err(ChatError::FeatureDisabled)
    ));
    assert!(matches!(
        end_chat(&mut state, &mut log, &config, 7),
        Err(ChatError::FeatureDisabled)
    ));
    assert!(state.sessions.is_empty());
    assert!(log.records.is_empty());
}

#[test]
fn test_start_chat_scranton_first_available() {
    let (mut state, mut log, config) = setup();

    let response = start_chat_at(
        &mut state,
        &mut log,
        &config,
        request("scranton", None),
        7,
        42,
    )
    .expect("start_chat_at should succeed");

    assert_eq!(response.session_id, 7);
    assert_eq!(response.status, "connected");
    let salesperson = response.salesperson.expect("a salesperson must be assigned");
    assert!(
        salesperson.id == "michael_scott"
            || salesperson.id == "jim_halpert"
            || salesperson.id == "dwight_schrute"
    );
    assert_eq!(salesperson.id, "michael_scott");
    assert_eq!(salesperson.office_id, "scranton");
    assert_eq!(
        response.message,
        "Connected to Michael Scott from Scranton"
    );

    assert_eq!(state.sessions.len(), 1);
    let session = &state.sessions[0];
    assert_eq!(session.id, 7);
    assert_eq!(session.office_id, "scranton");
    assert_eq!(session.salesperson_id, Some("michael_scott".to_string()));
    assert!(matches!(session.status, ChatStatus::Connected));
    assert_eq!(session.started_at, 42);
    assert_eq!(session.ended_at, None);
    assert!(session.messages.is_empty());

    assert_eq!(log.records.len(), 1);
    let record = &log.records[0];
    assert_eq!(record.event_type, "chat_started");
    assert_eq!(record.session_id, 7);
    assert_eq!(record.office_id, "scranton");
    assert_eq!(record.salesperson_id, Some("michael_scott".to_string()));
    assert_eq!(record.timestamp, 42);
    assert_eq!(record.details, "Chat started for office: Scranton");
}

#[test]
fn test_start_chat_buffalo_waiting() {
    let (mut state, mut log, config) = setup();

    let response = start_chat_at(
        &mut state,
        &mut log,
        &config,
        request("buffalo", Some("Test Customer")),
        9,
        100,
    )
    .expect("start_chat_at should succeed");

    assert_eq!(response.status, "waiting");
    assert!(response.salesperson.is_none());
    assert_eq!(
        response.message,
        "All Buffalo representatives are currently busy. You are in queue."
    );

    assert_eq!(state.sessions.len(), 1);
    let session = &state.sessions[0];
    assert_eq!(session.customer_id, Some("Test Customer".to_string()));
    assert_eq!(session.salesperson_id, None);
    assert!(matches!(session.status, ChatStatus::Waiting));

    assert_eq!(log.records.len(), 1);
    assert_eq!(log.records[0].salesperson_id, None);
}

#[test]
fn test_start_chat_unknown_office_mutates_nothing() {
    let (mut state, mut log, config) = setup();

    let response = start_chat(&mut state, &mut log, &config, request("nonexistent", None));

    assert!(matches!(response, Err(ChatError::UnknownOffice)));
    assert!(state.sessions.is_empty());
    assert!(log.records.is_empty());
}

#[test]
fn test_end_chat_twice_restamps() {
    let (mut state, mut log, config) = setup();

    start_chat_at(&mut state, &mut log, &config, request("scranton", None), 7, 42)
        .expect("start_chat_at should succeed");

    let first = end_chat_at(&mut state, &mut log, &config, 7, 1000)
        .expect("first end_chat_at should succeed");
    assert_eq!(first, "Chat ended successfully");
    assert!(matches!(state.sessions[0].status, ChatStatus::Ended));
    assert_eq!(state.sessions[0].ended_at, Some(1000));

    let second = end_chat_at(&mut state, &mut log, &config, 7, 2000)
        .expect("second end_chat_at should succeed");
    assert_eq!(second, "Chat ended successfully");
    assert!(matches!(state.sessions[0].status, ChatStatus::Ended));
    assert_eq!(state.sessions[0].ended_at, Some(2000));

    // One start record and two end records were emitted.
    assert_eq!(log.records.len(), 3);
    assert_eq!(log.records[1].event_type, "chat_ended");
    assert_eq!(log.records[2].event_type, "chat_ended");
    assert_eq!(log.records[1].timestamp, 1000);
    assert_eq!(log.records[2].timestamp, 2000);
    assert_eq!(log.records[1].details, "Chat ended by user");
}

#[test]
fn test_end_chat_unknown_mutates_nothing() {
    let (mut state, mut log, config) = setup();

    start_chat_at(&mut state, &mut log, &config, request("scranton", None), 7, 42)
        .expect("start_chat_at should succeed");

    let response = end_chat(&mut state, &mut log, &config, 8);
    assert!(matches!(response, Err(ChatError::SessionNotFound)));
    assert_eq!(state.sessions.len(), 1);
    assert!(matches!(state.sessions[0].status, ChatStatus::Connected));
    assert_eq!(state.sessions[0].ended_at, None);
    assert_eq!(log.records.len(), 1);
}

#[test]
fn test_start_chat_fresh_identifiers_differ() {
    let (mut state, mut log, config) = setup();

    let first = start_chat(&mut state, &mut log, &config, request("scranton", None))
        .expect("start_chat should succeed");
    let second = start_chat(&mut state, &mut log, &config, request("scranton", None))
        .expect("start_chat should succeed");

    assert_ne!(first.session_id, second.session_id);
    assert_eq!(state.sessions.len(), 2);
}

#[test]
fn test_seed_referential_integrity() {
    let state = initialize_chat_data();

    for salesperson in &state.salespeople {
        assert!(
            state.offices.iter().any(|o| o.id == salesperson.office_id),
            "office of {} must exist",
            salesperson.id
        );
    }
}

#[test]
fn test_get_offices_contents() {
    let (state, _log, config) = setup();

    let offices = get_offices(&state, &config).expect("get_offices should succeed");
    assert_eq!(offices.len(), state.offices.len());
    for (given, seeded) in offices.iter().zip(state.offices.iter()) {
        assert_eq!(given.id, seeded.id);
        assert_eq!(given.name, seeded.name);
        assert_eq!(given.location, seeded.location);
        assert_eq!(given.available_salespeople, seeded.available_salespeople);
    }
}

#[test]
fn test_homepage_data() {
    let (state, _log, config) = setup();

    let employees = homepage_employees();
    assert_eq!(employees.len(), 4);
    assert_eq!(employees[0].name, "Michael Scott");
    assert_eq!(employees[3].name, "Pam Beesly");

    let news = homepage_news();
    assert_eq!(news.len(), 3);
    assert_eq!(news[0].title, "Infinity 2.0 Launch: Revolutionary Upgrade!");

    let shown = homepage_offices(&state, &config);
    assert_eq!(shown.len(), 5);

    let disabled = ChatConfig {
        feature_enabled: false,
        admin_mode: false,
    };
    let hidden = homepage_offices(&state, &disabled);
    assert!(hidden.is_empty());
}

#[test]
fn test_stamford_skips_unavailable() {
    let (mut state, mut log, config) = setup();

    // Karen precedes Andy in catalog order but is unavailable; the first
    // available salesperson of Stamford is Andy.
    let response = start_chat_at(
        &mut state,
        &mut log,
        &config,
        request("stamford", None),
        11,
        50,
    )
    .expect("start_chat_at should succeed");

    assert_eq!(response.status, "connected");
    let salesperson = response.salesperson.expect("a salesperson must be assigned");
    assert_eq!(salesperson.id, "andy_bernard");
}
