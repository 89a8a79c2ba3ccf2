//! The chat operations: starting a chat (matching the customer to the first
//! available salesperson of the requested office), ending a chat, and
//! listing the offices, each guarded by the feature flag and each recorded
//! in the event log.

use vstd::prelude::*;
use vstd::string::StringExecFns;

use crate::directory::{
    find_available_salesperson, find_office, is_first_available_index, is_first_office_index,
    office_id_exists, some_available,
};
use crate::event_log::{log_appended, log_chat_event, EventLog};
use crate::session::{
    find_session, has_session, is_first_session_index, put_session, sessions_put,
    stored_statuses_ok, ChatState,
};
use crate::types::{
    office_eq, ChatConfig, ChatError, ChatSession, ChatStartRequest, ChatStartResponse,
    ChatStatus, Office,
};

verus! {

/// The message returned when a salesperson was assigned.
pub open spec fn connected_message(sp_name: Seq<char>, office_name: Seq<char>) -> Seq<char> {
    "Connected to "@ + sp_name + " from "@ + office_name
}

/// The message returned when no salesperson was available.
pub open spec fn waiting_message(office_name: Seq<char>) -> Seq<char> {
    "All "@ + office_name + " representatives are currently busy. You are in queue."@
}

/// The detail text of a start record in the event log.
pub open spec fn started_details(office_name: Seq<char>) -> Seq<char> {
    "Chat started for office: "@ + office_name
}

fn make_connected_message(sp_name: &String, office_name: &String) -> (r: String)
    ensures
        r@ == connected_message(sp_name@, office_name@),
{
    let mut m = String::from_str("Connected to ");
    m.append(sp_name.as_str());
    m.append(" from ");
    m.append(office_name.as_str());
    proof {
        assert(m@ =~= connected_message(sp_name@, office_name@));
    }
    m
}

fn make_waiting_message(office_name: &String) -> (r: String)
    ensures
        r@ == waiting_message(office_name@),
{
    let mut m = String::from_str("All ");
    m.append(office_name.as_str());
    m.append(" representatives are currently busy. You are in queue.");
    proof {
        assert(m@ =~= waiting_message(office_name@));
    }
    m
}

fn make_started_details(office_name: &String) -> (r: String)
    ensures
        r@ == started_details(office_name@),
{
    let mut m = String::from_str("Chat started for office: ");
    m.append(office_name.as_str());
    proof {
        assert(m@ =~= started_details(office_name@));
    }
    m
}

/// The fields of a session freshly created for `request`.
pub open spec fn session_fields(
    s: ChatSession,
    request: ChatStartRequest,
    salesperson_id: Option<Seq<char>>,
    status: ChatStatus,
    session_id: u128,
    now: i64,
) -> bool {
    &&& s.id == session_id
    &&& s.customer_id == request.customer_name
    &&& s.office_id@ == request.office_id@
    &&& s.salesperson_id.deep_view() == salesperson_id
    &&& s.status == status
    &&& s.started_at == now
    &&& s.ended_at is None
    &&& s.messages@.len() == 0
}

/// A session with the given fields was stored under `session_id`: the first
/// session already under that identifier was replaced, or the new session
/// was appended; every other stored session is untouched.
pub open spec fn session_stored(
    pre: Seq<ChatSession>,
    post: Seq<ChatSession>,
    request: ChatStartRequest,
    salesperson_id: Option<Seq<char>>,
    status: ChatStatus,
    session_id: u128,
    now: i64,
) -> bool {
    if has_session(pre, session_id) {
        exists|k: int|
            {
                &&& is_first_session_index(pre, session_id, k)
                &&& post.len() == pre.len()
                &&& (forall|j: int| 0 <= j < pre.len() && j != k ==> post[j] == pre[j])
                &&& session_fields(post[k], request, salesperson_id, status, session_id, now)
            }
    } else {
        &&& post.len() == pre.len() + 1
        &&& (forall|j: int| 0 <= j < pre.len() ==> post[j] == pre[j])
        &&& session_fields(post.last(), request, salesperson_id, status, session_id, now)
    }
}

/// Everything the successful start of a chat did: the response fields, the
/// stored session, and the one appended log record.
pub open spec fn start_chat_success(
    pre: ChatState,
    post: ChatState,
    pre_log: EventLog,
    post_log: EventLog,
    request: ChatStartRequest,
    session_id: u128,
    now: i64,
    resp: ChatStartResponse,
) -> bool {
    exists|k: int|
        is_first_office_index(pre.offices@, request.office_id@, k) && {
            let office_name = pre.offices@[k].name@;
            &&& resp.session_id == session_id
            &&& if some_available(pre.salespeople@, request.office_id@) {
                exists|i: int|
                    is_first_available_index(pre.salespeople@, request.office_id@, i) && {
                        let sp = pre.salespeople@[i];
                        &&& resp.status@ == "connected"@
                        &&& resp.message@ == connected_message(sp.name@, office_name)
                        &&& (resp.salesperson matches Some(given) && given == sp)
                        &&& session_stored(
                            pre.sessions@,
                            post.sessions@,
                            request,
                            Some(sp.id@),
                            ChatStatus::Connected,
                            session_id,
                            now,
                        )
                        &&& log_appended(
                            pre_log,
                            post_log,
                            "chat_started"@,
                            session_id,
                            request.office_id@,
                            Some(sp.id@),
                            now,
                            started_details(office_name),
                        )
                    }
            } else {
                &&& resp.status@ == "waiting"@
                &&& resp.message@ == waiting_message(office_name)
                &&& resp.salesperson is None
                &&& session_stored(
                    pre.sessions@,
                    post.sessions@,
                    request,
                    None::<Seq<char>>,
                    ChatStatus::Waiting,
                    session_id,
                    now,
                )
                &&& log_appended(
                    pre_log,
                    post_log,
                    "chat_started"@,
                    session_id,
                    request.office_id@,
                    None::<Seq<char>>,
                    now,
                    started_details(office_name),
                )
            }
        }
}

/// The whole behaviour of starting a chat at a given identifier and time.
pub open spec fn start_chat_post(
    pre: ChatState,
    post: ChatState,
    pre_log: EventLog,
    post_log: EventLog,
    config: ChatConfig,
    request: ChatStartRequest,
    session_id: u128,
    now: i64,
    r: Result<ChatStartResponse, ChatError>,
) -> bool {
    &&& post.offices == pre.offices
    &&& post.salespeople == pre.salespeople
    &&& (pre.wf() ==> post.wf())
    &&& (stored_statuses_ok(pre.sessions@) ==> stored_statuses_ok(post.sessions@))
    &&& if !config.feature_enabled {
        &&& r == Err::<ChatStartResponse, ChatError>(ChatError::FeatureDisabled)
        &&& post == pre
        &&& post_log == pre_log
    } else if !office_id_exists(pre.offices@, request.office_id@) {
        &&& r == Err::<ChatStartResponse, ChatError>(ChatError::UnknownOffice)
        &&& post == pre
        &&& post_log == pre_log
    } else {
        &&& (r matches Ok(resp) && start_chat_success(
            pre,
            post,
            pre_log,
            post_log,
            request,
            session_id,
            now,
            resp,
        ))
    }
}

/// Start a chat for `request` under the fresh identifier `session_id` at
/// time `now`: reject when the feature is off or the office is unknown, else
/// match the first available salesperson of the office (in catalog order),
/// store the new session, log the start, and answer.
pub fn start_chat_at(
    state: &mut ChatState,
    log: &mut EventLog,
    config: &ChatConfig,
    request: ChatStartRequest,
    session_id: u128,
    now: i64,
) -> (r: Result<ChatStartResponse, ChatError>)
    ensures
        start_chat_post(
            *old(state),
            *final(state),
            *old(log),
            *final(log),
            *config,
            request,
            session_id,
            now,
            r,
        ),
        !config.feature_enabled ==> {
            &&& r == Err::<ChatStartResponse, ChatError>(ChatError::FeatureDisabled)
            &&& *final(state) == *old(state)
            &&& *final(log) == *old(log)
        },
        config.feature_enabled && !office_id_exists(old(state).offices@, request.office_id@)
            ==> {
            &&& r == Err::<ChatStartResponse, ChatError>(ChatError::UnknownOffice)
            &&& *final(state) == *old(state)
            &&& *final(log) == *old(log)
        },
        config.feature_enabled && office_id_exists(old(state).offices@, request.office_id@)
            && some_available(old(state).salespeople@, request.office_id@) ==> ({
            &&& r matches Ok(resp)
            &&& resp.status@ == "connected"@
            &&& resp.salesperson matches Some(sp)
            &&& sp.office_id@ == request.office_id@
            &&& sp.is_available
        }),
        config.feature_enabled && office_id_exists(old(state).offices@, request.office_id@)
            && !some_available(old(state).salespeople@, request.office_id@) ==> ({
            &&& r matches Ok(resp)
            &&& resp.status@ == "waiting"@
            &&& resp.salesperson is None
        }),
{
    if !config.feature_enabled {
        return Err(ChatError::FeatureDisabled);
    }
    let ghost pre = *state;
    let ghost pre_log = *log;
    let ChatStartRequest { office_id, customer_name } = request;
    let office_idx = match find_office(&state.offices, &office_id) {
        Some(k) => k,
        None => {
            return Err(ChatError::UnknownOffice);
        },
    };
    let office_name = state.offices[office_idx].name.clone();
    let details = make_started_details(&office_name);
    match find_available_salesperson(&state.salespeople, &office_id) {
        Some(i) => {
            let sp = state.salespeople[i].clone();
            let message = make_connected_message(&sp.name, &office_name);
            let session = ChatSession {
                id: session_id,
                customer_id: customer_name,
                office_id: office_id.clone(),
                salesperson_id: Some(sp.id.clone()),
                status: ChatStatus::Connected,
                started_at: now,
                ended_at: None,
                messages: Vec::new(),
            };
            let ghost sess = session;
            put_session(state, session);
            log_chat_event(
                log,
                "chat_started",
                session_id,
                office_id.as_str(),
                Some(sp.id.as_str()),
                now,
                details.as_str(),
            );
            let resp = ChatStartResponse {
                session_id,
                status: String::from_str("connected"),
                message,
                salesperson: Some(sp),
            };
            proof {
                lemma_stored_from_put(
                    pre.sessions@,
                    state.sessions@,
                    sess,
                    request,
                    Some(pre.salespeople@[i as int].id@),
                    ChatStatus::Connected,
                    session_id,
                    now,
                );
                assert(is_first_office_index(pre.offices@, request.office_id@, office_idx as int));
                assert(is_first_available_index(pre.salespeople@, request.office_id@, i as int));
                assert(start_chat_success(
                    pre,
                    *state,
                    pre_log,
                    *log,
                    request,
                    session_id,
                    now,
                    resp,
                ));
            }
            Ok(resp)
        },
        None => {
            let message = make_waiting_message(&office_name);
            let session = ChatSession {
                id: session_id,
                customer_id: customer_name,
                office_id: office_id.clone(),
                salesperson_id: None,
                status: ChatStatus::Waiting,
                started_at: now,
                ended_at: None,
                messages: Vec::new(),
            };
            let ghost sess = session;
            put_session(state, session);
            log_chat_event(
                log,
                "chat_started",
                session_id,
                office_id.as_str(),
                None,
                now,
                details.as_str(),
            );
            let resp = ChatStartResponse {
                session_id,
                status: String::from_str("waiting"),
                message,
                salesperson: None,
            };
            proof {
                lemma_stored_from_put(
                    pre.sessions@,
                    state.sessions@,
                    sess,
                    request,
                    None::<Seq<char>>,
                    ChatStatus::Waiting,
                    session_id,
                    now,
                );
                assert(is_first_office_index(pre.offices@, request.office_id@, office_idx as int));
                assert(start_chat_success(
                    pre,
                    *state,
                    pre_log,
                    *log,
                    request,
                    session_id,
                    now,
                    resp,
                ));
            }
            Ok(resp)
        },
    }
}

/// From the map-like insertion done by `put_session`, conclude the stored
/// shape that `start_chat_at` promises.
proof fn lemma_stored_from_put(
    pre: Seq<ChatSession>,
    post: Seq<ChatSession>,
    sess: ChatSession,
    request: ChatStartRequest,
    salesperson_id: Option<Seq<char>>,
    status: ChatStatus,
    session_id: u128,
    now: i64,
)
    requires
        sessions_put(pre, post, sess),
        sess.id == session_id,
        session_fields(sess, request, salesperson_id, status, session_id, now),
    ensures
        session_stored(pre, post, request, salesperson_id, status, session_id, now),
        stored_statuses_ok(pre) && (status == ChatStatus::Connected || status
            == ChatStatus::Waiting) ==> stored_statuses_ok(post),
{
    if has_session(pre, session_id) {
        let k = choose|k: int|
            is_first_session_index(pre, session_id, k) && post == pre.update(k, sess);
        assert(post[k] == sess);
        assert(forall|j: int| 0 <= j < pre.len() && j != k ==> post[j] == pre[j]);
    } else {
        assert(post.last() == sess);
    }
}

/// The stored session as it stands after being ended at time `now`: the
/// status is `Ended` and the end timestamp is stamped; every other field is
/// kept.
pub open spec fn ended_copy(s: ChatSession, now: i64) -> ChatSession {
    ChatSession { status: ChatStatus::Ended, ended_at: Some(now), ..s }
}

/// The whole behaviour of ending a chat at time `now`.
pub open spec fn end_chat_post(
    pre: ChatState,
    post: ChatState,
    pre_log: EventLog,
    post_log: EventLog,
    config: ChatConfig,
    session_id: u128,
    now: i64,
    r: Result<String, ChatError>,
) -> bool {
    &&& post.offices == pre.offices
    &&& post.salespeople == pre.salespeople
    &&& (pre.wf() ==> post.wf())
    &&& (stored_statuses_ok(pre.sessions@) ==> stored_statuses_ok(post.sessions@))
    &&& if !config.feature_enabled {
        &&& r == Err::<String, ChatError>(ChatError::FeatureDisabled)
        &&& post == pre
        &&& post_log == pre_log
    } else if !has_session(pre.sessions@, session_id) {
        &&& r == Err::<String, ChatError>(ChatError::SessionNotFound)
        &&& post == pre
        &&& post_log == pre_log
    } else {
        &&& (r matches Ok(msg) && msg@ == "Chat ended successfully"@)
        &&& exists|k: int|
            {
                &&& is_first_session_index(pre.sessions@, session_id, k)
                &&& post.sessions@ == pre.sessions@.update(
                    k,
                    ended_copy(pre.sessions@[k], now),
                )
                &&& log_appended(
                    pre_log,
                    post_log,
                    "chat_ended"@,
                    session_id,
                    pre.sessions@[k].office_id@,
                    pre.sessions@[k].salesperson_id.deep_view(),
                    now,
                    "Chat ended by user"@,
                )
            }
    }
}

/// End the chat stored under `session_id` at time `now`: reject when the
/// feature is off or the session is unknown, else stamp the end time, set
/// the status to `Ended`, and log the end. Ending an already ended session
/// succeeds again and re-stamps the end time.
pub fn end_chat_at(
    state: &mut ChatState,
    log: &mut EventLog,
    config: &ChatConfig,
    session_id: u128,
    now: i64,
) -> (r: Result<String, ChatError>)
    ensures
        end_chat_post(
            *old(state),
            *final(state),
            *old(log),
            *final(log),
            *config,
            session_id,
            now,
            r,
        ),
        !config.feature_enabled ==> {
            &&& r == Err::<String, ChatError>(ChatError::FeatureDisabled)
            &&& *final(state) == *old(state)
            &&& *final(log) == *old(log)
        },
        config.feature_enabled && !has_session(old(state).sessions@, session_id) ==> {
            &&& r == Err::<String, ChatError>(ChatError::SessionNotFound)
            &&& *final(state) == *old(state)
            &&& *final(log) == *old(log)
        },
        config.feature_enabled && has_session(old(state).sessions@, session_id) ==> r is Ok,
{
    if !config.feature_enabled {
        return Err(ChatError::FeatureDisabled);
    }
    let ghost pre = *state;
    let ghost pre_log = *log;
    let k = match find_session(&state.sessions, session_id) {
        Some(k) => k,
        None => {
            return Err(ChatError::SessionNotFound);
        },
    };
    let office_id = state.sessions[k].office_id.clone();
    let salesperson_id = state.sessions[k].salesperson_id.clone();
    state.sessions[k].status = ChatStatus::Ended;
    state.sessions[k].ended_at = Some(now);
    proof {
        assert(office_id == pre.sessions@[k as int].office_id);
        assert(salesperson_id == pre.sessions@[k as int].salesperson_id);
        assert(state.sessions@ =~= pre.sessions@.update(
            k as int,
            ended_copy(pre.sessions@[k as int], now),
        ));
        assert forall|i: int, j: int| 0 <= i < j < state.sessions@.len() implies (pre.wf()
            ==> state.sessions@[i].id != state.sessions@[j].id) by {
            assert(state.sessions@[i].id == pre.sessions@[i].id);
            assert(state.sessions@[j].id == pre.sessions@[j].id);
        }
        if stored_statuses_ok(pre.sessions@) {
            assert forall|j: int| 0 <= j < state.sessions@.len() implies (state.sessions@[j].status
                == ChatStatus::Connected || state.sessions@[j].status == ChatStatus::Waiting
                || state.sessions@[j].status == ChatStatus::Ended) by {
                if j != k as int {
                    assert(state.sessions@[j] == pre.sessions@[j]);
                }
            }
        }
    }
    let salesperson_ref: Option<&str> = match &salesperson_id {
        Some(s) => Some(s.as_str()),
        None => None,
    };
    log_chat_event(
        log,
        "chat_ended",
        session_id,
        office_id.as_str(),
        salesperson_ref,
        now,
        "Chat ended by user",
    );
    Ok(String::from_str("Chat ended successfully"))
}

/// Field-wise equality of two office sequences.
pub open spec fn offices_match(a: Seq<Office>, b: Seq<Office>) -> bool {
    a.len() == b.len() && (forall|i: int| 0 <= i < a.len() ==> office_eq(a[i], b[i]))
}

/// List the office catalog: a copy of every office, in catalog order, or a
/// rejection when the feature is off.
pub fn get_offices(state: &ChatState, config: &ChatConfig) -> (r: Result<Vec<Office>, ChatError>)
    ensures
        config.feature_enabled ==> (r matches Ok(offices) && offices_match(
            offices@,
            state.offices@,
        )),
        !config.feature_enabled ==> r == Err::<Vec<Office>, ChatError>(
            ChatError::FeatureDisabled,
        ),
{
    if !config.feature_enabled {
        return Err(ChatError::FeatureDisabled);
    }
    let offices = state.offices.clone();
    proof {
        assert forall|i: int| 0 <= i < offices@.len() implies office_eq(
            offices@[i],
            state.offices@[i],
        ) by {
            assert(cloned::<Office>(state.offices@[i], offices@[i]));
            if offices@[i] == state.offices@[i] {
            } else {
                assert(call_ensures(Office::clone, (&state.offices@[i],), offices@[i]));
            }
        }
    }
    Ok(offices)
}

/// Relies on uuid::Uuid::new_v4: a freshly generated version-4 identifier,
/// handed on as its 128-bit value. The value is random, so nothing is
/// promised of it; the callers state what holds for every identifier.
#[verifier::external_body]
fn fresh_session_id() -> (r: u128) {
    uuid::Uuid::new_v4().as_u128()
}

/// Relies on chrono::Utc::now and DateTime::timestamp_millis: the current
/// wall-clock time in milliseconds since the Unix epoch. The value depends
/// on the clock, so nothing is promised of it; the callers state what holds
/// for every timestamp.
#[verifier::external_body]
fn now_millis() -> (r: i64) {
    chrono::Utc::now().timestamp_millis()
}

/// Start a chat for `request` under a freshly generated session identifier
/// at the current time. Behaves as `start_chat_at` for some identifier and
/// timestamp; the rejections do not depend on either.
pub fn start_chat(
    state: &mut ChatState,
    log: &mut EventLog,
    config: &ChatConfig,
    request: ChatStartRequest,
) -> (r: Result<ChatStartResponse, ChatError>)
    ensures
        exists|session_id: u128, now: i64|
            start_chat_post(
                *old(state),
                *final(state),
                *old(log),
                *final(log),
                *config,
                request,
                session_id,
                now,
                r,
            ),
        !config.feature_enabled ==> {
            &&& r == Err::<ChatStartResponse, ChatError>(ChatError::FeatureDisabled)
            &&& *final(state) == *old(state)
            &&& *final(log) == *old(log)
        },
        config.feature_enabled && !office_id_exists(old(state).offices@, request.office_id@)
            ==> {
            &&& r == Err::<ChatStartResponse, ChatError>(ChatError::UnknownOffice)
            &&& *final(state) == *old(state)
            &&& *final(log) == *old(log)
        },
{
    let session_id = fresh_session_id();
    let now = now_millis();
    let r = start_chat_at(state, log, config, request, session_id, now);
    proof {
        assert(start_chat_post(
            *old(state),
            *state,
            *old(log),
            *log,
            *config,
            request,
            session_id,
            now,
            r,
        ));
    }
    r
}

/// End the chat stored under `session_id` at the current time. Behaves as
/// `end_chat_at` for some timestamp; the rejections do not depend on it.
pub fn end_chat(
    state: &mut ChatState,
    log: &mut EventLog,
    config: &ChatConfig,
    session_id: u128,
) -> (r: Result<String, ChatError>)
    ensures
        exists|now: i64|
            end_chat_post(
                *old(state),
                *final(state),
                *old(log),
                *final(log),
                *config,
                session_id,
                now,
                r,
            ),
        !config.feature_enabled ==> {
            &&& r == Err::<String, ChatError>(ChatError::FeatureDisabled)
            &&& *final(state) == *old(state)
            &&& *final(log) == *old(log)
        },
        config.feature_enabled && !has_session(old(state).sessions@, session_id) ==> {
            &&& r == Err::<String, ChatError>(ChatError::SessionNotFound)
            &&& *final(state) == *old(state)
            &&& *final(log) == *old(log)
        },
        config.feature_enabled && has_session(old(state).sessions@, session_id) ==> r is Ok,
{
    let now = now_millis();
    let r = end_chat_at(state, log, config, session_id, now);
    proof {
        assert(end_chat_post(
            *old(state),
            *state,
            *old(log),
            *log,
            *config,
            session_id,
            now,
            r,
        ));
    }
    r
}

/// Ending a stored session twice in succession both times succeeds, and both
/// times stamps the end time anew: the result code is idempotent, the end
/// timestamp is not.
pub proof fn lemma_end_chat_twice(
    s0: ChatState,
    s1: ChatState,
    s2: ChatState,
    l0: EventLog,
    l1: EventLog,
    l2: EventLog,
    config: ChatConfig,
    session_id: u128,
    t1: i64,
    t2: i64,
    r1: Result<String, ChatError>,
    r2: Result<String, ChatError>,
)
    requires
        config.feature_enabled,
        has_session(s0.sessions@, session_id),
        end_chat_post(s0, s1, l0, l1, config, session_id, t1, r1),
        end_chat_post(s1, s2, l1, l2, config, session_id, t2, r2),
    ensures
        r1 is Ok,
        r2 is Ok,
        exists|k: int|
            is_first_session_index(s1.sessions@, session_id, k) && s1.sessions@[k].status
                == ChatStatus::Ended && s1.sessions@[k].ended_at == Some(t1),
        exists|k: int|
            is_first_session_index(s2.sessions@, session_id, k) && s2.sessions@[k].status
                == ChatStatus::Ended && s2.sessions@[k].ended_at == Some(t2),
{
    let k1 = choose|k: int|
        {
            &&& is_first_session_index(s0.sessions@, session_id, k)
            &&& s1.sessions@ == s0.sessions@.update(k, ended_copy(s0.sessions@[k], t1))
            &&& log_appended(
                l0,
                l1,
                "chat_ended"@,
                session_id,
                s0.sessions@[k].office_id@,
                s0.sessions@[k].salesperson_id.deep_view(),
                t1,
                "Chat ended by user"@,
            )
        };
    assert(is_first_session_index(s1.sessions@, session_id, k1)) by {
        assert(s1.sessions@[k1].id == session_id);
        assert(forall|j: int| 0 <= j < k1 ==> s1.sessions@[j].id == s0.sessions@[j].id);
    }
    assert(has_session(s1.sessions@, session_id));
    let k2 = choose|k: int|
        {
            &&& is_first_session_index(s1.sessions@, session_id, k)
            &&& s2.sessions@ == s1.sessions@.update(k, ended_copy(s1.sessions@[k], t2))
            &&& log_appended(
                l1,
                l2,
                "chat_ended"@,
                session_id,
                s1.sessions@[k].office_id@,
                s1.sessions@[k].salesperson_id.deep_view(),
                t2,
                "Chat ended by user"@,
            )
        };
    assert(is_first_session_index(s2.sessions@, session_id, k2)) by {
        assert(s2.sessions@[k2].id == session_id);
        assert(forall|j: int| 0 <= j < k2 ==> s2.sessions@[j].id == s1.sessions@[j].id);
    }
}

/// With the feature flag off, starting a chat and ending a chat both reject
/// with `FeatureDisabled` and mutate neither the session table nor the
/// event log, whatever their input; listing the offices rejects the same
/// way by the contract of `get_offices` itself.
pub proof fn lemma_feature_disabled_rejects(
    s0: ChatState,
    s1: ChatState,
    l0: EventLog,
    l1: EventLog,
    s2: ChatState,
    s3: ChatState,
    l2: EventLog,
    l3: EventLog,
    config: ChatConfig,
    request: ChatStartRequest,
    fresh_id: u128,
    start_time: i64,
    r_start: Result<ChatStartResponse, ChatError>,
    session_id: u128,
    end_time: i64,
    r_end: Result<String, ChatError>,
)
    requires
        !config.feature_enabled,
        start_chat_post(s0, s1, l0, l1, config, request, fresh_id, start_time, r_start),
        end_chat_post(s2, s3, l2, l3, config, session_id, end_time, r_end),
    ensures
        r_start == Err::<ChatStartResponse, ChatError>(ChatError::FeatureDisabled),
        s1 == s0,
        l1 == l0,
        r_end == Err::<String, ChatError>(ChatError::FeatureDisabled),
        s3 == s2,
        l3 == l2,
{
}

} // verus!
