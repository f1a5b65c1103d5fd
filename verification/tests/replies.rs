use shamebot::job::TaskJobs;
use shamebot::job::JobType;
use shamebot::message::{
    list_embed, notice, overdue_notice, pester_message, reminder_message, request_embed,
    task_description, task_embed, task_line, Env,
};
use shamebot::model::{AccountabilityRequest, DatabaseError, Guild, List, RequestStatus, Task, User};
use shamebot::response::{
    created_status, health, not_found, ApiKeyError, GenericResponse, JobIds, JobsResponse,
    ShamebotApiKey, CORS,
};

fn task(checked: bool, due_at: Option<i64>) -> Task {
    Task {
        id: 0xa1a2a3a4_b1b2_c1c2_d1d2_d3d4d5d6d7d8,
        list_id: 1,
        user_id: 42,
        title: String::from("water the plants"),
        content: Some(String::from("all of them")),
        checked,
        pester: Some(4),
        due_at,
        proof_id: None,
        pester_job: None,
        overdue_job: None,
        reminder_job: None,
    }
}

fn guild(send_to: Option<i64>) -> Guild {
    Guild { id: 5, name: String::from("home"), icon: None, send_to }
}

fn request(status: RequestStatus) -> AccountabilityRequest {
    AccountabilityRequest { requesting_user: 42, requested_user: -7, task_id: 1, status }
}

#[test]
fn the_body_for_an_unknown_path() {
    assert_eq!(not_found(), "Not Found");
}

#[test]
fn the_service_is_ready_only_while_both_parts_are_healthy() {
    assert_eq!(health(true, true), 200);
    assert_eq!(health(true, false), 503);
    assert_eq!(health(false, true), 503);
    assert_eq!(health(false, false), 503);
}

#[test]
fn a_creating_request_answers_created_in_place_of_ok() {
    assert_eq!(created_status(200), 201);
    assert_eq!(created_status(404), 404);
    assert_eq!(created_status(500), 500);
    assert_eq!(created_status(201), 201);
}

#[test]
fn a_reply_carries_what_was_found() {
    let reply = GenericResponse::from(Ok(Some(7u8)));
    assert_eq!(reply.status, 200);
    assert_eq!(reply.data, vec![7u8]);
    assert!(reply.error.is_none());
}

#[test]
fn a_reply_says_that_nothing_was_found() {
    let reply = GenericResponse::<u8>::from(Ok(None));
    assert_eq!(reply.status, 404);
    assert!(reply.data.is_empty());
    assert_eq!(reply.error.map(|e| e.message), Some(String::from("Resource not found.")));
}

#[test]
fn a_reply_says_what_failed() {
    let reply = GenericResponse::<u8>::from(Err(String::from("the pool is empty")));
    assert_eq!(reply.status, 500);
    assert!(reply.data.is_empty());
    assert_eq!(reply.error.map(|e| e.message), Some(String::from("the pool is empty")));
}

#[test]
fn a_jobs_reply_carries_the_record_or_the_error() {
    let jobs = TaskJobs { pester: Some(1), reminder: None, overdue: Some(3) };
    let reply = JobsResponse::from(Ok(jobs));
    assert_eq!((reply.status, reply.data, reply.error.is_none()), (200, vec![jobs], true));
    let reply = JobsResponse::from(Err(DatabaseError::no_row()));
    assert_eq!(reply.status, 500);
    assert!(reply.data.is_empty());
    assert_eq!(
        reply.error.map(|e| e.message),
        Some(String::from(
            "error executing of preparing DB query: query returned an unexpected number of rows"
        ))
    );
    let reply = JobsResponse::from(Err(DatabaseError::DBPoolError(String::from("timed out"))));
    assert_eq!(
        reply.error.map(|e| e.message),
        Some(String::from("error getting connection from DB pool: timed out"))
    );
}

#[test]
fn storage_errors_say_what_they_are() {
    assert_eq!(
        DatabaseError::DBPoolError(String::from("timed out")).message(),
        "error getting connection from DB pool: timed out"
    );
    assert_eq!(
        DatabaseError::DBQueryError(String::from("db error")).message(),
        "error executing of preparing DB query: db error"
    );
    assert_eq!(
        DatabaseError::JoinTaskError(String::from("task 7 panicked")).message(),
        "error joining spawned tasks: task 7 panicked"
    );
    assert_eq!(DatabaseError::DBGenericError.message(), "unknown error occurred");
    assert_eq!(
        DatabaseError::no_field().message(),
        "error executing of preparing DB query: column \"unknown_job\" of relation \"tasks\" does not exist"
    );
}

#[test]
fn missing_ids_are_written_as_the_nil_id() {
    let jobs = TaskJobs { pester: Some(11), reminder: None, overdue: Some(u128::MAX) };
    assert_eq!(JobIds::of(&jobs), JobIds { pester: 11, reminder: 0, overdue: u128::MAX });
    assert_eq!(JobIds::of(&TaskJobs::empty()), JobIds { pester: 0, reminder: 0, overdue: 0 });
}

#[test]
fn requests_are_turned_away_for_their_api_key() {
    assert_eq!(ShamebotApiKey::from_request(None, Ok(true)), Err(ApiKeyError::Missing));
    assert_eq!(
        ShamebotApiKey::from_request(None, Err(DatabaseError::DBGenericError)),
        Err(ApiKeyError::Missing)
    );
    assert_eq!(
        ShamebotApiKey::from_request(Some(77), Ok(true)),
        Ok(ShamebotApiKey { api_key: 77 })
    );
    assert_eq!(ShamebotApiKey::from_request(Some(77), Ok(false)), Err(ApiKeyError::Invalid));
    assert_eq!(
        ShamebotApiKey::from_request(Some(77), Err(DatabaseError::no_row())),
        Err(ApiKeyError::DbError)
    );
    assert_eq!(ApiKeyError::Missing.status(), 400);
    assert_eq!(ApiKeyError::Invalid.status(), 403);
    assert_eq!(ApiKeyError::DbError.status(), 500);
}

#[test]
fn every_reply_lets_other_origins_call() {
    let headers: Vec<(&str, &str)> = CORS.headers().iter().map(|h| (h.name, h.value)).collect();
    assert_eq!(
        headers,
        vec![
            ("Access-Control-Allow-Origin", "*"),
            ("Access-Control-Allow-Methods", "POST, PUT, DELETE, GET, PATCH, OPTIONS"),
            ("Access-Control-Allow-Headers", "*"),
            ("Access-Control-Allow-Credentials", "true"),
        ]
    );
    assert_eq!(CORS.info(), "Add CORS headers to responses");
}

#[test]
fn the_pester_nudge_names_owner_task_partner_and_due_instant() {
    let t = task(false, Some(1_700_000_000));
    let g = guild(Some(900));
    let r = request(RequestStatus::Accepted);
    let m = pester_message(Some(&t), Some(&g), Some(&r)).expect("something to say");
    assert_eq!(m.channel, 900);
    assert_eq!(
        m.content,
        "hey <@42>! water the plants still isn't finished yet >:c\n<@-7> would be _very_ upset with you if you didn't finish on time.\n\nyou have until <t:1700000000>. use your time wisely."
    );
}

#[test]
fn the_pester_nudge_leaves_out_a_partner_who_has_not_accepted() {
    let t = task(false, None);
    let g = guild(None);
    for status in [RequestStatus::Pending, RequestStatus::Rejected] {
        let r = request(status);
        let m = pester_message(Some(&t), Some(&g), Some(&r)).unwrap();
        assert_eq!(m.channel, 0);
        assert_eq!(m.content, "hey <@42>! water the plants still isn't finished yet >:c");
    }
    let m = pester_message(Some(&t), Some(&g), None).unwrap();
    assert_eq!(m.content, "hey <@42>! water the plants still isn't finished yet >:c");
}

#[test]
fn the_reminder_names_the_owner() {
    let t = task(false, Some(5));
    let g = guild(Some(-3));
    let m = reminder_message(Some(&t), Some(&g)).unwrap();
    assert_eq!(m.channel, -3);
    assert_eq!(m.content, "hey <@42>! you have _one hour_ to finish the following task:\n");
}

#[test]
fn the_overdue_notice_names_any_partner() {
    let t = task(false, Some(5));
    let g = guild(Some(900));
    let m = overdue_notice(Some(&t), Some(&g), None).unwrap();
    assert_eq!(
        m.content,
        "your time to complete water the plants is up, <@42>. i am very disappointed in you."
    );
    for status in [RequestStatus::Accepted, RequestStatus::Pending, RequestStatus::Rejected] {
        let r = request(status);
        let m = overdue_notice(Some(&t), Some(&g), Some(&r)).unwrap();
        assert_eq!(
            m.content,
            "your time to complete water the plants is up, <@42>. i am very disappointed in you.\n\n<@-7>, how could you let this happen?"
        );
    }
}

#[test]
fn nothing_is_said_about_a_completed_or_missing_task() {
    let done = task(true, Some(5));
    let open = task(false, Some(5));
    let g = guild(Some(900));
    let r = request(RequestStatus::Accepted);
    assert!(pester_message(Some(&done), Some(&g), Some(&r)).is_none());
    assert!(reminder_message(Some(&done), Some(&g)).is_none());
    assert!(overdue_notice(Some(&done), Some(&g), Some(&r)).is_none());
    assert!(pester_message(None, Some(&g), Some(&r)).is_none());
    assert!(reminder_message(None, Some(&g)).is_none());
    assert!(overdue_notice(None, Some(&g), None).is_none());
    assert!(pester_message(Some(&open), None, None).is_none());
    assert!(reminder_message(Some(&open), None).is_none());
    assert!(overdue_notice(Some(&open), None, Some(&r)).is_none());
}

#[test]
fn the_card_of_a_task_describes_and_links_it() {
    let env = Env {
        discord_token: String::from("SECRET-REDACTED"),
        discord_guild: String::from("5"),
        shamebot_url: String::from("https://shame.example"),
    };
    let card = task_embed(&env, &task(false, None));
    assert_eq!(card.title, "water the plants");
    assert_eq!(card.description, "all of them\nFinished: :white_large_square:\n\nfor <@42>");
    assert_eq!(card.url, "https://shame.example/tasks/a1a2a3a4-b1b2-c1c2-d1d2-d3d4d5d6d7d8");
    let mut bare = task(true, None);
    bare.content = None;
    bare.id = 0x1f;
    assert_eq!(task_description(&bare), "Finished: :white_check_mark:\n\nfor <@42>");
    assert_eq!(
        task_embed(&env, &bare).url,
        "https://shame.example/tasks/00000000-0000-0000-0000-00000000001f"
    );
}

#[test]
fn the_channel_of_a_guild_defaults_to_zero() {
    assert_eq!(guild(Some(12)).channel(), 12);
    assert_eq!(guild(None).channel(), 0);
}

#[test]
fn users_are_made_place_by_place_as_far_as_the_shortest_column() {
    let users = User::new_batch(
        &vec![1, 2, 3],
        &vec![String::from("a"), String::from("b"), String::from("c")],
        &vec![String::from("0001"), String::from("0002")],
        &vec![String::from("x"), String::from("y"), String::from("z")],
    );
    assert_eq!(users.len(), 2);
    assert_eq!((users[0].id, users[0].username.as_str()), (1, "a"));
    assert_eq!((users[1].id, users[1].discriminator.as_str(), users[1].avatar_hash.as_str()), (2, "0002", "y"));
    assert!(User::new_batch(&vec![], &vec![String::from("a")], &vec![], &vec![]).is_empty());
}

#[test]
fn the_connection_settings_are_written_in_one_line() {
    let env = shamebot::model::Env {
        postgres_user: String::from("bot"),
        postgres_password: String::from("hunter2"),
        postgres_host: String::from("db"),
        postgres_port: String::from("5432"),
    };
    assert_eq!(env.connection_string(), "host=db port=5432 user=bot password=hunter2");
}

fn env() -> Env {
    Env {
        discord_token: String::from("SECRET-REDACTED"),
        discord_guild: String::from("5"),
        shamebot_url: String::from("https://shame.example"),
    }
}

#[test]
fn the_card_of_a_list_has_a_line_for_each_task_and_one_for_the_owner() {
    let list = List { id: u128::MAX, title: String::from("chores"), user_id: 42 };
    let mut second = task(true, None);
    second.title = String::from("feed the cat");
    second.content = None;
    let card = list_embed(&env(), &list, &vec![task(false, None), second]);
    assert_eq!(card.title, "chores");
    assert_eq!(card.description, "");
    assert_eq!(card.url, "https://shame.example/lists/ffffffff-ffff-ffff-ffff-ffffffffffff");
    let lines: Vec<(&str, &str)> =
        card.fields.iter().map(|f| (f.name.as_str(), f.value.as_str())).collect();
    assert_eq!(
        lines,
        vec![
            ("water the plants", "all of them\nFinished: :white_large_square:"),
            ("feed the cat", "Finished: :white_check_mark:"),
            ("Owner", "for <@42>"),
        ]
    );
    let empty = list_embed(&env(), &list, &vec![]);
    assert_eq!(empty.fields.len(), 1);
    assert_eq!(empty.fields[0].name, "Owner");
}

#[test]
fn the_line_of_a_task_leaves_the_owner_out() {
    assert_eq!(task_line(&task(false, None)), "all of them\nFinished: :white_large_square:");
}

#[test]
fn the_card_of_a_request_names_who_asks_and_links_to_the_answer() {
    let card = request_embed(&env(), &request(RequestStatus::Pending), &task(false, None));
    assert_eq!(card.title, "Accountability Request");
    assert_eq!(card.description, "<@42> has requested you as an accountability partner.");
    assert_eq!(
        card.url,
        "https://shame.example/accountability?task=a1a2a3a4-b1b2-c1c2-d1d2-d3d4d5d6d7d8"
    );
    assert_eq!(card.fields.len(), 1);
    assert_eq!((card.fields[0].name.as_str(), card.fields[0].value.as_str()), ("Task", "water the plants"));
}

#[test]
fn ids_are_written_with_all_their_digits() {
    let mut t = task(false, None);
    for (id, text) in [
        (0u128, "00000000-0000-0000-0000-000000000000"),
        (1 << 127, "80000000-0000-0000-0000-000000000000"),
        (0x0123456789abcdef_0123456789abcdef, "01234567-89ab-cdef-0123-456789abcdef"),
        (10, "00000000-0000-0000-0000-00000000000a"),
    ] {
        t.id = id;
        assert_eq!(task_embed(&env(), &t).url, format!("https://shame.example/tasks/{}", text));
    }
}

#[test]
fn a_pester_firing_says_the_nudge_and_shows_no_card() {
    let t = task(false, Some(1_700_000_000));
    let g = guild(Some(900));
    let r = request(RequestStatus::Accepted);
    let said = notice(JobType::Pester, &env(), Some(&t), Some(&g), Some(&r));
    let want = pester_message(Some(&t), Some(&g), Some(&r)).unwrap();
    let got = said.message.expect("a nudge");
    assert_eq!((got.channel, got.content), (want.channel, want.content));
    assert!(said.card.is_none());
}

#[test]
fn a_reminder_and_an_overdue_firing_say_their_message_and_show_the_card() {
    let t = task(false, Some(1_700_000_000));
    let g = guild(Some(900));
    let r = request(RequestStatus::Pending);
    let said = notice(JobType::Reminder, &env(), Some(&t), Some(&g), Some(&r));
    assert_eq!(
        said.message.map(|m| m.content),
        reminder_message(Some(&t), Some(&g)).map(|m| m.content)
    );
    let card = said.card.expect("the card of the task");
    assert_eq!(card.channel, 900);
    assert_eq!(card.card.title, "water the plants");
    assert_eq!(card.card.url, "https://shame.example/tasks/a1a2a3a4-b1b2-c1c2-d1d2-d3d4d5d6d7d8");
    let said = notice(JobType::Overdue, &env(), Some(&t), Some(&g), Some(&r));
    assert_eq!(
        said.message.map(|m| m.content),
        overdue_notice(Some(&t), Some(&g), Some(&r)).map(|m| m.content)
    );
    assert_eq!(said.card.map(|c| c.card.description), Some(task_description(&t)));
}

#[test]
fn the_card_of_a_completed_task_follows_without_a_message() {
    let done = task(true, Some(5));
    let g = guild(None);
    for kind in [JobType::Reminder, JobType::Overdue] {
        let said = notice(kind, &env(), Some(&done), Some(&g), None);
        assert!(said.message.is_none());
        assert_eq!(said.card.map(|c| c.channel), Some(0));
    }
    let said = notice(JobType::Pester, &env(), Some(&done), Some(&g), None);
    assert!(said.message.is_none() && said.card.is_none());
}

#[test]
fn a_firing_for_a_deleted_task_says_nothing() {
    let t = task(false, Some(5));
    let g = guild(Some(1));
    for kind in [JobType::Pester, JobType::Reminder, JobType::Overdue, JobType::Unknown] {
        let said = notice(kind, &env(), None, Some(&g), None);
        assert!(said.message.is_none() && said.card.is_none());
        let said = notice(kind, &env(), Some(&t), None, None);
        assert!(said.message.is_none() && said.card.is_none());
    }
    let said = notice(JobType::Unknown, &env(), Some(&t), Some(&g), None);
    assert!(said.message.is_none() && said.card.is_none());
}
