//! What the notifier says when a trigger fires.
//!
//! Nothing is said about a task that is gone, in a guild that is gone, or
//! about a task that is completed.

use vstd::prelude::*;
use crate::job::JobType;
use crate::model::{AccountabilityRequest, Guild, List, RequestStatus, Task};
use crate::text::{push_signed_decimal, signed_decimal};

verus! {

/// Where the chat service and the web pages of the bot are found.
#[derive(Debug, Clone)]
pub struct Env {
    pub discord_token: String,
    pub discord_guild: String,
    pub shamebot_url: String,
}

/// A message for a channel.
#[derive(Debug, Clone)]
pub struct OutboundMessage {
    pub channel: i64,
    pub content: String,
}

/// A line of a card: a name and what stands under it.
#[derive(Debug, Clone)]
pub struct EmbedField {
    pub name: String,
    pub value: String,
}

/// A card for a channel: a title, a description, a link, and lines.
#[derive(Debug, Clone)]
pub struct Embed {
    pub title: String,
    pub description: String,
    pub url: String,
    pub fields: Vec<EmbedField>,
}

/// The lower-case character of a hexadecimal digit; `'0'` for anything
/// that is none.
pub open spec fn hex_char(d: nat) -> char {
    if d == 1 {
        '1'
    } else if d == 2 {
        '2'
    } else if d == 3 {
        '3'
    } else if d == 4 {
        '4'
    } else if d == 5 {
        '5'
    } else if d == 6 {
        '6'
    } else if d == 7 {
        '7'
    } else if d == 8 {
        '8'
    } else if d == 9 {
        '9'
    } else if d == 10 {
        'a'
    } else if d == 11 {
        'b'
    } else if d == 12 {
        'c'
    } else if d == 13 {
        'd'
    } else if d == 14 {
        'e'
    } else if d == 15 {
        'f'
    } else {
        '0'
    }
}

/// The last `n` hexadecimal digits of a number, the highest first.
pub open spec fn hex_digits(v: nat, n: nat) -> Seq<char>
    decreases n,
{
    if n == 0 {
        seq![]
    } else {
        hex_digits(v / 16, (n - 1) as nat).push(hex_char(v % 16))
    }
}

/// An id as the chat pages write it: its 32 hexadecimal digits in groups
/// of 8, 4, 4, 4 and 12, with a hyphen between the groups.
pub open spec fn hyphenated(id: u128) -> Seq<char> {
    let digits = hex_digits(id as nat, 32);
    digits.subrange(0, 8) + seq!['-'] + digits.subrange(8, 12) + seq!['-'] + digits.subrange(
        12,
        16,
    ) + seq!['-'] + digits.subrange(16, 20) + seq!['-'] + digits.subrange(20, 32)
}

/// How a user is mentioned: `<@`, the id of the user, `>`.
pub open spec fn mention(user_id: i64) -> Seq<char> {
    "<@"@ + signed_decimal(user_id as int) + ">"@
}

/// The pester nudge for a task: it names the owner and the task, then the
/// partner where `partner` holds one, then the due instant where the task
/// has one.
pub open spec fn pester_text(task: Task, partner: Option<i64>) -> Seq<char> {
    let nudge = "hey "@ + mention(task.user_id) + "! "@ + task.title@
        + " still isn't finished yet >:c"@;
    let with_partner = match partner {
        Some(user) => nudge + "\n"@ + mention(user)
            + " would be _very_ upset with you if you didn't finish on time."@,
        None => nudge,
    };
    match task.due_at {
        Some(due) => with_partner + "\n\nyou have until <t:"@ + signed_decimal(due as int)
            + ">. use your time wisely."@,
        None => with_partner,
    }
}

/// The reminder for a task: it names the owner.
pub open spec fn reminder_text(task: Task) -> Seq<char> {
    "hey "@ + mention(task.user_id) + "! you have _one hour_ to finish the following task:\n"@
}

/// The overdue notice for a task: it names the task and the owner, then
/// the partner where `partner` holds one.
pub open spec fn overdue_text(task: Task, partner: Option<i64>) -> Seq<char> {
    let notice = "your time to complete "@ + task.title@ + " is up, "@ + mention(task.user_id)
        + ". i am very disappointed in you."@;
    match partner {
        Some(user) => notice + "\n\n"@ + mention(user) + ", how could you let this happen?"@,
        None => notice,
    }
}

/// The description of a task on its card: the content where there is any,
/// whether the task is finished, and the owner.
pub open spec fn description_text(task: Task) -> Seq<char> {
    let lead = match task.content {
        Some(content) => content@ + "\n"@,
        None => Seq::<char>::empty(),
    };
    let checkbox = if task.checked {
        ":white_check_mark:"@
    } else {
        ":white_large_square:"@
    };
    lead + "Finished: "@ + checkbox + "\n\nfor "@ + mention(task.user_id)
}

/// The link to the page of a task.
pub open spec fn link_text(base: Seq<char>, task_id: u128) -> Seq<char> {
    base + "/tasks/"@ + hyphenated(task_id)
}

/// What stands under a task on the card of its list: the content where
/// there is any, and whether the task is finished.
pub open spec fn line_text(task: Task) -> Seq<char> {
    let lead = match task.content {
        Some(content) => content@ + "\n"@,
        None => Seq::<char>::empty(),
    };
    let checkbox = if task.checked {
        ":white_check_mark:"@
    } else {
        ":white_large_square:"@
    };
    lead + "Finished: "@ + checkbox
}

/// The link to the page of a list.
pub open spec fn list_link_text(base: Seq<char>, list_id: u128) -> Seq<char> {
    base + "/lists/"@ + hyphenated(list_id)
}

/// The link to the page on which a request for a partner is answered.
pub open spec fn request_link_text(base: Seq<char>, task_id: u128) -> Seq<char> {
    base + "/accountability?task="@ + hyphenated(task_id)
}

/// What the card of a request for a partner says.
pub open spec fn request_text(requesting_user: i64) -> Seq<char> {
    mention(requesting_user) + " has requested you as an accountability partner."@
}

/// The partner whom the pester nudge names: the user who was asked, where
/// there is a request and it was accepted.
pub open spec fn pester_partner(request: Option<&AccountabilityRequest>) -> Option<i64> {
    match request {
        Some(r) => if r.status == RequestStatus::Accepted {
            Some(r.requested_user)
        } else {
            None
        },
        None => None,
    }
}

/// The partner whom the overdue notice names: the user who was asked,
/// where there is a request, whatever became of it.
pub open spec fn overdue_partner(request: Option<&AccountabilityRequest>) -> Option<i64> {
    match request {
        Some(r) => Some(r.requested_user),
        None => None,
    }
}

/// Whether anything is said about a task in a guild: both must be there,
/// and the task must not be completed.
pub open spec fn speaks(task: Option<&Task>, guild: Option<&Guild>) -> bool {
    task matches Some(t) && guild is Some && !t.checked
}

/// Appends the mention of a user to a text.
fn push_mention(out: &mut String, user_id: i64)
    ensures
        final(out)@ == old(out)@ + mention(user_id),
{
    out.append("<@");
    push_signed_decimal(out, user_id);
    out.append(">");
    assert(out@ =~= old(out)@ + mention(user_id));
}

/// The pester nudge for a task, for the channel of the guild. Nothing is
/// said where the task or the guild is gone or the task is completed.
pub fn pester_message(
    task: Option<&Task>,
    guild: Option<&Guild>,
    request: Option<&AccountabilityRequest>,
) -> (message: Option<OutboundMessage>)
    ensures
        message is Some == speaks(task, guild),
        message matches Some(m) ==> m.channel == guild->Some_0.send_to.unwrap_or(0) && m.content@
            == pester_text(*task->Some_0, pester_partner(request)),
{
    let (task, guild) = match (task, guild) {
        (Some(task), Some(guild)) => (task, guild),
        _ => {
            return None;
        },
    };
    if task.checked {
        return None;
    }
    let mut content = String::from_str("hey ");
    push_mention(&mut content, task.user_id);
    content.append("! ");
    content.append(task.title.as_str());
    content.append(" still isn't finished yet >:c");
    if let Some(r) = request {
        if r.status == RequestStatus::Accepted {
            content.append("\n");
            push_mention(&mut content, r.requested_user);
            content.append(" would be _very_ upset with you if you didn't finish on time.");
        }
    }
    if let Some(due) = task.due_at {
        content.append("\n\nyou have until <t:");
        push_signed_decimal(&mut content, due);
        content.append(">. use your time wisely.");
    }
    assert(content@ =~= pester_text(*task, pester_partner(request)));
    Some(OutboundMessage { channel: guild.channel(), content })
}

/// The reminder for a task, for the channel of the guild. Nothing is said
/// where the task or the guild is gone or the task is completed.
pub fn reminder_message(task: Option<&Task>, guild: Option<&Guild>) -> (message: Option<
    OutboundMessage,
>)
    ensures
        message is Some == speaks(task, guild),
        message matches Some(m) ==> m.channel == guild->Some_0.send_to.unwrap_or(0) && m.content@
            == reminder_text(*task->Some_0),
{
    let (task, guild) = match (task, guild) {
        (Some(task), Some(guild)) => (task, guild),
        _ => {
            return None;
        },
    };
    if task.checked {
        return None;
    }
    let mut content = String::from_str("hey ");
    push_mention(&mut content, task.user_id);
    content.append("! you have _one hour_ to finish the following task:\n");
    assert(content@ =~= reminder_text(*task));
    Some(OutboundMessage { channel: guild.channel(), content })
}

/// The overdue notice for a task, for the channel of the guild. Nothing is
/// said where the task or the guild is gone or the task is completed.
pub fn overdue_notice(
    task: Option<&Task>,
    guild: Option<&Guild>,
    request: Option<&AccountabilityRequest>,
) -> (message: Option<OutboundMessage>)
    ensures
        message is Some == speaks(task, guild),
        message matches Some(m) ==> m.channel == guild->Some_0.send_to.unwrap_or(0) && m.content@
            == overdue_text(*task->Some_0, overdue_partner(request)),
{
    let (task, guild) = match (task, guild) {
        (Some(task), Some(guild)) => (task, guild),
        _ => {
            return None;
        },
    };
    if task.checked {
        return None;
    }
    let mut content = String::from_str("your time to complete ");
    content.append(task.title.as_str());
    content.append(" is up, ");
    push_mention(&mut content, task.user_id);
    content.append(". i am very disappointed in you.");
    if let Some(r) = request {
        content.append("\n\n");
        push_mention(&mut content, r.requested_user);
        content.append(", how could you let this happen?");
    }
    assert(content@ =~= overdue_text(*task, overdue_partner(request)));
    Some(OutboundMessage { channel: guild.channel(), content })
}

/// The description of a task on its card.
pub fn task_description(task: &Task) -> (text: String)
    ensures
        text@ == description_text(*task),
{
    let mut text = String::new();
    if let Some(content) = &task.content {
        text.append(content.as_str());
        text.append("\n");
    }
    text.append("Finished: ");
    if task.checked {
        text.append(":white_check_mark:");
    } else {
        text.append(":white_large_square:");
    }
    text.append("\n\nfor ");
    push_mention(&mut text, task.user_id);
    assert(text@ =~= description_text(*task));
    text
}

/// The card of a task: its title, its description and the link to its
/// page.
pub fn task_embed(env: &Env, task: &Task) -> (card: Embed)
    ensures
        card.title@ == task.title@,
        card.description@ == description_text(*task),
        card.url@ == link_text(env.shamebot_url@, task.id),
        card.fields@.len() == 0,
{
    let mut url = env.shamebot_url.clone();
    url.append("/tasks/");
    let id = hyphenated_id(task.id);
    url.append(id.as_str());
    Embed {
        title: task.title.clone(),
        description: task_description(task),
        url,
        fields: Vec::new(),
    }
}

/// What stands under a task on the card of its list.
pub fn task_line(task: &Task) -> (text: String)
    ensures
        text@ == line_text(*task),
{
    let mut text = String::new();
    if let Some(content) = &task.content {
        text.append(content.as_str());
        text.append("\n");
    }
    text.append("Finished: ");
    if task.checked {
        text.append(":white_check_mark:");
    } else {
        text.append(":white_large_square:");
    }
    assert(text@ =~= line_text(*task));
    text
}

/// The card of a list: its title, one line for each of its tasks in their
/// order, a last line that names the owner, and the link to its page.
pub fn list_embed(env: &Env, list: &List, tasks: &Vec<Task>) -> (card: Embed)
    ensures
        card.title@ == list.title@,
        card.description@ == Seq::<char>::empty(),
        card.url@ == list_link_text(env.shamebot_url@, list.id),
        card.fields@.len() == tasks@.len() + 1,
        forall|i: int|
            0 <= i < tasks@.len() ==> (#[trigger] card.fields@[i]).name@ == tasks@[i].title@
                && card.fields@[i].value@ == line_text(tasks@[i]),
        card.fields@[tasks@.len() as int].name@ == "Owner"@,
        card.fields@[tasks@.len() as int].value@ == "for "@ + mention(list.user_id),
{
    let mut fields: Vec<EmbedField> = Vec::new();
    let mut i: usize = 0;
    while i < tasks.len()
        invariant
            i <= tasks@.len(),
            fields@.len() == i,
            forall|k: int|
                0 <= k < i ==> (#[trigger] fields@[k]).name@ == tasks@[k].title@ && fields@[k].value@
                    == line_text(tasks@[k]),
        decreases tasks@.len() - i,
    {
        fields.push(EmbedField { name: tasks[i].title.clone(), value: task_line(&tasks[i]) });
        i = i + 1;
    }
    let mut owner = String::from_str("for ");
    push_mention(&mut owner, list.user_id);
    fields.push(EmbedField { name: String::from_str("Owner"), value: owner });
    let mut url = env.shamebot_url.clone();
    url.append("/lists/");
    let id = hyphenated_id(list.id);
    url.append(id.as_str());
    Embed { title: list.title.clone(), description: String::new(), url, fields }
}

/// The card that asks a user to be the accountability partner for a task:
/// it names who asks, shows the task in a line, and links to the page on
/// which the request is answered.
pub fn request_embed(env: &Env, request: &AccountabilityRequest, task: &Task) -> (card: Embed)
    ensures
        card.title@ == "Accountability Request"@,
        card.description@ == request_text(request.requesting_user),
        card.url@ == request_link_text(env.shamebot_url@, task.id),
        card.fields@.len() == 1,
        card.fields@[0].name@ == "Task"@,
        card.fields@[0].value@ == task.title@,
{
    let mut description = String::new();
    push_mention(&mut description, request.requesting_user);
    description.append(" has requested you as an accountability partner.");
    let mut url = env.shamebot_url.clone();
    url.append("/accountability?task=");
    let id = hyphenated_id(task.id);
    url.append(id.as_str());
    let mut fields: Vec<EmbedField> = Vec::new();
    fields.push(EmbedField { name: String::from_str("Task"), value: task.title.clone() });
    Embed { title: String::from_str("Accountability Request"), description, url, fields }
}

/// A card for a channel.
#[derive(Debug, Clone)]
pub struct OutboundCard {
    pub channel: i64,
    pub card: Embed,
}

/// What the notifier says when a trigger fires: a message, a card, both
/// or neither.
#[derive(Debug, Clone)]
pub struct Notice {
    pub message: Option<OutboundMessage>,
    pub card: Option<OutboundCard>,
}

/// What the message for a trigger of a kind says of a task.
pub open spec fn notice_text(
    kind: JobType,
    task: Task,
    request: Option<&AccountabilityRequest>,
) -> Seq<char> {
    match kind {
        JobType::Pester => pester_text(task, pester_partner(request)),
        JobType::Reminder => reminder_text(task),
        _ => overdue_text(task, overdue_partner(request)),
    }
}

/// Whether the card of a task follows when a trigger of a kind fires: it
/// follows a reminder and an overdue notice, completed or not, where the
/// task and the guild are there.
pub open spec fn shows_card(kind: JobType, task: Option<&Task>, guild: Option<&Guild>) -> bool {
    kind.one_shot() && task is Some && guild is Some
}

/// What the notifier says when a trigger of kind `kind` fires for a task.
/// The message is the pester nudge, the reminder or the overdue notice,
/// for the channel of the guild; there is none where the task or the guild
/// is gone or the task is completed, so that a task that was deleted since
/// is no error. After a reminder and after an overdue notice the card of
/// the task follows, to the same channel, where the task and the guild are
/// there. Nothing is said for the kind `Unknown`.
pub fn notice(
    kind: JobType,
    env: &Env,
    task: Option<&Task>,
    guild: Option<&Guild>,
    request: Option<&AccountabilityRequest>,
) -> (said: Notice)
    ensures
        said.message is Some == (kind != JobType::Unknown && speaks(task, guild)),
        said.message matches Some(m) ==> m.channel == guild->Some_0.send_to.unwrap_or(0)
            && m.content@ == notice_text(kind, *task->Some_0, request),
        said.card is Some == shows_card(kind, task, guild),
        said.card matches Some(c) ==> {
            &&& c.channel == guild->Some_0.send_to.unwrap_or(0)
            &&& c.card.title@ == task->Some_0.title@
            &&& c.card.description@ == description_text(*task->Some_0)
            &&& c.card.url@ == link_text(env.shamebot_url@, task->Some_0.id)
            &&& c.card.fields@.len() == 0
        },
{
    let message = match kind {
        JobType::Pester => pester_message(task, guild, request),
        JobType::Reminder => reminder_message(task, guild),
        JobType::Overdue => overdue_notice(task, guild, request),
        JobType::Unknown => None,
    };
    let card = match (task, guild) {
        (Some(task), Some(guild)) => {
            if kind.is_one_shot() {
                Some(OutboundCard { channel: guild.channel(), card: task_embed(env, task) })
            } else {
                None
            }
        },
        _ => None,
    };
    Notice { message, card }
}

/// Calls `uuid::Uuid::from_u128` and writes the id it gives with
/// `to_string`.
///
/// Claimed of `uuid`: the text is the 32 lower-case hexadecimal digits of
/// the number, the highest first, in groups of 8, 4, 4, 4 and 12 with a
/// hyphen between the groups.
#[verifier::external_body]
fn hyphenated_id(id: u128) -> (text: String)
    ensures
        text@ == hyphenated(id),
{
    uuid::Uuid::from_u128(id).to_string()
}

} // verus!
