//! What the chat commands decide and say: who counts as the owner, the echo reply, the
//! listings, the database statements of the owner commands, and the notices.

use vstd::prelude::*;
use vstd::string::*;
use crate::keys::{Component, Datasheet};
use crate::text::{bool_str, bool_text, int_text, i64_text, nat_text, u64_text};

verus! {

/// The Discord user id of the bot's owner.
pub const OWNER_ID: u64 = 236222353405640704;

/// The reason given to a user who is not the owner.
pub open spec fn owner_refusal_text() -> Seq<char> {
    "Lacked owner permission"@
}

/// The owner check of the owner-only commands: passes for the owner, and refuses anyone
/// else with a reason shown to the user.
pub fn owner_check(author_id: u64) -> (r: Result<(), String>)
    ensures
        r is Ok <==> author_id == OWNER_ID,
        r matches Err(reason) ==> reason@ == owner_refusal_text(),
{
    if author_id != OWNER_ID {
        return Err(String::from_str("Lacked owner permission"));
    }
    Ok(())
}

/// The echo reply: the (cleaned) message, except that "deez" is answered with "nuts".
pub open spec fn echo_text(content: Seq<char>) -> Seq<char> {
    if content == "deez"@ {
        "nuts"@
    } else {
        content
    }
}

/// The echo reply to the cleaned message text.
pub fn echo_reply(content: String) -> (reply: String)
    ensures
        reply@ == echo_text(content@),
{
    if content == String::from_str("deez") {
        String::from_str("nuts")
    } else {
        content
    }
}

/// The names of the components, each followed by a line break.
pub open spec fn names_text(components: Seq<Component>) -> Seq<char>
    decreases components.len(),
{
    if components.len() == 0 {
        Seq::empty()
    } else {
        names_text(components.drop_last()) + components.last().name@ + "\n"@
    }
}

/// The body of the component listing.
pub fn component_list_text(components: &Vec<Component>) -> (text: String)
    ensures
        text@ == names_text(components@),
{
    let mut text = String::new();
    let mut i: usize = 0;
    assert(components@.take(0) =~= Seq::<Component>::empty());
    while i < components.len()
        invariant
            i <= components@.len(),
            text@ == names_text(components@.take(i as int)),
        decreases components@.len() - i,
    {
        assert(components@.take(i + 1).drop_last() =~= components@.take(i as int));
        text.append(components[i].name.as_str());
        text.append("\n");
        i = i + 1;
    }
    assert(components@.take(i as int) =~= components@);
    text
}

/// A datasheet as a Markdown link on a line of its own.
pub open spec fn datasheet_line(sheet: Datasheet) -> Seq<char> {
    "["@ + sheet.name@ + "]("@ + sheet.link@ + ")\n"@
}

/// The datasheets as Markdown links, one per line.
pub open spec fn datasheets_text(sheets: Seq<Datasheet>) -> Seq<char>
    decreases sheets.len(),
{
    if sheets.len() == 0 {
        Seq::empty()
    } else {
        datasheets_text(sheets.drop_last()) + datasheet_line(sheets.last())
    }
}

/// The body of the datasheet listing.
pub fn datasheet_list_text(sheets: &Vec<Datasheet>) -> (text: String)
    ensures
        text@ == datasheets_text(sheets@),
{
    let mut text = String::new();
    let mut i: usize = 0;
    assert(sheets@.take(0) =~= Seq::<Datasheet>::empty());
    while i < sheets.len()
        invariant
            i <= sheets@.len(),
            text@ == datasheets_text(sheets@.take(i as int)),
        decreases sheets@.len() - i,
    {
        assert(sheets@.take(i + 1).drop_last() =~= sheets@.take(i as int));
        text.append("[");
        text.append(sheets[i].name.as_str());
        text.append("](");
        text.append(sheets[i].link.as_str());
        text.append(")\n");
        i = i + 1;
    }
    assert(sheets@.take(i as int) =~= sheets@);
    text
}

/// The statement that adds a component: enabled, with a stock of 1 and no role to ping.
pub open spec fn add_component_text(name: Seq<char>, lcsc: Seq<char>, channel: i64) -> Seq<char> {
    "INSERT INTO components (name, lcsc, enabled, channel_id, stock, role_id)VALUES ('"@ + name
        + "', '"@ + lcsc + "', "@ + bool_text(true) + ", "@ + int_text(channel as int) + ", "@
        + nat_text(1) + ", "@ + nat_text(0) + ")"@
}

/// The statement that adds a component to the database.
pub fn add_component_query(name: &str, lcsc: &str, channel: i64) -> (query: String)
    ensures
        query@ == add_component_text(name@, lcsc@, channel),
{
    let mut query = String::from_str(
        "INSERT INTO components (name, lcsc, enabled, channel_id, stock, role_id)VALUES ('",
    );
    query.append(name);
    query.append("', '");
    query.append(lcsc);
    query.append("', ");
    query.append(bool_str(true));
    query.append(", ");
    let channel_text = i64_text(channel);
    query.append(channel_text.as_str());
    query.append(", ");
    let stock_text = u64_text(1);
    query.append(stock_text.as_str());
    query.append(", ");
    let role_text = u64_text(0);
    query.append(role_text.as_str());
    query.append(")");
    query
}

/// The statement that adds a datasheet.
pub open spec fn add_datasheet_text(name: Seq<char>, link: Seq<char>) -> Seq<char> {
    "INSERT INTO datasheets (name, link) VALUES ('"@ + name + "' , '"@ + link + "')"@
}

/// The statement that adds a datasheet to the database.
pub fn add_datasheet_query(name: &str, link: &str) -> (query: String)
    ensures
        query@ == add_datasheet_text(name@, link@),
{
    let mut query = String::from_str("INSERT INTO datasheets (name, link) VALUES ('");
    query.append(name);
    query.append("' , '");
    query.append(link);
    query.append("')");
    query
}

/// The statement that reads whether a component is enabled.
pub open spec fn enabled_select_text(lcsc: Seq<char>) -> Seq<char> {
    "SELECT enabled FROM components WHERE lcsc = '"@ + lcsc + "'"@
}

/// The statement that reads whether a component is enabled.
pub fn enabled_select_query(lcsc: &str) -> (query: String)
    ensures
        query@ == enabled_select_text(lcsc@),
{
    let mut query = String::from_str("SELECT enabled FROM components WHERE lcsc = '");
    query.append(lcsc);
    query.append("'");
    query
}

/// The statement that stores the enabled flag of a component.
pub open spec fn set_enabled_text(lcsc: Seq<char>, enabled: bool) -> Seq<char> {
    "UPDATE components SET enabled="@ + bool_text(enabled) + " WHERE lcsc='"@ + lcsc + "'"@
}

/// The statement of the `disable` command: it clears the component's enabled flag.
pub fn disable_query(lcsc: &str) -> (query: String)
    ensures
        query@ == set_enabled_text(lcsc@, false),
{
    let mut query = String::from_str("UPDATE components SET enabled=");
    query.append(bool_str(false));
    query.append(" WHERE lcsc='");
    query.append(lcsc);
    query.append("'");
    query
}

/// The notice for a rate-limited command, given the first time only.
pub open spec fn ratelimit_text(secs: u64) -> Seq<char> {
    "Try this again in "@ + nat_text(secs as nat) + " seconds."@
}

/// The notice for a rate-limited command: only on the first try, with the seconds to wait.
pub fn ratelimit_notice(is_first_try: bool, secs: u64) -> (notice: Option<String>)
    ensures
        notice is Some <==> is_first_try,
        notice matches Some(n) ==> n@ == ratelimit_text(secs),
{
    if is_first_try {
        let mut notice = String::from_str("Try this again in ");
        let secs_text = u64_text(secs);
        notice.append(secs_text.as_str());
        notice.append(" seconds.");
        Some(notice)
    } else {
        None
    }
}

/// The reply to an unknown command.
pub open spec fn unknown_command_message(name: Seq<char>) -> Seq<char> {
    "Could not find command named '"@ + name + "'"@
}

/// The reply to an unknown command.
pub fn unknown_command_text(name: &str) -> (text: String)
    ensures
        text@ == unknown_command_message(name@),
{
    let mut text = String::from_str("Could not find command named '");
    text.append(name);
    text.append("'");
    text
}

/// The "Shards" field of the statistics: the count and "shard", plural above one.
pub open spec fn shards_text(count: u64) -> Seq<char> {
    "`"@ + nat_text(count as nat) + " shard"@ + (if count > 1 { "s"@ } else { ""@ }) + "` "@
}

/// The "Shards" field of the statistics.
pub fn shards_field(count: u64) -> (text: String)
    ensures
        text@ == shards_text(count),
{
    let mut text = String::from_str("`");
    let count_text = u64_text(count);
    text.append(count_text.as_str());
    text.append(" shard");
    if count > 1 {
        text.append("s");
    } else {
        text.append("");
    }
    text.append("` ");
    text
}

/// The "Memory" field of the statistics: resident and virtual size of the process in
/// megabytes, and the machine's memory in gigabytes.
pub open spec fn memory_text(used_mb: u64, virt_mb: u64, total_gb: u64) -> Seq<char> {
    "`"@ + nat_text(used_mb as nat) + " MB used`\n`"@ + nat_text(virt_mb as nat) + " MB virt`\n`"@
        + nat_text(total_gb as nat) + " GB available`"@
}

/// The "Memory" field of the statistics.
pub fn memory_field(used_mb: u64, virt_mb: u64, total_gb: u64) -> (text: String)
    ensures
        text@ == memory_text(used_mb, virt_mb, total_gb),
{
    let mut text = String::from_str("`");
    let used = u64_text(used_mb);
    text.append(used.as_str());
    text.append(" MB used`\n`");
    let virt = u64_text(virt_mb);
    text.append(virt.as_str());
    text.append(" MB virt`\n`");
    let total = u64_text(total_gb);
    text.append(total.as_str());
    text.append(" GB available`");
    text
}

/// The title of the statistics: the bot's name and version.
pub open spec fn stats_title_text(version: Seq<char>) -> Seq<char> {
    "jlc_discord_bot v"@ + version
}

/// The title of the statistics.
pub fn stats_title(version: &str) -> (title: String)
    ensures
        title@ == stats_title_text(version@),
{
    let mut title = String::from_str("jlc_discord_bot v");
    title.append(version);
    title
}

} // verus!
