//! Replies of the spare commands kept for later use: the slow-mode command and the
//! longer statistics.

use vstd::prelude::*;
use vstd::string::*;
use crate::text::{nat_text, u64_text};

verus! {

/// The reply once a slow mode rate was asked for, by whether setting it succeeded.
pub open spec fn slow_mode_set_text(rate: u64, succeeded: bool) -> Seq<char> {
    if succeeded {
        "Successfully set slow mode rate to `"@ + nat_text(rate as nat) + "` seconds."@
    } else {
        "Failed to set slow mode to `"@ + nat_text(rate as nat) + "` seconds."@
    }
}

/// The reply once a slow mode rate was asked for, by whether setting it succeeded.
pub fn slow_mode_set_reply(rate: u64, succeeded: bool) -> (reply: String)
    ensures
        reply@ == slow_mode_set_text(rate, succeeded),
{
    let mut reply = if succeeded {
        String::from_str("Successfully set slow mode rate to `")
    } else {
        String::from_str("Failed to set slow mode to `")
    };
    let rate_text = u64_text(rate);
    reply.append(rate_text.as_str());
    reply.append("` seconds.");
    reply
}

/// The reply when no rate was asked for: the rate of the channel when it is a cached guild
/// channel (none set counting as 0), else that the channel was not found.
pub open spec fn slow_mode_current_text(cached: Option<Option<u64>>) -> Seq<char> {
    match cached {
        Some(rate) => "Current slow mode rate is `"@ + nat_text(
            (match rate {
                Some(r) => r,
                None => 0u64,
            }) as nat,
        ) + "` seconds."@,
        None => "Failed to find channel in cache."@,
    }
}

/// The reply when no rate was asked for, given the slow mode rate of the channel when it
/// is found in the cache as a guild channel.
pub fn slow_mode_current_reply(cached: Option<Option<u64>>) -> (reply: String)
    ensures
        reply@ == slow_mode_current_text(cached),
{
    match cached {
        Some(rate) => {
            let mut reply = String::from_str("Current slow mode rate is `");
            let rate_text = u64_text(
                match rate {
                    Some(r) => r,
                    None => 0,
                },
            );
            reply.append(rate_text.as_str());
            reply.append("` seconds.");
            reply
        },
        None => String::from_str("Failed to find channel in cache."),
    }
}

/// The number of bytes of the character in UTF-8.
pub open spec fn utf8_width(c: char) -> int {
    if (c as u32) < 0x80 {
        1
    } else if (c as u32) < 0x800 {
        2
    } else if (c as u32) < 0x10000 {
        3
    } else {
        4
    }
}

/// The number of bytes of the characters in UTF-8.
pub open spec fn utf8_len(chars: Seq<char>) -> int
    decreases chars.len(),
{
    if chars.len() == 0 {
        0
    } else {
        utf8_width(chars[0]) + utf8_len(chars.drop_first())
    }
}

/// The longest run of leading characters whose UTF-8 bytes fit in `budget` bytes.
pub open spec fn within_bytes(chars: Seq<char>, budget: int) -> Seq<char>
    decreases chars.len(),
{
    if chars.len() == 0 {
        chars
    } else if utf8_width(chars[0]) <= budget {
        seq![chars[0]] + within_bytes(chars.drop_first(), budget - utf8_width(chars[0]))
    } else {
        Seq::empty()
    }
}

/// The build label: "prod" when git printed nothing, else '#' and the output, cut to seven
/// bytes.
pub open spec fn commit_label_text(git_output: Seq<char>) -> Seq<char> {
    if git_output.len() == 0 {
        "prod"@
    } else {
        "#"@ + within_bytes(git_output, 6)
    }
}

/// Cutting "#" and the output at the seventh byte falls between two characters or past
/// the end.
pub open spec fn cut_at_boundary(git_output: Seq<char>) -> bool {
    utf8_len(git_output) <= 6 || utf8_len(within_bytes(git_output, 6)) == 6
}

fn char_width(c: char) -> (w: u64)
    ensures
        w == utf8_width(c),
{
    let v = c as u32;
    if v < 0x80 {
        1
    } else if v < 0x800 {
        2
    } else if v < 0x10000 {
        3
    } else {
        4
    }
}

/// The build label shown in the statistics, from what `git log` printed: "#" and the
/// output are cut at the seventh byte, which must fall between two characters (or past the
/// end), as it does for the hexadecimal digits `git log` prints.
pub fn commit_label(git_output: &str) -> (label: String)
    requires
        cut_at_boundary(git_output@),
    ensures
        label@ == commit_label_text(git_output@),
{
    let len = git_output.unicode_len();
    if len == 0 {
        return String::from_str("prod");
    }
    let ghost s = git_output@;
    let mut i: usize = 0;
    let mut budget: u64 = 6;
    let mut full = false;
    assert(s.subrange(0, 0) =~= Seq::<char>::empty());
    assert(s.skip(0) =~= s);
    while i < len && !full
        invariant
            len == s.len(),
            s == git_output@,
            i <= len,
            budget <= 6,
            within_bytes(s, 6) =~= s.subrange(0, i as int) + within_bytes(s.skip(i as int), budget as int),
            full ==> within_bytes(s.skip(i as int), budget as int) =~= Seq::<char>::empty(),
        decreases len - i + (if full { 0int } else { 1int }),
    {
        let c = git_output.get_char(i);
        let w = char_width(c);
        let ghost rest = s.skip(i as int);
        assert(rest[0] == c);
        assert(rest.drop_first() =~= s.skip(i + 1));
        if w > budget {
            full = true;
        } else {
            assert(within_bytes(rest, budget as int) =~= seq![c] + within_bytes(s.skip(i + 1), budget - w));
            assert(s.subrange(0, i + 1) =~= s.subrange(0, i as int) + seq![c]);
            budget = budget - w;
            i = i + 1;
        }
    }
    assert(within_bytes(s.skip(i as int), budget as int) =~= Seq::<char>::empty());
    let mut label = String::from_str("#");
    label.append(git_output.substring_char(0, i));
    label
}

/// The "Users" field: all members, then those cached.
pub open spec fn users_text(cached: usize, unknown: usize) -> Seq<char> {
    "`"@ + nat_text((cached + unknown) as nat) + " Total`\n`"@ + nat_text(cached as nat) + " Cached`"@
}

/// The "Users" field of the statistics, from the cached users and the members not cached.
pub fn users_field(cached: usize, unknown: usize) -> (text: String)
    requires
        cached + unknown <= usize::MAX,
    ensures
        text@ == users_text(cached, unknown),
{
    let mut text = String::from_str("`");
    let total = u64_text((cached + unknown) as u64);
    text.append(total.as_str());
    text.append(" Total`\n`");
    let cached_text = u64_text(cached as u64);
    text.append(cached_text.as_str());
    text.append(" Cached`");
    text
}

/// The owner's tag: name, '#', discriminator.
pub open spec fn owner_tag_text(name: Seq<char>, discriminator: u16) -> Seq<char> {
    name + "#"@ + nat_text(discriminator as nat)
}

/// The owner's tag shown in the statistics.
pub fn owner_tag(name: &str, discriminator: u16) -> (tag: String)
    ensures
        tag@ == owner_tag_text(name@, discriminator),
{
    let mut tag = String::from_str(name);
    tag.append("#");
    let number = u64_text(discriminator as u64);
    tag.append(number.as_str());
    tag
}

/// The title of the longer statistics: name, version and build label.
pub open spec fn extended_stats_title_text(version: Seq<char>, label: Seq<char>) -> Seq<char> {
    "maki v"@ + version + " "@ + label
}

/// The title of the longer statistics.
pub fn extended_stats_title(version: &str, label: &str) -> (title: String)
    ensures
        title@ == extended_stats_title_text(version@, label@),
{
    let mut title = String::from_str("maki v");
    title.append(version);
    title.append(" ");
    title.append(label);
    title
}

} // verus!
