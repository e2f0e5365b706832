use jlc_discord_bot::commands::{
    add_component_query, add_datasheet_query, component_list_text, datasheet_list_text,
    echo_reply, enabled_select_query, memory_field, owner_check, ratelimit_notice, shards_field,
    stats_title, disable_query, unknown_command_text, OWNER_ID,
};
use jlc_discord_bot::extras::{
    commit_label, extended_stats_title, owner_tag, slow_mode_current_reply, slow_mode_set_reply,
    users_field,
};
use jlc_discord_bot::jlc::{
    component_data_from, component_detail_url, enabled_components, print_stock_data,
    stock_update_query, stock_update_queries, ComponentData, JLCRequestErr,
};
use jlc_discord_bot::json::{get_key, get_pos, JsonNumber, JsonValue};
use jlc_discord_bot::keys::{BotCtl, Component, Datasheet, Timestamp, Uptime};
use jlc_discord_bot::schedule::{seconds_until_next_check, start_check_loop, wait_is_in_range};
use jlc_discord_bot::text::{bool_str, i64_text, u64_text};
use jlc_discord_bot::uptime::{elapsed_words, get_uptime};

fn ts(secs: i64, nanos: u32) -> Timestamp {
    Timestamp { secs, nanos }
}

fn component(name: &str, lcsc: &str, enabled: bool, prev_stock: i64, role_id: i64) -> Component {
    Component {
        name: name.to_string(),
        lcsc: lcsc.to_string(),
        enabled,
        channel_id: 42,
        prev_stock,
        role_id,
    }
}

fn data(stock: i64) -> ComponentData {
    ComponentData {
        stock,
        image_url: "https://img/x.jpg".to_string(),
        price: "0.0123".to_string(),
        basic: "(Basic)".to_string(),
    }
}

fn num_int(n: i64) -> JsonValue {
    JsonValue::Number(JsonNumber { int: Some(n), float_text: (n as f64).to_string() })
}

fn num_float(f: f64) -> JsonValue {
    JsonValue::Number(JsonNumber { int: None, float_text: f.to_string() })
}

fn text(s: &str) -> JsonValue {
    JsonValue::Str(s.to_string())
}

fn object(members: Vec<(&str, JsonValue)>) -> JsonValue {
    JsonValue::Object(members.into_iter().map(|(k, v)| (k.to_string(), v)).collect())
}

fn detail_response(stock: JsonValue, url: Option<JsonValue>, price: JsonValue, kind: JsonValue) -> JsonValue {
    let mut members = vec![("stockCount", stock)];
    if let Some(u) = url {
        members.push(("componentImageUrl", u));
    }
    members.push(("prices", JsonValue::Array(vec![object(vec![("productPrice", price)])])));
    members.push(("componentLibraryType", kind));
    object(vec![("code", num_int(200)), ("data", object(members))])
}

#[test]
fn decimal_texts() {
    assert_eq!(u64_text(0), "0");
    assert_eq!(u64_text(7), "7");
    assert_eq!(u64_text(1203), "1203");
    assert_eq!(u64_text(u64::MAX), "18446744073709551615");
    assert_eq!(i64_text(-45), "-45");
    assert_eq!(i64_text(i64::MIN), "-9223372036854775808");
    assert_eq!(i64_text(i64::MAX), "9223372036854775807");
    assert_eq!(bool_str(true), "true");
    assert_eq!(bool_str(false), "false");
}

#[test]
fn owner_check_passes_only_the_owner() {
    assert_eq!(owner_check(OWNER_ID), Ok(()));
    assert_eq!(owner_check(236222353405640704), Ok(()));
    assert_eq!(owner_check(1), Err("Lacked owner permission".to_string()));
}

#[test]
fn echo_answers_deez_with_nuts() {
    assert_eq!(echo_reply("deez".to_string()), "nuts");
    assert_eq!(echo_reply("hello there".to_string()), "hello there");
    assert_eq!(echo_reply("deez nuts".to_string()), "deez nuts");
    assert_eq!(echo_reply(String::new()), "");
}

#[test]
fn listings() {
    let list = vec![component("ESP32", "C82899", true, 5, 0), component("STM32", "C8734", false, 0, 0)];
    assert_eq!(component_list_text(&list), "ESP32\nSTM32\n");
    assert_eq!(component_list_text(&Vec::new()), "");
    let sheets = vec![
        Datasheet { name: "ESP32".to_string(), link: "https://a/esp.pdf".to_string() },
        Datasheet { name: "LM358".to_string(), link: "https://b/lm.pdf".to_string() },
    ];
    assert_eq!(datasheet_list_text(&sheets), "[ESP32](https://a/esp.pdf)\n[LM358](https://b/lm.pdf)\n");
}

#[test]
fn owner_command_statements() {
    assert_eq!(
        add_component_query("ESP32", "C82899", 1234567890123),
        "INSERT INTO components (name, lcsc, enabled, channel_id, stock, role_id)VALUES ('ESP32', 'C82899', true, 1234567890123, 1, 0)"
    );
    assert_eq!(
        add_datasheet_query("LM358", "https://b/lm.pdf"),
        "INSERT INTO datasheets (name, link) VALUES ('LM358' , 'https://b/lm.pdf')"
    );
    assert_eq!(enabled_select_query("C82899"), "SELECT enabled FROM components WHERE lcsc = 'C82899'");
    assert_eq!(disable_query("C82899"), "UPDATE components SET enabled=false WHERE lcsc='C82899'");
}

#[test]
fn disabling_twice_leaves_the_component_disabled() {
    let first = disable_query("C1");
    let second = disable_query("C1");
    assert_eq!(first, "UPDATE components SET enabled=false WHERE lcsc='C1'");
    assert_eq!(second, first);
}

#[test]
fn notices_and_fields() {
    assert_eq!(ratelimit_notice(true, 12), Some("Try this again in 12 seconds.".to_string()));
    assert_eq!(ratelimit_notice(false, 12), None);
    assert_eq!(unknown_command_text("foo"), "Could not find command named 'foo'");
    assert_eq!(shards_field(1), "`1 shard` ");
    assert_eq!(shards_field(3), "`3 shards` ");
    assert_eq!(shards_field(0), "`0 shard` ");
    assert_eq!(memory_field(12, 340, 16), "`12 MB used`\n`340 MB virt`\n`16 GB available`");
    assert_eq!(stats_title("0.1.0"), "jlc_discord_bot v0.1.0");
}

#[test]
fn bot_switch_toggles() {
    let mut ctl = BotCtl::new(true);
    assert!(ctl.is_enabled());
    ctl.toggle();
    assert!(!ctl.is_enabled());
    ctl.toggle();
    assert!(ctl.is_enabled());
}

#[test]
fn boot_time_is_recorded_once() {
    let mut uptime = Uptime::new();
    assert!(uptime.get("boot").is_none());
    uptime.entry_or_insert("boot", ts(100, 5));
    let first = uptime.get("boot").unwrap();
    assert_eq!((first.secs, first.nanos), (100, 5));
    uptime.entry_or_insert("boot", ts(999, 0));
    let still = uptime.get("boot").unwrap();
    assert_eq!((still.secs, still.nanos), (100, 5));
    uptime.entry_or_insert("other", ts(7, 0));
    assert_eq!(uptime.get("other").unwrap().secs, 7);
    assert_eq!(uptime.get("boot").unwrap().secs, 100);
}

#[test]
fn uptime_reports() {
    assert_eq!(get_uptime(None, ts(10, 0)), "Uptime not available.");
    let mut uptime = Uptime::new();
    assert_eq!(get_uptime(Some(&uptime), ts(10, 0)), "Uptime not available");
    uptime.entry_or_insert("boot", ts(1_000, 0));
    assert_eq!(get_uptime(Some(&uptime), ts(1_000 + 3600 + 60 + 3, 0)), "1 hour 1 minute 3 seconds");
    assert_eq!(
        get_uptime(Some(&uptime), ts(1_000 + 24 * 3600 + 2 * 3600 + 3 * 60 + 4, 0)),
        "1 day 2 hours 3 minutes 4 seconds"
    );
    assert_eq!(get_uptime(Some(&uptime), ts(1_000, 0)), "now");
    assert_eq!(get_uptime(Some(&uptime), ts(999, 999_999_999)), "???");
}

#[test]
fn elapsed_borrows_a_second() {
    assert_eq!(elapsed_words(ts(0, 900_000_000), ts(2, 100_000_000)), "1 second");
    assert_eq!(elapsed_words(ts(5, 10), ts(5, 9)), "???");
}

#[test]
fn json_lookups() {
    let doc = object(vec![("a", num_int(1)), ("a", num_int(2)), ("b", JsonValue::Array(vec![text("x")]))]);
    assert!(matches!(get_key(&doc, "a"), Some(JsonValue::Number(JsonNumber { int: Some(1), .. }))));
    assert!(get_key(&doc, "c").is_none());
    assert!(get_key(&text("s"), "a").is_none());
    let arr = get_key(&doc, "b").unwrap();
    assert!(matches!(get_pos(arr, 0), Some(JsonValue::Str(s)) if s == "x"));
    assert!(get_pos(arr, 1).is_none());
    assert!(get_pos(&doc, 0).is_none());
}

#[test]
fn component_details_are_read() {
    let resp = detail_response(num_int(1520), Some(text("https://img/c.jpg")), num_float(0.0121), text("base"));
    let d = component_data_from(&resp).unwrap();
    assert_eq!(d.stock, 1520);
    assert_eq!(d.image_url, "https://img/c.jpg");
    assert_eq!(d.price, "0.0121");
    assert_eq!(d.basic, "(Basic)");

    let resp = detail_response(num_int(3), None, num_int(2), text("expand"));
    let d = component_data_from(&resp).unwrap();
    assert_eq!(d.image_url, "");
    assert_eq!(d.price, "2");
    assert_eq!(d.basic, "(Extended)");

    let resp = detail_response(num_int(3), Some(JsonValue::Null), num_float(1.5), text("other"));
    let d = component_data_from(&resp).unwrap();
    assert_eq!(d.image_url, "");
    assert_eq!(d.basic, "ERROR");
}

#[test]
fn missing_details_are_refused() {
    let no_stock = detail_response(num_float(1.5), None, num_float(1.0), text("base"));
    assert!(matches!(component_data_from(&no_stock), Err(JLCRequestErr::DataNotAvail)));
    let bad_url = detail_response(num_int(1), Some(num_int(5)), num_float(1.0), text("base"));
    assert!(matches!(component_data_from(&bad_url), Err(JLCRequestErr::DataNotAvail)));
    let no_price = detail_response(num_int(1), None, text("1.0"), text("base"));
    assert!(matches!(component_data_from(&no_price), Err(JLCRequestErr::DataNotAvail)));
    let no_kind = detail_response(num_int(1), None, num_float(1.0), num_int(3));
    assert!(matches!(component_data_from(&no_kind), Err(JLCRequestErr::DataNotAvail)));
    assert!(matches!(component_data_from(&JsonValue::Null), Err(JLCRequestErr::DataNotAvail)));
}

#[test]
fn detail_url() {
    assert_eq!(
        component_detail_url("C82899"),
        "https://jlcpcb.com/api/overseas-smt/web/component/getComponentDetail?componentCode=C82899"
    );
}

#[test]
fn stock_rise_is_announced() {
    let report = print_stock_data(component("ESP32", "C82899", true, 100, 7), Ok(data(150))).unwrap();
    let embed = report.embed.unwrap();
    assert_eq!(embed.title, "ESP32");
    assert_eq!(embed.url, "https://jlcpcb.com/parts/componentSearch?isSearch=true&searchTxt=C82899");
    assert_eq!(embed.colour, 0x00ff00);
    assert_eq!(embed.thumbnail, "https://img/x.jpg");
    assert_eq!(embed.stock, "150 (+50)");
    assert_eq!(embed.previous_stock, "100");
    assert_eq!(embed.lcsc, "C82899\n(Basic)");
    assert_eq!(embed.price, "0.0123");
    assert!(report.role_ping.is_none());
    assert_eq!(report.updated.prev_stock, 150);
    assert_eq!(report.updated.name, "ESP32");
    assert_eq!(report.updated.channel_id, 42);
    assert_eq!(report.updated.role_id, 7);
}

#[test]
fn stock_fall_is_announced_in_red() {
    let report = print_stock_data(component("ESP32", "C82899", true, 100, 7), Ok(data(40))).unwrap();
    let embed = report.embed.unwrap();
    assert_eq!(embed.colour, 0xff0000);
    assert_eq!(embed.stock, "40 (-60)");
}

#[test]
fn restock_pings_the_role() {
    let report = print_stock_data(component("ESP32", "C82899", true, 0, 555), Ok(data(10))).unwrap();
    assert_eq!(report.role_ping, Some("<@&555>".to_string()));
    let no_role = print_stock_data(component("ESP32", "C82899", true, 0, 0), Ok(data(10))).unwrap();
    assert!(no_role.role_ping.is_none());
}

#[test]
fn unchanged_stock_is_silent() {
    let first = print_stock_data(component("ESP32", "C82899", true, 0, 555), Ok(data(10))).unwrap();
    assert!(first.embed.is_some());
    let second = print_stock_data(first.updated, Ok(data(10))).unwrap();
    assert!(second.embed.is_none());
    assert!(second.role_ping.is_none());
    assert_eq!(second.updated.prev_stock, 10);
}

#[test]
fn failed_fetch_is_handed_back() {
    let r = print_stock_data(component("ESP32", "C82899", true, 0, 555), Err(JLCRequestErr::DataNotAvail));
    assert!(matches!(r, Err(JLCRequestErr::DataNotAvail)));
}

#[test]
fn only_enabled_components_are_checked() {
    let list = vec![
        component("A", "C1", true, 0, 0),
        component("B", "C2", false, 0, 0),
        component("C", "C3", true, 0, 0),
    ];
    let kept: Vec<String> = enabled_components(list).into_iter().map(|c| c.name).collect();
    assert_eq!(kept, vec!["A".to_string(), "C".to_string()]);
}

#[test]
fn stock_update_statement() {
    assert_eq!(
        stock_update_query(&component("A", "C82899", true, -3, 0)),
        "UPDATE components SET stock = -3 WHERE lcsc='C82899'"
    );
}

#[test]
fn next_check_is_at_ten() {
    let day = 86_400i64;
    let ten = 10 * 3600;
    // 08:00:00.5 -> 1h59m59.5s to wait, cut to whole seconds
    assert_eq!(seconds_until_next_check(ts(8 * 3600, 500_000_000), ts(ten, 0)), 2 * 3600 - 1);
    // exactly ten o'clock: no wait
    assert_eq!(seconds_until_next_check(ts(ten, 0), ts(ten, 0)), 0);
    // 12:00 -> tomorrow at ten
    assert_eq!(seconds_until_next_check(ts(12 * 3600, 0), ts(ten, 0)), (day - 2 * 3600) as u64);
    // ten o'clock and a bit -> almost a day
    assert_eq!(seconds_until_next_check(ts(ten, 1), ts(ten, 0)), (day - 1) as u64);
}

#[test]
fn check_loop_start() {
    assert_eq!(start_check_loop(false), (true, true));
    assert_eq!(start_check_loop(true), (false, true));
}

#[test]
fn wait_is_always_under_a_day() {
    let ten = 10 * 3600i64;
    let mut now = 0i64;
    while now < 86_400 {
        let t_now = ts(now, 250_000_000);
        let t_ten = ts(ten, 0);
        assert!(wait_is_in_range(t_now, t_ten));
        let wait = seconds_until_next_check(t_now, t_ten);
        assert!(wait < 86_400);
        let lands = now as i128 * 1_000_000_000 + 250_000_000 + wait as i128 * 1_000_000_000;
        let target = if now >= ten { ten + 86_400 } else { ten } as i128 * 1_000_000_000;
        assert!(lands <= target && target - lands < 1_000_000_000);
        now += 997;
    }
}

#[test]
fn out_of_range_waits_are_refused() {
    assert!(!wait_is_in_range(ts(10, 1_000_000_000), ts(20, 0)));
    assert!(!wait_is_in_range(ts(3 * 86_400, 0), ts(0, 0)));
    assert!(wait_is_in_range(ts(86_400, 0), ts(0, 0)));
}

#[test]
fn slow_mode_replies() {
    assert_eq!(slow_mode_set_reply(30, true), "Successfully set slow mode rate to `30` seconds.");
    assert_eq!(slow_mode_set_reply(30, false), "Failed to set slow mode to `30` seconds.");
    assert_eq!(slow_mode_current_reply(Some(Some(5))), "Current slow mode rate is `5` seconds.");
    assert_eq!(slow_mode_current_reply(Some(None)), "Current slow mode rate is `0` seconds.");
    assert_eq!(slow_mode_current_reply(None), "Failed to find channel in cache.");
}

#[test]
fn extended_stats_texts() {
    assert_eq!(commit_label(""), "prod");
    assert_eq!(commit_label("abc"), "#abc");
    assert_eq!(commit_label("abcdef"), "#abcdef");
    assert_eq!(commit_label("\u{e9}12345"), "#\u{e9}1234");
    assert_eq!(commit_label("\u{e9}\u{e9}\u{e9}x"), "#\u{e9}\u{e9}\u{e9}");
    assert_eq!(commit_label("3f9a1c2d8e7b6a5f\n"), "#3f9a1c");
    assert_eq!(commit_label("ab\n"), "#ab\n");
    assert_eq!(users_field(10, 5), "`15 Total`\n`10 Cached`");
    assert_eq!(owner_tag("Sleepdealer", 1), "Sleepdealer#1");
    assert_eq!(extended_stats_title("0.1.0", "#3f9a1c"), "maki v0.1.0 #3f9a1c");
}

#[test]
fn checked_stocks_are_stored_in_order() {
    let results = vec![
        Ok(component("A", "C1", true, 12, 0)),
        Err(JLCRequestErr::DataNotAvail),
        Ok(component("C", "C3", true, -4, 0)),
    ];
    assert_eq!(
        stock_update_queries(&results),
        vec![
            "UPDATE components SET stock = 12 WHERE lcsc='C1'".to_string(),
            "UPDATE components SET stock = -4 WHERE lcsc='C3'".to_string(),
        ]
    );
    assert!(stock_update_queries(&Vec::new()).is_empty());
    assert!(stock_update_queries(&vec![Err(JLCRequestErr::DataNotAvail)]).is_empty());
}
