//! The stock check: reading a component's details from the JLCPCB answer, deciding what
//! to announce when its stock has moved, and the database statements that follow.

use vstd::prelude::*;
use vstd::string::*;
use crate::json::{
    as_float_text, as_int, as_text, float_text_of, get_key, index_key, index_pos, int_of, is_null,
    key_of, pos_of, text_of, JsonValue,
};
use crate::keys::Component;
use crate::text::{i64_text, int_text};

verus! {

#[verifier::external_type_specification]
#[verifier::external_body]
pub struct ExReqwestError(reqwest::Error);

/// Why the details of a component could not be had.
#[derive(Debug)]
pub enum JLCRequestErr {
    /// The request or the reading of its answer failed.
    ReqwestError(reqwest::Error),
    /// The answer lacks a field, or holds one of the wrong kind.
    DataNotAvail,
}

/// What the stock check reads about a component: its stock, the link to its picture
/// (empty when there is none), its unit price (as the decimal text of the float), and
/// whether JLCPCB counts it as a basic or an extended part.
pub struct ComponentData {
    pub stock: i64,
    pub image_url: String,
    pub price: String,
    pub basic: String,
}

/// The address from which the details of the component with this LCSC number are fetched.
pub open spec fn detail_url_text(lcsc: Seq<char>) -> Seq<char> {
    "https://jlcpcb.com/api/overseas-smt/web/component/getComponentDetail?componentCode="@ + lcsc
}

/// The address from which the details of the component with this LCSC number are fetched.
pub fn component_detail_url(lcsc: &str) -> (url: String)
    ensures
        url@ == detail_url_text(lcsc@),
{
    let mut url = String::from_str(
        "https://jlcpcb.com/api/overseas-smt/web/component/getComponentDetail?componentCode=",
    );
    url.append(lcsc);
    url
}

/// `response["data"]`.
pub open spec fn detail_of(response: JsonValue) -> JsonValue {
    index_key(response, "data"@)
}

/// `response["data"]["stockCount"].as_i64()`.
pub open spec fn stock_count(response: JsonValue) -> Option<i64> {
    as_int(index_key(detail_of(response), "stockCount"@))
}

/// `response["data"]["componentImageUrl"]`.
pub open spec fn image_field(response: JsonValue) -> JsonValue {
    index_key(detail_of(response), "componentImageUrl"@)
}

/// `response["data"]["prices"][0]["productPrice"].as_f64()`, as decimal text.
pub open spec fn first_price(response: JsonValue) -> Option<Seq<char>> {
    as_float_text(index_key(index_pos(index_key(detail_of(response), "prices"@), 0), "productPrice"@))
}

/// `response["data"]["componentLibraryType"].as_str()`.
pub open spec fn library_type(response: JsonValue) -> Option<Seq<char>> {
    as_text(index_key(detail_of(response), "componentLibraryType"@))
}

/// The answer holds all that the stock check reads, each of the right kind: the picture
/// link may be null but not of another kind than a string.
pub open spec fn details_available(response: JsonValue) -> bool {
    &&& stock_count(response) is Some
    &&& (image_field(response) is Null || as_text(image_field(response)) is Some)
    &&& first_price(response) is Some
    &&& library_type(response) is Some
}

/// The picture link: empty when the field is null.
pub open spec fn image_url_of(response: JsonValue) -> Seq<char> {
    if image_field(response) is Null {
        Seq::empty()
    } else {
        as_text(image_field(response)).unwrap()
    }
}

/// How a library type is shown: "base" parts are basic, "expand" parts extended.
pub open spec fn basic_label(library_type: Seq<char>) -> Seq<char> {
    if library_type == "base"@ {
        "(Basic)"@
    } else if library_type == "expand"@ {
        "(Extended)"@
    } else {
        "ERROR"@
    }
}

fn label_of(library_type: &String) -> (label: String)
    ensures
        label@ == basic_label(library_type@),
{
    if *library_type == String::from_str("base") {
        String::from_str("(Basic)")
    } else if *library_type == String::from_str("expand") {
        String::from_str("(Extended)")
    } else {
        String::from_str("ERROR")
    }
}

/// The price read is that of the first tier: element 0 of the `prices` array, whatever
/// tiers follow it.
pub proof fn lemma_first_price_is_first_tier(response: JsonValue, tiers: Vec<JsonValue>)
    requires
        index_key(index_key(response, "data"@), "prices"@) == JsonValue::Array(tiers),
        tiers@.len() > 0,
    ensures
        first_price(response) == as_float_text(index_key(tiers@[0], "productPrice"@)),
{
}

/// The other details read: the stock is `data.stockCount` as an integer; a null picture link
/// reads as empty and a string one as itself; "base" parts are labelled basic, "expand"
/// parts extended, and any other type an error.
pub proof fn lemma_detail_fields(response: JsonValue, library: Seq<char>)
    ensures
        stock_count(response) == as_int(index_key(index_key(response, "data"@), "stockCount"@)),
        index_key(index_key(response, "data"@), "componentImageUrl"@) is Null ==> image_url_of(response)
            == Seq::<char>::empty(),
        as_text(index_key(index_key(response, "data"@), "componentImageUrl"@)) matches Some(t)
            ==> image_url_of(response) == t,
        library == "base"@ ==> basic_label(library) == "(Basic)"@,
        library == "expand"@ ==> basic_label(library) == "(Extended)"@,
        library != "base"@ && library != "expand"@ ==> basic_label(library) == "ERROR"@,
{
    reveal_strlit("base");
    reveal_strlit("expand");
    assert("base"@ != "expand"@) by {
        assert("base"@[0] != "expand"@[0]);
    }
}

/// Reads the details of a component from the JLCPCB answer to a detail request.
pub fn component_data_from(response: &JsonValue) -> (r: Result<ComponentData, JLCRequestErr>)
    ensures
        r is Ok <==> details_available(*response),
        r matches Ok(d) ==> {
            &&& Some(d.stock) == stock_count(*response)
            &&& d.image_url@ == image_url_of(*response)
            &&& Some(d.price@) == first_price(*response)
            &&& d.basic@ == basic_label(library_type(*response).unwrap())
        },
        r matches Err(e) ==> e is DataNotAvail,
{
    let detail = get_key(response, "data");
    let stock = match int_of(key_of(detail, "stockCount")) {
        Some(n) => n,
        None => return Err(JLCRequestErr::DataNotAvail),
    };
    let url = key_of(detail, "componentImageUrl");
    let mut image_url = String::new();
    if !is_null(url) {
        image_url = match text_of(url) {
            Some(t) => t,
            None => return Err(JLCRequestErr::DataNotAvail),
        };
    }
    let price = match float_text_of(key_of(pos_of(key_of(detail, "prices"), 0), "productPrice")) {
        Some(t) => t,
        None => return Err(JLCRequestErr::DataNotAvail),
    };
    let basic = match text_of(key_of(detail, "componentLibraryType")) {
        Some(t) => label_of(&t),
        None => return Err(JLCRequestErr::DataNotAvail),
    };
    Ok(ComponentData { stock, image_url, price, basic })
}

/// The change of stock that a check finds: the stock read now less the stock stored.
pub open spec fn stock_change(component: Component, data: ComponentData) -> int {
    data.stock - component.prev_stock
}

/// The sign shown before a rise; a fall brings its own '-'.
pub open spec fn change_sign(change: int) -> Seq<char> {
    if change > 0 {
        "+"@
    } else {
        ""@
    }
}

/// Green for a rise, red otherwise.
pub open spec fn change_colour(change: int) -> u32 {
    if change > 0 {
        0x00ff00
    } else {
        0xff0000
    }
}

/// The "Stock" field: the new stock and, in brackets, the signed change.
pub open spec fn stock_field_text(stock: i64, change: int) -> Seq<char> {
    int_text(stock as int) + " ("@ + change_sign(change) + int_text(change) + ")"@
}

/// The page of the component in the JLCPCB parts search.
pub open spec fn search_url_text(lcsc: Seq<char>) -> Seq<char> {
    "https://jlcpcb.com/parts/componentSearch?isSearch=true&searchTxt="@ + lcsc
}

/// The "LCSC Number" field: the number, then on a line of its own the basic/extended label.
pub open spec fn lcsc_field_text(lcsc: Seq<char>, basic: Seq<char>) -> Seq<char> {
    lcsc + "\n"@ + basic
}

/// The mention that pings a role.
pub open spec fn role_mention_text(role_id: i64) -> Seq<char> {
    "<@&"@ + int_text(role_id as int) + ">"@
}

/// A role is pinged when a component that was out of stock is back and has a role to ping.
pub open spec fn role_ping_due(component: Component, data: ComponentData) -> bool {
    component.prev_stock == 0 && data.stock > 0 && component.role_id != 0
}

/// The component as stored after the check: the stock read now, all else as before.
pub open spec fn updated_component(component: Component, data: ComponentData) -> Component {
    Component { prev_stock: data.stock, ..component }
}

/// The message that announces a change of stock.
pub struct StockEmbed {
    pub title: String,
    pub url: String,
    pub colour: u32,
    pub thumbnail: String,
    pub stock: String,
    pub previous_stock: String,
    pub lcsc: String,
    pub price: String,
}

/// What a stock check of one component has to do: the announcement to post in the
/// component's channel (only when the stock changed), the mention to post there (only when
/// a role is to be pinged), and the component as it is to be stored.
pub struct StockReport {
    pub embed: Option<StockEmbed>,
    pub role_ping: Option<String>,
    pub updated: Component,
}

/// The embed is the announcement of this change for this component.
pub open spec fn embed_matches(embed: StockEmbed, component: Component, data: ComponentData) -> bool {
    let change = stock_change(component, data);
    &&& embed.title@ == component.name@
    &&& embed.url@ == search_url_text(component.lcsc@)
    &&& embed.colour == change_colour(change)
    &&& embed.thumbnail@ == data.image_url@
    &&& embed.stock@ == stock_field_text(data.stock, change)
    &&& embed.previous_stock@ == int_text(component.prev_stock as int)
    &&& embed.lcsc@ == lcsc_field_text(component.lcsc@, data.basic@)
    &&& embed.price@ == data.price@
}

/// The report is what a check of the component that read these details has to do.
pub open spec fn report_matches(report: StockReport, component: Component, data: ComponentData) -> bool {
    &&& (report.embed is Some <==> stock_change(component, data) != 0)
    &&& (report.embed matches Some(e) ==> embed_matches(e, component, data))
    &&& (report.role_ping is Some <==> role_ping_due(component, data))
    &&& (report.role_ping matches Some(p) ==> p@ == role_mention_text(component.role_id))
    &&& report.updated == updated_component(component, data)
}

fn stock_embed(component: &Component, data: &ComponentData, change: i64) -> (embed: StockEmbed)
    requires
        change == stock_change(*component, *data),
    ensures
        embed_matches(embed, *component, *data),
{
    let mut url = String::from_str("https://jlcpcb.com/parts/componentSearch?isSearch=true&searchTxt=");
    url.append(component.lcsc.as_str());
    let mut stock = i64_text(data.stock);
    stock.append(" (");
    if change > 0 {
        stock.append("+");
    } else {
        stock.append("");
    }
    let change_text = i64_text(change);
    stock.append(change_text.as_str());
    stock.append(")");
    let mut lcsc = component.lcsc.clone();
    lcsc.append("\n");
    lcsc.append(data.basic.as_str());
    StockEmbed {
        title: component.name.clone(),
        url,
        colour: if change > 0 { 0x00ff00 } else { 0xff0000 },
        thumbnail: data.image_url.clone(),
        stock,
        previous_stock: i64_text(component.prev_stock),
        lcsc,
        price: data.price.clone(),
    }
}

/// Decides what a stock check of one component does with the details fetched for it: a
/// failed fetch is handed back; otherwise the change is announced when there is one, a
/// role is pinged when the component is back in stock, and the new stock is kept.
pub fn print_stock_data(component: Component, fetched: Result<ComponentData, JLCRequestErr>) -> (r:
    Result<StockReport, JLCRequestErr>)
    requires
        fetched matches Ok(d) ==> i64::MIN <= stock_change(component, d) <= i64::MAX,
    ensures
        fetched matches Err(e) ==> (r matches Err(e2) && e2 == e),
        fetched matches Ok(d) ==> (r matches Ok(rep) && report_matches(rep, component, d)),
        fetched matches Ok(d) ==> (r matches Ok(rep) && {
            &&& (rep.embed is Some <==> d.stock != component.prev_stock)
            &&& (rep.role_ping is Some <==> (component.prev_stock == 0 && d.stock > 0
                && component.role_id != 0))
            &&& rep.updated.name == component.name
            &&& rep.updated.lcsc == component.lcsc
            &&& rep.updated.enabled == component.enabled
            &&& rep.updated.channel_id == component.channel_id
            &&& rep.updated.role_id == component.role_id
            &&& rep.updated.prev_stock == d.stock
        }),
{
    let data = match fetched {
        Ok(d) => d,
        Err(e) => return Err(e),
    };
    let change = data.stock - component.prev_stock;
    let embed = if change != 0 {
        Some(stock_embed(&component, &data, change))
    } else {
        None
    };
    let role_ping = if component.prev_stock == 0 && data.stock > 0 && component.role_id != 0 {
        let mut ping = String::from_str("<@&");
        let role = i64_text(component.role_id);
        ping.append(role.as_str());
        ping.append(">");
        Some(ping)
    } else {
        None
    };
    let updated = Component { prev_stock: data.stock, ..component };
    Ok(StockReport { embed, role_ping, updated })
}

/// What a report holds, said over the component and the details alone: an announcement
/// exactly when the stock read differs from the stored one (a sell-out included), green
/// for a rise and red for a fall, titled with the name and showing the stored stock; a
/// ping exactly when a component stored at 0 is back in stock and has a role; and the
/// component handed back with the new stock and every other field as it was.
pub proof fn lemma_report_facts(report: StockReport, component: Component, data: ComponentData)
    requires
        report_matches(report, component, data),
    ensures
        report.embed is Some <==> data.stock != component.prev_stock,
        report.embed matches Some(e) ==> {
            &&& e.colour == (if data.stock > component.prev_stock { 0x00ff00u32 } else { 0xff0000u32 })
            &&& e.title@ == component.name@
            &&& e.thumbnail@ == data.image_url@
            &&& e.price@ == data.price@
        },
        report.role_ping is Some <==> (component.prev_stock == 0 && data.stock > 0 && component.role_id != 0),
        data.stock <= 0 ==> report.role_ping is None,
        report.updated.name == component.name,
        report.updated.lcsc == component.lcsc,
        report.updated.enabled == component.enabled,
        report.updated.channel_id == component.channel_id,
        report.updated.role_id == component.role_id,
        report.updated.prev_stock == data.stock,
{
}

/// A second check that reads the same stock as the first announces nothing and pings no one.
pub proof fn lemma_unchanged_stock_is_silent(component: Component, data: ComponentData)
    ensures
        stock_change(updated_component(component, data), data) == 0,
        !role_ping_due(updated_component(component, data), data),
{
}

/// The statement that stores the stock of a checked component.
pub open spec fn stock_update_text(stock: i64, lcsc: Seq<char>) -> Seq<char> {
    "UPDATE components SET stock = "@ + int_text(stock as int) + " WHERE lcsc='"@ + lcsc + "'"@
}

/// The statement that stores the stock of a checked component.
pub fn stock_update_query(component: &Component) -> (query: String)
    ensures
        query@ == stock_update_text(component.prev_stock, component.lcsc@),
{
    let mut query = String::from_str("UPDATE components SET stock = ");
    let stock = i64_text(component.prev_stock);
    query.append(stock.as_str());
    query.append(" WHERE lcsc='");
    query.append(component.lcsc.as_str());
    query.append("'");
    query
}

/// The statements that store the stocks found by a check: one for each component that was
/// checked, in their order; a failed check stores nothing.
pub open spec fn update_statements(results: Seq<Result<Component, JLCRequestErr>>) -> Seq<Seq<char>>
    decreases results.len(),
{
    if results.len() == 0 {
        Seq::empty()
    } else {
        let earlier = update_statements(results.drop_last());
        match results.last() {
            Ok(c) => earlier.push(stock_update_text(c.prev_stock, c.lcsc@)),
            Err(_) => earlier,
        }
    }
}

/// The statements follow the results one by one: a further successful check adds the
/// statement storing its stock, whatever that stock (0 included); a further failed check adds
/// nothing; no results give no statements.
pub proof fn lemma_update_statements_step(
    results: Seq<Result<Component, JLCRequestErr>>,
    c: Component,
    e: JLCRequestErr,
)
    ensures
        update_statements(Seq::empty()) == Seq::<Seq<char>>::empty(),
        update_statements(results.push(Ok(c))) == update_statements(results).push(
            "UPDATE components SET stock = "@ + int_text(c.prev_stock as int) + " WHERE lcsc='"@ + c.lcsc@
                + "'"@,
        ),
        update_statements(results.push(Err(e))) == update_statements(results),
{
    assert(results.push(Ok(c)).drop_last() =~= results);
    assert(results.push(Err(e)).drop_last() =~= results);
}

/// The statements to run after a stock check, given the result of each component's check.
pub fn stock_update_queries(results: &Vec<Result<Component, JLCRequestErr>>) -> (queries: Vec<String>)
    ensures
        queries@.len() == update_statements(results@).len(),
        forall|i: int| 0 <= i < queries@.len() ==> (#[trigger] queries@[i])@ == update_statements(results@)[i],
{
    let mut queries: Vec<String> = Vec::new();
    let mut i: usize = 0;
    assert(results@.take(0) =~= Seq::<Result<Component, JLCRequestErr>>::empty());
    while i < results.len()
        invariant
            i <= results@.len(),
            queries@.len() == update_statements(results@.take(i as int)).len(),
            forall|j: int| 0 <= j < queries@.len() ==> (#[trigger] queries@[j])@ == update_statements(
                results@.take(i as int),
            )[j],
        decreases results@.len() - i,
    {
        assert(results@.take(i + 1).drop_last() =~= results@.take(i as int));
        assert(results@.take(i + 1).last() == results@[i as int]);
        match &results[i] {
            Ok(c) => {
                queries.push(stock_update_query(c));
            },
            Err(_) => {},
        }
        i = i + 1;
    }
    assert(results@.take(i as int) =~= results@);
    queries
}

/// The enabled components, in their order.
pub open spec fn enabled_only(components: Seq<Component>) -> Seq<Component>
    decreases components.len(),
{
    if components.len() == 0 {
        Seq::empty()
    } else if components.last().enabled {
        enabled_only(components.drop_last()).push(components.last())
    } else {
        enabled_only(components.drop_last())
    }
}

/// Every component that the stock check visits is enabled, and every enabled component is
/// visited.
pub proof fn lemma_enabled_only_exact(components: Seq<Component>)
    ensures
        forall|i: int| 0 <= i < enabled_only(components).len() ==> (#[trigger] enabled_only(components)[i]).enabled,
        forall|i: int| 0 <= i < components.len() && (#[trigger] components[i]).enabled
            ==> enabled_only(components).contains(components[i]),
    decreases components.len(),
{
    if components.len() > 0 {
        let rest = components.drop_last();
        lemma_enabled_only_exact(rest);
        assert forall|i: int| 0 <= i < components.len() && (#[trigger] components[i]).enabled
            implies enabled_only(components).contains(components[i]) by {
            if i < components.len() - 1 {
                assert(rest[i] == components[i]);
                let j = choose|j: int| 0 <= j < enabled_only(rest).len() && enabled_only(rest)[j] == rest[i];
                if components.last().enabled {
                    assert(enabled_only(components)[j] == components[i]);
                }
            } else {
                assert(enabled_only(components).last() == components[i]);
            }
        }
    }
}

/// The components that the stock check visits: the enabled ones, in their order. The check
/// is made of a table that holds at least one component: it takes the first row before
/// filtering and stops on an empty table.
pub fn enabled_components(components: Vec<Component>) -> (kept: Vec<Component>)
    requires
        components@.len() > 0,
    ensures
        kept@ == enabled_only(components@),
{
    let ghost all = components@;
    let mut kept: Vec<Component> = Vec::new();
    let mut rest = components;
    let ghost n = all.len();
    assert(all.skip(0) =~= all);
    assert(all.take(0) =~= Seq::<Component>::empty());
    while rest.len() > 0
        invariant
            rest@.len() <= n,
            n == all.len(),
            rest@ == all.skip(n - rest@.len()),
            kept@ == enabled_only(all.take(n - rest@.len())),
        decreases rest@.len(),
    {
        let ghost i = n - rest@.len();
        let c = rest.remove(0);
        assert(c == all[i]);
        assert(rest@ =~= all.skip(i + 1));
        assert(all.take(i + 1).drop_last() =~= all.take(i));
        assert(all.take(i + 1).last() == all[i]);
        if c.enabled {
            kept.push(c);
        }
    }
    assert(all.take(n as int) =~= all);
    kept
}

} // verus!
