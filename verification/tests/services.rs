use camelmailer_rs::bounces::ListBouncesParams;
use camelmailer_rs::campaigns::{CreateAndSendCampaign, CreateDraftCampaign, UpdateCampaign};
use camelmailer_rs::dmarc::DmarcParams;
use camelmailer_rs::inbound::ListInboundParams;
use camelmailer_rs::layouts::LayoutFields;
use camelmailer_rs::logs::ListLogsParams;
use camelmailer_rs::stats::StatsParams;
use camelmailer_rs::streams::{CreateStreamRequest, UpdateStreamRequest};
use camelmailer_rs::subscribers::{base, encode, AddSubscriber};
use camelmailer_rs::templates::TemplateFields;
use camelmailer_rs::{CamelMailer, Json, Method, PreparedRequest};
use serde_json::Value;

fn value(j: &Json) -> Value {
    match j {
        Json::Null => Value::Null,
        Json::Bool(b) => Value::Bool(*b),
        Json::Str(s) => Value::String(s.clone()),
        Json::Array(items) => Value::Array(items.iter().map(value).collect()),
        Json::Object(members) => {
            let mut map = serde_json::Map::new();
            for (k, v) in members {
                map.insert(k.clone(), value(v));
            }
            Value::Object(map)
        }
        Json::Raw(v) => v.clone(),
    }
}

fn parse(text: &str) -> Value {
    serde_json::from_str(text).unwrap()
}

fn client() -> CamelMailer {
    CamelMailer::builder("cm_test").base_url("http://localhost:3000").build().unwrap()
}

/// Method, path below the base URL, query and body of a request.
fn shape(r: &PreparedRequest) -> (Method, String, Vec<(String, String)>, Option<Value>) {
    let path = r.url.strip_prefix("http://localhost:3000").expect("under the base URL").to_string();
    assert_eq!(r.headers, vec![("X-Server-API-Key".to_string(), "cm_test".to_string())]);
    (r.method, path, r.query.clone(), r.body.as_ref().map(value))
}

fn q(pairs: &[(&str, &str)]) -> Vec<(String, String)> {
    pairs.iter().map(|(k, v)| (k.to_string(), v.to_string())).collect()
}

#[test]
fn encode_escapes_everything_but_unreserved_bytes() {
    assert_eq!(encode("ada+news@example.com"), "ada%2Bnews%40example.com");
    assert_eq!(encode("A-z_0.9~"), "A-z_0.9~");
    assert_eq!(encode("a b/c?"), "a%20b%2Fc%3F");
    assert_eq!(encode("é"), "%C3%A9");
    assert_eq!(encode(""), "");
}

#[test]
fn subscriber_paths() {
    assert_eq!(base("product-news"), "/api/v2/server/streams/product-news/subscribers");
    let client = client();
    let subscribers = client.subscribers();
    assert_eq!(
        shape(&subscribers.list_request("product-news")),
        (Method::Get, "/api/v2/server/streams/product-news/subscribers".to_string(), vec![], None)
    );
    assert_eq!(
        shape(&subscribers.remove_request("product-news", "ada+news@example.com")),
        (
            Method::Delete,
            "/api/v2/server/streams/product-news/subscribers/ada%2Bnews%40example.com".to_string(),
            vec![],
            None
        )
    );
    assert_eq!(
        shape(&subscribers.complaint_request("product-news", "ada@example.com")),
        (
            Method::Post,
            "/api/v2/server/streams/product-news/subscribers/ada%40example.com/complaint".to_string(),
            vec![],
            None
        )
    );
}

#[test]
fn subscriber_bodies() {
    let client = client();
    let subscribers = client.subscribers();
    let add = AddSubscriber::new("ada@example.com").status("subscribed");
    assert_eq!(
        shape(&subscribers.add_request("product-news", &add)).3,
        Some(parse(r#"{"address": "ada@example.com", "status": "subscribed"}"#))
    );
    let bare = AddSubscriber::new("grace@example.com");
    assert_eq!(
        shape(&subscribers.add_request("product-news", &bare)).3,
        Some(parse(r#"{"address": "grace@example.com"}"#))
    );
    let r = subscribers.import_request("product-news", &["ada@example.com", "", "ada@example.com"]);
    assert_eq!(
        shape(&r),
        (
            Method::Post,
            "/api/v2/server/streams/product-news/subscribers/import".to_string(),
            vec![],
            Some(parse(r#"{"addresses": ["ada@example.com", "", "ada@example.com"]}"#))
        )
    );
}

#[test]
fn campaign_requests() {
    let client = client();
    let campaigns = client.campaigns();
    assert_eq!(shape(&campaigns.list_request()).1, "/api/v2/server/campaigns");
    assert_eq!(
        shape(&campaigns.list_for_stream_request("product-news")).1,
        "/api/v2/server/streams/product-news/campaigns"
    );
    assert_eq!(shape(&campaigns.get_request(7)).1, "/api/v2/server/campaigns/7");
    assert_eq!(
        shape(&campaigns.get_for_stream_request("product-news", 7)).1,
        "/api/v2/server/streams/product-news/campaigns/7"
    );
    let draft = CreateDraftCampaign::new("product-news", "news@acme.com").name("September");
    assert_eq!(
        shape(&campaigns.create_draft_request(&draft)),
        (
            Method::Post,
            "/api/v2/server/campaigns".to_string(),
            vec![],
            Some(parse(r#"{"stream": "product-news", "from": "news@acme.com", "name": "September"}"#))
        )
    );
    let scheduled = CreateDraftCampaign::new("product-news", "news@acme.com")
        .scheduled_at("2026-10-01T08:00:00Z");
    assert_eq!(
        shape(&campaigns.create_draft_request(&scheduled)).3,
        Some(parse(
            r#"{"stream": "product-news", "from": "news@acme.com", "scheduled_at": "2026-10-01T08:00:00Z"}"#
        ))
    );
    let now = CreateAndSendCampaign::new("Status update").from("news@acme.com");
    let r = campaigns.create_and_send_request("product-news", &now);
    assert_eq!(shape(&r).1, "/api/v2/server/streams/product-news/campaigns");
    assert_eq!(shape(&r).3, Some(parse(r#"{"name": "Status update", "from": "news@acme.com"}"#)));
    assert_eq!(shape(&campaigns.send_request(7)).1, "/api/v2/server/campaigns/7/send");
    assert_eq!(shape(&campaigns.cancel_request(7)).1, "/api/v2/server/campaigns/7/cancel");
}

#[test]
fn campaign_schedule_updates() {
    let client = client();
    let campaigns = client.campaigns();
    let timed = UpdateCampaign::new().scheduled_at("2026-10-01T08:00:00Z");
    assert_eq!(
        shape(&campaigns.update_request(7, &timed)),
        (
            Method::Patch,
            "/api/v2/server/campaigns/7".to_string(),
            vec![],
            Some(parse(r#"{"scheduled_at": "2026-10-01T08:00:00Z"}"#))
        )
    );
    let cleared = UpdateCampaign::new().clear_schedule();
    assert_eq!(
        shape(&campaigns.update_request(7, &cleared)).3,
        Some(parse(r#"{"scheduled_at": null}"#))
    );
    let untouched = UpdateCampaign::new().subject("Corrected");
    assert_eq!(
        shape(&campaigns.update_request(7, &untouched)).3,
        Some(parse(r#"{"subject": "Corrected"}"#))
    );
}

#[test]
fn template_requests() {
    let client = client();
    let templates = client.templates();
    assert_eq!(shape(&templates.list_request()), (Method::Get, "/api/v2/server/templates".to_string(), vec![], None));
    let fields = TemplateFields::new("Welcome").subject("Welcome, {{ name }}!").html_body("<p>Hi</p>");
    assert_eq!(
        shape(&templates.create_request(&fields)).3,
        Some(parse(r#"{"name": "Welcome", "subject": "Welcome, {{ name }}!", "html_body": "<p>Hi</p>"}"#))
    );
    assert_eq!(shape(&templates.get_request("welcome")).1, "/api/v2/server/templates/welcome");
    let update = TemplateFields::update().subject("New");
    let r = templates.update_request("welcome", &update);
    assert_eq!(shape(&r).0, Method::Patch);
    assert_eq!(shape(&r).3, Some(parse(r#"{"subject": "New"}"#)));
    assert_eq!(shape(&templates.archive_request("welcome")).1, "/api/v2/server/templates/welcome/archive");
    let model = parse(r#"{"name": "Ada"}"#);
    let r = templates.render_request("welcome", &model);
    assert_eq!(shape(&r).1, "/api/v2/server/templates/welcome/render");
    assert_eq!(shape(&r).3, Some(parse(r#"{"template_model": {"name": "Ada"}}"#)));
}

#[test]
fn stream_requests() {
    let client = client();
    let streams = client.streams();
    assert_eq!(shape(&streams.list_request()).1, "/api/v2/server/streams");
    let create = CreateStreamRequest::new("Billing").stream_type("transactional");
    assert_eq!(
        shape(&streams.create_request(&create)).3,
        Some(parse(r#"{"name": "Billing", "stream_type": "transactional"}"#))
    );
    assert_eq!(shape(&streams.get_request("billing")).1, "/api/v2/server/streams/billing");
    let update = UpdateStreamRequest::new().name("Billing 2").archived(false);
    let r = streams.update_request("billing", &update);
    assert_eq!(shape(&r).0, Method::Patch);
    assert_eq!(shape(&r).3, Some(parse(r#"{"name": "Billing 2", "archived": false}"#)));
    assert_eq!(shape(&streams.archive_request("billing")).1, "/api/v2/server/streams/billing/archive");
}

#[test]
fn stats_bounces_dmarc_and_server_requests() {
    let client = client();
    let stats = client.stats().get_request(&StatsParams::new().from("2026-07-01T00:00:00Z"));
    assert_eq!(shape(&stats).1, "/api/v2/server/stats");
    assert_eq!(shape(&stats).2, q(&[("from", "2026-07-01T00:00:00Z")]));
    assert_eq!(shape(&client.stats().deliveries_request()).1, "/api/v2/server/stats/deliveries");
    let bounces = client.bounces().list_request(&ListBouncesParams::new().page(2).per_page(25));
    assert_eq!(shape(&bounces).1, "/api/v2/server/bounces");
    assert_eq!(shape(&bounces).2, q(&[("page", "2"), ("per_page", "25")]));
    assert_eq!(shape(&client.bounces().get_request(5)).1, "/api/v2/server/bounces/5");
    let dmarc = DmarcParams::new().domain("acme.com").from("2026-07-01").to("2026-07-31");
    let summary = client.dmarc().summary_request(&dmarc);
    assert_eq!(shape(&summary).1, "/api/v2/server/dmarc/summary");
    assert_eq!(shape(&summary).2, q(&[("domain", "acme.com"), ("from", "2026-07-01"), ("to", "2026-07-31")]));
    assert_eq!(shape(&client.dmarc().reports_request(&DmarcParams::new().page(1))).1, "/api/v2/server/dmarc/reports");
    assert_eq!(shape(&client.dmarc().report_request(9)).1, "/api/v2/server/dmarc/reports/9");
    assert_eq!(shape(&client.server().get_request()).1, "/api/v2/server/");
    assert_eq!(shape(&client.server().ping_request()).1, "/api/v2/server/ping");
}

#[test]
fn inbound_logs_and_layout_requests() {
    let client = client();
    let inbound = client.inbound().list_request(&ListInboundParams::new().status("held").per_page(10));
    assert_eq!(shape(&inbound).1, "/api/v2/server/inbound");
    assert_eq!(shape(&inbound).2, q(&[("per_page", "10"), ("status", "held")]));
    assert_eq!(shape(&client.inbound().get_request(3)).1, "/api/v2/server/inbound/3");
    assert_eq!(shape(&client.inbound().retry_request(3)), (Method::Post, "/api/v2/server/inbound/3/retry".to_string(), vec![], None));
    assert_eq!(shape(&client.inbound().bypass_request(3)).1, "/api/v2/server/inbound/3/bypass");
    let logs = client.logs().list_request(&ListLogsParams::new().method("POST").status(422));
    assert_eq!(shape(&logs).1, "/api/v2/server/logs");
    assert_eq!(shape(&logs).2, q(&[("method", "POST"), ("status", "422")]));
    assert_eq!(shape(&client.logs().tags_request()).1, "/api/v2/server/tags");
    let layout = LayoutFields::new().name("Brand").html_wrapper("<div>{{{ content }}}</div>");
    let r = client.layouts().create_request(&layout);
    assert_eq!(shape(&r).1, "/api/v2/server/layouts");
    assert_eq!(shape(&r).3, Some(parse(r#"{"name": "Brand", "html_wrapper": "<div>{{{ content }}}</div>"}"#)));
    assert_eq!(shape(&client.layouts().delete_request("brand")).0, Method::Delete);
    let logo = client.layouts().upload_logo_request("brand", "data:image/png;base64,AA==");
    assert_eq!(shape(&logo).1, "/api/v2/server/layouts/brand/logo");
    assert_eq!(shape(&logo).3, Some(parse(r#"{"data_url": "data:image/png;base64,AA=="}"#)));
}
