use cape_bot::catalog::{Cape, CatalogError, Color, LambdaUser, Type};
use cape_bot::embed::{EnrichError, PlayerEmbedData, Profile};
use cape_bot::pipeline::{is_trigger, Action, Event, Phase, Pipeline, RunError};
use cape_bot::text::text_equals;

fn cape(player: &str) -> Cape {
    Cape {
        cape_uuid: format!("cape-of-{}", player),
        player_uuid: player.to_string(),
        cape_type: Type::Contributor,
        color: Color { primary: "#fff".to_string(), border: "#000".to_string() },
    }
}

fn record(id: u64, players: &[&str]) -> LambdaUser {
    LambdaUser { id, capes: players.iter().map(|p| cape(p)).collect(), is_premium: false }
}

fn profile(name: &str) -> Profile {
    Profile { name: name.to_string(), skin_url: Some(format!("https://skins/{}.png", name)) }
}

fn started(catalog: Vec<LambdaUser>) -> (Pipeline, Action) {
    let mut p = Pipeline::new();
    assert_eq!(p.step(Event::Message("!test".to_string())), Action::FetchCatalog);
    let a = p.step(Event::CatalogFetched(catalog));
    (p, a)
}

/// Decodes one catalog record from JSON, as the bot does with the fetched body.
fn decode_record(v: &serde_json::Value) -> Result<LambdaUser, CatalogError> {
    let capes = v["capes"].as_array().ok_or(CatalogError::Malformed)?;
    let mut out = Vec::new();
    for c in capes {
        let text = |k: &str| c[k].as_str().map(|s| s.to_string()).ok_or(CatalogError::Malformed);
        out.push(Cape {
            cape_uuid: text("capeUuid")?,
            player_uuid: text("playerUuid")?,
            cape_type: Type::from_tag(c["type"].as_str().ok_or(CatalogError::Malformed)?)?,
            color: Color {
                primary: c["color"]["primary"].as_str().ok_or(CatalogError::Malformed)?.to_string(),
                border: c["color"]["border"].as_str().ok_or(CatalogError::Malformed)?.to_string(),
            },
        });
    }
    Ok(LambdaUser {
        id: v["id"].as_f64().ok_or(CatalogError::Malformed)?.to_bits(),
        capes: out,
        is_premium: v["isPremium"].as_bool().ok_or(CatalogError::Malformed)?,
    })
}

fn decode_catalog(body: &str) -> Result<Vec<LambdaUser>, CatalogError> {
    let v: serde_json::Value = serde_json::from_str(body).map_err(|_| CatalogError::Malformed)?;
    v.as_array().ok_or(CatalogError::Malformed)?.iter().map(decode_record).collect()
}

const EXAMPLE: &str = r##"[{"id":1.0,"isPremium":true,"capes":[{"capeUuid":"c1","playerUuid":"p1","type":"CONTRIBUTOR","color":{"primary":"#fff","border":"#000"}}]}]"##;

#[test]
fn end_to_end_example_gives_one_reply() {
    let catalog = decode_catalog(EXAMPLE).unwrap();
    let (mut p, a) = started(catalog);
    assert_eq!(a, Action::LookupProfile("p1".to_string()));
    let found = Profile { name: "Alice".to_string(), skin_url: Some("https://x/alice.png".to_string()) };
    let reply = p.step(Event::ProfileFound(found));
    match reply {
        Action::SendEmbed(d) => {
            assert_eq!(d.username, "Alice");
            assert_eq!(d.skin_url, "https://x/alice.png");
            assert_eq!(d.uuid, "p1");
            assert_eq!(d.capes.len(), 1);
            assert_eq!(d.capes[0].cape_uuid, "c1");
        }
        other => panic!("expected an embed, got {:?}", other),
    }
    assert_eq!(p.step(Event::ReplySent), Action::Nothing);
    assert_eq!(*p.phase(), Phase::Finished);
}

#[test]
fn decoded_example_keeps_every_field() {
    let catalog = decode_catalog(EXAMPLE).unwrap();
    assert_eq!(catalog.len(), 1);
    assert_eq!(catalog[0].id, 1.0f64.to_bits());
    assert!(catalog[0].is_premium);
    assert_eq!(catalog[0].capes[0].color.primary, "#fff");
    assert_eq!(catalog[0].capes[0].color.border, "#000");
    assert_eq!(catalog[0].capes[0].cape_type, Type::Contributor);
}

#[test]
fn same_body_decodes_to_equal_lists() {
    assert_eq!(decode_catalog(EXAMPLE).unwrap(), decode_catalog(EXAMPLE).unwrap());
}

#[test]
fn other_text_starts_nothing() {
    for text in ["", "!Test", "!test ", " !test", "!tes", "!testing", "hello"] {
        let mut p = Pipeline::new();
        assert_eq!(p.step(Event::Message(text.to_string())), Action::Nothing);
        assert_eq!(*p.phase(), Phase::Idle);
        assert!(!is_trigger(text));
    }
    assert!(is_trigger("!test"));
}

#[test]
fn trigger_mid_run_is_ignored() {
    let (mut p, _) = started(vec![record(1, &["a"])]);
    assert_eq!(p.step(Event::Message("!test".to_string())), Action::Nothing);
    assert_eq!(*p.phase(), Phase::LookingUp(record(1, &["a"])));
}

#[test]
fn replies_follow_catalog_order() {
    let names = ["A", "B", "C"];
    let (mut p, mut a) = started(vec![record(1, &["A"]), record(2, &["B", "x"]), record(3, &["C"])]);
    let mut titles = Vec::new();
    for name in names {
        assert_eq!(a, Action::LookupProfile(name.to_string()));
        match p.step(Event::ProfileFound(profile(name))) {
            Action::SendEmbed(d) => titles.push(d.username),
            other => panic!("expected an embed, got {:?}", other),
        }
        a = p.step(Event::ReplySent);
    }
    assert_eq!(a, Action::Nothing);
    assert_eq!(titles, vec!["A", "B", "C"]);
}

#[test]
fn failed_send_does_not_stop_the_run() {
    let (mut p, a) = started(vec![record(1, &["A"]), record(2, &["B"]), record(3, &["C"])]);
    assert_eq!(a, Action::LookupProfile("A".to_string()));
    assert!(matches!(p.step(Event::ProfileFound(profile("A"))), Action::SendEmbed(_)));
    assert_eq!(p.step(Event::ReplySent), Action::LookupProfile("B".to_string()));
    assert!(matches!(p.step(Event::ProfileFound(profile("B"))), Action::SendEmbed(_)));
    assert_eq!(p.step(Event::ReplyFailed), Action::LookupProfile("C".to_string()));
    match p.step(Event::ProfileFound(profile("C"))) {
        Action::SendEmbed(d) => assert_eq!(d.username, "C"),
        other => panic!("expected an embed, got {:?}", other),
    }
    assert_eq!(p.step(Event::ReplySent), Action::Nothing);
}

#[test]
fn empty_capes_rejected_before_lookup() {
    let (p, a) = started(vec![record(1, &[]), record(2, &["B"])]);
    assert_eq!(a, Action::SendError(RunError::Enrich(EnrichError::EmptyCapes)));
    assert_eq!(*p.phase(), Phase::Finished);
    assert_eq!(record(1, &[]).lookup_key(), Err(EnrichError::EmptyCapes));
}

#[test]
fn empty_capes_after_a_reply_stops_the_run() {
    let (mut p, _) = started(vec![record(1, &["A"]), record(2, &[]), record(3, &["C"])]);
    assert!(matches!(p.step(Event::ProfileFound(profile("A"))), Action::SendEmbed(_)));
    assert_eq!(p.step(Event::ReplySent), Action::SendError(RunError::Enrich(EnrichError::EmptyCapes)));
    assert_eq!(p.step(Event::ReplySent), Action::Nothing);
}

#[test]
fn unknown_cape_type_is_a_decode_error() {
    assert_eq!(Type::from_tag("STAFF"), Err(CatalogError::UnknownCapeType("STAFF".to_string())));
    assert_eq!(Type::from_tag("contributor"), Err(CatalogError::UnknownCapeType("contributor".to_string())));
    assert_eq!(Type::from_tag(""), Err(CatalogError::UnknownCapeType(String::new())));
    assert_eq!(Type::from_tag("CONTRIBUTOR"), Ok(Type::Contributor));
    let body = EXAMPLE.replace("CONTRIBUTOR", "DONATOR");
    assert_eq!(decode_catalog(&body), Err(CatalogError::UnknownCapeType("DONATOR".to_string())));
}

#[test]
fn cape_type_tag_round_trips() {
    assert_eq!(Type::Contributor.tag(), "CONTRIBUTOR");
    assert_eq!(Type::from_tag(&Type::Contributor.tag()), Ok(Type::Contributor));
}

#[test]
fn catalog_failure_is_reported_once() {
    let mut p = Pipeline::new();
    p.step(Event::Message("!test".to_string()));
    assert_eq!(
        p.step(Event::CatalogFailed(CatalogError::Transport)),
        Action::SendError(RunError::Catalog(CatalogError::Transport))
    );
    assert_eq!(p.step(Event::ReplySent), Action::Nothing);
    let mut q = Pipeline::new();
    q.step(Event::Message("!test".to_string()));
    assert_eq!(
        q.step(Event::CatalogFailed(CatalogError::Malformed)),
        Action::SendError(RunError::Catalog(CatalogError::Malformed))
    );
}

#[test]
fn empty_catalog_finishes_without_replies() {
    let (p, a) = started(Vec::new());
    assert_eq!(a, Action::Nothing);
    assert_eq!(*p.phase(), Phase::Finished);
}

#[test]
fn lookup_failure_stops_the_run() {
    let (mut p, _) = started(vec![record(1, &["A"]), record(2, &["B"])]);
    assert_eq!(p.step(Event::ProfileFailed), Action::SendError(RunError::Enrich(EnrichError::LookupFailed)));
    assert_eq!(p.step(Event::ReplySent), Action::Nothing);
}

#[test]
fn profile_without_skin_stops_the_run() {
    let (mut p, _) = started(vec![record(1, &["A"])]);
    let bare = Profile { name: "A".to_string(), skin_url: None };
    assert_eq!(p.step(Event::ProfileFound(bare)), Action::SendError(RunError::Enrich(EnrichError::MissingSkin)));
}

#[test]
fn unexpected_events_change_nothing() {
    let mut p = Pipeline::new();
    assert_eq!(p.step(Event::ReplySent), Action::Nothing);
    assert_eq!(p.step(Event::ProfileFailed), Action::Nothing);
    assert_eq!(*p.phase(), Phase::Idle);
    p.step(Event::Message("!test".to_string()));
    assert_eq!(p.step(Event::ProfileFound(profile("A"))), Action::Nothing);
    assert_eq!(*p.phase(), Phase::Fetching);
}

#[test]
fn embed_data_uses_first_cape_player() {
    let d = PlayerEmbedData::new(record(7, &["first", "second"]), profile("Bob")).unwrap();
    assert_eq!(d.username, "Bob");
    assert_eq!(d.uuid, "first");
    assert_eq!(d.skin_url, "https://skins/Bob.png");
    assert_eq!(d.capes, record(7, &["first", "second"]).capes);
    assert_eq!(record(7, &["first", "second"]).lookup_key(), Ok("first".to_string()));
}

#[test]
fn embed_data_errors() {
    assert_eq!(PlayerEmbedData::new(record(1, &[]), profile("A")), Err(EnrichError::EmptyCapes));
    let bare = Profile { name: "A".to_string(), skin_url: None };
    assert_eq!(PlayerEmbedData::new(record(1, &["a"]), bare), Err(EnrichError::MissingSkin));
}

#[test]
fn text_equality() {
    assert!(text_equals("", ""));
    assert!(text_equals("héllo", "héllo"));
    assert!(!text_equals("héllo", "hello"));
    assert!(!text_equals("ab", "abc"));
}
