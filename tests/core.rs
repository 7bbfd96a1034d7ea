use statusbar::adapters::{alt_line, bar_line, header_line, signal_event, stream_open, LineDedup};
use statusbar::broadcast::{server_payload, server_tick, ContentCache, SessionSet};
use statusbar::json::{event_json, frame_json, snapshot_json};
use statusbar::router::{classify_line, parse_index, route_event, LineKind, Route};
use statusbar::scheduler::assemble_frame;
use statusbar::snapshot::{I3Block, I3Event, Markup};

fn block(text: &str) -> I3Block {
    I3Block::text(text.to_string())
}

fn parse_event(line: &str) -> Option<I3Event> {
    let value: serde_json::Value = serde_json::from_str(line).ok()?;
    let object = value.as_object()?;
    let button = u8::try_from(object.get("button")?.as_u64()?).ok()?;
    let name = match object.get("name") {
        None | Some(serde_json::Value::Null) => None,
        Some(serde_json::Value::String(s)) => Some(s.clone()),
        Some(_) => return None,
    };
    Some(I3Event { name, button })
}

#[test]
fn three_producers_two_ticks() {
    let tick = vec![None, Some(block("x")), Some(block("y"))];
    let expected = "[{\"full_text\":\"x\",\"name\":\"1\"},{\"full_text\":\"y\",\"name\":\"2\"}]";

    let frame1 = assemble_frame(&tick);
    assert_eq!(frame1.len(), 2);
    assert_eq!(frame1[0].name, "1");
    assert_eq!(frame1[1].name, "2");
    assert_eq!(frame_json(&frame1), expected);
    let line1 = bar_line(&frame1);
    assert_eq!(line1, format!("{expected},"));

    let mut cache = ContentCache::new();
    assert!(cache.publish(frame_json(&frame1)));

    let frame2 = assemble_frame(&tick);
    let line2 = bar_line(&frame2);
    // the bar stream writes the unchanged frame again
    assert_eq!(line2, line1);
    // the broadcast server sends nothing for it
    assert!(!cache.publish(frame_json(&frame2)));
    assert_eq!(cache.current(), expected);
}

#[test]
fn frame_never_longer_than_registry() {
    let outputs = vec![Some(block("a")), None, None, Some(block("d")), Some(block("e"))];
    let frame = assemble_frame(&outputs);
    assert!(frame.len() <= outputs.len());
    let names: Vec<&str> = frame.iter().map(|b| b.name.as_str()).collect();
    assert_eq!(names, vec!["0", "3", "4"]);
    let texts: Vec<&str> = frame.iter().map(|b| b.full_text.as_str()).collect();
    assert_eq!(texts, vec!["a", "d", "e"]);
}

#[test]
fn all_producers_silent_gives_empty_frame() {
    let frame = assemble_frame(&vec![None, None]);
    assert!(frame.is_empty());
    assert_eq!(bar_line(&frame), "[],");
    assert_eq!(bar_line(&assemble_frame(&vec![])), "[],");
}

#[test]
fn frame_names_with_two_digits() {
    let outputs: Vec<Option<I3Block>> = (0..12).map(|i| if i == 11 { Some(block("z")) } else { None }).collect();
    let frame = assemble_frame(&outputs);
    assert_eq!(frame.len(), 1);
    assert_eq!(frame[0].name, "11");
}

#[test]
fn snapshot_json_with_every_field() {
    let b = I3Block {
        full_text: "a\"b\\c\n".to_string(),
        short_text: Some("s".to_string()),
        color: Some("#ff0202".to_string()),
        name: "3".to_string(),
        markup: Some(Markup::Pango),
        tooltip: Some("t".to_string()),
    };
    assert_eq!(
        snapshot_json(&b),
        "{\"full_text\":\"a\\\"b\\\\c\\n\",\"short_text\":\"s\",\"color\":\"#ff0202\",\"name\":\"3\",\"markup\":\"pango\",\"tooltip\":\"t\"}"
    );
}

#[test]
fn event_json_with_and_without_name() {
    let named = I3Event { name: Some("2".to_string()), button: 1 };
    assert_eq!(event_json(&named), "{\"name\":\"2\",\"button\":1}");
    let unnamed = I3Event { name: None, button: 255 };
    assert_eq!(event_json(&unnamed), "{\"name\":null,\"button\":255}");
}

#[test]
fn stream_header_and_opening() {
    assert_eq!(
        header_line(19, 18),
        "{\"version\":1,\"stop_signal\":19,\"cont_signal\":18,\"click_events\":true}"
    );
    assert_eq!(header_line(10, 12), "{\"version\":1,\"stop_signal\":10,\"cont_signal\":12,\"click_events\":true}");
    assert_eq!(stream_open(), "[");
}

#[test]
fn repeated_payload_is_not_broadcast() {
    let mut cache = ContentCache::new();
    let out = Some(block("50%"));
    assert!(server_tick(&mut cache, &out));
    assert!(!server_tick(&mut cache, &out));
    assert!(server_tick(&mut cache, &Some(block("51%"))));
    assert!(!server_tick(&mut cache, &Some(block("51%"))));
}

#[test]
fn late_joiner_gets_current_payload() {
    let mut cache = ContentCache::new();
    assert_eq!(cache.current(), "");
    for text in ["a", "b", "b", "c"] {
        server_tick(&mut cache, &Some(block(text)));
    }
    assert_eq!(cache.current(), "{\"full_text\":\"c\",\"name\":\"\"}\n");
}

#[test]
fn placeholder_payload_when_nothing_rendered() {
    assert_eq!(server_payload(&None), "{\"full_text\":\"\", \"name\":\"\"}\n");
    assert_eq!(server_payload(&Some(block("x"))), "{\"full_text\":\"x\",\"name\":\"\"}\n");
}

#[test]
fn fan_out_survives_disconnect() {
    let mut sessions = SessionSet::new();
    for id in [10u32, 11, 12, 13] {
        sessions.insert(id);
    }
    assert_eq!(sessions.len(), 4);
    // a fan-out over the first three found the second one gone; the fourth joined meanwhile
    let dropped = sessions.retain_live(&vec![true, false, true]);
    assert_eq!(dropped, 1);
    let left: Vec<u32> = (0..sessions.len()).map(|i| *sessions.get(i)).collect();
    assert_eq!(left, vec![10, 12, 13]);
    assert_eq!(sessions.retain_live(&vec![true, true, true]), 0);
    assert_eq!(sessions.len(), 3);
}

#[test]
fn event_round_trip() {
    let event = parse_event("{\"name\":\"2\",\"button\":1}").unwrap();
    assert_eq!(route_event(&Some(event), 3), Route::Dispatch(2));
    let far = parse_event("{\"name\":\"99\",\"button\":1}").unwrap();
    let route = route_event(&Some(far), 3);
    assert_eq!(route, Route::UnknownBlock(99));
    assert!(!route.message().is_empty());
}

#[test]
fn malformed_line_does_not_stop_router() {
    let lines = ["[", "not json", ",{\"name\":\"0\",\"button\":3}", ""];
    let mut routes = vec![];
    for line in lines {
        match classify_line(line) {
            LineKind::Skip => {}
            LineKind::Payload(p) => routes.push(route_event(&parse_event(&p), 2)),
        }
    }
    assert_eq!(routes, vec![Route::Malformed, Route::Dispatch(0)]);
}

#[test]
fn events_without_usable_name() {
    let none = I3Event { name: None, button: 1 };
    assert_eq!(route_event(&Some(none), 3), Route::NoName);
    let bad = I3Event { name: Some("volume".to_string()), button: 1 };
    assert_eq!(route_event(&Some(bad), 3), Route::BadName);
    let edge = I3Event { name: Some("3".to_string()), button: 1 };
    assert_eq!(route_event(&Some(edge), 3), Route::UnknownBlock(3));
    assert_eq!(route_event(&None, 3), Route::Malformed);
    assert!(Route::Dispatch(0).message().is_empty());
}

#[test]
fn line_framing() {
    assert_eq!(classify_line(""), LineKind::Skip);
    assert_eq!(classify_line("["), LineKind::Skip);
    assert_eq!(classify_line(",{}"), LineKind::Payload("{}".to_string()));
    assert_eq!(classify_line("{}"), LineKind::Payload("{}".to_string()));
    assert_eq!(classify_line(",,"), LineKind::Payload(",".to_string()));
    assert_eq!(classify_line("[["), LineKind::Payload("[[".to_string()));
}

#[test]
fn index_parsing_matches_std() {
    for s in [
        "0", "2", "007", "+7", "", "+", "-", "-1", "1a", " 1", "١",
        "18446744073709551615", "18446744073709551616", "99999999999999999999999",
    ] {
        assert_eq!(parse_index(s), s.parse::<usize>().ok(), "{s}");
    }
    assert_eq!(parse_index("+12"), Some(12));
}

#[test]
fn alternate_bar_lines() {
    let mut b = block("hi");
    b.color = Some("#f00".to_string());
    assert_eq!(alt_line(&Some(b.clone())), "{\"text\":\"<span color='#f00'>hi</span>\",\"tooltip\":null}");
    b.color = None;
    b.tooltip = Some("tip \"q\"".to_string());
    assert_eq!(alt_line(&Some(b)), "{\"text\":\"hi\",\"tooltip\":\"tip \\\"q\\\"\"}");
    assert_eq!(alt_line(&None), "{\"text\":\"\"}");
}

#[test]
fn alternate_bar_writes_changes_only() {
    let mut dedup = LineDedup::new();
    assert_eq!(dedup.offer("a".to_string()), Some("a".to_string()));
    assert_eq!(dedup.offer("a".to_string()), None);
    assert_eq!(dedup.offer("b".to_string()), Some("b".to_string()));
    assert_eq!(dedup.offer("a".to_string()), Some("a".to_string()));
}

#[test]
fn signals_stand_for_clicks() {
    assert_eq!(signal_event(35), Some(I3Event { name: None, button: 1 }));
    assert_eq!(signal_event(36), Some(I3Event { name: None, button: 2 }));
    assert_eq!(signal_event(37), Some(I3Event { name: None, button: 3 }));
    assert_eq!(signal_event(34), None);
    assert_eq!(signal_event(38), None);
}

#[test]
fn default_snapshot_is_empty() {
    let b = I3Block::default();
    assert_eq!(b.full_text, "");
    assert_eq!(b.name, "");
    assert!(b.color.is_none() && b.short_text.is_none() && b.markup.is_none() && b.tooltip.is_none());
    assert_eq!(I3Event::default(), I3Event { name: None, button: 0 });
    assert_eq!(Markup::Pango.as_str(), "pango");
}
