use statusbar::battery::{battery_snapshot, bluetooth_emoji, join_strings, BluetoothDevice};
use statusbar::date::{DateBlock, LocalTime};
use statusbar::hidpp::{
    battery_request, count_request, device_label, identity_request, parse_battery_reply, parse_count_reply,
    parse_identity_reply, BatteryStatus, Device, DeviceKind, DeviceScan, HidppMessageHeader, HidppMessageLong,
    HidppMessageShort, ASK_FOR_BATTERY,
};
use statusbar::producers::{
    dunst_snapshot, dunst_toggles, route_interface, temperature_snapshot, volume_action, volume_snapshot,
    text_before, text_before_two_spaces, DefaultRouteBlock, IPBlock, VolumeAction,
};
use statusbar::snapshot::{Block, I3Event, Markup};
use statusbar::socket::{push_path, socket_click_line, socket_dir, socket_path, socket_snapshot};
use statusbar::text::decimal_string;
use statusbar::timesheet::{
    day_totals, notification_text, notify_step, seconds_to_timestamp, timesheet_action, timesheet_snapshot,
    TimesheetAction, TimesheetState,
};

fn click(button: u8) -> I3Event {
    I3Event { name: None, button }
}

#[test]
fn header_bytes() {
    let long = HidppMessageHeader { long_message: true, device_index: 2, message_type: 0x08 };
    assert_eq!(long.to_binary(), [0x11, 2, 0x08]);
    let short = HidppMessageHeader { long_message: false, device_index: 0xff, message_type: 0x81 };
    assert_eq!(short.to_binary(), [0x10, 0xff, 0x81]);
}

#[test]
fn message_bytes() {
    assert_eq!(count_request().to_binary(), [0x10, 0xff, 0x81, 0x02, 0, 0, 0]);
    assert_eq!(identity_request(3).to_binary(), [0x10, 0xff, 0x83, 0xb5, 0x53, 0, 0]);
    let battery = battery_request(3).to_binary();
    assert_eq!(&battery[..4], &[0x11, 3, 0x08, 19]);
    assert!(battery[4..].iter().all(|b| *b == 0));
    let short = HidppMessageShort {
        header: HidppMessageHeader { long_message: false, device_index: 1, message_type: 2 },
        data: [9, 8, 7, 6],
    };
    assert_eq!(short.to_binary(), [0x10, 1, 2, 9, 8, 7, 6]);
    let mut data = [0u8; 17];
    data[16] = 42;
    let long = HidppMessageLong {
        header: HidppMessageHeader { long_message: true, device_index: 1, message_type: 2 },
        data,
    };
    let bytes = long.to_binary();
    assert_eq!(bytes.len(), 20);
    assert_eq!(bytes[19], 42);
    assert_eq!(ASK_FOR_BATTERY[0], 19);
}

#[test]
fn receiver_replies() {
    assert_eq!(parse_count_reply(&[0x10, 0xff, 0x81, 0, 0, 2, 0]), Some(2));
    assert_eq!(parse_count_reply(&[0x10, 0xff, 0x8f, 0, 0, 2, 0]), None);
    let mut identity = [0u8; 20];
    identity[..3].copy_from_slice(&[0x11, 0xff, 0x83]);
    identity[5] = 0x02;
    assert_eq!(parse_identity_reply(&identity), Some(0x02));
    identity[0] = 0x10;
    assert_eq!(parse_identity_reply(&identity), None);

    let mut battery = [0u8; 20];
    battery[..3].copy_from_slice(&[0x11, 1, 0x08]);
    battery[4] = 55;
    battery[6] = 0x01;
    assert_eq!(
        parse_battery_reply(1, 0x02, &battery),
        Some(Device { kind: DeviceKind::Mouse, charge: 55, status: BatteryStatus::Recharging })
    );
    assert_eq!(parse_battery_reply(2, 0x02, &battery), None);
}

#[test]
fn device_kinds_and_statuses() {
    assert_eq!(DeviceKind::from(0x01), DeviceKind::Keyboard);
    assert_eq!(DeviceKind::from(0x0d), DeviceKind::Headset);
    assert_eq!(DeviceKind::from(0x0f), DeviceKind::Receiver);
    assert_eq!(DeviceKind::from(0x05), DeviceKind::Unknown);
    assert_eq!(BatteryStatus::from(0x00), BatteryStatus::Discharging);
    assert_eq!(BatteryStatus::from(0x03), BatteryStatus::Full);
    assert_eq!(BatteryStatus::from(0x05), BatteryStatus::InvalidBattery);
    assert_eq!(BatteryStatus::from(0x06), BatteryStatus::ThermalError);
    assert_eq!(DeviceKind::Mouse.emoji(), "🖱️");
    assert_eq!(DeviceKind::RemoteControl.emoji(), "🎮");
    assert_eq!(DeviceKind::Remote.emoji(), "🎮");
    assert_eq!(DeviceKind::Unknown.emoji(), "❓");
}

#[test]
fn device_labels() {
    let low = Device { kind: DeviceKind::Mouse, charge: 15, status: BatteryStatus::Discharging };
    assert_eq!(device_label(&low), "🖱️<span foreground='#ff0202'>15%</span>");
    let full = Device { kind: DeviceKind::Keyboard, charge: 80, status: BatteryStatus::Full };
    assert_eq!(device_label(&full), "⌨️'80%");
    let edge = Device { kind: DeviceKind::Headset, charge: 20, status: BatteryStatus::Full };
    assert_eq!(device_label(&edge), "🎧<span foreground='#ff0202'>20%</span>");
    let charging = Device { kind: DeviceKind::Headset, charge: 50, status: BatteryStatus::SlowRecharge };
    assert_eq!(device_label(&charging), "🎧<span foreground='#02ff02'>50%</span>");
    let hot = Device { kind: DeviceKind::Unknown, charge: 100, status: BatteryStatus::ThermalError };
    assert_eq!(device_label(&hot), "❓<span foreground='#ff0202'>(!) 100%</span>");
}

#[test]
fn battery_entry_parts() {
    let phone = vec![BluetoothDevice { icon: Some("phone".to_string()), percentage: 80 }];
    let mouse = vec![Device { kind: DeviceKind::Mouse, charge: 50, status: BatteryStatus::Discharging }];
    let power = "🔋50% 1.00W-".to_string();

    let all = battery_snapshot(&power, &phone, &mouse).unwrap();
    assert_eq!(all.full_text, "🔋50% 1.00W-  📱80%  🖱️50%");
    assert_eq!(all.markup, Some(Markup::Pango));

    let receiver_only = battery_snapshot(&String::new(), &vec![], &mouse).unwrap();
    assert_eq!(receiver_only.full_text, "🖱️50%");

    let bluetooth_only = battery_snapshot(&String::new(), &phone, &vec![]).unwrap();
    assert_eq!(bluetooth_only.full_text, "  📱80%");

    let two = vec![
        BluetoothDevice { icon: Some("audio-headset".to_string()), percentage: 5 },
        BluetoothDevice { icon: None, percentage: 60 },
    ];
    let both = battery_snapshot(&String::new(), &two, &mouse).unwrap();
    assert_eq!(both.full_text, "  🎧5%  60%  🖱️50%");

    assert!(battery_snapshot(&String::new(), &vec![], &vec![]).is_none());
}

#[test]
fn bluetooth_symbols() {
    assert_eq!(bluetooth_emoji(&Some("printer".to_string())), "🖨️");
    assert_eq!(bluetooth_emoji(&Some("network-wireless".to_string())), "🛜");
    assert_eq!(bluetooth_emoji(&Some("toaster".to_string())), "");
    assert_eq!(bluetooth_emoji(&None), "");
}

#[test]
fn joining() {
    let parts = vec!["a".to_string(), "b".to_string(), "c".to_string()];
    assert_eq!(join_strings(&parts, ", "), "a, b, c");
    assert_eq!(join_strings(&vec![], ", "), "");
}

#[test]
fn durations_as_hours_and_minutes() {
    let cases: [(i64, &str); 13] = [
        (0, "0:00"),
        (59, "0:01"),
        (60, "0:01"),
        (61, "0:02"),
        (3599, "1:00"),
        (3600, "1:00"),
        (3661, "1:02"),
        (36000, "10:00"),
        (-60, "0:-1"),
        (-90, "0:-1"),
        (-3600, "-1:00"),
        (-3700, "-1:-1"),
        (-30, "0:00"),
    ];
    for (seconds, text) in cases {
        assert_eq!(seconds_to_timestamp(seconds), text, "{seconds}");
    }
    assert_eq!(seconds_to_timestamp(i64::MIN).len() > 3, true);
}

#[test]
fn timesheet_entry() {
    assert!(timesheet_snapshot(TimesheetState::NoData).is_none());
    let err = timesheet_snapshot(TimesheetState::Error).unwrap();
    assert_eq!(err.full_text, "ERROR");
    assert_eq!(err.color.as_deref(), Some("#ff0202"));
    let idle = timesheet_snapshot(TimesheetState::Available { today: 3600, running: 0 }).unwrap();
    assert_eq!(idle.full_text, "1:00");
    assert_eq!(idle.short_text.as_deref(), Some("1:00"));
    assert_eq!(idle.markup, Some(Markup::Pango));
    let busy = timesheet_snapshot(TimesheetState::Available { today: 3600, running: 1800 }).unwrap();
    assert_eq!(busy.full_text, "<span foreground='#02ff02'>0:30 (1:30)</span>");
    assert_eq!(busy.short_text.as_deref(), Some("1:30"));
}

#[test]
fn daily_hours_notification() {
    assert_eq!(notify_step(Some(8), 8 * 3600, false, 10), (true, true));
    assert_eq!(notify_step(Some(8), 9 * 3600, true, 10), (true, false));
    assert_eq!(notify_step(Some(8), 8 * 3600 - 1, true, 10), (false, false));
    assert_eq!(notify_step(Some(8), 8 * 3600, false, 0), (false, false));
    assert_eq!(notify_step(None, 10 * 3600, false, 10), (false, false));
    assert_eq!(notify_step(Some(0), -3599, false, 10), (true, true));
    assert_eq!(notification_text(8), "You have reached your daily 8h");
}

#[test]
fn timesheet_clicks_and_totals() {
    assert_eq!(timesheet_action(1), Some(TimesheetAction::Refresh));
    assert_eq!(timesheet_action(2), Some(TimesheetAction::Stop));
    assert_eq!(timesheet_action(3), Some(TimesheetAction::Restart));
    assert_eq!(timesheet_action(4), None);
    assert_eq!(day_totals(&vec![100, 200], &vec![Some(-30), None, Some(40)]), Some((300, 70)));
    assert_eq!(day_totals(&vec![], &vec![]), Some((0, 0)));
    assert_eq!(day_totals(&vec![i64::MAX, 1], &vec![]), None);
    assert_eq!(day_totals(&vec![i64::MAX, 1, -1], &vec![]), Some((i64::MAX, 0)));
    assert_eq!(day_totals(&vec![], &vec![Some(i64::MIN)]), None);
}

#[test]
fn temperature_entry() {
    let cool = temperature_snapshot(Some(45500), Some(80000));
    assert_eq!(cool.full_text, "45°C");
    assert!(cool.color.is_none());
    let hot = temperature_snapshot(Some(80000), Some(80000));
    assert_eq!(hot.full_text, "80°C");
    assert_eq!(hot.color.as_deref(), Some("#ff0202"));
    let unknown_high = temperature_snapshot(Some(99000), None);
    assert!(unknown_high.color.is_none());
    let err = temperature_snapshot(None, Some(1));
    assert_eq!(err.full_text, "ERROR");
    assert_eq!(err.color.as_deref(), Some("#ff0202"));
}

#[test]
fn volume_entry_and_clicks() {
    assert_eq!(volume_snapshot(40, false).full_text, "40%");
    let muted = volume_snapshot(40, true);
    assert_eq!(muted.full_text, "muted");
    assert_eq!(muted.color.as_deref(), Some("#ff0202"));
    assert_eq!(volume_action(&click(1)), Some(VolumeAction::OpenMixer));
    assert_eq!(volume_action(&click(2)), None);
    assert_eq!(volume_action(&click(3)), Some(VolumeAction::ToggleMute));
    assert_eq!(volume_action(&click(4)), Some(VolumeAction::VolumeUp));
    assert_eq!(volume_action(&click(5)), Some(VolumeAction::VolumeDown));
}

#[test]
fn notification_entry_and_clicks() {
    let paused = dunst_snapshot(true);
    assert_eq!(paused.full_text, "paused");
    assert_eq!(paused.color.as_deref(), Some("#ff0202"));
    assert_eq!(dunst_snapshot(false).full_text, "📢");
    assert!(dunst_toggles(&click(3)));
    assert!(!dunst_toggles(&click(1)));
}

#[test]
fn default_route_lines() {
    assert_eq!(route_interface("eth0\t00000000\t0101A8C0\t0003"), Some("eth0".to_string()));
    assert_eq!(route_interface("eth1\t00000000"), Some("eth1".to_string()));
    assert_eq!(route_interface("wlan0\t0000A8C0\t00000000"), None);
    assert_eq!(route_interface("00000000"), None);
    assert_eq!(route_interface("\t00000000\tx"), Some(String::new()));

    let table = vec![
        "Iface\tDestination\tGateway".to_string(),
        "wlan0\t0000A8C0\t00000000".to_string(),
        "wlan0\t00000000\t0101A8C0".to_string(),
        "eth0\t00000000\t0101A8C0".to_string(),
    ];
    assert_eq!(DefaultRouteBlock::default().snapshot(&table).full_text, "wlan0");
    let none = DefaultRouteBlock::default().snapshot(&table[..2].to_vec());
    assert_eq!(none.full_text, "No link");
    assert_eq!(none.color.as_deref(), Some("#ff0202"));
}

#[test]
fn date_entry() {
    let t = LocalTime { iso_week: 3, month: 1, day: 5, hour: 9, minute: 7 };
    let b = DateBlock::default().snapshot_at(&t);
    assert_eq!(b.full_text, "(KW03) 05.01. (Jan) 09:07");
    assert_eq!(b.short_text.as_deref(), Some("09:07"));
    let t = LocalTime { iso_week: 52, month: 12, day: 24, hour: 23, minute: 59 };
    assert_eq!(DateBlock::default().snapshot_at(&t).full_text, "(KW52) 24.12. (Dec) 23:59");
    let now = DateBlock::default().render().unwrap();
    assert_eq!(now.full_text.chars().count(), 25);
}

#[test]
fn socket_paths() {
    assert_eq!(socket_dir("/run/user/1000"), "/run/user/1000/statusbar");
    assert_eq!(socket_path("battery", "/run/user/1000"), "/run/user/1000/statusbar/battery");
    assert_eq!(socket_path("battery", "/run/user/1000/"), "/run/user/1000/statusbar/battery");
    assert_eq!(socket_path("/tmp/kimai", "/run/user/1000"), "/tmp/kimai");
    assert_eq!(push_path("", "x"), "x");
}

#[test]
fn socket_client_entry_and_clicks() {
    let content = statusbar::snapshot::I3Block::text("remote".to_string());
    assert_eq!(socket_snapshot(true, &content), Some(content.clone()));
    assert_eq!(socket_snapshot(false, &content), None);
    assert_eq!(socket_click_line(true, &click(1)), Some("{\"name\":null,\"button\":1}\n".to_string()));
    assert_eq!(socket_click_line(false, &click(1)), None);
}

#[test]
fn decimal_text() {
    assert_eq!(decimal_string(0), "0");
    assert_eq!(decimal_string(1234567890), "1234567890");
    assert_eq!(decimal_string(u64::MAX), u64::MAX.to_string());
}

#[test]
fn device_scan_stops_at_reported_count() {
    let mouse = Device { kind: DeviceKind::Mouse, charge: 50, status: BatteryStatus::Discharging };
    let keyboard = Device { kind: DeviceKind::Keyboard, charge: 90, status: BatteryStatus::Full };
    let mut scan = DeviceScan::new(2);
    let mut asked = vec![];
    while let Some(slot) = scan.next_slot() {
        asked.push(slot);
        let answer = match slot {
            2 => Some(mouse),
            4 => Some(keyboard),
            _ => None,
        };
        scan.record(answer);
    }
    assert_eq!(asked, vec![1, 2, 3, 4]);
    assert_eq!(scan.into_devices(), vec![mouse, keyboard]);
}

#[test]
fn device_scan_asks_every_slot() {
    let mouse = Device { kind: DeviceKind::Mouse, charge: 50, status: BatteryStatus::Discharging };
    let mut scan = DeviceScan::new(0);
    let mut asked = vec![];
    while let Some(slot) = scan.next_slot() {
        asked.push(slot);
        scan.record(if slot == 7 { Some(mouse) } else { None });
    }
    assert_eq!(asked, vec![1, 2, 3, 4, 5, 6, 7]);
    assert_eq!(scan.into_devices(), vec![mouse]);
}

#[test]
fn address_entry() {
    let block = IPBlock::default();
    let wlan = Some("wlan0".to_string());
    let full = block.snapshot(&wlan, "home  1234-abcd  wifi  wlan0\n", "192.168.1.5:0");
    assert_eq!(full.full_text, "wlan0 - home - 192.168.1.5");
    assert!(full.color.is_none());
    assert_eq!(block.snapshot(&wlan, "", "").full_text, "wlan0");
    // a blank network name is kept as it is, without a dash
    assert_eq!(block.snapshot(&wlan, " \t", "").full_text, "wlan0 \t");
    let none = block.snapshot(&None, "x", "y");
    assert_eq!(none.full_text, "No link");
    assert_eq!(none.color.as_deref(), Some("#ff0202"));
}

#[test]
fn text_pieces() {
    assert_eq!(text_before("10.0.0.1:80", ':'), "10.0.0.1");
    assert_eq!(text_before("none", ':'), "none");
    assert_eq!(text_before_two_spaces("a b  c  d"), "a b");
    assert_eq!(text_before_two_spaces(" x"), " x");
    assert_eq!(text_before_two_spaces("  "), "");
    assert_eq!(text_before_two_spaces(""), "");
}
