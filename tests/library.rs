use sunrise_sunset_calculator::SunriseSunsetParameters;
use gixie::args::{Arguments, CliCommand, SetOptions};
use gixie::brightness::calculate;
use gixie::config::{date_fmt_default, Brightness, Clock, Config};
use gixie::connection::{CmdType, Connection, Request, Response};
use gixie::error::{AppError, Error};
use gixie::suninfo::{midday, timezone_offset, SunInfo};
use gixie::transition::{smooth_transition, Action, Transition};

fn config(server: &str) -> Config {
    Config {
        clock: Clock { timezone: 1, server: server.to_string(), date_fmt: date_fmt_default() },
        brightness: Brightness { min: 10, max: 200, step: 10, num: 3 },
    }
}

fn info(now: i64) -> SunInfo {
    SunInfo { now, sunrise: 1000, sunset: 5000, offset: 0 }
}

/// Drives a transition against a device that answers each write with the
/// next entry of `replies` (accepting once they run out).
fn drive(current: u8, target: u8, step: u8, replies: &[bool]) -> (Vec<u8>, bool) {
    let mut t = Transition::new(current, target, step);
    let mut written = Vec::new();
    loop {
        match t.next_action() {
            Action::Apply(v) => {
                let accepted = replies.get(written.len()).copied().unwrap_or(true);
                written.push(v);
                t.record(accepted);
            }
            Action::Finish(ok) => return (written, ok),
        }
    }
}

fn ready_connection() -> Connection {
    let mut c = Connection::connect(&config("ws://192.168.1.20:81")).unwrap();
    while c.in_greeting() {
        c.discard_greeting_frame();
    }
    c
}

fn reply(res_code: u16, cmd_type: CmdType, data: Option<u8>) -> Response {
    Response { res_code, cmd_type, cmd_num: 3, data }
}

#[test]
fn policy_before_sunrise_is_min() {
    assert_eq!(calculate(&config("ws://x"), &info(999)), 10);
}

#[test]
fn policy_daytime_is_max() {
    assert_eq!(calculate(&config("ws://x"), &info(1000)), 200);
    assert_eq!(calculate(&config("ws://x"), &info(4999)), 200);
}

#[test]
fn policy_after_sunset_is_min() {
    assert_eq!(calculate(&config("ws://x"), &info(5000)), 10);
    assert_eq!(calculate(&config("ws://x"), &info(9000)), 10);
}

#[test]
fn transition_unchanged_sends_nothing() {
    let (written, ok) = drive(50, 50, 10, &[]);
    assert!(written.is_empty());
    assert!(ok);
}

#[test]
fn transition_upward_steps() {
    let (written, ok) = drive(0, 100, 10, &[]);
    assert_eq!(written, vec![0, 10, 20, 30, 40, 50, 60, 70, 80, 90, 100]);
    assert!(ok);
}

#[test]
fn transition_downward_is_reverse() {
    let (up, _) = drive(0, 100, 10, &[]);
    let (down, ok) = drive(100, 0, 10, &[]);
    let mut reversed = up.clone();
    reversed.reverse();
    assert_eq!(down, reversed);
    assert!(ok);
}

#[test]
fn transition_stops_at_first_refusal() {
    let (written, ok) = drive(0, 40, 10, &[true, true, false, true, true]);
    assert_eq!(smooth_transition(0, 40, 10).len(), 5);
    assert_eq!(written, vec![0, 10, 20]);
    assert!(!ok);
}

#[test]
fn transition_unaligned_range_misses_target() {
    assert_eq!(smooth_transition(3, 30, 10), vec![3, 13, 23]);
    assert_eq!(smooth_transition(30, 3, 10), vec![23, 13, 3]);
}

#[test]
fn transition_full_range() {
    let v = smooth_transition(0, 255, 255);
    assert_eq!(v, vec![0, 255]);
    assert_eq!(smooth_transition(255, 0, 1).len(), 256);
    assert_eq!(smooth_transition(7, 7, 3), vec![7]);
}

#[test]
fn request_json_texts() {
    assert_eq!(Request::get(3).to_json(), "{\"cmdType\":0,\"cmdNum\":3}");
    assert_eq!(
        Request::set(12, 128).to_json(),
        "{\"cmdType\":1,\"cmdNum\":12,\"cmdCtx\":{\"value\":128}}"
    );
    assert_eq!(Request::set(255, 0).to_json(), "{\"cmdType\":1,\"cmdNum\":255,\"cmdCtx\":{\"value\":0}}");
}

#[test]
fn connect_rejects_bad_url() {
    assert!(matches!(Connection::connect(&config("not a url")), Err(Error::Url(_))));
}

#[test]
fn connect_expects_two_greeting_frames() {
    let mut c = Connection::connect(&config("ws://192.168.1.20:81")).unwrap();
    assert_eq!(c.url().as_str(), "ws://192.168.1.20:81/");
    assert!(c.in_greeting());
    c.discard_greeting_frame();
    assert!(c.in_greeting());
    assert!(!c.is_ready());
    c.discard_greeting_frame();
    assert!(!c.in_greeting());
    assert!(c.is_ready());
}

#[test]
fn get_returns_data() {
    let mut c = ready_connection();
    let text = c.get(&config("ws://x"));
    assert_eq!(text, "{\"cmdType\":0,\"cmdNum\":3}");
    assert!(!c.is_ready());
    assert!(matches!(c.get_reply(&reply(200, CmdType::Get, Some(42))), Ok(42)));
    assert!(c.is_ready());
}

#[test]
fn get_missing_data_fails() {
    let mut c = ready_connection();
    c.get(&config("ws://x"));
    let r = c.get_reply(&reply(200, CmdType::Get, None));
    assert!(matches!(r, Err(Error::App(AppError::MissingData))));
}

#[test]
fn set_reports_acceptance() {
    let mut c = ready_connection();
    let text = c.set(&config("ws://x"), 77);
    assert_eq!(text, "{\"cmdType\":1,\"cmdNum\":3,\"cmdCtx\":{\"value\":77}}");
    assert!(c.set_reply(&reply(200, CmdType::Put, None)));
    c.set(&config("ws://x"), 78);
    assert!(!c.set_reply(&reply(500, CmdType::Put, None)));
    assert!(c.is_ready());
}

#[test]
fn timezone_offsets() {
    assert!(matches!(timezone_offset(2), Ok(7200)));
    assert!(matches!(timezone_offset(-23), Ok(-82800)));
    assert!(matches!(timezone_offset(0), Ok(0)));
    assert!(matches!(timezone_offset(24), Err(Error::App(AppError::TimezoneConstruct))));
    assert!(matches!(timezone_offset(i32::MAX), Err(Error::App(AppError::TimezoneConstruct))));
}

#[test]
fn midday_of_local_day() {
    assert!(matches!(midday(0, 1_700_000_000), Ok(1_699_963_200)));
    assert!(matches!(midday(2, 1_700_000_000), Ok(1_700_042_400)));
    assert!(matches!(midday(0, -1), Ok(-43_200)));
    assert!(matches!(midday(-5, 0), Ok(-25_200)));
}

#[test]
fn midday_errors() {
    assert!(matches!(midday(30, 0), Err(Error::App(AppError::TimezoneConstruct))));
    assert!(matches!(midday(0, i64::MAX), Err(Error::App(AppError::MiddayConstruct))));
}

#[test]
fn sun_times_gathered() {
    let s = SunInfo::from_sun_times(1, 1_700_000_000, 1_699_990_000, 1_700_020_000).unwrap();
    assert_eq!(s, SunInfo { now: 1_700_000_000, sunrise: 1_699_990_000, sunset: 1_700_020_000, offset: 3600 });
}

#[test]
fn sun_times_out_of_range() {
    let r = SunInfo::from_sun_times(1, 0, i64::MAX, 10);
    assert!(matches!(r, Err(Error::App(AppError::TimestampParse))));
    let r = SunInfo::from_sun_times(99, 0, 1, 10);
    assert!(matches!(r, Err(Error::App(AppError::TimezoneConstruct))));
}

#[test]
fn default_date_format() {
    assert_eq!(date_fmt_default(), "%Y-%m-%d %H:%M");
}

#[test]
fn error_messages() {
    assert_eq!(AppError::MissingData.message(), "Missing data key in json response");
    assert_eq!(AppError::TimestampParse.message(), "Cannot construct NaiveDateTime from timestamp");
}

#[test]
fn arguments_hold_subcommand() {
    let a = Arguments {
        config: "config.yaml".to_string(),
        cli: Some(CliCommand::Put(SetOptions { smooth: true, value: 9 })),
        verbose: false,
    };
    assert_eq!(a.cli, Some(CliCommand::Put(SetOptions { smooth: true, value: 9 })));
}

#[test]
fn sun_times_bracket_midday() {
    // 2024-06-21, ten o'clock UTC, in Berlin (two hours east of UTC).
    let now: i64 = 1_718_964_000;
    let noon = midday(2, now).unwrap();
    assert_eq!(noon, 1_718_964_000);
    let result = SunriseSunsetParameters::new(noon, 52.52, 13.405).calculate().unwrap();
    let info = SunInfo::from_sun_times(2, now, result.rise, result.set).unwrap();
    assert!(info.sunrise < noon && noon < info.sunset);
    assert_eq!(calculate(&config("ws://x"), &info), 200);
}
