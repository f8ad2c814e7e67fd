use registration_relay::config::{on_notice, Notice, Persist, RelayConfig};
use registration_relay::encoding::base64_encode;
use registration_relay::error::RelayError;
use registration_relay::health::ResourceState;
use registration_relay::model::{Directive, WakeCause};
use registration_relay::relay::{
    on_inbound, CommandData, IdentityProperty, Inbound, Keepalive, PollAction, Relay,
    RelayCommand, RelayResource, RelayState, RelayVersions, Request, PING_INTERVAL,
};

const SECOND: u128 = 1_000_000_000;
const URL: &str = "wss://relay.example/api/v1/provider";

fn credentials(code: &str, secret: &str) -> RelayState {
    RelayState { code: code.to_string(), secret: secret.to_string() }
}

fn command(name: &str, id: Option<u64>) -> RelayCommand {
    RelayCommand { command: name.to_string(), id, data: None }
}

fn versions() -> RelayVersions {
    RelayVersions::new(
        "iPhone10,4".to_string(),
        "14.3".to_string(),
        "18C66".to_string(),
        "00008020-0123456789ABCDEF".to_string(),
        "F4GXK0ABCDEF".to_string(),
    )
}

#[test]
fn registering_without_credentials_ends_generated_and_is_kept() {
    let mut relay: Relay<u8> = RelayResource::new(URL.to_string(), None);
    assert_eq!(relay.wake(WakeCause::TaskExited), Directive::Generate);

    let request = relay.resource().registration();
    assert_eq!(
        request,
        RelayCommand {
            command: "register".to_string(),
            id: None,
            data: Some(CommandData::Empty {}),
        }
    );

    let reply = RelayCommand {
        command: "response".to_string(),
        id: None,
        data: Some(CommandData::Code { code: credentials("ABC", "xyz") }),
    };
    assert!(relay.resource_mut().accept_registration(reply).is_ok());

    let mut notifications = 0;
    notifications += relay.generation_succeeded(SECOND).notify as u32;
    assert!(matches!(relay.resource_state(), ResourceState::Generated));
    notifications += relay.generation_succeeded(2 * SECOND).notify as u32;
    assert_eq!(relay.wake(WakeCause::Signalled), Directive::Wait);
    assert_eq!(notifications, 1);

    let kept = RelayConfig::from_relay(&relay);
    assert_eq!(
        kept,
        RelayConfig { url: URL.to_string(), state: Some(credentials("ABC", "xyz")) }
    );
}

#[test]
fn registering_again_sends_the_credentials_held() {
    let resource = RelayResource { url: URL.to_string(), state: Some(credentials("ABC", "xyz")) };
    let request = resource.registration();
    assert_eq!(request.command, "register");
    assert_eq!(request.id, None);
    assert_eq!(request.data, Some(CommandData::Code { code: credentials("ABC", "xyz") }));
}

#[test]
fn a_reply_without_credentials_is_a_fault_of_the_attempt() {
    let bad_replies = [
        RelayCommand { command: "response".to_string(), id: None, data: None },
        RelayCommand {
            command: "response".to_string(),
            id: Some(1),
            data: Some(CommandData::Empty {}),
        },
        RelayCommand {
            command: "response".to_string(),
            id: None,
            data: Some(CommandData::ValidationData { data: "QUJD".to_string() }),
        },
        RelayCommand {
            command: "response".to_string(),
            id: None,
            data: Some(CommandData::Versions { versions: versions() }),
        },
    ];
    for reply in bad_replies {
        let mut resource =
            RelayResource { url: URL.to_string(), state: Some(credentials("old", "older")) };
        match resource.accept_registration(reply) {
            Err(RelayError::ResourcePanic(text)) => assert_eq!(text, "bad response!"),
            _ => panic!("the reply should be refused"),
        }
        assert_eq!(resource.state, Some(credentials("old", "older")));
        assert_eq!(resource.url, URL);
    }
}

#[test]
fn new_credentials_replace_the_old_ones() {
    let mut resource =
        RelayResource { url: URL.to_string(), state: Some(credentials("old", "older")) };
    let reply = RelayCommand {
        command: "anything".to_string(),
        id: Some(3),
        data: Some(CommandData::Code { code: credentials("new", "newer") }),
    };
    assert!(resource.accept_registration(reply).is_ok());
    assert_eq!(resource.state, Some(credentials("new", "newer")));
}

#[test]
fn a_version_request_is_answered_with_every_field() {
    let request = command("get-version-info", Some(7));
    assert_eq!(
        on_inbound(&Inbound::Command(command("get-version-info", Some(7)))),
        PollAction::Serve(Request::VersionInfo)
    );
    let answer = request.versions_reply(versions()).unwrap();
    assert_eq!(answer.command, "response");
    assert_eq!(answer.id, Some(7));
    match answer.data {
        Some(CommandData::Versions { versions }) => {
            assert_eq!(versions.hardware_version, "iPhone10,4");
            assert_eq!(versions.software_name, "iPhone OS");
            assert_eq!(versions.software_version, "14.3");
            assert_eq!(versions.software_build_id, "18C66");
            assert_eq!(versions.unique_device_id, "00008020-0123456789ABCDEF");
            assert_eq!(versions.serial_number, "F4GXK0ABCDEF");
        },
        _ => panic!("the answer should carry the versions"),
    }
}

#[test]
fn the_identity_store_is_asked_by_these_names() {
    assert_eq!(IdentityProperty::ProductVersion.name(), "ProductVersion");
    assert_eq!(IdentityProperty::BuildVersion.name(), "BuildVersion");
    assert_eq!(IdentityProperty::UniqueDeviceID.name(), "UniqueDeviceID");
    assert_eq!(IdentityProperty::SerialNumber.name(), "SerialNumber");
}

#[test]
fn a_ping_is_sent_after_sixty_quiet_seconds() {
    let mut timer = Keepalive::start(5 * SECOND);
    assert_eq!(PING_INTERVAL, 60 * SECOND);
    assert_eq!(timer.deadline(), 65 * SECOND);
    assert_eq!(timer.tick(5 * SECOND), None);
    assert_eq!(timer.tick(65 * SECOND - 1), None);
    assert_eq!(timer.last_ping, 5 * SECOND);
    assert_eq!(timer.tick(65 * SECOND), Some(command("ping", None)));
    assert_eq!(timer.last_ping, 65 * SECOND);
    assert_eq!(timer.deadline(), 125 * SECOND);
    assert_eq!(timer.tick(100 * SECOND), None);
    assert_eq!(timer.tick(200 * SECOND), Some(RelayCommand::ping()));
    assert_eq!(timer.last_ping, 200 * SECOND);
}

#[test]
fn the_keepalive_clock_does_not_overflow() {
    let mut timer = Keepalive::start(u128::MAX - 5);
    assert_eq!(timer.deadline(), u128::MAX);
    assert_eq!(timer.tick(u128::MAX), None);
    assert_eq!(timer.tick(0), None);
    let mut timer = Keepalive::start(u128::MAX - PING_INTERVAL);
    assert_eq!(timer.deadline(), u128::MAX);
    assert_eq!(timer.tick(u128::MAX), Some(RelayCommand::ping()));
}

#[test]
fn commands_are_told_apart_by_name() {
    let cases = [
        ("get-version-info", PollAction::Serve(Request::VersionInfo)),
        ("get-validation-data", PollAction::Serve(Request::ValidationData)),
        ("pong", PollAction::Continue),
        ("ping", PollAction::Fault),
        ("register", PollAction::Fault),
        ("response", PollAction::Fault),
        ("", PollAction::Fault),
        ("PONG", PollAction::Fault),
        ("get-version-info ", PollAction::Fault),
    ];
    for (name, action) in cases {
        assert_eq!(on_inbound(&Inbound::Command(command(name, Some(1)))), action, "{name}");
        assert_eq!(on_inbound(&Inbound::Command(command(name, None))), action, "{name}");
    }
}

#[test]
fn what_is_no_message_ends_or_continues_the_task() {
    assert_eq!(on_inbound(&Inbound::Nothing), PollAction::Continue);
    assert_eq!(on_inbound(&Inbound::Malformed), PollAction::Fault);
    assert_eq!(on_inbound(&Inbound::Unusable), PollAction::Finish);
}

#[test]
fn an_answer_carries_the_id_of_its_request() {
    let request = command("get-validation-data", Some(41));
    let answer = request.respond(CommandData::Empty {});
    assert_eq!(
        answer,
        RelayCommand {
            command: "response".to_string(),
            id: Some(41),
            data: Some(CommandData::Empty {}),
        }
    );
    assert_eq!(request.try_respond(CommandData::Empty {}), Some(answer));
}

#[test]
fn a_request_without_an_id_cannot_be_answered() {
    let request = command("get-version-info", None);
    assert_eq!(request.try_respond(CommandData::Empty {}), None);
    assert_eq!(request.versions_reply(versions()), None);
    assert_eq!(request.validation_reply(b"data"), None);
    assert_eq!(request.encoded_validation_reply("ZGF0YQ==".to_string()), None);
}

#[test]
fn validation_data_travels_as_base64() {
    let request = command("get-validation-data", Some(9));
    let answer = request.validation_reply(b"hello").unwrap();
    assert_eq!(
        answer,
        RelayCommand {
            command: "response".to_string(),
            id: Some(9),
            data: Some(CommandData::ValidationData { data: "aGVsbG8=".to_string() }),
        }
    );
    let answer = request.encoded_validation_reply("aGVsbG8=".to_string()).unwrap();
    assert_eq!(answer.data, Some(CommandData::ValidationData { data: "aGVsbG8=".to_string() }));
}

#[test]
fn base64_is_the_standard_padded_alphabet() {
    assert_eq!(base64_encode(b""), "");
    assert_eq!(base64_encode(b"f"), "Zg==");
    assert_eq!(base64_encode(b"fo"), "Zm8=");
    assert_eq!(base64_encode(b"foo"), "Zm9v");
    assert_eq!(base64_encode(b"foobar"), "Zm9vYmFy");
    assert_eq!(base64_encode(&[0xfb, 0xff, 0xfe]), "+//+");
}

#[test]
fn what_is_kept_is_where_the_next_run_starts() {
    let kept = RelayConfig { url: URL.to_string(), state: Some(credentials("ABC", "xyz")) };
    let relay: Relay<u8> = RelayConfig::relay(Some(kept));
    assert_eq!(relay.resource().url, URL);
    assert_eq!(relay.resource().state, Some(credentials("ABC", "xyz")));
    assert!(matches!(relay.resource_state(), ResourceState::Generating));

    let resource = RelayConfig::into_resource(Some(RelayConfig {
        url: URL.to_string(),
        state: None,
    }));
    assert_eq!(resource, RelayResource { url: URL.to_string(), state: None });
    assert_eq!(RelayConfig::from_resource(&resource).url, URL);
}

#[test]
fn without_anything_kept_the_default_address_is_used() {
    let relay: Relay<u8> = RelayConfig::relay(None);
    assert_eq!(relay.resource().url, "wss://registration-relay.beeper.com/api/v1/provider");
    assert_eq!(relay.resource().state, None);
    let resource = RelayConfig::into_resource(None);
    assert_eq!(resource.url, "wss://registration-relay.beeper.com/api/v1/provider");
    assert_eq!(resource.state, None);
}

#[test]
fn the_keeper_writes_on_generation_and_puts_up_with_lag() {
    assert_eq!(on_notice(Notice::Generated, true), Persist::Write);
    assert_eq!(on_notice(Notice::Generated, false), Persist::Stop);
    assert_eq!(on_notice(Notice::Lagged, true), Persist::Skip);
    assert_eq!(on_notice(Notice::Lagged, false), Persist::Skip);
    assert_eq!(on_notice(Notice::Closed, true), Persist::Stop);
    assert_eq!(on_notice(Notice::Closed, false), Persist::Stop);
}

#[test]
fn a_copy_of_the_credentials_is_equal_to_them() {
    let held = credentials("ABC", "xyz");
    assert_eq!(held.clone(), held);
}
