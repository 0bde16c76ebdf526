use esp_mqtt_demo::config::{
    Config, LISTENER_STACK_SIZE, MQTT_CLIENT_ID, MQTT_TOPIC, MQTT_URL, PAYLOAD,
};
use esp_mqtt_demo::listener::{DrainAction, DrainLoop};
use esp_mqtt_demo::publisher::{
    Action, Decision, Phase, PublishLoop, Report, PUBLISH_INTERVAL_MILLIS, SETTLE_MILLIS,
    SUBSCRIBE_RETRY_MILLIS,
};
use esp_mqtt_demo::startup::{Stage, StartAction, Startup};
use esp_mqtt_demo::Outcome;

fn decision(report: Report, action: Action) -> Decision {
    Decision { report, action }
}

#[test]
fn config_defaults_are_empty() {
    let c = Config::default();
    assert_eq!(c.ssid(), "");
    assert_eq!(c.password(), "");
}

#[test]
fn config_keeps_credentials() {
    let c = Config::new("home", "secret");
    assert_eq!(c.ssid(), "home");
    assert_eq!(c.password(), "secret");
}

#[test]
fn endpoint_constants() {
    assert_eq!(MQTT_URL, "mqtt://broker.emqx.io:1883");
    assert_eq!(MQTT_CLIENT_ID, "esp-mqtt-demo");
    assert_eq!(MQTT_TOPIC, "esp-mqtt-demo");
    assert_eq!(PAYLOAD, "Hello from esp-mqtt-demo!");
    assert_eq!(LISTENER_STACK_SIZE, 6000);
    assert_eq!(SUBSCRIBE_RETRY_MILLIS, 500);
    assert_eq!(SETTLE_MILLIS, 500);
    assert_eq!(PUBLISH_INTERVAL_MILLIS, 2000);
}

#[test]
fn scenario_bring_up_failure_makes_no_mqtt_operation() {
    let mut s = Startup::new();
    assert_eq!(s.action(), StartAction::BringUpNetwork);
    assert_eq!(s.step(Outcome::Failed), StartAction::Abort);
    assert_eq!(s.stage(), Stage::Aborted);
    assert_eq!(s.step(Outcome::Succeeded), StartAction::Abort);
    assert_eq!(s.step(Outcome::Failed), StartAction::Abort);
}

#[test]
fn session_failure_aborts() {
    let mut s = Startup::new();
    assert_eq!(s.step(Outcome::Succeeded), StartAction::CreateSession);
    assert_eq!(s.stage(), Stage::Session);
    assert_eq!(s.step(Outcome::Failed), StartAction::Abort);
    assert_eq!(s.stage(), Stage::Aborted);
}

#[test]
fn startup_success_runs_the_loops() {
    let mut s = Startup::new();
    assert_eq!(s.step(Outcome::Succeeded), StartAction::CreateSession);
    assert_eq!(s.step(Outcome::Succeeded), StartAction::Run);
    assert_eq!(s.stage(), Stage::Running);
}

#[test]
fn scenario_subscribe_fails_twice_then_succeeds() {
    let mut p = PublishLoop::new();
    assert_eq!(p.action(), Action::Subscribe);
    let retry = Action::Sleep { millis: 500 };
    assert_eq!(p.step(Outcome::Failed), decision(Report::SubscribeFailed, retry));
    assert_eq!(p.step(Outcome::Succeeded), decision(Report::Quiet, Action::Subscribe));
    assert_eq!(p.step(Outcome::Failed), decision(Report::SubscribeFailed, retry));
    assert_eq!(p.step(Outcome::Succeeded), decision(Report::Quiet, Action::Subscribe));
    assert_eq!(
        p.step(Outcome::Succeeded),
        decision(Report::Subscribed, Action::Sleep { millis: 500 })
    );
    assert_eq!(p.phase(), Phase::Settling);
    assert_eq!(p.step(Outcome::Succeeded), decision(Report::Quiet, Action::Publish));
}

#[test]
fn scenario_fourth_publish_fails_and_ends_the_loop() {
    let mut p = PublishLoop::new();
    p.step(Outcome::Succeeded);
    assert_eq!(p.step(Outcome::Succeeded).action, Action::Publish);
    for _ in 0..3 {
        assert_eq!(
            p.step(Outcome::Succeeded),
            decision(Report::Published, Action::Sleep { millis: 2000 })
        );
        assert_eq!(p.step(Outcome::Succeeded), decision(Report::Quiet, Action::Publish));
    }
    assert_eq!(p.step(Outcome::Failed), decision(Report::PublishFailed, Action::Stop));
    assert_eq!(p.phase(), Phase::Failed);
    for _ in 0..5 {
        assert_eq!(p.step(Outcome::Succeeded), decision(Report::Quiet, Action::Stop));
        assert_eq!(p.step(Outcome::Failed), decision(Report::Quiet, Action::Stop));
    }
}

#[test]
fn scenario_listener_fails_at_once_publisher_goes_on() {
    let mut l = DrainLoop::new();
    let mut p = PublishLoop::new();
    assert_eq!(l.action(), DrainAction::ReadNext);
    assert_eq!(l.on_read(Outcome::Failed), DrainAction::Finish);
    assert!(!l.is_open());
    assert_eq!(p.step(Outcome::Succeeded).action, Action::Sleep { millis: 500 });
    assert_eq!(p.step(Outcome::Succeeded).action, Action::Publish);
    assert_eq!(p.step(Outcome::Succeeded).action, Action::Sleep { millis: 2000 });
    assert_eq!(p.step(Outcome::Succeeded).action, Action::Publish);
}

#[test]
fn subscribe_retries_are_flat_and_uncapped() {
    let mut p = PublishLoop::new();
    for _ in 0..100 {
        let d = p.step(Outcome::Failed);
        assert_eq!(d, decision(Report::SubscribeFailed, Action::Sleep { millis: 500 }));
        assert_eq!(p.step(Outcome::Succeeded).action, Action::Subscribe);
        assert_eq!(p.phase(), Phase::Unsubscribed);
    }
}

#[test]
fn one_settling_pause_before_first_publish() {
    let mut p = PublishLoop::new();
    assert_eq!(p.step(Outcome::Succeeded).action, Action::Sleep { millis: 500 });
    assert_eq!(p.step(Outcome::Failed).action, Action::Publish);
    assert_eq!(p.phase(), Phase::Publishing);
}

#[test]
fn each_publish_is_followed_by_the_interval() {
    let mut p = PublishLoop::new();
    p.step(Outcome::Succeeded);
    p.step(Outcome::Succeeded);
    for _ in 0..10 {
        assert_eq!(p.step(Outcome::Succeeded).action, Action::Sleep { millis: 2000 });
        assert_eq!(p.phase(), Phase::Resting);
        assert_eq!(p.step(Outcome::Succeeded).action, Action::Publish);
    }
}

#[test]
fn listener_reads_without_pause_until_first_failure() {
    let mut l = DrainLoop::new();
    for _ in 0..10 {
        assert_eq!(l.on_read(Outcome::Succeeded), DrainAction::ReadNext);
    }
    assert_eq!(l.on_read(Outcome::Failed), DrainAction::Finish);
    assert_eq!(l.on_read(Outcome::Succeeded), DrainAction::Finish);
    assert_eq!(l.action(), DrainAction::Finish);
    assert!(!l.is_open());
}
