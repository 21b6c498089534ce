use vortex_ais::launch::{LaunchAction, LaunchEvent, LaunchFlow, LaunchStage};
use vortex_ais::release::{GithubAsset, GithubRelease};

fn release(tag: &str, with_archive: bool) -> GithubRelease {
    let mut assets = vec![GithubAsset { name: "readme".to_string(), browser_download_url: "r".to_string() }];
    if with_archive {
        assets.push(GithubAsset { name: "vortex.zip".to_string(), browser_download_url: "https://dl/vortex.zip".to_string() });
    }
    GithubRelease { tag_name: tag.to_string(), assets }
}

fn finish_err(a: &LaunchAction) -> Option<String> {
    match a {
        LaunchAction::Finish(Err(e)) => Some(e.clone()),
        _ => None,
    }
}

#[test]
fn launch_without_update_check_starts_vortex() {
    let mut flow = LaunchFlow::new(false, "0.2.0".to_string());
    let step = flow.advance(LaunchEvent::Begin);
    assert!(step.logs.is_empty());
    assert!(matches!(step.action, LaunchAction::LaunchVortex));
    assert_eq!(flow.current_stage(), LaunchStage::AwaitLaunch);
    let step = flow.advance(LaunchEvent::Launched(Ok(())));
    assert!(matches!(step.action, LaunchAction::Finish(Ok(()))));
    assert_eq!(flow.current_stage(), LaunchStage::Finished);
}

#[test]
fn launch_with_current_release_skips_install() {
    let mut flow = LaunchFlow::new(true, "0.2.0".to_string());
    let step = flow.advance(LaunchEvent::Begin);
    assert_eq!(step.logs, vec!["Fetching for updates...".to_string()]);
    assert!(matches!(step.action, LaunchAction::FetchRelease));
    let step = flow.advance(LaunchEvent::ReleaseFetched(Ok(release("v0.2.0", true))));
    assert_eq!(step.logs, vec!["No new updates.".to_string()]);
    assert!(matches!(step.action, LaunchAction::LaunchVortex));
}

#[test]
fn launch_with_new_release_installs_archive() {
    let mut flow = LaunchFlow::new(true, "0.2.0".to_string());
    flow.advance(LaunchEvent::Begin);
    let step = flow.advance(LaunchEvent::ReleaseFetched(Ok(release("v0.3.0", true))));
    assert_eq!(
        step.logs,
        vec![
            "New update available. Vortex will automatically boot after update.".to_string(),
            "Downloading new update...".to_string()
        ]
    );
    match step.action {
        LaunchAction::InstallUpdate(url) => assert_eq!(url, "https://dl/vortex.zip"),
        _ => panic!("expected an install"),
    }
    assert_eq!(flow.current_stage(), LaunchStage::AwaitInstall);
    let step = flow.advance(LaunchEvent::UpdateInstalled(Ok(())));
    assert!(matches!(step.action, LaunchAction::LaunchVortex));
    let step = flow.advance(LaunchEvent::Launched(Err("denied".to_string())));
    assert_eq!(finish_err(&step.action), Some("denied".to_string()));
}

#[test]
fn launch_fails_without_archive() {
    let mut flow = LaunchFlow::new(true, "0.2.0".to_string());
    flow.advance(LaunchEvent::Begin);
    let step = flow.advance(LaunchEvent::ReleaseFetched(Ok(release("v0.3.0", false))));
    assert_eq!(step.logs.len(), 2);
    assert_eq!(finish_err(&step.action), Some("Missing vortex.zip in GitHub release".to_string()));
    assert_eq!(flow.current_stage(), LaunchStage::Finished);
}

#[test]
fn launch_fetch_failure_message() {
    let mut flow = LaunchFlow::new(true, "0.2.0".to_string());
    flow.advance(LaunchEvent::Begin);
    let step = flow.advance(LaunchEvent::ReleaseFetched(Err("timeout".to_string())));
    assert_eq!(
        finish_err(&step.action),
        Some("Something went wrong during update fetching\nError => timeout\n----\nDisable update on launch if it's not important.".to_string())
    );
}

#[test]
fn launch_install_failure_message() {
    let mut flow = LaunchFlow::new(true, "0.2.0".to_string());
    flow.advance(LaunchEvent::Begin);
    flow.advance(LaunchEvent::ReleaseFetched(Ok(release("1.0", true))));
    let step = flow.advance(LaunchEvent::UpdateInstalled(Err("disk full".to_string())));
    assert_eq!(finish_err(&step.action), Some("Update install failed: disk full".to_string()));
}

#[test]
fn launch_ignores_events_out_of_turn() {
    let mut flow = LaunchFlow::new(true, "0.2.0".to_string());
    let step = flow.advance(LaunchEvent::Launched(Ok(())));
    assert!(matches!(step.action, LaunchAction::Idle));
    assert!(step.logs.is_empty());
    assert_eq!(flow.current_stage(), LaunchStage::Start);
    flow.advance(LaunchEvent::Begin);
    flow.advance(LaunchEvent::ReleaseFetched(Err("x".to_string())));
    let step = flow.advance(LaunchEvent::Begin);
    assert!(matches!(step.action, LaunchAction::Idle));
    assert_eq!(flow.current_stage(), LaunchStage::Finished);
}

use vortex_ais::console::LaunchMessage;
use vortex_ais::launch::LaunchRequest;

fn is_log(m: &LaunchMessage) -> bool {
    matches!(m, LaunchMessage::Log(_))
}

#[test]
fn worker_sends_one_outcome_last() {
    let mut flow = LaunchFlow::new(true, "0.2.0".to_string());
    let mut sent: Vec<LaunchMessage> = Vec::new();
    let mut event = LaunchEvent::Begin;
    let mut steps = 0;
    loop {
        steps += 1;
        let (msgs, request) = flow.worker_step(event);
        sent.extend(msgs);
        event = match request {
            None => break,
            Some(LaunchRequest::FetchRelease) => LaunchEvent::ReleaseFetched(Ok(release("v0.3.0", true))),
            Some(LaunchRequest::InstallUpdate(url)) => {
                assert_eq!(url, "https://dl/vortex.zip");
                LaunchEvent::UpdateInstalled(Ok(()))
            }
            Some(LaunchRequest::LaunchVortex) => LaunchEvent::Launched(Ok(())),
        };
    }
    assert_eq!(steps, 4);
    assert_eq!(sent.len(), 4);
    assert!(sent[..3].iter().all(is_log));
    assert!(matches!(sent[3], LaunchMessage::Done(Ok(()))));
}

#[test]
fn worker_failure_is_single_last_outcome() {
    let mut flow = LaunchFlow::new(true, "0.2.0".to_string());
    let (msgs, request) = flow.worker_step(LaunchEvent::Begin);
    assert_eq!(msgs.len(), 1);
    assert!(matches!(request, Some(LaunchRequest::FetchRelease)));
    let (msgs, request) = flow.worker_step(LaunchEvent::ReleaseFetched(Err("down".to_string())));
    assert!(request.is_none());
    assert_eq!(msgs.len(), 1);
    assert!(matches!(&msgs[0], LaunchMessage::Done(Err(_))));
    let (msgs, request) = flow.worker_step(LaunchEvent::Launched(Ok(())));
    assert!(msgs.is_empty());
    assert!(request.is_none());
}
