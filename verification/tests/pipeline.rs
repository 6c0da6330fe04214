use everinst::catalog::EverestVersion;
use everinst::channel::ProgressChannel;
use everinst::pipeline::{
    installer_command, mod_file_name, mod_file_path, uri_mod_url, FlowKind, InstallRequest,
    PipelineError, PipelineRun, Stage, StageEvent,
};

fn sample_version() -> EverestVersion {
    EverestVersion {
        branch: "stable".to_string(),
        url: "https://dev.azure.com/EverestAPI/Everest/_apis/build/builds/100/artifacts?artifactName=main&api-version=5.0&%24format=zip".to_string(),
        ver: 800,
    }
}

fn full_request() -> InstallRequest {
    InstallRequest::FullInstall {
        version: sample_version(),
        target_dir: "/games/celeste".to_string(),
        interpreter: None,
    }
}

fn mod_request() -> InstallRequest {
    InstallRequest::ModFetch {
        source_url: "https://example.com/pack/CoolMod-v2.zip".to_string(),
        mods_dir: "/games/celeste/Mods".to_string(),
    }
}

#[test]
fn full_install_emits_the_four_stages_in_order() {
    let (mut run, first, url) = PipelineRun::start(&full_request());
    assert_eq!(first, StageEvent::Downloading);
    assert_eq!(url, sample_version().url);
    assert_eq!(run.kind, FlowKind::Full);

    let ev = run.begin_extract();
    assert_eq!(ev, StageEvent::Extracting);
    let ev = run.begin_install();
    assert_eq!(ev, StageEvent::Installing);
    let ev = run.finish();
    assert_eq!(ev, StageEvent::Done);

    assert_eq!(run.stage, Stage::Finished);
    assert_eq!(
        run.events,
        vec![
            StageEvent::Downloading,
            StageEvent::Extracting,
            StageEvent::Installing,
            StageEvent::Done,
        ]
    );
}

#[test]
fn mod_fetch_emits_downloading_then_done() {
    let (mut run, first, url) = PipelineRun::start(&mod_request());
    assert_eq!(first, StageEvent::Downloading);
    assert_eq!(url, "https://example.com/pack/CoolMod-v2.zip");
    assert_eq!(run.kind, FlowKind::Mod);

    run.begin_place();
    let ev = run.finish();
    assert_eq!(ev, StageEvent::Done);

    assert_eq!(run.stage, Stage::Finished);
    assert_eq!(run.events, vec![StageEvent::Downloading, StageEvent::Done]);
}

#[test]
fn failed_fetch_aborts_without_further_events() {
    let (mut run, _, _) = PipelineRun::start(&full_request());
    run.fail(PipelineError::FetchFailed);

    assert_eq!(run.stage, Stage::Aborted);
    assert_eq!(run.cause, Some(PipelineError::FetchFailed));
    assert_eq!(run.events, vec![StageEvent::Downloading]);
    assert!(!run.events.contains(&StageEvent::Extracting));
    assert!(!run.events.contains(&StageEvent::Installing));
    assert!(!run.events.contains(&StageEvent::Done));
}

#[test]
fn failed_extraction_aborts_after_extracting_event() {
    let (mut run, _, _) = PipelineRun::start(&full_request());
    run.begin_extract();
    run.fail(PipelineError::ExtractFailed);

    assert_eq!(run.stage, Stage::Aborted);
    assert_eq!(
        run.events,
        vec![StageEvent::Downloading, StageEvent::Extracting]
    );
    assert!(!run.events.contains(&StageEvent::Done));
}

#[test]
fn failed_installer_aborts_without_done() {
    let (mut run, _, _) = PipelineRun::start(&full_request());
    run.begin_extract();
    run.begin_install();
    run.fail(PipelineError::InstallerFailed);

    assert_eq!(run.stage, Stage::Aborted);
    assert_eq!(
        run.events,
        vec![
            StageEvent::Downloading,
            StageEvent::Extracting,
            StageEvent::Installing,
        ]
    );
    assert!(!run.events.contains(&StageEvent::Done));
}

#[test]
fn uri_argument_yields_url_before_first_comma() {
    assert_eq!(
        uri_mod_url("everest:https://example.com/pack/CoolMod-v2.zip,extra,stuff"),
        Some("https://example.com/pack/CoolMod-v2.zip".to_string())
    );
    assert_eq!(
        uri_mod_url("everest:https://example.com/pack/CoolMod-v2.zip"),
        Some("https://example.com/pack/CoolMod-v2.zip".to_string())
    );
}

#[test]
fn argument_without_the_scheme_is_no_mod_request() {
    assert_eq!(uri_mod_url("https://example.com/x.zip"), None);
    assert_eq!(uri_mod_url("everest"), None);
    assert_eq!(uri_mod_url(""), None);
}

#[test]
fn mod_file_is_named_from_the_last_path_segment() {
    assert_eq!(
        mod_file_name("/pack/CoolMod-v2.zip"),
        Some("CoolMod-v2.zip".to_string())
    );
    assert_eq!(mod_file_name("CoolMod-v2.zip"), Some("CoolMod-v2.zip".to_string()));
    assert_eq!(mod_file_name("/pack/"), None);
    assert_eq!(mod_file_name(""), None);
}

#[test]
fn mod_file_lands_inside_the_mods_directory() {
    assert_eq!(
        mod_file_path("/games/celeste/Mods", "/pack/CoolMod-v2.zip"),
        Some("/games/celeste/Mods/CoolMod-v2.zip".to_string())
    );
    assert_eq!(mod_file_path("/games/celeste/Mods", "/pack/"), None);
}

#[test]
fn installer_runs_through_the_interpreter_when_one_is_set() {
    let (program, args) = installer_command(&Some("/usr/bin/mono".to_string()));
    assert_eq!(program, "/usr/bin/mono");
    assert_eq!(args, vec!["MiniInstaller.exe".to_string()]);

    let (program, args) = installer_command(&None);
    assert_eq!(program, "MiniInstaller.exe");
    assert!(args.is_empty());
}

#[test]
fn progress_channel_delivers_in_emission_order() {
    let mut ch = ProgressChannel::new();
    assert_eq!(ch.try_recv(), None);

    ch.send(StageEvent::Downloading);
    ch.send(StageEvent::Extracting);
    ch.send(StageEvent::Installing);
    ch.send(StageEvent::Done);

    assert_eq!(ch.try_recv(), Some(StageEvent::Downloading));
    assert_eq!(ch.try_recv(), Some(StageEvent::Extracting));
    assert_eq!(ch.try_recv(), Some(StageEvent::Installing));
    assert_eq!(ch.try_recv(), Some(StageEvent::Done));
    assert_eq!(ch.try_recv(), None);
}
