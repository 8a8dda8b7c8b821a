use honkers_launcher::components::{
    group_header, version_row, ComponentAction, ComponentGroup, ComponentMsg, ComponentVersion,
    ComponentsListPattern, ComponentsListView, DownloadStatus, InstallRequest, RowAction,
};

fn version(name: &str, recommended: bool, format: Option<&str>) -> ComponentVersion {
    ComponentVersion::from_release(
        name.to_string(),
        format!("{name} title"),
        format!("https://example.org/{name}"),
        format.map(|f| f.to_string()),
        Some(recommended),
    )
}

fn list() -> ComponentsListView {
    let wine = ComponentGroup::from_release(
        "Wine".to_string(),
        vec![version("wine-1", true, Some("tar.xz")), version("wine-2", false, None)],
    );
    let dxvk = ComponentGroup::from_release("DXVK".to_string(), vec![version("dxvk-1", true, None)]);
    ComponentsListView::new(
        ComponentsListPattern { download_folder: "/data/runners".to_string(), groups: vec![wine, dxvk] },
        &vec![],
    )
}

fn status(l: &ComponentsListView, g: usize, v: usize) -> DownloadStatus {
    l.groups[g].versions[v].status.clone()
}

#[test]
fn versions_from_release() {
    let v = ComponentVersion::from_release("a".into(), "A".into(), "u".into(), None, None);
    assert!(v.recommended);
    assert_eq!(v.status, DownloadStatus::Idle);
    let v = ComponentVersion::from_release("a".into(), "A".into(), "u".into(), Some("zip".into()), Some(false));
    assert!(!v.recommended);
    assert_eq!(v.format, Some("zip".to_string()));
    let g = ComponentGroup::from_release("G".into(), vec![]);
    assert!(g.is_expanded);
}

#[test]
fn new_list_shows_recommended_and_reads_disk() {
    let l = list();
    assert!(l.show_recommended_only);
    assert_eq!(status(&l, 0, 0), DownloadStatus::Idle);
    let mut pattern_groups = Vec::new();
    pattern_groups.push(ComponentGroup::from_release("Wine".into(), vec![version("w", true, None), version("x", true, None)]));
    let l = ComponentsListView::new(
        ComponentsListPattern { download_folder: "/d".into(), groups: pattern_groups },
        &vec![vec![false, true]],
    );
    assert_eq!(status(&l, 0, 0), DownloadStatus::Idle);
    assert_eq!(status(&l, 0, 1), DownloadStatus::Completed);
}

#[test]
fn install_starts_download() {
    let mut l = list();
    let a = l.update(ComponentMsg::InstallVersion { group_idx: 0, ver_idx: 0 });
    assert_eq!(
        a,
        ComponentAction::StartInstall(InstallRequest {
            group_idx: 0,
            ver_idx: 0,
            uri: "https://example.org/wine-1".to_string(),
            download_folder: "/data/runners".to_string(),
            filename: Some("wine-1.tar.xz".to_string()),
        })
    );
    assert_eq!(
        status(&l, 0, 0),
        DownloadStatus::Downloading { fraction_bits: 0.0f32.to_bits(), caption: "Starting...".to_string() }
    );
    let a = l.update(ComponentMsg::InstallVersion { group_idx: 0, ver_idx: 1 });
    match a {
        ComponentAction::StartInstall(req) => assert_eq!(req.filename, None),
        other => panic!("unexpected {other:?}"),
    }
}

#[test]
fn progress_finish_fail_delete() {
    let mut l = list();
    let bits = 0.5f32.to_bits();
    l.update(ComponentMsg::DownloadProgress { group_idx: 1, ver_idx: 0, fraction_bits: bits, caption: "Downloading".into() });
    assert_eq!(status(&l, 1, 0), DownloadStatus::Downloading { fraction_bits: bits, caption: "Downloading".into() });
    l.update(ComponentMsg::DownloadFinished { group_idx: 1, ver_idx: 0 });
    assert_eq!(status(&l, 1, 0), DownloadStatus::Completed);
    let a = l.update(ComponentMsg::DeleteVersion { group_idx: 1, ver_idx: 0 });
    assert_eq!(a, ComponentAction::RemoveInstalled { name: "dxvk-1".to_string() });
    assert_eq!(status(&l, 1, 0), DownloadStatus::Idle);
    l.update(ComponentMsg::DownloadFailed { group_idx: 1, ver_idx: 0, error: "404".into() });
    assert_eq!(status(&l, 1, 0), DownloadStatus::Error("404".into()));
}

#[test]
fn missing_version_changes_nothing() {
    let mut l = list();
    let before = list();
    for m in [
        ComponentMsg::InstallVersion { group_idx: 5, ver_idx: 0 },
        ComponentMsg::DeleteVersion { group_idx: 0, ver_idx: 9 },
        ComponentMsg::DownloadFinished { group_idx: 2, ver_idx: 0 },
        ComponentMsg::DownloadFailed { group_idx: 1, ver_idx: 1, error: "e".into() },
        ComponentMsg::DownloadProgress { group_idx: 0, ver_idx: 2, fraction_bits: 0, caption: "c".into() },
        ComponentMsg::ToggleGroupExpand(7),
    ] {
        assert_eq!(l.update(m), ComponentAction::Nothing);
        assert_eq!(l, before);
    }
}

#[test]
fn one_message_touches_one_version() {
    let mut l = list();
    l.update(ComponentMsg::DownloadFinished { group_idx: 0, ver_idx: 1 });
    assert_eq!(status(&l, 0, 0), DownloadStatus::Idle);
    assert_eq!(status(&l, 1, 0), DownloadStatus::Idle);
    assert_eq!(l.groups[0].title, "Wine");
}

#[test]
fn toggles() {
    let mut l = list();
    l.update(ComponentMsg::ToggleGroupExpand(0));
    assert!(!l.groups[0].is_expanded);
    l.update(ComponentMsg::ToggleGroupExpand(0));
    assert_eq!(l, list());
    l.update(ComponentMsg::ToggleShowRecommended(false));
    assert!(!l.show_recommended_only);
}

#[test]
fn refresh_keeps_running_downloads() {
    let mut l = list();
    l.update(ComponentMsg::InstallVersion { group_idx: 0, ver_idx: 0 });
    l.update(ComponentMsg::DownloadFailed { group_idx: 0, ver_idx: 1, error: "x".into() });
    l.refresh_installed_states(&vec![vec![false, false], vec![true]]);
    assert!(matches!(status(&l, 0, 0), DownloadStatus::Downloading { .. }));
    assert_eq!(status(&l, 0, 1), DownloadStatus::Idle);
    assert_eq!(status(&l, 1, 0), DownloadStatus::Completed);
    l.refresh_installed_states(&vec![vec![true]]);
    assert_eq!(status(&l, 0, 0), DownloadStatus::Completed);
    assert_eq!(status(&l, 1, 0), DownloadStatus::Idle);
}

#[test]
fn refresh_twice_is_refresh_once() {
    let mut a = list();
    a.update(ComponentMsg::DownloadFinished { group_idx: 0, ver_idx: 1 });
    let inst = vec![vec![true, false]];
    a.refresh_installed_states(&inst);
    let snapshot = format!("{a:?}");
    a.refresh_installed_states(&inst);
    assert_eq!(format!("{a:?}"), snapshot);
}

#[test]
fn shown_versions_follow_the_filter() {
    let mut l = list();
    assert_eq!(l.shown_versions(0), vec![0]);
    assert_eq!(l.shown_versions(1), vec![0]);
    assert_eq!(l.shown_versions(9), Vec::<usize>::new());
    l.update(ComponentMsg::DownloadFailed { group_idx: 0, ver_idx: 1, error: "e".into() });
    assert_eq!(l.shown_versions(0), vec![0, 1]);
    l.update(ComponentMsg::DeleteVersion { group_idx: 0, ver_idx: 1 });
    assert_eq!(l.shown_versions(0), vec![0]);
    l.update(ComponentMsg::ToggleShowRecommended(false));
    assert_eq!(l.shown_versions(0), vec![0, 1]);
    l.update(ComponentMsg::ToggleGroupExpand(0));
    assert_eq!(l.shown_versions(0), Vec::<usize>::new());
}

#[test]
fn rows_and_headers() {
    let mut v = version("wine-9", false, None);
    let row = version_row(3, 4, &v);
    assert_eq!(row.title, "wine-9 title");
    assert_eq!(row.tag, "Optional");
    assert_eq!(row.action, RowAction::Download { on_press: ComponentMsg::InstallVersion { group_idx: 3, ver_idx: 4 } });
    v.status = DownloadStatus::Completed;
    assert_eq!(version_row(3, 4, &v).action, RowAction::Installed { on_delete: ComponentMsg::DeleteVersion { group_idx: 3, ver_idx: 4 } });
    v.status = DownloadStatus::Error("disk full".into());
    assert_eq!(
        version_row(3, 4, &v).action,
        RowAction::Failed { text: "Error: disk full".into(), on_retry: ComponentMsg::InstallVersion { group_idx: 3, ver_idx: 4 } }
    );
    v.status = DownloadStatus::Downloading { fraction_bits: 7, caption: "c".into() };
    assert_eq!(version_row(3, 4, &v).action, RowAction::Progress { caption: "c".into(), fraction_bits: 7 });
    v.recommended = true;
    assert_eq!(version_row(0, 0, &v).tag, "Recommended");

    let mut g = ComponentGroup::from_release("Wine".into(), vec![]);
    let h = group_header(2, &g);
    assert_eq!(h.icon, "▼");
    assert_eq!(h.title, "Wine");
    assert_eq!(h.on_press, ComponentMsg::ToggleGroupExpand(2));
    g.is_expanded = false;
    assert_eq!(group_header(2, &g).icon, "▶");
}

#[test]
fn rows_lead_on() {
    let mut l = list();
    let row = |l: &ComponentsListView| version_row(1, 0, &l.groups[1].versions[0]).action;
    assert_eq!(row(&l), RowAction::Download { on_press: ComponentMsg::InstallVersion { group_idx: 1, ver_idx: 0 } });
    l.update(ComponentMsg::InstallVersion { group_idx: 1, ver_idx: 0 });
    assert!(matches!(row(&l), RowAction::Progress { .. }));
    l.update(ComponentMsg::DownloadFinished { group_idx: 1, ver_idx: 0 });
    assert_eq!(row(&l), RowAction::Installed { on_delete: ComponentMsg::DeleteVersion { group_idx: 1, ver_idx: 0 } });
}

#[test]
fn whole_view() {
    let mut l = list();
    l.update(ComponentMsg::ToggleGroupExpand(1));
    let screen = l.view();
    assert_eq!(screen.title, "Components Manager");
    assert_eq!(screen.toggle_label, "Show recommended only");
    assert!(screen.show_recommended_only);
    assert_eq!(screen.sections.len(), 2);
    assert_eq!(screen.sections[0].shown, vec![0]);
    assert_eq!(screen.sections[0].rows.len(), 1);
    assert_eq!(screen.sections[0].rows[0].title, "wine-1 title");
    assert_eq!(screen.sections[1].header.icon, "▶");
    assert!(screen.sections[1].rows.is_empty());
}

#[test]
fn message_and_status_clones() {
    let m = ComponentMsg::DownloadFailed { group_idx: 1, ver_idx: 2, error: "e".into() };
    assert_eq!(m.clone(), m);
    let s = DownloadStatus::Downloading { fraction_bits: 3, caption: "c".into() };
    assert_eq!(s.clone(), s);
    let v = version("a", true, Some("zip"));
    assert_eq!(v.clone(), v);
}
