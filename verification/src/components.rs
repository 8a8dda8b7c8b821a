//! The components manager: groups of Wine/DXVK versions, their download states, the
//! messages that change them, and what the list shows.
use vstd::prelude::*;

use crate::text::{copy_opt, join_str, opt_view, owned};

verus! {

/// Where a version stands.
#[derive(Debug, PartialEq, Eq)]
pub enum DownloadStatus {
    /// Not installed, nothing running.
    Idle,
    /// Being downloaded or unpacked. `fraction_bits` holds the IEEE-754 bits of the `f32`
    /// fraction done (0.0 to 1.0); `caption` says what is going on.
    Downloading { fraction_bits: u32, caption: String },
    /// Installed.
    Completed,
    /// The last download failed with this error.
    Error(String),
}

/// The content of a [`DownloadStatus`].
pub enum StatusModel {
    Idle,
    Downloading { fraction_bits: u32, caption: Seq<char> },
    Completed,
    Error(Seq<char>),
}

impl View for DownloadStatus {
    type V = StatusModel;

    open spec fn view(&self) -> StatusModel {
        match self {
            DownloadStatus::Idle => StatusModel::Idle,
            DownloadStatus::Downloading { fraction_bits, caption } => StatusModel::Downloading {
                fraction_bits: *fraction_bits,
                caption: caption@,
            },
            DownloadStatus::Completed => StatusModel::Completed,
            DownloadStatus::Error(e) => StatusModel::Error(e@),
        }
    }
}

impl Clone for DownloadStatus {
    fn clone(&self) -> (r: DownloadStatus)
        ensures
            r == *self,
    {
        match self {
            DownloadStatus::Idle => DownloadStatus::Idle,
            DownloadStatus::Downloading { fraction_bits, caption } => DownloadStatus::Downloading {
                fraction_bits: *fraction_bits,
                caption: caption.clone(),
            },
            DownloadStatus::Completed => DownloadStatus::Completed,
            DownloadStatus::Error(e) => DownloadStatus::Error(e.clone()),
        }
    }
}

/// The bits of the `f32` value 0.0.
pub const ZERO_FRACTION_BITS: u32 = 0;

/// The caption of a download that was just started.
pub open spec fn starting_caption() -> Seq<char> {
    "Starting..."@
}

/// One downloadable version of a component.
#[derive(Debug, PartialEq, Eq)]
pub struct ComponentVersion {
    /// The folder name of the installed version.
    pub name: String,
    pub title: String,
    /// Where to download it from.
    pub uri: String,
    /// The archive format, where the URI does not tell it.
    pub format: Option<String>,
    pub recommended: bool,
    pub status: DownloadStatus,
}

/// The content of a [`ComponentVersion`].
#[verifier::ext_equal]
pub struct VersionModel {
    pub name: Seq<char>,
    pub title: Seq<char>,
    pub uri: Seq<char>,
    pub format: Option<Seq<char>>,
    pub recommended: bool,
    pub status: StatusModel,
}

impl View for ComponentVersion {
    type V = VersionModel;

    open spec fn view(&self) -> VersionModel {
        VersionModel {
            name: self.name@,
            title: self.title@,
            uri: self.uri@,
            format: opt_view(self.format),
            recommended: self.recommended,
            status: self.status@,
        }
    }
}

impl Clone for ComponentVersion {
    fn clone(&self) -> (r: ComponentVersion)
        ensures
            r == *self,
    {
        ComponentVersion {
            name: self.name.clone(),
            title: self.title.clone(),
            uri: self.uri.clone(),
            format: copy_opt(&self.format),
            recommended: self.recommended,
            status: self.status.clone(),
        }
    }
}

impl ComponentVersion {
    /// A version as listed by the components index. `features_recommended` is the
    /// `recommended` flag of the version's features, where the index gives features for it;
    /// a version without features counts as recommended. A new version is idle.
    pub fn from_release(
        name: String,
        title: String,
        uri: String,
        format: Option<String>,
        features_recommended: Option<bool>,
    ) -> (r: ComponentVersion)
        ensures
            r.name == name,
            r.title == title,
            r.uri == uri,
            r.format == format,
            r.recommended == match features_recommended {
                Some(b) => b,
                None => true,
            },
            r.status == DownloadStatus::Idle,
    {
        let recommended = match features_recommended {
            Some(b) => b,
            None => true,
        };
        ComponentVersion { name, title, uri, format, recommended, status: DownloadStatus::Idle }
    }
}

/// A group of versions (one Wine build family, say), shown as an accordion.
#[derive(Debug, PartialEq, Eq)]
pub struct ComponentGroup {
    pub title: String,
    pub is_expanded: bool,
    pub versions: Vec<ComponentVersion>,
}

/// The content of a [`ComponentGroup`].
#[verifier::ext_equal]
pub struct GroupModel {
    pub title: Seq<char>,
    pub is_expanded: bool,
    pub versions: Seq<VersionModel>,
}

impl View for ComponentGroup {
    type V = GroupModel;

    open spec fn view(&self) -> GroupModel {
        GroupModel {
            title: self.title@,
            is_expanded: self.is_expanded,
            versions: self.versions@.map_values(|v: ComponentVersion| v@),
        }
    }
}

impl ComponentGroup {
    /// A group as listed by the components index; new groups are expanded.
    pub fn from_release(title: String, versions: Vec<ComponentVersion>) -> (r: ComponentGroup)
        ensures
            r.title == title,
            r.is_expanded,
            r.versions == versions,
    {
        ComponentGroup { title, is_expanded: true, versions }
    }
}

/// What the components list is built from: where versions are installed, and the groups.
#[derive(Debug, PartialEq, Eq)]
pub struct ComponentsListPattern {
    pub download_folder: String,
    pub groups: Vec<ComponentGroup>,
}

/// What the components list reacts to.
#[derive(Debug, PartialEq, Eq)]
pub enum ComponentMsg {
    ToggleShowRecommended(bool),
    ToggleGroupExpand(usize),
    InstallVersion { group_idx: usize, ver_idx: usize },
    DeleteVersion { group_idx: usize, ver_idx: usize },
    /// `fraction_bits` holds the IEEE-754 bits of the `f32` fraction done.
    DownloadProgress { group_idx: usize, ver_idx: usize, fraction_bits: u32, caption: String },
    DownloadFinished { group_idx: usize, ver_idx: usize },
    DownloadFailed { group_idx: usize, ver_idx: usize, error: String },
}

impl Clone for ComponentMsg {
    fn clone(&self) -> (r: ComponentMsg)
        ensures
            r == *self,
    {
        match self {
            ComponentMsg::ToggleShowRecommended(b) => ComponentMsg::ToggleShowRecommended(*b),
            ComponentMsg::ToggleGroupExpand(g) => ComponentMsg::ToggleGroupExpand(*g),
            ComponentMsg::InstallVersion { group_idx, ver_idx } => ComponentMsg::InstallVersion {
                group_idx: *group_idx,
                ver_idx: *ver_idx,
            },
            ComponentMsg::DeleteVersion { group_idx, ver_idx } => ComponentMsg::DeleteVersion {
                group_idx: *group_idx,
                ver_idx: *ver_idx,
            },
            ComponentMsg::DownloadProgress { group_idx, ver_idx, fraction_bits, caption } =>
                ComponentMsg::DownloadProgress {
                group_idx: *group_idx,
                ver_idx: *ver_idx,
                fraction_bits: *fraction_bits,
                caption: caption.clone(),
            },
            ComponentMsg::DownloadFinished { group_idx, ver_idx } =>
                ComponentMsg::DownloadFinished { group_idx: *group_idx, ver_idx: *ver_idx },
            ComponentMsg::DownloadFailed { group_idx, ver_idx, error } =>
                ComponentMsg::DownloadFailed {
                group_idx: *group_idx,
                ver_idx: *ver_idx,
                error: error.clone(),
            },
        }
    }
}

/// The content of a [`ComponentMsg`].
pub enum MsgModel {
    ToggleShowRecommended(bool),
    ToggleGroupExpand(nat),
    InstallVersion { group_idx: nat, ver_idx: nat },
    DeleteVersion { group_idx: nat, ver_idx: nat },
    DownloadProgress { group_idx: nat, ver_idx: nat, fraction_bits: u32, caption: Seq<char> },
    DownloadFinished { group_idx: nat, ver_idx: nat },
    DownloadFailed { group_idx: nat, ver_idx: nat, error: Seq<char> },
}

impl View for ComponentMsg {
    type V = MsgModel;

    open spec fn view(&self) -> MsgModel {
        match self {
            ComponentMsg::ToggleShowRecommended(b) => MsgModel::ToggleShowRecommended(*b),
            ComponentMsg::ToggleGroupExpand(g) => MsgModel::ToggleGroupExpand(*g as nat),
            ComponentMsg::InstallVersion { group_idx, ver_idx } => MsgModel::InstallVersion {
                group_idx: *group_idx as nat,
                ver_idx: *ver_idx as nat,
            },
            ComponentMsg::DeleteVersion { group_idx, ver_idx } => MsgModel::DeleteVersion {
                group_idx: *group_idx as nat,
                ver_idx: *ver_idx as nat,
            },
            ComponentMsg::DownloadProgress { group_idx, ver_idx, fraction_bits, caption } =>
                MsgModel::DownloadProgress {
                group_idx: *group_idx as nat,
                ver_idx: *ver_idx as nat,
                fraction_bits: *fraction_bits,
                caption: caption@,
            },
            ComponentMsg::DownloadFinished { group_idx, ver_idx } => MsgModel::DownloadFinished {
                group_idx: *group_idx as nat,
                ver_idx: *ver_idx as nat,
            },
            ComponentMsg::DownloadFailed { group_idx, ver_idx, error } =>
                MsgModel::DownloadFailed {
                group_idx: *group_idx as nat,
                ver_idx: *ver_idx as nat,
                error: error@,
            },
        }
    }
}

/// A download to start, for the version at (`group_idx`, `ver_idx`).
#[derive(Debug, PartialEq, Eq)]
pub struct InstallRequest {
    pub group_idx: usize,
    pub ver_idx: usize,
    pub uri: String,
    pub download_folder: String,
    /// The file name to save the archive under (`<name>.<format>`), where a format is given.
    pub filename: Option<String>,
}

/// The content of an [`InstallRequest`].
pub struct InstallModel {
    pub group_idx: nat,
    pub ver_idx: nat,
    pub uri: Seq<char>,
    pub download_folder: Seq<char>,
    pub filename: Option<Seq<char>>,
}

/// What the caller has to do after a message was handled.
#[derive(Debug, PartialEq, Eq)]
pub enum ComponentAction {
    Nothing,
    /// Remove the folder `<download folder>/<name>` if it exists.
    RemoveInstalled { name: String },
    /// Download and unpack a version, then send `DownloadFinished` for it.
    StartInstall(InstallRequest),
}

/// The content of a [`ComponentAction`].
pub enum ComponentActionModel {
    Nothing,
    RemoveInstalled { name: Seq<char> },
    StartInstall(InstallModel),
}

impl View for ComponentAction {
    type V = ComponentActionModel;

    open spec fn view(&self) -> ComponentActionModel {
        match self {
            ComponentAction::Nothing => ComponentActionModel::Nothing,
            ComponentAction::RemoveInstalled { name } => ComponentActionModel::RemoveInstalled {
                name: name@,
            },
            ComponentAction::StartInstall(req) => ComponentActionModel::StartInstall(
                InstallModel {
                    group_idx: req.group_idx as nat,
                    ver_idx: req.ver_idx as nat,
                    uri: req.uri@,
                    download_folder: req.download_folder@,
                    filename: opt_view(req.filename),
                },
            ),
        }
    }
}

/// The components manager.
#[derive(Debug, PartialEq, Eq)]
pub struct ComponentsListView {
    pub download_folder: String,
    pub groups: Vec<ComponentGroup>,
    pub show_recommended_only: bool,
}

/// The content of a [`ComponentsListView`].
#[verifier::ext_equal]
pub struct ListModel {
    pub download_folder: Seq<char>,
    pub groups: Seq<GroupModel>,
    pub show_recommended_only: bool,
}

impl ComponentsListView {
    /// The content of the list.
    pub open spec fn model(&self) -> ListModel {
        ListModel {
            download_folder: self.download_folder@,
            groups: self.groups@.map_values(|g: ComponentGroup| g@),
            show_recommended_only: self.show_recommended_only,
        }
    }
}

/// There is a version at (`g`, `v`).
pub open spec fn has_version(groups: Seq<GroupModel>, g: int, v: int) -> bool {
    0 <= g < groups.len() && 0 <= v < groups[g].versions.len()
}

/// `groups` with the status of the version at (`g`, `v`) set to `st`, where there is one.
pub open spec fn set_status(groups: Seq<GroupModel>, g: int, v: int, st: StatusModel) -> Seq<
    GroupModel,
> {
    if has_version(groups, g, v) {
        groups.update(
            g,
            GroupModel {
                versions: groups[g].versions.update(
                    v,
                    VersionModel { status: st, ..groups[g].versions[v] },
                ),
                ..groups[g]
            },
        )
    } else {
        groups
    }
}

/// `groups` with group `g` folded or unfolded, where there is one.
pub open spec fn toggle_group(groups: Seq<GroupModel>, g: int) -> Seq<GroupModel> {
    if 0 <= g < groups.len() {
        groups.update(g, GroupModel { is_expanded: !groups[g].is_expanded, ..groups[g] })
    } else {
        groups
    }
}

/// The archive file name of a version: `<name>.<format>` where a format is given.
pub open spec fn archive_name(v: VersionModel) -> Option<Seq<char>> {
    match v.format {
        Some(f) => Some(v.name + "."@ + f),
        None => None,
    }
}

/// The new list and the action for message `m` on list `s`. Messages that name a group or a
/// version that is not there change nothing.
pub open spec fn list_next(s: ListModel, m: MsgModel) -> (ListModel, ComponentActionModel) {
    match m {
        MsgModel::ToggleShowRecommended(b) => (
            ListModel { show_recommended_only: b, ..s },
            ComponentActionModel::Nothing,
        ),
        MsgModel::ToggleGroupExpand(g) => (
            ListModel { groups: toggle_group(s.groups, g as int), ..s },
            ComponentActionModel::Nothing,
        ),
        MsgModel::DeleteVersion { group_idx, ver_idx } => if has_version(
            s.groups,
            group_idx as int,
            ver_idx as int,
        ) {
            (
                ListModel {
                    groups: set_status(s.groups, group_idx as int, ver_idx as int, StatusModel::Idle),
                    ..s
                },
                ComponentActionModel::RemoveInstalled {
                    name: s.groups[group_idx as int].versions[ver_idx as int].name,
                },
            )
        } else {
            (s, ComponentActionModel::Nothing)
        },
        MsgModel::InstallVersion { group_idx, ver_idx } => if has_version(
            s.groups,
            group_idx as int,
            ver_idx as int,
        ) {
            let v = s.groups[group_idx as int].versions[ver_idx as int];
            (
                ListModel {
                    groups: set_status(
                        s.groups,
                        group_idx as int,
                        ver_idx as int,
                        StatusModel::Downloading {
                            fraction_bits: ZERO_FRACTION_BITS,
                            caption: starting_caption(),
                        },
                    ),
                    ..s
                },
                ComponentActionModel::StartInstall(
                    InstallModel {
                        group_idx,
                        ver_idx,
                        uri: v.uri,
                        download_folder: s.download_folder,
                        filename: archive_name(v),
                    },
                ),
            )
        } else {
            (s, ComponentActionModel::Nothing)
        },
        MsgModel::DownloadProgress { group_idx, ver_idx, fraction_bits, caption } => (
            ListModel {
                groups: set_status(
                    s.groups,
                    group_idx as int,
                    ver_idx as int,
                    StatusModel::Downloading { fraction_bits, caption },
                ),
                ..s
            },
            ComponentActionModel::Nothing,
        ),
        MsgModel::DownloadFinished { group_idx, ver_idx } => (
            ListModel {
                groups: set_status(
                    s.groups,
                    group_idx as int,
                    ver_idx as int,
                    StatusModel::Completed,
                ),
                ..s
            },
            ComponentActionModel::Nothing,
        ),
        MsgModel::DownloadFailed { group_idx, ver_idx, error } => (
            ListModel {
                groups: set_status(
                    s.groups,
                    group_idx as int,
                    ver_idx as int,
                    StatusModel::Error(error),
                ),
                ..s
            },
            ComponentActionModel::Nothing,
        ),
    }
}

impl ComponentsListView {
    /// Sets the status of the version at (`g`, `v`).
    fn set_version_status(&mut self, g: usize, v: usize, st: DownloadStatus)
        requires
            has_version(old(self).model().groups, g as int, v as int),
        ensures
            final(self).model() == (ListModel {
                groups: set_status(old(self).model().groups, g as int, v as int, st@),
                ..old(self).model()
            }),
    {
        let ghost old_groups = self.model().groups;
        self.groups[g].versions[v].status = st;
        proof {
            let new_groups = self.model().groups;
            assert(new_groups[g as int].versions =~= old_groups[g as int].versions.update(
                v as int,
                VersionModel { status: st@, ..old_groups[g as int].versions[v as int] },
            ));
            assert(new_groups =~= set_status(old_groups, g as int, v as int, st@));
        }
    }

    /// Whether there is a version at (`g`, `v`).
    fn version_exists(&self, g: usize, v: usize) -> (r: bool)
        ensures
            r == has_version(self.model().groups, g as int, v as int),
    {
        g < self.groups.len() && v < self.groups[g].versions.len()
    }

    /// Handles one message: changes the list and says what the caller has to do.
    pub fn update(&mut self, message: ComponentMsg) -> (r: ComponentAction)
        ensures
            final(self).model() == list_next(old(self).model(), message@).0,
            r@ == list_next(old(self).model(), message@).1,
    {
        match message {
            ComponentMsg::ToggleShowRecommended(show) => {
                self.show_recommended_only = show;
                ComponentAction::Nothing
            },
            ComponentMsg::ToggleGroupExpand(group_idx) => {
                if group_idx < self.groups.len() {
                    let ghost old_groups = self.model().groups;
                    let expanded = self.groups[group_idx].is_expanded;
                    self.groups[group_idx].is_expanded = !expanded;
                    assert(self.model().groups =~= toggle_group(old_groups, group_idx as int));
                }
                ComponentAction::Nothing
            },
            ComponentMsg::DeleteVersion { group_idx, ver_idx } => {
                if self.version_exists(group_idx, ver_idx) {
                    let name = self.groups[group_idx].versions[ver_idx].name.clone();
                    self.set_version_status(group_idx, ver_idx, DownloadStatus::Idle);
                    ComponentAction::RemoveInstalled { name }
                } else {
                    ComponentAction::Nothing
                }
            },
            ComponentMsg::InstallVersion { group_idx, ver_idx } => {
                if self.version_exists(group_idx, ver_idx) {
                    let ver = &self.groups[group_idx].versions[ver_idx];
                    let uri = ver.uri.clone();
                    let download_folder = self.download_folder.clone();
                    let filename = match &ver.format {
                        Some(f) => {
                            let with_dot = join_str(ver.name.as_str(), ".");
                            Some(join_str(with_dot.as_str(), f.as_str()))
                        },
                        None => None,
                    };
                    self.set_version_status(
                        group_idx,
                        ver_idx,
                        DownloadStatus::Downloading {
                            fraction_bits: ZERO_FRACTION_BITS,
                            caption: owned("Starting..."),
                        },
                    );
                    ComponentAction::StartInstall(
                        InstallRequest { group_idx, ver_idx, uri, download_folder, filename },
                    )
                } else {
                    ComponentAction::Nothing
                }
            },
            ComponentMsg::DownloadProgress { group_idx, ver_idx, fraction_bits, caption } => {
                if self.version_exists(group_idx, ver_idx) {
                    self.set_version_status(
                        group_idx,
                        ver_idx,
                        DownloadStatus::Downloading { fraction_bits, caption },
                    );
                }
                ComponentAction::Nothing
            },
            ComponentMsg::DownloadFinished { group_idx, ver_idx } => {
                if self.version_exists(group_idx, ver_idx) {
                    self.set_version_status(group_idx, ver_idx, DownloadStatus::Completed);
                }
                ComponentAction::Nothing
            },
            ComponentMsg::DownloadFailed { group_idx, ver_idx, error } => {
                if self.version_exists(group_idx, ver_idx) {
                    self.set_version_status(group_idx, ver_idx, DownloadStatus::Error(error));
                }
                ComponentAction::Nothing
            },
        }
    }
}

/// The installed flags as sequences.
pub open spec fn installed_view(installed: Seq<Vec<bool>>) -> Seq<Seq<bool>> {
    installed.map_values(|r: Vec<bool>| r@)
}

/// Whether `installed` marks the version at (`g`, `v`) as present on disk; entries beyond the
/// ends of `installed` count as not present.
pub open spec fn installed_at(installed: Seq<Seq<bool>>, g: int, v: int) -> bool {
    0 <= g < installed.len() && 0 <= v < installed[g].len() && installed[g][v]
}

/// The status of a version after a look at the disk: installed if its folder is there,
/// otherwise idle unless a download is running.
pub open spec fn refreshed_status(st: StatusModel, installed: bool) -> StatusModel {
    if installed {
        StatusModel::Completed
    } else if st is Downloading {
        st
    } else {
        StatusModel::Idle
    }
}

/// A version after a look at the disk.
pub open spec fn refreshed_version(v: VersionModel, installed: bool) -> VersionModel {
    VersionModel { status: refreshed_status(v.status, installed), ..v }
}

/// A group after a look at the disk, where it is group `g`.
pub open spec fn refreshed_group(grp: GroupModel, g: int, installed: Seq<Seq<bool>>) -> GroupModel {
    GroupModel {
        versions: Seq::new(
            grp.versions.len(),
            |v: int| refreshed_version(grp.versions[v], installed_at(installed, g, v)),
        ),
        ..grp
    }
}

/// All groups after a look at the disk.
pub open spec fn refresh_groups(groups: Seq<GroupModel>, installed: Seq<Seq<bool>>) -> Seq<
    GroupModel,
> {
    Seq::new(groups.len(), |g: int| refreshed_group(groups[g], g, installed))
}

impl ComponentsListView {
    /// The components list for `pattern`, showing recommended versions only, with the status
    /// of every version taken from the disk: `installed[g][v]` tells whether the folder of
    /// version `v` of group `g` exists in the download folder.
    pub fn new(pattern: ComponentsListPattern, installed: &Vec<Vec<bool>>) -> (r: ComponentsListView)
        ensures
            r.model() == (ListModel {
                download_folder: pattern.download_folder@,
                groups: refresh_groups(
                    pattern.groups@.map_values(|g: ComponentGroup| g@),
                    installed_view(installed@),
                ),
                show_recommended_only: true,
            }),
    {
        let mut slf = ComponentsListView {
            download_folder: pattern.download_folder,
            groups: pattern.groups,
            show_recommended_only: true,
        };
        slf.refresh_installed_states(installed);
        slf
    }

    /// Takes the status of every version from the disk: `installed[g][v]` tells whether the
    /// folder of version `v` of group `g` exists in the download folder. An installed
    /// version is marked installed; any other one becomes idle unless it is being downloaded.
    pub fn refresh_installed_states(&mut self, installed: &Vec<Vec<bool>>)
        ensures
            final(self).model() == (ListModel {
                groups: refresh_groups(old(self).model().groups, installed_view(installed@)),
                ..old(self).model()
            }),
    {
        let ghost old_model = self.model();
        let ghost inst = installed_view(installed@);
        let ghost target = refresh_groups(old_model.groups, inst);
        let n = self.groups.len();
        let mut g: usize = 0;
        while g < n
            invariant
                n == old_model.groups.len(),
                g <= n,
                inst == installed_view(installed@),
                target == refresh_groups(old_model.groups, inst),
                self.model().download_folder == old_model.download_folder,
                self.model().show_recommended_only == old_model.show_recommended_only,
                self.model().groups.len() == n,
                forall|i: int| 0 <= i < g ==> #[trigger] self.model().groups[i] == target[i],
                forall|i: int| g <= i < n ==> #[trigger] self.model().groups[i] == old_model.groups[i],
            decreases n - g,
        {
            let m = self.groups[g].versions.len();
            assert(self.model().groups[g as int] == old_model.groups[g as int]);
            assert(self.model().groups[g as int].versions.len() == m);
            let mut v: usize = 0;
            while v < m
                invariant
                    n == old_model.groups.len(),
                    g < n,
                    v <= m,
                    m == old_model.groups[g as int].versions.len(),
                    inst == installed_view(installed@),
                    target == refresh_groups(old_model.groups, inst),
                    self.model().download_folder == old_model.download_folder,
                    self.model().show_recommended_only == old_model.show_recommended_only,
                    self.model().groups.len() == n,
                    forall|i: int| 0 <= i < g ==> #[trigger] self.model().groups[i] == target[i],
                    forall|i: int|
                        g < i < n ==> #[trigger] self.model().groups[i] == old_model.groups[i],
                    self.model().groups[g as int].title == old_model.groups[g as int].title,
                    self.model().groups[g as int].is_expanded == old_model.groups[g as int].is_expanded,
                    self.model().groups[g as int].versions.len() == m,
                    forall|j: int|
                        0 <= j < v ==> #[trigger] self.model().groups[g as int].versions[j]
                            == target[g as int].versions[j],
                    forall|j: int|
                        v <= j < m ==> #[trigger] self.model().groups[g as int].versions[j]
                            == old_model.groups[g as int].versions[j],
                decreases m - v,
            {
                let present = g < installed.len() && v < installed[g].len() && installed[g][v];
                assert(present == installed_at(inst, g as int, v as int));
                let ghost before = self.model().groups;
                if present {
                    self.set_version_status(g, v, DownloadStatus::Completed);
                } else {
                    let downloading = match &self.groups[g].versions[v].status {
                        DownloadStatus::Downloading { .. } => true,
                        _ => false,
                    };
                    if !downloading {
                        self.set_version_status(g, v, DownloadStatus::Idle);
                    }
                }
                let ghost vi = v as int;
                assert(self.model().groups[g as int].versions[vi] =~= target[g as int].versions[vi]);
                v = v + 1;
            }
            assert(self.model().groups[g as int] =~= target[g as int]);
            g = g + 1;
        }
        assert(self.model().groups =~= target);
    }
}

/// Whether a version is listed: with "recommended only" on, optional versions that are
/// idle are left out; a version that is installed, downloading or failed is always listed.
pub open spec fn is_listed(show_recommended_only: bool, v: VersionModel) -> bool {
    !(show_recommended_only && !v.recommended && v.status is Idle)
}

/// The head line of a group: a fold marker, the title, and the message that folds or
/// unfolds the group.
#[derive(Debug, PartialEq, Eq)]
pub struct GroupHeader {
    /// "▼" for an expanded group, "▶" for a folded one.
    pub icon: String,
    pub title: String,
    pub on_press: ComponentMsg,
}

/// What a version's row offers, by its status.
#[derive(Debug, PartialEq, Eq)]
pub enum RowAction {
    /// A "Download" button.
    Download { on_press: ComponentMsg },
    /// A progress bar under a caption.
    Progress { caption: String, fraction_bits: u32 },
    /// "Installed" and a "Delete" button.
    Installed { on_delete: ComponentMsg },
    /// The error ("Error: <error>") and a "Retry" button.
    Failed { text: String, on_retry: ComponentMsg },
}

/// The content of a [`RowAction`].
pub enum RowActionModel {
    Download { on_press: MsgModel },
    Progress { caption: Seq<char>, fraction_bits: u32 },
    Installed { on_delete: MsgModel },
    Failed { text: Seq<char>, on_retry: MsgModel },
}

impl View for RowAction {
    type V = RowActionModel;

    open spec fn view(&self) -> RowActionModel {
        match self {
            RowAction::Download { on_press } => RowActionModel::Download { on_press: on_press@ },
            RowAction::Progress { caption, fraction_bits } => RowActionModel::Progress {
                caption: caption@,
                fraction_bits: *fraction_bits,
            },
            RowAction::Installed { on_delete } => RowActionModel::Installed {
                on_delete: on_delete@,
            },
            RowAction::Failed { text, on_retry } => RowActionModel::Failed {
                text: text@,
                on_retry: on_retry@,
            },
        }
    }
}

/// What the row of version (`g`, `v`) offers when its status is `st`.
pub open spec fn row_action(g: nat, v: nat, st: StatusModel) -> RowActionModel {
    match st {
        StatusModel::Idle => RowActionModel::Download {
            on_press: MsgModel::InstallVersion { group_idx: g, ver_idx: v },
        },
        StatusModel::Downloading { fraction_bits, caption } => RowActionModel::Progress {
            caption,
            fraction_bits,
        },
        StatusModel::Completed => RowActionModel::Installed {
            on_delete: MsgModel::DeleteVersion { group_idx: g, ver_idx: v },
        },
        StatusModel::Error(e) => RowActionModel::Failed {
            text: "Error: "@ + e,
            on_retry: MsgModel::InstallVersion { group_idx: g, ver_idx: v },
        },
    }
}

/// The message that the button of a row sends, where the row has one.
pub open spec fn row_button(a: RowActionModel) -> Option<MsgModel> {
    match a {
        RowActionModel::Download { on_press } => Some(on_press),
        RowActionModel::Progress { .. } => None,
        RowActionModel::Installed { on_delete } => Some(on_delete),
        RowActionModel::Failed { on_retry, .. } => Some(on_retry),
    }
}

/// One listed version: its title, whether it is recommended, and what it offers.
#[derive(Debug, PartialEq, Eq)]
pub struct VersionRow {
    pub title: String,
    /// "Recommended" or "Optional".
    pub tag: String,
    pub action: RowAction,
}

/// The head line of group `g_idx`.
pub fn group_header(g_idx: usize, group: &ComponentGroup) -> (r: GroupHeader)
    ensures
        r.icon@ == (if group.is_expanded {
            "\u{25bc}"@
        } else {
            "\u{25b6}"@
        }),
        r.title@ == group.title@,
        r.on_press == ComponentMsg::ToggleGroupExpand(g_idx),
{
    let icon = if group.is_expanded {
        owned("\u{25bc}")
    } else {
        owned("\u{25b6}")
    };
    GroupHeader { icon, title: group.title.clone(), on_press: ComponentMsg::ToggleGroupExpand(g_idx) }
}

/// The row of version `v_idx` of group `g_idx`.
pub fn version_row(g_idx: usize, v_idx: usize, ver: &ComponentVersion) -> (r: VersionRow)
    ensures
        r.title@ == ver.title@,
        r.tag@ == (if ver.recommended {
            "Recommended"@
        } else {
            "Optional"@
        }),
        r.action@ == row_action(g_idx as nat, v_idx as nat, ver.status@),
{
    let tag = if ver.recommended {
        owned("Recommended")
    } else {
        owned("Optional")
    };
    let action = match &ver.status {
        DownloadStatus::Idle => RowAction::Download {
            on_press: ComponentMsg::InstallVersion { group_idx: g_idx, ver_idx: v_idx },
        },
        DownloadStatus::Downloading { fraction_bits, caption } => RowAction::Progress {
            caption: caption.clone(),
            fraction_bits: *fraction_bits,
        },
        DownloadStatus::Completed => RowAction::Installed {
            on_delete: ComponentMsg::DeleteVersion { group_idx: g_idx, ver_idx: v_idx },
        },
        DownloadStatus::Error(err) => RowAction::Failed {
            text: join_str("Error: ", err.as_str()),
            on_retry: ComponentMsg::InstallVersion { group_idx: g_idx, ver_idx: v_idx },
        },
    };
    VersionRow { title: ver.title.clone(), tag, action }
}

/// `r` holds, in increasing order, exactly the positions of the listed versions among `vs`.
pub open spec fn lists_shown(show_recommended_only: bool, vs: Seq<VersionModel>, r: Seq<usize>) -> bool {
    &&& forall|k: int|
        0 <= k < r.len() ==> #[trigger] r[k] < vs.len() && is_listed(
            show_recommended_only,
            vs[r[k] as int],
        )
    &&& forall|k1: int, k2: int| 0 <= k1 < k2 < r.len() ==> r[k1] < r[k2]
    &&& forall|i: int|
        0 <= i < vs.len() && is_listed(show_recommended_only, #[trigger] vs[i]) ==> r.contains(
            i as usize,
        )
}

/// `row` is the row of version (`g`, `v`), whose content is `ver`.
pub open spec fn is_row_of(row: VersionRow, g: nat, v: nat, ver: VersionModel) -> bool {
    &&& row.title@ == ver.title
    &&& row.tag@ == (if ver.recommended {
        "Recommended"@
    } else {
        "Optional"@
    })
    &&& row.action@ == row_action(g, v, ver.status)
}

/// A group as shown: its head line, and the rows of its shown versions with their positions.
#[derive(Debug, PartialEq, Eq)]
pub struct GroupSection {
    pub header: GroupHeader,
    pub shown: Vec<usize>,
    pub rows: Vec<VersionRow>,
}

/// The whole components manager as shown.
#[derive(Debug, PartialEq, Eq)]
pub struct ComponentsScreen {
    /// "Components Manager".
    pub title: String,
    /// "Show recommended only".
    pub toggle_label: String,
    /// The state of the toggle; switching it sends `ToggleShowRecommended` with the new value.
    pub show_recommended_only: bool,
    pub sections: Vec<GroupSection>,
}

impl ComponentsListView {
    /// Whether a version is listed under the current "recommended only" setting.
    pub fn is_version_listed(&self, ver: &ComponentVersion) -> (r: bool)
        ensures
            r == is_listed(self.show_recommended_only, ver@),
    {
        let idle = match &ver.status {
            DownloadStatus::Idle => true,
            _ => false,
        };
        !(self.show_recommended_only && !ver.recommended && idle)
    }

    /// The positions of the versions of group `group_idx` that the list shows, in order: none
    /// when the group is folded (or not there), else every listed version.
    pub fn shown_versions(&self, group_idx: usize) -> (r: Vec<usize>)
        ensures
            !(group_idx < self.model().groups.len() && self.model().groups[group_idx as int].is_expanded)
                ==> r@.len() == 0,
            group_idx < self.model().groups.len() && self.model().groups[group_idx as int].is_expanded
                ==> lists_shown(self.show_recommended_only, self.model().groups[group_idx as int].versions, r@),
    {
        let mut r: Vec<usize> = Vec::new();
        if group_idx >= self.groups.len() || !self.groups[group_idx].is_expanded {
            return r;
        }
        let ghost vs = self.model().groups[group_idx as int].versions;
        let n = self.groups[group_idx].versions.len();
        let mut i: usize = 0;
        while i < n
            invariant
                group_idx < self.model().groups.len(),
                vs == self.model().groups[group_idx as int].versions,
                n == vs.len(),
                i <= n,
                forall|k: int|
                    0 <= k < r@.len() ==> #[trigger] r@[k] < i && is_listed(
                        self.show_recommended_only,
                        vs[r@[k] as int],
                    ),
                forall|k1: int, k2: int| 0 <= k1 < k2 < r@.len() ==> r@[k1] < r@[k2],
                forall|j: int|
                    0 <= j < i && is_listed(self.show_recommended_only, #[trigger] vs[j])
                        ==> r@.contains(j as usize),
            decreases n - i,
        {
            if self.is_version_listed(&self.groups[group_idx].versions[i]) {
                let ghost before = r@;
                r.push(i);
                assert forall|j: int|
                    0 <= j < i + 1 && is_listed(
                        self.show_recommended_only,
                        #[trigger] vs[j],
                    ) implies r@.contains(j as usize) by {
                    if j < i {
                        let k = choose|k: int| 0 <= k < before.len() && before[k] == j as usize;
                        assert(r@[k] == j as usize);
                    } else {
                        assert(r@[before.len() as int] == i);
                    }
                }
            }
            i = i + 1;
        }
        r
    }
}

/// Folding a group twice leaves the list as it was.
pub proof fn law_toggle_group_twice_restores(s: ListModel, g: nat)
    ensures
        list_next(list_next(s, MsgModel::ToggleGroupExpand(g)).0, MsgModel::ToggleGroupExpand(g)).0
            == s,
{
    let once = list_next(s, MsgModel::ToggleGroupExpand(g)).0;
    let twice = list_next(once, MsgModel::ToggleGroupExpand(g)).0;
    if g < s.groups.len() {
        assert(twice.groups[g as int] =~= s.groups[g as int]);
    }
    assert(twice.groups =~= s.groups);
    assert(twice =~= s);
}

/// The group and version that a message names, if it names a version.
pub open spec fn named_version(m: MsgModel) -> Option<(nat, nat)> {
    match m {
        MsgModel::InstallVersion { group_idx, ver_idx } => Some((group_idx, ver_idx)),
        MsgModel::DeleteVersion { group_idx, ver_idx } => Some((group_idx, ver_idx)),
        MsgModel::DownloadProgress { group_idx, ver_idx, .. } => Some((group_idx, ver_idx)),
        MsgModel::DownloadFinished { group_idx, ver_idx } => Some((group_idx, ver_idx)),
        MsgModel::DownloadFailed { group_idx, ver_idx, .. } => Some((group_idx, ver_idx)),
        _ => None,
    }
}

/// A message about a version that is not in the list changes nothing and asks for nothing.
pub proof fn law_missing_version_changes_nothing(s: ListModel, m: MsgModel)
    requires
        named_version(m) matches Some((g, v)) && !has_version(s.groups, g as int, v as int),
    ensures
        list_next(s, m).0 == s,
        list_next(s, m).1 is Nothing,
{
}

/// A message about a version in the list changes that version's status only: every other
/// version, every title, every fold state and the setting stay as they were.
pub proof fn law_version_message_touches_one_status(s: ListModel, m: MsgModel, g: int, v: int)
    requires
        named_version(m) matches Some((mg, mv)) && has_version(s.groups, mg as int, mv as int),
        has_version(s.groups, g, v),
        named_version(m) != Some((g as nat, v as nat)),
    ensures
        has_version(list_next(s, m).0.groups, g, v),
        list_next(s, m).0.groups[g].versions[v] == s.groups[g].versions[v],
        list_next(s, m).0.groups[g].title == s.groups[g].title,
        list_next(s, m).0.groups[g].is_expanded == s.groups[g].is_expanded,
        list_next(s, m).0.show_recommended_only == s.show_recommended_only,
        list_next(s, m).0.download_folder == s.download_folder,
{
}

/// Along a download's life the row always offers the message that leads on: an idle version
/// offers to install it; once installing it offers no button; once installed it offers to
/// delete it; after a failure it offers to install it again; once deleted it offers to
/// install it.
pub proof fn law_rows_lead_on(s: ListModel, g: nat, v: nat, e: Seq<char>)
    requires
        has_version(s.groups, g as int, v as int),
    ensures
        ({
            let install = MsgModel::InstallVersion { group_idx: g, ver_idx: v };
            let delete = MsgModel::DeleteVersion { group_idx: g, ver_idx: v };
            let st = |t: ListModel| t.groups[g as int].versions[v as int].status;
            &&& row_button(row_action(g, v, StatusModel::Idle)) == Some(install)
            &&& row_button(row_action(g, v, st(list_next(s, install).0))) is None
            &&& row_button(
                row_action(
                    g,
                    v,
                    st(list_next(s, MsgModel::DownloadFinished { group_idx: g, ver_idx: v }).0),
                ),
            ) == Some(delete)
            &&& row_button(
                row_action(
                    g,
                    v,
                    st(list_next(s, MsgModel::DownloadFailed { group_idx: g, ver_idx: v, error: e }).0),
                ),
            ) == Some(install)
            &&& row_button(row_action(g, v, st(list_next(s, delete).0))) == Some(install)
        }),
{
}

/// A second look at the disk with the same findings changes nothing more.
pub proof fn law_refresh_idempotent(groups: Seq<GroupModel>, installed: Seq<Seq<bool>>)
    ensures
        refresh_groups(refresh_groups(groups, installed), installed) == refresh_groups(
            groups,
            installed,
        ),
{
    let once = refresh_groups(groups, installed);
    let twice = refresh_groups(once, installed);
    assert forall|g: int| 0 <= g < groups.len() implies #[trigger] twice[g] == once[g] by {
        assert(twice[g].versions =~= once[g].versions);
        assert(twice[g] =~= once[g]);
    }
    assert(twice =~= once);
}

/// With "recommended only" off every version is listed; with it on, recommended versions and
/// versions that are not idle are still listed, and optional idle versions are left out.
pub proof fn law_listing(v: VersionModel)
    ensures
        is_listed(false, v),
        v.recommended ==> is_listed(true, v),
        !(v.status is Idle) ==> is_listed(true, v),
        !v.recommended && v.status is Idle ==> !is_listed(true, v),
{
}

/// The "recommended only" toggle sets the setting to the value it carries and changes
/// nothing else.
pub proof fn law_toggle_sets_setting(s: ListModel, b: bool)
    ensures
        list_next(s, MsgModel::ToggleShowRecommended(b)).0.show_recommended_only == b,
        list_next(s, MsgModel::ToggleShowRecommended(b)).0.groups == s.groups,
        list_next(s, MsgModel::ToggleShowRecommended(b)).0.download_folder == s.download_folder,
        list_next(s, MsgModel::ToggleShowRecommended(b)).1 is Nothing,
{
}

/// Folding a group flips its fold state and nothing else.
pub proof fn law_toggle_group_flips(s: ListModel, g: nat)
    requires
        g < s.groups.len(),
    ensures
        list_next(s, MsgModel::ToggleGroupExpand(g)).0.groups[g as int].is_expanded
            == !s.groups[g as int].is_expanded,
        list_next(s, MsgModel::ToggleGroupExpand(g)).0.groups[g as int].versions
            == s.groups[g as int].versions,
        list_next(s, MsgModel::ToggleGroupExpand(g)).0.groups[g as int].title
            == s.groups[g as int].title,
        forall|i: int|
            0 <= i < s.groups.len() && i != g ==> list_next(
                s,
                MsgModel::ToggleGroupExpand(g),
            ).0.groups[i] == s.groups[i],
{
}

/// A row shows what the status holds: the progress row the caption and fraction of the
/// download, the failed row "Error: " followed by the error.
pub proof fn law_rows_show_status(g: nat, v: nat, bits: u32, text: Seq<char>)
    ensures
        row_action(g, v, StatusModel::Downloading { fraction_bits: bits, caption: text })
            == (RowActionModel::Progress { caption: text, fraction_bits: bits }),
        row_action(g, v, StatusModel::Error(text)) matches RowActionModel::Failed { text: t, .. }
            && t == "Error: "@ + text,
{
}

impl ComponentsListView {
    /// The rows of the versions at positions `shown` of group `g`.
    fn rows_of(&self, g: usize, shown: &Vec<usize>) -> (r: Vec<VersionRow>)
        requires
            g < self.model().groups.len(),
            forall|k: int| 0 <= k < shown@.len() ==> #[trigger] shown@[k] < self.model().groups[g as int].versions.len(),
        ensures
            r@.len() == shown@.len(),
            forall|k: int|
                0 <= k < r@.len() ==> is_row_of(
                    #[trigger] r@[k],
                    g as nat,
                    shown@[k] as nat,
                    self.model().groups[g as int].versions[shown@[k] as int],
                ),
    {
        let mut r: Vec<VersionRow> = Vec::new();
        let mut k: usize = 0;
        while k < shown.len()
            invariant
                g < self.model().groups.len(),
                forall|j: int| 0 <= j < shown@.len() ==> #[trigger] shown@[j] < self.model().groups[g as int].versions.len(),
                k <= shown@.len(),
                r@.len() == k,
                forall|j: int|
                    0 <= j < k ==> is_row_of(
                        #[trigger] r@[j],
                        g as nat,
                        shown@[j] as nat,
                        self.model().groups[g as int].versions[shown@[j] as int],
                    ),
            decreases shown@.len() - k,
        {
            let v = shown[k];
            let row = version_row(g, v, &self.groups[g].versions[v]);
            r.push(row);
            k = k + 1;
        }
        r
    }

    /// What the components manager shows: a title with the "recommended only" toggle, then for
    /// every group its head line and, when it is expanded, a row for each listed version.
    pub fn view(&self) -> (r: ComponentsScreen)
        ensures
            r.title@ == "Components Manager"@,
            r.toggle_label@ == "Show recommended only"@,
            r.show_recommended_only == self.show_recommended_only,
            r.sections@.len() == self.groups@.len(),
            forall|g: int|
                0 <= g < r.sections@.len() ==> {
                    let sec = #[trigger] r.sections@[g];
                    let grp = self.model().groups[g];
                    &&& sec.header.title@ == grp.title
                    &&& sec.header.icon@ == (if grp.is_expanded {
                        "\u{25bc}"@
                    } else {
                        "\u{25b6}"@
                    })
                    &&& sec.header.on_press == ComponentMsg::ToggleGroupExpand(g as usize)
                    &&& !grp.is_expanded ==> sec.shown@.len() == 0
                    &&& grp.is_expanded ==> lists_shown(self.show_recommended_only, grp.versions, sec.shown@)
                    &&& sec.rows@.len() == sec.shown@.len()
                    &&& forall|k: int|
                        0 <= k < sec.rows@.len() ==> is_row_of(
                            #[trigger] sec.rows@[k],
                            g as nat,
                            sec.shown@[k] as nat,
                            grp.versions[sec.shown@[k] as int],
                        )
                },
    {
        let n = self.groups.len();
        let mut sections: Vec<GroupSection> = Vec::new();
        let mut g: usize = 0;
        while g < n
            invariant
                n == self.groups@.len(),
                g <= n,
                sections@.len() == g,
                forall|j: int|
                    0 <= j < g ==> {
                        let sec = #[trigger] sections@[j];
                        let grp = self.model().groups[j];
                        &&& sec.header.title@ == grp.title
                        &&& sec.header.icon@ == (if grp.is_expanded {
                            "\u{25bc}"@
                        } else {
                            "\u{25b6}"@
                        })
                        &&& sec.header.on_press == ComponentMsg::ToggleGroupExpand(j as usize)
                        &&& !grp.is_expanded ==> sec.shown@.len() == 0
                        &&& grp.is_expanded ==> lists_shown(self.show_recommended_only, grp.versions, sec.shown@)
                        &&& sec.rows@.len() == sec.shown@.len()
                        &&& forall|k: int|
                            0 <= k < sec.rows@.len() ==> is_row_of(
                                #[trigger] sec.rows@[k],
                                j as nat,
                                sec.shown@[k] as nat,
                                grp.versions[sec.shown@[k] as int],
                            )
                    },
            decreases n - g,
        {
            let header = group_header(g, &self.groups[g]);
            let shown = self.shown_versions(g);
            let rows = self.rows_of(g, &shown);
            sections.push(GroupSection { header, shown, rows });
            g = g + 1;
        }
        ComponentsScreen {
            title: owned("Components Manager"),
            toggle_label: owned("Show recommended only"),
            show_recommended_only: self.show_recommended_only,
            sections,
        }
    }
}

/// Installing a listed version asks for the download of exactly that version: the request
/// carries the group and version positions that were asked for, the version's URI, the
/// list's download folder, and `<name>.<format>` as file name when a format is given. The
/// version is marked as starting, and the `DownloadFinished` that the finished download sends
/// marks that same version installed.
pub proof fn law_install_request_names_asked_version(s: ListModel, g: nat, v: nat)
    requires
        has_version(s.groups, g as int, v as int),
    ensures
        ({
            let (t, a) = list_next(s, MsgModel::InstallVersion { group_idx: g, ver_idx: v });
            let ver = s.groups[g as int].versions[v as int];
            &&& a is StartInstall
            &&& a->StartInstall_0.group_idx == g
            &&& a->StartInstall_0.ver_idx == v
            &&& a->StartInstall_0.uri == ver.uri
            &&& a->StartInstall_0.download_folder == s.download_folder
            &&& (ver.format is None ==> a->StartInstall_0.filename is None)
            &&& (forall|f: Seq<char>|
                ver.format == Some(f) ==> a->StartInstall_0.filename == Some(ver.name + "."@ + f))
            &&& t.groups.len() == s.groups.len()
            &&& t.groups[g as int].versions.len() == s.groups[g as int].versions.len()
            &&& t.groups[g as int].versions[v as int].status == (StatusModel::Downloading {
                fraction_bits: 0,
                caption: "Starting..."@,
            })
            &&& list_next(
                t,
                MsgModel::DownloadFinished {
                    group_idx: a->StartInstall_0.group_idx,
                    ver_idx: a->StartInstall_0.ver_idx,
                },
            ).0.groups[g as int].versions[v as int].status == StatusModel::Completed
        }),
{
}

/// A message about a listed version sets that version's status as the message says:
/// deleting makes it idle (and asks to remove the folder named after it), progress shows the
/// given fraction and caption, a finished download makes it installed, a failed one records
/// the error.
pub proof fn law_version_messages_set_status(
    s: ListModel,
    g: nat,
    v: nat,
    bits: u32,
    text: Seq<char>,
)
    requires
        has_version(s.groups, g as int, v as int),
    ensures
        ({
            let st = |m: MsgModel| list_next(s, m).0.groups[g as int].versions[v as int].status;
            let del = list_next(s, MsgModel::DeleteVersion { group_idx: g, ver_idx: v });
            &&& st(MsgModel::DeleteVersion { group_idx: g, ver_idx: v }) == StatusModel::Idle
            &&& del.1 == ComponentActionModel::RemoveInstalled {
                name: s.groups[g as int].versions[v as int].name,
            }
            &&& st(
                MsgModel::DownloadProgress {
                    group_idx: g,
                    ver_idx: v,
                    fraction_bits: bits,
                    caption: text,
                },
            ) == (StatusModel::Downloading { fraction_bits: bits, caption: text })
            &&& st(MsgModel::DownloadFinished { group_idx: g, ver_idx: v })
                == StatusModel::Completed
            &&& st(MsgModel::DownloadFailed { group_idx: g, ver_idx: v, error: text })
                == StatusModel::Error(text)
        }),
{
}

/// After a look at the disk, for the version at (`g`, `v`): if `installed[g][v]` is true, the
/// version is installed, whatever its status was; otherwise a running download keeps its
/// status and any other status becomes idle. Nothing else about the version or its group
/// changes, and no group or version appears or disappears.
pub proof fn law_refresh_status(
    groups: Seq<GroupModel>,
    installed: Seq<Seq<bool>>,
    g: int,
    v: int,
)
    requires
        0 <= g < groups.len(),
        0 <= v < groups[g].versions.len(),
    ensures
        ({
            let r = refresh_groups(groups, installed);
            let old = groups[g].versions[v];
            let new = r[g].versions[v];
            let on_disk = g < installed.len() && v < installed[g].len() && installed[g][v];
            &&& r.len() == groups.len()
            &&& r[g].versions.len() == groups[g].versions.len()
            &&& r[g].title == groups[g].title
            &&& r[g].is_expanded == groups[g].is_expanded
            &&& new.name == old.name
            &&& new.title == old.title
            &&& new.uri == old.uri
            &&& new.format == old.format
            &&& new.recommended == old.recommended
            &&& (on_disk ==> new.status == StatusModel::Completed)
            &&& (!on_disk && old.status is Downloading ==> new.status == old.status)
            &&& (!on_disk && !(old.status is Downloading) ==> new.status == StatusModel::Idle)
        }),
{
}

} // verus!
