//! Choosing an update: which asset of a release is offered, and whether the
//! release is newer than the running program.

use vstd::prelude::*;
use vstd::string::StringExecFns;
use crate::text::chars_of;
use crate::text::contains;
use crate::text::ends_with;
use crate::text::has_suffix;
use crate::text::occurs;
use crate::text::skip_char;
use crate::text::skip_leading;
use crate::text::string_of;
use crate::tui::messages_view;
use crate::tui::LogLevel;
use crate::tui::MessageView;
use crate::tui::TuiMessage;
use crate::tui::VersionInfo;
use crate::monitor::push_log;
use crate::monitor::join2;

verus! {

/// `semver::Error`, carried through unread.
#[verifier::external_type_specification]
#[verifier::external_body]
pub struct ExVersionError(semver::Error);

/// A semantic version as plain values: the three numbers, and the texts of
/// the pre-release and of the build metadata, empty where there is none.
#[derive(Debug, Clone)]
pub struct SemVer {
    pub major: u64,
    pub minor: u64,
    pub patch: u64,
    pub pre: String,
    pub build: String,
}

/// What `semver::Version::parse` makes of a text: the numbers and the texts
/// of the version it denotes, or nothing when it denotes none.
pub uninterp spec fn semver_parse(text: Seq<char>) -> Option<(u64, u64, u64, Seq<char>, Seq<char>)>;

/// Whether `semver::Prerelease` orders the pre-release `a` after `b`.
pub uninterp spec fn prerelease_after(a: Seq<char>, b: Seq<char>) -> bool;

/// Whether `semver::BuildMetadata` orders the build metadata `a` after `b`.
pub uninterp spec fn build_after(a: Seq<char>, b: Seq<char>) -> bool;

/// `semver::Version::parse`: the version that `text` denotes, its fields
/// moved into plain values, or the reason why it denotes none. The outcome
/// depends on the text alone.
#[verifier::external_body]
fn parse_version(text: &str) -> (r: Result<SemVer, semver::Error>)
    ensures
        match r {
            Ok(version) => semver_parse(text@) == Some(version.parts()),
            Err(_) => semver_parse(text@) is None,
        },
{
    match semver::Version::parse(text) {
        Ok(version) => Ok(
            SemVer {
                major: version.major,
                minor: version.minor,
                patch: version.patch,
                pre: version.pre.as_str().to_string(),
                build: version.build.as_str().to_string(),
            },
        ),
        Err(error) => Err(error),
    }
}

/// `>` on `semver::Prerelease`: whether the pre-release `a` is ordered
/// after `b`. A text that is no pre-release is ordered after nothing.
#[verifier::external_body]
fn prerelease_is_after(a: &str, b: &str) -> (r: bool)
    ensures
        r == prerelease_after(a@, b@),
{
    match (semver::Prerelease::new(a), semver::Prerelease::new(b)) {
        (Ok(x), Ok(y)) => x > y,
        _ => false,
    }
}

/// `>` on `semver::BuildMetadata`: whether the build metadata `a` is
/// ordered after `b`. A text that is no build metadata is ordered after
/// nothing.
#[verifier::external_body]
fn build_is_after(a: &str, b: &str) -> (r: bool)
    ensures
        r == build_after(a@, b@),
{
    match (semver::BuildMetadata::new(a), semver::BuildMetadata::new(b)) {
        (Ok(x), Ok(y)) => x > y,
        _ => false,
    }
}

/// `to_string` on `semver::Error`: the reason in words. Nothing is claimed
/// of the text.
#[verifier::external_body]
fn version_error_text(error: &semver::Error) -> String {
    error.to_string()
}

/// Whether the version `a` is ordered after `b`: by the first of major,
/// minor and patch number in which they differ; with equal numbers, by the
/// pre-release; with neither pre-release after the other, by the build
/// metadata.
pub open spec fn version_after(
    a: (u64, u64, u64, Seq<char>, Seq<char>),
    b: (u64, u64, u64, Seq<char>, Seq<char>),
) -> bool {
    if a.0 != b.0 {
        a.0 > b.0
    } else if a.1 != b.1 {
        a.1 > b.1
    } else if a.2 != b.2 {
        a.2 > b.2
    } else if prerelease_after(a.3, b.3) {
        true
    } else if prerelease_after(b.3, a.3) {
        false
    } else {
        build_after(a.4, b.4)
    }
}

impl SemVer {
    /// The version as plain values.
    pub open spec fn parts(&self) -> (u64, u64, u64, Seq<char>, Seq<char>) {
        (self.major, self.minor, self.patch, self.pre@, self.build@)
    }

    /// Whether this version is ordered after `other`, given how their
    /// pre-releases and build metadata are ordered: `tail_after` says
    /// whether, the three numbers being equal, what follows the numbers
    /// puts this version after `other`.
    pub fn is_after(&self, other: &SemVer, tail_after: bool) -> (r: bool)
        ensures
            r == if self.major != other.major {
                self.major > other.major
            } else if self.minor != other.minor {
                self.minor > other.minor
            } else if self.patch != other.patch {
                self.patch > other.patch
            } else {
                tail_after
            },
    {
        if self.major != other.major {
            self.major > other.major
        } else if self.minor != other.minor {
            self.minor > other.minor
        } else if self.patch != other.patch {
            self.patch > other.patch
        } else {
            tail_after
        }
    }

    /// Whether what follows the numbers puts this version after `other`:
    /// the pre-release decides, and between pre-releases neither of which
    /// is after the other, the build metadata.
    pub fn tail_is_after(&self, other: &SemVer) -> (r: bool)
        ensures
            r == if prerelease_after(self.pre@, other.pre@) {
                true
            } else if prerelease_after(other.pre@, self.pre@) {
                false
            } else {
                build_after(self.build@, other.build@)
            },
    {
        if prerelease_is_after(self.pre.as_str(), other.pre.as_str()) {
            true
        } else if prerelease_is_after(other.pre.as_str(), self.pre.as_str()) {
            false
        } else {
            build_is_after(self.build.as_str(), other.build.as_str())
        }
    }
}

/// The version offered by a release.
#[derive(Debug, Clone)]
pub struct RemoteVersionInfo {
    pub version: String,
    pub download_url: String,
    pub updated_at: String,
}

/// The contents of a version file.
#[derive(Debug, Clone)]
pub struct VersionFile {
    pub launcher_version: String,
    pub scrcpy_version: String,
    pub scrcpy_download_url: String,
    pub updated_at: String,
    pub changelog: VersionChangelog,
}

/// What changed with a version.
#[derive(Debug, Clone)]
pub struct VersionChangelog {
    pub launcher_changed: bool,
    pub scrcpy_changed: bool,
}

/// How the updater is to behave.
#[derive(Debug, Clone)]
pub struct UpdaterConfig {
    pub check_url: String,
    pub auto_check: bool,
    pub auto_download: bool,
    pub check_interval_hours: u64,
}

/// One downloadable file of a release. A file without a name has the empty
/// name.
#[derive(Debug)]
pub struct ReleaseAsset {
    pub name: String,
    pub download_url: Option<String>,
}

/// What the release descriptor says, a missing text being empty.
#[derive(Debug)]
pub struct Release {
    pub tag_name: String,
    pub assets: Vec<ReleaseAsset>,
    pub published_at: String,
}

/// Why no update could be chosen.
#[derive(Debug)]
pub enum UpdateError {
    /// The release names no version or offers no file for this program.
    NoVersionInfo,
    /// The running program's version is no version; the text is the reason.
    CurrentVersion(String),
    /// The release's version is no version; the text is the reason.
    RemoteVersion(String),
}

/// An offered version as plain text.
pub struct RemoteView {
    pub version: Seq<char>,
    pub download_url: Seq<char>,
    pub updated_at: Seq<char>,
}

impl View for RemoteVersionInfo {
    type V = RemoteView;

    open spec fn view(&self) -> RemoteView {
        RemoteView {
            version: self.version@,
            download_url: self.download_url@,
            updated_at: self.updated_at@,
        }
    }
}

/// The address at which releases are looked up unless configured otherwise.
pub open spec fn default_check_url() -> Seq<char> {
    "https://api.github.com/repos/your-username/Auto-Scrcpy/releases/latest"@
}

/// Whether a file of this name is the launcher for this platform: a Windows
/// build, an executable or an archive, of the launcher.
pub open spec fn is_launcher_asset(name: Seq<char>) -> bool {
    &&& occurs(name, "win64"@) || occurs(name, "windows"@)
    &&& has_suffix(name, ".exe"@) || has_suffix(name, ".zip"@)
    &&& occurs(name, "scrcpy-launcher"@)
}

/// The index of the first launcher asset at or after `from`, or the number
/// of assets when there is none.
pub open spec fn first_launcher_asset(assets: Seq<ReleaseAsset>, from: int) -> int
    decreases assets.len() - from,
{
    if from < 0 || from >= assets.len() {
        assets.len() as int
    } else if is_launcher_asset(assets[from].name@) {
        from
    } else {
        first_launcher_asset(assets, from + 1)
    }
}

/// The download address that a release offers: that of its first launcher
/// asset. Without such an asset, or without an address on it, it is empty.
pub open spec fn offered_url(assets: Seq<ReleaseAsset>) -> Seq<char> {
    let i = first_launcher_asset(assets, 0);
    if i < assets.len() && assets[i].download_url is Some {
        assets[i].download_url->0@
    } else {
        Seq::empty()
    }
}

/// Whether a release names a version and offers a download.
pub open spec fn offers(release: Release) -> bool {
    release.tag_name@.len() > 0 && offered_url(release.assets@).len() > 0
}

/// The version that a release offers.
pub open spec fn offered(release: Release) -> RemoteView {
    RemoteView {
        version: release.tag_name@,
        download_url: offered_url(release.assets@),
        updated_at: release.published_at@,
    }
}

/// Whether a file of this name is the program's executable.
pub open spec fn is_program_exe(name: Seq<char>) -> bool {
    occurs(name, "scrcpy-launcher"@) && has_suffix(name, ".exe"@)
}

/// What the outcome of a check tells the user, and whether the download
/// follows. `found` is the offered version of a newer release, `failure` the
/// reason of a failed check.
pub open spec fn check_report(
    current: Seq<char>,
    auto_download: bool,
    found: Option<Seq<char>>,
    failure: Option<Seq<char>>,
) -> (Seq<MessageView>, bool) {
    match failure {
        Some(reason) => (
            Seq::<MessageView>::empty().push(
                MessageView::Log(LogLevel::Warning, "检查更新失败: "@ + reason),
            ),
            false,
        ),
        None => match found {
            None => (
                Seq::<MessageView>::empty().push(
                    MessageView::Log(LogLevel::Info, "当前已是最新版本"@),
                ),
                false,
            ),
            Some(remote) => {
                let noticed = Seq::<MessageView>::empty().push(
                    MessageView::Log(LogLevel::Info, "发现新版本: "@ + current + " -> "@ + remote),
                );
                if auto_download {
                    (
                        noticed.push(MessageView::Log(LogLevel::Info, "开始自动下载更新..."@)),
                        true,
                    )
                } else {
                    (noticed, false)
                }
            },
        },
    }
}

/// A version text without its leading `v`s.
pub open spec fn strip_v(text: Seq<char>) -> Seq<char> {
    text.subrange(skip_char(text, 'v', 0, text.len() as int), text.len() as int)
}

impl Default for UpdaterConfig {
    fn default() -> (config: Self)
        ensures
            config.check_url@ == default_check_url(),
            config.auto_check,
            !config.auto_download,
            config.check_interval_hours == 24,
    {
        UpdaterConfig {
            check_url: String::from_str(
                "https://api.github.com/repos/your-username/Auto-Scrcpy/releases/latest",
            ),
            auto_check: true,
            auto_download: false,
            check_interval_hours: 24,
        }
    }
}

impl UpdateError {
    /// The error as the text shown to the user.
    pub open spec fn text(&self) -> Seq<char> {
        match self {
            UpdateError::NoVersionInfo => "无法找到有效的版本信息"@,
            UpdateError::CurrentVersion(reason) => "解析当前版本失败: "@ + reason@,
            UpdateError::RemoteVersion(reason) => "解析远程版本失败: "@ + reason@,
        }
    }

    /// The error as the text shown to the user.
    pub fn message(&self) -> (out: String)
        ensures
            out@ == self.text(),
    {
        match self {
            UpdateError::NoVersionInfo => String::from_str("无法找到有效的版本信息"),
            UpdateError::CurrentVersion(reason) => {
                let mut out = String::from_str("解析当前版本失败: ");
                out.append(reason.as_str());
                out
            },
            UpdateError::RemoteVersion(reason) => {
                let mut out = String::from_str("解析远程版本失败: ");
                out.append(reason.as_str());
                out
            },
        }
    }
}

/// Whether a file of this name is the launcher for this platform.
pub fn launcher_asset(name: &str) -> (r: bool)
    ensures
        r == is_launcher_asset(name@),
{
    let chars = chars_of(name);
    let win64 = chars_of("win64");
    let windows = chars_of("windows");
    let exe = chars_of(".exe");
    let zip = chars_of(".zip");
    let launcher = chars_of("scrcpy-launcher");
    (contains(&chars, &win64) || contains(&chars, &windows)) && (ends_with(&chars, &exe)
        || ends_with(&chars, &zip)) && contains(&chars, &launcher)
}

/// Whether a file of this name is the program's executable.
pub fn program_exe(name: &str) -> (r: bool)
    ensures
        r == is_program_exe(name@),
{
    let chars = chars_of(name);
    let launcher = chars_of("scrcpy-launcher");
    let exe = chars_of(".exe");
    contains(&chars, &launcher) && ends_with(&chars, &exe)
}

/// A version text without its leading `v`s.
pub fn strip_version_prefix(text: &str) -> (out: String)
    ensures
        out@ == strip_v(text@),
{
    let chars = chars_of(text);
    let n: usize = chars.len();
    let start = skip_leading(&chars, 'v', 0, n);
    string_of(&chars, start, n)
}

/// The version that a release offers, if it names a version and offers a
/// download.
pub fn offered_version(release: &Release) -> (r: Result<RemoteVersionInfo, UpdateError>)
    ensures
        offers(*release) ==> (r matches Ok(info) && info@ == offered(*release)),
        !offers(*release) ==> r matches Err(UpdateError::NoVersionInfo),
{
    let mut i: usize = 0;
    while i < release.assets.len() && !launcher_asset(release.assets[i].name.as_str())
        invariant
            i <= release.assets@.len(),
            first_launcher_asset(release.assets@, 0) == first_launcher_asset(
                release.assets@,
                i as int,
            ),
        decreases release.assets@.len() - i,
    {
        i = i + 1;
    }
    let download_url = if i < release.assets.len() {
        match &release.assets[i].download_url {
            Some(url) => url.clone(),
            None => String::new(),
        }
    } else {
        String::new()
    };
    assert(download_url@ == offered_url(release.assets@));
    if release.tag_name.as_str().is_empty() || download_url.as_str().is_empty() {
        return Err(UpdateError::NoVersionInfo);
    }
    Ok(
        RemoteVersionInfo {
            version: release.tag_name.clone(),
            download_url,
            updated_at: release.published_at.clone(),
        },
    )
}

/// What a check concludes from the offered version and from the comparison
/// of versions: the offer when it is newer, nothing when it is not, and the
/// comparison's error when it failed.
pub fn conclude_check(info: RemoteVersionInfo, newer: Result<bool, UpdateError>) -> (r: Result<
    Option<RemoteVersionInfo>,
    UpdateError,
>)
    ensures
        match newer {
            Ok(is_newer) => if is_newer {
                r == Ok::<Option<RemoteVersionInfo>, UpdateError>(Some(info))
            } else {
                r == Ok::<Option<RemoteVersionInfo>, UpdateError>(None)
            },
            Err(error) => r == Err::<Option<RemoteVersionInfo>, UpdateError>(error),
        },
{
    match newer {
        Ok(is_newer) => if is_newer {
            Ok(Some(info))
        } else {
            Ok(None)
        },
        Err(error) => Err(error),
    }
}

/// The part of the updater that decides.
pub struct Updater {
    pub config: UpdaterConfig,
    pub current_version: String,
}

impl Updater {
    /// An updater for a program of version `current_version`.
    pub fn new(config: UpdaterConfig, current_version: String) -> (updater: Self)
        ensures
            updater.config == config,
            updater.current_version == current_version,
    {
        Updater { config, current_version }
    }

    /// Whether `remote_version` is ordered after the running version, both
    /// read without their leading `v`s. The running version is read first:
    /// if it is no version, that is the error.
    pub fn is_newer_version(&self, remote_version: &str) -> (r: Result<bool, UpdateError>)
        ensures
            match (
                semver_parse(strip_v(self.current_version@)),
                semver_parse(strip_v(remote_version@)),
            ) {
                (None, _) => r matches Err(UpdateError::CurrentVersion(_)),
                (Some(_), None) => r matches Err(UpdateError::RemoteVersion(_)),
                (Some(current), Some(remote)) => r == Ok::<bool, UpdateError>(
                    version_after(remote, current),
                ),
            },
    {
        let current = strip_version_prefix(self.current_version.as_str());
        let remote = strip_version_prefix(remote_version);
        let current_version = match parse_version(current.as_str()) {
            Ok(version) => version,
            Err(error) => {
                return Err(UpdateError::CurrentVersion(version_error_text(&error)));
            },
        };
        let remote_version = match parse_version(remote.as_str()) {
            Ok(version) => version,
            Err(error) => {
                return Err(UpdateError::RemoteVersion(version_error_text(&error)));
            },
        };
        let tail_after = remote_version.tail_is_after(&current_version);
        Ok(remote_version.is_after(&current_version, tail_after))
    }

    /// The update that a release offers to the running program: none when
    /// the release is not newer.
    pub fn check_for_updates(&self, release: &Release) -> (r: Result<
        Option<RemoteVersionInfo>,
        UpdateError,
    >)
        ensures
            !offers(*release) ==> r matches Err(UpdateError::NoVersionInfo),
            offers(*release) ==> match (
                semver_parse(strip_v(self.current_version@)),
                semver_parse(strip_v(release.tag_name@)),
            ) {
                (None, _) => r matches Err(UpdateError::CurrentVersion(_)),
                (Some(_), None) => r matches Err(UpdateError::RemoteVersion(_)),
                (Some(current), Some(remote)) => if version_after(remote, current) {
                    r matches Ok(Some(info)) && info@ == offered(*release)
                } else {
                    r matches Ok(None)
                },
            },
    {
        let info = match offered_version(release) {
            Ok(info) => info,
            Err(error) => {
                return Err(error);
            },
        };
        let newer = self.is_newer_version(release.tag_name.as_str());
        conclude_check(info, newer)
    }

    /// The message that opens an automatic check, or nothing when the
    /// configuration asks for no check.
    pub fn begin_update_check(&self) -> (r: Option<TuiMessage>)
        ensures
            !self.config.auto_check ==> r is None,
            self.config.auto_check ==> (r matches Some(message) && message@ == MessageView::Log(
                LogLevel::Info,
                "检查更新中..."@,
            )),
    {
        if !self.config.auto_check {
            return None;
        }
        Some(TuiMessage::Log(LogLevel::Info, String::from_str("检查更新中...")))
    }

    /// What the interface shows of a newer release.
    pub fn version_notice(&self, info: &RemoteVersionInfo) -> (notice: VersionInfo)
        ensures
            notice.local@ == self.current_version@,
            notice.remote@ == info.version@,
            notice.needs_update,
    {
        VersionInfo {
            local: self.current_version.clone(),
            remote: info.version.clone(),
            needs_update: true,
        }
    }

    /// What the outcome of a check tells the user, and whether the download
    /// follows: it does for a newer release when the configuration asks for
    /// it.
    pub fn after_check(&self, outcome: &Result<Option<RemoteVersionInfo>, String>) -> (r: (
        Vec<TuiMessage>,
        bool,
    ))
        ensures
            (messages_view(r.0@), r.1) == check_report(
                self.current_version@,
                self.config.auto_download,
                match outcome {
                    Ok(Some(info)) => Some(info.version@),
                    _ => None,
                },
                match outcome {
                    Err(reason) => Some(reason@),
                    Ok(_) => None,
                },
            ),
    {
        let mut messages: Vec<TuiMessage> = Vec::new();
        assert(messages_view(messages@) =~= Seq::<MessageView>::empty());
        match outcome {
            Err(reason) => {
                push_log(
                    &mut messages,
                    LogLevel::Warning,
                    join2("检查更新失败: ", reason.as_str()),
                );
                (messages, false)
            },
            Ok(None) => {
                push_log(&mut messages, LogLevel::Info, String::from_str("当前已是最新版本"));
                (messages, false)
            },
            Ok(Some(info)) => {
                let mut text = String::from_str("发现新版本: ");
                text.append(self.current_version.as_str());
                text.append(" -> ");
                text.append(info.version.as_str());
                push_log(&mut messages, LogLevel::Info, text);
                if self.config.auto_download {
                    push_log(
                        &mut messages,
                        LogLevel::Info,
                        String::from_str("开始自动下载更新..."),
                    );
                    (messages, true)
                } else {
                    (messages, false)
                }
            },
        }
    }

    /// What the outcome of the download tells the user; the installation
    /// follows a download that succeeded. `failure` is the reason of a
    /// failed download.
    pub fn after_download(failure: Option<&str>) -> (r: (TuiMessage, bool))
        ensures
            r.1 == (failure is None),
            r.0@ == match failure {
                None => MessageView::Log(LogLevel::Success, "下载完成，准备安装..."@),
                Some(reason) => MessageView::Log(LogLevel::Error, "下载失败: "@ + reason@),
            },
    {
        match failure {
            None => (
                TuiMessage::Log(LogLevel::Success, String::from_str("下载完成，准备安装...")),
                true,
            ),
            Some(reason) => (TuiMessage::Log(LogLevel::Error, join2("下载失败: ", reason)), false),
        }
    }

    /// What a failed installation tells the user, `reason` being why it
    /// failed.
    pub fn install_failed(reason: &str) -> (message: TuiMessage)
        ensures
            message@ == MessageView::Log(LogLevel::Error, "更新安装失败: "@ + reason@),
    {
        TuiMessage::Log(LogLevel::Error, join2("更新安装失败: ", reason))
    }
}

} // verus!
