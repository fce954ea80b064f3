//! The root of a workspace, and its settings.
use vstd::prelude::*;
use crate::collections::Replicate;

verus! {

/// What went wrong: for the user to mend, or in running.
#[derive(Debug, PartialEq, Eq)]
pub enum CliError {
    User(String),
    Operational(String),
}

/// What a [`CliError`] holds.
#[verifier::ext_equal]
pub enum CliErrorModel {
    User(Seq<char>),
    Operational(Seq<char>),
}

impl DeepView for CliError {
    type V = CliErrorModel;

    open spec fn deep_view(&self) -> CliErrorModel {
        match self {
            CliError::User(a) => CliErrorModel::User(a.deep_view()),
            CliError::Operational(a) => CliErrorModel::Operational(a.deep_view()),
        }
    }
}

impl View for CliError {
    type V = CliErrorModel;

    open spec fn view(&self) -> CliErrorModel {
        self.deep_view()
    }
}

impl Replicate for CliError {
    fn replicate(&self) -> (copy: Self) {
        match self {
            CliError::User(a) => CliError::User(a.replicate()),
            CliError::Operational(a) => CliError::Operational(a.replicate()),
        }
    }
}

impl Clone for CliError {
    fn clone(&self) -> (copy: Self)
        ensures
            copy@ == self@,
    {
        self.replicate()
    }
}

/// A directory, and whether the settings of a workspace are in it.
#[derive(Debug, PartialEq, Eq)]
pub struct Directory {
    pub path: String,
    pub has_manifest: bool,
}

/// What a [`Directory`] holds.
#[verifier::ext_equal]
pub struct DirectoryModel {
    pub path: Seq<char>,
    pub has_manifest: bool,
}

impl DeepView for Directory {
    type V = DirectoryModel;

    open spec fn deep_view(&self) -> DirectoryModel {
        DirectoryModel {
            path: self.path.deep_view(),
            has_manifest: self.has_manifest.deep_view(),
        }
    }
}

impl View for Directory {
    type V = DirectoryModel;

    open spec fn view(&self) -> DirectoryModel {
        self.deep_view()
    }
}

impl Replicate for Directory {
    fn replicate(&self) -> (copy: Self) {
        Directory {
            path: self.path.replicate(),
            has_manifest: self.has_manifest.replicate(),
        }
    }
}

impl Clone for Directory {
    fn clone(&self) -> (copy: Self)
        ensures
            copy@ == self@,
    {
        self.replicate()
    }
}

/// A directory that was asked for: as it was asked for, and as it was found, or why
/// it was not.
#[derive(Debug, PartialEq, Eq)]
pub struct RequestedRoot {
    pub candidate: String,
    pub found: FoundDirectory,
}

/// What a [`RequestedRoot`] holds.
#[verifier::ext_equal]
pub struct RequestedRootModel {
    pub candidate: Seq<char>,
    pub found: FoundDirectoryModel,
}

impl DeepView for RequestedRoot {
    type V = RequestedRootModel;

    open spec fn deep_view(&self) -> RequestedRootModel {
        RequestedRootModel {
            candidate: self.candidate.deep_view(),
            found: self.found.deep_view(),
        }
    }
}

impl View for RequestedRoot {
    type V = RequestedRootModel;

    open spec fn view(&self) -> RequestedRootModel {
        self.deep_view()
    }
}

impl Replicate for RequestedRoot {
    fn replicate(&self) -> (copy: Self) {
        RequestedRoot {
            candidate: self.candidate.replicate(),
            found: self.found.replicate(),
        }
    }
}

impl Clone for RequestedRoot {
    fn clone(&self) -> (copy: Self)
        ensures
            copy@ == self@,
    {
        self.replicate()
    }
}

/// A directory that was looked for.
#[derive(Debug, PartialEq, Eq)]
pub enum FoundDirectory {
    Found(Directory),
    Missing(String),
}

/// What a [`FoundDirectory`] holds.
#[verifier::ext_equal]
pub enum FoundDirectoryModel {
    Found(DirectoryModel),
    Missing(Seq<char>),
}

impl DeepView for FoundDirectory {
    type V = FoundDirectoryModel;

    open spec fn deep_view(&self) -> FoundDirectoryModel {
        match self {
            FoundDirectory::Found(a) => FoundDirectoryModel::Found(a.deep_view()),
            FoundDirectory::Missing(a) => FoundDirectoryModel::Missing(a.deep_view()),
        }
    }
}

impl View for FoundDirectory {
    type V = FoundDirectoryModel;

    open spec fn view(&self) -> FoundDirectoryModel {
        self.deep_view()
    }
}

impl Replicate for FoundDirectory {
    fn replicate(&self) -> (copy: Self) {
        match self {
            FoundDirectory::Found(a) => FoundDirectory::Found(a.replicate()),
            FoundDirectory::Missing(a) => FoundDirectory::Missing(a.replicate()),
        }
    }
}

impl Clone for FoundDirectory {
    fn clone(&self) -> (copy: Self)
        ensures
            copy@ == self@,
    {
        self.replicate()
    }
}

/// Whose the workspace is.
#[derive(Debug, PartialEq, Eq)]
pub struct RmpProject {
    pub name: String,
    pub org: String,
}

/// What a [`RmpProject`] holds.
#[verifier::ext_equal]
pub struct RmpProjectModel {
    pub name: Seq<char>,
    pub org: Seq<char>,
}

impl DeepView for RmpProject {
    type V = RmpProjectModel;

    open spec fn deep_view(&self) -> RmpProjectModel {
        RmpProjectModel {
            name: self.name.deep_view(),
            org: self.org.deep_view(),
        }
    }
}

impl View for RmpProject {
    type V = RmpProjectModel;

    open spec fn view(&self) -> RmpProjectModel {
        self.deep_view()
    }
}

impl Replicate for RmpProject {
    fn replicate(&self) -> (copy: Self) {
        RmpProject {
            name: self.name.replicate(),
            org: self.org.replicate(),
        }
    }
}

impl Clone for RmpProject {
    fn clone(&self) -> (copy: Self)
        ensures
            copy@ == self@,
    {
        self.replicate()
    }
}

/// The crate that the apps share.
#[derive(Debug, PartialEq, Eq)]
pub struct RmpCore {
    pub crate_: String,
    pub bindings: String,
}

/// What a [`RmpCore`] holds.
#[verifier::ext_equal]
pub struct RmpCoreModel {
    pub crate_: Seq<char>,
    pub bindings: Seq<char>,
}

impl DeepView for RmpCore {
    type V = RmpCoreModel;

    open spec fn deep_view(&self) -> RmpCoreModel {
        RmpCoreModel {
            crate_: self.crate_.deep_view(),
            bindings: self.bindings.deep_view(),
        }
    }
}

impl View for RmpCore {
    type V = RmpCoreModel;

    open spec fn view(&self) -> RmpCoreModel {
        self.deep_view()
    }
}

impl Replicate for RmpCore {
    fn replicate(&self) -> (copy: Self) {
        RmpCore {
            crate_: self.crate_.replicate(),
            bindings: self.bindings.replicate(),
        }
    }
}

impl Clone for RmpCore {
    fn clone(&self) -> (copy: Self)
        ensures
            copy@ == self@,
    {
        self.replicate()
    }
}

/// The app for iOS.
#[derive(Debug, PartialEq, Eq)]
pub struct RmpIos {
    pub bundle_id: String,
    pub scheme: Option<String>,
}

/// What a [`RmpIos`] holds.
#[verifier::ext_equal]
pub struct RmpIosModel {
    pub bundle_id: Seq<char>,
    pub scheme: Option<Seq<char>>,
}

impl DeepView for RmpIos {
    type V = RmpIosModel;

    open spec fn deep_view(&self) -> RmpIosModel {
        RmpIosModel {
            bundle_id: self.bundle_id.deep_view(),
            scheme: self.scheme.deep_view(),
        }
    }
}

impl View for RmpIos {
    type V = RmpIosModel;

    open spec fn view(&self) -> RmpIosModel {
        self.deep_view()
    }
}

impl Replicate for RmpIos {
    fn replicate(&self) -> (copy: Self) {
        RmpIos {
            bundle_id: self.bundle_id.replicate(),
            scheme: self.scheme.replicate(),
        }
    }
}

impl Clone for RmpIos {
    fn clone(&self) -> (copy: Self)
        ensures
            copy@ == self@,
    {
        self.replicate()
    }
}

/// The app for Android.
#[derive(Debug, PartialEq, Eq)]
pub struct RmpAndroid {
    pub app_id: String,
    pub avd_name: Option<String>,
}

/// What a [`RmpAndroid`] holds.
#[verifier::ext_equal]
pub struct RmpAndroidModel {
    pub app_id: Seq<char>,
    pub avd_name: Option<Seq<char>>,
}

impl DeepView for RmpAndroid {
    type V = RmpAndroidModel;

    open spec fn deep_view(&self) -> RmpAndroidModel {
        RmpAndroidModel {
            app_id: self.app_id.deep_view(),
            avd_name: self.avd_name.deep_view(),
        }
    }
}

impl View for RmpAndroid {
    type V = RmpAndroidModel;

    open spec fn view(&self) -> RmpAndroidModel {
        self.deep_view()
    }
}

impl Replicate for RmpAndroid {
    fn replicate(&self) -> (copy: Self) {
        RmpAndroid {
            app_id: self.app_id.replicate(),
            avd_name: self.avd_name.replicate(),
        }
    }
}

impl Clone for RmpAndroid {
    fn clone(&self) -> (copy: Self)
        ensures
            copy@ == self@,
    {
        self.replicate()
    }
}

/// The settings of a workspace.
#[derive(Debug, PartialEq, Eq)]
pub struct RmpToml {
    pub project: RmpProject,
    pub core: RmpCore,
    pub ios: Option<RmpIos>,
    pub android: Option<RmpAndroid>,
}

/// What a [`RmpToml`] holds.
#[verifier::ext_equal]
pub struct RmpTomlModel {
    pub project: RmpProjectModel,
    pub core: RmpCoreModel,
    pub ios: Option<RmpIosModel>,
    pub android: Option<RmpAndroidModel>,
}

impl DeepView for RmpToml {
    type V = RmpTomlModel;

    open spec fn deep_view(&self) -> RmpTomlModel {
        RmpTomlModel {
            project: self.project.deep_view(),
            core: self.core.deep_view(),
            ios: self.ios.deep_view(),
            android: self.android.deep_view(),
        }
    }
}

impl View for RmpToml {
    type V = RmpTomlModel;

    open spec fn view(&self) -> RmpTomlModel {
        self.deep_view()
    }
}

impl Replicate for RmpToml {
    fn replicate(&self) -> (copy: Self) {
        RmpToml {
            project: self.project.replicate(),
            core: self.core.replicate(),
            ios: self.ios.replicate(),
            android: self.android.replicate(),
        }
    }
}

impl Clone for RmpToml {
    fn clone(&self) -> (copy: Self)
        ensures
            copy@ == self@,
    {
        self.replicate()
    }
}

/// The first directory that has the settings of a workspace in it.
pub open spec fn first_root(directories: Seq<DirectoryModel>) -> Option<Seq<char>>
    decreases directories.len(),
{
    if directories.len() == 0 {
        None
    } else if directories[0].has_manifest {
        Some(directories[0].path)
    } else {
        first_root(directories.skip(1))
    }
}

/// The root of the workspace, where a search begins in the first of the
/// directories and goes on to the others; or why there could be no search.
pub open spec fn found_root(directories: Result<Seq<DirectoryModel>, Seq<char>>) -> Result<
    Seq<char>,
    CliErrorModel,
> {
    match directories {
        Err(error) => Err(CliErrorModel::Operational("failed to resolve cwd: "@ + error)),
        Ok(directories) => match first_root(directories) {
            Some(path) => Ok(path),
            None => Err(
                CliErrorModel::User(
                    "could not find rmp.toml (searches current dir and parents)"@,
                ),
            ),
        },
    }
}

/// The root of the workspace: the directory that was asked for, or the one that a
/// search finds.
pub open spec fn resolved_root(
    requested: Option<RequestedRootModel>,
    directories: Result<Seq<DirectoryModel>, Seq<char>>,
) -> Result<Seq<char>, CliErrorModel> {
    match requested {
        None => found_root(directories),
        Some(root) => match root.found {
            FoundDirectoryModel::Missing(error) => Err(
                CliErrorModel::User(
                    "failed to resolve --root path '"@ + root.candidate + "': "@ + error,
                ),
            ),
            FoundDirectoryModel::Found(directory) => if directory.has_manifest {
                Ok(directory.path)
            } else {
                Err(
                    CliErrorModel::User(
                        "--root '"@ + directory.path + "' does not contain rmp.toml"@,
                    ),
                )
            },
        },
    }
}

/// A result of looking for a root, as a model.
pub open spec fn root_model(result: Result<String, CliError>) -> Result<Seq<char>, CliErrorModel> {
    match result {
        Ok(path) => Ok(path@),
        Err(error) => Err(error@),
    }
}

/// Directories, or why there are none, as a model.
pub open spec fn directories_model(directories: Result<Vec<Directory>, String>) -> Result<
    Seq<DirectoryModel>,
    Seq<char>,
> {
    match directories {
        Ok(all) => Ok(all.deep_view()),
        Err(error) => Err(error@),
    }
}

/// The root of the workspace that a search finds.
pub fn find_workspace_root(directories: Result<Vec<Directory>, String>) -> (result: Result<
    String,
    CliError,
>)
    ensures
        root_model(result) == found_root(directories_model(directories)),
{
    let listed = match directories {
        Ok(listed) => listed,
        Err(error) => {
            return Err(
                CliError::Operational("failed to resolve cwd: ".to_owned().concat(error.as_str())),
            );
        },
    };
    let ghost all = listed.deep_view();
    let mut i: usize = 0;
    proof {
        assert(all.skip(0) =~= all);
    }
    while i < listed.len()
        invariant
            i <= listed.len() == all.len(),
            all == listed.deep_view(),
            directories_model(directories) == Ok::<Seq<DirectoryModel>, Seq<char>>(all),
            first_root(all) == first_root(all.skip(i as int)),
        decreases listed.len() - i,
    {
        proof {
            assert(all.skip(i as int)[0] == listed[i as int]@);
            assert(all.skip(i as int).skip(1) =~= all.skip(i + 1));
        }
        if listed[i].has_manifest {
            return Ok(listed[i].path.clone());
        }
        i += 1;
    }
    Err(
        CliError::User("could not find rmp.toml (searches current dir and parents)".to_owned()),
    )
}

/// The root of the workspace.
pub fn resolve_workspace_root(
    requested: Option<RequestedRoot>,
    directories: Result<Vec<Directory>, String>,
) -> (result: Result<String, CliError>)
    ensures
        root_model(result) == resolved_root(
            requested.deep_view(),
            directories_model(directories),
        ),
{
    let root = match requested {
        Some(root) => root,
        None => {
            return find_workspace_root(directories);
        },
    };
    match root.found {
        FoundDirectory::Missing(error) => Err(
            CliError::User(
                "failed to resolve --root path '".to_owned().concat(
                    root.candidate.as_str(),
                ).concat("': ").concat(error.as_str()),
            ),
        ),
        FoundDirectory::Found(directory) => {
            if directory.has_manifest {
                Ok(directory.path)
            } else {
                Err(
                    CliError::User(
                        "--root '".to_owned().concat(directory.path.as_str()).concat(
                            "' does not contain rmp.toml",
                        ),
                    ),
                )
            }
        },
    }
}

/// The settings of a workspace, where they could be read and make sense.
pub fn load_rmp_toml(read: Result<Result<RmpToml, String>, String>) -> (result: Result<
    RmpToml,
    CliError,
>)
    ensures
        match (read, result) {
            (Err(error), Err(e)) => e@ == CliErrorModel::Operational(
                "failed to read rmp.toml: "@ + error@,
            ),
            (Ok(Err(error)), Err(e)) => e@ == CliErrorModel::User(
                "failed to parse rmp.toml: "@ + error@,
            ),
            (Ok(Ok(settings)), Ok(r)) => r@ == settings@,
            _ => false,
        },
{
    match read {
        Err(error) => Err(
            CliError::Operational("failed to read rmp.toml: ".to_owned().concat(error.as_str())),
        ),
        Ok(Err(error)) => Err(
            CliError::User("failed to parse rmp.toml: ".to_owned().concat(error.as_str())),
        ),
        Ok(Ok(settings)) => Ok(settings),
    }
}

/// The root that a search finds has the settings in it, and no directory that was
/// searched before it has.
pub proof fn nearest_root_is_found(directories: Seq<DirectoryModel>)
    requires
        first_root(directories) is Some,
    ensures
        exists|i: int|
            0 <= i < directories.len() && (#[trigger] directories[i]).has_manifest
                && directories[i].path == first_root(directories)->0 && forall|j: int|
                0 <= j < i ==> !(#[trigger] directories[j]).has_manifest,
    decreases directories.len(),
{
    if directories[0].has_manifest {
    } else {
        let rest = directories.skip(1);
        nearest_root_is_found(rest);
        let i = choose|i: int|
            0 <= i < rest.len() && (#[trigger] rest[i]).has_manifest && rest[i].path == first_root(
                rest,
            )->0 && forall|j: int| 0 <= j < i ==> !(#[trigger] rest[j]).has_manifest;
        assert(directories[i + 1] == rest[i]);
        assert forall|j: int| 0 <= j < i + 1 implies !(#[trigger] directories[j]).has_manifest by {
            if j > 0 {
                assert(rest[j - 1] == directories[j]);
            }
        }
    }
}

} // verus!
