//! The pane in which a user changes their own profile.
use vstd::prelude::*;
use crate::collections::Replicate;
use crate::crypto::{base64_encoded, encode_base64};
use crate::text::{lower_text, same_text, to_lower};

verus! {

/// The profile as it is stored.
#[derive(Debug, PartialEq, Eq)]
pub struct MyProfileState {
    pub name: String,
    pub about: String,
    pub picture_url: Option<String>,
}

/// What a [`MyProfileState`] holds.
#[verifier::ext_equal]
pub struct MyProfileStateModel {
    pub name: Seq<char>,
    pub about: Seq<char>,
    pub picture_url: Option<Seq<char>>,
}

impl DeepView for MyProfileState {
    type V = MyProfileStateModel;

    open spec fn deep_view(&self) -> MyProfileStateModel {
        MyProfileStateModel {
            name: self.name.deep_view(),
            about: self.about.deep_view(),
            picture_url: self.picture_url.deep_view(),
        }
    }
}

impl View for MyProfileState {
    type V = MyProfileStateModel;

    open spec fn view(&self) -> MyProfileStateModel {
        self.deep_view()
    }
}

impl Replicate for MyProfileState {
    fn replicate(&self) -> (copy: Self) {
        MyProfileState {
            name: self.name.replicate(),
            about: self.about.replicate(),
            picture_url: self.picture_url.replicate(),
        }
    }
}

impl Clone for MyProfileState {
    fn clone(&self) -> (copy: Self)
        ensures
            copy@ == self@,
    {
        self.replicate()
    }
}

/// A picture that is to be uploaded.
#[derive(Debug, PartialEq, Eq)]
pub struct PendingImage {
    pub image_base64: String,
    pub mime_type: String,
}

/// What a [`PendingImage`] holds.
#[verifier::ext_equal]
pub struct PendingImageModel {
    pub image_base64: Seq<char>,
    pub mime_type: Seq<char>,
}

impl DeepView for PendingImage {
    type V = PendingImageModel;

    open spec fn deep_view(&self) -> PendingImageModel {
        PendingImageModel {
            image_base64: self.image_base64.deep_view(),
            mime_type: self.mime_type.deep_view(),
        }
    }
}

impl View for PendingImage {
    type V = PendingImageModel;

    open spec fn view(&self) -> PendingImageModel {
        self.deep_view()
    }
}

impl Replicate for PendingImage {
    fn replicate(&self) -> (copy: Self) {
        PendingImage {
            image_base64: self.image_base64.replicate(),
            mime_type: self.mime_type.replicate(),
        }
    }
}

impl Clone for PendingImage {
    fn clone(&self) -> (copy: Self)
        ensures
            copy@ == self@,
    {
        self.replicate()
    }
}

/// A picture that the user picked: where it is, the extension of its name, and what
/// it holds.
#[derive(Debug, PartialEq, Eq)]
pub struct PickedImage {
    pub path: String,
    pub extension: String,
    pub data: Vec<u8>,
}

/// What a [`PickedImage`] holds.
#[verifier::ext_equal]
pub struct PickedImageModel {
    pub path: Seq<char>,
    pub extension: Seq<char>,
    pub data: Seq<u8>,
}

impl DeepView for PickedImage {
    type V = PickedImageModel;

    open spec fn deep_view(&self) -> PickedImageModel {
        PickedImageModel {
            path: self.path.deep_view(),
            extension: self.extension.deep_view(),
            data: self.data.deep_view(),
        }
    }
}

impl View for PickedImage {
    type V = PickedImageModel;

    open spec fn view(&self) -> PickedImageModel {
        self.deep_view()
    }
}

impl Replicate for PickedImage {
    fn replicate(&self) -> (copy: Self) {
        PickedImage {
            path: self.path.replicate(),
            extension: self.extension.replicate(),
            data: self.data.replicate(),
        }
    }
}

impl Clone for PickedImage {
    fn clone(&self) -> (copy: Self)
        ensures
            copy@ == self@,
    {
        self.replicate()
    }
}

/// What the user does in the pane.
#[derive(Debug, PartialEq, Eq)]
pub enum Message {
    AboutChanged(String),
    CopyAppVersion,
    CopyNpub,
    LogoutClicked,
    LogoutConfirmed,
    LogoutCancelled,
    NameChanged(String),
    PickProfileImage,
    /// A picture was picked, or none that could be read.
    ProfileImagePicked(Option<PickedImage>),
    Save,
}

/// What a [`Message`] holds.
#[verifier::ext_equal]
pub enum MessageModel {
    AboutChanged(Seq<char>),
    CopyAppVersion,
    CopyNpub,
    LogoutClicked,
    LogoutConfirmed,
    LogoutCancelled,
    NameChanged(Seq<char>),
    PickProfileImage,
    ProfileImagePicked(Option<PickedImageModel>),
    Save,
}

impl DeepView for Message {
    type V = MessageModel;

    open spec fn deep_view(&self) -> MessageModel {
        match self {
            Message::AboutChanged(a) => MessageModel::AboutChanged(a.deep_view()),
            Message::CopyAppVersion => MessageModel::CopyAppVersion,
            Message::CopyNpub => MessageModel::CopyNpub,
            Message::LogoutClicked => MessageModel::LogoutClicked,
            Message::LogoutConfirmed => MessageModel::LogoutConfirmed,
            Message::LogoutCancelled => MessageModel::LogoutCancelled,
            Message::NameChanged(a) => MessageModel::NameChanged(a.deep_view()),
            Message::PickProfileImage => MessageModel::PickProfileImage,
            Message::ProfileImagePicked(a) => MessageModel::ProfileImagePicked(a.deep_view()),
            Message::Save => MessageModel::Save,
        }
    }
}

impl View for Message {
    type V = MessageModel;

    open spec fn view(&self) -> MessageModel {
        self.deep_view()
    }
}

impl Replicate for Message {
    fn replicate(&self) -> (copy: Self) {
        match self {
            Message::AboutChanged(a) => Message::AboutChanged(a.replicate()),
            Message::CopyAppVersion => Message::CopyAppVersion,
            Message::CopyNpub => Message::CopyNpub,
            Message::LogoutClicked => Message::LogoutClicked,
            Message::LogoutConfirmed => Message::LogoutConfirmed,
            Message::LogoutCancelled => Message::LogoutCancelled,
            Message::NameChanged(a) => Message::NameChanged(a.replicate()),
            Message::PickProfileImage => Message::PickProfileImage,
            Message::ProfileImagePicked(a) => Message::ProfileImagePicked(a.replicate()),
            Message::Save => Message::Save,
        }
    }
}

impl Clone for Message {
    fn clone(&self) -> (copy: Self)
        ensures
            copy@ == self@,
    {
        self.replicate()
    }
}

/// What the profile is to become.
#[derive(Debug, PartialEq, Eq)]
pub enum ProfileAction {
    SaveMyProfile { name: String, about: String },
    UploadMyProfileImage { image_base64: String, mime_type: String },
}

/// What a [`ProfileAction`] holds.
#[verifier::ext_equal]
pub enum ProfileActionModel {
    SaveMyProfile { name: Seq<char>, about: Seq<char> },
    UploadMyProfileImage { image_base64: Seq<char>, mime_type: Seq<char> },
}

impl DeepView for ProfileAction {
    type V = ProfileActionModel;

    open spec fn deep_view(&self) -> ProfileActionModel {
        match self {
            ProfileAction::SaveMyProfile { name, about } => ProfileActionModel::SaveMyProfile {
                name: name.deep_view(),
                about: about.deep_view(),
            },
            ProfileAction::UploadMyProfileImage {
                image_base64,
                mime_type,
            } => ProfileActionModel::UploadMyProfileImage {
                image_base64: image_base64.deep_view(),
                mime_type: mime_type.deep_view(),
            },
        }
    }
}

impl View for ProfileAction {
    type V = ProfileActionModel;

    open spec fn view(&self) -> ProfileActionModel {
        self.deep_view()
    }
}

impl Replicate for ProfileAction {
    fn replicate(&self) -> (copy: Self) {
        match self {
            ProfileAction::SaveMyProfile { name, about } => ProfileAction::SaveMyProfile {
                name: name.replicate(),
                about: about.replicate(),
            },
            ProfileAction::UploadMyProfileImage {
                image_base64,
                mime_type,
            } => ProfileAction::UploadMyProfileImage {
                image_base64: image_base64.replicate(),
                mime_type: mime_type.replicate(),
            },
        }
    }
}

impl Clone for ProfileAction {
    fn clone(&self) -> (copy: Self)
        ensures
            copy@ == self@,
    {
        self.replicate()
    }
}

/// What the pane asks for.
#[derive(Debug, PartialEq, Eq)]
pub enum Event {
    AppAction(ProfileAction),
    CopyNpub,
    CopyAppVersion,
    Logout,
}

/// What a [`Event`] holds.
#[verifier::ext_equal]
pub enum EventModel {
    AppAction(ProfileActionModel),
    CopyNpub,
    CopyAppVersion,
    Logout,
}

impl DeepView for Event {
    type V = EventModel;

    open spec fn deep_view(&self) -> EventModel {
        match self {
            Event::AppAction(a) => EventModel::AppAction(a.deep_view()),
            Event::CopyNpub => EventModel::CopyNpub,
            Event::CopyAppVersion => EventModel::CopyAppVersion,
            Event::Logout => EventModel::Logout,
        }
    }
}

impl View for Event {
    type V = EventModel;

    open spec fn view(&self) -> EventModel {
        self.deep_view()
    }
}

impl Replicate for Event {
    fn replicate(&self) -> (copy: Self) {
        match self {
            Event::AppAction(a) => Event::AppAction(a.replicate()),
            Event::CopyNpub => Event::CopyNpub,
            Event::CopyAppVersion => Event::CopyAppVersion,
            Event::Logout => Event::Logout,
        }
    }
}

impl Clone for Event {
    fn clone(&self) -> (copy: Self)
        ensures
            copy@ == self@,
    {
        self.replicate()
    }
}

/// The pane.
#[derive(Debug, PartialEq, Eq)]
pub struct State {
    pub about: String,
    pub name: String,
    pub confirm_logout: bool,
    /// The picture that was picked, for a preview.
    pub pending_picture_path: Option<String>,
    /// The picture that is uploaded when the profile was saved.
    pub pending_image: Option<PendingImage>,
    /// Whether the picture is uploaded once the profile was saved.
    pub upload_after_save: bool,
    /// Whether a picture is on its way.
    pub uploading: bool,
}

/// What a [`State`] holds.
#[verifier::ext_equal]
pub struct StateModel {
    pub about: Seq<char>,
    pub name: Seq<char>,
    pub confirm_logout: bool,
    pub pending_picture_path: Option<Seq<char>>,
    pub pending_image: Option<PendingImageModel>,
    pub upload_after_save: bool,
    pub uploading: bool,
}

impl DeepView for State {
    type V = StateModel;

    open spec fn deep_view(&self) -> StateModel {
        StateModel {
            about: self.about.deep_view(),
            name: self.name.deep_view(),
            confirm_logout: self.confirm_logout.deep_view(),
            pending_picture_path: self.pending_picture_path.deep_view(),
            pending_image: self.pending_image.deep_view(),
            upload_after_save: self.upload_after_save.deep_view(),
            uploading: self.uploading.deep_view(),
        }
    }
}

impl View for State {
    type V = StateModel;

    open spec fn view(&self) -> StateModel {
        self.deep_view()
    }
}

impl Replicate for State {
    fn replicate(&self) -> (copy: Self) {
        State {
            about: self.about.replicate(),
            name: self.name.replicate(),
            confirm_logout: self.confirm_logout.replicate(),
            pending_picture_path: self.pending_picture_path.replicate(),
            pending_image: self.pending_image.replicate(),
            upload_after_save: self.upload_after_save.replicate(),
            uploading: self.uploading.replicate(),
        }
    }
}

impl Clone for State {
    fn clone(&self) -> (copy: Self)
        ensures
            copy@ == self@,
    {
        self.replicate()
    }
}

/// What a message to the pane leads to.
#[derive(Debug, PartialEq, Eq)]
pub struct Response {
    pub event: Option<Event>,
    /// Whether the user is asked for a picture.
    pub pick_image: bool,
}

/// The kind of picture that an extension stands for.
pub open spec fn mime_type_of(extension: Seq<char>) -> Seq<char> {
    let ext = lower_text(extension);
    if ext == "png"@ {
        "image/png"@
    } else if ext == "webp"@ {
        "image/webp"@
    } else if ext == "gif"@ {
        "image/gif"@
    } else {
        "image/jpeg"@
    }
}

/// A picture, made ready for its upload.
pub open spec fn prepared_image(extension: Seq<char>, data: Seq<u8>) -> PendingImageModel {
    PendingImageModel {
        image_base64: base64_encoded(data),
        mime_type: mime_type_of(extension),
    }
}

/// A picture, made ready for its upload.
pub fn prepare_profile_image(extension: &str, data: &Vec<u8>) -> (image: PendingImage)
    requires
        2 * data@.len() <= isize::MAX,
    ensures
        image@ == prepared_image(extension@, data@),
{
    let ext = to_lower(extension);
    let mime_type = if same_text(ext.as_str(), "png") {
        "image/png"
    } else if same_text(ext.as_str(), "webp") {
        "image/webp"
    } else if same_text(ext.as_str(), "gif") {
        "image/gif"
    } else {
        "image/jpeg"
    };
    PendingImage { image_base64: encode_base64(data), mime_type: mime_type.to_owned() }
}

/// The pane for a profile.
pub open spec fn new_pane(profile: MyProfileStateModel) -> StateModel {
    StateModel {
        about: profile.about,
        name: profile.name,
        confirm_logout: false,
        pending_picture_path: None,
        pending_image: None,
        upload_after_save: false,
        uploading: false,
    }
}

/// The pane after a message.
pub open spec fn pane_after(state: StateModel, message: MessageModel) -> StateModel {
    match message {
        MessageModel::AboutChanged(about) => StateModel { about, ..state },
        MessageModel::NameChanged(name) => StateModel { name, ..state },
        MessageModel::LogoutClicked => StateModel { confirm_logout: true, ..state },
        MessageModel::LogoutCancelled => StateModel { confirm_logout: false, ..state },
        MessageModel::ProfileImagePicked(Some(picked)) => StateModel {
            pending_picture_path: Some("file://"@ + picked.path),
            pending_image: Some(prepared_image(picked.extension, picked.data)),
            ..state
        },
        MessageModel::Save => if state.pending_image is Some {
            StateModel { upload_after_save: true, uploading: true, ..state }
        } else {
            state
        },
        _ => state,
    }
}

/// What a message asks for.
pub open spec fn event_of(state: StateModel, message: MessageModel) -> Option<EventModel> {
    match message {
        MessageModel::CopyAppVersion => Some(EventModel::CopyAppVersion),
        MessageModel::CopyNpub => Some(EventModel::CopyNpub),
        MessageModel::LogoutConfirmed => Some(EventModel::Logout),
        MessageModel::Save => Some(
            EventModel::AppAction(
                ProfileActionModel::SaveMyProfile { name: state.name, about: state.about },
            ),
        ),
        _ => None,
    }
}

/// The upload that is due once the profile was saved, where one is.
pub open spec fn deferred_upload(state: StateModel) -> Option<ProfileActionModel> {
    match state.pending_image {
        Some(image) if state.upload_after_save => Some(
            ProfileActionModel::UploadMyProfileImage {
                image_base64: image.image_base64,
                mime_type: image.mime_type,
            },
        ),
        _ => None,
    }
}

/// The pane after the upload that was due was taken.
pub open spec fn after_upload(state: StateModel) -> StateModel {
    if state.upload_after_save {
        StateModel { upload_after_save: false, pending_image: None, ..state }
    } else {
        state
    }
}

/// The pane after the profile changed.
pub open spec fn pane_synced(state: StateModel, profile: MyProfileStateModel) -> StateModel {
    let shown = StateModel { name: profile.name, about: profile.about, ..state };
    if profile.picture_url is Some && state.pending_image is None {
        StateModel { pending_picture_path: None, uploading: false, ..shown }
    } else {
        shown
    }
}

/// What the pane shows, and what can be done in it.
#[derive(Debug, PartialEq, Eq)]
pub struct ProfileView {
    pub display_name: String,
    pub picture: Option<String>,
    pub avatar_label: String,
    /// Whether another picture can be picked.
    pub can_pick: bool,
    pub name: String,
    pub about: String,
    /// Whether the profile can be saved.
    pub can_save: bool,
    pub npub: String,
    pub version: String,
    /// Whether the user is asked to confirm that they log out.
    pub confirm_logout: bool,
}

/// What a [`ProfileView`] holds.
#[verifier::ext_equal]
pub struct ProfileViewModel {
    pub display_name: Seq<char>,
    pub picture: Option<Seq<char>>,
    pub avatar_label: Seq<char>,
    pub can_pick: bool,
    pub name: Seq<char>,
    pub about: Seq<char>,
    pub can_save: bool,
    pub npub: Seq<char>,
    pub version: Seq<char>,
    pub confirm_logout: bool,
}

impl DeepView for ProfileView {
    type V = ProfileViewModel;

    open spec fn deep_view(&self) -> ProfileViewModel {
        ProfileViewModel {
            display_name: self.display_name.deep_view(),
            picture: self.picture.deep_view(),
            avatar_label: self.avatar_label.deep_view(),
            can_pick: self.can_pick.deep_view(),
            name: self.name.deep_view(),
            about: self.about.deep_view(),
            can_save: self.can_save.deep_view(),
            npub: self.npub.deep_view(),
            version: self.version.deep_view(),
            confirm_logout: self.confirm_logout.deep_view(),
        }
    }
}

impl View for ProfileView {
    type V = ProfileViewModel;

    open spec fn view(&self) -> ProfileViewModel {
        self.deep_view()
    }
}

impl Replicate for ProfileView {
    fn replicate(&self) -> (copy: Self) {
        ProfileView {
            display_name: self.display_name.replicate(),
            picture: self.picture.replicate(),
            avatar_label: self.avatar_label.replicate(),
            can_pick: self.can_pick.replicate(),
            name: self.name.replicate(),
            about: self.about.replicate(),
            can_save: self.can_save.replicate(),
            npub: self.npub.replicate(),
            version: self.version.replicate(),
            confirm_logout: self.confirm_logout.replicate(),
        }
    }
}

impl Clone for ProfileView {
    fn clone(&self) -> (copy: Self)
        ensures
            copy@ == self@,
    {
        self.replicate()
    }
}

/// The name that is shown: one that is empty is replaced.
pub open spec fn shown_name(state: StateModel) -> Seq<char> {
    if state.name.len() == 0 {
        "Me"@
    } else {
        state.name
    }
}

/// The picture that is shown: one that was picked comes before the stored one.
pub open spec fn shown_picture(state: StateModel, picture_url: Option<Seq<char>>) -> Option<Seq<char>> {
    if state.pending_picture_path is Some {
        state.pending_picture_path
    } else {
        picture_url
    }
}

/// What the pane shows: while a picture is on its way, no other can be picked and
/// nothing can be saved.
pub open spec fn pane_view(
    state: StateModel,
    npub: Seq<char>,
    app_version: Seq<char>,
    picture_url: Option<Seq<char>>,
) -> ProfileViewModel {
    ProfileViewModel {
        display_name: shown_name(state),
        picture: shown_picture(state, picture_url),
        avatar_label: if state.uploading {
            "Uploading\u{2026}"@
        } else {
            "Change photo"@
        },
        can_pick: !state.uploading,
        name: state.name,
        about: state.about,
        can_save: !state.uploading,
        npub,
        version: "Version "@ + app_version,
        confirm_logout: state.confirm_logout,
    }
}

/// Whether a message can be handled: a picture that comes with it can be written
/// in base64 within memory.
pub open spec fn message_fits(message: MessageModel) -> bool {
    message matches MessageModel::ProfileImagePicked(Some(picked)) ==> 2 * picked.data.len()
        <= isize::MAX
}

impl State {
    /// The pane for a profile.
    pub fn new(my_profile_state: &MyProfileState) -> (state: State)
        ensures
            state@ == new_pane(my_profile_state@),
    {
        State {
            about: my_profile_state.about.clone(),
            name: my_profile_state.name.clone(),
            confirm_logout: false,
            pending_picture_path: None,
            pending_image: None,
            upload_after_save: false,
            uploading: false,
        }
    }

    /// Does what the user does.
    pub fn update(&mut self, message: Message) -> (response: Response)
        requires
            message_fits(message@),
        ensures
            final(self)@ == pane_after(old(self)@, message@),
            response.event.deep_view() == event_of(old(self)@, message@),
            response.pick_image == (message@ is PickProfileImage),
    {
        let mut event: Option<Event> = None;
        let mut pick_image = false;
        match message {
            Message::AboutChanged(about) => {
                self.about = about;
            },
            Message::CopyAppVersion => {
                event = Some(Event::CopyAppVersion);
            },
            Message::CopyNpub => {
                event = Some(Event::CopyNpub);
            },
            Message::LogoutClicked => {
                self.confirm_logout = true;
            },
            Message::LogoutConfirmed => {
                event = Some(Event::Logout);
            },
            Message::LogoutCancelled => {
                self.confirm_logout = false;
            },
            Message::NameChanged(name) => {
                self.name = name;
            },
            Message::PickProfileImage => {
                pick_image = true;
            },
            Message::ProfileImagePicked(picked) => {
                if let Some(picked) = picked {
                    proof {
                        assert(picked.data.deep_view() =~= picked.data@);
                    }
                    let image = prepare_profile_image(picked.extension.as_str(), &picked.data);
                    self.pending_picture_path = Some(
                        "file://".to_owned().concat(picked.path.as_str()),
                    );
                    self.pending_image = Some(image);
                }
            },
            Message::Save => {
                if self.pending_image.is_some() {
                    self.upload_after_save = true;
                    self.uploading = true;
                }
                event = Some(
                    Event::AppAction(
                        ProfileAction::SaveMyProfile {
                            name: self.name.clone(),
                            about: self.about.clone(),
                        },
                    ),
                );
            },
        }
        Response { event, pick_image }
    }

    /// Takes the upload that is due once the profile was saved, where one is.
    pub fn take_deferred_upload(&mut self) -> (action: Option<ProfileAction>)
        ensures
            action.deep_view() == deferred_upload(old(self)@),
            final(self)@ == after_upload(old(self)@),
    {
        if !self.upload_after_save {
            return None;
        }
        self.upload_after_save = false;
        let taken = match &self.pending_image {
            Some(image) => Some(
                ProfileAction::UploadMyProfileImage {
                    image_base64: image.image_base64.clone(),
                    mime_type: image.mime_type.clone(),
                },
            ),
            None => None,
        };
        self.pending_image = None;
        taken
    }

    /// Takes over the profile as it now is.
    pub fn sync_profile(&mut self, profile: &MyProfileState)
        ensures
            final(self)@ == pane_synced(old(self)@, profile@),
    {
        self.name = profile.name.clone();
        self.about = profile.about.clone();
        if profile.picture_url.is_some() && self.pending_image.is_none() {
            self.pending_picture_path = None;
            self.uploading = false;
        }
    }

    /// The name that is shown.
    pub fn display_name(&self) -> (name: String)
        ensures
            name@ == shown_name(self@),
    {
        if self.name.as_str().is_empty() {
            "Me".to_owned()
        } else {
            self.name.clone()
        }
    }

    /// The picture that is shown.
    pub fn effective_picture(&self, picture_url: &Option<String>) -> (picture: Option<String>)
        ensures
            picture.deep_view() == shown_picture(self@, picture_url.deep_view()),
    {
        if self.pending_picture_path.is_some() {
            self.pending_picture_path.replicate()
        } else {
            picture_url.replicate()
        }
    }

    /// What the pane shows.
    pub fn view_pane(&self, npub: &str, app_version: &str, picture_url: &Option<String>) -> (shown:
        ProfileView)
        ensures
            shown@ == pane_view(self@, npub@, app_version@, picture_url.deep_view()),
    {
        let avatar_label = if self.uploading {
            "Uploading\u{2026}"
        } else {
            "Change photo"
        };
        ProfileView {
            display_name: self.display_name(),
            picture: self.effective_picture(picture_url),
            avatar_label: avatar_label.to_owned(),
            can_pick: !self.uploading,
            name: self.name.clone(),
            about: self.about.clone(),
            can_save: !self.uploading,
            npub: npub.to_owned(),
            version: "Version ".to_owned().concat(app_version),
            confirm_logout: self.confirm_logout,
        }
    }
}

/// A picture that was picked is uploaded once after the profile was saved, and not
/// again.
pub proof fn picked_picture_is_uploaded_once(
    state: StateModel,
    picked: PickedImageModel,
)
    ensures
        ({
            let chosen = pane_after(state, MessageModel::ProfileImagePicked(Some(picked)));
            let saved = pane_after(chosen, MessageModel::Save);
            let image = prepared_image(picked.extension, picked.data);
            &&& saved.uploading
            &&& deferred_upload(saved) == Some(
                ProfileActionModel::UploadMyProfileImage {
                    image_base64: image.image_base64,
                    mime_type: image.mime_type,
                },
            )
            &&& deferred_upload(after_upload(saved)) is None
        }),
{
}

/// Without a picture that was picked nothing is uploaded.
pub proof fn saving_without_picture_uploads_nothing(state: StateModel)
    requires
        state.pending_image is None,
    ensures
        deferred_upload(pane_after(state, MessageModel::Save)) is None,
        pane_after(state, MessageModel::Save) == state,
{
}

} // verus!
