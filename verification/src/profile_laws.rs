//! What the profile pane does with what happens to it.
use vstd::prelude::*;
use crate::crypto::base64_encoded;
use crate::profile::{
    after_upload, deferred_upload, event_of, mime_type_of, new_pane, pane_after, pane_synced,
    pane_view, EventModel, MessageModel, MyProfileStateModel, PickedImageModel, ProfileActionModel,
    StateModel,
};
use crate::text::lower_text;

verus! {

/// Whether two panes agree in what is about pictures.
pub open spec fn same_picture(a: StateModel, b: StateModel) -> bool {
    &&& a.pending_picture_path == b.pending_picture_path
    &&& a.pending_image == b.pending_image
    &&& a.upload_after_save == b.upload_after_save
    &&& a.uploading == b.uploading
}

/// A pane begins with the profile as it is, and with nothing pending.
pub proof fn pane_begins_with_the_profile(profile: MyProfileStateModel)
    ensures
        new_pane(profile).name == profile.name,
        new_pane(profile).about == profile.about,
        !new_pane(profile).confirm_logout,
        new_pane(profile).pending_picture_path is None,
        new_pane(profile).pending_image is None,
        !new_pane(profile).upload_after_save,
        !new_pane(profile).uploading,
{
}

/// A message changes what it is about and nothing else: the name, the text about
/// oneself, or whether logging out is to be confirmed.
pub proof fn messages_change_their_own(state: StateModel, text: Seq<char>)
    ensures
        ({
            let named = pane_after(state, MessageModel::NameChanged(text));
            let about = pane_after(state, MessageModel::AboutChanged(text));
            let clicked = pane_after(state, MessageModel::LogoutClicked);
            let cancelled = pane_after(state, MessageModel::LogoutCancelled);
            &&& named.name == text && named.about == state.about && named.confirm_logout
                == state.confirm_logout && same_picture(named, state)
            &&& about.about == text && about.name == state.name && about.confirm_logout
                == state.confirm_logout && same_picture(about, state)
            &&& clicked.confirm_logout && clicked.name == state.name && clicked.about
                == state.about && same_picture(clicked, state)
            &&& !cancelled.confirm_logout && cancelled.name == state.name && cancelled.about
                == state.about && same_picture(cancelled, state)
            &&& pane_after(state, MessageModel::CopyAppVersion) == state
            &&& pane_after(state, MessageModel::CopyNpub) == state
            &&& pane_after(state, MessageModel::LogoutConfirmed) == state
            &&& pane_after(state, MessageModel::PickProfileImage) == state
            &&& pane_after(state, MessageModel::ProfileImagePicked(None)) == state
        }),
{
}

/// A picture that was picked is shown from its file, and kept for upload in base64 with
/// its type; nothing is uploaded yet.
pub proof fn picked_picture_is_kept(state: StateModel, picked: PickedImageModel)
    ensures
        ({
            let after = pane_after(state, MessageModel::ProfileImagePicked(Some(picked)));
            &&& after.pending_picture_path == Some("file://"@ + picked.path)
            &&& after.pending_image is Some
            &&& after.pending_image->0.image_base64 == base64_encoded(picked.data)
            &&& after.pending_image->0.mime_type == mime_type_of(picked.extension)
            &&& after.upload_after_save == state.upload_after_save
            &&& after.uploading == state.uploading
            &&& after.name == state.name
            &&& after.about == state.about
            &&& after.confirm_logout == state.confirm_logout
        }),
{
}

/// The type of a picture goes by its extension, in small or large letters; what is not
/// known is taken for JPEG.
pub proof fn pictures_have_types(extension: Seq<char>)
    ensures
        lower_text(extension) == "png"@ ==> mime_type_of(extension) == "image/png"@,
        lower_text(extension) == "webp"@ ==> mime_type_of(extension) == "image/webp"@,
        lower_text(extension) == "gif"@ ==> mime_type_of(extension) == "image/gif"@,
        lower_text(extension) == "jpg"@ || lower_text(extension) == "jpeg"@ ==> mime_type_of(
            extension,
        ) == "image/jpeg"@,
        lower_text(extension) != "png"@ && lower_text(extension) != "webp"@ && lower_text(extension)
            != "gif"@ ==> mime_type_of(extension) == "image/jpeg"@,
{
    reveal_strlit("png");
    reveal_strlit("webp");
    reveal_strlit("gif");
    reveal_strlit("jpg");
    reveal_strlit("jpeg");
    assert("png"@.len() == 3 && "gif"@.len() == 3 && "jpg"@.len() == 3);
    assert("webp"@.len() == 4 && "jpeg"@.len() == 4);
    assert("png"@[0] == 'p' && "gif"@[0] == 'g' && "jpg"@[0] == 'j');
    assert("webp"@[0] == 'w' && "jpeg"@[0] == 'j');
}

/// Saving sends the name and the text as they stand, and, where a picture is kept, has it
/// uploaded after; the other messages that leave the pane say what they say.
pub proof fn saving_sends_what_stands(state: StateModel, message: MessageModel)
    ensures
        event_of(state, MessageModel::Save) == Some(
            EventModel::AppAction(
                ProfileActionModel::SaveMyProfile { name: state.name, about: state.about },
            ),
        ),
        ({
            let after = pane_after(state, MessageModel::Save);
            &&& state.pending_image is None ==> after == state
            &&& state.pending_image is Some ==> after.upload_after_save && after.uploading
                && after.pending_image == state.pending_image && after.pending_picture_path
                == state.pending_picture_path && after.name == state.name && after.about
                == state.about && after.confirm_logout == state.confirm_logout
        }),
        event_of(state, MessageModel::CopyNpub) == Some(EventModel::CopyNpub),
        event_of(state, MessageModel::CopyAppVersion) == Some(EventModel::CopyAppVersion),
        event_of(state, MessageModel::LogoutConfirmed) == Some(EventModel::Logout),
        !(message is Save) && !(message is CopyNpub) && !(message is CopyAppVersion) && !(
        message is LogoutConfirmed) ==> event_of(state, message) is None,
{
}

/// A picture is uploaded once, after it was saved, and forgotten with that.
pub proof fn upload_follows_saving(state: StateModel)
    ensures
        deferred_upload(state) is Some <==> state.upload_after_save && state.pending_image is Some,
        deferred_upload(state) is Some ==> deferred_upload(state)->0 == (
        ProfileActionModel::UploadMyProfileImage {
            image_base64: state.pending_image->0.image_base64,
            mime_type: state.pending_image->0.mime_type,
        }),
        !state.upload_after_save ==> after_upload(state) == state,
        ({
            let after = after_upload(state);
            &&& !after.upload_after_save
            &&& state.upload_after_save ==> after.pending_image is None
            &&& after.uploading == state.uploading
            &&& after.pending_picture_path == state.pending_picture_path
            &&& after.name == state.name
            &&& after.about == state.about
            &&& after.confirm_logout == state.confirm_logout
        }),
{
}

/// A profile that comes in replaces what was typed; where it has a picture and none is
/// kept for upload, the picture that was pending is done with.
pub proof fn profile_that_comes_in_replaces(state: StateModel, profile: MyProfileStateModel)
    ensures
        ({
            let after = pane_synced(state, profile);
            let done = profile.picture_url is Some && state.pending_image is None;
            &&& after.name == profile.name
            &&& after.about == profile.about
            &&& after.confirm_logout == state.confirm_logout
            &&& after.pending_image == state.pending_image
            &&& after.upload_after_save == state.upload_after_save
            &&& done ==> after.pending_picture_path is None && !after.uploading
            &&& !done ==> after.pending_picture_path == state.pending_picture_path
                && after.uploading == state.uploading
        }),
{
}

/// The pane shows the name, or "Me", the picture that is pending before that of the
/// profile, and lets nothing be picked or saved while a picture is uploaded.
pub proof fn pane_shows_its_state(
    state: StateModel,
    npub: Seq<char>,
    version: Seq<char>,
    picture_url: Option<Seq<char>>,
)
    ensures
        ({
            let shown = pane_view(state, npub, version, picture_url);
            &&& state.name.len() > 0 ==> shown.display_name == state.name
            &&& state.name.len() == 0 ==> shown.display_name == "Me"@
            &&& state.pending_picture_path is Some ==> shown.picture == state.pending_picture_path
            &&& state.pending_picture_path is None ==> shown.picture == picture_url
            &&& state.uploading ==> shown.avatar_label == "Uploading\u{2026}"@ && !shown.can_pick
                && !shown.can_save
            &&& !state.uploading ==> shown.avatar_label == "Change photo"@ && shown.can_pick
                && shown.can_save
            &&& shown.name == state.name
            &&& shown.about == state.about
            &&& shown.npub == npub
            &&& shown.version == "Version "@ + version
            &&& shown.confirm_logout == state.confirm_logout
        }),
{
}

} // verus!
