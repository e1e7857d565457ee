//! Media that is attached to posts.

use crate::json::Json;
use crate::json::JsonModel;
use crate::json::Number;
use crate::json::NumberModel;
use crate::models::ipc_message::optional_text;
use vstd::prelude::*;

verus! {

/// The kind of a media file.
#[derive(Debug, Clone, Copy, PartialEq, Eq, Structural)]
pub enum MediaType {
    Image,
    Video,
    Gifv,
    Audio,
    Unknown,
}

/// A media file on the instance as the backend reads it: the identifier, and
/// the document that is relayed to the peer.
#[derive(Debug, Clone, PartialEq, Eq)]
pub struct MediaAttachment {
    pub id: String,
    pub document: Json,
}

/// The point of a picture that stays in view when the picture is cropped.
#[derive(Debug, Clone, PartialEq, Eq)]
pub struct MediaFocus {
    pub x: Number,
    pub y: Number,
}

/// What a `MediaFocus` is, as a mathematical value.
pub ghost struct MediaFocusModel {
    pub x: NumberModel,
    pub y: NumberModel,
}

impl View for MediaFocus {
    type V = MediaFocusModel;

    open spec fn view(&self) -> MediaFocusModel {
        MediaFocusModel { x: self.x@, y: self.y@ }
    }
}

/// What a peer sends to upload a media file.
#[derive(Debug, Clone, PartialEq, Eq)]
pub struct MediaUploadRequest {
    /// Where the file lies on this machine.
    pub file_path: String,
    /// The text that describes the media to those who cannot see it.
    pub description: Option<String>,
    pub focus: Option<MediaFocus>,
}

/// What a `MediaUploadRequest` is, as a mathematical value.
pub ghost struct MediaUploadRequestModel {
    pub file_path: Seq<char>,
    pub description: Option<Seq<char>>,
    pub focus: Option<MediaFocusModel>,
}

/// The model of an optional focus.
pub open spec fn optional_focus(focus: Option<MediaFocus>) -> Option<MediaFocusModel> {
    match focus {
        Some(f) => Some(f@),
        None => None,
    }
}

impl View for MediaUploadRequest {
    type V = MediaUploadRequestModel;

    open spec fn view(&self) -> MediaUploadRequestModel {
        MediaUploadRequestModel {
            file_path: self.file_path@,
            description: optional_text(self.description),
            focus: optional_focus(self.focus),
        }
    }
}

/// The focus that the member `focus` of `doc` describes, if there is one.
pub open spec fn focus_member(doc: JsonModel) -> Result<Option<MediaFocusModel>, Seq<char>> {
    match doc.field("focus"@) {
        None => Ok(None),
        Some(JsonModel::Null) => Ok(None),
        Some(f) => match f.required_number_member("x"@) {
            Err(e) => Err(e),
            Ok(x) => match f.required_number_member("y"@) {
                Err(e) => Err(e),
                Ok(y) => Ok(Some(MediaFocusModel { x, y })),
            },
        },
    }
}

impl MediaUploadRequestModel {
    /// The request that the document `doc` describes, or why it describes
    /// none. The members are read in the order in which a request lists
    /// them, and the first that fails gives the reason.
    pub open spec fn of_json(doc: JsonModel) -> Result<MediaUploadRequestModel, Seq<char>> {
        match doc.required_text_member("file_path"@) {
            Err(e) => Err(e),
            Ok(file_path) => match doc.optional_text_member("description"@) {
                Err(e) => Err(e),
                Ok(description) => match focus_member(doc) {
                    Err(e) => Err(e),
                    Ok(focus) => Ok(MediaUploadRequestModel { file_path, description, focus }),
                },
            },
        }
    }
}

impl MediaUploadRequest {
    /// The focus that the member `focus` of `doc` describes, if there is one.
    fn focus_member(doc: &Json) -> (r: Result<Option<MediaFocus>, String>)
        ensures
            match r {
                Ok(f) => focus_member(doc@) == Ok::<Option<MediaFocusModel>, Seq<char>>(
                    optional_focus(f),
                ),
                Err(e) => focus_member(doc@) == Err::<Option<MediaFocusModel>, Seq<char>>(e@),
            },
    {
        match doc.get("focus") {
            None => Ok(None),
            Some(Json::Null) => Ok(None),
            Some(f) => {
                let x = match f.required_number_member("x") {
                    Ok(v) => v,
                    Err(e) => {
                        return Err(e);
                    },
                };
                let y = match f.required_number_member("y") {
                    Ok(v) => v,
                    Err(e) => {
                        return Err(e);
                    },
                };
                Ok(Some(MediaFocus { x, y }))
            },
        }
    }

    /// The request that the document `doc` describes, or why it describes
    /// none.
    pub fn from_json(doc: &Json) -> (r: Result<MediaUploadRequest, String>)
        ensures
            match r {
                Ok(q) => MediaUploadRequestModel::of_json(doc@) == Ok::<
                    MediaUploadRequestModel,
                    Seq<char>,
                >(q@),
                Err(e) => MediaUploadRequestModel::of_json(doc@) == Err::<
                    MediaUploadRequestModel,
                    Seq<char>,
                >(e@),
            },
    {
        let file_path = match doc.required_text_member("file_path") {
            Ok(v) => v,
            Err(e) => {
                return Err(e);
            },
        };
        let description = match doc.optional_text_member("description") {
            Ok(v) => v,
            Err(e) => {
                return Err(e);
            },
        };
        let focus = match Self::focus_member(doc) {
            Ok(v) => v,
            Err(e) => {
                return Err(e);
            },
        };
        Ok(MediaUploadRequest { file_path, description, focus })
    }
}

} // verus!
