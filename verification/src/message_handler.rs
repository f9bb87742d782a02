//! The routing of incoming notices.

use crate::class::{ClassType, Object as Class};
use crate::error::Error;
use crate::postprocessing::minigroup::MinigroupPostprocessingStrategy;
use crate::postprocessing::webinar::WebinarPostprocessingStrategy;
use crate::postprocessing::{get, PostprocessingStrategy, Step};
use crate::queries::ReadQuery;
use crate::text::{after_last, before_first, text_after_last, text_before_first, text_without, without};
use vstd::prelude::*;

verus! {

/// The notices that drive the post-processing, by their label.
#[derive(Clone, Copy, Debug, PartialEq, Eq, Structural)]
pub enum Notice {
    /// `room.close`: a room was closed.  Nothing is done about it.
    RoomClose,
    /// `room.upload`: the tracks of a conference room were uploaded.
    RoomUpload,
    /// `room.adjust`: an event room was adjusted.
    RoomAdjust,
    /// `task.complete`: a transcoding task is complete.
    TaskComplete,
    /// Any other label, or none: the notice is ignored.
    Other,
}

/// The notice that a label stands for.
pub open spec fn notice_of(label: Option<Seq<char>>) -> Notice {
    match label {
        Some(label) => if label == "room.close"@ {
            Notice::RoomClose
        } else if label == "room.upload"@ {
            Notice::RoomUpload
        } else if label == "room.adjust"@ {
            Notice::RoomAdjust
        } else if label == "task.complete"@ {
            Notice::TaskComplete
        } else {
            Notice::Other
        },
        None => Notice::Other,
    }
}

/// What a label that may be missing holds.
pub open spec fn label_view(label: Option<&str>) -> Option<Seq<char>> {
    match label {
        Some(label) => Some(label@),
        None => None,
    }
}

/// What a text that may be missing holds.
pub open spec fn text_view(text: Option<String>) -> Option<Seq<char>> {
    match text {
        Some(text) => Some(text@),
        None => None,
    }
}

/// The text member `key` of the JSON object that `json` holds, as
/// `serde_json` reads it: `None` where `json` is no JSON text, no object,
/// has no such member, or the member is no string.
pub uninterp spec fn json_text_member(json: Seq<char>, key: Seq<char>) -> Option<Seq<char>>;

/// Reads `json` with `serde_json::from_str` into a `serde_json::Value`,
/// looks `key` up with `Value::get` and takes the member's text with
/// `Value::as_str`.
#[verifier::external_body]
fn text_member(json: &str, key: &str) -> (res: Option<String>)
    ensures
        text_view(res) == json_text_member(json@, key@),
{
    let value: serde_json::Value = serde_json::from_str(json).ok()?;
    let member = value.get(key)?;
    Some(member.as_str()?.to_owned())
}

/// Whether two texts are the same.
fn same_text(a: &str, b: &str) -> (same: bool)
    ensures
        same == (a@ == b@),
{
    let a = a.to_owned();
    let b = b.to_owned();
    a == b
}

/// The routing of incoming notices to their handlers.
#[derive(Clone, Copy, Debug, Default, PartialEq, Eq)]
pub struct MessageHandler {}

impl MessageHandler {
    pub fn new() -> (res: MessageHandler)
        ensures
            res == (MessageHandler {  }),
    {
        MessageHandler {  }
    }

    /// The notice that an event with the given label carries.
    pub fn handle_event(&self, label: Option<&str>) -> (notice: Notice)
        ensures
            notice == notice_of(label_view(label)),
    {
        match label {
            Some(label) => {
                if same_text(label, "room.close") {
                    Notice::RoomClose
                } else if same_text(label, "room.upload") {
                    Notice::RoomUpload
                } else if same_text(label, "room.adjust") {
                    Notice::RoomAdjust
                } else if same_text(label, "task.complete") {
                    Notice::TaskComplete
                } else {
                    Notice::Other
                }
            },
            None => Notice::Other,
        }
    }

    /// Handles the notice that a room was closed.  Nothing is done about it:
    /// the handling is finished at once.
    pub fn handle_close(&self) -> (step: Step)
        ensures
            step == Step::Finished,
    {
        Step::Finished
    }

    /// The post-processing of the class that was looked up for a notice.
    /// Fails with [`Error::ClassNotFound`] if no class was found and with
    /// [`Error::UnsupportedClassType`] if the class is a p2p class.
    pub fn strategy(&self, class: Option<Class>) -> (res: Result<PostprocessingStrategy, Error>)
        ensures
            res == strategy_of(class),
    {
        match class {
            Some(class) => get(class),
            None => Err(Error::ClassNotFound),
        }
    }

    /// The audience that a notice belongs to, taken from the topic it came
    /// on: what stands behind the last `/audiences/` of the topic, up to the
    /// first `/events` behind it.
    pub fn audience(&self, topic: &str) -> (res: String)
        ensures
            res@ == audience_of(topic@),
    {
        let tail = text_after_last(topic, "/audiences/");
        text_before_first(tail.as_str(), "/events")
    }

    /// The scope that the tags of a notice name: the text member `scope` of
    /// the tags.  Fails with [`Error::MissingScope`] exactly if there are no
    /// tags or the tags hold no such member.
    pub fn scope(&self, tags: Option<&str>) -> (res: Result<String, Error>)
        ensures
            scope_of(label_view(tags)) is Some <==> res is Ok,
            res matches Ok(scope) ==> scope_of(label_view(tags)) == Some(scope@),
            res matches Err(e) ==> e == Error::MissingScope,
    {
        match tags {
            Some(tags) => self.scope_of_member(text_member(tags, "scope")),
            None => Err(Error::MissingScope),
        }
    }

    /// The scope for the member `scope` of the tags, once it was looked up.
    pub fn scope_of_member(&self, member: Option<String>) -> (res: Result<String, Error>)
        ensures
            res == match member {
                Some(scope) => Ok::<String, Error>(scope),
                None => Err::<String, Error>(Error::MissingScope),
            },
    {
        match member {
            Some(scope) => Ok(scope),
            None => Err(Error::MissingScope),
        }
    }

    /// The query for the class that a notice is about: the one that the
    /// audience of the notice knows under the scope in its tags.
    pub fn find_class(&self, audience: &str, tags: Option<&str>) -> (res: Result<ReadQuery, Error>)
        ensures
            scope_of(label_view(tags)) is Some <==> res is Ok,
            res matches Ok(query) ==> query.condition matches crate::queries::ReadQueryPredicate::Scope {
                audience: a,
                scope: s,
            } && a@ == audience@ && Some(s@) == scope_of(label_view(tags)),
            res matches Err(e) ==> e == Error::MissingScope,
    {
        match self.scope(tags) {
            Ok(scope) => Ok(ReadQuery::by_scope(audience, scope.as_str())),
            Err(e) => Err(e),
        }
    }
}

/// The post-processing of a class that may be missing.
pub open spec fn strategy_of(class: Option<Class>) -> Result<PostprocessingStrategy, Error> {
    match class {
        Some(class) => match class.kind {
            ClassType::Webinar => Ok(
                PostprocessingStrategy::Webinar(WebinarPostprocessingStrategy { webinar: class }),
            ),
            ClassType::Minigroup => Ok(
                PostprocessingStrategy::Minigroup(
                    MinigroupPostprocessingStrategy { minigroup: class },
                ),
            ),
            ClassType::P2P => Err(Error::UnsupportedClassType),
        },
        None => Err(Error::ClassNotFound),
    }
}

/// The audience in the topic of a notice.
pub open spec fn audience_of(topic: Seq<char>) -> Seq<char> {
    before_first(after_last(topic, "/audiences/"@), "/events"@)
}

/// The token in an `Authorization` header: the header without any
/// `Bearer ` in it, or the empty text where there is no header.
pub open spec fn token_of(header: Option<Seq<char>>) -> Seq<char> {
    match header {
        Some(header) => without(header, "Bearer "@),
        None => Seq::empty(),
    }
}

/// The token in an `Authorization` header.
pub fn bearer_token(header: Option<&str>) -> (token: String)
    ensures
        token@ == token_of(label_view(header)),
{
    match header {
        Some(header) => text_without(header, "Bearer "),
        None => String::new(),
    }
}

/// The scope that tags name, if they name one.
pub open spec fn scope_of(tags: Option<Seq<char>>) -> Option<Seq<char>> {
    match tags {
        Some(tags) => json_text_member(tags, "scope"@),
        None => None,
    }
}

} // verus!
