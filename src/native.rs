use vstd::prelude::*;

use crate::primitives::{
    encodable, opt_all_encodable, opt_all_fits, opt_encodable, opt_text, opt_texts,
};

verus! {

/// A message scoped to a site, possibly within a session.
#[derive(Debug, Clone, PartialEq)]
pub struct SiteMessage {
    pub site_id: String,
    /// Absent when unknown or not given.
    pub session_id: Option<String>,
}

impl SiteMessage {
    /// Every text field can cross the boundary.
    pub open spec fn encodable(&self) -> bool {
        encodable(self.site_id@)
        && opt_encodable(self.session_id)
    }

    /// Field-wise equality of content.
    pub open spec fn same_content(&self, other: &Self) -> bool {
        self.site_id@ == other.site_id@
        && opt_text(self.session_id) == opt_text(other.session_id)
    }
}

/// A hotword was heard on a site.
#[derive(Debug, Clone, PartialEq)]
pub struct HotwordDetectedMessage {
    pub site_id: String,
    pub model_id: String,
}

impl HotwordDetectedMessage {
    /// Every text field can cross the boundary.
    pub open spec fn encodable(&self) -> bool {
        encodable(self.site_id@)
        && encodable(self.model_id@)
    }

    /// Field-wise equality of content.
    pub open spec fn same_content(&self, other: &Self) -> bool {
        self.site_id@ == other.site_id@
        && self.model_id@ == other.model_id@
    }
}

/// Speech was transcribed to text.
#[derive(Debug, Clone, PartialEq)]
pub struct TextCapturedMessage {
    pub text: String,
    /// Bit pattern of a single-precision value, carried as is.
    pub likelihood: u32,
    /// Bit pattern of a single-precision value, carried as is.
    pub seconds: u32,
    pub site_id: String,
    /// Absent when unknown or not given.
    pub session_id: Option<String>,
}

impl TextCapturedMessage {
    /// Every text field can cross the boundary.
    pub open spec fn encodable(&self) -> bool {
        encodable(self.text@)
        && encodable(self.site_id@)
        && opt_encodable(self.session_id)
    }

    /// Field-wise equality of content.
    pub open spec fn same_content(&self, other: &Self) -> bool {
        self.text@ == other.text@
        && self.likelihood == other.likelihood
        && self.seconds == other.seconds
        && self.site_id@ == other.site_id@
        && opt_text(self.session_id) == opt_text(other.session_id)
    }
}

/// A request to classify an input text.
#[derive(Debug, Clone, PartialEq)]
pub struct NluQueryMessage {
    pub input: String,
    /// Absent when unknown or not given.
    pub intent_filter: Option<Vec<String>>,
    /// Absent when unknown or not given.
    pub id: Option<String>,
    /// Absent when unknown or not given.
    pub session_id: Option<String>,
}

impl NluQueryMessage {
    /// Every text field can cross the boundary.
    pub open spec fn encodable(&self) -> bool {
        encodable(self.input@)
        && opt_all_encodable(self.intent_filter)
        && opt_encodable(self.id)
        && opt_encodable(self.session_id)
    }

    /// Every list and buffer fits its 32-bit length field.
    pub open spec fn fits(&self) -> bool {
        opt_all_fits(self.intent_filter)
    }

    /// Field-wise equality of content.
    pub open spec fn same_content(&self, other: &Self) -> bool {
        self.input@ == other.input@
        && opt_texts(self.intent_filter) == opt_texts(other.intent_filter)
        && opt_text(self.id) == opt_text(other.id)
        && opt_text(self.session_id) == opt_text(other.session_id)
    }
}

/// A request to extract one slot of a known intent.
#[derive(Debug, Clone, PartialEq)]
pub struct NluSlotQueryMessage {
    pub input: String,
    pub intent_name: String,
    pub slot_name: String,
    /// Absent when unknown or not given.
    pub id: Option<String>,
    /// Absent when unknown or not given.
    pub session_id: Option<String>,
}

impl NluSlotQueryMessage {
    /// Every text field can cross the boundary.
    pub open spec fn encodable(&self) -> bool {
        encodable(self.input@)
        && encodable(self.intent_name@)
        && encodable(self.slot_name@)
        && opt_encodable(self.id)
        && opt_encodable(self.session_id)
    }

    /// Field-wise equality of content.
    pub open spec fn same_content(&self, other: &Self) -> bool {
        self.input@ == other.input@
        && self.intent_name@ == other.intent_name@
        && self.slot_name@ == other.slot_name@
        && opt_text(self.id) == opt_text(other.id)
        && opt_text(self.session_id) == opt_text(other.session_id)
    }
}

/// A sound to play on a site.
#[derive(Debug, Clone, PartialEq)]
pub struct PlayBytesMessage {
    pub id: String,
    pub wav_bytes: Vec<u8>,
    pub site_id: String,
    /// Absent when unknown or not given.
    pub session_id: Option<String>,
}

impl PlayBytesMessage {
    /// Every text field can cross the boundary.
    pub open spec fn encodable(&self) -> bool {
        encodable(self.id@)
        && encodable(self.site_id@)
        && opt_encodable(self.session_id)
    }

    /// Every list and buffer fits its 32-bit length field.
    pub open spec fn fits(&self) -> bool {
        self.wav_bytes@.len() <= i32::MAX
    }

    /// Field-wise equality of content.
    pub open spec fn same_content(&self, other: &Self) -> bool {
        self.id@ == other.id@
        && self.wav_bytes@ == other.wav_bytes@
        && self.site_id@ == other.site_id@
        && opt_text(self.session_id) == opt_text(other.session_id)
    }
}

/// A frame of captured audio.
#[derive(Debug, Clone, PartialEq)]
pub struct AudioFrameMessage {
    pub wav_frame: Vec<u8>,
    pub site_id: String,
}

impl AudioFrameMessage {
    /// Every text field can cross the boundary.
    pub open spec fn encodable(&self) -> bool {
        encodable(self.site_id@)
    }

    /// Every list and buffer fits its 32-bit length field.
    pub open spec fn fits(&self) -> bool {
        self.wav_frame@.len() <= i32::MAX
    }

    /// Field-wise equality of content.
    pub open spec fn same_content(&self, other: &Self) -> bool {
        self.wav_frame@ == other.wav_frame@
        && self.site_id@ == other.site_id@
    }
}

/// A sound finished playing.
#[derive(Debug, Clone, PartialEq)]
pub struct PlayFinishedMessage {
    pub id: String,
    pub site_id: String,
    /// Absent when unknown or not given.
    pub session_id: Option<String>,
}

impl PlayFinishedMessage {
    /// Every text field can cross the boundary.
    pub open spec fn encodable(&self) -> bool {
        encodable(self.id@)
        && encodable(self.site_id@)
        && opt_encodable(self.session_id)
    }

    /// Field-wise equality of content.
    pub open spec fn same_content(&self, other: &Self) -> bool {
        self.id@ == other.id@
        && self.site_id@ == other.site_id@
        && opt_text(self.session_id) == opt_text(other.session_id)
    }
}

/// A text to speak.
#[derive(Debug, Clone, PartialEq)]
pub struct SayMessage {
    pub text: String,
    /// Absent when unknown or not given.
    pub lang: Option<String>,
    /// Absent when unknown or not given.
    pub id: Option<String>,
    pub site_id: String,
    /// Absent when unknown or not given.
    pub session_id: Option<String>,
}

impl SayMessage {
    /// Every text field can cross the boundary.
    pub open spec fn encodable(&self) -> bool {
        encodable(self.text@)
        && opt_encodable(self.lang)
        && opt_encodable(self.id)
        && encodable(self.site_id@)
        && opt_encodable(self.session_id)
    }

    /// Field-wise equality of content.
    pub open spec fn same_content(&self, other: &Self) -> bool {
        self.text@ == other.text@
        && opt_text(self.lang) == opt_text(other.lang)
        && opt_text(self.id) == opt_text(other.id)
        && self.site_id@ == other.site_id@
        && opt_text(self.session_id) == opt_text(other.session_id)
    }
}

/// A text finished being spoken.
#[derive(Debug, Clone, PartialEq)]
pub struct SayFinishedMessage {
    /// Absent when unknown or not given.
    pub id: Option<String>,
    /// Absent when unknown or not given.
    pub session_id: Option<String>,
}

impl SayFinishedMessage {
    /// Every text field can cross the boundary.
    pub open spec fn encodable(&self) -> bool {
        opt_encodable(self.id)
        && opt_encodable(self.session_id)
    }

    /// Field-wise equality of content.
    pub open spec fn same_content(&self, other: &Self) -> bool {
        opt_text(self.id) == opt_text(other.id)
        && opt_text(self.session_id) == opt_text(other.session_id)
    }
}

/// No intent matched an input text.
#[derive(Debug, Clone, PartialEq)]
pub struct NluIntentNotRecognizedMessage {
    pub input: String,
    /// Absent when unknown or not given.
    pub id: Option<String>,
    /// Absent when unknown or not given.
    pub session_id: Option<String>,
}

impl NluIntentNotRecognizedMessage {
    /// Every text field can cross the boundary.
    pub open spec fn encodable(&self) -> bool {
        encodable(self.input@)
        && opt_encodable(self.id)
        && opt_encodable(self.session_id)
    }

    /// Field-wise equality of content.
    pub open spec fn same_content(&self, other: &Self) -> bool {
        self.input@ == other.input@
        && opt_text(self.id) == opt_text(other.id)
        && opt_text(self.session_id) == opt_text(other.session_id)
    }
}

/// A dialogue session started.
#[derive(Debug, Clone, PartialEq)]
pub struct SessionStartedMessage {
    pub session_id: String,
    /// Absent when unknown or not given.
    pub custom_data: Option<String>,
    pub site_id: String,
    /// Absent when unknown or not given.
    pub reactivated_from_session_id: Option<String>,
}

impl SessionStartedMessage {
    /// Every text field can cross the boundary.
    pub open spec fn encodable(&self) -> bool {
        encodable(self.session_id@)
        && opt_encodable(self.custom_data)
        && encodable(self.site_id@)
        && opt_encodable(self.reactivated_from_session_id)
    }

    /// Field-wise equality of content.
    pub open spec fn same_content(&self, other: &Self) -> bool {
        self.session_id@ == other.session_id@
        && opt_text(self.custom_data) == opt_text(other.custom_data)
        && self.site_id@ == other.site_id@
        && opt_text(self.reactivated_from_session_id) == opt_text(other.reactivated_from_session_id)
    }
}

/// A dialogue session waits for its site.
#[derive(Debug, Clone, PartialEq)]
pub struct SessionQueuedMessage {
    pub session_id: String,
    /// Absent when unknown or not given.
    pub custom_data: Option<String>,
    pub site_id: String,
}

impl SessionQueuedMessage {
    /// Every text field can cross the boundary.
    pub open spec fn encodable(&self) -> bool {
        encodable(self.session_id@)
        && opt_encodable(self.custom_data)
        && encodable(self.site_id@)
    }

    /// Field-wise equality of content.
    pub open spec fn same_content(&self, other: &Self) -> bool {
        self.session_id@ == other.session_id@
        && opt_text(self.custom_data) == opt_text(other.custom_data)
        && self.site_id@ == other.site_id@
    }
}

/// A dialogue session goes on with a new prompt.
#[derive(Debug, Clone, PartialEq)]
pub struct ContinueSessionMessage {
    pub session_id: String,
    pub text: String,
    /// Absent when unknown or not given.
    pub intent_filter: Option<Vec<String>>,
}

impl ContinueSessionMessage {
    /// Every text field can cross the boundary.
    pub open spec fn encodable(&self) -> bool {
        encodable(self.session_id@)
        && encodable(self.text@)
        && opt_all_encodable(self.intent_filter)
    }

    /// Every list and buffer fits its 32-bit length field.
    pub open spec fn fits(&self) -> bool {
        opt_all_fits(self.intent_filter)
    }

    /// Field-wise equality of content.
    pub open spec fn same_content(&self, other: &Self) -> bool {
        self.session_id@ == other.session_id@
        && self.text@ == other.text@
        && opt_texts(self.intent_filter) == opt_texts(other.intent_filter)
    }
}

/// A request to end a dialogue session.
#[derive(Debug, Clone, PartialEq)]
pub struct EndSessionMessage {
    pub session_id: String,
    /// Absent when unknown or not given.
    pub text: Option<String>,
}

impl EndSessionMessage {
    /// Every text field can cross the boundary.
    pub open spec fn encodable(&self) -> bool {
        encodable(self.session_id@)
        && opt_encodable(self.text)
    }

    /// Field-wise equality of content.
    pub open spec fn same_content(&self, other: &Self) -> bool {
        self.session_id@ == other.session_id@
        && opt_text(self.text) == opt_text(other.text)
    }
}

/// An error reported by a component.
#[derive(Debug, Clone, PartialEq)]
pub struct ErrorMessage {
    /// Absent when unknown or not given.
    pub session_id: Option<String>,
    pub error: String,
    /// Absent when unknown or not given.
    pub context: Option<String>,
}

impl ErrorMessage {
    /// Every text field can cross the boundary.
    pub open spec fn encodable(&self) -> bool {
        opt_encodable(self.session_id)
        && encodable(self.error@)
        && opt_encodable(self.context)
    }

    /// Field-wise equality of content.
    pub open spec fn same_content(&self, other: &Self) -> bool {
        opt_text(self.session_id) == opt_text(other.session_id)
        && self.error@ == other.error@
        && opt_text(self.context) == opt_text(other.context)
    }
}

/// The slot found for a slot query.
#[derive(Debug, Clone, PartialEq)]
pub struct NluSlotMessage<S> {
    /// Absent when unknown or not given.
    pub id: Option<String>,
    pub input: String,
    pub intent_name: String,
    /// Absent when unknown or not given.
    pub slot: Option<S>,
    /// Absent when unknown or not given.
    pub session_id: Option<String>,
}

impl<S> NluSlotMessage<S> {
    /// Every text field can cross the boundary.
    pub open spec fn encodable(&self) -> bool {
        opt_encodable(self.id)
        && encodable(self.input@)
        && encodable(self.intent_name@)
        && opt_encodable(self.session_id)
    }
}

/// The intent found for an input text.
#[derive(Debug, Clone, PartialEq)]
pub struct NluIntentMessage<I, L> {
    /// Absent when unknown or not given.
    pub id: Option<String>,
    pub input: String,
    pub intent: I,
    /// Absent when unknown or not given.
    pub slots: Option<L>,
    /// Absent when unknown or not given.
    pub session_id: Option<String>,
}

impl<I, L> NluIntentMessage<I, L> {
    /// Every text field can cross the boundary.
    pub open spec fn encodable(&self) -> bool {
        opt_encodable(self.id)
        && encodable(self.input@)
        && opt_encodable(self.session_id)
    }
}

/// An intent found within a dialogue session, for its consumers.
#[derive(Debug, Clone, PartialEq)]
pub struct IntentMessage<I, L> {
    pub session_id: String,
    /// Absent when unknown or not given.
    pub custom_data: Option<String>,
    pub site_id: String,
    pub input: String,
    pub intent: I,
    /// Absent when unknown or not given.
    pub slots: Option<L>,
}

impl<I, L> IntentMessage<I, L> {
    /// Every text field can cross the boundary.
    pub open spec fn encodable(&self) -> bool {
        encodable(self.session_id@)
        && opt_encodable(self.custom_data)
        && encodable(self.site_id@)
        && encodable(self.input@)
    }
}


/// How a dialogue session starts.
#[derive(Debug, Clone, PartialEq)]
pub enum SessionInit {
    /// The session listens for the user once the optional prompt is spoken.
    Action {
        text: Option<String>,
        intent_filter: Option<Vec<String>>,
        can_be_enqueued: bool,
    },
    /// The session speaks a text and ends.
    Notification { text: String },
}

impl SessionInit {
    /// Every text field can cross the boundary.
    pub open spec fn encodable(&self) -> bool {
        match self {
            SessionInit::Action { text, intent_filter, .. } => opt_encodable(*text)
                && opt_all_encodable(*intent_filter),
            SessionInit::Notification { text } => encodable(text@),
        }
    }

    /// Every list fits its 32-bit length field.
    pub open spec fn fits(&self) -> bool {
        match self {
            SessionInit::Action { intent_filter, .. } => opt_all_fits(*intent_filter),
            SessionInit::Notification { .. } => true,
        }
    }

    /// Same variant, with field-wise equal content.
    pub open spec fn same_content(&self, other: &Self) -> bool {
        match (self, other) {
            (
                SessionInit::Action { text: t1, intent_filter: f1, can_be_enqueued: q1 },
                SessionInit::Action { text: t2, intent_filter: f2, can_be_enqueued: q2 },
            ) => opt_text(*t1) == opt_text(*t2) && opt_texts(*f1) == opt_texts(*f2) && q1 == q2,
            (SessionInit::Notification { text: a }, SessionInit::Notification { text: b }) => a@
                == b@,
            _ => false,
        }
    }
}

/// A request to start a dialogue session.
#[derive(Debug, Clone, PartialEq)]
pub struct StartSessionMessage {
    pub init: SessionInit,
    /// Absent when unknown or not given.
    pub custom_data: Option<String>,
    /// Absent when unknown or not given.
    pub site_id: Option<String>,
}

impl StartSessionMessage {
    /// Every text field can cross the boundary.
    pub open spec fn encodable(&self) -> bool {
        self.init.encodable() && opt_encodable(self.custom_data) && opt_encodable(self.site_id)
    }

    /// Every list fits its 32-bit length field.
    pub open spec fn fits(&self) -> bool {
        self.init.fits()
    }

    /// Field-wise equality of content.
    pub open spec fn same_content(&self, other: &Self) -> bool {
        self.init.same_content(&other.init)
        && opt_text(self.custom_data) == opt_text(other.custom_data)
        && opt_text(self.site_id) == opt_text(other.site_id)
    }
}

/// Why a dialogue session ended.
#[derive(Debug, Clone, PartialEq)]
pub enum SessionTerminationType {
    Nominal,
    SiteUnavailable,
    AbortedByUser,
    IntentNotRecognized,
    Timeout,
    Error { error: String },
}

impl SessionTerminationType {
    /// The error text, if any, can cross the boundary.
    pub open spec fn encodable(&self) -> bool {
        match self {
            SessionTerminationType::Error { error } => encodable(error@),
            _ => true,
        }
    }

    /// Same kind, with the same error text for the error kind.
    pub open spec fn same_content(&self, other: &Self) -> bool {
        match (self, other) {
            (
                SessionTerminationType::Error { error: a },
                SessionTerminationType::Error { error: b },
            ) => a@ == b@,
            (SessionTerminationType::Error { .. }, _) => false,
            (_, SessionTerminationType::Error { .. }) => false,
            _ => self == other,
        }
    }
}

/// A dialogue session ended.
#[derive(Debug, Clone, PartialEq)]
pub struct SessionEndedMessage {
    pub session_id: String,
    /// Absent when unknown or not given.
    pub custom_data: Option<String>,
    pub termination: SessionTerminationType,
    pub site_id: String,
}

impl SessionEndedMessage {
    /// Every text field can cross the boundary.
    pub open spec fn encodable(&self) -> bool {
        encodable(self.session_id@) && opt_encodable(self.custom_data)
            && self.termination.encodable() && encodable(self.site_id@)
    }

    /// Field-wise equality of content.
    pub open spec fn same_content(&self, other: &Self) -> bool {
        self.session_id@ == other.session_id@
        && opt_text(self.custom_data) == opt_text(other.custom_data)
        && self.termination.same_content(&other.termination)
        && self.site_id@ == other.site_id@
    }
}

/// A version number in three parts.
#[derive(Debug, Clone, Copy, PartialEq, Eq, Structural)]
pub struct Version {
    pub major: u64,
    pub minor: u64,
    pub patch: u64,
}

/// The version of a component.
#[derive(Debug, Clone, Copy, PartialEq, Eq, Structural)]
pub struct VersionMessage {
    pub version: Version,
}

} // verus!
