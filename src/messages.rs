use vstd::prelude::*;

use crate::error::FfiError;
use crate::native::{
    AudioFrameMessage, ContinueSessionMessage, EndSessionMessage, ErrorMessage,
    HotwordDetectedMessage, NluIntentNotRecognizedMessage, NluQueryMessage, NluSlotQueryMessage,
    PlayBytesMessage, PlayFinishedMessage, SayFinishedMessage, SayMessage, SessionQueuedMessage,
    SessionStartedMessage, SiteMessage, TextCapturedMessage,
};
use crate::primitives::{
    count_present, decodable, from_nullable, from_nullable_array, lemma_opt_array_round_trip,
    lemma_opt_text_round_trip, lemma_text_round_trip, opt_array_decodable, opt_array_represents,
    opt_decodable, opt_represents, present, represents, to_nullable, to_nullable_array,
    ForeignBuffer, ForeignString, ForeignStringArray, ReleaseTally,
};

verus! {

/// Foreign form of [`SiteMessage`]: a message scoped to a site, possibly within a session.
pub struct CSiteMessage {
    pub site_id: ForeignString,
    /// Null when absent.
    pub session_id: Option<ForeignString>,
}

impl CSiteMessage {
    /// This record is the foreign form of `m`.
    pub open spec fn represents(&self, m: SiteMessage) -> bool {
        represents(self.site_id, m.site_id@)
        && opt_represents(self.session_id, m.session_id)
    }

    /// Every text of this record decodes to native text.
    pub open spec fn decodable(&self) -> bool {
        decodable(self.site_id)
        && opt_decodable(self.session_id)
    }

    /// Builds the foreign form of a message, taking ownership of its content.
    pub fn from(msg: SiteMessage) -> (r: Result<Self, FfiError>)
        ensures
            r is Ok <==> msg.encodable(),
            r matches Ok(c) ==> c.represents(msg),
            r matches Err(e) ==> e == FfiError::InvalidStringEncoding,
    {
        let site_id = match ForeignString::from_string(msg.site_id) {
            Ok(v) => v,
            Err(e) => return Err(e),
        };
        let session_id = match to_nullable(msg.session_id) {
            Ok(v) => v,
            Err(e) => return Err(e),
        };
        Ok(CSiteMessage { site_id, session_id })
    }

    /// Copies the content out into a new native message.
    pub fn as_rust(&self) -> (r: Result<SiteMessage, FfiError>)
        ensures
            r is Ok <==> self.decodable(),
            r matches Ok(m) ==> self.represents(m),
            r matches Err(e) ==> e == FfiError::MalformedForeignInput,
    {
        let site_id = match self.site_id.as_rust() {
            Ok(v) => v,
            Err(e) => return Err(e),
        };
        let session_id = match from_nullable(&self.session_id) {
            Ok(v) => v,
            Err(e) => return Err(e),
        };
        Ok(SiteMessage { site_id, session_id })
    }

    /// Frees every block the record owns, skipping null ones.
    pub fn release(self) -> (t: ReleaseTally)
        ensures
            t.strings == 1 + present(self.session_id),
            t.arrays == 0,
            t.buffers == 0,
            t.boxes == 0,
    {
        ReleaseTally {
            strings: 1 + count_present(&self.session_id),
            arrays: 0,
            buffers: 0,
            boxes: 0,
        }
    }
}

/// Converting a site message to its foreign form and back gives a message with the
/// same content, and the foreign form always decodes.
pub proof fn lemma_site_message_round_trip(m: SiteMessage, c: CSiteMessage, back: SiteMessage)
    requires
        c.represents(m),
        c.represents(back),
    ensures
        c.decodable(),
        back.same_content(&m),
{
    lemma_text_round_trip(c.site_id, m.site_id@, back.site_id@);
    lemma_opt_text_round_trip(c.session_id, m.session_id, back.session_id);
}

/// Foreign form of [`HotwordDetectedMessage`]: a hotword was heard on a site.
pub struct CHotwordDetectedMessage {
    pub site_id: ForeignString,
    pub model_id: ForeignString,
}

impl CHotwordDetectedMessage {
    /// This record is the foreign form of `m`.
    pub open spec fn represents(&self, m: HotwordDetectedMessage) -> bool {
        represents(self.site_id, m.site_id@)
        && represents(self.model_id, m.model_id@)
    }

    /// Every text of this record decodes to native text.
    pub open spec fn decodable(&self) -> bool {
        decodable(self.site_id)
        && decodable(self.model_id)
    }

    /// Builds the foreign form of a message, taking ownership of its content.
    pub fn from(msg: HotwordDetectedMessage) -> (r: Result<Self, FfiError>)
        ensures
            r is Ok <==> msg.encodable(),
            r matches Ok(c) ==> c.represents(msg),
            r matches Err(e) ==> e == FfiError::InvalidStringEncoding,
    {
        let site_id = match ForeignString::from_string(msg.site_id) {
            Ok(v) => v,
            Err(e) => return Err(e),
        };
        let model_id = match ForeignString::from_string(msg.model_id) {
            Ok(v) => v,
            Err(e) => return Err(e),
        };
        Ok(CHotwordDetectedMessage { site_id, model_id })
    }

    /// Copies the content out into a new native message.
    pub fn as_rust(&self) -> (r: Result<HotwordDetectedMessage, FfiError>)
        ensures
            r is Ok <==> self.decodable(),
            r matches Ok(m) ==> self.represents(m),
            r matches Err(e) ==> e == FfiError::MalformedForeignInput,
    {
        let site_id = match self.site_id.as_rust() {
            Ok(v) => v,
            Err(e) => return Err(e),
        };
        let model_id = match self.model_id.as_rust() {
            Ok(v) => v,
            Err(e) => return Err(e),
        };
        Ok(HotwordDetectedMessage { site_id, model_id })
    }

    /// Frees every block the record owns, skipping null ones.
    pub fn release(self) -> (t: ReleaseTally)
        ensures
            t.strings == 1 + 1,
            t.arrays == 0,
            t.buffers == 0,
            t.boxes == 0,
    {
        ReleaseTally {
            strings: 1 + 1,
            arrays: 0,
            buffers: 0,
            boxes: 0,
        }
    }
}

/// Converting a hotword detected message to its foreign form and back gives a message with the
/// same content, and the foreign form always decodes.
pub proof fn lemma_hotword_detected_message_round_trip(m: HotwordDetectedMessage, c: CHotwordDetectedMessage, back: HotwordDetectedMessage)
    requires
        c.represents(m),
        c.represents(back),
    ensures
        c.decodable(),
        back.same_content(&m),
{
    lemma_text_round_trip(c.site_id, m.site_id@, back.site_id@);
    lemma_text_round_trip(c.model_id, m.model_id@, back.model_id@);
}

/// Foreign form of [`TextCapturedMessage`]: speech was transcribed to text.
pub struct CTextCapturedMessage {
    pub text: ForeignString,
    /// Bit pattern of a single-precision value, carried as is.
    pub likelihood: u32,
    /// Bit pattern of a single-precision value, carried as is.
    pub seconds: u32,
    pub site_id: ForeignString,
    /// Null when absent.
    pub session_id: Option<ForeignString>,
}

impl CTextCapturedMessage {
    /// This record is the foreign form of `m`.
    pub open spec fn represents(&self, m: TextCapturedMessage) -> bool {
        represents(self.text, m.text@)
        && self.likelihood == m.likelihood
        && self.seconds == m.seconds
        && represents(self.site_id, m.site_id@)
        && opt_represents(self.session_id, m.session_id)
    }

    /// Every text of this record decodes to native text.
    pub open spec fn decodable(&self) -> bool {
        decodable(self.text)
        && decodable(self.site_id)
        && opt_decodable(self.session_id)
    }

    /// Builds the foreign form of a message, taking ownership of its content.
    pub fn from(msg: TextCapturedMessage) -> (r: Result<Self, FfiError>)
        ensures
            r is Ok <==> msg.encodable(),
            r matches Ok(c) ==> c.represents(msg),
            r matches Err(e) ==> e == FfiError::InvalidStringEncoding,
    {
        let text = match ForeignString::from_string(msg.text) {
            Ok(v) => v,
            Err(e) => return Err(e),
        };
        let likelihood = msg.likelihood;
        let seconds = msg.seconds;
        let site_id = match ForeignString::from_string(msg.site_id) {
            Ok(v) => v,
            Err(e) => return Err(e),
        };
        let session_id = match to_nullable(msg.session_id) {
            Ok(v) => v,
            Err(e) => return Err(e),
        };
        Ok(CTextCapturedMessage { text, likelihood, seconds, site_id, session_id })
    }

    /// Copies the content out into a new native message.
    pub fn as_rust(&self) -> (r: Result<TextCapturedMessage, FfiError>)
        ensures
            r is Ok <==> self.decodable(),
            r matches Ok(m) ==> self.represents(m),
            r matches Err(e) ==> e == FfiError::MalformedForeignInput,
    {
        let text = match self.text.as_rust() {
            Ok(v) => v,
            Err(e) => return Err(e),
        };
        let likelihood = self.likelihood;
        let seconds = self.seconds;
        let site_id = match self.site_id.as_rust() {
            Ok(v) => v,
            Err(e) => return Err(e),
        };
        let session_id = match from_nullable(&self.session_id) {
            Ok(v) => v,
            Err(e) => return Err(e),
        };
        Ok(TextCapturedMessage { text, likelihood, seconds, site_id, session_id })
    }

    /// Frees every block the record owns, skipping null ones.
    pub fn release(self) -> (t: ReleaseTally)
        ensures
            t.strings == 1 + 1 + present(self.session_id),
            t.arrays == 0,
            t.buffers == 0,
            t.boxes == 0,
    {
        ReleaseTally {
            strings: 1 + 1 + count_present(&self.session_id),
            arrays: 0,
            buffers: 0,
            boxes: 0,
        }
    }
}

/// Converting a text captured message to its foreign form and back gives a message with the
/// same content, and the foreign form always decodes.
pub proof fn lemma_text_captured_message_round_trip(m: TextCapturedMessage, c: CTextCapturedMessage, back: TextCapturedMessage)
    requires
        c.represents(m),
        c.represents(back),
    ensures
        c.decodable(),
        back.same_content(&m),
{
    lemma_text_round_trip(c.text, m.text@, back.text@);
    lemma_text_round_trip(c.site_id, m.site_id@, back.site_id@);
    lemma_opt_text_round_trip(c.session_id, m.session_id, back.session_id);
}

/// Foreign form of [`NluQueryMessage`]: a request to classify an input text.
pub struct CNluQueryMessage {
    pub input: ForeignString,
    /// Null when absent.
    pub intent_filter: Option<ForeignStringArray>,
    /// Null when absent.
    pub id: Option<ForeignString>,
    /// Null when absent.
    pub session_id: Option<ForeignString>,
}

impl CNluQueryMessage {
    /// This record is the foreign form of `m`.
    pub open spec fn represents(&self, m: NluQueryMessage) -> bool {
        represents(self.input, m.input@)
        && opt_array_represents(self.intent_filter, m.intent_filter)
        && opt_represents(self.id, m.id)
        && opt_represents(self.session_id, m.session_id)
    }

    /// Every text of this record decodes to native text.
    pub open spec fn decodable(&self) -> bool {
        decodable(self.input)
        && opt_array_decodable(self.intent_filter)
        && opt_decodable(self.id)
        && opt_decodable(self.session_id)
    }

    /// Builds the foreign form of a message, taking ownership of its content.
    pub fn from(msg: NluQueryMessage) -> (r: Result<Self, FfiError>)
        requires
            msg.fits(),
        ensures
            r is Ok <==> msg.encodable(),
            r matches Ok(c) ==> c.represents(msg),
            r matches Err(e) ==> e == FfiError::InvalidStringEncoding,
    {
        let input = match ForeignString::from_string(msg.input) {
            Ok(v) => v,
            Err(e) => return Err(e),
        };
        let intent_filter = match to_nullable_array(msg.intent_filter) {
            Ok(v) => v,
            Err(e) => return Err(e),
        };
        let id = match to_nullable(msg.id) {
            Ok(v) => v,
            Err(e) => return Err(e),
        };
        let session_id = match to_nullable(msg.session_id) {
            Ok(v) => v,
            Err(e) => return Err(e),
        };
        Ok(CNluQueryMessage { input, intent_filter, id, session_id })
    }

    /// Copies the content out into a new native message.
    pub fn as_rust(&self) -> (r: Result<NluQueryMessage, FfiError>)
        ensures
            r is Ok <==> self.decodable(),
            r matches Ok(m) ==> self.represents(m) && m.fits(),
            r matches Err(e) ==> e == FfiError::MalformedForeignInput,
    {
        let input = match self.input.as_rust() {
            Ok(v) => v,
            Err(e) => return Err(e),
        };
        let intent_filter = match from_nullable_array(&self.intent_filter) {
            Ok(v) => v,
            Err(e) => return Err(e),
        };
        let id = match from_nullable(&self.id) {
            Ok(v) => v,
            Err(e) => return Err(e),
        };
        let session_id = match from_nullable(&self.session_id) {
            Ok(v) => v,
            Err(e) => return Err(e),
        };
        Ok(NluQueryMessage { input, intent_filter, id, session_id })
    }

    /// Frees every block the record owns, skipping null ones.
    pub fn release(self) -> (t: ReleaseTally)
        ensures
            t.strings == 1 + present(self.id) + present(self.session_id),
            t.arrays == present(self.intent_filter),
            t.buffers == 0,
            t.boxes == 0,
    {
        ReleaseTally {
            strings: 1 + count_present(&self.id) + count_present(&self.session_id),
            arrays: count_present(&self.intent_filter),
            buffers: 0,
            boxes: 0,
        }
    }
}

/// Converting a nlu query message to its foreign form and back gives a message with the
/// same content, and the foreign form always decodes.
pub proof fn lemma_nlu_query_message_round_trip(m: NluQueryMessage, c: CNluQueryMessage, back: NluQueryMessage)
    requires
        c.represents(m),
        c.represents(back),
    ensures
        c.decodable(),
        back.same_content(&m),
{
    lemma_text_round_trip(c.input, m.input@, back.input@);
    lemma_opt_array_round_trip(c.intent_filter, m.intent_filter, back.intent_filter);
    lemma_opt_text_round_trip(c.id, m.id, back.id);
    lemma_opt_text_round_trip(c.session_id, m.session_id, back.session_id);
}

/// Foreign form of [`NluSlotQueryMessage`]: a request to extract one slot of a known intent.
pub struct CNluSlotQueryMessage {
    pub input: ForeignString,
    pub intent_name: ForeignString,
    pub slot_name: ForeignString,
    /// Null when absent.
    pub id: Option<ForeignString>,
    /// Null when absent.
    pub session_id: Option<ForeignString>,
}

impl CNluSlotQueryMessage {
    /// This record is the foreign form of `m`.
    pub open spec fn represents(&self, m: NluSlotQueryMessage) -> bool {
        represents(self.input, m.input@)
        && represents(self.intent_name, m.intent_name@)
        && represents(self.slot_name, m.slot_name@)
        && opt_represents(self.id, m.id)
        && opt_represents(self.session_id, m.session_id)
    }

    /// Every text of this record decodes to native text.
    pub open spec fn decodable(&self) -> bool {
        decodable(self.input)
        && decodable(self.intent_name)
        && decodable(self.slot_name)
        && opt_decodable(self.id)
        && opt_decodable(self.session_id)
    }

    /// Builds the foreign form of a message, taking ownership of its content.
    pub fn from(msg: NluSlotQueryMessage) -> (r: Result<Self, FfiError>)
        ensures
            r is Ok <==> msg.encodable(),
            r matches Ok(c) ==> c.represents(msg),
            r matches Err(e) ==> e == FfiError::InvalidStringEncoding,
    {
        let input = match ForeignString::from_string(msg.input) {
            Ok(v) => v,
            Err(e) => return Err(e),
        };
        let intent_name = match ForeignString::from_string(msg.intent_name) {
            Ok(v) => v,
            Err(e) => return Err(e),
        };
        let slot_name = match ForeignString::from_string(msg.slot_name) {
            Ok(v) => v,
            Err(e) => return Err(e),
        };
        let id = match to_nullable(msg.id) {
            Ok(v) => v,
            Err(e) => return Err(e),
        };
        let session_id = match to_nullable(msg.session_id) {
            Ok(v) => v,
            Err(e) => return Err(e),
        };
        Ok(CNluSlotQueryMessage { input, intent_name, slot_name, id, session_id })
    }

    /// Copies the content out into a new native message.
    pub fn as_rust(&self) -> (r: Result<NluSlotQueryMessage, FfiError>)
        ensures
            r is Ok <==> self.decodable(),
            r matches Ok(m) ==> self.represents(m),
            r matches Err(e) ==> e == FfiError::MalformedForeignInput,
    {
        let input = match self.input.as_rust() {
            Ok(v) => v,
            Err(e) => return Err(e),
        };
        let intent_name = match self.intent_name.as_rust() {
            Ok(v) => v,
            Err(e) => return Err(e),
        };
        let slot_name = match self.slot_name.as_rust() {
            Ok(v) => v,
            Err(e) => return Err(e),
        };
        let id = match from_nullable(&self.id) {
            Ok(v) => v,
            Err(e) => return Err(e),
        };
        let session_id = match from_nullable(&self.session_id) {
            Ok(v) => v,
            Err(e) => return Err(e),
        };
        Ok(NluSlotQueryMessage { input, intent_name, slot_name, id, session_id })
    }

    /// Frees every block the record owns, skipping null ones.
    pub fn release(self) -> (t: ReleaseTally)
        ensures
            t.strings == 1 + 1 + 1 + present(self.id) + present(self.session_id),
            t.arrays == 0,
            t.buffers == 0,
            t.boxes == 0,
    {
        ReleaseTally {
            strings: 1 + 1 + 1 + count_present(&self.id) + count_present(&self.session_id),
            arrays: 0,
            buffers: 0,
            boxes: 0,
        }
    }
}

/// Converting a nlu slot query message to its foreign form and back gives a message with the
/// same content, and the foreign form always decodes.
pub proof fn lemma_nlu_slot_query_message_round_trip(m: NluSlotQueryMessage, c: CNluSlotQueryMessage, back: NluSlotQueryMessage)
    requires
        c.represents(m),
        c.represents(back),
    ensures
        c.decodable(),
        back.same_content(&m),
{
    lemma_text_round_trip(c.input, m.input@, back.input@);
    lemma_text_round_trip(c.intent_name, m.intent_name@, back.intent_name@);
    lemma_text_round_trip(c.slot_name, m.slot_name@, back.slot_name@);
    lemma_opt_text_round_trip(c.id, m.id, back.id);
    lemma_opt_text_round_trip(c.session_id, m.session_id, back.session_id);
}

/// Foreign form of [`PlayBytesMessage`]: a sound to play on a site.
pub struct CPlayBytesMessage {
    pub id: ForeignString,
    /// Owned bytes with their 32-bit length.
    pub wav_bytes: ForeignBuffer,
    pub site_id: ForeignString,
    /// Null when absent.
    pub session_id: Option<ForeignString>,
}

impl CPlayBytesMessage {
    /// This record is the foreign form of `m`.
    pub open spec fn represents(&self, m: PlayBytesMessage) -> bool {
        represents(self.id, m.id@)
        && self.wav_bytes@ == m.wav_bytes@
        && represents(self.site_id, m.site_id@)
        && opt_represents(self.session_id, m.session_id)
    }

    /// Every text of this record decodes to native text.
    pub open spec fn decodable(&self) -> bool {
        decodable(self.id)
        && decodable(self.site_id)
        && opt_decodable(self.session_id)
    }

    /// Builds the foreign form of a message, taking ownership of its content.
    pub fn from(msg: PlayBytesMessage) -> (r: Result<Self, FfiError>)
        requires
            msg.fits(),
        ensures
            r is Ok <==> msg.encodable(),
            r matches Ok(c) ==> c.represents(msg),
            r matches Err(e) ==> e == FfiError::InvalidStringEncoding,
    {
        let id = match ForeignString::from_string(msg.id) {
            Ok(v) => v,
            Err(e) => return Err(e),
        };
        let wav_bytes = ForeignBuffer::from_vec(msg.wav_bytes);
        let site_id = match ForeignString::from_string(msg.site_id) {
            Ok(v) => v,
            Err(e) => return Err(e),
        };
        let session_id = match to_nullable(msg.session_id) {
            Ok(v) => v,
            Err(e) => return Err(e),
        };
        Ok(CPlayBytesMessage { id, wav_bytes, site_id, session_id })
    }

    /// Copies the content out into a new native message.
    pub fn as_rust(&self) -> (r: Result<PlayBytesMessage, FfiError>)
        ensures
            r is Ok <==> self.decodable(),
            r matches Ok(m) ==> self.represents(m) && m.fits(),
            r matches Err(e) ==> e == FfiError::MalformedForeignInput,
    {
        let id = match self.id.as_rust() {
            Ok(v) => v,
            Err(e) => return Err(e),
        };
        let wav_bytes = self.wav_bytes.to_vec();
        let site_id = match self.site_id.as_rust() {
            Ok(v) => v,
            Err(e) => return Err(e),
        };
        let session_id = match from_nullable(&self.session_id) {
            Ok(v) => v,
            Err(e) => return Err(e),
        };
        Ok(PlayBytesMessage { id, wav_bytes, site_id, session_id })
    }

    /// Frees every block the record owns, skipping null ones.
    pub fn release(self) -> (t: ReleaseTally)
        ensures
            t.strings == 1 + 1 + present(self.session_id),
            t.arrays == 0,
            t.buffers == 1,
            t.boxes == 0,
    {
        ReleaseTally {
            strings: 1 + 1 + count_present(&self.session_id),
            arrays: 0,
            buffers: 1,
            boxes: 0,
        }
    }
}

/// Converting a play bytes message to its foreign form and back gives a message with the
/// same content, and the foreign form always decodes.
pub proof fn lemma_play_bytes_message_round_trip(m: PlayBytesMessage, c: CPlayBytesMessage, back: PlayBytesMessage)
    requires
        c.represents(m),
        c.represents(back),
    ensures
        c.decodable(),
        back.same_content(&m),
{
    lemma_text_round_trip(c.id, m.id@, back.id@);
    lemma_text_round_trip(c.site_id, m.site_id@, back.site_id@);
    lemma_opt_text_round_trip(c.session_id, m.session_id, back.session_id);
}

/// Foreign form of [`AudioFrameMessage`]: a frame of captured audio.
pub struct CAudioFrameMessage {
    /// Owned bytes with their 32-bit length.
    pub wav_frame: ForeignBuffer,
    pub site_id: ForeignString,
}

impl CAudioFrameMessage {
    /// This record is the foreign form of `m`.
    pub open spec fn represents(&self, m: AudioFrameMessage) -> bool {
        self.wav_frame@ == m.wav_frame@
        && represents(self.site_id, m.site_id@)
    }

    /// Every text of this record decodes to native text.
    pub open spec fn decodable(&self) -> bool {
        decodable(self.site_id)
    }

    /// Builds the foreign form of a message, taking ownership of its content.
    pub fn from(msg: AudioFrameMessage) -> (r: Result<Self, FfiError>)
        requires
            msg.fits(),
        ensures
            r is Ok <==> msg.encodable(),
            r matches Ok(c) ==> c.represents(msg),
            r matches Err(e) ==> e == FfiError::InvalidStringEncoding,
    {
        let wav_frame = ForeignBuffer::from_vec(msg.wav_frame);
        let site_id = match ForeignString::from_string(msg.site_id) {
            Ok(v) => v,
            Err(e) => return Err(e),
        };
        Ok(CAudioFrameMessage { wav_frame, site_id })
    }

    /// Copies the content out into a new native message.
    pub fn as_rust(&self) -> (r: Result<AudioFrameMessage, FfiError>)
        ensures
            r is Ok <==> self.decodable(),
            r matches Ok(m) ==> self.represents(m) && m.fits(),
            r matches Err(e) ==> e == FfiError::MalformedForeignInput,
    {
        let wav_frame = self.wav_frame.to_vec();
        let site_id = match self.site_id.as_rust() {
            Ok(v) => v,
            Err(e) => return Err(e),
        };
        Ok(AudioFrameMessage { wav_frame, site_id })
    }

    /// Frees every block the record owns, skipping null ones.
    pub fn release(self) -> (t: ReleaseTally)
        ensures
            t.strings == 1,
            t.arrays == 0,
            t.buffers == 1,
            t.boxes == 0,
    {
        ReleaseTally {
            strings: 1,
            arrays: 0,
            buffers: 1,
            boxes: 0,
        }
    }
}

/// Converting a audio frame message to its foreign form and back gives a message with the
/// same content, and the foreign form always decodes.
pub proof fn lemma_audio_frame_message_round_trip(m: AudioFrameMessage, c: CAudioFrameMessage, back: AudioFrameMessage)
    requires
        c.represents(m),
        c.represents(back),
    ensures
        c.decodable(),
        back.same_content(&m),
{
    lemma_text_round_trip(c.site_id, m.site_id@, back.site_id@);
}

/// Foreign form of [`PlayFinishedMessage`]: a sound finished playing.
pub struct CPlayFinishedMessage {
    pub id: ForeignString,
    pub site_id: ForeignString,
    /// Null when absent.
    pub session_id: Option<ForeignString>,
}

impl CPlayFinishedMessage {
    /// This record is the foreign form of `m`.
    pub open spec fn represents(&self, m: PlayFinishedMessage) -> bool {
        represents(self.id, m.id@)
        && represents(self.site_id, m.site_id@)
        && opt_represents(self.session_id, m.session_id)
    }

    /// Every text of this record decodes to native text.
    pub open spec fn decodable(&self) -> bool {
        decodable(self.id)
        && decodable(self.site_id)
        && opt_decodable(self.session_id)
    }

    /// Builds the foreign form of a message, taking ownership of its content.
    pub fn from(msg: PlayFinishedMessage) -> (r: Result<Self, FfiError>)
        ensures
            r is Ok <==> msg.encodable(),
            r matches Ok(c) ==> c.represents(msg),
            r matches Err(e) ==> e == FfiError::InvalidStringEncoding,
    {
        let id = match ForeignString::from_string(msg.id) {
            Ok(v) => v,
            Err(e) => return Err(e),
        };
        let site_id = match ForeignString::from_string(msg.site_id) {
            Ok(v) => v,
            Err(e) => return Err(e),
        };
        let session_id = match to_nullable(msg.session_id) {
            Ok(v) => v,
            Err(e) => return Err(e),
        };
        Ok(CPlayFinishedMessage { id, site_id, session_id })
    }

    /// Copies the content out into a new native message.
    pub fn as_rust(&self) -> (r: Result<PlayFinishedMessage, FfiError>)
        ensures
            r is Ok <==> self.decodable(),
            r matches Ok(m) ==> self.represents(m),
            r matches Err(e) ==> e == FfiError::MalformedForeignInput,
    {
        let id = match self.id.as_rust() {
            Ok(v) => v,
            Err(e) => return Err(e),
        };
        let site_id = match self.site_id.as_rust() {
            Ok(v) => v,
            Err(e) => return Err(e),
        };
        let session_id = match from_nullable(&self.session_id) {
            Ok(v) => v,
            Err(e) => return Err(e),
        };
        Ok(PlayFinishedMessage { id, site_id, session_id })
    }

    /// Frees every block the record owns, skipping null ones.
    pub fn release(self) -> (t: ReleaseTally)
        ensures
            t.strings == 1 + 1 + present(self.session_id),
            t.arrays == 0,
            t.buffers == 0,
            t.boxes == 0,
    {
        ReleaseTally {
            strings: 1 + 1 + count_present(&self.session_id),
            arrays: 0,
            buffers: 0,
            boxes: 0,
        }
    }
}

/// Converting a play finished message to its foreign form and back gives a message with the
/// same content, and the foreign form always decodes.
pub proof fn lemma_play_finished_message_round_trip(m: PlayFinishedMessage, c: CPlayFinishedMessage, back: PlayFinishedMessage)
    requires
        c.represents(m),
        c.represents(back),
    ensures
        c.decodable(),
        back.same_content(&m),
{
    lemma_text_round_trip(c.id, m.id@, back.id@);
    lemma_text_round_trip(c.site_id, m.site_id@, back.site_id@);
    lemma_opt_text_round_trip(c.session_id, m.session_id, back.session_id);
}

/// Foreign form of [`SayMessage`]: a text to speak.
pub struct CSayMessage {
    pub text: ForeignString,
    /// Null when absent.
    pub lang: Option<ForeignString>,
    /// Null when absent.
    pub id: Option<ForeignString>,
    pub site_id: ForeignString,
    /// Null when absent.
    pub session_id: Option<ForeignString>,
}

impl CSayMessage {
    /// This record is the foreign form of `m`.
    pub open spec fn represents(&self, m: SayMessage) -> bool {
        represents(self.text, m.text@)
        && opt_represents(self.lang, m.lang)
        && opt_represents(self.id, m.id)
        && represents(self.site_id, m.site_id@)
        && opt_represents(self.session_id, m.session_id)
    }

    /// Every text of this record decodes to native text.
    pub open spec fn decodable(&self) -> bool {
        decodable(self.text)
        && opt_decodable(self.lang)
        && opt_decodable(self.id)
        && decodable(self.site_id)
        && opt_decodable(self.session_id)
    }

    /// Builds the foreign form of a message, taking ownership of its content.
    pub fn from(msg: SayMessage) -> (r: Result<Self, FfiError>)
        ensures
            r is Ok <==> msg.encodable(),
            r matches Ok(c) ==> c.represents(msg),
            r matches Err(e) ==> e == FfiError::InvalidStringEncoding,
    {
        let text = match ForeignString::from_string(msg.text) {
            Ok(v) => v,
            Err(e) => return Err(e),
        };
        let lang = match to_nullable(msg.lang) {
            Ok(v) => v,
            Err(e) => return Err(e),
        };
        let id = match to_nullable(msg.id) {
            Ok(v) => v,
            Err(e) => return Err(e),
        };
        let site_id = match ForeignString::from_string(msg.site_id) {
            Ok(v) => v,
            Err(e) => return Err(e),
        };
        let session_id = match to_nullable(msg.session_id) {
            Ok(v) => v,
            Err(e) => return Err(e),
        };
        Ok(CSayMessage { text, lang, id, site_id, session_id })
    }

    /// Copies the content out into a new native message.
    pub fn as_rust(&self) -> (r: Result<SayMessage, FfiError>)
        ensures
            r is Ok <==> self.decodable(),
            r matches Ok(m) ==> self.represents(m),
            r matches Err(e) ==> e == FfiError::MalformedForeignInput,
    {
        let text = match self.text.as_rust() {
            Ok(v) => v,
            Err(e) => return Err(e),
        };
        let lang = match from_nullable(&self.lang) {
            Ok(v) => v,
            Err(e) => return Err(e),
        };
        let id = match from_nullable(&self.id) {
            Ok(v) => v,
            Err(e) => return Err(e),
        };
        let site_id = match self.site_id.as_rust() {
            Ok(v) => v,
            Err(e) => return Err(e),
        };
        let session_id = match from_nullable(&self.session_id) {
            Ok(v) => v,
            Err(e) => return Err(e),
        };
        Ok(SayMessage { text, lang, id, site_id, session_id })
    }

    /// Copies the content out into a new native message.
    pub fn to_say_message(&self) -> (r: Result<SayMessage, FfiError>)
        ensures
            r is Ok <==> self.decodable(),
            r matches Ok(m) ==> self.represents(m),
            r matches Err(e) ==> e == FfiError::MalformedForeignInput,
    {
        self.as_rust()
    }

    /// Frees every block the record owns, skipping null ones.
    pub fn release(self) -> (t: ReleaseTally)
        ensures
            t.strings == 1 + present(self.lang) + present(self.id) + 1 + present(self.session_id),
            t.arrays == 0,
            t.buffers == 0,
            t.boxes == 0,
    {
        ReleaseTally {
            strings: 1 + count_present(&self.lang) + count_present(&self.id) + 1 + count_present(&self.session_id),
            arrays: 0,
            buffers: 0,
            boxes: 0,
        }
    }
}

/// Converting a say message to its foreign form and back gives a message with the
/// same content, and the foreign form always decodes.
pub proof fn lemma_say_message_round_trip(m: SayMessage, c: CSayMessage, back: SayMessage)
    requires
        c.represents(m),
        c.represents(back),
    ensures
        c.decodable(),
        back.same_content(&m),
{
    lemma_text_round_trip(c.text, m.text@, back.text@);
    lemma_opt_text_round_trip(c.lang, m.lang, back.lang);
    lemma_opt_text_round_trip(c.id, m.id, back.id);
    lemma_text_round_trip(c.site_id, m.site_id@, back.site_id@);
    lemma_opt_text_round_trip(c.session_id, m.session_id, back.session_id);
}

/// Foreign form of [`SayFinishedMessage`]: a text finished being spoken.
pub struct CSayFinishedMessage {
    /// Null when absent.
    pub id: Option<ForeignString>,
    /// Null when absent.
    pub session_id: Option<ForeignString>,
}

impl CSayFinishedMessage {
    /// This record is the foreign form of `m`.
    pub open spec fn represents(&self, m: SayFinishedMessage) -> bool {
        opt_represents(self.id, m.id)
        && opt_represents(self.session_id, m.session_id)
    }

    /// Every text of this record decodes to native text.
    pub open spec fn decodable(&self) -> bool {
        opt_decodable(self.id)
        && opt_decodable(self.session_id)
    }

    /// Builds the foreign form of a message, taking ownership of its content.
    pub fn from(msg: SayFinishedMessage) -> (r: Result<Self, FfiError>)
        ensures
            r is Ok <==> msg.encodable(),
            r matches Ok(c) ==> c.represents(msg),
            r matches Err(e) ==> e == FfiError::InvalidStringEncoding,
    {
        let id = match to_nullable(msg.id) {
            Ok(v) => v,
            Err(e) => return Err(e),
        };
        let session_id = match to_nullable(msg.session_id) {
            Ok(v) => v,
            Err(e) => return Err(e),
        };
        Ok(CSayFinishedMessage { id, session_id })
    }

    /// Copies the content out into a new native message.
    pub fn as_rust(&self) -> (r: Result<SayFinishedMessage, FfiError>)
        ensures
            r is Ok <==> self.decodable(),
            r matches Ok(m) ==> self.represents(m),
            r matches Err(e) ==> e == FfiError::MalformedForeignInput,
    {
        let id = match from_nullable(&self.id) {
            Ok(v) => v,
            Err(e) => return Err(e),
        };
        let session_id = match from_nullable(&self.session_id) {
            Ok(v) => v,
            Err(e) => return Err(e),
        };
        Ok(SayFinishedMessage { id, session_id })
    }

    /// Copies the content out into a new native message.
    pub fn to_say_finished_message(&self) -> (r: Result<SayFinishedMessage, FfiError>)
        ensures
            r is Ok <==> self.decodable(),
            r matches Ok(m) ==> self.represents(m),
            r matches Err(e) ==> e == FfiError::MalformedForeignInput,
    {
        self.as_rust()
    }

    /// Frees every block the record owns, skipping null ones.
    pub fn release(self) -> (t: ReleaseTally)
        ensures
            t.strings == present(self.id) + present(self.session_id),
            t.arrays == 0,
            t.buffers == 0,
            t.boxes == 0,
    {
        ReleaseTally {
            strings: count_present(&self.id) + count_present(&self.session_id),
            arrays: 0,
            buffers: 0,
            boxes: 0,
        }
    }
}

/// Converting a say finished message to its foreign form and back gives a message with the
/// same content, and the foreign form always decodes.
pub proof fn lemma_say_finished_message_round_trip(m: SayFinishedMessage, c: CSayFinishedMessage, back: SayFinishedMessage)
    requires
        c.represents(m),
        c.represents(back),
    ensures
        c.decodable(),
        back.same_content(&m),
{
    lemma_opt_text_round_trip(c.id, m.id, back.id);
    lemma_opt_text_round_trip(c.session_id, m.session_id, back.session_id);
}

/// Foreign form of [`NluIntentNotRecognizedMessage`]: no intent matched an input text.
pub struct CNluIntentNotRecognizedMessage {
    pub input: ForeignString,
    /// Null when absent.
    pub id: Option<ForeignString>,
    /// Null when absent.
    pub session_id: Option<ForeignString>,
}

impl CNluIntentNotRecognizedMessage {
    /// This record is the foreign form of `m`.
    pub open spec fn represents(&self, m: NluIntentNotRecognizedMessage) -> bool {
        represents(self.input, m.input@)
        && opt_represents(self.id, m.id)
        && opt_represents(self.session_id, m.session_id)
    }

    /// Every text of this record decodes to native text.
    pub open spec fn decodable(&self) -> bool {
        decodable(self.input)
        && opt_decodable(self.id)
        && opt_decodable(self.session_id)
    }

    /// Builds the foreign form of a message, taking ownership of its content.
    pub fn from(msg: NluIntentNotRecognizedMessage) -> (r: Result<Self, FfiError>)
        ensures
            r is Ok <==> msg.encodable(),
            r matches Ok(c) ==> c.represents(msg),
            r matches Err(e) ==> e == FfiError::InvalidStringEncoding,
    {
        let input = match ForeignString::from_string(msg.input) {
            Ok(v) => v,
            Err(e) => return Err(e),
        };
        let id = match to_nullable(msg.id) {
            Ok(v) => v,
            Err(e) => return Err(e),
        };
        let session_id = match to_nullable(msg.session_id) {
            Ok(v) => v,
            Err(e) => return Err(e),
        };
        Ok(CNluIntentNotRecognizedMessage { input, id, session_id })
    }

    /// Copies the content out into a new native message.
    pub fn as_rust(&self) -> (r: Result<NluIntentNotRecognizedMessage, FfiError>)
        ensures
            r is Ok <==> self.decodable(),
            r matches Ok(m) ==> self.represents(m),
            r matches Err(e) ==> e == FfiError::MalformedForeignInput,
    {
        let input = match self.input.as_rust() {
            Ok(v) => v,
            Err(e) => return Err(e),
        };
        let id = match from_nullable(&self.id) {
            Ok(v) => v,
            Err(e) => return Err(e),
        };
        let session_id = match from_nullable(&self.session_id) {
            Ok(v) => v,
            Err(e) => return Err(e),
        };
        Ok(NluIntentNotRecognizedMessage { input, id, session_id })
    }

    /// Frees every block the record owns, skipping null ones.
    pub fn release(self) -> (t: ReleaseTally)
        ensures
            t.strings == 1 + present(self.id) + present(self.session_id),
            t.arrays == 0,
            t.buffers == 0,
            t.boxes == 0,
    {
        ReleaseTally {
            strings: 1 + count_present(&self.id) + count_present(&self.session_id),
            arrays: 0,
            buffers: 0,
            boxes: 0,
        }
    }
}

/// Converting a nlu intent not recognized message to its foreign form and back gives a message with the
/// same content, and the foreign form always decodes.
pub proof fn lemma_nlu_intent_not_recognized_message_round_trip(m: NluIntentNotRecognizedMessage, c: CNluIntentNotRecognizedMessage, back: NluIntentNotRecognizedMessage)
    requires
        c.represents(m),
        c.represents(back),
    ensures
        c.decodable(),
        back.same_content(&m),
{
    lemma_text_round_trip(c.input, m.input@, back.input@);
    lemma_opt_text_round_trip(c.id, m.id, back.id);
    lemma_opt_text_round_trip(c.session_id, m.session_id, back.session_id);
}

/// Foreign form of [`SessionStartedMessage`]: a dialogue session started.
pub struct CSessionStartedMessage {
    pub session_id: ForeignString,
    /// Null when absent.
    pub custom_data: Option<ForeignString>,
    pub site_id: ForeignString,
    /// Null when absent.
    pub reactivated_from_session_id: Option<ForeignString>,
}

impl CSessionStartedMessage {
    /// This record is the foreign form of `m`.
    pub open spec fn represents(&self, m: SessionStartedMessage) -> bool {
        represents(self.session_id, m.session_id@)
        && opt_represents(self.custom_data, m.custom_data)
        && represents(self.site_id, m.site_id@)
        && opt_represents(self.reactivated_from_session_id, m.reactivated_from_session_id)
    }

    /// Every text of this record decodes to native text.
    pub open spec fn decodable(&self) -> bool {
        decodable(self.session_id)
        && opt_decodable(self.custom_data)
        && decodable(self.site_id)
        && opt_decodable(self.reactivated_from_session_id)
    }

    /// Builds the foreign form of a message, taking ownership of its content.
    pub fn from(msg: SessionStartedMessage) -> (r: Result<Self, FfiError>)
        ensures
            r is Ok <==> msg.encodable(),
            r matches Ok(c) ==> c.represents(msg),
            r matches Err(e) ==> e == FfiError::InvalidStringEncoding,
    {
        let session_id = match ForeignString::from_string(msg.session_id) {
            Ok(v) => v,
            Err(e) => return Err(e),
        };
        let custom_data = match to_nullable(msg.custom_data) {
            Ok(v) => v,
            Err(e) => return Err(e),
        };
        let site_id = match ForeignString::from_string(msg.site_id) {
            Ok(v) => v,
            Err(e) => return Err(e),
        };
        let reactivated_from_session_id = match to_nullable(msg.reactivated_from_session_id) {
            Ok(v) => v,
            Err(e) => return Err(e),
        };
        Ok(CSessionStartedMessage { session_id, custom_data, site_id, reactivated_from_session_id })
    }

    /// Copies the content out into a new native message.
    pub fn as_rust(&self) -> (r: Result<SessionStartedMessage, FfiError>)
        ensures
            r is Ok <==> self.decodable(),
            r matches Ok(m) ==> self.represents(m),
            r matches Err(e) ==> e == FfiError::MalformedForeignInput,
    {
        let session_id = match self.session_id.as_rust() {
            Ok(v) => v,
            Err(e) => return Err(e),
        };
        let custom_data = match from_nullable(&self.custom_data) {
            Ok(v) => v,
            Err(e) => return Err(e),
        };
        let site_id = match self.site_id.as_rust() {
            Ok(v) => v,
            Err(e) => return Err(e),
        };
        let reactivated_from_session_id = match from_nullable(&self.reactivated_from_session_id) {
            Ok(v) => v,
            Err(e) => return Err(e),
        };
        Ok(SessionStartedMessage { session_id, custom_data, site_id, reactivated_from_session_id })
    }

    /// Frees every block the record owns, skipping null ones.
    pub fn release(self) -> (t: ReleaseTally)
        ensures
            t.strings == 1 + present(self.custom_data) + 1 + present(self.reactivated_from_session_id),
            t.arrays == 0,
            t.buffers == 0,
            t.boxes == 0,
    {
        ReleaseTally {
            strings: 1 + count_present(&self.custom_data) + 1 + count_present(&self.reactivated_from_session_id),
            arrays: 0,
            buffers: 0,
            boxes: 0,
        }
    }
}

/// Converting a session started message to its foreign form and back gives a message with the
/// same content, and the foreign form always decodes.
pub proof fn lemma_session_started_message_round_trip(m: SessionStartedMessage, c: CSessionStartedMessage, back: SessionStartedMessage)
    requires
        c.represents(m),
        c.represents(back),
    ensures
        c.decodable(),
        back.same_content(&m),
{
    lemma_text_round_trip(c.session_id, m.session_id@, back.session_id@);
    lemma_opt_text_round_trip(c.custom_data, m.custom_data, back.custom_data);
    lemma_text_round_trip(c.site_id, m.site_id@, back.site_id@);
    lemma_opt_text_round_trip(c.reactivated_from_session_id, m.reactivated_from_session_id, back.reactivated_from_session_id);
}

/// Foreign form of [`SessionQueuedMessage`]: a dialogue session waits for its site.
pub struct CSessionQueuedMessage {
    pub session_id: ForeignString,
    /// Null when absent.
    pub custom_data: Option<ForeignString>,
    pub site_id: ForeignString,
}

impl CSessionQueuedMessage {
    /// This record is the foreign form of `m`.
    pub open spec fn represents(&self, m: SessionQueuedMessage) -> bool {
        represents(self.session_id, m.session_id@)
        && opt_represents(self.custom_data, m.custom_data)
        && represents(self.site_id, m.site_id@)
    }

    /// Every text of this record decodes to native text.
    pub open spec fn decodable(&self) -> bool {
        decodable(self.session_id)
        && opt_decodable(self.custom_data)
        && decodable(self.site_id)
    }

    /// Builds the foreign form of a message, taking ownership of its content.
    pub fn from(msg: SessionQueuedMessage) -> (r: Result<Self, FfiError>)
        ensures
            r is Ok <==> msg.encodable(),
            r matches Ok(c) ==> c.represents(msg),
            r matches Err(e) ==> e == FfiError::InvalidStringEncoding,
    {
        let session_id = match ForeignString::from_string(msg.session_id) {
            Ok(v) => v,
            Err(e) => return Err(e),
        };
        let custom_data = match to_nullable(msg.custom_data) {
            Ok(v) => v,
            Err(e) => return Err(e),
        };
        let site_id = match ForeignString::from_string(msg.site_id) {
            Ok(v) => v,
            Err(e) => return Err(e),
        };
        Ok(CSessionQueuedMessage { session_id, custom_data, site_id })
    }

    /// Copies the content out into a new native message.
    pub fn as_rust(&self) -> (r: Result<SessionQueuedMessage, FfiError>)
        ensures
            r is Ok <==> self.decodable(),
            r matches Ok(m) ==> self.represents(m),
            r matches Err(e) ==> e == FfiError::MalformedForeignInput,
    {
        let session_id = match self.session_id.as_rust() {
            Ok(v) => v,
            Err(e) => return Err(e),
        };
        let custom_data = match from_nullable(&self.custom_data) {
            Ok(v) => v,
            Err(e) => return Err(e),
        };
        let site_id = match self.site_id.as_rust() {
            Ok(v) => v,
            Err(e) => return Err(e),
        };
        Ok(SessionQueuedMessage { session_id, custom_data, site_id })
    }

    /// Frees every block the record owns, skipping null ones.
    pub fn release(self) -> (t: ReleaseTally)
        ensures
            t.strings == 1 + present(self.custom_data) + 1,
            t.arrays == 0,
            t.buffers == 0,
            t.boxes == 0,
    {
        ReleaseTally {
            strings: 1 + count_present(&self.custom_data) + 1,
            arrays: 0,
            buffers: 0,
            boxes: 0,
        }
    }
}

/// Converting a session queued message to its foreign form and back gives a message with the
/// same content, and the foreign form always decodes.
pub proof fn lemma_session_queued_message_round_trip(m: SessionQueuedMessage, c: CSessionQueuedMessage, back: SessionQueuedMessage)
    requires
        c.represents(m),
        c.represents(back),
    ensures
        c.decodable(),
        back.same_content(&m),
{
    lemma_text_round_trip(c.session_id, m.session_id@, back.session_id@);
    lemma_opt_text_round_trip(c.custom_data, m.custom_data, back.custom_data);
    lemma_text_round_trip(c.site_id, m.site_id@, back.site_id@);
}

/// Foreign form of [`ContinueSessionMessage`]: a dialogue session goes on with a new prompt.
pub struct CContinueSessionMessage {
    pub session_id: ForeignString,
    pub text: ForeignString,
    /// Null when absent.
    pub intent_filter: Option<ForeignStringArray>,
}

impl CContinueSessionMessage {
    /// This record is the foreign form of `m`.
    pub open spec fn represents(&self, m: ContinueSessionMessage) -> bool {
        represents(self.session_id, m.session_id@)
        && represents(self.text, m.text@)
        && opt_array_represents(self.intent_filter, m.intent_filter)
    }

    /// Every text of this record decodes to native text.
    pub open spec fn decodable(&self) -> bool {
        decodable(self.session_id)
        && decodable(self.text)
        && opt_array_decodable(self.intent_filter)
    }

    /// Builds the foreign form of a message, taking ownership of its content.
    pub fn from(msg: ContinueSessionMessage) -> (r: Result<Self, FfiError>)
        requires
            msg.fits(),
        ensures
            r is Ok <==> msg.encodable(),
            r matches Ok(c) ==> c.represents(msg),
            r matches Err(e) ==> e == FfiError::InvalidStringEncoding,
    {
        let session_id = match ForeignString::from_string(msg.session_id) {
            Ok(v) => v,
            Err(e) => return Err(e),
        };
        let text = match ForeignString::from_string(msg.text) {
            Ok(v) => v,
            Err(e) => return Err(e),
        };
        let intent_filter = match to_nullable_array(msg.intent_filter) {
            Ok(v) => v,
            Err(e) => return Err(e),
        };
        Ok(CContinueSessionMessage { session_id, text, intent_filter })
    }

    /// Copies the content out into a new native message.
    pub fn as_rust(&self) -> (r: Result<ContinueSessionMessage, FfiError>)
        ensures
            r is Ok <==> self.decodable(),
            r matches Ok(m) ==> self.represents(m) && m.fits(),
            r matches Err(e) ==> e == FfiError::MalformedForeignInput,
    {
        let session_id = match self.session_id.as_rust() {
            Ok(v) => v,
            Err(e) => return Err(e),
        };
        let text = match self.text.as_rust() {
            Ok(v) => v,
            Err(e) => return Err(e),
        };
        let intent_filter = match from_nullable_array(&self.intent_filter) {
            Ok(v) => v,
            Err(e) => return Err(e),
        };
        Ok(ContinueSessionMessage { session_id, text, intent_filter })
    }

    /// Copies the content out into a new native message.
    pub fn to_continue_session_message(&self) -> (r: Result<ContinueSessionMessage, FfiError>)
        ensures
            r is Ok <==> self.decodable(),
            r matches Ok(m) ==> self.represents(m) && m.fits(),
            r matches Err(e) ==> e == FfiError::MalformedForeignInput,
    {
        self.as_rust()
    }

    /// Frees every block the record owns, skipping null ones.
    pub fn release(self) -> (t: ReleaseTally)
        ensures
            t.strings == 1 + 1,
            t.arrays == present(self.intent_filter),
            t.buffers == 0,
            t.boxes == 0,
    {
        ReleaseTally {
            strings: 1 + 1,
            arrays: count_present(&self.intent_filter),
            buffers: 0,
            boxes: 0,
        }
    }
}

/// Converting a continue session message to its foreign form and back gives a message with the
/// same content, and the foreign form always decodes.
pub proof fn lemma_continue_session_message_round_trip(m: ContinueSessionMessage, c: CContinueSessionMessage, back: ContinueSessionMessage)
    requires
        c.represents(m),
        c.represents(back),
    ensures
        c.decodable(),
        back.same_content(&m),
{
    lemma_text_round_trip(c.session_id, m.session_id@, back.session_id@);
    lemma_text_round_trip(c.text, m.text@, back.text@);
    lemma_opt_array_round_trip(c.intent_filter, m.intent_filter, back.intent_filter);
}

/// Foreign form of [`EndSessionMessage`]: a request to end a dialogue session.
pub struct CEndSessionMessage {
    pub session_id: ForeignString,
    /// Null when absent.
    pub text: Option<ForeignString>,
}

impl CEndSessionMessage {
    /// This record is the foreign form of `m`.
    pub open spec fn represents(&self, m: EndSessionMessage) -> bool {
        represents(self.session_id, m.session_id@)
        && opt_represents(self.text, m.text)
    }

    /// Every text of this record decodes to native text.
    pub open spec fn decodable(&self) -> bool {
        decodable(self.session_id)
        && opt_decodable(self.text)
    }

    /// Builds the foreign form of a message, taking ownership of its content.
    pub fn from(msg: EndSessionMessage) -> (r: Result<Self, FfiError>)
        ensures
            r is Ok <==> msg.encodable(),
            r matches Ok(c) ==> c.represents(msg),
            r matches Err(e) ==> e == FfiError::InvalidStringEncoding,
    {
        let session_id = match ForeignString::from_string(msg.session_id) {
            Ok(v) => v,
            Err(e) => return Err(e),
        };
        let text = match to_nullable(msg.text) {
            Ok(v) => v,
            Err(e) => return Err(e),
        };
        Ok(CEndSessionMessage { session_id, text })
    }

    /// Copies the content out into a new native message.
    pub fn as_rust(&self) -> (r: Result<EndSessionMessage, FfiError>)
        ensures
            r is Ok <==> self.decodable(),
            r matches Ok(m) ==> self.represents(m),
            r matches Err(e) ==> e == FfiError::MalformedForeignInput,
    {
        let session_id = match self.session_id.as_rust() {
            Ok(v) => v,
            Err(e) => return Err(e),
        };
        let text = match from_nullable(&self.text) {
            Ok(v) => v,
            Err(e) => return Err(e),
        };
        Ok(EndSessionMessage { session_id, text })
    }

    /// Copies the content out into a new native message.
    pub fn to_end_session_message(&self) -> (r: Result<EndSessionMessage, FfiError>)
        ensures
            r is Ok <==> self.decodable(),
            r matches Ok(m) ==> self.represents(m),
            r matches Err(e) ==> e == FfiError::MalformedForeignInput,
    {
        self.as_rust()
    }

    /// Frees every block the record owns, skipping null ones.
    pub fn release(self) -> (t: ReleaseTally)
        ensures
            t.strings == 1 + present(self.text),
            t.arrays == 0,
            t.buffers == 0,
            t.boxes == 0,
    {
        ReleaseTally {
            strings: 1 + count_present(&self.text),
            arrays: 0,
            buffers: 0,
            boxes: 0,
        }
    }
}

/// Converting a end session message to its foreign form and back gives a message with the
/// same content, and the foreign form always decodes.
pub proof fn lemma_end_session_message_round_trip(m: EndSessionMessage, c: CEndSessionMessage, back: EndSessionMessage)
    requires
        c.represents(m),
        c.represents(back),
    ensures
        c.decodable(),
        back.same_content(&m),
{
    lemma_text_round_trip(c.session_id, m.session_id@, back.session_id@);
    lemma_opt_text_round_trip(c.text, m.text, back.text);
}

/// Foreign form of [`ErrorMessage`]: an error reported by a component.
pub struct CErrorMessage {
    /// Null when absent.
    pub session_id: Option<ForeignString>,
    pub error: ForeignString,
    /// Null when absent.
    pub context: Option<ForeignString>,
}

impl CErrorMessage {
    /// This record is the foreign form of `m`.
    pub open spec fn represents(&self, m: ErrorMessage) -> bool {
        opt_represents(self.session_id, m.session_id)
        && represents(self.error, m.error@)
        && opt_represents(self.context, m.context)
    }

    /// Every text of this record decodes to native text.
    pub open spec fn decodable(&self) -> bool {
        opt_decodable(self.session_id)
        && decodable(self.error)
        && opt_decodable(self.context)
    }

    /// Builds the foreign form of a message, taking ownership of its content.
    pub fn from(msg: ErrorMessage) -> (r: Result<Self, FfiError>)
        ensures
            r is Ok <==> msg.encodable(),
            r matches Ok(c) ==> c.represents(msg),
            r matches Err(e) ==> e == FfiError::InvalidStringEncoding,
    {
        let session_id = match to_nullable(msg.session_id) {
            Ok(v) => v,
            Err(e) => return Err(e),
        };
        let error = match ForeignString::from_string(msg.error) {
            Ok(v) => v,
            Err(e) => return Err(e),
        };
        let context = match to_nullable(msg.context) {
            Ok(v) => v,
            Err(e) => return Err(e),
        };
        Ok(CErrorMessage { session_id, error, context })
    }

    /// Copies the content out into a new native message.
    pub fn as_rust(&self) -> (r: Result<ErrorMessage, FfiError>)
        ensures
            r is Ok <==> self.decodable(),
            r matches Ok(m) ==> self.represents(m),
            r matches Err(e) ==> e == FfiError::MalformedForeignInput,
    {
        let session_id = match from_nullable(&self.session_id) {
            Ok(v) => v,
            Err(e) => return Err(e),
        };
        let error = match self.error.as_rust() {
            Ok(v) => v,
            Err(e) => return Err(e),
        };
        let context = match from_nullable(&self.context) {
            Ok(v) => v,
            Err(e) => return Err(e),
        };
        Ok(ErrorMessage { session_id, error, context })
    }

    /// Frees every block the record owns, skipping null ones.
    pub fn release(self) -> (t: ReleaseTally)
        ensures
            t.strings == present(self.session_id) + 1 + present(self.context),
            t.arrays == 0,
            t.buffers == 0,
            t.boxes == 0,
    {
        ReleaseTally {
            strings: count_present(&self.session_id) + 1 + count_present(&self.context),
            arrays: 0,
            buffers: 0,
            boxes: 0,
        }
    }
}

/// Converting a error message to its foreign form and back gives a message with the
/// same content, and the foreign form always decodes.
pub proof fn lemma_error_message_round_trip(m: ErrorMessage, c: CErrorMessage, back: ErrorMessage)
    requires
        c.represents(m),
        c.represents(back),
    ensures
        c.decodable(),
        back.same_content(&m),
{
    lemma_opt_text_round_trip(c.session_id, m.session_id, back.session_id);
    lemma_text_round_trip(c.error, m.error@, back.error@);
    lemma_opt_text_round_trip(c.context, m.context, back.context);
}


} // verus!
