use vstd::prelude::*;

use crate::error::FfiError;
use crate::native::{
    SessionEndedMessage, SessionInit, SessionTerminationType, StartSessionMessage, Version,
    VersionMessage,
};
use crate::primitives::{
    count_present, decodable, from_nullable, from_nullable_array, lemma_opt_array_round_trip,
    lemma_opt_text_round_trip, lemma_text_round_trip, opt_all_encodable, opt_all_fits,
    opt_array_decodable, opt_array_represents, opt_decodable, opt_encodable, opt_represents,
    present, represents, to_nullable, to_nullable_array, ForeignString, ForeignStringArray,
    ReleaseTally,
};

verus! {

/// Discriminant of the session-initiation union.
#[derive(Debug, Clone, Copy, PartialEq, Eq, Structural)]
pub enum CSessionInitType {
    Action,
    Notification,
}

impl CSessionInitType {
    /// The fixed-width value of the discriminant, numbered from one.
    pub open spec fn raw(self) -> i32 {
        match self {
            CSessionInitType::Action => 1,
            CSessionInitType::Notification => 2,
        }
    }

    /// The discriminant of a native initiation mode.
    pub fn from(init: &SessionInit) -> (r: Self)
        ensures
            r == CSessionInitType::Action <==> init is Action,
    {
        match init {
            SessionInit::Notification { .. } => CSessionInitType::Notification,
            SessionInit::Action { .. } => CSessionInitType::Action,
        }
    }

    /// The fixed-width value of the discriminant.
    pub fn as_raw(&self) -> (r: i32)
        ensures
            r == self.raw(),
    {
        match self {
            CSessionInitType::Action => 1,
            CSessionInitType::Notification => 2,
        }
    }

    /// Reads a discriminant, refusing a value outside its range.
    pub fn from_raw(v: i32) -> (r: Result<Self, FfiError>)
        ensures
            r is Ok <==> (v == 1 || v == 2),
            r matches Ok(t) ==> t.raw() == v,
            r matches Err(e) ==> e == FfiError::MalformedForeignInput,
    {
        if v == 1 {
            Ok(CSessionInitType::Action)
        } else if v == 2 {
            Ok(CSessionInitType::Notification)
        } else {
            Err(FfiError::MalformedForeignInput)
        }
    }
}

/// The byte that stands for a boolean: one for true, zero for false.
pub open spec fn bool_byte(b: bool) -> u8 {
    if b { 1 } else { 0 }
}

/// Foreign payload of the action initiation mode.
pub struct CActionSessionInit {
    /// Null when absent.
    pub text: Option<ForeignString>,
    /// Null when absent.
    pub intent_filter: Option<ForeignStringArray>,
    /// One for true, zero for false.
    pub can_be_enqueued: u8,
}

impl CActionSessionInit {
    /// This payload is the foreign form of the action mode `init`.
    pub open spec fn represents(&self, init: SessionInit) -> bool {
        match init {
            SessionInit::Action { text, intent_filter, can_be_enqueued } => opt_represents(
                self.text,
                text,
            ) && opt_array_represents(self.intent_filter, intent_filter) && self.can_be_enqueued
                == bool_byte(can_be_enqueued),
            SessionInit::Notification { .. } => false,
        }
    }

    /// Every text decodes and the flag byte is zero or one.
    pub open spec fn decodable(&self) -> bool {
        opt_decodable(self.text) && opt_array_decodable(self.intent_filter) && (
        self.can_be_enqueued == 0 || self.can_be_enqueued == 1)
    }

    /// Builds the payload of the action mode, taking ownership of its content.
    pub fn new(text: Option<String>, intent_filter: Option<Vec<String>>, can_be_enqueued: bool) -> (r:
        Result<Self, FfiError>)
        requires
            opt_all_fits(intent_filter),
        ensures
            r is Ok <==> opt_encodable(text) && opt_all_encodable(intent_filter),
            r matches Ok(c) ==> c.represents(
                SessionInit::Action { text, intent_filter, can_be_enqueued },
            ),
            r matches Err(e) ==> e == FfiError::InvalidStringEncoding,
    {
        let text = match to_nullable(text) {
            Ok(v) => v,
            Err(e) => return Err(e),
        };
        let intent_filter = match to_nullable_array(intent_filter) {
            Ok(v) => v,
            Err(e) => return Err(e),
        };
        let can_be_enqueued: u8 = if can_be_enqueued { 1 } else { 0 };
        Ok(CActionSessionInit { text, intent_filter, can_be_enqueued })
    }

    /// Copies the payload out into a new native action mode.
    pub fn to_action_session_init(&self) -> (r: Result<SessionInit, FfiError>)
        ensures
            r is Ok <==> self.decodable(),
            r matches Ok(i) ==> self.represents(i) && i.fits(),
            r matches Err(e) ==> e == FfiError::MalformedForeignInput,
    {
        let text = match from_nullable(&self.text) {
            Ok(v) => v,
            Err(e) => return Err(e),
        };
        let intent_filter = match from_nullable_array(&self.intent_filter) {
            Ok(v) => v,
            Err(e) => return Err(e),
        };
        let can_be_enqueued = if self.can_be_enqueued == 1 {
            true
        } else if self.can_be_enqueued == 0 {
            false
        } else {
            return Err(FfiError::MalformedForeignInput);
        };
        Ok(SessionInit::Action { text, intent_filter, can_be_enqueued })
    }

    /// Frees every block the payload owns, skipping null ones.
    pub fn release(self) -> (t: ReleaseTally)
        ensures
            t.strings == present(self.text),
            t.arrays == present(self.intent_filter),
            t.buffers == 0,
            t.boxes == 0,
    {
        ReleaseTally {
            strings: count_present(&self.text),
            arrays: count_present(&self.intent_filter),
            buffers: 0,
            boxes: 0,
        }
    }
}

/// The payload of the session-initiation union, one variant per discriminant.
pub enum CSessionInitValue {
    Action(Box<CActionSessionInit>),
    Notification(ForeignString),
}

/// Foreign form of [`SessionInit`]: a discriminant and the payload it announces.
pub struct CSessionInit {
    pub init_type: CSessionInitType,
    pub value: CSessionInitValue,
}

impl CSessionInit {
    /// The discriminant announces the variant that the payload holds.
    pub open spec fn consistent(&self) -> bool {
        match self.value {
            CSessionInitValue::Action(_) => self.init_type == CSessionInitType::Action,
            CSessionInitValue::Notification(_) => self.init_type == CSessionInitType::Notification,
        }
    }

    /// This record is the foreign form of `init`.
    pub open spec fn represents(&self, init: SessionInit) -> bool {
        self.consistent() && match (self.value, init) {
            (CSessionInitValue::Action(a), SessionInit::Action { .. }) => a.represents(init),
            (CSessionInitValue::Notification(f), SessionInit::Notification { text }) => represents(
                f,
                text@,
            ),
            _ => false,
        }
    }

    /// The discriminant matches the payload and the payload decodes.
    pub open spec fn decodable(&self) -> bool {
        self.consistent() && match self.value {
            CSessionInitValue::Action(a) => a.decodable(),
            CSessionInitValue::Notification(f) => decodable(f),
        }
    }

    /// Builds the foreign form of an initiation mode, taking ownership of its content.
    pub fn from(init: SessionInit) -> (r: Result<Self, FfiError>)
        requires
            init.fits(),
        ensures
            r is Ok <==> init.encodable(),
            r matches Ok(c) ==> c.represents(init),
            r matches Err(e) ==> e == FfiError::InvalidStringEncoding,
    {
        let init_type = CSessionInitType::from(&init);
        let value = match init {
            SessionInit::Action { text, intent_filter, can_be_enqueued } => {
                match CActionSessionInit::new(text, intent_filter, can_be_enqueued) {
                    Ok(a) => CSessionInitValue::Action(Box::new(a)),
                    Err(e) => return Err(e),
                }
            },
            SessionInit::Notification { text } => match ForeignString::from_string(text) {
                Ok(f) => CSessionInitValue::Notification(f),
                Err(e) => return Err(e),
            },
        };
        Ok(CSessionInit { init_type, value })
    }

    /// Copies the union out, refusing a discriminant that does not match the payload.
    pub fn to_session_init(&self) -> (r: Result<SessionInit, FfiError>)
        ensures
            r is Ok <==> self.decodable(),
            r matches Ok(i) ==> self.represents(i) && i.fits(),
            r matches Err(e) ==> e == FfiError::MalformedForeignInput,
    {
        match (&self.init_type, &self.value) {
            (CSessionInitType::Action, CSessionInitValue::Action(a)) => a.to_action_session_init(),
            (CSessionInitType::Notification, CSessionInitValue::Notification(f)) => {
                match f.as_rust() {
                    Ok(text) => Ok(SessionInit::Notification { text }),
                    Err(e) => Err(e),
                }
            },
            _ => Err(FfiError::MalformedForeignInput),
        }
    }

    /// Frees the payload as its variant requires: the action sub-record with what
    /// it owns, or the notification string.
    pub fn release(self) -> (t: ReleaseTally)
        ensures
            match self.value {
                CSessionInitValue::Action(a) => t.strings == present(a.text) && t.arrays == present(
                    a.intent_filter,
                ) && t.buffers == 0 && t.boxes == 1,
                CSessionInitValue::Notification(_) => t.strings == 1 && t.arrays == 0 && t.buffers
                    == 0 && t.boxes == 0,
            },
    {
        match self.value {
            CSessionInitValue::Action(a) => {
                let inner = a.release();
                ReleaseTally { boxes: 1, ..inner }
            },
            CSessionInitValue::Notification(_) => ReleaseTally {
                strings: 1,
                arrays: 0,
                buffers: 0,
                boxes: 0,
            },
        }
    }
}

/// Converting an initiation mode to its foreign form and back gives the same
/// variant with the same content, and the foreign form always decodes.
pub proof fn lemma_session_init_round_trip(m: SessionInit, c: CSessionInit, back: SessionInit)
    requires
        c.represents(m),
        c.represents(back),
    ensures
        c.decodable(),
        back.same_content(&m),
{
    match (c.value, m, back) {
        (
            CSessionInitValue::Action(a),
            SessionInit::Action { text: t1, intent_filter: f1, .. },
            SessionInit::Action { text: t2, intent_filter: f2, .. },
        ) => {
            lemma_opt_text_round_trip(a.text, t1, t2);
            lemma_opt_array_round_trip(a.intent_filter, f1, f2);
        },
        (
            CSessionInitValue::Notification(f),
            SessionInit::Notification { text: t1 },
            SessionInit::Notification { text: t2 },
        ) => {
            lemma_text_round_trip(f, t1@, t2@);
        },
        _ => {},
    }
}

/// Foreign form of [`StartSessionMessage`]: a request to start a dialogue session.
pub struct CStartSessionMessage {
    pub init: CSessionInit,
    /// Null when absent.
    pub custom_data: Option<ForeignString>,
    /// Null when absent.
    pub site_id: Option<ForeignString>,
}

impl CStartSessionMessage {
    /// This record is the foreign form of `m`.
    pub open spec fn represents(&self, m: StartSessionMessage) -> bool {
        self.init.represents(m.init) && opt_represents(self.custom_data, m.custom_data)
            && opt_represents(self.site_id, m.site_id)
    }

    /// The union is consistent and every text decodes.
    pub open spec fn decodable(&self) -> bool {
        self.init.decodable() && opt_decodable(self.custom_data) && opt_decodable(self.site_id)
    }

    /// Builds the foreign form of a message, taking ownership of its content.
    pub fn from(msg: StartSessionMessage) -> (r: Result<Self, FfiError>)
        requires
            msg.fits(),
        ensures
            r is Ok <==> msg.encodable(),
            r matches Ok(c) ==> c.represents(msg),
            r matches Err(e) ==> e == FfiError::InvalidStringEncoding,
    {
        let init = match CSessionInit::from(msg.init) {
            Ok(v) => v,
            Err(e) => return Err(e),
        };
        let custom_data = match to_nullable(msg.custom_data) {
            Ok(v) => v,
            Err(e) => return Err(e),
        };
        let site_id = match to_nullable(msg.site_id) {
            Ok(v) => v,
            Err(e) => return Err(e),
        };
        Ok(CStartSessionMessage { init, custom_data, site_id })
    }

    /// Copies the content out into a new native message.
    pub fn as_rust(&self) -> (r: Result<StartSessionMessage, FfiError>)
        ensures
            r is Ok <==> self.decodable(),
            r matches Ok(m) ==> self.represents(m) && m.fits(),
            r matches Err(e) ==> e == FfiError::MalformedForeignInput,
    {
        let init = match self.init.to_session_init() {
            Ok(v) => v,
            Err(e) => return Err(e),
        };
        let custom_data = match from_nullable(&self.custom_data) {
            Ok(v) => v,
            Err(e) => return Err(e),
        };
        let site_id = match from_nullable(&self.site_id) {
            Ok(v) => v,
            Err(e) => return Err(e),
        };
        Ok(StartSessionMessage { init, custom_data, site_id })
    }

    /// Copies the content out into a new native message.
    pub fn to_start_session_message(&self) -> (r: Result<StartSessionMessage, FfiError>)
        ensures
            r is Ok <==> self.decodable(),
            r matches Ok(m) ==> self.represents(m) && m.fits(),
            r matches Err(e) ==> e == FfiError::MalformedForeignInput,
    {
        self.as_rust()
    }

    /// Frees every block the record owns, the union's payload included, skipping
    /// null ones.
    pub fn release(self) -> (t: ReleaseTally)
        ensures
            match self.init.value {
                CSessionInitValue::Action(a) => t.strings == present(a.text) + present(
                    self.custom_data,
                ) + present(self.site_id) && t.arrays == present(a.intent_filter) && t.boxes
                    == 1,
                CSessionInitValue::Notification(_) => t.strings == 1 + present(self.custom_data)
                    + present(self.site_id) && t.arrays == 0 && t.boxes == 0,
            },
            t.buffers == 0,
    {
        let inner = self.init.release();
        let own = count_present(&self.custom_data) + count_present(&self.site_id);
        ReleaseTally { strings: inner.strings + own, ..inner }
    }
}

/// Converting a start-session message to its foreign form and back gives a
/// message with the same content, and the foreign form always decodes.
pub proof fn lemma_start_session_message_round_trip(
    m: StartSessionMessage,
    c: CStartSessionMessage,
    back: StartSessionMessage,
)
    requires
        c.represents(m),
        c.represents(back),
    ensures
        c.decodable(),
        back.same_content(&m),
{
    lemma_session_init_round_trip(m.init, c.init, back.init);
    lemma_opt_text_round_trip(c.custom_data, m.custom_data, back.custom_data);
    lemma_opt_text_round_trip(c.site_id, m.site_id, back.site_id);
}

/// Discriminant of the session-termination reason.
#[derive(Debug, Clone, Copy, PartialEq, Eq, Structural)]
pub enum CSessionTerminationType {
    Nominal,
    SiteUnavailable,
    AbortedByUser,
    IntentNotRecognized,
    Timeout,
    Error,
}

/// The discriminant of a native termination reason.
pub open spec fn termination_kind(t: SessionTerminationType) -> CSessionTerminationType {
    match t {
        SessionTerminationType::Nominal => CSessionTerminationType::Nominal,
        SessionTerminationType::SiteUnavailable => CSessionTerminationType::SiteUnavailable,
        SessionTerminationType::AbortedByUser => CSessionTerminationType::AbortedByUser,
        SessionTerminationType::IntentNotRecognized => CSessionTerminationType::IntentNotRecognized,
        SessionTerminationType::Timeout => CSessionTerminationType::Timeout,
        SessionTerminationType::Error { .. } => CSessionTerminationType::Error,
    }
}

impl CSessionTerminationType {
    /// The fixed-width value of the discriminant, numbered from one.
    pub open spec fn raw(self) -> i32 {
        match self {
            CSessionTerminationType::Nominal => 1,
            CSessionTerminationType::SiteUnavailable => 2,
            CSessionTerminationType::AbortedByUser => 3,
            CSessionTerminationType::IntentNotRecognized => 4,
            CSessionTerminationType::Timeout => 5,
            CSessionTerminationType::Error => 6,
        }
    }

    /// The discriminant of a native termination reason.
    pub fn from(t: &SessionTerminationType) -> (r: Self)
        ensures
            r == termination_kind(*t),
    {
        match t {
            SessionTerminationType::Nominal => CSessionTerminationType::Nominal,
            SessionTerminationType::SiteUnavailable => CSessionTerminationType::SiteUnavailable,
            SessionTerminationType::AbortedByUser => CSessionTerminationType::AbortedByUser,
            SessionTerminationType::IntentNotRecognized => {
                CSessionTerminationType::IntentNotRecognized
            },
            SessionTerminationType::Timeout => CSessionTerminationType::Timeout,
            SessionTerminationType::Error { .. } => CSessionTerminationType::Error,
        }
    }

    /// The fixed-width value of the discriminant.
    pub fn as_raw(&self) -> (r: i32)
        ensures
            r == self.raw(),
    {
        match self {
            CSessionTerminationType::Nominal => 1,
            CSessionTerminationType::SiteUnavailable => 2,
            CSessionTerminationType::AbortedByUser => 3,
            CSessionTerminationType::IntentNotRecognized => 4,
            CSessionTerminationType::Timeout => 5,
            CSessionTerminationType::Error => 6,
        }
    }

    /// Reads a discriminant, refusing a value outside its range.
    pub fn from_raw(v: i32) -> (r: Result<Self, FfiError>)
        ensures
            r is Ok <==> 1 <= v <= 6,
            r matches Ok(t) ==> t.raw() == v,
            r matches Err(e) ==> e == FfiError::MalformedForeignInput,
    {
        if v == 1 {
            Ok(CSessionTerminationType::Nominal)
        } else if v == 2 {
            Ok(CSessionTerminationType::SiteUnavailable)
        } else if v == 3 {
            Ok(CSessionTerminationType::AbortedByUser)
        } else if v == 4 {
            Ok(CSessionTerminationType::IntentNotRecognized)
        } else if v == 5 {
            Ok(CSessionTerminationType::Timeout)
        } else if v == 6 {
            Ok(CSessionTerminationType::Error)
        } else {
            Err(FfiError::MalformedForeignInput)
        }
    }
}

/// Foreign form of [`SessionTerminationType`]: a reason and, for the error kind
/// only, its text.
pub struct CSessionTermination {
    pub termination_type: CSessionTerminationType,
    /// Null for every kind but the error kind.
    pub data: Option<ForeignString>,
}

impl CSessionTermination {
    /// This record is the foreign form of `t`.
    pub open spec fn represents(&self, t: SessionTerminationType) -> bool {
        self.termination_type == termination_kind(t) && match t {
            SessionTerminationType::Error { error } => match self.data {
                Some(f) => represents(f, error@),
                None => false,
            },
            _ => self.data is None,
        }
    }

    /// The error kind carries a text that decodes; every other kind carries none.
    pub open spec fn decodable(&self) -> bool {
        match self.termination_type {
            CSessionTerminationType::Error => match self.data {
                Some(f) => decodable(f),
                None => false,
            },
            _ => self.data is None,
        }
    }

    /// Builds the foreign form of a termination reason.
    pub fn from(t: SessionTerminationType) -> (r: Result<Self, FfiError>)
        ensures
            r is Ok <==> t.encodable(),
            r matches Ok(c) ==> c.represents(t),
            r matches Err(e) ==> e == FfiError::InvalidStringEncoding,
    {
        let termination_type = CSessionTerminationType::from(&t);
        let data = match t {
            SessionTerminationType::Error { error } => match ForeignString::from_string(error) {
                Ok(f) => Some(f),
                Err(e) => return Err(e),
            },
            _ => None,
        };
        Ok(CSessionTermination { termination_type, data })
    }

    /// Copies the reason out, refusing a missing error text or a text on any other
    /// kind.
    pub fn as_rust(&self) -> (r: Result<SessionTerminationType, FfiError>)
        ensures
            r is Ok <==> self.decodable(),
            r matches Ok(t) ==> self.represents(t),
            r matches Err(e) ==> e == FfiError::MalformedForeignInput,
    {
        match (&self.termination_type, &self.data) {
            (CSessionTerminationType::Error, Some(f)) => match f.as_rust() {
                Ok(error) => Ok(SessionTerminationType::Error { error }),
                Err(e) => Err(e),
            },
            (CSessionTerminationType::Error, None) => Err(FfiError::MalformedForeignInput),
            (_, Some(_)) => Err(FfiError::MalformedForeignInput),
            (CSessionTerminationType::Nominal, None) => Ok(SessionTerminationType::Nominal),
            (CSessionTerminationType::SiteUnavailable, None) => Ok(
                SessionTerminationType::SiteUnavailable,
            ),
            (CSessionTerminationType::AbortedByUser, None) => Ok(
                SessionTerminationType::AbortedByUser,
            ),
            (CSessionTerminationType::IntentNotRecognized, None) => Ok(
                SessionTerminationType::IntentNotRecognized,
            ),
            (CSessionTerminationType::Timeout, None) => Ok(SessionTerminationType::Timeout),
        }
    }

    /// Frees the error text when there is one.
    pub fn release(self) -> (t: ReleaseTally)
        ensures
            t.strings == present(self.data),
            t.arrays == 0,
            t.buffers == 0,
            t.boxes == 0,
    {
        ReleaseTally { strings: count_present(&self.data), arrays: 0, buffers: 0, boxes: 0 }
    }
}

/// Converting a termination reason to its foreign form and back gives the same
/// reason, and the foreign form always decodes.
pub proof fn lemma_session_termination_round_trip(
    m: SessionTerminationType,
    c: CSessionTermination,
    back: SessionTerminationType,
)
    requires
        c.represents(m),
        c.represents(back),
    ensures
        c.decodable(),
        back.same_content(&m),
{
    if let (Some(f), SessionTerminationType::Error { error: a }) = (c.data, m) {
        if let SessionTerminationType::Error { error: b } = back {
            lemma_text_round_trip(f, a@, b@);
        }
    }
}

/// Foreign form of [`SessionEndedMessage`]: a dialogue session ended.
pub struct CSessionEndedMessage {
    pub session_id: ForeignString,
    /// Null when absent.
    pub custom_data: Option<ForeignString>,
    pub termination: CSessionTermination,
    pub site_id: ForeignString,
}

impl CSessionEndedMessage {
    /// This record is the foreign form of `m`.
    pub open spec fn represents(&self, m: SessionEndedMessage) -> bool {
        represents(self.session_id, m.session_id@) && opt_represents(
            self.custom_data,
            m.custom_data,
        ) && self.termination.represents(m.termination) && represents(self.site_id, m.site_id@)
    }

    /// Every text decodes and the reason is well formed.
    pub open spec fn decodable(&self) -> bool {
        decodable(self.session_id) && opt_decodable(self.custom_data)
            && self.termination.decodable() && decodable(self.site_id)
    }

    /// Builds the foreign form of a message, taking ownership of its content.
    pub fn from(msg: SessionEndedMessage) -> (r: Result<Self, FfiError>)
        ensures
            r is Ok <==> msg.encodable(),
            r matches Ok(c) ==> c.represents(msg),
            r matches Err(e) ==> e == FfiError::InvalidStringEncoding,
    {
        let session_id = match ForeignString::from_string(msg.session_id) {
            Ok(v) => v,
            Err(e) => return Err(e),
        };
        let custom_data = match to_nullable(msg.custom_data) {
            Ok(v) => v,
            Err(e) => return Err(e),
        };
        let termination = match CSessionTermination::from(msg.termination) {
            Ok(v) => v,
            Err(e) => return Err(e),
        };
        let site_id = match ForeignString::from_string(msg.site_id) {
            Ok(v) => v,
            Err(e) => return Err(e),
        };
        Ok(CSessionEndedMessage { session_id, custom_data, termination, site_id })
    }

    /// Copies the content out into a new native message.
    pub fn as_rust(&self) -> (r: Result<SessionEndedMessage, FfiError>)
        ensures
            r is Ok <==> self.decodable(),
            r matches Ok(m) ==> self.represents(m),
            r matches Err(e) ==> e == FfiError::MalformedForeignInput,
    {
        let session_id = match self.session_id.as_rust() {
            Ok(v) => v,
            Err(e) => return Err(e),
        };
        let custom_data = match from_nullable(&self.custom_data) {
            Ok(v) => v,
            Err(e) => return Err(e),
        };
        let termination = match self.termination.as_rust() {
            Ok(v) => v,
            Err(e) => return Err(e),
        };
        let site_id = match self.site_id.as_rust() {
            Ok(v) => v,
            Err(e) => return Err(e),
        };
        Ok(SessionEndedMessage { session_id, custom_data, termination, site_id })
    }

    /// Frees every block the record owns, skipping null ones.
    pub fn release(self) -> (t: ReleaseTally)
        ensures
            t.strings == 2 + present(self.custom_data) + present(self.termination.data),
            t.arrays == 0,
            t.buffers == 0,
            t.boxes == 0,
    {
        let inner = self.termination.release();
        ReleaseTally {
            strings: 2 + count_present(&self.custom_data) + inner.strings,
            arrays: 0,
            buffers: 0,
            boxes: 0,
        }
    }
}

/// Converting a session-ended message to its foreign form and back gives a
/// message with the same content, and the foreign form always decodes.
pub proof fn lemma_session_ended_message_round_trip(
    m: SessionEndedMessage,
    c: CSessionEndedMessage,
    back: SessionEndedMessage,
)
    requires
        c.represents(m),
        c.represents(back),
    ensures
        c.decodable(),
        back.same_content(&m),
{
    lemma_text_round_trip(c.session_id, m.session_id@, back.session_id@);
    lemma_opt_text_round_trip(c.custom_data, m.custom_data, back.custom_data);
    lemma_session_termination_round_trip(m.termination, c.termination, back.termination);
    lemma_text_round_trip(c.site_id, m.site_id@, back.site_id@);
}

/// Foreign form of [`VersionMessage`]: three integer components.
pub struct CVersionMessage {
    pub major: u64,
    pub minor: u64,
    pub patch: u64,
}

impl CVersionMessage {
    /// This record is the foreign form of `m`.
    pub open spec fn represents(&self, m: VersionMessage) -> bool {
        self.major == m.version.major && self.minor == m.version.minor && self.patch
            == m.version.patch
    }

    /// Copies the three components of a version.
    pub fn from(msg: &VersionMessage) -> (r: Result<Self, FfiError>)
        ensures
            r matches Ok(c) && c.represents(*msg),
    {
        Ok(CVersionMessage {
            major: msg.version.major,
            minor: msg.version.minor,
            patch: msg.version.patch,
        })
    }

    /// Copies the three components out into a new native message.
    pub fn as_rust(&self) -> (r: VersionMessage)
        ensures
            self.represents(r),
    {
        VersionMessage {
            version: Version { major: self.major, minor: self.minor, patch: self.patch },
        }
    }
}

/// Converting a version message to its foreign form and back gives the same
/// message.
pub proof fn lemma_version_message_round_trip(
    m: VersionMessage,
    c: CVersionMessage,
    back: VersionMessage,
)
    requires
        c.represents(m),
        c.represents(back),
    ensures
        back == m,
{
}

} // verus!
