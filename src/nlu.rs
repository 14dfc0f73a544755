use vstd::prelude::*;

use crate::error::FfiError;
use crate::native::{IntentMessage, NluIntentMessage, NluSlotMessage};
use crate::primitives::{
    count_present, opaque_moved, opt_represents, present, represents, to_nullable, ForeignString,
    ReleaseTally,
};

verus! {

/// Foreign form of [`NluSlotMessage`]: the slot found for a slot query.
pub struct CNluSlotMessage<S> {
    /// Null when absent.
    pub id: Option<ForeignString>,
    pub input: ForeignString,
    pub intent_name: ForeignString,
    /// Null when absent.
    pub slot: Option<Box<S>>,
    /// Null when absent.
    pub session_id: Option<ForeignString>,
}

impl<S> CNluSlotMessage<S> {
    /// This record is the foreign form of `m`.
    pub open spec fn represents(&self, m: NluSlotMessage<S>) -> bool {
        opt_represents(self.id, m.id)
        && represents(self.input, m.input@)
        && represents(self.intent_name, m.intent_name@)
        && opaque_moved(self.slot, m.slot)
        && opt_represents(self.session_id, m.session_id)
    }

    /// Builds the foreign form of a message, taking ownership of its content.
    pub fn from(msg: NluSlotMessage<S>) -> (r: Result<Self, FfiError>)
        ensures
            r is Ok <==> msg.encodable(),
            r matches Ok(c) ==> c.represents(msg),
            r matches Err(e) ==> e == FfiError::InvalidStringEncoding,
    {
        let id = match to_nullable(msg.id) {
            Ok(v) => v,
            Err(e) => return Err(e),
        };
        let input = match ForeignString::from_string(msg.input) {
            Ok(v) => v,
            Err(e) => return Err(e),
        };
        let intent_name = match ForeignString::from_string(msg.intent_name) {
            Ok(v) => v,
            Err(e) => return Err(e),
        };
        let slot = match msg.slot {
            Some(v) => Some(Box::new(v)),
            None => None,
        };
        let session_id = match to_nullable(msg.session_id) {
            Ok(v) => v,
            Err(e) => return Err(e),
        };
        Ok(CNluSlotMessage { id, input, intent_name, slot, session_id })
    }

    /// Copying out is not offered: the slot carry no copy-out routine, so this
    /// always fails, whatever the other fields hold.
    pub fn as_rust(&self) -> (r: Result<NluSlotMessage<S>, FfiError>)
        ensures
            r == Err::<NluSlotMessage<S>, FfiError>(FfiError::UnsupportedReverseConversion),
    {
        Err(FfiError::UnsupportedReverseConversion)
    }

    /// Frees every block the record owns, skipping null ones.
    pub fn release(self) -> (t: ReleaseTally)
        ensures
            t.strings == present(self.id) + 1 + 1 + present(self.session_id),
            t.arrays == 0,
            t.buffers == 0,
            t.boxes == present(self.slot),
    {
        ReleaseTally {
            strings: count_present(&self.id) + 1 + 1 + count_present(&self.session_id),
            arrays: 0,
            buffers: 0,
            boxes: count_present(&self.slot),
        }
    }
}

/// Foreign form of [`NluIntentMessage`]: the intent found for an input text.
pub struct CNluIntentMessage<I, L> {
    /// Null when absent.
    pub id: Option<ForeignString>,
    pub input: ForeignString,
    /// Opaque payload, moved and freed but never read.
    pub intent: Box<I>,
    /// Null when absent.
    pub slots: Option<Box<L>>,
    /// Null when absent.
    pub session_id: Option<ForeignString>,
}

impl<I, L> CNluIntentMessage<I, L> {
    /// This record is the foreign form of `m`.
    pub open spec fn represents(&self, m: NluIntentMessage<I, L>) -> bool {
        opt_represents(self.id, m.id)
        && represents(self.input, m.input@)
        && *self.intent == m.intent
        && opaque_moved(self.slots, m.slots)
        && opt_represents(self.session_id, m.session_id)
    }

    /// Builds the foreign form of a message, taking ownership of its content.
    pub fn from(msg: NluIntentMessage<I, L>) -> (r: Result<Self, FfiError>)
        ensures
            r is Ok <==> msg.encodable(),
            r matches Ok(c) ==> c.represents(msg),
            r matches Err(e) ==> e == FfiError::InvalidStringEncoding,
    {
        let id = match to_nullable(msg.id) {
            Ok(v) => v,
            Err(e) => return Err(e),
        };
        let input = match ForeignString::from_string(msg.input) {
            Ok(v) => v,
            Err(e) => return Err(e),
        };
        let intent = Box::new(msg.intent);
        let slots = match msg.slots {
            Some(v) => Some(Box::new(v)),
            None => None,
        };
        let session_id = match to_nullable(msg.session_id) {
            Ok(v) => v,
            Err(e) => return Err(e),
        };
        Ok(CNluIntentMessage { id, input, intent, slots, session_id })
    }

    /// Copying out is not offered: the classifier result and the slot list carry no copy-out routine, so this
    /// always fails, whatever the other fields hold.
    pub fn as_rust(&self) -> (r: Result<NluIntentMessage<I, L>, FfiError>)
        ensures
            r == Err::<NluIntentMessage<I, L>, FfiError>(FfiError::UnsupportedReverseConversion),
    {
        Err(FfiError::UnsupportedReverseConversion)
    }

    /// Frees every block the record owns, skipping null ones.
    pub fn release(self) -> (t: ReleaseTally)
        ensures
            t.strings == present(self.id) + 1 + present(self.session_id),
            t.arrays == 0,
            t.buffers == 0,
            t.boxes == 1 + present(self.slots),
    {
        ReleaseTally {
            strings: count_present(&self.id) + 1 + count_present(&self.session_id),
            arrays: 0,
            buffers: 0,
            boxes: 1 + count_present(&self.slots),
        }
    }
}

/// Foreign form of [`IntentMessage`]: an intent found within a dialogue session, for its consumers.
pub struct CIntentMessage<I, L> {
    pub session_id: ForeignString,
    /// Null when absent.
    pub custom_data: Option<ForeignString>,
    pub site_id: ForeignString,
    pub input: ForeignString,
    /// Opaque payload, moved and freed but never read.
    pub intent: Box<I>,
    /// Null when absent.
    pub slots: Option<Box<L>>,
}

impl<I, L> CIntentMessage<I, L> {
    /// This record is the foreign form of `m`.
    pub open spec fn represents(&self, m: IntentMessage<I, L>) -> bool {
        represents(self.session_id, m.session_id@)
        && opt_represents(self.custom_data, m.custom_data)
        && represents(self.site_id, m.site_id@)
        && represents(self.input, m.input@)
        && *self.intent == m.intent
        && opaque_moved(self.slots, m.slots)
    }

    /// Builds the foreign form of a message, taking ownership of its content.
    pub fn from(msg: IntentMessage<I, L>) -> (r: Result<Self, FfiError>)
        ensures
            r is Ok <==> msg.encodable(),
            r matches Ok(c) ==> c.represents(msg),
            r matches Err(e) ==> e == FfiError::InvalidStringEncoding,
    {
        let session_id = match ForeignString::from_string(msg.session_id) {
            Ok(v) => v,
            Err(e) => return Err(e),
        };
        let custom_data = match to_nullable(msg.custom_data) {
            Ok(v) => v,
            Err(e) => return Err(e),
        };
        let site_id = match ForeignString::from_string(msg.site_id) {
            Ok(v) => v,
            Err(e) => return Err(e),
        };
        let input = match ForeignString::from_string(msg.input) {
            Ok(v) => v,
            Err(e) => return Err(e),
        };
        let intent = Box::new(msg.intent);
        let slots = match msg.slots {
            Some(v) => Some(Box::new(v)),
            None => None,
        };
        Ok(CIntentMessage { session_id, custom_data, site_id, input, intent, slots })
    }

    /// Frees every block the record owns, skipping null ones.
    pub fn release(self) -> (t: ReleaseTally)
        ensures
            t.strings == 1 + present(self.custom_data) + 1 + 1,
            t.arrays == 0,
            t.buffers == 0,
            t.boxes == 1 + present(self.slots),
    {
        ReleaseTally {
            strings: 1 + count_present(&self.custom_data) + 1 + 1,
            arrays: 0,
            buffers: 0,
            boxes: 1 + count_present(&self.slots),
        }
    }
}


} // verus!
