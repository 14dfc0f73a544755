use hermes_ffi::error::FfiError;
use hermes_ffi::messages::{
    CAudioFrameMessage, CContinueSessionMessage, CEndSessionMessage, CErrorMessage,
    CHotwordDetectedMessage, CNluQueryMessage, CPlayBytesMessage, CSayFinishedMessage,
    CSayMessage, CSessionStartedMessage, CSiteMessage, CTextCapturedMessage,
};
use hermes_ffi::native::{
    AudioFrameMessage, ContinueSessionMessage, EndSessionMessage, ErrorMessage,
    HotwordDetectedMessage, IntentMessage, NluIntentMessage, NluQueryMessage, NluSlotMessage,
    PlayBytesMessage, SayFinishedMessage, SayMessage, SessionEndedMessage, SessionInit,
    SessionStartedMessage, SessionTerminationType, SiteMessage, StartSessionMessage,
    TextCapturedMessage, Version, VersionMessage,
};
use hermes_ffi::nlu::{CIntentMessage, CNluIntentMessage, CNluSlotMessage};
use hermes_ffi::primitives::{ForeignString, ForeignStringArray, ReleaseTally};
use hermes_ffi::session::{
    CActionSessionInit, CSessionEndedMessage, CSessionInit, CSessionInitType, CSessionInitValue,
    CSessionTermination, CSessionTerminationType, CStartSessionMessage, CVersionMessage,
};

fn s(v: &str) -> String {
    v.to_string()
}

fn tally(strings: usize, arrays: usize, buffers: usize, boxes: usize) -> ReleaseTally {
    ReleaseTally { strings, arrays, buffers, boxes }
}

#[test]
fn site_message_example() {
    let m = SiteMessage { site_id: s("kitchen"), session_id: Some(s("abc123")) };
    let c = match CSiteMessage::from(m.clone()) {
        Ok(c) => c,
        Err(e) => panic!("{:?}", e),
    };
    assert_eq!(c.site_id.to_bytes(), b"kitchen".to_vec());
    let session = c.session_id.as_ref().expect("session id is not null");
    assert_eq!(session.to_bytes(), b"abc123".to_vec());
    assert_eq!(c.as_rust(), Ok(m));
    assert_eq!(c.release(), tally(2, 0, 0, 0));
}

#[test]
fn site_message_absent_session_is_null() {
    let m = SiteMessage { site_id: s("kitchen"), session_id: None };
    let c = CSiteMessage::from(m.clone()).ok().expect("encodable");
    assert!(c.session_id.is_none());
    assert_eq!(c.as_rust(), Ok(m));
    assert_eq!(c.release(), tally(1, 0, 0, 0));
}

#[test]
fn embedded_terminator_is_rejected() {
    let m = SiteMessage { site_id: s("kit\0chen"), session_id: None };
    assert_eq!(CSiteMessage::from(m).err(), Some(FfiError::InvalidStringEncoding));
    let m = SiteMessage { site_id: s("kitchen"), session_id: Some(s("\0")) };
    assert_eq!(CSiteMessage::from(m).err(), Some(FfiError::InvalidStringEncoding));
}

#[test]
fn terminator_in_intent_filter_is_rejected() {
    let m = NluQueryMessage {
        input: s("turn on the lights"),
        intent_filter: Some(vec![s("lights"), s("bad\0name")]),
        id: None,
        session_id: None,
    };
    assert_eq!(CNluQueryMessage::from(m).err(), Some(FfiError::InvalidStringEncoding));
}

#[test]
fn foreign_string_keeps_utf8_bytes() {
    let f = ForeignString::from_string(s("café")).ok().expect("encodable");
    assert_eq!(f.to_bytes(), vec![0x63, 0x61, 0x66, 0xc3, 0xa9]);
    assert_eq!(f.as_rust(), Ok(s("café")));
}

#[test]
fn foreign_string_refuses_terminator_bytes() {
    assert_eq!(ForeignString::from_bytes(vec![0x61, 0, 0x62]).err(), Some(FfiError::InvalidStringEncoding));
}

#[test]
fn invalid_utf8_is_malformed() {
    let f = ForeignString::from_bytes(vec![0x61, 0xff]).ok().expect("no terminator");
    assert_eq!(f.as_rust(), Err(FfiError::MalformedForeignInput));
    let c = CSiteMessage { site_id: f, session_id: None };
    assert_eq!(c.as_rust(), Err(FfiError::MalformedForeignInput));
}

#[test]
fn string_array_count_and_round_trip() {
    let v = vec![s("a"), s("bb"), s("ccc")];
    let a = ForeignStringArray::from_strings(v.clone()).ok().expect("encodable");
    assert_eq!(a.count(), 3);
    assert_eq!(a.as_rust(), Ok(v));
}

#[test]
fn hotword_round_trip() {
    let m = HotwordDetectedMessage { site_id: s("default"), model_id: s("hey_snips") };
    let c = CHotwordDetectedMessage::from(m.clone()).ok().expect("encodable");
    assert_eq!(c.as_rust(), Ok(m));
    assert_eq!(c.release(), tally(2, 0, 0, 0));
}

#[test]
fn text_captured_round_trip() {
    let m = TextCapturedMessage {
        text: s("hello"),
        likelihood: 0.75f32.to_bits(),
        seconds: 1.5f32.to_bits(),
        site_id: s("default"),
        session_id: Some(s("s1")),
    };
    let c = CTextCapturedMessage::from(m.clone()).ok().expect("encodable");
    assert_eq!(f32::from_bits(c.likelihood), 0.75f32);
    assert_eq!(c.as_rust(), Ok(m));
}

#[test]
fn nlu_query_round_trip_with_filter() {
    let m = NluQueryMessage {
        input: s("turn on the lights"),
        intent_filter: Some(vec![s("lights"), s("music")]),
        id: Some(s("42")),
        session_id: None,
    };
    let c = CNluQueryMessage::from(m.clone()).ok().expect("encodable");
    assert_eq!(c.intent_filter.as_ref().map(|a| a.count()), Some(2));
    assert_eq!(c.as_rust(), Ok(m));
    assert_eq!(c.release(), tally(2, 1, 0, 0));
}

#[test]
fn nlu_query_absent_filter_stays_absent() {
    let m = NluQueryMessage { input: s("hi"), intent_filter: None, id: None, session_id: None };
    let c = CNluQueryMessage::from(m.clone()).ok().expect("encodable");
    assert!(c.intent_filter.is_none() && c.id.is_none() && c.session_id.is_none());
    assert_eq!(c.as_rust(), Ok(m));
    assert_eq!(c.release(), tally(1, 0, 0, 0));
}

#[test]
fn play_bytes_round_trip() {
    let m = PlayBytesMessage {
        id: s("sound"),
        wav_bytes: vec![0, 1, 2, 255],
        site_id: s("default"),
        session_id: None,
    };
    let c = CPlayBytesMessage::from(m.clone()).ok().expect("encodable");
    assert_eq!(c.wav_bytes.len(), 4);
    assert_eq!(c.as_rust(), Ok(m));
    assert_eq!(c.release(), tally(2, 0, 1, 0));
}

#[test]
fn audio_frame_round_trip_empty() {
    let m = AudioFrameMessage { wav_frame: vec![], site_id: s("default") };
    let c = CAudioFrameMessage::from(m.clone()).ok().expect("encodable");
    assert_eq!(c.wav_frame.len(), 0);
    assert_eq!(c.as_rust(), Ok(m));
    assert_eq!(c.release(), tally(1, 0, 1, 0));
}

#[test]
fn say_round_trip() {
    let m = SayMessage {
        text: s("bonjour"),
        lang: Some(s("fr")),
        id: None,
        site_id: s("default"),
        session_id: Some(s("s2")),
    };
    let c = CSayMessage::from(m.clone()).ok().expect("encodable");
    assert_eq!(c.to_say_message(), Ok(m));
    assert_eq!(c.release(), tally(4, 0, 0, 0));
}

#[test]
fn say_finished_all_null_release() {
    let m = SayFinishedMessage { id: None, session_id: None };
    let c = CSayFinishedMessage::from(m.clone()).ok().expect("encodable");
    assert_eq!(c.to_say_finished_message(), Ok(m));
    assert_eq!(c.release(), tally(0, 0, 0, 0));
}

#[test]
fn session_started_round_trip() {
    let m = SessionStartedMessage {
        session_id: s("s3"),
        custom_data: None,
        site_id: s("default"),
        reactivated_from_session_id: Some(s("s1")),
    };
    let c = CSessionStartedMessage::from(m.clone()).ok().expect("encodable");
    assert_eq!(c.as_rust(), Ok(m));
}

#[test]
fn continue_and_end_session_round_trip() {
    let m = ContinueSessionMessage {
        session_id: s("s4"),
        text: s("which room?"),
        intent_filter: Some(vec![s("room")]),
    };
    let c = CContinueSessionMessage::from(m.clone()).ok().expect("encodable");
    assert_eq!(c.to_continue_session_message(), Ok(m));
    let m = EndSessionMessage { session_id: s("s4"), text: None };
    let c = CEndSessionMessage::from(m.clone()).ok().expect("encodable");
    assert_eq!(c.to_end_session_message(), Ok(m));
}

#[test]
fn error_message_round_trip() {
    let m = ErrorMessage { session_id: None, error: s("boom"), context: Some(s("ctx")) };
    let c = CErrorMessage::from(m.clone()).ok().expect("encodable");
    assert_eq!(c.as_rust(), Ok(m));
    assert_eq!(c.release(), tally(2, 0, 0, 0));
}

#[test]
fn action_session_init_round_trip_and_release() {
    let init = SessionInit::Action {
        text: Some(s("what can I do?")),
        intent_filter: Some(vec![s("lights"), s("music")]),
        can_be_enqueued: true,
    };
    let c = CSessionInit::from(init.clone()).ok().expect("encodable");
    assert_eq!(c.init_type, CSessionInitType::Action);
    assert_eq!(c.init_type.as_raw(), 1);
    assert_eq!(c.to_session_init(), Ok(init));
    assert_eq!(c.release(), tally(1, 1, 0, 1));
}

#[test]
fn notification_session_init_round_trip_and_release() {
    let init = SessionInit::Notification { text: s("the oven is hot") };
    let c = CSessionInit::from(init.clone()).ok().expect("encodable");
    assert_eq!(c.init_type, CSessionInitType::Notification);
    assert_eq!(c.init_type.as_raw(), 2);
    assert_eq!(c.to_session_init(), Ok(init));
    assert_eq!(c.release(), tally(1, 0, 0, 0));
}

#[test]
fn action_session_init_flag_byte() {
    let a = CActionSessionInit::new(None, None, false).ok().expect("encodable");
    assert_eq!(a.can_be_enqueued, 0);
    let b = CActionSessionInit::new(None, None, true).ok().expect("encodable");
    assert_eq!(b.can_be_enqueued, 1);
    let bad = CActionSessionInit { text: None, intent_filter: None, can_be_enqueued: 2 };
    assert_eq!(bad.to_action_session_init(), Err(FfiError::MalformedForeignInput));
    assert_eq!(
        a.to_action_session_init(),
        Ok(SessionInit::Action { text: None, intent_filter: None, can_be_enqueued: false })
    );
}

#[test]
fn mismatched_discriminant_is_malformed() {
    let f = ForeignString::from_string(s("hello")).ok().expect("encodable");
    let c = CSessionInit { init_type: CSessionInitType::Action, value: CSessionInitValue::Notification(f) };
    assert_eq!(c.to_session_init(), Err(FfiError::MalformedForeignInput));
}

#[test]
fn raw_discriminants() {
    assert_eq!(CSessionInitType::from_raw(1), Ok(CSessionInitType::Action));
    assert_eq!(CSessionInitType::from_raw(2), Ok(CSessionInitType::Notification));
    assert_eq!(CSessionInitType::from_raw(0), Err(FfiError::MalformedForeignInput));
    assert_eq!(CSessionInitType::from_raw(3), Err(FfiError::MalformedForeignInput));
    assert_eq!(CSessionTerminationType::from_raw(6), Ok(CSessionTerminationType::Error));
    assert_eq!(CSessionTerminationType::from_raw(7), Err(FfiError::MalformedForeignInput));
    assert_eq!(CSessionTerminationType::Timeout.as_raw(), 5);
    assert_eq!(CSessionTerminationType::Nominal.as_raw(), 1);
}

#[test]
fn start_session_round_trip() {
    let m = StartSessionMessage {
        init: SessionInit::Notification { text: s("hi") },
        custom_data: Some(s("data")),
        site_id: None,
    };
    let c = CStartSessionMessage::from(m.clone()).ok().expect("encodable");
    assert_eq!(c.to_start_session_message(), Ok(m));
    assert_eq!(c.release(), tally(2, 0, 0, 0));
}

#[test]
fn start_session_rejects_terminator_in_notification() {
    let m = StartSessionMessage {
        init: SessionInit::Notification { text: s("a\0b") },
        custom_data: None,
        site_id: None,
    };
    assert_eq!(CStartSessionMessage::from(m).err(), Some(FfiError::InvalidStringEncoding));
}

#[test]
fn termination_encoding() {
    let t = CSessionTermination::from(SessionTerminationType::Timeout).ok().expect("encodable");
    assert_eq!(t.termination_type, CSessionTerminationType::Timeout);
    assert!(t.data.is_none());
    assert_eq!(t.as_rust(), Ok(SessionTerminationType::Timeout));
    let e = SessionTerminationType::Error { error: s("no mic") };
    let t = CSessionTermination::from(e.clone()).ok().expect("encodable");
    assert_eq!(t.termination_type, CSessionTerminationType::Error);
    assert_eq!(t.as_rust(), Ok(e));
    assert_eq!(t.release(), tally(1, 0, 0, 0));
}

#[test]
fn termination_payload_on_wrong_kind_is_malformed() {
    let f = ForeignString::from_string(s("oops")).ok().expect("encodable");
    let t = CSessionTermination { termination_type: CSessionTerminationType::Nominal, data: Some(f) };
    assert_eq!(t.as_rust(), Err(FfiError::MalformedForeignInput));
    let t = CSessionTermination { termination_type: CSessionTerminationType::Error, data: None };
    assert_eq!(t.as_rust(), Err(FfiError::MalformedForeignInput));
}

#[test]
fn session_ended_round_trip() {
    let m = SessionEndedMessage {
        session_id: s("s5"),
        custom_data: None,
        termination: SessionTerminationType::Error { error: s("failed") },
        site_id: s("default"),
    };
    let c = CSessionEndedMessage::from(m.clone()).ok().expect("encodable");
    assert_eq!(c.as_rust(), Ok(m));
    assert_eq!(c.release(), tally(3, 0, 0, 0));
}

#[test]
fn version_round_trip() {
    let m = VersionMessage { version: Version { major: 0, minor: 62, patch: 3 } };
    let c = CVersionMessage::from(&m).ok().expect("always converts");
    assert_eq!((c.major, c.minor, c.patch), (0, 62, 3));
    assert_eq!(c.as_rust(), m);
}

#[test]
fn slot_result_has_no_reverse_conversion() {
    let m = NluSlotMessage {
        id: None,
        input: s("in the kitchen"),
        intent_name: s("lights"),
        slot: Some(7u32),
        session_id: None,
    };
    let c = CNluSlotMessage::from(m).ok().expect("encodable");
    assert_eq!(c.slot.as_deref(), Some(&7u32));
    assert_eq!(c.as_rust().err(), Some(FfiError::UnsupportedReverseConversion));
    assert_eq!(c.release(), tally(2, 0, 0, 1));
}

#[test]
fn intent_result_has_no_reverse_conversion() {
    let m = NluIntentMessage {
        id: Some(s("1")),
        input: s("play music"),
        intent: s("music"),
        slots: None::<Vec<u8>>,
        session_id: None,
    };
    let c = CNluIntentMessage::from(m).ok().expect("encodable");
    assert!(c.slots.is_none());
    assert_eq!(c.as_rust().err(), Some(FfiError::UnsupportedReverseConversion));
    assert_eq!(c.release(), tally(2, 0, 0, 1));
}

#[test]
fn intent_message_moves_opaque_results() {
    let m = IntentMessage {
        session_id: s("s6"),
        custom_data: None,
        site_id: s("default"),
        input: s("lights on"),
        intent: 3u8,
        slots: Some(vec![1u8, 2]),
    };
    let c = CIntentMessage::from(m).ok().expect("encodable");
    assert_eq!(*c.intent, 3u8);
    assert_eq!(c.slots.as_deref(), Some(&vec![1u8, 2]));
    assert_eq!(c.release(), tally(3, 0, 0, 2));
}
