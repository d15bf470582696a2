//! Decoding and encoding of tagged-union wire objects, end to end through
//! JSON text.

use rtdlib::call_server_type::CallServerType;
use rtdlib::call_server_type::CallServerTypeWebrtc;
use rtdlib::chat_member_status::ChatMemberStatus;
use rtdlib::errors::DecodeError;
use rtdlib::errors::EncodeError;
use rtdlib::errors::FieldKind;
use rtdlib::formatted_text::FormattedText;
use rtdlib::input_file::InputFile;
use rtdlib::input_sticker::InputSticker;
use rtdlib::input_sticker::InputStickerStatic;
use rtdlib::mask_position::MaskPosition;
use rtdlib::message_copy_options::MessageCopyOptions;
use rtdlib::page_block::PageBlock;
use rtdlib::poll_type::PollType;
use rtdlib::poll_type::PollTypeQuiz;
use rtdlib::poll_type::PollTypeRegular;
use rtdlib::robject::RObject;
use rtdlib::supergroup::Supergroup;
use rtdlib::web_page_instant_view::WebPageInstantView;

fn jval(s: &str) -> serde_json::Value {
    serde_json::from_str(s).expect("test text must be valid JSON")
}

#[test]
fn poll_type_regular_decodes_from_wire_object() {
    let decoded =
        PollType::from_json("{\"@type\":\"pollTypeRegular\",\"allow_multiple_answers\":true}")
            .expect("must decode");
    assert!(decoded.is_regular());
    assert!(!decoded.is_quiz());
    assert!(!decoded._is_default());
    let regular = decoded.as_regular().expect("regular variant active");
    assert!(regular.allow_multiple_answers());
}

#[test]
fn poll_type_regular_reencodes_to_the_same_object() {
    let text = "{\"@type\":\"pollTypeRegular\",\"allow_multiple_answers\":true}";
    let decoded = PollType::from_json(text).expect("must decode");
    let encoded = decoded.to_json().expect("concrete variant encodes");
    assert_eq!(jval(&encoded), jval(text));
}

#[test]
fn poll_type_bogus_tag_is_rejected() {
    let r = PollType::from_json("{\"@type\":\"pollTypeBogus\"}");
    assert_eq!(r, Err(DecodeError::UnknownOrMissingTag));
}

#[test]
fn poll_type_missing_tag_is_rejected() {
    let r = PollType::from_json("{\"allow_multiple_answers\":true}");
    assert_eq!(r, Err(DecodeError::UnknownOrMissingTag));
    let r = PollType::from_json("17");
    assert_eq!(r, Err(DecodeError::UnknownOrMissingTag));
    let r = PollType::from_json("null");
    assert_eq!(r, Err(DecodeError::UnknownOrMissingTag));
}

#[test]
fn poll_type_quiz_round_trips_with_nested_text() {
    let mut text_builder = FormattedText::new(String::from("the right answer"));
    let mut builder = PollTypeQuiz::builder();
    builder.correct_option_id(3);
    builder.explanation(text_builder.clone());
    let quiz = builder.build();
    let union = PollType::quiz(quiz.clone());
    let encoded = union.to_json().expect("concrete variant encodes");
    let back = PollType::from_json(&encoded).expect("own output decodes");
    assert_eq!(back, union);
    let back_quiz = back.as_quiz().expect("quiz variant active");
    assert_eq!(back_quiz.correct_option_id(), 3);
    assert_eq!(back_quiz.explanation().text(), text_builder.text());
    text_builder = FormattedText::new(String::from("unused"));
    assert_eq!(text_builder.text(), "unused");
}

#[test]
fn quiz_missing_required_field_names_it() {
    let r = PollTypeQuiz::from_json("{\"@type\":\"pollTypeQuiz\"}");
    assert_eq!(
        r,
        Err(DecodeError::MissingField(String::from("correct_option_id")))
    );
}

#[test]
fn quiz_missing_second_field_names_it() {
    let r = PollTypeQuiz::from_json("{\"@type\":\"pollTypeQuiz\",\"correct_option_id\":1}");
    assert_eq!(r, Err(DecodeError::MissingField(String::from("explanation"))));
}

#[test]
fn wrong_kind_reports_type_mismatch() {
    let r = PollTypeRegular::from_json(
        "{\"@type\":\"pollTypeRegular\",\"allow_multiple_answers\":7}",
    );
    assert_eq!(
        r,
        Err(DecodeError::TypeMismatch(
            String::from("allow_multiple_answers"),
            FieldKind::Bool
        ))
    );
}

#[test]
fn malformed_text_reports_invalid_json() {
    let r = PollType::from_json("{\"@type\":");
    assert_eq!(r, Err(DecodeError::InvalidJson));
}

#[test]
fn sentinel_default_refuses_to_encode() {
    let d = PollType::default();
    assert!(d._is_default());
    assert_eq!(d.to_json(), Err(EncodeError::UndefinedVariant));
    assert_eq!(
        CallServerType::default().to_json(),
        Err(EncodeError::UndefinedVariant)
    );
    assert_eq!(
        InputSticker::default().to_json(),
        Err(EncodeError::UndefinedVariant)
    );
}

#[test]
fn sentinel_answers_the_internal_placeholder_tag() {
    assert_eq!(PollType::default().td_name(), "-1");
    assert_eq!(CallServerType::default().td_name(), "-1");
    assert_eq!(InputSticker::default().td_name(), "-1");
    assert_eq!(InputFile::default().td_name(), "-1");
}

#[test]
fn discriminator_carries_the_declared_tag() {
    let regular = {
        let mut b = PollTypeRegular::builder();
        b.allow_multiple_answers(false);
        b.build()
    };
    let union = PollType::regular(regular);
    assert_eq!(union.td_name(), "pollTypeRegular");
    let encoded = union.to_json().expect("concrete variant encodes");
    let parsed = jval(&encoded);
    assert_eq!(
        parsed.get("@type").and_then(|t| t.as_str()),
        Some("pollTypeRegular")
    );
}

#[test]
fn call_server_webrtc_round_trips() {
    let mut b = CallServerTypeWebrtc::builder();
    b.username("alice");
    b.password("turn-pass-1");
    b.supports_turn(true);
    b.supports_stun(false);
    let webrtc = b.build();
    assert_eq!(webrtc.username(), "alice");
    assert!(webrtc.supports_turn());
    assert!(!webrtc.supports_stun());
    let union = CallServerType::webrtc(webrtc);
    assert!(union.is_webrtc());
    let encoded = union.to_json().expect("concrete variant encodes");
    let back = CallServerType::from_json(&encoded).expect("own output decodes");
    assert_eq!(back, union);
    assert_eq!(back.td_name(), "callServerTypeWebrtc");
}

#[test]
fn call_server_reflector_decodes_and_unknown_tag_fails() {
    let text = "{\"@type\":\"callServerTypeTelegramReflector\",\"peer_tag\":\"ab12\"}";
    let decoded = CallServerType::from_json(text).expect("must decode");
    let reflector = decoded.as_telegram_reflector().expect("reflector active");
    assert_eq!(reflector.peer_tag(), "ab12");
    assert!(decoded.as_webrtc().is_none());
    let r = CallServerType::from_json("{\"@type\":\"callServerTypeCarrier\"}");
    assert_eq!(r, Err(DecodeError::UnknownOrMissingTag));
}

#[test]
fn input_sticker_static_omits_unset_mask_position() {
    let mut b = InputStickerStatic::builder();
    b.sticker(InputFile::Local {
        path: String::from("stickers/cat.png"),
    });
    b.emojis("\u{1F431}");
    let sticker = b.build();
    assert!(sticker.mask_position().is_none());
    let encoded = sticker.to_json().expect("concrete sticker encodes");
    let parsed = jval(&encoded);
    assert!(parsed.get("mask_position").is_none());
    let back = InputStickerStatic::from_json(&encoded).expect("own output decodes");
    assert!(back.mask_position().is_none());
    assert_eq!(back, sticker);
}

#[test]
fn input_sticker_static_keeps_a_set_mask_position() {
    let mut b = InputStickerStatic::builder();
    b.sticker(InputFile::Id { id: 99 });
    b.emojis("\u{1F600}");
    b.mask_position(MaskPosition::new(String::from("forehead"), -20, 35, 1000));
    let sticker = b.build();
    let encoded = sticker.to_json().expect("concrete sticker encodes");
    let parsed = jval(&encoded);
    assert!(parsed.get("mask_position").is_some());
    let back = InputStickerStatic::from_json(&encoded).expect("own output decodes");
    let mp = back.mask_position().as_ref().expect("mask position kept");
    assert_eq!(mp.point(), "forehead");
    assert_eq!(mp.x_shift(), -20);
    assert_eq!(mp.y_shift(), 35);
    assert_eq!(mp.scale(), 1000);
    assert_eq!(back, sticker);
}

#[test]
fn input_sticker_with_unset_file_refuses_to_encode() {
    let b = InputStickerStatic::builder();
    let sticker = b.build();
    assert_eq!(sticker.to_json(), Err(EncodeError::UndefinedVariant));
}

#[test]
fn input_sticker_union_round_trips_animated() {
    let mut b = rtdlib::input_sticker::InputStickerAnimated::builder();
    b.sticker(InputFile::Id { id: 4 });
    b.emojis("\u{1F44D}");
    let union = InputSticker::animated(b.build());
    assert!(union.is_animated());
    assert!(!union.is_static());
    let encoded = union.to_json().expect("concrete variant encodes");
    let back = InputSticker::from_json(&encoded).expect("own output decodes");
    assert_eq!(back, union);
    assert_eq!(back.td_name(), "inputStickerAnimated");
}

#[test]
fn nested_union_bad_tag_fails_the_outer_decode() {
    let text = "{\"@type\":\"inputStickerAnimated\",\"sticker\":{\"@type\":\"inputFileBogus\"},\"emojis\":\"x\"}";
    let r = InputSticker::from_json(text);
    assert_eq!(r, Err(DecodeError::UnknownOrMissingTag));
}

#[test]
fn supergroup_round_trips_with_status_union() {
    let mut b = Supergroup::builder();
    b.id(421);
    b.username("rustlings");
    b.date(1_600_000_000);
    b.status(ChatMemberStatus::Administrator {
        custom_title: String::from("keeper"),
    });
    b.member_count(5000);
    b.sign_messages(true);
    b.is_channel(false);
    b.is_verified(true);
    b.restriction_reason("");
    b.is_scam(false);
    let group = b.build();
    assert_eq!(group.id(), 421);
    assert_eq!(group.username(), "rustlings");
    assert_eq!(group.member_count(), 5000);
    assert!(group.sign_messages());
    assert!(!group.is_channel());
    assert!(group.is_verified());
    assert_eq!(group.restriction_reason(), "");
    assert!(!group.is_scam());
    assert_eq!(group.date(), 1_600_000_000);
    let encoded = group.to_json().expect("concrete status encodes");
    let back = Supergroup::from_json(&encoded).expect("own output decodes");
    assert_eq!(back, group);
    assert_eq!(
        back.status(),
        &ChatMemberStatus::Administrator {
            custom_title: String::from("keeper"),
        }
    );
}

#[test]
fn supergroup_with_unset_status_refuses_to_encode() {
    let group = Supergroup::builder().build();
    assert_eq!(group.to_json(), Err(EncodeError::UndefinedVariant));
}

#[test]
fn chat_member_status_fieldless_variants_round_trip() {
    for status in [ChatMemberStatus::Member, ChatMemberStatus::Left] {
        let encoded = status.to_json().expect("concrete variant encodes");
        let back = ChatMemberStatus::from_json(&encoded).expect("own output decodes");
        assert_eq!(back, status);
    }
    let member = ChatMemberStatus::from_json("{\"@type\":\"chatMemberStatusMember\"}")
        .expect("tag-only object decodes");
    assert_eq!(member, ChatMemberStatus::Member);
}

#[test]
fn web_page_instant_view_round_trips_blocks_in_order() {
    let blocks = vec![
        PageBlock::Title {
            title: FormattedText::new(String::from("A title")),
        },
        PageBlock::Paragraph {
            text: FormattedText::new(String::from("First paragraph.")),
        },
        PageBlock::Paragraph {
            text: FormattedText::new(String::from("Second paragraph.")),
        },
    ];
    let mut b = WebPageInstantView::builder();
    b.page_blocks(blocks.clone());
    b.view_count(12);
    b.version(2);
    b.is_rtl(false);
    b.is_full(true);
    let view = b.build();
    assert_eq!(view.page_blocks(), &blocks);
    assert_eq!(view.view_count(), 12);
    assert_eq!(view.version(), 2);
    assert!(!view.is_rtl());
    assert!(view.is_full());
    let encoded = view.to_json().expect("encodes");
    let back = WebPageInstantView::from_json(&encoded).expect("own output decodes");
    assert_eq!(back, view);
}

#[test]
fn web_page_instant_view_bad_block_fails_whole_decode() {
    let text = "{\"@type\":\"webPageInstantView\",\"page_blocks\":[{\"@type\":\"pageBlockTitle\",\"title\":{\"@type\":\"formattedText\",\"text\":\"ok\"}},{\"@type\":\"pageBlockChess\"}],\"view_count\":1,\"version\":1,\"is_rtl\":false,\"is_full\":false}";
    let r = WebPageInstantView::from_json(text);
    assert_eq!(r, Err(DecodeError::UnknownOrMissingTag));
}

#[test]
fn message_copy_options_round_trips() {
    let mut b = MessageCopyOptions::builder();
    b.send_copy(true);
    b.replace_caption(true);
    b.new_caption(FormattedText::new(String::from("new caption")));
    let options = b.build();
    assert!(options.send_copy());
    assert!(options.replace_caption());
    assert_eq!(options.new_caption().text(), "new caption");
    let encoded = options.to_json().expect("encodes");
    let back = MessageCopyOptions::from_json(&encoded).expect("own output decodes");
    assert_eq!(back, options);
}

#[test]
fn formatted_text_requires_its_own_tag() {
    let ok = FormattedText::from_json("{\"@type\":\"formattedText\",\"text\":\"hi\"}")
        .expect("must decode");
    assert_eq!(ok.text(), "hi");
    let r = FormattedText::from_json("{\"text\":\"hi\"}");
    assert_eq!(r, Err(DecodeError::UnknownOrMissingTag));
}

#[test]
fn input_file_variants_round_trip() {
    for file in [
        InputFile::Id { id: 7 },
        InputFile::Local {
            path: String::from("a/b.png"),
        },
    ] {
        let encoded = file.to_json().expect("concrete variant encodes");
        let back = InputFile::from_json(&encoded).expect("own output decodes");
        assert_eq!(back, file);
    }
    assert_eq!(
        InputFile::default().to_json(),
        Err(EncodeError::UndefinedVariant)
    );
}

#[test]
fn mask_position_exact_wire_form() {
    let mp = MaskPosition::new(String::from("chin"), 1, -2, 500);
    let encoded = mp.to_json().expect("encodes");
    let expected =
        "{\"@type\":\"maskPosition\",\"point\":\"chin\",\"x_shift\":1,\"y_shift\":-2,\"scale\":500}";
    assert_eq!(jval(&encoded), jval(expected));
    let back = MaskPosition::from_json(&encoded).expect("own output decodes");
    assert_eq!(back, mp);
}

#[test]
fn numbers_beyond_i64_are_invalid_json_here() {
    let r = PollTypeQuiz::from_json(
        "{\"@type\":\"pollTypeQuiz\",\"correct_option_id\":1.5,\"explanation\":{}}",
    );
    assert_eq!(r, Err(DecodeError::InvalidJson));
}

#[test]
fn unknown_extra_fields_are_ignored() {
    let text = "{\"@type\":\"pollTypeRegular\",\"allow_multiple_answers\":false,\"color\":\"red\"}";
    let decoded = PollType::from_json(text).expect("must decode");
    let regular = decoded.as_regular().expect("regular variant active");
    assert!(!regular.allow_multiple_answers());
}

#[test]
fn on_handlers_fire_only_for_the_active_variant() {
    let mut regular_builder = PollTypeRegular::builder();
    regular_builder.allow_multiple_answers(true);
    let union = PollType::regular(regular_builder.build());
    let mut seen_regular = false;
    let mut seen_quiz = false;
    union
        .on_regular(|_t| {
            seen_regular = true;
        })
        .on_quiz(|_t| {
            seen_quiz = true;
        });
    assert!(seen_regular);
    assert!(!seen_quiz);
}
