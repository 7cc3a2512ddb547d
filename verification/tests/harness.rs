use std::collections::HashMap;

use tba_harness::config::{parse_u64_dec, EnvConfig};
use tba_harness::descriptions::{DescriptionsDemo, ScriptStep, TextKind};
use tba_harness::outcome::Failure;
use tba_harness::send::send_sticker_plan;
use tba_harness::stickers::{sticker_set_name, StickerAction, StickerSetDemo};

#[test]
fn parse_simple_numeral() {
    assert_eq!(parse_u64_dec(b"123456789"), Some(123456789));
}

#[test]
fn parse_zero_and_leading_zeros() {
    assert_eq!(parse_u64_dec(b"0"), Some(0));
    assert_eq!(parse_u64_dec(b"007"), Some(7));
}

#[test]
fn parse_largest_value() {
    assert_eq!(parse_u64_dec(b"18446744073709551615"), Some(u64::MAX));
}

#[test]
fn parse_overflow_is_rejected() {
    assert_eq!(parse_u64_dec(b"18446744073709551616"), None);
    assert_eq!(parse_u64_dec(b"99999999999999999999999"), None);
}

#[test]
fn parse_rejects_empty_and_non_digits() {
    assert_eq!(parse_u64_dec(b""), None);
    assert_eq!(parse_u64_dec(b"12a4"), None);
    assert_eq!(parse_u64_dec(b"-5"), None);
    assert_eq!(parse_u64_dec(b" 5"), None);
}

#[test]
fn env_config_from_text() {
    let c = EnvConfig::from_user_id_text(b"42").expect("valid numeral");
    assert_eq!(c.user_id, 42);
    assert!(EnvConfig::from_user_id_text(b"forty-two").is_none());
}

/// A faithful in-memory stand-in for the remote description storage: every
/// read returns exactly the text last written for that kind and language
/// code, the empty text where none was written.
struct FakeDescriptionService {
    full: HashMap<Option<String>, String>,
    short: HashMap<Option<String>, String>,
}

impl FakeDescriptionService {
    fn new() -> Self {
        FakeDescriptionService { full: HashMap::new(), short: HashMap::new() }
    }

    fn table(&mut self, kind: &TextKind) -> &mut HashMap<Option<String>, String> {
        match kind {
            TextKind::Full => &mut self.full,
            TextKind::Short => &mut self.short,
        }
    }
}

#[test]
fn descriptions_round_trip_passes() {
    let mut service = FakeDescriptionService::new();
    let mut demo = DescriptionsDemo::new();
    let mut steps = 0usize;
    while let Some(step) = demo.next_step() {
        match step {
            ScriptStep::Write { kind, language_code, text } => {
                let (kind, language_code, text) =
                    (kind.clone(), language_code.clone(), text.clone());
                service.table(&kind).insert(language_code, text);
                demo.on_set_done();
            }
            ScriptStep::ReadBack { kind, language_code, .. } => {
                let (kind, language_code) = (kind.clone(), language_code.clone());
                let got = service
                    .table(&kind)
                    .get(&language_code)
                    .cloned()
                    .unwrap_or_default();
                demo.on_got(got);
            }
        }
        steps += 1;
        assert!(steps <= 8, "the script has exactly eight steps");
    }
    assert_eq!(steps, 8);
    assert!(demo.passed());
    assert!(demo.failure.is_none());
}

#[test]
fn descriptions_script_contents() {
    let demo = DescriptionsDemo::new();
    assert_eq!(demo.script.len(), 8);
    match &demo.script[0] {
        ScriptStep::Write { kind: TextKind::Full, language_code: None, text } => {
            assert_eq!(text.as_str(), "A snail walks into a bar one day..");
        }
        _ => panic!("the script must start by writing the full description"),
    }
    match &demo.script[5] {
        ScriptStep::ReadBack { kind: TextKind::Full, language_code: Some(l), expected } => {
            assert_eq!(l.as_str(), "ru");
            assert_eq!(expected.as_str(), "Заходит как-то улитка в бар..");
        }
        _ => panic!("the sixth step must read the Russian full description back"),
    }
}

#[test]
fn descriptions_mismatch_stops_the_run() {
    let mut demo = DescriptionsDemo::new();
    demo.on_set_done();
    demo.on_got(String::from("something else entirely"));
    assert!(!demo.passed());
    match &demo.failure {
        Some(Failure::Mismatch { expected, actual }) => {
            assert_eq!(expected.as_str(), "A snail walks into a bar one day..");
            assert_eq!(actual.as_str(), "something else entirely");
        }
        other => panic!("expected a mismatch, got {:?}", other.is_some()),
    }
    assert!(demo.next_step().is_none());
}

#[test]
fn descriptions_api_error_stops_the_run() {
    let mut demo = DescriptionsDemo::new();
    demo.on_api_error(String::from("FLOOD_WAIT"));
    assert!(!demo.passed());
    match &demo.failure {
        Some(Failure::Api { message }) => assert_eq!(message.as_str(), "FLOOD_WAIT"),
        _ => panic!("expected an api failure"),
    }
    assert!(demo.next_step().is_none());
}

#[test]
fn sticker_set_name_is_derived_from_username() {
    assert_eq!(sticker_set_name("my_test_bot"), "tba66_by_my_test_bot");
    assert_eq!(sticker_set_name(""), "tba66_by_");
}

#[test]
fn sticker_demo_full_run() {
    let mut demo = StickerSetDemo::new(true);

    match demo.next_action() {
        Some(StickerAction::GetMe) => {}
        _ => panic!("the run must begin by asking who the bot is"),
    }
    demo.on_me(Some(String::from("my_test_bot")));

    match demo.next_action() {
        Some(StickerAction::DeleteStickerSet { name }) => {
            assert_eq!(name, "tba66_by_my_test_bot");
        }
        _ => panic!("a leftover set is deleted first"),
    }
    demo.on_delete_result(false);

    match demo.next_action() {
        Some(StickerAction::UploadStickerFile { path }) => {
            assert_eq!(path, "data/teloxide-core-logo.webp");
        }
        _ => panic!("the first image is uploaded next"),
    }
    demo.on_uploaded(String::from("file-1"));

    match demo.next_action() {
        Some(StickerAction::UploadStickerFile { path }) => {
            assert_eq!(path, "data/teloxide-logo.webp");
        }
        _ => panic!("the second image is uploaded next"),
    }
    demo.on_uploaded(String::from("file-2"));

    match demo.next_action() {
        Some(StickerAction::CreateStickerSet { name, title, stickers }) => {
            assert_eq!(name, "tba66_by_my_test_bot");
            assert_eq!(title, "Teloxide TBA6.6 TEST");
            assert_eq!(stickers.len(), 2);
            assert_eq!(stickers[0].file_id, "file-1");
            assert_eq!(stickers[0].emoji_list, vec!["🦀", "😄"]);
            assert_eq!(stickers[0].keywords, vec!["teloxide", "f", "core"]);
            assert_eq!(stickers[1].file_id, "file-2");
            assert_eq!(stickers[1].emoji_list, vec!["🦀", "🥳"]);
            assert_eq!(stickers[1].keywords, vec!["teloxide", "second", "main"]);
        }
        _ => panic!("the set is created from the two uploads"),
    }
    demo.on_ack();

    match demo.next_action() {
        Some(StickerAction::GetStickerSet { name }) => {
            assert_eq!(name, "tba66_by_my_test_bot");
        }
        _ => panic!("the created set is fetched back"),
    }
    demo.on_set_info(String::from("Teloxide TBA6.6 TEST"), Some(String::from("sticker-1")));

    match demo.next_action() {
        Some(StickerAction::SetStickerSetTitle { name, title }) => {
            assert_eq!(name, "tba66_by_my_test_bot");
            assert_eq!(title, "New sticker set title");
        }
        _ => panic!("the set is renamed"),
    }
    demo.on_ack();

    match demo.next_action() {
        Some(StickerAction::SetStickerEmojiList { sticker_file_id, emoji_list }) => {
            assert_eq!(sticker_file_id, "sticker-1");
            assert_eq!(emoji_list, vec!["🤔"]);
        }
        _ => panic!("the first sticker gets a new emoji list"),
    }
    demo.on_ack();

    match demo.next_action() {
        Some(StickerAction::SetStickerKeywords { sticker_file_id, keywords }) => {
            assert_eq!(sticker_file_id, "sticker-1");
            assert_eq!(keywords, vec!["core"]);
        }
        _ => panic!("the first sticker gets new keywords"),
    }
    demo.on_ack();

    match demo.next_action() {
        Some(StickerAction::GetStickerSet { name }) => {
            assert_eq!(name, "tba66_by_my_test_bot");
        }
        _ => panic!("the set is fetched again to check the title"),
    }
    demo.on_set_info(String::from("New sticker set title"), Some(String::from("sticker-1")));

    match demo.next_action() {
        Some(StickerAction::UploadStickerFile { path }) => {
            assert_eq!(path, "data/teloxide-logo-blur.webp");
        }
        _ => panic!("the image of the added sticker is uploaded"),
    }
    demo.on_uploaded(String::from("file-3"));

    match demo.next_action() {
        Some(StickerAction::AddStickerToSet { name, sticker }) => {
            assert_eq!(name, "tba66_by_my_test_bot");
            assert_eq!(sticker.file_id, "file-3");
            assert_eq!(sticker.emoji_list, vec!["😄"]);
            assert!(sticker.keywords.is_empty());
        }
        _ => panic!("the third sticker is added to the set"),
    }
    demo.on_ack();

    assert!(demo.passed());
    assert!(demo.next_action().is_none());
    assert!(demo.failure.is_none());
}

#[test]
fn sticker_demo_edit_only_skips_creation() {
    let mut demo = StickerSetDemo::new(false);
    demo.on_me(Some(String::from("my_test_bot")));
    match demo.next_action() {
        Some(StickerAction::GetStickerSet { name }) => {
            assert_eq!(name, "tba66_by_my_test_bot");
        }
        _ => panic!("an edit-only run starts by fetching the existing set"),
    }
}

#[test]
fn sticker_demo_title_mismatch_stops_the_run() {
    let mut demo = StickerSetDemo::new(false);
    demo.on_me(Some(String::from("my_test_bot")));
    demo.on_set_info(String::from("old title"), Some(String::from("sticker-1")));
    demo.on_ack(); // rename
    demo.on_ack(); // emoji list
    demo.on_ack(); // keywords
    demo.on_set_info(String::from("old title"), Some(String::from("sticker-1")));
    assert!(!demo.passed());
    match &demo.failure {
        Some(Failure::Mismatch { expected, actual }) => {
            assert_eq!(expected.as_str(), "New sticker set title");
            assert_eq!(actual.as_str(), "old title");
        }
        _ => panic!("expected a title mismatch"),
    }
    assert!(demo.next_action().is_none());
}

#[test]
fn sticker_demo_needs_a_username() {
    let mut demo = StickerSetDemo::new(true);
    demo.on_me(None);
    assert!(!demo.passed());
    assert!(matches!(demo.failure, Some(Failure::Missing { .. })));
    assert!(demo.next_action().is_none());
}

#[test]
fn sticker_demo_needs_a_first_sticker() {
    let mut demo = StickerSetDemo::new(false);
    demo.on_me(Some(String::from("my_test_bot")));
    demo.on_set_info(String::from("whatever"), None);
    assert!(!demo.passed());
    assert!(matches!(demo.failure, Some(Failure::Missing { .. })));
}

#[test]
fn sticker_demo_api_error_stops_the_run() {
    let mut demo = StickerSetDemo::new(true);
    demo.on_api_error(String::from("Api(InvalidStickersSet)"));
    assert!(!demo.passed());
    match &demo.failure {
        Some(Failure::Api { message }) => assert_eq!(message.as_str(), "Api(InvalidStickersSet)"),
        _ => panic!("expected an api failure"),
    }
}

#[test]
fn send_plan_with_and_without_emoji() {
    let with = send_sticker_plan(true);
    assert_eq!(with.path, "data/teloxide-logo.webp");
    assert_eq!(with.emoji.as_deref(), Some("🦀"));

    let without = send_sticker_plan(false);
    assert_eq!(without.path, "data/teloxide-logo.webp");
    assert!(without.emoji.is_none());
}
