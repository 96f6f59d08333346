use fountain_export::{
    create_chinese_config, create_default_config, create_english_config, Conf, PrintProfile,
    SimpleConf,
};

fn assert_same_conf(a: &SimpleConf, b: &SimpleConf) {
    assert_eq!(a.print_title_page, b.print_title_page);
    assert_eq!(a.print_profile, b.print_profile);
    assert_eq!(a.double_space_between_scenes, b.double_space_between_scenes);
    assert_eq!(a.print_sections, b.print_sections);
    assert_eq!(a.print_synopsis, b.print_synopsis);
    assert_eq!(a.print_actions, b.print_actions);
    assert_eq!(a.print_headers, b.print_headers);
    assert_eq!(a.print_dialogues, b.print_dialogues);
    assert_eq!(a.number_sections, b.number_sections);
    assert_eq!(a.use_dual_dialogue, b.use_dual_dialogue);
    assert_eq!(a.print_notes, b.print_notes);
    assert_eq!(a.print_header, b.print_header);
    assert_eq!(a.print_footer, b.print_footer);
    assert_eq!(a.print_watermark, b.print_watermark);
    assert_eq!(a.scenes_numbers, b.scenes_numbers);
    assert_eq!(a.each_scene_on_new_page, b.each_scene_on_new_page);
}

fn assert_same_engine_conf(a: &Conf, b: &Conf) {
    assert_eq!(a.print_title_page, b.print_title_page);
    assert_eq!(a.print_profile, b.print_profile);
    assert_eq!(a.double_space_between_scenes, b.double_space_between_scenes);
    assert_eq!(a.print_sections, b.print_sections);
    assert_eq!(a.print_synopsis, b.print_synopsis);
    assert_eq!(a.print_actions, b.print_actions);
    assert_eq!(a.print_headers, b.print_headers);
    assert_eq!(a.print_dialogues, b.print_dialogues);
    assert_eq!(a.number_sections, b.number_sections);
    assert_eq!(a.use_dual_dialogue, b.use_dual_dialogue);
    assert_eq!(a.print_notes, b.print_notes);
    assert_eq!(a.print_header, b.print_header);
    assert_eq!(a.print_footer, b.print_footer);
    assert_eq!(a.print_watermark, b.print_watermark);
    assert_eq!(a.scenes_numbers, b.scenes_numbers);
    assert_eq!(a.each_scene_on_new_page, b.each_scene_on_new_page);
}

fn busy_conf(profile: &str) -> SimpleConf {
    SimpleConf {
        print_title_page: false,
        print_profile: profile.to_string(),
        double_space_between_scenes: true,
        print_sections: true,
        print_synopsis: false,
        print_actions: false,
        print_headers: false,
        print_dialogues: false,
        number_sections: true,
        use_dual_dialogue: false,
        print_notes: false,
        print_header: "head".to_string(),
        print_footer: "foot".to_string(),
        print_watermark: "DRAFT".to_string(),
        scenes_numbers: "left".to_string(),
        each_scene_on_new_page: true,
    }
}

#[test]
fn default_config_has_the_documented_values() {
    let conf = SimpleConf::default();
    assert!(conf.print_title_page);
    assert_eq!(conf.print_profile, "中文a4");
    assert!(!conf.double_space_between_scenes);
    assert!(!conf.print_sections);
    assert!(conf.print_synopsis);
    assert!(conf.print_actions);
    assert!(conf.print_headers);
    assert!(conf.print_dialogues);
    assert!(!conf.number_sections);
    assert!(conf.use_dual_dialogue);
    assert!(conf.print_notes);
    assert_eq!(conf.print_header, "");
    assert_eq!(conf.print_footer, "");
    assert_eq!(conf.print_watermark, "");
    assert_eq!(conf.scenes_numbers, "both");
    assert!(!conf.each_scene_on_new_page);
}

#[test]
fn create_default_config_is_the_default() {
    assert_same_conf(&create_default_config(), &SimpleConf::default());
}

#[test]
fn chinese_preset_is_the_default() {
    let conf = create_chinese_config();
    assert_eq!(conf.print_profile, "中文a4");
    assert_same_conf(&conf, &SimpleConf::default());
}

#[test]
fn english_preset_changes_profile_and_scene_spacing_only() {
    let conf = create_english_config();
    assert_eq!(conf.print_profile, "英文letter");
    assert!(conf.double_space_between_scenes);
    let mut expected = SimpleConf::default();
    expected.print_profile = "英文letter".to_string();
    expected.double_space_between_scenes = true;
    assert_same_conf(&conf, &expected);
}

#[test]
fn clone_keeps_every_field() {
    let conf = busy_conf("英文letter");
    assert_same_conf(&conf.clone(), &conf);
}

#[test]
fn profile_names_select_profiles() {
    assert_eq!(PrintProfile::from_name("中文a4"), PrintProfile::ChineseA4);
    assert_eq!(PrintProfile::from_name("英文letter"), PrintProfile::EnglishLetter);
}

#[test]
fn unknown_profile_names_select_the_default() {
    for name in ["", "a4", "letter", "usletter", "英文Letter", "英文letter ", " 英文letter", "英文", "中文letter", "no such profile"] {
        assert_eq!(PrintProfile::from_name(name), PrintProfile::ChineseA4, "{name:?}");
    }
}

#[test]
fn default_profile_keeps_the_engine_paper() {
    assert!(PrintProfile::ChineseA4.paper().is_none());
}

#[test]
fn letter_profile_is_eight_and_a_half_by_eleven_inches() {
    let paper = PrintProfile::EnglishLetter.paper().unwrap();
    assert_eq!(paper.paper_size, "letter");
    assert_eq!(paper.page_width, 850);
    assert_eq!(paper.page_height, 1100);
}

#[test]
fn default_config_translates_to_the_default_profile() {
    let conf = Conf::from(SimpleConf::default());
    assert_eq!(conf.print_profile, PrintProfile::ChineseA4);
    assert!(conf.print_profile.paper().is_none());
    assert!(conf.print_title_page);
    assert!(!conf.double_space_between_scenes);
    assert!(!conf.print_sections);
    assert!(conf.print_synopsis);
    assert!(conf.print_actions);
    assert!(conf.print_headers);
    assert!(conf.print_dialogues);
    assert!(!conf.number_sections);
    assert!(conf.use_dual_dialogue);
    assert!(conf.print_notes);
    assert_eq!(conf.print_header, "");
    assert_eq!(conf.print_footer, "");
    assert_eq!(conf.print_watermark, "");
    assert_eq!(conf.scenes_numbers, "both");
    assert!(!conf.each_scene_on_new_page);
}

#[test]
fn english_preset_translates_to_letter_paper() {
    let conf: Conf = create_english_config().into();
    assert_eq!(conf.print_profile, PrintProfile::EnglishLetter);
    assert!(conf.double_space_between_scenes);
    assert_eq!(conf.print_profile.paper().unwrap().paper_size, "letter");
}

#[test]
fn translation_carries_every_field_over() {
    let conf = Conf::from(busy_conf("英文letter"));
    assert!(!conf.print_title_page);
    assert_eq!(conf.print_profile, PrintProfile::EnglishLetter);
    assert!(conf.double_space_between_scenes);
    assert!(conf.print_sections);
    assert!(!conf.print_synopsis);
    assert!(!conf.print_actions);
    assert!(!conf.print_headers);
    assert!(!conf.print_dialogues);
    assert!(conf.number_sections);
    assert!(!conf.use_dual_dialogue);
    assert!(!conf.print_notes);
    assert_eq!(conf.print_header, "head");
    assert_eq!(conf.print_footer, "foot");
    assert_eq!(conf.print_watermark, "DRAFT");
    assert_eq!(conf.scenes_numbers, "left");
    assert!(conf.each_scene_on_new_page);
}

#[test]
fn unknown_profile_translates_like_the_default_profile() {
    let unknown = Conf::from(busy_conf("tabloid"));
    let named = Conf::from(busy_conf("中文a4"));
    assert_eq!(unknown.print_profile, PrintProfile::ChineseA4);
    assert!(unknown.print_profile.paper().is_none());
    assert_same_engine_conf(&unknown, &named);
}

#[test]
fn translating_twice_gives_the_same() {
    for profile in ["中文a4", "英文letter", "tabloid", ""] {
        let first = Conf::from(busy_conf(profile));
        let second = Conf::from(busy_conf(profile));
        assert_same_engine_conf(&first, &second);
    }
    assert_same_engine_conf(&Conf::from(SimpleConf::default()), &Conf::from(create_default_config()));
}
