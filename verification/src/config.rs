//! The flat configuration record that a host fills in, and its presets.

use vstd::prelude::*;

verus! {

/// Print and export preferences as the host states them.
#[derive(Debug)]
pub struct SimpleConf {
    pub print_title_page: bool,
    pub print_profile: String,
    pub double_space_between_scenes: bool,
    pub print_sections: bool,
    pub print_synopsis: bool,
    pub print_actions: bool,
    pub print_headers: bool,
    pub print_dialogues: bool,
    pub number_sections: bool,
    pub use_dual_dialogue: bool,
    pub print_notes: bool,
    pub print_header: String,
    pub print_footer: String,
    pub print_watermark: String,
    pub scenes_numbers: String,
    pub each_scene_on_new_page: bool,
}

/// What a [`SimpleConf`] holds, with each text as its characters.
pub struct SimpleConfView {
    pub print_title_page: bool,
    pub print_profile: Seq<char>,
    pub double_space_between_scenes: bool,
    pub print_sections: bool,
    pub print_synopsis: bool,
    pub print_actions: bool,
    pub print_headers: bool,
    pub print_dialogues: bool,
    pub number_sections: bool,
    pub use_dual_dialogue: bool,
    pub print_notes: bool,
    pub print_header: Seq<char>,
    pub print_footer: Seq<char>,
    pub print_watermark: Seq<char>,
    pub scenes_numbers: Seq<char>,
    pub each_scene_on_new_page: bool,
}

impl View for SimpleConf {
    type V = SimpleConfView;

    open spec fn view(&self) -> SimpleConfView {
        SimpleConfView {
            print_title_page: self.print_title_page,
            print_profile: self.print_profile@,
            double_space_between_scenes: self.double_space_between_scenes,
            print_sections: self.print_sections,
            print_synopsis: self.print_synopsis,
            print_actions: self.print_actions,
            print_headers: self.print_headers,
            print_dialogues: self.print_dialogues,
            number_sections: self.number_sections,
            use_dual_dialogue: self.use_dual_dialogue,
            print_notes: self.print_notes,
            print_header: self.print_header@,
            print_footer: self.print_footer@,
            print_watermark: self.print_watermark@,
            scenes_numbers: self.scenes_numbers@,
            each_scene_on_new_page: self.each_scene_on_new_page,
        }
    }
}

/// The name of the Chinese A4 profile, which is also the default.
pub open spec fn chinese_a4_name() -> Seq<char> {
    "中文a4"@
}

/// The name of the English letter profile.
pub open spec fn english_letter_name() -> Seq<char> {
    "英文letter"@
}

/// The configuration that stands where the host gives none.
pub open spec fn default_conf() -> SimpleConfView {
    SimpleConfView {
        print_title_page: true,
        print_profile: chinese_a4_name(),
        double_space_between_scenes: false,
        print_sections: false,
        print_synopsis: true,
        print_actions: true,
        print_headers: true,
        print_dialogues: true,
        number_sections: false,
        use_dual_dialogue: true,
        print_notes: true,
        print_header: Seq::empty(),
        print_footer: Seq::empty(),
        print_watermark: Seq::empty(),
        scenes_numbers: "both"@,
        each_scene_on_new_page: false,
    }
}

/// The preset for Chinese screenplays: the default with the Chinese A4
/// profile named once more.
pub open spec fn chinese_conf() -> SimpleConfView {
    SimpleConfView { print_profile: chinese_a4_name(), ..default_conf() }
}

/// The preset for English screenplays: letter paper and a double space
/// between scenes.
pub open spec fn english_conf() -> SimpleConfView {
    SimpleConfView {
        print_profile: english_letter_name(),
        double_space_between_scenes: true,
        ..default_conf()
    }
}

/// The configuration that an optional argument stands for: itself, or the
/// default where it is absent.
pub open spec fn conf_or_default(config: Option<SimpleConf>) -> SimpleConfView {
    match config {
        Some(conf) => conf@,
        None => default_conf(),
    }
}

impl Default for SimpleConf {
    fn default() -> (conf: SimpleConf)
        ensures
            conf@ == default_conf(),
    {
        SimpleConf {
            print_title_page: true,
            print_profile: "中文a4".to_owned(),
            double_space_between_scenes: false,
            print_sections: false,
            print_synopsis: true,
            print_actions: true,
            print_headers: true,
            print_dialogues: true,
            number_sections: false,
            use_dual_dialogue: true,
            print_notes: true,
            print_header: String::new(),
            print_footer: String::new(),
            print_watermark: String::new(),
            scenes_numbers: "both".to_owned(),
            each_scene_on_new_page: false,
        }
    }
}

impl Clone for SimpleConf {
    fn clone(&self) -> (copy: SimpleConf)
        ensures
            copy@ == self@,
    {
        SimpleConf {
            print_title_page: self.print_title_page,
            print_profile: self.print_profile.clone(),
            double_space_between_scenes: self.double_space_between_scenes,
            print_sections: self.print_sections,
            print_synopsis: self.print_synopsis,
            print_actions: self.print_actions,
            print_headers: self.print_headers,
            print_dialogues: self.print_dialogues,
            number_sections: self.number_sections,
            use_dual_dialogue: self.use_dual_dialogue,
            print_notes: self.print_notes,
            print_header: self.print_header.clone(),
            print_footer: self.print_footer.clone(),
            print_watermark: self.print_watermark.clone(),
            scenes_numbers: self.scenes_numbers.clone(),
            each_scene_on_new_page: self.each_scene_on_new_page,
        }
    }
}

/// The default configuration.
pub fn create_default_config() -> (conf: SimpleConf)
    ensures
        conf@ == default_conf(),
{
    SimpleConf::default()
}

/// The preset for Chinese screenplays.
pub fn create_chinese_config() -> (conf: SimpleConf)
    ensures
        conf@ == chinese_conf(),
{
    let mut conf = SimpleConf::default();
    conf.print_profile = "中文a4".to_owned();
    conf
}

/// The preset for English screenplays.
pub fn create_english_config() -> (conf: SimpleConf)
    ensures
        conf@ == english_conf(),
{
    let mut conf = SimpleConf::default();
    conf.print_profile = "英文letter".to_owned();
    conf.double_space_between_scenes = true;
    conf
}

} // verus!
