//! The engine's configuration as far as the adapter sets it, and the
//! translation of a host configuration into it.

use crate::config::{english_letter_name, SimpleConf, SimpleConfView};
use crate::text::same_text;
use vstd::prelude::*;
use vstd::std_specs::convert::FromSpecImpl;

verus! {

/// The page layouts that a configuration can name.
#[derive(Clone, Copy, Debug, PartialEq, Eq, Structural)]
pub enum PrintProfile {
    /// The engine's own default profile, laid out for Chinese A4.
    ChineseA4,
    /// The default profile on letter paper.
    EnglishLetter,
}

/// The paper that a profile puts in place of the default profile's.
#[derive(Debug)]
pub struct Paper {
    pub paper_size: String,
    /// Page width in hundredths of an inch.
    pub page_width: u32,
    /// Page height in hundredths of an inch.
    pub page_height: u32,
}

/// What a [`Paper`] holds, with its name as characters.
pub struct PaperView {
    pub paper_size: Seq<char>,
    pub page_width: nat,
    pub page_height: nat,
}

impl View for Paper {
    type V = PaperView;

    open spec fn view(&self) -> PaperView {
        PaperView {
            paper_size: self.paper_size@,
            page_width: self.page_width as nat,
            page_height: self.page_height as nat,
        }
    }
}

impl PrintProfile {
    /// The profile that a name selects. Only the English letter profile has
    /// to be named; every other name, known or not, selects the default.
    pub open spec fn named(name: Seq<char>) -> PrintProfile {
        if name == english_letter_name() {
            PrintProfile::EnglishLetter
        } else {
            PrintProfile::ChineseA4
        }
    }

    /// The paper that this profile puts in place of the default profile's:
    /// none for the default itself, letter paper of 8.5 by 11 inches for
    /// the English letter profile.
    pub open spec fn paper_spec(self) -> Option<PaperView> {
        match self {
            PrintProfile::ChineseA4 => None,
            PrintProfile::EnglishLetter => Some(
                PaperView { paper_size: "letter"@, page_width: 850, page_height: 1100 },
            ),
        }
    }

    /// The profile that `name` selects.
    pub fn from_name(name: &str) -> (profile: PrintProfile)
        ensures
            profile == PrintProfile::named(name@),
    {
        if same_text(name, "英文letter") {
            PrintProfile::EnglishLetter
        } else {
            PrintProfile::ChineseA4
        }
    }

    /// The paper that this profile puts in place of the default profile's.
    pub fn paper(&self) -> (paper: Option<Paper>)
        ensures
            match paper {
                Some(paper) => self.paper_spec() == Some(paper@),
                None => self.paper_spec().is_none(),
            },
    {
        match self {
            PrintProfile::ChineseA4 => None,
            PrintProfile::EnglishLetter => Some(
                Paper { paper_size: "letter".to_owned(), page_width: 850, page_height: 1100 },
            ),
        }
    }
}

/// The engine's configuration, as far as a host configuration decides it.
/// Whatever else the engine can be told keeps the engine's default.
#[derive(Debug)]
pub struct Conf {
    pub print_title_page: bool,
    pub print_profile: PrintProfile,
    pub double_space_between_scenes: bool,
    pub print_sections: bool,
    pub print_synopsis: bool,
    pub print_actions: bool,
    pub print_headers: bool,
    pub print_dialogues: bool,
    pub number_sections: bool,
    pub use_dual_dialogue: bool,
    pub print_notes: bool,
    pub print_header: String,
    pub print_footer: String,
    pub print_watermark: String,
    pub scenes_numbers: String,
    pub each_scene_on_new_page: bool,
}

/// What a [`Conf`] holds, with each text as its characters.
pub struct ConfView {
    pub print_title_page: bool,
    pub print_profile: PrintProfile,
    pub double_space_between_scenes: bool,
    pub print_sections: bool,
    pub print_synopsis: bool,
    pub print_actions: bool,
    pub print_headers: bool,
    pub print_dialogues: bool,
    pub number_sections: bool,
    pub use_dual_dialogue: bool,
    pub print_notes: bool,
    pub print_header: Seq<char>,
    pub print_footer: Seq<char>,
    pub print_watermark: Seq<char>,
    pub scenes_numbers: Seq<char>,
    pub each_scene_on_new_page: bool,
}

impl View for Conf {
    type V = ConfView;

    open spec fn view(&self) -> ConfView {
        ConfView {
            print_title_page: self.print_title_page,
            print_profile: self.print_profile,
            double_space_between_scenes: self.double_space_between_scenes,
            print_sections: self.print_sections,
            print_synopsis: self.print_synopsis,
            print_actions: self.print_actions,
            print_headers: self.print_headers,
            print_dialogues: self.print_dialogues,
            number_sections: self.number_sections,
            use_dual_dialogue: self.use_dual_dialogue,
            print_notes: self.print_notes,
            print_header: self.print_header@,
            print_footer: self.print_footer@,
            print_watermark: self.print_watermark@,
            scenes_numbers: self.scenes_numbers@,
            each_scene_on_new_page: self.each_scene_on_new_page,
        }
    }
}

/// The engine configuration that a host configuration stands for: the
/// profile is the one its name selects, every other field is carried over.
pub open spec fn translate(simple: SimpleConfView) -> ConfView {
    ConfView {
        print_title_page: simple.print_title_page,
        print_profile: PrintProfile::named(simple.print_profile),
        double_space_between_scenes: simple.double_space_between_scenes,
        print_sections: simple.print_sections,
        print_synopsis: simple.print_synopsis,
        print_actions: simple.print_actions,
        print_headers: simple.print_headers,
        print_dialogues: simple.print_dialogues,
        number_sections: simple.number_sections,
        use_dual_dialogue: simple.use_dual_dialogue,
        print_notes: simple.print_notes,
        print_header: simple.print_header,
        print_footer: simple.print_footer,
        print_watermark: simple.print_watermark,
        scenes_numbers: simple.scenes_numbers,
        each_scene_on_new_page: simple.each_scene_on_new_page,
    }
}

impl FromSpecImpl<SimpleConf> for Conf {
    open spec fn obeys_from_spec() -> bool {
        true
    }

    open spec fn from_spec(simple: SimpleConf) -> Conf {
        Conf {
            print_title_page: simple.print_title_page,
            print_profile: PrintProfile::named(simple.print_profile@),
            double_space_between_scenes: simple.double_space_between_scenes,
            print_sections: simple.print_sections,
            print_synopsis: simple.print_synopsis,
            print_actions: simple.print_actions,
            print_headers: simple.print_headers,
            print_dialogues: simple.print_dialogues,
            number_sections: simple.number_sections,
            use_dual_dialogue: simple.use_dual_dialogue,
            print_notes: simple.print_notes,
            print_header: simple.print_header,
            print_footer: simple.print_footer,
            print_watermark: simple.print_watermark,
            scenes_numbers: simple.scenes_numbers,
            each_scene_on_new_page: simple.each_scene_on_new_page,
        }
    }
}

impl From<SimpleConf> for Conf {
    fn from(simple: SimpleConf) -> (conf: Conf)
        ensures
            conf@ == translate(simple@),
    {
        Conf {
            print_title_page: simple.print_title_page,
            print_profile: PrintProfile::from_name(simple.print_profile.as_str()),
            double_space_between_scenes: simple.double_space_between_scenes,
            print_sections: simple.print_sections,
            print_synopsis: simple.print_synopsis,
            print_actions: simple.print_actions,
            print_headers: simple.print_headers,
            print_dialogues: simple.print_dialogues,
            number_sections: simple.number_sections,
            use_dual_dialogue: simple.use_dual_dialogue,
            print_notes: simple.print_notes,
            print_header: simple.print_header,
            print_footer: simple.print_footer,
            print_watermark: simple.print_watermark,
            scenes_numbers: simple.scenes_numbers,
            each_scene_on_new_page: simple.each_scene_on_new_page,
        }
    }
}

} // verus!
