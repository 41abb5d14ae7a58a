use vstd::prelude::*;
use vstd::string::StringExecFns;

verus! {

/// How the remote text element looks and where it is: the scene and element
/// names, the font, the outline, and how many line breaks stand between two
/// titles. Values are passed on as they are; the renderer judges them.
#[derive(Clone, Debug)]
pub struct Settings {
    pub scene_name: String,
    pub text_name: String,
    pub font_family: String,
    pub font_color: usize,
    pub outline: bool,
    pub outline_width: usize,
    pub outline_color: usize,
    pub line_breaks: usize,
}

/// The built-in settings a process starts with.
pub open spec fn default_settings(s: Settings) -> bool {
    &&& s.scene_name@ == "シーン"@
    &&& s.text_name@ == "setli"@
    &&& s.font_family@ == "Arial"@
    &&& s.font_color == 0
    &&& s.outline
    &&& s.outline_width == 1
    &&& s.outline_color == 0
    &&& s.line_breaks == 1
}

impl Settings {
    /// The built-in settings: black Arial text with a one pixel outline and
    /// one line break between titles.
    pub fn get_default() -> (r: Settings)
        ensures
            default_settings(r),
    {
        Settings {
            scene_name: String::from_str("シーン"),
            text_name: String::from_str("setli"),
            font_family: String::from_str("Arial"),
            font_color: 0,
            outline: true,
            outline_width: 1,
            outline_color: 0,
            line_breaks: 1,
        }
    }
}

} // verus!
