//! The choice between playing live and writing to a file.
use vstd::prelude::*;
use vstd::string::StringExecFns;
use crate::select::{SelectionInfo, Selections, TuiSelectable};

verus! {

/// How a piece is to be played.
#[derive(Clone, Copy, Debug, PartialEq, Eq, Structural)]
pub enum Mode {
    /// Played live.
    Live,
    /// Rendered to a file.
    File,
}

impl Mode {
    /// The menu of modes: "Play" for live playing, then "Write" for
    /// rendering to a file, with no default.
    pub open spec fn menu_spec(r: Selections<Mode>) -> bool {
        &&& r.description@ == "Select an option"@
        &&& r.default is None
        &&& r.options@.len() == 2
        &&& r.options@[0].0.name@ == "Play"@
        &&& r.options@[0].0.description@ == "Play music live"@
        &&& r.options@[0].1 == Mode::Live
        &&& r.options@[1].0.name@ == "Write"@
        &&& r.options@[1].0.description@ == "Render music to a WAV file"@
        &&& r.options@[1].1 == Mode::File
    }
}

impl TuiSelectable for Mode {
    type Context = ();

    fn get_selections(_context: ()) -> (r: Selections<Mode>)
        ensures
            Mode::menu_spec(r),
    {
        let options = vec![
            (
                SelectionInfo {
                    name: String::from_str("Play"),
                    description: String::from_str("Play music live"),
                },
                Mode::Live,
            ),
            (
                SelectionInfo {
                    name: String::from_str("Write"),
                    description: String::from_str("Render music to a WAV file"),
                },
                Mode::File,
            ),
        ];
        Selections { description: String::from_str("Select an option"), default: None, options }
    }
}

} // verus!
