//! MToon outline settings read from `VRMC_materials_mtoon`.
use vstd::prelude::*;

use crate::text::str_equals;

verus! {

/// How the MToon outline width is measured (`outlineWidthMode`).
#[derive(Debug, Clone, Copy, PartialEq, Eq, Hash, Structural)]
pub enum OutlineWidthMode {
    /// The outline is not drawn.
    NoOutline,
    /// The width is a distance in world coordinates.
    WorldCoordinates,
    /// The width is a ratio of the screen height.
    ScreenCoordinates,
}

impl Default for OutlineWidthMode {
    /// No outline.
    fn default() -> (r: Self)
        ensures
            r == OutlineWidthMode::NoOutline,
    {
        OutlineWidthMode::NoOutline
    }
}

impl OutlineWidthMode {
    /// The mode named by an `outlineWidthMode` string: `"worldCoordinates"`
    /// and `"screenCoordinates"` name their modes; any other string, `"none"`
    /// included, means no outline.
    pub open spec fn spec_from_mode_name(name: Seq<char>) -> OutlineWidthMode {
        if name == "worldCoordinates"@ {
            OutlineWidthMode::WorldCoordinates
        } else if name == "screenCoordinates"@ {
            OutlineWidthMode::ScreenCoordinates
        } else {
            OutlineWidthMode::NoOutline
        }
    }

    /// `"worldCoordinates"` and `"screenCoordinates"` name their modes; every
    /// other string (`"none"` included) means no outline.
    pub proof fn lemma_mode_names(other: Seq<char>)
        ensures
            Self::spec_from_mode_name(seq!['w', 'o', 'r', 'l', 'd', 'C', 'o', 'o', 'r', 'd', 'i', 'n', 'a', 't', 'e', 's']) == OutlineWidthMode::WorldCoordinates,
            Self::spec_from_mode_name(seq!['s', 'c', 'r', 'e', 'e', 'n', 'C', 'o', 'o', 'r', 'd', 'i', 'n', 'a', 't', 'e', 's']) == OutlineWidthMode::ScreenCoordinates,
            other != seq!['w', 'o', 'r', 'l', 'd', 'C', 'o', 'o', 'r', 'd', 'i', 'n', 'a', 't', 'e', 's'] && other != seq!['s', 'c', 'r', 'e', 'e', 'n', 'C', 'o', 'o', 'r', 'd', 'i', 'n', 'a', 't', 'e', 's']
                ==> Self::spec_from_mode_name(other) == OutlineWidthMode::NoOutline,
    {
        reveal_strlit("worldCoordinates");
        reveal_strlit("screenCoordinates");
        assert("worldCoordinates"@ =~= seq!['w', 'o', 'r', 'l', 'd', 'C', 'o', 'o', 'r', 'd', 'i', 'n', 'a', 't', 'e', 's']);
        assert("screenCoordinates"@ =~= seq!['s', 'c', 'r', 'e', 'e', 'n', 'C', 'o', 'o', 'r', 'd', 'i', 'n', 'a', 't', 'e', 's']);
    }

    /// Reads the `outlineWidthMode` string of an MToon material extension.
    pub fn from_mode_name(name: &str) -> (r: OutlineWidthMode)
        ensures
            r == Self::spec_from_mode_name(name@),
    {
        if str_equals(name, "worldCoordinates") {
            OutlineWidthMode::WorldCoordinates
        } else if str_equals(name, "screenCoordinates") {
            OutlineWidthMode::ScreenCoordinates
        } else {
            OutlineWidthMode::NoOutline
        }
    }
}

} // verus!
