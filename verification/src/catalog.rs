//! The catalog of installable addons. It is fixed data that the manager
//! only reads.

use crate::model::{Addon, AddonView};
use vstd::prelude::*;

verus! {

/// The addons of the catalog, in the order in which they are offered.
pub open spec fn manifest() -> Seq<AddonView> {
    seq![
        AddonView {
            id: "RushHour"@,
            name: "RushHour"@,
            description: "World of Warcraft addon"@,
            icon: Some("https://raw.githubusercontent.com/FlorianBx/RushHour/main/icon.png"@),
            repo: "FlorianBx/RushHour"@,
            version: "1.0.0"@,
        },
        AddonView {
            id: "craftpad"@,
            name: "CraftPad"@,
            description: "Browse and search housing items with their crafting requirements."@,
            icon: Some("https://raw.githubusercontent.com/FlorianBx/craftpad/main/icon.png"@),
            repo: "FlorianBx/craftpad"@,
            version: "1.0.0"@,
        },
    ]
}

/// The views of a sequence of addons.
pub open spec fn addon_views(addons: Seq<Addon>) -> Seq<AddonView> {
    addons.map_values(|a: Addon| a@)
}

/// The catalog of installable addons.
pub fn fetch_manifest() -> (addons: Vec<Addon>)
    ensures
        addon_views(addons@) == manifest(),
{
    let mut addons: Vec<Addon> = Vec::new();
    addons.push(
        Addon {
            id: String::from_str("RushHour"),
            name: String::from_str("RushHour"),
            description: String::from_str("World of Warcraft addon"),
            icon: Some(
                String::from_str(
                    "https://raw.githubusercontent.com/FlorianBx/RushHour/main/icon.png",
                ),
            ),
            repo: String::from_str("FlorianBx/RushHour"),
            version: String::from_str("1.0.0"),
        },
    );
    addons.push(
        Addon {
            id: String::from_str("craftpad"),
            name: String::from_str("CraftPad"),
            description: String::from_str(
                "Browse and search housing items with their crafting requirements.",
            ),
            icon: Some(
                String::from_str(
                    "https://raw.githubusercontent.com/FlorianBx/craftpad/main/icon.png",
                ),
            ),
            repo: String::from_str("FlorianBx/craftpad"),
            version: String::from_str("1.0.0"),
        },
    );
    assert(addon_views(addons@) =~= manifest());
    addons
}

} // verus!
