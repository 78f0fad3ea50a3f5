//! The records that the manager works on, and their mathematical views.

use vstd::prelude::*;

verus! {

/// An entry of the catalog of installable addons.
#[derive(Debug, Clone)]
pub struct Addon {
    /// Stable identifier: the name of the install directory and the ledger key.
    pub id: String,
    pub name: String,
    pub description: String,
    pub icon: Option<String>,
    /// The source repository, as `owner/name`.
    pub repo: String,
    /// An opaque label; versions are never compared.
    pub version: String,
}

/// What an [`Addon`] is in contracts.
pub struct AddonView {
    pub id: Seq<char>,
    pub name: Seq<char>,
    pub description: Seq<char>,
    pub icon: Option<Seq<char>>,
    pub repo: Seq<char>,
    pub version: Seq<char>,
}

impl View for Addon {
    type V = AddonView;

    open spec fn view(&self) -> AddonView {
        AddonView {
            id: self.id@,
            name: self.name@,
            description: self.description@,
            icon: match self.icon {
                Some(url) => Some(url@),
                None => None,
            },
            repo: self.repo@,
            version: self.version@,
        }
    }
}

/// The record of one installed addon.
#[derive(Debug, Clone)]
pub struct InstalledAddon {
    pub id: String,
    /// The catalog's label at the time of the install.
    pub version: String,
    /// When the addon was installed, as an RFC 3339 timestamp.
    pub installed_at: String,
}

/// What an [`InstalledAddon`] is in contracts.
pub struct InstalledAddonView {
    pub id: Seq<char>,
    pub version: Seq<char>,
    pub installed_at: Seq<char>,
}

impl View for InstalledAddon {
    type V = InstalledAddonView;

    open spec fn view(&self) -> InstalledAddonView {
        InstalledAddonView {
            id: self.id@,
            version: self.version@,
            installed_at: self.installed_at@,
        }
    }
}

impl InstalledAddon {
    /// A copy of the record.
    pub fn duplicate(&self) -> (copy: InstalledAddon)
        ensures
            copy@ == self@,
    {
        InstalledAddon {
            id: self.id.clone(),
            version: self.version.clone(),
            installed_at: self.installed_at.clone(),
        }
    }
}

} // verus!
