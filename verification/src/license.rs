//! The license entitlement, what is stored of it, and the lifecycle that
//! activates, validates and deactivates it.

use crate::text::{copy_opt, copy_strings, opt_text, same_text, texts};
use vstd::prelude::*;

verus! {

/// The entitlement as it is stored: what the license permits, as last learned.
#[derive(Debug)]
pub struct LicenseInfo {
    /// One of `free`, `active`, `expired`, `invalid`.
    pub status: String,
    /// The tier's identifier, such as `free` or `professional`.
    pub tier: String,
    /// When the entitlement ends, as RFC 3339 text, if it ends.
    pub expires_at: Option<String>,
    /// The features that are switched on.
    pub features: Vec<String>,
    /// Whether this machine was activated.
    pub activated: bool,
    /// When the server last confirmed the entitlement, as RFC 3339 text.
    pub last_validation: Option<String>,
}

/// What a `LicenseInfo` holds, as texts.
pub struct LicenseInfoView {
    pub status: Seq<char>,
    pub tier: Seq<char>,
    pub expires_at: Option<Seq<char>>,
    pub features: Seq<Seq<char>>,
    pub activated: bool,
    pub last_validation: Option<Seq<char>>,
}

impl View for LicenseInfo {
    type V = LicenseInfoView;

    open spec fn view(&self) -> LicenseInfoView {
        LicenseInfoView {
            status: self.status@,
            tier: self.tier@,
            expires_at: opt_text(self.expires_at),
            features: texts(self.features@),
            activated: self.activated,
            last_validation: opt_text(self.last_validation),
        }
    }
}

/// The features of the free tier.
pub open spec fn free_features() -> Seq<Seq<char>> {
    seq!["builder"@, "library"@, "local_vault"@]
}

/// The entitlement of a machine that stores none: the free tier.
pub open spec fn free_tier() -> LicenseInfoView {
    LicenseInfoView {
        status: "free"@,
        tier: "free"@,
        expires_at: None,
        features: free_features(),
        activated: false,
        last_validation: None,
    }
}

impl LicenseInfoView {
    /// Whether the entitlement is in force: activated, with status `active`.
    pub open spec fn in_force(self) -> bool {
        self.activated && self.status == "active"@
    }

    /// The tier that applies: the stored one while the entitlement is in force,
    /// `free` otherwise.
    pub open spec fn effective_tier(self) -> Seq<char> {
        if self.in_force() {
            self.tier
        } else {
            "free"@
        }
    }

    /// Whether `feature` may be used: the entitlement is in force and lists it.
    pub open spec fn grants(self, feature: Seq<char>) -> bool {
        self.in_force() && self.features.contains(feature)
    }
}

impl LicenseInfo {
    /// The entitlement of the free tier.
    pub fn free() -> (info: LicenseInfo)
        ensures
            info@ == free_tier(),
    {
        let mut features: Vec<String> = Vec::new();
        features.push(String::from_str("builder"));
        features.push(String::from_str("library"));
        features.push(String::from_str("local_vault"));
        let info = LicenseInfo {
            status: String::from_str("free"),
            tier: String::from_str("free"),
            expires_at: None,
            features,
            activated: false,
            last_validation: None,
        };
        assert(info@.features =~= free_features());
        info
    }

    /// A copy that holds the same texts.
    pub fn copy(&self) -> (copy: LicenseInfo)
        ensures
            copy@ == self@,
    {
        LicenseInfo {
            status: self.status.clone(),
            tier: self.tier.clone(),
            expires_at: copy_opt(&self.expires_at),
            features: copy_strings(&self.features),
            activated: self.activated,
            last_validation: copy_opt(&self.last_validation),
        }
    }

    /// Whether the entitlement is in force.
    pub fn in_force(&self) -> (yes: bool)
        ensures
            yes == self@.in_force(),
    {
        self.activated && same_text(self.status.as_str(), "active")
    }

    /// The tier that applies.
    pub fn effective_tier(&self) -> (tier: String)
        ensures
            tier@ == self@.effective_tier(),
    {
        if self.in_force() {
            self.tier.clone()
        } else {
            String::from_str("free")
        }
    }

    /// Whether `feature` may be used.
    pub fn has_feature(&self, feature: &str) -> (granted: bool)
        ensures
            granted == self@.grants(feature@),
    {
        if !self.in_force() {
            return false;
        }
        let mut i: usize = 0;
        while i < self.features.len()
            invariant
                i <= self.features.len(),
                self@.in_force(),
                texts(self.features@).len() == self.features.len(),
                forall|k: int| 0 <= k < i ==> texts(self.features@)[k] != feature@,
            decreases self.features.len() - i,
        {
            if same_text(self.features[i].as_str(), feature) {
                assert(texts(self.features@)[i as int] == feature@);
                return true;
            }
            i += 1;
        }
        false
    }
}

/// What is stored on the machine of a license: the activation token, the
/// entitlement, and the time of the last validation. `None` stands for a record
/// that is absent.
#[derive(Debug)]
pub struct LicenseStore {
    /// The credential that the server issued at activation.
    pub token: Option<String>,
    /// The entitlement as last learned.
    pub info: Option<LicenseInfo>,
    /// When the server last confirmed the entitlement, as RFC 3339 text.
    pub last_validation: Option<String>,
}

/// What a `LicenseStore` holds, as texts.
pub struct LicenseStoreView {
    pub token: Option<Seq<char>>,
    pub info: Option<LicenseInfoView>,
    pub last_validation: Option<Seq<char>>,
}

impl View for LicenseStore {
    type V = LicenseStoreView;

    open spec fn view(&self) -> LicenseStoreView {
        LicenseStoreView {
            token: opt_text(self.token),
            info: match self.info {
                Some(info) => Some(info@),
                None => None,
            },
            last_validation: opt_text(self.last_validation),
        }
    }
}

/// The store of a machine that holds nothing of a license.
pub open spec fn empty_store() -> LicenseStoreView {
    LicenseStoreView { token: None, info: None, last_validation: None }
}

impl LicenseStoreView {
    /// What must hold of a store: an entitlement with status `active` is
    /// activated, and an activated entitlement comes with its token.
    pub open spec fn consistent(self) -> bool {
        self.info matches Some(info) ==> {
            &&& info.status == "active"@ ==> info.activated
            &&& info.activated ==> self.token is Some
        }
    }

    /// The entitlement that applies: the stored one, or the free tier where
    /// none is stored.
    pub open spec fn license_info(self) -> LicenseInfoView {
        match self.info {
            Some(info) => info,
            None => free_tier(),
        }
    }
}

impl LicenseStore {
    /// A store that holds nothing.
    pub fn new() -> (store: LicenseStore)
        ensures
            store@ == empty_store(),
            store@.consistent(),
    {
        LicenseStore { token: None, info: None, last_validation: None }
    }

    /// Whether the store holds what must hold of it.
    pub fn is_consistent(&self) -> (consistent: bool)
        ensures
            consistent == self@.consistent(),
    {
        match &self.info {
            None => true,
            Some(info) => {
                let active = same_text(info.status.as_str(), "active");
                (!active || info.activated) && (!info.activated || self.token.is_some())
            },
        }
    }

    /// Removes the token, the entitlement and the validation time.
    pub fn clear(&mut self)
        ensures
            final(self)@ == empty_store(),
    {
        self.token = None;
        self.info = None;
        self.last_validation = None;
    }

    /// The entitlement that applies: a copy of the stored one, or the free tier.
    pub fn license_info(&self) -> (info: LicenseInfo)
        ensures
            info@ == self@.license_info(),
    {
        match &self.info {
            Some(info) => info.copy(),
            None => LicenseInfo::free(),
        }
    }
}

} // verus!
