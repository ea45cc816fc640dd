//! Symbol visibility of functions.

use vstd::prelude::*;
use vstd::std_specs::cmp::PartialEqSpecImpl;

verus! {

/// How a function is visible across modules, and whether it is defined here.
#[derive(Eq, Debug, Clone, Copy)]
pub enum Linkage {
    /// Declared here and defined elsewhere: such a function has no blocks.
    ExternalLinkage,
    /// Defined here, visible to the linker as a global symbol.
    InternalLinkage,
    /// Defined here, not visible outside the module.
    PrivateLinkage,
    /// Declared here; may remain undefined at link time.
    ExternalWeakLinkage,
    /// A tentative definition that the linker merges.
    CommonLinkage,
    /// Recognized; no emission exists for it yet.
    AppendingLinkage,
    /// Recognized; no emission exists for it yet.
    LinkonceLinkage,
    /// Recognized; no emission exists for it yet.
    WeakLinkage,
}

impl PartialEq for Linkage {
    fn eq(&self, other: &Linkage) -> (r: bool) {
        match (self, other) {
            (Linkage::ExternalLinkage, Linkage::ExternalLinkage) => true,
            (Linkage::InternalLinkage, Linkage::InternalLinkage) => true,
            (Linkage::PrivateLinkage, Linkage::PrivateLinkage) => true,
            (Linkage::ExternalWeakLinkage, Linkage::ExternalWeakLinkage) => true,
            (Linkage::CommonLinkage, Linkage::CommonLinkage) => true,
            (Linkage::AppendingLinkage, Linkage::AppendingLinkage) => true,
            (Linkage::LinkonceLinkage, Linkage::LinkonceLinkage) => true,
            (Linkage::WeakLinkage, Linkage::WeakLinkage) => true,
            _ => false,
        }
    }
}

impl PartialEqSpecImpl for Linkage {
    open spec fn obeys_eq_spec() -> bool {
        true
    }

    open spec fn eq_spec(&self, other: &Linkage) -> bool {
        *self == *other
    }
}

impl Linkage {
    /// The word for the linkage in a rendered function header.
    pub open spec fn text(self) -> Seq<char> {
        match self {
            Linkage::ExternalLinkage => "external"@,
            Linkage::InternalLinkage => "internal"@,
            Linkage::PrivateLinkage => "private"@,
            Linkage::ExternalWeakLinkage => "external weak"@,
            Linkage::CommonLinkage => "common"@,
            Linkage::AppendingLinkage => "appending"@,
            Linkage::LinkonceLinkage => "linkonce"@,
            Linkage::WeakLinkage => "weak"@,
        }
    }

    /// The word for the linkage in a rendered function header.
    pub fn as_str(&self) -> (r: &'static str)
        ensures
            r@ == self.text(),
    {
        match self {
            Linkage::ExternalLinkage => "external",
            Linkage::InternalLinkage => "internal",
            Linkage::PrivateLinkage => "private",
            Linkage::ExternalWeakLinkage => "external weak",
            Linkage::CommonLinkage => "common",
            Linkage::AppendingLinkage => "appending",
            Linkage::LinkonceLinkage => "linkonce",
            Linkage::WeakLinkage => "weak",
        }
    }
}

} // verus!
