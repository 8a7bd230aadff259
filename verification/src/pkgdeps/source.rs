//! Where what is known of packages comes from.
use vstd::prelude::*;

use crate::error::Result;
use crate::pkgdeps::model::{InstallPlan, Package};
use crate::text::Text;

verus! {

/// Something that can be asked about packages. Asking may change it: a source may
/// remember what it was told. Any answer may come, unless an implementation knows
/// better.
pub trait MetadataSource: Sized {
    /// It can be asked.
    open spec fn ready(&self) -> bool {
        true
    }

    /// Asking for a package may give `r` and leave the source as `after`.
    open spec fn package_may_give(
        &self,
        after: &Self,
        name: Text,
        r: Result<Option<Package>>,
    ) -> bool {
        true
    }

    /// Asking who provides a name may give `r` and leave the source as `after`.
    open spec fn provider_may_be(
        &self,
        after: &Self,
        name: Text,
        r: Result<Option<String>>,
    ) -> bool {
        true
    }

    /// Asking what depends on a package may give `r`.
    open spec fn required_by_may_give(&self, name: Text, r: Result<Vec<String>>) -> bool {
        true
    }

    /// Asking what may make use of a package may give `r`.
    open spec fn optional_for_may_give(&self, name: Text, r: Result<Vec<String>>) -> bool {
        true
    }

    /// Asking whether a package is installed may give `r`.
    open spec fn is_installed_may_give(&self, name: Text, r: Result<bool>) -> bool {
        true
    }

    /// The databases that it answers from may be these.
    open spec fn databases_may_be(&self, r: Seq<Text>) -> bool {
        true
    }

    /// The warnings on its answers may be these.
    open spec fn warnings_may_be(&self, r: Seq<Text>) -> bool {
        true
    }

    /// Planning a transaction may give `r`.
    open spec fn plan_may_be(
        &self,
        targets: Seq<&str>,
        clean_root: bool,
        r: Result<InstallPlan>,
    ) -> bool {
        true
    }

    /// The package with this name, where there is one.
    fn package(&mut self, name: &str) -> (r: Result<Option<Package>>)
        requires
            old(self).ready(),
        ensures
            old(self).package_may_give(&*final(self), name@, r),
    ;

    /// The package that provides this name, where there is one.
    fn provider_of(&mut self, virtual_name: &str) -> (r: Result<Option<String>>)
        requires
            old(self).ready(),
        ensures
            old(self).provider_may_be(&*final(self), virtual_name@, r),
    ;

    /// What depends on this package.
    fn required_by(&self, name: &str) -> (r: Result<Vec<String>>)
        ensures
            self.required_by_may_give(name@, r),
    ;

    /// What may make use of this package.
    fn optional_for(&self, name: &str) -> (r: Result<Vec<String>>)
        ensures
            self.optional_for_may_give(name@, r),
    ;

    /// Whether this package is installed here.
    fn is_installed(&self, name: &str) -> (r: Result<bool>)
        ensures
            self.is_installed_may_give(name@, r),
    ;

    /// The databases that the answers come from.
    fn databases(&self) -> (r: Vec<String>)
        ensures
            self.databases_may_be(r.deep_view()),
    ;

    /// Why the answers may be old or incomplete.
    fn staleness_warnings(&self) -> (r: Vec<String>)
        ensures
            self.warnings_may_be(r.deep_view()),
    ;

    /// What installing these packages would do.
    fn install_plan(&self, targets: &[&str], clean_root: bool) -> (r: Result<InstallPlan>)
        ensures
            self.plan_may_be(targets@, clean_root, r),
    ;
}

} // verus!
