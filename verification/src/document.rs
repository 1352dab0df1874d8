//! A minimal model of the document that tables are prepared into: a preamble
//! that records which packages the emitted markup will need.

use vstd::prelude::*;
use vstd::string::StringExecFns;

verus! {

/// The names recorded in a package list, each as its character sequence.
pub open spec fn package_views(packages: Seq<String>) -> Seq<Seq<char>> {
    packages.map_values(|p: String| p@)
}

/// The part of a document that precedes its body and declares the packages
/// the body's markup relies on.
pub struct Preamble {
    /// Packages requested so far, in request order.
    pub used_packages: Vec<String>,
}

impl Preamble {
    /// An empty preamble: no packages requested yet.
    pub fn new() -> (r: Preamble)
        ensures
            r.used_packages@ == Seq::<String>::empty(),
    {
        Preamble { used_packages: Vec::new() }
    }

    /// Record that the document needs `package`, appending it to the list.
    pub fn use_package(&mut self, package: &str)
        ensures
            package_views(final(self).used_packages@) == package_views(
                old(self).used_packages@,
            ).push(package@),
    {
        let name = String::from_str(package);
        self.used_packages.push(name);
        proof {
            assert(package_views(self.used_packages@) =~= package_views(
                old(self).used_packages@,
            ).push(package@));
        }
    }
}

/// A document under assembly: for this model, just its preamble.
pub struct Document {
    /// The preamble that collects package requirements.
    pub preamble: Preamble,
}

impl Document {
    /// A fresh document with an empty preamble.
    pub fn new() -> (r: Document)
        ensures
            r.preamble.used_packages@ == Seq::<String>::empty(),
    {
        Document { preamble: Preamble::new() }
    }
}

} // verus!
