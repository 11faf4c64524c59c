use vstd::prelude::*;

verus! {

/// One external input artifact: fetched from `uri`, pinned by `blake2b`, a
/// hex-encoded expected digest whose length in hex characters, divided by
/// two, selects the digest size in bytes. `name` optionally overrides the
/// local file name; without it the name is derived from the URI.
pub struct Distfile {
    pub uri: String,
    pub blake2b: String,
    pub name: Option<String>,
}

/// The mathematical value of a `Distfile`.
pub ghost struct DistfileModel {
    pub uri: Seq<char>,
    pub blake2b: Seq<char>,
    pub name: Option<Seq<char>>,
}

impl View for Distfile {
    type V = DistfileModel;

    open spec fn view(&self) -> DistfileModel {
        DistfileModel {
            uri: self.uri@,
            blake2b: self.blake2b@,
            name: match self.name {
                Option::Some(n) => Option::Some(n@),
                Option::None => Option::None,
            },
        }
    }
}

/// The unit of work: a declarative package definition. `version` is used
/// only for artifact naming, `build` is the literal text of the build
/// script, `depends` is carried as inert metadata, and `distfiles` lists
/// the external inputs (absence means none).
pub struct Package {
    pub version: String,
    pub build: String,
    pub depends: Vec<String>,
    pub distfiles: Option<Vec<Distfile>>,
}

impl Package {
    /// The declared distfiles, in declaration order; an absent list means
    /// there are none.
    pub open spec fn spec_distfiles(&self) -> Seq<Distfile> {
        match self.distfiles {
            Option::Some(ds) => ds@,
            Option::None => Seq::empty(),
        }
    }
}

} // verus!
