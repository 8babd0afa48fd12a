use vstd::prelude::*;

verus! {

/// The closed set of server distributions that can be provisioned.
#[derive(Clone, Copy, Debug, PartialEq, Eq, Structural)]
pub enum LoaderKind {
    Vanilla,
    NeoForge,
}

/// The display name under which a loader is selected; matching is exact.
pub open spec fn loader_name_spec(k: LoaderKind) -> Seq<char> {
    match k {
        LoaderKind::Vanilla => "Vanilla"@,
        LoaderKind::NeoForge => "NeoForge"@,
    }
}

/// The loader that a name selects, if any.
pub open spec fn loader_of_name(name: Seq<char>) -> Option<LoaderKind> {
    if name == loader_name_spec(LoaderKind::Vanilla) {
        Some(LoaderKind::Vanilla)
    } else if name == loader_name_spec(LoaderKind::NeoForge) {
        Some(LoaderKind::NeoForge)
    } else {
        None
    }
}

/// Exact, case-sensitive comparison of two strings.
pub fn same_text(a: &str, b: &str) -> (r: bool)
    ensures
        r == (a@ == b@),
{
    let x = String::from_str(a);
    let y = String::from_str(b);
    x == y
}

impl LoaderKind {
    /// Selects the loader registered under `name`.
    pub fn from_name(name: &str) -> (r: Option<LoaderKind>)
        ensures
            r == loader_of_name(name@),
    {
        if same_text(name, "Vanilla") {
            Some(LoaderKind::Vanilla)
        } else if same_text(name, "NeoForge") {
            Some(LoaderKind::NeoForge)
        } else {
            None
        }
    }

    /// The display name of this loader.
    pub fn name(&self) -> (r: &'static str)
        ensures
            r@ == loader_name_spec(*self),
    {
        match self {
            LoaderKind::Vanilla => "Vanilla",
            LoaderKind::NeoForge => "NeoForge",
        }
    }
}

} // verus!
