//! The supported beam types and their names.

use itertools::Itertools;
use vstd::prelude::*;

verus! {

/// Supported beam types.
#[derive(Debug, Clone, Copy, PartialEq, Eq, Structural)]
pub enum BeamType {
    /// Fully-embedded element beam.
    FEE,

    /// No beam: only returns identity matrices.
    NoBeam,

    /// A Gaussian main lobe for SKA-Low stations.
    SkaGaussian,

    /// An Airy disk for SKA-Low stations.
    SkaAiry,

    /// The array factor of the elements of SKA-Low stations.
    SkaArrayFactor,
}

/// The beam type of that name, if there is one.
pub open spec fn type_named(name: Seq<char>) -> Option<BeamType> {
    if name == "fee"@ {
        Some(BeamType::FEE)
    } else if name == "none"@ {
        Some(BeamType::NoBeam)
    } else if name == "ska_gaussian"@ {
        Some(BeamType::SkaGaussian)
    } else if name == "ska_airy"@ {
        Some(BeamType::SkaAiry)
    } else if name == "ska_array_factor"@ {
        Some(BeamType::SkaArrayFactor)
    } else {
        None
    }
}

/// The texts one after another, with a separator between each two.
pub open spec fn joined(texts: Seq<Seq<char>>, separator: Seq<char>) -> Seq<char>
    decreases texts.len(),
{
    if texts.len() == 0 {
        Seq::empty()
    } else if texts.len() == 1 {
        texts[0]
    } else {
        joined(texts.drop_last(), separator) + separator + texts.last()
    }
}

/// `itertools::Itertools::join` on strings: the strings one after another, with
/// the separator between each two.
#[verifier::external_body]
fn join(texts: &Vec<String>, separator: &str) -> (r: String)
    ensures
        r@ == joined(texts@.map_values(|s: String| s@), separator@),
{
    texts.iter().join(separator)
}

impl BeamType {
    /// The name of this beam type.
    pub open spec fn spec_name(self) -> Seq<char> {
        match self {
            BeamType::FEE => "fee"@,
            BeamType::NoBeam => "none"@,
            BeamType::SkaGaussian => "ska_gaussian"@,
            BeamType::SkaAiry => "ska_airy"@,
            BeamType::SkaArrayFactor => "ska_array_factor"@,
        }
    }

    /// The name of this beam type.
    pub fn to_string(self) -> (name: String)
        ensures
            name@ == self.spec_name(),
    {
        match self {
            BeamType::FEE => "fee".to_owned(),
            BeamType::NoBeam => "none".to_owned(),
            BeamType::SkaGaussian => "ska_gaussian".to_owned(),
            BeamType::SkaAiry => "ska_airy".to_owned(),
            BeamType::SkaArrayFactor => "ska_array_factor".to_owned(),
        }
    }

    /// The beam type of that name, if there is one.
    pub fn from_str(name: &str) -> (r: Option<BeamType>)
        ensures
            r == type_named(name@),
    {
        let name: String = name.to_owned();
        if name == "fee".to_owned() {
            Some(BeamType::FEE)
        } else if name == "none".to_owned() {
            Some(BeamType::NoBeam)
        } else if name == "ska_gaussian".to_owned() {
            Some(BeamType::SkaGaussian)
        } else if name == "ska_airy".to_owned() {
            Some(BeamType::SkaAiry)
        } else if name == "ska_array_factor".to_owned() {
            Some(BeamType::SkaArrayFactor)
        } else {
            None
        }
    }

    /// All beam types, in the order in which they are listed.
    pub open spec fn spec_all() -> Seq<BeamType> {
        seq![
            BeamType::FEE,
            BeamType::NoBeam,
            BeamType::SkaGaussian,
            BeamType::SkaAiry,
            BeamType::SkaArrayFactor,
        ]
    }
}

impl Default for BeamType {
    fn default() -> (r: BeamType)
        ensures
            r == BeamType::SkaArrayFactor,
    {
        BeamType::SkaArrayFactor
    }
}

/// The names of all beam types, separated by commas.
pub fn beam_types_comma_separated() -> (r: String)
    ensures
        r@ == joined(BeamType::spec_all().map_values(|t: BeamType| t.spec_name()), ", "@),
{
    let mut names: Vec<String> = Vec::new();
    names.push(BeamType::FEE.to_string());
    names.push(BeamType::NoBeam.to_string());
    names.push(BeamType::SkaGaussian.to_string());
    names.push(BeamType::SkaAiry.to_string());
    names.push(BeamType::SkaArrayFactor.to_string());
    assert(names@.map_values(|s: String| s@) =~= BeamType::spec_all().map_values(
        |t: BeamType| t.spec_name(),
    ));
    join(&names, ", ")
}

proof fn lemma_names_differ()
    ensures
        forall|a: BeamType, b: BeamType| #[trigger]
            a.spec_name() == #[trigger] b.spec_name() ==> a == b,
{
    reveal_strlit("fee");
    reveal_strlit("none");
    reveal_strlit("ska_gaussian");
    reveal_strlit("ska_airy");
    reveal_strlit("ska_array_factor");
    assert("fee"@.len() == 3 && "none"@.len() == 4 && "ska_gaussian"@.len() == 12
        && "ska_airy"@.len() == 8 && "ska_array_factor"@.len() == 16);
}

/// Each beam type is found by its own name and by no other.
pub proof fn lemma_names_round_trip(t: BeamType, name: Seq<char>)
    ensures
        type_named(t.spec_name()) == Some(t),
        type_named(name) == Some(t) <==> name == t.spec_name(),
{
    lemma_names_differ();
    assert(BeamType::FEE.spec_name() == "fee"@);
    assert(BeamType::NoBeam.spec_name() == "none"@);
    assert(BeamType::SkaGaussian.spec_name() == "ska_gaussian"@);
    assert(BeamType::SkaAiry.spec_name() == "ska_airy"@);
    assert(BeamType::SkaArrayFactor.spec_name() == "ska_array_factor"@);
}

/// `spec_all` lists every beam type, each once.
pub proof fn lemma_all_types_listed(t: BeamType)
    ensures
        BeamType::spec_all().contains(t),
        BeamType::spec_all().no_duplicates(),
{
    let all = BeamType::spec_all();
    assert(all[0] == BeamType::FEE && all[1] == BeamType::NoBeam && all[2] == BeamType::SkaGaussian
        && all[3] == BeamType::SkaAiry && all[4] == BeamType::SkaArrayFactor);
}

} // verus!
