use vstd::prelude::*;

verus! {

/// The capability tier of a connected device, derived once per connection and
/// immutable afterwards. Each tier supports every operation of the tiers
/// before it and more.
#[derive(Debug, Clone, Copy, PartialEq, Eq, Structural)]
pub enum IQOSModel {
    /// The baseline model, advertised with the marker word in its local name.
    One,
    /// The ILUMA model.
    Iluma,
    /// The ILUMA-i model or a later variant.
    IlumaI,
}

/// True when the marker word starts at position `i` of `s`.
pub open spec fn spec_marker_at(s: Seq<u8>, i: int) -> bool {
    &&& 0 <= i
    &&& i + 3 <= s.len()
    &&& s[i] == 0x4F
    &&& s[i + 1] == 0x4E
    &&& s[i + 2] == 0x45
}

/// True when the advertised name holds the baseline marker word anywhere.
pub open spec fn spec_contains_one_marker(s: Seq<u8>) -> bool {
    exists|i: int| spec_marker_at(s, i)
}

/// Scans an advertised local name for the baseline marker word.
pub fn contains_one_marker(name: &[u8]) -> (r: bool)
    ensures
        r == spec_contains_one_marker(name@),
{
    if name.len() < 3 {
        return false;
    }
    let mut i: usize = 0;
    while i <= name.len() - 3
        invariant
            name@.len() >= 3,
            i <= name@.len() - 2,
            forall|j: int| 0 <= j < i ==> !spec_marker_at(name@, j),
        decreases name@.len() - i,
    {
        if name[i] == 0x4F && name[i + 1] == 0x4E && name[i + 2] == 0x45 {
            proof {
                assert(spec_marker_at(name@, i as int));
            }
            return true;
        }
        i = i + 1;
    }
    false
}

impl IQOSModel {
    /// Classifies a device by its advertised local name alone: a name holding
    /// the baseline marker is the baseline model; any other name, or none,
    /// falls back to the richer ILUMA classification.
    pub fn from_local_name(name: Option<&Vec<u8>>) -> (r: IQOSModel)
        ensures
            r == IQOSModel::spec_from_local_name(name),
    {
        match name {
            Some(n) => {
                if contains_one_marker(n.as_slice()) {
                    IQOSModel::One
                } else {
                    IQOSModel::Iluma
                }
            },
            None => IQOSModel::Iluma,
        }
    }

    /// The classification that the advertised name alone yields.
    pub open spec fn spec_from_local_name(name: Option<&Vec<u8>>) -> IQOSModel {
        match name {
            Some(n) => if spec_contains_one_marker(n@) {
                IQOSModel::One
            } else {
                IQOSModel::Iluma
            },
            None => IQOSModel::Iluma,
        }
    }

    /// The full classification of a device from its advertised name and the
    /// results of the two protocol probes, when they were issued.
    ///
    /// A name holding the baseline marker settles the tier by itself; no probe
    /// result is consulted. Otherwise a well-formed, non-empty holder product
    /// number puts the device at ILUMA or above, and the variant probe picks
    /// between the two upper tiers. Whenever the evidence is inconclusive the
    /// richer tier is assumed, so that working features are never silently
    /// disabled.
    pub open spec fn spec_classify(
        name: Option<&Vec<u8>>,
        holder_product_number: Option<&Vec<u8>>,
        variant_probe: Option<bool>,
    ) -> IQOSModel {
        if name is Some && spec_contains_one_marker(name->0@) {
            IQOSModel::One
        } else if holder_product_number matches Some(h) && h@.len() > 0 && variant_probe == Some(
            false,
        ) {
            IQOSModel::Iluma
        } else {
            IQOSModel::IlumaI
        }
    }

    /// Classifies a device from its advertised name, the holder product number
    /// read by the first probe (if any arrived), and the variant probe's
    /// verdict (if one was issued).
    pub fn classify(
        name: Option<&Vec<u8>>,
        holder_product_number: Option<&Vec<u8>>,
        variant_probe: Option<bool>,
    ) -> (r: IQOSModel)
        ensures
            r == IQOSModel::spec_classify(name, holder_product_number, variant_probe),
    {
        if let Some(n) = name {
            if contains_one_marker(n.as_slice()) {
                return IQOSModel::One;
            }
        }
        if let Some(h) = holder_product_number {
            if h.len() > 0 && variant_probe == Some(false) {
                return IQOSModel::Iluma;
            }
        }
        IQOSModel::IlumaI
    }

    /// The model's display name.
    pub fn text(&self) -> (r: String)
        ensures
            self is One ==> r@ == "ONE"@,
            self is Iluma ==> r@ == "ILUMA"@,
            self is IlumaI ==> r@ == "ILUMA-i"@,
    {
        match self {
            IQOSModel::One => "ONE".to_owned(),
            IQOSModel::Iluma => "ILUMA".to_owned(),
            IQOSModel::IlumaI => "ILUMA-i".to_owned(),
        }
    }
}

} // verus!
