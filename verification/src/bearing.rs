use vstd::prelude::*;
use vstd::string::StringExecFns;

verus! {

/// A compass direction: one of the four cardinal points or one of the
/// four quadrants between them.
#[derive(PartialEq, Eq, Structural, Debug, Copy, Clone)]
pub enum Bearing {
    North,
    NorthEast,
    SouthEast,
    South,
    SouthWest,
    West,
    NorthWest,
    East,
}

/// The bearing of a coordinate in decimal degrees: North or South for a
/// latitude, East or West for a longitude, the second of each pair when the
/// value is negative.
pub open spec fn hemisphere_bearing(is_latitude: bool, negative: bool) -> Bearing {
    if is_latitude {
        if negative { Bearing::South } else { Bearing::North }
    } else {
        if negative { Bearing::West } else { Bearing::East }
    }
}

impl Bearing {
    /// Whether this bearing points into the northern hemisphere.
    #[verifier::allow_in_spec]
    pub fn is_northern(&self) -> bool
        returns
            *self is North || *self is NorthEast || *self is NorthWest,
    {
        match self {
            Bearing::North | Bearing::NorthEast | Bearing::NorthWest => true,
            _ => false,
        }
    }

    /// Whether this bearing points into the southern hemisphere.
    #[verifier::allow_in_spec]
    pub fn is_southern(&self) -> bool
        returns
            *self is South || *self is SouthEast || *self is SouthWest,
    {
        match self {
            Bearing::South | Bearing::SouthEast | Bearing::SouthWest => true,
            _ => false,
        }
    }

    /// Whether this bearing points into the eastern hemisphere.
    #[verifier::allow_in_spec]
    pub fn is_eastern(&self) -> bool
        returns
            *self is East || *self is NorthEast || *self is SouthEast,
    {
        match self {
            Bearing::East | Bearing::NorthEast | Bearing::SouthEast => true,
            _ => false,
        }
    }

    /// Whether this bearing points into the western hemisphere.
    #[verifier::allow_in_spec]
    pub fn is_western(&self) -> bool
        returns
            *self is West || *self is NorthWest || *self is SouthWest,
    {
        match self {
            Bearing::West | Bearing::NorthWest | Bearing::SouthWest => true,
            _ => false,
        }
    }

    /// Whether an angle in this bearing counts as negative when it is
    /// written in decimal degrees: southern latitudes and western
    /// longitudes are negative.
    #[verifier::allow_in_spec]
    pub fn is_negative(&self) -> bool
        returns
            self.is_southern() || self.is_western(),
    {
        self.is_southern() || self.is_western()
    }

    /// The bearing of a coordinate given in decimal degrees: a latitude
    /// is North or South, a longitude East or West, and `negative` (the
    /// sign of the decimal value) picks the southern or western one.
    pub fn from_hemisphere(is_latitude: bool, negative: bool) -> (b: Bearing)
        ensures
            b == hemisphere_bearing(is_latitude, negative),
    {
        if is_latitude {
            if negative {
                Bearing::South
            } else {
                Bearing::North
            }
        } else {
            if negative {
                Bearing::West
            } else {
                Bearing::East
            }
        }
    }

    /// The letters by which the bearing is written: "N", "NE", "SE", "S",
    /// "SW", "W", "NW" or "E".
    pub open spec fn symbol(self) -> Seq<char> {
        match self {
            Bearing::North => seq!['N'],
            Bearing::NorthEast => seq!['N', 'E'],
            Bearing::SouthEast => seq!['S', 'E'],
            Bearing::South => seq!['S'],
            Bearing::SouthWest => seq!['S', 'W'],
            Bearing::West => seq!['W'],
            Bearing::NorthWest => seq!['N', 'W'],
            Bearing::East => seq!['E'],
        }
    }

    /// Writes the bearing as its letters (see `symbol`).
    pub fn to_string(&self) -> (s: String)
        ensures
            s@ == self.symbol(),
    {
        match self {
            Bearing::North => {
                proof {
                    reveal_strlit("N");
                }
                String::from_str("N")
            },
            Bearing::NorthEast => {
                proof {
                    reveal_strlit("NE");
                }
                String::from_str("NE")
            },
            Bearing::NorthWest => {
                proof {
                    reveal_strlit("NW");
                }
                String::from_str("NW")
            },
            Bearing::South => {
                proof {
                    reveal_strlit("S");
                }
                String::from_str("S")
            },
            Bearing::SouthEast => {
                proof {
                    reveal_strlit("SE");
                }
                String::from_str("SE")
            },
            Bearing::SouthWest => {
                proof {
                    reveal_strlit("SW");
                }
                String::from_str("SW")
            },
            Bearing::East => {
                proof {
                    reveal_strlit("E");
                }
                String::from_str("E")
            },
            Bearing::West => {
                proof {
                    reveal_strlit("W");
                }
                String::from_str("W")
            },
        }
    }
}

/// No bearing points both north and south.
pub proof fn lemma_north_south_exclusive(b: Bearing)
    ensures
        !(b.is_northern() && b.is_southern()),
{
}

/// No bearing points both east and west.
pub proof fn lemma_east_west_exclusive(b: Bearing)
    ensures
        !(b.is_eastern() && b.is_western()),
{
}

/// Every bearing points into at least one hemisphere.
pub proof fn lemma_some_hemisphere(b: Bearing)
    ensures
        b.is_northern() || b.is_southern() || b.is_eastern() || b.is_western(),
{
}

/// The written form of a bearing names its hemispheres: it starts with
/// 'N' exactly when the bearing is northern and with 'S' exactly when it is
/// southern, and ends with 'E' exactly when it is eastern and with 'W'
/// exactly when it is western.
pub proof fn lemma_symbol_names_hemispheres(b: Bearing)
    ensures
        b.symbol().len() > 0,
        b.is_northern() <==> b.symbol()[0] == 'N',
        b.is_southern() <==> b.symbol()[0] == 'S',
        b.is_eastern() <==> b.symbol().last() == 'E',
        b.is_western() <==> b.symbol().last() == 'W',
{
}

/// Reading a decimal coordinate's bearing back keeps its sign, and
/// latitudes get northern or southern bearings while longitudes get eastern
/// or western ones.
pub proof fn lemma_hemisphere_sign_round_trip(is_latitude: bool, negative: bool)
    ensures
        ({
            let b = hemisphere_bearing(is_latitude, negative);
            &&& b.is_negative() == negative
            &&& is_latitude <==> (b.is_northern() || b.is_southern())
            &&& !is_latitude <==> (b.is_eastern() || b.is_western())
        }),
{
}

} // verus!
