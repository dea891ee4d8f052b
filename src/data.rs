use vstd::prelude::*;

verus! {

/// One note event of a melodic voice.
#[derive(Debug, Clone, Copy, PartialEq, Eq, Structural, Hash)]
pub enum NoteEvent {
    NoteOn { note: u8, velocity: u8 },
    NoteOff { note: u8 },
}

/// The twelve major keys.
#[derive(Debug, Clone, Copy, PartialEq, Eq, Structural, Hash)]
pub enum Tonality {
    CM,
    GM,
    DM,
    AM,
    EM,
    BM,
    GFM,
    DFM,
    AFM,
    EFM,
    BFM,
    FM,
}

/// The seven scale-degree harmonic functions (I to vii).
#[derive(Debug, Clone, Copy, PartialEq, Eq, Structural, Hash)]
pub enum Chord {
    First,
    Second,
    Third,
    Fourth,
    Fifth,
    Sixth,
    Seventh,
}

/// One bar of generated material: its harmonic tag and timed note events,
/// each event at an offset in milliseconds from the start of the bar.
#[derive(Debug, Clone)]
pub struct Bar {
    pub beat: u16,
    pub tonality: Tonality,
    pub chord: Chord,
    pub events: Vec<(u16, NoteEvent)>,
}

/// Position of a key in the declaration order of `Tonality`.
pub open spec fn tonality_index(t: Tonality) -> int {
    match t {
        Tonality::CM => 0,
        Tonality::GM => 1,
        Tonality::DM => 2,
        Tonality::AM => 3,
        Tonality::EM => 4,
        Tonality::BM => 5,
        Tonality::GFM => 6,
        Tonality::DFM => 7,
        Tonality::AFM => 8,
        Tonality::EFM => 9,
        Tonality::BFM => 10,
        Tonality::FM => 11,
    }
}

/// The key at a position of the declaration order; `FM` past the end.
pub open spec fn tonality_at(k: int) -> Tonality {
    if k == 0 {
        Tonality::CM
    } else if k == 1 {
        Tonality::GM
    } else if k == 2 {
        Tonality::DM
    } else if k == 3 {
        Tonality::AM
    } else if k == 4 {
        Tonality::EM
    } else if k == 5 {
        Tonality::BM
    } else if k == 6 {
        Tonality::GFM
    } else if k == 7 {
        Tonality::DFM
    } else if k == 8 {
        Tonality::AFM
    } else if k == 9 {
        Tonality::EFM
    } else if k == 10 {
        Tonality::BFM
    } else {
        Tonality::FM
    }
}

/// Position of a chord in the declaration order of `Chord`.
pub open spec fn chord_index(c: Chord) -> int {
    match c {
        Chord::First => 0,
        Chord::Second => 1,
        Chord::Third => 2,
        Chord::Fourth => 3,
        Chord::Fifth => 4,
        Chord::Sixth => 5,
        Chord::Seventh => 6,
    }
}

/// The chord at a position of the declaration order; `Seventh` past the end.
pub open spec fn chord_at(k: int) -> Chord {
    if k == 0 {
        Chord::First
    } else if k == 1 {
        Chord::Second
    } else if k == 2 {
        Chord::Third
    } else if k == 3 {
        Chord::Fourth
    } else if k == 4 {
        Chord::Fifth
    } else if k == 5 {
        Chord::Sixth
    } else {
        Chord::Seventh
    }
}

impl Tonality {
    /// Position in the declaration order.
    pub fn index(&self) -> (r: usize)
        ensures
            r == tonality_index(*self),
            r < 12,
    {
        match self {
            Tonality::CM => 0,
            Tonality::GM => 1,
            Tonality::DM => 2,
            Tonality::AM => 3,
            Tonality::EM => 4,
            Tonality::BM => 5,
            Tonality::GFM => 6,
            Tonality::DFM => 7,
            Tonality::AFM => 8,
            Tonality::EFM => 9,
            Tonality::BFM => 10,
            Tonality::FM => 11,
        }
    }

    /// The key at position `k` of the declaration order.
    pub fn from_index(k: usize) -> (r: Tonality)
        requires
            k < 12,
        ensures
            r == tonality_at(k as int),
            tonality_index(r) == k,
    {
        if k == 0 {
            Tonality::CM
        } else if k == 1 {
            Tonality::GM
        } else if k == 2 {
            Tonality::DM
        } else if k == 3 {
            Tonality::AM
        } else if k == 4 {
            Tonality::EM
        } else if k == 5 {
            Tonality::BM
        } else if k == 6 {
            Tonality::GFM
        } else if k == 7 {
            Tonality::DFM
        } else if k == 8 {
            Tonality::AFM
        } else if k == 9 {
            Tonality::EFM
        } else if k == 10 {
            Tonality::BFM
        } else {
            Tonality::FM
        }
    }
}

impl Chord {
    /// Position in the declaration order.
    pub fn index(&self) -> (r: usize)
        ensures
            r == chord_index(*self),
            r < 7,
    {
        match self {
            Chord::First => 0,
            Chord::Second => 1,
            Chord::Third => 2,
            Chord::Fourth => 3,
            Chord::Fifth => 4,
            Chord::Sixth => 5,
            Chord::Seventh => 6,
        }
    }

    /// The chord at position `k` of the declaration order.
    pub fn from_index(k: usize) -> (r: Chord)
        requires
            k < 7,
        ensures
            r == chord_at(k as int),
            chord_index(r) == k,
    {
        if k == 0 {
            Chord::First
        } else if k == 1 {
            Chord::Second
        } else if k == 2 {
            Chord::Third
        } else if k == 3 {
            Chord::Fourth
        } else if k == 4 {
            Chord::Fifth
        } else if k == 5 {
            Chord::Sixth
        } else {
            Chord::Seventh
        }
    }
}

} // verus!
