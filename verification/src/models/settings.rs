//! Bounded lighting values. Each type holds a number inside its valid range,
//! and only its constructors can make one.

use vstd::prelude::*;

verus! {

/// Brightness can be applied in any context, values from 10 to 100.
#[derive(Clone, Copy, Debug, PartialEq, Eq)]
pub struct Brightness {
    value: u8,
}

impl View for Brightness {
    type V = u8;

    closed spec fn view(&self) -> u8 {
        self.value
    }
}

impl Brightness {
    /// The brightness that holds `value`.
    pub closed spec fn of_value(value: u8) -> Brightness {
        Brightness { value: value }
    }

    /// A brightness is determined by the number it holds.
    pub proof fn lemma_of_value(v: Brightness)
        ensures
            Self::of_value(v@) == v,
    {
    }

    /// Whether `value` is a brightness percentage a light accepts.
    pub open spec fn in_range(value: u8) -> bool {
        10 <= value <= 100
    }

    #[verifier::type_invariant]
    spec fn well_formed(self) -> bool {
        Self::in_range(self.value)
    }

    /// Create a new Brightness with the default value.
    pub fn new() -> (b: Self)
        ensures
            b@ == 100,
    {
        Brightness { value: 100 }
    }

    /// Accessor for our read-only value.
    pub fn value(&self) -> (v: u8)
        ensures
            v == self@,
            Self::in_range(v),
    {
        proof {
            use_type_invariant(self);
        }
        self.value
    }

    /// Create a new Brightness with the given value, when it is within the
    /// valid range.
    pub fn create(value: u8) -> (r: Option<Self>)
        ensures
            r is Some <==> Self::in_range(value),
            r matches Some(b) ==> b@ == value,
    {
        if Self::valid(value) {
            Some(Brightness { value })
        } else {
            None
        }
    }

    /// Create a new Brightness with the given value, or with the default if
    /// the value is not within the valid range.
    pub fn create_or(value: u8) -> (b: Self)
        ensures
            b@ == if Self::in_range(value) { value } else { 100u8 },
    {
        Brightness { value: if Self::valid(value) { value } else { 100 } }
    }

    /// Check if the value is within the valid range.
    fn valid(value: u8) -> (ok: bool)
        ensures
            ok == Self::in_range(value),
    {
        10 <= value && value <= 100
    }
}

/// Speed can be applied to select scenes only, values from 20 to 200.
#[derive(Clone, Copy, Debug, PartialEq, Eq)]
pub struct Speed {
    value: u8,
}

impl View for Speed {
    type V = u8;

    closed spec fn view(&self) -> u8 {
        self.value
    }
}

impl Speed {
    /// The speed that holds `value`.
    pub closed spec fn of_value(value: u8) -> Speed {
        Speed { value: value }
    }

    /// A speed is determined by the number it holds.
    pub proof fn lemma_of_value(v: Speed)
        ensures
            Self::of_value(v@) == v,
    {
    }

    /// Whether `value` is a scene speed a light accepts.
    pub open spec fn in_range(value: u8) -> bool {
        20 <= value <= 200
    }

    #[verifier::type_invariant]
    spec fn well_formed(self) -> bool {
        Self::in_range(self.value)
    }

    /// Create a new speed setting with the default value.
    pub fn new() -> (s: Self)
        ensures
            s@ == 100,
    {
        Speed { value: 100 }
    }

    /// Accessor for our read-only value.
    pub fn value(&self) -> (v: u8)
        ensures
            v == self@,
            Self::in_range(v),
    {
        proof {
            use_type_invariant(self);
        }
        self.value
    }

    /// Create a new speed setting with the given value, when it is within
    /// the valid range.
    pub fn create(value: u8) -> (r: Option<Self>)
        ensures
            r is Some <==> Self::in_range(value),
            r matches Some(s) ==> s@ == value,
    {
        if Self::valid(value) {
            Some(Speed { value })
        } else {
            None
        }
    }

    /// Create a new speed setting with the given value if within the valid
    /// range, otherwise with the default value.
    pub fn create_or(value: u8) -> (s: Self)
        ensures
            s@ == if Self::in_range(value) { value } else { 100u8 },
    {
        Speed { value: if Self::valid(value) { value } else { 100 } }
    }

    fn valid(value: u8) -> (ok: bool)
        ensures
            ok == Self::in_range(value),
    {
        20 <= value && value <= 200
    }
}

/// Kelvin sets a temperature mode, values from 1000 to 8000.
#[derive(Clone, Copy, Debug, PartialEq, Eq)]
pub struct Kelvin {
    kelvin: u16,
}

impl View for Kelvin {
    type V = u16;

    closed spec fn view(&self) -> u16 {
        self.kelvin
    }
}

impl Kelvin {
    /// The temperature that holds `value`.
    pub closed spec fn of_value(value: u16) -> Kelvin {
        Kelvin { kelvin: value }
    }

    /// A temperature is determined by the number it holds.
    pub proof fn lemma_of_value(v: Kelvin)
        ensures
            Self::of_value(v@) == v,
    {
    }

    /// Whether `kelvin` is a colour temperature a light accepts.
    pub open spec fn in_range(kelvin: u16) -> bool {
        1000 <= kelvin <= 8000
    }

    #[verifier::type_invariant]
    spec fn well_formed(self) -> bool {
        Self::in_range(self.kelvin)
    }

    /// Create a new Kelvin setting with the default value.
    pub fn new() -> (k: Self)
        ensures
            k@ == 1000,
    {
        Kelvin { kelvin: 1000 }
    }

    /// Accessor for our read-only kelvin setting.
    pub fn kelvin(&self) -> (v: u16)
        ensures
            v == self@,
            Self::in_range(v),
    {
        proof {
            use_type_invariant(self);
        }
        self.kelvin
    }

    /// Create a new Kelvin setting with the given value, when it is within
    /// the valid range.
    pub fn create(kelvin: u16) -> (r: Option<Self>)
        ensures
            r is Some <==> Self::in_range(kelvin),
            r matches Some(k) ==> k@ == kelvin,
    {
        if 1000 <= kelvin && kelvin <= 8000 {
            Some(Kelvin { kelvin })
        } else {
            None
        }
    }
}

/// White describes a cool or warm white mode, values from 1 to 100.
#[derive(Clone, Copy, Debug, PartialEq, Eq)]
pub struct White {
    value: u8,
}

impl View for White {
    type V = u8;

    closed spec fn view(&self) -> u8 {
        self.value
    }
}

impl White {
    /// The white level that holds `value`.
    pub closed spec fn of_value(value: u8) -> White {
        White { value: value }
    }

    /// A white level is determined by the number it holds.
    pub proof fn lemma_of_value(v: White)
        ensures
            Self::of_value(v@) == v,
    {
    }

    /// Whether `value` is a white level a light accepts.
    pub open spec fn in_range(value: u8) -> bool {
        1 <= value <= 100
    }

    #[verifier::type_invariant]
    spec fn well_formed(self) -> bool {
        Self::in_range(self.value)
    }

    /// Create a new white setting with the default value.
    pub fn new() -> (w: Self)
        ensures
            w@ == 100,
    {
        White { value: 100 }
    }

    /// Accessor for our read-only value.
    pub fn value(&self) -> (v: u8)
        ensures
            v == self@,
            Self::in_range(v),
    {
        proof {
            use_type_invariant(self);
        }
        self.value
    }

    /// Create a new white setting with the given value, when it is within
    /// the valid range.
    pub fn create(value: u8) -> (r: Option<Self>)
        ensures
            r is Some <==> Self::in_range(value),
            r matches Some(w) ==> w@ == value,
    {
        if 1 <= value && value <= 100 {
            Some(White { value })
        } else {
            None
        }
    }
}

} // verus!
