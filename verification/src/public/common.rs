use vstd::prelude::*;

verus! {

/// The colour of a piece.
#[derive(Clone, Copy, Debug, PartialEq, Eq, Hash, Structural)]
pub enum Color {
    Green,
    Yellow,
    Red,
    Blue,
}

/// The size of a piece, ordered small < medium < large.
#[derive(Clone, Copy, Debug, PartialEq, Eq, Hash, Structural)]
pub enum Size {
    Small,
    Medium,
    Large,
}

/// A special capability that a turn may grant.
#[derive(Clone, Copy, Debug, PartialEq, Eq, Hash, Structural)]
pub enum Power {
    Build,
    Move,
    Captute,
    Trade,
}

/// A piece: two pieces of the same colour and size are interchangeable.
#[derive(Clone, Copy, Debug, PartialEq, Eq, Hash, Structural)]
pub struct Pyramid {
    pub color: Color,
    pub size: Size,
}

/// One of the two players.
#[derive(Clone, Copy, Debug, PartialEq, Eq, Hash, Structural)]
pub enum Player {
    First,
    Second,
}

/// Number of distinct pieces, and so of distinct ledger keys.
pub const PIECE_KINDS: u8 = 12;

impl Color {
    /// Position of the colour among the four colours.
    pub open spec fn spec_index(self) -> u8 {
        match self {
            Color::Green => 0,
            Color::Yellow => 1,
            Color::Red => 2,
            Color::Blue => 3,
        }
    }

    /// Position of the colour among the four colours.
    pub fn index(&self) -> (i: u8)
        ensures
            i == self.spec_index(),
            i < 4,
    {
        match self {
            Color::Green => 0,
            Color::Yellow => 1,
            Color::Red => 2,
            Color::Blue => 3,
        }
    }
}

impl Size {
    /// Position of the size among the three sizes, smallest first.
    pub open spec fn spec_index(self) -> u8 {
        match self {
            Size::Small => 0,
            Size::Medium => 1,
            Size::Large => 2,
        }
    }

    /// Position of the size among the three sizes, smallest first.
    pub fn index(&self) -> (i: u8)
        ensures
            i == self.spec_index(),
            i < 3,
    {
        match self {
            Size::Small => 0,
            Size::Medium => 1,
            Size::Large => 2,
        }
    }
}

impl Pyramid {
    /// The integer under which a ledger files this piece.
    pub open spec fn spec_code(self) -> u8 {
        (self.color.spec_index() * 3 + self.size.spec_index()) as u8
    }

    /// The integer under which a ledger files this piece: distinct pieces
    /// have distinct codes, all below [`PIECE_KINDS`].
    pub fn code(&self) -> (c: u8)
        ensures
            c == self.spec_code(),
            c < PIECE_KINDS,
    {
        self.color.index() * 3 + self.size.index()
    }

    /// Every integer below the number of piece kinds is the code of a piece.
    pub proof fn lemma_code_onto(code: u8)
        requires
            code < PIECE_KINDS,
        ensures
            exists|piece: Pyramid| #[trigger] piece.spec_code() == code,
    {
        let piece = Pyramid {
            color: if code < 3 {
                Color::Green
            } else if code < 6 {
                Color::Yellow
            } else if code < 9 {
                Color::Red
            } else {
                Color::Blue
            },
            size: if code % 3 == 0 {
                Size::Small
            } else if code % 3 == 1 {
                Size::Medium
            } else {
                Size::Large
            },
        };
        assert(piece.spec_code() == code);
    }

    /// Equal codes mean equal pieces, and every code is below the number of
    /// piece kinds.
    pub proof fn lemma_code_injective(a: Pyramid, b: Pyramid)
        ensures
            a.spec_code() < PIECE_KINDS,
            a.spec_code() == b.spec_code() <==> a == b,
    {
    }
}

impl Player {
    /// The other player.
    pub open spec fn spec_opponent(self) -> Player {
        match self {
            Player::First => Player::Second,
            Player::Second => Player::First,
        }
    }

    /// The other player.
    pub fn opponent(&self) -> (other: Player)
        ensures
            other == self.spec_opponent(),
            other != *self,
    {
        match self {
            Player::First => Player::Second,
            Player::Second => Player::First,
        }
    }
}

/// A count of at least one and at most 255: what a ledger stores for a key
/// that is present, and how often a pending power may still be used.
#[derive(Clone, Copy, Debug, PartialEq, Eq, Hash)]
pub struct Count {
    value: u8,
}

impl View for Count {
    type V = nat;

    closed spec fn view(&self) -> nat {
        self.value as nat
    }
}

impl Count {
    #[verifier::type_invariant]
    closed spec fn positive(self) -> bool {
        self.value >= 1
    }

    /// The count `value`, unless `value` is zero.
    pub fn new(value: u8) -> (count: Option<Count>)
        ensures
            value == 0 <==> count is None,
            count is Some ==> count->0@ == value,
    {
        if value == 0 {
            None
        } else {
            Some(Count { value })
        }
    }

    /// The count of exactly one.
    pub fn one() -> (count: Count)
        ensures
            count@ == 1,
    {
        Count { value: 1 }
    }

    /// The number that this count stands for.
    pub fn get(&self) -> (value: u8)
        ensures
            value == self@,
            value >= 1,
    {
        proof {
            use_type_invariant(self);
        }
        self.value
    }

    /// This count plus `other`, unless the sum exceeds 255.
    pub fn checked_add(&self, other: u8) -> (sum: Option<Count>)
        ensures
            self@ + other <= 255 <==> sum is Some,
            sum is Some ==> sum->0@ == self@ + other,
    {
        proof {
            use_type_invariant(self);
        }
        if other <= 255 - self.value {
            Some(Count { value: self.value + other })
        } else {
            None
        }
    }

    /// This count less one, unless that would be zero.
    pub fn checked_pred(&self) -> (pred: Option<Count>)
        ensures
            self@ <= 1 <==> pred is None,
            pred is Some ==> pred->0@ == self@ - 1,
    {
        if self.value > 1 {
            Some(Count { value: self.value - 1 })
        } else {
            None
        }
    }

    /// No count exceeds 255, and two counts of the same number are equal.
    pub proof fn lemma_view(a: Count, b: Count)
        ensures
            a@ <= 255,
            a@ == b@ <==> a == b,
    {
    }
}

} // verus!
