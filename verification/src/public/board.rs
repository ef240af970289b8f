use super::common::{Count, Player, Pyramid, PIECE_KINDS};
use std::collections::HashMap;
use vstd::prelude::*;

verus! {

broadcast use vstd::std_specs::hash::group_hash_axioms;

/// A star: a piece at the centre of a star system.
#[derive(Clone, Copy, Debug, PartialEq, Eq, Structural)]
pub struct Star(pub Pyramid);

/// Which of the two stars of a binary system.
#[derive(Clone, Copy, Debug, PartialEq, Eq, Structural)]
pub enum BinaryStarId {
    Alpha,
    Beta,
}

/// The centre of a star system: no star, one star or a pair.
#[derive(Clone, Copy, Debug, PartialEq, Eq, Structural)]
pub enum StarSystemCenter {
    Empty,
    SingleStar(Star),
    BinaryStar { alpha: Star, beta: Star },
}

/// A starship: two starships of the same piece are the same ledger key.
#[derive(Clone, Copy, Debug, PartialEq, Eq, Hash, Structural)]
pub struct Starship(pub Pyramid);

/// What a ledger holds: the number of each piece whose code is a key of the
/// ledger.
pub open spec fn ledger_counts(entries: Map<u8, Count>) -> Map<Pyramid, nat> {
    Map::new(
        |piece: Pyramid| entries.contains_key(piece.spec_code()),
        |piece: Pyramid| entries[piece.spec_code()]@,
    )
}

/// Every key of the ledger is the code of a piece and every stored count is
/// at least one.
pub open spec fn ledger_wf(entries: Map<u8, Count>) -> bool {
    forall|code: u8| #[trigger]
        entries.contains_key(code) ==> code < PIECE_KINDS && entries[code]@ >= 1
}

/// Whether every key of the ledger has a count of at least one and at most
/// 255.
pub open spec fn counts_positive<K>(ledger: Map<K, nat>) -> bool {
    forall|key: K| #[trigger] ledger.contains_key(key) ==> 1 <= ledger[key] <= 255
}

/// A player's ledger of the starships present in one star system, filed
/// under the code of each starship's piece.
#[derive(Debug, PartialEq, Eq)]
pub struct Fleet {
    pub starships: HashMap<u8, Count>,
}

/// The shared ledger of the pieces that no fleet and no star holds, filed
/// under the code of each piece.
#[derive(Debug, PartialEq, Eq)]
pub struct Bank {
    pub pyramids: HashMap<u8, Count>,
}

impl Starship {
    /// The integer under which a fleet files this starship.
    pub open spec fn spec_code(self) -> u8 {
        self.0.spec_code()
    }

    /// The integer under which a fleet files this starship.
    pub fn code(&self) -> (c: u8)
        ensures
            c == self.spec_code(),
            c < PIECE_KINDS,
    {
        self.0.code()
    }
}

impl View for Fleet {
    type V = Map<Starship, nat>;

    open spec fn view(&self) -> Map<Starship, nat> {
        Map::new(
            |ship: Starship| self.starships@.contains_key(ship.spec_code()),
            |ship: Starship| self.starships@[ship.spec_code()]@,
        )
    }
}

impl Fleet {
    /// Every key of the fleet is the code of a starship and every count is
    /// at least one.
    pub open spec fn wf(&self) -> bool {
        ledger_wf(self.starships@)
    }

    /// A well-formed fleet holds each of its starships at least once and at
    /// most 255 times.
    pub proof fn lemma_counts_positive(&self)
        requires
            self.wf(),
        ensures
            counts_positive(self@),
    {
        assert forall|ship: Starship| #[trigger] self@.contains_key(ship) implies 1 <= self@[ship]
            <= 255 by {
            Count::lemma_view(self.starships@[ship.spec_code()], self.starships@[ship.spec_code()]);
        }
    }

    /// How many starships like `starship` the fleet holds, if any.
    pub fn get(&self, starship: &Starship) -> (count: Option<Count>)
        ensures
            match count {
                Some(c) => self@.get(*starship) == Some(c@),
                None => !self@.contains_key(*starship),
            },
    {
        let code = starship.code();
        match self.starships.get(&code) {
            Some(count) => Some(*count),
            None => None,
        }
    }

    /// Whether the fleet holds a starship like `starship`.
    pub fn contains_key(&self, starship: &Starship) -> (held: bool)
        ensures
            held == self@.contains_key(*starship),
    {
        let code = starship.code();
        self.starships.contains_key(&code)
    }

    /// Sets the number of starships like `starship` to `count`, and returns
    /// the number that the fleet held before, if any.
    pub fn insert(&mut self, starship: Starship, count: Count) -> (previous: Option<Count>)
        ensures
            final(self)@ == old(self)@.insert(starship, count@),
            old(self).wf() ==> final(self).wf(),
            match previous {
                Some(c) => old(self)@.get(starship) == Some(c@),
                None => !old(self)@.contains_key(starship),
            },
    {
        let code = starship.code();
        // Reading the count shows that it is at least one.
        let _: u8 = count.get();
        let previous = self.starships.insert(code, count);
        proof {
            assert forall|ship: Starship| #[trigger]
                ship.spec_code() == starship.spec_code() implies ship == starship by {
                Pyramid::lemma_code_injective(ship.0, starship.0);
            }
            assert(count@ >= 1);
            assert(self@ =~= old(self)@.insert(starship, count@));
        }
        previous
    }

    /// Whether the fleet holds no starship at all.
    pub fn is_empty(&self) -> (empty: bool)
        requires
            self.wf(),
        ensures
            empty == self@.is_empty(),
    {
        let empty = self.starships.is_empty();
        proof {
            if !empty {
                let code = self.starships@.dom().choose();
                assert(self.starships@.contains_key(code));
                Pyramid::lemma_code_onto(code);
                let piece = choose|piece: Pyramid| #[trigger] piece.spec_code() == code;
                assert(self@.contains_key(Starship(piece)));
            }
        }
        empty
    }
}

impl Default for Fleet {
    /// The fleet without starships.
    fn default() -> (fleet: Fleet)
        ensures
            fleet@ == Map::<Starship, nat>::empty(),
            fleet.wf(),
    {
        let fleet = Fleet { starships: HashMap::new() };
        assert(fleet@ =~= Map::<Starship, nat>::empty());
        fleet
    }
}

impl View for Bank {
    type V = Map<Pyramid, nat>;

    open spec fn view(&self) -> Map<Pyramid, nat> {
        ledger_counts(self.pyramids@)
    }
}

impl Bank {
    /// Every key of the bank is the code of a piece and every count is at
    /// least one.
    pub open spec fn wf(&self) -> bool {
        ledger_wf(self.pyramids@)
    }

    /// A well-formed bank holds each of its pieces at least once and at most
    /// 255 times.
    pub proof fn lemma_counts_positive(&self)
        requires
            self.wf(),
        ensures
            counts_positive(self@),
    {
        assert forall|piece: Pyramid| #[trigger] self@.contains_key(piece) implies 1
            <= self@[piece] <= 255 by {
            Count::lemma_view(
                self.pyramids@[piece.spec_code()],
                self.pyramids@[piece.spec_code()],
            );
        }
    }

    /// How many pieces like `pyramid` the bank holds, if any.
    pub fn get(&self, pyramid: &Pyramid) -> (count: Option<Count>)
        ensures
            match count {
                Some(c) => self@.get(*pyramid) == Some(c@),
                None => !self@.contains_key(*pyramid),
            },
    {
        let code = pyramid.code();
        match self.pyramids.get(&code) {
            Some(count) => Some(*count),
            None => None,
        }
    }

    /// Whether the bank holds a piece like `pyramid`.
    pub fn contains_key(&self, pyramid: &Pyramid) -> (held: bool)
        ensures
            held == self@.contains_key(*pyramid),
    {
        let code = pyramid.code();
        self.pyramids.contains_key(&code)
    }

    /// Sets the number of pieces like `pyramid` to `count`, and returns
    /// the number that the bank held before, if any.
    pub fn insert(&mut self, pyramid: Pyramid, count: Count) -> (previous: Option<Count>)
        ensures
            final(self)@ == old(self)@.insert(pyramid, count@),
            old(self).wf() ==> final(self).wf(),
            match previous {
                Some(c) => old(self)@.get(pyramid) == Some(c@),
                None => !old(self)@.contains_key(pyramid),
            },
    {
        let code = pyramid.code();
        // Reading the count shows that it is at least one.
        let _: u8 = count.get();
        let previous = self.pyramids.insert(code, count);
        proof {
            assert forall|piece: Pyramid| #[trigger]
                piece.spec_code() == pyramid.spec_code() implies piece == pyramid by {
                Pyramid::lemma_code_injective(piece, pyramid);
            }
            assert(count@ >= 1);
            assert(self@ =~= old(self)@.insert(pyramid, count@));
        }
        previous
    }
}

impl Default for Bank {
    /// The bank without pieces.
    fn default() -> (bank: Bank)
        ensures
            bank@ == Map::<Pyramid, nat>::empty(),
            bank.wf(),
    {
        let bank = Bank { pyramids: HashMap::new() };
        assert(bank@ =~= Map::<Pyramid, nat>::empty());
        bank
    }
}

/// A star system: a named centre with one fleet for each player.
#[derive(Debug, PartialEq, Eq)]
pub struct StarSystem {
    pub name: String,
    pub center: StarSystemCenter,
    pub fleet_first: Fleet,
    pub fleet_second: Fleet,
    pub is_homeworld_for: Option<Player>,
}

/// What a star system is, as plain values.
pub struct StarSystemView {
    pub name: Seq<char>,
    pub center: StarSystemCenter,
    pub fleet_first: Map<Starship, nat>,
    pub fleet_second: Map<Starship, nat>,
    pub is_homeworld_for: Option<Player>,
}

impl StarSystemView {
    /// The fleet of `player` in this system.
    pub open spec fn fleet(self, player: Player) -> Map<Starship, nat> {
        match player {
            Player::First => self.fleet_first,
            Player::Second => self.fleet_second,
        }
    }

    /// This system with the fleet of `player` replaced by `fleet`.
    pub open spec fn with_fleet(self, player: Player, fleet: Map<Starship, nat>) -> StarSystemView {
        match player {
            Player::First => StarSystemView { fleet_first: fleet, ..self },
            Player::Second => StarSystemView { fleet_second: fleet, ..self },
        }
    }

    /// Whether both fleets hold each of their starships at least once.
    pub open spec fn counts_positive(self) -> bool {
        counts_positive(self.fleet_first) && counts_positive(self.fleet_second)
    }
}

impl View for StarSystem {
    type V = StarSystemView;

    open spec fn view(&self) -> StarSystemView {
        StarSystemView {
            name: self.name@,
            center: self.center,
            fleet_first: self.fleet_first@,
            fleet_second: self.fleet_second@,
            is_homeworld_for: self.is_homeworld_for,
        }
    }
}

impl StarSystem {
    /// Both fleets of the system are well formed.
    pub open spec fn wf(&self) -> bool {
        self.fleet_first.wf() && self.fleet_second.wf()
    }

    /// The fleets of a well-formed system hold each of their starships at
    /// least once.
    pub proof fn lemma_counts_positive(&self)
        requires
            self.wf(),
        ensures
            self@.counts_positive(),
    {
        self.fleet_first.lemma_counts_positive();
        self.fleet_second.lemma_counts_positive();
    }

    /// The fleet of `player` in this system.
    pub open spec fn spec_fleet(&self, player: Player) -> Fleet {
        match player {
            Player::First => self.fleet_first,
            Player::Second => self.fleet_second,
        }
    }

    /// The fleet of `player` in this system.
    pub fn fleet(&self, player: Player) -> (fleet: &Fleet)
        ensures
            *fleet == self.spec_fleet(player),
            fleet@ == self@.fleet(player),
    {
        match player {
            Player::First => &self.fleet_first,
            Player::Second => &self.fleet_second,
        }
    }

    /// The fleet of `player` in this system, to be changed in place: nothing
    /// else of the system changes.
    pub fn fleet_mut(&mut self, player: Player) -> (fleet: &mut Fleet)
        ensures
            *fleet == old(self).spec_fleet(player),
            final(self).spec_fleet(player) == *final(fleet),
            final(self).spec_fleet(player.spec_opponent()) == old(self).spec_fleet(
                player.spec_opponent(),
            ),
            final(self).name == old(self).name,
            final(self).center == old(self).center,
            final(self).is_homeworld_for == old(self).is_homeworld_for,
    {
        match player {
            Player::First => &mut self.fleet_first,
            Player::Second => &mut self.fleet_second,
        }
    }
}

/// The board: the bank, the two fixed homeworlds and the systems discovered
/// during play.
#[derive(Debug, PartialEq, Eq)]
pub struct GameBoard {
    pub bank: Bank,
    pub homeworld_first: StarSystem,
    pub homeworld_second: StarSystem,
    pub discovered_systems: Vec<StarSystem>,
}

/// What a board is, as plain values.
pub struct GameBoardView {
    pub bank: Map<Pyramid, nat>,
    pub homeworld_first: StarSystemView,
    pub homeworld_second: StarSystemView,
    pub discovered_systems: Seq<StarSystemView>,
}

/// The views of the systems of a list, in the order of the list.
pub open spec fn system_views(systems: Seq<StarSystem>) -> Seq<StarSystemView> {
    Seq::new(systems.len(), |i: int| systems[i]@)
}

impl GameBoardView {
    /// Whether the bank and every fleet on the board hold each of their
    /// pieces at least once.
    pub open spec fn counts_positive(self) -> bool {
        &&& counts_positive(self.bank)
        &&& self.homeworld_first.counts_positive()
        &&& self.homeworld_second.counts_positive()
        &&& forall|i: int|
            0 <= i < self.discovered_systems.len() ==> (
            #[trigger] self.discovered_systems[i]).counts_positive()
    }
}

impl View for GameBoard {
    type V = GameBoardView;

    open spec fn view(&self) -> GameBoardView {
        GameBoardView {
            bank: self.bank@,
            homeworld_first: self.homeworld_first@,
            homeworld_second: self.homeworld_second@,
            discovered_systems: system_views(self.discovered_systems@),
        }
    }
}

impl GameBoard {
    /// The bank and the fleets of every system on the board are well formed.
    pub open spec fn wf(&self) -> bool {
        &&& self.bank.wf()
        &&& self.homeworld_first.wf()
        &&& self.homeworld_second.wf()
        &&& forall|i: int|
            0 <= i < self.discovered_systems@.len() ==> (#[trigger] self.discovered_systems@[i]).wf()
    }

    /// The bank and every fleet of a well-formed board hold each of their
    /// pieces at least once.
    pub proof fn lemma_counts_positive(&self)
        requires
            self.wf(),
        ensures
            self@.counts_positive(),
    {
        self.bank.lemma_counts_positive();
        self.homeworld_first.lemma_counts_positive();
        self.homeworld_second.lemma_counts_positive();
        assert forall|i: int| 0 <= i < self@.discovered_systems.len() implies (
        #[trigger] self@.discovered_systems[i]).counts_positive() by {
            self.discovered_systems@[i].lemma_counts_positive();
        }
    }
}

} // verus!
