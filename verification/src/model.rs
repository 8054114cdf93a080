//! The playing surface and what stands on it: teams, skills, players,
//! zones, coordinates and the half-field grid itself.

use vstd::prelude::*;

verus! {

/// One of the two sides in a match.
#[derive(PartialEq, Eq, Structural, Clone, Copy, Debug)]
pub enum Team {
    Defender,
    Attacker,
}

impl Team {
    /// The other side; total and involutive.
    pub open spec fn opposite_spec(&self) -> Team {
        match self {
            Team::Attacker => Team::Defender,
            Team::Defender => Team::Attacker,
        }
    }

    #[verifier::when_used_as_spec(opposite_spec)]
    pub fn opposite(&self) -> (r: Team)
        ensures
            r == self.opposite_spec(),
    {
        match self {
            Team::Attacker => Team::Defender,
            Team::Defender => Team::Attacker,
        }
    }
}

/// Taking the opposite side twice returns to the starting side.
pub proof fn lemma_opposite_involutive(t: Team)
    ensures
        t.opposite_spec().opposite_spec() == t,
{
}

/// A per-player special ability. Skills are carried on the player but
/// have no effect on tackle, support or block-odds computation.
#[derive(PartialEq, Eq, Structural, Clone, Copy, Debug)]
pub enum Skill {
    Accurate,
    Block,
    Dodge,
    Fend,
    Guard,
}

/// The mathematical value of a [`Player`]: all of its attributes, with
/// the skill list abstracted to a sequence.
#[verifier::ext_equal]
pub ghost struct PlayerView {
    pub team: Team,
    pub ident: char,
    pub strength: u8,
    pub skills: Seq<Skill>,
}

/// A player piece: a display character unique within a match, a side, a
/// strength and a set of skills. Immutable value; every "modify"
/// operation returns a new value.
#[derive(PartialEq, Eq, Debug)]
pub struct Player {
    team: Team,
    ident: char,
    strength: u8,
    skills: Vec<Skill>,
}

impl View for Player {
    type V = PlayerView;

    closed spec fn view(&self) -> PlayerView {
        PlayerView {
            team: self.team,
            ident: self.ident,
            strength: self.strength,
            skills: self.skills@,
        }
    }
}

impl Player {
    /// The base constructor: a defender of strength 3 with no skills.
    pub fn new(ident: char) -> (p: Player)
        ensures
            p@ == (PlayerView {
                team: Team::Defender,
                ident,
                strength: 3,
                skills: Seq::empty(),
            }),
    {
        Player { team: Team::Defender, ident, strength: 3, skills: Vec::new() }
    }

    /// The same player with its strength replaced.
    pub fn with_strength(self, s: u8) -> (p: Player)
        ensures
            p@ == (PlayerView { strength: s, ..self@ }),
    {
        let Player { team, ident, strength: _, skills } = self;
        Player { team, ident, strength: s, skills }
    }

    /// The same player with its side replaced.
    pub fn with_team(self, team: Team) -> (p: Player)
        ensures
            p@ == (PlayerView { team, ..self@ }),
    {
        let Player { team: _, ident, strength, skills } = self;
        Player { team, ident, strength, skills }
    }

    /// The same player with its skill list replaced.
    pub fn with_skills(self, s: Vec<Skill>) -> (p: Player)
        ensures
            p@ == (PlayerView { skills: s@, ..self@ }),
    {
        let Player { team, ident, strength, skills: _ } = self;
        Player { team, ident, strength, skills: s }
    }

    /// Chaining the attribute setters onto the base constructor yields
    /// exactly the directly-specified value: the setters keep every other
    /// attribute and hide no state.
    pub fn assemble(ident: char, team: Team, strength: u8, skills: Vec<Skill>) -> (p: Player)
        ensures
            p@ == (PlayerView { team, ident, strength, skills: skills@ }),
    {
        Player::new(ident).with_team(team).with_strength(strength).with_skills(skills)
    }

    pub fn ident(&self) -> (r: char)
        ensures
            r == self@.ident,
    {
        self.ident
    }

    pub fn strength(&self) -> (r: u8)
        ensures
            r == self@.strength,
    {
        self.strength
    }

    pub fn team(&self) -> (r: Team)
        ensures
            r == self@.team,
    {
        self.team
    }

    pub fn skills(&self) -> (r: &[Skill])
        ensures
            r@ == self@.skills,
    {
        self.skills.as_slice()
    }
}

impl Clone for Player {
    /// A clone carries exactly the attributes of the original.
    fn clone(&self) -> (r: Self)
        ensures
            r@ == self@,
    {
        let mut skills: Vec<Skill> = Vec::new();
        let mut k: usize = 0;
        while k < self.skills.len()
            invariant
                k <= self.skills.len(),
                skills@ == self.skills@.take(k as int),
            decreases self.skills.len() - k,
        {
            skills.push(self.skills[k]);
            proof {
                assert(skills@ =~= self.skills@.take(k + 1));
            }
            k += 1;
        }
        proof {
            assert(skills@ =~= self.skills@);
        }
        Player { team: self.team, ident: self.ident, strength: self.strength, skills }
    }
}

/// The content of one grid cell: beyond the bounds, unoccupied, or held
/// by a player. `Out` is the sentinel every out-of-bounds lookup resolves
/// to; it is never stored in an in-bounds cell.
#[derive(PartialEq, Eq, Debug)]
pub enum Zone {
    Out,
    Empty,
    Player(Player),
}

impl Zone {
    pub fn new_empty() -> (z: Zone)
        ensures
            z == Zone::Empty,
    {
        Zone::Empty
    }

    pub fn new_player(player: Player) -> (z: Zone)
        ensures
            z == Zone::Player(player),
    {
        Zone::Player(player)
    }

    pub fn is_player(&self) -> (r: bool)
        ensures
            r == (self is Player),
    {
        matches!(self, Zone::Player(_))
    }

    pub fn is_empty(&self) -> (r: bool)
        ensures
            r == (self is Empty),
    {
        matches!(self, Zone::Empty)
    }
}

/// Does this zone hold a player of side `team`?
pub open spec fn zone_has_team(z: Zone, team: Team) -> bool {
    match z {
        Zone::Player(p) => p@.team == team,
        _ => false,
    }
}

/// The player a zone holds; meaningful only for occupied zones.
pub open spec fn zone_player(z: Zone) -> Player
    recommends
        z is Player,
{
    match z {
        Zone::Player(p) => p,
        _ => vstd::pervasive::arbitrary(),
    }
}

/// Reference sizing: zones per line.
pub const LINE_WIDTH: usize = 15;

/// Reference sizing: lines per half-field.
pub const HALF_FIELD_LENGTH: usize = 13;

/// A cell address: line index `i` and column index `j`.
#[derive(PartialEq, Eq, Structural, Clone, Copy, Debug)]
pub struct Coords {
    pub i: usize,
    pub j: usize,
}

impl Coords {
    pub fn new(i: usize, j: usize) -> (c: Coords)
        ensures
            c == (Coords { i, j }),
    {
        Coords { i, j }
    }

    pub fn i(&self) -> (r: usize)
        ensures
            r == self.i,
    {
        self.i
    }

    pub fn j(&self) -> (r: usize)
        ensures
            r == self.j,
    {
        self.j
    }

    /// Where this coordinate lands after moving by a signed offset: the
    /// moved point when both components stay within `usize`, and the
    /// coordinate itself when either component would leave it.
    pub open spec fn offset_spec(&self, di: int, dj: int) -> Coords {
        if 0 <= self.i + di <= usize::MAX && 0 <= self.j + dj <= usize::MAX {
            Coords { i: (self.i + di) as usize, j: (self.j + dj) as usize }
        } else {
            *self
        }
    }

    /// Move by a signed offset pair. The move saturates to the original
    /// coordinate when either component would underflow or overflow:
    /// a clamp-to-self policy, not an error.
    pub fn offset(&self, di: isize, dj: isize) -> (r: Coords)
        ensures
            r == self.offset_spec(di as int, dj as int),
    {
        match (self.i.checked_add_signed(di), self.j.checked_add_signed(dj)) {
            (Some(i), Some(j)) => Coords { i, j },
            _ => *self,
        }
    }
}

/// A line of zones across the field.
pub type Line = Vec<Zone>;

/// A well-formed grid: at least one line, at least one column, and every
/// line equally wide.
pub open spec fn grid_wf(g: Seq<Seq<Zone>>) -> bool {
    &&& g.len() >= 1
    &&& g[0].len() >= 1
    &&& forall|r: int| 0 <= r < g.len() ==> (#[trigger] g[r]).len() == g[0].len()
}

/// The number of lines of a grid.
pub open spec fn grid_length(g: Seq<Seq<Zone>>) -> nat {
    g.len()
}

/// The number of zones in each line of a grid.
pub open spec fn grid_width(g: Seq<Seq<Zone>>) -> nat {
    g[0].len()
}

/// The zone a coordinate resolves to: the stored zone in bounds, and the
/// `Out` sentinel at or beyond either bound.
pub open spec fn zone_at(g: Seq<Seq<Zone>>, c: Coords) -> Zone {
    if c.i < grid_length(g) && c.j < grid_width(g) {
        g[c.i as int][c.j as int]
    } else {
        Zone::Out
    }
}

/// The bounded playing surface: a rectangular grid of zones, fixed for
/// the lifetime of the value. Its view is the sequence of its lines.
pub struct HalfField {
    lines: Vec<Line>,
    out: Zone,
}

impl View for HalfField {
    type V = Seq<Seq<Zone>>;

    closed spec fn view(&self) -> Seq<Seq<Zone>> {
        Seq::new(self.lines@.len(), |k: int| self.lines@[k]@)
    }
}

impl HalfField {
    /// Bounds are fixed at construction: rectangular storage with at
    /// least one line and one column, and the stored sentinel is `Out`.
    #[verifier::type_invariant]
    spec fn wf(self) -> bool {
        grid_wf(self@) && self.out == Zone::Out
    }

    /// Take ownership of a rectangular grid of zones.
    pub fn new(lines: Vec<Line>) -> (hf: HalfField)
        requires
            lines@.len() >= 1,
            lines@[0]@.len() >= 1,
            forall|r: int| 0 <= r < lines@.len() ==> (#[trigger] lines@[r])@.len() == lines@[0]@.len(),
        ensures
            hf@.len() == lines@.len(),
            forall|r: int| 0 <= r < lines@.len() ==> #[trigger] hf@[r] == lines@[r]@,
    {
        HalfField { lines, out: Zone::Out }
    }

    /// The number of lines.
    pub fn length(&self) -> (n: usize)
        ensures
            n == grid_length(self@),
            n >= 1,
    {
        proof {
            use_type_invariant(&*self);
        }
        self.lines.len()
    }

    /// The number of zones in each line.
    pub fn width(&self) -> (n: usize)
        ensures
            n == grid_width(self@),
            n >= 1,
    {
        proof {
            use_type_invariant(&*self);
        }
        self.lines[0].len()
    }

    /// The full line at index `i`; indexing an invalid line is a
    /// programming error, so callers stay within the declared bounds.
    pub fn get_line(&self, i: usize) -> (line: &Line)
        requires
            i < grid_length(self@),
        ensures
            line@ == self@[i as int],
            line@.len() == grid_width(self@),
    {
        proof {
            use_type_invariant(&*self);
        }
        &self.lines[i]
    }

    /// Resolve any coordinate at all: the `Out` sentinel at or beyond
    /// either bound, and exactly the addressed cell in bounds — never a
    /// neighbouring one, and never a read past the backing storage.
    pub fn get_zone(&self, coords: &Coords) -> (z: &Zone)
        ensures
            *z == zone_at(self@, *coords),
    {
        proof {
            use_type_invariant(&*self);
        }
        if coords.i >= self.lines.len() {
            &self.out
        } else if coords.j >= self.lines[coords.i].len() {
            &self.out
        } else {
            &self.lines[coords.i][coords.j]
        }
    }
}

} // verus!
