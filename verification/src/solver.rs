//! The tactical-analysis engine: neighbour adjacency, team-aware tackle
//! and support computation, the block-odds dice rule, and enumeration of
//! the play pattern along the line of scrimmage.

use vstd::prelude::*;

use crate::model::{
    grid_length, grid_width, zone_at, zone_has_team, zone_player, Coords, HalfField, Player,
    Team, Zone,
};

verus! {

/// The relative offset of the `k`-th neighbour, in the fixed order the
/// engine walks them: (-1,-1), (0,-1), (1,-1), (-1,0), (1,0), (-1,1),
/// (0,1), (1,1).
pub open spec fn neighbor_offset(k: int) -> (int, int) {
    if k == 0 {
        (-1, -1)
    } else if k == 1 {
        (0, -1)
    } else if k == 2 {
        (1, -1)
    } else if k == 3 {
        (-1, 0)
    } else if k == 4 {
        (1, 0)
    } else if k == 5 {
        (-1, 1)
    } else if k == 6 {
        (0, 1)
    } else {
        (1, 1)
    }
}

/// The `k`-th neighbour of `c`, through the saturating coordinate move.
pub open spec fn neighbor_coord(c: Coords, k: int) -> Coords {
    c.offset_spec(neighbor_offset(k).0, neighbor_offset(k).1)
}

/// The 8 neighbouring coordinates of `center`, in the fixed offset order.
/// Near an edge the saturating move collapses outward offsets onto the
/// center or onto other in-bounds coordinates, so the result may hold
/// duplicates; it always holds exactly 8 entries.
pub fn get_neighbour_coords(center: &Coords) -> (r: [Coords; 8])
    ensures
        r@.len() == 8,
        forall|k: int| 0 <= k < 8 ==> (#[trigger] r@[k]) == neighbor_coord(*center, k),
{
    [
        center.offset(-1, -1),
        center.offset(0, -1),
        center.offset(1, -1),
        center.offset(-1, 0),
        center.offset(1, 0),
        center.offset(-1, 1),
        center.offset(0, 1),
        center.offset(1, 1),
    ]
}

/// The (coordinate, player) pairs among the first `k` neighbours of `c`
/// that hold a player of `team`, in neighbour order, with the players
/// abstracted to their views.
pub open spec fn team_neighbors_prefix(
    g: Seq<Seq<Zone>>,
    c: Coords,
    team: Team,
    k: int,
) -> Seq<(Coords, Player)>
    decreases k,
{
    if k <= 0 {
        Seq::empty()
    } else {
        let rest = team_neighbors_prefix(g, c, team, k - 1);
        let nc = neighbor_coord(c, k - 1);
        if zone_has_team(zone_at(g, nc), team) {
            rest.push((nc, zone_player(zone_at(g, nc))))
        } else {
            rest
        }
    }
}

/// All neighbours of `c` that hold a player of `team`, in neighbour order.
pub open spec fn team_neighbors(g: Seq<Seq<Zone>>, c: Coords, team: Team) -> Seq<(Coords, Player)> {
    team_neighbors_prefix(g, c, team, 8)
}

/// A cell is tackled for a player of side `team` when at least one of its
/// 8 neighbour cells is occupied by the opposite side.
pub open spec fn is_tackled_spec(g: Seq<Seq<Zone>>, c: Coords, team: Team) -> bool {
    exists|k: int|
        0 <= k < 8 && zone_has_team(
            zone_at(g, #[trigger] neighbor_coord(c, k)),
            team.opposite_spec(),
        )
}

/// The first `k` neighbours hold a player of `team` iff one of them does.
proof fn lemma_team_neighbors_nonempty(g: Seq<Seq<Zone>>, c: Coords, team: Team, k: int)
    requires
        0 <= k <= 8,
    ensures
        team_neighbors_prefix(g, c, team, k).len() > 0 <==> exists|m: int|
            0 <= m < k && zone_has_team(zone_at(g, #[trigger] neighbor_coord(c, m)), team),
    decreases k,
{
    if k > 0 {
        lemma_team_neighbors_nonempty(g, c, team, k - 1);
        if zone_has_team(zone_at(g, neighbor_coord(c, k - 1)), team) {
            assert(team_neighbors_prefix(g, c, team, k).len() > 0);
        } else {
            assert(team_neighbors_prefix(g, c, team, k) == team_neighbors_prefix(
                g,
                c,
                team,
                k - 1,
            ));
        }
    }
}

/// The occupied neighbour cells of `center` belonging to `team`: the 8
/// neighbour coordinates resolved through the grid, with `Out`, `Empty`
/// and opposing occupants discarded. Bounded by 8 elements.
pub fn get_neighbours_of_team(center: &Coords, team: Team, hf: &HalfField) -> (r: Vec<
    (Coords, Player),
>)
    ensures
        r@.len() == team_neighbors(hf@, *center, team).len(),
        forall|m: int|
            0 <= m < r@.len() ==> (#[trigger] r@[m]).0 == team_neighbors(hf@, *center, team)[m].0
                && r@[m].1@ == team_neighbors(hf@, *center, team)[m].1@,
{
    let ncs = get_neighbour_coords(center);
    let mut r: Vec<(Coords, Player)> = Vec::new();
    let mut k: usize = 0;
    while k < 8
        invariant
            k <= 8,
            forall|m: int| 0 <= m < 8 ==> ncs@[m] == neighbor_coord(*center, m),
            r@.len() == team_neighbors_prefix(hf@, *center, team, k as int).len(),
            forall|m: int|
                0 <= m < r@.len() ==> (#[trigger] r@[m]).0 == team_neighbors_prefix(
                    hf@,
                    *center,
                    team,
                    k as int,
                )[m].0 && r@[m].1@ == team_neighbors_prefix(hf@, *center, team, k as int)[m].1@,
        decreases 8 - k,
    {
        let nc = ncs[k];
        let z = hf.get_zone(&nc);
        match z {
            Zone::Player(p) => {
                if p.team() == team {
                    r.push((nc, p.clone()));
                }
            },
            _ => {},
        }
        k += 1;
    }
    r
}

/// A player standing at a cell is tackled exactly when at least one
/// opposing player occupies an adjacent cell; an isolated player, or one
/// whose adjacent occupants all share its side, is not.
pub fn is_tackled(player: (&Coords, &Player), hf: &HalfField) -> (r: bool)
    ensures
        r == is_tackled_spec(hf@, *player.0, player.1@.team),
{
    let n = get_neighbours_of_team(player.0, player.1.team().opposite(), hf);
    proof {
        lemma_team_neighbors_nonempty(hf@, *player.0, player.1@.team.opposite_spec(), 8);
    }
    n.len() > 0
}

/// How many of the first `k` neighbours of `c` hold a player of `team`
/// that is itself not tackled.
pub open spec fn supports_prefix(g: Seq<Seq<Zone>>, c: Coords, team: Team, k: int) -> nat
    decreases k,
{
    if k <= 0 {
        0
    } else {
        supports_prefix(g, c, team, k - 1) + {
            let nc = neighbor_coord(c, k - 1);
            if zone_has_team(zone_at(g, nc), team) && !is_tackled_spec(g, nc, team) {
                1nat
            } else {
                0nat
            }
        }
    }
}

/// The support `team` has at cell `c`: adjacent players of that side that
/// are themselves free of adjacent opposition. Each candidate is judged
/// by its own direct neighbours only — one level of inspection, never
/// deeper — so the count never exceeds 8.
pub open spec fn supports_spec(g: Seq<Seq<Zone>>, c: Coords, team: Team) -> nat {
    supports_prefix(g, c, team, 8)
}

/// Count the neighbours of `pos` belonging to `team` that are themselves
/// not tackled. Querying an empty cell is well defined and such
/// candidates simply contribute nothing.
pub fn get_supports(pos: &Coords, team: Team, hf: &HalfField) -> (r: usize)
    ensures
        r == supports_spec(hf@, *pos, team),
        r <= 8,
{
    let ncs = get_neighbour_coords(pos);
    let mut count: usize = 0;
    let mut k: usize = 0;
    while k < 8
        invariant
            k <= 8,
            count <= k,
            forall|m: int| 0 <= m < 8 ==> ncs@[m] == neighbor_coord(*pos, m),
            count == supports_prefix(hf@, *pos, team, k as int),
        decreases 8 - k,
    {
        let nc = ncs[k];
        let z = hf.get_zone(&nc);
        match z {
            Zone::Player(p) => {
                if p.team() == team {
                    if !is_tackled((&nc, p), hf) {
                        count += 1;
                    }
                }
            },
            _ => {},
        }
        k += 1;
    }
    count
}

/// The discrete advantage classes of a block contest.
#[derive(PartialEq, Eq, Structural, Clone, Copy, Debug)]
pub enum Dice {
    ThreeAgainst,
    TwoAgainst,
    One,
    Two,
    Three,
}

/// The dice category for effective strengths `a` (attacker) against `b`
/// (defender), in precedence order: equal, defender more than double,
/// defender greater, attacker more than double, attacker greater.
pub open spec fn dice_spec(a: int, b: int) -> Dice {
    if a == b {
        Dice::One
    } else if b > 2 * a {
        Dice::ThreeAgainst
    } else if b > a {
        Dice::TwoAgainst
    } else if a > 2 * b {
        Dice::Three
    } else {
        Dice::Two
    }
}

/// Classify a contest of effective strengths. The five rules cover every
/// pair, and exactly one applies to each.
pub fn get_dice(att_stg: u8, def_stg: u8) -> (r: Dice)
    ensures
        r == dice_spec(att_stg as int, def_stg as int),
        (r == Dice::One) <==> att_stg == def_stg,
        (r == Dice::ThreeAgainst) <==> def_stg > 2 * (att_stg as int),
        (r == Dice::TwoAgainst) <==> att_stg < def_stg <= 2 * (att_stg as int),
        (r == Dice::Three) <==> att_stg > 2 * (def_stg as int),
        (r == Dice::Two) <==> def_stg < att_stg <= 2 * (def_stg as int),
{
    if att_stg == def_stg {
        Dice::One
    } else if (def_stg as u16) > 2 * (att_stg as u16) {
        Dice::ThreeAgainst
    } else if def_stg > att_stg {
        Dice::TwoAgainst
    } else if (att_stg as u16) > 2 * (def_stg as u16) {
        Dice::Three
    } else if att_stg > def_stg {
        Dice::Two
    } else {
        proof {
            assert(false);
        }
        vstd::pervasive::unreached()
    }
}

/// Evaluate a block: the attacker standing at `attacker.0` throws against
/// the player at `defender_coords`, which must be occupied. Each side's
/// effective strength is its own strength plus the support its side has
/// at the other side's cell, and the pair is classified into a dice
/// category.
pub fn block_odds(attacker: (&Coords, &Player), defender_coords: &Coords, hf: &HalfField) -> (r: (
    u8,
    u8,
    Dice,
))
    requires
        zone_at(hf@, *defender_coords) is Player,
        attacker.1@.strength + 8 <= u8::MAX,
        zone_player(zone_at(hf@, *defender_coords))@.strength + 8 <= u8::MAX,
    ensures
        r.0 == attacker.1@.strength + supports_spec(hf@, *defender_coords, attacker.1@.team),
        r.1 == zone_player(zone_at(hf@, *defender_coords))@.strength + supports_spec(
            hf@,
            *attacker.0,
            zone_player(zone_at(hf@, *defender_coords))@.team,
        ),
        r.2 == dice_spec(r.0 as int, r.1 as int),
{
    let (attacker_coords, attacker) = attacker;

    let defender = match hf.get_zone(defender_coords) {
        Zone::Player(p) => p,
        _ => vstd::pervasive::unreached(),
    };

    let att_sup = get_supports(defender_coords, attacker.team(), hf);
    let def_sup = get_supports(attacker_coords, defender.team(), hf);
    let att_stg = attacker.strength() + (att_sup as u8);
    let def_stg = defender.strength() + (def_sup as u8);
    (att_stg, def_stg, get_dice(att_stg, def_stg))
}

/// One matched instantiation of a play pattern. It carries no payload
/// yet: the concrete role assignment is an open extension point.
#[derive(PartialEq, Eq, Structural, Clone, Copy, Debug)]
pub struct Solution {}

impl Solution {
    pub fn new() -> (s: Solution)
        ensures
            s == (Solution {}),
    {
        Solution {}
    }
}

/// May `c` anchor the play template in a grid `width` zones wide? The
/// footprint spans two columns either side of the center, so the center
/// keeps at least two columns on its left and two inside on its right.
pub open spec fn valid_center(c: Coords, width: nat) -> bool {
    2 <= c.j && c.j + 2 < width
}

/// How many of the first `k` coordinates of `s` are valid centers for a
/// grid `width` zones wide.
pub open spec fn n_valid_prefix(s: Seq<Coords>, width: nat, k: int) -> nat
    decreases k,
{
    if k <= 0 {
        0
    } else {
        n_valid_prefix(s, width, k - 1) + if valid_center(s[k - 1], width) {
            1nat
        } else {
            0nat
        }
    }
}

/// How many coordinates of `s` are valid centers for a grid `width`
/// zones wide.
pub open spec fn n_valid_centers(s: Seq<Coords>, width: nat) -> nat {
    n_valid_prefix(s, width, s.len() as int)
}

/// Instantiate the documented play template at `center`, a valid anchor
/// on the line of scrimmage:
///
/// ```text
/// xxOxx
/// xPBxP
/// xxxPx
/// ```
///
/// The named sub-roles (first blitzer, second to fourth blockers) sit at
/// fixed offsets from the center; since a solution carries no payload
/// yet, instantiation records only that the template fits.
#[allow(unused_variables)]
pub fn play_1(hf: &HalfField, center: &Coords) -> (s: Solution)
    requires
        valid_center(*center, grid_width(hf@)),
{
    Solution::new()
}

/// One solution per coordinate of `los` that can anchor the play template
/// inside the grid's column bounds; centers whose footprint would leave
/// the grid are silently skipped, not an error.
pub fn solve_for_play_1(hf: &HalfField, los: &[Coords]) -> (r: Vec<Solution>)
    ensures
        r@.len() == n_valid_centers(los@, grid_width(hf@)),
{
    let width = hf.width();
    let mut r: Vec<Solution> = Vec::new();
    let mut k: usize = 0;
    while k < los.len()
        invariant
            k <= los@.len(),
            width == grid_width(hf@),
            r@.len() == n_valid_prefix(los@, grid_width(hf@), k as int),
        decreases los@.len() - k,
    {
        let c = los[k];
        if c.j() >= 2 && c.j() < width && width - c.j() > 2 {
            r.push(play_1(hf, &c));
        } else {
            proof {
                assert(!valid_center(los@[k as int], grid_width(hf@)));
            }
        }
        k += 1;
    }
    r
}

/// The occupied cells among the first `k` columns of row `row`, left to
/// right.
pub open spec fn los_prefix(g: Seq<Seq<Zone>>, row: usize, k: int) -> Seq<Coords>
    decreases k,
{
    if k <= 0 {
        Seq::empty()
    } else {
        let rest = los_prefix(g, row, k - 1);
        if zone_at(g, Coords { i: row, j: (k - 1) as usize }) is Player {
            rest.push(Coords { i: row, j: (k - 1) as usize })
        } else {
            rest
        }
    }
}

/// The scrimmage row: the last row of the half-field, the one against
/// the field's own boundary row.
pub open spec fn scrimmage_row(g: Seq<Seq<Zone>>) -> usize {
    (grid_length(g) - 1) as usize
}

/// The line of scrimmage: the occupied cells of the scrimmage row, left
/// to right.
pub open spec fn los_spec(g: Seq<Seq<Zone>>) -> Seq<Coords> {
    los_prefix(g, scrimmage_row(g), grid_width(g) as int)
}

/// Collect the line of scrimmage: the coordinates of the occupied cells
/// of the scrimmage row, in left-to-right order.
pub fn get_los(hf: &HalfField) -> (r: Vec<Coords>)
    ensures
        r@ == los_spec(hf@),
{
    let row = hf.length() - 1;
    let line = hf.get_line(row);
    let mut r: Vec<Coords> = Vec::new();
    let mut j: usize = 0;
    while j < line.len()
        invariant
            j <= line@.len(),
            line@.len() == grid_width(hf@),
            line@ == hf@[row as int],
            row == scrimmage_row(hf@),
            row < grid_length(hf@),
            r@ == los_prefix(hf@, row, j as int),
        decreases line@.len() - j,
    {
        if line[j].is_player() {
            r.push(Coords::new(row, j));
        }
        j += 1;
    }
    r
}

/// Analyse a whole half-field: locate the line of scrimmage and produce
/// one solution per valid anchor of the play template, in left-to-right
/// occupancy order.
pub fn solve(hf: &HalfField) -> (r: Vec<Solution>)
    ensures
        r@.len() == n_valid_centers(los_spec(hf@), grid_width(hf@)),
{
    let los = get_los(hf);
    solve_for_play_1(hf, los.as_slice())
}

} // verus!
