use vstd::prelude::*;

use crate::geometry::{
    move_along, move_diagonally, saturate, unit_diagonal, Coord, HeldKeys, Position,
};
use crate::lifetime::{lemma_tick_progress, Countdown};

verus! {

/// The balance at the start of a game.
pub const STARTING_BALANCE: i64 = 100;

/// What a pig costs.
pub const PIG_PRICE: i64 = 10;

/// What a pig sells for when its lifetime runs out.
pub const PIG_PAYOUT: i64 = 15;

/// How long a pig lives, in nanoseconds.
pub const PIG_LIFETIME: u64 = 2_000_000_000;

/// The player's speed, in units per second.
pub const PLAYER_SPEED: u32 = 100;

/// How fast pigs drift, in units per second.
pub const DRIFT_SPEED: u64 = 10;

/// The walking character: where it stands and how fast it walks, in units
/// per second.
#[derive(Clone, Copy, Debug, PartialEq, Eq, Structural)]
pub struct Player {
    pub speed: u32,
    pub position: Position,
}

/// A pig that drifts across the field until its lifetime runs out.
#[derive(Clone, Copy, Debug, PartialEq, Eq, Structural)]
pub struct Pig {
    pub lifetime: Countdown,
    pub position: Position,
}

/// The balance of currency.
#[derive(Clone, Copy, Debug, PartialEq, Eq, Structural)]
pub struct Money(pub i64);

/// Everything a frame reads and writes.
pub struct World {
    pub player: Player,
    pub pigs: Vec<Pig>,
    pub money: Money,
}

/// The abstract state of a `World`.
pub struct WorldView {
    pub player: Player,
    pub pigs: Seq<Pig>,
    pub money: i64,
}

impl View for World {
    type V = WorldView;

    open spec fn view(&self) -> WorldView {
        WorldView { player: self.player, pigs: self.pigs@, money: self.money.0 }
    }
}

impl Position {
    /// Where a pig at this point is after drifting for `dt` nanoseconds.
    pub open spec fn drifted(self, dt: u64) -> Position {
        self.moved(unit_diagonal(), DRIFT_SPEED * dt)
    }
}

/// `p` after `n` frames of drifting, `dt` nanoseconds each.
pub open spec fn drifted_frames(p: Position, dt: u64, n: nat) -> Position
    decreases n,
{
    if n == 0 {
        p
    } else {
        drifted_frames(p, dt, (n - 1) as nat).drifted(dt)
    }
}

impl Pig {
    /// A pig just bought at `position`, with its whole lifetime ahead.
    pub open spec fn fresh(position: Position) -> Pig {
        Pig { lifetime: Countdown { elapsed: 0, duration: PIG_LIFETIME }, position }
    }

    /// This pig after drifting for `dt` nanoseconds.
    pub open spec fn drifted(self, dt: u64) -> Pig {
        Pig { lifetime: self.lifetime, position: self.position.drifted(dt) }
    }

    /// This pig after its lifetime has been ticked by `dt` nanoseconds.
    pub open spec fn aged(self, dt: u64) -> Pig {
        Pig { lifetime: self.lifetime.ticked(dt), position: self.position }
    }
}

/// The pigs of `pigs` whose lifetime does not run out within `dt`
/// nanoseconds, in their order, each aged by `dt`.
pub open spec fn survivors(pigs: Seq<Pig>, dt: u64) -> Seq<Pig>
    decreases pigs.len(),
{
    if pigs.len() == 0 {
        seq![]
    } else {
        let rest = survivors(pigs.drop_last(), dt);
        if pigs.last().lifetime.finishes(dt) {
            rest
        } else {
            rest.push(pigs.last().aged(dt))
        }
    }
}

/// How many pigs of `pigs` have their lifetime run out within `dt`
/// nanoseconds.
pub open spec fn sold_count(pigs: Seq<Pig>, dt: u64) -> nat
    decreases pigs.len(),
{
    if pigs.len() == 0 {
        0
    } else {
        sold_count(pigs.drop_last(), dt) + if pigs.last().lifetime.finishes(dt) {
            1nat
        } else {
            0nat
        }
    }
}

impl WorldView {
    /// The state in which a game starts: the player at the origin and no pig.
    pub open spec fn initial() -> WorldView {
        WorldView {
            player: Player {
                speed: PLAYER_SPEED,
                position: Position {
                    x: Coord { axial: 0, diagonal: 0 },
                    y: Coord { axial: 0, diagonal: 0 },
                },
            },
            pigs: seq![],
            money: STARTING_BALANCE,
        }
    }

    /// Every pig is still alive.
    pub open spec fn pigs_running(self) -> bool {
        forall|i: int| 0 <= i < self.pigs.len() ==> #[trigger] self.pigs[i].lifetime.running()
    }

    /// The player after walking for `dt` nanoseconds with `keys` held.
    pub open spec fn walked(self, keys: HeldKeys, dt: u64) -> WorldView {
        WorldView {
            player: Player {
                speed: self.player.speed,
                position: self.player.position.moved(
                    keys.spec_direction().normalized(),
                    self.player.speed * dt,
                ),
            },
            pigs: self.pigs,
            money: self.money,
        }
    }

    /// Buying a pig when the spend key was pressed: only with at least the
    /// price in hand, which is then paid, and the new pig stands where the
    /// player stands.
    pub open spec fn spend(self, pressed: bool) -> WorldView {
        if pressed && self.money >= PIG_PRICE {
            WorldView {
                player: self.player,
                pigs: self.pigs.push(Pig::fresh(self.player.position)),
                money: (self.money - PIG_PRICE) as i64,
            }
        } else {
            self
        }
    }

    /// Every pig ages by `dt` nanoseconds; those whose lifetime runs out are
    /// sold, the balance (saturating) gaining the payout for each.
    pub open spec fn aged(self, dt: u64) -> WorldView {
        WorldView {
            player: self.player,
            pigs: survivors(self.pigs, dt),
            money: saturate(self.money + PIG_PAYOUT * sold_count(self.pigs, dt)) as i64,
        }
    }

    /// Every pig drifts for `dt` nanoseconds.
    pub open spec fn drifted(self, dt: u64) -> WorldView {
        WorldView {
            player: self.player,
            pigs: self.pigs.map_values(|p: Pig| p.drifted(dt)),
            money: self.money,
        }
    }
}

/// Spending with exactly the price in hand succeeds and leaves a balance of
/// zero, with one more pig, fresh, where the player stands.
pub proof fn lemma_spend_exact_price(w: WorldView)
    requires
        w.money == PIG_PRICE,
    ensures
        w.spend(true).money == 0,
        w.spend(true).pigs.len() == w.pigs.len() + 1,
        w.spend(true).pigs.last() == Pig::fresh(w.player.position),
{
}

/// Spending with less than the price in hand changes nothing: neither the
/// balance nor the pigs.
pub proof fn lemma_spend_short(w: WorldView, pressed: bool)
    requires
        w.money < PIG_PRICE,
    ensures
        w.spend(pressed) == w,
        w.spend(pressed).money == w.money,
        w.spend(pressed).pigs.len() == w.pigs.len(),
{
}

/// Over a frame of positive length, each pig either is sold, once, or stays
/// alive with strictly more of its lifetime elapsed; the balance gains the
/// payout exactly once for each pig sold.
pub proof fn lemma_lifetime_frame(w: WorldView, dt: u64)
    requires
        w.pigs_running(),
        dt > 0,
    ensures
        w.aged(dt).pigs.len() + sold_count(w.pigs, dt) == w.pigs.len(),
        w.aged(dt).pigs_running(),
        forall|j: int|
            0 <= j < w.aged(dt).pigs.len() ==> exists|i: int|
                0 <= i < w.pigs.len() && !w.pigs[i].lifetime.finishes(dt) && #[trigger] w.aged(dt).pigs[j]
                    == w.pigs[i].aged(dt) && w.aged(dt).pigs[j].lifetime.elapsed
                    > w.pigs[i].lifetime.elapsed,
        w.money + PIG_PAYOUT * sold_count(w.pigs, dt) <= i64::MAX ==> w.aged(dt).money == w.money
            + PIG_PAYOUT * sold_count(w.pigs, dt),
        w.aged(dt).player == w.player,
{
    lemma_survivors(w.pigs, dt);
}

proof fn lemma_survivors(pigs: Seq<Pig>, dt: u64)
    requires
        forall|i: int| 0 <= i < pigs.len() ==> #[trigger] pigs[i].lifetime.running(),
        dt > 0,
    ensures
        survivors(pigs, dt).len() + sold_count(pigs, dt) == pigs.len(),
        forall|j: int|
            0 <= j < survivors(pigs, dt).len() ==> #[trigger] survivors(pigs, dt)[j].lifetime.running(),
        forall|j: int|
            0 <= j < survivors(pigs, dt).len() ==> exists|i: int|
                0 <= i < pigs.len() && !pigs[i].lifetime.finishes(dt) && #[trigger] survivors(pigs, dt)[j]
                    == pigs[i].aged(dt) && survivors(pigs, dt)[j].lifetime.elapsed
                    > pigs[i].lifetime.elapsed,
    decreases pigs.len(),
{
    if pigs.len() > 0 {
        let init = pigs.drop_last();
        assert forall|i: int| 0 <= i < init.len() implies #[trigger] init[i].lifetime.running() by {
            assert(init[i] == pigs[i]);
        }
        lemma_survivors(init, dt);
        let rest = survivors(init, dt);
        let last = pigs.last();
        assert(last.lifetime.running());
        lemma_tick_progress(last.lifetime, dt);
        assert forall|j: int| 0 <= j < survivors(pigs, dt).len() implies exists|i: int|
            0 <= i < pigs.len() && !pigs[i].lifetime.finishes(dt) && #[trigger] survivors(pigs, dt)[j]
                == pigs[i].aged(dt) && survivors(pigs, dt)[j].lifetime.elapsed
                > pigs[i].lifetime.elapsed by {
            if j < rest.len() {
                assert(survivors(pigs, dt)[j] == rest[j]);
                let i = choose|i: int|
                    0 <= i < init.len() && !init[i].lifetime.finishes(dt) && #[trigger] rest[j]
                        == init[i].aged(dt) && rest[j].lifetime.elapsed > init[i].lifetime.elapsed;
                assert(pigs[i] == init[i]);
            } else {
                let i = pigs.len() - 1;
                assert(pigs[i] == last);
            }
        }
    }
}

/// Drifting over `n` frames of `dt` nanoseconds each moves a point by
/// `n * dt * DRIFT_SPEED` along the unit diagonal, so each diagonal
/// coefficient gains exactly that amount, as long as no coordinate
/// saturates.
pub proof fn lemma_drift_frames(p: Position, dt: u64, n: nat)
    requires
        p.x.diagonal + n * (DRIFT_SPEED * dt) <= i64::MAX,
        p.y.diagonal + n * (DRIFT_SPEED * dt) <= i64::MAX,
    ensures
        drifted_frames(p, dt, n) == (Position {
            x: Coord { axial: p.x.axial, diagonal: (p.x.diagonal + n * (DRIFT_SPEED * dt)) as i64 },
            y: Coord { axial: p.y.axial, diagonal: (p.y.diagonal + n * (DRIFT_SPEED * dt)) as i64 },
        }),
    decreases n,
{
    let k = DRIFT_SPEED * dt;
    assert(0 * k == 0);
    assert(n == 0 ==> n * k == 0);
    if n > 0 {
        let m = (n - 1) as nat;
        assert(m * k + k == n * k && 0 <= m * k <= n * k) by (nonlinear_arith)
            requires
                m == n - 1,
                k >= 0,
                n > 0,
        ;
        lemma_drift_frames(p, dt, m);
        let q = drifted_frames(p, dt, m);
        assert(1 * k == k);
        assert(q.x.diagonal + k == p.x.diagonal + n * k);
        assert(q.y.diagonal + k == p.y.diagonal + n * k);
    }
}

/// Drifting moves each pig on its own: the `i`th pig after a frame is the
/// `i`th pig before it, drifted, whatever the other pigs are.
pub proof fn lemma_drift_independent(w: WorldView, dt: u64, i: int)
    requires
        0 <= i < w.pigs.len(),
    ensures
        w.drifted(dt).pigs.len() == w.pigs.len(),
        w.drifted(dt).pigs[i] == w.pigs[i].drifted(dt),
        w.drifted(dt).pigs[i].lifetime == w.pigs[i].lifetime,
{
}

/// Adds the payout to `money`, saturating at `i64::MAX`.
fn credit_payout(money: i64) -> (r: i64)
    ensures
        r == saturate(money + PIG_PAYOUT),
{
    if money > i64::MAX - PIG_PAYOUT {
        i64::MAX
    } else {
        money + PIG_PAYOUT
    }
}

impl World {
    /// A new game: the player at the origin, no pig, and the starting
    /// balance.
    pub fn setup() -> (r: World)
        ensures
            r@ == WorldView::initial(),
    {
        World {
            player: Player { speed: PLAYER_SPEED, position: Position::origin() },
            pigs: Vec::new(),
            money: Money(STARTING_BALANCE),
        }
    }

    /// Walks the player for `dt` nanoseconds in the direction of the held
    /// keys, at its speed; diagonal walking is no faster than straight.
    pub fn character_movement(&mut self, keys: HeldKeys, dt: u64)
        ensures
            final(self)@ == old(self)@.walked(keys, dt),
    {
        let d = keys.direction();
        let speed: u32 = self.player.speed;
        proof {
            assert((speed as int) * (dt as int) <= 0x1_0000_0000_0000_0000_0000_0000) by (nonlinear_arith)
                requires
                    0 <= speed <= u32::MAX,
                    0 <= dt <= u64::MAX,
            ;
        }
        let len: u128 = speed as u128 * dt as u128;
        self.player.position = move_along(self.player.position, d, len);
    }

    /// Buys a pig when the spend key was pressed this frame and the balance
    /// covers the price; otherwise changes nothing. Returns whether a pig was
    /// bought.
    pub fn spawn_pig(&mut self, spend_pressed: bool) -> (spawned: bool)
        ensures
            spawned == (spend_pressed && old(self).money.0 >= PIG_PRICE),
            final(self)@ == old(self)@.spend(spend_pressed),
    {
        if !spend_pressed {
            return false;
        }
        if self.money.0 >= PIG_PRICE {
            self.money = Money(self.money.0 - PIG_PRICE);
            let pig = Pig {
                lifetime: Countdown::once(PIG_LIFETIME),
                position: self.player.position,
            };
            self.pigs.push(pig);
            true
        } else {
            false
        }
    }

    /// Ages every pig by `dt` nanoseconds. A pig whose lifetime runs out is
    /// sold: it leaves the field and the balance gains the payout. Returns,
    /// for each pig in its former order, whether it was sold.
    pub fn pig_lifetime(&mut self, dt: u64) -> (sold: Vec<bool>)
        ensures
            final(self)@ == old(self)@.aged(dt),
            sold@.len() == old(self).pigs@.len(),
            forall|i: int|
                0 <= i < sold@.len() ==> sold@[i] == #[trigger] old(self).pigs@[i].lifetime.finishes(dt),
    {
        let ghost old_pigs = self.pigs@;
        let ghost old_money = self.money.0 as int;
        let mut kept: Vec<Pig> = Vec::new();
        let mut sold: Vec<bool> = Vec::new();
        let mut money: i64 = self.money.0;
        let mut i: usize = 0;
        while i < self.pigs.len()
            invariant
                i <= self.pigs@.len(),
                self.pigs@ == old_pigs,
                kept@ == survivors(old_pigs.take(i as int), dt),
                money == saturate(old_money + PIG_PAYOUT * sold_count(old_pigs.take(i as int), dt)),
                old_money >= i64::MIN,
                sold@.len() == i,
                forall|j: int| 0 <= j < i ==> sold@[j] == #[trigger] old_pigs[j].lifetime.finishes(dt),
            decreases self.pigs@.len() - i,
        {
            let mut pig = self.pigs[i];
            pig.lifetime.tick(dt);
            proof {
                assert(old_pigs.take(i + 1).drop_last() =~= old_pigs.take(i as int));
                assert(old_pigs.take(i + 1).last() == old_pigs[i as int]);
            }
            if pig.lifetime.finished() {
                money = credit_payout(money);
                sold.push(true);
            } else {
                kept.push(pig);
                sold.push(false);
            }
            i = i + 1;
        }
        proof {
            assert(old_pigs.take(i as int) =~= old_pigs);
        }
        self.pigs = kept;
        self.money = Money(money);
        sold
    }

    /// Moves every pig for `dt` nanoseconds along the diagonal `(1, 1)` at
    /// the drift speed.
    pub fn pig_move(&mut self, dt: u64)
        ensures
            final(self)@ == old(self)@.drifted(dt),
    {
        let ghost old_pigs = self.pigs@;
        let len: u128 = DRIFT_SPEED as u128 * dt as u128;
        let mut moved: Vec<Pig> = Vec::new();
        let mut i: usize = 0;
        while i < self.pigs.len()
            invariant
                i <= self.pigs@.len(),
                self.pigs@ == old_pigs,
                len == DRIFT_SPEED * dt,
                moved@.len() == i,
                forall|j: int| 0 <= j < i ==> moved@[j] == #[trigger] old_pigs[j].drifted(dt),
            decreases self.pigs@.len() - i,
        {
            let pig = self.pigs[i];
            moved.push(Pig { lifetime: pig.lifetime, position: move_diagonally(pig.position, len) });
            i = i + 1;
        }
        proof {
            assert(moved@ =~= old_pigs.map_values(|p: Pig| p.drifted(dt)));
        }
        self.pigs = moved;
    }
}

} // verus!
