use vstd::prelude::*;

verus! {

/// The decimal digits of `n`, most significant first, with no leading zero
/// (zero itself is the single digit 0): what `n.to_string()` spells.
pub open spec fn digits_of(n: nat) -> Seq<u8>
    decreases n,
{
    if n < 10 {
        seq![n as u8]
    } else {
        digits_of(n / 10).push((n % 10) as u8)
    }
}

/// The number that a sequence of decimal digits spells.
pub open spec fn value_of(d: Seq<u8>) -> nat
    decreases d.len(),
{
    if d.len() == 0 {
        0
    } else {
        value_of(d.drop_last()) * 10 + d.last() as nat
    }
}

/// The decimal digits of `n`, most significant first.
pub fn decimal_digits(n: u32) -> (d: Vec<u8>)
    ensures
        d@ == digits_of(n as nat),
    decreases n,
{
    if n < 10 {
        let mut d = Vec::new();
        d.push(n as u8);
        d
    } else {
        let mut d = decimal_digits(n / 10);
        d.push((n % 10) as u8);
        d
    }
}

/// The digits of a number are decimal digits, spell the number back, and
/// start with a nonzero digit unless the number is zero.
pub proof fn lemma_digits_spell_the_number(n: nat)
    ensures
        digits_of(n).len() >= 1,
        forall|i: int| 0 <= i < digits_of(n).len() ==> #[trigger] digits_of(n)[i] < 10,
        value_of(digits_of(n)) == n,
        n > 0 ==> digits_of(n)[0] != 0,
    decreases n,
{
    if n >= 10 {
        lemma_digits_spell_the_number(n / 10);
        assert(digits_of(n).drop_last() =~= digits_of(n / 10));
        assert(digits_of(n).last() as nat == n % 10);
        assert(n == (n / 10) * 10 + n % 10);
        assert forall|i: int| 0 <= i < digits_of(n).len() implies #[trigger] digits_of(n)[i] < 10 by {
            if i < digits_of(n).len() - 1 {
                assert(digits_of(n)[i] == digits_of(n / 10)[i]);
            }
        }
    } else {
        assert(seq![n as u8].drop_last() =~= Seq::<u8>::empty());
        assert(value_of(digits_of(n)) == value_of(Seq::<u8>::empty()) * 10 + n);
    }
}

/// The overlay panels that the interface can show over the playfield.
#[derive(Clone, Copy, Debug, PartialEq, Eq, Structural)]
pub enum Panel {
    /// The banner behind the "game over" text.
    GameOverBanner,
    /// The plate behind the "press R" hint.
    RestartHint,
    /// The plate shown before the first run starts.
    StartHint,
}

/// What the interface reads of the game.
#[derive(Clone, Copy, Debug, PartialEq, Eq, Structural)]
pub struct GameStatus {
    pub score: u32,
    pub high_score: u32,
    pub game_over: bool,
    pub game_started: bool,
}

/// The panels shown for a game status, back to front: the game-over banner
/// and restart hint when the game is over, then the start hint while the game
/// has not started.
pub open spec fn panels_for(status: GameStatus) -> Seq<Panel> {
    let over = if status.game_over {
        seq![Panel::GameOverBanner, Panel::RestartHint]
    } else {
        Seq::<Panel>::empty()
    };
    let start = if !status.game_started {
        seq![Panel::StartHint]
    } else {
        Seq::<Panel>::empty()
    };
    over + start
}

/// The overlay shows the game-over banner and the restart hint exactly when
/// the game is over, and the start hint exactly when the game has not
/// started; the scores play no part: two statuses that agree on whether the
/// game is over and whether it has started show the same panels. The banner
/// is drawn before the hint, and no panel is shown twice.
pub proof fn lemma_panels_follow_game_state(status: GameStatus)
    ensures
        panels_for(status).contains(Panel::GameOverBanner) <==> status.game_over,
        panels_for(status).contains(Panel::RestartHint) <==> status.game_over,
        panels_for(status).contains(Panel::StartHint) <==> !status.game_started,
        panels_for(status).no_duplicates(),
        panels_for(status).len() == (if status.game_over { 2int } else { 0int }) + (if status.game_started {
            0int
        } else {
            1int
        }),
        status.game_over ==> panels_for(status)[0] == Panel::GameOverBanner && panels_for(status)[1]
            == Panel::RestartHint,
        forall|other: GameStatus|
            other.game_over == status.game_over && other.game_started == status.game_started
                ==> panels_for(other) == panels_for(status),
{
    let p = panels_for(status);
    if status.game_over {
        assert(p[0] == Panel::GameOverBanner);
        assert(p[1] == Panel::RestartHint);
    }
    if !status.game_started {
        assert(p[p.len() - 1] == Panel::StartHint);
    }
    assert(p.contains(Panel::GameOverBanner) ==> status.game_over);
    assert(p.contains(Panel::RestartHint) ==> status.game_over);
    assert(p.contains(Panel::StartHint) ==> !status.game_started);
}

/// The heads-up display: overlay panels and the digits of the scores.
pub struct UI {
    pub items: Vec<Panel>,
    pub score_digits: Vec<u8>,
    pub high_score_digits: Vec<u8>,
}

impl UI {
    pub fn new() -> (r: Self)
        ensures
            r.items@ == Seq::<Panel>::empty(),
            r.score_digits@ == Seq::<u8>::empty(),
            r.high_score_digits@ == Seq::<u8>::empty(),
    {
        UI { items: Vec::new(), score_digits: Vec::new(), high_score_digits: Vec::new() }
    }

    /// Rebuilds the display from the game's status; nothing of the previous
    /// display is kept.
    pub fn update(&mut self, status: &GameStatus)
        ensures
            final(self).items@ == panels_for(*status),
            final(self).items@.contains(Panel::GameOverBanner) <==> status.game_over,
            final(self).items@.contains(Panel::RestartHint) <==> status.game_over,
            final(self).items@.contains(Panel::StartHint) <==> !status.game_started,
            final(self).score_digits@ == digits_of(status.score as nat),
            final(self).high_score_digits@ == digits_of(status.high_score as nat),
    {
        self.items.clear();
        self.score_digits = decimal_digits(status.score);
        self.high_score_digits = decimal_digits(status.high_score);
        if status.game_over {
            self.items.push(Panel::GameOverBanner);
            self.items.push(Panel::RestartHint);
        }
        if !status.game_started {
            self.items.push(Panel::StartHint);
        }
        assert(self.items@ =~= panels_for(*status));
        proof {
            lemma_panels_follow_game_state(*status);
        }
    }

    /// The panels to draw, back to front.
    pub fn sprites(&self) -> (r: &[Panel])
        ensures
            r@ == self.items@,
    {
        self.items.as_slice()
    }
}

} // verus!
