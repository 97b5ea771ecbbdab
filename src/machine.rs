use vstd::prelude::*;

verus! {

/// Seconds the light stays green.
pub const GREEN_WAIT_SECS: u64 = 60;

/// Seconds the light stays yellow.
pub const YELLOW_WAIT_SECS: u64 = 10;

/// Seconds the light stays red.
pub const RED_WAIT_SECS: u64 = 60;

/// The red state, with its wait in seconds.
#[derive(Debug)]
pub struct Red {
    pub wait_time: u64,
}

impl Red {
    pub fn new() -> (r: Self)
        ensures
            r.wait_time == RED_WAIT_SECS,
    {
        Red { wait_time: RED_WAIT_SECS }
    }
}

/// The green state, with its wait in seconds.
#[derive(Debug)]
pub struct Green {
    pub wait_time: u64,
}

impl Green {
    pub fn new() -> (r: Self)
        ensures
            r.wait_time == GREEN_WAIT_SECS,
    {
        Green { wait_time: GREEN_WAIT_SECS }
    }
}

/// The yellow state, with its wait in seconds.
#[derive(Debug)]
pub struct Yellow {
    pub wait_time: u64,
}

impl Yellow {
    pub fn new() -> (r: Self)
        ensures
            r.wait_time == YELLOW_WAIT_SECS,
    {
        Yellow { wait_time: YELLOW_WAIT_SECS }
    }
}

/// Which of the three lights is on.
#[derive(Debug, Clone, Copy, PartialEq, Eq, Structural)]
pub enum Color {
    Green,
    Yellow,
    Red,
}

/// The colour that follows `c` in the cycle Green, Yellow, Red.
pub open spec fn next_color(c: Color) -> Color {
    match c {
        Color::Green => Color::Yellow,
        Color::Yellow => Color::Red,
        Color::Red => Color::Green,
    }
}

/// The wait, in seconds, that belongs to the light `c`.
pub open spec fn wait_for(c: Color) -> u64 {
    match c {
        Color::Green => GREEN_WAIT_SECS,
        Color::Yellow => YELLOW_WAIT_SECS,
        Color::Red => RED_WAIT_SECS,
    }
}

/// The colour `i` places into the cycle that starts at Green.
pub open spec fn color_at(i: nat) -> Color {
    if i % 3 == 0 {
        Color::Green
    } else if i % 3 == 1 {
        Color::Yellow
    } else {
        Color::Red
    }
}

/// A light in the state `TLS`, which is one of `Green`, `Yellow` or `Red`.
#[derive(Debug)]
pub struct TrafficLight<TLS> {
    pub state: TLS,
}

impl TrafficLight<Green> {
    /// A light that starts green.
    pub fn new() -> (r: Self)
        ensures
            r.state.wait_time == GREEN_WAIT_SECS,
    {
        TrafficLight { state: Green::new() }
    }
}

impl From<TrafficLight<Green>> for TrafficLight<Yellow> {
    fn from(_green: TrafficLight<Green>) -> TrafficLight<Yellow> {
        TrafficLight { state: Yellow::new() }
    }
}

impl vstd::std_specs::convert::FromSpecImpl<TrafficLight<Green>> for TrafficLight<Yellow> {
    open spec fn obeys_from_spec() -> bool {
        true
    }

    open spec fn from_spec(green: TrafficLight<Green>) -> TrafficLight<Yellow> {
        TrafficLight { state: Yellow { wait_time: YELLOW_WAIT_SECS } }
    }
}

impl From<TrafficLight<Yellow>> for TrafficLight<Red> {
    fn from(_yellow: TrafficLight<Yellow>) -> TrafficLight<Red> {
        TrafficLight { state: Red::new() }
    }
}

impl vstd::std_specs::convert::FromSpecImpl<TrafficLight<Yellow>> for TrafficLight<Red> {
    open spec fn obeys_from_spec() -> bool {
        true
    }

    open spec fn from_spec(yellow: TrafficLight<Yellow>) -> TrafficLight<Red> {
        TrafficLight { state: Red { wait_time: RED_WAIT_SECS } }
    }
}

impl From<TrafficLight<Red>> for TrafficLight<Green> {
    fn from(_red: TrafficLight<Red>) -> TrafficLight<Green> {
        TrafficLight { state: Green::new() }
    }
}

impl vstd::std_specs::convert::FromSpecImpl<TrafficLight<Red>> for TrafficLight<Green> {
    open spec fn obeys_from_spec() -> bool {
        true
    }

    open spec fn from_spec(red: TrafficLight<Red>) -> TrafficLight<Green> {
        TrafficLight { state: Green { wait_time: GREEN_WAIT_SECS } }
    }
}

/// A light in any of its three states.
#[derive(Debug)]
pub enum TrafficLightWrapper {
    Red(TrafficLight<Red>),
    Green(TrafficLight<Green>),
    Yellow(TrafficLight<Yellow>),
}

impl TrafficLightWrapper {
    /// Which light is on.
    pub open spec fn spec_color(&self) -> Color {
        match self {
            TrafficLightWrapper::Red(_) => Color::Red,
            TrafficLightWrapper::Green(_) => Color::Green,
            TrafficLightWrapper::Yellow(_) => Color::Yellow,
        }
    }

    /// The wait, in seconds, held by the current state.
    pub open spec fn spec_wait_time(&self) -> u64 {
        match self {
            TrafficLightWrapper::Red(l) => l.state.wait_time,
            TrafficLightWrapper::Green(l) => l.state.wait_time,
            TrafficLightWrapper::Yellow(l) => l.state.wait_time,
        }
    }

    /// The state holds the wait that belongs to its colour.
    pub open spec fn wf(&self) -> bool {
        self.spec_wait_time() == wait_for(self.spec_color())
    }

    /// The state the light starts in: green, with the green wait.
    pub open spec fn initial() -> Self {
        TrafficLightWrapper::Green(TrafficLight { state: Green { wait_time: GREEN_WAIT_SECS } })
    }

    /// The state that follows this one: the next colour, with that colour's wait.
    pub open spec fn successor(self) -> Self {
        match self {
            TrafficLightWrapper::Green(_) => TrafficLightWrapper::Yellow(
                TrafficLight { state: Yellow { wait_time: YELLOW_WAIT_SECS } },
            ),
            TrafficLightWrapper::Yellow(_) => TrafficLightWrapper::Red(
                TrafficLight { state: Red { wait_time: RED_WAIT_SECS } },
            ),
            TrafficLightWrapper::Red(_) => TrafficLightWrapper::Green(
                TrafficLight { state: Green { wait_time: GREEN_WAIT_SECS } },
            ),
        }
    }

    /// The state reached from `self` after `n` steps.
    pub open spec fn iterate(self, n: nat) -> Self
        decreases n,
    {
        if n == 0 {
            self
        } else {
            self.iterate((n - 1) as nat).successor()
        }
    }

    /// A light that starts green, with the green wait.
    pub fn new() -> (r: Self)
        ensures
            r == Self::initial(),
    {
        TrafficLightWrapper::Green(TrafficLight::new())
    }

    /// Moves to the next state of the cycle Green, Yellow, Red, Green.
    pub fn step(self) -> (r: Self)
        ensures
            r == self.successor(),
            r.spec_color() == next_color(self.spec_color()),
            r.wf(),
    {
        match self {
            TrafficLightWrapper::Green(green) => TrafficLightWrapper::Yellow(green.into()),
            TrafficLightWrapper::Yellow(yellow) => TrafficLightWrapper::Red(yellow.into()),
            TrafficLightWrapper::Red(red) => TrafficLightWrapper::Green(red.into()),
        }
    }

    /// Which light is on.
    #[verifier::when_used_as_spec(spec_color)]
    pub fn color(&self) -> (r: Color)
        ensures
            r == self.spec_color(),
    {
        match self {
            TrafficLightWrapper::Red(_) => Color::Red,
            TrafficLightWrapper::Green(_) => Color::Green,
            TrafficLightWrapper::Yellow(_) => Color::Yellow,
        }
    }

    /// The wait, in seconds, before the light moves on.
    #[verifier::when_used_as_spec(spec_wait_time)]
    pub fn wait_time(&self) -> (r: u64)
        ensures
            r == self.spec_wait_time(),
    {
        match self {
            TrafficLightWrapper::Red(l) => l.state.wait_time,
            TrafficLightWrapper::Green(l) => l.state.wait_time,
            TrafficLightWrapper::Yellow(l) => l.state.wait_time,
        }
    }
}

/// Three steps bring any light back to the colour it started in, and a light
/// that holds the wait of its colour back to exactly the same state.
pub proof fn lemma_three_steps_close_cycle(s: TrafficLightWrapper)
    ensures
        s.successor().successor().successor().spec_color() == s.spec_color(),
        s.wf() ==> s.successor().successor().successor() == s,
{
}

/// However many steps have been taken, each state reached holds the wait that
/// belongs to its colour: Green 60 s, Yellow 10 s, Red 60 s.
pub proof fn lemma_wait_is_fixed_by_color(s: TrafficLightWrapper, n: nat)
    requires
        s.wf() || n > 0,
    ensures
        s.iterate(n).wf(),
        s.iterate(n).spec_wait_time() == wait_for(s.iterate(n).spec_color()),
    decreases n,
{
    if n > 1 {
        lemma_wait_is_fixed_by_color(s, (n - 1) as nat);
    }
}

/// After `n` steps from the starting state, the light shows the colour at
/// place `n mod 3` of Green, Yellow, Red, with that colour's wait.
pub proof fn lemma_cycle_from_start(n: nat)
    ensures
        TrafficLightWrapper::initial().iterate(n).spec_color() == color_at(n),
        TrafficLightWrapper::initial().iterate(n).wf(),
    decreases n,
{
    if n > 0 {
        lemma_cycle_from_start((n - 1) as nat);
        assert((n - 1) % 3 == 0 ==> n % 3 == 1);
        assert((n - 1) % 3 == 1 ==> n % 3 == 2);
        assert((n - 1) % 3 == 2 ==> n % 3 == 0);
    }
}

} // verus!
