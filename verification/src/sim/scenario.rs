//! Scripted drive scenarios: timed throttle and brake commands. Pedal
//! positions are in thousandths of full travel (400 is 40%); times are
//! microseconds since the scenario started.
use vstd::prelude::*;

verus! {

/// Types of pre-built scenarios.
#[derive(Debug, Clone, Copy, PartialEq, Eq, Structural)]
pub enum ScenarioKind {
    Idle,
    CityDrive,
    HighwayCruise,
    FullThrottle,
    ThermalStress,
    RangeTest,
    FaultInjection,
}

/// The name a scenario is chosen and shown by.
pub open spec fn scenario_label(k: ScenarioKind) -> &'static str {
    match k {
        ScenarioKind::Idle => "idle",
        ScenarioKind::CityDrive => "city-drive",
        ScenarioKind::HighwayCruise => "highway-cruise",
        ScenarioKind::FullThrottle => "full-throttle",
        ScenarioKind::ThermalStress => "thermal-stress",
        ScenarioKind::RangeTest => "range-test",
        ScenarioKind::FaultInjection => "fault-injection",
    }
}

/// The scenario a name selects, if any.
pub open spec fn scenario_by_name(s: Seq<char>) -> Option<ScenarioKind> {
    if s == "idle"@ {
        Some(ScenarioKind::Idle)
    } else if s == "city-drive"@ {
        Some(ScenarioKind::CityDrive)
    } else if s == "highway-cruise"@ {
        Some(ScenarioKind::HighwayCruise)
    } else if s == "full-throttle"@ {
        Some(ScenarioKind::FullThrottle)
    } else if s == "thermal-stress"@ {
        Some(ScenarioKind::ThermalStress)
    } else if s == "range-test"@ {
        Some(ScenarioKind::RangeTest)
    } else if s == "fault-injection"@ {
        Some(ScenarioKind::FaultInjection)
    } else {
        None
    }
}

/// Every scenario, in menu order.
pub open spec fn all_scenarios() -> Seq<ScenarioKind> {
    seq![
        ScenarioKind::Idle,
        ScenarioKind::CityDrive,
        ScenarioKind::HighwayCruise,
        ScenarioKind::FullThrottle,
        ScenarioKind::ThermalStress,
        ScenarioKind::RangeTest,
        ScenarioKind::FaultInjection,
    ]
}

fn same_text(a: &str, b: &str) -> (r: bool)
    ensures
        r == (a@ == b@),
{
    String::from_str(a) == String::from_str(b)
}

impl ScenarioKind {
    /// The name the scenario is chosen and shown by, e.g. `highway-cruise`.
    pub fn label(&self) -> (s: &'static str)
        ensures
            s == scenario_label(*self),
    {
        match self {
            ScenarioKind::Idle => "idle",
            ScenarioKind::CityDrive => "city-drive",
            ScenarioKind::HighwayCruise => "highway-cruise",
            ScenarioKind::FullThrottle => "full-throttle",
            ScenarioKind::ThermalStress => "thermal-stress",
            ScenarioKind::RangeTest => "range-test",
            ScenarioKind::FaultInjection => "fault-injection",
        }
    }

    pub fn all() -> (v: Vec<ScenarioKind>)
        ensures
            v@ == all_scenarios(),
    {
        vec![
            ScenarioKind::Idle,
            ScenarioKind::CityDrive,
            ScenarioKind::HighwayCruise,
            ScenarioKind::FullThrottle,
            ScenarioKind::ThermalStress,
            ScenarioKind::RangeTest,
            ScenarioKind::FaultInjection,
        ]
    }

    pub fn parse(s: &str) -> (k: Option<ScenarioKind>)
        ensures
            k == scenario_by_name(s@),
    {
        if same_text(s, "idle") {
            Some(ScenarioKind::Idle)
        } else if same_text(s, "city-drive") {
            Some(ScenarioKind::CityDrive)
        } else if same_text(s, "highway-cruise") {
            Some(ScenarioKind::HighwayCruise)
        } else if same_text(s, "full-throttle") {
            Some(ScenarioKind::FullThrottle)
        } else if same_text(s, "thermal-stress") {
            Some(ScenarioKind::ThermalStress)
        } else if same_text(s, "range-test") {
            Some(ScenarioKind::RangeTest)
        } else if same_text(s, "fault-injection") {
            Some(ScenarioKind::FaultInjection)
        } else {
            None
        }
    }
}

/// A single step in a scenario: throttle and brake from a given time on.
#[derive(Debug, Clone, Copy, PartialEq, Eq, Structural)]
pub struct ScenarioStep {
    /// Microseconds after the start.
    pub time_us: u64,
    /// Thousandths of full throttle.
    pub throttle: u16,
    /// Thousandths of full brake.
    pub brake: u16,
}

pub open spec fn step(secs: u64, throttle: u16, brake: u16) -> ScenarioStep {
    ScenarioStep { time_us: (secs * 1_000_000) as u64, throttle, brake }
}

/// The script of each scenario.
pub open spec fn scenario_steps(k: ScenarioKind) -> Seq<ScenarioStep> {
    match k {
        ScenarioKind::Idle => seq![step(0, 0, 0)],
        ScenarioKind::CityDrive => seq![
            step(0, 400, 0),
            step(10, 0, 300),
            step(15, 0, 0),
            step(20, 500, 0),
            step(30, 0, 500),
            step(35, 0, 0),
            step(40, 300, 0),
            step(50, 0, 400),
            step(55, 0, 0),
        ],
        ScenarioKind::HighwayCruise => seq![step(0, 800, 0), step(20, 300, 0)],
        ScenarioKind::FullThrottle => seq![step(0, 1000, 0)],
        ScenarioKind::ThermalStress => seq![
            step(0, 1000, 0),
            step(30, 0, 800),
            step(35, 1000, 0),
            step(65, 0, 800),
            step(70, 1000, 0),
        ],
        ScenarioKind::RangeTest => seq![step(0, 250, 0)],
        ScenarioKind::FaultInjection => seq![step(0, 500, 0), step(10, 800, 0)],
    }
}

/// The step index reached from `idx` at time `elapsed`: later steps are
/// taken while their time has come.
pub open spec fn advance_index(steps: Seq<ScenarioStep>, idx: int, elapsed: u64) -> int
    decreases steps.len() - idx,
{
    if 0 <= idx && idx + 1 < steps.len() && elapsed >= steps[idx + 1].time_us {
        advance_index(steps, idx + 1, elapsed)
    } else {
        idx
    }
}

fn make_step(secs: u64, throttle: u16, brake: u16) -> (s: ScenarioStep)
    requires
        secs <= 100,
    ensures
        s == step(secs, throttle, brake),
{
    ScenarioStep { time_us: secs * 1_000_000, throttle, brake }
}

/// A scripted scenario with timed throttle/brake commands.
pub struct Scenario {
    pub kind: ScenarioKind,
    pub steps: Vec<ScenarioStep>,
    /// The index of the step in force.
    pub current_index: usize,
    pub current_throttle: u16,
    pub current_brake: u16,
}

impl Scenario {
    /// The index of the step in force.
    pub open spec fn index(&self) -> int {
        self.current_index as int
    }

    pub open spec fn kind_view(&self) -> ScenarioKind {
        self.kind
    }

    pub open spec fn steps_view(&self) -> Seq<ScenarioStep> {
        self.steps@
    }

    /// The throttle in force.
    pub open spec fn throttle_view(&self) -> u16 {
        self.current_throttle
    }

    /// The brake in force.
    pub open spec fn brake_view(&self) -> u16 {
        self.current_brake
    }

    pub fn new(kind: ScenarioKind) -> (s: Scenario)
        ensures
            s.kind_view() == kind,
            s.steps_view() == scenario_steps(kind),
            s.index() == 0,
            s.throttle_view() == scenario_steps(kind)[0].throttle,
            s.brake_view() == scenario_steps(kind)[0].brake,
    {
        let steps = match kind {
            ScenarioKind::Idle => vec![make_step(0, 0, 0)],
            ScenarioKind::CityDrive => vec![
                make_step(0, 400, 0),
                make_step(10, 0, 300),
                make_step(15, 0, 0),
                make_step(20, 500, 0),
                make_step(30, 0, 500),
                make_step(35, 0, 0),
                make_step(40, 300, 0),
                make_step(50, 0, 400),
                make_step(55, 0, 0),
            ],
            ScenarioKind::HighwayCruise => vec![make_step(0, 800, 0), make_step(20, 300, 0)],
            ScenarioKind::FullThrottle => vec![make_step(0, 1000, 0)],
            ScenarioKind::ThermalStress => vec![
                make_step(0, 1000, 0),
                make_step(30, 0, 800),
                make_step(35, 1000, 0),
                make_step(65, 0, 800),
                make_step(70, 1000, 0),
            ],
            ScenarioKind::RangeTest => vec![make_step(0, 250, 0)],
            ScenarioKind::FaultInjection => vec![make_step(0, 500, 0), make_step(10, 800, 0)],
        };
        assert(steps@ == scenario_steps(kind));
        let current_throttle = if steps.len() > 0 {
            steps[0].throttle
        } else {
            0
        };
        let current_brake = if steps.len() > 0 {
            steps[0].brake
        } else {
            0
        };
        Scenario { kind, steps, current_index: 0, current_throttle, current_brake }
    }

    /// Update the scenario based on the time elapsed since it started:
    /// take every later step whose time has come, and return the throttle
    /// and brake in force.
    pub fn update(&mut self, elapsed_us: u64) -> (r: (u16, u16))
        ensures
            final(self).index() == advance_index(
                old(self).steps_view(),
                old(self).index(),
                elapsed_us,
            ),
            final(self).kind_view() == old(self).kind_view(),
            final(self).steps_view() == old(self).steps_view(),
            final(self).index() == old(self).index() ==> final(self).throttle_view() == old(
                self,
            ).throttle_view() && final(self).brake_view() == old(self).brake_view(),
            final(self).index() != old(self).index() ==> final(self).throttle_view() == old(
                self,
            ).steps_view()[final(self).index()].throttle && final(self).brake_view() == old(
                self,
            ).steps_view()[final(self).index()].brake,
            r == (final(self).throttle_view(), final(self).brake_view()),
    {
        let ghost start = self.current_index as int;
        while self.steps.len() > 0 && self.current_index < self.steps.len() - 1
            && elapsed_us >= self.steps[self.current_index + 1].time_us
            invariant
                self.kind == old(self).kind,
                self.steps@ == old(self).steps@,
                start == old(self).current_index,
                start <= self.current_index,
                advance_index(self.steps@, self.current_index as int, elapsed_us) == advance_index(
                    old(self).steps@,
                    start,
                    elapsed_us,
                ),
                self.current_index == start ==> self.current_throttle == old(self).current_throttle
                    && self.current_brake == old(self).current_brake,
                self.current_index != start ==> self.current_index < self.steps@.len()
                    && self.current_throttle == self.steps@[self.current_index as int].throttle
                    && self.current_brake == self.steps@[self.current_index as int].brake,
            decreases self.steps@.len() - self.current_index,
        {
            self.current_index = self.current_index + 1;
            self.current_throttle = self.steps[self.current_index].throttle;
            self.current_brake = self.steps[self.current_index].brake;
        }
        (self.current_throttle, self.current_brake)
    }

    /// Scenarios are meant to repeat after their last step.
    pub fn is_looping(&self) -> (b: bool)
        ensures
            b,
    {
        true
    }
}

/// Step times never decrease from one step to the next.
pub open spec fn times_ascend(steps: Seq<ScenarioStep>) -> bool {
    forall|i: int| 0 < i < steps.len() ==> steps[i - 1].time_us <= #[trigger] steps[i].time_us
}

proof fn lemma_ascending_apart(steps: Seq<ScenarioStep>, i: int, j: int)
    requires
        times_ascend(steps),
        0 <= i <= j < steps.len(),
    ensures
        steps[i].time_us <= steps[j].time_us,
    decreases j - i,
{
    if i < j {
        lemma_ascending_apart(steps, i, j - 1);
        assert(steps[j - 1].time_us <= steps[j].time_us);
    }
}

/// From a step whose time has come, advancing reaches the latest step whose
/// time has come.
pub proof fn lemma_advance_reaches_latest_due(steps: Seq<ScenarioStep>, idx: int, elapsed: u64)
    requires
        times_ascend(steps),
        0 <= idx < steps.len(),
        steps[idx].time_us <= elapsed,
    ensures
        idx <= advance_index(steps, idx, elapsed) < steps.len(),
        steps[advance_index(steps, idx, elapsed)].time_us <= elapsed,
        forall|j: int|
            advance_index(steps, idx, elapsed) < j < steps.len() ==> elapsed
                < #[trigger] steps[j].time_us,
    decreases steps.len() - idx,
{
    if idx + 1 < steps.len() && elapsed >= steps[idx + 1].time_us {
        lemma_advance_reaches_latest_due(steps, idx + 1, elapsed);
    } else if idx + 1 < steps.len() {
        assert forall|j: int| idx < j < steps.len() implies elapsed < #[trigger] steps[j].time_us by {
            lemma_ascending_apart(steps, idx + 1, j);
        }
    }
}

proof fn lemma_scripts_ascend(k: ScenarioKind)
    ensures
        times_ascend(scenario_steps(k)),
        scenario_steps(k).len() > 0,
        scenario_steps(k)[0].time_us == 0,
{
    let s = scenario_steps(k);
    assert forall|i: int| 0 < i < s.len() implies s[i - 1].time_us <= #[trigger] s[i].time_us by {
        if i == 1 {
        } else if i == 2 {
        } else if i == 3 {
        } else if i == 4 {
        } else if i == 5 {
        } else if i == 6 {
        } else if i == 7 {
        } else {
        }
    }
}

/// A fresh scenario, updated at any time, is in the latest step of its
/// script whose time has come: that step's time has passed and every later
/// step's has not.
pub proof fn law_scenario_follows_script(k: ScenarioKind, elapsed: u64)
    ensures
        ({
            let steps = scenario_steps(k);
            let r = advance_index(steps, 0, elapsed);
            &&& 0 <= r < steps.len()
            &&& steps[r].time_us <= elapsed
            &&& forall|j: int| r < j < steps.len() ==> elapsed < #[trigger] steps[j].time_us
        }),
{
    lemma_scripts_ascend(k);
    lemma_advance_reaches_latest_due(scenario_steps(k), 0, elapsed);
}

/// Every scenario's name selects that scenario.
pub proof fn law_parse_label_roundtrip(k: ScenarioKind)
    ensures
        scenario_by_name(scenario_label(k)@) == Some(k),
{
    reveal_strlit("idle");
    reveal_strlit("city-drive");
    reveal_strlit("highway-cruise");
    reveal_strlit("full-throttle");
    reveal_strlit("thermal-stress");
    reveal_strlit("range-test");
    reveal_strlit("fault-injection");
    assert("idle"@.len() == 4);
    assert("city-drive"@.len() == 10 && "city-drive"@[0] == 'c');
    assert("highway-cruise"@.len() == 14 && "highway-cruise"@[0] == 'h');
    assert("full-throttle"@.len() == 13);
    assert("thermal-stress"@.len() == 14 && "thermal-stress"@[0] == 't');
    assert("range-test"@.len() == 10 && "range-test"@[0] == 'r');
    assert("fault-injection"@.len() == 15);
}

} // verus!
