use vstd::prelude::*;

verus! {

/// The advocate's five abilities, each kept within `0..=100` by training.
#[derive(Debug, Clone, Copy, PartialEq, Eq, Structural)]
pub struct AdvocateStats {
    pub logic_speed: u16,
    pub mental_stamina: u16,
    pub speech_power: u16,
    pub guts: u16,
    pub intellect: u16,
}

/// Every ability lies within `0..=100`.
pub open spec fn stats_in_range(s: AdvocateStats) -> bool {
    &&& s.logic_speed <= 100
    &&& s.mental_stamina <= 100
    &&& s.speech_power <= 100
    &&& s.guts <= 100
    &&& s.intellect <= 100
}

/// The sum of the five abilities.
pub open spec fn stats_total(s: AdvocateStats) -> int {
    s.logic_speed + s.mental_stamina + s.speech_power + s.guts + s.intellect
}

/// The abilities a new advocate starts with.
pub open spec fn default_stats() -> AdvocateStats {
    AdvocateStats { logic_speed: 28, mental_stamina: 35, speech_power: 32, guts: 24, intellect: 30 }
}

impl AdvocateStats {
    /// The sum of the five abilities.
    pub fn total(self) -> (t: u16)
        requires
            stats_total(self) <= u16::MAX,
        ensures
            t == stats_total(self),
    {
        self.logic_speed + self.mental_stamina + self.speech_power + self.guts + self.intellect
    }
}

impl Default for AdvocateStats {
    fn default() -> (s: Self)
        ensures
            s == default_stats(),
    {
        AdvocateStats { logic_speed: 28, mental_stamina: 35, speech_power: 32, guts: 24, intellect: 30 }
    }
}

/// The training actions that can fill a week.
#[derive(Debug, Clone, Copy, PartialEq, Eq, Structural)]
pub enum TrainingActionId {
    LogicDrill,
    SpeechPractice,
    LawStudy,
    NerveControl,
}

/// A signed change to each ability.
#[derive(Debug, Clone, Copy, PartialEq, Eq, Structural)]
pub struct AdvocateStatsDelta {
    pub logic_speed: i16,
    pub mental_stamina: i16,
    pub speech_power: i16,
    pub guts: i16,
    pub intellect: i16,
}

/// A training action: its id, the label shown to the player and its effect.
#[derive(Debug, Clone, Copy, PartialEq, Eq)]
pub struct TrainingAction {
    pub id: TrainingActionId,
    pub label: &'static str,
    pub delta: AdvocateStatsDelta,
}

/// What each training action adds to the abilities.
pub open spec fn action_delta(id: TrainingActionId) -> AdvocateStatsDelta {
    match id {
        TrainingActionId::LogicDrill => AdvocateStatsDelta { logic_speed: 12, mental_stamina: 0, speech_power: 0, guts: 0, intellect: 0 },
        TrainingActionId::SpeechPractice => AdvocateStatsDelta { logic_speed: 0, mental_stamina: 0, speech_power: 12, guts: 0, intellect: 0 },
        TrainingActionId::LawStudy => AdvocateStatsDelta { logic_speed: 0, mental_stamina: 0, speech_power: 0, guts: 0, intellect: 12 },
        TrainingActionId::NerveControl => AdvocateStatsDelta { logic_speed: 0, mental_stamina: 8, speech_power: 0, guts: 6, intellect: 0 },
    }
}

/// The label of each training action.
pub open spec fn action_label(id: TrainingActionId) -> Seq<char> {
    match id {
        TrainingActionId::LogicDrill => "Logic Drill"@,
        TrainingActionId::SpeechPractice => "Speech Practice"@,
        TrainingActionId::LawStudy => "Law Study"@,
        TrainingActionId::NerveControl => "Nerve Control"@,
    }
}

/// The actions in the order the training screen lists them.
pub open spec fn action_order() -> Seq<TrainingActionId> {
    seq![
        TrainingActionId::LogicDrill,
        TrainingActionId::SpeechPractice,
        TrainingActionId::LawStudy,
        TrainingActionId::NerveControl,
    ]
}

/// How many training actions there are.
pub const TRAINING_ACTION_COUNT: usize = 4;

/// The training action with this id.
pub fn training_action(id: TrainingActionId) -> (a: TrainingAction)
    ensures
        a.id == id,
        a.label@ == action_label(id),
        a.delta == action_delta(id),
{
    let zero = AdvocateStatsDelta { logic_speed: 0, mental_stamina: 0, speech_power: 0, guts: 0, intellect: 0 };
    match id {
        TrainingActionId::LogicDrill => TrainingAction {
            id,
            label: "Logic Drill",
            delta: AdvocateStatsDelta { logic_speed: 12, ..zero },
        },
        TrainingActionId::SpeechPractice => TrainingAction {
            id,
            label: "Speech Practice",
            delta: AdvocateStatsDelta { speech_power: 12, ..zero },
        },
        TrainingActionId::LawStudy => TrainingAction {
            id,
            label: "Law Study",
            delta: AdvocateStatsDelta { intellect: 12, ..zero },
        },
        TrainingActionId::NerveControl => TrainingAction {
            id,
            label: "Nerve Control",
            delta: AdvocateStatsDelta { mental_stamina: 8, guts: 6, ..zero },
        },
    }
}

/// The training action at `index` in the order the training screen lists them.
pub fn training_action_at(index: usize) -> (a: TrainingAction)
    requires
        index < TRAINING_ACTION_COUNT,
    ensures
        a.id == action_order()[index as int],
        a.label@ == action_label(a.id),
        a.delta == action_delta(a.id),
{
    let id = match index {
        0 => TrainingActionId::LogicDrill,
        1 => TrainingActionId::SpeechPractice,
        2 => TrainingActionId::LawStudy,
        _ => TrainingActionId::NerveControl,
    };
    training_action(id)
}

/// All training actions, in the order the training screen lists them.
pub fn training_actions() -> (v: Vec<TrainingAction>)
    ensures
        v@.len() == TRAINING_ACTION_COUNT,
        forall|i: int| 0 <= i < 4 ==> #[trigger] v@[i].id == action_order()[i] && v@[i].label@ == action_label(v@[i].id)
            && v@[i].delta == action_delta(v@[i].id),
{
    let mut v: Vec<TrainingAction> = Vec::new();
    let mut i: usize = 0;
    while i < TRAINING_ACTION_COUNT
        invariant
            i <= 4,
            v@.len() == i,
            forall|j: int| 0 <= j < i ==> #[trigger] v@[j].id == action_order()[j] && v@[j].label@ == action_label(v@[j].id)
                && v@[j].delta == action_delta(v@[j].id),
        decreases 4 - i,
    {
        v.push(training_action_at(i));
        i = i + 1;
    }
    v
}

/// `value` (read as an `i16`) moved by `delta` and held within `0..=100`.
pub open spec fn clamped_add(value: u16, delta: i16) -> u16 {
    let v = (value as i16) + delta;
    if v < 0 {
        0
    } else if v > 100 {
        100
    } else {
        v as u16
    }
}

/// Adding `delta` to `value` read as an `i16` does not overflow.
pub open spec fn add_fits(value: u16, delta: i16) -> bool {
    i16::MIN <= (value as i16) + delta <= i16::MAX
}

/// The delta can be applied without overflow.
pub open spec fn delta_fits(stats: AdvocateStats, delta: AdvocateStatsDelta) -> bool {
    &&& add_fits(stats.logic_speed, delta.logic_speed)
    &&& add_fits(stats.mental_stamina, delta.mental_stamina)
    &&& add_fits(stats.speech_power, delta.speech_power)
    &&& add_fits(stats.guts, delta.guts)
    &&& add_fits(stats.intellect, delta.intellect)
}

/// Each ability moved by its delta and held within `0..=100`.
pub open spec fn delta_applied(stats: AdvocateStats, delta: AdvocateStatsDelta) -> AdvocateStats {
    AdvocateStats {
        logic_speed: clamped_add(stats.logic_speed, delta.logic_speed),
        mental_stamina: clamped_add(stats.mental_stamina, delta.mental_stamina),
        speech_power: clamped_add(stats.speech_power, delta.speech_power),
        guts: clamped_add(stats.guts, delta.guts),
        intellect: clamped_add(stats.intellect, delta.intellect),
    }
}

fn add_clamped(value: u16, delta: i16) -> (r: u16)
    requires
        add_fits(value, delta),
    ensures
        r == clamped_add(value, delta),
{
    let v = (value as i16) + delta;
    if v < 0 {
        0
    } else if v > 100 {
        100
    } else {
        v as u16
    }
}

/// Moves each ability by its delta, holding it within `0..=100`.
pub fn apply_delta(stats: AdvocateStats, delta: AdvocateStatsDelta) -> (r: AdvocateStats)
    requires
        delta_fits(stats, delta),
    ensures
        r == delta_applied(stats, delta),
        stats_in_range(r),
{
    AdvocateStats {
        logic_speed: add_clamped(stats.logic_speed, delta.logic_speed),
        mental_stamina: add_clamped(stats.mental_stamina, delta.mental_stamina),
        speech_power: add_clamped(stats.speech_power, delta.speech_power),
        guts: add_clamped(stats.guts, delta.guts),
        intellect: add_clamped(stats.intellect, delta.intellect),
    }
}

/// Abilities within range take any training action's delta without overflow.
pub proof fn lemma_training_delta_fits(stats: AdvocateStats, id: TrainingActionId)
    requires
        stats_in_range(stats),
    ensures
        delta_fits(stats, action_delta(id)),
{
}

/// Training keeps every ability within `0..=100`, whatever it started from.
pub proof fn lemma_delta_keeps_range(stats: AdvocateStats, delta: AdvocateStatsDelta)
    ensures
        stats_in_range(delta_applied(stats, delta)),
{
}

} // verus!
