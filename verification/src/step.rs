use vstd::prelude::*;

verus! {

/// One step of the reasoning-and-acting loop: what the model thought, the
/// tool invocations it asked for, and what those invocations returned.
#[derive(Debug, Clone)]
pub struct Step {
    pub step_number: usize,
    pub thought: String,
    pub actions: Vec<String>,
    pub observations: Vec<String>,
    pub is_final: bool,
}

/// The mathematical content of a step.
pub struct StepView {
    pub step_number: nat,
    pub thought: Seq<char>,
    pub actions: Seq<Seq<char>>,
    pub observations: Seq<Seq<char>>,
    pub is_final: bool,
}

pub open spec fn strings_view(s: Seq<String>) -> Seq<Seq<char>> {
    s.map_values(|t: String| t@)
}

impl View for Step {
    type V = StepView;

    open spec fn view(&self) -> StepView {
        StepView {
            step_number: self.step_number as nat,
            thought: self.thought@,
            actions: strings_view(self.actions@),
            observations: strings_view(self.observations@),
            is_final: self.is_final,
        }
    }
}

/// A step with the given number that has no thought, action or observation yet
/// and is not final.
pub open spec fn empty_step(step_number: nat) -> StepView {
    StepView {
        step_number,
        thought: Seq::empty(),
        actions: Seq::empty(),
        observations: Seq::empty(),
        is_final: false,
    }
}

impl Step {
    pub fn new(step_number: usize) -> (r: Self)
        ensures
            r@ == empty_step(step_number as nat),
    {
        let r = Step {
            step_number,
            thought: String::new(),
            actions: Vec::new(),
            observations: Vec::new(),
            is_final: false,
        };
        assert(strings_view(r.actions@) =~= Seq::<Seq<char>>::empty());
        assert(strings_view(r.observations@) =~= Seq::<Seq<char>>::empty());
        r
    }

    pub fn with_thought(self, thought: String) -> (r: Self)
        ensures
            r@ == (StepView { thought: thought@, ..self@ }),
    {
        let mut s = self;
        s.thought = thought;
        s
    }

    pub fn add_action(self, action: String) -> (r: Self)
        ensures
            r@ == (StepView { actions: self@.actions.push(action@), ..self@ }),
    {
        let mut s = self;
        let ghost a = action@;
        s.actions.push(action);
        assert(strings_view(s.actions@) =~= strings_view(self.actions@).push(a));
        s
    }

    pub fn add_observation(self, observation: String) -> (r: Self)
        ensures
            r@ == (StepView { observations: self@.observations.push(observation@), ..self@ }),
    {
        let mut s = self;
        let ghost o = observation@;
        s.observations.push(observation);
        assert(strings_view(s.observations@) =~= strings_view(self.observations@).push(o));
        s
    }

    pub fn mark_final(self) -> (r: Self)
        ensures
            r@ == (StepView { is_final: true, ..self@ }),
    {
        let mut s = self;
        s.is_final = true;
        s
    }
}

} // verus!
