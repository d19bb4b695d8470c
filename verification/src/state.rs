//! The shared application state: the session gate, the loaded program and
//! the fixed registry of five worker lanes, one per polling interval.

use vstd::prelude::*;

use crate::command::DestinationEnum;
use crate::instruction::Instruction;
use crate::instruction::InstructionView;
use crate::lane::LaneView;
use crate::lane::WorkerLane;
use crate::lane::lane_wf;
use crate::session::SessionGate;

verus! {

/// Abstract value of the whole application state.
pub ghost struct StateView {
    pub master_key: Option<Seq<char>>,
    pub code_segment: Seq<InstructionView>,
    pub lanes: Seq<LaneView>,
}

/// Everything the control surface owns: one value, created at process
/// start and shared with every request handler.
pub struct InstreamState {
    pub master_key: SessionGate,
    pub code_segment: Vec<Instruction>,
    pub lanes: Vec<WorkerLane>,
}

impl DeepView for WorkerLane {
    type V = LaneView;

    open spec fn deep_view(&self) -> LaneView {
        self@
    }
}

impl View for InstreamState {
    type V = StateView;

    open spec fn view(&self) -> StateView {
        StateView {
            master_key: self.master_key@,
            code_segment: self.code_segment.deep_view(),
            lanes: self.lanes.deep_view(),
        }
    }
}

/// Position of each lane in the registry.
pub open spec fn spec_lane_index(d: DestinationEnum) -> int {
    match d {
        DestinationEnum::Worker10 => 0,
        DestinationEnum::Worker25 => 1,
        DestinationEnum::Worker50 => 2,
        DestinationEnum::Worker100 => 3,
        DestinationEnum::Worker250 => 4,
    }
}

/// The lane registered at each position.
pub open spec fn dest_of_index(i: int) -> DestinationEnum {
    if i == 0 {
        DestinationEnum::Worker10
    } else if i == 1 {
        DestinationEnum::Worker25
    } else if i == 2 {
        DestinationEnum::Worker50
    } else if i == 3 {
        DestinationEnum::Worker100
    } else {
        DestinationEnum::Worker250
    }
}

/// The fixed polling interval of each lane, in milliseconds.
pub open spec fn spec_interval(d: DestinationEnum) -> u64 {
    match d {
        DestinationEnum::Worker10 => 10,
        DestinationEnum::Worker25 => 25,
        DestinationEnum::Worker50 => 50,
        DestinationEnum::Worker100 => 100,
        DestinationEnum::Worker250 => 250,
    }
}

/// State invariant: five lanes, each well formed, each at its registered
/// interval.
pub open spec fn state_wf(s: StateView) -> bool {
    &&& s.lanes.len() == 5
    &&& forall|i: int| 0 <= i < 5 ==> lane_wf(#[trigger] s.lanes[i])
    &&& forall|i: int|
        0 <= i < 5 ==> (#[trigger] s.lanes[i]).interval_ms == spec_interval(dest_of_index(i))
}

impl DestinationEnum {
    /// Executable form of `spec_lane_index`.
    pub fn lane_index(&self) -> (i: usize)
        ensures
            i == spec_lane_index(*self),
            i < 5,
    {
        match self {
            DestinationEnum::Worker10 => 0,
            DestinationEnum::Worker25 => 1,
            DestinationEnum::Worker50 => 2,
            DestinationEnum::Worker100 => 3,
            DestinationEnum::Worker250 => 4,
        }
    }

    /// Executable form of `spec_interval`.
    pub fn interval_ms(&self) -> (ms: u64)
        ensures
            ms == spec_interval(*self),
    {
        match self {
            DestinationEnum::Worker10 => 10,
            DestinationEnum::Worker25 => 25,
            DestinationEnum::Worker50 => 50,
            DestinationEnum::Worker100 => 100,
            DestinationEnum::Worker250 => 250,
        }
    }
}

impl InstreamState {
    /// The state at process start: no key issued, empty program, five
    /// stopped lanes at their registered intervals.
    pub fn new() -> (s: InstreamState)
        ensures
            state_wf(s@),
            s@.master_key is None,
            s@.code_segment.len() == 0,
            forall|i: int| 0 <= i < 5 ==> !(#[trigger] s@.lanes[i]).running,
    {
        let mut lanes: Vec<WorkerLane> = Vec::new();
        lanes.push(WorkerLane::new(10));
        lanes.push(WorkerLane::new(25));
        lanes.push(WorkerLane::new(50));
        lanes.push(WorkerLane::new(100));
        lanes.push(WorkerLane::new(250));
        let s = InstreamState {
            master_key: SessionGate::new(),
            code_segment: Vec::new(),
            lanes,
        };
        proof {
            assert forall|i: int| 0 <= i < 5 implies {
                &&& lane_wf(#[trigger] s@.lanes[i])
                &&& !s@.lanes[i].running
                &&& s@.lanes[i].interval_ms == spec_interval(dest_of_index(i))
            } by {
                assert(s.lanes@.len() == 5);
            }
        }
        s
    }

    /// Mutable access to one lane of the registry.
    pub fn lane_mut(&mut self, d: DestinationEnum) -> (l: &mut WorkerLane)
        requires
            state_wf(old(self)@),
        ensures
            *l == old(self).lanes@[spec_lane_index(d)],
            final(self).lanes@ == old(self).lanes@.update(spec_lane_index(d), *final(l)),
            final(self).master_key == old(self).master_key,
            final(self).code_segment == old(self).code_segment,
    {
        let i = d.lane_index();
        &mut self.lanes[i]
    }

    /// Read access to one lane of the registry.
    pub fn lane(&self, d: DestinationEnum) -> (l: &WorkerLane)
        requires
            state_wf(self@),
        ensures
            *l == self.lanes@[spec_lane_index(d)],
            l@ == self@.lanes[spec_lane_index(d)],
    {
        let i = d.lane_index();
        &self.lanes[i]
    }
}

} // verus!
