//! The loaded program: an ordered list of instruction records, stored and
//! echoed verbatim, never interpreted.

use vstd::prelude::*;

verus! {

/// Abstract value of one instruction record.
pub ghost struct InstructionView {
    pub opcode: Seq<char>,
    pub imdval: Seq<char>,
    pub regsrc: u8,
    pub regext: u8,
    pub regdst: u8,
}

/// One instruction record: opcode, immediate value and three register
/// numbers.  Opcode semantics are never checked; records are only stored.
#[derive(Debug)]
pub struct Instruction {
    pub opcode: String,
    pub imdval: String,
    pub regsrc: u8,
    pub regext: u8,
    pub regdst: u8,
}

impl DeepView for Instruction {
    type V = InstructionView;

    open spec fn deep_view(&self) -> InstructionView {
        InstructionView {
            opcode: self.opcode@,
            imdval: self.imdval@,
            regsrc: self.regsrc,
            regext: self.regext,
            regdst: self.regdst,
        }
    }
}

impl Clone for Instruction {
    fn clone(&self) -> (res: Self)
        ensures
            res.deep_view() == self.deep_view(),
    {
        Instruction {
            opcode: self.opcode.clone(),
            imdval: self.imdval.clone(),
            regsrc: self.regsrc,
            regext: self.regext,
            regdst: self.regdst,
        }
    }
}

/// An ordered sequence of instruction records, as a load request carries it
/// and a list request returns it.
#[derive(Debug)]
pub struct ProgramSource {
    pub instructions: Vec<Instruction>,
}

impl DeepView for ProgramSource {
    type V = Seq<InstructionView>;

    open spec fn deep_view(&self) -> Seq<InstructionView> {
        self.instructions.deep_view()
    }
}

/// Copies an instruction list, record for record, preserving order and
/// every field value.
pub fn clone_instructions(v: &Vec<Instruction>) -> (r: Vec<Instruction>)
    ensures
        r.deep_view() == v.deep_view(),
{
    let mut out: Vec<Instruction> = Vec::new();
    let mut i: usize = 0;
    while i < v.len()
        invariant
            i <= v.len(),
            out.deep_view() =~= v.deep_view().take(i as int),
        decreases v.len() - i,
    {
        let ghost prev = out.deep_view();
        out.push(v[i].clone());
        proof {
            assert(out.deep_view() =~= prev.push(v@[i as int].deep_view()));
            assert(v.deep_view().take(i + 1) =~= v.deep_view().take(i as int).push(
                v.deep_view()[i as int],
            ));
        }
        i = i + 1;
    }
    proof {
        assert(out.deep_view() =~= v.deep_view());
    }
    out
}

impl Clone for ProgramSource {
    fn clone(&self) -> (res: Self)
        ensures
            res.deep_view() == self.deep_view(),
    {
        ProgramSource { instructions: clone_instructions(&self.instructions) }
    }
}

} // verus!
