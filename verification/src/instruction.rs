use vstd::prelude::*;

verus! {

/// One operand of a decoded instruction.
#[derive(Debug)]
pub enum Arg {
    /// A register, held as its canonical name.
    Register(String),
    /// An immediate value, held as its decimal text.
    Immediate(String),
    /// A memory address calculation: base and index register names, with the
    /// displacement as decimal text appended when it is present and non-zero.
    AddrsCalc(Vec<String>),
}

/// The mathematical value of an `Arg`: the same three-way choice over
/// character sequences.
pub enum ArgV {
    Register(Seq<char>),
    Immediate(Seq<char>),
    AddrsCalc(Seq<Seq<char>>),
}

impl View for Arg {
    type V = ArgV;

    open spec fn view(&self) -> ArgV {
        match self {
            Arg::Register(name) => ArgV::Register(name@),
            Arg::Immediate(text) => ArgV::Immediate(text@),
            Arg::AddrsCalc(parts) => ArgV::AddrsCalc(parts.deep_view()),
        }
    }
}

impl DeepView for Arg {
    type V = ArgV;

    open spec fn deep_view(&self) -> ArgV {
        self.view()
    }
}

/// A decoded instruction: a mnemonic and its operands, in
/// destination-then-source order.
#[derive(Debug)]
pub struct Instruction {
    pub mnemonic: String,
    pub arg: Vec<Arg>,
}

/// The mathematical value of an `Instruction`.
pub struct InstructionV {
    pub mnemonic: Seq<char>,
    pub args: Seq<ArgV>,
}

impl View for Instruction {
    type V = InstructionV;

    open spec fn view(&self) -> InstructionV {
        InstructionV { mnemonic: self.mnemonic@, args: self.arg.deep_view() }
    }
}

/// The pieces joined with the separator between each neighbouring pair.
pub open spec fn join_with(parts: Seq<Seq<char>>, sep: Seq<char>) -> Seq<char>
    decreases parts.len(),
{
    if parts.len() == 0 {
        Seq::empty()
    } else if parts.len() == 1 {
        parts[0]
    } else {
        join_with(parts.drop_last(), sep) + sep + parts.last()
    }
}

/// How one operand renders: a register or immediate as its text, an address
/// calculation as its pieces joined with `" + "` inside square brackets.
pub open spec fn render_arg(a: ArgV) -> Seq<char> {
    match a {
        ArgV::Register(name) => name,
        ArgV::Immediate(text) => text,
        ArgV::AddrsCalc(parts) => "["@ + join_with(parts, " + "@) + "]"@,
    }
}

/// How a whole instruction renders: the mnemonic, a space, then the rendered
/// operands joined with `", "`.
pub open spec fn render_instruction(i: InstructionV) -> Seq<char> {
    i.mnemonic + " "@ + join_with(i.args.map_values(|a: ArgV| render_arg(a)), ", "@)
}

/// Joins the strings with the separator between each neighbouring pair.
fn join_strings(parts: &Vec<String>, sep: &str) -> (r: String)
    ensures
        r@ == join_with(parts.deep_view(), sep@),
{
    let mut r = String::new();
    let mut i: usize = 0;
    while i < parts.len()
        invariant
            i <= parts.len(),
            r@ == join_with(parts.deep_view().take(i as int), sep@),
        decreases parts.len() - i,
    {
        if i > 0 {
            r.append(sep);
        }
        r.append(parts[i].as_str());
        proof {
            let dv = parts.deep_view();
            assert(dv[i as int] == parts@[i as int]@);
            assert(dv.take(i + 1).drop_last() =~= dv.take(i as int));
            assert(dv.take(i + 1).last() == dv[i as int]);
        }
        i = i + 1;
    }
    proof {
        assert(parts.deep_view().take(parts@.len() as int) =~= parts.deep_view());
    }
    r
}

impl Arg {
    pub fn new_register(name: &str) -> (r: Self)
        ensures
            r@ == ArgV::Register(name@),
    {
        Arg::Register(String::from_str(name))
    }

    pub fn new_immediate(name: String) -> (r: Self)
        ensures
            r@ == ArgV::Immediate(name@),
    {
        Arg::Immediate(name)
    }

    pub fn new_addrs_calc(calc_params: Vec<String>) -> (r: Self)
        ensures
            r@ == ArgV::AddrsCalc(calc_params.deep_view()),
    {
        Arg::AddrsCalc(calc_params)
    }

    /// Renders this operand as text.
    pub fn to_string(&self) -> (r: String)
        ensures
            r@ == render_arg(self@),
    {
        match self {
            Arg::Register(name) => name.clone(),
            Arg::Immediate(text) => text.clone(),
            Arg::AddrsCalc(parts) => {
                let mut r = String::from_str("[");
                r.append(join_strings(parts, " + ").as_str());
                r.append("]");
                r
            },
        }
    }
}

impl Instruction {
    pub fn new(mnemonic: &str) -> (r: Self)
        ensures
            r@.mnemonic == mnemonic@,
            r@.args == Seq::<ArgV>::empty(),
    {
        let r = Instruction { mnemonic: String::from_str(mnemonic), arg: Vec::new() };
        proof {
            assert(r@.args =~= Seq::<ArgV>::empty());
        }
        r
    }

    /// Renders this instruction as one line of assembly text.
    pub fn to_string(&self) -> (r: String)
        ensures
            r@ == render_instruction(self@),
    {
        let mut arg_strs: Vec<String> = Vec::new();
        let mut i: usize = 0;
        while i < self.arg.len()
            invariant
                i <= self.arg.len(),
                arg_strs.deep_view() == self@.args.take(i as int).map_values(
                    |a: ArgV| render_arg(a),
                ),
            decreases self.arg.len() - i,
        {
            let ghost before = arg_strs.deep_view();
            arg_strs.push(self.arg[i].to_string());
            proof {
                let dv = arg_strs.deep_view();
                let mapped = self@.args.take(i + 1).map_values(|a: ArgV| render_arg(a));
                assert(self@.args.len() == self.arg@.len());
                assert(before.len() == i as int);
                assert(arg_strs@.len() == i + 1);
                assert(dv.len() == i + 1);
                assert(mapped.len() == i + 1);
                assert(self@.args[i as int] == self.arg@[i as int]@);
                assert forall|j: int| 0 <= j < dv.len() implies dv[j] == mapped[j] by {
                    assert(dv[j] == arg_strs@[j]@);
                    assert(mapped[j] == render_arg(self@.args.take(i + 1)[j]));
                    if j < i {
                        assert(before[j] == render_arg(self@.args.take(i as int)[j]));
                    }
                }
                assert(dv =~= mapped);
            }
            i = i + 1;
        }
        proof {
            assert(self@.args.take(self.arg@.len() as int) =~= self@.args);
        }
        let mut r = self.mnemonic.clone();
        r.append(" ");
        r.append(join_strings(&arg_strs, ", ").as_str());
        r
    }
}

} // verus!
