//! A simple stack-typed WAT synthesizer.
//!
//! The synthesizer emits a single-function module with one imported host
//! function and one exported function whose body is `fuel` randomly chosen
//! instructions followed by a cleanup phase.  An abstract operand stack is
//! simulated during generation so that every emitted instruction is type-
//! and arity-correct: the arity of each operator is drawn below
//! `min(3, depth + 1)`, so a consuming operator is never chosen with too
//! few values on the stack, and the cleanup phase drains every value that
//! remains.
//!
//! The whole generation is pinned to a specification-level model
//! ([`spec_wat`]) built from the named RNG draws, which makes generation a
//! function of `(seed, fuel)` alone.

use vstd::prelude::*;
use vstd::string::StringExecFns;
use crate::decimal::{spec_dec, dec_text};
use crate::generator::TestCaseGenerator;
use crate::rng::{Prng, range_draw, i32_draw};

verus! {

/// The value types tracked on the abstract operand stack.  A closed tag
/// set, with a single inhabitant today; the stack discipline does not
/// depend on which tags exist.
#[derive(Copy, Clone, Debug)]
pub enum ValType {
    /// A 32-bit integer.
    I32,
}

/// The specification-level state of a generation in progress: the text
/// emitted so far, the RNG draw history, and the abstract operand stack.
pub struct GenState {
    /// The program text emitted so far.
    pub text: Seq<char>,
    /// The RNG draws made so far.
    pub history: Seq<int>,
    /// The abstract operand stack.
    pub stack: Seq<ValType>,
}

/// One instruction line: an indent, the operator, a newline.
pub open spec fn instr_line(op: Seq<char>) -> Seq<char> {
    "    "@ + op + "\n"@
}

/// One instruction line with an immediate.
pub open spec fn instr_imm_line(op: Seq<char>, imm: Seq<char>) -> Seq<char> {
    "    "@ + op + " "@ + imm + "\n"@
}

/// The exclusive upper bound for the arity draw: an operator may consume at
/// most two values, and never more than the stack holds.
pub open spec fn arity_bound(depth: nat) -> u64 {
    if depth >= 2 {
        3
    } else {
        (depth + 1) as u64
    }
}

/// An arity-0 operator: with equal probability a random constant (pushing
/// one value) or a no-op.
pub open spec fn spec_op_0(seed: u64, s: GenState) -> GenState {
    let c = range_draw(seed, s.history, 2);
    let h = s.history.push(2);
    if c == 0 {
        let v = i32_draw(seed, h);
        GenState {
            text: s.text + instr_imm_line("i32.const"@, spec_dec(v as int)),
            history: h.push(-1),
            stack: s.stack.push(ValType::I32),
        }
    } else {
        GenState { text: s.text + instr_line("nop"@), history: h, stack: s.stack }
    }
}

/// An arity-1 operator, the consumed operand already popped: with equal
/// probability a discard or a unary bit-counting operator (which pushes its
/// result back).
pub open spec fn spec_op_1(seed: u64, s: GenState) -> GenState {
    let c = range_draw(seed, s.history, 2);
    let h = s.history.push(2);
    if c == 0 {
        GenState { text: s.text + instr_line("drop"@), history: h, stack: s.stack }
    } else {
        GenState {
            text: s.text + instr_line("i32.popcnt"@),
            history: h,
            stack: s.stack.push(ValType::I32),
        }
    }
}

/// An arity-2 operator, both consumed operands already popped: with equal
/// probability an addition or a multiplication, pushing one result.
pub open spec fn spec_op_2(seed: u64, s: GenState) -> GenState {
    let c = range_draw(seed, s.history, 2);
    let h = s.history.push(2);
    if c == 0 {
        GenState {
            text: s.text + instr_line("i32.add"@),
            history: h,
            stack: s.stack.push(ValType::I32),
        }
    } else {
        GenState {
            text: s.text + instr_line("i32.mul"@),
            history: h,
            stack: s.stack.push(ValType::I32),
        }
    }
}

/// One random operator: an arity drawn below [`arity_bound`], its operands
/// popped, then the operator choice for that arity.
pub open spec fn spec_op(seed: u64, s: GenState) -> GenState {
    let b = arity_bound(s.stack.len());
    let a = range_draw(seed, s.history, b) % b;
    let h = s.history.push(b as int);
    if a == 0 {
        spec_op_0(seed, GenState { text: s.text, history: h, stack: s.stack })
    } else if a == 1 {
        spec_op_1(seed, GenState { text: s.text, history: h, stack: s.stack.drop_last() })
    } else {
        spec_op_2(
            seed,
            GenState { text: s.text, history: h, stack: s.stack.drop_last().drop_last() },
        )
    }
}

/// One generation step: a random operator and then, if the operator left a
/// residual value on the stack, a call to the imported host function (an
/// arity-1 passthrough, so the abstract stack is unchanged by it).
pub open spec fn spec_step(seed: u64, s: GenState) -> GenState {
    let s1 = spec_op(seed, s);
    if s1.stack.len() > 0 {
        GenState { text: s1.text + instr_line("call 0"@), history: s1.history, stack: s1.stack }
    } else {
        s1
    }
}

/// `fuel` generation steps in order.
pub open spec fn spec_steps(seed: u64, s: GenState, fuel: nat) -> GenState
    decreases fuel,
{
    if fuel == 0 {
        s
    } else {
        spec_steps(seed, spec_step(seed, s), (fuel - 1) as nat)
    }
}

/// The cleanup phase: for each of the `n` values left on the abstract
/// stack, a call to the host import followed by a discard, so the machine
/// stack is balanced at function exit.
pub open spec fn cleanup_text(n: nat) -> Seq<char>
    decreases n,
{
    if n == 0 {
        Seq::empty()
    } else {
        instr_line("call 0"@) + instr_line("drop"@) + cleanup_text((n - 1) as nat)
    }
}

/// The fixed module prologue: the host import and the opening of the
/// exported function body.
pub open spec fn prefix_text() -> Seq<char> {
    "(module\n  (import \"host\" \"print\" (func (param i32) (result i32)))\n  (func (export \"$f\")\n"@
}

/// The fixed suffix closing the function and the module.
pub open spec fn suffix_text() -> Seq<char> {
    "  ))"@
}

/// The whole program text generated from `(seed, fuel)`: prologue, `fuel`
/// steps from an empty stack, cleanup, suffix.
pub open spec fn spec_wat(seed: u64, fuel: nat) -> Seq<char> {
    let s = spec_steps(
        seed,
        GenState { text: prefix_text(), history: Seq::empty(), stack: Seq::empty() },
        fuel,
    );
    s.text + cleanup_text(s.stack.len()) + suffix_text()
}

/// Unrolling [`spec_steps`] from the back: one more step is the step
/// applied to the result of the steps before it.
pub proof fn lemma_steps_snoc(seed: u64, s: GenState, fuel: nat)
    ensures
        spec_steps(seed, s, fuel + 1) == spec_step(seed, spec_steps(seed, s, fuel)),
    decreases fuel,
{
    reveal_with_fuel(spec_steps, 2);
    if fuel > 0 {
        lemma_steps_snoc(seed, spec_step(seed, s), (fuel - 1) as nat);
    }
}

/// The stack effect of one emitted instruction: how many values it pops
/// from the operand stack and how many it pushes.
pub struct InstrEffect {
    /// Values consumed.
    pub pops: nat,
    /// Values produced.
    pub pushes: nat,
}

/// The stack effect of the one instruction [`spec_op`] emits at state `s`,
/// mirroring its draws: a constant pushes one value, a no-op does nothing,
/// a discard pops one, the unary operator pops one and pushes one, a binary
/// operator pops two and pushes one.
pub open spec fn op_effect(seed: u64, s: GenState) -> InstrEffect {
    let b = arity_bound(s.stack.len());
    let a = range_draw(seed, s.history, b) % b;
    let h = s.history.push(b as int);
    let c = range_draw(seed, h, 2);
    if a == 0 {
        if c == 0 {
            InstrEffect { pops: 0, pushes: 1 }
        } else {
            InstrEffect { pops: 0, pushes: 0 }
        }
    } else if a == 1 {
        if c == 0 {
            InstrEffect { pops: 1, pushes: 0 }
        } else {
            InstrEffect { pops: 1, pushes: 1 }
        }
    } else {
        InstrEffect { pops: 2, pushes: 1 }
    }
}

/// The stack effects of the instructions one generation step emits: the
/// operator and then, if a value is left on the stack, the host call (an
/// arity-1 passthrough).
pub open spec fn step_effects(seed: u64, s: GenState) -> Seq<InstrEffect> {
    let e = op_effect(seed, s);
    if spec_op(seed, s).stack.len() > 0 {
        seq![e, InstrEffect { pops: 1, pushes: 1 }]
    } else {
        seq![e]
    }
}

/// The stack effects of the instructions `fuel` generation steps emit, in
/// emission order.
pub open spec fn steps_effects(seed: u64, s: GenState, fuel: nat) -> Seq<InstrEffect>
    decreases fuel,
{
    if fuel == 0 {
        Seq::empty()
    } else {
        step_effects(seed, s) + steps_effects(seed, spec_step(seed, s), (fuel - 1) as nat)
    }
}

/// The stack effects of the cleanup phase for `n` residual values: a host
/// call and a discard for each.
pub open spec fn cleanup_effects(n: nat) -> Seq<InstrEffect>
    decreases n,
{
    if n == 0 {
        Seq::empty()
    } else {
        seq![InstrEffect { pops: 1, pushes: 1 }, InstrEffect { pops: 1, pushes: 0 }]
            + cleanup_effects((n - 1) as nat)
    }
}

/// The stack effects of every instruction in the function body generated
/// from `(seed, fuel)`, in emission order.
pub open spec fn wat_effects(seed: u64, fuel: nat) -> Seq<InstrEffect> {
    let s0 = GenState { text: prefix_text(), history: Seq::empty(), stack: Seq::empty() };
    steps_effects(seed, s0, fuel) + cleanup_effects(spec_steps(seed, s0, fuel).stack.len())
}

/// Whether a sequence of instructions, run with `depth` values on the
/// stack, never consumes more values than are available at that point.
pub open spec fn effects_safe(effects: Seq<InstrEffect>, depth: nat) -> bool
    decreases effects.len(),
{
    effects.len() == 0 || (effects[0].pops <= depth && effects_safe(
        effects.drop_first(),
        (depth - effects[0].pops + effects[0].pushes) as nat,
    ))
}

/// The number of values on the stack after running the instructions with
/// `depth` values on it.
pub open spec fn depth_after(effects: Seq<InstrEffect>, depth: nat) -> nat
    decreases effects.len(),
{
    if effects.len() == 0 {
        depth
    } else {
        depth_after(effects.drop_first(), (depth - effects[0].pops + effects[0].pushes) as nat)
    }
}

proof fn lemma_effects_concat(a: Seq<InstrEffect>, b: Seq<InstrEffect>, depth: nat)
    requires
        effects_safe(a, depth),
        effects_safe(b, depth_after(a, depth)),
    ensures
        effects_safe(a + b, depth),
        depth_after(a + b, depth) == depth_after(b, depth_after(a, depth)),
    decreases a.len(),
{
    if a.len() == 0 {
        assert(a + b =~= b);
    } else {
        assert((a + b).drop_first() =~= a.drop_first() + b);
        lemma_effects_concat(a.drop_first(), b, (depth - a[0].pops + a[0].pushes) as nat);
    }
}

proof fn lemma_step_effects(seed: u64, s: GenState)
    ensures
        effects_safe(step_effects(seed, s), s.stack.len()),
        depth_after(step_effects(seed, s), s.stack.len()) == spec_step(seed, s).stack.len(),
{
    reveal_with_fuel(effects_safe, 4);
    reveal_with_fuel(depth_after, 4);
    let e = op_effect(seed, s);
    let post = spec_op(seed, s);
    let eff = step_effects(seed, s);
    let b = arity_bound(s.stack.len());
    let a = range_draw(seed, s.history, b) % b;
    assert(a < b) by (nonlinear_arith)
        requires b >= 1, a == range_draw(seed, s.history, b) % b;
    assert(e.pops <= s.stack.len());
    assert(post.stack.len() == s.stack.len() - e.pops + e.pushes);
    if post.stack.len() > 0 {
        assert(eff =~= seq![e, InstrEffect { pops: 1, pushes: 1 }]);
        assert(eff.drop_first() =~= seq![InstrEffect { pops: 1, pushes: 1 }]);
        assert(eff.drop_first().drop_first() =~= Seq::<InstrEffect>::empty());
    } else {
        assert(eff =~= seq![e]);
        assert(eff.drop_first() =~= Seq::<InstrEffect>::empty());
    }
}

proof fn lemma_steps_effects(seed: u64, s: GenState, fuel: nat)
    ensures
        effects_safe(steps_effects(seed, s, fuel), s.stack.len()),
        depth_after(steps_effects(seed, s, fuel), s.stack.len()) == spec_steps(
            seed,
            s,
            fuel,
        ).stack.len(),
    decreases fuel,
{
    if fuel > 0 {
        lemma_step_effects(seed, s);
        lemma_steps_effects(seed, spec_step(seed, s), (fuel - 1) as nat);
        lemma_effects_concat(
            step_effects(seed, s),
            steps_effects(seed, spec_step(seed, s), (fuel - 1) as nat),
            s.stack.len(),
        );
    }
}

proof fn lemma_cleanup_effects(n: nat)
    ensures
        effects_safe(cleanup_effects(n), n),
        depth_after(cleanup_effects(n), n) == 0,
    decreases n,
{
    reveal_with_fuel(effects_safe, 4);
    reveal_with_fuel(depth_after, 4);
    if n > 0 {
        let pair = seq![
            InstrEffect { pops: 1, pushes: 1 },
            InstrEffect { pops: 1, pushes: 0 },
        ];
        assert(pair.drop_first() =~= seq![InstrEffect { pops: 1, pushes: 0 }]);
        assert(pair.drop_first().drop_first() =~= Seq::<InstrEffect>::empty());
        assert(effects_safe(pair, n));
        assert(depth_after(pair, n) == n - 1);
        lemma_cleanup_effects((n - 1) as nat);
        lemma_effects_concat(pair, cleanup_effects((n - 1) as nat), n);
    }
}

/// Stack safety: in a generated program, every instruction of the function
/// body finds at least as many values on the operand stack as it consumes
/// (a consuming operator is never emitted when the stack is too shallow),
/// and after the cleanup phase the stack is empty, so the function exits
/// with a balanced stack.
pub proof fn lemma_stack_safety(seed: u64, fuel: nat)
    ensures
        effects_safe(wat_effects(seed, fuel), 0),
        depth_after(wat_effects(seed, fuel), 0) == 0,
{
    let s0 = GenState { text: prefix_text(), history: Seq::empty(), stack: Seq::empty() };
    lemma_steps_effects(seed, s0, fuel);
    lemma_cleanup_effects(spec_steps(seed, s0, fuel).stack.len());
    lemma_effects_concat(
        steps_effects(seed, s0, fuel),
        cleanup_effects(spec_steps(seed, s0, fuel).stack.len()),
        0,
    );
}

/// The draw history of `n` all-no-op generation steps: each step draws an
/// arity below 1 and then the operator choice below 2.
pub open spec fn nop_history(n: nat) -> Seq<int>
    decreases n,
{
    if n == 0 {
        Seq::empty()
    } else {
        nop_history((n - 1) as nat) + seq![1int, 2int]
    }
}

/// `n` repeated no-op instruction lines.
pub open spec fn nop_lines(n: nat) -> Seq<char>
    decreases n,
{
    if n == 0 {
        Seq::empty()
    } else {
        nop_lines((n - 1) as nat) + instr_line("nop"@)
    }
}

proof fn lemma_all_nops_steps(seed: u64, s0: GenState, fuel: nat)
    requires
        s0.history == Seq::<int>::empty(),
        s0.stack == Seq::<ValType>::empty(),
        forall|i: nat| i < fuel ==> range_draw(seed, #[trigger] nop_history(i).push(1), 2) == 1,
    ensures
        spec_steps(seed, s0, fuel) == (GenState {
            text: s0.text + nop_lines(fuel),
            history: nop_history(fuel),
            stack: Seq::<ValType>::empty(),
        }),
    decreases fuel,
{
    if fuel == 0 {
        assert(s0.text + nop_lines(0) =~= s0.text);
        assert(nop_history(0) =~= Seq::<int>::empty());
    } else {
        lemma_all_nops_steps(seed, s0, (fuel - 1) as nat);
        lemma_steps_snoc(seed, s0, (fuel - 1) as nat);
        let prev = spec_steps(seed, s0, (fuel - 1) as nat);
        assert(arity_bound(prev.stack.len()) == 1);
        assert(range_draw(seed, prev.history, 1) % 1 == 0) by (nonlinear_arith);
        assert(range_draw(seed, prev.history.push(1), 2) == 1);
        assert(spec_step(seed, prev).history =~= nop_history(fuel));
        assert(spec_step(seed, prev).text =~= s0.text + nop_lines(fuel));
    }
}

/// A generator run in which every operator choice selects the no-op (the
/// arity draw is over a single value while the stack is empty, so arity 0
/// is the only choice) produces a body of `fuel` repeated `nop`
/// instructions: the stack stays empty throughout, so no host call and no
/// cleanup instruction is emitted.
pub proof fn lemma_all_nops(seed: u64, fuel: nat)
    requires
        forall|i: nat| i < fuel ==> range_draw(seed, #[trigger] nop_history(i).push(1), 2) == 1,
    ensures
        spec_wat(seed, fuel) == prefix_text() + nop_lines(fuel) + suffix_text(),
{
    let s0 = GenState { text: prefix_text(), history: Seq::empty(), stack: Seq::empty() };
    lemma_all_nops_steps(seed, s0, fuel);
    assert(spec_wat(seed, fuel) =~= prefix_text() + nop_lines(fuel) + suffix_text());
}

/// A fuel-1 run whose single arity-0 draw selects "push constant" (the
/// arity draw is over a single value while the stack is empty, so arity 0
/// is the only choice): the body is the constant, the host call for the
/// residual value, and the cleanup call plus discard, leaving the stack
/// balanced.
pub proof fn lemma_single_constant(seed: u64)
    requires
        range_draw(seed, Seq::<int>::empty().push(1), 2) == 0,
    ensures
        ({
            let v = i32_draw(seed, Seq::<int>::empty().push(1).push(2));
            spec_wat(seed, 1) == prefix_text() + instr_imm_line("i32.const"@, spec_dec(v as int))
                + instr_line("call 0"@) + instr_line("call 0"@) + instr_line("drop"@)
                + suffix_text()
        }),
{
    reveal_with_fuel(spec_steps, 2);
    reveal_with_fuel(cleanup_text, 2);
    let s0 = GenState { text: prefix_text(), history: Seq::empty(), stack: Seq::empty() };
    assert(arity_bound(0) == 1);
    assert(range_draw(seed, s0.history, 1) % 1 == 0) by (nonlinear_arith);
    assert(s0.history.push(1) =~= Seq::<int>::empty().push(1));
    let s1 = spec_steps(seed, s0, 1);
    assert(s1.stack.len() == 1);
    let v = i32_draw(seed, Seq::<int>::empty().push(1).push(2));
    assert(spec_wat(seed, 1) =~= prefix_text() + instr_imm_line("i32.const"@, spec_dec(v as int))
        + instr_line("call 0"@) + instr_line("call 0"@) + instr_line("drop"@) + suffix_text());
}

/// A simple WAT generator.
pub struct WatGen {
    rng: Prng,
    wat: String,
}

impl WatGen {
    spec fn seed(&self) -> u64 {
        self.rng.spec_seed()
    }

    spec fn pre(&self, stack: Seq<ValType>) -> GenState {
        GenState { text: self.wat@, history: self.rng.spec_history(), stack }
    }

    fn instr_imm(&mut self, operator: &str, immediate: &str)
        ensures
            final(self).wat@ == old(self).wat@ + instr_imm_line(operator@, immediate@),
            final(self).rng == old(self).rng,
    {
        self.wat.append("    ");
        self.wat.append(operator);
        self.wat.append(" ");
        self.wat.append(immediate);
        self.wat.append("\n");
        assert(self.wat@ =~= old(self).wat@ + instr_imm_line(operator@, immediate@));
    }

    fn instr(&mut self, operator: &str)
        ensures
            final(self).wat@ == old(self).wat@ + instr_line(operator@),
            final(self).rng == old(self).rng,
    {
        self.wat.append("    ");
        self.wat.append(operator);
        self.wat.append("\n");
        assert(self.wat@ =~= old(self).wat@ + instr_line(operator@));
    }

    fn op_0(&mut self, stack: &mut Vec<ValType>)
        ensures
            ({
                let post = spec_op_0(old(self).seed(), old(self).pre(old(stack)@));
                &&& final(self).wat@ == post.text
                &&& final(self).rng.spec_history() == post.history
                &&& final(stack)@ == post.stack
                &&& final(self).seed() == old(self).seed()
            }),
    {
        let c = self.rng.gen_range(2);
        if c == 0 {
            let v = self.rng.gen_i32();
            let imm = dec_text(v);
            self.instr_imm("i32.const", imm.as_str());
            stack.push(ValType::I32);
        } else {
            self.instr("nop");
        }
    }

    fn op_1(&mut self, _operand: ValType, stack: &mut Vec<ValType>)
        ensures
            ({
                let post = spec_op_1(old(self).seed(), old(self).pre(old(stack)@));
                &&& final(self).wat@ == post.text
                &&& final(self).rng.spec_history() == post.history
                &&& final(stack)@ == post.stack
                &&& final(self).seed() == old(self).seed()
            }),
    {
        let c = self.rng.gen_range(2);
        if c == 0 {
            self.instr("drop");
        } else {
            self.instr("i32.popcnt");
            stack.push(ValType::I32);
        }
    }

    fn op_2(&mut self, _a: ValType, _b: ValType, stack: &mut Vec<ValType>)
        ensures
            ({
                let post = spec_op_2(old(self).seed(), old(self).pre(old(stack)@));
                &&& final(self).wat@ == post.text
                &&& final(self).rng.spec_history() == post.history
                &&& final(stack)@ == post.stack
                &&& final(self).seed() == old(self).seed()
            }),
    {
        let c = self.rng.gen_range(2);
        if c == 0 {
            self.instr("i32.add");
        } else {
            self.instr("i32.mul");
        }
        stack.push(ValType::I32);
    }

    fn op(&mut self, stack: &mut Vec<ValType>)
        ensures
            ({
                let post = spec_op(old(self).seed(), old(self).pre(old(stack)@));
                &&& final(self).wat@ == post.text
                &&& final(self).rng.spec_history() == post.history
                &&& final(stack)@ == post.stack
                &&& final(self).seed() == old(self).seed()
            }),
    {
        let depth = stack.len();
        let b: u64 = if depth >= 2 {
            3
        } else {
            (depth as u64) + 1
        };
        assert(b == arity_bound(old(stack)@.len()));
        let a = self.rng.gen_range(b);
        proof {
            assert(a % b == a) by (nonlinear_arith)
                requires a < b, b >= 1;
        }
        if a == 0 {
            self.op_0(stack);
        } else if a == 1 {
            let operand = stack.pop().unwrap();
            self.op_1(operand, stack);
        } else {
            let x = stack.pop().unwrap();
            let y = stack.pop().unwrap();
            self.op_2(x, y, stack);
        }
    }

    fn prefix(&mut self)
        ensures
            final(self).wat@ == old(self).wat@ + prefix_text(),
            final(self).rng == old(self).rng,
    {
        self.wat.append(
            "(module\n  (import \"host\" \"print\" (func (param i32) (result i32)))\n  (func (export \"$f\")\n",
        );
    }

    fn suffix(&mut self)
        ensures
            final(self).wat@ == old(self).wat@ + suffix_text(),
            final(self).rng == old(self).rng,
    {
        self.wat.append("  ))");
    }

    fn gen_instructions(&mut self, fuel: usize)
        requires
            fuel >= 1,
        ensures
            ({
                let post = spec_steps(old(self).seed(), old(self).pre(Seq::empty()), fuel as nat);
                &&& final(self).wat@ == post.text + cleanup_text(post.stack.len())
                &&& final(self).rng.spec_history() == post.history
                &&& final(self).seed() == old(self).seed()
            }),
    {
        let ghost seed0 = self.seed();
        let ghost pre0 = self.pre(Seq::empty());
        let mut stack: Vec<ValType> = Vec::new();
        let mut i: usize = 0;
        while i < fuel
            invariant
                i <= fuel,
                ({
                    let cur = spec_steps(seed0, pre0, i as nat);
                    &&& self.wat@ == cur.text
                    &&& self.rng.spec_history() == cur.history
                    &&& stack@ == cur.stack
                    &&& self.seed() == seed0
                }),
            decreases fuel - i,
        {
            proof {
                lemma_steps_snoc(seed0, pre0, i as nat);
            }
            self.op(&mut stack);
            if stack.len() > 0 {
                self.instr("call 0");
            }
            i = i + 1;
        }
        let ghost post = spec_steps(seed0, pre0, fuel as nat);
        let n = stack.len();
        let mut j: usize = 0;
        while j < n
            invariant
                j <= n,
                n == post.stack.len(),
                self.wat@ + cleanup_text((n - j) as nat) =~= post.text + cleanup_text(n as nat),
                self.rng.spec_history() == post.history,
                self.seed() == seed0,
            decreases n - j,
        {
            self.instr("call 0");
            self.instr("drop");
            j = j + 1;
            assert(self.wat@ + cleanup_text((n - j) as nat) =~= post.text + cleanup_text(
                n as nat,
            ));
        }
        assert(self.wat@ + cleanup_text(0) =~= self.wat@);
        assert(self.wat@ == post.text + cleanup_text(post.stack.len()));
    }
}

impl TestCaseGenerator for WatGen {
    open spec fn spec_name() -> Seq<char> {
        "WatGen"@
    }

    open spec fn spec_should_interpret() -> bool {
        true
    }

    open spec fn spec_generate(seed: u64, fuel: usize) -> Seq<char> {
        spec_wat(seed, fuel as nat)
    }

    fn name() -> (r: String) {
        "WatGen".to_owned()
    }

    fn should_interpret() -> (r: bool) {
        true
    }

    fn generate(seed: u64, fuel: usize) -> (r: String) {
        let rng = Prng::from_seed(seed);
        let wat = String::new();
        let mut g = WatGen { rng, wat };
        g.prefix();
        g.gen_instructions(fuel);
        g.suffix();
        g.wat
    }
}

} // verus!
