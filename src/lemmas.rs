//! Facts about the virtual CPU that span several steps or calls.
use vstd::prelude::*;

use crate::keyboard::KeyEvent;
use crate::memory::{lemma_swap_involutive, mem_read, mem_write};
use crate::operations::{kind_field, kind_from_code, RCPUInstructionType};
use crate::rcpu::{
    add_words, advance, char_word, format_walk, key_char, next_word, pop_spec, push_spec,
    read_keys, step_spec, syscall_spec, Machine, PendingRead, RCPUFault,
};

verus! {

/// The kind of the instruction at `ip`.
pub open spec fn current_kind(m: Machine) -> RCPUInstructionType {
    kind_from_code(kind_field(mem_read(m.ram, m.regs.ip)))
}

/// `printf` changes only the stack and the stack pointer.
proof fn lemma_format_walk_frame(m: Machine, idx: int, percent: bool)
    ensures
        format_walk(m, idx, percent).1 matches Ok(m2) ==> {
            &&& m2.running == m.running
            &&& m2.regs.ip == m.regs.ip
            &&& m2.ram == m.ram
            &&& m2.pending == m.pending
        },
    decreases 0x10000 - idx,
{
    if idx < 0x10000 {
        lemma_format_walk_frame(m, idx + 1, false);
        lemma_format_walk_frame(m, idx + 1, true);
        if let Ok((m2, v)) = pop_spec(m) {
            lemma_format_walk_frame(m2, idx + 1, false);
        }
    }
}

/// `fgets` keeps `running`; it moves `ip` on by one when it ends and leaves
/// it when it waits.
proof fn lemma_read_keys_frame(m: Machine, keys: Seq<KeyEvent>)
    requires
        m.pending is Some,
        read_keys(m, keys).fault is None,
    ensures
        read_keys(m, keys).machine.running == m.running,
        read_keys(m, keys).machine.pending is None ==> read_keys(m, keys).machine.regs.ip
            == next_word(m.regs.ip),
        read_keys(m, keys).machine.pending is Some ==> read_keys(m, keys).machine.regs.ip
            == m.regs.ip,
    decreases keys.len(),
{
    let p = m.pending->0;
    if p.count < p.size && keys.len() > 0 {
        let m2 = Machine {
            pending: Some(PendingRead { count: (p.count + 1) as u16, ..p }),
            ram: mem_write(
                m.ram,
                add_words(p.buffer, p.count),
                char_word(key_char(keys[0])->0),
            ),
            ..m
        };
        match key_char(keys[0]) {
            None => lemma_read_keys_frame(m, keys.drop_first()),
            Some(c) => if c != '\0' {
                lemma_read_keys_frame(m2, keys.drop_first());
            },
        }
    }
}

/// After any step that ends an instruction which neither jumps nor halts,
/// `ip` is one more than before, wrapping at 2^16.
pub proof fn lemma_ip_advances(m: Machine, keys: Seq<KeyEvent>)
    requires
        m.wf(),
        m.pending is None,
        !(current_kind(m) is CAL || current_kind(m) is RET || current_kind(m) is JLT
            || current_kind(m) is JMP || current_kind(m) is JMR || current_kind(m) is HLT),
        step_spec(m, keys).fault is None,
        step_spec(m, keys).machine.pending is None,
    ensures
        step_spec(m, keys).machine.regs.ip == next_word(m.regs.ip),
{
    if current_kind(m) is SYS {
        lemma_syscall_frame(m, keys);
    }
}

proof fn lemma_syscall_frame(m: Machine, keys: Seq<KeyEvent>)
    requires
        syscall_spec(m, keys).fault is None,
    ensures
        syscall_spec(m, keys).machine.running == m.running,
        syscall_spec(m, keys).machine.pending is None ==> syscall_spec(m, keys).machine.regs.ip
            == next_word(m.regs.ip),
{
    if let Ok((m1, n)) = pop_spec(m) {
        if let Ok((m2, a)) = pop_spec(m1) {
            if n == 0 {
                lemma_format_walk_frame(m2, a as int, false);
            } else if n == 1 {
                if let Ok((m3, size)) = pop_spec(m2) {
                    if let Ok((m4, stream)) = pop_spec(m3) {
                        let mp = Machine {
                            pending: Some(PendingRead { buffer: a, size, count: 0 }),
                            ..m4
                        };
                        if stream == 0 {
                            lemma_read_keys_frame(mp, keys);
                        }
                    }
                }
            }
        }
    }
}

/// `HLT` is the one instruction that clears `running`: after a step without
/// a fault, `running` is what it was, unless the step executed `HLT`.
pub proof fn lemma_only_halt_stops(m: Machine, keys: Seq<KeyEvent>)
    requires
        m.wf(),
        step_spec(m, keys).fault is None,
    ensures
        step_spec(m, keys).machine.running == (m.running && !(m.pending is None
            && current_kind(m) is HLT)),
{
    if m.pending is Some {
        lemma_read_keys_frame(m, keys);
    } else if current_kind(m) is SYS {
        lemma_syscall_frame(m, keys);
    }
}

/// A `CAL` followed by the `RET` at its target comes back to the word after
/// the `CAL`, with the stack pointer as it was.
pub proof fn lemma_call_return(m: Machine, keys: Seq<KeyEvent>)
    requires
        m.wf(),
        m.pending is None,
        current_kind(m) is CAL,
        step_spec(m, keys).fault is None,
        current_kind(step_spec(m, keys).machine) is RET,
    ensures
        ({
            let t1 = step_spec(m, keys);
            let t2 = step_spec(t1.machine, t1.keys);
            &&& t2.fault is None
            &&& t2.machine.regs.ip == next_word(m.regs.ip)
            &&& t2.machine.regs.sp == m.regs.sp
        }),
{
    let m1 = advance(m);
    let m2 = push_spec(m1, m1.regs.ip)->Ok_0;
    lemma_swap_involutive(m1.regs.ip);
}

/// Pushes the words of `vals`, first to last.
pub open spec fn push_all(m: Machine, vals: Seq<u16>) -> Result<Machine, RCPUFault>
    decreases vals.len(),
{
    if vals.len() == 0 {
        Ok(m)
    } else {
        match push_all(m, vals.drop_last()) {
            Ok(m1) => push_spec(m1, vals.last()),
            Err(e) => Err(e),
        }
    }
}

/// Pops `n` words; they come out in the order they were popped.
pub open spec fn pop_n(m: Machine, n: nat) -> Result<(Machine, Seq<u16>), RCPUFault>
    decreases n,
{
    if n == 0 {
        Ok((m, Seq::empty()))
    } else {
        match pop_spec(m) {
            Err(e) => Err(e),
            Ok((m1, v)) => match pop_n(m1, (n - 1) as nat) {
                Err(e) => Err(e),
                Ok((m2, vs)) => Ok((m2, seq![v] + vs)),
            },
        }
    }
}

/// Pops read only the slots below the stack pointer.
proof fn lemma_pop_n_frame(a: Machine, b: Machine, n: nat)
    requires
        a.regs == b.regs,
        a.regs.sp <= a.stack.len(),
        a.regs.sp <= b.stack.len(),
        forall|i: int| 0 <= i < a.regs.sp ==> a.stack[i] == b.stack[i],
    ensures
        match (pop_n(a, n), pop_n(b, n)) {
            (Ok((ma, va)), Ok((mb, vb))) => va == vb && ma.regs == mb.regs,
            (Err(ea), Err(eb)) => ea == eb,
            _ => false,
        },
    decreases n,
{
    if n > 0 && a.regs.sp > 0 {
        let (a1, va) = pop_spec(a)->Ok_0;
        let (b1, vb) = pop_spec(b)->Ok_0;
        lemma_pop_n_frame(a1, b1, (n - 1) as nat);
    }
}

/// Pushing the words of `vals` and then popping as many gives them back in
/// reverse order, with the stack pointer and the other registers as they
/// were.
pub proof fn lemma_push_pop_balanced(m: Machine, vals: Seq<u16>)
    requires
        m.wf(),
        push_all(m, vals) is Ok,
    ensures
        pop_n(push_all(m, vals)->Ok_0, vals.len()) matches Ok((m2, popped)) && popped
            == vals.reverse() && m2.regs == m.regs,
    decreases vals.len(),
{
    if vals.len() > 0 {
        let dl = vals.drop_last();
        let x = vals.last();
        lemma_push_pop_balanced(m, dl);
        lemma_push_all_frame(m, dl);
        let big_m = push_all(m, dl)->Ok_0;
        let pushed = push_spec(big_m, x)->Ok_0;
        let (popped_m, v) = pop_spec(pushed)->Ok_0;
        lemma_swap_involutive(x);
        assert(v == x);
        lemma_pop_n_frame(popped_m, big_m, dl.len());
        let (m2, rest) = pop_n(big_m, dl.len())->Ok_0;
        assert(vals.reverse() =~= seq![x] + dl.reverse());
    }
}

/// Pushes keep the length of the stack.
proof fn lemma_push_all_frame(m: Machine, vals: Seq<u16>)
    requires
        m.wf(),
        push_all(m, vals) is Ok,
    ensures
        push_all(m, vals)->Ok_0.stack.len() == m.stack.len(),
        push_all(m, vals)->Ok_0.regs.sp == m.regs.sp + vals.len(),
    decreases vals.len(),
{
    if vals.len() > 0 {
        lemma_push_all_frame(m, vals.drop_last());
    }
}

} // verus!
