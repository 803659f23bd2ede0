//! One logical thread of execution: an ordered call stack of frames owned by
//! value, with the current frame at the top. Invocation and return are
//! synchronous transitions; the thread terminates when a return empties its
//! stack. The execution model is single-threaded per thread: one frame runs
//! to completion or to a fatal error before its caller resumes, so the
//! thread-pool lock is vacuous here and its operations change nothing.

use vstd::prelude::*;

use crate::class_loader::spec_find_class;
use crate::constant_pool::{CpEntry, CpEntryView};
use crate::decoder::{spec_decode, Decode};
use crate::descriptor::{
    descriptor_arg_count, descriptor_returns_value, lemma_param_count_bound,
    spec_descriptor_arg_count, spec_descriptor_returns_value,
};
use crate::error::VmError;
use crate::frame::{execute_instruction, spec_run_from, ExecEffect, Frame};
use crate::instanced_klass::{
    find_method, resolve_methodref, spec_find_method, spec_resolve_methodref, string_from_bytes,
    InstanceKlassView,
};
use crate::instruction::{Instruction, OP_RETURN};
use crate::member_info::{spec_code_of, MemberInfo, MemberInfoView};
use crate::runtime::Runtime;
use crate::slot::{EmptySlot, Slot};
use vstd::utf8::{decode_utf8, valid_utf8};

verus! {

/// The thread pool a thread would coordinate through. In this single-threaded
/// scope it carries no state.
#[derive(Debug, Clone)]
pub struct ThreadPool {}

impl ThreadPool {
    pub fn new() -> ThreadPool {
        ThreadPool {  }
    }
}

/// One logical thread: its call stack, the shared runtime, and its
/// coordination handle.
pub struct Thread {
    /// The call stack; the current frame is the last element.
    pub stack: Vec<Frame>,
    pub runtime: Box<Runtime>,
    pub lock: ThreadPool,
}

impl Thread {
    /// The loader registry this thread resolves classes against.
    pub open spec fn registry(&self) -> Seq<InstanceKlassView> {
        self.runtime.boot_loader.jl_object_class.deep_view()
    }

    /// Every frame of the call stack is well-formed: in particular no
    /// operand stack exceeds its declared bound at any instruction boundary.
    pub open spec fn wf(&self) -> bool {
        forall|i: int| 0 <= i < self.stack@.len() ==> (#[trigger] self.stack@[i]).wf()
    }

    /// A fresh thread over the shared runtime, with an empty call stack.
    pub fn new(runtime: Runtime) -> (r: Thread)
        ensures
            r.stack@.len() == 0,
            *r.runtime == runtime,
            r.wf(),
    {
        Thread { stack: Vec::new(), runtime: Box::new(runtime), lock: ThreadPool::new() }
    }

    /// Coordination is vacuous in the single-threaded scope: taking the lock
    /// changes nothing.
    pub fn sleep(&mut self)
        ensures
            *final(self) == *old(self),
    {
    }

    /// Releasing the vacuous lock changes nothing.
    pub fn unlock(&mut self)
        ensures
            *final(self) == *old(self),
    {
    }

    /// Pushes a frame onto the call stack, making it current.
    pub fn push_frame(&mut self, frame: Frame)
        ensures
            final(self).stack@ == old(self).stack@.push(frame),
            final(self).runtime == old(self).runtime,
    {
        self.stack.push(frame);
    }

    /// The current frame: the top of the call stack, when any frame is live.
    pub fn current_frame(&self) -> (r: Option<&Frame>)
        ensures
            self.stack@.len() == 0 ==> r is None,
            self.stack@.len() > 0 ==> (r matches Some(f) && *f == self.stack@.last()),
    {
        let n = self.stack.len();
        if n == 0 {
            None
        } else {
            Some(&self.stack[n - 1])
        }
    }

    /// Builds the frame for one invocation of `method`, which must belong to
    /// the registered class at `klass_index`: stack capacity and local count
    /// from its body's bounds, the body decoded once, and the non-void flag
    /// taken from its resolved descriptor.
    pub fn new_frame(&self, method: &MemberInfo, klass_index: usize) -> (r: Result<Frame, VmError>)
        ensures
            spec_new_frame_post(self.registry(), method@, klass_index as int, r),
    {
        if klass_index >= self.runtime.boot_loader.jl_object_class.len() {
            return Err(VmError::UnknownClass);
        }
        proof {
            assert(self.registry()[klass_index as int]
                == self.runtime.boot_loader.jl_object_class@[klass_index as int]@);
        }
        let klass = self.runtime.boot_loader.class_at(klass_index);
        let desc = crate::attribute_info::cp_utf8_bytes(
            &klass.constant_pool_entries,
            method.descriptor_index,
        )?;
        let returns_value = descriptor_returns_value(&desc);
        let code_attr = match method.code_attribute() {
            Some(c) => c,
            None => {
                return Err(VmError::UnknownMethod);
            },
        };
        Frame::new(klass_index, code_attr, returns_value)
    }

    /// Pushes the shim frame that bootstraps an invocation chain: a one-byte
    /// body holding a single return, so that the chain's last return empties
    /// the stack and terminates the thread.
    pub fn invoke_method_with_shim(&mut self)
        requires
            old(self).wf(),
        ensures
            final(self).wf(),
            final(self).runtime == old(self).runtime,
            final(self).stack@.len() == old(self).stack@.len() + 1,
            forall|i: int|
                0 <= i < old(self).stack@.len() ==> final(self).stack@[i] == old(self).stack@[i],
            final(self).stack@.last().code@ == seq![OP_RETURN],
            final(self).stack@.last().operand_stack@.len() == 0,
            final(self).stack@.last().pc == 0,
            !final(self).stack@.last().returns_value,
    {
        let mut code: Vec<u8> = Vec::new();
        code.push(OP_RETURN);
        let mut decoded: Vec<Decode> = Vec::new();
        decoded.push(Decode { ins: Some(Instruction::OpReturn) });
        let frame = Frame {
            klass_index: 0,
            returns_value: false,
            max_stack: 1,
            max_locals: 0,
            code,
            decoded,
            pc: 0,
            operand_stack: Vec::new(),
            locals: Vec::new(),
        };
        proof {
            let b = frame.code@;
            assert(b =~= seq![OP_RETURN]);
            assert(crate::decoder::spec_decode_from(b, 1) == Ok::<
                Seq<Option<Instruction>>,
                VmError,
            >(Seq::empty()));
            assert(crate::decoder::spec_decode_from(b, 0) matches Ok(s) && s =~= seq![
                Some(Instruction::OpReturn),
            ]);
            assert(frame.decoded@.map_values(|d: Decode| d.ins) =~= seq![
                Some(Instruction::OpReturn),
            ]);
            assert(frame.wf());
        }
        self.stack.push(frame);
    }

    /// Returns from the current frame: pops it from the call stack. When the
    /// method's descriptor declares a non-void return, exactly one slot is
    /// popped from the returning frame's operand stack and pushed onto the
    /// resuming frame's. `Ok(true)` means no frame remains: the thread has
    /// terminated.
    pub fn return_from_top(&mut self) -> (r: Result<bool, VmError>)
        requires
            old(self).wf(),
            old(self).stack@.len() > 0,
        ensures
            final(self).wf(),
            final(self).runtime == old(self).runtime,
            spec_return_post(old(self).stack@, r, final(self).stack@),
    {
        let n = self.stack.len();
        let needs_value = self.stack[n - 1].returns_value;
        if needs_value && self.stack[n - 1].operand_stack.len() == 0 {
            return Err(VmError::OperandStackUnderflow);
        }
        if needs_value && n >= 2 && self.stack[n - 2].operand_stack.len() == self.stack[n
            - 2].max_stack as usize {
            return Err(VmError::OperandStackOverflow);
        }
        let mut top = match self.stack.pop() {
            Some(f) => f,
            None => {
                return Err(VmError::PcOutOfRange);
            },
        };
        if !needs_value || n == 1 {
            return Ok(n == 1);
        }
        let v = top.pop()?;
        let mut resuming = match self.stack.pop() {
            Some(f) => f,
            None => {
                return Err(VmError::PcOutOfRange);
            },
        };
        resuming.push(v)?;
        self.stack.push(resuming);
        Ok(false)
    }

    /// Invokes the method a methodref names, resolved through the current
    /// frame's constant pool: locates the already-loaded target class and its
    /// method, builds the callee's frame, and copies exactly N+1 slots — the
    /// receiver and the N declared arguments — from the caller's operand
    /// stack into callee locals 0 through N, in declared left-to-right order
    /// with the receiver in local 0. The new frame becomes current.
    pub fn invoke_method(&mut self, mref: u16) -> (r: Result<(), VmError>)
        requires
            old(self).wf(),
            old(self).stack@.len() > 0,
        ensures
            final(self).wf(),
            final(self).runtime == old(self).runtime,
            spec_invoke_post(
                old(self).registry(),
                old(self).stack@,
                mref,
                r,
                final(self).stack@,
            ),
    {
        let n = self.stack.len();
        let caller_ki = self.stack[n - 1].klass_index;
        if caller_ki >= self.runtime.boot_loader.jl_object_class.len() {
            return Err(VmError::UnknownClass);
        }
        proof {
            assert(old(self).registry()[caller_ki as int]
                == self.runtime.boot_loader.jl_object_class@[caller_ki as int]@);
        }
        let (cls_bytes, mname, desc) = resolve_methodref(
            &self.runtime.boot_loader.jl_object_class[caller_ki].constant_pool_entries,
            mref,
        )?;
        let cls_name = match string_from_bytes(cls_bytes) {
            Some(s) => s,
            None => {
                return Err(VmError::InvalidUtf8);
            },
        };
        let k = match self.runtime.boot_loader.find_class(&cls_name) {
            Some(k) => k,
            None => {
                return Err(VmError::UnknownClass);
            },
        };
        proof {
            assert(old(self).registry()[k as int]
                == self.runtime.boot_loader.jl_object_class@[k as int]@);
        }
        let target = self.runtime.boot_loader.class_at(k);
        let m = match find_method(target, &mname, &desc) {
            Some(m) => m,
            None => {
                return Err(VmError::UnknownMethod);
            },
        };
        let argc = match descriptor_arg_count(&desc) {
            Some(a) => a,
            None => {
                return Err(VmError::UnknownMethod);
            },
        };
        let desc_len = desc.len();
        proof {
            lemma_param_count_bound(desc@, 1);
            assert(argc < desc_len);
        }
        let ret = descriptor_returns_value(&desc);
        proof {
            assert(target@.methods[m as int] == target.methods@[m as int]@);
        }
        let method = &target.methods[m];
        let code_attr = match method.code_attribute() {
            Some(c) => c,
            None => {
                return Err(VmError::UnknownMethod);
            },
        };
        proof {
            let reg = old(self).registry();
            let cpv = reg[caller_ki as int].constant_pool_entries;
            assert(spec_invocation_target(reg, cpv, mref) == Ok::<(int, int, nat, bool), VmError>(
                (k as int, m as int, argc as nat, ret),
            ));
        }
        let max_locals = code_attr.max_locals as usize;
        if argc >= max_locals {
            return Err(VmError::InvalidLocalSlot);
        }
        if self.stack[n - 1].operand_stack.len() <= argc {
            return Err(VmError::OperandStackUnderflow);
        }
        let mut callee = Frame::new(k, code_attr, ret)?;
        let mut caller = match self.stack.pop() {
            Some(f) => f,
            None => {
                return Err(VmError::PcOutOfRange);
            },
        };
        let ghost pre_caller = caller;
        let ghost big_s = caller.operand_stack@;
        let ghost len_c = big_s.len() as int;
        let mut args: Vec<Slot> = Vec::new();
        let mut t: usize = 0;
        proof {
            assert(big_s.take(len_c - 0) =~= big_s);
        }
        while t < argc + 1
            invariant
                argc + 1 <= usize::MAX,
                t <= argc + 1,
                argc + 1 <= len_c,
                len_c == big_s.len(),
                args@.len() == t,
                forall|u: int| 0 <= u < t ==> args@[u] == big_s[len_c - 1 - u],
                caller.operand_stack@ == big_s.take(len_c - t),
                caller.operand_stack@.len() == len_c - t,
                Frame::same_but_stack(pre_caller, caller),
            decreases argc + 1 - t,
        {
            match caller.pop() {
                Ok(s) => {
                    args.push(s);
                },
                Err(_) => {
                    return Err(VmError::OperandStackUnderflow);
                },
            }
            proof {
                assert(big_s.take(len_c - t).drop_last() =~= big_s.take(len_c - (t + 1)));
                assert(big_s.take(len_c - t).last() == big_s[len_c - 1 - t]);
            }
            t = t + 1;
        }
        let mut new_locals: Vec<Slot> = Vec::new();
        let mut j: usize = 0;
        while j < max_locals
            invariant
                j <= max_locals,
                argc < max_locals,
                argc + 1 <= len_c,
                len_c == big_s.len(),
                new_locals@.len() == j,
                args@.len() == argc + 1,
                forall|u: int| 0 <= u < args@.len() ==> args@[u] == big_s[len_c - 1 - u],
                forall|u: int|
                    0 <= u < j && u <= argc ==> new_locals@[u] == big_s[len_c - (argc + 1) + u],
                forall|u: int|
                    argc < u < j ==> (#[trigger] new_locals@[u]).tag is Uninitialized,
            decreases max_locals - j,
        {
            if j <= argc {
                new_locals.push(args[argc - j]);
            } else {
                new_locals.push(EmptySlot::new());
            }
            j = j + 1;
        }
        callee.locals = new_locals;
        self.stack.push(caller);
        self.stack.push(callee);
        Ok(())
    }

    /// Performs one transition of the thread's state machine: executes the
    /// instruction at the current frame's program counter, handling an
    /// invocation by pushing the callee's frame and a return by popping the
    /// current one. `Ok(true)` means the call stack is empty and the thread
    /// has terminated; every failure is fatal to the invocation chain. The
    /// call-stack invariant is preserved across every transition: no operand
    /// stack ever exceeds its frame's declared bound.
    pub fn step(&mut self) -> (r: Result<bool, VmError>)
        requires
            old(self).wf(),
        ensures
            final(self).wf(),
            final(self).runtime == old(self).runtime,
            spec_step_post(old(self).registry(), old(self).stack@, r, final(self).stack@),
            r matches Ok(t) ==> t == (final(self).stack@.len() == 0),
    {
        let ghost pre = self.stack@;
        let n = self.stack.len();
        if n == 0 {
            return Ok(true);
        }
        let top = &self.stack[n - 1];
        if top.pc >= top.decoded.len() {
            return Err(VmError::PcOutOfRange);
        }
        let d = top.decoded[top.pc];
        let ins = match d.ins {
            Some(i) => i,
            None => {
                return Err(VmError::PcOutOfRange);
            },
        };
        match ins {
            Instruction::OpReturn => self.return_from_top(),
            Instruction::OpInvokeSpecial(idx) | Instruction::OpInvokeVirtual(idx) => {
                let mut f = match self.stack.pop() {
                    Some(f) => f,
                    None => {
                        return Err(VmError::PcOutOfRange);
                    },
                };
                if f.decoded.len() - f.pc < 3 {
                    self.stack.push(f);
                    proof {
                        assert(self.stack@ =~= pre);
                    }
                    return Err(VmError::PcOutOfRange);
                }
                f.pc = f.pc + 3;
                self.stack.push(f);
                proof {
                    assert(self.stack@.last() == (Frame { pc: (pre.last().pc + 3) as usize, ..pre.last() }));
                    assert(self.stack@ =~= pre.update(n - 1, self.stack@.last()));
                }
                self.invoke_method(idx)?;
                Ok(false)
            },
            _ => {
                let mut f = match self.stack.pop() {
                    Some(f) => f,
                    None => {
                        return Err(VmError::PcOutOfRange);
                    },
                };
                let ki = f.klass_index;
                if ki >= self.runtime.boot_loader.jl_object_class.len() {
                    self.stack.push(f);
                    proof {
                        assert(self.stack@ =~= pre);
                    }
                    return Err(VmError::UnknownClass);
                }
                let l = crate::decoder::instruction_length_of(&ins);
                if f.decoded.len() - f.pc < l {
                    self.stack.push(f);
                    proof {
                        assert(self.stack@ =~= pre);
                    }
                    return Err(VmError::PcOutOfRange);
                }
                proof {
                    assert(old(self).registry()[ki as int]
                        == self.runtime.boot_loader.jl_object_class@[ki as int]@);
                }
                let step_r = execute_instruction(
                    &ins,
                    &mut f,
                    &self.runtime.boot_loader.jl_object_class[ki].constant_pool_entries,
                );
                match step_r {
                    Err(e) => {
                        self.stack.push(f);
                        Err(e)
                    },
                    Ok(_) => {
                        f.pc = f.pc + l;
                        self.stack.push(f);
                        Ok(false)
                    },
                }
            },
        }
    }

    /// Runs the thread's state machine for at most `max_steps` transitions,
    /// each one a `spec_step_post` transition (see `spec_run_rel`). `Ok(true)`
    /// means the thread terminated with an empty call stack; `Ok(false)`
    /// means the step budget ran out first, with the stack still live;
    /// `Err` is the first transition's failure.
    pub fn run(&mut self, max_steps: usize) -> (r: Result<bool, VmError>)
        requires
            old(self).wf(),
        ensures
            final(self).wf(),
            final(self).runtime == old(self).runtime,
            spec_run_rel(
                old(self).registry(),
                old(self).stack@,
                max_steps as nat,
                r,
                final(self).stack@,
            ),
            r matches Ok(t) ==> t == (final(self).stack@.len() == 0),
    {
        let ghost reg = old(self).registry();
        let ghost pre0 = old(self).stack@;
        let mut i: usize = 0;
        while i < max_steps
            invariant
                self.wf(),
                self.runtime == old(self).runtime,
                self.registry() == reg,
                reg == old(self).registry(),
                pre0 == old(self).stack@,
                i <= max_steps,
                forall|r2: Result<bool, VmError>, post2: Seq<Frame>|
                    #[trigger] spec_run_rel(reg, self.stack@, (max_steps - i) as nat, r2, post2)
                        ==> spec_run_rel(reg, pre0, max_steps as nat, r2, post2),
            decreases max_steps - i,
        {
            let ghost cur = self.stack@;
            let step_r = self.step();
            match step_r {
                Err(e) => {
                    proof {
                        assert(spec_step_post(reg, cur, Err::<bool, VmError>(e), self.stack@));
                        assert(spec_run_rel(
                            reg,
                            cur,
                            (max_steps - i) as nat,
                            Err::<bool, VmError>(e),
                            self.stack@,
                        ));
                    }
                    return Err(e);
                },
                Ok(true) => {
                    proof {
                        assert(spec_step_post(reg, cur, Ok::<bool, VmError>(true), self.stack@));
                        assert(spec_run_rel(
                            reg,
                            cur,
                            (max_steps - i) as nat,
                            Ok::<bool, VmError>(true),
                            self.stack@,
                        ));
                    }
                    return Ok(true);
                },
                Ok(false) => {
                    i = i + 1;
                    proof {
                        assert(spec_step_post(reg, cur, Ok::<bool, VmError>(false), self.stack@));
                        assert forall|r2: Result<bool, VmError>, post2: Seq<Frame>|
                            #[trigger] spec_run_rel(
                                reg,
                                self.stack@,
                                (max_steps - i) as nat,
                                r2,
                                post2,
                            ) implies spec_run_rel(reg, pre0, max_steps as nat, r2, post2) by {
                            assert(spec_run_rel(reg, cur, (max_steps - (i - 1)) as nat, r2, post2));
                        };
                    }
                },
            }
        }
        let still_live = self.stack.len() > 0;
        proof {
            assert(spec_run_rel(
                reg,
                self.stack@,
                (max_steps - i) as nat,
                Ok::<bool, VmError>(self.stack@.len() == 0),
                self.stack@,
            ));
        }
        Ok(!still_live)
    }

    /// One whole invocation of `method` of the registered class at
    /// `klass_index`: builds its frame, makes it current, and runs the state
    /// machine for at most `max_steps` transitions. An index outside the
    /// registry fails with `UnknownClass`, a method index outside that class
    /// with `UnknownMethod`, a frame that cannot be built with `new_frame`'s
    /// error; otherwise the built frame is pushed and the run proceeds per
    /// `spec_run_rel`. `Ok(true)` means the invocation chain ran to
    /// completion and emptied the call stack.
    pub fn execute(&mut self, klass_index: usize, method_index: usize, max_steps: usize) -> (r:
        Result<bool, VmError>)
        requires
            old(self).wf(),
        ensures
            final(self).wf(),
            final(self).runtime == old(self).runtime,
            ({
                let reg = old(self).registry();
                if !(klass_index < reg.len()) {
                    r == Err::<bool, VmError>(VmError::UnknownClass) && *final(self) == *old(self)
                } else if !(method_index < reg[klass_index as int].methods.len()) {
                    r == Err::<bool, VmError>(VmError::UnknownMethod) && *final(self) == *old(self)
                } else {
                    let m = reg[klass_index as int].methods[method_index as int];
                    match spec_new_frame_result(reg, m, klass_index as int) {
                        Err(e) => r == Err::<bool, VmError>(e) && *final(self) == *old(self),
                        Ok(_) => exists|f: Frame|
                            {
                                &&& #[trigger] spec_new_frame_post(reg, m, klass_index as int, Ok(f))
                                &&& spec_run_rel(
                                    reg,
                                    old(self).stack@.push(f),
                                    max_steps as nat,
                                    r,
                                    final(self).stack@,
                                )
                            },
                    }
                }
            }),
            r matches Ok(t) && t ==> final(self).stack@.len() == 0,
    {
        if klass_index >= self.runtime.boot_loader.jl_object_class.len() {
            return Err(VmError::UnknownClass);
        }
        proof {
            assert(old(self).registry()[klass_index as int]
                == self.runtime.boot_loader.jl_object_class@[klass_index as int]@);
        }
        if method_index >= self.runtime.boot_loader.jl_object_class[klass_index].methods.len() {
            return Err(VmError::UnknownMethod);
        }
        proof {
            assert(old(self).registry()[klass_index as int].methods[method_index as int]
                == self.runtime.boot_loader.jl_object_class@[klass_index as int]
                    .methods@[method_index as int]@);
        }
        let frame = self.new_frame(
            &self.runtime.boot_loader.jl_object_class[klass_index].methods[method_index],
            klass_index,
        )?;
        let ghost fr = frame;
        self.stack.push(frame);
        let r = self.run(max_steps);
        proof {
            let reg = old(self).registry();
            let m = reg[klass_index as int].methods[method_index as int];
            assert(spec_new_frame_post(reg, m, klass_index as int, Ok::<Frame, VmError>(fr)));
        }
        r
    }
}

/// Runs the frame-local effects of one method body against `frame` in
/// ascending offset order, stopping at the first return or invocation effect,
/// whose cross-frame transition belongs to the thread's state machine, or at
/// the end of the code. Returns the body's offset-indexed decoding: one slot
/// per code byte.
pub fn execute_method(frame: &mut Frame, instr: Vec<u8>, cp: &Vec<CpEntry>) -> (r: Result<
    Vec<Decode>,
    VmError,
>)
    requires
        old(frame).wf(),
    ensures
        final(frame).wf(),
        Frame::same_but_stack(*old(frame), *final(frame)),
        match spec_decode(instr@) {
            Err(e) => (r matches Err(e2) && e2 == e) && final(frame).operand_stack@ == old(
                frame,
            ).operand_stack@,
            Ok(d) => match spec_run_from(
                d,
                0,
                old(frame).operand_stack@,
                old(frame).locals@,
                old(frame).max_stack as int,
                cp.deep_view(),
            ) {
                Err(e) => r matches Err(e2) && e2 == e,
                Ok(st) => r matches Ok(v) && v@.map_values(|dc: Decode| dc.ins) == d && v@.len()
                    == instr@.len() && final(frame).operand_stack@ == st,
            },
        },
{
    let ghost instr_view = instr@;
    let decoded = crate::decoder::decoder(instr)?;
    let ghost d = decoded@.map_values(|dc: Decode| dc.ins);
    let n = decoded.len();
    let mut pc: usize = 0;
    while pc < n
        invariant
            frame.wf(),
            Frame::same_but_stack(*old(frame), *frame),
            n == decoded@.len(),
            d == decoded@.map_values(|dc: Decode| dc.ins),
            d.len() == n,
            pc <= n,
            instr_view == instr@,
            n == instr_view.len(),
            spec_decode(instr_view) == Ok::<Seq<Option<Instruction>>, VmError>(d),
            spec_run_from(
                d,
                0,
                old(frame).operand_stack@,
                old(frame).locals@,
                old(frame).max_stack as int,
                cp.deep_view(),
            ) == spec_run_from(
                d,
                pc as int,
                frame.operand_stack@,
                frame.locals@,
                frame.max_stack as int,
                cp.deep_view(),
            ),
        decreases n - pc,
    {
        proof {
            assert(d[pc as int] == decoded@[pc as int].ins);
        }
        let ins = match decoded[pc].ins {
            Some(i) => i,
            None => {
                return Err(VmError::PcOutOfRange);
            },
        };
        let eff = execute_instruction(&ins, frame, cp)?;
        match eff {
            ExecEffect::Continue => {},
            _ => {
                return Ok(decoded);
            },
        }
        let l = crate::decoder::instruction_length_of(&ins);
        if n - pc <= l {
            return Ok(decoded);
        }
        pc = pc + l;
    }
    Ok(decoded)
}

/// Builds the frame for one invocation of `method` of the class at
/// `klass_index` and pushes it onto the thread's call stack, making it
/// current.
pub fn create_frame(method: &MemberInfo, klass_index: usize, thread: &mut Thread) -> (r: Result<
    (),
    VmError,
>)
    ensures
        final(thread).runtime == old(thread).runtime,
        match crate::thread::spec_new_frame_result(
            old(thread).registry(),
            method@,
            klass_index as int,
        ) {
            Ok(_) => {
                &&& r is Ok
                &&& final(thread).stack@.len() == old(thread).stack@.len() + 1
                &&& spec_new_frame_post(
                    old(thread).registry(),
                    method@,
                    klass_index as int,
                    Ok(final(thread).stack@.last()),
                )
                &&& forall|i: int|
                    0 <= i < old(thread).stack@.len() ==> final(thread).stack@[i] == old(
                        thread,
                    ).stack@[i]
            },
            Err(e) => r == Err::<(), VmError>(e) && final(thread).stack@ == old(thread).stack@,
        },
{
    let frame = thread.new_frame(method, klass_index)?;
    thread.push_frame(frame);
    Ok(())
}

/// The outcome `new_frame` is pinned to, keyed by its inputs: which error
/// comes on which input, with `Ok` exactly when the class index is
/// registered, the descriptor resolves, the body is present and its bytecode
/// decodes.
pub open spec fn spec_new_frame_result(
    reg: Seq<InstanceKlassView>,
    m: MemberInfoView,
    klass_index: int,
) -> Result<(), VmError> {
    if !(0 <= klass_index < reg.len()) {
        Err(VmError::UnknownClass)
    } else {
        match crate::attribute_info::spec_cp_utf8(
            reg[klass_index].constant_pool_entries,
            m.descriptor_index as int,
        ) {
            None => Err(VmError::UnresolvedConstantPoolEntry(m.descriptor_index)),
            Some(_) => match spec_code_of(m.attribute_table) {
                None => Err(VmError::UnknownMethod),
                Some(c) => match spec_decode(c.code) {
                    Err(e) => Err(e),
                    Ok(_) => Ok(()),
                },
            },
        }
    }
}

/// What an invocation through methodref index `mref` of constant pool `cp`
/// resolves to against the loaded registry: the target class's registry
/// index, the method's index within it, the declared argument count, and
/// whether the descriptor declares a non-void return. An unloaded class fails
/// with `UnknownClass`; an absent method, like a descriptor that does not
/// parse, fails with `UnknownMethod`.
pub open spec fn spec_invocation_target(
    reg: Seq<InstanceKlassView>,
    cp: Seq<CpEntryView>,
    mref: u16,
) -> Result<(int, int, nat, bool), VmError> {
    match spec_resolve_methodref(cp, mref) {
        Err(e) => Err(e),
        Ok(t) => if !valid_utf8(t.0) {
            Err(VmError::InvalidUtf8)
        } else {
            match spec_find_class(reg, decode_utf8(t.0)) {
                None => Err(VmError::UnknownClass),
                Some(k) => match spec_find_method(reg[k], t.1, t.2) {
                    None => Err(VmError::UnknownMethod),
                    Some(m) => match spec_descriptor_arg_count(t.2) {
                        None => Err(VmError::UnknownMethod),
                        Some(argc) => Ok((k, m, argc, spec_descriptor_returns_value(t.2))),
                    },
                },
            }
        },
    }
}

/// The transition a return from the current frame is pinned to: what `post`
/// and the result are, given the stack `pre` the return started from. The
/// current frame leaves the stack; a non-void method moves exactly one slot
/// onto the resuming frame; `Ok(true)` exactly when no frame remains.
pub open spec fn spec_return_post(pre: Seq<Frame>, r: Result<bool, VmError>, post: Seq<Frame>) -> bool {
    let n = pre.len() as int;
    let top = pre.last();
    if top.returns_value && top.operand_stack@.len() == 0 {
        r == Err::<bool, VmError>(VmError::OperandStackUnderflow) && post == pre
    } else if top.returns_value && n >= 2 && pre[n - 2].operand_stack@.len() == pre[n
        - 2].max_stack {
        r == Err::<bool, VmError>(VmError::OperandStackOverflow) && post == pre
    } else if !top.returns_value || n == 1 {
        r == Ok::<bool, VmError>(n == 1) && post == pre.drop_last()
    } else {
        &&& r == Ok::<bool, VmError>(false)
        &&& post.len() == n - 1
        &&& forall|i: int| 0 <= i < n - 2 ==> post[i] == pre[i]
        &&& Frame::same_but_stack(pre[n - 2], post[n - 2])
        &&& post[n - 2].operand_stack@ == pre[n - 2].operand_stack@.push(
            top.operand_stack@.last(),
        )
    }
}

/// The transition an invocation through methodref `mref` is pinned to, given
/// the registry and the stack `pre` it started from: each resolution failure
/// with its exact error and the stack untouched, or the callee frame pushed
/// with the receiver and the N declared arguments moved — exactly N+1 slots —
/// from the caller's operand stack into callee locals 0 through N in declared
/// left-to-right order.
pub open spec fn spec_invoke_post(
    reg: Seq<InstanceKlassView>,
    pre: Seq<Frame>,
    mref: u16,
    r: Result<(), VmError>,
    post: Seq<Frame>,
) -> bool {
    let n = pre.len() as int;
    let caller = pre.last();
    if !(caller.klass_index < reg.len()) {
        r == Err::<(), VmError>(VmError::UnknownClass) && post == pre
    } else {
        let cp = reg[caller.klass_index as int].constant_pool_entries;
        match spec_invocation_target(reg, cp, mref) {
            Err(e) => r == Err::<(), VmError>(e) && post == pre,
            Ok((k, m, argc, ret)) => match spec_code_of(reg[k].methods[m].attribute_table) {
                None => r == Err::<(), VmError>(VmError::UnknownMethod) && post == pre,
                Some(c) => if argc + 1 > c.max_locals {
                    r == Err::<(), VmError>(VmError::InvalidLocalSlot) && post == pre
                } else if caller.operand_stack@.len() < argc + 1 {
                    r == Err::<(), VmError>(VmError::OperandStackUnderflow) && post == pre
                } else {
                    match spec_decode(c.code) {
                        Err(e) => r == Err::<(), VmError>(e) && post == pre,
                        Ok(_) => {
                            let len_c = caller.operand_stack@.len() as int;
                            &&& r == Ok::<(), VmError>(())
                            &&& post.len() == n + 1
                            &&& forall|i: int| 0 <= i < n - 1 ==> post[i] == pre[i]
                            &&& Frame::same_but_stack(caller, post[n - 1])
                            &&& post[n - 1].operand_stack@ == caller.operand_stack@.take(
                                len_c - (argc + 1),
                            )
                            &&& ({
                                let callee = post[n as int];
                                &&& callee.wf()
                                &&& callee.klass_index == k
                                &&& callee.returns_value == ret
                                &&& callee.max_stack == c.max_stack
                                &&& callee.max_locals == c.max_locals
                                &&& callee.code@ == c.code
                                &&& callee.pc == 0
                                &&& callee.operand_stack@.len() == 0
                                &&& callee.locals@.len() == c.max_locals
                                &&& forall|j: int|
                                    0 <= j <= argc ==> callee.locals@[j]
                                        == caller.operand_stack@[len_c - (argc + 1) + j]
                                &&& forall|j: int|
                                    argc < j < callee.locals@.len() ==> (
                                    #[trigger] callee.locals@[j]).tag is Uninitialized
                            })
                        },
                    }
                },
            },
        }
    }
}

/// One invocation transition of the state machine: the caller's program
/// counter first advances past the three-byte invoke instruction, then the
/// invocation proceeds on that stack.
pub open spec fn spec_step_invoke(
    reg: Seq<InstanceKlassView>,
    pre: Seq<Frame>,
    idx: u16,
    r: Result<bool, VmError>,
    post: Seq<Frame>,
) -> bool {
    let n = pre.len() as int;
    let top = pre.last();
    if top.pc + 3 > top.decoded@.len() {
        r == Err::<bool, VmError>(VmError::PcOutOfRange) && post == pre
    } else {
        let adv = (Frame { pc: (top.pc + 3) as usize, ..top });
        let pre2 = pre.update(n - 1, adv);
        match r {
            Ok(t) => t == false && spec_invoke_post(reg, pre2, idx, Ok(()), post),
            Err(e) => spec_invoke_post(reg, pre2, idx, Err(e), post),
        }
    }
}

/// One frame-local transition of the state machine: the instruction's effect
/// on the current frame's operand stack per `spec_execute_local`, with the
/// program counter advanced past the instruction, and every other frame and
/// field untouched.
pub open spec fn spec_step_local(
    reg: Seq<InstanceKlassView>,
    pre: Seq<Frame>,
    ins: Instruction,
    r: Result<bool, VmError>,
    post: Seq<Frame>,
) -> bool {
    let n = pre.len() as int;
    let top = pre.last();
    let l = crate::decoder::spec_instr_len_of(ins);
    if !(top.klass_index < reg.len()) {
        r == Err::<bool, VmError>(VmError::UnknownClass) && post == pre
    } else if top.pc + l > top.decoded@.len() {
        r == Err::<bool, VmError>(VmError::PcOutOfRange) && post == pre
    } else {
        let cp = reg[top.klass_index as int].constant_pool_entries;
        match crate::frame::spec_execute_local(
            ins,
            top.operand_stack@,
            top.locals@,
            top.max_stack as int,
            cp,
        ) {
            Err(e) => {
                &&& r == Err::<bool, VmError>(e)
                &&& post.len() == n
                &&& forall|i: int| 0 <= i < n - 1 ==> post[i] == pre[i]
                &&& Frame::same_but_stack(top, post[n - 1])
                &&& post[n - 1].operand_stack@ == top.operand_stack@
            },
            Ok((st, _eff)) => {
                &&& r == Ok::<bool, VmError>(false)
                &&& post.len() == n
                &&& forall|i: int| 0 <= i < n - 1 ==> post[i] == pre[i]
                &&& post[n - 1].operand_stack@ == st
                &&& post[n - 1].pc == top.pc + l
                &&& post[n - 1].klass_index == top.klass_index
                &&& post[n - 1].returns_value == top.returns_value
                &&& post[n - 1].max_stack == top.max_stack
                &&& post[n - 1].max_locals == top.max_locals
                &&& post[n - 1].code@ == top.code@
                &&& post[n - 1].decoded@ == top.decoded@
                &&& post[n - 1].locals@ == top.locals@
            },
        }
    }
}

/// One whole transition of the thread's state machine, dispatched on the
/// instruction at the current frame's program counter: the return transition,
/// the invocation transition, or the frame-local effect. An empty stack is a
/// terminated thread; a counter past the code, or under an operand byte,
/// fails with `PcOutOfRange`.
pub open spec fn spec_step_post(
    reg: Seq<InstanceKlassView>,
    pre: Seq<Frame>,
    r: Result<bool, VmError>,
    post: Seq<Frame>,
) -> bool {
    if pre.len() == 0 {
        r == Ok::<bool, VmError>(true) && post == pre
    } else {
        let top = pre.last();
        if top.pc >= top.decoded@.len() {
            r == Err::<bool, VmError>(VmError::PcOutOfRange) && post == pre
        } else {
            match top.decoded@[top.pc as int].ins {
                None => r == Err::<bool, VmError>(VmError::PcOutOfRange) && post == pre,
                Some(ins) => match ins {
                    Instruction::OpReturn => spec_return_post(pre, r, post),
                    Instruction::OpInvokeSpecial(idx) => spec_step_invoke(reg, pre, idx, r, post),
                    Instruction::OpInvokeVirtual(idx) => spec_step_invoke(reg, pre, idx, r, post),
                    _ => spec_step_local(reg, pre, ins, r, post),
                },
            }
        }
    }
}

/// Running the state machine for at most `k` transitions: an already-empty
/// stack is a terminated thread; with no budget left the run reports
/// `Ok(false)` leaving the stack as it stands; otherwise one `spec_step_post`
/// transition happens, whose error or termination is the run's result, and a
/// fall-through continues with one transition less.
pub open spec fn spec_run_rel(
    reg: Seq<InstanceKlassView>,
    pre: Seq<Frame>,
    k: nat,
    r: Result<bool, VmError>,
    post: Seq<Frame>,
) -> bool
    decreases k,
{
    if pre.len() == 0 {
        r == Ok::<bool, VmError>(true) && post == pre
    } else if k == 0 {
        r == Ok::<bool, VmError>(false) && post == pre
    } else {
        exists|r1: Result<bool, VmError>, mid: Seq<Frame>|
            {
                &&& #[trigger] spec_step_post(reg, pre, r1, mid)
                &&& match r1 {
                    Err(e) => r == Err::<bool, VmError>(e) && post == mid,
                    Ok(true) => r == Ok::<bool, VmError>(true) && post == mid,
                    Ok(false) => spec_run_rel(reg, mid, (k - 1) as nat, r, post),
                }
            }
    }
}

/// What building a frame for `method` of the class at `klass_index` yields:
/// an unknown class index or an absent body is refused, the descriptor must
/// resolve, and the body must decode.
pub open spec fn spec_new_frame_post(
    reg: Seq<InstanceKlassView>,
    m: MemberInfoView,
    klass_index: int,
    r: Result<Frame, VmError>,
) -> bool {
    if !(0 <= klass_index < reg.len()) {
        r == Err::<Frame, VmError>(VmError::UnknownClass)
    } else {
        match crate::attribute_info::spec_cp_utf8(
            reg[klass_index].constant_pool_entries,
            m.descriptor_index as int,
        ) {
            None => r == Err::<Frame, VmError>(
                VmError::UnresolvedConstantPoolEntry(m.descriptor_index),
            ),
            Some(desc) => match spec_code_of(m.attribute_table) {
                None => r == Err::<Frame, VmError>(VmError::UnknownMethod),
                Some(c) => match spec_decode(c.code) {
                    Err(e) => r == Err::<Frame, VmError>(e),
                    Ok(_) => r matches Ok(f) && {
                        &&& f.wf()
                        &&& f.klass_index == klass_index
                        &&& f.returns_value == spec_descriptor_returns_value(desc)
                        &&& f.max_stack == c.max_stack
                        &&& f.max_locals == c.max_locals
                        &&& f.code@ == c.code
                        &&& f.pc == 0
                        &&& f.operand_stack@.len() == 0
                        &&& forall|i: int|
                            0 <= i < f.locals@.len() ==> (#[trigger] f.locals@[i]).tag
                                is Uninitialized
                    },
                },
            },
        }
    }
}

} // verus!
