# m68k

A processor core for the M68000 family, written in Verus. The library executes
instructions against a host-supplied bus, one at a time, against a clock budget
with host hooks at the boundaries, or in instruction batches that run decoded
operations on a window of plain memory.

## Model

`Machine` is what the contracts speak of: a processor state together with the
behaviour of its bus. A function that takes the processor and the bus has a
counterpart of the same name on `Machine`, and its contract says that the two
agree. Functions of the processor alone have a counterpart `spec_...` on
`CpuCore`; the operations on a memory window have theirs on `Window`.

The behaviour of a bus is a function of the requests it has seen
(`memory::BusView`), so the contracts hold of every bus. Hooks and trap
handlers are described in the same way (`batch::HookView`, `hle::HleView`).
`memory::LinearMemoryBus` is a bus over a vector of bytes, and
`memory::LinearState` says what it does.

## Layout

| Module | Contents |
| --- | --- |
| `types`, `bits` | models, sizes, results; facts about bit fields |
| `memory` | buses and linear memory |
| `cpu`, `machine` | processor state, registers, control registers |
| `access`, `prefetch`, `exceptions` | memory access, instruction fetch, faults and vectors |
| `alu`, `ea`, `timing`, `instructions` | arithmetic, operands, clocks, instruction bodies |
| `decode`, `decode_arith`, `decode_misc`, `mmu_ops` | the dispatcher |
| `op_cache`, `mem_ops` | decoded register and memory operations |
| `execute`, `batch`, `hle` | single steps, runs and batches, host trap handling |
| `runner_profile` | deterministic sampling |
| `laws_*` | what holds of the library as a whole |

The laws cover the status register and the stack pointers, arithmetic against
integers, memory read-back, exception entry and return, the prefetch queue,
runs and their budgets, and the memory window. `laws_fast`, `laws_dispatch` and
`laws_batch` say that the decoded operations, on registers and on the window,
do what the dispatcher does with the same opcode, and that the dispatcher
completes it: registers, flags, PC and memory agree, on any bus whose accesses
inside the lent range are those of the bytes lent (`laws_operands::Lender`).
Cycles may differ, a write leaves other data for a fault frame, and NOP on a
68040 is a change of flow for the dispatcher alone. `laws_frame` says what an
instruction leaves alone, `laws_slice` what a whole run comes to, and
`laws_profile` which instructions of a run a profile samples.

## The bus

Floating point, long multiplication and division, bit fields and the other
instructions of `memory::UnitOp`, the table walks of the MMU and the retirement
timing of the 68020 and 68060 are asked of the bus. `LinearMemoryBus` has
nothing but memory: there these instructions are illegal or F-line traps,
translation is the identity, and timing is the base timing. The bus is also
told before each read that refills the prefetch queue, so that a host can count
it with the instruction stream.

`app/` is what a host adds: serializable state, closures as hooks, and a
profile timed with the system clock.
