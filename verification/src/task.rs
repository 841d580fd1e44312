//! Tasks: their saved kernel contexts, control blocks and the task table.
use vstd::prelude::*;
use crate::address::PhysPageNum;
use crate::config::{KERNEL_STACK_SIZE, PAGE_SIZE, TRAMPOLINE};
use crate::trap::{zero_gprs, TrapContext, SSTATUS_SPP};
use crate::trap::regs_index::SP;

verus! {

/// Kernel task context. Used in `__switch`.
#[derive(Clone, Copy)]
pub struct TaskContext {
    /// return address ( e.g. __restore ) of __switch ASM function
    ra: usize,
    /// kernel stack pointer of app
    sp: usize,
    /// callee saved registers:  s 0..11
    s: [usize; 12],
}

impl View for TaskContext {
    /// The return address, the stack pointer and the saved registers.
    type V = (usize, usize, Seq<usize>);

    closed spec fn view(&self) -> (usize, usize, Seq<usize>) {
        (self.ra, self.sp, self.s@)
    }
}

/// Twelve zero registers.
pub open spec fn zero_regs() -> Seq<usize> {
    Seq::new(12, |i: int| 0usize)
}

impl TaskContext {
    /// This does not represent any task. It should be used as a placeholder.
    pub fn create_blank() -> (r: Self)
        ensures
            r@ == (0usize, 0usize, zero_regs()),
    {
        let r = Self { ra: 0, sp: 0, s: [0; 12] };
        assert(r.s@ =~= zero_regs());
        r
    }

    /// Create a task context that will return to `trap_return --> __restore --> sepc`.
    /// The sepc is specified in the TrapContext SSA of the task.
    ///
    /// `trap_return`: the address of the kernel's `trap_return` routine.
    /// sp: initial kernel sp used when __switch enters the task.
    pub fn create_trap_return(trap_return: usize, sp: usize) -> (r: Self)
        ensures
            r@ == (trap_return, sp, zero_regs()),
    {
        let r = Self { ra: trap_return, sp: sp, s: [0; 12] };
        assert(r.s@ =~= zero_regs());
        r
    }

    /// The return address of `__switch`.
    pub fn ra(&self) -> (r: usize)
        ensures
            r == self@.0,
    {
        self.ra
    }

    /// The kernel stack pointer.
    pub fn sp(&self) -> (r: usize)
        ensures
            r == self@.1,
    {
        self.sp
    }

    /// The callee-saved register `s{i}`.
    pub fn saved(&self, i: usize) -> (r: usize)
        requires
            i < 12,
        ensures
            r == self@.2[i as int],
    {
        self.s[i]
    }
}

#[derive(Clone, Copy, PartialEq, Eq, Structural)]
pub enum TaskStatus {
    Ready,
    Running,
}

/// Bottom of the kernel stack of app `app_id`, counted from the trampoline
/// page down: each stack is preceded by one unmapped guard page.
pub open spec fn kernel_stack_high(app_id: int) -> int {
    TRAMPOLINE - app_id * (KERNEL_STACK_SIZE + PAGE_SIZE)
}

/// Whether the kernel stack of app `app_id` fits in the address space.
pub open spec fn kernel_stack_fits(app_id: int) -> bool {
    0 <= app_id && app_id * (KERNEL_STACK_SIZE + PAGE_SIZE) + KERNEL_STACK_SIZE <= TRAMPOLINE
}

/// The range `(low, high)` of the kernel stack of app `app_id`.
pub fn kernel_stack_position(app_id: usize) -> (r: (usize, usize))
    requires
        kernel_stack_fits(app_id as int),
    ensures
        r.1 == kernel_stack_high(app_id as int),
        r.0 == r.1 - KERNEL_STACK_SIZE,
{
    let high = TRAMPOLINE - app_id * (KERNEL_STACK_SIZE + PAGE_SIZE);
    let low = high - KERNEL_STACK_SIZE;
    (low, high)
}

/// The kernel stacks of two different apps do not overlap, and a whole
/// guard page separates them; all lie below the trampoline page.
pub proof fn lemma_kernel_stacks_disjoint(a: int, b: int)
    requires
        kernel_stack_fits(a),
        kernel_stack_fits(b),
        a < b,
    ensures
        kernel_stack_high(b) + PAGE_SIZE <= kernel_stack_high(a) - KERNEL_STACK_SIZE,
        kernel_stack_high(a) <= TRAMPOLINE,
        kernel_stack_high(b) - KERNEL_STACK_SIZE >= 0,
{
    assert(a * (KERNEL_STACK_SIZE + PAGE_SIZE) + (KERNEL_STACK_SIZE + PAGE_SIZE)
        <= b * (KERNEL_STACK_SIZE + PAGE_SIZE)) by (nonlinear_arith)
        requires a < b;
    assert(0 <= a * (KERNEL_STACK_SIZE + PAGE_SIZE)) by (nonlinear_arith)
        requires 0 <= a;
}

/// The trap context in which app `app_id` first enters user mode: at
/// `entry` on the user stack `user_sp`, in user mode, and trapping back to
/// `trap_handler` on the app's own kernel stack, the one its task context
/// starts on (see [`TaskControlBlock::new`]).
pub fn initial_trap_context(
    app_id: usize,
    sstatus: usize,
    entry: usize,
    user_sp: usize,
    kernel_satp: usize,
    trap_handler: usize,
) -> (r: TrapContext)
    requires
        kernel_stack_fits(app_id as int),
    ensures
        r.gpr@ == zero_gprs().update(SP as int, user_sp),
        r.sstatus == sstatus & !SSTATUS_SPP,
        r.sepc == entry,
        r.kernel_satp == kernel_satp,
        r.kernel_sp == kernel_stack_high(app_id as int),
        r.trap_handler == trap_handler,
{
    let (_low, high) = kernel_stack_position(app_id);
    TrapContext::create_user(sstatus, entry, user_sp, kernel_satp, high, trap_handler)
}

/// A task: its state, its saved kernel context, its user memory set `M`
/// with the page-table token that the memory set yields, and the frame of
/// its trap-context save area.
pub struct TaskControlBlock<M> {
    pub status: TaskStatus,
    pub ctx: TaskContext,
    /// User level memory set
    memory_set: M,
    /// The page-table token of `memory_set`.
    user_token: usize,
    /// TrapContext state save area. Page-aligned.
    trap_ctx_ppn: PhysPageNum,
}

impl<M> TaskControlBlock<M> {
    pub closed spec fn status_spec(&self) -> TaskStatus {
        self.status
    }

    pub closed spec fn ctx_spec(&self) -> TaskContext {
        self.ctx
    }

    /// Equal in everything but the status.
    pub open spec fn same_but_status(&self, other: &Self) -> bool {
        &&& self.ctx_spec() == other.ctx_spec()
        &&& self.memory_set_spec() == other.memory_set_spec()
        &&& self.user_token_spec() == other.user_token_spec()
        &&& self.trap_ctx_ppn_spec() == other.trap_ctx_ppn_spec()
    }

    pub closed spec fn memory_set_spec(&self) -> M {
        self.memory_set
    }

    pub closed spec fn user_token_spec(&self) -> usize {
        self.user_token
    }

    pub closed spec fn trap_ctx_ppn_spec(&self) -> PhysPageNum {
        self.trap_ctx_ppn
    }

    /// A ready task for app `app_id` that enters `trap_return` on the top
    /// of its own kernel stack.
    pub fn new(memory_set: M, user_token: usize, trap_ctx_ppn: PhysPageNum, app_id: usize, trap_return: usize) -> (r: Self)
        requires
            kernel_stack_fits(app_id as int),
        ensures
            r.status_spec() == TaskStatus::Ready,
            r.ctx_spec()@ == (trap_return, kernel_stack_high(app_id as int) as usize, zero_regs()),
            r.memory_set_spec() == memory_set,
            r.user_token_spec() == user_token,
            r.trap_ctx_ppn_spec() == trap_ctx_ppn,
    {
        let (_low, high) = kernel_stack_position(app_id);
        Self {
            status: TaskStatus::Ready,
            ctx: TaskContext::create_trap_return(trap_return, high),
            memory_set,
            user_token,
            trap_ctx_ppn,
        }
    }

    /// The page-table token of the task's address space.
    pub fn get_user_token(&self) -> (r: usize)
        ensures
            r == self.user_token_spec(),
    {
        self.user_token
    }

    /// The frame that holds the task's trap context.
    pub fn get_trap_ctx_ppn(&self) -> (r: PhysPageNum)
        ensures
            r == self.trap_ctx_ppn_spec(),
    {
        self.trap_ctx_ppn
    }

    /// The task's memory set.
    pub fn memory_set(&self) -> (r: &M)
        ensures
            *r == self.memory_set_spec(),
    {
        &self.memory_set
    }
}

/// The task table; a task's id is its index.
pub struct TaskManagerInner<M> {
    tasks: Vec<TaskControlBlock<M>>,
    current_task: usize,
}

impl<M> TaskManagerInner<M> {
    pub closed spec fn tasks_spec(&self) -> Seq<TaskControlBlock<M>> {
        self.tasks@
    }

    pub closed spec fn current_spec(&self) -> usize {
        self.current_task
    }

    /// The current task is one of the tasks.
    pub open spec fn wf(&self) -> bool {
        self.current_spec() < self.tasks_spec().len()
    }

    /// Every task table keeps `wf`.
    #[verifier::type_invariant]
    closed spec fn inv(self) -> bool {
        self.wf()
    }

    /// A table whose current task is the first one.
    pub fn new(tasks: Vec<TaskControlBlock<M>>) -> (r: Self)
        requires
            tasks@.len() > 0,
        ensures
            r.tasks_spec() == tasks@,
            r.current_spec() == 0,
            r.wf(),
    {
        TaskManagerInner { tasks, current_task: 0 }
    }

    /// Marks the first task running and gives the context to switch to.
    pub fn run_first(&mut self) -> (r: TaskContext)
        ensures
            r == old(self).tasks_spec()[0].ctx_spec(),
            final(self).current_spec() == old(self).current_spec(),
            final(self).tasks_spec().len() == old(self).tasks_spec().len(),
            final(self).tasks_spec()[0].status_spec() == TaskStatus::Running,
            final(self).tasks_spec()[0].same_but_status(&old(self).tasks_spec()[0]),
            forall|i: int| 0 < i < old(self).tasks_spec().len() ==>
                #[trigger] final(self).tasks_spec()[i] == old(self).tasks_spec()[i],
            final(self).wf(),
    {
        proof { use_type_invariant(&*self); }
        self.tasks[0].status = TaskStatus::Running;
        proof { use_type_invariant(&*self); }
        self.tasks[0].ctx
    }

    /// The page-table token of the current task.
    pub fn current_user_token(&self) -> (r: usize)
        ensures
            self.wf(),
            r == self.tasks_spec()[self.current_spec() as int].user_token_spec(),
    {
        proof { use_type_invariant(self); }
        self.tasks[self.current_task].get_user_token()
    }

    /// The trap-context frame of the current task.
    pub fn current_trap_ctx_ppn(&self) -> (r: PhysPageNum)
        ensures
            self.wf(),
            r == self.tasks_spec()[self.current_spec() as int].trap_ctx_ppn_spec(),
    {
        proof { use_type_invariant(self); }
        self.tasks[self.current_task].get_trap_ctx_ppn()
    }
}

/// Where app `i` begins, in the table of app start addresses that the
/// linker lays out (`app_start[i]` is where app `i` begins and
/// `app_start[i + 1]` where it ends).
pub open spec fn app_begin(app_start: Seq<usize>, i: int) -> int {
    app_start[i] as int
}

/// The length of app `i` in the table of app start addresses.
pub open spec fn app_len(app_start: Seq<usize>, i: int) -> int {
    app_start[i + 1] - app_start[i]
}

/// The total length of apps `0..n`.
pub open spec fn apps_total_len(app_start: Seq<usize>, n: nat) -> int
    decreases n,
{
    if n == 0 { 0 } else { apps_total_len(app_start, (n - 1) as nat) + app_len(app_start, n - 1) }
}

/// The bytes of app `app_id`: its start address and its length.
pub fn app_data_range(app_start: &[usize], app_id: usize) -> (r: (usize, usize))
    requires
        app_id + 1 < app_start@.len(),
        app_start@[app_id as int] <= app_start@[app_id + 1],
    ensures
        r.0 == app_begin(app_start@, app_id as int),
        r.1 == app_len(app_start@, app_id as int),
        r.0 == app_start@[app_id as int],
        r.1 == app_start@[app_id + 1] - app_start@[app_id as int],
        r.0 + r.1 == app_start@[app_id + 1],
{
    (app_start[app_id], app_start[app_id + 1] - app_start[app_id])
}

/// App `i` is exactly the bytes from table entry `i` up to table entry
/// `i + 1`: it begins at `app_start[i]` and ends at `app_start[i + 1]`.
pub proof fn lemma_app_bounds(app_start: Seq<usize>, i: int)
    requires
        0 <= i,
        i + 1 < app_start.len(),
    ensures
        app_begin(app_start, i) == app_start[i],
        app_begin(app_start, i) + app_len(app_start, i) == app_start[i + 1],
{
}

/// The apps lie back to back: each ends where the next begins, none is
/// skipped and none overlaps the next, and apps `0..n` together fill
/// `app_start[0]..app_start[n]`.
pub proof fn lemma_apps_back_to_back(app_start: Seq<usize>, n: nat)
    requires
        n < app_start.len(),
    ensures
        forall|i: int| 0 <= i && i + 1 < n ==>
            #[trigger] app_begin(app_start, i) + app_len(app_start, i) == app_begin(app_start, i + 1),
        apps_total_len(app_start, n) == app_begin(app_start, n as int) - app_begin(app_start, 0),
    decreases n,
{
    if n > 0 {
        lemma_apps_back_to_back(app_start, (n - 1) as nat);
    }
}

} // verus!
