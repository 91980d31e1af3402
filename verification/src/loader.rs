//! Loads embedded application images into fixed physical slots and
//! prepares each application's first mode-switch context.
//!
//! The build step bakes a table into the kernel image: one machine word
//! holding the number of applications, followed by `count + 1` monotone
//! byte offsets delimiting each image. The loader parses that table,
//! copies each image into the slot computed from its index, and writes
//! the initial trap-context snapshot onto the application's kernel stack.
//! Reading the table's words out of the raw symbol, the raw writes into
//! the application region, the instruction-cache flush after copying and
//! the mode switch itself are the kernel's outermost boundary and stay
//! outside; everything here works on the values they carry.

use vstd::prelude::*;

verus! {

use crate::config::{
    APP_BASE_ADDRESS, APP_SIZE_LIMIT, KERNEL_STACK_SIZE, MAX_APP_NUM, PAGE_SIZE,
    TRAP_CONTEXT_SIZE, USER_STACK_SIZE,
};
use crate::trap::TrapContext;

/// Why the loader refused. The first three reject a malformed build
/// table; `NoMoreApps` is the terminal condition of the run cursor.
#[derive(Clone, Copy, Debug, PartialEq, Eq, Structural)]
pub enum LoaderError {
    TooManyApps,
    TruncatedTable,
    NonMonotonicTable,
    NoMoreApps,
}

/// Base address of application slot `app_id`.
pub open spec fn spec_base_i(app_id: int) -> int {
    APP_BASE_ADDRESS + app_id * APP_SIZE_LIMIT
}

/// Base address of application slot `app_id`.
pub fn get_base_i(app_id: usize) -> (r: usize)
    requires
        app_id <= MAX_APP_NUM,
    ensures
        r == spec_base_i(app_id as int),
{
    APP_BASE_ADDRESS + app_id * APP_SIZE_LIMIT
}

/// The total number of applications recorded in the build table: its
/// first word.
pub fn get_num_app(table: &Vec<usize>) -> (r: usize)
    requires
        table@.len() >= 1,
    ensures
        r == table@[0],
{
    table[0]
}

/// The offsets are non-decreasing, so each image's byte length is their
/// difference.
pub open spec fn offsets_monotone(s: Seq<usize>) -> bool {
    forall|i: int| 0 <= i < s.len() - 1 ==> #[trigger] s[i] <= s[i + 1]
}

/// A well-formed build table: a count word, a count within the slot
/// budget, `count + 1` offset words present, and offsets non-decreasing.
pub open spec fn table_ok(t: Seq<usize>) -> bool {
    &&& t.len() >= 1
    &&& t[0] <= MAX_APP_NUM
    &&& t.len() >= t[0] + 2
    &&& offsets_monotone(t.subrange(1, t[0] + 2))
}

/// Discovered applications and the run cursor. `app_start` holds the
/// `num_app + 1` byte offsets delimiting each image inside the kernel
/// image.
pub struct AppManager {
    pub num_app: usize,
    pub current_app: usize,
    pub app_start: Vec<usize>,
}

impl AppManager {
    /// Structural invariant: the count fits the slot budget, the offset
    /// table has one entry past the last image, offsets are
    /// non-decreasing, and the cursor never passes the count.
    pub open spec fn wf(self) -> bool {
        &&& self.num_app <= MAX_APP_NUM
        &&& self.app_start@.len() == self.num_app + 1
        &&& offsets_monotone(self.app_start@)
        &&& self.current_app <= self.num_app
    }

    /// Byte length of image `i`, as the table records it.
    pub open spec fn image_len(self, i: int) -> int {
        self.app_start@[i + 1] - self.app_start@[i]
    }

    /// Parses the build table. Refuses a count above the slot budget, a
    /// table shorter than its count announces, and offsets that go
    /// backwards; otherwise the cursor starts at the first application.
    pub fn new(table: &Vec<usize>) -> (r: Result<AppManager, LoaderError>)
        ensures
            r is Ok <==> table_ok(table@),
            r == Err::<AppManager, LoaderError>(LoaderError::TooManyApps) <==> (table@.len() >= 1
                && table@[0] > MAX_APP_NUM),
            r == Err::<AppManager, LoaderError>(LoaderError::TruncatedTable) <==> (table@.len()
                < 1 || (table@[0] <= MAX_APP_NUM && table@.len() < table@[0] + 2)),
            r == Err::<AppManager, LoaderError>(LoaderError::NonMonotonicTable) <==> (table@.len()
                >= 1 && table@[0] <= MAX_APP_NUM && table@.len() >= table@[0] + 2
                && !offsets_monotone(table@.subrange(1, table@[0] + 2))),
            r is Ok ==> {
                let m = r->Ok_0;
                &&& m.wf()
                &&& m.num_app == table@[0]
                &&& m.current_app == 0
                &&& m.app_start@ == table@.subrange(1, table@[0] + 2)
            },
    {
        if table.len() < 1 {
            return Err(LoaderError::TruncatedTable);
        }
        let num_app = table[0];
        if num_app > MAX_APP_NUM {
            return Err(LoaderError::TooManyApps);
        }
        if table.len() < num_app + 2 {
            return Err(LoaderError::TruncatedTable);
        }
        let mut app_start: Vec<usize> = Vec::new();
        let mut i: usize = 1;
        while i < num_app + 2
            invariant
                1 <= i <= num_app + 2,
                num_app <= MAX_APP_NUM,
                table@.len() >= num_app + 2,
                num_app == table@[0],
                app_start@.len() == i - 1,
                forall|k: int| 0 <= k < i - 1 ==> app_start@[k] == table@[k + 1],
            decreases num_app + 2 - i,
        {
            app_start.push(table[i]);
            i = i + 1;
        }
        assert(app_start@ =~= table@.subrange(1, num_app + 2));
        let mut j: usize = 0;
        while j < num_app
            invariant
                j <= num_app,
                num_app <= MAX_APP_NUM,
                table@.len() >= num_app + 2,
                num_app == table@[0],
                app_start@.len() == num_app + 1,
                app_start@ == table@.subrange(1, num_app + 2),
                forall|k: int| 0 <= k < j ==> #[trigger] app_start@[k] <= app_start@[k + 1],
            decreases num_app - j,
        {
            if app_start[j] > app_start[j + 1] {
                return Err(LoaderError::NonMonotonicTable);
            }
            j = j + 1;
        }
        Ok(AppManager { num_app, current_app: 0, app_start })
    }

    /// The run cursor: index of the current application.
    pub fn get_current_app(&self) -> (r: usize)
        ensures
            r == self.current_app,
    {
        self.current_app
    }

    /// Advances the run cursor by one; it never passes the count.
    pub fn move_to_next_app(&mut self)
        requires
            old(self).wf(),
            old(self).current_app < old(self).num_app,
        ensures
            final(self).wf(),
            final(self).current_app == old(self).current_app + 1,
            final(self).num_app == old(self).num_app,
            final(self).app_start == old(self).app_start,
    {
        self.current_app = self.current_app + 1;
    }
}

/// The byte that slot-relative position `(a, j)` must hold once loading
/// is done: byte `j` of image `a` inside the image, zero in the cleared
/// tail of the slot.
pub open spec fn loaded_byte(images: Seq<Vec<u8>>, a: int, j: int) -> u8 {
    if j < images[a]@.len() {
        images[a]@[j]
    } else {
        0u8
    }
}

/// The application region holds every image in its slot, each followed by
/// zeroes up to the slot limit.
pub open spec fn region_loaded(mem: Seq<u8>, images: Seq<Vec<u8>>) -> bool {
    &&& mem.len() == images.len() * APP_SIZE_LIMIT
    &&& forall|a: int, j: int|
        0 <= a < images.len() && 0 <= j < APP_SIZE_LIMIT ==> mem[a * APP_SIZE_LIMIT + j]
            == #[trigger] loaded_byte(images, a, j)
}

impl AppManager {
    /// Copies every image into its fixed slot. The returned bytes model
    /// the physical application region starting at `APP_BASE_ADDRESS`:
    /// position `i * APP_SIZE_LIMIT + j` stands for address
    /// `get_base_i(i) + j`. Each slot holds its image's bytes followed by
    /// zeroes up to the slot limit, so no stale bytes survive a load.
    pub fn load_app(&self, images: &Vec<Vec<u8>>) -> (mem: Vec<u8>)
        requires
            self.wf(),
            images@.len() == self.num_app,
            forall|i: int|
                0 <= i < self.num_app ==> (#[trigger] images@[i]@.len()) == self.image_len(i),
            forall|i: int| 0 <= i < self.num_app ==> (#[trigger] images@[i]@.len()) <= APP_SIZE_LIMIT,
        ensures
            mem@.len() == self.num_app * APP_SIZE_LIMIT,
            region_loaded(mem@, images@),
    {
        let num_app = self.num_app;
        let mut mem: Vec<u8> = Vec::new();
        let mut i: usize = 0;
        while i < num_app
            invariant
                i <= num_app,
                num_app == images@.len(),
                num_app <= MAX_APP_NUM,
                forall|a: int| 0 <= a < num_app ==> (#[trigger] images@[a]@.len()) <= APP_SIZE_LIMIT,
                mem@.len() == i * APP_SIZE_LIMIT,
                forall|a: int, j: int|
                    0 <= a < i && 0 <= j < APP_SIZE_LIMIT ==> mem@[a * APP_SIZE_LIMIT + j]
                        == #[trigger] loaded_byte(images@, a, j),
            decreases num_app - i,
        {
            let img = &images[i];
            let mut j: usize = 0;
            while j < img.len()
                invariant
                    j <= img@.len(),
                    img@.len() <= APP_SIZE_LIMIT,
                    i < num_app,
                    num_app <= MAX_APP_NUM,
                    num_app == images@.len(),
                    img == images@[i as int],
                    mem@.len() == i * APP_SIZE_LIMIT + j,
                    forall|a: int, t: int|
                        0 <= a < i && 0 <= t < APP_SIZE_LIMIT ==> mem@[a * APP_SIZE_LIMIT + t]
                            == #[trigger] loaded_byte(images@, a, t),
                    forall|t: int| 0 <= t < j ==> mem@[i * APP_SIZE_LIMIT + t] == img@[t],
                decreases img@.len() - j,
            {
                let b = img[j];
                mem.push(b);
                j = j + 1;
            }
            while j < APP_SIZE_LIMIT
                invariant
                    img@.len() <= j <= APP_SIZE_LIMIT,
                    i < num_app,
                    num_app <= MAX_APP_NUM,
                    num_app == images@.len(),
                    img == images@[i as int],
                    mem@.len() == i * APP_SIZE_LIMIT + j,
                    forall|a: int, t: int|
                        0 <= a < i && 0 <= t < APP_SIZE_LIMIT ==> mem@[a * APP_SIZE_LIMIT + t]
                            == #[trigger] loaded_byte(images@, a, t),
                    forall|t: int|
                        0 <= t < j ==> mem@[i * APP_SIZE_LIMIT + t] == #[trigger] loaded_byte(
                            images@,
                            i as int,
                            t,
                        ),
                decreases APP_SIZE_LIMIT - j,
            {
                mem.push(0);
                j = j + 1;
            }
            proof {
                assert forall|a: int, t: int|
                    0 <= a < i + 1 && 0 <= t < APP_SIZE_LIMIT implies mem@[a * APP_SIZE_LIMIT + t]
                    == loaded_byte(images@, a, t) by {
                    if a == i {
                        assert(loaded_byte(images@, a, t) == if t < img@.len() {
                            img@[t]
                        } else {
                            0u8
                        });
                    }
                }
            }
            i = i + 1;
        }
        mem
    }
}

/// One application's kernel-mode stack: its page-aligned base address and
/// the trap-context snapshot written at its top, if any.
pub struct KernelStack {
    pub base: usize,
    pub saved: Option<TrapContext>,
}

impl KernelStack {
    /// The base is page-aligned and the stack fits in the address space.
    pub open spec fn wf(self) -> bool {
        self.base % PAGE_SIZE == 0 && self.base + KERNEL_STACK_SIZE <= usize::MAX
    }

    /// A fresh stack at `base` with nothing written on it.
    pub fn new(base: usize) -> (r: Self)
        requires
            base % PAGE_SIZE == 0,
            base + KERNEL_STACK_SIZE <= usize::MAX,
        ensures
            r.wf(),
            r.base == base,
            r.saved is None,
    {
        KernelStack { base, saved: None }
    }

    /// Address just past the stack's highest byte: its initial stack
    /// pointer.
    pub fn get_sp(&self) -> (r: usize)
        requires
            self.wf(),
        ensures
            r == self.base + KERNEL_STACK_SIZE,
    {
        self.base + KERNEL_STACK_SIZE
    }

    /// Writes the snapshot `cx` at the top of this stack and returns the
    /// address where it now sits — the value the mode-switch entry point
    /// consumes.
    pub fn push_context(&mut self, cx: TrapContext) -> (r: usize)
        requires
            old(self).wf(),
        ensures
            final(self).wf(),
            final(self).base == old(self).base,
            final(self).saved == Some(cx),
            r == old(self).base + KERNEL_STACK_SIZE - TRAP_CONTEXT_SIZE,
    {
        self.saved = Some(cx);
        self.base + KERNEL_STACK_SIZE - TRAP_CONTEXT_SIZE
    }
}

/// One application's user-mode stack: its page-aligned base address.
pub struct UserStack {
    pub base: usize,
}

impl UserStack {
    /// The base is page-aligned and the stack fits in the address space.
    pub open spec fn wf(self) -> bool {
        self.base % PAGE_SIZE == 0 && self.base + USER_STACK_SIZE <= usize::MAX
    }

    /// A fresh stack at `base`.
    pub fn new(base: usize) -> (r: Self)
        requires
            base % PAGE_SIZE == 0,
            base + USER_STACK_SIZE <= usize::MAX,
        ensures
            r.wf(),
            r.base == base,
    {
        UserStack { base }
    }

    /// Address just past the stack's highest byte: the application's
    /// initial user-mode stack pointer.
    pub fn get_sp(&self) -> (r: usize)
        requires
            self.wf(),
        ensures
            r == self.base + USER_STACK_SIZE,
    {
        self.base + USER_STACK_SIZE
    }
}

/// Builds the initial trap context of application `app_id` — entry at its
/// slot base, user stack pointer at the top of its user stack — writes it
/// at the top of that application's kernel stack, and returns the address
/// of the written snapshot.
pub fn init_app_cx(app_id: usize, kstack: &mut KernelStack, ustack: &UserStack) -> (r: usize)
    requires
        old(kstack).wf(),
        ustack.wf(),
        app_id <= MAX_APP_NUM,
    ensures
        final(kstack).wf(),
        final(kstack).base == old(kstack).base,
        final(kstack).saved == Some(
            TrapContext {
                entry_pc: spec_base_i(app_id as int) as usize,
                user_sp: (ustack.base + USER_STACK_SIZE) as usize,
            },
        ),
        r == old(kstack).base + KERNEL_STACK_SIZE - TRAP_CONTEXT_SIZE,
{
    let entry = get_base_i(app_id);
    let sp = ustack.get_sp();
    kstack.push_context(TrapContext::app_init_context(entry, sp))
}

/// Advances the run cursor and prepares the mode switch into the new
/// current application: writes its initial trap context onto its kernel
/// stack and returns the context's address for the mode-switch entry
/// point, to which the caller transfers control without returning. When
/// no further application exists, the cursor stays put and the terminal
/// condition is reported instead — there is no wraparound to the first
/// application.
pub fn run_next_app(
    manager: &mut AppManager,
    kernel_stacks: &mut Vec<KernelStack>,
    user_stacks: &Vec<UserStack>,
) -> (r: Result<usize, LoaderError>)
    requires
        old(manager).wf(),
        old(kernel_stacks)@.len() == old(manager).num_app,
        user_stacks@.len() == old(manager).num_app,
        forall|i: int| 0 <= i < old(manager).num_app ==> (#[trigger] old(kernel_stacks)@[i]).wf(),
        forall|i: int| 0 <= i < old(manager).num_app ==> (#[trigger] user_stacks@[i]).wf(),
    ensures
        final(manager).wf(),
        final(manager).num_app == old(manager).num_app,
        final(manager).app_start == old(manager).app_start,
        final(kernel_stacks)@.len() == old(kernel_stacks)@.len(),
        r is Ok <==> old(manager).current_app + 1 < old(manager).num_app,
        final(manager).current_app >= old(manager).current_app,
        r is Err ==> {
            &&& r == Err::<usize, LoaderError>(LoaderError::NoMoreApps)
            &&& *final(manager) == *old(manager)
            &&& final(kernel_stacks)@ == old(kernel_stacks)@
        },
        r is Ok ==> {
            let next = old(manager).current_app + 1;
            &&& final(manager).current_app == next
            &&& forall|i: int|
                0 <= i < old(manager).num_app && i != next ==> final(kernel_stacks)@[i] == old(
                    kernel_stacks,
                )@[i]
            &&& final(kernel_stacks)@[next].base == old(kernel_stacks)@[next].base
            &&& final(kernel_stacks)@[next].saved == Some(
                TrapContext {
                    entry_pc: spec_base_i(next) as usize,
                    user_sp: (user_stacks@[next].base + USER_STACK_SIZE) as usize,
                },
            )
            &&& r->Ok_0 == old(kernel_stacks)@[next].base + KERNEL_STACK_SIZE - TRAP_CONTEXT_SIZE
        },
{
    let current = manager.get_current_app();
    if current + 1 >= manager.num_app {
        return Err(LoaderError::NoMoreApps);
    }
    manager.move_to_next_app();
    let next = current + 1;
    let addr = init_app_cx(next, &mut kernel_stacks[next], &user_stacks[next]);
    Ok(addr)
}

} // verus!
