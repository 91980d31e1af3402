use kernel_core::config::{
    APP_BASE_ADDRESS, APP_SIZE_LIMIT, KERNEL_STACK_SIZE, TRAP_CONTEXT_SIZE, USER_STACK_SIZE,
};
use kernel_core::loader::{
    get_base_i, get_num_app, init_app_cx, run_next_app, AppManager, KernelStack, LoaderError,
    UserStack,
};
use kernel_core::trap::TrapContext;

fn three_app_table() -> (Vec<usize>, Vec<Vec<u8>>) {
    // Three images of sizes 100, 4096 and 1 byte, packed back to back
    // inside the kernel image.
    let start = 0x8020_0000usize;
    let sizes = [100usize, 4096, 1];
    let mut table = vec![sizes.len()];
    let mut offset = start;
    table.push(offset);
    for s in sizes {
        offset += s;
        table.push(offset);
    }
    let images = vec![
        vec![0x11u8; 100],
        (0..4096u32).map(|i| (i % 251) as u8).collect(),
        vec![0x77u8; 1],
    ];
    (table, images)
}

#[test]
fn test_get_base_i() {
    assert_eq!(get_base_i(0), APP_BASE_ADDRESS);
    assert_eq!(get_base_i(1), 0x8040_0000 + 0x2_0000);
    assert_eq!(get_base_i(2), APP_BASE_ADDRESS + 2 * APP_SIZE_LIMIT);
}

#[test]
fn test_get_num_app() {
    let (table, _) = three_app_table();
    assert_eq!(get_num_app(&table), 3);
}

#[test]
fn test_manager_parses_table() {
    let (table, _) = three_app_table();
    let m = AppManager::new(&table).unwrap();
    assert_eq!(m.num_app, 3);
    assert_eq!(m.current_app, 0);
    assert_eq!(m.app_start, table[1..5].to_vec());
}

#[test]
fn test_manager_refuses_bad_tables() {
    let empty: Vec<usize> = Vec::new();
    assert!(matches!(
        AppManager::new(&empty),
        Err(LoaderError::TruncatedTable)
    ));
    let too_many = vec![17usize; 20];
    assert!(matches!(
        AppManager::new(&too_many),
        Err(LoaderError::TooManyApps)
    ));
    let short = vec![3usize, 100, 200];
    assert!(matches!(
        AppManager::new(&short),
        Err(LoaderError::TruncatedTable)
    ));
    let backwards = vec![2usize, 300, 200, 400];
    assert!(matches!(
        AppManager::new(&backwards),
        Err(LoaderError::NonMonotonicTable)
    ));
}

#[test]
fn three_records() {
    // Three images of sizes [100, 4096, 1]: slot 1 sits one size limit
    // above the base, holds image 1's bytes, and the rest of the slot is
    // zero.
    let (table, images) = three_app_table();
    let m = AppManager::new(&table).unwrap();
    assert_eq!(get_base_i(1), 0x8040_0000 + 0x2_0000);
    let mem = m.load_app(&images);
    assert_eq!(mem.len(), 3 * APP_SIZE_LIMIT);
    let slot1 = APP_SIZE_LIMIT;
    assert_eq!(&mem[slot1..slot1 + 4096], &images[1][..]);
    assert!(mem[slot1 + 4096..slot1 + APP_SIZE_LIMIT]
        .iter()
        .all(|&b| b == 0));
    // The other two slots as well: image bytes, then zeroes.
    assert_eq!(&mem[0..100], &images[0][..]);
    assert!(mem[100..APP_SIZE_LIMIT].iter().all(|&b| b == 0));
    let slot2 = 2 * APP_SIZE_LIMIT;
    assert_eq!(mem[slot2], 0x77);
    assert!(mem[slot2 + 1..slot2 + APP_SIZE_LIMIT]
        .iter()
        .all(|&b| b == 0));
}

#[test]
fn test_kernel_stack_push_context() {
    let mut k = KernelStack::new(0x8024_0000);
    assert_eq!(k.get_sp(), 0x8024_0000 + KERNEL_STACK_SIZE);
    let cx = TrapContext::app_init_context(0x8040_0000, 0x9000_0000);
    let addr = k.push_context(cx);
    assert_eq!(addr, 0x8024_0000 + KERNEL_STACK_SIZE - TRAP_CONTEXT_SIZE);
    assert_eq!(k.saved, Some(cx));
}

#[test]
fn test_init_app_cx() {
    let mut k = KernelStack::new(0x8024_0000);
    let u = UserStack::new(0x8028_0000);
    let addr = init_app_cx(2, &mut k, &u);
    assert_eq!(addr, 0x8024_0000 + KERNEL_STACK_SIZE - TRAP_CONTEXT_SIZE);
    assert_eq!(
        k.saved,
        Some(TrapContext {
            entry_pc: APP_BASE_ADDRESS + 2 * APP_SIZE_LIMIT,
            user_sp: 0x8028_0000 + USER_STACK_SIZE,
        })
    );
}

#[test]
fn test_run_next_app_advances_then_halts() {
    let (table, _) = three_app_table();
    let mut m = AppManager::new(&table).unwrap();
    let mut kstacks: Vec<KernelStack> = (0..3)
        .map(|i| KernelStack::new(0x8100_0000 + i * KERNEL_STACK_SIZE))
        .collect();
    let ustacks: Vec<UserStack> = (0..3)
        .map(|i| UserStack::new(0x8200_0000 + i * USER_STACK_SIZE))
        .collect();

    let r1 = run_next_app(&mut m, &mut kstacks, &ustacks).unwrap();
    assert_eq!(m.current_app, 1);
    assert_eq!(
        r1,
        kstacks[1].base + KERNEL_STACK_SIZE - TRAP_CONTEXT_SIZE
    );
    assert_eq!(
        kstacks[1].saved,
        Some(TrapContext {
            entry_pc: get_base_i(1),
            user_sp: ustacks[1].base + USER_STACK_SIZE,
        })
    );

    let r2 = run_next_app(&mut m, &mut kstacks, &ustacks).unwrap();
    assert_eq!(m.current_app, 2);
    assert_eq!(
        r2,
        kstacks[2].base + KERNEL_STACK_SIZE - TRAP_CONTEXT_SIZE
    );

    // The last application is current: one more advance is the terminal
    // condition, reported explicitly, with no wraparound to the first
    // application.
    assert_eq!(
        run_next_app(&mut m, &mut kstacks, &ustacks),
        Err(LoaderError::NoMoreApps)
    );
    assert_eq!(m.current_app, 2);
}
