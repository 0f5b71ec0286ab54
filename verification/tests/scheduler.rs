use termide::pseudo_mt::PseudoMultithreading;

#[test]
fn run_returns_every_task_once() {
    let mut tasks = PseudoMultithreading::new();
    for i in 0..50u32 {
        tasks.add(i);
    }
    let mut order = tasks.run();
    assert_eq!(order.len(), 50);
    order.sort();
    assert_eq!(order, (0..50).collect::<Vec<u32>>());
    // Nothing waits after a run.
    assert_eq!(tasks.run(), Vec::<u32>::new());
}

#[test]
fn run_of_nothing_returns_nothing() {
    let mut tasks: PseudoMultithreading<u8> = PseudoMultithreading::new();
    assert!(tasks.run().is_empty());
}

#[test]
fn equal_tasks_are_each_kept() {
    let mut tasks = PseudoMultithreading::new();
    tasks.add('x');
    tasks.add('x');
    tasks.add('y');
    let mut order = tasks.run();
    order.sort();
    assert_eq!(order, vec!['x', 'x', 'y']);
}

#[test]
fn take_removes_the_task_at_its_place() {
    let mut tasks = PseudoMultithreading::new();
    tasks.add("a");
    tasks.add("b");
    tasks.add("c");
    assert_eq!(tasks.take(1), "b");
    assert_eq!(tasks.take(1), "c");
    assert_eq!(tasks.take(0), "a");
}

#[test]
fn tasks_can_be_closures() {
    let mut tasks: PseudoMultithreading<Box<dyn FnOnce() -> u32>> = PseudoMultithreading::new();
    tasks.add(Box::new(|| 1));
    tasks.add(Box::new(|| 2));
    let sum: u32 = tasks.run().into_iter().map(|f| f()).sum();
    assert_eq!(sum, 3);
}
