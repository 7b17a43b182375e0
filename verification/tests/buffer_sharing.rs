//! Behaviour of the shared buffer: one guarded handle shared by the caller
//! and by concurrent worker tasks, with serialized access.

use ocl_stream::executor::OCLStreamExecutor;
use ocl_stream::shared_buffer::SharedBuffer;

#[test]
fn inner_returns_a_reference_to_the_same_region() {
    let buffer: SharedBuffer<Vec<u64>> = SharedBuffer::new(vec![0u64; 4]);
    let first = buffer.inner();
    let second = buffer.inner();
    first.lock()[2] = 9;
    assert_eq!(second.lock()[2], 9);
}

#[test]
fn clone_guards_the_same_region() {
    let buffer: SharedBuffer<Vec<u64>> = SharedBuffer::new(vec![1u64, 2]);
    let other = buffer.clone();
    buffer.inner().lock().push(3);
    assert_eq!(*other.inner().lock(), vec![1, 2, 3]);
}

#[test]
fn concurrent_buffer_updates_never_interleave() {
    // Two workers repeatedly append a (task id, previous length) pair under
    // the lock.  Were the compound update not serialized, some recorded
    // previous length would not match the pair's own position.
    let buffer: SharedBuffer<Vec<u64>> = SharedBuffer::new(Vec::new());
    let shared = buffer.clone();
    let mut executor = OCLStreamExecutor::new(0u64);
    executor.set_concurrency(2);
    let mut stream = executor.execute_unbounded(move |ctx| {
        let task: u64 = ctx.task_id() as u64;
        let region = shared.inner();
        let mut round: usize = 0;
        while round < 100 {
            let mut guard = region.lock();
            let before: u64 = guard.len() as u64;
            guard.push(task);
            guard.push(before);
            drop(guard);
            round += 1;
        }
        ctx.sender().send(task)?;
        Ok(())
    });
    let mut done: Vec<u64> = Vec::new();
    while let Ok(task) = stream.next() {
        done.push(task);
    }
    done.sort();
    assert_eq!(done, vec![0, 1]);

    let region = buffer.inner();
    let contents = region.lock();
    assert_eq!(contents.len(), 400);
    let mut per_task = [0usize; 2];
    for pair in 0..200usize {
        let task = contents[2 * pair];
        let before = contents[2 * pair + 1];
        assert!(task == 0 || task == 1);
        assert_eq!(before, (2 * pair) as u64);
        per_task[task as usize] += 1;
    }
    assert_eq!(per_task, [100, 100]);
}
