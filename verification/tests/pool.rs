use slave_pool::pool::{
    count_after_failed_start, next_job, next_job_of, plan_resize, stack_size_setting,
    thread_name, JobQueue, Message, Resize,
};

#[test]
fn resize_plans() {
    assert_eq!(plan_resize(8, 4), Resize::Shrink(4));
    assert_eq!(plan_resize(0, 8), Resize::Grow(8));
    assert_eq!(plan_resize(4, 0), Resize::Shrink(4));
    assert_eq!(plan_resize(3, 3), Resize::Keep);
    assert_eq!(plan_resize(0, u16::MAX), Resize::Grow(u16::MAX));
}

#[test]
fn failed_start_keeps_started_workers() {
    assert_eq!(count_after_failed_start(2, 10, 3), 5);
    assert_eq!(count_after_failed_start(0, 8, 0), 0);
    assert_eq!(count_after_failed_start(1, 8, 6), 7);
}

#[test]
fn worker_thread_settings() {
    assert_eq!(thread_name(""), None);
    assert_eq!(thread_name("revived-worker"), Some("revived-worker".to_owned()));
    assert_eq!(stack_size_setting(0), None);
    assert_eq!(stack_size_setting(4096), Some(4096));
}

#[test]
fn worker_reads_messages() {
    assert_eq!(next_job_of::<u32>(None), None);
    assert_eq!(next_job_of::<u32>(Some(Message::Shutdown)), None);
    assert_eq!(next_job_of(Some(Message::Execute(3u32))), Some(3));
}

#[test]
fn queue_hands_jobs_and_shutdowns_in_order() {
    let queue = JobQueue::new();
    let worker = queue.worker_receiver();
    assert!(queue.post(5u32));
    assert!(queue.post(6u32));
    assert_eq!(next_job(&worker), Some(5));
    assert_eq!(queue.post_shutdowns(3), 3);
    assert_eq!(next_job(&worker), Some(6));
    assert_eq!(next_job(&worker), None);
    assert_eq!(next_job(&worker), None);
    assert_eq!(next_job(&worker), None);
    assert!(queue.post(7u32));
    assert_eq!(next_job(&worker), Some(7));
}

#[test]
fn queue_gone_stops_worker() {
    let queue = JobQueue::new();
    let worker = queue.worker_receiver();
    assert!(queue.post(1u8));
    drop(queue);
    assert_eq!(next_job(&worker), Some(1));
    assert_eq!(next_job(&worker), None);
}

#[test]
fn queue_shutdowns_zero() {
    let queue: JobQueue<u8> = JobQueue::new();
    assert_eq!(queue.post_shutdowns(0), 0);
}
