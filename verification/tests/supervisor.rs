use pgrag::supervisor::{
    Restart, Supervisor, WorkerExit, WorkerRegistration, RESTART_DELAY_SECS, RESTART_LIMIT,
};

#[test]
fn init_records_the_identity_and_registers_the_worker() {
    let mut supervisor = Supervisor::new(RESTART_LIMIT);
    assert_eq!(supervisor.pid(), None);
    let registration = supervisor.init(4242, "rag_bge_small_en_v15", "embeddings").unwrap();
    assert_eq!(supervisor.pid(), Some(4242));
    assert_eq!(
        registration,
        WorkerRegistration {
            name: "rag_bge_small_en_v15 embeddings background worker".to_string(),
            library: "rag_bge_small_en_v15".to_string(),
            function: "background_main".to_string(),
            argument: 4242,
            restart_secs: 1,
            spi_access: true,
        }
    );
}

#[test]
fn init_of_the_reranking_worker() {
    let mut supervisor = Supervisor::new(RESTART_LIMIT);
    let registration = supervisor.init(9, "rag_jina_reranker_v1_tiny_en", "reranking").unwrap();
    assert_eq!(registration.name, "rag_jina_reranker_v1_tiny_en reranking background worker");
    assert_eq!(registration.library, "rag_jina_reranker_v1_tiny_en");
    assert_eq!(registration.argument, 9);
}

#[test]
fn init_takes_the_largest_process_id() {
    let mut supervisor = Supervisor::new(RESTART_LIMIT);
    let registration = supervisor.init(u32::MAX, "ext", "embeddings").unwrap();
    assert_eq!(registration.argument, 4294967295);
    assert_eq!(supervisor.pid(), Some(4294967295));
}

#[test]
fn identity_is_recorded_once() {
    let mut supervisor = Supervisor::new(RESTART_LIMIT);
    supervisor.init(100, "ext", "embeddings").unwrap();
    let error = supervisor.init(200, "ext", "embeddings").unwrap_err();
    assert_eq!(
        error.message,
        "[neon_ai] Impossible concurrent access to set PID value: 200"
    );
    assert_eq!(supervisor.pid(), Some(100));
}

#[test]
fn worker_gets_the_identity_that_the_client_reads() {
    let mut supervisor = Supervisor::new(RESTART_LIMIT);
    let registration = supervisor.init(31337, "ext", "embeddings").unwrap();
    assert_eq!(Some(registration.argument), supervisor.pid());
}

#[test]
fn worker_that_ended_unexpectedly_is_restarted_after_a_second() {
    assert_eq!(RESTART_DELAY_SECS, 1);
    let mut supervisor = Supervisor::new(100);
    for _ in 0..100 {
        assert_eq!(
            supervisor.worker_exited(WorkerExit::Unexpected),
            Restart::After { secs: 1 }
        );
    }
}

#[test]
fn supervisor_gives_up_at_its_limit() {
    assert_eq!(RESTART_LIMIT, 10);
    let mut supervisor = Supervisor::new(RESTART_LIMIT);
    let mut restarts = 0;
    for _ in 0..25 {
        if supervisor.worker_exited(WorkerExit::Unexpected) == (Restart::After { secs: 1 }) {
            restarts += 1;
        }
    }
    assert_eq!(restarts, 10);
    assert_eq!(supervisor.worker_exited(WorkerExit::Unexpected), Restart::Never);
}

#[test]
fn supervisor_with_the_largest_limit() {
    let mut supervisor = Supervisor::new(u64::MAX);
    for _ in 0..1000 {
        assert_eq!(
            supervisor.worker_exited(WorkerExit::Unexpected),
            Restart::After { secs: 1 }
        );
    }
}

#[test]
fn worker_that_was_shut_down_is_left_alone() {
    let mut supervisor = Supervisor::new(RESTART_LIMIT);
    assert_eq!(supervisor.worker_exited(WorkerExit::Shutdown), Restart::Never);
    let mut limited = Supervisor::new(3);
    assert_eq!(limited.worker_exited(WorkerExit::Shutdown), Restart::Never);
}

#[test]
fn supervisor_with_a_limit_gives_up() {
    let mut supervisor = Supervisor::new(3);
    for _ in 0..3 {
        assert_eq!(
            supervisor.worker_exited(WorkerExit::Unexpected),
            Restart::After { secs: 1 }
        );
    }
    for _ in 0..5 {
        assert_eq!(supervisor.worker_exited(WorkerExit::Unexpected), Restart::Never);
    }
}

#[test]
fn shutdowns_do_not_count_against_the_limit() {
    let mut supervisor = Supervisor::new(1);
    assert_eq!(supervisor.worker_exited(WorkerExit::Shutdown), Restart::Never);
    assert_eq!(supervisor.worker_exited(WorkerExit::Shutdown), Restart::Never);
    assert_eq!(
        supervisor.worker_exited(WorkerExit::Unexpected),
        Restart::After { secs: 1 }
    );
    assert_eq!(supervisor.worker_exited(WorkerExit::Unexpected), Restart::Never);
}

#[test]
fn supervisor_with_limit_zero_never_restarts() {
    let mut supervisor = Supervisor::new(0);
    assert_eq!(supervisor.worker_exited(WorkerExit::Unexpected), Restart::Never);
}

#[test]
fn restarts_keep_the_identity() {
    let mut supervisor = Supervisor::new(RESTART_LIMIT);
    supervisor.init(55, "ext", "reranking").unwrap();
    supervisor.worker_exited(WorkerExit::Unexpected);
    supervisor.worker_exited(WorkerExit::Shutdown);
    assert_eq!(supervisor.pid(), Some(55));
}
