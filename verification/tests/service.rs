use pgrag::loader::LoadError;
use pgrag::pool::{report, ChannelError, ComputeError, ComputePool, TaskEnd};
use pgrag::rerank::Reranking;
use pgrag::scalar::Scalar;
use pgrag::service::{
    EmbeddingGeneratorStruct, EmbeddingReply, Outcome, RerankerStruct, RerankingReply,
    RerankingRequest, ServiceError,
};

fn scalars(values: &[f32]) -> Vec<Scalar> {
    values.iter().map(|v| Scalar { bits: v.to_bits() }).collect()
}

fn embedder() -> EmbeddingGeneratorStruct {
    EmbeddingGeneratorStruct::new(Some(2)).ok().unwrap()
}

fn reranker() -> RerankerStruct {
    RerankerStruct::new(Some(2)).ok().unwrap()
}

fn request(passages: &[&str]) -> RerankingRequest {
    RerankingRequest {
        query: "pet".to_string(),
        passages: passages.iter().map(|p| p.to_string()).collect(),
    }
}

#[test]
fn services_size_their_pools() {
    assert_eq!(EmbeddingGeneratorStruct::new(Some(4)).ok().unwrap().thread_pool().threads(), 3);
    assert_eq!(RerankerStruct::new(Some(1)).ok().unwrap().thread_pool().threads(), 1);
    assert_eq!(RerankerStruct::new(None).ok().unwrap().thread_pool().threads(), 0);
}

#[test]
fn services_compute_on_the_pool_they_are_given() {
    let pool = ComputePool::new(Some(3)).ok().unwrap();
    let service = EmbeddingGeneratorStruct::with_pool(pool);
    assert_eq!(service.thread_pool().threads(), 2);
    assert_eq!(service.thread_pool().thread_pool().current_num_threads(), 2);
    let pool = ComputePool::new(Some(5)).ok().unwrap();
    let service = RerankerStruct::with_pool(pool);
    assert_eq!(service.thread_pool().threads(), 4);
    assert_eq!(service.thread_pool().thread_pool().current_num_threads(), 4);
}

#[test]
fn get_embedding_replies_the_first_vector() {
    let computed = vec![scalars(&[0.1, 0.2, 0.3]), scalars(&[9.0])];
    let reply = embedder().get_embedding(Outcome::Reported(Ok(computed)));
    assert_eq!(reply, Ok(EmbeddingReply { embedding: scalars(&[0.1, 0.2, 0.3]) }));
}

#[test]
fn get_embedding_of_an_empty_result_is_an_error() {
    let reply = embedder().get_embedding(Outcome::Reported(Ok(vec![])));
    assert_eq!(reply, Err(ServiceError::Compute(ComputeError::Empty)));
}

#[test]
fn get_embedding_of_an_empty_first_vector() {
    let reply = embedder().get_embedding(Outcome::Reported(Ok(vec![vec![]])));
    assert_eq!(reply, Ok(EmbeddingReply { embedding: vec![] }));
}

#[test]
fn get_embedding_without_a_model() {
    let reply = embedder().get_embedding(Outcome::Unloaded(LoadError::Status(404)));
    assert_eq!(reply, Err(ServiceError::Load(LoadError::Status(404))));
}

#[test]
fn get_embedding_when_the_thread_died() {
    let reply = embedder().get_embedding(Outcome::Lost);
    assert_eq!(reply, Err(ServiceError::Channel(ChannelError)));
}

#[test]
fn get_embedding_when_the_computation_failed() {
    let failed = Outcome::Reported(Err(ComputeError::Failed("bad shape".to_string())));
    assert_eq!(
        embedder().get_embedding(failed),
        Err(ServiceError::Compute(ComputeError::Failed("bad shape".to_string())))
    );
}

#[test]
fn embedding_status_texts() {
    let service = embedder();
    assert_eq!(
        service.status(&ServiceError::Channel(ChannelError)),
        "Embedding process crashed"
    );
    assert_eq!(
        service.status(&ServiceError::Load(LoadError::Status(500))),
        "Couldn't fetch model: status 500"
    );
    assert_eq!(
        service.status(&ServiceError::Compute(ComputeError::Empty)),
        "Empty result vector"
    );
    assert_eq!(
        service.status(&ServiceError::Compute(ComputeError::Panicked("boom".to_string()))),
        "Inference panicked: boom"
    );
}

#[test]
fn reranking_status_texts() {
    let service = reranker();
    assert_eq!(
        service.status(&ServiceError::Channel(ChannelError)),
        "Reranking process crashed"
    );
    assert_eq!(
        service.status(&ServiceError::Compute(ComputeError::Failed("no logits".to_string()))),
        "no logits"
    );
}

#[test]
fn rerank_replies_scores_in_the_order_of_the_passages() {
    let results = vec![
        Reranking { index: 2, score: Scalar { bits: 30 } },
        Reranking { index: 0, score: Scalar { bits: 10 } },
        Reranking { index: 1, score: Scalar { bits: 20 } },
    ];
    let reply = reranker().rerank(&request(&["a", "b", "c"]), Outcome::Reported(Ok(results)));
    let expected = vec![Scalar { bits: 10 }, Scalar { bits: 20 }, Scalar { bits: 30 }];
    assert_eq!(reply, Ok(RerankingReply { scores: expected }));
}

#[test]
fn rerank_of_no_passages_is_an_empty_reply() {
    let reply = reranker().rerank(&request(&[]), Outcome::Reported(Ok(vec![])));
    assert_eq!(reply, Ok(RerankingReply { scores: vec![] }));
}

#[test]
fn rerank_that_came_back_empty_is_an_error() {
    let reply = reranker().rerank(&request(&["a", "b"]), Outcome::Reported(Ok(vec![])));
    assert_eq!(reply, Err(ServiceError::Compute(ComputeError::Empty)));
}

#[test]
fn rerank_without_a_model() {
    let unloaded = Outcome::Unloaded(LoadError::Malformed("truncated".to_string()));
    assert_eq!(
        reranker().rerank(&request(&["a"]), unloaded),
        Err(ServiceError::Load(LoadError::Malformed("truncated".to_string())))
    );
}

#[test]
fn rerank_when_the_thread_died() {
    assert_eq!(
        reranker().rerank(&request(&["a"]), Outcome::Lost),
        Err(ServiceError::Channel(ChannelError))
    );
}

#[test]
fn panic_in_one_task_fails_that_request_only() {
    let service = embedder();
    let crashed: Result<Vec<Vec<Scalar>>, ComputeError> =
        report(TaskEnd::Panicked("attempt to divide by zero".to_string()));
    assert_eq!(
        service.get_embedding(Outcome::Reported(crashed)),
        Err(ServiceError::Compute(ComputeError::Panicked(
            "attempt to divide by zero".to_string()
        )))
    );
    // the next request on the same service is answered
    let fine = report(TaskEnd::Returned(vec![scalars(&[1.0, 2.0])]));
    assert_eq!(
        service.get_embedding(Outcome::Reported(fine)),
        Ok(EmbeddingReply { embedding: scalars(&[1.0, 2.0]) })
    );
}

#[test]
fn panic_and_dead_thread_are_told_apart() {
    let service = reranker();
    let panicked: Result<Vec<Reranking>, ComputeError> =
        report(TaskEnd::Panicked("boom".to_string()));
    let by_panic = service.rerank(&request(&["a"]), Outcome::Reported(panicked)).unwrap_err();
    let by_death = service.rerank(&request(&["a"]), Outcome::Lost).unwrap_err();
    assert_ne!(by_panic, by_death);
    assert_ne!(service.status(&by_panic), service.status(&by_death));
}
