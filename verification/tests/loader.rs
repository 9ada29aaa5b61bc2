use pgrag::loader::{Access, ArtifactFetch, LoadError, ModelLoader, LOAD_POLL_MILLIS};

#[test]
fn first_caller_loads() {
    let mut loader: ModelLoader<&str> = ModelLoader::new();
    assert_eq!(loader.get_or_initialize(), Access::Load);
    assert!(matches!(loader, ModelLoader::Loading));
    assert!(loader.get().is_none());
}

#[test]
fn callers_during_the_load_wait() {
    let mut loader: ModelLoader<&str> = ModelLoader::new();
    assert_eq!(loader.get_or_initialize(), Access::Load);
    assert_eq!(LOAD_POLL_MILLIS, 20);
    assert_eq!(loader.get_or_initialize(), Access::Wait { millis: 20 });
    assert_eq!(loader.get_or_initialize(), Access::Wait { millis: 20 });
    assert!(loader.get().is_none());
}

#[test]
fn loaded_model_is_handed_to_every_caller() {
    let mut loader: ModelLoader<String> = ModelLoader::new();
    assert_eq!(loader.get_or_initialize(), Access::Load);
    loader.finish_load(Ok("model".to_string()));
    for _ in 0..3 {
        assert_eq!(loader.get_or_initialize(), Access::Settled);
        assert_eq!(loader.get(), Some(Ok(&"model".to_string())));
    }
}

#[test]
fn model_is_loaded_once_only() {
    let mut loader: ModelLoader<u32> = ModelLoader::new();
    let mut loads = 0;
    for round in 0..10 {
        if loader.get_or_initialize() == Access::Load {
            loads += 1;
        }
        if round == 4 {
            loader.finish_load(Ok(1));
        }
    }
    assert_eq!(loads, 1);
    assert_eq!(loader.get(), Some(Ok(&1)));
}

#[test]
fn failed_load_is_handed_to_every_caller() {
    let mut loader: ModelLoader<u32> = ModelLoader::new();
    assert_eq!(loader.get_or_initialize(), Access::Load);
    loader.finish_load(Err(LoadError::Malformed("bad magic".to_string())));
    for _ in 0..3 {
        assert_eq!(loader.get_or_initialize(), Access::Settled);
        assert_eq!(loader.get(), Some(Err(LoadError::Malformed("bad magic".to_string()))));
    }
}

#[test]
fn failed_load_is_not_tried_again() {
    let mut loader: ModelLoader<u32> = ModelLoader::new();
    assert_eq!(loader.get_or_initialize(), Access::Load);
    loader.finish_load(Err(LoadError::Status(503)));
    assert_ne!(loader.get_or_initialize(), Access::Load);
    // a late or stray report changes nothing
    loader.finish_load(Ok(9));
    assert_eq!(loader.get(), Some(Err(LoadError::Status(503))));
}

#[test]
fn first_outcome_is_never_replaced() {
    let mut loader: ModelLoader<u32> = ModelLoader::new();
    assert_eq!(loader.get_or_initialize(), Access::Load);
    loader.finish_load(Ok(1));
    loader.finish_load(Ok(2));
    loader.finish_load(Err(LoadError::Io("late".to_string())));
    assert_eq!(loader.get(), Some(Ok(&1)));
}

#[test]
fn report_without_a_load_is_ignored() {
    let mut loader: ModelLoader<u32> = ModelLoader::new();
    loader.finish_load(Ok(5));
    assert!(matches!(loader, ModelLoader::Empty));
    assert_eq!(loader.get_or_initialize(), Access::Load);
}

#[test]
fn load_error_messages() {
    assert_eq!(
        LoadError::Transport("connection reset".to_string()).message(),
        "Couldn't fetch model: connection reset"
    );
    assert_eq!(LoadError::Status(404).message(), "Couldn't fetch model: status 404");
    assert_eq!(LoadError::Io("short read".to_string()).message(), "Couldn't read model: short read");
    assert_eq!(
        LoadError::Malformed("not an ONNX file".to_string()).message(),
        "Couldn't parse model: not an ONNX file"
    );
    assert_eq!(
        LoadError::Construction("no such input".to_string()).message(),
        "Couldn't construct model: no such input"
    );
}

#[test]
fn load_error_clone_is_equal() {
    let errors = vec![
        LoadError::Transport("t".to_string()),
        LoadError::Status(500),
        LoadError::Io("i".to_string()),
        LoadError::Malformed("m".to_string()),
        LoadError::Construction("c".to_string()),
    ];
    for error in errors {
        assert_eq!(error.clone(), error);
    }
}

#[test]
fn fetch_begins_on_success_only() {
    for status in [200u16, 204, 299] {
        assert!(ArtifactFetch::begin(status, 0).is_ok());
    }
    for status in [0u16, 100, 199, 300, 301, 404, 500, 65535] {
        match ArtifactFetch::begin(status, 0) {
            Err(error) => assert_eq!(error, LoadError::Status(status)),
            Ok(_) => panic!("status {} accepted", status),
        }
    }
}

#[test]
fn fetch_puts_the_pieces_together_in_order() {
    let mut fetch = ArtifactFetch::begin(200, 16).ok().unwrap();
    assert_eq!(fetch.accept(Ok(vec![1, 2, 3])), Ok(()));
    assert_eq!(fetch.accept(Ok(vec![])), Ok(()));
    assert_eq!(fetch.accept(Ok(vec![4])), Ok(()));
    assert_eq!(fetch.accept(Ok(vec![5, 6])), Ok(()));
    assert_eq!(fetch.finish(), vec![1, 2, 3, 4, 5, 6]);
}

#[test]
fn fetch_of_an_empty_body() {
    let fetch = ArtifactFetch::begin(200, 0).ok().unwrap();
    assert!(fetch.finish().is_empty());
}

#[test]
fn fetch_ends_on_a_transport_failure() {
    let mut fetch = ArtifactFetch::begin(200, 0).ok().unwrap();
    assert_eq!(fetch.accept(Ok(vec![9, 9])), Ok(()));
    assert_eq!(
        fetch.accept(Err("connection closed".to_string())),
        Err(LoadError::Transport("connection closed".to_string()))
    );
    assert_eq!(fetch.finish(), vec![9, 9]);
}
