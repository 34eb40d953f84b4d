use bigml::resource::status::{
    classify, GenericResourceStatus, ResourceStatusCode, StatusCategory, StatusCodeError,
};

const ALL: [ResourceStatusCode; 8] = [
    ResourceStatusCode::Waiting,
    ResourceStatusCode::Queued,
    ResourceStatusCode::Started,
    ResourceStatusCode::InProgress,
    ResourceStatusCode::Summarized,
    ResourceStatusCode::Finished,
    ResourceStatusCode::Faulty,
    ResourceStatusCode::Unknown,
];

#[test]
fn working_states_are_the_first_five() {
    for (i, status) in ALL.iter().enumerate() {
        assert_eq!(status.is_working(), i < 5, "{:?}", status);
    }
}

#[test]
fn only_finished_is_ready() {
    for status in ALL.iter() {
        assert_eq!(status.is_ready(), *status == ResourceStatusCode::Finished);
    }
}

#[test]
fn faulty_and_unknown_are_errors() {
    for status in ALL.iter() {
        let expected =
            *status == ResourceStatusCode::Faulty || *status == ResourceStatusCode::Unknown;
        assert_eq!(status.is_err(), expected);
    }
}

#[test]
fn every_state_is_in_exactly_one_class() {
    for status in ALL.iter() {
        let n = [status.is_working(), status.is_ready(), status.is_err()]
            .iter()
            .filter(|b| **b)
            .count();
        assert_eq!(n, 1);
    }
}

#[test]
fn codes_decode_to_their_states() {
    assert_eq!(ResourceStatusCode::from_code(0), Ok(ResourceStatusCode::Waiting));
    assert_eq!(ResourceStatusCode::from_code(1), Ok(ResourceStatusCode::Queued));
    assert_eq!(ResourceStatusCode::from_code(2), Ok(ResourceStatusCode::Started));
    assert_eq!(ResourceStatusCode::from_code(3), Ok(ResourceStatusCode::InProgress));
    assert_eq!(ResourceStatusCode::from_code(4), Ok(ResourceStatusCode::Summarized));
    assert_eq!(ResourceStatusCode::from_code(5), Ok(ResourceStatusCode::Finished));
    assert_eq!(ResourceStatusCode::from_code(-1), Ok(ResourceStatusCode::Faulty));
    assert_eq!(ResourceStatusCode::from_code(-2), Ok(ResourceStatusCode::Unknown));
}

#[test]
fn other_numbers_are_refused_with_the_number() {
    assert_eq!(ResourceStatusCode::from_code(6), Err(StatusCodeError { code: 6 }));
    assert_eq!(ResourceStatusCode::from_code(-3), Err(StatusCodeError { code: -3 }));
    assert_eq!(
        ResourceStatusCode::from_code(i64::MAX),
        Err(StatusCodeError { code: i64::MAX })
    );
}

#[test]
fn code_and_from_code_round_trip() {
    for status in ALL.iter() {
        assert_eq!(ResourceStatusCode::from_code(status.code()), Ok(*status));
    }
}

#[test]
fn categories() {
    assert_eq!(ResourceStatusCode::Waiting.category(), StatusCategory::Working);
    assert_eq!(ResourceStatusCode::Summarized.category(), StatusCategory::Working);
    assert_eq!(ResourceStatusCode::Finished.category(), StatusCategory::Ready);
    assert_eq!(ResourceStatusCode::Faulty.category(), StatusCategory::Error);
    assert_eq!(ResourceStatusCode::Unknown.category(), StatusCategory::Unknown);
}

#[test]
fn classifying_twice_gives_the_same_category() {
    for code in -5i64..10 {
        assert_eq!(classify(code), classify(code));
    }
    assert_eq!(classify(3), StatusCategory::Working);
    assert_eq!(classify(5), StatusCategory::Ready);
    assert_eq!(classify(-1), StatusCategory::Error);
    assert_eq!(classify(-2), StatusCategory::Unknown);
    assert_eq!(classify(77), StatusCategory::Unknown);
}

#[test]
fn generic_status_getters() {
    let status = GenericResourceStatus {
        code: ResourceStatusCode::Started,
        message: "working on it".to_owned(),
        elapsed: Some(1200),
    };
    assert_eq!(status.code(), ResourceStatusCode::Started);
    assert_eq!(status.message(), "working on it");
    assert_eq!(status.elapsed(), Some(1200));
}
