use mqtt::common::topic_filter::TopicFilter;

#[test]
fn test_serialize() {
    let topic_filter = TopicFilter {
        topic_filter: "topic".to_string(),
        subscription_options: 0,
    };

    let bytes = topic_filter.as_bytes();
    let deserialized = TopicFilter::from_be_bytes(bytes);

    assert_eq!(topic_filter.topic_filter, deserialized.topic_filter);
    assert_eq!(topic_filter.subscription_options, deserialized.subscription_options);
}

#[test]
fn topic_filter_bytes() {
    let topic_filter = TopicFilter { topic_filter: "ab".to_string(), subscription_options: 5 };
    assert_eq!(topic_filter.as_bytes(), vec![3, b'a', b'b', 5]);
}
