use huttripper::helpers::sqs_helper::{
    create_sqs_helper, SQSGetQueueUrlError, SQSHelper, SQSReceiveMessageError,
    SQSSendMessageError,
};

fn queue() -> SQSHelper {
    create_sqs_helper("reports", Ok(Some("https://sqs.example/1/reports".to_string()))).unwrap()
}

#[test]
fn create_sqs_helper_binds_the_resolved_address() {
    assert_eq!(queue().queue_url, "https://sqs.example/1/reports");
}

#[test]
fn create_sqs_helper_fails_when_the_name_cannot_be_resolved() {
    assert_eq!(
        create_sqs_helper("reports", Err("queue does not exist".to_string())),
        Err(SQSGetQueueUrlError { message: "queue does not exist".to_string() })
    );
}

#[test]
fn create_sqs_helper_fails_on_an_answer_without_an_address() {
    assert_eq!(
        create_sqs_helper("reports", Ok(None)),
        Err(SQSGetQueueUrlError {
            message: "failed to get queue url for queue name: reports".to_string(),
        })
    );
}

#[test]
fn send_message_maps_the_outcome() {
    assert_eq!(queue().send_message(Ok(())), Ok(()));
    assert_eq!(
        queue().send_message(Err("throttled".to_string())),
        Err(SQSSendMessageError { message: "throttled".to_string() })
    );
}

#[test]
fn receive_messages_hands_the_messages_over_in_order() {
    assert_eq!(queue().receive_messages(Ok(Some(vec!["a", "b"]))), Ok(vec!["a", "b"]));
}

#[test]
fn receive_messages_without_a_list_is_empty() {
    assert_eq!(queue().receive_messages::<String>(Ok(None)), Ok(vec![]));
    assert_eq!(queue().receive_messages::<String>(Ok(Some(vec![]))), Ok(vec![]));
}

#[test]
fn receive_messages_fails_when_the_poll_fails() {
    assert_eq!(
        queue().receive_messages::<String>(Err("access denied".to_string())),
        Err(SQSReceiveMessageError { message: "access denied".to_string() })
    );
}
