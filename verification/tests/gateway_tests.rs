use notify_gateway::delivery::build_document_payloads;
use notify_gateway::delivery::build_message_payloads;
use notify_gateway::delivery::DeliveryOutcome;
use notify_gateway::handler::aggregate_outcomes;
use notify_gateway::handler::extract_client_address;
use notify_gateway::handler::plan_document_post;
use notify_gateway::handler::plan_text_post;
use notify_gateway::handler::ClientAddressInfo;
use notify_gateway::multipart::MultipartBody;
use notify_gateway::net::CidrBlock;
use notify_gateway::net::IpAddress;
use notify_gateway::net::Topic;
use notify_gateway::registry::TopicRegistry;

fn v4(a: u8, b: u8, c: u8, d: u8) -> IpAddress {
    IpAddress::V4(u32::from_be_bytes([a, b, c, d]))
}

fn ops_registry() -> TopicRegistry {
    let mut registry = TopicRegistry::new();
    let topic = Topic {
        recipients: vec!["111".to_string(), "222".to_string()],
        allow_list: vec![CidrBlock::new(v4(10, 0, 0, 0), 8).unwrap()],
    };
    assert!(registry.add_topic("ops".to_string(), topic));
    registry
}

#[test]
fn text_post_scenario_composes_and_fans_out() {
    let registry = ops_registry();
    let plan = match plan_text_post(
        &registry,
        &"ops".to_string(),
        &"alice".to_string(),
        &"disk full".to_string(),
        v4(10, 1, 2, 3),
    ) {
        Ok(plan) => plan,
        Err(resp) => panic!("expected a delivery plan, got status {}", resp.status),
    };
    assert_eq!(plan.text.as_str(), "From: *alice@ops*\n\ndisk full");
    let payloads = build_message_payloads(plan.recipients, "ops", "alice", "disk full");
    assert_eq!(payloads.len(), 2);
    assert_eq!(payloads[0].chat_id, "111");
    assert_eq!(payloads[1].chat_id, "222");
    for p in &payloads {
        assert_eq!(p.text.as_str(), "From: *alice@ops*\n\ndisk full");
        assert_eq!(p.parse_mode, "MarkdownV2");
    }
    let outcomes = vec![DeliveryOutcome::Delivered(200), DeliveryOutcome::Delivered(200)];
    let resp = aggregate_outcomes(&outcomes);
    assert_eq!(resp.status, 204);
    assert_eq!(resp.body.as_str(), "");
}

#[test]
fn sender_is_escaped_but_topic_and_text_are_not() {
    let registry = ops_registry();
    let plan = plan_text_post(
        &registry,
        &"ops".to_string(),
        &"a.lice!".to_string(),
        &"disk.full".to_string(),
        v4(10, 1, 2, 3),
    )
    .unwrap_or_else(|_| panic!("expected a delivery plan"));
    assert_eq!(plan.text.as_str(), "From: *a\\.lice\\!@ops*\n\ndisk.full");
}

#[test]
fn unknown_topic_is_not_found_whatever_else_is_configured() {
    let registry = ops_registry();
    // The caller's address is inside the only configured allow-list; the
    // name alone decides.
    let r = plan_text_post(
        &registry,
        &"missing".to_string(),
        &"alice".to_string(),
        &"hi".to_string(),
        v4(10, 1, 2, 3),
    );
    match r {
        Err(resp) => {
            assert_eq!(resp.status, 404);
            assert_eq!(resp.body.as_str(), "No such topic");
        },
        Ok(_) => panic!("an unknown topic must not be delivered to"),
    }
}

#[test]
fn unauthorized_address_is_answered_as_not_found() {
    let registry = ops_registry();
    let r = plan_text_post(
        &registry,
        &"ops".to_string(),
        &"alice".to_string(),
        &"hi".to_string(),
        v4(11, 1, 2, 3),
    );
    match r {
        Err(resp) => {
            assert_eq!(resp.status, 404);
            assert_eq!(resp.body.as_str(), "No such topic");
        },
        Ok(_) => panic!("an address outside the allow-list must be refused"),
    }
}

#[test]
fn one_failed_recipient_fails_the_aggregate_but_all_outcomes_are_kept() {
    // Three recipients; the second one's downstream call failed.
    let outcomes = vec![
        DeliveryOutcome::Delivered(200),
        DeliveryOutcome::Delivered(502),
        DeliveryOutcome::Delivered(200),
    ];
    assert_eq!(outcomes.len(), 3);
    let resp = aggregate_outcomes(&outcomes);
    assert_eq!(resp.status, 500);
    assert_eq!(resp.body.as_str(), "bAdBaDnOtGoOd");

    let transport_failure = vec![
        DeliveryOutcome::Delivered(204),
        DeliveryOutcome::TransportFailed,
        DeliveryOutcome::Delivered(200),
    ];
    assert_eq!(aggregate_outcomes(&transport_failure).status, 500);
}

#[test]
fn empty_fan_out_is_vacuously_successful() {
    let resp = aggregate_outcomes(&Vec::new());
    assert_eq!(resp.status, 204);
}

#[test]
fn any_2xx_status_counts_as_delivered() {
    let outcomes = vec![DeliveryOutcome::Delivered(200), DeliveryOutcome::Delivered(299)];
    assert_eq!(aggregate_outcomes(&outcomes).status, 204);
    let redirect = vec![DeliveryOutcome::Delivered(301)];
    assert_eq!(aggregate_outcomes(&redirect).status, 500);
}

#[test]
fn document_post_builds_caption_and_payloads() {
    let registry = ops_registry();
    let body = MultipartBody {
        message: "see attachment".to_string(),
        filename: "report.pdf".to_string(),
        content: vec![9, 8, 7],
    };
    let plan = plan_document_post(
        &registry,
        &"ops".to_string(),
        &"bob".to_string(),
        body,
        v4(10, 200, 0, 1),
    )
    .unwrap_or_else(|_| panic!("expected a document delivery plan"));
    assert_eq!(plan.caption.as_str(), "From: *bob@ops*\n\nsee attachment");
    assert_eq!(plan.filename.as_str(), "report.pdf");
    assert_eq!(plan.content, vec![9, 8, 7]);
    let payloads = build_document_payloads(plan.recipients, &plan.caption, &plan.filename, &plan.content);
    assert_eq!(payloads.len(), 2);
    assert_eq!(payloads[0].chat_id, "111");
    assert_eq!(payloads[1].chat_id, "222");
    for p in &payloads {
        assert_eq!(p.caption.as_str(), "From: *bob@ops*\n\nsee attachment");
        assert_eq!(p.filename.as_str(), "report.pdf");
        assert_eq!(p.content, vec![9, 8, 7]);
        assert_eq!(p.parse_mode, "MarkdownV2");
    }
}

#[test]
fn document_post_to_unknown_topic_is_not_found() {
    let registry = ops_registry();
    let body = MultipartBody {
        message: String::new(),
        filename: "f".to_string(),
        content: vec![1],
    };
    match plan_document_post(
        &registry,
        &"nowhere".to_string(),
        &"bob".to_string(),
        body,
        v4(10, 0, 0, 1),
    ) {
        Err(resp) => assert_eq!(resp.status, 404),
        Ok(_) => panic!("an unknown topic must not be delivered to"),
    }
}

#[test]
fn client_address_extraction_errors_are_local_500s() {
    match extract_client_address(&ClientAddressInfo::Known(v4(10, 0, 0, 1))) {
        Ok(a) => assert_eq!(a, v4(10, 0, 0, 1)),
        Err(_) => panic!("a known address must be handed through"),
    }
    match extract_client_address(&ClientAddressInfo::Missing) {
        Err(resp) => {
            assert_eq!(resp.status, 500);
            assert_eq!(resp.body.as_str(), "Cannot get ip address string from request");
        },
        Ok(_) => panic!("a missing address string is a local error"),
    }
    match extract_client_address(&ClientAddressInfo::Unparsable) {
        Err(resp) => {
            assert_eq!(resp.status, 500);
            assert_eq!(resp.body.as_str(), "Cannot parse ip address from string");
        },
        Ok(_) => panic!("an unparsable address string is a local error"),
    }
}

#[test]
fn registry_refuses_a_duplicate_name_and_keeps_the_first_topic() {
    let mut registry = TopicRegistry::new();
    let first = Topic {
        recipients: vec!["111".to_string()],
        allow_list: vec![CidrBlock::new(v4(10, 0, 0, 0), 8).unwrap()],
    };
    let second = Topic { recipients: vec!["999".to_string()], allow_list: vec![] };
    assert!(registry.add_topic("ops".to_string(), first));
    assert!(!registry.add_topic("ops".to_string(), second));
    let topic = registry.resolve(&"ops".to_string()).unwrap_or_else(|| panic!("ops must resolve"));
    assert_eq!(topic.recipients, vec!["111".to_string()]);
}

#[test]
fn empty_recipient_list_delivers_vacuously() {
    let mut registry = TopicRegistry::new();
    let topic = Topic {
        recipients: vec![],
        allow_list: vec![CidrBlock::new(v4(0, 0, 0, 0), 0).unwrap()],
    };
    assert!(registry.add_topic("quiet".to_string(), topic));
    let plan = plan_text_post(
        &registry,
        &"quiet".to_string(),
        &"alice".to_string(),
        &"hi".to_string(),
        v4(1, 2, 3, 4),
    )
    .unwrap_or_else(|_| panic!("an empty recipient list is not an error"));
    let payloads = build_message_payloads(plan.recipients, "quiet", "alice", "hi");
    assert_eq!(payloads.len(), 0);
    assert_eq!(aggregate_outcomes(&Vec::new()).status, 204);
}
